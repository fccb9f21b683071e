//! What each instruction word does, stated over the word's digits and the
//! machine's state in plain arithmetic.

use vstd::prelude::*;

use crate::cpu::{
    Controls, CpuState, SCREEN_HEIGHT, SCREEN_WIDTH, controls_applied, controls_in_range,
    cycle_finished, font_loaded, op_code_at, power_on_state, reset_state, timers_ticked,
};
use crate::font::FONTSET;
use crate::instruction::decode_spec;
use crate::laws::well_formed;
use crate::semantics::{Outcome, next_state, outcome_of, safe_to_execute};

verus! {

/// The loop's next step after an instruction word: only `1nnn` and `2nnn`
/// skip the advance of `pc`, only `Dxyn` redraws, the words outside the
/// instruction set halt, and every other word continues.
pub proof fn law_outcome_of_word(op: u16)
    ensures
        ({
            let a = op / 4096;
            let d = op % 16;
            let kk = op % 256;
            let unknown = a == 0xB || (a == 0 && op != 0x00E0 && op != 0x00EE) || ((a == 5 || a
                == 9) && d != 0) || (a == 8 && !(d <= 7 || d == 0xE)) || (a == 0xE && kk != 0x9E
                && kk != 0xA1) || (a == 0xF && kk != 0x07 && kk != 0x0A && kk != 0x15 && kk
                != 0x18 && kk != 0x1E && kk != 0x29 && kk != 0x33 && kk != 0x55 && kk != 0x65);
            &&& (outcome_of(decode_spec(op)) == Outcome::Jumped) == (a == 1 || a == 2)
            &&& (outcome_of(decode_spec(op)) == Outcome::Redraw) == (a == 0xD)
            &&& (outcome_of(decode_spec(op)) == Outcome::Halted) == unknown
            &&& (outcome_of(decode_spec(op)) == Outcome::Continue) == !(a == 1 || a == 2 || a
                == 0xD || unknown)
        }),
{
}

/// `7xkk` adds the whole low byte of the word to `Vx`, modulo 256, and
/// touches nothing else.
pub proof fn law_add_byte(m: CpuState, op: u16, keys: Seq<bool>, random: u8)
    requires
        well_formed(m),
        op / 4096 == 7,
    ensures
        ({
            let s = next_state(m, decode_spec(op), keys, random);
            let x = ((op / 256) % 16) as int;
            &&& s.r[x] == (m.r[x] + op % 256) % 256
            &&& forall|k: int| 0 <= k < 16 && k != x ==> #[trigger] s.r[k] == m.r[k]
            &&& s.pc == m.pc && s.i == m.i && s.memory == m.memory && s.display == m.display
        }),
{
}

/// `Fx1E` adds `Vx` to `I` as integers, touching nothing else.
pub proof fn law_add_index(m: CpuState, op: u16, keys: Seq<bool>, random: u8)
    requires
        well_formed(m),
        op / 4096 == 0xF,
        op % 256 == 0x1E,
        m.i + m.r[((op / 256) % 16) as int] <= u16::MAX,
    ensures
        ({
            let s = next_state(m, decode_spec(op), keys, random);
            let x = ((op / 256) % 16) as int;
            &&& s.i == m.i + m.r[x]
            &&& s.r == m.r && s.pc == m.pc && s.memory == m.memory
        }),
{
}

/// A clock tick counts each timer down by one, stopping at zero, each on
/// its own, and changes nothing else; the end of a cycle ticks when the
/// clock ticked and moves `pc` on by one word.
pub proof fn law_timer_tick(m: CpuState, tick: bool)
    requires
        m.pc + 2 <= u16::MAX,
    ensures
        timers_ticked(m) == (CpuState {
            delay_timer: if m.delay_timer == 0 { 0 } else { (m.delay_timer - 1) as u8 },
            sound_timer: if m.sound_timer == 0 { 0 } else { (m.sound_timer - 1) as u8 },
            ..m
        }),
        cycle_finished(m, tick) == (CpuState {
            pc: (m.pc + 2) as u16,
            delay_timer: if tick && m.delay_timer > 0 { (m.delay_timer - 1) as u8 } else { m.delay_timer },
            sound_timer: if tick && m.sound_timer > 0 { (m.sound_timer - 1) as u8 } else { m.sound_timer },
            ..m
        }),
        cycle_finished(m, tick).pc == m.pc + 2,
{
}

/// Which part of the state each instruction word may change: the pauses
/// never; the timers only by `Fx15` and `Fx18`; `I` only by `Annn`,
/// `Fx1E`, `Fx29`; the stack pointer only by `00EE` and `2nnn`, the stack
/// only by `2nnn`; memory only by `Fx33` and `Fx55`; the screen only by
/// `00E0` and `Dxyn`; the registers only by `6xkk`, `7xkk`, `8xyN`, `Cxkk`,
/// `Dxyn`, `Fx07`, `Fx0A`, `Fx65`; `pc` only by jumps, calls, returns and skips.
pub proof fn law_word_frame(m: CpuState, op: u16, keys: Seq<bool>, random: u8)
    ensures
        ({
            let s = next_state(m, decode_spec(op), keys, random);
            let a = op / 4096;
            let kk = op % 256;
            &&& s.delay_between_instructions == m.delay_between_instructions
            &&& s.delay_between_cycles == m.delay_between_cycles
            &&& !(a == 0xF && kk == 0x15) ==> s.delay_timer == m.delay_timer
            &&& !(a == 0xF && kk == 0x18) ==> s.sound_timer == m.sound_timer
            &&& !(a == 0xA || (a == 0xF && (kk == 0x1E || kk == 0x29))) ==> s.i == m.i
            &&& !(op == 0x00EE || a == 2) ==> s.sp == m.sp
            &&& a != 2 ==> s.stack == m.stack
            &&& !(a == 0xF && (kk == 0x33 || kk == 0x55)) ==> s.memory == m.memory
            &&& !(op == 0x00E0 || a == 0xD) ==> s.display == m.display
            &&& !(a == 6 || a == 7 || a == 8 || a == 0xC || a == 0xD || (a == 0xF && (kk == 0x07
                || kk == 0x0A || kk == 0x65))) ==> s.r == m.r
            &&& !(op == 0x00EE || a == 1 || a == 2 || a == 3 || a == 4 || a == 5 || a == 9 || a
                == 0xE) ==> s.pc == m.pc
        }),
{
}

proof fn lemma_xor_bit(a: u8, p: u8)
    requires
        p <= 1,
    ensures
        (a == 1 && a ^ p == 0) == (a == 1 && p == 1),
{
    assert((a == 1 && a ^ p == 0) == (a == 1 && p == 1)) by (bit_vector)
        requires
            p <= 1,
    ;
}

proof fn lemma_pixel_bit(byte: u8, s: u8)
    ensures
        (byte >> s) & 1u8 <= 1,
{
    assert((byte >> s) & 1u8 <= 1) by (bit_vector);
}

/// `Dxyn` sets `VF` to 1 exactly when it turns a lit cell dark, and to 0
/// otherwise: a lit cell under a 0 bit of the sprite does not count.
pub proof fn law_draw_collision(m: CpuState, op: u16, keys: Seq<bool>, random: u8)
    requires
        well_formed(m),
        op / 4096 == 0xD,
    ensures
        ({
            let s = next_state(m, decode_spec(op), keys, random);
            &&& s.r[15] == 0 || s.r[15] == 1
            &&& (s.r[15] == 1) == exists|y: int, x: int|
                0 <= y < SCREEN_HEIGHT && 0 <= x < SCREEN_WIDTH && m.display[y][x] == 1
                    && #[trigger] s.display[y][x] == 0
        }),
{
    let s = next_state(m, decode_spec(op), keys, random);
    let ins = decode_spec(op);
    let xr = ((op / 256) % 16) as int;
    let yr = ((op / 16) % 16) as int;
    let n = (op % 16) as int;
    let left = m.r[xr];
    let top = m.r[yr];
    assert forall|y: int, x: int| 0 <= y < SCREEN_HEIGHT && 0 <= x < SCREEN_WIDTH implies (m.display[y][x] == 1
        && #[trigger] s.display[y][x] == 0) == crate::semantics::collides_at(m, left, top, n, x, y) by {
        let p = crate::semantics::sprite_pixel(m, left, top, n, x, y);
        let dx = crate::semantics::column_offset(left, x);
        let dy = crate::semantics::row_offset(top, y);
        lemma_pixel_bit(m.memory[m.i + dy], (7 - dx) as u8);
        assert(p <= 1);
        lemma_xor_bit(m.display[y][x], p);
    }
    if s.r[15] == 1 {
        let (wy, wx) = choose|y: int, x: int|
            0 <= y < SCREEN_HEIGHT && 0 <= x < SCREEN_WIDTH && #[trigger] crate::semantics::collides_at(
                m,
                left,
                top,
                n,
                x,
                y,
            );
        assert(m.display[wy][wx] == 1 && s.display[wy][wx] == 0);
    }
}

/// `00E0` darkens every cell and touches nothing else.
pub proof fn law_clear_screen(m: CpuState, keys: Seq<bool>, random: u8)
    requires
        well_formed(m),
    ensures
        ({
            let s = next_state(m, decode_spec(0x00E0), keys, random);
            &&& forall|y: int, x: int|
                0 <= y < SCREEN_HEIGHT && 0 <= x < SCREEN_WIDTH ==> #[trigger] s.display[y][x] == 0
            &&& s.display.len() == SCREEN_HEIGHT
            &&& forall|y: int| 0 <= y < SCREEN_HEIGHT ==> (#[trigger] s.display[y]).len() == SCREEN_WIDTH
            &&& s.r == m.r && s.pc == m.pc && s.i == m.i && s.memory == m.memory && s.sp == m.sp
        }),
{
}

/// `1nnn` sets `pc` to the low twelve bits of the word; `2nnn` does too,
/// after pushing the current `pc` one slot above the stack pointer.
pub proof fn law_jump_and_call(m: CpuState, op: u16, keys: Seq<bool>, random: u8)
    requires
        well_formed(m),
        op / 4096 == 1 || op / 4096 == 2,
        op / 4096 == 2 ==> m.sp + 1 < 16,
    ensures
        ({
            let s = next_state(m, decode_spec(op), keys, random);
            &&& s.pc == op % 4096
            &&& s.r == m.r && s.i == m.i && s.memory == m.memory
            &&& op / 4096 == 1 ==> s.sp == m.sp && s.stack == m.stack
            &&& op / 4096 == 2 ==> s.sp == m.sp + 1 && s.stack[m.sp + 1] == m.pc && forall|k: int|
                0 <= k < 16 && k != m.sp + 1 ==> #[trigger] s.stack[k] == m.stack[k]
        }),
{
}

/// `00EE` takes `pc` from the top of the stack and pops it.
pub proof fn law_return(m: CpuState, keys: Seq<bool>, random: u8)
    requires
        well_formed(m),
        1 <= m.sp < 16,
    ensures
        ({
            let s = next_state(m, decode_spec(0x00EE), keys, random);
            &&& s.pc == m.stack[m.sp as int]
            &&& s.sp == m.sp - 1
            &&& s.stack == m.stack && s.r == m.r && s.i == m.i && s.memory == m.memory
        }),
{
}

/// The skips `3xkk`, `4xkk`, `5xy0`, `9xy0`, `Ex9E`, `ExA1` move `pc` on by
/// one word exactly when their condition holds, and change nothing else.
pub proof fn law_skips(m: CpuState, op: u16, keys: Seq<bool>, random: u8)
    requires
        well_formed(m),
        keys.len() == 16,
        m.pc + 2 <= u16::MAX,
        op / 4096 == 3 || op / 4096 == 4 || ((op / 4096 == 5 || op / 4096 == 9) && op % 16 == 0)
            || (op / 4096 == 0xE && (op % 256 == 0x9E || op % 256 == 0xA1)),
        op / 4096 == 0xE ==> m.r[((op / 256) % 16) as int] < 16,
    ensures
        ({
            let s = next_state(m, decode_spec(op), keys, random);
            let a = op / 4096;
            let vx = m.r[((op / 256) % 16) as int];
            let vy = m.r[((op / 16) % 16) as int];
            let cond = if a == 3 {
                vx == op % 256
            } else if a == 4 {
                vx != op % 256
            } else if a == 5 {
                vx == vy
            } else if a == 9 {
                vx != vy
            } else if op % 256 == 0x9E {
                keys[vx as int]
            } else {
                !keys[vx as int]
            };
            &&& s.pc == if cond { m.pc + 2 } else { m.pc as int }
            &&& s.r == m.r && s.i == m.i && s.sp == m.sp && s.memory == m.memory && s.display
                == m.display
        }),
{
}

/// `6xkk` loads the low byte, `8xy0` copies `Vy`, `8xy1` .. `8xy3` combine
/// `Vx` and `Vy` bitwise; no other register changes.
pub proof fn law_register_loads_and_logic(m: CpuState, op: u16, keys: Seq<bool>, random: u8)
    requires
        well_formed(m),
        op / 4096 == 6 || (op / 4096 == 8 && op % 16 <= 3),
    ensures
        ({
            let s = next_state(m, decode_spec(op), keys, random);
            let x = ((op / 256) % 16) as int;
            let vx = m.r[x];
            let vy = m.r[((op / 16) % 16) as int];
            let d = op % 16;
            &&& s.r[x] == if op / 4096 == 6 {
                (op % 256) as u8
            } else if d == 0 {
                vy
            } else if d == 1 {
                vx | vy
            } else if d == 2 {
                vx & vy
            } else {
                vx ^ vy
            }
            &&& forall|k: int| 0 <= k < 16 && k != x ==> #[trigger] s.r[k] == m.r[k]
            &&& s.pc == m.pc && s.i == m.i && s.memory == m.memory
        }),
{
}

/// `8xy4`: the new `Vx` plus 256 times the carry in `VF` is the sum.
/// `8xy5`: the new `Vx` minus 256 times the borrow in `VF` is the difference.
/// `8xy7`: the same for `Vy - Vx`. (`Vx` and `Vy` other than `VF`.)
pub proof fn law_add_sub_with_flag(m: CpuState, op: u16, keys: Seq<bool>, random: u8)
    requires
        well_formed(m),
        op / 4096 == 8,
        op % 16 == 4 || op % 16 == 5 || op % 16 == 7,
        (op / 256) % 16 != 15,
        (op / 16) % 16 != 15,
    ensures
        ({
            let s = next_state(m, decode_spec(op), keys, random);
            let x = ((op / 256) % 16) as int;
            let vx = m.r[x];
            let vy = m.r[((op / 16) % 16) as int];
            &&& s.r[15] == 0 || s.r[15] == 1
            &&& op % 16 == 4 ==> s.r[x] + 256 * s.r[15] == vx + vy
            &&& op % 16 == 5 ==> s.r[x] - 256 * s.r[15] == vx - vy
            &&& op % 16 == 7 ==> s.r[x] - 256 * s.r[15] == vy - vx
            &&& forall|k: int| 0 <= k < 15 && k != x ==> #[trigger] s.r[k] == m.r[k]
            &&& s.pc == m.pc && s.i == m.i && s.memory == m.memory
        }),
{
}

/// `8xy6`: twice the new `Vx` plus `VF` is the old `Vx`. `8xyE`: the new
/// `Vx` plus 256 times `VF` is twice the old `Vx`. (`Vx` other than `VF`.)
pub proof fn law_shifts(m: CpuState, op: u16, keys: Seq<bool>, random: u8)
    requires
        well_formed(m),
        op / 4096 == 8,
        op % 16 == 6 || op % 16 == 0xE,
        (op / 256) % 16 != 15,
    ensures
        ({
            let s = next_state(m, decode_spec(op), keys, random);
            let x = ((op / 256) % 16) as int;
            &&& s.r[15] == 0 || s.r[15] == 1
            &&& op % 16 == 6 ==> 2 * s.r[x] + s.r[15] == m.r[x]
            &&& op % 16 == 0xE ==> s.r[x] + 256 * s.r[15] == 2 * m.r[x]
            &&& forall|k: int| 0 <= k < 15 && k != x ==> #[trigger] s.r[k] == m.r[k]
            &&& s.pc == m.pc && s.i == m.i && s.memory == m.memory
        }),
{
}

/// `Cxkk`: the low nibble of the new `Vx` is that of `kk`, its high nibble
/// the high nibbles of the random byte and of `kk` AND-ed.
pub proof fn law_random(m: CpuState, op: u16, keys: Seq<bool>, random: u8)
    requires
        well_formed(m),
        op / 4096 == 0xC,
    ensures
        ({
            let s = next_state(m, decode_spec(op), keys, random);
            let x = ((op / 256) % 16) as int;
            let kk = (op % 256) as u8;
            &&& s.r[x] % 16 == kk % 16
            &&& s.r[x] / 16 == (random / 16) & (kk / 16)
            &&& forall|k: int| 0 <= k < 16 && k != x ==> #[trigger] s.r[k] == m.r[k]
            &&& s.pc == m.pc && s.i == m.i && s.memory == m.memory
        }),
{
    let kk = (op % 256) as u8;
    let v = (random & (kk & 0xF0u8)) | (kk & 0x0Fu8);
    assert(v % 16 == kk % 16 && v / 16 == (random / 16) & (kk / 16)) by (bit_vector)
        requires
            v == (random & (kk & 0xF0u8)) | (kk & 0x0Fu8),
    ;
}

/// `Annn` loads the address into `I`; `Fx29` sets `I` to five times `Vx`.
pub proof fn law_index_loads(m: CpuState, op: u16, keys: Seq<bool>, random: u8)
    requires
        well_formed(m),
        op / 4096 == 0xA || (op / 4096 == 0xF && op % 256 == 0x29 && m.r[((op / 256) % 16) as int]
            * 5 <= 255),
    ensures
        ({
            let s = next_state(m, decode_spec(op), keys, random);
            &&& s.i == if op / 4096 == 0xA {
                (op % 4096) as int
            } else {
                5 * m.r[((op / 256) % 16) as int]
            }
            &&& s.r == m.r && s.pc == m.pc && s.memory == m.memory
        }),
{
}

/// `Fx07` copies the delay timer into `Vx`; `Fx15` and `Fx18` copy `Vx`
/// into the delay and the sound timer.
pub proof fn law_timer_moves(m: CpuState, op: u16, keys: Seq<bool>, random: u8)
    requires
        well_formed(m),
        op / 4096 == 0xF,
        op % 256 == 0x07 || op % 256 == 0x15 || op % 256 == 0x18,
    ensures
        ({
            let s = next_state(m, decode_spec(op), keys, random);
            let x = ((op / 256) % 16) as int;
            &&& op % 256 == 0x07 ==> s.r[x] == m.delay_timer && s.sound_timer == m.sound_timer
                && forall|k: int| 0 <= k < 16 && k != x ==> #[trigger] s.r[k] == m.r[k]
            &&& op % 256 == 0x15 ==> s.delay_timer == m.r[x] && s.sound_timer == m.sound_timer
                && s.r == m.r
            &&& op % 256 == 0x18 ==> s.sound_timer == m.r[x] && s.delay_timer == m.delay_timer
                && s.r == m.r
            &&& s.pc == m.pc && s.i == m.i && s.memory == m.memory
        }),
{
}

/// `Fx33` writes the hundreds, tens and ones of `Vx` at `I`, `I + 1`,
/// `I + 2` and leaves the rest of memory.
pub proof fn law_store_decimal(m: CpuState, op: u16, keys: Seq<bool>, random: u8)
    requires
        well_formed(m),
        op / 4096 == 0xF,
        op % 256 == 0x33,
        m.i + 2 < 4097,
    ensures
        ({
            let s = next_state(m, decode_spec(op), keys, random);
            let v = m.r[((op / 256) % 16) as int];
            &&& s.memory[m.i as int] < 10 && s.memory[m.i + 1] < 10 && s.memory[m.i + 2] < 10
            &&& 100 * s.memory[m.i as int] + 10 * s.memory[m.i + 1] + s.memory[m.i + 2] == v
            &&& s.memory.len() == m.memory.len()
            &&& forall|a: int|
                0 <= a < 4097 && !(m.i <= a <= m.i + 2) ==> #[trigger] s.memory[a] == m.memory[a]
            &&& s.r == m.r && s.pc == m.pc && s.i == m.i
        }),
{
}

/// `Fx55` writes `V0` .. `V(x-1)` at `I` onwards; `Fx65` reads `V0` ..
/// `Vx` from `I` onwards.
pub proof fn law_register_blocks(m: CpuState, op: u16, keys: Seq<bool>, random: u8)
    requires
        well_formed(m),
        op / 4096 == 0xF,
        op % 256 == 0x55 || op % 256 == 0x65,
        m.i + (op / 256) % 16 < 4097,
    ensures
        ({
            let s = next_state(m, decode_spec(op), keys, random);
            let x = ((op / 256) % 16) as int;
            &&& op % 256 == 0x55 ==> {
                &&& forall|k: int| 0 <= k < x ==> #[trigger] s.memory[m.i + k] == m.r[k]
                &&& forall|a: int|
                    0 <= a < 4097 && !(m.i <= a < m.i + x) ==> #[trigger] s.memory[a]
                        == m.memory[a]
                &&& s.memory.len() == m.memory.len() && s.r == m.r
            }
            &&& op % 256 == 0x65 ==> {
                &&& forall|k: int| 0 <= k <= x ==> #[trigger] s.r[k] == m.memory[m.i + k]
                &&& forall|k: int| x < k < 16 ==> #[trigger] s.r[k] == m.r[k]
                &&& s.r.len() == 16 && s.memory == m.memory
            }
            &&& s.pc == m.pc && s.i == m.i
        }),
{
}

/// `Fx0A` loads into `Vx` the highest key that is pressed, and changes
/// nothing when none is.
pub proof fn law_wait_key(m: CpuState, op: u16, keys: Seq<bool>, random: u8)
    requires
        well_formed(m),
        keys.len() == 16,
        op / 4096 == 0xF,
        op % 256 == 0x0A,
    ensures
        ({
            let s = next_state(m, decode_spec(op), keys, random);
            let x = ((op / 256) % 16) as int;
            &&& (exists|k: int| 0 <= k < 16 && #[trigger] keys[k]) ==> {
                &&& s.r[x] < 16 && keys[s.r[x] as int]
                &&& forall|j: int| s.r[x] < j < 16 ==> !#[trigger] keys[j]
                &&& forall|k: int| 0 <= k < 16 && k != x ==> #[trigger] s.r[k] == m.r[k]
            }
            &&& (forall|k: int| 0 <= k < 16 ==> !#[trigger] keys[k]) ==> s == m
        }),
{
    crate::laws::law_load_key(m, ((op / 256) % 16) as u8, keys, random);
}

/// `Dxyn` XORs bit `7 - dx` of the byte at `I + dy` onto the cell `dx`
/// columns right of `Vx` and `dy` rows below `Vy`, both wrapping, for
/// `dx < 8` and `dy < n`; every other cell keeps its value.
pub proof fn law_draw_pixels(m: CpuState, op: u16, keys: Seq<bool>, random: u8)
    requires
        well_formed(m),
        op / 4096 == 0xD,
    ensures
        ({
            let s = next_state(m, decode_spec(op), keys, random);
            let vx = m.r[((op / 256) % 16) as int];
            let vy = m.r[((op / 16) % 16) as int];
            let n = (op % 16) as int;
            &&& forall|dx: int, dy: int|
                0 <= dx < 8 && 0 <= dy < n ==> #[trigger] s.display[(vy + dy) % 32][(vx + dx) % 64]
                    == m.display[(vy + dy) % 32][(vx + dx) % 64] ^ ((m.memory[m.i + dy] >> ((7
                    - dx) as u8)) & 1u8)
            &&& forall|y: int, x: int|
                0 <= y < SCREEN_HEIGHT && 0 <= x < SCREEN_WIDTH && ((x - vx) % 64 >= 8 || (y - vy)
                    % 32 >= n) ==> #[trigger] s.display[y][x] == m.display[y][x]
            &&& s.memory == m.memory && s.pc == m.pc && s.i == m.i
            &&& forall|k: int| 0 <= k < 15 ==> #[trigger] s.r[k] == m.r[k]
        }),
{
    let s = next_state(m, decode_spec(op), keys, random);
    let vx = m.r[((op / 256) % 16) as int];
    let vy = m.r[((op / 16) % 16) as int];
    let n = (op % 16) as int;
    assert forall|dx: int, dy: int| 0 <= dx < 8 && 0 <= dy < n implies #[trigger] s.display[(vy + dy)
        % 32][(vx + dx) % 64] == m.display[(vy + dy) % 32][(vx + dx) % 64] ^ ((m.memory[m.i + dy]
        >> ((7 - dx) as u8)) & 1u8) by {
        let x = (vx + dx) % 64;
        let y = (vy + dy) % 32;
        assert(crate::semantics::column_offset(vx, x) == dx);
        assert(crate::semantics::row_offset(vy, y) == dy);
    }
    assert forall|y: int, x: int|
        0 <= y < SCREEN_HEIGHT && 0 <= x < SCREEN_WIDTH && ((x - vx) % 64 >= 8 || (y - vy) % 32 >= n)
        implies #[trigger] s.display[y][x] == m.display[y][x] by {
        assert(crate::semantics::sprite_pixel(m, vx, vy, n, x, y) == 0);
        lemma_xor_zero(m.display[y][x]);
    }
}

proof fn lemma_xor_zero(a: u8)
    ensures
        a ^ 0u8 == a,
{
    assert(a ^ 0u8 == a) by (bit_vector);
}

/// The instruction word at `pc` has the byte at `pc` as its high byte and
/// the byte after it as its low byte.
pub proof fn law_fetch(m: CpuState)
    requires
        well_formed(m),
        m.pc < 4096,
    ensures
        op_code_at(m, m.pc as int) / 256 == m.memory[m.pc as int],
        op_code_at(m, m.pc as int) % 256 == m.memory[m.pc + 1],
{
}

/// When an instruction word stays within the machine: returns need a
/// stack entry, calls a free slot, taken skips room in `pc`, key skips a
/// key number below 16, `Fx1E` room in `I`, `Fx29` a digit below 52, and
/// the memory instructions their bytes below address 4097. All other
/// words always can run.
pub proof fn law_safety_of_word(m: CpuState, op: u16, keys: Seq<bool>)
    requires
        well_formed(m),
        keys.len() == 16,
    ensures
        ({
            let a = op / 4096;
            let d = op % 16;
            let kk = op % 256;
            let vx = m.r[((op / 256) % 16) as int];
            let vy = m.r[((op / 16) % 16) as int];
            let x = (op / 256) % 16;
            let room = m.pc + 2 <= 65535;
            let condition = if op == 0x00EE {
                1 <= m.sp < 16
            } else if a == 2 {
                m.sp + 1 < 16
            } else if a == 3 {
                vx == kk ==> room
            } else if a == 4 {
                vx != kk ==> room
            } else if a == 5 && d == 0 {
                vx == vy ==> room
            } else if a == 9 && d == 0 {
                vx != vy ==> room
            } else if a == 0xE && kk == 0x9E {
                vx < 16 && (keys[vx as int] ==> room)
            } else if a == 0xE && kk == 0xA1 {
                vx < 16 && (!keys[vx as int] ==> room)
            } else if a == 0xD {
                d == 0 || m.i + d - 1 < 4097
            } else if a == 0xF && kk == 0x1E {
                m.i + vx <= 65535
            } else if a == 0xF && kk == 0x29 {
                vx < 52
            } else if a == 0xF && kk == 0x33 {
                m.i + 2 < 4097
            } else if a == 0xF && kk == 0x55 {
                x == 0 || m.i + x - 1 < 4097
            } else if a == 0xF && kk == 0x65 {
                m.i + x < 4097
            } else {
                true
            };
            safe_to_execute(m, decode_spec(op), keys) == condition
        }),
{
}

/// A reset puts `pc` at 0x200 and zeroes the registers, `I`, the stack,
/// the stack pointer, the screen and both timers; memory and the pauses
/// stay. Power-on is a reset of zeroed memory with pauses of 16.6 ms
/// between instructions and 3 ms between cycles.
pub proof fn law_reset_and_power_on(m: CpuState)
    ensures
        ({
            let s = reset_state(m);
            &&& s.pc == 0x200 && s.i == 0 && s.sp == 0 && s.delay_timer == 0 && s.sound_timer == 0
            &&& s.r.len() == 16 && forall|k: int| 0 <= k < 16 ==> #[trigger] s.r[k] == 0
            &&& s.stack.len() == 16 && forall|k: int| 0 <= k < 16 ==> #[trigger] s.stack[k] == 0
            &&& s.display.len() == SCREEN_HEIGHT && forall|y: int, x: int|
                0 <= y < SCREEN_HEIGHT && 0 <= x < SCREEN_WIDTH ==> #[trigger] s.display[y][x] == 0
            &&& forall|y: int| 0 <= y < SCREEN_HEIGHT ==> (#[trigger] s.display[y]).len() == SCREEN_WIDTH
            &&& s.memory == m.memory
            &&& s.delay_between_instructions == m.delay_between_instructions
            &&& s.delay_between_cycles == m.delay_between_cycles
        }),
        ({
            let p = power_on_state();
            &&& p == reset_state(p)
            &&& p.memory.len() == 4097 && forall|a: int| 0 <= a < 4097 ==> #[trigger] p.memory[a] == 0
            &&& p.delay_between_instructions == 16_600_000
            &&& p.delay_between_cycles == 3_000_000
        }),
{
    assert(power_on_state() =~~= reset_state(power_on_state()));
}

/// Loading the font writes the 80 font bytes to addresses 0 .. 79 and
/// leaves everything else.
pub proof fn law_font_load(m: CpuState)
    requires
        well_formed(m),
    ensures
        ({
            let s = font_loaded(m);
            &&& s.memory.len() == 4097
            &&& forall|a: int| 0 <= a < 80 ==> #[trigger] s.memory[a] == FONTSET[a]
            &&& forall|a: int| 80 <= a < 4097 ==> #[trigger] s.memory[a] == m.memory[a]
            &&& s.r == m.r && s.pc == m.pc && s.i == m.i && s.display == m.display
        }),
{
}

/// The controls: a reset when its key is down, and the instruction pause a
/// millisecond shorter for the slower key and a millisecond longer for the
/// faster one; nothing else changes.
pub proof fn law_controls(m: CpuState, c: Controls)
    requires
        controls_in_range(m, c),
    ensures
        ({
            let s = controls_applied(m, c);
            let base = if c.reset { reset_state(m) } else { m };
            &&& s.delay_between_instructions == m.delay_between_instructions - (if c.slower {
                1_000_000int
            } else {
                0
            }) + (if c.faster { 1_000_000int } else { 0 })
            &&& s == CpuState { delay_between_instructions: s.delay_between_instructions, ..base }
        }),
{
}

/// The controls can be applied exactly when the slower key finds at least
/// a millisecond of pause and the resulting pause fits the range of a
/// `Duration`.
pub proof fn law_controls_range(m: CpuState, c: Controls)
    ensures
        controls_in_range(m, c) == ((c.slower ==> m.delay_between_instructions >= 1_000_000) && 0
            <= m.delay_between_instructions - (if c.slower { 1_000_000int } else { 0 }) + (if c.faster {
            1_000_000int
        } else {
            0
        }) <= 18_446_744_073_709_551_615_999_999_999),
{
}

} // verus!
