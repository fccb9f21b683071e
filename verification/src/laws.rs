use vstd::prelude::*;

use crate::cpu::{
    CPU, Controls, CpuState, MEMORY_SIZE, NUM_REGISTERS, SCREEN_HEIGHT, SCREEN_WIDTH,
    controls_applied, controls_in_range, font_loaded, reset_state,
};
use crate::execute::operands_in_range;
use crate::font::{FONTSET, GLYPH_HEIGHT};
use crate::instruction::Instruction;
use crate::semantics::{
    FLAG, column_offset, last_pressed, next_state, row_offset, row_pixel, safe_to_execute,
    sprite_pixel,
};

verus! {

/// The shape of a processor state: 4097 bytes of memory, sixteen registers
/// and stack entries, and a screen of 32 rows of 64 cells.
pub open spec fn well_formed(m: CpuState) -> bool {
    &&& m.memory.len() == MEMORY_SIZE
    &&& m.r.len() == NUM_REGISTERS
    &&& m.stack.len() == NUM_REGISTERS
    &&& m.display.len() == SCREEN_HEIGHT
    &&& forall|y: int| 0 <= y < SCREEN_HEIGHT ==> (#[trigger] m.display[y]).len() == SCREEN_WIDTH
}

proof fn lemma_xor_twice(a: u8, b: u8)
    ensures
        (a ^ b) ^ b == a,
{
    assert((a ^ b) ^ b == a) by (bit_vector);
}

/// Every processor has the shape of `well_formed`.
pub proof fn law_processor_well_formed(cpu: CPU)
    ensures
        well_formed(cpu@),
{
}

/// Executing an instruction within the machine keeps the shape of the state.
pub proof fn law_execution_keeps_shape(m: CpuState, ins: Instruction, keys: Seq<bool>, random: u8)
    requires
        well_formed(m),
        operands_in_range(ins),
        safe_to_execute(m, ins, keys),
    ensures
        well_formed(next_state(m, ins, keys, random)),
{
}

/// Only `Fx33` and `Fx55` write memory, only `00E0` and `Dxyn` change the
/// screen, and only `Cxkk` depends on the random byte.
pub proof fn law_execution_frame(m: CpuState, ins: Instruction, keys: Seq<bool>, r1: u8, r2: u8)
    ensures
        !(ins is StoreDecimal) && !(ins is StoreRegisters) ==> next_state(m, ins, keys, r1).memory
            == m.memory,
        !(ins is ClearScreen) && !(ins is Draw) ==> next_state(m, ins, keys, r1).display
            == m.display,
        !(ins is Random) ==> next_state(m, ins, keys, r1) == next_state(m, ins, keys, r2),
{
}

/// Apart from a jump, call or return, an instruction leaves `pc` where it
/// is or skips the next instruction word.
pub proof fn law_pc_stays_or_skips(m: CpuState, ins: Instruction, keys: Seq<bool>, random: u8)
    requires
        safe_to_execute(m, ins, keys),
        !(ins is Jump),
        !(ins is Call),
        !(ins is Return),
    ensures
        next_state(m, ins, keys, random).pc == m.pc || next_state(m, ins, keys, random).pc == m.pc
            + 2,
{
}

/// A word that is not an instruction changes nothing.
pub proof fn law_unknown_changes_nothing(m: CpuState, keys: Seq<bool>, random: u8)
    ensures
        next_state(m, Instruction::Unknown, keys, random) == m,
{
}

/// Resetting twice is resetting once.
pub proof fn law_reset_idempotent(m: CpuState)
    ensures
        reset_state(reset_state(m)) == reset_state(m),
{
    assert(reset_state(reset_state(m)) =~~= reset_state(m));
}

/// The slower control undoes the faster one.
pub proof fn law_slower_undoes_faster(m: CpuState)
    requires
        controls_in_range(m, Controls { reset: false, slower: false, faster: true }),
    ensures
        controls_in_range(
            controls_applied(m, Controls { reset: false, slower: false, faster: true }),
            Controls { reset: false, slower: true, faster: false },
        ),
        controls_applied(
            controls_applied(m, Controls { reset: false, slower: false, faster: true }),
            Controls { reset: false, slower: true, faster: false },
        ) == m,
{
}

/// `00EE` returns to the address that `2nnn` saved: after a call and a
/// return, everything but the stack's contents is as before the call, and
/// the stack holds the saved address in the slot above.
pub proof fn law_return_undoes_call(m: CpuState, nnn: u16, keys: Seq<bool>, random: u8)
    requires
        well_formed(m),
        safe_to_execute(m, Instruction::Call { nnn }, keys),
    ensures
        ({
            let called = next_state(m, Instruction::Call { nnn }, keys, random);
            let returned = next_state(called, Instruction::Return, keys, random);
            &&& safe_to_execute(called, Instruction::Return, keys)
            &&& returned == CpuState { stack: m.stack.update(m.sp + 1, m.pc), ..m }
        }),
{
    let called = next_state(m, Instruction::Call { nnn }, keys, random);
    let returned = next_state(called, Instruction::Return, keys, random);
    assert(returned =~~= CpuState { stack: m.stack.update(m.sp + 1, m.pc), ..m });
}

/// Drawing the same sprite twice at the same place restores the screen,
/// when neither coordinate is read from `VF`.
pub proof fn law_draw_twice_restores_screen(
    m: CpuState,
    x: u8,
    y: u8,
    n: u8,
    keys: Seq<bool>,
    random: u8,
)
    requires
        well_formed(m),
        operands_in_range(Instruction::Draw { x, y, n }),
        safe_to_execute(m, Instruction::Draw { x, y, n }, keys),
        x != FLAG,
        y != FLAG,
    ensures
        ({
            let once = next_state(m, Instruction::Draw { x, y, n }, keys, random);
            let twice = next_state(once, Instruction::Draw { x, y, n }, keys, random);
            &&& safe_to_execute(once, Instruction::Draw { x, y, n }, keys)
            &&& twice.display == m.display
        }),
{
    let once = next_state(m, Instruction::Draw { x, y, n }, keys, random);
    let twice = next_state(once, Instruction::Draw { x, y, n }, keys, random);
    let left = m.r[x as int];
    let top = m.r[y as int];
    assert(once.r[x as int] == left && once.r[y as int] == top);
    assert forall|yy: int| 0 <= yy < SCREEN_HEIGHT implies twice.display[yy] =~= m.display[yy] by {
        assert forall|xx: int| 0 <= xx < SCREEN_WIDTH implies twice.display[yy][xx]
            == m.display[yy][xx] by {
            assert(sprite_pixel(once, left, top, n as int, xx, yy) == sprite_pixel(
                m,
                left,
                top,
                n as int,
                xx,
                yy,
            ));
            lemma_xor_twice(m.display[yy][xx], sprite_pixel(m, left, top, n as int, xx, yy));
        }
    }
    assert(twice.display =~~= m.display);
}

/// `Fx55` followed by `Fx65` with the same `I` gives `V0` .. `V(x-1)` back.
pub proof fn law_store_then_load_registers(m: CpuState, x: u8, keys: Seq<bool>, random: u8)
    requires
        well_formed(m),
        x < NUM_REGISTERS,
        safe_to_execute(m, Instruction::LoadRegisters { x }, keys),
    ensures
        ({
            let stored = next_state(m, Instruction::StoreRegisters { x }, keys, random);
            let loaded = next_state(stored, Instruction::LoadRegisters { x }, keys, random);
            &&& safe_to_execute(m, Instruction::StoreRegisters { x }, keys)
            &&& safe_to_execute(stored, Instruction::LoadRegisters { x }, keys)
            &&& forall|k: int| 0 <= k < x ==> #[trigger] loaded.r[k] == m.r[k]
        }),
{
}

/// `Fx33` stores the three decimal digits of `Vx`: hundreds, tens, ones.
pub proof fn law_decimal_digits(m: CpuState, x: u8, keys: Seq<bool>, random: u8)
    requires
        well_formed(m),
        x < NUM_REGISTERS,
        safe_to_execute(m, Instruction::StoreDecimal { x }, keys),
    ensures
        ({
            let s = next_state(m, Instruction::StoreDecimal { x }, keys, random);
            &&& s.memory[m.i as int] < 10
            &&& s.memory[m.i + 1] < 10
            &&& s.memory[m.i + 2] < 10
            &&& s.memory[m.i as int] * 100 + s.memory[m.i + 1] * 10 + s.memory[m.i + 2] == m.r[x as int]
        }),
{
}

/// Once the font is loaded, `Fx29` points `I` at the glyph of the digit in `Vx`.
pub proof fn law_glyph_address(m: CpuState, x: u8, keys: Seq<bool>, random: u8)
    requires
        well_formed(m),
        x < NUM_REGISTERS,
        m.r[x as int] < 16,
    ensures
        ({
            let f = font_loaded(m);
            let s = next_state(f, Instruction::LoadGlyph { x }, keys, random);
            &&& safe_to_execute(f, Instruction::LoadGlyph { x }, keys)
            &&& s.i == m.r[x as int] * GLYPH_HEIGHT
            &&& forall|k: int|
                0 <= k < GLYPH_HEIGHT ==> #[trigger] s.memory[s.i + k] == FONTSET[m.r[x as int]
                    * GLYPH_HEIGHT + k]
        }),
{
    let d = m.r[x as int];
    assert(d * GLYPH_HEIGHT <= 75) by (nonlinear_arith)
        requires
            d < 16,
    ;
}

/// `8xy5` undoes `8xy4` for two distinct registers other than `VF`, and the
/// borrow of the subtraction is the carry of the addition.
pub proof fn law_sub_undoes_add(m: CpuState, x: u8, y: u8, keys: Seq<bool>, random: u8)
    requires
        well_formed(m),
        x < NUM_REGISTERS,
        y < NUM_REGISTERS,
        x != y,
        x != FLAG,
        y != FLAG,
    ensures
        ({
            let added = next_state(m, Instruction::Add { x, y }, keys, random);
            let subtracted = next_state(added, Instruction::Sub { x, y }, keys, random);
            &&& subtracted.r[x as int] == m.r[x as int]
            &&& subtracted.r[FLAG as int] == added.r[FLAG as int]
        }),
{
}

/// The highest pressed key below `n`, when there is one, is pressed, and
/// no key between it and `n` is.
proof fn lemma_last_pressed(keys: Seq<bool>, n: int)
    ensures
        match last_pressed(keys, n) {
            Some(k) => 0 <= k < n && keys[k] && forall|j: int| k < j < n ==> !#[trigger] keys[j],
            None => forall|j: int| 0 <= j < n ==> !#[trigger] keys[j],
        },
    decreases n,
{
    if n > 0 {
        lemma_last_pressed(keys, n - 1);
    }
}

/// `Fx0A` loads the highest pressed key into `Vx`, and changes nothing when
/// no key is pressed.
pub proof fn law_load_key(m: CpuState, x: u8, keys: Seq<bool>, random: u8)
    requires
        well_formed(m),
        x < NUM_REGISTERS,
    ensures
        ({
            let s = next_state(m, Instruction::LoadKey { x }, keys, random);
            &&& (exists|k: int| 0 <= k < NUM_REGISTERS && #[trigger] keys[k]) ==> {
                &&& s.r[x as int] < NUM_REGISTERS
                &&& keys[s.r[x as int] as int]
                &&& forall|k: int| 0 <= k < NUM_REGISTERS && k != x ==> #[trigger] s.r[k] == m.r[k]
                &&& forall|j: int| s.r[x as int] < j < NUM_REGISTERS ==> !#[trigger] keys[j]
            }
            &&& (forall|k: int| 0 <= k < NUM_REGISTERS ==> !#[trigger] keys[k]) ==> s == m
        }),
{
    lemma_last_pressed(keys, NUM_REGISTERS as int);
}

/// Whether every cell of the screen holds 0 or 1.
pub open spec fn screen_is_binary(m: CpuState) -> bool {
    forall|y: int, x: int|
        0 <= y < SCREEN_HEIGHT && 0 <= x < SCREEN_WIDTH ==> #[trigger] m.display[y][x] <= 1
}

proof fn lemma_xor_bits(a: u8, b: u8)
    requires
        a <= 1,
        b <= 1,
    ensures
        a ^ b <= 1,
{
    assert(a ^ b <= 1) by (bit_vector)
        requires
            a <= 1,
            b <= 1,
    ;
}

proof fn lemma_row_pixel_is_bit(row: u8, col: int)
    ensures
        row_pixel(row, col) <= 1,
{
    let s = (7 - col) as u8;
    assert((row >> s) & 1u8 <= 1) by (bit_vector);
}

/// Every instruction keeps a screen of zeros and ones a screen of zeros and ones.
pub proof fn law_screen_stays_binary(m: CpuState, ins: Instruction, keys: Seq<bool>, random: u8)
    requires
        well_formed(m),
        screen_is_binary(m),
    ensures
        screen_is_binary(next_state(m, ins, keys, random)),
{
    if let Instruction::Draw { x, y, n } = ins {
        let s = next_state(m, ins, keys, random);
        let left = m.r[x as int];
        let top = m.r[y as int];
        assert forall|yy: int, xx: int|
            0 <= yy < SCREEN_HEIGHT && 0 <= xx < SCREEN_WIDTH implies #[trigger] s.display[yy][xx]
            <= 1 by {
            let p = sprite_pixel(m, left, top, n as int, xx, yy);
            lemma_row_pixel_is_bit(m.memory[m.i + row_offset(top, yy)], column_offset(left, xx));
            assert(p <= 1);
            lemma_xor_bits(m.display[yy][xx], p);
        }
    }
}

} // verus!
