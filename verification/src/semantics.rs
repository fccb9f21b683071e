use vstd::prelude::*;

use crate::cpu::{CpuState, MEMORY_SIZE, NUM_REGISTERS, SCREEN_HEIGHT, SCREEN_WIDTH, blank_screen};
use crate::font::GLYPH_HEIGHT;
use crate::instruction::Instruction;

verus! {

/// Index of the flag register `VF`.
pub const FLAG: usize = 15;

/// Exclusive upper bound of the random bytes that `Cxkk` draws from.
pub const RANDOM_BOUND: u8 = 255;

/// What the emulation loop does once an instruction has been executed.
#[derive(Clone, Copy, Debug, PartialEq, Eq, Structural)]
pub enum Outcome {
    /// Go on: tick the timers and advance `pc`.
    Continue,
    /// The screen changed: redraw it, then go on as for `Continue`.
    Redraw,
    /// `pc` was set by a jump or call: fetch the next instruction at once.
    Jumped,
    /// The word is not an instruction: stop the emulation.
    Halted,
}

/// The outcome of executing `ins`.
pub open spec fn outcome_of(ins: Instruction) -> Outcome {
    match ins {
        Instruction::Jump { .. } | Instruction::Call { .. } => Outcome::Jumped,
        Instruction::Draw { .. } => Outcome::Redraw,
        Instruction::Unknown => Outcome::Halted,
        _ => Outcome::Continue,
    }
}

/// `m` with register `x` set to `v`.
pub open spec fn set_reg(m: CpuState, x: int, v: int) -> CpuState {
    CpuState { r: m.r.update(x, v as u8), ..m }
}

/// `m` with `VF` set to `flag` and then register `x` to `v`.
pub open spec fn set_reg_with_flag(m: CpuState, flag: int, x: int, v: int) -> CpuState {
    set_reg(set_reg(m, FLAG as int, flag), x, v)
}

/// `m` with the next instruction skipped when `cond` holds.
pub open spec fn skip_if(m: CpuState, cond: bool) -> CpuState {
    if cond {
        CpuState { pc: (m.pc + 2) as u16, ..m }
    } else {
        m
    }
}

/// `1` when `b` holds, else `0`.
pub open spec fn bit_of(b: bool) -> int {
    if b { 1 } else { 0 }
}

/// The highest index below `n` of a pressed key, if any.
pub open spec fn last_pressed(keys: Seq<bool>, n: int) -> Option<int>
    decreases n,
{
    if n <= 0 {
        None
    } else if keys[n - 1] {
        Some(n - 1)
    } else {
        last_pressed(keys, n - 1)
    }
}

/// Pixel `col` (0 = leftmost) of a sprite row: the bit `7 - col` of `row`.
pub open spec fn row_pixel(row: u8, col: int) -> u8 {
    (row >> ((7 - col) as u8)) & 1u8
}

/// Horizontal distance, wrapping around the screen, from `left` to column `x`.
pub open spec fn column_offset(left: u8, x: int) -> int {
    (x - left) % (SCREEN_WIDTH as int)
}

/// Vertical distance, wrapping around the screen, from `top` to row `y`.
pub open spec fn row_offset(top: u8, y: int) -> int {
    (y - top) % (SCREEN_HEIGHT as int)
}

/// The pixel that the `n`-row sprite at `m.i`, drawn at (`left`, `top`),
/// puts on the screen cell (`x`, `y`); cells it does not cover get 0.
/// The sprite wraps around the screen's edges.
pub open spec fn sprite_pixel(m: CpuState, left: u8, top: u8, n: int, x: int, y: int) -> u8 {
    let dx = column_offset(left, x);
    let dy = row_offset(top, y);
    if dx < 8 && dy < n {
        row_pixel(m.memory[m.i + dy], dx)
    } else {
        0u8
    }
}

/// Whether the sprite turns off the lit cell (`x`, `y`): the cell holds 1
/// and the sprite's pixel there is 1.
pub open spec fn collides_at(m: CpuState, left: u8, top: u8, n: int, x: int, y: int) -> bool {
    m.display[y][x] == 1 && sprite_pixel(m, left, top, n, x, y) == 1
}

/// Whether drawing the sprite turns off some lit pixel of the screen.
pub open spec fn sprite_collides(m: CpuState, left: u8, top: u8, n: int) -> bool {
    exists|y: int, x: int|
        0 <= y < SCREEN_HEIGHT && 0 <= x < SCREEN_WIDTH && #[trigger] collides_at(
            m,
            left,
            top,
            n,
            x,
            y,
        )
}

/// The screen of `m` with the sprite XOR-ed onto it.
pub open spec fn screen_with_sprite(m: CpuState, left: u8, top: u8, n: int) -> Seq<Seq<u8>> {
    Seq::new(
        SCREEN_HEIGHT as nat,
        |y: int|
            Seq::new(
                SCREEN_WIDTH as nat,
                |x: int| m.display[y][x] ^ sprite_pixel(m, left, top, n, x, y),
            ),
    )
}

/// Whether executing `ins` on `m` with the keyboard `keys` stays within the
/// machine: no stack, memory or key index out of range and no address or
/// register arithmetic beyond its width.
pub open spec fn safe_to_execute(m: CpuState, ins: Instruction, keys: Seq<bool>) -> bool {
    let fits_skip = m.pc + 2 <= u16::MAX;
    match ins {
        Instruction::Return => 1 <= m.sp < NUM_REGISTERS,
        Instruction::Call { .. } => m.sp + 1 < NUM_REGISTERS,
        Instruction::SkipIfEqualByte { x, kk } => m.r[x as int] == kk ==> fits_skip,
        Instruction::SkipIfNotEqualByte { x, kk } => m.r[x as int] != kk ==> fits_skip,
        Instruction::SkipIfEqual { x, y } => m.r[x as int] == m.r[y as int] ==> fits_skip,
        Instruction::SkipIfNotEqual { x, y } => m.r[x as int] != m.r[y as int] ==> fits_skip,
        Instruction::SkipIfKey { x } => m.r[x as int] < NUM_REGISTERS && (keys[m.r[x as int] as int]
            ==> fits_skip),
        Instruction::SkipIfNotKey { x } => m.r[x as int] < NUM_REGISTERS && (!keys[m.r[x as int] as int]
            ==> fits_skip),
        Instruction::Draw { n, .. } => n == 0 || m.i + n - 1 < MEMORY_SIZE,
        Instruction::AddIndex { x } => m.i + m.r[x as int] <= u16::MAX,
        Instruction::LoadGlyph { x } => m.r[x as int] * GLYPH_HEIGHT <= u8::MAX,
        Instruction::StoreDecimal { .. } => m.i + 2 < MEMORY_SIZE,
        Instruction::StoreRegisters { x } => x == 0 || m.i + x - 1 < MEMORY_SIZE,
        Instruction::LoadRegisters { x } => m.i + x < MEMORY_SIZE,
        _ => true,
    }
}

/// The state after executing `ins` on `m`, with the keyboard `keys` and
/// `random` as the random byte of `Cxkk`.
pub open spec fn next_state(m: CpuState, ins: Instruction, keys: Seq<bool>, random: u8) -> CpuState {
    match ins {
        Instruction::ClearScreen => CpuState { display: blank_screen(), ..m },
        Instruction::Return => CpuState { pc: m.stack[m.sp as int], sp: (m.sp - 1) as u8, ..m },
        Instruction::Jump { nnn } => CpuState { pc: nnn, ..m },
        Instruction::Call { nnn } => CpuState {
            sp: (m.sp + 1) as u8,
            stack: m.stack.update(m.sp + 1, m.pc),
            pc: nnn,
            ..m
        },
        Instruction::SkipIfEqualByte { x, kk } => skip_if(m, m.r[x as int] == kk),
        Instruction::SkipIfNotEqualByte { x, kk } => skip_if(m, m.r[x as int] != kk),
        Instruction::SkipIfEqual { x, y } => skip_if(m, m.r[x as int] == m.r[y as int]),
        Instruction::LoadByte { x, kk } => set_reg(m, x as int, kk as int),
        Instruction::AddByte { x, kk } => set_reg(m, x as int, (m.r[x as int] + kk) % 256),
        Instruction::Move { x, y } => set_reg(m, x as int, m.r[y as int] as int),
        Instruction::Or { x, y } => set_reg(m, x as int, (m.r[x as int] | m.r[y as int]) as int),
        Instruction::And { x, y } => set_reg(m, x as int, (m.r[x as int] & m.r[y as int]) as int),
        Instruction::Xor { x, y } => set_reg(m, x as int, (m.r[x as int] ^ m.r[y as int]) as int),
        Instruction::Add { x, y } => {
            let sum = m.r[x as int] + m.r[y as int];
            set_reg_with_flag(m, bit_of(sum > 255), x as int, sum % 256)
        },
        Instruction::Sub { x, y } => {
            let diff = m.r[x as int] - m.r[y as int];
            set_reg_with_flag(m, bit_of(diff < 0), x as int, diff % 256)
        },
        Instruction::ShiftRight { x } => {
            let m1 = set_reg(m, FLAG as int, (m.r[x as int] % 2) as int);
            set_reg(m1, x as int, (m1.r[x as int] / 2) as int)
        },
        Instruction::SubReverse { x, y } => {
            let m1 = set_reg(m, FLAG as int, bit_of(m.r[x as int] > m.r[y as int]));
            set_reg(m1, x as int, (m1.r[y as int] - m1.r[x as int]) % 256)
        },
        Instruction::ShiftLeft { x } => {
            let m1 = set_reg(m, FLAG as int, (m.r[x as int] / 128) as int);
            set_reg(m1, x as int, (m1.r[x as int] * 2) % 256)
        },
        Instruction::SkipIfNotEqual { x, y } => skip_if(m, m.r[x as int] != m.r[y as int]),
        Instruction::LoadIndex { nnn } => CpuState { i: nnn, ..m },
        Instruction::Random { x, kk } => set_reg(
            m,
            x as int,
            ((random & (kk & 0xF0u8)) | (kk & 0x0Fu8)) as int,
        ),
        Instruction::Draw { x, y, n } => {
            let left = m.r[x as int];
            let top = m.r[y as int];
            set_reg(
                CpuState { display: screen_with_sprite(m, left, top, n as int), ..m },
                FLAG as int,
                bit_of(sprite_collides(m, left, top, n as int)),
            )
        },
        Instruction::SkipIfKey { x } => skip_if(m, keys[m.r[x as int] as int]),
        Instruction::SkipIfNotKey { x } => skip_if(m, !keys[m.r[x as int] as int]),
        Instruction::LoadDelayTimer { x } => set_reg(m, x as int, m.delay_timer as int),
        Instruction::LoadKey { x } => match last_pressed(keys, NUM_REGISTERS as int) {
            Some(k) => set_reg(m, x as int, k),
            None => m,
        },
        Instruction::SetDelayTimer { x } => CpuState { delay_timer: m.r[x as int], ..m },
        Instruction::SetSoundTimer { x } => CpuState { sound_timer: m.r[x as int], ..m },
        Instruction::AddIndex { x } => CpuState { i: (m.i + m.r[x as int]) as u16, ..m },
        Instruction::LoadGlyph { x } => CpuState {
            i: (m.r[x as int] * GLYPH_HEIGHT) as u16,
            ..m
        },
        Instruction::StoreDecimal { x } => {
            let v = m.r[x as int];
            CpuState {
                memory: m.memory.update(m.i as int, v / 100).update(m.i + 1, (v / 10) % 10).update(
                    m.i + 2,
                    v % 10,
                ),
                ..m
            }
        },
        Instruction::StoreRegisters { x } => CpuState {
            memory: Seq::new(
                m.memory.len(),
                |a: int|
                    if m.i <= a < m.i + x {
                        m.r[a - m.i]
                    } else {
                        m.memory[a]
                    },
            ),
            ..m
        },
        Instruction::LoadRegisters { x } => CpuState {
            r: Seq::new(
                m.r.len(),
                |k: int|
                    if k <= x {
                        m.memory[m.i + k]
                    } else {
                        m.r[k]
                    },
            ),
            ..m
        },
        Instruction::Unknown => m,
    }
}

} // verus!
