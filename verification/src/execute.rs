use vstd::prelude::*;

use crate::cpu::{CPU, CpuState, NUM_REGISTERS};
use crate::font::GLYPH_HEIGHT;
use crate::instruction::{Instruction, decode, decode_spec};
use crate::random::random_in_range;
use crate::semantics::{
    FLAG, Outcome, RANDOM_BOUND, last_pressed, next_state, outcome_of, safe_to_execute, set_reg,
};

verus! {

/// Whether every register operand of `ins` names one of the sixteen
/// registers and every count is a single hexadecimal digit.
pub open spec fn operands_in_range(ins: Instruction) -> bool {
    match ins {
        Instruction::SkipIfEqualByte { x, .. } | Instruction::SkipIfNotEqualByte { x, .. }
        | Instruction::LoadByte { x, .. } | Instruction::AddByte { x, .. }
        | Instruction::ShiftRight { x } | Instruction::ShiftLeft { x }
        | Instruction::Random { x, .. } | Instruction::SkipIfKey { x }
        | Instruction::SkipIfNotKey { x } | Instruction::LoadDelayTimer { x }
        | Instruction::LoadKey { x } | Instruction::SetDelayTimer { x }
        | Instruction::SetSoundTimer { x } | Instruction::AddIndex { x }
        | Instruction::LoadGlyph { x } | Instruction::StoreDecimal { x }
        | Instruction::StoreRegisters { x } | Instruction::LoadRegisters { x } => x < 16,
        Instruction::SkipIfEqual { x, y } | Instruction::Move { x, y } | Instruction::Or { x, y }
        | Instruction::And { x, y } | Instruction::Xor { x, y } | Instruction::Add { x, y }
        | Instruction::Sub { x, y } | Instruction::SubReverse { x, y }
        | Instruction::SkipIfNotEqual { x, y } => x < 16 && y < 16,
        Instruction::Draw { x, y, n } => x < 16 && y < 16 && n < 16,
        _ => true,
    }
}

/// Every decoded instruction has its operands in range.
pub proof fn lemma_decoded_operands_in_range(op: u16)
    ensures
        operands_in_range(decode_spec(op)),
{
}

impl CPU {
    /// Sets register `x` to `v`.
    fn set_register(&mut self, x: u8, v: u8)
        requires
            x < 16,
        ensures
            final(self)@ == set_reg(old(self)@, x as int, v as int),
    {
        self.r[x as usize] = v;
        assert(self@ =~~= set_reg(old(self)@, x as int, v as int));
    }

    /// Skips the next instruction when `cond` holds.
    fn skip_if(&mut self, cond: bool)
        requires
            cond ==> old(self).pc + 2 <= u16::MAX,
        ensures
            final(self)@ == crate::semantics::skip_if(old(self)@, cond),
    {
        if cond {
            self.pc = self.pc + 2;
        }
    }

    /// Executes one decoded instruction, with `random` as the random byte of `Cxkk`.
    fn execute_instruction(&mut self, ins: Instruction, keys: &[bool; 16], random: u8) -> (outcome: Outcome)
        requires
            operands_in_range(ins),
            safe_to_execute(old(self)@, ins, keys@),
        ensures
            final(self)@ == next_state(old(self)@, ins, keys@, random),
            outcome == outcome_of(ins),
    {
        let ghost m = self@;
        match ins {
            Instruction::ClearScreen => {
                self.display = [[0u8; 64]; 32];
                assert(self@ =~~= next_state(m, ins, keys@, random));
                Outcome::Continue
            },
            Instruction::Return => {
                self.pc = self.stack[self.sp as usize];
                self.sp = self.sp - 1;
                Outcome::Continue
            },
            Instruction::Jump { nnn } => {
                self.pc = nnn;
                Outcome::Jumped
            },
            Instruction::Call { nnn } => {
                self.sp = self.sp + 1;
                self.stack[self.sp as usize] = self.pc;
                self.pc = nnn;
                assert(self@ =~~= next_state(m, ins, keys@, random));
                Outcome::Jumped
            },
            Instruction::SkipIfEqualByte { x, kk } => {
                let cond = self.r[x as usize] == kk;
                self.skip_if(cond);
                Outcome::Continue
            },
            Instruction::SkipIfNotEqualByte { x, kk } => {
                let cond = self.r[x as usize] != kk;
                self.skip_if(cond);
                Outcome::Continue
            },
            Instruction::SkipIfEqual { x, y } => {
                let cond = self.r[x as usize] == self.r[y as usize];
                self.skip_if(cond);
                Outcome::Continue
            },
            Instruction::LoadByte { x, kk } => {
                self.set_register(x, kk);
                Outcome::Continue
            },
            Instruction::AddByte { x, kk } => {
                let v = self.r[x as usize].wrapping_add(kk);
                self.set_register(x, v);
                Outcome::Continue
            },
            Instruction::Move { x, y } => {
                let v = self.r[y as usize];
                self.set_register(x, v);
                Outcome::Continue
            },
            Instruction::Or { x, y } => {
                let v = self.r[x as usize] | self.r[y as usize];
                self.set_register(x, v);
                Outcome::Continue
            },
            Instruction::And { x, y } => {
                let v = self.r[x as usize] & self.r[y as usize];
                self.set_register(x, v);
                Outcome::Continue
            },
            Instruction::Xor { x, y } => {
                let v = self.r[x as usize] ^ self.r[y as usize];
                self.set_register(x, v);
                Outcome::Continue
            },
            Instruction::Add { x, y } => {
                let a = self.r[x as usize];
                let b = self.r[y as usize];
                let result = a.wrapping_add(b);
                let carry = a as u16 + b as u16 > 255;
                self.set_register(FLAG as u8, if carry { 1 } else { 0 });
                self.set_register(x, result);
                Outcome::Continue
            },
            Instruction::Sub { x, y } => {
                let a = self.r[x as usize];
                let b = self.r[y as usize];
                let result = a.wrapping_sub(b);
                let borrow = a < b;
                self.set_register(FLAG as u8, if borrow { 1 } else { 0 });
                self.set_register(x, result);
                Outcome::Continue
            },
            Instruction::ShiftRight { x } => {
                let v0 = self.r[x as usize];
                let low = 1 & v0;
                assert(low == v0 % 2) by (bit_vector)
                    requires
                        low == 1 & v0,
                ;
                self.set_register(FLAG as u8, low);
                let v = self.r[x as usize];
                let shifted = v >> 1;
                assert(shifted == v / 2) by (bit_vector)
                    requires
                        shifted == v >> 1,
                ;
                self.set_register(x, shifted);
                Outcome::Continue
            },
            Instruction::SubReverse { x, y } => {
                let flag: u8 = if self.r[x as usize] > self.r[y as usize] { 1 } else { 0 };
                self.set_register(FLAG as u8, flag);
                let v = self.r[y as usize].wrapping_sub(self.r[x as usize]);
                self.set_register(x, v);
                Outcome::Continue
            },
            Instruction::ShiftLeft { x } => {
                let v0 = self.r[x as usize];
                let high = (v0 & 0x80) >> 7;
                assert(high == v0 / 128) by (bit_vector)
                    requires
                        high == (v0 & 0x80) >> 7,
                ;
                self.set_register(FLAG as u8, high);
                let v = self.r[x as usize];
                let shifted = v << 1;
                assert(shifted == (v * 2) % 256) by (bit_vector)
                    requires
                        shifted == v << 1,
                ;
                self.set_register(x, shifted);
                Outcome::Continue
            },
            Instruction::SkipIfNotEqual { x, y } => {
                let cond = self.r[x as usize] != self.r[y as usize];
                self.skip_if(cond);
                Outcome::Continue
            },
            Instruction::LoadIndex { nnn } => {
                self.i = nnn;
                Outcome::Continue
            },
            Instruction::Random { x, kk } => {
                let v = (random & (kk & 0xF0)) | (kk & 0x0F);
                self.set_register(x, v);
                Outcome::Continue
            },
            Instruction::Draw { x, y, n } => {
                self.draw_sprite(x, y, n);
                Outcome::Redraw
            },
            Instruction::SkipIfKey { x } => {
                let cond = keys[self.r[x as usize] as usize];
                self.skip_if(cond);
                Outcome::Continue
            },
            Instruction::SkipIfNotKey { x } => {
                let cond = !keys[self.r[x as usize] as usize];
                self.skip_if(cond);
                Outcome::Continue
            },
            Instruction::LoadDelayTimer { x } => {
                let v = self.delay_timer;
                self.set_register(x, v);
                Outcome::Continue
            },
            Instruction::LoadKey { x } => {
                self.load_last_pressed_key(x, keys);
                Outcome::Continue
            },
            Instruction::SetDelayTimer { x } => {
                self.delay_timer = self.r[x as usize];
                Outcome::Continue
            },
            Instruction::SetSoundTimer { x } => {
                self.sound_timer = self.r[x as usize];
                Outcome::Continue
            },
            Instruction::AddIndex { x } => {
                self.i = self.i + self.r[x as usize] as u16;
                Outcome::Continue
            },
            Instruction::LoadGlyph { x } => {
                self.i = (self.r[x as usize] * GLYPH_HEIGHT as u8) as u16;
                Outcome::Continue
            },
            Instruction::StoreDecimal { x } => {
                let v = self.r[x as usize];
                let addr = self.i as usize;
                self.memory[addr] = v / 100;
                self.memory[addr + 1] = (v / 10) % 10;
                self.memory[addr + 2] = v % 10;
                assert(self@ =~~= next_state(m, ins, keys@, random));
                Outcome::Continue
            },
            Instruction::StoreRegisters { x } => {
                self.store_registers(x);
                Outcome::Continue
            },
            Instruction::LoadRegisters { x } => {
                self.load_registers(x);
                Outcome::Continue
            },
            Instruction::Unknown => Outcome::Halted,
        }
    }

    /// Sets `Vx` to the highest pressed key, if any key is pressed.
    fn load_last_pressed_key(&mut self, x: u8, keys: &[bool; 16])
        requires
            x < 16,
        ensures
            final(self)@ == (match last_pressed(keys@, NUM_REGISTERS as int) {
                Some(k) => set_reg(old(self)@, x as int, k),
                None => old(self)@,
            }),
    {
        let mut key: usize = 0;
        while key < NUM_REGISTERS
            invariant
                key <= NUM_REGISTERS,
                x < 16,
                self@ == (match last_pressed(keys@, key as int) {
                    Some(k) => set_reg(old(self)@, x as int, k),
                    None => old(self)@,
                }),
            decreases NUM_REGISTERS - key,
        {
            if keys[key] {
                self.set_register(x, key as u8);
                assert(self@ =~~= set_reg(old(self)@, x as int, key as int));
            }
            key = key + 1;
        }
    }

    /// Stores `V0` .. `V(x-1)` at `I` onwards.
    fn store_registers(&mut self, x: u8)
        requires
            x < 16,
            x == 0 || old(self).i + x - 1 < crate::cpu::MEMORY_SIZE,
        ensures
            final(self)@ == next_state(old(self)@, Instruction::StoreRegisters { x }, Seq::empty(), 0),
    {
        let ghost m = self@;
        let mut num: u16 = 0;
        while num < x as u16
            invariant
                num <= x,
                x < 16,
                x == 0 || m.i + x - 1 < crate::cpu::MEMORY_SIZE,
                self@ == (CpuState { memory: self@.memory, ..m }),
                self@.memory.len() == m.memory.len(),
                forall|a: int|
                    0 <= a < m.memory.len() ==> #[trigger] self@.memory[a] == if m.i <= a < m.i + num {
                        m.r[a - m.i]
                    } else {
                        m.memory[a]
                    },
            decreases x - num,
        {
            self.memory[(self.i + num) as usize] = self.r[num as usize];
            num = num + 1;
        }
        assert(self@ =~~= next_state(m, Instruction::StoreRegisters { x }, Seq::empty(), 0));
    }

    /// Loads `V0` .. `Vx` from `I` onwards.
    fn load_registers(&mut self, x: u8)
        requires
            x < 16,
            old(self).i + x < crate::cpu::MEMORY_SIZE,
        ensures
            final(self)@ == next_state(old(self)@, Instruction::LoadRegisters { x }, Seq::empty(), 0),
    {
        let ghost m = self@;
        let mut num: u16 = 0;
        while num <= x as u16
            invariant
                num <= x + 1,
                x < 16,
                m.i + x < crate::cpu::MEMORY_SIZE,
                self@ == (CpuState { r: self@.r, ..m }),
                self@.r.len() == m.r.len(),
                forall|k: int|
                    0 <= k < m.r.len() ==> #[trigger] self@.r[k] == if k < num {
                        m.memory[m.i + k]
                    } else {
                        m.r[k]
                    },
            decreases x + 1 - num,
        {
            self.r[num as usize] = self.memory[(self.i + num) as usize];
            num = num + 1;
        }
        assert(self@ =~~= next_state(m, Instruction::LoadRegisters { x }, Seq::empty(), 0));
    }

    /// Executes the instruction word `op_code` on this processor, with the
    /// keyboard `keys` (`keys[k]`: the key `k` is pressed) and `random` as
    /// the random byte that `Cxkk` uses.
    pub fn execute_with(&mut self, op_code: u16, keys: &[bool; 16], random: u8) -> (outcome: Outcome)
        requires
            safe_to_execute(old(self)@, decode_spec(op_code), keys@),
        ensures
            final(self)@ == next_state(old(self)@, decode_spec(op_code), keys@, random),
            outcome == outcome_of(decode_spec(op_code)),
    {
        let ins = decode(op_code);
        proof {
            lemma_decoded_operands_in_range(op_code);
        }
        self.execute_instruction(ins, keys, random)
    }

    /// Executes the instruction word `op_code` with the keyboard `keys`;
    /// `Cxkk` draws its random byte from `0 .. 255`.
    pub fn execute(&mut self, op_code: u16, keys: &[bool; 16]) -> (outcome: Outcome)
        requires
            safe_to_execute(old(self)@, decode_spec(op_code), keys@),
        ensures
            outcome == outcome_of(decode_spec(op_code)),
            exists|random: u8|
                random < RANDOM_BOUND && final(self)@ == #[trigger] next_state(
                    old(self)@,
                    decode_spec(op_code),
                    keys@,
                    random,
                ),
            !(decode_spec(op_code) is Random) ==> final(self)@ == next_state(
                old(self)@,
                decode_spec(op_code),
                keys@,
                0,
            ),
    {
        let ins = decode(op_code);
        let random = match ins {
            Instruction::Random { .. } => random_in_range(0, RANDOM_BOUND),
            _ => 0,
        };
        proof {
            lemma_decoded_operands_in_range(op_code);
        }
        self.execute_instruction(ins, keys, random)
    }

    /// Whether `execute` may run the instruction word `op_code` with the
    /// keyboard `keys`: it stays within the machine's stack, memory, keys
    /// and integer widths.
    pub fn is_safe_to_execute(&self, op_code: u16, keys: &[bool; 16]) -> (safe: bool)
        ensures
            safe == safe_to_execute(self@, decode_spec(op_code), keys@),
    {
        let ins = decode(op_code);
        proof {
            lemma_decoded_operands_in_range(op_code);
        }
        let fits_skip = self.pc <= u16::MAX - 2;
        match ins {
            Instruction::Return => 1 <= self.sp && (self.sp as usize) < NUM_REGISTERS,
            Instruction::Call { .. } => (self.sp as usize) + 1 < NUM_REGISTERS,
            Instruction::SkipIfEqualByte { x, kk } => self.r[x as usize] != kk || fits_skip,
            Instruction::SkipIfNotEqualByte { x, kk } => self.r[x as usize] == kk || fits_skip,
            Instruction::SkipIfEqual { x, y } => self.r[x as usize] != self.r[y as usize] || fits_skip,
            Instruction::SkipIfNotEqual { x, y } => self.r[x as usize] == self.r[y as usize]
                || fits_skip,
            Instruction::SkipIfKey { x } => {
                let key = self.r[x as usize] as usize;
                key < NUM_REGISTERS && (!keys[key] || fits_skip)
            },
            Instruction::SkipIfNotKey { x } => {
                let key = self.r[x as usize] as usize;
                key < NUM_REGISTERS && (keys[key] || fits_skip)
            },
            Instruction::Draw { n, .. } => n == 0 || (self.i as usize) + (n as usize) - 1
                < crate::cpu::MEMORY_SIZE,
            Instruction::AddIndex { x } => (self.i as u32) + (self.r[x as usize] as u32)
                <= u16::MAX as u32,
            Instruction::LoadGlyph { x } => (self.r[x as usize] as usize) * GLYPH_HEIGHT
                <= u8::MAX as usize,
            Instruction::StoreDecimal { .. } => (self.i as usize) + 2 < crate::cpu::MEMORY_SIZE,
            Instruction::StoreRegisters { x } => x == 0 || (self.i as usize) + (x as usize) - 1
                < crate::cpu::MEMORY_SIZE,
            Instruction::LoadRegisters { x } => (self.i as usize) + (x as usize)
                < crate::cpu::MEMORY_SIZE,
            _ => true,
        }
    }
}

} // verus!