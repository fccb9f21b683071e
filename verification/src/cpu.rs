use vstd::prelude::*;

use crate::font::{FONTSET, FONT_SIZE};

verus! {

/// Number of bytes of addressable memory (one more than the 4 KiB address space).
pub const MEMORY_SIZE: usize = 4097;

/// Width of the monochrome screen in pixels.
pub const SCREEN_WIDTH: usize = 64;

/// Height of the monochrome screen in pixels.
pub const SCREEN_HEIGHT: usize = 32;

/// Number of general registers, and of stack entries.
pub const NUM_REGISTERS: usize = 16;

/// Address at which programs are loaded and execution starts.
pub const PROGRAM_START: u16 = 0x200;

/// One millisecond, in nanoseconds: the step by which the instruction delay changes.
pub const MILLISECOND: u128 = 1_000_000;

/// The longest representable pause, in nanoseconds (`u64::MAX` seconds and
/// 999 999 999 nanoseconds).
pub const MAX_DELAY: u128 = 18_446_744_073_709_551_615_999_999_999;

/// The state of the CHIP-8 processor.
pub struct CPU {
    /// Address of the instruction about to be executed.
    pub pc: u16,
    /// Main memory.
    pub memory: [u8; 4097],
    /// The sixteen general registers `V0` .. `VF`.
    pub r: [u8; 16],
    /// The address register `I`.
    pub i: u16,
    /// Stack pointer: index of the top entry of `stack`.
    pub sp: u8,
    /// Return addresses of the subroutine calls in progress.
    pub stack: [u16; 16],
    /// The screen, row by row; a lit pixel holds 1.
    pub display: [[u8; 64]; 32],
    /// The delay timer.
    pub delay_timer: u8,
    /// The sound timer.
    pub sound_timer: u8,
    /// Pause between two instructions, in nanoseconds.
    pub delay_between_instructions: u128,
    /// Pause before each advance of the program counter, in nanoseconds.
    pub delay_between_cycles: u128,
}

/// The mathematical state of a processor: every field, with the arrays as sequences.
#[verifier::ext_equal]
pub struct CpuState {
    pub pc: u16,
    pub memory: Seq<u8>,
    pub r: Seq<u8>,
    pub i: u16,
    pub sp: u8,
    pub stack: Seq<u16>,
    pub display: Seq<Seq<u8>>,
    pub delay_timer: u8,
    pub sound_timer: u8,
    pub delay_between_instructions: u128,
    pub delay_between_cycles: u128,
}

impl View for CPU {
    type V = CpuState;

    open spec fn view(&self) -> CpuState {
        CpuState {
            pc: self.pc,
            memory: self.memory@,
            r: self.r@,
            i: self.i,
            sp: self.sp,
            stack: self.stack@,
            display: Seq::new(SCREEN_HEIGHT as nat, |y: int| self.display[y]@),
            delay_timer: self.delay_timer,
            sound_timer: self.sound_timer,
            delay_between_instructions: self.delay_between_instructions,
            delay_between_cycles: self.delay_between_cycles,
        }
    }
}

/// A screen with every pixel dark.
pub open spec fn blank_screen() -> Seq<Seq<u8>> {
    Seq::new(SCREEN_HEIGHT as nat, |y: int| Seq::new(SCREEN_WIDTH as nat, |x: int| 0u8))
}

/// The state in which `reset_emu` leaves `m`: registers, stack, screen and
/// timers cleared, `pc` at the program start; memory and pauses kept.
pub open spec fn reset_state(m: CpuState) -> CpuState {
    CpuState {
        pc: PROGRAM_START,
        r: Seq::new(NUM_REGISTERS as nat, |k: int| 0u8),
        i: 0,
        sp: 0,
        stack: Seq::new(NUM_REGISTERS as nat, |k: int| 0u16),
        display: blank_screen(),
        delay_timer: 0,
        sound_timer: 0,
        ..m
    }
}

/// The power-on state: a reset of zeroed memory, with the default pauses.
pub open spec fn power_on_state() -> CpuState {
    reset_state(
        CpuState {
            pc: 0,
            memory: Seq::new(MEMORY_SIZE as nat, |k: int| 0u8),
            r: Seq::empty(),
            i: 0,
            sp: 0,
            stack: Seq::empty(),
            display: Seq::empty(),
            delay_timer: 0,
            sound_timer: 0,
            delay_between_instructions: 16_600_000,
            delay_between_cycles: 3_000_000,
        },
    )
}

/// `m` with the built-in font copied to the first bytes of memory.
pub open spec fn font_loaded(m: CpuState) -> CpuState {
    CpuState {
        memory: Seq::new(
            MEMORY_SIZE as nat,
            |k: int|
                if k < FONT_SIZE {
                    FONTSET[k]
                } else {
                    m.memory[k]
                },
        ),
        ..m
    }
}

/// The instruction word stored at `pc`: the byte at `pc` is the high byte.
pub open spec fn op_code_at(m: CpuState, pc: int) -> u16 {
    (m.memory[pc] * 256 + m.memory[pc + 1]) as u16
}

/// A timer after one tick: one less, but never below zero.
pub open spec fn timer_after_tick(t: u8) -> u8 {
    if t > 0 { (t - 1) as u8 } else { 0 }
}

/// `m` after one tick of the 60 Hz clock: both timers counted down.
pub open spec fn timers_ticked(m: CpuState) -> CpuState {
    CpuState {
        delay_timer: timer_after_tick(m.delay_timer),
        sound_timer: timer_after_tick(m.sound_timer),
        ..m
    }
}

/// The end of an executed instruction: the timers tick when the clock
/// ticked, then `pc` moves to the next instruction word.
pub open spec fn cycle_finished(m: CpuState, tick: bool) -> CpuState {
    let t = if tick { timers_ticked(m) } else { m };
    CpuState { pc: (t.pc + 2) as u16, ..t }
}

/// The keys of the host keyboard that steer the emulator itself.
pub struct Controls {
    /// Restart the program (the backspace key).
    pub reset: bool,
    /// Take a millisecond off the pause between instructions (the minus key).
    pub slower: bool,
    /// Add a millisecond to the pause between instructions (the equals key).
    pub faster: bool,
}

/// The instruction pause after the controls `c`: a millisecond less when
/// `slower` is pressed, then a millisecond more when `faster` is.
pub open spec fn delay_after_controls(d: u128, c: Controls) -> int {
    let after_slower = if c.slower { d - MILLISECOND } else { d as int };
    if c.faster { after_slower + MILLISECOND } else { after_slower }
}

/// Whether the controls `c` keep the instruction pause within its range.
pub open spec fn controls_in_range(m: CpuState, c: Controls) -> bool {
    &&& c.slower ==> m.delay_between_instructions >= MILLISECOND
    &&& 0 <= delay_after_controls(m.delay_between_instructions, c) <= MAX_DELAY
}

/// `m` after the controls `c`: reset first, then the pause adjusted.
pub open spec fn controls_applied(m: CpuState, c: Controls) -> CpuState {
    let reset = if c.reset { reset_state(m) } else { m };
    CpuState {
        delay_between_instructions: delay_after_controls(m.delay_between_instructions, c) as u128,
        ..reset
    }
}

impl CPU {
    /// A processor in its power-on state: everything zero, `pc` at the
    /// program start, 16.6 ms between instructions and 3 ms between cycles.
    pub fn new() -> (cpu: CPU)
        ensures
            cpu@ == power_on_state(),
    {
        let cpu = CPU {
            pc: PROGRAM_START,
            memory: [0u8; 4097],
            r: [0u8; 16],
            i: 0,
            sp: 0,
            stack: [0u16; 16],
            display: [[0u8; 64]; 32],
            delay_timer: 0,
            sound_timer: 0,
            delay_between_instructions: 16_600_000,
            delay_between_cycles: 3_000_000,
        };
        assert(cpu@.display =~~= blank_screen());
        assert(cpu@ =~~= power_on_state());
        cpu
    }

    /// Copies the built-in font to the start of memory.
    pub fn load_fondset(&mut self)
        ensures
            final(self)@ == font_loaded(old(self)@),
    {
        let mut num: usize = 0;
        while num < FONT_SIZE
            invariant
                num <= FONT_SIZE,
                forall|k: int| 0 <= k < num ==> self.memory[k] == FONTSET[k],
                forall|k: int| num <= k < MEMORY_SIZE ==> self.memory[k] == old(self).memory[k],
                self@ == (CpuState { memory: self.memory@, ..old(self)@ }),
            decreases FONT_SIZE - num,
        {
            self.memory[num] = FONTSET[num];
            num = num + 1;
        }
        assert(self@ =~~= font_loaded(old(self)@));
    }

    /// The instruction word at `pc`: the byte at `pc` is its high byte, the
    /// byte after it its low byte.
    pub fn read_op_code(&mut self) -> (op_code: u16)
        requires
            old(self).pc < MEMORY_SIZE - 1,
        ensures
            op_code == op_code_at(old(self)@, old(self).pc as int),
            *final(self) == *old(self),
    {
        let upper: u8 = self.memory[self.pc as usize];
        let lower: u8 = self.memory[(self.pc + 1) as usize];
        let op_code: u16 = (upper as u16) << 8 | lower as u16;
        assert(op_code == upper * 256 + lower) by (bit_vector)
            requires
                op_code == (upper as u16) << 8 | lower as u16,
        ;
        op_code
    }

    /// Adds one millisecond to the pause between instructions.
    pub fn faster(&mut self)
        requires
            old(self).delay_between_instructions + MILLISECOND <= MAX_DELAY,
        ensures
            final(self)@ == (CpuState {
                delay_between_instructions: (old(self).delay_between_instructions + MILLISECOND) as u128,
                ..old(self)@
            }),
    {
        self.delay_between_instructions = self.delay_between_instructions + MILLISECOND;
    }

    /// Takes one millisecond off the pause between instructions.
    pub fn slower(&mut self)
        requires
            old(self).delay_between_instructions >= MILLISECOND,
        ensures
            final(self)@ == (CpuState {
                delay_between_instructions: (old(self).delay_between_instructions - MILLISECOND) as u128,
                ..old(self)@
            }),
    {
        self.delay_between_instructions = self.delay_between_instructions - MILLISECOND;
    }

    /// Clears registers, stack, screen and timers and sets `pc` to the
    /// program start; memory and the pauses are kept.
    pub fn reset_emu(&mut self)
        ensures
            final(self)@ == reset_state(old(self)@),
    {
        self.pc = PROGRAM_START;
        self.r = [0u8; 16];
        self.i = 0;
        self.sp = 0;
        self.stack = [0u16; 16];
        self.display = [[0u8; 64]; 32];
        self.delay_timer = 0;
        self.sound_timer = 0;
        assert(self@.display =~~= blank_screen());
        assert(self@ =~~= reset_state(old(self)@));
    }

    /// Advances `pc` to the next instruction word.
    pub fn cycle(&mut self)
        requires
            old(self).pc + 2 <= u16::MAX,
        ensures
            final(self)@ == (CpuState { pc: (old(self).pc + 2) as u16, ..old(self)@ }),
    {
        self.pc = self.pc + 2;
    }

    /// One tick of the 60 Hz clock: each timer above zero counts down by one.
    pub fn tick_timers(&mut self)
        ensures
            final(self)@ == timers_ticked(old(self)@),
    {
        if self.delay_timer > 0 {
            self.delay_timer = self.delay_timer - 1;
        }
        if self.sound_timer > 0 {
            self.sound_timer = self.sound_timer - 1;
        }
    }

    /// Ends an executed instruction: ticks the timers when the clock ticked
    /// (`tick`), then advances `pc`.
    pub fn finish_cycle(&mut self, tick: bool)
        requires
            old(self).pc + 2 <= u16::MAX,
        ensures
            final(self)@ == cycle_finished(old(self)@, tick),
    {
        if tick {
            self.tick_timers();
        }
        self.cycle();
    }

    /// Applies the emulator's controls: a reset, then a slower and a faster
    /// pace, in that order. Returns whether the reset key was pressed, in
    /// which case no instruction is to run in this round.
    pub fn apply_controls(&mut self, controls: &Controls) -> (reset: bool)
        requires
            controls_in_range(old(self)@, *controls),
        ensures
            final(self)@ == controls_applied(old(self)@, *controls),
            reset == controls.reset,
    {
        if controls.reset {
            self.reset_emu();
        }
        if controls.slower {
            self.slower();
        }
        if controls.faster {
            self.faster();
        }
        if controls.reset {
            self.reset_emu();
            return true;
        }
        false
    }
}

} // verus!