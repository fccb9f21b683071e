use chip8::cpu::{Controls, MAX_DELAY, MILLISECOND, PROGRAM_START};
use chip8::font::FONTSET;
use chip8::screen::{pixel_rect, DARK, LIT};
use chip8::CPU;

#[test]
fn new_is_power_on_state() {
    let cpu = CPU::new();
    assert_eq!(cpu.pc, 0x200);
    assert_eq!(cpu.pc, PROGRAM_START);
    assert!(cpu.memory.iter().all(|&b| b == 0));
    assert_eq!(cpu.r, [0u8; 16]);
    assert_eq!(cpu.i, 0);
    assert_eq!(cpu.sp, 0);
    assert_eq!(cpu.stack, [0u16; 16]);
    assert!(cpu.display.iter().all(|row| row.iter().all(|&p| p == 0)));
    assert_eq!(cpu.delay_timer, 0);
    assert_eq!(cpu.sound_timer, 0);
    assert_eq!(cpu.delay_between_instructions, 16_600_000);
    assert_eq!(cpu.delay_between_cycles, 3_000_000);
}

#[test]
fn load_fondset_copies_font_only() {
    let mut cpu = CPU::new();
    cpu.memory[80] = 0xAB;
    cpu.memory[4096] = 7;
    cpu.load_fondset();
    assert_eq!(&cpu.memory[0..80], &FONTSET[..]);
    assert_eq!(cpu.memory[0], 0xF0);
    assert_eq!(cpu.memory[5], 0x20);
    assert_eq!(cpu.memory[79], 0x80);
    assert_eq!(cpu.memory[80], 0xAB);
    assert_eq!(cpu.memory[4096], 7);
    assert_eq!(cpu.pc, 0x200);
}

#[test]
fn read_op_code_is_big_endian() {
    let mut cpu = CPU::new();
    cpu.memory[0x200] = 0x12;
    cpu.memory[0x201] = 0x34;
    assert_eq!(cpu.read_op_code(), 0x1234);
    assert_eq!(cpu.pc, 0x200);
    cpu.pc = 4095;
    cpu.memory[4095] = 0xAB;
    cpu.memory[4096] = 0xCD;
    assert_eq!(cpu.read_op_code(), 0xABCD);
}

#[test]
fn faster_and_slower_move_the_instruction_pause_by_a_millisecond() {
    let mut cpu = CPU::new();
    cpu.faster();
    assert_eq!(cpu.delay_between_instructions, 17_600_000);
    cpu.slower();
    cpu.slower();
    assert_eq!(cpu.delay_between_instructions, 15_600_000);
    assert_eq!(cpu.delay_between_cycles, 3_000_000);
    assert_eq!(MILLISECOND, 1_000_000);
}

#[test]
fn slower_undoes_faster_on_concrete_values() {
    let mut cpu = CPU::new();
    cpu.delay_between_instructions = 5;
    cpu.faster();
    cpu.slower();
    assert_eq!(cpu.delay_between_instructions, 5);
    cpu.delay_between_instructions = MAX_DELAY - MILLISECOND;
    cpu.faster();
    assert_eq!(cpu.delay_between_instructions, MAX_DELAY);
}

#[test]
fn reset_emu_clears_all_but_memory_and_pauses() {
    let mut cpu = CPU::new();
    cpu.pc = 0x345;
    cpu.memory[0x300] = 9;
    cpu.r[3] = 4;
    cpu.i = 0x456;
    cpu.sp = 2;
    cpu.stack[2] = 0x222;
    cpu.display[5][6] = 1;
    cpu.delay_timer = 7;
    cpu.sound_timer = 8;
    cpu.delay_between_instructions = 1;
    cpu.delay_between_cycles = 2;
    cpu.reset_emu();
    assert_eq!(cpu.pc, 0x200);
    assert_eq!(cpu.r, [0u8; 16]);
    assert_eq!(cpu.i, 0);
    assert_eq!(cpu.sp, 0);
    assert_eq!(cpu.stack, [0u16; 16]);
    assert_eq!(cpu.display[5][6], 0);
    assert_eq!(cpu.delay_timer, 0);
    assert_eq!(cpu.sound_timer, 0);
    assert_eq!(cpu.memory[0x300], 9);
    assert_eq!(cpu.delay_between_instructions, 1);
    assert_eq!(cpu.delay_between_cycles, 2);
    let pc = cpu.pc;
    cpu.reset_emu();
    assert_eq!(cpu.pc, pc);
    assert_eq!(cpu.memory[0x300], 9);
}

#[test]
fn cycle_advances_pc_by_two() {
    let mut cpu = CPU::new();
    cpu.cycle();
    assert_eq!(cpu.pc, 0x202);
    cpu.pc = 65533;
    cpu.cycle();
    assert_eq!(cpu.pc, 65535);
}

#[test]
fn tick_timers_counts_down_to_zero() {
    let mut cpu = CPU::new();
    cpu.delay_timer = 2;
    cpu.sound_timer = 0;
    cpu.tick_timers();
    assert_eq!((cpu.delay_timer, cpu.sound_timer), (1, 0));
    cpu.tick_timers();
    cpu.tick_timers();
    assert_eq!((cpu.delay_timer, cpu.sound_timer), (0, 0));
}

#[test]
fn finish_cycle_ticks_only_on_a_clock_tick() {
    let mut cpu = CPU::new();
    cpu.delay_timer = 5;
    cpu.sound_timer = 1;
    cpu.finish_cycle(false);
    assert_eq!((cpu.pc, cpu.delay_timer, cpu.sound_timer), (0x202, 5, 1));
    cpu.finish_cycle(true);
    assert_eq!((cpu.pc, cpu.delay_timer, cpu.sound_timer), (0x204, 4, 0));
}

#[test]
fn apply_controls_resets_and_adjusts_the_pause() {
    let mut cpu = CPU::new();
    cpu.pc = 0x300;
    let none = Controls { reset: false, slower: false, faster: false };
    assert!(!cpu.apply_controls(&none));
    assert_eq!(cpu.pc, 0x300);
    let faster = Controls { reset: false, slower: false, faster: true };
    assert!(!cpu.apply_controls(&faster));
    assert_eq!(cpu.delay_between_instructions, 17_600_000);
    let both = Controls { reset: false, slower: true, faster: true };
    assert!(!cpu.apply_controls(&both));
    assert_eq!(cpu.delay_between_instructions, 17_600_000);
    let reset = Controls { reset: true, slower: true, faster: false };
    assert!(cpu.apply_controls(&reset));
    assert_eq!(cpu.pc, 0x200);
    assert_eq!(cpu.delay_between_instructions, 16_600_000);
}

#[test]
fn apply_controls_slower_then_faster_near_zero() {
    let mut cpu = CPU::new();
    cpu.delay_between_instructions = MILLISECOND;
    let both = Controls { reset: false, slower: true, faster: true };
    assert!(!cpu.apply_controls(&both));
    assert_eq!(cpu.delay_between_instructions, MILLISECOND);
}

#[test]
fn pixel_rect_scales_cells_to_the_viewport() {
    assert_eq!(pixel_rect(0, 0, 640, 320), (0, 0, 10, 10));
    assert_eq!(pixel_rect(3, 2, 640, 320), (30, 20, 10, 10));
    assert_eq!(pixel_rect(63, 31, 700, 400), (630, 372, 10, 12));
    assert_eq!(pixel_rect(5, 5, 10, 10), (0, 0, 0, 0));
}

#[test]
fn pixel_shade_lights_only_ones() {
    let mut cpu = CPU::new();
    cpu.display[1][2] = 1;
    cpu.display[1][3] = 2;
    assert_eq!(cpu.pixel_shade(2, 1), LIT);
    assert_eq!(cpu.pixel_shade(3, 1), DARK);
    assert_eq!(cpu.pixel_shade(0, 0), DARK);
    assert_eq!(LIT, 255);
}
