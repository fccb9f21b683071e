use chip8::instruction::{decode, split_nibbles, Instruction};
use chip8::semantics::Outcome;
use chip8::CPU;

const NO_KEYS: [bool; 16] = [false; 16];

fn run(cpu: &mut CPU, op: u16) -> Outcome {
    assert!(cpu.is_safe_to_execute(op, &NO_KEYS));
    cpu.execute_with(op, &NO_KEYS, 0)
}

#[test]
fn decode_splits_and_names_instructions() {
    assert_eq!(split_nibbles(0xABCD), (0xA, 0xB, 0xC, 0xD));
    assert_eq!(decode(0x00E0), Instruction::ClearScreen);
    assert_eq!(decode(0x00EE), Instruction::Return);
    assert_eq!(decode(0x1234), Instruction::Jump { nnn: 0x234 });
    assert_eq!(decode(0x2ABC), Instruction::Call { nnn: 0xABC });
    assert_eq!(decode(0x3A42), Instruction::SkipIfEqualByte { x: 0xA, kk: 0x42 });
    assert_eq!(decode(0x5120), Instruction::SkipIfEqual { x: 1, y: 2 });
    assert_eq!(decode(0x812E), Instruction::ShiftLeft { x: 1 });
    assert_eq!(decode(0xD125), Instruction::Draw { x: 1, y: 2, n: 5 });
    assert_eq!(decode(0xE39E), Instruction::SkipIfKey { x: 3 });
    assert_eq!(decode(0xF465), Instruction::LoadRegisters { x: 4 });
    assert_eq!(decode(0x0123), Instruction::Unknown);
    assert_eq!(decode(0x5121), Instruction::Unknown);
    assert_eq!(decode(0x8128), Instruction::Unknown);
    assert_eq!(decode(0xB123), Instruction::Unknown);
    assert_eq!(decode(0xE3A2), Instruction::Unknown);
    assert_eq!(decode(0xF499), Instruction::Unknown);
}

#[test]
fn unknown_words_halt_and_change_nothing() {
    for op in [0x0000u16, 0x0123, 0x5121, 0x8128, 0x9AB1, 0xB123, 0xE100, 0xF0FF] {
        let mut cpu = CPU::new();
        cpu.r[1] = 7;
        assert_eq!(run(&mut cpu, op), Outcome::Halted);
        assert_eq!(cpu.pc, 0x200);
        assert_eq!(cpu.r[1], 7);
    }
}

#[test]
fn clear_screen_blanks_every_pixel() {
    let mut cpu = CPU::new();
    cpu.display[0][0] = 1;
    cpu.display[31][63] = 1;
    assert_eq!(run(&mut cpu, 0x00E0), Outcome::Continue);
    assert!(cpu.display.iter().all(|row| row.iter().all(|&p| p == 0)));
}

#[test]
fn jump_sets_pc() {
    let mut cpu = CPU::new();
    assert_eq!(run(&mut cpu, 0x1ABC), Outcome::Jumped);
    assert_eq!(cpu.pc, 0xABC);
}

#[test]
fn call_and_return() {
    let mut cpu = CPU::new();
    assert_eq!(run(&mut cpu, 0x2400), Outcome::Jumped);
    assert_eq!((cpu.pc, cpu.sp, cpu.stack[1]), (0x400, 1, 0x200));
    assert_eq!(run(&mut cpu, 0x00EE), Outcome::Continue);
    assert_eq!((cpu.pc, cpu.sp), (0x200, 0));
    cpu.finish_cycle(false);
    assert_eq!(cpu.pc, 0x202);
}

#[test]
fn return_and_call_limits_are_reported() {
    let mut cpu = CPU::new();
    assert!(!cpu.is_safe_to_execute(0x00EE, &NO_KEYS));
    cpu.sp = 15;
    assert!(cpu.is_safe_to_execute(0x00EE, &NO_KEYS));
    assert!(!cpu.is_safe_to_execute(0x2000, &NO_KEYS));
    cpu.sp = 16;
    assert!(!cpu.is_safe_to_execute(0x00EE, &NO_KEYS));
    cpu.sp = 14;
    assert!(cpu.is_safe_to_execute(0x2000, &NO_KEYS));
}

#[test]
fn skips() {
    let mut cpu = CPU::new();
    cpu.r[1] = 0x42;
    cpu.r[2] = 0x42;
    run(&mut cpu, 0x3142);
    assert_eq!(cpu.pc, 0x202);
    run(&mut cpu, 0x3143);
    assert_eq!(cpu.pc, 0x202);
    run(&mut cpu, 0x4143);
    assert_eq!(cpu.pc, 0x204);
    run(&mut cpu, 0x4142);
    assert_eq!(cpu.pc, 0x204);
    run(&mut cpu, 0x5120);
    assert_eq!(cpu.pc, 0x206);
    run(&mut cpu, 0x9120);
    assert_eq!(cpu.pc, 0x206);
    cpu.r[2] = 0;
    run(&mut cpu, 0x9120);
    assert_eq!(cpu.pc, 0x208);
    cpu.pc = 65534;
    assert!(!cpu.is_safe_to_execute(0x9120, &NO_KEYS));
    assert!(cpu.is_safe_to_execute(0x5120, &NO_KEYS));
}

#[test]
fn loads_and_adds_bytes() {
    let mut cpu = CPU::new();
    run(&mut cpu, 0x6AFE);
    assert_eq!(cpu.r[0xA], 0xFE);
    run(&mut cpu, 0x7A03);
    assert_eq!(cpu.r[0xA], 0x01);
    assert_eq!(cpu.r[0xF], 0);
}

#[test]
fn register_logic() {
    let mut cpu = CPU::new();
    cpu.r[1] = 0b1100;
    cpu.r[2] = 0b1010;
    run(&mut cpu, 0x8121);
    assert_eq!(cpu.r[1], 0b1110);
    cpu.r[1] = 0b1100;
    run(&mut cpu, 0x8122);
    assert_eq!(cpu.r[1], 0b1000);
    cpu.r[1] = 0b1100;
    run(&mut cpu, 0x8123);
    assert_eq!(cpu.r[1], 0b0110);
    run(&mut cpu, 0x8120);
    assert_eq!(cpu.r[1], 0b1010);
}

#[test]
fn add_sets_carry() {
    let mut cpu = CPU::new();
    cpu.r[1] = 200;
    cpu.r[2] = 100;
    run(&mut cpu, 0x8124);
    assert_eq!((cpu.r[1], cpu.r[0xF]), (44, 1));
    cpu.r[1] = 20;
    run(&mut cpu, 0x8124);
    assert_eq!((cpu.r[1], cpu.r[0xF]), (120, 0));
}

#[test]
fn add_into_vf_keeps_the_sum() {
    let mut cpu = CPU::new();
    cpu.r[0xF] = 200;
    cpu.r[2] = 100;
    run(&mut cpu, 0x8F24);
    assert_eq!(cpu.r[0xF], 44);
}

#[test]
fn sub_sets_flag_on_borrow() {
    let mut cpu = CPU::new();
    cpu.r[1] = 5;
    cpu.r[2] = 10;
    run(&mut cpu, 0x8125);
    assert_eq!((cpu.r[1], cpu.r[0xF]), (251, 1));
    cpu.r[1] = 10;
    cpu.r[2] = 5;
    run(&mut cpu, 0x8125);
    assert_eq!((cpu.r[1], cpu.r[0xF]), (5, 0));
}

#[test]
fn shifts() {
    let mut cpu = CPU::new();
    cpu.r[3] = 0b1000_0101;
    run(&mut cpu, 0x8306);
    assert_eq!((cpu.r[3], cpu.r[0xF]), (0b0100_0010, 1));
    cpu.r[3] = 0b1000_0101;
    run(&mut cpu, 0x830E);
    assert_eq!((cpu.r[3], cpu.r[0xF]), (0b0000_1010, 1));
    cpu.r[3] = 0b0100_0000;
    run(&mut cpu, 0x830E);
    assert_eq!((cpu.r[3], cpu.r[0xF]), (0b1000_0000, 0));
    cpu.r[0xF] = 3;
    run(&mut cpu, 0x8F06);
    assert_eq!(cpu.r[0xF], 0);
}

#[test]
fn sub_reverse() {
    let mut cpu = CPU::new();
    cpu.r[1] = 10;
    cpu.r[2] = 3;
    run(&mut cpu, 0x8127);
    assert_eq!((cpu.r[1], cpu.r[0xF]), (249, 1));
    cpu.r[1] = 3;
    cpu.r[2] = 10;
    run(&mut cpu, 0x8127);
    assert_eq!((cpu.r[1], cpu.r[0xF]), (7, 0));
}

#[test]
fn index_instructions() {
    let mut cpu = CPU::new();
    run(&mut cpu, 0xA123);
    assert_eq!(cpu.i, 0x123);
    cpu.r[4] = 0x10;
    run(&mut cpu, 0xF41E);
    assert_eq!(cpu.i, 0x133);
    cpu.r[4] = 0xA;
    run(&mut cpu, 0xF429);
    assert_eq!(cpu.i, 50);
    cpu.r[4] = 51;
    run(&mut cpu, 0xF429);
    assert_eq!(cpu.i, 255);
    cpu.r[4] = 52;
    assert!(!cpu.is_safe_to_execute(0xF429, &NO_KEYS));
    cpu.i = 0xFFFF;
    cpu.r[4] = 1;
    assert!(!cpu.is_safe_to_execute(0xF41E, &NO_KEYS));
}

#[test]
fn random_masks_and_sets_nibbles() {
    let mut cpu = CPU::new();
    cpu.execute_with(0xC5F0, &NO_KEYS, 0xAB);
    assert_eq!(cpu.r[5], 0xA0);
    cpu.execute_with(0xC50F, &NO_KEYS, 0xAB);
    assert_eq!(cpu.r[5], 0x0F);
    cpu.execute_with(0xC5A5, &NO_KEYS, 0xFF);
    assert_eq!(cpu.r[5], 0xA5);
    cpu.execute_with(0xC5A5, &NO_KEYS, 0x50);
    assert_eq!(cpu.r[5], 0x05);
}

#[test]
fn random_draws_vary() {
    let mut seen = [false; 256];
    for _ in 0..400 {
        let mut cpu = CPU::new();
        assert_eq!(cpu.execute(0xC1FF, &NO_KEYS), Outcome::Continue);
        assert_eq!(cpu.r[1] & 0x0F, 0x0F);
        seen[cpu.r[1] as usize] = true;
        cpu.execute(0xC2F0, &NO_KEYS);
        assert_eq!(cpu.r[2] & 0x0F, 0);
    }
    assert!(seen.iter().filter(|&&s| s).count() > 1);
}

#[test]
fn execute_without_random_matches_execute_with() {
    let mut a = CPU::new();
    let mut b = CPU::new();
    a.r[1] = 9;
    b.r[1] = 9;
    assert_eq!(a.execute(0x7105, &NO_KEYS), b.execute_with(0x7105, &NO_KEYS, 77));
    assert_eq!(a.r, b.r);
}

#[test]
fn draw_font_glyph_and_collide() {
    let mut cpu = CPU::new();
    cpu.load_fondset();
    cpu.r[1] = 0;
    cpu.r[2] = 0;
    cpu.i = 0;
    assert_eq!(run(&mut cpu, 0xD125), Outcome::Redraw);
    assert_eq!(cpu.r[0xF], 0);
    assert_eq!(&cpu.display[0][0..8], &[1, 1, 1, 1, 0, 0, 0, 0]);
    assert_eq!(&cpu.display[1][0..8], &[1, 0, 0, 1, 0, 0, 0, 0]);
    assert_eq!(&cpu.display[4][0..8], &[1, 1, 1, 1, 0, 0, 0, 0]);
    assert_eq!(cpu.display[5][0], 0);
    assert_eq!(run(&mut cpu, 0xD125), Outcome::Redraw);
    assert_eq!(cpu.r[0xF], 1);
    assert!(cpu.display.iter().all(|row| row.iter().all(|&p| p == 0)));
}

#[test]
fn draw_wraps_around_the_edges() {
    let mut cpu = CPU::new();
    cpu.memory[0x300] = 0xFF;
    cpu.memory[0x301] = 0x81;
    cpu.i = 0x300;
    cpu.r[3] = 62;
    cpu.r[4] = 31;
    run(&mut cpu, 0xD342);
    assert_eq!(cpu.display[31][62], 1);
    assert_eq!(cpu.display[31][63], 1);
    assert_eq!(&cpu.display[31][0..6], &[1, 1, 1, 1, 1, 1]);
    assert_eq!(cpu.display[0][62], 1);
    assert_eq!(cpu.display[0][63], 0);
    assert_eq!(cpu.display[0][4], 0);
    assert_eq!(cpu.display[0][5], 1);
    assert_eq!(cpu.r[0xF], 0);
}

#[test]
fn draw_of_zero_rows_clears_vf() {
    let mut cpu = CPU::new();
    cpu.r[0xF] = 1;
    assert_eq!(run(&mut cpu, 0xD120), Outcome::Redraw);
    assert_eq!(cpu.r[0xF], 0);
}

#[test]
fn draw_limit_is_reported() {
    let mut cpu = CPU::new();
    cpu.i = 4090;
    assert!(cpu.is_safe_to_execute(0xD127, &NO_KEYS));
    assert!(!cpu.is_safe_to_execute(0xD128, &NO_KEYS));
}

#[test]
fn key_skips() {
    let mut keys = [false; 16];
    keys[0xA] = true;
    let mut cpu = CPU::new();
    cpu.r[1] = 0xA;
    cpu.execute_with(0xE19E, &keys, 0);
    assert_eq!(cpu.pc, 0x202);
    cpu.execute_with(0xE1A1, &keys, 0);
    assert_eq!(cpu.pc, 0x202);
    cpu.r[1] = 3;
    cpu.execute_with(0xE1A1, &keys, 0);
    assert_eq!(cpu.pc, 0x204);
    cpu.r[1] = 16;
    assert!(!cpu.is_safe_to_execute(0xE19E, &keys));
}

#[test]
fn load_key_takes_the_highest_pressed_key() {
    let mut cpu = CPU::new();
    cpu.r[2] = 0x77;
    cpu.execute_with(0xF20A, &NO_KEYS, 0);
    assert_eq!(cpu.r[2], 0x77);
    let mut keys = [false; 16];
    keys[3] = true;
    keys[9] = true;
    cpu.execute_with(0xF20A, &keys, 0);
    assert_eq!(cpu.r[2], 9);
}

#[test]
fn timers_and_registers() {
    let mut cpu = CPU::new();
    cpu.r[6] = 42;
    run(&mut cpu, 0xF615);
    run(&mut cpu, 0xF618);
    assert_eq!((cpu.delay_timer, cpu.sound_timer), (42, 42));
    cpu.delay_timer = 17;
    run(&mut cpu, 0xF707);
    assert_eq!(cpu.r[7], 17);
}

#[test]
fn store_decimal_digits() {
    let mut cpu = CPU::new();
    cpu.r[3] = 234;
    cpu.i = 0x300;
    run(&mut cpu, 0xF333);
    assert_eq!(&cpu.memory[0x300..0x303], &[2, 3, 4]);
    cpu.r[3] = 7;
    cpu.i = 4094;
    run(&mut cpu, 0xF333);
    assert_eq!(&cpu.memory[4094..4097], &[0, 0, 7]);
    cpu.i = 4095;
    assert!(!cpu.is_safe_to_execute(0xF333, &NO_KEYS));
}

#[test]
fn store_registers_excludes_vx() {
    let mut cpu = CPU::new();
    for k in 0..16 {
        cpu.r[k] = (k as u8) + 1;
    }
    cpu.i = 0x400;
    run(&mut cpu, 0xF355);
    assert_eq!(&cpu.memory[0x400..0x404], &[1, 2, 3, 0]);
    run(&mut cpu, 0xF055);
    assert_eq!(cpu.memory[0x400], 1);
}

#[test]
fn load_registers_includes_vx() {
    let mut cpu = CPU::new();
    cpu.memory[0x400..0x404].copy_from_slice(&[9, 8, 7, 6]);
    cpu.i = 0x400;
    run(&mut cpu, 0xF265);
    assert_eq!(&cpu.r[0..4], &[9, 8, 7, 0]);
    cpu.i = 4096;
    assert!(cpu.is_safe_to_execute(0xF065, &NO_KEYS));
    assert!(!cpu.is_safe_to_execute(0xF165, &NO_KEYS));
}
