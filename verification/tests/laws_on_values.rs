use chip8::semantics::Outcome;
use chip8::CPU;

const NO_KEYS: [bool; 16] = [false; 16];

#[test]
fn return_undoes_call_on_values() {
    let mut cpu = CPU::new();
    cpu.pc = 0x456;
    cpu.sp = 3;
    cpu.execute_with(0x2800, &NO_KEYS, 0);
    cpu.execute_with(0x00EE, &NO_KEYS, 0);
    assert_eq!((cpu.pc, cpu.sp, cpu.stack[4]), (0x456, 3, 0x456));
}

#[test]
fn draw_twice_restores_screen_on_values() {
    let mut cpu = CPU::new();
    cpu.display[10][20] = 1;
    cpu.display[11][21] = 1;
    cpu.memory[0x500..0x503].copy_from_slice(&[0b1010_0101, 0xFF, 0x3C]);
    cpu.i = 0x500;
    cpu.r[1] = 18;
    cpu.r[2] = 10;
    let before = cpu.display;
    cpu.execute_with(0xD123, &NO_KEYS, 0);
    assert_ne!(cpu.display, before);
    assert_eq!(cpu.r[0xF], 1);
    cpu.execute_with(0xD123, &NO_KEYS, 0);
    assert_eq!(cpu.display, before);
}

#[test]
fn store_then_load_registers_on_values() {
    let mut cpu = CPU::new();
    cpu.r[0..4].copy_from_slice(&[5, 6, 7, 8]);
    cpu.i = 0x600;
    cpu.execute_with(0xF455, &NO_KEYS, 0);
    cpu.r[0..4].copy_from_slice(&[0, 0, 0, 0]);
    cpu.execute_with(0xF465, &NO_KEYS, 0);
    assert_eq!(&cpu.r[0..4], &[5, 6, 7, 8]);
}

#[test]
fn glyph_address_on_values() {
    let mut cpu = CPU::new();
    cpu.load_fondset();
    cpu.r[0] = 0xB;
    cpu.execute_with(0xF029, &NO_KEYS, 0);
    assert_eq!(cpu.i, 55);
    assert_eq!(&cpu.memory[55..60], &[0xE0, 0x90, 0xE0, 0x90, 0xE0]);
}

#[test]
fn sub_undoes_add_on_values() {
    let mut cpu = CPU::new();
    cpu.r[1] = 250;
    cpu.r[2] = 10;
    cpu.execute_with(0x8124, &NO_KEYS, 0);
    let carry = cpu.r[0xF];
    cpu.execute_with(0x8125, &NO_KEYS, 0);
    assert_eq!(cpu.r[1], 250);
    assert_eq!(cpu.r[0xF], carry);
    assert_eq!(carry, 1);
}

#[test]
fn decimal_digits_on_values() {
    let mut cpu = CPU::new();
    cpu.i = 0x700;
    for v in [0u8, 9, 10, 99, 100, 255] {
        cpu.r[0] = v;
        cpu.execute_with(0xF033, &NO_KEYS, 0);
        let m = &cpu.memory[0x700..0x703];
        assert_eq!(m[0] as u32 * 100 + m[1] as u32 * 10 + m[2] as u32, v as u32);
    }
}

#[test]
fn unknown_word_changes_nothing_on_values() {
    let mut cpu = CPU::new();
    cpu.r[4] = 1;
    cpu.display[2][2] = 1;
    assert_eq!(cpu.execute_with(0xBFFF, &NO_KEYS, 9), Outcome::Halted);
    assert_eq!(cpu.r[4], 1);
    assert_eq!(cpu.display[2][2], 1);
    assert_eq!(cpu.pc, 0x200);
}

#[test]
fn reset_is_idempotent_on_values() {
    let mut cpu = CPU::new();
    cpu.r[1] = 3;
    cpu.reset_emu();
    let r = cpu.r;
    cpu.reset_emu();
    assert_eq!(cpu.r, r);
}

#[test]
fn screen_stays_binary_on_values() {
    let mut cpu = CPU::new();
    cpu.load_fondset();
    for (k, op) in [0xD005u16, 0xD015, 0x00E0, 0xD00F].iter().enumerate() {
        cpu.r[1] = k as u8;
        cpu.execute_with(*op, &NO_KEYS, 0);
        assert!(cpu.display.iter().all(|row| row.iter().all(|&p| p <= 1)));
    }
}

#[test]
fn pc_stays_or_skips_on_values() {
    let mut cpu = CPU::new();
    cpu.r[0] = 1;
    for op in [0x3001u16, 0x3002, 0x6005, 0xE0A1, 0xF01E] {
        let pc = cpu.pc;
        cpu.execute_with(op, &NO_KEYS, 0);
        assert!(cpu.pc == pc || cpu.pc == pc + 2);
    }
}

#[test]
fn load_key_on_values() {
    let mut keys = [false; 16];
    keys[0] = true;
    keys[15] = true;
    let mut cpu = CPU::new();
    cpu.execute_with(0xF50A, &keys, 0);
    assert_eq!(cpu.r[5], 15);
}
