use nesty::bitops::{reverse_byte, test_bit};
use nesty::emulator::Emulator;

fn make_nrom(prg: Vec<u8>) -> Vec<u8> {
    assert_eq!(prg.len(), 0x4000);
    let mut rom = vec![0x4E, 0x45, 0x53, 0x1A, 1, 0, 0, 0];
    rom.resize(16, 0);
    rom.extend_from_slice(&prg);
    rom
}

fn prg_with_reset(code: &[u8], at: usize, entry: u16) -> Vec<u8> {
    let mut prg = vec![0u8; 0x4000];
    prg[at..at + code.len()].copy_from_slice(code);
    prg[0x3FFC] = (entry & 0xFF) as u8;
    prg[0x3FFD] = (entry >> 8) as u8;
    prg
}

#[test]
fn reset_vector_loads_pc_and_costs_seven_cycles() {
    let rom = make_nrom(prg_with_reset(&[], 0, 0x8000));
    let mut emu = Emulator::new();
    emu.load_rom(&rom).unwrap();
    emu.reset();
    assert_eq!(emu.cpu.pc, 0x8000);
    assert_eq!(emu.cpu.total_cycles, 7);
}

#[test]
fn adc_overflow_sets_n_and_v() {
    let mut emu = Emulator::new();
    emu.bus.write_byte(0x0200, 0x69);
    emu.bus.write_byte(0x0201, 0x50);
    emu.cpu.pc = 0x0200;
    emu.cpu.a = 0x50;
    emu.cpu.p = 0x00;
    emu.cpu.tick(&mut emu.bus).unwrap();
    assert_eq!(emu.cpu.a, 0xA0);
    assert!(test_bit(emu.cpu.p, 7), "N must be set");
    assert!(test_bit(emu.cpu.p, 6), "V must be set");
    assert!(!test_bit(emu.cpu.p, 1), "Z must be clear");
    assert!(!test_bit(emu.cpu.p, 0), "C must be clear");
}

#[test]
fn adc_carry_chain() {
    let mut emu = Emulator::new();
    emu.bus.write_byte(0x0200, 0x69);
    emu.bus.write_byte(0x0201, 0xFF);
    emu.cpu.pc = 0x0200;
    emu.cpu.a = 0x01;
    emu.cpu.p = 0x01;
    emu.cpu.tick(&mut emu.bus).unwrap();
    assert_eq!(emu.cpu.a, 0x01);
    assert!(test_bit(emu.cpu.p, 0), "C must be set");
    assert!(!test_bit(emu.cpu.p, 1), "Z must be clear");
}

#[test]
fn branch_page_cross_costs_four_cycles() {
    let mut prg = prg_with_reset(&[], 0, 0x8000);
    prg[0x00FD] = 0xB0;
    prg[0x00FE] = 0x04;
    let rom = make_nrom(prg);
    let mut emu = Emulator::new();
    emu.load_rom(&rom).unwrap();
    emu.cpu.pc = 0x80FD;
    emu.cpu.p = 0x01;
    let before = emu.cpu.total_cycles;
    emu.cpu.tick(&mut emu.bus).unwrap();
    assert_eq!(emu.cpu.pc, 0x8103);
    assert_eq!(emu.cpu.total_cycles - before, 4);
}

#[test]
fn branch_not_taken_costs_two_cycles() {
    let mut emu = Emulator::new();
    emu.bus.write_byte(0x0200, 0xB0);
    emu.bus.write_byte(0x0201, 0x04);
    emu.cpu.pc = 0x0200;
    emu.cpu.p = 0x00;
    let before = emu.cpu.total_cycles;
    emu.cpu.tick(&mut emu.bus).unwrap();
    assert_eq!(emu.cpu.pc, 0x0202);
    assert_eq!(emu.cpu.total_cycles - before, 2);
}

#[test]
fn indirect_jmp_wraps_within_the_pointer_page() {
    let mut emu = Emulator::new();
    emu.bus.write_byte(0x0200, 0x6C);
    emu.bus.write_byte(0x0201, 0xFF);
    emu.bus.write_byte(0x0202, 0x03);
    emu.bus.write_byte(0x03FF, 0x40);
    emu.bus.write_byte(0x0300, 0x80);
    emu.bus.write_byte(0x0400, 0x99);
    emu.cpu.pc = 0x0200;
    emu.cpu.tick(&mut emu.bus).unwrap();
    assert_eq!(emu.cpu.pc, 0x8040, "high byte must come from $0300, not $0400");
}

#[test]
fn jsr_and_rts_round_trip() {
    let mut emu = Emulator::new();
    // JSR $0210 at $0200; RTS at $0210.
    emu.bus.write_byte(0x0200, 0x20);
    emu.bus.write_byte(0x0201, 0x10);
    emu.bus.write_byte(0x0202, 0x02);
    emu.bus.write_byte(0x0210, 0x60);
    emu.cpu.pc = 0x0200;
    emu.cpu.sp = 0xFD;
    let before = emu.cpu.total_cycles;
    emu.cpu.tick(&mut emu.bus).unwrap();
    assert_eq!(emu.cpu.pc, 0x0210);
    assert_eq!(emu.cpu.total_cycles - before, 6);
    emu.cpu.tick(&mut emu.bus).unwrap();
    assert_eq!(emu.cpu.pc, 0x0203);
    assert_eq!(emu.cpu.sp, 0xFD);
    assert_eq!(emu.cpu.total_cycles - before, 12);
}

#[test]
fn undocumented_opcode_reports_pc_and_opcode() {
    let mut emu = Emulator::new();
    emu.bus.write_byte(0x0200, 0x02);
    emu.cpu.pc = 0x0200;
    let fault = emu.cpu.tick(&mut emu.bus).unwrap_err();
    assert_eq!(fault.pc, 0x0200);
    assert_eq!(fault.opcode, 0x02);
}

#[test]
fn lsr_sets_carry_from_bit_zero() {
    let mut emu = Emulator::new();
    emu.bus.write_byte(0x0200, 0x4A);
    emu.cpu.pc = 0x0200;
    emu.cpu.a = 0x03;
    emu.cpu.p = 0x00;
    emu.cpu.tick(&mut emu.bus).unwrap();
    assert_eq!(emu.cpu.a, 0x01);
    assert!(test_bit(emu.cpu.p, 0));
}

#[test]
fn rol_rotates_carry_into_bit_zero() {
    let mut emu = Emulator::new();
    emu.bus.write_byte(0x0200, 0x2A);
    emu.cpu.pc = 0x0200;
    emu.cpu.a = 0x80;
    emu.cpu.p = 0x01;
    emu.cpu.tick(&mut emu.bus).unwrap();
    assert_eq!(emu.cpu.a, 0x01);
    assert!(test_bit(emu.cpu.p, 0), "bit 7 left into carry");
}

#[test]
fn inc_memory_wraps_and_sets_zero() {
    let mut emu = Emulator::new();
    emu.bus.write_byte(0x0200, 0xE6);
    emu.bus.write_byte(0x0201, 0x10);
    emu.bus.write_byte(0x0010, 0xFF);
    emu.cpu.pc = 0x0200;
    let before = emu.cpu.total_cycles;
    emu.cpu.tick(&mut emu.bus).unwrap();
    assert_eq!(emu.bus.read_byte(0x0010), 0x00);
    assert!(test_bit(emu.cpu.p, 1), "Z set after wrap to zero");
    assert_eq!(emu.cpu.total_cycles - before, 5);
}

#[test]
fn php_pushes_b_and_unused_plp_ignores_them() {
    let mut emu = Emulator::new();
    emu.bus.write_byte(0x0200, 0x08); // PHP
    emu.bus.write_byte(0x0201, 0x28); // PLP
    emu.cpu.pc = 0x0200;
    emu.cpu.sp = 0xFD;
    emu.cpu.p = 0x81;
    emu.cpu.tick(&mut emu.bus).unwrap();
    assert_eq!(emu.bus.read_byte(0x01FD), 0x81 | 0x30, "pushed copy carries bits 4-5");
    emu.cpu.p = 0x30;
    emu.cpu.tick(&mut emu.bus).unwrap();
    assert_eq!(emu.cpu.p, 0x81 | 0x30, "incoming 4-5 masked, live 4-5 kept");
}

#[test]
fn nmi_pushes_state_and_vectors() {
    let mut emu = Emulator::new();
    let mut prg = prg_with_reset(&[], 0, 0x8000);
    prg[0x3FFA] = 0x34;
    prg[0x3FFB] = 0x12;
    emu.load_rom(&make_nrom(prg)).unwrap();
    emu.cpu.pc = 0xABCD;
    emu.cpu.sp = 0xFD;
    emu.cpu.p = 0x01;
    let before = emu.cpu.total_cycles;
    emu.cpu.nmi(&mut emu.bus);
    assert_eq!(emu.cpu.pc, 0x1234);
    assert_eq!(emu.bus.read_byte(0x01FD), 0xAB);
    assert_eq!(emu.bus.read_byte(0x01FC), 0xCD);
    assert_eq!(emu.bus.read_byte(0x01FB), 0x01 | 0x20, "B clear, unused set");
    assert!(test_bit(emu.cpu.p, 2), "I set");
    assert_eq!(emu.cpu.total_cycles - before, 7);
}

#[test]
fn irq_respects_interrupt_disable() {
    let mut emu = Emulator::new();
    emu.cpu.pc = 0x1234;
    emu.cpu.p = 0x04;
    let before = emu.cpu.total_cycles;
    emu.cpu.irq(&mut emu.bus);
    assert_eq!(emu.cpu.pc, 0x1234, "suppressed while I is set");
    assert_eq!(emu.cpu.total_cycles, before);
}

#[test]
fn reverse_byte_mirrors_bits() {
    assert_eq!(reverse_byte(0b1011_0000), 0b0000_1101);
    assert_eq!(reverse_byte(0x01), 0x80);
    assert_eq!(reverse_byte(0xFF), 0xFF);
    assert_eq!(reverse_byte(0x00), 0x00);
}

#[test]
fn adc_immediate_costs_two_cycles() {
    let mut emu = Emulator::new();
    emu.bus.write_byte(0x0200, 0x69);
    emu.bus.write_byte(0x0201, 0x07);
    emu.cpu.pc = 0x0200;
    let before = emu.cpu.total_cycles;
    emu.cpu.tick(&mut emu.bus).unwrap();
    assert_eq!(emu.cpu.a, 0x07);
    assert_eq!(emu.cpu.total_cycles - before, 2);
}

#[test]
fn indirect_y_pointer_wraps_within_the_zero_page() {
    let mut emu = Emulator::new();
    // LDA ($FF),Y: the pointer's high byte comes from $00, not $100.
    emu.bus.write_byte(0x0200, 0xB1);
    emu.bus.write_byte(0x0201, 0xFF);
    emu.bus.write_byte(0x00FF, 0x10);
    emu.bus.write_byte(0x0000, 0x02);
    emu.bus.write_byte(0x0100, 0x07);
    emu.bus.write_byte(0x0211, 0x3C);
    emu.cpu.pc = 0x0200;
    emu.cpu.y = 1;
    emu.cpu.tick(&mut emu.bus).unwrap();
    assert_eq!(emu.cpu.a, 0x3C);
}

#[test]
fn stack_pointer_wraps_within_page_one() {
    let mut emu = Emulator::new();
    emu.bus.write_byte(0x0200, 0x68); // PLA
    emu.bus.write_byte(0x0100, 0x42);
    emu.cpu.pc = 0x0200;
    emu.cpu.sp = 0xFF;
    emu.cpu.tick(&mut emu.bus).unwrap();
    assert_eq!(emu.cpu.a, 0x42);
    assert_eq!(emu.cpu.sp, 0x00);
}
