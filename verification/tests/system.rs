use nesty::cartridge::{Cartridge, RomError};
use nesty::ppu::PPU;
use nesty::cpubus::CPUBus;
use nesty::emulator::Emulator;
use nesty::joypad::{Joypad, BUTTON_A, BUTTON_DOWN, BUTTON_SELECT, BUTTON_START};
use nesty::mapper::{Mapper0, Mapper1, MapperKind, Mirroring};
use nesty::ppubus::PPUBus;

fn header(prg_banks: u8, chr_banks: u8, flags6: u8, flags7: u8) -> Vec<u8> {
    let mut rom = vec![0x4E, 0x45, 0x53, 0x1A, prg_banks, chr_banks, flags6, flags7];
    rom.resize(16, 0);
    rom
}

fn make_nrom(prg: Vec<u8>) -> Vec<u8> {
    let mut rom = header(1, 0, 0, 0);
    assert_eq!(prg.len(), 0x4000);
    rom.extend_from_slice(&prg);
    rom
}

#[test]
fn work_ram_mirrors_every_0x800() {
    let mut emu = Emulator::new();
    emu.bus.write_byte(0x0005, 0x42);
    assert_eq!(emu.bus.read_byte(0x0005), 0x42);
    assert_eq!(emu.bus.read_byte(0x0805), 0x42);
    assert_eq!(emu.bus.read_byte(0x1805), 0x42);
    emu.bus.write_byte(0x1FFF, 0x77);
    assert_eq!(emu.bus.read_byte(0x07FF), 0x77);
}

#[test]
fn joypad_latch_clocks_buttons_in_order() {
    let mut pad = Joypad::new();
    pad.press(BUTTON_A);
    pad.press(BUTTON_SELECT);
    pad.press(BUTTON_DOWN);
    pad.write(1);
    pad.write(0);
    let expected = [1u8, 0, 1, 0, 0, 1, 0, 0];
    for (i, want) in expected.into_iter().enumerate() {
        assert_eq!(pad.read(), want, "button {}", i);
    }
    assert_eq!(pad.read(), 1, "ninth read returns 1");
    assert_eq!(pad.read(), 1, "and so does every later read");
    pad.release(BUTTON_A);
    pad.write(1);
    assert_eq!(pad.read(), 0, "strobe high keeps reporting button A");
    pad.press(BUTTON_START);
    assert_eq!(pad.read(), 0);
}

#[test]
fn joypad_through_the_bus() {
    let mut emu = Emulator::new();
    emu.bus.joypad.press(BUTTON_A);
    emu.bus.write_byte(0x4016, 1);
    emu.bus.write_byte(0x4016, 0);
    assert_eq!(emu.bus.read_byte(0x4016), 1);
    assert_eq!(emu.bus.read_byte(0x4016), 0);
}

#[test]
fn oam_dma_stalls_513_cycles_and_copies_a_page() {
    let mut emu = Emulator::new();
    for i in 0..256u16 {
        emu.bus.write_byte(0x0200 + i, (i as u8) ^ 0xA5);
    }
    // LDA #$02; STA $4014 at $0000.
    emu.bus.write_byte(0x0000, 0xA9);
    emu.bus.write_byte(0x0001, 0x02);
    emu.bus.write_byte(0x0002, 0x8D);
    emu.bus.write_byte(0x0003, 0x14);
    emu.bus.write_byte(0x0004, 0x40);
    emu.bus.ppu.oam_addr = 5;
    emu.cpu.pc = 0x0000;
    emu.tick().unwrap();
    emu.tick().unwrap();
    assert!(emu.dma.active, "the $4014 write armed the transfer");
    assert_eq!(emu.cpu.total_cycles % 2, 0, "entry parity is even");
    let before = emu.cpu.total_cycles;
    let mut guard = 0u32;
    while emu.dma.active {
        emu.tick().unwrap();
        guard += 1;
        assert!(guard < 1000);
    }
    assert_eq!(emu.cpu.total_cycles - before, 513);
    for i in 0..256usize {
        assert_eq!(
            emu.bus.ppu.oam[(5 + i) % 256],
            (i as u8) ^ 0xA5,
            "OAM byte {} copied from $0200",
            i
        );
    }
    assert_eq!(emu.bus.ppu.oam_addr, 5, "the cursor wrapped back to its entry value");
}

#[test]
fn ppu_advances_three_dots_per_cpu_cycle() {
    let mut emu = Emulator::new();
    // JMP $0000 at $0000.
    emu.bus.write_byte(0x0000, 0x4C);
    emu.cpu.pc = 0x0000;
    for _ in 0..10 {
        let dots = emu.bus.ppu.dots;
        let cycles = emu.tick().unwrap();
        assert_eq!(emu.bus.ppu.dots, dots + 3 * cycles);
    }
}

#[test]
fn rom_rejection_reports_the_reason() {
    assert!(matches!(Cartridge::new(&vec![0x4E, 0x45]), Err(RomError::Truncated)));
    let mut bad_magic = header(1, 0, 0, 0);
    bad_magic[0] = 0x4D;
    bad_magic.resize(16 + 0x4000, 0);
    assert!(matches!(Cartridge::new(&bad_magic), Err(RomError::BadMagic)));
    let mut nes2 = header(1, 0, 0, 0x08);
    nes2.resize(16 + 0x4000, 0);
    assert!(matches!(Cartridge::new(&nes2), Err(RomError::Nes2Unsupported)));
    let no_prg = header(0, 0, 0, 0);
    assert!(matches!(Cartridge::new(&no_prg), Err(RomError::NoPrgRom)));
    let short = header(2, 0, 0, 0);
    assert!(matches!(Cartridge::new(&short), Err(RomError::Truncated)));
    let mut mapper4 = header(1, 0, 0x40, 0);
    mapper4.resize(16 + 0x4000, 0);
    assert!(matches!(Cartridge::new(&mapper4), Err(RomError::UnsupportedMapper(4))));
    let mut emu = Emulator::new();
    let err = emu.load_rom(&mapper4).unwrap_err();
    assert_eq!(err, RomError::UnsupportedMapper(4));
}

#[test]
fn nrom_mirrors_a_16k_bank() {
    let mut prg = vec![0u8; 0x4000];
    prg[0x0123] = 0xAB;
    let mut emu = Emulator::new();
    emu.load_rom(&make_nrom(prg)).unwrap();
    assert_eq!(emu.bus.read_byte(0x8123), 0xAB);
    assert_eq!(emu.bus.read_byte(0xC123), 0xAB, "16 KiB PRG mirrors into the upper bank");
    emu.bus.write_byte(0x6005, 0x99);
    assert_eq!(emu.bus.read_byte(0x6005), 0x99, "PRG-RAM accepts writes");
    emu.bus.write_byte(0x8123, 0x00);
    assert_eq!(emu.bus.read_byte(0x8123), 0xAB, "PRG-ROM ignores writes");
    emu.bus.write_byte(0x4020, 0x31);
    assert_eq!(emu.bus.read_byte(0x4020), 0x31, "expansion area is RAM");
}

#[test]
fn mmc1_serial_write_commits_on_the_fifth_bit() {
    let prg = vec![0u8; 2 * 0x4000];
    let chr = vec![0u8; 0x2000];
    let mut m = Mapper1::new(Mirroring::Horizontial, 2, 0, prg, chr);
    assert_eq!(m.shift_register, 0x10);
    // Commit 0b00010 (vertical mirroring) to the control register,
    // LSB first: 0, 1, 0, 0, 0.
    for bit in [0u8, 1, 0, 0, 0] {
        m.cpu_write_byte(0x8000, bit);
    }
    assert_eq!(m.control_register, 0b00010);
    assert!(matches!(m.mirroring(), Mirroring::Vertical));
    assert_eq!(m.shift_register, 0x10, "the register refills with the sentinel");
    // Four writes alone commit nothing.
    for bit in [1u8, 1, 1, 1] {
        m.cpu_write_byte(0x8000, bit);
    }
    assert_eq!(m.control_register, 0b00010);
    m.cpu_write_byte(0x8000, 0);
    assert_eq!(m.control_register, 0b01111, "fifth write commits the five bits");
}

#[test]
fn mmc1_bit7_resets_the_shift_register() {
    let prg = vec![0u8; 2 * 0x4000];
    let chr = vec![0u8; 0x2000];
    let mut m = Mapper1::new(Mirroring::Horizontial, 2, 0, prg, chr);
    m.cpu_write_byte(0x8000, 1);
    m.cpu_write_byte(0x8000, 1);
    m.cpu_write_byte(0x8000, 0x80);
    assert_eq!(m.shift_register, 0x10);
    assert_eq!(m.control_register, 0x1C | 0x0C);
    assert_eq!(m.prg_bank_select_hi, 1, "last bank fixed at $C000");
}

#[test]
fn mmc1_prg_banking_fixes_the_last_bank() {
    let mut prg = vec![0u8; 2 * 0x4000];
    prg[0x0000] = 0x11;
    prg[0x4000] = 0x22;
    let chr = vec![0u8; 0x2000];
    let m = Mapper1::new(Mirroring::Horizontial, 2, 0, prg, chr);
    // Power-on control 0x1C: mode 3, bank 0 at $8000, last at $C000.
    assert_eq!(m.cpu_read_byte(0x8000), 0x11);
    assert_eq!(m.cpu_read_byte(0xC000), 0x22);
}

#[test]
fn mmc1_loads_through_the_cartridge() {
    let mut rom = header(2, 1, 0x10, 0);
    rom.extend_from_slice(&vec![0u8; 2 * 0x4000]);
    rom.extend_from_slice(&vec![0x5Au8; 0x2000]);
    let cart = Cartridge::new(&rom).unwrap();
    match &cart.mapper {
        MapperKind::Mmc1(m) => {
            assert_eq!(m.prg_rom_banks, 2);
            assert_eq!(m.chr_rom_banks, 1);
            assert_eq!(m.chr_rom[0], 0x5A);
        },
        MapperKind::Nrom(_) => panic!("header names MMC1"),
    }
    assert_eq!(cart.read_byte(0x0000), 0x5A, "CHR-ROM visible on the PPU side");
}

#[test]
fn mapper0_direct_construction() {
    let mut prg = vec![0u8; 0x8000];
    prg[0x7FFF] = 0x5C;
    let m = Mapper0::new(Mirroring::Vertical, 0x8000, prg, vec![0u8; 0x2000], false);
    assert_eq!(m.cpu_read_byte(0xFFFF), 0x5C, "32 KiB PRG maps straight through");
    assert!(matches!(m.mirroring(), Mirroring::Vertical));
}

#[test]
fn cpubus_dispatch_and_prg_mirror() {
    let mut prg = vec![0u8; 0x4000];
    prg[0x0042] = 0x24;
    let mut bus = CPUBus::new(prg);
    bus.write_byte(0x0100, 0x55);
    assert_eq!(bus.read_byte(0x0900), 0x55, "RAM mirrors");
    bus.write_byte(0x4005, 0x66);
    assert_eq!(bus.read_byte(0x4005), 0x66);
    bus.write_byte(0x5000, 0x77);
    assert_eq!(bus.read_byte(0x5000), 0x77);
    assert_eq!(bus.read_byte(0x8042), 0x24);
    assert_eq!(bus.read_byte(0xC042), 0x24);
    bus.write_byte(0x8042, 0x00);
    assert_eq!(bus.read_byte(0x8042), 0x24, "ROM ignores writes");
    assert_eq!(bus.read_word(0x0100), 0x0055);
}

#[test]
fn ppubus_mirroring_folds_nametables() {
    let mut vbus = PPUBus::new(vec![0u8; 0x2000], Mirroring::Vertical);
    vbus.write_byte(0x2005, 0x31);
    assert_eq!(vbus.read_byte(0x2805), 0x31, "vertical: $2000 and $2800 share a page");
    assert_eq!(vbus.read_byte(0x2405), 0x00);
    let mut hbus = PPUBus::new(vec![0u8; 0x2000], Mirroring::Horizontial);
    hbus.write_byte(0x2005, 0x42);
    assert_eq!(hbus.read_byte(0x2405), 0x42, "horizontal: $2000 and $2400 share a page");
    assert_eq!(hbus.read_byte(0x2805), 0x00);
    hbus.write_byte(0x3F05, 0x17);
    assert_eq!(hbus.read_byte(0x3F25), 0x17, "palette mirrors every 32 bytes");
}

#[test]
fn a_frame_of_updates_runs_the_clock() {
    let mut prg = vec![0u8; 0x4000];
    // JMP $8000 forever.
    prg[0x0000] = 0x4C;
    prg[0x0001] = 0x00;
    prg[0x0002] = 0x80;
    prg[0x3FFC] = 0x00;
    prg[0x3FFD] = 0x80;
    let mut emu = Emulator::new();
    emu.load_rom(&make_nrom(prg)).unwrap();
    emu.reset();
    let before = emu.cpu.total_cycles;
    emu.update().unwrap();
    let consumed = emu.cpu.total_cycles - before;
    assert!(consumed >= 29781, "a frame is at least 29781 CPU cycles, got {}", consumed);
    assert!(consumed <= 29781 + 15);
    assert_eq!(emu.bus.ppu.dots, 3 * emu.cpu.total_cycles);
}

#[test]
fn emulator_reset_restores_registers() {
    let mut emu = Emulator::new();
    emu.cpu.a = 3;
    emu.cpu.sp = 7;
    emu.reset();
    assert_eq!(emu.cpu.a, 0);
    assert_eq!(emu.cpu.p, 0x34);
    assert_eq!(emu.cpu.sp, 0xFD);
    assert_eq!(emu.cpu.total_cycles, 7, "the reset sequence costs seven cycles");
    assert!(!emu.bus.init_dma);
}

#[test]
fn oam_dma_with_odd_entry_parity_stalls_514_cycles() {
    let mut emu = Emulator::new();
    // LDA #$02; LDA $00; STA $4014: 2 + 3 + 4 cycles leaves the
    // counter odd at the $4014 write.
    emu.bus.write_byte(0x0000, 0xA9);
    emu.bus.write_byte(0x0001, 0x02);
    emu.bus.write_byte(0x0002, 0xA5);
    emu.bus.write_byte(0x0003, 0x00);
    emu.bus.write_byte(0x0004, 0x8D);
    emu.bus.write_byte(0x0005, 0x14);
    emu.bus.write_byte(0x0006, 0x40);
    emu.cpu.pc = 0x0000;
    emu.tick().unwrap();
    emu.tick().unwrap();
    emu.tick().unwrap();
    assert!(emu.dma.active);
    assert_eq!(emu.cpu.total_cycles % 2, 1, "entry parity is odd");
    let before = emu.cpu.total_cycles;
    let mut guard = 0u32;
    while emu.dma.active {
        emu.tick().unwrap();
        guard += 1;
        assert!(guard < 1000);
    }
    assert_eq!(emu.cpu.total_cycles - before, 514);
}

#[test]
fn mmc1_chr_4k_banking_selects_separate_halves() {
    let prg = vec![0u8; 2 * 0x4000];
    let mut chr = vec![0u8; 2 * 0x2000];
    chr[0x0000] = 0x10; // 4 KiB bank 0
    chr[0x1000] = 0x21; // 4 KiB bank 1
    chr[0x2000] = 0x32; // 4 KiB bank 2
    chr[0x3000] = 0x43; // 4 KiB bank 3
    let mut m = Mapper1::new(Mirroring::Horizontial, 2, 2, prg, chr);
    // Control 0b10011: 4 KiB CHR mode, PRG mode unchanged enough.
    for bit in [1u8, 1, 0, 0, 1] {
        m.cpu_write_byte(0x8000, bit);
    }
    // CHR bank 0 selects 4 KiB bank 1 for $0000.
    for bit in [1u8, 0, 0, 0, 0] {
        m.cpu_write_byte(0xA000, bit);
    }
    // CHR bank 1 selects 4 KiB bank 3 for $1000.
    for bit in [1u8, 1, 0, 0, 0] {
        m.cpu_write_byte(0xC000, bit);
    }
    assert_eq!(m.ppu_read_byte(0x0000), 0x21);
    assert_eq!(m.ppu_read_byte(0x1000), 0x43);
}

#[test]
fn mmc1_commits_single_screen_mirroring() {
    let prg = vec![0u8; 2 * 0x4000];
    let chr = vec![0u8; 0x2000];
    let mut m = Mapper1::new(Mirroring::Horizontial, 2, 0, prg, chr);
    for bit in [0u8, 0, 0, 0, 0] {
        m.cpu_write_byte(0x8000, bit);
    }
    assert!(matches!(m.mirroring(), Mirroring::SingleScreenLower));
    for bit in [1u8, 0, 0, 0, 0] {
        m.cpu_write_byte(0x8000, bit);
    }
    assert!(matches!(m.mirroring(), Mirroring::SingleScreenUpper));
}

#[test]
fn single_screen_mirroring_aliases_all_nametables() {
    let prg = vec![0u8; 2 * 0x4000];
    let chr = vec![0u8; 0x2000];
    let mut m = Mapper1::new(Mirroring::Horizontial, 2, 0, prg, chr);
    for bit in [0u8, 0, 0, 0, 0] {
        m.cpu_write_byte(0x8000, bit);
    }
    let mut cart = Cartridge { mapper: MapperKind::Mmc1(m), expansion_area: vec![0u8; 0x1FE0] };
    let mut ppu = PPU::new();
    ppu.write_byte(&mut cart, 0x2005, 0x66);
    assert_eq!(ppu.read_byte(&cart, 0x2405), 0x66);
    assert_eq!(ppu.read_byte(&cart, 0x2805), 0x66);
    assert_eq!(ppu.read_byte(&cart, 0x2C05), 0x66);
}

#[test]
fn ppubus_single_screen_folds_everything_to_one_page() {
    let mut bus = PPUBus::new(vec![0u8; 0x2000], Mirroring::SingleScreenLower);
    bus.write_byte(0x2C05, 0x44);
    assert_eq!(bus.read_byte(0x2005), 0x44);
    assert_eq!(bus.read_byte(0x2405), 0x44);
    let mut upper = PPUBus::new(vec![0u8; 0x2000], Mirroring::SingleScreenUpper);
    upper.write_byte(0x2005, 0x55);
    assert_eq!(upper.read_byte(0x2C05), 0x55);
}
