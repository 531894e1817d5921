use nesty::cartridge::Cartridge;
use nesty::ppu::{system_palette, PPU};

fn make_nrom_chr_ram() -> Vec<u8> {
    let mut rom = vec![0x4E, 0x45, 0x53, 0x1A, 1, 0, 0, 0];
    rom.resize(16, 0);
    rom.extend_from_slice(&vec![0u8; 0x4000]);
    rom
}

fn fresh() -> (PPU, Cartridge) {
    (PPU::new(), Cartridge::new(&make_nrom_chr_ram()).unwrap())
}

#[test]
fn palette_aliases_fold_on_both_paths() {
    let (mut ppu, mut cart) = fresh();
    for (k, i) in [0x10u16, 0x14, 0x18, 0x1C].into_iter().enumerate() {
        let value = 0x21 + k as u8;
        // Write through the alias at $3F00 + i.
        ppu.write_register(&mut cart, 6, 0x3F);
        ppu.write_register(&mut cart, 6, i as u8);
        ppu.write_register(&mut cart, 7, value);
        // Read back through the base address $3F00 + i - 0x10.
        ppu.write_register(&mut cart, 6, 0x3F);
        ppu.write_register(&mut cart, 6, (i - 0x10) as u8);
        let got = ppu.read_register(&cart, 7);
        assert_eq!(got, value, "palette read at base must see the aliased write");
        // And the other way around.
        ppu.write_register(&mut cart, 6, 0x3F);
        ppu.write_register(&mut cart, 6, (i - 0x10) as u8);
        ppu.write_register(&mut cart, 7, value ^ 0x3F);
        ppu.write_register(&mut cart, 6, 0x3F);
        ppu.write_register(&mut cart, 6, i as u8);
        assert_eq!(ppu.read_register(&cart, 7), value ^ 0x3F);
    }
}

#[test]
fn ppudata_nametable_reads_are_buffered() {
    let (mut ppu, mut cart) = fresh();
    ppu.write_register(&mut cart, 6, 0x20);
    ppu.write_register(&mut cart, 6, 0x00);
    ppu.write_register(&mut cart, 7, 0x5A);
    ppu.write_register(&mut cart, 6, 0x20);
    ppu.write_register(&mut cart, 6, 0x00);
    let first = ppu.read_register(&cart, 7);
    let second = ppu.read_register(&cart, 7);
    assert_eq!(first, 0x00, "first read returns the stale buffer");
    assert_eq!(second, 0x5A, "second read returns the nametable byte");
}

#[test]
fn ppuaddr_two_writes_compose_v() {
    let (mut ppu, mut cart) = fresh();
    ppu.write_register(&mut cart, 6, 0x3F);
    ppu.write_register(&mut cart, 6, 0x21);
    assert_eq!(ppu.vram_address, 0x3F21);
    assert!(!ppu.addr_latch);
    // High bits beyond six are discarded.
    ppu.write_register(&mut cart, 6, 0xFF);
    ppu.write_register(&mut cart, 6, 0x10);
    assert_eq!(ppu.vram_address, 0x3F10);
}

#[test]
fn scroll_writes_then_addr_writes_overwrite_v() {
    let (mut ppu, mut cart) = fresh();
    let x = 0x7Du8;
    let y = 0x5Eu8;
    ppu.write_register(&mut cart, 5, x);
    assert_eq!(ppu.fine_x, x % 8);
    assert_eq!(ppu.temp_vram_address & 0x1F, (x / 8) as u16, "coarse X from first write");
    ppu.write_register(&mut cart, 5, y);
    assert_eq!((ppu.temp_vram_address >> 5) & 0x1F, (y / 8) as u16, "coarse Y");
    assert_eq!((ppu.temp_vram_address >> 12) & 0x7, (y % 8) as u16, "fine Y");
    ppu.write_register(&mut cart, 6, 0x00);
    ppu.write_register(&mut cart, 6, 0x00);
    assert_eq!(ppu.vram_address, 0x0000, "the address pair overwrites the scroll state");
    assert!(!ppu.addr_latch);
    assert_eq!(ppu.fine_x, x % 8, "fine X survives the address writes");
}

#[test]
fn status_read_clears_vblank_and_latch() {
    let (mut ppu, mut cart) = fresh();
    ppu.status = 0xE0;
    ppu.prev_data = 0x15;
    ppu.write_register(&mut cart, 5, 0x10);
    assert!(ppu.addr_latch);
    let got = ppu.read_register(&cart, 2);
    assert_eq!(got, 0xE0 | 0x15);
    assert_eq!(ppu.status, 0x60, "vblank cleared, others kept");
    assert!(!ppu.addr_latch, "byte latch reset");
}

#[test]
fn oam_writes_advance_the_cursor() {
    let (mut ppu, mut cart) = fresh();
    ppu.write_register(&mut cart, 3, 0xFF);
    ppu.write_register(&mut cart, 4, 0x11);
    ppu.write_register(&mut cart, 4, 0x22);
    assert_eq!(ppu.oam[0xFF], 0x11);
    assert_eq!(ppu.oam[0x00], 0x22, "cursor wraps past 255");
    assert_eq!(ppu.oam_addr, 1);
    ppu.write_register(&mut cart, 3, 0xFF);
    assert_eq!(ppu.read_register(&cart, 4), 0x11, "OAMDATA reads at the cursor");
}

#[test]
fn frame_timing_returns_after_one_frame() {
    let (mut ppu, cart) = fresh();
    assert_eq!((ppu.scanline, ppu.cycle), (0, 0));
    for _ in 0..89342 {
        ppu.tick(&cart);
    }
    assert_eq!((ppu.scanline, ppu.cycle), (0, 0));
    assert!(ppu.odd_frame, "parity flips once per frame");
    assert_eq!(ppu.dots, 89342);
    for _ in 0..89342 {
        ppu.tick(&cart);
    }
    assert_eq!((ppu.scanline, ppu.cycle), (0, 0));
    assert!(!ppu.odd_frame);
}

#[test]
fn vblank_raises_at_scanline_241_dot_1() {
    let (mut ppu, mut cart) = fresh();
    ppu.write_register(&mut cart, 0, 0x80);
    while !(ppu.scanline == 241 && ppu.cycle == 2) {
        ppu.tick(&cart);
    }
    assert!(ppu.status & 0x80 != 0, "vblank flag set");
    assert!(ppu.nmi, "NMI latched because PPUCTRL bit 7 is on");
}

#[test]
fn sprite_zero_hit_latches_and_clears_at_prerender() {
    let (mut ppu, mut cart) = fresh();
    // Tile 1: an opaque low bit plane for all eight rows (CHR-RAM).
    for row in 0..8u16 {
        ppu.write_byte(&mut cart, 0x0010 + row, 0xFF);
    }
    // Background tile (column 1, row 3) uses tile 1; pixel row 30
    // falls inside it.
    ppu.write_byte(&mut cart, 0x2000 + 3 * 32 + 1, 1);
    // Sprite 0 at x=8 with its top row on scanline 30, same tile.
    ppu.oam[0] = 29;
    ppu.oam[1] = 1;
    ppu.oam[2] = 0;
    ppu.oam[3] = 8;
    ppu.mask = 0x18;
    let mut guard = 0u32;
    while !(ppu.scanline == 30 && ppu.cycle == 300) {
        ppu.tick(&cart);
        guard += 1;
        assert!(guard < 200_000);
    }
    assert!(ppu.status & 0x40 != 0, "sprite-0 hit set while the frame renders");
    while !(ppu.scanline == -1 && ppu.cycle == 2) {
        ppu.tick(&cart);
        guard += 1;
        assert!(guard < 400_000);
    }
    assert!(ppu.status & 0x40 == 0, "cleared at pre-render dot 1");
}

#[test]
fn background_transparency_tracks_color_zero() {
    let (mut ppu, mut cart) = fresh();
    for row in 0..8u16 {
        ppu.write_byte(&mut cart, 0x0010 + row, 0xF0);
    }
    ppu.write_byte(&mut cart, 0x2000, 1);
    ppu.mask = 0x08;
    ppu.scanline = 4;
    ppu.render_scanline(&cart);
    assert!(!ppu.transparent[4 * 256 + 0], "left half of the tile is opaque");
    assert!(ppu.transparent[4 * 256 + 7], "right half is color 0");
}

#[test]
fn system_palette_fixed_entries() {
    assert_eq!(system_palette(0), (0x80, 0x80, 0x80));
    assert_eq!(system_palette(1), (0x00, 0x3D, 0xA6));
    assert_eq!(system_palette(32), (0xFF, 0xFF, 0xFF));
    assert_eq!(system_palette(63), (0x11, 0x11, 0x11));
    assert_eq!(system_palette(64), system_palette(0), "indices fold on six bits");
}

#[test]
fn coarse_x_increment_wraps_into_the_next_nametable() {
    let (mut ppu, _cart) = fresh();
    ppu.mask = 0x08;
    ppu.vram_address = 31;
    ppu.inc_scrollx();
    assert_eq!(ppu.vram_address, 0x0400, "coarse X wraps and nametable X flips");
    ppu.vram_address = 5;
    ppu.inc_scrollx();
    assert_eq!(ppu.vram_address, 6);
    ppu.mask = 0;
    ppu.inc_scrollx();
    assert_eq!(ppu.vram_address, 6, "no movement while rendering is off");
}

#[test]
fn fine_y_increment_carries_into_coarse_y() {
    let (mut ppu, _cart) = fresh();
    ppu.mask = 0x08;
    ppu.vram_address = 7 << 12; // fine Y 7, coarse Y 0
    ppu.inc_scrolly();
    assert_eq!(ppu.vram_address, 32, "fine Y wraps, coarse Y steps");
    ppu.vram_address = (7 << 12) | (29 << 5);
    ppu.inc_scrolly();
    assert_eq!(ppu.vram_address, 0x0800, "row 29 wraps and flips nametable Y");
    ppu.vram_address = (7 << 12) | (31 << 5);
    ppu.inc_scrolly();
    assert_eq!(ppu.vram_address, 0, "row 31 wraps without the flip");
}

#[test]
fn ppudata_increments_by_32_when_ctrl_bit2_is_set() {
    let (mut ppu, mut cart) = fresh();
    ppu.write_register(&mut cart, 0, 0x04);
    ppu.write_register(&mut cart, 6, 0x20);
    ppu.write_register(&mut cart, 6, 0x00);
    ppu.write_register(&mut cart, 7, 0x11);
    assert_eq!(ppu.vram_address, 0x2020, "column writes step one row down");
    ppu.write_register(&mut cart, 7, 0x22);
    ppu.write_register(&mut cart, 6, 0x20);
    ppu.write_register(&mut cart, 6, 0x00);
    ppu.read_register(&cart, 7);
    assert_eq!(ppu.read_register(&cart, 7), 0x11);
}

#[test]
fn ppudata_masks_v_onto_the_14_bit_bus() {
    let (mut ppu, mut cart) = fresh();
    ppu.write_register(&mut cart, 6, 0x3F);
    ppu.write_register(&mut cart, 6, 0x05);
    ppu.write_register(&mut cart, 7, 0x2B);
    // Bits above the 14-bit PPU bus fall away: $7F05 lands on $3F05.
    ppu.vram_address = 0x7F05;
    assert_eq!(ppu.read_register(&cart, 7), 0x2B, "palette read through the masked address");
}

#[test]
fn palette_read_refills_the_buffer_with_the_mirrored_nametable_byte() {
    let (mut ppu, mut cart) = fresh();
    // Put a byte at $2F05, the nametable cell the palette region
    // mirrors (0x1000 below $3F05).
    ppu.write_register(&mut cart, 6, 0x2F);
    ppu.write_register(&mut cart, 6, 0x05);
    ppu.write_register(&mut cart, 7, 0x77);
    // Put a different byte in the palette at $3F05.
    ppu.write_register(&mut cart, 6, 0x3F);
    ppu.write_register(&mut cart, 6, 0x05);
    ppu.write_register(&mut cart, 7, 0x2A);
    // A palette read returns the palette byte at once, but the read
    // buffer receives the nametable byte underneath.
    ppu.write_register(&mut cart, 6, 0x3F);
    ppu.write_register(&mut cart, 6, 0x05);
    assert_eq!(ppu.read_register(&cart, 7), 0x2A);
    assert_eq!(ppu.prev_data, 0x77, "buffer holds the mirrored nametable byte");
}
