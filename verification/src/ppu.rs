//! The 2C02 picture processing unit.
//!
//! A 262-scanline by 341-dot state machine. It owns four logical
//! nametables, 32 bytes of palette RAM and 256 bytes of OAM, exposes
//! eight memory-mapped registers with their byte-latch write protocol,
//! and composes a 256x240 RGB frame from background tiles and sprites.
//! Pattern data comes from the cartridge, handed in at each call.
//!
//! The scroll registers `v` and `t` are 15-bit packed fields,
//! `yyy NN YYYYY XXXXX`: coarse X in bits 0-4, coarse Y in bits 5-9,
//! nametable X and Y in bits 10-11, fine Y in bits 12-14. They are
//! kept here as plain `u16` values below `0x8000`, read and written
//! through named accessors.

use vstd::prelude::*;

use crate::bitops::bit8;
use crate::cartridge::Cartridge;
use crate::mapper::{MapperKind, Mirroring};

verus! {

pub const NAMETABLE_SIZE: usize = 0x400;

pub const PALETTE_RAM_SIZE: usize = 0x20;

pub const OAM_SIZE: usize = 0x100;

pub const WIDTH: usize = 256;

pub const HEIGHT: usize = 240;

/// Coarse X: bits 0-4 of a scroll register.
pub open spec fn coarse_x(v: u16) -> u16 {
    v % 32
}

/// Coarse Y: bits 5-9 of a scroll register.
pub open spec fn coarse_y(v: u16) -> u16 {
    (v / 32) % 32
}

/// Nametable X select: bit 10 of a scroll register.
pub open spec fn nt_x(v: u16) -> u16 {
    (v / 1024) % 2
}

/// Nametable Y select: bit 11 of a scroll register.
pub open spec fn nt_y(v: u16) -> u16 {
    (v / 2048) % 2
}

/// Fine Y: bits 12-14 of a scroll register.
pub open spec fn fine_y(v: u16) -> u16 {
    (v / 4096) % 8
}

/// Coarse X incremented with wraparound: at 31 it returns to 0 and
/// the nametable X bit flips.
pub open spec fn inc_x_spec(v: u16) -> u16 {
    if v % 32 == 31 {
        if nt_x(v) == 1 {
            (v - 31 - 1024) as u16
        } else {
            (v - 31 + 1024) as u16
        }
    } else {
        (v + 1) as u16
    }
}

/// Fine Y incremented with carry into coarse Y: fine Y 7 returns to 0
/// and coarse Y steps; coarse Y 29 wraps to 0 flipping nametable Y,
/// coarse Y 31 wraps to 0 without the flip.
pub open spec fn inc_y_spec(v: u16) -> u16 {
    if fine_y(v) == 7 {
        let v0 = (v - 7 * 4096) as u16;
        if coarse_y(v0) == 29 {
            let v1 = (v0 - 29 * 32) as u16;
            if nt_y(v1) == 1 {
                (v1 - 2048) as u16
            } else {
                (v1 + 2048) as u16
            }
        } else if coarse_y(v0) == 31 {
            (v0 - 31 * 32) as u16
        } else {
            (v0 + 32) as u16
        }
    } else {
        (v + 4096) as u16
    }
}

/// Which logical nametable (0-3) a PPU address selects.
pub open spec fn nt_index(addr: u16) -> int {
    ((addr - 0x2000) % 0x1000) / 0x400
}

/// The offset within that nametable.
pub open spec fn nt_offset(addr: u16) -> int {
    (addr - 0x2000) % 0x400
}

/// The palette RAM cell an address selects, after the 32-byte mirror
/// and the fold of `$3F10/$3F14/$3F18/$3F1C` onto `$3F00/$3F04/$3F08/
/// $3F0C`.
pub open spec fn pal_index(addr: u16) -> int {
    let i = (addr - 0x3F00) % 0x20;
    if i % 4 == 0 {
        i % 0x10
    } else {
        i
    }
}

/// One dot of frame timing: the cycle advances to 340, then wraps
/// while the scanline advances from -1 (pre-render) to 260, then both
/// wrap.
pub open spec fn dot_succ(scanline: int, cycle: int) -> (int, int) {
    if cycle == 340 {
        if scanline == 260 {
            (-1int, 0int)
        } else {
            (scanline + 1, 0int)
        }
    } else {
        (scanline, cycle + 1)
    }
}

pub struct PPU {
    /// The four logical nametables, `$2000/$2400/$2800/$2C00`.
    pub nt0: Vec<u8>,
    pub nt1: Vec<u8>,
    pub nt2: Vec<u8>,
    pub nt3: Vec<u8>,
    pub palette_ram: Vec<u8>,
    /// `$2000` PPUCTRL.
    pub control: u8,
    /// `$2001` PPUMASK.
    pub mask: u8,
    /// `$2002` PPUSTATUS: sprite overflow bit 5, sprite-0 hit bit 6,
    /// vblank bit 7.
    pub status: u8,
    /// `$2003` OAMADDR, the OAM write cursor.
    pub oam_addr: u8,
    /// The PPUDATA read buffer and open-bus byte.
    pub prev_data: u8,
    pub oam: Vec<u8>,
    /// `v`, the current 15-bit scroll/VRAM address.
    pub vram_address: u16,
    /// `t`, the temporary scroll address the latched writes build.
    pub temp_vram_address: u16,
    /// The 3-bit fine X scroll.
    pub fine_x: u8,
    /// The shared byte latch of `$2005`/`$2006`: false before the
    /// first write of a pair.
    pub addr_latch: bool,
    /// -1 (pre-render) to 260.
    pub scanline: i32,
    /// 0 to 340.
    pub cycle: u32,
    pub odd_frame: bool,
    /// Per-pixel record of whether the background was color index 0.
    pub transparent: Vec<bool>,
    /// The 256x240 frame, three bytes per pixel.
    pub pixels: Vec<u8>,
    /// Set at vblank start when PPUCTRL bit 7 allows; the emulator
    /// reads and clears it.
    pub nmi: bool,
    /// Dots ticked since power-on; the emulator's clock ratio law
    /// counts these.
    pub dots: u64,
}

impl PPU {
    /// Well-formed: buffer lengths, 15-bit scroll registers, 3-bit
    /// fine X, and the dot position inside the frame.
    pub open spec fn wf(self) -> bool {
        &&& self.nt0.len() == NAMETABLE_SIZE
        &&& self.nt1.len() == NAMETABLE_SIZE
        &&& self.nt2.len() == NAMETABLE_SIZE
        &&& self.nt3.len() == NAMETABLE_SIZE
        &&& self.palette_ram.len() == PALETTE_RAM_SIZE
        &&& self.oam.len() == OAM_SIZE
        &&& self.vram_address < 0x8000
        &&& self.temp_vram_address < 0x8000
        &&& self.fine_x < 8
        &&& -1 <= self.scanline <= 260
        &&& self.cycle <= 340
        &&& self.transparent.len() == WIDTH * HEIGHT
        &&& self.pixels.len() == WIDTH * HEIGHT * 3
    }

    /// True when PPUMASK enables the background or the sprites.
    pub open spec fn rendering_on_spec(self) -> bool {
        bit8(self.mask, 3) || bit8(self.mask, 4)
    }

    /// The selected logical nametable's bytes.
    pub open spec fn nt_seq(self, i: int) -> Seq<u8> {
        if i == 0 {
            self.nt0@
        } else if i == 1 {
            self.nt1@
        } else if i == 2 {
            self.nt2@
        } else {
            self.nt3@
        }
    }

    /// The byte a PPU-space read returns: pattern tables through the
    /// cartridge below `$2000`, nametables to `$3EFF` with their
    /// 4 KiB mirror, palette RAM above `$3F00` with its folds.
    pub open spec fn mem_read_spec(self, cart: Cartridge, addr: u16) -> u8 {
        if addr < 0x2000 {
            cart.read_spec(addr)
        } else if addr < 0x3F00 {
            self.nt_seq(nt_index(addr))[nt_offset(addr)]
        } else {
            self.palette_ram@[pal_index(addr)]
        }
    }

    /// The nametable pages a write lands on, by mirroring: vertical
    /// pairs 0 with 2 and 1 with 3; horizontal pairs 0 with 1 and 2
    /// with 3; the single-screen modes alias all four pages to one
    /// physical page, so a write lands everywhere.
    pub open spec fn nt_write_spec(pre: PPU, post: PPU, m: Mirroring, addr: u16, data: u8) -> bool {
        let a = (addr - 0x2000) % 0x1000;
        let off = nt_offset(addr);
        match m {
            Mirroring::Vertical => {
                if a < 0x400 || (0x800 <= a && a < 0xC00) {
                    &&& post.nt0@ == pre.nt0@.update(off, data)
                    &&& post.nt2@ == pre.nt2@.update(off, data)
                    &&& post.nt1 == pre.nt1
                    &&& post.nt3 == pre.nt3
                } else {
                    &&& post.nt1@ == pre.nt1@.update(off, data)
                    &&& post.nt3@ == pre.nt3@.update(off, data)
                    &&& post.nt0 == pre.nt0
                    &&& post.nt2 == pre.nt2
                }
            },
            Mirroring::Horizontial => {
                if a < 0x800 {
                    &&& post.nt0@ == pre.nt0@.update(off, data)
                    &&& post.nt1@ == pre.nt1@.update(off, data)
                    &&& post.nt2 == pre.nt2
                    &&& post.nt3 == pre.nt3
                } else {
                    &&& post.nt2@ == pre.nt2@.update(off, data)
                    &&& post.nt3@ == pre.nt3@.update(off, data)
                    &&& post.nt0 == pre.nt0
                    &&& post.nt1 == pre.nt1
                }
            },
            Mirroring::SingleScreenLower => {
                &&& post.nt0@ == pre.nt0@.update(off, data)
                &&& post.nt1@ == pre.nt1@.update(off, data)
                &&& post.nt2@ == pre.nt2@.update(off, data)
                &&& post.nt3@ == pre.nt3@.update(off, data)
            },
            Mirroring::SingleScreenUpper => {
                &&& post.nt0@ == pre.nt0@.update(off, data)
                &&& post.nt1@ == pre.nt1@.update(off, data)
                &&& post.nt2@ == pre.nt2@.update(off, data)
                &&& post.nt3@ == pre.nt3@.update(off, data)
            },
        }
    }

    /// All register-file state equal (everything but the tables and
    /// the video buffers).
    pub open spec fn same_regs(a: PPU, b: PPU) -> bool {
        &&& a.control == b.control
        &&& a.mask == b.mask
        &&& a.status == b.status
        &&& a.oam_addr == b.oam_addr
        &&& a.prev_data == b.prev_data
        &&& a.vram_address == b.vram_address
        &&& a.temp_vram_address == b.temp_vram_address
        &&& a.fine_x == b.fine_x
        &&& a.addr_latch == b.addr_latch
        &&& a.scanline == b.scanline
        &&& a.cycle == b.cycle
        &&& a.odd_frame == b.odd_frame
        &&& a.nmi == b.nmi
        &&& a.dots == b.dots
    }

    /// All memory tables equal.
    pub open spec fn same_tables(a: PPU, b: PPU) -> bool {
        &&& a.nt0 == b.nt0
        &&& a.nt1 == b.nt1
        &&& a.nt2 == b.nt2
        &&& a.nt3 == b.nt3
        &&& a.palette_ram == b.palette_ram
        &&& a.oam == b.oam
    }

    /// Both video buffers equal.
    pub open spec fn same_video(a: PPU, b: PPU) -> bool {
        &&& a.transparent == b.transparent
        &&& a.pixels == b.pixels
    }

    /// A powered-on PPU: every table and register zero, even frame,
    /// dot (0, 0).
    pub fn new() -> (r: PPU)
        ensures
            r.wf(),
            r.control == 0 && r.mask == 0 && r.status == 0,
            r.oam_addr == 0 && r.prev_data == 0,
            r.vram_address == 0 && r.temp_vram_address == 0,
            r.fine_x == 0 && !r.addr_latch,
            r.scanline == 0 && r.cycle == 0 && !r.odd_frame,
            !r.nmi,
            r.dots == 0,
            r.nt0@ == Seq::<u8>::new(NAMETABLE_SIZE as nat, |i: int| 0u8),
            r.nt1@ == Seq::<u8>::new(NAMETABLE_SIZE as nat, |i: int| 0u8),
            r.nt2@ == Seq::<u8>::new(NAMETABLE_SIZE as nat, |i: int| 0u8),
            r.nt3@ == Seq::<u8>::new(NAMETABLE_SIZE as nat, |i: int| 0u8),
            r.palette_ram@ == Seq::<u8>::new(PALETTE_RAM_SIZE as nat, |i: int| 0u8),
            r.oam@ == Seq::<u8>::new(OAM_SIZE as nat, |i: int| 0u8),
    {
        let mut transparent: Vec<bool> = Vec::new();
        let mut i: usize = 0;
        while i < WIDTH * HEIGHT
            invariant
                i <= WIDTH * HEIGHT,
                transparent.len() == i,
            decreases WIDTH * HEIGHT - i,
        {
            transparent.push(false);
            i = i + 1;
        }
        PPU {
            nt0: crate::mapper::zero_bytes(NAMETABLE_SIZE),
            nt1: crate::mapper::zero_bytes(NAMETABLE_SIZE),
            nt2: crate::mapper::zero_bytes(NAMETABLE_SIZE),
            nt3: crate::mapper::zero_bytes(NAMETABLE_SIZE),
            palette_ram: crate::mapper::zero_bytes(PALETTE_RAM_SIZE),
            control: 0,
            mask: 0,
            status: 0,
            oam_addr: 0,
            prev_data: 0,
            oam: crate::mapper::zero_bytes(OAM_SIZE),
            vram_address: 0,
            temp_vram_address: 0,
            fine_x: 0,
            addr_latch: false,
            scanline: 0,
            cycle: 0,
            odd_frame: false,
            transparent,
            pixels: crate::mapper::zero_bytes(WIDTH * HEIGHT * 3),
            nmi: false,
            dots: 0,
        }
    }

    /// Restores the architectural registers; tables, OAM and the
    /// frame buffer keep their contents, as does the dot counter.
    pub fn reset(&mut self)
        requires
            old(self).wf(),
        ensures
            final(self).wf(),
            final(self).control == 0 && final(self).mask == 0 && final(self).status == 0,
            final(self).oam_addr == 0 && final(self).prev_data == 0,
            final(self).vram_address == 0 && final(self).temp_vram_address == 0,
            final(self).fine_x == 0 && !final(self).addr_latch,
            final(self).scanline == 0 && final(self).cycle == 0 && !final(self).odd_frame,
            !final(self).nmi,
            final(self).dots == old(self).dots,
            PPU::same_tables(*final(self), *old(self)),
            PPU::same_video(*final(self), *old(self)),
    {
        self.control = 0;
        self.mask = 0;
        self.status = 0;
        self.oam_addr = 0;
        self.prev_data = 0;
        self.vram_address = 0;
        self.temp_vram_address = 0;
        self.fine_x = 0;
        self.addr_latch = false;
        self.scanline = 0;
        self.cycle = 0;
        self.odd_frame = false;
        self.nmi = false;
    }

    /// True when PPUMASK enables the background or the sprites.
    pub fn rendering_on(&self) -> (r: bool)
        ensures
            r == self.rendering_on_spec(),
    {
        crate::bitops::test_bit(self.mask, 3) || crate::bitops::test_bit(self.mask, 4)
    }

    /// Reads PPU address space; `addr` must sit on the 14-bit bus.
    pub fn read_byte(&self, cart: &Cartridge, addr: u16) -> (r: u8)
        requires
            self.wf(),
            cart.wf(),
            addr < 0x4000,
        ensures
            r == self.mem_read_spec(*cart, addr),
    {
        if addr < 0x2000 {
            cart.read_byte(addr)
        } else if addr < 0x3F00 {
            let idx = (((addr - 0x2000) as usize) % 0x1000) / 0x400;
            let off = ((addr - 0x2000) as usize) % 0x400;
            if idx == 0 {
                self.nt0[off]
            } else if idx == 1 {
                self.nt1[off]
            } else if idx == 2 {
                self.nt2[off]
            } else {
                self.nt3[off]
            }
        } else {
            let i = ((addr - 0x3F00) as usize) % 0x20;
            if i % 4 == 0 {
                self.palette_ram[i % 0x10]
            } else {
                self.palette_ram[i]
            }
        }
    }

    /// Writes PPU address space: pattern tables go to the cartridge,
    /// nametable writes land on the mirrored pair the cartridge's
    /// mirroring selects, palette writes fold like palette reads.
    pub fn write_byte(&mut self, cart: &mut Cartridge, addr: u16, data: u8)
        requires
            old(self).wf(),
            old(cart).wf(),
            addr < 0x4000,
        ensures
            final(self).wf(),
            final(cart).wf(),
            PPU::same_regs(*final(self), *old(self)),
            PPU::same_video(*final(self), *old(self)),
            final(self).oam == old(self).oam,
            addr < 0x2000 ==> {
                &&& PPU::same_tables(*final(self), *old(self))
                &&& final(cart).expansion_area == old(cart).expansion_area
                &&& match (old(cart).mapper, final(cart).mapper) {
                    (MapperKind::Nrom(m0), MapperKind::Nrom(m1)) => {
                        &&& (m0.chr_writable ==> m1.chr_rom@ == m0.chr_rom@.update(
                            addr as int,
                            data,
                        ))
                        &&& (!m0.chr_writable ==> m1 == m0)
                        &&& m1.sram == m0.sram
                        &&& m1.prg_rom == m0.prg_rom
                        &&& m1.mirroring_type == m0.mirroring_type
                        &&& m1.chr_writable == m0.chr_writable
                    },
                    (MapperKind::Mmc1(m0), MapperKind::Mmc1(m1)) => {
                        &&& (m0.chr_rom_banks == 0 ==> m1.chr_rom@ == m0.chr_rom@.update(
                            addr as int,
                            data,
                        ))
                        &&& (m0.chr_rom_banks != 0 ==> m1.chr_rom == m0.chr_rom)
                        &&& m1.regs() == m0.regs()
                        &&& m1.sram == m0.sram
                        &&& m1.prg_rom == m0.prg_rom
                        &&& m1.chr_rom_banks == m0.chr_rom_banks
                    },
                    _ => false,
                }
            },
            0x2000 <= addr && addr < 0x3F00 ==> {
                &&& *final(cart) == *old(cart)
                &&& PPU::nt_write_spec(
                    *old(self),
                    *final(self),
                    match old(cart).mapper {
                        MapperKind::Nrom(m) => m.mirroring_type,
                        MapperKind::Mmc1(m) => m.mirroring_type,
                    },
                    addr,
                    data,
                )
                &&& final(self).palette_ram == old(self).palette_ram
            },
            0x3F00 <= addr ==> {
                &&& *final(cart) == *old(cart)
                &&& final(self).palette_ram@ == old(self).palette_ram@.update(
                    pal_index(addr),
                    data,
                )
                &&& final(self).nt0 == old(self).nt0
                &&& final(self).nt1 == old(self).nt1
                &&& final(self).nt2 == old(self).nt2
                &&& final(self).nt3 == old(self).nt3
            },
    {
        if addr < 0x2000 {
            cart.write_byte(addr, data);
        } else if addr < 0x3F00 {
            let a = ((addr - 0x2000) as usize) % 0x1000;
            let off = ((addr - 0x2000) as usize) % 0x400;
            match cart.mirroring() {
                Mirroring::Vertical => {
                    if a < 0x400 || (0x800 <= a && a < 0xC00) {
                        self.nt0[off] = data;
                        self.nt2[off] = data;
                    } else {
                        self.nt1[off] = data;
                        self.nt3[off] = data;
                    }
                },
                Mirroring::Horizontial => {
                    if a < 0x800 {
                        self.nt0[off] = data;
                        self.nt1[off] = data;
                    } else {
                        self.nt2[off] = data;
                        self.nt3[off] = data;
                    }
                },
                Mirroring::SingleScreenLower => {
                    self.nt0[off] = data;
                    self.nt1[off] = data;
                    self.nt2[off] = data;
                    self.nt3[off] = data;
                },
                Mirroring::SingleScreenUpper => {
                    self.nt0[off] = data;
                    self.nt1[off] = data;
                    self.nt2[off] = data;
                    self.nt3[off] = data;
                },
            }
        } else {
            let i = ((addr - 0x3F00) as usize) % 0x20;
            if i % 4 == 0 {
                let idx = i % 0x10;
                self.palette_ram[idx] = data;
            } else {
                self.palette_ram[i] = data;
            }
        }
    }

    /// Copies one byte into OAM at the cursor and advances the cursor,
    /// wrapping at 256.
    pub fn dma_write_oam(&mut self, data: u8)
        requires
            old(self).wf(),
        ensures
            final(self).wf(),
            final(self).oam@ == old(self).oam@.update(old(self).oam_addr as int, data),
            final(self).oam_addr == ((old(self).oam_addr + 1) % 0x100) as u8,
            final(self).nt0 == old(self).nt0 && final(self).nt1 == old(self).nt1 && final(self).nt2 == old(self).nt2 && final(self).nt3 == old(self).nt3,
            final(self).palette_ram == old(self).palette_ram,
            PPU::same_video(*final(self), *old(self)),
            final(self).control == old(self).control && final(self).mask == old(self).mask
                && final(self).status == old(self).status && final(self).prev_data == old(self).prev_data,
            final(self).vram_address == old(self).vram_address && final(self).temp_vram_address
                == old(self).temp_vram_address && final(self).fine_x == old(self).fine_x && final(self).addr_latch == old(self).addr_latch,
            final(self).scanline == old(self).scanline && final(self).cycle == old(self).cycle
                && final(self).odd_frame == old(self).odd_frame && final(self).nmi == old(self).nmi
                && final(self).dots == old(self).dots,
    {
        let idx = self.oam_addr as usize;
        self.oam[idx] = data;
        self.oam_addr = self.oam_addr.wrapping_add(1);
    }

    /// The byte the PPUDATA read buffer receives: the byte at the
    /// address, except that a palette-range read loads the nametable
    /// byte the palette region mirrors, `0x1000` below.
    pub open spec fn buffer_refill(p: PPU, c: Cartridge, a: u16) -> u8 {
        if a >= 0x3F00 {
            p.mem_read_spec(c, (a - 0x1000) as u16)
        } else {
            p.mem_read_spec(c, a)
        }
    }

    /// The byte `read_register` returns, as a function of the state.
    pub open spec fn reg_read_result(p: PPU, c: Cartridge, reg: int) -> u8 {
        if reg == 2 {
            (p.prev_data & 0x1F) | (p.status & 0xE0)
        } else if reg == 4 {
            p.oam@[p.oam_addr as int]
        } else if reg == 7 {
            let a = (p.vram_address % 0x4000) as u16;
            if a >= 0x3F00 {
                p.mem_read_spec(c, a)
            } else {
                p.prev_data
            }
        } else {
            0
        }
    }

    /// The PPU after `read_register`, as a function of the state:
    /// `$2002` clears vblank and the write latch, `$2007` refills the
    /// read buffer and steps `v`; no register read touches a table.
    pub open spec fn reg_read_post(p: PPU, c: Cartridge, reg: int) -> PPU {
        if reg == 2 {
            PPU {
                prev_data: PPU::reg_read_result(p, c, 2),
                status: (p.status & 0x7F) as u8,
                addr_latch: false,
                ..p
            }
        } else if reg == 7 {
            let a = (p.vram_address % 0x4000) as u16;
            PPU {
                prev_data: PPU::buffer_refill(p, c, a),
                vram_address: ((p.vram_address + (if bit8(p.control, 2) {
                    32int
                } else {
                    1int
                })) % 0x8000) as u16,
                ..p
            }
        } else {
            p
        }
    }

    /// The full effect of `read_register`: how the returned byte and
    /// the PPU after the call relate to the PPU before it.
    pub open spec fn read_reg_rel(pre: PPU, post: PPU, cart: Cartridge, register: int, r: u8) -> bool {
        &&& (PPU::same_video(post, pre))
        &&& (PPU::same_tables(post, pre))
        &&& (post.control == pre.control && post.mask == pre.mask)
        &&& (post.oam_addr == pre.oam_addr)
        &&& (post.temp_vram_address == pre.temp_vram_address)
        &&& (post.fine_x == pre.fine_x)
        &&& (post.scanline == pre.scanline && post.cycle == pre.cycle
                && post.odd_frame == pre.odd_frame && post.nmi == pre.nmi
                && post.dots == pre.dots)
        &&& (register == 2 ==> {
                &&& r == (pre.prev_data & 0x1F) | (pre.status & 0xE0)
                &&& post.prev_data == r
                &&& post.status == pre.status & 0x7F
                &&& !post.addr_latch
                &&& post.vram_address == pre.vram_address
            })
        &&& (register == 4 ==> {
                &&& r == pre.oam@[pre.oam_addr as int]
                &&& post == pre
            })
        &&& (register == 7 ==> {
                &&& ({
                    let a = pre.vram_address % 0x4000;
                    &&& r == (if a >= 0x3F00 {
                        pre.mem_read_spec(cart, a)
                    } else {
                        pre.prev_data
                    })
                    &&& post.prev_data == PPU::buffer_refill(pre, cart, (a as u16))
                })
                &&& post.vram_address == (pre.vram_address + (if bit8(
                    pre.control,
                    2,
                ) {
                    32int
                } else {
                    1int
                })) % 0x8000
                &&& post.status == pre.status
                &&& post.addr_latch == pre.addr_latch
            })
        &&& (register != 2 && register != 4 && register != 7 ==> r == 0 && post == pre)
    }

    /// Reads one of the eight registers (already reduced modulo 8).
    /// `$2002` composes the status bits atop the open-bus byte,
    /// clears vblank and resets the write latch. `$2004` reads OAM at
    /// the cursor. `$2007` returns the buffered byte for VRAM below
    /// the palette and the palette byte directly, refills the buffer
    /// from the 14-bit address, and steps `v` by 1 or 32 as PPUCTRL
    /// bit 2 selects. Other registers read as 0.
    pub fn read_register(&mut self, cart: &Cartridge, register: usize) -> (r: u8)
        requires
            old(self).wf(),
            cart.wf(),
        ensures
            final(self).wf(),
            PPU::read_reg_rel(*old(self), *final(self), *cart, register as int, r),
            r == PPU::reg_read_result(*old(self), *cart, register as int),
            *final(self) == PPU::reg_read_post(*old(self), *cart, register as int),
    {
        if register == 2 {
            let data = (self.prev_data & 0x1F) | (self.status & 0xE0);
            self.prev_data = data;
            self.status = self.status & 0x7F;
            self.addr_latch = false;
            data
        } else if register == 4 {
            self.oam[self.oam_addr as usize]
        } else if register == 7 {
            let a = self.vram_address % 0x4000;
            let data = if a >= 0x3F00 {
                self.read_byte(cart, a)
            } else {
                self.prev_data
            };
            self.prev_data = if a >= 0x3F00 {
                self.read_byte(cart, a - 0x1000)
            } else {
                self.read_byte(cart, a)
            };
            let inc: u16 = if crate::bitops::test_bit(self.control, 2) {
                32
            } else {
                1
            };
            self.vram_address = (self.vram_address + inc) % 0x8000;
            data
        } else {
            0
        }
    }

    /// The full effect of `write_register`: how the PPU and the
    /// cartridge after the call relate to their states before it.
    pub open spec fn write_reg_rel(pre: PPU, post: PPU, cart_pre: Cartridge, cart_post: Cartridge, register: int, data: u8) -> bool {
        &&& (cart_post.wf())
        &&& (PPU::same_video(post, pre))
        &&& (post.status == pre.status)
        &&& (post.prev_data == pre.prev_data)
        &&& (post.scanline == pre.scanline && post.cycle == pre.cycle
                && post.odd_frame == pre.odd_frame && post.nmi == pre.nmi
                && post.dots == pre.dots)
        &&& (register != 7 ==> {
                &&& cart_post == cart_pre
                &&& post.nt0 == pre.nt0 && post.nt1 == pre.nt1
                &&& post.nt2 == pre.nt2 && post.nt3 == pre.nt3
                &&& post.palette_ram == pre.palette_ram
            })
        &&& (register != 4 && register != 7 ==> post.oam == pre.oam)
        &&& (register == 0 ==> {
                &&& post.control == data
                &&& post.temp_vram_address == (pre.temp_vram_address % 1024) + ((data
                    % 4) as int) * 1024 + (pre.temp_vram_address / 4096) * 4096
                &&& post.vram_address == pre.vram_address
                &&& post.addr_latch == pre.addr_latch
                &&& post.fine_x == pre.fine_x
                &&& post.mask == pre.mask
                &&& post.oam_addr == pre.oam_addr
            })
        &&& (register == 1 ==> post == (PPU { mask: data, ..pre }))
        &&& (register == 3 ==> post == (PPU { oam_addr: data, ..pre }))
        &&& (register == 4 ==> {
                &&& post.oam@ == pre.oam@.update(pre.oam_addr as int, data)
                &&& post.oam_addr == ((pre.oam_addr + 1) % 0x100) as u8
                &&& post.control == pre.control && post.mask == pre.mask
                &&& post.vram_address == pre.vram_address && post.temp_vram_address == pre.temp_vram_address
                &&& post.fine_x == pre.fine_x && post.addr_latch == pre.addr_latch
            })
        &&& (register == 5 && !pre.addr_latch ==> {
                &&& post.temp_vram_address == (pre.temp_vram_address / 32) * 32 + ((
                data / 8) as int)
                &&& post.fine_x == data % 8
                &&& post.addr_latch
                &&& post.vram_address == pre.vram_address
                &&& post.control == pre.control && post.mask == pre.mask
                &&& post.oam_addr == pre.oam_addr
            })
        &&& (register == 5 && pre.addr_latch ==> {
                &&& post.temp_vram_address == (pre.temp_vram_address % 32) + ((data
                    / 8) as int) * 32 + ((pre.temp_vram_address / 1024) % 4) * 1024 + ((data
                    % 8) as int) * 4096
                &&& post.fine_x == pre.fine_x
                &&& !post.addr_latch
                &&& post.vram_address == pre.vram_address
                &&& post.control == pre.control && post.mask == pre.mask
                &&& post.oam_addr == pre.oam_addr
            })
        &&& (register == 6 && !pre.addr_latch ==> {
                &&& post.temp_vram_address == ((data % 64) as int) * 256 + (
                pre.temp_vram_address % 256)
                &&& post.addr_latch
                &&& post.vram_address == pre.vram_address
                &&& post.fine_x == pre.fine_x
                &&& post.control == pre.control && post.mask == pre.mask
                &&& post.oam_addr == pre.oam_addr
            })
        &&& (register == 6 && pre.addr_latch ==> {
                &&& post.temp_vram_address == (pre.temp_vram_address / 256) * 256
                    + data
                &&& post.vram_address == post.temp_vram_address
                &&& !post.addr_latch
                &&& post.fine_x == pre.fine_x
                &&& post.control == pre.control && post.mask == pre.mask
                &&& post.oam_addr == pre.oam_addr
            })
        &&& (register == 7 ==> {
                &&& ({
                    let a = pre.vram_address % 0x4000;
                    &&& (a < 0x2000 ==> PPU::same_tables(post, pre))
                    &&& (0x2000 <= a && a < 0x3F00 ==> cart_post == cart_pre
                        && PPU::nt_write_spec(
                        pre,
                        post,
                        match cart_pre.mapper {
                            MapperKind::Nrom(m) => m.mirroring_type,
                            MapperKind::Mmc1(m) => m.mirroring_type,
                        },
                        a,
                        data,
                    ) && post.palette_ram == pre.palette_ram)
                    &&& (0x3F00 <= a ==> cart_post == cart_pre && post.palette_ram@
                        == pre.palette_ram@.update(pal_index(a), data) && post.nt0
                        == pre.nt0 && post.nt1 == pre.nt1 && post.nt2
                        == pre.nt2 && post.nt3 == pre.nt3)
                })
                &&& post.oam == pre.oam
                &&& post.vram_address == (pre.vram_address + (if bit8(
                    pre.control,
                    2,
                ) {
                    32int
                } else {
                    1int
                })) % 0x8000
                &&& post.temp_vram_address == pre.temp_vram_address
                &&& post.addr_latch == pre.addr_latch
                &&& post.fine_x == pre.fine_x
                &&& post.control == pre.control && post.mask == pre.mask
                &&& post.oam_addr == pre.oam_addr
            })
        &&& (register == 2 || register > 7 ==> post == pre)
    }

    /// Writes one of the eight registers (already reduced modulo 8).
    ///
    /// `$2000` loads PPUCTRL and copies its two nametable bits into
    /// `t`. `$2005` is the two-write scroll latch: the first write
    /// puts coarse X into `t` and the fine X register, the second
    /// coarse Y and fine Y into `t`. `$2006` is the two-write address
    /// latch: the first write loads the high six bits of `t` clearing
    /// bit 14, the second the low byte, and copies `t` to `v`.
    /// `$2007` writes VRAM at the 14-bit address and steps `v`.
    #[verifier::rlimit(100)]
    pub fn write_register(&mut self, cart: &mut Cartridge, register: usize, data: u8)
        requires
            old(self).wf(),
            old(cart).wf(),
        ensures
            final(self).wf(),
            final(cart).wf(),
            PPU::write_reg_rel(*old(self), *final(self), *old(cart), *final(cart), register as int, data),
    {
        if register == 0 {
            self.control = data;
            let t = self.temp_vram_address;
            self.temp_vram_address = (t % 1024) + ((data as u16) % 4) * 1024 + (t / 4096) * 4096;
        } else if register == 1 {
            self.mask = data;
        } else if register == 3 {
            self.oam_addr = data;
        } else if register == 4 {
            let idx = self.oam_addr as usize;
            self.oam[idx] = data;
            self.oam_addr = self.oam_addr.wrapping_add(1);
        } else if register == 5 {
            if !self.addr_latch {
                let t = self.temp_vram_address;
                self.temp_vram_address = (t / 32) * 32 + (data as u16) / 8;
                self.fine_x = data % 8;
            } else {
                let t = self.temp_vram_address;
                self.temp_vram_address = (t % 32) + ((data as u16) / 8) * 32 + ((t / 1024) % 4)
                    * 1024 + ((data as u16) % 8) * 4096;
            }
            self.addr_latch = !self.addr_latch;
        } else if register == 6 {
            if !self.addr_latch {
                let t = self.temp_vram_address;
                self.temp_vram_address = ((data as u16) % 64) * 256 + t % 256;
            } else {
                let t = self.temp_vram_address;
                self.temp_vram_address = (t / 256) * 256 + (data as u16);
                self.vram_address = self.temp_vram_address;
            }
            self.addr_latch = !self.addr_latch;
        } else if register == 7 {
            let a = self.vram_address % 0x4000;
            self.write_byte(cart, a, data);
            let inc: u16 = if crate::bitops::test_bit(self.control, 2) {
                32
            } else {
                1
            };
            self.vram_address = (self.vram_address + inc) % 0x8000;
        }
    }
}

    /// `v` after the horizontal reload at dot 257: coarse X and
    /// nametable X come from `t`, the vertical fields stay.
    pub open spec fn copy_horiz(v: u16, t: u16) -> int {
        (t % 32) + ((v / 32) % 32) * 32 + ((t / 1024) % 2) * 1024 + ((v / 2048) % 2) * 2048 + ((v
            / 4096) % 8) * 4096
    }

    /// `v` after the vertical reload at pre-render dots 280-304:
    /// coarse Y, nametable Y and fine Y come from `t`, the horizontal
    /// fields stay.
    pub open spec fn copy_vert(v: u16, t: u16) -> int {
        (v % 32) + ((t / 32) % 32) * 32 + ((v / 1024) % 2) * 1024 + ((t / 2048) % 2) * 2048 + ((t
            / 4096) % 8) * 4096
    }

impl PPU {
    /// Steps coarse X of `v`, wrapping into the neighbour nametable;
    /// a no-op while rendering is disabled.
    pub fn inc_scrollx(&mut self)
        requires
            old(self).wf(),
        ensures
            final(self).wf(),
            old(self).rendering_on_spec() ==> final(self).vram_address == inc_x_spec(
                old(self).vram_address,
            ),
            !old(self).rendering_on_spec() ==> final(self).vram_address == old(self).vram_address,
            *final(self) == (PPU { vram_address: final(self).vram_address, ..*old(self) }),
    {
        if !self.rendering_on() {
            return ;
        }
        let v = self.vram_address;
        if v % 32 == 31 {
            if (v / 1024) % 2 == 1 {
                self.vram_address = v - 31 - 1024;
            } else {
                self.vram_address = v - 31 + 1024;
            }
        } else {
            self.vram_address = v + 1;
        }
    }

    /// Steps fine Y of `v` with its carry into coarse Y and the
    /// nametable Y flip at row 29; a no-op while rendering is
    /// disabled.
    pub fn inc_scrolly(&mut self)
        requires
            old(self).wf(),
        ensures
            final(self).wf(),
            old(self).rendering_on_spec() ==> final(self).vram_address == inc_y_spec(
                old(self).vram_address,
            ),
            !old(self).rendering_on_spec() ==> final(self).vram_address == old(self).vram_address,
            *final(self) == (PPU { vram_address: final(self).vram_address, ..*old(self) }),
    {
        if !self.rendering_on() {
            return ;
        }
        let v = self.vram_address;
        if (v / 4096) % 8 == 7 {
            let v0 = v - 7 * 4096;
            if (v0 / 32) % 32 == 29 {
                let v1 = v0 - 29 * 32;
                if (v1 / 2048) % 2 == 1 {
                    self.vram_address = v1 - 2048;
                } else {
                    self.vram_address = v1 + 2048;
                }
            } else if (v0 / 32) % 32 == 31 {
                self.vram_address = v0 - 31 * 32;
            } else {
                self.vram_address = v0 + 32;
            }
        } else {
            self.vram_address = v + 4096;
        }
    }

    /// The pixel row `row` of the frame is untouched outside callers'
    /// claims: every byte outside it is equal.
    pub open spec fn row_untouched(pre: Seq<u8>, post: Seq<u8>, row: int) -> bool {
        &&& post.len() == pre.len()
        &&& forall|i: int|
            0 <= i < pre.len() && !(row * 768 <= i < row * 768 + 768) ==> post[i] == pre[i]
    }

    /// Same for the per-pixel transparency map, 256 cells per row.
    pub open spec fn row_untouched_t(pre: Seq<bool>, post: Seq<bool>, row: int) -> bool {
        &&& post.len() == pre.len()
        &&& forall|i: int|
            0 <= i < pre.len() && !(row * 256 <= i < row * 256 + 256) ==> post[i] == pre[i]
    }

    /// Everything but the status byte and the two video buffers equal.
    pub open spec fn same_but_status_video(a: PPU, b: PPU) -> bool {
        &&& PPU::same_tables(a, b)
        &&& a.control == b.control && a.mask == b.mask
        &&& a.oam_addr == b.oam_addr && a.prev_data == b.prev_data
        &&& a.vram_address == b.vram_address && a.temp_vram_address == b.temp_vram_address
        &&& a.fine_x == b.fine_x && a.addr_latch == b.addr_latch
        &&& a.scanline == b.scanline && a.cycle == b.cycle && a.odd_frame == b.odd_frame
        &&& a.nmi == b.nmi && a.dots == b.dots
    }

    /// The nametable base address with its nametable-X bit flipped.
    pub open spec fn flip_ntx(b: int) -> int {
        if (b / 1024) % 2 == 1 {
            b - 1024
        } else {
            b + 1024
        }
    }

    /// The nametable base address with its nametable-Y bit flipped.
    pub open spec fn flip_nty(b: int) -> int {
        if (b / 2048) % 2 == 1 {
            b - 2048
        } else {
            b + 2048
        }
    }

    /// The horizontal scroll in pixels: coarse X of `v` by tiles plus
    /// fine X.
    pub open spec fn bg_scroll_x(p: PPU) -> int {
        coarse_x(p.vram_address) * 8 + p.fine_x
    }

    /// The vertical scroll in pixels: coarse Y of `v` by tiles plus
    /// fine Y.
    pub open spec fn bg_scroll_y(p: PPU) -> int {
        coarse_y(p.vram_address) * 8 + fine_y(p.vram_address)
    }

    /// The scrolled pixel row the scanline samples; past row 239 it
    /// wraps into the vertically neighbouring nametable.
    pub open spec fn bg_eff_y(p: PPU) -> int {
        if p.scanline + PPU::bg_scroll_y(p) >= 240 {
            p.scanline + PPU::bg_scroll_y(p) - 240
        } else {
            p.scanline + PPU::bg_scroll_y(p)
        }
    }

    /// The scrolled pixel column that screen column `x` samples; past
    /// column 255 it wraps into the horizontally neighbouring
    /// nametable.
    pub open spec fn bg_eff_x(p: PPU, x: int) -> int {
        if x + PPU::bg_scroll_x(p) >= 256 {
            x + PPU::bg_scroll_x(p) - 256
        } else {
            x + PPU::bg_scroll_x(p)
        }
    }

    /// The nametable base the pixel at screen column `x` samples:
    /// `v`'s nametable select, with the Y bit flipped on vertical
    /// wrap and the X bit flipped on horizontal wrap.
    pub open spec fn bg_base(p: PPU, x: int) -> int {
        let b0 = 0x2000 + (nt_y(p.vram_address) * 2 + nt_x(p.vram_address)) * 0x400;
        let b1 = if p.scanline + PPU::bg_scroll_y(p) >= 240 {
            PPU::flip_nty(b0)
        } else {
            b0
        };
        if x + PPU::bg_scroll_x(p) >= 256 {
            PPU::flip_ntx(b1)
        } else {
            b1
        }
    }

    /// The background pattern table PPUCTRL bit 4 selects.
    pub open spec fn bg_pattern_base(p: PPU) -> int {
        if bit8(p.control, 4) {
            0x1000
        } else {
            0
        }
    }

    /// The two-bit pattern index of the background pixel at screen
    /// column `x` on the current scanline: the tile named by the
    /// nametable, sampled at the scrolled row and column.
    pub open spec fn bg_index(p: PPU, c: Cartridge, x: int) -> int {
        let ty = PPU::bg_eff_y(p) / 8;
        let row = PPU::bg_eff_y(p) % 8;
        let tx = PPU::bg_eff_x(p, x) / 8;
        let col = PPU::bg_eff_x(p, x) % 8;
        let tile = p.mem_read_spec(c, (PPU::bg_base(p, x) + ty * 32 + tx) as u16);
        let lo = p.mem_read_spec(c, (PPU::bg_pattern_base(p) + tile * 16 + row) as u16);
        let hi = p.mem_read_spec(c, (PPU::bg_pattern_base(p) + tile * 16 + row + 8) as u16);
        (if bit8(hi, (7 - col) as u8) {
            2int
        } else {
            0int
        }) + (if bit8(lo, (7 - col) as u8) {
            1int
        } else {
            0int
        })
    }

    /// The palette-RAM byte the background pixel at `x` selects: the
    /// universal color at `$3F00` for index 0, else the entry of the
    /// palette the attribute quadrant names.
    pub open spec fn bg_palette_byte(p: PPU, c: Cartridge, x: int) -> u8 {
        if PPU::bg_index(p, c, x) == 0 {
            p.mem_read_spec(c, 0x3F00)
        } else {
            let ty = PPU::bg_eff_y(p) / 8;
            let tx = PPU::bg_eff_x(p, x) / 8;
            let attr = p.mem_read_spec(c, (PPU::bg_base(p, x) + 0x3C0 + (ty / 4) * 8 + tx / 4) as u16);
            let palno = if (ty % 4) / 2 == 0 && (tx % 4) / 2 == 0 {
                attr % 4
            } else if (ty % 4) / 2 == 0 && (tx % 4) / 2 == 1 {
                (attr / 4) % 4
            } else if (ty % 4) / 2 == 1 && (tx % 4) / 2 == 0 {
                (attr / 16) % 4
            } else {
                (attr / 64) % 4
            };
            p.mem_read_spec(c, (0x3F00 + palno * 4 + PPU::bg_index(p, c, x)) as u16)
        }
    }

    /// The RGB triple the background writes at screen column `x`.
    pub open spec fn bg_rgb(p: PPU, c: Cartridge, x: int) -> (u8, u8, u8) {
        system_palette_spec(PPU::bg_palette_byte(p, c, x))
    }

    /// Renders the 256 background pixels of the current scanline:
    /// each screen column receives the color of its scrolled tile
    /// pixel, and the transparency map records where the two-bit
    /// pattern index was 0. Only this row of the frame and of the
    /// transparency map changes.
    #[verifier::rlimit(100)]
    pub fn render_bkgd(&mut self, cart: &Cartridge)
        requires
            old(self).wf(),
            cart.wf(),
            0 <= old(self).scanline <= 239,
        ensures
            final(self).wf(),
            PPU::same_but_status_video(*final(self), *old(self)),
            final(self).status == old(self).status,
            PPU::row_untouched(old(self).pixels@, final(self).pixels@, old(self).scanline as int),
            PPU::row_untouched_t(
                old(self).transparent@,
                final(self).transparent@,
                old(self).scanline as int,
            ),
            forall|x: int|
                0 <= x < 256 ==> {
                    &&& final(self).transparent@[old(self).scanline * 256 + x] == (PPU::bg_index(
                        *old(self),
                        *cart,
                        x,
                    ) == 0)
                    &&& final(self).pixels@[old(self).scanline * 768 + 3 * x] == PPU::bg_rgb(
                        *old(self),
                        *cart,
                        x,
                    ).0
                    &&& final(self).pixels@[old(self).scanline * 768 + 3 * x + 1] == PPU::bg_rgb(
                        *old(self),
                        *cart,
                        x,
                    ).1
                    &&& final(self).pixels@[old(self).scanline * 768 + 3 * x + 2] == PPU::bg_rgb(
                        *old(self),
                        *cart,
                        x,
                    ).2
                },
    {
        let v = self.vram_address;
        let nn: u16 = ((v / 2048) % 2) * 2 + (v / 1024) % 2;
        let base0: u16 = 0x2000 + nn * 0x400;
        let scrollx: usize = ((v % 32) as usize) * 8 + (self.fine_x as usize);
        let scrolly: usize = (((v / 32) % 32) as usize) * 8 + (((v / 4096) % 8) as usize);
        let sy: usize = (self.scanline as usize) + scrolly;
        let base_y: u16 = if sy >= 240 {
            if (base0 / 2048) % 2 == 1 {
                base0 - 2048
            } else {
                base0 + 2048
            }
        } else {
            base0
        };
        let asy: usize = if sy >= 240 {
            sy - 240
        } else {
            sy
        };
        let ty: u16 = (asy as u16) / 8;
        let row: u16 = (asy as u16) % 8;
        let pattstart: u16 = if crate::bitops::test_bit(self.control, 4) {
            0x1000
        } else {
            0x0000
        };
        let ypos: usize = self.scanline as usize;
        let mut screen_x: usize = 0;
        while screen_x < WIDTH
            invariant
                self.wf(),
                cart.wf(),
                PPU::same_but_status_video(*self, *old(self)),
                self.status == old(self).status,
                PPU::row_untouched(old(self).pixels@, self.pixels@, old(self).scanline as int),
                PPU::row_untouched_t(
                    old(self).transparent@,
                    self.transparent@,
                    old(self).scanline as int,
                ),
                forall|x: int|
                    0 <= x < screen_x ==> {
                        &&& self.transparent@[old(self).scanline * 256 + x] == (PPU::bg_index(
                            *old(self),
                            *cart,
                            x,
                        ) == 0)
                        &&& self.pixels@[old(self).scanline * 768 + 3 * x] == PPU::bg_rgb(
                            *old(self),
                            *cart,
                            x,
                        ).0
                        &&& self.pixels@[old(self).scanline * 768 + 3 * x + 1] == PPU::bg_rgb(
                            *old(self),
                            *cart,
                            x,
                        ).1
                        &&& self.pixels@[old(self).scanline * 768 + 3 * x + 2] == PPU::bg_rgb(
                            *old(self),
                            *cart,
                            x,
                        ).2
                    },
                ypos == old(self).scanline,
                ypos <= 239,
                screen_x <= WIDTH,
                scrollx == PPU::bg_scroll_x(*old(self)),
                scrollx < 256,
                asy == PPU::bg_eff_y(*old(self)),
                asy < 480,
                ty == asy / 8,
                row == asy % 8,
                pattstart == PPU::bg_pattern_base(*old(self)),
                base_y == (if old(self).scanline + PPU::bg_scroll_y(*old(self)) >= 240 {
                    PPU::flip_nty(
                        0x2000 + (nt_y(old(self).vram_address) * 2 + nt_x(old(self).vram_address))
                            * 0x400,
                    )
                } else {
                    0x2000 + (nt_y(old(self).vram_address) * 2 + nt_x(old(self).vram_address))
                        * 0x400
                }),
                0x2000 <= base_y < 0x3000,
                base_y % 0x400 == 0,
            decreases WIDTH - screen_x,
        {
            let sx: usize = screen_x + scrollx;
            let base: u16 = if sx >= 256 {
                if (base_y / 1024) % 2 == 1 {
                    base_y - 1024
                } else {
                    base_y + 1024
                }
            } else {
                base_y
            };
            let asx: usize = if sx >= 256 {
                sx - 256
            } else {
                sx
            };
            proof {
                assert(base == PPU::bg_base(*old(self), screen_x as int));
                assert(asx == PPU::bg_eff_x(*old(self), screen_x as int));
            }
            let tx: u16 = (asx as u16) / 8;
            let col: u16 = (asx as u16) % 8;
            let tile_id = self.read_byte(cart, base + ty * 32 + tx);
            let attr = self.read_byte(cart, base + 0x3C0 + (ty / 4) * 8 + tx / 4);
            let block_row = (ty % 4) / 2;
            let block_col = (tx % 4) / 2;
            let tile_palno: u8 = if block_row == 0 && block_col == 0 {
                attr % 4
            } else if block_row == 0 && block_col == 1 {
                (attr / 4) % 4
            } else if block_row == 1 && block_col == 0 {
                (attr / 16) % 4
            } else {
                (attr / 64) % 4
            };
            let palette_start = 0x3F00 + (tile_palno as u16) * 4;
            let pal0 = self.read_byte(cart, 0x3F00);
            let pal1 = self.read_byte(cart, palette_start + 1);
            let pal2 = self.read_byte(cart, palette_start + 2);
            let pal3 = self.read_byte(cart, palette_start + 3);
            let lo = self.read_byte(cart, pattstart + (tile_id as u16) * 16 + row);
            let hi = self.read_byte(cart, pattstart + (tile_id as u16) * 16 + row + 8);
            let shift = (7 - col) as u8;
            let low: u8 = if crate::bitops::test_bit(lo, shift) {
                1
            } else {
                0
            };
            let high: u8 = if crate::bitops::test_bit(hi, shift) {
                1
            } else {
                0
            };
            let colour_idx: u8 = high * 2 + low;
            proof {
                assert(colour_idx == PPU::bg_index(*old(self), *cart, screen_x as int));
            }
            let rgb = system_palette(
                if colour_idx == 0 {
                    pal0
                } else if colour_idx == 1 {
                    pal1
                } else if colour_idx == 2 {
                    pal2
                } else {
                    pal3
                },
            );
            proof {
                assert(rgb == PPU::bg_rgb(*old(self), *cart, screen_x as int));
            }
            let tidx = ypos * WIDTH + screen_x;
            self.transparent[tidx] = colour_idx == 0;
            let offset = ypos * WIDTH * 3 + screen_x * 3;
            self.pixels[offset] = rgb.0;
            self.pixels[offset + 1] = rgb.1;
            self.pixels[offset + 2] = rgb.2;
            screen_x = screen_x + 1;
        }
    }

    /// Sprite `i`'s raw Y byte (the scanline above its top row).
    pub open spec fn spr_y_raw(p: PPU, i: int) -> u8 {
        p.oam@[4 * i]
    }

    /// Sprite `i`'s tile number byte.
    pub open spec fn spr_id(p: PPU, i: int) -> u8 {
        p.oam@[4 * i + 1]
    }

    /// Sprite `i`'s attribute byte: palette 0-1, priority 5, flips
    /// 6-7.
    pub open spec fn spr_attr(p: PPU, i: int) -> u8 {
        p.oam@[4 * i + 2]
    }

    /// Sprite `i`'s screen X.
    pub open spec fn spr_x(p: PPU, i: int) -> u8 {
        p.oam@[4 * i + 3]
    }

    /// The sprite height PPUCTRL bit 5 selects.
    pub open spec fn spr_height(p: PPU) -> int {
        if bit8(p.control, 5) {
            16
        } else {
            8
        }
    }

    /// True when sprite `i` is not hidden and the current scanline
    /// crosses its rows.
    pub open spec fn sprite_on_scanline(p: PPU, i: int) -> bool {
        &&& PPU::spr_y_raw(p, i) < 0xEF
        &&& p.scanline >= PPU::spr_y_raw(p, i) + 1
        &&& p.scanline < PPU::spr_y_raw(p, i) + 1 + PPU::spr_height(p)
    }

    /// The pattern row the scanline samples inside sprite `i`,
    /// after the vertical flip (which substitutes `height - row`).
    pub open spec fn sprite_row(p: PPU, i: int) -> int {
        let r = p.scanline - (PPU::spr_y_raw(p, i) + 1);
        if bit8(PPU::spr_attr(p, i), 7) {
            PPU::spr_height(p) - r
        } else {
            r
        }
    }

    /// The address of sprite `i`'s low pattern plane for the sampled
    /// row: 8x16 sprites take their table from tile bit 0 and step to
    /// the second tile past row 7.
    pub open spec fn sprite_lo_addr(p: PPU, i: int) -> int {
        let base = if bit8(p.control, 5) {
            (if bit8(PPU::spr_id(p, i), 0) {
                0x1000int
            } else {
                0int
            }) + (PPU::spr_id(p, i) / 2) * 2 * 16
        } else {
            (if bit8(p.control, 3) {
                0x1000int
            } else {
                0int
            }) + PPU::spr_id(p, i) * 16
        };
        let adjusted = if PPU::sprite_row(p, i) >= 8 {
            base + 8
        } else {
            base
        };
        adjusted + PPU::sprite_row(p, i)
    }

    /// Sprite `i`'s low pattern byte, bit-reversed under horizontal
    /// flip.
    pub open spec fn sprite_lo(p: PPU, c: Cartridge, i: int) -> u8 {
        let b = p.mem_read_spec(c, PPU::sprite_lo_addr(p, i) as u16);
        if bit8(PPU::spr_attr(p, i), 6) {
            crate::bitops::reversed8(b)
        } else {
            b
        }
    }

    /// Sprite `i`'s high pattern byte, bit-reversed under horizontal
    /// flip.
    pub open spec fn sprite_hi(p: PPU, c: Cartridge, i: int) -> u8 {
        let b = p.mem_read_spec(c, (PPU::sprite_lo_addr(p, i) + 8) as u16);
        if bit8(PPU::spr_attr(p, i), 6) {
            crate::bitops::reversed8(b)
        } else {
            b
        }
    }

    /// True when sprite `i` owns screen column `x` on this scanline.
    pub open spec fn sprite_covers(p: PPU, i: int, x: int) -> bool {
        &&& PPU::sprite_on_scanline(p, i)
        &&& PPU::spr_x(p, i) <= x < PPU::spr_x(p, i) + 8
    }

    /// The two-bit pattern index of sprite `i` at column `x`.
    pub open spec fn sprite_index_at(p: PPU, c: Cartridge, i: int, x: int) -> int {
        let sh = (7 - (x - PPU::spr_x(p, i))) as u8;
        (if bit8(PPU::sprite_hi(p, c, i), sh) {
            2int
        } else {
            0int
        }) + (if bit8(PPU::sprite_lo(p, c, i), sh) {
            1int
        } else {
            0int
        })
    }

    /// True when sprite `i` shows an opaque pixel at column `x`.
    pub open spec fn sprite_opaque_at(p: PPU, c: Cartridge, i: int, x: int) -> bool {
        PPU::sprite_covers(p, i, x) && PPU::sprite_index_at(p, c, i, x) != 0
    }

    /// True when sprite `i` wins column `x`: its pixel is opaque and
    /// either its priority bit is clear or the background there was
    /// transparent.
    pub open spec fn sprite_draws_at(p: PPU, c: Cartridge, i: int, x: int) -> bool {
        &&& PPU::sprite_opaque_at(p, c, i, x)
        &&& (!bit8(PPU::spr_attr(p, i), 5) || p.transparent@[p.scanline * 256 + x])
    }

    /// The lowest sprite index at or above `i` that draws at `x`, or
    /// 64 when none does; lower indices overdraw higher ones.
    pub open spec fn first_drawer_from(p: PPU, c: Cartridge, i: int, x: int) -> int
        decreases 64 - i,
    {
        if i >= 64 || i < 0 {
            64
        } else if PPU::sprite_draws_at(p, c, i, x) {
            i
        } else {
            PPU::first_drawer_from(p, c, i + 1, x)
        }
    }

    /// The RGB triple sprite `i` shows at column `x`, from the sprite
    /// palettes at `$3F10`; index 0 falls back to the universal
    /// color (it is never drawn).
    pub open spec fn sprite_rgb(p: PPU, c: Cartridge, i: int, x: int) -> (u8, u8, u8) {
        let idx = PPU::sprite_index_at(p, c, i, x);
        let palno = PPU::spr_attr(p, i) % 4;
        let byte = if idx == 0 {
            p.mem_read_spec(c, 0x3F00)
        } else {
            p.mem_read_spec(c, (0x3F00 + 16 + palno * 4 + idx) as u16)
        };
        system_palette_spec(byte)
    }

    /// The frame `pix` shows the right composite at column `x` for
    /// drawer index `d`: the drawing sprite's color when `d < 64`,
    /// else the pre-pass pixel.
    pub open spec fn fg_pixel_is(pre: PPU, c: Cartridge, pix: Seq<u8>, d: int, x: int) -> bool {
        if d < 64 {
            &&& pix[pre.scanline * 768 + 3 * x] == PPU::sprite_rgb(pre, c, d, x).0
            &&& pix[pre.scanline * 768 + 3 * x + 1] == PPU::sprite_rgb(pre, c, d, x).1
            &&& pix[pre.scanline * 768 + 3 * x + 2] == PPU::sprite_rgb(pre, c, d, x).2
        } else {
            &&& pix[pre.scanline * 768 + 3 * x] == pre.pixels@[pre.scanline * 768 + 3 * x]
            &&& pix[pre.scanline * 768 + 3 * x + 1] == pre.pixels@[pre.scanline * 768 + 3 * x + 1]
            &&& pix[pre.scanline * 768 + 3 * x + 2] == pre.pixels@[pre.scanline * 768 + 3 * x + 2]
        }
    }

    /// Memory reads see only the tables and the cartridge: two PPU
    /// states with equal tables read equal bytes everywhere.
    pub proof fn lemma_mem_read_same_tables(a: PPU, b: PPU, c: Cartridge, addr: u16)
        requires
            PPU::same_tables(a, b),
        ensures
            a.mem_read_spec(c, addr) == b.mem_read_spec(c, addr),
    {
    }

    /// True when an opaque pixel of sprite 0 overlies an opaque
    /// background pixel somewhere on this scanline: the sprite-0 hit
    /// condition.
    pub open spec fn sprite0_hit_now(p: PPU, c: Cartridge) -> bool {
        exists|x: int|
            0 <= x < 256 && #[trigger] PPU::sprite_opaque_at(p, c, 0, x) && !p.transparent@[
                p.scanline * 256 + x]
    }

    /// Renders the sprites that cross the current scanline in
    /// reverse OAM order, so that the lowest drawing index wins each
    /// column; a drawing sprite needs an opaque pixel and either
    /// front priority or a transparent background. The sprite-0 hit
    /// flag latches exactly when an opaque sprite-0 pixel overlies an
    /// opaque background pixel. Only this row of the frame changes,
    /// and the transparency map not at all.
    #[verifier::rlimit(100)]
    pub fn render_foreground(&mut self, cart: &Cartridge)
        requires
            old(self).wf(),
            cart.wf(),
            0 <= old(self).scanline <= 239,
        ensures
            final(self).wf(),
            PPU::same_but_status_video(*final(self), *old(self)),
            final(self).status == old(self).status || final(self).status == old(self).status
                | 0x40,
            bit8(final(self).status, 6) == (bit8(old(self).status, 6) || PPU::sprite0_hit_now(
                *old(self),
                *cart,
            )),
            final(self).transparent == old(self).transparent,
            PPU::row_untouched(old(self).pixels@, final(self).pixels@, old(self).scanline as int),
            forall|x: int|
                0 <= x < 256 ==> #[trigger] PPU::fg_pixel_is(
                    *old(self),
                    *cart,
                    final(self).pixels@,
                    PPU::first_drawer_from(*old(self), *cart, 0, x),
                    x,
                ),
    {
        let ypos: usize = self.scanline as usize;
        let height: u8 = if crate::bitops::test_bit(self.control, 5) {
            16
        } else {
            8
        };
        let mut sp: usize = 64;
        while sp > 0
            invariant
                self.wf(),
                cart.wf(),
                PPU::same_but_status_video(*self, *old(self)),
                self.transparent == old(self).transparent,
                PPU::row_untouched(old(self).pixels@, self.pixels@, old(self).scanline as int),
                ypos == old(self).scanline,
                ypos <= 239,
                height == PPU::spr_height(*old(self)),
                sp <= 64,
                sp >= 1 ==> self.status == old(self).status,
                sp == 0 ==> (self.status == old(self).status || self.status == old(self).status
                    | 0x40) && bit8(self.status, 6) == (bit8(old(self).status, 6)
                    || PPU::sprite0_hit_now(*old(self), *cart)),
                forall|x: int|
                    0 <= x < 256 ==> #[trigger] PPU::fg_pixel_is(
                        *old(self),
                        *cart,
                        self.pixels@,
                        PPU::first_drawer_from(*old(self), *cart, sp as int, x),
                        x,
                    ),
            decreases sp,
        {
            sp = sp - 1;
            let i = sp * 4;
            let spr_x = self.oam[i + 3];
            let spr_y_raw = self.oam[i];
            let mut on_line = false;
            if spr_y_raw < 0xEF {
                let spr_y = spr_y_raw + 1;
                if self.scanline >= (spr_y as i32) && self.scanline < (spr_y as i32) + (
                height as i32) {
                    on_line = true;
                }
            }
            if !on_line {
                proof {
                    assert(!PPU::sprite_on_scanline(*old(self), sp as int));
                    assert(forall|x: int|
                        0 <= x < 256 ==> !PPU::sprite_draws_at(*old(self), *cart, sp as int, x)
                            && #[trigger] PPU::first_drawer_from(*old(self), *cart, sp as int, x)
                            == PPU::first_drawer_from(*old(self), *cart, sp as int + 1, x));
                    if sp == 0 {
                        assert(forall|x: int|
                            0 <= x < 256 ==> !#[trigger] PPU::sprite_opaque_at(
                                *old(self),
                                *cart,
                                0,
                                x,
                            ));
                        assert(!PPU::sprite0_hit_now(*old(self), *cart));
                    }
                }
            } else {
                let spr_y = spr_y_raw + 1;
                let id = self.oam[i + 1];
                let attr = self.oam[i + 2];
                let mut y: u8 = ((self.scanline as u16) - (spr_y as u16)) as u8;
                let mut patt_addr: u16;
                if !crate::bitops::test_bit(self.control, 5) {
                    patt_addr = (if crate::bitops::test_bit(self.control, 3) {
                        0x1000u16
                    } else {
                        0u16
                    }) + (id as u16) * 16;
                } else {
                    patt_addr = (if crate::bitops::test_bit(id, 0) {
                        0x1000u16
                    } else {
                        0u16
                    }) + ((id as u16) / 2) * 2 * 16;
                }
                let palno = attr % 4;
                if crate::bitops::test_bit(attr, 7) {
                    y = height - y;
                }
                let pal0 = self.read_byte(cart, 0x3F00);
                let palette_start = 0x3F00 + 16 + (palno as u16) * 4;
                let pal1 = self.read_byte(cart, palette_start + 1);
                let pal2 = self.read_byte(cart, palette_start + 2);
                let pal3 = self.read_byte(cart, palette_start + 3);
                if y >= 8 {
                    patt_addr = patt_addr + 8;
                }
                let mut lo = self.read_byte(cart, patt_addr + (y as u16));
                let mut hi = self.read_byte(cart, patt_addr + (y as u16) + 8);
                if crate::bitops::test_bit(attr, 6) {
                    lo = crate::bitops::reverse_byte(lo);
                    hi = crate::bitops::reverse_byte(hi);
                }
                proof {
                    assert(lo == PPU::sprite_lo(*old(self), *cart, sp as int));
                    assert(hi == PPU::sprite_hi(*old(self), *cart, sp as int));
                }
                let mut xi: u8 = 0;
                let mut halted = false;
                while xi < 8 && !halted
                    invariant
                        self.wf(),
                        cart.wf(),
                        PPU::same_but_status_video(*self, *old(self)),
                        self.transparent == old(self).transparent,
                        PPU::row_untouched(
                            old(self).pixels@,
                            self.pixels@,
                            old(self).scanline as int,
                        ),
                        ypos == old(self).scanline,
                        ypos <= 239,
                        xi <= 8,
                        sp < 64,
                        spr_x == PPU::spr_x(*old(self), sp as int),
                        attr == PPU::spr_attr(*old(self), sp as int),
                        PPU::sprite_on_scanline(*old(self), sp as int),
                        lo == PPU::sprite_lo(*old(self), *cart, sp as int),
                        hi == PPU::sprite_hi(*old(self), *cart, sp as int),
                        pal0 == old(self).mem_read_spec(*cart, 0x3F00),
                        pal1 == old(self).mem_read_spec(
                            *cart,
                            (0x3F00 + 16 + (attr % 4) * 4 + 1) as u16,
                        ),
                        pal2 == old(self).mem_read_spec(
                            *cart,
                            (0x3F00 + 16 + (attr % 4) * 4 + 2) as u16,
                        ),
                        pal3 == old(self).mem_read_spec(
                            *cart,
                            (0x3F00 + 16 + (attr % 4) * 4 + 3) as u16,
                        ),
                        halted ==> spr_x + xi >= 256,
                        sp >= 1 ==> self.status == old(self).status,
                        sp == 0 ==> (self.status == old(self).status || self.status == old(
                            self,
                        ).status | 0x40) && bit8(self.status, 6) == (bit8(old(self).status, 6) || (
                        exists|x: int|
                            0 <= x < 256 && x < spr_x + xi && #[trigger] PPU::sprite_opaque_at(
                                *old(self),
                                *cart,
                                0,
                                x,
                            ) && !old(self).transparent@[old(self).scanline * 256 + x])),
                        forall|x: int|
                            0 <= x < 256 && spr_x <= x < spr_x + xi
                                && #[trigger] PPU::sprite_draws_at(*old(self), *cart, sp as int, x)
                                ==> PPU::fg_pixel_is(
                                *old(self),
                                *cart,
                                self.pixels@,
                                sp as int,
                                x,
                            ),
                        forall|x: int|
                            0 <= x < 256 && !(spr_x <= x < spr_x + xi && PPU::sprite_draws_at(
                                *old(self),
                                *cart,
                                sp as int,
                                x,
                            )) ==> #[trigger] PPU::fg_pixel_is(
                                *old(self),
                                *cart,
                                self.pixels@,
                                PPU::first_drawer_from(*old(self), *cart, sp as int + 1, x),
                                x,
                            ),
                    decreases 8 - xi, (if halted {
                        0int
                    } else {
                        1int
                    }),
                {
                    if (spr_x as u16) + (xi as u16) >= (WIDTH as u16) {
                        halted = true;
                    } else {
                        let ghost pix0 = self.pixels@;
                        let ghost status0 = self.status;
                        let shift = 7 - xi;
                        let low: u8 = if crate::bitops::test_bit(lo, shift) {
                            1
                        } else {
                            0
                        };
                        let high: u8 = if crate::bitops::test_bit(hi, shift) {
                            1
                        } else {
                            0
                        };
                        let colour_idx: u8 = high * 2 + low;
                        let xpos: usize = (spr_x as usize) + (xi as usize);
                        proof {
                            assert(PPU::sprite_covers(*old(self), sp as int, xpos as int));
                            assert(colour_idx == PPU::sprite_index_at(
                                *old(self),
                                *cart,
                                sp as int,
                                xpos as int,
                            ));
                        }
                        let rgb = system_palette(
                            if colour_idx == 0 {
                                pal0
                            } else if colour_idx == 1 {
                                pal1
                            } else if colour_idx == 2 {
                                pal2
                            } else {
                                pal3
                            },
                        );
                        let offset = ypos * WIDTH * 3 + xpos * 3;
                        let mut lets_draw = false;
                        if colour_idx > 0 {
                            let bg_transparent = self.transparent[ypos * WIDTH + xpos];
                            if !bg_transparent && sp == 0 && !crate::bitops::test_bit(
                                self.status,
                                6,
                            ) {
                                proof {
                                    let s0 = old(self).status;
                                    let s1 = self.status;
                                    assert(s1 == s0 && s1 | 0x40 == s0 | 0x40) by (bit_vector)
                                        requires
                                            (s1 == s0 || s1 == s0 | 0x40) && !bit8(s1, 6),
                                    ;
                                    assert(bit8(s0 | 0x40, 6)) by (bit_vector);
                                }
                                self.status = self.status | 0x40;
                            }
                            lets_draw = !crate::bitops::test_bit(attr, 5) || bg_transparent;
                            proof {
                                assert(lets_draw == PPU::sprite_draws_at(
                                    *old(self),
                                    *cart,
                                    sp as int,
                                    xpos as int,
                                ));
                            }
                        }
                        if lets_draw {
                            proof {
                                assert(rgb == PPU::sprite_rgb(
                                    *old(self),
                                    *cart,
                                    sp as int,
                                    xpos as int,
                                ));
                            }
                            self.pixels[offset] = rgb.0;
                            self.pixels[offset + 1] = rgb.1;
                            self.pixels[offset + 2] = rgb.2;
                        }
                        proof {
                            let pre = *old(self);
                            let srow = pre.scanline as int;
                            let sidx = sp as int;
                            assert forall|x: int|
                                #![trigger PPU::sprite_draws_at(pre, *cart, sidx, x)]
                                0 <= x < 256 && spr_x <= x < spr_x + (xi as int) + 1
                                    && PPU::sprite_draws_at(pre, *cart, sidx, x) implies
                                PPU::fg_pixel_is(pre, *cart, self.pixels@, sidx, x) by {
                                if x == xpos as int {
                                    assert(lets_draw);
                                    assert(PPU::fg_pixel_is(pre, *cart, self.pixels@, sidx, x));
                                } else {
                                    assert(PPU::fg_pixel_is(pre, *cart, pix0, sidx, x));
                                    assert(self.pixels@[srow * 768 + 3 * x] == pix0[srow * 768 + 3
                                        * x]);
                                    assert(self.pixels@[srow * 768 + 3 * x + 1] == pix0[srow * 768
                                        + 3 * x + 1]);
                                    assert(self.pixels@[srow * 768 + 3 * x + 2] == pix0[srow * 768
                                        + 3 * x + 2]);
                                }
                            }
                            assert forall|x: int|
                                #![trigger PPU::first_drawer_from(pre, *cart, sidx + 1, x)]
                                0 <= x < 256 && !(spr_x <= x < spr_x + (xi as int) + 1
                                    && PPU::sprite_draws_at(pre, *cart, sidx, x)) implies
                                PPU::fg_pixel_is(
                                    pre,
                                    *cart,
                                    self.pixels@,
                                    PPU::first_drawer_from(pre, *cart, sidx + 1, x),
                                    x,
                                ) by {
                                assert(!(spr_x <= x < spr_x + (xi as int)
                                    && PPU::sprite_draws_at(pre, *cart, sidx, x)));
                                assert(PPU::fg_pixel_is(
                                    pre,
                                    *cart,
                                    pix0,
                                    PPU::first_drawer_from(pre, *cart, sidx + 1, x),
                                    x,
                                ));
                                assert(x != xpos as int || !lets_draw);
                                assert(self.pixels@[srow * 768 + 3 * x] == pix0[srow * 768 + 3
                                    * x]);
                                assert(self.pixels@[srow * 768 + 3 * x + 1] == pix0[srow * 768 + 3
                                    * x + 1]);
                                assert(self.pixels@[srow * 768 + 3 * x + 2] == pix0[srow * 768 + 3
                                    * x + 2]);
                            }
                            if sp == 0 {
                                if bit8(self.status, 6) && !bit8(status0, 6) {
                                    assert(PPU::sprite_opaque_at(pre, *cart, 0, xpos as int)
                                        && !pre.transparent@[srow * 256 + xpos]);
                                    assert(0 <= (xpos as int) && (xpos as int) < 256 && (
                                    xpos as int) < spr_x + (xi as int) + 1);
                                } else {
                                    assert(self.status == status0);
                                    if !(bit8(status0, 6)) {
                                        assert(colour_idx == 0 || pre.transparent@[srow * 256
                                            + xpos]);
                                        assert(!(PPU::sprite_opaque_at(pre, *cart, 0, xpos as int)
                                            && !pre.transparent@[srow * 256 + xpos]));
                                    }
                                }
                            }
                        }
                        xi = xi + 1;
                    }
                }
                proof {
                    let pre = *old(self);
                    let sidx = sp as int;
                    assert(xi == 8 || spr_x + xi >= 256);
                    assert forall|x: int| 0 <= x < 256 implies PPU::fg_pixel_is(
                        pre,
                        *cart,
                        self.pixels@,
                        PPU::first_drawer_from(pre, *cart, sidx, x),
                        x,
                    ) by {
                        if spr_x <= x < spr_x + 8 && PPU::sprite_draws_at(pre, *cart, sidx, x) {
                            assert(x < spr_x + (xi as int));
                            assert(PPU::fg_pixel_is(pre, *cart, self.pixels@, sidx, x));
                            assert(PPU::first_drawer_from(pre, *cart, sidx, x) == sidx);
                        } else {
                            assert(!(spr_x <= x < spr_x + (xi as int) && PPU::sprite_draws_at(
                                pre,
                                *cart,
                                sidx,
                                x,
                            )));
                            assert(PPU::fg_pixel_is(
                                pre,
                                *cart,
                                self.pixels@,
                                PPU::first_drawer_from(pre, *cart, sidx + 1, x),
                                x,
                            ));
                            assert(PPU::first_drawer_from(pre, *cart, sidx, x)
                                == PPU::first_drawer_from(pre, *cart, sidx + 1, x));
                        }
                    }
                    if sp == 0 {
                        let srow = pre.scanline as int;
                        if PPU::sprite0_hit_now(pre, *cart) {
                            let w = choose|x: int|
                                0 <= x < 256 && #[trigger] PPU::sprite_opaque_at(pre, *cart, 0, x)
                                    && !pre.transparent@[srow * 256 + x];
                            assert(spr_x <= w < spr_x + 8);
                            assert(w < spr_x + (xi as int));
                        }
                        if exists|x: int|
                            0 <= x < 256 && x < spr_x + xi && #[trigger] PPU::sprite_opaque_at(
                                pre,
                                *cart,
                                0,
                                x,
                            ) && !pre.transparent@[srow * 256 + x] {
                            assert(PPU::sprite0_hit_now(pre, *cart));
                        }
                    }
                }
            }
        }
    }

    /// True when an opaque pixel of sprite 0 overlies a background
    /// pixel that the background formula makes opaque: the sprite-0
    /// hit condition of a full render pass.
    pub open spec fn sprite0_hit_over_bg(p: PPU, c: Cartridge) -> bool {
        exists|x: int|
            0 <= x < 256 && #[trigger] PPU::sprite_opaque_at(p, c, 0, x) && PPU::bg_index(p, c, x)
                != 0
    }

    /// Renders the current visible scanline: the background when
    /// PPUMASK bit 3 allows, then the sprites when bit 4 allows. With
    /// both passes on, the sprite-0 hit flag latches exactly when an
    /// opaque sprite-0 pixel overlies a background pixel the pass
    /// painted opaque.
    pub fn render_scanline(&mut self, cart: &Cartridge)
        requires
            old(self).wf(),
            cart.wf(),
            0 <= old(self).scanline <= 239,
        ensures
            final(self).wf(),
            PPU::same_but_status_video(*final(self), *old(self)),
            final(self).status == old(self).status || final(self).status == old(self).status
                | 0x40,
            PPU::row_untouched(old(self).pixels@, final(self).pixels@, old(self).scanline as int),
            PPU::row_untouched_t(
                old(self).transparent@,
                final(self).transparent@,
                old(self).scanline as int,
            ),
            !bit8(old(self).mask, 3) && !bit8(old(self).mask, 4) ==> *final(self) == *old(self),
            !bit8(old(self).mask, 4) ==> final(self).status == old(self).status,
            !bit8(old(self).mask, 3) ==> final(self).transparent == old(self).transparent,
            bit8(old(self).mask, 3) && bit8(old(self).mask, 4) ==> bit8(final(self).status, 6) == (
            bit8(old(self).status, 6) || PPU::sprite0_hit_over_bg(*old(self), *cart)),
            !bit8(old(self).mask, 3) && bit8(old(self).mask, 4) ==> bit8(final(self).status, 6)
                == (bit8(old(self).status, 6) || PPU::sprite0_hit_now(*old(self), *cart)),
    {
        if crate::bitops::test_bit(self.mask, 3) {
            self.render_bkgd(cart);
        }
        let ghost mid = *self;
        if crate::bitops::test_bit(self.mask, 4) {
            self.render_foreground(cart);
            proof {
                if bit8(old(self).mask, 3) {
                    let pre = *old(self);
                    let srow = pre.scanline as int;
                    assert forall|x: int| 0 <= x < 256 implies #[trigger] PPU::sprite_opaque_at(
                        mid,
                        *cart,
                        0,
                        x,
                    ) == PPU::sprite_opaque_at(pre, *cart, 0, x) && (!mid.transparent@[srow * 256
                        + x]) == (PPU::bg_index(pre, *cart, x) != 0) by {
                        PPU::lemma_mem_read_same_tables(
                            mid,
                            pre,
                            *cart,
                            PPU::sprite_lo_addr(pre, 0) as u16,
                        );
                        PPU::lemma_mem_read_same_tables(
                            mid,
                            pre,
                            *cart,
                            (PPU::sprite_lo_addr(pre, 0) + 8) as u16,
                        );
                        assert(PPU::sprite_lo(mid, *cart, 0) == PPU::sprite_lo(pre, *cart, 0));
                        assert(PPU::sprite_hi(mid, *cart, 0) == PPU::sprite_hi(pre, *cart, 0));
                    }
                    if PPU::sprite0_hit_now(mid, *cart) {
                        let w = choose|x: int|
                            0 <= x < 256 && #[trigger] PPU::sprite_opaque_at(mid, *cart, 0, x)
                                && !mid.transparent@[mid.scanline * 256 + x];
                        assert(PPU::sprite_opaque_at(pre, *cart, 0, w) && PPU::bg_index(
                            pre,
                            *cart,
                            w,
                        ) != 0);
                    }
                    if PPU::sprite0_hit_over_bg(pre, *cart) {
                        let w = choose|x: int|
                            0 <= x < 256 && #[trigger] PPU::sprite_opaque_at(pre, *cart, 0, x)
                                && PPU::bg_index(pre, *cart, x) != 0;
                        assert(PPU::sprite_opaque_at(mid, *cart, 0, w) && !mid.transparent@[
                        mid.scanline * 256 + w]);
                    }
                }
            }
        }
    }

    /// Draws the full 32x30 tile grid of one nametable into the frame
    /// buffer, a diagnostic view of background memory.
    pub fn debug_show_nt(&mut self, cart: &Cartridge, nt_start: u16)
        requires
            old(self).wf(),
            cart.wf(),
            nt_start <= 0x3C00,
        ensures
            final(self).wf(),
            PPU::same_but_status_video(*final(self), *old(self)),
            final(self).status == old(self).status,
            final(self).transparent == old(self).transparent,
            final(self).pixels.len() == old(self).pixels.len(),
    {
        let pattstart: u16 = if crate::bitops::test_bit(self.control, 4) {
            0x1000
        } else {
            0x0000
        };
        let mut ty: u16 = 0;
        while ty < 30
            invariant
                self.wf(),
                cart.wf(),
                PPU::same_but_status_video(*self, *old(self)),
                self.status == old(self).status,
                self.transparent == old(self).transparent,
                self.pixels.len() == old(self).pixels.len(),
                pattstart == 0x1000 || pattstart == 0,
                nt_start <= 0x3C00,
                ty <= 30,
            decreases 30 - ty,
        {
            let mut tx: u16 = 0;
            while tx < 32
                invariant
                    self.wf(),
                    cart.wf(),
                    PPU::same_but_status_video(*self, *old(self)),
                    self.status == old(self).status,
                    self.transparent == old(self).transparent,
                    self.pixels.len() == old(self).pixels.len(),
                    pattstart == 0x1000 || pattstart == 0,
                    nt_start <= 0x3C00,
                    ty < 30,
                    tx <= 32,
                decreases 32 - tx,
            {
                let tile_addr = nt_start + ty * 32 + tx;
                let tile_id = self.read_byte(cart, tile_addr);
                let attr_addr = nt_start + 0x03C0 + (ty / 4) * 8 + tx / 4;
                let attr = self.read_byte(cart, attr_addr);
                let block_row = (ty % 4) / 2;
                let block_col = (tx % 4) / 2;
                let tile_palno: u8 = if block_row == 0 && block_col == 0 {
                    attr % 4
                } else if block_row == 0 && block_col == 1 {
                    (attr / 4) % 4
                } else if block_row == 1 && block_col == 0 {
                    (attr / 16) % 4
                } else {
                    (attr / 64) % 4
                };
                let palette_start = 0x3F00 + (tile_palno as u16) * 4;
                let pal0 = self.read_byte(cart, 0x3F00);
                let pal1 = self.read_byte(cart, palette_start + 1);
                let pal2 = self.read_byte(cart, palette_start + 2);
                let pal3 = self.read_byte(cart, palette_start + 3);
                let mut y: u16 = 0;
                while y < 8
                    invariant
                        self.wf(),
                        cart.wf(),
                        PPU::same_but_status_video(*self, *old(self)),
                        self.status == old(self).status,
                        self.transparent == old(self).transparent,
                        self.pixels.len() == old(self).pixels.len(),
                        pattstart == 0x1000 || pattstart == 0,
                        nt_start <= 0x3C00,
                        ty < 30,
                        tx < 32,
                        y <= 8,
                    decreases 8 - y,
                {
                    let mut lo = self.read_byte(cart, pattstart + (tile_id as u16) * 16 + y);
                    let mut hi = self.read_byte(cart, pattstart + (tile_id as u16) * 16 + y + 8);
                    let mut x: u16 = 0;
                    while x < 8
                        invariant
                            self.wf(),
                            PPU::same_but_status_video(*self, *old(self)),
                            self.status == old(self).status,
                            self.transparent == old(self).transparent,
                            self.pixels.len() == old(self).pixels.len(),
                            ty < 30,
                            tx < 32,
                            y < 8,
                            x <= 8,
                        decreases 8 - x,
                    {
                        let low: u8 = if crate::bitops::test_bit(lo, 7) {
                            1
                        } else {
                            0
                        };
                        let high: u8 = if crate::bitops::test_bit(hi, 7) {
                            1
                        } else {
                            0
                        };
                        let colour_idx: u8 = high * 2 + low;
                        let rgb = system_palette(
                            if colour_idx == 0 {
                                pal0
                            } else if colour_idx == 1 {
                                pal1
                            } else if colour_idx == 2 {
                                pal2
                            } else {
                                pal3
                            },
                        );
                        let xpos = (tx * 8 + x) as usize;
                        let ypos = (ty * 8 + y) as usize;
                        let offset = ypos * WIDTH * 3 + xpos * 3;
                        self.pixels[offset] = rgb.0;
                        self.pixels[offset + 1] = rgb.1;
                        self.pixels[offset + 2] = rgb.2;
                        lo = lo % 128 * 2;
                        hi = hi % 128 * 2;
                        x = x + 1;
                    }
                    y = y + 1;
                }
                tx = tx + 1;
            }
            ty = ty + 1;
        }
    }

    /// Advances the PPU by one dot.
    ///
    /// The pre-render scanline's dot 1 clears vblank and the sprite-0
    /// hit; its dots 280-304 reload the vertical scroll from `t`; its
    /// idle dot 0 is skipped once per odd frame while rendering is
    /// enabled. Dot 257 of the pre-render and visible scanlines
    /// reloads the horizontal scroll. On visible scanlines, coarse X
    /// steps at every eighth dot to 256 and at 328 and 336, and dot
    /// 258 renders the line. Dot 1 of scanline 241
    /// raises vblank and latches NMI when PPUCTRL bit 7 allows.
    #[verifier::rlimit(60)]
    pub fn tick(&mut self, cart: &Cartridge)
        requires
            old(self).wf(),
            cart.wf(),
            old(self).dots < 0xFFFF_FFFF_FFFF_FFFF,
        ensures
            final(self).wf(),
            final(self).dots == old(self).dots + 1,
            final(self).control == old(self).control && final(self).mask == old(self).mask,
            final(self).oam == old(self).oam && final(self).oam_addr == old(self).oam_addr,
            final(self).prev_data == old(self).prev_data,
            final(self).nt0 == old(self).nt0 && final(self).nt1 == old(self).nt1 && final(self).nt2
                == old(self).nt2 && final(self).nt3 == old(self).nt3,
            final(self).palette_ram == old(self).palette_ram,
            final(self).temp_vram_address == old(self).temp_vram_address,
            final(self).fine_x == old(self).fine_x,
            final(self).addr_latch == old(self).addr_latch,
            ({
                let s = old(self).scanline as int;
                let c = old(self).cycle as int;
                let skip = s == -1 && c == 0 && old(self).odd_frame && old(self).rendering_on_spec();
                let nxt = if skip {
                    dot_succ(s, c + 1)
                } else {
                    dot_succ(s, c)
                };
                &&& final(self).scanline == nxt.0
                &&& final(self).cycle == nxt.1
            }),
            final(self).odd_frame == (if old(self).scanline == 260 && old(self).cycle == 340 {
                !old(self).odd_frame
            } else {
                old(self).odd_frame
            }),
            ({
                let s = old(self).scanline as int;
                let c = old(self).cycle as int;
                let skip = s == -1 && c == 0 && old(self).odd_frame && old(
                    self,
                ).rendering_on_spec();
                let clears = s == -1 && (c == 1 || skip);
                &&& (clears ==> final(self).status == old(self).status & 0x3F && final(self).nmi
                    == old(self).nmi)
                &&& (s == 241 && c == 1 ==> final(self).status == (old(self).status | 0x80)
                    && final(self).nmi == bit8(old(self).control, 7))
                &&& (0 <= s <= 239 && c == 258 ==> (final(self).status == old(self).status || final(self).status == old(self).status | 0x40) && final(self).nmi == old(self).nmi)
                &&& (!clears && !(s == 241 && c == 1) && !(0 <= s <= 239 && c == 258)
                    ==> final(self).status == old(self).status && final(self).nmi == old(self).nmi)
            }),
            ({
                let s = old(self).scanline as int;
                let c = old(self).cycle as int;
                let v = old(self).vram_address;
                let t = old(self).temp_vram_address;
                let on = old(self).rendering_on_spec();
                &&& (s == -1 ==> final(self).vram_address == (if c == 257 && on {
                    copy_horiz(v, t)
                } else if 280 <= c <= 304 && on {
                    copy_vert(v, t)
                } else {
                    v as int
                }))
                &&& (0 <= s <= 239 ==> final(self).vram_address == (if !on {
                    v as int
                } else if c % 8 == 0 && c <= 256 || c == 328 || c == 336 {
                    inc_x_spec(v) as int
                } else if c == 257 {
                    copy_horiz(v, t)
                } else {
                    v as int
                }))
                &&& (s >= 240 ==> final(self).vram_address == v)
            }),
            ({
                let s = old(self).scanline as int;
                let c = old(self).cycle as int;
                &&& (0 <= s <= 239 && c == 258 ==> PPU::row_untouched(
                    old(self).pixels@,
                    final(self).pixels@,
                    s,
                ) && PPU::row_untouched_t(old(self).transparent@, final(self).transparent@, s))
                &&& (!(0 <= s <= 239 && c == 258) || !old(self).rendering_on_spec()
                    ==> PPU::same_video(*final(self), *old(self)))
            }),
    {
        if self.scanline <= 239 {
            if self.scanline == -1 && self.cycle == 0 && self.odd_frame && self.rendering_on() {
                self.cycle = 1;
            }
            if self.scanline == -1 && self.cycle == 1 {
                self.status = self.status & 0x3F;
            }
            if self.scanline == -1 && self.cycle >= 280 && self.cycle <= 304 {
                if self.rendering_on() {
                    let v = self.vram_address;
                    let t = self.temp_vram_address;
                    self.vram_address = (v % 32) + ((t / 32) % 32) * 32 + ((v / 1024) % 2) * 1024
                        + ((t / 2048) % 2) * 2048 + ((t / 4096) % 8) * 4096;
                }
            }
            if self.scanline >= 0 && self.cycle % 8 == 0 && self.cycle <= 256 {
                self.inc_scrollx();
            }
            if self.cycle == 257 {
                if self.rendering_on() {
                    let v = self.vram_address;
                    let t = self.temp_vram_address;
                    self.vram_address = (t % 32) + ((v / 32) % 32) * 32 + ((t / 1024) % 2) * 1024
                        + ((v / 2048) % 2) * 2048 + ((v / 4096) % 8) * 4096;
                }
            }
            if self.scanline >= 0 && self.cycle == 258 {
                self.render_scanline(cart);
            }
            if self.scanline >= 0 && (self.cycle == 328 || self.cycle == 336) {
                self.inc_scrollx();
            }
        } else if self.scanline == 241 && self.cycle == 1 {
            self.status = self.status | 0x80;
            self.nmi = crate::bitops::test_bit(self.control, 7);
        }
        self.dots = self.dots + 1;
        self.cycle = self.cycle + 1;
        if self.cycle == 341 {
            self.cycle = 0;
            self.scanline = self.scanline + 1;
            if self.scanline == 261 {
                self.scanline = -1;
                self.odd_frame = !self.odd_frame;
            }
        }
    }
}

/// The frame position `n` dots after `(scanline, cycle)`.
pub open spec fn dot_succ_n(scanline: int, cycle: int, n: nat) -> (int, int)
    decreases n,
{
    if n == 0 {
        (scanline, cycle)
    } else {
        let prev = dot_succ_n(scanline, cycle, (n - 1) as nat);
        dot_succ(prev.0, prev.1)
    }
}

/// A legal frame position: scanline -1 to 260, cycle 0 to 340.
pub open spec fn dot_wf(scanline: int, cycle: int) -> bool {
    -1 <= scanline <= 260 && 0 <= cycle <= 340
}

/// The serial number of a frame position, 0 to 89341.
pub open spec fn dot_index(scanline: int, cycle: int) -> int {
    (scanline + 1) * 341 + cycle
}

/// One dot advances the serial number by one, modulo the 89342 dots
/// of a frame.
proof fn lemma_dot_succ_index(scanline: int, cycle: int)
    requires
        dot_wf(scanline, cycle),
    ensures
        dot_wf(dot_succ(scanline, cycle).0, dot_succ(scanline, cycle).1),
        dot_index(dot_succ(scanline, cycle).0, dot_succ(scanline, cycle).1) == (dot_index(
            scanline,
            cycle,
        ) + 1) % 89342,
        0 <= dot_index(scanline, cycle) < 89342,
{
    assert((scanline + 1) * 341 + cycle < 89342) by (nonlinear_arith)
        requires
            -1 <= scanline <= 260 && 0 <= cycle <= 340,
    ;
    assert((scanline + 1) * 341 + cycle >= 0) by (nonlinear_arith)
        requires
            -1 <= scanline <= 260 && 0 <= cycle <= 340,
    ;
    if cycle == 340 && scanline == 260 {
        assert(dot_index(scanline, cycle) == 89341);
    } else if cycle == 340 {
        assert((scanline + 2) * 341 == (scanline + 1) * 341 + 341) by (nonlinear_arith);
    }
}

/// After `n` dots the serial number has advanced by `n`, modulo one
/// frame.
proof fn lemma_dot_index_n(scanline: int, cycle: int, n: nat)
    requires
        dot_wf(scanline, cycle),
    ensures
        dot_wf(dot_succ_n(scanline, cycle, n).0, dot_succ_n(scanline, cycle, n).1),
        dot_index(dot_succ_n(scanline, cycle, n).0, dot_succ_n(scanline, cycle, n).1) == (
        dot_index(scanline, cycle) + n) % 89342,
    decreases n,
{
    lemma_dot_succ_index(scanline, cycle);
    if n == 0 {
        assert(dot_index(scanline, cycle) % 89342 == dot_index(scanline, cycle));
    } else {
        lemma_dot_index_n(scanline, cycle, (n - 1) as nat);
        let prev = dot_succ_n(scanline, cycle, (n - 1) as nat);
        lemma_dot_succ_index(prev.0, prev.1);
        assert((dot_index(scanline, cycle) + (n - 1)) % 89342 + 1 == (dot_index(scanline, cycle)
            + (n - 1) + 1) % 89342 || ((dot_index(scanline, cycle) + (n - 1)) % 89342 == 89341
            && (dot_index(scanline, cycle) + n) % 89342 == 0)) by (nonlinear_arith);
    }
}

/// The frame period: from any legal position, 89342 dots of the
/// advance relation that `tick` steps (absent the odd-frame skip)
/// return the PPU to the same scanline and cycle.
pub proof fn lemma_frame_period(scanline: int, cycle: int)
    requires
        dot_wf(scanline, cycle),
    ensures
        dot_succ_n(scanline, cycle, 89342) == (scanline, cycle),
{
    lemma_dot_index_n(scanline, cycle, 89342);
    let fin = dot_succ_n(scanline, cycle, 89342);
    lemma_dot_succ_index(scanline, cycle);
    assert((dot_index(scanline, cycle) + 89342) % 89342 == dot_index(scanline, cycle)) by (
    nonlinear_arith)
        requires
            0 <= dot_index(scanline, cycle) < 89342,
    ;
    assert(fin.0 == scanline && fin.1 == cycle) by (nonlinear_arith)
        requires
            dot_wf(fin.0, fin.1),
            dot_wf(scanline, cycle),
            (fin.0 + 1) * 341 + fin.1 == (scanline + 1) * 341 + cycle,
    ;
}

/// Palette mirroring: each of `$3F10/$3F14/$3F18/$3F1C` selects the
/// same palette cell as the address `0x10` below it, so a write
/// through either alias is read back through the other.
pub proof fn lemma_palette_mirror(i: u16)
    requires
        i == 0x10 || i == 0x14 || i == 0x18 || i == 0x1C,
    ensures
        pal_index((0x3F00 + i) as u16) == pal_index((0x3F00 + i - 0x10) as u16),
{
}

/// The `$2006` pair: writing `hi` then `lo` through the address
/// latch leaves `v == ((hi & 0x3F) << 8) | lo`, with the latch back
/// at its first-write state.
pub proof fn lemma_ppuaddr_pair(p0: PPU, p1: PPU, p2: PPU, c: Cartridge, hi: u8, lo: u8)
    requires
        p0.wf(),
        !p0.addr_latch,
        PPU::write_reg_rel(p0, p1, c, c, 6, hi),
        PPU::write_reg_rel(p1, p2, c, c, 6, lo),
    ensures
        p2.vram_address == (((hi & 0x3F) as u16) << 8) | (lo as u16),
        !p2.addr_latch,
{
    let t1 = p1.temp_vram_address;
    let r = p0.temp_vram_address % 256;
    assert(t1 == ((hi % 64) as int) * 256 + r);
    assert((((hi % 64) as int) * 256 + r) / 256 == (hi % 64) as int) by (nonlinear_arith)
        requires
            0 <= r < 256,
    ;
    assert(p2.vram_address == ((hi % 64) as int) * 256 + lo);
    assert(((hi % 64) as u16) * 256 + (lo as u16) == ((((hi & 0x3F) as u16) << 8) | (
    lo as u16))) by (bit_vector);
}

/// The `$2005` pair then the `$2006` pair: scroll writes of `(x, y)`
/// build `t` by the published field layout, and the two zero address
/// writes that follow overwrite it, leaving `v == 0` and the latch
/// cleared; the fine X register keeps `x % 8` from the scroll write.
pub proof fn lemma_scroll_then_addr(p0: PPU, p1: PPU, p2: PPU, p3: PPU, p4: PPU, c: Cartridge, x: u8, y: u8)
    requires
        p0.wf(),
        !p0.addr_latch,
        PPU::write_reg_rel(p0, p1, c, c, 5, x),
        PPU::write_reg_rel(p1, p2, c, c, 5, y),
        PPU::write_reg_rel(p2, p3, c, c, 6, 0),
        PPU::write_reg_rel(p3, p4, c, c, 6, 0),
    ensures
        p1.temp_vram_address == (p0.temp_vram_address / 32) * 32 + x / 8,
        p1.fine_x == x % 8,
        p2.temp_vram_address == (p1.temp_vram_address % 32) + ((y / 8) as int) * 32 + ((
        p1.temp_vram_address / 1024) % 4) * 1024 + ((y % 8) as int) * 4096,
        p4.vram_address == 0,
        !p4.addr_latch,
        p4.fine_x == x % 8,
{
    assert(p3.temp_vram_address == (0int % 64) * 256 + (p2.temp_vram_address % 256));
    assert(p3.temp_vram_address < 256);
    assert(p4.vram_address == (p3.temp_vram_address / 256) * 256 + 0);
}

/// The fixed 64-entry system palette as a specification: the RGB
/// triple for each 6-bit color index, indices beyond 63 folded back
/// with the low six bits.
pub open spec fn system_palette_spec(idx: u8) -> (u8, u8, u8) {
    let i = idx % 64;
    if i < 16 {
        if i == 0 { (0x80, 0x80, 0x80) }
        else if i == 1 { (0x00, 0x3D, 0xA6) }
        else if i == 2 { (0x00, 0x12, 0xB0) }
        else if i == 3 { (0x44, 0x00, 0x96) }
        else if i == 4 { (0xA1, 0x00, 0x5E) }
        else if i == 5 { (0xC7, 0x00, 0x28) }
        else if i == 6 { (0xBA, 0x06, 0x00) }
        else if i == 7 { (0x8C, 0x17, 0x00) }
        else if i == 8 { (0x5C, 0x2F, 0x00) }
        else if i == 9 { (0x10, 0x45, 0x00) }
        else if i == 10 { (0x05, 0x4A, 0x00) }
        else if i == 11 { (0x00, 0x47, 0x2E) }
        else if i == 12 { (0x00, 0x41, 0x66) }
        else if i == 13 { (0x00, 0x00, 0x00) }
        else if i == 14 { (0x05, 0x05, 0x05) }
        else { (0x05, 0x05, 0x05) }
    } else if i < 32 {
        if i == 16 { (0xC7, 0xC7, 0xC7) }
        else if i == 17 { (0x00, 0x77, 0xFF) }
        else if i == 18 { (0x21, 0x55, 0xFF) }
        else if i == 19 { (0x82, 0x37, 0xFA) }
        else if i == 20 { (0xEB, 0x2F, 0xB5) }
        else if i == 21 { (0xFF, 0x29, 0x50) }
        else if i == 22 { (0xFF, 0x22, 0x00) }
        else if i == 23 { (0xD6, 0x32, 0x00) }
        else if i == 24 { (0xC4, 0x62, 0x00) }
        else if i == 25 { (0x35, 0x80, 0x00) }
        else if i == 26 { (0x05, 0x8F, 0x00) }
        else if i == 27 { (0x00, 0x8A, 0x55) }
        else if i == 28 { (0x00, 0x99, 0xCC) }
        else if i == 29 { (0x21, 0x21, 0x21) }
        else if i == 30 { (0x09, 0x09, 0x09) }
        else { (0x09, 0x09, 0x09) }
    } else if i < 48 {
        if i == 32 { (0xFF, 0xFF, 0xFF) }
        else if i == 33 { (0x0F, 0xD7, 0xFF) }
        else if i == 34 { (0x69, 0xA2, 0xFF) }
        else if i == 35 { (0xD4, 0x80, 0xFF) }
        else if i == 36 { (0xFF, 0x45, 0xF3) }
        else if i == 37 { (0xFF, 0x61, 0x8B) }
        else if i == 38 { (0xFF, 0x88, 0x33) }
        else if i == 39 { (0xFF, 0x9C, 0x12) }
        else if i == 40 { (0xFA, 0xBC, 0x20) }
        else if i == 41 { (0x9F, 0xE3, 0x0E) }
        else if i == 42 { (0x2B, 0xF0, 0x35) }
        else if i == 43 { (0x0C, 0xF0, 0xA4) }
        else if i == 44 { (0x05, 0xFB, 0xFF) }
        else if i == 45 { (0x5E, 0x5E, 0x5E) }
        else if i == 46 { (0x0D, 0x0D, 0x0D) }
        else { (0x0D, 0x0D, 0x0D) }
    } else {
        if i == 48 { (0xFF, 0xFF, 0xFF) }
        else if i == 49 { (0xA6, 0xFC, 0xFF) }
        else if i == 50 { (0xB3, 0xEC, 0xFF) }
        else if i == 51 { (0xDA, 0xAB, 0xEB) }
        else if i == 52 { (0xFF, 0xA8, 0xF9) }
        else if i == 53 { (0xFF, 0xAB, 0xB3) }
        else if i == 54 { (0xFF, 0xD2, 0xB0) }
        else if i == 55 { (0xFF, 0xEF, 0xA6) }
        else if i == 56 { (0xFF, 0xF7, 0x9C) }
        else if i == 57 { (0xD7, 0xE8, 0x95) }
        else if i == 58 { (0xA6, 0xED, 0xAF) }
        else if i == 59 { (0xA2, 0xF2, 0xDA) }
        else if i == 60 { (0x99, 0xFF, 0xFC) }
        else if i == 61 { (0xDD, 0xDD, 0xDD) }
        else if i == 62 { (0x11, 0x11, 0x11) }
        else { (0x11, 0x11, 0x11) }
    }
}

/// The fixed 64-entry system palette: the RGB triple displayed for a
/// 6-bit color index; indices beyond 63 fold back with the low six
/// bits.
pub fn system_palette(idx: u8) -> (r: (u8, u8, u8))
    ensures
        r == system_palette_spec(idx),
{
    let i = idx % 64;
    if i < 16 {
        if i == 0 { (0x80, 0x80, 0x80) }
        else if i == 1 { (0x00, 0x3D, 0xA6) }
        else if i == 2 { (0x00, 0x12, 0xB0) }
        else if i == 3 { (0x44, 0x00, 0x96) }
        else if i == 4 { (0xA1, 0x00, 0x5E) }
        else if i == 5 { (0xC7, 0x00, 0x28) }
        else if i == 6 { (0xBA, 0x06, 0x00) }
        else if i == 7 { (0x8C, 0x17, 0x00) }
        else if i == 8 { (0x5C, 0x2F, 0x00) }
        else if i == 9 { (0x10, 0x45, 0x00) }
        else if i == 10 { (0x05, 0x4A, 0x00) }
        else if i == 11 { (0x00, 0x47, 0x2E) }
        else if i == 12 { (0x00, 0x41, 0x66) }
        else if i == 13 { (0x00, 0x00, 0x00) }
        else if i == 14 { (0x05, 0x05, 0x05) }
        else { (0x05, 0x05, 0x05) }
    } else if i < 32 {
        if i == 16 { (0xC7, 0xC7, 0xC7) }
        else if i == 17 { (0x00, 0x77, 0xFF) }
        else if i == 18 { (0x21, 0x55, 0xFF) }
        else if i == 19 { (0x82, 0x37, 0xFA) }
        else if i == 20 { (0xEB, 0x2F, 0xB5) }
        else if i == 21 { (0xFF, 0x29, 0x50) }
        else if i == 22 { (0xFF, 0x22, 0x00) }
        else if i == 23 { (0xD6, 0x32, 0x00) }
        else if i == 24 { (0xC4, 0x62, 0x00) }
        else if i == 25 { (0x35, 0x80, 0x00) }
        else if i == 26 { (0x05, 0x8F, 0x00) }
        else if i == 27 { (0x00, 0x8A, 0x55) }
        else if i == 28 { (0x00, 0x99, 0xCC) }
        else if i == 29 { (0x21, 0x21, 0x21) }
        else if i == 30 { (0x09, 0x09, 0x09) }
        else { (0x09, 0x09, 0x09) }
    } else if i < 48 {
        if i == 32 { (0xFF, 0xFF, 0xFF) }
        else if i == 33 { (0x0F, 0xD7, 0xFF) }
        else if i == 34 { (0x69, 0xA2, 0xFF) }
        else if i == 35 { (0xD4, 0x80, 0xFF) }
        else if i == 36 { (0xFF, 0x45, 0xF3) }
        else if i == 37 { (0xFF, 0x61, 0x8B) }
        else if i == 38 { (0xFF, 0x88, 0x33) }
        else if i == 39 { (0xFF, 0x9C, 0x12) }
        else if i == 40 { (0xFA, 0xBC, 0x20) }
        else if i == 41 { (0x9F, 0xE3, 0x0E) }
        else if i == 42 { (0x2B, 0xF0, 0x35) }
        else if i == 43 { (0x0C, 0xF0, 0xA4) }
        else if i == 44 { (0x05, 0xFB, 0xFF) }
        else if i == 45 { (0x5E, 0x5E, 0x5E) }
        else if i == 46 { (0x0D, 0x0D, 0x0D) }
        else { (0x0D, 0x0D, 0x0D) }
    } else {
        if i == 48 { (0xFF, 0xFF, 0xFF) }
        else if i == 49 { (0xA6, 0xFC, 0xFF) }
        else if i == 50 { (0xB3, 0xEC, 0xFF) }
        else if i == 51 { (0xDA, 0xAB, 0xEB) }
        else if i == 52 { (0xFF, 0xA8, 0xF9) }
        else if i == 53 { (0xFF, 0xAB, 0xB3) }
        else if i == 54 { (0xFF, 0xD2, 0xB0) }
        else if i == 55 { (0xFF, 0xEF, 0xA6) }
        else if i == 56 { (0xFF, 0xF7, 0x9C) }
        else if i == 57 { (0xD7, 0xE8, 0x95) }
        else if i == 58 { (0xA6, 0xED, 0xAF) }
        else if i == 59 { (0xA2, 0xF2, 0xDA) }
        else if i == 60 { (0x99, 0xFF, 0xFC) }
        else if i == 61 { (0xDD, 0xDD, 0xDD) }
        else if i == 62 { (0x11, 0x11, 0x11) }
        else { (0x11, 0x11, 0x11) }
    }
}

} // verus!
