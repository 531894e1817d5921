//! Cartridge mappers: address translation and bank-select state.
//!
//! `Mapper0` is NROM: fixed PRG-ROM (16 or 32 KiB, the 16 KiB case
//! mirrored), 8 KiB of CHR, 8 KiB of PRG-RAM. `Mapper1` is MMC1: a
//! five-bit serial shift register feeds four internal registers that
//! select PRG and CHR banks and the nametable mirroring.

use vstd::prelude::*;

use crate::bitops::bit8;

verus! {

pub const PRG_ROM_BANK_SIZE: usize = 0x4000;

pub const CHR_ROM_BANK_SIZE: usize = 0x2000;

pub const SRAM_SIZE: usize = 0x2000;

/// How the physical nametable pages tile the four logical ones: the
/// two-page vertical and horizontal arrangements from the header, or
/// MMC1's single-screen modes, where every logical page shows one
/// physical page (the lower or the upper).
#[derive(Clone, Copy, PartialEq, Eq, Structural, Debug)]
pub enum Mirroring {
    Vertical,
    Horizontial,
    SingleScreenLower,
    SingleScreenUpper,
}

/// The PRG-RAM index a CPU access at `$6000-$7FFF` lands on.
pub open spec fn sram_index(addr: u16) -> int {
    (addr - 0x6000) % 0x2000
}

/// NROM: no bank switching at all.
pub struct Mapper0 {
    pub mirroring_type: Mirroring,
    pub prg_rom_size: usize,
    pub prg_rom: Vec<u8>,
    pub chr_rom: Vec<u8>,
    /// True when the cartridge supplies CHR-RAM instead of CHR-ROM;
    /// only then do pattern-table writes land.
    pub chr_writable: bool,
    pub sram: Vec<u8>,
}

impl Mapper0 {
    /// Well-formed: the buffers have the sizes the address math assumes.
    pub open spec fn wf(self) -> bool {
        &&& self.prg_rom.len() == self.prg_rom_size
        &&& self.prg_rom_size > 0
        &&& self.chr_rom.len() >= CHR_ROM_BANK_SIZE
        &&& self.sram.len() == SRAM_SIZE
    }

    /// The byte a CPU read returns: PRG-RAM at `$6000-$7FFF`, PRG-ROM
    /// (mirrored modulo its size) at `$8000-$FFFF`.
    pub open spec fn cpu_read_spec(self, addr: u16) -> u8 {
        if addr < 0x8000 {
            self.sram@[sram_index(addr)]
        } else {
            self.prg_rom@[(addr - 0x8000) % (self.prg_rom_size as int)]
        }
    }

    /// The byte a PPU (pattern table) read returns.
    pub open spec fn ppu_read_spec(self, addr: u16) -> u8 {
        self.chr_rom@[addr as int]
    }

    pub fn new(mirroring_type: Mirroring, prg_rom_size: usize, prg_rom: Vec<u8>, chr_rom: Vec<u8>, chr_writable: bool) -> (r: Mapper0)
        requires
            prg_rom.len() == prg_rom_size,
            prg_rom_size > 0,
            chr_rom.len() >= CHR_ROM_BANK_SIZE,
        ensures
            r.wf(),
            r.mirroring_type == mirroring_type,
            r.prg_rom == prg_rom,
            r.chr_rom == chr_rom,
            r.chr_writable == chr_writable,
            r.sram@ == Seq::<u8>::new(SRAM_SIZE as nat, |i: int| 0u8),
    {
        Mapper0 { mirroring_type, prg_rom_size, prg_rom, chr_rom, chr_writable, sram: zero_bytes(SRAM_SIZE) }
    }

    pub fn reset(&mut self)
        ensures
            *final(self) == *old(self),
    {
    }

    pub fn cpu_read_byte(&self, addr: u16) -> (r: u8)
        requires
            self.wf(),
            0x6000 <= addr,
        ensures
            r == self.cpu_read_spec(addr),
    {
        if addr < 0x8000 {
            self.sram[((addr - 0x6000) as usize) % SRAM_SIZE]
        } else {
            self.prg_rom[((addr - 0x8000) as usize) % self.prg_rom_size]
        }
    }

    /// PRG-RAM accepts the byte; PRG-ROM drops it.
    pub fn cpu_write_byte(&mut self, addr: u16, data: u8)
        requires
            old(self).wf(),
            0x6000 <= addr,
        ensures
            final(self).wf(),
            addr < 0x8000 ==> final(self).sram@ == old(self).sram@.update(sram_index(addr), data),
            addr >= 0x8000 ==> final(self).sram == old(self).sram,
            final(self).mirroring_type == old(self).mirroring_type,
            final(self).prg_rom == old(self).prg_rom,
            final(self).chr_rom == old(self).chr_rom,
            final(self).chr_writable == old(self).chr_writable,
            final(self).prg_rom_size == old(self).prg_rom_size,
    {
        if addr < 0x8000 {
            let idx = ((addr - 0x6000) as usize) % SRAM_SIZE;
            self.sram[idx] = data;
        }
    }

    pub fn ppu_read_byte(&self, addr: u16) -> (r: u8)
        requires
            self.wf(),
            addr < 0x2000,
        ensures
            r == self.ppu_read_spec(addr),
    {
        self.chr_rom[addr as usize]
    }

    /// Lands only when the cartridge has CHR-RAM.
    pub fn ppu_write_byte(&mut self, addr: u16, data: u8)
        requires
            old(self).wf(),
            addr < 0x2000,
        ensures
            final(self).wf(),
            old(self).chr_writable ==> final(self).chr_rom@ == old(self).chr_rom@.update(
                addr as int,
                data,
            ),
            !old(self).chr_writable ==> final(self).chr_rom == old(self).chr_rom,
            final(self).mirroring_type == old(self).mirroring_type,
            final(self).prg_rom == old(self).prg_rom,
            final(self).sram == old(self).sram,
            final(self).chr_writable == old(self).chr_writable,
            final(self).prg_rom_size == old(self).prg_rom_size,
    {
        if self.chr_writable {
            self.chr_rom[addr as usize] = data;
        }
    }

    pub fn mirroring(&self) -> (r: Mirroring)
        ensures
            r == self.mirroring_type,
    {
        self.mirroring_type
    }
}

/// A fresh all-zero byte buffer of the given length.
pub fn zero_bytes(n: usize) -> (r: Vec<u8>)
    ensures
        r@ == Seq::<u8>::new(n as nat, |i: int| 0u8),
{
    let mut v: Vec<u8> = Vec::new();
    let mut i: usize = 0;
    while i < n
        invariant
            i <= n,
            v@ == Seq::<u8>::new(i as nat, |j: int| 0u8),
        decreases n - i,
    {
        v.push(0);
        proof {
            assert(v@ =~= Seq::<u8>::new((i + 1) as nat, |j: int| 0u8));
        }
        i = i + 1;
    }
    v
}

/// The shift register after one serial write: it moves right one place
/// and bit 0 of the written byte enters at bit 4.
pub open spec fn mmc1_shift(sr: u8, data: u8) -> u8 {
    (sr >> 1) | (if data & 1 == 1 {
        0x10u8
    } else {
        0u8
    })
}

/// The MMC1 register file, the part of the mapper that serial writes
/// steer; bank contents stay outside.
pub struct Mmc1Regs {
    pub mirroring_type: Mirroring,
    pub prg_rom_banks: usize,
    pub shift_register: u8,
    pub control_register: u8,
    pub chr_bank_select_lo: usize,
    pub chr_bank_select_hi: usize,
    pub chr_bank_select: usize,
    pub prg_bank_select_lo: usize,
    pub prg_bank_select_hi: usize,
    pub prg_bank_select: usize,
}

/// The register file after a full shift register `value` commits to the
/// internal register addressed by `addr`.
pub open spec fn mmc1_commit(r: Mmc1Regs, addr: u16, value: u8) -> Mmc1Regs {
    if addr < 0xA000 {
        Mmc1Regs {
            mirroring_type: if value & 3 == 0 {
                Mirroring::SingleScreenLower
            } else if value & 3 == 1 {
                Mirroring::SingleScreenUpper
            } else if value & 3 == 2 {
                Mirroring::Vertical
            } else {
                Mirroring::Horizontial
            },
            control_register: value,
            ..r
        }
    } else if addr < 0xC000 {
        if !bit8(r.control_register, 4) {
            Mmc1Regs { chr_bank_select: (value & 0x1E) as usize, ..r }
        } else {
            Mmc1Regs { chr_bank_select_lo: value as usize, ..r }
        }
    } else if addr < 0xE000 {
        if bit8(r.control_register, 4) {
            Mmc1Regs { chr_bank_select_hi: value as usize, ..r }
        } else {
            r
        }
    } else {
        let mode = (r.control_register >> 2) & 3;
        if mode < 2 {
            Mmc1Regs { prg_bank_select: ((value & 0x0E) >> 1) as usize, ..r }
        } else if mode == 2 {
            Mmc1Regs { prg_bank_select_lo: 0, prg_bank_select_hi: (value & 0x0F) as usize, ..r }
        } else {
            Mmc1Regs {
                prg_bank_select_hi: (r.prg_rom_banks - 1) as usize,
                prg_bank_select_lo: (value & 0x0F) as usize,
                ..r
            }
        }
    }
}

/// The register file after one CPU write to `$8000-$FFFF`: bit 7 high
/// resets the serial register and locks the last PRG bank at `$C000`;
/// otherwise one bit shifts in, and the write whose shift brings the
/// sentinel to bit 0 commits the shifted value.
pub open spec fn mmc1_serial_write(r: Mmc1Regs, addr: u16, data: u8) -> Mmc1Regs {
    if bit8(data, 7) {
        Mmc1Regs {
            shift_register: 0x10,
            control_register: r.control_register | 0x0C,
            prg_bank_select_hi: (r.prg_rom_banks - 1) as usize,
            ..r
        }
    } else {
        let shifted = mmc1_shift(r.shift_register, data);
        if bit8(r.shift_register, 0) {
            Mmc1Regs { shift_register: 0x10, ..mmc1_commit(r, addr, shifted) }
        } else {
            Mmc1Regs { shift_register: shifted, ..r }
        }
    }
}

/// MMC1: serial shift register, control register, PRG/CHR bank selects.
pub struct Mapper1 {
    pub mirroring_type: Mirroring,
    pub prg_rom_banks: usize,
    pub chr_rom_banks: usize,
    pub prg_rom: Vec<u8>,
    pub chr_rom: Vec<u8>,
    pub sram: Vec<u8>,
    /// Five-bit serial register; `0x10` is the empty-with-sentinel state.
    pub shift_register: u8,
    /// Five bits: mirroring (0-1), PRG bank mode (2-3), CHR 4K mode (4).
    pub control_register: u8,
    /// CHR bank for `$0000-$0FFF` in 4 KiB mode.
    pub chr_bank_select_lo: usize,
    /// CHR bank for `$1000-$1FFF` in 4 KiB mode.
    pub chr_bank_select_hi: usize,
    /// CHR bank in 8 KiB mode.
    pub chr_bank_select: usize,
    /// PRG bank for `$8000-$BFFF` in 16 KiB modes.
    pub prg_bank_select_lo: usize,
    /// PRG bank for `$C000-$FFFF` in 16 KiB modes.
    pub prg_bank_select_hi: usize,
    /// PRG bank in 32 KiB mode.
    pub prg_bank_select: usize,
}

impl Mapper1 {
    /// Well-formed: buffer sizes match the bank counts, and the serial
    /// and control registers hold at most five bits.
    pub open spec fn wf(self) -> bool {
        &&& self.prg_rom_banks > 0
        &&& self.prg_rom.len() == self.prg_rom_banks * PRG_ROM_BANK_SIZE
        &&& self.chr_rom.len() == (if self.chr_rom_banks == 0 {
            CHR_ROM_BANK_SIZE as int
        } else {
            self.chr_rom_banks * CHR_ROM_BANK_SIZE
        })
        &&& self.sram.len() == SRAM_SIZE
        &&& self.shift_register < 32
        &&& self.control_register < 32
        &&& self.prg_rom_banks <= 255
        &&& self.chr_rom_banks <= 255
        &&& self.chr_bank_select_lo < 32
        &&& self.chr_bank_select_hi < 32
        &&& self.chr_bank_select < 32
        &&& self.prg_bank_select < 8
        &&& self.prg_bank_select_lo < 16
        &&& self.prg_bank_select_hi < 256
    }

    /// The register-file abstraction of this mapper.
    pub open spec fn regs(self) -> Mmc1Regs {
        Mmc1Regs {
            mirroring_type: self.mirroring_type,
            prg_rom_banks: self.prg_rom_banks,
            shift_register: self.shift_register,
            control_register: self.control_register,
            chr_bank_select_lo: self.chr_bank_select_lo,
            chr_bank_select_hi: self.chr_bank_select_hi,
            chr_bank_select: self.chr_bank_select,
            prg_bank_select_lo: self.prg_bank_select_lo,
            prg_bank_select_hi: self.prg_bank_select_hi,
            prg_bank_select: self.prg_bank_select,
        }
    }

    /// The PRG bank mode held in control register bits 2-3.
    pub open spec fn prg_mode(self) -> u8 {
        (self.control_register >> 2) & 3
    }

    /// The byte a CPU read returns, after bank translation. Bank
    /// selects address the PRG-ROM modulo its size, which keeps every
    /// access in range whatever was committed.
    pub open spec fn cpu_read_spec(self, addr: u16) -> u8 {
        if addr < 0x8000 {
            self.sram@[sram_index(addr)]
        } else if self.prg_mode() < 2 {
            self.prg_rom@[(self.prg_bank_select * 0x8000 + (addr - 0x8000)) % (
            self.prg_rom.len() as int)]
        } else if addr < 0xC000 {
            self.prg_rom@[(self.prg_bank_select_lo * 0x4000 + ((addr - 0x8000) % 0x4000)) % (
            self.prg_rom.len() as int)]
        } else {
            self.prg_rom@[(self.prg_bank_select_hi * 0x4000 + ((addr - 0x8000) % 0x4000)) % (
            self.prg_rom.len() as int)]
        }
    }

    /// The byte a PPU read returns: straight CHR-RAM when the cartridge
    /// has no CHR-ROM banks, else through the 4 or 8 KiB bank selects.
    pub open spec fn ppu_read_spec(self, addr: u16) -> u8 {
        if self.chr_rom_banks == 0 {
            self.chr_rom@[addr as int]
        } else if bit8(self.control_register, 4) {
            if addr < 0x1000 {
                self.chr_rom@[(self.chr_bank_select_lo * 0x1000 + addr) % (
                self.chr_rom.len() as int)]
            } else {
                self.chr_rom@[(self.chr_bank_select_hi * 0x1000 + (addr - 0x1000)) % (
                self.chr_rom.len() as int)]
            }
        } else {
            self.chr_rom@[(self.chr_bank_select * 0x2000 + addr) % (self.chr_rom.len() as int)]
        }
    }

    /// Everything except the register file and PRG-RAM is unchanged.
    pub open spec fn same_roms(self, other: Mapper1) -> bool {
        &&& self.prg_rom_banks == other.prg_rom_banks
        &&& self.chr_rom_banks == other.chr_rom_banks
        &&& self.prg_rom == other.prg_rom
        &&& self.chr_rom == other.chr_rom
    }

    pub fn new(mirroring_type: Mirroring, prg_rom_banks: usize, chr_rom_banks: usize, prg_rom: Vec<u8>, chr_rom: Vec<u8>) -> (r: Mapper1)
        requires
            prg_rom_banks > 0,
            prg_rom_banks <= 255,
            chr_rom_banks <= 255,
            prg_rom.len() == prg_rom_banks * PRG_ROM_BANK_SIZE,
            chr_rom.len() == (if chr_rom_banks == 0 {
                CHR_ROM_BANK_SIZE as int
            } else {
                chr_rom_banks * CHR_ROM_BANK_SIZE
            }),
        ensures
            r.wf(),
            r.mirroring_type == mirroring_type,
            r.prg_rom_banks == prg_rom_banks,
            r.chr_rom_banks == chr_rom_banks,
            r.prg_rom == prg_rom,
            r.chr_rom == chr_rom,
            r.shift_register == 0x10,
            r.control_register == 0x1C,
            r.prg_bank_select_lo == 0,
            r.prg_bank_select_hi == prg_rom_banks - 1,
            r.prg_bank_select == 0,
            r.chr_bank_select_lo == 0,
            r.chr_bank_select_hi == 0,
            r.chr_bank_select == 0,
            r.sram@ == Seq::<u8>::new(SRAM_SIZE as nat, |i: int| 0u8),
    {
        Mapper1 {
            mirroring_type,
            prg_rom_banks,
            chr_rom_banks,
            prg_rom,
            chr_rom,
            sram: zero_bytes(SRAM_SIZE),
            shift_register: 0x10,
            control_register: 0x1C,
            chr_bank_select_lo: 0,
            chr_bank_select_hi: 0,
            chr_bank_select: 0,
            prg_bank_select_lo: 0,
            prg_bank_select_hi: prg_rom_banks - 1,
            prg_bank_select: 0,
        }
    }

    /// Restores architectural state: serial register empty with the
    /// sentinel, control `0x1C` (last PRG bank fixed at `$C000`).
    pub fn reset(&mut self)
        requires
            old(self).wf(),
        ensures
            final(self).wf(),
            final(self).same_roms(*old(self)),
            final(self).sram == old(self).sram,
            final(self).mirroring_type == old(self).mirroring_type,
            final(self).shift_register == 0x10,
            final(self).control_register == 0x1C,
            final(self).chr_bank_select_lo == 0,
            final(self).chr_bank_select_hi == 0,
            final(self).chr_bank_select == 0,
            final(self).prg_bank_select_lo == 0,
            final(self).prg_bank_select_hi == old(self).prg_rom_banks - 1,
            final(self).prg_bank_select == 0,
    {
        self.shift_register = 0x10;
        self.control_register = 0x1C;
        self.chr_bank_select_lo = 0;
        self.chr_bank_select_hi = 0;
        self.chr_bank_select = 0;
        self.prg_bank_select_lo = 0;
        self.prg_bank_select_hi = self.prg_rom_banks - 1;
        self.prg_bank_select = 0;
    }

    /// Commits the filled shift register to the internal register
    /// addressed by the write.
    fn modify_registers(&mut self, addr: u16, value: u8)
        requires
            old(self).wf(),
            0x8000 <= addr,
            value < 32,
        ensures
            final(self).wf(),
            final(self).regs() == mmc1_commit(old(self).regs(), addr, value),
            final(self).same_roms(*old(self)),
            final(self).sram == old(self).sram,
    {
        proof {
            assert((value & 0x1E) < 32 && (value & 0x0F) < 16 && ((value & 0x0E) >> 1) < 8)
                by (bit_vector);
        }
        if addr < 0xA000 {
            let mode = value & 3;
            if mode == 0 {
                self.mirroring_type = Mirroring::SingleScreenLower;
            } else if mode == 1 {
                self.mirroring_type = Mirroring::SingleScreenUpper;
            } else if mode == 2 {
                self.mirroring_type = Mirroring::Vertical;
            } else {
                self.mirroring_type = Mirroring::Horizontial;
            }
            self.control_register = value;
        } else if addr < 0xC000 {
            if !crate::bitops::test_bit(self.control_register, 4) {
                self.chr_bank_select = (value & 0x1E) as usize;
            } else {
                self.chr_bank_select_lo = value as usize;
            }
        } else if addr < 0xE000 {
            if crate::bitops::test_bit(self.control_register, 4) {
                self.chr_bank_select_hi = value as usize;
            }
        } else {
            let mode = (self.control_register >> 2) & 3;
            if mode < 2 {
                self.prg_bank_select = ((value & 0x0E) >> 1) as usize;
            } else if mode == 2 {
                self.prg_bank_select_lo = 0;
                self.prg_bank_select_hi = (value & 0x0F) as usize;
            } else {
                self.prg_bank_select_hi = self.prg_rom_banks - 1;
                self.prg_bank_select_lo = (value & 0x0F) as usize;
            }
        }
    }

    pub fn cpu_read_byte(&self, addr: u16) -> (r: u8)
        requires
            self.wf(),
            0x6000 <= addr,
        ensures
            r == self.cpu_read_spec(addr),
    {
        if addr < 0x8000 {
            self.sram[((addr - 0x6000) as usize) % SRAM_SIZE]
        } else {
            let mode = (self.control_register >> 2) & 3;
            if mode < 2 {
                self.prg_rom[(self.prg_bank_select * 0x8000 + ((addr - 0x8000) as usize))
                    % self.prg_rom.len()]
            } else if addr < 0xC000 {
                self.prg_rom[(self.prg_bank_select_lo * 0x4000 + ((addr - 0x8000) as usize) % 0x4000)
                    % self.prg_rom.len()]
            } else {
                self.prg_rom[(self.prg_bank_select_hi * 0x4000 + ((addr - 0x8000) as usize) % 0x4000)
                    % self.prg_rom.len()]
            }
        }
    }

    /// PRG-RAM at `$6000-$7FFF`; at `$8000-$FFFF` the byte enters the
    /// serial shift protocol.
    pub fn cpu_write_byte(&mut self, addr: u16, data: u8)
        requires
            old(self).wf(),
            0x6000 <= addr,
        ensures
            final(self).wf(),
            addr < 0x8000 ==> {
                &&& final(self).sram@ == old(self).sram@.update(sram_index(addr), data)
                &&& final(self).regs() == old(self).regs()
            },
            addr >= 0x8000 ==> {
                &&& final(self).sram == old(self).sram
                &&& final(self).regs() == mmc1_serial_write(old(self).regs(), addr, data)
            },
            final(self).same_roms(*old(self)),
    {
        if addr < 0x8000 {
            let idx = ((addr - 0x6000) as usize) % SRAM_SIZE;
            self.sram[idx] = data;
        } else if crate::bitops::test_bit(data, 7) {
            proof {
                let cr = old(self).control_register;
                assert(cr | 0x0C < 32) by (bit_vector)
                    requires
                        cr < 32,
                ;
            }
            self.shift_register = 0x10;
            self.control_register = self.control_register | 0x0C;
            self.prg_bank_select_hi = self.prg_rom_banks - 1;
        } else {
            proof {
                let sr = old(self).shift_register;
                assert(mmc1_shift(sr, data) < 32) by (bit_vector)
                    requires
                        sr < 32,
                ;
            }
            let is_full = crate::bitops::test_bit(self.shift_register, 0);
            let shifted = (self.shift_register >> 1) | (if data & 1 == 1 {
                0x10u8
            } else {
                0u8
            });
            if is_full {
                self.modify_registers(addr, shifted);
                self.shift_register = 0x10;
            } else {
                self.shift_register = shifted;
            }
        }
    }

    pub fn ppu_read_byte(&self, addr: u16) -> (r: u8)
        requires
            self.wf(),
            addr < 0x2000,
        ensures
            r == self.ppu_read_spec(addr),
    {
        if self.chr_rom_banks == 0 {
            self.chr_rom[addr as usize]
        } else if crate::bitops::test_bit(self.control_register, 4) {
            if addr < 0x1000 {
                self.chr_rom[(self.chr_bank_select_lo * 0x1000 + (addr as usize))
                    % self.chr_rom.len()]
            } else {
                self.chr_rom[(self.chr_bank_select_hi * 0x1000 + ((addr - 0x1000) as usize))
                    % self.chr_rom.len()]
            }
        } else {
            self.chr_rom[(self.chr_bank_select * 0x2000 + (addr as usize)) % self.chr_rom.len()]
        }
    }

    /// Lands only when the cartridge has CHR-RAM.
    pub fn ppu_write_byte(&mut self, addr: u16, data: u8)
        requires
            old(self).wf(),
            addr < 0x2000,
        ensures
            final(self).wf(),
            old(self).chr_rom_banks == 0 ==> final(self).chr_rom@ == old(self).chr_rom@.update(
                addr as int,
                data,
            ),
            old(self).chr_rom_banks != 0 ==> final(self).chr_rom == old(self).chr_rom,
            final(self).regs() == old(self).regs(),
            final(self).sram == old(self).sram,
            final(self).prg_rom == old(self).prg_rom,
            final(self).chr_rom_banks == old(self).chr_rom_banks,
    {
        if self.chr_rom_banks == 0 {
            self.chr_rom[addr as usize] = data;
        }
    }

    pub fn mirroring(&self) -> (r: Mirroring)
        ensures
            r == self.mirroring_type,
    {
        self.mirroring_type
    }
}

/// One cartridge holds one of the supported mappers.
pub enum MapperKind {
    Nrom(Mapper0),
    Mmc1(Mapper1),
}

/// The serial protocol law: starting from the empty-with-sentinel
/// register, five writes to `$8000-$FFFF` with bit 7 low leave the
/// bank and control registers untouched through the first four, and
/// the fifth commits the LSB-first concatenation of the five data
/// bits 0 to the register addressed by the fifth write.
pub proof fn lemma_mmc1_five_writes(r: Mmc1Regs, a1: u16, a2: u16, a3: u16, a4: u16, a5: u16, d1: u8, d2: u8, d3: u8, d4: u8, d5: u8)
    requires
        r.shift_register == 0x10,
        !bit8(d1, 7),
        !bit8(d2, 7),
        !bit8(d3, 7),
        !bit8(d4, 7),
        !bit8(d5, 7),
    ensures
        ({
            let r4 = mmc1_serial_write(
                mmc1_serial_write(mmc1_serial_write(mmc1_serial_write(r, a1, d1), a2, d2), a3, d3),
                a4,
                d4,
            );
            let committed = (d1 & 1) | ((d2 & 1) << 1) | ((d3 & 1) << 2) | ((d4 & 1) << 3) | ((d5
                & 1) << 4);
            &&& r4 == (Mmc1Regs { shift_register: r4.shift_register, ..r })
            &&& mmc1_serial_write(r4, a5, d5) == (Mmc1Regs {
                shift_register: 0x10,
                ..mmc1_commit(r, a5, committed)
            })
        }),
{
    assert({
        &&& !bit8(0x10u8, 0)
        &&& !bit8(mmc1_shift(0x10u8, d1), 0)
        &&& !bit8(mmc1_shift(mmc1_shift(0x10u8, d1), d2), 0)
        &&& !bit8(mmc1_shift(mmc1_shift(mmc1_shift(0x10u8, d1), d2), d3), 0)
        &&& bit8(mmc1_shift(mmc1_shift(mmc1_shift(mmc1_shift(0x10u8, d1), d2), d3), d4), 0)
        &&& mmc1_shift(mmc1_shift(mmc1_shift(mmc1_shift(mmc1_shift(0x10u8, d1), d2), d3), d4), d5)
            == (d1 & 1) | ((d2 & 1) << 1) | ((d3 & 1) << 2) | ((d4 & 1) << 3) | ((d5 & 1) << 4)
    }) by (bit_vector);
}

} // verus!
