//! The cartridge: iNES image parsing and bus forwarding.
//!
//! A 16-byte header names the PRG-ROM and CHR-ROM sizes, the mapper
//! and the nametable mirroring; an optional 512-byte trainer precedes
//! the PRG data. Parsing instantiates NROM or MMC1 and rejects
//! anything else; the live cartridge forwards PPU accesses below
//! `$2000` and CPU accesses above `$4020` to its mapper.

use vstd::prelude::*;

use crate::bitops::bit8;
use crate::mapper::{
    zero_bytes, MapperKind, Mapper0, Mapper1, Mirroring, CHR_ROM_BANK_SIZE, PRG_ROM_BANK_SIZE,
};

verus! {

pub const EXPANSION_AREA_SIZE: usize = 0x1FE0;

/// Why a ROM image was rejected; the emulator keeps its previous
/// cartridge when loading fails.
#[derive(Clone, Copy, PartialEq, Eq, Structural, Debug)]
pub enum RomError {
    /// Shorter than its header promises.
    Truncated,
    /// The four magic bytes `4E 45 53 1A` are missing.
    BadMagic,
    /// Byte 7 flags the NES 2.0 extension.
    Nes2Unsupported,
    /// A PRG-ROM size of zero banks.
    NoPrgRom,
    /// A mapper other than NROM (0) or MMC1 (1); carries the number.
    UnsupportedMapper(u8),
}

/// The header's PRG-ROM size in 16 KiB banks.
pub open spec fn rom_prg_banks(rom: Seq<u8>) -> int {
    rom[4] as int
}

/// The header's CHR-ROM size in 8 KiB banks; zero means 8 KiB CHR-RAM.
pub open spec fn rom_chr_banks(rom: Seq<u8>) -> int {
    rom[5] as int
}

/// True when a 512-byte trainer sits between header and PRG data.
pub open spec fn rom_has_trainer(rom: Seq<u8>) -> bool {
    bit8(rom[6], 2)
}

/// Where the PRG-ROM data begins in the image.
pub open spec fn rom_prg_start(rom: Seq<u8>) -> int {
    16 + if rom_has_trainer(rom) {
        512int
    } else {
        0int
    }
}

/// The mapper number, low nibble from byte 6, high nibble from byte 7.
pub open spec fn rom_mapper_type(rom: Seq<u8>) -> u8 {
    (rom[6] >> 4) | (rom[7] & 0xF0)
}

/// The fixed mirroring the header requests.
pub open spec fn rom_mirroring(rom: Seq<u8>) -> Mirroring {
    if bit8(rom[6], 0) {
        Mirroring::Vertical
    } else {
        Mirroring::Horizontial
    }
}

/// True when the image holds the four magic bytes.
pub open spec fn rom_magic_ok(rom: Seq<u8>) -> bool {
    rom[0] == 0x4Eu8 && rom[1] == 0x45u8 && rom[2] == 0x53u8 && rom[3] == 0x1Au8
}

/// True when byte 7 carries the NES 2.0 indicator bits.
pub open spec fn rom_is_nes2(rom: Seq<u8>) -> bool {
    (rom[7] >> 2) & 3 != 0
}

/// True when the image is long enough for the data the header promises.
pub open spec fn rom_data_fits(rom: Seq<u8>) -> bool {
    rom.len() >= rom_prg_start(rom) + rom_prg_banks(rom) * PRG_ROM_BANK_SIZE + if rom_chr_banks(rom)
        == 0 {
        0int
    } else {
        rom_chr_banks(rom) * CHR_ROM_BANK_SIZE
    }
}

/// True when parsing accepts the image.
pub open spec fn parse_ok(rom: Seq<u8>) -> bool {
    &&& rom.len() >= 16
    &&& rom_magic_ok(rom)
    &&& !rom_is_nes2(rom)
    &&& rom_prg_banks(rom) > 0
    &&& rom_data_fits(rom)
    &&& (rom_mapper_type(rom) == 0 || rom_mapper_type(rom) == 1)
}

/// The error parsing reports when it rejects the image; the checks run
/// in this order.
pub open spec fn parse_err(rom: Seq<u8>) -> RomError {
    if rom.len() < 16 {
        RomError::Truncated
    } else if !rom_magic_ok(rom) {
        RomError::BadMagic
    } else if rom_is_nes2(rom) {
        RomError::Nes2Unsupported
    } else if rom_prg_banks(rom) == 0 {
        RomError::NoPrgRom
    } else if !rom_data_fits(rom) {
        RomError::Truncated
    } else {
        RomError::UnsupportedMapper(rom_mapper_type(rom))
    }
}

/// The PRG-ROM bytes of the image.
pub open spec fn rom_prg_data(rom: Seq<u8>) -> Seq<u8> {
    rom.subrange(rom_prg_start(rom), rom_prg_start(rom) + rom_prg_banks(rom) * PRG_ROM_BANK_SIZE)
}

/// The CHR bytes the mapper starts with: the image's CHR-ROM, or 8 KiB
/// of zeroed CHR-RAM when the header asks for none.
pub open spec fn rom_chr_data(rom: Seq<u8>) -> Seq<u8> {
    if rom_chr_banks(rom) == 0 {
        Seq::<u8>::new(CHR_ROM_BANK_SIZE as nat, |i: int| 0u8)
    } else {
        let chr_start = rom_prg_start(rom) + rom_prg_banks(rom) * PRG_ROM_BANK_SIZE;
        rom.subrange(chr_start, chr_start + rom_chr_banks(rom) * CHR_ROM_BANK_SIZE)
    }
}

/// The mapper that parsing an accepted image produces.
pub open spec fn mapper_matches_rom(k: MapperKind, rom: Seq<u8>) -> bool {
    match k {
        MapperKind::Nrom(m) => {
            &&& rom_mapper_type(rom) == 0
            &&& m.wf()
            &&& m.mirroring_type == rom_mirroring(rom)
            &&& m.prg_rom@ == rom_prg_data(rom)
            &&& m.chr_rom@ == rom_chr_data(rom)
            &&& m.chr_writable == (rom_chr_banks(rom) == 0)
            &&& m.sram@ == Seq::<u8>::new(crate::mapper::SRAM_SIZE as nat, |i: int| 0u8)
        },
        MapperKind::Mmc1(m) => {
            &&& rom_mapper_type(rom) == 1
            &&& m.wf()
            &&& m.mirroring_type == rom_mirroring(rom)
            &&& m.prg_rom_banks == rom_prg_banks(rom)
            &&& m.chr_rom_banks == rom_chr_banks(rom)
            &&& m.prg_rom@ == rom_prg_data(rom)
            &&& m.chr_rom@ == rom_chr_data(rom)
            &&& m.shift_register == 0x10
            &&& m.control_register == 0x1C
        },
    }
}

/// A copy of `src[start .. start + len]`.
fn copy_range(src: &Vec<u8>, start: usize, len: usize) -> (r: Vec<u8>)
    requires
        start + len <= src.len(),
    ensures
        r@ == src@.subrange(start as int, start + len),
{
    let mut v: Vec<u8> = Vec::new();
    let mut i: usize = 0;
    while i < len
        invariant
            i <= len,
            start + len <= src.len(),
            v@ == src@.subrange(start as int, start + i),
        decreases len - i,
    {
        v.push(src[start + i]);
        proof {
            assert(v@ =~= src@.subrange(start as int, start + i + 1));
        }
        i = i + 1;
    }
    v
}

pub struct Cartridge {
    pub mapper: MapperKind,
    /// `$4020-$5FFF`, open cartridge expansion space.
    pub expansion_area: Vec<u8>,
}

impl Cartridge {
    /// Well-formed: the mapper is, and the expansion area has its size.
    pub open spec fn wf(self) -> bool {
        &&& match self.mapper {
            MapperKind::Nrom(m) => m.wf(),
            MapperKind::Mmc1(m) => m.wf(),
        }
        &&& self.expansion_area.len() == EXPANSION_AREA_SIZE
    }

    /// The byte a read returns: pattern data below `$2000` (the PPU
    /// side), expansion RAM at `$4020-$5FFF`, the mapper's CPU space
    /// from `$6000` up.
    pub open spec fn read_spec(self, addr: u16) -> u8 {
        if addr < 0x2000 {
            match self.mapper {
                MapperKind::Nrom(m) => m.ppu_read_spec(addr),
                MapperKind::Mmc1(m) => m.ppu_read_spec(addr),
            }
        } else if addr < 0x6000 {
            self.expansion_area@[addr - 0x4020]
        } else {
            match self.mapper {
                MapperKind::Nrom(m) => m.cpu_read_spec(addr),
                MapperKind::Mmc1(m) => m.cpu_read_spec(addr),
            }
        }
    }

    /// Parses an iNES image into a mapper. The checks run in order:
    /// length, magic, NES 2.0 flag, a PRG bank count of zero, data
    /// length, mapper number.
    pub fn parse_metadata(rom: &Vec<u8>) -> (r: Result<MapperKind, RomError>)
        ensures
            parse_ok(rom@) <==> r is Ok,
            r matches Ok(k) ==> mapper_matches_rom(k, rom@),
            r matches Err(e) ==> e == parse_err(rom@),
    {
        if rom.len() < 16 {
            return Err(RomError::Truncated);
        }
        if !(rom[0] == 0x4E && rom[1] == 0x45 && rom[2] == 0x53 && rom[3] == 0x1A) {
            return Err(RomError::BadMagic);
        }
        if (rom[7] >> 2) & 3 != 0 {
            return Err(RomError::Nes2Unsupported);
        }
        let prg_rom_banks = rom[4] as usize;
        let chr_rom_banks = rom[5] as usize;
        if prg_rom_banks == 0 {
            return Err(RomError::NoPrgRom);
        }
        let use_chr_ram = chr_rom_banks == 0;
        let prg_rom_size = prg_rom_banks * PRG_ROM_BANK_SIZE;
        let chr_rom_size = if use_chr_ram {
            CHR_ROM_BANK_SIZE
        } else {
            chr_rom_banks * CHR_ROM_BANK_SIZE
        };
        let trainer_exists = crate::bitops::test_bit(rom[6], 2);
        let prg_rom_start = 16 + if trainer_exists {
            512usize
        } else {
            0usize
        };
        let chr_rom_start = prg_rom_start + prg_rom_size;
        if rom.len() < chr_rom_start || (!use_chr_ram && rom.len() < chr_rom_start + chr_rom_size) {
            return Err(RomError::Truncated);
        }
        let mirroring_type = if crate::bitops::test_bit(rom[6], 0) {
            Mirroring::Vertical
        } else {
            Mirroring::Horizontial
        };
        let prg_rom = copy_range(rom, prg_rom_start, prg_rom_size);
        let chr_rom = if use_chr_ram {
            zero_bytes(CHR_ROM_BANK_SIZE)
        } else {
            copy_range(rom, chr_rom_start, chr_rom_size)
        };
        let mapper_type = (rom[6] >> 4) | (rom[7] & 0xF0);
        if mapper_type == 0 {
            Ok(
                MapperKind::Nrom(
                    Mapper0::new(mirroring_type, prg_rom_size, prg_rom, chr_rom, use_chr_ram),
                ),
            )
        } else if mapper_type == 1 {
            Ok(
                MapperKind::Mmc1(
                    Mapper1::new(mirroring_type, prg_rom_banks, chr_rom_banks, prg_rom, chr_rom),
                ),
            )
        } else {
            Err(RomError::UnsupportedMapper(mapper_type))
        }
    }

    /// A cartridge parsed from an iNES image, with a fresh expansion
    /// area.
    pub fn new(rom: &Vec<u8>) -> (r: Result<Cartridge, RomError>)
        ensures
            parse_ok(rom@) <==> r is Ok,
            r matches Ok(c) ==> {
                &&& c.wf()
                &&& mapper_matches_rom(c.mapper, rom@)
                &&& c.expansion_area@ == Seq::<u8>::new(EXPANSION_AREA_SIZE as nat, |i: int| 0u8)
            },
            r matches Err(e) ==> e == parse_err(rom@),
    {
        match Self::parse_metadata(rom) {
            Ok(mapper) => Ok(
                Cartridge { mapper, expansion_area: zero_bytes(EXPANSION_AREA_SIZE) },
            ),
            Err(e) => Err(e),
        }
    }

    /// Replaces the mapper from a new image; on a bad image the
    /// cartridge is untouched and the error says why.
    pub fn load(&mut self, rom: &Vec<u8>) -> (r: Result<(), RomError>)
        ensures
            parse_ok(rom@) <==> r is Ok,
            r is Ok ==> {
                &&& mapper_matches_rom(final(self).mapper, rom@)
                &&& final(self).expansion_area == old(self).expansion_area
            },
            r matches Err(e) ==> e == parse_err(rom@) && *final(self) == *old(self),
            old(self).wf() ==> final(self).wf(),
    {
        match Self::parse_metadata(rom) {
            Ok(mapper) => {
                self.mapper = mapper;
                Ok(())
            },
            Err(e) => Err(e),
        }
    }

    /// Resets the mapper's architectural state; MMC1 returns to its
    /// power-on register file, NROM has nothing to restore.
    pub fn reset(&mut self)
        requires
            old(self).wf(),
        ensures
            final(self).wf(),
            final(self).expansion_area == old(self).expansion_area,
            match (old(self).mapper, final(self).mapper) {
                (MapperKind::Nrom(m0), MapperKind::Nrom(m1)) => m1 == m0,
                (MapperKind::Mmc1(m0), MapperKind::Mmc1(m1)) => {
                    &&& m1.same_roms(m0)
                    &&& m1.sram == m0.sram
                    &&& m1.shift_register == 0x10
                    &&& m1.control_register == 0x1C
                    &&& m1.prg_bank_select_hi == m0.prg_rom_banks - 1
                },
                _ => false,
            },
    {
        match &mut self.mapper {
            MapperKind::Nrom(m) => m.reset(),
            MapperKind::Mmc1(m) => m.reset(),
        }
    }

    /// The nametable mirroring currently in force.
    pub fn mirroring(&self) -> (r: Mirroring)
        ensures
            r == match self.mapper {
                MapperKind::Nrom(m) => m.mirroring_type,
                MapperKind::Mmc1(m) => m.mirroring_type,
            },
    {
        match &self.mapper {
            MapperKind::Nrom(m) => m.mirroring(),
            MapperKind::Mmc1(m) => m.mirroring(),
        }
    }

    pub fn read_byte(&self, addr: u16) -> (r: u8)
        requires
            self.wf(),
            addr < 0x2000 || 0x4020 <= addr,
        ensures
            r == self.read_spec(addr),
    {
        if addr < 0x2000 {
            match &self.mapper {
                MapperKind::Nrom(m) => m.ppu_read_byte(addr),
                MapperKind::Mmc1(m) => m.ppu_read_byte(addr),
            }
        } else if addr < 0x6000 {
            self.expansion_area[(addr - 0x4020) as usize]
        } else {
            match &self.mapper {
                MapperKind::Nrom(m) => m.cpu_read_byte(addr),
                MapperKind::Mmc1(m) => m.cpu_read_byte(addr),
            }
        }
    }

    /// The full effect of a cartridge write: which buffer or mapper
    /// register the byte lands on, by address range and mapper kind.
    pub open spec fn write_rel(pre: Cartridge, post: Cartridge, addr: u16, data: u8) -> bool {
        &&& (addr < 0x2000 ==> {
                &&& post.expansion_area == pre.expansion_area
                &&& match (pre.mapper, post.mapper) {
                    (MapperKind::Nrom(m0), MapperKind::Nrom(m1)) => {
                        &&& (m0.chr_writable ==> m1.chr_rom@ == m0.chr_rom@.update(
                            addr as int,
                            data,
                        ))
                        &&& (!m0.chr_writable ==> m1 == m0)
                        &&& m1.sram == m0.sram
                        &&& m1.prg_rom == m0.prg_rom
                        &&& m1.mirroring_type == m0.mirroring_type
                        &&& m1.chr_writable == m0.chr_writable
                    },
                    (MapperKind::Mmc1(m0), MapperKind::Mmc1(m1)) => {
                        &&& (m0.chr_rom_banks == 0 ==> m1.chr_rom@ == m0.chr_rom@.update(
                            addr as int,
                            data,
                        ))
                        &&& (m0.chr_rom_banks != 0 ==> m1.chr_rom == m0.chr_rom)
                        &&& m1.regs() == m0.regs()
                        &&& m1.sram == m0.sram
                        &&& m1.prg_rom == m0.prg_rom
                        &&& m1.chr_rom_banks == m0.chr_rom_banks
                    },
                    _ => false,
                }
            })
        &&& (0x4020 <= addr && addr < 0x6000 ==> {
                &&& post.mapper == pre.mapper
                &&& post.expansion_area@ == pre.expansion_area@.update(
                    addr - 0x4020,
                    data,
                )
            })
        &&& (0x6000 <= addr ==> {
                &&& post.expansion_area == pre.expansion_area
                &&& match (pre.mapper, post.mapper) {
                    (MapperKind::Nrom(m0), MapperKind::Nrom(m1)) => {
                        &&& (addr < 0x8000 ==> m1.sram@ == m0.sram@.update(
                            crate::mapper::sram_index(addr),
                            data,
                        ))
                        &&& (addr >= 0x8000 ==> m1 == m0)
                        &&& m1.prg_rom == m0.prg_rom
                        &&& m1.chr_rom == m0.chr_rom
                        &&& m1.mirroring_type == m0.mirroring_type
                        &&& m1.chr_writable == m0.chr_writable
                    },
                    (MapperKind::Mmc1(m0), MapperKind::Mmc1(m1)) => {
                        &&& (addr < 0x8000 ==> m1.sram@ == m0.sram@.update(
                            crate::mapper::sram_index(addr),
                            data,
                        ) && m1.regs() == m0.regs())
                        &&& (addr >= 0x8000 ==> m1.sram == m0.sram && m1.regs()
                            == crate::mapper::mmc1_serial_write(m0.regs(), addr, data))
                        &&& m1.same_roms(m0)
                    },
                    _ => false,
                }
            })
    }

    pub fn write_byte(&mut self, addr: u16, data: u8)
        requires
            old(self).wf(),
            addr < 0x2000 || 0x4020 <= addr,
        ensures
            final(self).wf(),
            Cartridge::write_rel(*old(self), *final(self), addr, data),
    {
        if addr < 0x2000 {
            match &mut self.mapper {
                MapperKind::Nrom(m) => m.ppu_write_byte(addr, data),
                MapperKind::Mmc1(m) => m.ppu_write_byte(addr, data),
            }
        } else if addr < 0x6000 {
            let idx = (addr - 0x4020) as usize;
            self.expansion_area[idx] = data;
        } else {
            match &mut self.mapper {
                MapperKind::Nrom(m) => m.cpu_write_byte(addr, data),
                MapperKind::Mmc1(m) => m.cpu_write_byte(addr, data),
            }
        }
    }
}

} // verus!
