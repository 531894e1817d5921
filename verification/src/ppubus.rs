//! A self-contained PPU memory map: pattern data, four nametables
//! and palette RAM behind one 14-bit dispatcher.
//!
//! Here the mirroring folds addresses onto a nametable at read and
//! write time, where the live `PPU` instead duplicates each write
//! into its mirror pair.

use vstd::prelude::*;

use crate::mapper::Mirroring;

verus! {

pub struct PPUBus {
    /// The pattern tables, `$0000-$1FFF`.
    pub cart_chr_rom: Vec<u8>,
    pub mirroring_type: Mirroring,
    pub nt0: Vec<u8>,
    pub nt1: Vec<u8>,
    pub nt2: Vec<u8>,
    pub nt3: Vec<u8>,
    pub palette_ram: Vec<u8>,
}

/// Which physical nametable a folded address selects under the given
/// mirroring: vertical folds by the low 2 KiB, horizontal by the
/// high bit, and the single-screen modes pin every address to one
/// page.
pub open spec fn phys_nt(m: Mirroring, addr: u16) -> int {
    let a = (addr - 0x2000) % 0x1000;
    match m {
        Mirroring::Vertical => (a % 0x800) / 0x400,
        Mirroring::Horizontial => a / 0x800,
        Mirroring::SingleScreenLower => 0,
        Mirroring::SingleScreenUpper => 1,
    }
}

impl PPUBus {
    pub open spec fn wf(self) -> bool {
        &&& self.cart_chr_rom.len() >= 0x2000
        &&& self.nt0.len() == 0x400
        &&& self.nt1.len() == 0x400
        &&& self.nt2.len() == 0x400
        &&& self.nt3.len() == 0x400
        &&& self.palette_ram.len() == 0x20
    }

    /// The selected nametable's bytes.
    pub open spec fn nt_seq(self, i: int) -> Seq<u8> {
        if i == 0 {
            self.nt0@
        } else if i == 1 {
            self.nt1@
        } else if i == 2 {
            self.nt2@
        } else {
            self.nt3@
        }
    }

    /// The byte a read returns: CHR below `$2000`, the folded
    /// nametable to `$3EFF`, palette RAM above `$3F00` mirrored every
    /// 32 bytes.
    pub open spec fn read_spec(self, addr: u16) -> u8 {
        if addr < 0x2000 {
            self.cart_chr_rom@[addr as int]
        } else if addr < 0x3F00 {
            self.nt_seq(phys_nt(self.mirroring_type, addr))[(addr - 0x2000) % 0x400]
        } else {
            self.palette_ram@[(addr - 0x3F00) % 0x20]
        }
    }

    pub fn new(chr_rom: Vec<u8>, mirroring_type: Mirroring) -> (r: PPUBus)
        requires
            chr_rom.len() >= 0x2000,
        ensures
            r.wf(),
            r.cart_chr_rom == chr_rom,
            r.mirroring_type == mirroring_type,
    {
        PPUBus {
            cart_chr_rom: chr_rom,
            mirroring_type,
            nt0: crate::mapper::zero_bytes(0x400),
            nt1: crate::mapper::zero_bytes(0x400),
            nt2: crate::mapper::zero_bytes(0x400),
            nt3: crate::mapper::zero_bytes(0x400),
            palette_ram: crate::mapper::zero_bytes(0x20),
        }
    }

    pub fn read_byte(&self, addr: u16) -> (r: u8)
        requires
            self.wf(),
            addr < 0x4000,
        ensures
            r == self.read_spec(addr),
    {
        if addr < 0x2000 {
            self.cart_chr_rom[addr as usize]
        } else if addr < 0x3F00 {
            let a = ((addr - 0x2000) as usize) % 0x1000;
            let idx = match self.mirroring_type {
                Mirroring::Vertical => (a % 0x800) / 0x400,
                Mirroring::Horizontial => a / 0x800,
                Mirroring::SingleScreenLower => 0,
                Mirroring::SingleScreenUpper => 1,
            };
            let off = ((addr - 0x2000) as usize) % 0x400;
            if idx == 0 {
                self.nt0[off]
            } else if idx == 1 {
                self.nt1[off]
            } else if idx == 2 {
                self.nt2[off]
            } else {
                self.nt3[off]
            }
        } else {
            self.palette_ram[((addr - 0x3F00) as usize) % 0x20]
        }
    }

    /// Stores a byte into the folded nametable or the palette; the
    /// pattern range is read-only here.
    pub fn write_byte(&mut self, addr: u16, data: u8)
        requires
            old(self).wf(),
            0x2000 <= addr && addr < 0x4000,
        ensures
            final(self).wf(),
            final(self).cart_chr_rom == old(self).cart_chr_rom,
            final(self).mirroring_type == old(self).mirroring_type,
            addr < 0x3F00 ==> {
                &&& final(self).palette_ram == old(self).palette_ram
                &&& ({
                    let i = phys_nt(old(self).mirroring_type, addr);
                    let off = (addr - 0x2000) % 0x400;
                    &&& final(self).nt_seq(i) == old(self).nt_seq(i).update(off, data)
                    &&& forall|j: int| 0 <= j < 4 && j != i ==> final(self).nt_seq(j) == old(
                        self,
                    ).nt_seq(j)
                })
            },
            0x3F00 <= addr ==> {
                &&& final(self).palette_ram@ == old(self).palette_ram@.update(
                    (addr - 0x3F00) % 0x20,
                    data,
                )
                &&& final(self).nt0 == old(self).nt0 && final(self).nt1 == old(self).nt1
                &&& final(self).nt2 == old(self).nt2 && final(self).nt3 == old(self).nt3
            },
    {
        if addr < 0x3F00 {
            let a = ((addr - 0x2000) as usize) % 0x1000;
            let idx = match self.mirroring_type {
                Mirroring::Vertical => (a % 0x800) / 0x400,
                Mirroring::Horizontial => a / 0x800,
                Mirroring::SingleScreenLower => 0,
                Mirroring::SingleScreenUpper => 1,
            };
            let off = ((addr - 0x2000) as usize) % 0x400;
            if idx == 0 {
                self.nt0[off] = data;
            } else if idx == 1 {
                self.nt1[off] = data;
            } else if idx == 2 {
                self.nt2[off] = data;
            } else {
                self.nt3[off] = data;
            }
        } else {
            let idx = ((addr - 0x3F00) as usize) % 0x20;
            self.palette_ram[idx] = data;
        }
    }
}

} // verus!
