//! A self-contained CPU memory map: flat buffers in place of live
//! devices.
//!
//! Work RAM and its mirrors, a bare eight-byte PPU register file, the
//! I/O register block, cartridge expansion space and PRG-ROM, all
//! owned directly. The full machine wires real devices through `Bus`;
//! this flat map stands on its own for ROM-only execution.

use vstd::prelude::*;

verus! {

pub const CART_OTHER_SIZE: usize = 0x3FE0;

pub struct CPUBus {
    pub ram: Vec<u8>,
    pub ppu_regs: Vec<u8>,
    pub io_regs: Vec<u8>,
    /// `$4020-$7FFF`: expansion area and PRG-RAM as one flat buffer.
    pub cart_other: Vec<u8>,
    pub cart_prg_rom: Vec<u8>,
}

impl CPUBus {
    /// Well-formed: every fixed buffer has its size and some PRG-ROM
    /// is present.
    pub open spec fn wf(self) -> bool {
        &&& self.ram.len() == 0x800
        &&& self.ppu_regs.len() == 8
        &&& self.io_regs.len() == 0x20
        &&& self.cart_other.len() == CART_OTHER_SIZE
        &&& self.cart_prg_rom.len() > 0
    }

    /// The byte a read returns, by address range; PRG-ROM is mirrored
    /// modulo its size.
    pub open spec fn read_spec(self, addr: u16) -> u8 {
        if addr < 0x2000 {
            self.ram@[(addr % 0x800) as int]
        } else if addr < 0x4000 {
            self.ppu_regs@[(addr % 8) as int]
        } else if addr < 0x4020 {
            self.io_regs@[(addr - 0x4000) as int]
        } else if addr < 0x8000 {
            self.cart_other@[(addr - 0x4020) as int]
        } else {
            self.cart_prg_rom@[(addr - 0x8000) % (self.cart_prg_rom.len() as int)]
        }
    }

    pub fn new(prg_rom: Vec<u8>) -> (r: CPUBus)
        requires
            prg_rom.len() > 0,
        ensures
            r.wf(),
            r.cart_prg_rom == prg_rom,
            r.ram@ == Seq::<u8>::new(0x800, |i: int| 0u8),
    {
        CPUBus {
            ram: crate::mapper::zero_bytes(0x800),
            ppu_regs: crate::mapper::zero_bytes(8),
            io_regs: crate::mapper::zero_bytes(0x20),
            cart_other: crate::mapper::zero_bytes(CART_OTHER_SIZE),
            cart_prg_rom: prg_rom,
        }
    }

    pub fn read_byte(&self, addr: u16) -> (r: u8)
        requires
            self.wf(),
        ensures
            r == self.read_spec(addr),
    {
        if addr < 0x2000 {
            self.ram[(addr as usize) % 0x800]
        } else if addr < 0x4000 {
            self.ppu_regs[(addr as usize) % 8]
        } else if addr < 0x4020 {
            self.io_regs[(addr - 0x4000) as usize]
        } else if addr < 0x8000 {
            self.cart_other[(addr - 0x4020) as usize]
        } else {
            self.cart_prg_rom[((addr - 0x8000) as usize) % self.cart_prg_rom.len()]
        }
    }

    /// Little-endian, high byte from the wrapped successor address.
    pub fn read_word(&self, addr: u16) -> (r: u16)
        requires
            self.wf(),
        ensures
            r == self.read_spec(addr) + 256 * self.read_spec(addr.wrapping_add(1)),
    {
        let lo = self.read_byte(addr) as u16;
        let hi = self.read_byte(addr.wrapping_add(1)) as u16;
        lo + hi * 256
    }

    /// The full effect of one byte write, by address range.
    pub open spec fn write_byte_rel(pre: CPUBus, post: CPUBus, addr: u16, data: u8) -> bool {
        &&& (addr < 0x2000 ==> post == (CPUBus {
                ram: post.ram,
                ..pre
            }) && post.ram@ == pre.ram@.update((addr % 0x800) as int, data))
        &&& (0x2000 <= addr && addr < 0x4000 ==> post == (CPUBus {
                ppu_regs: post.ppu_regs,
                ..pre
            }) && post.ppu_regs@ == pre.ppu_regs@.update((addr % 8) as int, data))
        &&& (0x4000 <= addr && addr < 0x4020 ==> post == (CPUBus {
                io_regs: post.io_regs,
                ..pre
            }) && post.io_regs@ == pre.io_regs@.update((addr - 0x4000) as int, data))
        &&& (0x4020 <= addr && addr < 0x8000 ==> post == (CPUBus {
                cart_other: post.cart_other,
                ..pre
            }) && post.cart_other@ == pre.cart_other@.update(
                (addr - 0x4020) as int,
                data,
            ))
        &&& (0x8000 <= addr ==> post == pre)
    }

    /// Stores a byte; PRG-ROM from `$8000` up ignores writes.
    pub fn write_byte(&mut self, addr: u16, data: u8)
        requires
            old(self).wf(),
        ensures
            final(self).wf(),
            CPUBus::write_byte_rel(*old(self), *final(self), addr, data),
    {
        if addr < 0x2000 {
            let idx = (addr as usize) % 0x800;
            self.ram[idx] = data;
        } else if addr < 0x4000 {
            let idx = (addr as usize) % 8;
            self.ppu_regs[idx] = data;
        } else if addr < 0x4020 {
            let idx = (addr - 0x4000) as usize;
            self.io_regs[idx] = data;
        } else if addr < 0x8000 {
            let idx = (addr - 0x4020) as usize;
            self.cart_other[idx] = data;
        }
    }

    /// Little-endian, high byte to the wrapped successor address.
    pub fn write_word(&mut self, addr: u16, data: u16)
        requires
            old(self).wf(),
        ensures
            final(self).wf(),
            (exists|mid: CPUBus|
                #[trigger] CPUBus::write_byte_rel(*old(self), mid, addr, (data % 256) as u8)
                    && CPUBus::write_byte_rel(
                    mid,
                    *final(self),
                    addr.wrapping_add(1),
                    (data / 256) as u8,
                )),
            addr < 0x1FFF ==> *final(self) == (CPUBus { ram: final(self).ram, ..*old(self) })
                && final(self).ram@ == old(self).ram@.update(
                (addr % 0x800) as int,
                (data % 256) as u8,
            ).update((addr + 1) % 0x800, (data / 256) as u8),
    {
        self.write_byte(addr, (data % 256) as u8);
        let ghost mid = *self;
        self.write_byte(addr.wrapping_add(1), (data / 256) as u8);
        proof {
            assert(CPUBus::write_byte_rel(*old(self), mid, addr, (data % 256) as u8));
        }
    }
}

} // verus!
