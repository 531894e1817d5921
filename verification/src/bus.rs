//! The CPU-visible memory bus.
//!
//! A 16-bit address dispatches to 2 KiB of work RAM (mirrored every
//! `0x800`), the PPU registers (mirrored every 8 bytes to `$3FFF`),
//! the OAM-DMA trigger at `$4014`, the joypad at `$4016`, a register
//! scratch for the APU range, and the cartridge from `$4020` up. The
//! bus owns the devices it dispatches to; the emulator drives it.

use vstd::prelude::*;

use crate::cartridge::Cartridge;
use crate::joypad::Joypad;
use crate::ppu::PPU;

verus! {

pub const RAM_SIZE: usize = 0x800;

pub const IO_REGS_COUNT: usize = 0x20;

pub struct Bus {
    pub cart: Cartridge,
    pub ppu: PPU,
    pub joypad: Joypad,
    /// 2 KiB work RAM, `$0000-$07FF` and its mirrors.
    pub ram: Vec<u8>,
    /// `$4000-$401F` scratch: the APU stub accepts writes and returns
    /// the last written byte.
    pub io_regs: Vec<u8>,
    /// Raised by a write to `$4014`; the emulator starts OAM DMA and
    /// lowers it.
    pub init_dma: bool,
    /// The source page of that DMA, `value << 8`.
    pub dma_start_addr: u16,
}

/// The PPU's frame clock is untouched: dots, scanline, cycle, frame
/// parity and the NMI latch all keep their values. True of every CPU
/// bus access.
pub open spec fn same_frame(a: Bus, b: Bus) -> bool {
    &&& a.ppu.dots == b.ppu.dots
    &&& a.ppu.scanline == b.ppu.scanline
    &&& a.ppu.cycle == b.ppu.cycle
    &&& a.ppu.odd_frame == b.ppu.odd_frame
    &&& a.ppu.nmi == b.ppu.nmi
}

/// The byte `read_byte` returns, as a function of the bus state.
pub open spec fn read_result(b: Bus, addr: u16) -> u8 {
    if addr < 0x2000 {
        b.ram@[(addr % 0x800) as int]
    } else if addr < 0x4000 {
        PPU::reg_read_result(b.ppu, b.cart, (addr % 8) as int)
    } else if addr == 0x4016 {
        crate::joypad::read_result(b.joypad)
    } else if addr < 0x4020 {
        b.io_regs@[(addr - 0x4000) as int]
    } else {
        b.cart.read_spec(addr)
    }
}

/// The bus after `read_byte`: only a PPU register or joypad read
/// changes anything.
pub open spec fn read_post(b: Bus, addr: u16) -> Bus {
    if addr < 0x2000 {
        b
    } else if addr < 0x4000 {
        Bus { ppu: PPU::reg_read_post(b.ppu, b.cart, (addr % 8) as int), ..b }
    } else if addr == 0x4016 {
        Bus { joypad: crate::joypad::read_post(b.joypad), ..b }
    } else {
        b
    }
}

/// The full effect of one bus write, by address range.
pub open spec fn write_rel(pre: Bus, post: Bus, addr: u16, data: u8) -> bool {
    &&& (addr < 0x2000 ==> {
                &&& post.ram@ == pre.ram@.update((addr % 0x800) as int, data)
                &&& post == (Bus { ram: post.ram, ..pre })
            })
    &&& (0x2000 <= addr && addr < 0x4000 ==> {
                &&& PPU::write_reg_rel(
                    pre.ppu,
                    post.ppu,
                    pre.cart,
                    post.cart,
                    (addr % 8) as int,
                    data,
                )
                &&& post == (Bus {
                    ppu: post.ppu,
                    cart: post.cart,
                    ..pre
                })
            })
    &&& (addr == 0x4014 ==> post == (Bus {
                init_dma: true,
                dma_start_addr: (data * 256) as u16,
                ..pre
            }))
    &&& (addr == 0x4016 ==> {
                &&& post.joypad.strobe == (data & 1 == 1)
                &&& post.joypad.state == pre.joypad.state
                &&& post.joypad.button_index == (if data & 1 == 1 {
                    0u8
                } else {
                    pre.joypad.button_index
                })
                &&& post == (Bus { joypad: post.joypad, ..pre })
            })
    &&& (0x4000 <= addr && addr < 0x4020 && addr != 0x4014 && addr != 0x4016 ==> {
                &&& post.io_regs@ == pre.io_regs@.update((addr - 0x4000) as int, data)
                &&& post == (Bus { io_regs: post.io_regs, ..pre })
            })
    &&& (0x4020 <= addr ==> {
                &&& Cartridge::write_rel(pre.cart, post.cart, addr, data)
                &&& post == (Bus { cart: post.cart, ..pre })
            })
}

impl Bus {
    /// Well-formed: the buffers have their sizes and the owned
    /// devices are well-formed.
    pub open spec fn wf(self) -> bool {
        &&& self.ram.len() == RAM_SIZE
        &&& self.io_regs.len() == IO_REGS_COUNT
        &&& self.cart.wf()
        &&& self.ppu.wf()
    }

    /// A bus around the given devices, with zeroed RAM and scratch
    /// and no DMA pending.
    pub fn new(cart: Cartridge, ppu: PPU, joypad: Joypad) -> (r: Bus)
        ensures
            r.cart == cart,
            r.ppu == ppu,
            r.joypad == joypad,
            r.ram@ == Seq::<u8>::new(RAM_SIZE as nat, |i: int| 0u8),
            r.io_regs@ == Seq::<u8>::new(IO_REGS_COUNT as nat, |i: int| 0u8),
            !r.init_dma,
            r.dma_start_addr == 0,
            cart.wf() && ppu.wf() ==> r.wf(),
    {
        Bus {
            cart,
            ppu,
            joypad,
            ram: crate::mapper::zero_bytes(RAM_SIZE),
            io_regs: crate::mapper::zero_bytes(IO_REGS_COUNT),
            init_dma: false,
            dma_start_addr: 0,
        }
    }

    /// The cartridge the bus dispatches to.
    pub fn cart(&self) -> (r: &Cartridge)
        ensures
            r == &self.cart,
    {
        &self.cart
    }

    /// The PPU the bus dispatches to.
    pub fn ppu(&self) -> (r: &PPU)
        ensures
            r == &self.ppu,
    {
        &self.ppu
    }

    /// The joypad the bus dispatches to.
    pub fn joypad(&self) -> (r: &Joypad)
        ensures
            r == &self.joypad,
    {
        &self.joypad
    }

    /// Reads one byte from the CPU address space. Reading RAM, the
    /// APU scratch or the cartridge changes nothing; reading a PPU
    /// register or the joypad has that device's documented side
    /// effects.
    pub fn read_byte(&mut self, addr: u16) -> (r: u8)
        requires
            old(self).wf(),
        ensures
            final(self).wf(),
            r == read_result(*old(self), addr),
            *final(self) == read_post(*old(self), addr),
            addr < 0x2000 ==> r == old(self).ram@[(addr % 0x800) as int] && *final(self) == *old(self),
            0x2000 <= addr && addr < 0x4000 ==> {
                &&& PPU::read_reg_rel(
                    old(self).ppu,
                    final(self).ppu,
                    old(self).cart,
                    (addr % 8) as int,
                    r,
                )
                &&& *final(self) == (Bus { ppu: final(self).ppu, ..*old(self) })
            },
            addr == 0x4016 ==> {
                &&& r == crate::joypad::read_result(old(self).joypad)
                &&& final(self).joypad == crate::joypad::read_post(old(self).joypad)
                &&& *final(self) == (Bus { joypad: final(self).joypad, ..*old(self) })
            },
            0x4000 <= addr && addr < 0x4020 && addr != 0x4016 ==> r == old(self).io_regs@[addr
                - 0x4000] && *final(self) == *old(self),
            0x4020 <= addr ==> r == old(self).cart.read_spec(addr) && *final(self) == *old(self),
    {
        if addr < 0x2000 {
            self.ram[(addr as usize) % RAM_SIZE]
        } else if addr < 0x4000 {
            self.ppu.read_register(&self.cart, (addr as usize) % 8)
        } else if addr < 0x4020 {
            if addr == 0x4016 {
                self.joypad.read()
            } else {
                self.io_regs[(addr - 0x4000) as usize]
            }
        } else {
            self.cart.read_byte(addr)
        }
    }

    /// Reads a little-endian word as two byte reads, the high byte
    /// from the wrapped successor address.
    pub fn read_word(&mut self, addr: u16) -> (r: u16)
        requires
            old(self).wf(),
        ensures
            final(self).wf(),
            r == read_result(*old(self), addr) + 256 * read_result(
                read_post(*old(self), addr),
                addr.wrapping_add(1),
            ),
            *final(self) == read_post(read_post(*old(self), addr), addr.wrapping_add(1)),
            addr < 0x1FFF ==> r == old(self).ram@[(addr % 0x800) as int] + 256 * old(self).ram@[(addr + 1)
                % 0x800] && *final(self) == *old(self),
            0x4020 <= addr && addr < 0xFFFF ==> r == old(self).cart.read_spec(addr) + 256 * old(
                self,
            ).cart.read_spec((addr + 1) as u16) && *final(self) == *old(self),
    {
        let lo = self.read_byte(addr) as u16;
        let hi = self.read_byte(addr.wrapping_add(1)) as u16;
        lo + hi * 256
    }

    /// Writes one byte into the CPU address space: RAM and the APU
    /// scratch store it, `$4014` latches a DMA request, `$4016`
    /// strobes the joypad, PPU registers and the cartridge take their
    /// documented effects.
    pub fn write_byte(&mut self, addr: u16, data: u8)
        requires
            old(self).wf(),
        ensures
            final(self).wf(),
            write_rel(*old(self), *final(self), addr, data),
    {
        if addr < 0x2000 {
            let idx = (addr as usize) % RAM_SIZE;
            self.ram[idx] = data;
        } else if addr < 0x4000 {
            self.ppu.write_register(&mut self.cart, (addr as usize) % 8, data);
        } else if addr < 0x4020 {
            if addr == 0x4014 {
                self.init_dma = true;
                self.dma_start_addr = (data as u16) * 256;
            } else if addr == 0x4016 {
                self.joypad.write(data);
            } else {
                let idx = (addr - 0x4000) as usize;
                self.io_regs[idx] = data;
            }
        } else {
            self.cart.write_byte(addr, data);
        }
    }

    /// Writes a little-endian word as two byte writes, the high byte
    /// to the wrapped successor address.
    pub fn write_word(&mut self, addr: u16, data: u16)
        requires
            old(self).wf(),
        ensures
            final(self).wf(),
            (exists|mid: Bus|
                #[trigger] write_rel(*old(self), mid, addr, (data % 256) as u8) && write_rel(
                    mid,
                    *final(self),
                    addr.wrapping_add(1),
                    (data / 256) as u8,
                )),
            addr < 0x1FFF ==> {
                &&& final(self).ram@ == old(self).ram@.update(
                    (addr % 0x800) as int,
                    (data % 256) as u8,
                ).update((addr + 1) % 0x800, (data / 256) as u8)
                &&& *final(self) == (Bus { ram: final(self).ram, ..*old(self) })
            },
    {
        self.write_byte(addr, (data % 256) as u8);
        let ghost mid = *self;
        self.write_byte(addr.wrapping_add(1), (data / 256) as u8);
        proof {
            assert(write_rel(*old(self), mid, addr, (data % 256) as u8));
        }
    }
}

/// Work RAM honours its mirrors: a write through one alias of a cell
/// is read back, unchanged, through any other alias of the same cell
/// (addresses equal modulo `0x800`, below `$2000`).
pub proof fn lemma_ram_mirror_round_trip(ram: Seq<u8>, a1: u16, a2: u16, data: u8)
    requires
        ram.len() == RAM_SIZE,
        a1 < 0x2000,
        a2 < 0x2000,
        a1 % 0x800 == a2 % 0x800,
    ensures
        ram.update((a1 % 0x800) as int, data)[(a2 % 0x800) as int] == data,
{
}

} // verus!
