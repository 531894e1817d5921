//! The OAM DMA engine.
//!
//! A write to `$4014` asks for a 256-byte copy from CPU memory into
//! the PPU's OAM. The engine stalls the CPU: one or two alignment
//! cycles (two when the cycle counter is odd at the start), then 256
//! read-write pairs at two cycles each, 513 or 514 cycles in all. The
//! emulator drives it one step per tick while it is active.

use vstd::prelude::*;

use crate::bus::{read_post, read_result, Bus};
use crate::m6502::{CYCLE_CEILING, M6502};

verus! {

pub struct DMA {
    /// Alignment cycles still to burn before the copy starts.
    pub idle_cycles: u64,
    /// The CPU address the next byte comes from.
    pub addr: u16,
    /// How many of the 256 bytes have been copied.
    pub ntransferred: u32,
    /// True while a transfer is in progress.
    pub active: bool,
}

impl DMA {
    pub fn new() -> (r: DMA)
        ensures
            r.idle_cycles == 0 && r.addr == 0 && r.ntransferred == 0 && !r.active,
    {
        DMA { idle_cycles: 0, addr: 0, ntransferred: 0, active: false }
    }

    /// Arms a transfer from `start_addr`: two alignment cycles when
    /// the CPU's cycle counter stands odd, else one.
    pub fn init_transfer(&mut self, cpu: &M6502, start_addr: u16)
        ensures
            final(self).active,
            final(self).idle_cycles == (if cpu.total_cycles % 2 == 1 {
                2int
            } else {
                1int
            }),
            final(self).addr == start_addr,
            final(self).ntransferred == 0,
    {
        self.active = true;
        self.idle_cycles = if cpu.total_cycles % 2 == 1 {
            2
        } else {
            1
        };
        self.addr = start_addr;
        self.ntransferred = 0;
    }

    /// One step of the transfer: burns an alignment cycle, or copies
    /// one byte from the bus into OAM at the PPU's cursor for two
    /// cycles; the 256th byte ends the transfer.
    pub fn do_transfer(&mut self, cpu: &mut M6502, bus: &mut Bus)
        requires
            old(bus).wf(),
            old(cpu).total_cycles < CYCLE_CEILING,
            old(self).active,
            old(self).ntransferred < 256,
        ensures
            final(bus).wf(),
            crate::bus::same_frame(*final(bus), *old(bus)),
            old(self).idle_cycles > 0 ==> {
                &&& *final(bus) == *old(bus)
                &&& *final(cpu) == (M6502 {
                    total_cycles: (old(cpu).total_cycles + 1) as u64,
                    ..*old(cpu)
                })
                &&& *final(self) == (DMA {
                    idle_cycles: (old(self).idle_cycles - 1) as u64,
                    ..*old(self)
                })
            },
            old(self).idle_cycles == 0 ==> ({
                let data = read_result(*old(bus), old(self).addr);
                let b1 = read_post(*old(bus), old(self).addr);
                &&& final(bus).ppu.oam@ == b1.ppu.oam@.update(b1.ppu.oam_addr as int, data)
                &&& final(bus).ppu.oam_addr == ((b1.ppu.oam_addr + 1) % 0x100) as u8
                &&& *final(bus) == (Bus { ppu: final(bus).ppu, ..b1 })
                &&& crate::ppu::PPU::same_video(final(bus).ppu, b1.ppu)
                &&& final(bus).ppu.nt0 == b1.ppu.nt0 && final(bus).ppu.nt1 == b1.ppu.nt1
                    && final(bus).ppu.nt2 == b1.ppu.nt2 && final(bus).ppu.nt3 == b1.ppu.nt3
                &&& final(bus).ppu.palette_ram == b1.ppu.palette_ram
                &&& *final(cpu) == (M6502 {
                    total_cycles: (old(cpu).total_cycles + 2) as u64,
                    ..*old(cpu)
                })
                &&& *final(self) == (DMA {
                    addr: old(self).addr.wrapping_add(1),
                    ntransferred: (old(self).ntransferred + 1) as u32,
                    active: old(self).ntransferred + 1 < 256,
                    ..*old(self)
                })
            }),
    {
        if self.idle_cycles > 0 {
            cpu.total_cycles = cpu.total_cycles + 1;
            self.idle_cycles = self.idle_cycles - 1;
            return ;
        }
        let data = bus.read_byte(self.addr);
        bus.ppu.dma_write_oam(data);
        self.addr = self.addr.wrapping_add(1);
        self.ntransferred = self.ntransferred + 1;
        cpu.total_cycles = cpu.total_cycles + 2;
        if self.ntransferred == 256 {
            self.active = false;
        }
    }
}

} // verus!
