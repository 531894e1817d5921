//! The top-level clock: one CPU step at a time, with the PPU run
//! three dots for every CPU cycle consumed.
//!
//! Each tick first services a pending NMI, then either advances the
//! DMA engine (the CPU is stalled while a transfer runs) or executes
//! one instruction and arms DMA if the instruction asked for it, and
//! finally pays the consumed CPU cycles to the PPU at the fixed 1:3
//! ratio. A frame is about 29781 CPU cycles.

use vstd::prelude::*;

use crate::bus::Bus;
use crate::cartridge::{Cartridge, RomError};
use crate::dma::DMA;
use crate::joypad::Joypad;
use crate::m6502::{CpuFault, M6502};
use crate::mapper::{Mapper0, MapperKind, Mirroring};
use crate::ppu::PPU;

verus! {

/// CPU cycles per video frame.
pub const CYCLES_PER_FRAME: u64 = 29781;

/// The cycle counter must stay below this before a frame is run: a
/// machine limit far beyond any reachable cycle count, leaving room
/// for the frame and for the 3-to-1 dot counter.
pub const EMU_CYCLE_CAP: u64 = 0x1FFF_FFFF_FFFF_0000;

pub struct Emulator {
    pub cpu: M6502,
    /// The bus owns the cartridge, PPU and joypad.
    pub bus: Bus,
    pub dma: DMA,
    /// The cycle count already paid to the PPU.
    pub prev_total_cycles: u64,
}

impl Emulator {
    /// Well-formed: the bus is, the PPU has been paid exactly three
    /// dots per accounted CPU cycle, and the counters leave headroom.
    pub open spec fn wf(self) -> bool {
        &&& self.bus.wf()
        &&& self.prev_total_cycles == self.cpu.total_cycles
        &&& self.bus.ppu.dots == 3 * self.prev_total_cycles
        &&& !self.bus.init_dma
        &&& self.dma.active ==> self.dma.ntransferred < 256
    }

    /// A powered-on machine around a blank NROM cartridge: 16 KiB of
    /// zeroed PRG-ROM, 8 KiB of CHR-RAM, horizontal mirroring. Load a
    /// real image with `load_rom`.
    pub fn new() -> (r: Emulator)
        ensures
            r.wf(),
            r.cpu.total_cycles == 0,
            r.prev_total_cycles == 0,
            r.bus.ppu.dots == 0,
            !r.dma.active,
    {
        let blank = Cartridge {
            mapper: MapperKind::Nrom(
                Mapper0::new(
                    Mirroring::Horizontial,
                    0x4000,
                    crate::mapper::zero_bytes(0x4000),
                    crate::mapper::zero_bytes(0x2000),
                    true,
                ),
            ),
            expansion_area: crate::mapper::zero_bytes(crate::cartridge::EXPANSION_AREA_SIZE),
        };
        Emulator {
            cpu: M6502::new(),
            bus: Bus::new(blank, PPU::new(), Joypad::new()),
            dma: DMA::new(),
            prev_total_cycles: 0,
        }
    }

    pub fn cart(&self) -> (r: &Cartridge)
        ensures
            r == &self.bus.cart,
    {
        &self.bus.cart
    }

    pub fn bus(&self) -> (r: &Bus)
        ensures
            r == &self.bus,
    {
        &self.bus
    }

    pub fn cpu(&self) -> (r: &M6502)
        ensures
            r == &self.cpu,
    {
        &self.cpu
    }

    pub fn ppu(&self) -> (r: &PPU)
        ensures
            r == &self.bus.ppu,
    {
        &self.bus.ppu
    }

    pub fn dma(&self) -> (r: &DMA)
        ensures
            r == &self.dma,
    {
        &self.dma
    }

    pub fn joypad(&self) -> (r: &Joypad)
        ensures
            r == &self.bus.joypad,
    {
        &self.bus.joypad
    }

    /// Parses an iNES image into the cartridge slot; on a bad image
    /// nothing changes and the error says why.
    pub fn load_rom(&mut self, rom: &Vec<u8>) -> (r: Result<(), RomError>)
        requires
            old(self).wf(),
        ensures
            final(self).wf(),
            crate::cartridge::parse_ok(rom@) <==> r is Ok,
            r is Ok ==> {
                &&& crate::cartridge::mapper_matches_rom(final(self).bus.cart.mapper, rom@)
                &&& *final(self) == (Emulator { bus: final(self).bus, ..*old(self) })
                &&& final(self).bus == (Bus { cart: final(self).bus.cart, ..old(self).bus })
            },
            r matches Err(e) ==> e == crate::cartridge::parse_err(rom@) && *final(self) == *old(self),
    {
        self.bus.cart.load(rom)
    }

    /// Resets every device's architectural state: the cartridge
    /// mapper, the bus's DMA latch, the CPU (through the reset
    /// vector, costing its seven cycles), the PPU registers and the
    /// joypad. Cycle counters persist.
    pub fn reset(&mut self)
        requires
            old(self).wf(),
            old(self).cpu.total_cycles < EMU_CYCLE_CAP,
        ensures
            final(self).wf(),
            final(self).cpu.p == 0x34 && final(self).cpu.sp == 0xFD,
            final(self).cpu.a == 0 && final(self).cpu.x == 0 && final(self).cpu.y == 0,
            final(self).cpu.total_cycles == old(self).cpu.total_cycles + 7,
            final(self).bus.ppu.scanline == 0 && final(self).bus.ppu.cycle == 0,
            !final(self).bus.ppu.nmi,
            !final(self).bus.init_dma,
            final(self).cpu.pc == final(self).bus.cart.read_spec(0xFFFC) + 256 * final(self).bus.cart.read_spec(0xFFFD),
    {
        self.bus.cart.reset();
        self.bus.init_dma = false;
        self.bus.dma_start_addr = 0;
        self.cpu.reset(&mut self.bus);
        let total = self.cpu.total_cycles;
        let cycles = total - self.prev_total_cycles;
        self.prev_total_cycles = total;
        self.advance_ppu(cycles);
        self.bus.ppu.reset();
        self.bus.joypad.reset();
    }

    /// Advances the PPU by three dots for each of `cycles` CPU
    /// cycles; nothing else of the machine moves.
    fn advance_ppu(&mut self, cycles: u64)
        requires
            old(self).bus.wf(),
            cycles <= 16,
            old(self).bus.ppu.dots + 3 * cycles + 3 <= u64::MAX,
        ensures
            final(self).bus.wf(),
            final(self).bus.ppu.dots == old(self).bus.ppu.dots + 3 * cycles,
            *final(self) == (Emulator {
                bus: Bus { ppu: final(self).bus.ppu, ..old(self).bus },
                ..*old(self)
            }),
    {
        let mut i: u64 = 0;
        while i < cycles
            invariant
                i <= cycles,
                cycles <= 16,
                self.bus.wf(),
                self.bus.ppu.dots == old(self).bus.ppu.dots + 3 * i,
                old(self).bus.ppu.dots + 3 * cycles + 3 <= u64::MAX,
                *self == (Emulator {
                    bus: Bus { ppu: self.bus.ppu, ..old(self).bus },
                    ..*old(self)
                }),
            decreases cycles - i,
        {
            self.bus.ppu.tick(&self.bus.cart);
            self.bus.ppu.tick(&self.bus.cart);
            self.bus.ppu.tick(&self.bus.cart);
            i = i + 1;
        }
    }

    /// One emulator step. Returns the CPU cycles consumed; for every
    /// one of them the PPU has advanced exactly three dots, which is
    /// the fixed CPU-to-PPU clock ratio. While a DMA transfer is
    /// active the CPU executes nothing: only its cycle counter moves.
    /// The step succeeds unless the CPU fetches an undocumented
    /// opcode; that jam is reported instead, with the PPU not
    /// advanced and the cycle accounting intact.
    pub fn tick(&mut self) -> (r: Result<u64, CpuFault>)
        requires
            old(self).wf(),
            old(self).cpu.total_cycles < EMU_CYCLE_CAP,
        ensures
            r matches Ok(cycles) ==> {
                &&& final(self).wf()
                &&& 1 <= cycles <= 16
                &&& final(self).cpu.total_cycles == final(self).prev_total_cycles
                &&& final(self).prev_total_cycles == old(self).prev_total_cycles + cycles
                &&& final(self).bus.ppu.dots == old(self).bus.ppu.dots + 3 * cycles
                &&& final(self).cpu.total_cycles <= old(self).cpu.total_cycles + 16
            },
            old(self).dma.active ==> r is Ok,
            !old(self).bus.ppu.nmi && !old(self).dma.active ==> (r is Ok
                <==> crate::m6502::is_official_opcode(
                crate::bus::read_result(old(self).bus, old(self).cpu.pc),
            )),
            r is Ok && old(self).dma.active && !old(self).bus.ppu.nmi ==> final(self).cpu
                == (M6502 { total_cycles: final(self).cpu.total_cycles, ..old(self).cpu }),
            r is Err ==> {
                &&& final(self).prev_total_cycles == old(self).prev_total_cycles
                &&& final(self).bus.ppu.dots == old(self).bus.ppu.dots
                &&& final(self).bus.ppu.dots == 3 * final(self).prev_total_cycles
            },
            r is Err && old(self).bus.ppu.nmi && !old(self).dma.active ==> ({
                let b1 = Bus { ram: final(self).bus.ram, ..old(self).bus };
                let b2 = crate::bus::read_post(crate::bus::read_post(b1, 0xFFFA), 0xFFFB);
                let vec_pc = (crate::bus::read_result(b1, 0xFFFA) + 256 * crate::bus::read_result(
                    crate::bus::read_post(b1, 0xFFFA),
                    0xFFFB,
                )) as u16;
                !crate::m6502::is_official_opcode(crate::bus::read_result(b2, vec_pc))
            }),
            r is Err && !old(self).bus.ppu.nmi ==> {
                &&& final(self).bus == crate::bus::read_post(old(self).bus, old(self).cpu.pc)
                &&& final(self).cpu == (M6502 {
                    pc: old(self).cpu.pc.wrapping_add(1),
                    total_cycles: (old(self).cpu.total_cycles + 1) as u64,
                    ..old(self).cpu
                })
                &&& final(self).dma == old(self).dma
            },
    {
        if self.bus.ppu.nmi {
            self.cpu.nmi(&mut self.bus);
            self.bus.ppu.nmi = false;
        }
        if self.dma.active {
            self.dma.do_transfer(&mut self.cpu, &mut self.bus);
        } else {
            let stepped = self.cpu.tick(&mut self.bus);
            if let Err(fault) = stepped {
                return Err(fault);
            }
            if self.bus.init_dma {
                self.dma.init_transfer(&self.cpu, self.bus.dma_start_addr);
                self.bus.init_dma = false;
            }
        }
        let total = self.cpu.total_cycles;
        let cycles = total - self.prev_total_cycles;
        self.prev_total_cycles = total;
        self.advance_ppu(cycles);
        Ok(cycles)
    }

    /// Runs emulator steps until a frame's worth of CPU cycles has
    /// elapsed. Success is owed whenever every opcode the CPU fetches
    /// along the way is official; a jam is passed up with the cycle
    /// accounting intact.
    pub fn update(&mut self) -> (r: Result<(), CpuFault>)
        requires
            old(self).wf(),
            old(self).cpu.total_cycles < EMU_CYCLE_CAP - 2 * CYCLES_PER_FRAME,
        ensures
            r is Ok ==> {
                &&& final(self).wf()
                &&& final(self).prev_total_cycles >= old(self).prev_total_cycles + CYCLES_PER_FRAME
                &&& final(self).prev_total_cycles <= old(self).prev_total_cycles + CYCLES_PER_FRAME
                    + 15
            },
            r is Err ==> {
                &&& final(self).prev_total_cycles >= old(self).prev_total_cycles
                &&& final(self).bus.ppu.dots == 3 * final(self).prev_total_cycles
            },
    {
        let mut total: u64 = 0;
        while total < CYCLES_PER_FRAME
            invariant
                self.wf(),
                self.cpu.total_cycles == old(self).cpu.total_cycles + total,
                self.prev_total_cycles == old(self).prev_total_cycles + total,
                total <= CYCLES_PER_FRAME + 15,
                old(self).cpu.total_cycles < EMU_CYCLE_CAP - 2 * CYCLES_PER_FRAME,
            decreases CYCLES_PER_FRAME + 16 - total,
        {
            let stepped = self.tick();
            match stepped {
                Ok(cycles) => {
                    total = total + cycles;
                },
                Err(fault) => {
                    return Err(fault);
                },
            }
        }
        Ok(())
    }
}

} // verus!
