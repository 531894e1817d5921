//! The Ricoh 2A03 core: a 6502 interpreter with all official opcodes.
//!
//! `tick` executes one instruction, charging `total_cycles` one cycle
//! per memory access plus the documented internal cycles: page-cross
//! penalties on indexed reads, the extra taken/page-cross cycles on
//! branches, the dummy write of read-modify-write instructions. All
//! memory traffic goes through the bus handed in at each call. An
//! opcode outside the official set stops the instruction and reports
//! the program counter and opcode instead of executing anything.

use vstd::prelude::*;

use crate::bitops::{bit8, with_bit8};
use crate::bus::{read_post, read_result, Bus};

verus! {

pub const FLAG_N: u8 = 7;

pub const FLAG_V: u8 = 6;

pub const FLAG_B: u8 = 4;

pub const FLAG_D: u8 = 3;

pub const FLAG_I: u8 = 2;

pub const FLAG_Z: u8 = 1;

pub const FLAG_C: u8 = 0;

pub const NMI_ADDR: u16 = 0xFFFA;

pub const RESET_ADDR: u16 = 0xFFFC;

pub const IRQ_ADDR: u16 = 0xFFFE;

/// `total_cycles` must stay below this for an instruction, an
/// interrupt or a DMA step to have room; a machine limit, unreachable
/// in practice.
pub const CYCLE_CEILING: u64 = 0xFFFF_FFFF_FFFF_FF00;

/// How an instruction names its operand.
pub enum AddressingMode {
    Accumulator,
    Absolute,
    AbsoluteX,
    /// AbsoluteX with the page-cross cycle charged unconditionally.
    AbsoluteXEc,
    AbsoluteY,
    /// AbsoluteY with the page-cross cycle charged unconditionally.
    AbsoluteYEc,
    Immediate,
    Implied,
    Indirect,
    IndirectX,
    IndirectY,
    /// IndirectY with the page-cross cycle charged unconditionally.
    IndirectYEc,
    Relative,
    ZeroPage,
    ZeroPageX,
    ZeroPageY,
}

/// An opcode outside the official set: execution stops here, with the
/// address the opcode was fetched from and the opcode itself.
#[derive(Clone, Copy, PartialEq, Eq, Structural, Debug)]
pub struct CpuFault {
    pub pc: u16,
    pub opcode: u8,
}

/// `p` with the Z and N flags set from `val`.
pub open spec fn zn_spec(p: u8, val: u8) -> u8 {
    with_bit8(with_bit8(p, 1, val == 0), 7, bit8(val, 7))
}

/// The accumulator and status after ADC: the sum of `a`, `val` and
/// the carry, truncated to a byte; Z and N from the result, V from
/// signed overflow (`(a^r) & (val^r) & 0x80`), C from the unsigned
/// carry out.
pub open spec fn adc_spec(a: u8, p: u8, val: u8) -> (u8, u8) {
    let carry: int = if bit8(p, 0) {
        1
    } else {
        0
    };
    let sum = a + val + carry;
    let res = (sum % 256) as u8;
    let p1 = zn_spec(p, res);
    let p2 = with_bit8(p1, 6, (a ^ res) & (val ^ res) & 0x80 != 0);
    let p3 = with_bit8(p2, 0, sum > 255);
    (res, p3)
}

/// The status after a compare: C when the register is at least the
/// operand, Z on equality, N from bit 7 of the wrapped difference.
pub open spec fn cmp_spec(p: u8, reg: u8, m: u8) -> u8 {
    with_bit8(
        with_bit8(with_bit8(p, 0, reg >= m), 1, reg == m),
        7,
        bit8(vstd::wrapping::u8_specs::wrapping_sub(reg, m), 7),
    )
}

/// The status after BIT: Z from `a & m`, V and N copied from bits 6
/// and 7 of the operand.
pub open spec fn bit_spec(p: u8, a: u8, m: u8) -> u8 {
    with_bit8(with_bit8(with_bit8(p, 1, a & m == 0), 6, bit8(m, 6)), 7, bit8(m, 7))
}

/// A value and status after a left shift or rotate: bit 7 leaves into
/// C, and for a rotate the old C enters at bit 0.
pub open spec fn shift_left_spec(p: u8, val: u8, logical: bool) -> (u8, u8) {
    let carry_in: u8 = if !logical && bit8(p, 0) {
        1u8
    } else {
        0u8
    };
    let res = ((val % 128) * 2 + carry_in) as u8;
    let p1 = with_bit8(p, 0, bit8(val, 7));
    (res, zn_spec(p1, res))
}

/// A value and status after a right shift or rotate: bit 0 leaves
/// into C, and for a rotate the old C enters at bit 7.
pub open spec fn shift_right_spec(p: u8, val: u8, logical: bool) -> (u8, u8) {
    let carry_in: u8 = if !logical && bit8(p, 0) {
        128u8
    } else {
        0u8
    };
    let res = (val / 2 + carry_in) as u8;
    let p1 = with_bit8(p, 0, bit8(val, 0));
    (res, zn_spec(p1, res))
}

pub struct M6502 {
    pub a: u8,
    pub x: u8,
    pub y: u8,
    /// Status: N=7, V=6, unused=5, B=4 (pushed copies only), D=3,
    /// I=2, Z=1, C=0.
    pub p: u8,
    /// Stack pointer into page 1: the next push lands at `0x100 + sp`.
    pub sp: u8,
    pub pc: u16,
    pub total_cycles: u64,
}

impl M6502 {
    /// Registers only; the power-on values come from `reset`.
    pub fn new() -> (r: M6502)
        ensures
            r.a == 0 && r.x == 0 && r.y == 0 && r.p == 0 && r.sp == 0 && r.pc == 0,
            r.total_cycles == 0,
    {
        M6502 { a: 0, x: 0, y: 0, p: 0, sp: 0, pc: 0, total_cycles: 0 }
    }

    /// Sets the Z and N flags from a just-computed value.
    fn modify_zn(&mut self, val: u8)
        ensures
            *final(self) == (M6502 { p: zn_spec(old(self).p, val), ..*old(self) }),
    {
        self.p = crate::bitops::modify_bit(self.p, FLAG_Z, val == 0);
        self.p = crate::bitops::modify_bit(self.p, FLAG_N, crate::bitops::test_bit(val, 7));
    }

    /// One bus read, costing one cycle.
    fn cpu_read_byte(&mut self, bus: &mut Bus, addr: u16) -> (r: u8)
        requires
            old(bus).wf(),
            old(self).total_cycles < CYCLE_CEILING,
        ensures
            final(bus).wf(),
            crate::bus::same_frame(*final(bus), *old(bus)),
            r == read_result(*old(bus), addr),
            *final(bus) == read_post(*old(bus), addr),
            *final(self) == (M6502 { total_cycles: (old(self).total_cycles + 1) as u64, ..*old(self) }),
    {
        self.total_cycles = self.total_cycles + 1;
        bus.read_byte(addr)
    }

    /// One bus write, costing one cycle.
    fn cpu_write_byte(&mut self, bus: &mut Bus, addr: u16, data: u8)
        requires
            old(bus).wf(),
            old(self).total_cycles < CYCLE_CEILING,
        ensures
            final(bus).wf(),
            crate::bus::same_frame(*final(bus), *old(bus)),
            crate::bus::write_rel(*old(bus), *final(bus), addr, data),
            *final(self) == (M6502 { total_cycles: (old(self).total_cycles + 1) as u64, ..*old(self) }),
    {
        self.total_cycles = self.total_cycles + 1;
        bus.write_byte(addr, data);
    }

    /// A little-endian word read, costing two cycles.
    fn cpu_read_word(&mut self, bus: &mut Bus, addr: u16) -> (r: u16)
        requires
            old(bus).wf(),
            old(self).total_cycles < CYCLE_CEILING - 1,
        ensures
            final(bus).wf(),
            crate::bus::same_frame(*final(bus), *old(bus)),
            r == read_result(*old(bus), addr) + 256 * read_result(
                read_post(*old(bus), addr),
                addr.wrapping_add(1),
            ),
            *final(bus) == read_post(read_post(*old(bus), addr), addr.wrapping_add(1)),
            *final(self) == (M6502 { total_cycles: (old(self).total_cycles + 2) as u64, ..*old(self) }),
    {
        let lo = self.cpu_read_byte(bus, addr) as u16;
        let hi = self.cpu_read_byte(bus, addr.wrapping_add(1)) as u16;
        lo + hi * 256
    }

    /// Pushes one byte at `0x100 + sp` and moves the pointer down,
    /// wrapping within the page.
    fn push_byte(&mut self, bus: &mut Bus, data: u8)
        requires
            old(bus).wf(),
            old(self).total_cycles < CYCLE_CEILING,
        ensures
            final(bus).wf(),
            crate::bus::same_frame(*final(bus), *old(bus)),
            final(bus).ram@ == old(bus).ram@.update(0x100 + old(self).sp, data),
            *final(bus) == (Bus { ram: final(bus).ram, ..*old(bus) }),
            *final(self) == (M6502 {
                sp: vstd::wrapping::u8_specs::wrapping_sub(old(self).sp, 1),
                total_cycles: (old(self).total_cycles + 1) as u64,
                ..*old(self)
            }),
    {
        let addr: u16 = 0x100 + (self.sp as u16);
        self.cpu_write_byte(bus, addr, data);
        self.sp = self.sp.wrapping_sub(1);
    }

    /// Pushes a word, high byte first.
    fn push_word(&mut self, bus: &mut Bus, data: u16)
        requires
            old(bus).wf(),
            old(self).total_cycles < CYCLE_CEILING - 1,
        ensures
            final(bus).wf(),
            crate::bus::same_frame(*final(bus), *old(bus)),
            final(bus).ram@ == old(bus).ram@.update(0x100 + old(self).sp, (data / 256) as u8).update(
                0x100 + vstd::wrapping::u8_specs::wrapping_sub(old(self).sp, 1),
                (data % 256) as u8,
            ),
            *final(bus) == (Bus { ram: final(bus).ram, ..*old(bus) }),
            *final(self) == (M6502 {
                sp: vstd::wrapping::u8_specs::wrapping_sub(old(self).sp, 2),
                total_cycles: (old(self).total_cycles + 2) as u64,
                ..*old(self)
            }),
    {
        self.push_byte(bus, (data / 256) as u8);
        self.push_byte(bus, (data % 256) as u8);
    }

    /// Pulls one byte: the pointer moves up first, wrapping within
    /// the page, then the cell is read.
    fn pull_byte(&mut self, bus: &mut Bus) -> (r: u8)
        requires
            old(bus).wf(),
            old(self).total_cycles < CYCLE_CEILING,
        ensures
            final(bus).wf(),
            crate::bus::same_frame(*final(bus), *old(bus)),
            *final(bus) == *old(bus),
            r == old(bus).ram@[0x100 + vstd::wrapping::u8_specs::wrapping_add(old(self).sp, 1)],
            *final(self) == (M6502 {
                sp: vstd::wrapping::u8_specs::wrapping_add(old(self).sp, 1),
                total_cycles: (old(self).total_cycles + 1) as u64,
                ..*old(self)
            }),
    {
        self.sp = self.sp.wrapping_add(1);
        let addr: u16 = 0x100 + (self.sp as u16);
        self.cpu_read_byte(bus, addr)
    }

    /// Pulls a word, low byte first.
    fn pull_word(&mut self, bus: &mut Bus) -> (r: u16)
        requires
            old(bus).wf(),
            old(self).total_cycles < CYCLE_CEILING - 1,
        ensures
            final(bus).wf(),
            crate::bus::same_frame(*final(bus), *old(bus)),
            *final(bus) == *old(bus),
            r == old(bus).ram@[0x100 + vstd::wrapping::u8_specs::wrapping_add(old(self).sp, 1)]
                + 256 * old(bus).ram@[0x100 + vstd::wrapping::u8_specs::wrapping_add(
                old(self).sp,
                2,
            )],
            *final(self) == (M6502 {
                sp: vstd::wrapping::u8_specs::wrapping_add(old(self).sp, 2),
                total_cycles: (old(self).total_cycles + 2) as u64,
                ..*old(self)
            }),
    {
        let lo = self.pull_byte(bus) as u16;
        let hi = self.pull_byte(bus) as u16;
        lo + hi * 256
    }

    /// Fetches the byte at the program counter and advances it.
    fn fetch_byte(&mut self, bus: &mut Bus) -> (r: u8)
        requires
            old(bus).wf(),
            old(self).total_cycles < CYCLE_CEILING,
        ensures
            final(bus).wf(),
            crate::bus::same_frame(*final(bus), *old(bus)),
            r == read_result(*old(bus), old(self).pc),
            *final(bus) == read_post(*old(bus), old(self).pc),
            *final(self) == (M6502 {
                pc: old(self).pc.wrapping_add(1),
                total_cycles: (old(self).total_cycles + 1) as u64,
                ..*old(self)
            }),
    {
        let pc = self.pc;
        self.pc = self.pc.wrapping_add(1);
        self.cpu_read_byte(bus, pc)
    }

    /// Fetches the word at the program counter and advances it by two.
    fn fetch_word(&mut self, bus: &mut Bus) -> (r: u16)
        requires
            old(bus).wf(),
            old(self).total_cycles < CYCLE_CEILING - 1,
        ensures
            final(bus).wf(),
            crate::bus::same_frame(*final(bus), *old(bus)),
            r == read_result(*old(bus), old(self).pc) + 256 * read_result(
                read_post(*old(bus), old(self).pc),
                old(self).pc.wrapping_add(1),
            ),
            *final(bus) == read_post(
                read_post(*old(bus), old(self).pc),
                old(self).pc.wrapping_add(1),
            ),
            *final(self) == (M6502 {
                pc: old(self).pc.wrapping_add(2),
                total_cycles: (old(self).total_cycles + 2) as u64,
                ..*old(self)
            }),
    {
        let pc = self.pc;
        self.pc = self.pc.wrapping_add(2);
        self.cpu_read_word(bus, pc)
    }

    /// Reads a pointer from the zero page; the high byte wraps within
    /// the page.
    fn read_zp16(&mut self, bus: &mut Bus, addr: u8) -> (r: u16)
        requires
            old(bus).wf(),
            old(self).total_cycles < CYCLE_CEILING - 1,
        ensures
            final(bus).wf(),
            crate::bus::same_frame(*final(bus), *old(bus)),
            r == read_result(*old(bus), addr as u16) + 256 * read_result(
                read_post(*old(bus), addr as u16),
                vstd::wrapping::u8_specs::wrapping_add(addr, 1) as u16,
            ),
            *final(bus) == read_post(
                read_post(*old(bus), addr as u16),
                vstd::wrapping::u8_specs::wrapping_add(addr, 1) as u16,
            ),
            *final(self) == (M6502 { total_cycles: (old(self).total_cycles + 2) as u64, ..*old(self) }),
    {
        let lo = self.cpu_read_byte(bus, addr as u16) as u16;
        let hi = self.cpu_read_byte(bus, addr.wrapping_add(1) as u16) as u16;
        lo + hi * 256
    }
}

/// True when two addresses sit on different 256-byte pages.
pub open spec fn page_crossed(a: u16, b: u16) -> bool {
    a / 256 != b / 256
}

/// The complete effect of operand-address computation: the effective
/// address, the CPU afterwards (program counter and cycles moved) and
/// the bus afterwards (operand fetches can touch live registers).
pub open spec fn fetch_addr_spec(cpu: M6502, b: Bus, mode: AddressingMode) -> (u16, M6502, Bus) {
    match mode {
        AddressingMode::Accumulator => (0u16, cpu, b),
        AddressingMode::Implied => (0u16, cpu, b),
        AddressingMode::Immediate => (
            cpu.pc,
            M6502 { pc: cpu.pc.wrapping_add(1), ..cpu },
            b,
        ),
        AddressingMode::Absolute => {
            let lo = read_result(b, cpu.pc);
            let b1 = read_post(b, cpu.pc);
            let hi = read_result(b1, cpu.pc.wrapping_add(1));
            let b2 = read_post(b1, cpu.pc.wrapping_add(1));
            (
                (lo + 256 * hi) as u16,
                M6502 {
                    pc: cpu.pc.wrapping_add(2),
                    total_cycles: (cpu.total_cycles + 2) as u64,
                    ..cpu
                },
                b2,
            )
        },
        AddressingMode::AbsoluteX => {
            let lo = read_result(b, cpu.pc);
            let b1 = read_post(b, cpu.pc);
            let hi = read_result(b1, cpu.pc.wrapping_add(1));
            let b2 = read_post(b1, cpu.pc.wrapping_add(1));
            let base = (lo + 256 * hi) as u16;
            let eff = base.wrapping_add(cpu.x as u16);
            let cost: int = if page_crossed(base, eff) {
                3
            } else {
                2
            };
            (
                eff,
                M6502 {
                    pc: cpu.pc.wrapping_add(2),
                    total_cycles: (cpu.total_cycles + cost) as u64,
                    ..cpu
                },
                b2,
            )
        },
        AddressingMode::AbsoluteXEc => {
            let lo = read_result(b, cpu.pc);
            let b1 = read_post(b, cpu.pc);
            let hi = read_result(b1, cpu.pc.wrapping_add(1));
            let b2 = read_post(b1, cpu.pc.wrapping_add(1));
            let base = (lo + 256 * hi) as u16;
            (
                base.wrapping_add(cpu.x as u16),
                M6502 {
                    pc: cpu.pc.wrapping_add(2),
                    total_cycles: (cpu.total_cycles + 3) as u64,
                    ..cpu
                },
                b2,
            )
        },
        AddressingMode::AbsoluteY => {
            let lo = read_result(b, cpu.pc);
            let b1 = read_post(b, cpu.pc);
            let hi = read_result(b1, cpu.pc.wrapping_add(1));
            let b2 = read_post(b1, cpu.pc.wrapping_add(1));
            let base = (lo + 256 * hi) as u16;
            let eff = base.wrapping_add(cpu.y as u16);
            let cost: int = if page_crossed(base, eff) {
                3
            } else {
                2
            };
            (
                eff,
                M6502 {
                    pc: cpu.pc.wrapping_add(2),
                    total_cycles: (cpu.total_cycles + cost) as u64,
                    ..cpu
                },
                b2,
            )
        },
        AddressingMode::AbsoluteYEc => {
            let lo = read_result(b, cpu.pc);
            let b1 = read_post(b, cpu.pc);
            let hi = read_result(b1, cpu.pc.wrapping_add(1));
            let b2 = read_post(b1, cpu.pc.wrapping_add(1));
            let base = (lo + 256 * hi) as u16;
            (
                base.wrapping_add(cpu.y as u16),
                M6502 {
                    pc: cpu.pc.wrapping_add(2),
                    total_cycles: (cpu.total_cycles + 3) as u64,
                    ..cpu
                },
                b2,
            )
        },
        AddressingMode::Indirect => {
            let lo = read_result(b, cpu.pc);
            let b1 = read_post(b, cpu.pc);
            let hi = read_result(b1, cpu.pc.wrapping_add(1));
            let b2 = read_post(b1, cpu.pc.wrapping_add(1));
            let ptr = (lo + 256 * hi) as u16;
            let ptr_hi = ((ptr / 256) * 256 + (ptr % 256 + 1) % 256) as u16;
            let tlo = read_result(b2, ptr);
            let b3 = read_post(b2, ptr);
            let thi = read_result(b3, ptr_hi);
            let b4 = read_post(b3, ptr_hi);
            (
                (tlo + 256 * thi) as u16,
                M6502 {
                    pc: cpu.pc.wrapping_add(2),
                    total_cycles: (cpu.total_cycles + 4) as u64,
                    ..cpu
                },
                b4,
            )
        },
        AddressingMode::IndirectX => {
            let nn = read_result(b, cpu.pc);
            let b1 = read_post(b, cpu.pc);
            let ptr = vstd::wrapping::u8_specs::wrapping_add(nn, cpu.x);
            let tlo = read_result(b1, ptr as u16);
            let b2 = read_post(b1, ptr as u16);
            let ptr1 = vstd::wrapping::u8_specs::wrapping_add(ptr, 1);
            let thi = read_result(b2, ptr1 as u16);
            let b3 = read_post(b2, ptr1 as u16);
            (
                (tlo + 256 * thi) as u16,
                M6502 {
                    pc: cpu.pc.wrapping_add(1),
                    total_cycles: (cpu.total_cycles + 4) as u64,
                    ..cpu
                },
                b3,
            )
        },
        AddressingMode::IndirectY => {
            let nn = read_result(b, cpu.pc);
            let b1 = read_post(b, cpu.pc);
            let tlo = read_result(b1, nn as u16);
            let b2 = read_post(b1, nn as u16);
            let nn1 = vstd::wrapping::u8_specs::wrapping_add(nn, 1);
            let thi = read_result(b2, nn1 as u16);
            let b3 = read_post(b2, nn1 as u16);
            let base = (tlo + 256 * thi) as u16;
            let eff = base.wrapping_add(cpu.y as u16);
            let cost: int = if page_crossed(base, eff) {
                4
            } else {
                3
            };
            (
                eff,
                M6502 {
                    pc: cpu.pc.wrapping_add(1),
                    total_cycles: (cpu.total_cycles + cost) as u64,
                    ..cpu
                },
                b3,
            )
        },
        AddressingMode::IndirectYEc => {
            let nn = read_result(b, cpu.pc);
            let b1 = read_post(b, cpu.pc);
            let tlo = read_result(b1, nn as u16);
            let b2 = read_post(b1, nn as u16);
            let nn1 = vstd::wrapping::u8_specs::wrapping_add(nn, 1);
            let thi = read_result(b2, nn1 as u16);
            let b3 = read_post(b2, nn1 as u16);
            let base = (tlo + 256 * thi) as u16;
            (
                base.wrapping_add(cpu.y as u16),
                M6502 {
                    pc: cpu.pc.wrapping_add(1),
                    total_cycles: (cpu.total_cycles + 4) as u64,
                    ..cpu
                },
                b3,
            )
        },
        AddressingMode::Relative => {
            let nn = read_result(b, cpu.pc);
            let b1 = read_post(b, cpu.pc);
            let pc1 = cpu.pc.wrapping_add(1);
            let ext: u16 = if nn >= 128 {
                (nn + 0xFF00) as u16
            } else {
                nn as u16
            };
            (
                pc1.wrapping_add(ext),
                M6502 { pc: pc1, total_cycles: (cpu.total_cycles + 1) as u64, ..cpu },
                b1,
            )
        },
        AddressingMode::ZeroPage => {
            let nn = read_result(b, cpu.pc);
            let b1 = read_post(b, cpu.pc);
            (
                nn as u16,
                M6502 {
                    pc: cpu.pc.wrapping_add(1),
                    total_cycles: (cpu.total_cycles + 1) as u64,
                    ..cpu
                },
                b1,
            )
        },
        AddressingMode::ZeroPageX => {
            let nn = read_result(b, cpu.pc);
            let b1 = read_post(b, cpu.pc);
            (
                vstd::wrapping::u8_specs::wrapping_add(nn, cpu.x) as u16,
                M6502 {
                    pc: cpu.pc.wrapping_add(1),
                    total_cycles: (cpu.total_cycles + 2) as u64,
                    ..cpu
                },
                b1,
            )
        },
        AddressingMode::ZeroPageY => {
            let nn = read_result(b, cpu.pc);
            let b1 = read_post(b, cpu.pc);
            (
                vstd::wrapping::u8_specs::wrapping_add(nn, cpu.y) as u16,
                M6502 {
                    pc: cpu.pc.wrapping_add(1),
                    total_cycles: (cpu.total_cycles + 2) as u64,
                    ..cpu
                },
                b1,
            )
        },
    }
}

impl M6502 {
    /// Computes the operand address for an addressing mode, charging
    /// the mode's fetch cycles; for the plain indexed modes one more
    /// when the index crosses a page, for the `Ec` modes always. The
    /// indirect modes wrap their pointer within its page, which is
    /// the indirect-JMP page-wrap quirk.
    fn fetch_address(&mut self, bus: &mut Bus, mode: AddressingMode) -> (addr: u16)
        requires
            old(bus).wf(),
            old(self).total_cycles < CYCLE_CEILING - 4,
        ensures
            final(bus).wf(),
            crate::bus::same_frame(*final(bus), *old(bus)),
            ({
                let (a2, c2, b2) = fetch_addr_spec(*old(self), *old(bus), mode);
                &&& addr == a2
                &&& *final(self) == c2
                &&& *final(bus) == b2
            }),
    {
        match mode {
            AddressingMode::Accumulator => 0,
            AddressingMode::Implied => 0,
            AddressingMode::Immediate => {
                let a = self.pc;
                self.pc = self.pc.wrapping_add(1);
                a
            },
            AddressingMode::Absolute => self.fetch_word(bus),
            AddressingMode::AbsoluteX => {
                let base = self.fetch_word(bus);
                let eff = base.wrapping_add(self.x as u16);
                if base / 256 != eff / 256 {
                    self.total_cycles = self.total_cycles + 1;
                }
                eff
            },
            AddressingMode::AbsoluteXEc => {
                let base = self.fetch_word(bus);
                let eff = base.wrapping_add(self.x as u16);
                self.total_cycles = self.total_cycles + 1;
                eff
            },
            AddressingMode::AbsoluteY => {
                let base = self.fetch_word(bus);
                let eff = base.wrapping_add(self.y as u16);
                if base / 256 != eff / 256 {
                    self.total_cycles = self.total_cycles + 1;
                }
                eff
            },
            AddressingMode::AbsoluteYEc => {
                let base = self.fetch_word(bus);
                let eff = base.wrapping_add(self.y as u16);
                self.total_cycles = self.total_cycles + 1;
                eff
            },
            AddressingMode::Indirect => {
                let ptr = self.fetch_word(bus);
                let lo = self.cpu_read_byte(bus, ptr) as u16;
                let ptr_hi = (ptr / 256) * 256 + (ptr % 256 + 1) % 256;
                let hi = self.cpu_read_byte(bus, ptr_hi) as u16;
                lo + hi * 256
            },
            AddressingMode::IndirectX => {
                let nn = self.fetch_byte(bus);
                self.total_cycles = self.total_cycles + 1;
                self.read_zp16(bus, nn.wrapping_add(self.x))
            },
            AddressingMode::IndirectY => {
                let nn = self.fetch_byte(bus);
                let base = self.read_zp16(bus, nn);
                let eff = base.wrapping_add(self.y as u16);
                if base / 256 != eff / 256 {
                    self.total_cycles = self.total_cycles + 1;
                }
                eff
            },
            AddressingMode::IndirectYEc => {
                let nn = self.fetch_byte(bus);
                let base = self.read_zp16(bus, nn);
                let eff = base.wrapping_add(self.y as u16);
                self.total_cycles = self.total_cycles + 1;
                eff
            },
            AddressingMode::Relative => {
                let nn = self.fetch_byte(bus);
                let ext: u16 = if nn >= 128 {
                    (nn as u16) + 0xFF00
                } else {
                    nn as u16
                };
                self.pc.wrapping_add(ext)
            },
            AddressingMode::ZeroPage => {
                let nn = self.fetch_byte(bus);
                nn as u16
            },
            AddressingMode::ZeroPageX => {
                let nn = self.fetch_byte(bus);
                self.total_cycles = self.total_cycles + 1;
                nn.wrapping_add(self.x) as u16
            },
            AddressingMode::ZeroPageY => {
                let nn = self.fetch_byte(bus);
                self.total_cycles = self.total_cycles + 1;
                nn.wrapping_add(self.y) as u16
            },
        }
    }

    /// Power-on and reset: clears the registers, sets the status to
    /// `0x34` and the stack pointer to `0xFD`, loads the program
    /// counter from the reset vector at `$FFFC`, and charges the
    /// seven-cycle reset sequence. The cycle counter itself persists.
    pub fn reset(&mut self, bus: &mut Bus)
        requires
            old(bus).wf(),
            old(self).total_cycles < CYCLE_CEILING - 6,
        ensures
            final(bus).wf(),
            crate::bus::same_frame(*final(bus), *old(bus)),
            *final(bus) == read_post(read_post(*old(bus), 0xFFFC), 0xFFFD),
            final(self).a == 0 && final(self).x == 0 && final(self).y == 0,
            final(self).p == 0x34,
            final(self).sp == 0xFD,
            final(self).pc == read_result(*old(bus), 0xFFFC) + 256 * read_result(
                read_post(*old(bus), 0xFFFC),
                0xFFFD,
            ),
            final(self).total_cycles == old(self).total_cycles + 7,
    {
        self.a = 0;
        self.x = 0;
        self.y = 0;
        self.p = 0x34;
        self.sp = 0xFD;
        self.pc = self.cpu_read_word(bus, RESET_ADDR);
        self.total_cycles = self.total_cycles + 5;
    }

    /// Services a maskable interrupt: nothing happens while the I
    /// flag is set; otherwise the program counter and the status
    /// (with the unused bit, not B) are pushed, I is set, and the
    /// handler comes from the vector at `$FFFE`. Seven cycles.
    pub fn irq(&mut self, bus: &mut Bus)
        requires
            old(bus).wf(),
            old(self).total_cycles < CYCLE_CEILING - 6,
        ensures
            final(bus).wf(),
            crate::bus::same_frame(*final(bus), *old(bus)),
            bit8(old(self).p, 2) ==> *final(self) == *old(self) && *final(bus) == *old(bus),
            !bit8(old(self).p, 2) ==> ({
                let ram1 = old(bus).ram@.update(0x100 + old(self).sp, (old(self).pc / 256) as u8).update(
                    0x100 + vstd::wrapping::u8_specs::wrapping_sub(old(self).sp, 1),
                    (old(self).pc % 256) as u8,
                ).update(
                    0x100 + vstd::wrapping::u8_specs::wrapping_sub(old(self).sp, 2),
                    old(self).p | 0x20,
                );
                let b1 = Bus { ram: final(bus).ram, ..*old(bus) };
                &&& final(bus).ram@ == ram1
                &&& *final(bus) == read_post(read_post(b1, 0xFFFE), 0xFFFF)
                &&& *final(self) == (M6502 {
                    p: with_bit8(old(self).p, 2, true),
                    sp: vstd::wrapping::u8_specs::wrapping_sub(old(self).sp, 3),
                    pc: (read_result(b1, 0xFFFE) + 256 * read_result(
                        read_post(b1, 0xFFFE),
                        0xFFFF,
                    )) as u16,
                    total_cycles: (old(self).total_cycles + 7) as u64,
                    ..*old(self)
                })
            }),
    {
        if crate::bitops::test_bit(self.p, FLAG_I) {
            return ;
        }
        let pc = self.pc;
        self.push_word(bus, pc);
        let pushed = self.p | 0x20;
        self.push_byte(bus, pushed);
        self.p = crate::bitops::modify_bit(self.p, FLAG_I, true);
        self.pc = self.cpu_read_word(bus, IRQ_ADDR);
        self.total_cycles = self.total_cycles + 2;
    }

    /// Services the non-maskable interrupt: always taken, otherwise
    /// the same sequence as `irq`, vectored through `$FFFA`. Seven
    /// cycles.
    pub fn nmi(&mut self, bus: &mut Bus)
        requires
            old(bus).wf(),
            old(self).total_cycles < CYCLE_CEILING - 6,
        ensures
            final(bus).wf(),
            crate::bus::same_frame(*final(bus), *old(bus)),
            ({
                let ram1 = old(bus).ram@.update(0x100 + old(self).sp, (old(self).pc / 256) as u8).update(
                    0x100 + vstd::wrapping::u8_specs::wrapping_sub(old(self).sp, 1),
                    (old(self).pc % 256) as u8,
                ).update(
                    0x100 + vstd::wrapping::u8_specs::wrapping_sub(old(self).sp, 2),
                    old(self).p | 0x20,
                );
                let b1 = Bus { ram: final(bus).ram, ..*old(bus) };
                &&& final(bus).ram@ == ram1
                &&& *final(bus) == read_post(read_post(b1, 0xFFFA), 0xFFFB)
                &&& *final(self) == (M6502 {
                    p: with_bit8(old(self).p, 2, true),
                    sp: vstd::wrapping::u8_specs::wrapping_sub(old(self).sp, 3),
                    pc: (read_result(b1, 0xFFFA) + 256 * read_result(
                        read_post(b1, 0xFFFA),
                        0xFFFB,
                    )) as u16,
                    total_cycles: (old(self).total_cycles + 7) as u64,
                    ..*old(self)
                })
            }),
    {
        let pc = self.pc;
        self.push_word(bus, pc);
        let pushed = self.p | 0x20;
        self.push_byte(bus, pushed);
        self.p = crate::bitops::modify_bit(self.p, FLAG_I, true);
        self.pc = self.cpu_read_word(bus, NMI_ADDR);
        self.total_cycles = self.total_cycles + 2;
    }
}

impl M6502 {
    /// Adds a value and the carry into the accumulator; SBC passes
    /// the operand's complement through the same path.
    fn do_adc(&mut self, val: u8)
        ensures
            *final(self) == (M6502 {
                a: adc_spec(old(self).a, old(self).p, val).0,
                p: adc_spec(old(self).a, old(self).p, val).1,
                ..*old(self)
            }),
    {
        let carry: u16 = if crate::bitops::test_bit(self.p, FLAG_C) {
            1
        } else {
            0
        };
        let sum: u16 = self.a as u16 + val as u16 + carry;
        let res: u8 = (sum % 256) as u8;
        let a0 = self.a;
        self.a = res;
        self.modify_zn(res);
        self.p = crate::bitops::modify_bit(self.p, FLAG_V, (a0 ^ res) & (val ^ res) & 0x80 != 0);
        self.p = crate::bitops::modify_bit(self.p, FLAG_C, sum > 255);
    }

    /// ADC: the operand is fetched by `mode` and added with carry.
    fn op_adc(&mut self, bus: &mut Bus, mode: AddressingMode)
        requires
            old(bus).wf(),
            old(self).total_cycles < CYCLE_CEILING - 7,
        ensures
            final(bus).wf(),
            crate::bus::same_frame(*final(bus), *old(bus)),
            ({
                let (a2, c2, b2) = fetch_addr_spec(*old(self), *old(bus), mode);
                let m = read_result(b2, a2);
                &&& *final(bus) == read_post(b2, a2)
                &&& *final(self) == (M6502 {
                    a: adc_spec(c2.a, c2.p, m).0,
                    p: adc_spec(c2.a, c2.p, m).1,
                    total_cycles: (c2.total_cycles + 1) as u64,
                    ..c2
                })
            }),
    {
        let addr = self.fetch_address(bus, mode);
        let m = self.cpu_read_byte(bus, addr);
        self.do_adc(m);
    }

    /// SBC: ADC of the operand's ones' complement.
    fn op_sbc(&mut self, bus: &mut Bus, mode: AddressingMode)
        requires
            old(bus).wf(),
            old(self).total_cycles < CYCLE_CEILING - 7,
        ensures
            final(bus).wf(),
            crate::bus::same_frame(*final(bus), *old(bus)),
            ({
                let (a2, c2, b2) = fetch_addr_spec(*old(self), *old(bus), mode);
                let m = read_result(b2, a2) ^ 0xFF;
                &&& *final(bus) == read_post(b2, a2)
                &&& *final(self) == (M6502 {
                    a: adc_spec(c2.a, c2.p, m).0,
                    p: adc_spec(c2.a, c2.p, m).1,
                    total_cycles: (c2.total_cycles + 1) as u64,
                    ..c2
                })
            }),
    {
        let addr = self.fetch_address(bus, mode);
        let m = self.cpu_read_byte(bus, addr);
        self.do_adc(m ^ 0xFF);
    }

    /// AND, ORA or EOR: `kind` 0 is AND, 1 is ORA, 2 is EOR.
    fn op_logic(&mut self, bus: &mut Bus, mode: AddressingMode, kind: u8)
        requires
            old(bus).wf(),
            old(self).total_cycles < CYCLE_CEILING - 7,
        ensures
            final(bus).wf(),
            crate::bus::same_frame(*final(bus), *old(bus)),
            ({
                let (a2, c2, b2) = fetch_addr_spec(*old(self), *old(bus), mode);
                let m = read_result(b2, a2);
                let res = if kind == 0 {
                    c2.a & m
                } else if kind == 1 {
                    c2.a | m
                } else {
                    c2.a ^ m
                };
                &&& *final(bus) == read_post(b2, a2)
                &&& *final(self) == (M6502 {
                    a: res,
                    p: zn_spec(c2.p, res),
                    total_cycles: (c2.total_cycles + 1) as u64,
                    ..c2
                })
            }),
    {
        let addr = self.fetch_address(bus, mode);
        let m = self.cpu_read_byte(bus, addr);
        let res = if kind == 0 {
            self.a & m
        } else if kind == 1 {
            self.a | m
        } else {
            self.a ^ m
        };
        self.a = res;
        self.modify_zn(res);
    }

    /// CMP, CPX or CPY against the register value handed in.
    fn op_cmp(&mut self, bus: &mut Bus, mode: AddressingMode, reg: u8)
        requires
            old(bus).wf(),
            old(self).total_cycles < CYCLE_CEILING - 7,
        ensures
            final(bus).wf(),
            crate::bus::same_frame(*final(bus), *old(bus)),
            ({
                let (a2, c2, b2) = fetch_addr_spec(*old(self), *old(bus), mode);
                let m = read_result(b2, a2);
                &&& *final(bus) == read_post(b2, a2)
                &&& *final(self) == (M6502 {
                    p: cmp_spec(c2.p, reg, m),
                    total_cycles: (c2.total_cycles + 1) as u64,
                    ..c2
                })
            }),
    {
        let addr = self.fetch_address(bus, mode);
        let m = self.cpu_read_byte(bus, addr);
        self.p = crate::bitops::modify_bit(self.p, FLAG_C, reg >= m);
        self.p = crate::bitops::modify_bit(self.p, FLAG_Z, reg == m);
        self.p = crate::bitops::modify_bit(
            self.p,
            FLAG_N,
            crate::bitops::test_bit(reg.wrapping_sub(m), 7),
        );
    }

    /// BIT: Z from the accumulator mask, V and N from the operand.
    fn op_bit(&mut self, bus: &mut Bus, mode: AddressingMode)
        requires
            old(bus).wf(),
            old(self).total_cycles < CYCLE_CEILING - 7,
        ensures
            final(bus).wf(),
            crate::bus::same_frame(*final(bus), *old(bus)),
            ({
                let (a2, c2, b2) = fetch_addr_spec(*old(self), *old(bus), mode);
                let m = read_result(b2, a2);
                &&& *final(bus) == read_post(b2, a2)
                &&& *final(self) == (M6502 {
                    p: bit_spec(c2.p, c2.a, m),
                    total_cycles: (c2.total_cycles + 1) as u64,
                    ..c2
                })
            }),
    {
        let addr = self.fetch_address(bus, mode);
        let m = self.cpu_read_byte(bus, addr);
        self.p = crate::bitops::modify_bit(self.p, FLAG_Z, self.a & m == 0);
        self.p = crate::bitops::modify_bit(self.p, FLAG_V, crate::bitops::test_bit(m, 6));
        self.p = crate::bitops::modify_bit(self.p, FLAG_N, crate::bitops::test_bit(m, 7));
    }

    /// LDA, LDX or LDY: `reg` 0 loads A, 1 loads X, 2 loads Y.
    #[verifier::rlimit(60)]
    fn op_load(&mut self, bus: &mut Bus, mode: AddressingMode, reg: u8)
        requires
            old(bus).wf(),
            old(self).total_cycles < CYCLE_CEILING - 7,
        ensures
            final(bus).wf(),
            crate::bus::same_frame(*final(bus), *old(bus)),
            ({
                let (a2, c2, b2) = fetch_addr_spec(*old(self), *old(bus), mode);
                let m = read_result(b2, a2);
                &&& *final(bus) == read_post(b2, a2)
                &&& *final(self) == (M6502 {
                    a: if reg == 0 {
                        m
                    } else {
                        c2.a
                    },
                    x: if reg == 1 {
                        m
                    } else {
                        c2.x
                    },
                    y: if reg == 0 || reg == 1 {
                        c2.y
                    } else {
                        m
                    },
                    p: zn_spec(c2.p, m),
                    total_cycles: (c2.total_cycles + 1) as u64,
                    ..c2
                })
            }),
    {
        let addr = self.fetch_address(bus, mode);
        let m = self.cpu_read_byte(bus, addr);
        if reg == 0 {
            self.a = m;
        } else if reg == 1 {
            self.x = m;
        } else {
            self.y = m;
        }
        self.modify_zn(m);
    }

    /// STA, STX or STY: writes the register value at the operand
    /// address.
    fn op_store(&mut self, bus: &mut Bus, mode: AddressingMode, val: u8)
        requires
            old(bus).wf(),
            old(self).total_cycles < CYCLE_CEILING - 7,
        ensures
            final(bus).wf(),
            crate::bus::same_frame(*final(bus), *old(bus)),
            ({
                let (a2, c2, b2) = fetch_addr_spec(*old(self), *old(bus), mode);
                &&& crate::bus::write_rel(b2, *final(bus), a2, val)
                &&& *final(self) == (M6502 { total_cycles: (c2.total_cycles + 1) as u64, ..c2 })
            }),
    {
        let addr = self.fetch_address(bus, mode);
        self.cpu_write_byte(bus, addr, val);
    }

    /// A conditional branch: one extra cycle when taken, one more
    /// when the target sits on another page than the updated program
    /// counter.
    fn op_branch(&mut self, bus: &mut Bus, take: bool)
        requires
            old(bus).wf(),
            old(self).total_cycles < CYCLE_CEILING - 7,
        ensures
            final(bus).wf(),
            crate::bus::same_frame(*final(bus), *old(bus)),
            ({
                let (a2, c2, b2) = fetch_addr_spec(*old(self), *old(bus), AddressingMode::Relative);
                &&& *final(bus) == b2
                &&& (take ==> *final(self) == (M6502 {
                    pc: a2,
                    total_cycles: (c2.total_cycles + (if page_crossed(c2.pc, a2) {
                        2int
                    } else {
                        1int
                    })) as u64,
                    ..c2
                }))
                &&& (!take ==> *final(self) == c2)
            }),
    {
        let new_pc = self.fetch_address(bus, AddressingMode::Relative);
        if take {
            if self.pc / 256 != new_pc / 256 {
                self.total_cycles = self.total_cycles + 2;
            } else {
                self.total_cycles = self.total_cycles + 1;
            }
            self.pc = new_pc;
        }
    }

    /// A shift or rotate on memory: read, modify, dummy-write cycle,
    /// write back. `left` picks the direction, `logical` suppresses
    /// the carry-in of the rotates.
    fn op_shift_mem(&mut self, bus: &mut Bus, mode: AddressingMode, left: bool, logical: bool)
        requires
            old(bus).wf(),
            old(self).total_cycles < CYCLE_CEILING - 7,
        ensures
            final(bus).wf(),
            crate::bus::same_frame(*final(bus), *old(bus)),
            ({
                let (a2, c2, b2) = fetch_addr_spec(*old(self), *old(bus), mode);
                let m = read_result(b2, a2);
                let b3 = read_post(b2, a2);
                let res = if left {
                    shift_left_spec(c2.p, m, logical)
                } else {
                    shift_right_spec(c2.p, m, logical)
                };
                &&& crate::bus::write_rel(b3, *final(bus), a2, res.0)
                &&& *final(self) == (M6502 {
                    p: zn_spec(res.1, res.0),
                    total_cycles: (c2.total_cycles + 3) as u64,
                    ..c2
                })
            }),
    {
        let addr = self.fetch_address(bus, mode);
        let m = self.cpu_read_byte(bus, addr);
        let res = self.shift_value(m, left, logical);
        self.modify_zn(res);
        self.total_cycles = self.total_cycles + 1;
        self.cpu_write_byte(bus, addr, res);
    }

    /// The shared shift/rotate data path: returns the shifted value
    /// and moves the departing bit into C.
    fn shift_value(&mut self, val: u8, left: bool, logical: bool) -> (r: u8)
        ensures
            left ==> r == shift_left_spec(old(self).p, val, logical).0 && *final(self) == (M6502 {
                p: shift_left_spec(old(self).p, val, logical).1,
                ..*old(self)
            }),
            !left ==> r == shift_right_spec(old(self).p, val, logical).0 && *final(self)
                == (M6502 { p: shift_right_spec(old(self).p, val, logical).1, ..*old(self) }),
    {
        if left {
            let carry_in: u8 = if !logical && crate::bitops::test_bit(self.p, FLAG_C) {
                1
            } else {
                0
            };
            let res = (val % 128) * 2 + carry_in;
            self.p = crate::bitops::modify_bit(self.p, FLAG_C, crate::bitops::test_bit(val, 7));
            self.modify_zn(res);
            res
        } else {
            let carry_in: u8 = if !logical && crate::bitops::test_bit(self.p, FLAG_C) {
                128
            } else {
                0
            };
            let res = val / 2 + carry_in;
            self.p = crate::bitops::modify_bit(self.p, FLAG_C, crate::bitops::test_bit(val, 0));
            self.modify_zn(res);
            res
        }
    }

    /// INC or DEC on memory: read, step, dummy-write cycle, write
    /// back; `up` picks the direction.
    fn op_step_mem(&mut self, bus: &mut Bus, mode: AddressingMode, up: bool)
        requires
            old(bus).wf(),
            old(self).total_cycles < CYCLE_CEILING - 7,
        ensures
            final(bus).wf(),
            crate::bus::same_frame(*final(bus), *old(bus)),
            ({
                let (a2, c2, b2) = fetch_addr_spec(*old(self), *old(bus), mode);
                let m = read_result(b2, a2);
                let b3 = read_post(b2, a2);
                let res = if up {
                    vstd::wrapping::u8_specs::wrapping_add(m, 1)
                } else {
                    vstd::wrapping::u8_specs::wrapping_sub(m, 1)
                };
                &&& crate::bus::write_rel(b3, *final(bus), a2, res)
                &&& *final(self) == (M6502 {
                    p: zn_spec(c2.p, res),
                    total_cycles: (c2.total_cycles + 3) as u64,
                    ..c2
                })
            }),
    {
        let addr = self.fetch_address(bus, mode);
        let m = self.cpu_read_byte(bus, addr);
        let res = if up {
            m.wrapping_add(1)
        } else {
            m.wrapping_sub(1)
        };
        self.modify_zn(res);
        self.total_cycles = self.total_cycles + 1;
        self.cpu_write_byte(bus, addr, res);
    }

    /// Pulls the status from the stack, keeping the live register's
    /// bits 4 and 5.
    fn pull_p(&mut self, bus: &mut Bus)
        requires
            old(bus).wf(),
            old(self).total_cycles < CYCLE_CEILING,
        ensures
            final(bus).wf(),
            crate::bus::same_frame(*final(bus), *old(bus)),
            *final(bus) == *old(bus),
            *final(self) == (M6502 {
                p: (old(bus).ram@[0x100 + vstd::wrapping::u8_specs::wrapping_add(old(self).sp, 1)]
                    & 0xCF) | (old(self).p & 0x30),
                sp: vstd::wrapping::u8_specs::wrapping_add(old(self).sp, 1),
                total_cycles: (old(self).total_cycles + 1) as u64,
                ..*old(self)
            }),
    {
        let pulled = self.pull_byte(bus);
        self.p = (pulled & 0xCF) | (self.p & 0x30);
    }
}


/// The post-fetch CPU: the program counter advanced past the opcode
/// and its fetch cycle charged.
pub open spec fn after_opcode_fetch(c: M6502) -> M6502 {
    M6502 { pc: c.pc.wrapping_add(1), total_cycles: (c.total_cycles + 1) as u64, ..c }
}

/// One ADC or (with `invert`) SBC from the post-fetch state.
pub open spec fn adc_rel(c0: M6502, b0: Bus, cf: M6502, bf: Bus, mode: AddressingMode, invert: bool) -> bool {
    let (a2, c2, b2) = fetch_addr_spec(c0, b0, mode);
    let m = if invert {
        read_result(b2, a2) ^ 0xFF
    } else {
        read_result(b2, a2)
    };
    &&& bf == read_post(b2, a2)
    &&& cf == (M6502 {
        a: adc_spec(c2.a, c2.p, m).0,
        p: adc_spec(c2.a, c2.p, m).1,
        total_cycles: (c2.total_cycles + 1) as u64,
        ..c2
    })
}

/// One AND (`kind` 0), ORA (1) or EOR (2) from the post-fetch state.
pub open spec fn logic_rel(c0: M6502, b0: Bus, cf: M6502, bf: Bus, mode: AddressingMode, kind: u8) -> bool {
    let (a2, c2, b2) = fetch_addr_spec(c0, b0, mode);
    let m = read_result(b2, a2);
    let res = if kind == 0 {
        c2.a & m
    } else if kind == 1 {
        c2.a | m
    } else {
        c2.a ^ m
    };
    &&& bf == read_post(b2, a2)
    &&& cf == (M6502 {
        a: res,
        p: zn_spec(c2.p, res),
        total_cycles: (c2.total_cycles + 1) as u64,
        ..c2
    })
}

/// One CMP, CPX or CPY of the register value `reg` from the
/// post-fetch state.
pub open spec fn cmp_rel(c0: M6502, b0: Bus, cf: M6502, bf: Bus, mode: AddressingMode, reg: u8) -> bool {
    let (a2, c2, b2) = fetch_addr_spec(c0, b0, mode);
    let m = read_result(b2, a2);
    &&& bf == read_post(b2, a2)
    &&& cf == (M6502 {
        p: cmp_spec(c2.p, reg, m),
        total_cycles: (c2.total_cycles + 1) as u64,
        ..c2
    })
}

/// One BIT from the post-fetch state.
pub open spec fn bit_rel(c0: M6502, b0: Bus, cf: M6502, bf: Bus, mode: AddressingMode) -> bool {
    let (a2, c2, b2) = fetch_addr_spec(c0, b0, mode);
    let m = read_result(b2, a2);
    &&& bf == read_post(b2, a2)
    &&& cf == (M6502 {
        p: bit_spec(c2.p, c2.a, m),
        total_cycles: (c2.total_cycles + 1) as u64,
        ..c2
    })
}

/// One LDA (`reg` 0), LDX (1) or LDY (2) from the post-fetch state.
pub open spec fn load_rel(c0: M6502, b0: Bus, cf: M6502, bf: Bus, mode: AddressingMode, reg: u8) -> bool {
    let (a2, c2, b2) = fetch_addr_spec(c0, b0, mode);
    let m = read_result(b2, a2);
    &&& bf == read_post(b2, a2)
    &&& cf == (M6502 {
        a: if reg == 0 {
            m
        } else {
            c2.a
        },
        x: if reg == 1 {
            m
        } else {
            c2.x
        },
        y: if reg == 0 || reg == 1 {
            c2.y
        } else {
            m
        },
        p: zn_spec(c2.p, m),
        total_cycles: (c2.total_cycles + 1) as u64,
        ..c2
    })
}

/// One STA, STX or STY of the value `val` from the post-fetch state.
pub open spec fn store_rel(c0: M6502, b0: Bus, cf: M6502, bf: Bus, mode: AddressingMode, val: u8) -> bool {
    let (a2, c2, b2) = fetch_addr_spec(c0, b0, mode);
    &&& crate::bus::write_rel(b2, bf, a2, val)
    &&& cf == (M6502 { total_cycles: (c2.total_cycles + 1) as u64, ..c2 })
}

/// One conditional branch from the post-fetch state: an extra cycle
/// when taken, one more when the target crosses a page.
pub open spec fn branch_rel(c0: M6502, b0: Bus, cf: M6502, bf: Bus, take: bool) -> bool {
    let (a2, c2, b2) = fetch_addr_spec(c0, b0, AddressingMode::Relative);
    &&& bf == b2
    &&& (take ==> cf == (M6502 {
        pc: a2,
        total_cycles: (c2.total_cycles + (if page_crossed(c2.pc, a2) {
            2int
        } else {
            1int
        })) as u64,
        ..c2
    }))
    &&& (!take ==> cf == c2)
}

/// One shift or rotate on memory from the post-fetch state: read,
/// modify, dummy-write cycle, write back.
pub open spec fn shift_mem_rel(c0: M6502, b0: Bus, cf: M6502, bf: Bus, mode: AddressingMode, left: bool, logical: bool) -> bool {
    let (a2, c2, b2) = fetch_addr_spec(c0, b0, mode);
    let m = read_result(b2, a2);
    let b3 = read_post(b2, a2);
    let res = if left {
        shift_left_spec(c2.p, m, logical)
    } else {
        shift_right_spec(c2.p, m, logical)
    };
    &&& crate::bus::write_rel(b3, bf, a2, res.0)
    &&& cf == (M6502 {
        p: zn_spec(res.1, res.0),
        total_cycles: (c2.total_cycles + 3) as u64,
        ..c2
    })
}

/// One shift or rotate on the accumulator from the post-fetch state.
pub open spec fn shift_acc_rel(c0: M6502, b0: Bus, cf: M6502, bf: Bus, left: bool, logical: bool) -> bool {
    let res = if left {
        shift_left_spec(c0.p, c0.a, logical)
    } else {
        shift_right_spec(c0.p, c0.a, logical)
    };
    &&& bf == b0
    &&& cf == (M6502 {
        a: res.0,
        p: res.1,
        total_cycles: (c0.total_cycles + 1) as u64,
        ..c0
    })
}

/// One INC or DEC on memory from the post-fetch state.
pub open spec fn step_mem_rel(c0: M6502, b0: Bus, cf: M6502, bf: Bus, mode: AddressingMode, up: bool) -> bool {
    let (a2, c2, b2) = fetch_addr_spec(c0, b0, mode);
    let m = read_result(b2, a2);
    let b3 = read_post(b2, a2);
    let res = if up {
        vstd::wrapping::u8_specs::wrapping_add(m, 1)
    } else {
        vstd::wrapping::u8_specs::wrapping_sub(m, 1)
    };
    &&& crate::bus::write_rel(b3, bf, a2, res)
    &&& cf == (M6502 {
        p: zn_spec(c2.p, res),
        total_cycles: (c2.total_cycles + 3) as u64,
        ..c2
    })
}

/// An implied one-byte instruction that leaves the bus alone and
/// moves only the named register state.
pub open spec fn implied_rel(c0: M6502, b0: Bus, cf: M6502, bf: Bus, c1: M6502) -> bool {
    &&& bf == b0
    &&& cf == c1
}

/// The effect of one dispatched opcode from the post-fetch state
/// `(c0, b0)`: for each official opcode, how the final CPU `cf` and
/// bus `bf` relate to it; false for every other byte.
pub open spec fn op_rel(op: u8, c0: M6502, b0: Bus, cf: M6502, bf: Bus) -> bool {
    match op {

        0x00 => ({
                let ret = c0.pc.wrapping_add(1);
                let ram1 = b0.ram@.update(0x100 + c0.sp, (ret / 256) as u8).update(
                    0x100 + vstd::wrapping::u8_specs::wrapping_sub(c0.sp, 1),
                    (ret % 256) as u8,
                ).update(0x100 + vstd::wrapping::u8_specs::wrapping_sub(c0.sp, 2), c0.p | 0x30);
                let b1 = Bus { ram: bf.ram, ..b0 };
                &&& bf.ram@ == ram1
                &&& bf == read_post(read_post(b1, 0xFFFE), 0xFFFF)
                &&& cf == (M6502 {
                    p: with_bit8(c0.p, 2, true),
                    sp: vstd::wrapping::u8_specs::wrapping_sub(c0.sp, 3),
                    pc: (read_result(b1, 0xFFFE) + 256 * read_result(
                        read_post(b1, 0xFFFE),
                        0xFFFF,
                    )) as u16,
                    total_cycles: (c0.total_cycles + 6) as u64,
                    ..c0
                })
            }),
        0x01 => logic_rel(c0, b0, cf, bf, AddressingMode::IndirectX, 1),
        0x05 => logic_rel(c0, b0, cf, bf, AddressingMode::ZeroPage, 1),
        0x06 => shift_mem_rel(c0, b0, cf, bf, AddressingMode::ZeroPage, true, true),
        0x08 => ({
                &&& bf.ram@ == b0.ram@.update(0x100 + c0.sp, c0.p | 0x30)
                &&& bf == (Bus { ram: bf.ram, ..b0 })
                &&& cf == (M6502 {
                    sp: vstd::wrapping::u8_specs::wrapping_sub(c0.sp, 1),
                    total_cycles: (c0.total_cycles + 2) as u64,
                    ..c0
                })
            }),
        0x09 => logic_rel(c0, b0, cf, bf, AddressingMode::Immediate, 1),
        0x0A => shift_acc_rel(c0, b0, cf, bf, true, true),
        0x0D => logic_rel(c0, b0, cf, bf, AddressingMode::Absolute, 1),
        0x0E => shift_mem_rel(c0, b0, cf, bf, AddressingMode::Absolute, true, true),
        0x10 => branch_rel(c0, b0, cf, bf, !bit8(c0.p, 7)),
        0x11 => logic_rel(c0, b0, cf, bf, AddressingMode::IndirectY, 1),
        0x15 => logic_rel(c0, b0, cf, bf, AddressingMode::ZeroPageX, 1),
        0x16 => shift_mem_rel(c0, b0, cf, bf, AddressingMode::ZeroPageX, true, true),
        0x18 => implied_rel(c0, b0, cf, bf, (M6502 { p: with_bit8(c0.p, 0, false), total_cycles: (c0.total_cycles + 1) as u64, ..c0 })),
        0x19 => logic_rel(c0, b0, cf, bf, AddressingMode::AbsoluteY, 1),
        0x1D => logic_rel(c0, b0, cf, bf, AddressingMode::AbsoluteX, 1),
        0x1E => shift_mem_rel(c0, b0, cf, bf, AddressingMode::AbsoluteXEc, true, true),
        0x20 => ({
                let ret = c0.pc.wrapping_add(1);
                let ram1 = b0.ram@.update(0x100 + c0.sp, (ret / 256) as u8).update(
                    0x100 + vstd::wrapping::u8_specs::wrapping_sub(c0.sp, 1),
                    (ret % 256) as u8,
                );
                let b1 = Bus { ram: bf.ram, ..b0 };
                let c1 = M6502 {
                    sp: vstd::wrapping::u8_specs::wrapping_sub(c0.sp, 2),
                    total_cycles: (c0.total_cycles + 2) as u64,
                    ..c0
                };
                let (a2, c2, b2) = fetch_addr_spec(c1, b1, AddressingMode::Absolute);
                &&& bf.ram@ == ram1
                &&& bf == b2
                &&& cf == (M6502 { pc: a2, total_cycles: (c2.total_cycles + 1) as u64, ..c2 })
            }),
        0x21 => logic_rel(c0, b0, cf, bf, AddressingMode::IndirectX, 0),
        0x24 => bit_rel(c0, b0, cf, bf, AddressingMode::ZeroPage),
        0x25 => logic_rel(c0, b0, cf, bf, AddressingMode::ZeroPage, 0),
        0x26 => shift_mem_rel(c0, b0, cf, bf, AddressingMode::ZeroPage, true, false),
        0x28 => ({
                let v = b0.ram@[0x100 + vstd::wrapping::u8_specs::wrapping_add(c0.sp, 1)];
                &&& bf == b0
                &&& cf == (M6502 {
                    p: (v & 0xCF) | (c0.p & 0x30),
                    sp: vstd::wrapping::u8_specs::wrapping_add(c0.sp, 1),
                    total_cycles: (c0.total_cycles + 3) as u64,
                    ..c0
                })
            }),
        0x29 => logic_rel(c0, b0, cf, bf, AddressingMode::Immediate, 0),
        0x2A => shift_acc_rel(c0, b0, cf, bf, true, false),
        0x2C => bit_rel(c0, b0, cf, bf, AddressingMode::Absolute),
        0x2D => logic_rel(c0, b0, cf, bf, AddressingMode::Absolute, 0),
        0x2E => shift_mem_rel(c0, b0, cf, bf, AddressingMode::Absolute, true, false),
        0x30 => branch_rel(c0, b0, cf, bf, bit8(c0.p, 7)),
        0x31 => logic_rel(c0, b0, cf, bf, AddressingMode::IndirectY, 0),
        0x35 => logic_rel(c0, b0, cf, bf, AddressingMode::ZeroPageX, 0),
        0x36 => shift_mem_rel(c0, b0, cf, bf, AddressingMode::ZeroPageX, true, false),
        0x38 => implied_rel(c0, b0, cf, bf, (M6502 { p: with_bit8(c0.p, 0, true), total_cycles: (c0.total_cycles + 1) as u64, ..c0 })),
        0x39 => logic_rel(c0, b0, cf, bf, AddressingMode::AbsoluteY, 0),
        0x3D => logic_rel(c0, b0, cf, bf, AddressingMode::AbsoluteX, 0),
        0x3E => shift_mem_rel(c0, b0, cf, bf, AddressingMode::AbsoluteXEc, true, false),
        0x40 => ({
                let v = b0.ram@[0x100 + vstd::wrapping::u8_specs::wrapping_add(c0.sp, 1)];
                let w = b0.ram@[0x100 + vstd::wrapping::u8_specs::wrapping_add(c0.sp, 2)] + 256 * b0.ram@[0x100
                    + vstd::wrapping::u8_specs::wrapping_add(c0.sp, 3)];
                &&& bf == b0
                &&& cf == (M6502 {
                    p: (v & 0xCF) | (c0.p & 0x30),
                    pc: w as u16,
                    sp: vstd::wrapping::u8_specs::wrapping_add(c0.sp, 3),
                    total_cycles: (c0.total_cycles + 5) as u64,
                    ..c0
                })
            }),
        0x41 => logic_rel(c0, b0, cf, bf, AddressingMode::IndirectX, 2),
        0x45 => logic_rel(c0, b0, cf, bf, AddressingMode::ZeroPage, 2),
        0x46 => shift_mem_rel(c0, b0, cf, bf, AddressingMode::ZeroPage, false, true),
        0x48 => ({
                &&& bf.ram@ == b0.ram@.update(0x100 + c0.sp, c0.a)
                &&& bf == (Bus { ram: bf.ram, ..b0 })
                &&& cf == (M6502 {
                    sp: vstd::wrapping::u8_specs::wrapping_sub(c0.sp, 1),
                    total_cycles: (c0.total_cycles + 2) as u64,
                    ..c0
                })
            }),
        0x49 => logic_rel(c0, b0, cf, bf, AddressingMode::Immediate, 2),
        0x4A => shift_acc_rel(c0, b0, cf, bf, false, true),
        0x4C => ({
                let (a2, c2, b2) = fetch_addr_spec(c0, b0, AddressingMode::Absolute);
                bf == b2 && cf == (M6502 { pc: a2, ..c2 })
            }),
        0x4D => logic_rel(c0, b0, cf, bf, AddressingMode::Absolute, 2),
        0x4E => shift_mem_rel(c0, b0, cf, bf, AddressingMode::Absolute, false, true),
        0x50 => branch_rel(c0, b0, cf, bf, !bit8(c0.p, 6)),
        0x51 => logic_rel(c0, b0, cf, bf, AddressingMode::IndirectY, 2),
        0x55 => logic_rel(c0, b0, cf, bf, AddressingMode::ZeroPageX, 2),
        0x56 => shift_mem_rel(c0, b0, cf, bf, AddressingMode::ZeroPageX, false, true),
        0x58 => implied_rel(c0, b0, cf, bf, (M6502 { p: with_bit8(c0.p, 2, false), total_cycles: (c0.total_cycles + 1) as u64, ..c0 })),
        0x59 => logic_rel(c0, b0, cf, bf, AddressingMode::AbsoluteY, 2),
        0x5D => logic_rel(c0, b0, cf, bf, AddressingMode::AbsoluteX, 2),
        0x5E => shift_mem_rel(c0, b0, cf, bf, AddressingMode::AbsoluteXEc, false, true),
        0x60 => ({
                let w = b0.ram@[0x100 + vstd::wrapping::u8_specs::wrapping_add(c0.sp, 1)] + 256 * b0.ram@[0x100
                    + vstd::wrapping::u8_specs::wrapping_add(c0.sp, 2)];
                &&& bf == b0
                &&& cf == (M6502 {
                    pc: (w as u16).wrapping_add(1),
                    sp: vstd::wrapping::u8_specs::wrapping_add(c0.sp, 2),
                    total_cycles: (c0.total_cycles + 5) as u64,
                    ..c0
                })
            }),
        0x61 => adc_rel(c0, b0, cf, bf, AddressingMode::IndirectX, false),
        0x65 => adc_rel(c0, b0, cf, bf, AddressingMode::ZeroPage, false),
        0x66 => shift_mem_rel(c0, b0, cf, bf, AddressingMode::ZeroPage, false, false),
        0x68 => ({
                let v = b0.ram@[0x100 + vstd::wrapping::u8_specs::wrapping_add(c0.sp, 1)];
                &&& bf == b0
                &&& cf == (M6502 {
                    a: v,
                    p: zn_spec(c0.p, v),
                    sp: vstd::wrapping::u8_specs::wrapping_add(c0.sp, 1),
                    total_cycles: (c0.total_cycles + 3) as u64,
                    ..c0
                })
            }),
        0x69 => adc_rel(c0, b0, cf, bf, AddressingMode::Immediate, false),
        0x6A => shift_acc_rel(c0, b0, cf, bf, false, false),
        0x6C => ({
                let (a2, c2, b2) = fetch_addr_spec(c0, b0, AddressingMode::Indirect);
                bf == b2 && cf == (M6502 { pc: a2, ..c2 })
            }),
        0x6D => adc_rel(c0, b0, cf, bf, AddressingMode::Absolute, false),
        0x6E => shift_mem_rel(c0, b0, cf, bf, AddressingMode::Absolute, false, false),
        0x70 => branch_rel(c0, b0, cf, bf, bit8(c0.p, 6)),
        0x71 => adc_rel(c0, b0, cf, bf, AddressingMode::IndirectY, false),
        0x75 => adc_rel(c0, b0, cf, bf, AddressingMode::ZeroPageX, false),
        0x76 => shift_mem_rel(c0, b0, cf, bf, AddressingMode::ZeroPageX, false, false),
        0x78 => implied_rel(c0, b0, cf, bf, (M6502 { p: with_bit8(c0.p, 2, true), total_cycles: (c0.total_cycles + 1) as u64, ..c0 })),
        0x79 => adc_rel(c0, b0, cf, bf, AddressingMode::AbsoluteY, false),
        0x7D => adc_rel(c0, b0, cf, bf, AddressingMode::AbsoluteX, false),
        0x7E => shift_mem_rel(c0, b0, cf, bf, AddressingMode::AbsoluteXEc, false, false),
        0x81 => store_rel(c0, b0, cf, bf, AddressingMode::IndirectX, c0.a),
        0x84 => store_rel(c0, b0, cf, bf, AddressingMode::ZeroPage, c0.y),
        0x85 => store_rel(c0, b0, cf, bf, AddressingMode::ZeroPage, c0.a),
        0x86 => store_rel(c0, b0, cf, bf, AddressingMode::ZeroPage, c0.x),
        0x88 => implied_rel(c0, b0, cf, bf, (M6502 { y: vstd::wrapping::u8_specs::wrapping_sub(c0.y, 1), p: zn_spec(c0.p, vstd::wrapping::u8_specs::wrapping_sub(c0.y, 1)), total_cycles: (c0.total_cycles + 1) as u64, ..c0 })),
        0x8A => implied_rel(c0, b0, cf, bf, (M6502 { a: c0.x, p: zn_spec(c0.p, c0.x), total_cycles: (c0.total_cycles + 1) as u64, ..c0 })),
        0x8C => store_rel(c0, b0, cf, bf, AddressingMode::Absolute, c0.y),
        0x8D => store_rel(c0, b0, cf, bf, AddressingMode::Absolute, c0.a),
        0x8E => store_rel(c0, b0, cf, bf, AddressingMode::Absolute, c0.x),
        0x90 => branch_rel(c0, b0, cf, bf, !bit8(c0.p, 0)),
        0x91 => store_rel(c0, b0, cf, bf, AddressingMode::IndirectYEc, c0.a),
        0x94 => store_rel(c0, b0, cf, bf, AddressingMode::ZeroPageX, c0.y),
        0x95 => store_rel(c0, b0, cf, bf, AddressingMode::ZeroPageX, c0.a),
        0x96 => store_rel(c0, b0, cf, bf, AddressingMode::ZeroPageY, c0.x),
        0x98 => implied_rel(c0, b0, cf, bf, (M6502 { a: c0.y, p: zn_spec(c0.p, c0.y), total_cycles: (c0.total_cycles + 1) as u64, ..c0 })),
        0x99 => store_rel(c0, b0, cf, bf, AddressingMode::AbsoluteYEc, c0.a),
        0x9A => implied_rel(c0, b0, cf, bf, (M6502 { sp: c0.x, total_cycles: (c0.total_cycles + 1) as u64, ..c0 })),
        0x9D => store_rel(c0, b0, cf, bf, AddressingMode::AbsoluteXEc, c0.a),
        0xA0 => load_rel(c0, b0, cf, bf, AddressingMode::Immediate, 2),
        0xA1 => load_rel(c0, b0, cf, bf, AddressingMode::IndirectX, 0),
        0xA2 => load_rel(c0, b0, cf, bf, AddressingMode::Immediate, 1),
        0xA4 => load_rel(c0, b0, cf, bf, AddressingMode::ZeroPage, 2),
        0xA5 => load_rel(c0, b0, cf, bf, AddressingMode::ZeroPage, 0),
        0xA6 => load_rel(c0, b0, cf, bf, AddressingMode::ZeroPage, 1),
        0xA8 => implied_rel(c0, b0, cf, bf, (M6502 { y: c0.a, p: zn_spec(c0.p, c0.a), total_cycles: (c0.total_cycles + 1) as u64, ..c0 })),
        0xA9 => load_rel(c0, b0, cf, bf, AddressingMode::Immediate, 0),
        0xAA => implied_rel(c0, b0, cf, bf, (M6502 { x: c0.a, p: zn_spec(c0.p, c0.a), total_cycles: (c0.total_cycles + 1) as u64, ..c0 })),
        0xAC => load_rel(c0, b0, cf, bf, AddressingMode::Absolute, 2),
        0xAD => load_rel(c0, b0, cf, bf, AddressingMode::Absolute, 0),
        0xAE => load_rel(c0, b0, cf, bf, AddressingMode::Absolute, 1),
        0xB0 => branch_rel(c0, b0, cf, bf, bit8(c0.p, 0)),
        0xB1 => load_rel(c0, b0, cf, bf, AddressingMode::IndirectY, 0),
        0xB4 => load_rel(c0, b0, cf, bf, AddressingMode::ZeroPageX, 2),
        0xB5 => load_rel(c0, b0, cf, bf, AddressingMode::ZeroPageX, 0),
        0xB6 => load_rel(c0, b0, cf, bf, AddressingMode::ZeroPageY, 1),
        0xB8 => implied_rel(c0, b0, cf, bf, (M6502 { p: with_bit8(c0.p, 6, false), total_cycles: (c0.total_cycles + 1) as u64, ..c0 })),
        0xB9 => load_rel(c0, b0, cf, bf, AddressingMode::AbsoluteY, 0),
        0xBA => implied_rel(c0, b0, cf, bf, (M6502 { x: c0.sp, p: zn_spec(c0.p, c0.sp), total_cycles: (c0.total_cycles + 1) as u64, ..c0 })),
        0xBC => load_rel(c0, b0, cf, bf, AddressingMode::AbsoluteX, 2),
        0xBD => load_rel(c0, b0, cf, bf, AddressingMode::AbsoluteX, 0),
        0xBE => load_rel(c0, b0, cf, bf, AddressingMode::AbsoluteY, 1),
        0xC0 => cmp_rel(c0, b0, cf, bf, AddressingMode::Immediate, c0.y),
        0xC1 => cmp_rel(c0, b0, cf, bf, AddressingMode::IndirectX, c0.a),
        0xC4 => cmp_rel(c0, b0, cf, bf, AddressingMode::ZeroPage, c0.y),
        0xC5 => cmp_rel(c0, b0, cf, bf, AddressingMode::ZeroPage, c0.a),
        0xC6 => step_mem_rel(c0, b0, cf, bf, AddressingMode::ZeroPage, false),
        0xC8 => implied_rel(c0, b0, cf, bf, (M6502 { y: vstd::wrapping::u8_specs::wrapping_add(c0.y, 1), p: zn_spec(c0.p, vstd::wrapping::u8_specs::wrapping_add(c0.y, 1)), total_cycles: (c0.total_cycles + 1) as u64, ..c0 })),
        0xC9 => cmp_rel(c0, b0, cf, bf, AddressingMode::Immediate, c0.a),
        0xCA => implied_rel(c0, b0, cf, bf, (M6502 { x: vstd::wrapping::u8_specs::wrapping_sub(c0.x, 1), p: zn_spec(c0.p, vstd::wrapping::u8_specs::wrapping_sub(c0.x, 1)), total_cycles: (c0.total_cycles + 1) as u64, ..c0 })),
        0xCC => cmp_rel(c0, b0, cf, bf, AddressingMode::Absolute, c0.y),
        0xCD => cmp_rel(c0, b0, cf, bf, AddressingMode::Absolute, c0.a),
        0xCE => step_mem_rel(c0, b0, cf, bf, AddressingMode::Absolute, false),
        0xD0 => branch_rel(c0, b0, cf, bf, !bit8(c0.p, 1)),
        0xD1 => cmp_rel(c0, b0, cf, bf, AddressingMode::IndirectY, c0.a),
        0xD5 => cmp_rel(c0, b0, cf, bf, AddressingMode::ZeroPageX, c0.a),
        0xD6 => step_mem_rel(c0, b0, cf, bf, AddressingMode::ZeroPageX, false),
        0xD8 => implied_rel(c0, b0, cf, bf, (M6502 { p: with_bit8(c0.p, 3, false), total_cycles: (c0.total_cycles + 1) as u64, ..c0 })),
        0xD9 => cmp_rel(c0, b0, cf, bf, AddressingMode::AbsoluteY, c0.a),
        0xDD => cmp_rel(c0, b0, cf, bf, AddressingMode::AbsoluteX, c0.a),
        0xDE => step_mem_rel(c0, b0, cf, bf, AddressingMode::AbsoluteXEc, false),
        0xE0 => cmp_rel(c0, b0, cf, bf, AddressingMode::Immediate, c0.x),
        0xE1 => adc_rel(c0, b0, cf, bf, AddressingMode::IndirectX, true),
        0xE4 => cmp_rel(c0, b0, cf, bf, AddressingMode::ZeroPage, c0.x),
        0xE5 => adc_rel(c0, b0, cf, bf, AddressingMode::ZeroPage, true),
        0xE6 => step_mem_rel(c0, b0, cf, bf, AddressingMode::ZeroPage, true),
        0xE8 => implied_rel(c0, b0, cf, bf, (M6502 { x: vstd::wrapping::u8_specs::wrapping_add(c0.x, 1), p: zn_spec(c0.p, vstd::wrapping::u8_specs::wrapping_add(c0.x, 1)), total_cycles: (c0.total_cycles + 1) as u64, ..c0 })),
        0xE9 => adc_rel(c0, b0, cf, bf, AddressingMode::Immediate, true),
        0xEA => implied_rel(c0, b0, cf, bf, (M6502 {  total_cycles: (c0.total_cycles + 1) as u64, ..c0 })),
        0xEC => cmp_rel(c0, b0, cf, bf, AddressingMode::Absolute, c0.x),
        0xED => adc_rel(c0, b0, cf, bf, AddressingMode::Absolute, true),
        0xEE => step_mem_rel(c0, b0, cf, bf, AddressingMode::Absolute, true),
        0xF0 => branch_rel(c0, b0, cf, bf, bit8(c0.p, 1)),
        0xF1 => adc_rel(c0, b0, cf, bf, AddressingMode::IndirectY, true),
        0xF5 => adc_rel(c0, b0, cf, bf, AddressingMode::ZeroPageX, true),
        0xF6 => step_mem_rel(c0, b0, cf, bf, AddressingMode::ZeroPageX, true),
        0xF8 => implied_rel(c0, b0, cf, bf, (M6502 { p: with_bit8(c0.p, 3, true), total_cycles: (c0.total_cycles + 1) as u64, ..c0 })),
        0xF9 => adc_rel(c0, b0, cf, bf, AddressingMode::AbsoluteY, true),
        0xFD => adc_rel(c0, b0, cf, bf, AddressingMode::AbsoluteX, true),
        0xFE => step_mem_rel(c0, b0, cf, bf, AddressingMode::AbsoluteXEc, true),
                _ => false,
    }
}

/// The complete effect of one successfully executed instruction: the
/// opcode at the program counter is fetched and dispatched, and the
/// CPU and bus afterwards relate to the states before as that
/// opcode's semantics say. Memory writes go through the bus write
/// relation, which fixes the final bus per address range.
pub open spec fn instr_rel(c: M6502, b: Bus, cf: M6502, bf: Bus) -> bool {
    op_rel(read_result(b, c.pc), after_opcode_fetch(c), read_post(b, c.pc), cf, bf)
}

/// True of the 151 official opcodes, the bytes `tick` executes;
/// every other byte jams.
pub open spec fn is_official_opcode(op: u8) -> bool {
    match op {
        0x00 | 0x01 | 0x05 | 0x06 | 0x08 | 0x09 | 0x0A | 0x0D
        | 0x0E | 0x10 | 0x11 | 0x15 | 0x16 | 0x18 | 0x19 | 0x1D
        | 0x1E | 0x20 | 0x21 | 0x24 | 0x25 | 0x26 | 0x28 | 0x29
        | 0x2A | 0x2C | 0x2D | 0x2E | 0x30 | 0x31 | 0x35 | 0x36
        | 0x38 | 0x39 | 0x3D | 0x3E | 0x40 | 0x41 | 0x45 | 0x46
        | 0x48 | 0x49 | 0x4A | 0x4C | 0x4D | 0x4E | 0x50 | 0x51
        | 0x55 | 0x56 | 0x58 | 0x59 | 0x5D | 0x5E | 0x60 | 0x61
        | 0x65 | 0x66 | 0x68 | 0x69 | 0x6A | 0x6C | 0x6D | 0x6E
        | 0x70 | 0x71 | 0x75 | 0x76 | 0x78 | 0x79 | 0x7D | 0x7E
        | 0x81 | 0x84 | 0x85 | 0x86 | 0x88 | 0x8A | 0x8C | 0x8D
        | 0x8E | 0x90 | 0x91 | 0x94 | 0x95 | 0x96 | 0x98 | 0x99
        | 0x9A | 0x9D | 0xA0 | 0xA1 | 0xA2 | 0xA4 | 0xA5 | 0xA6
        | 0xA8 | 0xA9 | 0xAA | 0xAC | 0xAD | 0xAE | 0xB0 | 0xB1
        | 0xB4 | 0xB5 | 0xB6 | 0xB8 | 0xB9 | 0xBA | 0xBC | 0xBD
        | 0xBE | 0xC0 | 0xC1 | 0xC4 | 0xC5 | 0xC6 | 0xC8 | 0xC9
        | 0xCA | 0xCC | 0xCD | 0xCE | 0xD0 | 0xD1 | 0xD5 | 0xD6
        | 0xD8 | 0xD9 | 0xDD | 0xDE | 0xE0 | 0xE1 | 0xE4 | 0xE5
        | 0xE6 | 0xE8 | 0xE9 | 0xEA | 0xEC | 0xED | 0xEE | 0xF0
        | 0xF1 | 0xF5 | 0xF6 | 0xF8 | 0xF9 | 0xFD | 0xFE => true,
        _ => false,
    }
}

impl M6502 {
    /// Tests a byte against the official opcode set.
    fn is_official(opcode: u8) -> (r: bool)
        ensures
            r == is_official_opcode(opcode),
    {
        match opcode {
            0x00 | 0x01 | 0x05 | 0x06 | 0x08 | 0x09 | 0x0A | 0x0D
            | 0x0E | 0x10 | 0x11 | 0x15 | 0x16 | 0x18 | 0x19 | 0x1D
            | 0x1E | 0x20 | 0x21 | 0x24 | 0x25 | 0x26 | 0x28 | 0x29
            | 0x2A | 0x2C | 0x2D | 0x2E | 0x30 | 0x31 | 0x35 | 0x36
            | 0x38 | 0x39 | 0x3D | 0x3E | 0x40 | 0x41 | 0x45 | 0x46
            | 0x48 | 0x49 | 0x4A | 0x4C | 0x4D | 0x4E | 0x50 | 0x51
            | 0x55 | 0x56 | 0x58 | 0x59 | 0x5D | 0x5E | 0x60 | 0x61
            | 0x65 | 0x66 | 0x68 | 0x69 | 0x6A | 0x6C | 0x6D | 0x6E
            | 0x70 | 0x71 | 0x75 | 0x76 | 0x78 | 0x79 | 0x7D | 0x7E
            | 0x81 | 0x84 | 0x85 | 0x86 | 0x88 | 0x8A | 0x8C | 0x8D
            | 0x8E | 0x90 | 0x91 | 0x94 | 0x95 | 0x96 | 0x98 | 0x99
            | 0x9A | 0x9D | 0xA0 | 0xA1 | 0xA2 | 0xA4 | 0xA5 | 0xA6
            | 0xA8 | 0xA9 | 0xAA | 0xAC | 0xAD | 0xAE | 0xB0 | 0xB1
            | 0xB4 | 0xB5 | 0xB6 | 0xB8 | 0xB9 | 0xBA | 0xBC | 0xBD
            | 0xBE | 0xC0 | 0xC1 | 0xC4 | 0xC5 | 0xC6 | 0xC8 | 0xC9
            | 0xCA | 0xCC | 0xCD | 0xCE | 0xD0 | 0xD1 | 0xD5 | 0xD6
            | 0xD8 | 0xD9 | 0xDD | 0xDE | 0xE0 | 0xE1 | 0xE4 | 0xE5
            | 0xE6 | 0xE8 | 0xE9 | 0xEA | 0xEC | 0xED | 0xEE | 0xF0
            | 0xF1 | 0xF5 | 0xF6 | 0xF8 | 0xF9 | 0xFD | 0xFE => true,
            _ => false,
        }
    }

    /// Executes one already-fetched official opcode in `0x00..0x40`.
    #[verifier::rlimit(100)]
    fn step_00_3f(&mut self, bus: &mut Bus, opcode: u8)
        requires
            old(bus).wf(),
            old(self).total_cycles < CYCLE_CEILING - 7,
            0x00 <= opcode < 0x40,
            is_official_opcode(opcode),
        ensures
            final(bus).wf(),
            crate::bus::same_frame(*final(bus), *old(bus)),
            old(self).total_cycles < final(self).total_cycles,
            final(self).total_cycles <= old(self).total_cycles + 6,
            op_rel(opcode, *old(self), *old(bus), *final(self), *final(bus)),
    {
        match opcode {
            0x00 => { let ret = self.pc.wrapping_add(1); self.push_word(bus, ret); let pushed = self.p | 0x30; self.push_byte(bus, pushed); self.total_cycles = self.total_cycles + 1; self.p = crate::bitops::modify_bit(self.p, FLAG_I, true); let v = self.cpu_read_word(bus, IRQ_ADDR); self.pc = v; },
            0x01 => { self.op_logic(bus, AddressingMode::IndirectX, 1); },
            0x05 => { self.op_logic(bus, AddressingMode::ZeroPage, 1); },
            0x06 => { self.op_shift_mem(bus, AddressingMode::ZeroPage, true, true); },
            0x08 => { let v = self.p | 0x30; self.push_byte(bus, v); self.total_cycles = self.total_cycles + 1; },
            0x09 => { self.op_logic(bus, AddressingMode::Immediate, 1); },
            0x0A => { let v = self.a; let res = self.shift_value(v, true, true); self.a = res; self.total_cycles = self.total_cycles + 1; },
            0x0D => { self.op_logic(bus, AddressingMode::Absolute, 1); },
            0x0E => { self.op_shift_mem(bus, AddressingMode::Absolute, true, true); },
            0x10 => { let c = crate::bitops::test_bit(self.p, FLAG_N); self.op_branch(bus, !c); },
            0x11 => { self.op_logic(bus, AddressingMode::IndirectY, 1); },
            0x15 => { self.op_logic(bus, AddressingMode::ZeroPageX, 1); },
            0x16 => { self.op_shift_mem(bus, AddressingMode::ZeroPageX, true, true); },
            0x18 => { self.p = crate::bitops::modify_bit(self.p, FLAG_C, false); self.total_cycles = self.total_cycles + 1; },
            0x19 => { self.op_logic(bus, AddressingMode::AbsoluteY, 1); },
            0x1D => { self.op_logic(bus, AddressingMode::AbsoluteX, 1); },
            0x1E => { self.op_shift_mem(bus, AddressingMode::AbsoluteXEc, true, true); },
            0x20 => { let ret = self.pc.wrapping_add(1); self.push_word(bus, ret); let a = self.fetch_address(bus, AddressingMode::Absolute); self.pc = a; self.total_cycles = self.total_cycles + 1; },
            0x21 => { self.op_logic(bus, AddressingMode::IndirectX, 0); },
            0x24 => { self.op_bit(bus, AddressingMode::ZeroPage); },
            0x25 => { self.op_logic(bus, AddressingMode::ZeroPage, 0); },
            0x26 => { self.op_shift_mem(bus, AddressingMode::ZeroPage, true, false); },
            0x28 => { self.pull_p(bus); self.total_cycles = self.total_cycles + 2; },
            0x29 => { self.op_logic(bus, AddressingMode::Immediate, 0); },
            0x2A => { let v = self.a; let res = self.shift_value(v, true, false); self.a = res; self.total_cycles = self.total_cycles + 1; },
            0x2C => { self.op_bit(bus, AddressingMode::Absolute); },
            0x2D => { self.op_logic(bus, AddressingMode::Absolute, 0); },
            0x2E => { self.op_shift_mem(bus, AddressingMode::Absolute, true, false); },
            0x30 => { let c = crate::bitops::test_bit(self.p, FLAG_N); self.op_branch(bus, c); },
            0x31 => { self.op_logic(bus, AddressingMode::IndirectY, 0); },
            0x35 => { self.op_logic(bus, AddressingMode::ZeroPageX, 0); },
            0x36 => { self.op_shift_mem(bus, AddressingMode::ZeroPageX, true, false); },
            0x38 => { self.p = crate::bitops::modify_bit(self.p, FLAG_C, true); self.total_cycles = self.total_cycles + 1; },
            0x39 => { self.op_logic(bus, AddressingMode::AbsoluteY, 0); },
            0x3D => { self.op_logic(bus, AddressingMode::AbsoluteX, 0); },
            0x3E => { self.op_shift_mem(bus, AddressingMode::AbsoluteXEc, true, false); },
            _ => {
                proof {
                    assert(false);
                }
            },
        }
    }

    /// Executes one already-fetched official opcode in `0x40..0x80`.
    #[verifier::rlimit(100)]
    fn step_40_7f(&mut self, bus: &mut Bus, opcode: u8)
        requires
            old(bus).wf(),
            old(self).total_cycles < CYCLE_CEILING - 7,
            0x40 <= opcode < 0x80,
            is_official_opcode(opcode),
        ensures
            final(bus).wf(),
            crate::bus::same_frame(*final(bus), *old(bus)),
            old(self).total_cycles < final(self).total_cycles,
            final(self).total_cycles <= old(self).total_cycles + 6,
            op_rel(opcode, *old(self), *old(bus), *final(self), *final(bus)),
    {
        match opcode {
            0x40 => { self.pull_p(bus); let v = self.pull_word(bus); self.pc = v; self.total_cycles = self.total_cycles + 2; },
            0x41 => { self.op_logic(bus, AddressingMode::IndirectX, 2); },
            0x45 => { self.op_logic(bus, AddressingMode::ZeroPage, 2); },
            0x46 => { self.op_shift_mem(bus, AddressingMode::ZeroPage, false, true); },
            0x48 => { let v = self.a; self.push_byte(bus, v); self.total_cycles = self.total_cycles + 1; },
            0x49 => { self.op_logic(bus, AddressingMode::Immediate, 2); },
            0x4A => { let v = self.a; let res = self.shift_value(v, false, true); self.a = res; self.total_cycles = self.total_cycles + 1; },
            0x4C => { let a = self.fetch_address(bus, AddressingMode::Absolute); self.pc = a; },
            0x4D => { self.op_logic(bus, AddressingMode::Absolute, 2); },
            0x4E => { self.op_shift_mem(bus, AddressingMode::Absolute, false, true); },
            0x50 => { let c = crate::bitops::test_bit(self.p, FLAG_V); self.op_branch(bus, !c); },
            0x51 => { self.op_logic(bus, AddressingMode::IndirectY, 2); },
            0x55 => { self.op_logic(bus, AddressingMode::ZeroPageX, 2); },
            0x56 => { self.op_shift_mem(bus, AddressingMode::ZeroPageX, false, true); },
            0x58 => { self.p = crate::bitops::modify_bit(self.p, FLAG_I, false); self.total_cycles = self.total_cycles + 1; },
            0x59 => { self.op_logic(bus, AddressingMode::AbsoluteY, 2); },
            0x5D => { self.op_logic(bus, AddressingMode::AbsoluteX, 2); },
            0x5E => { self.op_shift_mem(bus, AddressingMode::AbsoluteXEc, false, true); },
            0x60 => { let v = self.pull_word(bus); self.pc = v.wrapping_add(1); self.total_cycles = self.total_cycles + 3; },
            0x61 => { self.op_adc(bus, AddressingMode::IndirectX); },
            0x65 => { self.op_adc(bus, AddressingMode::ZeroPage); },
            0x66 => { self.op_shift_mem(bus, AddressingMode::ZeroPage, false, false); },
            0x68 => { let v = self.pull_byte(bus); self.a = v; self.modify_zn(v); self.total_cycles = self.total_cycles + 2; },
            0x69 => { self.op_adc(bus, AddressingMode::Immediate); },
            0x6A => { let v = self.a; let res = self.shift_value(v, false, false); self.a = res; self.total_cycles = self.total_cycles + 1; },
            0x6C => { let a = self.fetch_address(bus, AddressingMode::Indirect); self.pc = a; },
            0x6D => { self.op_adc(bus, AddressingMode::Absolute); },
            0x6E => { self.op_shift_mem(bus, AddressingMode::Absolute, false, false); },
            0x70 => { let c = crate::bitops::test_bit(self.p, FLAG_V); self.op_branch(bus, c); },
            0x71 => { self.op_adc(bus, AddressingMode::IndirectY); },
            0x75 => { self.op_adc(bus, AddressingMode::ZeroPageX); },
            0x76 => { self.op_shift_mem(bus, AddressingMode::ZeroPageX, false, false); },
            0x78 => { self.p = crate::bitops::modify_bit(self.p, FLAG_I, true); self.total_cycles = self.total_cycles + 1; },
            0x79 => { self.op_adc(bus, AddressingMode::AbsoluteY); },
            0x7D => { self.op_adc(bus, AddressingMode::AbsoluteX); },
            0x7E => { self.op_shift_mem(bus, AddressingMode::AbsoluteXEc, false, false); },
            _ => {
                proof {
                    assert(false);
                }
            },
        }
    }

    /// Executes one already-fetched official opcode in `0x80..0xC0`.
    #[verifier::rlimit(100)]
    fn step_80_bf(&mut self, bus: &mut Bus, opcode: u8)
        requires
            old(bus).wf(),
            old(self).total_cycles < CYCLE_CEILING - 7,
            0x80 <= opcode < 0xC0,
            is_official_opcode(opcode),
        ensures
            final(bus).wf(),
            crate::bus::same_frame(*final(bus), *old(bus)),
            old(self).total_cycles < final(self).total_cycles,
            final(self).total_cycles <= old(self).total_cycles + 6,
            op_rel(opcode, *old(self), *old(bus), *final(self), *final(bus)),
    {
        match opcode {
            0x81 => { let v = self.a; self.op_store(bus, AddressingMode::IndirectX, v); },
            0x84 => { let v = self.y; self.op_store(bus, AddressingMode::ZeroPage, v); },
            0x85 => { let v = self.a; self.op_store(bus, AddressingMode::ZeroPage, v); },
            0x86 => { let v = self.x; self.op_store(bus, AddressingMode::ZeroPage, v); },
            0x88 => { let v = self.y.wrapping_sub(1); self.y = v; self.modify_zn(v); self.total_cycles = self.total_cycles + 1; },
            0x8A => { let v = self.x; self.a = v; self.modify_zn(v); self.total_cycles = self.total_cycles + 1; },
            0x8C => { let v = self.y; self.op_store(bus, AddressingMode::Absolute, v); },
            0x8D => { let v = self.a; self.op_store(bus, AddressingMode::Absolute, v); },
            0x8E => { let v = self.x; self.op_store(bus, AddressingMode::Absolute, v); },
            0x90 => { let c = crate::bitops::test_bit(self.p, FLAG_C); self.op_branch(bus, !c); },
            0x91 => { let v = self.a; self.op_store(bus, AddressingMode::IndirectYEc, v); },
            0x94 => { let v = self.y; self.op_store(bus, AddressingMode::ZeroPageX, v); },
            0x95 => { let v = self.a; self.op_store(bus, AddressingMode::ZeroPageX, v); },
            0x96 => { let v = self.x; self.op_store(bus, AddressingMode::ZeroPageY, v); },
            0x98 => { let v = self.y; self.a = v; self.modify_zn(v); self.total_cycles = self.total_cycles + 1; },
            0x99 => { let v = self.a; self.op_store(bus, AddressingMode::AbsoluteYEc, v); },
            0x9A => { self.sp = self.x; self.total_cycles = self.total_cycles + 1; },
            0x9D => { let v = self.a; self.op_store(bus, AddressingMode::AbsoluteXEc, v); },
            0xA0 => { self.op_load(bus, AddressingMode::Immediate, 2); },
            0xA1 => { self.op_load(bus, AddressingMode::IndirectX, 0); },
            0xA2 => { self.op_load(bus, AddressingMode::Immediate, 1); },
            0xA4 => { self.op_load(bus, AddressingMode::ZeroPage, 2); },
            0xA5 => { self.op_load(bus, AddressingMode::ZeroPage, 0); },
            0xA6 => { self.op_load(bus, AddressingMode::ZeroPage, 1); },
            0xA8 => { let v = self.a; self.y = v; self.modify_zn(v); self.total_cycles = self.total_cycles + 1; },
            0xA9 => { self.op_load(bus, AddressingMode::Immediate, 0); },
            0xAA => { let v = self.a; self.x = v; self.modify_zn(v); self.total_cycles = self.total_cycles + 1; },
            0xAC => { self.op_load(bus, AddressingMode::Absolute, 2); },
            0xAD => { self.op_load(bus, AddressingMode::Absolute, 0); },
            0xAE => { self.op_load(bus, AddressingMode::Absolute, 1); },
            0xB0 => { let c = crate::bitops::test_bit(self.p, FLAG_C); self.op_branch(bus, c); },
            0xB1 => { self.op_load(bus, AddressingMode::IndirectY, 0); },
            0xB4 => { self.op_load(bus, AddressingMode::ZeroPageX, 2); },
            0xB5 => { self.op_load(bus, AddressingMode::ZeroPageX, 0); },
            0xB6 => { self.op_load(bus, AddressingMode::ZeroPageY, 1); },
            0xB8 => { self.p = crate::bitops::modify_bit(self.p, FLAG_V, false); self.total_cycles = self.total_cycles + 1; },
            0xB9 => { self.op_load(bus, AddressingMode::AbsoluteY, 0); },
            0xBA => { let v = self.sp; self.x = v; self.modify_zn(v); self.total_cycles = self.total_cycles + 1; },
            0xBC => { self.op_load(bus, AddressingMode::AbsoluteX, 2); },
            0xBD => { self.op_load(bus, AddressingMode::AbsoluteX, 0); },
            0xBE => { self.op_load(bus, AddressingMode::AbsoluteY, 1); },
            _ => {
                proof {
                    assert(false);
                }
            },
        }
    }

    /// Executes one already-fetched official opcode in `0xC0..0x100`.
    #[verifier::rlimit(100)]
    fn step_c0_ff(&mut self, bus: &mut Bus, opcode: u8)
        requires
            old(bus).wf(),
            old(self).total_cycles < CYCLE_CEILING - 7,
            0xC0 <= opcode < 0x100,
            is_official_opcode(opcode),
        ensures
            final(bus).wf(),
            crate::bus::same_frame(*final(bus), *old(bus)),
            old(self).total_cycles < final(self).total_cycles,
            final(self).total_cycles <= old(self).total_cycles + 6,
            op_rel(opcode, *old(self), *old(bus), *final(self), *final(bus)),
    {
        match opcode {
            0xC0 => { let v = self.y; self.op_cmp(bus, AddressingMode::Immediate, v); },
            0xC1 => { let v = self.a; self.op_cmp(bus, AddressingMode::IndirectX, v); },
            0xC4 => { let v = self.y; self.op_cmp(bus, AddressingMode::ZeroPage, v); },
            0xC5 => { let v = self.a; self.op_cmp(bus, AddressingMode::ZeroPage, v); },
            0xC6 => { self.op_step_mem(bus, AddressingMode::ZeroPage, false); },
            0xC8 => { let v = self.y.wrapping_add(1); self.y = v; self.modify_zn(v); self.total_cycles = self.total_cycles + 1; },
            0xC9 => { let v = self.a; self.op_cmp(bus, AddressingMode::Immediate, v); },
            0xCA => { let v = self.x.wrapping_sub(1); self.x = v; self.modify_zn(v); self.total_cycles = self.total_cycles + 1; },
            0xCC => { let v = self.y; self.op_cmp(bus, AddressingMode::Absolute, v); },
            0xCD => { let v = self.a; self.op_cmp(bus, AddressingMode::Absolute, v); },
            0xCE => { self.op_step_mem(bus, AddressingMode::Absolute, false); },
            0xD0 => { let c = crate::bitops::test_bit(self.p, FLAG_Z); self.op_branch(bus, !c); },
            0xD1 => { let v = self.a; self.op_cmp(bus, AddressingMode::IndirectY, v); },
            0xD5 => { let v = self.a; self.op_cmp(bus, AddressingMode::ZeroPageX, v); },
            0xD6 => { self.op_step_mem(bus, AddressingMode::ZeroPageX, false); },
            0xD8 => { self.p = crate::bitops::modify_bit(self.p, FLAG_D, false); self.total_cycles = self.total_cycles + 1; },
            0xD9 => { let v = self.a; self.op_cmp(bus, AddressingMode::AbsoluteY, v); },
            0xDD => { let v = self.a; self.op_cmp(bus, AddressingMode::AbsoluteX, v); },
            0xDE => { self.op_step_mem(bus, AddressingMode::AbsoluteXEc, false); },
            0xE0 => { let v = self.x; self.op_cmp(bus, AddressingMode::Immediate, v); },
            0xE1 => { self.op_sbc(bus, AddressingMode::IndirectX); },
            0xE4 => { let v = self.x; self.op_cmp(bus, AddressingMode::ZeroPage, v); },
            0xE5 => { self.op_sbc(bus, AddressingMode::ZeroPage); },
            0xE6 => { self.op_step_mem(bus, AddressingMode::ZeroPage, true); },
            0xE8 => { let v = self.x.wrapping_add(1); self.x = v; self.modify_zn(v); self.total_cycles = self.total_cycles + 1; },
            0xE9 => { self.op_sbc(bus, AddressingMode::Immediate); },
            0xEA => { self.total_cycles = self.total_cycles + 1; },
            0xEC => { let v = self.x; self.op_cmp(bus, AddressingMode::Absolute, v); },
            0xED => { self.op_sbc(bus, AddressingMode::Absolute); },
            0xEE => { self.op_step_mem(bus, AddressingMode::Absolute, true); },
            0xF0 => { let c = crate::bitops::test_bit(self.p, FLAG_Z); self.op_branch(bus, c); },
            0xF1 => { self.op_sbc(bus, AddressingMode::IndirectY); },
            0xF5 => { self.op_sbc(bus, AddressingMode::ZeroPageX); },
            0xF6 => { self.op_step_mem(bus, AddressingMode::ZeroPageX, true); },
            0xF8 => { self.p = crate::bitops::modify_bit(self.p, FLAG_D, true); self.total_cycles = self.total_cycles + 1; },
            0xF9 => { self.op_sbc(bus, AddressingMode::AbsoluteY); },
            0xFD => { self.op_sbc(bus, AddressingMode::AbsoluteX); },
            0xFE => { self.op_step_mem(bus, AddressingMode::AbsoluteXEc, true); },
            _ => {
                proof {
                    assert(false);
                }
            },
        }
    }

    /// Executes one instruction: fetches the opcode at the program
    /// counter and dispatches it, charging its full cycle cost. Every
    /// official opcode is handled; any other byte stops before
    /// executing and reports the fetch address and the opcode, with
    /// only the opcode fetch itself having happened.
    pub fn tick(&mut self, bus: &mut Bus) -> (r: Result<(), CpuFault>)
        requires
            old(bus).wf(),
            old(self).total_cycles < CYCLE_CEILING - 8,
        ensures
            final(bus).wf(),
            crate::bus::same_frame(*final(bus), *old(bus)),
            old(self).total_cycles < final(self).total_cycles,
            final(self).total_cycles <= old(self).total_cycles + 7,
            r is Ok <==> is_official_opcode(read_result(*old(bus), old(self).pc)),
            r is Ok ==> instr_rel(*old(self), *old(bus), *final(self), *final(bus)),
            r matches Err(e) ==> {
                &&& e.pc == old(self).pc
                &&& e.opcode == read_result(*old(bus), old(self).pc)
                &&& *final(bus) == read_post(*old(bus), old(self).pc)
                &&& *final(self) == (M6502 {
                    pc: old(self).pc.wrapping_add(1),
                    total_cycles: (old(self).total_cycles + 1) as u64,
                    ..*old(self)
                })
            },
    {
        let pc0 = self.pc;
        let opcode = self.fetch_byte(bus);
        if !Self::is_official(opcode) {
            return Err(CpuFault { pc: pc0, opcode });
        }
        if opcode < 0x40 {
            self.step_00_3f(bus, opcode);
        } else if opcode < 0x80 {
            self.step_40_7f(bus, opcode);
        } else if opcode < 0xC0 {
            self.step_80_bf(bus, opcode);
        } else {
            self.step_c0_ff(bus, opcode);
        }
        Ok(())
    }
}

} // verus!
