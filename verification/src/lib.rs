//! A cycle-counting emulator core for the Nintendo Entertainment System:
//! a 6502 CPU interpreter, the 2C02 picture processing unit, the NROM and
//! MMC1 cartridge mappers, the CPU-visible memory bus, the joypad shift
//! register, and the OAM DMA engine, tied together by a frame-stepped
//! emulator loop.

pub mod bitops;
pub mod bus;
pub mod cartridge;
pub mod cpubus;
pub mod dma;
pub mod emulator;
pub mod joypad;
pub mod m6502;
pub mod mapper;
pub mod ppu;
pub mod ppubus;
