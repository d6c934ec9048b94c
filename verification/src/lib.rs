//! A Game Boy Advance hardware core: a 32-bit RISC CPU with the ARM and
//! THUMB instruction encodings, a segmented memory bus with side-effecting
//! I/O registers, a scanline-driven picture processing unit, four timers,
//! a four-channel DMA engine, an interrupt controller, and cartridge
//! backup-storage emulation.
//!
//! The core is pure computation over in-memory byte buffers: loading files,
//! presenting frames, and polling input devices are left to the caller.

pub mod logger;
pub mod bits;
pub mod cpsr;
pub mod alu;
pub mod interrupts;
pub mod timers;
pub mod backup;
pub mod gamepack;
pub mod dma;
pub mod ppu;
pub mod bus;
pub mod cpu;
pub mod gba;
pub mod snapshot;
