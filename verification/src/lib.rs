//! A RISC-V system emulator core: hart, MMU, system bus and the devices of
//! an FU540-style platform, with every function verified against a
//! mathematical model of the machine.

pub mod bus;
pub mod cpu;
pub mod elf_loader;
pub mod emulator;
pub mod memory;
pub mod mmu;
pub mod peripherals;
