//! Devices specific to the FU540-C000: the core-local interruptor and the
//! platform-level interrupt controller.

pub mod clint;
pub mod plic;
