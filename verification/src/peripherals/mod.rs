//! The memory-mapped devices of the platform.

pub mod fu540_c000;
pub mod uart;
pub mod virtio;
