//! What every platform bus has in common.

use vstd::prelude::*;

verus! {

/// The parts of the platform that can be addressed by name.
#[derive(Clone, Copy, Debug, PartialEq, Eq, Structural)]
pub enum Device {
    Dram,
    Disk,
    Uart,
    Timer,
    Intc,
}

} // verus!
