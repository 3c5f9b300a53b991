//! Architectural traps: synchronous exceptions and interrupts.

use vstd::prelude::*;

verus! {

/// The synchronous exceptions.
#[derive(Clone, Copy, Debug, PartialEq, Eq, Structural)]
pub enum Exception {
    InstructionAddressMisaligned,
    InstructionAccessFault,
    IllegalInstruction,
    Breakpoint,
    LoadAddressMisaligned,
    LoadAccessFault,
    StoreAddressMisaligned,
    StoreAccessFault,
    EnvironmentCallFromUMode,
    EnvironmentCallFromSMode,
    EnvironmentCallFromMMode,
    InstructionPageFault,
    LoadPageFault,
    StorePageFault,
}

/// The interrupts, by privilege level and source.
#[derive(Clone, Copy, Debug, PartialEq, Eq, Structural)]
pub enum Interrupt {
    SupervisorSoftware,
    MachineSoftware,
    SupervisorTimer,
    MachineTimer,
    SupervisorExternal,
    MachineExternal,
}

/// An exception together with the value for `mtval` or `stval`: the
/// faulting address, or the instruction word of an illegal instruction.
#[derive(Clone, Copy, Debug, PartialEq, Eq, Structural)]
pub struct Trap {
    pub exception: Exception,
    pub value: u64,
}

/// The exception code that `mcause` or `scause` records.
pub open spec fn exception_code(e: Exception) -> u64 {
    match e {
        Exception::InstructionAddressMisaligned => 0,
        Exception::InstructionAccessFault => 1,
        Exception::IllegalInstruction => 2,
        Exception::Breakpoint => 3,
        Exception::LoadAddressMisaligned => 4,
        Exception::LoadAccessFault => 5,
        Exception::StoreAddressMisaligned => 6,
        Exception::StoreAccessFault => 7,
        Exception::EnvironmentCallFromUMode => 8,
        Exception::EnvironmentCallFromSMode => 9,
        Exception::EnvironmentCallFromMMode => 11,
        Exception::InstructionPageFault => 12,
        Exception::LoadPageFault => 13,
        Exception::StorePageFault => 15,
    }
}

/// The interrupt code that `mcause` or `scause` records, which is also the
/// number of the interrupt's bit in `mip` and `mie`.
pub open spec fn interrupt_code(i: Interrupt) -> u64 {
    match i {
        Interrupt::SupervisorSoftware => 1,
        Interrupt::MachineSoftware => 3,
        Interrupt::SupervisorTimer => 5,
        Interrupt::MachineTimer => 7,
        Interrupt::SupervisorExternal => 9,
        Interrupt::MachineExternal => 11,
    }
}

/// The code of an exception.
pub fn code_of_exception(e: Exception) -> (r: u64)
    ensures
        r == exception_code(e),
        r < 16,
{
    match e {
        Exception::InstructionAddressMisaligned => 0,
        Exception::InstructionAccessFault => 1,
        Exception::IllegalInstruction => 2,
        Exception::Breakpoint => 3,
        Exception::LoadAddressMisaligned => 4,
        Exception::LoadAccessFault => 5,
        Exception::StoreAddressMisaligned => 6,
        Exception::StoreAccessFault => 7,
        Exception::EnvironmentCallFromUMode => 8,
        Exception::EnvironmentCallFromSMode => 9,
        Exception::EnvironmentCallFromMMode => 11,
        Exception::InstructionPageFault => 12,
        Exception::LoadPageFault => 13,
        Exception::StorePageFault => 15,
    }
}

/// The code of an interrupt.
pub fn code_of_interrupt(i: Interrupt) -> (r: u64)
    ensures
        r == interrupt_code(i),
        r < 16,
{
    match i {
        Interrupt::SupervisorSoftware => 1,
        Interrupt::MachineSoftware => 3,
        Interrupt::SupervisorTimer => 5,
        Interrupt::MachineTimer => 7,
        Interrupt::SupervisorExternal => 9,
        Interrupt::MachineExternal => 11,
    }
}

} // verus!
