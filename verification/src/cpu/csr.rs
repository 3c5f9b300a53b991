//! The control and status registers: 4096 registers of 64 bits, some of
//! which are windows onto others.

use vstd::prelude::*;
use crate::cpu::cpu::{PrivilegeMode, Xlen};
use crate::cpu::encoding::field;

verus! {

pub const FFLAGS: u16 = 0x001;

pub const FRM: u16 = 0x002;

pub const FCSR: u16 = 0x003;

pub const SSTATUS: u16 = 0x100;

pub const SIE: u16 = 0x104;

pub const STVEC: u16 = 0x105;

pub const SSCRATCH: u16 = 0x140;

pub const SEPC: u16 = 0x141;

pub const SCAUSE: u16 = 0x142;

pub const STVAL: u16 = 0x143;

pub const SIP: u16 = 0x144;

pub const SATP: u16 = 0x180;

pub const MSTATUS: u16 = 0x300;

pub const MISA: u16 = 0x301;

pub const MEDELEG: u16 = 0x302;

pub const MIDELEG: u16 = 0x303;

pub const MIE: u16 = 0x304;

pub const MTVEC: u16 = 0x305;

pub const MSCRATCH: u16 = 0x340;

pub const MEPC: u16 = 0x341;

pub const MCAUSE: u16 = 0x342;

pub const MTVAL: u16 = 0x343;

pub const MIP: u16 = 0x344;

pub const MCYCLE: u16 = 0xb00;

pub const MINSTRET: u16 = 0xb02;

pub const CYCLE: u16 = 0xc00;

pub const TIME: u16 = 0xc01;

pub const INSTRET: u16 = 0xc02;

pub const MHARTID: u16 = 0xf14;

/// Number of registers.
pub const CSR_COUNT: usize = 4096;

/// The bits of `mstatus` that `sstatus` shows.
pub const SSTATUS_MASK: u64 = 0x8000_0003_000d_e162;

/// The supervisor-level interrupt bits of `mip`, `mie` and `mideleg`.
pub const SUPERVISOR_INTERRUPTS: u64 = 0x222;

/// The supervisor software interrupt bit, the one bit of `sip` that
/// software can write.
pub const SSIP: u64 = 0x002;

// Weights of fields of `mstatus`.
pub const STATUS_SIE: u64 = 0x2;

pub const STATUS_MIE: u64 = 0x8;

pub const STATUS_SPIE: u64 = 0x20;

pub const STATUS_MPIE: u64 = 0x80;

pub const STATUS_SPP: u64 = 0x100;

pub const STATUS_MPP: u64 = 0x800;

pub const STATUS_FS: u64 = 0x2000;

pub const STATUS_MPRV: u64 = 0x2_0000;

/// Trap virtual memory: supervisor mode may not touch `satp` nor fence the
/// address translation.
pub const STATUS_TVM: u64 = 0x10_0000;

/// Timeout wait: modes below machine mode may not wait for an interrupt.
pub const STATUS_TW: u64 = 0x20_0000;

/// Trap `SRET`: supervisor mode may not return from a trap.
pub const STATUS_TSR: u64 = 0x40_0000;

/// `misa` of a 64-bit hart: RV64 with the extensions A, C, D, F, I, M, S
/// and U.
pub const MISA_64: u64 = 0x8000_0000_0014_112d;

/// `misa` of a 32-bit hart.
pub const MISA_32: u64 = 0x4014_112d;

/// `mstatus` of a 64-bit hart at reset: `SXL` and `UXL` say 64 bits.
pub const MSTATUS_RESET_64: u64 = 0xa_0000_0000;

/// `v` with the field of `span` values at weight `weight` replaced by
/// `value`.
pub open spec fn with_field(v: u64, weight: u64, span: u64, value: u64) -> u64 {
    (v - field(v as int, weight as int, span as int) * weight + value * weight) as u64
}

/// The field of `span` values at weight `weight` of `v`.
pub fn read_field(v: u64, weight: u64, span: u64) -> (r: u64)
    requires
        weight > 0,
        span > 0,
    ensures
        r == field(v as int, weight as int, span as int),
        r < span,
{
    (v / weight) % span
}

/// `v` with the field of `span` values at weight `weight` replaced by
/// `value`.
pub fn set_field(v: u64, weight: u64, span: u64, value: u64) -> (r: u64)
    requires
        weight > 0,
        span > 0,
        field(v as int, weight as int, span as int) * weight <= v,
        v - field(v as int, weight as int, span as int) * weight + value * weight <= u64::MAX,
    ensures
        r == with_field(v, weight, span, value),
{
    let old = (v / weight) % span;
    assert(value * weight >= 0) by (nonlinear_arith)
        requires
            value >= 0,
            weight > 0,
    ;
    v - old * weight + value * weight
}

/// The number of a privilege mode, as the fields `MPP` and `SPP` and bits
/// 9:8 of a CSR number hold it.
pub open spec fn privilege_level(p: PrivilegeMode) -> u64 {
    match p {
        PrivilegeMode::User => 0,
        PrivilegeMode::Supervisor => 1,
        PrivilegeMode::Machine => 3,
    }
}

/// The number of a privilege mode.
pub fn level_of(p: PrivilegeMode) -> (r: u64)
    ensures
        r == privilege_level(p),
        r < 4,
{
    match p {
        PrivilegeMode::User => 0,
        PrivilegeMode::Supervisor => 1,
        PrivilegeMode::Machine => 3,
    }
}

/// Whether a hart in mode `privilege` may access register `addr`: bits 9:8
/// of the number give the lowest mode that may, and registers whose bits
/// 11:10 are both set cannot be written.
pub open spec fn accessible(addr: u16, privilege: PrivilegeMode, writes: bool) -> bool {
    field(addr as int, 0x100, 4) <= privilege_level(privilege) && !(writes && addr / 0x400 == 3)
}

/// Whether a hart in mode `privilege` may access register `addr`.
pub fn is_accessible(addr: u16, privilege: PrivilegeMode, writes: bool) -> (r: bool)
    ensures
        r == accessible(addr, privilege, writes),
{
    ((addr / 0x100) % 4) as u64 <= level_of(privilege) && !(writes && addr / 0x400 == 3)
}

/// What a read of register `addr` returns. `time` is the platform's timer.
pub open spec fn csr_value(regs: Seq<u64>, addr: u16, time: u64) -> u64 {
    if addr == SSTATUS {
        regs[MSTATUS as int] & SSTATUS_MASK
    } else if addr == SIE {
        regs[MIE as int] & SUPERVISOR_INTERRUPTS
    } else if addr == SIP {
        regs[MIP as int] & SUPERVISOR_INTERRUPTS
    } else if addr == FFLAGS {
        regs[FCSR as int] % 0x20
    } else if addr == FRM {
        (regs[FCSR as int] / 0x20) % 8
    } else if addr == CYCLE {
        regs[MCYCLE as int]
    } else if addr == INSTRET {
        regs[MINSTRET as int]
    } else if addr == TIME {
        time
    } else {
        regs[addr as int]
    }
}

/// `old` with the bits of `mask` taken from `value`.
pub open spec fn merged(old: u64, value: u64, mask: u64) -> u64 {
    (old & !mask) | (value & mask)
}

/// `old` with the bits of `mask` taken from `value`.
pub fn merge(old: u64, value: u64, mask: u64) -> (r: u64)
    ensures
        r == merged(old, value, mask),
{
    (old & !mask) | (value & mask)
}

/// Whether `value` names a translation scheme that the hart implements.
pub open spec fn satp_supported(value: u64, xlen: Xlen) -> bool {
    xlen == Xlen::X32 || value / 0x1000_0000_0000_0000 == 0 || value / 0x1000_0000_0000_0000 == 8
}

/// The registers after `value` has been written to register `addr`.
/// Windows write through to the bits they show; `misa` is fixed; a write of
/// an unsupported translation scheme to `satp` is ignored; the exception
/// program counters keep bit 0 clear; the machine-level bits of `mip` are
/// driven by the platform only.
pub open spec fn csr_written(regs: Seq<u64>, addr: u16, value: u64, xlen: Xlen) -> Seq<u64> {
    if addr == SSTATUS {
        regs.update(MSTATUS as int, merged(regs[MSTATUS as int], value, SSTATUS_MASK))
    } else if addr == SIE {
        regs.update(MIE as int, merged(regs[MIE as int], value, SUPERVISOR_INTERRUPTS))
    } else if addr == SIP {
        regs.update(MIP as int, merged(regs[MIP as int], value, SSIP))
    } else if addr == MIP {
        regs.update(MIP as int, merged(regs[MIP as int], value, SUPERVISOR_INTERRUPTS))
    } else if addr == MIDELEG {
        regs.update(MIDELEG as int, value & SUPERVISOR_INTERRUPTS)
    } else if addr == MISA {
        regs
    } else if addr == FFLAGS {
        regs.update(FCSR as int, with_field(regs[FCSR as int], 1, 0x20, value % 0x20))
    } else if addr == FRM {
        regs.update(FCSR as int, with_field(regs[FCSR as int], 0x20, 8, value % 8))
    } else if addr == FCSR {
        regs.update(FCSR as int, value % 0x100)
    } else if addr == SATP {
        if satp_supported(value, xlen) {
            regs.update(SATP as int, value)
        } else {
            regs
        }
    } else if addr == MEPC || addr == SEPC {
        regs.update(addr as int, (value - value % 2) as u64)
    } else {
        regs.update(addr as int, value)
    }
}

/// The control and status registers.
pub struct CsrFile {
    regs: [u64; 4096],
}

impl View for CsrFile {
    type V = Seq<u64>;

    closed spec fn view(&self) -> Seq<u64> {
        self.regs@
    }
}

impl CsrFile {
    /// All registers zero.
    pub fn new() -> (c: CsrFile)
        ensures
            c@.len() == CSR_COUNT,
            forall|i: int| 0 <= i < CSR_COUNT ==> c@[i] == 0,
    {
        CsrFile { regs: [0u64; 4096] }
    }

    /// The register itself, windows not applied.
    pub fn get(&self, addr: u16) -> (r: u64)
        requires
            addr < CSR_COUNT,
        ensures
            r == self@[addr as int],
            self@.len() == CSR_COUNT,
    {
        self.regs[addr as usize]
    }

    /// Sets the register itself, windows not applied.
    pub fn set(&mut self, addr: u16, value: u64)
        requires
            addr < CSR_COUNT,
        ensures
            final(self)@ == old(self)@.update(addr as int, value),
            final(self)@.len() == CSR_COUNT,
    {
        self.regs[addr as usize] = value;
    }

    /// Reads register `addr` as an instruction does.
    pub fn read(&self, addr: u16, time: u64) -> (r: u64)
        requires
            addr < CSR_COUNT,
        ensures
            r == csr_value(self@, addr, time),
    {
        if addr == SSTATUS {
            self.get(MSTATUS) & SSTATUS_MASK
        } else if addr == SIE {
            self.get(MIE) & SUPERVISOR_INTERRUPTS
        } else if addr == SIP {
            self.get(MIP) & SUPERVISOR_INTERRUPTS
        } else if addr == FFLAGS {
            self.get(FCSR) % 0x20
        } else if addr == FRM {
            (self.get(FCSR) / 0x20) % 8
        } else if addr == CYCLE {
            self.get(MCYCLE)
        } else if addr == INSTRET {
            self.get(MINSTRET)
        } else if addr == TIME {
            time
        } else {
            self.get(addr)
        }
    }

    /// Writes register `addr` as an instruction does.
    pub fn write(&mut self, addr: u16, value: u64, xlen: Xlen)
        requires
            addr < CSR_COUNT,
        ensures
            final(self)@ == csr_written(old(self)@, addr, value, xlen),
            final(self)@.len() == CSR_COUNT,
    {
        if addr == SSTATUS {
            self.set(MSTATUS, merge(self.get(MSTATUS), value, SSTATUS_MASK));
        } else if addr == SIE {
            self.set(MIE, merge(self.get(MIE), value, SUPERVISOR_INTERRUPTS));
        } else if addr == SIP {
            self.set(MIP, merge(self.get(MIP), value, SSIP));
        } else if addr == MIP {
            self.set(MIP, merge(self.get(MIP), value, SUPERVISOR_INTERRUPTS));
        } else if addr == MIDELEG {
            self.set(MIDELEG, value & SUPERVISOR_INTERRUPTS);
        } else if addr == MISA {
        } else if addr == FFLAGS {
            self.set(FCSR, set_field(self.get(FCSR), 1, 0x20, value % 0x20));
        } else if addr == FRM {
            self.set(FCSR, set_field(self.get(FCSR), 0x20, 8, value % 8));
        } else if addr == FCSR {
            self.set(FCSR, value % 0x100);
        } else if addr == SATP {
            if xlen == Xlen::X32 || value / 0x1000_0000_0000_0000 == 0 || value
                / 0x1000_0000_0000_0000 == 8 {
                self.set(SATP, value);
            }
        } else if addr == MEPC || addr == SEPC {
            self.set(addr, value - value % 2);
        } else {
            self.set(addr, value);
        }
    }
}

} // verus!
