//! The hart and its step function.

use vstd::prelude::*;
use crate::bus::bus_fu540::{bus_at_reset, DRAM_ADDRESS_START};
use crate::cpu::alu::{
    alu,
    compute,
    compute64,
    sext32,
    sign_extend32,
    signed,
    zero_extend32,
    zext32,
    AluOp,
};
use crate::cpu::csr::{
    accessible,
    csr_value,
    csr_written,
    is_accessible,
    level_of,
    privilege_level,
    read_field,
    set_field,
    with_field,
    CsrFile,
    CSR_COUNT,
    MCAUSE,
    MEDELEG,
    MEPC,
    MIDELEG,
    MCYCLE,
    MIE,
    MINSTRET,
    MIP,
    MISA,
    MISA_32,
    MISA_64,
    MSTATUS,
    MSTATUS_RESET_64,
    MTVAL,
    MTVEC,
    SATP,
    SCAUSE,
    SEPC,
    STATUS_FS,
    STATUS_MIE,
    STATUS_MPIE,
    STATUS_MPP,
    STATUS_MPRV,
    STATUS_SIE,
    STATUS_SPIE,
    STATUS_SPP,
    STATUS_TSR,
    STATUS_TVM,
    STATUS_TW,
    STVAL,
    STVEC,
};
use crate::cpu::cpu_instruction_comp::{decompressed, instruction_decompress};
use crate::cpu::decode::{
    decode,
    decode_spec,
    extend_sign,
    lemma_decode_well_formed,
    sign_extend,
    well_formed,
    AmoOp,
    BranchKind,
    CsrOp,
    Instr,
    SignKind,
    Width,
};
use crate::cpu::encoding::field;
use crate::cpu::trap::{
    code_of_exception,
    code_of_interrupt,
    exception_code,
    interrupt_code,
    Exception,
    Interrupt,
    Trap,
};
use crate::mmu::{fresh_tlb, privilege_of, Mmu, MmuRegs, MmuView};

verus! {

/// The native integer width of the hart.
#[derive(Clone, Copy, Debug, PartialEq, Eq, Structural)]
pub enum Xlen {
    X32,
    X64,
}

/// The privilege modes.
#[derive(Clone, Copy, Debug, PartialEq, Eq, Structural)]
pub enum PrivilegeMode {
    User,
    Supervisor,
    Machine,
}

// Weights of the interrupt bits of `mip` that the platform drives.
pub const MIP_MSIP: u64 = 0x008;

/// Machine timer interrupt.
pub const MIP_MTIP: u64 = 0x080;

/// Supervisor external interrupt.
pub const MIP_SEIP: u64 = 0x200;

/// Machine external interrupt.
pub const MIP_MEIP: u64 = 0x800;

/// Why a trap is taken.
#[derive(Clone, Copy, Debug, PartialEq, Eq, Structural)]
pub enum Cause {
    Exception(Exception),
    Interrupt(Interrupt),
}

/// The code of a cause.
pub open spec fn cause_code(cause: Cause) -> u64 {
    match cause {
        Cause::Exception(e) => exception_code(e),
        Cause::Interrupt(i) => interrupt_code(i),
    }
}

/// Two to the power `code`, for codes below 16: the weight of the bit that
/// stands for the code in `mip`, `mie`, `mideleg` and `medeleg`.
pub open spec fn bit_weight(code: u64) -> u64 {
    if code == 0 {
        0x1
    } else if code == 1 {
        0x2
    } else if code == 2 {
        0x4
    } else if code == 3 {
        0x8
    } else if code == 4 {
        0x10
    } else if code == 5 {
        0x20
    } else if code == 6 {
        0x40
    } else if code == 7 {
        0x80
    } else if code == 8 {
        0x100
    } else if code == 9 {
        0x200
    } else if code == 10 {
        0x400
    } else if code == 11 {
        0x800
    } else if code == 12 {
        0x1000
    } else if code == 13 {
        0x2000
    } else if code == 14 {
        0x4000
    } else {
        0x8000
    }
}

/// Two to the power `code`, for codes below 16.
pub fn weight_of_bit(code: u64) -> (r: u64)
    ensures
        r == bit_weight(code),
        0 < r <= 0x8000,
{
    if code == 0 {
        0x1
    } else if code == 1 {
        0x2
    } else if code == 2 {
        0x4
    } else if code == 3 {
        0x8
    } else if code == 4 {
        0x10
    } else if code == 5 {
        0x20
    } else if code == 6 {
        0x40
    } else if code == 7 {
        0x80
    } else if code == 8 {
        0x100
    } else if code == 9 {
        0x200
    } else if code == 10 {
        0x400
    } else if code == 11 {
        0x800
    } else if code == 12 {
        0x1000
    } else if code == 13 {
        0x2000
    } else if code == 14 {
        0x4000
    } else {
        0x8000
    }
}

/// The value that `mcause` or `scause` records: the code, under the
/// interrupt bit, which is the top bit of a register.
pub open spec fn cause_value(cause: Cause, xlen: Xlen) -> u64 {
    match cause {
        Cause::Exception(e) => exception_code(e),
        Cause::Interrupt(i) => match xlen {
            Xlen::X32 => (interrupt_code(i) + 0x8000_0000) as u64,
            Xlen::X64 => (interrupt_code(i) + 0x8000_0000_0000_0000) as u64,
        },
    }
}

/// The address that a trap jumps to: the base in `tvec`, or in vectored
/// mode, for an interrupt, the base plus four times the code.
pub open spec fn trap_vector(tvec: u64, cause: Cause) -> u64 {
    let base = (tvec - tvec % 4) as u64;
    match cause {
        Cause::Interrupt(i) => if tvec % 4 == 1 {
            base.wrapping_add((4 * interrupt_code(i)) as u64)
        } else {
            base
        },
        Cause::Exception(_) => base,
    }
}

/// An address as the hart forms it: truncated to 32 bits on a 32-bit hart.
pub open spec fn address(v: u64, xlen: Xlen) -> u64 {
    match xlen {
        Xlen::X32 => zext32(v),
        Xlen::X64 => v,
    }
}

/// A register value as the hart holds it: on a 32-bit hart the low 32 bits,
/// sign-extended.
pub open spec fn register_value(v: u64, xlen: Xlen) -> u64 {
    match xlen {
        Xlen::X32 => sext32(v),
        Xlen::X64 => v,
    }
}

/// The hart, and the machine behind its MMU, as a mathematical value.
pub struct CpuView {
    pub xlen: Xlen,
    /// The integer registers.
    pub x: Seq<u64>,
    /// The floating-point registers, as bits.
    pub f: Seq<u64>,
    pub pc: u64,
    pub csr: Seq<u64>,
    pub privilege: PrivilegeMode,
    /// The hart waits for an interrupt.
    pub wfi: bool,
    /// The address that a load-reserved has reserved.
    pub reservation: Option<u64>,
    pub mmu: MmuView,
}

impl CpuView {
    /// What the MMU must know of the hart.
    pub open spec fn mmu_regs(self) -> MmuRegs {
        MmuRegs {
            xlen: self.xlen,
            privilege: self.privilege,
            satp: self.csr[SATP as int],
            mstatus: self.csr[MSTATUS as int],
        }
    }

    /// Well-formedness: the register files have their sizes, `x0` is zero,
    /// and the MMU knows the hart's mode and its `satp` and `mstatus`.
    pub open spec fn wf(self) -> bool {
        &&& self.x.len() == 32
        &&& self.f.len() == 32
        &&& self.csr.len() == CSR_COUNT
        &&& self.x[0] == 0
        &&& self.mmu.wf()
        &&& self.mmu.regs == self.mmu_regs()
    }

    /// The hart with the MMU told of its mode, `satp` and `mstatus`.
    pub open spec fn synced(self) -> CpuView {
        CpuView { mmu: MmuView { regs: self.mmu_regs(), ..self.mmu }, ..self }
    }

    /// The hart after `value` has been written to register `rd`: `x0`
    /// ignores writes.
    pub open spec fn with_x(self, rd: u8, value: u64) -> CpuView {
        if rd == 0 {
            self
        } else {
            CpuView { x: self.x.update(rd as int, register_value(value, self.xlen)), ..self }
        }
    }

    /// Whether a trap for `cause` is delegated to supervisor mode: the
    /// hart is not in machine mode, and the delegation register has the bit
    /// of the cause.
    pub open spec fn delegated(self, cause: Cause) -> bool {
        self.privilege != PrivilegeMode::Machine && field(
            match cause {
                Cause::Exception(_) => self.csr[MEDELEG as int],
                Cause::Interrupt(_) => self.csr[MIDELEG as int],
            } as int,
            bit_weight(cause_code(cause)) as int,
            2,
        ) == 1
    }

    /// The hart after it has taken a trap to supervisor mode.
    pub open spec fn entered_supervisor(self, cause: Cause, tval: u64, epc: u64) -> CpuView {
        let status = self.csr[MSTATUS as int];
        let saved = with_field(
            status,
            STATUS_SPIE,
            2,
            field(status as int, STATUS_SIE as int, 2) as u64,
        );
        let disabled = with_field(saved, STATUS_SIE, 2, 0);
        let new_status = with_field(
            disabled,
            STATUS_SPP,
            2,
            if self.privilege == PrivilegeMode::User {
                0
            } else {
                1
            },
        );
        (CpuView {
            pc: address(trap_vector(self.csr[STVEC as int], cause), self.xlen),
            csr: self.csr.update(SEPC as int, epc).update(
                SCAUSE as int,
                cause_value(cause, self.xlen),
            ).update(STVAL as int, tval).update(MSTATUS as int, new_status),
            privilege: PrivilegeMode::Supervisor,
            wfi: false,
            ..self
        }).synced()
    }

    /// The hart after it has taken a trap to machine mode.
    pub open spec fn entered_machine(self, cause: Cause, tval: u64, epc: u64) -> CpuView {
        let status = self.csr[MSTATUS as int];
        let saved = with_field(
            status,
            STATUS_MPIE,
            2,
            field(status as int, STATUS_MIE as int, 2) as u64,
        );
        let disabled = with_field(saved, STATUS_MIE, 2, 0);
        let new_status = with_field(disabled, STATUS_MPP, 4, privilege_level(self.privilege));
        (CpuView {
            pc: address(trap_vector(self.csr[MTVEC as int], cause), self.xlen),
            csr: self.csr.update(MEPC as int, epc).update(
                MCAUSE as int,
                cause_value(cause, self.xlen),
            ).update(MTVAL as int, tval).update(MSTATUS as int, new_status),
            privilege: PrivilegeMode::Machine,
            wfi: false,
            ..self
        }).synced()
    }

    /// The hart after it has taken a trap. The cause, the value `tval` and
    /// the address `epc` are recorded in the registers of the mode that
    /// handles the trap; the interrupt enable of that mode is saved and
    /// cleared, the mode that was interrupted is saved, and the hart
    /// continues in the handling mode at its trap vector.
    pub open spec fn after_trap(self, cause: Cause, tval: u64, epc: u64) -> CpuView {
        if self.delegated(cause) {
            self.entered_supervisor(cause, tval, epc)
        } else {
            self.entered_machine(cause, tval, epc)
        }
    }

    /// The hart after `MRET`: it continues at `mepc` in the mode that
    /// `mstatus.MPP` holds, with the machine interrupt enable restored.
    pub open spec fn after_mret(self) -> CpuView {
        let status = self.csr[MSTATUS as int];
        let previous = privilege_of(field(status as int, STATUS_MPP as int, 4));
        let restored = with_field(status, STATUS_MIE, 2, field(status as int, STATUS_MPIE as int, 2) as u64);
        let enabled = with_field(restored, STATUS_MPIE, 2, 1);
        let cleared = with_field(enabled, STATUS_MPP, 4, 0);
        let new_status = if previous != PrivilegeMode::Machine {
            with_field(cleared, STATUS_MPRV, 2, 0)
        } else {
            cleared
        };
        (CpuView {
            pc: address(self.csr[MEPC as int], self.xlen),
            csr: self.csr.update(MSTATUS as int, new_status),
            privilege: previous,
            ..self
        }).synced()
    }

    /// The hart after `SRET`: it continues at `sepc` in the mode that
    /// `mstatus.SPP` holds, with the supervisor interrupt enable restored.
    pub open spec fn after_sret(self) -> CpuView {
        let status = self.csr[MSTATUS as int];
        let previous = privilege_of(field(status as int, STATUS_SPP as int, 2));
        let restored = with_field(status, STATUS_SIE, 2, field(status as int, STATUS_SPIE as int, 2) as u64);
        let enabled = with_field(restored, STATUS_SPIE, 2, 1);
        let cleared = with_field(enabled, STATUS_SPP, 2, 0);
        let new_status = with_field(cleared, STATUS_MPRV, 2, 0);
        (CpuView {
            pc: address(self.csr[SEPC as int], self.xlen),
            csr: self.csr.update(MSTATUS as int, new_status),
            privilege: previous,
            ..self
        }).synced()
    }
}

/// Bytes of an access of the given width.
pub open spec fn width_bytes(width: Width) -> nat {
    match width {
        Width::B => 1,
        Width::H => 2,
        Width::W => 4,
        Width::D => 8,
    }
}

/// A loaded value extended to 64 bits: sign-extended or zero-extended from
/// the width it was loaded with.
pub open spec fn extended(v: u64, width: Width, signed: bool) -> u64 {
    if !signed {
        v
    } else {
        match width {
            Width::B => sign_extend(v as int, 0x100),
            Width::H => sign_extend(v as int, 0x1_0000),
            Width::W => sign_extend(v as int, 0x1_0000_0000),
            Width::D => v,
        }
    }
}

/// The low bytes of a register that a store of the given width writes.
pub open spec fn store_data(v: u64, width: Width) -> u64 {
    match width {
        Width::B => v % 0x100,
        Width::H => v % 0x1_0000,
        Width::W => v % 0x1_0000_0000,
        Width::D => v,
    }
}

/// Whether a branch is taken.
pub open spec fn branch_taken(kind: BranchKind, a: u64, b: u64) -> bool {
    match kind {
        BranchKind::Eq => a == b,
        BranchKind::Ne => a != b,
        BranchKind::Lt => signed(a) < signed(b),
        BranchKind::Ge => signed(a) >= signed(b),
        BranchKind::Ltu => a < b,
        BranchKind::Geu => a >= b,
    }
}

/// The value that an atomic operation stores, from the value in memory and
/// the source register.
pub open spec fn amo_value(op: AmoOp, memory: u64, source: u64) -> u64 {
    match op {
        AmoOp::Swap => source,
        AmoOp::Add => memory.wrapping_add(source),
        AmoOp::Xor => memory ^ source,
        AmoOp::And => memory & source,
        AmoOp::Or => memory | source,
        AmoOp::Min => if signed(memory) < signed(source) {
            memory
        } else {
            source
        },
        AmoOp::Max => if signed(memory) < signed(source) {
            source
        } else {
            memory
        },
        AmoOp::Minu => if memory < source {
            memory
        } else {
            source
        },
        AmoOp::Maxu => if memory < source {
            source
        } else {
            memory
        },
    }
}

/// A value of the given width as the operand of an atomic operation: a
/// word is sign-extended.
pub open spec fn amo_operand(v: u64, width: Width) -> u64 {
    if width == Width::W {
        sext32(v)
    } else {
        v
    }
}

/// The exception of a store that stands for the exception of a load: an
/// atomic operation reports its faults as a store does.
pub open spec fn as_store_fault(t: Trap) -> Trap {
    Trap {
        exception: match t.exception {
            Exception::LoadPageFault => Exception::StorePageFault,
            Exception::LoadAccessFault => Exception::StoreAccessFault,
            Exception::LoadAddressMisaligned => Exception::StoreAddressMisaligned,
            e => e,
        },
        value: t.value,
    }
}

/// The bits of a single-precision value in a floating-point register: the
/// upper half is all ones.
pub open spec fn boxed(v: u64) -> u64 {
    (zext32(v) + 0xffff_ffff_0000_0000) as u64
}

/// The result of a sign injection: the magnitude of `a` under a sign made
/// of the signs of `a` and `b`. `top` is the weight of the sign bit.
pub open spec fn sign_injected(kind: SignKind, a: u64, b: u64, top: u64) -> u64 {
    let sign_a = field(a as int, top as int, 2) == 1;
    let sign_b = field(b as int, top as int, 2) == 1;
    let sign = match kind {
        SignKind::Copy => sign_b,
        SignKind::Negate => !sign_b,
        SignKind::Xor => sign_a != sign_b,
    };
    if sign {
        (a % top + top) as u64
    } else {
        a % top
    }
}

/// What the execution of an instruction leaves: `Ok` and the state after
/// the instruction, or the exception that it raises and the state in which
/// the trap is to be taken.
pub struct Outcome {
    pub result: Result<(), Trap>,
    pub state: CpuView,
}

impl CpuView {
    /// The instruction retires: the state is `self`.
    pub open spec fn retired(self) -> Outcome {
        Outcome { result: Ok(()), state: self }
    }

    /// The instruction raises `exception` with trap value `value` and
    /// leaves the state `self`.
    pub open spec fn raised(self, exception: Exception, value: u64) -> Outcome {
        Outcome { result: Err(Trap { exception, value }), state: self }
    }

    /// The hart with the program counter moved on by `len` bytes.
    pub open spec fn advanced(self, len: u64) -> CpuView {
        CpuView { pc: address(self.pc.wrapping_add(len), self.xlen), ..self }
    }

    /// The hart with the program counter at `target`.
    pub open spec fn jumped(self, target: u64) -> CpuView {
        CpuView { pc: address(target, self.xlen), ..self }
    }

    /// The address `x[rs1] + imm`.
    pub open spec fn effective_address(self, rs1: u8, imm: u64) -> u64 {
        address(self.x[rs1 as int].wrapping_add(imm), self.xlen)
    }

    /// The floating-point unit is on: `mstatus.FS` is not zero.
    pub open spec fn fp_enabled(self) -> bool {
        field(self.csr[MSTATUS as int] as int, STATUS_FS as int, 4) != 0
    }

    /// `LUI` where `pc_relative` is clear, `AUIPC` where it is set.
    #[verifier::opaque]
    pub open spec fn exec_upper(self, rd: u8, imm: u64, pc_relative: bool, len: u64) -> Outcome {
        self.with_x(
            rd,
            if pc_relative {
                self.pc.wrapping_add(imm)
            } else {
                imm
            },
        ).advanced(len).retired()
    }

    /// The instructions that only move the program counter on, and `WFI`,
    /// which also makes the hart wait.
    #[verifier::opaque]
    pub open spec fn exec_idle(self, wait: bool, len: u64) -> Outcome {
        (CpuView { wfi: self.wfi || wait, ..self }).advanced(len).retired()
    }

    /// Whether supervisor mode is denied what the bit of weight `weight` of
    /// `mstatus` guards.
    pub open spec fn denied(self, weight: u64) -> bool {
        self.privilege == PrivilegeMode::Supervisor && field(
            self.csr[MSTATUS as int] as int,
            weight as int,
            2,
        ) == 1
    }

    /// `WFI` makes the hart wait for an interrupt. Below machine mode it is
    /// illegal while `mstatus.TW` is set.
    #[verifier::opaque]
    pub open spec fn exec_wfi(self, len: u64, word: u32) -> Outcome {
        if self.privilege != PrivilegeMode::Machine && field(
            self.csr[MSTATUS as int] as int,
            STATUS_TW as int,
            2,
        ) == 1 {
            self.raised(Exception::IllegalInstruction, word as u64)
        } else {
            self.exec_idle(true, len)
        }
    }

    /// `JAL` links and jumps to an address relative to its own.
    #[verifier::opaque]
    pub open spec fn exec_jal(self, rd: u8, imm: u64, len: u64) -> Outcome {
        self.with_x(rd, self.pc.wrapping_add(len)).jumped(self.pc.wrapping_add(imm)).retired()
    }

    /// `JALR` clears bit 0 of the target.
    #[verifier::opaque]
    pub open spec fn exec_jalr(self, rd: u8, rs1: u8, imm: u64, len: u64) -> Outcome {
        let sum = self.x[rs1 as int].wrapping_add(imm);
        self.with_x(rd, self.pc.wrapping_add(len)).jumped((sum - sum % 2) as u64).retired()
    }

    /// A branch jumps to an address relative to its own if it is taken, and
    /// moves on by its length if not.
    #[verifier::opaque]
    pub open spec fn exec_branch(self, kind: BranchKind, rs1: u8, rs2: u8, imm: u64, len: u64) -> Outcome {
        if branch_taken(kind, self.x[rs1 as int], self.x[rs2 as int]) {
            self.jumped(self.pc.wrapping_add(imm)).retired()
        } else {
            self.advanced(len).retired()
        }
    }

    /// A load: the value read from `x[rs1] + imm`, extended, goes to `rd`.
    #[verifier::opaque]
    pub open spec fn exec_load(
        self,
        width: Width,
        signed: bool,
        rd: u8,
        rs1: u8,
        imm: u64,
        len: u64,
    ) -> Outcome {
        let addr = self.effective_address(rs1, imm);
        let after = CpuView { mmu: self.mmu.after_read(addr, width_bytes(width)), ..self };
        match self.mmu.read_result(addr, width_bytes(width)) {
            Err(t) => Outcome { result: Err(t), state: after },
            Ok(v) => after.with_x(rd, extended(v, width, signed)).advanced(len).retired(),
        }
    }

    /// A store: the low bytes of `x[rs2]` go to `x[rs1] + imm`. A store
    /// ends a reservation.
    #[verifier::opaque]
    pub open spec fn exec_store(self, width: Width, rs1: u8, rs2: u8, imm: u64, len: u64) -> Outcome {
        let addr = self.effective_address(rs1, imm);
        let data = store_data(self.x[rs2 as int], width);
        let after = CpuView {
            mmu: self.mmu.after_write(addr, width_bytes(width), data),
            reservation: None,
            ..self
        };
        match self.mmu.write_result(addr, width_bytes(width), data) {
            Err(t) => Outcome { result: Err(t), state: after },
            Ok(_) => after.advanced(len).retired(),
        }
    }

    /// Arithmetic on `a` and `b` into `rd`: on 32 bits on a 32-bit hart and
    /// in the `.w` variants.
    #[verifier::opaque]
    pub open spec fn exec_alu(self, op: AluOp, rd: u8, a: u64, b: u64, word: bool, len: u64) -> Outcome {
        self.with_x(rd, alu(op, a, b, word || self.xlen == Xlen::X32)).advanced(len).retired()
    }

    /// `ECALL` raises the environment call of the current mode.
    #[verifier::opaque]
    pub open spec fn exec_ecall(self) -> Outcome {
        self.raised(
            match self.privilege {
                PrivilegeMode::User => Exception::EnvironmentCallFromUMode,
                PrivilegeMode::Supervisor => Exception::EnvironmentCallFromSMode,
                PrivilegeMode::Machine => Exception::EnvironmentCallFromMMode,
            },
            0,
        )
    }

    /// `EBREAK` raises a breakpoint at its own address.
    #[verifier::opaque]
    pub open spec fn exec_ebreak(self) -> Outcome {
        self.raised(Exception::Breakpoint, self.pc)
    }

    /// `MRET` is legal in machine mode only.
    #[verifier::opaque]
    pub open spec fn exec_mret(self, word: u32) -> Outcome {
        if self.privilege != PrivilegeMode::Machine {
            self.raised(Exception::IllegalInstruction, word as u64)
        } else {
            self.after_mret().retired()
        }
    }

    /// `SRET` is illegal in user mode, and in supervisor mode while
    /// `mstatus.TSR` is set.
    #[verifier::opaque]
    pub open spec fn exec_sret(self, word: u32) -> Outcome {
        if self.privilege == PrivilegeMode::User || self.denied(STATUS_TSR) {
            self.raised(Exception::IllegalInstruction, word as u64)
        } else {
            self.after_sret().retired()
        }
    }

    /// `SFENCE.VMA` is illegal in user mode, and in supervisor mode while
    /// `mstatus.TVM` is set. The values of `rs1` and `rs2` name the address
    /// and the address space.
    #[verifier::opaque]
    pub open spec fn exec_sfence(self, rs1: u8, rs2: u8, len: u64, word: u32) -> Outcome {
        if self.privilege == PrivilegeMode::User || self.denied(STATUS_TVM) {
            self.raised(Exception::IllegalInstruction, word as u64)
        } else {
            (CpuView {
                mmu: self.mmu.after_fence(self.x[rs1 as int], self.x[rs2 as int]),
                ..self
            }).advanced(len).retired()
        }
    }

    /// A CSR access. The old value of the register goes to `rd`. The
    /// register is written unless the instruction sets or clears bits and
    /// names `x0`, or the immediate 0, as the source. An access that the
    /// mode may not make, or a write to a read-only register, is illegal,
    /// and so is an access to `satp` in supervisor mode while `mstatus.TVM`
    /// is set.
    #[verifier::opaque]
    pub open spec fn exec_csr(
        self,
        op: CsrOp,
        rd: u8,
        source: u8,
        immediate: bool,
        csr: u16,
        len: u64,
        word: u32,
    ) -> Outcome {
        let operand = if immediate {
            source as u64
        } else {
            self.x[source as int]
        };
        let writes = op == CsrOp::ReadWrite || source != 0;
        if !accessible(csr, self.privilege, writes) || (csr == SATP && self.denied(STATUS_TVM)) {
            self.raised(Exception::IllegalInstruction, word as u64)
        } else {
            let old = csr_value(self.csr, csr, self.mmu.bus.timer.mtime);
            let new = match op {
                CsrOp::ReadWrite => operand,
                CsrOp::ReadSet => old | operand,
                CsrOp::ReadClear => old & !operand,
            };
            let written = if writes {
                CpuView { csr: csr_written(self.csr, csr, new, self.xlen), ..self }
            } else {
                self
            };
            written.synced().with_x(rd, old).advanced(len).retired()
        }
    }

    /// Load-reserved: a load from the naturally aligned address `x[rs1]`
    /// that reserves the address.
    #[verifier::opaque]
    pub open spec fn exec_load_reserved(self, width: Width, rd: u8, rs1: u8, len: u64) -> Outcome {
        let addr = self.effective_address(rs1, 0);
        if addr % (width_bytes(width) as u64) != 0 {
            self.raised(Exception::LoadAddressMisaligned, addr)
        } else {
            let after = CpuView { mmu: self.mmu.after_read(addr, width_bytes(width)), ..self };
            match self.mmu.read_result(addr, width_bytes(width)) {
                Err(t) => Outcome { result: Err(t), state: after },
                Ok(v) => (CpuView { reservation: Some(addr), ..after }).with_x(
                    rd,
                    extended(v, width, true),
                ).advanced(len).retired(),
            }
        }
    }

    /// Store-conditional: stores to the naturally aligned address `x[rs1]`
    /// and writes 0 to `rd` if the address is reserved, else stores nothing
    /// and writes 1. Either way the reservation ends.
    #[verifier::opaque]
    pub open spec fn exec_store_conditional(
        self,
        width: Width,
        rd: u8,
        rs1: u8,
        rs2: u8,
        len: u64,
    ) -> Outcome {
        let addr = self.effective_address(rs1, 0);
        let data = store_data(self.x[rs2 as int], width);
        if addr % (width_bytes(width) as u64) != 0 {
            self.raised(Exception::StoreAddressMisaligned, addr)
        } else if self.reservation != Some(addr) {
            (CpuView { reservation: None, ..self }).with_x(rd, 1).advanced(len).retired()
        } else {
            let after = CpuView {
                mmu: self.mmu.after_write(addr, width_bytes(width), data),
                reservation: None,
                ..self
            };
            match self.mmu.write_result(addr, width_bytes(width), data) {
                Err(t) => Outcome { result: Err(t), state: after },
                Ok(_) => after.with_x(rd, 0).advanced(len).retired(),
            }
        }
    }

    /// An atomic operation on the naturally aligned address `x[rs1]`: the
    /// value in memory goes to `rd`, and the value made of it and `x[rs2]`
    /// to memory. Its faults are those of a store.
    #[verifier::opaque]
    pub open spec fn exec_amo(self, op: AmoOp, width: Width, rd: u8, rs1: u8, rs2: u8, len: u64) -> Outcome {
        let addr = self.effective_address(rs1, 0);
        let n = width_bytes(width);
        if addr % (n as u64) != 0 {
            self.raised(Exception::StoreAddressMisaligned, addr)
        } else {
            let read = CpuView { mmu: self.mmu.after_read(addr, n), ..self };
            match self.mmu.read_result(addr, n) {
                Err(t) => Outcome { result: Err(as_store_fault(t)), state: read },
                Ok(v) => {
                    let data = store_data(
                        amo_value(op, amo_operand(v, width), amo_operand(self.x[rs2 as int], width)),
                        width,
                    );
                    let after = CpuView {
                        mmu: read.mmu.after_write(addr, n, data),
                        reservation: None,
                        ..read
                    };
                    match read.mmu.write_result(addr, n, data) {
                        Err(t) => Outcome { result: Err(t), state: after },
                        Ok(_) => after.with_x(rd, extended(v, width, true)).advanced(len).retired(),
                    }
                },
            }
        }
    }

    /// A floating-point load: a word is boxed.
    #[verifier::opaque]
    pub open spec fn exec_fp_load(self, width: Width, rd: u8, rs1: u8, imm: u64, len: u64, word: u32) -> Outcome {
        let addr = self.effective_address(rs1, imm);
        if !self.fp_enabled() {
            self.raised(Exception::IllegalInstruction, word as u64)
        } else {
            let after = CpuView { mmu: self.mmu.after_read(addr, width_bytes(width)), ..self };
            match self.mmu.read_result(addr, width_bytes(width)) {
                Err(t) => Outcome { result: Err(t), state: after },
                Ok(v) => (CpuView {
                    f: after.f.update(
                        rd as int,
                        if width == Width::W {
                            boxed(v)
                        } else {
                            v
                        },
                    ),
                    ..after
                }).advanced(len).retired(),
            }
        }
    }

    /// A floating-point store.
    #[verifier::opaque]
    pub open spec fn exec_fp_store(self, width: Width, rs1: u8, rs2: u8, imm: u64, len: u64, word: u32) -> Outcome {
        let addr = self.effective_address(rs1, imm);
        let data = store_data(self.f[rs2 as int], width);
        if !self.fp_enabled() {
            self.raised(Exception::IllegalInstruction, word as u64)
        } else {
            let after = CpuView {
                mmu: self.mmu.after_write(addr, width_bytes(width), data),
                reservation: None,
                ..self
            };
            match self.mmu.write_result(addr, width_bytes(width), data) {
                Err(t) => Outcome { result: Err(t), state: after },
                Ok(_) => after.advanced(len).retired(),
            }
        }
    }

    /// The moves between the register files and the sign injections.
    #[verifier::opaque]
    pub open spec fn exec_fp_move(self, instr: Instr, len: u64, word: u32) -> Outcome {
        if !self.fp_enabled() {
            self.raised(Exception::IllegalInstruction, word as u64)
        } else {
            match instr {
                Instr::FpToInt { width, rd, rs1 } => self.with_x(
                    rd,
                    if width == Width::W {
                        sext32(self.f[rs1 as int])
                    } else {
                        self.f[rs1 as int]
                    },
                ).advanced(len).retired(),
                Instr::IntToFp { width, rd, rs1 } => (CpuView {
                    f: self.f.update(
                        rd as int,
                        if width == Width::W {
                            boxed(self.x[rs1 as int])
                        } else {
                            self.x[rs1 as int]
                        },
                    ),
                    ..self
                }).advanced(len).retired(),
                Instr::FpSign { kind, width, rd, rs1, rs2 } => (CpuView {
                    f: self.f.update(
                        rd as int,
                        if width == Width::W {
                            boxed(
                                sign_injected(
                                    kind,
                                    zext32(self.f[rs1 as int]),
                                    zext32(self.f[rs2 as int]),
                                    0x8000_0000,
                                ),
                            )
                        } else {
                            sign_injected(
                                kind,
                                self.f[rs1 as int],
                                self.f[rs2 as int],
                                0x8000_0000_0000_0000,
                            )
                        },
                    ),
                    ..self
                }).advanced(len).retired(),
                _ => self.retired(),
            }
        }
    }

    /// The execution of the instruction `instr`, which is `len` bytes long
    /// and was fetched as `word`.
    #[verifier::opaque]
    pub open spec fn execute(self, instr: Instr, len: u64, word: u32) -> Outcome {
        match instr {
            Instr::Lui { rd, imm } => self.exec_upper(rd, imm, false, len),
            Instr::Auipc { rd, imm } => self.exec_upper(rd, imm, true, len),
            Instr::Jal { rd, imm } => self.exec_jal(rd, imm, len),
            Instr::Jalr { rd, rs1, imm } => self.exec_jalr(rd, rs1, imm, len),
            Instr::Branch { kind, rs1, rs2, imm } => self.exec_branch(kind, rs1, rs2, imm, len),
            Instr::Load { width, signed, rd, rs1, imm } => self.exec_load(
                width,
                signed,
                rd,
                rs1,
                imm,
                len,
            ),
            Instr::Store { width, rs1, rs2, imm } => self.exec_store(width, rs1, rs2, imm, len),
            Instr::OpImm { op, rd, rs1, imm, word: narrow } => self.exec_alu(
                op,
                rd,
                self.x[rs1 as int],
                imm,
                narrow,
                len,
            ),
            Instr::Op { op, rd, rs1, rs2, word: narrow } => self.exec_alu(
                op,
                rd,
                self.x[rs1 as int],
                self.x[rs2 as int],
                narrow,
                len,
            ),
            Instr::Fence | Instr::FenceI => self.exec_idle(false, len),
            Instr::Ecall => self.exec_ecall(),
            Instr::Ebreak => self.exec_ebreak(),
            Instr::Sret => self.exec_sret(word),
            Instr::Mret => self.exec_mret(word),
            Instr::Wfi => self.exec_wfi(len, word),
            Instr::SfenceVma { rs1, rs2 } => self.exec_sfence(rs1, rs2, len, word),
            Instr::Csr { op, rd, source, immediate, csr } => self.exec_csr(
                op,
                rd,
                source,
                immediate,
                csr,
                len,
                word,
            ),
            Instr::LoadReserved { width, rd, rs1 } => self.exec_load_reserved(width, rd, rs1, len),
            Instr::StoreConditional { width, rd, rs1, rs2 } => self.exec_store_conditional(
                width,
                rd,
                rs1,
                rs2,
                len,
            ),
            Instr::Amo { op, width, rd, rs1, rs2 } => self.exec_amo(op, width, rd, rs1, rs2, len),
            Instr::FpLoad { width, rd, rs1, imm } => self.exec_fp_load(
                width,
                rd,
                rs1,
                imm,
                len,
                word,
            ),
            Instr::FpStore { width, rs1, rs2, imm } => self.exec_fp_store(
                width,
                rs1,
                rs2,
                imm,
                len,
                word,
            ),
            Instr::FpToInt { .. } | Instr::IntToFp { .. } | Instr::FpSign { .. } => self.exec_fp_move(
                instr,
                len,
                word,
            ),
        }
    }

    /// The hart with the timer's two lines sampled into `mip`: the machine
    /// timer and the machine software interrupt bits show what the
    /// core-local interruptor presents now.
    pub open spec fn with_timer_lines(self) -> CpuView {
        let timer = self.mmu.bus.timer;
        let mtip = with_field(
            self.csr[MIP as int],
            MIP_MTIP,
            2,
            if timer.timer_interrupt(0) {
                1
            } else {
                0
            },
        );
        let msip = with_field(
            mtip,
            MIP_MSIP,
            2,
            if timer.software_interrupt(0) {
                1
            } else {
                0
            },
        );
        CpuView { csr: self.csr.update(MIP as int, msip), ..self }
    }

    /// The hart with the external-interrupt lines of the interrupt
    /// controller latched into `mip`: the line of context 0 is the machine
    /// external interrupt, that of context 1 the supervisor external
    /// interrupt.
    pub open spec fn with_external_lines(self, lines: Seq<bool>) -> CpuView {
        let meip = with_field(
            self.csr[MIP as int],
            MIP_MEIP,
            2,
            if lines[0] {
                1
            } else {
                0
            },
        );
        let seip = with_field(
            meip,
            MIP_SEIP,
            2,
            if lines[1] {
                1
            } else {
                0
            },
        );
        CpuView { csr: self.csr.update(MIP as int, seip), ..self }
    }

    /// Whether the hart takes interrupt `i` now: it is pending in `mip` and
    /// enabled in `mie`, and the mode that handles it can be interrupted. A
    /// delegated interrupt interrupts user mode, and supervisor mode while
    /// `mstatus.SIE` is set; any other interrupts the lower modes, and
    /// machine mode while `mstatus.MIE` is set.
    pub open spec fn takable(self, i: Interrupt) -> bool {
        let weight = bit_weight(interrupt_code(i)) as int;
        let status = self.csr[MSTATUS as int] as int;
        &&& field(self.csr[MIP as int] as int, weight, 2) == 1
        &&& field(self.csr[MIE as int] as int, weight, 2) == 1
        &&& if field(self.csr[MIDELEG as int] as int, weight, 2) == 1 {
            self.privilege == PrivilegeMode::User || (self.privilege == PrivilegeMode::Supervisor
                && field(status, STATUS_SIE as int, 2) == 1)
        } else {
            self.privilege != PrivilegeMode::Machine || field(status, STATUS_MIE as int, 2) == 1
        }
    }

    /// The interrupt that the hart takes now, if any: of those it can take,
    /// the one with the lowest code.
    pub open spec fn pending_interrupt(self) -> Option<Interrupt> {
        if self.takable(Interrupt::SupervisorSoftware) {
            Some(Interrupt::SupervisorSoftware)
        } else if self.takable(Interrupt::MachineSoftware) {
            Some(Interrupt::MachineSoftware)
        } else if self.takable(Interrupt::SupervisorTimer) {
            Some(Interrupt::SupervisorTimer)
        } else if self.takable(Interrupt::MachineTimer) {
            Some(Interrupt::MachineTimer)
        } else if self.takable(Interrupt::SupervisorExternal) {
            Some(Interrupt::SupervisorExternal)
        } else if self.takable(Interrupt::MachineExternal) {
            Some(Interrupt::MachineExternal)
        } else {
            None
        }
    }

    /// Whether a waiting hart wakes: an interrupt is pending and enabled in
    /// `mie`, whatever `mstatus` says.
    pub open spec fn wakes(self) -> bool {
        self.csr[MIP as int] & self.csr[MIE as int] != 0
    }

    /// The hart after it has taken the trap of an illegal instruction that
    /// was fetched as `word`.
    pub open spec fn after_illegal(self, word: u32) -> CpuView {
        self.after_trap(Cause::Exception(Exception::IllegalInstruction), word as u64, self.pc)
    }

    /// The hart after the instruction that was fetched as `word`. A word
    /// whose two low bits are not both set is a compressed instruction: it
    /// is expanded, and the expansion is executed as an instruction of two
    /// bytes. An instruction that retires is counted in `minstret`; one that
    /// raises an exception traps, with the address of the instruction as
    /// the exception program counter.
    #[verifier::opaque]
    pub open spec fn after_word(self, word: u32) -> CpuView {
        let expanded = if word % 4 != 3 {
            decompressed(self.xlen, (word % 0x1_0000) as int)
        } else {
            Ok(word)
        };
        let len: u64 = if word % 4 != 3 {
            2
        } else {
            4
        };
        match expanded {
            Err(_) => self.after_illegal(word),
            Ok(e) => match decode_spec(e, self.xlen) {
                None => self.after_illegal(word),
                Some(instr) => {
                    let o = self.execute(instr, len, word);
                    match o.result {
                        Ok(_) => CpuView {
                            csr: o.state.csr.update(
                                MINSTRET as int,
                                o.state.csr[MINSTRET as int].wrapping_add(1),
                            ),
                            ..o.state
                        },
                        Err(t) => o.state.after_trap(
                            Cause::Exception(t.exception),
                            t.value,
                            self.pc,
                        ),
                    }
                },
            },
        }
    }

    /// The hart after it has fetched and executed the instruction at the
    /// program counter, or has taken the trap that this raised.
    #[verifier::opaque]
    pub open spec fn after_instruction(self) -> CpuView {
        if self.pc % 2 != 0 {
            self.after_trap(
                Cause::Exception(Exception::InstructionAddressMisaligned),
                self.pc,
                self.pc,
            )
        } else {
            let fetched = CpuView { mmu: self.mmu.after_fetch(self.pc), ..self };
            match self.mmu.fetch_result(self.pc) {
                Err(t) => fetched.after_trap(Cause::Exception(t.exception), t.value, self.pc),
                Ok(word) => fetched.after_word(word),
            }
        }
    }

    /// The hart's part of a step. The timer's lines are sampled. A hart
    /// that waits for an interrupt and is not woken does nothing. Else the
    /// hart takes the interrupt that is pending, if one is, and otherwise
    /// executes one instruction.
    #[verifier::opaque]
    pub open spec fn after_hart_step(self) -> CpuView {
        let sampled = self.with_timer_lines();
        if sampled.wfi && !sampled.wakes() {
            sampled
        } else {
            let awake = CpuView { wfi: false, ..sampled };
            match awake.pending_interrupt() {
                Some(i) => awake.after_trap(Cause::Interrupt(i), 0, awake.pc),
                None => awake.after_instruction(),
            }
        }
    }

    /// The machine one step later: the hart has made its step, then the bus
    /// and its devices have ticked, and the external-interrupt lines that
    /// the interrupt controller presents after the tick are latched into
    /// `mip`, where the next step samples them. The cycle counter has
    /// advanced. A disk that serves requests in this tick ends a
    /// reservation.
    #[verifier::opaque]
    pub open spec fn step(self) -> CpuView {
        let h = self.after_hart_step();
        let bus = h.mmu.bus.after_tick();
        (CpuView {
            mmu: MmuView { bus, ..h.mmu },
            csr: h.csr.update(MCYCLE as int, h.csr[MCYCLE as int].wrapping_add(1)),
            reservation: if h.mmu.bus.virtio.regs.notified {
                None
            } else {
                h.reservation
            },
            ..h
        }).with_external_lines(bus.intc.lines())
    }
}

/// The hart. It owns the MMU, and through it the bus, memory and devices.
pub struct Cpu {
    xlen: Xlen,
    x: [u64; 32],
    f: [u64; 32],
    pc: u64,
    csr: CsrFile,
    privilege: PrivilegeMode,
    wfi: bool,
    reservation: Option<u64>,
    mmu: Mmu,
}

impl View for Cpu {
    type V = CpuView;

    closed spec fn view(&self) -> CpuView {
        CpuView {
            xlen: self.xlen,
            x: self.x@,
            f: self.f@,
            pc: self.pc,
            csr: self.csr@,
            privilege: self.privilege,
            wfi: self.wfi,
            reservation: self.reservation,
            mmu: self.mmu@,
        }
    }
}

/// The registers at reset: all zero but `misa`, which names the ISA, and
/// on a 64-bit hart `mstatus`, which names the widths of the lower modes.
pub open spec fn reset_csrs(regs: Seq<u64>, xlen: Xlen) -> bool {
    &&& regs.len() == CSR_COUNT
    &&& forall|i: int|
        0 <= i < CSR_COUNT && i != MISA && i != MSTATUS ==> regs[i] == 0
    &&& regs[MISA as int] == (match xlen {
        Xlen::X32 => MISA_32,
        Xlen::X64 => MISA_64,
    })
    &&& regs[MSTATUS as int] == (match xlen {
        Xlen::X32 => 0,
        Xlen::X64 => MSTATUS_RESET_64,
    })
}

/// The hart at reset: in machine mode at the start of DRAM, all registers
/// zero.
pub open spec fn at_reset(v: CpuView) -> bool {
    &&& v.wf()
    &&& v.pc == DRAM_ADDRESS_START
    &&& v.privilege == PrivilegeMode::Machine
    &&& !v.wfi
    &&& v.reservation is None
    &&& forall|i: int| 0 <= i < 32 ==> v.x[i] == 0 && v.f[i] == 0
    &&& reset_csrs(v.csr, v.xlen)
}

impl Cpu {
    /// A 64-bit hart at reset, in front of a fresh machine.
    pub fn new() -> (cpu: Cpu)
        ensures
            cpu@.xlen == Xlen::X64,
            at_reset(cpu@),
            cpu@.mmu.tlb == fresh_tlb(),
            bus_at_reset(cpu@.mmu.bus),
    {
        let mut cpu = Cpu {
            xlen: Xlen::X64,
            x: [0u64; 32],
            f: [0u64; 32],
            pc: DRAM_ADDRESS_START,
            csr: CsrFile::new(),
            privilege: PrivilegeMode::Machine,
            wfi: false,
            reservation: None,
            mmu: Mmu::new(),
        };
        cpu.csr.set(MISA, MISA_64);
        cpu.csr.set(MSTATUS, MSTATUS_RESET_64);
        cpu.sync_mmu();
        assert(cpu@.mmu.tlb =~= fresh_tlb());
        cpu
    }

    /// Tells the MMU of the hart's mode, `satp` and `mstatus`.
    fn sync_mmu(&mut self)
        ensures
            final(self)@ == old(self)@.synced(),
    {
        let regs = MmuRegs {
            xlen: self.xlen,
            privilege: self.privilege,
            satp: self.csr.get(SATP),
            mstatus: self.csr.get(MSTATUS),
        };
        self.mmu.update_regs(regs);
    }

    /// Puts the hart, but not the machine behind it, into its reset state.
    /// The register width is kept.
    pub fn reset(&mut self)
        requires
            old(self)@.mmu.wf(),
        ensures
            at_reset(final(self)@),
            final(self)@.xlen == old(self)@.xlen,
            final(self)@.mmu.bus == old(self)@.mmu.bus,
            final(self)@.mmu.tlb == old(self)@.mmu.tlb,
    {
        self.x = [0u64; 32];
        self.f = [0u64; 32];
        self.pc = DRAM_ADDRESS_START;
        self.csr = CsrFile::new();
        self.privilege = PrivilegeMode::Machine;
        self.wfi = false;
        self.reservation = None;
        match self.xlen {
            Xlen::X32 => {
                self.csr.set(MISA, MISA_32);
            },
            Xlen::X64 => {
                self.csr.set(MISA, MISA_64);
                self.csr.set(MSTATUS, MSTATUS_RESET_64);
            },
        }
        self.sync_mmu();
    }

    /// Sets the program counter.
    pub fn set_pc(&mut self, addr: u64)
        ensures
            final(self)@ == (CpuView { pc: addr, ..old(self)@ }),
    {
        self.pc = addr;
    }

    /// Sets the register width, and with it `misa`.
    pub fn set_xlen(&mut self, xlen: Xlen)
        requires
            old(self)@.wf(),
        ensures
            final(self)@ == (CpuView {
                xlen,
                csr: old(self)@.csr.update(
                    MISA as int,
                    match xlen {
                        Xlen::X32 => MISA_32,
                        Xlen::X64 => MISA_64,
                    },
                ),
                ..old(self)@
            }).synced(),
            final(self)@.wf(),
    {
        self.xlen = xlen;
        match xlen {
            Xlen::X32 => {
                self.csr.set(MISA, MISA_32);
            },
            Xlen::X64 => {
                self.csr.set(MISA, MISA_64);
            },
        }
        self.sync_mmu();
    }

    /// The MMU, and behind it the bus.
    pub fn get_mmu(&mut self) -> (mmu: &mut Mmu)
        ensures
            mmu@ == old(self)@.mmu,
            final(self)@ == (CpuView { mmu: final(mmu)@, ..old(self)@ }),
    {
        &mut self.mmu
    }

    /// The MMU, to read from.
    pub fn mmu(&self) -> (mmu: &Mmu)
        ensures
            mmu@ == self@.mmu,
    {
        &self.mmu
    }

    /// A control and status register itself, with no check of the mode and
    /// no window applied.
    pub fn read_csr_raw(&self, addr: u16) -> (r: u64)
        requires
            addr < CSR_COUNT,
        ensures
            r == self@.csr[addr as int],
    {
        self.csr.get(addr)
    }

    /// The privilege mode.
    pub fn get_privilege(&self) -> (r: PrivilegeMode)
        ensures
            r == self@.privilege,
    {
        self.privilege
    }

    /// The register width.
    pub fn get_xlen(&self) -> (r: Xlen)
        ensures
            r == self@.xlen,
    {
        self.xlen
    }

    /// The program counter.
    pub fn read_pc(&self) -> (r: u64)
        ensures
            r == self@.pc,
    {
        self.pc
    }

    /// Reads an integer register. Register 0 reads zero.
    pub fn read_register(&self, reg: u8) -> (r: u64)
        requires
            reg < 32,
            self@.wf(),
        ensures
            r == self@.x[reg as int],
            reg == 0 ==> r == 0,
    {
        self.x[reg as usize]
    }

    /// Writes an integer register. Register 0 ignores writes.
    fn write_x(&mut self, rd: u8, value: u64)
        requires
            rd < 32,
        ensures
            final(self)@ == old(self)@.with_x(rd, value),
    {
        if rd != 0 {
            self.x[rd as usize] = match self.xlen {
                Xlen::X32 => sign_extend32(value),
                Xlen::X64 => value,
            };
        }
    }

    fn to_address(&self, v: u64) -> (r: u64)
        ensures
            r == address(v, self@.xlen),
    {
        match self.xlen {
            Xlen::X32 => zero_extend32(v),
            Xlen::X64 => v,
        }
    }

    fn vector(tvec: u64, cause: Cause) -> (r: u64)
        ensures
            r == trap_vector(tvec, cause),
    {
        let base = tvec - tvec % 4;
        match cause {
            Cause::Interrupt(i) => if tvec % 4 == 1 {
                base.wrapping_add(4 * code_of_interrupt(i))
            } else {
                base
            },
            Cause::Exception(_) => base,
        }
    }

    fn value_of_cause(&self, cause: Cause) -> (r: u64)
        ensures
            r == cause_value(cause, self@.xlen),
    {
        match cause {
            Cause::Exception(e) => code_of_exception(e),
            Cause::Interrupt(i) => match self.xlen {
                Xlen::X32 => code_of_interrupt(i) + 0x8000_0000,
                Xlen::X64 => code_of_interrupt(i) + 0x8000_0000_0000_0000,
            },
        }
    }

    fn is_delegated(&self, cause: Cause) -> (r: bool)
        ensures
            r == self@.delegated(cause),
    {
        let (register, code) = match cause {
            Cause::Exception(e) => (self.csr.get(MEDELEG), code_of_exception(e)),
            Cause::Interrupt(i) => (self.csr.get(MIDELEG), code_of_interrupt(i)),
        };
        !matches!(self.privilege, PrivilegeMode::Machine) && read_field(
            register,
            weight_of_bit(code),
            2,
        ) == 1
    }

    #[verifier::rlimit(50)]
    fn enter_supervisor(&mut self, cause: Cause, tval: u64, epc: u64)
        ensures
            final(self)@ == old(self)@.entered_supervisor(cause, tval, epc),
    {
        let status = self.csr.get(MSTATUS);
        let value = self.value_of_cause(cause);
        let saved = set_field(status, STATUS_SPIE, 2, read_field(status, STATUS_SIE, 2));
        let disabled = set_field(saved, STATUS_SIE, 2, 0);
        let new_status = set_field(
            disabled,
            STATUS_SPP,
            2,
            if matches!(self.privilege, PrivilegeMode::User) {
                0
            } else {
                1
            },
        );
        self.pc = self.to_address(Self::vector(self.csr.get(STVEC), cause));
        self.csr.set(SEPC, epc);
        self.csr.set(SCAUSE, value);
        self.csr.set(STVAL, tval);
        self.csr.set(MSTATUS, new_status);
        self.privilege = PrivilegeMode::Supervisor;
        self.wfi = false;
        self.sync_mmu();
    }

    #[verifier::rlimit(50)]
    fn enter_machine(&mut self, cause: Cause, tval: u64, epc: u64)
        ensures
            final(self)@ == old(self)@.entered_machine(cause, tval, epc),
    {
        let status = self.csr.get(MSTATUS);
        let value = self.value_of_cause(cause);
        let saved = set_field(status, STATUS_MPIE, 2, read_field(status, STATUS_MIE, 2));
        let disabled = set_field(saved, STATUS_MIE, 2, 0);
        let new_status = set_field(disabled, STATUS_MPP, 4, level_of(self.privilege));
        self.pc = self.to_address(Self::vector(self.csr.get(MTVEC), cause));
        self.csr.set(MEPC, epc);
        self.csr.set(MCAUSE, value);
        self.csr.set(MTVAL, tval);
        self.csr.set(MSTATUS, new_status);
        self.privilege = PrivilegeMode::Machine;
        self.wfi = false;
        self.sync_mmu();
    }

    /// Takes a trap.
    pub fn take_trap(&mut self, cause: Cause, tval: u64, epc: u64)
        ensures
            final(self)@ == old(self)@.after_trap(cause, tval, epc),
    {
        if self.is_delegated(cause) {
            self.enter_supervisor(cause, tval, epc);
        } else {
            self.enter_machine(cause, tval, epc);
        }
    }

    fn privilege_from(code: u64) -> (r: PrivilegeMode)
        ensures
            r == privilege_of(code as int),
    {
        if code == 0 {
            PrivilegeMode::User
        } else if code == 1 {
            PrivilegeMode::Supervisor
        } else {
            PrivilegeMode::Machine
        }
    }

    /// Returns from a trap that machine mode handled.
    #[verifier::rlimit(50)]
    fn mret(&mut self)
        ensures
            final(self)@ == old(self)@.after_mret(),
    {
        let status = self.csr.get(MSTATUS);
        let previous = Self::privilege_from(read_field(status, STATUS_MPP, 4));
        let restored = set_field(status, STATUS_MIE, 2, read_field(status, STATUS_MPIE, 2));
        let enabled = set_field(restored, STATUS_MPIE, 2, 1);
        let cleared = set_field(enabled, STATUS_MPP, 4, 0);
        let new_status = if !matches!(previous, PrivilegeMode::Machine) {
            set_field(cleared, STATUS_MPRV, 2, 0)
        } else {
            cleared
        };
        self.pc = self.to_address(self.csr.get(MEPC));
        self.csr.set(MSTATUS, new_status);
        self.privilege = previous;
        self.sync_mmu();
    }

    /// Returns from a trap that supervisor mode handled.
    #[verifier::rlimit(50)]
    fn sret(&mut self)
        ensures
            final(self)@ == old(self)@.after_sret(),
    {
        let status = self.csr.get(MSTATUS);
        let previous = Self::privilege_from(read_field(status, STATUS_SPP, 2));
        let restored = set_field(status, STATUS_SIE, 2, read_field(status, STATUS_SPIE, 2));
        let enabled = set_field(restored, STATUS_SPIE, 2, 1);
        let cleared = set_field(enabled, STATUS_SPP, 2, 0);
        let new_status = set_field(cleared, STATUS_MPRV, 2, 0);
        self.pc = self.to_address(self.csr.get(SEPC));
        self.csr.set(MSTATUS, new_status);
        self.privilege = previous;
        self.sync_mmu();
    }
}

fn bytes_of(width: Width) -> (n: u8)
    ensures
        n == width_bytes(width),
        n == 1 || n == 2 || n == 4 || n == 8,
{
    match width {
        Width::B => 1,
        Width::H => 2,
        Width::W => 4,
        Width::D => 8,
    }
}

fn extend(v: u64, width: Width, signed: bool) -> (r: u64)
    requires
        v < crate::memory::pow256(width_bytes(width)),
    ensures
        r == extended(v, width, signed),
{
    proof {
        crate::memory::lemma_pow256_values();
    }
    if !signed {
        v
    } else {
        match width {
            Width::B => extend_sign(v, 0x100),
            Width::H => extend_sign(v, 0x1_0000),
            Width::W => extend_sign(v, 0x1_0000_0000),
            Width::D => v,
        }
    }
}

fn data_to_store(v: u64, width: Width) -> (r: u64)
    ensures
        r == store_data(v, width),
        r < crate::memory::pow256(width_bytes(width)),
{
    proof {
        crate::memory::lemma_pow256_values();
    }
    match width {
        Width::B => v % 0x100,
        Width::H => v % 0x1_0000,
        Width::W => v % 0x1_0000_0000,
        Width::D => v,
    }
}

fn is_taken(kind: BranchKind, a: u64, b: u64) -> (r: bool)
    ensures
        r == branch_taken(kind, a, b),
{
    match kind {
        BranchKind::Eq => a == b,
        BranchKind::Ne => a != b,
        BranchKind::Lt => compute64(AluOp::Slt, a, b) == 1,
        BranchKind::Ge => compute64(AluOp::Slt, a, b) != 1,
        BranchKind::Ltu => a < b,
        BranchKind::Geu => a >= b,
    }
}

fn value_of_amo(op: AmoOp, memory: u64, source: u64) -> (r: u64)
    ensures
        r == amo_value(op, memory, source),
{
    match op {
        AmoOp::Swap => source,
        AmoOp::Add => memory.wrapping_add(source),
        AmoOp::Xor => memory ^ source,
        AmoOp::And => memory & source,
        AmoOp::Or => memory | source,
        AmoOp::Min => if compute64(AluOp::Slt, memory, source) == 1 {
            memory
        } else {
            source
        },
        AmoOp::Max => if compute64(AluOp::Slt, memory, source) == 1 {
            source
        } else {
            memory
        },
        AmoOp::Minu => if memory < source {
            memory
        } else {
            source
        },
        AmoOp::Maxu => if memory < source {
            source
        } else {
            memory
        },
    }
}

fn operand_of_amo(v: u64, width: Width) -> (r: u64)
    ensures
        r == amo_operand(v, width),
{
    if width == Width::W {
        sign_extend32(v)
    } else {
        v
    }
}

fn store_fault_of(t: Trap) -> (r: Trap)
    ensures
        r == as_store_fault(t),
{
    Trap {
        exception: match t.exception {
            Exception::LoadPageFault => Exception::StorePageFault,
            Exception::LoadAccessFault => Exception::StoreAccessFault,
            Exception::LoadAddressMisaligned => Exception::StoreAddressMisaligned,
            e => e,
        },
        value: t.value,
    }
}

fn box_single(v: u64) -> (r: u64)
    ensures
        r == boxed(v),
{
    zero_extend32(v) + 0xffff_ffff_0000_0000
}

fn inject_sign(kind: SignKind, a: u64, b: u64, top: u64) -> (r: u64)
    requires
        top == 0x8000_0000 || top == 0x8000_0000_0000_0000,
        top == 0x8000_0000 ==> a < 0x1_0000_0000,
    ensures
        r == sign_injected(kind, a, b, top),
{
    let sign_a = (a / top) % 2 == 1;
    let sign_b = (b / top) % 2 == 1;
    let sign = match kind {
        SignKind::Copy => sign_b,
        SignKind::Negate => !sign_b,
        SignKind::Xor => sign_a != sign_b,
    };
    if sign {
        a % top + top
    } else {
        a % top
    }
}

impl Cpu {
    fn advance(&mut self, len: u64)
        ensures
            final(self)@ == old(self)@.advanced(len),
    {
        self.pc = self.to_address(self.pc.wrapping_add(len));
    }

    fn jump(&mut self, target: u64)
        ensures
            final(self)@ == old(self)@.jumped(target),
    {
        self.pc = self.to_address(target);
    }

    fn address_of(&self, rs1: u8, imm: u64) -> (r: u64)
        requires
            rs1 < 32,
        ensures
            r == self@.effective_address(rs1, imm),
    {
        self.to_address(self.x[rs1 as usize].wrapping_add(imm))
    }

    fn is_fp_enabled(&self) -> (r: bool)
        ensures
            r == self@.fp_enabled(),
    {
        read_field(self.csr.get(MSTATUS), STATUS_FS, 4) != 0
    }

    fn execute_upper(&mut self, rd: u8, imm: u64, pc_relative: bool, len: u64) -> (r: Result<
        (),
        Trap,
    >)
        requires
            rd < 32,
        ensures
            (Outcome { result: r, state: final(self)@ }) == old(self)@.exec_upper(
                rd,
                imm,
                pc_relative,
                len,
            ),
    {
        reveal(CpuView::exec_upper);
        let value = if pc_relative {
            self.pc.wrapping_add(imm)
        } else {
            imm
        };
        self.write_x(rd, value);
        self.advance(len);
        Ok(())
    }

    fn execute_idle(&mut self, wait: bool, len: u64) -> (r: Result<(), Trap>)
        ensures
            (Outcome { result: r, state: final(self)@ }) == old(self)@.exec_idle(wait, len),
    {
        reveal(CpuView::exec_idle);
        self.wfi = self.wfi || wait;
        self.advance(len);
        Ok(())
    }

    fn is_denied(&self, weight: u64) -> (r: bool)
        requires
            weight > 0,
        ensures
            r == self@.denied(weight),
    {
        matches!(self.privilege, PrivilegeMode::Supervisor) && read_field(
            self.csr.get(MSTATUS),
            weight,
            2,
        ) == 1
    }

    fn execute_wfi(&mut self, len: u64, word: u32) -> (r: Result<(), Trap>)
        ensures
            (Outcome { result: r, state: final(self)@ }) == old(self)@.exec_wfi(len, word),
    {
        reveal(CpuView::exec_wfi);
        if !matches!(self.privilege, PrivilegeMode::Machine) && read_field(
            self.csr.get(MSTATUS),
            STATUS_TW,
            2,
        ) == 1 {
            Err(Trap { exception: Exception::IllegalInstruction, value: word as u64 })
        } else {
            self.execute_idle(true, len)
        }
    }

    fn execute_ebreak(&mut self) -> (r: Result<(), Trap>)
        ensures
            (Outcome { result: r, state: final(self)@ }) == old(self)@.exec_ebreak(),
    {
        reveal(CpuView::exec_ebreak);
        Err(Trap { exception: Exception::Breakpoint, value: self.pc })
    }

    fn execute_jal(&mut self, rd: u8, imm: u64, len: u64) -> (r: Result<(), Trap>)
        requires
            rd < 32,
        ensures
            (Outcome { result: r, state: final(self)@ }) == old(self)@.exec_jal(rd, imm, len),
    {
        reveal(CpuView::exec_jal);
        let pc = self.pc;
        self.write_x(rd, pc.wrapping_add(len));
        self.jump(pc.wrapping_add(imm));
        Ok(())
    }

    fn execute_jalr(&mut self, rd: u8, rs1: u8, imm: u64, len: u64) -> (r: Result<(), Trap>)
        requires
            rd < 32,
            rs1 < 32,
        ensures
            (Outcome { result: r, state: final(self)@ }) == old(self)@.exec_jalr(rd, rs1, imm, len),
    {
        reveal(CpuView::exec_jalr);
        let pc = self.pc;
        let sum = self.x[rs1 as usize].wrapping_add(imm);
        self.write_x(rd, pc.wrapping_add(len));
        self.jump(sum - sum % 2);
        Ok(())
    }

    fn execute_branch(&mut self, kind: BranchKind, rs1: u8, rs2: u8, imm: u64, len: u64) -> (r:
        Result<(), Trap>)
        requires
            rs1 < 32,
            rs2 < 32,
        ensures
            (Outcome { result: r, state: final(self)@ }) == old(self)@.exec_branch(
                kind,
                rs1,
                rs2,
                imm,
                len,
            ),
    {
        reveal(CpuView::exec_branch);
        if is_taken(kind, self.x[rs1 as usize], self.x[rs2 as usize]) {
            self.jump(self.pc.wrapping_add(imm));
        } else {
            self.advance(len);
        }
        Ok(())
    }

    fn execute_load(&mut self, width: Width, signed: bool, rd: u8, rs1: u8, imm: u64, len: u64) -> (r:
        Result<(), Trap>)
        requires
            rd < 32,
            rs1 < 32,
        ensures
            (Outcome { result: r, state: final(self)@ }) == old(self)@.exec_load(
                width,
                signed,
                rd,
                rs1,
                imm,
                len,
            ),
    {
        reveal(CpuView::exec_load);
        let addr = self.address_of(rs1, imm);
        match self.mmu.read(addr, bytes_of(width)) {
            Err(t) => Err(t),
            Ok(v) => {
                self.write_x(rd, extend(v, width, signed));
                self.advance(len);
                Ok(())
            },
        }
    }

    fn execute_store(&mut self, width: Width, rs1: u8, rs2: u8, imm: u64, len: u64) -> (r: Result<
        (),
        Trap,
    >)
        requires
            rs1 < 32,
            rs2 < 32,
        ensures
            (Outcome { result: r, state: final(self)@ }) == old(self)@.exec_store(
                width,
                rs1,
                rs2,
                imm,
                len,
            ),
    {
        reveal(CpuView::exec_store);
        let addr = self.address_of(rs1, imm);
        let data = data_to_store(self.x[rs2 as usize], width);
        self.reservation = None;
        match self.mmu.write(addr, bytes_of(width), data) {
            Err(t) => Err(t),
            Ok(_) => {
                self.advance(len);
                Ok(())
            },
        }
    }

    fn execute_alu(&mut self, op: AluOp, rd: u8, a: u64, b: u64, word: bool, len: u64) -> (r: Result<
        (),
        Trap,
    >)
        requires
            rd < 32,
        ensures
            (Outcome { result: r, state: final(self)@ }) == old(self)@.exec_alu(
                op,
                rd,
                a,
                b,
                word,
                len,
            ),
    {
        reveal(CpuView::exec_alu);
        let narrow = word || self.xlen == Xlen::X32;
        self.write_x(rd, compute(op, a, b, narrow));
        self.advance(len);
        Ok(())
    }

    fn execute_ecall(&mut self) -> (r: Result<(), Trap>)
        ensures
            (Outcome { result: r, state: final(self)@ }) == old(self)@.exec_ecall(),
    {
        reveal(CpuView::exec_ecall);
        Err(
            Trap {
                exception: match self.privilege {
                    PrivilegeMode::User => Exception::EnvironmentCallFromUMode,
                    PrivilegeMode::Supervisor => Exception::EnvironmentCallFromSMode,
                    PrivilegeMode::Machine => Exception::EnvironmentCallFromMMode,
                },
                value: 0,
            },
        )
    }

    fn execute_mret(&mut self, word: u32) -> (r: Result<(), Trap>)
        ensures
            (Outcome { result: r, state: final(self)@ }) == old(self)@.exec_mret(word),
    {
        reveal(CpuView::exec_mret);
        if !matches!(self.privilege, PrivilegeMode::Machine) {
            Err(Trap { exception: Exception::IllegalInstruction, value: word as u64 })
        } else {
            self.mret();
            Ok(())
        }
    }

    fn execute_sret(&mut self, word: u32) -> (r: Result<(), Trap>)
        ensures
            (Outcome { result: r, state: final(self)@ }) == old(self)@.exec_sret(word),
    {
        reveal(CpuView::exec_sret);
        if matches!(self.privilege, PrivilegeMode::User) || self.is_denied(STATUS_TSR) {
            Err(Trap { exception: Exception::IllegalInstruction, value: word as u64 })
        } else {
            self.sret();
            Ok(())
        }
    }

    fn execute_sfence(&mut self, rs1: u8, rs2: u8, len: u64, word: u32) -> (r: Result<(), Trap>)
        requires
            rs1 < 32,
            rs2 < 32,
        ensures
            (Outcome { result: r, state: final(self)@ }) == old(self)@.exec_sfence(
                rs1,
                rs2,
                len,
                word,
            ),
    {
        reveal(CpuView::exec_sfence);
        if matches!(self.privilege, PrivilegeMode::User) || self.is_denied(STATUS_TVM) {
            Err(Trap { exception: Exception::IllegalInstruction, value: word as u64 })
        } else {
            self.mmu.sfence_vma(self.x[rs1 as usize], self.x[rs2 as usize]);
            self.advance(len);
            Ok(())
        }
    }

    #[verifier::rlimit(50)]
    fn execute_csr(
        &mut self,
        op: CsrOp,
        rd: u8,
        source: u8,
        immediate: bool,
        csr: u16,
        len: u64,
        word: u32,
    ) -> (r: Result<(), Trap>)
        requires
            rd < 32,
            source < 32,
            csr < 4096,
        ensures
            (Outcome { result: r, state: final(self)@ }) == old(self)@.exec_csr(
                op,
                rd,
                source,
                immediate,
                csr,
                len,
                word,
            ),
    {
        reveal(CpuView::exec_csr);
        let operand = if immediate {
            source as u64
        } else {
            self.x[source as usize]
        };
        let writes = op == CsrOp::ReadWrite || source != 0;
        if !is_accessible(csr, self.privilege, writes) || (csr == SATP && self.is_denied(
            STATUS_TVM,
        )) {
            return Err(Trap { exception: Exception::IllegalInstruction, value: word as u64 });
        }
        let old = self.csr.read(csr, self.mmu.bus().mtime());
        let new = match op {
            CsrOp::ReadWrite => operand,
            CsrOp::ReadSet => old | operand,
            CsrOp::ReadClear => old & !operand,
        };
        if writes {
            self.csr.write(csr, new, self.xlen);
        }
        self.sync_mmu();
        self.write_x(rd, old);
        self.advance(len);
        Ok(())
    }

    fn execute_load_reserved(&mut self, width: Width, rd: u8, rs1: u8, len: u64) -> (r: Result<
        (),
        Trap,
    >)
        requires
            rd < 32,
            rs1 < 32,
        ensures
            (Outcome { result: r, state: final(self)@ }) == old(self)@.exec_load_reserved(
                width,
                rd,
                rs1,
                len,
            ),
    {
        reveal(CpuView::exec_load_reserved);
        let addr = self.address_of(rs1, 0);
        let n = bytes_of(width);
        if addr % (n as u64) != 0 {
            return Err(Trap { exception: Exception::LoadAddressMisaligned, value: addr });
        }
        match self.mmu.read(addr, n) {
            Err(t) => Err(t),
            Ok(v) => {
                self.reservation = Some(addr);
                self.write_x(rd, extend(v, width, true));
                self.advance(len);
                Ok(())
            },
        }
    }

    fn execute_store_conditional(&mut self, width: Width, rd: u8, rs1: u8, rs2: u8, len: u64) -> (r:
        Result<(), Trap>)
        requires
            rd < 32,
            rs1 < 32,
            rs2 < 32,
        ensures
            (Outcome { result: r, state: final(self)@ }) == old(self)@.exec_store_conditional(
                width,
                rd,
                rs1,
                rs2,
                len,
            ),
    {
        reveal(CpuView::exec_store_conditional);
        let addr = self.address_of(rs1, 0);
        let n = bytes_of(width);
        let data = data_to_store(self.x[rs2 as usize], width);
        if addr % (n as u64) != 0 {
            return Err(Trap { exception: Exception::StoreAddressMisaligned, value: addr });
        }
        let reserved = match self.reservation {
            Some(a) => a == addr,
            None => false,
        };
        self.reservation = None;
        if !reserved {
            self.write_x(rd, 1);
            self.advance(len);
            return Ok(());
        }
        match self.mmu.write(addr, n, data) {
            Err(t) => Err(t),
            Ok(_) => {
                self.write_x(rd, 0);
                self.advance(len);
                Ok(())
            },
        }
    }

    #[verifier::rlimit(50)]
    fn execute_amo(&mut self, op: AmoOp, width: Width, rd: u8, rs1: u8, rs2: u8, len: u64) -> (r:
        Result<(), Trap>)
        requires
            rd < 32,
            rs1 < 32,
            rs2 < 32,
        ensures
            (Outcome { result: r, state: final(self)@ }) == old(self)@.exec_amo(
                op,
                width,
                rd,
                rs1,
                rs2,
                len,
            ),
    {
        reveal(CpuView::exec_amo);
        let addr = self.address_of(rs1, 0);
        let n = bytes_of(width);
        let source = self.x[rs2 as usize];
        if addr % (n as u64) != 0 {
            return Err(Trap { exception: Exception::StoreAddressMisaligned, value: addr });
        }
        let v = match self.mmu.read(addr, n) {
            Err(t) => { return Err(store_fault_of(t)); },
            Ok(v) => v,
        };
        let data = data_to_store(
            value_of_amo(op, operand_of_amo(v, width), operand_of_amo(source, width)),
            width,
        );
        self.reservation = None;
        match self.mmu.write(addr, n, data) {
            Err(t) => Err(t),
            Ok(_) => {
                self.write_x(rd, extend(v, width, true));
                self.advance(len);
                Ok(())
            },
        }
    }

    fn execute_fp_load(&mut self, width: Width, rd: u8, rs1: u8, imm: u64, len: u64, word: u32) -> (r:
        Result<(), Trap>)
        requires
            rd < 32,
            rs1 < 32,
        ensures
            (Outcome { result: r, state: final(self)@ }) == old(self)@.exec_fp_load(
                width,
                rd,
                rs1,
                imm,
                len,
                word,
            ),
    {
        reveal(CpuView::exec_fp_load);
        let addr = self.address_of(rs1, imm);
        if !self.is_fp_enabled() {
            return Err(Trap { exception: Exception::IllegalInstruction, value: word as u64 });
        }
        match self.mmu.read(addr, bytes_of(width)) {
            Err(t) => Err(t),
            Ok(v) => {
                self.f[rd as usize] = if width == Width::W {
                    box_single(v)
                } else {
                    v
                };
                self.advance(len);
                Ok(())
            },
        }
    }

    fn execute_fp_store(&mut self, width: Width, rs1: u8, rs2: u8, imm: u64, len: u64, word: u32) -> (r:
        Result<(), Trap>)
        requires
            rs1 < 32,
            rs2 < 32,
        ensures
            (Outcome { result: r, state: final(self)@ }) == old(self)@.exec_fp_store(
                width,
                rs1,
                rs2,
                imm,
                len,
                word,
            ),
    {
        reveal(CpuView::exec_fp_store);
        let addr = self.address_of(rs1, imm);
        let data = data_to_store(self.f[rs2 as usize], width);
        if !self.is_fp_enabled() {
            return Err(Trap { exception: Exception::IllegalInstruction, value: word as u64 });
        }
        self.reservation = None;
        match self.mmu.write(addr, bytes_of(width), data) {
            Err(t) => Err(t),
            Ok(_) => {
                self.advance(len);
                Ok(())
            },
        }
    }

    fn execute_fp_move(&mut self, instr: Instr, len: u64, word: u32) -> (r: Result<(), Trap>)
        requires
            well_formed(instr),
            instr is FpToInt || instr is IntToFp || instr is FpSign,
        ensures
            (Outcome { result: r, state: final(self)@ }) == old(self)@.exec_fp_move(
                instr,
                len,
                word,
            ),
    {
        reveal(CpuView::exec_fp_move);
        if !self.is_fp_enabled() {
            return Err(Trap { exception: Exception::IllegalInstruction, value: word as u64 });
        }
        match instr {
            Instr::FpToInt { width, rd, rs1 } => {
                let v = self.f[rs1 as usize];
                self.write_x(
                    rd,
                    if width == Width::W {
                        sign_extend32(v)
                    } else {
                        v
                    },
                );
            },
            Instr::IntToFp { width, rd, rs1 } => {
                let v = self.x[rs1 as usize];
                self.f[rd as usize] = if width == Width::W {
                    box_single(v)
                } else {
                    v
                };
            },
            Instr::FpSign { kind, width, rd, rs1, rs2 } => {
                let a = self.f[rs1 as usize];
                let b = self.f[rs2 as usize];
                self.f[rd as usize] = if width == Width::W {
                    box_single(inject_sign(kind, zero_extend32(a), zero_extend32(b), 0x8000_0000))
                } else {
                    inject_sign(kind, a, b, 0x8000_0000_0000_0000)
                };
            },
            _ => {},
        }
        self.advance(len);
        Ok(())
    }

    /// Executes a jump, a branch, a load, a store or an arithmetic
    /// instruction.
    #[verifier::rlimit(50)]
    fn execute_base(&mut self, instr: Instr, len: u64, word: u32) -> (r: Result<(), Trap>)
        requires
            well_formed(instr),
            instr is Lui || instr is Auipc || instr is Jal || instr is Jalr || instr is Branch
                || instr is Load || instr is Store || instr is OpImm || instr is Op,
        ensures
            (Outcome { result: r, state: final(self)@ }) == old(self)@.execute(instr, len, word),
    {
        reveal(CpuView::execute);
        match instr {
            Instr::Lui { rd, imm } => self.execute_upper(rd, imm, false, len),
            Instr::Auipc { rd, imm } => self.execute_upper(rd, imm, true, len),
            Instr::Jal { rd, imm } => self.execute_jal(rd, imm, len),
            Instr::Jalr { rd, rs1, imm } => self.execute_jalr(rd, rs1, imm, len),
            Instr::Branch { kind, rs1, rs2, imm } => self.execute_branch(kind, rs1, rs2, imm, len),
            Instr::Load { width, signed, rd, rs1, imm } => self.execute_load(
                width,
                signed,
                rd,
                rs1,
                imm,
                len,
            ),
            Instr::Store { width, rs1, rs2, imm } => self.execute_store(width, rs1, rs2, imm, len),
            Instr::OpImm { op, rd, rs1, imm, word: narrow } => {
                let a = self.x[rs1 as usize];
                self.execute_alu(op, rd, a, imm, narrow, len)
            },
            Instr::Op { op, rd, rs1, rs2, word: narrow } => {
                let a = self.x[rs1 as usize];
                let b = self.x[rs2 as usize];
                self.execute_alu(op, rd, a, b, narrow, len)
            },
            _ => Ok(()),
        }
    }

    /// Executes a fence, an environment call, a return from a trap, a wait
    /// or a CSR access.
    #[verifier::rlimit(50)]
    fn execute_system(&mut self, instr: Instr, len: u64, word: u32) -> (r: Result<(), Trap>)
        requires
            well_formed(instr),
            instr is Fence || instr is FenceI || instr is Ecall || instr is Ebreak || instr is Sret
                || instr is Mret || instr is Wfi || instr is SfenceVma || instr is Csr,
        ensures
            (Outcome { result: r, state: final(self)@ }) == old(self)@.execute(instr, len, word),
    {
        reveal(CpuView::execute);
        match instr {
            Instr::Fence | Instr::FenceI => self.execute_idle(false, len),
            Instr::Ecall => self.execute_ecall(),
            Instr::Ebreak => self.execute_ebreak(),
            Instr::Sret => self.execute_sret(word),
            Instr::Mret => self.execute_mret(word),
            Instr::Wfi => self.execute_wfi(len, word),
            Instr::SfenceVma { rs1, rs2 } => self.execute_sfence(rs1, rs2, len, word),
            Instr::Csr { op, rd, source, immediate, csr } => self.execute_csr(
                op,
                rd,
                source,
                immediate,
                csr,
                len,
                word,
            ),
            _ => Ok(()),
        }
    }

    /// Executes an atomic or a floating-point instruction.
    #[verifier::rlimit(50)]
    fn execute_extension(&mut self, instr: Instr, len: u64, word: u32) -> (r: Result<(), Trap>)
        requires
            well_formed(instr),
            instr is LoadReserved || instr is StoreConditional || instr is Amo || instr is FpLoad
                || instr is FpStore || instr is FpToInt || instr is IntToFp || instr is FpSign,
        ensures
            (Outcome { result: r, state: final(self)@ }) == old(self)@.execute(instr, len, word),
    {
        reveal(CpuView::execute);
        match instr {
            Instr::LoadReserved { width, rd, rs1 } => self.execute_load_reserved(width, rd, rs1, len),
            Instr::StoreConditional { width, rd, rs1, rs2 } => self.execute_store_conditional(
                width,
                rd,
                rs1,
                rs2,
                len,
            ),
            Instr::Amo { op, width, rd, rs1, rs2 } => self.execute_amo(op, width, rd, rs1, rs2, len),
            Instr::FpLoad { width, rd, rs1, imm } => self.execute_fp_load(
                width,
                rd,
                rs1,
                imm,
                len,
                word,
            ),
            Instr::FpStore { width, rs1, rs2, imm } => self.execute_fp_store(
                width,
                rs1,
                rs2,
                imm,
                len,
                word,
            ),
            Instr::FpToInt { .. } | Instr::IntToFp { .. } | Instr::FpSign { .. } => self.execute_fp_move(
                instr,
                len,
                word,
            ),
            _ => Ok(()),
        }
    }

    /// Executes the instruction `instr`, which is `len` bytes long and was
    /// fetched as `word`. `Err` reports the exception that the instruction
    /// raises; the trap is left to the caller to take.
    pub fn execute(&mut self, instr: Instr, len: u64, word: u32) -> (r: Result<(), Trap>)
        requires
            well_formed(instr),
        ensures
            (Outcome { result: r, state: final(self)@ }) == old(self)@.execute(instr, len, word),
    {
        reveal(CpuView::execute);
        match instr {
            Instr::Lui { .. }
            | Instr::Auipc { .. }
            | Instr::Jal { .. }
            | Instr::Jalr { .. }
            | Instr::Branch { .. }
            | Instr::Load { .. }
            | Instr::Store { .. }
            | Instr::OpImm { .. }
            | Instr::Op { .. } => self.execute_base(instr, len, word),
            Instr::Fence
            | Instr::FenceI
            | Instr::Ecall
            | Instr::Ebreak
            | Instr::Sret
            | Instr::Mret
            | Instr::Wfi
            | Instr::SfenceVma { .. }
            | Instr::Csr { .. } => self.execute_system(instr, len, word),
            _ => self.execute_extension(instr, len, word),
        }
    }
}

impl Cpu {
    /// Samples the timer's lines into `mip`.
    fn sample_timer_lines(&mut self)
        ensures
            final(self)@ == old(self)@.with_timer_lines(),
    {
        let timer = self.mmu.bus().is_pending_timer_interrupt(0);
        let software = self.mmu.bus().is_pending_software_interrupt(0);
        let mtip = set_field(
            self.csr.get(MIP),
            MIP_MTIP,
            2,
            if timer {
                1
            } else {
                0
            },
        );
        let msip = set_field(
            mtip,
            MIP_MSIP,
            2,
            if software {
                1
            } else {
                0
            },
        );
        self.csr.set(MIP, msip);
    }

    /// Latches the external-interrupt lines into `mip`.
    fn latch_external_lines(&mut self, lines: &Vec<bool>)
        requires
            lines@.len() == 2,
        ensures
            final(self)@ == old(self)@.with_external_lines(lines@),
    {
        let meip = set_field(
            self.csr.get(MIP),
            MIP_MEIP,
            2,
            if lines[0] {
                1
            } else {
                0
            },
        );
        let seip = set_field(
            meip,
            MIP_SEIP,
            2,
            if lines[1] {
                1
            } else {
                0
            },
        );
        self.csr.set(MIP, seip);
    }

    fn is_takable(&self, i: Interrupt) -> (r: bool)
        ensures
            r == self@.takable(i),
    {
        let weight = weight_of_bit(code_of_interrupt(i));
        let status = self.csr.get(MSTATUS);
        read_field(self.csr.get(MIP), weight, 2) == 1 && read_field(self.csr.get(MIE), weight, 2)
            == 1 && if read_field(self.csr.get(MIDELEG), weight, 2) == 1 {
            matches!(self.privilege, PrivilegeMode::User) || (matches!(
                self.privilege,
                PrivilegeMode::Supervisor
            ) && read_field(status, STATUS_SIE, 2) == 1)
        } else {
            !matches!(self.privilege, PrivilegeMode::Machine) || read_field(status, STATUS_MIE, 2)
                == 1
        }
    }

    /// The interrupt that the hart takes now, if any.
    pub fn pending_interrupt(&self) -> (r: Option<Interrupt>)
        ensures
            r == self@.pending_interrupt(),
    {
        if self.is_takable(Interrupt::SupervisorSoftware) {
            Some(Interrupt::SupervisorSoftware)
        } else if self.is_takable(Interrupt::MachineSoftware) {
            Some(Interrupt::MachineSoftware)
        } else if self.is_takable(Interrupt::SupervisorTimer) {
            Some(Interrupt::SupervisorTimer)
        } else if self.is_takable(Interrupt::MachineTimer) {
            Some(Interrupt::MachineTimer)
        } else if self.is_takable(Interrupt::SupervisorExternal) {
            Some(Interrupt::SupervisorExternal)
        } else if self.is_takable(Interrupt::MachineExternal) {
            Some(Interrupt::MachineExternal)
        } else {
            None
        }
    }

    fn take_illegal(&mut self, word: u32)
        ensures
            final(self)@ == old(self)@.after_illegal(word),
    {
        let pc = self.pc;
        self.take_trap(Cause::Exception(Exception::IllegalInstruction), word as u64, pc);
    }

    /// Executes the instruction that was fetched as `word`, or takes the
    /// trap that it raises.
    #[verifier::rlimit(50)]
    fn run_word(&mut self, word: u32)
        ensures
            final(self)@ == old(self)@.after_word(word),
    {
        reveal(CpuView::after_word);
        let pc = self.pc;
        let compressed = word % 4 != 3;
        let expanded = if compressed {
            instruction_decompress(self, pc, word)
        } else {
            Ok(word)
        };
        let len: u64 = if compressed {
            2
        } else {
            4
        };
        let e = match expanded {
            Ok(e) => e,
            Err(_) => {
                self.take_illegal(word);
                return ;
            },
        };
        let instr = match decode(e, self.xlen) {
            Some(instr) => instr,
            None => {
                self.take_illegal(word);
                return ;
            },
        };
        proof {
            lemma_decode_well_formed(e, self.xlen);
        }
        match self.execute(instr, len, word) {
            Ok(_) => {
                let retired = self.csr.get(MINSTRET).wrapping_add(1);
                self.csr.set(MINSTRET, retired);
            },
            Err(t) => {
                self.take_trap(Cause::Exception(t.exception), t.value, pc);
            },
        }
    }

    /// Fetches and executes the instruction at the program counter, or
    /// takes the trap that this raises.
    fn run_instruction(&mut self)
        ensures
            final(self)@ == old(self)@.after_instruction(),
    {
        reveal(CpuView::after_instruction);
        let pc = self.pc;
        if pc % 2 != 0 {
            self.take_trap(Cause::Exception(Exception::InstructionAddressMisaligned), pc, pc);
            return ;
        }
        match self.mmu.fetch(pc) {
            Err(t) => {
                self.take_trap(Cause::Exception(t.exception), t.value, pc);
            },
            Ok(word) => {
                self.run_word(word);
            },
        }
    }

    /// The hart's part of a step.
    fn hart_step(&mut self)
        ensures
            final(self)@ == old(self)@.after_hart_step(),
    {
        reveal(CpuView::after_hart_step);
        self.sample_timer_lines();
        if self.wfi && (self.csr.get(MIP) & self.csr.get(MIE)) == 0 {
            return ;
        }
        self.wfi = false;
        match self.pending_interrupt() {
            Some(i) => {
                let pc = self.pc;
                self.take_trap(Cause::Interrupt(i), 0, pc);
            },
            None => {
                self.run_instruction();
            },
        }
    }

    /// Advances the machine by one step: the hart by one instruction or
    /// trap, then the bus and its devices by one tick.
    pub fn tick(&mut self)
        requires
            old(self)@.wf(),
        ensures
            final(self)@ == old(self)@.step(),
            final(self)@.wf(),
    {
        reveal(CpuView::step);
        proof {
            crate::cpu::invariants::lemma_step_wf(old(self)@);
        }
        self.hart_step();
        if self.mmu.bus().dma_pending() {
            self.reservation = None;
        }
        let lines = self.mmu.get_bus().tick();
        let cycles = self.csr.get(MCYCLE).wrapping_add(1);
        self.csr.set(MCYCLE, cycles);
        self.latch_external_lines(&lines);
    }
}

} // verus!
