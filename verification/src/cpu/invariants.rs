//! What every step of the hart preserves.

use vstd::prelude::*;
use crate::cpu::cpu::{width_bytes, Cause, CpuView, MIP_MEIP, MIP_SEIP};
use crate::cpu::csr::{MCYCLE, MIP};
use crate::cpu::encoding::field;
use crate::cpu::decode::{lemma_decode_well_formed, well_formed, AmoOp, Instr, Width};
use crate::mmu::lemma_access_keeps_shape;

verus! {

/// Taking a trap and returning from one preserve well-formedness.
pub proof fn lemma_trap_wf(v: CpuView, cause: Cause, tval: u64, epc: u64)
    requires
        v.wf(),
    ensures
        v.after_trap(cause, tval, epc).wf(),
        v.after_mret().wf(),
        v.after_sret().wf(),
{
}

/// Loads, stores and atomic operations preserve well-formedness.
#[verifier::rlimit(50)]
pub proof fn lemma_memory_wf(v: CpuView, instr: Instr, len: u64, word: u32)
    requires
        v.wf(),
        well_formed(instr),
    ensures
        instr matches Instr::Load { width, signed, rd, rs1, imm } ==> v.exec_load(
            width,
            signed,
            rd,
            rs1,
            imm,
            len,
        ).state.wf(),
        instr matches Instr::Store { width, rs1, rs2, imm } ==> v.exec_store(
            width,
            rs1,
            rs2,
            imm,
            len,
        ).state.wf(),
        instr matches Instr::FpLoad { width, rd, rs1, imm } ==> v.exec_fp_load(
            width,
            rd,
            rs1,
            imm,
            len,
            word,
        ).state.wf(),
        instr matches Instr::FpStore { width, rs1, rs2, imm } ==> v.exec_fp_store(
            width,
            rs1,
            rs2,
            imm,
            len,
            word,
        ).state.wf(),
        instr matches Instr::LoadReserved { width, rd, rs1 } ==> v.exec_load_reserved(
            width,
            rd,
            rs1,
            len,
        ).state.wf(),
        instr matches Instr::StoreConditional { width, rd, rs1, rs2 } ==> v.exec_store_conditional(
            width,
            rd,
            rs1,
            rs2,
            len,
        ).state.wf(),
{
    reveal(CpuView::exec_load);
    reveal(CpuView::exec_store);
    reveal(CpuView::exec_fp_load);
    reveal(CpuView::exec_fp_store);
    reveal(CpuView::exec_load_reserved);
    reveal(CpuView::exec_store_conditional);
    assert forall|va: u64, n: nat, data: u64|
        v.mmu.keeps_shape(#[trigger] v.mmu.after_write(va, n, data)) by {
        lemma_access_keeps_shape(v.mmu, va, n, data);
    }
    assert forall|va: u64, n: nat| v.mmu.keeps_shape(#[trigger] v.mmu.after_read(va, n)) by {
        lemma_access_keeps_shape(v.mmu, va, n, 0);
    }
}

/// Atomic memory operations preserve well-formedness.
#[verifier::rlimit(50)]
pub proof fn lemma_amo_wf(
    v: CpuView,
    op: AmoOp,
    width: Width,
    rd: u8,
    rs1: u8,
    rs2: u8,
    len: u64,
)
    requires
        v.wf(),
        rd < 32,
        rs1 < 32,
        rs2 < 32,
    ensures
        v.exec_amo(op, width, rd, rs1, rs2, len).state.wf(),
{
    reveal(CpuView::exec_amo);
    let addr = v.effective_address(rs1, 0);
    let n = width_bytes(width);
    lemma_access_keeps_shape(v.mmu, addr, n, 0);
    assert forall|data: u64|
        v.mmu.after_read(addr, n).keeps_shape(
            #[trigger] v.mmu.after_read(addr, n).after_write(addr, n, data),
        ) by {
        lemma_access_keeps_shape(v.mmu.after_read(addr, n), addr, n, data);
    }
}

/// The instructions that touch registers only preserve well-formedness.
#[verifier::rlimit(50)]
pub proof fn lemma_register_wf(v: CpuView, instr: Instr, len: u64, word: u32)
    requires
        v.wf(),
        well_formed(instr),
    ensures
        instr matches Instr::Lui { rd, imm } ==> v.exec_upper(rd, imm, false, len).state.wf(),
        instr matches Instr::Auipc { rd, imm } ==> v.exec_upper(rd, imm, true, len).state.wf(),
        instr matches Instr::Jal { rd, imm } ==> v.exec_jal(rd, imm, len).state.wf(),
        instr matches Instr::Jalr { rd, rs1, imm } ==> v.exec_jalr(rd, rs1, imm, len).state.wf(),
        instr matches Instr::Branch { kind, rs1, rs2, imm } ==> v.exec_branch(
            kind,
            rs1,
            rs2,
            imm,
            len,
        ).state.wf(),
        instr matches Instr::OpImm { op, rd, rs1, imm, word: narrow } ==> v.exec_alu(
            op,
            rd,
            v.x[rs1 as int],
            imm,
            narrow,
            len,
        ).state.wf(),
        instr matches Instr::Op { op, rd, rs1, rs2, word: narrow } ==> v.exec_alu(
            op,
            rd,
            v.x[rs1 as int],
            v.x[rs2 as int],
            narrow,
            len,
        ).state.wf(),
        instr is FpToInt || instr is IntToFp || instr is FpSign ==> v.exec_fp_move(
            instr,
            len,
            word,
        ).state.wf(),
{
    reveal(CpuView::exec_upper);
    reveal(CpuView::exec_jal);
    reveal(CpuView::exec_jalr);
    reveal(CpuView::exec_branch);
    reveal(CpuView::exec_alu);
    reveal(CpuView::exec_fp_move);
}

/// The system instructions preserve well-formedness.
#[verifier::rlimit(50)]
pub proof fn lemma_system_wf(v: CpuView, instr: Instr, len: u64, word: u32)
    requires
        v.wf(),
        well_formed(instr),
    ensures
        v.exec_wfi(len, word).state.wf(),
        v.exec_idle(false, len).state.wf(),
        v.exec_ecall().state.wf(),
        v.exec_ebreak().state.wf(),
        v.exec_mret(word).state.wf(),
        v.exec_sret(word).state.wf(),
        instr matches Instr::SfenceVma { rs1, rs2 } ==> v.exec_sfence(rs1, rs2, len, word).state.wf(),
        instr matches Instr::Csr { op, rd, source, immediate, csr } ==> v.exec_csr(
            op,
            rd,
            source,
            immediate,
            csr,
            len,
            word,
        ).state.wf(),
{
    reveal(CpuView::exec_idle);
    reveal(CpuView::exec_wfi);
    reveal(CpuView::exec_ecall);
    reveal(CpuView::exec_ebreak);
    reveal(CpuView::exec_mret);
    reveal(CpuView::exec_sret);
    reveal(CpuView::exec_sfence);
    reveal(CpuView::exec_csr);
    lemma_trap_wf(v, Cause::Exception(crate::cpu::trap::Exception::Breakpoint), 0, 0);
    match instr {
        Instr::SfenceVma { rs1, rs2 } => {
            lemma_access_keeps_shape(v.mmu, v.x[rs1 as int], 1, v.x[rs2 as int]);
        },
        _ => {},
    }
}

/// Executing an instruction preserves well-formedness: in particular `x0`
/// stays zero.
pub proof fn lemma_execute_wf(v: CpuView, instr: Instr, len: u64, word: u32)
    requires
        v.wf(),
        well_formed(instr),
    ensures
        v.execute(instr, len, word).state.wf(),
{
    reveal(CpuView::execute);
    lemma_memory_wf(v, instr, len, word);
    lemma_register_wf(v, instr, len, word);
    lemma_system_wf(v, instr, len, word);
    match instr {
        Instr::Amo { op, width, rd, rs1, rs2 } => {
            lemma_amo_wf(v, op, width, rd, rs1, rs2, len);
        },
        _ => {},
    }
}

/// Executing a fetched word, or taking the trap that it raises, preserves
/// well-formedness.
#[verifier::rlimit(50)]
pub proof fn lemma_word_wf(v: CpuView, word: u32)
    requires
        v.wf(),
    ensures
        v.after_word(word).wf(),
{
    reveal(CpuView::after_word);
    lemma_trap_wf(
        v,
        Cause::Exception(crate::cpu::trap::Exception::IllegalInstruction),
        word as u64,
        v.pc,
    );
    let expanded = if word % 4 != 3 {
        crate::cpu::cpu_instruction_comp::decompressed(v.xlen, (word % 0x1_0000) as int)
    } else {
        Ok(word)
    };
    let len: u64 = if word % 4 != 3 {
        2
    } else {
        4
    };
    match expanded {
        Err(_) => {},
        Ok(e) => {
            lemma_decode_well_formed(e, v.xlen);
            match crate::cpu::decode::decode_spec(e, v.xlen) {
                None => {},
                Some(instr) => {
                    lemma_execute_wf(v, instr, len, word);
                    let o = v.execute(instr, len, word);
                    match o.result {
                        Ok(_) => {},
                        Err(t) => {
                            lemma_trap_wf(o.state, Cause::Exception(t.exception), t.value, v.pc);
                        },
                    }
                },
            }
        },
    }
}

/// Fetching and executing an instruction preserves well-formedness.
pub proof fn lemma_instruction_wf(v: CpuView)
    requires
        v.wf(),
    ensures
        v.after_instruction().wf(),
{
    reveal(CpuView::after_instruction);
    lemma_trap_wf(
        v,
        Cause::Exception(crate::cpu::trap::Exception::InstructionAddressMisaligned),
        v.pc,
        v.pc,
    );
    lemma_access_keeps_shape(v.mmu, v.pc, 1, 0);
    let fetched = CpuView { mmu: v.mmu.after_fetch(v.pc), ..v };
    match v.mmu.fetch_result(v.pc) {
        Err(t) => {
            lemma_trap_wf(fetched, Cause::Exception(t.exception), t.value, v.pc);
        },
        Ok(word) => {
            lemma_word_wf(fetched, word);
        },
    }
}

/// The hart's part of a step preserves well-formedness.
pub proof fn lemma_hart_step_wf(v: CpuView)
    requires
        v.wf(),
    ensures
        v.after_hart_step().wf(),
{
    reveal(CpuView::after_hart_step);
    let sampled = v.with_timer_lines();
    let awake = CpuView { wfi: false, ..sampled };
    assert(sampled.wf());
    assert(awake.wf());
    match awake.pending_interrupt() {
        Some(i) => {
            lemma_trap_wf(awake, Cause::Interrupt(i), 0, awake.pc);
        },
        None => {
            lemma_instruction_wf(awake);
        },
    }
}

/// x0 invariance: a step of the machine preserves well-formedness, so
/// after every step of every program the register `x0` holds zero.
pub proof fn lemma_step_wf(v: CpuView)
    requires
        v.wf(),
    ensures
        v.step().wf(),
        v.step().x[0] == 0,
{
    reveal(CpuView::step);
    lemma_hart_step_wf(v);
}

/// Writing two of the interrupt bits of `mip` sets them to what was
/// written and leaves the external interrupt bits alone unless they are the
/// ones written.
pub proof fn lemma_line_bits(v: u64, a: u64, b: u64)
    by (bit_vector)
    requires
        a < 2,
        b < 2,
    ensures
        ({
            let first = (v - ((v / 0x800) % 2) * 0x800 + a * 0x800) as u64;
            let second = (first - ((first / 0x200) % 2) * 0x200 + b * 0x200) as u64;
            &&& (second / 0x800) % 2 == a
            &&& (second / 0x200) % 2 == b
        }),
        ({
            let first = (v - ((v / 0x80) % 2) * 0x80 + a * 0x80) as u64;
            let second = (first - ((first / 0x8) % 2) * 0x8 + b * 0x8) as u64;
            &&& (second / 0x800) % 2 == (v / 0x800) % 2
            &&& (second / 0x200) % 2 == (v / 0x200) % 2
        }),
{
}

/// Interrupt visibility delay. What a step samples of the external
/// interrupts is what `mip` held when the step began: the lines that the
/// interrupt controller presented after the tick of the step before. What
/// the devices assert during the step reaches `mip` only at its end, after
/// the hart has made its step, and so is sampled by the next step.
#[verifier::rlimit(50)]
pub proof fn lemma_interrupt_visibility(v: CpuView)
    requires
        v.wf(),
    ensures
        field(v.with_timer_lines().csr[MIP as int] as int, MIP_MEIP as int, 2) == field(
            v.csr[MIP as int] as int,
            MIP_MEIP as int,
            2,
        ),
        field(v.with_timer_lines().csr[MIP as int] as int, MIP_SEIP as int, 2) == field(
            v.csr[MIP as int] as int,
            MIP_SEIP as int,
            2,
        ),
        v.step().mmu.bus == v.after_hart_step().mmu.bus.after_tick(),
        field(v.step().csr[MIP as int] as int, MIP_MEIP as int, 2) == 1 <==> v.step().mmu.bus.intc.line(
            0,
        ),
        field(v.step().csr[MIP as int] as int, MIP_SEIP as int, 2) == 1 <==> v.step().mmu.bus.intc.line(
            1,
        ),
{
    reveal(CpuView::step);
    lemma_hart_step_wf(v);
    let timer = v.mmu.bus.timer;
    lemma_line_bits(
        v.csr[MIP as int],
        if timer.timer_interrupt(0) {
            1
        } else {
            0
        },
        if timer.software_interrupt(0) {
            1
        } else {
            0
        },
    );
    let h = v.after_hart_step();
    let lines = h.mmu.bus.after_tick().intc.lines();
    lemma_line_bits(
        h.csr.update(MCYCLE as int, h.csr[MCYCLE as int].wrapping_add(1))[MIP as int],
        if lines[0] {
            1
        } else {
            0
        },
        if lines[1] {
            1
        } else {
            0
        },
    );
}

} // verus!
