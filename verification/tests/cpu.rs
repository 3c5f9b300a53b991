use riscv_emu::cpu::alu::{compute, AluOp};
use riscv_emu::cpu::cpu::{Cause, Cpu, PrivilegeMode, Xlen};
use riscv_emu::cpu::decode::{decode, mnemonic, BranchKind, CsrOp, Instr, SignKind, Width};
use riscv_emu::cpu::trap::{Exception, Interrupt};

const BASE: u64 = 0x8000_0000;

const MSTATUS: u16 = 0x300;
const MEDELEG: u16 = 0x302;
const MIDELEG: u16 = 0x303;
const MEPC: u16 = 0x341;
const MCAUSE: u16 = 0x342;
const MTVAL: u16 = 0x343;
const MIP: u16 = 0x344;
const SEPC: u16 = 0x141;
const SCAUSE: u16 = 0x142;
const STVAL: u16 = 0x143;

/// A hart at reset with `program` at the start of DRAM.
fn cpu_with(program: &[u32]) -> Cpu {
    let mut cpu = Cpu::new();
    for (i, word) in program.iter().enumerate() {
        cpu.get_mmu().write32(BASE + 4 * i as u64, *word).unwrap();
    }
    cpu
}

fn run(cpu: &mut Cpu, steps: usize) {
    for _ in 0..steps {
        cpu.tick();
    }
}

#[test]
fn reset_state() {
    let cpu = Cpu::new();
    assert_eq!(cpu.read_pc(), BASE);
    assert_eq!(cpu.get_xlen(), Xlen::X64);
    assert_eq!(cpu.get_privilege(), PrivilegeMode::Machine);
    for r in 0..32 {
        assert_eq!(cpu.read_register(r), 0);
    }
    assert_eq!(cpu.read_csr_raw(0x301), 0x8000_0000_0014_112d);
}

#[test]
fn x0_reads_zero_after_every_step() {
    let mut cpu = cpu_with(&[
        0x0050_0013, // addi x0, x0, 5
        0xfff0_0013, // addi x0, x0, -1
        0x0000_1037, // lui x0, 1
        0x0000_006f, // jal x0, 0
    ]);
    for _ in 0..6 {
        cpu.tick();
        assert_eq!(cpu.read_register(0), 0);
    }
}

#[test]
fn addi_and_add() {
    let mut cpu = cpu_with(&[
        0x0050_0093, // addi x1, x0, 5
        0x0070_8113, // addi x2, x1, 7
        0x0020_81b3, // add x3, x1, x2
        0xfff0_0213, // addi x4, x0, -1
    ]);
    run(&mut cpu, 4);
    assert_eq!(cpu.read_register(1), 5);
    assert_eq!(cpu.read_register(2), 12);
    assert_eq!(cpu.read_register(3), 17);
    assert_eq!(cpu.read_register(4), 0xffff_ffff_ffff_ffff);
    assert_eq!(cpu.read_pc(), BASE + 16);
}

#[test]
fn compressed_and_expanded_are_equivalent() {
    // c.li a0, 1 and addi a0, x0, 1
    let mut short = Cpu::new();
    short.get_mmu().write16(BASE, 0x4505).unwrap();
    short.tick();
    let mut long = cpu_with(&[0x0010_0513]);
    long.tick();
    assert_eq!(short.read_register(10), 1);
    for r in 0..32 {
        assert_eq!(short.read_register(r), long.read_register(r));
    }
    assert_eq!(short.read_pc(), BASE + 2);
    assert_eq!(long.read_pc(), BASE + 4);
}

#[test]
fn compressed_jump_links_to_the_next_parcel() {
    // c.jalr a0 with a0 = BASE + 0x100
    let mut cpu = Cpu::new();
    cpu.get_mmu().write32(BASE, 0x1000_0517).unwrap(); // auipc a0, 0x10000
    cpu.get_mmu().write32(BASE + 4, 0xf005_0513).unwrap(); // addi a0, a0, -256
    cpu.get_mmu().write16(BASE + 8, 0x9502).unwrap(); // c.jalr a0
    run(&mut cpu, 3);
    assert_eq!(cpu.read_pc(), BASE + 0x1000_0000 - 256);
    assert_eq!(cpu.read_register(1), BASE + 10);
}

#[test]
fn word_operations_sign_extend() {
    assert_eq!(compute(AluOp::Add, 0x7fff_ffff, 1, true), 0xffff_ffff_8000_0000);
    assert_eq!(compute(AluOp::Add, 0x7fff_ffff, 1, false), 0x8000_0000);
    assert_eq!(compute(AluOp::Sub, 0, 1, true), 0xffff_ffff_ffff_ffff);
    assert_eq!(compute(AluOp::Sll, 1, 31, true), 0xffff_ffff_8000_0000);
    assert_eq!(compute(AluOp::Srl, 0xffff_ffff_8000_0000, 31, true), 1);
    assert_eq!(compute(AluOp::Sra, 0x8000_0000, 4, true), 0xffff_ffff_f800_0000);
    assert_eq!(compute(AluOp::Mul, 0x1_0000, 0x1_0000, true), 0);
}

#[test]
fn shift_amounts_are_masked() {
    // six bits at full width
    assert_eq!(compute(AluOp::Sll, 1, 64, false), 1);
    assert_eq!(compute(AluOp::Sll, 1, 65, false), 2);
    assert_eq!(compute(AluOp::Srl, 0x8000_0000_0000_0000, 63 + 64, false), 1);
    assert_eq!(compute(AluOp::Sra, 0x8000_0000_0000_0000, 63, false), 0xffff_ffff_ffff_ffff);
    // five bits on words
    assert_eq!(compute(AluOp::Sll, 1, 32, true), 1);
    assert_eq!(compute(AluOp::Sll, 1, 33, true), 2);
    assert_eq!(compute(AluOp::Srl, 0x8000_0000, 31 + 32, true), 1);
}

#[test]
fn comparisons() {
    let minus_one = 0xffff_ffff_ffff_ffffu64;
    assert_eq!(compute(AluOp::Slt, minus_one, 0, false), 1);
    assert_eq!(compute(AluOp::Slt, 0, minus_one, false), 0);
    assert_eq!(compute(AluOp::Sltu, minus_one, 0, false), 0);
    assert_eq!(compute(AluOp::Sltu, 0, minus_one, false), 1);
    assert_eq!(compute(AluOp::Slt, 3, 3, false), 0);
}

#[test]
fn logic() {
    assert_eq!(compute(AluOp::Xor, 0b1100, 0b1010, false), 0b0110);
    assert_eq!(compute(AluOp::Or, 0b1100, 0b1010, false), 0b1110);
    assert_eq!(compute(AluOp::And, 0b1100, 0b1010, false), 0b1000);
}

#[test]
fn multiplication() {
    let minus_one = 0xffff_ffff_ffff_ffffu64;
    let minus_two = 0xffff_ffff_ffff_fffeu64;
    assert_eq!(compute(AluOp::Mul, 7, 6, false), 42);
    assert_eq!(compute(AluOp::Mul, minus_one, 2, false), minus_two);
    assert_eq!(compute(AluOp::Mulh, minus_one, 2, false), minus_one);
    assert_eq!(compute(AluOp::Mulh, minus_one, minus_one, false), 0);
    assert_eq!(compute(AluOp::Mulhu, minus_one, 2, false), 1);
    assert_eq!(compute(AluOp::Mulhu, minus_one, minus_one, false), minus_two);
    assert_eq!(compute(AluOp::Mulhsu, minus_one, 2, false), minus_one);
    assert_eq!(compute(AluOp::Mulhsu, 2, minus_one, false), 1);
    // on a 32-bit hart the upper half of the 64-bit product
    assert_eq!(compute(AluOp::Mulh, 0xffff_ffff_ffff_ffff, 2, true), minus_one);
    assert_eq!(compute(AluOp::Mulhu, 0xffff_ffff, 2, true), 1);
    assert_eq!(compute(AluOp::Mulhu, 0x8000_0000, 0x8000_0000, true), 0x4000_0000);
}

#[test]
fn division() {
    let minus = |v: u64| 0u64.wrapping_sub(v);
    assert_eq!(compute(AluOp::Div, 7, 2, false), 3);
    assert_eq!(compute(AluOp::Div, minus(7), 2, false), minus(3));
    assert_eq!(compute(AluOp::Div, 7, minus(2), false), minus(3));
    assert_eq!(compute(AluOp::Div, minus(7), minus(2), false), 3);
    assert_eq!(compute(AluOp::Rem, 7, 2, false), 1);
    assert_eq!(compute(AluOp::Rem, minus(7), 2, false), minus(1));
    assert_eq!(compute(AluOp::Rem, 7, minus(2), false), 1);
    assert_eq!(compute(AluOp::Rem, minus(7), minus(2), false), minus(1));
    assert_eq!(compute(AluOp::Divu, minus(7), 2, false), 0x7fff_ffff_ffff_fffc);
    assert_eq!(compute(AluOp::Remu, minus(7), 2, false), 1);
    // division by zero
    assert_eq!(compute(AluOp::Div, 7, 0, false), u64::MAX);
    assert_eq!(compute(AluOp::Divu, 7, 0, false), u64::MAX);
    assert_eq!(compute(AluOp::Rem, 7, 0, false), 7);
    assert_eq!(compute(AluOp::Remu, 7, 0, false), 7);
    // overflow
    let min = 0x8000_0000_0000_0000u64;
    assert_eq!(compute(AluOp::Div, min, u64::MAX, false), min);
    assert_eq!(compute(AluOp::Rem, min, u64::MAX, false), 0);
    // on words
    assert_eq!(compute(AluOp::Div, 0x8000_0000, 0xffff_ffff, true), 0xffff_ffff_8000_0000);
    assert_eq!(compute(AluOp::Rem, 0x8000_0000, 0xffff_ffff, true), 0);
    assert_eq!(compute(AluOp::Divu, 0xffff_fff9, 2, true), 0x7fff_fffc);
    assert_eq!(compute(AluOp::Div, 0xffff_fff9, 2, true), minus(3));
    assert_eq!(compute(AluOp::Divu, 7, 0, true), u64::MAX);
    assert_eq!(compute(AluOp::Remu, 0xffff_fff9, 0, true), 0xffff_ffff_ffff_fff9);
}

#[test]
fn decoder_reads_the_base_formats() {
    let x = Xlen::X64;
    assert_eq!(
        decode(0x0050_0093, x),
        Some(Instr::OpImm { op: AluOp::Add, rd: 1, rs1: 0, imm: 5, word: false })
    );
    assert_eq!(
        decode(0xfff5_0513, x),
        Some(Instr::OpImm { op: AluOp::Add, rd: 10, rs1: 10, imm: u64::MAX, word: false })
    );
    assert_eq!(
        decode(0x40b5_0533, x),
        Some(Instr::Op { op: AluOp::Sub, rd: 10, rs1: 10, rs2: 11, word: false })
    );
    assert_eq!(decode(0x0000_1537, x), Some(Instr::Lui { rd: 10, imm: 0x1000 }));
    assert_eq!(
        decode(0x8000_0537, x),
        Some(Instr::Lui { rd: 10, imm: 0xffff_ffff_8000_0000 })
    );
    assert_eq!(decode(0xffff_f06f, x), Some(Instr::Jal { rd: 0, imm: 0xffff_ffff_ffff_fffe }));
    assert_eq!(decode(0x6200_00ef, x), Some(Instr::Jal { rd: 1, imm: 0x620 }));
    assert_eq!(
        decode(0xfe05_1fe3, x),
        Some(Instr::Branch { kind: BranchKind::Ne, rs1: 10, rs2: 0, imm: 0xffff_ffff_ffff_fffe })
    );
    assert_eq!(
        decode(0x00a5_a223, x),
        Some(Instr::Store { width: Width::W, rs1: 11, rs2: 10, imm: 4 })
    );
    assert_eq!(
        decode(0x0085_b503, x),
        Some(Instr::Load { width: Width::D, signed: true, rd: 10, rs1: 11, imm: 8 })
    );
    assert_eq!(
        decode(0x3042_9073, x),
        Some(Instr::Csr { op: CsrOp::ReadWrite, rd: 0, source: 5, immediate: false, csr: 0x304 })
    );
    assert_eq!(decode(0x0000_0073, x), Some(Instr::Ecall));
    assert_eq!(decode(0x0010_0073, x), Some(Instr::Ebreak));
    assert_eq!(decode(0x3020_0073, x), Some(Instr::Mret));
    assert_eq!(decode(0x1020_0073, x), Some(Instr::Sret));
    assert_eq!(decode(0x1050_0073, x), Some(Instr::Wfi));
    assert_eq!(decode(0x1200_0073, x), Some(Instr::SfenceVma { rs1: 0, rs2: 0 }));
    assert_eq!(decode(0x0000_000f, x), Some(Instr::Fence));
}

#[test]
fn decoder_rejects_what_the_hart_lacks() {
    assert_eq!(decode(0xffff_ffff, Xlen::X64), None);
    assert_eq!(decode(0x0000_0000, Xlen::X64), None);
    // ld, addiw and a shift by 32 need 64-bit registers
    assert_eq!(decode(0x0085_b503, Xlen::X32), None);
    assert_eq!(decode(0x0015_051b, Xlen::X32), None);
    assert_eq!(decode(0x0205_1513, Xlen::X32), None);
    assert!(decode(0x0205_1513, Xlen::X64).is_some());
}

#[test]
fn loads_extend_by_opcode() {
    let mut cpu = cpu_with(&[
        0x0000_0097, // auipc x1, 0
        0x1000_8083, // lb x1, 0x100(x1)
        0x0000_0117, // auipc x2, 0
        0x0f81_4103, // lbu x2, 0xf8(x2)
        0x0000_0197, // auipc x3, 0
        0x0f01_a183, // lw x3, 0xf0(x3)
        0x0000_0217, // auipc x4, 0
        0x0e82_6203, // lwu x4, 0xe8(x4)
        0x0000_0297, // auipc x5, 0
        0x0e02_9283, // lh x5, 0xe0(x5)
        0x0000_0317, // auipc x6, 0
        0x0d83_5303, // lhu x6, 0xd8(x6)
        0x0000_0397, // auipc x7, 0
        0x0d03_b383, // ld x7, 0xd0(x7)
    ]);
    cpu.get_mmu().write64(BASE + 0x100, 0x8899_aabb_ccdd_eeff).unwrap();
    run(&mut cpu, 14);
    assert_eq!(cpu.read_register(1), 0xffff_ffff_ffff_ffff);
    assert_eq!(cpu.read_register(2), 0xff);
    assert_eq!(cpu.read_register(3), 0xffff_ffff_ccdd_eeff);
    assert_eq!(cpu.read_register(4), 0xccdd_eeff);
    assert_eq!(cpu.read_register(5), 0xffff_ffff_ffff_eeff);
    assert_eq!(cpu.read_register(6), 0xeeff);
    assert_eq!(cpu.read_register(7), 0x8899_aabb_ccdd_eeff);
}

#[test]
fn stores_write_the_low_bytes() {
    let mut cpu = cpu_with(&[
        0x0000_0097, // auipc x1, 0
        0xfff0_0113, // addi x2, x0, -1
        0x1020_8023, // sb x2, 0x100(x1)
        0x1020_9423, // sh x2, 0x108(x1)
        0x1020_a823, // sw x2, 0x110(x1)
        0x1020_bc23, // sd x2, 0x118(x1)
    ]);
    run(&mut cpu, 6);
    let mmu = cpu.get_mmu();
    assert_eq!(mmu.read64(BASE + 0x100), Ok(0xff));
    assert_eq!(mmu.read64(BASE + 0x108), Ok(0xffff));
    assert_eq!(mmu.read64(BASE + 0x110), Ok(0xffff_ffff));
    assert_eq!(mmu.read64(BASE + 0x118), Ok(0xffff_ffff_ffff_ffff));
}

#[test]
fn branches() {
    let mut cpu = cpu_with(&[
        0x0010_0093, // addi x1, x0, 1
        0x0000_8463, // beq x1, x0, 8      not taken
        0x0000_9463, // bne x1, x0, 8      taken
        0x0630_0113, // addi x2, x0, 99    skipped
        0x0020_0193, // addi x3, x0, 2
    ]);
    run(&mut cpu, 4);
    assert_eq!(cpu.read_register(2), 0);
    assert_eq!(cpu.read_register(3), 2);
    assert_eq!(cpu.read_pc(), BASE + 20);
}

#[test]
fn jal_and_jalr_link() {
    let mut cpu = cpu_with(&[
        0x0080_00ef, // jal x1, 8
        0x0000_0013, // nop
        0x0010_8167, // jalr x2, 1(x1)   target = (x1 + 1) & !1 = BASE + 4
    ]);
    run(&mut cpu, 2);
    assert_eq!(cpu.read_register(1), BASE + 4);
    assert_eq!(cpu.read_register(2), BASE + 12);
    assert_eq!(cpu.read_pc(), BASE + 4);
}

#[test]
fn illegal_instruction_traps_to_machine_mode() {
    let mut cpu = cpu_with(&[0xffff_ffff]);
    cpu.tick();
    assert_eq!(cpu.read_csr_raw(MCAUSE), 2);
    assert_eq!(cpu.read_csr_raw(MEPC), BASE);
    assert_eq!(cpu.read_csr_raw(MTVAL), 0xffff_ffff);
    assert_eq!(cpu.read_pc(), 0);
    assert_eq!(cpu.get_privilege(), PrivilegeMode::Machine);
    // MPP = machine, MPIE = old MIE = 0, MIE = 0
    assert_eq!(cpu.read_csr_raw(MSTATUS) & 0x1888, 0x1800);
}

#[test]
fn illegal_compressed_instruction_records_the_parcel() {
    let mut cpu = Cpu::new();
    cpu.get_mmu().write32(BASE, 0xffff_0000).unwrap();
    cpu.tick();
    assert_eq!(cpu.read_csr_raw(MCAUSE), 2);
    assert_eq!(cpu.read_csr_raw(MTVAL), 0);
    assert_eq!(cpu.read_csr_raw(MEPC), BASE);
}

#[test]
fn ecall_and_mret() {
    let mut cpu = cpu_with(&[
        0x0000_0297, // auipc x5, 0
        0x0202_8293, // addi x5, x5, 32
        0x3052_9073, // csrw mtvec, x5
        0x0000_0073, // ecall
        0x0000_0013, // nop
        0x0000_0013,
        0x0000_0013,
        0x0000_0013,
        // handler at BASE + 32
        0x3410_2373, // csrr x6, mepc
        0x0043_0313, // addi x6, x6, 4
        0x3413_1073, // csrw mepc, x6
        0x3020_0073, // mret
    ]);
    run(&mut cpu, 4);
    assert_eq!(cpu.read_pc(), BASE + 32);
    assert_eq!(cpu.read_csr_raw(MCAUSE), 11);
    assert_eq!(cpu.read_csr_raw(MEPC), BASE + 12);
    assert_eq!(cpu.read_csr_raw(MTVAL), 0);
    run(&mut cpu, 4);
    assert_eq!(cpu.read_pc(), BASE + 16);
    assert_eq!(cpu.get_privilege(), PrivilegeMode::Machine);
    // MPIE is set, MPP is user
    assert_eq!(cpu.read_csr_raw(MSTATUS) & 0x1888, 0x0080);
}

#[test]
fn ebreak_records_its_address() {
    let mut cpu = cpu_with(&[0x0000_0013, 0x0010_0073]);
    run(&mut cpu, 2);
    assert_eq!(cpu.read_csr_raw(MCAUSE), 3);
    assert_eq!(cpu.read_csr_raw(MTVAL), BASE + 4);
    assert_eq!(cpu.read_csr_raw(MEPC), BASE + 4);
}

#[test]
fn load_fault_records_the_address() {
    let mut cpu = cpu_with(&[
        0x0000_2083, // lw x1, 0(x0)
    ]);
    cpu.tick();
    assert_eq!(cpu.read_csr_raw(MCAUSE), 5);
    assert_eq!(cpu.read_csr_raw(MTVAL), 0);
    assert_eq!(cpu.read_csr_raw(MEPC), BASE);
    let mut cpu = cpu_with(&[
        0x0010_0093, // addi x1, x0, 1
        0x0010_a023, // sw x1, 0(x1)
    ]);
    run(&mut cpu, 2);
    assert_eq!(cpu.read_csr_raw(MCAUSE), 7);
    assert_eq!(cpu.read_csr_raw(MTVAL), 1);
}

#[test]
fn misaligned_fetch_address_traps() {
    let mut cpu = Cpu::new();
    cpu.set_pc(BASE + 1);
    cpu.tick();
    assert_eq!(cpu.read_csr_raw(MCAUSE), 0);
    assert_eq!(cpu.read_csr_raw(MTVAL), BASE + 1);
}

#[test]
fn delegated_exception_goes_to_supervisor_mode() {
    let mut cpu = cpu_with(&[
        0x1000_0293, // addi x5, x0, 0x100
        0x3022_9073, // csrw medeleg, x5      delegate environment calls from user mode
        0x0000_0297, // auipc x5, 0
        0x0382_8293, // addi x5, x5, 56       BASE + 8 + 56 = BASE + 64
        0x1052_9073, // csrw stvec, x5
        0x0000_0297, // auipc x5, 0
        0x0102_8293, // addi x5, x5, 16       BASE + 20 + 16 = BASE + 36
        0x3412_9073, // csrw mepc, x5
        0x3020_0073, // mret                  to user mode at BASE + 36
        0x0000_0013, // nop
        0x0000_0013, // nop
        0x0000_0013, // nop
        0x0000_0073, // ecall                 at BASE + 48
    ]);
    run(&mut cpu, 9);
    assert_eq!(cpu.get_privilege(), PrivilegeMode::User);
    assert_eq!(cpu.read_pc(), BASE + 36);
    run(&mut cpu, 4);
    assert_eq!(cpu.get_privilege(), PrivilegeMode::Supervisor);
    assert_eq!(cpu.read_csr_raw(SCAUSE), 8);
    assert_eq!(cpu.read_csr_raw(SEPC), BASE + 48);
    assert_eq!(cpu.read_csr_raw(STVAL), 0);
    assert_eq!(cpu.read_pc(), BASE + 64);
    assert_eq!(cpu.read_csr_raw(MEDELEG), 0x100);
    assert_eq!(cpu.read_csr_raw(MCAUSE), 0);
    // SPP = user
    assert_eq!(cpu.read_csr_raw(MSTATUS) & 0x100, 0);
}

#[test]
fn csr_access_is_checked() {
    // in user mode a machine register is out of reach
    let mut cpu = cpu_with(&[
        0x0000_0297, // auipc x5, 0
        0x0102_8293, // addi x5, x5, 16
        0x3412_9073, // csrw mepc, x5
        0x3020_0073, // mret                  to user mode at BASE + 16
        0x3000_2373, // csrr x6, mstatus
    ]);
    run(&mut cpu, 5);
    assert_eq!(cpu.read_csr_raw(MCAUSE), 2);
    assert_eq!(cpu.read_csr_raw(MTVAL), 0x3000_2373);
    assert_eq!(cpu.read_csr_raw(MEPC), BASE + 16);
    // a read-only register cannot be written
    let mut cpu = cpu_with(&[
        0xf140_9073, // csrw mhartid, x1
    ]);
    cpu.tick();
    assert_eq!(cpu.read_csr_raw(MCAUSE), 2);
    // but it can be read, and set with x0
    let mut cpu = cpu_with(&[
        0xf140_2373, // csrrs x6, mhartid, x0
    ]);
    cpu.tick();
    assert_eq!(cpu.read_pc(), BASE + 4);
}

#[test]
fn csr_set_and_clear() {
    let mut cpu = cpu_with(&[
        0x0ff0_0293, // addi x5, x0, 0xff
        0x3402_9373, // csrrw x6, mscratch, x5
        0x3407_e3f3, // csrrsi x7, mscratch, 15     no change, reads 0xff
        0x3407_f473, // csrrci x8, mscratch, 15     clears the low four bits
        0x3400_24f3, // csrrs x9, mscratch, x0
    ]);
    run(&mut cpu, 5);
    assert_eq!(cpu.read_register(6), 0);
    assert_eq!(cpu.read_register(7), 0xff);
    assert_eq!(cpu.read_register(8), 0xff);
    assert_eq!(cpu.read_register(9), 0xf0);
    assert_eq!(cpu.read_csr_raw(0x340), 0xf0);
}

#[test]
fn supervisor_status_is_a_window_on_machine_status() {
    let mut cpu = cpu_with(&[
        0xfff0_0293, // addi x5, x0, -1
        0x1002_9073, // csrw sstatus, x5
        0x1000_2373, // csrr x6, sstatus
    ]);
    run(&mut cpu, 3);
    assert_eq!(cpu.read_register(6), 0x8000_0003_000d_e162);
    assert_eq!(cpu.read_csr_raw(MSTATUS), 0x8000_000b_000d_e162);
}

#[test]
fn timer_interrupt_is_taken_one_step_after_it_is_raised() {
    let mut cpu = cpu_with(&[
        0x0800_0293, // addi x5, x0, 0x80
        0x3042_9073, // csrw mie, x5
        0x3004_6073, // csrrsi x0, mstatus, 8
        0x0000_0013, // nop
        0x0000_0013, // nop
    ]);
    cpu.get_mmu().get_bus().write64(0x0200_4000, 3).unwrap();
    // the timer reaches 3 in the tick of the third step
    run(&mut cpu, 3);
    assert_eq!(cpu.read_pc(), BASE + 12);
    assert_eq!(cpu.mmu().bus().mtime(), 3);
    assert_eq!(cpu.read_csr_raw(MCAUSE), 0);
    // the fourth step samples it
    cpu.tick();
    assert_eq!(cpu.read_csr_raw(MCAUSE), 0x8000_0000_0000_0007);
    assert_eq!(cpu.read_csr_raw(MEPC), BASE + 12);
    assert_eq!(cpu.read_pc(), 0);
    assert_eq!(cpu.read_csr_raw(MIP) & 0x80, 0x80);
}

#[test]
fn external_interrupt_is_taken_one_step_after_it_is_raised() {
    let mut cpu = cpu_with(&[
        0x0000_12b7, // lui x5, 1
        0x8002_8293, // addi x5, x5, -2048    x5 = 0x800
        0x3042_9073, // csrw mie, x5
        0x3004_6073, // csrrsi x0, mstatus, 8
        0x0000_0013, // nop
        0x0000_0013, // nop
        0x0000_0013, // nop
    ]);
    {
        let bus = cpu.get_mmu().get_bus();
        bus.write64(0x0200_4000, u64::MAX).unwrap();
        bus.write32(0x0c00_0000 + 4 * 10, 1).unwrap();
        bus.write32(0x0c00_2000, 1 << 10).unwrap();
        bus.write8(0x1000_0001, 1).unwrap();
    }
    run(&mut cpu, 4);
    assert_eq!(cpu.read_csr_raw(MIP) & 0x800, 0);
    // the byte arrives: the tick of the fifth step raises the line
    cpu.get_mmu().get_bus().push_input(b'!');
    cpu.tick();
    assert_eq!(cpu.read_pc(), BASE + 20);
    assert_eq!(cpu.read_csr_raw(MIP) & 0x800, 0x800);
    assert_eq!(cpu.read_csr_raw(MCAUSE), 0);
    // the sixth step takes the interrupt
    cpu.tick();
    assert_eq!(cpu.read_csr_raw(MCAUSE), 0x8000_0000_0000_000b);
    assert_eq!(cpu.read_csr_raw(MEPC), BASE + 20);
}

#[test]
fn lowest_numbered_interrupt_is_taken_first() {
    // the machine software interrupt (3) and the machine timer interrupt (7)
    // are both pending and enabled
    let mut cpu = cpu_with(&[
        0x0880_0293, // addi x5, x0, 0x88
        0x3042_9073, // csrw mie, x5
        0x3004_6073, // csrrsi x0, mstatus, 8
        0x0000_0013, // nop
    ]);
    cpu.get_mmu().get_bus().write32(0x0200_0000, 1).unwrap();
    run(&mut cpu, 3);
    assert_eq!(cpu.read_csr_raw(MIP) & 0x88, 0x88);
    assert_eq!(cpu.pending_interrupt(), Some(Interrupt::MachineSoftware));
    cpu.tick();
    assert_eq!(cpu.read_csr_raw(MCAUSE), 0x8000_0000_0000_0003);
    assert_eq!(cpu.read_csr_raw(MEPC), BASE + 12);
}

#[test]
fn delegated_interrupt_waits_for_a_lower_mode() {
    let mut cpu = cpu_with(&[
        0x0020_0293, // addi x5, x0, 2
        0x3032_9073, // csrw mideleg, x5
        0x3042_9073, // csrw mie, x5
        0x3442_9073, // csrw mip, x5           supervisor software interrupt pending
        0x3004_6073, // csrrsi x0, mstatus, 8
        0x0000_0013, // nop
    ]);
    cpu.get_mmu().get_bus().write64(0x0200_4000, u64::MAX).unwrap();
    run(&mut cpu, 6);
    // machine mode is never interrupted by a delegated interrupt
    assert_eq!(cpu.read_pc(), BASE + 24);
    assert_eq!(cpu.read_csr_raw(MIDELEG), 2);
    assert_eq!(cpu.pending_interrupt(), None);
    assert_eq!(cpu.read_csr_raw(MCAUSE), 0);
}

#[test]
fn take_trap_records_an_interrupt() {
    let mut cpu = Cpu::new();
    cpu.take_trap(Cause::Interrupt(Interrupt::MachineTimer), 0, 0x1234);
    assert_eq!(cpu.read_csr_raw(MCAUSE), 0x8000_0000_0000_0007);
    assert_eq!(cpu.read_csr_raw(MEPC), 0x1234);
}

#[test]
fn wfi_waits_for_an_interrupt() {
    let mut cpu = cpu_with(&[
        0x0800_0293, // addi x5, x0, 0x80
        0x3042_9073, // csrw mie, x5
        0x1050_0073, // wfi
        0x0010_0093, // addi x1, x0, 1
    ]);
    cpu.get_mmu().get_bus().write64(0x0200_4000, 10).unwrap();
    run(&mut cpu, 3);
    assert_eq!(cpu.read_pc(), BASE + 12);
    run(&mut cpu, 6);
    // still waiting: the timer has not reached 10 when the ninth step samples
    assert_eq!(cpu.read_pc(), BASE + 12);
    assert_eq!(cpu.read_register(1), 0);
    // the timer is 10 after the tenth tick; the eleventh step wakes and, with
    // interrupts disabled in mstatus, goes on
    run(&mut cpu, 2);
    assert_eq!(cpu.read_register(1), 1);
}

#[test]
fn atomics() {
    let mut cpu = cpu_with(&[
        0x0000_0097, // auipc x1, 0
        0x1000_8093, // addi x1, x1, 0x100
        0x0050_0113, // addi x2, x0, 5
        0x0020_a1af, // amoadd.w x3, x2, (x1)
        0x1000_a22f, // lr.w x4, (x1)
        0x1820_a2af, // sc.w x5, x2, (x1)
        0x1820_a32f, // sc.w x6, x2, (x1)      no reservation any more
    ]);
    cpu.get_mmu().write32(BASE + 0x100, 7).unwrap();
    run(&mut cpu, 7);
    assert_eq!(cpu.read_register(3), 7);
    assert_eq!(cpu.read_register(4), 12);
    assert_eq!(cpu.read_register(5), 0);
    assert_eq!(cpu.read_register(6), 1);
    assert_eq!(cpu.get_mmu().read32(BASE + 0x100), Ok(5));
}

#[test]
fn thirty_two_bit_hart() {
    let mut cpu = Cpu::new();
    cpu.set_xlen(Xlen::X32);
    assert_eq!(cpu.read_csr_raw(0x301), 0x4014_112d);
    cpu.get_mmu().write32(BASE, 0x8000_00b7).unwrap(); // lui x1, 0x80000
    cpu.get_mmu().write32(BASE + 4, 0xfff0_8113).unwrap(); // addi x2, x1, -1
    cpu.get_mmu().write32(BASE + 8, 0x0010_9193).unwrap(); // slli x3, x1, 1
    cpu.get_mmu().write16(BASE + 12, 0x2011).unwrap(); // c.jal 4 on a 32-bit hart
    run(&mut cpu, 4);
    // registers hold 32-bit values, sign-extended
    assert_eq!(cpu.read_register(2), 0x7fff_ffff);
    assert_eq!(cpu.read_register(3), 0);
    assert_eq!(cpu.read_register(1), 0xffff_ffff_8000_000e);
    assert_eq!(cpu.read_pc(), BASE + 16);
}

#[test]
fn execute_takes_a_decoded_instruction() {
    let mut cpu = Cpu::new();
    let r = cpu.execute(Instr::OpImm { op: AluOp::Add, rd: 3, rs1: 0, imm: 9, word: false }, 4, 0);
    assert_eq!(r, Ok(()));
    assert_eq!(cpu.read_register(3), 9);
    assert_eq!(cpu.read_pc(), BASE + 4);
    let r = cpu.execute(Instr::Ecall, 4, 0x73);
    assert_eq!(r.unwrap_err().exception, Exception::EnvironmentCallFromMMode);
}

/// A hart that has entered supervisor mode at `BASE + 36`, where `target`
/// stands, with the bits `guards` of `mstatus` set.
fn supervisor_at(guards: u32, target: u32) -> Cpu {
    let mut cpu = cpu_with(&[
        0x0000_02b7 | (guards << 12), // lui t0, guards
        0x3002_a073, // csrs mstatus, t0
        0x0000_1337, // lui t1, 1
        0x8003_0313, // addi t1, t1, -2048
        0x3003_2073, // csrs mstatus, t1
        0x0000_0397, // auipc t2, 0
        0x0103_8393, // addi t2, t2, 16
        0x3413_9073, // csrw mepc, t2
        0x3020_0073, // mret
        target,
        0x0000_0013, // nop
    ]);
    run(&mut cpu, 9);
    assert_eq!(cpu.get_privilege(), PrivilegeMode::Supervisor);
    assert_eq!(cpu.read_pc(), BASE + 36);
    cpu
}

#[test]
fn wfi_is_illegal_below_machine_mode_while_tw_is_set() {
    let mut cpu = supervisor_at(0x200, 0x1050_0073);
    cpu.tick();
    assert_eq!(cpu.read_csr_raw(MCAUSE), 2);
    assert_eq!(cpu.read_csr_raw(MTVAL), 0x1050_0073);
    assert_eq!(cpu.read_csr_raw(MEPC), BASE + 36);
    let mut cpu = supervisor_at(0, 0x1050_0073);
    cpu.tick();
    assert_eq!(cpu.read_csr_raw(MCAUSE), 0);
    assert_eq!(cpu.read_pc(), BASE + 40);
}

#[test]
fn sfence_and_satp_are_illegal_in_supervisor_mode_while_tvm_is_set() {
    let mut cpu = supervisor_at(0x100, 0x1200_0073);
    cpu.tick();
    assert_eq!(cpu.read_csr_raw(MCAUSE), 2);
    assert_eq!(cpu.read_csr_raw(MTVAL), 0x1200_0073);
    let mut cpu = supervisor_at(0x100, 0x1800_22f3);
    cpu.tick();
    assert_eq!(cpu.read_csr_raw(MCAUSE), 2);
    assert_eq!(cpu.read_csr_raw(MTVAL), 0x1800_22f3);
    let mut cpu = supervisor_at(0, 0x1200_0073);
    cpu.tick();
    assert_eq!(cpu.read_csr_raw(MCAUSE), 0);
    let mut cpu = supervisor_at(0, 0x1800_22f3);
    cpu.tick();
    assert_eq!(cpu.read_csr_raw(MCAUSE), 0);
    assert_eq!(cpu.read_pc(), BASE + 40);
}

#[test]
fn sret_is_illegal_in_supervisor_mode_while_tsr_is_set() {
    let mut cpu = supervisor_at(0x400, 0x1020_0073);
    cpu.tick();
    assert_eq!(cpu.read_csr_raw(MCAUSE), 2);
    assert_eq!(cpu.read_csr_raw(MTVAL), 0x1020_0073);
    assert_eq!(cpu.get_privilege(), PrivilegeMode::Machine);
    // without the guard it returns to user mode at sepc
    let mut cpu = supervisor_at(0, 0x1020_0073);
    cpu.tick();
    assert_eq!(cpu.read_csr_raw(MCAUSE), 0);
    assert_eq!(cpu.get_privilege(), PrivilegeMode::User);
    assert_eq!(cpu.read_pc(), 0);
}

#[test]
fn supervisor_code_runs_under_sv39() {
    const ROOT: u64 = BASE + 0x10_0000;
    const L1: u64 = ROOT + 0x1000;
    const CODE_TABLE: u64 = ROOT + 0x2000;
    const UART_TABLE: u64 = ROOT + 0x3000;
    const CODE: u64 = BASE + 0x2000;
    const VA: u64 = 0x40_0000;
    let pte = |pa: u64, flags: u64| ((pa >> 12) << 10) | flags;
    let mut cpu = cpu_with(&[
        0x0000_0297, // auipc t0, 0
        0x0402_b303, // ld t1, 64(t0)
        0x1803_1073, // csrw satp, t1
        0x0482_b383, // ld t2, 72(t0)
        0x3413_9073, // csrw mepc, t2
        0x0502_be03, // ld t3, 80(t0)
        0x300e_2073, // csrs mstatus, t3
        0x1200_0073, // sfence.vma
        0x3020_0073, // mret
    ]);
    {
        let mmu = cpu.get_mmu();
        mmu.write64(BASE + 64, (8 << 60) | (ROOT >> 12)).unwrap();
        mmu.write64(BASE + 72, VA).unwrap();
        mmu.write64(BASE + 80, 0x800).unwrap();
        mmu.write64(ROOT, pte(L1, 0x01)).unwrap();
        mmu.write64(L1 + 8 * 2, pte(CODE_TABLE, 0x01)).unwrap();
        mmu.write64(L1 + 8 * 0x80, pte(UART_TABLE, 0x01)).unwrap();
        // the code page: readable, writable and executable
        mmu.write64(CODE_TABLE, pte(CODE, 0x0f)).unwrap();
        // the serial port: readable and writable
        mmu.write64(UART_TABLE, pte(0x1000_0000, 0x07)).unwrap();
        for (i, word) in [
            0x1000_0337u32, // lui t1, 0x10000
            0x0530_0293u32, // addi t0, x0, 'S'
            0x0053_0023u32, // sb t0, 0(t1)
            0x0040_03b7u32, // lui t2, 0x400
            0x1053_a023u32, // sw t0, 0x100(t2)
            0x0000_0073u32, // ecall
        ]
        .iter()
        .enumerate()
        {
            mmu.write32(CODE + 4 * i as u64, *word).unwrap();
        }
    }
    run(&mut cpu, 9);
    assert_eq!(cpu.get_privilege(), PrivilegeMode::Supervisor);
    assert_eq!(cpu.read_pc(), VA);
    run(&mut cpu, 5);
    assert_eq!(cpu.read_pc(), VA + 20);
    assert_eq!(cpu.get_mmu().get_bus().take_output(), vec![b'S']);
    // the store went to the physical page, and marked the page dirty
    assert_eq!(cpu.get_mmu().get_bus().read32(CODE + 0x100), Ok(b'S' as u32));
    assert_eq!(cpu.get_mmu().get_bus().read64(CODE_TABLE), Ok(pte(CODE, 0xcf)));
    assert_eq!(cpu.get_mmu().get_bus().read64(UART_TABLE), Ok(pte(0x1000_0000, 0xc7)));
    // the environment call traps to machine mode with the virtual address
    cpu.tick();
    assert_eq!(cpu.get_privilege(), PrivilegeMode::Machine);
    assert_eq!(cpu.read_csr_raw(MCAUSE), 9);
    assert_eq!(cpu.read_csr_raw(MEPC), VA + 20);
}

#[test]
fn delegated_interrupt_is_taken_in_supervisor_mode() {
    let mut cpu = cpu_with(&[
        0x0020_0293, // addi t0, x0, 2
        0x3032_9073, // csrw mideleg, t0
        0x3042_9073, // csrw mie, t0
        0x3442_9073, // csrw mip, t0
        0x0000_0317, // auipc t1, 0
        0x0f03_0313, // addi t1, t1, 240
        0x1053_1073, // csrw stvec, t1
        0x0000_13b7, // lui t2, 1
        0x8003_8393, // addi t2, t2, -2048
        0x3003_a073, // csrs mstatus, t2
        0x0000_0397, // auipc t2, 0
        0x0103_8393, // addi t2, t2, 16
        0x3413_9073, // csrw mepc, t2
        0x3020_0073, // mret
        0x1001_6073, // csrsi sstatus, 2
        0x0000_0013, // nop
        0x0000_0013, // nop
    ]);
    cpu.get_mmu().get_bus().write64(0x0200_4000, u64::MAX).unwrap();
    // fourteen steps of setup in machine mode, where the pending interrupt
    // is not taken, then the instruction that enables it in supervisor mode
    run(&mut cpu, 15);
    assert_eq!(cpu.get_privilege(), PrivilegeMode::Supervisor);
    assert_eq!(cpu.read_pc(), BASE + 60);
    assert_eq!(cpu.read_csr_raw(SCAUSE), 0);
    assert_eq!(cpu.pending_interrupt(), Some(Interrupt::SupervisorSoftware));
    cpu.tick();
    assert_eq!(cpu.get_privilege(), PrivilegeMode::Supervisor);
    assert_eq!(cpu.read_csr_raw(SCAUSE), 0x8000_0000_0000_0001);
    assert_eq!(cpu.read_csr_raw(SEPC), BASE + 60);
    assert_eq!(cpu.read_pc(), BASE + 16 + 240);
    // SPP = supervisor, SPIE = the old SIE = 1, SIE = 0
    assert_eq!(cpu.read_csr_raw(MSTATUS) & 0x122, 0x120);
    assert_eq!(cpu.read_csr_raw(MCAUSE), 0);
}

#[test]
fn vectored_interrupt_goes_to_its_slot() {
    let mut cpu = cpu_with(&[
        0x0080_0293, // addi t0, x0, 8
        0x3042_9073, // csrw mie, t0
        0x0000_0317, // auipc t1, 0
        0x0f93_0313, // addi t1, t1, 249
        0x3053_1073, // csrw mtvec, t1
        0x3004_6073, // csrsi mstatus, 8
        0x0000_0013, // nop
    ]);
    cpu.get_mmu().get_bus().write64(0x0200_4000, u64::MAX).unwrap();
    cpu.get_mmu().get_bus().write32(0x0200_0000, 1).unwrap();
    run(&mut cpu, 6);
    assert_eq!(cpu.read_pc(), BASE + 24);
    cpu.tick();
    // base = BASE + 8 + 248, slot of the machine software interrupt = base + 4 * 3
    assert_eq!(cpu.read_csr_raw(MCAUSE), 0x8000_0000_0000_0003);
    assert_eq!(cpu.read_pc(), BASE + 8 + 248 + 12);
    // an exception goes to the base
    cpu.take_trap(Cause::Exception(Exception::Breakpoint), 0, 0);
    assert_eq!(cpu.read_pc(), BASE + 8 + 248);
}

#[test]
fn instructions_have_mnemonics() {
    let name = |word: u32| mnemonic(decode(word, Xlen::X64).unwrap());
    assert_eq!(name(0x0050_0093), "addi");
    assert_eq!(name(0x0015_051b), "addiw");
    assert_eq!(name(0x4015_5513), "srai");
    assert_eq!(name(0x40b5_0533), "sub");
    assert_eq!(name(0x40b5_053b), "subw");
    assert_eq!(name(0x0e82_6203), "lwu");
    assert_eq!(name(0x0d03_b383), "ld");
    assert_eq!(name(0x1020_bc23), "sd");
    assert_eq!(name(0xfe05_1fe3), "bne");
    assert_eq!(name(0x0020_a1af), "amoadd.w");
    assert_eq!(name(0x1000_a22f), "lr.w");
    assert_eq!(name(0x3004_6073), "csrrsi");
    assert_eq!(name(0x3042_9073), "csrrw");
    assert_eq!(name(0x1200_0073), "sfence.vma");
    assert_eq!(name(0x0000_100f), "fence.i");
    assert_eq!(name(0x0085_b507), "fld");
    assert_eq!(
        mnemonic(Instr::FpSign { kind: SignKind::Negate, width: Width::D, rd: 1, rs1: 2, rs2: 3 }),
        "fsgnjn.d"
    );
    assert_eq!(
        mnemonic(Instr::Op { op: AluOp::Mulhsu, rd: 1, rs1: 2, rs2: 3, word: false }),
        "mulhsu"
    );
}

#[test]
fn atomics_need_natural_alignment() {
    let mut cpu = cpu_with(&[
        0x0020_0093, // addi x1, x0, 2
        0x1000_a22f, // lr.w x4, (x1)
    ]);
    run(&mut cpu, 2);
    assert_eq!(cpu.read_csr_raw(MCAUSE), 4);
    assert_eq!(cpu.read_csr_raw(MTVAL), 2);
    let mut cpu = cpu_with(&[
        0x0020_0093, // addi x1, x0, 2
        0x0020_a1af, // amoadd.w x3, x2, (x1)
    ]);
    run(&mut cpu, 2);
    assert_eq!(cpu.read_csr_raw(MCAUSE), 6);
    assert_eq!(cpu.read_csr_raw(MTVAL), 2);
    let mut cpu = cpu_with(&[
        0x0020_0093, // addi x1, x0, 2
        0x1820_a2af, // sc.w x5, x2, (x1)
    ]);
    run(&mut cpu, 2);
    assert_eq!(cpu.read_csr_raw(MCAUSE), 6);
}

#[test]
fn atomic_operation_faults_as_a_store() {
    let mut cpu = cpu_with(&[
        0x0040_0093, // addi x1, x0, 4
        0x0020_a1af, // amoadd.w x3, x2, (x1)
    ]);
    run(&mut cpu, 2);
    assert_eq!(cpu.read_csr_raw(MCAUSE), 7);
    assert_eq!(cpu.read_csr_raw(MTVAL), 4);
    assert_eq!(cpu.read_csr_raw(MEPC), BASE + 4);
}

#[test]
fn floating_point_registers_move_bits() {
    let mut cpu = cpu_with(&[
        0x0000_22b7, // lui t0, 2
        0x3002_a073, // csrs mstatus, t0
        0xffd0_0113, // addi x2, x0, -3
        0xf201_00d3, // fmv.d.x f1, x2
        0xe200_81d3, // fmv.x.d x3, f1
        0x2210_9153, // fsgnjn.d f2, f1, f1
        0xe201_0253, // fmv.x.d x4, f2
        0xf001_01d3, // fmv.w.x f3, x2
        0xe001_82d3, // fmv.x.w x5, f3
        0x0000_0317, // auipc x6, 0
        0x1023_3027, // fsd f2, 0x100(x6)
        0x1003_3207, // fld f4, 0x100(x6)
        0xe202_03d3, // fmv.x.d x7, f4
        0x1013_2427, // fsw f1, 0x108(x6)
        0x1083_2287, // flw f5, 0x108(x6)
        0xe202_8453, // fmv.x.d x8, f5
    ]);
    run(&mut cpu, 16);
    let minus_three = 0xffff_ffff_ffff_fffdu64;
    assert_eq!(cpu.read_register(3), minus_three);
    assert_eq!(cpu.read_register(4), 0x7fff_ffff_ffff_fffd);
    assert_eq!(cpu.read_register(5), minus_three);
    assert_eq!(cpu.read_register(7), 0x7fff_ffff_ffff_fffd);
    // a single-precision value is boxed in ones
    assert_eq!(cpu.read_register(8), 0xffff_ffff_ffff_fffd);
    assert_eq!(cpu.get_mmu().read64(BASE + 36 + 0x108), Ok(0xffff_fffd));
    assert_eq!(cpu.read_csr_raw(MCAUSE), 0);
}

#[test]
fn floating_point_is_illegal_while_the_unit_is_off() {
    let mut cpu = cpu_with(&[
        0xf201_00d3, // fmv.d.x f1, x2
    ]);
    cpu.tick();
    assert_eq!(cpu.read_csr_raw(MCAUSE), 2);
    let mut cpu = cpu_with(&[
        0x1003_3207, // fld f4, 0x100(x6)
    ]);
    cpu.tick();
    assert_eq!(cpu.read_csr_raw(MCAUSE), 2);
    assert_eq!(cpu.read_csr_raw(MTVAL), 0x1003_3207);
}
