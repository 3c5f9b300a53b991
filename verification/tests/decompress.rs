use riscv_emu::cpu::cpu::{Cpu, Xlen};
use riscv_emu::cpu::cpu_instruction_comp::{
    c_add, c_addi4spn, c_lui, disassemble_mnemonic, instruction_decompress, opecode_0, opecode_1,
    opecode_2, CompressedForm, CompressedOpecode,
};

fn cpu64() -> Cpu {
    Cpu::new()
}

fn cpu32() -> Cpu {
    let mut cpu = Cpu::new();
    cpu.set_xlen(Xlen::X32);
    cpu
}

#[test]
fn expands_c_nop() {
    assert_eq!(instruction_decompress(&cpu64(), 0, 0x0001), Ok(0x0000_0013));
}

#[test]
fn expands_c_addi4spn() {
    // c.addi4spn x8, sp, 4  ->  addi x8, x2, 4
    assert_eq!(instruction_decompress(&cpu64(), 0, 0x0040), Ok(0x0041_0413));
}

#[test]
fn all_zero_parcel_is_illegal() {
    assert_eq!(instruction_decompress(&cpu64(), 0, 0x0000), Err(()));
    assert_eq!(c_addi4spn(&cpu64(), 0x0000), Err(()));
}

#[test]
fn only_the_low_half_of_the_word_counts() {
    assert_eq!(instruction_decompress(&cpu64(), 0, 0xffff_4505), Ok(0x0010_0513));
}

#[test]
fn expands_quadrant_0_loads_and_stores() {
    let cpu = cpu64();
    // c.lw a0, 0(a1)  ->  lw a0, 0(a1)
    assert_eq!(instruction_decompress(&cpu, 0, 0x4188), Ok(0x0005_a503));
    // c.sw a0, 4(a1)  ->  sw a0, 4(a1)
    assert_eq!(instruction_decompress(&cpu, 0, 0xc1c8), Ok(0x00a5_a223));
    // c.ld a0, 8(a1)  ->  ld a0, 8(a1)
    assert_eq!(instruction_decompress(&cpu, 0, 0x6588), Ok(0x0085_b503));
    // c.sd a0, 8(a1)  ->  sd a0, 8(a1)
    assert_eq!(instruction_decompress(&cpu, 0, 0xe588), Ok(0x00a5_b423));
    // c.fld fa0, 8(a1)  ->  fld fa0, 8(a1)
    assert_eq!(instruction_decompress(&cpu, 0, 0x2588), Ok(0x0085_b507));
    // c.fsd fa0, 8(a1)  ->  fsd fa0, 8(a1)
    assert_eq!(instruction_decompress(&cpu, 0, 0xa588), Ok(0x00a5_b427));
    // funct3 = 4 is reserved
    assert_eq!(instruction_decompress(&cpu, 0, 0x8000), Err(()));
}

#[test]
fn quadrant_0_depends_on_the_register_width() {
    // the same parcel is c.ld with 64-bit registers and c.flw with 32-bit registers
    assert_eq!(instruction_decompress(&cpu64(), 0, 0x6588), Ok(0x0085_b503));
    // c.flw fa0, 8(a1)  ->  flw fa0, 8(a1)
    assert_eq!(instruction_decompress(&cpu32(), 0, 0x6588), Ok(0x0085_a507));
    // c.fsw fa0, 8(a1)  ->  fsw fa0, 8(a1)
    assert_eq!(instruction_decompress(&cpu32(), 0, 0xe588), Ok(0x00a5_a427));
}

#[test]
fn expands_quadrant_1_immediates() {
    let cpu = cpu64();
    // c.li a0, 1  ->  addi a0, x0, 1
    assert_eq!(instruction_decompress(&cpu, 0, 0x4505), Ok(0x0010_0513));
    // c.addi a0, -1  ->  addi a0, a0, -1
    assert_eq!(instruction_decompress(&cpu, 0, 0x157d), Ok(0xfff5_0513));
    // c.addiw a0, 1  ->  addiw a0, a0, 1
    assert_eq!(instruction_decompress(&cpu, 0, 0x2505), Ok(0x0015_051b));
    // c.lui a0, 1  ->  lui a0, 1
    assert_eq!(instruction_decompress(&cpu, 0, 0x6505), Ok(0x0000_1537));
    // c.lui a0, 0xfffff (nzimm = -1)  ->  lui a0, 0xfffff
    assert_eq!(instruction_decompress(&cpu, 0, 0x757d), Ok(0xffff_f537));
    // c.addi16sp 16  ->  addi sp, sp, 16
    assert_eq!(instruction_decompress(&cpu, 0, 0x6141), Ok(0x0101_0113));
    // c.addi16sp -16 ->  addi sp, sp, -16
    assert_eq!(instruction_decompress(&cpu, 0, 0x717d), Ok(0xff01_0113));
    // c.andi a0, 3  ->  andi a0, a0, 3
    assert_eq!(instruction_decompress(&cpu, 0, 0x890d), Ok(0x0035_7513));
}

#[test]
fn reserved_immediates_are_illegal() {
    let cpu = cpu64();
    // c.lui with a zero immediate
    assert_eq!(instruction_decompress(&cpu, 0, 0x6501), Err(()));
    assert_eq!(c_lui(&cpu, 0x6501), Err(()));
    // c.addi16sp with a zero immediate
    assert_eq!(instruction_decompress(&cpu, 0, 0x6101), Err(()));
    // c.addiw with rd = x0
    assert_eq!(instruction_decompress(&cpu, 0, 0x2005), Err(()));
    // c.lwsp with rd = x0
    assert_eq!(instruction_decompress(&cpu, 0, 0x4002), Err(()));
    // c.jr with rs1 = x0
    assert_eq!(instruction_decompress(&cpu, 0, 0x8002), Err(()));
}

#[test]
fn expands_quadrant_1_arithmetic() {
    let cpu = cpu64();
    // c.sub a0, a1  ->  sub a0, a0, a1
    assert_eq!(instruction_decompress(&cpu, 0, 0x8d0d), Ok(0x40b5_0533));
    // c.xor a0, a1  ->  xor a0, a0, a1
    assert_eq!(instruction_decompress(&cpu, 0, 0x8d2d), Ok(0x00b5_4533));
    // c.or a0, a1  ->  or a0, a0, a1
    assert_eq!(instruction_decompress(&cpu, 0, 0x8d4d), Ok(0x00b5_6533));
    // c.and a0, a1  ->  and a0, a0, a1
    assert_eq!(instruction_decompress(&cpu, 0, 0x8d6d), Ok(0x00b5_7533));
    // c.subw a0, a1  ->  subw a0, a0, a1
    assert_eq!(instruction_decompress(&cpu, 0, 0x9d0d), Ok(0x40b5_053b));
    // c.addw a0, a1  ->  addw a0, a0, a1
    assert_eq!(instruction_decompress(&cpu, 0, 0x9d2d), Ok(0x00b5_053b));
    // c.srli a0, 1  ->  srli a0, a0, 1
    assert_eq!(instruction_decompress(&cpu, 0, 0x8105), Ok(0x0015_5513));
    // c.srai a0, 1  ->  srai a0, a0, 1
    assert_eq!(instruction_decompress(&cpu, 0, 0x8505), Ok(0x4015_5513));
    // the two reserved slots beside c.subw and c.addw
    assert_eq!(instruction_decompress(&cpu, 0, 0x9d4d), Err(()));
    assert_eq!(instruction_decompress(&cpu, 0, 0x9d6d), Err(()));
}

#[test]
fn word_arithmetic_needs_64_bit_registers() {
    assert_eq!(instruction_decompress(&cpu32(), 0, 0x9d0d), Err(()));
    assert_eq!(instruction_decompress(&cpu32(), 0, 0x9d2d), Err(()));
}

#[test]
fn shift_amounts_of_32_or_more_need_64_bit_registers() {
    // c.slli a0, 32  ->  slli a0, a0, 32
    assert_eq!(instruction_decompress(&cpu64(), 0, 0x1502), Ok(0x0205_1513));
    assert_eq!(instruction_decompress(&cpu32(), 0, 0x1502), Err(()));
    // c.srli a0, 33
    assert_eq!(instruction_decompress(&cpu64(), 0, 0x9105), Ok(0x0215_5513));
    assert_eq!(instruction_decompress(&cpu32(), 0, 0x9105), Err(()));
}

#[test]
fn expands_jumps_and_branches() {
    let cpu = cpu64();
    // c.j 0  ->  jal x0, 0
    assert_eq!(instruction_decompress(&cpu, 0, 0xa001), Ok(0x0000_006f));
    // c.j -2  ->  jal x0, -2
    assert_eq!(instruction_decompress(&cpu, 0, 0xbffd), Ok(0xffff_f06f));
    // c.beqz a0, 0  ->  beq a0, x0, 0
    assert_eq!(instruction_decompress(&cpu, 0, 0xc101), Ok(0x0005_0063));
    // c.bnez a0, 0  ->  bne a0, x0, 0
    assert_eq!(instruction_decompress(&cpu, 0, 0xe101), Ok(0x0005_1063));
    // c.bnez a0, -2  ->  bne a0, x0, -2
    assert_eq!(instruction_decompress(&cpu, 0, 0xfd7d), Ok(0xfe05_1fe3));
    // c.jr ra  ->  jalr x0, 0(ra)
    assert_eq!(instruction_decompress(&cpu, 0, 0x8082), Ok(0x0000_8067));
    // c.jalr a0  ->  jalr ra, 0(a0)
    assert_eq!(instruction_decompress(&cpu, 0, 0x9502), Ok(0x0005_00e7));
}

#[test]
fn funct3_1_of_quadrant_1_depends_on_the_register_width() {
    // c.addiw a0, 1 with 64-bit registers
    assert_eq!(instruction_decompress(&cpu64(), 0, 0x2505), Ok(0x0015_051b));
    // c.jal 0x620 with 32-bit registers  ->  jal ra, 0x620
    assert_eq!(instruction_decompress(&cpu32(), 0, 0x2505), Ok(0x6200_00ef));
}

#[test]
fn expands_quadrant_2() {
    let cpu = cpu64();
    // c.slli a0, 1  ->  slli a0, a0, 1
    assert_eq!(instruction_decompress(&cpu, 0, 0x0506), Ok(0x0015_1513));
    // c.lwsp a0, 0(sp)  ->  lw a0, 0(sp)
    assert_eq!(instruction_decompress(&cpu, 0, 0x4502), Ok(0x0001_2503));
    // c.ldsp ra, 8(sp)  ->  ld ra, 8(sp)
    assert_eq!(instruction_decompress(&cpu, 0, 0x60a2), Ok(0x0081_3083));
    // c.sdsp ra, 8(sp)  ->  sd ra, 8(sp)
    assert_eq!(instruction_decompress(&cpu, 0, 0xe406), Ok(0x0011_3423));
    // c.swsp a0, 4(sp)  ->  sw a0, 4(sp)
    assert_eq!(instruction_decompress(&cpu, 0, 0xc22a), Ok(0x00a1_2223));
    // c.fldsp fa0, 8(sp)  ->  fld fa0, 8(sp)
    assert_eq!(instruction_decompress(&cpu, 0, 0x2522), Ok(0x0081_3507));
    // c.fsdsp fa0, 8(sp)  ->  fsd fa0, 8(sp)
    assert_eq!(instruction_decompress(&cpu, 0, 0xa42a), Ok(0x00a1_3427));
    // c.mv a0, a1  ->  add a0, x0, a1
    assert_eq!(instruction_decompress(&cpu, 0, 0x852e), Ok(0x00b0_0533));
    // c.add a0, a1  ->  add a0, a0, a1
    assert_eq!(instruction_decompress(&cpu, 0, 0x952e), Ok(0x00b5_0533));
    // c.ebreak  ->  ebreak
    assert_eq!(instruction_decompress(&cpu, 0, 0x9002), Ok(0x0010_0073));
}

#[test]
fn quadrant_2_depends_on_the_register_width() {
    // 0x6502: c.ldsp a0, 0(sp) with 64-bit registers, c.flwsp fa0, 0(sp) with 32-bit registers
    assert_eq!(instruction_decompress(&cpu64(), 0, 0x6502), Ok(0x0001_3503));
    assert_eq!(instruction_decompress(&cpu32(), 0, 0x6502), Ok(0x0001_2507));
    // 0xe42a: c.sdsp a0, 8(sp) with 64-bit registers
    assert_eq!(instruction_decompress(&cpu64(), 0, 0xe42a), Ok(0x00a1_3423));
    // with 32-bit registers c.fswsp fa0, 8(sp)  ->  fsw fa0, 8(sp)
    assert_eq!(instruction_decompress(&cpu32(), 0, 0xe42a), Ok(0x00a1_2427));
}

#[test]
fn c_add_rejects_x0() {
    let cpu = cpu64();
    assert_eq!(c_add(&cpu, 0x952e), Ok(0x00b5_0533));
    // rs2 = x0
    assert_eq!(c_add(&cpu, 0x9502), Err(()));
    // rd = x0
    assert_eq!(c_add(&cpu, 0x902e), Err(()));
}

#[test]
fn dispatch_finds_the_form() {
    let cpu = cpu64();
    assert_eq!(opecode_0(&cpu, 0x4188).unwrap().form, CompressedForm::Lw);
    assert_eq!(opecode_0(&cpu, 0x6588).unwrap().form, CompressedForm::Ld);
    assert!(opecode_0(&cpu, 0x8000).is_err());
    assert_eq!(opecode_1(&cpu, 0x0001).unwrap().form, CompressedForm::Nop);
    assert_eq!(opecode_1(&cpu, 0x157d).unwrap().form, CompressedForm::Addi);
    assert_eq!(opecode_1(&cpu, 0x6141).unwrap().form, CompressedForm::Addi16sp);
    assert_eq!(opecode_1(&cpu, 0x6505).unwrap().form, CompressedForm::Lui);
    assert_eq!(opecode_1(&cpu, 0x9d2d).unwrap().form, CompressedForm::Addw);
    assert_eq!(opecode_2(&cpu, 0x8082).unwrap().form, CompressedForm::Jr);
    assert_eq!(opecode_2(&cpu, 0x852e).unwrap().form, CompressedForm::Mv);
    assert_eq!(opecode_2(&cpu, 0x9002).unwrap().form, CompressedForm::Ebreak);
    assert_eq!(opecode_2(&cpu, 0x9502).unwrap().form, CompressedForm::Jalr);
    assert_eq!(opecode_2(&cpu, 0x952e).unwrap().form, CompressedForm::Add);
    let q1 = CompressedOpecode { quadrant: 1 };
    assert_eq!(q1.operation(&cpu, 0x4505).unwrap().form, CompressedForm::Li);
    let q3 = CompressedOpecode { quadrant: 3 };
    assert!(q3.operation(&cpu, 0x4505).is_err());
}

#[test]
fn mnemonic_and_disassembly() {
    let cpu = cpu64();
    let i = opecode_1(&cpu, 0x4505).unwrap();
    assert_eq!(i.mnemonic(), "c.li");
    assert_eq!(i.disassemble(&cpu, 0x4505), "c.li");
    assert_eq!(i.decompress(&cpu, 0x4505), Ok(0x0010_0513));
    assert_eq!(opecode_0(&cpu, 0x0040).unwrap().mnemonic(), "c.addi4spn");
    assert_eq!(opecode_2(&cpu, 0xe406).unwrap().mnemonic(), "c.sdsp");
    assert_eq!(disassemble_mnemonic(&cpu, "c.nop", 1), "c.nop");
}
