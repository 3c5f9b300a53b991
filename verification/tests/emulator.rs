use riscv_emu::cpu::cpu::{PrivilegeMode, Xlen};
use riscv_emu::cpu::trap::{Exception, Trap};
use riscv_emu::elf_loader::{ElfImage, ProgbitsSection};
use riscv_emu::emulator::{Emulator, LoadError, RunOutcome};

const BASE: u64 = 0x8000_0000;

fn words(program: &[u32]) -> Vec<u8> {
    let mut bytes = Vec::new();
    for w in program {
        bytes.extend_from_slice(&w.to_le_bytes());
    }
    bytes
}

/// A program that writes `value` to the word at BASE + 0x1000 and loops.
fn reporting(value: u32) -> Vec<u8> {
    assert!(value < 0x800);
    words(&[
        0x0000_1317,                 // auipc t1, 1
        0x0000_0293 | (value << 20), // addi t0, x0, value
        0x0053_2023,                 // sw t0, 0(t1)
        0x0000_006f,                 // jal x0, 0
    ])
}

fn image(data: Vec<u8>) -> ElfImage {
    ElfImage {
        e_machine: 243,
        ei_class: 2,
        e_entry: BASE,
        sections: vec![ProgbitsSection { sh_addr: BASE, sh_offset: 0x1000, data }],
        tohost: Some(BASE + 0x1000),
    }
}

#[test]
fn new_emulator_is_at_reset() {
    let e = Emulator::new(false);
    assert_eq!(e.cpu().read_pc(), BASE);
    assert_eq!(e.cpu().get_xlen(), Xlen::X64);
    assert_eq!(e.cpu().get_privilege(), PrivilegeMode::Machine);
}

#[test]
fn test_program_reports_success() {
    let mut e = Emulator::new(true);
    assert_eq!(e.load_program(&image(reporting(1))), Ok(()));
    assert_eq!(e.run(2), RunOutcome::Pending);
    assert_eq!(e.run(100), RunOutcome::Exited(Ok(1)));
}

#[test]
fn test_program_reports_failure() {
    let mut e = Emulator::new(true);
    assert_eq!(e.load_program(&image(reporting(3))), Ok(()));
    assert_eq!(e.run(100), RunOutcome::Exited(Err(3)));
}

#[test]
fn run_ends_with_the_budget() {
    let mut e = Emulator::new(true);
    assert_eq!(e.load_program(&image(words(&[0x0000_006f]))), Ok(()));
    assert_eq!(e.run(0), RunOutcome::Pending);
    assert_eq!(e.run(1000), RunOutcome::Pending);
    assert_eq!(e.cpu().read_pc(), BASE);
    assert_eq!(e.cpu().read_csr_raw(0xb00), 1000);
}

#[test]
fn tohost_is_watched_in_test_mode_only() {
    let mut e = Emulator::new(false);
    assert_eq!(e.load_program(&image(reporting(1))), Ok(()));
    assert_eq!(e.run(100), RunOutcome::Pending);
    assert_eq!(e.get_cpu().get_mmu().read32(BASE + 0x1000), Ok(1));
}

#[test]
fn program_without_tohost_is_not_watched() {
    let mut e = Emulator::new(true);
    let mut elf = image(reporting(1));
    elf.tohost = None;
    assert_eq!(e.load_program(&elf), Ok(()));
    assert_eq!(e.run(100), RunOutcome::Pending);
}

#[test]
fn unreadable_tohost_ends_the_run() {
    let mut e = Emulator::new(true);
    let mut elf = image(words(&[0x0000_006f]));
    elf.tohost = Some(0x1000);
    assert_eq!(e.load_program(&elf), Ok(()));
    assert_eq!(
        e.run(5),
        RunOutcome::Unreadable(Trap { exception: Exception::LoadAccessFault, value: 0x1000 })
    );
}

#[test]
fn load_sets_entry_and_width() {
    let mut e = Emulator::new(false);
    let mut elf = image(words(&[0x0000_0013]));
    elf.e_entry = BASE + 0x40;
    elf.ei_class = 1;
    assert_eq!(e.load_program(&elf), Ok(()));
    assert_eq!(e.cpu().read_pc(), BASE + 0x40);
    assert_eq!(e.cpu().get_xlen(), Xlen::X32);
    assert_eq!(e.cpu().read_csr_raw(0x301), 0x4014_112d);
}

#[test]
fn load_rejects_other_machines_and_classes() {
    let mut e = Emulator::new(false);
    let mut elf = image(words(&[0x0000_0013]));
    elf.e_machine = 62;
    assert_eq!(e.load_program(&elf), Err(LoadError::NotRiscv));
    let mut elf = image(words(&[0x0000_0013]));
    elf.ei_class = 0;
    assert_eq!(e.load_program(&elf), Err(LoadError::UnexpectedClass));
    // nothing was loaded
    assert_eq!(e.get_cpu().get_mmu().read32(BASE), Ok(0));
    assert_eq!(e.cpu().read_pc(), BASE);
}

#[test]
fn load_skips_sections_below_dram_or_without_contents() {
    let mut e = Emulator::new(false);
    let elf = ElfImage {
        e_machine: 243,
        ei_class: 2,
        e_entry: BASE,
        sections: vec![
            ProgbitsSection { sh_addr: 0x1000, sh_offset: 0x100, data: vec![1, 2, 3, 4] },
            ProgbitsSection { sh_addr: BASE, sh_offset: 0, data: vec![5, 6, 7, 8] },
            ProgbitsSection { sh_addr: BASE + 8, sh_offset: 0x200, data: vec![9, 10] },
            ProgbitsSection { sh_addr: BASE + 16, sh_offset: 0x300, data: vec![] },
        ],
        tohost: None,
    };
    assert_eq!(e.load_program(&elf), Ok(()));
    assert_eq!(e.get_cpu().get_mmu().read64(BASE), Ok(0));
    assert_eq!(e.get_cpu().get_mmu().read64(BASE + 8), Ok(0x0a09));
}

#[test]
fn load_reports_a_section_that_does_not_fit() {
    let mut e = Emulator::new(true);
    let end = BASE + 0x800_0000;
    let elf = ElfImage {
        e_machine: 243,
        ei_class: 2,
        e_entry: BASE,
        sections: vec![ProgbitsSection { sh_addr: end - 2, sh_offset: 0x100, data: vec![1, 2, 3] }],
        tohost: Some(BASE + 0x1000),
    };
    assert_eq!(
        e.load_program(&elf),
        Err(LoadError::Store(Trap { exception: Exception::StoreAccessFault, value: end }))
    );
    // the bytes before the fault are stored
    assert_eq!(e.get_cpu().get_mmu().read16(end - 2), Ok(0x0201));
    // the address of .tohost was not taken
    assert_eq!(e.run(3), RunOutcome::Pending);
}

#[test]
fn dram_image_and_program_counter() {
    let mut e = Emulator::new(false);
    e.set_dram_data(words(&[
        0x0000_0013, // nop
        0x02a0_0513, // addi a0, x0, 42
    ]));
    e.set_pc(BASE + 4);
    assert_eq!(e.run(1), RunOutcome::Pending);
    assert_eq!(e.cpu().read_register(10), 42);
    assert_eq!(e.cpu().read_pc(), BASE + 8);
}

#[test]
fn reset_keeps_memory() {
    let mut e = Emulator::new(false);
    e.set_dram_data(words(&[0x02a0_0513]));
    assert_eq!(e.run(1), RunOutcome::Pending);
    assert_eq!(e.cpu().read_register(10), 42);
    e.reset();
    assert_eq!(e.cpu().read_register(10), 0);
    assert_eq!(e.cpu().read_pc(), BASE);
    assert_eq!(e.get_cpu().get_mmu().read32(BASE), Ok(0x02a0_0513));
}

#[test]
fn guest_prints_to_the_terminal() {
    let mut e = Emulator::new(false);
    e.set_dram_data(words(&[
        0x1000_0337, // lui t1, 0x10000
        0x0480_0293, // addi t0, x0, 'H'
        0x0053_0023, // sb t0, 0(t1)
        0x0690_0293, // addi t0, x0, 'i'
        0x0053_0023, // sb t0, 0(t1)
        0x0000_006f, // jal x0, 0
    ]));
    assert_eq!(e.run(10), RunOutcome::Pending);
    assert_eq!(e.take_output(), b"Hi".to_vec());
    assert_eq!(e.take_output(), Vec::<u8>::new());
}

#[test]
fn guest_reads_from_the_terminal() {
    let mut e = Emulator::new(false);
    e.set_dram_data(words(&[
        0x1000_0337, // lui t1, 0x10000
        0x0053_4283, // lbu t0, 5(t1)        line status
        0x0012_f293, // andi t0, t0, 1
        0xfe02_8ce3, // beq t0, x0, -8
        0x0003_4503, // lbu a0, 0(t1)
        0x0000_006f, // jal x0, 0
    ]));
    assert_eq!(e.run(20), RunOutcome::Pending);
    assert_eq!(e.cpu().read_register(10), 0);
    e.push_input(b'q');
    assert_eq!(e.run(20), RunOutcome::Pending);
    assert_eq!(e.cpu().read_register(10), b'q' as u64);
}

#[test]
fn disk_image_sets_the_capacity() {
    let mut e = Emulator::new(false);
    e.set_disk_data(vec![0u8; 4 * 512]);
    assert_eq!(e.get_cpu().get_mmu().read32(0x1000_1100), Ok(4));
}
