use riscv_emu::elf_loader::{parse, read_file_header, read_section_header};
use riscv_emu::emulator::{Emulator, RunOutcome};

const BASE: u64 = 0x8000_0000;

struct Section {
    name: &'static str,
    kind: u32,
    addr: u64,
    data: Vec<u8>,
}

/// A file of the given class with the given sections, followed by the
/// section of names.
fn build(class: u8, machine: u16, entry: u64, sections: Vec<Section>) -> Vec<u8> {
    let wide = class == 2;
    let header_size = if wide { 64 } else { 52 };
    let entry_size = if wide { 64 } else { 40 };
    let mut names = vec![0u8];
    let mut name_offsets = Vec::new();
    for s in &sections {
        name_offsets.push(names.len() as u32);
        names.extend_from_slice(s.name.as_bytes());
        names.push(0);
    }
    let names_name = names.len() as u32;
    names.extend_from_slice(b".shstrtab\0");

    let mut file = vec![0u8; header_size];
    let mut placed = Vec::new();
    for s in &sections {
        placed.push(file.len() as u64);
        file.extend_from_slice(&s.data);
    }
    let names_at = file.len() as u64;
    file.extend_from_slice(&names);
    let table_at = file.len() as u64;

    let word = |out: &mut Vec<u8>, v: u64| {
        if wide {
            out.extend_from_slice(&v.to_le_bytes());
        } else {
            out.extend_from_slice(&(v as u32).to_le_bytes());
        }
    };
    let header = |out: &mut Vec<u8>, name: u32, kind: u32, addr: u64, offset: u64, size: u64| {
        let start = out.len();
        out.extend_from_slice(&name.to_le_bytes());
        out.extend_from_slice(&kind.to_le_bytes());
        word(out, 0);
        word(out, addr);
        word(out, offset);
        word(out, size);
        out.resize(start + entry_size, 0);
    };
    header(&mut file, 0, 0, 0, 0, 0);
    for (i, s) in sections.iter().enumerate() {
        header(&mut file, name_offsets[i], s.kind, s.addr, placed[i], s.data.len() as u64);
    }
    header(&mut file, names_name, 3, 0, names_at, names.len() as u64);

    file[0..4].copy_from_slice(b"\x7fELF");
    file[4] = class;
    file[5] = 1;
    file[6] = 1;
    file[16..18].copy_from_slice(&2u16.to_le_bytes());
    file[18..20].copy_from_slice(&machine.to_le_bytes());
    let count = (sections.len() + 2) as u16;
    if wide {
        file[24..32].copy_from_slice(&entry.to_le_bytes());
        file[40..48].copy_from_slice(&table_at.to_le_bytes());
        file[58..60].copy_from_slice(&64u16.to_le_bytes());
        file[60..62].copy_from_slice(&count.to_le_bytes());
        file[62..64].copy_from_slice(&(count - 1).to_le_bytes());
    } else {
        file[24..28].copy_from_slice(&(entry as u32).to_le_bytes());
        file[32..36].copy_from_slice(&(table_at as u32).to_le_bytes());
        file[46..48].copy_from_slice(&40u16.to_le_bytes());
        file[48..50].copy_from_slice(&count.to_le_bytes());
        file[50..52].copy_from_slice(&(count - 1).to_le_bytes());
    }
    file
}

fn words(program: &[u32]) -> Vec<u8> {
    let mut bytes = Vec::new();
    for w in program {
        bytes.extend_from_slice(&w.to_le_bytes());
    }
    bytes
}

fn test_program(class: u8) -> Vec<u8> {
    build(
        class,
        243,
        BASE,
        vec![
            Section {
                name: ".text.init",
                kind: 1,
                addr: BASE,
                data: words(&[
                    0x0000_1317, // auipc t1, 1
                    0x0010_0293, // addi t0, x0, 1
                    0x0053_2023, // sw t0, 0(t1)
                    0x0000_006f, // jal x0, 0
                ]),
            },
            Section { name: ".symtab", kind: 2, addr: 0, data: vec![0xaa; 24] },
            Section { name: ".tohost", kind: 1, addr: BASE + 0x1000, data: vec![0; 8] },
        ],
    )
}

#[test]
fn parses_a_64_bit_file() {
    let file = test_program(2);
    let image = parse(&file).unwrap();
    assert_eq!(image.e_machine, 243);
    assert_eq!(image.ei_class, 2);
    assert_eq!(image.e_entry, BASE);
    assert_eq!(image.tohost, Some(BASE + 0x1000));
    assert_eq!(image.sections.len(), 2);
    assert_eq!(image.sections[0].sh_addr, BASE);
    assert_eq!(image.sections[0].sh_offset, 64);
    assert_eq!(image.sections[0].data.len(), 16);
    assert_eq!(image.sections[0].data[0..4], [0x17, 0x13, 0x00, 0x00]);
    assert_eq!(image.sections[1].sh_addr, BASE + 0x1000);
    assert_eq!(image.sections[1].data, vec![0u8; 8]);
}

#[test]
fn parses_a_32_bit_file() {
    let file = test_program(1);
    let image = parse(&file).unwrap();
    assert_eq!(image.ei_class, 1);
    assert_eq!(image.e_entry, BASE);
    assert_eq!(image.tohost, Some(BASE + 0x1000));
    assert_eq!(image.sections.len(), 2);
    assert_eq!(image.sections[0].sh_offset, 52);
    assert_eq!(image.sections[0].data.len(), 16);
}

#[test]
fn headers_are_read_field_by_field() {
    let file = test_program(2);
    let h = read_file_header(&file).unwrap();
    assert_eq!(h.e_shentsize, 64);
    assert_eq!(h.e_shnum, 5);
    assert_eq!(h.e_shstrndx, 4);
    let text = read_section_header(&file, &h, 1).unwrap();
    assert_eq!(text.sh_name, 1);
    assert_eq!(text.sh_type, 1);
    assert_eq!(text.sh_addr, BASE);
    assert_eq!(text.sh_offset, 64);
    assert_eq!(text.sh_size, 16);
    assert!(read_section_header(&file, &h, 5).is_none());
}

#[test]
fn program_without_the_section_has_no_tohost() {
    let file = build(
        2,
        243,
        BASE,
        vec![
            Section { name: ".text", kind: 1, addr: BASE, data: vec![0x13, 0, 0, 0] },
            Section { name: ".tohost2", kind: 1, addr: BASE + 0x100, data: vec![0; 8] },
            Section { name: ".tohos", kind: 1, addr: BASE + 0x200, data: vec![0; 8] },
        ],
    );
    let image = parse(&file).unwrap();
    assert_eq!(image.sections.len(), 3);
    assert_eq!(image.tohost, None);
}

#[test]
fn rejects_what_is_no_elf_file() {
    assert!(parse(&vec![]).is_none());
    assert!(parse(&vec![0u8; 64]).is_none());
    let mut file = test_program(2);
    file[1] = b'F';
    assert!(parse(&file).is_none());
    // a header that is cut short
    let file = test_program(2);
    assert!(parse(&file[..60].to_vec()).is_none());
}

#[test]
fn rejects_a_file_that_is_cut_short() {
    let file = test_program(2);
    // the section header table is incomplete
    assert!(parse(&file[..file.len() - 1].to_vec()).is_none());
    // a section lies beyond the end of the file
    let mut file = test_program(2);
    let table = u64::from_le_bytes(file[40..48].try_into().unwrap()) as usize;
    let size_of_text = table + 64 + 32;
    file[size_of_text..size_of_text + 8].copy_from_slice(&0x10_0000u64.to_le_bytes());
    assert!(parse(&file).is_none());
}

#[test]
fn other_machines_are_parsed_and_left_to_the_loader() {
    let file = build(2, 62, 0x40_0000, vec![]);
    let image = parse(&file).unwrap();
    assert_eq!(image.e_machine, 62);
    assert_eq!(image.e_entry, 0x40_0000);
    assert!(image.sections.is_empty());
}

#[test]
fn test_program_runs_from_its_file() {
    let file = test_program(2);
    let image = parse(&file).unwrap();
    let mut e = Emulator::new(true);
    assert_eq!(e.load_program(&image), Ok(()));
    assert_eq!(e.run(100), RunOutcome::Exited(Ok(1)));
}
