//! The parts of an ELF file that the emulator takes: the machine, the
//! class, the entry, the sections of type `PROGBITS` with their contents,
//! and the address of the section `.tohost`.

use vstd::prelude::*;
use crate::memory::{le_uint, lemma_le_unfold, load};

verus! {

/// `e_machine` of a RISC-V program.
pub const EM_RISCV: u16 = 243;

/// `ei_class` of a 32-bit program.
pub const ELFCLASS32: u8 = 1;

/// `ei_class` of a 64-bit program.
pub const ELFCLASS64: u8 = 2;

/// `sh_type` of a section that holds what the program defines.
pub const SHT_PROGBITS: u32 = 1;

/// A section of type `PROGBITS` with its contents.
pub struct ProgbitsSection {
    /// The address at which the section is to be loaded.
    pub sh_addr: u64,
    /// The offset of the section in the file.
    pub sh_offset: u64,
    /// The bytes of the section.
    pub data: Vec<u8>,
}

/// A parsed ELF file.
pub struct ElfImage {
    pub e_machine: u16,
    pub ei_class: u8,
    /// The address of the first instruction.
    pub e_entry: u64,
    /// The sections of type `PROGBITS`, in the order of the section header
    /// table.
    pub sections: Vec<ProgbitsSection>,
    /// The address of the section `.tohost`, if the program has one.
    pub tohost: Option<u64>,
}

/// A section as a mathematical value.
pub struct SectionView {
    pub sh_addr: u64,
    pub sh_offset: u64,
    pub data: Seq<u8>,
}

/// A section as a mathematical value.
pub open spec fn section_view(s: ProgbitsSection) -> SectionView {
    SectionView { sh_addr: s.sh_addr, sh_offset: s.sh_offset, data: s.data@ }
}

/// The sections of an image as mathematical values.
pub open spec fn section_views(sections: Seq<ProgbitsSection>) -> Seq<SectionView> {
    Seq::new(sections.len(), |i: int| section_view(sections[i]))
}

/// An image as a mathematical value.
pub struct ImageView {
    pub e_machine: u16,
    pub ei_class: u8,
    pub e_entry: u64,
    pub sections: Seq<SectionView>,
    pub tohost: Option<u64>,
}

impl View for ElfImage {
    type V = ImageView;

    open spec fn view(&self) -> ImageView {
        ImageView {
            e_machine: self.e_machine,
            ei_class: self.ei_class,
            e_entry: self.e_entry,
            sections: section_views(self.sections@),
            tohost: self.tohost,
        }
    }
}

/// The fields of the file header that the parser follows.
pub struct FileHeader {
    pub ei_class: u8,
    pub e_machine: u16,
    pub e_entry: u64,
    /// Offset of the section header table.
    pub e_shoff: u64,
    /// Size of one entry of the section header table.
    pub e_shentsize: u16,
    /// Number of entries of the section header table.
    pub e_shnum: u16,
    /// Index of the section that holds the names of the sections.
    pub e_shstrndx: u16,
}

/// One entry of the section header table.
pub struct SectionHeader {
    /// Offset of the section's name in the section of names.
    pub sh_name: u32,
    pub sh_type: u32,
    pub sh_addr: u64,
    pub sh_offset: u64,
    pub sh_size: u64,
}

/// The little-endian value of the `n` bytes of the file from `at` on.
pub open spec fn field_at(bytes: Seq<u8>, at: int, n: int) -> nat {
    le_uint(load(bytes, at, n))
}

/// A field that has 32 bits in a 32-bit file, where it lies at `at32`, and
/// 64 bits in a 64-bit file, where it lies at `at64`.
pub open spec fn word_at(bytes: Seq<u8>, wide: bool, at32: int, at64: int) -> u64 {
    if wide {
        field_at(bytes, at64, 8) as u64
    } else {
        field_at(bytes, at32, 4) as u64
    }
}

/// Size of the file header.
pub open spec fn header_size(wide: bool) -> int {
    if wide {
        64
    } else {
        52
    }
}

/// Size of what the parser reads of a section header.
pub open spec fn section_header_size(wide: bool) -> int {
    if wide {
        64
    } else {
        40
    }
}

/// The name of the section that test programs report to.
pub open spec fn tohost_name() -> Seq<u8> {
    seq![0x2eu8, 0x74u8, 0x6fu8, 0x68u8, 0x6fu8, 0x73u8, 0x74u8]
}

/// The file header, or `None` if the file is too short or does not begin
/// with the magic number. A class other than 64 bits is read with the
/// layout of a 32-bit file.
pub open spec fn file_header(bytes: Seq<u8>) -> Option<FileHeader> {
    if bytes.len() < 52 || bytes[0] != 0x7f || bytes[1] != 0x45 || bytes[2] != 0x4c || bytes[3]
        != 0x46 {
        None
    } else {
        let wide = bytes[4] == ELFCLASS64;
        if bytes.len() < header_size(wide) {
            None
        } else {
            Some(
                FileHeader {
                    ei_class: bytes[4],
                    e_machine: field_at(bytes, 18, 2) as u16,
                    e_entry: word_at(bytes, wide, 24, 24),
                    e_shoff: word_at(bytes, wide, 32, 40),
                    e_shentsize: field_at(
                        bytes,
                        if wide {
                            58
                        } else {
                            46
                        },
                        2,
                    ) as u16,
                    e_shnum: field_at(
                        bytes,
                        if wide {
                            60
                        } else {
                            48
                        },
                        2,
                    ) as u16,
                    e_shstrndx: field_at(
                        bytes,
                        if wide {
                            62
                        } else {
                            50
                        },
                        2,
                    ) as u16,
                },
            )
        }
    }
}

/// The section header at offset `at`, or `None` if it does not lie in the
/// file.
pub open spec fn section_header(bytes: Seq<u8>, wide: bool, at: int) -> Option<SectionHeader> {
    if at + section_header_size(wide) > bytes.len() {
        None
    } else {
        Some(
            SectionHeader {
                sh_name: field_at(bytes, at, 4) as u32,
                sh_type: field_at(bytes, at + 4, 4) as u32,
                sh_addr: word_at(bytes, wide, at + 12, at + 16),
                sh_offset: word_at(bytes, wide, at + 16, at + 24),
                sh_size: word_at(bytes, wide, at + 20, at + 32),
            },
        )
    }
}

/// The header of section `i`.
pub open spec fn nth_header(bytes: Seq<u8>, h: FileHeader, i: int) -> Option<SectionHeader> {
    section_header(bytes, h.ei_class == ELFCLASS64, h.e_shoff + i * h.e_shentsize)
}

/// Whether the string at offset `at` of the file is `name`: the bytes of
/// `name`, then a zero byte.
pub open spec fn is_name(bytes: Seq<u8>, at: int, name: Seq<u8>) -> bool {
    &&& 0 <= at
    &&& at + name.len() < bytes.len()
    &&& load(bytes, at, name.len() as int) == name
    &&& bytes[at + name.len()] == 0
}

/// Whether section `s` is named `.tohost` in the section of names `names`.
pub open spec fn is_tohost(bytes: Seq<u8>, names: Option<SectionHeader>, s: SectionHeader) -> bool {
    match names {
        None => false,
        Some(table) => s.sh_name + tohost_name().len() < table.sh_size && is_name(
            bytes,
            table.sh_offset + s.sh_name,
            tohost_name(),
        ),
    }
}

/// What the first `n` sections give: the `PROGBITS` sections among them
/// with their contents, and the address of the last of these that is named
/// `.tohost`; or `None` if a section header or the contents of a `PROGBITS`
/// section do not lie in the file.
pub open spec fn collected(bytes: Seq<u8>, h: FileHeader, n: nat) -> Option<
    (Seq<SectionView>, Option<u64>),
>
    decreases n,
{
    if n == 0 {
        Some((Seq::<SectionView>::empty(), None::<u64>))
    } else {
        match (collected(bytes, h, (n - 1) as nat), nth_header(bytes, h, n - 1)) {
            (Some((sections, tohost)), Some(s)) => if s.sh_type != SHT_PROGBITS {
                Some((sections, tohost))
            } else if s.sh_offset + s.sh_size > bytes.len() {
                None
            } else {
                Some(
                    (
                        sections.push(
                            SectionView {
                                sh_addr: s.sh_addr,
                                sh_offset: s.sh_offset,
                                data: load(bytes, s.sh_offset as int, s.sh_size as int),
                            },
                        ),
                        if is_tohost(bytes, nth_header(bytes, h, h.e_shstrndx as int), s) {
                            Some(s.sh_addr)
                        } else {
                            tohost
                        },
                    ),
                )
            },
            _ => None,
        }
    }
}

/// The image that an ELF file holds, or `None` if the bytes are no ELF
/// file or the file is cut short.
pub open spec fn parsed(bytes: Seq<u8>) -> Option<ImageView> {
    match file_header(bytes) {
        None => None,
        Some(h) => match collected(bytes, h, h.e_shnum as nat) {
            None => None,
            Some((sections, tohost)) => Some(
                ImageView {
                    e_machine: h.e_machine,
                    ei_class: h.ei_class,
                    e_entry: h.e_entry,
                    sections,
                    tohost,
                },
            ),
        },
    }
}

fn read_u16(bytes: &Vec<u8>, at: usize) -> (r: u16)
    requires
        at + 2 <= bytes@.len(),
    ensures
        r == field_at(bytes@, at as int, 2),
{
    proof {
        lemma_le_unfold(load(bytes@, at as int, 2));
    }
    let _len = bytes.len();
    bytes[at] as u16 + 0x100 * (bytes[at + 1] as u16)
}

fn read_u32(bytes: &Vec<u8>, at: usize) -> (r: u32)
    requires
        at + 4 <= bytes@.len(),
    ensures
        r == field_at(bytes@, at as int, 4),
{
    proof {
        lemma_le_unfold(load(bytes@, at as int, 4));
    }
    let _len = bytes.len();
    bytes[at] as u32 + 0x100 * (bytes[at + 1] as u32) + 0x1_0000 * (bytes[at + 2] as u32)
        + 0x100_0000 * (bytes[at + 3] as u32)
}

fn read_u64(bytes: &Vec<u8>, at: usize) -> (r: u64)
    requires
        at + 8 <= bytes@.len(),
    ensures
        r == field_at(bytes@, at as int, 8),
{
    proof {
        lemma_le_unfold(load(bytes@, at as int, 8));
    }
    let _len = bytes.len();
    bytes[at] as u64 + 0x100 * (bytes[at + 1] as u64) + 0x1_0000 * (bytes[at + 2] as u64)
        + 0x100_0000 * (bytes[at + 3] as u64) + 0x1_0000_0000 * (bytes[at + 4] as u64)
        + 0x100_0000_0000 * (bytes[at + 5] as u64) + 0x1_0000_0000_0000 * (bytes[at + 6] as u64)
        + 0x100_0000_0000_0000 * (bytes[at + 7] as u64)
}

fn read_word(bytes: &Vec<u8>, wide: bool, at32: usize, at64: usize) -> (r: u64)
    requires
        wide ==> at64 + 8 <= bytes@.len(),
        !wide ==> at32 + 4 <= bytes@.len(),
    ensures
        r == word_at(bytes@, wide, at32 as int, at64 as int),
{
    if wide {
        read_u64(bytes, at64)
    } else {
        read_u32(bytes, at32) as u64
    }
}

/// Reads the file header.
pub fn read_file_header(bytes: &Vec<u8>) -> (r: Option<FileHeader>)
    ensures
        r == file_header(bytes@),
{
    if bytes.len() < 52 || bytes[0] != 0x7f || bytes[1] != 0x45 || bytes[2] != 0x4c || bytes[3]
        != 0x46 {
        return None;
    }
    let wide = bytes[4] == ELFCLASS64;
    if wide && bytes.len() < 64 {
        return None;
    }
    Some(
        FileHeader {
            ei_class: bytes[4],
            e_machine: read_u16(bytes, 18),
            e_entry: read_word(bytes, wide, 24, 24),
            e_shoff: read_word(bytes, wide, 32, 40),
            e_shentsize: read_u16(
                bytes,
                if wide {
                    58
                } else {
                    46
                },
            ),
            e_shnum: read_u16(
                bytes,
                if wide {
                    60
                } else {
                    48
                },
            ),
            e_shstrndx: read_u16(
                bytes,
                if wide {
                    62
                } else {
                    50
                },
            ),
        },
    )
}

/// Reads the header of section `i`.
pub fn read_section_header(bytes: &Vec<u8>, h: &FileHeader, i: u16) -> (r: Option<SectionHeader>)
    ensures
        r == nth_header(bytes@, *h, i as int),
{
    let wide = h.ei_class == ELFCLASS64;
    let size: u64 = if wide {
        64
    } else {
        40
    };
    let len = bytes.len() as u64;
    assert((i as u64) * (h.e_shentsize as u64) <= 0xffff * 0xffff) by (nonlinear_arith)
        requires
            i <= 0xffff,
            h.e_shentsize <= 0xffff,
    ;
    let skip = (i as u64) * (h.e_shentsize as u64);
    if len < size || h.e_shoff > len - size || skip > len - size - h.e_shoff {
        return None;
    }
    let at = (h.e_shoff + skip) as usize;
    Some(
        SectionHeader {
            sh_name: read_u32(bytes, at),
            sh_type: read_u32(bytes, at + 4),
            sh_addr: read_word(bytes, wide, at + 12, at + 16),
            sh_offset: read_word(bytes, wide, at + 16, at + 24),
            sh_size: read_word(bytes, wide, at + 20, at + 32),
        },
    )
}

/// Whether section `s` is named `.tohost`.
fn named_tohost(bytes: &Vec<u8>, names: &Option<SectionHeader>, s: &SectionHeader) -> (r: bool)
    ensures
        r == is_tohost(bytes@, *names, *s),
{
    let table = match names {
        None => { return false; },
        Some(table) => table,
    };
    let len = bytes.len() as u64;
    if (s.sh_name as u64) + 7 >= table.sh_size || table.sh_offset >= len || (s.sh_name as u64) + 7
        >= len - table.sh_offset {
        return false;
    }
    let at = (table.sh_offset + s.sh_name as u64) as usize;
    let found = bytes[at] == 0x2e && bytes[at + 1] == 0x74 && bytes[at + 2] == 0x6f && bytes[at + 3]
        == 0x68 && bytes[at + 4] == 0x6f && bytes[at + 5] == 0x73 && bytes[at + 6] == 0x74
        && bytes[at + 7] == 0;
    proof {
        let l = load(bytes@, at as int, 7);
        let t = tohost_name();
        if found {
            assert(l =~= t);
        } else if bytes@[at + 7] == 0 {
            assert(l[0] == bytes@[at as int] && l[1] == bytes@[at + 1] && l[2] == bytes@[at + 2]
                && l[3] == bytes@[at + 3] && l[4] == bytes@[at + 4] && l[5] == bytes@[at + 5]
                && l[6] == bytes@[at + 6]);
            assert(l != t);
        }
    }
    found
}

/// The bytes of the file from `offset` on, `size` of them.
fn contents(bytes: &Vec<u8>, offset: u64, size: u64) -> (r: Vec<u8>)
    requires
        offset + size <= bytes@.len(),
    ensures
        r@ == load(bytes@, offset as int, size as int),
{
    let mut data: Vec<u8> = Vec::new();
    let _len = bytes.len();
    let start = offset as usize;
    let count = size as usize;
    let mut i: usize = 0;
    while i < count
        invariant
            i <= count,
            count == size,
            start == offset,
            start + count <= bytes@.len() <= usize::MAX,
            data@ == bytes@.subrange(start as int, start + i),
        decreases count - i,
    {
        data.push(bytes[start + i]);
        assert(data@ =~= bytes@.subrange(start as int, start + i + 1));
        i += 1;
    }
    data
}

/// Reads an ELF file.
pub fn parse(bytes: &Vec<u8>) -> (r: Option<ElfImage>)
    ensures
        match r {
            Some(image) => parsed(bytes@) == Some(image@),
            None => parsed(bytes@) is None,
        },
{
    let h = match read_file_header(bytes) {
        None => { return None; },
        Some(h) => h,
    };
    let names = read_section_header(bytes, &h, h.e_shstrndx);
    let mut sections: Vec<ProgbitsSection> = Vec::new();
    let mut tohost: Option<u64> = None;
    let mut i: u16 = 0;
    assert(section_views(sections@) =~= Seq::<SectionView>::empty());
    while i < h.e_shnum
        invariant
            i <= h.e_shnum,
            file_header(bytes@) == Some(h),
            names == nth_header(bytes@, h, h.e_shstrndx as int),
            collected(bytes@, h, i as nat) == Some((section_views(sections@), tohost)),
        decreases h.e_shnum - i,
    {
        let s = match read_section_header(bytes, &h, i) {
            None => {
                proof {
                    lemma_collected_stays_none(bytes@, h, (i + 1) as nat, h.e_shnum as nat);
                }
                return None;
            },
            Some(s) => s,
        };
        if s.sh_type == SHT_PROGBITS {
            let len = bytes.len() as u64;
            if s.sh_offset > len || s.sh_size > len - s.sh_offset {
                assert(collected(bytes@, h, (i + 1) as nat) is None);
                proof {
                    lemma_collected_stays_none(bytes@, h, (i + 1) as nat, h.e_shnum as nat);
                }
                return None;
            }
            let ghost before = section_views(sections@);
            let section = ProgbitsSection {
                sh_addr: s.sh_addr,
                sh_offset: s.sh_offset,
                data: contents(bytes, s.sh_offset, s.sh_size),
            };
            sections.push(section);
            assert(section_views(sections@) =~= before.push(
                SectionView {
                    sh_addr: s.sh_addr,
                    sh_offset: s.sh_offset,
                    data: load(bytes@, s.sh_offset as int, s.sh_size as int),
                },
            ));
            if named_tohost(bytes, &names, &s) {
                tohost = Some(s.sh_addr);
            }
        }
        i += 1;
    }
    Some(
        ElfImage {
            e_machine: h.e_machine,
            ei_class: h.ei_class,
            e_entry: h.e_entry,
            sections,
            tohost,
        },
    )
}

/// Once the sections cannot be collected, more of them cannot either.
pub proof fn lemma_collected_stays_none(bytes: Seq<u8>, h: FileHeader, n: nat, m: nat)
    requires
        collected(bytes, h, n) is None,
        n <= m,
    ensures
        collected(bytes, h, m) is None,
    decreases m,
{
    if n < m {
        lemma_collected_stays_none(bytes, h, n, (m - 1) as nat);
    }
}

} // verus!
