use riscv_emu::cpu::cpu::PrivilegeMode;
use riscv_emu::cpu::cpu::Xlen;
use riscv_emu::cpu::trap::{Exception, Trap};
use riscv_emu::mmu::{AccessType, Mmu};

const ROOT: u64 = 0x8010_0000;
const L1: u64 = 0x8010_1000;
const L0: u64 = 0x8010_2000;
const PAGE: u64 = 0x8020_0000;

const V: u64 = 0x01;
const R: u64 = 0x02;
const W: u64 = 0x04;
const X: u64 = 0x08;
const U: u64 = 0x10;
const A: u64 = 0x40;
const D: u64 = 0x80;

fn pte(pa: u64, flags: u64) -> u64 {
    ((pa >> 12) << 10) | flags
}

/// Maps the virtual page 0x1000 to `PAGE` with `flags`, for Sv39.
fn sv39(flags: u64) -> Mmu {
    let mut mmu = Mmu::new();
    let bus = mmu.get_bus();
    bus.write64(ROOT, pte(L1, V)).unwrap();
    bus.write64(L1, pte(L0, V)).unwrap();
    bus.write64(L0 + 8, pte(PAGE, flags)).unwrap();
    mmu.update_satp((8 << 60) | (ROOT >> 12));
    mmu.update_privilege(PrivilegeMode::Supervisor);
    mmu
}

fn fault(exception: Exception, value: u64) -> Result<u64, Trap> {
    Err(Trap { exception, value })
}

#[test]
fn bare_mode_is_identity() {
    let mut mmu = Mmu::new();
    mmu.update_privilege(PrivilegeMode::Supervisor);
    for va in [0u64, 0x1234, 0x8000_0000, 0xffff_ffff_ffff_ffff] {
        assert_eq!(mmu.translate(va, AccessType::Load), Ok(va));
        assert_eq!(mmu.translate(va, AccessType::Store), Ok(va));
        assert_eq!(mmu.translate(va, AccessType::Fetch), Ok(va));
    }
}

#[test]
fn machine_mode_is_not_translated() {
    let mut mmu = sv39(V | R);
    mmu.update_privilege(PrivilegeMode::Machine);
    assert_eq!(mmu.translate(0x1234, AccessType::Load), Ok(0x1234));
}

#[test]
fn sv39_walks_three_levels() {
    let mut mmu = sv39(V | R | W | X);
    assert_eq!(mmu.translate(0x1234, AccessType::Load), Ok(PAGE + 0x234));
    assert_eq!(mmu.translate(0x1ff8, AccessType::Fetch), Ok(PAGE + 0xff8));
    // the neighbouring pages are not mapped
    assert_eq!(mmu.translate(0x0234, AccessType::Load), fault(Exception::LoadPageFault, 0x0234));
    assert_eq!(mmu.translate(0x2000, AccessType::Store), fault(Exception::StorePageFault, 0x2000));
    assert_eq!(
        mmu.translate(0x4000_0000, AccessType::Fetch),
        fault(Exception::InstructionPageFault, 0x4000_0000)
    );
}

#[test]
fn walk_sets_accessed_and_dirty() {
    let mut mmu = sv39(V | R | W);
    assert_eq!(mmu.translate(0x1000, AccessType::Load), Ok(PAGE));
    assert_eq!(mmu.get_bus().read64(L0 + 8), Ok(pte(PAGE, V | R | W | A)));
    assert_eq!(mmu.translate(0x1000, AccessType::Store), Ok(PAGE));
    assert_eq!(mmu.get_bus().read64(L0 + 8), Ok(pte(PAGE, V | R | W | A | D)));
}

#[test]
fn permissions_are_checked() {
    let mut mmu = sv39(V | R);
    assert_eq!(mmu.translate(0x1000, AccessType::Load), Ok(PAGE));
    assert_eq!(mmu.translate(0x1000, AccessType::Store), fault(Exception::StorePageFault, 0x1000));
    assert_eq!(
        mmu.translate(0x1000, AccessType::Fetch),
        fault(Exception::InstructionPageFault, 0x1000)
    );
    // execute-only pages are readable with MXR only
    let mut mmu = sv39(V | X);
    assert_eq!(mmu.translate(0x1000, AccessType::Load), fault(Exception::LoadPageFault, 0x1000));
    mmu.update_mstatus(1 << 19);
    assert_eq!(mmu.translate(0x1000, AccessType::Load), Ok(PAGE));
}

#[test]
fn user_pages_and_supervisor_access() {
    let mut mmu = sv39(V | R | W | X | U);
    assert_eq!(mmu.translate(0x1000, AccessType::Load), fault(Exception::LoadPageFault, 0x1000));
    mmu.update_mstatus(1 << 18);
    assert_eq!(mmu.translate(0x1000, AccessType::Load), Ok(PAGE));
    assert_eq!(
        mmu.translate(0x1000, AccessType::Fetch),
        fault(Exception::InstructionPageFault, 0x1000)
    );
    mmu.update_privilege(PrivilegeMode::User);
    assert_eq!(mmu.translate(0x1000, AccessType::Fetch), Ok(PAGE));
    let mut mmu = sv39(V | R);
    mmu.update_privilege(PrivilegeMode::User);
    assert_eq!(mmu.translate(0x1000, AccessType::Load), fault(Exception::LoadPageFault, 0x1000));
}

#[test]
fn mprv_makes_loads_use_the_previous_mode() {
    let mut mmu = sv39(V | R | W);
    mmu.update_privilege(PrivilegeMode::Machine);
    // MPRV set, MPP = supervisor
    mmu.update_mstatus((1 << 17) | (1 << 11));
    assert_eq!(mmu.translate(0x1000, AccessType::Load), Ok(PAGE));
    assert_eq!(mmu.translate(0x1000, AccessType::Fetch), Ok(0x1000));
}

#[test]
fn non_canonical_addresses_fault() {
    let mut mmu = sv39(V | R);
    assert_eq!(
        mmu.translate(0x0000_0080_0000_1000, AccessType::Load),
        fault(Exception::LoadPageFault, 0x0000_0080_0000_1000)
    );
}

#[test]
fn invalid_and_reserved_entries_fault() {
    let mut mmu = sv39(R | W);
    assert_eq!(mmu.translate(0x1000, AccessType::Load), fault(Exception::LoadPageFault, 0x1000));
    let mut mmu = sv39(V | W);
    assert_eq!(mmu.translate(0x1000, AccessType::Load), fault(Exception::LoadPageFault, 0x1000));
    // a pointer at the last level
    let mut mmu = sv39(V);
    assert_eq!(mmu.translate(0x1000, AccessType::Load), fault(Exception::LoadPageFault, 0x1000));
}

#[test]
fn page_tables_outside_dram_are_an_access_fault() {
    let mut mmu = Mmu::new();
    mmu.update_satp((8 << 60) | 0x10);
    mmu.update_privilege(PrivilegeMode::Supervisor);
    assert_eq!(mmu.translate(0x1000, AccessType::Load), fault(Exception::LoadAccessFault, 0x1000));
}

#[test]
fn superpages() {
    let mut mmu = Mmu::new();
    // a 2 MiB leaf in the level-1 table
    mmu.get_bus().write64(ROOT, pte(L1, V)).unwrap();
    mmu.get_bus().write64(L1 + 8, pte(0x8040_0000, V | R)).unwrap();
    // a misaligned one
    mmu.get_bus().write64(L1 + 16, pte(0x8040_1000, V | R)).unwrap();
    mmu.update_satp((8 << 60) | (ROOT >> 12));
    mmu.update_privilege(PrivilegeMode::Supervisor);
    assert_eq!(mmu.translate(0x0020_0000, AccessType::Load), Ok(0x8040_0000));
    assert_eq!(mmu.translate(0x0021_2345, AccessType::Load), Ok(0x8041_2345));
    assert_eq!(
        mmu.translate(0x0040_0000, AccessType::Load),
        fault(Exception::LoadPageFault, 0x0040_0000)
    );
}

#[test]
fn stale_translations_live_until_the_fence() {
    let mut mmu = sv39(V | R | W);
    assert_eq!(mmu.translate(0x1000, AccessType::Load), Ok(PAGE));
    // unmap the page: the cached translation still answers
    mmu.get_bus().write64(L0 + 8, 0).unwrap();
    assert_eq!(mmu.translate(0x1008, AccessType::Load), Ok(PAGE + 8));
    mmu.sfence_vma(0, 0);
    assert_eq!(mmu.translate(0x1008, AccessType::Load), fault(Exception::LoadPageFault, 0x1008));
}

#[test]
fn fence_for_one_page_leaves_the_others() {
    let mut mmu = sv39(V | R);
    mmu.get_bus().write64(L0 + 16, pte(PAGE + 0x1000, V | R)).unwrap();
    assert_eq!(mmu.translate(0x1000, AccessType::Load), Ok(PAGE));
    assert_eq!(mmu.translate(0x2000, AccessType::Load), Ok(PAGE + 0x1000));
    mmu.get_bus().write64(L0 + 8, 0).unwrap();
    mmu.get_bus().write64(L0 + 16, 0).unwrap();
    mmu.sfence_vma(0x1000, 0);
    assert_eq!(mmu.translate(0x1000, AccessType::Load), fault(Exception::LoadPageFault, 0x1000));
    assert_eq!(mmu.translate(0x2000, AccessType::Load), Ok(PAGE + 0x1000));
}

#[test]
fn sv32_walks_two_levels() {
    let mut mmu = Mmu::new();
    mmu.update_xlen(Xlen::X32);
    // root entry 0 points at the level-0 table; its entry 1 maps 0x1000
    mmu.get_bus().write32(ROOT, (((L0 >> 12) << 10) | V) as u32).unwrap();
    mmu.get_bus().write32(L0 + 4, (((PAGE >> 12) << 10) | V | R | W) as u32).unwrap();
    // root entry 1 is a 4 MiB leaf
    mmu.get_bus().write32(ROOT + 4, (((0x8040_0000u64 >> 12) << 10) | V | R) as u32).unwrap();
    mmu.update_satp((1 << 31) | (ROOT >> 12));
    mmu.update_privilege(PrivilegeMode::Supervisor);
    assert_eq!(mmu.translate(0x1abc, AccessType::Store), Ok(PAGE + 0xabc));
    assert_eq!(mmu.get_bus().read32(L0 + 4), Ok((((PAGE >> 12) << 10) | V | R | W | A | D) as u32));
    assert_eq!(mmu.translate(0x0040_1234, AccessType::Load), Ok(0x8040_1234));
    assert_eq!(mmu.translate(0x0080_0000, AccessType::Load), fault(Exception::LoadPageFault, 0x0080_0000));
}

#[test]
fn loads_and_stores_go_through_translation() {
    let mut mmu = sv39(V | R | W);
    assert_eq!(mmu.write32(0x1010, 0xdead_beef), Ok(()));
    assert_eq!(mmu.read32(0x1010), Ok(0xdead_beef));
    assert_eq!(mmu.get_bus().read32(PAGE + 0x10), Ok(0xdead_beef));
    assert_eq!(mmu.read8(0x1011), Ok(0xbe));
    assert_eq!(mmu.read16(0x1012), Ok(0xdead));
    assert_eq!(mmu.write64(0x1018, 0x0102_0304_0506_0708), Ok(()));
    assert_eq!(mmu.read64(0x1018), Ok(0x0102_0304_0506_0708));
    assert_eq!(mmu.write8(0x1018, 0xff), Ok(()));
    assert_eq!(mmu.write16(0x101a, 0xeeee), Ok(()));
    assert_eq!(mmu.read64(0x1018), Ok(0x0102_0304_eeee_07ff));
}

#[test]
fn misaligned_accesses_are_split() {
    let mut mmu = Mmu::new();
    let a = 0x8000_0101;
    assert_eq!(mmu.write64(a, 0x1122_3344_5566_7788), Ok(()));
    assert_eq!(mmu.read64(a), Ok(0x1122_3344_5566_7788));
    assert_eq!(mmu.read8(a), Ok(0x88));
    assert_eq!(mmu.read32(a + 3), Ok(0x2233_4455));
    assert_eq!(mmu.read16(a + 7), Ok(0x0011));
}

#[test]
fn misaligned_access_across_a_page_boundary() {
    let mut mmu = sv39(V | R | W);
    // 0x1ffe..0x2002 straddles into the unmapped page 0x2000
    assert_eq!(
        mmu.write32(0x1ffe, 0xaabb_ccdd),
        Err(Trap { exception: Exception::StorePageFault, value: 0x2000 })
    );
    // the bytes before the boundary were written
    assert_eq!(mmu.read16(0x1ffe), Ok(0xccdd));
    assert_eq!(
        mmu.read32(0x1ffe),
        Err(Trap { exception: Exception::LoadPageFault, value: 0x2000 })
    );
}

#[test]
fn straddling_a_region_boundary_is_an_access_fault() {
    let mut mmu = Mmu::new();
    // the last byte of the serial port and the first of the disk
    assert_eq!(
        mmu.read16(0x1000_0fff),
        Err(Trap { exception: Exception::LoadAccessFault, value: 0x1000_1000 })
    );
    // the last bytes of DRAM and what lies beyond
    let end = 0x8000_0000u64 + 0x800_0000;
    assert_eq!(
        mmu.write32(end - 2, 0),
        Err(Trap { exception: Exception::StoreAccessFault, value: end })
    );
}

#[test]
fn narrow_access_to_a_word_device_is_an_access_fault() {
    let mut mmu = Mmu::new();
    assert_eq!(
        mmu.read8(0x0200_0000),
        Err(Trap { exception: Exception::LoadAccessFault, value: 0x0200_0000 })
    );
    assert_eq!(
        mmu.write16(0x0c00_0004, 1),
        Err(Trap { exception: Exception::StoreAccessFault, value: 0x0c00_0004 })
    );
    assert_eq!(mmu.write32(0x0c00_0004, 1), Ok(()));
    assert_eq!(mmu.read32(0x0c00_0004), Ok(1));
}

#[test]
fn fetch_reads_one_or_two_parcels() {
    let mut mmu = Mmu::new();
    let a = 0x8000_0000;
    mmu.write32(a, 0x0010_0513).unwrap();
    mmu.write16(a + 4, 0x4505).unwrap();
    mmu.write16(a + 6, 0xffff).unwrap();
    assert_eq!(mmu.fetch(a), Ok(0x0010_0513));
    // a compressed instruction: the parcel that follows is not part of it
    assert_eq!(mmu.fetch(a + 4), Ok(0x4505));
    // a 32-bit instruction at an address that is no multiple of four
    mmu.write32(a + 10, 0x0010_0513).unwrap();
    assert_eq!(mmu.fetch(a + 10), Ok(0x0010_0513));
}

#[test]
fn fetch_faults() {
    let mut mmu = Mmu::new();
    assert_eq!(
        mmu.fetch(0x1000),
        Err(Trap { exception: Exception::InstructionAccessFault, value: 0x1000 })
    );
    // a compressed instruction in the last parcel of DRAM can be fetched
    let end = 0x8000_0000u64 + 0x800_0000;
    mmu.write16(end - 2, 0x4505).unwrap();
    assert_eq!(mmu.fetch(end - 2), Ok(0x4505));
    // the first half of a 32-bit instruction there cannot be completed
    mmu.write16(end - 2, 0x0513).unwrap();
    assert_eq!(
        mmu.fetch(end - 2),
        Err(Trap { exception: Exception::InstructionAccessFault, value: end })
    );
}

#[test]
fn direct_read_is_physical() {
    let mut mmu = sv39(V | R | W);
    mmu.get_bus().write32(PAGE, 0x1234_5678).unwrap();
    assert_eq!(mmu.read32_direct(PAGE), Ok(0x1234_5678));
    assert_eq!(
        mmu.read32_direct(0x1000),
        Err(Trap { exception: Exception::LoadAccessFault, value: 0x1000 })
    );
}
