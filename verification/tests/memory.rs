use riscv_emu::memory::Memory;

#[test]
fn new_memory_is_zeroed() {
    let m = Memory::new(64);
    assert_eq!(m.size(), 64);
    assert_eq!(m.read64(0), 0);
    assert_eq!(m.read8(63), 0);
}

#[test]
fn words_are_little_endian() {
    let mut m = Memory::new(16);
    m.write32(4, 0x1122_3344);
    assert_eq!(m.read8(4), 0x44);
    assert_eq!(m.read8(5), 0x33);
    assert_eq!(m.read8(6), 0x22);
    assert_eq!(m.read8(7), 0x11);
    assert_eq!(m.read16(4), 0x3344);
    assert_eq!(m.read16(6), 0x1122);
}

#[test]
fn round_trip_of_every_width() {
    let mut m = Memory::new(32);
    m.write8(1, 0xab);
    assert_eq!(m.read8(1), 0xab);
    m.write16(3, 0xbeef);
    assert_eq!(m.read16(3), 0xbeef);
    m.write32(9, 0xdead_beef);
    assert_eq!(m.read32(9), 0xdead_beef);
    m.write64(17, 0x0123_4567_89ab_cdef);
    assert_eq!(m.read64(17), 0x0123_4567_89ab_cdef);
    // neighbours are untouched
    assert_eq!(m.read8(0), 0);
    assert_eq!(m.read8(2), 0);
    assert_eq!(m.read8(25), 0);
}

#[test]
fn doubleword_is_made_of_its_bytes() {
    let mut m = Memory::new(8);
    for i in 0..8u64 {
        m.write8(i, (i + 1) as u8);
    }
    assert_eq!(m.read64(0), 0x0807_0605_0403_0201);
}

#[test]
fn initialize_copies_the_image_to_offset_zero() {
    let mut m = Memory::new(8);
    m.write8(5, 0x77);
    m.initialize(vec![1, 2, 3]);
    assert_eq!(m.read_bytes(0, 8), vec![1, 2, 3, 0, 0, 0x77, 0, 0]);
}

#[test]
fn bulk_access_and_range_check() {
    let mut m = Memory::new(10);
    m.write_bytes(6, &vec![9, 8, 7, 6]);
    assert_eq!(m.read_bytes(5, 5), vec![0, 9, 8, 7, 6]);
    assert!(m.in_range(6, 4));
    assert!(!m.in_range(7, 4));
    assert!(!m.in_range(u64::MAX, 2));
    let d = Memory::from_bytes(vec![5, 6]);
    assert_eq!(d.size(), 2);
    assert_eq!(d.read16(0), 0x0605);
}
