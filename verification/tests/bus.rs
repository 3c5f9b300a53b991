use riscv_emu::bus::bus::Device;
use riscv_emu::bus::bus_fu540::{locate, BusFu540, Region, DRAM_ADDRESS_START, MAX_DRAM_SIZE};

const UART: u64 = 0x1000_0000;
const CLINT: u64 = 0x0200_0000;
const PLIC: u64 = 0x0c00_0000;
const VIRTIO: u64 = 0x1000_1000;

#[test]
fn memory_map() {
    assert_eq!(locate(0x0200_0000), Region::Timer);
    assert_eq!(locate(0x0200_ffff), Region::Timer);
    assert_eq!(locate(0x0201_0000), Region::Unmapped);
    assert_eq!(locate(0x0c00_0000), Region::Intc);
    assert_eq!(locate(0x0fff_ffff), Region::Intc);
    assert_eq!(locate(0x1000_0000), Region::Uart);
    assert_eq!(locate(0x1000_0fff), Region::Uart);
    assert_eq!(locate(0x1000_1000), Region::Virtio);
    assert_eq!(locate(0x1000_1fff), Region::Virtio);
    assert_eq!(locate(0x1000_2000), Region::Unmapped);
    assert_eq!(locate(0x7fff_ffff), Region::Unmapped);
    assert_eq!(locate(0x8000_0000), Region::Dram);
    assert_eq!(locate(0), Region::Unmapped);
}

#[test]
fn dram_round_trip_of_every_width() {
    let mut bus = BusFu540::new();
    let a = DRAM_ADDRESS_START + 0x100;
    assert_eq!(bus.write8(a, 0x5a), Ok(()));
    assert_eq!(bus.read8(a), Ok(0x5a));
    assert_eq!(bus.write16(a + 2, 0xbeef), Ok(()));
    assert_eq!(bus.read16(a + 2), Ok(0xbeef));
    assert_eq!(bus.write32(a + 4, 0xdead_beef), Ok(()));
    assert_eq!(bus.read32(a + 4), Ok(0xdead_beef));
    assert_eq!(bus.write64(a + 8, 0x0123_4567_89ab_cdef), Ok(()));
    assert_eq!(bus.read64(a + 8), Ok(0x0123_4567_89ab_cdef));
    assert_eq!(bus.read8(a + 8), Ok(0xef));
    assert_eq!(bus.read8(a + 15), Ok(0x01));
}

#[test]
fn dram_ends_after_128_mib() {
    let mut bus = BusFu540::new();
    let end = DRAM_ADDRESS_START + MAX_DRAM_SIZE as u64;
    assert_eq!(bus.write8(end - 1, 1), Ok(()));
    assert_eq!(bus.read8(end - 1), Ok(1));
    assert_eq!(bus.read8(end), Err(()));
    assert_eq!(bus.write8(end, 1), Err(()));
    // an access that straddles the end fails and writes nothing
    assert_eq!(bus.write64(end - 4, 0xffff_ffff_ffff_ffff), Err(()));
    assert_eq!(bus.read32(end - 4), Ok(0x0100_0000));
    assert_eq!(bus.read64(end - 4), Err(()));
    assert_eq!(bus.read64(u64::MAX), Err(()));
}

#[test]
fn unmapped_addresses_fault() {
    let mut bus = BusFu540::new();
    assert_eq!(bus.read8(0), Err(()));
    assert_eq!(bus.read16(0x1000), Err(()));
    assert_eq!(bus.read32(0x1000_2000), Err(()));
    assert_eq!(bus.read64(0x7fff_fff8), Err(()));
    assert_eq!(bus.write8(0, 0), Err(()));
    assert_eq!(bus.write16(0x0201_0000, 0), Err(()));
    assert_eq!(bus.write32(0x1000_2000, 0), Err(()));
    assert_eq!(bus.write64(0x7fff_fff8, 0), Err(()));
}

#[test]
fn word_devices_take_words_only() {
    assert!(!BusFu540::accepts_width(CLINT, 1));
    assert!(!BusFu540::accepts_width(PLIC, 2));
    assert!(!BusFu540::accepts_width(VIRTIO, 1));
    assert!(BusFu540::accepts_width(CLINT, 4));
    assert!(BusFu540::accepts_width(PLIC, 8));
    assert!(BusFu540::accepts_width(UART, 1));
    assert!(BusFu540::accepts_width(DRAM_ADDRESS_START, 2));
    assert!(BusFu540::accepts_width(0, 1));
}

#[test]
fn mmio_byte_concat() {
    // a 32-bit write to the serial port reaches it as four byte writes in
    // ascending order: offset 0 transmits 0x44, offsets 1, 2 and 3 take 0x33,
    // 0x22 and 0x11
    let mut bus = BusFu540::new();
    assert_eq!(bus.write32(UART, 0x1122_3344), Ok(()));
    assert_eq!(bus.take_output(), vec![0x44]);
    assert_eq!(bus.read8(UART + 3), Ok(0x11));
    assert_eq!(bus.read8(UART + 1), Ok(0x03));

    // the same bytes written one by one leave the same port
    let mut other = BusFu540::new();
    assert_eq!(other.write8(UART, 0x44), Ok(()));
    assert_eq!(other.write8(UART + 1, 0x33), Ok(()));
    assert_eq!(other.write8(UART + 2, 0x22), Ok(()));
    assert_eq!(other.write8(UART + 3, 0x11), Ok(()));
    assert_eq!(other.take_output(), vec![0x44]);
    assert_eq!(other.read8(UART + 3), Ok(0x11));
    assert_eq!(other.read8(UART + 1), Ok(0x03));
}

#[test]
fn transmit_order_is_ascending() {
    // with every offset but the first out of the way, four 32-bit writes
    // transmit their low bytes in the order of the writes
    let mut bus = BusFu540::new();
    for word in [0x0000_0044u32, 0x0000_0033, 0x0000_0022, 0x0000_0011] {
        assert_eq!(bus.write32(UART, word), Ok(()));
    }
    assert_eq!(bus.take_output(), vec![0x44, 0x33, 0x22, 0x11]);
}

#[test]
fn uart_wide_read_concatenates_bytes() {
    let mut bus = BusFu540::new();
    bus.push_input(0x41);
    bus.tick();
    // RBR = 0x41, IER = 0, ISR = 1, LCR = 0
    assert_eq!(bus.read32(UART), Ok(0x0001_0041));
    // the read released the receiver buffer: LSR no longer shows data
    assert_eq!(bus.read8(UART + 5), Ok(0x60));
    assert_eq!(bus.write16(UART + 3, 0x0003), Ok(()));
    assert_eq!(bus.read16(UART + 3), Ok(0x0003));
    assert_eq!(bus.write64(UART + 7, 0x5a), Ok(()));
    assert_eq!(bus.read64(UART), Ok(0x5a00_6000_0301_0041));
}

#[test]
fn timer_doubleword_is_low_word_then_high_word() {
    let mut bus = BusFu540::new();
    assert_eq!(bus.write64(CLINT + 0x4000, 0x0123_4567_89ab_cdef), Ok(()));
    assert_eq!(bus.read32(CLINT + 0x4000), Ok(0x89ab_cdef));
    assert_eq!(bus.read32(CLINT + 0x4004), Ok(0x0123_4567));
    assert_eq!(bus.read64(CLINT + 0x4000), Ok(0x0123_4567_89ab_cdef));
    assert_eq!(bus.write32(CLINT, 1), Ok(()));
    assert!(bus.is_pending_software_interrupt(0));
}

#[test]
fn tick_advances_the_timer() {
    let mut bus = BusFu540::new();
    assert_eq!(bus.write64(CLINT + 0x4000, 3), Ok(()));
    assert!(!bus.is_pending_timer_interrupt(0));
    bus.tick();
    bus.tick();
    assert_eq!(bus.mtime(), 2);
    assert!(!bus.is_pending_timer_interrupt(0));
    bus.tick();
    assert_eq!(bus.read64(CLINT + 0xbff8), Ok(3));
    assert!(bus.is_pending_timer_interrupt(0));
}

#[test]
fn tick_routes_the_uart_to_source_10() {
    let mut bus = BusFu540::new();
    assert_eq!(bus.write32(PLIC + 4 * 10, 1), Ok(()));
    assert_eq!(bus.write32(PLIC + 0x2080, 1 << 10), Ok(()));
    assert_eq!(bus.write8(UART + 1, 1), Ok(()));
    assert_eq!(bus.tick(), vec![false, false]);
    bus.push_input(b'k');
    assert_eq!(bus.tick(), vec![false, true]);
    assert_eq!(bus.read32(PLIC + 0x1000), Ok(1 << 10));
    assert_eq!(bus.read32(PLIC + 0x20_1004), Ok(10));
    assert_eq!(bus.read8(UART), Ok(b'k'));
    assert_eq!(bus.write32(PLIC + 0x20_1004, 10), Ok(()));
    assert_eq!(bus.tick(), vec![false, false]);
}

#[test]
fn tick_routes_the_disk_to_source_1() {
    let mut bus = BusFu540::new();
    bus.set_device_data(Device::Disk, vec![7u8; 512]);
    assert_eq!(bus.read32(VIRTIO + 0x100), Ok(1));
    assert_eq!(bus.write32(PLIC + 4, 1), Ok(()));
    assert_eq!(bus.write32(PLIC + 0x2000, 1 << 1), Ok(()));
    let b = DRAM_ADDRESS_START;
    // descriptor table at +0x1000, header at +0x3000, data at +0x4000, status at +0x5000
    assert_eq!(bus.write64(b + 0x1000, b + 0x3000), Ok(()));
    assert_eq!(bus.write32(b + 0x1008, 16), Ok(()));
    assert_eq!(bus.write32(b + 0x100c, 0x0001_0001), Ok(()));
    assert_eq!(bus.write64(b + 0x1010, b + 0x4000), Ok(()));
    assert_eq!(bus.write32(b + 0x1018, 512), Ok(()));
    assert_eq!(bus.write32(b + 0x101c, 0x0002_0003), Ok(()));
    assert_eq!(bus.write64(b + 0x1020, b + 0x5000), Ok(()));
    assert_eq!(bus.write32(b + 0x1028, 1), Ok(()));
    assert_eq!(bus.write32(b + 0x102c, 0x0000_0002), Ok(()));
    assert_eq!(bus.write16(b + 0x1082, 1), Ok(()));
    assert_eq!(bus.write8(b + 0x5000, 0xff), Ok(()));
    assert_eq!(bus.write32(VIRTIO + 0x028, 0x1000), Ok(()));
    assert_eq!(bus.write32(VIRTIO + 0x038, 8), Ok(()));
    assert_eq!(bus.write32(VIRTIO + 0x040, (b >> 12) as u32 + 1), Ok(()));
    assert!(!bus.dma_pending());
    assert_eq!(bus.write32(VIRTIO + 0x050, 0), Ok(()));
    assert!(bus.dma_pending());
    assert_eq!(bus.tick(), vec![true, false]);
    assert_eq!(bus.read64(b + 0x4000), Ok(0x0707_0707_0707_0707));
    assert_eq!(bus.read8(b + 0x5000), Ok(0));
    assert_eq!(bus.read32(PLIC + 0x20_0004), Ok(1));
}

#[test]
fn device_data() {
    let mut bus = BusFu540::new();
    bus.set_device_data(Device::Dram, vec![1, 2, 3, 4]);
    assert_eq!(bus.read32(DRAM_ADDRESS_START), Ok(0x0403_0201));
    assert_eq!(bus.dram().size(), MAX_DRAM_SIZE as u64);
    assert_eq!(bus.get_base_address(Device::Dram), DRAM_ADDRESS_START);
}
