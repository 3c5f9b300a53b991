use riscv_emu::memory::Memory;
use riscv_emu::peripherals::fu540_c000::clint::Clint;
use riscv_emu::peripherals::fu540_c000::plic::Plic;
use riscv_emu::peripherals::uart::Uart;
use riscv_emu::peripherals::virtio::Virtio;

#[test]
fn clint_timer_counts_ticks() {
    let mut c = Clint::new();
    assert_eq!(c.read(0xbff8), 0);
    c.tick();
    c.tick();
    assert_eq!(c.read(0xbff8), 2);
    assert_eq!(c.read(0xbffc), 0);
}

#[test]
fn clint_doubleword_registers_are_two_words() {
    let mut c = Clint::new();
    c.write(0x4000, 0x89ab_cdef);
    c.write(0x4004, 0x0123_4567);
    assert_eq!(c.mtime_compare, 0x0123_4567_89ab_cdef);
    assert_eq!(c.read(0x4000), 0x89ab_cdef);
    assert_eq!(c.read(0x4004), 0x0123_4567);
    c.write(0xbffc, 1);
    assert_eq!(c.mtime, 0x1_0000_0000);
    // offsets that hold no register read zero and ignore writes
    c.write(0x10, 7);
    assert_eq!(c.read(0x10), 0);
}

#[test]
fn clint_timer_interrupt_iff_time_reaches_compare() {
    let mut c = Clint::new();
    c.write(0x4000, 2);
    assert!(!c.is_pending_timer_interrupt(0));
    c.tick();
    assert!(!c.is_pending_timer_interrupt(0));
    c.tick();
    assert!(c.is_pending_timer_interrupt(0));
    // the device serves hart 0 only
    assert!(!c.is_pending_timer_interrupt(1));
}

#[test]
fn clint_software_interrupt_is_bit_0_of_msip() {
    let mut c = Clint::new();
    assert!(!c.is_pending_software_interrupt(0));
    c.write(0, 0xffff_ffff);
    assert_eq!(c.read(0), 1);
    assert!(c.is_pending_software_interrupt(0));
    c.write(0, 2);
    assert!(!c.is_pending_software_interrupt(0));
}

#[test]
fn clint_timer_wraps() {
    let mut c = Clint::new();
    c.write(0xbff8, 0xffff_ffff);
    c.write(0xbffc, 0xffff_ffff);
    c.tick();
    assert_eq!(c.mtime, 0);
}

fn plic_with_source(source: u32, priority: u32, context: u64) -> Plic {
    let mut p = Plic::new();
    p.write(4 * source as u64, priority);
    p.write(0x2000 + 0x80 * context, 1 << source);
    p
}

#[test]
fn plic_latches_an_enabled_source() {
    let mut p = plic_with_source(10, 1, 1);
    let lines = p.tick(0, vec![10]);
    assert_eq!(lines, vec![false, true]);
    assert_eq!(p.read(0x1000), 1 << 10);
}

#[test]
fn plic_threshold_masks_the_line_but_not_the_claim() {
    let mut p = plic_with_source(10, 1, 1);
    p.write(0x20_1000, 1);
    let lines = p.tick(0, vec![10]);
    assert_eq!(lines, vec![false, false]);
    assert_eq!(p.read(0x20_1004), 10);
}

#[test]
fn plic_claim_takes_the_highest_priority_and_the_lowest_id() {
    let mut p = Plic::new();
    p.write(4 * 3, 2);
    p.write(4 * 5, 7);
    p.write(4 * 9, 7);
    p.write(0x2000, (1 << 3) | (1 << 5) | (1 << 9));
    p.tick(0, vec![9, 3, 5]);
    assert_eq!(p.best(0), 5);
    assert_eq!(p.read(0x20_0004), 5);
    assert_eq!(p.read(0x20_0004), 9);
    assert_eq!(p.read(0x20_0004), 3);
    assert_eq!(p.read(0x20_0004), 0);
}

#[test]
fn plic_claim_complete_and_next_assertion() {
    let mut p = plic_with_source(10, 1, 1);
    p.tick(0, vec![10]);
    assert_eq!(p.read(0x20_1004), 10);
    assert_eq!(p.read(0x1000), 0);
    // in service: an asserted line is not latched
    let lines = p.tick(0, vec![10]);
    assert_eq!(lines, vec![false, false]);
    assert_eq!(p.read(0x1000), 0);
    // completed: the next assertion makes the source pending again
    p.write(0x20_1004, 10);
    let lines = p.tick(0, vec![10]);
    assert_eq!(lines, vec![false, true]);
    assert_eq!(p.read(0x1000), 1 << 10);
    assert_eq!(p.read(0x20_1004), 10);
}

#[test]
fn plic_ignores_sources_without_priority_or_enable() {
    let mut p = Plic::new();
    p.write(0x2000, 1 << 4);
    assert_eq!(p.tick(0, vec![4]), vec![false, false]);
    assert_eq!(p.read(0x20_0004), 0);
    p.write(4 * 4, 1);
    assert_eq!(p.read(0x20_0004), 4);
    // source 0 does not exist, nor do sources of 32 and more
    let mut q = Plic::new();
    q.write(0x2000, 0xffff_ffff);
    assert_eq!(q.read(0x2000), 0xffff_fffe);
    q.tick(0, vec![0, 32, 1000]);
    assert_eq!(q.read(0x1000), 0);
}

#[test]
fn plic_registers_keep_three_priority_bits() {
    let mut p = Plic::new();
    p.write(4, 0xff);
    assert_eq!(p.read(4), 7);
    p.write(0x20_0000, 9);
    assert_eq!(p.read(0x20_0000), 1);
    // the pending bits are read-only
    p.write(0x1000, 0xffff_ffff);
    assert_eq!(p.read(0x1000), 0);
}

#[test]
fn uart_transmits_in_order() {
    let mut u = Uart::new();
    u.write(0, b'h');
    u.write(0, b'i');
    assert_eq!(u.take_output(), vec![b'h', b'i']);
    assert_eq!(u.take_output(), Vec::<u8>::new());
}

#[test]
fn uart_receives_one_byte_per_read() {
    let mut u = Uart::new();
    u.push_input(b'a');
    u.push_input(b'b');
    assert_eq!(u.read(5) & 1, 0);
    u.tick();
    assert_eq!(u.read(5), 0x61);
    assert_eq!(u.read(0), b'a');
    assert_eq!(u.read(5), 0x60);
    u.tick();
    assert_eq!(u.read(0), b'b');
    u.tick();
    assert_eq!(u.read(5), 0x60);
}

#[test]
fn uart_raises_the_receive_interrupt_while_enabled() {
    let mut u = Uart::new();
    u.push_input(b'x');
    u.tick();
    assert!(!u.is_irq());
    u.write(1, 0x01);
    u.tick();
    assert!(u.is_irq());
    assert_eq!(u.read(2), 0x04);
    assert_eq!(u.read(0), b'x');
    u.tick();
    assert!(!u.is_irq());
    assert_eq!(u.read(2), 0x01);
}

#[test]
fn uart_raises_the_transmit_interrupt_once_per_byte() {
    let mut u = Uart::new();
    u.write(1, 0x02);
    u.write(0, b'z');
    assert_eq!(u.read(2), 0x02);
    u.write(0, b'y');
    u.tick();
    assert!(u.is_irq());
    u.tick();
    assert!(!u.is_irq());
}

#[test]
fn uart_divisor_latch_hides_the_data_registers() {
    let mut u = Uart::new();
    u.write(3, 0x80);
    u.write(0, 0x12);
    u.write(1, 0x34);
    assert_eq!(u.read(0), 0x12);
    assert_eq!(u.read(1), 0x34);
    assert_eq!(u.take_output(), Vec::<u8>::new());
    u.write(3, 0x03);
    assert_eq!(u.read(1), 0);
    assert_eq!(u.read(3), 0x03);
    u.write(7, 0x5a);
    assert_eq!(u.read(7), 0x5a);
}

#[test]
fn uart_wide_write_goes_byte_by_byte() {
    let mut u = Uart::new();
    u.write_wide(0, 0x1122_3344, 4);
    assert_eq!(u.take_output(), vec![0x44]);
    assert_eq!(u.read(1), 0x03);
    assert_eq!(u.read(3), 0x11);
}

#[test]
fn virtio_identifies_itself() {
    let mut v = Virtio::new(0x8000_0000);
    assert_eq!(v.read(0x000), 0x7472_6976);
    assert_eq!(v.read(0x004), 1);
    assert_eq!(v.read(0x008), 2);
    assert_eq!(v.read(0x00c), 0x554d_4551);
    assert_eq!(v.read(0x034), 8);
    v.init(vec![0u8; 3 * 512 + 100]);
    assert_eq!(v.read(0x100), 3);
    assert_eq!(v.read(0x104), 0);
}

const BASE: u64 = 0x8000_0000;

fn queue(dram: &mut Memory, kind: u32, sector: u64, len: u32) {
    // descriptor table at 0x1000, available ring behind it, used ring at 0x2000
    let desc = 0x1000;
    dram.write64(desc, BASE + 0x3000);
    dram.write32(desc + 8, 16);
    dram.write16(desc + 12, 1);
    dram.write16(desc + 14, 1);
    dram.write64(desc + 16, BASE + 0x4000);
    dram.write32(desc + 24, len);
    dram.write16(desc + 28, 3);
    dram.write16(desc + 30, 2);
    dram.write64(desc + 32, BASE + 0x5000);
    dram.write32(desc + 40, 1);
    dram.write16(desc + 44, 2);
    dram.write16(desc + 46, 0);
    dram.write32(0x3000, kind);
    dram.write64(0x3008, sector);
    dram.write8(0x5000, 0xff);
    let avail = desc + 16 * 8;
    dram.write16(avail + 2, 1);
    dram.write16(avail + 4, 0);
}

fn device(disk: Vec<u8>) -> Virtio {
    let mut v = Virtio::new(BASE);
    v.init(disk);
    v.write(0x028, 0x1000);
    v.write(0x038, 8);
    v.write(0x040, (BASE >> 12) as u32 + 1);
    v
}

#[test]
fn virtio_reads_a_sector_into_guest_memory() {
    let disk: Vec<u8> = (0..1024u32).map(|i| (i % 251) as u8).collect();
    let mut v = device(disk.clone());
    let mut dram = Memory::new(0x8000);
    queue(&mut dram, 0, 1, 512);
    // nothing happens before the guest notifies
    v.tick(&mut dram);
    assert_eq!(dram.read8(0x5000), 0xff);
    assert!(!v.is_irq());
    v.write(0x050, 0);
    v.tick(&mut dram);
    assert_eq!(dram.read_bytes(0x4000, 512), disk[512..1024].to_vec());
    assert_eq!(dram.read8(0x5000), 0);
    // used ring: index 1, entry 0 names descriptor 0 and 512 bytes
    assert_eq!(dram.read16(0x2002), 1);
    assert_eq!(dram.read32(0x2004), 0);
    assert_eq!(dram.read32(0x2008), 512);
    assert!(v.is_irq());
    assert_eq!(v.read(0x060), 1);
    v.write(0x064, 1);
    assert!(!v.is_irq());
    // the request is served once
    dram.write8(0x5000, 0xff);
    v.write(0x050, 0);
    v.tick(&mut dram);
    assert_eq!(dram.read8(0x5000), 0xff);
    assert!(!v.is_irq());
}

#[test]
fn virtio_writes_a_sector_from_guest_memory() {
    let mut v = device(vec![0u8; 1024]);
    let mut dram = Memory::new(0x8000);
    queue(&mut dram, 1, 0, 512);
    let data: Vec<u8> = (0..512u32).map(|i| (i % 7) as u8 + 1).collect();
    dram.write_bytes(0x4000, &data);
    v.write(0x050, 0);
    v.tick(&mut dram);
    assert_eq!(dram.read8(0x5000), 0);
    assert!(v.is_irq());
    // read it back through a second request
    queue(&mut dram, 0, 0, 512);
    dram.write_bytes(0x4000, &vec![0u8; 512]);
    dram.write16(0x1000 + 128 + 2, 2);
    dram.write16(0x1000 + 128 + 6, 0);
    v.write(0x050, 0);
    v.tick(&mut dram);
    assert_eq!(dram.read_bytes(0x4000, 512), data);
    assert_eq!(dram.read16(0x2002), 2);
}

#[test]
fn virtio_reports_an_unsupported_request() {
    let mut v = device(vec![0u8; 1024]);
    let mut dram = Memory::new(0x8000);
    queue(&mut dram, 8, 0, 512);
    v.write(0x050, 0);
    v.tick(&mut dram);
    assert_eq!(dram.read8(0x5000), 2);
    assert_eq!(dram.read16(0x2002), 1);
}

#[test]
fn virtio_leaves_a_request_beyond_the_disk_alone() {
    let mut v = device(vec![0u8; 1024]);
    let mut dram = Memory::new(0x8000);
    queue(&mut dram, 0, 2, 512);
    v.write(0x050, 0);
    v.tick(&mut dram);
    assert_eq!(dram.read8(0x5000), 0xff);
    assert_eq!(dram.read16(0x2002), 0);
    assert!(!v.is_irq());
}
