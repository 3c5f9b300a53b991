//! A virtio block device behind the legacy memory-mapped transport. The
//! guest places requests in one virtqueue in its memory; on a notification
//! the device serves them at its next tick, copying sectors between the
//! disk image and guest memory.

use vstd::prelude::*;
use crate::memory::{le_bytes, le_uint, load, store, Memory};
use crate::peripherals::fu540_c000::clint::{high_word, high_word_of, low_word, low_word_of};

verus! {

pub const MAGIC_VALUE: u64 = 0x000;

pub const VERSION: u64 = 0x004;

pub const DEVICE_ID: u64 = 0x008;

pub const VENDOR_ID: u64 = 0x00c;

pub const HOST_FEATURES: u64 = 0x010;

pub const HOST_FEATURES_SEL: u64 = 0x014;

pub const GUEST_FEATURES: u64 = 0x020;

pub const GUEST_FEATURES_SEL: u64 = 0x024;

pub const GUEST_PAGE_SIZE: u64 = 0x028;

pub const QUEUE_SEL: u64 = 0x030;

pub const QUEUE_NUM_MAX: u64 = 0x034;

pub const QUEUE_NUM: u64 = 0x038;

pub const QUEUE_ALIGN: u64 = 0x03c;

pub const QUEUE_PFN: u64 = 0x040;

pub const QUEUE_NOTIFY: u64 = 0x050;

pub const INTERRUPT_STATUS: u64 = 0x060;

pub const INTERRUPT_ACK: u64 = 0x064;

pub const STATUS: u64 = 0x070;

/// The disk capacity in sectors, a doubleword of the configuration space.
pub const CONFIG_CAPACITY: u64 = 0x100;

/// "virt" in little-endian ASCII.
pub const MAGIC: u32 = 0x7472_6976;

/// The legacy transport.
pub const LEGACY_VERSION: u32 = 1;

/// A block device.
pub const BLOCK_DEVICE: u32 = 2;

/// The vendor id that the device reports.
pub const VENDOR: u32 = 0x554d_4551;

/// The longest queue that the device accepts.
pub const MAX_QUEUE: u32 = 8;

/// Bytes of a sector.
pub const SECTOR_SIZE: u64 = 512;

/// Request type: the device reads sectors and writes them to guest memory.
pub const REQUEST_IN: u32 = 0;

/// Request type: the device writes sectors from guest memory.
pub const REQUEST_OUT: u32 = 1;

/// Status byte of a request that was served.
pub const STATUS_OK: u8 = 0;

/// Status byte of a request of a type that the device does not serve.
pub const STATUS_UNSUPPORTED: u8 = 2;

/// The registers of the device.
#[derive(Clone, Copy, Debug)]
pub struct VirtioRegs {
    /// The physical address at which guest memory starts.
    pub dram_base: u64,
    pub host_features_sel: u32,
    pub guest_features: u32,
    pub guest_features_sel: u32,
    pub guest_page_size: u32,
    pub queue_sel: u32,
    pub queue_num: u32,
    pub queue_align: u32,
    pub queue_pfn: u32,
    pub status: u32,
    /// Bit 0 is set from the service of a request to its acknowledgement.
    pub interrupt_status: u32,
    /// The index into the available ring of the next request to serve.
    pub last_avail: u16,
    /// The guest has notified the device since the last tick.
    pub notified: bool,
}

/// The device as a mathematical value.
pub struct VirtioView {
    pub regs: VirtioRegs,
    pub disk: Seq<u8>,
}

/// One entry of the descriptor table.
pub struct Descriptor {
    pub addr: u64,
    pub len: u32,
    pub flags: u16,
    pub next: u16,
}

/// The descriptor stored in the 16 bytes of `mem` from `off` on.
pub open spec fn descriptor_at(mem: Seq<u8>, off: int) -> Descriptor {
    Descriptor {
        addr: le_uint(load(mem, off, 8)) as u64,
        len: le_uint(load(mem, off + 8, 4)) as u32,
        flags: le_uint(load(mem, off + 12, 2)) as u16,
        next: le_uint(load(mem, off + 14, 2)) as u16,
    }
}

/// A request taken from the queue, its addresses as offsets into guest
/// memory.
pub struct Request {
    /// Index of the first descriptor of the request.
    pub head: u16,
    pub kind: u32,
    /// The first sector that the request reads or writes.
    pub sector: u64,
    pub data_off: u64,
    pub len: u32,
    pub status_off: u64,
    /// Offset of the used ring.
    pub used_off: u64,
}

/// `x` rounded up to a multiple of `a`.
pub open spec fn round_up(x: int, a: int) -> int {
    ((x + a - 1) / a) * a
}

impl VirtioRegs {
    /// The queue has a length that the device accepts, and an alignment.
    pub open spec fn queue_ready(self) -> bool {
        0 < self.queue_num <= MAX_QUEUE && self.queue_align > 0
    }

    /// Guest-physical address of the descriptor table.
    pub open spec fn desc_base(self) -> int {
        self.queue_pfn * self.guest_page_size
    }

    /// Guest-physical address of the available ring, which follows the
    /// descriptor table.
    pub open spec fn avail_base(self) -> int {
        self.desc_base() + 16 * self.queue_num
    }

    /// Guest-physical address of the used ring, which follows the available
    /// ring at the next multiple of the queue alignment.
    pub open spec fn used_base(self) -> int {
        round_up(self.avail_base() + 4 + 2 * self.queue_num, self.queue_align as int)
    }

    /// The `n` bytes at guest-physical address `addr` lie in a guest memory
    /// of `size` bytes.
    pub open spec fn dma_ok(self, size: nat, addr: int, n: int) -> bool {
        self.dram_base <= addr && addr - self.dram_base + n <= size
    }
}

/// The effect of a request on guest memory and on the disk.
pub open spec fn transfer(
    kind: u32,
    mem: Seq<u8>,
    disk: Seq<u8>,
    mem_off: int,
    disk_off: int,
    len: int,
) -> (Seq<u8>, Seq<u8>) {
    if kind == REQUEST_IN {
        (store(mem, mem_off, load(disk, disk_off, len)), disk)
    } else if kind == REQUEST_OUT {
        (mem, store(disk, disk_off, load(mem, mem_off, len)))
    } else {
        (mem, disk)
    }
}

/// The status byte that the device reports for a request.
pub open spec fn status_of(kind: u32) -> u8 {
    if kind == REQUEST_IN || kind == REQUEST_OUT {
        STATUS_OK
    } else {
        STATUS_UNSUPPORTED
    }
}

impl VirtioView {
    /// The word read at `offset`. Reading changes nothing.
    pub open spec fn read_value(self, offset: u64) -> u32 {
        let r = self.regs;
        if offset == MAGIC_VALUE {
            MAGIC
        } else if offset == VERSION {
            LEGACY_VERSION
        } else if offset == DEVICE_ID {
            BLOCK_DEVICE
        } else if offset == VENDOR_ID {
            VENDOR
        } else if offset == QUEUE_NUM_MAX {
            MAX_QUEUE
        } else if offset == QUEUE_PFN {
            r.queue_pfn
        } else if offset == INTERRUPT_STATUS {
            r.interrupt_status
        } else if offset == STATUS {
            r.status
        } else if offset == CONFIG_CAPACITY {
            low_word((self.disk.len() / SECTOR_SIZE as nat) as u64)
        } else if offset == CONFIG_CAPACITY + 4 {
            high_word((self.disk.len() / SECTOR_SIZE as nat) as u64)
        } else {
            0
        }
    }

    /// The device after `value` has been written at `offset`. A write to
    /// the notify register is remembered until the next tick; a write to
    /// the acknowledge register clears the interrupt bits that it names.
    pub open spec fn after_write(self, offset: u64, value: u32) -> VirtioView {
        let r = self.regs;
        let regs = if offset == HOST_FEATURES_SEL {
            VirtioRegs { host_features_sel: value, ..r }
        } else if offset == GUEST_FEATURES {
            VirtioRegs { guest_features: value, ..r }
        } else if offset == GUEST_FEATURES_SEL {
            VirtioRegs { guest_features_sel: value, ..r }
        } else if offset == GUEST_PAGE_SIZE {
            VirtioRegs { guest_page_size: value, ..r }
        } else if offset == QUEUE_SEL {
            VirtioRegs { queue_sel: value, ..r }
        } else if offset == QUEUE_NUM {
            VirtioRegs { queue_num: value, ..r }
        } else if offset == QUEUE_ALIGN {
            VirtioRegs { queue_align: value, ..r }
        } else if offset == QUEUE_PFN {
            VirtioRegs { queue_pfn: value, ..r }
        } else if offset == QUEUE_NOTIFY {
            VirtioRegs { notified: true, ..r }
        } else if offset == INTERRUPT_ACK {
            VirtioRegs { interrupt_status: r.interrupt_status & !value, ..r }
        } else if offset == STATUS {
            VirtioRegs { status: value, ..r }
        } else {
            r
        };
        VirtioView { regs, ..self }
    }

    /// The next waiting request, or `None` where none waits or the queue is
    /// malformed: the rings and the three descriptors of the request
    /// (header, data, status) must lie in guest memory, and the descriptors
    /// in the table.
    pub open spec fn next_request(self, mem: Seq<u8>) -> Option<Request> {
        let r = self.regs;
        let base = r.dram_base as int;
        let num = r.queue_num as int;
        let desc = r.desc_base();
        let avail = r.avail_base();
        let used = r.used_base();
        if !r.queue_ready() || !r.dma_ok(mem.len(), desc, 16 * num) || !r.dma_ok(
            mem.len(),
            avail,
            4 + 2 * num,
        ) || !r.dma_ok(mem.len(), used, 4 + 8 * num) {
            None
        } else if le_uint(load(mem, avail + 2 - base, 2)) == r.last_avail {
            None
        } else {
            let head = le_uint(load(mem, avail + 4 + 2 * (r.last_avail as int % num) - base, 2));
            let d0 = descriptor_at(mem, desc + 16 * head - base);
            let d1 = descriptor_at(mem, desc + 16 * d0.next - base);
            let d2 = descriptor_at(mem, desc + 16 * d1.next - base);
            if head >= num || d0.next >= num || d1.next >= num {
                None
            } else if !r.dma_ok(mem.len(), d0.addr as int, 16) || !r.dma_ok(
                mem.len(),
                d1.addr as int,
                d1.len as int,
            ) || !r.dma_ok(mem.len(), d2.addr as int, 1) {
                None
            } else {
                Some(
                    Request {
                        head: head as u16,
                        kind: le_uint(load(mem, d0.addr - base, 4)) as u32,
                        sector: le_uint(load(mem, d0.addr + 8 - base, 8)) as u64,
                        data_off: (d1.addr - base) as u64,
                        len: d1.len,
                        status_off: (d2.addr - base) as u64,
                        used_off: (used - base) as u64,
                    },
                )
            }
        }
    }

    /// The device and guest memory after the request `q` has been served:
    /// the data is transferred, the status byte written, the request
    /// entered in the used ring, and the interrupt raised.
    pub open spec fn complete(self, mem: Seq<u8>, q: Request) -> (VirtioView, Seq<u8>) {
        let r = self.regs;
        let (mem1, disk1) = transfer(
            q.kind,
            mem,
            self.disk,
            q.data_off as int,
            (q.sector * SECTOR_SIZE) as int,
            q.len as int,
        );
        let mem2 = store(mem1, q.status_off as int, le_bytes(status_of(q.kind) as nat, 1));
        let used_idx = le_uint(load(mem2, q.used_off + 2, 2));
        let slot = q.used_off + 4 + 8 * (used_idx as int % r.queue_num as int);
        let mem3 = store(mem2, slot, le_bytes(q.head as nat, 4));
        let mem4 = store(mem3, slot + 4, le_bytes(q.len as nat, 4));
        let mem5 = store(mem4, q.used_off + 2, le_bytes((used_idx + 1) % 0x1_0000, 2));
        let regs = VirtioRegs {
            last_avail: ((r.last_avail + 1) % 0x1_0000) as u16,
            interrupt_status: r.interrupt_status | 1,
            ..r
        };
        (VirtioView { regs, disk: disk1 }, mem5)
    }

    /// The device and guest memory after the next waiting request has been
    /// served, or `None` where there is none to serve or its sectors do not
    /// lie on the disk.
    pub open spec fn serve_one(self, mem: Seq<u8>) -> Option<(VirtioView, Seq<u8>)> {
        match self.next_request(mem) {
            None => None,
            Some(q) => if q.sector * SECTOR_SIZE + q.len > self.disk.len() {
                None
            } else {
                Some(self.complete(mem, q))
            },
        }
    }

    /// The device and guest memory after up to `budget` waiting requests
    /// have been served, in the order of the available ring.
    pub open spec fn serve(self, mem: Seq<u8>, budget: nat) -> (VirtioView, Seq<u8>)
        decreases budget,
    {
        if budget == 0 {
            (self, mem)
        } else {
            match self.serve_one(mem) {
                None => (self, mem),
                Some((v, m)) => v.serve(m, (budget - 1) as nat),
            }
        }
    }

    /// The device and guest memory one tick later: if the guest has
    /// notified, the waiting requests are served, at most as many as the
    /// longest queue holds.
    pub open spec fn after_tick(self, mem: Seq<u8>) -> (VirtioView, Seq<u8>) {
        if self.regs.notified {
            (VirtioView { regs: VirtioRegs { notified: false, ..self.regs }, ..self }).serve(
                mem,
                MAX_QUEUE as nat,
            )
        } else {
            (self, mem)
        }
    }
}

/// The device at reset, in front of a guest whose memory starts at
/// `dram_base`: an empty disk, no queue, and the default queue alignment of
/// one page.
pub open spec fn virtio_at_reset(v: VirtioView, dram_base: u64) -> bool {
    &&& v.disk.len() == 0
    &&& v.regs == (VirtioRegs {
        dram_base,
        host_features_sel: 0,
        guest_features: 0,
        guest_features_sel: 0,
        guest_page_size: 0,
        queue_sel: 0,
        queue_num: 0,
        queue_align: 0x1000,
        queue_pfn: 0,
        status: 0,
        interrupt_status: 0,
        last_avail: 0,
        notified: false,
    })
}

/// The disk.
pub struct Virtio {
    regs: VirtioRegs,
    disk: Memory,
}

impl View for Virtio {
    type V = VirtioView;

    closed spec fn view(&self) -> VirtioView {
        VirtioView { regs: self.regs, disk: self.disk@ }
    }
}

fn read_descriptor(dram: &Memory, off: u64) -> (d: Descriptor)
    requires
        off + 16 <= dram@.len(),
    ensures
        d == descriptor_at(dram@, off as int),
{
    let _size = dram.size();
    Descriptor {
        addr: dram.read64(off),
        len: dram.read32(off + 8),
        flags: dram.read16(off + 12),
        next: dram.read16(off + 14),
    }
}

impl Virtio {
    /// A device with an empty disk, serving a guest whose memory starts at
    /// physical address `dram_base`.
    pub fn new(dram_base: u64) -> (v: Virtio)
        ensures
            virtio_at_reset(v@, dram_base),
    {
        Virtio {
            regs: VirtioRegs {
                dram_base,
                host_features_sel: 0,
                guest_features: 0,
                guest_features_sel: 0,
                guest_page_size: 0,
                queue_sel: 0,
                queue_num: 0,
                queue_align: 0x1000,
                queue_pfn: 0,
                status: 0,
                interrupt_status: 0,
                last_avail: 0,
                notified: false,
            },
            disk: Memory::from_bytes(Vec::new()),
        }
    }

    /// Replaces the disk image.
    pub fn init(&mut self, image: Vec<u8>)
        ensures
            final(self)@ == (VirtioView { disk: image@, ..old(self)@ }),
    {
        self.disk = Memory::from_bytes(image);
    }

    /// Whether the guest has notified the device since the last tick.
    pub fn is_notified(&self) -> (r: bool)
        ensures
            r == self@.regs.notified,
    {
        self.regs.notified
    }

    /// Whether the device asserts its interrupt line: from the service of a
    /// request until the guest acknowledges.
    pub fn is_irq(&self) -> (r: bool)
        ensures
            r == (self@.regs.interrupt_status != 0),
    {
        self.regs.interrupt_status != 0
    }

    /// Reads the word at `offset`.
    pub fn read(&self, offset: u64) -> (r: u32)
        ensures
            r == self@.read_value(offset),
    {
        if offset == MAGIC_VALUE {
            MAGIC
        } else if offset == VERSION {
            LEGACY_VERSION
        } else if offset == DEVICE_ID {
            BLOCK_DEVICE
        } else if offset == VENDOR_ID {
            VENDOR
        } else if offset == QUEUE_NUM_MAX {
            MAX_QUEUE
        } else if offset == QUEUE_PFN {
            self.regs.queue_pfn
        } else if offset == INTERRUPT_STATUS {
            self.regs.interrupt_status
        } else if offset == STATUS {
            self.regs.status
        } else if offset == CONFIG_CAPACITY {
            low_word_of(self.disk.size() / SECTOR_SIZE)
        } else if offset == CONFIG_CAPACITY + 4 {
            high_word_of(self.disk.size() / SECTOR_SIZE)
        } else {
            0
        }
    }

    /// Writes the word at `offset`.
    pub fn write(&mut self, offset: u64, value: u32)
        ensures
            final(self)@ == old(self)@.after_write(offset, value),
    {
        if offset == HOST_FEATURES_SEL {
            self.regs.host_features_sel = value;
        } else if offset == GUEST_FEATURES {
            self.regs.guest_features = value;
        } else if offset == GUEST_FEATURES_SEL {
            self.regs.guest_features_sel = value;
        } else if offset == GUEST_PAGE_SIZE {
            self.regs.guest_page_size = value;
        } else if offset == QUEUE_SEL {
            self.regs.queue_sel = value;
        } else if offset == QUEUE_NUM {
            self.regs.queue_num = value;
        } else if offset == QUEUE_ALIGN {
            self.regs.queue_align = value;
        } else if offset == QUEUE_PFN {
            self.regs.queue_pfn = value;
        } else if offset == QUEUE_NOTIFY {
            self.regs.notified = true;
        } else if offset == INTERRUPT_ACK {
            self.regs.interrupt_status = self.regs.interrupt_status & !value;
        } else if offset == STATUS {
            self.regs.status = value;
        }
    }

    /// The offset in guest memory of the `n` bytes at guest-physical
    /// address `addr`, if they lie in it.
    fn dma_offset(&self, dram: &Memory, addr: u64, n: u64) -> (r: Option<u64>)
        ensures
            r is Some == self@.regs.dma_ok(dram@.len(), addr as int, n as int),
            r matches Some(off) ==> off == addr - self@.regs.dram_base,
    {
        if addr >= self.regs.dram_base && dram.in_range(addr - self.regs.dram_base, n) {
            Some(addr - self.regs.dram_base)
        } else {
            None
        }
    }

    /// Takes the next waiting request from the queue, if there is one.
    #[verifier::rlimit(50)]
    fn next_request(&self, dram: &Memory) -> (q: Option<Request>)
        ensures
            q == self@.next_request(dram@),
            q matches Some(q) ==> {
                &&& 0 < self@.regs.queue_num <= MAX_QUEUE
                &&& q.data_off + q.len <= dram@.len()
                &&& q.status_off + 1 <= dram@.len()
                &&& q.used_off + 4 + 8 * self@.regs.queue_num <= dram@.len()
            },
    {
        let r = self.regs;
        if r.queue_num == 0 || r.queue_num > MAX_QUEUE || r.queue_align == 0 {
            return None;
        }
        let num = r.queue_num as u64;
        assert((r.queue_pfn as u64) * (r.guest_page_size as u64) <= 0xffff_ffff * 0xffff_ffff)
            by (nonlinear_arith)
            requires
                r.queue_pfn <= 0xffff_ffff,
                r.guest_page_size <= 0xffff_ffff,
        ;
        let desc = (r.queue_pfn as u64) * (r.guest_page_size as u64);
        let avail = desc + 16 * num;
        let align = r.queue_align as u64;
        let unaligned = avail + 4 + 2 * num + align - 1;
        let quotient = unaligned / align;
        assert(quotient * align <= unaligned) by (nonlinear_arith)
            requires
                quotient == unaligned / align,
                align > 0,
        ;
        let used = quotient * align;
        let desc_off = match self.dma_offset(dram, desc, 16 * num) {
            Some(off) => off,
            None => { return None; },
        };
        let avail_off = match self.dma_offset(dram, avail, 4 + 2 * num) {
            Some(off) => off,
            None => { return None; },
        };
        let used_off = match self.dma_offset(dram, used, 4 + 8 * num) {
            Some(off) => off,
            None => { return None; },
        };
        if dram.read16(avail_off + 2) == r.last_avail {
            return None;
        }
        let head = dram.read16(avail_off + 4 + 2 * ((r.last_avail as u64) % num));
        if head as u64 >= num {
            return None;
        }
        let d0 = read_descriptor(dram, desc_off + 16 * (head as u64));
        if d0.next as u64 >= num {
            return None;
        }
        let d1 = read_descriptor(dram, desc_off + 16 * (d0.next as u64));
        if d1.next as u64 >= num {
            return None;
        }
        let d2 = read_descriptor(dram, desc_off + 16 * (d1.next as u64));
        let header_off = match self.dma_offset(dram, d0.addr, 16) {
            Some(off) => off,
            None => { return None; },
        };
        let data_off = match self.dma_offset(dram, d1.addr, d1.len as u64) {
            Some(off) => off,
            None => { return None; },
        };
        let status_off = match self.dma_offset(dram, d2.addr, 1) {
            Some(off) => off,
            None => { return None; },
        };
        let _size = dram.size();
        Some(
            Request {
                head,
                kind: dram.read32(header_off),
                sector: dram.read64(header_off + 8),
                data_off,
                len: d1.len,
                status_off,
                used_off,
            },
        )
    }

    /// Serves the request `q`.
    #[verifier::rlimit(50)]
    fn complete(&mut self, dram: &mut Memory, q: Request)
        requires
            0 < old(self)@.regs.queue_num <= MAX_QUEUE,
            q.sector * SECTOR_SIZE + q.len <= old(self)@.disk.len(),
            q.data_off + q.len <= old(dram)@.len(),
            q.status_off + 1 <= old(dram)@.len(),
            q.used_off + 4 + 8 * old(self)@.regs.queue_num <= old(dram)@.len(),
        ensures
            (final(self)@, final(dram)@) == old(self)@.complete(old(dram)@, q),
    {
        let num = self.regs.queue_num as u64;
        let _size = dram.size();
        let _disk_size = self.disk.size();
        let disk_off = q.sector * SECTOR_SIZE;
        if q.kind == REQUEST_IN {
            let data = self.disk.read_bytes(disk_off, q.len as u64);
            dram.write_bytes(q.data_off, &data);
        } else if q.kind == REQUEST_OUT {
            let data = dram.read_bytes(q.data_off, q.len as u64);
            self.disk.write_bytes(disk_off, &data);
        }
        let status = if q.kind == REQUEST_IN || q.kind == REQUEST_OUT {
            STATUS_OK
        } else {
            STATUS_UNSUPPORTED
        };
        dram.write8(q.status_off, status);
        let used_idx = dram.read16(q.used_off + 2);
        let slot = q.used_off + 4 + 8 * ((used_idx as u64) % num);
        dram.write32(slot, q.head as u32);
        dram.write32(slot + 4, q.len);
        dram.write16(q.used_off + 2, used_idx.wrapping_add(1));
        self.regs.last_avail = self.regs.last_avail.wrapping_add(1);
        self.regs.interrupt_status = self.regs.interrupt_status | 1;
    }

    /// Serves the next waiting request, if there is one.
    fn serve_one(&mut self, dram: &mut Memory) -> (served: bool)
        ensures
            match old(self)@.serve_one(old(dram)@) {
                None => !served && final(self)@ == old(self)@ && final(dram)@ == old(dram)@,
                Some((v, m)) => served && final(self)@ == v && final(dram)@ == m,
            },
    {
        match self.next_request(dram) {
            None => false,
            Some(q) => {
                let disk_size = self.disk.size();
                if (q.len as u64) > disk_size || q.sector > (disk_size - (q.len as u64))
                    / SECTOR_SIZE {
                    false
                } else {
                    self.complete(dram, q);
                    true
                }
            },
        }
    }

    /// Serves the requests that wait, if the guest has notified since the
    /// last tick.
    pub fn tick(&mut self, dram: &mut Memory)
        ensures
            (final(self)@, final(dram)@) == old(self)@.after_tick(old(dram)@),
    {
        if !self.regs.notified {
            return ;
        }
        self.regs.notified = false;
        let ghost start = (self@, dram@);
        let mut budget: u32 = MAX_QUEUE;
        loop
            invariant
                start.0.serve(start.1, MAX_QUEUE as nat) == self@.serve(dram@, budget as nat),
            ensures
                (self@, dram@) == start.0.serve(start.1, MAX_QUEUE as nat),
            decreases budget,
        {
            if budget == 0 {
                break ;
            }
            if !self.serve_one(dram) {
                break ;
            }
            budget -= 1;
        }
    }
}

} // verus!
