//! The bus of an FU540-style platform: DRAM from `0x8000_0000` on, and below
//! it the core-local interruptor, the interrupt controller, a serial port
//! and a virtio disk.

use vstd::prelude::*;
use crate::bus::bus::Device;
use crate::memory::{le_bytes, le_uint, load, store, Memory};
use crate::peripherals::fu540_c000::clint::{
    high_word,
    high_word_of,
    join_words,
    join_words_of,
    low_word,
    low_word_of,
    Clint,
};
use crate::peripherals::fu540_c000::plic::{plic_at_reset, Plic, PlicView};
use crate::peripherals::uart::{uart_at_reset, Uart, UartView};
use crate::peripherals::virtio::{virtio_at_reset, Virtio, VirtioView};

verus! {

pub const TIMER_ADDRESS_START: u64 = 0x0200_0000;

pub const TIMER_ADDRESS_END: u64 = 0x0200_FFFF;

pub const INTC_ADDRESS_START: u64 = 0x0C00_0000;

pub const INTC_ADDRESS_END: u64 = 0x0FFF_FFFF;

pub const UART_ADDRESS_START: u64 = 0x1000_0000;

pub const UART_ADDRESS_END: u64 = 0x1000_0FFF;

pub const VIRTIO_ADDRESS_START: u64 = 0x1000_1000;

pub const VIRTIO_ADDRESS_END: u64 = 0x1000_1FFF;

pub const DRAM_ADDRESS_START: u64 = 0x8000_0000;

/// 128 MiB.
pub const MAX_DRAM_SIZE: usize = 0x800_0000;

/// Interrupt source of the serial port.
pub const UART_IRQ: usize = 10;

/// Interrupt source of the virtio disk.
pub const VIRTIO_IRQ: usize = 1;

/// The owner of a physical address.
#[derive(Clone, Copy, Debug, PartialEq, Eq, Structural)]
pub enum Region {
    Dram,
    Timer,
    Intc,
    Uart,
    Virtio,
    Unmapped,
}

/// The memory map.
pub open spec fn region_of(addr: u64) -> Region {
    if DRAM_ADDRESS_START <= addr {
        Region::Dram
    } else if TIMER_ADDRESS_START <= addr <= TIMER_ADDRESS_END {
        Region::Timer
    } else if INTC_ADDRESS_START <= addr <= INTC_ADDRESS_END {
        Region::Intc
    } else if UART_ADDRESS_START <= addr <= UART_ADDRESS_END {
        Region::Uart
    } else if VIRTIO_ADDRESS_START <= addr <= VIRTIO_ADDRESS_END {
        Region::Virtio
    } else {
        Region::Unmapped
    }
}

/// Whether the owner of `addr` can be accessed with `width` bytes. The
/// timer, the interrupt controller and the disk have word registers only.
pub open spec fn accepts(addr: u64, width: int) -> bool {
    width >= 4 || !(region_of(addr) == Region::Timer || region_of(addr) == Region::Intc
        || region_of(addr) == Region::Virtio)
}

/// The owner of a physical address.
pub fn locate(addr: u64) -> (r: Region)
    ensures
        r == region_of(addr),
{
    if DRAM_ADDRESS_START <= addr {
        Region::Dram
    } else if TIMER_ADDRESS_START <= addr && addr <= TIMER_ADDRESS_END {
        Region::Timer
    } else if INTC_ADDRESS_START <= addr && addr <= INTC_ADDRESS_END {
        Region::Intc
    } else if UART_ADDRESS_START <= addr && addr <= UART_ADDRESS_END {
        Region::Uart
    } else if VIRTIO_ADDRESS_START <= addr && addr <= VIRTIO_ADDRESS_END {
        Region::Virtio
    } else {
        Region::Unmapped
    }
}

/// The bus and all that hangs on it, as a mathematical value.
pub struct BusView {
    pub clock: u64,
    pub dram: Seq<u8>,
    pub timer: Clint,
    pub intc: PlicView,
    pub uart: UartView,
    pub virtio: VirtioView,
}

impl BusView {
    /// What a read of `n` bytes at `addr` returns: the little-endian value
    /// of the bytes in DRAM; the word or, low word first, the two words of
    /// a word device; the little-endian value of the bytes that the serial
    /// port yields in ascending order; `Err` where nothing is mapped.
    pub open spec fn read_result(self, addr: u64, n: nat) -> Result<u64, ()> {
        match region_of(addr) {
            Region::Dram => {
                let off = addr - DRAM_ADDRESS_START;
                if off + n <= self.dram.len() {
                    Ok(le_uint(load(self.dram, off, n as int)) as u64)
                } else {
                    Err(())
                }
            },
            Region::Timer => {
                let off = (addr - TIMER_ADDRESS_START) as u64;
                if n == 8 {
                    Ok(
                        join_words(
                            self.timer.read_value(off),
                            self.timer.read_value((off + 4) as u64),
                        ),
                    )
                } else {
                    Ok(self.timer.read_value(off) as u64)
                }
            },
            Region::Intc => {
                let off = (addr - INTC_ADDRESS_START) as u64;
                if n == 8 {
                    Ok(
                        join_words(
                            self.intc.read_value(off),
                            self.intc.after_read(off).read_value((off + 4) as u64),
                        ),
                    )
                } else {
                    Ok(self.intc.read_value(off) as u64)
                }
            },
            Region::Uart => Ok(self.uart.read_wide((addr - UART_ADDRESS_START) as u64, n) as u64),
            Region::Virtio => {
                let off = (addr - VIRTIO_ADDRESS_START) as u64;
                if n == 8 {
                    Ok(
                        join_words(
                            self.virtio.read_value(off),
                            self.virtio.read_value((off + 4) as u64),
                        ),
                    )
                } else {
                    Ok(self.virtio.read_value(off) as u64)
                }
            },
            Region::Unmapped => Err(()),
        }
    }

    /// The bus after a read of `n` bytes at `addr`: a read changes the
    /// device it reaches, as that device says, and nothing else.
    pub open spec fn after_read(self, addr: u64, n: nat) -> BusView {
        match region_of(addr) {
            Region::Intc => {
                let off = (addr - INTC_ADDRESS_START) as u64;
                if n == 8 {
                    BusView {
                        intc: self.intc.after_read(off).after_read((off + 4) as u64),
                        ..self
                    }
                } else {
                    BusView { intc: self.intc.after_read(off), ..self }
                }
            },
            Region::Uart => BusView {
                uart: self.uart.after_reads((addr - UART_ADDRESS_START) as u64, n),
                ..self
            },
            _ => self,
        }
    }

    /// Whether a write of `n` bytes at `addr` succeeds.
    pub open spec fn write_result(self, addr: u64, n: nat) -> Result<(), ()> {
        match region_of(addr) {
            Region::Dram => if addr - DRAM_ADDRESS_START + n <= self.dram.len() {
                Ok(())
            } else {
                Err(())
            },
            Region::Unmapped => Err(()),
            _ => Ok(()),
        }
    }

    /// The bus after `n` bytes of `data` have been written at `addr`: DRAM
    /// holds the bytes little-endian; a word device has taken the word or,
    /// low word first, the two words; the serial port has taken the bytes
    /// in ascending order. A write that fails changes nothing.
    pub open spec fn after_write(self, addr: u64, n: nat, data: u64) -> BusView {
        match region_of(addr) {
            Region::Dram => {
                let off = addr - DRAM_ADDRESS_START;
                if off + n <= self.dram.len() {
                    BusView { dram: store(self.dram, off, le_bytes(data as nat, n)), ..self }
                } else {
                    self
                }
            },
            Region::Timer => {
                let off = (addr - TIMER_ADDRESS_START) as u64;
                if n == 8 {
                    BusView {
                        timer: self.timer.after_write(off, low_word(data)).after_write(
                            (off + 4) as u64,
                            high_word(data),
                        ),
                        ..self
                    }
                } else {
                    BusView { timer: self.timer.after_write(off, data as u32), ..self }
                }
            },
            Region::Intc => {
                let off = (addr - INTC_ADDRESS_START) as u64;
                if n == 8 {
                    BusView {
                        intc: self.intc.after_write(off, low_word(data)).after_write(
                            (off + 4) as u64,
                            high_word(data),
                        ),
                        ..self
                    }
                } else {
                    BusView { intc: self.intc.after_write(off, data as u32), ..self }
                }
            },
            Region::Uart => BusView {
                uart: self.uart.after_writes((addr - UART_ADDRESS_START) as u64, data as nat, n),
                ..self
            },
            Region::Virtio => {
                let off = (addr - VIRTIO_ADDRESS_START) as u64;
                if n == 8 {
                    BusView {
                        virtio: self.virtio.after_write(off, low_word(data)).after_write(
                            (off + 4) as u64,
                            high_word(data),
                        ),
                        ..self
                    }
                } else {
                    BusView { virtio: self.virtio.after_write(off, data as u32), ..self }
                }
            },
            Region::Unmapped => self,
        }
    }

    /// The interrupt sources whose devices assert their lines.
    pub open spec fn asserted_sources(self) -> Seq<usize> {
        let uart = if self.uart.regs.irq {
            seq![UART_IRQ]
        } else {
            Seq::<usize>::empty()
        };
        let virtio = if self.virtio.regs.interrupt_status != 0 {
            seq![VIRTIO_IRQ]
        } else {
            Seq::<usize>::empty()
        };
        uart + virtio
    }

    /// The bus after the devices have ticked, in the order disk, timer,
    /// serial port, and before the interrupt controller has seen their
    /// lines.
    pub open spec fn after_device_ticks(self) -> BusView {
        let (virtio, dram) = self.virtio.after_tick(self.dram);
        BusView {
            clock: if self.clock == u64::MAX {
                0
            } else {
                (self.clock + 1) as u64
            },
            dram,
            timer: self.timer.after_tick(),
            uart: self.uart.after_tick(),
            virtio,
            ..self
        }
    }

    /// The bus one tick later: the devices have ticked, and the interrupt
    /// controller has latched the sources that assert their lines after
    /// that.
    pub open spec fn after_tick(self) -> BusView {
        let ticked = self.after_device_ticks();
        BusView { intc: ticked.intc.after_raise_all(ticked.asserted_sources()), ..ticked }
    }
}

/// Little-endian memory round trip: a value of 1, 2, 4 or 8 bytes written
/// to DRAM through the bus is the value read back from the same address
/// with the same width, and the read changes nothing.
pub proof fn lemma_dram_round_trip(bus: BusView, addr: u64, n: nat, value: u64)
    requires
        n == 1 || n == 2 || n == 4 || n == 8,
        value < crate::memory::pow256(n),
        DRAM_ADDRESS_START <= addr,
        addr - DRAM_ADDRESS_START + n <= bus.dram.len(),
    ensures
        bus.write_result(addr, n) == Ok::<(), ()>(()),
        bus.after_write(addr, n, value).read_result(addr, n) == Ok::<u64, ()>(value),
        bus.after_write(addr, n, value).after_read(addr, n) == bus.after_write(addr, n, value),
{
    crate::memory::lemma_memory_round_trip(
        bus.dram,
        addr - DRAM_ADDRESS_START,
        value as nat,
        n,
    );
}

/// The bus at reset: 128 MiB of zeroed DRAM and every device in its reset
/// state.
pub open spec fn bus_at_reset(bus: BusView) -> bool {
    &&& bus.clock == 0
    &&& bus.dram.len() == MAX_DRAM_SIZE
    &&& forall|i: int| 0 <= i < MAX_DRAM_SIZE ==> bus.dram[i] == 0u8
    &&& bus.timer == (Clint { msip: 0, mtime_compare: 0, mtime: 0 })
    &&& plic_at_reset(bus.intc)
    &&& uart_at_reset(bus.uart)
    &&& virtio_at_reset(bus.virtio, DRAM_ADDRESS_START)
}

/// The bus: DRAM and the four devices, which it owns.
pub struct BusFu540 {
    clock: u64,
    dram: Memory,
    timer: Clint,
    intc: Plic,
    uart: Uart,
    virtio: Virtio,
}

impl View for BusFu540 {
    type V = BusView;

    closed spec fn view(&self) -> BusView {
        BusView {
            clock: self.clock,
            dram: self.dram@,
            timer: self.timer,
            intc: self.intc@,
            uart: self.uart@,
            virtio: self.virtio@,
        }
    }
}

/// The value of a successful read as a doubleword, an error passed on.
pub open spec fn widened8(r: Result<u8, ()>) -> Result<u64, ()> {
    match r {
        Ok(v) => Ok(v as u64),
        Err(_) => Err(()),
    }
}

/// The same for a halfword.
pub open spec fn widened16(r: Result<u16, ()>) -> Result<u64, ()> {
    match r {
        Ok(v) => Ok(v as u64),
        Err(_) => Err(()),
    }
}

/// The same for a word.
pub open spec fn widened32(r: Result<u32, ()>) -> Result<u64, ()> {
    match r {
        Ok(v) => Ok(v as u64),
        Err(_) => Err(()),
    }
}

impl BusFu540 {
    /// A bus with 128 MiB of zeroed DRAM, an empty disk, and every device
    /// in its reset state.
    pub fn new() -> (bus: Self)
        ensures
            bus_at_reset(bus@),
    {
        Self {
            clock: 0,
            dram: Memory::new(MAX_DRAM_SIZE),
            timer: Clint::new(),
            intc: Plic::new(),
            uart: Uart::new(),
            virtio: Virtio::new(DRAM_ADDRESS_START),
        }
    }

    /// The DRAM, to read from.
    pub fn dram(&self) -> (m: &Memory)
        ensures
            m@ == self@.dram,
    {
        &self.dram
    }

    /// The platform's timer.
    pub fn mtime(&self) -> (r: u64)
        ensures
            r == self@.timer.mtime,
    {
        self.timer.mtime
    }

    /// Whether the disk will access DRAM at the next tick.
    pub fn dma_pending(&self) -> (r: bool)
        ensures
            r == self@.virtio.regs.notified,
    {
        self.virtio.is_notified()
    }

    /// Whether the owner of `addr` can be accessed with `width` bytes.
    pub fn accepts_width(addr: u64, width: u8) -> (r: bool)
        ensures
            r == accepts(addr, width as int),
    {
        let region = locate(addr);
        width >= 4 || !(region == Region::Timer || region == Region::Intc || region
            == Region::Virtio)
    }

    /// Loads an image into DRAM, from its start on, or replaces the disk
    /// image.
    pub fn set_device_data(&mut self, device: Device, data: Vec<u8>)
        requires
            device == Device::Dram || device == Device::Disk,
            device == Device::Dram ==> data@.len() <= old(self)@.dram.len(),
        ensures
            device == Device::Dram ==> final(self)@ == (BusView {
                dram: store(old(self)@.dram, 0, data@),
                ..old(self)@
            }),
            device == Device::Disk ==> final(self)@ == (BusView {
                virtio: VirtioView { disk: data@, ..old(self)@.virtio },
                ..old(self)@
            }),
    {
        match device {
            Device::Dram => {
                self.dram.initialize(data);
            },
            _ => {
                self.virtio.init(data);
            },
        }
    }

    /// Hands a byte from the terminal to the serial port.
    pub fn push_input(&mut self, byte: u8)
        ensures
            final(self)@ == (BusView {
                uart: UartView { input: old(self)@.uart.input.push(byte), ..old(self)@.uart },
                ..old(self)@
            }),
    {
        self.uart.push_input(byte);
    }

    /// Collects what the guest has transmitted on the serial port since the
    /// last call.
    pub fn take_output(&mut self) -> (bytes: Vec<u8>)
        ensures
            bytes@ == old(self)@.uart.output,
            final(self)@ == (BusView {
                uart: UartView { output: Seq::<u8>::empty(), ..old(self)@.uart },
                ..old(self)@
            }),
    {
        self.uart.take_output()
    }

    /// Advances every device by one step and returns the external-interrupt
    /// line of each context of the interrupt controller.
    pub fn tick(&mut self) -> (lines: Vec<bool>)
        ensures
            final(self)@ == old(self)@.after_tick(),
            lines@ == final(self)@.intc.lines(),
    {
        self.clock = self.clock.wrapping_add(1);
        self.virtio.tick(&mut self.dram);
        self.timer.tick();
        self.uart.tick();
        let mut interrupts: Vec<usize> = Vec::new();
        if self.uart.is_irq() {
            interrupts.push(UART_IRQ);
        }
        if self.virtio.is_irq() {
            interrupts.push(VIRTIO_IRQ);
        }
        assert(interrupts@ =~= self@.asserted_sources());
        self.intc.tick(0, interrupts)
    }

    /// Whether the core-local interruptor presents a software interrupt to
    /// hart `core`.
    pub fn is_pending_software_interrupt(&self, core: usize) -> (r: bool)
        ensures
            r == self@.timer.software_interrupt(core),
    {
        self.timer.is_pending_software_interrupt(core)
    }

    /// Whether the core-local interruptor presents a timer interrupt to hart
    /// `core`.
    pub fn is_pending_timer_interrupt(&self, core: usize) -> (r: bool)
        ensures
            r == self@.timer.timer_interrupt(core),
    {
        self.timer.is_pending_timer_interrupt(core)
    }

    /// The physical address at which a device starts.
    pub fn get_base_address(&self, device: Device) -> (r: u64)
        requires
            device == Device::Dram,
        ensures
            r == DRAM_ADDRESS_START,
    {
        DRAM_ADDRESS_START
    }

    /// Reads a byte. The address must not belong to a device that has word
    /// registers only.
    pub fn read8(&mut self, addr: u64) -> (r: Result<u8, ()>)
        requires
            accepts(addr, 1),
        ensures
            widened8(r) == old(self)@.read_result(addr, 1),
            final(self)@ == old(self)@.after_read(addr, 1),
    {
        proof {
            reveal_with_fuel(UartView::read_wide, 2);
            reveal_with_fuel(UartView::after_reads, 2);
        }
        match locate(addr) {
            Region::Dram => {
                let off = addr - DRAM_ADDRESS_START;
                if self.dram.in_range(off, 1) {
                    Ok(self.dram.read8(off))
                } else {
                    Err(())
                }
            },
            Region::Uart => Ok(self.uart.read(addr - UART_ADDRESS_START)),
            _ => Err(()),
        }
    }

    /// Reads a halfword. The address must not belong to a device that has
    /// word registers only.
    pub fn read16(&mut self, addr: u64) -> (r: Result<u16, ()>)
        requires
            accepts(addr, 2),
        ensures
            widened16(r) == old(self)@.read_result(addr, 2),
            final(self)@ == old(self)@.after_read(addr, 2),
    {
        proof {
            crate::memory::lemma_pow256_values();
        }
        match locate(addr) {
            Region::Dram => {
                let off = addr - DRAM_ADDRESS_START;
                if self.dram.in_range(off, 2) {
                    Ok(self.dram.read16(off))
                } else {
                    Err(())
                }
            },
            Region::Uart => {
                let off = addr - UART_ADDRESS_START;
                Ok(self.uart.read_wide(off, 2) as u16)
            },
            _ => Err(()),
        }
    }

    /// Reads a word.
    pub fn read32(&mut self, addr: u64) -> (r: Result<u32, ()>)
        ensures
            widened32(r) == old(self)@.read_result(addr, 4),
            final(self)@ == old(self)@.after_read(addr, 4),
    {
        proof {
            crate::memory::lemma_pow256_values();
        }
        match locate(addr) {
            Region::Dram => {
                let off = addr - DRAM_ADDRESS_START;
                if self.dram.in_range(off, 4) {
                    Ok(self.dram.read32(off))
                } else {
                    Err(())
                }
            },
            Region::Timer => Ok(self.timer.read(addr - TIMER_ADDRESS_START)),
            Region::Intc => Ok(self.intc.read(addr - INTC_ADDRESS_START)),
            Region::Uart => {
                let off = addr - UART_ADDRESS_START;
                Ok(self.uart.read_wide(off, 4) as u32)
            },
            Region::Virtio => Ok(self.virtio.read(addr - VIRTIO_ADDRESS_START)),
            Region::Unmapped => Err(()),
        }
    }

    /// Reads a doubleword; from a word device, the low word first.
    pub fn read64(&mut self, addr: u64) -> (r: Result<u64, ()>)
        ensures
            r == old(self)@.read_result(addr, 8),
            final(self)@ == old(self)@.after_read(addr, 8),
    {
        proof {
            crate::memory::lemma_pow256_values();
        }
        match locate(addr) {
            Region::Dram => {
                let off = addr - DRAM_ADDRESS_START;
                if self.dram.in_range(off, 8) {
                    Ok(self.dram.read64(off))
                } else {
                    Err(())
                }
            },
            Region::Timer => {
                let off = addr - TIMER_ADDRESS_START;
                let low = self.timer.read(off);
                let high = self.timer.read(off + 4);
                Ok(join_words_of(low, high))
            },
            Region::Intc => {
                let off = addr - INTC_ADDRESS_START;
                let low = self.intc.read(off);
                let high = self.intc.read(off + 4);
                Ok(join_words_of(low, high))
            },
            Region::Uart => {
                let off = addr - UART_ADDRESS_START;
                Ok(self.uart.read_wide(off, 8))
            },
            Region::Virtio => {
                let off = addr - VIRTIO_ADDRESS_START;
                let low = self.virtio.read(off);
                let high = self.virtio.read(off + 4);
                Ok(join_words_of(low, high))
            },
            Region::Unmapped => Err(()),
        }
    }

    /// Writes a byte. The address must not belong to a device that has word
    /// registers only.
    pub fn write8(&mut self, addr: u64, data: u8) -> (r: Result<(), ()>)
        requires
            accepts(addr, 1),
        ensures
            r == old(self)@.write_result(addr, 1),
            final(self)@ == old(self)@.after_write(addr, 1, data as u64),
    {
        proof {
            reveal_with_fuel(UartView::after_writes, 2);
        }
        match locate(addr) {
            Region::Dram => {
                let off = addr - DRAM_ADDRESS_START;
                if self.dram.in_range(off, 1) {
                    self.dram.write8(off, data);
                    Ok(())
                } else {
                    Err(())
                }
            },
            Region::Uart => {
                self.uart.write(addr - UART_ADDRESS_START, data);
                Ok(())
            },
            _ => Err(()),
        }
    }

    /// Writes a halfword. The address must not belong to a device that has
    /// word registers only.
    pub fn write16(&mut self, addr: u64, data: u16) -> (r: Result<(), ()>)
        requires
            accepts(addr, 2),
        ensures
            r == old(self)@.write_result(addr, 2),
            final(self)@ == old(self)@.after_write(addr, 2, data as u64),
    {
        match locate(addr) {
            Region::Dram => {
                let off = addr - DRAM_ADDRESS_START;
                if self.dram.in_range(off, 2) {
                    self.dram.write16(off, data);
                    Ok(())
                } else {
                    Err(())
                }
            },
            Region::Uart => {
                let off = addr - UART_ADDRESS_START;
                self.uart.write_wide(off, data as u64, 2);
                Ok(())
            },
            _ => Err(()),
        }
    }

    /// Writes a word.
    pub fn write32(&mut self, addr: u64, data: u32) -> (r: Result<(), ()>)
        ensures
            r == old(self)@.write_result(addr, 4),
            final(self)@ == old(self)@.after_write(addr, 4, data as u64),
    {
        match locate(addr) {
            Region::Dram => {
                let off = addr - DRAM_ADDRESS_START;
                if self.dram.in_range(off, 4) {
                    self.dram.write32(off, data);
                    Ok(())
                } else {
                    Err(())
                }
            },
            Region::Timer => {
                self.timer.write(addr - TIMER_ADDRESS_START, data);
                Ok(())
            },
            Region::Intc => {
                self.intc.write(addr - INTC_ADDRESS_START, data);
                Ok(())
            },
            Region::Uart => {
                let off = addr - UART_ADDRESS_START;
                self.uart.write_wide(off, data as u64, 4);
                Ok(())
            },
            Region::Virtio => {
                self.virtio.write(addr - VIRTIO_ADDRESS_START, data);
                Ok(())
            },
            Region::Unmapped => Err(()),
        }
    }

    /// Writes a doubleword; to a word device, the low word first.
    pub fn write64(&mut self, addr: u64, data: u64) -> (r: Result<(), ()>)
        ensures
            r == old(self)@.write_result(addr, 8),
            final(self)@ == old(self)@.after_write(addr, 8, data),
    {
        match locate(addr) {
            Region::Dram => {
                let off = addr - DRAM_ADDRESS_START;
                if self.dram.in_range(off, 8) {
                    self.dram.write64(off, data);
                    Ok(())
                } else {
                    Err(())
                }
            },
            Region::Timer => {
                let off = addr - TIMER_ADDRESS_START;
                self.timer.write(off, low_word_of(data));
                self.timer.write(off + 4, high_word_of(data));
                Ok(())
            },
            Region::Intc => {
                let off = addr - INTC_ADDRESS_START;
                self.intc.write(off, low_word_of(data));
                self.intc.write(off + 4, high_word_of(data));
                Ok(())
            },
            Region::Uart => {
                let off = addr - UART_ADDRESS_START;
                self.uart.write_wide(off, data as u64, 8);
                Ok(())
            },
            Region::Virtio => {
                let off = addr - VIRTIO_ADDRESS_START;
                self.virtio.write(off, low_word_of(data));
                self.virtio.write(off + 4, high_word_of(data));
                Ok(())
            },
            Region::Unmapped => Err(()),
        }
    }
}

} // verus!
