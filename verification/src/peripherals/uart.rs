//! A 16550-compatible serial port. The terminal on the far side is
//! modelled as two byte queues: `input` holds what the terminal has sent and
//! the guest has not yet received, `output` what the guest has transmitted
//! and the terminal has not yet collected.

use vstd::prelude::*;

verus! {

/// Receiver buffer (read) and transmitter holding (write) register.
pub const RBR_THR: u64 = 0;

/// Interrupt enable register.
pub const IER: u64 = 1;

/// Interrupt status (read) and FIFO control (write) register.
pub const ISR_FCR: u64 = 2;

/// Line control register.
pub const LCR: u64 = 3;

/// Modem control register.
pub const MCR: u64 = 4;

/// Line status register.
pub const LSR: u64 = 5;

/// Scratch register.
pub const SCR: u64 = 7;

/// Line status: transmitter holding register and transmitter both empty.
pub const LSR_IDLE: u8 = 0x60;

/// Interrupt status: nothing pending.
pub const ISR_NONE: u8 = 0x01;

/// Interrupt status: transmitter holding register empty.
pub const ISR_THRE: u8 = 0x02;

/// Interrupt status: received data available.
pub const ISR_RDA: u8 = 0x04;

/// The registers of the port.
#[derive(Clone, Copy, Debug)]
pub struct UartRegs {
    /// The byte last received.
    pub rbr: u8,
    /// Interrupt enables: bit 0 received data, bit 1 transmitter empty.
    pub ier: u8,
    pub fcr: u8,
    /// Line control; bit 7 maps the divisor latch over offsets 0 and 1.
    pub lcr: u8,
    pub mcr: u8,
    pub scr: u8,
    /// Divisor latch, low and high byte.
    pub dll: u8,
    pub dlm: u8,
    /// `rbr` holds a byte that the guest has not read yet.
    pub data_ready: bool,
    /// A byte was transmitted since the interrupt line was last sampled.
    pub thre_pending: bool,
    /// The interrupt line as sampled at the last tick.
    pub irq: bool,
}

impl UartRegs {
    /// The divisor latch is mapped over offsets 0 and 1.
    pub open spec fn divisor_latch(self) -> bool {
        self.lcr >= 0x80
    }

    /// The received-data interrupt is enabled.
    pub open spec fn receive_enabled(self) -> bool {
        self.ier % 2 == 1
    }

    /// The transmitter-empty interrupt is enabled.
    pub open spec fn transmit_enabled(self) -> bool {
        (self.ier / 2) % 2 == 1
    }
}

/// The port as a mathematical value.
pub struct UartView {
    pub regs: UartRegs,
    pub input: Seq<u8>,
    pub output: Seq<u8>,
}

impl UartView {
    /// The byte read at `offset`.
    pub open spec fn read_value(self, offset: u64) -> u8 {
        let r = self.regs;
        if offset == RBR_THR {
            if r.divisor_latch() {
                r.dll
            } else {
                r.rbr
            }
        } else if offset == IER {
            if r.divisor_latch() {
                r.dlm
            } else {
                r.ier
            }
        } else if offset == ISR_FCR {
            if r.data_ready && r.receive_enabled() {
                ISR_RDA
            } else if r.thre_pending && r.transmit_enabled() {
                ISR_THRE
            } else {
                ISR_NONE
            }
        } else if offset == LCR {
            r.lcr
        } else if offset == MCR {
            r.mcr
        } else if offset == LSR {
            if r.data_ready {
                (LSR_IDLE + 1) as u8
            } else {
                LSR_IDLE
            }
        } else if offset == SCR {
            r.scr
        } else {
            0
        }
    }

    /// The port after a read at `offset`: reading the receiver buffer
    /// releases it, reading the interrupt status acknowledges a
    /// transmitter-empty interrupt that it reported.
    pub open spec fn after_read(self, offset: u64) -> UartView {
        let r = self.regs;
        if offset == RBR_THR && !r.divisor_latch() {
            UartView { regs: UartRegs { data_ready: false, ..r }, ..self }
        } else if offset == ISR_FCR && !(r.data_ready && r.receive_enabled()) {
            UartView { regs: UartRegs { thre_pending: false, ..r }, ..self }
        } else {
            self
        }
    }

    /// The port after `value` has been written at `offset`: a write to the
    /// transmitter holding register appends the byte to the output.
    pub open spec fn after_write(self, offset: u64, value: u8) -> UartView {
        let r = self.regs;
        if offset == RBR_THR {
            if r.divisor_latch() {
                UartView { regs: UartRegs { dll: value, ..r }, ..self }
            } else {
                UartView {
                    regs: UartRegs { thre_pending: true, ..r },
                    output: self.output.push(value),
                    ..self
                }
            }
        } else if offset == IER {
            if r.divisor_latch() {
                UartView { regs: UartRegs { dlm: value, ..r }, ..self }
            } else {
                UartView { regs: UartRegs { ier: value % 16, ..r }, ..self }
            }
        } else if offset == ISR_FCR {
            UartView { regs: UartRegs { fcr: value, ..r }, ..self }
        } else if offset == LCR {
            UartView { regs: UartRegs { lcr: value, ..r }, ..self }
        } else if offset == MCR {
            UartView { regs: UartRegs { mcr: value, ..r }, ..self }
        } else if offset == SCR {
            UartView { regs: UartRegs { scr: value, ..r }, ..self }
        } else {
            self
        }
    }

    /// The port after `n` reads at consecutive offsets from `offset` on, in
    /// ascending order.
    pub open spec fn after_reads(self, offset: u64, n: nat) -> UartView
        decreases n,
    {
        if n == 0 {
            self
        } else {
            self.after_read(offset).after_reads((offset + 1) as u64, (n - 1) as nat)
        }
    }

    /// The little-endian value of the bytes that `n` reads at consecutive
    /// offsets from `offset` on return, in ascending order.
    pub open spec fn read_wide(self, offset: u64, n: nat) -> nat
        decreases n,
    {
        if n == 0 {
            0
        } else {
            self.read_value(offset) as nat + 256 * self.after_read(offset).read_wide(
                (offset + 1) as u64,
                (n - 1) as nat,
            )
        }
    }

    /// The port after the `n` low bytes of `value` have been written at
    /// consecutive offsets from `offset` on, least significant byte first.
    pub open spec fn after_writes(self, offset: u64, value: nat, n: nat) -> UartView
        decreases n,
    {
        if n == 0 {
            self
        } else {
            self.after_write(offset, (value % 256) as u8).after_writes(
                (offset + 1) as u64,
                value / 256,
                (n - 1) as nat,
            )
        }
    }

    /// The port one tick later. A waiting input byte moves into the free
    /// receiver buffer. The interrupt line is sampled: it is raised by an
    /// unread byte while receive interrupts are enabled, and once by each
    /// transmission while transmit interrupts are enabled.
    pub open spec fn after_tick(self) -> UartView {
        let r = self.regs;
        let receives = !r.data_ready && self.input.len() > 0;
        let ready = r.data_ready || receives;
        UartView {
            regs: UartRegs {
                rbr: if receives {
                    self.input[0]
                } else {
                    r.rbr
                },
                data_ready: ready,
                thre_pending: false,
                irq: (ready && r.receive_enabled()) || (r.thre_pending && r.transmit_enabled()),
                ..r
            },
            input: if receives {
                self.input.drop_first()
            } else {
                self.input
            },
            ..self
        }
    }
}

/// The port at reset: every register zero, nothing received and nothing
/// transmitted.
pub open spec fn uart_at_reset(v: UartView) -> bool {
    &&& v.input.len() == 0
    &&& v.output.len() == 0
    &&& v.regs == (UartRegs {
        rbr: 0,
        ier: 0,
        fcr: 0,
        lcr: 0,
        mcr: 0,
        scr: 0,
        dll: 0,
        dlm: 0,
        data_ready: false,
        thre_pending: false,
        irq: false,
    })
}

/// The serial port.
pub struct Uart {
    regs: UartRegs,
    input: Vec<u8>,
    output: Vec<u8>,
}

impl View for Uart {
    type V = UartView;

    closed spec fn view(&self) -> UartView {
        UartView { regs: self.regs, input: self.input@, output: self.output@ }
    }
}

impl Uart {
    /// The port at reset.
    pub fn new() -> (u: Uart)
        ensures
            uart_at_reset(u@),
    {
        Uart {
            regs: UartRegs {
                rbr: 0,
                ier: 0,
                fcr: 0,
                lcr: 0,
                mcr: 0,
                scr: 0,
                dll: 0,
                dlm: 0,
                data_ready: false,
                thre_pending: false,
                irq: false,
            },
            input: Vec::new(),
            output: Vec::new(),
        }
    }

    /// Hands a byte from the terminal to the port.
    pub fn push_input(&mut self, byte: u8)
        ensures
            final(self)@ == (UartView { input: old(self)@.input.push(byte), ..old(self)@ }),
    {
        self.input.push(byte);
    }

    /// Collects what the guest has transmitted since the last call.
    pub fn take_output(&mut self) -> (bytes: Vec<u8>)
        ensures
            bytes@ == old(self)@.output,
            final(self)@ == (UartView { output: Seq::<u8>::empty(), ..old(self)@ }),
    {
        let mut bytes = Vec::new();
        bytes.append(&mut self.output);
        assert(bytes@ =~= old(self)@.output);
        bytes
    }

    /// Whether the interrupt line was raised at the last tick.
    pub fn is_irq(&self) -> (r: bool)
        ensures
            r == self@.regs.irq,
    {
        self.regs.irq
    }

    /// Takes a waiting byte into the receiver buffer and samples the
    /// interrupt line.
    pub fn tick(&mut self)
        ensures
            final(self)@ == old(self)@.after_tick(),
    {
        if !self.regs.data_ready && self.input.len() > 0 {
            self.regs.rbr = self.input.remove(0);
            self.regs.data_ready = true;
            assert(self.input@ =~= old(self).input@.drop_first());
        }
        self.regs.irq = (self.regs.data_ready && self.regs.ier % 2 == 1) || (
        self.regs.thre_pending && (self.regs.ier / 2) % 2 == 1);
        self.regs.thre_pending = false;
    }

    /// Reads the byte at `offset`.
    pub fn read(&mut self, offset: u64) -> (r: u8)
        ensures
            r == old(self)@.read_value(offset),
            final(self)@ == old(self)@.after_read(offset),
    {
        let dlab = self.regs.lcr >= 0x80;
        if offset == RBR_THR {
            if dlab {
                self.regs.dll
            } else {
                self.regs.data_ready = false;
                self.regs.rbr
            }
        } else if offset == IER {
            if dlab {
                self.regs.dlm
            } else {
                self.regs.ier
            }
        } else if offset == ISR_FCR {
            if self.regs.data_ready && self.regs.ier % 2 == 1 {
                ISR_RDA
            } else if self.regs.thre_pending && (self.regs.ier / 2) % 2 == 1 {
                self.regs.thre_pending = false;
                ISR_THRE
            } else {
                self.regs.thre_pending = false;
                ISR_NONE
            }
        } else if offset == LCR {
            self.regs.lcr
        } else if offset == MCR {
            self.regs.mcr
        } else if offset == LSR {
            if self.regs.data_ready {
                LSR_IDLE + 1
            } else {
                LSR_IDLE
            }
        } else if offset == SCR {
            self.regs.scr
        } else {
            0
        }
    }

    /// Writes the byte at `offset`.
    pub fn write(&mut self, offset: u64, value: u8)
        ensures
            final(self)@ == old(self)@.after_write(offset, value),
    {
        let dlab = self.regs.lcr >= 0x80;
        if offset == RBR_THR {
            if dlab {
                self.regs.dll = value;
            } else {
                self.output.push(value);
                self.regs.thre_pending = true;
            }
        } else if offset == IER {
            if dlab {
                self.regs.dlm = value;
            } else {
                self.regs.ier = value % 16;
            }
        } else if offset == ISR_FCR {
            self.regs.fcr = value;
        } else if offset == LCR {
            self.regs.lcr = value;
        } else if offset == MCR {
            self.regs.mcr = value;
        } else if offset == SCR {
            self.regs.scr = value;
        }
    }

    /// Reads `n` bytes at consecutive offsets from `offset` on, in ascending
    /// order, and returns their little-endian value.
    pub fn read_wide(&mut self, offset: u64, n: u8) -> (r: u64)
        requires
            n <= 8,
            offset + n <= u64::MAX,
        ensures
            r == old(self)@.read_wide(offset, n as nat),
            final(self)@ == old(self)@.after_reads(offset, n as nat),
            r < crate::memory::pow256(n as nat),
        decreases n,
    {
        proof {
            crate::memory::lemma_pow256_values();
        }
        if n == 0 {
            return 0;
        }
        let first = self.read(offset) as u64;
        let rest = self.read_wide(offset + 1, n - 1);
        assert(crate::memory::pow256(n as nat) == 256 * crate::memory::pow256((n - 1) as nat));
        first + 0x100 * rest
    }

    /// Writes the `n` low bytes of `value` at consecutive offsets from
    /// `offset` on, least significant byte first.
    pub fn write_wide(&mut self, offset: u64, value: u64, n: u8)
        requires
            offset + n <= u64::MAX,
        ensures
            final(self)@ == old(self)@.after_writes(offset, value as nat, n as nat),
    {
        let mut i: u8 = 0;
        let mut rest: u64 = value;
        while i < n
            invariant
                i <= n,
                offset + n <= u64::MAX,
                old(self)@.after_writes(offset, value as nat, n as nat) == self@.after_writes(
                    (offset + i) as u64,
                    rest as nat,
                    (n - i) as nat,
                ),
            decreases n - i,
        {
            self.write(offset + i as u64, (rest % 0x100) as u8);
            rest = rest / 0x100;
            i += 1;
        }
    }
}

} // verus!
