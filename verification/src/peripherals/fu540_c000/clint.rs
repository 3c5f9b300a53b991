//! Core-local interruptor: the software-interrupt latch and the timer of
//! hart 0.

use vstd::prelude::*;

verus! {

/// Offset of the software-interrupt latch of hart 0.
pub const MSIP: u64 = 0x0000;

/// Offset of the low word of the timer compare register of hart 0.
pub const MTIME_COMPARE: u64 = 0x4000;

/// Offset of the low word of the timer.
pub const MTIME: u64 = 0xbff8;

/// The low 32 bits of a doubleword.
pub open spec fn low_word(v: u64) -> u32 {
    (v % 0x1_0000_0000) as u32
}

/// The high 32 bits of a doubleword.
pub open spec fn high_word(v: u64) -> u32 {
    (v / 0x1_0000_0000) as u32
}

/// The doubleword made of a low and a high word.
pub open spec fn join_words(low: u32, high: u32) -> u64 {
    (low + high * 0x1_0000_0000) as u64
}

/// The low 32 bits of a doubleword.
pub fn low_word_of(v: u64) -> (r: u32)
    ensures
        r == low_word(v),
{
    (v % 0x1_0000_0000) as u32
}

/// The high 32 bits of a doubleword.
pub fn high_word_of(v: u64) -> (r: u32)
    ensures
        r == high_word(v),
{
    (v / 0x1_0000_0000) as u32
}

/// The doubleword made of a low and a high word.
pub fn join_words_of(low: u32, high: u32) -> (r: u64)
    ensures
        r == join_words(low, high),
        low_word(r) == low,
        high_word(r) == high,
{
    low as u64 + (high as u64) * 0x1_0000_0000
}

/// The core-local interruptor of a platform with one hart.
#[derive(Clone, Copy, Debug)]
pub struct Clint {
    /// Software-interrupt latch; only bit 0 is implemented.
    pub msip: u32,
    /// The value of `mtime` at which the timer interrupt becomes pending.
    pub mtime_compare: u64,
    /// Monotonic counter, advanced once per tick.
    pub mtime: u64,
}

impl Clint {
    /// The word read at `offset`. Reading changes nothing.
    pub open spec fn read_value(self, offset: u64) -> u32 {
        if offset == MSIP {
            self.msip
        } else if offset == MTIME_COMPARE {
            low_word(self.mtime_compare)
        } else if offset == MTIME_COMPARE + 4 {
            high_word(self.mtime_compare)
        } else if offset == MTIME {
            low_word(self.mtime)
        } else if offset == MTIME + 4 {
            high_word(self.mtime)
        } else {
            0
        }
    }

    /// The device after `value` has been written at `offset`.
    pub open spec fn after_write(self, offset: u64, value: u32) -> Clint {
        if offset == MSIP {
            Clint { msip: value % 2, ..self }
        } else if offset == MTIME_COMPARE {
            Clint { mtime_compare: join_words(value, high_word(self.mtime_compare)), ..self }
        } else if offset == MTIME_COMPARE + 4 {
            Clint { mtime_compare: join_words(low_word(self.mtime_compare), value), ..self }
        } else if offset == MTIME {
            Clint { mtime: join_words(value, high_word(self.mtime)), ..self }
        } else if offset == MTIME + 4 {
            Clint { mtime: join_words(low_word(self.mtime), value), ..self }
        } else {
            self
        }
    }

    /// The device one tick later: the timer has advanced by one, wrapping.
    pub open spec fn after_tick(self) -> Clint {
        Clint {
            mtime: if self.mtime == u64::MAX {
                0
            } else {
                (self.mtime + 1) as u64
            },
            ..self
        }
    }

    /// A software interrupt is pending for hart 0 iff bit 0 of its latch is
    /// set; the device serves no other hart.
    pub open spec fn software_interrupt(self, core: usize) -> bool {
        core == 0 && self.msip % 2 == 1
    }

    /// A timer interrupt is pending for hart 0 iff the timer has reached its
    /// compare value; the device serves no other hart.
    pub open spec fn timer_interrupt(self, core: usize) -> bool {
        core == 0 && self.mtime >= self.mtime_compare
    }

    /// The device at reset: every register zero.
    pub fn new() -> (c: Clint)
        ensures
            c == (Clint { msip: 0, mtime_compare: 0, mtime: 0 }),
    {
        Clint { msip: 0, mtime_compare: 0, mtime: 0 }
    }

    /// Advances the timer by one.
    pub fn tick(&mut self)
        ensures
            *final(self) == old(self).after_tick(),
    {
        self.mtime = self.mtime.wrapping_add(1);
    }

    /// Whether a software interrupt is pending for hart `core`.
    pub fn is_pending_software_interrupt(&self, core: usize) -> (r: bool)
        ensures
            r == self.software_interrupt(core),
    {
        core == 0 && self.msip % 2 == 1
    }

    /// Whether a timer interrupt is pending for hart `core`.
    pub fn is_pending_timer_interrupt(&self, core: usize) -> (r: bool)
        ensures
            r == self.timer_interrupt(core),
    {
        core == 0 && self.mtime >= self.mtime_compare
    }

    /// Reads the word at `offset`.
    pub fn read(&self, offset: u64) -> (r: u32)
        ensures
            r == self.read_value(offset),
    {
        if offset == MSIP {
            self.msip
        } else if offset == MTIME_COMPARE {
            low_word_of(self.mtime_compare)
        } else if offset == MTIME_COMPARE + 4 {
            high_word_of(self.mtime_compare)
        } else if offset == MTIME {
            low_word_of(self.mtime)
        } else if offset == MTIME + 4 {
            high_word_of(self.mtime)
        } else {
            0
        }
    }

    /// Writes the word at `offset`.
    pub fn write(&mut self, offset: u64, value: u32)
        ensures
            *final(self) == old(self).after_write(offset, value),
    {
        if offset == MSIP {
            self.msip = value % 2;
        } else if offset == MTIME_COMPARE {
            self.mtime_compare = join_words_of(value, high_word_of(self.mtime_compare));
        } else if offset == MTIME_COMPARE + 4 {
            self.mtime_compare = join_words_of(low_word_of(self.mtime_compare), value);
        } else if offset == MTIME {
            self.mtime = join_words_of(value, high_word_of(self.mtime));
        } else if offset == MTIME + 4 {
            self.mtime = join_words_of(low_word_of(self.mtime), value);
        }
    }
}

/// A doubleword written as two words, low then high, reads back whole.
pub proof fn lemma_clint_doubleword(c: Clint, value: u64)
    ensures
        c.after_write(MTIME_COMPARE, low_word(value)).after_write(
            (MTIME_COMPARE + 4) as u64,
            high_word(value),
        ).mtime_compare == value,
        c.after_write(MTIME, low_word(value)).after_write((MTIME + 4) as u64, high_word(value)).mtime
            == value,
{
}

} // verus!
