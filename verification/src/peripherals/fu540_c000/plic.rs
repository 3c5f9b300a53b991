//! Platform-level interrupt controller: 31 interrupt sources and two
//! contexts, the machine mode and the supervisor mode of hart 0.

use vstd::prelude::*;

verus! {

/// Number of source ids, the unused id 0 included.
pub const SOURCES: u32 = 32;

/// Number of contexts.
pub const CONTEXTS: usize = 2;

/// Offset of the pending bits.
pub const PENDING: u64 = 0x1000;

/// Offset of the enable bits of context 0; those of context 1 follow at
/// `ENABLE_STRIDE`.
pub const ENABLE: u64 = 0x2000;

/// Distance between the enable bits of two contexts.
pub const ENABLE_STRIDE: u64 = 0x80;

/// Offset of the priority threshold of context 0; the claim/complete
/// register follows it, and the pair of context 1 at `CONTEXT_STRIDE`.
pub const THRESHOLD: u64 = 0x20_0000;

/// Distance between the threshold registers of two contexts.
pub const CONTEXT_STRIDE: u64 = 0x1000;

/// Bit `s` of `mask` is set.
pub open spec fn has_bit(mask: u32, s: u32) -> bool {
    s < 32 && (mask >> s) & 1 == 1
}

/// `mask` with bit `s` set.
pub open spec fn with_bit(mask: u32, s: u32) -> u32 {
    mask | (1u32 << s)
}

/// `mask` with bit `s` cleared.
pub open spec fn without_bit(mask: u32, s: u32) -> u32 {
    mask & !(1u32 << s)
}

/// What setting and clearing a bit does to every bit.
pub proof fn lemma_bits(mask: u32, s: u32, t: u32)
    by (bit_vector)
    requires
        s < 32,
        t < 32,
    ensures
        ((with_bit(mask, s) >> t) & 1 == 1) == (t == s || (mask >> t) & 1 == 1),
        ((without_bit(mask, s) >> t) & 1 == 1) == (t != s && (mask >> t) & 1 == 1),
        (mask >> s) & 1 == 1 ==> with_bit(without_bit(mask, s), s) == mask,
        (mask >> s) & 1 != 1 ==> without_bit(with_bit(mask, s), s) == mask,
        (mask >> s) & 1 == 1 ==> with_bit(mask, s) == mask,
        (mask >> s) & 1 != 1 ==> without_bit(mask, s) == mask,
{
}

fn test_bit(mask: u32, s: u32) -> (r: bool)
    ensures
        r == has_bit(mask, s),
{
    s < 32 && (mask >> s) & 1 == 1
}

fn set_bit(mask: u32, s: u32) -> (r: u32)
    requires
        s < 32,
    ensures
        r == with_bit(mask, s),
{
    mask | (1u32 << s)
}

fn clear_bit(mask: u32, s: u32) -> (r: u32)
    requires
        s < 32,
    ensures
        r == without_bit(mask, s),
{
    mask & !(1u32 << s)
}

/// The controller as a mathematical value.
pub struct PlicView {
    /// Priority of each source; 0 means that the source never interrupts.
    pub priority: Seq<u32>,
    /// Bit `s` is set while source `s` waits to be claimed.
    pub pending: u32,
    /// Bit `s` is set from the claim of source `s` to its completion; the
    /// source cannot become pending meanwhile.
    pub in_service: u32,
    /// The sources that each context accepts.
    pub enable: Seq<u32>,
    /// The priority that a source must exceed to interrupt each context.
    pub threshold: Seq<u32>,
}

/// The register that an offset selects.
pub enum PlicRegister {
    Priority(u32),
    Pending,
    Enable(usize),
    Threshold(usize),
    Claim(usize),
    Unmapped,
}

/// The register at an offset.
pub open spec fn register_at(offset: u64) -> PlicRegister {
    if 4 <= offset < 4 * SOURCES && offset % 4 == 0 {
        PlicRegister::Priority((offset / 4) as u32)
    } else if offset == PENDING {
        PlicRegister::Pending
    } else if offset == ENABLE {
        PlicRegister::Enable(0)
    } else if offset == ENABLE + ENABLE_STRIDE {
        PlicRegister::Enable(1)
    } else if offset == THRESHOLD {
        PlicRegister::Threshold(0)
    } else if offset == THRESHOLD + CONTEXT_STRIDE {
        PlicRegister::Threshold(1)
    } else if offset == THRESHOLD + 4 {
        PlicRegister::Claim(0)
    } else if offset == THRESHOLD + CONTEXT_STRIDE + 4 {
        PlicRegister::Claim(1)
    } else {
        PlicRegister::Unmapped
    }
}

fn decode_register(offset: u64) -> (r: PlicRegister)
    ensures
        r == register_at(offset),
        r matches PlicRegister::Priority(s) ==> 1 <= s < SOURCES,
        r matches PlicRegister::Enable(c) ==> c < CONTEXTS,
        r matches PlicRegister::Threshold(c) ==> c < CONTEXTS,
        r matches PlicRegister::Claim(c) ==> c < CONTEXTS,
{
    if 4 <= offset && offset < 4 * (SOURCES as u64) && offset % 4 == 0 {
        PlicRegister::Priority((offset / 4) as u32)
    } else if offset == PENDING {
        PlicRegister::Pending
    } else if offset == ENABLE {
        PlicRegister::Enable(0)
    } else if offset == ENABLE + ENABLE_STRIDE {
        PlicRegister::Enable(1)
    } else if offset == THRESHOLD {
        PlicRegister::Threshold(0)
    } else if offset == THRESHOLD + CONTEXT_STRIDE {
        PlicRegister::Threshold(1)
    } else if offset == THRESHOLD + 4 {
        PlicRegister::Claim(0)
    } else if offset == THRESHOLD + CONTEXT_STRIDE + 4 {
        PlicRegister::Claim(1)
    } else {
        PlicRegister::Unmapped
    }
}

impl PlicView {
    /// Well-formedness: a priority for each source id, and enable bits and
    /// a threshold for each context.
    pub open spec fn wf(self) -> bool {
        &&& self.priority.len() == SOURCES
        &&& self.enable.len() == CONTEXTS
        &&& self.threshold.len() == CONTEXTS
    }

    /// Source `s` can be claimed by context `c`: it is pending, enabled for
    /// the context, and has a priority.
    pub open spec fn claimable(self, c: int, s: u32) -> bool {
        &&& 1 <= s < SOURCES
        &&& has_bit(self.pending, s)
        &&& has_bit(self.enable[c], s)
        &&& self.priority[s as int] > 0
    }

    /// Source `s` is the one that a claim by context `c` returns: of the
    /// claimable sources it has the highest priority, and among those of
    /// that priority the lowest id.
    pub open spec fn is_best(self, c: int, s: u32) -> bool {
        &&& self.claimable(c, s)
        &&& forall|t: u32| #[trigger]
            self.claimable(c, t) ==> self.priority[t as int] < self.priority[s as int] || (
            self.priority[t as int] == self.priority[s as int] && s <= t)
    }

    /// The best claimable source with an id below `n`, or 0 if there is
    /// none.
    pub open spec fn best_below(self, c: int, n: u32) -> u32
        decreases n,
    {
        if n <= 1 {
            0
        } else {
            let s = (n - 1) as u32;
            let b = self.best_below(c, s);
            if self.claimable(c, s) && (b == 0 || self.priority[s as int] > self.priority[b as int]) {
                s
            } else {
                b
            }
        }
    }

    /// The source that a claim by context `c` returns, or 0 if none can be
    /// claimed.
    pub open spec fn best(self, c: int) -> u32 {
        self.best_below(c, SOURCES)
    }

    /// The external-interrupt line of context `c`: raised while a claimable
    /// source exceeds the context's threshold.
    pub open spec fn line(self, c: int) -> bool {
        self.best(c) != 0 && self.priority[self.best(c) as int] > self.threshold[c]
    }

    /// The lines of all contexts.
    pub open spec fn lines(self) -> Seq<bool> {
        seq![self.line(0), self.line(1)]
    }

    /// The controller after context `c` has claimed: the claimed source is
    /// no longer pending and is in service.
    pub open spec fn after_claim(self, c: int) -> PlicView {
        let s = self.best(c);
        if s == 0 {
            self
        } else {
            PlicView {
                pending: without_bit(self.pending, s),
                in_service: with_bit(self.in_service, s),
                ..self
            }
        }
    }

    /// The controller after context `c` has completed source `id`. An id
    /// that is no source enabled for the context is ignored.
    pub open spec fn after_complete(self, c: int, id: u32) -> PlicView {
        if 1 <= id < SOURCES && has_bit(self.enable[c], id) {
            PlicView { in_service: without_bit(self.in_service, id), ..self }
        } else {
            self
        }
    }

    /// The controller after source `s` has asserted its line: the source
    /// becomes pending unless it is in service.
    pub open spec fn after_raise(self, s: usize) -> PlicView {
        if 1 <= s < SOURCES && !has_bit(self.in_service, s as u32) {
            PlicView { pending: with_bit(self.pending, s as u32), ..self }
        } else {
            self
        }
    }

    /// The controller after the sources `ids` have asserted their lines.
    pub open spec fn after_raise_all(self, ids: Seq<usize>) -> PlicView
        decreases ids.len(),
    {
        if ids.len() == 0 {
            self
        } else {
            self.after_raise_all(ids.drop_last()).after_raise(ids.last())
        }
    }

    /// The word read at `offset`.
    pub open spec fn read_value(self, offset: u64) -> u32 {
        match register_at(offset) {
            PlicRegister::Priority(s) => self.priority[s as int],
            PlicRegister::Pending => self.pending,
            PlicRegister::Enable(c) => self.enable[c as int],
            PlicRegister::Threshold(c) => self.threshold[c as int],
            PlicRegister::Claim(c) => self.best(c as int),
            PlicRegister::Unmapped => 0,
        }
    }

    /// The controller after a read at `offset`: reading a claim register
    /// claims.
    pub open spec fn after_read(self, offset: u64) -> PlicView {
        match register_at(offset) {
            PlicRegister::Claim(c) => self.after_claim(c as int),
            _ => self,
        }
    }

    /// The controller after `value` has been written at `offset`: writing a
    /// claim register completes. Priorities and thresholds have three bits;
    /// source 0 cannot be enabled; the pending bits are read-only.
    pub open spec fn after_write(self, offset: u64, value: u32) -> PlicView {
        match register_at(offset) {
            PlicRegister::Priority(s) => PlicView {
                priority: self.priority.update(s as int, value % 8),
                ..self
            },
            PlicRegister::Pending => self,
            PlicRegister::Enable(c) => PlicView {
                enable: self.enable.update(c as int, (value - value % 2) as u32),
                ..self
            },
            PlicRegister::Threshold(c) => PlicView {
                threshold: self.threshold.update(c as int, value % 8),
                ..self
            },
            PlicRegister::Claim(c) => self.after_complete(c as int, value),
            PlicRegister::Unmapped => self,
        }
    }
}

/// A claim returns 0 exactly when nothing can be claimed, and otherwise the
/// claimable source of the highest priority, the lowest id breaking ties.
pub proof fn lemma_best_below(p: PlicView, c: int, n: u32)
    requires
        p.wf(),
        n <= SOURCES,
    ensures
        p.best_below(c, n) < n || p.best_below(c, n) == 0,
        p.best_below(c, n) != 0 ==> p.claimable(c, p.best_below(c, n)),
        forall|t: u32| #[trigger]
            p.claimable(c, t) && t < n ==> {
                let b = p.best_below(c, n);
                b != 0 && (p.priority[t as int] < p.priority[b as int] || (p.priority[t as int]
                    == p.priority[b as int] && b <= t))
            },
    decreases n,
{
    if n > 1 {
        lemma_best_below(p, c, (n - 1) as u32);
    }
}

/// A claim returns 0 exactly when nothing can be claimed, and otherwise
/// the best source.
pub proof fn lemma_best(p: PlicView, c: int)
    requires
        p.wf(),
    ensures
        p.best(c) == 0 <==> forall|t: u32| !#[trigger] p.claimable(c, t),
        p.best(c) != 0 ==> p.is_best(c, p.best(c)),
{
    lemma_best_below(p, c, SOURCES);
}

/// The controller at reset: nothing pending, nothing in service, every
/// priority and threshold zero, nothing enabled.
pub open spec fn plic_at_reset(p: PlicView) -> bool {
    &&& p.wf()
    &&& p.pending == 0
    &&& p.in_service == 0
    &&& forall|s: int| 0 <= s < SOURCES ==> p.priority[s] == 0
    &&& forall|c: int| 0 <= c < CONTEXTS ==> p.enable[c] == 0 && p.threshold[c] == 0
}

/// The interrupt controller.
pub struct Plic {
    priority: [u32; 32],
    pending: u32,
    in_service: u32,
    enable: [u32; 2],
    threshold: [u32; 2],
}

impl View for Plic {
    type V = PlicView;

    closed spec fn view(&self) -> PlicView {
        PlicView {
            priority: self.priority@,
            pending: self.pending,
            in_service: self.in_service,
            enable: self.enable@,
            threshold: self.threshold@,
        }
    }
}

impl Plic {
    /// The controller at reset.
    pub fn new() -> (p: Plic)
        ensures
            plic_at_reset(p@),
    {
        Plic {
            priority: [0u32; 32],
            pending: 0,
            in_service: 0,
            enable: [0u32; 2],
            threshold: [0u32; 2],
        }
    }

    fn claimable(&self, c: usize, s: u32) -> (r: bool)
        requires
            c < CONTEXTS,
        ensures
            r == self@.claimable(c as int, s),
    {
        1 <= s && s < SOURCES && test_bit(self.pending, s) && test_bit(self.enable[c], s)
            && self.priority[s as usize] > 0
    }

    /// The source that a claim by context `c` would return.
    pub fn best(&self, c: usize) -> (r: u32)
        requires
            c < CONTEXTS,
        ensures
            r == self@.best(c as int),
            r < SOURCES,
    {
        let mut b: u32 = 0;
        let mut n: u32 = 1;
        while n < SOURCES
            invariant
                1 <= n <= SOURCES,
                c < CONTEXTS,
                b == self@.best_below(c as int, n),
                b < n,
            decreases SOURCES - n,
        {
            if self.claimable(c, n) && (b == 0 || self.priority[n as usize]
                > self.priority[b as usize]) {
                b = n;
            }
            n += 1;
        }
        b
    }

    /// The external-interrupt line of context `c`.
    pub fn line(&self, c: usize) -> (r: bool)
        requires
            c < CONTEXTS,
        ensures
            r == self@.line(c as int),
    {
        let b = self.best(c);
        b != 0 && self.priority[b as usize] > self.threshold[c]
    }

    /// Latches the sources that assert their lines in this tick, and
    /// returns the external-interrupt line of each context.
    pub fn tick(&mut self, _core: usize, interrupts: Vec<usize>) -> (lines: Vec<bool>)
        ensures
            final(self)@ == old(self)@.after_raise_all(interrupts@),
            lines@ == final(self)@.lines(),
    {
        let mut i: usize = 0;
        while i < interrupts.len()
            invariant
                i <= interrupts@.len(),
                self@ == old(self)@.after_raise_all(interrupts@.take(i as int)),
            decreases interrupts@.len() - i,
        {
            let s = interrupts[i];
            assert(interrupts@.take(i + 1).drop_last() =~= interrupts@.take(i as int));
            if 1 <= s && s < SOURCES as usize && !test_bit(self.in_service, s as u32) {
                self.pending = set_bit(self.pending, s as u32);
            }
            i += 1;
        }
        assert(interrupts@.take(i as int) =~= interrupts@);
        let mut lines: Vec<bool> = Vec::new();
        lines.push(self.line(0));
        lines.push(self.line(1));
        assert(lines@ =~= self@.lines());
        lines
    }

    /// Reads the word at `offset`. Reading a claim register claims.
    pub fn read(&mut self, offset: u64) -> (r: u32)
        ensures
            r == old(self)@.read_value(offset),
            final(self)@ == old(self)@.after_read(offset),
    {
        match decode_register(offset) {
            PlicRegister::Priority(s) => self.priority[s as usize],
            PlicRegister::Pending => self.pending,
            PlicRegister::Enable(c) => self.enable[c],
            PlicRegister::Threshold(c) => self.threshold[c],
            PlicRegister::Claim(c) => {
                let s = self.best(c);
                if s != 0 {
                    self.pending = clear_bit(self.pending, s);
                    self.in_service = set_bit(self.in_service, s);
                }
                s
            },
            PlicRegister::Unmapped => 0,
        }
    }

    /// Writes the word at `offset`. Writing a claim register completes.
    pub fn write(&mut self, offset: u64, value: u32)
        ensures
            final(self)@ == old(self)@.after_write(offset, value),
    {
        match decode_register(offset) {
            PlicRegister::Priority(s) => {
                self.priority[s as usize] = value % 8;
            },
            PlicRegister::Pending => {},
            PlicRegister::Enable(c) => {
                self.enable[c] = value - value % 2;
            },
            PlicRegister::Threshold(c) => {
                self.threshold[c] = value % 8;
            },
            PlicRegister::Claim(c) => {
                if 1 <= value && value < SOURCES && test_bit(self.enable[c], value) {
                    self.in_service = clear_bit(self.in_service, value);
                }
            },
            PlicRegister::Unmapped => {},
        }
    }
}

/// Claim, complete, assert again: when context `c` claims source `s`,
/// completes it, and the source then asserts its line once more, the
/// controller is back in the state before the claim, so the next claim
/// returns `s` again.
pub proof fn lemma_claim_complete_reassert(p: PlicView, c: int, s: u32)
    requires
        p.wf(),
        0 <= c < CONTEXTS,
        s != 0,
        p.best(c) == s,
        !has_bit(p.in_service, s),
    ensures
        p.after_claim(c).after_complete(c, s).after_raise(s as usize) == p,
        p.after_claim(c).after_complete(c, s).after_raise(s as usize).best(c) == s,
        !has_bit(p.after_claim(c).pending, s),
        has_bit(p.after_claim(c).after_complete(c, s).after_raise(s as usize).pending, s),
{
    lemma_best(p, c);
    assert(p.claimable(c, s));
    lemma_bits(p.pending, s, s);
    lemma_bits(p.in_service, s, s);
    lemma_bits(without_bit(p.pending, s), s, s);
    lemma_bits(with_bit(p.in_service, s), s, s);
}

/// A source that is in service cannot become pending: between its claim
/// and its completion an asserted line is not latched.
pub proof fn lemma_in_service_is_masked(p: PlicView, c: int, s: u32)
    requires
        p.wf(),
        0 <= c < CONTEXTS,
        s != 0,
        p.best(c) == s,
    ensures
        p.after_claim(c).after_raise(s as usize) == p.after_claim(c),
{
    lemma_best(p, c);
    lemma_bits(p.in_service, s, s);
}

} // verus!
