//! Byte-addressed backing store with little-endian accessors.

use vstd::prelude::*;

verus! {

/// The natural number that a byte sequence denotes when read little-endian:
/// the first byte is the least significant digit in base 256.
pub open spec fn le_uint(bytes: Seq<u8>) -> nat
    decreases bytes.len(),
{
    if bytes.len() == 0 {
        0
    } else {
        bytes[0] as nat + 256 * le_uint(bytes.drop_first())
    }
}

/// The `n` little-endian base-256 digits of `v`, least significant first.
pub open spec fn le_bytes(v: nat, n: nat) -> Seq<u8> {
    Seq::new(n, |i: int| ((v / pow256(i as nat)) % 256) as u8)
}

/// 256 to the power `n`: the number of values that `n` bytes can hold.
pub open spec fn pow256(n: nat) -> nat
    decreases n,
{
    if n == 0 {
        1
    } else {
        256 * pow256((n - 1) as nat)
    }
}

/// The memory `mem` after `bytes` have been written at offset `off`.
pub open spec fn store(mem: Seq<u8>, off: int, bytes: Seq<u8>) -> Seq<u8> {
    Seq::new(
        mem.len(),
        |i: int|
            if off <= i < off + bytes.len() {
                bytes[i - off]
            } else {
                mem[i]
            },
    )
}

/// The `n` bytes of `mem` that start at offset `off`.
pub open spec fn load(mem: Seq<u8>, off: int, n: int) -> Seq<u8> {
    mem.subrange(off, off + n)
}

/// The powers of 256 up to the eighth.
pub proof fn lemma_pow256_values()
    ensures
        pow256(0) == 1,
        pow256(1) == 0x100,
        pow256(2) == 0x1_0000,
        pow256(3) == 0x100_0000,
        pow256(4) == 0x1_0000_0000,
        pow256(5) == 0x100_0000_0000,
        pow256(6) == 0x1_0000_0000_0000,
        pow256(7) == 0x100_0000_0000_0000,
        pow256(8) == 0x1_0000_0000_0000_0000,
{
    reveal_with_fuel(pow256, 10);
}

/// Every power of 256 is positive.
pub proof fn lemma_pow256_positive(n: nat)
    ensures
        pow256(n) > 0,
    decreases n,
{
    if n > 0 {
        lemma_pow256_positive((n - 1) as nat);
    }
}

/// Encoding a value that fits in `n` bytes and decoding it again gives the
/// value back.
pub proof fn lemma_le_round_trip(v: nat, n: nat)
    requires
        v < pow256(n),
    ensures
        le_uint(le_bytes(v, n)) == v,
    decreases n,
{
    if n > 0 {
        let rest = le_bytes(v / 256, (n - 1) as nat);
        let all = le_bytes(v, n);
        lemma_le_round_trip(v / 256, (n - 1) as nat);
        assert forall|i: int| 0 <= i < n - 1 implies all.drop_first()[i] == rest[i] by {
            lemma_pow256_positive(i as nat);
            vstd::arithmetic::div_mod::lemma_div_denominator(
                v as int,
                256,
                pow256(i as nat) as int,
            );
            assert(pow256((i + 1) as nat) == 256 * pow256(i as nat));
        }
        assert(all.drop_first() =~= rest);
        assert(pow256(0int as nat) == 1);
        assert(all[0] == ((v / pow256(0int as nat)) % 256) as u8);
    }
}

/// What was stored at an offset is what is loaded from it.
pub proof fn lemma_load_store(mem: Seq<u8>, off: int, bytes: Seq<u8>)
    requires
        0 <= off,
        off + bytes.len() <= mem.len(),
    ensures
        load(store(mem, off, bytes), off, bytes.len() as int) == bytes,
        store(mem, off, bytes).len() == mem.len(),
{
    assert(load(store(mem, off, bytes), off, bytes.len() as int) =~= bytes);
}

/// Little-endian memory round trip: a value of 1, 2, 4 or 8 bytes written to
/// memory is the value read back from the same offset with the same width.
pub proof fn lemma_memory_round_trip(mem: Seq<u8>, off: int, v: nat, n: nat)
    requires
        n == 1 || n == 2 || n == 4 || n == 8,
        v < pow256(n),
        0 <= off,
        off + n <= mem.len(),
    ensures
        le_uint(load(store(mem, off, le_bytes(v, n)), off, n as int)) == v,
{
    lemma_load_store(mem, off, le_bytes(v, n));
    lemma_le_round_trip(v, n);
}

/// A byte-addressed store of fixed capacity. Multi-byte accesses are
/// little-endian; every access must lie within the capacity.
pub struct Memory {
    data: Vec<u8>,
}

impl View for Memory {
    type V = Seq<u8>;

    closed spec fn view(&self) -> Seq<u8> {
        self.data@
    }
}

impl Memory {
    /// A memory of `capacity` bytes, all zero.
    pub fn new(capacity: usize) -> (m: Memory)
        ensures
            m@.len() == capacity,
            forall|i: int| 0 <= i < capacity ==> m@[i] == 0u8,
    {
        Memory { data: vec![0u8; capacity] }
    }

    /// A memory that holds exactly the bytes of `image`.
    pub fn from_bytes(image: Vec<u8>) -> (m: Memory)
        ensures
            m@ == image@,
    {
        Memory { data: image }
    }

    /// The capacity in bytes.
    pub fn size(&self) -> (n: u64)
        ensures
            n == self@.len(),
    {
        self.data.len() as u64
    }

    /// Copies an initial image to offset 0.
    pub fn initialize(&mut self, image: Vec<u8>)
        requires
            image@.len() <= old(self)@.len(),
        ensures
            final(self)@ == store(old(self)@, 0, image@),
    {
        let n = image.len();
        let mut i: usize = 0;
        while i < n
            invariant
                n == image@.len(),
                i <= n,
                n <= self.data@.len(),
                self.data@.len() == old(self).data@.len(),
                forall|j: int| 0 <= j < i ==> self.data@[j] == image@[j],
                forall|j: int| i <= j < self.data@.len() ==> self.data@[j] == old(self).data@[j],
            decreases n - i,
        {
            self.data[i] = image[i];
            i += 1;
        }
        assert(self.data@ =~= store(old(self).data@, 0, image@));
    }

    /// Whether `n` bytes from `offset` on lie within the memory.
    pub fn in_range(&self, offset: u64, n: u64) -> (r: bool)
        ensures
            r == (offset + n <= self@.len()),
    {
        let len = self.data.len() as u64;
        n <= len && offset <= len - n
    }

    /// The `n` bytes that start at `offset`.
    pub fn read_bytes(&self, offset: u64, n: u64) -> (bytes: Vec<u8>)
        requires
            offset + n <= self@.len(),
        ensures
            bytes@ == load(self@, offset as int, n as int),
    {
        let mut bytes: Vec<u8> = Vec::new();
        if n == 0 {
            assert(bytes@ =~= load(self@, offset as int, 0));
            return bytes;
        }
        let start = self.index_of(offset);
        let count = self.index_of(n - 1) + 1;
        let mut i: usize = 0;
        while i < count
            invariant
                i <= count,
                count == n,
                start == offset,
                start + count <= self.data@.len() <= usize::MAX,
                bytes@ == self.data@.subrange(start as int, start + i),
            decreases count - i,
        {
            bytes.push(self.data[start + i]);
            assert(bytes@ =~= self.data@.subrange(start as int, start + i + 1));
            i += 1;
        }
        bytes
    }

    /// Writes `bytes` at `offset`.
    pub fn write_bytes(&mut self, offset: u64, bytes: &Vec<u8>)
        requires
            offset + bytes@.len() <= old(self)@.len(),
        ensures
            final(self)@ == store(old(self)@, offset as int, bytes@),
    {
        let n = bytes.len();
        if n == 0 {
            assert(self.data@ =~= store(old(self)@, offset as int, bytes@));
            return ;
        }
        let start = self.index_of(offset);
        let mut i: usize = 0;
        while i < n
            invariant
                i <= n,
                n == bytes@.len(),
                start == offset,
                start + n <= self.data@.len() <= usize::MAX,
                self.data@.len() == old(self).data@.len(),
                forall|j: int| start <= j < start + i ==> self.data@[j] == bytes@[j - start],
                forall|j: int|
                    0 <= j < self.data@.len() && !(start <= j < start + i) ==> self.data@[j] == old(
                        self,
                    ).data@[j],
            decreases n - i,
        {
            self.data[start + i] = bytes[i];
            i += 1;
        }
        assert(self.data@ =~= store(old(self)@, offset as int, bytes@));
    }

    /// The offset as an index into the backing vector.
    fn index_of(&self, offset: u64) -> (i: usize)
        requires
            offset < self@.len(),
        ensures
            i == offset,
            self@.len() <= usize::MAX,
    {
        let _len = self.data.len();
        offset as usize
    }

    /// The byte at `offset`.
    pub fn read8(&self, offset: u64) -> (r: u8)
        requires
            offset + 1 <= self@.len(),
        ensures
            r == le_uint(load(self@, offset as int, 1)),
            r == self@[offset as int],
    {
        proof {
            lemma_le_unfold(load(self@, offset as int, 1));
        }
        self.data[self.index_of(offset)]
    }

    /// The halfword at `offset`.
    pub fn read16(&self, offset: u64) -> (r: u16)
        requires
            offset + 2 <= self@.len(),
        ensures
            r == le_uint(load(self@, offset as int, 2)),
    {
        proof {
            lemma_le_unfold(load(self@, offset as int, 2));
        }
        let i = self.index_of(offset);
        self.data[i] as u16 + 256 * (self.data[i + 1] as u16)
    }

    /// The word at `offset`.
    pub fn read32(&self, offset: u64) -> (r: u32)
        requires
            offset + 4 <= self@.len(),
        ensures
            r == le_uint(load(self@, offset as int, 4)),
    {
        proof {
            lemma_le_unfold(load(self@, offset as int, 4));
        }
        let i = self.index_of(offset);
        self.data[i] as u32 + 0x100 * (self.data[i + 1] as u32) + 0x1_0000 * (self.data[i
            + 2] as u32) + 0x100_0000 * (self.data[i + 3] as u32)
    }

    /// The doubleword at `offset`.
    pub fn read64(&self, offset: u64) -> (r: u64)
        requires
            offset + 8 <= self@.len(),
        ensures
            r == le_uint(load(self@, offset as int, 8)),
    {
        proof {
            lemma_le_unfold(load(self@, offset as int, 8));
        }
        let i = self.index_of(offset);
        self.data[i] as u64 + 0x100 * (self.data[i + 1] as u64) + 0x1_0000 * (self.data[i
            + 2] as u64) + 0x100_0000 * (self.data[i + 3] as u64) + 0x1_0000_0000 * (self.data[i
            + 4] as u64) + 0x100_0000_0000 * (self.data[i + 5] as u64) + 0x1_0000_0000_0000 * (
        self.data[i + 6] as u64) + 0x100_0000_0000_0000 * (self.data[i + 7] as u64)
    }

    /// Stores a byte at `offset`.
    pub fn write8(&mut self, offset: u64, value: u8)
        requires
            offset + 1 <= old(self)@.len(),
        ensures
            final(self)@ == store(old(self)@, offset as int, le_bytes(value as nat, 1)),
    {
        proof {
            lemma_le_bytes_unfold(value as nat);
        }
        let i = self.index_of(offset);
        self.data[i] = value;
        assert(self.data@ =~= store(old(self)@, offset as int, le_bytes(value as nat, 1)));
    }

    /// Stores a halfword at `offset`.
    pub fn write16(&mut self, offset: u64, value: u16)
        requires
            offset + 2 <= old(self)@.len(),
        ensures
            final(self)@ == store(old(self)@, offset as int, le_bytes(value as nat, 2)),
    {
        proof {
            lemma_le_bytes_unfold(value as nat);
        }
        let i = self.index_of(offset);
        self.data[i] = (value % 256) as u8;
        self.data[i + 1] = (value / 0x100 % 256) as u8;
        assert(self.data@ =~= store(old(self)@, offset as int, le_bytes(value as nat, 2)));
    }

    /// Stores a word at `offset`.
    pub fn write32(&mut self, offset: u64, value: u32)
        requires
            offset + 4 <= old(self)@.len(),
        ensures
            final(self)@ == store(old(self)@, offset as int, le_bytes(value as nat, 4)),
    {
        proof {
            lemma_le_bytes_unfold(value as nat);
        }
        let i = self.index_of(offset);
        self.data[i] = (value % 256) as u8;
        self.data[i + 1] = (value / 0x100 % 256) as u8;
        self.data[i + 2] = (value / 0x1_0000 % 256) as u8;
        self.data[i + 3] = (value / 0x100_0000 % 256) as u8;
        assert(self.data@ =~= store(old(self)@, offset as int, le_bytes(value as nat, 4)));
    }

    /// Stores a doubleword at `offset`.
    pub fn write64(&mut self, offset: u64, value: u64)
        requires
            offset + 8 <= old(self)@.len(),
        ensures
            final(self)@ == store(old(self)@, offset as int, le_bytes(value as nat, 8)),
    {
        proof {
            lemma_le_bytes_unfold(value as nat);
        }
        let i = self.index_of(offset);
        self.data[i] = (value % 256) as u8;
        self.data[i + 1] = (value / 0x100 % 256) as u8;
        self.data[i + 2] = (value / 0x1_0000 % 256) as u8;
        self.data[i + 3] = (value / 0x100_0000 % 256) as u8;
        self.data[i + 4] = (value / 0x1_0000_0000 % 256) as u8;
        self.data[i + 5] = (value / 0x100_0000_0000 % 256) as u8;
        self.data[i + 6] = (value / 0x1_0000_0000_0000 % 256) as u8;
        self.data[i + 7] = (value / 0x100_0000_0000_0000 % 256) as u8;
        assert(self.data@ =~= store(old(self)@, offset as int, le_bytes(value as nat, 8)));
    }
}

/// The little-endian value of up to eight bytes, digit by digit.
pub proof fn lemma_le_unfold(s: Seq<u8>)
    requires
        s.len() <= 8,
    ensures
        s.len() == 1 ==> le_uint(s) == s[0],
        s.len() == 2 ==> le_uint(s) == s[0] + 0x100 * s[1],
        s.len() == 4 ==> le_uint(s) == s[0] + 0x100 * s[1] + 0x1_0000 * s[2] + 0x100_0000 * s[3],
        s.len() == 8 ==> le_uint(s) == s[0] + 0x100 * s[1] + 0x1_0000 * s[2] + 0x100_0000 * s[3]
            + 0x1_0000_0000 * s[4] + 0x100_0000_0000 * s[5] + 0x1_0000_0000_0000 * s[6]
            + 0x100_0000_0000_0000 * s[7],
{
    reveal_with_fuel(le_uint, 9);
    let t1 = s.drop_first();
    let t2 = t1.drop_first();
    let t3 = t2.drop_first();
    let t4 = t3.drop_first();
    let t5 = t4.drop_first();
    let t6 = t5.drop_first();
    let t7 = t6.drop_first();
    if s.len() == 8 {
        assert(t1[0] == s[1] && t2[0] == s[2] && t3[0] == s[3] && t4[0] == s[4] && t5[0] == s[5]
            && t6[0] == s[6] && t7[0] == s[7]);
    } else if s.len() == 4 {
        assert(t1[0] == s[1] && t2[0] == s[2] && t3[0] == s[3]);
    } else if s.len() == 2 {
        assert(t1[0] == s[1]);
    }
}

/// The first eight little-endian digits of a value, one by one.
pub proof fn lemma_le_bytes_unfold(v: nat)
    ensures
        le_bytes(v, 1) =~= seq![(v % 256) as u8],
        le_bytes(v, 2) =~= seq![(v % 256) as u8, (v / 0x100 % 256) as u8],
        le_bytes(v, 4) =~= seq![
            (v % 256) as u8,
            (v / 0x100 % 256) as u8,
            (v / 0x1_0000 % 256) as u8,
            (v / 0x100_0000 % 256) as u8,
        ],
        le_bytes(v, 8) =~= seq![
            (v % 256) as u8,
            (v / 0x100 % 256) as u8,
            (v / 0x1_0000 % 256) as u8,
            (v / 0x100_0000 % 256) as u8,
            (v / 0x1_0000_0000 % 256) as u8,
            (v / 0x100_0000_0000 % 256) as u8,
            (v / 0x1_0000_0000_0000 % 256) as u8,
            (v / 0x100_0000_0000_0000 % 256) as u8,
        ],
{
    lemma_pow256_values();
}

} // verus!
