use vstd::prelude::*;
use vstd::arithmetic::power2::{pow2, lemma_pow2_unfold, lemma2_to64, lemma2_to64_rest, lemma_pow2_pos, lemma_pow2_strictly_increases};
use vstd::arithmetic::div_mod::{lemma_mod_breakdown, lemma_div_denominator, lemma_div_pos_is_pos};

verus! {

/// Errors raised while reading or writing protocol data units.
#[derive(Debug)]
pub enum PduParseErr {
    /// The buffer ended before the named field could be read.
    BufferEnded { field: Option<&'static str> },
    /// The PDU type field held another type than the one expected.
    InvalidPduType { expected: u64, found: u64 },
    /// The named field held a value that has no meaning.
    InvalidValue { field: &'static str, value: u64 },
    /// A field that must be present for the given PDU contents is absent.
    FieldNotPresent { field: Option<&'static str> },
}

/// Unsigned value of a bit sequence, read most significant bit first.
pub open spec fn bits_value(s: Seq<bool>) -> nat
    decreases s.len(),
{
    if s.len() == 0 {
        0
    } else {
        2 * bits_value(s.drop_last()) + (if s.last() { 1nat } else { 0nat })
    }
}

/// The `n` low-order bits of `v`, most significant bit first.
pub open spec fn value_bits(v: nat, n: nat) -> Seq<bool> {
    Seq::new(n, |i: int| (v / pow2((n - 1 - i) as nat)) % 2 == 1)
}

/// The value of the `n` bits of `s` that start at `pos`.
pub open spec fn field_value(s: Seq<bool>, pos: int, n: nat) -> nat {
    bits_value(s.subrange(pos, pos + n))
}

/// `s` with `w` written over it from `pos` on, grown where `w` runs past its end.
pub open spec fn splice_bits(s: Seq<bool>, pos: int, w: Seq<bool>) -> Seq<bool> {
    s.take(pos) + w + (if pos + w.len() < s.len() {
        s.skip(pos + w.len())
    } else {
        Seq::<bool>::empty()
    })
}

/// The bits of a byte sequence, each byte most significant bit first.
pub open spec fn bytes_to_bits(b: Seq<u8>) -> Seq<bool> {
    Seq::new(8 * b.len(), |i: int| (b[i / 8] as nat / pow2((7 - i % 8) as nat)) % 2 == 1)
}

/// A value read from `n` bits is below 2^n.
pub proof fn lemma_bits_value_bound(s: Seq<bool>)
    ensures
        bits_value(s) < pow2(s.len()),
    decreases s.len(),
{
    if s.len() == 0 {
        lemma2_to64();
    } else {
        lemma_bits_value_bound(s.drop_last());
        lemma_pow2_unfold(s.len());
    }
}

/// Reading back the bits of `v` gives `v` modulo 2^n.
pub proof fn lemma_value_bits_roundtrip(v: nat, n: nat)
    ensures
        value_bits(v, n).len() == n,
        bits_value(value_bits(v, n)) == v % pow2(n),
    decreases n,
{
    if n == 0 {
        lemma2_to64();
        assert(value_bits(v, 0) =~= Seq::<bool>::empty());
    } else {
        let w = value_bits(v, n);
        let rest = value_bits(v / 2, (n - 1) as nat);
        assert forall|i: int| 0 <= i < n - 1 implies #[trigger] w.drop_last()[i] == rest[i] by {
            let k = (n - 2 - i) as nat;
            lemma_pow2_unfold(k + 1);
            lemma_pow2_pos(k);
            lemma_div_denominator(v as int, 2, pow2(k) as int);
            assert(pow2((n - 1 - i) as nat) == 2 * pow2(k));
        }
        assert(w.drop_last() =~= rest);
        assert(w.last() == (v % 2 == 1)) by {
            lemma2_to64();
            assert(w.last() == w[n - 1]);
            assert((n - 1 - (n - 1)) as nat == 0);
            assert(v / 1 == v);
        }
        lemma_value_bits_roundtrip(v / 2, (n - 1) as nat);
        lemma_pow2_pos((n - 1) as nat);
        lemma_pow2_unfold(n);
        lemma_mod_breakdown(v as int, 2, pow2((n - 1) as nat) as int);
        assert(bits_value(w) == 2 * bits_value(rest) + (if v % 2 == 1 { 1nat } else { 0nat }));
    }
}

/// Writing `w` at `pos` and reading the same span back gives `w`.
pub proof fn lemma_splice_reads_back(s: Seq<bool>, pos: int, w: Seq<bool>)
    requires
        0 <= pos <= s.len(),
    ensures
        splice_bits(s, pos, w).subrange(pos, pos + w.len()) =~= w,
        splice_bits(s, pos, w).take(pos) =~= s.take(pos),
        splice_bits(s, pos, w).len() == if pos + w.len() < s.len() {
            s.len() as int
        } else {
            pos + w.len()
        },
{
}

/// Reading a field right after writing a value over it gives the value, cut to the
/// field's width: what a write stores, a read of the same span gives back.
pub proof fn lemma_write_then_read(s: Seq<bool>, pos: int, v: nat, n: nat)
    requires
        0 <= pos <= s.len(),
    ensures
        field_value(splice_bits(s, pos, value_bits(v, n)), pos, n) == v % pow2(n),
{
    lemma_value_bits_roundtrip(v, n);
    lemma_splice_reads_back(s, pos, value_bits(v, n));
}

/// Two writes side by side at the cursor amount to one write of both, in order.
pub proof fn lemma_splice_concat(s: Seq<bool>, pos: int, w1: Seq<bool>, w2: Seq<bool>)
    requires
        0 <= pos <= s.len(),
    ensures
        splice_bits(splice_bits(s, pos, w1), pos + w1.len(), w2) =~= splice_bits(s, pos, w1 + w2),
{
    let t = splice_bits(s, pos, w1);
    assert(t.take(pos + w1.len()) =~= s.take(pos) + w1);
    if pos + w1.len() + w2.len() < s.len() {
        assert(t.skip(pos + w1.len() + w2.len()) =~= s.skip(pos + w1.len() + w2.len()));
    }
}

/// Any span inside a written block reads as the matching span of the block.
pub proof fn lemma_splice_span(s: Seq<bool>, pos: int, w: Seq<bool>, i: int, n: int)
    requires
        0 <= pos <= s.len(),
        0 <= i,
        0 <= n,
        i + n <= w.len(),
    ensures
        splice_bits(s, pos, w).subrange(pos + i, pos + i + n) =~= w.subrange(i, i + n),
{
}

/// One for a set flag, zero for a clear one.
pub closed spec fn flag_value(b: bool) -> u32 {
    if b {
        1u32
    } else {
        0u32
    }
}

/// A flag's value is at most one, and it is nonzero exactly where the flag is set.
pub proof fn lemma_flag_value(b: bool)
    ensures
        flag_value(b) <= 1u32,
        (flag_value(b) != 0u32) == b,
{
}

/// A flag's value is what casting the flag to an integer gives.
pub proof fn lemma_flag_cast(b: bool)
    ensures
        b as u32 == flag_value(b),
{
}

/// The bits of a byte sequence hold each byte in its own eight bits, most significant
/// first: reading eight bits at byte `i` gives byte `i`.
pub proof fn lemma_bytes_to_bits_bytes(b: Seq<u8>, i: int)
    requires
        0 <= i < b.len(),
    ensures
        bytes_to_bits(b).len() == 8 * b.len(),
        bytes_to_bits(b).subrange(8 * i, 8 * i + 8) == value_bits(b[i] as nat, 8),
        field_value(bytes_to_bits(b), 8 * i, 8) == b[i],
{
    let s = bytes_to_bits(b).subrange(8 * i, 8 * i + 8);
    assert forall|k: int| 0 <= k < 8 implies #[trigger] s[k] == value_bits(b[i] as nat, 8)[k] by {
        assert((8 * i + k) / 8 == i);
        assert((8 * i + k) % 8 == k);
    }
    assert(s =~= value_bits(b[i] as nat, 8));
    lemma_value_bits_roundtrip(b[i] as nat, 8);
    lemma2_to64();
}

/// A buffer of bits with a cursor, read and written most significant bit first.
pub struct BitBuffer {
    bits: Vec<bool>,
    pos: usize,
}

impl BitBuffer {
    #[verifier::type_invariant]
    pub closed spec fn cursor_in_range(self) -> bool {
        self.pos <= self.bits@.len()
    }

    /// The bits the buffer holds.
    pub closed spec fn bits(&self) -> Seq<bool> {
        self.bits@
    }

    /// The cursor: the index of the next bit to read or write.
    pub closed spec fn pos(&self) -> int {
        self.pos as int
    }

    /// An empty buffer with its cursor at the start.
    pub fn new() -> (r: BitBuffer)
        ensures
            r.bits() == Seq::<bool>::empty(),
            r.pos() == 0,
    {
        BitBuffer { bits: Vec::new(), pos: 0 }
    }

    /// A buffer holding the bits of `data`, with its cursor at the start.
    pub fn from_bytes(data: &[u8]) -> (r: BitBuffer)
        requires
            8 * data@.len() <= usize::MAX,
        ensures
            r.bits() == bytes_to_bits(data@),
            r.pos() == 0,
    {
        let mut bits: Vec<bool> = Vec::new();
        let n: usize = data.len();
        let mut i: usize = 0;
        while i < n
            invariant
                n == data@.len(),
                8 * n <= usize::MAX,
                i <= n,
                bits@.len() == 8 * i,
                forall|j: int| 0 <= j < 8 * i ==> #[trigger] bits@[j] == bytes_to_bits(data@)[j],
            decreases n - i,
        {
            let byte: u8 = data[i];
            let mut k: usize = 0;
            while k < 8
                invariant
                    n == data@.len(),
                    8 * n <= usize::MAX,
                    i < n,
                    byte == data@[i as int],
                    k <= 8,
                    bits@.len() == 8 * i + k,
                    forall|j: int|
                        0 <= j < 8 * i + k ==> #[trigger] bits@[j] == bytes_to_bits(data@)[j],
                decreases 8 - k,
            {
                let shift: u8 = 7 - k as u8;
                let b: bool = (byte >> shift) & 1 == 1;
                proof {
                    let j = 8 * i + k;
                    assert(j / 8 == i as int);
                    assert(j % 8 == k as int);
                    vstd::bits::lemma_u8_shr_is_div(byte, shift);
                    assert((byte >> shift) & 1 == (byte >> shift) % 2) by (bit_vector);
                    assert(b == bytes_to_bits(data@)[j]);
                }
                bits.push(b);
                k = k + 1;
            }
            i = i + 1;
        }
        assert(bits@ =~= bytes_to_bits(data@));
        BitBuffer { bits, pos: 0 }
    }

    /// Number of bits in the buffer.
    pub fn get_len(&self) -> (r: usize)
        ensures
            r == self.bits().len(),
    {
        self.bits.len()
    }

    /// Position of the cursor.
    pub fn get_pos(&self) -> (r: usize)
        ensures
            r == self.pos(),
    {
        self.pos
    }

    /// Moves the cursor to `pos`.
    pub fn seek(&mut self, pos: usize)
        requires
            pos <= old(self).bits().len(),
        ensures
            final(self).bits() == old(self).bits(),
            final(self).pos() == pos,
    {
        self.pos = pos;
    }

    /// Reads the next `num_bits` bits as an unsigned value and moves the cursor past them;
    /// where fewer bits are left, fails naming `field` and leaves the buffer as it was.
    pub fn read_field(&mut self, num_bits: usize, field: &'static str) -> (r: Result<u64, PduParseErr>)
        requires
            num_bits <= 64,
        ensures
            final(self).bits() == old(self).bits(),
            0 <= old(self).pos() <= old(self).bits().len(),
            old(self).pos() + num_bits <= old(self).bits().len() ==> {
                &&& r == Ok::<u64, PduParseErr>(
                    field_value(old(self).bits(), old(self).pos(), num_bits as nat) as u64,
                )
                &&& field_value(old(self).bits(), old(self).pos(), num_bits as nat) < pow2(
                    num_bits as nat,
                )
                &&& final(self).pos() == old(self).pos() + num_bits
            },
            old(self).pos() + num_bits > old(self).bits().len() ==> {
                &&& r == Err::<u64, PduParseErr>(PduParseErr::BufferEnded { field: Some(field) })
                &&& final(self).pos() == old(self).pos()
            },
    {
        proof {
            use_type_invariant(&*self);
        }
        let len: usize = self.bits.len();
        if num_bits > len - self.pos {
            return Err(PduParseErr::BufferEnded { field: Some(field) });
        }
        let start: usize = self.pos;
        let mut acc: u64 = 0;
        let mut i: usize = 0;
        proof {
            lemma2_to64();
        }
        while i < num_bits
            invariant
                num_bits <= 64,
                len == self.bits@.len(),
                start + num_bits <= self.bits@.len(),
                i <= num_bits,
                acc as nat == field_value(self.bits@, start as int, i as nat),
                acc < pow2(i as nat),
            decreases num_bits - i,
        {
            let b: bool = self.bits[start + i];
            let ghost prefix = self.bits@.subrange(start as int, start + i);
            let ghost next = self.bits@.subrange(start as int, start + i + 1);
            proof {
                assert(next.drop_last() =~= prefix);
                assert(next.last() == b);
                lemma_pow2_unfold((i + 1) as nat);
                if i + 1 < 64 {
                    lemma_pow2_strictly_increases((i + 1) as nat, 64);
                }
                lemma2_to64_rest();
            }
            acc = if b { acc * 2 + 1 } else { acc * 2 };
            i = i + 1;
        }
        proof {
            lemma_bits_value_bound(self.bits@.subrange(start as int, start + num_bits));
        }
        self.pos = start + num_bits;
        Ok(acc)
    }

    /// Writes the `num_bits` low-order bits of `value` at the cursor, most significant
    /// first, over what was there and past the end where needed, and moves the cursor
    /// past them.
    pub fn write_bits(&mut self, value: u64, num_bits: usize)
        requires
            num_bits <= 64,
            old(self).bits().len() + num_bits <= usize::MAX,
        ensures
            final(self).bits() == splice_bits(
                old(self).bits(),
                old(self).pos(),
                value_bits(value as nat, num_bits as nat),
            ),
            final(self).pos() == old(self).pos() + num_bits,
            0 <= old(self).pos() <= old(self).bits().len(),
            final(self).bits().len() == if old(self).pos() + num_bits < old(self).bits().len() {
                old(self).bits().len() as int
            } else {
                old(self).pos() + num_bits
            },
    {
        proof {
            use_type_invariant(&*self);
        }
        let start: usize = self.pos;
        let mut bits: Vec<bool> = Vec::new();
        self.pos = 0;
        std::mem::swap(&mut bits, &mut self.bits);
        let ghost old_bits = bits@;
        let ghost w = value_bits(value as nat, num_bits as nat);
        let mut i: usize = 0;
        while i < num_bits
            invariant
                num_bits <= 64,
                start <= old_bits.len(),
                old_bits.len() + num_bits <= usize::MAX,
                w == value_bits(value as nat, num_bits as nat),
                i <= num_bits,
                bits@ =~= splice_bits(old_bits, start as int, w.take(i as int)),
            decreases num_bits - i,
        {
            let shift: u64 = (num_bits - 1 - i) as u64;
            let b: bool = (value >> shift) & 1 == 1;
            proof {
                vstd::bits::lemma_u64_shr_is_div(value, shift);
                assert((value >> shift) & 1 == (value >> shift) % 2) by (bit_vector);
                assert(b == w[i as int]);
                assert(w.take(i + 1) =~= w.take(i as int).push(b));
            }
            if start + i < bits.len() {
                bits.set(start + i, b);
            } else {
                bits.push(b);
            }
            i = i + 1;
        }
        assert(w.take(num_bits as int) =~= w);
        proof {
            lemma_value_bits_roundtrip(value as nat, num_bits as nat);
        }
        self.bits = bits;
        self.pos = start + num_bits;
    }
}

} // verus!
