//! The byte-mixing state machine and its seeded entry point.
//!
//! [`MHash`] consumes a byte stream and produces a 64-bit digest on demand.
//! Every byte is combined with the byte fed before it, multiplied into the
//! accumulator with a fixed odd constant, and the accumulator is then rotated
//! and multiplied again so that small input differences spread over the whole
//! register (the avalanche step).  All arithmetic wraps modulo 2^64.

use vstd::prelude::*;

verus! {

use vstd::bytes::spec_u32_to_le_bytes;
use vstd::bytes::spec_u64_to_le_bytes;
use vstd::bytes::u32_to_le_bytes;
use vstd::bytes::u64_to_le_bytes;
use vstd::string::StringSliceAdditionalSpecFns;

/// First mixing constant: multiplies the incoming byte pair.
pub const K1: u64 = 0x9e3779b97f4a7c15;

/// Second mixing constant: multiplies the rotated accumulator.
pub const K2: u64 = 0x94d049bb133111eb;

/// The accumulator rotated left by 27 bit positions.
pub open spec fn rotl27(x: u64) -> u64 {
    (x << 27u64) | (x >> 37u64)
}

/// The accumulator after absorbing one byte `b`, where `prev` is the byte
/// fed just before it (0 if none was) and `acc` the accumulator so far.
pub open spec fn mix_byte(prev: u8, acc: u64, b: u8) -> u64 {
    rotl27(acc ^ ((b ^ prev) as u64).wrapping_mul(K1)).wrapping_mul(K2)
}

/// The mixer state `st` (previous byte, accumulator) after absorbing
/// `bytes`, byte by byte, in order.
pub open spec fn mix(st: (u8, u64), bytes: Seq<u8>) -> (u8, u64)
    decreases bytes.len(),
{
    if bytes.len() == 0 {
        st
    } else {
        mix((bytes.first(), mix_byte(st.0, st.1, bytes.first())), bytes.drop_first())
    }
}

/// Streaming composability: absorbing `a + b` in one go leaves the mixer in
/// the same state as absorbing `a` first and `b` after it, for every split.
pub proof fn lemma_mix_append(st: (u8, u64), a: Seq<u8>, b: Seq<u8>)
    ensures
        mix(st, a + b) == mix(mix(st, a), b),
    decreases a.len(),
{
    if a.len() == 0 {
        assert(a + b =~= b);
    } else {
        assert((a + b).drop_first() =~= a.drop_first() + b);
        lemma_mix_append((a.first(), mix_byte(st.0, st.1, a.first())), a.drop_first(), b);
    }
}

/// The mixing state machine: one byte of history and a 64-bit accumulator.
pub struct MHash {
    prev: u8,
    state: u64,
}

impl View for MHash {
    type V = (u8, u64);

    closed spec fn view(&self) -> (u8, u64) {
        (self.prev, self.state)
    }
}

impl Default for MHash {
    /// A fresh mixer: no byte seen yet, accumulator zero.
    fn default() -> (h: MHash)
        ensures
            h@ == (0u8, 0u64),
    {
        MHash { prev: 0, state: 0 }
    }
}

impl MHash {
    /// A fresh mixer, as [`Default::default`] builds it.
    pub fn new() -> (h: MHash)
        ensures
            h@ == (0u8, 0u64),
    {
        MHash { prev: 0, state: 0 }
    }

    /// Absorb `bytes` in order.  Chunking does not matter: by
    /// [`lemma_mix_append`], two calls reach the same state as one call on
    /// the concatenation.
    pub fn write(&mut self, bytes: &[u8])
        ensures
            final(self)@ == mix(old(self)@, bytes@),
    {
        let mut i: usize = 0;
        proof {
            assert(bytes@.subrange(0, bytes@.len() as int) =~= bytes@);
        }
        while i < bytes.len()
            invariant
                i <= bytes@.len(),
                mix(old(self)@, bytes@) == mix(self@, bytes@.subrange(i as int, bytes@.len() as int)),
            decreases bytes@.len() - i,
        {
            let b = bytes[i];
            let pb: u64 = (b ^ self.prev) as u64;
            self.state = self.state ^ pb.wrapping_mul(K1);
            self.state = ((self.state << 27u64) | (self.state >> 37u64)).wrapping_mul(K2);
            self.prev = b;
            i = i + 1;
            proof {
                let rest = bytes@.subrange(i - 1, bytes@.len() as int);
                assert(rest.drop_first() =~= bytes@.subrange(i as int, bytes@.len() as int));
            }
        }
    }

    /// Read the digest accumulated so far.  Non-destructive and idempotent:
    /// the state is untouched, so reading twice gives the same value.
    pub fn finish(&self) -> (digest: u64)
        ensures
            digest == self@.1,
    {
        self.state
    }
}

/// The decomposition protocol: a value that can enumerate itself as a
/// canonical, order-sensitive byte sequence.  The mixer never inspects
/// types; it only consumes the bytes this capability feeds it.
///
/// A deliberate choice, kept for digest stability: sequence-shaped values
/// concatenate their elements' bytes directly, with no length prefix or
/// delimiter between elements.  Two differently grouped sequences of
/// variable-length elements can therefore decompose to the same bytes; a
/// composite that must keep such groupings apart should feed its own
/// markers.  Variants do feed a discriminant byte before their payload.
pub trait Hashable {
    /// The canonical byte decomposition of the value.
    spec fn bytes(&self) -> Seq<u8>;

    /// Feed the decomposition into the mixer, in order.
    fn feed_into(&self, h: &mut MHash)
        ensures
            final(h)@ == mix(old(h)@, self.bytes()),
    ;
}

/// The digest of `bytes` under `seed`: a fresh zeroed mixer absorbs the
/// eight little-endian bytes of the seed, then `bytes`, and is read once.
pub open spec fn spec_hash(seed: u64, bytes: Seq<u8>) -> u64 {
    mix(mix((0u8, 0u64), spec_u64_to_le_bytes(seed)), bytes).1
}

/// The seeded entry point.  The digest depends on nothing but `seed` and
/// the byte decomposition of `t`, so repeated calls on equal inputs return
/// the identical value.
pub fn hash<T: Hashable>(seed: u64, t: T) -> (digest: u64)
    ensures
        digest == spec_hash(seed, t.bytes()),
{
    let mut h = MHash::new();
    let seed_bytes = u64_to_le_bytes(seed);
    h.write(seed_bytes.as_slice());
    t.feed_into(&mut h);
    h.finish()
}

impl Hashable for u8 {
    open spec fn bytes(&self) -> Seq<u8> {
        seq![*self]
    }

    fn feed_into(&self, h: &mut MHash) {
        let mut chunk: Vec<u8> = Vec::new();
        chunk.push(*self);
        proof {
            assert(chunk@ =~= seq![*self]);
        }
        h.write(chunk.as_slice());
    }
}

impl Hashable for u64 {
    open spec fn bytes(&self) -> Seq<u8> {
        spec_u64_to_le_bytes(*self)
    }

    fn feed_into(&self, h: &mut MHash) {
        let chunk = u64_to_le_bytes(*self);
        h.write(chunk.as_slice());
    }
}

impl Hashable for u32 {
    open spec fn bytes(&self) -> Seq<u8> {
        spec_u32_to_le_bytes(*self)
    }

    fn feed_into(&self, h: &mut MHash) {
        let chunk = u32_to_le_bytes(*self);
        h.write(chunk.as_slice());
    }
}

impl Hashable for Vec<u8> {
    /// A byte vector decomposes to exactly its own bytes, in order.
    open spec fn bytes(&self) -> Seq<u8> {
        self@
    }

    fn feed_into(&self, h: &mut MHash) {
        h.write(self.as_slice());
    }
}

impl Hashable for &str {
    /// A string decomposes to its UTF-8 encoding, in character order.
    open spec fn bytes(&self) -> Seq<u8> {
        self.spec_bytes()
    }

    fn feed_into(&self, h: &mut MHash) {
        h.write(self.as_bytes());
    }
}

impl Hashable for String {
    /// A string decomposes to its UTF-8 encoding, in character order.
    open spec fn bytes(&self) -> Seq<u8> {
        vstd::utf8::encode_utf8(self@)
    }

    fn feed_into(&self, h: &mut MHash) {
        h.write(self.as_str().as_bytes());
    }
}

impl Hashable for () {
    /// The empty value: its decomposition feeds no bytes at all.
    open spec fn bytes(&self) -> Seq<u8> {
        Seq::empty()
    }

    fn feed_into(&self, h: &mut MHash) {
    }
}

impl<A: Hashable, B: Hashable> Hashable for (A, B) {
    /// A record decomposes field by field, in declared order.
    open spec fn bytes(&self) -> Seq<u8> {
        self.0.bytes() + self.1.bytes()
    }

    fn feed_into(&self, h: &mut MHash) {
        self.0.feed_into(h);
        self.1.feed_into(h);
        proof {
            lemma_mix_append(old(h)@, self.0.bytes(), self.1.bytes());
        }
    }
}

impl<T: Hashable> Hashable for Option<T> {
    /// A variant feeds a discriminant byte before its payload, so the two
    /// variants diverge even on coinciding payload bytes.
    open spec fn bytes(&self) -> Seq<u8> {
        match self {
            Option::None => seq![0u8],
            Option::Some(v) => seq![1u8] + v.bytes(),
        }
    }

    fn feed_into(&self, h: &mut MHash) {
        match self {
            Option::None => {
                let mut chunk: Vec<u8> = Vec::new();
                chunk.push(0u8);
                proof {
                    assert(chunk@ =~= seq![0u8]);
                }
                h.write(chunk.as_slice());
            },
            Option::Some(v) => {
                let mut chunk: Vec<u8> = Vec::new();
                chunk.push(1u8);
                proof {
                    assert(chunk@ =~= seq![1u8]);
                }
                h.write(chunk.as_slice());
                v.feed_into(h);
                proof {
                    lemma_mix_append(old(h)@, seq![1u8], v.bytes());
                }
            },
        }
    }
}

} // verus!
