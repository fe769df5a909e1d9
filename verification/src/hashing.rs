//! Content hashes, the blobs they are computed from, and the derivation of
//! trace identifiers.
//!
//! A trace identifier is the big-endian interpretation of the leading 16
//! bytes of a content hash. The derivation is deterministic, so spans created
//! from the same hash — even by independent processes — carry the same
//! identifier and merge into one trace.

use vstd::prelude::*;

verus! {

/// The big-endian integer value of a byte sequence: the first byte is the
/// most significant.
pub open spec fn be_val(s: Seq<u8>) -> int
    decreases s.len(),
{
    if s.len() == 0 {
        0
    } else {
        be_val(s.drop_last()) * 256 + s.last()
    }
}

/// The trace identifier that a hash determines: the big-endian value of its
/// leading 16 bytes.
pub open spec fn trace_id_of(s: Seq<u8>) -> int {
    be_val(s.take(16))
}

/// 256 raised to `n`.
pub open spec fn pow256(n: nat) -> int
    decreases n,
{
    if n == 0 {
        1
    } else {
        256 * pow256((n - 1) as nat)
    }
}

/// `be_val` of a sequence of `n` bytes lies below `pow256(n)`.
pub proof fn lemma_be_val_bounds(s: Seq<u8>)
    ensures
        0 <= be_val(s) < pow256(s.len()),
    decreases s.len(),
{
    if s.len() == 0 {
    } else {
        lemma_be_val_bounds(s.drop_last());
    }
}

/// `pow256` is positive.
pub proof fn lemma_pow256_pos(n: nat)
    ensures
        pow256(n) >= 1,
    decreases n,
{
    if n > 0 {
        lemma_pow256_pos((n - 1) as nat);
    }
}

/// `pow256` is monotonic.
pub proof fn lemma_pow256_mono(m: nat, n: nat)
    requires
        m <= n,
    ensures
        pow256(m) <= pow256(n),
    decreases n,
{
    if m < n {
        lemma_pow256_mono(m, (n - 1) as nat);
        lemma_pow256_pos((n - 1) as nat);
    }
}

/// `pow256(16)` written out: one more than the largest 128-bit value.
pub proof fn lemma_pow256_16()
    ensures
        pow256(16) == 0x1_0000_0000_0000_0000_0000_0000_0000_0000,
{
    reveal_with_fuel(pow256, 17);
}

/// Two byte sequences of equal length with the same big-endian value are the
/// same sequence. This is what makes trace identifiers collision-free on the
/// leading 16 bytes of a hash.
pub proof fn lemma_be_val_injective(s: Seq<u8>, t: Seq<u8>)
    requires
        s.len() == t.len(),
        be_val(s) == be_val(t),
    ensures
        s == t,
    decreases s.len(),
{
    if s.len() == 0 {
        assert(s =~= t);
    } else {
        let a = be_val(s.drop_last());
        let b = be_val(t.drop_last());
        let x = s.last() as int;
        let y = t.last() as int;
        assert(a * 256 + x == b * 256 + y);
        assert(a == b && x == y) by (nonlinear_arith)
            requires
                a * 256 + x == b * 256 + y,
                0 <= x < 256,
                0 <= y < 256,
        ;
        lemma_be_val_injective(s.drop_last(), t.drop_last());
        assert(s.last() == t.last());
        assert forall|i: int| 0 <= i < s.len() implies s[i] == t[i] by {
            if i < s.len() - 1 {
                assert(s[i] == s.drop_last()[i]);
                assert(t[i] == t.drop_last()[i]);
            }
        }
        assert(s =~= t);
    }
}

/// The big-endian value of a byte sequence is zero exactly when every byte
/// is zero.
pub proof fn lemma_be_val_zero(s: Seq<u8>)
    ensures
        be_val(s) == 0 <==> (forall|i: int| 0 <= i < s.len() ==> s[i] == 0),
    decreases s.len(),
{
    if s.len() == 0 {
    } else {
        lemma_be_val_zero(s.drop_last());
        lemma_be_val_bounds(s.drop_last());
        assert(forall|i: int| 0 <= i < s.len() - 1 ==> s[i] == s.drop_last()[i]);
        if be_val(s) == 0 {
            assert(be_val(s.drop_last()) == 0 && s.last() == 0);
        } else {
            if s.last() == 0 {
                assert(be_val(s.drop_last()) != 0);
                let i = choose|i: int| 0 <= i < s.len() - 1 && s.drop_last()[i] != 0;
                assert(s[i] != 0);
            } else {
                assert(s[s.len() - 1] != 0);
            }
        }
    }
}

/// Trace-id derivation is collision-free: two hashes that yield the same
/// trace identifier agree on their leading 16 bytes, so hashes that differ
/// there always yield different identifiers.
pub proof fn lemma_trace_id_injective(s: Seq<u8>, t: Seq<u8>)
    requires
        s.len() >= 16,
        t.len() >= 16,
        trace_id_of(s) == trace_id_of(t),
    ensures
        s.take(16) == t.take(16),
{
    lemma_be_val_injective(s.take(16), t.take(16));
}

/// An opaque fixed-width content hash: the correlation key from which a
/// trace identifier is derived. Always exactly 32 bytes.
pub struct ContentHash {
    bytes: Vec<u8>,
}

impl View for ContentHash {
    type V = Seq<u8>;

    closed spec fn view(&self) -> Seq<u8> {
        self.bytes@
    }
}

impl ContentHash {
    /// A well-formed hash holds exactly 32 bytes.
    pub open spec fn wf(&self) -> bool {
        self@.len() == 32
    }

    /// Wrap 32 raw bytes as a content hash.
    pub fn from_bytes(bytes: Vec<u8>) -> (r: Self)
        requires
            bytes@.len() == 32,
        ensures
            r@ == bytes@,
            r.wf(),
    {
        ContentHash { bytes }
    }

    /// The raw bytes of the hash.
    pub fn as_bytes(&self) -> (r: &Vec<u8>)
        ensures
            r@ == self@,
    {
        &self.bytes
    }

    /// Whether the leading 16 bytes encode a non-zero trace identifier.
    pub fn leading_nonzero(&self) -> (r: bool)
        requires
            self@.len() >= 16,
        ensures
            r <==> trace_id_of(self@) != 0,
    {
        let mut i: usize = 0;
        while i < 16
            invariant
                0 <= i <= 16,
                self@.len() >= 16,
                forall|j: int| 0 <= j < i ==> self@[j] == 0,
            decreases 16 - i,
        {
            if self.bytes[i] != 0 {
                proof {
                    lemma_be_val_zero(self@.take(16));
                    assert(self@.take(16)[i as int] != 0);
                }
                return true;
            }
            i += 1;
        }
        proof {
            lemma_be_val_zero(self@.take(16));
            assert(forall|j: int| 0 <= j < self@.take(16).len() ==> self@.take(16)[j] == 0);
        }
        false
    }
}

/// A candidate identifier: wraps the content hash of the candidate block.
pub struct CandidateHash(pub ContentHash);

/// A content blob whose hash is computed on the fly when a span is requested
/// for it.
pub struct PoV {
    /// The raw bytes of the blob.
    pub block_data: Vec<u8>,
}

/// What the blake2b-256 digest of a byte sequence is: a function of the
/// bytes alone, identical in every process and on every machine.
pub uninterp spec fn blake2_256_of(data: Seq<u8>) -> Seq<u8>;

/// Relies on `blake2::Blake2b256` through the `Digest` trait: a fixed
/// 32-byte digest that depends on the input bytes alone.
#[verifier::external_body]
fn blake2_256(data: &Vec<u8>) -> (r: Vec<u8>)
    ensures
        r@ == blake2_256_of(data@),
        r@.len() == 32,
{
    let digest = <blake2::Blake2b256 as blake2::Digest>::digest(data.as_slice());
    digest.as_slice().to_vec()
}

impl PoV {
    /// The content hash of this blob, computed on the fly.
    pub fn hash(&self) -> (r: ContentHash)
        ensures
            r@ == blake2_256_of(self.block_data@),
            r.wf(),
    {
        let digest = blake2_256(&self.block_data);
        ContentHash { bytes: digest }
    }
}

/// Derive the 128-bit trace identifier from a content hash: the big-endian
/// interpretation of its leading 16 bytes. Repeated calls with the same hash
/// yield the same identifier. A zero identifier would be a fatal invariant
/// violation — the hash space practically never produces one — so zero is
/// excluded here rather than handled.
pub fn derive_trace_id(hash: &ContentHash) -> (r: u128)
    requires
        hash@.len() >= 16,
        trace_id_of(hash@) != 0,
    ensures
        r == trace_id_of(hash@),
        r != 0,
{
    let mut acc: u128 = 0;
    let mut i: usize = 0;
    while i < 16
        invariant
            0 <= i <= 16,
            hash@.len() >= 16,
            acc == be_val(hash@.take(i as int)),
            acc < pow256(i as nat),
        decreases 16 - i,
    {
        proof {
            lemma_pow256_mono(i as nat, 15);
            lemma_pow256_16();
            assert(hash@.take(i + 1).drop_last() =~= hash@.take(i as int));
            assert(hash@.take(i + 1).last() == hash@[i as int]);
        }
        acc = acc * 256 + (hash.bytes[i] as u128);
        i += 1;
    }
    acc
}

} // verus!
