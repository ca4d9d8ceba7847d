//! Streaming SHA-1 digesting.
//!
//! The SHA-1 compression function is an outside cryptographic primitive
//! (`crypto::sha1::Sha1`); its result on a byte sequence is given the name
//! `sha1_hex_of` and is never restated here. What is verified is the
//! streaming around it: every byte fed, in order, no byte dropped or
//! duplicated, finalization exactly once.
#![allow(unused_imports)]
use vstd::prelude::*;
use crypto::digest::Digest;
use crypto::sha1::Sha1;

verus! {

/// The 40-character lowercase hex SHA-1 digest of a byte sequence, as the
/// outside primitive computes it; a function of the bytes alone.
pub uninterp spec fn sha1_hex_of(bytes: Seq<u8>) -> Seq<u8>;

/// The bytes fed so far into an outside SHA-1 accumulator.
pub uninterp spec fn sha1_fed(h: Sha1) -> Seq<u8>;

#[verifier::external_type_specification]
#[verifier::external_body]
pub struct ExSha1(Sha1);

/// A lowercase hexadecimal digit in ASCII: `0`-`9` or `a`-`f`.
pub open spec fn is_lower_hex_digit(b: u8) -> bool {
    (48 <= b && b <= 57) || (97 <= b && b <= 102)
}

/// The textual form of every digest: exactly 40 lowercase hex characters.
pub open spec fn is_hex_digest(s: Seq<u8>) -> bool {
    s.len() == 40 && forall|i: int| 0 <= i < s.len() ==> is_lower_hex_digit(s[i])
}

/// Relies on crypto::sha1::Sha1::new: a fresh accumulator has been fed
/// nothing.
#[verifier::external_body]
fn sha1_new() -> (h: Sha1)
    ensures
        sha1_fed(h) == Seq::<u8>::empty(),
{
    Sha1::new()
}

/// Relies on crypto::digest::Digest::input on Sha1: appends exactly the
/// given bytes to the message being hashed. The primitive refuses input
/// after finalization, but no finalized accumulator is ever reachable in
/// verified code: `sha1_result_hex` consumes its accumulator, so every
/// `Sha1` held here came from `sha1_new` and was only ever fed.
#[verifier::external_body]
fn sha1_input(h: &mut Sha1, data: &[u8])
    ensures
        sha1_fed(*final(h)) == sha1_fed(*old(h)) + data@,
{
    h.input(data);
}

/// Relies on crypto::digest::Digest::result_str on Sha1: the SHA-1 digest
/// of the fed bytes as 40 lowercase hexadecimal characters (two per digest
/// byte, 160 output bits), depending on the fed bytes alone.
///
/// The accumulator is taken by value and dropped: the primitive must not
/// be fed again once finalized (its `input` asserts that), so no
/// finalized accumulator may remain reachable in verified code.
#[verifier::external_body]
fn sha1_result_hex(h: Sha1) -> (r: Vec<u8>)
    ensures
        r@ == sha1_hex_of(sha1_fed(h)),
        is_hex_digest(r@),
{
    let mut h = h;
    h.result_str().into_bytes()
}

/// A streaming SHA-1 digester: feed chunks of any size, then finalize to
/// the hex digest of everything fed.
pub struct StreamDigester {
    hasher: Sha1,
}

impl StreamDigester {
    /// The bytes fed so far, in order.
    pub closed spec fn fed(self) -> Seq<u8> {
        sha1_fed(self.hasher)
    }

    pub fn new() -> (d: Self)
        ensures
            d.fed() == Seq::<u8>::empty(),
    {
        StreamDigester { hasher: sha1_new() }
    }

    /// Feed one chunk: exactly these bytes are appended to the message.
    pub fn update(&mut self, chunk: &[u8])
        ensures
            final(self).fed() == old(self).fed() + chunk@,
    {
        sha1_input(&mut self.hasher, chunk);
    }

    /// Finalize exactly once, consuming the digester: the digest of
    /// everything fed.
    pub fn finalize(self) -> (r: Vec<u8>)
        ensures
            r@ == sha1_hex_of(self.fed()),
            is_hex_digest(r@),
    {
        let StreamDigester { hasher } = self;
        sha1_result_hex(hasher)
    }
}

/// The SHA-1 hex digest of a complete in-memory byte string.
pub fn digest_bytes(data: &[u8]) -> (r: Vec<u8>)
    ensures
        r@ == sha1_hex_of(data@),
        is_hex_digest(r@),
{
    let mut d = StreamDigester::new();
    d.update(data);
    proof {
        assert(d.fed() =~= data@);
    }
    d.finalize()
}

/// The concatenation of a sequence of chunks.
pub open spec fn concat_of(chunks: Seq<Vec<u8>>) -> Seq<u8>
    decreases chunks.len(),
{
    if chunks.len() == 0 {
        Seq::<u8>::empty()
    } else {
        concat_of(chunks.drop_last()) + chunks.last()@
    }
}

/// Digest a message given as a sequence of chunks: the result is the
/// digest of the concatenation, so it depends only on the bytes, never on
/// where the chunk boundaries fall.
pub fn digest_chunks(chunks: &Vec<Vec<u8>>) -> (r: Vec<u8>)
    ensures
        r@ == sha1_hex_of(concat_of(chunks@)),
        is_hex_digest(r@),
{
    let mut d = StreamDigester::new();
    let mut i: usize = 0;
    while i < chunks.len()
        invariant
            i <= chunks.len(),
            d.fed() == concat_of(chunks@.take(i as int)),
        decreases chunks.len() - i,
    {
        d.update(chunks[i].as_slice());
        proof {
            assert(chunks@.take(i + 1 as int).drop_last() =~= chunks@.take(i as int));
            assert(chunks@.take(i + 1 as int).last() == chunks@[i as int]);
        }
        i += 1;
    }
    proof {
        assert(chunks@.take(chunks@.len() as int) =~= chunks@);
    }
    d.finalize()
}

/// Determinism: the digest is a function of the input bytes alone, so
/// equal byte sequences always carry equal digests.
pub proof fn lemma_digest_deterministic(a: Seq<u8>, b: Seq<u8>)
    requires
        a == b,
    ensures
        sha1_hex_of(a) == sha1_hex_of(b),
{
}

/// Chunk-size invariance: any two chunkings whose concatenated bytes are
/// equal yield the same digest.
pub proof fn lemma_chunking_invariance(a: Seq<Vec<u8>>, b: Seq<Vec<u8>>)
    requires
        concat_of(a) == concat_of(b),
    ensures
        sha1_hex_of(concat_of(a)) == sha1_hex_of(concat_of(b)),
{
}

} // verus!
