use vstd::prelude::*;

use sha2::Sha256;

use crate::digests::{
    ripemd160_digest, ripemd160_of, sha256_finalize, sha256_input, sha256_new, sha256_of,
    sha256_update, MAX_INPUT_LEN,
};
use crate::error::Error;
use crate::hex::{decode_hex, encode_hex, hex_decode, hex_of, is_hex, lemma_hex_round_trip};

verus! {

/// Output length of HASH160, in bytes.
pub const HASH160_LEN: usize = 20;

/// Internal block size of HASH160, in bytes: that of its SHA-256 stage.
pub const HASH160_BLOCK_SIZE: usize = 64;

/// HASH160 of a byte sequence: RIPEMD-160 of the SHA-256 digest.
pub open spec fn hash160_of(data: Seq<u8>) -> Seq<u8> {
    ripemd160_of(sha256_of(data))
}

/// Streaming state of a HASH160 computation: the SHA-256 engine of its first
/// stage. Its view is the sequence of bytes taken in so far.
pub struct Hash160Engine {
    inner: Sha256,
}

impl View for Hash160Engine {
    type V = Seq<u8>;

    closed spec fn view(&self) -> Seq<u8> {
        sha256_input(self.inner)
    }
}

impl Hash160Engine {
    /// A fresh engine that has taken in nothing.
    pub fn new() -> (r: Hash160Engine)
        ensures
            r@ == Seq::<u8>::empty(),
    {
        Hash160Engine { inner: sha256_new() }
    }

    /// Feeds `data` to the engine, after what it has already taken in.
    pub fn input(&mut self, data: &[u8])
        requires
            old(self)@.len() + data@.len() <= MAX_INPUT_LEN,
        ensures
            final(self)@ == old(self)@ + data@,
    {
        sha256_update(&mut self.inner, data);
    }
}

/// Output of the HASH160 function: twenty bytes.
#[derive(Clone, Copy, Debug, PartialEq, Eq, PartialOrd, Ord, Hash)]
pub struct Hash160Hash(pub [u8; 20]);

impl View for Hash160Hash {
    type V = Seq<u8>;

    open spec fn view(&self) -> Seq<u8> {
        self.0@
    }
}

impl Hash160Hash {
    /// A fresh engine for an incremental HASH160 computation.
    pub fn engine() -> (r: Hash160Engine)
        ensures
            r@ == Seq::<u8>::empty(),
    {
        Hash160Engine::new()
    }

    /// Consumes the engine: RIPEMD-160 of the SHA-256 digest of all it took in.
    pub fn from_engine(e: Hash160Engine) -> (r: Hash160Hash)
        ensures
            r@ == hash160_of(e@),
    {
        let sha2 = sha256_finalize(e.inner);
        let rmd = ripemd160_digest(&sha2);
        Hash160Hash(rmd)
    }

    /// HASH160 of `data` in one call.
    pub fn hash(data: &[u8]) -> (r: Hash160Hash)
        requires
            data@.len() <= MAX_INPUT_LEN,
        ensures
            r@ == hash160_of(data@),
    {
        let mut e = Hash160Hash::engine();
        e.input(data);
        assert(e@ =~= data@);
        Hash160Hash::from_engine(e)
    }

    /// Output length in bytes.
    pub fn len() -> (r: usize)
        ensures
            r == 20,
    {
        HASH160_LEN
    }

    /// Internal block size in bytes, inherited from SHA-256.
    pub fn block_size() -> (r: usize)
        ensures
            r == 64,
    {
        HASH160_BLOCK_SIZE
    }

    /// Builds an output from exactly twenty raw bytes, copied verbatim.
    pub fn from_slice(sl: &[u8]) -> (r: Result<Hash160Hash, Error>)
        ensures
            r is Ok <==> sl@.len() == 20,
            r matches Ok(h) ==> h@ == sl@,
            r matches Err(e) ==> e == Error::InvalidLength(20, sl@.len() as usize),
    {
        if sl.len() != HASH160_LEN {
            Err(Error::InvalidLength(HASH160_LEN, sl.len()))
        } else {
            let mut ret = [0u8; 20];
            let mut i: usize = 0;
            while i < 20
                invariant
                    sl@.len() == 20,
                    0 <= i <= 20,
                    forall|j: int| 0 <= j < i ==> ret@[j] == sl@[j],
                decreases 20 - i,
            {
                ret[i] = sl[i];
                i = i + 1;
            }
            assert(ret@ =~= sl@);
            Ok(Hash160Hash(ret))
        }
    }

    /// The twenty bytes of the output.
    pub fn as_bytes(&self) -> (r: &[u8])
        ensures
            r@ == self@,
    {
        self.0.as_slice()
    }

    /// Lowercase hexadecimal rendering: forty digits, no prefix.
    pub fn to_hex(&self) -> (r: String)
        ensures
            r@ == hex_of(self@),
    {
        encode_hex(self.0.as_slice())
    }

    /// Reads an output back from hexadecimal text of either case.
    pub fn from_hex(s: &str) -> (r: Result<Hash160Hash, Error>)
        ensures
            !is_hex(s@) ==> r == Err::<Hash160Hash, Error>(Error::InvalidHex),
            is_hex(s@) && hex_decode(s@).len() != 20 ==> r == Err::<Hash160Hash, Error>(
                Error::InvalidLength(20, hex_decode(s@).len() as usize),
            ),
            r is Ok <==> is_hex(s@) && hex_decode(s@).len() == 20,
            r matches Ok(h) ==> h@ == hex_decode(s@),
    {
        match decode_hex(s) {
            None => Err(Error::InvalidHex),
            Some(bytes) => Hash160Hash::from_slice(bytes.as_slice()),
        }
    }
}

/// What an engine has taken in after being fed `chunks` one after another,
/// starting from `start`: each call of `Hash160Engine::input` appends its
/// argument.
pub open spec fn fed(start: Seq<u8>, chunks: Seq<Seq<u8>>) -> Seq<u8>
    decreases chunks.len(),
{
    if chunks.len() == 0 {
        start
    } else {
        fed(start + chunks[0], chunks.drop_first())
    }
}

proof fn lemma_fed_appends(start: Seq<u8>, chunks: Seq<Seq<u8>>)
    ensures
        fed(start, chunks) == start + chunks.flatten(),
    decreases chunks.len(),
{
    if chunks.len() > 0 {
        lemma_fed_appends(start + chunks[0], chunks.drop_first());
        assert(start + chunks[0] + chunks.drop_first().flatten() =~= start + chunks.flatten());
    } else {
        assert(start + chunks.flatten() =~= start);
    }
}

/// HASH160 is a function of its input: equal byte sequences have equal
/// outputs, however many times they are hashed.
pub proof fn lemma_hash_deterministic(a: Seq<u8>, b: Seq<u8>)
    requires
        a == b,
    ensures
        hash160_of(a) == hash160_of(b),
{
}

/// Chunking does not matter: a fresh engine fed the chunks of `b` in order has
/// taken in exactly `b`, so finalizing it gives the one-shot HASH160 of `b`.
pub proof fn lemma_chunk_invariance(chunks: Seq<Seq<u8>>, b: Seq<u8>)
    requires
        chunks.flatten() == b,
    ensures
        fed(Seq::empty(), chunks) == b,
        hash160_of(fed(Seq::empty(), chunks)) == hash160_of(b),
{
    lemma_fed_appends(Seq::empty(), chunks);
    assert(Seq::<u8>::empty() + chunks.flatten() =~= b);
}

/// Rendering an output as hexadecimal and reading the text back gives twenty
/// bytes that rebuild that same output.
pub proof fn lemma_output_hex_round_trip(o: Hash160Hash)
    ensures
        is_hex(hex_of(o@)),
        hex_decode(hex_of(o@)).len() == 20,
        forall|h: Hash160Hash| h@ == hex_decode(hex_of(o@)) ==> h == o,
{
    lemma_hex_round_trip(o@);
    assert forall|h: Hash160Hash| h@ == hex_decode(hex_of(o@)) implies h == o by {
        assert(h.0 =~= o.0);
    }
}

} // verus!
