use vstd::prelude::*;

use ripemd160::Ripemd160;
use sha2::digest::{Digest, FixedOutput, Update};
use sha2::Sha256;

verus! {

/// Largest number of bytes that one SHA-256 engine may take in: sha2 keeps the
/// running length in bits in a `u64`.
pub const MAX_INPUT_LEN: u64 = 0x1fff_ffff_ffff_ffff;

#[verifier::external_type_specification]
#[verifier::external_body]
pub struct ExSha256(Sha256);

/// The bytes that a SHA-256 engine has taken in so far, in order.
pub uninterp spec fn sha256_input(e: Sha256) -> Seq<u8>;

/// The SHA-256 digest of a byte sequence.
pub uninterp spec fn sha256_of(data: Seq<u8>) -> Seq<u8>;

/// The RIPEMD-160 digest of a byte sequence.
pub uninterp spec fn ripemd160_of(data: Seq<u8>) -> Seq<u8>;

/// Relies on `<sha2::Sha256 as Default>::default`: a fresh engine that has
/// taken in nothing.
#[verifier::external_body]
pub(crate) fn sha256_new() -> (r: Sha256)
    ensures
        sha256_input(r) == Seq::<u8>::empty(),
{
    Sha256::default()
}

/// Relies on `<sha2::Sha256 as Update>::update`: appends `data` to what the
/// engine has taken in. sha2 adds the length in bits to a `u64` counter, so the
/// total stays below `MAX_INPUT_LEN`.
#[verifier::external_body]
pub(crate) fn sha256_update(e: &mut Sha256, data: &[u8])
    requires
        sha256_input(*old(e)).len() + data@.len() <= MAX_INPUT_LEN,
    ensures
        sha256_input(*final(e)) == sha256_input(*old(e)) + data@,
{
    Update::update(e, data);
}

/// Relies on `<sha2::Sha256 as FixedOutput>::finalize_fixed`: the 32-byte
/// SHA-256 digest of everything the engine has taken in.
#[verifier::external_body]
pub(crate) fn sha256_finalize(e: Sha256) -> (r: [u8; 32])
    ensures
        r@ == sha256_of(sha256_input(e)),
{
    let out = e.finalize_fixed();
    let mut r = [0u8; 32];
    r.copy_from_slice(&out);
    r
}

/// Relies on `<ripemd160::Ripemd160 as Digest>::digest`: the 20-byte
/// RIPEMD-160 digest of `data`, in one shot.
#[verifier::external_body]
pub(crate) fn ripemd160_digest(data: &[u8]) -> (r: [u8; 20])
    ensures
        r@ == ripemd160_of(data@),
{
    let out = Ripemd160::digest(data);
    let mut r = [0u8; 20];
    r.copy_from_slice(&out);
    r
}

} // verus!
