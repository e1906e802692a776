//! HASH160: SHA-256 followed by RIPEMD-160, with a streaming engine and a
//! fixed-size 20-byte output type.

mod digests;
mod error;
mod hash160;
mod hex;

pub use digests::{ripemd160_of, sha256_of, MAX_INPUT_LEN};
pub use error::Error;
pub use hash160::{
    fed, hash160_of, lemma_chunk_invariance, lemma_hash_deterministic,
    lemma_output_hex_round_trip, Hash160Engine, Hash160Hash, HASH160_BLOCK_SIZE, HASH160_LEN,
};
pub use hex::{hex_decode, hex_digit, hex_of, hex_value, is_hex, is_hex_char, lemma_hex_round_trip};
