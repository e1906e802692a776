use vstd::prelude::*;

verus! {

/// Errors raised when a digest value is rebuilt from raw bytes or text.
#[derive(Clone, Copy, Debug, PartialEq, Eq, Structural)]
pub enum Error {
    /// The byte buffer had the wrong length: `(expected, actual)`.
    InvalidLength(usize, usize),
    /// The text was not an even-length string of hexadecimal digits.
    InvalidHex,
}

} // verus!
