use blake2::{Blake2b512, Digest};
use vstd::prelude::*;

verus! {

/// Lower-case hexadecimal BLAKE2b-512 digest of the UTF-8 encoding of `s`.
pub uninterp spec fn blake2b_hex_of(s: Seq<char>) -> Seq<char>;

/// Relies on blake2's `Blake2b512::digest` and the `LowerHex` rendering of
/// its output: the digest depends on the input text alone.
#[verifier::external_body]
pub(crate) fn blake2b_hex(s: &str) -> (r: String)
    ensures
        r@ == blake2b_hex_of(s@),
{
    format!("{:x}", Blake2b512::digest(s.as_bytes()))
}

} // verus!
