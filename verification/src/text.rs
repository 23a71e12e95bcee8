//! Lengths of the texts that the records store.

use vstd::prelude::*;
use vstd::utf8::encode_utf8;

verus! {

/// The number of bytes that a text takes in a record, which stores it as
/// UTF-8. Every bound on a text is a bound on this number.
pub open spec fn stored_len(text: Seq<char>) -> nat {
    encode_utf8(text).len()
}

/// Computes [`stored_len`].
pub fn byte_len(text: &String) -> (n: usize)
    ensures
        n == stored_len(text@),
{
    text.as_str().as_bytes().len()
}

} // verus!
