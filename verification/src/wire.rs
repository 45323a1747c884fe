//! The shape of the wire format's tokens, as byte sequences.
//!
//! Every token is self-delimiting: integers sit between `i` and `e`, byte
//! strings carry a decimal length prefix, lists and dictionaries open with
//! `l` or `d` and close with `e`.  These spec functions are the reference
//! that every emitting function's contract is stated against.

use vstd::prelude::*;

verus! {

/// The ASCII decimal digits of `n`, most significant first, with no sign,
/// no padding and no leading zero (a lone zero stands for itself).
pub open spec fn dec_digits(n: nat) -> Seq<u8>
    decreases n,
{
    if n < 10 {
        seq![(48 + n) as u8]
    } else {
        dec_digits(n / 10).push((48 + (n % 10)) as u8)
    }
}

/// A wire integer: `i`, the decimal value with `-` for negatives, `e`.
pub open spec fn int_token(v: int) -> Seq<u8> {
    if v < 0 {
        seq![105u8, 45u8] + dec_digits((-v) as nat) + seq![101u8]
    } else {
        seq![105u8] + dec_digits(v as nat) + seq![101u8]
    }
}

/// A wire byte string: the decimal length, `:`, then the bytes themselves.
pub open spec fn bytes_token(s: Seq<u8>) -> Seq<u8> {
    dec_digits(s.len() as nat) + seq![58u8] + s
}

/// An empty wire list: `l` immediately closed by `e`.
pub open spec fn empty_list_token() -> Seq<u8> {
    seq![108u8, 101u8]
}

} // verus!
