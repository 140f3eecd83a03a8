//! Central Index Key (CIK) normalisation.
//!
//! The canonical form of a CIK is its digits, zero-padded to a width of ten.

use crate::numbers::{char_is_digit, is_digit, pad_left, zero_padded};
use crate::text::{chars_of, string_of};
use vstd::prelude::*;

verus! {

/// The width of a canonical CIK.
pub const CIK_WIDTH: usize = 10;

/// The ASCII digits of `s`, in order.
pub open spec fn digits_of(s: Seq<char>) -> Seq<char>
    decreases s.len(),
{
    if s.len() == 0 {
        Seq::empty()
    } else if is_digit(s.last()) {
        digits_of(s.drop_last()).push(s.last())
    } else {
        digits_of(s.drop_last())
    }
}

/// The canonical form of a CIK: its digits, zero-padded to ten.
pub open spec fn normalized_cik(cik: Seq<char>) -> Seq<char> {
    pad_left(digits_of(cik), CIK_WIDTH as nat, '0')
}

/// The ASCII digits of `v`, in order.
pub fn only_digits(v: &Vec<char>) -> (r: Vec<char>)
    ensures
        r@ == digits_of(v@),
{
    let mut out: Vec<char> = Vec::new();
    let mut i: usize = 0;
    while i < v.len()
        invariant
            i <= v.len(),
            out@ == digits_of(v@.take(i as int)),
        decreases v.len() - i,
    {
        assert(v@.take(i + 1).drop_last() == v@.take(i as int));
        if char_is_digit(v[i]) {
            out.push(v[i]);
        }
        i += 1;
    }
    assert(v@.take(v.len() as int) == v@);
    out
}

/// Normalize to a zero-padded 10-digit CIK: everything but the digits is
/// dropped, and zeros are put in front of fewer than ten digits.
pub fn normalize_cik(cik: &str) -> (r: String)
    ensures
        r@ == normalized_cik(cik@),
{
    let digits = only_digits(&chars_of(cik));
    string_of(&zero_padded(&digits, CIK_WIDTH))
}

/// Format a CIK with leading zeros to 10 characters, whatever it holds.
pub fn format_cik(cik: &str) -> (r: String)
    ensures
        r@ == pad_left(cik@, CIK_WIDTH as nat, '0'),
{
    string_of(&zero_padded(&chars_of(cik), CIK_WIDTH))
}

} // verus!
