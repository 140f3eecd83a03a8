//! Decimal numbers as text: parsing, printing and zero-padding.

use vstd::prelude::*;

verus! {

/// Whether `c` is one of the ten ASCII digits.
pub open spec fn is_digit(c: char) -> bool {
    '0' <= c <= '9'
}

/// The value of an ASCII digit.
pub open spec fn digit_value(c: char) -> nat
    recommends
        is_digit(c),
{
    (c as u8 - 48) as nat
}

/// The ASCII digit of a value below ten.
pub open spec fn digit_char(d: nat) -> char
    recommends
        d < 10,
{
    ((d + 48) as u8) as char
}

/// Whether every character of `s` is an ASCII digit.
pub open spec fn all_digits(s: Seq<char>) -> bool {
    forall|i: int| 0 <= i < s.len() ==> is_digit(#[trigger] s[i])
}

/// The number that the digits of `s` spell in base ten; 0 for the empty
/// sequence.
pub open spec fn decimal_value(s: Seq<char>) -> nat
    decreases s.len(),
{
    if s.len() == 0 {
        0
    } else {
        decimal_value(s.drop_last()) * 10 + digit_value(s.last())
    }
}

/// The digits of `s` after an optional leading plus sign.
pub open spec fn unsigned_digits(s: Seq<char>) -> Seq<char> {
    if s.len() > 0 && s[0] == '+' {
        s.drop_first()
    } else {
        s
    }
}

/// The number that `s` spells, if it is an optional plus sign followed by at
/// least one digit and its value is at most `max`.
pub open spec fn parse_unsigned(s: Seq<char>, max: nat) -> Option<nat> {
    let digits = unsigned_digits(s);
    if digits.len() > 0 && all_digits(digits) && decimal_value(digits) <= max {
        Some(decimal_value(digits))
    } else {
        None
    }
}

/// The digits of `n` in base ten, without leading zeros; "0" for zero.
pub open spec fn decimal_digits(n: nat) -> Seq<char>
    decreases n,
{
    if n < 10 {
        seq![digit_char(n)]
    } else {
        decimal_digits(n / 10).push(digit_char(n % 10))
    }
}

/// `s` with copies of `fill` put in front until it is `width` long; `s`
/// itself if it is that long already.
pub open spec fn pad_left(s: Seq<char>, width: nat, fill: char) -> Seq<char> {
    if s.len() >= width {
        s
    } else {
        Seq::new((width - s.len()) as nat, |i: int| fill) + s
    }
}

/// The value of a digit string grows with every digit that is appended.
pub proof fn lemma_decimal_value_monotone(s: Seq<char>, k: int)
    requires
        0 <= k <= s.len(),
    ensures
        decimal_value(s.take(k)) <= decimal_value(s),
    decreases s.len() - k,
{
    if k < s.len() {
        lemma_decimal_value_monotone(s, k + 1);
        assert(s.take(k + 1).drop_last() == s.take(k));
    } else {
        assert(s.take(k) == s);
    }
}

/// Tests whether `c` is an ASCII digit.
pub fn char_is_digit(c: char) -> (r: bool)
    ensures
        r == is_digit(c),
{
    '0' <= c && c <= '9'
}

/// Reads an unsigned decimal number of at most `max`: an optional plus sign
/// and at least one digit. Anything else, and any larger value, is `None`.
pub fn parse_bounded(s: &Vec<char>, max: u64) -> (r: Option<u64>)
    ensures
        match r {
            Some(n) => parse_unsigned(s@, max as nat) == Some(n as nat),
            None => parse_unsigned(s@, max as nat) is None,
        },
{
    let start: usize = if s.len() > 0 && s[0] == '+' {
        1
    } else {
        0
    };
    let ghost digits = unsigned_digits(s@);
    assert(digits == s@.subrange(start as int, s.len() as int));
    if start == s.len() {
        return None;
    }
    let mut value: u64 = 0;
    let mut i: usize = start;
    while i < s.len()
        invariant
            start <= i <= s.len(),
            digits == unsigned_digits(s@),
            digits == s@.subrange(start as int, s.len() as int),
            all_digits(digits.take(i - start)),
            value == decimal_value(digits.take(i - start)),
            value <= max,
        decreases s.len() - i,
    {
        let c = s[i];
        assert(c == digits[i - start]);
        if !char_is_digit(c) {
            assert(!is_digit(digits[i - start]));
            return None;
        }
        let d: u64 = (c as u8 - 48) as u64;
        proof {
            assert(digits.take(i - start + 1).drop_last() == digits.take(i - start));
            assert(digits.take(i - start + 1).last() == c);
            lemma_decimal_value_monotone(digits, i - start + 1);
        }
        if d > max || value > (max - d) / 10 {
            assert(decimal_value(digits.take(i - start + 1)) > max);
            return None;
        }
        value = value * 10 + d;
        assert(all_digits(digits.take(i - start + 1))) by {
            assert forall|j: int| 0 <= j < i - start + 1 implies is_digit(
                #[trigger] digits.take(i - start + 1)[j],
            ) by {
                if j < i - start {
                    assert(digits.take(i - start + 1)[j] == digits.take(i - start)[j]);
                }
            }
        }
        i += 1;
    }
    assert(digits.take(i - start) == digits);
    Some(value)
}

/// Reads an unsigned 64-bit decimal number.
pub fn parse_u64(s: &Vec<char>) -> (r: Option<u64>)
    ensures
        match r {
            Some(n) => parse_unsigned(s@, u64::MAX as nat) == Some(n as nat),
            None => parse_unsigned(s@, u64::MAX as nat) is None,
        },
{
    parse_bounded(s, u64::MAX)
}

/// Reads an unsigned 32-bit decimal number.
pub fn parse_u32(s: &Vec<char>) -> (r: Option<u32>)
    ensures
        match r {
            Some(n) => parse_unsigned(s@, u32::MAX as nat) == Some(n as nat),
            None => parse_unsigned(s@, u32::MAX as nat) is None,
        },
{
    match parse_bounded(s, 0xFFFF_FFFF) {
        Some(n) => Some(n as u32),
        None => None,
    }
}

/// The digits of `n` in base ten.
pub fn to_decimal(n: u64) -> (r: Vec<char>)
    ensures
        r@ == decimal_digits(n as nat),
    decreases n,
{
    if n < 10 {
        let mut out: Vec<char> = Vec::new();
        out.push(((n + 48) as u8) as char);
        assert(out@ == seq![digit_char(n as nat)]);
        out
    } else {
        let mut out = to_decimal(n / 10);
        out.push(((n % 10 + 48) as u8) as char);
        out
    }
}

/// `s` with zeros put in front until it is `width` long.
pub fn zero_padded(s: &Vec<char>, width: usize) -> (r: Vec<char>)
    ensures
        r@ == pad_left(s@, width as nat, '0'),
{
    let mut out: Vec<char> = Vec::new();
    if s.len() < width {
        let missing: usize = width - s.len();
        let mut i: usize = 0;
        while i < missing
            invariant
                i <= missing,
                out@ == Seq::new(i as nat, |k: int| '0'),
            decreases missing - i,
        {
            out.push('0');
            i += 1;
        }
    }
    let ghost front = out@;
    let mut j: usize = 0;
    while j < s.len()
        invariant
            j <= s.len(),
            out@ == front + s@.take(j as int),
        decreases s.len() - j,
    {
        out.push(s[j]);
        j += 1;
    }
    assert(s@.take(s.len() as int) == s@);
    assert(front + s@ == pad_left(s@, width as nat, '0')) by {
        if s.len() >= width {
            assert(front + s@ == s@);
        }
    }
    out
}

} // verus!
