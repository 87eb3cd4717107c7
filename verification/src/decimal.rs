//! Integers written in decimal, as `Display` writes them.

use vstd::prelude::*;
use crate::text::push_char;

verus! {

/// The decimal digit for `d < 10`.
pub open spec fn digit_char(d: nat) -> char {
    (48 + d) as char
}

/// The decimal digits of `n`, without leading zeros (`0` for zero).
pub open spec fn digits(n: nat) -> Seq<char>
    decreases n,
{
    if n < 10 {
        seq![digit_char(n)]
    } else {
        digits(n / 10).push(digit_char(n % 10))
    }
}

/// `n` in decimal, with `-` before a negative number.
pub open spec fn decimal(n: int) -> Seq<char> {
    if n < 0 {
        seq!['-'] + digits((-n) as nat)
    } else {
        digits(n as nat)
    }
}

/// The decimal digits of `n`.
pub fn digits_of(n: u64) -> (s: String)
    ensures
        s@ == digits(n as nat),
    decreases n,
{
    if n < 10 {
        let mut s = String::new();
        push_char(&mut s, ((48u64 + n) as u8) as char);
        assert(s@ == seq![digit_char(n as nat)]);
        s
    } else {
        let mut s = digits_of(n / 10);
        push_char(&mut s, ((48u64 + n % 10) as u8) as char);
        s
    }
}

/// `n` in decimal.
pub fn usize_decimal(n: usize) -> (s: String)
    ensures
        s@ == decimal(n as int),
{
    digits_of(n as u64)
}

/// `n` in decimal.
pub fn i32_decimal(n: i32) -> (s: String)
    ensures
        s@ == decimal(n as int),
{
    if n < 0 {
        let magnitude = (-(n as i64)) as u64;
        let d = digits_of(magnitude);
        let mut s = String::new();
        push_char(&mut s, '-');
        s.append(d.as_str());
        s
    } else {
        digits_of(n as u64)
    }
}

} // verus!
