//! Decimal rendering of unsigned integers for report cells.
//!
//! Report and enhanced-export cells hold numbers as decimal text. The
//! rendering is specified by [`spec_dec`], the usual most-significant-first
//! decimal expansion without leading zeroes, and implemented by
//! [`u32_to_dec`].

use vstd::prelude::*;

verus! {

/// Character for a single decimal digit value.
pub open spec fn digit_char(d: int) -> char
    recommends
        0 <= d < 10,
{
    if d == 0 {
        '0'
    } else if d == 1 {
        '1'
    } else if d == 2 {
        '2'
    } else if d == 3 {
        '3'
    } else if d == 4 {
        '4'
    } else if d == 5 {
        '5'
    } else if d == 6 {
        '6'
    } else if d == 7 {
        '7'
    } else if d == 8 {
        '8'
    } else {
        '9'
    }
}

/// Decimal expansion of `n`, most significant digit first, no leading zeroes.
pub open spec fn spec_dec(n: nat) -> Seq<char>
    decreases n,
{
    if n < 10 {
        seq![digit_char(n as int)]
    } else {
        spec_dec(n / 10).push(digit_char((n % 10) as int))
    }
}

/// One-character string slice for a single decimal digit value.
fn digit_str(d: u8) -> (r: &'static str)
    requires
        d < 10,
    ensures
        r@ == seq![digit_char(d as int)],
{
    proof {
        reveal_strlit("0");
        reveal_strlit("1");
        reveal_strlit("2");
        reveal_strlit("3");
        reveal_strlit("4");
        reveal_strlit("5");
        reveal_strlit("6");
        reveal_strlit("7");
        reveal_strlit("8");
        reveal_strlit("9");
    }
    let r = if d == 0 {
        "0"
    } else if d == 1 {
        "1"
    } else if d == 2 {
        "2"
    } else if d == 3 {
        "3"
    } else if d == 4 {
        "4"
    } else if d == 5 {
        "5"
    } else if d == 6 {
        "6"
    } else if d == 7 {
        "7"
    } else if d == 8 {
        "8"
    } else {
        "9"
    };
    proof {
        assert(r@ =~= seq![digit_char(d as int)]);
    }
    r
}

/// Render `n` as decimal text.
pub fn u32_to_dec(n: u32) -> (r: String)
    ensures
        r@ == spec_dec(n as nat),
    decreases n,
{
    let d = (n % 10) as u8;
    if n < 10 {
        String::from_str(digit_str(d))
    } else {
        let prefix = u32_to_dec(n / 10);
        let r = prefix.concat(digit_str(d));
        proof {
            assert(r@ =~= spec_dec(n as nat));
        }
        r
    }
}

/// Render `n` as decimal text.
pub fn u8_to_dec(n: u8) -> (r: String)
    ensures
        r@ == spec_dec(n as nat),
{
    u32_to_dec(n as u32)
}

} // verus!
