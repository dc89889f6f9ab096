//! IPv4 dotted-decimal literals, specified and checked.
//!
//! A valid IPv4 literal is four octets joined by `.`, each octet one to
//! three decimal digits with value at most 255 and no leading zero.
//! [`valid_ipv4`] states this as the existence of the three dot positions;
//! [`is_valid_ipv4`] decides it.

use vstd::prelude::*;

verus! {

/// Whether `c` is a decimal digit.
pub open spec fn is_digit(c: char) -> bool {
    '0' <= c && c <= '9'
}

/// Value of a decimal digit.
pub open spec fn digit_val(c: char) -> int {
    c as int - '0' as int
}

/// Value of a digit string, most significant digit first.
pub open spec fn octet_val(s: Seq<char>) -> int
    decreases s.len(),
{
    if s.len() == 0 {
        0
    } else {
        octet_val(s.drop_last()) * 10 + digit_val(s.last())
    }
}

/// A valid octet: one to three decimal digits, no leading zero, value at
/// most 255.
pub open spec fn valid_octet(s: Seq<char>) -> bool {
    &&& 1 <= s.len() <= 3
    &&& (forall|i: int| 0 <= i < s.len() ==> is_digit(#[trigger] s[i]))
    &&& (s.len() > 1 ==> s[0] != '0')
    &&& octet_val(s) <= 255
}

/// The positions `a < b < c` split `s` into four valid octets joined by
/// dots.
pub open spec fn valid_ipv4_split(s: Seq<char>, a: int, b: int, c: int) -> bool {
    &&& 0 <= a < b < c < s.len()
    &&& s[a] == '.'
    &&& s[b] == '.'
    &&& s[c] == '.'
    &&& valid_octet(s.subrange(0, a))
    &&& valid_octet(s.subrange(a + 1, b))
    &&& valid_octet(s.subrange(b + 1, c))
    &&& valid_octet(s.subrange(c + 1, s.len() as int))
}

/// Whether `s` is a valid IPv4 dotted-decimal literal.
pub open spec fn valid_ipv4(s: Seq<char>) -> bool {
    exists|a: int, b: int, c: int| valid_ipv4_split(s, a, b, c)
}

/// Find the first `.` at or after `from`.
fn find_dot(s: &str, from: usize, n: usize) -> (r: Option<usize>)
    requires
        from <= n,
        n == s@.len(),
    ensures
        match r {
            Some(p) => from <= p < n && s@[p as int] == '.' && (forall|j: int|
                from <= j < p ==> s@[j] != '.'),
            None => forall|j: int| from <= j < n ==> s@[j] != '.',
        },
{
    let mut i: usize = from;
    while i < n
        invariant
            from <= i <= n,
            n == s@.len(),
            forall|j: int| from <= j < i ==> s@[j] != '.',
        decreases n - i,
    {
        if s.get_char(i) == '.' {
            return Some(i);
        }
        i += 1;
    }
    None
}

/// Decide whether the characters `from..to` of `s` form a valid octet.
fn check_octet(s: &str, from: usize, to: usize) -> (r: bool)
    requires
        from <= to <= s@.len(),
    ensures
        r == valid_octet(s@.subrange(from as int, to as int)),
{
    let ghost seg = s@.subrange(from as int, to as int);
    let len = to - from;
    if len < 1 || len > 3 {
        return false;
    }
    if len > 1 && s.get_char(from) == '0' {
        return false;
    }
    let mut val: u32 = 0;
    let mut i: usize = from;
    while i < to
        invariant
            from <= i <= to,
            to <= s@.len(),
            to - from <= 3,
            seg == s@.subrange(from as int, to as int),
            forall|j: int| from <= j < i ==> is_digit(#[trigger] s@[j]),
            val == octet_val(s@.subrange(from as int, i as int)),
            val <= 999,
            i - from == 1 ==> val <= 9,
            i - from == 2 ==> val <= 99,
            i - from == 0 ==> val == 0,
        decreases to - i,
    {
        let c = s.get_char(i);
        if !('0' <= c && c <= '9') {
            proof {
                assert(seg[i - from] == s@[i as int]);
                assert(!valid_octet(seg));
            }
            return false;
        }
        let d = (c as u32) - 48;
        proof {
            assert(s@.subrange(from as int, i + 1).drop_last() =~= s@.subrange(
                from as int,
                i as int,
            ));
            assert(s@.subrange(from as int, i + 1).last() == s@[i as int]);
            assert(d == digit_val(s@[i as int]));
        }
        val = val * 10 + d;
        i += 1;
    }
    proof {
        assert forall|j: int| 0 <= j < seg.len() implies is_digit(#[trigger] seg[j]) by {
            assert(seg[j] == s@[from + j]);
        }
        assert(seg[0] == s@[from as int]);
    }
    val <= 255
}

/// Decide whether `s` is a valid IPv4 dotted-decimal literal.
pub fn is_valid_ipv4(s: &str) -> (r: bool)
    ensures
        r == valid_ipv4(s@),
{
    let n = s.unicode_len();
    let a = match find_dot(s, 0, n) {
        Some(p) => p,
        None => {
            proof {
                if valid_ipv4(s@) {
                    let (a, b, c) = choose|a: int, b: int, c: int| valid_ipv4_split(s@, a, b, c);
                    assert(s@[a] == '.');
                }
            }
            return false;
        },
    };
    let b = match find_dot(s, a + 1, n) {
        Some(p) => p,
        None => {
            proof {
                if valid_ipv4(s@) {
                    let (a0, b0, c0) = choose|a0: int, b0: int, c0: int|
                        valid_ipv4_split(s@, a0, b0, c0);
                    lemma_first_dot(s@, a0, b0, c0, a as int);
                    assert(s@[b0] == '.');
                }
            }
            return false;
        },
    };
    let c = match find_dot(s, b + 1, n) {
        Some(p) => p,
        None => {
            proof {
                if valid_ipv4(s@) {
                    let (a0, b0, c0) = choose|a0: int, b0: int, c0: int|
                        valid_ipv4_split(s@, a0, b0, c0);
                    lemma_first_dot(s@, a0, b0, c0, a as int);
                    lemma_second_dot(s@, a0, b0, c0, b as int);
                    assert(s@[c0] == '.');
                }
            }
            return false;
        },
    };
    if let Some(q) = find_dot(s, c + 1, n) {
        proof {
            if valid_ipv4(s@) {
                let (a0, b0, c0) = choose|a0: int, b0: int, c0: int|
                    valid_ipv4_split(s@, a0, b0, c0);
                lemma_first_dot(s@, a0, b0, c0, a as int);
                lemma_second_dot(s@, a0, b0, c0, b as int);
                lemma_third_dot(s@, a0, b0, c0, c as int);
                let seg = s@.subrange(c0 + 1, s@.len() as int);
                assert(seg[q - c0 - 1] == s@[q as int]);
            }
        }
        return false;
    }
    let ok = check_octet(s, 0, a) && check_octet(s, a + 1, b) && check_octet(s, b + 1, c)
        && check_octet(s, c + 1, n);
    proof {
        if ok {
            assert(valid_ipv4_split(s@, a as int, b as int, c as int));
        } else {
            if valid_ipv4(s@) {
                let (a0, b0, c0) = choose|a0: int, b0: int, c0: int|
                    valid_ipv4_split(s@, a0, b0, c0);
                lemma_first_dot(s@, a0, b0, c0, a as int);
                lemma_second_dot(s@, a0, b0, c0, b as int);
                lemma_third_dot(s@, a0, b0, c0, c as int);
            }
        }
    }
    ok
}

/// In a split string, any dot whose prefix holds no dot is the first split
/// point.
proof fn lemma_first_dot(s: Seq<char>, a0: int, b0: int, c0: int, a: int)
    requires
        valid_ipv4_split(s, a0, b0, c0),
        0 <= a < s.len(),
        s[a] == '.',
        forall|j: int| 0 <= j < a ==> s[j] != '.',
    ensures
        a == a0,
{
    if a < a0 {
        assert(s.subrange(0, a0)[a] == s[a]);
    }
    if a > a0 {
        assert(s[a0] == '.');
    }
}

/// In a split string, any dot after the first whose gap holds no dot is the
/// second split point.
proof fn lemma_second_dot(s: Seq<char>, a0: int, b0: int, c0: int, b: int)
    requires
        valid_ipv4_split(s, a0, b0, c0),
        a0 < b < s.len(),
        s[b] == '.',
        forall|j: int| a0 < j < b ==> s[j] != '.',
    ensures
        b == b0,
{
    if b < b0 {
        assert(s.subrange(a0 + 1, b0)[b - a0 - 1] == s[b]);
    }
    if b > b0 {
        assert(s[b0] == '.');
    }
}

/// In a split string, any dot after the second whose gap holds no dot is the
/// third split point.
proof fn lemma_third_dot(s: Seq<char>, a0: int, b0: int, c0: int, c: int)
    requires
        valid_ipv4_split(s, a0, b0, c0),
        b0 < c < s.len(),
        s[c] == '.',
        forall|j: int| b0 < j < c ==> s[j] != '.',
    ensures
        c == c0,
{
    if c < c0 {
        assert(s.subrange(b0 + 1, c0)[c - b0 - 1] == s[c]);
    }
    if c > c0 {
        assert(s[c0] == '.');
    }
}

} // verus!
