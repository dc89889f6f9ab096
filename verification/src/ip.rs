//! IP address literal validation.
//!
//! An IP address enters the pipeline as a string extracted from an event
//! row's details payload. It is promoted further only when it is a valid
//! IPv4 or IPv6 literal. The IPv4 dotted-decimal grammar is specified and
//! decided in this library; the IPv6 grammar is decided by the platform's
//! own address parser behind [`is_ipv6_literal`].

use vstd::prelude::*;

use crate::ipv4::{is_valid_ipv4, valid_ipv4};

verus! {

/// Whether `s` is a valid IPv6 address literal, as decided by
/// `core::net::Ipv6Addr`'s `FromStr` grammar. Validity is a pure function of
/// the characters of `s`.
pub uninterp spec fn is_ipv6_literal(s: Seq<char>) -> bool;

/// Relies on `core::net::Ipv6Addr`'s `FromStr` implementation (through
/// `str::parse`): it accepts exactly the IPv6 address literals,
/// deterministically in the input string.
#[verifier::external_body]
fn parse_ipv6_literal(s: &str) -> (r: bool)
    ensures
        r == is_ipv6_literal(s@),
{
    s.parse::<core::net::Ipv6Addr>().is_ok()
}

/// Whether `s` is a valid IPv4 or IPv6 address literal.
pub open spec fn is_ip_literal(s: Seq<char>) -> bool {
    valid_ipv4(s) || is_ipv6_literal(s)
}

/// Whether `ip_str` is a syntactically valid IPv4 or IPv6 address literal.
pub fn is_valid_ip(ip_str: &str) -> (r: bool)
    ensures
        r == is_ip_literal(ip_str@),
{
    is_valid_ipv4(ip_str) || parse_ipv6_literal(ip_str)
}

} // verus!
