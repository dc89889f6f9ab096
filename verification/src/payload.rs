//! The per-row details payload.
//!
//! Each event row carries a `details` cell: a JSON document of the shape
//! `{ "browser": { "address": "<ip>" } }`. [`parse_details`] decodes one
//! cell; the address it yields is specified by the (trusted) function
//! [`details_ip_of`], so that the extractor's and the joiner's contracts can
//! speak about the same decoding.

use vstd::prelude::*;

verus! {

/// Browser block of a details payload: the client address it reports.
pub struct BrowserInfo {
    pub address: String,
}

/// Decoded details payload of one event row.
pub struct Details {
    pub browser: BrowserInfo,
}

/// The address that the details text yields: `Some` exactly when the text is
/// a JSON document with a string value at `browser.address`, and then that
/// string's characters. Decoding is a pure function of the text.
pub uninterp spec fn details_ip_of(s: Seq<char>) -> Option<Seq<char>>;

/// Relies on `serde_json::from_str::<Value>`, `Value::pointer` and
/// `Value::as_str`: decoding a JSON document and reading the string at
/// `/browser/address` is deterministic in the input text. The `Err` message
/// is the decoder's diagnostic and is unspecified.
#[verifier::external_body]
pub(crate) fn parse_details(details: &str) -> (r: Result<Details, String>)
    ensures
        r is Ok <==> details_ip_of(details@) is Some,
        r is Ok ==> r->Ok_0.browser.address@ == details_ip_of(details@)->0,
{
    match serde_json::from_str::<serde_json::Value>(details) {
        Ok(v) => match v.pointer("/browser/address").and_then(|a| a.as_str()) {
            Some(ip) => Ok(Details { browser: BrowserInfo { address: ip.to_string() } }),
            None => Err("no string field at browser.address".to_string()),
        },
        Err(e) => Err(e.to_string()),
    }
}

} // verus!
