//! Reputation lookup: request preparation and response classification.
//!
//! One lookup is an HTTP GET against the reputation service, issued by the
//! caller of this library. The library prepares the request (and refuses to
//! prepare one for an invalid address) and classifies the answer: a
//! non-success status is an API error carrying status and body, a success
//! body that is not the expected JSON shape is a response-parse error, and a
//! success body with a `data` object yields the reputation record, every
//! field of which is optional and passed through as provided.

use vstd::prelude::*;

use crate::ip::{is_ip_literal, is_valid_ip};
use crate::numfmt::{spec_dec, u32_to_dec};

verus! {

/// Fixed endpoint of the reputation service.
pub const REPUTATION_ENDPOINT: &'static str = "https://api.abuseipdb.com/api/v2/check";

/// Reporting window sent with every lookup, in days.
pub const MAX_AGE_IN_DAYS: u32 = 90;

/// Bound on one lookup's duration, in seconds.
pub const LOOKUP_TIMEOUT_SECS: u64 = 10;

/// The reputation record of one address as the service reports it. Every
/// field is optional: the service may omit any of them, and a failed lookup
/// has none.
pub struct IpReputationData {
    pub is_public: Option<bool>,
    pub ip_version: Option<u8>,
    pub is_whitelisted: Option<bool>,
    pub abuse_confidence: Option<u8>,
    pub country_code: Option<String>,
    pub country_name: Option<String>,
    pub usage_type: Option<String>,
    pub isp: Option<String>,
    pub domain: Option<String>,
    pub total_reports: Option<u32>,
    pub num_distinct_users: Option<u32>,
    pub last_reported_at: Option<String>,
}

/// A success response of the reputation service: a JSON object whose `data`
/// field holds the record.
pub struct AbuseIpDbResponse {
    pub data: IpReputationData,
}

/// Why one lookup failed. Per-address failures are recorded, not escalated.
#[derive(Debug)]
pub enum LookupError {
    /// The address is not a valid IP literal; no request is prepared for it.
    InvalidIp,
    /// Transport failure or timeout, with the transport's diagnostic.
    Network { message: String },
    /// The service answered with a non-success status.
    Api { status: u16, body: String },
    /// The success body could not be decoded into the expected schema.
    ResponseParse { message: String },
}

/// A prepared lookup request: the endpoint and the query values to send as
/// `ipAddress` and `maxAgeInDays` (the `verbose` query parameter is sent
/// with an empty value).
pub struct LookupRequest {
    pub url: String,
    pub ip_address: String,
    pub max_age_in_days: String,
}

/// Prepare the lookup request for one address, re-validating the address as
/// defense in depth: an invalid address never yields a request.
pub fn build_lookup_request(ip_address: &String, max_age_days: u32) -> (r: Result<
    LookupRequest,
    LookupError,
>)
    ensures
        r is Ok <==> is_ip_literal(ip_address@),
        !is_ip_literal(ip_address@) ==> r matches Err(LookupError::InvalidIp),
        r is Ok ==> {
            let req = r->Ok_0;
            &&& req.url@ == REPUTATION_ENDPOINT@
            &&& req.ip_address@ == ip_address@
            &&& req.max_age_in_days@ == spec_dec(max_age_days as nat)
        },
{
    if !is_valid_ip(ip_address.as_str()) {
        return Err(LookupError::InvalidIp);
    }
    Ok(
        LookupRequest {
            url: String::from_str(REPUTATION_ENDPOINT),
            ip_address: ip_address.clone(),
            max_age_in_days: u32_to_dec(max_age_days),
        },
    )
}

/// Whether an HTTP status code is a success status.
pub open spec fn spec_status_success(status: u16) -> bool {
    200 <= status < 300
}

/// Whether a text is a valid JSON document. Parsing is a pure function of
/// the text.
pub uninterp spec fn json_parses(s: Seq<char>) -> bool;

/// Relies on `serde_json::from_str::<Value>`: it accepts a valid JSON
/// document and rejects anything else, deterministically in the input text.
/// The `Err` message is the decoder's diagnostic and is unspecified.
#[verifier::external_body]
fn json_wellformed(s: &str) -> (r: Result<(), String>)
    ensures
        r is Ok <==> json_parses(s@),
{
    match serde_json::from_str::<serde_json::Value>(s) {
        Ok(_) => Ok(()),
        Err(e) => Err(e.to_string()),
    }
}

/// Whether the JSON document `body` holds an object at `pointer`: `false`
/// when the text is not a JSON document, the pointer does not resolve, or
/// the value there is not an object. A pure function of both texts.
pub uninterp spec fn json_object_at(body: Seq<char>, pointer: Seq<char>) -> bool;

/// Relies on `serde_json::from_str::<Value>`, `Value::pointer` and
/// `Value::is_object`: all deterministic in the two texts.
#[verifier::external_body]
fn json_object_field(body: &str, pointer: &str) -> (r: bool)
    ensures
        r == json_object_at(body@, pointer@),
{
    match serde_json::from_str::<serde_json::Value>(body) {
        Ok(v) => v.pointer(pointer).map_or(false, |x| x.is_object()),
        Err(_) => false,
    }
}

/// The boolean held by the JSON document `body` at `pointer`: absent when
/// the text is not a JSON document, the pointer does not resolve, or the
/// value there is not a boolean. A pure function of both texts.
pub uninterp spec fn json_bool_at(body: Seq<char>, pointer: Seq<char>) -> Option<bool>;

/// Relies on `serde_json::from_str::<Value>`, `Value::pointer` and
/// `Value::as_bool`: all deterministic in the two texts.
#[verifier::external_body]
fn json_bool_field(body: &str, pointer: &str) -> (r: Option<bool>)
    ensures
        r == json_bool_at(body@, pointer@),
{
    match serde_json::from_str::<serde_json::Value>(body) {
        Ok(v) => v.pointer(pointer).and_then(|x| x.as_bool()),
        Err(_) => None,
    }
}

/// The unsigned integer held by the JSON document `body` at `pointer`:
/// absent when the text is not a JSON document, the pointer does not
/// resolve, or the value there is not an unsigned integer. A pure function
/// of both texts.
pub uninterp spec fn json_u64_at(body: Seq<char>, pointer: Seq<char>) -> Option<u64>;

/// Relies on `serde_json::from_str::<Value>`, `Value::pointer` and
/// `Value::as_u64`: all deterministic in the two texts.
#[verifier::external_body]
fn json_u64_field(body: &str, pointer: &str) -> (r: Option<u64>)
    ensures
        r == json_u64_at(body@, pointer@),
{
    match serde_json::from_str::<serde_json::Value>(body) {
        Ok(v) => v.pointer(pointer).and_then(|x| x.as_u64()),
        Err(_) => None,
    }
}

/// The string held by the JSON document `body` at `pointer`: absent when the
/// text is not a JSON document, the pointer does not resolve, or the value
/// there is not a string. A pure function of both texts.
pub uninterp spec fn json_string_at(body: Seq<char>, pointer: Seq<char>) -> Option<Seq<char>>;

/// Relies on `serde_json::from_str::<Value>`, `Value::pointer` and
/// `Value::as_str`: all deterministic in the two texts.
#[verifier::external_body]
fn json_string_field(body: &str, pointer: &str) -> (r: Option<String>)
    ensures
        r.deep_view() == json_string_at(body@, pointer@),
{
    match serde_json::from_str::<serde_json::Value>(body) {
        Ok(v) => v.pointer(pointer).and_then(|x| x.as_str()).map(|x| x.to_owned()),
        Err(_) => None,
    }
}

/// A value narrowed to a small integer: absent when it does not fit.
pub open spec fn spec_u8_of(o: Option<u64>) -> Option<u8> {
    match o {
        Some(n) => if n <= u8::MAX as u64 {
            Some(n as u8)
        } else {
            None
        },
        None => None,
    }
}

/// A value narrowed to a counter: absent when it does not fit.
pub open spec fn spec_u32_of(o: Option<u64>) -> Option<u32> {
    match o {
        Some(n) => if n <= u32::MAX as u64 {
            Some(n as u32)
        } else {
            None
        },
        None => None,
    }
}

/// Narrow an optional integer to `u8`.
fn narrow_u8(o: Option<u64>) -> (r: Option<u8>)
    ensures
        r == spec_u8_of(o),
{
    match o {
        Some(n) => if n <= u8::MAX as u64 {
            Some(n as u8)
        } else {
            None
        },
        None => None,
    }
}

/// Narrow an optional integer to `u32`.
fn narrow_u32(o: Option<u64>) -> (r: Option<u32>)
    ensures
        r == spec_u32_of(o),
{
    match o {
        Some(n) => if n <= u32::MAX as u64 {
            Some(n as u32)
        } else {
            None
        },
        None => None,
    }
}

/// How a decoded record relates to the response body it was read from:
/// every field is exactly what the body's `data` object holds under the
/// field's wire name, absent where the body omits it or gives it another
/// type, and the integer fields absent also where they do not fit their
/// width.
pub open spec fn spec_record_matches_body(body: Seq<char>, d: IpReputationData) -> bool {
    &&& d.is_public == json_bool_at(body, "/data/isPublic"@)
    &&& d.ip_version == spec_u8_of(json_u64_at(body, "/data/ipVersion"@))
    &&& d.is_whitelisted == json_bool_at(body, "/data/isWhitelisted"@)
    &&& d.abuse_confidence == spec_u8_of(json_u64_at(body, "/data/abuseConfidencePercentage"@))
    &&& d.country_code.deep_view() == json_string_at(body, "/data/countryCode"@)
    &&& d.country_name.deep_view() == json_string_at(body, "/data/countryName"@)
    &&& d.usage_type.deep_view() == json_string_at(body, "/data/usageType"@)
    &&& d.isp.deep_view() == json_string_at(body, "/data/isp"@)
    &&& d.domain.deep_view() == json_string_at(body, "/data/domain"@)
    &&& d.total_reports == spec_u32_of(json_u64_at(body, "/data/totalReports"@))
    &&& d.num_distinct_users == spec_u32_of(json_u64_at(body, "/data/numDistinctUsers"@))
    &&& d.last_reported_at.deep_view() == json_string_at(body, "/data/lastReportedAt"@)
}

/// Read the reputation record out of a success body: the fields of its
/// `data` object, each absent when missing or not of its expected type,
/// with no client-side defaulting.
pub fn decode_reputation(body: &str) -> (r: AbuseIpDbResponse)
    ensures
        spec_record_matches_body(body@, r.data),
{
    AbuseIpDbResponse {
        data: IpReputationData {
            is_public: json_bool_field(body, "/data/isPublic"),
            ip_version: narrow_u8(json_u64_field(body, "/data/ipVersion")),
            is_whitelisted: json_bool_field(body, "/data/isWhitelisted"),
            abuse_confidence: narrow_u8(json_u64_field(body, "/data/abuseConfidencePercentage")),
            country_code: json_string_field(body, "/data/countryCode"),
            country_name: json_string_field(body, "/data/countryName"),
            usage_type: json_string_field(body, "/data/usageType"),
            isp: json_string_field(body, "/data/isp"),
            domain: json_string_field(body, "/data/domain"),
            total_reports: narrow_u32(json_u64_field(body, "/data/totalReports")),
            num_distinct_users: narrow_u32(json_u64_field(body, "/data/numDistinctUsers")),
            last_reported_at: json_string_field(body, "/data/lastReportedAt"),
        },
    }
}

/// Classify the answer of one lookup: status and body in, record or
/// classified failure out.
///
/// A non-success status is an API error carrying exactly the status and the
/// body. With a success status, the lookup succeeds exactly when the body is
/// a JSON document with an object at `data`, and then the returned record
/// holds that object's fields as the service provided them; a body that is
/// not a JSON document or has no `data` object is a response-parse error.
pub fn classify_response(status: u16, body: &str) -> (r: Result<IpReputationData, LookupError>)
    ensures
        !spec_status_success(status) <==> (r matches Err(LookupError::Api {
            status: s,
            body: b,
        }) && s == status && b@ == body@),
        spec_status_success(status) ==> (r is Ok || r matches Err(
            LookupError::ResponseParse { .. },
        )),
        r is Ok <==> spec_status_success(status) && json_parses(body@) && json_object_at(
            body@,
            "/data"@,
        ),
        r is Ok ==> spec_record_matches_body(body@, r->Ok_0),
{
    if !(200 <= status && status < 300) {
        return Err(LookupError::Api { status, body: body.to_owned() });
    }
    if let Err(message) = json_wellformed(body) {
        return Err(LookupError::ResponseParse { message });
    }
    if !json_object_field(body, "/data") {
        return Err(
            LookupError::ResponseParse {
                message: String::from_str("response has no data object"),
            },
        );
    }
    Ok(decode_reputation(body).data)
}

} // verus!
