//! Response classification and request preparation.

use emlrustlib::reputation::{
    build_lookup_request, classify_response, LookupError, LOOKUP_TIMEOUT_SECS, MAX_AGE_IN_DAYS,
    REPUTATION_ENDPOINT,
};

#[test]
fn non_success_status_is_api_error() {
    let r = classify_response(404, "nothing here");
    match r {
        Err(LookupError::Api { status, body }) => {
            assert_eq!(status, 404);
            assert_eq!(body, "nothing here");
        },
        _ => panic!("expected an API error"),
    }
}

#[test]
fn unparseable_success_body_is_parse_error() {
    let r = classify_response(200, "not json at all");
    assert!(matches!(r, Err(LookupError::ResponseParse { .. })));
}

#[test]
fn body_without_data_object_is_parse_error() {
    assert!(matches!(
        classify_response(200, "{}"),
        Err(LookupError::ResponseParse { .. })
    ));
    assert!(matches!(
        classify_response(200, "{\"data\": 5}"),
        Err(LookupError::ResponseParse { .. })
    ));
}

#[test]
fn success_body_yields_record_fields() {
    let body = "{\"data\": {\"isPublic\": true, \"ipVersion\": 4, \"isWhitelisted\": false, \"abuseConfidencePercentage\": 83, \"countryCode\": \"US\", \"countryName\": \"United States\", \"usageType\": \"Data Center\", \"isp\": \"Example ISP\", \"domain\": \"example.com\", \"totalReports\": 52, \"numDistinctUsers\": 13, \"lastReportedAt\": \"2024-05-01T00:00:00+00:00\"}}";
    let data = classify_response(200, body).unwrap();
    assert_eq!(data.is_public, Some(true));
    assert_eq!(data.ip_version, Some(4));
    assert_eq!(data.is_whitelisted, Some(false));
    assert_eq!(data.abuse_confidence, Some(83));
    assert_eq!(data.country_code.as_deref(), Some("US"));
    assert_eq!(data.country_name.as_deref(), Some("United States"));
    assert_eq!(data.usage_type.as_deref(), Some("Data Center"));
    assert_eq!(data.isp.as_deref(), Some("Example ISP"));
    assert_eq!(data.domain.as_deref(), Some("example.com"));
    assert_eq!(data.total_reports, Some(52));
    assert_eq!(data.num_distinct_users, Some(13));
    assert_eq!(data.last_reported_at.as_deref(), Some("2024-05-01T00:00:00+00:00"));
}

#[test]
fn omitted_and_mistyped_fields_are_absent() {
    let body = "{\"data\": {\"abuseConfidencePercentage\": \"high\", \"totalReports\": 7}}";
    let data = classify_response(200, body).unwrap();
    assert_eq!(data.abuse_confidence, None);
    assert_eq!(data.total_reports, Some(7));
    assert_eq!(data.is_public, None);
    assert_eq!(data.country_name, None);
}

#[test]
fn out_of_range_numbers_are_absent() {
    let body = "{\"data\": {\"abuseConfidencePercentage\": 300, \"totalReports\": 7}}";
    let data = classify_response(200, body).unwrap();
    assert_eq!(data.abuse_confidence, None);
    assert_eq!(data.total_reports, Some(7));
}

#[test]
fn invalid_ip_never_yields_a_request() {
    let r = build_lookup_request(&"999.1.2.3".to_string(), 90);
    assert!(matches!(r, Err(LookupError::InvalidIp)));
    let r2 = build_lookup_request(&"not an ip".to_string(), 90);
    assert!(matches!(r2, Err(LookupError::InvalidIp)));
}

#[test]
fn valid_ip_yields_the_fixed_request() {
    let req = build_lookup_request(&"8.8.8.8".to_string(), MAX_AGE_IN_DAYS).unwrap();
    assert_eq!(req.url, REPUTATION_ENDPOINT);
    assert_eq!(req.url, "https://api.abuseipdb.com/api/v2/check");
    assert_eq!(req.ip_address, "8.8.8.8");
    assert_eq!(req.max_age_in_days, "90");
    assert_eq!(LOOKUP_TIMEOUT_SECS, 10);
}
