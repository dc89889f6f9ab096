//! Enrichment results, report rendering, risk classification.

use emlrustlib::enrich::{
    analyze_ips, needs_delay, render_report, report_cells, IpReputationReport,
};
use emlrustlib::reputation::IpReputationData;
use emlrustlib::risk::{classify_risk, high_risk_indices, risk_summary, RiskBucket};

fn record(confidence: Option<u8>) -> IpReputationData {
    IpReputationData {
        is_public: Some(true),
        ip_version: Some(4),
        is_whitelisted: Some(false),
        abuse_confidence: confidence,
        country_code: Some("US".to_string()),
        country_name: Some("United States".to_string()),
        usage_type: None,
        isp: Some("Example ISP".to_string()),
        domain: None,
        total_reports: Some(12345),
        num_distinct_users: Some(2),
        last_reported_at: None,
    }
}

#[test]
fn failed_lookup_still_yields_a_result() {
    let r = IpReputationReport::from_lookup(
        &"8.8.8.8".to_string(),
        &None,
        &"2024-01-02 03:04:05".to_string(),
    );
    assert_eq!(r.ip_address, "8.8.8.8");
    assert_eq!(r.checked_at, "2024-01-02 03:04:05");
    assert_eq!(r.is_public, None);
    assert_eq!(r.abuse_confidence, None);
    assert_eq!(r.country_name, None);
    assert_eq!(r.total_reports, None);
    assert_eq!(r.last_reported_at, None);
}

#[test]
fn successful_lookup_passes_fields_through() {
    let r = IpReputationReport::from_lookup(
        &"1.1.1.1".to_string(),
        &Some(record(Some(83))),
        &"now".to_string(),
    );
    assert_eq!(r.ip_address, "1.1.1.1");
    assert_eq!(r.abuse_confidence, Some(83));
    assert_eq!(r.country_name.as_deref(), Some("United States"));
    assert_eq!(r.usage_type, None);
    assert_eq!(r.total_reports, Some(12345));
}

#[test]
fn one_result_per_ip_in_order() {
    let ips = vec!["1.1.1.1".to_string(), "2.2.2.2".to_string()];
    let outcomes = vec![Some(record(Some(80))), None];
    let stamps = vec!["t1".to_string(), "t2".to_string()];
    let reports = analyze_ips(&ips, &outcomes, &stamps);
    assert_eq!(reports.len(), 2);
    assert_eq!(reports[0].ip_address, "1.1.1.1");
    assert_eq!(reports[0].abuse_confidence, Some(80));
    assert_eq!(reports[0].checked_at, "t1");
    assert_eq!(reports[1].ip_address, "2.2.2.2");
    assert_eq!(reports[1].abuse_confidence, None);
    assert_eq!(reports[1].checked_at, "t2");
}

#[test]
fn delay_follows_every_lookup_but_the_last() {
    assert!(needs_delay(0, 2));
    assert!(!needs_delay(1, 2));
    assert!(!needs_delay(0, 1));
    assert!(!needs_delay(0, 0));
    assert!(needs_delay(3, 5));
}

#[test]
fn report_has_header_and_one_row_per_result() {
    let ips = vec!["8.8.8.8".to_string()];
    let outcomes = vec![None];
    let stamps = vec!["2024-01-02 03:04:05".to_string()];
    let reports = analyze_ips(&ips, &outcomes, &stamps);
    let cells = report_cells(&reports);
    assert_eq!(cells.len(), 2);
    assert_eq!(cells[0][0], "ip_address");
    assert_eq!(cells[0][13], "checked_at");
    assert_eq!(cells[1][0], "8.8.8.8");
    assert_eq!(cells[1][13], "2024-01-02 03:04:05");
}

#[test]
fn failed_lookup_renders_blank_cells() {
    let reports = vec![IpReputationReport::from_lookup(
        &"8.8.8.8".to_string(),
        &None,
        &"2024-01-02 03:04:05".to_string(),
    )];
    let text = render_report(&reports);
    let expected_header = "ip_address,is_public,ip_version,is_whitelisted,abuse_confidence,country_code,country_name,usage_type,isp,domain,total_reports,num_distinct_users,last_reported_at,checked_at\n";
    let expected = format!("{}8.8.8.8,,,,,,,,,,,,,2024-01-02 03:04:05\n", expected_header);
    assert_eq!(text, expected);
}

#[test]
fn empty_result_set_still_renders_the_report() {
    let text = render_report(&Vec::new());
    assert_eq!(
        text,
        "ip_address,is_public,ip_version,is_whitelisted,abuse_confidence,country_code,country_name,usage_type,isp,domain,total_reports,num_distinct_users,last_reported_at,checked_at\n"
    );
}

#[test]
fn number_cells_render_in_decimal() {
    let reports = vec![IpReputationReport::from_lookup(
        &"1.1.1.1".to_string(),
        &Some(record(Some(0))),
        &"t".to_string(),
    )];
    let cells = report_cells(&reports);
    assert_eq!(cells[1][4], "0");
    assert_eq!(cells[1][10], "12345");
    assert_eq!(cells[1][11], "2");
    assert_eq!(cells[1][1], "true");
    assert_eq!(cells[1][3], "false");
}

#[test]
fn boundary_scores_classify_low_and_medium() {
    assert_eq!(classify_risk(25), RiskBucket::Low);
    assert_eq!(classify_risk(75), RiskBucket::Medium);
    assert_eq!(classify_risk(26), RiskBucket::Medium);
    assert_eq!(classify_risk(76), RiskBucket::High);
    assert_eq!(classify_risk(0), RiskBucket::Low);
    assert_eq!(classify_risk(100), RiskBucket::High);
}

#[test]
fn summary_counts_every_result_once() {
    let ips = vec![
        "1.1.1.1".to_string(),
        "2.2.2.2".to_string(),
        "3.3.3.3".to_string(),
        "4.4.4.4".to_string(),
    ];
    let outcomes = vec![
        Some(record(Some(76))),
        Some(record(Some(75))),
        Some(record(Some(25))),
        None,
    ];
    let stamps = vec!["t".to_string(), "t".to_string(), "t".to_string(), "t".to_string()];
    let reports = analyze_ips(&ips, &outcomes, &stamps);
    let summary = risk_summary(&reports);
    assert_eq!(summary.high, 1);
    assert_eq!(summary.medium, 1);
    assert_eq!(summary.low, 1);
    assert_eq!(summary.unscored, 1);
    let high = high_risk_indices(&reports);
    assert_eq!(high, vec![0]);
}
