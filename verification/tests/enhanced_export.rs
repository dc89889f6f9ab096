//! The enhanced copy of the export, end to end over real CSV and JSON.

use emlrustlib::csvio::{parse_csv_text, render_csv};
use emlrustlib::enhance::create_enhanced_csv;
use emlrustlib::enrich::{analyze_ips, IpReputationReport};
use emlrustlib::extract::{extract_unique_ips_from_csv, SchemaError};
use emlrustlib::reputation::IpReputationData;

fn details_cell(ip: &str) -> String {
    format!("\"{{\"\"browser\"\": {{\"\"address\"\": \"\"{}\"\"}}}}\"", ip)
}

fn record(confidence: Option<u8>) -> IpReputationData {
    IpReputationData {
        is_public: None,
        ip_version: None,
        is_whitelisted: None,
        abuse_confidence: confidence,
        country_code: None,
        country_name: Some("United States".to_string()),
        usage_type: Some("Data Center".to_string()),
        isp: Some("Example ISP".to_string()),
        domain: Some("example.com".to_string()),
        total_reports: Some(52),
        num_distinct_users: Some(13),
        last_reported_at: None,
    }
}

fn enrich_all(table_text: &str) -> (emlrustlib::csvio::CsvTable, Vec<IpReputationReport>) {
    let table = parse_csv_text(table_text).unwrap();
    let outcome = extract_unique_ips_from_csv(&table).unwrap();
    let outcomes: Vec<Option<IpReputationData>> =
        outcome.unique_ips.iter().map(|_| Some(record(Some(83)))).collect();
    let stamps: Vec<String> = outcome.unique_ips.iter().map(|_| "t".to_string()).collect();
    let reports = analyze_ips(&outcome.unique_ips, &outcomes, &stamps);
    (table, reports)
}

#[test]
fn row_count_is_always_kept() {
    let text = format!(
        "message,details\nEmail Opened,{}\nClicked Link,{}\nClicked Link,not-json\n",
        details_cell("9.9.9.9"),
        details_cell("8.8.8.8"),
    );
    let (table, reports) = enrich_all(&text);
    let cells = create_enhanced_csv(&table, &reports).unwrap();
    assert_eq!(cells.len(), 1 + 3);
}

#[test]
fn zero_qualifying_rows_still_pass_through() {
    let text = "message,details\nEmail Opened,x\nEmail Sent,y\n";
    let (table, reports) = enrich_all(text);
    assert!(reports.is_empty());
    let cells = create_enhanced_csv(&table, &reports).unwrap();
    assert_eq!(cells.len(), 3);
    assert_eq!(cells[1][0], "Email Opened");
    assert_eq!(cells[1][1], "x");
    for k in 2..10 {
        assert_eq!(cells[1][k], "");
    }
}

#[test]
fn every_extracted_ip_heads_exactly_one_report_row() {
    let text = format!(
        "message,details\nClicked Link,{}\nSubmitted Data,{}\nClicked Link,{}\nEmail Opened,{}\n",
        details_cell("8.8.8.8"),
        details_cell("1.1.1.1"),
        details_cell("8.8.8.8"),
        details_cell("9.9.9.9"),
    );
    let (_, reports) = enrich_all(&text);
    let cells = emlrustlib::enrich::report_cells(&reports);
    for ip in ["8.8.8.8", "1.1.1.1"] {
        let n = cells[1..].iter().filter(|row| row[0] == ip).count();
        assert_eq!(n, 1);
    }
    let n = cells[1..].iter().filter(|row| row[0] == "9.9.9.9").count();
    assert_eq!(n, 0);
}

#[test]
fn two_rows_same_ip_share_the_same_appended_values() {
    let text = format!(
        "message,details\nClicked Link,{}\nClicked Link,{}\n",
        details_cell("8.8.8.8"),
        details_cell("8.8.8.8"),
    );
    let (table, reports) = enrich_all(&text);
    assert_eq!(reports.len(), 1);
    assert_eq!(reports[0].ip_address, "8.8.8.8");
    let report = emlrustlib::enrich::report_cells(&reports);
    assert_eq!(report.len(), 2);
    assert_eq!(report[1][0], "8.8.8.8");
    let cells = create_enhanced_csv(&table, &reports).unwrap();
    assert_eq!(cells.len(), 3);
    assert_eq!(cells[1][2..], cells[2][2..]);
    assert_eq!(cells[1][2], "8.8.8.8");
    assert_eq!(cells[1][3], "83");
    assert_eq!(cells[1][4], "United States");
    assert_eq!(cells[1][8], "52");
    assert_eq!(cells[1][9], "13");
}

#[test]
fn header_gets_the_eight_appended_names() {
    let text = "message,details\n";
    let (table, reports) = enrich_all(text);
    let cells = create_enhanced_csv(&table, &reports).unwrap();
    assert_eq!(
        cells[0],
        vec![
            "message",
            "details",
            "ip_address",
            "abuse_confidence",
            "country_name",
            "usage_type",
            "isp",
            "domain",
            "total_reports",
            "num_distinct_users",
        ]
    );
}

#[test]
fn unrecognized_label_row_passes_through_unenriched() {
    let text = format!(
        "message,details\nEmail Opened,{}\nClicked Link,{}\n",
        details_cell("8.8.8.8"),
        details_cell("8.8.8.8"),
    );
    let (table, reports) = enrich_all(&text);
    let cells = create_enhanced_csv(&table, &reports).unwrap();
    for k in 2..10 {
        assert_eq!(cells[1][k], "");
    }
    assert_eq!(cells[2][2], "8.8.8.8");
}

#[test]
fn invalid_ip_row_gets_blank_cells() {
    let text = format!("message,details\nClicked Link,{}\n", details_cell("1.2.3.4.5"));
    let (table, reports) = enrich_all(&text);
    assert!(reports.is_empty());
    let cells = create_enhanced_csv(&table, &reports).unwrap();
    for k in 2..10 {
        assert_eq!(cells[1][k], "");
    }
}

#[test]
fn missing_details_column_is_schema_error_for_joiner() {
    let table = parse_csv_text("message,other\nClicked Link,x\n").unwrap();
    let r = create_enhanced_csv(&table, &Vec::new());
    assert!(matches!(r, Err(SchemaError::MissingDetailsColumn)));
}

#[test]
fn rendered_enhanced_text_quotes_the_payload() {
    let text = format!("message,details\nClicked Link,{}\n", details_cell("8.8.8.8"));
    let (table, reports) = enrich_all(&text);
    let cells = create_enhanced_csv(&table, &reports).unwrap();
    let rendered = render_csv(&cells);
    let mut lines = rendered.lines();
    assert_eq!(
        lines.next().unwrap(),
        "message,details,ip_address,abuse_confidence,country_name,usage_type,isp,domain,total_reports,num_distinct_users"
    );
    let row = lines.next().unwrap();
    assert!(row.starts_with("Clicked Link,\"{\"\"browser\"\": {\"\"address\"\": \"\"8.8.8.8\"\"}}\""));
    assert!(row.ends_with("8.8.8.8,83,United States,Data Center,Example ISP,example.com,52,13"));
}

#[test]
fn csv_encoding_quotes_fields_that_need_it() {
    let rows = vec![vec!["a".to_string(), "b,c".to_string(), "d\"e".to_string()]];
    let text = render_csv(&rows);
    assert_eq!(text, "a,\"b,c\",\"d\"\"e\"\n");
}
