//! Extraction over real CSV and JSON decoding.

use emlrustlib::csvio::parse_csv_text;
use emlrustlib::extract::{extract_unique_ips_from_csv, SchemaError};

fn details_cell(ip: &str) -> String {
    format!("\"{{\"\"browser\"\": {{\"\"address\"\": \"\"{}\"\"}}}}\"", ip)
}

fn table_text(rows: &[(&str, String)]) -> String {
    let mut text = String::from("message,details\n");
    for (message, details) in rows {
        text.push_str(&format!("{},{}\n", message, details));
    }
    text
}

#[test]
fn two_rows_same_ip_extract_once() {
    let text = table_text(&[
        ("Clicked Link", details_cell("8.8.8.8")),
        ("Clicked Link", details_cell("8.8.8.8")),
    ]);
    let table = parse_csv_text(&text).unwrap();
    let outcome = extract_unique_ips_from_csv(&table).unwrap();
    assert_eq!(outcome.unique_ips.len(), 1);
    assert_eq!(outcome.unique_ips[0], "8.8.8.8");
    assert_eq!(outcome.total_rows, 2);
    assert_eq!(outcome.filtered_rows, 2);
    assert!(outcome.invalid_ips.is_empty());
    assert!(outcome.warnings.is_empty());
}

#[test]
fn first_seen_order_is_kept() {
    let text = table_text(&[
        ("Submitted Data", details_cell("10.0.0.2")),
        ("Clicked Link", details_cell("10.0.0.1")),
        ("Clicked Link", details_cell("10.0.0.2")),
    ]);
    let table = parse_csv_text(&text).unwrap();
    let outcome = extract_unique_ips_from_csv(&table).unwrap();
    assert_eq!(outcome.unique_ips, vec!["10.0.0.2".to_string(), "10.0.0.1".to_string()]);
}

#[test]
fn unrecognized_label_contributes_nothing() {
    let text = table_text(&[
        ("Email Opened", details_cell("8.8.8.8")),
        ("Clicked Link", details_cell("1.1.1.1")),
    ]);
    let table = parse_csv_text(&text).unwrap();
    let outcome = extract_unique_ips_from_csv(&table).unwrap();
    assert_eq!(outcome.unique_ips, vec!["1.1.1.1".to_string()]);
    assert_eq!(outcome.total_rows, 2);
    assert_eq!(outcome.filtered_rows, 1);
}

#[test]
fn bad_json_row_is_skipped_with_warning() {
    let text = table_text(&[
        ("Clicked Link", "not-json".to_string()),
        ("Clicked Link", details_cell("1.1.1.1")),
    ]);
    let table = parse_csv_text(&text).unwrap();
    let outcome = extract_unique_ips_from_csv(&table).unwrap();
    assert_eq!(outcome.unique_ips, vec!["1.1.1.1".to_string()]);
    assert_eq!(outcome.warnings.len(), 1);
    assert_eq!(outcome.warnings[0].row, 1);
    assert!(!outcome.warnings[0].error.is_empty());
}

#[test]
fn empty_details_is_skipped_silently() {
    let text = table_text(&[("Clicked Link", "".to_string())]);
    let table = parse_csv_text(&text).unwrap();
    let outcome = extract_unique_ips_from_csv(&table).unwrap();
    assert!(outcome.unique_ips.is_empty());
    assert!(outcome.warnings.is_empty());
    assert_eq!(outcome.filtered_rows, 1);
}

#[test]
fn invalid_ip_is_recorded_not_extracted() {
    let text = table_text(&[
        ("Clicked Link", details_cell("999.999.999.999")),
        ("Clicked Link", details_cell("8.8.8.8")),
    ]);
    let table = parse_csv_text(&text).unwrap();
    let outcome = extract_unique_ips_from_csv(&table).unwrap();
    assert_eq!(outcome.unique_ips, vec!["8.8.8.8".to_string()]);
    assert_eq!(outcome.invalid_ips, vec!["999.999.999.999".to_string()]);
}

#[test]
fn payload_without_address_field_warns() {
    let text = table_text(&[(
        "Clicked Link",
        "\"{\"\"browser\"\": {\"\"name\"\": \"\"x\"\"}}\"".to_string(),
    )]);
    let table = parse_csv_text(&text).unwrap();
    let outcome = extract_unique_ips_from_csv(&table).unwrap();
    assert!(outcome.unique_ips.is_empty());
    assert_eq!(outcome.warnings.len(), 1);
}

#[test]
fn missing_details_column_is_schema_error() {
    let table = parse_csv_text("message,other\nClicked Link,x\n").unwrap();
    let r = extract_unique_ips_from_csv(&table);
    assert!(matches!(r, Err(SchemaError::MissingDetailsColumn)));
}

#[test]
fn missing_message_column_is_schema_error() {
    let table = parse_csv_text("other,details\nx,y\n").unwrap();
    let r = extract_unique_ips_from_csv(&table);
    assert!(matches!(r, Err(SchemaError::MissingMessageColumn)));
}

#[test]
fn schema_error_names_the_column() {
    assert_eq!(SchemaError::MissingMessageColumn.column(), "message");
    assert_eq!(SchemaError::MissingDetailsColumn.column(), "details");
}

#[test]
fn empty_table_extracts_nothing() {
    let table = parse_csv_text("message,details\n").unwrap();
    let outcome = extract_unique_ips_from_csv(&table).unwrap();
    assert!(outcome.unique_ips.is_empty());
    assert_eq!(outcome.total_rows, 0);
    assert_eq!(outcome.filtered_rows, 0);
}

#[test]
fn ipv6_addresses_are_extracted() {
    let text = table_text(&[("Submitted Data", details_cell("2001:db8::1"))]);
    let table = parse_csv_text(&text).unwrap();
    let outcome = extract_unique_ips_from_csv(&table).unwrap();
    assert_eq!(outcome.unique_ips, vec!["2001:db8::1".to_string()]);
}
