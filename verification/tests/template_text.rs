//! Template-text decisions: body choice and address anonymization.

use emlrustlib::template::{anonymizer, html_from_bodies};

#[test]
fn html_body_wins() {
    let r = html_from_bodies(Some("<html><body>hi</body></html>".to_string()), Some("hi".to_string()));
    assert_eq!(r, "<html><body>hi</body></html>");
}

#[test]
fn text_body_is_wrapped() {
    let r = html_from_bodies(None, Some("plain text".to_string()));
    assert_eq!(r, "<html><body><pre>plain text</pre></body></html>");
}

#[test]
fn no_body_yields_placeholder() {
    let r = html_from_bodies(None, None);
    assert_eq!(r, "<html><body>No content found</body></html>");
}

#[test]
fn addresses_are_anonymized() {
    let r = anonymizer("contact bob.smith+x@example.com or ann@test.org today", None, None);
    assert_eq!(r, "contact {{.Email}} or {{.Email}} today");
}

#[test]
fn text_without_addresses_is_unchanged() {
    let r = anonymizer("no address here @ all", None, None);
    assert_eq!(r, "no address here @ all");
}
