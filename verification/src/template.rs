//! Template-text decisions shared with the email-processing chain.
//!
//! The email chain itself (markup parsing, file rewriting) lives outside the
//! library; what stands here is the pure text work it delegates: choosing
//! the HTML document that represents a parsed message's bodies, and
//! anonymizing addresses in a document.

use vstd::prelude::*;

verus! {

/// The HTML document representing a message whose bodies are `html` and
/// `text`: the HTML body when there is one, else the text body wrapped as
/// preformatted HTML, else a fixed placeholder document.
pub open spec fn spec_html_from_bodies(html: Option<Seq<char>>, text: Option<Seq<char>>) -> Seq<
    char,
> {
    match html {
        Some(h) => h,
        None => match text {
            Some(t) => "<html><body><pre>"@ + t + "</pre></body></html>"@,
            None => "<html><body>No content found</body></html>"@,
        },
    }
}

/// Choose the HTML document for a message from its decoded bodies.
pub fn html_from_bodies(html: Option<String>, text: Option<String>) -> (r: String)
    ensures
        r@ == spec_html_from_bodies(
            match html {
                Some(h) => Some(h@),
                None => None,
            },
            match text {
                Some(t) => Some(t@),
                None => None,
            },
        ),
{
    match html {
        Some(h) => h,
        None => match text {
            Some(t) => {
                let mut out = String::from_str("<html><body><pre>");
                out.append(t.as_str());
                out.append("</pre></body></html>");
                out
            },
            None => String::from_str("<html><body>No content found</body></html>"),
        },
    }
}

/// The document with every email address replaced by the `{{.Email}}`
/// placeholder, as the fixed address pattern matches it. The replacement is
/// a pure function of the input text.
pub uninterp spec fn anonymized_of(s: Seq<char>) -> Seq<char>;

/// Relies on `regex::Regex::replace_all` with the fixed address pattern:
/// the substitution is deterministic in the input text.
#[verifier::external_body]
fn replace_email_addresses(html_content: &str) -> (r: String)
    ensures
        r@ == anonymized_of(html_content@),
{
    let email_pattern =
        regex::Regex::new(r"\b[A-Za-z0-9._%+-]+@[A-Za-z0-9.-]+\.[A-Za-z]{2,}\b").unwrap();
    email_pattern.replace_all(html_content, "{{.Email}}").to_string()
}

/// Replace every email address in the document with the `{{.Email}}`
/// placeholder. The name lists are unused; they are kept for callers that
/// pass explicit name material.
pub fn anonymizer(html_content: &str, _nomi: Option<&[String]>, _cognomi: Option<&[String]>) -> (r:
    String)
    ensures
        r@ == anonymized_of(html_content@),
{
    replace_email_addresses(html_content)
}

} // verus!
