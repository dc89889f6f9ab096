//! IP reputation enrichment pipeline for phishing-simulation campaign data.
//!
//! The library turns a campaign event export (a CSV table with `message` and
//! `details` columns) into reportable intelligence: it extracts the unique,
//! syntactically valid IP addresses referenced by click/submit events,
//! assembles one enrichment record per IP from the answers of an external
//! reputation service, classifies abuse-confidence scores into risk buckets,
//! renders a reputation report, and produces an enhanced copy of the original
//! export with reputation columns appended per row.
//!
//! All decision logic is verified. Calls into outside crates (CSV encoding
//! and decoding, JSON parsing, IP literal parsing) stand behind small trusted
//! wrappers whose contracts state what the outside code is relied upon for;
//! file and network I/O live outside the library entirely.

pub mod csvio;
pub mod enhance;
pub mod enrich;
pub mod extract;
pub mod ip;
pub mod ipv4;
pub mod laws;
pub mod numfmt;
pub mod payload;
pub mod reputation;
pub mod risk;
pub mod template;
