//! IP extraction from the event export.
//!
//! The extractor scans the decoded export table, keeps the rows whose
//! `message` is one of the two recognized event labels, decodes each kept
//! row's `details` payload, validates the address it yields, and collects
//! the valid addresses in first-seen order without duplicates. Missing
//! schema columns are fatal; everything at row level is recovered and
//! reported as counts, invalid-address diagnostics and warnings.

use vstd::prelude::*;

use crate::ip::{is_ip_literal, is_valid_ip};
use crate::payload::{details_ip_of, parse_details};

verus! {

/// The two schema columns of one event row.
pub struct CsvRow {
    pub message: String,
    pub details: String,
}

/// A non-fatal diagnostic for one row whose details payload did not decode:
/// the 1-based row number and the decoder's message.
pub struct RowWarning {
    pub row: usize,
    pub error: String,
}

/// A required schema column is missing from the header: fatal for the run.
#[derive(Clone, Copy, Debug, PartialEq, Eq, Structural)]
pub enum SchemaError {
    MissingMessageColumn,
    MissingDetailsColumn,
}

impl SchemaError {
    /// Name of the missing column.
    pub fn column(&self) -> (r: &'static str)
        ensures
            *self == SchemaError::MissingMessageColumn ==> r@ == "message"@,
            *self == SchemaError::MissingDetailsColumn ==> r@ == "details"@,
    {
        match self {
            SchemaError::MissingMessageColumn => "message",
            SchemaError::MissingDetailsColumn => "details",
        }
    }
}

/// What the extractor found: the unique valid addresses in first-seen order,
/// the row counts, and the row-level diagnostics.
pub struct ExtractionOutcome {
    pub unique_ips: Vec<String>,
    pub total_rows: usize,
    pub filtered_rows: usize,
    pub invalid_ips: Vec<String>,
    pub warnings: Vec<RowWarning>,
}

/// First index of `name` among `headers`, if any.
pub open spec fn spec_find_col(headers: Seq<Seq<char>>, name: Seq<char>) -> Option<int>
    decreases headers.len(),
{
    if headers.len() == 0 {
        None
    } else if headers[0] == name {
        Some(0int)
    } else {
        match spec_find_col(headers.drop_first(), name) {
            Some(i) => Some(i + 1),
            None => None,
        }
    }
}

/// Find the first column with the given name.
pub fn find_col(headers: &Vec<String>, name: &String) -> (r: Option<usize>)
    ensures
        match r {
            Some(i) => spec_find_col(headers.deep_view(), name@) == Some(i as int),
            None => spec_find_col(headers.deep_view(), name@) is None,
        },
{
    let ghost hs = headers.deep_view();
    let mut i: usize = 0;
    while i < headers.len()
        invariant
            i <= headers@.len(),
            hs == headers.deep_view(),
            hs.len() == headers@.len(),
            forall|j: int| 0 <= j < i ==> hs[j] != name@,
        decreases headers@.len() - i,
    {
        if headers[i] == *name {
            proof {
                assert(hs[i as int] == headers@[i as int]@);
                lemma_find_col_some(hs, name@, i as int);
            }
            return Some(i);
        }
        proof {
            assert(hs[i as int] == headers@[i as int]@);
        }
        i += 1;
    }
    proof {
        lemma_find_col_none(hs, name@);
    }
    None
}

proof fn lemma_find_col_some(headers: Seq<Seq<char>>, name: Seq<char>, i: int)
    requires
        0 <= i < headers.len(),
        headers[i] == name,
        forall|j: int| 0 <= j < i ==> headers[j] != name,
    ensures
        spec_find_col(headers, name) == Some(i),
    decreases headers.len(),
{
    if i > 0 {
        assert forall|j: int| 0 <= j < i - 1 implies headers.drop_first()[j] != name by {
            assert(headers.drop_first()[j] == headers[j + 1]);
        }
        assert(headers.drop_first()[i - 1] == headers[i]);
        lemma_find_col_some(headers.drop_first(), name, i - 1);
    }
}

proof fn lemma_find_col_none(headers: Seq<Seq<char>>, name: Seq<char>)
    requires
        forall|j: int| 0 <= j < headers.len() ==> headers[j] != name,
    ensures
        spec_find_col(headers, name) is None,
    decreases headers.len(),
{
    if headers.len() > 0 {
        assert forall|j: int| 0 <= j < headers.drop_first().len() implies headers.drop_first()[j]
            != name by {
            assert(headers.drop_first()[j] == headers[j + 1]);
        }
        lemma_find_col_none(headers.drop_first(), name);
    }
}

/// Whether a `message` label marks a row as a qualifying click/submit event.
pub open spec fn spec_qualifies(m: Seq<char>) -> bool {
    m == "Clicked Link"@ || m == "Submitted Data"@
}

/// Cell `i` of a record, or empty where the record is short.
pub open spec fn row_cell(row: Seq<Seq<char>>, i: int) -> Seq<char> {
    if 0 <= i < row.len() {
        row[i]
    } else {
        Seq::empty()
    }
}

/// The address a row offers for validation: the decode of its details
/// payload, for qualifying rows with a non-empty payload.
pub open spec fn spec_row_candidate(m: Seq<char>, d: Seq<char>) -> Option<Seq<char>> {
    if spec_qualifies(m) && d.len() > 0 {
        details_ip_of(d)
    } else {
        None
    }
}

/// The validated address a row contributes, if any.
pub open spec fn spec_row_ip(m: Seq<char>, d: Seq<char>) -> Option<Seq<char>> {
    match spec_row_candidate(m, d) {
        Some(ip) => if is_ip_literal(ip) {
            Some(ip)
        } else {
            None
        },
        None => None,
    }
}

/// The unique contributed addresses of the rows, in first-seen order.
pub open spec fn spec_extracted_ips(rows: Seq<Seq<Seq<char>>>, mi: int, di: int) -> Seq<
    Seq<char>,
>
    decreases rows.len(),
{
    if rows.len() == 0 {
        Seq::empty()
    } else {
        let prev = spec_extracted_ips(rows.drop_last(), mi, di);
        match spec_row_ip(row_cell(rows.last(), mi), row_cell(rows.last(), di)) {
            Some(ip) => if prev.contains(ip) {
                prev
            } else {
                prev.push(ip)
            },
            None => prev,
        }
    }
}

/// How many rows qualify by their `message` label.
pub open spec fn spec_filtered_count(rows: Seq<Seq<Seq<char>>>, mi: int) -> nat
    decreases rows.len(),
{
    if rows.len() == 0 {
        0
    } else {
        spec_filtered_count(rows.drop_last(), mi) + if spec_qualifies(
            row_cell(rows.last(), mi),
        ) {
            1nat
        } else {
            0nat
        }
    }
}

/// The candidate addresses that fail validation, in row order, duplicates
/// kept.
pub open spec fn spec_invalid_ips(rows: Seq<Seq<Seq<char>>>, mi: int, di: int) -> Seq<Seq<char>>
    decreases rows.len(),
{
    if rows.len() == 0 {
        Seq::empty()
    } else {
        let prev = spec_invalid_ips(rows.drop_last(), mi, di);
        match spec_row_candidate(row_cell(rows.last(), mi), row_cell(rows.last(), di)) {
            Some(ip) => if is_ip_literal(ip) {
                prev
            } else {
                prev.push(ip)
            },
            None => prev,
        }
    }
}

/// Whether a row qualifies, has a non-empty payload, and still yields no
/// address: the row is skipped with a warning.
pub open spec fn spec_is_warning_row(m: Seq<char>, d: Seq<char>) -> bool {
    spec_qualifies(m) && d.len() > 0 && details_ip_of(d) is None
}

/// 0-based indexes of the rows that are skipped with a warning, in order.
pub open spec fn spec_warning_rows(rows: Seq<Seq<Seq<char>>>, mi: int, di: int) -> Seq<int>
    decreases rows.len(),
{
    if rows.len() == 0 {
        Seq::empty()
    } else {
        let prev = spec_warning_rows(rows.drop_last(), mi, di);
        if spec_is_warning_row(row_cell(rows.last(), mi), row_cell(rows.last(), di)) {
            prev.push(rows.len() - 1)
        } else {
            prev
        }
    }
}

/// Whether a sequence of addresses already holds `s`.
fn vec_contains_string(v: &Vec<String>, s: &String) -> (r: bool)
    ensures
        r == v.deep_view().contains(s@),
{
    let ghost dv = v.deep_view();
    let mut i: usize = 0;
    while i < v.len()
        invariant
            i <= v@.len(),
            dv == v.deep_view(),
            dv.len() == v@.len(),
            forall|j: int| 0 <= j < i ==> dv[j] != s@,
        decreases v@.len() - i,
    {
        proof {
            assert(dv[i as int] == v@[i as int]@);
        }
        if v[i] == *s {
            return true;
        }
        i += 1;
    }
    false
}

/// Scan the export table and collect the unique valid IP addresses of the
/// qualifying rows, with the row counts and row-level diagnostics.
///
/// A missing `message` or `details` column is fatal and reported as the
/// schema error naming the first missing column; no row is read in that
/// case. Otherwise every row is read: non-qualifying rows and rows with an
/// empty payload are skipped silently, rows whose payload does not decode
/// are skipped with a warning, and decoded addresses that are not valid IP
/// literals are recorded as invalid-address diagnostics.
pub fn extract_unique_ips_from_csv(table: &crate::csvio::CsvTable) -> (r: Result<
    ExtractionOutcome,
    SchemaError,
>)
    ensures
        ({
            let hs = table.headers.deep_view();
            let rows = table.rows.deep_view();
            &&& (r is Err <==> spec_find_col(hs, "message"@) is None || spec_find_col(
                hs,
                "details"@,
            ) is None)
            &&& (spec_find_col(hs, "message"@) is None ==> r == Err::<
                ExtractionOutcome,
                SchemaError,
            >(SchemaError::MissingMessageColumn))
            &&& (spec_find_col(hs, "message"@) is Some && spec_find_col(hs, "details"@) is None
                ==> r == Err::<ExtractionOutcome, SchemaError>(SchemaError::MissingDetailsColumn))
            &&& r is Ok ==> {
                let mi = spec_find_col(hs, "message"@)->0;
                let di = spec_find_col(hs, "details"@)->0;
                let o = r->Ok_0;
                &&& o.unique_ips.deep_view() == spec_extracted_ips(rows, mi, di)
                &&& o.total_rows == rows.len()
                &&& o.filtered_rows == spec_filtered_count(rows, mi)
                &&& o.invalid_ips.deep_view() == spec_invalid_ips(rows, mi, di)
                &&& o.warnings@.len() == spec_warning_rows(rows, mi, di).len()
                &&& forall|k: int|
                    0 <= k < o.warnings@.len() ==> (#[trigger] o.warnings@[k]).row
                        == spec_warning_rows(rows, mi, di)[k] + 1
            }
        }),
{
    let message_name = String::from_str("message");
    let details_name = String::from_str("details");
    let mi: usize = match find_col(&table.headers, &message_name) {
        Some(i) => i,
        None => {
            return Err(SchemaError::MissingMessageColumn);
        },
    };
    let di: usize = match find_col(&table.headers, &details_name) {
        Some(i) => i,
        None => {
            return Err(SchemaError::MissingDetailsColumn);
        },
    };

    let ghost rows = table.rows.deep_view();
    let empty_cell = String::new();
    let clicked = String::from_str("Clicked Link");
    let submitted = String::from_str("Submitted Data");

    let mut unique_ips: Vec<String> = Vec::new();
    let mut invalid_ips: Vec<String> = Vec::new();
    let mut warnings: Vec<RowWarning> = Vec::new();
    let mut filtered_rows: usize = 0;

    let n = table.rows.len();
    let mut i: usize = 0;
    while i < n
        invariant
            i <= n,
            n == table.rows@.len(),
            rows == table.rows.deep_view(),
            rows.len() == n,
            empty_cell@ == Seq::<char>::empty(),
            clicked@ == "Clicked Link"@,
            submitted@ == "Submitted Data"@,
            unique_ips.deep_view() == spec_extracted_ips(rows.take(i as int), mi as int, di as int),
            filtered_rows <= i,
            filtered_rows == spec_filtered_count(rows.take(i as int), mi as int),
            invalid_ips.deep_view() == spec_invalid_ips(rows.take(i as int), mi as int, di as int),
            warnings@.len() == spec_warning_rows(rows.take(i as int), mi as int, di as int).len(),
            forall|k: int|
                0 <= k < warnings@.len() ==> (#[trigger] warnings@[k]).row == spec_warning_rows(
                    rows.take(i as int),
                    mi as int,
                    di as int,
                )[k] + 1,
        decreases n - i,
    {
        let row = &table.rows[i];
        proof {
            assert(rows[i as int] == table.rows@[i as int].deep_view());
            assert(rows.take(i + 1).drop_last() =~= rows.take(i as int));
            assert(rows.take(i + 1).last() == rows[i as int]);
        }
        let message: &String = if mi < row.len() {
            proof {
                assert(rows[i as int][mi as int] == row@[mi as int]@);
            }
            &row[mi]
        } else {
            &empty_cell
        };
        let details: &String = if di < row.len() {
            proof {
                assert(rows[i as int][di as int] == row@[di as int]@);
            }
            &row[di]
        } else {
            &empty_cell
        };
        proof {
            assert(message@ == row_cell(rows[i as int], mi as int));
            assert(details@ == row_cell(rows[i as int], di as int));
        }

        if *message == clicked || *message == submitted {
            filtered_rows += 1;
            if !details.as_str().is_empty() {
                match parse_details(details.as_str()) {
                    Ok(parsed) => {
                        let ip = parsed.browser.address;
                        if is_valid_ip(ip.as_str()) {
                            if !vec_contains_string(&unique_ips, &ip) {
                                unique_ips.push(ip);
                                proof {
                                    assert(unique_ips.deep_view() =~= spec_extracted_ips(
                                        rows.take(i + 1),
                                        mi as int,
                                        di as int,
                                    ));
                                }
                            }
                        } else {
                            invalid_ips.push(ip);
                            proof {
                                assert(invalid_ips.deep_view() =~= spec_invalid_ips(
                                    rows.take(i + 1),
                                    mi as int,
                                    di as int,
                                ));
                            }
                        }
                    },
                    Err(error) => {
                        warnings.push(RowWarning { row: i + 1, error });
                    },
                }
            }
        }
        i += 1;
    }
    proof {
        assert(rows.take(n as int) =~= rows);
    }
    Ok(
        ExtractionOutcome {
            unique_ips,
            total_rows: n,
            filtered_rows,
            invalid_ips,
            warnings,
        },
    )
}

} // verus!
