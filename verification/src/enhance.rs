//! The enhanced copy of the event export.
//!
//! The joiner re-reads the export table and emits one output record per
//! input record, original cells first and eight reputation columns appended.
//! A record gets reputation values exactly when it would have contributed an
//! address to the extraction (qualifying label, decodable payload, valid
//! address) and an enrichment result for that address exists; otherwise the
//! eight appended cells are left blank and the record passes through
//! unchanged. Records are never dropped.

use vstd::prelude::*;

use crate::csvio::CsvTable;
use crate::enrich::{
    opt_string_cell,
    opt_u32_cell,
    opt_u8_cell,
    spec_opt_string_cell,
    spec_opt_u32_cell,
    spec_opt_u8_cell,
    IpReputationReport,
};
use crate::extract::{
    find_col,
    row_cell,
    spec_find_col,
    spec_qualifies,
    spec_row_ip,
    SchemaError,
};
use crate::ip::is_valid_ip;
use crate::payload::parse_details;

verus! {

/// The eight column names appended to the original header.
pub open spec fn spec_enhanced_header_suffix() -> Seq<Seq<char>> {
    seq![
        "ip_address"@,
        "abuse_confidence"@,
        "country_name"@,
        "usage_type"@,
        "isp"@,
        "domain"@,
        "total_reports"@,
        "num_distinct_users"@,
    ]
}

/// Eight blank cells: what a record gets when it has no valid address or no
/// matching result.
pub open spec fn spec_blank_cells() -> Seq<Seq<char>> {
    seq![
        Seq::<char>::empty(),
        Seq::<char>::empty(),
        Seq::<char>::empty(),
        Seq::<char>::empty(),
        Seq::<char>::empty(),
        Seq::<char>::empty(),
        Seq::<char>::empty(),
        Seq::<char>::empty(),
    ]
}

/// First result whose address is `ip`, if any.
pub open spec fn spec_find_report(reports: Seq<IpReputationReport>, ip: Seq<char>) -> Option<int>
    decreases reports.len(),
{
    if reports.len() == 0 {
        None
    } else if reports[0].ip_address@ == ip {
        Some(0int)
    } else {
        match spec_find_report(reports.drop_first(), ip) {
            Some(i) => Some(i + 1),
            None => None,
        }
    }
}

proof fn lemma_find_report_some(reports: Seq<IpReputationReport>, ip: Seq<char>, i: int)
    requires
        0 <= i < reports.len(),
        reports[i].ip_address@ == ip,
        forall|j: int| 0 <= j < i ==> (#[trigger] reports[j]).ip_address@ != ip,
    ensures
        spec_find_report(reports, ip) == Some(i),
    decreases reports.len(),
{
    if i > 0 {
        assert forall|j: int| 0 <= j < i - 1 implies (#[trigger] reports.drop_first()[j]).ip_address@
            != ip by {
            assert(reports.drop_first()[j] == reports[j + 1]);
        }
        assert(reports.drop_first()[i - 1] == reports[i]);
        lemma_find_report_some(reports.drop_first(), ip, i - 1);
    }
}

proof fn lemma_find_report_none(reports: Seq<IpReputationReport>, ip: Seq<char>)
    requires
        forall|j: int| 0 <= j < reports.len() ==> (#[trigger] reports[j]).ip_address@ != ip,
    ensures
        spec_find_report(reports, ip) is None,
    decreases reports.len(),
{
    if reports.len() > 0 {
        assert forall|j: int|
            0 <= j < reports.drop_first().len() implies (#[trigger] reports.drop_first()[j]).ip_address@
            != ip by {
            assert(reports.drop_first()[j] == reports[j + 1]);
        }
        lemma_find_report_none(reports.drop_first(), ip);
    }
}

/// Find the first result for the given address.
pub fn find_report<'a>(reports: &'a Vec<IpReputationReport>, ip: &String) -> (r: Option<
    &'a IpReputationReport,
>)
    ensures
        match r {
            Some(rep) => {
                &&& spec_find_report(reports@, ip@) is Some
                &&& *rep == reports@[spec_find_report(reports@, ip@)->0]
            },
            None => spec_find_report(reports@, ip@) is None,
        },
{
    let mut i: usize = 0;
    while i < reports.len()
        invariant
            i <= reports@.len(),
            forall|j: int| 0 <= j < i ==> (#[trigger] reports@[j]).ip_address@ != ip@,
        decreases reports@.len() - i,
    {
        if reports[i].ip_address == *ip {
            proof {
                lemma_find_report_some(reports@, ip@, i as int);
            }
            return Some(&reports[i]);
        }
        i += 1;
    }
    proof {
        lemma_find_report_none(reports@, ip@);
    }
    None
}

/// The eight cells appended to a record with cells `m` (message) and `d`
/// (details): the matching result's address and reputation values, or eight
/// blanks when the record yields no valid address or no result matches.
pub open spec fn spec_append_cells(
    m: Seq<char>,
    d: Seq<char>,
    reports: Seq<IpReputationReport>,
) -> Seq<Seq<char>> {
    match spec_row_ip(m, d) {
        Some(ip) => match spec_find_report(reports, ip) {
            Some(j) => seq![
                reports[j].ip_address@,
                spec_opt_u8_cell(reports[j].abuse_confidence),
                spec_opt_string_cell(reports[j].country_name),
                spec_opt_string_cell(reports[j].usage_type),
                spec_opt_string_cell(reports[j].isp),
                spec_opt_string_cell(reports[j].domain),
                spec_opt_u32_cell(reports[j].total_reports),
                spec_opt_u32_cell(reports[j].num_distinct_users),
            ],
            None => spec_blank_cells(),
        },
        None => spec_blank_cells(),
    }
}

/// The enhanced data records: each original record with its eight appended
/// cells, in order, one output record per input record.
pub open spec fn spec_enhanced_rows(
    rows: Seq<Seq<Seq<char>>>,
    mi: int,
    di: int,
    reports: Seq<IpReputationReport>,
) -> Seq<Seq<Seq<char>>> {
    Seq::new(
        rows.len(),
        |i: int|
            rows[i] + spec_append_cells(
                row_cell(rows[i], mi),
                row_cell(rows[i], di),
                reports,
            ),
    )
}

/// Copy a record's cells.
fn clone_row(row: &Vec<String>) -> (r: Vec<String>)
    ensures
        r.deep_view() == row.deep_view(),
        r@.len() == row@.len(),
{
    let mut out: Vec<String> = Vec::new();
    let mut i: usize = 0;
    while i < row.len()
        invariant
            i <= row@.len(),
            out@.len() == i,
            forall|j: int| 0 <= j < i ==> (#[trigger] out@[j])@ == row@[j]@,
        decreases row@.len() - i,
    {
        out.push(row[i].clone());
        i += 1;
    }
    proof {
        assert(out.deep_view() =~= row.deep_view());
    }
    out
}

/// Append the eight reputation cells for one record to its copied cells.
fn push_append_cells(
    out_row: &mut Vec<String>,
    message: &String,
    details: &String,
    reports: &Vec<IpReputationReport>,
)
    ensures
        final(out_row).deep_view() == old(out_row).deep_view() + spec_append_cells(
            message@,
            details@,
            reports@,
        ),
{
    let ghost base = out_row.deep_view();
    let clicked = String::from_str("Clicked Link");
    let submitted = String::from_str("Submitted Data");
    let qualifies = *message == clicked || *message == submitted;

    if qualifies && !details.as_str().is_empty() {
        if let Ok(parsed) = parse_details(details.as_str()) {
            let ip = parsed.browser.address;
            if is_valid_ip(ip.as_str()) {
                if let Some(rep) = find_report(reports, &ip) {
                    out_row.push(rep.ip_address.clone());
                    out_row.push(opt_u8_cell(&rep.abuse_confidence));
                    out_row.push(opt_string_cell(&rep.country_name));
                    out_row.push(opt_string_cell(&rep.usage_type));
                    out_row.push(opt_string_cell(&rep.isp));
                    out_row.push(opt_string_cell(&rep.domain));
                    out_row.push(opt_u32_cell(&rep.total_reports));
                    out_row.push(opt_u32_cell(&rep.num_distinct_users));
                    proof {
                        assert(out_row.deep_view() =~= base + spec_append_cells(
                            message@,
                            details@,
                            reports@,
                        ));
                    }
                    return ;
                }
            }
        }
    }
    out_row.push(String::new());
    out_row.push(String::new());
    out_row.push(String::new());
    out_row.push(String::new());
    out_row.push(String::new());
    out_row.push(String::new());
    out_row.push(String::new());
    out_row.push(String::new());
    proof {
        assert(spec_append_cells(message@, details@, reports@) =~= spec_blank_cells());
        assert(out_row.deep_view() =~= base + spec_blank_cells());
    }
}

/// Produce the records of the enhanced export: the original header with the
/// eight reputation column names appended, then every original record with
/// its appended cells. The output has exactly one record per input record,
/// in input order, whatever each record's parse or lookup outcome was.
///
/// A missing `message` or `details` column is fatal and reported as the
/// schema error naming the first missing column.
pub fn create_enhanced_csv(table: &CsvTable, reports: &Vec<IpReputationReport>) -> (r: Result<
    Vec<Vec<String>>,
    SchemaError,
>)
    ensures
        ({
            let hs = table.headers.deep_view();
            let rows = table.rows.deep_view();
            &&& (r is Err <==> spec_find_col(hs, "message"@) is None || spec_find_col(
                hs,
                "details"@,
            ) is None)
            &&& (spec_find_col(hs, "message"@) is None ==> r == Err::<
                Vec<Vec<String>>,
                SchemaError,
            >(SchemaError::MissingMessageColumn))
            &&& (spec_find_col(hs, "message"@) is Some && spec_find_col(hs, "details"@) is None
                ==> r == Err::<Vec<Vec<String>>, SchemaError>(SchemaError::MissingDetailsColumn))
            &&& r is Ok ==> {
                let mi = spec_find_col(hs, "message"@)->0;
                let di = spec_find_col(hs, "details"@)->0;
                let out = r->Ok_0.deep_view();
                &&& out.len() == rows.len() + 1
                &&& out[0] == hs + spec_enhanced_header_suffix()
                &&& out.skip(1) == spec_enhanced_rows(rows, mi, di, reports@)
            }
        }),
{
    let message_name = String::from_str("message");
    let details_name = String::from_str("details");
    let mi: usize = match find_col(&table.headers, &message_name) {
        Some(i) => i,
        None => {
            return Err(SchemaError::MissingMessageColumn);
        },
    };
    let di: usize = match find_col(&table.headers, &details_name) {
        Some(i) => i,
        None => {
            return Err(SchemaError::MissingDetailsColumn);
        },
    };

    let ghost hs = table.headers.deep_view();
    let ghost rows = table.rows.deep_view();

    let mut out: Vec<Vec<String>> = Vec::new();
    let mut header = clone_row(&table.headers);
    header.push(String::from_str("ip_address"));
    header.push(String::from_str("abuse_confidence"));
    header.push(String::from_str("country_name"));
    header.push(String::from_str("usage_type"));
    header.push(String::from_str("isp"));
    header.push(String::from_str("domain"));
    header.push(String::from_str("total_reports"));
    header.push(String::from_str("num_distinct_users"));
    proof {
        assert(header.deep_view() =~= hs + spec_enhanced_header_suffix());
    }
    out.push(header);

    let empty_cell = String::new();
    let n = table.rows.len();
    let mut i: usize = 0;
    while i < n
        invariant
            i <= n,
            n == table.rows@.len(),
            rows == table.rows.deep_view(),
            rows.len() == n,
            empty_cell@ == Seq::<char>::empty(),
            out@.len() == i + 1,
            out.deep_view()[0] == hs + spec_enhanced_header_suffix(),
            forall|k: int|
                0 <= k < i ==> out.deep_view()[k + 1] == #[trigger] spec_enhanced_rows(
                    rows,
                    mi as int,
                    di as int,
                    reports@,
                )[k],
        decreases n - i,
    {
        let row = &table.rows[i];
        proof {
            assert(rows[i as int] == table.rows@[i as int].deep_view());
        }
        let message: &String = if mi < row.len() {
            proof {
                assert(rows[i as int][mi as int] == row@[mi as int]@);
            }
            &row[mi]
        } else {
            &empty_cell
        };
        let details: &String = if di < row.len() {
            proof {
                assert(rows[i as int][di as int] == row@[di as int]@);
            }
            &row[di]
        } else {
            &empty_cell
        };
        proof {
            assert(message@ == row_cell(rows[i as int], mi as int));
            assert(details@ == row_cell(rows[i as int], di as int));
        }

        let mut out_row = clone_row(row);
        push_append_cells(&mut out_row, message, details, reports);
        let ghost new_row = out_row.deep_view();
        let ghost prev = out.deep_view();
        let ghost prev_vec = out@;
        out.push(out_row);
        proof {
            assert(out@ == prev_vec.push(out@[i + 1]));
            assert forall|k: int| 0 <= k < i + 1 implies out.deep_view()[k] == prev[k] by {
                assert(out@[k] == prev_vec[k]);
                assert(out.deep_view()[k] == out@[k].deep_view());
                assert(prev[k] == prev_vec[k].deep_view());
            }
            assert(out.deep_view()[i + 1] == new_row);
            assert(new_row == rows[i as int] + spec_append_cells(
                row_cell(rows[i as int], mi as int),
                row_cell(rows[i as int], di as int),
                reports@,
            ));
            assert(out.deep_view()[i + 1] == spec_enhanced_rows(
                rows,
                mi as int,
                di as int,
                reports@,
            )[i as int]);
        }
        i += 1;
    }
    proof {
        let outdv = out.deep_view();
        let erows = spec_enhanced_rows(rows, mi as int, di as int, reports@);
        assert(outdv.len() == rows.len() + 1);
        assert forall|k: int| 0 <= k < erows.len() implies outdv.skip(1)[k] == erows[k] by {
            assert(outdv.skip(1)[k] == outdv[k + 1]);
        }
        assert(outdv.skip(1) =~= erows);
    }
    Ok(out)
}

} // verus!
