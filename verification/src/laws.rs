//! Pipeline-wide laws.
//!
//! These proof functions state, over the same spec functions that the
//! executable functions' contracts use, the properties that hold across the
//! stages of the pipeline: extraction yields distinct, valid addresses and
//! exactly the addresses the rows contribute; the reputation report names
//! every extracted address exactly once; and a row with an unrecognized
//! label contributes nothing anywhere.

use vstd::prelude::*;

use crate::enrich::{spec_report_cells, spec_report_row, IpReputationReport};
use crate::extract::{row_cell, spec_extracted_ips, spec_qualifies, spec_row_ip};
use crate::ip::is_ip_literal;

verus! {

/// No address occurs twice.
pub open spec fn spec_distinct(ips: Seq<Seq<char>>) -> bool {
    forall|i: int, j: int| 0 <= i < j < ips.len() ==> ips[i] != ips[j]
}

/// The extracted addresses are pairwise distinct: inserting an address that
/// was already seen is a no-op.
pub proof fn lemma_extracted_ips_distinct(rows: Seq<Seq<Seq<char>>>, mi: int, di: int)
    ensures
        spec_distinct(spec_extracted_ips(rows, mi, di)),
    decreases rows.len(),
{
    if rows.len() > 0 {
        lemma_extracted_ips_distinct(rows.drop_last(), mi, di);
        let prev = spec_extracted_ips(rows.drop_last(), mi, di);
        let cur = spec_extracted_ips(rows, mi, di);
        match spec_row_ip(row_cell(rows.last(), mi), row_cell(rows.last(), di)) {
            Some(ip) => {
                if !prev.contains(ip) {
                    assert forall|i: int, j: int| 0 <= i < j < cur.len() implies cur[i] != cur[j] by {
                        if j == cur.len() - 1 {
                            assert(prev.contains(prev[i]));
                        }
                    }
                }
            },
            None => {},
        }
    }
}

/// Every extracted address is a valid IP literal: extraction promotes no
/// invalid address, so no lookup is ever prepared for one (the request
/// builder refuses invalid addresses besides).
pub proof fn lemma_extracted_ips_valid(rows: Seq<Seq<Seq<char>>>, mi: int, di: int)
    ensures
        forall|k: int|
            0 <= k < spec_extracted_ips(rows, mi, di).len() ==> is_ip_literal(
                #[trigger] spec_extracted_ips(rows, mi, di)[k],
            ),
    decreases rows.len(),
{
    if rows.len() > 0 {
        lemma_extracted_ips_valid(rows.drop_last(), mi, di);
        let prev = spec_extracted_ips(rows.drop_last(), mi, di);
        let cur = spec_extracted_ips(rows, mi, di);
        assert forall|k: int| 0 <= k < cur.len() implies is_ip_literal(#[trigger] cur[k]) by {
            match spec_row_ip(row_cell(rows.last(), mi), row_cell(rows.last(), di)) {
                Some(ip) => {
                    if !prev.contains(ip) && k == cur.len() - 1 {
                        assert(cur[k] == ip);
                    } else {
                        assert(cur[k] == prev[k]);
                    }
                },
                None => {
                    assert(cur[k] == prev[k]);
                },
            }
        }
    }
}

/// The invalid-address diagnostics hold only addresses that fail validation:
/// nothing valid is ever diverted into them.
pub proof fn lemma_invalid_ips_are_invalid(rows: Seq<Seq<Seq<char>>>, mi: int, di: int)
    ensures
        forall|k: int|
            0 <= k < crate::extract::spec_invalid_ips(rows, mi, di).len() ==> !is_ip_literal(
                #[trigger] crate::extract::spec_invalid_ips(rows, mi, di)[k],
            ),
    decreases rows.len(),
{
    if rows.len() > 0 {
        lemma_invalid_ips_are_invalid(rows.drop_last(), mi, di);
        let prev = crate::extract::spec_invalid_ips(rows.drop_last(), mi, di);
        let cur = crate::extract::spec_invalid_ips(rows, mi, di);
        assert forall|k: int| 0 <= k < cur.len() implies !is_ip_literal(#[trigger] cur[k]) by {
            if k < prev.len() {
                assert(cur[k] == prev[k]);
            }
        }
    }
}

/// The extracted addresses are exactly the addresses that some row
/// contributes.
pub proof fn lemma_extracted_ips_complete(rows: Seq<Seq<Seq<char>>>, mi: int, di: int)
    ensures
        forall|ip: Seq<char>|
            #[trigger] spec_extracted_ips(rows, mi, di).contains(ip) <==> (exists|r: int|
                0 <= r < rows.len() && spec_row_ip(
                    row_cell(#[trigger] rows[r], mi),
                    row_cell(rows[r], di),
                ) == Some(ip)),
    decreases rows.len(),
{
    if rows.len() > 0 {
        lemma_extracted_ips_complete(rows.drop_last(), mi, di);
        let prev_rows = rows.drop_last();
        let prev = spec_extracted_ips(prev_rows, mi, di);
        let cur = spec_extracted_ips(rows, mi, di);
        let last = rows.len() - 1;
        assert forall|r: int| 0 <= r < prev_rows.len() implies prev_rows[r] == rows[r] by {}
        assert forall|ip: Seq<char>| #[trigger] cur.contains(ip) implies (exists|r: int|
            0 <= r < rows.len() && spec_row_ip(
                row_cell(#[trigger] rows[r], mi),
                row_cell(rows[r], di),
            ) == Some(ip)) by {
            if prev.contains(ip) {
                let r = choose|r: int|
                    0 <= r < prev_rows.len() && spec_row_ip(
                        row_cell(#[trigger] prev_rows[r], mi),
                        row_cell(prev_rows[r], di),
                    ) == Some(ip);
                assert(spec_row_ip(row_cell(rows[r], mi), row_cell(rows[r], di)) == Some(ip));
            } else {
                assert(spec_row_ip(row_cell(rows[last], mi), row_cell(rows[last], di)) == Some(
                    ip,
                ));
            }
        }
        assert forall|ip: Seq<char>|
            (exists|r: int|
                0 <= r < rows.len() && spec_row_ip(
                    row_cell(#[trigger] rows[r], mi),
                    row_cell(rows[r], di),
                ) == Some(ip)) implies #[trigger] cur.contains(ip) by {
            let r = choose|r: int|
                0 <= r < rows.len() && spec_row_ip(
                    row_cell(#[trigger] rows[r], mi),
                    row_cell(rows[r], di),
                ) == Some(ip);
            if r < last {
                assert(spec_row_ip(row_cell(prev_rows[r], mi), row_cell(prev_rows[r], di))
                    == Some(ip));
                assert(prev.contains(ip));
                if !(cur =~= prev) {
                    let added = spec_row_ip(row_cell(rows[last], mi), row_cell(rows[last], di));
                    let j = choose|j: int| 0 <= j < prev.len() && prev[j] == ip;
                    assert(cur[j] == ip);
                }
            } else {
                match spec_row_ip(row_cell(rows[last], mi), row_cell(rows[last], di)) {
                    Some(ip0) => {
                        if prev.contains(ip0) {
                            let j = choose|j: int| 0 <= j < prev.len() && prev[j] == ip0;
                            assert(cur[j] == ip0);
                        } else {
                            assert(cur[cur.len() - 1] == ip0);
                        }
                    },
                    None => {},
                }
            }
        }
    }
}

/// How often `ip` occurs among the keys.
pub open spec fn spec_count_key(keys: Seq<Seq<char>>, ip: Seq<char>) -> nat
    decreases keys.len(),
{
    if keys.len() == 0 {
        0
    } else {
        spec_count_key(keys.drop_last(), ip) + if keys.last() == ip {
            1nat
        } else {
            0nat
        }
    }
}

proof fn lemma_count_distinct(keys: Seq<Seq<char>>, ip: Seq<char>)
    requires
        spec_distinct(keys),
    ensures
        spec_count_key(keys, ip) == if keys.contains(ip) {
            1nat
        } else {
            0nat
        },
    decreases keys.len(),
{
    if keys.len() > 0 {
        let prev = keys.drop_last();
        assert(spec_distinct(prev));
        lemma_count_distinct(prev, ip);
        let last = keys.len() - 1;
        if keys.last() == ip {
            if prev.contains(ip) {
                let j = choose|j: int| 0 <= j < prev.len() && prev[j] == ip;
                assert(keys[j] == keys[last]);
                assert(false);
            }
            assert(keys.contains(ip)) by {
                assert(keys[last] == ip);
            }
        } else {
            if prev.contains(ip) {
                let j = choose|j: int| 0 <= j < prev.len() && prev[j] == ip;
                assert(keys[j] == ip);
                assert(keys.contains(ip));
            }
            if keys.contains(ip) {
                let j = choose|j: int| 0 <= j < keys.len() && keys[j] == ip;
                assert(j < last);
                assert(prev[j] == ip);
                assert(prev.contains(ip));
            }
        }
    }
}

/// How many records carry `ip` in their first cell.
pub open spec fn spec_count_rows_keyed(cells: Seq<Seq<Seq<char>>>, ip: Seq<char>) -> nat
    decreases cells.len(),
{
    if cells.len() == 0 {
        0
    } else {
        spec_count_rows_keyed(cells.drop_last(), ip) + if row_cell(cells.last(), 0) == ip {
            1nat
        } else {
            0nat
        }
    }
}

proof fn lemma_report_rows_count(reports: Seq<IpReputationReport>, ip: Seq<char>)
    ensures
        spec_count_rows_keyed(
            Seq::new(reports.len(), |i: int| spec_report_row(reports[i])),
            ip,
        ) == spec_count_key(Seq::new(reports.len(), |i: int| reports[i].ip_address@), ip),
    decreases reports.len(),
{
    if reports.len() > 0 {
        lemma_report_rows_count(reports.drop_last(), ip);
        let n = reports.len();
        let rows = Seq::new(n, |i: int| spec_report_row(reports[i]));
        let keys = Seq::new(n, |i: int| reports[i].ip_address@);
        let prev_rows = Seq::new((n - 1) as nat, |i: int| spec_report_row(reports.drop_last()[i]));
        let prev_keys = Seq::new((n - 1) as nat, |i: int| reports.drop_last()[i].ip_address@);
        assert(rows.drop_last() =~= prev_rows);
        assert(keys.drop_last() =~= prev_keys);
        assert(row_cell(rows.last(), 0) == reports[n - 1].ip_address@);
    }
}

/// Dedup law: in the reputation report built for results that carry the
/// extracted addresses in order, every extracted address heads exactly one
/// data record, and no other address heads any.
pub proof fn lemma_report_ips_exactly_once(
    rows: Seq<Seq<Seq<char>>>,
    mi: int,
    di: int,
    reports: Seq<IpReputationReport>,
)
    requires
        reports.len() == spec_extracted_ips(rows, mi, di).len(),
        forall|i: int|
            0 <= i < reports.len() ==> (#[trigger] reports[i]).ip_address@ == spec_extracted_ips(
                rows,
                mi,
                di,
            )[i],
    ensures
        forall|ip: Seq<char>|
            #[trigger] spec_count_rows_keyed(spec_report_cells(reports).skip(1), ip) == (
            if spec_extracted_ips(rows, mi, di).contains(ip) {
                1nat
            } else {
                0nat
            }),
{
    let ips = spec_extracted_ips(rows, mi, di);
    let keys = Seq::new(reports.len(), |i: int| reports[i].ip_address@);
    assert(keys =~= ips);
    lemma_extracted_ips_distinct(rows, mi, di);
    assert(spec_report_cells(reports).skip(1) =~= Seq::new(
        reports.len(),
        |i: int| spec_report_row(reports[i]),
    ));
    assert forall|ip: Seq<char>|
        #[trigger] spec_count_rows_keyed(spec_report_cells(reports).skip(1), ip) == (
        if ips.contains(ip) {
            1nat
        } else {
            0nat
        }) by {
        lemma_report_rows_count(reports, ip);
        lemma_count_distinct(keys, ip);
    }
}

/// No-drop law: the enhanced export holds exactly one record per input
/// record, whatever each record's parse or lookup outcome was and whatever
/// results exist — also when no row qualifies at all.
pub proof fn lemma_enhanced_rows_never_drop(
    rows: Seq<Seq<Seq<char>>>,
    mi: int,
    di: int,
    reports: Seq<IpReputationReport>,
)
    ensures
        crate::enhance::spec_enhanced_rows(rows, mi, di, reports).len() == rows.len(),
{
}

/// A row whose label is not one of the two recognized event labels is inert:
/// it contributes no address (so no lookup is ever made for it), its
/// presence leaves the extracted set unchanged, and the joiner passes it
/// through with all eight appended cells blank.
pub proof fn lemma_unrecognized_label_inert(
    rows: Seq<Seq<Seq<char>>>,
    mi: int,
    di: int,
    row: Seq<Seq<char>>,
    reports: Seq<IpReputationReport>,
)
    requires
        !spec_qualifies(row_cell(row, mi)),
    ensures
        spec_row_ip(row_cell(row, mi), row_cell(row, di)) is None,
        spec_extracted_ips(rows.push(row), mi, di) == spec_extracted_ips(rows, mi, di),
        crate::enhance::spec_append_cells(row_cell(row, mi), row_cell(row, di), reports)
            == crate::enhance::spec_blank_cells(),
{
    assert(rows.push(row).drop_last() =~= rows);
    assert(rows.push(row).last() == row);
}

} // verus!
