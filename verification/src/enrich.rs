//! Enrichment results and the reputation report.
//!
//! The orchestration loop produces exactly one [`IpReputationReport`] per
//! unique address, lookup failure or not: a failed lookup yields a record
//! with every reputation field absent and the check timestamp still
//! recorded. The report is one CSV record per result under a fixed header,
//! absent fields written as empty cells.

use vstd::prelude::*;

use crate::csvio::{render_csv, spec_csv_text};
use crate::numfmt::{spec_dec, u32_to_dec, u8_to_dec};
use crate::reputation::IpReputationData;

verus! {

/// The enrichment result for one address: the reputation record (fields
/// absent on lookup failure) and the time the lookup was made.
pub struct IpReputationReport {
    pub ip_address: String,
    pub is_public: Option<bool>,
    pub ip_version: Option<u8>,
    pub is_whitelisted: Option<bool>,
    pub abuse_confidence: Option<u8>,
    pub country_code: Option<String>,
    pub country_name: Option<String>,
    pub usage_type: Option<String>,
    pub isp: Option<String>,
    pub domain: Option<String>,
    pub total_reports: Option<u32>,
    pub num_distinct_users: Option<u32>,
    pub last_reported_at: Option<String>,
    pub checked_at: String,
}

/// Copy an optional string value.
fn clone_opt_string(o: &Option<String>) -> (r: Option<String>)
    ensures
        r == *o,
{
    match o {
        Some(s) => Some(s.clone()),
        None => None,
    }
}

impl IpReputationData {
    /// Copy of the record, field for field.
    pub fn duplicate(&self) -> (r: Self)
        ensures
            r == *self,
    {
        IpReputationData {
            is_public: self.is_public,
            ip_version: self.ip_version,
            is_whitelisted: self.is_whitelisted,
            abuse_confidence: self.abuse_confidence,
            country_code: clone_opt_string(&self.country_code),
            country_name: clone_opt_string(&self.country_name),
            usage_type: clone_opt_string(&self.usage_type),
            isp: clone_opt_string(&self.isp),
            domain: clone_opt_string(&self.domain),
            total_reports: self.total_reports,
            num_distinct_users: self.num_distinct_users,
            last_reported_at: clone_opt_string(&self.last_reported_at),
        }
    }
}

/// How one enrichment result relates to the address it is for, the lookup's
/// outcome and the check timestamp: the address and timestamp are kept, a
/// successful lookup's fields are passed through as provided, and a failed
/// lookup leaves every reputation field absent.
pub open spec fn spec_report_matches(
    ip: Seq<char>,
    outcome: Option<IpReputationData>,
    checked_at: Seq<char>,
    r: IpReputationReport,
) -> bool {
    &&& r.ip_address@ == ip
    &&& r.checked_at@ == checked_at
    &&& match outcome {
        Some(d) => {
            &&& r.is_public == d.is_public
            &&& r.ip_version == d.ip_version
            &&& r.is_whitelisted == d.is_whitelisted
            &&& r.abuse_confidence == d.abuse_confidence
            &&& r.country_code == d.country_code
            &&& r.country_name == d.country_name
            &&& r.usage_type == d.usage_type
            &&& r.isp == d.isp
            &&& r.domain == d.domain
            &&& r.total_reports == d.total_reports
            &&& r.num_distinct_users == d.num_distinct_users
            &&& r.last_reported_at == d.last_reported_at
        },
        None => {
            &&& r.is_public is None
            &&& r.ip_version is None
            &&& r.is_whitelisted is None
            &&& r.abuse_confidence is None
            &&& r.country_code is None
            &&& r.country_name is None
            &&& r.usage_type is None
            &&& r.isp is None
            &&& r.domain is None
            &&& r.total_reports is None
            &&& r.num_distinct_users is None
            &&& r.last_reported_at is None
        },
    }
}

impl IpReputationReport {
    /// The enrichment result for one address given its lookup outcome:
    /// failure is recorded, not escalated.
    pub fn from_lookup(
        ip_address: &String,
        outcome: &Option<IpReputationData>,
        checked_at: &String,
    ) -> (r: Self)
        ensures
            spec_report_matches(ip_address@, *outcome, checked_at@, r),
    {
        match outcome {
            Some(d) => {
                let dup = d.duplicate();
                IpReputationReport {
                    ip_address: ip_address.clone(),
                    is_public: dup.is_public,
                    ip_version: dup.ip_version,
                    is_whitelisted: dup.is_whitelisted,
                    abuse_confidence: dup.abuse_confidence,
                    country_code: dup.country_code,
                    country_name: dup.country_name,
                    usage_type: dup.usage_type,
                    isp: dup.isp,
                    domain: dup.domain,
                    total_reports: dup.total_reports,
                    num_distinct_users: dup.num_distinct_users,
                    last_reported_at: dup.last_reported_at,
                    checked_at: checked_at.clone(),
                }
            },
            None => IpReputationReport {
                ip_address: ip_address.clone(),
                is_public: None,
                ip_version: None,
                is_whitelisted: None,
                abuse_confidence: None,
                country_code: None,
                country_name: None,
                usage_type: None,
                isp: None,
                domain: None,
                total_reports: None,
                num_distinct_users: None,
                last_reported_at: None,
                checked_at: checked_at.clone(),
            },
        }
    }
}

/// Assemble the enrichment results: one per address, in address order, each
/// from its own lookup outcome and timestamp.
pub fn analyze_ips(
    ips: &Vec<String>,
    outcomes: &Vec<Option<IpReputationData>>,
    checked_ats: &Vec<String>,
) -> (r: Vec<IpReputationReport>)
    requires
        ips@.len() == outcomes@.len(),
        ips@.len() == checked_ats@.len(),
    ensures
        r@.len() == ips@.len(),
        forall|i: int|
            0 <= i < r@.len() ==> spec_report_matches(
                ips@[i]@,
                outcomes@[i],
                checked_ats@[i]@,
                #[trigger] r@[i],
            ),
{
    let mut reports: Vec<IpReputationReport> = Vec::new();
    let mut i: usize = 0;
    while i < ips.len()
        invariant
            i <= ips@.len(),
            ips@.len() == outcomes@.len(),
            ips@.len() == checked_ats@.len(),
            reports@.len() == i,
            forall|k: int|
                0 <= k < i ==> spec_report_matches(
                    ips@[k]@,
                    outcomes@[k],
                    checked_ats@[k]@,
                    #[trigger] reports@[k],
                ),
        decreases ips@.len() - i,
    {
        reports.push(IpReputationReport::from_lookup(&ips[i], &outcomes[i], &checked_ats[i]));
        i += 1;
    }
    reports
}

/// Whether the courtesy delay follows the lookup at `index` of `total`: it
/// does after every lookup except the last.
pub fn needs_delay(index: usize, total: usize) -> (r: bool)
    ensures
        r == (index + 1 < total),
{
    total > 0 && index < total - 1
}

/// Cell for an optional string: the string, or empty when absent.
pub open spec fn spec_opt_string_cell(o: Option<String>) -> Seq<char> {
    match o {
        Some(s) => s@,
        None => Seq::empty(),
    }
}

/// Cell for an optional flag: `true`/`false`, or empty when absent.
pub open spec fn spec_opt_bool_cell(o: Option<bool>) -> Seq<char> {
    match o {
        Some(true) => "true"@,
        Some(false) => "false"@,
        None => Seq::empty(),
    }
}

/// Cell for an optional small integer: its decimal text, or empty.
pub open spec fn spec_opt_u8_cell(o: Option<u8>) -> Seq<char> {
    match o {
        Some(n) => spec_dec(n as nat),
        None => Seq::empty(),
    }
}

/// Cell for an optional counter: its decimal text, or empty.
pub open spec fn spec_opt_u32_cell(o: Option<u32>) -> Seq<char> {
    match o {
        Some(n) => spec_dec(n as nat),
        None => Seq::empty(),
    }
}

/// Render an optional string cell.
pub fn opt_string_cell(o: &Option<String>) -> (r: String)
    ensures
        r@ == spec_opt_string_cell(*o),
{
    match o {
        Some(s) => s.clone(),
        None => String::new(),
    }
}

/// Render an optional flag cell.
pub fn opt_bool_cell(o: &Option<bool>) -> (r: String)
    ensures
        r@ == spec_opt_bool_cell(*o),
{
    match o {
        Some(true) => String::from_str("true"),
        Some(false) => String::from_str("false"),
        None => String::new(),
    }
}

/// Render an optional small-integer cell.
pub fn opt_u8_cell(o: &Option<u8>) -> (r: String)
    ensures
        r@ == spec_opt_u8_cell(*o),
{
    match o {
        Some(n) => u8_to_dec(*n),
        None => String::new(),
    }
}

/// Render an optional counter cell.
pub fn opt_u32_cell(o: &Option<u32>) -> (r: String)
    ensures
        r@ == spec_opt_u32_cell(*o),
{
    match o {
        Some(n) => u32_to_dec(*n),
        None => String::new(),
    }
}

/// Header record of the reputation report.
pub open spec fn spec_report_header() -> Seq<Seq<char>> {
    seq![
        "ip_address"@,
        "is_public"@,
        "ip_version"@,
        "is_whitelisted"@,
        "abuse_confidence"@,
        "country_code"@,
        "country_name"@,
        "usage_type"@,
        "isp"@,
        "domain"@,
        "total_reports"@,
        "num_distinct_users"@,
        "last_reported_at"@,
        "checked_at"@,
    ]
}

/// Data record of the reputation report for one result: the address, every
/// reputation field (empty where absent), and the check timestamp.
pub open spec fn spec_report_row(r: IpReputationReport) -> Seq<Seq<char>> {
    seq![
        r.ip_address@,
        spec_opt_bool_cell(r.is_public),
        spec_opt_u8_cell(r.ip_version),
        spec_opt_bool_cell(r.is_whitelisted),
        spec_opt_u8_cell(r.abuse_confidence),
        spec_opt_string_cell(r.country_code),
        spec_opt_string_cell(r.country_name),
        spec_opt_string_cell(r.usage_type),
        spec_opt_string_cell(r.isp),
        spec_opt_string_cell(r.domain),
        spec_opt_u32_cell(r.total_reports),
        spec_opt_u32_cell(r.num_distinct_users),
        spec_opt_string_cell(r.last_reported_at),
        r.checked_at@,
    ]
}

/// All records of the reputation report: the header, then one record per
/// result in order.
pub open spec fn spec_report_cells(reports: Seq<IpReputationReport>) -> Seq<Seq<Seq<char>>> {
    seq![spec_report_header()] + Seq::new(reports.len(), |i: int| spec_report_row(reports[i]))
}

/// Build the header record of the reputation report.
pub fn report_header() -> (r: Vec<String>)
    ensures
        r.deep_view() == spec_report_header(),
{
    let mut h: Vec<String> = Vec::new();
    h.push(String::from_str("ip_address"));
    h.push(String::from_str("is_public"));
    h.push(String::from_str("ip_version"));
    h.push(String::from_str("is_whitelisted"));
    h.push(String::from_str("abuse_confidence"));
    h.push(String::from_str("country_code"));
    h.push(String::from_str("country_name"));
    h.push(String::from_str("usage_type"));
    h.push(String::from_str("isp"));
    h.push(String::from_str("domain"));
    h.push(String::from_str("total_reports"));
    h.push(String::from_str("num_distinct_users"));
    h.push(String::from_str("last_reported_at"));
    h.push(String::from_str("checked_at"));
    proof {
        assert(h.deep_view() =~= spec_report_header());
    }
    h
}

/// Build the report record for one result.
pub fn report_row(rep: &IpReputationReport) -> (r: Vec<String>)
    ensures
        r.deep_view() == spec_report_row(*rep),
{
    let mut row: Vec<String> = Vec::new();
    row.push(rep.ip_address.clone());
    row.push(opt_bool_cell(&rep.is_public));
    row.push(opt_u8_cell(&rep.ip_version));
    row.push(opt_bool_cell(&rep.is_whitelisted));
    row.push(opt_u8_cell(&rep.abuse_confidence));
    row.push(opt_string_cell(&rep.country_code));
    row.push(opt_string_cell(&rep.country_name));
    row.push(opt_string_cell(&rep.usage_type));
    row.push(opt_string_cell(&rep.isp));
    row.push(opt_string_cell(&rep.domain));
    row.push(opt_u32_cell(&rep.total_reports));
    row.push(opt_u32_cell(&rep.num_distinct_users));
    row.push(opt_string_cell(&rep.last_reported_at));
    row.push(rep.checked_at.clone());
    proof {
        assert(row.deep_view() =~= spec_report_row(*rep));
    }
    row
}

/// Build all records of the reputation report: the header, then one record
/// per result, never omitting a result.
pub fn report_cells(reports: &Vec<IpReputationReport>) -> (r: Vec<Vec<String>>)
    ensures
        r.deep_view() == spec_report_cells(reports@),
{
    let mut cells: Vec<Vec<String>> = Vec::new();
    cells.push(report_header());
    let mut i: usize = 0;
    while i < reports.len()
        invariant
            i <= reports@.len(),
            cells@.len() == i + 1,
            cells.deep_view() =~= seq![spec_report_header()] + Seq::new(
                i as nat,
                |k: int| spec_report_row(reports@[k]),
            ),
        decreases reports@.len() - i,
    {
        let row = report_row(&reports[i]);
        let ghost prev = cells.deep_view();
        let ghost prev_vec = cells@;
        cells.push(row);
        proof {
            assert(cells@ == prev_vec.push(row));
            assert forall|j: int| 0 <= j < cells@.len() implies cells.deep_view()[j] == (
            seq![spec_report_header()] + Seq::new(
                (i + 1) as nat,
                |k: int| spec_report_row(reports@[k]),
            ))[j] by {
                assert(cells.deep_view()[j] == cells@[j].deep_view());
                if j < prev_vec.len() {
                    assert(cells@[j] == prev_vec[j]);
                    assert(prev[j] == prev_vec[j].deep_view());
                    assert(prev[j] == (seq![spec_report_header()] + Seq::new(
                        i as nat,
                        |k: int| spec_report_row(reports@[k]),
                    ))[j]);
                } else {
                    assert(cells@[j] == row);
                }
            }
            assert(cells.deep_view() =~= seq![spec_report_header()] + Seq::new(
                (i + 1) as nat,
                |k: int| spec_report_row(reports@[k]),
            ));
        }
        i += 1;
    }
    proof {
        assert(cells.deep_view() =~= spec_report_cells(reports@));
    }
    cells
}

/// Render the whole reputation report as CSV text: the header and one
/// record per result, never omitting a result.
pub fn render_report(reports: &Vec<IpReputationReport>) -> (r: String)
    ensures
        r@ == spec_csv_text(spec_report_cells(reports@)),
{
    let cells = report_cells(reports);
    render_csv(&cells)
}

} // verus!
