//! CSV decoding and encoding at the boundary of the pipeline.
//!
//! The pipeline consumes the event export as an in-memory table of cells and
//! produces its two outputs as tables of cells. Turning text into a table
//! and a record into a line of text is the CSV format's concern and is done
//! by the `csv` crate behind the two trusted functions here; everything the
//! pipeline decides about the cells is verified.

use vstd::prelude::*;

verus! {

/// A decoded tabular file: the header record and the data records.
pub struct CsvTable {
    pub headers: Vec<String>,
    pub rows: Vec<Vec<String>>,
}

impl CsvTable {
    /// Every data record has as many cells as the header record.
    pub open spec fn wf(self) -> bool {
        forall|i: int| 0 <= i < self.rows@.len() ==> (#[trigger] self.rows@[i])@.len()
            == self.headers@.len()
    }
}

/// Relies on `csv::Reader`: it decodes a headed CSV text into the header
/// record and the data records, and (with the default, non-flexible
/// configuration) fails rather than yield a record whose number of fields
/// differs from the header's. The `Err` message is the decoder's diagnostic
/// and is unspecified.
#[verifier::external_body]
pub fn parse_csv_text(text: &str) -> (r: Result<CsvTable, String>)
    ensures
        r is Ok ==> r->Ok_0.wf(),
{
    let mut rdr = csv::Reader::from_reader(text.as_bytes());
    let headers: Vec<String> = match rdr.headers() {
        Ok(h) => h.iter().map(|c| c.to_string()).collect(),
        Err(e) => return Err(e.to_string()),
    };
    let mut rows: Vec<Vec<String>> = Vec::new();
    for record in rdr.records() {
        match record {
            Ok(rec) => rows.push(rec.iter().map(|c| c.to_string()).collect()),
            Err(e) => return Err(e.to_string()),
        }
    }
    Ok(CsvTable { headers, rows })
}

/// The CSV encoding of one record: cells joined by `,`, quoted where the
/// format requires it, terminated by a line break. Encoding is a pure
/// function of the cells.
pub uninterp spec fn csv_encoded_row(cells: Seq<Seq<char>>) -> Seq<char>;

/// Relies on `csv::Writer`: writing one record to an in-memory `Vec` sink
/// yields the record's encoding, deterministically in the cells. The sink's
/// `io::Write` never errors and the encoding of `String` cells is valid
/// UTF-8, so the write cannot fail; the fallback arms are unreachable.
#[verifier::external_body]
fn encode_csv_row(cells: &Vec<String>) -> (r: String)
    ensures
        r@ == csv_encoded_row(cells.deep_view()),
{
    let mut w = csv::Writer::from_writer(Vec::new());
    if w.write_record(cells).is_err() {
        return String::new();
    }
    match w.into_inner() {
        Ok(bytes) => String::from_utf8(bytes).unwrap_or_default(),
        Err(_) => String::new(),
    }
}

/// The text of a whole CSV file: the records' encodings in order.
pub open spec fn spec_csv_text(rows: Seq<Seq<Seq<char>>>) -> Seq<char>
    decreases rows.len(),
{
    if rows.len() == 0 {
        Seq::empty()
    } else {
        spec_csv_text(rows.drop_last()) + csv_encoded_row(rows.last())
    }
}

/// Render a table of cells as CSV text, records in order.
pub fn render_csv(rows: &Vec<Vec<String>>) -> (r: String)
    ensures
        r@ == spec_csv_text(rows.deep_view()),
{
    let ghost dv = rows.deep_view();
    let mut out = String::new();
    let mut i: usize = 0;
    while i < rows.len()
        invariant
            i <= rows@.len(),
            dv == rows.deep_view(),
            dv.len() == rows@.len(),
            out@ == spec_csv_text(dv.take(i as int)),
        decreases rows@.len() - i,
    {
        let line = encode_csv_row(&rows[i]);
        proof {
            assert(rows[i as int].deep_view() == dv[i as int]);
            assert(dv.take(i + 1).drop_last() =~= dv.take(i as int));
            assert(dv.take(i + 1).last() == dv[i as int]);
        }
        out.append(line.as_str());
        i += 1;
    }
    proof {
        assert(dv.take(rows@.len() as int) =~= dv);
    }
    out
}

} // verus!
