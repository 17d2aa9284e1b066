//! Projection of matched rows into the five-column report, and its rendering
//! as CSV bytes.
//!
//! A report row carries the purchase-order number (column 0), the store
//! number (column 7), the combined style code (columns 1 and 2 run
//! together — the same search key the matcher uses), the size (column 3) and
//! the quantity (column 8). The rendered file holds a header row and then
//! one record per report row, each encoded by the csv crate.

use vstd::prelude::*;
use crate::matcher::search_key;
use crate::records::rows_ok;
use crate::MIN_COLUMNS;

verus! {

/// One row of the output report.
#[derive(Debug)]
pub struct Report {
    pub po: String,
    pub store: String,
    pub style_code: String,
    pub size: String,
    pub qty: String,
}

impl View for Report {
    type V = Seq<Seq<char>>;

    open spec fn view(&self) -> Seq<Seq<char>> {
        seq![self.po@, self.store@, self.style_code@, self.size@, self.qty@]
    }
}

impl DeepView for Report {
    type V = Seq<Seq<char>>;

    open spec fn deep_view(&self) -> Seq<Seq<char>> {
        self.view()
    }
}

/// The report fields an order row projects to: purchase order, store,
/// combined style+color code, size, quantity.
pub open spec fn report_of_row(row: Seq<Seq<char>>) -> Seq<Seq<char>> {
    seq![row[0], row[7], search_key(row), row[3], row[8]]
}

/// The header fields of the report file.
pub open spec fn header_fields() -> Seq<Seq<char>> {
    seq!["PO"@, "Store"@, "StyleCode"@, "Size"@, "Qty"@]
}

/// The bytes the csv crate writes for one record of these fields: each field
/// quoted only where needed, fields joined by commas, a newline terminator.
/// The fields alone determine it.
pub uninterp spec fn csv_record_encoding(fields: Seq<Seq<char>>) -> Seq<u8>;

/// Relies on csv::Writer::write_record over an in-memory buffer: encodes one
/// record with standard quoting and a `\n` terminator. Writing to a byte
/// buffer cannot fail, so the writer's error paths are unreachable here.
#[verifier::external_body]
fn encode_record(fields: &Vec<String>) -> (r: Vec<u8>)
    ensures
        r@ == csv_record_encoding(fields.deep_view()),
{
    let mut w = csv::Writer::from_writer(Vec::new());
    w.write_record(fields.iter()).expect("in-memory CSV write cannot fail");
    w.into_inner().expect("in-memory CSV flush cannot fail")
}

/// The rendered report body: one encoded record per report row, in order.
pub open spec fn rendered_body(reports: Seq<Seq<Seq<char>>>) -> Seq<u8>
    decreases reports.len(),
{
    if reports.len() == 0 {
        Seq::<u8>::empty()
    } else {
        rendered_body(reports.drop_last()) + csv_record_encoding(reports.last())
    }
}

/// The whole rendered report file: the header record, then the body.
pub open spec fn rendered_report(reports: Seq<Seq<Seq<char>>>) -> Seq<u8> {
    csv_record_encoding(header_fields()) + rendered_body(reports)
}

/// Projects one order row into its report row.
pub fn project_row(row: &Vec<String>) -> (r: Report)
    requires
        row.deep_view().len() >= MIN_COLUMNS,
    ensures
        r@ == report_of_row(row.deep_view()),
{
    let r = Report {
        po: row[0].clone(),
        store: row[7].clone(),
        style_code: row[1].clone().concat(row[2].as_str()),
        size: row[3].clone(),
        qty: row[8].clone(),
    };
    proof {
        assert(r@ =~= report_of_row(row.deep_view()));
    }
    r
}

/// Projects every matched row into a report row, keeping the order.
pub fn project_rows(rows: &Vec<Vec<String>>) -> (r: Vec<Report>)
    requires
        rows_ok(rows.deep_view()),
    ensures
        r.deep_view() == rows.deep_view().map_values(|row: Seq<Seq<char>>| report_of_row(row)),
{
    let n = rows.len();
    let mut out: Vec<Report> = Vec::new();
    let mut i: usize = 0;
    while i < n
        invariant
            rows_ok(rows.deep_view()),
            n == rows@.len(),
            i <= n,
            out@.len() == i,
            forall|j: int| 0 <= j < i ==> out@[j]@ == report_of_row(rows.deep_view()[j]),
        decreases n - i,
    {
        proof {
            assert(rows.deep_view()[i as int] == rows@[i as int].deep_view());
        }
        let rep = project_row(&rows[i]);
        out.push(rep);
        i = i + 1;
    }
    proof {
        assert(out.deep_view() =~= rows.deep_view().map_values(
            |row: Seq<Seq<char>>| report_of_row(row),
        ));
    }
    out
}

/// Turns one report row into its five fields, in column order.
fn report_fields(rep: &Report) -> (r: Vec<String>)
    ensures
        r.deep_view() == rep@,
{
    let mut f: Vec<String> = Vec::new();
    f.push(rep.po.clone());
    f.push(rep.store.clone());
    f.push(rep.style_code.clone());
    f.push(rep.size.clone());
    f.push(rep.qty.clone());
    proof {
        assert(f.deep_view() =~= rep@);
    }
    f
}

/// Renders the whole report file: the header record, then one record per
/// report row, in order. The same rows always render to the same bytes.
pub fn render_report(reports: &Vec<Report>) -> (r: Vec<u8>)
    ensures
        r@ == rendered_report(reports.deep_view()),
{
    let mut header: Vec<String> = Vec::new();
    header.push(String::from_str("PO"));
    header.push(String::from_str("Store"));
    header.push(String::from_str("StyleCode"));
    header.push(String::from_str("Size"));
    header.push(String::from_str("Qty"));
    proof {
        assert(header.deep_view() =~= header_fields());
    }
    let mut out = encode_record(&header);
    let n = reports.len();
    let mut i: usize = 0;
    proof {
        assert(reports.deep_view().take(0) =~= Seq::<Seq<Seq<char>>>::empty());
        assert(out@ =~= csv_record_encoding(header_fields()) + rendered_body(
            reports.deep_view().take(0),
        ));
    }
    while i < n
        invariant
            n == reports@.len(),
            i <= n,
            out@ == csv_record_encoding(header_fields()) + rendered_body(
                reports.deep_view().take(i as int),
            ),
        decreases n - i,
    {
        proof {
            assert(reports.deep_view()[i as int] == reports@[i as int]@);
        }
        let fields = report_fields(&reports[i]);
        let mut enc = encode_record(&fields);
        let ghost prev = out@;
        out.append(&mut enc);
        proof {
            assert(reports.deep_view().take(i + 1).drop_last() =~= reports.deep_view().take(
                i as int,
            ));
            assert(reports.deep_view().take(i + 1).last() == reports.deep_view()[i as int]);
            assert(out@ =~= csv_record_encoding(header_fields()) + rendered_body(
                reports.deep_view().take(i + 1),
            ));
        }
        i = i + 1;
    }
    proof {
        assert(reports.deep_view().take(n as int) =~= reports.deep_view());
    }
    out
}

} // verus!
