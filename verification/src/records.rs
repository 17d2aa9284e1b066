//! Loading and validation of order rows.
//!
//! Rows come out of the csv crate as ordered, field-addressable records, the
//! file's first row treated as a header and skipped. The only validation of
//! this library's own is the column count: every row must carry at least
//! `MIN_COLUMNS` fields, since the report projection reads columns 0 through 8.

use vstd::prelude::*;
use crate::MIN_COLUMNS;

verus! {

#[verifier::external_type_specification]
#[verifier::external_body]
pub struct ExCsvError(csv::Error);

/// The data rows that the csv crate parses out of these bytes: standard CSV
/// quoting, first row excluded as the header. Meaningful only where parsing
/// succeeds; the bytes alone determine it.
pub uninterp spec fn csv_rows(data: Seq<u8>) -> Seq<Seq<Seq<char>>>;

/// Whether the csv crate accepts these bytes as well-formed CSV. The reader
/// configuration is fixed and the bytes are read from memory, so acceptance
/// is a function of the bytes alone.
pub uninterp spec fn csv_accepts(data: Seq<u8>) -> bool;

/// Relies on csv::Reader::from_reader and its records iterator: parses
/// standard CSV with double-quote escaping, treats the first row as a header
/// and skips it, keeps the remaining rows in file order, and reports the
/// first malformed row as an error. Reading from a byte slice cannot fail on
/// I/O, so the outcome depends on the bytes alone.
#[verifier::external_body]
fn parse_csv_bytes(data: &[u8]) -> (r: Result<Vec<Vec<String>>, csv::Error>)
    ensures
        r is Ok <==> csv_accepts(data@),
        r matches Ok(rows) ==> rows.deep_view() == csv_rows(data@),
{
    let mut rdr = csv::Reader::from_reader(data);
    let mut out: Vec<Vec<String>> = Vec::new();
    for rec in rdr.records() {
        match rec {
            Ok(row) => out.push(row.iter().map(|f| f.to_string()).collect()),
            Err(e) => return Err(e),
        }
    }
    Ok(out)
}

/// Relies on the Display impl of csv::Error for a human-readable description
/// of the parse failure.
#[verifier::external_body]
fn csv_error_text(e: &csv::Error) -> String {
    format!("{}", e)
}

/// Parses CSV bytes into field-addressable rows, the header row skipped.
/// Succeeds exactly where the csv crate accepts the input; the first
/// malformed row aborts the load with a `ParseError`.
pub fn load_records(data: &[u8]) -> (r: Result<Vec<Vec<String>>, crate::RunError>)
    ensures
        r is Ok <==> csv_accepts(data@),
        r matches Ok(rows) ==> rows.deep_view() == csv_rows(data@),
        r matches Err(e) ==> e is ParseError,
{
    match parse_csv_bytes(data) {
        Ok(rows) => Ok(rows),
        Err(e) => Err(crate::RunError::ParseError(csv_error_text(&e))),
    }
}

/// Every row carries at least `MIN_COLUMNS` fields, so every column the
/// report projection reads is addressable.
pub open spec fn rows_ok(rows: Seq<Seq<Seq<char>>>) -> bool {
    forall|i: int| 0 <= i < rows.len() ==> rows[i].len() >= MIN_COLUMNS
}

/// Checks the column count of every row. Returns `Ok` exactly when every row
/// has at least `MIN_COLUMNS` fields; otherwise names the first short row in
/// a `FieldIndexError`.
pub fn check_columns(rows: &Vec<Vec<String>>) -> (r: Result<(), crate::RunError>)
    ensures
        r is Ok <==> rows_ok(rows.deep_view()),
        r matches Err(e) ==> e matches crate::RunError::FieldIndexError(i) && i < rows.deep_view().len()
            && rows.deep_view()[i as int].len() < MIN_COLUMNS && (forall|j: int|
            0 <= j < i ==> rows.deep_view()[j].len() >= MIN_COLUMNS),
{
    let n = rows.len();
    let mut i: usize = 0;
    while i < n
        invariant
            n == rows@.len(),
            i <= n,
            forall|j: int| 0 <= j < i ==> rows.deep_view()[j].len() >= MIN_COLUMNS,
        decreases n - i,
    {
        if rows[i].len() < MIN_COLUMNS {
            proof {
                assert(rows.deep_view()[i as int] =~= rows@[i as int].deep_view());
            }
            return Err(crate::RunError::FieldIndexError(i));
        }
        proof {
            assert(rows.deep_view()[i as int] =~= rows@[i as int].deep_view());
        }
        i = i + 1;
    }
    Ok(())
}

} // verus!
