//! The whole run as one straight line: parse the token list, validate the
//! rows' column counts, select the matching rows, project them, render the
//! report bytes. The caller supplies plain values (the list file's text and
//! the CSV file's bytes) and receives the finished report bytes; every
//! failure aborts the run with the first error met.

use vstd::prelude::*;
use crate::matcher::find_styles;
use crate::matcher::selected_rows;
use crate::records::check_columns;
use crate::records::csv_accepts;
use crate::records::csv_rows;
use crate::records::load_records;
use crate::records::rows_ok;
use crate::report::project_rows;
use crate::report::render_report;
use crate::report::rendered_report;
use crate::report::report_of_row;
use crate::tokens::parse_tokens;
use crate::tokens::tokens_of;
use crate::MIN_COLUMNS;
use crate::RunError;

verus! {

/// The report bytes a list text and a row sequence denote: the rows matching
/// each token of the parsed list, projected to report rows and rendered
/// behind a header record.
pub open spec fn spec_report_bytes(list_text: Seq<char>, rows: Seq<Seq<Seq<char>>>) -> Seq<u8> {
    rendered_report(
        selected_rows(rows, tokens_of(list_text)).map_values(
            |row: Seq<Seq<char>>| report_of_row(row),
        ),
    )
}

/// Builds the report from the list file's text and the already-loaded rows.
/// Succeeds exactly when every row carries at least `MIN_COLUMNS` fields;
/// otherwise the first short row aborts the run with a `FieldIndexError`.
pub fn build_report(list_text: &str, records: &Vec<Vec<String>>) -> (r: Result<Vec<u8>, RunError>)
    ensures
        r is Ok <==> rows_ok(records.deep_view()),
        r matches Ok(bytes) ==> bytes@ == spec_report_bytes(list_text@, records.deep_view()),
        r matches Err(e) ==> e matches RunError::FieldIndexError(i) && i
            < records.deep_view().len() && records.deep_view()[i as int].len() < MIN_COLUMNS,
{
    match check_columns(records) {
        Ok(()) => {
            let tokens = parse_tokens(list_text);
            let matched = find_styles(records, &tokens);
            let reports = project_rows(&matched);
            let bytes = render_report(&reports);
            Ok(bytes)
        },
        Err(e) => Err(e),
    }
}

/// Runs the whole pipeline on the two input files' contents. An input the
/// csv crate rejects aborts with a `ParseError`; a row with fewer than
/// `MIN_COLUMNS` fields aborts with a `FieldIndexError`; otherwise the
/// report bytes come back, pinned to the parsed rows and the list text.
pub fn process(list_text: &str, csv_data: &[u8]) -> (r: Result<Vec<u8>, RunError>)
    ensures
        r is Ok <==> csv_accepts(csv_data@) && rows_ok(csv_rows(csv_data@)),
        r matches Ok(bytes) ==> bytes@ == spec_report_bytes(list_text@, csv_rows(csv_data@)),
        r matches Err(e) ==> e is ParseError || e is FieldIndexError,
        r matches Err(e) && e is ParseError ==> !csv_accepts(csv_data@),
        r matches Err(e) && e is FieldIndexError ==> csv_accepts(csv_data@) && !rows_ok(
            csv_rows(csv_data@),
        ),
{
    match load_records(csv_data) {
        Ok(records) => build_report(list_text, &records),
        Err(e) => Err(e),
    }
}

} // verus!
