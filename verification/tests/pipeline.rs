use po_report::matcher::find_styles;
use po_report::pipeline::build_report;
use po_report::pipeline::process;
use po_report::records::check_columns;
use po_report::records::load_records;
use po_report::report::project_rows;
use po_report::report::render_report;
use po_report::tokens::parse_tokens;
use po_report::RunError;

const HEADER: &str = "Po,StyleCode,ColorCode,MsrpSize,StyleDesc,ColorDesc,Upc,StoreNum,Qty\n";

fn row(fields: &[&str]) -> Vec<String> {
    fields.iter().map(|f| f.to_string()).collect()
}

#[test]
fn single_token_single_match() {
    // One row whose style+color key is exactly the token; the output holds
    // the header and exactly one projected report row.
    let input = format!("{HEADER}1001,AB,12,M,Desc,Blue,987,50,3\n");
    let out = process("AB12", input.as_bytes()).unwrap();
    assert_eq!(
        String::from_utf8(out).unwrap(),
        "PO,Store,StyleCode,Size,Qty\n1001,50,AB12,M,3\n"
    );
}

#[test]
fn substring_not_exact_match() {
    // Containment, not equality: a short token matches in the middle of the
    // combined key, and across the style/color boundary.
    let input = format!("{HEADER}1001,AB,12,M,Desc,Blue,987,50,3\n");
    let out = process("B1", input.as_bytes()).unwrap();
    assert_eq!(
        String::from_utf8(out).unwrap(),
        "PO,Store,StyleCode,Size,Qty\n1001,50,AB12,M,3\n"
    );
}

#[test]
fn token_order_then_file_order() {
    // All rows matching the first token come first, in file order, then all
    // rows matching the second token.
    let input = format!(
        "{HEADER}1,XX,1,S,d,c,u,10,1\n2,YY,2,M,d,c,u,20,2\n3,XX,1,L,d,c,u,30,3\n"
    );
    let out = process("YY2,XX1", input.as_bytes()).unwrap();
    assert_eq!(
        String::from_utf8(out).unwrap(),
        "PO,Store,StyleCode,Size,Qty\n2,20,YY2,M,2\n1,10,XX1,S,1\n3,30,XX1,L,3\n"
    );
}

#[test]
fn row_matching_two_tokens_appears_twice() {
    // A row is emitted once per matching token; nothing is deduplicated.
    let input = format!("{HEADER}1001,AB,12,M,d,c,u,50,3\n");
    let out = process("AB,12", input.as_bytes()).unwrap();
    assert_eq!(
        String::from_utf8(out).unwrap(),
        "PO,Store,StyleCode,Size,Qty\n1001,50,AB12,M,3\n1001,50,AB12,M,3\n"
    );
}

#[test]
fn duplicate_tokens_duplicate_rows() {
    let input = format!("{HEADER}1001,AB,12,M,d,c,u,50,3\n");
    let out = process("AB12,AB12", input.as_bytes()).unwrap();
    assert_eq!(
        String::from_utf8(out).unwrap(),
        "PO,Store,StyleCode,Size,Qty\n1001,50,AB12,M,3\n1001,50,AB12,M,3\n"
    );
}

#[test]
fn output_row_count_sums_over_tokens() {
    // Three rows; token "XX" matches two of them, token "1" matches all
    // three: 2 + 3 = 5 data rows.
    let input = format!(
        "{HEADER}1,XX,1,S,d,c,u,10,1\n2,YY,1,M,d,c,u,20,2\n3,XX,1,L,d,c,u,30,3\n"
    );
    let out = process("XX,1", input.as_bytes()).unwrap();
    let text = String::from_utf8(out).unwrap();
    assert_eq!(text.lines().count(), 1 + 5);
}

#[test]
fn two_runs_byte_identical() {
    // Idempotence: the same inputs always render the same bytes, so a second
    // run overwrites the report with an identical file.
    let input = format!("{HEADER}1001,AB,12,M,d,c,u,50,3\n2002,CD,34,L,d,c,u,60,7\n");
    let first = process("AB12,CD", input.as_bytes()).unwrap();
    let second = process("AB12,CD", input.as_bytes()).unwrap();
    assert_eq!(first, second);
}

#[test]
fn empty_token_list_header_only() {
    // An empty token list selects nothing: the report holds the header and
    // zero data rows.
    let records = vec![row(&["1001", "AB", "12", "M", "d", "c", "u", "50", "3"])];
    let tokens: Vec<String> = Vec::new();
    let matched = find_styles(&records, &tokens);
    assert!(matched.is_empty());
    let reports = project_rows(&matched);
    let out = render_report(&reports);
    assert_eq!(String::from_utf8(out).unwrap(), "PO,Store,StyleCode,Size,Qty\n");
}

#[test]
fn empty_token_matches_every_row_once() {
    // An empty list file yields the single empty token, which matches every
    // row: each input row appears exactly once, in file order.
    let input = format!("{HEADER}1,AB,12,S,d,c,u,10,1\n2,CD,34,M,d,c,u,20,2\n");
    let out = process("", input.as_bytes()).unwrap();
    assert_eq!(
        String::from_utf8(out).unwrap(),
        "PO,Store,StyleCode,Size,Qty\n1,10,AB12,S,1\n2,20,CD34,M,2\n"
    );
}

#[test]
fn consecutive_commas_keep_empty_token() {
    // "AB12,,CD34" has three tokens; the middle empty one matches both rows.
    let toks = parse_tokens("AB12,,CD34");
    assert_eq!(toks, vec!["AB12".to_string(), "".to_string(), "CD34".to_string()]);
}

#[test]
fn list_split_on_commas() {
    let toks = parse_tokens("AB12,CD34");
    assert_eq!(toks, vec!["AB12".to_string(), "CD34".to_string()]);
}

#[test]
fn list_newline_collapses_tokens() {
    // A list spread over two lines with no comma collapses into one token.
    let toks = parse_tokens("AB12\nCD34");
    assert_eq!(toks, vec!["AB12CD34".to_string()]);
}

#[test]
fn list_crlf_collapses_too() {
    let toks = parse_tokens("AB12\r\nCD34\r\n");
    assert_eq!(toks, vec!["AB12CD34".to_string()]);
}

#[test]
fn short_rows_field_index_error() {
    // A file whose rows carry fewer than nine columns aborts with a
    // field-index error before any output is produced.
    let input = "Po,StyleCode,ColorCode,MsrpSize,Qty\n1001,AB,12,M,3\n";
    let err = process("AB12", input.as_bytes()).unwrap_err();
    assert_eq!(err, RunError::FieldIndexError(0));
}

#[test]
fn malformed_csv_parse_error() {
    // An unterminated quote is a CSV syntax error: the run aborts with a
    // parse error.
    let input = format!("{HEADER}1001,\"AB,12,M,d,c,u,50,3\n999");
    let err = process("AB12", input.as_bytes()).unwrap_err();
    assert!(matches!(err, RunError::ParseError(_)));
}

#[test]
fn error_messages_are_readable() {
    let parse = RunError::ParseError("bad row".to_string());
    assert!(parse.message().contains("malformed CSV input"));
    assert!(parse.message().contains("bad row"));
    let field = RunError::FieldIndexError(2);
    assert!(field.message().contains("fewer fields"));
}

#[test]
fn quoted_fields_round_trip() {
    // A quoted PO with an embedded comma is parsed by the csv crate and
    // re-quoted on output: the wrappers really encode and decode.
    let input = format!("{HEADER}\"10,01\",AB,12,M,d,c,u,50,3\n");
    let out = process("AB12", input.as_bytes()).unwrap();
    assert_eq!(
        String::from_utf8(out).unwrap(),
        "PO,Store,StyleCode,Size,Qty\n\"10,01\",50,AB12,M,3\n"
    );
}

#[test]
fn empty_input_header_only_report() {
    // No data rows at all: the report is the header alone.
    let out = process("AB12", HEADER.as_bytes()).unwrap();
    assert_eq!(String::from_utf8(out).unwrap(), "PO,Store,StyleCode,Size,Qty\n");
}

#[test]
fn load_records_skips_header() {
    let input = format!("{HEADER}1,AB,12,S,d,c,u,10,1\n");
    let rows = load_records(input.as_bytes()).unwrap();
    assert_eq!(rows.len(), 1);
    assert_eq!(rows[0], row(&["1", "AB", "12", "S", "d", "c", "u", "10", "1"]));
}

#[test]
fn check_columns_accepts_nine_fields() {
    let rows = vec![row(&["1", "AB", "12", "S", "d", "c", "u", "10", "1"])];
    assert!(check_columns(&rows).is_ok());
}

#[test]
fn check_columns_names_first_short_row() {
    let rows = vec![
        row(&["1", "AB", "12", "S", "d", "c", "u", "10", "1"]),
        row(&["2", "CD"]),
        row(&["3"]),
    ];
    assert_eq!(check_columns(&rows).unwrap_err(), RunError::FieldIndexError(1));
}

#[test]
fn build_report_rejects_short_rows() {
    let rows = vec![row(&["1", "AB", "12"])];
    let err = build_report("AB12", &rows).unwrap_err();
    assert_eq!(err, RunError::FieldIndexError(0));
}

#[test]
fn no_match_header_only() {
    let input = format!("{HEADER}1001,AB,12,M,d,c,u,50,3\n");
    let out = process("ZZ99", input.as_bytes()).unwrap();
    assert_eq!(String::from_utf8(out).unwrap(), "PO,Store,StyleCode,Size,Qty\n");
}
