//! The library's general laws, each proved over the same spec functions the
//! executable contracts use.

use vstd::prelude::*;
use crate::matcher::matches_of;
use crate::matcher::row_matches;
use crate::matcher::search_key;
use crate::matcher::selected_rows;
use crate::pipeline::spec_report_bytes;
use crate::report::csv_record_encoding;
use crate::report::header_fields;
use crate::report::rendered_report;
use crate::report::report_of_row;
use crate::substr::lemma_empty_needle_matches;

verus! {

/// How many rows match one token.
pub open spec fn match_count(rows: Seq<Seq<Seq<char>>>, tok: Seq<char>) -> nat {
    matches_of(rows, tok).len()
}

/// The sum, over the tokens, of how many rows match each.
pub open spec fn total_match_count(rows: Seq<Seq<Seq<char>>>, toks: Seq<Seq<char>>) -> nat
    decreases toks.len(),
{
    if toks.len() == 0 {
        0
    } else {
        total_match_count(rows, toks.drop_last()) + match_count(rows, toks.last())
    }
}

/// The number of selected rows equals the sum over the tokens of the number
/// of rows whose style+color key contains that token: duplicates across
/// tokens are preserved, never deduplicated. The projected report keeps that
/// count, one report row per selected row.
pub proof fn lemma_output_row_count(rows: Seq<Seq<Seq<char>>>, toks: Seq<Seq<char>>)
    ensures
        selected_rows(rows, toks).len() == total_match_count(rows, toks),
        selected_rows(rows, toks).map_values(|row: Seq<Seq<char>>| report_of_row(row)).len()
            == total_match_count(rows, toks),
    decreases toks.len(),
{
    if toks.len() > 0 {
        lemma_output_row_count(rows, toks.drop_last());
    }
}

/// Two runs over identical inputs render identical report bytes: the output
/// is a function of the list text and the rows alone, so rerunning the tool
/// overwrites the report with the same bytes.
pub proof fn lemma_report_deterministic(
    list_a: Seq<char>,
    rows_a: Seq<Seq<Seq<char>>>,
    list_b: Seq<char>,
    rows_b: Seq<Seq<Seq<char>>>,
)
    requires
        list_a == list_b,
        rows_a == rows_b,
    ensures
        spec_report_bytes(list_a, rows_a) == spec_report_bytes(list_b, rows_b),
{
}

/// An empty token list selects nothing: the rendered report is the header
/// record alone, with zero data rows.
pub proof fn lemma_empty_token_list(rows: Seq<Seq<Seq<char>>>)
    ensures
        selected_rows(rows, Seq::<Seq<char>>::empty()) == Seq::<Seq<Seq<char>>>::empty(),
        rendered_report(
            selected_rows(rows, Seq::<Seq<char>>::empty()).map_values(
                |row: Seq<Seq<char>>| report_of_row(row),
            ),
        ) == csv_record_encoding(header_fields()),
{
    let empty = selected_rows(rows, Seq::<Seq<char>>::empty()).map_values(
        |row: Seq<Seq<char>>| report_of_row(row),
    );
    assert(empty =~= Seq::<Seq<Seq<char>>>::empty());
    assert(rendered_report(empty) =~= csv_record_encoding(header_fields()));
}

/// A row with fewer than `MIN_COLUMNS` fields, anywhere in the input, makes
/// the row sequence invalid — so the pipeline owes an abort: `build_report`
/// and `process` ensure `Ok` if and only if the rows are valid, and pin the
/// error to a `FieldIndexError`, so no report is ever rendered from such
/// input, whatever the token list.
pub proof fn lemma_short_row_aborts(rows: Seq<Seq<Seq<char>>>, i: int)
    requires
        0 <= i < rows.len(),
        rows[i].len() < crate::MIN_COLUMNS,
    ensures
        !crate::records::rows_ok(rows),
{
}

/// The combined style code the report writes (its third column) is the very
/// key the matcher searched: matching and projection never disagree on what
/// the combined code is.
pub proof fn lemma_projection_writes_search_key(row: Seq<Seq<char>>)
    ensures
        report_of_row(row)[2] == search_key(row),
{
}

/// The empty token matches every row: with a token list of one empty string,
/// every input row is selected exactly once, in file order.
pub proof fn lemma_empty_token_selects_all(rows: Seq<Seq<Seq<char>>>)
    ensures
        matches_of(rows, Seq::<char>::empty()) == rows,
        selected_rows(rows, seq![Seq::<char>::empty()]) == rows,
    decreases rows.len(),
{
    if rows.len() == 0 {
        assert(matches_of(rows, Seq::<char>::empty()) =~= rows);
    } else {
        lemma_empty_needle_matches(search_key(rows.last()));
        assert(row_matches(rows.last(), Seq::<char>::empty()));
        lemma_empty_token_selects_all(rows.drop_last());
        assert(matches_of(rows, Seq::<char>::empty()) =~= rows.drop_last().push(rows.last()));
        assert(rows.drop_last().push(rows.last()) =~= rows);
    }
    let toks = seq![Seq::<char>::empty()];
    assert(toks.len() == 1);
    assert(toks.last() == Seq::<char>::empty());
    assert(toks.drop_last() =~= Seq::<Seq<char>>::empty());
    assert(selected_rows(rows, toks.drop_last()) =~= Seq::<Seq<Seq<char>>>::empty());
    assert(selected_rows(rows, toks) == selected_rows(rows, toks.drop_last()) + matches_of(
        rows,
        toks.last(),
    ));
    assert(Seq::<Seq<Seq<char>>>::empty() + rows =~= rows);
}

} // verus!
