//! The style matcher: the tool's core decision.
//!
//! Every order row derives a search key, the style code concatenated with the
//! color code. For each token of the operator's list, in list order, every
//! row whose key contains the token as a substring is selected, in file
//! order. A row matching several tokens is selected once per matching token;
//! nothing is deduplicated.

use vstd::prelude::*;
use crate::substr::contains;
use crate::substr::contains_substr;
use crate::records::rows_ok;
use crate::MIN_COLUMNS;

verus! {

/// The search key of one row: style code (column 1) and color code
/// (column 2) run together, with no separator. Matching and report
/// projection both use this same definition, so they never disagree.
pub open spec fn search_key(row: Seq<Seq<char>>) -> Seq<char> {
    row[1] + row[2]
}

/// The row's search key contains the token as a substring.
pub open spec fn row_matches(row: Seq<Seq<char>>, tok: Seq<char>) -> bool {
    contains_substr(search_key(row), tok)
}

/// The rows matching one token, kept in their original order.
pub open spec fn matches_of(rows: Seq<Seq<Seq<char>>>, tok: Seq<char>) -> Seq<Seq<Seq<char>>>
    decreases rows.len(),
{
    if rows.len() == 0 {
        Seq::<Seq<Seq<char>>>::empty()
    } else if row_matches(rows.last(), tok) {
        matches_of(rows.drop_last(), tok).push(rows.last())
    } else {
        matches_of(rows.drop_last(), tok)
    }
}

/// All selected rows: for each token in list order, the rows matching it in
/// file order. Duplicates across tokens are kept.
pub open spec fn selected_rows(rows: Seq<Seq<Seq<char>>>, toks: Seq<Seq<char>>) -> Seq<
    Seq<Seq<char>>,
>
    decreases toks.len(),
{
    if toks.len() == 0 {
        Seq::<Seq<Seq<char>>>::empty()
    } else {
        selected_rows(rows, toks.drop_last()) + matches_of(rows, toks.last())
    }
}

/// Copies one row field by field.
fn clone_row(row: &Vec<String>) -> (r: Vec<String>)
    ensures
        r.deep_view() == row.deep_view(),
        r@.len() == row@.len(),
{
    let n = row.len();
    let mut out: Vec<String> = Vec::new();
    let mut i: usize = 0;
    while i < n
        invariant
            n == row@.len(),
            i <= n,
            out@.len() == i,
            forall|j: int| 0 <= j < i ==> out@[j]@ == row@[j]@,
        decreases n - i,
    {
        out.push(row[i].clone());
        i = i + 1;
    }
    proof {
        assert(out.deep_view() =~= row.deep_view());
    }
    out
}

/// Selects, token by token, every row whose style+color key contains the
/// token as a substring. Rows keep their file order within one token's
/// matches, and a row is emitted once per token it matches.
pub fn find_styles(records: &Vec<Vec<String>>, list: &Vec<String>) -> (r: Vec<Vec<String>>)
    requires
        rows_ok(records.deep_view()),
    ensures
        r.deep_view() == selected_rows(records.deep_view(), list.deep_view()),
        rows_ok(r.deep_view()),
{
    let ghost gr = records.deep_view();
    let ghost gl = list.deep_view();
    let mut out: Vec<Vec<String>> = Vec::new();
    let nt = list.len();
    let nr = records.len();
    let mut ti: usize = 0;
    proof {
        assert(gl.take(0) =~= Seq::<Seq<char>>::empty());
        assert(out.deep_view() =~= selected_rows(gr, gl.take(0)));
    }
    while ti < nt
        invariant
            rows_ok(gr),
            gr == records.deep_view(),
            gl == list.deep_view(),
            nt == list@.len(),
            nr == records@.len(),
            ti <= nt,
            out.deep_view() == selected_rows(gr, gl.take(ti as int)),
            rows_ok(out.deep_view()),
        decreases nt - ti,
    {
        let tok = &list[ti];
        proof {
            assert(tok@ == gl[ti as int]);
        }
        let mut ri: usize = 0;
        proof {
            assert(gr.take(0) =~= Seq::<Seq<Seq<char>>>::empty());
            assert(out.deep_view() =~= selected_rows(gr, gl.take(ti as int)) + matches_of(
                gr.take(0),
                tok@,
            ));
        }
        while ri < nr
            invariant
                rows_ok(gr),
                gr == records.deep_view(),
                gl == list.deep_view(),
                nt == list@.len(),
                nr == records@.len(),
                ti < nt,
                ri <= nr,
                tok@ == gl[ti as int],
                out.deep_view() == selected_rows(gr, gl.take(ti as int)) + matches_of(
                    gr.take(ri as int),
                    tok@,
                ),
                rows_ok(out.deep_view()),
            decreases nr - ri,
        {
            let row = &records[ri];
            proof {
                assert(row.deep_view() == gr[ri as int]);
                assert(gr[ri as int].len() >= MIN_COLUMNS);
                assert(row@.len() == row.deep_view().len());
            }
            let key = row[1].clone().concat(row[2].as_str());
            proof {
                assert(key@ == search_key(gr[ri as int]));
            }
            let ghost prev = out.deep_view();
            if contains(key.as_str(), tok.as_str()) {
                let copied = clone_row(row);
                out.push(copied);
                proof {
                    assert(out.deep_view() =~= prev.push(gr[ri as int]));
                }
            }
            proof {
                assert(gr.take(ri + 1).drop_last() =~= gr.take(ri as int));
                assert(gr.take(ri + 1).last() == gr[ri as int]);
                assert(out.deep_view() =~= selected_rows(gr, gl.take(ti as int)) + matches_of(
                    gr.take(ri + 1),
                    tok@,
                ));
            }
            ri = ri + 1;
        }
        proof {
            assert(gr.take(nr as int) =~= gr);
            assert(gl.take(ti + 1).drop_last() =~= gl.take(ti as int));
            assert(gl.take(ti + 1).last() == gl[ti as int]);
            assert(out.deep_view() =~= selected_rows(gr, gl.take(ti + 1)));
        }
        ti = ti + 1;
    }
    proof {
        assert(gl.take(nt as int) =~= gl);
    }
    out
}

} // verus!
