//! Parsing of the operator-supplied style-token list.
//!
//! The list file's text is first collapsed: every line break is removed, so a
//! list spread over several lines runs together into one line. Only then is
//! the text split on the literal comma. This collapse-then-split order is the
//! tool's documented behaviour and is kept exactly: `"AB12\nCD34"` yields the
//! single token `"AB12CD34"`, not two tokens. Empty tokens are kept, and an
//! empty text yields one empty token.

use vstd::prelude::*;

verus! {

/// The text with its line breaks removed: each `'\n'` disappears, and a
/// `'\r'` disappears exactly when a `'\n'` follows it. A lone `'\r'` is
/// ordinary content and stays.
pub open spec fn collapse_lines(s: Seq<char>) -> Seq<char>
    decreases s.len(),
{
    if s.len() == 0 {
        Seq::<char>::empty()
    } else if s[0] == '\r' && s.len() >= 2 && s[1] == '\n' {
        collapse_lines(s.skip(2))
    } else if s[0] == '\n' {
        collapse_lines(s.skip(1))
    } else {
        seq![s[0]] + collapse_lines(s.skip(1))
    }
}

/// The text split on every literal comma. The result always holds at least
/// one piece; consecutive commas and commas at either end yield empty pieces.
pub open spec fn split_commas(s: Seq<char>) -> Seq<Seq<char>>
    decreases s.len(),
{
    if s.len() == 0 {
        seq![Seq::<char>::empty()]
    } else if s.last() == ',' {
        split_commas(s.drop_last()).push(Seq::<char>::empty())
    } else {
        let r = split_commas(s.drop_last());
        r.update(r.len() - 1, r.last().push(s.last()))
    }
}

/// The token sequence the list text denotes: collapse the line breaks, then
/// split on commas.
pub open spec fn tokens_of(text: Seq<char>) -> Seq<Seq<char>> {
    split_commas(collapse_lines(text))
}

/// Splitting never yields an empty piece list.
pub proof fn lemma_split_commas_nonempty(s: Seq<char>)
    ensures
        split_commas(s).len() >= 1,
    decreases s.len(),
{
    if s.len() > 0 {
        lemma_split_commas_nonempty(s.drop_last());
    }
}

/// Removes every line break from the text, as `collapse_lines` describes.
pub fn collapse(text: &str) -> (r: String)
    ensures
        r@ == collapse_lines(text@),
{
    let n = text.unicode_len();
    let mut out = String::new();
    let mut i: usize = 0;
    proof {
        assert(text@.skip(0) =~= text@);
        assert(out@ + collapse_lines(text@) =~= collapse_lines(text@));
    }
    while i < n
        invariant
            n == text@.len(),
            i <= n,
            collapse_lines(text@) == out@ + collapse_lines(text@.skip(i as int)),
        decreases n - i,
    {
        let c = text.get_char(i);
        if c == '\r' && i + 1 < n && text.get_char(i + 1) == '\n' {
            proof {
                assert(text@.skip(i as int).skip(2) =~= text@.skip(i + 2));
            }
            i = i + 2;
        } else if c == '\n' {
            proof {
                assert(text@.skip(i as int).skip(1) =~= text@.skip(i + 1));
            }
            i = i + 1;
        } else {
            proof {
                assert(text@.skip(i as int).skip(1) =~= text@.skip(i + 1));
                assert(collapse_lines(text@.skip(i as int)) =~= seq![text@[i as int]]
                    + collapse_lines(text@.skip(i + 1)));
                assert(text@.subrange(i as int, i + 1) =~= seq![text@[i as int]]);
            }
            let ghost prev = out@;
            out.append(text.substring_char(i, i + 1));
            proof {
                assert(out@ =~= prev + seq![text@[i as int]]);
                assert(prev + (seq![text@[i as int]] + collapse_lines(text@.skip(i + 1)))
                    =~= out@ + collapse_lines(text@.skip(i + 1)));
            }
            i = i + 1;
        }
    }
    proof {
        assert(text@.skip(n as int) =~= Seq::<char>::empty());
        assert(out@ =~= collapse_lines(text@));
    }
    out
}

/// Splits the (already collapsed) text on commas, as `split_commas`
/// describes.
pub fn split(text: &str) -> (r: Vec<String>)
    ensures
        r.deep_view() == split_commas(text@),
{
    let n = text.unicode_len();
    let mut toks: Vec<String> = Vec::new();
    let mut cur = String::new();
    let mut i: usize = 0;
    while i < n
        invariant
            n == text@.len(),
            i <= n,
            split_commas(text@.take(i as int)) =~= toks.deep_view().push(cur@),
        decreases n - i,
    {
        proof {
            assert(text@.take(i + 1).drop_last() =~= text@.take(i as int));
            assert(text@.take(i + 1).last() == text@[i as int]);
        }
        let c = text.get_char(i);
        let ghost prev_toks = toks.deep_view();
        let ghost prev_cur = cur@;
        if c == ',' {
            toks.push(cur);
            cur = String::new();
            proof {
                assert(toks.deep_view() =~= prev_toks.push(prev_cur));
                assert(split_commas(text@.take(i + 1)) =~= toks.deep_view().push(cur@));
            }
        } else {
            proof {
                assert(text@.subrange(i as int, i + 1) =~= seq![text@[i as int]]);
            }
            cur.append(text.substring_char(i, i + 1));
            proof {
                assert(cur@ =~= prev_cur.push(text@[i as int]));
                assert(split_commas(text@.take(i + 1)) =~= toks.deep_view().push(cur@));
            }
        }
        i = i + 1;
    }
    proof {
        assert(text@.take(n as int) =~= text@);
    }
    let ghost prev_toks = toks.deep_view();
    let ghost prev_cur = cur@;
    toks.push(cur);
    proof {
        assert(toks.deep_view() =~= prev_toks.push(prev_cur));
        assert(toks.deep_view() =~= split_commas(text@));
    }
    toks
}

/// Parses the raw text of the list file into the ordered token sequence:
/// line breaks collapsed, then split on commas.
pub fn parse_tokens(text: &str) -> (r: Vec<String>)
    ensures
        r.deep_view() == tokens_of(text@),
        r.len() >= 1,
{
    let collapsed = collapse(text);
    let r = split(collapsed.as_str());
    proof {
        lemma_split_commas_nonempty(collapse_lines(text@));
        assert(r.deep_view().len() == r.len());
    }
    r
}

} // verus!
