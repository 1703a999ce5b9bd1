//! Presentation helpers for search results: highlighting of query terms and
//! snippets around the first match.
use vstd::prelude::*;

use crate::models::lower_all;
use crate::text::{chars_of, find_from, lower_of, lowercase, occurs_at, split_words, words_of};

verus! {

/// The length of the first non-empty term that occurs in `lower` at `i`, or
/// zero when none does.
pub open spec fn term_at(lower: Seq<char>, terms: Seq<Seq<char>>, i: int) -> nat
    decreases terms.len(),
{
    if terms.len() == 0 {
        0
    } else if terms[0].len() > 0 && occurs_at(lower, terms[0], i) {
        terms[0].len()
    } else {
        term_at(lower, terms.drop_first(), i)
    }
}

proof fn lemma_term_at_fits(lower: Seq<char>, terms: Seq<Seq<char>>, i: int)
    ensures
        term_at(lower, terms, i) > 0 ==> i + term_at(lower, terms, i) <= lower.len(),
    decreases terms.len(),
{
    if terms.len() > 0 {
        lemma_term_at_fits(lower, terms.drop_first(), i);
    }
}

/// The character sequences of a list of character vectors.
pub open spec fn term_views(terms: Seq<Vec<char>>) -> Seq<Seq<char>> {
    terms.map_values(|t: Vec<char>| t@)
}

/// `text` from index `i` on, with every match of a term (taken left to
/// right, the earliest listed term first) wrapped in `start` and `end`.
pub open spec fn highlighted(
    text: Seq<char>,
    lower: Seq<char>,
    terms: Seq<Seq<char>>,
    start: Seq<char>,
    end: Seq<char>,
    i: int,
) -> Seq<char>
    decreases text.len() - i,
{
    if i < 0 || i >= text.len() {
        Seq::<char>::empty()
    } else {
        let n = term_at(lower, terms, i);
        if n > 0 && i + n <= text.len() {
            start + text.subrange(i, i + n) + end + highlighted(text, lower, terms, start, end, i + n)
        } else {
            seq![text[i]] + highlighted(text, lower, terms, start, end, i + 1)
        }
    }
}

fn term_len_at(lower: &Vec<char>, terms: &Vec<Vec<char>>, i: usize) -> (r: usize)
    requires
        i <= lower@.len(),
    ensures
        r == term_at(lower@, term_views(terms@), i as int),
{
    let ghost all = term_views(terms@);
    let mut k: usize = 0;
    assert(all.subrange(0, all.len() as int) =~= all);
    while k < terms.len()
        invariant
            all == term_views(terms@),
            i <= lower@.len(),
            k <= all.len(),
            term_at(lower@, all, i as int) == term_at(lower@, all.subrange(k as int, all.len() as int), i as int),
        decreases all.len() - k,
    {
        let ghost rest = all.subrange(k as int, all.len() as int);
        assert(rest.drop_first() =~= all.subrange(k + 1, all.len() as int));
        assert(rest[0] == terms@[k as int]@);
        if terms[k].len() > 0 && crate::text::matches_at(lower, &terms[k], i) {
            return terms[k].len();
        }
        k = k + 1;
    }
    0
}

/// Wraps every match of a term in `text` with the markers, scanning left to
/// right; `lower` is `text` lower-cased, of the same length.
pub fn highlight_lowered(
    text: &Vec<char>,
    lower: &Vec<char>,
    terms: &Vec<Vec<char>>,
    highlight_start: &str,
    highlight_end: &str,
) -> (r: String)
    requires
        lower@.len() == text@.len(),
    ensures
        r@ == highlighted(text@, lower@, term_views(terms@), highlight_start@, highlight_end@, 0),
{
    let n = text.len();
    let mut out: Vec<char> = Vec::new();
    let mut i: usize = 0;
    let hs = chars_of(highlight_start);
    let he = chars_of(highlight_end);
    while i < n
        invariant
            n == text@.len(),
            n == lower@.len(),
            hs@ == highlight_start@,
            he@ == highlight_end@,
            i <= n,
            out@ + highlighted(text@, lower@, term_views(terms@), highlight_start@, highlight_end@, i as int)
                == highlighted(text@, lower@, term_views(terms@), highlight_start@, highlight_end@, 0),
        decreases n - i,
    {
        let m = term_len_at(lower, terms, i);
        proof {
            lemma_term_at_fits(lower@, term_views(terms@), i as int);
        }
        let ghost before = out@;
        if m > 0 {
            let mut k: usize = 0;
            while k < hs.len()
                invariant
                    k <= hs@.len(),
                    out@ == before + hs@.subrange(0, k as int),
                decreases hs@.len() - k,
            {
                out.push(hs[k]);
                assert(out@ =~= before + hs@.subrange(0, k + 1));
                k = k + 1;
            }
            let ghost mid = out@;
            let mut j: usize = i;
            while j < i + m
                invariant
                    i + m <= n,
                    n == text@.len(),
                    i <= j <= i + m,
                    out@ == mid + text@.subrange(i as int, j as int),
                decreases i + m - j,
            {
                out.push(text[j]);
                assert(out@ =~= mid + text@.subrange(i as int, j + 1));
                j = j + 1;
            }
            let ghost mid2 = out@;
            k = 0;
            while k < he.len()
                invariant
                    k <= he@.len(),
                    out@ == mid2 + he@.subrange(0, k as int),
                decreases he@.len() - k,
            {
                out.push(he[k]);
                assert(out@ =~= mid2 + he@.subrange(0, k + 1));
                k = k + 1;
            }
            assert(hs@.subrange(0, hs@.len() as int) =~= hs@);
            assert(he@.subrange(0, he@.len() as int) =~= he@);
            assert(out@ =~= before + (highlight_start@ + text@.subrange(i as int, i + m) + highlight_end@));
            i = i + m;
        } else {
            out.push(text[i]);
            assert(out@ =~= before + seq![text@[i as int]]);
            i = i + 1;
        }
    }
    crate::text::string_of(&out)
}

/// Highlights the whitespace-separated words of `query` in `text`,
/// compared without regard to case.  An empty query, or a text whose
/// lower-cased form differs in length, is returned unchanged.
pub fn highlight_matches(text: &str, query: &str, highlight_start: &str, highlight_end: &str) -> (r:
    String)
    ensures
        query@.len() == 0 || lower_of(text@).len() != text@.len() ==> r@ == text@,
        query@.len() > 0 && lower_of(text@).len() == text@.len() ==> r@ == highlighted(
            text@,
            lower_of(text@),
            words_of(query@).map_values(|w: Seq<char>| lower_of(w)),
            highlight_start@,
            highlight_end@,
            0,
        ),
{
    if query.unicode_len() == 0 {
        return text.to_string();
    }
    let lower_text = lowercase(text);
    let lower = chars_of(lower_text.as_str());
    let chars = chars_of(text);
    if lower.len() != chars.len() {
        return text.to_string();
    }
    let words = split_words(query);
    let lowered = lower_all(&words);
    let mut terms: Vec<Vec<char>> = Vec::new();
    let mut i: usize = 0;
    while i < lowered.len()
        invariant
            i <= lowered@.len(),
            terms@.len() == i,
            forall|k: int| 0 <= k < i ==> terms@[k]@ == lowered@[k]@,
        decreases lowered@.len() - i,
    {
        terms.push(chars_of(lowered[i].as_str()));
        i = i + 1;
    }
    assert(term_views(terms@) =~= lowered.deep_view());
    highlight_lowered(&chars, &lower, &terms, highlight_start, highlight_end)
}

/// A snippet of `text` around a match at index `pos` of a query of
/// `qlen` characters, with up to `ctx` characters of context on each side
/// and an ellipsis where text was cut.
pub open spec fn around(text: Seq<char>, pos: int, qlen: int, ctx: int) -> Seq<char> {
    let s = if pos - ctx > 0 { pos - ctx } else { 0 };
    let s = if s < text.len() { s } else { text.len() as int };
    let e = if pos + qlen + ctx < text.len() { pos + qlen + ctx } else { text.len() as int };
    let e = if e < s { s } else { e };
    (if s > 0 { "..."@ } else { Seq::<char>::empty() }) + text.subrange(s, e) + (if e < text.len() {
        "..."@
    } else {
        Seq::<char>::empty()
    })
}

/// The opening of `text` when nothing matches: twice the context length,
/// with an ellipsis, or all of a shorter text.
pub open spec fn opening(text: Seq<char>, ctx: int) -> Seq<char> {
    if text.len() > 2 * ctx {
        text.subrange(0, 2 * ctx) + "..."@
    } else {
        text
    }
}

/// `i` is the first index where `p` occurs in `s`.
pub open spec fn first_at(s: Seq<char>, p: Seq<char>, i: int) -> bool {
    occurs_at(s, p, i) && forall|j: int| 0 <= j < i ==> !occurs_at(s, p, j)
}

/// The snippet for a lower-cased text and query: context around the first
/// match, or the opening of the text.
pub fn snippet_lowered(text: &str, lower: &Vec<char>, query_lower: &Vec<char>, ctx: usize) -> (r:
    String)
    ensures
        (forall|i: int| !occurs_at(lower@, query_lower@, i)) ==> r@ == opening(text@, ctx as int),
        forall|i: int| first_at(lower@, query_lower@, i) ==> r@ == around(
            text@,
            i,
            query_lower@.len() as int,
            ctx as int,
        ),
{
    let n = text.unicode_len();
    match find_from(lower, query_lower, 0) {
        Some(pos) => {
            let s0: usize = if pos > ctx { pos - ctx } else { 0 };
            let s: usize = if s0 < n { s0 } else { n };
            let wide: u128 = pos as u128 + query_lower.len() as u128 + ctx as u128;
            let e0: usize = if wide < n as u128 { wide as usize } else { n };
            let e: usize = if e0 < s { s } else { e0 };
            let mut out = String::new();
            if s > 0 {
                out.append("...");
            }
            out.append(text.substring_char(s, e));
            if e < n {
                out.append("...");
            }
            proof {
                assert forall|i: int| first_at(lower@, query_lower@, i) implies i == pos by {
                    if i < pos {
                    } else if i > pos {
                    }
                }
            }
            out
        },
        None => {
            let double: usize = if ctx > usize::MAX / 2 { usize::MAX } else { ctx * 2 };
            if n > double {
                let mut out = text.substring_char(0, double).to_string();
                out.append("...");
                out
            } else {
                text.to_string()
            }
        },
    }
}

/// A snippet of `text` around the first case-insensitive match of `query`,
/// with `context_chars` characters of context on each side.
pub fn extract_snippet(text: &str, query: &str, context_chars: usize) -> (r: String)
    ensures
        (forall|i: int| !occurs_at(lower_of(text@), lower_of(query@), i)) ==> r@ == opening(
            text@,
            context_chars as int,
        ),
        forall|i: int|
            first_at(lower_of(text@), lower_of(query@), i) ==> r@ == around(
                text@,
                i,
                lower_of(query@).len() as int,
                context_chars as int,
            ),
{
    let lt = lowercase(text);
    let lq = lowercase(query);
    let lower = chars_of(lt.as_str());
    let query_lower = chars_of(lq.as_str());
    snippet_lowered(text, &lower, &query_lower, context_chars)
}

} // verus!
