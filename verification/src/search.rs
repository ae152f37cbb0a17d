//! Full-text search over the discussion history: the FTS5 query built from
//! free text, the choice between listing and searching, and the
//! case-insensitive term scan used when the index is unavailable.
use vstd::prelude::*;

use crate::text::{
    chars_of, contains_chars, extend_chars, lowercase_of, occurs_in, seqs_of, split_words,
    string_of, to_lowercase, trim_str, trimmed, words, is_ws, scan_words, lemma_words_shape,
};

verus! {

/// `w` with every `"` doubled (FTS5 string escaping).
pub open spec fn escaped(w: Seq<char>) -> Seq<char>
    decreases w.len(),
{
    if w.len() == 0 {
        seq![]
    } else {
        escaped(w.drop_last()) + (if w.last() == '"' {
            seq!['"', '"']
        } else {
            seq![w.last()]
        })
    }
}

/// One FTS5 prefix term: `"word"*`.
pub open spec fn fts_term(w: Seq<char>) -> Seq<char> {
    seq!['"'] + escaped(w) + seq!['"', '*']
}

/// The terms of `ws`, joined by single spaces.
pub open spec fn fts_terms(ws: Seq<Seq<char>>) -> Seq<char>
    decreases ws.len(),
{
    if ws.len() == 0 {
        seq![]
    } else if ws.len() == 1 {
        fts_term(ws[0])
    } else {
        fts_terms(ws.drop_last()) + seq![' '] + fts_term(ws.last())
    }
}

/// Appends the FTS5 term of `w`.
fn push_term(out: &mut Vec<char>, w: &Vec<char>)
    ensures
        final(out)@ == old(out)@ + fts_term(w@),
{
    out.push('"');
    let ghost base = out@;
    let mut k: usize = 0;
    while k < w.len()
        invariant
            k <= w.len(),
            out@ == base + escaped(w@.take(k as int)),
        decreases w.len() - k,
    {
        let c = w[k];
        proof {
            assert(w@.take(k + 1).drop_last() =~= w@.take(k as int));
            assert(w@.take(k + 1).last() == c);
        }
        if c == '"' {
            out.push('"');
            out.push('"');
        } else {
            out.push(c);
        }
        proof {
            assert(out@ =~= base + escaped(w@.take(k + 1)));
        }
        k += 1;
    }
    proof {
        assert(w@.take(w.len() as int) =~= w@);
    }
    out.push('"');
    out.push('*');
    proof {
        assert(out@ =~= old(out)@ + fts_term(w@));
    }
}

/// FTS5 query from free text: every term becomes a quoted prefix match, all
/// terms required (`"auto"* "prod"*`). Empty when the text has no term.
pub fn fts_query(text: &str) -> (r: String)
    ensures
        r@ == fts_terms(words(text@)),
{
    let v = chars_of(text);
    let ws = split_words(&v);
    let mut out: Vec<char> = Vec::new();
    let mut i: usize = 0;
    while i < ws.len()
        invariant
            i <= ws.len(),
            out@ == fts_terms(seqs_of(ws@).take(i as int)),
        decreases ws.len() - i,
    {
        let ghost all = seqs_of(ws@);
        proof {
            assert(all.take(i + 1).drop_last() =~= all.take(i as int));
            assert(all.take(i + 1).last() == ws@[i as int]@);
            if i == 0 {
                assert(all.take(1)[0] == ws@[0]@);
            }
        }
        if i > 0 {
            out.push(' ');
        }
        push_term(&mut out, &ws[i]);
        proof {
            assert(out@ =~= fts_terms(all.take(i + 1)));
        }
        i += 1;
    }
    proof {
        assert(seqs_of(ws@).take(ws.len() as int) =~= seqs_of(ws@));
    }
    string_of(&out)
}

/// What a history search runs: `None` lists every discussion (blank query),
/// `Some(q)` searches the trimmed query `q`.
pub fn search_terms(query: &str) -> (r: Option<String>)
    ensures
        r is None <==> trimmed(query@).len() == 0,
        r matches Some(q) ==> q@ == trimmed(query@),
{
    let q = trim_str(query);
    if q.as_str().is_empty() {
        None
    } else {
        Some(q)
    }
}

/// The text the fallback scan searches: topic, synthesis and messages, lower-cased.
pub open spec fn scan_haystack(topic: Seq<char>, synthesis: Seq<char>, messages: Seq<char>) -> Seq<char> {
    lowercase_of(topic + seq![' '] + synthesis + seq![' '] + messages)
}

/// The fallback scan keeps a discussion when every term of the query, lower-cased,
/// occurs in its lower-cased topic, synthesis and messages.
pub open spec fn scan_keeps(topic: Seq<char>, synthesis: Seq<char>, messages: Seq<char>, query: Seq<char>) -> bool {
    forall|k: int|
        0 <= k < words(query).len() ==> occurs_in(
            scan_haystack(topic, synthesis, messages),
            #[trigger] lowercase_of(words(query)[k]),
        )
}

/// The lower-cased terms of a query.
pub fn scan_terms(query: &str) -> (r: Vec<Vec<char>>)
    ensures
        r@.len() == words(query@).len(),
        forall|k: int| 0 <= k < r@.len() ==> #[trigger] r@[k]@ == lowercase_of(words(query@)[k]),
{
    let v = chars_of(query);
    let ws = split_words(&v);
    let mut terms: Vec<Vec<char>> = Vec::new();
    let mut i: usize = 0;
    while i < ws.len()
        invariant
            i <= ws.len(),
            seqs_of(ws@) == words(query@),
            terms@.len() == i,
            forall|k: int| 0 <= k < i ==> #[trigger] terms@[k]@ == lowercase_of(words(query@)[k]),
        decreases ws.len() - i,
    {
        let w = string_of(&ws[i]);
        let l = to_lowercase(w.as_str());
        proof {
            assert(seqs_of(ws@)[i as int] == ws@[i as int]@);
        }
        terms.push(chars_of(l.as_str()));
        i += 1;
    }
    terms
}

/// Whether the fallback scan keeps a discussion for the lower-cased `terms`
/// of a query (`scan_terms`).
pub fn scan_matches(topic: &str, synthesis: &str, messages: &str, terms: &Vec<Vec<char>>) -> (r: bool)
    ensures
        r == forall|k: int|
            0 <= k < terms@.len() ==> occurs_in(
                scan_haystack(topic@, synthesis@, messages@),
                #[trigger] terms@[k]@,
            ),
{
    let mut joined = chars_of(topic);
    joined.push(' ');
    extend_chars(&mut joined, &chars_of(synthesis));
    joined.push(' ');
    extend_chars(&mut joined, &chars_of(messages));
    proof {
        assert(joined@ =~= topic@ + seq![' '] + synthesis@ + seq![' '] + messages@);
    }
    let joined = string_of(&joined);
    let hay = chars_of(to_lowercase(joined.as_str()).as_str());
    let mut i: usize = 0;
    while i < terms.len()
        invariant
            i <= terms.len(),
            hay@ == scan_haystack(topic@, synthesis@, messages@),
            forall|k: int| 0 <= k < i ==> occurs_in(hay@, #[trigger] terms@[k]@),
        decreases terms.len() - i,
    {
        if !contains_chars(&hay, &terms[i]) {
            return false;
        }
        i += 1;
    }
    true
}

/// Case-insensitive scan of one discussion: every term of `query` must occur
/// in its topic, synthesis or messages (the `LIKE` fallback of the search).
pub fn scan_keeps_discussion(topic: &str, synthesis: &str, messages: &str, query: &str) -> (r: bool)
    ensures
        r == scan_keeps(topic@, synthesis@, messages@, query@),
{
    let terms = scan_terms(query);
    let r = scan_matches(topic, synthesis, messages, &terms);
    proof {
        let h = scan_haystack(topic@, synthesis@, messages@);
        if r {
            assert forall|k: int| 0 <= k < words(query@).len() implies occurs_in(
                h,
                #[trigger] lowercase_of(words(query@)[k]),
            ) by {
                assert(terms@[k]@ == lowercase_of(words(query@)[k]));
            }
        } else {
            let k = choose|k: int| 0 <= k < terms@.len() && !occurs_in(h, #[trigger] terms@[k]@);
            assert(terms@[k]@ == lowercase_of(words(query@)[k]));
        }
    }
    r
}

/// A non-empty text without whitespace is a single word.
proof fn lemma_single_word(w: Seq<char>)
    requires
        w.len() > 0,
        forall|i: int| 0 <= i < w.len() ==> !is_ws(#[trigger] w[i]),
    ensures
        words(w) == seq![w],
{
    lemma_scan_unbroken(w);
    assert(seq![w] =~= Seq::<Seq<char>>::empty().push(w));
}

/// Scanning a text without whitespace finds no finished word, only the text.
proof fn lemma_scan_unbroken(w: Seq<char>)
    requires
        forall|i: int| 0 <= i < w.len() ==> !is_ws(#[trigger] w[i]),
    ensures
        scan_words(w) == (Seq::<Seq<char>>::empty(), w),
    decreases w.len(),
{
    if w.len() > 0 {
        let p = w.drop_last();
        assert forall|i: int| 0 <= i < p.len() implies !is_ws(#[trigger] p[i]) by {
            assert(p[i] == w[i]);
        }
        lemma_scan_unbroken(p);
        assert(!is_ws(w[w.len() - 1]));
        assert(p.push(w.last()) =~= w);
    }
}

/// The fallback scan requires every word: a query with a word that, lower-cased,
/// occurs nowhere in the lower-cased topic, synthesis and messages is rejected.
pub proof fn law_scan_rejects_missing_word(
    topic: Seq<char>,
    synthesis: Seq<char>,
    messages: Seq<char>,
    query: Seq<char>,
    k: int,
)
    requires
        0 <= k < words(query).len(),
        !occurs_in(scan_haystack(topic, synthesis, messages), lowercase_of(words(query)[k])),
    ensures
        !scan_keeps(topic, synthesis, messages, query),
{
}

/// A discussion is kept for a query exactly when it is kept for each word of
/// the query searched alone.
pub proof fn law_scan_word_by_word(topic: Seq<char>, synthesis: Seq<char>, messages: Seq<char>, query: Seq<char>)
    ensures
        scan_keeps(topic, synthesis, messages, query) == forall|k: int|
            0 <= k < words(query).len() ==> scan_keeps(topic, synthesis, messages, #[trigger] words(query)[k]),
{
    lemma_words_shape(query);
    let ws = words(query);
    let h = scan_haystack(topic, synthesis, messages);
    assert forall|k: int| 0 <= k < ws.len() implies scan_keeps(topic, synthesis, messages, #[trigger] ws[k])
        == occurs_in(h, lowercase_of(ws[k])) by {
        assert(ws[k].len() > 0);
        lemma_single_word(ws[k]);
        assert(words(ws[k])[0] == ws[k]);
        if occurs_in(h, lowercase_of(ws[k])) {
            assert forall|q: int| 0 <= q < words(ws[k]).len() implies occurs_in(
                h,
                #[trigger] lowercase_of(words(ws[k])[q]),
            ) by {
                assert(q == 0);
            }
        } else {
            assert(!occurs_in(h, lowercase_of(words(ws[k])[0])));
        }
    }
    if scan_keeps(topic, synthesis, messages, query) {
        assert forall|k: int| 0 <= k < ws.len() implies scan_keeps(topic, synthesis, messages, #[trigger] ws[k]) by {
            assert(occurs_in(h, lowercase_of(ws[k])));
        }
    } else {
        let k = choose|k: int| 0 <= k < ws.len() && !occurs_in(h, #[trigger] lowercase_of(ws[k]));
        assert(!scan_keeps(topic, synthesis, messages, ws[k]));
    }
}

} // verus!
