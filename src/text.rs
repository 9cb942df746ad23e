//! Whitespace tokenizing of message text, stated over `Seq<char>`.
use vstd::prelude::*;

verus! {

/// The characters with the Unicode `White_Space` property, as `char::is_whitespace` documents.
pub open spec fn is_white_space(c: char) -> bool {
    ('\u{9}' <= c && c <= '\u{d}') || c == ' ' || c == '\u{85}' || c == '\u{a0}' || c == '\u{1680}'
        || ('\u{2000}' <= c && c <= '\u{200a}') || c == '\u{2028}' || c == '\u{2029}'
        || c == '\u{202f}' || c == '\u{205f}' || c == '\u{3000}'
}

pub fn is_white_space_char(c: char) -> (r: bool)
    ensures
        r == is_white_space(c),
{
    ('\u{9}' <= c && c <= '\u{d}') || c == ' ' || c == '\u{85}' || c == '\u{a0}' || c == '\u{1680}'
        || ('\u{2000}' <= c && c <= '\u{200a}') || c == '\u{2028}' || c == '\u{2029}'
        || c == '\u{202f}' || c == '\u{205f}' || c == '\u{3000}'
}

/// The spans `(start, end)` of the maximal runs of non-whitespace characters among the
/// first `n` characters of `s`, in order.
pub open spec fn spans_upto(s: Seq<char>, n: int) -> Seq<(int, int)>
    decreases n,
{
    if n <= 0 {
        Seq::empty()
    } else {
        let prev = spans_upto(s, n - 1);
        if is_white_space(s[n - 1]) {
            prev
        } else if n >= 2 && !is_white_space(s[n - 2]) && prev.len() > 0 {
            prev.update(prev.len() - 1, (prev.last().0, n))
        } else {
            prev.push((n - 1, n))
        }
    }
}

pub open spec fn token_spans(s: Seq<char>) -> Seq<(int, int)> {
    spans_upto(s, s.len() as int)
}

/// The whitespace-separated words of `s`.
pub open spec fn words(s: Seq<char>) -> Seq<Seq<char>> {
    token_spans(s).map_values(|p: (int, int)| s.subrange(p.0, p.1))
}

/// The words joined with one space between each two.
pub open spec fn join_words(w: Seq<Seq<char>>) -> Seq<char>
    decreases w.len(),
{
    if w.len() == 0 {
        Seq::empty()
    } else if w.len() == 1 {
        w[0]
    } else {
        join_words(w.drop_last()) + seq![' '] + w.last()
    }
}

/// Each span is a non-empty range inside the first `n` characters, spans ascend, and the
/// last span ends at `n` exactly when the character before `n` is not whitespace.
pub proof fn lemma_spans_shape(s: Seq<char>, n: int)
    requires
        0 <= n <= s.len(),
    ensures
        ({
            let sp = spans_upto(s, n);
            &&& forall|k: int| 0 <= k < sp.len() ==> 0 <= #[trigger] sp[k].0 < sp[k].1 <= n
            &&& forall|k: int| 0 <= k < sp.len() - 1 ==> #[trigger] sp[k].1 < sp[k + 1].0
            &&& (n > 0 && !is_white_space(s[n - 1])) ==> (sp.len() > 0 && sp.last().1 == n)
            &&& (sp.len() > 0 && sp.last().1 == n) ==> (n > 0 && !is_white_space(s[n - 1]))
        }),
    decreases n,
{
    if n > 0 {
        lemma_spans_shape(s, n - 1);
    }
}

/// The spans of the words of `s`, computed in one pass.
pub fn word_spans(s: &str) -> (r: Vec<(usize, usize)>)
    ensures
        r@.len() == token_spans(s@).len(),
        forall|k: int|
            0 <= k < r@.len() ==> (#[trigger] r@[k]).0 as int == token_spans(s@)[k].0
                && r@[k].1 as int == token_spans(s@)[k].1,
{
    let n = s.unicode_len();
    let mut r: Vec<(usize, usize)> = Vec::new();
    let mut i: usize = 0;
    let mut in_word = false;
    while i < n
        invariant
            n == s@.len(),
            0 <= i <= n,
            r@.len() == spans_upto(s@, i as int).len(),
            forall|k: int|
                0 <= k < r@.len() ==> (#[trigger] r@[k]).0 as int == spans_upto(s@, i as int)[k].0
                    && r@[k].1 as int == spans_upto(s@, i as int)[k].1,
            in_word == (i > 0 && !is_white_space(s@[i - 1])),
        decreases n - i,
    {
        proof {
            lemma_spans_shape(s@, i as int);
        }
        let c = s.get_char(i);
        if is_white_space_char(c) {
            in_word = false;
        } else if in_word {
            let last = r.len() - 1;
            let start = r[last].0;
            r.set(last, (start, i + 1));
        } else {
            r.push((i, i + 1));
            in_word = true;
        }
        i = i + 1;
    }
    r
}

/// The words of `s` from index `from` on, joined with single spaces; `spans` are the
/// spans of the words of `s`.
pub fn join_words_from(s: &str, spans: &Vec<(usize, usize)>, from: usize) -> (r: String)
    requires
        spans@.len() == token_spans(s@).len(),
        forall|k: int|
            0 <= k < spans@.len() ==> (#[trigger] spans@[k]).0 as int == token_spans(s@)[k].0
                && spans@[k].1 as int == token_spans(s@)[k].1,
        from <= spans@.len(),
    ensures
        r@ == join_words(words(s@).subrange(from as int, words(s@).len() as int)),
{
    proof {
        lemma_spans_shape(s@, s@.len() as int);
    }
    let ghost w = words(s@);
    let mut r = String::new();
    let mut k: usize = from;
    while k < spans.len()
        invariant
            spans@.len() == token_spans(s@).len() == w.len(),
            w == words(s@),
            forall|j: int|
                0 <= j < spans@.len() ==> (#[trigger] spans@[j]).0 as int == token_spans(s@)[j].0
                    && spans@[j].1 as int == token_spans(s@)[j].1,
            forall|j: int|
                0 <= j < token_spans(s@).len() ==> 0 <= #[trigger] token_spans(s@)[j].0
                    < token_spans(s@)[j].1 <= s@.len(),
            from <= k <= spans@.len(),
            r@ == join_words(w.subrange(from as int, k as int)),
        decreases spans@.len() - k,
    {
        let (a, b) = spans[k];
        let part = s.substring_char(a, b);
        if k > from {
            r.append(" ");
            proof {
                reveal_strlit(" ");
            }
        }
        r.append(part);
        proof {
            let ws = w.subrange(from as int, k as int + 1);
            assert(ws.drop_last() =~= w.subrange(from as int, k as int));
            assert(ws.last() == w[k as int]);
            if k == from {
                assert(ws.len() == 1);
                assert(r@ =~= ws[0]);
            } else {
                assert(r@ =~= join_words(ws.drop_last()) + seq![' '] + ws.last());
            }
        }
        k = k + 1;
    }
    r
}

} // verus!
