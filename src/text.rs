//! Splitting free text into lowercase terms: maximal runs of alphanumeric
//! characters and underscores.

use vstd::prelude::*;

verus! {

/// What `str::to_lowercase` makes of a string.
pub uninterp spec fn lowercase_of(s: Seq<char>) -> Seq<char>;

/// What `char::is_alphanumeric` says of a character.
pub uninterp spec fn alphanumeric(c: char) -> bool;

/// Relies on `str::to_lowercase`: the lowercase form of the string, which
/// depends on its characters alone; an empty string stays empty.
pub assume_specification[ str::to_lowercase ](s: &str) -> (r: String)
    ensures
        r@ == lowercase_of(s@),
        s@.len() == 0 ==> r@.len() == 0,
;

/// Relies on `char::is_alphanumeric`: whether the character is alphabetic or
/// numeric in Unicode's terms, a property of the character alone.
pub assume_specification[ char::is_alphanumeric ](c: char) -> (r: bool)
    ensures
        r == alphanumeric(c),
;

/// Relies on `String::push`: appends the character to the end of the string.
pub assume_specification[ String::push ](s: &mut String, ch: char)
    ensures
        final(s)@ == old(s)@.push(ch),
;

/// Characters that belong to a term.
pub open spec fn is_word_char(c: char) -> bool {
    alphanumeric(c) || c == '_'
}

/// The finished terms and the term in progress after reading `s` from left to
/// right.
pub open spec fn scan(s: Seq<char>) -> (Seq<Seq<char>>, Seq<char>)
    decreases s.len(),
{
    if s.len() == 0 {
        (seq![], seq![])
    } else {
        let (done, cur) = scan(s.drop_last());
        let c = s.last();
        if is_word_char(c) {
            (done, cur.push(c))
        } else if cur.len() > 0 {
            (done.push(cur), seq![])
        } else {
            (done, cur)
        }
    }
}

/// The maximal runs of term characters in `s`, in order.
pub open spec fn words(s: Seq<char>) -> Seq<Seq<char>> {
    let (done, cur) = scan(s);
    if cur.len() > 0 {
        done.push(cur)
    } else {
        done
    }
}

/// A well-formed term: non-empty and made of term characters only.
pub open spec fn is_term(w: Seq<char>) -> bool {
    &&& w.len() > 0
    &&& forall|j: int| 0 <= j < w.len() ==> is_word_char(#[trigger] w[j])
}

proof fn lemma_scan_terms(s: Seq<char>)
    ensures
        forall|i: int| 0 <= i < scan(s).0.len() ==> is_term(#[trigger] scan(s).0[i]),
        forall|j: int| 0 <= j < scan(s).1.len() ==> is_word_char(#[trigger] scan(s).1[j]),
    decreases s.len(),
{
    if s.len() > 0 {
        lemma_scan_terms(s.drop_last());
        let (done, cur) = scan(s.drop_last());
        let c = s.last();
        if is_word_char(c) {
            assert forall|j: int| 0 <= j < cur.push(c).len() implies is_word_char(
                #[trigger] cur.push(c)[j],
            ) by {
                if j < cur.len() {
                    assert(cur.push(c)[j] == cur[j]);
                }
            }
        } else if cur.len() > 0 {
            assert forall|i: int| 0 <= i < done.push(cur).len() implies is_term(
                #[trigger] done.push(cur)[i],
            ) by {
                if i < done.len() {
                    assert(done.push(cur)[i] == done[i]);
                }
            }
        }
    }
}

/// Every term of `words(s)` is non-empty and made of alphanumeric characters
/// and underscores only.
pub proof fn lemma_words_are_terms(s: Seq<char>)
    ensures
        forall|i: int| 0 <= i < words(s).len() ==> is_term(#[trigger] words(s)[i]),
{
    lemma_scan_terms(s);
    let (done, cur) = scan(s);
    if cur.len() > 0 {
        assert forall|i: int| 0 <= i < done.push(cur).len() implies is_term(
            #[trigger] done.push(cur)[i],
        ) by {
            if i < done.len() {
                assert(done.push(cur)[i] == done[i]);
            }
        }
    }
}

/// The views of a sequence of strings.
pub open spec fn string_views(v: Seq<String>) -> Seq<Seq<char>> {
    v.map_values(|t: String| t@)
}

/// Lowercases `text` and splits it into its maximal runs of alphanumeric
/// characters and underscores; everything else separates terms and is dropped.
pub fn tokenize(text: &str) -> (r: Vec<String>)
    ensures
        string_views(r@) == words(lowercase_of(text@)),
        text@.len() == 0 ==> r@.len() == 0,
{
    broadcast use vstd::string::axiom_spec_iter;

    let lower = text.to_lowercase();
    let ghost chars = lower@;
    let mut tokens: Vec<String> = Vec::new();
    let mut current = String::new();
    for ch in it: lower.as_str().chars()
        invariant
            it.seq() == chars,
            string_views(tokens@) == scan(chars.take(it.index())).0,
            current@ == scan(chars.take(it.index())).1,
    {
        assert(chars.take(it.index() + 1).drop_last() =~= chars.take(it.index()));
        if ch.is_alphanumeric() || ch == '_' {
            current.push(ch);
        } else if !current.as_str().is_empty() {
            let ghost before = tokens@;
            tokens.push(current);
            current = String::new();
            assert(string_views(tokens@) =~= string_views(before).push(tokens@[before.len() as int]@));
        }
    }
    assert(chars.take(chars.len() as int) =~= chars);
    if !current.as_str().is_empty() {
        let ghost before = tokens@;
        tokens.push(current);
        assert(string_views(tokens@) =~= string_views(before).push(tokens@[before.len() as int]@));
    }
    tokens
}

} // verus!
