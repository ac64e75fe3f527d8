//! The counting side of BM25 ranking: for each document, the term frequency and
//! document frequency of every query term that occurs in it, in query order.

use vstd::prelude::*;

verus! {

/// How often `term` occurs in `doc`.
pub open spec fn occurrences(doc: Seq<String>, term: Seq<char>) -> nat
    decreases doc.len(),
{
    if doc.len() == 0 {
        0
    } else {
        occurrences(doc.drop_last(), term) + if doc.last()@ == term {
            1nat
        } else {
            0nat
        }
    }
}

/// Whether `term` occurs in `doc`.
pub open spec fn contains_term(doc: Seq<String>, term: Seq<char>) -> bool {
    exists|k: int| 0 <= k < doc.len() && (#[trigger] doc[k])@ == term
}

/// How many of `docs` contain `term`.
pub open spec fn doc_frequency(docs: Seq<Vec<String>>, term: Seq<char>) -> nat
    decreases docs.len(),
{
    if docs.len() == 0 {
        0
    } else {
        doc_frequency(docs.drop_last(), term) + if contains_term(docs.last()@, term) {
            1nat
        } else {
            0nat
        }
    }
}

/// The statistics that one query term contributes to one document's score.
#[derive(Clone, Copy, Debug, PartialEq, Eq)]
pub struct TermMatch {
    /// Occurrences of the term in the document.
    pub term_frequency: usize,
    /// Documents of the batch that contain the term.
    pub document_frequency: usize,
}

/// The (term frequency, document frequency) pairs of the query terms that occur
/// in `doc`, in query order; a term repeated in the query appears once per repeat.
pub open spec fn doc_matches(query: Seq<String>, docs: Seq<Vec<String>>, doc: Seq<String>) -> Seq<
    (nat, nat),
>
    decreases query.len(),
{
    if query.len() == 0 {
        seq![]
    } else {
        let rest = doc_matches(query.drop_last(), docs, doc);
        let term = query.last()@;
        if occurrences(doc, term) > 0 {
            rest.push((occurrences(doc, term), doc_frequency(docs, term)))
        } else {
            rest
        }
    }
}

/// A match as the pair of its counts.
pub open spec fn match_view(m: TermMatch) -> (nat, nat) {
    (m.term_frequency as nat, m.document_frequency as nat)
}

/// `r` lists, for each document, its matches against the query.
pub open spec fn is_match_table(query: Seq<String>, docs: Seq<Vec<String>>, r: Seq<Vec<TermMatch>>) -> bool {
    &&& r.len() == docs.len()
    &&& forall|d: int|
        0 <= d < docs.len() ==> (#[trigger] r[d])@.map_values(|m: TermMatch| match_view(m))
            == doc_matches(query, docs, docs[d]@)
}

/// With no query terms the table has one empty list per document, so every
/// document scores zero.
pub proof fn lemma_empty_query_matches_nothing(
    query: Seq<String>,
    docs: Seq<Vec<String>>,
    r: Seq<Vec<TermMatch>>,
)
    requires
        query.len() == 0,
        is_match_table(query, docs, r),
    ensures
        r.len() == docs.len(),
        forall|d: int| 0 <= d < docs.len() ==> (#[trigger] r[d])@.len() == 0,
{
    assert forall|d: int| 0 <= d < docs.len() implies (#[trigger] r[d])@.len() == 0 by {
        assert(r[d]@.map_values(|m: TermMatch| match_view(m)).len() == r[d]@.len());
    }
}

/// An empty document matches no query term.
pub proof fn lemma_empty_document_matches_nothing(query: Seq<String>, docs: Seq<Vec<String>>)
    ensures
        doc_matches(query, docs, seq![]) == Seq::<(nat, nat)>::empty(),
    decreases query.len(),
{
    if query.len() > 0 {
        lemma_empty_document_matches_nothing(query.drop_last(), docs);
    }
}

/// A term that every document contains has the batch size as its document
/// frequency.
pub proof fn lemma_term_in_every_document(docs: Seq<Vec<String>>, term: Seq<char>)
    requires
        forall|d: int| 0 <= d < docs.len() ==> contains_term(#[trigger] docs[d]@, term),
    ensures
        doc_frequency(docs, term) == docs.len(),
    decreases docs.len(),
{
    if docs.len() > 0 {
        let rest = docs.drop_last();
        assert forall|d: int| 0 <= d < rest.len() implies contains_term(#[trigger] rest[d]@, term) by {
            assert(rest[d] == docs[d]);
        }
        lemma_term_in_every_document(rest, term);
        assert(contains_term(docs[docs.len() - 1]@, term));
    }
}

/// How often `term` occurs in `doc`.
pub fn term_frequency(doc: &Vec<String>, term: &String) -> (r: usize)
    ensures
        r == occurrences(doc@, term@),
{
    let mut count: usize = 0;
    let mut i: usize = 0;
    while i < doc.len()
        invariant
            i <= doc.len(),
            count <= i,
            count == occurrences(doc@.take(i as int), term@),
        decreases doc.len() - i,
    {
        assert(doc@.take(i + 1).drop_last() =~= doc@.take(i as int));
        if doc[i] == *term {
            count += 1;
        }
        i += 1;
    }
    assert(doc@.take(doc.len() as int) =~= doc@);
    count
}

/// Whether `term` occurs in `doc`.
pub fn has_term(doc: &Vec<String>, term: &String) -> (r: bool)
    ensures
        r == contains_term(doc@, term@),
{
    let mut i: usize = 0;
    while i < doc.len()
        invariant
            i <= doc.len(),
            forall|k: int| 0 <= k < i ==> (#[trigger] doc@[k])@ != term@,
        decreases doc.len() - i,
    {
        if doc[i] == *term {
            return true;
        }
        i += 1;
    }
    false
}

/// How many of `docs` contain `term`.
pub fn document_frequency(docs: &Vec<Vec<String>>, term: &String) -> (r: usize)
    ensures
        r == doc_frequency(docs@, term@),
{
    let mut count: usize = 0;
    let mut i: usize = 0;
    while i < docs.len()
        invariant
            i <= docs.len(),
            count <= i,
            count == doc_frequency(docs@.take(i as int), term@),
        decreases docs.len() - i,
    {
        assert(docs@.take(i + 1).drop_last() =~= docs@.take(i as int));
        if has_term(&docs[i], term) {
            count += 1;
        }
        i += 1;
    }
    assert(docs@.take(docs.len() as int) =~= docs@);
    count
}

/// For each document, the term and document frequency of each query term that
/// occurs in it, in query order. An empty query, or an empty batch, gives an
/// empty list for every document; so does an empty document.
pub fn bm25_term_matches(query_terms: &Vec<String>, documents: &Vec<Vec<String>>) -> (r: Vec<
    Vec<TermMatch>,
>)
    ensures
        is_match_table(query_terms@, documents@, r@),
{
    let mut table: Vec<Vec<TermMatch>> = Vec::new();
    if query_terms.len() == 0 || documents.len() == 0 {
        let mut d: usize = 0;
        while d < documents.len()
            invariant
                query_terms.len() == 0 || documents.len() == 0,
                d <= documents.len(),
                table.len() == d,
                forall|k: int| 0 <= k < d ==> (#[trigger] table@[k])@.len() == 0,
            decreases documents.len() - d,
        {
            table.push(Vec::new());
            d += 1;
        }
        assert forall|k: int| 0 <= k < documents.len() implies (#[trigger] table@[k])@.map_values(
            |m: TermMatch| match_view(m),
        ) == doc_matches(query_terms@, documents@, documents@[k]@) by {
            assert(table@[k]@.map_values(|m: TermMatch| match_view(m)) =~= seq![]);
        }
        return table;
    }
    let mut dfs: Vec<usize> = Vec::new();
    let mut q: usize = 0;
    while q < query_terms.len()
        invariant
            q <= query_terms.len(),
            dfs.len() == q,
            forall|k: int|
                0 <= k < q ==> #[trigger] dfs@[k] == doc_frequency(documents@, query_terms@[k]@),
        decreases query_terms.len() - q,
    {
        dfs.push(document_frequency(documents, &query_terms[q]));
        q += 1;
    }
    let mut d: usize = 0;
    while d < documents.len()
        invariant
            d <= documents.len(),
            dfs.len() == query_terms.len(),
            forall|k: int|
                0 <= k < query_terms.len() ==> #[trigger] dfs@[k] == doc_frequency(
                    documents@,
                    query_terms@[k]@,
                ),
            table.len() == d,
            forall|k: int|
                0 <= k < d ==> (#[trigger] table@[k])@.map_values(|m: TermMatch| match_view(m))
                    == doc_matches(query_terms@, documents@, documents@[k]@),
        decreases documents.len() - d,
    {
        let doc = &documents[d];
        let mut row: Vec<TermMatch> = Vec::new();
        let mut q: usize = 0;
        while q < query_terms.len()
            invariant
                q <= query_terms.len(),
                d < documents.len(),
                doc == documents@[d as int],
                dfs.len() == query_terms.len(),
                forall|k: int|
                    0 <= k < query_terms.len() ==> #[trigger] dfs@[k] == doc_frequency(
                        documents@,
                        query_terms@[k]@,
                    ),
                row@.map_values(|m: TermMatch| match_view(m)) == doc_matches(
                    query_terms@.take(q as int),
                    documents@,
                    doc@,
                ),
            decreases query_terms.len() - q,
        {
            assert(query_terms@.take(q + 1).drop_last() =~= query_terms@.take(q as int));
            let tf = term_frequency(doc, &query_terms[q]);
            if tf > 0 {
                let ghost before = row@;
                row.push(TermMatch { term_frequency: tf, document_frequency: dfs[q] });
                assert(row@ == before.push(TermMatch { term_frequency: tf, document_frequency: dfs[q as int] }));
                assert(row@.map_values(|m: TermMatch| match_view(m)) =~= before.map_values(
                    |m: TermMatch| match_view(m),
                ).push(match_view(row@[before.len() as int])));
            }
            q += 1;
        }
        assert(query_terms@.take(query_terms.len() as int) =~= query_terms@);
        table.push(row);
        d += 1;
    }
    table
}

} // verus!
