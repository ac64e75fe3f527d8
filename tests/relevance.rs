use engram_accel::relevance::{bm25_term_matches, document_frequency, has_term, term_frequency, TermMatch};

fn words(ws: &[&str]) -> Vec<String> {
    ws.iter().map(|w| w.to_string()).collect()
}

fn m(tf: usize, df: usize) -> TermMatch {
    TermMatch { term_frequency: tf, document_frequency: df }
}

#[test]
fn term_frequency_counts_occurrences() {
    let doc = words(&["a", "b", "a", "c", "a"]);
    assert_eq!(term_frequency(&doc, &"a".to_string()), 3);
    assert_eq!(term_frequency(&doc, &"c".to_string()), 1);
    assert_eq!(term_frequency(&doc, &"z".to_string()), 0);
    assert_eq!(term_frequency(&Vec::new(), &"a".to_string()), 0);
}

#[test]
fn has_term_finds_term() {
    let doc = words(&["x", "y"]);
    assert!(has_term(&doc, &"y".to_string()));
    assert!(!has_term(&doc, &"z".to_string()));
}

#[test]
fn document_frequency_counts_documents() {
    let docs = vec![words(&["a", "a"]), words(&["b"]), words(&["a", "b"]), vec![]];
    assert_eq!(document_frequency(&docs, &"a".to_string()), 2);
    assert_eq!(document_frequency(&docs, &"b".to_string()), 2);
    assert_eq!(document_frequency(&docs, &"c".to_string()), 0);
}

#[test]
fn matches_in_query_order() {
    let query = words(&["cat", "dog", "fish"]);
    let docs = vec![words(&["dog", "cat", "dog"]), words(&["fish"]), vec![]];
    let table = bm25_term_matches(&query, &docs);
    assert_eq!(table, vec![vec![m(1, 1), m(2, 1)], vec![m(1, 1)], vec![]]);
}

#[test]
fn repeated_query_term_counts_twice() {
    let query = words(&["a", "a"]);
    let docs = vec![words(&["a", "b"]), words(&["b"])];
    let table = bm25_term_matches(&query, &docs);
    assert_eq!(table, vec![vec![m(1, 1), m(1, 1)], vec![]]);
}

#[test]
fn empty_query_gives_empty_rows() {
    let docs = vec![words(&["a"]), words(&["b", "c"]), vec![]];
    let table = bm25_term_matches(&Vec::new(), &docs);
    assert_eq!(table.len(), 3);
    assert!(table.iter().all(|row| row.is_empty()));
}

#[test]
fn empty_batch_gives_empty_table() {
    let table = bm25_term_matches(&words(&["a"]), &Vec::new());
    assert!(table.is_empty());
}

#[test]
fn term_in_every_document_has_full_frequency() {
    let query = words(&["t"]);
    let docs = vec![words(&["t", "t", "t"]), words(&["t"]), words(&["t", "t"])];
    let table = bm25_term_matches(&query, &docs);
    assert_eq!(table, vec![vec![m(3, 3)], vec![m(1, 3)], vec![m(2, 3)]]);
}
