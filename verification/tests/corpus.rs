use fuzz_engine::corpus::CorpusStore;

#[test]
fn a_new_corpus_is_empty() {
    let corpus = CorpusStore::new();
    assert_eq!(corpus.len(), 0);
    assert!(corpus.is_empty());
    assert_eq!(corpus.input(0), None);
    assert_eq!(corpus.signature(0), None);
}

#[test]
fn add_returns_the_place_of_the_entry() {
    let mut corpus = CorpusStore::new();
    assert_eq!(corpus.add(vec![1], vec![1, 0]), 0);
    assert_eq!(corpus.add(vec![2, 2], vec![0, 1]), 1);
    assert_eq!(corpus.add(vec![], vec![1, 1]), 2);
    assert_eq!(corpus.len(), 3);
    assert!(!corpus.is_empty());
}

#[test]
fn entries_come_back_as_they_were_added() {
    let mut corpus = CorpusStore::new();
    corpus.add(vec![1, 2, 3], vec![1, 0]);
    corpus.add(vec![4, 5], vec![0, 7]);
    assert_eq!(corpus.input(0), Some(vec![1, 2, 3]));
    assert_eq!(corpus.signature(0), Some(vec![1, 0]));
    assert_eq!(corpus.input(1), Some(vec![4, 5]));
    assert_eq!(corpus.signature(1), Some(vec![0, 7]));
    assert_eq!(corpus.input(2), None);
    assert_eq!(corpus.signature(2), None);
}

#[test]
fn adding_leaves_the_older_entries_as_they_are() {
    let mut corpus = CorpusStore::new();
    corpus.add(vec![0xaa], vec![1]);
    for round in 0..50u8 {
        corpus.add(vec![round, round], vec![round]);
        assert_eq!(corpus.input(0), Some(vec![0xaa]));
        assert_eq!(corpus.signature(0), Some(vec![1]));
    }
    assert_eq!(corpus.len(), 51);
    assert_eq!(corpus.input(50), Some(vec![49, 49]));
}

#[test]
fn the_same_input_can_be_kept_twice() {
    let mut corpus = CorpusStore::new();
    corpus.add(vec![1], vec![1, 0]);
    corpus.add(vec![1], vec![0, 1]);
    assert_eq!(corpus.len(), 2);
    assert_eq!(corpus.input(0), corpus.input(1));
    assert_ne!(corpus.signature(0), corpus.signature(1));
}

#[test]
fn a_copy_taken_from_the_corpus_does_not_reach_the_stored_input() {
    let mut corpus = CorpusStore::new();
    corpus.add(vec![1, 2, 3], vec![1]);
    let mut copy = corpus.input(0).unwrap();
    copy[0] = 99;
    copy.push(4);
    assert_eq!(corpus.input(0), Some(vec![1, 2, 3]));
}
