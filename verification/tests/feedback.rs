use fuzz_engine::feedback::CoverageHistory;

#[test]
fn a_new_history_has_seen_nothing() {
    let history = CoverageHistory::new(4);
    assert_eq!(history.size(), 4);
    for location in 0..4 {
        assert_eq!(history.count_at(location), Some(0));
    }
    assert_eq!(history.count_at(4), None);
}

#[test]
fn a_cleared_snapshot_is_not_interesting() {
    let mut history = CoverageHistory::new(4);
    assert!(!history.is_interesting(&vec![0, 0, 0, 0]));
    assert!(!history.absorb(&vec![0, 0, 0, 0]));
}

#[test]
fn a_newly_touched_location_is_interesting() {
    let mut history = CoverageHistory::new(4);
    assert!(history.is_interesting(&vec![0, 0, 1, 0]));
    assert!(history.absorb(&vec![0, 0, 1, 0]));
    assert_eq!(history.count_at(2), Some(1));
}

#[test]
fn the_same_snapshot_is_interesting_only_once() {
    let mut history = CoverageHistory::new(4);
    assert!(history.absorb(&vec![1, 0, 2, 0]));
    assert!(!history.is_interesting(&vec![1, 0, 2, 0]));
    assert!(!history.absorb(&vec![1, 0, 2, 0]));
}

#[test]
fn a_higher_count_is_interesting_and_a_lower_one_is_not() {
    let mut history = CoverageHistory::new(2);
    assert!(history.absorb(&vec![3, 0]));
    assert!(!history.absorb(&vec![2, 0]));
    assert_eq!(history.count_at(0), Some(3));
    assert!(history.absorb(&vec![4, 0]));
    assert_eq!(history.count_at(0), Some(4));
}

#[test]
fn absorb_takes_the_larger_count_at_each_location() {
    let mut history = CoverageHistory::new(4);
    history.absorb(&vec![5, 0, 2, 0]);
    assert!(history.absorb(&vec![1, 7, 2, 0]));
    assert_eq!(history.count_at(0), Some(5));
    assert_eq!(history.count_at(1), Some(7));
    assert_eq!(history.count_at(2), Some(2));
    assert_eq!(history.count_at(3), Some(0));
}

#[test]
fn is_interesting_leaves_the_history_as_it_is() {
    let history = CoverageHistory::new(2);
    assert!(history.is_interesting(&vec![0, 9]));
    assert!(history.is_interesting(&vec![0, 9]));
    assert_eq!(history.count_at(1), Some(0));
}

#[test]
fn a_snapshot_of_another_size_adds_nothing() {
    let mut history = CoverageHistory::new(2);
    assert!(!history.is_interesting(&vec![1, 1, 1]));
    assert!(!history.absorb(&vec![1]));
    assert!(!history.absorb(&vec![]));
    assert_eq!(history.count_at(0), Some(0));
    assert_eq!(history.count_at(1), Some(0));
    assert_eq!(history.size(), 2);
}

#[test]
fn covered_locations_stay_covered() {
    let mut history = CoverageHistory::new(4);
    let snapshots: Vec<Vec<u8>> = vec![
        vec![1, 0, 0, 0],
        vec![0, 0, 0, 0],
        vec![0, 3, 0, 0],
        vec![0, 1, 0, 9],
        vec![0, 0, 0, 0],
    ];
    let mut before: Vec<u8> = vec![0; 4];
    for snapshot in &snapshots {
        history.absorb(snapshot);
        for location in 0..4 {
            let now = history.count_at(location).unwrap();
            assert!(now >= before[location]);
            before[location] = now;
        }
    }
    assert_eq!(before, vec![1, 3, 0, 9]);
}
