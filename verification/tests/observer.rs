use fuzz_engine::error::ConfigFault;
use fuzz_engine::error::FuzzError;
use fuzz_engine::observer::is_power_of_two;
use fuzz_engine::observer::CoverageObserver;

#[test]
fn power_of_two_is_decided_exactly() {
    assert!(!is_power_of_two(0));
    assert!(is_power_of_two(1));
    assert!(is_power_of_two(2));
    assert!(!is_power_of_two(3));
    assert!(is_power_of_two(4));
    assert!(!is_power_of_two(6));
    assert!(is_power_of_two(65536));
    assert!(!is_power_of_two(65535));
    assert!(!is_power_of_two(65537));
    assert!(is_power_of_two(1usize << 63));
    assert!(!is_power_of_two(usize::MAX));
}

#[test]
fn a_new_observer_is_cleared() {
    let observer = CoverageObserver::new(8).unwrap();
    assert_eq!(observer.size(), 8);
    assert_eq!(observer.snapshot(), vec![0u8; 8]);
}

#[test]
fn a_map_size_that_is_no_power_of_two_is_refused() {
    for size in [0usize, 3, 12, 65535] {
        match CoverageObserver::new(size) {
            Err(error) => assert_eq!(error, FuzzError::ConfigurationError(ConfigFault::MapSize)),
            Ok(_) => panic!("size {} was accepted", size),
        }
    }
}

#[test]
fn record_counts_hits_by_location() {
    let mut observer = CoverageObserver::new(4).unwrap();
    observer.record(1);
    observer.record(1);
    observer.record(3);
    assert_eq!(observer.snapshot(), vec![0, 2, 0, 1]);
}

#[test]
fn record_wraps_locations_around_the_map() {
    let mut observer = CoverageObserver::new(4).unwrap();
    observer.record(5);
    observer.record(4);
    observer.record(usize::MAX);
    assert_eq!(observer.snapshot(), vec![1, 1, 0, 1]);
}

#[test]
fn a_counter_stops_at_255() {
    let mut observer = CoverageObserver::new(2).unwrap();
    for _ in 0..300 {
        observer.record(0);
    }
    assert_eq!(observer.snapshot(), vec![255, 0]);
}

#[test]
fn record_all_replays_a_trace_in_order() {
    let mut observer = CoverageObserver::new(4).unwrap();
    observer.record_all(&vec![0, 2, 2, 6, 7]);
    assert_eq!(observer.snapshot(), vec![1, 0, 3, 1]);
    observer.record_all(&vec![]);
    assert_eq!(observer.snapshot(), vec![1, 0, 3, 1]);
}

#[test]
fn reset_clears_every_counter_and_keeps_the_size() {
    let mut observer = CoverageObserver::new(4).unwrap();
    observer.record_all(&vec![0, 1, 2, 3, 3]);
    observer.reset();
    assert_eq!(observer.size(), 4);
    assert_eq!(observer.snapshot(), vec![0u8; 4]);
}

#[test]
fn a_snapshot_is_a_copy() {
    let mut observer = CoverageObserver::new(2).unwrap();
    observer.record(1);
    let before = observer.snapshot();
    observer.record(1);
    assert_eq!(before, vec![0, 1]);
    assert_eq!(observer.snapshot(), vec![0, 2]);
}
