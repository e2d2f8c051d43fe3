use fuzz_engine::crashes::content_key;
use fuzz_engine::crashes::CrashStore;

#[test]
fn the_content_key_of_the_empty_input() {
    assert_eq!(content_key(&vec![]), 0x2d06_8005_38d3_94c2);
}

#[test]
fn the_content_key_depends_on_the_bytes_alone() {
    let input: Vec<u8> = vec![0x61, 0x62, 0x63];
    let copy: Vec<u8> = input.iter().copied().collect();
    assert_eq!(content_key(&input), content_key(&copy));
    assert_eq!(content_key(&input), content_key(&input));
}

#[test]
fn different_inputs_have_different_content_keys() {
    let inputs: Vec<Vec<u8>> = vec![
        vec![],
        vec![0],
        vec![0, 0],
        vec![0x61, 0x62, 0x63],
        vec![0x61, 0x62, 0x63, 0x00],
        vec![0x63, 0x62, 0x61],
    ];
    for (i, a) in inputs.iter().enumerate() {
        for (j, b) in inputs.iter().enumerate() {
            if i != j {
                assert_ne!(content_key(a), content_key(b));
            }
        }
    }
}

#[test]
fn a_new_store_is_empty() {
    let store = CrashStore::new();
    assert_eq!(store.len(), 0);
    assert_eq!(store.key_at(0), None);
    assert_eq!(store.input_at(0), None);
    assert!(!store.contains_key(0));
}

#[test]
fn record_adds_the_input_under_its_content_key() {
    let mut store = CrashStore::new();
    let input: Vec<u8> = vec![0x61, 0x62, 0x63];
    let key = content_key(&input);
    assert_eq!(store.record(&input), Some(key));
    assert_eq!(store.len(), 1);
    assert_eq!(store.key_at(0), Some(key));
    assert_eq!(store.input_at(0), Some(input));
    assert!(store.contains_key(key));
    assert!(!store.contains_key(key.wrapping_add(1)));
}

#[test]
fn identical_content_is_recorded_once() {
    let mut store = CrashStore::new();
    let input: Vec<u8> = vec![0x61, 0x62, 0x63, 0x64];
    let same: Vec<u8> = vec![0x61, 0x62, 0x63, 0x64];
    assert!(store.record(&input).is_some());
    assert_eq!(store.record(&same), None);
    assert_eq!(store.record(&input), None);
    assert_eq!(store.len(), 1);
}

#[test]
fn different_content_is_recorded_apart() {
    let mut store = CrashStore::new();
    assert!(store.record(&vec![0x61, 0x62, 0x63]).is_some());
    assert!(store.record(&vec![0x61, 0x62, 0x63, 0x00]).is_some());
    assert_eq!(store.record(&vec![0x61, 0x62, 0x63]), None);
    assert_eq!(store.len(), 2);
    assert_eq!(store.input_at(0), Some(vec![0x61, 0x62, 0x63]));
    assert_eq!(store.input_at(1), Some(vec![0x61, 0x62, 0x63, 0x00]));
    assert_ne!(store.key_at(0), store.key_at(1));
}

#[test]
fn record_keyed_skips_a_key_that_is_there() {
    let mut store = CrashStore::new();
    let input: Vec<u8> = vec![1, 2, 3];
    let key = content_key(&input);
    assert!(store.record_keyed(key, input.clone()));
    assert!(!store.record_keyed(key, input.clone()));
    assert_eq!(store.len(), 1);
    assert_eq!(store.key_at(1), None);
}

#[test]
fn no_two_records_hold_the_same_bytes() {
    let mut store = CrashStore::new();
    for round in 0..200u32 {
        let input: Vec<u8> = vec![(round % 7) as u8, (round % 3) as u8];
        store.record(&input);
    }
    assert_eq!(store.len(), 21);
    for i in 0..store.len() {
        for j in 0..store.len() {
            if i != j {
                assert_ne!(store.input_at(i), store.input_at(j));
                assert_ne!(store.key_at(i), store.key_at(j));
            }
        }
    }
}
