use fuzz_engine::crashes::content_key;
use fuzz_engine::naming::file_name;
use fuzz_engine::naming::hex_char_of;
use fuzz_engine::naming::NAME_LEN;

#[test]
fn hexadecimal_digits_are_lowercase() {
    let digits: Vec<u8> = (0..16u8).map(hex_char_of).collect();
    assert_eq!(digits, b"0123456789abcdef".to_vec());
}

#[test]
fn the_name_of_zero() {
    assert_eq!(file_name(0), b"0000000000000000".to_vec());
}

#[test]
fn the_name_of_the_largest_key() {
    assert_eq!(file_name(u64::MAX), b"ffffffffffffffff".to_vec());
}

#[test]
fn a_name_has_the_most_significant_digit_first() {
    assert_eq!(file_name(0x0123_4567_89ab_cdef), b"0123456789abcdef".to_vec());
    assert_eq!(file_name(1), b"0000000000000001".to_vec());
    assert_eq!(file_name(0x10), b"0000000000000010".to_vec());
    assert_eq!(file_name(1 << 63), b"8000000000000000".to_vec());
}

#[test]
fn a_name_has_sixteen_digits() {
    for key in [0u64, 9, 10, 255, 1 << 32, u64::MAX - 1] {
        assert_eq!(file_name(key).len(), NAME_LEN);
    }
}

#[test]
fn names_follow_the_usual_hexadecimal_notation() {
    let mut key: u64 = 1;
    for _ in 0..500 {
        key = key.wrapping_mul(0x5851_f42d_4c95_7f2d).wrapping_add(0x1405_7b7e_f767_814f);
        assert_eq!(file_name(key), format!("{:016x}", key).into_bytes());
    }
}

#[test]
fn the_name_of_the_record_of_the_empty_input() {
    assert_eq!(file_name(content_key(&vec![])), b"2d06800538d394c2".to_vec());
}

#[test]
fn different_keys_have_different_names() {
    let keys = [0u64, 1, 16, 0xf, 0xf0, 1 << 60, u64::MAX];
    for a in keys {
        for b in keys {
            assert_eq!(a == b, file_name(a) == file_name(b));
        }
    }
}
