//! The names under which crash records are stored: the content key, written
//! as sixteen lowercase hexadecimal digits.

use vstd::prelude::*;

verus! {

/// The number of digits of a name.
pub const NAME_LEN: usize = 16;

/// The ASCII character of one hexadecimal digit.
pub open spec fn hex_char(digit: u8) -> u8 {
    if digit < 10 {
        (0x30 + digit) as u8
    } else {
        (0x57 + digit) as u8
    }
}

/// The hexadecimal digit of `key` at `place`, counted from the least
/// significant one.
pub open spec fn hex_digit(key: u64, place: nat) -> u8
    decreases place,
{
    if place == 0 {
        (key % 16) as u8
    } else {
        hex_digit(key / 16, (place - 1) as nat)
    }
}

/// The name of the key `key`: its sixteen hexadecimal digits, the most
/// significant first.
pub open spec fn name_of(key: u64) -> Seq<u8> {
    Seq::new(NAME_LEN as nat, |i: int| hex_char(hex_digit(key, (NAME_LEN - 1 - i) as nat)))
}

/// Sixteen to the power `n`.
pub open spec fn sixteen_to(n: nat) -> nat
    decreases n,
{
    if n == 0 {
        1
    } else {
        16 * sixteen_to((n - 1) as nat)
    }
}

/// Writes one hexadecimal digit as its ASCII character.
pub fn hex_char_of(digit: u8) -> (ch: u8)
    requires
        digit < 16,
    ensures
        ch == hex_char(digit),
{
    if digit < 10 {
        0x30 + digit
    } else {
        0x57 + digit
    }
}

/// Writes the name of a content key.
pub fn file_name(key: u64) -> (name: Vec<u8>)
    ensures
        name@ == name_of(key),
        name@.len() == NAME_LEN,
{
    let mut name: Vec<u8> = Vec::new();
    let mut filled: usize = 0;
    while filled < NAME_LEN
        invariant
            filled <= NAME_LEN,
            name@.len() == filled,
        decreases NAME_LEN - filled,
    {
        name.push(0x30u8);
        filled = filled + 1;
    }
    let mut rest: u64 = key;
    let mut place: usize = 0;
    while place < NAME_LEN
        invariant
            place <= NAME_LEN,
            name@.len() == NAME_LEN,
            forall|p: nat| hex_digit(key, (place + p) as nat) == #[trigger] hex_digit(rest, p),
            forall|i: int|
                NAME_LEN - place <= i < NAME_LEN ==> name@[i] == hex_char(
                    hex_digit(key, (NAME_LEN - 1 - i) as nat),
                ),
        decreases NAME_LEN - place,
    {
        let digit: u8 = (rest % 16) as u8;
        assert(digit == hex_digit(rest, 0));
        assert(hex_digit(key, (place + 0) as nat) == hex_digit(rest, 0));
        name[NAME_LEN - 1 - place] = hex_char_of(digit);
        let ghost before = rest;
        rest = rest / 16;
        assert forall|p: nat| hex_digit(key, (place + 1 + p) as nat) == #[trigger] hex_digit(
            rest,
            p,
        ) by {
            assert(hex_digit(key, (place + (p + 1)) as nat) == hex_digit(before, (p + 1) as nat));
        }
        place = place + 1;
    }
    assert(name@ =~= name_of(key));
    name
}

/// Two keys below sixteen to the power `n` that agree on their `n` lowest
/// digits are the same key.
pub proof fn lemma_digits_fix_key(a: u64, b: u64, n: nat)
    requires
        a < sixteen_to(n),
        b < sixteen_to(n),
        forall|p: nat| p < n ==> hex_digit(a, p) == hex_digit(b, p),
    ensures
        a == b,
    decreases n,
{
    if n > 0 {
        let a_rest = (a / 16) as u64;
        let b_rest = (b / 16) as u64;
        assert forall|p: nat| p < n - 1 implies hex_digit(a_rest, p) == hex_digit(b_rest, p) by {
            assert(hex_digit(a, (p + 1) as nat) == hex_digit(a_rest, p));
            assert(hex_digit(b, (p + 1) as nat) == hex_digit(b_rest, p));
        }
        lemma_digits_fix_key(a_rest, b_rest, (n - 1) as nat);
        assert(hex_digit(a, 0) == hex_digit(b, 0));
    }
}

/// Every digit is below sixteen.
pub proof fn lemma_hex_digit_range(key: u64, place: nat)
    ensures
        hex_digit(key, place) < 16,
    decreases place,
{
    if place > 0 {
        lemma_hex_digit_range(key / 16, (place - 1) as nat);
    }
}

/// Different keys have different names: a name stands for one key.
pub proof fn law_names_tell_keys_apart(a: u64, b: u64)
    requires
        name_of(a) == name_of(b),
    ensures
        a == b,
{
    assert forall|p: nat| p < 16 implies hex_digit(a, p) == hex_digit(b, p) by {
        let i = 15 - p;
        assert(name_of(a)[i] == hex_char(hex_digit(a, p)));
        assert(name_of(b)[i] == hex_char(hex_digit(b, p)));
        lemma_hex_digit_range(a, p);
        lemma_hex_digit_range(b, p);
    }
    assert(sixteen_to(16) == 0x1_0000_0000_0000_0000) by {
        reveal_with_fuel(sixteen_to, 17);
    }
    lemma_digits_fix_key(a, b, 16);
}

} // verus!
