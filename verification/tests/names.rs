use replit_audio::digits::decimal_string;
use replit_audio::{name_for, NameCounter};

#[test]
fn decimal_notation_is_exact() {
    assert_eq!(decimal_string(0), "0");
    assert_eq!(decimal_string(7), "7");
    assert_eq!(decimal_string(9), "9");
    assert_eq!(decimal_string(10), "10");
    assert_eq!(decimal_string(11), "11");
    assert_eq!(decimal_string(99), "99");
    assert_eq!(decimal_string(100), "100");
    assert_eq!(decimal_string(1234567890), "1234567890");
    assert_eq!(decimal_string(u64::MAX), "18446744073709551615");
}

#[test]
fn decimal_notation_is_that_of_the_standard_library() {
    let mut n: u64 = 1;
    for _ in 0..64 {
        assert_eq!(decimal_string(n), n.to_string());
        assert_eq!(decimal_string(n - 1), (n - 1).to_string());
        n = n.wrapping_mul(2);
    }
    for n in 0..2000u64 {
        assert_eq!(decimal_string(n), n.to_string());
    }
}

#[test]
fn provisional_names_carry_their_number() {
    assert_eq!(name_for(0), "rust_audio_0");
    assert_eq!(name_for(42), "rust_audio_42");
    assert_eq!(name_for(u64::MAX), "rust_audio_18446744073709551615");
}

#[test]
fn provisional_names_count_up_from_zero() {
    let mut names = NameCounter::new();
    assert_eq!(names.issue(), "rust_audio_0");
    assert_eq!(names.issue(), "rust_audio_1");
    assert_eq!(names.issue(), "rust_audio_2");
}

#[test]
fn provisional_names_in_sequence_are_pairwise_distinct() {
    let mut names = NameCounter::new();
    let mut issued: Vec<String> = Vec::new();
    for _ in 0..500 {
        issued.push(names.issue());
    }
    for i in 0..issued.len() {
        for j in (i + 1)..issued.len() {
            assert_ne!(issued[i], issued[j]);
        }
    }
}
