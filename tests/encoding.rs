use znfe::mlvalues::{
    bool_to_raw, int_to_raw, is_block, raw_to_bool, raw_to_int, EMPTY_LIST, FALSE, NONE, TRUE,
};

#[test]
fn integer_is_tagged_immediate() {
    assert_eq!(int_to_raw(10), 21);
    assert_eq!(int_to_raw(0), 1);
    assert_eq!(int_to_raw(-1), -1);
    assert!(!is_block(int_to_raw(10)));
}

#[test]
fn integer_scenario_doubling_reads_back() {
    let raw = int_to_raw(10);
    assert_eq!(raw_to_int(raw), 10);
    let doubled = int_to_raw(raw_to_int(raw) * 2);
    assert_eq!(raw_to_int(doubled), 20);
}

#[test]
fn integer_round_trip_at_range_edges() {
    let lo: i64 = -(1i64 << 62);
    let hi: i64 = (1i64 << 62) - 1;
    assert_eq!(raw_to_int(int_to_raw(lo)), lo);
    assert_eq!(raw_to_int(int_to_raw(hi)), hi);
    assert_eq!(raw_to_int(int_to_raw(-7)), -7);
}

#[test]
fn integer_outside_range_wraps_like_a_shift() {
    assert_eq!(int_to_raw(i64::MAX), (i64::MAX << 1) | 1);
    assert_eq!(int_to_raw(i64::MIN), (i64::MIN << 1) | 1);
    assert_eq!(int_to_raw(1i64 << 62), ((1i64 << 62) << 1) | 1);
    assert_eq!(raw_to_int(int_to_raw(1i64 << 62)), -(1i64 << 62));
}

#[test]
fn raw_to_int_is_arithmetic_shift() {
    assert_eq!(raw_to_int(-3), -2);
    assert_eq!(raw_to_int(i64::MIN), i64::MIN >> 1);
    assert_eq!(raw_to_int(i64::MAX), i64::MAX >> 1);
}

#[test]
fn booleans_and_shared_immediates() {
    assert_eq!(bool_to_raw(true), TRUE);
    assert_eq!(bool_to_raw(false), FALSE);
    assert!(raw_to_bool(TRUE));
    assert!(!raw_to_bool(FALSE));
    assert_eq!(NONE, 1);
    assert_eq!(EMPTY_LIST, 1);
}

#[test]
fn block_words_are_even() {
    assert!(is_block(0));
    assert!(is_block(4));
    assert!(is_block(-2));
    assert!(!is_block(-5));
}
