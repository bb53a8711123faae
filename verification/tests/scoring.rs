//! The scorer's arithmetic on concrete values.

use cargo_quality::scoring::{normalized_score, penalty_add, penalty_mul, raw_score};

#[test]
fn raw_score_basic() {
    // (100 - 40) * 100 / 100 = 60
    assert_eq!(raw_score(100, 40), 60);
    // nothing lost
    assert_eq!(raw_score(100, 0), 100);
    // truncating division
    assert_eq!(raw_score(3, 1), 66);
}

#[test]
fn raw_score_saturates_at_zero() {
    // a penalty total at the base clamps to 0
    assert_eq!(raw_score(100, 100), 0);
    // a penalty total past the base clamps to 0 instead of underflowing
    assert_eq!(raw_score(100, 150), 0);
    assert_eq!(raw_score(100, u64::MAX), 0);
}

#[test]
fn raw_score_never_exceeds_hundred() {
    assert!(raw_score(184467440737095516, 0) <= 100);
    assert!(raw_score(7, 1) <= 100);
}

#[test]
fn normalized_score_truncates() {
    // 60 * 50 / 100 = 30
    assert_eq!(normalized_score(60, 50), 30);
    // 33 * 50 / 100 = 16 (truncating)
    assert_eq!(normalized_score(33, 50), 16);
    assert_eq!(normalized_score(0, 50), 0);
    assert_eq!(normalized_score(100, 50), 50);
}

#[test]
fn penalty_arithmetic_clamps() {
    assert_eq!(penalty_mul(3, 20), 60);
    assert_eq!(penalty_mul(u64::MAX, 2), u64::MAX);
    assert_eq!(penalty_add(1, 2), 3);
    assert_eq!(penalty_add(u64::MAX, 1), u64::MAX);
}
