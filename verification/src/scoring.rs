//! The scorer: turns a penalty total into a bounded 0-100 score and a
//! weight-normalized score.

use vstd::prelude::*;

verus! {

/// Largest base or weight for which `x * 100` still fits in a `u64`.
pub const SCORE_INPUT_MAX: u64 = 184467440737095516;

/// Clamp an unbounded penalty total to the `u64` range.
pub open spec fn clamp_u64(a: int) -> int {
    if a > u64::MAX as int {
        u64::MAX as int
    } else {
        a
    }
}

/// The bounded score: `max(0, base - penalty) * 100 / base`, truncating.
pub open spec fn spec_raw_score(base: int, penalty: int) -> int {
    if penalty >= base {
        0
    } else {
        ((base - penalty) * 100) / base
    }
}

/// The weight-normalized score: `raw * weight / 100`, truncating.
pub open spec fn spec_normalized_score(raw: int, weight: int) -> int {
    (raw * weight) / 100
}

/// `a + b`, clamped at `u64::MAX` so a huge penalty total cannot wrap.
pub fn penalty_add(a: u64, b: u64) -> (r: u64)
    ensures
        r == clamp_u64(a + b),
{
    a.saturating_add(b)
}

/// `count * per_finding`, clamped at `u64::MAX`.
pub fn penalty_mul(count: u64, per_finding: u64) -> (r: u64)
    ensures
        r == clamp_u64(count * per_finding),
{
    match count.checked_mul(per_finding) {
        Some(p) => p,
        None => u64::MAX,
    }
}

/// Saturating subtraction followed by scaling to the 0-100 range.
///
/// The clamped penalty gives the same score as the unbounded one: both
/// reach 0 as soon as the total passes `base`.
pub fn raw_score(base: u64, penalty: u64) -> (r: u64)
    requires
        1 <= base <= SCORE_INPUT_MAX,
    ensures
        r == spec_raw_score(base as int, penalty as int),
        r <= 100,
{
    let kept = base.saturating_sub(penalty);
    proof {
        lemma_raw_score_bounded(base as int, penalty as int);
        assert(kept * 100 <= base * 100) by (nonlinear_arith)
            requires
                kept <= base,
        ;
    }
    kept * 100 / base
}

/// `raw * weight / 100` with truncating integer division.
pub fn normalized_score(raw: u64, weight: u64) -> (r: u64)
    requires
        raw <= 100,
        weight <= SCORE_INPUT_MAX,
    ensures
        r == spec_normalized_score(raw as int, weight as int),
{
    proof {
        assert(raw * weight <= 100 * weight) by (nonlinear_arith)
            requires
                raw <= 100,
        ;
    }
    raw * weight / 100
}

/// A penalty total at or above `base` scores exactly 0, and no total can
/// push the score below 0 or above 100.
pub proof fn lemma_raw_score_bounded(base: int, penalty: int)
    requires
        1 <= base,
        0 <= penalty,
    ensures
        penalty >= base ==> spec_raw_score(base, penalty) == 0,
        0 <= spec_raw_score(base, penalty) <= 100,
{
    if penalty < base {
        let kept = base - penalty;
        assert(0 <= (kept * 100) / base <= 100) by (nonlinear_arith)
            requires
                1 <= base,
                0 < kept <= base,
        ;
    }
}

/// Clamping the two sides of an addition before clamping the sum gives the
/// clamped true sum: saturation composes.
pub proof fn lemma_clamp_add(a: int, b: int)
    requires
        0 <= a,
        0 <= b,
    ensures
        clamp_u64(clamp_u64(a) + clamp_u64(b)) == clamp_u64(a + b),
{
}

/// Clamping the penalty total at `u64::MAX` never changes the score as long
/// as the base itself fits in a `u64`.
pub proof fn lemma_clamped_penalty_same_score(base: int, penalty: int)
    requires
        1 <= base <= u64::MAX,
        0 <= penalty,
    ensures
        spec_raw_score(base, clamp_u64(penalty)) == spec_raw_score(base, penalty),
{
}

} // verus!
