//! Fixed-point angles.
//!
//! An angle is an `i64` number of microradians: one radian is `SCALE`
//! units. `PI_FP` is the engine's value of pi on that scale; it is chosen
//! even so that `PI_FP == 2 * HALF_PI_FP` and `TWO_PI_FP == 2 * PI_FP`
//! hold exactly, which the normalization and trigonometry proofs use.

use vstd::prelude::*;

verus! {

/// Fixed-point unit: one radian, and also one unit of a trigonometric ratio.
pub const SCALE: i64 = 1_000_000;

/// pi in microradians.
pub const PI_FP: i64 = 3_141_592;

/// pi/2 in microradians; exactly half of `PI_FP`.
pub const HALF_PI_FP: i64 = 1_570_796;

/// pi/4 in microradians; exactly a quarter of `PI_FP`.
pub const QUARTER_PI_FP: i64 = 785_398;

/// 2*pi in microradians; exactly twice `PI_FP`.
pub const TWO_PI_FP: i64 = 6_283_184;

/// Largest magnitude accepted by `normalize_angle`; far above any angle
/// the engine ever builds, but needed to rule out overflow.
pub const NORM_INPUT_LIMIT: i64 = 1_000_000_000_000_000;

/// Absolute value of a mathematical integer.
pub open spec fn abs_int(a: int) -> int {
    if a >= 0 {
        a
    } else {
        -a
    }
}

/// The normalized representative of an angle in `[-PI_FP, PI_FP]`,
/// reached by repeated addition or subtraction of a full turn.
pub open spec fn norm_angle(a: int) -> int
    decreases abs_int(a),
{
    if a > PI_FP {
        norm_angle(a - TWO_PI_FP)
    } else if a < -PI_FP {
        norm_angle(a + TWO_PI_FP)
    } else {
        a
    }
}

/// For any input angle, the normalized result lies in `[-PI_FP, PI_FP]`.
pub proof fn lemma_norm_angle_range(a: int)
    ensures
        -PI_FP <= norm_angle(a) <= PI_FP,
    decreases abs_int(a),
{
    if a > PI_FP {
        lemma_norm_angle_range(a - TWO_PI_FP);
    } else if a < -PI_FP {
        lemma_norm_angle_range(a + TWO_PI_FP);
    }
}

/// Shifting an angle by one full turn does not change its normalized
/// representative. The single exception is the exact value `-PI_FP`: the
/// closed interval `[-PI_FP, PI_FP]` keeps both endpoints, so `-PI_FP`
/// is already normalized while `-PI_FP + TWO_PI_FP == PI_FP` is too.
pub proof fn lemma_norm_angle_full_turn(a: int)
    requires
        a != -PI_FP,
    ensures
        norm_angle(a + TWO_PI_FP) == norm_angle(a),
{
    if a > -PI_FP {
        assert(a + TWO_PI_FP > PI_FP);
    }
}

/// Normalizes an angle into `[-PI_FP, PI_FP]` by repeated +-2*pi adjustment.
pub fn normalize_angle(a: i64) -> (r: i64)
    requires
        -NORM_INPUT_LIMIT <= a <= NORM_INPUT_LIMIT,
    ensures
        r == norm_angle(a as int),
        -PI_FP <= r <= PI_FP,
{
    let mut cur: i64 = a;
    while cur > PI_FP
        invariant
            -NORM_INPUT_LIMIT <= cur <= NORM_INPUT_LIMIT,
            norm_angle(cur as int) == norm_angle(a as int),
        decreases cur + PI_FP,
    {
        cur = cur - TWO_PI_FP;
    }
    while cur < -PI_FP
        invariant
            -NORM_INPUT_LIMIT <= cur,
            cur <= PI_FP,
            norm_angle(cur as int) == norm_angle(a as int),
        decreases PI_FP - cur,
    {
        cur = cur + TWO_PI_FP;
    }
    cur
}

} // verus!
