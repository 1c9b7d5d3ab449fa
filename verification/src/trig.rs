//! Fixed-point trigonometry.
//!
//! The engine never uses machine floating point: sine and cosine are
//! rational approximations on the microradian scale (a ratio of `SCALE`
//! stands for 1.0), and the bearing of one point from another comes from a
//! quadratic approximation of the arctangent. The spec functions below are
//! the exact mathematical definition of what the executable code computes;
//! the geometric contracts of the engine are stated over them.

use vstd::prelude::*;

use crate::angle::{abs_int, HALF_PI_FP, PI_FP, QUARTER_PI_FP, SCALE};

verus! {

/// Correction coefficient of the quadratic arctangent approximation
/// (0.273 on the `SCALE` scale).
pub const ATAN_C: i64 = 273_000;

/// Largest coordinate difference `atan2_fp` accepts.
pub const ATAN2_INPUT_LIMIT: i64 = 4_000_000_000;

/// Sine of `x` microradians for `x` in `[0, PI_FP]`, as a ratio of `SCALE`:
/// the rational approximation `16 x (pi - x) / (5 pi^2 - 4 x (pi - x))`,
/// carried out in integer arithmetic and capped at `SCALE`.
pub open spec fn sin_half_approx(x: int) -> int {
    let p = x * (PI_FP - x);
    let num = 16 * p;
    let den = (5 * PI_FP * PI_FP - 4 * p) / (SCALE as int);
    let v = num / den;
    if v > SCALE {
        SCALE as int
    } else {
        v
    }
}

/// Sine of `x` microradians for `x` in `[-PI_FP, PI_FP]`, as a ratio of
/// `SCALE`; odd extension of `sin_half_approx`.
pub open spec fn sin_approx(x: int) -> int {
    if x < 0 {
        -sin_half_approx(-x)
    } else {
        sin_half_approx(x)
    }
}

/// Cosine of `x` microradians for `x` in `[-PI_FP, PI_FP]`, as a ratio of
/// `SCALE`: the sine shifted by a quarter turn.
pub open spec fn cos_approx(x: int) -> int {
    let y = abs_int(x);
    if y <= HALF_PI_FP {
        sin_half_approx(HALF_PI_FP - y)
    } else {
        -sin_half_approx(y - HALF_PI_FP)
    }
}

/// Arctangent of `z / SCALE` for `z` in `[0, SCALE]`, in microradians:
/// the quadratic approximation `(pi/4) z + 0.273 z (1 - z)`, carried out
/// in integer arithmetic and capped at `QUARTER_PI_FP`.
pub open spec fn atan_unit_approx(z: int) -> int {
    let v = QUARTER_PI_FP * z / (SCALE as int) + (ATAN_C * z / (SCALE as int)) * ((
    SCALE as int) - z) / (SCALE as int);
    if v > QUARTER_PI_FP {
        QUARTER_PI_FP as int
    } else {
        v
    }
}

/// The angle of the vector `(x, y)` in microradians, in `[-PI_FP, PI_FP]`:
/// an octant reduction over `atan_unit_approx`. Axis directions are exact;
/// `atan2_approx(0, 0)` is 0.
pub open spec fn atan2_approx(y: int, x: int) -> int {
    if y == 0 {
        if x >= 0 {
            0
        } else {
            PI_FP as int
        }
    } else if x == 0 {
        if y > 0 {
            HALF_PI_FP as int
        } else {
            -HALF_PI_FP as int
        }
    } else {
        let ay = abs_int(y);
        let ax = abs_int(x);
        let base = if ay <= ax {
            atan_unit_approx(ay * SCALE / ax)
        } else {
            HALF_PI_FP - atan_unit_approx(ax * SCALE / ay)
        };
        let mag = if x > 0 {
            base
        } else {
            PI_FP - base
        };
        if y > 0 {
            mag
        } else {
            -mag
        }
    }
}

/// The fixed-point sine is exactly `SCALE` (one) at a quarter turn: the
/// constants were chosen so the rational approximation peaks without
/// rounding loss.
pub proof fn lemma_sin_at_half_pi()
    ensures
        sin_approx(HALF_PI_FP as int) == SCALE,
{
    let x: int = HALF_PI_FP as int;
    assert(x * (PI_FP - x) == 2_467_400_073_616) by (nonlinear_arith)
        requires
            x == 1_570_796,
            PI_FP == 3_141_592,
    ;
    assert(5 * (PI_FP as int) * (PI_FP as int) == 49_348_001_472_320) by (nonlinear_arith)
        requires
            PI_FP == 3_141_592,
    ;
    assert(39_478_401_177_856int / 1_000_000int == 39_478_401int) by (nonlinear_arith);
    assert(39_478_401_177_856int / 39_478_401int == 1_000_000int) by (nonlinear_arith);
    assert(sin_half_approx(x) == SCALE);
}

/// Sine on `[0, PI_FP]` as a ratio of `SCALE`.
pub fn sin_half(x: i64) -> (r: i64)
    requires
        0 <= x <= PI_FP,
    ensures
        r == sin_half_approx(x as int),
        0 <= r <= SCALE,
{
    proof {
        assert(0 <= x * (PI_FP - x) <= HALF_PI_FP * HALF_PI_FP) by (nonlinear_arith)
            requires
                0 <= x <= PI_FP,
                PI_FP == 2 * HALF_PI_FP,
        ;
    }
    let p: i64 = x * (PI_FP - x);
    let num: i64 = 16 * p;
    let den: i64 = (5 * PI_FP * PI_FP - 4 * p) / SCALE;
    proof {
        assert(den >= 1);
        assert(num / den >= 0) by (nonlinear_arith)
            requires
                num >= 0,
                den >= 1,
        ;
        assert(num / den <= num) by (nonlinear_arith)
            requires
                num >= 0,
                den >= 1,
        ;
    }
    let v: i64 = num / den;
    if v > SCALE {
        SCALE
    } else {
        v
    }
}

/// Sine on `[-PI_FP, PI_FP]` as a ratio of `SCALE`.
pub fn sine_fp(x: i64) -> (r: i64)
    requires
        -PI_FP <= x <= PI_FP,
    ensures
        r == sin_approx(x as int),
        -SCALE <= r <= SCALE,
{
    if x < 0 {
        -sin_half(-x)
    } else {
        sin_half(x)
    }
}

/// Cosine on `[-PI_FP, PI_FP]` as a ratio of `SCALE`.
pub fn cosine_fp(x: i64) -> (r: i64)
    requires
        -PI_FP <= x <= PI_FP,
    ensures
        r == cos_approx(x as int),
        -SCALE <= r <= SCALE,
{
    let y: i64 = if x < 0 {
        -x
    } else {
        x
    };
    if y <= HALF_PI_FP {
        sin_half(HALF_PI_FP - y)
    } else {
        -sin_half(y - HALF_PI_FP)
    }
}

/// Arctangent of `z / SCALE` on `[0, SCALE]`, in microradians.
fn atan_unit(z: i64) -> (r: i64)
    requires
        0 <= z <= SCALE,
    ensures
        r == atan_unit_approx(z as int),
        0 <= r <= QUARTER_PI_FP,
{
    let t1: i64 = QUARTER_PI_FP * z / SCALE;
    let u: i64 = ATAN_C * z / SCALE;
    proof {
        assert(0 <= u * (SCALE - z) <= ATAN_C * SCALE) by (nonlinear_arith)
            requires
                0 <= u <= ATAN_C,
                0 <= SCALE - z <= SCALE,
        ;
    }
    let t2: i64 = u * (SCALE - z) / SCALE;
    let v: i64 = t1 + t2;
    if v > QUARTER_PI_FP {
        QUARTER_PI_FP
    } else {
        v
    }
}

/// The angle of the vector `(x, y)` in microradians, in `[-PI_FP, PI_FP]`.
pub fn atan2_fp(y: i64, x: i64) -> (r: i64)
    requires
        -ATAN2_INPUT_LIMIT <= y <= ATAN2_INPUT_LIMIT,
        -ATAN2_INPUT_LIMIT <= x <= ATAN2_INPUT_LIMIT,
    ensures
        r == atan2_approx(y as int, x as int),
        -PI_FP <= r <= PI_FP,
{
    if y == 0 {
        if x >= 0 {
            0
        } else {
            PI_FP
        }
    } else if x == 0 {
        if y > 0 {
            HALF_PI_FP
        } else {
            -HALF_PI_FP
        }
    } else {
        let ay: i64 = if y < 0 {
            -y
        } else {
            y
        };
        let ax: i64 = if x < 0 {
            -x
        } else {
            x
        };
        let base: i64 = if ay <= ax {
            proof {
                assert(ay * SCALE / (ax as int) <= SCALE && ay * SCALE / (ax as int) >= 0)
                    by (nonlinear_arith)
                    requires
                        0 < ay <= ax,
                        SCALE > 0,
                ;
            }
            atan_unit(ay * SCALE / ax)
        } else {
            proof {
                assert(ax * SCALE / (ay as int) <= SCALE && ax * SCALE / (ay as int) >= 0)
                    by (nonlinear_arith)
                    requires
                        0 < ax < ay,
                        SCALE > 0,
                ;
            }
            HALF_PI_FP - atan_unit(ax * SCALE / ay)
        };
        let mag: i64 = if x > 0 {
            base
        } else {
            PI_FP - base
        };
        if y > 0 {
            mag
        } else {
            -mag
        }
    }
}

} // verus!
