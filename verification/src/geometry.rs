//! Fixed-point planar geometry.
//!
//! Positions and radii are `i64` milli-units (one thousandth of a world
//! unit). Distances are compared through their squares, so no square root
//! is ever taken, and the lateral-offset test `distance * |tan(diff)| <=
//! radius` is decided exactly by cross-multiplying with the fixed-point
//! sine and cosine: for a non-negative radius it holds iff
//! `d^2 * sin^2(diff) <= radius^2 * cos^2(diff)`.

use vstd::prelude::*;

use crate::angle::{norm_angle, normalize_angle, HALF_PI_FP, PI_FP, TWO_PI_FP};
use crate::angle::SCALE;
use crate::trig::{atan2_approx, atan2_fp, cos_approx, cosine_fp, sin_approx, sine_fp};

verus! {

/// Largest coordinate magnitude the engine accepts, in milli-units.
pub const COORD_LIMIT: i64 = 1_000_000_000;

/// Largest magnitude of a configuration value, in milli-units.
pub const CONFIG_LIMIT: i64 = 1_000_000_000_000;

/// Largest squared distance between two in-range points.
pub const DIST_SQ_LIMIT: i64 = 8_000_000_000_000_000_000;

/// Largest heading magnitude a ship or shot can carry, in microradians.
pub const HEADING_LIMIT: i64 = 700_000_000;

/// Largest heading magnitude accepted from the host, in milli-degrees.
pub const HEADING_MDEG_LIMIT: i64 = 36_000_000;

/// Squared Euclidean distance between two points.
pub open spec fn dist_sq(x1: int, y1: int, x2: int, y2: int) -> int {
    (x2 - x1) * (x2 - x1) + (y2 - y1) * (y2 - y1)
}

/// Bearing of the point `(tx, ty)` as seen from `(fx, fy)`, in
/// microradians.
pub open spec fn bearing(fx: int, fy: int, tx: int, ty: int) -> int {
    atan2_approx(ty - fy, tx - fx)
}

/// Signed angular error between a heading and the bearing of a point,
/// normalized into `[-PI_FP, PI_FP]`.
pub open spec fn heading_error(heading: int, fx: int, fy: int, tx: int, ty: int) -> int {
    norm_angle(bearing(fx, fy, tx, ty) - heading)
}

/// The host supplies headings as milli-degrees in its own convention; the
/// engine stores `(90 degrees - heading)` as microradians.
pub open spec fn heading_from_mdeg(mdeg: int) -> int {
    let d = 90_000 - mdeg;
    if d >= 0 {
        d * PI_FP / 180_000
    } else {
        -((-d) * PI_FP / 180_000)
    }
}

/// Whether a point at squared distance `d2`, seen under the angular error
/// `diff`, lies within `radius` of the line along the observer's heading:
/// `d2 * sin^2(diff) <= radius^2 * cos^2(diff)` for a non-negative radius,
/// and false for a negative one.
pub open spec fn within_hit_radius(d2: int, diff: int, radius: int) -> bool {
    radius >= 0 && d2 * (sin_approx(diff) * sin_approx(diff)) <= radius * radius * (cos_approx(
        diff,
    ) * cos_approx(diff))
}

/// The heading error, and with it every steering and lock-on decision
/// built on it, depends on the observer's heading only modulo one full
/// turn. The one excluded input is a bearing error of exactly `PI_FP`,
/// where the two endpoint representatives of `[-PI_FP, PI_FP]` meet.
pub proof fn lemma_heading_error_full_turn(heading: int, fx: int, fy: int, tx: int, ty: int)
    requires
        bearing(fx, fy, tx, ty) - heading != PI_FP,
    ensures
        heading_error(heading + TWO_PI_FP, fx, fy, tx, ty) == heading_error(
            heading,
            fx,
            fy,
            tx,
            ty,
        ),
{
    crate::angle::lemma_norm_angle_full_turn(bearing(fx, fy, tx, ty) - heading - TWO_PI_FP);
}

/// A point seen dead ahead (zero angular error) is within any
/// non-negative radius, whatever its distance: the lateral offset is
/// zero.
pub proof fn lemma_dead_ahead_always_within(d2: int, radius: int)
    requires
        radius >= 0,
    ensures
        within_hit_radius(d2, 0, radius),
{
    assert(sin_approx(0) == 0);
    assert(d2 * (0 * 0) == 0) by (nonlinear_arith);
    let c = cos_approx(0);
    assert(radius * radius * (c * c) >= 0) by (nonlinear_arith)
        requires
            radius >= 0,
    ;
}

/// A point seen exactly abeam (angular error of a quarter turn) is
/// within a radius only when it sits on the observer: the lateral ray
/// never meets it.
pub proof fn lemma_perpendicular_within_only_at_zero(d2: int, radius: int)
    requires
        radius >= 0,
        d2 >= 0,
    ensures
        within_hit_radius(d2, HALF_PI_FP as int, radius) == (d2 == 0),
{
    crate::trig::lemma_sin_at_half_pi();
    assert(cos_approx(HALF_PI_FP as int) == 0);
    assert(radius * radius * (0 * 0) == 0) by (nonlinear_arith);
    assert(d2 * (SCALE * SCALE) <= 0 <==> d2 == 0) by (nonlinear_arith)
        requires
            d2 >= 0,
            SCALE == 1_000_000,
    ;
}

/// Squared Euclidean distance between two in-range points.
pub fn dist_sq_fp(x1: i64, y1: i64, x2: i64, y2: i64) -> (r: i64)
    requires
        -COORD_LIMIT <= x1 <= COORD_LIMIT,
        -COORD_LIMIT <= y1 <= COORD_LIMIT,
        -COORD_LIMIT <= x2 <= COORD_LIMIT,
        -COORD_LIMIT <= y2 <= COORD_LIMIT,
    ensures
        r == dist_sq(x1 as int, y1 as int, x2 as int, y2 as int),
        0 <= r <= DIST_SQ_LIMIT,
{
    let dx: i64 = x2 - x1;
    let dy: i64 = y2 - y1;
    proof {
        assert(0 <= dx * dx <= 4_000_000_000_000_000_000 && 0 <= dy * dy
            <= 4_000_000_000_000_000_000) by (nonlinear_arith)
            requires
                -2_000_000_000 <= dx <= 2_000_000_000,
                -2_000_000_000 <= dy <= 2_000_000_000,
        ;
    }
    dx * dx + dy * dy
}

/// Converts a host heading in milli-degrees to the engine's microradian
/// convention.
pub fn heading_fp_from_mdeg(mdeg: i64) -> (r: i64)
    requires
        -HEADING_MDEG_LIMIT <= mdeg <= HEADING_MDEG_LIMIT,
    ensures
        r == heading_from_mdeg(mdeg as int),
        -HEADING_LIMIT <= r <= HEADING_LIMIT,
{
    let d: i64 = 90_000 - mdeg;
    if d >= 0 {
        d * PI_FP / 180_000
    } else {
        -((-d) * PI_FP / 180_000)
    }
}

/// Signed angular error between a heading and the bearing of `(tx, ty)`
/// from `(fx, fy)`, normalized into `[-PI_FP, PI_FP]`.
pub fn heading_error_fp(heading: i64, fx: i64, fy: i64, tx: i64, ty: i64) -> (r: i64)
    requires
        -HEADING_LIMIT <= heading <= HEADING_LIMIT,
        -COORD_LIMIT <= fx <= COORD_LIMIT,
        -COORD_LIMIT <= fy <= COORD_LIMIT,
        -COORD_LIMIT <= tx <= COORD_LIMIT,
        -COORD_LIMIT <= ty <= COORD_LIMIT,
    ensures
        r == heading_error(heading as int, fx as int, fy as int, tx as int, ty as int),
        -PI_FP <= r <= PI_FP,
{
    let b: i64 = atan2_fp(ty - fy, tx - fx);
    normalize_angle(b - heading)
}

/// Decides `within_hit_radius` exactly by cross-multiplication in 128-bit
/// integers.
pub fn within_hit_radius_fp(d2: i64, diff: i64, radius: i64) -> (r: bool)
    requires
        0 <= d2 <= DIST_SQ_LIMIT,
        -PI_FP <= diff <= PI_FP,
        -CONFIG_LIMIT <= radius <= CONFIG_LIMIT,
    ensures
        r == within_hit_radius(d2 as int, diff as int, radius as int),
{
    if radius < 0 {
        false
    } else {
        let s: i64 = sine_fp(diff);
        let c: i64 = cosine_fp(diff);
        proof {
            assert(0 <= s * s <= 1_000_000_000_000 && 0 <= c * c <= 1_000_000_000_000)
                by (nonlinear_arith)
                requires
                    -SCALE <= s <= SCALE,
                    -SCALE <= c <= SCALE,
                    SCALE == 1_000_000,
            ;
        }
        let s2: i64 = s * s;
        let c2: i64 = c * c;
        proof {
            assert((d2 as i128) * (s2 as i128) <= 8_000_000_000_000_000_000_000_000_000_000i128
                && 0 <= (d2 as i128) * (s2 as i128)) by (nonlinear_arith)
                requires
                    0 <= d2 <= DIST_SQ_LIMIT,
                    0 <= s2 <= 1_000_000_000_000,
                    DIST_SQ_LIMIT == 8_000_000_000_000_000_000i64,
            ;
            assert(0 <= (radius as i128) * (radius as i128) && (radius as i128) * (radius as i128)
                <= 1_000_000_000_000_000_000_000_000i128) by (nonlinear_arith)
                requires
                    0 <= radius <= CONFIG_LIMIT,
                    CONFIG_LIMIT == 1_000_000_000_000i64,
            ;
        }
        let lhs: i128 = (d2 as i128) * (s2 as i128);
        let rr: i128 = (radius as i128) * (radius as i128);
        proof {
            assert(0 <= rr * (c2 as i128) <= 1_000_000_000_000_000_000_000_000_000_000_000_000i128)
                by (nonlinear_arith)
                requires
                    0 <= rr <= 1_000_000_000_000_000_000_000_000i128,
                    0 <= c2 <= 1_000_000_000_000,
            ;
        }
        let rhs: i128 = rr * (c2 as i128);
        lhs <= rhs
    }
}

} // verus!
