//! Steering.
//!
//! The turn decision compares the signed heading error against a fixed
//! dead zone of 0.01 radians: no turn inside the dead zone, left for a
//! positive error, right for a negative one.

use vstd::prelude::*;

use crate::angle::abs_int;

verus! {

/// The fixed turn dead zone, 0.01 radians in microradians.
pub const DEAD_ZONE_FP: i64 = 10_000;

/// A discrete turn.
#[derive(Clone, Copy, PartialEq, Eq, Structural, Debug)]
pub enum TurnDirection {
    Left,
    Right,
}

/// The turn asked for by a signed heading error: none inside the dead
/// zone, left when positive, right when negative.
pub open spec fn turn_for(diff: int) -> Option<TurnDirection> {
    if abs_int(diff) < DEAD_ZONE_FP {
        None
    } else if diff > 0 {
        Some(TurnDirection::Left)
    } else {
        Some(TurnDirection::Right)
    }
}

/// Computes the turn for a signed heading error.
pub fn turn_decision(diff: i64) -> (r: Option<TurnDirection>)
    ensures
        r == turn_for(diff as int),
{
    // The smallest i64 cannot be negated; any stand-in far outside the
    // dead zone decides the same way.
    let mag = if diff < 0 {
        if diff == i64::MIN {
            i64::MAX
        } else {
            -diff
        }
    } else {
        diff
    };
    if mag < DEAD_ZONE_FP {
        None
    } else if diff > 0 {
        Some(TurnDirection::Left)
    } else {
        Some(TurnDirection::Right)
    }
}

} // verus!
