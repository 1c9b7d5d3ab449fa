//! Threat assessment.
//!
//! A projectile threatens the acting ship when its bearing is not almost
//! directly behind (a coarse rear-exclusion heuristic at 179 degrees) and
//! its lateral offset from the ship's line of sight is within the
//! configured hit radius. Evasion asks only whether some projectile
//! threatens, so the scan needs no particular order.

use vstd::prelude::*;

use crate::angle::abs_int;
use crate::geometry::{
    dist_sq, dist_sq_fp, heading_error, heading_error_fp, within_hit_radius, within_hit_radius_fp,
    CONFIG_LIMIT,
};
use crate::world::{Ship, Shot};

verus! {

/// Angular magnitude (179 degrees in microradians) at and beyond which a
/// projectile counts as behind the ship and not dangerous.
pub const REAR_LIMIT_FP: i64 = 3_124_139;

/// Whether `shot` is judged to be on a collision course with `ship`:
/// its bearing error from the ship's heading is under the rear-exclusion
/// limit and its lateral offset is within `radius`.
pub open spec fn shot_threatens(ship: Ship, shot: Shot, radius: int) -> bool {
    let d2 = dist_sq(ship.pos_x as int, ship.pos_y as int, shot.pos_x as int, shot.pos_y as int);
    let diff = heading_error(
        ship.heading as int,
        ship.pos_x as int,
        ship.pos_y as int,
        shot.pos_x as int,
        shot.pos_y as int,
    );
    abs_int(diff) < REAR_LIMIT_FP && within_hit_radius(d2, diff, radius)
}

/// Whether any projectile in the snapshot threatens `ship`.
pub open spec fn threat_exists(ship: Ship, shots: Seq<Shot>, radius: int) -> bool {
    exists|i: int| 0 <= i < shots.len() && shot_threatens(ship, #[trigger] shots[i], radius)
}

/// Scans the projectile list and reports whether any projectile
/// threatens the acting ship.
pub fn find_threat(ship: &Ship, shots: &Vec<Shot>, radius: i64) -> (r: bool)
    requires
        ship.wf(),
        forall|i: int| 0 <= i < shots@.len() ==> (#[trigger] shots@[i]).wf(),
        -CONFIG_LIMIT <= radius <= CONFIG_LIMIT,
    ensures
        r == threat_exists(*ship, shots@, radius as int),
{
    let mut idx: usize = 0;
    while idx < shots.len()
        invariant
            0 <= idx <= shots@.len(),
            ship.wf(),
            forall|i: int| 0 <= i < shots@.len() ==> (#[trigger] shots@[i]).wf(),
            -CONFIG_LIMIT <= radius <= CONFIG_LIMIT,
            forall|i: int| 0 <= i < idx ==> !shot_threatens(*ship, #[trigger] shots@[i], radius as int),
        decreases shots@.len() - idx,
    {
        let shot = shots[idx];
        let d2 = dist_sq_fp(ship.pos_x, ship.pos_y, shot.pos_x, shot.pos_y);
        let diff = heading_error_fp(ship.heading, ship.pos_x, ship.pos_y, shot.pos_x, shot.pos_y);
        let rear = if diff < 0 {
            -diff
        } else {
            diff
        };
        if rear < REAR_LIMIT_FP && within_hit_radius_fp(d2, diff, radius) {
            assert(shot_threatens(*ship, shots@[idx as int], radius as int));
            return true;
        }
        idx = idx + 1;
    }
    false
}

} // verus!
