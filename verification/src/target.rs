//! Target acquisition.
//!
//! The acquirer selects the nearest non-friendly ship, comparing squared
//! distances with strict less-than so that the first ship encountered at
//! the minimal distance wins ties. That tie-break is part of the
//! contract, not an accident of the scan.

use vstd::prelude::*;

use crate::geometry::{dist_sq, dist_sq_fp, DIST_SQ_LIMIT};
use crate::world::Ship;

verus! {

/// Squared distance between two ships' positions.
pub open spec fn ship_dist_sq(a: Ship, b: Ship) -> int {
    dist_sq(a.pos_x as int, a.pos_y as int, b.pos_x as int, b.pos_y as int)
}

/// Whether any non-friendly ship is in the snapshot.
pub open spec fn hostile_exists(ships: Seq<Ship>) -> bool {
    exists|i: int| 0 <= i < ships.len() && !(#[trigger] ships[i]).friendly
}

/// Index `j` names the selected target among `ships` for the acting ship
/// `me`: hostile, at minimal squared distance, and strictly closer than
/// every earlier hostile, so the first of equally near hostiles wins.
pub open spec fn is_first_nearest_hostile(ships: Seq<Ship>, me: Ship, j: int) -> bool {
    &&& 0 <= j < ships.len()
    &&& !ships[j].friendly
    &&& forall|i: int|
        0 <= i < ships.len() && !(#[trigger] ships[i]).friendly ==> ship_dist_sq(me, ships[j])
            <= ship_dist_sq(me, ships[i])
    &&& forall|i: int|
        0 <= i < j && !(#[trigger] ships[i]).friendly ==> ship_dist_sq(me, ships[j])
            < ship_dist_sq(me, ships[i])
}

/// At most one index can name the selected target: the tie-break on the
/// first of equally near hostiles leaves no choice.
pub proof fn lemma_first_nearest_unique(ships: Seq<Ship>, me: Ship, j1: int, j2: int)
    requires
        is_first_nearest_hostile(ships, me, j1),
        is_first_nearest_hostile(ships, me, j2),
    ensures
        j1 == j2,
{
    if j1 < j2 {
        assert(ship_dist_sq(me, ships[j2]) < ship_dist_sq(me, ships[j1]));
        assert(ship_dist_sq(me, ships[j1]) <= ship_dist_sq(me, ships[j2]));
    } else if j2 < j1 {
        assert(ship_dist_sq(me, ships[j1]) < ship_dist_sq(me, ships[j2]));
        assert(ship_dist_sq(me, ships[j2]) <= ship_dist_sq(me, ships[j1]));
    }
}

/// Selects the nearest hostile ship, returning its squared distance and
/// the ship itself, or `None` when no hostile ship exists.
pub fn acquire_target(ships: &Vec<Ship>, me: &Ship) -> (r: Option<(i64, Ship)>)
    requires
        me.wf(),
        forall|i: int| 0 <= i < ships@.len() ==> (#[trigger] ships@[i]).wf(),
    ensures
        r is Some <==> hostile_exists(ships@),
        r matches Some(p) ==> exists|j: int|
            #[trigger] is_first_nearest_hostile(ships@, *me, j) && p.1 == ships@[j] && p.0
                == ship_dist_sq(*me, ships@[j]),
        r matches Some(p) ==> p.1.wf() && 0 <= p.0 <= DIST_SQ_LIMIT,
{
    let mut best: Option<(i64, Ship)> = None;
    let ghost mut best_j: int = 0;
    let mut idx: usize = 0;
    while idx < ships.len()
        invariant
            0 <= idx <= ships@.len(),
            me.wf(),
            forall|i: int| 0 <= i < ships@.len() ==> (#[trigger] ships@[i]).wf(),
            best is None ==> forall|i: int| 0 <= i < idx ==> (#[trigger] ships@[i]).friendly,
            best matches Some(p) ==> {
                &&& 0 <= best_j < idx
                &&& !ships@[best_j].friendly
                &&& p.1 == ships@[best_j]
                &&& p.0 == ship_dist_sq(*me, ships@[best_j])
                &&& 0 <= p.0 <= DIST_SQ_LIMIT
                &&& forall|i: int|
                    0 <= i < idx && !(#[trigger] ships@[i]).friendly ==> ship_dist_sq(
                        *me,
                        ships@[best_j],
                    ) <= ship_dist_sq(*me, ships@[i])
                &&& forall|i: int|
                    0 <= i < best_j && !(#[trigger] ships@[i]).friendly ==> ship_dist_sq(
                        *me,
                        ships@[best_j],
                    ) < ship_dist_sq(*me, ships@[i])
            },
        decreases ships@.len() - idx,
    {
        let ship = ships[idx];
        if !ship.friendly {
            let d2 = dist_sq_fp(me.pos_x, me.pos_y, ship.pos_x, ship.pos_y);
            match best {
                Some((best_d2, _)) => {
                    if d2 < best_d2 {
                        best = Some((d2, ship));
                        proof {
                            best_j = idx as int;
                        }
                    }
                },
                None => {
                    best = Some((d2, ship));
                    proof {
                        best_j = idx as int;
                    }
                },
            }
        }
        idx = idx + 1;
    }
    proof {
        if best is Some {
            assert(is_first_nearest_hostile(ships@, *me, best_j));
        }
    }
    best
}

} // verus!
