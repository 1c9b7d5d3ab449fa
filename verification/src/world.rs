//! The per-tick world snapshot.
//!
//! Ships, projectiles and score records are appended by the ingestion
//! calls and only emptied by an explicit reset between rounds. Positions
//! are milli-units and headings microradians, already converted to the
//! engine's convention.

use vstd::prelude::*;

use crate::geometry::{COORD_LIMIT, HEADING_LIMIT};

verus! {

/// One observed ship.
#[derive(Clone, Copy, PartialEq, Eq, Structural, Debug)]
pub struct Ship {
    pub hp: i32,
    pub pos_x: i64,
    pub pos_y: i64,
    pub heading: i64,
    pub friendly: bool,
}

impl Ship {
    /// Position within the arena bounds and heading within the stored
    /// range.
    pub open spec fn wf(self) -> bool {
        &&& -COORD_LIMIT <= self.pos_x <= COORD_LIMIT
        &&& -COORD_LIMIT <= self.pos_y <= COORD_LIMIT
        &&& -HEADING_LIMIT <= self.heading <= HEADING_LIMIT
    }
}

/// One observed projectile.
#[derive(Clone, Copy, PartialEq, Eq, Structural, Debug)]
pub struct Shot {
    pub lifetime: i32,
    pub pos_x: i64,
    pub pos_y: i64,
    pub heading: i64,
}

impl Shot {
    /// Position within the arena bounds and heading within the stored
    /// range.
    pub open spec fn wf(self) -> bool {
        &&& -COORD_LIMIT <= self.pos_x <= COORD_LIMIT
        &&& -COORD_LIMIT <= self.pos_y <= COORD_LIMIT
        &&& -HEADING_LIMIT <= self.heading <= HEADING_LIMIT
    }
}

/// One appended score record; the log is append-only and not
/// deduplicated.
#[derive(Clone, Copy, PartialEq, Eq, Structural, Debug)]
pub struct Agent {
    pub agent_id: u32,
    pub score: i32,
}

/// Everything observed since the last reset.
pub struct WorldState {
    pub ships: Vec<Ship>,
    pub shots: Vec<Shot>,
    pub agents: Vec<Agent>,
}

impl WorldState {
    /// Every stored ship and shot is within the engine's bounds.
    pub open spec fn wf(self) -> bool {
        &&& forall|i: int| 0 <= i < self.ships@.len() ==> #[trigger] self.ships@[i].wf()
        &&& forall|i: int| 0 <= i < self.shots@.len() ==> #[trigger] self.shots@[i].wf()
    }

    /// A fresh, empty snapshot.
    pub fn new() -> (w: WorldState)
        ensures
            w.ships@.len() == 0,
            w.shots@.len() == 0,
            w.agents@.len() == 0,
            w.wf(),
    {
        WorldState { ships: Vec::new(), shots: Vec::new(), agents: Vec::new() }
    }
}

} // verus!
