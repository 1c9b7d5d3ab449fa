//! Action encoding.
//!
//! A decision is a strongly typed triple of thrust, turn and fire; only
//! the final encoding step packs it into the host's bitmask, one
//! independent flag per field, combined with bitwise or. The all-zero
//! mask means "do nothing"; the two turn flags are mutually exclusive by
//! construction, since a decision holds at most one turn.

use vstd::prelude::*;

use crate::steering::TurnDirection;

verus! {

/// The all-zero mask: no thrust, no turn, no fire.
pub const ACTION_NONE: u32 = 0;

/// Thrust flag.
pub const ACTION_THRUST: u32 = 1;

/// Left-turn flag.
pub const ACTION_TURN_LEFT: u32 = 2;

/// Right-turn flag.
pub const ACTION_TURN_RIGHT: u32 = 4;

/// Fire flag.
pub const ACTION_FIRE: u32 = 8;

/// One tick's decision, not yet encoded.
#[derive(Clone, Copy, Debug)]
pub struct Action {
    pub enable_thrusters: bool,
    pub turn_direction: Option<TurnDirection>,
    pub fire: bool,
}

impl Action {
    /// The flag carried by a turn decision.
    pub open spec fn spec_turn_flag(self) -> u32 {
        match self.turn_direction {
            None => 0u32,
            Some(TurnDirection::Left) => ACTION_TURN_LEFT,
            Some(TurnDirection::Right) => ACTION_TURN_RIGHT,
        }
    }

    /// The host bitmask of this decision.
    pub open spec fn spec_encoded(self) -> u32 {
        (if self.enable_thrusters {
            ACTION_THRUST
        } else {
            0u32
        }) | self.spec_turn_flag() | (if self.fire {
            ACTION_FIRE
        } else {
            0u32
        })
    }

    /// A decision that does nothing.
    pub fn none() -> (a: Action)
        ensures
            a == (Action { enable_thrusters: false, turn_direction: None, fire: false }),
    {
        Action { enable_thrusters: false, turn_direction: None, fire: false }
    }

    /// Packs the decision into the host's bitmask.
    pub fn encode(&self) -> (r: u32)
        ensures
            r == self.spec_encoded(),
    {
        let thrust: u32 = if self.enable_thrusters {
            ACTION_THRUST
        } else {
            0
        };
        let turn: u32 = match self.turn_direction {
            None => 0,
            Some(TurnDirection::Left) => ACTION_TURN_LEFT,
            Some(TurnDirection::Right) => ACTION_TURN_RIGHT,
        };
        let fire: u32 = if self.fire {
            ACTION_FIRE
        } else {
            0
        };
        thrust | turn | fire
    }
}

/// Each flag of the encoded mask reflects exactly its field of the
/// decision, and a decision that does nothing encodes to `ACTION_NONE`.
pub proof fn lemma_encoded_bits(a: Action)
    ensures
        ((a.spec_encoded() & ACTION_THRUST) != 0) == a.enable_thrusters,
        ((a.spec_encoded() & ACTION_TURN_LEFT) != 0) == (a.turn_direction == Some(
            TurnDirection::Left,
        )),
        ((a.spec_encoded() & ACTION_TURN_RIGHT) != 0) == (a.turn_direction == Some(
            TurnDirection::Right,
        )),
        ((a.spec_encoded() & ACTION_FIRE) != 0) == a.fire,
        (a.spec_encoded() == ACTION_NONE) == (!a.enable_thrusters && a.turn_direction is None
            && !a.fire),
{
    let t: u32 = if a.enable_thrusters {
        1
    } else {
        0
    };
    let d: u32 = a.spec_turn_flag();
    let f: u32 = if a.fire {
        8
    } else {
        0
    };
    assert((((t | d | f) & 1) != 0) == (t == 1) && (((t | d | f) & 2) != 0) == (d == 2) && (((t | d
        | f) & 4) != 0) == (d == 4) && (((t | d | f) & 8) != 0) == (f == 8) && ((t | d | f == 0) == (
    t == 0 && d == 0 && f == 0))) by (bit_vector)
        requires
            t == 0 || t == 1,
            d == 0 || d == 2 || d == 4,
            f == 0 || f == 8,
    ;
}

} // verus!
