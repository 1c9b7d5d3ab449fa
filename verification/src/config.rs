//! The flat set of host-tunable parameters.
//!
//! Each parameter is a length or rate in milli-units and is set
//! independently by a small numeric id; an unrecognized id changes
//! nothing.

use vstd::prelude::*;

use crate::geometry::CONFIG_LIMIT;

verus! {

/// The five named parameters, all in milli-units.
#[derive(Clone, Copy, PartialEq, Eq, Structural, Debug)]
pub struct Config {
    pub ship_max_turn_rate: i64,
    pub ship_max_velocity: i64,
    pub ship_hit_radius: i64,
    pub shot_velocity: i64,
    pub shot_lifetime: i64,
}

impl Config {
    /// The fresh configuration: every parameter zero.
    pub open spec fn default_spec() -> Config {
        Config {
            ship_max_turn_rate: 0,
            ship_max_velocity: 0,
            ship_hit_radius: 0,
            shot_velocity: 0,
            shot_lifetime: 0,
        }
    }

    /// Every parameter lies within the engine's accepted range.
    pub open spec fn wf(self) -> bool {
        &&& -CONFIG_LIMIT <= self.ship_max_turn_rate <= CONFIG_LIMIT
        &&& -CONFIG_LIMIT <= self.ship_max_velocity <= CONFIG_LIMIT
        &&& -CONFIG_LIMIT <= self.ship_hit_radius <= CONFIG_LIMIT
        &&& -CONFIG_LIMIT <= self.shot_velocity <= CONFIG_LIMIT
        &&& -CONFIG_LIMIT <= self.shot_lifetime <= CONFIG_LIMIT
    }

    /// The configuration after setting the parameter named by `id` to
    /// `value`; ids above 4 name no parameter and change nothing.
    pub open spec fn spec_updated(self, id: u32, value: i64) -> Config {
        if id == 0 {
            Config { ship_max_turn_rate: value, ..self }
        } else if id == 1 {
            Config { ship_max_velocity: value, ..self }
        } else if id == 2 {
            Config { ship_hit_radius: value, ..self }
        } else if id == 3 {
            Config { shot_velocity: value, ..self }
        } else if id == 4 {
            Config { shot_lifetime: value, ..self }
        } else {
            self
        }
    }

    /// Sets one parameter by id; unrecognized ids are a no-op.
    pub fn update(&mut self, id: u32, value: i64)
        requires
            old(self).wf(),
            -CONFIG_LIMIT <= value <= CONFIG_LIMIT,
        ensures
            *final(self) == old(self).spec_updated(id, value),
            final(self).wf(),
    {
        match id {
            0 => self.ship_max_turn_rate = value,
            1 => self.ship_max_velocity = value,
            2 => self.ship_hit_radius = value,
            3 => self.shot_velocity = value,
            4 => self.shot_lifetime = value,
            _ => (),
        }
    }
}

impl Default for Config {
    /// A fresh configuration with every parameter zero.
    fn default() -> (c: Config)
        ensures
            c == Config::default_spec(),
            c.wf(),
    {
        Config {
            ship_max_turn_rate: 0,
            ship_max_velocity: 0,
            ship_hit_radius: 0,
            shot_velocity: 0,
            shot_lifetime: 0,
        }
    }
}

} // verus!
