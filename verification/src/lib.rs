//! Decision core of a tick-based 2D arena combat agent.
//!
//! Each tick the host ingests the world state (ships, projectiles,
//! scores) and then asks for one discrete action for one of the agent's
//! own ships. Threat assessment runs first and preempts everything else;
//! otherwise the nearest hostile ship is acquired, a turn is steered
//! toward it, and fire is set on lock-on.
//!
//! The engine works on a fixed-point model: positions and radii are held
//! in milli-units and angles in microradians, so every geometric decision
//! is exact integer arithmetic and is verified. The host boundary (float
//! conversion, handles, logging) stays outside this crate.

use vstd::prelude::*;

mod action;
mod angle;
mod config;
mod geometry;
mod steering;
mod target;
mod threat;
mod trig;
mod world;

pub use crate::action::lemma_encoded_bits;
pub use crate::action::Action;
pub use crate::action::ACTION_FIRE;
pub use crate::action::ACTION_NONE;
pub use crate::action::ACTION_THRUST;
pub use crate::action::ACTION_TURN_LEFT;
pub use crate::action::ACTION_TURN_RIGHT;
pub use crate::angle::lemma_norm_angle_full_turn;
pub use crate::angle::lemma_norm_angle_range;
pub use crate::angle::norm_angle;
pub use crate::angle::normalize_angle;
pub use crate::angle::HALF_PI_FP;
pub use crate::angle::NORM_INPUT_LIMIT;
pub use crate::angle::PI_FP;
pub use crate::angle::SCALE;
pub use crate::angle::TWO_PI_FP;
pub use crate::config::Config;
pub use crate::geometry::dist_sq;
pub use crate::geometry::heading_error;
pub use crate::geometry::heading_from_mdeg;
pub use crate::geometry::lemma_dead_ahead_always_within;
pub use crate::geometry::lemma_heading_error_full_turn;
pub use crate::geometry::lemma_perpendicular_within_only_at_zero;
pub use crate::geometry::within_hit_radius;
pub use crate::geometry::within_hit_radius_fp;
pub use crate::geometry::CONFIG_LIMIT;
pub use crate::geometry::COORD_LIMIT;
pub use crate::geometry::DIST_SQ_LIMIT;
pub use crate::geometry::HEADING_LIMIT;
pub use crate::geometry::HEADING_MDEG_LIMIT;
pub use crate::steering::turn_decision;
pub use crate::steering::turn_for;
pub use crate::steering::TurnDirection;
pub use crate::steering::DEAD_ZONE_FP;
pub use crate::target::acquire_target;
pub use crate::target::hostile_exists;
pub use crate::target::is_first_nearest_hostile;
pub use crate::target::lemma_first_nearest_unique;
pub use crate::target::ship_dist_sq;
pub use crate::threat::find_threat;
pub use crate::threat::shot_threatens;
pub use crate::threat::threat_exists;
pub use crate::threat::REAR_LIMIT_FP;
pub use crate::trig::atan2_approx;
pub use crate::trig::atan2_fp;
pub use crate::trig::cos_approx;
pub use crate::trig::lemma_sin_at_half_pi;
pub use crate::trig::sin_approx;
pub use crate::world::Agent;
pub use crate::world::Ship;
pub use crate::world::Shot;
pub use crate::world::WorldState;

verus! {

/// One agent's whole decision state: configuration, accumulated world
/// snapshot, the queue of own ships still waiting for an action this
/// tick, and the lazily learned set of own agent ids.
pub struct Context {
    pub config: Config,
    pub seed: u32,
    pub world_state: WorldState,
    /// Own ships that did not yet receive an action this tick, drained
    /// last-in-first-out.
    pub own_ships_to_action: Vec<Ship>,
    /// Agent ids learned to belong to this team.
    pub own_agent_ids: Vec<u32>,
}

impl Context {
    /// Configuration, snapshot and pending queue all within the engine's
    /// bounds.
    pub open spec fn wf(self) -> bool {
        &&& self.config.wf()
        &&& self.world_state.wf()
        &&& forall|i: int|
            0 <= i < self.own_ships_to_action@.len() ==> (
            #[trigger] self.own_ships_to_action@[i]).wf()
    }
}

/// Whether `ids` already records `id`.
fn contains_id(ids: &Vec<u32>, id: u32) -> (r: bool)
    ensures
        r == ids@.contains(id),
{
    let mut idx: usize = 0;
    while idx < ids.len()
        invariant
            0 <= idx <= ids@.len(),
            forall|i: int| 0 <= i < idx ==> ids@[i] != id,
        decreases ids@.len() - idx,
    {
        if ids[idx] == id {
            return true;
        }
        idx = idx + 1;
    }
    false
}

/// Allocates a fresh context. The ship counts are part of the host's
/// calling convention and are not consumed by the decision core; the seed
/// is stored but never read by it.
pub fn init_agent(_n_agents: u32, _agent_multiplicity: u32, seed: u32) -> (ctx: Context)
    ensures
        ctx.config == Config::default_spec(),
        ctx.seed == seed,
        ctx.world_state.ships@.len() == 0,
        ctx.world_state.shots@.len() == 0,
        ctx.world_state.agents@.len() == 0,
        ctx.own_ships_to_action@.len() == 0,
        ctx.own_agent_ids@.len() == 0,
        ctx.wf(),
{
    Context {
        config: Config::default(),
        seed,
        world_state: WorldState::new(),
        own_ships_to_action: Vec::new(),
        own_agent_ids: Vec::new(),
    }
}

/// Returns the context to its pristine state.
pub fn free_context(ctx: &mut Context)
    ensures
        final(ctx).config == Config::default_spec(),
        final(ctx).seed == 0,
        final(ctx).world_state.ships@.len() == 0,
        final(ctx).world_state.shots@.len() == 0,
        final(ctx).world_state.agents@.len() == 0,
        final(ctx).own_ships_to_action@.len() == 0,
        final(ctx).own_agent_ids@.len() == 0,
        final(ctx).wf(),
{
    *ctx = init_agent(0, 0, 0);
}

/// Sets one configuration parameter by id; unrecognized ids are ignored
/// silently, and nothing else of the context changes.
pub fn set_config_parameter(ctx: &mut Context, param: u32, value: i64)
    requires
        old(ctx).wf(),
        -CONFIG_LIMIT <= value <= CONFIG_LIMIT,
    ensures
        final(ctx).wf(),
        final(ctx).config == old(ctx).config.spec_updated(param, value),
        final(ctx).seed == old(ctx).seed,
        final(ctx).world_state == old(ctx).world_state,
        final(ctx).own_ships_to_action == old(ctx).own_ships_to_action,
        final(ctx).own_agent_ids == old(ctx).own_agent_ids,
{
    ctx.config.update(param, value);
}

/// Empties the world snapshot (ships, shots, score records) and the
/// pending-own-ships queue for a new round, so no decision of the new
/// round can act on a ship of the dead one; the configuration and the
/// learned own-id set are per-context, not per-round, and stay.
pub fn clear_world_state(ctx: &mut Context)
    requires
        old(ctx).wf(),
    ensures
        final(ctx).wf(),
        final(ctx).world_state.ships@.len() == 0,
        final(ctx).world_state.shots@.len() == 0,
        final(ctx).world_state.agents@.len() == 0,
        final(ctx).own_ships_to_action@.len() == 0,
        final(ctx).config == old(ctx).config,
        final(ctx).seed == old(ctx).seed,
        final(ctx).own_agent_ids == old(ctx).own_agent_ids,
{
    ctx.world_state = WorldState::new();
    ctx.own_ships_to_action = Vec::new();
}

/// Appends one observed ship to the snapshot. A ship of an agent already
/// learned as own is flagged friendly and also queued for an action this
/// tick. The heading arrives in host milli-degrees and is stored in the
/// engine's microradian convention.
pub fn update_ship(
    ctx: &mut Context,
    agent_id: u32,
    hp: i32,
    pos_x: i64,
    pos_y: i64,
    heading_mdeg: i64,
)
    requires
        old(ctx).wf(),
        -COORD_LIMIT <= pos_x <= COORD_LIMIT,
        -COORD_LIMIT <= pos_y <= COORD_LIMIT,
        -HEADING_MDEG_LIMIT <= heading_mdeg <= HEADING_MDEG_LIMIT,
    ensures
        final(ctx).wf(),
        ({
            let ship = (Ship {
                hp,
                pos_x,
                pos_y,
                heading: heading_from_mdeg(heading_mdeg as int) as i64,
                friendly: old(ctx).own_agent_ids@.contains(agent_id),
            });
            &&& final(ctx).world_state.ships@ == old(ctx).world_state.ships@.push(ship)
            &&& final(ctx).own_ships_to_action@ == if old(ctx).own_agent_ids@.contains(agent_id) {
                old(ctx).own_ships_to_action@.push(ship)
            } else {
                old(ctx).own_ships_to_action@
            }
        }),
        final(ctx).world_state.shots == old(ctx).world_state.shots,
        final(ctx).world_state.agents == old(ctx).world_state.agents,
        final(ctx).config == old(ctx).config,
        final(ctx).seed == old(ctx).seed,
        final(ctx).own_agent_ids == old(ctx).own_agent_ids,
{
    let heading = crate::geometry::heading_fp_from_mdeg(heading_mdeg);
    let friendly = contains_id(&ctx.own_agent_ids, agent_id);
    let ship = Ship { hp, pos_x, pos_y, heading, friendly };
    if friendly {
        ctx.own_ships_to_action.push(ship);
    }
    ctx.world_state.ships.push(ship);
}

/// Appends one observed projectile to the snapshot; the heading arrives
/// in host milli-degrees, as for ships. The firing agent's id is part of
/// the host's calling convention and is not consumed.
pub fn update_shot(
    ctx: &mut Context,
    _agent_id: u32,
    lifetime: i32,
    pos_x: i64,
    pos_y: i64,
    heading_mdeg: i64,
)
    requires
        old(ctx).wf(),
        -COORD_LIMIT <= pos_x <= COORD_LIMIT,
        -COORD_LIMIT <= pos_y <= COORD_LIMIT,
        -HEADING_MDEG_LIMIT <= heading_mdeg <= HEADING_MDEG_LIMIT,
    ensures
        final(ctx).wf(),
        final(ctx).world_state.shots@ == old(ctx).world_state.shots@.push(
            (Shot {
                lifetime,
                pos_x,
                pos_y,
                heading: heading_from_mdeg(heading_mdeg as int) as i64,
            }),
        ),
        final(ctx).world_state.ships == old(ctx).world_state.ships,
        final(ctx).world_state.agents == old(ctx).world_state.agents,
        final(ctx).config == old(ctx).config,
        final(ctx).seed == old(ctx).seed,
        final(ctx).own_ships_to_action == old(ctx).own_ships_to_action,
        final(ctx).own_agent_ids == old(ctx).own_agent_ids,
{
    let heading = crate::geometry::heading_fp_from_mdeg(heading_mdeg);
    let shot = Shot { lifetime, pos_x, pos_y, heading };
    ctx.world_state.shots.push(shot);
}

/// Appends one score record; the log is append-only and not
/// deduplicated.
pub fn update_score(ctx: &mut Context, agent_id: u32, score: i32)
    requires
        old(ctx).wf(),
    ensures
        final(ctx).wf(),
        final(ctx).world_state.agents@ == old(ctx).world_state.agents@.push(
            (Agent { agent_id, score }),
        ),
        final(ctx).world_state.ships == old(ctx).world_state.ships,
        final(ctx).world_state.shots == old(ctx).world_state.shots,
        final(ctx).config == old(ctx).config,
        final(ctx).seed == old(ctx).seed,
        final(ctx).own_ships_to_action == old(ctx).own_ships_to_action,
        final(ctx).own_agent_ids == old(ctx).own_agent_ids,
{
    ctx.world_state.agents.push(Agent { agent_id, score });
}

/// The decision taken against an acquired target: thrust always on, the
/// turn steered by the heading error, fire exactly when the lateral
/// offset at the target's distance is within the hit radius.
pub open spec fn decision_for(me: Ship, target: Ship, radius: int) -> Action {
    let d2 = ship_dist_sq(me, target);
    let diff = heading_error(
        me.heading as int,
        me.pos_x as int,
        me.pos_y as int,
        target.pos_x as int,
        target.pos_y as int,
    );
    Action {
        enable_thrusters: true,
        turn_direction: turn_for(diff),
        fire: within_hit_radius(d2, diff, radius),
    }
}

/// The fire flag of the encoded decision against a target is set exactly
/// when the lateral offset at the target's squared distance is within the
/// hit radius.
pub proof fn lemma_fire_iff_locked(me: Ship, target: Ship, radius: int)
    ensures
        ((decision_for(me, target, radius).spec_encoded() & ACTION_FIRE) != 0)
            == within_hit_radius(
            ship_dist_sq(me, target),
            heading_error(
                me.heading as int,
                me.pos_x as int,
                me.pos_y as int,
                target.pos_x as int,
                target.pos_y as int,
            ),
            radius,
        ),
{
    lemma_encoded_bits(decision_for(me, target, radius));
}

/// The per-tick entry point. Records the calling agent id as own, pops
/// one pending own ship (returning `ACTION_NONE` when none is pending),
/// evades when any projectile threatens, otherwise steers toward and
/// possibly fires at the nearest hostile ship. The snapshot, the
/// configuration and the seed never change, and exactly one pending ship
/// is consumed when one is there.
pub fn make_action(ctx: &mut Context, own_agent_id: u32, _tick: u32) -> (r: u32)
    requires
        old(ctx).wf(),
    ensures
        final(ctx).wf(),
        final(ctx).config == old(ctx).config,
        final(ctx).seed == old(ctx).seed,
        final(ctx).world_state == old(ctx).world_state,
        final(ctx).own_agent_ids@ == if old(ctx).own_agent_ids@.contains(own_agent_id) {
            old(ctx).own_agent_ids@
        } else {
            old(ctx).own_agent_ids@.push(own_agent_id)
        },
        old(ctx).own_ships_to_action@.len() == 0 ==> r == ACTION_NONE
            && final(ctx).own_ships_to_action@ == old(ctx).own_ships_to_action@,
        old(ctx).own_ships_to_action@.len() > 0 ==> ({
            let ship = old(ctx).own_ships_to_action@.last();
            let shots = old(ctx).world_state.shots@;
            let ships = old(ctx).world_state.ships@;
            let radius = old(ctx).config.ship_hit_radius as int;
            &&& final(ctx).own_ships_to_action@ == old(ctx).own_ships_to_action@.drop_last()
            &&& (threat_exists(ship, shots, radius) ==> r == ACTION_NONE)
            &&& (!threat_exists(ship, shots, radius) && !hostile_exists(ships) ==> r == (Action {
                enable_thrusters: true,
                turn_direction: None,
                fire: false,
            }).spec_encoded())
            &&& (!threat_exists(ship, shots, radius) && hostile_exists(ships) ==> exists|j: int|
                #[trigger] is_first_nearest_hostile(ships, ship, j) && r == decision_for(
                    ship,
                    ships[j],
                    radius,
                ).spec_encoded())
        }),
{
    // Record the caller's id as one of this team's; idempotent.
    if !contains_id(&ctx.own_agent_ids, own_agent_id) {
        ctx.own_agent_ids.push(own_agent_id);
    }
    let ship = match ctx.own_ships_to_action.pop() {
        Some(s) => s,
        None => {
            // No pending own ship: expected on the first calls of a
            // round, before any own ship was ingested.
            return ACTION_NONE;
        },
    };
    let radius = ctx.config.ship_hit_radius;
    if find_threat(&ship, &ctx.world_state.shots, radius) {
        // Evasion preempts offense: suppress all action this tick.
        return ACTION_NONE;
    }
    match acquire_target(&ctx.world_state.ships, &ship) {
        None => {
            // No hostile ship left: thrust only.
            let a = Action { enable_thrusters: true, turn_direction: None, fire: false };
            a.encode()
        },
        Some((d2, target)) => {
            let diff = crate::geometry::heading_error_fp(
                ship.heading,
                ship.pos_x,
                ship.pos_y,
                target.pos_x,
                target.pos_y,
            );
            let turn = turn_decision(diff);
            let fire = within_hit_radius_fp(d2, diff, radius);
            let a = Action { enable_thrusters: true, turn_direction: turn, fire };
            a.encode()
        },
    }
}

} // verus!
