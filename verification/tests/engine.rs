//! End-to-end tests of the per-tick decision engine.
//!
//! Positions are milli-units; headings handed to ingestion are host
//! milli-degrees (90 degrees of host heading is the engine's zero
//! radians, pointing along positive x).

use arena_agent::acquire_target;
use arena_agent::clear_world_state;
use arena_agent::find_threat;
use arena_agent::free_context;
use arena_agent::init_agent;
use arena_agent::make_action;
use arena_agent::set_config_parameter;
use arena_agent::update_score;
use arena_agent::update_ship;
use arena_agent::update_shot;
use arena_agent::Config;
use arena_agent::Ship;
use arena_agent::HALF_PI_FP;

/// Host milli-degrees that store as engine heading zero (along +x).
const MDEG_EAST: i64 = 90_000;

#[test]
fn init_agent_starts_pristine() {
    let ctx = init_agent(2, 1, 77);
    assert_eq!(ctx.seed, 77);
    assert_eq!(ctx.config.ship_hit_radius, 0);
    assert_eq!(ctx.world_state.ships.len(), 0);
    assert_eq!(ctx.world_state.shots.len(), 0);
    assert_eq!(ctx.world_state.agents.len(), 0);
    assert_eq!(ctx.own_ships_to_action.len(), 0);
    assert_eq!(ctx.own_agent_ids.len(), 0);
}

#[test]
fn config_update_sets_each_parameter_by_id() {
    let mut c = Config::default();
    c.update(0, 11);
    c.update(1, 22);
    c.update(2, 33);
    c.update(3, 44);
    c.update(4, 55);
    assert_eq!(c.ship_max_turn_rate, 11);
    assert_eq!(c.ship_max_velocity, 22);
    assert_eq!(c.ship_hit_radius, 33);
    assert_eq!(c.shot_velocity, 44);
    assert_eq!(c.shot_lifetime, 55);
    // An unrecognized id is a silent no-op.
    c.update(5, 99);
    c.update(1_000, 99);
    assert_eq!(c.ship_max_turn_rate, 11);
    assert_eq!(c.ship_max_velocity, 22);
    assert_eq!(c.ship_hit_radius, 33);
    assert_eq!(c.shot_velocity, 44);
    assert_eq!(c.shot_lifetime, 55);
}

#[test]
fn heading_is_stored_in_engine_convention() {
    let mut ctx = init_agent(1, 1, 0);
    // Host 0 degrees is the engine's +pi/2; host 90 degrees is 0;
    // host 180 degrees is -pi/2.
    update_ship(&mut ctx, 5, 100, 0, 0, 0);
    update_ship(&mut ctx, 5, 100, 0, 0, 90_000);
    update_ship(&mut ctx, 5, 100, 0, 0, 180_000);
    assert_eq!(ctx.world_state.ships[0].heading, HALF_PI_FP);
    assert_eq!(ctx.world_state.ships[1].heading, 0);
    assert_eq!(ctx.world_state.ships[2].heading, -HALF_PI_FP);
    // No id was learned as own, so nothing is queued and nothing is
    // friendly.
    assert_eq!(ctx.own_ships_to_action.len(), 0);
    assert!(!ctx.world_state.ships[0].friendly);
}

#[test]
fn first_call_with_empty_queue_returns_none_and_learns_id() {
    let mut ctx = init_agent(2, 1, 0);
    update_score(&mut ctx, 1, 3);
    let r = make_action(&mut ctx, 1, 0);
    assert_eq!(r, 0);
    // The id was learned; nothing else moved.
    assert_eq!(ctx.own_agent_ids.len(), 1);
    assert_eq!(ctx.own_agent_ids[0], 1);
    assert_eq!(ctx.world_state.agents.len(), 1);
    assert_eq!(ctx.world_state.ships.len(), 0);
    // A second call with the same id learns nothing new.
    let r = make_action(&mut ctx, 1, 1);
    assert_eq!(r, 0);
    assert_eq!(ctx.own_agent_ids.len(), 1);
}

#[test]
fn hostile_dead_ahead_thrust_and_fire() {
    let mut ctx = init_agent(2, 1, 0);
    let r = make_action(&mut ctx, 1, 0);
    assert_eq!(r, 0);
    // Own ship at the origin heading +x; hostile 10 units dead ahead.
    update_ship(&mut ctx, 1, 100, 0, 0, MDEG_EAST);
    update_ship(&mut ctx, 2, 100, 10_000, 0, MDEG_EAST);
    // Zero angular error, zero lateral offset: locked even with the
    // default zero hit radius. Thrust | fire = 9, no turn.
    let r = make_action(&mut ctx, 1, 1);
    assert_eq!(r, 9);
    assert_eq!(ctx.own_ships_to_action.len(), 0);
}

#[test]
fn hostile_to_the_left_turns_left_without_fire() {
    let mut ctx = init_agent(2, 1, 0);
    let r = make_action(&mut ctx, 1, 0);
    assert_eq!(r, 0);
    // Own ship heading +x; hostile 10 units along +y: the bearing error
    // is +pi/2, far outside the dead zone.
    update_ship(&mut ctx, 1, 100, 0, 0, MDEG_EAST);
    update_ship(&mut ctx, 2, 100, 0, 10_000, MDEG_EAST);
    // Thrust | turn-left = 3.
    let r = make_action(&mut ctx, 1, 1);
    assert_eq!(r, 3);
}

#[test]
fn hostile_to_the_right_turns_right() {
    let mut ctx = init_agent(2, 1, 0);
    let r = make_action(&mut ctx, 1, 0);
    assert_eq!(r, 0);
    update_ship(&mut ctx, 1, 100, 0, 0, MDEG_EAST);
    update_ship(&mut ctx, 2, 100, 0, -10_000, MDEG_EAST);
    // Thrust | turn-right = 5.
    let r = make_action(&mut ctx, 1, 1);
    assert_eq!(r, 5);
}

#[test]
fn threatening_shot_preempts_everything() {
    let mut ctx = init_agent(2, 1, 0);
    set_config_parameter(&mut ctx, 2, 1_000);
    let r = make_action(&mut ctx, 1, 0);
    assert_eq!(r, 0);
    // Own ship heading +x; a hostile is available dead ahead, but a
    // projectile sits 5 units dead ahead with zero lateral offset, well
    // within the 1-unit hit radius: the decision is to evade, which
    // suppresses all action for the tick.
    update_ship(&mut ctx, 1, 100, 0, 0, MDEG_EAST);
    update_ship(&mut ctx, 2, 100, 10_000, 0, MDEG_EAST);
    update_shot(&mut ctx, 2, 30, 5_000, 0, 270_000);
    let r = make_action(&mut ctx, 1, 1);
    assert_eq!(r, 0);
    // The pending ship was still consumed.
    assert_eq!(ctx.own_ships_to_action.len(), 0);
}

#[test]
fn shot_directly_behind_is_excluded_as_threat() {
    let mut ctx = init_agent(2, 1, 0);
    set_config_parameter(&mut ctx, 2, 1_000);
    let r = make_action(&mut ctx, 1, 0);
    assert_eq!(r, 0);
    // The projectile sits directly behind the ship: the bearing error is
    // pi, at and beyond the 179-degree rear exclusion, so it is not a
    // threat; the hostile dead ahead is engaged instead.
    update_ship(&mut ctx, 1, 100, 0, 0, MDEG_EAST);
    update_ship(&mut ctx, 2, 100, 10_000, 0, MDEG_EAST);
    update_shot(&mut ctx, 2, 30, -5_000, 0, 270_000);
    let r = make_action(&mut ctx, 1, 1);
    assert_eq!(r, 9);
}

#[test]
fn no_hostile_means_thrust_only() {
    let mut ctx = init_agent(1, 1, 0);
    set_config_parameter(&mut ctx, 2, 1_000);
    let r = make_action(&mut ctx, 1, 0);
    assert_eq!(r, 0);
    // Only the own ship is in the snapshot: no target, thrust only.
    update_ship(&mut ctx, 1, 100, 0, 0, MDEG_EAST);
    let r = make_action(&mut ctx, 1, 1);
    assert_eq!(r, 1);
}

#[test]
fn negative_hit_radius_never_fires() {
    let mut ctx = init_agent(2, 1, 0);
    set_config_parameter(&mut ctx, 2, -5_000);
    let r = make_action(&mut ctx, 1, 0);
    assert_eq!(r, 0);
    update_ship(&mut ctx, 1, 100, 0, 0, MDEG_EAST);
    update_ship(&mut ctx, 2, 100, 10_000, 0, MDEG_EAST);
    // Dead ahead, but a negative radius admits nothing: thrust only.
    let r = make_action(&mut ctx, 1, 1);
    assert_eq!(r, 1);
}

#[test]
fn queue_drains_one_ship_per_call_last_in_first_out() {
    let mut ctx = init_agent(2, 1, 0);
    let r = make_action(&mut ctx, 1, 0);
    assert_eq!(r, 0);
    // Two own ships; the hostile sits 10 units along +x from the first.
    // The second own ship, ingested later, acts first (LIFO): from
    // (0, -10000) the hostile bears +pi/4, so it turns left without
    // firing; the first own ship then fires dead ahead.
    update_ship(&mut ctx, 1, 100, 0, 0, MDEG_EAST);
    update_ship(&mut ctx, 1, 100, 0, -10_000, MDEG_EAST);
    update_ship(&mut ctx, 2, 100, 10_000, 0, MDEG_EAST);
    assert_eq!(ctx.own_ships_to_action.len(), 2);
    let r = make_action(&mut ctx, 1, 1);
    assert_eq!(r, 3);
    assert_eq!(ctx.own_ships_to_action.len(), 1);
    let r = make_action(&mut ctx, 1, 1);
    assert_eq!(r, 9);
    assert_eq!(ctx.own_ships_to_action.len(), 0);
    // Empty queue again: NONE, and the snapshot is untouched.
    let ships = ctx.world_state.ships.len();
    let shots = ctx.world_state.shots.len();
    let agents = ctx.world_state.agents.len();
    let r = make_action(&mut ctx, 1, 2);
    assert_eq!(r, 0);
    assert_eq!(ctx.world_state.ships.len(), ships);
    assert_eq!(ctx.world_state.shots.len(), shots);
    assert_eq!(ctx.world_state.agents.len(), agents);
    assert_eq!(ctx.own_agent_ids.len(), 1);
}

#[test]
fn own_ships_are_friendly_and_queued() {
    let mut ctx = init_agent(2, 1, 0);
    let r = make_action(&mut ctx, 7, 0);
    assert_eq!(r, 0);
    update_ship(&mut ctx, 7, 100, 1_000, 2_000, MDEG_EAST);
    update_ship(&mut ctx, 8, 100, 3_000, 4_000, MDEG_EAST);
    assert!(ctx.world_state.ships[0].friendly);
    assert!(!ctx.world_state.ships[1].friendly);
    assert_eq!(ctx.own_ships_to_action.len(), 1);
    assert_eq!(ctx.own_ships_to_action[0].pos_x, 1_000);
}

#[test]
fn clear_world_state_empties_snapshot_and_pending_queue() {
    let mut ctx = init_agent(2, 1, 0);
    set_config_parameter(&mut ctx, 2, 1_000);
    let r = make_action(&mut ctx, 1, 0);
    assert_eq!(r, 0);
    update_ship(&mut ctx, 1, 100, 0, 0, MDEG_EAST);
    update_shot(&mut ctx, 2, 30, 5_000, 0, 270_000);
    update_score(&mut ctx, 2, 10);
    assert_eq!(ctx.own_ships_to_action.len(), 1);
    clear_world_state(&mut ctx);
    assert_eq!(ctx.world_state.ships.len(), 0);
    assert_eq!(ctx.world_state.shots.len(), 0);
    assert_eq!(ctx.world_state.agents.len(), 0);
    // No ship of the dead round is left waiting for an action.
    assert_eq!(ctx.own_ships_to_action.len(), 0);
    // Configuration and the learned own-id set are per-context and stay.
    assert_eq!(ctx.config.ship_hit_radius, 1_000);
    assert_eq!(ctx.own_agent_ids.len(), 1);
    // The first decision of the new round finds nothing pending.
    let r = make_action(&mut ctx, 1, 1);
    assert_eq!(r, 0);
}

#[test]
fn free_context_resets_everything() {
    let mut ctx = init_agent(2, 1, 42);
    set_config_parameter(&mut ctx, 2, 1_000);
    let r = make_action(&mut ctx, 1, 0);
    assert_eq!(r, 0);
    update_ship(&mut ctx, 1, 100, 0, 0, MDEG_EAST);
    free_context(&mut ctx);
    assert_eq!(ctx.seed, 0);
    assert_eq!(ctx.config.ship_hit_radius, 0);
    assert_eq!(ctx.world_state.ships.len(), 0);
    assert_eq!(ctx.own_ships_to_action.len(), 0);
    assert_eq!(ctx.own_agent_ids.len(), 0);
}

#[test]
fn nearest_hostile_wins_and_first_breaks_ties() {
    let me = Ship { hp: 100, pos_x: 0, pos_y: 0, heading: 0, friendly: true };
    let near_a = Ship { hp: 100, pos_x: 5_000, pos_y: 0, heading: 0, friendly: false };
    let near_b = Ship { hp: 100, pos_x: 0, pos_y: 5_000, heading: 0, friendly: false };
    let far = Ship { hp: 100, pos_x: 10_000, pos_y: 0, heading: 0, friendly: false };
    let ally = Ship { hp: 100, pos_x: 1, pos_y: 0, heading: 0, friendly: true };

    // The nearest hostile is selected even when listed after a farther
    // one, and a nearer ally is skipped.
    let ships = vec![ally, far, near_a];
    let (d2, t) = acquire_target(&ships, &me).unwrap();
    assert_eq!(d2, 25_000_000);
    assert_eq!(t, near_a);

    // Two hostiles at the same minimal distance: the first encountered
    // wins.
    let ships = vec![far, near_b, near_a];
    let (d2, t) = acquire_target(&ships, &me).unwrap();
    assert_eq!(d2, 25_000_000);
    assert_eq!(t, near_b);

    // No hostile at all.
    let ships = vec![ally, me];
    assert!(acquire_target(&ships, &me).is_none());
}

#[test]
fn find_threat_respects_radius_and_rear_exclusion() {
    let me = Ship { hp: 100, pos_x: 0, pos_y: 0, heading: 0, friendly: true };
    let mut ctx = init_agent(1, 1, 0);
    update_shot(&mut ctx, 2, 30, 5_000, 0, 270_000);
    // Dead ahead at 5 units: lateral offset zero.
    assert!(find_threat(&me, &ctx.world_state.shots, 1_000));
    // A negative radius admits nothing.
    assert!(!find_threat(&me, &ctx.world_state.shots, -1));

    // A shot almost behind (about 175 degrees off the heading) is still
    // inside the 179-degree limit, and its small lateral offset makes it
    // a threat; one exactly behind is excluded.
    let mut ctx = init_agent(1, 1, 0);
    update_shot(&mut ctx, 2, 30, -4_981, 436, 270_000);
    assert!(find_threat(&me, &ctx.world_state.shots, 1_000));
    let mut ctx = init_agent(1, 1, 0);
    update_shot(&mut ctx, 2, 30, -5_000, 0, 270_000);
    assert!(!find_threat(&me, &ctx.world_state.shots, 1_000));

    // No shots at all.
    let ctx = init_agent(1, 1, 0);
    assert!(!find_threat(&me, &ctx.world_state.shots, 1_000));
}
