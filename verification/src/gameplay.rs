//! Per-tick gameplay systems, one agent at a time: the player's intent
//! policy, the movement integrators for the player and the pursuers, and
//! the score counter.

use vstd::prelude::*;

use crate::geometry::{agent_pos_ok, Position};
use crate::ghosts::{valid_directions_spec, Pursuer};
use crate::nav::{
    movement_distance, movement_distance_spec, moved_position_spec, apply_movement,
    lemma_not_overshot_in_bounds, NavState, DT_LIMIT,
};
use crate::node::{NodeGroup, PacManDirection};
use crate::pacman::Pacman;

verus! {

/// Points collected by the player.
pub struct Score(pub u32);

impl Default for Score {
    /// A fresh score of zero points.
    fn default() -> (s: Score)
        ensures
            s.0 == 0,
    {
        Score(0)
    }
}

/// The player policy on one tick's intent: when idle, start moving that
/// way at once; when the intent reverses the heading, reverse at once; any
/// other intent is queued for the next arrival.  Without intent the
/// current heading is re-asserted, which re-derives the target or stops.
pub open spec fn apply_intent_spec(
    nav: NavState,
    ng: NodeGroup,
    intent: Option<PacManDirection>,
) -> NavState {
    match intent {
        Some(direction) => {
            if nav.node_direction == PacManDirection::Stop {
                let s = nav.set_direction_spec(direction, ng, false);
                NavState { queued_direction: None, ..s }
            } else if nav.node_direction.opposite_spec() == direction {
                let s = nav.set_direction_spec(direction, ng, true);
                NavState { queued_direction: None, ..s }
            } else {
                NavState { queued_direction: Some(direction), ..nav }
            }
        },
        None => nav.set_direction_spec(nav.node_direction, ng, false),
    }
}

/// Applies one tick of player intent to the agent, exactly
/// `apply_intent_spec`.
pub fn pacman_input_system(
    pacman: &mut Pacman,
    ng: &NodeGroup,
    intent: Option<PacManDirection>,
)
    requires
        ng.wf(),
        old(pacman).nav.in_range(*ng),
    ensures
        final(pacman).nav == apply_intent_spec(old(pacman).nav, *ng, intent),
        final(pacman).nav.in_range(*ng),
        old(pacman).nav.heading_ok() ==> final(pacman).nav.heading_ok(),
        final(pacman).nav.speed == old(pacman).nav.speed,
        final(pacman).radius == old(pacman).radius,
{
    match intent {
        Some(direction) => {
            if matches!(pacman.nav.node_direction, PacManDirection::Stop) {
                pacman.set_direction_and_target(direction, ng, false);
                pacman.nav.queued_direction = None;
            } else {
                let opp = pacman.nav.node_direction.opposite();
                if opp == direction {
                    pacman.set_direction_and_target(direction, ng, true);
                    pacman.nav.queued_direction = None;
                } else {
                    pacman.nav.queued_direction = Some(direction);
                }
            }
        },
        None => {
            let old_direction = pacman.nav.node_direction;
            pacman.set_direction_and_target(old_direction, ng, false);
        },
    }
}

/// One tick of the movement integrator: the position advanced by the
/// heading and elapsed time, then — if that reaches or passes the target —
/// the resolved arrival state and the exact landing-node position.
pub open spec fn pacman_tick_nav_spec(
    nav: NavState,
    position: Position,
    ng: NodeGroup,
    dt_micros: i64,
) -> NavState {
    let dist = movement_distance_spec(nav.speed, dt_micros);
    let moved = moved_position_spec(position, nav.node_direction, dist);
    if nav.overshot_spec(moved, ng) {
        nav.resolve_arrival_spec(ng)
    } else {
        nav
    }
}

/// The position after one tick of the movement integrator.
pub open spec fn pacman_tick_pos_spec(
    nav: NavState,
    position: Position,
    ng: NodeGroup,
    dt_micros: i64,
) -> Position {
    let dist = movement_distance_spec(nav.speed, dt_micros);
    let moved = moved_position_spec(position, nav.node_direction, dist);
    if nav.overshot_spec(moved, ng) {
        ng.nodes@[nav.landing_spec(ng) as int].position
    } else {
        moved
    }
}

/// One tick of player movement: advance the position along the heading at
/// the agent's speed, and on overshoot snap exactly onto the target node,
/// hop through a portal if it is one, and resolve the next heading from
/// the queued direction.
pub fn pacman_node_based_movement_system(
    pacman: &mut Pacman,
    position: &mut Position,
    ng: &NodeGroup,
    dt_micros: i64,
)
    requires
        ng.wf(),
        old(pacman).nav.wf(*ng),
        agent_pos_ok(*old(position)),
        dt_micros <= DT_LIMIT,
    ensures
        final(pacman).nav == pacman_tick_nav_spec(
            old(pacman).nav,
            *old(position),
            *ng,
            dt_micros,
        ),
        *final(position) == pacman_tick_pos_spec(old(pacman).nav, *old(position), *ng, dt_micros),
        final(pacman).nav.wf(*ng),
        agent_pos_ok(*final(position)),
        final(pacman).radius == old(pacman).radius,
{
    let dist = movement_distance(pacman.nav.speed, dt_micros);
    let d = pacman.nav.node_direction;
    apply_movement(position, d, dist);
    if pacman.nav.overshot_target(position, ng) {
        pacman.nav.resolve_arrival(position, ng);
    } else {
        proof {
            if old(pacman).nav.target_node is Some {
                lemma_not_overshot_in_bounds(pacman.nav, *position, *ng);
            } else {
                assert(d == PacManDirection::Stop);
                assert(*position == *old(position));
            }
        }
    }
}

/// The state a pursuer arrival snaps to, before the random redirect: the
/// landing node (through a portal if the target is one) becomes current.
pub open spec fn ghost_snapped_spec(nav: NavState, ng: NodeGroup) -> NavState {
    let landing = nav.landing_spec(ng);
    NavState {
        current_node: landing,
        node_position: ng.nodes@[landing as int].position,
        ..nav
    }
}

/// A pursuer arrival resolved with pick `d`: snap to the landing node,
/// then head for `d`.
pub open spec fn ghost_resolve_spec(nav: NavState, ng: NodeGroup, d: PacManDirection) -> NavState {
    ghost_snapped_spec(nav, ng).set_direction_spec(d, ng, false)
}

/// One tick of pursuer movement: advance the position along the heading,
/// and on overshoot snap onto the target node, hop through a portal if it
/// is one, and head for a uniformly random direction among the edges open
/// there (never the reverse of the heading unless nothing else is open).
pub fn ghost_movement_system(
    ghost: &mut Pursuer,
    position: &mut Position,
    ng: &NodeGroup,
    dt_micros: i64,
    rng: &mut rand::rngs::StdRng,
)
    requires
        ng.wf(),
        old(ghost).nav.wf(*ng),
        agent_pos_ok(*old(position)),
        dt_micros <= DT_LIMIT,
    ensures
        ({
            let dist = movement_distance_spec(old(ghost).nav.speed, dt_micros);
            let moved = moved_position_spec(*old(position), old(ghost).nav.node_direction, dist);
            if old(ghost).nav.overshot_spec(moved, *ng) {
                &&& exists|d: PacManDirection|
                    #[trigger] valid_directions_spec(
                        ghost_snapped_spec(old(ghost).nav, *ng),
                        *ng,
                    ).contains(d) && final(ghost).nav == ghost_resolve_spec(old(ghost).nav, *ng, d)
                &&& *final(position) == ng.nodes@[old(ghost).nav.landing_spec(*ng) as int].position
            } else {
                &&& final(ghost).nav == old(ghost).nav
                &&& *final(position) == moved
            }
        }),
        final(ghost).nav.wf(*ng),
        agent_pos_ok(*final(position)),
        final(ghost).radius == old(ghost).radius,
        final(ghost).is_visible == old(ghost).is_visible,
        final(ghost).goal == old(ghost).goal,
{
    let dist = movement_distance(ghost.nav.speed, dt_micros);
    let d0 = ghost.nav.node_direction;
    apply_movement(position, d0, dist);
    if ghost.nav.overshot_target(position, ng) {
        ghost.nav.arrive(position, ng);
        proof {
            assert(ghost.nav == ghost_snapped_spec(old(ghost).nav, *ng));
        }
        let dirs = ghost.valid_directions(ng);
        match ghost.choose_random_direction(&dirs, rng) {
            Some(chosen_direction) => {
                ghost.set_direction_and_target(chosen_direction, ng, false);
            },
            None => {
                // Unreachable: the direction list is never empty.
                proof {
                    assert(false);
                }
            },
        }
    } else {
        proof {
            if old(ghost).nav.target_node is Some {
                lemma_not_overshot_in_bounds(ghost.nav, *position, *ng);
            } else {
                assert(d0 == PacManDirection::Stop);
                assert(*position == *old(position));
            }
        }
    }
}

} // verus!
