//! The player agent: a navigation state plus its collision radius, with
//! the state-machine operations delegated to the shared `NavState`.

use vstd::prelude::*;

use crate::geometry::{pos_ok, Position, UNIT};
use crate::nav::NavState;
use crate::node::{NodeGroup, PacManDirection};

verus! {

/// Collision radius of the player agent, in sub-units.
pub const PACMAN_RADIUS: i64 = 8 * UNIT;

/// Speed of the player agent, in sub-units per second.
pub const PACMAN_SPEED: i64 = 100 * UNIT;

/// The player agent.
#[derive(Debug, Clone, Copy, PartialEq)]
pub struct Pacman {
    pub radius: i64,
    pub nav: NavState,
}

impl Pacman {
    /// Makes a player agent idle at `current_node`, at the standard radius
    /// and speed.
    pub fn new(
        node_position: Position,
        current_node: usize,
        queued_direction: Option<PacManDirection>,
    ) -> (p: Pacman)
        ensures
            p.radius == PACMAN_RADIUS,
            p.nav == (NavState {
                node_position,
                speed: PACMAN_SPEED,
                node_direction: PacManDirection::Stop,
                queued_direction,
                current_node,
                target_node: None,
                is_reversing: false,
            }),
    {
        Pacman {
            radius: PACMAN_RADIUS,
            nav: NavState::new(node_position, PACMAN_SPEED, current_node, queued_direction),
        }
    }

    /// The position of the first node of the graph, or the origin when the
    /// graph has no nodes.
    pub fn find_spawn_node(ng: &NodeGroup) -> (p: Position)
        ensures
            ng.nodes@.len() > 0 ==> p == ng.nodes@[0].position,
            ng.nodes@.len() == 0 ==> p == (Position { x: 0, y: 0 }),
    {
        if ng.nodes.len() > 0 {
            ng.nodes[0].position
        } else {
            Position { x: 0, y: 0 }
        }
    }

    /// True exactly when the current node has an edge for `direction`
    /// (`Stop` never has one).
    pub fn valid_direction(&self, direction: PacManDirection, ng: &NodeGroup) -> (r: bool)
        requires
            ng.wf(),
            self.nav.in_range(*ng),
        ensures
            r == self.nav.valid_direction_spec(direction, *ng),
    {
        self.nav.valid_direction(direction, ng)
    }

    /// The neighbor in `direction`, or the current node when that direction
    /// has no edge.
    pub fn get_new_target(&self, direction: PacManDirection, ng: &NodeGroup) -> (r: usize)
        requires
            ng.wf(),
            self.nav.in_range(*ng),
        ensures
            r == self.nav.get_new_target_spec(direction, *ng),
            r < ng.nodes@.len(),
    {
        self.nav.get_new_target(direction, ng)
    }

    /// Heads for `new_direction`, swapping current and target first when
    /// `is_reverse`; exactly `NavState::set_direction_spec`.
    pub fn set_direction_and_target(
        &mut self,
        new_direction: PacManDirection,
        ng: &NodeGroup,
        is_reverse: bool,
    )
        requires
            ng.wf(),
            old(self).nav.in_range(*ng),
        ensures
            final(self).nav == old(self).nav.set_direction_spec(new_direction, *ng, is_reverse),
            final(self).nav.in_range(*ng),
            final(self).nav.heading_ok(),
            final(self).nav.speed == old(self).nav.speed,
            final(self).radius == old(self).radius,
    {
        self.nav.set_direction_and_target(new_direction, ng, is_reverse);
    }

    /// True exactly when the agent at `position` has reached or passed its
    /// target node, by the squared-distance comparison.
    pub fn overshot_target(&self, position: &Position, ng: &NodeGroup) -> (r: bool)
        requires
            ng.wf(),
            self.nav.in_range(*ng),
            pos_ok(*position),
        ensures
            r == self.nav.overshot_spec(*position, *ng),
    {
        self.nav.overshot_target(position, ng)
    }
}

} // verus!
