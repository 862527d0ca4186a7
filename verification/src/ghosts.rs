//! The pursuer agents: a navigation state plus visibility and a chase
//! goal, and the autonomous direction policy — a uniformly random pick
//! among the valid edges, excluding the reverse of the current heading
//! unless nothing else is open.

use vstd::prelude::*;

use crate::geometry::{pos_ok, Position, UNIT};
use crate::nav::NavState;
use crate::node::{NodeGroup, PacManDirection};

verus! {

/// Collision radius of a pursuer, in sub-units.
pub const GHOST_RADIUS: i64 = 5 * UNIT;

/// Speed of a pursuer, in sub-units per second.
pub const GHOST_SPEED: i64 = 100 * UNIT;

/// The seedable random generator pursuers draw from; its state is opaque
/// here.
#[verifier::external_type_specification]
#[verifier::external_body]
pub struct ExStdRng(rand::rngs::StdRng);

/// Relies on `rand::Rng::gen_range` over `0..n`: the result is drawn
/// uniformly from that range, so it is always below `n`.
#[verifier::external_body]
fn rng_below(rng: &mut rand::rngs::StdRng, n: usize) -> (r: usize)
    requires
        n > 0,
    ensures
        r < n,
{
    rand::Rng::gen_range(rng, 0..n)
}

/// A pursuer agent.
#[derive(Debug, Clone, Copy, PartialEq)]
pub struct Pursuer {
    pub radius: i64,
    pub is_visible: bool,
    pub goal: Position,
    pub nav: NavState,
}

/// The direction is open to a pursuer heading `last`: the node has an edge
/// for it and it is not the reverse of `last`.
pub open spec fn dir_candidate(
    nav: NavState,
    ng: NodeGroup,
    d: PacManDirection,
    last: PacManDirection,
) -> bool {
    ng.neighbor_of(nav.current_node as int, d) is Some && d != last.opposite_spec()
}

/// The directions open to a pursuer at its current node, in the fixed
/// order up, down, left, right; when excluding the reverse of the heading
/// leaves nothing, the reverse alone remains (a dead end forces reversal).
pub open spec fn valid_directions_spec(nav: NavState, ng: NodeGroup) -> Seq<PacManDirection> {
    let last = nav.node_direction;
    let cands = (if dir_candidate(nav, ng, PacManDirection::Up, last) {
        seq![PacManDirection::Up]
    } else {
        Seq::empty()
    }) + (if dir_candidate(nav, ng, PacManDirection::Down, last) {
        seq![PacManDirection::Down]
    } else {
        Seq::empty()
    }) + (if dir_candidate(nav, ng, PacManDirection::Left, last) {
        seq![PacManDirection::Left]
    } else {
        Seq::empty()
    }) + (if dir_candidate(nav, ng, PacManDirection::Right, last) {
        seq![PacManDirection::Right]
    } else {
        Seq::empty()
    });
    if cands.len() == 0 {
        seq![last.opposite_spec()]
    } else {
        cands
    }
}

impl Pursuer {
    /// Makes a pursuer idle at `current_node`, visible, with no goal, at
    /// the standard radius and speed.
    pub fn new(
        node_position: Position,
        current_node: usize,
        queued_direction: Option<PacManDirection>,
    ) -> (g: Pursuer)
        ensures
            g.radius == GHOST_RADIUS,
            g.is_visible,
            g.goal == (Position { x: 0, y: 0 }),
            g.nav == (NavState {
                node_position,
                speed: GHOST_SPEED,
                node_direction: PacManDirection::Stop,
                queued_direction,
                current_node,
                target_node: None,
                is_reversing: false,
            }),
    {
        Pursuer {
            radius: GHOST_RADIUS,
            is_visible: true,
            goal: Position { x: 0, y: 0 },
            nav: NavState::new(node_position, GHOST_SPEED, current_node, queued_direction),
        }
    }

    /// The directions open at the current node, per
    /// `valid_directions_spec`; never empty.
    pub fn valid_directions(&self, ng: &NodeGroup) -> (r: Vec<PacManDirection>)
        requires
            ng.wf(),
            self.nav.in_range(*ng),
        ensures
            r@ == valid_directions_spec(self.nav, *ng),
            r@.len() >= 1,
    {
        let mut v: Vec<PacManDirection> = Vec::new();
        let last = self.nav.node_direction;
        let opp = last.opposite();
        let node = &ng.nodes[self.nav.current_node];
        let ghost s_up = if dir_candidate(self.nav, *ng, PacManDirection::Up, last) {
            seq![PacManDirection::Up]
        } else {
            Seq::<PacManDirection>::empty()
        };
        let ghost s_down = if dir_candidate(self.nav, *ng, PacManDirection::Down, last) {
            seq![PacManDirection::Down]
        } else {
            Seq::<PacManDirection>::empty()
        };
        let ghost s_left = if dir_candidate(self.nav, *ng, PacManDirection::Left, last) {
            seq![PacManDirection::Left]
        } else {
            Seq::<PacManDirection>::empty()
        };
        let ghost s_right = if dir_candidate(self.nav, *ng, PacManDirection::Right, last) {
            seq![PacManDirection::Right]
        } else {
            Seq::<PacManDirection>::empty()
        };
        if node.neighbor(PacManDirection::Up).is_some() && opp != PacManDirection::Up {
            v.push(PacManDirection::Up);
        }
        proof {
            assert(v@ =~= s_up);
        }
        if node.neighbor(PacManDirection::Down).is_some() && opp != PacManDirection::Down {
            v.push(PacManDirection::Down);
        }
        proof {
            assert(v@ =~= s_up + s_down);
        }
        if node.neighbor(PacManDirection::Left).is_some() && opp != PacManDirection::Left {
            v.push(PacManDirection::Left);
        }
        proof {
            assert(v@ =~= s_up + s_down + s_left);
        }
        if node.neighbor(PacManDirection::Right).is_some() && opp != PacManDirection::Right {
            v.push(PacManDirection::Right);
        }
        proof {
            assert(v@ =~= s_up + s_down + s_left + s_right);
        }
        if v.len() == 0 {
            v.push(opp);
            proof {
                assert(v@ =~= seq![opp]);
            }
        }
        v
    }

    /// A uniformly random pick from `valid_directions`: `Some` of one of
    /// its elements whenever it is non-empty, and in particular its sole
    /// element when it has exactly one.
    pub fn choose_random_direction(
        &self,
        valid_directions: &Vec<PacManDirection>,
        rng: &mut rand::rngs::StdRng,
    ) -> (r: Option<PacManDirection>)
        ensures
            r is Some <==> valid_directions@.len() > 0,
            r matches Some(d) ==> valid_directions@.contains(d),
            valid_directions@.len() == 1 ==> r == Some(valid_directions@[0]),
    {
        if valid_directions.len() == 0 {
            return None;
        }
        let idx = rng_below(rng, valid_directions.len());
        let d = valid_directions[idx];
        proof {
            assert(valid_directions@[idx as int] == d);
            assert(valid_directions@.contains(d));
        }
        Some(d)
    }

    /// The neighbor in `direction`, or the current node when that direction
    /// has no edge.
    pub fn get_new_target(&self, direction: PacManDirection, ng: &NodeGroup) -> (r: usize)
        requires
            ng.wf(),
            self.nav.in_range(*ng),
        ensures
            r == self.nav.get_new_target_spec(direction, *ng),
            r < ng.nodes@.len(),
    {
        self.nav.get_new_target(direction, ng)
    }

    /// Heads for `new_direction`, swapping current and target first when
    /// `is_reverse`; exactly `NavState::set_direction_spec`.
    pub fn set_direction_and_target(
        &mut self,
        new_direction: PacManDirection,
        ng: &NodeGroup,
        is_reverse: bool,
    )
        requires
            ng.wf(),
            old(self).nav.in_range(*ng),
        ensures
            final(self).nav == old(self).nav.set_direction_spec(new_direction, *ng, is_reverse),
            final(self).nav.in_range(*ng),
            final(self).nav.heading_ok(),
            final(self).nav.speed == old(self).nav.speed,
            final(self).radius == old(self).radius,
            final(self).is_visible == old(self).is_visible,
            final(self).goal == old(self).goal,
    {
        self.nav.set_direction_and_target(new_direction, ng, is_reverse);
    }

    /// True exactly when the pursuer at `position` has reached or passed
    /// its target node, by the squared-distance comparison.
    pub fn overshot_target(&self, position: &Position, ng: &NodeGroup) -> (r: bool)
        requires
            ng.wf(),
            self.nav.in_range(*ng),
            pos_ok(*position),
        ensures
            r == self.nav.overshot_spec(*position, *ng),
    {
        self.nav.overshot_target(position, ng)
    }

    /// Starts a freshly spawned pursuer moving: picks a random open
    /// direction at its node and heads that way.
    pub fn initialize_ghost_movement(&mut self, ng: &NodeGroup, rng: &mut rand::rngs::StdRng)
        requires
            ng.wf(),
            old(self).nav.in_range(*ng),
        ensures
            exists|d: PacManDirection|
                #[trigger] valid_directions_spec(old(self).nav, *ng).contains(d)
                    && final(self).nav == old(self).nav.set_direction_spec(d, *ng, false),
            final(self).nav.in_range(*ng),
            final(self).nav.heading_ok(),
            final(self).nav.speed == old(self).nav.speed,
            final(self).radius == old(self).radius,
            final(self).is_visible == old(self).is_visible,
            final(self).goal == old(self).goal,
    {
        let dirs = self.valid_directions(ng);
        match self.choose_random_direction(&dirs, rng) {
            Some(new_direction) => {
                self.set_direction_and_target(new_direction, ng, false);
            },
            None => {
                // Unreachable: the direction list is never empty.
                proof {
                    assert(false);
                }
            },
        }
    }
}

/// Law: a dead end forces reversal.  At a node whose only open edge is the
/// reverse of the heading, the valid-direction list is exactly that
/// reverse, so any pick from it reverses the agent — it never stalls.
pub proof fn lemma_dead_end_forces_reversal(nav: NavState, ng: NodeGroup)
    requires
        ng.wf(),
        nav.in_range(ng),
        nav.node_direction != PacManDirection::Stop,
        forall|d: PacManDirection|
            d != nav.node_direction.opposite_spec() ==> #[trigger] ng.neighbor_of(
                nav.current_node as int,
                d,
            ) is None,
    ensures
        valid_directions_spec(nav, ng) == seq![nav.node_direction.opposite_spec()],
{
    let last = nav.node_direction;
    let opp = last.opposite_spec();
    assert(!dir_candidate(nav, ng, PacManDirection::Up, last));
    assert(!dir_candidate(nav, ng, PacManDirection::Down, last));
    assert(!dir_candidate(nav, ng, PacManDirection::Left, last));
    assert(!dir_candidate(nav, ng, PacManDirection::Right, last));
    assert(valid_directions_spec(nav, ng) == seq![opp]);
}

} // verus!
