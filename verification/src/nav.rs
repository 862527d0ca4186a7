//! The per-agent navigation state machine, shared by the player agent and
//! the pursuers: heading and target resolution, instantaneous reversal,
//! overshoot detection, and arrival with exact snapping and portal hops.

use vstd::prelude::*;

use crate::geometry::{
    agent_pos_ok, dist2, dist2_exec, node_pos_ok, pos_ok, Position, NODE_LIMIT, POS_LIMIT,
    STEP_LIMIT,
};
use crate::node::{find_portal_exit, portal_exit_spec, NodeGroup, PacManDirection};

verus! {

/// Largest agent speed, in sub-units per second.
pub const SPEED_LIMIT: i64 = 10_000_000;

/// Largest elapsed time one tick may carry, in microseconds.
pub const DT_LIMIT: i64 = 100_000_000;

/// The navigation state of one moving agent: the node it occupies or last
/// departed, the node it approaches, its heading, and a queued request to
/// turn at the next arrival.
#[derive(Debug, Clone, Copy, PartialEq)]
pub struct NavState {
    /// Position of the node the agent last snapped to.
    pub node_position: Position,
    /// Speed in sub-units per second.
    pub speed: i64,
    /// Current heading; `Stop` when idle.
    pub node_direction: PacManDirection,
    /// A direction request to apply at the next arrival.
    pub queued_direction: Option<PacManDirection>,
    /// The node the agent occupies or last departed.
    pub current_node: usize,
    /// The node the agent approaches while moving.
    pub target_node: Option<usize>,
    /// Set while an externally requested reversal is being applied.
    pub is_reversing: bool,
}

impl NavState {
    /// Both node handles point into `ng`.
    pub open spec fn in_range(self, ng: NodeGroup) -> bool {
        &&& self.current_node < ng.nodes@.len()
        &&& (self.target_node matches Some(t) ==> t < ng.nodes@.len())
    }

    /// A moving agent always has a target distinct from its current node.
    pub open spec fn heading_ok(self) -> bool {
        self.node_direction != PacManDirection::Stop ==> self.target_node is Some
            && self.target_node != Some(self.current_node)
    }

    /// Handles in range, speed within limits, and the heading invariant.
    pub open spec fn wf(self, ng: NodeGroup) -> bool {
        &&& self.in_range(ng)
        &&& 0 <= self.speed <= SPEED_LIMIT
        &&& self.heading_ok()
    }

    /// Makes the state of a freshly spawned agent: idle at `current_node`.
    pub fn new(
        node_position: Position,
        speed: i64,
        current_node: usize,
        queued_direction: Option<PacManDirection>,
    ) -> (nav: NavState)
        ensures
            nav == (NavState {
                node_position,
                speed,
                node_direction: PacManDirection::Stop,
                queued_direction,
                current_node,
                target_node: None,
                is_reversing: false,
            }),
    {
        NavState {
            node_position,
            speed,
            node_direction: PacManDirection::Stop,
            queued_direction,
            current_node,
            target_node: None,
            is_reversing: false,
        }
    }

    /// The current node has an edge for `d`; `Stop` is never valid.
    pub open spec fn valid_direction_spec(self, d: PacManDirection, ng: NodeGroup) -> bool {
        ng.neighbor_of(self.current_node as int, d) is Some
    }

    /// True exactly when the current node has an edge for `direction`
    /// (`Stop` never has one).
    pub fn valid_direction(&self, direction: PacManDirection, ng: &NodeGroup) -> (r: bool)
        requires
            ng.wf(),
            self.in_range(*ng),
        ensures
            r == self.valid_direction_spec(direction, *ng),
    {
        ng.nodes[self.current_node].neighbor(direction).is_some()
    }

    /// The node an edge for `d` leads to, or the current node when there is
    /// no such edge.
    pub open spec fn get_new_target_spec(self, d: PacManDirection, ng: NodeGroup) -> usize {
        match ng.neighbor_of(self.current_node as int, d) {
            Some(t) => t,
            None => self.current_node,
        }
    }

    /// The neighbor in `direction`, or the current node when that direction
    /// has no edge.
    pub fn get_new_target(&self, direction: PacManDirection, ng: &NodeGroup) -> (r: usize)
        requires
            ng.wf(),
            self.in_range(*ng),
        ensures
            r == self.get_new_target_spec(direction, *ng),
            r < ng.nodes@.len(),
    {
        match ng.nodes[self.current_node].neighbor(direction) {
            Some(t) => t,
            None => self.current_node,
        }
    }

    /// The state after heading for `d`: on a reversal the old target (if
    /// any) becomes current and the old current becomes target; then the
    /// edge for `d` from the (possibly swapped) current node gives the new
    /// target, and an edgeless request stops the agent.
    pub open spec fn set_direction_spec(
        self,
        new_direction: PacManDirection,
        ng: NodeGroup,
        is_reverse: bool,
    ) -> NavState {
        let cur = if is_reverse && self.target_node is Some {
            self.target_node.unwrap()
        } else {
            self.current_node
        };
        let tgt = if is_reverse {
            Some(self.current_node)
        } else {
            self.target_node
        };
        let next = match ng.neighbor_of(cur as int, new_direction) {
            Some(t) => t,
            None => cur,
        };
        if next != cur {
            NavState {
                node_direction: new_direction,
                current_node: cur,
                target_node: Some(next),
                ..self
            }
        } else {
            NavState {
                node_direction: PacManDirection::Stop,
                current_node: cur,
                target_node: None,
                ..self
            }
        }
    }

    /// Heads for `new_direction`, reversing roles first when `is_reverse`;
    /// exactly `set_direction_spec`.
    pub fn set_direction_and_target(
        &mut self,
        new_direction: PacManDirection,
        ng: &NodeGroup,
        is_reverse: bool,
    )
        requires
            ng.wf(),
            old(self).in_range(*ng),
        ensures
            *final(self) == old(self).set_direction_spec(new_direction, *ng, is_reverse),
            final(self).in_range(*ng),
            final(self).heading_ok(),
            final(self).speed == old(self).speed,
            final(self).node_position == old(self).node_position,
            final(self).queued_direction == old(self).queued_direction,
    {
        self.node_direction = new_direction;
        let origin_node = self.current_node;
        if is_reverse {
            if let Some(target) = self.target_node {
                self.current_node = target;
            }
            self.target_node = Some(origin_node);
        }
        let next_node = self.get_new_target(new_direction, ng);
        if next_node != self.current_node {
            self.target_node = Some(next_node);
        } else {
            self.node_direction = PacManDirection::Stop;
            self.target_node = None;
        }
    }

    /// The agent has reached or passed its target: its squared displacement
    /// from the current node has caught up with the squared edge length.
    /// Never true without a target.
    pub open spec fn overshot_spec(self, position: Position, ng: NodeGroup) -> bool {
        match self.target_node {
            None => false,
            Some(t) => {
                let cur = ng.nodes@[self.current_node as int].position;
                let tgt = ng.nodes@[t as int].position;
                dist2(position, cur) >= dist2(tgt, cur)
            },
        }
    }

    /// True exactly when the agent at `position` has reached or passed its
    /// target node, by the squared-distance comparison `overshot_spec`.
    pub fn overshot_target(&self, position: &Position, ng: &NodeGroup) -> (r: bool)
        requires
            ng.wf(),
            self.in_range(*ng),
            pos_ok(*position),
        ensures
            r == self.overshot_spec(*position, *ng),
    {
        match self.target_node {
            None => false,
            Some(t) => {
                let cur = ng.nodes[self.current_node].position;
                let tgt = ng.nodes[t].position;
                let d_pos = dist2_exec(position, &cur);
                let d_tgt = dist2_exec(&tgt, &cur);
                d_pos >= d_tgt
            },
        }
    }

    /// The node an arrival at the current target lands on: the portal exit
    /// when the target is a portal with a registered mirror node, else the
    /// target itself.
    pub open spec fn landing_spec(self, ng: NodeGroup) -> usize {
        let t = self.target_node.unwrap();
        match portal_exit_spec(ng, t as int) {
            Some(m) => m,
            None => t,
        }
    }

    /// Snaps the agent exactly onto its target node and, when that node is
    /// a portal with a registered mirror node, immediately onto the mirror.
    /// Heading, queue and target are left for direction resolution.
    pub fn arrive(&mut self, position: &mut Position, ng: &NodeGroup)
        requires
            ng.wf(),
            old(self).in_range(*ng),
            old(self).target_node is Some,
        ensures
            final(self).current_node == old(self).landing_spec(*ng),
            final(self).current_node < ng.nodes@.len(),
            *final(position) == ng.nodes@[final(self).current_node as int].position,
            final(self).node_position == *final(position),
            node_pos_ok(*final(position)),
            final(self).node_direction == old(self).node_direction,
            final(self).queued_direction == old(self).queued_direction,
            final(self).target_node == old(self).target_node,
            final(self).speed == old(self).speed,
            final(self).is_reversing == old(self).is_reversing,
    {
        let t = match self.target_node {
            Some(t) => t,
            None => self.current_node,
        };
        let node_pos = ng.nodes[t].position;
        *position = node_pos;
        self.current_node = t;
        self.node_position = node_pos;
        match find_portal_exit(ng, t) {
            Some(m) => {
                let mpos = ng.nodes[m].position;
                *position = mpos;
                self.current_node = m;
                self.node_position = mpos;
            },
            None => {},
        }
    }

    /// Direction resolution at a (possibly teleported) arrival node: apply
    /// and clear a queued direction that has an edge there; otherwise keep
    /// the current heading, which re-derives the next target or stops.
    pub open spec fn resolve_direction_spec(self, ng: NodeGroup) -> NavState {
        match self.queued_direction {
            Some(q) => if self.valid_direction_spec(q, ng) {
                let s = self.set_direction_spec(q, ng, false);
                NavState { queued_direction: None, ..s }
            } else {
                self.set_direction_spec(self.node_direction, ng, false)
            },
            None => self.set_direction_spec(self.node_direction, ng, false),
        }
    }

    /// The whole arrival step: snap onto the target, hop through a portal
    /// if it is one, then resolve the next heading from the queue or the
    /// current direction.
    pub open spec fn resolve_arrival_spec(self, ng: NodeGroup) -> NavState {
        let landing = self.landing_spec(ng);
        let snapped = NavState {
            current_node: landing,
            node_position: ng.nodes@[landing as int].position,
            ..self
        };
        snapped.resolve_direction_spec(ng)
    }

    /// Resolves an arrival: snaps `position` bit-for-bit onto the target
    /// node (then onto its portal mirror, if any), and re-resolves the
    /// heading; exactly `resolve_arrival_spec`.
    pub fn resolve_arrival(&mut self, position: &mut Position, ng: &NodeGroup)
        requires
            ng.wf(),
            old(self).wf(*ng),
            old(self).target_node is Some,
        ensures
            *final(self) == old(self).resolve_arrival_spec(*ng),
            *final(position) == ng.nodes@[old(self).landing_spec(*ng) as int].position,
            node_pos_ok(*final(position)),
            final(self).wf(*ng),
            final(self).node_position == *final(position),
    {
        self.arrive(position, ng);
        match self.queued_direction {
            Some(q) => {
                if self.valid_direction(q, ng) {
                    self.set_direction_and_target(q, ng, false);
                    self.queued_direction = None;
                } else {
                    let d = self.node_direction;
                    self.set_direction_and_target(d, ng, false);
                }
            },
            None => {
                let d = self.node_direction;
                self.set_direction_and_target(d, ng, false);
            },
        }
    }
}

/// Distance covered in one tick: `speed * dt`, in sub-units, with zero and
/// negative elapsed time moving nothing.
pub open spec fn movement_distance_spec(speed: i64, dt_micros: i64) -> int {
    if dt_micros <= 0 {
        0
    } else {
        (speed * dt_micros) / 1_000_000
    }
}

/// Distance covered in one tick, exactly `movement_distance_spec`; a zero
/// or negative `dt_micros` moves nothing.
pub fn movement_distance(speed: i64, dt_micros: i64) -> (r: i64)
    requires
        0 <= speed <= SPEED_LIMIT,
        dt_micros <= DT_LIMIT,
    ensures
        r == movement_distance_spec(speed, dt_micros),
        0 <= r <= STEP_LIMIT,
{
    if dt_micros <= 0 {
        0
    } else {
        proof {
            assert(0 <= speed * dt_micros <= SPEED_LIMIT * DT_LIMIT) by (nonlinear_arith)
                requires
                    0 <= speed <= SPEED_LIMIT,
                    0 < dt_micros <= DT_LIMIT,
            {
            }
        }
        let prod: i64 = speed * dt_micros;
        prod / 1_000_000
    }
}

/// One step of continuous motion: `p` moved `dist` sub-units along `d`
/// (`Stop` moves nothing).
pub open spec fn moved_position_spec(p: Position, d: PacManDirection, dist: int) -> Position {
    match d {
        PacManDirection::Up => Position { x: p.x, y: (p.y + dist) as i64 },
        PacManDirection::Down => Position { x: p.x, y: (p.y - dist) as i64 },
        PacManDirection::Left => Position { x: (p.x - dist) as i64, y: p.y },
        PacManDirection::Right => Position { x: (p.x + dist) as i64, y: p.y },
        PacManDirection::Stop => p,
    }
}

/// Moves `position` by `dist` sub-units along `d`, exactly
/// `moved_position_spec`.
pub fn apply_movement(position: &mut Position, d: PacManDirection, dist: i64)
    requires
        agent_pos_ok(*old(position)),
        0 <= dist <= STEP_LIMIT,
    ensures
        *final(position) == moved_position_spec(*old(position), d, dist as int),
        pos_ok(*final(position)),
        -POS_LIMIT - STEP_LIMIT <= final(position).x <= POS_LIMIT + STEP_LIMIT,
        -POS_LIMIT - STEP_LIMIT <= final(position).y <= POS_LIMIT + STEP_LIMIT,
{
    match d {
        PacManDirection::Up => {
            position.y = position.y + dist;
        },
        PacManDirection::Down => {
            position.y = position.y - dist;
        },
        PacManDirection::Left => {
            position.x = position.x - dist;
        },
        PacManDirection::Right => {
            position.x = position.x + dist;
        },
        PacManDirection::Stop => {},
    }
}

/// Law: reversal is instantaneous.  An agent moving in direction `d`
/// between nodes A (current) and B (target), sent to the reverse heading
/// along a corridor whose far node links back toward the near one, swaps
/// roles within the same step: B becomes current and A the target, still
/// moving, with the position untouched (`set_direction_spec` does not
/// involve the position at all).
pub proof fn lemma_reversal_instantaneous(nav: NavState, ng: NodeGroup, a: usize, b: usize)
    requires
        ng.wf(),
        nav.in_range(ng),
        nav.node_direction != PacManDirection::Stop,
        nav.current_node == a,
        nav.target_node == Some(b),
        a != b,
        ng.neighbor_of(b as int, nav.node_direction.opposite_spec()) == Some(a),
    ensures
        ({
            let s = nav.set_direction_spec(nav.node_direction.opposite_spec(), ng, true);
            &&& s.current_node == b
            &&& s.target_node == Some(a)
            &&& s.node_direction == nav.node_direction.opposite_spec()
            &&& s.node_position == nav.node_position
        }),
{
}

/// An agent that has not yet overshot its edge sits within one edge length
/// of its current node, so its position is back inside `POS_LIMIT`.
pub proof fn lemma_not_overshot_in_bounds(nav: NavState, position: Position, ng: NodeGroup)
    requires
        ng.wf(),
        nav.in_range(ng),
        nav.target_node is Some,
        !nav.overshot_spec(position, ng),
    ensures
        agent_pos_ok(position),
{
    let t = nav.target_node.unwrap();
    let cur = ng.nodes@[nav.current_node as int].position;
    let tgt = ng.nodes@[t as int].position;
    assert(node_pos_ok(cur));
    assert(node_pos_ok(tgt));
    let dx = position.x - cur.x;
    let dy = position.y - cur.y;
    let ex = tgt.x - cur.x;
    let ey = tgt.y - cur.y;
    assert(dist2(tgt, cur) == ex * ex + ey * ey);
    assert(dist2(position, cur) == dx * dx + dy * dy);
    assert(ex * ex + ey * ey <= 8 * NODE_LIMIT * NODE_LIMIT) by (nonlinear_arith)
        requires
            0 <= NODE_LIMIT,
            -2 * NODE_LIMIT <= ex <= 2 * NODE_LIMIT,
            -2 * NODE_LIMIT <= ey <= 2 * NODE_LIMIT,
    {
    }
    assert(dx * dx <= dx * dx + dy * dy && dy * dy <= dx * dx + dy * dy) by (nonlinear_arith) {
    }
    assert(dx * dx < 8 * NODE_LIMIT * NODE_LIMIT);
    assert(dy * dy < 8 * NODE_LIMIT * NODE_LIMIT);
    assert(-3 * NODE_LIMIT <= dx <= 3 * NODE_LIMIT) by (nonlinear_arith)
        requires
            0 < NODE_LIMIT,
            dx * dx < 8 * NODE_LIMIT * NODE_LIMIT,
    {
    }
    assert(-3 * NODE_LIMIT <= dy <= 3 * NODE_LIMIT) by (nonlinear_arith)
        requires
            0 < NODE_LIMIT,
            dy * dy < 8 * NODE_LIMIT * NODE_LIMIT,
    {
    }
}

} // verus!
