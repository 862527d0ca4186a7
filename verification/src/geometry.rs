//! Integer world geometry: tile and screen constants, 2-D positions, and the
//! squared-distance arithmetic the overshoot test runs on.
//!
//! One world unit (a pixel of the 16-pixel tile art) is `UNIT` sub-units, so
//! agents can move by fractions of a unit per tick while node positions and
//! arrival snapping stay exact integer equalities.

use vstd::prelude::*;

verus! {

/// Sub-units per world unit.
pub const UNIT: i64 = 1024;

/// Side of one maze tile, in sub-units.
pub const TILE_SIZE: i64 = 16 * UNIT;

/// Screen extent, in sub-units.
pub const SCREEN_WIDTH: i64 = 464 * UNIT;

/// Screen extent, in sub-units.
pub const SCREEN_HEIGHT: i64 = 512 * UNIT;

/// World x of the leftmost tile centre (half the screen in from the left,
/// plus one tile); nodes here are portal candidates.
pub const LEFT_BOUND: i64 = -216 * UNIT;

/// World x of the rightmost tile centre.
pub const RIGHT_BOUND: i64 = 216 * UNIT;

/// World y of the topmost tile centre.
pub const TOP_BOUND: i64 = 240 * UNIT;

/// World y of the bottommost tile centre.
pub const BOTTOM_BOUND: i64 = -240 * UNIT;

/// World x of grid column 0.
pub const X_OFFSET: i64 = -216 * UNIT;

/// World y of grid row 0.
pub const Y_OFFSET: i64 = 240 * UNIT;

/// Largest grid column or row index a maze may use.
pub const MAX_GRID: usize = 100000;

/// Bound on every coordinate handled by the distance arithmetic; wide enough
/// for any agent position plus a full tick of movement, and small enough that
/// sums of squared differences fit an `i128`.
pub const MAX_COORD: i64 = 0x2000_0000_0000;

/// Bound on node coordinates: any grid cell within `MAX_GRID` lies well
/// inside it.
pub const NODE_LIMIT: i64 = 0x8000_0000;

/// Bound on agent coordinates between ticks: a node position plus less than
/// one edge of overshoot always fits back inside it.
pub const POS_LIMIT: i64 = 0x4_0000_0000;

/// Largest movement distance a single tick may apply, in sub-units.
pub const STEP_LIMIT: i64 = 0x4000_0000;

/// A 2-D world position in sub-units.
#[derive(Clone, Copy, Debug, PartialEq, Eq, Structural)]
pub struct Position {
    pub x: i64,
    pub y: i64,
}

/// The coordinate is within range of the distance arithmetic.
pub open spec fn coord_ok(c: i64) -> bool {
    -MAX_COORD <= c <= MAX_COORD
}

/// Both coordinates are within range of the distance arithmetic.
pub open spec fn pos_ok(p: Position) -> bool {
    coord_ok(p.x) && coord_ok(p.y)
}

/// A node position: both coordinates within `NODE_LIMIT`.
pub open spec fn node_pos_ok(p: Position) -> bool {
    -NODE_LIMIT <= p.x <= NODE_LIMIT && -NODE_LIMIT <= p.y <= NODE_LIMIT
}

/// An agent position between ticks: both coordinates within `POS_LIMIT`.
pub open spec fn agent_pos_ok(p: Position) -> bool {
    -POS_LIMIT <= p.x <= POS_LIMIT && -POS_LIMIT <= p.y <= POS_LIMIT
}

/// Squared Euclidean distance between two positions.
pub open spec fn dist2(a: Position, b: Position) -> int {
    (a.x - b.x) * (a.x - b.x) + (a.y - b.y) * (a.y - b.y)
}

/// World x of grid column `gx`.
pub open spec fn world_x(gx: int) -> int {
    gx * TILE_SIZE + X_OFFSET
}

/// World y of grid row `gy`; rows grow downward, world y grows upward.
pub open spec fn world_y(gy: int) -> int {
    -gy * TILE_SIZE + Y_OFFSET
}

/// World position of a grid cell.
pub open spec fn world_pos(gx: int, gy: int) -> Position {
    Position { x: world_x(gx) as i64, y: world_y(gy) as i64 }
}

proof fn lemma_square_bound(v: int, bound: int)
    requires
        0 <= bound,
        -bound <= v <= bound,
    ensures
        0 <= v * v <= bound * bound,
    decreases 0int,
{
    assert(0 <= v * v <= bound * bound) by (nonlinear_arith)
        requires
            0 <= bound,
            -bound <= v <= bound,
    {
    }
}

/// Squared Euclidean distance, exactly `dist2`.
pub fn dist2_exec(a: &Position, b: &Position) -> (r: i128)
    requires
        pos_ok(*a),
        pos_ok(*b),
    ensures
        r == dist2(*a, *b),
{
    let dx: i128 = a.x as i128 - b.x as i128;
    let dy: i128 = a.y as i128 - b.y as i128;
    proof {
        lemma_square_bound(dx as int, 2 * MAX_COORD as int);
        lemma_square_bound(dy as int, 2 * MAX_COORD as int);
    }
    dx * dx + dy * dy
}

/// A grid cell within `MAX_GRID` has a world position that fits `i64`
/// exactly and stays within the distance arithmetic's range.
pub proof fn lemma_world_pos_bounds(gx: int, gy: int)
    requires
        0 <= gx <= MAX_GRID,
        0 <= gy <= MAX_GRID,
    ensures
        world_pos(gx, gy).x == world_x(gx),
        world_pos(gx, gy).y == world_y(gy),
        node_pos_ok(world_pos(gx, gy)),
{
    assert(0 <= gx * TILE_SIZE <= MAX_GRID * TILE_SIZE) by (nonlinear_arith)
        requires
            0 <= gx <= MAX_GRID,
    {
    }
    assert(0 <= gy * TILE_SIZE <= MAX_GRID * TILE_SIZE) by (nonlinear_arith)
        requires
            0 <= gy <= MAX_GRID,
    {
    }
}

/// World position of a grid cell, exactly `world_pos`.
pub fn grid_to_world(gx: usize, gy: usize) -> (p: Position)
    requires
        gx <= MAX_GRID,
        gy <= MAX_GRID,
    ensures
        p == world_pos(gx as int, gy as int),
        node_pos_ok(p),
{
    let x: i64 = (gx as i64) * TILE_SIZE + X_OFFSET;
    let y: i64 = -((gy as i64) * TILE_SIZE) + Y_OFFSET;
    Position { x, y }
}

} // verus!
