//! The maze graph: cell grid, nodes with per-direction neighbor links,
//! corridor scanning that condenses paths into edges, and boundary portals.

use vstd::prelude::*;

use crate::geometry::{
    grid_to_world, lemma_world_pos_bounds, node_pos_ok, pos_ok, world_pos, Position,
    BOTTOM_BOUND, LEFT_BOUND, MAX_GRID, RIGHT_BOUND, TILE_SIZE, TOP_BOUND, X_OFFSET, Y_OFFSET,
};

verus! {

/// A cardinal heading, or `Stop` for an idle agent.
#[derive(PartialEq, Eq, Clone, Copy, Debug, Structural)]
pub enum PacManDirection {
    Up,
    Down,
    Left,
    Right,
    Stop,
}

impl PacManDirection {
    /// The reverse of this heading; `Stop` is its own reverse.
    pub open spec fn opposite_spec(&self) -> PacManDirection {
        match *self {
            PacManDirection::Up => PacManDirection::Down,
            PacManDirection::Down => PacManDirection::Up,
            PacManDirection::Left => PacManDirection::Right,
            PacManDirection::Right => PacManDirection::Left,
            PacManDirection::Stop => PacManDirection::Stop,
        }
    }

    /// The reverse of this heading; `Stop` is its own reverse.
    #[verifier::when_used_as_spec(opposite_spec)]
    pub fn opposite(&self) -> (r: PacManDirection)
        ensures
            r == self.opposite_spec(),
    {
        match *self {
            PacManDirection::Up => PacManDirection::Down,
            PacManDirection::Down => PacManDirection::Up,
            PacManDirection::Left => PacManDirection::Right,
            PacManDirection::Right => PacManDirection::Left,
            PacManDirection::Stop => PacManDirection::Stop,
        }
    }
}

/// What one cell of the fine maze grid holds.
#[derive(Debug, Clone, Copy, PartialEq, Eq, Structural)]
pub enum MazeCell {
    /// Unwalkable; stops corridor scans.
    Empty,
    /// A decision point: spawns a graph node.
    Node,
    /// A corridor cell; walkable but no node.
    Path { has_pellet: bool },
    /// A power-pellet cell: also spawns a graph node.
    PowerPellet,
}

/// Marker for a power-pellet entity.
pub struct PowerPellet;

/// True for the cell kinds that spawn a graph node.
pub open spec fn is_spawn_cell(c: MazeCell) -> bool {
    c == MazeCell::Node || c == MazeCell::PowerPellet
}

/// The fine maze grid, row-major; rows may differ in length.
#[derive(Debug, Clone, PartialEq)]
pub struct Maze {
    grid: Vec<Vec<MazeCell>>,
}

impl Maze {
    /// The rows of the grid.
    pub closed spec fn rows(self) -> Seq<Seq<MazeCell>> {
        self.grid@.map_values(|r: Vec<MazeCell>| r@)
    }

    /// The cell at column `x` of row `y`, if the grid has one there.
    pub open spec fn cell(self, x: int, y: int) -> Option<MazeCell> {
        if 0 <= y < self.rows().len() && 0 <= x < self.rows()[y].len() {
            Some(self.rows()[y][x])
        } else {
            None
        }
    }

    /// Every row index and column index stays within `MAX_GRID`.
    pub open spec fn wf(self) -> bool {
        &&& self.rows().len() <= MAX_GRID
        &&& forall|y: int| 0 <= y < self.rows().len() ==> (#[trigger] self.rows()[y]).len()
            <= MAX_GRID
    }

    /// Makes a maze with no cells; every query on it returns no cell.
    pub fn new() -> (maze: Maze)
        ensures
            maze.wf(),
            maze.rows().len() == 0,
    {
        Maze { grid: Vec::new() }
    }

    /// The cell at column `x` of row `y`, exactly `cell`; `None` off the
    /// grid.
    pub fn cell_at(&self, x: usize, y: usize) -> (r: Option<MazeCell>)
        ensures
            r == self.cell(x as int, y as int),
    {
        if y < self.grid.len() && x < self.grid[y].len() {
            proof {
                assert(self.rows()[y as int] == self.grid@[y as int]@);
            }
            Some(self.grid[y][x])
        } else {
            proof {
                if (y as int) < self.rows().len() {
                    assert(self.rows()[y as int] == self.grid@[y as int]@);
                }
            }
            None
        }
    }

    /// Parses the lines of a maze file, one grid row per line: each
    /// whitespace-separated token becomes the cell `cell_of_token` gives it.
    pub fn read_map(lines: &Vec<Vec<u8>>) -> (maze: Maze)
        requires
            lines@.len() <= MAX_GRID,
            forall|k: int| 0 <= k < lines@.len() ==> (#[trigger] lines@[k])@.len() <= MAX_GRID,
        ensures
            maze.wf(),
            maze.rows().len() == lines@.len(),
            forall|k: int| 0 <= k < lines@.len() ==> #[trigger] maze.rows()[k] == row_cells(
                lines@[k]@,
            ),
    {
        let n = lines.len();
        let mut grid: Vec<Vec<MazeCell>> = Vec::new();
        let mut k: usize = 0;
        while k < n
            invariant
                k <= n,
                n == lines@.len(),
                n <= MAX_GRID,
                forall|j: int| 0 <= j < lines@.len() ==> (#[trigger] lines@[j])@.len() <= MAX_GRID,
                grid@.len() == k,
                forall|j: int| 0 <= j < k ==> (#[trigger] grid@[j])@ == row_cells(lines@[j]@),
                forall|j: int| 0 <= j < k ==> (#[trigger] grid@[j])@.len() <= MAX_GRID,
            decreases n - k,
        {
            let row = parse_row(&lines[k]);
            proof {
                lemma_row_cells_len(lines@[k as int]@, 0, Seq::<u8>::empty());
            }
            grid.push(row);
            k = k + 1;
        }
        let maze = Maze { grid };
        proof {
            assert forall|j: int| 0 <= j < maze.rows().len() implies #[trigger] maze.rows()[j]
                == row_cells(lines@[j]@) by {
                assert(maze.rows()[j] == maze.grid@[j]@);
            }
        }
        maze
    }
}


/// An ASCII whitespace byte: token separator in a maze file line.
pub open spec fn is_ws(b: u8) -> bool {
    b == 32 || b == 9 || b == 10 || b == 11 || b == 12 || b == 13
}

/// The cell a maze-file token stands for.  Single characters: `X` empty,
/// `+` and `n` a node, `|` and `-` a bare path, `.` a path with a pellet,
/// `P` a power pellet; anything else, and any longer token, is empty.
pub open spec fn cell_of_token(t: Seq<u8>) -> MazeCell {
    if t.len() == 1 {
        let b = t[0];
        if b == 88 {  // X
            MazeCell::Empty
        } else if b == 43 || b == 110 {  // + n
            MazeCell::Node
        } else if b == 124 || b == 45 {  // | -
            MazeCell::Path { has_pellet: false }
        } else if b == 46 {  // .
            MazeCell::Path { has_pellet: true }
        } else if b == 80 {  // P
            MazeCell::PowerPellet
        } else {
            MazeCell::Empty
        }
    } else {
        MazeCell::Empty
    }
}

/// The cells of the whitespace-separated tokens of `line` from byte `i` on,
/// with `cur` the token bytes read so far.
pub open spec fn row_cells_from(line: Seq<u8>, i: int, cur: Seq<u8>) -> Seq<MazeCell>
    decreases line.len() - i,
{
    if i < 0 || i > line.len() {
        Seq::empty()
    } else if i == line.len() {
        if cur.len() > 0 {
            seq![cell_of_token(cur)]
        } else {
            Seq::empty()
        }
    } else if is_ws(line[i]) {
        (if cur.len() > 0 {
            seq![cell_of_token(cur)]
        } else {
            Seq::empty()
        }) + row_cells_from(line, i + 1, Seq::empty())
    } else {
        row_cells_from(line, i + 1, cur.push(line[i]))
    }
}

/// The cells of the whitespace-separated tokens of one maze-file line.
pub open spec fn row_cells(line: Seq<u8>) -> Seq<MazeCell> {
    row_cells_from(line, 0, Seq::empty())
}

/// A line never yields more cells than it has bytes (plus the token already
/// begun).
proof fn lemma_row_cells_len(line: Seq<u8>, i: int, cur: Seq<u8>)
    requires
        0 <= i <= line.len(),
    ensures
        row_cells_from(line, i, cur).len() <= line.len() - i + if cur.len() > 0 {
            1int
        } else {
            0int
        },
    decreases line.len() - i,
{
    if i == line.len() {
    } else if is_ws(line[i]) {
        lemma_row_cells_len(line, i + 1, Seq::empty());
    } else {
        lemma_row_cells_len(line, i + 1, cur.push(line[i]));
    }
}

fn is_ws_byte(b: u8) -> (r: bool)
    ensures
        r == is_ws(b),
{
    b == 32 || b == 9 || b == 10 || b == 11 || b == 12 || b == 13
}

fn token_cell(t: &Vec<u8>) -> (c: MazeCell)
    ensures
        c == cell_of_token(t@),
{
    if t.len() == 1 {
        let b = t[0];
        if b == 88 {
            MazeCell::Empty
        } else if b == 43 || b == 110 {
            MazeCell::Node
        } else if b == 124 || b == 45 {
            MazeCell::Path { has_pellet: false }
        } else if b == 46 {
            MazeCell::Path { has_pellet: true }
        } else if b == 80 {
            MazeCell::PowerPellet
        } else {
            MazeCell::Empty
        }
    } else {
        MazeCell::Empty
    }
}

/// Splits one maze-file line into whitespace-separated tokens and maps each
/// to its cell, exactly `row_cells`.
fn parse_row(line: &Vec<u8>) -> (r: Vec<MazeCell>)
    ensures
        r@ == row_cells(line@),
{
    let n = line.len();
    let mut cells: Vec<MazeCell> = Vec::new();
    let mut cur: Vec<u8> = Vec::new();
    let mut i: usize = 0;
    while i < n
        invariant
            i <= n,
            n == line@.len(),
            row_cells(line@) == cells@ + row_cells_from(line@, i as int, cur@),
        decreases n - i,
    {
        let ghost cells0 = cells@;
        let ghost cur0 = cur@;
        let b = line[i];
        if is_ws_byte(b) {
            if cur.len() > 0 {
                let c = token_cell(&cur);
                cells.push(c);
                cur = Vec::new();
                proof {
                    let rest = row_cells_from(line@, i as int + 1, Seq::<u8>::empty());
                    assert(row_cells_from(line@, i as int, cur0) == seq![cell_of_token(cur0)]
                        + rest);
                    assert(cells0 + (seq![cell_of_token(cur0)] + rest) =~= cells@ + rest);
                }
            } else {
                proof {
                    let rest = row_cells_from(line@, i as int + 1, Seq::<u8>::empty());
                    assert(cur0 =~= Seq::<u8>::empty());
                    assert(row_cells_from(line@, i as int, cur0) == Seq::<MazeCell>::empty()
                        + rest);
                    assert(cells0 + (Seq::<MazeCell>::empty() + rest) =~= cells0 + rest);
                }
            }
        } else {
            cur.push(b);
            proof {
                assert(cur@ =~= cur0.push(b));
            }
        }
        i = i + 1;
    }
    let ghost cells1 = cells@;
    let ghost cur1 = cur@;
    if cur.len() > 0 {
        let c = token_cell(&cur);
        cells.push(c);
        proof {
            assert(row_cells_from(line@, n as int, cur1) == seq![cell_of_token(cur1)]);
            assert(cells1 + seq![cell_of_token(cur1)] =~= cells@);
        }
    } else {
        proof {
            assert(row_cells_from(line@, n as int, cur1) == Seq::<MazeCell>::empty());
            assert(cells1 + Seq::<MazeCell>::empty() =~= cells1);
        }
    }
    cells
}

/// One graph node: a world position, an optional neighbor per direction, and
/// the portal flag set for boundary nodes.
#[derive(Debug, Clone, Copy, PartialEq)]
pub struct MapNode {
    pub position: Position,
    pub up: Option<usize>,
    pub down: Option<usize>,
    pub left: Option<usize>,
    pub right: Option<usize>,
    pub is_portal: bool,
}

/// A node with no neighbors and no portal flag at `p`.
pub open spec fn blank_node(p: Position) -> MapNode {
    MapNode { position: p, up: None, down: None, left: None, right: None, is_portal: false }
}

impl MapNode {
    /// The neighbor handle recorded for `d`; `Stop` never has one.
    pub open spec fn neighbor_spec(&self, d: PacManDirection) -> Option<usize> {
        match d {
            PacManDirection::Up => self.up,
            PacManDirection::Down => self.down,
            PacManDirection::Left => self.left,
            PacManDirection::Right => self.right,
            PacManDirection::Stop => None,
        }
    }

    /// The neighbor handle recorded for `d`; `Stop` never has one.
    #[verifier::when_used_as_spec(neighbor_spec)]
    pub fn neighbor(&self, d: PacManDirection) -> (r: Option<usize>)
        ensures
            r == self.neighbor_spec(d),
    {
        match d {
            PacManDirection::Up => self.up,
            PacManDirection::Down => self.down,
            PacManDirection::Left => self.left,
            PacManDirection::Right => self.right,
            PacManDirection::Stop => None,
        }
    }

    /// The node's position is in range and every neighbor handle is below
    /// `count`.
    pub open spec fn wf(&self, count: int) -> bool {
        &&& node_pos_ok(self.position)
        &&& (self.up matches Some(j) ==> j < count)
        &&& (self.down matches Some(j) ==> j < count)
        &&& (self.left matches Some(j) ==> j < count)
        &&& (self.right matches Some(j) ==> j < count)
    }

    /// Makes a node at `(x, y)` with no neighbors and no portal flag.
    pub fn new(x: i64, y: i64) -> (n: MapNode)
        ensures
            n == blank_node(Position { x, y }),
    {
        MapNode {
            position: Position { x, y },
            up: None,
            down: None,
            left: None,
            right: None,
            is_portal: false,
        }
    }
}

/// First index at or after `i` whose entry in `list` is `(x, y)`.
pub open spec fn lookup_from(list: Seq<(usize, usize)>, x: int, y: int, i: nat) -> Option<usize>
    decreases list.len() - i,
{
    if i >= list.len() {
        None
    } else if list[i as int].0 == x && list[i as int].1 == y {
        Some(i as usize)
    } else {
        lookup_from(list, x, y, i + 1)
    }
}

/// The node handle registered for grid cell `(x, y)`, if any.
pub open spec fn lookup_spec(ng: NodeGroup, x: int, y: int) -> Option<usize> {
    lookup_from(ng.node_list@, x, y, 0)
}

/// The grid coordinates that spawn a node in `row` (row index `y`), in
/// column order.
pub open spec fn row_spawn_cells(row: Seq<MazeCell>, y: usize) -> Seq<(usize, usize)>
    decreases row.len(),
{
    if row.len() == 0 {
        Seq::empty()
    } else {
        row_spawn_cells(row.drop_last(), y) + if is_spawn_cell(row.last()) {
            seq![(((row.len() - 1) as usize), y)]
        } else {
            Seq::empty()
        }
    }
}

/// The grid coordinates that spawn a node, row-major.
pub open spec fn grid_spawn_cells(rows: Seq<Seq<MazeCell>>) -> Seq<(usize, usize)>
    decreases rows.len(),
{
    if rows.len() == 0 {
        Seq::empty()
    } else {
        grid_spawn_cells(rows.drop_last()) + row_spawn_cells(
            rows.last(),
            (rows.len() - 1) as usize,
        )
    }
}

/// All nodes of the maze graph, plus the grid coordinate each one was
/// spawned from (`node_list[i]` is the cell of `nodes[i]`).
pub struct NodeGroup {
    pub node_list: Vec<(usize, usize)>,
    pub nodes: Vec<MapNode>,
}

impl NodeGroup {
    /// As many coordinates as nodes, and every node well-formed.
    pub open spec fn wf(self) -> bool {
        &&& self.node_list@.len() == self.nodes@.len()
        &&& forall|i: int| 0 <= i < self.nodes@.len() ==> (#[trigger] self.nodes@[i]).wf(
            self.nodes@.len() as int,
        )
    }

    /// Every node sits at the world position of its grid cell, which stays
    /// within `MAX_GRID`.
    pub open spec fn grid_aligned(self) -> bool {
        &&& self.node_list@.len() == self.nodes@.len()
        &&& forall|i: int| 0 <= i < self.node_list@.len() ==> (#[trigger] self.node_list@[i]).0
            <= MAX_GRID && self.node_list@[i].1 <= MAX_GRID
        &&& forall|i: int| 0 <= i < self.node_list@.len() ==> (#[trigger] self.nodes@[i]).position
            == world_pos(self.node_list@[i].0 as int, self.node_list@[i].1 as int)
    }

    /// The neighbor recorded for node `i` in direction `d`.
    pub open spec fn neighbor_of(self, i: int, d: PacManDirection) -> Option<usize> {
        self.nodes@[i].neighbor_spec(d)
    }

    /// Makes an empty node group.
    pub fn new() -> (ng: NodeGroup)
        ensures
            ng.wf(),
            ng.grid_aligned(),
            ng.nodes@.len() == 0,
    {
        NodeGroup { node_list: Vec::new(), nodes: Vec::new() }
    }

    /// The node handle registered for grid cell `(x, y)`: the first node
    /// spawned from that cell, or `None` if the cell spawned none.
    pub fn lookup(&self, x: usize, y: usize) -> (r: Option<usize>)
        ensures
            r == lookup_spec(*self, x as int, y as int),
    {
        let n = self.node_list.len();
        let mut i: usize = 0;
        while i < n
            invariant
                i <= n,
                n == self.node_list@.len(),
                lookup_spec(*self, x as int, y as int) == lookup_from(
                    self.node_list@,
                    x as int,
                    y as int,
                    i as nat,
                ),
            decreases n - i,
        {
            let (cx, cy) = self.node_list[i];
            if cx == x && cy == y {
                return Some(i);
            }
            i = i + 1;
        }
        None
    }

    /// Spawns one blank node, at the cell's world position, for every cell
    /// of `maze` that is a decision point or a power pellet, row-major.
    pub fn setup_nodes(&mut self, maze: &Maze)
        requires
            old(self).node_list@.len() == 0,
            old(self).nodes@.len() == 0,
            maze.wf(),
        ensures
            final(self).node_list@ == grid_spawn_cells(maze.rows()),
            final(self).nodes@.len() == final(self).node_list@.len(),
            forall|i: int| 0 <= i < final(self).node_list@.len()
                ==> (#[trigger] final(self).nodes@[i]) == blank_node(
                world_pos(
                    final(self).node_list@[i].0 as int,
                    final(self).node_list@[i].1 as int,
                ),
            ),
            final(self).wf(),
            final(self).grid_aligned(),
    {
        let rows = maze.grid.len();
        let mut y: usize = 0;
        while y < rows
            invariant
                y <= rows,
                rows == maze.rows().len(),
                maze.wf(),
                self.node_list@ == grid_spawn_cells(maze.rows().subrange(0, y as int)),
                self.nodes@.len() == self.node_list@.len(),
                forall|i: int| 0 <= i < self.node_list@.len() ==> (#[trigger] self.node_list@[i]).0
                    <= MAX_GRID && self.node_list@[i].1 <= MAX_GRID,
                forall|i: int| 0 <= i < self.node_list@.len() ==> (#[trigger] self.nodes@[i])
                    == blank_node(
                    world_pos(self.node_list@[i].0 as int, self.node_list@[i].1 as int),
                ),
            decreases rows - y,
        {
            let cols = maze.grid[y].len();
            let mut x: usize = 0;
            proof {
                assert(maze.rows()[y as int] == maze.grid@[y as int]@);
                assert(maze.rows()[y as int].subrange(0, 0) =~= Seq::<MazeCell>::empty());
            }
            while x < cols
                invariant
                    x <= cols,
                    y < rows,
                    rows == maze.rows().len(),
                    cols == maze.rows()[y as int].len(),
                    maze.wf(),
                    self.node_list@ == grid_spawn_cells(maze.rows().subrange(0, y as int))
                        + row_spawn_cells(maze.rows()[y as int].subrange(0, x as int), y),
                    self.nodes@.len() == self.node_list@.len(),
                    forall|i: int| 0 <= i < self.node_list@.len() ==> (#[trigger] self.node_list@[
                        i
                    ]).0 <= MAX_GRID && self.node_list@[i].1 <= MAX_GRID,
                    forall|i: int| 0 <= i < self.node_list@.len() ==> (#[trigger] self.nodes@[i])
                        == blank_node(
                        world_pos(self.node_list@[i].0 as int, self.node_list@[i].1 as int),
                    ),
                decreases cols - x,
            {
                let ghost row = maze.rows()[y as int];
                let ghost pre = row.subrange(0, x as int);
                let ghost post = row.subrange(0, x as int + 1);
                let c = maze.grid[y][x];
                if matches!(c, MazeCell::Node | MazeCell::PowerPellet) {
                    let p = grid_to_world(x, y);
                    self.nodes.push(MapNode::new(p.x, p.y));
                    self.node_list.push((x, y));
                }
                proof {
                    assert(post.drop_last() =~= pre);
                    assert(post.last() == row[x as int]);
                    assert(row_spawn_cells(post, y) == row_spawn_cells(pre, y) + if is_spawn_cell(
                        row[x as int],
                    ) {
                        seq![((x, y))]
                    } else {
                        Seq::<(usize, usize)>::empty()
                    });
                    if is_spawn_cell(row[x as int]) {
                        assert(self.node_list@ == grid_spawn_cells(
                            maze.rows().subrange(0, y as int),
                        ) + row_spawn_cells(post, y));
                    } else {
                        assert(row_spawn_cells(post, y) =~= row_spawn_cells(pre, y));
                    }
                }
                x = x + 1;
            }
            proof {
                let rs = maze.rows();
                let upto = rs.subrange(0, y as int + 1);
                assert(upto.drop_last() =~= rs.subrange(0, y as int));
                assert(upto.last() == rs[y as int]);
                assert(rs[y as int].subrange(0, cols as int) =~= rs[y as int]);
                assert(grid_spawn_cells(upto) == grid_spawn_cells(rs.subrange(0, y as int))
                    + row_spawn_cells(rs[y as int], y));
            }
            y = y + 1;
        }
        proof {
            assert(maze.rows().subrange(0, rows as int) =~= maze.rows());
        }
    }
}

/// Builds the node set of `maze` into `node_group`.
pub fn maze_to_nodes(node_group: &mut NodeGroup, maze: &Maze)
    requires
        old(node_group).node_list@.len() == 0,
        old(node_group).nodes@.len() == 0,
        maze.wf(),
    ensures
        final(node_group).node_list@ == grid_spawn_cells(maze.rows()),
        final(node_group).nodes@.len() == final(node_group).node_list@.len(),
        forall|i: int| 0 <= i < final(node_group).node_list@.len()
            ==> (#[trigger] final(node_group).nodes@[i]) == blank_node(
            world_pos(
                final(node_group).node_list@[i].0 as int,
                final(node_group).node_list@[i].1 as int,
            ),
        ),
        final(node_group).wf(),
        final(node_group).grid_aligned(),
{
    node_group.setup_nodes(maze);
}


/// Steps of a corridor scan: the grid column delta of `d`.
pub open spec fn step_x(d: PacManDirection) -> int {
    match d {
        PacManDirection::Left => -1,
        PacManDirection::Right => 1,
        _ => 0,
    }
}

/// Steps of a corridor scan: the grid row delta of `d` (rows grow downward,
/// so `Up` is `-1`).
pub open spec fn step_y(d: PacManDirection) -> int {
    match d {
        PacManDirection::Up => -1,
        PacManDirection::Down => 1,
        _ => 0,
    }
}

/// A single-cell step along exactly one axis.
pub open spec fn is_unit_step(dx: int, dy: int) -> bool {
    ((dx == 1 || dx == -1) && dy == 0) || (dx == 0 && (dy == 1 || dy == -1))
}

/// More steps than any scan inside a `MAX_GRID`-bounded maze can take
/// before walking off the grid.
pub const SCAN_FUEL: usize = 2 * MAX_GRID + 4;

/// One corridor scan step at a time: from `(x, y)` move by `(dx, dy)`;
/// missing and `Empty` cells end the scan with no neighbor, a cell that
/// registered a node ends it with that node, and any other walkable cell is
/// skipped.  `fuel` bounds the walk; `SCAN_FUEL` is enough to cross any
/// well-formed maze.
pub open spec fn scan_from(
    maze: Maze,
    list: Seq<(usize, usize)>,
    x: int,
    y: int,
    dx: int,
    dy: int,
    fuel: nat,
) -> Option<usize>
    decreases fuel,
{
    if fuel == 0 {
        None
    } else {
        let nx = x + dx;
        let ny = y + dy;
        if nx < 0 || ny < 0 {
            None
        } else {
            match maze.cell(nx, ny) {
                None => None,
                Some(c) => if c == MazeCell::Empty {
                    None
                } else {
                    match lookup_from(list, nx, ny, 0) {
                        Some(j) => Some(j),
                        None => scan_from(maze, list, nx, ny, dx, dy, (fuel - 1) as nat),
                    }
                },
            }
        }
    }
}

/// The neighbor the corridor scan finds from `(x, y)` in step `(dx, dy)`.
pub open spec fn find_next_node_spec(
    maze: Maze,
    list: Seq<(usize, usize)>,
    x: int,
    y: int,
    dx: int,
    dy: int,
) -> Option<usize> {
    scan_from(maze, list, x, y, dx, dy, SCAN_FUEL as nat)
}

/// A found coordinate entry matches the searched cell and its index is in
/// range.
pub proof fn lemma_lookup_found(list: Seq<(usize, usize)>, x: int, y: int, i: nat, j: usize)
    requires
        list.len() <= usize::MAX,
        lookup_from(list, x, y, i) == Some(j),
    ensures
        i <= j < list.len(),
        list[j as int].0 == x,
        list[j as int].1 == y,
    decreases list.len() - i,
{
    if i >= list.len() {
    } else if list[i as int].0 == x && list[i as int].1 == y {
    } else {
        lemma_lookup_found(list, x, y, i + 1, j);
    }
}

/// A node found by a unit-step corridor scan sits strictly beyond the scan
/// origin along the scanned axis, and on the same line across it.
pub proof fn lemma_scan_found(
    maze: Maze,
    list: Seq<(usize, usize)>,
    x: int,
    y: int,
    dx: int,
    dy: int,
    fuel: nat,
    j: usize,
)
    requires
        list.len() <= usize::MAX,
        is_unit_step(dx, dy),
        scan_from(maze, list, x, y, dx, dy, fuel) == Some(j),
    ensures
        j < list.len(),
        dy == 0 ==> list[j as int].1 == y,
        dx == 0 ==> list[j as int].0 == x,
        dx == 1 ==> list[j as int].0 > x,
        dx == -1 ==> list[j as int].0 < x,
        dy == 1 ==> list[j as int].1 > y,
        dy == -1 ==> list[j as int].1 < y,
    decreases fuel,
{
    let nx = x + dx;
    let ny = y + dy;
    match lookup_from(list, nx, ny, 0) {
        Some(k) => {
            lemma_lookup_found(list, nx, ny, 0, k);
        },
        None => {
            lemma_scan_found(maze, list, nx, ny, dx, dy, (fuel - 1) as nat, j);
        },
    }
}

/// Scans the grid from `(start_x, start_y)` by unit step `(dx, dy)` until a
/// registered node (returned), an `Empty` cell, or the edge of the grid
/// (both `None`); walkable cells without a node are skipped.
pub fn find_next_node(
    start_x: usize,
    start_y: usize,
    dx: i64,
    dy: i64,
    maze: &Maze,
    nodes: &NodeGroup,
) -> (r: Option<usize>)
    requires
        start_x <= MAX_GRID,
        start_y <= MAX_GRID,
        is_unit_step(dx as int, dy as int),
    ensures
        r == find_next_node_spec(
            *maze,
            nodes.node_list@,
            start_x as int,
            start_y as int,
            dx as int,
            dy as int,
        ),
{
    let mut x: i64 = start_x as i64;
    let mut y: i64 = start_y as i64;
    let mut fuel: usize = SCAN_FUEL;
    while fuel > 0
        invariant
            start_x <= MAX_GRID,
            start_y <= MAX_GRID,
            is_unit_step(dx as int, dy as int),
            fuel <= SCAN_FUEL,
            -((SCAN_FUEL - fuel) as int) <= x - start_x <= (SCAN_FUEL - fuel) as int,
            -((SCAN_FUEL - fuel) as int) <= y - start_y <= (SCAN_FUEL - fuel) as int,
            find_next_node_spec(
                *maze,
                nodes.node_list@,
                start_x as int,
                start_y as int,
                dx as int,
                dy as int,
            ) == scan_from(
                *maze,
                nodes.node_list@,
                x as int,
                y as int,
                dx as int,
                dy as int,
                fuel as nat,
            ),
        decreases fuel,
    {
        let nx = x + dx;
        let ny = y + dy;
        if nx < 0 || ny < 0 {
            return None;
        }
        let nxu = nx as usize;
        let nyu = ny as usize;
        proof {
            assert(maze.cell(nx as int, ny as int) == if 0 <= (ny as int) < maze.rows().len()
                && 0 <= (nx as int) < maze.rows()[ny as int].len() {
                Some(maze.rows()[ny as int][nx as int])
            } else {
                None::<MazeCell>
            });
            if (ny as int) < maze.rows().len() {
                assert(maze.rows()[ny as int] == maze.grid@[ny as int]@);
            }
        }
        if nyu >= maze.grid.len() {
            return None;
        }
        if nxu >= maze.grid[nyu].len() {
            return None;
        }
        let c = maze.grid[nyu][nxu];
        if matches!(c, MazeCell::Empty) {
            return None;
        }
        match nodes.lookup(nxu, nyu) {
            Some(j) => {
                return Some(j);
            },
            None => {},
        }
        x = nx;
        y = ny;
        fuel = fuel - 1;
    }
    None
}

/// Fills in, for every node, the neighbor the corridor scan finds in each
/// of the four directions; positions, portal flags and the coordinate list
/// stay as they were.
pub fn assign_neighbors(maze: &Maze, map_nodes: &mut NodeGroup)
    requires
        old(map_nodes).wf(),
        old(map_nodes).grid_aligned(),
    ensures
        final(map_nodes).node_list@ == old(map_nodes).node_list@,
        final(map_nodes).nodes@.len() == old(map_nodes).nodes@.len(),
        forall|i: int|
            0 <= i < final(map_nodes).nodes@.len() ==> {
                let n = #[trigger] final(map_nodes).nodes@[i];
                let o = old(map_nodes).nodes@[i];
                let cx = old(map_nodes).node_list@[i].0 as int;
                let cy = old(map_nodes).node_list@[i].1 as int;
                &&& n.position == o.position
                &&& n.is_portal == o.is_portal
                &&& n.up == find_next_node_spec(*maze, old(map_nodes).node_list@, cx, cy, 0, -1)
                &&& n.down == find_next_node_spec(*maze, old(map_nodes).node_list@, cx, cy, 0, 1)
                &&& n.left == find_next_node_spec(*maze, old(map_nodes).node_list@, cx, cy, -1, 0)
                &&& n.right == find_next_node_spec(*maze, old(map_nodes).node_list@, cx, cy, 1, 0)
            },
        final(map_nodes).wf(),
        final(map_nodes).grid_aligned(),
{
    let count = map_nodes.nodes.len();
    let mut i: usize = 0;
    while i < count
        invariant
            count == map_nodes.nodes@.len(),
            i <= count,
            map_nodes.node_list@ == old(map_nodes).node_list@,
            map_nodes.nodes@.len() == old(map_nodes).nodes@.len(),
            old(map_nodes).wf(),
            old(map_nodes).grid_aligned(),
            forall|k: int|
                0 <= k < count ==> (#[trigger] map_nodes.nodes@[k]).wf(count as int),
            forall|k: int|
                i <= k < count ==> #[trigger] map_nodes.nodes@[k] == old(map_nodes).nodes@[k],
            forall|k: int|
                0 <= k < i ==> {
                    let n = #[trigger] map_nodes.nodes@[k];
                    let o = old(map_nodes).nodes@[k];
                    let cx = old(map_nodes).node_list@[k].0 as int;
                    let cy = old(map_nodes).node_list@[k].1 as int;
                    &&& n.position == o.position
                    &&& n.is_portal == o.is_portal
                    &&& n.up == find_next_node_spec(*maze, old(map_nodes).node_list@, cx, cy, 0, -1)
                    &&& n.down == find_next_node_spec(*maze, old(map_nodes).node_list@, cx, cy, 0, 1)
                    &&& n.left == find_next_node_spec(
                        *maze,
                        old(map_nodes).node_list@,
                        cx,
                        cy,
                        -1,
                        0,
                    )
                    &&& n.right == find_next_node_spec(
                        *maze,
                        old(map_nodes).node_list@,
                        cx,
                        cy,
                        1,
                        0,
                    )
                },
        decreases count - i,
    {
        let (cx, cy) = map_nodes.node_list[i];
        let up = find_next_node(cx, cy, 0, -1, maze, map_nodes);
        let down = find_next_node(cx, cy, 0, 1, maze, map_nodes);
        let left = find_next_node(cx, cy, -1, 0, maze, map_nodes);
        let right = find_next_node(cx, cy, 1, 0, maze, map_nodes);
        let position = map_nodes.nodes[i].position;
        let is_portal = map_nodes.nodes[i].is_portal;
        map_nodes.nodes.set(i, MapNode { position, up, down, left, right, is_portal });
        proof {
            let list = old(map_nodes).node_list@;
            assert(map_nodes.node_list.len() == list.len());
            if let Some(j) = up {
                lemma_scan_found(*maze, list, cx as int, cy as int, 0, -1, SCAN_FUEL as nat, j);
            }
            if let Some(j) = down {
                lemma_scan_found(*maze, list, cx as int, cy as int, 0, 1, SCAN_FUEL as nat, j);
            }
            if let Some(j) = left {
                lemma_scan_found(*maze, list, cx as int, cy as int, -1, 0, SCAN_FUEL as nat, j);
            }
            if let Some(j) = right {
                lemma_scan_found(*maze, list, cx as int, cy as int, 1, 0, SCAN_FUEL as nat, j);
            }
        }
        i = i + 1;
    }
}

/// The position lies on one of the four map boundary lines.
pub open spec fn on_boundary(p: Position) -> bool {
    p.x == LEFT_BOUND || p.x == RIGHT_BOUND || p.y == TOP_BOUND || p.y == BOTTOM_BOUND
}

/// A copy of `n` with the portal flag also set when `n` sits on a map
/// boundary line.
pub open spec fn with_portal_flag(n: MapNode) -> MapNode {
    MapNode { is_portal: n.is_portal || on_boundary(n.position), ..n }
}

/// Marks every node on a map boundary line as a portal; everything else is
/// untouched.
pub fn identify_portal_nodes(map_nodes: &mut NodeGroup)
    requires
        old(map_nodes).wf(),
    ensures
        final(map_nodes).node_list@ == old(map_nodes).node_list@,
        final(map_nodes).nodes@.len() == old(map_nodes).nodes@.len(),
        forall|i: int|
            0 <= i < final(map_nodes).nodes@.len() ==> #[trigger] final(map_nodes).nodes@[i]
                == with_portal_flag(old(map_nodes).nodes@[i]),
        final(map_nodes).wf(),
        old(map_nodes).grid_aligned() ==> final(map_nodes).grid_aligned(),
{
    let count = map_nodes.nodes.len();
    let mut i: usize = 0;
    while i < count
        invariant
            count == map_nodes.nodes@.len(),
            i <= count,
            old(map_nodes).wf(),
            map_nodes.node_list@ == old(map_nodes).node_list@,
            map_nodes.nodes@.len() == old(map_nodes).nodes@.len(),
            forall|k: int|
                i <= k < count ==> #[trigger] map_nodes.nodes@[k] == old(map_nodes).nodes@[k],
            forall|k: int|
                0 <= k < i ==> #[trigger] map_nodes.nodes@[k] == with_portal_flag(
                    old(map_nodes).nodes@[k],
                ),
        decreases count - i,
    {
        let n = map_nodes.nodes[i];
        if n.position.x == LEFT_BOUND || n.position.x == RIGHT_BOUND || n.position.y == TOP_BOUND
            || n.position.y == BOTTOM_BOUND {
            map_nodes.nodes.set(i, MapNode { is_portal: true, ..n });
        }
        i = i + 1;
    }
}

/// The mirror of a boundary position: left and right boundaries swap at the
/// same height, then top and bottom swap at the same column; positions on no
/// boundary have no mirror.
pub open spec fn mirror_spec(p: Position) -> Option<Position> {
    if p.x == LEFT_BOUND {
        Some(Position { x: RIGHT_BOUND, y: p.y })
    } else if p.x == RIGHT_BOUND {
        Some(Position { x: LEFT_BOUND, y: p.y })
    } else if p.y == TOP_BOUND {
        Some(Position { x: p.x, y: BOTTOM_BOUND })
    } else if p.y == BOTTOM_BOUND {
        Some(Position { x: p.x, y: TOP_BOUND })
    } else {
        None
    }
}

/// The position mirrored across the map for a node on a boundary, exactly
/// `mirror_spec`; `None` for a node on no boundary.
pub fn find_opposite_portal(current_node: &MapNode) -> (r: Option<Position>)
    ensures
        r == mirror_spec(current_node.position),
{
    let x = current_node.position.x;
    let y = current_node.position.y;
    if x == LEFT_BOUND {
        Some(Position { x: RIGHT_BOUND, y })
    } else if x == RIGHT_BOUND {
        Some(Position { x: LEFT_BOUND, y })
    } else if y == TOP_BOUND {
        Some(Position { x, y: BOTTOM_BOUND })
    } else if y == BOTTOM_BOUND {
        Some(Position { x, y: TOP_BOUND })
    } else {
        None
    }
}

/// The grid cell whose world position is exactly `p`, if `p` lies on the
/// grid lattice within `MAX_GRID`.
pub open spec fn grid_coord_of(p: Position) -> Option<(usize, usize)> {
    let dx = p.x - X_OFFSET;
    let dy = Y_OFFSET - p.y;
    if dx >= 0 && dy >= 0 && dx % (TILE_SIZE as int) == 0 && dy % (TILE_SIZE as int) == 0 && dx
        / (TILE_SIZE as int) <= MAX_GRID && dy / (TILE_SIZE as int) <= MAX_GRID {
        Some(((dx / (TILE_SIZE as int)) as usize, (dy / (TILE_SIZE as int)) as usize))
    } else {
        None
    }
}

/// The grid cell whose world position is exactly `p`, per `grid_coord_of`.
pub fn grid_coord(p: &Position) -> (r: Option<(usize, usize)>)
    requires
        pos_ok(*p),
    ensures
        r == grid_coord_of(*p),
{
    let dx = p.x - X_OFFSET;
    let dy = Y_OFFSET - p.y;
    if dx >= 0 && dy >= 0 && dx % TILE_SIZE == 0 && dy % TILE_SIZE == 0 {
        let gx = dx / TILE_SIZE;
        let gy = dy / TILE_SIZE;
        if gx <= MAX_GRID as i64 && gy <= MAX_GRID as i64 {
            Some((gx as usize, gy as usize))
        } else {
            None
        }
    } else {
        None
    }
}

/// Where a portal node leads: the node registered at the grid cell of the
/// mirrored position.  `None` for non-portals, positions with no mirror,
/// mirrors off the lattice, and cells with no node.
pub open spec fn portal_exit_spec(ng: NodeGroup, node_id: int) -> Option<usize> {
    let n = ng.nodes@[node_id];
    if !n.is_portal {
        None
    } else {
        match mirror_spec(n.position) {
            None => None,
            Some(mp) => match grid_coord_of(mp) {
                None => None,
                Some(c) => lookup_from(ng.node_list@, c.0 as int, c.1 as int, 0),
            },
        }
    }
}

/// Where the portal node `node_id` leads, per `portal_exit_spec`.
pub fn find_portal_exit(ng: &NodeGroup, node_id: usize) -> (r: Option<usize>)
    requires
        ng.wf(),
        node_id < ng.nodes@.len(),
    ensures
        r == portal_exit_spec(*ng, node_id as int),
        r matches Some(m) ==> m < ng.nodes@.len(),
{
    let node = &ng.nodes[node_id];
    if !node.is_portal {
        return None;
    }
    match find_opposite_portal(node) {
        None => None,
        Some(mp) => {
            proof {
                assert(pos_ok(mp)) by {
                    assert(node_pos_ok(node.position));
                }
            }
            match grid_coord(&mp) {
                None => None,
                Some((gx, gy)) => {
                    let r = ng.lookup(gx, gy);
                    proof {
                        assert(ng.node_list.len() == ng.node_list@.len());
                        if let Some(m) = r {
                            lemma_lookup_found(ng.node_list@, gx as int, gy as int, 0, m);
                        }
                    }
                    r
                },
            }
        },
    }
}

/// Law: a neighbor found by the corridor scan lies strictly farther along
/// the scanned axis than the node itself, at the same coordinate across it;
/// in particular a node is never its own neighbor.
pub proof fn lemma_neighbor_strictly_farther(
    maze: Maze,
    ng: NodeGroup,
    i: int,
    d: PacManDirection,
    j: usize,
)
    requires
        ng.wf(),
        ng.grid_aligned(),
        0 <= i < ng.nodes@.len(),
        d != PacManDirection::Stop,
        ng.neighbor_of(i, d) == find_next_node_spec(
            maze,
            ng.node_list@,
            ng.node_list@[i].0 as int,
            ng.node_list@[i].1 as int,
            step_x(d),
            step_y(d),
        ),
        ng.neighbor_of(i, d) == Some(j),
    ensures
        j < ng.nodes@.len(),
        j != i,
        d == PacManDirection::Up ==> ng.nodes@[j as int].position.y > ng.nodes@[i].position.y
            && ng.nodes@[j as int].position.x == ng.nodes@[i].position.x,
        d == PacManDirection::Down ==> ng.nodes@[j as int].position.y < ng.nodes@[i].position.y
            && ng.nodes@[j as int].position.x == ng.nodes@[i].position.x,
        d == PacManDirection::Left ==> ng.nodes@[j as int].position.x < ng.nodes@[i].position.x
            && ng.nodes@[j as int].position.y == ng.nodes@[i].position.y,
        d == PacManDirection::Right ==> ng.nodes@[j as int].position.x > ng.nodes@[i].position.x
            && ng.nodes@[j as int].position.y == ng.nodes@[i].position.y,
{
    let list = ng.node_list@;
    assert(ng.node_list.len() == list.len());
    let cx = list[i].0 as int;
    let cy = list[i].1 as int;
    lemma_scan_found(maze, list, cx, cy, step_x(d), step_y(d), SCAN_FUEL as nat, j);
    lemma_world_pos_bounds(cx, cy);
    lemma_world_pos_bounds(list[j as int].0 as int, list[j as int].1 as int);
    assert(ng.nodes@[i].position == world_pos(cx, cy));
    assert(ng.nodes@[j as int].position == world_pos(
        list[j as int].0 as int,
        list[j as int].1 as int,
    ));
    assert(forall|a: int, b: int|
        0 <= a <= MAX_GRID && 0 <= b <= MAX_GRID && a < b ==> #[trigger] (a * TILE_SIZE)
            < #[trigger] (b * TILE_SIZE)) by (nonlinear_arith);
}

/// Law: the portal mirror of a left-boundary position is the right-boundary
/// position at the same height, and mirroring that returns exactly the
/// original position.
pub proof fn lemma_portal_round_trip(p: Position)
    requires
        p.x == LEFT_BOUND,
    ensures
        mirror_spec(p) == Some(Position { x: RIGHT_BOUND, y: p.y }),
        mirror_spec(mirror_spec(p).unwrap()) == Some(p),
{
}

} // verus!
