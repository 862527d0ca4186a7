//! The coarse tile map: a rectangular grid of wall and path tiles with a
//! walled border, plus the wall query used for collision-style checks.

use vstd::prelude::*;

verus! {

/// Grid columns: `SCREEN_WIDTH / TILE_SIZE`.
pub const MAP_WIDTH: usize = 29;

/// Grid rows: `SCREEN_HEIGHT / TILE_SIZE`.
pub const MAP_HEIGHT: usize = 32;

/// What one tile of the coarse map holds.
#[derive(Debug, Clone, Copy, PartialEq, Eq, Structural)]
pub enum TileType {
    Wall,
    Path,
    Pellet,
}

/// A rectangular tile map.
pub struct TileMap {
    grid: Vec<Vec<TileType>>,
    width: usize,
    height: usize,
}

/// The tile a freshly generated map holds at `(x, y)`: walls on the border,
/// paths inside.
pub open spec fn generated_tile(x: int, y: int) -> TileType {
    if x == 0 || x == MAP_WIDTH - 1 || y == 0 || y == MAP_HEIGHT - 1 {
        TileType::Wall
    } else {
        TileType::Path
    }
}

/// The grid is a `MAP_WIDTH` by `MAP_HEIGHT` rectangle of `generated_tile`.
pub open spec fn is_generated_grid(grid: Seq<Seq<TileType>>) -> bool {
    &&& grid.len() == MAP_HEIGHT
    &&& forall|y: int| 0 <= y < grid.len() ==> (#[trigger] grid[y]).len() == MAP_WIDTH
    &&& forall|y: int, x: int|
        0 <= y < grid.len() && 0 <= x < grid[y].len() ==> #[trigger] grid[y][x] == generated_tile(
            x,
            y,
        )
}

fn generate_bordered_grid() -> (grid: Vec<Vec<TileType>>)
    ensures
        is_generated_grid(grid@.map_values(|row: Vec<TileType>| row@)),
{
    let mut grid: Vec<Vec<TileType>> = Vec::new();
    let mut y: usize = 0;
    while y < MAP_HEIGHT
        invariant
            y <= MAP_HEIGHT,
            grid@.len() == y,
            forall|j: int| 0 <= j < y ==> (#[trigger] grid@[j])@.len() == MAP_WIDTH,
            forall|j: int, x: int|
                0 <= j < y && 0 <= x < MAP_WIDTH ==> #[trigger] (grid@[j])@[x] == generated_tile(
                    x,
                    j,
                ),
        decreases MAP_HEIGHT - y,
    {
        let mut row: Vec<TileType> = Vec::new();
        let mut x: usize = 0;
        while x < MAP_WIDTH
            invariant
                x <= MAP_WIDTH,
                y < MAP_HEIGHT,
                row@.len() == x,
                forall|i: int| 0 <= i < x ==> row@[i] == generated_tile(i, y as int),
            decreases MAP_WIDTH - x,
        {
            if x == 0 || x == MAP_WIDTH - 1 || y == 0 || y == MAP_HEIGHT - 1 {
                row.push(TileType::Wall);
            } else {
                row.push(TileType::Path);
            }
            x = x + 1;
        }
        grid.push(row);
        y = y + 1;
    }
    grid
}

impl TileMap {
    /// The map's grid as a sequence of rows.
    pub closed spec fn grid_view(self) -> Seq<Seq<TileType>> {
        self.grid@.map_values(|row: Vec<TileType>| row@)
    }

    /// The recorded width.
    pub closed spec fn spec_width(self) -> usize {
        self.width
    }

    /// The recorded height.
    pub closed spec fn spec_height(self) -> usize {
        self.height
    }

    /// The recorded extents match the grid, which is rectangular.
    pub open spec fn wf(self) -> bool {
        &&& self.grid_view().len() == self.spec_height()
    &&& forall|y: int|
        0 <= y < self.grid_view().len() ==> (#[trigger] self.grid_view()[y]).len()
            == self.spec_width()
    }

    /// Makes the standard map: a bordered rectangle of path tiles.
    pub fn new() -> (map: TileMap)
        ensures
            map.wf(),
            map.spec_width() == MAP_WIDTH,
            map.spec_height() == MAP_HEIGHT,
            is_generated_grid(map.grid_view()),
    {
        let grid = Self::generate_debug_grid();
        proof {
            assert(grid@.map_values(|row: Vec<TileType>| row@)[0] == grid@[0]@);
        }
        let width = grid[0].len();
        let height = grid.len();
        TileMap { grid, width, height }
    }

    /// Builds the standard grid: walls along the border, paths inside.
    pub fn generate_grid() -> (grid: Vec<Vec<TileType>>)
        ensures
            is_generated_grid(grid@.map_values(|row: Vec<TileType>| row@)),
    {
        generate_bordered_grid()
    }

    /// Builds the grid used while debugging layout; currently the standard
    /// bordered grid.
    pub fn generate_debug_grid() -> (grid: Vec<Vec<TileType>>)
        ensures
            is_generated_grid(grid@.map_values(|row: Vec<TileType>| row@)),
    {
        generate_bordered_grid()
    }

    /// True exactly when `(x, y)` lies on the map and holds a wall tile;
    /// coordinates off the map are not walls.
    pub fn is_wall(&self, x: i32, y: i32) -> (r: bool)
        requires
            self.wf(),
        ensures
            r == (0 <= x < self.spec_width() && 0 <= y < self.spec_height()
                && self.grid_view()[y as int][x as int] == TileType::Wall),
    {
        if x >= 0 && (x as usize) < self.width && y >= 0 && (y as usize) < self.height {
            self.grid[y as usize][x as usize] == TileType::Wall
        } else {
            false
        }
    }
}

} // verus!
