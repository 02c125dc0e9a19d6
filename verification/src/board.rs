//! The board: a fixed grid of cells, read and written by signed coordinates.

use vstd::prelude::*;

verus! {

/// Number of columns.
pub const BOARD_WIDTH: usize = 10;

/// Number of rows. Row 0 is the bottom row.
pub const BOARD_HEIGHT: usize = 20;

/// A display colour, one byte per sRGB channel. The rules never look inside.
#[derive(Copy, Clone, Debug, PartialEq, Eq, Structural)]
pub struct Color {
    pub r: u8,
    pub g: u8,
    pub b: u8,
}

/// The state of one grid position.
#[derive(Copy, Clone, Debug, PartialEq, Eq, Structural)]
pub enum Cell {
    Empty,
    Filled(Color),
}

impl Default for Cell {
    fn default() -> (cell: Cell)
        ensures
            cell == Cell::Empty,
    {
        Cell::Empty
    }
}

/// The mathematical model of a board: the cell at each position `(x, y)` that
/// lies on the board, and nothing elsewhere.
pub type Grid = Map<(int, int), Cell>;

/// Whether `(x, y)` names a position on the board.
pub open spec fn in_bounds(x: int, y: int) -> bool {
    0 <= x < BOARD_WIDTH && 0 <= y < BOARD_HEIGHT
}

/// The grid with every position empty.
pub open spec fn empty_grid() -> Grid {
    Map::new(|p: (int, int)| in_bounds(p.0, p.1), |p: (int, int)| Cell::Empty)
}

/// The grid after a write of `cell` at `p`: a write off the grid changes nothing.
pub open spec fn put(grid: Grid, p: (int, int), cell: Cell) -> Grid {
    if grid.dom().contains(p) {
        grid.insert(p, cell)
    } else {
        grid
    }
}

/// The grid after a write of `cell` at every position in `cells`; those off the
/// grid are passed over.
pub open spec fn paint(grid: Grid, cells: Set<(int, int)>, cell: Cell) -> Grid {
    Map::new(
        |p: (int, int)| grid.dom().contains(p),
        |p: (int, int)|
            if cells.contains(p) {
                cell
            } else {
                grid[p]
            },
    )
}

/// Whether `p` is taken: on the grid and filled.
pub open spec fn occupied(grid: Grid, p: (int, int)) -> bool {
    grid.dom().contains(p) && grid[p] is Filled
}

/// The grid of cells, `cells[y][x]` being column `x` of row `y`.
#[derive(Clone, Debug, PartialEq, Eq)]
pub struct Board {
    pub cells: [[Cell; BOARD_WIDTH]; BOARD_HEIGHT],
}

impl View for Board {
    type V = Grid;

    open spec fn view(&self) -> Grid {
        Map::new(|p: (int, int)| in_bounds(p.0, p.1), |p: (int, int)| self.cells[p.1][p.0])
    }
}

impl Default for Board {
    fn default() -> (board: Board)
        ensures
            board@ == empty_grid(),
    {
        Board { cells: [[Cell::Empty; BOARD_WIDTH]; BOARD_HEIGHT] }
    }
}

impl Board {
    /// The cell at `(x, y)`, or nothing where `(x, y)` is off the board.
    pub fn get(&self, x: i32, y: i32) -> (cell: Option<Cell>)
        ensures
            cell == self@.get((x as int, y as int)),
            cell is Some <==> in_bounds(x as int, y as int),
    {
        if x < 0 || y < 0 {
            return None;
        }
        let (x, y): (usize, usize) = (x as usize, y as usize);
        if x >= BOARD_WIDTH || y >= BOARD_HEIGHT {
            return None;
        }
        Some(self.cells[y][x])
    }

    /// Writes `cell` at `(x, y)`; off the board the write is dropped.
    pub fn set(&mut self, x: i32, y: i32, cell: Cell)
        ensures
            final(self)@ == put(old(self)@, (x as int, y as int), cell),
            !in_bounds(x as int, y as int) ==> final(self)@ == old(self)@,
    {
        if 0 <= x && 0 <= y {
            let (x, y): (usize, usize) = (x as usize, y as usize);
            if x < BOARD_WIDTH && y < BOARD_HEIGHT {
                self.cells[y][x] = cell;
            }
        }
    }
}

/// The positions of `grid` that are filled.
pub open spec fn filled_cells(grid: Grid) -> Set<(int, int)> {
    Set::new(|p: (int, int)| occupied(grid, p))
}

/// A read finds nothing off the board and a cell on it. After a write on the
/// board, a read at the same position finds the cell written, and a read
/// anywhere else finds what was there before. A write off the board changes
/// nothing.
pub proof fn lemma_read_after_write(board: Board, p: (int, int), cell: Cell)
    ensures
        forall|q: (int, int)| board@.get(q) is Some <==> in_bounds(q.0, q.1),
        in_bounds(p.0, p.1) ==> put(board@, p, cell).get(p) == Some(cell),
        forall|q: (int, int)| q != p ==> put(board@, p, cell).get(q) == board@.get(q),
        !in_bounds(p.0, p.1) ==> put(board@, p, cell) == board@,
{
}

/// A board has finitely many positions, so finitely many filled ones.
pub proof fn lemma_filled_cells_finite(board: Board)
    ensures
        board@.dom().finite(),
        filled_cells(board@).finite(),
{
    let width = BOARD_WIDTH as int;
    let indices = vstd::set_lib::set_int_range(0, BOARD_WIDTH * BOARD_HEIGHT);
    let position = |k: int| (k % width, k / width);
    vstd::set_lib::lemma_int_range(0, BOARD_WIDTH * BOARD_HEIGHT);
    indices.lemma_map_finite(position);
    assert forall|p: (int, int)| board@.dom().contains(p) implies indices.map(position).contains(
        p,
    ) by {
        let k = p.1 * width + p.0;
        assert(indices.contains(k));
    }
    vstd::set_lib::lemma_set_subset_finite(indices.map(position), board@.dom());
    vstd::set_lib::lemma_set_subset_finite(board@.dom(), filled_cells(board@));
}

} // verus!
