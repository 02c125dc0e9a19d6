//! The seven pieces, their orientations, and the active piece.

use crate::board::{paint, put, Board, Cell, Color, Grid, BOARD_HEIGHT, BOARD_WIDTH};
use crate::random::gen_range_inclusive;
use vstd::prelude::*;

verus! {

/// One of the seven four-cell shapes.
#[derive(Copy, Clone, Debug, PartialEq, Eq, Hash, Structural)]
pub enum TetrominoKind {
    I,
    O,
    T,
    S,
    Z,
    J,
    L,
}

/// The seven kinds, in the order of the catalogue.
pub const KINDS: [TetrominoKind; 7] = [
    TetrominoKind::I,
    TetrominoKind::O,
    TetrominoKind::T,
    TetrominoKind::S,
    TetrominoKind::Z,
    TetrominoKind::J,
    TetrominoKind::L,
];

/// The four `(dx, dy)` offsets, from the anchor, of a piece in one orientation.
pub struct TetrominoShape {
    pub cells: &'static [(i32, i32)],
}

/// The I piece: the four offsets after no, one, two and three quarter turns.
pub const I_SHAPES: [[(i32, i32); 4]; 4] = [
    [(0, 0), (1, 0), (2, 0), (3, 0)],
    [(1, -1), (1, 0), (1, 1), (1, 2)],
    [(0, 1), (1, 1), (2, 1), (3, 1)],
    [(2, -1), (2, 0), (2, 1), (2, 2)],
];

/// The O piece: the four offsets after no, one, two and three quarter turns.
pub const O_SHAPES: [[(i32, i32); 4]; 4] = [
    [(0, 0), (1, 0), (0, 1), (1, 1)],
    [(0, 0), (1, 0), (0, 1), (1, 1)],
    [(0, 0), (1, 0), (0, 1), (1, 1)],
    [(0, 0), (1, 0), (0, 1), (1, 1)],
];

/// The T piece: the four offsets after no, one, two and three quarter turns.
pub const T_SHAPES: [[(i32, i32); 4]; 4] = [
    [(0, 0), (1, 0), (2, 0), (1, 1)],
    [(1, -1), (1, 0), (1, 1), (2, 0)],
    [(0, 1), (1, 1), (2, 1), (1, 0)],
    [(1, -1), (1, 0), (1, 1), (0, 0)],
];

/// The S piece: the four offsets after no, one, two and three quarter turns.
pub const S_SHAPES: [[(i32, i32); 4]; 4] = [
    [(1, 0), (2, 0), (0, 1), (1, 1)],
    [(1, -1), (1, 0), (2, 0), (2, 1)],
    [(1, 0), (2, 0), (0, 1), (1, 1)],
    [(1, -1), (1, 0), (2, 0), (2, 1)],
];

/// The Z piece: the four offsets after no, one, two and three quarter turns.
pub const Z_SHAPES: [[(i32, i32); 4]; 4] = [
    [(0, 0), (1, 0), (1, 1), (2, 1)],
    [(2, -1), (1, 0), (2, 0), (1, 1)],
    [(0, 0), (1, 0), (1, 1), (2, 1)],
    [(2, -1), (1, 0), (2, 0), (1, 1)],
];

/// The J piece: the four offsets after no, one, two and three quarter turns.
pub const J_SHAPES: [[(i32, i32); 4]; 4] = [
    [(0, 0), (0, 1), (1, 1), (2, 1)],
    [(1, -1), (2, -1), (1, 0), (1, 1)],
    [(0, 0), (1, 0), (2, 0), (2, 1)],
    [(1, -1), (1, 0), (0, 1), (1, 1)],
];

/// The L piece: the four offsets after no, one, two and three quarter turns.
pub const L_SHAPES: [[(i32, i32); 4]; 4] = [
    [(2, 0), (0, 1), (1, 1), (2, 1)],
    [(1, -1), (1, 0), (1, 1), (2, 1)],
    [(0, 0), (1, 0), (2, 0), (0, 1)],
    [(0, -1), (1, -1), (1, 0), (1, 1)],
];

/// The table of a kind: one row of four offsets for each quarter turn.
pub open spec fn shape_table(kind: TetrominoKind) -> [[(i32, i32); 4]; 4] {
    match kind {
        TetrominoKind::I => I_SHAPES,
        TetrominoKind::O => O_SHAPES,
        TetrominoKind::T => T_SHAPES,
        TetrominoKind::S => S_SHAPES,
        TetrominoKind::Z => Z_SHAPES,
        TetrominoKind::J => J_SHAPES,
        TetrominoKind::L => L_SHAPES,
    }
}

/// The offsets of `kind` after `rotation` quarter turns; turns count modulo 4.
pub open spec fn shape_offsets(kind: TetrominoKind, rotation: int) -> Seq<(i32, i32)> {
    shape_table(kind)[rotation % 4]@
}

/// Looks up the offsets of `kind` after `rotation` quarter turns.
pub fn shape_of(kind: TetrominoKind, rotation: u8) -> (shape: TetrominoShape)
    ensures
        shape.cells@ == shape_offsets(kind, rotation as int),
        shape.cells@.len() == 4,
{
    let r: usize = (rotation % 4) as usize;
    match kind {
        TetrominoKind::I => TetrominoShape { cells: &I_SHAPES[r] },
        TetrominoKind::O => TetrominoShape { cells: &O_SHAPES[r] },
        TetrominoKind::T => TetrominoShape { cells: &T_SHAPES[r] },
        TetrominoKind::S => TetrominoShape { cells: &S_SHAPES[r] },
        TetrominoKind::Z => TetrominoShape { cells: &Z_SHAPES[r] },
        TetrominoKind::J => TetrominoShape { cells: &J_SHAPES[r] },
        TetrominoKind::L => TetrominoShape { cells: &L_SHAPES[r] },
    }
}

/// Every orientation of every kind has exactly four offsets, and four more
/// quarter turns bring the same offsets back.
pub proof fn lemma_shape_turns_repeat(kind: TetrominoKind, rotation: int)
    ensures
        shape_offsets(kind, rotation).len() == 4,
        shape_offsets(kind, rotation + 4) == shape_offsets(kind, rotation),
{
}

/// Every offset lies in the four by four box whose lower left corner is one
/// row below the anchor.
pub proof fn lemma_shape_offsets_in_box(kind: TetrominoKind, rotation: int, i: int)
    requires
        0 <= i < 4,
    ensures
        0 <= shape_offsets(kind, rotation)[i].0 <= 3,
        -1 <= shape_offsets(kind, rotation)[i].1 <= 2,
{
}

/// The four offsets of an orientation are four different cells.
pub proof fn lemma_shape_offsets_distinct(kind: TetrominoKind, rotation: int, i: int, j: int)
    requires
        0 <= i < j < 4,
    ensures
        shape_offsets(kind, rotation)[i] != shape_offsets(kind, rotation)[j],
{
}

/// The cells taken by a piece of `kind`, turned `rotation` quarter turns, with
/// its anchor at `(x, y)`: the anchor plus each offset, in table order.
pub open spec fn cells_at(kind: TetrominoKind, rotation: int, x: int, y: int) -> Seq<(int, int)> {
    Seq::new(
        4,
        |i: int| (x + shape_offsets(kind, rotation)[i].0, y + shape_offsets(kind, rotation)[i].1),
    )
}

/// Lowest value of a colour channel of a new piece: a fifth of full intensity.
pub const SPAWN_CHANNEL_MIN: u8 = 51;

/// Highest value of a colour channel of a new piece: just short of full intensity.
pub const SPAWN_CHANNEL_MAX: u8 = 254;

/// Highest column at which a new piece is anchored, four short of the width:
/// the four columns that an orientation may span then end on the board.
pub const SPAWN_X_MAX: i32 = 6;

/// Row at which a new piece is anchored, two short of the height.
pub const SPAWN_Y: i32 = 18;

/// The piece under the player's and gravity's control.
#[derive(Copy, Clone, Debug, PartialEq, Eq)]
pub struct ActivePiece {
    pub kind: TetrominoKind,
    pub rotation: u8,
    pub x: i32,
    pub y: i32,
    pub color: Color,
}

impl ActivePiece {
    /// The four cells the piece takes, in table order.
    pub open spec fn cells(&self) -> Seq<(int, int)> {
        cells_at(self.kind, self.rotation as int, self.x as int, self.y as int)
    }

    /// The cells the piece takes, as a set.
    pub open spec fn footprint(&self) -> Set<(int, int)> {
        self.cells().to_set()
    }

    /// The grid after the piece is drawn on it: its cells are filled with its colour.
    pub open spec fn placed_on(&self, grid: Grid) -> Grid {
        paint(grid, self.footprint(), Cell::Filled(self.color))
    }

    /// The grid after the piece is erased from it: its cells are empty.
    pub open spec fn cleared_from(&self, grid: Grid) -> Grid {
        paint(grid, self.footprint(), Cell::Empty)
    }

    /// Whether `grid` shows the piece: each of its cells that is on the grid
    /// is filled with the piece's colour.
    pub open spec fn rests_on(&self, grid: Grid) -> bool {
        forall|p: (int, int)| #[trigger]
            self.footprint().contains(p) && grid.dom().contains(p) ==> grid[p] == Cell::Filled(
                self.color,
            )
    }

    /// What every newly spawned piece has in common: it is unturned, anchored
    /// on the spawn row at a column that keeps it on the board, and each
    /// channel of its colour is in the spawn range.
    pub open spec fn is_spawn(&self) -> bool {
        &&& self.rotation == 0
        &&& 0 <= self.x <= BOARD_WIDTH - 4
        &&& self.y == BOARD_HEIGHT - 2
        &&& SPAWN_CHANNEL_MIN <= self.color.r <= SPAWN_CHANNEL_MAX
        &&& SPAWN_CHANNEL_MIN <= self.color.g <= SPAWN_CHANNEL_MAX
        &&& SPAWN_CHANNEL_MIN <= self.color.b <= SPAWN_CHANNEL_MAX
    }

    /// A new piece of `kind` and `color`, unturned, anchored in column `x` of
    /// the spawn row.
    pub fn spawn_at(kind: TetrominoKind, x: i32, color: Color) -> (piece: Self)
        ensures
            piece == (ActivePiece { kind, rotation: 0, x, y: SPAWN_Y, color }),
            piece.y == BOARD_HEIGHT - 2,
    {
        ActivePiece { kind, rotation: 0, x, y: SPAWN_Y, color }
    }

    /// A new piece whose kind, colour and column are drawn at random.
    pub fn spawn_new() -> (piece: Self)
        ensures
            piece.is_spawn(),
    {
        let mut rng = rand::thread_rng();

        let kind = KINDS[gen_range_inclusive(&mut rng, 0, KINDS.len() as i32 - 1) as usize];

        let low: i32 = SPAWN_CHANNEL_MIN as i32;
        let high: i32 = SPAWN_CHANNEL_MAX as i32;
        let color = Color {
            r: gen_range_inclusive(&mut rng, low, high) as u8,
            g: gen_range_inclusive(&mut rng, low, high) as u8,
            b: gen_range_inclusive(&mut rng, low, high) as u8,
        };

        let x: i32 = gen_range_inclusive(&mut rng, 0, SPAWN_X_MAX);

        Self::spawn_at(kind, x, color)
    }
}

/// Writing one more cell of a piece extends what has been painted by that cell.
proof fn lemma_paint_next(grid: Grid, cells: Seq<(int, int)>, i: int, cell: Cell)
    requires
        0 <= i < cells.len(),
    ensures
        put(paint(grid, cells.take(i).to_set(), cell), cells[i], cell) == paint(
            grid,
            cells.take(i + 1).to_set(),
            cell,
        ),
{
    let before = cells.take(i);
    let after = cells.take(i + 1);
    assert forall|p: (int, int)| after.to_set().contains(p) <==> before.to_set().contains(p) || p
        == cells[i] by {
        if before.contains(p) {
            let j = choose|j: int| 0 <= j < before.len() && before[j] == p;
            assert(after[j] == p);
        }
        if p == cells[i] {
            assert(after[i] == p);
        }
    }
}

/// Writes `cell` at `(x, y)`, wherever that is: beyond the coordinates that
/// `Board::set` takes lies nothing to write.
fn set_anywhere(board: &mut Board, x: i64, y: i64, cell: Cell)
    ensures
        final(board)@ == put(old(board)@, (x as int, y as int), cell),
{
    let low: i64 = i32::MIN as i64;
    let high: i64 = i32::MAX as i64;
    if low <= x && x <= high && low <= y && y <= high {
        board.set(x as i32, y as i32, cell);
    }
}

/// Writes `cell` at the four cells of `active`.
fn write_footprint(active: &ActivePiece, board: &mut Board, cell: Cell)
    ensures
        final(board)@ == paint(old(board)@, active.footprint(), cell),
{
    let shape = shape_of(active.kind, active.rotation);
    let ghost cells = active.cells();
    let mut i: usize = 0;
    while i < shape.cells.len()
        invariant
            i <= 4,
            shape.cells@ == shape_offsets(active.kind, active.rotation as int),
            shape.cells@.len() == 4,
            cells == active.cells(),
            board@ == paint(old(board)@, cells.take(i as int).to_set(), cell),
        decreases 4 - i,
    {
        let (dx, dy): (i32, i32) = shape.cells[i];
        proof {
            lemma_paint_next(old(board)@, cells, i as int, cell);
        }
        set_anywhere(board, active.x as i64 + dx as i64, active.y as i64 + dy as i64, cell);
        i += 1;
    }
    assert(cells.take(4) =~= cells);
}

/// Draws `active` on the board: its cells become filled with its colour.
pub fn place_active_on_board(active: &ActivePiece, board: &mut Board)
    ensures
        final(board)@ == active.placed_on(old(board)@),
        active.rests_on(final(board)@),
{
    write_footprint(active, board, Cell::Filled(active.color));
}

/// Erases `active` from the board: its cells become empty.
pub fn clear_active_from_board(active: &ActivePiece, board: &mut Board)
    ensures
        final(board)@ == active.cleared_from(old(board)@),
{
    write_footprint(active, board, Cell::Empty);
}

} // verus!
