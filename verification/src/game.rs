//! The simulation steps: gravity, horizontal moves and rotation of the active
//! piece. Each step erases the piece, tests where it would go, and draws it
//! again, there or where it was.

use crate::board::{
    filled_cells, in_bounds, lemma_filled_cells_finite, occupied, Board, Cell, Grid, BOARD_WIDTH,
};
use crate::tetrominoes::{
    cells_at, clear_active_from_board, lemma_shape_offsets_distinct, lemma_shape_offsets_in_box,
    place_active_on_board, shape_of, shape_offsets, ActivePiece, TetrominoKind,
};
use vstd::prelude::*;

verus! {

/// Time between two gravity ticks, in milliseconds.
pub const FALL_INTERVAL_MILLIS: u64 = 500;

/// Whether a falling piece may come down on `cells`: none lies below the
/// floor and none is taken. The walls and the top are not looked at.
pub open spec fn may_fall_to(grid: Grid, cells: Seq<(int, int)>) -> bool {
    forall|i: int|
        0 <= i < cells.len() ==> (#[trigger] cells[i]).1 >= 0 && !occupied(grid, cells[i])
}

/// Whether a piece may be moved or turned onto `cells`: each lies between the
/// walls and not below the floor, and none is taken.
pub open spec fn may_stand_on(grid: Grid, cells: Seq<(int, int)>) -> bool {
    forall|i: int|
        0 <= i < cells.len() ==> 0 <= (#[trigger] cells[i]).0 < BOARD_WIDTH && cells[i].1 >= 0
            && !occupied(grid, cells[i])
}

impl ActivePiece {
    /// The piece one row down.
    pub open spec fn lowered(&self) -> ActivePiece {
        ActivePiece { y: (self.y - 1) as i32, ..*self }
    }

    /// The piece `dx` columns to the right.
    pub open spec fn shifted(&self, dx: int) -> ActivePiece {
        ActivePiece { x: (self.x + dx) as i32, ..*self }
    }

    /// The piece a quarter turn on.
    pub open spec fn turned(&self) -> ActivePiece {
        ActivePiece { rotation: ((self.rotation + 1) % 4) as u8, ..*self }
    }

    /// Whether gravity can take the piece one row down on `grid`. The piece
    /// is no obstacle to itself: it is erased before the test.
    pub open spec fn can_fall(&self, grid: Grid) -> bool {
        may_fall_to(
            self.cleared_from(grid),
            cells_at(self.kind, self.rotation as int, self.x as int, self.y - 1),
        )
    }

    /// Whether the piece can go `dx` columns to the right on `grid`.
    pub open spec fn can_shift(&self, grid: Grid, dx: int) -> bool {
        may_stand_on(
            self.cleared_from(grid),
            cells_at(self.kind, self.rotation as int, self.x + dx, self.y as int),
        )
    }

    /// Whether the piece can make a quarter turn about its anchor on `grid`.
    pub open spec fn can_turn(&self, grid: Grid) -> bool {
        may_stand_on(
            self.cleared_from(grid),
            cells_at(self.kind, self.rotation + 1, self.x as int, self.y as int),
        )
    }

    /// The piece after a move of `dx` columns was asked for: moved if it
    /// can, as it was if not.
    pub open spec fn after_shift(&self, grid: Grid, dx: int) -> ActivePiece {
        if self.can_shift(grid, dx) {
            self.shifted(dx)
        } else {
            *self
        }
    }

    /// The piece after a quarter turn was asked for: turned if it can, as
    /// it was if not.
    pub open spec fn after_turn(&self, grid: Grid) -> ActivePiece {
        if self.can_turn(grid) {
            self.turned()
        } else {
            *self
        }
    }
}

/// The grid after `from` is erased from it and `to` is drawn on it.
pub open spec fn redrawn(grid: Grid, from: ActivePiece, to: ActivePiece) -> Grid {
    to.placed_on(from.cleared_from(grid))
}

/// The columns a move takes the piece to the right, from the two keys: each
/// key alone moves one column its way, both together cancel.
pub open spec fn shift_of(left: bool, right: bool) -> int {
    (if right { 1int } else { 0int }) - (if left { 1int } else { 0int })
}

/// Whether the cell at `(x, y)` is taken.
fn is_taken(board: &Board, x: i64, y: i64) -> (taken: bool)
    ensures
        taken == occupied(board@, (x as int, y as int)),
{
    let low: i64 = i32::MIN as i64;
    let high: i64 = i32::MAX as i64;
    if low <= x && x <= high && low <= y && y <= high {
        match board.get(x as i32, y as i32) {
            Some(Cell::Filled(_)) => true,
            _ => false,
        }
    } else {
        false
    }
}

/// Tests the cells of a piece of `kind`, turned `rotation` quarter turns and
/// anchored at `(x, y)`: with `walled`, as for a move or a turn; without, as
/// for a fall.
fn is_free(
    board: &Board,
    kind: TetrominoKind,
    rotation: u8,
    x: i64,
    y: i64,
    walled: bool,
) -> (free: bool)
    requires
        i32::MIN - 1 <= x <= i32::MAX + 1,
        i32::MIN - 1 <= y <= i32::MAX + 1,
    ensures
        free == if walled {
            may_stand_on(board@, cells_at(kind, rotation as int, x as int, y as int))
        } else {
            may_fall_to(board@, cells_at(kind, rotation as int, x as int, y as int))
        },
{
    let shape = shape_of(kind, rotation);
    let ghost cells = cells_at(kind, rotation as int, x as int, y as int);
    let mut i: usize = 0;
    while i < shape.cells.len()
        invariant
            i <= 4,
            shape.cells@ == shape_offsets(kind, rotation as int),
            shape.cells@.len() == 4,
            cells == cells_at(kind, rotation as int, x as int, y as int),
            i32::MIN - 1 <= x <= i32::MAX + 1,
            i32::MIN - 1 <= y <= i32::MAX + 1,
            forall|j: int|
                0 <= j < i ==> (#[trigger] cells[j]).1 >= 0 && !occupied(board@, cells[j]) && (
                walled ==> 0 <= cells[j].0 < BOARD_WIDTH),
        decreases 4 - i,
    {
        let (dx, dy): (i32, i32) = shape.cells[i];
        let new_x: i64 = x + dx as i64;
        let new_y: i64 = y + dy as i64;
        assert(cells[i as int] == (new_x as int, new_y as int));
        if walled && (new_x < 0 || new_x >= BOARD_WIDTH as i64) {
            return false;
        }
        if new_y < 0 {
            return false;
        }
        if is_taken(board, new_x, new_y) {
            return false;
        }
        i += 1;
    }
    true
}

/// One gravity tick. Nothing happens unless the fall timer has just finished.
/// Then the piece goes one row down if it can; if it cannot, it stays drawn
/// where it is, for good, and a new piece is spawned and drawn in its place.
/// The new piece is drawn over whatever the board holds there: that it may
/// spawn onto filled cells is not detected, and the game never ends.
pub fn fall_piece_system(timer_finished: bool, board: &mut Board, active: &mut ActivePiece)
    ensures
        !timer_finished ==> *final(active) == *old(active) && final(board)@ == old(board)@,
        timer_finished && old(active).can_fall(old(board)@) ==> {
            &&& *final(active) == old(active).lowered()
            &&& final(active).y == old(active).y - 1
            &&& final(board)@ == redrawn(old(board)@, *old(active), *final(active))
        },
        timer_finished && !old(active).can_fall(old(board)@) ==> {
            &&& final(active).is_spawn()
            &&& final(board)@ == final(active).placed_on(
                redrawn(old(board)@, *old(active), *old(active)),
            )
        },
        timer_finished ==> final(active).rests_on(final(board)@),
{
    if !timer_finished {
        return;
    }
    clear_active_from_board(active, board);

    let can_move_down = is_free(
        board,
        active.kind,
        active.rotation,
        active.x as i64,
        active.y as i64 - 1,
        false,
    );

    if can_move_down {
        proof {
            let rotation = active.rotation as int;
            let below = cells_at(active.kind, rotation, active.x as int, active.y - 1);
            lemma_shape_offsets_in_box(active.kind, rotation, 0);
            assert(below[0].1 >= 0);
        }
        active.y -= 1;
        place_active_on_board(active, board);
    } else {
        place_active_on_board(active, board);

        *active = ActivePiece::spawn_new();
        place_active_on_board(active, board);
    }
}

/// Spawns the first piece and draws it. The caller keeps it as the active piece.
pub fn spawn_first_piece(board: &mut Board) -> (active: ActivePiece)
    ensures
        active.is_spawn(),
        final(board)@ == active.placed_on(old(board)@),
        active.rests_on(final(board)@),
{
    let active = ActivePiece::spawn_new();
    place_active_on_board(&active, board);
    active
}

/// A horizontal move, from the two keys as pressed in this frame. With
/// neither or both nothing happens. With one, the piece goes one column that
/// way if it can; either way it is drawn again.
pub fn move_piece_horizontal_system(
    left_pressed: bool,
    right_pressed: bool,
    board: &mut Board,
    active: &mut ActivePiece,
)
    ensures
        shift_of(left_pressed, right_pressed) == 0 ==> {
            &&& *final(active) == *old(active)
            &&& final(board)@ == old(board)@
        },
        shift_of(left_pressed, right_pressed) != 0 ==> {
            let dx = shift_of(left_pressed, right_pressed);
            &&& *final(active) == old(active).after_shift(old(board)@, dx)
            &&& old(active).can_shift(old(board)@, dx) ==> final(active).x == old(active).x + dx
            &&& final(board)@ == redrawn(old(board)@, *old(active), *final(active))
            &&& final(active).rests_on(final(board)@)
        },
{
    let mut dx: i32 = 0;
    if left_pressed {
        dx -= 1;
    }
    if right_pressed {
        dx += 1;
    }
    if dx == 0 {
        return;
    }
    clear_active_from_board(active, board);

    let can_move = is_free(
        board,
        active.kind,
        active.rotation,
        active.x as i64 + dx as i64,
        active.y as i64,
        true,
    );

    if can_move {
        proof {
            let rotation = active.rotation as int;
            let beside = cells_at(active.kind, rotation, active.x + dx, active.y as int);
            lemma_shape_offsets_in_box(active.kind, rotation, 0);
            assert(0 <= beside[0].0 < BOARD_WIDTH);
        }
        active.x += dx;
    }
    place_active_on_board(active, board);
}

/// A quarter turn, if the key was pressed in this frame. The piece turns
/// about its anchor if it can; either way it is drawn again.
pub fn rotate_piece_system(rotate_pressed: bool, board: &mut Board, active: &mut ActivePiece)
    ensures
        !rotate_pressed ==> *final(active) == *old(active) && final(board)@ == old(board)@,
        old(active).rotation < 4 ==> final(active).rotation < 4,
        rotate_pressed ==> {
            &&& *final(active) == old(active).after_turn(old(board)@)
            &&& final(board)@ == redrawn(old(board)@, *old(active), *final(active))
            &&& final(active).rests_on(final(board)@)
        },
{
    if !rotate_pressed {
        return;
    }
    clear_active_from_board(active, board);

    let next_rotation: u8 = (active.rotation % 4 + 1) % 4;
    let can_rotate = is_free(
        board,
        active.kind,
        next_rotation,
        active.x as i64,
        active.y as i64,
        true,
    );

    if can_rotate {
        active.rotation = next_rotation;
    }
    place_active_on_board(active, board);
}

/// What a step leaves on the board: where the piece now is, its colour;
/// where it was and no longer is, nothing; everywhere else, what was there.
pub proof fn lemma_redrawn_cells(board: Board, from: ActivePiece, to: ActivePiece)
    ensures
        redrawn(board@, from, to).dom() == board@.dom(),
        forall|p: (int, int)|
            in_bounds(p.0, p.1) ==> #[trigger] redrawn(board@, from, to)[p] == (
            if to.footprint().contains(p) {
                Cell::Filled(to.color)
            } else if from.footprint().contains(p) {
                Cell::Empty
            } else {
                board@[p]
            }),
{
}

/// A piece that can fall is redrawn one row down: its anchor is one row
/// lower, every cell of its new footprint is filled with its colour, every
/// cell of its old footprint that the new one does not share is empty, and
/// the rest of the board is as it was.
pub proof fn lemma_fall_redraws_one_row_down(board: Board, piece: ActivePiece)
    requires
        piece.can_fall(board@),
    ensures
        piece.lowered().y == piece.y - 1,
        piece.lowered().cells() == cells_at(
            piece.kind,
            piece.rotation as int,
            piece.x as int,
            piece.y - 1,
        ),
        ({
            let after = redrawn(board@, piece, piece.lowered());
            forall|p: (int, int)|
                in_bounds(p.0, p.1) ==> #[trigger] after[p] == (
                if piece.lowered().footprint().contains(p) {
                    Cell::Filled(piece.color)
                } else if piece.footprint().contains(p) {
                    Cell::Empty
                } else {
                    board@[p]
                })
        }),
{
    let below = cells_at(piece.kind, piece.rotation as int, piece.x as int, piece.y - 1);
    lemma_shape_offsets_in_box(piece.kind, piece.rotation as int, 0);
    assert(below[0].1 >= 0);
    lemma_redrawn_cells(board, piece, piece.lowered());
}

/// A piece that has come to rest stays on the board when the next one is
/// drawn: each of its cells on the board is still filled, and the board
/// shows the newcomer.
pub proof fn lemma_lock_keeps_cells_filled(board: Board, piece: ActivePiece, next: ActivePiece)
    ensures
        ({
            let after = next.placed_on(redrawn(board@, piece, piece));
            &&& forall|p: (int, int)|
                piece.footprint().contains(p) && in_bounds(p.0, p.1)
                    ==> #[trigger] after[p] is Filled
            &&& next.rests_on(after)
        }),
{
}

/// The four cells of a piece are four different positions.
pub proof fn lemma_footprint_has_four_cells(piece: ActivePiece)
    ensures
        piece.footprint().finite(),
        piece.footprint().len() == 4,
{
    let cells = piece.cells();
    assert forall|i: int, j: int| 0 <= i < j < 4 implies cells[i] != cells[j] by {
        lemma_shape_offsets_distinct(piece.kind, piece.rotation as int, i, j);
    }
    cells.unique_seq_to_set();
}

/// A newly spawned piece lies on the board with all four cells.
pub proof fn lemma_spawn_is_on_board(piece: ActivePiece)
    requires
        piece.is_spawn(),
    ensures
        forall|p: (int, int)| piece.footprint().contains(p) ==> in_bounds(p.0, p.1),
{
    assert forall|p: (int, int)| piece.footprint().contains(p) implies in_bounds(p.0, p.1) by {
        let i = choose|i: int| 0 <= i < piece.cells().len() && piece.cells()[i] == p;
        lemma_shape_offsets_in_box(piece.kind, 0, i);
    }
}

/// When a piece that the board shows comes to rest and the next one spawns
/// on empty cells, the board shows both and has exactly four more filled
/// cells than before.
pub proof fn lemma_lock_adds_four_cells(board: Board, piece: ActivePiece, next: ActivePiece)
    requires
        piece.rests_on(board@),
        next.is_spawn(),
        forall|p: (int, int)| next.footprint().contains(p) ==> !occupied(board@, p),
    ensures
        ({
            let after = next.placed_on(redrawn(board@, piece, piece));
            &&& piece.rests_on(after)
            &&& next.rests_on(after)
            &&& filled_cells(after).len() == filled_cells(board@).len() + 4
        }),
{
    let after = next.placed_on(redrawn(board@, piece, piece));
    lemma_spawn_is_on_board(next);
    lemma_footprint_has_four_cells(next);
    lemma_filled_cells_finite(board);
    assert(filled_cells(after) =~= filled_cells(board@) + next.footprint());
    vstd::set_lib::lemma_set_disjoint_lens(filled_cells(board@), next.footprint());
}

/// A piece that the board shows is drawn back exactly as it was when it is
/// erased and placed again: a refused move or turn leaves the board unchanged.
pub proof fn lemma_redraw_in_place(board: Board, piece: ActivePiece)
    requires
        piece.rests_on(board@),
    ensures
        redrawn(board@, piece, piece) == board@,
{
}

/// A move that would take a cell of the piece beyond a wall is refused: the
/// piece stays as it is and is drawn where it was, which leaves a board that
/// showed it unchanged.
pub proof fn lemma_shift_refused_at_wall(
    board: Board,
    piece: ActivePiece,
    dx: int,
    p: (int, int),
)
    requires
        piece.footprint().contains(p),
        !(0 <= p.0 + dx < BOARD_WIDTH),
    ensures
        piece.after_shift(board@, dx) == piece,
        piece.rests_on(redrawn(board@, piece, piece)),
        piece.rests_on(board@) ==> redrawn(board@, piece, piece) == board@,
{
    let i = choose|i: int| 0 <= i < piece.cells().len() && piece.cells()[i] == p;
    let beside = cells_at(piece.kind, piece.rotation as int, piece.x + dx, piece.y as int);
    assert(beside[i].0 == p.0 + dx);
}

/// A turn that would take a cell of the piece below the floor is refused:
/// the piece stays as it is and is drawn where it was, which leaves a board
/// that showed it unchanged.
pub proof fn lemma_turn_refused_below_floor(board: Board, piece: ActivePiece, p: (int, int))
    requires
        piece.turned().footprint().contains(p),
        p.1 < 0,
    ensures
        piece.after_turn(board@) == piece,
        piece.rests_on(redrawn(board@, piece, piece)),
        piece.rests_on(board@) ==> redrawn(board@, piece, piece) == board@,
{
    let i = choose|i: int| 0 <= i < piece.turned().cells().len() && piece.turned().cells()[i] == p;
    let turned = cells_at(piece.kind, piece.rotation + 1, piece.x as int, piece.y as int);
    assert(turned[i] == p);
}

} // verus!
