use std::collections::HashSet;
use tetris::board::{Board, Cell, Color};
use tetris::tetrominoes::{
    clear_active_from_board, place_active_on_board, ActivePiece, TetrominoKind,
    SPAWN_CHANNEL_MAX, SPAWN_CHANNEL_MIN, SPAWN_X_MAX, SPAWN_Y,
};

const GREEN: Color = Color { r: 60, g: 200, b: 60 };
const GREY: Color = Color { r: 90, g: 90, b: 90 };

fn filled(board: &Board) -> Vec<(i32, i32)> {
    let mut cells = Vec::new();
    for y in 0..20 {
        for x in 0..10 {
            if let Some(Cell::Filled(_)) = board.get(x, y) {
                cells.push((x, y));
            }
        }
    }
    cells
}

#[test]
fn test_spawn_randomness() {
    let mut kinds = HashSet::new();
    for _ in 0..100 {
        let piece = ActivePiece::spawn_new();
        kinds.insert(piece.kind);
    }

    assert!(kinds.len() > 1, "Only spawned {:?} kinds: {:?}", kinds.len(), kinds);

    assert!(kinds.len() >= 4, "Distribution seems poor, only spawned: {:?}", kinds);
}

#[test]
fn spawn_constants() {
    assert_eq!(SPAWN_X_MAX, 6);
    assert_eq!(SPAWN_Y, 18);
    assert_eq!(SPAWN_CHANNEL_MIN, 51);
    assert_eq!(SPAWN_CHANNEL_MAX, 254);
}

#[test]
fn every_spawn_is_unturned_on_the_spawn_row_and_on_the_board() {
    for _ in 0..500 {
        let piece = ActivePiece::spawn_new();
        assert_eq!(piece.rotation, 0);
        assert_eq!(piece.y, 18);
        assert!((0..=6).contains(&piece.x));
        for channel in [piece.color.r, piece.color.g, piece.color.b] {
            assert!((51..=254).contains(&channel));
        }
    }
}

#[test]
fn spawns_vary_in_column_and_colour() {
    let mut columns = HashSet::new();
    let mut colours = HashSet::new();
    for _ in 0..200 {
        let piece = ActivePiece::spawn_new();
        columns.insert(piece.x);
        colours.insert((piece.color.r, piece.color.g, piece.color.b));
    }
    assert!(columns.len() > 1);
    assert!(colours.len() > 1);
}

#[test]
fn spawn_at_builds_the_piece_asked_for() {
    let piece = ActivePiece::spawn_at(TetrominoKind::Z, 4, GREEN);
    assert_eq!(
        piece,
        ActivePiece { kind: TetrominoKind::Z, rotation: 0, x: 4, y: 18, color: GREEN }
    );
}

#[test]
fn place_fills_the_four_cells_with_the_colour() {
    let mut board = Board::default();
    let piece = ActivePiece { kind: TetrominoKind::T, rotation: 0, x: 2, y: 5, color: GREEN };
    place_active_on_board(&piece, &mut board);
    assert_eq!(filled(&board), vec![(2, 5), (3, 5), (4, 5), (3, 6)]);
    for (x, y) in filled(&board) {
        assert_eq!(board.get(x, y), Some(Cell::Filled(GREEN)));
    }
}

#[test]
fn place_overwrites_what_was_there() {
    let mut board = Board::default();
    board.set(3, 5, Cell::Filled(GREY));
    board.set(0, 0, Cell::Filled(GREY));
    let piece = ActivePiece { kind: TetrominoKind::T, rotation: 0, x: 2, y: 5, color: GREEN };
    place_active_on_board(&piece, &mut board);
    assert_eq!(board.get(3, 5), Some(Cell::Filled(GREEN)));
    assert_eq!(board.get(0, 0), Some(Cell::Filled(GREY)));
}

#[test]
fn clear_empties_the_four_cells_and_no_other() {
    let mut board = Board::default();
    board.set(0, 0, Cell::Filled(GREY));
    let piece = ActivePiece { kind: TetrominoKind::L, rotation: 3, x: 4, y: 9, color: GREEN };
    place_active_on_board(&piece, &mut board);
    assert_eq!(filled(&board), vec![(0, 0), (4, 8), (5, 8), (5, 9), (5, 10)]);
    clear_active_from_board(&piece, &mut board);
    assert_eq!(filled(&board), vec![(0, 0)]);
}

#[test]
fn place_passes_over_cells_off_the_board() {
    let mut board = Board::default();
    let piece = ActivePiece { kind: TetrominoKind::I, rotation: 0, x: 8, y: 19, color: GREEN };
    place_active_on_board(&piece, &mut board);
    assert_eq!(filled(&board), vec![(8, 19), (9, 19)]);

    let mut board = Board::default();
    let piece = ActivePiece { kind: TetrominoKind::I, rotation: 1, x: 0, y: 0, color: GREEN };
    place_active_on_board(&piece, &mut board);
    assert_eq!(filled(&board), vec![(1, 0), (1, 1), (1, 2)]);
}

#[test]
fn place_and_clear_far_from_the_board_change_nothing() {
    let mut board = Board::default();
    board.set(5, 5, Cell::Filled(GREY));
    let before = board.clone();
    for (x, y) in [
        (i32::MAX, i32::MAX),
        (i32::MIN, i32::MIN),
        (i32::MAX, 0),
        (0, i32::MIN),
        (-4, 5),
        (5, 21),
    ] {
        let piece = ActivePiece { kind: TetrominoKind::J, rotation: 1, x, y, color: GREEN };
        place_active_on_board(&piece, &mut board);
        assert_eq!(board, before);
        clear_active_from_board(&piece, &mut board);
        assert_eq!(board, before);
    }
}

#[test]
fn place_counts_the_rotation_modulo_four() {
    let mut turned_once = Board::default();
    let mut turned_five_times = Board::default();
    let a = ActivePiece { kind: TetrominoKind::S, rotation: 1, x: 3, y: 3, color: GREEN };
    let b = ActivePiece { kind: TetrominoKind::S, rotation: 5, x: 3, y: 3, color: GREEN };
    place_active_on_board(&a, &mut turned_once);
    place_active_on_board(&b, &mut turned_five_times);
    assert_eq!(turned_once, turned_five_times);
    assert_eq!(filled(&turned_once), vec![(4, 2), (4, 3), (5, 3), (5, 4)]);
}

#[test]
fn kinds_are_in_catalogue_order() {
    assert_eq!(
        tetris::tetrominoes::KINDS,
        [
            TetrominoKind::I,
            TetrominoKind::O,
            TetrominoKind::T,
            TetrominoKind::S,
            TetrominoKind::Z,
            TetrominoKind::J,
            TetrominoKind::L,
        ]
    );
}
