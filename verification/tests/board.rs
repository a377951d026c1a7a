use rustris::board::{Board, BoardError, CellState, BOARD_HEIGHT, BOARD_WIDTH};
use rustris::piece::{get_color, GamePiece, Orientation, Position, Tetromino};

const GREY: CellState = CellState::Occupied { r: 9, g: 9, b: 9 };

fn piece(kind: Tetromino, orientation: Orientation, x: i8, y: i8) -> GamePiece {
    GamePiece { piece_type: kind, orientation, position: Position { x, y } }
}

fn block(kind: Tetromino) -> CellState {
    let (r, g, b) = get_color(kind);
    CellState::Occupied { r, g, b }
}

fn fill_row(board: &mut Board, y: usize) {
    for x in 0..10 {
        board.cells[y][x] = GREY;
    }
}

fn count_occupied(board: &Board) -> usize {
    board.cells.iter().flatten().filter(|c| **c != CellState::Empty).count()
}

#[test]
fn board_measures() {
    assert_eq!(BOARD_WIDTH, 10);
    assert_eq!(BOARD_HEIGHT, 20);
    let board = Board::new();
    assert_eq!(board.cells.len(), 20);
    assert_eq!(board.cells[0].len(), 10);
}

#[test]
fn new_board_is_empty() {
    let board = Board::new();
    for y in 0..20 {
        for x in 0..10 {
            assert_eq!(board.cells[y][x], CellState::Empty);
        }
    }
    assert_eq!(board.occupied_positions(), vec![]);
}

#[test]
fn board_clone_is_equal_and_independent() {
    let mut board = Board::new();
    board.cells[3][2] = GREY;
    let copy = board.clone();
    assert_eq!(copy, board);
    board.cells[0][0] = GREY;
    assert_ne!(copy, board);
    assert_eq!(copy.cells[0][0], CellState::Empty);
}

#[test]
fn cell_query_inside_the_board() {
    let mut board = Board::new();
    board.cells[7][3] = GREY;
    assert_eq!(board.is_cell_empty(Position { x: 3, y: 7 }), Ok(false));
    assert_eq!(board.is_cell_empty(Position { x: 7, y: 3 }), Ok(true));
    assert_eq!(board.is_cell_empty(Position { x: 0, y: 0 }), Ok(true));
    assert_eq!(board.is_cell_empty(Position { x: 9, y: 19 }), Ok(true));
}

#[test]
fn cell_query_outside_the_board_is_an_error() {
    let board = Board::new();
    assert_eq!(board.is_cell_empty(Position { x: -1, y: 0 }), Err(BoardError::OutOfRange));
    assert_eq!(board.is_cell_empty(Position { x: 10, y: 0 }), Err(BoardError::OutOfRange));
    assert_eq!(board.is_cell_empty(Position { x: 0, y: -1 }), Err(BoardError::OutOfRange));
    assert_eq!(board.is_cell_empty(Position { x: 0, y: 20 }), Err(BoardError::OutOfRange));
    assert_eq!(board.is_cell_empty(Position { x: i8::MIN, y: i8::MAX }), Err(BoardError::OutOfRange));
}

#[test]
fn piece_inside_an_empty_board_is_legal() {
    let board = Board::new();
    assert!(board.is_legal(&piece(Tetromino::T, Orientation::Up, 4, 10)));
    assert!(board.is_legal(&piece(Tetromino::O, Orientation::Up, 0, 1)));
    assert!(board.is_legal(&piece(Tetromino::O, Orientation::Up, 8, 19)));
    assert!(board.is_legal(&piece(Tetromino::I, Orientation::Right, -1, 1)));
    assert!(board.is_legal(&piece(Tetromino::I, Orientation::Left, 0, 1)));
    assert!(board.is_legal(&piece(Tetromino::I, Orientation::Left, 9, 17)));
}

#[test]
fn piece_with_a_cell_off_the_board_is_illegal() {
    let board = Board::new();
    // a cell at x = -1
    assert!(!board.is_legal(&piece(Tetromino::T, Orientation::Up, 0, 10)));
    // a cell at x = 10
    assert!(!board.is_legal(&piece(Tetromino::O, Orientation::Up, 9, 10)));
    // a cell at y = -1
    assert!(!board.is_legal(&piece(Tetromino::T, Orientation::Down, 4, 0)));
    assert!(!board.is_legal(&piece(Tetromino::O, Orientation::Up, 4, 0)));
    // a cell at y = 20
    assert!(!board.is_legal(&piece(Tetromino::T, Orientation::Up, 4, 19)));
    // far away, and at the ends of the machine range
    assert!(!board.is_legal(&piece(Tetromino::O, Orientation::Up, 50, 50)));
    assert!(!board.is_legal(&piece(Tetromino::I, Orientation::Up, i8::MAX, i8::MAX)));
    assert!(!board.is_legal(&piece(Tetromino::I, Orientation::Up, i8::MIN, i8::MIN)));
    assert!(!board.is_legal(&piece(Tetromino::I, Orientation::Up, 126, 5)));
}

#[test]
fn piece_on_an_occupied_cell_is_illegal() {
    let mut board = Board::new();
    board.cells[11][4] = GREY;
    assert!(!board.is_legal(&piece(Tetromino::T, Orientation::Up, 4, 10)));
    assert!(board.is_legal(&piece(Tetromino::T, Orientation::Down, 4, 10)));
}

#[test]
fn lock_writes_the_four_cells_in_the_colour_of_the_piece() {
    for kind in [
        Tetromino::O,
        Tetromino::T,
        Tetromino::J,
        Tetromino::L,
        Tetromino::I,
        Tetromino::S,
        Tetromino::Z,
    ] {
        let mut board = Board::new();
        let p = piece(kind, Orientation::Up, 4, 10);
        assert!(board.is_legal(&p));
        board.lock(&p);
        assert_eq!(count_occupied(&board), 4);
        for b in rustris::piece::get_blocks(&p) {
            assert_eq!(board.cells[b.y as usize][b.x as usize], block(kind));
        }
    }
}

#[test]
fn lock_then_occupied_positions_gives_the_cells_of_the_piece() {
    let mut board = Board::new();
    let p = piece(Tetromino::T, Orientation::Up, 4, 10);
    board.lock(&p);
    assert_eq!(
        board.occupied_positions(),
        vec![
            Position { x: 4, y: 11 },
            Position { x: 3, y: 10 },
            Position { x: 4, y: 10 },
            Position { x: 5, y: 10 },
        ]
    );
    assert_eq!(board.cells[11][4], CellState::Occupied { r: 128, g: 0, b: 128 });
    assert_eq!(board.cells[10][3], CellState::Occupied { r: 128, g: 0, b: 128 });
    assert_eq!(board.cells[10][4], CellState::Occupied { r: 128, g: 0, b: 128 });
    assert_eq!(board.cells[10][5], CellState::Occupied { r: 128, g: 0, b: 128 });
}

#[test]
fn lock_leaves_other_cells_alone() {
    let mut board = Board::new();
    board.cells[0][0] = GREY;
    board.cells[19][9] = GREY;
    board.lock(&piece(Tetromino::O, Orientation::Up, 4, 4));
    assert_eq!(board.cells[0][0], GREY);
    assert_eq!(board.cells[19][9], GREY);
    assert_eq!(count_occupied(&board), 6);
}

#[test]
fn occupied_positions_go_from_the_top_down_and_from_the_left() {
    let mut board = Board::new();
    board.cells[0][9] = GREY;
    board.cells[0][0] = GREY;
    board.cells[19][5] = GREY;
    board.cells[7][2] = GREY;
    board.cells[7][1] = GREY;
    assert_eq!(
        board.occupied_positions(),
        vec![
            Position { x: 5, y: 19 },
            Position { x: 1, y: 7 },
            Position { x: 2, y: 7 },
            Position { x: 0, y: 0 },
            Position { x: 9, y: 0 },
        ]
    );
}

#[test]
fn occupied_positions_are_a_snapshot() {
    let mut board = Board::new();
    board.cells[2][2] = GREY;
    let before = board.occupied_positions();
    board.cells[3][3] = GREY;
    assert_eq!(before, vec![Position { x: 2, y: 2 }]);
    assert_eq!(board.occupied_positions().len(), 2);
}

#[test]
fn row_is_full_only_with_ten_blocks() {
    let mut board = Board::new();
    assert!(!board.row_is_full(5));
    fill_row(&mut board, 5);
    assert!(board.row_is_full(5));
    assert!(!board.row_is_full(4));
    board.cells[5][9] = CellState::Empty;
    assert!(!board.row_is_full(5));
}

#[test]
fn full_rows_are_counted() {
    let mut board = Board::new();
    assert_eq!(board.count_full_rows(), 0);
    fill_row(&mut board, 0);
    fill_row(&mut board, 7);
    fill_row(&mut board, 19);
    fill_row(&mut board, 3);
    board.cells[3][0] = CellState::Empty;
    let before = board.clone();
    assert_eq!(board.count_full_rows(), 3);
    assert_eq!(board, before);
    for y in 0..20 {
        fill_row(&mut board, y);
    }
    assert_eq!(board.count_full_rows(), 20);
}

#[test]
fn clear_line_moves_the_rows_above_down() {
    let mut board = Board::new();
    board.cells[4][1] = GREY;
    fill_row(&mut board, 5);
    board.cells[6][2] = GREY;
    board.cells[19][3] = GREY;
    board.clear_line(5);
    let mut expected = Board::new();
    expected.cells[4][1] = GREY;
    expected.cells[5][2] = GREY;
    expected.cells[18][3] = GREY;
    assert_eq!(board, expected);
}

#[test]
fn clear_line_at_the_top_and_at_the_bottom() {
    let mut board = Board::new();
    board.cells[19][0] = GREY;
    board.cells[0][0] = GREY;
    board.cells[1][1] = GREY;
    board.clear_line(19);
    assert_eq!(board.cells[19][0], CellState::Empty);
    assert_eq!(board.cells[0][0], GREY);
    board.clear_line(0);
    assert_eq!(board.cells[0][0], CellState::Empty);
    assert_eq!(board.cells[0][1], GREY);
    assert_eq!(count_occupied(&board), 1);
}

#[test]
fn clearing_a_full_row_five() {
    let mut board = Board::new();
    fill_row(&mut board, 5);
    board.cells[4][0] = GREY;
    board.cells[6][7] = GREY;
    board.cells[7][8] = GREY;
    board.cells[19][9] = GREY;
    assert_eq!(board.clear_full_rows(), 1);
    let mut expected = Board::new();
    expected.cells[4][0] = GREY;
    expected.cells[5][7] = GREY;
    expected.cells[6][8] = GREY;
    expected.cells[18][9] = GREY;
    assert_eq!(board, expected);
    for x in 0..10 {
        assert_eq!(board.cells[19][x], CellState::Empty);
    }
}

#[test]
fn clearing_only_row_five_leaves_an_empty_board() {
    let mut board = Board::new();
    fill_row(&mut board, 5);
    assert_eq!(board.clear_full_rows(), 1);
    assert_eq!(board, Board::new());
}

#[test]
fn clearing_nothing_changes_nothing() {
    let mut board = Board::new();
    assert_eq!(board.clear_full_rows(), 0);
    assert_eq!(board, Board::new());
    fill_row(&mut board, 3);
    board.cells[3][4] = CellState::Empty;
    let before = board.clone();
    assert_eq!(board.clear_full_rows(), 0);
    assert_eq!(board, before);
}

#[test]
fn clearing_rows_that_lie_on_each_other() {
    let mut board = Board::new();
    fill_row(&mut board, 0);
    fill_row(&mut board, 1);
    fill_row(&mut board, 2);
    board.cells[3][6] = GREY;
    assert_eq!(board.clear_full_rows(), 3);
    let mut expected = Board::new();
    expected.cells[0][6] = GREY;
    assert_eq!(board, expected);
}

#[test]
fn clearing_rows_that_lie_apart() {
    let mut board = Board::new();
    fill_row(&mut board, 0);
    board.cells[1][1] = GREY;
    fill_row(&mut board, 2);
    board.cells[3][3] = GREY;
    fill_row(&mut board, 19);
    assert_eq!(board.clear_full_rows(), 3);
    let mut expected = Board::new();
    expected.cells[0][1] = GREY;
    expected.cells[1][3] = GREY;
    assert_eq!(board, expected);
}

#[test]
fn clearing_a_board_that_is_all_full() {
    let mut board = Board::new();
    for y in 0..20 {
        fill_row(&mut board, y);
    }
    assert_eq!(board.clear_full_rows(), 20);
    assert_eq!(board, Board::new());
}
