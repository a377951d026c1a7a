//! The board: a grid of ten columns and twenty rows, row 0 at the bottom, with
//! the test for a legal piece, the lock and the collapse of full rows.

use crate::piece::{
    color_of, coords_of, get_blocks, get_color, lemma_cells_near_anchor, Coord, GamePiece,
    Position,
};
use vstd::prelude::*;

verus! {

/// The number of columns.
pub const BOARD_WIDTH: usize = 10;

/// The number of rows.
pub const BOARD_HEIGHT: usize = 20;

/// What a cell of the board holds: nothing, or a block of a locked piece in
/// that piece's colour.
#[derive(Debug, Clone, Copy, PartialEq, Eq, Structural)]
pub enum CellState {
    Empty,
    Occupied { r: u8, g: u8, b: u8 },
}

/// Why the board could not answer.
#[derive(Debug, Clone, Copy, PartialEq, Eq, Structural)]
pub enum BoardError {
    /// The position asked for is not a cell of the board.
    OutOfRange,
}

/// The board. `cells[y][x]` is the cell in column `x` of row `y`.
#[derive(Debug, PartialEq, Eq)]
pub struct Board {
    pub cells: [[CellState; 10]; 20],
}

/// The model of a board: its rows from the bottom one up, each a sequence of
/// cells from the left.
pub type Grid = Seq<Seq<CellState>>;

impl View for Board {
    type V = Grid;

    open spec fn view(&self) -> Grid {
        Seq::new(BOARD_HEIGHT as nat, |y: int| self.cells[y]@)
    }
}

/// Whether a cell lies on the board.
pub open spec fn in_grid(cell: Coord) -> bool {
    0 <= cell.x < BOARD_WIDTH && 0 <= cell.y < BOARD_HEIGHT
}

/// Whether a grid has the board's measures.
pub open spec fn well_formed(grid: Grid) -> bool {
    &&& grid.len() == BOARD_HEIGHT
    &&& forall|y: int| 0 <= y < BOARD_HEIGHT ==> (#[trigger] grid[y]).len() == BOARD_WIDTH
}

/// What a grid holds at a cell.
pub open spec fn grid_at(grid: Grid, cell: Coord) -> CellState {
    grid[cell.y][cell.x]
}

/// A row with nothing in it.
pub open spec fn empty_row() -> Seq<CellState> {
    Seq::new(BOARD_WIDTH as nat, |x: int| CellState::Empty)
}

/// The grid of a new board.
pub open spec fn empty_grid() -> Grid {
    Seq::new(BOARD_HEIGHT as nat, |y: int| empty_row())
}

/// A piece is legal on a grid when each of its four cells lies on the board
/// and is empty there.
pub open spec fn legal(grid: Grid, piece: GamePiece) -> bool {
    forall|i: int|
        0 <= i < 4 ==> in_grid(#[trigger] piece.cells()[i]) && grid_at(grid, piece.cells()[i])
            is Empty
}

/// A piece is clear of the stack when none of its cells that lie on the board
/// is occupied there. Cells beside or above the board do not count.
pub open spec fn clear_of_stack(grid: Grid, piece: GamePiece) -> bool {
    forall|i: int|
        0 <= i < 4 && in_grid(#[trigger] piece.cells()[i]) ==> grid_at(grid, piece.cells()[i])
            is Empty
}

/// A row is full when every cell of it is occupied.
pub open spec fn row_full(row: Seq<CellState>) -> bool {
    forall|x: int| 0 <= x < row.len() ==> (#[trigger] row[x]) is Occupied
}

/// Whether no row of a grid is full, as on every board between two locks.
pub open spec fn no_full_row(grid: Grid) -> bool {
    forall|y: int| 0 <= y < grid.len() ==> !row_full(#[trigger] grid[y])
}

/// The test that a row passes when it stays on the board: it is not full.
pub open spec fn row_stays() -> spec_fn(Seq<CellState>) -> bool {
    |row: Seq<CellState>| !row_full(row)
}

/// The rows of a grid that are not full, in their order from the bottom up.
pub open spec fn surviving_rows(grid: Grid) -> Grid {
    grid.filter(row_stays())
}

/// The number of full rows of a grid.
pub open spec fn full_row_count(grid: Grid) -> int {
    grid.len() - surviving_rows(grid).len()
}

/// So many empty rows.
pub open spec fn empty_rows(count: int) -> Grid {
    Seq::new(count as nat, |y: int| empty_row())
}

/// The grid after its full rows have gone: the rows that are not full, closed
/// up from the bottom in their old order, and above them an empty row for
/// each row that went.
pub open spec fn collapsed(grid: Grid) -> Grid {
    surviving_rows(grid) + empty_rows(full_row_count(grid))
}

/// The number of rows of the grid before the collapse that the scan has dealt
/// with, once it looks at row `y` and has taken `cleared` rows out.
spec fn rows_scanned(y: int, cleared: int) -> int {
    if y + cleared < BOARD_HEIGHT {
        y + cleared
    } else {
        BOARD_HEIGHT as int
    }
}

/// What holds of the grid in the middle of a collapse: the rows already
/// scanned that stay are in place at the bottom, then come the rows not yet
/// scanned, then an empty row for each row taken out.
spec fn collapsing(before: Grid, now: Grid, y: int, cleared: int) -> bool {
    let scanned = rows_scanned(y, cleared);
    let kept = surviving_rows(before.take(scanned));
    &&& 0 <= y <= BOARD_HEIGHT
    &&& 0 <= cleared
    &&& now =~= kept + before.skip(scanned) + empty_rows(cleared)
    &&& kept.len() <= y
    &&& y + cleared <= BOARD_HEIGHT ==> kept.len() == y
}

/// The cells of the board in the order of a scan: the top row first, and
/// each row from the left.
pub open spec fn scan_order() -> Seq<Coord> {
    Seq::new(
        (BOARD_WIDTH * BOARD_HEIGHT) as nat,
        |k: int|
            Coord { x: k % (BOARD_WIDTH as int), y: BOARD_HEIGHT - 1 - k / (BOARD_WIDTH as int) },
    )
}

/// The test that a cell passes when the grid holds a block there.
pub open spec fn holds_block(grid: Grid) -> spec_fn(Coord) -> bool {
    |cell: Coord| grid_at(grid, cell) is Occupied
}

/// The occupied cells of a grid, in the order of a scan.
pub open spec fn occupied_cells(grid: Grid) -> Seq<Coord> {
    scan_order().filter(holds_block(grid))
}

/// Whether one of the first `n` cells of a piece is the given cell.
spec fn covered_by_first(piece: GamePiece, n: int, cell: Coord) -> bool {
    exists|j: int| 0 <= j < n && piece.cells()[j] == cell
}

/// The block that a piece leaves in each of its cells when it locks.
pub open spec fn block_of(piece: GamePiece) -> CellState {
    CellState::Occupied {
        r: color_of(piece.piece_type).0,
        g: color_of(piece.piece_type).1,
        b: color_of(piece.piece_type).2,
    }
}

/// The grid after a piece has locked: its four cells hold its block, every
/// other cell is as before.
pub open spec fn locked(grid: Grid, piece: GamePiece) -> Grid {
    Seq::new(
        BOARD_HEIGHT as nat,
        |y: int|
            Seq::new(
                BOARD_WIDTH as nat,
                |x: int|
                    if piece.covers(Coord { x, y }) {
                        block_of(piece)
                    } else {
                        grid[y][x]
                    },
            ),
    )
}

impl Clone for Board {
    fn clone(&self) -> (copy: Board)
        ensures
            copy == *self,
    {
        Board { cells: self.cells }
    }
}

/// A grid has no more full rows than rows, and no fewer than none.
pub proof fn lemma_full_row_count_bounds(grid: Grid)
    ensures
        0 <= full_row_count(grid) <= grid.len(),
{
    grid.lemma_filter_len(row_stays());
}

impl Board {
    /// A board with nothing on it.
    pub fn new() -> (board: Board)
        ensures
            board@ == empty_grid(),
    {
        let board = Board { cells: [[CellState::Empty; 10]; 20] };
        assert(board@ =~~= empty_grid());
        board
    }

    /// A board's grid has the board's measures.
    pub proof fn lemma_view_well_formed(self)
        ensures
            well_formed(self@),
    {
    }

    /// Tells whether the cell at a position is empty, or that the position is
    /// not on the board.
    pub fn is_cell_empty(&self, pos: Position) -> (answer: Result<bool, BoardError>)
        ensures
            in_grid(pos@) ==> answer == Ok::<bool, BoardError>(grid_at(self@, pos@) is Empty),
            !in_grid(pos@) ==> answer == Err::<bool, BoardError>(BoardError::OutOfRange),
    {
        if pos.x < 0 || pos.x > 9 || pos.y < 0 || pos.y > 19 {
            return Err(BoardError::OutOfRange);
        }
        Ok(matches!(self.cells[pos.y as usize][pos.x as usize], CellState::Empty))
    }

    /// Tells whether a piece is legal here: all four cells on the board, and
    /// all four empty. A piece with a cell to the left of column 0, to the
    /// right of column 9, below row 0 or above row 19 is never legal.
    pub fn is_legal(&self, piece: &GamePiece) -> (ok: bool)
        ensures
            ok == legal(self@, *piece),
            (exists|i: int| 0 <= i < 4 && !in_grid(#[trigger] piece.cells()[i])) ==> !ok,
    {
        if !piece.has_room() {
            proof {
                lemma_cells_near_anchor(*piece, 0);
                assert(!in_grid(piece.cells()[0]));
            }
            return false;
        }
        let blocks = get_blocks(piece);
        for i in 0..4
            invariant
                blocks@.len() == 4,
                coords_of(blocks@) == piece.cells(),
                forall|j: int|
                    0 <= j < i ==> in_grid(#[trigger] piece.cells()[j]) && grid_at(
                        self@,
                        piece.cells()[j],
                    ) is Empty,
        {
            let block = blocks[i];
            assert(block@ == coords_of(blocks@)[i as int]);
            match self.is_cell_empty(block) {
                Ok(true) => {},
                _ => {
                    return false;
                },
            }
        }
        true
    }

    /// Locks a legal piece: writes its block into each of its four cells.
    pub fn lock(&mut self, piece: &GamePiece)
        requires
            legal(old(self)@, *piece),
        ensures
            final(self)@ == locked(old(self)@, *piece),
    {
        proof {
            lemma_cells_near_anchor(*piece, 0);
        }
        let (r, g, b) = get_color(piece.piece_type);
        let block_state = CellState::Occupied { r, g, b };
        let blocks = get_blocks(piece);
        for i in 0..4
            invariant
                blocks@.len() == 4,
                coords_of(blocks@) == piece.cells(),
                legal(old(self)@, *piece),
                block_state == block_of(*piece),
                forall|x: int, y: int|
                    0 <= x < BOARD_WIDTH && 0 <= y < BOARD_HEIGHT ==> #[trigger] self@[y][x] == (
                    if covered_by_first(*piece, i as int, Coord { x, y }) {
                        block_of(*piece)
                    } else {
                        old(self)@[y][x]
                    }),
        {
            let block = blocks[i];
            assert(block@ == coords_of(blocks@)[i as int]);
            assert(in_grid(piece.cells()[i as int]));
            let ghost before = self@;
            self.cells[block.y as usize][block.x as usize] = block_state;
            proof {
                assert forall|x: int, y: int|
                    0 <= x < BOARD_WIDTH && 0 <= y < BOARD_HEIGHT implies #[trigger] self@[y][x]
                    == (if covered_by_first(*piece, i + 1, Coord { x, y }) {
                    block_of(*piece)
                } else {
                    old(self)@[y][x]
                }) by {
                    let cell = Coord { x, y };
                    if piece.cells()[i as int] == cell {
                        assert(covered_by_first(*piece, i + 1, cell));
                    } else {
                        assert(self@[y][x] == before[y][x]);
                        if covered_by_first(*piece, i as int, cell) {
                            let j = choose|j: int| 0 <= j < i && piece.cells()[j] == cell;
                            assert(0 <= j < i + 1 && piece.cells()[j] == cell);
                        }
                    }
                }
            }
        }
        assert(self@ =~~= locked(old(self)@, *piece));
    }

    /// Tells whether every cell of a row is occupied.
    pub fn row_is_full(&self, row: usize) -> (full: bool)
        requires
            row < BOARD_HEIGHT,
        ensures
            full == row_full(self@[row as int]),
    {
        for x in 0..10
            invariant
                row < BOARD_HEIGHT,
                forall|c: int| 0 <= c < x ==> (#[trigger] self@[row as int][c]) is Occupied,
        {
            if matches!(self.cells[row][x], CellState::Empty) {
                assert(!(self@[row as int][x as int] is Occupied));
                return false;
            }
        }
        true
    }

    /// The number of full rows.
    pub fn count_full_rows(&self) -> (count: u32)
        ensures
            count == full_row_count(self@),
    {
        let mut count: u32 = 0;
        proof {
            reveal(Seq::filter);
            assert(self@.take(0) =~= Seq::<Seq<CellState>>::empty());
        }
        for y in 0..20
            invariant
                count <= y,
                count == y - surviving_rows(self@.take(y as int)).len(),
        {
            proof {
                assert(self@.take(y + 1) =~= self@.take(y as int).push(self@[y as int]));
                self@.take(y as int).lemma_filter_push(self@[y as int], row_stays());
            }
            if self.row_is_full(y) {
                count += 1;
            }
        }
        proof {
            assert(self@.take(BOARD_HEIGHT as int) =~= self@);
        }
        count
    }

    /// Takes a row out: every row above it moves down by one, and the top row
    /// becomes empty.
    pub fn clear_line(&mut self, row: usize)
        requires
            row < BOARD_HEIGHT,
        ensures
            final(self)@ == old(self)@.remove(row as int).push(empty_row()),
    {
        for y in row..19
            invariant
                row < BOARD_HEIGHT,
                forall|r: int| 0 <= r < row ==> #[trigger] self.cells[r] == old(self).cells[r],
                forall|r: int| row <= r < y ==> #[trigger] self.cells[r] == old(self).cells[r + 1],
                forall|r: int|
                    y <= r < BOARD_HEIGHT ==> #[trigger] self.cells[r] == old(self).cells[r],
        {
            self.cells[y] = self.cells[y + 1];
        }
        self.cells[19] = [CellState::Empty; 10];
        assert(self@[19] =~= empty_row());
        assert(self@ =~= old(self)@.remove(row as int).push(empty_row()));
    }

    /// Takes out every full row, from the bottom up, and tells how many went.
    /// The rows above a full row move down, and empty rows come in at the
    /// top.
    pub fn clear_full_rows(&mut self) -> (lines_cleared: u32)
        ensures
            final(self)@ == collapsed(old(self)@),
            lines_cleared == full_row_count(old(self)@),
    {
        let mut lines_cleared: u32 = 0;
        let mut y_to_check: usize = 0;
        proof {
            assert(old(self)@.take(0) =~= Seq::<Seq<CellState>>::empty());
            reveal(Seq::filter);
            assert(surviving_rows(old(self)@.take(0)) =~= Seq::<Seq<CellState>>::empty());
            assert(old(self)@.skip(0) =~= old(self)@);
        }
        while y_to_check < 20
            invariant
                collapsing(old(self)@, self@, y_to_check as int, lines_cleared as int),
                lines_cleared <= BOARD_HEIGHT,
            decreases 2 * BOARD_HEIGHT - y_to_check - rows_scanned(
                y_to_check as int,
                lines_cleared as int,
            ),
        {
            let ghost before = old(self)@;
            let ghost now = self@;
            let ghost scanned = rows_scanned(y_to_check as int, lines_cleared as int);
            let ghost kept = surviving_rows(before.take(scanned));
            proof {
                assert(now.len() == BOARD_HEIGHT);
                assert(kept.len() + (BOARD_HEIGHT - scanned) + lines_cleared == BOARD_HEIGHT);
                if scanned < BOARD_HEIGHT {
                    assert(now[y_to_check as int] == before[scanned]);
                    assert(before.take(scanned + 1) =~= before.take(scanned).push(before[scanned]));
                    before.take(scanned).lemma_filter_push(before[scanned], row_stays());
                } else {
                    assert(now[y_to_check as int] == empty_row());
                    assert(empty_row()[0] is Empty);
                    assert(!row_full(now[y_to_check as int]));
                }
            }
            if self.row_is_full(y_to_check) {
                lines_cleared += 1;
                self.clear_line(y_to_check);
                proof {
                    assert(self@ =~= kept + before.skip(scanned + 1) + empty_rows(
                        lines_cleared as int,
                    ));
                }
            } else {
                y_to_check += 1;
                proof {
                    if scanned < BOARD_HEIGHT {
                        assert(now =~= kept.push(before[scanned]) + before.skip(scanned + 1)
                            + empty_rows(lines_cleared as int));
                    }
                }
            }
        }
        proof {
            assert(old(self)@.take(BOARD_HEIGHT as int) =~= old(self)@);
        }
        lines_cleared
    }

    /// The occupied cells as they are now, from the top row to the bottom
    /// row, and from left to right in each row.
    pub fn occupied_positions(&self) -> (positions: Vec<Position>)
        ensures
            coords_of(positions@) == occupied_cells(self@),
    {
        let mut occupied_blocks: Vec<Position> = Vec::new();
        proof {
            reveal(Seq::filter);
            assert(scan_order().take(0) =~= Seq::<Coord>::empty());
            assert(coords_of(occupied_blocks@) =~= scan_order().take(0).filter(
                holds_block(self@),
            ));
        }
        for row in 0..20
            invariant
                coords_of(occupied_blocks@) == scan_order().take(row * BOARD_WIDTH).filter(
                    holds_block(self@),
                ),
        {
            let y: usize = 19 - row;
            for x in 0..10
                invariant
                    row < BOARD_HEIGHT,
                    y == BOARD_HEIGHT - 1 - row,
                    coords_of(occupied_blocks@) == scan_order().take(row * BOARD_WIDTH + x).filter(
                        holds_block(self@),
                    ),
            {
                let ghost k = row * BOARD_WIDTH + x;
                let ghost found = occupied_blocks@;
                proof {
                    assert(scan_order()[k] == Coord { x: x as int, y: y as int });
                    assert(scan_order().take(k + 1) =~= scan_order().take(k).push(scan_order()[k]));
                    scan_order().take(k).lemma_filter_push(scan_order()[k], holds_block(self@));
                }
                match self.cells[y][x] {
                    CellState::Occupied { .. } => {
                        occupied_blocks.push(Position { x: x as i8, y: y as i8 });
                        assert(coords_of(occupied_blocks@) =~= coords_of(found).push(
                            scan_order()[k],
                        ));
                    },
                    _ => (),
                }
            }
        }
        assert(scan_order().take(BOARD_WIDTH * BOARD_HEIGHT) =~= scan_order());
        occupied_blocks
    }
}

} // verus!
