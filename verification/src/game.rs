//! The game: a board, the piece that falls, whether play goes on, and the
//! score; and the rules that a request or a tick of gravity sets off.

use crate::board::{
    block_of, clear_of_stack, collapsed, empty_grid, empty_row, full_row_count, grid_at, in_grid,
    lemma_full_row_count_bounds, legal, locked, no_full_row, occupied_cells, row_full,
    well_formed, Board, CellState, Grid, BOARD_HEIGHT,
};
use crate::board_lemmas::{
    lemma_collapse_leaves_no_full_row, lemma_collapse_of_one_full_row,
    lemma_collapse_without_full_row, lemma_lock_fills_at_most_four_rows,
    lemma_lock_on_empty_board,
};
use crate::piece::{
    color_of, coords_of, get_blocks, get_color, lemma_cells_near_anchor, Coord, Direction,
    GamePiece, Position, Tetromino,
};
use vstd::prelude::*;

verus! {

/// A game. It starts with an empty board and a new piece, and it is over once
/// `running` is false.
#[derive(Debug, PartialEq, Eq)]
pub struct Game {
    pub board: Board,
    pub current_piece: GamePiece,
    pub running: bool,
    pub score: u32,
}

/// The model of a game: the board's grid, the falling piece, whether play
/// goes on, and the score.
pub struct GameState {
    pub grid: Grid,
    pub piece: GamePiece,
    pub running: bool,
    pub score: int,
}

impl View for Game {
    type V = GameState;

    open spec fn view(&self) -> GameState {
        GameState {
            grid: self.board@,
            piece: self.current_piece,
            running: self.running,
            score: self.score as int,
        }
    }
}

impl GameState {
    /// A game at its start: nothing on the board, a new piece of the given
    /// kind, play going on, no score.
    pub open spec fn fresh(kind: Tetromino) -> GameState {
        GameState {
            grid: empty_grid(),
            piece: GamePiece::spawned(kind),
            running: true,
            score: 0,
        }
    }

    /// Whether a request can be granted: its candidate exists and is legal
    /// on the board.
    pub open spec fn grants(self, direction: Direction) -> bool {
        self.piece.moved(direction) matches Some(candidate) && legal(self.grid, candidate)
    }

    /// What holds of a game between two requests, from its start on: the
    /// grid has the board's measures, and no row of it is full.
    pub open spec fn tidy(self) -> bool {
        well_formed(self.grid) && no_full_row(self.grid)
    }

    /// The colour in which a cell shows: that of the falling piece where it
    /// covers the cell, else that of the block in the cell, and black for an
    /// empty cell and for any cell off the board.
    pub open spec fn shown_at(self, cell: Coord) -> (u8, u8, u8) {
        if !in_grid(cell) {
            (0u8, 0u8, 0u8)
        } else if self.piece.covers(cell) {
            color_of(self.piece.piece_type)
        } else {
            match grid_at(self.grid, cell) {
                CellState::Occupied { r, g, b } => (r, g, b),
                CellState::Empty => (0u8, 0u8, 0u8),
            }
        }
    }

    /// The game with the stack as the falling piece leaves it when it locks:
    /// the piece's cells filled, then the full rows gone, and the square of
    /// their number added to the score.
    pub open spec fn stacked(self) -> GameState {
        let stack = locked(self.grid, self.piece);
        GameState {
            grid: collapsed(stack),
            piece: self.piece,
            running: self.running,
            score: self.score + full_row_count(stack) * full_row_count(stack),
        }
    }

    /// Whether a request makes the falling piece lock: play goes on, the
    /// piece is asked to go down and cannot, and it is legal where it is.
    pub open spec fn locks_on(self, direction: Direction) -> bool {
        &&& self.running
        &&& direction == Direction::Down
        &&& !self.grants(direction)
        &&& legal(self.grid, self.piece)
    }

    /// Whether the score that a request leads to fits a `u32`. Only a lock
    /// adds to the score.
    pub open spec fn fits_score(self, direction: Direction) -> bool {
        self.locks_on(direction) ==> self.stacked().score <= u32::MAX
    }

    /// The game after the falling piece has come to rest and `next` has taken
    /// its place. A piece that is legal where it rests locks, and play goes
    /// on if `next` is clear of the stack. A piece that rests while part of
    /// it is still above the board cannot lock: the game is over, and the
    /// board stays as it is.
    pub open spec fn settled(self, next: GamePiece) -> GameState {
        if legal(self.grid, self.piece) {
            GameState {
                grid: self.stacked().grid,
                piece: next,
                running: clear_of_stack(self.stacked().grid, next),
                score: self.stacked().score,
            }
        } else {
            GameState { grid: self.grid, piece: self.piece, running: false, score: self.score }
        }
    }

    /// The game after a request, where `next` is the piece that comes in if
    /// the falling one locks. A game that is over stays as it is. A request
    /// that can be granted moves or turns the piece and does nothing else. A
    /// piece that cannot go down comes to rest. Any other request that
    /// cannot be granted changes nothing.
    pub open spec fn after_move(self, direction: Direction, next: GamePiece) -> GameState {
        if !self.running {
            self
        } else if self.grants(direction) {
            GameState {
                grid: self.grid,
                piece: self.piece.moved(direction)->0,
                running: self.running,
                score: self.score,
            }
        } else if direction == Direction::Down {
            self.settled(next)
        } else {
            self
        }
    }
}

/// A new game is tidy.
pub proof fn lemma_fresh_is_tidy(kind: Tetromino)
    ensures
        GameState::fresh(kind).tidy(),
{
    assert(empty_row()[0] is Empty);
}

/// A request leaves a tidy game tidy. It never lowers the score, and raises
/// it by sixteen at most: a lock fills no more than four rows.
pub proof fn lemma_move_keeps_tidy(state: GameState, direction: Direction, next: GamePiece)
    requires
        state.tidy(),
    ensures
        state.after_move(direction, next).tidy(),
        state.score <= state.after_move(direction, next).score <= state.score + 16,
{
    if legal(state.grid, state.piece) {
        let stack = locked(state.grid, state.piece);
        lemma_lock_fills_at_most_four_rows(state.grid, state.piece);
        lemma_collapse_leaves_no_full_row(stack);
        let lines = full_row_count(stack);
        assert(0 <= lines * lines <= 16) by (nonlinear_arith)
            requires
                0 <= lines <= 4,
        ;
    }
}

/// A lock never lowers the score and adds four hundred at most, all twenty
/// rows at once. On a board without a full row a legal piece fills four rows
/// at most and adds sixteen at most.
pub proof fn lemma_lock_gain_bounds(state: GameState)
    ensures
        state.score <= state.stacked().score <= state.score + 400,
        state.tidy() && legal(state.grid, state.piece) ==> state.stacked().score <= state.score
            + 16,
{
    let lines = full_row_count(locked(state.grid, state.piece));
    lemma_full_row_count_bounds(locked(state.grid, state.piece));
    assert(0 <= lines * lines <= 400) by (nonlinear_arith)
        requires
            0 <= lines <= 20,
    ;
    if state.tidy() && legal(state.grid, state.piece) {
        lemma_lock_fills_at_most_four_rows(state.grid, state.piece);
        assert(lines * lines <= 16) by (nonlinear_arith)
            requires
                0 <= lines <= 4,
        ;
    }
}

/// A request can be carried out whenever the score is at least four hundred
/// below the top of its range, and on a board without a full row whenever it
/// is at least sixteen below.
pub proof fn lemma_score_fits(state: GameState, direction: Direction)
    requires
        state.score + 400 <= u32::MAX || (state.tidy() && state.score + 16 <= u32::MAX),
    ensures
        state.fits_score(direction),
{
    lemma_lock_gain_bounds(state);
}

/// A lock that fills no row leaves the board with the piece's four cells
/// filled and nothing else changed, and leaves the score as it is.
pub proof fn lemma_lock_that_fills_no_row(state: GameState)
    requires
        no_full_row(locked(state.grid, state.piece)),
    ensures
        state.stacked().grid == locked(state.grid, state.piece),
        state.stacked().score == state.score,
{
    lemma_collapse_without_full_row(locked(state.grid, state.piece));
    let lines = full_row_count(locked(state.grid, state.piece));
    assert(lines * lines == 0) by (nonlinear_arith)
        requires
            lines == 0,
    ;
}

/// A lock that fills one row and no other adds one to the score, takes that
/// row out, moves every row above it down by one, and leaves the top row
/// empty.
pub proof fn lemma_lock_that_fills_one_row(state: GameState, row: int)
    requires
        0 <= row < BOARD_HEIGHT,
        row_full(locked(state.grid, state.piece)[row]),
        forall|y: int|
            0 <= y < BOARD_HEIGHT && y != row ==> !row_full(
                #[trigger] locked(state.grid, state.piece)[y],
            ),
    ensures
        state.stacked().score == state.score + 1,
        state.stacked().grid == locked(state.grid, state.piece).remove(row).push(empty_row()),
{
    lemma_collapse_of_one_full_row(locked(state.grid, state.piece), row);
    let lines = full_row_count(locked(state.grid, state.piece));
    assert(lines * lines == 1) by (nonlinear_arith)
        requires
            lines == 1,
    ;
}

/// The first lock of a game: on an empty board a legal piece leaves its four
/// cells filled in its colour and all others empty, and the score as it is.
pub proof fn lemma_lock_on_empty_board_scores_nothing(state: GameState)
    requires
        state.grid == empty_grid(),
        legal(state.grid, state.piece),
    ensures
        state.stacked().score == state.score,
        forall|cell: Coord|
            in_grid(cell) ==> #[trigger] grid_at(state.stacked().grid, cell) == if state.piece.covers(
                cell,
            ) {
                block_of(state.piece)
            } else {
                CellState::Empty
            },
        forall|cell: Coord| #[trigger]
            occupied_cells(state.stacked().grid).contains(cell) <==> state.piece.covers(cell),
        occupied_cells(state.stacked().grid).len() == 4,
{
    lemma_lock_on_empty_board(state.piece);
    let lines = full_row_count(locked(state.grid, state.piece));
    assert(lines * lines == 0) by (nonlinear_arith)
        requires
            lines == 0,
    ;
    assert forall|cell: Coord| in_grid(cell) implies #[trigger] grid_at(
        state.stacked().grid,
        cell,
    ) == if state.piece.covers(cell) {
        block_of(state.piece)
    } else {
        CellState::Empty
    } by {
        if !state.piece.covers(cell) {
            assert(grid_at(locked(empty_grid(), state.piece), cell) is Empty);
        }
    }
}

/// Once a game is over, no request changes anything.
pub proof fn lemma_game_over_is_final(state: GameState, direction: Direction, next: GamePiece)
    requires
        !state.running,
    ensures
        state.after_move(direction, next) == state,
{
}

impl Clone for Game {
    fn clone(&self) -> (copy: Game)
        ensures
            copy == *self,
    {
        Game {
            board: self.board.clone(),
            current_piece: self.current_piece,
            running: self.running,
            score: self.score,
        }
    }
}

impl Game {
    /// A new game: an empty board, a piece of a kind drawn at random, play
    /// going on, no score.
    pub fn new() -> (game: Game)
        ensures
            game@ == GameState::fresh(game.current_piece.piece_type),
    {
        Game {
            board: Board::new(),
            current_piece: GamePiece::new_random(),
            running: true,
            score: 0,
        }
    }

    /// Tells whether a piece is legal on the board: all four cells on the
    /// board, and all four empty. A piece with a cell off the board is never
    /// legal.
    pub fn is_valid(&self, piece: &GamePiece) -> (ok: bool)
        ensures
            ok == legal(self@.grid, *piece),
            (exists|i: int| 0 <= i < 4 && !in_grid(#[trigger] piece.cells()[i])) ==> !ok,
    {
        self.board.is_legal(piece)
    }

    /// Tells whether a piece is clear of the stack: true when none of its
    /// cells that lie on the board is occupied, false when one of them is.
    /// Cells off the board do not count, so that a new piece may reach above
    /// the top row.
    pub fn overlaps_occupied(&self, piece: &GamePiece) -> (clear: bool)
        ensures
            clear == clear_of_stack(self@.grid, *piece),
    {
        if !piece.has_room() {
            proof {
                assert forall|i: int| 0 <= i < 4 implies !in_grid(#[trigger] piece.cells()[i]) by {
                    lemma_cells_near_anchor(*piece, i);
                }
            }
            return true;
        }
        let blocks = get_blocks(piece);
        for i in 0..4
            invariant
                blocks@.len() == 4,
                coords_of(blocks@) == piece.cells(),
                forall|j: int|
                    0 <= j < i && in_grid(#[trigger] piece.cells()[j]) ==> grid_at(
                        self@.grid,
                        piece.cells()[j],
                    ) is Empty,
        {
            let block = blocks[i];
            assert(block@ == coords_of(blocks@)[i as int]);
            match self.board.is_cell_empty(block) {
                Ok(false) => {
                    return false;
                },
                _ => {},
            }
        }
        true
    }

    /// Locks the falling piece where it is, takes out the rows that this
    /// fills, and adds the square of their number to the score. The piece
    /// must be legal where it is, and the new score must fit a `u32`.
    pub fn add_current_piece(&mut self)
        requires
            legal(old(self)@.grid, old(self)@.piece),
            old(self)@.stacked().score <= u32::MAX,
        ensures
            final(self)@ == old(self)@.stacked(),
    {
        let piece = self.current_piece;
        self.board.lock(&piece);
        let lines_cleared = self.board.clear_full_rows();
        proof {
            lemma_full_row_count_bounds(locked(old(self)@.grid, piece));
            assert(lines_cleared * lines_cleared <= 400) by (nonlinear_arith)
                requires
                    0 <= lines_cleared <= 20,
            ;
        }
        self.score = self.score + lines_cleared * lines_cleared;
    }

    /// Tells whether the score that a request leads to fits a `u32`, so
    /// that the request can be carried out. Only a lock adds to the score:
    /// for a request that locks nothing the answer is yes.
    pub fn fits_score(&self, direction: Direction) -> (fits: bool)
        ensures
            fits == self@.fits_score(direction),
    {
        if !self.running || !(direction == Direction::Down) {
            return true;
        }
        let mut piece = self.current_piece;
        match piece.move_piece(direction) {
            Some(candidate) => {
                if self.is_valid(&candidate) {
                    return true;
                }
            },
            None => {},
        }
        if !self.is_valid(&piece) {
            return true;
        }
        let mut stack = self.board.clone();
        stack.lock(&piece);
        let lines = stack.count_full_rows();
        proof {
            lemma_full_row_count_bounds(locked(self@.grid, piece));
            assert(lines * lines <= 400) by (nonlinear_arith)
                requires
                    0 <= lines <= 20,
            ;
        }
        lines * lines <= u32::MAX - self.score
    }

    /// The occupied cells of the board as they are now, from the top row to
    /// the bottom row, and from left to right in each row.
    pub fn get_occupied_blocks(&self) -> (positions: Vec<Position>)
        ensures
            coords_of(positions@) == occupied_cells(self@.grid),
    {
        self.board.occupied_positions()
    }

    /// The cells that the falling piece covers, in the order of the shape
    /// table.
    pub fn active_piece_cells(&self) -> (cells: Vec<Position>)
        requires
            self.current_piece.has_room(),
        ensures
            coords_of(cells@) == self@.piece.cells(),
            cells@.len() == 4,
            cells@.no_duplicates(),
    {
        get_blocks(&self.current_piece)
    }

    /// The colour in which to draw a cell: that of the falling piece where it
    /// covers the cell, else that of the block in the cell, and black for an
    /// empty cell and for any cell off the board.
    pub fn color_at(&self, pos: Position) -> (rgb: (u8, u8, u8))
        ensures
            rgb == self@.shown_at(pos@),
    {
        if pos.x < 0 || pos.x > 9 || pos.y < 0 || pos.y > 19 {
            return (0, 0, 0);
        }
        if self.current_piece.has_room() {
            let blocks = get_blocks(&self.current_piece);
            for i in 0..4
                invariant
                    blocks@.len() == 4,
                    coords_of(blocks@) == self.current_piece.cells(),
                    in_grid(pos@),
                    forall|j: int| 0 <= j < i ==> self.current_piece.cells()[j] != pos@,
            {
                let block = blocks[i];
                assert(block@ == coords_of(blocks@)[i as int]);
                if block.x == pos.x && block.y == pos.y {
                    assert(self.current_piece.cells()[i as int] == pos@);
                    return get_color(self.current_piece.piece_type);
                }
            }
        } else {
            proof {
                assert forall|i: int| 0 <= i < 4 implies self.current_piece.cells()[i] != pos@ by {
                    lemma_cells_near_anchor(self.current_piece, i);
                }
            }
        }
        match self.board.cells[pos.y as usize][pos.x as usize] {
            CellState::Occupied { r, g, b } => (r, g, b),
            CellState::Empty => (0, 0, 0),
        }
    }

    /// Grants a request if it can be granted: the candidate takes the place
    /// of the falling piece. Otherwise nothing changes.
    fn try_move(&mut self, direction: Direction) -> (granted: bool)
        ensures
            granted == old(self)@.grants(direction),
            final(self).board == old(self).board,
            final(self).running == old(self).running,
            final(self).score == old(self).score,
            final(self).current_piece == if granted {
                old(self)@.piece.moved(direction)->0
            } else {
                old(self).current_piece
            },
    {
        match self.current_piece.move_piece(direction) {
            Some(candidate) => {
                if self.is_valid(&candidate) {
                    self.current_piece = candidate;
                    true
                } else {
                    false
                }
            },
            None => false,
        }
    }

    /// Brings the falling piece to rest and `next` into play.
    fn settle(&mut self, next: GamePiece)
        requires
            old(self).running,
            legal(old(self)@.grid, old(self)@.piece) ==> old(self)@.stacked().score <= u32::MAX,
        ensures
            final(self)@ == old(self)@.settled(next),
    {
        let piece = self.current_piece;
        if self.is_valid(&piece) {
            self.add_current_piece();
            self.current_piece = next;
            if !self.overlaps_occupied(&next) {
                self.running = false;
            }
        } else {
            self.running = false;
        }
    }

    /// Carries out a request, with `next` as the piece that comes into play
    /// if the falling one locks.
    ///
    /// A granted request moves or turns the piece. A piece that cannot go
    /// down comes to rest: it locks, full rows go, the score grows by the
    /// square of their number, and `next` comes in; the game is over if
    /// `next` is not clear of the stack, or if the piece that came to rest
    /// was not wholly on the board. Other requests that cannot be granted,
    /// and all requests once the game is over, change nothing.
    ///
    /// Where the request makes the piece lock, the new score must fit a
    /// `u32`; `fits_score` tells whether it does.
    pub fn step(&mut self, direction: Direction, next: GamePiece)
        requires
            old(self)@.fits_score(direction),
        ensures
            final(self)@ == old(self)@.after_move(direction, next),
            !old(self).running ==> final(self)@ == old(self)@,
            final(self).score >= old(self).score,
    {
        if self.running {
            let granted = self.try_move(direction);
            if !granted && direction == Direction::Down {
                self.settle(next);
            }
        }
    }

    /// Carries out a request of the player. Where the falling piece locks,
    /// the piece that comes into play is drawn at random, and the new score
    /// must fit a `u32`; `fits_score` tells whether it does.
    pub fn attempt_move(&mut self, direction: Direction)
        requires
            old(self)@.fits_score(direction),
        ensures
            exists|kind: Tetromino|
                final(self)@ == old(self)@.after_move(direction, #[trigger] GamePiece::spawned(kind)),
            !old(self).running ==> final(self)@ == old(self)@,
            final(self).score >= old(self).score,
    {
        let ghost mut drawn = Tetromino::O;
        if self.running {
            let granted = self.try_move(direction);
            if !granted && direction == Direction::Down {
                let next = GamePiece::new_random();
                proof {
                    drawn = next.piece_type;
                }
                self.settle(next);
            }
        }
        assert(self@ == old(self)@.after_move(direction, GamePiece::spawned(drawn)));
    }

    /// Lets gravity act if its time has come: once `elapsed`, the time since
    /// the piece last fell, has reached `drop_interval`, the piece is asked
    /// to go down as by a request of the player. Tells whether it was. Where
    /// gravity is due and makes the piece lock, the new score must fit a
    /// `u32`.
    pub fn tick_gravity(&mut self, elapsed: u64, drop_interval: u64) -> (dropped: bool)
        requires
            elapsed >= drop_interval ==> old(self)@.fits_score(Direction::Down),
        ensures
            dropped == (elapsed >= drop_interval),
            dropped ==> exists|kind: Tetromino|
                final(self)@ == old(self)@.after_move(
                    Direction::Down,
                    #[trigger] GamePiece::spawned(kind),
                ),
            !dropped ==> final(self)@ == old(self)@,
            !old(self).running ==> final(self)@ == old(self)@,
            final(self).score >= old(self).score,
    {
        if elapsed >= drop_interval {
            self.attempt_move(Direction::Down);
            true
        } else {
            false
        }
    }
}

} // verus!
