//! A falling-block puzzle engine: the pieces and their shapes, the board, and
//! the rules that move, lock and clear.

pub mod board;
pub mod board_lemmas;
pub mod game;
pub mod piece;
