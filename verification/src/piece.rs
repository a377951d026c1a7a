//! Tetrominoes: the seven kinds, their four orientations, and the table that
//! says which four cells a piece covers.

use rand::seq::IndexedRandom;
use vstd::prelude::*;

verus! {

/// The seven kinds of piece.
#[derive(Debug, Clone, Copy, PartialEq, Eq, Structural)]
pub enum Tetromino {
    /// The square; its anchor is the upper left cell.
    O,
    T,
    J,
    L,
    /// The bar; its anchor is the second cell from the left.
    I,
    S,
    Z,
}

/// The four orientations, in the order in which a rotation visits them.
#[derive(Debug, Clone, Copy, PartialEq, Eq, Structural)]
pub enum Orientation {
    Up,
    Right,
    Down,
    Left,
}

/// What a player can ask of the falling piece.
#[derive(Debug, Clone, Copy, PartialEq, Eq, Structural)]
pub enum Direction {
    Right,
    Down,
    Left,
    Rotate,
}

/// A cell of the plane in machine integers. Column 0 is the left edge of the
/// board and row 0 its bottom.
#[derive(Debug, Clone, Copy, PartialEq, Eq, Structural)]
pub struct Position {
    pub x: i8,
    pub y: i8,
}

/// A cell of the plane in mathematical integers: the model of a `Position`,
/// and the type in which the shape table is stated.
pub struct Coord {
    pub x: int,
    pub y: int,
}

/// A piece in play: its kind, its orientation and the cell it is anchored at.
#[derive(Debug, Clone, Copy, PartialEq, Eq, Structural)]
pub struct GamePiece {
    pub piece_type: Tetromino,
    pub orientation: Orientation,
    pub position: Position,
}

impl View for Position {
    type V = Coord;

    open spec fn view(&self) -> Coord {
        Coord { x: self.x as int, y: self.y as int }
    }
}

/// The cells that a sequence of positions stands for.
pub open spec fn coords_of(positions: Seq<Position>) -> Seq<Coord> {
    Seq::new(positions.len(), |i: int| positions[i]@)
}

/// The column in which every new piece appears.
pub const SPAWN_X: i8 = 4;

/// The row in which every new piece appears: the top row of the board.
pub const SPAWN_Y: i8 = 19;

/// The shape table: the four cells of a piece of the given kind and
/// orientation, relative to its anchor.
pub open spec fn shape_offsets(kind: Tetromino, orientation: Orientation) -> Seq<Coord> {
    match kind {
        Tetromino::O => seq![
            Coord { x: 0, y: 0 },
            Coord { x: 1, y: 0 },
            Coord { x: 0, y: -1 },
            Coord { x: 1, y: -1 },
        ],
        Tetromino::T => match orientation {
            Orientation::Up => seq![
                Coord { x: 0, y: 0 },
                Coord { x: -1, y: 0 },
                Coord { x: 0, y: 1 },
                Coord { x: 1, y: 0 },
            ],
            Orientation::Right => seq![
                Coord { x: 0, y: 0 },
                Coord { x: 0, y: 1 },
                Coord { x: 0, y: -1 },
                Coord { x: 1, y: 0 },
            ],
            Orientation::Down => seq![
                Coord { x: 0, y: 0 },
                Coord { x: -1, y: 0 },
                Coord { x: 1, y: 0 },
                Coord { x: 0, y: -1 },
            ],
            Orientation::Left => seq![
                Coord { x: 0, y: 0 },
                Coord { x: -1, y: 0 },
                Coord { x: 0, y: -1 },
                Coord { x: 0, y: 1 },
            ],
        },
        Tetromino::J => match orientation {
            Orientation::Up => seq![
                Coord { x: 0, y: 0 },
                Coord { x: -1, y: 0 },
                Coord { x: -1, y: 1 },
                Coord { x: 1, y: 0 },
            ],
            Orientation::Right => seq![
                Coord { x: 0, y: 0 },
                Coord { x: 0, y: -1 },
                Coord { x: 0, y: 1 },
                Coord { x: 1, y: 1 },
            ],
            Orientation::Down => seq![
                Coord { x: 0, y: 0 },
                Coord { x: -1, y: 0 },
                Coord { x: 1, y: -1 },
                Coord { x: 1, y: 0 },
            ],
            Orientation::Left => seq![
                Coord { x: 0, y: 0 },
                Coord { x: -1, y: -1 },
                Coord { x: 0, y: -1 },
                Coord { x: 0, y: 1 },
            ],
        },
        Tetromino::L => match orientation {
            Orientation::Up => seq![
                Coord { x: 0, y: 0 },
                Coord { x: -1, y: 0 },
                Coord { x: 1, y: 1 },
                Coord { x: 1, y: 0 },
            ],
            Orientation::Right => seq![
                Coord { x: 0, y: 0 },
                Coord { x: 0, y: -1 },
                Coord { x: 0, y: 1 },
                Coord { x: 1, y: -1 },
            ],
            Orientation::Down => seq![
                Coord { x: 0, y: 0 },
                Coord { x: -1, y: 0 },
                Coord { x: -1, y: -1 },
                Coord { x: 1, y: 0 },
            ],
            Orientation::Left => seq![
                Coord { x: 0, y: 0 },
                Coord { x: -1, y: 1 },
                Coord { x: 0, y: -1 },
                Coord { x: 0, y: 1 },
            ],
        },
        Tetromino::I => match orientation {
            Orientation::Up => seq![
                Coord { x: 0, y: 0 },
                Coord { x: -1, y: 0 },
                Coord { x: 1, y: 0 },
                Coord { x: 2, y: 0 },
            ],
            Orientation::Right => seq![
                Coord { x: 1, y: -1 },
                Coord { x: 1, y: 0 },
                Coord { x: 1, y: 1 },
                Coord { x: 1, y: 2 },
            ],
            Orientation::Down => seq![
                Coord { x: -1, y: -1 },
                Coord { x: 0, y: -1 },
                Coord { x: 1, y: -1 },
                Coord { x: 2, y: -1 },
            ],
            Orientation::Left => seq![
                Coord { x: 0, y: -1 },
                Coord { x: 0, y: 0 },
                Coord { x: 0, y: 1 },
                Coord { x: 0, y: 2 },
            ],
        },
        Tetromino::S => match orientation {
            Orientation::Up => seq![
                Coord { x: 0, y: 0 },
                Coord { x: -1, y: 0 },
                Coord { x: 0, y: 1 },
                Coord { x: 1, y: 1 },
            ],
            Orientation::Right => seq![
                Coord { x: 0, y: 0 },
                Coord { x: 0, y: 1 },
                Coord { x: 1, y: 0 },
                Coord { x: 1, y: -1 },
            ],
            Orientation::Down => seq![
                Coord { x: 0, y: 0 },
                Coord { x: -1, y: -1 },
                Coord { x: 0, y: -1 },
                Coord { x: 1, y: 0 },
            ],
            Orientation::Left => seq![
                Coord { x: 0, y: 0 },
                Coord { x: -1, y: 1 },
                Coord { x: -1, y: 0 },
                Coord { x: 0, y: -1 },
            ],
        },
        Tetromino::Z => match orientation {
            Orientation::Up => seq![
                Coord { x: 0, y: 0 },
                Coord { x: -1, y: 1 },
                Coord { x: 0, y: 1 },
                Coord { x: 1, y: 0 },
            ],
            Orientation::Right => seq![
                Coord { x: 0, y: 0 },
                Coord { x: 0, y: -1 },
                Coord { x: 1, y: 1 },
                Coord { x: 1, y: 0 },
            ],
            Orientation::Down => seq![
                Coord { x: 0, y: 0 },
                Coord { x: -1, y: 0 },
                Coord { x: 0, y: -1 },
                Coord { x: 1, y: -1 },
            ],
            Orientation::Left => seq![
                Coord { x: 0, y: 0 },
                Coord { x: -1, y: -1 },
                Coord { x: -1, y: 0 },
                Coord { x: 0, y: 1 },
            ],
        },
    }
}

impl GamePiece {
    /// The four cells that the piece covers: the shape table's offsets, taken
    /// from the anchor.
    pub open spec fn cells(self) -> Seq<Coord> {
        Seq::new(
            4,
            |i: int|
                Coord {
                    x: self.position.x + shape_offsets(self.piece_type, self.orientation)[i].x,
                    y: self.position.y + shape_offsets(self.piece_type, self.orientation)[i].y,
                },
        )
    }

    /// Whether the piece covers the given cell.
    pub open spec fn covers(self, cell: Coord) -> bool {
        exists|i: int| 0 <= i < 4 && self.cells()[i] == cell
    }

    /// Whether every cell of every shape, taken from this anchor, has
    /// coordinates that an `i8` can hold.
    pub open spec fn spec_has_room(&self) -> bool {
        &&& -127 <= self.position.x <= 125
        &&& -127 <= self.position.y <= 125
    }

    /// Tells whether `get_blocks` can be asked for the cells of this piece.
    #[verifier::when_used_as_spec(spec_has_room)]
    pub fn has_room(&self) -> (ok: bool)
        ensures
            ok == self.has_room(),
    {
        -127 <= self.position.x && self.position.x <= 125 && -127 <= self.position.y
            && self.position.y <= 125
    }
}

/// The cells that a piece covers, in the order of the shape table.
pub fn get_blocks(piece: &GamePiece) -> (blocks: Vec<Position>)
    requires
        piece.has_room(),
    ensures
        coords_of(blocks@) == piece.cells(),
        blocks@.len() == 4,
        blocks@.no_duplicates(),
{
    let x = piece.position.x;
    let y = piece.position.y;
    let blocks = match piece.piece_type {
        Tetromino::O => vec![
            Position { x, y },
            Position { x: x + 1, y },
            Position { x, y: y - 1 },
            Position { x: x + 1, y: y - 1 },
        ],
        Tetromino::T => match piece.orientation {
            Orientation::Up => vec![
                Position { x, y },
                Position { x: x - 1, y },
                Position { x, y: y + 1 },
                Position { x: x + 1, y },
            ],
            Orientation::Right => vec![
                Position { x, y },
                Position { x, y: y + 1 },
                Position { x, y: y - 1 },
                Position { x: x + 1, y },
            ],
            Orientation::Down => vec![
                Position { x, y },
                Position { x: x - 1, y },
                Position { x: x + 1, y },
                Position { x, y: y - 1 },
            ],
            Orientation::Left => vec![
                Position { x, y },
                Position { x: x - 1, y },
                Position { x, y: y - 1 },
                Position { x, y: y + 1 },
            ],
        },
        Tetromino::J => match piece.orientation {
            Orientation::Up => vec![
                Position { x, y },
                Position { x: x - 1, y },
                Position { x: x - 1, y: y + 1 },
                Position { x: x + 1, y },
            ],
            Orientation::Right => vec![
                Position { x, y },
                Position { x, y: y - 1 },
                Position { x, y: y + 1 },
                Position { x: x + 1, y: y + 1 },
            ],
            Orientation::Down => vec![
                Position { x, y },
                Position { x: x - 1, y },
                Position { x: x + 1, y: y - 1 },
                Position { x: x + 1, y },
            ],
            Orientation::Left => vec![
                Position { x, y },
                Position { x: x - 1, y: y - 1 },
                Position { x, y: y - 1 },
                Position { x, y: y + 1 },
            ],
        },
        Tetromino::L => match piece.orientation {
            Orientation::Up => vec![
                Position { x, y },
                Position { x: x - 1, y },
                Position { x: x + 1, y: y + 1 },
                Position { x: x + 1, y },
            ],
            Orientation::Right => vec![
                Position { x, y },
                Position { x, y: y - 1 },
                Position { x, y: y + 1 },
                Position { x: x + 1, y: y - 1 },
            ],
            Orientation::Down => vec![
                Position { x, y },
                Position { x: x - 1, y },
                Position { x: x - 1, y: y - 1 },
                Position { x: x + 1, y },
            ],
            Orientation::Left => vec![
                Position { x, y },
                Position { x: x - 1, y: y + 1 },
                Position { x, y: y - 1 },
                Position { x, y: y + 1 },
            ],
        },
        Tetromino::I => match piece.orientation {
            Orientation::Up => vec![
                Position { x, y },
                Position { x: x - 1, y },
                Position { x: x + 1, y },
                Position { x: x + 2, y },
            ],
            Orientation::Right => vec![
                Position { x: x + 1, y: y - 1 },
                Position { x: x + 1, y },
                Position { x: x + 1, y: y + 1 },
                Position { x: x + 1, y: y + 2 },
            ],
            Orientation::Down => vec![
                Position { x: x - 1, y: y - 1 },
                Position { x, y: y - 1 },
                Position { x: x + 1, y: y - 1 },
                Position { x: x + 2, y: y - 1 },
            ],
            Orientation::Left => vec![
                Position { x, y: y - 1 },
                Position { x, y },
                Position { x, y: y + 1 },
                Position { x, y: y + 2 },
            ],
        },
        Tetromino::S => match piece.orientation {
            Orientation::Up => vec![
                Position { x, y },
                Position { x: x - 1, y },
                Position { x, y: y + 1 },
                Position { x: x + 1, y: y + 1 },
            ],
            Orientation::Right => vec![
                Position { x, y },
                Position { x, y: y + 1 },
                Position { x: x + 1, y },
                Position { x: x + 1, y: y - 1 },
            ],
            Orientation::Down => vec![
                Position { x, y },
                Position { x: x - 1, y: y - 1 },
                Position { x, y: y - 1 },
                Position { x: x + 1, y },
            ],
            Orientation::Left => vec![
                Position { x, y },
                Position { x: x - 1, y: y + 1 },
                Position { x: x - 1, y },
                Position { x, y: y - 1 },
            ],
        },
        Tetromino::Z => match piece.orientation {
            Orientation::Up => vec![
                Position { x, y },
                Position { x: x - 1, y: y + 1 },
                Position { x, y: y + 1 },
                Position { x: x + 1, y },
            ],
            Orientation::Right => vec![
                Position { x, y },
                Position { x, y: y - 1 },
                Position { x: x + 1, y: y + 1 },
                Position { x: x + 1, y },
            ],
            Orientation::Down => vec![
                Position { x, y },
                Position { x: x - 1, y },
                Position { x, y: y - 1 },
                Position { x: x + 1, y: y - 1 },
            ],
            Orientation::Left => vec![
                Position { x, y },
                Position { x: x - 1, y: y - 1 },
                Position { x: x - 1, y },
                Position { x, y: y + 1 },
            ],
        },
    };
    assert(coords_of(blocks@) =~= piece.cells());
    blocks
}

/// The colour of each kind, as red, green and blue.
pub open spec fn color_of(kind: Tetromino) -> (u8, u8, u8) {
    match kind {
        Tetromino::O => (255u8, 255u8, 0u8),
        Tetromino::T => (128u8, 0u8, 128u8),
        Tetromino::J => (0u8, 0u8, 255u8),
        Tetromino::L => (255u8, 165u8, 0u8),
        Tetromino::I => (0u8, 255u8, 255u8),
        Tetromino::S => (0u8, 255u8, 0u8),
        Tetromino::Z => (255u8, 0u8, 0u8),
    }
}

/// The colour in which a kind is drawn: yellow, purple, blue, orange, cyan,
/// green and red, for O, T, J, L, I, S and Z.
pub fn get_color(piece_type: Tetromino) -> (rgb: (u8, u8, u8))
    ensures
        rgb == color_of(piece_type),
{
    match piece_type {
        Tetromino::O => (255, 255, 0),
        Tetromino::T => (128, 0, 128),
        Tetromino::J => (0, 0, 255),
        Tetromino::L => (255, 165, 0),
        Tetromino::I => (0, 255, 255),
        Tetromino::S => (0, 255, 0),
        Tetromino::Z => (255, 0, 0),
    }
}

impl Tetromino {
    /// The letter that names the kind.
    pub open spec fn letter(self) -> char {
        match self {
            Tetromino::O => 'O',
            Tetromino::T => 'T',
            Tetromino::J => 'J',
            Tetromino::L => 'L',
            Tetromino::I => 'I',
            Tetromino::S => 'S',
            Tetromino::Z => 'Z',
        }
    }

    /// The kind's name: its letter, as a string of one character.
    pub fn print(&self) -> (name: &str)
        ensures
            name@ == seq![self.letter()],
    {
        proof {
            reveal_strlit("O");
            reveal_strlit("T");
            reveal_strlit("J");
            reveal_strlit("L");
            reveal_strlit("I");
            reveal_strlit("S");
            reveal_strlit("Z");
        }
        let name = match self {
            Tetromino::O => "O",
            Tetromino::T => "T",
            Tetromino::J => "J",
            Tetromino::L => "L",
            Tetromino::I => "I",
            Tetromino::S => "S",
            Tetromino::Z => "Z",
        };
        assert(name@ =~= seq![self.letter()]);
        name
    }
}

impl Orientation {
    /// The orientation that one rotation leads to: Up, Right, Down, Left and
    /// back to Up.
    pub open spec fn next(self) -> Orientation {
        match self {
            Orientation::Up => Orientation::Right,
            Orientation::Right => Orientation::Down,
            Orientation::Down => Orientation::Left,
            Orientation::Left => Orientation::Up,
        }
    }
}

impl GamePiece {
    /// A new piece of the given kind: upright, anchored at the spawn cell.
    pub open spec fn spawned(kind: Tetromino) -> GamePiece {
        GamePiece {
            piece_type: kind,
            orientation: Orientation::Up,
            position: Position { x: SPAWN_X, y: SPAWN_Y },
        }
    }

    /// The piece turned by one step. Its kind and its anchor stay.
    pub open spec fn rotated(self) -> GamePiece {
        GamePiece {
            piece_type: self.piece_type,
            orientation: self.orientation.next(),
            position: self.position,
        }
    }

    /// The piece with its anchor moved by `dx` columns and `dy` rows, where
    /// the new anchor still fits an `i8`.
    pub open spec fn shifted(self, dx: int, dy: int) -> Option<GamePiece> {
        if i8::MIN <= self.position.x + dx <= i8::MAX && i8::MIN <= self.position.y + dy
            <= i8::MAX {
            Some(
                GamePiece {
                    piece_type: self.piece_type,
                    orientation: self.orientation,
                    position: Position {
                        x: (self.position.x + dx) as i8,
                        y: (self.position.y + dy) as i8,
                    },
                },
            )
        } else {
            None
        }
    }

    /// The candidate that a request leads to: one column to the left or to
    /// the right, one row down, or one rotation. There is none where the
    /// anchor would leave the range of an `i8`.
    pub open spec fn moved(self, direction: Direction) -> Option<GamePiece> {
        match direction {
            Direction::Right => self.shifted(1, 0),
            Direction::Down => self.shifted(0, -1),
            Direction::Left => self.shifted(-1, 0),
            Direction::Rotate => Some(self.rotated()),
        }
    }

    /// Turns the piece by one step of the cycle Up, Right, Down, Left. The
    /// anchor does not move.
    pub fn rotate(&mut self)
        ensures
            *final(self) == old(self).rotated(),
    {
        self.orientation = match self.orientation {
            Orientation::Up => Orientation::Right,
            Orientation::Right => Orientation::Down,
            Orientation::Down => Orientation::Left,
            Orientation::Left => Orientation::Up,
        }
    }

    /// The candidate for a request, as a new piece; this piece stays as it
    /// is. Whether the candidate is legal is for the board to say.
    pub fn move_piece(&mut self, direction: Direction) -> (candidate: Option<GamePiece>)
        ensures
            *final(self) == *old(self),
            candidate == old(self).moved(direction),
    {
        let mut new_piece = *self;
        match direction {
            Direction::Down => {
                if new_piece.position.y == i8::MIN {
                    return None;
                }
                new_piece.position.y = new_piece.position.y - 1;
            },
            Direction::Left => {
                if new_piece.position.x == i8::MIN {
                    return None;
                }
                new_piece.position.x = new_piece.position.x - 1;
            },
            Direction::Right => {
                if new_piece.position.x == i8::MAX {
                    return None;
                }
                new_piece.position.x = new_piece.position.x + 1;
            },
            Direction::Rotate => new_piece.rotate(),
        }
        Some(new_piece)
    }

    /// A new piece of the given kind: upright, anchored at the spawn cell.
    pub fn spawn(kind: Tetromino) -> (piece: GamePiece)
        ensures
            piece == GamePiece::spawned(kind),
    {
        GamePiece {
            piece_type: kind,
            orientation: Orientation::Up,
            position: Position { x: SPAWN_X, y: SPAWN_Y },
        }
    }

    /// A new piece of a kind drawn at random: upright, anchored at the spawn
    /// cell.
    pub fn new_random() -> (piece: GamePiece)
        ensures
            piece == GamePiece::spawned(piece.piece_type),
    {
        GamePiece::spawn(get_random_tetromino())
    }
}

/// The seven kinds.
pub open spec fn all_kinds() -> Seq<Tetromino> {
    seq![
        Tetromino::O,
        Tetromino::T,
        Tetromino::J,
        Tetromino::L,
        Tetromino::I,
        Tetromino::S,
        Tetromino::Z,
    ]
}

/// Draws one element of `kinds` with `rand::seq::IndexedRandom::choose`, fed
/// by the generator of the thread, which `rand::rng` hands out.
///
/// Not proved, but taken from `rand`: `choose` gives `None` for an empty slice
/// and for no other, and what it gives otherwise is an element of the slice.
/// Which element is not stated: it differs from call to call.
#[verifier::external_body]
fn choose_kind(kinds: &[Tetromino]) -> (picked: Option<Tetromino>)
    ensures
        picked is None <==> kinds@.len() == 0,
        picked matches Some(kind) ==> kinds@.contains(kind),
{
    let mut rng = rand::rng();
    kinds.choose(&mut rng).copied()
}

/// One of the seven kinds, drawn at random.
pub fn get_random_tetromino() -> (kind: Tetromino)
    ensures
        all_kinds().contains(kind),
{
    let kinds = [
        Tetromino::O,
        Tetromino::T,
        Tetromino::J,
        Tetromino::L,
        Tetromino::I,
        Tetromino::S,
        Tetromino::Z,
    ];
    assert(kinds@ =~= all_kinds());
    match choose_kind(kinds.as_slice()) {
        Some(kind) => kind,
        None => vstd::pervasive::unreached(),
    }
}

/// A piece covers four cells, and no cell twice.
pub proof fn lemma_cells_distinct(piece: GamePiece)
    ensures
        piece.cells().len() == 4,
        piece.cells().no_duplicates(),
{
}

/// Every cell of a piece lies at most one column to the left of its anchor
/// and two to the right, at most one row below it and two above.
pub proof fn lemma_cells_near_anchor(piece: GamePiece, i: int)
    requires
        0 <= i < 4,
    ensures
        piece.position.x - 1 <= piece.cells()[i].x <= piece.position.x + 2,
        piece.position.y - 1 <= piece.cells()[i].y <= piece.position.y + 2,
{
}

/// Four rotations bring a piece back to where it was: the same orientation,
/// and so the same cells.
pub proof fn lemma_four_rotations_restore(piece: GamePiece)
    ensures
        piece.rotated().rotated().rotated().rotated() == piece,
        piece.rotated().rotated().rotated().rotated().cells() == piece.cells(),
{
}

/// Whether one of the four cells of `piece` is `cell`, written out cell by
/// cell.
spec fn among_cells(piece: GamePiece, cell: Coord) -> bool {
    ||| piece.cells()[0] == cell
    ||| piece.cells()[1] == cell
    ||| piece.cells()[2] == cell
    ||| piece.cells()[3] == cell
}

/// Every kind but the square has a pattern of its own for each orientation:
/// two pieces of such a kind at one anchor, turned differently, do not cover
/// the same cells. Some cell of the one is no cell of the other.
pub proof fn lemma_orientations_differ(a: GamePiece, b: GamePiece)
    requires
        a.piece_type != Tetromino::O,
        a.piece_type == b.piece_type,
        a.position == b.position,
        a.orientation != b.orientation,
    ensures
        exists|i: int| 0 <= i < 4 && !b.covers(#[trigger] a.cells()[i]),
        a.cells().to_set() != b.cells().to_set(),
{
    assert forall|cell: Coord| b.covers(cell) implies among_cells(b, cell) by {
        let j = choose|j: int| 0 <= j < 4 && b.cells()[j] == cell;
        assert(j == 0 || j == 1 || j == 2 || j == 3);
    }
    let i = if !among_cells(b, a.cells()[0]) {
        0int
    } else if !among_cells(b, a.cells()[1]) {
        1int
    } else if !among_cells(b, a.cells()[2]) {
        2int
    } else {
        3int
    };
    assert(!among_cells(b, a.cells()[i]));
    assert(!b.covers(a.cells()[i]));
    assert(a.cells().to_set().contains(a.cells()[i]));
    assert(!b.cells().to_set().contains(a.cells()[i])) by {
        if b.cells().contains(a.cells()[i]) {
            let j = choose|j: int| 0 <= j < b.cells().len() && b.cells()[j] == a.cells()[i];
            assert(b.covers(a.cells()[i]));
        }
    }
}

/// A square has the same shape in every orientation, so that a rotation
/// leaves its cells where they are.
pub proof fn lemma_square_ignores_orientation(piece: GamePiece)
    requires
        piece.piece_type == Tetromino::O,
    ensures
        forall|a: Orientation, b: Orientation|
            shape_offsets(Tetromino::O, a) == shape_offsets(Tetromino::O, b),
        piece.rotated().cells() == piece.cells(),
{
    assert(piece.rotated().cells() =~= piece.cells());
}

} // verus!
