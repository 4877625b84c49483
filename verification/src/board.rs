//! Squares, pieces and the read-only picture of the board.

use vstd::prelude::*;

verus! {

/// Number of files, and of ranks, on the board.
pub const BOARD_SIDE: u8 = 8;

/// Number of cells on the board.
pub const BOARD_CELLS: usize = 64;

/// Width and height of one cell, in pixels.
pub const CELL_SIZE: i64 = 67;

/// Width and height of the whole drawing surface, in pixels.
pub const SURFACE_SIZE: i64 = 536;

/// One of the two chess colours.
#[derive(Clone, Copy, Debug, PartialEq, Eq, Hash, Structural)]
pub enum Side {
    Light,
    Dark,
}

/// The six kinds of chess piece.
#[derive(Clone, Copy, Debug, PartialEq, Eq, Hash, Structural)]
pub enum PieceKind {
    King,
    Queen,
    Rook,
    Bishop,
    Knight,
    Pawn,
}

/// A piece: its colour and its kind.
#[derive(Clone, Copy, Debug, PartialEq, Eq, Hash, Structural)]
pub struct Piece {
    pub side: Side,
    pub kind: PieceKind,
}

/// One of the 64 cells, by file and rank.
#[derive(Clone, Copy, Debug, PartialEq, Eq, Hash, Structural)]
pub struct Square {
    pub file: u8,
    pub rank: u8,
}

/// The square under a pixel: each coordinate divided by the cell size and
/// rounded down, provided both quotients fall on the board.
pub open spec fn square_at_pixel(x: int, y: int) -> Option<Square> {
    let file = x / (CELL_SIZE as int);
    let rank = y / (CELL_SIZE as int);
    if 0 <= file < BOARD_SIDE && 0 <= rank < BOARD_SIDE {
        Some(Square { file: file as u8, rank: rank as u8 })
    } else {
        None
    }
}

impl Square {
    /// Both coordinates lie in `[0, 8)`.
    pub open spec fn on_board(self) -> bool {
        self.file < BOARD_SIDE && self.rank < BOARD_SIDE
    }

    /// Position of the square in a file-major listing of the board.
    pub open spec fn index(self) -> int {
        self.file * BOARD_SIDE + self.rank
    }

    /// The square at a position of the file-major listing.
    pub open spec fn at_index(i: int) -> Square {
        Square { file: (i / (BOARD_SIDE as int)) as u8, rank: (i % (BOARD_SIDE as int)) as u8 }
    }

    /// The square with the given coordinates, if they are on the board.
    pub fn new(file: u8, rank: u8) -> (out: Option<Square>)
        ensures
            out == if file < BOARD_SIDE && rank < BOARD_SIDE {
                Some(Square { file, rank })
            } else {
                None
            },
    {
        if file < BOARD_SIDE && rank < BOARD_SIDE {
            Some(Square { file, rank })
        } else {
            None
        }
    }

    /// Whether the square lies on the board.
    pub fn is_on_board(self) -> (out: bool)
        ensures
            out == self.on_board(),
    {
        self.file < BOARD_SIDE && self.rank < BOARD_SIDE
    }

    /// Position of the square in a file-major listing of the board.
    pub fn cell_index(self) -> (out: usize)
        requires
            self.on_board(),
        ensures
            out == self.index(),
            out < BOARD_CELLS,
            Square::at_index(out as int) == self,
    {
        let file: usize = self.file as usize;
        let rank: usize = self.rank as usize;
        file * 8 + rank
    }

    /// The square at a position of the file-major listing.
    pub fn from_index(i: usize) -> (out: Square)
        requires
            i < BOARD_CELLS,
        ensures
            out == Square::at_index(i as int),
            out.on_board(),
            out.index() == i,
    {
        Square { file: (i / 8) as u8, rank: (i % 8) as u8 }
    }

    /// The square under the pixel `(x, y)` of the drawing surface, or `None`
    /// for a pixel off the board.
    pub fn from_pixel(x: i64, y: i64) -> (out: Option<Square>)
        ensures
            out == square_at_pixel(x as int, y as int),
            out is Some <==> 0 <= x < SURFACE_SIZE && 0 <= y < SURFACE_SIZE,
            out is Some ==> out->0.on_board(),
    {
        if x < 0 || x >= SURFACE_SIZE || y < 0 || y >= SURFACE_SIZE {
            None
        } else {
            Some(Square { file: (x / CELL_SIZE) as u8, rank: (y / CELL_SIZE) as u8 })
        }
    }
}

/// The placement of the pieces at one moment: for each square, the piece on
/// it or nothing. The engine owns the position; this is a copy to read.
#[derive(Clone, Debug, PartialEq, Eq)]
pub struct BoardSnapshot {
    cells: Vec<Option<Piece>>,
}

impl View for BoardSnapshot {
    type V = Seq<Option<Piece>>;

    /// The cells in file-major order: the cell of a square stands at its
    /// `index()`.
    closed spec fn view(&self) -> Seq<Option<Piece>> {
        self.cells@
    }
}

impl BoardSnapshot {
    /// The snapshot has exactly one cell for each square.
    pub open spec fn wf(&self) -> bool {
        self@.len() == BOARD_CELLS
    }

    /// What stands on a square.
    pub open spec fn at(&self, square: Square) -> Option<Piece> {
        self@[square.index()]
    }

    /// A board with no piece on it.
    pub fn empty() -> (out: BoardSnapshot)
        ensures
            out.wf(),
            forall|i: int| 0 <= i < BOARD_CELLS ==> out@[i] is None,
    {
        let mut cells: Vec<Option<Piece>> = Vec::new();
        let mut i: usize = 0;
        while i < BOARD_CELLS
            invariant
                i <= BOARD_CELLS,
                cells@.len() == i,
                forall|j: int| 0 <= j < i ==> cells@[j] is None,
            decreases BOARD_CELLS - i,
        {
            cells.push(None);
            i += 1;
        }
        BoardSnapshot { cells }
    }

    /// A snapshot from its cells in file-major order, if there are 64 of them.
    pub fn from_cells(cells: Vec<Option<Piece>>) -> (out: Option<BoardSnapshot>)
        ensures
            out is Some <==> cells@.len() == BOARD_CELLS,
            out is Some ==> out->0@ == cells@ && out->0.wf(),
    {
        if cells.len() == BOARD_CELLS {
            Some(BoardSnapshot { cells })
        } else {
            None
        }
    }

    /// Puts a piece on a square, or clears it, leaving every other square as
    /// it was.
    pub fn place(&mut self, square: Square, piece: Option<Piece>)
        requires
            old(self).wf(),
            square.on_board(),
        ensures
            final(self).wf(),
            final(self)@ == old(self)@.update(square.index(), piece),
            final(self).at(square) == piece,
    {
        let i: usize = square.cell_index();
        self.cells.set(i, piece);
    }

    /// What stands on a square.
    pub fn piece_at(&self, square: Square) -> (out: Option<Piece>)
        requires
            self.wf(),
            square.on_board(),
        ensures
            out == self.at(square),
    {
        let i: usize = square.cell_index();
        self.cells[i]
    }
}

} // verus!
