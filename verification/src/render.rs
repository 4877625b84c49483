//! What one frame consists of: the list of drawing commands for a position,
//! a set of highlighted squares and an optional status line.
//!
//! The list is built back to front: backdrop, tiles, status banner,
//! highlights, pieces. A later command paints over an earlier one, so the
//! highlights lie under the pieces and the banner under both.

use vstd::prelude::*;
use vstd::string::*;
use crate::board::{BoardSnapshot, Piece, Square, BOARD_CELLS, BOARD_SIDE, CELL_SIZE, SURFACE_SIZE};

verus! {

/// Distance kept free left and right of the status line inside its banner.
pub const BANNER_PADDING: i64 = 8;

/// The colours the board is painted in.
#[derive(Clone, Copy, Debug, PartialEq, Eq, Hash, Structural)]
pub enum Paint {
    /// Behind everything.
    Backdrop,
    /// Tiles whose file and rank add up to an even number.
    LightTile,
    /// The other tiles.
    DarkTile,
    /// The translucent mark on a legal destination.
    Highlight,
    /// The box behind the status line.
    Banner,
    /// The status line itself.
    Ink,
}

/// An axis-parallel rectangle in pixels; `x` and `y` are its top left corner.
#[derive(Clone, Copy, Debug, PartialEq, Eq, Hash, Structural)]
pub struct Rect {
    pub x: i64,
    pub y: i64,
    pub width: i64,
    pub height: i64,
}

/// A status line together with the size it takes when set in type, as the
/// drawing backend measured it.
#[derive(Clone, Debug, PartialEq, Eq)]
pub struct StatusText {
    pub text: String,
    pub width: u32,
    pub height: u32,
}

/// A status line as contracts see it.
pub struct StatusLine {
    pub text: Seq<char>,
    pub width: int,
    pub height: int,
}

impl View for StatusText {
    type V = StatusLine;

    open spec fn view(&self) -> StatusLine {
        StatusLine { text: self.text@, width: self.width as int, height: self.height as int }
    }
}

/// One step of drawing a frame.
#[derive(Clone, Debug, PartialEq, Eq)]
pub enum DrawCommand {
    /// Fill the whole surface.
    Clear { paint: Paint },
    /// Fill a rectangle.
    Fill { area: Rect, paint: Paint },
    /// Set a line of text with its top left corner at `(x, y)`.
    Label { text: String, x: i64, y: i64, paint: Paint },
    /// Draw the picture of a piece, scaled to fill `area` exactly.
    Sprite { piece: Piece, area: Rect },
}

/// A drawing command as contracts see it.
pub enum DrawOp {
    Clear { paint: Paint },
    Fill { area: Rect, paint: Paint },
    Label { text: Seq<char>, x: int, y: int, paint: Paint },
    Sprite { piece: Piece, area: Rect },
}

impl View for DrawCommand {
    type V = DrawOp;

    open spec fn view(&self) -> DrawOp {
        match *self {
            DrawCommand::Clear { paint } => DrawOp::Clear { paint },
            DrawCommand::Fill { area, paint } => DrawOp::Fill { area, paint },
            DrawCommand::Label { text, x, y, paint } => DrawOp::Label {
                text: text@,
                x: x as int,
                y: y as int,
                paint,
            },
            DrawCommand::Sprite { piece, area } => DrawOp::Sprite { piece, area },
        }
    }
}

/// The commands of a list, each as contracts see it.
pub open spec fn ops_of(commands: Seq<DrawCommand>) -> Seq<DrawOp> {
    commands.map_values(|c: DrawCommand| c@)
}

/// The colour of a tile: light where file and rank add up to an even number.
pub open spec fn tile_paint(square: Square) -> Paint {
    if (square.file + square.rank) % 2 == 0 {
        Paint::LightTile
    } else {
        Paint::DarkTile
    }
}

/// The cell of a square on the drawing surface.
pub open spec fn cell_rect(square: Square) -> Rect {
    Rect {
        x: (square.file * CELL_SIZE) as i64,
        y: (square.rank * CELL_SIZE) as i64,
        width: CELL_SIZE,
        height: CELL_SIZE,
    }
}

/// The square whose tile is painted `i`-th: the tiles go row by row.
pub open spec fn tile_square(i: int) -> Square {
    Square { file: (i % (BOARD_SIDE as int)) as u8, rank: (i / (BOARD_SIDE as int)) as u8 }
}

/// The 64 tiles.
pub open spec fn tile_ops() -> Seq<DrawOp> {
    Seq::new(
        BOARD_CELLS as nat,
        |i: int| DrawOp::Fill { area: cell_rect(tile_square(i)), paint: tile_paint(tile_square(i)) },
    )
}

/// Where something of the given extent starts when it is centred on the
/// surface, rounded down to a whole pixel.
pub open spec fn centred(extent: int) -> int {
    (SURFACE_SIZE - extent) / 2
}

/// The box behind a status line: as high as the line, wider by the padding on
/// either side, centred on the surface.
pub open spec fn banner_rect(line: StatusLine) -> Rect {
    Rect {
        x: (centred(line.width) - BANNER_PADDING) as i64,
        y: centred(line.height) as i64,
        width: (line.width + 2 * BANNER_PADDING) as i64,
        height: line.height as i64,
    }
}

/// The banner: its box, then the line on top of it. Nothing without a line.
pub open spec fn banner_ops(status: Option<StatusLine>) -> Seq<DrawOp> {
    match status {
        Some(line) => seq![
            DrawOp::Fill { area: banner_rect(line), paint: Paint::Banner },
            DrawOp::Label {
                text: line.text,
                x: centred(line.width),
                y: centred(line.height),
                paint: Paint::Ink,
            },
        ],
        None => Seq::empty(),
    }
}

/// One overlay for each highlighted square, in the order given.
pub open spec fn highlight_ops(squares: Seq<Square>) -> Seq<DrawOp> {
    squares.map_values(|s: Square| DrawOp::Fill { area: cell_rect(s), paint: Paint::Highlight })
}

/// The sprites of the pieces on the first `n` cells in file-major order: one
/// for each occupied cell, none for an empty one.
pub open spec fn piece_ops(cells: Seq<Option<Piece>>, n: int) -> Seq<DrawOp>
    decreases n,
{
    if n <= 0 {
        Seq::empty()
    } else {
        let before = piece_ops(cells, n - 1);
        match cells[n - 1] {
            Some(piece) => before.push(
                DrawOp::Sprite { piece, area: cell_rect(Square::at_index(n - 1)) },
            ),
            None => before,
        }
    }
}

/// The whole frame.
pub open spec fn frame_ops(
    cells: Seq<Option<Piece>>,
    highlights: Seq<Square>,
    status: Option<StatusLine>,
) -> Seq<DrawOp> {
    seq![DrawOp::Clear { paint: Paint::Backdrop }] + tile_ops() + banner_ops(status)
        + highlight_ops(highlights) + piece_ops(cells, BOARD_CELLS as int)
}

/// An optional status text as contracts see it.
pub open spec fn line_of(status: Option<&StatusText>) -> Option<StatusLine> {
    match status {
        Some(s) => Some(s@),
        None => None,
    }
}

/// The status line for an engine state called `name`.
pub open spec fn caption(name: Seq<char>) -> Seq<char> {
    "Game is "@ + name + "."@
}

/// The status line to show, if any: none while the game is in progress,
/// otherwise the sentence that names the engine's state.
pub fn status_caption(state_name: &str, in_progress: bool) -> (out: Option<String>)
    ensures
        in_progress ==> out is None,
        !in_progress ==> out is Some && out->0@ == caption(state_name@),
{
    if in_progress {
        None
    } else {
        Some(String::from_str("Game is ").concat(state_name).concat("."))
    }
}

/// The colour of a square's tile.
pub fn tile_color(square: Square) -> (out: Paint)
    ensures
        out == tile_paint(square),
        out == Paint::LightTile <==> (square.file + square.rank) % 2 == 0,
        out == Paint::DarkTile <==> (square.file + square.rank) % 2 != 0,
{
    let sum: u16 = square.file as u16 + square.rank as u16;
    if sum % 2 == 0 {
        Paint::LightTile
    } else {
        Paint::DarkTile
    }
}

/// The cell of a square on the drawing surface.
pub fn cell_area(square: Square) -> (out: Rect)
    ensures
        out == cell_rect(square),
{
    let file: i64 = square.file as i64;
    let rank: i64 = square.rank as i64;
    Rect { x: file * CELL_SIZE, y: rank * CELL_SIZE, width: CELL_SIZE, height: CELL_SIZE }
}

/// Where something `extent` pixels long starts when centred on the surface.
pub fn centred_origin(extent: u32) -> (out: i64)
    ensures
        out == centred(extent as int),
{
    let slack: i64 = SURFACE_SIZE - extent as i64;
    if slack >= 0 {
        slack / 2
    } else {
        -((1 - slack) / 2)
    }
}

proof fn lemma_ops_push(commands: Seq<DrawCommand>, command: DrawCommand)
    ensures
        ops_of(commands.push(command)) == ops_of(commands).push(command@),
{
    assert(ops_of(commands.push(command)) =~= ops_of(commands).push(command@));
}

/// Appends the 64 tiles, row by row.
fn push_tiles(out: &mut Vec<DrawCommand>)
    ensures
        ops_of(final(out)@) == ops_of(old(out)@) + tile_ops(),
{
    let ghost before = ops_of(out@);
    let mut i: usize = 0;
    while i < BOARD_CELLS
        invariant
            i <= BOARD_CELLS,
            ops_of(out@) == before + tile_ops().take(i as int),
        decreases BOARD_CELLS - i,
    {
        let square = Square { file: (i % 8) as u8, rank: (i / 8) as u8 };
        let command = DrawCommand::Fill { area: cell_area(square), paint: tile_color(square) };
        proof {
            lemma_ops_push(out@, command);
            assert(square == tile_square(i as int));
            assert(command@ == tile_ops()[i as int]);
            assert((before + tile_ops().take(i as int)).push(command@) =~= before
                + tile_ops().take(i as int + 1));
        }
        out.push(command);
        i += 1;
    }
    proof {
        assert(tile_ops().take(BOARD_CELLS as int) =~= tile_ops());
    }
}

/// Appends the banner of a status line, if there is one.
fn push_banner(out: &mut Vec<DrawCommand>, status: Option<&StatusText>)
    ensures
        ops_of(final(out)@) == ops_of(old(out)@) + banner_ops(line_of(status)),
{
    match status {
        Some(s) => {
            let x: i64 = centred_origin(s.width);
            let y: i64 = centred_origin(s.height);
            let area = Rect {
                x: x - BANNER_PADDING,
                y,
                width: s.width as i64 + 2 * BANNER_PADDING,
                height: s.height as i64,
            };
            let fill = DrawCommand::Fill { area, paint: Paint::Banner };
            let label = DrawCommand::Label { text: s.text.clone(), x, y, paint: Paint::Ink };
            proof {
                lemma_ops_push(out@, fill);
                lemma_ops_push(out@.push(fill), label);
                assert(ops_of(out@).push(fill@).push(label@) =~= ops_of(out@) + banner_ops(
                    Some(s@),
                ));
            }
            out.push(fill);
            out.push(label);
        },
        None => {
            proof {
                assert(ops_of(out@) + banner_ops(None) =~= ops_of(out@));
            }
        },
    }
}

/// Appends one overlay for each highlighted square.
fn push_highlights(out: &mut Vec<DrawCommand>, highlights: &Vec<Square>)
    ensures
        ops_of(final(out)@) == ops_of(old(out)@) + highlight_ops(highlights@),
{
    let ghost before = ops_of(out@);
    let mut i: usize = 0;
    while i < highlights.len()
        invariant
            i <= highlights@.len(),
            ops_of(out@) == before + highlight_ops(highlights@).take(i as int),
        decreases highlights@.len() - i,
    {
        let command = DrawCommand::Fill { area: cell_area(highlights[i]), paint: Paint::Highlight };
        proof {
            lemma_ops_push(out@, command);
            assert(command@ == highlight_ops(highlights@)[i as int]);
            assert((before + highlight_ops(highlights@).take(i as int)).push(command@) =~= before
                + highlight_ops(highlights@).take(i as int + 1));
        }
        out.push(command);
        i += 1;
    }
    proof {
        assert(highlight_ops(highlights@).take(highlights@.len() as int) =~= highlight_ops(
            highlights@,
        ));
    }
}

/// Appends the sprite of every piece on the board.
fn push_pieces(out: &mut Vec<DrawCommand>, snapshot: &BoardSnapshot)
    requires
        snapshot.wf(),
    ensures
        ops_of(final(out)@) == ops_of(old(out)@) + piece_ops(snapshot@, BOARD_CELLS as int),
{
    let ghost before = ops_of(out@);
    let mut i: usize = 0;
    proof {
        assert(before + piece_ops(snapshot@, 0) =~= before);
    }
    while i < BOARD_CELLS
        invariant
            snapshot.wf(),
            i <= BOARD_CELLS,
            ops_of(out@) == before + piece_ops(snapshot@, i as int),
        decreases BOARD_CELLS - i,
    {
        let square = Square::from_index(i);
        match snapshot.piece_at(square) {
            Some(piece) => {
                let command = DrawCommand::Sprite { piece, area: cell_area(square) };
                proof {
                    lemma_ops_push(out@, command);
                    assert((before + piece_ops(snapshot@, i as int)).push(command@) =~= before
                        + piece_ops(snapshot@, i as int + 1));
                }
                out.push(command);
            },
            None => {},
        }
        i += 1;
    }
}

/// The drawing commands of one frame, in the order in which they are to be
/// carried out: the backdrop; the 64 tiles row by row; the banner with the
/// status line, if there is one; an overlay on each highlighted square; and
/// the sprite of each piece, file by file.
pub fn render(snapshot: &BoardSnapshot, highlights: &Vec<Square>, status: Option<&StatusText>) -> (out:
    Vec<DrawCommand>)
    requires
        snapshot.wf(),
    ensures
        ops_of(out@) == frame_ops(snapshot@, highlights@, line_of(status)),
{
    let mut out: Vec<DrawCommand> = Vec::new();
    let clear = DrawCommand::Clear { paint: Paint::Backdrop };
    proof {
        lemma_ops_push(out@, clear);
        assert(ops_of(out@).push(clear@) =~= seq![DrawOp::Clear { paint: Paint::Backdrop }]);
    }
    out.push(clear);
    push_tiles(&mut out);
    push_banner(&mut out, status);
    push_highlights(&mut out, highlights);
    push_pieces(&mut out, snapshot);
    out
}

} // verus!
