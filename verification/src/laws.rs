//! What holds of the machine and of the renderer whatever the input: each
//! statement here is proved from the definitions that the contracts use.

use vstd::prelude::*;
use crate::board::{square_at_pixel, Piece, Square, BOARD_CELLS, BOARD_SIDE, SURFACE_SIZE};
use crate::interaction::{
    destinations, distinct, highlight_set, is_first_to, lemma_distinct, move_to, react,
    EngineCall, EventView, Move, Selection,
};
use crate::render::{
    banner_ops, cell_rect, frame_ops, highlight_ops, ops_of, piece_ops, tile_ops, tile_paint,
    tile_square, DrawCommand, DrawOp, Paint, StatusLine,
};

verus! {

/// The cell of a square of the board lies on the surface, and the pixels
/// inside it are exactly those that a click maps to the square: what is
/// drawn on a square is what a click on it selects.
pub proof fn lemma_cell_holds_its_pixels(square: Square, x: int, y: int)
    requires
        square.on_board(),
    ensures
        ({
            let cell = cell_rect(square);
            &&& 0 <= cell.x && cell.x + cell.width <= SURFACE_SIZE
            &&& 0 <= cell.y && cell.y + cell.height <= SURFACE_SIZE
            &&& square_at_pixel(x, y) == Some(square) <==> {
                &&& cell.x <= x < cell.x + cell.width
                &&& cell.y <= y < cell.y + cell.height
            }
        }),
{
}

/// Every square of the board has its tile in every frame: the tile of the
/// square in file `f` and rank `r` is command `1 + 8 r + f`, it covers the
/// square's cell, and it is light exactly when `f + r` is even.
pub proof fn lemma_tile_of_square(
    cells: Seq<Option<Piece>>,
    highlights: Seq<Square>,
    status: Option<StatusLine>,
    square: Square,
)
    requires
        square.on_board(),
    ensures
        frame_ops(cells, highlights, status)[1 + square.rank * BOARD_SIDE + square.file]
            == (DrawOp::Fill { area: cell_rect(square), paint: tile_paint(square) }),
        tile_paint(square) == Paint::LightTile <==> (square.file + square.rank) % 2 == 0,
        tile_paint(square) == Paint::DarkTile <==> (square.file + square.rank) % 2 == 1,
{
    let i: int = square.rank * BOARD_SIDE + square.file;
    assert(0 <= i < BOARD_CELLS);
    assert(tile_square(i) == square);
    assert(tile_ops()[i] == (DrawOp::Fill { area: cell_rect(square), paint: tile_paint(square) }));
}

/// A frame begins with the backdrop and the 64 tiles; the banner, the
/// highlights and the sprites follow in this order, so that a sprite is
/// never painted over.
pub proof fn lemma_frame_layers(
    cells: Seq<Option<Piece>>,
    highlights: Seq<Square>,
    status: Option<StatusLine>,
)
    ensures
        ({
            let frame = frame_ops(cells, highlights, status);
            let banner = banner_ops(status);
            let sprites = piece_ops(cells, BOARD_CELLS as int);
            let tiles_end = 1 + BOARD_CELLS;
            let banner_end = tiles_end + banner.len();
            let highlights_end = banner_end + highlights.len();
            &&& frame.len() == highlights_end + sprites.len()
            &&& frame[0] == (DrawOp::Clear { paint: Paint::Backdrop })
            &&& frame.subrange(1, tiles_end) == tile_ops()
            &&& frame.subrange(tiles_end, banner_end) == banner
            &&& frame.subrange(banner_end, highlights_end) == highlight_ops(highlights)
            &&& frame.subrange(highlights_end, frame.len() as int) == sprites
            &&& banner.len() == if status is Some {
                2nat
            } else {
                0nat
            }
        }),
{
    let frame = frame_ops(cells, highlights, status);
    let banner = banner_ops(status);
    let sprites = piece_ops(cells, BOARD_CELLS as int);
    let tiles_end = 1 + BOARD_CELLS;
    let banner_end = tiles_end + banner.len();
    let highlights_end = banner_end + highlights.len();
    assert(frame.subrange(1, tiles_end) =~= tile_ops());
    assert(frame.subrange(tiles_end, banner_end) =~= banner);
    assert(frame.subrange(banner_end, highlights_end) =~= highlight_ops(highlights));
    assert(frame.subrange(highlights_end, frame.len() as int) =~= sprites);
}

/// The sprites are those of the occupied squares and no others: a sprite is
/// drawn exactly where the snapshot holds a piece, it shows that piece, and
/// it fills the square's cell.
pub proof fn lemma_sprites_are_the_pieces(cells: Seq<Option<Piece>>, n: int, op: DrawOp)
    requires
        0 <= n <= cells.len(),
    ensures
        piece_ops(cells, n).contains(op) <==> exists|i: int|
            0 <= i < n && cells[i] is Some && op == (DrawOp::Sprite {
                piece: (#[trigger] cells[i])->0,
                area: cell_rect(Square::at_index(i)),
            }),
        piece_ops(cells, n).len() <= n,
    decreases n,
{
    if n > 0 {
        lemma_sprites_are_the_pieces(cells, n - 1, op);
        let before = piece_ops(cells, n - 1);
        let all = piece_ops(cells, n);
        let here = DrawOp::Sprite {
            piece: cells[n - 1]->0,
            area: cell_rect(Square::at_index(n - 1)),
        };
        if all.contains(op) {
            let k = choose|k: int| 0 <= k < all.len() && all[k] == op;
            if k < before.len() {
                assert(before[k] == op);
                assert(before.contains(op));
            } else {
                assert(cells[n - 1] is Some && op == here);
            }
        }
        if exists|i: int|
            0 <= i < n && cells[i] is Some && op == (DrawOp::Sprite {
                piece: (#[trigger] cells[i])->0,
                area: cell_rect(Square::at_index(i)),
            }) {
            let i = choose|i: int|
                0 <= i < n && cells[i] is Some && op == (DrawOp::Sprite {
                    piece: (#[trigger] cells[i])->0,
                    area: cell_rect(Square::at_index(i)),
                });
            if i < n - 1 {
                assert(before.contains(op));
                let k = choose|k: int| 0 <= k < before.len() && before[k] == op;
                assert(all[k] == op);
            } else {
                assert(all[before.len() as int] == op);
            }
        }
    }
}

/// While a piece is selected, the frame marks each square on which one of
/// the moves on offer ends with exactly one overlay over its cell, and marks
/// no other square.
pub proof fn lemma_one_overlay_per_destination(moves: Seq<Move>, square: Square)
    ensures
        ({
            let overlays = highlight_ops(distinct(destinations(moves)));
            let overlay = DrawOp::Fill { area: cell_rect(square), paint: Paint::Highlight };
            &&& overlays.no_duplicates()
            &&& overlays.contains(overlay) <==> exists|i: int|
                0 <= i < moves.len() && (#[trigger] moves[i]).to == square
        }),
{
    let all = destinations(moves);
    let marked = distinct(all);
    let overlays = highlight_ops(marked);
    let overlay = DrawOp::Fill { area: cell_rect(square), paint: Paint::Highlight };
    lemma_distinct(all);
    assert forall|a: Square, b: Square| cell_rect(a) == cell_rect(b) implies a == b by {
        assert(cell_rect(a).x == cell_rect(b).x);
        assert(cell_rect(a).y == cell_rect(b).y);
    }
    assert forall|i: int, j: int|
        0 <= i < overlays.len() && 0 <= j < overlays.len() && i != j implies overlays[i]
        != overlays[j] by {
        assert(marked[i] != marked[j]);
    }
    if overlays.contains(overlay) {
        let k = choose|k: int| 0 <= k < overlays.len() && overlays[k] == overlay;
        assert(marked[k] == square);
        assert(marked.contains(square));
        assert(all.contains(square));
        let i = choose|i: int| 0 <= i < all.len() && all[i] == square;
        assert(moves[i].to == square);
    }
    if exists|i: int| 0 <= i < moves.len() && (#[trigger] moves[i]).to == square {
        let i = choose|i: int| 0 <= i < moves.len() && (#[trigger] moves[i]).to == square;
        assert(all[i] == square);
        assert(all.contains(square));
        assert(marked.contains(square));
        let k = choose|k: int| 0 <= k < marked.len() && marked[k] == square;
        assert(overlays[k] == overlay);
    }
}

/// Drawing the same position, highlights and status line twice gives the
/// same commands in the same order.
pub proof fn lemma_render_repeatable(
    first: Seq<DrawCommand>,
    second: Seq<DrawCommand>,
    cells: Seq<Option<Piece>>,
    highlights: Seq<Square>,
    status: Option<StatusLine>,
)
    requires
        ops_of(first) == frame_ops(cells, highlights, status),
        ops_of(second) == frame_ops(cells, highlights, status),
    ensures
        ops_of(first) == ops_of(second),
        first.len() == second.len(),
        forall|i: int| 0 <= i < first.len() ==> (#[trigger] first[i])@ == second[i]@,
{
    assert(ops_of(first).len() == first.len());
    assert(ops_of(second).len() == second.len());
    assert forall|i: int| 0 <= i < first.len() implies (#[trigger] first[i])@ == second[i]@ by {
        assert(ops_of(first)[i] == first[i]@);
        assert(ops_of(second)[i] == second[i]@);
    }
}

/// Where some move ends on a square, one of them is the first to do so.
pub proof fn lemma_first_move_exists(moves: Seq<Move>, square: Square, i: int)
    requires
        0 <= i < moves.len(),
        moves[i].to == square,
    ensures
        exists|k: int| 0 <= k <= i && is_first_to(moves, square, k),
        move_to(moves, square) is Some,
        move_to(moves, square)->0.to == square,
        moves.contains(move_to(moves, square)->0),
    decreases i,
{
    if exists|j: int| 0 <= j < i && (#[trigger] moves[j]).to == square {
        let j = choose|j: int| 0 <= j < i && (#[trigger] moves[j]).to == square;
        lemma_first_move_exists(moves, square, j);
    } else {
        assert(is_first_to(moves, square, i));
    }
    let k = choose|k: int| is_first_to(moves, square, k);
    assert(moves[k] == move_to(moves, square)->0);
}

/// Every state that an event leads to is well formed: the machine never
/// waits for a destination with no move on offer.
pub proof fn lemma_next_state_is_well_formed(state: Selection, event: EventView)
    ensures
        react(state, event).next.wf(),
{
}

/// While nothing is selected, a click on a square asks the engine for the
/// moves from it; where the engine refuses or has no move, nothing is
/// selected afterwards, nothing is highlighted, and the reason is logged.
pub proof fn lemma_click_without_moves(x: int, y: int, square: Square, answer: Option<Seq<Move>>)
    requires
        square_at_pixel(x, y) == Some(square),
        answer is None || answer->0.len() == 0,
    ensures
        ({
            let asked = react(Selection::Idle, EventView::Click { x, y });
            let told = react(asked.next, EventView::MovesAnswered { square, moves: answer });
            &&& asked.next == Selection::Idle
            &&& asked.calls == seq![EngineCall::MovesFrom { square }]
            &&& told.next == Selection::Idle
            &&& told.calls == Seq::<EngineCall>::empty()
            &&& told.diagnostic is Some
            &&& highlight_set(told.next) == Set::<Square>::empty()
        }),
{
}

/// While nothing is selected, a click on a square from which the engine
/// offers moves selects it: the machine then waits for a destination with
/// exactly those moves, and the highlighted squares are exactly the squares
/// on which one of them ends.
pub proof fn lemma_click_with_moves(x: int, y: int, square: Square, answer: Seq<Move>)
    requires
        square_at_pixel(x, y) == Some(square),
        answer.len() > 0,
    ensures
        ({
            let asked = react(Selection::Idle, EventView::Click { x, y });
            let told = react(asked.next, EventView::MovesAnswered { square, moves: Some(answer) });
            &&& asked.calls == seq![EngineCall::MovesFrom { square }]
            &&& told.next == (Selection::AwaitingTarget { origin: square, legal_moves: answer })
            &&& told.calls == Seq::<EngineCall>::empty()
            &&& told.diagnostic is None
            &&& highlight_set(told.next) == destinations(answer).to_set()
            &&& forall|s: Square|
                highlight_set(told.next).contains(s) <==> exists|i: int|
                    0 <= i < answer.len() && (#[trigger] answer[i]).to == s
        }),
{
    let dests = destinations(answer);
    assert forall|s: Square|
        dests.to_set().contains(s) <==> exists|i: int|
            0 <= i < answer.len() && (#[trigger] answer[i]).to == s by {
        if dests.to_set().contains(s) {
            let k = choose|k: int| 0 <= k < dests.len() && dests[k] == s;
            assert(answer[k].to == s);
        }
        if exists|i: int| 0 <= i < answer.len() && (#[trigger] answer[i]).to == s {
            let i = choose|i: int| 0 <= i < answer.len() && (#[trigger] answer[i]).to == s;
            assert(dests[i] == s);
        }
    }
}

/// While a piece is selected, a click on a square on which one of the moves
/// on offer ends plays exactly one move, one of those on offer that ends on
/// that square, then advances the round exactly once, and leaves nothing
/// selected.
pub proof fn lemma_click_on_destination(
    origin: Square,
    moves: Seq<Move>,
    x: int,
    y: int,
    square: Square,
    i: int,
)
    requires
        square_at_pixel(x, y) == Some(square),
        0 <= i < moves.len(),
        moves[i].to == square,
    ensures
        ({
            let state = Selection::AwaitingTarget { origin, legal_moves: moves };
            let out = react(state, EventView::Click { x, y });
            &&& out.next == Selection::Idle
            &&& highlight_set(out.next) == Set::<Square>::empty()
            &&& out.calls.len() == 2
            &&& out.calls[0] is Apply
            &&& out.calls[0]->action.to == square
            &&& moves.contains(out.calls[0]->action)
            &&& out.calls[0] == (EngineCall::Apply { action: move_to(moves, square)->0 })
            &&& out.calls[1] == EngineCall::AdvanceRound
        }),
{
    lemma_first_move_exists(moves, square, i);
}

/// While a piece is selected, a click off the board, or on a square on which
/// none of the moves on offer ends, only drops the selection: no engine
/// operation is asked for, so the position stays as it is.
pub proof fn lemma_click_elsewhere(origin: Square, moves: Seq<Move>, x: int, y: int)
    requires
        square_at_pixel(x, y) is None || forall|i: int|
            0 <= i < moves.len() ==> (#[trigger] moves[i]).to != square_at_pixel(x, y)->0,
    ensures
        ({
            let state = Selection::AwaitingTarget { origin, legal_moves: moves };
            let out = react(state, EventView::Click { x, y });
            &&& out.next == Selection::Idle
            &&& out.calls == Seq::<EngineCall>::empty()
            &&& out.diagnostic is None
            &&& highlight_set(out.next) == Set::<Square>::empty()
        }),
{
    match square_at_pixel(x, y) {
        Some(square) => {
            assert forall|k: int| !is_first_to(moves, square, k) by {
                if 0 <= k < moves.len() {
                    assert(moves[k].to != square);
                }
            }
        },
        None => {},
    }
}

/// A click off the board never asks the engine for anything and leaves
/// nothing selected, whatever the state was.
pub proof fn lemma_click_off_board(state: Selection, x: int, y: int)
    requires
        square_at_pixel(x, y) is None,
    ensures
        react(state, EventView::Click { x, y }).next == Selection::Idle,
        react(state, EventView::Click { x, y }).calls == Seq::<EngineCall>::empty(),
{
}

/// A reset, from whatever state, leaves nothing selected and nothing
/// highlighted, and asks for a fresh game with one round advanced.
pub proof fn lemma_reset(state: Selection)
    ensures
        ({
            let out = react(state, EventView::Reset);
            &&& out.next == Selection::Idle
            &&& highlight_set(out.next) == Set::<Square>::empty()
            &&& out.calls == seq![EngineCall::NewGame { acting: None }, EngineCall::AdvanceRound]
            &&& out.diagnostic is None
        }),
{
}

} // verus!
