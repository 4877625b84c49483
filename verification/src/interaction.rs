//! The selection state machine: a click picks a piece, a second click picks
//! where it goes.
//!
//! The machine never talks to the chess engine. Each event yields the next
//! state together with the engine operations that the embedding program is to
//! carry out, in order; a query's answer comes back as an event of its own.

use vstd::prelude::*;
use crate::board::{Side, Square};

verus! {

/// A move the engine offers. The machine reads the two squares; `token` is for
/// the embedding program, to find the engine's own value again.
#[derive(Clone, Copy, Debug, PartialEq, Eq, Hash, Structural)]
pub struct Move {
    pub from: Square,
    pub to: Square,
    pub token: usize,
}

/// An operation of the chess engine that the machine asks for.
#[derive(Clone, Copy, Debug, PartialEq, Eq, Hash, Structural)]
pub enum EngineCall {
    /// Replace the game by a fresh one. Where `acting` is given, that side is
    /// set as the acting one before the first round is advanced.
    NewGame { acting: Option<Side> },
    /// Ask for the legal moves of the piece on a square; the answer returns
    /// as `Event::MovesAnswered`.
    MovesFrom { square: Square },
    /// Play a move that an earlier answer offered.
    Apply { action: Move },
    /// Hand the turn on.
    AdvanceRound,
}

/// Why a click selected nothing.
#[derive(Clone, Copy, Debug, PartialEq, Eq, Hash, Structural)]
pub enum Diagnostic {
    /// The engine refused the query: no piece there, or not one of the side
    /// to move.
    QueryRejected { square: Square },
    /// The engine answered with no move at all.
    NoLegalMoves { square: Square },
}

/// What the machine reacts to.
#[derive(Clone, Debug, PartialEq, Eq)]
pub enum Event {
    /// The primary button was released over pixel `(x, y)`.
    Click { x: i64, y: i64 },
    /// The engine answered a query for the moves from `square`: with the
    /// moves, or with `None` where it refused.
    MovesAnswered { square: Square, moves: Option<Vec<Move>> },
    /// The player asked for a new game.
    Reset,
}

/// An event as contracts see it.
pub enum EventView {
    Click { x: int, y: int },
    MovesAnswered { square: Square, moves: Option<Seq<Move>> },
    Reset,
}

impl View for Event {
    type V = EventView;

    open spec fn view(&self) -> EventView {
        match *self {
            Event::Click { x, y } => EventView::Click { x: x as int, y: y as int },
            Event::MovesAnswered { square, moves } => EventView::MovesAnswered {
                square,
                moves: match moves {
                    Some(list) => Some(list@),
                    None => None,
                },
            },
            Event::Reset => EventView::Reset,
        }
    }
}

/// The whole mutable state of the interaction: nothing is selected, or a
/// piece is and the machine waits for its destination.
#[derive(Clone, Debug, PartialEq, Eq)]
pub enum SelectionState {
    Idle,
    AwaitingTarget { origin: Square, legal_moves: Vec<Move> },
}

/// A selection state as contracts see it.
pub enum Selection {
    Idle,
    AwaitingTarget { origin: Square, legal_moves: Seq<Move> },
}

impl View for SelectionState {
    type V = Selection;

    open spec fn view(&self) -> Selection {
        match *self {
            SelectionState::Idle => Selection::Idle,
            SelectionState::AwaitingTarget { origin, legal_moves } => Selection::AwaitingTarget {
                origin,
                legal_moves: legal_moves@,
            },
        }
    }
}

impl Selection {
    /// A selection always has at least one move to choose from.
    pub open spec fn wf(self) -> bool {
        match self {
            Selection::Idle => true,
            Selection::AwaitingTarget { legal_moves, .. } => legal_moves.len() > 0,
        }
    }
}

/// What an event leads to, as contracts see it.
pub struct Outcome {
    pub next: Selection,
    pub calls: Seq<EngineCall>,
    pub diagnostic: Option<Diagnostic>,
}

/// The engine operations and the diagnostic that an event gave rise to.
#[derive(Clone, Debug, PartialEq, Eq)]
pub struct Reaction {
    /// To be carried out in this order.
    pub calls: Vec<EngineCall>,
    /// To be logged; never shown to the player as an error.
    pub diagnostic: Option<Diagnostic>,
}

/// The destinations of a list of moves, one for each move.
pub open spec fn destinations(moves: Seq<Move>) -> Seq<Square> {
    moves.map_values(|m: Move| m.to)
}

/// `i` is the position of the first move that ends on `square`.
pub open spec fn is_first_to(moves: Seq<Move>, square: Square, i: int) -> bool {
    &&& 0 <= i < moves.len()
    &&& moves[i].to == square
    &&& forall|j: int| 0 <= j < i ==> (#[trigger] moves[j]).to != square
}

/// The move that a click on `square` picks: the first that ends there.
pub open spec fn move_to(moves: Seq<Move>, square: Square) -> Option<Move> {
    if exists|i: int| is_first_to(moves, square, i) {
        Some(moves[choose|i: int| is_first_to(moves, square, i)])
    } else {
        None
    }
}

/// The squares of a list without repetitions, each at its first occurrence.
pub open spec fn distinct(squares: Seq<Square>) -> Seq<Square>
    decreases squares.len(),
{
    if squares.len() == 0 {
        Seq::empty()
    } else {
        let before = distinct(squares.drop_last());
        if before.contains(squares.last()) {
            before
        } else {
            before.push(squares.last())
        }
    }
}

/// The squares to highlight: the destinations of the moves on offer.
pub open spec fn highlight_set(state: Selection) -> Set<Square> {
    match state {
        Selection::Idle => Set::empty(),
        Selection::AwaitingTarget { legal_moves, .. } => destinations(legal_moves).to_set(),
    }
}

/// The machine's reaction to a click that fell on `target`, or off the board.
pub open spec fn on_click(state: Selection, target: Option<Square>) -> Outcome {
    let calls = match (state, target) {
        (Selection::Idle, Some(square)) => seq![EngineCall::MovesFrom { square }],
        (Selection::AwaitingTarget { legal_moves, .. }, Some(square)) => match move_to(
            legal_moves,
            square,
        ) {
            Some(action) => seq![EngineCall::Apply { action }, EngineCall::AdvanceRound],
            None => Seq::empty(),
        },
        (_, None) => Seq::empty(),
    };
    Outcome { next: Selection::Idle, calls, diagnostic: None }
}

/// The machine's reaction to the engine's answer to a query.
pub open spec fn on_answer(square: Square, moves: Option<Seq<Move>>) -> Outcome {
    match moves {
        Some(list) => if list.len() > 0 {
            Outcome {
                next: Selection::AwaitingTarget { origin: square, legal_moves: list },
                calls: Seq::empty(),
                diagnostic: None,
            }
        } else {
            Outcome {
                next: Selection::Idle,
                calls: Seq::empty(),
                diagnostic: Some(Diagnostic::NoLegalMoves { square }),
            }
        },
        None => Outcome {
            next: Selection::Idle,
            calls: Seq::empty(),
            diagnostic: Some(Diagnostic::QueryRejected { square }),
        },
    }
}

/// The machine's reaction to a request for a new game.
pub open spec fn on_reset() -> Outcome {
    Outcome {
        next: Selection::Idle,
        calls: seq![EngineCall::NewGame { acting: None }, EngineCall::AdvanceRound],
        diagnostic: None,
    }
}

/// The transition function of the machine.
pub open spec fn react(state: Selection, event: EventView) -> Outcome {
    match event {
        EventView::Click { x, y } => on_click(state, crate::board::square_at_pixel(x, y)),
        EventView::MovesAnswered { square, moves } => on_answer(square, moves),
        EventView::Reset => on_reset(),
    }
}

/// The engine operations with which the program begins: a fresh game in
/// which the dark side is set as acting, and one round advanced.
pub open spec fn opening_calls() -> Seq<EngineCall> {
    seq![EngineCall::NewGame { acting: Some(Side::Dark) }, EngineCall::AdvanceRound]
}

/// The position of the first move that ends on `square`, if there is one.
pub fn find_move(moves: &Vec<Move>, square: Square) -> (out: Option<usize>)
    ensures
        match out {
            Some(i) => is_first_to(moves@, square, i as int),
            None => forall|j: int| 0 <= j < moves@.len() ==> (#[trigger] moves@[j]).to != square,
        },
        match out {
            Some(i) => move_to(moves@, square) == Some(moves@[i as int]),
            None => move_to(moves@, square) is None,
        },
{
    let mut i: usize = 0;
    while i < moves.len()
        invariant
            i <= moves@.len(),
            forall|j: int| 0 <= j < i ==> (#[trigger] moves@[j]).to != square,
        decreases moves@.len() - i,
    {
        if moves[i].to == square {
            proof {
                assert(is_first_to(moves@, square, i as int));
                let k = choose|k: int| is_first_to(moves@, square, k);
                assert(k == i) by {
                    if k < i {
                        assert(moves@[k].to != square);
                    }
                    if i < k {
                        assert(moves@[i as int].to != square);
                    }
                }
            }
            return Some(i);
        }
        i += 1;
    }
    proof {
        assert forall|k: int| !is_first_to(moves@, square, k) by {
            if 0 <= k < moves@.len() {
                assert(moves@[k].to != square);
            }
        }
    }
    None
}

/// Whether a square occurs in a list.
pub fn contains_square(squares: &Vec<Square>, square: Square) -> (out: bool)
    ensures
        out == squares@.contains(square),
{
    let mut i: usize = 0;
    while i < squares.len()
        invariant
            i <= squares@.len(),
            forall|j: int| 0 <= j < i ==> squares@[j] != square,
        decreases squares@.len() - i,
    {
        if squares[i] == square {
            return true;
        }
        i += 1;
    }
    false
}

/// `distinct` keeps every square of the list, adds none and repeats none.
pub proof fn lemma_distinct(squares: Seq<Square>)
    ensures
        distinct(squares).no_duplicates(),
        distinct(squares).to_set() == squares.to_set(),
        forall|s: Square| distinct(squares).contains(s) <==> squares.contains(s),
    decreases squares.len(),
{
    let out = distinct(squares);
    if squares.len() > 0 {
        let init = squares.drop_last();
        let last = squares.last();
        let before = distinct(init);
        lemma_distinct(init);
        assert(squares[squares.len() - 1] == last);
        assert forall|s: Square| out.contains(s) <==> squares.contains(s) by {
            assert(before.contains(s) <==> init.contains(s));
            if init.contains(s) {
                let k = choose|k: int| 0 <= k < init.len() && init[k] == s;
                assert(squares[k] == s);
            }
            if squares.contains(s) && s != last {
                let k = choose|k: int| 0 <= k < squares.len() && squares[k] == s;
                assert(init[k] == s);
            }
            if !before.contains(last) {
                assert(out == before.push(last));
                assert(out[before.len() as int] == last);
                if before.contains(s) {
                    let m = choose|m: int| 0 <= m < before.len() && before[m] == s;
                    assert(out[m] == s);
                }
                if out.contains(s) {
                    let k = choose|k: int| 0 <= k < out.len() && out[k] == s;
                    if k < before.len() {
                        assert(before[k] == s);
                    }
                }
            }
        }
        if !before.contains(last) {
            assert forall|i: int, j: int| 0 <= i < out.len() && 0 <= j < out.len() && i != j implies out[i]
                != out[j] by {
                if i < before.len() {
                    assert(before[i] == out[i]);
                }
                if j < before.len() {
                    assert(before[j] == out[j]);
                }
            }
        }
    }
    assert(out.to_set() =~= squares.to_set());
}

impl SelectionState {
    /// A selection always has at least one move to choose from.
    pub open spec fn wf(&self) -> bool {
        self@.wf()
    }

    /// The state in which the program starts: nothing selected.
    pub fn new() -> (out: SelectionState)
        ensures
            out@ == Selection::Idle,
            out.wf(),
    {
        SelectionState::Idle
    }

    /// Whether nothing is selected.
    pub fn is_idle(&self) -> (out: bool)
        ensures
            out == (self@ == Selection::Idle),
    {
        match self {
            SelectionState::Idle => true,
            SelectionState::AwaitingTarget { .. } => false,
        }
    }

    /// The engine operations with which the program begins.
    pub fn startup() -> (out: Vec<EngineCall>)
        ensures
            out@ == opening_calls(),
    {
        let mut calls: Vec<EngineCall> = Vec::new();
        calls.push(EngineCall::NewGame { acting: Some(Side::Dark) });
        calls.push(EngineCall::AdvanceRound);
        proof {
            assert(calls@ =~= opening_calls());
        }
        calls
    }

    /// The squares to highlight: the destinations of the moves on offer, each
    /// once, in the order in which the moves first reach them. None while
    /// nothing is selected.
    pub fn highlights(&self) -> (out: Vec<Square>)
        ensures
            out@ == match self@ {
                Selection::Idle => Seq::<Square>::empty(),
                Selection::AwaitingTarget { legal_moves, .. } => distinct(destinations(legal_moves)),
            },
            out@.no_duplicates(),
            out@.to_set() == highlight_set(self@),
    {
        let mut out: Vec<Square> = Vec::new();
        match self {
            SelectionState::Idle => {
                proof {
                    assert(out@.to_set() =~= Set::<Square>::empty());
                }
            },
            SelectionState::AwaitingTarget { legal_moves, .. } => {
                let ghost all = destinations(legal_moves@);
                let mut i: usize = 0;
                while i < legal_moves.len()
                    invariant
                        i <= legal_moves@.len(),
                        all == destinations(legal_moves@),
                        out@ == distinct(all.take(i as int)),
                    decreases legal_moves@.len() - i,
                {
                    let to = legal_moves[i].to;
                    proof {
                        let upto = all.take(i as int + 1);
                        assert(upto.drop_last() =~= all.take(i as int));
                        assert(upto.last() == to);
                    }
                    if !contains_square(&out, to) {
                        out.push(to);
                    }
                    i += 1;
                }
                proof {
                    assert(all.take(legal_moves@.len() as int) =~= all);
                    lemma_distinct(all);
                }
            },
        }
        out
    }

    /// Takes one event: moves to the next state and says which engine
    /// operations are to be carried out, and what is to be logged.
    ///
    /// A click always ends in `Idle`. While nothing is selected, a click on
    /// the board asks the engine for the moves from the square under it.
    /// While a piece is selected, a click on a destination on offer plays the
    /// first move that ends there and advances the round once; any other
    /// click only drops the selection. An answer with at least one move
    /// selects; an empty answer or a refusal leaves nothing selected and is
    /// logged. A reset starts a fresh game.
    pub fn handle(&mut self, event: Event) -> (out: Reaction)
        ensures
            final(self)@ == react(old(self)@, event@).next,
            out.calls@ == react(old(self)@, event@).calls,
            out.diagnostic == react(old(self)@, event@).diagnostic,
            final(self).wf(),
    {
        match event {
            Event::Click { x, y } => {
                let calls = click_calls(self, Square::from_pixel(x, y));
                *self = SelectionState::Idle;
                Reaction { calls, diagnostic: None }
            },
            Event::MovesAnswered { square, moves } => {
                let (next, diagnostic) = selection_of(square, moves);
                *self = next;
                Reaction { calls: Vec::new(), diagnostic }
            },
            Event::Reset => {
                let mut calls: Vec<EngineCall> = Vec::new();
                calls.push(EngineCall::NewGame { acting: None });
                calls.push(EngineCall::AdvanceRound);
                proof {
                    assert(calls@ =~= on_reset().calls);
                }
                *self = SelectionState::Idle;
                Reaction { calls, diagnostic: None }
            },
        }
    }
}

/// The engine operations that a click gives rise to.
pub fn click_calls(state: &SelectionState, target: Option<Square>) -> (out: Vec<EngineCall>)
    ensures
        out@ == on_click(state@, target).calls,
{
    let mut calls: Vec<EngineCall> = Vec::new();
    match target {
        Some(square) => match state {
            SelectionState::Idle => {
                calls.push(EngineCall::MovesFrom { square });
                proof {
                    assert(calls@ =~= seq![EngineCall::MovesFrom { square }]);
                }
            },
            SelectionState::AwaitingTarget { legal_moves, .. } => {
                match find_move(legal_moves, square) {
                    Some(i) => {
                        let action = legal_moves[i];
                        calls.push(EngineCall::Apply { action });
                        calls.push(EngineCall::AdvanceRound);
                        proof {
                            assert(calls@ =~= seq![
                                EngineCall::Apply { action },
                                EngineCall::AdvanceRound,
                            ]);
                        }
                    },
                    None => {},
                }
            },
        },
        None => {},
    }
    calls
}

/// The state that the engine's answer to a query leads to, and what is to be
/// logged where it selects nothing.
pub fn selection_of(square: Square, moves: Option<Vec<Move>>) -> (out: (
    SelectionState,
    Option<Diagnostic>,
))
    ensures
        out.0@ == on_answer(
            square,
            match moves {
                Some(list) => Some(list@),
                None => None,
            },
        ).next,
        out.1 == on_answer(
            square,
            match moves {
                Some(list) => Some(list@),
                None => None,
            },
        ).diagnostic,
        out.0.wf(),
        out.0@ is Idle <==> out.1 is Some,
{
    match moves {
        Some(list) => {
            if list.len() > 0 {
                (SelectionState::AwaitingTarget { origin: square, legal_moves: list }, None)
            } else {
                (SelectionState::Idle, Some(Diagnostic::NoLegalMoves { square }))
            }
        },
        None => (SelectionState::Idle, Some(Diagnostic::QueryRejected { square })),
    }
}

} // verus!
