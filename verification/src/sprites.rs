//! The sprite catalogue: the twelve pictures of the pieces, where they are
//! kept on disk and how one is found again.

use vstd::prelude::*;
use vstd::string::*;
use crate::board::{Piece, PieceKind, Side};

verus! {

/// Number of sprites: six kinds in two colours.
pub const SPRITE_COUNT: usize = 12;

/// Number of kinds of piece.
pub const KIND_COUNT: usize = 6;

/// The word for a side in a file name.
pub open spec fn side_word(side: Side) -> Seq<char> {
    match side {
        Side::Dark => "black"@,
        Side::Light => "white"@,
    }
}

/// The word for a kind of piece in a file name.
pub open spec fn kind_word(kind: PieceKind) -> Seq<char> {
    match kind {
        PieceKind::King => "king"@,
        PieceKind::Queen => "queen"@,
        PieceKind::Rook => "rook"@,
        PieceKind::Pawn => "pawn"@,
        PieceKind::Bishop => "bishop"@,
        PieceKind::Knight => "knight"@,
    }
}

/// Where the picture of a piece is kept, relative to the asset directory:
/// the side, an underscore, the kind, and the extension.
pub open spec fn asset_path(piece: Piece) -> Seq<char> {
    "/"@ + side_word(piece.side) + "_"@ + kind_word(piece.kind) + ".png"@
}

/// The place of a kind among the six of one side.
pub open spec fn kind_slot(kind: PieceKind) -> int {
    match kind {
        PieceKind::King => 0,
        PieceKind::Queen => 1,
        PieceKind::Rook => 2,
        PieceKind::Pawn => 3,
        PieceKind::Bishop => 4,
        PieceKind::Knight => 5,
    }
}

/// The place of a piece in the catalogue: the dark pieces first.
pub open spec fn slot_of(piece: Piece) -> int {
    match piece.side {
        Side::Dark => kind_slot(piece.kind),
        Side::Light => KIND_COUNT + kind_slot(piece.kind),
    }
}

/// The piece whose picture stands at a place of the catalogue.
pub open spec fn piece_in_slot(slot: int) -> Piece {
    let within = if slot < KIND_COUNT {
        slot
    } else {
        slot - KIND_COUNT
    };
    Piece {
        side: if slot < KIND_COUNT {
            Side::Dark
        } else {
            Side::Light
        },
        kind: if within == 0 {
            PieceKind::King
        } else if within == 1 {
            PieceKind::Queen
        } else if within == 2 {
            PieceKind::Rook
        } else if within == 3 {
            PieceKind::Pawn
        } else if within == 4 {
            PieceKind::Bishop
        } else {
            PieceKind::Knight
        },
    }
}

/// Every piece has a place of its own among the twelve, and every place
/// holds a piece.
pub proof fn lemma_slots_match(piece: Piece, slot: int)
    ensures
        0 <= slot_of(piece) < SPRITE_COUNT,
        piece_in_slot(slot_of(piece)) == piece,
        0 <= slot < SPRITE_COUNT ==> slot_of(piece_in_slot(slot)) == slot,
{
}

/// The place of a piece in the catalogue.
pub fn sprite_slot(piece: Piece) -> (out: usize)
    ensures
        out == slot_of(piece),
        out < SPRITE_COUNT,
        piece_in_slot(out as int) == piece,
{
    let within: usize = match piece.kind {
        PieceKind::King => 0,
        PieceKind::Queen => 1,
        PieceKind::Rook => 2,
        PieceKind::Pawn => 3,
        PieceKind::Bishop => 4,
        PieceKind::Knight => 5,
    };
    match piece.side {
        Side::Dark => within,
        Side::Light => KIND_COUNT + within,
    }
}

/// The piece whose picture stands at a place of the catalogue.
pub fn slot_piece(slot: usize) -> (out: Piece)
    requires
        slot < SPRITE_COUNT,
    ensures
        out == piece_in_slot(slot as int),
        slot_of(out) == slot,
{
    let side = if slot < KIND_COUNT {
        Side::Dark
    } else {
        Side::Light
    };
    let within: usize = if slot < KIND_COUNT {
        slot
    } else {
        slot - KIND_COUNT
    };
    let kind = if within == 0 {
        PieceKind::King
    } else if within == 1 {
        PieceKind::Queen
    } else if within == 2 {
        PieceKind::Rook
    } else if within == 3 {
        PieceKind::Pawn
    } else if within == 4 {
        PieceKind::Bishop
    } else {
        PieceKind::Knight
    };
    Piece { side, kind }
}

/// Where the picture of a piece is kept, relative to the asset directory.
pub fn sprite_path(piece: Piece) -> (out: String)
    ensures
        out@ == asset_path(piece),
{
    let side: &str = match piece.side {
        Side::Dark => "black",
        Side::Light => "white",
    };
    let kind: &str = match piece.kind {
        PieceKind::King => "king",
        PieceKind::Queen => "queen",
        PieceKind::Rook => "rook",
        PieceKind::Pawn => "pawn",
        PieceKind::Bishop => "bishop",
        PieceKind::Knight => "knight",
    };
    String::from_str("/").concat(side).concat("_").concat(kind).concat(".png")
}

/// The twelve pieces in catalogue order, each with the path of its picture.
pub fn load_sprites() -> (out: Vec<(Piece, String)>)
    ensures
        out@.len() == SPRITE_COUNT,
        forall|i: int|
            0 <= i < SPRITE_COUNT ==> (#[trigger] out@[i]).0 == piece_in_slot(i) && out@[i].1@
                == asset_path(piece_in_slot(i)),
{
    let mut out: Vec<(Piece, String)> = Vec::new();
    let mut slot: usize = 0;
    while slot < SPRITE_COUNT
        invariant
            slot <= SPRITE_COUNT,
            out@.len() == slot,
            forall|i: int|
                0 <= i < slot ==> (#[trigger] out@[i]).0 == piece_in_slot(i) && out@[i].1@
                    == asset_path(piece_in_slot(i)),
        decreases SPRITE_COUNT - slot,
    {
        let piece = slot_piece(slot);
        out.push((piece, sprite_path(piece)));
        slot += 1;
    }
    out
}

/// Why the catalogue could not be put together.
#[derive(Clone, Copy, Debug, PartialEq, Eq, Hash, Structural)]
pub enum AssetError {
    /// There were not twelve pictures to begin with.
    WrongCount { found: usize },
    /// The picture of this piece is missing or unreadable.
    Missing { piece: Piece },
}

/// The pictures of the twelve pieces. `H` is whatever the drawing backend
/// hands out for a loaded picture.
pub struct SpriteCatalog<H> {
    handles: Vec<Option<H>>,
}

impl<H> View for SpriteCatalog<H> {
    type V = Seq<Option<H>>;

    /// The pictures in catalogue order.
    closed spec fn view(&self) -> Seq<Option<H>> {
        self.handles@
    }
}

/// All twelve pictures are there.
pub open spec fn all_loaded<H>(loaded: Seq<Option<H>>) -> bool {
    &&& loaded.len() == SPRITE_COUNT
    &&& forall|i: int| 0 <= i < SPRITE_COUNT ==> (#[trigger] loaded[i]) is Some
}

impl<H> SpriteCatalog<H> {
    /// The catalogue is complete.
    pub open spec fn wf(&self) -> bool {
        all_loaded(self@)
    }

    /// The picture of a piece.
    pub open spec fn picture(&self, piece: Piece) -> H {
        self@[slot_of(piece)]->0
    }

    /// Puts the catalogue together from the outcome of loading each picture,
    /// in catalogue order. It succeeds exactly when all twelve were loaded;
    /// otherwise it names the first piece without a picture.
    pub fn from_loaded(loaded: Vec<Option<H>>) -> (out: Result<SpriteCatalog<H>, AssetError>)
        ensures
            out is Ok <==> all_loaded(loaded@),
            match out {
                Ok(catalog) => catalog@ == loaded@ && catalog.wf(),
                Err(AssetError::WrongCount { found }) => found == loaded@.len() && found
                    != SPRITE_COUNT,
                Err(AssetError::Missing { piece }) => {
                    &&& loaded@.len() == SPRITE_COUNT
                    &&& loaded@[slot_of(piece)] is None
                    &&& forall|i: int| 0 <= i < slot_of(piece) ==> (#[trigger] loaded@[i]) is Some
                },
            },
    {
        if loaded.len() != SPRITE_COUNT {
            return Err(AssetError::WrongCount { found: loaded.len() });
        }
        let mut slot: usize = 0;
        while slot < SPRITE_COUNT
            invariant
                slot <= SPRITE_COUNT,
                loaded@.len() == SPRITE_COUNT,
                forall|i: int| 0 <= i < slot ==> (#[trigger] loaded@[i]) is Some,
            decreases SPRITE_COUNT - slot,
        {
            if loaded[slot].is_none() {
                return Err(AssetError::Missing { piece: slot_piece(slot) });
            }
            slot += 1;
        }
        Ok(SpriteCatalog { handles: loaded })
    }

    /// The picture of a piece. Every piece has one.
    pub fn lookup(&self, piece: Piece) -> (out: &H)
        requires
            self.wf(),
        ensures
            *out == self.picture(piece),
    {
        let slot: usize = sprite_slot(piece);
        self.handles[slot].as_ref().unwrap()
    }
}

} // verus!
