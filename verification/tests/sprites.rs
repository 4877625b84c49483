use chess_gui::board::{Piece, PieceKind, Side};
use chess_gui::sprites::{
    load_sprites, slot_piece, sprite_path, sprite_slot, AssetError, SpriteCatalog, SPRITE_COUNT,
};

#[test]
fn sprites_are_listed_dark_first() {
    let sprites = load_sprites();
    let expected = vec![
        (Side::Dark, PieceKind::King, "/black_king.png"),
        (Side::Dark, PieceKind::Queen, "/black_queen.png"),
        (Side::Dark, PieceKind::Rook, "/black_rook.png"),
        (Side::Dark, PieceKind::Pawn, "/black_pawn.png"),
        (Side::Dark, PieceKind::Bishop, "/black_bishop.png"),
        (Side::Dark, PieceKind::Knight, "/black_knight.png"),
        (Side::Light, PieceKind::King, "/white_king.png"),
        (Side::Light, PieceKind::Queen, "/white_queen.png"),
        (Side::Light, PieceKind::Rook, "/white_rook.png"),
        (Side::Light, PieceKind::Pawn, "/white_pawn.png"),
        (Side::Light, PieceKind::Bishop, "/white_bishop.png"),
        (Side::Light, PieceKind::Knight, "/white_knight.png"),
    ];
    assert_eq!(sprites.len(), SPRITE_COUNT);
    assert_eq!(sprites.len(), expected.len());
    for (got, want) in sprites.iter().zip(expected.iter()) {
        assert_eq!(got.0, Piece { side: want.0, kind: want.1 });
        assert_eq!(got.1, want.2);
    }
}

#[test]
fn sprite_path_follows_the_naming_scheme() {
    assert_eq!(sprite_path(Piece { side: Side::Light, kind: PieceKind::Knight }), "/white_knight.png");
    assert_eq!(sprite_path(Piece { side: Side::Dark, kind: PieceKind::Pawn }), "/black_pawn.png");
}

#[test]
fn slots_and_pieces_correspond() {
    for slot in 0..12usize {
        assert_eq!(sprite_slot(slot_piece(slot)), slot);
    }
    assert_eq!(sprite_slot(Piece { side: Side::Dark, kind: PieceKind::King }), 0);
    assert_eq!(sprite_slot(Piece { side: Side::Dark, kind: PieceKind::Pawn }), 3);
    assert_eq!(sprite_slot(Piece { side: Side::Dark, kind: PieceKind::Knight }), 5);
    assert_eq!(sprite_slot(Piece { side: Side::Light, kind: PieceKind::King }), 6);
    assert_eq!(sprite_slot(Piece { side: Side::Light, kind: PieceKind::Bishop }), 10);
    assert_eq!(slot_piece(8), Piece { side: Side::Light, kind: PieceKind::Rook });
}

#[test]
fn complete_catalogue_finds_every_picture() {
    let loaded: Vec<Option<String>> =
        load_sprites().into_iter().map(|entry| Some(entry.1)).collect();
    let catalogue = match SpriteCatalog::from_loaded(loaded) {
        Ok(catalogue) => catalogue,
        Err(error) => panic!("unexpected {:?}", error),
    };
    for slot in 0..12usize {
        let piece = slot_piece(slot);
        assert_eq!(*catalogue.lookup(piece), sprite_path(piece));
    }
    assert_eq!(
        catalogue.lookup(Piece { side: Side::Light, kind: PieceKind::Queen }).as_str(),
        "/white_queen.png"
    );
}

#[test]
fn catalogue_names_the_first_missing_picture() {
    let mut loaded: Vec<Option<u32>> = (0..12u32).map(Some).collect();
    loaded[4] = None;
    loaded[9] = None;
    match SpriteCatalog::from_loaded(loaded) {
        Ok(_) => panic!("a picture is missing"),
        Err(error) => assert_eq!(
            error,
            AssetError::Missing { piece: Piece { side: Side::Dark, kind: PieceKind::Bishop } }
        ),
    }
}

#[test]
fn catalogue_needs_twelve_pictures() {
    let short: Vec<Option<u32>> = (0..11u32).map(Some).collect();
    match SpriteCatalog::from_loaded(short) {
        Ok(_) => panic!("eleven pictures are not enough"),
        Err(error) => assert_eq!(error, AssetError::WrongCount { found: 11 }),
    }
    let long: Vec<Option<u32>> = (0..13u32).map(Some).collect();
    match SpriteCatalog::from_loaded(long) {
        Ok(_) => panic!("thirteen pictures are too many"),
        Err(error) => assert_eq!(error, AssetError::WrongCount { found: 13 }),
    }
    let none: Vec<Option<u32>> = Vec::new();
    match SpriteCatalog::from_loaded(none) {
        Ok(_) => panic!("no pictures at all"),
        Err(error) => assert_eq!(error, AssetError::WrongCount { found: 0 }),
    }
}
