use chess_gui::board::{
    BoardSnapshot, Piece, PieceKind, Side, Square, BOARD_CELLS, BOARD_SIDE, CELL_SIZE,
    SURFACE_SIZE,
};

#[test]
fn surface_is_eight_cells_wide() {
    assert_eq!(BOARD_SIDE, 8);
    assert_eq!(BOARD_CELLS, 64);
    assert_eq!(CELL_SIZE, 67);
    assert_eq!(SURFACE_SIZE, 8 * CELL_SIZE);
}

#[test]
fn pixel_maps_to_the_square_under_it() {
    assert_eq!(Square::from_pixel(10, 10), Some(Square { file: 0, rank: 0 }));
    assert_eq!(Square::from_pixel(10, 10 + 67 * 2), Some(Square { file: 0, rank: 2 }));
    assert_eq!(Square::from_pixel(0, 0), Some(Square { file: 0, rank: 0 }));
    assert_eq!(Square::from_pixel(66, 66), Some(Square { file: 0, rank: 0 }));
    assert_eq!(Square::from_pixel(67, 66), Some(Square { file: 1, rank: 0 }));
    assert_eq!(Square::from_pixel(66, 67), Some(Square { file: 0, rank: 1 }));
    assert_eq!(Square::from_pixel(300, 500), Some(Square { file: 4, rank: 7 }));
    assert_eq!(Square::from_pixel(535, 535), Some(Square { file: 7, rank: 7 }));
}

#[test]
fn pixel_off_the_board_maps_to_nothing() {
    assert_eq!(Square::from_pixel(-1, 10), None);
    assert_eq!(Square::from_pixel(10, -1), None);
    assert_eq!(Square::from_pixel(-66, -66), None);
    assert_eq!(Square::from_pixel(536, 10), None);
    assert_eq!(Square::from_pixel(10, 536), None);
    assert_eq!(Square::from_pixel(i64::MIN, 0), None);
    assert_eq!(Square::from_pixel(0, i64::MAX), None);
}

#[test]
fn every_pixel_of_a_cell_maps_to_its_square() {
    for file in 0..8u8 {
        for rank in 0..8u8 {
            let square = Square { file, rank };
            let left = 67 * file as i64;
            let top = 67 * rank as i64;
            assert_eq!(Square::from_pixel(left, top), Some(square));
            assert_eq!(Square::from_pixel(left + 66, top), Some(square));
            assert_eq!(Square::from_pixel(left, top + 66), Some(square));
            assert_eq!(Square::from_pixel(left + 66, top + 66), Some(square));
            assert_ne!(Square::from_pixel(left + 67, top), Some(square));
            assert_ne!(Square::from_pixel(left, top - 1), Some(square));
        }
    }
}

#[test]
fn square_new_accepts_the_board_only() {
    assert_eq!(Square::new(0, 0), Some(Square { file: 0, rank: 0 }));
    assert_eq!(Square::new(7, 7), Some(Square { file: 7, rank: 7 }));
    assert_eq!(Square::new(8, 0), None);
    assert_eq!(Square::new(0, 8), None);
    assert_eq!(Square::new(255, 255), None);
    assert!(Square { file: 7, rank: 0 }.is_on_board());
    assert!(!Square { file: 7, rank: 8 }.is_on_board());
}

#[test]
fn cell_index_is_file_major() {
    assert_eq!(Square { file: 0, rank: 0 }.cell_index(), 0);
    assert_eq!(Square { file: 0, rank: 7 }.cell_index(), 7);
    assert_eq!(Square { file: 1, rank: 0 }.cell_index(), 8);
    assert_eq!(Square { file: 7, rank: 7 }.cell_index(), 63);
    for i in 0..64usize {
        let square = Square::from_index(i);
        assert!(square.is_on_board());
        assert_eq!(square.cell_index(), i);
    }
    assert_eq!(Square::from_index(17), Square { file: 2, rank: 1 });
}

#[test]
fn empty_snapshot_holds_no_piece() {
    let board = BoardSnapshot::empty();
    for i in 0..64usize {
        assert_eq!(board.piece_at(Square::from_index(i)), None);
    }
}

#[test]
fn place_changes_one_square_only() {
    let mut board = BoardSnapshot::empty();
    let pawn = Piece { side: Side::Light, kind: PieceKind::Pawn };
    let king = Piece { side: Side::Dark, kind: PieceKind::King };
    board.place(Square { file: 0, rank: 1 }, Some(pawn));
    board.place(Square { file: 4, rank: 7 }, Some(king));
    for i in 0..64usize {
        let square = Square::from_index(i);
        let expected = if square == (Square { file: 0, rank: 1 }) {
            Some(pawn)
        } else if square == (Square { file: 4, rank: 7 }) {
            Some(king)
        } else {
            None
        };
        assert_eq!(board.piece_at(square), expected);
    }
    board.place(Square { file: 0, rank: 1 }, None);
    assert_eq!(board.piece_at(Square { file: 0, rank: 1 }), None);
    assert_eq!(board.piece_at(Square { file: 4, rank: 7 }), Some(king));
}

#[test]
fn snapshot_from_cells_needs_sixty_four() {
    let rook = Piece { side: Side::Dark, kind: PieceKind::Rook };
    let mut cells = vec![None; 64];
    cells[8] = Some(rook);
    let board = BoardSnapshot::from_cells(cells).unwrap();
    assert_eq!(board.piece_at(Square { file: 1, rank: 0 }), Some(rook));
    assert_eq!(board.piece_at(Square { file: 0, rank: 1 }), None);
    assert_eq!(BoardSnapshot::from_cells(vec![None; 63]), None);
    assert_eq!(BoardSnapshot::from_cells(vec![None; 65]), None);
    assert_eq!(BoardSnapshot::from_cells(Vec::new()), None);
}
