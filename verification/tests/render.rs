use chess_gui::board::{BoardSnapshot, Piece, PieceKind, Side, Square};
use chess_gui::render::{
    cell_area, centred_origin, render, status_caption, tile_color, DrawCommand, Paint, Rect,
    StatusText, BANNER_PADDING,
};

fn cell(file: i64, rank: i64) -> Rect {
    Rect { x: 67 * file, y: 67 * rank, width: 67, height: 67 }
}

#[test]
fn tile_is_light_where_file_plus_rank_is_even() {
    for file in 0..8u8 {
        for rank in 0..8u8 {
            let expected =
                if (file + rank) % 2 == 0 { Paint::LightTile } else { Paint::DarkTile };
            assert_eq!(tile_color(Square { file, rank }), expected);
        }
    }
    assert_eq!(tile_color(Square { file: 0, rank: 0 }), Paint::LightTile);
    assert_eq!(tile_color(Square { file: 1, rank: 0 }), Paint::DarkTile);
    assert_eq!(tile_color(Square { file: 0, rank: 1 }), Paint::DarkTile);
    assert_eq!(tile_color(Square { file: 7, rank: 7 }), Paint::LightTile);
}

#[test]
fn cell_area_is_one_grid_cell() {
    assert_eq!(cell_area(Square { file: 0, rank: 0 }), cell(0, 0));
    assert_eq!(
        cell_area(Square { file: 3, rank: 5 }),
        Rect { x: 201, y: 335, width: 67, height: 67 }
    );
    assert_eq!(cell_area(Square { file: 7, rank: 7 }), cell(7, 7));
}

#[test]
fn centred_origin_rounds_down() {
    assert_eq!(centred_origin(0), 268);
    assert_eq!(centred_origin(200), 168);
    assert_eq!(centred_origin(201), 167);
    assert_eq!(centred_origin(536), 0);
    assert_eq!(centred_origin(537), -1);
    assert_eq!(centred_origin(538), -1);
    assert_eq!(centred_origin(600), -32);
    assert_eq!(centred_origin(601), -33);
    assert_eq!(centred_origin(u32::MAX), (536 - 4294967295i64 - 1) / 2);
}

#[test]
fn empty_frame_is_backdrop_and_tiles() {
    let frame = render(&BoardSnapshot::empty(), &Vec::new(), None);
    assert_eq!(frame.len(), 65);
    assert_eq!(frame[0], DrawCommand::Clear { paint: Paint::Backdrop });
    for rank in 0..8usize {
        for file in 0..8usize {
            let paint = if (file + rank) % 2 == 0 { Paint::LightTile } else { Paint::DarkTile };
            assert_eq!(
                frame[1 + 8 * rank + file],
                DrawCommand::Fill { area: cell(file as i64, rank as i64), paint }
            );
        }
    }
}

#[test]
fn banner_is_centred_behind_the_status_line() {
    let status =
        StatusText { text: String::from("Game is Checkmate."), width: 200, height: 30 };
    let frame = render(&BoardSnapshot::empty(), &Vec::new(), Some(&status));
    assert_eq!(frame.len(), 67);
    assert_eq!(BANNER_PADDING, 8);
    assert_eq!(
        frame[65],
        DrawCommand::Fill {
            area: Rect { x: 160, y: 253, width: 216, height: 30 },
            paint: Paint::Banner
        }
    );
    assert_eq!(
        frame[66],
        DrawCommand::Label {
            text: String::from("Game is Checkmate."),
            x: 168,
            y: 253,
            paint: Paint::Ink
        }
    );
}

#[test]
fn banner_wider_than_the_surface_starts_left_of_it() {
    let status = StatusText { text: String::from("wide"), width: 601, height: 537 };
    let frame = render(&BoardSnapshot::empty(), &Vec::new(), Some(&status));
    assert_eq!(
        frame[65],
        DrawCommand::Fill {
            area: Rect { x: -41, y: -1, width: 617, height: 537 },
            paint: Paint::Banner
        }
    );
    assert_eq!(
        frame[66],
        DrawCommand::Label { text: String::from("wide"), x: -33, y: -1, paint: Paint::Ink }
    );
}

#[test]
fn layers_come_in_order() {
    let mut board = BoardSnapshot::empty();
    let pawn = Piece { side: Side::Light, kind: PieceKind::Pawn };
    let king = Piece { side: Side::Dark, kind: PieceKind::King };
    let queen = Piece { side: Side::Dark, kind: PieceKind::Queen };
    board.place(Square { file: 4, rank: 0 }, Some(king));
    board.place(Square { file: 0, rank: 6 }, Some(pawn));
    board.place(Square { file: 0, rank: 2 }, Some(queen));
    let highlights = vec![Square { file: 0, rank: 5 }, Square { file: 0, rank: 4 }];
    let status = StatusText { text: String::from("Game is Check."), width: 100, height: 20 };
    let frame = render(&board, &highlights, Some(&status));
    assert_eq!(frame.len(), 1 + 64 + 2 + 2 + 3);
    assert_eq!(frame[0], DrawCommand::Clear { paint: Paint::Backdrop });
    assert_eq!(
        frame[65],
        DrawCommand::Fill {
            area: Rect { x: 210, y: 258, width: 116, height: 20 },
            paint: Paint::Banner
        }
    );
    assert_eq!(
        frame[66],
        DrawCommand::Label {
            text: String::from("Game is Check."),
            x: 218,
            y: 258,
            paint: Paint::Ink
        }
    );
    assert_eq!(frame[67], DrawCommand::Fill { area: cell(0, 5), paint: Paint::Highlight });
    assert_eq!(frame[68], DrawCommand::Fill { area: cell(0, 4), paint: Paint::Highlight });
    assert_eq!(frame[69], DrawCommand::Sprite { piece: queen, area: cell(0, 2) });
    assert_eq!(frame[70], DrawCommand::Sprite { piece: pawn, area: cell(0, 6) });
    assert_eq!(frame[71], DrawCommand::Sprite { piece: king, area: cell(4, 0) });
}

#[test]
fn full_board_draws_sixty_four_sprites() {
    let rook = Piece { side: Side::Light, kind: PieceKind::Rook };
    let board = BoardSnapshot::from_cells(vec![Some(rook); 64]).unwrap();
    let frame = render(&board, &Vec::new(), None);
    assert_eq!(frame.len(), 1 + 64 + 64);
    for i in 0..64usize {
        assert_eq!(
            frame[65 + i],
            DrawCommand::Sprite { piece: rook, area: cell((i / 8) as i64, (i % 8) as i64) }
        );
    }
}

#[test]
fn rendering_twice_gives_the_same_frame() {
    let mut board = BoardSnapshot::empty();
    board.place(Square { file: 3, rank: 3 }, Some(Piece { side: Side::Light, kind: PieceKind::Bishop }));
    board.place(Square { file: 6, rank: 1 }, Some(Piece { side: Side::Dark, kind: PieceKind::Knight }));
    let highlights = vec![Square { file: 2, rank: 2 }, Square { file: 4, rank: 4 }];
    let status = StatusText { text: String::from("Game is Stalemate."), width: 233, height: 31 };
    let first = render(&board, &highlights, Some(&status));
    let second = render(&board, &highlights, Some(&status));
    assert_eq!(first, second);
    let plain_first = render(&board, &highlights, None);
    let plain_second = render(&board, &highlights, None);
    assert_eq!(plain_first, plain_second);
    assert_ne!(first, plain_first);
}

#[test]
fn status_line_is_shown_once_the_game_is_not_in_progress() {
    assert_eq!(status_caption("InProgress", true), None);
    assert_eq!(status_caption("Checkmate", false), Some(String::from("Game is Checkmate.")));
    assert_eq!(status_caption("Check", false), Some(String::from("Game is Check.")));
    assert_eq!(status_caption("", false), Some(String::from("Game is .")));
}
