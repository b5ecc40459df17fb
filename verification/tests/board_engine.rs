use chess::board::Board;
use chess::error::ChessError;
use chess::moves::Move;
use chess::piece::Piece;
use chess::square::Square;

fn sq(t: &str) -> Square {
    Square::from_str(t).unwrap()
}

/// A snapshot of all 64 squares, for exact before/after comparisons.
fn snapshot(b: &Board) -> Vec<Option<Piece>> {
    let mut cells = Vec::new();
    for f in ['a', 'b', 'c', 'd', 'e', 'f', 'g', 'h'] {
        for r in 1u8..=8 {
            cells.push(b.get_piece(sq(&format!("{}{}", f, r))));
        }
    }
    cells
}

#[test]
fn starting_position_back_ranks_and_kings() {
    let b = Board::new_init();
    assert_eq!(b.get_piece(sq("e1")), Some(Piece::white_king()));
    assert_eq!(b.get_piece(sq("e8")), Some(Piece::black_king()));
    assert_eq!(b.get_piece(sq("a1")), Some(Piece::white_rook()));
    assert_eq!(b.get_piece(sq("b1")), Some(Piece::white_knight()));
    assert_eq!(b.get_piece(sq("c1")), Some(Piece::white_bishop()));
    assert_eq!(b.get_piece(sq("d1")), Some(Piece::white_queen()));
    assert_eq!(b.get_piece(sq("f1")), Some(Piece::white_bishop()));
    assert_eq!(b.get_piece(sq("g1")), Some(Piece::white_knight()));
    assert_eq!(b.get_piece(sq("h1")), Some(Piece::white_rook()));
    assert_eq!(b.get_piece(sq("a8")), Some(Piece::black_rook()));
    assert_eq!(b.get_piece(sq("b8")), Some(Piece::black_knight()));
    assert_eq!(b.get_piece(sq("c8")), Some(Piece::black_bishop()));
    assert_eq!(b.get_piece(sq("d8")), Some(Piece::black_queen()));
    assert_eq!(b.get_piece(sq("f8")), Some(Piece::black_bishop()));
    assert_eq!(b.get_piece(sq("g8")), Some(Piece::black_knight()));
    assert_eq!(b.get_piece(sq("h8")), Some(Piece::black_rook()));
}

#[test]
fn starting_position_pawns_and_empty_middle() {
    let b = Board::new_init();
    for f in ['a', 'b', 'c', 'd', 'e', 'f', 'g', 'h'] {
        assert_eq!(b.get_piece(sq(&format!("{}2", f))), Some(Piece::white_pawn()));
        assert_eq!(b.get_piece(sq(&format!("{}7", f))), Some(Piece::black_pawn()));
        for r in 3u8..=6 {
            assert_eq!(b.get_piece(sq(&format!("{}{}", f, r))), None);
        }
    }
}

#[test]
fn default_board_is_the_starting_position() {
    let a = Board::new_init();
    let b = Board::default();
    assert_eq!(snapshot(&a), snapshot(&b));
}

#[test]
fn set_get_remove_take_primitives() {
    let mut b = Board::new_init();
    b.set_piece(sq("e4"), Piece::white_queen());
    assert_eq!(b.get_piece(sq("e4")), Some(Piece::white_queen()));
    b.set_piece(sq("e4"), Piece::black_knight());
    assert_eq!(b.get_piece(sq("e4")), Some(Piece::black_knight()));
    b.remove_piece(sq("e4"));
    assert_eq!(b.get_piece(sq("e4")), None);
    let taken = b.take_piece(sq("d2"));
    assert_eq!(taken, Some(Piece::white_pawn()));
    assert_eq!(b.get_piece(sq("d2")), None);
    let nothing = b.take_piece(sq("d2"));
    assert_eq!(nothing, None);
}

#[test]
fn quiet_move_relocates_the_piece() {
    let mut b = Board::new_init();
    let m = Move::Move { from: sq("e2"), to: sq("e4") };
    assert_eq!(b.play_move(m), Ok(()));
    assert_eq!(b.get_piece(sq("e2")), None);
    assert_eq!(b.get_piece(sq("e4")), Some(Piece::white_pawn()));
}

#[test]
fn quiet_move_round_trips() {
    let mut b = Board::new_init();
    let before = snapshot(&b);
    let m = Move::Move { from: sq("g1"), to: sq("f3") };
    assert_eq!(b.play_move(m), Ok(()));
    assert_eq!(b.undo_move(m), Ok(()));
    assert_eq!(snapshot(&b), before);
}

#[test]
fn capture_overwrites_and_round_trips() {
    let mut b = Board::new_init();
    b.set_piece(sq("e4"), Piece::white_pawn());
    b.set_piece(sq("d5"), Piece::black_pawn());
    let before = snapshot(&b);
    let m = Move::Capture { capturing: Piece::black_pawn(), from: sq("e4"), to: sq("d5") };
    assert_eq!(b.play_move(m), Ok(()));
    assert_eq!(b.get_piece(sq("e4")), None);
    assert_eq!(b.get_piece(sq("d5")), Some(Piece::white_pawn()));
    assert_eq!(b.undo_move(m), Ok(()));
    assert_eq!(snapshot(&b), before);
}

#[test]
fn en_passant_capture_scenario() {
    let mut b = Board::new_init();
    b.set_piece(sq("e5"), Piece::white_pawn());
    b.set_piece(sq("d5"), Piece::black_pawn());
    let before = snapshot(&b);
    let m = Move::EnPassantCapture { capturing: Piece::black_pawn(), from: sq("e5"), to: sq("d6") };
    assert_eq!(b.play_move(m), Ok(()));
    assert_eq!(b.get_piece(sq("e5")), None);
    assert_eq!(b.get_piece(sq("d5")), None);
    assert_eq!(b.get_piece(sq("d6")), Some(Piece::white_pawn()));
    assert_eq!(b.undo_move(m), Ok(()));
    assert_eq!(b.get_piece(sq("e5")), Some(Piece::white_pawn()));
    assert_eq!(b.get_piece(sq("d5")), Some(Piece::black_pawn()));
    assert_eq!(b.get_piece(sq("d6")), None);
    assert_eq!(snapshot(&b), before);
}

#[test]
fn en_passant_undo_restores_the_stored_payload() {
    // The captured pawn is restored from the move's payload, on the
    // square with the destination's file and the source's rank.
    let mut b = Board::new_init();
    b.set_piece(sq("d4"), Piece::black_pawn());
    b.set_piece(sq("c4"), Piece::white_pawn());
    let m = Move::EnPassantCapture { capturing: Piece::white_pawn(), from: sq("d4"), to: sq("c3") };
    assert_eq!(b.play_move(m), Ok(()));
    assert_eq!(b.get_piece(sq("c4")), None);
    assert_eq!(b.get_piece(sq("c3")), Some(Piece::black_pawn()));
    assert_eq!(b.undo_move(m), Ok(()));
    assert_eq!(b.get_piece(sq("c4")), Some(Piece::white_pawn()));
    assert_eq!(b.get_piece(sq("d4")), Some(Piece::black_pawn()));
    assert_eq!(b.get_piece(sq("c3")), None);
}

#[test]
fn promotion_move_scenario() {
    let mut b = Board::new_init();
    b.set_piece(sq("a7"), Piece::white_pawn());
    b.remove_piece(sq("a8"));
    let before = snapshot(&b);
    let m = Move::PromotionMove { promoting: Piece::white_queen(), from: sq("a7"), to: sq("a8") };
    assert_eq!(b.play_move(m), Ok(()));
    assert_eq!(b.get_piece(sq("a7")), None);
    assert_eq!(b.get_piece(sq("a8")), Some(Piece::white_queen()));
    assert_eq!(b.undo_move(m), Ok(()));
    assert_eq!(b.get_piece(sq("a7")), Some(Piece::white_pawn()));
    assert_eq!(b.get_piece(sq("a8")), None);
    assert_eq!(snapshot(&b), before);
}

#[test]
fn promotion_capture_round_trips() {
    let mut b = Board::new_init();
    b.set_piece(sq("b7"), Piece::white_pawn());
    let before = snapshot(&b);
    let m = Move::PromotionCapture {
        promoting: Piece::white_queen(),
        capturing: Piece::black_rook(),
        from: sq("b7"),
        to: sq("a8"),
    };
    assert_eq!(b.play_move(m), Ok(()));
    assert_eq!(b.get_piece(sq("b7")), None);
    assert_eq!(b.get_piece(sq("a8")), Some(Piece::white_queen()));
    assert_eq!(b.undo_move(m), Ok(()));
    assert_eq!(b.get_piece(sq("b7")), Some(Piece::white_pawn()));
    assert_eq!(b.get_piece(sq("a8")), Some(Piece::black_rook()));
    assert_eq!(snapshot(&b), before);
}

#[test]
fn kingside_castle_white_from_start() {
    let mut b = Board::new_init();
    assert_eq!(b.play_move(Move::KingsideCastleWhite), Ok(()));
    assert_eq!(b.get_piece(sq("e1")), None);
    assert_eq!(b.get_piece(sq("h1")), None);
    assert_eq!(b.get_piece(sq("g1")), Some(Piece::white_king()));
    assert_eq!(b.get_piece(sq("f1")), Some(Piece::white_rook()));
}

#[test]
fn each_castle_relocates_its_king_and_rook() {
    let mut b = Board::new_init();
    assert_eq!(b.play_move(Move::QueensideCastleWhite), Ok(()));
    assert_eq!(b.get_piece(sq("e1")), None);
    assert_eq!(b.get_piece(sq("a1")), None);
    assert_eq!(b.get_piece(sq("c1")), Some(Piece::white_king()));
    assert_eq!(b.get_piece(sq("d1")), Some(Piece::white_rook()));

    let mut b = Board::new_init();
    assert_eq!(b.play_move(Move::KingsideCastleBlack), Ok(()));
    assert_eq!(b.get_piece(sq("e8")), None);
    assert_eq!(b.get_piece(sq("h8")), None);
    assert_eq!(b.get_piece(sq("g8")), Some(Piece::black_king()));
    assert_eq!(b.get_piece(sq("f8")), Some(Piece::black_rook()));

    let mut b = Board::new_init();
    assert_eq!(b.play_move(Move::QueensideCastleBlack), Ok(()));
    assert_eq!(b.get_piece(sq("e8")), None);
    assert_eq!(b.get_piece(sq("a8")), None);
    assert_eq!(b.get_piece(sq("c8")), Some(Piece::black_king()));
    assert_eq!(b.get_piece(sq("d8")), Some(Piece::black_rook()));
}

#[test]
fn castle_round_trips_when_the_path_is_clear() {
    let mut b = Board::new_init();
    b.remove_piece(sq("f1"));
    b.remove_piece(sq("g1"));
    let before = snapshot(&b);
    assert_eq!(b.play_move(Move::KingsideCastleWhite), Ok(()));
    assert_eq!(b.undo_move(Move::KingsideCastleWhite), Ok(()));
    assert_eq!(snapshot(&b), before);

    let mut b = Board::new_init();
    b.remove_piece(sq("b8"));
    b.remove_piece(sq("c8"));
    b.remove_piece(sq("d8"));
    let before = snapshot(&b);
    assert_eq!(b.play_move(Move::QueensideCastleBlack), Ok(()));
    assert_eq!(b.undo_move(Move::QueensideCastleBlack), Ok(()));
    assert_eq!(snapshot(&b), before);
}

#[test]
fn playing_from_an_empty_square_is_an_illegal_move_application() {
    let mut b = Board::new_init();
    let m = Move::Move { from: sq("e4"), to: sq("e5") };
    assert_eq!(b.play_move(m), Err(ChessError::IllegalMoveApplication));
    // Nothing was touched.
    assert_eq!(snapshot(&b), snapshot(&Board::new_init()));
}

#[test]
fn capture_and_en_passant_from_empty_squares_fail() {
    let mut b = Board::new_init();
    let c = Move::Capture { capturing: Piece::black_pawn(), from: sq("e4"), to: sq("d5") };
    assert_eq!(b.play_move(c), Err(ChessError::IllegalMoveApplication));
    let e = Move::EnPassantCapture { capturing: Piece::black_pawn(), from: sq("e5"), to: sq("d6") };
    assert_eq!(b.play_move(e), Err(ChessError::IllegalMoveApplication));
    assert_eq!(snapshot(&b), snapshot(&Board::new_init()));
}

#[test]
fn undoing_onto_an_empty_destination_fails() {
    let mut b = Board::new_init();
    let m = Move::Move { from: sq("e2"), to: sq("e4") };
    assert_eq!(b.undo_move(m), Err(ChessError::IllegalMoveApplication));
    assert_eq!(snapshot(&b), snapshot(&Board::new_init()));
}

#[test]
fn castle_with_missing_king_fails_untouched() {
    let mut b = Board::new_init();
    b.remove_piece(sq("e1"));
    let before = snapshot(&b);
    assert_eq!(b.play_move(Move::KingsideCastleWhite), Err(ChessError::IllegalMoveApplication));
    assert_eq!(snapshot(&b), before);
}

#[test]
fn castle_with_missing_rook_leaves_the_king_taken() {
    // A castle that fails after the king is taken leaves the board in a
    // torn state: a documented limitation of the engine.
    let mut b = Board::new_init();
    b.remove_piece(sq("h1"));
    assert_eq!(b.play_move(Move::KingsideCastleWhite), Err(ChessError::IllegalMoveApplication));
    assert_eq!(b.get_piece(sq("e1")), None);
}

#[test]
fn play_does_not_consult_the_capture_payload() {
    // The `capturing` payload exists purely for undo; play never checks
    // that the piece actually on `to` matches it.
    let mut b = Board::new_init();
    b.set_piece(sq("e4"), Piece::white_pawn());
    b.set_piece(sq("d5"), Piece::black_pawn());
    let m = Move::Capture { capturing: Piece::black_queen(), from: sq("e4"), to: sq("d5") };
    assert_eq!(b.play_move(m), Ok(()));
    assert_eq!(b.get_piece(sq("d5")), Some(Piece::white_pawn()));
}
