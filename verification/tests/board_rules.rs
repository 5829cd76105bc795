use chess_api::Move;
use chess_api::Square;
use chess_api::board::Board;
use chess_api::piece::Piece;
use chess_api::piece::PieceColor;
use chess_api::piece::PieceType;

#[test]
fn empty_origin_moves_nothing() {
    let board = Board::new_clear();

    for x in 0..8 {
        for y in 0..8 {
            assert_eq!(
                board.is_move_possible(Move::new(Square::new(3, 3), Square::new(x, y))),
                false
            );
        }
    }
}

#[test]
fn null_move_is_rejected_for_every_kind() {
    let kinds = [
        PieceType::Pawn,
        PieceType::Rook,
        PieceType::Knight,
        PieceType::Bishop,
        PieceType::Queen,
        PieceType::King,
    ];
    for kind in kinds {
        let mut board = Board::new_clear();
        board.set(Square::new(4, 4), Some(Piece::new(kind, PieceColor::WHITE)));
        assert_eq!(board.is_move_possible(Move::new(Square::new(4, 4), Square::new(4, 4))), false);
    }
}

#[test]
fn two_rooks_blocked_along_file_and_rank() {
    let mut board = Board::new_clear();

    board.set(Square::new(1, 1), Some(Piece::new(PieceType::Rook, PieceColor::WHITE)));
    board.set(Square::new(1, 5), Some(Piece::new(PieceType::Rook, PieceColor::WHITE)));
    board.set(Square::new(5, 1), Some(Piece::new(PieceType::Rook, PieceColor::BLACK)));

    assert_eq!(board.is_move_possible(Move::new(Square::new(1, 1), Square::new(1, 6))), false);
    assert_eq!(board.is_move_possible(Move::new(Square::new(1, 1), Square::new(6, 1))), false);
}

#[test]
fn basic_king_movement() {
    let mut board = Board::new_clear();

    board.set(Square::new(3, 3), Some(Piece::new(PieceType::King, PieceColor::WHITE)));

    assert_eq!(board.is_move_possible(Move::new(Square::new(3, 3), Square::new(2, 2))), true);
    assert_eq!(board.is_move_possible(Move::new(Square::new(3, 3), Square::new(3, 2))), true);
    assert_eq!(board.is_move_possible(Move::new(Square::new(3, 3), Square::new(4, 2))), true);
    assert_eq!(board.is_move_possible(Move::new(Square::new(3, 3), Square::new(2, 3))), true);
    assert_eq!(board.is_move_possible(Move::new(Square::new(3, 3), Square::new(4, 3))), true);
    assert_eq!(board.is_move_possible(Move::new(Square::new(3, 3), Square::new(2, 4))), true);
    assert_eq!(board.is_move_possible(Move::new(Square::new(3, 3), Square::new(3, 4))), true);
    assert_eq!(board.is_move_possible(Move::new(Square::new(3, 3), Square::new(4, 4))), true);

    assert_eq!(board.is_move_possible(Move::new(Square::new(3, 3), Square::new(3, 5))), false);
    assert_eq!(board.is_move_possible(Move::new(Square::new(3, 3), Square::new(5, 3))), false);
    assert_eq!(board.is_move_possible(Move::new(Square::new(3, 3), Square::new(5, 5))), false);
    assert_eq!(board.is_move_possible(Move::new(Square::new(3, 3), Square::new(1, 5))), false);
}

#[test]
fn king_capture_follows_ownership() {
    let mut board = Board::new_clear();

    board.set(Square::new(3, 3), Some(Piece::new(PieceType::King, PieceColor::WHITE)));
    board.set(Square::new(3, 4), Some(Piece::new(PieceType::Pawn, PieceColor::BLACK)));
    board.set(Square::new(4, 4), Some(Piece::new(PieceType::Pawn, PieceColor::WHITE)));

    assert_eq!(board.is_move_possible(Move::new(Square::new(3, 3), Square::new(3, 4))), true);
    assert_eq!(board.is_move_possible(Move::new(Square::new(3, 3), Square::new(4, 4))), false);
}

#[test]
fn get_piece_reads_what_set_wrote() {
    let mut board = Board::new_clear();

    assert!(board.get_piece(Square::new(6, 2)).is_none());

    board.set(Square::new(6, 2), Some(Piece::new(PieceType::Bishop, PieceColor::BLACK)));

    let piece = board.get_piece(Square::new(6, 2)).unwrap();
    assert_eq!(piece.piece_type(), PieceType::Bishop);
    assert_eq!(piece.color(), PieceColor::BLACK);
    assert!(board.get_piece(Square::new(2, 6)).is_none());

    board.set(Square::new(6, 2), None);
    assert!(board.get_piece(Square::new(6, 2)).is_none());
}

#[test]
fn color_flip_swaps_sides() {
    assert_eq!(PieceColor::WHITE.flip(), PieceColor::BLACK);
    assert_eq!(PieceColor::BLACK.flip(), PieceColor::WHITE);
}
