use std::str::FromStr;

use chess::{Board, BoardStatus, ChessMove, Square};
use patch::board::{
    board_from_fen, capture_moves, is_legal_move, legal_moves, mover_king_present, parse_fen,
    start_position,
};
use patch::score::Score;
use patch::transposition::{NodeType, TranspositionData};

#[test]
fn starting_position_has_twenty_moves() {
    assert_eq!(legal_moves(&start_position()).len(), 20);
    assert!(capture_moves(&start_position()).is_empty());
}

#[test]
fn captures_land_on_opponent_pieces() {
    let board = Board::from_str("4k3/8/2p5/3p4/8/8/8/3QK3 w - - 0 1").unwrap();
    assert_eq!(capture_moves(&board), vec![ChessMove::new(Square::D1, Square::D5, None)]);
    // Both sides' pieces on the e-file: only the pawn on d5 can be taken by the e4 pawn
    let board = Board::from_str("4k3/8/8/3p1P2/4P3/8/8/4K3 w - - 0 1").unwrap();
    assert_eq!(capture_moves(&board), vec![ChessMove::new(Square::E4, Square::D5, None)]);
}

#[test]
fn fen_parsing() {
    assert!(parse_fen("8/8/8").is_err());
    assert_eq!(board_from_fen("8/8/8"), None);
    let board = board_from_fen("7k/5Q2/6K1/8/8/8/8/8 b - - 0 1").unwrap();
    assert_eq!(board.status(), BoardStatus::Stalemate);
    // Kings next to each other fail the sanity checks
    assert_eq!(board_from_fen("8/8/8/8/8/8/8/Kk6 w - - 0 1"), None);
    // Non-ASCII text is refused before it is parsed
    assert_eq!(board_from_fen("7k/5Q2/6K1/8/8/8/8/8 b - \u{e9} 0 1"), None);
    assert_eq!(start_position(), Board::default());
}

#[test]
fn transposition_entry_keeps_fields() {
    let mv = ChessMove::new(Square::G1, Square::F3, None);
    let entry = TranspositionData::new(Score::cp(12), NodeType::Cut, mv, 4);
    assert_eq!(entry.score, Score::cp(12));
    assert_eq!(entry.ty, NodeType::Cut);
    assert_eq!(entry.mv, mv);
    assert_eq!(entry.depth, 4);
}

#[test]
fn legality_of_moves() {
    let start = start_position();
    assert!(is_legal_move(&start, &ChessMove::new(Square::G1, Square::F3, None)));
    assert!(!is_legal_move(&start, &ChessMove::new(Square::G1, Square::G3, None)));
    assert!(!is_legal_move(&start, &ChessMove::new(Square::E4, Square::E5, None)));
}

#[test]
fn fen_without_the_movers_king_is_refused() {
    let empty = parse_fen("8/8/8/8/8/8/8/8 w - - 0 1").unwrap();
    assert!(!mover_king_present(&empty));
    assert_eq!(board_from_fen("8/8/8/8/8/8/8/8 w - - 0 1"), None);
    // Only the side to move's king counts
    let black_king_only = parse_fen("4k3/8/8/8/8/8/8/8 w - - 0 1").unwrap();
    assert!(!mover_king_present(&black_king_only));
    let with_king = parse_fen("4k3/8/8/8/8/8/8/4K3 w - - 0 1").unwrap();
    assert!(mover_king_present(&with_king));
}
