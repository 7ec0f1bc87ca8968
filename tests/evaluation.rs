use std::str::FromStr;

use chess::{Board, Color, Piece};
use patch::evaluation::{
    endgame_material_values, eval_heuristic, midgame_material_values, piece_table_eval,
};
use patch::score::Score;

fn board(fen: &str) -> Board {
    Board::from_str(fen).expect("valid FEN")
}

#[test]
fn empty_board_is_level() {
    let cells = vec![None; 64];
    assert_eq!(piece_table_eval(&cells, Color::White), 0);
    assert_eq!(piece_table_eval(&cells, Color::Black), 0);
}

#[test]
fn lone_kings_use_endgame_tables() {
    // Phase 0: only the endgame sums count, and the kings mirror each other.
    assert_eq!(eval_heuristic(&board("4k3/8/8/8/8/8/8/4K3 w - - 0 1")), Score::cp(0));
    assert_eq!(eval_heuristic(&board("4k3/8/8/8/8/8/8/4K3 b - - 0 1")), Score::cp(0));
    // King e1 against king d8 (read at d1): -28 - (-11) from white's side, phase 0.
    assert_eq!(eval_heuristic(&board("3k4/8/8/8/8/8/8/4K3 w - - 0 1")), Score::cp(-17));
    assert_eq!(eval_heuristic(&board("3k4/8/8/8/8/8/8/4K3 b - - 0 1")), Score::cp(17));
}

#[test]
fn starting_position_value() {
    let start = "rnbqkbnr/pppppppp/8/8/8/8/PPPPPPPP/RNBQKBNR w KQkq - 0 1";
    assert_eq!(eval_heuristic(&board(start)), Score::cp(0));
    assert_eq!(eval_heuristic(&Board::default()), Score::cp(0));
}

#[test]
fn swapping_the_side_to_move_negates() {
    for fen in ["4k3/8/2p5/3p4/8/8/8/3QK3", "6k1/5ppp/8/8/8/8/5PPP/R5K1", "3k4/8/8/8/8/8/8/4K3"] {
        let white = eval_heuristic(&board(&format!("{fen} w - - 0 1")));
        let black = eval_heuristic(&board(&format!("{fen} b - - 0 1")));
        assert_eq!(white.flip(), black);
    }
}

#[test]
fn tapered_blend_of_both_phases() {
    // Phase 4 (one queen): (863 * 4 + 718 * 20) / 24
    assert_eq!(eval_heuristic(&board("4k3/8/2p5/3p4/8/8/8/3QK3 w - - 0 1")), Score::cp(742));
    // Phase 2 (one rook): (458 * 2 + 503 * 22) / 24
    assert_eq!(eval_heuristic(&board("6k1/5ppp/8/8/8/8/5PPP/R5K1 w - - 0 1")), Score::cp(499));
}

#[test]
fn single_piece_cells() {
    // A white queen on d1, alone: phase 4.
    let mut cells = vec![None; 64];
    cells[3] = Some((Piece::Queen, Color::White));
    // midgame 1025 + 10, endgame 936 - 43: (1035 * 4 + 893 * 20) / 24 = 916
    assert_eq!(piece_table_eval(&cells, Color::White), 916);
    // With black to move the same queen counts against it.
    assert_eq!(piece_table_eval(&cells, Color::Black), -916);
}

#[test]
fn negative_sums_truncate_toward_zero() {
    // A black pawn on a2 reads the table at a7, one step from promotion:
    // midgame -(82 + 98), endgame -(94 + 178); phase 0, so -272.
    let mut cells = vec![None; 64];
    cells[8] = Some((Piece::Pawn, Color::Black));
    assert_eq!(piece_table_eval(&cells, Color::White), -272);
    // A black knight on b1 reads b8: midgame -(337 - 89), endgame -(281 - 38),
    // phase 1: -(248 * 1 + 243 * 23) / 24 = -5837 / 24, which truncates to -243.
    let mut cells = vec![None; 64];
    cells[1] = Some((Piece::Knight, Color::Black));
    assert_eq!(piece_table_eval(&cells, Color::White), -243);
}

#[test]
fn phase_is_capped() {
    // Seven queens weigh 28, more than 24: only the midgame sum counts,
    // 7 * 1025 + (-1 - 18 - 9 + 10 - 15 - 25 - 31).
    let mut cells = vec![None; 64];
    for sq in 0..7 {
        cells[sq] = Some((Piece::Queen, Color::White));
    }
    assert_eq!(piece_table_eval(&cells, Color::White), 7086);
}

#[test]
fn evaluation_flips_back() {
    let v = eval_heuristic(&board("6k1/5ppp/8/8/8/8/5PPP/R5K1 w - - 0 1"));
    assert_eq!(v.flip().flip(), v);
}

#[test]
fn material_values() {
    assert_eq!(midgame_material_values(Piece::Queen), 1025);
    assert_eq!(midgame_material_values(Piece::Pawn), 82);
    assert_eq!(endgame_material_values(Piece::Rook), 512);
    assert_eq!(endgame_material_values(Piece::King), 0);
}

#[test]
fn evaluations_stay_within_forty_queens() {
    let fens = [
        "rnbqkbnr/pp1ppppp/8/2p5/4P3/5N2/PPPP1PPP/RNBQKB1R b KQkq - 1 2",
        "rnb1k1nr/pppp1ppp/5q2/2b1p3/2B1P3/2N5/PPPP1PPP/R1BQK1NR w KQkq - 0 1",
        "r1b2rk1/pp1n1ppp/1bpp2qn/4p1N1/2B1P3/1QP4P/PP2NPP1/R1B2RK1 w - - 0 1",
        "4rr1k/pp3p1p/1b2n2p/3p1q2/1Q6/2P1pPPP/PP2B2K/2R2R2 b - - 0 1",
        "6k1/pp3p1p/8/3p3p/1P3P2/2P1r1q1/P2n4/5K2 w - - 0 1",
    ];
    for fen in fens {
        match eval_heuristic(&board(fen)) {
            Score::Centipawns(c) => assert!((c as i32).abs() < 40 * 1025),
            other => panic!("unexpected score {other:?}"),
        }
    }
}
