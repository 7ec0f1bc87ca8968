use std::str::FromStr;

use chess::{Board, BoardStatus, MoveGen};
use patch::engine::{Engine, MAX_PLY};
use patch::evaluation::eval_heuristic;
use patch::score::Score;

fn better(a: Score, b: Score) -> Score {
    if a < b {
        b
    } else {
        a
    }
}

fn captures(board: &Board) -> Vec<chess::ChessMove> {
    let them = *board.color_combined(!board.side_to_move());
    MoveGen::new_legal(board).filter(|m| them & chess::BitBoard::from_square(m.get_dest()) != chess::EMPTY).collect()
}

/// Quiescence with nothing pruned.
fn full_quiesce(board: &Board, ply: u8) -> Score {
    match board.status() {
        BoardStatus::Checkmate => Score::mate(0),
        BoardStatus::Stalemate => Score::cp(0),
        BoardStatus::Ongoing => {
            let mut best = eval_heuristic(board);
            if ply < MAX_PLY {
                for mv in captures(board) {
                    best = better(best, full_quiesce(&board.make_move_new(mv), ply + 1).flip());
                }
            }
            best
        }
    }
}

/// Negamax with nothing pruned, down to `horizon`.
fn full_negamax(board: &Board, ply: u8, horizon: u8) -> Score {
    match board.status() {
        BoardStatus::Checkmate => Score::mate(0),
        BoardStatus::Stalemate => Score::cp(0),
        BoardStatus::Ongoing if ply >= horizon => full_quiesce(board, ply),
        BoardStatus::Ongoing => {
            let mut best = Score::min();
            for mv in MoveGen::new_legal(board) {
                best = better(best, full_negamax(&board.make_move_new(mv), ply + 1, horizon).flip());
            }
            best
        }
    }
}

fn pruned(fen: &str, horizon: u8) -> (Score, Score) {
    let board = Board::from_str(fen).unwrap();
    let mut engine = Engine::default();
    engine.current_search_depth = horizon;
    let eval = engine.evaluate_board(&board, Score::min(), Score::max(), 0);
    assert!(!eval.terminated_early);
    (eval.score, full_negamax(&board, 0, horizon))
}

#[test]
fn pruning_matches_full_minimax_from_start() {
    let (found, full) = pruned("rnbqkbnr/pppppppp/8/8/8/8/PPPPPPPP/RNBQKBNR w KQkq - 0 1", 2);
    assert_eq!(found, full);
}

#[test]
fn pruning_matches_full_minimax_in_endgame() {
    let (found, full) =
        pruned("4k3/8/2p5/3p4/8/8/8/3QK3 w - - 0 1", 3);
    assert_eq!(found, full);
}

#[test]
fn pruning_matches_full_minimax_with_mate_in_reach() {
    let (found, full) = pruned("6k1/5ppp/8/8/8/8/5PPP/R5K1 w - - 0 1", 2);
    assert_eq!(found, full);
    assert_eq!(found, Score::mate(1));
}
