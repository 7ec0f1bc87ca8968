use std::str::FromStr;
use std::time::Instant;

use chess::{Board, ChessMove, MoveGen, Square};
use patch::engine::{
    pass_step, thinking_time, BoardEvaluation, Engine, EngineError, PassStep, SearchOptions,
    MAX_SEARCH_DEPTH,
};
use patch::evaluation::eval_heuristic;
use patch::score::Score;
use chess::Color;

const START: &str = "rnbqkbnr/pppppppp/8/8/8/8/PPPPPPPP/RNBQKBNR w KQkq - 0 1";
const MATE_IN_ONE: &str = "6k1/5ppp/8/8/8/8/5PPP/R5K1 w - - 0 1";
const FOOLS_MATE: &str = "rnb1kbnr/pppp1ppp/8/4p3/6Pq/5P2/PPPPP2P/RNBQKBNR w KQkq - 1 3";
const STALEMATE: &str = "7k/5Q2/6K1/8/8/8/8/8 b - - 0 1";
const LOSING_CAPTURE: &str = "4k3/8/2p5/3p4/8/8/8/3QK3 w - - 0 1";

fn options() -> SearchOptions {
    SearchOptions {
        infinite: false,
        movetime: None,
        wtime: None,
        btime: None,
        winc: None,
        binc: None,
        movestogo: None,
        depth: None,
    }
}

fn depth_options(depth: u32) -> SearchOptions {
    SearchOptions { infinite: true, depth: Some(depth), ..options() }
}

fn engine_at(fen: &str) -> Engine {
    let mut engine = Engine::default();
    engine.set_position(Some(fen), &Vec::new()).expect("valid FEN");
    engine
}

fn is_legal(fen: &str, mv: ChessMove) -> bool {
    MoveGen::new_legal(&Board::from_str(fen).unwrap()).any(|m| m == mv)
}

#[test]
fn starting_position_depth_one() {
    let mut engine = engine_at(START);
    let report = engine.search(depth_options(1)).expect("a move");
    assert!(is_legal(START, report.best_move));
    assert_eq!(report.infos.len(), 1);
    assert_eq!(report.infos[0].depth, 1);
    assert_eq!(report.infos[0].mv, report.best_move);
    assert!(!report.interrupted);
    match report.infos[0].score {
        Score::Centipawns(x) => assert!(x.abs() <= 50, "score {x}"),
        other => panic!("unexpected score {other:?}"),
    }
}

#[test]
fn finds_mate_in_one() {
    let mut engine = engine_at(MATE_IN_ONE);
    let report = engine.search(depth_options(2)).expect("a move");
    assert_eq!(report.best_move, ChessMove::new(Square::A1, Square::A8, None));
    let last = report.infos.last().unwrap();
    assert_eq!(last.score, Score::mate(1));
    assert_eq!(report.infos.len(), 2);
}

#[test]
fn checkmate_scores_mate_zero_at_any_depth() {
    let board = Board::from_str(FOOLS_MATE).unwrap();
    let mut engine = Engine::default();
    engine.current_search_depth = 4;
    for depth in 0..=4u8 {
        let eval = engine.evaluate_board(&board, Score::min(), Score::max(), depth);
        assert_eq!(eval.score, Score::mate(0));
        assert_eq!(eval.mv, None);
        assert_eq!(eval.depth, depth);
        assert!(!eval.terminated_early);
    }
    let eval = engine.evaluate_board_quiescence(&board, Score::min(), Score::max(), 7);
    assert_eq!(eval.score, Score::mate(0));
}

#[test]
fn stalemate_scores_zero_at_any_depth() {
    let board = Board::from_str(STALEMATE).unwrap();
    let mut engine = Engine::default();
    engine.current_search_depth = 3;
    for depth in 0..=3u8 {
        let eval = engine.evaluate_board(&board, Score::min(), Score::max(), depth);
        assert_eq!(eval.score, Score::cp(0));
        assert_eq!(eval.mv, None);
    }
}

#[test]
fn quiescence_stands_pat_on_losing_capture() {
    let board = Board::from_str(LOSING_CAPTURE).unwrap();
    let engine = Engine::default();
    let eval = engine.evaluate_board_quiescence(&board, Score::min(), Score::max(), 0);
    assert_eq!(eval.score, eval_heuristic(&board));
    assert_eq!(eval.score, Score::cp(742));
    assert_eq!(eval.mv, None);
}

#[test]
fn depth_limit_gives_one_info_per_pass() {
    let mut engine = engine_at(START);
    let report = engine.search(depth_options(3)).expect("a move");
    assert!(!report.interrupted);
    assert_eq!(report.infos.len(), 3);
    for (i, info) in report.infos.iter().enumerate() {
        assert_eq!(info.depth as usize, i + 1);
        assert!(info.seldepth as usize >= i + 1);
    }
    assert_eq!(report.best_move, report.infos[2].mv);
    assert_eq!(engine.best_move_found, Some(report.best_move));
}

#[test]
fn movetime_cuts_search() {
    let mut engine = engine_at(START);
    let started = Instant::now();
    let report = engine
        .search(SearchOptions { movetime: Some(50), ..options() })
        .expect("a move");
    assert!(started.elapsed().as_millis() <= 80);
    assert!(is_legal(START, report.best_move));
    assert!(report.infos.len() >= 1);
    assert!(report.infos.len() < MAX_SEARCH_DEPTH as usize);
    assert!(report.interrupted);
}

#[test]
fn search_on_mated_position_has_no_move() {
    let mut engine = engine_at(FOOLS_MATE);
    assert_eq!(engine.search(depth_options(1)).unwrap_err(), EngineError::NoLegalMoves);
}

#[test]
fn search_without_time_fails_when_no_pass_completes() {
    let mut engine = engine_at(START);
    let result = engine.search(SearchOptions { movetime: Some(20), ..options() });
    assert_eq!(result.unwrap_err(), EngineError::NoMoveFound);
}

#[test]
fn invalid_fen_is_rejected() {
    let mut engine = Engine::default();
    assert_eq!(engine.set_position(Some("not a position"), &Vec::new()), Err(EngineError::InvalidFen));
    assert_eq!(
        engine.set_position(Some("8/8/8/8/8/8/8/8 w - - 0 1"), &Vec::new()),
        Err(EngineError::InvalidFen)
    );
    assert_eq!(engine.board, Board::default());
}

#[test]
fn new_engine_starts_at_depth_one() {
    let engine = Engine::default();
    assert_eq!(engine.current_search_depth, 1);
    assert_eq!(engine.depth_limit, None);
}

#[test]
fn infinite_search_starts_the_clock_without_deadline() {
    let mut engine = engine_at(START);
    let report = engine.search(depth_options(2)).expect("a move");
    assert!(!report.interrupted);
    assert!(engine.start_time.is_some());
    assert!(engine.stop_time.is_none());
    assert_eq!(engine.depth_limit, Some(2));
    // A new position clears the depth limit
    engine.set_position(None, &Vec::new()).unwrap();
    assert_eq!(engine.depth_limit, None);
}

#[test]
fn pass_step_decisions() {
    let e4 = ChessMove::new(Square::E2, Square::E4, None);
    let d4 = ChessMove::new(Square::D2, Square::D4, None);
    let cut = BoardEvaluation::score_early(Score::cp(3), 0);
    assert!(matches!(pass_step(&cut, Some(e4), 3, None), PassStep::Interrupted(Some(m)) if m == e4));
    assert!(matches!(pass_step(&cut, None, 1, None), PassStep::Interrupted(None)));
    let mated = BoardEvaluation::score(Score::mate(0), 0);
    assert!(matches!(pass_step(&mated, None, 1, None), PassStep::NoMoves));
    let done = BoardEvaluation::new(Some(d4), 4, Score::cp(20), false);
    assert!(matches!(pass_step(&done, Some(e4), 2, Some(3)), PassStep::Completed(m, false) if m == d4));
    assert!(matches!(pass_step(&done, Some(e4), 3, Some(3)), PassStep::Completed(_, true)));
    assert!(matches!(pass_step(&done, None, MAX_SEARCH_DEPTH, None), PassStep::Completed(_, true)));
}

#[test]
fn illegal_move_is_rejected() {
    let mut engine = engine_at(MATE_IN_ONE);
    let moves = vec![
        ChessMove::new(Square::E2, Square::E4, None),
        ChessMove::new(Square::E2, Square::E4, None),
    ];
    assert_eq!(engine.set_position(None, &moves), Err(EngineError::IllegalMove));
    // The engine keeps its position
    assert_eq!(engine.board, Board::from_str(MATE_IN_ONE).unwrap());
}

#[test]
fn set_position_plays_moves() {
    let mut engine = Engine::default();
    let moves = vec![
        ChessMove::new(Square::E2, Square::E4, None),
        ChessMove::new(Square::E7, Square::E5, None),
    ];
    engine.set_position(None, &moves).unwrap();
    let expected =
        Board::from_str("rnbqkbnr/pppp1ppp/8/4p3/4P3/8/PPPP1PPP/RNBQKBNR w KQkq - 0 2").unwrap();
    assert_eq!(engine.board, expected);
    assert_eq!(engine.current_search_depth, 1);
    assert_eq!(engine.best_move_found, None);
}

#[test]
fn reset_game_keeps_debug() {
    let mut engine = engine_at(MATE_IN_ONE);
    engine.set_debug(true);
    engine.reset_game();
    assert!(engine.debug());
    assert_eq!(engine.board, Board::default());
    engine.set_debug(false);
    assert!(!engine.debug());
}

#[test]
fn thinking_time_policies() {
    assert_eq!(thinking_time(&SearchOptions { infinite: true, ..options() }, Color::White), Ok(None));
    assert_eq!(thinking_time(&SearchOptions { movetime: Some(1000), ..options() }, Color::White), Ok(Some(980)));
    let clock = SearchOptions { wtime: Some(60_000), btime: Some(30_000), winc: Some(1000), binc: Some(2000), ..options() };
    assert_eq!(thinking_time(&clock, Color::White), Ok(Some(3480)));
    assert_eq!(thinking_time(&clock, Color::Black), Ok(Some(2480)));
    let to_go = SearchOptions { movestogo: Some(40), ..clock };
    assert_eq!(thinking_time(&to_go, Color::White), Ok(Some(1480)));
    assert_eq!(thinking_time(&to_go, Color::Black), Ok(Some(730)));
}

#[test]
fn thinking_time_errors() {
    assert_eq!(thinking_time(&options(), Color::White), Err(EngineError::Unimplemented));
    let no_increment = SearchOptions { wtime: Some(60_000), ..options() };
    assert_eq!(thinking_time(&no_increment, Color::White), Err(EngineError::Unimplemented));
    assert_eq!(thinking_time(&no_increment, Color::Black), Err(EngineError::Unimplemented));
    assert_eq!(thinking_time(&SearchOptions { movetime: Some(10), ..options() }, Color::White), Err(EngineError::DeadlineOverflow));
    let zero_to_go = SearchOptions { wtime: Some(60_000), movestogo: Some(0), ..options() };
    assert_eq!(thinking_time(&zero_to_go, Color::White), Err(EngineError::DeadlineOverflow));
}

#[test]
fn search_reports_time_control_errors() {
    let mut engine = engine_at(START);
    assert_eq!(engine.search(options()).unwrap_err(), EngineError::Unimplemented);
    assert_eq!(
        engine.search(SearchOptions { movetime: Some(5), ..options() }).unwrap_err(),
        EngineError::DeadlineOverflow
    );
}

#[test]
fn lifting_a_child_flips_and_keeps_flags() {
    let mv = ChessMove::new(Square::E2, Square::E4, None);
    let child = BoardEvaluation::score_early(Score::cp(30), 5);
    let lifted = BoardEvaluation::from_child(child, mv);
    assert_eq!(lifted.mv, Some(mv));
    assert_eq!(lifted.score, Score::cp(-30));
    assert_eq!(lifted.depth, 5);
    assert!(lifted.terminated_early);
}

#[test]
fn absorb_keeps_better_and_early_flag() {
    let e4 = ChessMove::new(Square::E2, Square::E4, None);
    let d4 = ChessMove::new(Square::D2, Square::D4, None);
    let mut best = BoardEvaluation::min();
    best.absorb(BoardEvaluation::new(Some(e4), 3, Score::cp(10), false));
    assert_eq!(best.mv, Some(e4));
    assert_eq!(best.score, Score::cp(10));
    // A worse line that ran out of time marks the node, but does not replace the move
    best.absorb(BoardEvaluation::new(Some(d4), 6, Score::cp(5), true));
    assert_eq!(best.mv, Some(e4));
    assert_eq!(best.score, Score::cp(10));
    assert_eq!(best.depth, 6);
    assert!(best.terminated_early);
    // A better clean line still leaves the mark in place
    best.absorb(BoardEvaluation::new(Some(d4), 2, Score::mate(3), false));
    assert_eq!(best.mv, Some(d4));
    assert_eq!(best.score, Score::mate(3));
    assert!(best.terminated_early);
}

#[test]
fn overwrite_takes_deeper_depth() {
    let e4 = ChessMove::new(Square::E2, Square::E4, None);
    let mut eval = BoardEvaluation::score(Score::cp(1), 7);
    eval.overwrite(BoardEvaluation::new(Some(e4), 2, Score::cp(9), true));
    assert_eq!(eval.mv, Some(e4));
    assert_eq!(eval.score, Score::cp(9));
    assert_eq!(eval.depth, 7);
    assert!(eval.terminated_early);
}

#[test]
fn too_many_pieces_are_refused() {
    let crowded = "7k/8/8/8/PPPPPPPP/8/PPPPPPPP/NNN1K3 w - - 0 1";
    let mut engine = Engine::default();
    assert_eq!(engine.set_position(Some(crowded), &Vec::new()), Err(EngineError::InvalidFen));
    // A board placed by hand is checked before it is searched
    engine.board = Board::from_str(crowded).unwrap();
    assert_eq!(engine.search(depth_options(1)).unwrap_err(), EngineError::TooManyPieces);
}
