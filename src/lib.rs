//! A chess engine core: the score algebra, a tapered piece-square evaluator and
//! an iterative-deepening negamax search with alpha-beta pruning and quiescence.

pub mod score;
pub mod uci;
pub mod board;
pub mod tables;
pub mod evaluation;
pub mod clock;
pub mod engine;
pub mod transposition;
pub mod pruning;
