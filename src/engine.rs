//! The search: iterative deepening over a negamax with alpha-beta pruning and
//! a quiescence search at its horizon.

use crate::board::{
    after_move, board_from_fen, capture_moves, captures_of, fen_board, is_legal_move, legal_moves,
    legal_moves_of, piece_limit_holds, side_of, start_position, status_of, within_piece_limit,
    START_FEN,
};
use crate::clock::{instant_after, is_later, later_than, millis_after, millis_since, now};
use crate::evaluation::{cells_of, eval_heuristic, evaluation};
use crate::score::{flip_spec, flippable, score_le, score_lt, Score};
use chess::{Board, BoardStatus, ChessMove, Color};
use std::time::Instant;
use vstd::prelude::*;

verus! {

/// Milliseconds taken from each move's thinking time, to make sure we don't
/// go over: tearing the search down and writing the answer take time too.
pub const SLACK_TIME_MS: u64 = 20;

/// The deepest ply that any line is followed to, quiescence included.
///
/// Mate counters are `i8`: a mate score found at one ply can be carried as a
/// bound down another line to this ply again, so bounds reach about twice
/// this many plies, and flipping must stay within 126. Beyond the horizon
/// only captures are followed, and each removes one of the at most 30
/// pieces other than the kings; from [`MAX_SEARCH_DEPTH`] a capture line of
/// a position with at most 32 pieces therefore ends by this ply.
pub const MAX_PLY: u8 = 62;

/// The deepest pass of iterative deepening: [`MAX_PLY`] less the 30 plies
/// that a capture line can add after it.
pub const MAX_SEARCH_DEPTH: u8 = 32;

/// Why a command could not be carried out.
#[derive(Debug, Clone, Copy, PartialEq, Eq, Structural)]
pub enum EngineError {
    /// The FEN string does not describe a board
    InvalidFen,
    /// The time control is not one that the engine handles
    Unimplemented,
    /// The thinking time is shorter than the slack, or the deadline does not fit the clock
    DeadlineOverflow,
    /// A move of a `position` command is not legal where it is played
    IllegalMove,
    /// A side has more than the 16 pieces it starts with
    TooManyPieces,
    /// The position to search has no legal moves
    NoLegalMoves,
    /// Not even the first pass of the search completed
    NoMoveFound,
}

/// The time and depth controls of a `go` command, in milliseconds.
#[derive(Debug, Clone, Copy, PartialEq, Eq, Structural)]
pub struct SearchOptions {
    /// Search until told to stop
    pub infinite: bool,
    /// Search exactly this long
    pub movetime: Option<u64>,
    /// White's time left on the clock
    pub wtime: Option<u64>,
    /// Black's time left on the clock
    pub btime: Option<u64>,
    /// White's increment per move
    pub winc: Option<u64>,
    /// Black's increment per move
    pub binc: Option<u64>,
    /// Moves until the next time control
    pub movestogo: Option<u32>,
    /// Search this many plies deep
    pub depth: Option<u32>,
}

/// The thinking time before the slack comes off it.
pub open spec fn raw_thinking_time(o: SearchOptions, side: Color) -> Result<int, EngineError> {
    if let Some(movetime) = o.movetime {
        Ok(movetime as int)
    } else {
        let (time, inc) = match side {
            Color::White => (o.wtime, o.winc),
            Color::Black => (o.btime, o.binc),
        };
        match time {
            None => Err(EngineError::Unimplemented),
            Some(t) => match o.movestogo {
                Some(n) => if n == 0 {
                    Err(EngineError::DeadlineOverflow)
                } else {
                    Ok(t as int / n as int)
                },
                None => match inc {
                    Some(i) => Ok(t as int / 20 + i as int / 2),
                    None => Err(EngineError::Unimplemented),
                },
            },
        }
    }
}

/// How long to think, in milliseconds: `None` to think until stopped.
pub open spec fn thinking_budget(o: SearchOptions, side: Color) -> Result<Option<u64>, EngineError> {
    if o.infinite {
        Ok(None)
    } else {
        match raw_thinking_time(o, side) {
            Err(e) => Err(e),
            Ok(t) => if t < SLACK_TIME_MS {
                Err(EngineError::DeadlineOverflow)
            } else {
                Ok(Some((t - SLACK_TIME_MS) as u64))
            },
        }
    }
}

/// Decides how long the side to move may think.
///
/// - If the search is infinite, there is no limit
/// - If a movetime is specified, then that is used
/// - Otherwise, with moves to go, the remaining time is spread over them
/// - Otherwise, with an increment, a twentieth of the time plus half the increment
/// - Otherwise, the time control is not handled
///
/// [`SLACK_TIME_MS`] comes off whatever is found.
pub fn thinking_time(options: &SearchOptions, side: Color) -> (r: Result<Option<u64>, EngineError>)
    ensures
        r == thinking_budget(*options, side),
{
    if options.infinite {
        return Ok(None);
    }
    let raw: u64 = if let Some(movetime) = options.movetime {
        movetime
    } else {
        let (time, inc) = match side {
            Color::White => (options.wtime, options.winc),
            Color::Black => (options.btime, options.binc),
        };
        if let Some(time) = time {
            if let Some(movestogo) = options.movestogo {
                if movestogo == 0 {
                    return Err(EngineError::DeadlineOverflow);
                }
                time / (movestogo as u64)
            } else if let Some(inc) = inc {
                time / 20 + inc / 2
            } else {
                return Err(EngineError::Unimplemented);
            }
        } else {
            return Err(EngineError::Unimplemented);
        }
    };
    if raw < SLACK_TIME_MS {
        Err(EngineError::DeadlineOverflow)
    } else {
        Ok(Some(raw - SLACK_TIME_MS))
    }
}

/// Return value of [`Engine::evaluate_board`]
#[derive(Debug, Clone, Copy)]
pub struct BoardEvaluation {
    /// The best move found in this subtree
    pub mv: Option<ChessMove>,
    /// The deepest ply that this evaluation came from
    pub depth: u8,
    /// The score of this subtree
    pub score: Score,
    /// Whether this subtree was terminated early,
    /// such as from running out of time
    pub terminated_early: bool,
}

impl BoardEvaluation {
    /// Constructs a [`BoardEvaluation`] from every field
    pub fn new(mv: Option<ChessMove>, depth: u8, score: Score, terminated_early: bool) -> (r: Self)
        ensures
            r == (BoardEvaluation { mv, depth, score, terminated_early }),
    {
        BoardEvaluation { mv, depth, score, terminated_early }
    }

    /// Constructs a [`BoardEvaluation`] from an evaluation coming out of a subtree
    ///
    /// This means that we must:
    /// - Flip the score, as children evaluate from their perspective
    /// - Paste in the move that got us from our board to the child board
    pub fn from_child(child: Self, mv: ChessMove) -> (r: Self)
        requires
            flippable(child.score),
        ensures
            r == Self::from_child_spec(child, mv),
    {
        BoardEvaluation {
            mv: Some(mv),
            depth: child.depth,
            score: child.score.flip(),
            // If they terminated early, then so did we, technically
            terminated_early: child.terminated_early,
        }
    }

    /// The record of a node lifted to its parent through move `mv`.
    pub open spec fn from_child_spec(child: Self, mv: ChessMove) -> Self {
        BoardEvaluation {
            mv: Some(mv),
            depth: child.depth,
            score: flip_spec(child.score),
            terminated_early: child.terminated_early,
        }
    }

    /// The record of a terminal or horizon node: a score and nothing else.
    pub open spec fn score_spec(score: Score, depth: u8) -> Self {
        BoardEvaluation { mv: None, depth, score, terminated_early: false }
    }

    /// Constructs a new [`BoardEvaluation`] when only the score is known,
    /// such as in mating positions and stalemates.
    ///
    /// These positions are *terminal* inherently, so they are never considered an early termination
    pub fn score(score: Score, depth: u8) -> (r: Self)
        ensures
            r == Self::score_spec(score, depth),
    {
        BoardEvaluation { mv: None, depth, score, terminated_early: false }
    }

    /// Constructs a new [`BoardEvaluation`] for an early termination, using the score heuristic
    pub fn score_early(score: Score, depth: u8) -> (r: Self)
        ensures
            r == Self::early_spec(score, depth),
    {
        BoardEvaluation { mv: None, depth, score, terminated_early: true }
    }

    /// The record of a node whose search ran out of time on entry.
    pub open spec fn early_spec(score: Score, depth: u8) -> Self {
        BoardEvaluation { mv: None, depth, score, terminated_early: true }
    }

    /// The record that no move has improved on yet.
    pub open spec fn min_spec() -> Self {
        BoardEvaluation { mv: None, depth: 0, score: Score::Mate(0), terminated_early: false }
    }

    /// Constructs a [`Self`] which is never better than any other [`Self`]
    ///
    /// This is used as an identity value when computing the best of a set of evaluations
    pub fn min() -> (r: Self)
        ensures
            r == Self::min_spec(),
            forall|s: Score| #[trigger] score_le(r.score, s),
    {
        BoardEvaluation { mv: None, depth: 0, score: Score::min(), terminated_early: false }
    }

    /// Overwrites the values of `self` with values of `other`, except for depth, which takes the max
    pub fn overwrite(&mut self, other: Self)
        ensures
            final(self).mv == other.mv,
            final(self).score == other.score,
            final(self).terminated_early == other.terminated_early,
            final(self).depth == if old(self).depth >= other.depth {
                old(self).depth
            } else {
                other.depth
            },
    {
        self.mv = other.mv;
        self.score = other.score;
        self.terminated_early = other.terminated_early;
        self.depth = if self.depth >= other.depth {
            self.depth
        } else {
            other.depth
        };
    }

    /// Folds the evaluation of one more move into the best one so far.
    ///
    /// A strictly better score replaces the move and the score; the depth
    /// takes the max, and an early termination anywhere is kept.
    pub fn absorb(&mut self, other: Self)
        ensures
            *final(self) == absorb_spec(*old(self), other),
            score_lt(old(self).score, other.score) ==> final(self).mv == other.mv
                && final(self).score == other.score,
            !score_lt(old(self).score, other.score) ==> final(self).mv == old(self).mv
                && final(self).score == old(self).score,
            final(self).terminated_early == (old(self).terminated_early || other.terminated_early),
            final(self).depth == if old(self).depth >= other.depth {
                old(self).depth
            } else {
                other.depth
            },
    {
        let early = self.terminated_early || other.terminated_early;
        if other.score > self.score {
            self.overwrite(other);
        } else {
            self.depth = if self.depth >= other.depth {
                self.depth
            } else {
                other.depth
            };
        }
        self.terminated_early = early;
    }
}

/// The record of a node after one more move's record is folded into it by
/// [`BoardEvaluation::absorb`].
pub open spec fn absorb_spec(best: BoardEvaluation, other: BoardEvaluation) -> BoardEvaluation {
    BoardEvaluation {
        mv: if score_lt(best.score, other.score) {
            other.mv
        } else {
            best.mv
        },
        depth: if best.depth >= other.depth {
            best.depth
        } else {
            other.depth
        },
        score: if score_lt(best.score, other.score) {
            other.score
        } else {
            best.score
        },
        terminated_early: best.terminated_early || other.terminated_early,
    }
}

/// The record of a node after the records of its moves are folded into
/// `start`, in order.
pub open spec fn fold_records(start: BoardEvaluation, records: Seq<BoardEvaluation>) -> BoardEvaluation
    decreases records.len(),
{
    if records.len() == 0 {
        start
    } else {
        absorb_spec(fold_records(start, records.drop_last()), records.last())
    }
}

/// `r` folds, into `start`, the records of the first few of `moves`, each
/// lifted through its own move: so an early termination in any of them
/// marks `r` (see [`lemma_early_termination_sticky`]).
pub open spec fn explored(r: BoardEvaluation, start: BoardEvaluation, moves: Seq<ChessMove>) -> bool {
    exists|records: Seq<BoardEvaluation>|
        {
            &&& records.len() <= moves.len()
            &&& r == fold_records(start, records)
            &&& forall|j: int| 0 <= j < records.len() ==> (#[trigger] records[j]).mv == Some(moves[j])
        }
}

/// An early termination anywhere below a node reaches the node: lifting a
/// child's record keeps its mark, and once one of the records folded into a
/// node is marked, the node's record is, whatever else is folded in.
pub proof fn lemma_early_termination_sticky(
    start: BoardEvaluation,
    records: Seq<BoardEvaluation>,
    i: int,
    child: BoardEvaluation,
    mv: ChessMove,
)
    requires
        0 <= i < records.len(),
        records[i].terminated_early,
    ensures
        fold_records(start, records).terminated_early,
        child.terminated_early ==> BoardEvaluation::from_child_spec(child, mv).terminated_early,
    decreases records.len(),
{
    if i < records.len() - 1 {
        lemma_early_termination_sticky(start, records.drop_last(), i, child, mv);
    }
}

/// The static evaluation of a board, from the side to move's view.
pub open spec fn static_eval(b: Board) -> Score {
    evaluation(cells_of(b), side_of(b))
}

/// The better of two scores, keeping `a` on a tie.
pub open spec fn raise(a: Score, b: Score) -> Score {
    if score_lt(a, b) {
        b
    } else {
        a
    }
}

/// The record that the quiescence search of `b` at `ply` returns with the
/// window `(alpha, beta)` when it runs to completion: checkmate and stalemate
/// are terminal, the stand-pat score bounds it from below and may cut off at
/// once, and the captures are scanned in order.
pub open spec fn quiesce(b: Board, alpha: Score, beta: Score, ply: u8) -> BoardEvaluation
    decreases MAX_PLY - ply, 1int, 0int,
{
    match status_of(b) {
        BoardStatus::Checkmate => BoardEvaluation::score_spec(Score::Mate(0), ply),
        BoardStatus::Stalemate => BoardEvaluation::score_spec(Score::Centipawns(0), ply),
        BoardStatus::Ongoing => {
            let stand_pat = static_eval(b);
            if ply >= MAX_PLY || score_le(beta, stand_pat) {
                BoardEvaluation::score_spec(stand_pat, ply)
            } else {
                quiesce_scan(
                    b,
                    captures_of(b),
                    0,
                    BoardEvaluation::score_spec(stand_pat, ply),
                    raise(alpha, stand_pat),
                    beta,
                    ply,
                )
            }
        },
    }
}

/// The quiescence record after the moves from `i` on are scanned, given the
/// best record and the alpha bound that the earlier moves left.
pub open spec fn quiesce_scan(
    b: Board,
    moves: Seq<ChessMove>,
    i: int,
    best: BoardEvaluation,
    alpha: Score,
    beta: Score,
    ply: u8,
) -> BoardEvaluation
    decreases MAX_PLY - ply, 0int, moves.len() - i,
{
    if i < 0 || i >= moves.len() || ply >= MAX_PLY {
        best
    } else {
        let lifted = BoardEvaluation::from_child_spec(
            quiesce(after_move(b, moves[i]), flip_spec(beta), flip_spec(alpha), (ply + 1) as u8),
            moves[i],
        );
        let next = absorb_spec(best, lifted);
        if score_le(beta, lifted.score) {
            next
        } else {
            quiesce_scan(b, moves, i + 1, next, raise(alpha, lifted.score), beta, ply)
        }
    }
}

/// The record that the negamax search of `b` at `ply` returns with the window
/// `(alpha, beta)` and the horizon `horizon` when it runs to completion:
/// checkmate and stalemate are terminal, the horizon hands over to the
/// quiescence search, and otherwise the legal moves are scanned in order.
pub open spec fn negamax(b: Board, alpha: Score, beta: Score, ply: u8, horizon: u8) -> BoardEvaluation
    decreases horizon - ply, 1int, 0int,
{
    match status_of(b) {
        BoardStatus::Checkmate => BoardEvaluation::score_spec(Score::Mate(0), ply),
        BoardStatus::Stalemate => BoardEvaluation::score_spec(Score::Centipawns(0), ply),
        BoardStatus::Ongoing => if ply >= horizon {
            quiesce(b, alpha, beta, ply)
        } else {
            negamax_scan(
                b,
                legal_moves_of(b),
                0,
                BoardEvaluation::min_spec(),
                alpha,
                beta,
                ply,
                horizon,
            )
        },
    }
}

/// The negamax record after the moves from `i` on are scanned, given the best
/// record and the alpha bound that the earlier moves left.
pub open spec fn negamax_scan(
    b: Board,
    moves: Seq<ChessMove>,
    i: int,
    best: BoardEvaluation,
    alpha: Score,
    beta: Score,
    ply: u8,
    horizon: u8,
) -> BoardEvaluation
    decreases horizon - ply, 0int, moves.len() - i,
{
    if i < 0 || i >= moves.len() || ply >= horizon {
        best
    } else {
        let lifted = BoardEvaluation::from_child_spec(
            negamax(
                after_move(b, moves[i]),
                flip_spec(beta),
                flip_spec(alpha),
                (ply + 1) as u8,
                horizon,
            ),
            moves[i],
        );
        let next = absorb_spec(best, lifted);
        if score_le(beta, lifted.score) {
            next
        } else {
            negamax_scan(b, moves, i + 1, next, raise(alpha, lifted.score), beta, ply, horizon)
        }
    }
}

/// A score whose counters stay within `k`: a centipawn value whose negation
/// fits, or a mate no more than `k` plies away.
pub open spec fn within(s: Score, k: int) -> bool {
    match s {
        Score::Centipawns(c) => c > i16::MIN,
        Score::Mate(m) => -k <= m <= k,
    }
}

/// The board after playing `moves` in order from `b`.
pub open spec fn play(b: Board, moves: Seq<ChessMove>) -> Board
    decreases moves.len(),
{
    if moves.len() == 0 {
        b
    } else {
        after_move(play(b, moves.drop_last()), moves.last())
    }
}

/// The text of an optional FEN string.
pub open spec fn fen_view(fen: Option<&str>) -> Option<Seq<char>> {
    match fen {
        Some(f) => Some(f@),
        None => None,
    }
}

/// Each move is legal on the board that the moves before it lead to.
pub open spec fn legal_line(b: Board, moves: Seq<ChessMove>) -> bool
    decreases moves.len(),
{
    moves.len() == 0 || (legal_line(b, moves.drop_last()) && legal_moves_of(
        play(b, moves.drop_last()),
    ).contains(moves.last()))
}

/// A legal line of moves is legal in each of its prefixes.
proof fn lemma_legal_line_prefix(b: Board, moves: Seq<ChessMove>, n: int)
    requires
        0 <= n <= moves.len(),
        legal_line(b, moves),
    ensures
        legal_line(b, moves.subrange(0, n)),
    decreases moves.len(),
{
    if n < moves.len() {
        lemma_legal_line_prefix(b, moves.drop_last(), n);
        assert(moves.drop_last().subrange(0, n) =~= moves.subrange(0, n));
    } else {
        assert(moves.subrange(0, n) =~= moves);
    }
}

/// The board that a `position` command starts from.
pub open spec fn initial_board(fen: Option<Seq<char>>) -> Option<Board> {
    match fen {
        Some(f) => fen_board(f),
        None => fen_board(START_FEN@),
    }
}

/// What one completed pass of iterative deepening found.
#[derive(Debug, Clone, Copy)]
pub struct SearchInfo {
    /// The score of the position for the side to move
    pub score: Score,
    /// The best move found
    pub mv: ChessMove,
    /// The depth of the pass
    pub depth: u8,
    /// The deepest ply reached in the pass
    pub seldepth: u8,
    /// Milliseconds since the search started
    pub time_ms: u128,
}

/// The outcome of a search: the move to play and the passes that led to it.
#[derive(Debug)]
pub struct SearchReport {
    /// The best move of the last completed pass
    pub best_move: ChessMove,
    /// One record per completed pass, shallowest first
    pub infos: Vec<SearchInfo>,
    /// Whether the search ended on a pass that ran out of time
    pub interrupted: bool,
}

/// The engine: a position to search and the state of the current search.
pub struct Engine {
    /// Whether the GUI asked for debugging output
    pub debug: bool,
    /// The position to search
    pub board: Board,
    /// When the current search started, if it is timed
    pub start_time: Option<Instant>,
    /// When the current search must stop, if it is timed
    pub stop_time: Option<Instant>,
    /// The depth of the current pass of iterative deepening
    pub current_search_depth: u8,
    /// The depth at which iterative deepening stops
    pub depth_limit: Option<u8>,
    /// The best move of the last completed pass
    pub best_move_found: Option<ChessMove>,
}

impl Default for Engine {
    fn default() -> (r: Self)
        ensures
            !r.debug,
            fen_board(START_FEN@) == Some(r.board),
            r.start_time.is_none(),
            r.stop_time.is_none(),
            r.current_search_depth == 1,
            r.depth_limit.is_none(),
            r.best_move_found.is_none(),
    {
        Engine {
            debug: false,
            board: start_position(),
            start_time: None,
            stop_time: None,
            current_search_depth: 1,
            depth_limit: None,
            best_move_found: None,
        }
    }
}

impl Engine {
    /// Sets the debug flag
    pub fn set_debug(&mut self, debug: bool)
        ensures
            *final(self) == (Engine { debug, ..*old(self) }),
    {
        self.debug = debug;
    }

    /// Whether debugging is enabled
    pub fn debug(&self) -> (r: bool)
        ensures
            r == self.debug,
    {
        self.debug
    }

    /// Resets the internal state for a new game
    ///
    /// Resets everything except the [`Engine::debug()`] flag
    pub fn reset_game(&mut self)
        ensures
            final(self).debug == old(self).debug,
            fen_board(START_FEN@) == Some(final(self).board),
            final(self).start_time.is_none(),
            final(self).stop_time.is_none(),
            final(self).current_search_depth == 1,
            final(self).depth_limit.is_none(),
            final(self).best_move_found.is_none(),
    {
        let debug = self.debug;
        *self = Engine::default();
        self.debug = debug;
    }

    /// Resets internal search parameters and flags for a new search
    ///
    /// E.g. the best move found, the current search depth, the depth limit, etc.
    pub fn reset_search_params(&mut self)
        ensures
            *final(self) == (Engine {
                start_time: None,
                stop_time: None,
                current_search_depth: 1,
                depth_limit: None,
                best_move_found: None,
                ..*old(self)
            }),
    {
        self.start_time = None;
        self.stop_time = None;
        self.current_search_depth = 1;
        self.depth_limit = None;
        self.best_move_found = None;
    }

    /// Sets the board to the given position
    ///
    /// If `fen` is `None`, then the default starting position is used.
    /// The moves are then played in order; each must be legal where it is played.
    pub fn set_position(&mut self, fen: Option<&str>, moves: &Vec<ChessMove>) -> (r: Result<(), EngineError>)
        ensures
            initial_board(fen_view(fen)) is None ==> r == Err::<(), EngineError>(
                EngineError::InvalidFen,
            ),
            initial_board(fen_view(fen)) matches Some(b) ==> (r is Ok <==> legal_line(b, moves@)),
            initial_board(fen_view(fen)) matches Some(b) && !legal_line(b, moves@) ==> r == Err::<
                (),
                EngineError,
            >(EngineError::IllegalMove),
            r is Err ==> *final(self) == *old(self),
            r is Ok ==> *final(self) == (Engine {
                board: play(initial_board(fen_view(fen)).unwrap(), moves@),
                start_time: None,
                stop_time: None,
                current_search_depth: 1,
                depth_limit: None,
                best_move_found: None,
                ..*old(self)
            }),
    {
        // Setup board
        let mut board = match fen {
            Some(fen) => match board_from_fen(fen) {
                Some(board) => board,
                None => return Err(EngineError::InvalidFen),
            },
            None => start_position(),
        };
        let ghost start = board;
        let mut i: usize = 0;
        while i < moves.len()
            invariant
                i <= moves@.len(),
                initial_board(fen_view(fen)) == Some(start),
                board == play(start, moves@.subrange(0, i as int)),
                within_piece_limit(board),
                legal_line(start, moves@.subrange(0, i as int)),
            decreases moves@.len() - i,
        {
            assert(moves@.subrange(0, i + 1).drop_last() =~= moves@.subrange(0, i as int));
            if !is_legal_move(&board, &moves[i]) {
                proof {
                    if legal_line(start, moves@) {
                        lemma_legal_line_prefix(start, moves@, i as int + 1);
                        assert(moves@.subrange(0, i + 1).last() == moves@[i as int]);
                    }
                }
                return Err(EngineError::IllegalMove);
            }
            board = board.make_move_new(moves[i]);
            i = i + 1;
        }
        assert(moves@.subrange(0, moves@.len() as int) =~= moves@);
        self.board = board;

        // Clean up for the upcoming search
        // We do this here, because we're allowed to block while setting up,
        // and this way we don't use up precious search time
        self.reset_search_params();

        Ok(())
    }

    /// Starts the search clock and determines `self.stop_time` based on the
    /// provided options
    ///
    /// The stop time is left alone if the options do not indicate that one
    /// should be set, e.g. if the search is infinite. Otherwise it lies
    /// [`thinking_time`] after the start.
    pub fn calculate_stop_time(&mut self, options: &SearchOptions) -> (r: Result<(), EngineError>)
        ensures
            final(self).board == old(self).board,
            final(self).debug == old(self).debug,
            final(self).current_search_depth == old(self).current_search_depth,
            final(self).depth_limit == old(self).depth_limit,
            final(self).best_move_found == old(self).best_move_found,
            final(self).start_time is Some,
            thinking_budget(*options, side_of(old(self).board)) matches Err(e) ==> r == Err::<
                (),
                EngineError,
            >(e) && final(self).stop_time == old(self).stop_time,
            thinking_budget(*options, side_of(old(self).board)) == Ok::<Option<u64>, EngineError>(
                None,
            ) ==> r is Ok && final(self).stop_time == old(self).stop_time,
            thinking_budget(*options, side_of(old(self).board)) matches Ok(Some(ms)) ==> {
                let stop = instant_after(final(self).start_time.unwrap(), ms);
                &&& r is Ok <==> stop is Some
                &&& r is Ok ==> final(self).stop_time == stop
                &&& r is Err ==> r == Err::<(), EngineError>(EngineError::DeadlineOverflow)
                    && final(self).stop_time == old(self).stop_time
            },
    {
        let start = now();
        self.start_time = Some(start);
        match thinking_time(options, self.board.side_to_move()) {
            Err(e) => Err(e),
            // In infinite mode, we search until told to stop
            Ok(None) => Ok(()),
            Ok(Some(ms)) => match millis_after(&start, ms) {
                Some(stop) => {
                    self.stop_time = Some(stop);
                    Ok(())
                },
                None => Err(EngineError::DeadlineOverflow),
            },
        }
    }

    /// Whether the current search has run past its stop time.
    fn time_is_up(&self) -> (r: bool)
        ensures
            self.stop_time is None ==> !r,
    {
        match &self.stop_time {
            Some(stop) => {
                let now = now();
                is_later(&now, stop)
            },
            None => false,
        }
    }
}

impl Engine {
    /// Evaluates the provided board, assuming we are up to move
    ///
    /// Branches on the legal moves where the position is neither terminal, at
    /// the horizon (where the quiescence search takes over), nor out of time.
    /// Returns the score for this position and the best move it found.
    /// `alpha` and `beta` bound the scores of interest, from this node's view.
    pub fn evaluate_board(&self, board: &Board, alpha: Score, beta: Score, depth: u8) -> (r: BoardEvaluation)
        requires
            within_piece_limit(*board),
            self.current_search_depth <= MAX_SEARCH_DEPTH,
            depth <= self.current_search_depth,
            within(alpha, MAX_PLY + 1 + depth),
            within(beta, MAX_PLY + 1 + depth),
        ensures
            status_of(*board) == BoardStatus::Checkmate ==> r == BoardEvaluation::score_spec(
                Score::Mate(0),
                depth,
            ),
            status_of(*board) == BoardStatus::Stalemate ==> r == BoardEvaluation::score_spec(
                Score::Centipawns(0),
                depth,
            ),
            within(r.score, MAX_PLY - depth),
            r.mv matches Some(m) ==> legal_moves_of(*board).contains(m),
            status_of(*board) == BoardStatus::Ongoing && depth < self.current_search_depth
                && !r.terminated_early ==> r.mv is Some,
            self.stop_time is None ==> !r.terminated_early,
            !r.terminated_early ==> r == negamax(*board, alpha, beta, depth, self.current_search_depth),
            status_of(*board) == BoardStatus::Ongoing && depth < self.current_search_depth
                && r.mv is None ==> r == BoardEvaluation::early_spec(static_eval(*board), depth),
            depth == self.current_search_depth ==> (r.mv matches Some(m) ==> captures_of(
                *board,
            ).contains(m)),
            status_of(*board) == BoardStatus::Ongoing && depth < self.current_search_depth
                && r.mv is Some ==> explored(r, BoardEvaluation::min_spec(), legal_moves_of(*board)),
        decreases self.current_search_depth - depth,
    {
        match board.status() {
            BoardStatus::Checkmate => {
                // We lost :(
                BoardEvaluation::score(Score::mate(0), depth)
            },
            BoardStatus::Stalemate => BoardEvaluation::score(Score::cp(0), depth),
            BoardStatus::Ongoing => {
                if depth == self.current_search_depth {
                    // Terminate at max depth, where only captures are followed
                    let r = self.evaluate_board_quiescence(board, alpha, beta, depth);
                    proof {
                        if let Some(m) = r.mv {
                            legal_moves_of(*board).lemma_filter_contains_rev(
                                |m: ChessMove| crate::board::is_capture(*board, m),
                                m,
                            );
                        }
                    }
                    r
                } else if self.time_is_up() {
                    // Early termination on time
                    BoardEvaluation::score_early(eval_heuristic(board), depth)
                } else {
                    // Down the tree we go
                    let moves = legal_moves(board);
                    let mut best = BoardEvaluation::min();
                    let mut bound = alpha;
                    let ghost mut records: Seq<BoardEvaluation> = Seq::empty();
                    let mut i: usize = 0;
                    while i < moves.len()
                        invariant
                            self.current_search_depth <= MAX_SEARCH_DEPTH,
                            depth < self.current_search_depth,
                            moves@ == legal_moves_of(*board),
                            within_piece_limit(*board),
                            status_of(*board) == BoardStatus::Ongoing,
                            i <= moves@.len(),
                            within(bound, MAX_PLY + 1 + depth),
                            within(beta, MAX_PLY + 1 + depth),
                            within(best.score, MAX_PLY - depth),
                            best.mv matches Some(m) ==> moves@.contains(m),
                            i > 0 ==> best.mv is Some,
                            i == 0 ==> best.score == Score::Mate(0),
                            records.len() == i,
                            best == fold_records(BoardEvaluation::min_spec(), records),
                            forall|j: int|
                                0 <= j < records.len() ==> (#[trigger] records[j]).mv == Some(
                                    moves@[j],
                                ),
                            !best.terminated_early ==> negamax_scan(
                                *board,
                                moves@,
                                i as int,
                                best,
                                bound,
                                beta,
                                depth,
                                self.current_search_depth,
                            ) == negamax_scan(
                                *board,
                                moves@,
                                0,
                                BoardEvaluation::min_spec(),
                                alpha,
                                beta,
                                depth,
                                self.current_search_depth,
                            ),
                            self.stop_time is None ==> !best.terminated_early,
                        decreases moves@.len() - i,
                    {
                        let mv = moves[i];
                        let next = board.make_move_new(mv);
                        let child = self.evaluate_board(&next, beta.flip(), bound.flip(), depth + 1);
                        let eval = BoardEvaluation::from_child(child, mv);
                        let ghost prev = best;
                        best.absorb(eval);
                        proof {
                            let prev_records = records;
                            records = records.push(eval);
                            assert(records.drop_last() =~= prev_records);
                        }
                        if eval.score >= beta {
                            // Beta cutoff: the opponent will not allow this line
                            proof {
                                if !best.terminated_early {
                                    assert(best == negamax_scan(
                                        *board,
                                        moves@,
                                        i as int,
                                        prev,
                                        bound,
                                        beta,
                                        depth,
                                        self.current_search_depth,
                                    ));
                                }
                            }
                            return best;
                        }
                        if eval.score > bound {
                            bound = eval.score;
                        }
                        i = i + 1;
                    }
                    best
                }
            },
        }
    }

    /// Evaluates the captures on the provided board, assuming we are up to move,
    /// until the position is quiet
    ///
    /// The side to move may always decline to capture, so the static
    /// evaluation (the stand-pat score) is the least it is owed.
    pub fn evaluate_board_quiescence(&self, board: &Board, alpha: Score, beta: Score, depth: u8) -> (r: BoardEvaluation)
        requires
            within_piece_limit(*board),
            depth <= MAX_PLY,
            within(alpha, MAX_PLY + 1 + depth),
            within(beta, MAX_PLY + 1 + depth),
        ensures
            status_of(*board) == BoardStatus::Checkmate ==> r == BoardEvaluation::score_spec(
                Score::Mate(0),
                depth,
            ),
            status_of(*board) == BoardStatus::Stalemate ==> r == BoardEvaluation::score_spec(
                Score::Centipawns(0),
                depth,
            ),
            status_of(*board) == BoardStatus::Ongoing && !r.terminated_early ==> score_le(
                static_eval(*board),
                r.score,
            ),
            within(r.score, MAX_PLY - depth),
            r.mv matches Some(m) ==> captures_of(*board).contains(m),
            self.stop_time is None ==> !r.terminated_early,
            !r.terminated_early ==> r == quiesce(*board, alpha, beta, depth),
            status_of(*board) == BoardStatus::Ongoing && r.terminated_early && r.mv is None
                ==> r.score == static_eval(*board),
            status_of(*board) == BoardStatus::Ongoing && r.mv is Some ==> explored(
                r,
                BoardEvaluation::score_spec(static_eval(*board), depth),
                captures_of(*board),
            ),
        decreases MAX_PLY - depth,
    {
        match board.status() {
            BoardStatus::Checkmate => {
                // We lost :(
                BoardEvaluation::score(Score::mate(0), depth)
            },
            BoardStatus::Stalemate => BoardEvaluation::score(Score::cp(0), depth),
            BoardStatus::Ongoing => {
                if depth >= MAX_PLY {
                    // No line is followed any deeper
                    BoardEvaluation::score(eval_heuristic(board), depth)
                } else if self.time_is_up() {
                    // Early termination on time
                    BoardEvaluation::score_early(eval_heuristic(board), depth)
                } else {
                    let stand_pat = eval_heuristic(board);
                    if stand_pat >= beta {
                        return BoardEvaluation::score(stand_pat, depth);
                    }
                    let mut bound = if alpha < stand_pat {
                        stand_pat
                    } else {
                        alpha
                    };
                    let mut best = BoardEvaluation::score(stand_pat, depth);
                    let ghost mut records: Seq<BoardEvaluation> = Seq::empty();

                    // Down the tree we go, through captures only
                    let moves = capture_moves(board);
                    let mut i: usize = 0;
                    while i < moves.len()
                        invariant
                            depth < MAX_PLY,
                            moves@ == captures_of(*board),
                            within_piece_limit(*board),
                            status_of(*board) == BoardStatus::Ongoing,
                            i <= moves@.len(),
                            stand_pat == static_eval(*board),
                            within(bound, MAX_PLY + 1 + depth),
                            within(beta, MAX_PLY + 1 + depth),
                            within(best.score, MAX_PLY - depth),
                            score_le(stand_pat, best.score),
                            !score_le(beta, stand_pat),
                            best.mv is None ==> best.score == stand_pat,
                            records.len() == i,
                            best == fold_records(BoardEvaluation::score_spec(stand_pat, depth), records),
                            forall|j: int|
                                0 <= j < records.len() ==> (#[trigger] records[j]).mv == Some(
                                    moves@[j],
                                ),
                            best.mv matches Some(m) ==> moves@.contains(m),
                            self.stop_time is None ==> !best.terminated_early,
                            !best.terminated_early ==> quiesce_scan(
                                *board,
                                moves@,
                                i as int,
                                best,
                                bound,
                                beta,
                                depth,
                            ) == quiesce_scan(
                                *board,
                                moves@,
                                0,
                                BoardEvaluation::score_spec(stand_pat, depth),
                                raise(alpha, stand_pat),
                                beta,
                                depth,
                            ),
                        decreases moves@.len() - i,
                    {
                        let mv = moves[i];
                        proof {
                            assert(moves@.contains(mv));
                            legal_moves_of(*board).lemma_filter_contains_rev(
                                |m: ChessMove| crate::board::is_capture(*board, m),
                                mv,
                            );
                        }
                        let next = board.make_move_new(mv);
                        let child = self.evaluate_board_quiescence(&next, beta.flip(), bound.flip(), depth + 1);
                        let eval = BoardEvaluation::from_child(child, mv);
                        let ghost prev = best;
                        best.absorb(eval);
                        proof {
                            let prev_records = records;
                            records = records.push(eval);
                            assert(records.drop_last() =~= prev_records);
                        }
                        if eval.score >= beta {
                            proof {
                                if !best.terminated_early {
                                    assert(best == quiesce_scan(
                                        *board,
                                        moves@,
                                        i as int,
                                        prev,
                                        bound,
                                        beta,
                                        depth,
                                    ));
                                }
                            }
                            return best;
                        }
                        if eval.score > bound {
                            bound = eval.score;
                        }
                        i = i + 1;
                    }
                    best
                }
            },
        }
    }
}

/// A pass of iterative deepening reports what the full-window negamax search
/// of its depth finds: the score and the move.
pub open spec fn pass_found(b: Board, info: SearchInfo) -> bool {
    let eval = negamax(b, Score::Mate(0), Score::Mate(1), 0, info.depth);
    &&& eval.score == info.score
    &&& eval.mv == Some(info.mv)
    &&& eval.depth == info.seldepth
}

/// What iterative deepening does after a pass.
#[derive(Debug)]
pub enum PassStep {
    /// The pass ran out of time: the search ends with the move of the last
    /// completed pass, or fails if no pass completed
    Interrupted(Option<ChessMove>),
    /// The pass found no move: the position has none
    NoMoves,
    /// The pass completed with this move; the flag tells whether it is the last pass
    Completed(ChessMove, bool),
}

/// The decision after the pass of depth `depth`, given its record, the move
/// of the last completed pass and the depth limit.
pub open spec fn pass_step_spec(
    eval: BoardEvaluation,
    best: Option<ChessMove>,
    depth: u8,
    limit: Option<u8>,
) -> PassStep {
    if eval.terminated_early {
        PassStep::Interrupted(best)
    } else {
        match eval.mv {
            None => PassStep::NoMoves,
            Some(mv) => PassStep::Completed(
                mv,
                limit == Some(depth) || depth >= MAX_SEARCH_DEPTH,
            ),
        }
    }
}

/// Decides what iterative deepening does after the pass of depth `depth`
///
/// A pass that ran out of time is void, and the last completed pass stands;
/// a completed pass without a move means there is none; otherwise the pass's
/// move is the new best, and the search goes deeper unless the depth limit or
/// [`MAX_SEARCH_DEPTH`] is reached.
pub fn pass_step(eval: &BoardEvaluation, best: Option<ChessMove>, depth: u8, limit: Option<u8>) -> (r: PassStep)
    ensures
        r == pass_step_spec(*eval, best, depth, limit),
{
    if eval.terminated_early {
        return PassStep::Interrupted(best);
    }
    match eval.mv {
        None => PassStep::NoMoves,
        Some(mv) => {
            let at_limit = match limit {
                Some(l) => l == depth,
                None => false,
            };
            PassStep::Completed(mv, at_limit || depth >= MAX_SEARCH_DEPTH)
        },
    }
}

/// The depth at which iterative deepening stops, if the options give one.
pub open spec fn depth_limit_of(o: SearchOptions) -> Option<u8> {
    match o.depth {
        Some(d) => Some(if d > 255 {
            255u8
        } else {
            d as u8
        }),
        None => None,
    }
}

impl Engine {
    /// Searches for the best move on the position setup in [`Engine::set_position`]
    ///
    /// Runs passes of increasing depth, starting at 1, until a pass runs out of
    /// time, the depth limit of the options is reached, or [`MAX_SEARCH_DEPTH`]
    /// is: the `i8` mate counters of [`Score`] bound how deep a line can go.
    /// Each completed pass leaves a [`SearchInfo`]; the best move is the one
    /// of the last completed pass, see [`pass_step`].
    pub fn search(&mut self, options: SearchOptions) -> (r: Result<SearchReport, EngineError>)
        ensures
            final(self).board == old(self).board,
            final(self).debug == old(self).debug,
            thinking_budget(options, side_of(old(self).board)) matches Err(e) ==> r == Err::<
                SearchReport,
                EngineError,
            >(e),
            thinking_budget(options, side_of(old(self).board)) matches Ok(Some(ms)) && instant_after(
                final(self).start_time.unwrap(),
                ms,
            ) is None ==> r == Err::<SearchReport, EngineError>(EngineError::DeadlineOverflow),
            !within_piece_limit(old(self).board) && thinking_budget(options, side_of(old(self).board))
                is Ok ==> (r == Err::<SearchReport, EngineError>(EngineError::TooManyPieces) || r
                == Err::<SearchReport, EngineError>(EngineError::DeadlineOverflow)),
            r == Err::<SearchReport, EngineError>(EngineError::TooManyPieces) ==> !within_piece_limit(
                old(self).board,
            ),
            within_piece_limit(old(self).board) && thinking_budget(options, side_of(old(self).board))
                is Ok && status_of(old(self).board)
                != BoardStatus::Ongoing ==> (r == Err::<SearchReport, EngineError>(
                EngineError::NoLegalMoves) || r == Err::<SearchReport, EngineError>(
                EngineError::DeadlineOverflow)),
            status_of(old(self).board) == BoardStatus::Ongoing ==> r != Err::<
                SearchReport,
                EngineError,
            >(EngineError::NoLegalMoves),
            options.infinite && within_piece_limit(old(self).board) && status_of(old(self).board)
                == BoardStatus::Ongoing ==> r is Ok,
            r == Err::<SearchReport, EngineError>(EngineError::DeadlineOverflow) ==> (
            thinking_budget(options, side_of(old(self).board)) == Err::<Option<u64>, EngineError>(
                EngineError::DeadlineOverflow,
            ) || (thinking_budget(options, side_of(old(self).board)) matches Ok(Some(ms))
                && instant_after(final(self).start_time.unwrap(), ms) is None)),
            r == Err::<SearchReport, EngineError>(EngineError::NoMoveFound) ==> {
                &&& final(self).current_search_depth == 1
                &&& final(self).best_move_found is None
                &&& final(self).stop_time is Some
            },
            r matches Ok(report) ==> {
                &&& 1 <= report.infos@.len() <= MAX_SEARCH_DEPTH
                &&& forall|i: int|
                    0 <= i < report.infos@.len() ==> #[trigger] report.infos@[i].depth == i + 1
                &&& forall|i: int|
                    0 <= i < report.infos@.len() ==> pass_found(
                        old(self).board,
                        #[trigger] report.infos@[i],
                    )
                &&& report.best_move == report.infos@.last().mv
                &&& legal_moves_of(old(self).board).contains(report.best_move)
                &&& final(self).best_move_found == Some(report.best_move)
                &&& depth_limit_of(options) matches Some(d) ==> (d >= 1 ==> report.infos@.len() <= d)
                &&& depth_limit_of(options) matches Some(d) ==> (1 <= d <= MAX_SEARCH_DEPTH
                    && !report.interrupted ==> report.infos@.len() == d)
                &&& report.interrupted ==> report.infos@.len() == final(self).current_search_depth
                    - 1 && final(self).stop_time is Some
                &&& !report.interrupted ==> (report.infos@.len() == MAX_SEARCH_DEPTH
                    || depth_limit_of(options) == Some(report.infos@.len() as u8))
                &&& options.infinite ==> !report.interrupted
            },
    {
        self.reset_search_params();

        // Determine and set stop time
        match self.calculate_stop_time(&options) {
            Err(e) => return Err(e),
            Ok(()) => {},
        }

        // Set depth limit if provided
        self.depth_limit = match options.depth {
            Some(d) => Some(
                if d > 255 {
                    255u8
                } else {
                    d as u8
                },
            ),
            None => None,
        };

        // Move generation holds at most 16 pieces of the side to move
        if !piece_limit_holds(&self.board) {
            return Err(EngineError::TooManyPieces);
        }

        let mut infos: Vec<SearchInfo> = Vec::new();
        let ghost board = self.board;
        let ghost old_start = self.start_time;
        loop
            invariant
                self.board == board,
                self.debug == old(self).debug,
                self.depth_limit == depth_limit_of(options),
                1 <= self.current_search_depth <= MAX_SEARCH_DEPTH,
                infos@.len() == self.current_search_depth - 1,
                forall|i: int| 0 <= i < infos@.len() ==> #[trigger] infos@[i].depth == i + 1,
                forall|i: int| 0 <= i < infos@.len() ==> pass_found(board, #[trigger] infos@[i]),
                infos@.len() == 0 ==> self.best_move_found is None,
                infos@.len() > 0 ==> self.best_move_found == Some(infos@.last().mv),
                self.best_move_found matches Some(m) ==> legal_moves_of(board).contains(m),
                self.depth_limit matches Some(d) ==> (d >= 1 ==> infos@.len() < d),
                board == old(self).board,
                thinking_budget(options, side_of(board)) is Ok,
                options.infinite ==> self.stop_time is None,
                within_piece_limit(board),
                self.start_time == old_start,
                self.start_time is Some,
                thinking_budget(options, side_of(board)) matches Ok(Some(ms)) ==> instant_after(
                    self.start_time.unwrap(),
                    ms,
                ) is Some,
                self.stop_time is None ==> options.infinite || thinking_budget(
                    options,
                    side_of(board),
                ) == Ok::<Option<u64>, EngineError>(None),
            decreases MAX_SEARCH_DEPTH - self.current_search_depth,
        {
            let eval = self.evaluate_board(&self.board, Score::min(), Score::max(), 0);
            match pass_step(&eval, self.best_move_found, self.current_search_depth, self.depth_limit) {
                // Out of time: the last completed pass stands
                PassStep::Interrupted(Some(mv)) => {
                    return Ok(SearchReport { best_move: mv, infos, interrupted: true });
                },
                PassStep::Interrupted(None) => return Err(EngineError::NoMoveFound),
                PassStep::NoMoves => return Err(EngineError::NoLegalMoves),
                PassStep::Completed(mv, last) => {
                    let time_ms = match &self.start_time {
                        Some(start) => millis_since(start),
                        None => 0,
                    };
                    infos.push(
                        SearchInfo {
                            score: eval.score,
                            mv,
                            depth: self.current_search_depth,
                            seldepth: eval.depth,
                            time_ms,
                        },
                    );
                    self.best_move_found = Some(mv);
                    if last {
                        return Ok(SearchReport { best_move: mv, infos, interrupted: false });
                    }
                    // Deeper we go
                    self.current_search_depth = self.current_search_depth + 1;
                },
            }
        }
    }
}

} // verus!
