//! Soundness of the pruning: away from mates, the alpha-beta search finds the
//! same score as a full minimax over the same tree.

use crate::board::{after_move, captures_of, legal_moves_of, status_of};
use crate::engine::{
    negamax, negamax_scan, quiesce, quiesce_scan, raise, static_eval, within, BoardEvaluation,
    MAX_PLY, MAX_SEARCH_DEPTH,
};
use crate::score::{flip_spec, flippable, lemma_flip_reverses, score_le, score_lt, Score};
use chess::{Board, BoardStatus, ChessMove};
use vstd::prelude::*;

verus! {

/// A centipawn score whose negation fits.
pub open spec fn is_cp(s: Score) -> bool {
    s matches Score::Centipawns(c) && c > i16::MIN
}

/// The result `r` of a search with the window `(alpha, beta)` agrees with the
/// true value `v`: exact inside the window, a lower bound of `v` at or above
/// `beta`, an upper bound at or below `alpha`.
pub open spec fn bounded_by(r: Score, v: Score, alpha: Score, beta: Score) -> bool {
    &&& score_le(beta, r) ==> score_le(r, v)
    &&& score_le(r, alpha) ==> score_le(v, r)
    &&& score_lt(alpha, r) && score_lt(r, beta) ==> r == v
}

/// The value of the quiescence tree of `b` at `ply` with nothing pruned: the
/// best of the stand-pat score and every capture.
pub open spec fn quiesce_value(b: Board, ply: u8) -> Score
    decreases MAX_PLY - ply, 1int, 0int,
{
    match status_of(b) {
        BoardStatus::Checkmate => Score::Mate(0),
        BoardStatus::Stalemate => Score::Centipawns(0),
        BoardStatus::Ongoing => if ply >= MAX_PLY {
            static_eval(b)
        } else {
            quiesce_value_scan(b, captures_of(b), 0, static_eval(b), ply)
        },
    }
}

/// The best of `best` and the values of the moves from `i` on.
pub open spec fn quiesce_value_scan(b: Board, moves: Seq<ChessMove>, i: int, best: Score, ply: u8) -> Score
    decreases MAX_PLY - ply, 0int, moves.len() - i,
{
    if i < 0 || i >= moves.len() || ply >= MAX_PLY {
        best
    } else {
        quiesce_value_scan(
            b,
            moves,
            i + 1,
            raise(best, flip_spec(quiesce_value(after_move(b, moves[i]), (ply + 1) as u8))),
            ply,
        )
    }
}

/// No line of captures from `b` at `ply` runs into a checkmate or a stalemate.
pub open spec fn quiet_line(b: Board, ply: u8) -> bool
    decreases MAX_PLY - ply,
{
    &&& status_of(b) == BoardStatus::Ongoing
    &&& ply < MAX_PLY ==> forall|j: int|
        0 <= j < captures_of(b).len() ==> quiet_line(
            after_move(b, #[trigger] captures_of(b)[j]),
            (ply + 1) as u8,
        )
}

/// For a centipawn score `c`, comparing its flip with `x` is comparing `c`
/// with the flip of `x`.
proof fn lemma_flip_duality(c: Score, x: Score)
    requires
        is_cp(c),
        flippable(x),
    ensures
        score_le(flip_spec(c), x) <==> score_le(flip_spec(x), c),
        score_le(x, flip_spec(c)) <==> score_le(c, flip_spec(x)),
        is_cp(flip_spec(c)),
        flip_spec(flip_spec(c)) == c,
{
}

/// Scanning more moves never lowers the best value.
proof fn lemma_quiesce_value_scan_grows(b: Board, moves: Seq<ChessMove>, i: int, best: Score, ply: u8)
    ensures
        score_le(best, quiesce_value_scan(b, moves, i, best, ply)),
    decreases moves.len() - i,
{
    if !(i < 0 || i >= moves.len() || ply >= MAX_PLY) {
        let next = raise(best, flip_spec(quiesce_value(after_move(b, moves[i]), (ply + 1) as u8)));
        lemma_quiesce_value_scan_grows(b, moves, i + 1, next, ply);
    }
}

/// Along quiet lines every value is a centipawn score.
proof fn lemma_quiesce_value_cp(b: Board, ply: u8)
    requires
        quiet_line(b, ply),
        ply <= MAX_PLY,
    ensures
        is_cp(quiesce_value(b, ply)),
    decreases MAX_PLY - ply, 1int, 0int,
{
    if ply < MAX_PLY {
        lemma_quiesce_value_scan_cp(b, 0, static_eval(b), ply);
    }
}

proof fn lemma_quiesce_value_scan_cp(b: Board, i: int, best: Score, ply: u8)
    requires
        ply < MAX_PLY,
        forall|j: int|
            0 <= j < captures_of(b).len() ==> quiet_line(
                after_move(b, #[trigger] captures_of(b)[j]),
                (ply + 1) as u8,
            ),
        0 <= i <= captures_of(b).len(),
        is_cp(best),
    ensures
        is_cp(quiesce_value_scan(b, captures_of(b), i, best, ply)),
    decreases MAX_PLY - ply, 0int, captures_of(b).len() - i,
{
    let moves = captures_of(b);
    if i < moves.len() {
        let child = after_move(b, moves[i]);
        lemma_quiesce_value_cp(child, (ply + 1) as u8);
        let v = quiesce_value(child, (ply + 1) as u8);
        lemma_flip_duality(v, v);
        lemma_quiesce_value_scan_cp(b, i + 1, raise(best, flip_spec(v)), ply);
    }
}

/// What a child's bounds say of the move's lifted score `l` and its lifted
/// true value `lv`, one level up, for the window `(a, beta)` of the parent.
proof fn lemma_lift_bounds(c: Score, cv: Score, a: Score, beta: Score)
    requires
        is_cp(c),
        is_cp(cv),
        flippable(a),
        flippable(beta),
        bounded_by(c, cv, flip_spec(beta), flip_spec(a)),
    ensures
        score_le(beta, flip_spec(c)) ==> score_le(flip_spec(c), flip_spec(cv)),
        score_le(flip_spec(c), a) ==> score_le(flip_spec(cv), flip_spec(c)),
        score_lt(a, flip_spec(c)) && score_lt(flip_spec(c), beta) ==> flip_spec(c) == flip_spec(
            cv,
        ),
        is_cp(flip_spec(c)),
        is_cp(flip_spec(cv)),
{
    lemma_flip_duality(c, a);
    lemma_flip_duality(c, beta);
    lemma_flip_reverses(c, cv);
}

/// The quiescence scan agrees with the full scan, given that the moves so far
/// left the best score `best.score` and the true best `m` in agreement.
proof fn lemma_quiesce_scan_sound(
    b: Board,
    i: int,
    best: BoardEvaluation,
    a: Score,
    alpha: Score,
    beta: Score,
    ply: u8,
    m: Score,
)
    requires
        ply < MAX_PLY,
        forall|j: int|
            0 <= j < captures_of(b).len() ==> quiet_line(
                after_move(b, #[trigger] captures_of(b)[j]),
                (ply + 1) as u8,
            ),
        0 <= i <= captures_of(b).len(),
        score_lt(alpha, beta),
        within(alpha, MAX_PLY + 1 + ply),
        within(beta, MAX_PLY + 1 + ply),
        is_cp(best.score),
        is_cp(m),
        score_lt(best.score, beta),
        a == raise(alpha, best.score),
        score_le(m, best.score),
        score_lt(alpha, best.score) ==> m == best.score,
    ensures
        is_cp(quiesce_scan(b, captures_of(b), i, best, a, beta, ply).score),
        is_cp(quiesce_value_scan(b, captures_of(b), i, m, ply)),
        bounded_by(
            quiesce_scan(b, captures_of(b), i, best, a, beta, ply).score,
            quiesce_value_scan(b, captures_of(b), i, m, ply),
            alpha,
            beta,
        ),
    decreases MAX_PLY - ply, 0int, captures_of(b).len() - i,
{
    let moves = captures_of(b);
    if i < moves.len() {
        let child = after_move(b, moves[i]);
        let cb = flip_spec(beta);
        let ca = flip_spec(a);
        lemma_flip_reverses(a, beta);
        lemma_quiesce_sound(child, cb, ca, (ply + 1) as u8);
        let c = quiesce(child, cb, ca, (ply + 1) as u8).score;
        let cv = quiesce_value(child, (ply + 1) as u8);
        lemma_lift_bounds(c, cv, a, beta);
        let l = flip_spec(c);
        let lv = flip_spec(cv);
        let lifted = BoardEvaluation::from_child_spec(
            quiesce(child, cb, ca, (ply + 1) as u8),
            moves[i],
        );
        assert(lifted.score == l);
        if score_le(beta, l) {
            lemma_quiesce_value_scan_grows(b, moves, i + 1, raise(m, lv), ply);
            lemma_quiesce_value_scan_cp(b, i + 1, raise(m, lv), ply);
        } else {
            let next = crate::engine::absorb_spec(best, lifted);
            lemma_quiesce_scan_sound(b, i + 1, next, raise(a, l), alpha, beta, ply, raise(m, lv));
        }
    }
}

/// The quiescence search agrees with the full quiescence value where no line
/// of captures reaches a mate or a stalemate.
proof fn lemma_quiesce_sound(b: Board, alpha: Score, beta: Score, ply: u8)
    requires
        quiet_line(b, ply),
        ply <= MAX_PLY,
        score_lt(alpha, beta),
        within(alpha, MAX_PLY + 1 + ply),
        within(beta, MAX_PLY + 1 + ply),
    ensures
        is_cp(quiesce(b, alpha, beta, ply).score),
        is_cp(quiesce_value(b, ply)),
        bounded_by(quiesce(b, alpha, beta, ply).score, quiesce_value(b, ply), alpha, beta),
    decreases MAX_PLY - ply, 1int, 0int,
{
    let sp = static_eval(b);
    if ply < MAX_PLY {
        if score_le(beta, sp) {
            lemma_quiesce_value_scan_grows(b, captures_of(b), 0, sp, ply);
            lemma_quiesce_value_scan_cp(b, 0, sp, ply);
        } else {
            lemma_quiesce_scan_sound(
                b,
                0,
                BoardEvaluation::score_spec(sp, ply),
                raise(alpha, sp),
                alpha,
                beta,
                ply,
                sp,
            );
        }
    }
}

/// The value of the search tree of `b` at `ply` with nothing pruned: the best
/// of every legal move down to `horizon`, and the full quiescence value there.
pub open spec fn negamax_value(b: Board, ply: u8, horizon: u8) -> Score
    decreases horizon - ply, 1int, 0int,
{
    match status_of(b) {
        BoardStatus::Checkmate => Score::Mate(0),
        BoardStatus::Stalemate => Score::Centipawns(0),
        BoardStatus::Ongoing => if ply >= horizon {
            quiesce_value(b, ply)
        } else {
            negamax_value_scan(b, legal_moves_of(b), 0, Score::Mate(0), ply, horizon)
        },
    }
}

/// The best of `best` and the values of the moves from `i` on.
pub open spec fn negamax_value_scan(
    b: Board,
    moves: Seq<ChessMove>,
    i: int,
    best: Score,
    ply: u8,
    horizon: u8,
) -> Score
    decreases horizon - ply, 0int, moves.len() - i,
{
    if i < 0 || i >= moves.len() || ply >= horizon {
        best
    } else {
        negamax_value_scan(
            b,
            moves,
            i + 1,
            raise(
                best,
                flip_spec(negamax_value(after_move(b, moves[i]), (ply + 1) as u8, horizon)),
            ),
            ply,
            horizon,
        )
    }
}

/// No line from `b` at `ply` runs into a checkmate or a stalemate before the
/// horizon, nor through captures after it.
pub open spec fn quiet_tree(b: Board, ply: u8, horizon: u8) -> bool
    decreases horizon - ply,
{
    &&& status_of(b) == BoardStatus::Ongoing
    &&& legal_moves_of(b).len() > 0
    &&& if ply >= horizon {
        quiet_line(b, ply)
    } else {
        forall|j: int|
            0 <= j < legal_moves_of(b).len() ==> quiet_tree(
                after_move(b, #[trigger] legal_moves_of(b)[j]),
                (ply + 1) as u8,
                horizon,
            )
    }
}

proof fn lemma_negamax_value_scan_grows(
    b: Board,
    moves: Seq<ChessMove>,
    i: int,
    best: Score,
    ply: u8,
    horizon: u8,
)
    ensures
        score_le(best, negamax_value_scan(b, moves, i, best, ply, horizon)),
    decreases moves.len() - i,
{
    if !(i < 0 || i >= moves.len() || ply >= horizon) {
        let next = raise(
            best,
            flip_spec(negamax_value(after_move(b, moves[i]), (ply + 1) as u8, horizon)),
        );
        lemma_negamax_value_scan_grows(b, moves, i + 1, next, ply, horizon);
    }
}

proof fn lemma_negamax_value_cp(b: Board, ply: u8, horizon: u8)
    requires
        quiet_tree(b, ply, horizon),
        ply <= horizon <= MAX_SEARCH_DEPTH,
    ensures
        is_cp(negamax_value(b, ply, horizon)),
    decreases horizon - ply, 1int, 0int,
{
    if ply >= horizon {
        lemma_quiesce_value_cp(b, ply);
    } else {
        lemma_negamax_value_scan_cp(b, 0, Score::Mate(0), ply, horizon);
    }
}

proof fn lemma_negamax_value_scan_cp(b: Board, i: int, best: Score, ply: u8, horizon: u8)
    requires
        ply < horizon <= MAX_SEARCH_DEPTH,
        forall|j: int|
            0 <= j < legal_moves_of(b).len() ==> quiet_tree(
                after_move(b, #[trigger] legal_moves_of(b)[j]),
                (ply + 1) as u8,
                horizon,
            ),
        0 <= i <= legal_moves_of(b).len(),
        is_cp(best) || (best == Score::Mate(0) && i < legal_moves_of(b).len()),
    ensures
        is_cp(negamax_value_scan(b, legal_moves_of(b), i, best, ply, horizon)),
    decreases horizon - ply, 0int, legal_moves_of(b).len() - i,
{
    let moves = legal_moves_of(b);
    if i < moves.len() {
        let child = after_move(b, moves[i]);
        lemma_negamax_value_cp(child, (ply + 1) as u8, horizon);
        let v = negamax_value(child, (ply + 1) as u8, horizon);
        lemma_flip_duality(v, v);
        lemma_negamax_value_scan_cp(b, i + 1, raise(best, flip_spec(v)), ply, horizon);
    }
}

proof fn lemma_negamax_scan_sound(
    b: Board,
    i: int,
    best: BoardEvaluation,
    a: Score,
    alpha: Score,
    beta: Score,
    ply: u8,
    horizon: u8,
    m: Score,
)
    requires
        ply < horizon <= MAX_SEARCH_DEPTH,
        forall|j: int|
            0 <= j < legal_moves_of(b).len() ==> quiet_tree(
                after_move(b, #[trigger] legal_moves_of(b)[j]),
                (ply + 1) as u8,
                horizon,
            ),
        0 <= i <= legal_moves_of(b).len(),
        score_lt(alpha, beta),
        within(alpha, MAX_PLY + 1 + ply),
        within(beta, MAX_PLY + 1 + ply),
        (is_cp(best.score) && is_cp(m)) || (best.score == Score::Mate(0) && m == Score::Mate(0)
            && i < legal_moves_of(b).len()),
        score_lt(best.score, beta),
        a == raise(alpha, best.score),
        score_le(m, best.score),
        score_lt(alpha, best.score) ==> m == best.score,
        is_cp(best.score) ==> best.mv is Some,
        best.mv matches Some(mv) ==> (score_lt(alpha, best.score) ==> legal_moves_of(b).contains(mv)
            && flip_spec(negamax_value(after_move(b, mv), (ply + 1) as u8, horizon)) == best.score),
    ensures
        is_cp(negamax_scan(b, legal_moves_of(b), i, best, a, beta, ply, horizon).score) ==> negamax_scan(
            b,
            legal_moves_of(b),
            i,
            best,
            a,
            beta,
            ply,
            horizon,
        ).mv is Some,
        negamax_scan(b, legal_moves_of(b), i, best, a, beta, ply, horizon).mv matches Some(mv) ==> (
        score_lt(alpha, negamax_scan(b, legal_moves_of(b), i, best, a, beta, ply, horizon).score)
            && score_lt(negamax_scan(b, legal_moves_of(b), i, best, a, beta, ply, horizon).score, beta)
            ==> legal_moves_of(b).contains(mv) && flip_spec(
            negamax_value(after_move(b, mv), (ply + 1) as u8, horizon),
        ) == negamax_scan(b, legal_moves_of(b), i, best, a, beta, ply, horizon).score),
        is_cp(negamax_scan(b, legal_moves_of(b), i, best, a, beta, ply, horizon).score),
        is_cp(negamax_value_scan(b, legal_moves_of(b), i, m, ply, horizon)),
        bounded_by(
            negamax_scan(b, legal_moves_of(b), i, best, a, beta, ply, horizon).score,
            negamax_value_scan(b, legal_moves_of(b), i, m, ply, horizon),
            alpha,
            beta,
        ),
    decreases horizon - ply, 0int, legal_moves_of(b).len() - i,
{
    let moves = legal_moves_of(b);
    if i < moves.len() {
        let child = after_move(b, moves[i]);
        let cb = flip_spec(beta);
        let ca = flip_spec(a);
        lemma_flip_reverses(a, beta);
        lemma_negamax_sound(child, cb, ca, (ply + 1) as u8, horizon);
        let c = negamax(child, cb, ca, (ply + 1) as u8, horizon).score;
        let cv = negamax_value(child, (ply + 1) as u8, horizon);
        lemma_lift_bounds(c, cv, a, beta);
        let l = flip_spec(c);
        let lv = flip_spec(cv);
        let lifted = BoardEvaluation::from_child_spec(
            negamax(child, cb, ca, (ply + 1) as u8, horizon),
            moves[i],
        );
        assert(lifted.score == l);
        assert(moves.contains(moves[i]));
        if score_le(beta, l) {
            lemma_negamax_value_scan_grows(b, moves, i + 1, raise(m, lv), ply, horizon);
            lemma_negamax_value_scan_cp(b, i + 1, raise(m, lv), ply, horizon);
        } else {
            let next = crate::engine::absorb_spec(best, lifted);
            lemma_negamax_scan_sound(
                b,
                i + 1,
                next,
                raise(a, l),
                alpha,
                beta,
                ply,
                horizon,
                raise(m, lv),
            );
        }
    }
}

proof fn lemma_negamax_sound(b: Board, alpha: Score, beta: Score, ply: u8, horizon: u8)
    requires
        quiet_tree(b, ply, horizon),
        ply <= horizon <= MAX_SEARCH_DEPTH,
        score_lt(alpha, beta),
        within(alpha, MAX_PLY + 1 + ply),
        within(beta, MAX_PLY + 1 + ply),
    ensures
        is_cp(negamax(b, alpha, beta, ply, horizon).score),
        is_cp(negamax_value(b, ply, horizon)),
        bounded_by(
            negamax(b, alpha, beta, ply, horizon).score,
            negamax_value(b, ply, horizon),
            alpha,
            beta,
        ),
    decreases horizon - ply, 1int, 0int,
{
    if ply >= horizon {
        lemma_quiesce_sound(b, alpha, beta, ply);
    } else {
        lemma_negamax_scan_sound(
            b,
            0,
            BoardEvaluation::min_spec(),
            alpha,
            alpha,
            beta,
            ply,
            horizon,
            Score::Mate(0),
        );
    }
}

/// Alpha-beta pruning is sound away from mates: where no line within the
/// horizon ends in checkmate or stalemate, nor any line of captures after it,
/// the search from the root with the full window `(Mate(0), Mate(1))` finds
/// exactly the score of a full minimax over the same tree.
pub proof fn lemma_alpha_beta_sound(b: Board, horizon: u8)
    requires
        quiet_tree(b, 0, horizon),
        horizon <= MAX_SEARCH_DEPTH,
    ensures
        negamax(b, Score::Mate(0), Score::Mate(1), 0, horizon).score == negamax_value(
            b,
            0,
            horizon,
        ),
{
    lemma_negamax_sound(b, Score::Mate(0), Score::Mate(1), 0, horizon);
}

/// The scan keeps the stand-pat record while no capture comes out better.
proof fn lemma_stand_pat_scan(
    b: Board,
    i: int,
    best: BoardEvaluation,
    alpha: Score,
    beta: Score,
    ply: u8,
)
    requires
        0 <= i <= captures_of(b).len(),
        best.score == static_eval(b),
        best.mv is None,
        score_lt(static_eval(b), beta),
        forall|j: int|
            0 <= j < captures_of(b).len() ==> score_le(
                flip_spec(
                    quiesce(
                        after_move(b, #[trigger] captures_of(b)[j]),
                        flip_spec(beta),
                        flip_spec(raise(alpha, static_eval(b))),
                        (ply + 1) as u8,
                    ).score,
                ),
                static_eval(b),
            ),
    ensures
        quiesce_scan(b, captures_of(b), i, best, raise(alpha, static_eval(b)), beta, ply).score
            == static_eval(b),
        quiesce_scan(b, captures_of(b), i, best, raise(alpha, static_eval(b)), beta, ply).mv is None,
    decreases captures_of(b).len() - i,
{
    let moves = captures_of(b);
    let a = raise(alpha, static_eval(b));
    if i < moves.len() && ply < MAX_PLY {
        let lifted = BoardEvaluation::from_child_spec(
            quiesce(after_move(b, moves[i]), flip_spec(beta), flip_spec(a), (ply + 1) as u8),
            moves[i],
        );
        let next = crate::engine::absorb_spec(best, lifted);
        assert(raise(a, lifted.score) == a);
        lemma_stand_pat_scan(b, i + 1, next, alpha, beta, ply);
    }
}

/// Where every capture comes out no better for the side to move than standing
/// pat, the quiescence search returns the stand-pat score and no move.
pub proof fn lemma_stand_pat_kept(b: Board, alpha: Score, beta: Score, ply: u8)
    requires
        status_of(b) == BoardStatus::Ongoing,
        forall|j: int|
            0 <= j < captures_of(b).len() ==> score_le(
                flip_spec(
                    quiesce(
                        after_move(b, #[trigger] captures_of(b)[j]),
                        flip_spec(beta),
                        flip_spec(raise(alpha, static_eval(b))),
                        (ply + 1) as u8,
                    ).score,
                ),
                static_eval(b),
            ),
    ensures
        quiesce(b, alpha, beta, ply).score == static_eval(b),
        quiesce(b, alpha, beta, ply).mv is None,
{
    let sp = static_eval(b);
    if !(ply >= MAX_PLY || score_le(beta, sp)) {
        lemma_stand_pat_scan(b, 0, BoardEvaluation::score_spec(sp, ply), alpha, beta, ply);
    }
}

/// Away from mates, the move chosen at the root is a best move: with the full
/// window, the search picks a legal move whose own full minimax value, seen
/// from the root, is the root's full minimax value.
pub proof fn lemma_best_move_sound(b: Board, horizon: u8)
    requires
        quiet_tree(b, 0, horizon),
        1 <= horizon <= MAX_SEARCH_DEPTH,
    ensures
        negamax(b, Score::Mate(0), Score::Mate(1), 0, horizon).mv matches Some(m) && legal_moves_of(
            b,
        ).contains(m) && flip_spec(negamax_value(after_move(b, m), 1, horizon)) == negamax_value(
            b,
            0,
            horizon,
        ),
{
    lemma_negamax_sound(b, Score::Mate(0), Score::Mate(1), 0, horizon);
    lemma_negamax_scan_sound(
        b,
        0,
        BoardEvaluation::min_spec(),
        Score::Mate(0),
        Score::Mate(0),
        Score::Mate(1),
        0,
        horizon,
        Score::Mate(0),
    );
}

} // verus!
