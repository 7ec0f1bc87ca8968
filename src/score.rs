//! See [`Score`]

use core::cmp::Ordering;
use vstd::prelude::*;

verus! {

/// Score evaluation for a position
///
/// Scores are always from the perspective of the current player,
/// so positive scores are winning, and negative scores are losing
#[derive(Debug, Clone, Copy, PartialEq, Eq, Structural)]
pub enum Score {
    /// Score advantage in centipawns
    Centipawns(i16),
    /// Mate in x turns
    ///
    /// Positive is that we can mate in that many turns,
    /// negative is getting mated in that many turns.
    /// A value of zero means we are currently in checkmate.
    Mate(i8),
}

/// The position of every score on one line of integers: being mated sooner
/// sits lowest, centipawns keep their value, and mating sooner sits highest.
pub open spec fn rank(s: Score) -> int {
    match s {
        Score::Centipawns(c) => c as int,
        Score::Mate(m) => if m <= 0 {
            -1_000_000 - m
        } else {
            1_000_000 - m
        },
    }
}

/// Three-way comparison of two integers.
pub open spec fn compare_int(a: int, b: int) -> Ordering {
    if a < b {
        Ordering::Less
    } else if a == b {
        Ordering::Equal
    } else {
        Ordering::Greater
    }
}

/// The order of scores, which is the order of their ranks.
pub open spec fn score_cmp(a: Score, b: Score) -> Ordering {
    compare_int(rank(a), rank(b))
}

/// `a` is strictly worse than `b` for the side to move.
pub open spec fn score_lt(a: Score, b: Score) -> bool {
    rank(a) < rank(b)
}

/// `a` is no better than `b` for the side to move.
pub open spec fn score_le(a: Score, b: Score) -> bool {
    rank(a) <= rank(b)
}

/// The score seen by the opponent, one ply further from any mate.
pub open spec fn flip_spec(s: Score) -> Score {
    match s {
        Score::Centipawns(c) => Score::Centipawns((-c) as i16),
        Score::Mate(m) => if m > 0 {
            Score::Mate((-(m + 1)) as i8)
        } else {
            Score::Mate((-m + 1) as i8)
        },
    }
}

/// The score seen by the opponent, with the mate counter kept.
pub open spec fn negate_spec(s: Score) -> Score {
    match s {
        Score::Centipawns(c) => Score::Centipawns((-c) as i16),
        Score::Mate(m) => Score::Mate((-m) as i8),
    }
}

/// Scores that [`Score::flip`] can turn without leaving the range of the
/// counters: a centipawn value whose negation fits, or a mate within 126 plies.
pub open spec fn flippable(s: Score) -> bool {
    match s {
        Score::Centipawns(c) => c > i16::MIN,
        Score::Mate(m) => -126 <= m <= 126,
    }
}

/// Scores that [`Score::negate`] accepts: all but the current checkmate, and
/// neither counter at its lowest value.
pub open spec fn negatable(s: Score) -> bool {
    match s {
        Score::Centipawns(c) => c > i16::MIN,
        Score::Mate(m) => m != 0 && m > i8::MIN,
    }
}

impl Score {
    /// Create [`Self`] with the provided centipawn score
    pub fn cp(score: i16) -> (r: Self)
        ensures
            r == Score::Centipawns(score),
    {
        Score::Centipawns(score)
    }

    /// Create [`Self`] with the provided mate score
    pub fn mate(moves: i8) -> (r: Self)
        ensures
            r == Score::Mate(moves),
    {
        Score::Mate(moves)
    }

    /// Semantically inverts `self`, to evaluate this score from the opponents perspective
    ///
    /// In the case of mate scores, the mate counter is increased,
    /// as this is more convenient in the minimax algorithm.
    pub fn flip(self) -> (r: Self)
        requires
            flippable(self),
        ensures
            r == flip_spec(self),
    {
        match self {
            Score::Centipawns(cp) => Score::Centipawns(-cp),
            Score::Mate(m) => {
                if m > 0 {
                    Score::Mate(-(m + 1))
                } else {
                    Score::Mate(-m + 1)
                }
            },
        }
    }

    /// Semantically inverts `self`, to evaluate this score from the opponents perspective
    ///
    /// Unlike [`Self::flip`], mate scores are not incremented.
    /// The current checkmate, M0, has no such inverse and is not accepted.
    pub fn negate(self) -> (r: Self)
        requires
            negatable(self),
        ensures
            r == negate_spec(self),
    {
        match self {
            Score::Centipawns(cp) => Score::Centipawns(-cp),
            Score::Mate(m) => Score::Mate(-m),
        }
    }

    /// The minimum possible score, M0
    pub fn min() -> (r: Self)
        ensures
            r == Score::Mate(0),
            forall|s: Score| #[trigger] score_le(r, s),
    {
        Score::Mate(0)
    }

    /// The minimum possible score that can still be efficiently negated, -M1
    pub fn min_negatable() -> (r: Self)
        ensures
            r == Score::Mate(-1i8),
            negatable(r),
            forall|s: Score| s != Score::Mate(0) ==> #[trigger] score_le(r, s),
    {
        Score::Mate(-1)
    }

    /// The maximum possible score, M1
    pub fn max() -> (r: Self)
        ensures
            r == Score::Mate(1),
            forall|s: Score| #[trigger] score_le(s, r),
    {
        Score::Mate(1)
    }

    /// Compares two scores:
    /// (we get mated) < (negative centipawns) < (positive centipawns) < (they get mated)
    pub fn cmp(&self, other: &Self) -> (r: Ordering)
        ensures
            r == score_cmp(*self, *other),
    {
        match (self, other) {
            // If both scores are in centipawns, then the internal values can be compared directly
            (Score::Centipawns(s1), Score::Centipawns(s2)) => {
                if *s1 < *s2 {
                    Ordering::Less
                } else if *s1 == *s2 {
                    Ordering::Equal
                } else {
                    Ordering::Greater
                }
            },
            (Score::Centipawns(_), Score::Mate(m)) => {
                if *m <= 0 {
                    // We are getting mated: anything else is a higher score
                    Ordering::Greater
                } else {
                    // They are getting mated: anything else is a lower score
                    Ordering::Less
                }
            },
            (Score::Mate(m), Score::Centipawns(_)) => {
                if *m <= 0 {
                    Ordering::Less
                } else {
                    Ordering::Greater
                }
            },
            // If both scores are mates, then the order is:
            // M0 < -M1 < -Mn < Mn < M1
            (Score::Mate(m1), Score::Mate(m2)) => {
                if (*m1 <= 0 && *m2 <= 0) || (*m1 > 0 && *m2 > 0) {
                    // Reverse, since lower counters are actually better
                    if *m2 < *m1 {
                        Ordering::Less
                    } else if *m2 == *m1 {
                        Ordering::Equal
                    } else {
                        Ordering::Greater
                    }
                } else if *m1 <= 0 {
                    Ordering::Less
                } else {
                    Ordering::Greater
                }
            },
        }
    }
}

impl PartialOrd for Score {
    fn partial_cmp(&self, other: &Self) -> (r: Option<Ordering>)
        ensures
            r == Some(score_cmp(*self, *other)),
    {
        Some(self.cmp(other))
    }
}

impl vstd::std_specs::cmp::PartialOrdSpecImpl for Score {
    open spec fn obeys_partial_cmp_spec() -> bool {
        true
    }

    open spec fn partial_cmp_spec(&self, other: &Score) -> Option<Ordering> {
        Some(score_cmp(*self, *other))
    }
}

/// The order of scores is total: of `a < b`, `a == b` and `b < a` exactly one
/// holds, and `<` is transitive and antisymmetric.
pub proof fn lemma_total_order(a: Score, b: Score, c: Score)
    ensures
        score_lt(a, b) || a == b || score_lt(b, a),
        !(score_lt(a, b) && a == b),
        !(score_lt(b, a) && a == b),
        !(score_lt(a, b) && score_lt(b, a)),
        score_lt(a, b) && score_lt(b, c) ==> score_lt(a, c),
        score_le(a, b) && score_le(b, a) ==> a == b,
        score_cmp(a, b) == Ordering::Equal <==> a == b,
{
}

/// Flipping negates centipawns, turns the current checkmate into a mate in
/// one, and moves every other mate to the other side one ply further away.
/// Flipping twice keeps centipawns and the side of a mate, two plies further.
pub proof fn lemma_flip_values(s: Score)
    requires
        flippable(s),
    ensures
        s matches Score::Centipawns(c) ==> flip_spec(s) == Score::Centipawns((-c) as i16),
        s == Score::Mate(0) ==> flip_spec(s) == Score::Mate(1),
        s matches Score::Mate(m) ==> (m > 0 ==> flip_spec(s) == Score::Mate((-(m + 1)) as i8)),
        s matches Score::Mate(m) ==> (m < 0 ==> flip_spec(s) == Score::Mate((-m + 1) as i8)),
        flippable(flip_spec(s)) ==> (s matches Score::Centipawns(_) ==> flip_spec(flip_spec(s))
            == s),
        flippable(flip_spec(s)) ==> (s matches Score::Mate(m) ==> (m > 0 ==> flip_spec(
            flip_spec(s),
        ) == Score::Mate((m + 2) as i8))),
        flippable(flip_spec(s)) ==> (s matches Score::Mate(m) ==> (m < 0 ==> flip_spec(
            flip_spec(s),
        ) == Score::Mate((m - 2) as i8))),
{
}

/// Mates against the side to move sit below every centipawn value, and mates
/// it delivers above: `mate(0) < mate(-k) < cp(x) < mate(j)` for `k, j > 0`.
pub proof fn lemma_variant_order(k: i8, x: i16, j: i8)
    requires
        k < 0,
        j > 0,
    ensures
        score_lt(Score::Mate(0), Score::Mate(k)),
        score_lt(Score::Mate(k), Score::Centipawns(x)),
        score_lt(Score::Centipawns(x), Score::Mate(j)),
{
}

/// Flipping reverses the order: the better score for one side is the worse
/// one for the other.
pub proof fn lemma_flip_reverses(a: Score, b: Score)
    requires
        flippable(a),
        flippable(b),
    ensures
        score_lt(a, b) <==> score_lt(flip_spec(b), flip_spec(a)),
        a == b <==> flip_spec(a) == flip_spec(b),
{
}

} // verus!
