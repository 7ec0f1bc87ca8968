//! The scores that the engine reports over UCI.

use crate::score::Score;
use uci_parser::{UciBound, UciScore, UciScoreType};
use vstd::prelude::*;

verus! {

#[verifier::external_type_specification]
pub struct ExUciScoreType(UciScoreType);

#[verifier::external_type_specification]
pub struct ExUciBound(UciBound);

#[verifier::external_type_specification]
pub struct ExUciScore(UciScore);

/// Relies on uci_parser's `UciScore::cp`: an unbounded centipawn score.
pub assume_specification[ UciScore::cp ](score: i32) -> (r: UciScore)
    ensures
        r == (UciScore { score, score_type: UciScoreType::Centipawns, bound: None }),
;

/// Relies on uci_parser's `UciScore::mate`: an unbounded mate score.
pub assume_specification[ UciScore::mate ](moves_to_mate: i32) -> (r: UciScore)
    ensures
        r == (UciScore { score: moves_to_mate, score_type: UciScoreType::Mate, bound: None }),
;

/// The UCI score that reports a [`Score`]: centipawns or mate, widened to `i32`.
pub open spec fn uci_of(s: Score) -> UciScore {
    match s {
        Score::Centipawns(c) => UciScore {
            score: c as i32,
            score_type: UciScoreType::Centipawns,
            bound: None,
        },
        Score::Mate(m) => UciScore { score: m as i32, score_type: UciScoreType::Mate, bound: None },
    }
}

impl From<Score> for UciScore {
    fn from(value: Score) -> (r: Self)
        ensures
            r == uci_of(value),
    {
        match value {
            Score::Centipawns(cp) => UciScore::cp(cp as i32),
            Score::Mate(m) => UciScore::mate(m as i32),
        }
    }
}

impl vstd::std_specs::convert::FromSpecImpl<Score> for UciScore {
    open spec fn obeys_from_spec() -> bool {
        true
    }

    open spec fn from_spec(v: Score) -> UciScore {
        uci_of(v)
    }
}

} // verus!
