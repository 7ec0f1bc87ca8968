use std::cmp::Ordering;

use patch::score::Score;
use uci_parser::{UciScore, UciScoreType};

#[test]
fn constructors_build_their_variant() {
    assert_eq!(Score::cp(35), Score::Centipawns(35));
    assert_eq!(Score::mate(-3), Score::Mate(-3));
    assert_eq!(Score::min(), Score::Mate(0));
    assert_eq!(Score::min_negatable(), Score::Mate(-1));
    assert_eq!(Score::max(), Score::Mate(1));
}

#[test]
fn flip_moves_one_ply() {
    assert_eq!(Score::cp(120).flip(), Score::cp(-120));
    assert_eq!(Score::cp(-7).flip(), Score::cp(7));
    assert_eq!(Score::mate(0).flip(), Score::mate(1));
    assert_eq!(Score::mate(3).flip(), Score::mate(-4));
    assert_eq!(Score::mate(-3).flip(), Score::mate(4));
}

#[test]
fn flip_twice_keeps_sign_two_plies_on() {
    assert_eq!(Score::cp(42).flip().flip(), Score::cp(42));
    assert_eq!(Score::mate(2).flip().flip(), Score::mate(4));
    assert_eq!(Score::mate(-2).flip().flip(), Score::mate(-4));
}

#[test]
fn negate_keeps_counter() {
    assert_eq!(Score::cp(15).negate(), Score::cp(-15));
    assert_eq!(Score::mate(3).negate(), Score::mate(-3));
    assert_eq!(Score::mate(-1).negate(), Score::mate(1));
}

#[test]
fn order_across_variants() {
    for k in [-1i8, -5, -127, -128] {
        assert!(Score::mate(0) < Score::mate(k));
        for x in [i16::MIN, -300, 0, 300, i16::MAX] {
            assert!(Score::mate(k) < Score::cp(x));
            for j in [1i8, 6, 127] {
                assert!(Score::cp(x) < Score::mate(j));
            }
        }
    }
}

#[test]
fn order_within_mates() {
    assert!(Score::mate(-1) < Score::mate(-2));
    assert!(Score::mate(2) < Score::mate(1));
    assert!(Score::mate(-7) < Score::mate(7));
    assert_eq!(Score::mate(4).cmp(&Score::mate(4)), Ordering::Equal);
}

#[test]
fn order_is_total() {
    let scores = [
        Score::mate(0),
        Score::mate(-1),
        Score::mate(-9),
        Score::cp(-50),
        Score::cp(0),
        Score::cp(50),
        Score::mate(9),
        Score::mate(1),
    ];
    for (i, a) in scores.iter().enumerate() {
        for (j, b) in scores.iter().enumerate() {
            let expected = i.cmp(&j);
            assert_eq!(a.cmp(b), expected);
            assert_eq!(a.partial_cmp(b), Some(expected));
            assert_eq!(a < b, i < j);
        }
    }
}

#[test]
fn min_and_max_bound_everything() {
    for s in [Score::mate(-128), Score::cp(i16::MIN), Score::cp(i16::MAX), Score::mate(127)] {
        assert!(Score::min() < s);
        assert!(s < Score::max());
        assert!(Score::min_negatable() <= s);
    }
}

#[test]
fn uci_score_widens() {
    let cp = UciScore::from(Score::cp(-250));
    assert_eq!(cp.score, -250);
    assert_eq!(cp.score_type, UciScoreType::Centipawns);
    assert_eq!(cp.bound, None);
    let mate = UciScore::from(Score::mate(-3));
    assert_eq!(mate.score, -3);
    assert_eq!(mate.score_type, UciScoreType::Mate);
}
