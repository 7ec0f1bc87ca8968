//! Tapered piece-square evaluation of a position, from the side to move's view.

use crate::board::{color_on, color_on_of, piece_on, piece_on_of, side_of};
use crate::score::{flip_spec, flippable, Score};
use crate::tables::{
    MIDGAME_PAWN_POSITION_VALUE,
    ENDGAME_PAWN_POSITION_VALUE,
    MIDGAME_KNIGHT_POSITION_VALUE,
    ENDGAME_KNIGHT_POSITION_VALUE,
    MIDGAME_BISHOP_POSITION_VALUE,
    ENDGAME_BISHOP_POSITION_VALUE,
    MIDGAME_ROOK_POSITION_VALUE,
    ENDGAME_ROOK_POSITION_VALUE,
    MIDGAME_QUEEN_POSITION_VALUE,
    ENDGAME_QUEEN_POSITION_VALUE,
    MIDGAME_KING_POSITION_VALUE,
    ENDGAME_KING_POSITION_VALUE,
};
use chess::{Board, Color, Piece};
use vstd::prelude::*;

verus! {

/// The phase of a game with all its minor and major pieces on the board.
pub const FULL_PHASE: i32 = 24;

/// Centipawn value of a piece during the midgame.
pub open spec fn midgame_material(p: Piece) -> int {
    match p {
        Piece::Pawn => 82,
        Piece::Knight => 337,
        Piece::Bishop => 365,
        Piece::Rook => 477,
        Piece::Queen => 1025,
        Piece::King => 0,
    }
}

/// Centipawn value of a piece during the endgame.
pub open spec fn endgame_material(p: Piece) -> int {
    match p {
        Piece::Pawn => 94,
        Piece::Knight => 281,
        Piece::Bishop => 297,
        Piece::Rook => 512,
        Piece::Queen => 936,
        Piece::King => 0,
    }
}

/// The positional table of a piece for one phase of the game.
pub open spec fn position_table(p: Piece, endgame: bool) -> Seq<i16> {
    match p {
        Piece::Pawn => if endgame {
            ENDGAME_PAWN_POSITION_VALUE@
        } else {
            MIDGAME_PAWN_POSITION_VALUE@
        },
        Piece::Knight => if endgame {
            ENDGAME_KNIGHT_POSITION_VALUE@
        } else {
            MIDGAME_KNIGHT_POSITION_VALUE@
        },
        Piece::Bishop => if endgame {
            ENDGAME_BISHOP_POSITION_VALUE@
        } else {
            MIDGAME_BISHOP_POSITION_VALUE@
        },
        Piece::Rook => if endgame {
            ENDGAME_ROOK_POSITION_VALUE@
        } else {
            MIDGAME_ROOK_POSITION_VALUE@
        },
        Piece::Queen => if endgame {
            ENDGAME_QUEEN_POSITION_VALUE@
        } else {
            MIDGAME_QUEEN_POSITION_VALUE@
        },
        Piece::King => if endgame {
            ENDGAME_KING_POSITION_VALUE@
        } else {
            MIDGAME_KING_POSITION_VALUE@
        },
    }
}

/// Value of a piece on the table square `idx`: its material plus its position.
pub open spec fn piece_value(p: Piece, idx: int, endgame: bool) -> int {
    (if endgame {
        endgame_material(p)
    } else {
        midgame_material(p)
    }) + position_table(p, endgame)[idx] as int
}

/// The table square for a piece of color `color` on board square `sq`: white
/// pieces read the tables as they stand, black pieces read them flipped
/// vertically (`sq ^ 56`).
pub open spec fn table_index(sq: int, color: Color) -> int {
    match color {
        Color::White => sq,
        Color::Black => (sq as u8 ^ 56u8) as int,
    }
}

/// What one square adds to the sum of one phase: the piece's value, read from
/// its own color's side of the board, for the side to move; its negation for
/// the opponent; nothing when it is empty.
pub open spec fn contribution(cell: Option<(Piece, Color)>, sq: int, side: Color, endgame: bool) -> int {
    match cell {
        None => 0,
        Some((p, c)) => {
            let v = piece_value(p, table_index(sq, c), endgame);
            if c == side {
                v
            } else {
                -v
            }
        },
    }
}

/// The sum of one phase over the first `n` squares.
pub open spec fn phase_sum(cells: Seq<Option<(Piece, Color)>>, side: Color, endgame: bool, n: int) -> int
    decreases n,
{
    if n <= 0 {
        0
    } else {
        phase_sum(cells, side, endgame, n - 1) + contribution(cells[n - 1], n - 1, side, endgame)
    }
}

/// How much a piece weighs in the game phase.
pub open spec fn phase_weight(cell: Option<(Piece, Color)>) -> int {
    match cell {
        Some((Piece::Knight, _)) => 1,
        Some((Piece::Bishop, _)) => 1,
        Some((Piece::Rook, _)) => 2,
        Some((Piece::Queen, _)) => 4,
        _ => 0,
    }
}

/// The weight of the pieces, of both colors, on the first `n` squares.
pub open spec fn material_weight(cells: Seq<Option<(Piece, Color)>>, n: int) -> int
    decreases n,
{
    if n <= 0 {
        0
    } else {
        material_weight(cells, n - 1) + phase_weight(cells[n - 1])
    }
}

/// The game phase: 24 with all minor and major pieces on the board, less as
/// they leave; capped at 24, as promotions can add pieces.
pub open spec fn game_phase(cells: Seq<Option<(Piece, Color)>>) -> int {
    let w = material_weight(cells, 64);
    if w < 24 {
        w
    } else {
        24
    }
}

/// Integer division truncating toward zero.
pub open spec fn div_trunc(a: int, d: int) -> int {
    if a >= 0 {
        a / d
    } else {
        -((-a) / d)
    }
}

/// The blend of the midgame and endgame sums, weighted by the game phase.
pub open spec fn tapered(cells: Seq<Option<(Piece, Color)>>, side: Color) -> int {
    let ph = game_phase(cells);
    div_trunc(phase_sum(cells, side, false, 64) * ph + phase_sum(cells, side, true, 64) * (24 - ph), 24)
}

/// A centipawn count held to the range whose negation fits in `i16`.
pub open spec fn saturate(v: int) -> int {
    if v > 32767 {
        32767
    } else if v < -32767 {
        -32767
    } else {
        v
    }
}

/// The static evaluation of a position given square by square.
pub open spec fn evaluation(cells: Seq<Option<(Piece, Color)>>, side: Color) -> Score {
    Score::Centipawns(saturate(tapered(cells, side)) as i16)
}

/// What a square holds: a piece of a color, or nothing.
pub open spec fn cell_of(p: Option<Piece>, c: Option<Color>) -> Option<(Piece, Color)> {
    match (p, c) {
        (Some(p), Some(c)) => Some((p, c)),
        _ => None,
    }
}

/// The squares of a board, from a1 to h8.
pub open spec fn cells_of(b: Board) -> Seq<Option<(Piece, Color)>> {
    Seq::new(64, |i: int| cell_of(piece_on_of(b, i), color_on_of(b, i)))
}

/// Centipawn values for each piece during the midgame
pub fn midgame_material_values(piece: Piece) -> (r: i16)
    ensures
        r == midgame_material(piece),
{
    match piece {
        Piece::Pawn => 82,
        Piece::Knight => 337,
        Piece::Bishop => 365,
        Piece::Rook => 477,
        Piece::Queen => 1025,
        Piece::King => 0,  // Kings are handled by the mating rules
    }
}

/// Centipawn values for each piece during the endgame
pub fn endgame_material_values(piece: Piece) -> (r: i16)
    ensures
        r == endgame_material(piece),
{
    match piece {
        Piece::Pawn => 94,
        Piece::Knight => 281,
        Piece::Bishop => 297,
        Piece::Rook => 512,
        Piece::Queen => 936,
        Piece::King => 0,  // Kings are handled by the mating rules
    }
}

/// Value of a piece on table square `index` in one phase: the midgame or the
/// endgame table plus the material value of that phase.
fn table_value(piece: Piece, index: usize, endgame: bool) -> (r: i16)
    requires
        index < 64,
    ensures
        r == piece_value(piece, index as int, endgame),
{
    if endgame {
        let position = match piece {
            Piece::Pawn => ENDGAME_PAWN_POSITION_VALUE[index],
            Piece::Knight => ENDGAME_KNIGHT_POSITION_VALUE[index],
            Piece::Bishop => ENDGAME_BISHOP_POSITION_VALUE[index],
            Piece::Rook => ENDGAME_ROOK_POSITION_VALUE[index],
            Piece::Queen => ENDGAME_QUEEN_POSITION_VALUE[index],
            Piece::King => ENDGAME_KING_POSITION_VALUE[index],
        };
        proof {
            lemma_position_bounds(piece, index as int, true);
        }
        endgame_material_values(piece) + position
    } else {
        let position = match piece {
            Piece::Pawn => MIDGAME_PAWN_POSITION_VALUE[index],
            Piece::Knight => MIDGAME_KNIGHT_POSITION_VALUE[index],
            Piece::Bishop => MIDGAME_BISHOP_POSITION_VALUE[index],
            Piece::Rook => MIDGAME_ROOK_POSITION_VALUE[index],
            Piece::Queen => MIDGAME_QUEEN_POSITION_VALUE[index],
            Piece::King => MIDGAME_KING_POSITION_VALUE[index],
        };
        proof {
            lemma_position_bounds(piece, index as int, false);
        }
        midgame_material_values(piece) + position
    }
}

/// No positional value exceeds 200 centipawns either way.
proof fn lemma_position_bounds(p: Piece, idx: int, endgame: bool)
    requires
        0 <= idx < 64,
    ensures
        -200 <= position_table(p, endgame)[idx] <= 200,
        position_table(p, endgame).len() == 64,
{
}

/// No square adds more than 1225 centipawns either way.
proof fn lemma_contribution_bounds(cell: Option<(Piece, Color)>, sq: int, side: Color, endgame: bool)
    requires
        0 <= sq < 64,
    ensures
        -1225 <= contribution(cell, sq, side, endgame) <= 1225,
        forall|c: Color| 0 <= #[trigger] table_index(sq, c) < 64,
{
    let s = sq as u8;
    assert(s < 64 ==> (s ^ 56u8) < 64) by (bit_vector);
    if let Some((p, c)) = cell {
        lemma_position_bounds(p, table_index(sq, c), endgame);
    }
}

/// Scores a position given square by square (a1 first), from the view of
/// `side`, using the piece tables
///
/// Sums the midgame and the endgame table values of every piece, positive for
/// the side to move and negative for the opponent, and blends the two sums by
/// the game phase.
pub fn piece_table_eval(cells: &Vec<Option<(Piece, Color)>>, side: Color) -> (r: i16)
    requires
        cells@.len() == 64,
    ensures
        r == saturate(tapered(cells@, side)),
{
    let mut mg: i32 = 0;
    let mut eg: i32 = 0;
    let mut weight: i32 = 0;
    let mut sq: u8 = 0;
    while sq < 64
        invariant
            0 <= sq <= 64,
            cells@.len() == 64,
            mg == phase_sum(cells@, side, false, sq as int),
            eg == phase_sum(cells@, side, true, sq as int),
            weight == material_weight(cells@, sq as int),
            -1225 * sq <= mg <= 1225 * sq,
            -1225 * sq <= eg <= 1225 * sq,
            0 <= weight <= 4 * sq,
        decreases 64 - sq,
    {
        let cell = cells[sq as usize];
        proof {
            lemma_contribution_bounds(cell, sq as int, side, false);
            lemma_contribution_bounds(cell, sq as int, side, true);
        }
        match cell {
            None => {},
            Some((piece, color)) => {
                // The tables are written from white's view, with a1 first:
                // black pieces read them flipped vertically.
                let index: usize = match color {
                    Color::White => sq as usize,
                    Color::Black => (sq ^ 56) as usize,
                };
                let mg_value = table_value(piece, index, false) as i32;
                let eg_value = table_value(piece, index, true) as i32;
                let own = match (color, side) {
                    (Color::White, Color::White) => true,
                    (Color::Black, Color::Black) => true,
                    _ => false,
                };
                if own {
                    mg = mg + mg_value;
                    eg = eg + eg_value;
                } else {
                    mg = mg - mg_value;
                    eg = eg - eg_value;
                }
                weight = weight + match piece {
                    Piece::Knight => 1,
                    Piece::Bishop => 1,
                    Piece::Rook => 2,
                    Piece::Queen => 4,
                    _ => 0,
                };
            },
        }
        sq = sq + 1;
    }
    // Account for early promotion
    let phase = if weight < FULL_PHASE {
        weight
    } else {
        FULL_PHASE
    };
    let inverse_phase = FULL_PHASE - phase;
    assert(-1225 * 64 * 24 <= mg * phase <= 1225 * 64 * 24) by (nonlinear_arith)
        requires
            -1225 * 64 <= mg <= 1225 * 64,
            0 <= phase <= 24,
    ;
    assert(-1225 * 64 * 24 <= eg * inverse_phase <= 1225 * 64 * 24) by (nonlinear_arith)
        requires
            -1225 * 64 <= eg <= 1225 * 64,
            0 <= inverse_phase <= 24,
    ;
    let blended = mg * phase + eg * inverse_phase;
    let value = if blended >= 0 {
        blended / FULL_PHASE
    } else {
        -((-blended) / FULL_PHASE)
    };
    let cp = if value > 32767 {
        32767
    } else if value < -32767 {
        -32767
    } else {
        value
    };
    cp as i16
}

/// Evaluation heuristic based on material and piece positions
pub fn eval_heuristic(board: &Board) -> (r: Score)
    ensures
        r == evaluation(cells_of(*board), side_of(*board)),
{
    let mut cells: Vec<Option<(Piece, Color)>> = Vec::new();
    let mut sq: u8 = 0;
    while sq < 64
        invariant
            0 <= sq <= 64,
            cells@ == cells_of(*board).subrange(0, sq as int),
        decreases 64 - sq,
    {
        let cell = match (piece_on(board, sq), color_on(board, sq)) {
            (Some(piece), Some(color)) => Some((piece, color)),
            _ => None,
        };
        cells.push(cell);
        sq = sq + 1;
        assert(cells@ =~= cells_of(*board).subrange(0, sq as int));
    }
    assert(cells@ =~= cells_of(*board));
    Score::cp(piece_table_eval(&cells, board.side_to_move()))
}

/// The number of occupied squares among the first `n`.
pub open spec fn occupied(cells: Seq<Option<(Piece, Color)>>, n: int) -> int
    decreases n,
{
    if n <= 0 {
        0
    } else {
        occupied(cells, n - 1) + if cells[n - 1] is Some {
            1int
        } else {
            0int
        }
    }
}

proof fn lemma_phase_sum_bounds(cells: Seq<Option<(Piece, Color)>>, side: Color, endgame: bool, n: int)
    requires
        0 <= n <= 64,
        cells.len() == 64,
    ensures
        -1225 * occupied(cells, n) <= phase_sum(cells, side, endgame, n) <= 1225 * occupied(cells, n),
        0 <= occupied(cells, n) <= n,
        0 <= material_weight(cells, n),
    decreases n,
{
    if n > 0 {
        lemma_phase_sum_bounds(cells, side, endgame, n - 1);
        lemma_contribution_bounds(cells[n - 1], n - 1, side, endgame);
    }
}

/// With at most the starting count of pieces on the board (32), the
/// evaluation stays within 40 queens' midgame value either way.
pub proof fn lemma_eval_bounds(cells: Seq<Option<(Piece, Color)>>, side: Color)
    requires
        cells.len() == 64,
        occupied(cells, 64) <= 32,
    ensures
        -40 * 1025 < tapered(cells, side) < 40 * 1025,
        evaluation(cells, side) matches Score::Centipawns(c) && -40 * 1025 < c < 40 * 1025,
{
    lemma_phase_sum_bounds(cells, side, false, 64);
    lemma_phase_sum_bounds(cells, side, true, 64);
    let ph = game_phase(cells);
    let mg = phase_sum(cells, side, false, 64);
    let eg = phase_sum(cells, side, true, 64);
    let b = mg * ph + eg * (24 - ph);
    assert(-1225 * 32 * 24 <= b <= 1225 * 32 * 24) by (nonlinear_arith)
        requires
            -1225 * 32 <= mg <= 1225 * 32,
            -1225 * 32 <= eg <= 1225 * 32,
            0 <= ph <= 24,
            b == mg * ph + eg * (24 - ph),
    ;
}

/// Swapping the side to move negates what every square adds.
proof fn lemma_phase_sum_swap(cells: Seq<Option<(Piece, Color)>>, endgame: bool, n: int)
    requires
        0 <= n <= cells.len(),
    ensures
        phase_sum(cells, Color::White, endgame, n) == -phase_sum(cells, Color::Black, endgame, n),
    decreases n,
{
    if n > 0 {
        lemma_phase_sum_swap(cells, endgame, n - 1);
    }
}

/// Swapping the side to move of a position negates its evaluation: the sums
/// negate, and truncating toward zero treats a sum and its negation alike.
pub proof fn lemma_side_swap(cells: Seq<Option<(Piece, Color)>>)
    requires
        cells.len() == 64,
    ensures
        tapered(cells, Color::White) + tapered(cells, Color::Black) == 0,
        evaluation(cells, Color::White) == flip_spec(evaluation(cells, Color::Black)),
{
    lemma_phase_sum_swap(cells, false, 64);
    lemma_phase_sum_swap(cells, true, 64);
    let ph = game_phase(cells);
    let mw = phase_sum(cells, Color::White, false, 64);
    let ew = phase_sum(cells, Color::White, true, 64);
    let mb = phase_sum(cells, Color::Black, false, 64);
    let eb = phase_sum(cells, Color::Black, true, 64);
    assert(mb * ph + eb * (24 - ph) == -(mw * ph + ew * (24 - ph))) by (nonlinear_arith)
        requires
            mw == -mb,
            ew == -eb,
    ;
}

/// Every evaluation can be flipped, and flipping it twice gives it back.
pub proof fn lemma_eval_double_flip(cells: Seq<Option<(Piece, Color)>>, side: Color)
    ensures
        flippable(evaluation(cells, side)),
        flippable(flip_spec(evaluation(cells, side))),
        flip_spec(flip_spec(evaluation(cells, side))) == evaluation(cells, side),
{
}

} // verus!
