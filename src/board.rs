//! What the engine reads from the chess rules: the state of a board, its legal
//! moves, the board a move leads to, and the pieces on its squares.
//!
//! A `chess::Board` is an immutable value (`Copy`, `Eq`, `Hash`); each query
//! below depends on that value alone, so its result is named by a spec
//! function of the board.

use chess::{Board, BoardBuilder, BoardStatus, ChessMove, Color, MoveGen, Piece};
use vstd::prelude::*;
use vstd::utf8::is_ascii_chars;

verus! {

#[verifier::external_type_specification]
#[verifier::external_body]
pub struct ExBoard(Board);

#[verifier::external_type_specification]
#[verifier::external_body]
pub struct ExChessMove(ChessMove);

#[verifier::external_type_specification]
pub struct ExPiece(Piece);

#[verifier::external_type_specification]
pub struct ExColor(Color);

#[verifier::external_type_specification]
pub struct ExBoardStatus(BoardStatus);

#[verifier::external_type_specification]
#[verifier::external_body]
pub struct ExChessError(chess::Error);

#[verifier::external_type_specification]
#[verifier::external_body]
pub struct ExBoardBuilder(BoardBuilder);

/// The standard starting position.
pub const START_FEN: &'static str = "rnbqkbnr/pppppppp/8/8/8/8/PPPPPPPP/RNBQKBNR w KQkq - 0 1";

/// Whether the side to move is mated, stalemated, or still has moves.
pub uninterp spec fn status_of(b: Board) -> BoardStatus;

/// The side to move.
pub uninterp spec fn side_of(b: Board) -> Color;

/// The legal moves of the side to move, in generation order.
pub uninterp spec fn legal_moves_of(b: Board) -> Seq<ChessMove>;

/// The board after a move.
pub uninterp spec fn after_move(b: Board, m: ChessMove) -> Board;

/// The kind of piece on square `sq` (0 = a1, 63 = h8), if any.
pub uninterp spec fn piece_on_of(b: Board, sq: int) -> Option<Piece>;

/// The color of the piece on square `sq`, if any.
pub uninterp spec fn color_on_of(b: Board, sq: int) -> Option<Color>;

/// The square-by-square setup that a FEN string describes, if its fields parse.
pub uninterp spec fn builder_of(fen: Seq<char>) -> Option<BoardBuilder>;

/// The piece that a setup puts on square `sq`, if any.
pub uninterp spec fn builder_square_of(b: BoardBuilder, sq: int) -> Option<(Piece, Color)>;

/// The side to move of a setup.
pub uninterp spec fn builder_side_of(b: BoardBuilder) -> Color;

/// The board of a setup, if the setup is a legal position.
pub uninterp spec fn built_board(b: BoardBuilder) -> Option<Board>;

/// The index (0 = a1, 63 = h8) of the square a move lands on.
pub uninterp spec fn dest_of(m: ChessMove) -> int;

/// The number of squares among the first `n` that hold a piece of color `c`.
pub open spec fn count_color(b: Board, c: Color, n: int) -> int
    decreases n,
{
    if n <= 0 {
        0
    } else {
        count_color(b, c, n - 1) + if color_on_of(b, n - 1) == Some(c) {
            1int
        } else {
            0int
        }
    }
}

/// The number of pieces of color `c` on the board.
pub open spec fn color_count(b: Board, c: Color) -> int {
    count_color(b, c, 64)
}

/// Neither side has more than the 16 pieces it starts with. Move generation
/// keeps one entry per piece of the side to move, and two for en passant, in a
/// list of 18, so it needs this of the side to move.
pub open spec fn within_piece_limit(b: Board) -> bool {
    color_count(b, Color::White) <= 16 && color_count(b, Color::Black) <= 16
}

/// Relies on chess's `Board::status`: mate, stalemate or ongoing, from the board
/// alone; ongoing exactly when `MoveGen::new_legal` yields a move. That move
/// generation writes past its list of 18 entries with more than 16 pieces.
pub assume_specification[ Board::status ](board: &Board) -> (r: BoardStatus)
    requires
        color_count(*board, side_of(*board)) <= 16,
    ensures
        r == status_of(*board),
        r == BoardStatus::Ongoing <==> legal_moves_of(*board).len() > 0,
;

/// Relies on chess's `Board::side_to_move`.
pub assume_specification[ Board::side_to_move ](board: &Board) -> (r: Color)
    ensures
        r == side_of(*board),
;

/// Relies on chess's `Board::make_move_new`: the board after the move. It
/// unwraps the piece on the move's source square, so only legal moves are
/// accepted here.
pub assume_specification[ Board::make_move_new ](board: &Board, m: ChessMove) -> (r: Board)
    requires
        legal_moves_of(*board).contains(m),
    ensures
        r == after_move(*board, m),
        side_of(r) == opponent(side_of(*board)),
        color_count(r, Color::White) <= color_count(*board, Color::White),
        color_count(r, Color::Black) <= color_count(*board, Color::Black),
;

/// Relies on the `PartialEq` that chess derives for `ChessMove`: source,
/// destination and promotion all agree.
pub assume_specification[ <ChessMove as PartialEq>::eq ](a: &ChessMove, b: &ChessMove) -> (r: bool)
    ensures
        r == (*a == *b),
;

/// Relies on chess's `MoveGen::new_legal`, run to its end: every legal move
/// once. It writes past its list of 18 entries with more than 16 pieces.
#[verifier::external_body]
pub fn legal_moves(board: &Board) -> (r: Vec<ChessMove>)
    requires
        color_count(*board, side_of(*board)) <= 16,
    ensures
        r@ == legal_moves_of(*board),
{
    MoveGen::new_legal(board).collect()
}

/// Relies on chess's `Board::piece_on`, for the square with index `sq`.
#[verifier::external_body]
pub fn piece_on(board: &Board, sq: u8) -> (r: Option<Piece>)
    requires
        sq < 64,
    ensures
        r == piece_on_of(*board, sq as int),
{
    board.piece_on(chess::ALL_SQUARES[sq as usize])
}

/// Relies on chess's `Board::color_on`, for the square with index `sq`.
#[verifier::external_body]
pub fn color_on(board: &Board, sq: u8) -> (r: Option<Color>)
    requires
        sq < 64,
    ensures
        r == color_on_of(*board, sq as int),
{
    board.color_on(chess::ALL_SQUARES[sq as usize])
}

/// Relies on chess's `ChessMove::get_dest` and `Square::to_int`: the index of
/// the destination square.
#[verifier::external_body]
pub fn move_dest(m: &ChessMove) -> (r: u8)
    ensures
        r == dest_of(*m),
{
    m.get_dest().to_int()
}

/// Relies on chess's `BoardBuilder::from_str`: the setup of a FEN string, or
/// an error when its fields do not parse. Its en passant field is indexed by
/// byte and by character alike, so only ASCII text is accepted here.
#[verifier::external_body]
pub fn parse_fen(fen: &str) -> (r: Result<BoardBuilder, chess::Error>)
    requires
        fen.is_ascii(),
    ensures
        r is Ok <==> builder_of(fen@) is Some,
        r matches Ok(b) ==> builder_of(fen@) == Some(b),
{
    <BoardBuilder as std::str::FromStr>::from_str(fen)
}

/// Relies on chess's `Index<Square>` for `BoardBuilder`, for the square with index `sq`.
#[verifier::external_body]
pub fn builder_square(b: &BoardBuilder, sq: u8) -> (r: Option<(Piece, Color)>)
    requires
        sq < 64,
    ensures
        r == builder_square_of(*b, sq as int),
{
    b[chess::ALL_SQUARES[sq as usize]]
}

/// Relies on chess's `BoardBuilder::get_side_to_move`.
#[verifier::external_body]
pub fn builder_side(b: &BoardBuilder) -> (r: Color)
    ensures
        r == builder_side_of(*b),
{
    b.get_side_to_move()
}

/// A king of the side to move stands somewhere in the setup.
pub open spec fn has_mover_king(b: BoardBuilder) -> bool {
    exists|sq: int| 0 <= sq < 64 && builder_square_of(b, sq) == Some((Piece::King, builder_side_of(b)))
}

/// Relies on chess's `TryFrom<&BoardBuilder>` for `Board`: the board, or an
/// error when the setup fails the sanity checks. Before those checks it looks
/// up the king of the side to move, so that king must be there.
#[verifier::external_body]
pub fn build_board(b: &BoardBuilder) -> (r: Result<Board, chess::Error>)
    requires
        has_mover_king(*b),
    ensures
        r is Ok <==> built_board(*b) is Some,
        r matches Ok(x) ==> built_board(*b) == Some(x),
{
    Board::try_from(b)
}

/// The board that a FEN string describes: ASCII text whose fields parse, with
/// a king of the side to move, that passes the sanity checks, with at most 16
/// pieces of each color.
pub open spec fn fen_board(fen: Seq<char>) -> Option<Board> {
    if is_ascii_chars(fen) {
        match builder_of(fen) {
            Some(b) => if has_mover_king(b) {
                match built_board(b) {
                    Some(board) => if within_piece_limit(board) {
                        Some(board)
                    } else {
                        None
                    },
                    None => None,
                }
            } else {
                None
            },
            None => None,
        }
    } else {
        None
    }
}

/// Whether neither side has more than 16 pieces.
pub fn piece_limit_holds(board: &Board) -> (r: bool)
    ensures
        r == within_piece_limit(*board),
{
    let mut white: u8 = 0;
    let mut black: u8 = 0;
    let mut sq: u8 = 0;
    while sq < 64
        invariant
            sq <= 64,
            white == count_color(*board, Color::White, sq as int),
            black == count_color(*board, Color::Black, sq as int),
            white <= sq,
            black <= sq,
        decreases 64 - sq,
    {
        match color_on(board, sq) {
            Some(Color::White) => white = white + 1,
            Some(Color::Black) => black = black + 1,
            None => {},
        }
        sq = sq + 1;
    }
    white <= 16 && black <= 16
}

/// Whether the setup has a king of the side to move.
pub fn mover_king_present(b: &BoardBuilder) -> (r: bool)
    ensures
        r == has_mover_king(*b),
{
    let side = builder_side(b);
    let mut sq: u8 = 0;
    while sq < 64
        invariant
            sq <= 64,
            side == builder_side_of(*b),
            forall|j: int| 0 <= j < sq ==> builder_square_of(*b, j) != Some((Piece::King, side)),
        decreases 64 - sq,
    {
        let found = match (builder_square(b, sq), side) {
            (Some((Piece::King, Color::White)), Color::White) => true,
            (Some((Piece::King, Color::Black)), Color::Black) => true,
            _ => false,
        };
        if found {
            return true;
        }
        sq = sq + 1;
    }
    false
}

/// The board of a FEN string, if it describes a legal position.
pub fn board_from_fen(fen: &str) -> (r: Option<Board>)
    ensures
        r == fen_board(fen@),
{
    if !fen.is_ascii() {
        return None;
    }
    let builder = match parse_fen(fen) {
        Ok(b) => b,
        Err(_) => return None,
    };
    if !mover_king_present(&builder) {
        return None;
    }
    match build_board(&builder) {
        Ok(board) => if piece_limit_holds(&board) {
            Some(board)
        } else {
            None
        },
        Err(_) => None,
    }
}

/// Relies on chess's `Board::default`, which parses the starting position's
/// FEN with `Board::from_str`: `BoardBuilder::from_str`, then `TryFrom`.
#[verifier::external_body]
pub fn start_position() -> (r: Board)
    ensures
        fen_board(START_FEN@) == Some(r),
{
    Board::default()
}

/// Whether `mv` is one of the legal moves on `board`.
pub fn is_legal_move(board: &Board, mv: &ChessMove) -> (r: bool)
    requires
        within_piece_limit(*board),
    ensures
        r == legal_moves_of(*board).contains(*mv),
{
    let moves = legal_moves(board);
    let mut i: usize = 0;
    while i < moves.len()
        invariant
            i <= moves@.len(),
            moves@ == legal_moves_of(*board),
            forall|j: int| 0 <= j < i ==> moves@[j] != *mv,
        decreases moves@.len() - i,
    {
        if moves[i] == *mv {
            return true;
        }
        i = i + 1;
    }
    false
}

/// The opposite color.
pub open spec fn opponent(c: Color) -> Color {
    match c {
        Color::White => Color::Black,
        Color::Black => Color::White,
    }
}

/// A move that lands on a square held by the opponent of the side to move.
pub open spec fn is_capture(b: Board, m: ChessMove) -> bool {
    0 <= dest_of(m) < 64 && color_on_of(b, dest_of(m)) == Some(opponent(side_of(b)))
}

/// The legal captures of the side to move, in generation order.
pub open spec fn captures_of(b: Board) -> Seq<ChessMove> {
    legal_moves_of(b).filter(|m: ChessMove| is_capture(b, m))
}

/// The legal moves that capture a piece of the opponent, in generation order.
pub fn capture_moves(board: &Board) -> (r: Vec<ChessMove>)
    requires
        within_piece_limit(*board),
    ensures
        r@ == captures_of(*board),
{
    let moves = legal_moves(board);
    let them = match board.side_to_move() {
        Color::White => Color::Black,
        Color::Black => Color::White,
    };
    let mut captures: Vec<ChessMove> = Vec::new();
    let mut i: usize = 0;
    while i < moves.len()
        invariant
            i <= moves@.len(),
            moves@ == legal_moves_of(*board),
            them == opponent(side_of(*board)),
            captures@ == moves@.subrange(0, i as int).filter(|m: ChessMove| is_capture(*board, m)),
        decreases moves@.len() - i,
    {
        let mv = moves[i];
        let dest = move_dest(&mv);
        let hit = dest < 64 && match (color_on(board, dest), them) {
            (Some(Color::White), Color::White) => true,
            (Some(Color::Black), Color::Black) => true,
            _ => false,
        };
        if hit {
            captures.push(mv);
        }
        proof {
            reveal(Seq::filter);
            assert(moves@.subrange(0, i + 1).drop_last() =~= moves@.subrange(0, i as int));
        }
        i = i + 1;
    }
    assert(moves@.subrange(0, moves@.len() as int) =~= moves@);
    captures
}

} // verus!
