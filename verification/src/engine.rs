//! The boundary to the `chess` crate, which owns the rules of the game: what
//! stands where, whose turn it is, which moves are legal and what position a
//! move leads to. Nothing in this file is proved. Each function makes one
//! kind of call into the crate and converts between its values and those of
//! this library; its contract is taken on trust from the crate's source.

use vstd::prelude::*;
use crate::geometry::BoardPosition;
use crate::pieces::{holds_piece_of, Color, Piece, PieceType};

verus! {

/// `chess::Board`: one position of a game. Nothing of its inside is known
/// here; the functions below are the only way to it.
#[verifier::external_type_specification]
#[verifier::external_body]
pub struct ExBoard(chess::Board);

/// One move as the engine generates it and takes it back: the cell a piece
/// leaves, the cell it reaches and, where a pawn reaches the last row, the
/// engine's index of the piece it turns into.
#[derive(Clone, Copy, Debug, PartialEq, Eq, Structural)]
pub struct EngineMove {
    pub from: BoardPosition,
    pub to: BoardPosition,
    pub promotion: Option<u8>,
}

/// The moves that `chess::MoveGen::new_legal` yields for a position, in
/// the order in which it yields them.
pub uninterp spec fn legal_moves_of(board: chess::Board) -> Seq<EngineMove>;

/// The type of the piece on each occupied cell, as `chess::Board::piece_on`
/// reports it.
pub uninterp spec fn kinds_of(board: chess::Board) -> Map<BoardPosition, PieceType>;

/// The owner of the piece on each occupied cell, as
/// `chess::Board::color_on` reports it.
pub uninterp spec fn colors_of(board: chess::Board) -> Map<BoardPosition, Color>;

/// The player whose turn it is, as `chess::Board::side_to_move` reports it.
pub uninterp spec fn turn_of(board: chess::Board) -> Color;

/// The piece on a cell: there is one where the engine reports both a type
/// and an owner for the cell.
pub open spec fn occupant(board: chess::Board, at: BoardPosition) -> Option<Piece> {
    if at.on_board() && kinds_of(board).dom().contains(at) && colors_of(board).dom().contains(at) {
        Some(Piece { color: colors_of(board)[at], kind: kinds_of(board)[at] })
    } else {
        None
    }
}

/// The type of the piece that starts a game in column `x` of a player's
/// back row.
pub open spec fn back_row_kind(x: int) -> PieceType {
    if x == 0 || x == 7 {
        PieceType::Rook
    } else if x == 1 || x == 6 {
        PieceType::Knight
    } else if x == 2 || x == 5 {
        PieceType::Bishop
    } else if x == 3 {
        PieceType::Queen
    } else {
        PieceType::King
    }
}

/// What stands on a cell when a game starts: White's pieces in row 0 and
/// White's pawns in row 1, Black's pawns in row 6 and Black's pieces in
/// row 7.
pub open spec fn initial_piece(at: BoardPosition) -> Option<Piece> {
    if !at.on_board() {
        None
    } else if at.y == 0 {
        Some(Piece { color: Color::White, kind: back_row_kind(at.x as int) })
    } else if at.y == 1 {
        Some(Piece { color: Color::White, kind: PieceType::Pawn })
    } else if at.y == 6 {
        Some(Piece { color: Color::Black, kind: PieceType::Pawn })
    } else if at.y == 7 {
        Some(Piece { color: Color::Black, kind: back_row_kind(at.x as int) })
    } else {
        None
    }
}

/// `chess::Board::default`: the position from which every game starts,
/// with White to move. Column `x` is the engine's file of index `x` and row
/// `y` its rank of index `y`, here and in every function below.
#[verifier::external_body]
pub(crate) fn start_position() -> (board: chess::Board)
    ensures
        turn_of(board) == Color::White,
        forall|at: BoardPosition| #[trigger] occupant(board, at) == initial_piece(at),
{
    chess::Board::default()
}

/// `chess::Board::piece_on` for the square of a cell: the type of the piece
/// there, if the cell is occupied.
#[verifier::external_body]
pub(crate) fn kind_on(board: &chess::Board, at: BoardPosition) -> (kind: Option<PieceType>)
    requires
        at.on_board(),
    ensures
        kind == kinds_of(*board).get(at),
{
    let rank = chess::Rank::from_index(at.y as usize);
    match board.piece_on(chess::Square::make_square(rank, chess::File::from_index(at.x as usize))) {
        None => None,
        Some(chess::Piece::Pawn) => Some(PieceType::Pawn),
        Some(chess::Piece::Rook) => Some(PieceType::Rook),
        Some(chess::Piece::Knight) => Some(PieceType::Knight),
        Some(chess::Piece::Bishop) => Some(PieceType::Bishop),
        Some(chess::Piece::Queen) => Some(PieceType::Queen),
        Some(chess::Piece::King) => Some(PieceType::King),
    }
}

/// `chess::Board::color_on` for the square of a cell: the owner of the
/// piece there, if the cell is occupied.
#[verifier::external_body]
pub(crate) fn color_on(board: &chess::Board, at: BoardPosition) -> (color: Option<Color>)
    requires
        at.on_board(),
    ensures
        color == colors_of(*board).get(at),
{
    let rank = chess::Rank::from_index(at.y as usize);
    match board.color_on(chess::Square::make_square(rank, chess::File::from_index(at.x as usize))) {
        None => None,
        Some(chess::Color::White) => Some(Color::White),
        Some(chess::Color::Black) => Some(Color::Black),
    }
}

/// `chess::Board::side_to_move`: the player whose turn it is.
#[verifier::external_body]
pub(crate) fn side_to_move(board: &chess::Board) -> (color: Color)
    ensures
        color == turn_of(*board),
{
    match board.side_to_move() {
        chess::Color::White => Color::White,
        chess::Color::Black => Color::Black,
    }
}

/// `chess::MoveGen::new_legal`, run to its end: every legal move of the
/// position, each with the cells of its two squares. A square's file and
/// rank have indices below eight, so both cells lie on the board. The
/// generator takes the squares to move from among those of the pieces of
/// the player to move, so each move starts on such a piece.
#[verifier::external_body]
pub(crate) fn generate_moves(board: &chess::Board) -> (moves: Vec<EngineMove>)
    ensures
        moves@ == legal_moves_of(*board),
        forall|i: int|
            0 <= i < moves@.len() ==> (#[trigger] moves@[i]).from.on_board()
                && moves@[i].to.on_board(),
        forall|i: int|
            0 <= i < moves@.len() ==> holds_piece_of(
                occupant(*board, (#[trigger] moves@[i]).from),
                turn_of(*board),
            ),
{
    chess::MoveGen::new_legal(board)
        .map(|m| EngineMove {
            from: BoardPosition {
                x: m.get_source().get_file().to_index() as i32,
                y: m.get_source().get_rank().to_index() as i32,
            },
            to: BoardPosition {
                x: m.get_dest().get_file().to_index() as i32,
                y: m.get_dest().get_rank().to_index() as i32,
            },
            promotion: m.get_promotion().map(|piece| piece.to_index() as u8),
        })
        .collect()
}

/// `chess::Board::make_move_new` with one of the position's own legal moves:
/// the position after the move. In it the turn has passed to the other
/// player, the cell that the piece left is empty, and the cell that it
/// reached holds a piece of the player who moved. The engine does not check
/// the move, hence the demand that it is one that the generator yields for
/// this position.
#[verifier::external_body]
pub(crate) fn play(board: &chess::Board, m: EngineMove) -> (next: chess::Board)
    requires
        legal_moves_of(*board).contains(m),
    ensures
        turn_of(next) == turn_of(*board).other(),
        occupant(next, m.from) is None,
        holds_piece_of(occupant(next, m.to), turn_of(*board)),
{
    let from_rank = chess::Rank::from_index(m.from.y as usize);
    let from = chess::Square::make_square(from_rank, chess::File::from_index(m.from.x as usize));
    let to_rank = chess::Rank::from_index(m.to.y as usize);
    let to = chess::Square::make_square(to_rank, chess::File::from_index(m.to.x as usize));
    let promotion = m.promotion.map(|index| chess::ALL_PIECES[index as usize]);
    board.make_move_new(chess::ChessMove::new(from, to, promotion))
}

} // verus!
