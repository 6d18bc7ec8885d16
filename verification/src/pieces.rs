//! The pieces of the game as the controller sees them: a color and a type,
//! read-only.

use vstd::prelude::*;

verus! {

/// One of the two players.
#[derive(Clone, Copy, Debug, PartialEq, Eq, Structural)]
pub enum Color {
    White,
    Black,
}

impl Color {
    /// The other player.
    pub open spec fn other(self) -> Color {
        match self {
            Color::White => Color::Black,
            Color::Black => Color::White,
        }
    }

    /// The other player.
    pub fn opponent(self) -> (c: Color)
        ensures
            c == self.other(),
    {
        match self {
            Color::White => Color::Black,
            Color::Black => Color::White,
        }
    }
}

/// What a piece is, whoever owns it.
#[derive(Clone, Copy, Debug, PartialEq, Eq, Structural)]
pub enum PieceType {
    Pawn,
    Rook,
    Knight,
    Bishop,
    Queen,
    King,
}

/// A piece standing on some cell.
#[derive(Clone, Copy, Debug, PartialEq, Eq, Structural)]
pub struct Piece {
    pub color: Color,
    pub kind: PieceType,
}

impl Piece {
    /// The player who owns the piece.
    pub fn color(&self) -> (c: Color)
        ensures
            c == self.color,
    {
        self.color
    }

    /// The type of the piece.
    pub fn kind(&self) -> (k: PieceType)
        ensures
            k == self.kind,
    {
        self.kind
    }
}

/// Whether a cell with this occupant holds a piece of the given player.
pub open spec fn holds_piece_of(occupant: Option<Piece>, player: Color) -> bool {
    occupant matches Some(piece) && piece.color == player
}

} // verus!
