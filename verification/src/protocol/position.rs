//! Canonical chess positions and piece identities.

use vstd::prelude::*;

use crate::protocol::square::{SQUARE_COUNT, Square};

verus! {

/// Number of packed bytes used to encode all 64 board squares.
pub const BOARD_STATE_LENGTH: usize = 32;

/// Piece occupancy for all 64 squares.
///
/// The storage uses canonical A1-to-H8 indexing; the view of a position is
/// the sequence of its 64 squares in that order.
#[derive(Clone, Copy, Debug, PartialEq, Eq, Hash)]
pub struct Position {
    squares: [Option<Piece>; SQUARE_COUNT],
}

impl View for Position {
    type V = Seq<Option<Piece>>;

    closed spec fn view(&self) -> Seq<Option<Piece>> {
        self.squares@
    }
}

impl Position {
    /// Creates a position from squares in canonical A1-to-H8 order.
    ///
    /// Index zero represents A1 and index 63 represents H8.
    pub fn new(squares: [Option<Piece>; SQUARE_COUNT]) -> (p: Self)
        ensures
            p@ == squares@,
    {
        Position { squares }
    }

    /// Every position holds exactly one entry per square.
    pub proof fn lemma_len(self)
        ensures
            self@.len() == SQUARE_COUNT,
    {
    }

    /// Returns the piece occupying a square, or `None` when it is empty.
    pub fn piece_at(&self, square: Square) -> (piece: Option<Piece>)
        ensures
            piece == self@[square@ as int],
    {
        self.squares[square.index()]
    }

    /// Replaces the piece occupying a square.
    ///
    /// Pass `None` to empty the square.
    pub fn set_piece(&mut self, square: Square, piece: Option<Piece>)
        ensures
            final(self)@ == old(self)@.update(square@ as int, piece),
    {
        let index = square.index();
        self.squares[index] = piece;
    }

    /// Returns canonical square storage for the wire encoders.
    pub(crate) fn squares(&self) -> (squares: &[Option<Piece>; SQUARE_COUNT])
        ensures
            squares@ == self@,
    {
        &self.squares
    }
}

/// A chess piece described by its color and kind.
#[derive(Clone, Copy, Debug, PartialEq, Eq, Structural, Hash)]
pub struct Piece {
    /// Side to which the piece belongs.
    pub color: Color,
    /// Chess role of the piece.
    pub kind: PieceKind,
}

/// Side to which a chess piece belongs.
#[derive(Clone, Copy, Debug, PartialEq, Eq, Structural, Hash)]
pub enum Color {
    /// White side.
    White,
    /// Black side.
    Black,
}

/// Chess role of a piece.
#[derive(PartialEq, Eq, Structural, Ord, PartialOrd, Copy, Clone, Debug, Hash)]
pub enum PieceKind {
    /// The Pawn piece on a Chess board.
    Pawn,
    /// The Knight piece on a Chess board.
    Knight,
    /// The Bishop piece on a Chess board.
    Bishop,
    /// The Rook piece on a Chess board.
    Rook,
    /// The Queen piece on a Chess board.
    Queen,
    /// The King piece on a Chess board.
    King,
}

/// Reading a square right after writing it gives back what was written, and
/// every other square keeps its piece.
pub proof fn lemma_set_then_read(before: Position, after: Position, square: Square, piece: Option<Piece>, other: Square)
    requires
        after@ == before@.update(square@ as int, piece),
        square@ < SQUARE_COUNT,
        other@ < SQUARE_COUNT,
    ensures
        after@[square@ as int] == piece,
        other@ != square@ ==> after@[other@ as int] == before@[other@ as int],
{
    before.lemma_len();
}

} // verus!
