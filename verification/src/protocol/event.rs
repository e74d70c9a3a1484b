//! Decoded board and tracked-piece status values.

use vstd::prelude::*;

use crate::protocol::position::{Color, Piece, PieceKind, Position};

verus! {

/// A decoded board-state or status notification.
#[derive(Clone, Copy, Debug, PartialEq, Eq, Hash)]
pub enum BoardEvent {
    /// The occupancy or piece arrangement of the 64 squares changed.
    ///
    /// This event is only fired when realtime updates are enabled and no
    /// automatic movement is in progress.
    PositionChanged(Position),
    /// The board responded to a battery-status query.
    BatteryStatus(BatteryStatus),
    /// The board responded to a piece-status query.
    PieceStatus(PieceStatus),
}

/// Mathematical model of a [`BoardEvent`]: positions and piece reports are
/// given by the sequences they hold.
pub enum BoardEventView {
    /// A position given by its 64 squares in canonical order.
    PositionChanged(Seq<Option<Piece>>),
    /// A battery report.
    BatteryStatus(BatteryStatus),
    /// A tracked-piece report given by its records in protocol order.
    PieceStatus(Seq<TrackedPieceStatus>),
}

impl View for BoardEvent {
    type V = BoardEventView;

    open spec fn view(&self) -> BoardEventView {
        match self {
            BoardEvent::PositionChanged(position) => BoardEventView::PositionChanged(position@),
            BoardEvent::BatteryStatus(status) => BoardEventView::BatteryStatus(*status),
            BoardEvent::PieceStatus(status) => BoardEventView::PieceStatus(status@),
        }
    }
}

/// Charging state and battery percentage reported by the board.
#[derive(Clone, Copy, Debug, PartialEq, Eq, Structural, Hash)]
pub struct BatteryStatus {
    /// Whether the board is actively plugged in and charging.
    pub charging: bool,
    /// The battery percentage of the board.
    ///
    /// The decoder guarantees a value from `0` through `100`.
    pub percentage: u8,
}

/// Status reported for one tracked physical chess piece.
///
/// Coordinates use the board firmware's normalized `0..=255` coordinate
/// system and are independent of square indexes.
///
/// [`Default`] produces an unavailable white-pawn placeholder used to
/// initialize fixed response arrays. A default value is not an observation
/// received from a board.
#[derive(Clone, Copy, Debug, PartialEq, Eq, Structural, Hash)]
pub struct TrackedPieceStatus {
    /// The chess piece that this status report represents.
    pub piece: Piece,
    /// The normalized X coordinate of the piece on the board.
    pub x: u8,
    /// The normalized Y coordinate of the piece on the board.
    pub y: u8,
    /// The piece's reported battery percentage.
    ///
    /// This is `None` when the board reports `0xff`, which indicates that the
    /// piece's battery level is currently unavailable.
    pub battery_percentage: Option<u8>,
}

impl Default for TrackedPieceStatus {
    fn default() -> (status: Self)
        ensures
            status == (TrackedPieceStatus {
                piece: Piece { color: Color::White, kind: PieceKind::Pawn },
                x: 0,
                y: 0,
                battery_percentage: None,
            }),
    {
        TrackedPieceStatus {
            piece: Piece { color: Color::White, kind: PieceKind::Pawn },
            x: 0,
            y: 0,
            battery_percentage: None,
        }
    }
}

/// Number of physical piece records in a tracked-piece response.
///
/// The Move protocol reports eight pawns, two rooks, two knights, two bishops,
/// two queens, and one king for each color.
pub const TRACKED_PIECE_COUNT: usize = 34;

/// Status records for every physical piece tracked by the board.
///
/// Records are ordered as white pawns, rooks, knights, bishops, queens, king,
/// followed by the corresponding black pieces.
#[derive(Clone, Copy, Debug, PartialEq, Eq, Hash)]
pub struct PieceStatus {
    /// Piece records in the order defined by the Move protocol.
    pub pieces: [TrackedPieceStatus; TRACKED_PIECE_COUNT],
}

impl View for PieceStatus {
    type V = Seq<TrackedPieceStatus>;

    open spec fn view(&self) -> Seq<TrackedPieceStatus> {
        self.pieces@
    }
}

} // verus!
