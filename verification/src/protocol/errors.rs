//! Structured validation errors returned by notification decoders.

use vstd::prelude::*;

use crate::protocol::square::Square;

verus! {

/// Reports that a notification does not contain its complete required payload.
#[derive(Debug, Clone, Copy, PartialEq, Eq, Structural)]
pub struct NotificationTooShortError {
    /// Minimum number of bytes required for this notification type.
    pub expected: usize,
    /// Number of bytes present in the received notification.
    pub actual: usize,
}

/// Reports an invalid field in a board battery response.
#[derive(Debug, Clone, Copy, PartialEq, Eq, Structural)]
pub enum BatteryStatusError {
    /// The charging flag was neither zero nor one.
    InvalidChargingFlag(u8),
    /// The reported board battery percentage exceeded 100.
    InvalidBatteryPercentage(u8),
}

/// Reports an invalid field in a piece status response.
#[derive(Debug, Clone, Copy, PartialEq, Eq, Structural)]
pub enum PieceStatusError {
    /// A piece record contained an unknown identity code.
    InvalidTrackedPiece {
        /// Zero-based record index in the tracked-piece response.
        index: usize,
        /// Unrecognized identity byte.
        value: u8,
    },
    /// A battery value was neither a percentage nor the unavailable sentinel.
    InvalidTrackedPieceBattery {
        /// Zero-based record index in the tracked-piece response.
        index: usize,
        /// Invalid battery byte.
        value: u8,
    },
}

/// Reports why a command-response notification could not be decoded.
#[derive(Debug, Clone, Copy, PartialEq, Eq, Structural)]
pub enum DecodeResponseNotificationError {
    /// The response ended before its required fields were available.
    NotificationTooShort(NotificationTooShortError),
    /// A tracked-piece response contained an invalid field.
    PieceStatus(PieceStatusError),
    /// A board battery response contained an invalid field.
    BatteryStatus(BatteryStatusError),
    /// The response type byte is not supported by this crate.
    UnexpectedNotification(u8),
    /// A fixed response-header byte did not match the protocol.
    InvalidNotificationHeader {
        /// Zero-based byte offset of the invalid header field.
        offset: usize,
        /// Header byte required by the protocol.
        expected: u8,
        /// Header byte found in the notification.
        actual: u8,
    },
}

/// Reports why a position notification could not be decoded.
#[derive(Debug, Clone, Copy, PartialEq, Eq, Structural)]
pub enum DecodePositionNotificationError {
    /// The notification ended before all 64 squares were available.
    NotificationTooShort(NotificationTooShortError),
    /// A square contained an unknown four-bit piece code.
    InvalidPiece {
        /// Square containing the invalid value.
        square: Square,
        /// Unrecognized four-bit piece code.
        value: u8,
    },
}

impl From<NotificationTooShortError> for DecodeResponseNotificationError {
    fn from(error: NotificationTooShortError) -> (r: Self) {
        DecodeResponseNotificationError::NotificationTooShort(error)
    }
}

impl vstd::std_specs::convert::FromSpecImpl<NotificationTooShortError> for DecodeResponseNotificationError {
    open spec fn obeys_from_spec() -> bool {
        true
    }

    open spec fn from_spec(error: NotificationTooShortError) -> Self {
        DecodeResponseNotificationError::NotificationTooShort(error)
    }
}

impl From<PieceStatusError> for DecodeResponseNotificationError {
    fn from(error: PieceStatusError) -> (r: Self) {
        DecodeResponseNotificationError::PieceStatus(error)
    }
}

impl vstd::std_specs::convert::FromSpecImpl<PieceStatusError> for DecodeResponseNotificationError {
    open spec fn obeys_from_spec() -> bool {
        true
    }

    open spec fn from_spec(error: PieceStatusError) -> Self {
        DecodeResponseNotificationError::PieceStatus(error)
    }
}

impl From<BatteryStatusError> for DecodeResponseNotificationError {
    fn from(error: BatteryStatusError) -> (r: Self) {
        DecodeResponseNotificationError::BatteryStatus(error)
    }
}

impl vstd::std_specs::convert::FromSpecImpl<BatteryStatusError> for DecodeResponseNotificationError {
    open spec fn obeys_from_spec() -> bool {
        true
    }

    open spec fn from_spec(error: BatteryStatusError) -> Self {
        DecodeResponseNotificationError::BatteryStatus(error)
    }
}

impl From<NotificationTooShortError> for DecodePositionNotificationError {
    fn from(error: NotificationTooShortError) -> (r: Self) {
        DecodePositionNotificationError::NotificationTooShort(error)
    }
}

impl vstd::std_specs::convert::FromSpecImpl<NotificationTooShortError> for DecodePositionNotificationError {
    open spec fn obeys_from_spec() -> bool {
        true
    }

    open spec fn from_spec(error: NotificationTooShortError) -> Self {
        DecodePositionNotificationError::NotificationTooShort(error)
    }
}

} // verus!
