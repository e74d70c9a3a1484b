//! Notification routing, board sessions and the board actor's decisions.
//!
//! A transport maps [`Command`](crate::protocol::Command) values and
//! [`NotificationSource`] values to a Bluetooth library. The session types own
//! protocol buffers and perform command encoding, notification decoding,
//! initialization and shutdown.

pub mod actor;
mod asynchronous;
mod blocking;
pub mod gatt;

pub use asynchronous::AsyncBoard;
pub use blocking::{
    BlockingBoard, BlockingTransport, TransportCall, is_acknowledgement, lifted, next_event_outcome,
    lemma_successful_initialization_calls, next_event_requests, session_steps_ran, step_call, step_effect,
    lemma_failed_shutdown_stops, lemma_successful_shutdown_requests, step_may_be_skipped, steps_requested,
};

use vstd::prelude::*;

use crate::protocol::{
    BoardEvent, BoardEventView, DecodePositionNotificationError, DecodeResponseNotificationError,
    decode_position_notification, decode_response_notification, position_outcome, response_outcome,
};
use crate::transport::gatt::{Characteristic, characteristic_uuid};

verus! {

/// Header observed on the board's undocumented realtime-enable acknowledgement.
///
/// The acknowledgement can arrive after command-response subscription even
/// when that subscription follows the enable write, so every session decoder
/// recognizes and consumes it.
const REALTIME_UPDATES_ACKNOWLEDGEMENT: u8 = 0x23;

/// Size of the largest notification currently defined by the Move protocol:
/// a three-byte header and 34 four-byte tracked-piece records.
///
/// Keeping this bounded lets board sessions receive notifications without
/// allocating.
pub const MAX_NOTIFICATION_LEN: usize = 139;

/// Identifies which Chessnut Move characteristic produced a notification.
#[derive(Clone, Copy, Debug, PartialEq, Eq, Structural, Hash)]
pub enum NotificationSource {
    /// Realtime packed position notifications.
    Position,
    /// Battery, tracked-piece, and session-control responses.
    CommandResponse,
}

/// The GATT characteristic that carries a notification source.
pub open spec fn source_characteristic(source: NotificationSource) -> Characteristic {
    match source {
        NotificationSource::Position => Characteristic::PositionNotification,
        NotificationSource::CommandResponse => Characteristic::CommandResponse,
    }
}

impl NotificationSource {
    /// Returns the GATT characteristic associated with this notification source.
    pub fn characteristic(self) -> (characteristic: Characteristic)
        ensures
            characteristic == source_characteristic(self),
    {
        match self {
            NotificationSource::Position => Characteristic::PositionNotification,
            NotificationSource::CommandResponse => Characteristic::CommandResponse,
        }
    }
}

/// A borrowed notification returned by a transport implementation.
///
/// The view of a notification is its source and its bytes.
#[derive(Clone, Copy, Debug, PartialEq, Eq)]
pub struct Notification<'a> {
    source: NotificationSource,
    bytes: &'a [u8],
}

impl<'a> View for Notification<'a> {
    type V = (NotificationSource, Seq<u8>);

    closed spec fn view(&self) -> (NotificationSource, Seq<u8>) {
        (self.source, self.bytes@)
    }
}

impl<'a> Notification<'a> {
    /// Creates a notification tagged with its originating characteristic.
    ///
    /// The returned value borrows `bytes`; transports normally borrow from the
    /// receive buffer supplied to their notification method.
    pub fn new(source: NotificationSource, bytes: &'a [u8]) -> (notification: Self)
        ensures
            notification@ == (source, bytes@),
    {
        Notification { source, bytes }
    }

    /// Returns the characteristic category that produced this notification.
    pub fn source(&self) -> (source: NotificationSource)
        ensures
            source == self@.0,
    {
        self.source
    }

    /// Returns the complete borrowed notification payload.
    pub fn bytes(&self) -> (bytes: &'a [u8])
        ensures
            bytes@ == self@.1,
    {
        self.bytes
    }
}

/// Reports why a tagged transport notification could not be decoded.
#[derive(Clone, Copy, Debug, PartialEq, Eq, Structural)]
pub enum DecodeNotificationError {
    /// A position notification was malformed.
    Position(DecodePositionNotificationError),
    /// A command-response notification was malformed or unsupported.
    CommandResponse(DecodeResponseNotificationError),
}

impl From<DecodePositionNotificationError> for DecodeNotificationError {
    fn from(error: DecodePositionNotificationError) -> (r: Self) {
        DecodeNotificationError::Position(error)
    }
}

impl vstd::std_specs::convert::FromSpecImpl<DecodePositionNotificationError> for DecodeNotificationError {
    open spec fn obeys_from_spec() -> bool {
        true
    }

    open spec fn from_spec(error: DecodePositionNotificationError) -> Self {
        DecodeNotificationError::Position(error)
    }
}

impl From<DecodeResponseNotificationError> for DecodeNotificationError {
    fn from(error: DecodeResponseNotificationError) -> (r: Self) {
        DecodeNotificationError::CommandResponse(error)
    }
}

impl vstd::std_specs::convert::FromSpecImpl<DecodeResponseNotificationError> for DecodeNotificationError {
    open spec fn obeys_from_spec() -> bool {
        true
    }

    open spec fn from_spec(error: DecodeResponseNotificationError) -> Self {
        DecodeNotificationError::CommandResponse(error)
    }
}

/// A protocol notification decoded by a board session.
///
/// Control acknowledgements are represented separately because they are part
/// of session management rather than observable board state.
#[allow(clippy::large_enum_variant)]
#[derive(Clone, Copy, Debug, PartialEq, Eq)]
pub enum DecodedNotification {
    /// A notification that represents observable board data.
    Event(BoardEvent),
    /// The board acknowledged the realtime-update command.
    RealtimeUpdatesAcknowledged,
}

/// Mathematical model of a [`DecodedNotification`].
pub enum DecodedNotificationView {
    /// A notification that represents observable board data.
    Event(BoardEventView),
    /// The board acknowledged the realtime-update command.
    RealtimeUpdatesAcknowledged,
}

impl View for DecodedNotification {
    type V = DecodedNotificationView;

    open spec fn view(&self) -> DecodedNotificationView {
        match self {
            DecodedNotification::Event(event) => DecodedNotificationView::Event(event@),
            DecodedNotification::RealtimeUpdatesAcknowledged => DecodedNotificationView::RealtimeUpdatesAcknowledged,
        }
    }
}

/// An error produced while operating a board session.
#[derive(Debug)]
pub enum BoardError<E> {
    /// The transport failed while subscribing, writing, receiving, or closing.
    Transport(E),
    /// A received notification could not be decoded.
    Decode(DecodeNotificationError),
}

impl<E> From<DecodeNotificationError> for BoardError<E> {
    fn from(error: DecodeNotificationError) -> (r: Self) {
        BoardError::Decode(error)
    }
}

impl<E> vstd::std_specs::convert::FromSpecImpl<DecodeNotificationError> for BoardError<E> {
    open spec fn obeys_from_spec() -> bool {
        true
    }

    open spec fn from_spec(error: DecodeNotificationError) -> Self {
        BoardError::Decode(error)
    }
}

/// Whether command-response bytes are the realtime-update acknowledgement.
pub open spec fn is_realtime_updates_acknowledgement(bytes: Seq<u8>) -> bool {
    bytes.len() > 0 && bytes[0] == 0x23
}

/// The outcome of decoding a notification from `source` carrying `bytes`.
pub open spec fn notification_outcome(source: NotificationSource, bytes: Seq<u8>) -> Result<
    DecodedNotificationView,
    DecodeNotificationError,
> {
    match source {
        NotificationSource::Position => match position_outcome(bytes) {
            Ok(squares) => Ok(DecodedNotificationView::Event(BoardEventView::PositionChanged(squares))),
            Err(error) => Err(DecodeNotificationError::Position(error)),
        },
        NotificationSource::CommandResponse => if is_realtime_updates_acknowledgement(bytes) {
            Ok(DecodedNotificationView::RealtimeUpdatesAcknowledged)
        } else {
            match response_outcome(bytes) {
                Ok(event) => Ok(DecodedNotificationView::Event(event)),
                Err(error) => Err(DecodeNotificationError::CommandResponse(error)),
            }
        },
    }
}

/// Decodes a tagged transport notification into an event or session-control
/// acknowledgement.
///
/// Position notifications are decoded as positions. Command responses that
/// start with the acknowledgement byte `0x23` are acknowledgements; any other
/// command response is decoded as a battery or tracked-piece response.
pub fn decode_notification(notification: Notification<'_>) -> (r: Result<DecodedNotification, DecodeNotificationError>)
    ensures
        match notification_outcome(notification@.0, notification@.1) {
            Ok(model) => r matches Ok(decoded) && decoded@ == model,
            Err(error) => r == Err::<DecodedNotification, DecodeNotificationError>(error),
        },
{
    match notification.source {
        NotificationSource::Position => match decode_position_notification(notification.bytes) {
            Ok(position) => Ok(DecodedNotification::Event(BoardEvent::PositionChanged(position))),
            Err(error) => Err(DecodeNotificationError::Position(error)),
        },
        NotificationSource::CommandResponse => {
            if notification.bytes.len() > 0 && notification.bytes[0] == REALTIME_UPDATES_ACKNOWLEDGEMENT {
                Ok(DecodedNotification::RealtimeUpdatesAcknowledged)
            } else {
                match decode_response_notification(notification.bytes) {
                    Ok(event) => Ok(DecodedNotification::Event(event)),
                    Err(error) => Err(DecodeNotificationError::CommandResponse(error)),
                }
            }
        },
    }
}

/// Reports why a raw characteristic value cannot become a [`Notification`].
#[derive(Clone, Copy, Debug, PartialEq, Eq, Structural)]
pub enum NotificationRouteError {
    /// The value came from a characteristic that does not emit protocol notifications.
    UnexpectedCharacteristic(u128),
    /// The value does not fit in the receive buffer.
    TooLong {
        /// Number of bytes in the received value.
        actual: usize,
        /// Number of bytes available in the receive buffer.
        capacity: usize,
    },
}

/// Tags a raw characteristic value with its notification source.
///
/// Bluetooth libraries that deliver every characteristic's values on one
/// stream use this to route a value of `len` bytes from the characteristic
/// with UUID `uuid` into a receive buffer of `capacity` bytes. The
/// characteristic is checked first, then the length.
pub fn route_notification(uuid: u128, len: usize, capacity: usize) -> (r: Result<NotificationSource, NotificationRouteError>)
    ensures
        uuid == characteristic_uuid(Characteristic::PositionNotification) && len <= capacity
            ==> r == Ok::<NotificationSource, NotificationRouteError>(NotificationSource::Position),
        uuid == characteristic_uuid(Characteristic::CommandResponse) && len <= capacity
            ==> r == Ok::<NotificationSource, NotificationRouteError>(NotificationSource::CommandResponse),
        uuid != characteristic_uuid(Characteristic::PositionNotification) && uuid != characteristic_uuid(
            Characteristic::CommandResponse,
        ) ==> r == Err::<NotificationSource, NotificationRouteError>(
            NotificationRouteError::UnexpectedCharacteristic(uuid),
        ),
        (uuid == characteristic_uuid(Characteristic::PositionNotification) || uuid == characteristic_uuid(
            Characteristic::CommandResponse,
        )) && len > capacity ==> r == Err::<NotificationSource, NotificationRouteError>(
            NotificationRouteError::TooLong { actual: len, capacity },
        ),
{
    let source = if uuid == Characteristic::PositionNotification.uuid_u128() {
        NotificationSource::Position
    } else if uuid == Characteristic::CommandResponse.uuid_u128() {
        NotificationSource::CommandResponse
    } else {
        return Err(NotificationRouteError::UnexpectedCharacteristic(uuid));
    };
    if len > capacity {
        return Err(NotificationRouteError::TooLong { actual: len, capacity });
    }
    Ok(source)
}

/// One transport operation of a session's startup or cleanup sequence.
#[derive(Clone, Copy, Debug, PartialEq, Eq, Structural, Hash)]
pub enum SessionStep {
    /// Enable notifications for a source.
    Subscribe(NotificationSource),
    /// Write [`Command::enable_realtime_updates`](crate::protocol::Command::enable_realtime_updates).
    EnableRealtimeUpdates,
    /// Disable notifications for a source.
    Unsubscribe(NotificationSource),
    /// Close transport-owned resources.
    Close,
}

/// The startup sequence of every board session.
///
/// Position notifications are subscribed before realtime updates are enabled
/// so the initial position is not missed, and command responses are
/// subscribed after the enable write because the board may acknowledge it on
/// that characteristic.
pub open spec fn initialization_sequence() -> Seq<SessionStep> {
    seq![
        SessionStep::Subscribe(NotificationSource::Position),
        SessionStep::EnableRealtimeUpdates,
        SessionStep::Subscribe(NotificationSource::CommandResponse),
    ]
}

/// The cleanup sequence of every board session: subscriptions are disabled in
/// reverse order, then the transport is closed.
pub open spec fn shutdown_sequence() -> Seq<SessionStep> {
    seq![
        SessionStep::Unsubscribe(NotificationSource::CommandResponse),
        SessionStep::Unsubscribe(NotificationSource::Position),
        SessionStep::Close,
    ]
}

/// Returns the ordered startup steps that every board session performs.
///
/// Completed steps are not rolled back when a later step fails.
pub fn initialization_steps() -> (steps: [SessionStep; 3])
    ensures
        steps@ == initialization_sequence(),
{
    let steps = [
        SessionStep::Subscribe(NotificationSource::Position),
        SessionStep::EnableRealtimeUpdates,
        SessionStep::Subscribe(NotificationSource::CommandResponse),
    ];
    assert(steps@ =~= initialization_sequence());
    steps
}

/// Returns the ordered cleanup steps that every board session performs.
///
/// Cleanup stops at the first failed step.
pub fn shutdown_steps() -> (steps: [SessionStep; 3])
    ensures
        steps@ == shutdown_sequence(),
{
    let steps = [
        SessionStep::Unsubscribe(NotificationSource::CommandResponse),
        SessionStep::Unsubscribe(NotificationSource::Position),
        SessionStep::Close,
    ];
    assert(steps@ =~= shutdown_sequence());
    steps
}

/// The step a session performs next, given its steps, how many of them have
/// been performed, and whether the last one succeeded: none once a step has
/// failed or all have run.
pub fn next_session_step(steps: [SessionStep; 3], completed: usize, last_ok: bool) -> (next: Option<SessionStep>)
    requires
        completed <= 3,
    ensures
        next == (if !last_ok || completed == 3 {
            None
        } else {
            Some(steps@[completed as int])
        }),
{
    if !last_ok || completed == 3 {
        None
    } else {
        Some(steps[completed])
    }
}

/// What a session waiting for an event does with a decoded notification: an
/// acknowledgement is consumed (`None`); an event or a decoding error is what
/// the session reports.
pub fn next_event_step(decoded: Result<DecodedNotification, DecodeNotificationError>) -> (step: Option<
    Result<BoardEvent, DecodeNotificationError>,
>)
    ensures
        match decoded {
            Ok(DecodedNotification::Event(event)) => step == Some(Ok::<BoardEvent, DecodeNotificationError>(event)),
            Ok(DecodedNotification::RealtimeUpdatesAcknowledged) => step is None,
            Err(error) => step == Some(Err::<BoardEvent, DecodeNotificationError>(error)),
        },
{
    match decoded {
        Ok(DecodedNotification::Event(event)) => Some(Ok(event)),
        Ok(DecodedNotification::RealtimeUpdatesAcknowledged) => None,
        Err(error) => Some(Err(error)),
    }
}

/// Shared storage for the owning board sessions.
///
/// The fixed notification buffer keeps polling allocation-free and is reused
/// for every call to the transport.
pub(crate) struct BoardState<T> {
    pub(crate) transport: T,
    pub(crate) notification_buffer: [u8; MAX_NOTIFICATION_LEN],
}

impl<T> BoardState<T> {
    /// Creates session storage around a transport.
    pub(crate) fn new(transport: T) -> (state: Self)
        ensures
            state.transport == transport,
    {
        BoardState { transport, notification_buffer: [0; MAX_NOTIFICATION_LEN] }
    }
}

/// Only a command response whose first byte is `0x23` is a realtime-update
/// acknowledgement. A position notification never is one, and a command
/// response that starts with the `0x41` response header is decoded as a
/// battery or tracked-piece response.
pub proof fn lemma_acknowledgements_start_with_0x23(source: NotificationSource, bytes: Seq<u8>)
    ensures
        notification_outcome(source, bytes) == Ok::<DecodedNotificationView, DecodeNotificationError>(
            DecodedNotificationView::RealtimeUpdatesAcknowledged,
        ) <==> (source == NotificationSource::CommandResponse && bytes.len() > 0 && bytes[0] == 0x23),
        source == NotificationSource::CommandResponse && bytes.len() > 0 && bytes[0] == 0x41 ==> notification_outcome(
            source,
            bytes,
        ) == match response_outcome(bytes) {
            Ok(event) => Ok::<DecodedNotificationView, DecodeNotificationError>(DecodedNotificationView::Event(event)),
            Err(error) => Err::<DecodedNotificationView, DecodeNotificationError>(
                DecodeNotificationError::CommandResponse(error),
            ),
        },
{
}

/// Position notifications come from the position-notification characteristic
/// and command responses from the command-response characteristic; commands
/// are written to the third, the command-write characteristic.
pub proof fn lemma_sources_and_characteristics(source: NotificationSource)
    ensures
        source_characteristic(NotificationSource::Position) == Characteristic::PositionNotification,
        source_characteristic(NotificationSource::CommandResponse) == Characteristic::CommandResponse,
        source_characteristic(source) != Characteristic::CommandWrite,
{
}

} // verus!
