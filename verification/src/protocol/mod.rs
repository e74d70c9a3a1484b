//! Typed values and codecs for the Chessnut Move byte protocol.

mod command;
mod errors;
mod event;
mod led;
mod position;
mod square;
pub mod wire;

pub use command::{
    AutoMoveMode, Command, MAX_COMMAND_LEN, WriteKind, auto_move_bytes, auto_move_flag,
    enable_realtime_updates_bytes, lemma_command_layouts, lemma_stop_is_forced_move_to_empty_board, position_codes,
    query_bytes, set_leds_bytes, stop_auto_move_bytes,
};
pub use errors::{
    BatteryStatusError, DecodePositionNotificationError, DecodeResponseNotificationError,
    NotificationTooShortError, PieceStatusError,
};
pub use event::{
    BatteryStatus, BoardEvent, BoardEventView, PieceStatus, TRACKED_PIECE_COUNT, TrackedPieceStatus,
};
pub use led::{LedColor, LedPattern, led_code, led_payload, lemma_led_codes, lemma_led_set_then_read};
pub use position::{BOARD_STATE_LENGTH, Color, Piece, PieceKind, Position, lemma_set_then_read};
pub use square::{
    File, ParseSquareError, Rank, SQUARE_COUNT, Square, file_at, file_from_ascii, file_letter, lemma_file_letters,
    lemma_file_letters_case_insensitive, lemma_notation_round_trip, lemma_rank_numbers,
    lemma_square_coordinates_round_trip, lemma_square_index_layout, parse_square_bytes, rank_at, rank_digit,
    rank_from_ascii, square_index,
};

use vstd::prelude::*;

use crate::protocol::wire::{
    PackedSquares, decode_piece, lemma_pack_unpack, lemma_piece_code_round_trip, pack_nibbles, piece_code,
    piece_for_code, square_at_wire_index, unpack_nibbles,
};

verus! {

/// Offset of the packed squares in a position notification.
const BOARD_STATE_OFFSET: usize = 2;

/// First byte of every command response.
const RESPONSE_HEADER: u8 = 0x41;

/// Header bytes of a command response: header, payload length and type.
const RESPONSE_HEADER_LENGTH: usize = 3;

/// Length of a battery response.
const BATTERY_RESPONSE_LENGTH: usize = 5;

/// Payload-length byte of a battery response.
const BATTERY_RESPONSE_PAYLOAD_LENGTH: u8 = 0x03;

/// Type byte of a battery response.
const BATTERY_RESPONSE_TYPE: u8 = 0x0c;

/// Payload-length byte of a tracked-piece response.
const PIECE_STATUS_RESPONSE_PAYLOAD_LENGTH: u8 = 0x89;

/// Type byte of a tracked-piece response.
const PIECE_STATUS_RESPONSE_TYPE: u8 = 0x0b;

/// Bytes in one tracked-piece record: identity, x, y and battery.
const TRACKED_PIECE_BYTES: usize = 4;

/// Length of a tracked-piece response: the header and 34 four-byte records.
const PIECE_STATUS_RESPONSE_LENGTH: usize = 139;

/// Minimum length of a position notification: two header bytes and 32 packed bytes.
pub open spec fn position_notification_length() -> nat {
    34
}

/// The four-bit codes of the 64 squares of a position notification, in canonical order.
pub open spec fn position_square_codes(bytes: Seq<u8>) -> Seq<u8> {
    unpack_nibbles(bytes.subrange(2, 34))
}

/// Whether the code a position notification carries for square `i` is unknown.
pub open spec fn invalid_square_code(bytes: Seq<u8>, i: int) -> bool {
    piece_for_code(position_square_codes(bytes)[i]) is None
}

/// Whether every square of a position notification carries a known code.
pub open spec fn position_codes_valid(bytes: Seq<u8>) -> bool {
    forall|i: int| 0 <= i < 64 ==> !invalid_square_code(bytes, i)
}

/// The 64 squares described by a position notification, in canonical order.
pub open spec fn decoded_position(bytes: Seq<u8>) -> Seq<Option<Piece>> {
    Seq::new(64, |i: int| piece_for_code(position_square_codes(bytes)[i]).unwrap())
}

/// Whether square `i` is the invalid square that decoding reports: the first
/// invalid one in wire order, which is the invalid square with the highest
/// canonical index.
pub open spec fn reported_invalid_square(bytes: Seq<u8>, i: int) -> bool {
    &&& 0 <= i < 64
    &&& invalid_square_code(bytes, i)
    &&& forall|j: int| i < j < 64 ==> !invalid_square_code(bytes, j)
}

/// The reported invalid square is unique.
proof fn lemma_reported_invalid_square_unique(b: Seq<u8>, i: int)
    requires
        reported_invalid_square(b, i),
    ensures
        (choose|k: int| reported_invalid_square(b, k)) == i,
        !position_codes_valid(b),
{
    let k = choose|k: int| reported_invalid_square(b, k);
    assert(reported_invalid_square(b, k));
    if k < i {
        assert(!invalid_square_code(b, i));
    } else if k > i {
        assert(!invalid_square_code(b, k));
    }
}

/// The outcome of decoding a position notification: the 64 squares in
/// canonical order, or the error that decoding reports.
pub open spec fn position_outcome(b: Seq<u8>) -> Result<Seq<Option<Piece>>, DecodePositionNotificationError> {
    if b.len() < 34 {
        Err(
            DecodePositionNotificationError::NotificationTooShort(
                NotificationTooShortError { expected: 34, actual: b.len() as usize },
            ),
        )
    } else if position_codes_valid(b) {
        Ok(decoded_position(b))
    } else {
        let i = choose|i: int| reported_invalid_square(b, i);
        Err(
            DecodePositionNotificationError::InvalidPiece {
                square: Square::with_index(i as nat),
                value: position_square_codes(b)[i],
            },
        )
    }
}

/// The error reported for a response shorter than `expected` bytes.
pub open spec fn response_too_short(expected: int, actual: int) -> DecodeResponseNotificationError {
    DecodeResponseNotificationError::NotificationTooShort(
        NotificationTooShortError { expected: expected as usize, actual: actual as usize },
    )
}

/// The error reported for a response header byte that does not match.
pub open spec fn header_mismatch(offset: int, expected: u8, actual: u8) -> DecodeResponseNotificationError {
    DecodeResponseNotificationError::InvalidNotificationHeader { offset: offset as usize, expected, actual }
}

/// The outcome of decoding a battery response whose header and type were accepted.
pub open spec fn battery_outcome(b: Seq<u8>) -> Result<BatteryStatus, DecodeResponseNotificationError> {
    if b.len() < 5 {
        Err(response_too_short(5, b.len() as int))
    } else if b[1] != 0x03 {
        Err(header_mismatch(1, 0x03, b[1]))
    } else if b[3] > 1 {
        Err(DecodeResponseNotificationError::BatteryStatus(BatteryStatusError::InvalidChargingFlag(b[3])))
    } else if b[4] > 100 {
        Err(DecodeResponseNotificationError::BatteryStatus(BatteryStatusError::InvalidBatteryPercentage(b[4])))
    } else {
        Ok(BatteryStatus { charging: b[3] == 1, percentage: b[4] })
    }
}

/// Chess role of the identity codes in a tracked-piece record, by position in
/// the order pawn, rook, knight, bishop, queen, king.
pub open spec fn tracked_kind(i: int) -> PieceKind {
    if i == 0 {
        PieceKind::Pawn
    } else if i == 1 {
        PieceKind::Rook
    } else if i == 2 {
        PieceKind::Knight
    } else if i == 3 {
        PieceKind::Bishop
    } else if i == 4 {
        PieceKind::Queen
    } else {
        PieceKind::King
    }
}

/// The piece named by a tracked-piece identity code: 1 through 6 are the white
/// pawn, rook, knight, bishop, queen and king, and 7 through 12 the black ones.
pub open spec fn tracked_piece_for_identity(value: u8) -> Option<Piece> {
    if 1 <= value <= 6 {
        Some(Piece { color: Color::White, kind: tracked_kind(value - 1) })
    } else if 7 <= value <= 12 {
        Some(Piece { color: Color::Black, kind: tracked_kind(value - 7) })
    } else {
        None
    }
}

/// The battery reading of a tracked-piece record: a percentage, the `0xff`
/// unavailable marker, or `None` for any other byte.
pub open spec fn tracked_battery(value: u8) -> Option<Option<u8>> {
    if value <= 100 {
        Some(Some(value))
    } else if value == 0xff {
        Some(None)
    } else {
        None
    }
}

/// The outcome of decoding record `i` of a tracked-piece response.
pub open spec fn record_outcome(b: Seq<u8>, i: int) -> Result<TrackedPieceStatus, PieceStatusError> {
    let offset = 3 + 4 * i;
    let identity = b[offset];
    let battery = b[offset + 3];
    if tracked_piece_for_identity(identity) is None {
        Err(PieceStatusError::InvalidTrackedPiece { index: i as usize, value: identity })
    } else if tracked_battery(battery) is None {
        Err(PieceStatusError::InvalidTrackedPieceBattery { index: i as usize, value: battery })
    } else {
        Ok(
            TrackedPieceStatus {
                piece: tracked_piece_for_identity(identity).unwrap(),
                x: b[offset + 1],
                y: b[offset + 2],
                battery_percentage: tracked_battery(battery).unwrap(),
            },
        )
    }
}

/// Whether record `i` is the first record of a tracked-piece response that fails to decode.
pub open spec fn first_invalid_record(b: Seq<u8>, i: int) -> bool {
    &&& 0 <= i < 34
    &&& record_outcome(b, i) is Err
    &&& forall|j: int| 0 <= j < i ==> record_outcome(b, j) is Ok
}

/// The first invalid record is unique, so it is the one that decoding reports.
proof fn lemma_first_invalid_record_unique(b: Seq<u8>, i: int)
    requires
        first_invalid_record(b, i),
    ensures
        (choose|k: int| first_invalid_record(b, k)) == i,
        !records_valid(b),
{
    let k = choose|k: int| first_invalid_record(b, k);
    assert(first_invalid_record(b, k));
    if k < i {
        assert(record_outcome(b, k) is Ok);
    } else if k > i {
        assert(record_outcome(b, i) is Ok);
    }
}

/// Whether every record of a tracked-piece response decodes.
pub open spec fn records_valid(b: Seq<u8>) -> bool {
    forall|i: int| 0 <= i < 34 ==> record_outcome(b, i) is Ok
}

/// The outcome of decoding a tracked-piece response whose header and type were accepted.
pub open spec fn piece_status_outcome(b: Seq<u8>) -> Result<Seq<TrackedPieceStatus>, DecodeResponseNotificationError> {
    if b.len() < 139 {
        Err(response_too_short(139, b.len() as int))
    } else if b[1] != 0x89 {
        Err(header_mismatch(1, 0x89, b[1]))
    } else if records_valid(b) {
        Ok(Seq::new(34, |i: int| record_outcome(b, i)->Ok_0))
    } else {
        Err(DecodeResponseNotificationError::PieceStatus(
            record_outcome(b, choose|i: int| first_invalid_record(b, i))->Err_0,
        ))
    }
}

/// The outcome of decoding a command-response notification.
pub open spec fn response_outcome(b: Seq<u8>) -> Result<BoardEventView, DecodeResponseNotificationError> {
    if b.len() < 3 {
        Err(response_too_short(3, b.len() as int))
    } else if b[0] != 0x41 {
        Err(header_mismatch(0, 0x41, b[0]))
    } else if b[2] == 0x0c {
        match battery_outcome(b) {
            Ok(status) => Ok(BoardEventView::BatteryStatus(status)),
            Err(error) => Err(error),
        }
    } else if b[2] == 0x0b {
        match piece_status_outcome(b) {
            Ok(records) => Ok(BoardEventView::PieceStatus(records)),
            Err(error) => Err(error),
        }
    } else {
        Err(DecodeResponseNotificationError::UnexpectedNotification(b[2]))
    }
}

/// Decodes a position notification emitted by the position characteristic.
///
/// Bytes two through thirty-three contain the packed state of all 64 squares.
/// Any trailing bytes are transport metadata and are ignored.
///
/// Returns `NotificationTooShort` when fewer than 34 bytes are supplied, and
/// `InvalidPiece` for the first square in wire order (the highest canonical
/// index) that carries an unknown piece code.
pub fn decode_position_notification(bytes: &[u8]) -> (r: Result<Position, DecodePositionNotificationError>)
    ensures
        match position_outcome(bytes@) {
            Ok(squares) => r matches Ok(position) && position@ == squares,
            Err(error) => r == Err::<Position, DecodePositionNotificationError>(error),
        },
{
    let expected_minimum = BOARD_STATE_OFFSET + BOARD_STATE_LENGTH;
    if bytes.len() < expected_minimum {
        return Err(
            DecodePositionNotificationError::NotificationTooShort(
                NotificationTooShortError { expected: expected_minimum, actual: bytes.len() },
            ),
        );
    }
    let mut payload = [0u8; BOARD_STATE_LENGTH];
    let mut offset: usize = 0;
    while offset < BOARD_STATE_LENGTH
        invariant
            offset <= BOARD_STATE_LENGTH,
            bytes@.len() >= 34,
            payload@.len() == BOARD_STATE_LENGTH,
            forall|i: int| 0 <= i < offset ==> payload@[i] == bytes@[2 + i],
        decreases BOARD_STATE_LENGTH - offset,
    {
        payload[offset] = bytes[BOARD_STATE_OFFSET + offset];
        offset += 1;
    }
    assert(payload@ =~= bytes@.subrange(2, 34));
    let codes = PackedSquares::from_bytes(payload).decode();

    let mut squares: [Option<Piece>; SQUARE_COUNT] = [None; SQUARE_COUNT];
    let mut wire_index: usize = 0;
    while wire_index < SQUARE_COUNT
        invariant
            wire_index <= SQUARE_COUNT,
            bytes@.len() >= 34,
            codes@ == position_square_codes(bytes@),
            squares@.len() == SQUARE_COUNT,
            forall|i: int|
                63 - wire_index < i < 64 ==> !invalid_square_code(bytes@, i) && squares@[i]
                    == piece_for_code(codes@[i]).unwrap(),
        decreases SQUARE_COUNT - wire_index,
    {
        let square = square_at_wire_index(wire_index);
        let index = square.index();
        match decode_piece(square, codes[index]) {
            Ok(piece) => {
                squares[index] = piece;
            },
            Err(error) => {
                assert(reported_invalid_square(bytes@, index as int));
                proof {
                    lemma_reported_invalid_square_unique(bytes@, index as int);
                    Square::lemma_with_index(index as nat, square);
                }
                return Err(error);
            },
        }
        wire_index += 1;
    }
    assert(squares@ =~= decoded_position(bytes@));
    Ok(Position::new(squares))
}

/// Decodes a battery or tracked-piece response notification.
///
/// The notification type byte determines whether the returned event is
/// [`BoardEvent::BatteryStatus`] or [`BoardEvent::PieceStatus`]. Checks are made
/// in this order: overall length, header byte, type byte, then the checks of
/// the selected response.
pub fn decode_response_notification(bytes: &[u8]) -> (r: Result<BoardEvent, DecodeResponseNotificationError>)
    ensures
        match response_outcome(bytes@) {
            Ok(model) => r matches Ok(event) && event@ == model,
            Err(error) => r == Err::<BoardEvent, DecodeResponseNotificationError>(error),
        },
{
    match require_length(bytes, RESPONSE_HEADER_LENGTH) {
        Ok(()) => {},
        Err(error) => return Err(DecodeResponseNotificationError::NotificationTooShort(error)),
    }
    match require_header_byte(bytes, 0, RESPONSE_HEADER) {
        Ok(()) => {},
        Err(error) => return Err(error),
    }
    let response_type = bytes[2];
    if response_type == BATTERY_RESPONSE_TYPE {
        match decode_battery_status(bytes) {
            Ok(status) => Ok(BoardEvent::BatteryStatus(status)),
            Err(error) => Err(error),
        }
    } else if response_type == PIECE_STATUS_RESPONSE_TYPE {
        match decode_piece_status(bytes) {
            Ok(status) => Ok(BoardEvent::PieceStatus(status)),
            Err(error) => Err(error),
        }
    } else {
        Err(DecodeResponseNotificationError::UnexpectedNotification(response_type))
    }
}

/// Decodes the fields of a battery response.
fn decode_battery_status(bytes: &[u8]) -> (r: Result<BatteryStatus, DecodeResponseNotificationError>)
    requires
        bytes@.len() >= 3,
    ensures
        r == battery_outcome(bytes@),
{
    match require_length(bytes, BATTERY_RESPONSE_LENGTH) {
        Ok(()) => {},
        Err(error) => return Err(DecodeResponseNotificationError::NotificationTooShort(error)),
    }
    match require_header_byte(bytes, 1, BATTERY_RESPONSE_PAYLOAD_LENGTH) {
        Ok(()) => {},
        Err(error) => return Err(error),
    }
    let charging = match bytes[3] {
        0 => false,
        1 => true,
        value => {
            return Err(DecodeResponseNotificationError::BatteryStatus(BatteryStatusError::InvalidChargingFlag(value)));
        },
    };
    let percentage = match validate_battery_percentage(bytes[4]) {
        Ok(percentage) => percentage,
        Err(error) => return Err(DecodeResponseNotificationError::BatteryStatus(error)),
    };
    Ok(BatteryStatus { charging, percentage })
}

/// Decodes the 34 records of a tracked-piece response, stopping at the first invalid one.
fn decode_piece_status(bytes: &[u8]) -> (r: Result<PieceStatus, DecodeResponseNotificationError>)
    requires
        bytes@.len() >= 3,
    ensures
        match piece_status_outcome(bytes@) {
            Ok(records) => r matches Ok(status) && status@ == records,
            Err(error) => r == Err::<PieceStatus, DecodeResponseNotificationError>(error),
        },
{
    match require_length(bytes, PIECE_STATUS_RESPONSE_LENGTH) {
        Ok(()) => {},
        Err(error) => return Err(DecodeResponseNotificationError::NotificationTooShort(error)),
    }
    match require_header_byte(bytes, 1, PIECE_STATUS_RESPONSE_PAYLOAD_LENGTH) {
        Ok(()) => {},
        Err(error) => return Err(error),
    }

    let mut pieces = [TrackedPieceStatus::default(); TRACKED_PIECE_COUNT];
    let mut index: usize = 0;
    while index < TRACKED_PIECE_COUNT
        invariant
            index <= TRACKED_PIECE_COUNT,
            bytes@.len() >= 139,
            bytes@[1] == 0x89,
            pieces@.len() == TRACKED_PIECE_COUNT,
            forall|j: int| 0 <= j < index ==> #[trigger] record_outcome(bytes@, j) is Ok,
            forall|j: int| 0 <= j < index ==> #[trigger] pieces@[j] == record_outcome(bytes@, j)->Ok_0,
        decreases TRACKED_PIECE_COUNT - index,
    {
        let offset = RESPONSE_HEADER_LENGTH + index * TRACKED_PIECE_BYTES;
        let identity = bytes[offset];
        let battery = bytes[offset + 3];
        let piece = match decode_tracked_piece(index, identity) {
            Ok(piece) => piece,
            Err(error) => {
                assert(first_invalid_record(bytes@, index as int));
                proof {
                    lemma_first_invalid_record_unique(bytes@, index as int);
                }
                return Err(DecodeResponseNotificationError::PieceStatus(error));
            },
        };
        let x = bytes[offset + 1];
        let y = bytes[offset + 2];
        let battery_percentage = match validate_tracked_piece_battery(index, battery) {
            Ok(battery_percentage) => battery_percentage,
            Err(error) => {
                assert(first_invalid_record(bytes@, index as int));
                proof {
                    lemma_first_invalid_record_unique(bytes@, index as int);
                }
                return Err(DecodeResponseNotificationError::PieceStatus(error));
            },
        };
        pieces[index] = TrackedPieceStatus { piece, x, y, battery_percentage };
        index += 1;
    }
    let status = PieceStatus { pieces };
    assert(status@ =~= Seq::new(34, |i: int| record_outcome(bytes@, i)->Ok_0));
    Ok(status)
}

/// Decodes the identity byte of a tracked-piece record.
///
/// Index order is stable, but the identity is still validated so firmware
/// changes or corrupt frames cannot silently relabel a piece.
fn decode_tracked_piece(index: usize, value: u8) -> (r: Result<Piece, PieceStatusError>)
    ensures
        match tracked_piece_for_identity(value) {
            Some(piece) => r == Ok::<Piece, PieceStatusError>(piece),
            None => r == Err::<Piece, PieceStatusError>(PieceStatusError::InvalidTrackedPiece { index, value }),
        },
{
    let piece = match value {
        0x01 => Piece { color: Color::White, kind: PieceKind::Pawn },
        0x02 => Piece { color: Color::White, kind: PieceKind::Rook },
        0x03 => Piece { color: Color::White, kind: PieceKind::Knight },
        0x04 => Piece { color: Color::White, kind: PieceKind::Bishop },
        0x05 => Piece { color: Color::White, kind: PieceKind::Queen },
        0x06 => Piece { color: Color::White, kind: PieceKind::King },
        0x07 => Piece { color: Color::Black, kind: PieceKind::Pawn },
        0x08 => Piece { color: Color::Black, kind: PieceKind::Rook },
        0x09 => Piece { color: Color::Black, kind: PieceKind::Knight },
        0x0a => Piece { color: Color::Black, kind: PieceKind::Bishop },
        0x0b => Piece { color: Color::Black, kind: PieceKind::Queen },
        0x0c => Piece { color: Color::Black, kind: PieceKind::King },
        value => {
            return Err(PieceStatusError::InvalidTrackedPiece { index, value });
        },
    };
    Ok(piece)
}

/// Accepts a board battery percentage from 0 through 100.
fn validate_battery_percentage(value: u8) -> (r: Result<u8, BatteryStatusError>)
    ensures
        value <= 100 ==> r == Ok::<u8, BatteryStatusError>(value),
        value > 100 ==> r == Err::<u8, BatteryStatusError>(BatteryStatusError::InvalidBatteryPercentage(value)),
{
    if value <= 100 {
        Ok(value)
    } else {
        Err(BatteryStatusError::InvalidBatteryPercentage(value))
    }
}

/// Accepts a tracked-piece battery byte: a percentage, or `0xff` when unavailable.
///
/// Values between 101 and 254 are not defined by the protocol.
fn validate_tracked_piece_battery(index: usize, value: u8) -> (r: Result<Option<u8>, PieceStatusError>)
    ensures
        match tracked_battery(value) {
            Some(reading) => r == Ok::<Option<u8>, PieceStatusError>(reading),
            None => r == Err::<Option<u8>, PieceStatusError>(
                PieceStatusError::InvalidTrackedPieceBattery { index, value },
            ),
        },
{
    if value <= 100 {
        Ok(Some(value))
    } else if value == 0xff {
        Ok(None)
    } else {
        Err(PieceStatusError::InvalidTrackedPieceBattery { index, value })
    }
}

/// Requires at least `expected` bytes.
fn require_length(bytes: &[u8], expected: usize) -> (r: Result<(), NotificationTooShortError>)
    ensures
        bytes@.len() >= expected ==> r is Ok,
        bytes@.len() < expected ==> r == Err::<(), NotificationTooShortError>(
            NotificationTooShortError { expected, actual: bytes@.len() as usize },
        ),
{
    if bytes.len() < expected {
        Err(NotificationTooShortError { expected, actual: bytes.len() })
    } else {
        Ok(())
    }
}

/// Requires a fixed header byte at `offset`.
fn require_header_byte(bytes: &[u8], offset: usize, expected: u8) -> (r: Result<(), DecodeResponseNotificationError>)
    requires
        offset < bytes@.len(),
    ensures
        bytes@[offset as int] == expected ==> r is Ok,
        bytes@[offset as int] != expected ==> r == Err::<(), DecodeResponseNotificationError>(
            header_mismatch(offset as int, expected, bytes@[offset as int]),
        ),
{
    let actual = bytes[offset];
    if actual == expected {
        Ok(())
    } else {
        Err(DecodeResponseNotificationError::InvalidNotificationHeader { offset, expected, actual })
    }
}

} // verus!

verus! {

/// Any bytes after the first 34 of a position notification are transport
/// metadata: appending bytes to a complete notification does not change what
/// it decodes to.
pub proof fn lemma_position_trailing_bytes_ignored(bytes: Seq<u8>, trailing: Seq<u8>)
    requires
        bytes.len() >= 34,
    ensures
        position_outcome(bytes + trailing) == position_outcome(bytes),
{
    let longer = bytes + trailing;
    assert(longer.subrange(2, 34) =~= bytes.subrange(2, 34));
    assert(position_square_codes(longer) == position_square_codes(bytes));
    assert(decoded_position(longer) =~= decoded_position(bytes));
    assert forall|i: int| #[trigger] invalid_square_code(longer, i) == invalid_square_code(bytes, i) by {}
    if !position_codes_valid(bytes) {
        let k = choose|k: int| 0 <= k < 64 && invalid_square_code(bytes, k);
        lemma_reported_invalid_square_exists(bytes, k);
        let i = choose|i: int| reported_invalid_square(bytes, i);
        assert(reported_invalid_square(longer, i));
        lemma_reported_invalid_square_unique(bytes, i);
        lemma_reported_invalid_square_unique(longer, i);
    }
}

/// A notification with an invalid square has a reported invalid square.
proof fn lemma_reported_invalid_square_exists(bytes: Seq<u8>, k: int)
    requires
        0 <= k < 64,
        invalid_square_code(bytes, k),
    ensures
        exists|i: int| reported_invalid_square(bytes, i),
    decreases 64 - k,
{
    if forall|j: int| k < j < 64 ==> !invalid_square_code(bytes, j) {
        assert(reported_invalid_square(bytes, k));
    } else {
        let j = choose|j: int| k < j < 64 && invalid_square_code(bytes, j);
        lemma_reported_invalid_square_exists(bytes, j);
    }
}

/// Every decoded battery percentage is at most 100, and every decoded
/// tracked-piece battery reading is at most 100 when present.
pub proof fn lemma_decoded_percentages_in_range(bytes: Seq<u8>, i: int)
    ensures
        response_outcome(bytes) matches Ok(BoardEventView::BatteryStatus(status)) ==> status.percentage <= 100,
        response_outcome(bytes) matches Ok(BoardEventView::PieceStatus(records)) ==> (0 <= i < records.len()
            ==> (records[i].battery_percentage matches Some(p) ==> p <= 100)),
{
    match response_outcome(bytes) {
        Ok(BoardEventView::PieceStatus(records)) => {
            if 0 <= i < records.len() {
                assert(records[i] == record_outcome(bytes, i)->Ok_0);
            }
        },
        _ => {},
    }
}

/// Encoding a position and decoding it again gives the same position: a
/// position notification whose payload (after any two header bytes, and
/// followed by any trailing bytes) is the packed encoding of a position
/// decodes to that position. In particular the bytes of
/// [`Command::auto_move`] decode to its target.
pub proof fn lemma_position_encoding_round_trip(
    target: Seq<Option<Piece>>,
    header: Seq<u8>,
    trailing: Seq<u8>,
)
    requires
        target.len() == SQUARE_COUNT,
        header.len() == 2,
    ensures
        position_outcome(header + pack_nibbles(position_codes(target)) + trailing) == Ok::<
            Seq<Option<Piece>>,
            DecodePositionNotificationError,
        >(target),
        position_outcome(auto_move_bytes(target, AutoMoveMode::Force)) == Ok::<
            Seq<Option<Piece>>,
            DecodePositionNotificationError,
        >(target),
        position_outcome(auto_move_bytes(target, AutoMoveMode::Normal)) == Ok::<
            Seq<Option<Piece>>,
            DecodePositionNotificationError,
        >(target),
{
    let codes = position_codes(target);
    assert forall|i: int| 0 <= i < codes.len() implies codes[i] <= 15 by {
        lemma_piece_code_round_trip(target[i], piece_code(target[i]));
    }
    lemma_pack_unpack(codes);
    assert forall|h: Seq<u8>, t: Seq<u8>| h.len() == 2 implies #[trigger] position_outcome(h + pack_nibbles(codes) + t)
        == Ok::<Seq<Option<Piece>>, DecodePositionNotificationError>(target) by {
        let b = h + pack_nibbles(codes) + t;
        assert(b.subrange(2, 34) =~= pack_nibbles(codes));
        assert(position_square_codes(b) == codes);
        assert forall|i: int| 0 <= i < 64 implies !invalid_square_code(b, i) && #[trigger] piece_for_code(
            codes[i],
        ).unwrap() == target[i] by {
            lemma_piece_code_round_trip(target[i], codes[i]);
        }
        assert(decoded_position(b) =~= target);
    }
    assert(auto_move_bytes(target, AutoMoveMode::Force) == seq![0x42u8, 0x21u8] + pack_nibbles(codes) + seq![0x00u8]);
    assert(auto_move_bytes(target, AutoMoveMode::Normal) == seq![0x42u8, 0x21u8] + pack_nibbles(codes) + seq![0x01u8]);
}

/// The tracked-piece identity codes: `0x01` through `0x06` name the white
/// pawn, rook, knight, bishop, queen and king, `0x07` through `0x0c` the black
/// pawn, rook, knight, bishop, queen and king, and no other byte names a piece.
pub proof fn lemma_tracked_identity_codes(value: u8)
    ensures
        tracked_piece_for_identity(0x01) == Some((Piece { color: Color::White, kind: PieceKind::Pawn })),
        tracked_piece_for_identity(0x02) == Some((Piece { color: Color::White, kind: PieceKind::Rook })),
        tracked_piece_for_identity(0x03) == Some((Piece { color: Color::White, kind: PieceKind::Knight })),
        tracked_piece_for_identity(0x04) == Some((Piece { color: Color::White, kind: PieceKind::Bishop })),
        tracked_piece_for_identity(0x05) == Some((Piece { color: Color::White, kind: PieceKind::Queen })),
        tracked_piece_for_identity(0x06) == Some((Piece { color: Color::White, kind: PieceKind::King })),
        tracked_piece_for_identity(0x07) == Some((Piece { color: Color::Black, kind: PieceKind::Pawn })),
        tracked_piece_for_identity(0x08) == Some((Piece { color: Color::Black, kind: PieceKind::Rook })),
        tracked_piece_for_identity(0x09) == Some((Piece { color: Color::Black, kind: PieceKind::Knight })),
        tracked_piece_for_identity(0x0a) == Some((Piece { color: Color::Black, kind: PieceKind::Bishop })),
        tracked_piece_for_identity(0x0b) == Some((Piece { color: Color::Black, kind: PieceKind::Queen })),
        tracked_piece_for_identity(0x0c) == Some((Piece { color: Color::Black, kind: PieceKind::King })),
        value == 0 || value > 0x0c ==> tracked_piece_for_identity(value) is None,
{
}

/// Every record of a decoded tracked-piece response reports the piece its
/// identity byte names (pawn, rook, knight, bishop, queen, king for `0x01`
/// through `0x06` in white and `0x07` through `0x0c` in black), the record's
/// coordinates, and its battery byte as a percentage, or as unavailable for
/// `0xff`.
pub proof fn lemma_piece_status_records(bytes: Seq<u8>, records: Seq<TrackedPieceStatus>, i: int)
    requires
        response_outcome(bytes) == Ok::<BoardEventView, DecodeResponseNotificationError>(
            BoardEventView::PieceStatus(records),
        ),
        0 <= i < 34,
    ensures
        bytes.len() >= 139,
        bytes[0] == 0x41 && bytes[1] == 0x89 && bytes[2] == 0x0b,
        records.len() == 34,
        bytes[3 + 4 * i] == 0x01 ==> records[i].piece == (Piece { color: Color::White, kind: PieceKind::Pawn }),
        bytes[3 + 4 * i] == 0x02 ==> records[i].piece == (Piece { color: Color::White, kind: PieceKind::Rook }),
        bytes[3 + 4 * i] == 0x03 ==> records[i].piece == (Piece { color: Color::White, kind: PieceKind::Knight }),
        bytes[3 + 4 * i] == 0x04 ==> records[i].piece == (Piece { color: Color::White, kind: PieceKind::Bishop }),
        bytes[3 + 4 * i] == 0x05 ==> records[i].piece == (Piece { color: Color::White, kind: PieceKind::Queen }),
        bytes[3 + 4 * i] == 0x06 ==> records[i].piece == (Piece { color: Color::White, kind: PieceKind::King }),
        bytes[3 + 4 * i] == 0x07 ==> records[i].piece == (Piece { color: Color::Black, kind: PieceKind::Pawn }),
        bytes[3 + 4 * i] == 0x08 ==> records[i].piece == (Piece { color: Color::Black, kind: PieceKind::Rook }),
        bytes[3 + 4 * i] == 0x09 ==> records[i].piece == (Piece { color: Color::Black, kind: PieceKind::Knight }),
        bytes[3 + 4 * i] == 0x0a ==> records[i].piece == (Piece { color: Color::Black, kind: PieceKind::Bishop }),
        bytes[3 + 4 * i] == 0x0b ==> records[i].piece == (Piece { color: Color::Black, kind: PieceKind::Queen }),
        bytes[3 + 4 * i] == 0x0c ==> records[i].piece == (Piece { color: Color::Black, kind: PieceKind::King }),
        records[i].x == bytes[4 + 4 * i],
        records[i].y == bytes[5 + 4 * i],
        bytes[6 + 4 * i] <= 100 ==> records[i].battery_percentage == Some(bytes[6 + 4 * i]),
        bytes[6 + 4 * i] == 0xff ==> records[i].battery_percentage is None,
{
    assert(records[i] == record_outcome(bytes, i)->Ok_0);
    assert(record_outcome(bytes, i) is Ok);
}

/// A decoded battery response reports the board as charging exactly when its
/// fourth byte is 1, and its fifth byte as the percentage.
pub proof fn lemma_battery_status_bytes(bytes: Seq<u8>, status: BatteryStatus)
    requires
        response_outcome(bytes) == Ok::<BoardEventView, DecodeResponseNotificationError>(
            BoardEventView::BatteryStatus(status),
        ),
    ensures
        bytes.len() >= 5,
        bytes[0] == 0x41 && bytes[1] == 0x03 && bytes[2] == 0x0c,
        status.charging <==> bytes[3] == 1,
        status.percentage == bytes[4],
{
}

/// A decoded position takes square `63 - 2k` from the low nibble of packed
/// byte `k` (notification byte `k + 2`) and square `62 - 2k` from its high
/// nibble, each read as a square code.
pub proof fn lemma_position_square_layout(bytes: Seq<u8>, squares: Seq<Option<Piece>>, k: int)
    requires
        position_outcome(bytes) == Ok::<Seq<Option<Piece>>, DecodePositionNotificationError>(squares),
        0 <= k < 32,
    ensures
        squares.len() == 64,
        piece_for_code(bytes[2 + k] % 16) == Some(squares[63 - 2 * k]),
        piece_for_code(bytes[2 + k] / 16) == Some(squares[62 - 2 * k]),
{
    let packed = bytes.subrange(2, 34);
    crate::protocol::wire::lemma_unpacked_square_layout(packed, k);
    assert(packed[k] == bytes[2 + k]);
    assert(!invalid_square_code(bytes, 63 - 2 * k));
    assert(!invalid_square_code(bytes, 62 - 2 * k));
}

} // verus!
