use chessnut_move::protocol::{
    AutoMoveMode, BatteryStatus, BatteryStatusError, BoardEvent, Color, Command,
    DecodePositionNotificationError, DecodeResponseNotificationError, File, NotificationTooShortError,
    Piece, PieceKind, PieceStatusError, Position, Rank, SQUARE_COUNT, Square, TRACKED_PIECE_COUNT,
    TrackedPieceStatus, decode_position_notification, decode_response_notification,
};

const RESPONSE_HEADER: u8 = 0x41;
const RESPONSE_HEADER_LENGTH: usize = 3;
const PIECE_STATUS_RESPONSE_PAYLOAD_LENGTH: u8 = 0x89;
const PIECE_STATUS_RESPONSE_TYPE: u8 = 0x0b;
const TRACKED_PIECE_BYTES: usize = 4;
const PIECE_STATUS_RESPONSE_LENGTH: usize = RESPONSE_HEADER_LENGTH + TRACKED_PIECE_COUNT * TRACKED_PIECE_BYTES;

const TRACKED_PIECE_IDENTITIES: [u8; TRACKED_PIECE_COUNT] = [
    1, 1, 1, 1, 1, 1, 1, 1, 2, 2, 3, 3, 4, 4, 5, 5, 6, 7, 7, 7, 7, 7, 7, 7, 7, 8, 8, 9, 9, 10, 10,
    11, 11, 12,
];

fn piece_status_response() -> [u8; PIECE_STATUS_RESPONSE_LENGTH] {
    let mut response = [0; PIECE_STATUS_RESPONSE_LENGTH];
    response[..RESPONSE_HEADER_LENGTH].copy_from_slice(&[
        RESPONSE_HEADER,
        PIECE_STATUS_RESPONSE_PAYLOAD_LENGTH,
        PIECE_STATUS_RESPONSE_TYPE,
    ]);

    for (index, identity) in TRACKED_PIECE_IDENTITIES.iter().copied().enumerate() {
        let offset = RESPONSE_HEADER_LENGTH + index * TRACKED_PIECE_BYTES;
        response[offset] = identity;
        response[offset + 1] = index as u8;
        response[offset + 2] = u8::MAX - index as u8;
        response[offset + 3] = 50 + index as u8;
    }

    response
}

#[test]
fn decodes_battery_status_response() {
    let event = decode_response_notification(&[0x41, 0x03, 0x0c, 0x01, 87]);

    assert_eq!(
        event,
        Ok(BoardEvent::BatteryStatus(BatteryStatus { charging: true, percentage: 87 }))
    );
}

#[test]
fn rejects_invalid_battery_status_fields() {
    assert_eq!(
        decode_response_notification(&[0x41, 0x03, 0x0c, 0x02, 87]),
        Err(BatteryStatusError::InvalidChargingFlag(0x02).into())
    );
    assert_eq!(
        decode_response_notification(&[0x41, 0x03, 0x0c, 0x00, 101]),
        Err(BatteryStatusError::InvalidBatteryPercentage(101).into())
    );
}

#[test]
fn decodes_all_tracked_piece_statuses() {
    let response = piece_status_response();
    let BoardEvent::PieceStatus(status) = decode_response_notification(&response).unwrap() else {
        panic!("expected a piece-status event");
    };

    assert_eq!(
        status.pieces[0],
        TrackedPieceStatus {
            piece: Piece { color: Color::White, kind: PieceKind::Pawn },
            x: 0,
            y: 255,
            battery_percentage: Some(50),
        }
    );
    assert_eq!(status.pieces[16].piece, Piece { color: Color::White, kind: PieceKind::King });
    assert_eq!(status.pieces[17].piece, Piece { color: Color::Black, kind: PieceKind::Pawn });
    assert_eq!(status.pieces[33].piece, Piece { color: Color::Black, kind: PieceKind::King });
    assert_eq!(status.pieces[33].x, 33);
    assert_eq!(status.pieces[33].y, 222);
    assert_eq!(status.pieces[33].battery_percentage, Some(83));
}

#[test]
fn decodes_unavailable_tracked_piece_battery() {
    let mut response = piece_status_response();
    response[RESPONSE_HEADER_LENGTH + 3] = 0xff;

    let BoardEvent::PieceStatus(status) = decode_response_notification(&response).unwrap() else {
        panic!("expected a piece-status event");
    };

    assert_eq!(status.pieces[0].battery_percentage, None);
}

#[test]
fn rejects_invalid_tracked_piece_fields() {
    let mut invalid_identity = piece_status_response();
    invalid_identity[RESPONSE_HEADER_LENGTH + 5 * TRACKED_PIECE_BYTES] = 0xff;
    assert_eq!(
        decode_response_notification(&invalid_identity),
        Err(PieceStatusError::InvalidTrackedPiece { index: 5, value: 0xff }.into())
    );

    let mut invalid_battery = piece_status_response();
    invalid_battery[RESPONSE_HEADER_LENGTH + 7 * TRACKED_PIECE_BYTES + 3] = 101;
    assert_eq!(
        decode_response_notification(&invalid_battery),
        Err(PieceStatusError::InvalidTrackedPieceBattery { index: 7, value: 101 }.into())
    );
}

#[test]
fn validates_response_length_and_header() {
    assert_eq!(
        decode_response_notification(&[0x41, 0x03]),
        Err(NotificationTooShortError { expected: RESPONSE_HEADER_LENGTH, actual: 2 }.into())
    );
    assert_eq!(
        decode_response_notification(&[0x40, 0x03, 0x0c, 0, 50]),
        Err(DecodeResponseNotificationError::InvalidNotificationHeader {
            offset: 0,
            expected: 0x41,
            actual: 0x40,
        })
    );
    assert_eq!(
        decode_response_notification(&[0x41, 0x04, 0x0c, 0, 50]),
        Err(DecodeResponseNotificationError::InvalidNotificationHeader {
            offset: 1,
            expected: 0x03,
            actual: 0x04,
        })
    );
    assert_eq!(
        decode_response_notification(&[0x41, 0x01, 0xff]),
        Err(DecodeResponseNotificationError::UnexpectedNotification(0xff))
    );
}

#[test]
fn rejects_short_piece_status_response() {
    let response = piece_status_response();

    assert_eq!(
        decode_response_notification(&response[..response.len() - 1]),
        Err(NotificationTooShortError {
            expected: PIECE_STATUS_RESPONSE_LENGTH,
            actual: PIECE_STATUS_RESPONSE_LENGTH - 1,
        }
        .into())
    );
}

#[test]
fn rejects_short_battery_response_and_its_payload_length() {
    assert_eq!(
        decode_response_notification(&[0x41, 0x03, 0x0c, 0x01]),
        Err(NotificationTooShortError { expected: 5, actual: 4 }.into())
    );
    assert_eq!(
        decode_response_notification(&[0x41, 0x88, 0x0b, 0x01]),
        Err(NotificationTooShortError { expected: 139, actual: 4 }.into())
    );
    let mut response = piece_status_response();
    response[1] = 0x88;
    assert_eq!(
        decode_response_notification(&response),
        Err(DecodeResponseNotificationError::InvalidNotificationHeader {
            offset: 1,
            expected: 0x89,
            actual: 0x88,
        })
    );
}

#[test]
fn first_invalid_tracked_record_is_reported() {
    let mut response = piece_status_response();
    response[RESPONSE_HEADER_LENGTH + 9 * TRACKED_PIECE_BYTES + 3] = 200;
    response[RESPONSE_HEADER_LENGTH + 20 * TRACKED_PIECE_BYTES] = 13;
    assert_eq!(
        decode_response_notification(&response),
        Err(PieceStatusError::InvalidTrackedPieceBattery { index: 9, value: 200 }.into())
    );
    // Within one record the identity is checked before the battery.
    response[RESPONSE_HEADER_LENGTH + 9 * TRACKED_PIECE_BYTES] = 0;
    assert_eq!(
        decode_response_notification(&response),
        Err(PieceStatusError::InvalidTrackedPiece { index: 9, value: 0 }.into())
    );
}

#[test]
fn decodes_position_notification() {
    let mut notification = [0_u8; 34];
    notification[2] = 0x21;
    let position = decode_position_notification(&notification).unwrap();
    assert_eq!(
        position.piece_at(Square::new(File::H, Rank::Eight)),
        Some(Piece { color: Color::Black, kind: PieceKind::Queen })
    );
    assert_eq!(
        position.piece_at(Square::new(File::G, Rank::Eight)),
        Some(Piece { color: Color::Black, kind: PieceKind::King })
    );
    assert_eq!(position.piece_at(Square::new(File::A, Rank::One)), None);
}

#[test]
fn short_position_notification_is_rejected() {
    assert_eq!(
        decode_position_notification(&[0_u8; 29]),
        Err(DecodePositionNotificationError::NotificationTooShort(NotificationTooShortError {
            expected: 34,
            actual: 29,
        }))
    );
}

#[test]
fn invalid_position_square_is_reported_in_wire_order() {
    let mut notification = [0_u8; 34];
    // a1 (the last wire value) and h8 (the first) both carry unknown codes;
    // decoding reports h8, which comes first on the wire.
    notification[33] = 0xd0;
    notification[2] = 0x0e;
    assert_eq!(
        decode_position_notification(&notification),
        Err(DecodePositionNotificationError::InvalidPiece {
            square: Square::new(File::H, Rank::Eight),
            value: 0x0e,
        })
    );
    notification[2] = 0;
    assert_eq!(
        decode_position_notification(&notification),
        Err(DecodePositionNotificationError::InvalidPiece {
            square: Square::new(File::A, Rank::One),
            value: 0x0d,
        })
    );
}

#[test]
fn auto_move_target_decodes_back_to_itself() {
    let mut target = Position::new([None; SQUARE_COUNT]);
    let kinds = [
        PieceKind::Pawn,
        PieceKind::Knight,
        PieceKind::Bishop,
        PieceKind::Rook,
        PieceKind::Queen,
        PieceKind::King,
    ];
    for index in 0..SQUARE_COUNT {
        let color = if index % 2 == 0 { Color::White } else { Color::Black };
        if index % 5 != 0 {
            target.set_piece(
                Square::from_index(index).unwrap(),
                Some(Piece { color, kind: kinds[index % 6] }),
            );
        }
    }
    let command = Command::auto_move(target, AutoMoveMode::Normal);
    assert_eq!(decode_position_notification(command.bytes()), Ok(target));
}

#[test]
fn trailing_position_bytes_are_ignored() {
    let mut notification = [0_u8; 40];
    notification[2] = 0x21;
    notification[35] = 0xff;
    assert_eq!(
        decode_position_notification(&notification),
        decode_position_notification(&notification[..34])
    );
}

#[test]
fn decoded_percentages_stay_in_range() {
    assert_eq!(
        decode_response_notification(&[0x41, 0x03, 0x0c, 0x00, 100]),
        Ok(BoardEvent::BatteryStatus(BatteryStatus { charging: false, percentage: 100 }))
    );
    let mut response = piece_status_response();
    response[RESPONSE_HEADER_LENGTH + 3] = 254;
    assert_eq!(
        decode_response_notification(&response),
        Err(PieceStatusError::InvalidTrackedPieceBattery { index: 0, value: 254 }.into())
    );
}
