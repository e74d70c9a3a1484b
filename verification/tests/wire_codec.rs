use chessnut_move::protocol::wire::{PackedSquares, decode_piece, encode_piece};
use chessnut_move::protocol::{
    Color, DecodePositionNotificationError, File, Piece, PieceKind, Rank, SQUARE_COUNT, Square,
};

const PIECE_CODES: [(u8, Option<Piece>); 13] = [
    (0x0, None),
    (0x1, Some(Piece { color: Color::Black, kind: PieceKind::Queen })),
    (0x2, Some(Piece { color: Color::Black, kind: PieceKind::King })),
    (0x3, Some(Piece { color: Color::Black, kind: PieceKind::Bishop })),
    (0x4, Some(Piece { color: Color::Black, kind: PieceKind::Pawn })),
    (0x5, Some(Piece { color: Color::Black, kind: PieceKind::Knight })),
    (0x6, Some(Piece { color: Color::White, kind: PieceKind::Rook })),
    (0x7, Some(Piece { color: Color::White, kind: PieceKind::Pawn })),
    (0x8, Some(Piece { color: Color::Black, kind: PieceKind::Rook })),
    (0x9, Some(Piece { color: Color::White, kind: PieceKind::Bishop })),
    (0xa, Some(Piece { color: Color::White, kind: PieceKind::Knight })),
    (0xb, Some(Piece { color: Color::White, kind: PieceKind::Queen })),
    (0xc, Some(Piece { color: Color::White, kind: PieceKind::King })),
];

#[test]
fn encodes_and_decodes_every_piece_code() {
    let square = Square::new(File::E, Rank::Four);

    for (code, piece) in PIECE_CODES {
        assert_eq!(encode_piece(piece), code);
        assert_eq!(decode_piece(square, code), Ok(piece));
    }
}

#[test]
fn rejects_unknown_piece_codes_with_the_square() {
    let square = Square::new(File::B, Rank::Seven);

    for value in 0xd..=u8::MAX {
        assert_eq!(
            decode_piece(square, value),
            Err(DecodePositionNotificationError::InvalidPiece { square, value })
        );
    }
}

#[test]
fn packing_uses_chessnut_square_and_nibble_order() {
    let mut squares = [0; SQUARE_COUNT];
    squares[63] = 1;
    squares[62] = 2;
    squares[0] = 3;

    let packed = PackedSquares::encode(&squares);
    let bytes = packed.into_bytes();

    assert_eq!(bytes[0], 0x21);
    assert!(bytes[1..31].iter().all(|byte| *byte == 0));
    assert_eq!(bytes[31], 0x30);
}

#[test]
fn packed_squares_round_trip() {
    let squares: [u8; SQUARE_COUNT] = core::array::from_fn(|index| (index % 13) as u8);
    let packed = PackedSquares::encode(&squares);

    let decoded = packed.decode();

    assert_eq!(decoded, squares);
}

#[test]
fn unpacking_and_repacking_gives_the_bytes_back() {
    let bytes: [u8; 32] = core::array::from_fn(|index| (index * 37 + 11) as u8);
    let values = PackedSquares::from_bytes(bytes).decode();
    assert!(values.iter().all(|value| *value <= 15));
    assert_eq!(PackedSquares::encode(&values).into_bytes(), bytes);
    // Byte 0 carries h8 in its low nibble and g8 in its high nibble.
    assert_eq!(values[63], bytes[0] & 0x0f);
    assert_eq!(values[62], bytes[0] >> 4);
}
