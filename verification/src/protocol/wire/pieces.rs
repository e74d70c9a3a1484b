//! The four-bit piece codes used in packed positions.

use vstd::prelude::*;

use crate::protocol::errors::DecodePositionNotificationError;
use crate::protocol::position::{Color, Piece, PieceKind};
use crate::protocol::square::Square;

verus! {

/// The Move protocol's four-bit code for the contents of one square.
pub open spec fn piece_code(piece: Option<Piece>) -> u8 {
    match piece {
        None => 0x0,
        Some(p) => match (p.color, p.kind) {
            (Color::Black, PieceKind::Queen) => 0x1,
            (Color::Black, PieceKind::King) => 0x2,
            (Color::Black, PieceKind::Bishop) => 0x3,
            (Color::Black, PieceKind::Pawn) => 0x4,
            (Color::Black, PieceKind::Knight) => 0x5,
            (Color::White, PieceKind::Rook) => 0x6,
            (Color::White, PieceKind::Pawn) => 0x7,
            (Color::Black, PieceKind::Rook) => 0x8,
            (Color::White, PieceKind::Bishop) => 0x9,
            (Color::White, PieceKind::Knight) => 0xa,
            (Color::White, PieceKind::Queen) => 0xb,
            (Color::White, PieceKind::King) => 0xc,
        },
    }
}

/// The square contents whose code is `code`, or `None` when no contents have that code.
pub open spec fn piece_for_code(code: u8) -> Option<Option<Piece>> {
    if exists|p: Option<Piece>| piece_code(p) == code {
        Some(choose|p: Option<Piece>| piece_code(p) == code)
    } else {
        None
    }
}

/// Distinct square contents have distinct codes, and every code is at most 12.
proof fn lemma_piece_code_injective()
    ensures
        forall|p: Option<Piece>, q: Option<Piece>| #[trigger] piece_code(p) == #[trigger] piece_code(q) ==> p == q,
        forall|p: Option<Piece>| #[trigger] piece_code(p) <= 12,
{
}

/// Decoding the code of any square contents gives those contents back, and
/// encoding the contents decoded from a valid code gives that code back.
pub proof fn lemma_piece_code_round_trip(piece: Option<Piece>, code: u8)
    ensures
        piece_for_code(piece_code(piece)) == Some(piece),
        piece_for_code(code) is Some <==> code <= 12,
        code <= 12 ==> piece_code(piece_for_code(code).unwrap()) == code,
{
    lemma_piece_code_injective();
    lemma_code_has_piece(code);
}

/// Every code up to 12 belongs to some square contents.
proof fn lemma_code_has_piece(code: u8)
    ensures
        code <= 12 ==> exists|p: Option<Piece>| piece_code(p) == code,
{
    let w = if code == 0 {
        None
    } else if code == 1 {
        Some(Piece { color: Color::Black, kind: PieceKind::Queen })
    } else if code == 2 {
        Some(Piece { color: Color::Black, kind: PieceKind::King })
    } else if code == 3 {
        Some(Piece { color: Color::Black, kind: PieceKind::Bishop })
    } else if code == 4 {
        Some(Piece { color: Color::Black, kind: PieceKind::Pawn })
    } else if code == 5 {
        Some(Piece { color: Color::Black, kind: PieceKind::Knight })
    } else if code == 6 {
        Some(Piece { color: Color::White, kind: PieceKind::Rook })
    } else if code == 7 {
        Some(Piece { color: Color::White, kind: PieceKind::Pawn })
    } else if code == 8 {
        Some(Piece { color: Color::Black, kind: PieceKind::Rook })
    } else if code == 9 {
        Some(Piece { color: Color::White, kind: PieceKind::Bishop })
    } else if code == 10 {
        Some(Piece { color: Color::White, kind: PieceKind::Knight })
    } else if code == 11 {
        Some(Piece { color: Color::White, kind: PieceKind::Queen })
    } else {
        Some(Piece { color: Color::White, kind: PieceKind::King })
    };
    if code <= 12 {
        assert(piece_code(w) == code);
    }
}

/// Encodes one optional piece as the Move protocol's four-bit piece code.
pub fn encode_piece(piece: Option<Piece>) -> (code: u8)
    ensures
        code == piece_code(piece),
        code <= 12,
{
    match piece {
        None => 0x0,
        Some(Piece { color: Color::Black, kind: PieceKind::Queen }) => 0x1,
        Some(Piece { color: Color::Black, kind: PieceKind::King }) => 0x2,
        Some(Piece { color: Color::Black, kind: PieceKind::Bishop }) => 0x3,
        Some(Piece { color: Color::Black, kind: PieceKind::Pawn }) => 0x4,
        Some(Piece { color: Color::Black, kind: PieceKind::Knight }) => 0x5,
        Some(Piece { color: Color::White, kind: PieceKind::Rook }) => 0x6,
        Some(Piece { color: Color::White, kind: PieceKind::Pawn }) => 0x7,
        Some(Piece { color: Color::Black, kind: PieceKind::Rook }) => 0x8,
        Some(Piece { color: Color::White, kind: PieceKind::Bishop }) => 0x9,
        Some(Piece { color: Color::White, kind: PieceKind::Knight }) => 0xa,
        Some(Piece { color: Color::White, kind: PieceKind::Queen }) => 0xb,
        Some(Piece { color: Color::White, kind: PieceKind::King }) => 0xc,
    }
}

/// Decodes one four-bit piece code and attaches its square to any error.
pub fn decode_piece(square: Square, value: u8) -> (r: Result<Option<Piece>, DecodePositionNotificationError>)
    ensures
        match piece_for_code(value) {
            Some(piece) => r == Ok::<Option<Piece>, DecodePositionNotificationError>(piece),
            None => r == Err::<Option<Piece>, DecodePositionNotificationError>(
                DecodePositionNotificationError::InvalidPiece { square, value },
            ),
        },
{
    proof {
        lemma_piece_code_round_trip(None, value);
    }
    let piece = match value {
        0x0 => None,
        0x1 => Some(Piece { color: Color::Black, kind: PieceKind::Queen }),
        0x2 => Some(Piece { color: Color::Black, kind: PieceKind::King }),
        0x3 => Some(Piece { color: Color::Black, kind: PieceKind::Bishop }),
        0x4 => Some(Piece { color: Color::Black, kind: PieceKind::Pawn }),
        0x5 => Some(Piece { color: Color::Black, kind: PieceKind::Knight }),
        0x6 => Some(Piece { color: Color::White, kind: PieceKind::Rook }),
        0x7 => Some(Piece { color: Color::White, kind: PieceKind::Pawn }),
        0x8 => Some(Piece { color: Color::Black, kind: PieceKind::Rook }),
        0x9 => Some(Piece { color: Color::White, kind: PieceKind::Bishop }),
        0xa => Some(Piece { color: Color::White, kind: PieceKind::Knight }),
        0xb => Some(Piece { color: Color::White, kind: PieceKind::Queen }),
        0xc => Some(Piece { color: Color::White, kind: PieceKind::King }),
        value => {
            return Err(DecodePositionNotificationError::InvalidPiece { square, value });
        },
    };
    proof {
        assert(piece_code(piece) == value);
        lemma_piece_code_round_trip(piece, value);
    }
    Ok(piece)
}

/// The four-bit square codes: 0 is an empty square; 1 through 5 are the black
/// queen, king, bishop, pawn and knight; 6 and 7 the white rook and pawn; 8 the
/// black rook; 9 through 12 the white bishop, knight, queen and king; 13
/// through 15 name nothing.
pub proof fn lemma_piece_codes(code: u8)
    ensures
        piece_for_code(0) == Some(None::<Piece>),
        piece_for_code(1) == Some(Some((Piece { color: Color::Black, kind: PieceKind::Queen }))),
        piece_for_code(2) == Some(Some((Piece { color: Color::Black, kind: PieceKind::King }))),
        piece_for_code(3) == Some(Some((Piece { color: Color::Black, kind: PieceKind::Bishop }))),
        piece_for_code(4) == Some(Some((Piece { color: Color::Black, kind: PieceKind::Pawn }))),
        piece_for_code(5) == Some(Some((Piece { color: Color::Black, kind: PieceKind::Knight }))),
        piece_for_code(6) == Some(Some((Piece { color: Color::White, kind: PieceKind::Rook }))),
        piece_for_code(7) == Some(Some((Piece { color: Color::White, kind: PieceKind::Pawn }))),
        piece_for_code(8) == Some(Some((Piece { color: Color::Black, kind: PieceKind::Rook }))),
        piece_for_code(9) == Some(Some((Piece { color: Color::White, kind: PieceKind::Bishop }))),
        piece_for_code(10) == Some(Some((Piece { color: Color::White, kind: PieceKind::Knight }))),
        piece_for_code(11) == Some(Some((Piece { color: Color::White, kind: PieceKind::Queen }))),
        piece_for_code(12) == Some(Some((Piece { color: Color::White, kind: PieceKind::King }))),
        code > 12 ==> piece_for_code(code) is None,
{
    lemma_piece_code_round_trip(None, code);
    lemma_piece_code_round_trip(Some((Piece { color: Color::Black, kind: PieceKind::Queen })), code);
    lemma_piece_code_round_trip(Some((Piece { color: Color::Black, kind: PieceKind::King })), code);
    lemma_piece_code_round_trip(Some((Piece { color: Color::Black, kind: PieceKind::Bishop })), code);
    lemma_piece_code_round_trip(Some((Piece { color: Color::Black, kind: PieceKind::Pawn })), code);
    lemma_piece_code_round_trip(Some((Piece { color: Color::Black, kind: PieceKind::Knight })), code);
    lemma_piece_code_round_trip(Some((Piece { color: Color::White, kind: PieceKind::Rook })), code);
    lemma_piece_code_round_trip(Some((Piece { color: Color::White, kind: PieceKind::Pawn })), code);
    lemma_piece_code_round_trip(Some((Piece { color: Color::Black, kind: PieceKind::Rook })), code);
    lemma_piece_code_round_trip(Some((Piece { color: Color::White, kind: PieceKind::Bishop })), code);
    lemma_piece_code_round_trip(Some((Piece { color: Color::White, kind: PieceKind::Knight })), code);
    lemma_piece_code_round_trip(Some((Piece { color: Color::White, kind: PieceKind::Queen })), code);
    lemma_piece_code_round_trip(Some((Piece { color: Color::White, kind: PieceKind::King })), code);
}

} // verus!
