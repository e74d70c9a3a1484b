//! Conversions between protocol values and packed wire bytes.
//!
//! The Move board reverses canonical square order and packs two four-bit
//! values into each byte.

mod pieces;
mod squares;

pub(crate) use squares::square_at_wire_index;

pub use pieces::{
    decode_piece, encode_piece, lemma_piece_code_round_trip, lemma_piece_codes, piece_code, piece_for_code,
};
pub use squares::{
    PACKED_SQUARE_BYTES, PackedSquares, lemma_pack_unpack, lemma_packed_byte_layout, lemma_unpack_pack,
    lemma_unpacked_square_layout, pack_nibbles, unpack_nibbles, wire_nibble,
};
