//! Two four-bit square values packed into each byte in Move wire order.

use vstd::prelude::*;

use crate::protocol::square::{SQUARE_COUNT, Square};

verus! {

/// Number of bytes holding the packed values of all 64 squares.
pub const PACKED_SQUARE_BYTES: usize = 32;

/// The packed bytes for 64 four-bit values given in canonical A1-to-H8 order.
///
/// The wire reverses square order: wire value `w` belongs to square `63 - w`,
/// and byte `b` carries wire values `2 * b` (low nibble) and `2 * b + 1`
/// (high nibble).
pub open spec fn pack_nibbles(values: Seq<u8>) -> Seq<u8> {
    Seq::new(32, |b: int| (values[63 - 2 * b] + 16 * values[62 - 2 * b]) as u8)
}

/// The four-bit value at wire offset `wire_index` of packed bytes.
pub open spec fn wire_nibble(bytes: Seq<u8>, wire_index: int) -> u8 {
    if wire_index % 2 == 0 {
        (bytes[wire_index / 2] % 16) as u8
    } else {
        (bytes[wire_index / 2] / 16) as u8
    }
}

/// The 64 four-bit values of packed bytes, in canonical A1-to-H8 order.
pub open spec fn unpack_nibbles(bytes: Seq<u8>) -> Seq<u8> {
    Seq::new(64, |i: int| wire_nibble(bytes, 63 - i))
}

/// Two four-bit square values packed into each byte in Move wire order.
///
/// This is how the Move packs its individual squares for messages regarding
/// board positions, like realtime updates and auto-moves.
#[derive(Clone, Copy, Debug, PartialEq, Eq, Hash, PartialOrd, Ord)]
pub struct PackedSquares([u8; PACKED_SQUARE_BYTES]);

impl View for PackedSquares {
    type V = Seq<u8>;

    closed spec fn view(&self) -> Seq<u8> {
        self.0@
    }
}

/// A low and a high nibble combine into one byte and split back into themselves.
proof fn lemma_nibble_pair(lo: u8, hi: u8)
    requires
        lo < 16,
        hi < 16,
    ensures
        lo + 16 * hi < 256,
        ((lo + 16 * hi) as u8) % 16 == lo,
        ((lo + 16 * hi) as u8) / 16 == hi,
{
}

/// A byte is its low nibble plus sixteen times its high nibble.
proof fn lemma_byte_split(byte: u8)
    ensures
        byte == byte % 16 + 16 * (byte / 16),
        byte % 16 < 16,
        byte / 16 < 16,
{
}

/// Unpacking packed values gives the values back.
pub proof fn lemma_pack_unpack(values: Seq<u8>)
    requires
        values.len() == SQUARE_COUNT,
        forall|i: int| 0 <= i < values.len() ==> values[i] <= 15,
    ensures
        unpack_nibbles(pack_nibbles(values)) == values,
{
    let packed = pack_nibbles(values);
    assert forall|i: int| 0 <= i < 64 implies #[trigger] unpack_nibbles(packed)[i] == values[i] by {
        let w = 63 - i;
        let b = w / 2;
        lemma_nibble_pair(values[63 - 2 * b], values[62 - 2 * b]);
    }
    assert(unpack_nibbles(packed) =~= values);
}

/// Packing unpacked bytes gives the bytes back.
pub proof fn lemma_unpack_pack(bytes: Seq<u8>)
    requires
        bytes.len() == PACKED_SQUARE_BYTES,
    ensures
        pack_nibbles(unpack_nibbles(bytes)) == bytes,
{
    let values = unpack_nibbles(bytes);
    assert forall|b: int| 0 <= b < 32 implies #[trigger] pack_nibbles(values)[b] == bytes[b] by {
        lemma_byte_split(bytes[b]);
        assert(values[63 - 2 * b] == wire_nibble(bytes, 2 * b));
        assert(values[62 - 2 * b] == wire_nibble(bytes, 2 * b + 1));
    }
    assert(pack_nibbles(values) =~= bytes);
}

impl PackedSquares {
    /// Packs canonical A1-to-H8 four-bit values into reversed Move wire order.
    ///
    /// The first wire value of each byte occupies the low nibble and the second
    /// occupies the high nibble. Every value must fit in a nibble.
    pub fn encode(values: &[u8; SQUARE_COUNT]) -> (packed: Self)
        requires
            forall|i: int| 0 <= i < SQUARE_COUNT ==> values@[i] <= 15,
        ensures
            packed@ == pack_nibbles(values@),
    {
        let mut bytes = [0u8; PACKED_SQUARE_BYTES];
        let mut byte_index: usize = 0;
        while byte_index < PACKED_SQUARE_BYTES
            invariant
                byte_index <= PACKED_SQUARE_BYTES,
                forall|i: int| 0 <= i < SQUARE_COUNT ==> values@[i] <= 15,
                bytes@.len() == PACKED_SQUARE_BYTES,
                forall|b: int| 0 <= b < byte_index ==> bytes@[b] == pack_nibbles(values@)[b],
            decreases PACKED_SQUARE_BYTES - byte_index,
        {
            let first_wire_index = byte_index * 2;
            let second_wire_index = first_wire_index + 1;
            let first = values[position_index(first_wire_index)];
            let second = values[position_index(second_wire_index)];
            let byte = first | (second << 4);
            assert(byte == (first + 16 * second) as u8) by (bit_vector)
                requires
                    first <= 15,
                    second <= 15,
                    byte == first | (second << 4),
            ;
            bytes[byte_index] = byte;
            byte_index += 1;
        }
        assert(bytes@ =~= pack_nibbles(values@));
        PackedSquares(bytes)
    }

    /// Unpacks the 64 four-bit values into canonical A1-to-H8 order.
    ///
    /// Entry `i` of the result is the value the wire carries for the square
    /// with canonical index `i`.
    pub fn decode(&self) -> (values: [u8; SQUARE_COUNT])
        ensures
            values@ == unpack_nibbles(self@),
            forall|i: int| 0 <= i < SQUARE_COUNT ==> values@[i] <= 15,
    {
        let mut squares = [0u8; SQUARE_COUNT];
        let mut byte_index: usize = 0;
        while byte_index < PACKED_SQUARE_BYTES
            invariant
                byte_index <= PACKED_SQUARE_BYTES,
                self@.len() == PACKED_SQUARE_BYTES,
                squares@.len() == SQUARE_COUNT,
                forall|w: int| 0 <= w < 2 * byte_index ==> squares@[63 - w] == wire_nibble(self@, w),
                forall|i: int| 0 <= i < SQUARE_COUNT ==> squares@[i] <= 15,
            decreases PACKED_SQUARE_BYTES - byte_index,
        {
            let byte = self.0[byte_index];
            let first_wire_index = byte_index * 2;
            let second_wire_index = first_wire_index + 1;
            let first_square = square_at_wire_index(first_wire_index);
            let second_square = square_at_wire_index(second_wire_index);
            let low = byte & 0x0f;
            let high = byte >> 4;
            assert(low == byte % 16 && high == byte / 16) by (bit_vector)
                requires
                    low == byte & 0x0f,
                    high == byte >> 4,
            ;
            squares[first_square.index()] = low;
            squares[second_square.index()] = high;
            byte_index += 1;
        }
        assert(squares@ =~= unpack_nibbles(self@));
        squares
    }

    /// Wraps an already validated fixed-size packed payload.
    pub fn from_bytes(bytes: [u8; PACKED_SQUARE_BYTES]) -> (packed: Self)
        ensures
            packed@ == bytes@,
    {
        PackedSquares(bytes)
    }

    /// Returns the packed payload in Move wire order.
    pub fn into_bytes(self) -> (bytes: [u8; PACKED_SQUARE_BYTES])
        ensures
            bytes@ == self@,
    {
        self.0
    }
}

/// Converts a Move wire offset into a canonical A1-to-H8 array index.
fn position_index(wire_index: usize) -> (index: usize)
    requires
        wire_index < SQUARE_COUNT,
    ensures
        index == SQUARE_COUNT - 1 - wire_index,
{
    SQUARE_COUNT - 1 - wire_index
}

/// Returns the canonical square associated with a Move wire offset.
pub(crate) fn square_at_wire_index(wire_index: usize) -> (square: Square)
    requires
        wire_index < SQUARE_COUNT,
    ensures
        square@ == SQUARE_COUNT - 1 - wire_index,
{
    Square::at(position_index(wire_index))
}

/// Byte `b` of a packing holds the values of squares `63 - 2b` (the first wire
/// value) in its low nibble and `62 - 2b` (the second) in its high nibble.
pub proof fn lemma_packed_byte_layout(values: Seq<u8>, b: int)
    requires
        values.len() == SQUARE_COUNT,
        forall|i: int| 0 <= i < values.len() ==> values[i] <= 15,
        0 <= b < 32,
    ensures
        pack_nibbles(values).len() == 32,
        pack_nibbles(values)[b] % 16 == values[63 - 2 * b],
        pack_nibbles(values)[b] / 16 == values[62 - 2 * b],
{
    lemma_nibble_pair(values[63 - 2 * b], values[62 - 2 * b]);
}

/// Unpacking reads square `63 - 2b` from the low nibble of byte `b` and square
/// `62 - 2b` from its high nibble.
pub proof fn lemma_unpacked_square_layout(bytes: Seq<u8>, b: int)
    requires
        bytes.len() == PACKED_SQUARE_BYTES,
        0 <= b < 32,
    ensures
        unpack_nibbles(bytes).len() == SQUARE_COUNT,
        unpack_nibbles(bytes)[63 - 2 * b] == bytes[b] % 16,
        unpack_nibbles(bytes)[62 - 2 * b] == bytes[b] / 16,
{
    assert(unpack_nibbles(bytes)[63 - 2 * b] == wire_nibble(bytes, 2 * b));
    assert(unpack_nibbles(bytes)[62 - 2 * b] == wire_nibble(bytes, 2 * b + 1));
}

} // verus!
