//! Square-addressed LED patterns and their wire encoding.

use vstd::prelude::*;

use crate::protocol::position::BOARD_STATE_LENGTH;
use crate::protocol::square::{SQUARE_COUNT, Square};
use crate::protocol::wire::{PackedSquares, pack_nibbles};

verus! {

/// A color supported by a Chessnut Move square LED.
#[derive(Clone, Copy, Debug, Default, PartialEq, Eq, Structural, Hash)]
pub enum LedColor {
    /// Turns the square LED off.
    #[default]
    Off,
    /// Illuminates the square in red.
    Red,
    /// Illuminates the square in green.
    Green,
    /// Illuminates the square in blue.
    Blue,
}

/// The four-bit value of a color in packed LED commands.
pub open spec fn led_code(color: LedColor) -> u8 {
    match color {
        LedColor::Off => 0,
        LedColor::Red => 1,
        LedColor::Green => 2,
        LedColor::Blue => 3,
    }
}

/// The packed LED payload of a pattern given by its 64 colors in canonical order.
pub open spec fn led_payload(colors: Seq<LedColor>) -> Seq<u8> {
    pack_nibbles(colors.map_values(|color: LedColor| led_code(color)))
}

impl LedColor {
    /// Returns the four-bit value used in packed LED commands.
    fn encoded(self) -> (code: u8)
        ensures
            code == led_code(self),
    {
        match self {
            LedColor::Off => 0,
            LedColor::Red => 1,
            LedColor::Green => 2,
            LedColor::Blue => 3,
        }
    }
}

/// LED colors for all 64 squares in canonical A1-to-H8 order.
///
/// The view of a pattern is the sequence of its 64 colors in that order.
#[derive(Clone, Copy, Debug, PartialEq, Eq, Hash)]
pub struct LedPattern {
    squares: [LedColor; SQUARE_COUNT],
}

impl View for LedPattern {
    type V = Seq<LedColor>;

    closed spec fn view(&self) -> Seq<LedColor> {
        self.squares@
    }
}

impl LedPattern {
    /// Creates a pattern from colors in canonical A1-to-H8 order.
    ///
    /// Index zero controls A1 and index 63 controls H8.
    pub fn new(squares: [LedColor; SQUARE_COUNT]) -> (pattern: Self)
        ensures
            pattern@ == squares@,
    {
        LedPattern { squares }
    }

    /// Creates a pattern with the same color on every square.
    pub fn all(color: LedColor) -> (pattern: Self)
        ensures
            pattern@ == Seq::new(SQUARE_COUNT as nat, |i: int| color),
    {
        let squares = [color; SQUARE_COUNT];
        assert(squares@ =~= Seq::new(SQUARE_COUNT as nat, |i: int| color));
        LedPattern { squares }
    }

    /// Every pattern holds exactly one color per square.
    pub proof fn lemma_len(self)
        ensures
            self@.len() == SQUARE_COUNT,
    {
    }

    /// Returns the selected color for a square.
    pub fn color_at(&self, square: Square) -> (color: LedColor)
        ensures
            color == self@[square@ as int],
    {
        self.squares[square.index()]
    }

    /// Replaces the selected color for one square.
    pub fn set_color(&mut self, square: Square, color: LedColor)
        ensures
            final(self)@ == old(self)@.update(square@ as int, color),
    {
        let index = square.index();
        self.squares[index] = color;
    }

    /// Packs the pattern into the 32 payload bytes of an LED command.
    pub(crate) fn encode(&self) -> (bytes: [u8; BOARD_STATE_LENGTH])
        ensures
            bytes@ == led_payload(self@),
    {
        let mut codes = [0u8; SQUARE_COUNT];
        let mut index: usize = 0;
        while index < SQUARE_COUNT
            invariant
                index <= SQUARE_COUNT,
                codes@.len() == SQUARE_COUNT,
                self.squares@.len() == SQUARE_COUNT,
                forall|i: int| 0 <= i < index ==> codes@[i] == led_code(self.squares@[i]),
                forall|i: int| 0 <= i < SQUARE_COUNT ==> codes@[i] <= 3,
            decreases SQUARE_COUNT - index,
        {
            codes[index] = self.squares[index].encoded();
            index += 1;
        }
        assert(codes@ =~= self@.map_values(|color: LedColor| led_code(color)));
        PackedSquares::encode(&codes).into_bytes()
    }
}

/// Reading a square's color right after setting it gives back the color set,
/// and every other square keeps its color.
pub proof fn lemma_led_set_then_read(before: LedPattern, after: LedPattern, square: Square, color: LedColor, other: Square)
    requires
        after@ == before@.update(square@ as int, color),
        square@ < SQUARE_COUNT,
        other@ < SQUARE_COUNT,
    ensures
        after@[square@ as int] == color,
        other@ != square@ ==> after@[other@ as int] == before@[other@ as int],
{
    before.lemma_len();
}

impl Default for LedPattern {
    /// A pattern with every square turned off.
    fn default() -> (pattern: Self)
        ensures
            pattern@ == Seq::new(SQUARE_COUNT as nat, |i: int| LedColor::Off),
    {
        LedPattern::all(LedColor::Off)
    }
}

/// The four-bit LED color codes: off is 0, red 1, green 2 and blue 3. In an
/// LED payload, byte `b` carries the color of square `63 - 2b` in its low
/// nibble and that of square `62 - 2b` in its high nibble.
pub proof fn lemma_led_codes(colors: Seq<LedColor>, b: int)
    requires
        colors.len() == SQUARE_COUNT,
        0 <= b < 32,
    ensures
        led_code(LedColor::Off) == 0,
        led_code(LedColor::Red) == 1,
        led_code(LedColor::Green) == 2,
        led_code(LedColor::Blue) == 3,
        led_payload(colors).len() == 32,
        led_payload(colors)[b] % 16 == led_code(colors[63 - 2 * b]),
        led_payload(colors)[b] / 16 == led_code(colors[62 - 2 * b]),
{
    let codes = colors.map_values(|color: LedColor| led_code(color));
    assert forall|i: int| 0 <= i < codes.len() implies codes[i] <= 15 by {}
    crate::protocol::wire::lemma_packed_byte_layout(codes, b);
}

} // verus!
