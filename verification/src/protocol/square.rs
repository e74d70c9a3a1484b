//! Canonical A1-to-H8 square coordinates and notation parsing.

use vstd::prelude::*;
use vstd::string::{StringExecFns, StringSliceAdditionalSpecFns};

verus! {

/// Number of files (and of ranks) on a chessboard.
const BOARD_WIDTH: u8 = 8;

/// Number of squares on a chessboard.
pub const SQUARE_COUNT: usize = 64;

/// A chessboard file from A through H.
#[derive(Clone, Copy, Debug, PartialEq, Eq, Structural, Hash, PartialOrd, Ord)]
pub enum File {
    /// A-file.
    A,
    /// B-file.
    B,
    /// C-file.
    C,
    /// D-file.
    D,
    /// E-file.
    E,
    /// F-file.
    F,
    /// G-file.
    G,
    /// H-file.
    H,
}

/// The file with the given zero-based index (indexes past 7 give the H-file).
pub open spec fn file_at(i: int) -> File {
    if i == 0 {
        File::A
    } else if i == 1 {
        File::B
    } else if i == 2 {
        File::C
    } else if i == 3 {
        File::D
    } else if i == 4 {
        File::E
    } else if i == 5 {
        File::F
    } else if i == 6 {
        File::G
    } else {
        File::H
    }
}

/// The file named by one ASCII letter, in either case.
pub open spec fn file_from_ascii(byte: u8) -> Option<File> {
    if 0x61 <= byte <= 0x68 {
        // 'a' through 'h'
        Some(file_at(byte - 0x61))
    } else if 0x41 <= byte <= 0x48 {
        // 'A' through 'H'
        Some(file_at(byte - 0x41))
    } else {
        None
    }
}

/// The lower-case letter of a file: `a` through `h`.
pub open spec fn file_letter(file: File) -> char {
    (0x61 + file.ordinal()) as char
}

impl File {
    /// Zero-based position of the file, A being 0 and H being 7.
    pub open spec fn ordinal(self) -> nat {
        match self {
            File::A => 0,
            File::B => 1,
            File::C => 2,
            File::D => 3,
            File::E => 4,
            File::F => 5,
            File::G => 6,
            File::H => 7,
        }
    }

    /// Returns the zero-based file index from A through H.
    pub fn index(self) -> (i: u8)
        ensures
            i == self.ordinal(),
            i < 8,
    {
        match self {
            File::A => 0,
            File::B => 1,
            File::C => 2,
            File::D => 3,
            File::E => 4,
            File::F => 5,
            File::G => 6,
            File::H => 7,
        }
    }

    /// Returns the file's lower-case letter as written in square notation.
    pub fn notation(self) -> (text: &'static str)
        ensures
            text@ == seq![file_letter(self)],
    {
        proof {
            reveal_strlit("a");
            reveal_strlit("b");
            reveal_strlit("c");
            reveal_strlit("d");
            reveal_strlit("e");
            reveal_strlit("f");
            reveal_strlit("g");
            reveal_strlit("h");
        }
        match self {
            File::A => "a",
            File::B => "b",
            File::C => "c",
            File::D => "d",
            File::E => "e",
            File::F => "f",
            File::G => "g",
            File::H => "h",
        }
    }

    /// Reads a file letter, accepting lower and upper case.
    fn from_ascii(byte: u8) -> (r: Option<Self>)
        ensures
            r == file_from_ascii(byte),
    {
        match byte {
            0x61 | 0x41 => Some(File::A),
            0x62 | 0x42 => Some(File::B),
            0x63 | 0x43 => Some(File::C),
            0x64 | 0x44 => Some(File::D),
            0x65 | 0x45 => Some(File::E),
            0x66 | 0x46 => Some(File::F),
            0x67 | 0x47 => Some(File::G),
            0x68 | 0x48 => Some(File::H),
            _ => None,
        }
    }
}

/// A chessboard rank from one through eight.
#[derive(Clone, Copy, Debug, PartialEq, Eq, Structural, Hash, PartialOrd, Ord)]
pub enum Rank {
    /// First rank.
    One,
    /// Second rank.
    Two,
    /// Third rank.
    Three,
    /// Fourth rank.
    Four,
    /// Fifth rank.
    Five,
    /// Sixth rank.
    Six,
    /// Seventh rank.
    Seven,
    /// Eighth rank.
    Eight,
}

/// The rank with the given zero-based index (indexes past 7 give the eighth rank).
pub open spec fn rank_at(i: int) -> Rank {
    if i == 0 {
        Rank::One
    } else if i == 1 {
        Rank::Two
    } else if i == 2 {
        Rank::Three
    } else if i == 3 {
        Rank::Four
    } else if i == 4 {
        Rank::Five
    } else if i == 5 {
        Rank::Six
    } else if i == 6 {
        Rank::Seven
    } else {
        Rank::Eight
    }
}

/// The rank named by one ASCII digit from `1` through `8`.
pub open spec fn rank_from_ascii(byte: u8) -> Option<Rank> {
    if 0x31 <= byte <= 0x38 {
        // '1' through '8'
        Some(rank_at(byte - 0x31))
    } else {
        None
    }
}

/// The digit of a rank: `1` through `8`.
pub open spec fn rank_digit(rank: Rank) -> char {
    (0x31 + rank.ordinal()) as char
}

impl Rank {
    /// Zero-based position of the rank, the first rank being 0.
    pub open spec fn ordinal(self) -> nat {
        match self {
            Rank::One => 0,
            Rank::Two => 1,
            Rank::Three => 2,
            Rank::Four => 3,
            Rank::Five => 4,
            Rank::Six => 5,
            Rank::Seven => 6,
            Rank::Eight => 7,
        }
    }

    /// Returns the zero-based rank index from one through eight.
    pub fn index(self) -> (i: u8)
        ensures
            i == self.ordinal(),
            i < 8,
    {
        match self {
            Rank::One => 0,
            Rank::Two => 1,
            Rank::Three => 2,
            Rank::Four => 3,
            Rank::Five => 4,
            Rank::Six => 5,
            Rank::Seven => 6,
            Rank::Eight => 7,
        }
    }

    /// Returns the rank's digit as written in square notation.
    pub fn notation(self) -> (text: &'static str)
        ensures
            text@ == seq![rank_digit(self)],
    {
        proof {
            reveal_strlit("1");
            reveal_strlit("2");
            reveal_strlit("3");
            reveal_strlit("4");
            reveal_strlit("5");
            reveal_strlit("6");
            reveal_strlit("7");
            reveal_strlit("8");
        }
        match self {
            Rank::One => "1",
            Rank::Two => "2",
            Rank::Three => "3",
            Rank::Four => "4",
            Rank::Five => "5",
            Rank::Six => "6",
            Rank::Seven => "7",
            Rank::Eight => "8",
        }
    }

    /// Reads a rank digit.
    fn from_ascii(byte: u8) -> (r: Option<Self>)
        ensures
            r == rank_from_ascii(byte),
    {
        match byte {
            0x31 => Some(Rank::One),
            0x32 => Some(Rank::Two),
            0x33 => Some(Rank::Three),
            0x34 => Some(Rank::Four),
            0x35 => Some(Rank::Five),
            0x36 => Some(Rank::Six),
            0x37 => Some(Rank::Seven),
            0x38 => Some(Rank::Eight),
            _ => None,
        }
    }
}

/// A chessboard square stored in canonical A1-to-H8 order.
///
/// The view of a square is its canonical index: A1 is 0, B1 is 1 and H8 is 63.
#[derive(Clone, Copy, Debug, PartialEq, Eq, Structural, Hash, PartialOrd, Ord)]
pub struct Square(u8);

impl View for Square {
    type V = nat;

    closed spec fn view(&self) -> nat {
        self.0 as nat
    }
}

/// The square whose canonical index is `file + 8 * rank`.
pub open spec fn square_index(file: File, rank: Rank) -> nat {
    rank.ordinal() * 8 + file.ordinal()
}

/// Result of parsing square notation given as its UTF-8 bytes.
pub open spec fn parse_square_bytes(bytes: Seq<u8>) -> Option<(File, Rank)> {
    if bytes.len() == 2 && file_from_ascii(bytes[0]) is Some && rank_from_ascii(bytes[1]) is Some {
        Some((file_from_ascii(bytes[0]).unwrap(), rank_from_ascii(bytes[1]).unwrap()))
    } else {
        None
    }
}

impl Square {
    #[verifier::type_invariant]
    spec fn on_board(self) -> bool {
        self.0 < 64
    }

    /// The square with canonical index `index`, for indexes below 64.
    pub closed spec fn with_index(index: nat) -> Square {
        Square(index as u8)
    }

    /// [`Square::with_index`] gives the square with that index, and a square is
    /// determined by its index.
    pub proof fn lemma_with_index(index: nat, square: Square)
        ensures
            index < 64 ==> Square::with_index(index)@ == index,
            square@ == index ==> square == Square::with_index(index),
    {
    }

    /// Creates a square from its file and rank.
    pub fn new(file: File, rank: Rank) -> (s: Self)
        ensures
            s@ == square_index(file, rank),
    {
        Square(rank.index() * BOARD_WIDTH + file.index())
    }

    /// Creates a square from a canonical zero-based index.
    ///
    /// Returns `None` when `index` is not less than [`SQUARE_COUNT`].
    pub fn from_index(index: usize) -> (r: Option<Self>)
        ensures
            r is Some <==> index < SQUARE_COUNT,
            r matches Some(s) ==> s@ == index,
    {
        if index < SQUARE_COUNT {
            Some(Square(index as u8))
        } else {
            None
        }
    }

    /// The square with a canonical index already known to be on the board.
    pub(crate) fn at(index: usize) -> (s: Self)
        requires
            index < SQUARE_COUNT,
        ensures
            s@ == index,
    {
        Square(index as u8)
    }

    /// Returns the canonical zero-based A1-to-H8 index.
    pub fn index(self) -> (i: usize)
        ensures
            i == self@,
            i < SQUARE_COUNT,
    {
        proof {
            use_type_invariant(&self);
        }
        self.0 as usize
    }

    /// Returns the square's file.
    pub fn file(self) -> (f: File)
        ensures
            f.ordinal() == self@ % 8,
            f == file_at((self@ % 8) as int),
    {
        match self.0 % BOARD_WIDTH {
            0 => File::A,
            1 => File::B,
            2 => File::C,
            3 => File::D,
            4 => File::E,
            5 => File::F,
            6 => File::G,
            _ => File::H,
        }
    }

    /// Returns the square's rank.
    pub fn rank(self) -> (r: Rank)
        ensures
            r.ordinal() == self@ / 8,
            r == rank_at((self@ / 8) as int),
    {
        proof {
            use_type_invariant(&self);
        }
        match self.0 / BOARD_WIDTH {
            0 => Rank::One,
            1 => Rank::Two,
            2 => Rank::Three,
            3 => Rank::Four,
            4 => Rank::Five,
            5 => Rank::Six,
            6 => Rank::Seven,
            _ => Rank::Eight,
        }
    }

    /// Returns the square in algebraic notation, such as `e4`: the file's
    /// letter followed by the rank's digit.
    pub fn notation(self) -> (text: String)
        ensures
            text@ == seq![file_letter(file_at((self@ % 8) as int)), rank_digit(rank_at((self@ / 8) as int))],
    {
        let mut text = String::from_str(self.file().notation());
        text.append(self.rank().notation());
        text
    }

    /// Parses algebraic square notation such as `e4` or `H8`.
    ///
    /// The text must be exactly one file letter (in either case) followed by one
    /// rank digit.
    pub fn parse_notation(value: &str) -> (r: Result<Self, ParseSquareError>)
        ensures
            match parse_square_bytes(value.spec_bytes()) {
                Some((file, rank)) => r matches Ok(s) && s@ == square_index(file, rank),
                None => r == Err::<Self, ParseSquareError>(ParseSquareError),
            },
    {
        let bytes = value.as_bytes();
        if bytes.len() != 2 {
            return Err(ParseSquareError);
        }
        let file = match File::from_ascii(bytes[0]) {
            Some(file) => file,
            None => return Err(ParseSquareError),
        };
        let rank = match Rank::from_ascii(bytes[1]) {
            Some(rank) => rank,
            None => return Err(ParseSquareError),
        };
        Ok(Square::new(file, rank))
    }
}

impl core::str::FromStr for Square {
    type Err = ParseSquareError;

    fn from_str(value: &str) -> (r: Result<Self, Self::Err>)
        ensures
            match parse_square_bytes(value.spec_bytes()) {
                Some((file, rank)) => r matches Ok(s) && s@ == square_index(file, rank),
                None => r == Err::<Self, ParseSquareError>(ParseSquareError),
            },
    {
        Square::parse_notation(value)
    }
}

impl From<Square> for usize {
    fn from(square: Square) -> (index: usize) {
        square.index()
    }
}

impl vstd::std_specs::convert::FromSpecImpl<Square> for usize {
    open spec fn obeys_from_spec() -> bool {
        true
    }

    open spec fn from_spec(square: Square) -> usize {
        square@ as usize
    }
}

/// Reports that a string is not exactly one valid file and one valid rank.
#[derive(Clone, Copy, Debug, PartialEq, Eq, Structural)]
pub struct ParseSquareError;

/// File letters are read case-insensitively: an upper-case letter names the
/// same file as its lower-case form (32 positions later in ASCII).
pub proof fn lemma_file_letters_case_insensitive(upper: u8)
    requires
        0x41 <= upper <= 0x48,
    ensures
        file_from_ascii(upper) == file_from_ascii((upper + 32) as u8),
        file_from_ascii(upper) is Some,
{
}

/// Writing a square in notation and parsing the notation gives the square
/// back: the ASCII bytes of a file letter and a rank digit parse to that file
/// and rank.
pub proof fn lemma_notation_round_trip(file: File, rank: Rank)
    ensures
        parse_square_bytes(seq![file_letter(file) as u8, rank_digit(rank) as u8]) == Some((file, rank)),
{
}

/// Placing a file and a rank on a square and reading them back gives the same file and rank.
pub proof fn lemma_square_coordinates_round_trip(file: File, rank: Rank)
    ensures
        square_index(file, rank) < 64,
        file_at((square_index(file, rank) % 8) as int) == file,
        rank_at((square_index(file, rank) / 8) as int) == rank,
{
}

/// Ranks are numbered in board order: rank `n` has ordinal `n - 1`, is written
/// as the digit `n`, and that digit reads back as rank `n`.
pub proof fn lemma_rank_numbers()
    ensures
        Rank::One.ordinal() == 0 && rank_digit(Rank::One) == '1' && rank_from_ascii(0x31) == Some(Rank::One) && rank_at(0) == Rank::One,
        Rank::Two.ordinal() == 1 && rank_digit(Rank::Two) == '2' && rank_from_ascii(0x32) == Some(Rank::Two) && rank_at(1) == Rank::Two,
        Rank::Three.ordinal() == 2 && rank_digit(Rank::Three) == '3' && rank_from_ascii(0x33) == Some(Rank::Three) && rank_at(2) == Rank::Three,
        Rank::Four.ordinal() == 3 && rank_digit(Rank::Four) == '4' && rank_from_ascii(0x34) == Some(Rank::Four) && rank_at(3) == Rank::Four,
        Rank::Five.ordinal() == 4 && rank_digit(Rank::Five) == '5' && rank_from_ascii(0x35) == Some(Rank::Five) && rank_at(4) == Rank::Five,
        Rank::Six.ordinal() == 5 && rank_digit(Rank::Six) == '6' && rank_from_ascii(0x36) == Some(Rank::Six) && rank_at(5) == Rank::Six,
        Rank::Seven.ordinal() == 6 && rank_digit(Rank::Seven) == '7' && rank_from_ascii(0x37) == Some(Rank::Seven) && rank_at(6) == Rank::Seven,
        Rank::Eight.ordinal() == 7 && rank_digit(Rank::Eight) == '8' && rank_from_ascii(0x38) == Some(Rank::Eight) && rank_at(7) == Rank::Eight,
{
}

/// Files are lettered in board order: the A-file has ordinal 0 and letter `a`,
/// through the H-file with ordinal 7 and letter `h`; each letter, in either
/// case, reads back as its file.
pub proof fn lemma_file_letters()
    ensures
        File::A.ordinal() == 0 && file_letter(File::A) == 'a' && file_from_ascii(0x61) == Some(File::A) && file_from_ascii(0x41) == Some(File::A) && file_at(0) == File::A,
        File::B.ordinal() == 1 && file_letter(File::B) == 'b' && file_from_ascii(0x62) == Some(File::B) && file_from_ascii(0x42) == Some(File::B) && file_at(1) == File::B,
        File::C.ordinal() == 2 && file_letter(File::C) == 'c' && file_from_ascii(0x63) == Some(File::C) && file_from_ascii(0x43) == Some(File::C) && file_at(2) == File::C,
        File::D.ordinal() == 3 && file_letter(File::D) == 'd' && file_from_ascii(0x64) == Some(File::D) && file_from_ascii(0x44) == Some(File::D) && file_at(3) == File::D,
        File::E.ordinal() == 4 && file_letter(File::E) == 'e' && file_from_ascii(0x65) == Some(File::E) && file_from_ascii(0x45) == Some(File::E) && file_at(4) == File::E,
        File::F.ordinal() == 5 && file_letter(File::F) == 'f' && file_from_ascii(0x66) == Some(File::F) && file_from_ascii(0x46) == Some(File::F) && file_at(5) == File::F,
        File::G.ordinal() == 6 && file_letter(File::G) == 'g' && file_from_ascii(0x67) == Some(File::G) && file_from_ascii(0x47) == Some(File::G) && file_at(6) == File::G,
        File::H.ordinal() == 7 && file_letter(File::H) == 'h' && file_from_ascii(0x68) == Some(File::H) && file_from_ascii(0x48) == Some(File::H) && file_at(7) == File::H,
{
}

/// A square's index counts ranks first: the square on file `f` and rank `r`
/// has index `8 * r + f` in their zero-based ordinals, so that A1 is 0, H1 is
/// 7, A2 is 8 and H8 is 63.
pub proof fn lemma_square_index_layout(file: File, rank: Rank)
    ensures
        square_index(file, rank) == 8 * rank.ordinal() + file.ordinal(),
        square_index(File::A, Rank::One) == 0,
        square_index(File::H, Rank::One) == 7,
        square_index(File::A, Rank::Two) == 8,
        square_index(File::E, Rank::Two) == 12,
        square_index(File::H, Rank::Eight) == 63,
{
}

} // verus!
