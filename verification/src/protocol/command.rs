//! Typed construction of every command currently defined by the Move API.

use vstd::prelude::*;

use crate::protocol::led::{LedPattern, led_payload};
use crate::protocol::position::{BOARD_STATE_LENGTH, Piece, Position};
use crate::protocol::square::SQUARE_COUNT;
use crate::protocol::wire::{PackedSquares, encode_piece, pack_nibbles, piece_code};

verus! {

/// Length of an auto-move command: two prefix bytes, the packed target and the mode flag.
const AUTO_MOVE_COMMAND_LENGTH: usize = 35;

/// Length of an LED command: two prefix bytes and the packed colors.
const SET_LED_COMMAND_LENGTH: usize = 34;

/// Maximum number of bytes in a command, defined by the Move's public API surface.
///
/// Transport implementations can use this value when allocating fixed command
/// buffers. It is the larger of the auto-move and LED command lengths.
pub const MAX_COMMAND_LEN: usize = 35;

/// An encoded command ready to write to the board's command characteristic.
///
/// The view of a command is the byte sequence written to the board.
#[derive(Debug, PartialEq, Eq)]
pub struct Command {
    bytes: [u8; MAX_COMMAND_LEN],
    len: u8,
    write_kind: WriteKind,
}

/// Selects the GATT write operation required by a [`Command`].
#[derive(Clone, Copy, Debug, PartialEq, Eq, Structural, Hash)]
pub enum WriteKind {
    /// Requests a GATT-level response from the peripheral.
    WithResponse,
    /// Submits the value without requesting a GATT-level response.
    WithoutResponse,
}

/// Selects how an automatic movement reacts to user interaction.
#[derive(Debug, Clone, Copy, PartialEq, Eq, Structural)]
pub enum AutoMoveMode {
    /// Continues toward the target position despite user piece movement.
    Force,
    /// Stops automatic movement when the user moves a piece.
    Normal,
}

/// The byte used for a mode in an auto-move command.
pub open spec fn auto_move_flag(mode: AutoMoveMode) -> u8 {
    match mode {
        AutoMoveMode::Force => 0x00,
        AutoMoveMode::Normal => 0x01,
    }
}

/// The four-bit codes of a position's squares, in canonical order.
pub open spec fn position_codes(squares: Seq<Option<Piece>>) -> Seq<u8> {
    squares.map_values(|piece: Option<Piece>| piece_code(piece))
}

/// The bytes of an auto-move command towards a target given by its 64 squares.
pub open spec fn auto_move_bytes(target: Seq<Option<Piece>>, mode: AutoMoveMode) -> Seq<u8> {
    seq![0x42u8, 0x21u8] + pack_nibbles(position_codes(target)) + seq![auto_move_flag(mode)]
}

/// The bytes of the command that stops an automatic movement.
pub open spec fn stop_auto_move_bytes() -> Seq<u8> {
    seq![0x42u8, 0x21u8] + Seq::new(33, |i: int| 0u8)
}

/// The bytes of the command that enables realtime position notifications.
pub open spec fn enable_realtime_updates_bytes() -> Seq<u8> {
    seq![0x21u8, 0x01u8, 0x00u8]
}

/// The bytes of a three-byte register query.
pub open spec fn query_bytes(register: u8) -> Seq<u8> {
    seq![0x41u8, 0x01u8, register]
}

/// The bytes of the command that shows an LED pattern given by its 64 colors.
pub open spec fn set_leds_bytes(colors: Seq<crate::protocol::led::LedColor>) -> Seq<u8> {
    seq![0x43u8, 0x20u8] + led_payload(colors)
}

impl AutoMoveMode {
    /// Returns the byte value used for this mode in an auto-move command.
    pub fn flag(self) -> (flag: u8)
        ensures
            flag == auto_move_flag(self),
    {
        match self {
            AutoMoveMode::Force => 0x00,
            AutoMoveMode::Normal => 0x01,
        }
    }
}

impl Clone for Command {
    fn clone(&self) -> (copy: Self)
        ensures
            copy@ == self@,
            copy.kind() == self.kind(),
    {
        proof {
            use_type_invariant(self);
        }
        Command { bytes: self.bytes, len: self.len, write_kind: self.write_kind }
    }
}

impl View for Command {
    type V = Seq<u8>;

    closed spec fn view(&self) -> Seq<u8> {
        self.bytes@.take(self.len as int)
    }
}

impl Command {
    #[verifier::type_invariant]
    spec fn fits(self) -> bool {
        self.len <= MAX_COMMAND_LEN
    }

    /// The GATT write operation of the command.
    pub closed spec fn kind(&self) -> WriteKind {
        self.write_kind
    }

    /// Copies a command of at most [`MAX_COMMAND_LEN`] bytes.
    fn from_bytes(input: &[u8], write_kind: WriteKind) -> (command: Self)
        requires
            input@.len() <= MAX_COMMAND_LEN,
        ensures
            command@ == input@,
            command.kind() == write_kind,
    {
        let mut bytes = [0u8; MAX_COMMAND_LEN];
        let mut index: usize = 0;
        while index < input.len()
            invariant
                index <= input@.len() <= MAX_COMMAND_LEN,
                bytes@.len() == MAX_COMMAND_LEN,
                forall|i: int| 0 <= i < index ==> bytes@[i] == input@[i],
            decreases input@.len() - index,
        {
            bytes[index] = input[index];
            index += 1;
        }
        let command = Command { bytes, len: input.len() as u8, write_kind };
        assert(command@ =~= input@);
        command
    }

    /// Creates a command that moves the physical pieces to a target position.
    ///
    /// The target describes all 64 squares, not only the pieces that changed.
    /// Position notifications are unavailable while the board is performing an
    /// automatic movement. Use [`Command::stop_auto_move`] to cancel movement.
    pub fn auto_move(position: Position, mode: AutoMoveMode) -> (command: Self)
        ensures
            command@ == auto_move_bytes(position@, mode),
            command.kind() == WriteKind::WithoutResponse,
    {
        let squares = position.squares();
        let mut codes = [0u8; SQUARE_COUNT];
        let mut index: usize = 0;
        while index < SQUARE_COUNT
            invariant
                index <= SQUARE_COUNT,
                codes@.len() == SQUARE_COUNT,
                squares@ == position@,
                squares@.len() == SQUARE_COUNT,
                forall|i: int| 0 <= i < index ==> codes@[i] == piece_code(squares@[i]),
                forall|i: int| 0 <= i < SQUARE_COUNT ==> codes@[i] <= 12,
            decreases SQUARE_COUNT - index,
        {
            codes[index] = encode_piece(squares[index]);
            index += 1;
        }
        assert(codes@ =~= position_codes(position@));
        let packed = PackedSquares::encode(&codes).into_bytes();

        let mut command = [0u8; AUTO_MOVE_COMMAND_LENGTH];
        command[0] = 0x42;
        command[1] = 0x21;
        let mut offset: usize = 0;
        while offset < BOARD_STATE_LENGTH
            invariant
                offset <= BOARD_STATE_LENGTH,
                command@.len() == AUTO_MOVE_COMMAND_LENGTH,
                packed@.len() == BOARD_STATE_LENGTH,
                command@[0] == 0x42u8,
                command@[1] == 0x21u8,
                forall|i: int| 0 <= i < offset ==> command@[2 + i] == packed@[i],
            decreases BOARD_STATE_LENGTH - offset,
        {
            command[2 + offset] = packed[offset];
            offset += 1;
        }
        command[AUTO_MOVE_COMMAND_LENGTH - 1] = mode.flag();
        assert(command@ =~= auto_move_bytes(position@, mode));
        Self::from_bytes(command.as_slice(), WriteKind::WithoutResponse)
    }

    /// Creates a command that stops the current automatic movement.
    ///
    /// The command is safe to send when no automatic movement is active.
    pub fn stop_auto_move() -> (command: Self)
        ensures
            command@ == stop_auto_move_bytes(),
            command.kind() == WriteKind::WithoutResponse,
    {
        let mut command = [0u8; AUTO_MOVE_COMMAND_LENGTH];
        command[0] = 0x42;
        command[1] = 0x21;
        assert(command@ =~= stop_auto_move_bytes());
        Self::from_bytes(command.as_slice(), WriteKind::WithoutResponse)
    }

    /// Creates a command that enables realtime position notifications.
    ///
    /// Low-level transport users must subscribe to position notifications
    /// before writing this command so the initial position is not missed.
    pub fn enable_realtime_updates() -> (command: Self)
        ensures
            command@ == enable_realtime_updates_bytes(),
            command.kind() == WriteKind::WithResponse,
    {
        let bytes = [0x21u8, 0x01u8, 0x00u8];
        assert(bytes@ =~= enable_realtime_updates_bytes());
        Self::from_bytes(bytes.as_slice(), WriteKind::WithResponse)
    }

    /// Creates a query for the board's battery status.
    ///
    /// The corresponding command-response notification decodes to
    /// [`BoardEvent::BatteryStatus`](crate::protocol::BoardEvent::BatteryStatus).
    pub fn read_battery_level() -> (command: Self)
        ensures
            command@ == query_bytes(0x0c),
            command.kind() == WriteKind::WithResponse,
    {
        query_command(0x0c)
    }

    /// Creates a query for the status of all tracked physical pieces.
    ///
    /// The corresponding command-response notification decodes to
    /// [`BoardEvent::PieceStatus`](crate::protocol::BoardEvent::PieceStatus).
    pub fn read_piece_status() -> (command: Self)
        ensures
            command@ == query_bytes(0x0b),
            command.kind() == WriteKind::WithResponse,
    {
        query_command(0x0b)
    }

    /// Creates a command that replaces the LED color of every square.
    ///
    /// Squares not selected in `pattern` are turned off.
    pub fn set_leds(pattern: &LedPattern) -> (command: Self)
        ensures
            command@ == set_leds_bytes(pattern@),
            command.kind() == WriteKind::WithoutResponse,
    {
        let packed = pattern.encode();
        let mut command = [0u8; SET_LED_COMMAND_LENGTH];
        command[0] = 0x43;
        command[1] = 0x20;
        let mut offset: usize = 0;
        while offset < BOARD_STATE_LENGTH
            invariant
                offset <= BOARD_STATE_LENGTH,
                command@.len() == SET_LED_COMMAND_LENGTH,
                packed@.len() == BOARD_STATE_LENGTH,
                command@[0] == 0x43u8,
                command@[1] == 0x20u8,
                forall|i: int| 0 <= i < offset ==> command@[2 + i] == packed@[i],
            decreases BOARD_STATE_LENGTH - offset,
        {
            command[2 + offset] = packed[offset];
            offset += 1;
        }
        assert(command@ =~= set_leds_bytes(pattern@));
        Self::from_bytes(command.as_slice(), WriteKind::WithoutResponse)
    }

    /// Returns the complete byte sequence to write to the board.
    pub fn bytes(&self) -> (bytes: &[u8])
        ensures
            bytes@ == self@,
            bytes@.len() <= MAX_COMMAND_LEN,
    {
        proof {
            use_type_invariant(self);
        }
        vstd::slice::slice_subrange(self.bytes.as_slice(), 0, self.len as usize)
    }

    /// Returns the GATT write operation required by this command.
    pub fn write_kind(&self) -> (kind: WriteKind)
        ensures
            kind == self.kind(),
    {
        self.write_kind
    }
}

/// Creates a three-byte register query using a GATT write with response.
fn query_command(register: u8) -> (command: Command)
    ensures
        command@ == query_bytes(register),
        command.kind() == WriteKind::WithResponse,
{
    let bytes = [0x41u8, 0x01u8, register];
    assert(bytes@ =~= query_bytes(register));
    Command::from_bytes(bytes.as_slice(), WriteKind::WithResponse)
}

/// Stopping an automatic movement writes the same bytes as a forced movement
/// towards the empty board.
pub proof fn lemma_stop_is_forced_move_to_empty_board(empty: Seq<Option<Piece>>)
    requires
        empty == Seq::new(SQUARE_COUNT as nat, |i: int| None::<Piece>),
    ensures
        stop_auto_move_bytes() == auto_move_bytes(empty, AutoMoveMode::Force),
{
    let codes = position_codes(empty);
    assert forall|i: int| 0 <= i < 32 implies #[trigger] pack_nibbles(codes)[i] == 0u8 by {
        assert(codes[63 - 2 * i] == 0u8);
        assert(codes[62 - 2 * i] == 0u8);
    }
    assert(stop_auto_move_bytes() =~= auto_move_bytes(empty, AutoMoveMode::Force));
}

/// The byte layouts of the commands: enabling realtime updates writes `21 01
/// 00`; a register query writes `41 01` and the register; an auto-move writes
/// `42 21`, the 32 packed bytes of the target and the mode flag (`00` to
/// force, `01` to stop when the user moves a piece); stopping writes `42 21`
/// and 33 zero bytes; an LED command writes `43 20` and the 32 packed bytes of
/// the colors.
pub proof fn lemma_command_layouts(
    register: u8,
    target: Seq<Option<Piece>>,
    mode: AutoMoveMode,
    colors: Seq<crate::protocol::led::LedColor>,
)
    requires
        target.len() == SQUARE_COUNT,
        colors.len() == SQUARE_COUNT,
    ensures
        enable_realtime_updates_bytes() == seq![0x21u8, 0x01u8, 0x00u8],
        query_bytes(register) == seq![0x41u8, 0x01u8, register],
        auto_move_flag(AutoMoveMode::Force) == 0x00,
        auto_move_flag(AutoMoveMode::Normal) == 0x01,
        auto_move_bytes(target, mode).len() == 35,
        auto_move_bytes(target, mode)[0] == 0x42 && auto_move_bytes(target, mode)[1] == 0x21,
        auto_move_bytes(target, mode).subrange(2, 34) == pack_nibbles(position_codes(target)),
        auto_move_bytes(target, mode)[34] == auto_move_flag(mode),
        stop_auto_move_bytes().len() == 35,
        stop_auto_move_bytes()[0] == 0x42 && stop_auto_move_bytes()[1] == 0x21,
        forall|i: int| 2 <= i < 35 ==> #[trigger] stop_auto_move_bytes()[i] == 0,
        set_leds_bytes(colors).len() == 34,
        set_leds_bytes(colors)[0] == 0x43 && set_leds_bytes(colors)[1] == 0x20,
        set_leds_bytes(colors).subrange(2, 34) == led_payload(colors),
{
    let bytes = auto_move_bytes(target, mode);
    assert(bytes.subrange(2, 34) =~= pack_nibbles(position_codes(target)));
    let leds = set_leds_bytes(colors);
    assert(leds.subrange(2, 34) =~= led_payload(colors));
}

} // verus!
