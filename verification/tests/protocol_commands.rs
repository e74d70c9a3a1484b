use chessnut_move::protocol::{
    AutoMoveMode, Color, Command, File, LedColor, LedPattern, Piece, PieceKind, Position, Rank,
    SQUARE_COUNT, Square, WriteKind, MAX_COMMAND_LEN,
};

const AUTO_MOVE_PREFIX: [u8; 2] = [0x42, 0x21];
const SET_LED_PREFIX: [u8; 2] = [0x43, 0x20];
const SET_LED_COMMAND_LENGTH: usize = 34;

#[test]
fn fixed_commands_can_be_constructed_at_compile_time() {
    let stop = Command::stop_auto_move();
    let enable_updates = Command::enable_realtime_updates();
    let read_battery = Command::read_battery_level();
    let read_pieces = Command::read_piece_status();

    assert_eq!(&stop.bytes()[..2], AUTO_MOVE_PREFIX);
    assert_eq!(enable_updates.bytes(), [0x21, 0x01, 0x00]);
    assert_eq!(read_battery.bytes(), [0x41, 0x01, 0x0c]);
    assert_eq!(read_pieces.bytes(), [0x41, 0x01, 0x0b]);
}

#[test]
fn auto_move_command_encodes_target_position_and_mode() {
    let mut position = Position::new([None; SQUARE_COUNT]);
    position.set_piece(
        Square::new(File::H, Rank::Eight),
        Some(Piece { color: Color::Black, kind: PieceKind::Queen }),
    );
    position.set_piece(
        Square::new(File::G, Rank::Eight),
        Some(Piece { color: Color::Black, kind: PieceKind::King }),
    );

    let command = Command::auto_move(position, AutoMoveMode::Normal);

    assert_eq!(&command.bytes()[..2], AUTO_MOVE_PREFIX);
    assert_eq!(command.bytes()[2], 0x21);
    assert!(command.bytes()[3..34].iter().all(|byte| *byte == 0));
    assert_eq!(command.bytes()[34], AutoMoveMode::Normal.flag());
    assert_eq!(command.write_kind(), WriteKind::WithoutResponse);
}

#[test]
fn stop_auto_move_command_zeroes_the_target_and_force_flag() {
    let command = Command::stop_auto_move();

    assert_eq!(&command.bytes()[..2], AUTO_MOVE_PREFIX);
    assert!(command.bytes()[2..].iter().all(|byte| *byte == 0));
    assert_eq!(command.write_kind(), WriteKind::WithoutResponse);
}

#[test]
fn battery_level_command_matches_move_api() {
    let command = Command::read_battery_level();

    assert_eq!(command.bytes(), [0x41, 0x01, 0x0c]);
    assert_eq!(command.write_kind(), WriteKind::WithResponse);
}

#[test]
fn piece_status_command_matches_move_api() {
    let command = Command::read_piece_status();

    assert_eq!(command.bytes(), [0x41, 0x01, 0x0b]);
    assert_eq!(command.write_kind(), WriteKind::WithResponse);
}

#[test]
fn led_command_uses_chessnut_square_and_nibble_order() {
    let mut pattern = LedPattern::default();
    pattern.set_color(Square::new(File::H, Rank::Eight), LedColor::Red);
    pattern.set_color(Square::new(File::G, Rank::Eight), LedColor::Green);
    pattern.set_color(Square::new(File::A, Rank::One), LedColor::Blue);

    let command = Command::set_leds(&pattern);

    assert_eq!(command.bytes().len(), SET_LED_COMMAND_LENGTH);
    assert_eq!(&command.bytes()[..2], SET_LED_PREFIX);
    assert_eq!(command.bytes()[2], 0x21);
    assert!(command.bytes()[3..33].iter().all(|byte| *byte == 0));
    assert_eq!(command.bytes()[33], 0x30);
    assert_eq!(command.write_kind(), WriteKind::WithoutResponse);
}

#[test]
fn auto_move_flags_match_the_move_api() {
    assert_eq!(AutoMoveMode::Force.flag(), 0);
    assert_eq!(AutoMoveMode::Normal.flag(), 1);
}

#[test]
fn auto_move_command_has_prefix_target_and_flag() {
    let mut position = Position::new([None; SQUARE_COUNT]);
    position.set_piece(
        Square::new(File::A, Rank::One),
        Some(Piece { color: Color::White, kind: PieceKind::Rook }),
    );
    position.set_piece(
        Square::new(File::B, Rank::One),
        Some(Piece { color: Color::White, kind: PieceKind::Knight }),
    );
    let command = Command::auto_move(position, AutoMoveMode::Force);

    assert_eq!(command.bytes().len(), MAX_COMMAND_LEN);
    // The last packed byte carries b1 (wire 62) in the low nibble and a1 (wire 63) in the high nibble.
    assert_eq!(command.bytes()[33], 0x6a);
    assert_eq!(command.bytes()[34], 0x00);
}

#[test]
fn stopping_equals_a_forced_move_to_the_empty_board() {
    let empty = Position::new([None; SQUARE_COUNT]);
    assert_eq!(
        Command::auto_move(empty, AutoMoveMode::Force).bytes(),
        Command::stop_auto_move().bytes()
    );
}

#[test]
fn every_command_fits_in_the_maximum_length() {
    let commands = [
        Command::stop_auto_move(),
        Command::enable_realtime_updates(),
        Command::read_battery_level(),
        Command::read_piece_status(),
        Command::set_leds(&LedPattern::all(LedColor::Blue)),
        Command::auto_move(Position::new([None; SQUARE_COUNT]), AutoMoveMode::Normal),
    ];
    for command in commands {
        assert!(command.bytes().len() <= MAX_COMMAND_LEN);
    }
}

#[test]
fn all_blue_led_command_repeats_the_blue_code() {
    let command = Command::set_leds(&LedPattern::all(LedColor::Blue));
    assert_eq!(&command.bytes()[..2], SET_LED_PREFIX);
    assert!(command.bytes()[2..].iter().all(|byte| *byte == 0x33));
}

#[test]
fn cloned_command_keeps_bytes_and_write_kind() {
    let command = Command::read_piece_status();
    let copy = command.clone();
    assert_eq!(copy.bytes(), command.bytes());
    assert_eq!(copy.write_kind(), command.write_kind());
}
