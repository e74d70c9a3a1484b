use chessnut_move::protocol::{
    Color, File, LedColor, LedPattern, ParseSquareError, Piece, PieceKind, Position, Rank,
    SQUARE_COUNT, Square,
};

#[test]
fn colors_are_accessed_by_square() {
    let square = Square::new(File::C, Rank::Six);
    let mut pattern = LedPattern::default();

    pattern.set_color(square, LedColor::Blue);

    assert_eq!(pattern.color_at(square), LedColor::Blue);
}

#[test]
fn pieces_are_accessed_by_square() {
    let square = Square::new(File::E, Rank::Four);
    let piece = Piece { color: Color::White, kind: PieceKind::Pawn };
    let mut position = Position::new([None; SQUARE_COUNT]);

    position.set_piece(square, Some(piece));

    assert_eq!(position.piece_at(square), Some(piece));
}

#[test]
fn squares_use_canonical_a1_to_h8_indexes() {
    assert_eq!(SQUARE_COUNT, 64);
    assert_eq!(Square::from_index(0), Some(Square::new(File::A, Rank::One)));
    assert_eq!(
        Square::from_index(SQUARE_COUNT - 1),
        Some(Square::new(File::H, Rank::Eight))
    );
    assert_eq!(Square::new(File::A, Rank::One).index(), 0);
    assert_eq!(Square::new(File::H, Rank::Eight).index(), 63);
    assert_eq!(Square::from_index(64), None);
}

#[test]
fn square_notation_parses_case_insensitively() {
    assert_eq!("H8".parse::<Square>(), Ok(Square::new(File::H, Rank::Eight)));
    assert_eq!("a1".parse::<Square>(), Ok(Square::new(File::A, Rank::One)));
}

#[test]
fn invalid_square_notation_is_rejected() {
    assert_eq!("i1".parse::<Square>(), Err(ParseSquareError));
    assert_eq!("a9".parse::<Square>(), Err(ParseSquareError));
    assert_eq!("a10".parse::<Square>(), Err(ParseSquareError));
}

#[test]
fn file_and_rank_indexes_run_from_zero_to_seven() {
    assert_eq!(File::A.index(), 0);
    assert_eq!(File::H.index(), 7);
    assert_eq!(Rank::One.index(), 0);
    assert_eq!(Rank::Eight.index(), 7);
}

#[test]
fn squares_give_back_their_file_and_rank() {
    let files = [File::A, File::B, File::C, File::D, File::E, File::F, File::G, File::H];
    let ranks = [
        Rank::One,
        Rank::Two,
        Rank::Three,
        Rank::Four,
        Rank::Five,
        Rank::Six,
        Rank::Seven,
        Rank::Eight,
    ];
    for file in files {
        for rank in ranks {
            let square = Square::new(file, rank);
            assert_eq!(square.file(), file);
            assert_eq!(square.rank(), rank);
            assert_eq!(square.index(), rank.index() as usize * 8 + file.index() as usize);
            assert_eq!(Square::from_index(square.index()), Some(square));
        }
    }
    assert_eq!(Square::new(File::C, Rank::Six).file(), File::C);
    assert_eq!(Square::new(File::C, Rank::Six).rank(), Rank::Six);
}

#[test]
fn upper_and_lower_case_letters_name_the_same_square() {
    for (lower, upper) in ["a", "b", "c", "d", "e", "f", "g", "h"]
        .iter()
        .zip(["A", "B", "C", "D", "E", "F", "G", "H"].iter())
    {
        for rank in ["1", "2", "3", "4", "5", "6", "7", "8"] {
            let a = format!("{lower}{rank}").parse::<Square>();
            let b = format!("{upper}{rank}").parse::<Square>();
            assert!(a.is_ok());
            assert_eq!(a, b);
        }
    }
    assert_eq!(Square::parse_notation("e4"), Ok(Square::new(File::E, Rank::Four)));
    assert_eq!(Square::parse_notation(""), Err(ParseSquareError));
    assert_eq!(Square::parse_notation("4e"), Err(ParseSquareError));
    assert_eq!(Square::parse_notation("e0"), Err(ParseSquareError));
}

#[test]
fn setting_one_square_leaves_the_others() {
    let e4 = Square::new(File::E, Rank::Four);
    let d5 = Square::new(File::D, Rank::Five);
    let mut position = Position::new([None; SQUARE_COUNT]);
    let queen = Piece { color: Color::Black, kind: PieceKind::Queen };
    position.set_piece(d5, Some(queen));
    position.set_piece(e4, Some(Piece { color: Color::White, kind: PieceKind::Pawn }));
    assert_eq!(position.piece_at(d5), Some(queen));
    position.set_piece(e4, None);
    assert_eq!(position.piece_at(e4), None);

    let mut pattern = LedPattern::all(LedColor::Green);
    pattern.set_color(e4, LedColor::Red);
    assert_eq!(pattern.color_at(e4), LedColor::Red);
    assert_eq!(pattern.color_at(d5), LedColor::Green);
}

#[test]
fn led_pattern_constructors() {
    assert_eq!(LedPattern::new([LedColor::Red; SQUARE_COUNT]), LedPattern::all(LedColor::Red));
    assert_eq!(LedPattern::default(), LedPattern::all(LedColor::Off));
    assert_eq!(
        LedPattern::all(LedColor::Green).color_at(Square::new(File::H, Rank::Eight)),
        LedColor::Green
    );
}

#[test]
fn squares_are_written_in_algebraic_notation() {
    assert_eq!(Square::new(File::E, Rank::Four).notation(), "e4");
    assert_eq!(Square::new(File::H, Rank::Eight).notation(), "h8");
    assert_eq!(File::A.notation(), "a");
    assert_eq!(Rank::Eight.notation(), "8");
    for index in 0..SQUARE_COUNT {
        let square = Square::from_index(index).unwrap();
        assert_eq!(square.notation().parse::<Square>(), Ok(square));
        assert_eq!(usize::from(square), index);
    }
}
