use cli_tools::pbar::BarChar;

const ALL_GLYPHS: [BarChar; 28] = [
    BarChar::NumberSign,
    BarChar::EqualSign,
    BarChar::LowLine,
    BarChar::FullBlock,
    BarChar::LightShade,
    BarChar::MediumShade,
    BarChar::DarkShade,
    BarChar::BlackSquare,
    BarChar::WhiteSquare,
    BarChar::SquareWithHorizontalFill,
    BarChar::SquareWithVerticalFill,
    BarChar::SquareWithOrthogonalCrosshatchFill,
    BarChar::SquareWithUpperLeftToLowerRightFill,
    BarChar::SquareWithUpperRightToLowerLeftFill,
    BarChar::SquareWithDiagonalCrosshatchFill,
    BarChar::BlackSmallSquare,
    BarChar::WhiteSmallSquare,
    BarChar::BlackRectangle,
    BarChar::WhiteRectangle,
    BarChar::BlackVerticalRectangle,
    BarChar::WhiteVerticalRectangle,
    BarChar::BlackParallelogram,
    BarChar::WhiteParallelogram,
    BarChar::WhiteMediumSquare,
    BarChar::BlackMediumSquare,
    BarChar::WhiteMediumSmallSquare,
    BarChar::BlackMediumSmallSquare,
    BarChar::PlayingCardAceOfSpades,
];

#[test]
fn round_trip_over_every_glyph() {
    for g in ALL_GLYPHS {
        assert_eq!(BarChar::from_char(g.to_char()), g);
    }
}

#[test]
fn to_char_uses_the_fixed_code_points() {
    assert_eq!(BarChar::NumberSign.to_char(), '#');
    assert_eq!(BarChar::EqualSign.to_char(), '=');
    assert_eq!(BarChar::LowLine.to_char(), '_');
    assert_eq!(BarChar::FullBlock.to_char(), '\u{2588}');
    assert_eq!(BarChar::LightShade.to_char(), '\u{2591}');
    assert_eq!(BarChar::MediumShade.to_char(), '\u{2592}');
    assert_eq!(BarChar::DarkShade.to_char(), '\u{2593}');
    assert_eq!(BarChar::BlackSquare.to_char(), '\u{25A0}');
    assert_eq!(BarChar::PlayingCardAceOfSpades.to_char(), '\u{1F0A1}');
}

#[test]
fn glyph_characters_are_distinct() {
    for (i, a) in ALL_GLYPHS.iter().enumerate() {
        for (j, b) in ALL_GLYPHS.iter().enumerate() {
            if i != j {
                assert_ne!(a.to_char(), b.to_char());
            }
        }
    }
}

#[test]
fn unrecognized_characters_become_full_block() {
    for c in ['z', 'A', '0', ' ', '\u{0}', '\u{2589}', '\u{1F0A2}'] {
        assert_eq!(BarChar::from_char(c), BarChar::FullBlock);
    }
}

#[test]
fn full_block_character_maps_to_full_block() {
    assert_eq!(BarChar::from_char('\u{2588}'), BarChar::FullBlock);
}

#[test]
fn from_trait_matches_from_char() {
    for g in ALL_GLYPHS {
        assert_eq!(BarChar::from(g.to_char()), g);
    }
    assert_eq!(BarChar::from('q'), BarChar::FullBlock);
}
