use cli_tools::text::Style;

#[test]
fn escape_of_regular_is_reset_sequence() {
    assert_eq!(Style::Regular.escape(), "\x1b[0m");
}

#[test]
fn escape_of_single_digit_codes() {
    assert_eq!(Style::Bold.escape(), "\x1b[1m");
    assert_eq!(Style::Faint.escape(), "\x1b[2m");
    assert_eq!(Style::Italic.escape(), "\x1b[3m");
    assert_eq!(Style::Underline.escape(), "\x1b[4m");
    assert_eq!(Style::Highlight.escape(), "\x1b[7m");
    assert_eq!(Style::StrikeThrough.escape(), "\x1b[9m");
}

#[test]
fn escape_of_two_digit_codes() {
    assert_eq!(Style::DoubleUnderline.escape(), "\x1b[21m");
    assert_eq!(Style::DarkGray.escape(), "\x1b[30m");
    assert_eq!(Style::Orange.escape(), "\x1b[31m");
    assert_eq!(Style::Green.escape(), "\x1b[32m");
    assert_eq!(Style::Yellow.escape(), "\x1b[33m");
    assert_eq!(Style::Blue.escape(), "\x1b[34m");
    assert_eq!(Style::Cyan.escape(), "\x1b[35m");
    assert_eq!(Style::LightBlue.escape(), "\x1b[36m");
    assert_eq!(Style::BlackBg.escape(), "\x1b[40m");
    assert_eq!(Style::RedBg.escape(), "\x1b[41m");
    assert_eq!(Style::GreenBg.escape(), "\x1b[42m");
    assert_eq!(Style::YellowBg.escape(), "\x1b[43m");
    assert_eq!(Style::BlueBg.escape(), "\x1b[44m");
    assert_eq!(Style::CyanBg.escape(), "\x1b[45m");
    assert_eq!(Style::LightBlueBg.escape(), "\x1b[46m");
    assert_eq!(Style::WhiteBg.escape(), "\x1b[47m");
    assert_eq!(Style::Red.escape(), "\x1b[91m");
}

#[test]
fn codes_match_escape_bodies() {
    let all: [(Style, u8); 24] = [
        (Style::Regular, 0),
        (Style::Bold, 1),
        (Style::Faint, 2),
        (Style::Italic, 3),
        (Style::Underline, 4),
        (Style::Highlight, 7),
        (Style::StrikeThrough, 9),
        (Style::DoubleUnderline, 21),
        (Style::DarkGray, 30),
        (Style::Orange, 31),
        (Style::Green, 32),
        (Style::Yellow, 33),
        (Style::Blue, 34),
        (Style::Cyan, 35),
        (Style::LightBlue, 36),
        (Style::BlackBg, 40),
        (Style::RedBg, 41),
        (Style::GreenBg, 42),
        (Style::YellowBg, 43),
        (Style::BlueBg, 44),
        (Style::CyanBg, 45),
        (Style::LightBlueBg, 46),
        (Style::WhiteBg, 47),
        (Style::Red, 91),
    ];
    for (style, code) in all {
        assert_eq!(style.code(), code);
        assert_eq!(style.escape(), format!("\x1b[{}m", code));
    }
}
