use cli_tools::pbar::{BarChar, Message, ProgressBar};
use cli_tools::text::Style;

fn repeat(c: char, n: usize) -> String {
    let mut s = String::new();
    for _ in 0..n {
        s.push(c);
    }
    s
}

#[test]
fn event_stream_applies_in_order() {
    // Each render reflects only the events applied so far; the second and
    // third share percent 50%.
    let mut pb = ProgressBar::new("Work ".to_string());
    pb.set_length(4);

    let out1 = pb.process_event(Message::Percent(500));
    let body_half = format!("{}{}", repeat('\u{2588}', 2), repeat('\u{2591}', 2));
    assert_eq!(out1, format!("\r\r\x1b[0mWork {} 50.0%\x1b[0m", body_half));
    assert_eq!(pb.percent(), 500);

    let out2 = pb.process_event(Message::Label("Done ".to_string()));
    let erase1 = format!("\r{}\r", repeat(' ', 5 + 4 + 6));
    assert_eq!(out2, format!("{}\x1b[0mDone {} 50.0%\x1b[0m", erase1, body_half));
    assert_eq!(pb.label(), "Done ");
    assert_eq!(pb.percent(), 500);

    let out3 = pb.process_event(Message::ShowBrackets(true));
    let erase2 = format!("\r{}\r", repeat(' ', 5 + 4 + 6));
    assert_eq!(out3, format!("{}\x1b[0mDone [{}] 50.0%\x1b[0m", erase2, body_half));
    assert_eq!(pb.percent(), 500);
}

#[test]
fn every_event_variant_updates_its_attribute() {
    let mut pb = ProgressBar::new("e".to_string());
    let _ = pb.process_event(Message::Length(6));
    assert_eq!(pb.length(), 6);
    let _ = pb.process_event(Message::Percent(-300));
    assert_eq!(pb.percent(), 300);
    let _ = pb.process_event(Message::Label("later ".to_string()));
    assert_eq!(pb.label(), "later ");
    let _ = pb.process_event(Message::LeadingChar(BarChar::NumberSign));
    assert_eq!(pb.leading_char(), BarChar::NumberSign);
    let _ = pb.process_event(Message::TrailingChar(BarChar::LowLine));
    assert_eq!(pb.trailing_char(), BarChar::LowLine);
    let _ = pb.process_event(Message::Interval(11));
    assert_eq!(pb.interval(), 11);
    let _ = pb.process_event(Message::TextStyle(Style::Green));
    assert_eq!(pb.style(), Style::Green);
    let out = pb.process_event(Message::ShowPercentage(false));
    assert!(!out.contains('%'));
    let out = pb.process_event(Message::ShowBrackets(true));
    assert!(out.contains('['));
    assert!(out.contains(']'));
}

#[test]
fn percent_event_clamps_like_the_setter() {
    let mut pb = ProgressBar::new("c".to_string());
    let _ = pb.process_event(Message::Percent(2500));
    assert_eq!(pb.percent(), 1000);
    let _ = pb.process_event(Message::Percent(-10));
    assert_eq!(pb.percent(), 10);
}

#[test]
fn event_render_uses_the_styled_show_cycle() {
    let mut pb = ProgressBar::new("s".to_string());
    pb.set_length(1);
    pb.show_percentage(false);
    let _ = pb.show();
    let out = pb.process_event(Message::TextStyle(Style::Bold));
    // Previous render was "s" plus one glyph: two characters blanked.
    assert_eq!(out, format!("\r  \r\x1b[1ms{}\x1b[0m", repeat('\u{2591}', 1)));
}
