use runyte::motion::{move_offset, Motion};
use runyte::movement::{word_end, word_forward_kind};
use runyte::text::Text;

fn text(s: &str) -> Text {
    Text::from_chars(s.chars().collect())
}

#[test]
fn word_forward_stops_at_next_word() {
    let t = text("foo bar");
    assert_eq!(word_forward_kind(&t, 0, false), 4);
}

#[test]
fn word_end_reaches_last_character() {
    let t = text("foo bar");
    assert_eq!(word_end(&t, 0, false), 2);
}

#[test]
fn down_keeps_column() {
    let t = text("abc\ndef");
    assert_eq!(move_offset(&t, 1, Motion::Down, 10, 0), 5);
}
