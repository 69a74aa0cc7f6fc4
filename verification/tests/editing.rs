use runyte::keys::{
    edits_picker_query, is_macro_replay_cancel, InputEvent, KeyCode, KeyStroke, Modifiers, Mode,
};
use runyte::menu::Menu;
use runyte::prompt::{
    edit_confirmation_text, insert_confirmation_text, prompt_delete_range, prompt_word_backward,
    prompt_word_forward,
};
use runyte::selection::{Range, Selection, SelectionSemantics};
use runyte::text::Text;
use runyte::vim::{
    normal_mode_selection, select_vim_lines, vim_half_open_to_inclusive,
    vim_inclusive_to_half_open, vim_linewise_range, vim_linewise_rows, LineDirection,
};

fn chars(s: &str) -> Vec<char> {
    s.chars().collect()
}

#[test]
fn confirmation_text_editing() {
    let mut input = chars("mai");
    let mut cursor = 9;
    edit_confirmation_text(&mut input, &mut cursor, KeyStroke::plain(KeyCode::Char('n')));
    assert_eq!(input, chars("main"));
    assert_eq!(cursor, 4);
    edit_confirmation_text(&mut input, &mut cursor, KeyStroke::plain(KeyCode::Home));
    edit_confirmation_text(&mut input, &mut cursor, KeyStroke::plain(KeyCode::Delete));
    assert_eq!(input, chars("ain"));
    edit_confirmation_text(&mut input, &mut cursor, KeyStroke::ctrl('x'));
    assert_eq!(input, chars("ain"));
    let mut far = 10;
    edit_confirmation_text(&mut input, &mut far, KeyStroke::plain(KeyCode::Tab));
    assert_eq!(far, 3);
    let mut c = 1;
    insert_confirmation_text(&mut input, &mut c, &chars("XY"));
    assert_eq!(input, chars("aXYin"));
    assert_eq!(c, 3);
}

#[test]
fn prompt_words() {
    let v = chars("foo.bar  baz");
    assert_eq!(prompt_word_backward(&v, 12), 9);
    assert_eq!(prompt_word_backward(&v, 9), 4);
    assert_eq!(prompt_word_backward(&v, 4), 3);
    assert_eq!(prompt_word_forward(&v, 0), 3);
    assert_eq!(prompt_word_forward(&v, 7), 12);
    let mut w = chars("abcdef");
    prompt_delete_range(&mut w, 1, 4);
    assert_eq!(w, chars("aef"));
}

#[test]
fn replay_cancel_and_picker_keys() {
    assert!(is_macro_replay_cancel(&InputEvent::Key(KeyStroke::plain(KeyCode::Escape))));
    assert!(is_macro_replay_cancel(&InputEvent::Key(KeyStroke::ctrl('c'))));
    assert!(!is_macro_replay_cancel(&InputEvent::Key(KeyStroke::new(
        KeyCode::Char('c'),
        Modifiers { shift: true, control: true, alt: false, super_key: false }
    ))));
    assert!(!is_macro_replay_cancel(&InputEvent::Text(String::from("x"))));
    assert!(edits_picker_query(KeyStroke::plain(KeyCode::Backspace)));
    assert!(edits_picker_query(KeyStroke::ctrl('w')));
    assert!(edits_picker_query(KeyStroke::plain(KeyCode::Char('a'))));
    assert!(!edits_picker_query(KeyStroke::ctrl('a')));
    assert!(!edits_picker_query(KeyStroke::plain(KeyCode::Down)));
}

#[test]
fn menus_wrap_round() {
    let mut m = Menu::new(vec![1, 2, 3]);
    m.select_previous();
    assert_eq!(m.selected, 2);
    m.select_next();
    assert_eq!(m.selected, 0);
    assert_eq!(m.selected_action(), Some(1));
    let mut empty: Menu<u8> = Menu::new(Vec::new());
    empty.select_next();
    assert_eq!(empty.selected_action(), None);
}

fn text(s: &str) -> Text {
    Text::from_chars(s.chars().collect())
}

#[test]
fn vim_selection_models() {
    let t = text("abc\ndef");
    let s = Selection::new(vec![Range::new(0, 2), Range::new(6, 4), Range::point(1)], 0);
    let half = vim_inclusive_to_half_open(&t, &s, true);
    assert_eq!(half.ranges, vec![Range::new(0, 3), Range::new(7, 4), Range::new(1, 2)]);
    let back = vim_half_open_to_inclusive(&half);
    assert_eq!(back.ranges[0], Range::new(0, 2));
    assert_eq!(back.ranges[1], Range::new(6, 4));
    let lines = select_vim_lines(&t, &Selection::point(1), LineDirection::Down, 2);
    assert_eq!(lines.ranges, vec![Range::new(0, 7)]);
    assert_eq!(vim_linewise_range(&t, 1, 0), Range::new(7, 0));
    assert_eq!(vim_linewise_rows(&t, Range::new(0, 4)), (0, 0));
    assert_eq!(vim_linewise_rows(&t, Range::new(7, 0)), (1, 0));
}

#[test]
fn leaving_insert_mode() {
    let t = text("abc\ndef");
    let s = Selection::new(vec![Range::point(3), Range::point(4)], 1);
    let vim = normal_mode_selection(&t, &s, SelectionSemantics::Runyte, Mode::Insert, true);
    assert_eq!(vim.ranges, vec![Range::point(2), Range::point(4)]);
    assert_eq!(vim.primary, 1);
    let runyte = normal_mode_selection(&t, &s, SelectionSemantics::Runyte, Mode::Insert, false);
    assert_eq!(runyte.ranges, vec![Range::point(2), Range::point(4)]);
    let visual = Selection::single(Range::new(0, 3));
    let collapsed = normal_mode_selection(&t, &visual, SelectionSemantics::HalfOpen, Mode::Select, true);
    assert_eq!(collapsed.ranges, vec![Range::point(2)]);
}
