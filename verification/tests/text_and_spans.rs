use runyte::motion::{move_offset, next_paragraph, previous_paragraph, Motion};
use runyte::movement::{
    document_end, insert_word_back, insert_word_forward, is_single_cell, is_word_start,
    next_offset, previous_offset, word_back_kind, word_end_back, word_forward_kind,
};
use runyte::selection::{Range, Selection};
use runyte::spans::{
    merged_line_spans, operative_span, selection_is_deliberate, trailing_whitespace_changes,
    whole_line_span, without_trailing_line_terminator, word_bounds,
};
use runyte::text::Text;

fn text(s: &str) -> Text {
    Text::from_chars(s.chars().collect())
}

#[test]
fn rows_and_offsets() {
    let t = text("ab\ncde\n\nf");
    assert_eq!(t.len_lines(), 4);
    assert_eq!(t.line_to_offset(1), 3);
    assert_eq!(t.line_len(1), 3);
    assert_eq!(t.line_len(2), 0);
    assert_eq!(t.offset_to_row(6), 1);
    assert_eq!(t.offset_to_row(7), 2);
    let p = t.position_of(5);
    assert_eq!((p.row, p.col), (1, 2));
    assert_eq!(t.row_end_offset(1, false), 5);
    assert_eq!(t.row_end_offset(1, true), 7);
    assert_eq!(t.row_end_offset(2, false), 7);
}

#[test]
fn clamping_draws_back_onto_row() {
    let t = text("ab\ncde");
    assert_eq!(t.clamp_offset(2, false), 1);
    assert_eq!(t.clamp_offset(2, true), 2);
    assert_eq!(t.clamp_offset(99, false), 5);
    assert_eq!(t.clamp_offset(99, true), 6);
    // Clamping twice changes nothing more.
    let once = t.clamp_offset(99, false);
    assert_eq!(t.clamp_offset(once, false), once);
}

#[test]
fn normal_mode_steps_skip_line_feeds() {
    let t = text("a\n\nb");
    assert_eq!(next_offset(&t, 0), Some(3));
    assert_eq!(previous_offset(&t, 3), Some(0));
    assert_eq!(next_offset(&t, 3), None);
    assert_eq!(previous_offset(&t, 0), None);
}

#[test]
fn word_motions() {
    let t = text("foo.bar  baz\nqux");
    assert_eq!(word_forward_kind(&t, 0, false), 3);
    assert_eq!(word_forward_kind(&t, 0, true), 9);
    assert_eq!(word_forward_kind(&t, 9, false), 13);
    assert_eq!(word_back_kind(&t, 9, false), 4);
    assert_eq!(word_back_kind(&t, 13, false), 9);
    assert!(is_word_start(&t, 13, false));
    assert!(!is_word_start(&t, 1, false));
    assert_eq!(word_end_back(&t, 13, false), 11);
    assert_eq!(document_end(&t), 15);
}

#[test]
fn word_forward_at_end_stays_on_last_character() {
    let t = text("foo");
    assert_eq!(word_forward_kind(&t, 1, false), 2);
}

#[test]
fn insert_mode_word_motions() {
    let t = text("foo bar  ");
    assert_eq!(insert_word_back(&t, 7), 4);
    assert_eq!(insert_word_back(&t, 4), 0);
    assert_eq!(insert_word_forward(&t, 0), 3);
    assert_eq!(insert_word_forward(&t, 3), 7);
    assert_eq!(insert_word_forward(&t, 7), 9);
}

#[test]
fn single_cell_characters() {
    assert!(is_single_cell('a'));
    assert!(!is_single_cell('\t'));
    assert!(!is_single_cell('界'));
}

#[test]
fn paragraphs() {
    let t = text("a\nb\n\nc\nd");
    assert_eq!(next_paragraph(&t, 0), 5);
    assert_eq!(next_paragraph(&t, 5), 7);
    assert_eq!(previous_paragraph(&t, 7), 5);
    assert_eq!(previous_paragraph(&t, 5), 0);
}

#[test]
fn motions_move_within_the_document() {
    let t = text("abc\nde\nfghi");
    assert_eq!(move_offset(&t, 2, Motion::Down, 10, 0), 5);
    assert_eq!(move_offset(&t, 5, Motion::Down, 10, 0), 8);
    assert_eq!(move_offset(&t, 4, Motion::Left, 10, 0), 2);
    assert_eq!(move_offset(&t, 2, Motion::Right, 10, 0), 4);
    assert_eq!(move_offset(&t, 9, Motion::LineStart, 10, 0), 7);
    assert_eq!(move_offset(&t, 7, Motion::LineEnd, 10, 0), 10);
    assert_eq!(move_offset(&t, 5, Motion::FileStart, 10, 0), 0);
    assert_eq!(move_offset(&t, 0, Motion::FileEnd, 10, 0), 10);
    assert_eq!(move_offset(&t, 0, Motion::PageDown, 10, 0), 7);
    assert_eq!(move_offset(&t, 9, Motion::HalfPageUp, 4, 0), 2);
    assert_eq!(move_offset(&t, 0, Motion::WindowBottom, 2, 1), 7);
}

#[test]
fn first_and_last_non_whitespace() {
    let t = text("  ab c  ");
    assert_eq!(move_offset(&t, 0, Motion::FirstNonWhitespace, 10, 0), 2);
    assert_eq!(move_offset(&t, 0, Motion::LastNonWhitespace, 10, 0), 5);
}

#[test]
fn word_under_caret_stays_on_its_row() {
    let t = text("ab cd\nef");
    assert_eq!(word_bounds(&t, 0), (0, 2));
    assert_eq!(word_bounds(&t, 4), (3, 5));
    assert_eq!(word_bounds(&t, 5), (5, 5));
    assert_eq!(word_bounds(&t, 6), (6, 8));
}

#[test]
fn operative_spans() {
    let t = text("abc\n\nd");
    assert_eq!(operative_span(&t, &Range::new(0, 0)), (0, 1));
    assert_eq!(operative_span(&t, &Range::new(0, 2)), (0, 3));
    // An empty row acts on its own terminator.
    assert_eq!(operative_span(&t, &Range::new(4, 4)), (4, 5));
    let last_empty = text("ab\n");
    assert_eq!(operative_span(&last_empty, &Range::new(3, 3)), (2, 3));
}

#[test]
fn deliberate_selections() {
    let t = text("abc");
    assert!(!selection_is_deliberate(&t, &Selection::point(1)));
    assert!(selection_is_deliberate(&t, &Selection::single(Range::new(0, 2))));
    let two = Selection::new(vec![Range::point(0), Range::point(2)], 0);
    assert!(selection_is_deliberate(&t, &two));
}

#[test]
fn whole_rows() {
    let t = text("ab\ncd\nef");
    assert_eq!(whole_line_span(&t, 1, 4), (0, 5));
    // A span ending at a row's start does not touch that row, and the span
    // stops at the end of the last row's text.
    assert_eq!(whole_line_span(&t, 0, 3), (0, 2));
    assert_eq!(whole_line_span(&t, 6, 8), (6, 8));
}

#[test]
fn trailing_terminator_held_back() {
    let t = text("ab\r\ncd\n");
    assert_eq!(without_trailing_line_terminator(&t, 0, 4), 2);
    assert_eq!(without_trailing_line_terminator(&t, 4, 7), 6);
    assert_eq!(without_trailing_line_terminator(&t, 0, 2), 2);
}

#[test]
fn merged_spans_fold_adjacent_rows() {
    let t = text("aa\nbb\n\ncc");
    let merged = merged_line_spans(&t, vec![(3, 4), (0, 1)]);
    assert_eq!(merged, vec![(0, 5)]);
    let apart = merged_line_spans(&t, vec![(0, 1), (7, 8)]);
    assert_eq!(apart, vec![(0, 2), (7, 9)]);
    let empty_row = merged_line_spans(&t, vec![(6, 6), (3, 4)]);
    assert_eq!(empty_row, vec![(3, 6)]);
}

#[test]
fn trailing_whitespace_is_found_per_row() {
    let t = text("a  \nb\nc\t");
    let changes = trailing_whitespace_changes(&t, &vec![0, 1, 2]);
    let spans: Vec<(usize, usize)> = changes.iter().map(|c| (c.from, c.to)).collect();
    assert_eq!(spans, vec![(1, 3), (7, 8)]);
    assert!(changes.iter().all(|c| c.text.is_empty()));
}
