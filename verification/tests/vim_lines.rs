use runyte::keys::Mode;
use runyte::motion::Motion;
use runyte::selection::{Range, Selection, SelectionSemantics};
use runyte::text::Text;
use runyte::vim::{
    change_vim_lines, collapse_vim_normal_selection, enter_vim_visual_line,
    move_vim_linewise_selection, move_vim_selection, select_vim_characters, vim_file_lines,
    vim_motion_inclusive, vim_motion_kind, vim_operator_motion, vim_visual_operator_selection,
    LineDirection, VimMotion, VimOperator,
};

fn text(s: &str) -> Text {
    Text::from_chars(s.chars().collect())
}

#[test]
fn vim_motions_map_to_editor_motions() {
    assert_eq!(vim_motion_kind(VimMotion::WordBackward), Some(Motion::WordBack));
    assert_eq!(vim_motion_kind(VimMotion::LongWordEndBackward), Some(Motion::LongWordEndBack));
    assert_eq!(vim_motion_kind(VimMotion::WindowCenter), Some(Motion::WindowCenter));
    assert_eq!(vim_motion_kind(VimMotion::FindNext('x')), None);
    assert_eq!(vim_motion_kind(VimMotion::TillPrevious('x')), None);
    assert_eq!(vim_motion_kind(VimMotion::MatchBracket), None);
}

#[test]
fn collapsing_keeps_carets_and_draws_half_open_ends_back() {
    let carets = Selection::new(vec![Range::new(3, 3), Range::new(5, 5)], 1);
    let same = collapse_vim_normal_selection(&carets, SelectionSemantics::HalfOpen);
    assert_eq!(same.ranges, carets.ranges);
    let s = Selection::new(vec![Range::new(2, 6), Range::new(9, 4)], 0);
    let half_open = collapse_vim_normal_selection(&s, SelectionSemantics::HalfOpen);
    assert_eq!(half_open.ranges, vec![Range::new(5, 5), Range::new(4, 4)]);
    let runyte = collapse_vim_normal_selection(&s, SelectionSemantics::Runyte);
    assert_eq!(runyte.ranges, vec![Range::new(6, 6), Range::new(4, 4)]);
}

#[test]
fn visual_line_selects_whole_rows_with_a_count() {
    let t = text("ab\ncd\nef\ngh");
    let (s, semantics, mode) =
        enter_vim_visual_line(&t, &Selection::point(4), SelectionSemantics::HalfOpen, Mode::Normal, 2);
    assert_eq!(s.ranges, vec![Range::new(3, 9)]);
    assert_eq!(semantics, SelectionSemantics::VimLinewise);
    assert_eq!(mode, Mode::Select);
    let (s, _, _) =
        enter_vim_visual_line(&t, &Selection::point(10), SelectionSemantics::HalfOpen, Mode::Normal, 9);
    assert_eq!(s.ranges, vec![Range::new(9, 11)]);
    let back = Selection::new(vec![Range::new(7, 4)], 0);
    let (s, _, _) = enter_vim_visual_line(&t, &back, SelectionSemantics::Runyte, Mode::Select, 2);
    assert_eq!(s.ranges, vec![Range::new(9, 0)]);
    let half_open = Selection::new(vec![Range::new(0, 3)], 0);
    let (s, _, _) =
        enter_vim_visual_line(&t, &half_open, SelectionSemantics::HalfOpen, Mode::Select, 1);
    assert_eq!(s.ranges, vec![Range::new(0, 3)]);
}

#[test]
fn changing_lines_keeps_their_terminators() {
    let t = text("ab\r\ncd\n\nef");
    let (changes, carets, mode) = change_vim_lines(&t, &vec![(0, 4), (7, 8), (8, 10)], 5);
    assert_eq!(changes.len(), 2);
    assert_eq!((changes[0].from, changes[0].to), (0, 2));
    assert!(changes[0].text.is_empty());
    assert_eq!((changes[1].from, changes[1].to), (8, 10));
    assert_eq!(carets.ranges, vec![Range::new(0, 0), Range::new(7, 7), Range::new(8, 8)]);
    assert_eq!(carets.primary, 2);
    assert_eq!(mode, Mode::Insert);
}

#[test]
fn vim_own_motions_move_carets() {
    let t = text("abcd\nef\n\nxyz");
    let s = Selection::point(1);
    let left = move_vim_selection(&t, &s, SelectionSemantics::HalfOpen, VimMotion::Left, 5, false, false, false)
        .unwrap();
    assert_eq!(left.ranges, vec![Range::new(0, 0)]);
    let right = move_vim_selection(&t, &s, SelectionSemantics::HalfOpen, VimMotion::Right, 9, false, false, false)
        .unwrap();
    assert_eq!(right.ranges, vec![Range::new(3, 3)]);
    let end = move_vim_selection(&t, &s, SelectionSemantics::HalfOpen, VimMotion::LineEnd, 2, false, false, false)
        .unwrap();
    assert_eq!(end.ranges, vec![Range::new(6, 6)]);
    let empty_row =
        move_vim_selection(&t, &s, SelectionSemantics::HalfOpen, VimMotion::LineEnd, 3, false, false, false)
            .unwrap();
    assert_eq!(empty_row.ranges, vec![Range::new(8, 8)]);
    let two = Selection::new(vec![Range::new(1, 1), Range::new(5, 5)], 1);
    let jump = move_vim_selection(&t, &two, SelectionSemantics::HalfOpen, VimMotion::FileEnd, 4, true, false, false)
        .unwrap();
    assert_eq!(jump.ranges, vec![Range::new(9, 9)]);
    assert_eq!(jump.primary, 0);
    assert!(move_vim_selection(&t, &s, SelectionSemantics::HalfOpen, VimMotion::FileEnd, 4, false, false, false)
        .is_none());
    assert!(move_vim_selection(&t, &s, SelectionSemantics::HalfOpen, VimMotion::LineEnd, 1, false, false, false)
        .is_none());
    assert!(move_vim_selection(&t, &s, SelectionSemantics::HalfOpen, VimMotion::WordForward, 1, false, false, false)
        .is_none());
}

#[test]
fn vim_own_motions_extend_half_open_selections() {
    let t = text("abcd\nef");
    let s = Selection::new(vec![Range::new(0, 2)], 0);
    let extended =
        move_vim_selection(&t, &s, SelectionSemantics::HalfOpen, VimMotion::Right, 1, false, true, true).unwrap();
    assert_eq!(extended.ranges, vec![Range::new(0, 3)]);
    let back =
        move_vim_selection(&t, &s, SelectionSemantics::Runyte, VimMotion::Left, 2, false, true, true).unwrap();
    assert_eq!(back.ranges, vec![Range::new(0, 1)]);
}

#[test]
fn linewise_selections_follow_their_head_row() {
    let t = text("ab\ncd\nef");
    let s = Selection::new(vec![Range::new(0, 6)], 0);
    let down = move_vim_linewise_selection(&t, &s, VimMotion::LineEnd, 2, false).unwrap();
    assert_eq!(down.ranges, vec![Range::new(0, 8)]);
    let two = Selection::new(vec![Range::new(6, 3), Range::new(0, 3)], 1);
    let top = move_vim_linewise_selection(&t, &two, VimMotion::FileStart, 1, true).unwrap();
    assert_eq!(top.ranges, vec![Range::new(6, 0)]);
    assert_eq!(top.primary, 0);
    let stay = move_vim_linewise_selection(&t, &two, VimMotion::Right, 1, false).unwrap();
    assert_eq!(stay.ranges, vec![Range::new(3, 6), Range::new(0, 3)]);
    assert_eq!(stay.primary, 1);
    assert!(move_vim_linewise_selection(&t, &s, VimMotion::Down, 1, false).is_none());
}

#[test]
fn operator_motions() {
    assert!(vim_motion_inclusive(VimMotion::LineEnd));
    assert!(vim_motion_inclusive(VimMotion::TillNext('x')));
    assert!(!vim_motion_inclusive(VimMotion::WordForward));
    assert_eq!(vim_operator_motion(VimOperator::Change, VimMotion::WordForward, false), VimMotion::WordEnd);
    assert_eq!(vim_operator_motion(VimOperator::Change, VimMotion::WordForward, true), VimMotion::WordForward);
    assert_eq!(vim_operator_motion(VimOperator::Delete, VimMotion::WordForward, false), VimMotion::WordForward);
    assert_eq!(vim_file_lines(4, 1, VimMotion::FileStart, 9), (LineDirection::Up, 5));
    assert_eq!(vim_file_lines(4, 1, VimMotion::FileEnd, 9), (LineDirection::Down, 6));
    assert_eq!(vim_file_lines(4, 3, VimMotion::FileEnd, 9), (LineDirection::Up, 3));
    assert_eq!(vim_file_lines(4, 50, VimMotion::FileStart, 9), (LineDirection::Down, 6));
}

#[test]
fn characters_and_visual_operator_spans() {
    let t = text("abcd\nef");
    let s = Selection::new(vec![Range::new(1, 1), Range::new(5, 5)], 0);
    let chars = select_vim_characters(&t, &s, SelectionSemantics::HalfOpen, 2);
    assert_eq!(chars.ranges, vec![Range::new(1, 3), Range::new(5, 7)]);
    let wide = select_vim_characters(&t, &s, SelectionSemantics::HalfOpen, 9);
    assert_eq!(wide.ranges, vec![Range::new(1, 4), Range::new(5, 7)]);
    let selected = Selection::new(vec![Range::new(0, 3)], 0);
    let collapsed_first = select_vim_characters(&t, &selected, SelectionSemantics::HalfOpen, 1);
    assert_eq!(collapsed_first.ranges, vec![Range::new(2, 3)]);
    let (carets, semantics) = vim_visual_operator_selection(&t, &s, SelectionSemantics::HalfOpen);
    assert_eq!(carets.ranges, vec![Range::new(1, 2), Range::new(5, 6)]);
    assert_eq!(semantics, SelectionSemantics::HalfOpen);
    let (runyte, _) = vim_visual_operator_selection(&t, &selected, SelectionSemantics::Runyte);
    assert_eq!(runyte.ranges, vec![Range::new(0, 4)]);
    let (lines, semantics) = vim_visual_operator_selection(&t, &selected, SelectionSemantics::VimLinewise);
    assert_eq!(lines.ranges, vec![Range::new(0, 3)]);
    assert_eq!(semantics, SelectionSemantics::VimLinewise);
}
