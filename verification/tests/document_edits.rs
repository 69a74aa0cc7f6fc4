use runyte::edits::{apply_document_edits, EditError};
use runyte::spans::Change;
use runyte::text::Text;

fn text(s: &str) -> Text {
    Text::from_chars(s.chars().collect())
}

fn change(from: usize, to: usize, t: &str) -> Change {
    Change { from, to, text: t.chars().collect() }
}

fn content(t: &Text) -> String {
    t.chars.iter().collect()
}

#[test]
fn edits_apply_together() {
    let mut t = text("hello world");
    assert_eq!(apply_document_edits(&mut t, &vec![change(11, 11, "!"), change(0, 5, "bye")]), Ok(()));
    assert_eq!(content(&t), "bye world!");
    assert_eq!(t.len_lines(), 1);
}

#[test]
fn insertion_goes_before_a_replacement_at_the_same_place() {
    let mut t = text("hello world");
    assert_eq!(apply_document_edits(&mut t, &vec![change(6, 11, "earth"), change(6, 6, "big ")]), Ok(()));
    assert_eq!(content(&t), "hello big earth");
}

#[test]
fn edits_may_add_rows() {
    let mut t = text("a\nb");
    assert_eq!(apply_document_edits(&mut t, &vec![change(1, 2, "\n\n")]), Ok(()));
    assert_eq!(content(&t), "a\n\nb");
    assert_eq!(t.len_lines(), 3);
    assert_eq!(apply_document_edits(&mut t, &Vec::new()), Ok(()));
    assert_eq!(content(&t), "a\n\nb");
}

#[test]
fn conflicting_edits_are_refused() {
    let mut t = text("hello world");
    assert_eq!(apply_document_edits(&mut t, &vec![change(0, 5, "x"), change(3, 7, "y")]), Err(EditError::Overlapping));
    assert_eq!(apply_document_edits(&mut t, &vec![change(2, 2, "x"), change(2, 2, "y")]), Err(EditError::Overlapping));
    assert_eq!(apply_document_edits(&mut t, &vec![change(1, 4, "x"), change(2, 2, "y")]), Err(EditError::Overlapping));
    assert_eq!(apply_document_edits(&mut t, &vec![change(5, 3, "x")]), Err(EditError::InvalidRange));
    assert_eq!(apply_document_edits(&mut t, &vec![change(0, 20, "x")]), Err(EditError::InvalidRange));
    assert_eq!(content(&t), "hello world");
    assert_eq!(EditError::Overlapping.message("a.rs"), "a.rs has overlapping language-server edits");
}

#[test]
fn adjacent_edits_are_not_conflicts() {
    let mut t = text("abcdef");
    assert_eq!(apply_document_edits(&mut t, &vec![change(0, 3, "X"), change(3, 6, "Y"), change(3, 3, "-")]), Ok(()));
    assert_eq!(content(&t), "X-Y");
}
