use runyte::app::{App, Keymap};
use runyte::keys::{GrammarKind, KeyCode, KeyStroke};
use runyte::pipe::{PipeEnd, PipeError, PipeState};
use runyte::text::Text;

fn app() -> App {
    App::new(
        Keymap { leader: KeyStroke::plain(KeyCode::Char(' ')), window_prefix: KeyStroke::ctrl('w') },
        GrammarKind::Runyte,
    )
}

fn text(s: &str) -> Text {
    Text::from_chars(s.chars().collect())
}

#[test]
fn pipes_take_the_text_of_each_span() {
    let mut a = app();
    let mut pipe = PipeState { running: false };
    let t = text("héllo\nworld");
    let request = a
        .request_pipe(&mut pipe, &t, vec![(0, 2), (6, 11)], String::from("sort"), false)
        .ok()
        .unwrap();
    assert_eq!(request.buffer, 0);
    assert_eq!(request.inputs[0].iter().collect::<String>(), "hé");
    assert_eq!(request.inputs[1].iter().collect::<String>(), "world");
    assert!(pipe.running);
    assert_eq!(a.status, "Pipe started; :pipe-cancel cancels");
    let again = a.request_pipe(&mut pipe, &t, vec![(0, 1)], String::from("sort"), false);
    assert_eq!(again.err(), Some(PipeError::Running));
    assert_eq!(a.pipe_finished(&mut pipe, Ok(()), false), PipeEnd::Completed);
    assert!(!pipe.running);
    assert_eq!(a.status, "Pipe completed");
    assert_eq!(a.pipe_finished(&mut pipe, Err(String::from("exit 1")), false), PipeEnd::Failed);
    assert!(a.status_error);
}

#[test]
fn pipes_are_refused() {
    let mut a = app();
    let mut pipe = PipeState { running: false };
    let t = text("abcdef");
    let long: String = std::iter::repeat('x').take(16 * 1024 + 1).collect();
    assert_eq!(
        a.request_pipe(&mut pipe, &t, vec![(0, 1)], long, false).err(),
        Some(PipeError::CommandTooLong)
    );
    assert_eq!(
        a.request_pipe(&mut pipe, &t, vec![(0, 1)], String::from("tr"), true).err(),
        Some(PipeError::ReadOnly)
    );
    assert_eq!(
        a.request_pipe(&mut pipe, &t, vec![(0, 3), (2, 4)], String::from("tr"), false).err(),
        Some(PipeError::Overlapping)
    );
    let many: Vec<(usize, usize)> = (0..257).map(|_| (0, 0)).collect();
    assert_eq!(
        a.request_pipe(&mut pipe, &t, many, String::from("tr"), false).err(),
        Some(PipeError::TooManySelections)
    );
    a.panes[0].terminal = Some(1);
    assert_eq!(
        a.request_pipe(&mut pipe, &t, vec![(0, 1)], String::from("tr"), false).err(),
        Some(PipeError::NotEditable)
    );
    assert!(!pipe.running);
    assert_eq!(PipeError::InputTooLarge.message(), "pipe input exceeds 8 MiB");
}

#[test]
fn pipe_input_is_bounded() {
    let mut a = app();
    let mut pipe = PipeState { running: false };
    let t = Text::from_chars(vec!['é'; 4 * 1024 * 1024 + 1]);
    let len = t.len_chars();
    assert_eq!(
        a.request_pipe(&mut pipe, &t, vec![(0, len)], String::from("wc"), false).err(),
        Some(PipeError::InputTooLarge)
    );
    assert!(a.request_pipe(&mut pipe, &t, vec![(0, len - 1)], String::from("wc"), false).is_ok());
}

#[test]
fn pipe_cancel_signals_only_a_running_pipe() {
    let a = app();
    assert!(!a.cancel_pipe(&PipeState { running: false }));
    assert!(a.cancel_pipe(&PipeState { running: true }));
}

#[test]
fn protective_pipe_refusal_is_a_warning() {
    let mut a = app();
    let mut pipe = PipeState { running: true };
    assert_eq!(a.pipe_finished(&mut pipe, Err(String::from("buffer changed")), true), PipeEnd::Refused);
    assert!(!pipe.running);
    assert_eq!(a.status, "buffer changed");
    assert!(!a.status_error);
}
