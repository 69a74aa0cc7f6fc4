use runyte::app::{App, BufferInfo, BufferKind, Keymap, Severity};
use runyte::keys::{GrammarKind, KeyCode, KeyStroke};
use runyte::lsp_events::LspEvent;

fn buffer(language: Option<&str>) -> BufferInfo {
    BufferInfo {
        kind: BufferKind::File,
        dirty: false,
        empty: false,
        language: language.map(String::from),
        syntax_ready: false,
        syntax_stale: false,
        revision: 0,
        provider: None,
        len_bytes: 0,
        mutation_pending: false,
    }
}

fn app() -> App {
    let mut a = App::new(
        Keymap { leader: KeyStroke::plain(KeyCode::Char(' ')), window_prefix: KeyStroke::ctrl('w') },
        GrammarKind::Runyte,
    );
    a.buffers.push(buffer(Some("rust")));
    a.buffers.push(buffer(Some("python")));
    a.buffers.push(buffer(Some("rust")));
    a.buffers.push(buffer(Some("rust")));
    a.closed_buffers = vec![3];
    a
}

#[test]
fn ready_server_is_recorded_and_told_of_open_buffers() {
    let mut a = app();
    let announce = a.apply_lsp_event(LspEvent::Ready { language: String::from("rust"), name: String::from("ra") });
    assert_eq!(announce, vec![1, 4]);
    assert_eq!(a.lsp.servers, vec![(String::from("rust"), String::from("ra"))]);
    a.apply_lsp_event(LspEvent::Ready { language: String::from("python"), name: String::from("py") });
    a.apply_lsp_event(LspEvent::Ready { language: String::from("rust"), name: String::from("ra2") });
    assert_eq!(
        a.lsp.servers,
        vec![(String::from("rust"), String::from("ra2")), (String::from("python"), String::from("py"))]
    );
}

#[test]
fn stopped_server_takes_its_language_with_it() {
    let mut a = app();
    a.apply_lsp_event(LspEvent::Ready { language: String::from("rust"), name: String::from("ra") });
    a.apply_lsp_event(LspEvent::Ready { language: String::from("python"), name: String::from("py") });
    a.lsp.documents = vec![1, 2, 3];
    a.lsp.diagnostics = vec![
        (String::from("rust"), Severity::Error),
        (String::from("python"), Severity::Warning),
    ];
    let announce = a.apply_lsp_event(LspEvent::Stopped { language: String::from("rust"), message: String::from("crashed") });
    assert!(announce.is_empty());
    assert_eq!(a.lsp.servers, vec![(String::from("python"), String::from("py"))]);
    assert_eq!(a.lsp.documents, vec![2]);
    assert_eq!(a.lsp.diagnostics, vec![(String::from("python"), Severity::Warning)]);
    assert_eq!(a.status, "crashed");
    assert!(a.status_error);
    a.apply_lsp_event(LspEvent::Restarted { language: String::from("python") });
    assert!(a.lsp.servers.is_empty());
    assert!(a.lsp.documents.is_empty());
    assert!(a.lsp.diagnostics.is_empty());
}

#[test]
fn status_reports_go_to_the_status_line() {
    let mut a = app();
    a.apply_lsp_event(LspEvent::Status { message: String::from("indexing"), error: false });
    assert_eq!(a.status, "indexing");
    assert!(!a.status_error);
    a.apply_lsp_event(LspEvent::Status { message: String::from("bad config"), error: true });
    assert!(a.status_error);
}
