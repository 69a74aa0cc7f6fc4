use runyte::app::{App, DirectoryReload, FileReload, FileSnapshot, FsConfirmation, Keymap};
use runyte::confirm::{Answer, FileReloadOutcome};
use runyte::keys::{GrammarKind, KeyCode, KeyStroke};

fn app() -> App {
    App::new(
        Keymap { leader: KeyStroke::plain(KeyCode::Char(' ')), window_prefix: KeyStroke::ctrl('w') },
        GrammarKind::Runyte,
    )
}

fn enter() -> KeyStroke {
    KeyStroke::plain(KeyCode::Enter)
}

fn reload() -> FileReload {
    FileReload { buffer: 0, generation: 4, path: "/p/a.rs".chars().collect(), observation: 10 }
}

fn snapshot(generation: u64, path: &str, observation: u64, text: bool) -> FileSnapshot {
    FileSnapshot { generation, path: path.chars().collect(), observation, text }
}

#[test]
fn directory_reload_answers() {
    let mut a = app();
    a.directory_reload_confirmation =
        Some(DirectoryReload { buffer: 0, destination: Some(String::from("/p/sub")), focus_entry: None });
    assert!(matches!(a.handle_directory_reload_confirmation(KeyStroke::plain(KeyCode::Down)), Answer::Ignored));
    assert!(a.directory_reload_confirmation.is_some());
    match a.handle_directory_reload_confirmation(enter()) {
        Answer::Confirmed(c) => assert_eq!(c.destination.as_deref(), Some("/p/sub")),
        _ => panic!("expected the confirmation back"),
    }
    assert!(a.directory_reload_confirmation.is_none());
    assert!(matches!(a.handle_directory_reload_confirmation(enter()), Answer::Ignored));
    a.directory_reload_confirmation =
        Some(DirectoryReload { buffer: 0, destination: None, focus_entry: None });
    assert!(matches!(a.handle_directory_reload_confirmation(KeyStroke::ctrl('c')), Answer::Cancelled));
    assert_eq!(a.status, "directory refresh cancelled");
}

#[test]
fn git_discard_answers() {
    let mut a = app();
    a.git_discard_confirmation = Some(vec![String::from("a.rs"), String::from("b.rs")]);
    match a.handle_git_discard_confirmation(enter()) {
        Answer::Confirmed(paths) => assert_eq!(paths.len(), 2),
        _ => panic!("expected the paths back"),
    }
    a.git_discard_confirmation = Some(vec![String::from("a.rs")]);
    assert!(matches!(a.handle_git_discard_confirmation(KeyStroke::plain(KeyCode::Escape)), Answer::Cancelled));
    assert_eq!(a.status, "discard cancelled; nothing was changed");
    assert!(!a.status_error);
}

#[test]
fn file_reload_installs_an_unchanged_observation() {
    let mut a = app();
    a.file_reload_confirmation = Some(reload());
    let r = a.handle_file_reload_confirmation(enter(), Some(snapshot(4, "/p/a.rs", 10, true)), false);
    assert_eq!(r, FileReloadOutcome::Install { buffer: 0, observation: 10 });
    assert!(a.file_reload_confirmation.is_none());
}

#[test]
fn file_reload_refusals() {
    let mut a = app();
    a.file_reload_confirmation = Some(FileReload { buffer: 7, ..reload() });
    assert_eq!(a.handle_file_reload_confirmation(enter(), None, false), FileReloadOutcome::Refused);
    assert_eq!(a.status, "the file buffer was closed; reload cancelled");
    a.file_reload_confirmation = Some(reload());
    a.closed_buffers = vec![0];
    assert_eq!(a.handle_file_reload_confirmation(enter(), None, false), FileReloadOutcome::Refused);
    assert_eq!(a.status, "the file buffer was closed; reload cancelled");
    a.closed_buffers.clear();
    a.file_reload_confirmation = Some(reload());
    assert_eq!(a.handle_file_reload_confirmation(enter(), None, false), FileReloadOutcome::Refused);
    assert_eq!(a.status, "the buffer is no longer an ordinary file; reload cancelled");
    a.file_reload_confirmation = Some(reload());
    let moved = Some(snapshot(4, "/p/b.rs", 10, true));
    assert_eq!(a.handle_file_reload_confirmation(enter(), moved, false), FileReloadOutcome::Refused);
    assert_eq!(a.status, "the file baseline changed; review reload again");
    assert!(a.status_error);
    assert!(a.file_reload_confirmation.is_none());
}

#[test]
fn file_reload_offered_again_when_changed_on_disk() {
    let mut a = app();
    a.file_reload_confirmation = Some(reload());
    let r = a.handle_file_reload_confirmation(enter(), Some(snapshot(4, "/p/a.rs", 11, true)), true);
    assert_eq!(r, FileReloadOutcome::ChangedAgain(11));
    assert_eq!(a.status, "the file changed again on disk; review reload again");
    assert_eq!(a.file_reload_confirmation.as_ref().unwrap().observation, 11);
    let r = a.handle_file_reload_confirmation(enter(), Some(snapshot(4, "/p/a.rs", 12, false)), true);
    assert_eq!(r, FileReloadOutcome::ChangedAgain(12));
    assert!(a.file_reload_confirmation.is_none());
    a.file_reload_confirmation = Some(reload());
    assert_eq!(
        a.handle_file_reload_confirmation(KeyStroke::plain(KeyCode::Escape), None, false),
        FileReloadOutcome::Cancelled
    );
    assert_eq!(a.status, "reload cancelled");
}

#[test]
fn finished_filesystem_plans_report() {
    let mut a = app();
    a.fs_confirmation = Some(FsConfirmation { buffer: 0, operations: 3, selected: 0 });
    a.apply_fs_confirmation(Ok(1), None);
    assert_eq!(a.status, "applied 1 filesystem operation");
    assert!(a.fs_confirmation.is_none());
    a.apply_fs_confirmation(Ok(12), Some(String::from("open buffer has stale path /x")));
    assert_eq!(a.status, "applied 12 filesystem operations · open buffer has stale path /x");
    assert!(!a.status_error);
    a.apply_fs_confirmation(Err(String::from("rename failed")), None);
    assert_eq!(a.status, "rename failed");
    assert!(a.status_error);
}
