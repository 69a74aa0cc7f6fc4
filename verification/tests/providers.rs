use runyte::app::{App, BufferInfo, BufferKind, CapturedContext, FsConfirmation, Keymap};
use runyte::keys::{GrammarKind, InputEvent, KeyCode, KeyStroke, Mode, Modifiers};
use runyte::plugin_fs::FsFinished;
use runyte::provider::{ProviderSaveClose, ProviderSaveContinuation, SaveContinuationStep};
use runyte::provider::{
    OverwriteError, ProviderDocument, ProviderOverwrite, ProviderReloadChoice, ProviderReloadIntent,
    ReloadError,
};
use runyte::app::ForegroundError;

fn app() -> App {
    let mut a = App::new(
        Keymap { leader: KeyStroke::plain(KeyCode::Char(' ')), window_prefix: KeyStroke::ctrl('w') },
        GrammarKind::Runyte,
    );
    a.plugins.frontend_attached = true;
    a.buffers[0] = BufferInfo {
        kind: BufferKind::File,
        dirty: false,
        empty: false,
        language: None,
        syntax_ready: false,
        syntax_stale: false,
        revision: 4,
        provider: Some(ProviderDocument {
            identity: String::from("doc"),
            generation: String::from("g1"),
            baseline_epoch: 2,
        }),
        len_bytes: 10,
        mutation_pending: false,
    };
    a
}

fn context() -> CapturedContext {
    CapturedContext {
        action: None,
        foreground_allowed: true,
        attachment: 0,
        foreground: 0,
        pane: 0,
        buffer: 0,
        terminal: None,
    }
}

fn key(code: KeyCode) -> InputEvent {
    InputEvent::Key(KeyStroke::plain(code))
}

#[test]
fn overwrite_message_names_the_risk() {
    let o = ProviderOverwrite {
        job: String::from("j"),
        buffer: 0,
        expected_revision: 0,
        context: context(),
        label: String::from("notes.md"),
        atomic_replace: true,
    };
    assert_eq!(
        o.message(),
        "Overwrite notes.md with the captured Runyte text?\nThis provider cannot guarantee conditional writes.\nReplacement is atomic, but changes made remotely since the saved version was read can still be overwritten.\nEnter confirms.\nEscape cancels."
    );
    let o = ProviderOverwrite { atomic_replace: false, ..o };
    assert!(o.message().contains("Replacement is not atomic."));
}

#[test]
fn overwrite_is_refused_when_it_cannot_stand() {
    let mut a = app();
    a.plugins.frontend_attached = false;
    let r = a.show_provider_overwrite(String::from("j"), 0, 4, context(), String::from("l"), true, true);
    assert_eq!(r, Err(OverwriteError::Foreground(ForegroundError::NoFrontend)));
    assert_eq!(r.unwrap_err().message(), "No attached frontend");
    let mut a = app();
    a.recording_macro = true;
    let r = a.show_provider_overwrite(String::from("j"), 0, 4, context(), String::from("l"), true, true);
    assert_eq!(r, Err(OverwriteError::InsideMacro));
    let mut a = app();
    let r = a.show_provider_overwrite(String::from("j"), 0, 5, context(), String::from("l"), true, true);
    assert_eq!(r, Err(OverwriteError::TargetChanged));
    assert_eq!(r.unwrap_err().message(), "Remote overwrite target changed");
    let mut a = app();
    a.input_overlay = true;
    let r = a.show_provider_overwrite(String::from("j"), 0, 4, context(), String::from("l"), true, true);
    assert_eq!(r, Err(OverwriteError::Pending));
    let mut a = app();
    let r = a.show_provider_overwrite(String::from("j"), 0, 4, context(), String::from("l"), true, false);
    assert_eq!(r, Err(OverwriteError::InvalidLabel));
    assert!(a.plugins.providers.overwrite.is_none());
}

#[test]
fn overwrite_approved_by_enter_carries_the_context() {
    let mut a = app();
    a.active_action_id = Some(9);
    let r = a.show_provider_overwrite(String::from("j"), 0, 4, context(), String::from("l"), true, true);
    assert_eq!(r, Ok(()));
    assert_eq!(a.confirmation_revision, 1);
    assert_eq!(a.status, "Review the remote overwrite before continuing");
    a.handle_provider_overwrite_input(&key(KeyCode::Char('x')));
    assert!(a.plugins.providers.overwrite.is_some());
    a.handle_provider_overwrite_input(&InputEvent::Key(KeyStroke::new(KeyCode::Enter, Modifiers::shift())));
    assert!(a.plugins.providers.overwrite.is_some());
    a.handle_provider_overwrite_input(&key(KeyCode::Enter));
    assert!(a.plugins.providers.overwrite.is_none());
    assert_eq!(a.confirmation_revision, 2);
    let decisions = a.take_provider_overwrite_decisions();
    assert_eq!(decisions.len(), 1);
    assert_eq!(decisions[0].job, "j");
    assert_eq!(decisions[0].context.unwrap().action, Some(9));
    assert!(a.take_provider_overwrite_decisions().is_empty());
}

#[test]
fn overwrite_cancelled_or_dropped_has_no_context() {
    let mut a = app();
    a.show_provider_overwrite(String::from("j"), 0, 4, context(), String::from("l"), false, true).unwrap();
    a.handle_provider_overwrite_input(&InputEvent::Key(KeyStroke::ctrl('c')));
    let decisions = a.take_provider_overwrite_decisions();
    assert!(decisions[0].context.is_none());

    let mut a = app();
    a.show_provider_overwrite(String::from("j"), 0, 4, context(), String::from("l"), false, true).unwrap();
    a.buffers[0].revision = 5;
    a.sync_provider_overwrite();
    assert!(a.plugins.providers.overwrite.is_none());
    assert!(a.plugins.providers.overwrite_decision.as_ref().unwrap().context.is_none());
    let r = a.show_provider_overwrite(String::from("k"), 0, 5, context(), String::from("l"), false, true);
    assert_eq!(r, Err(OverwriteError::Pending));
    a.clear_provider_overwrite("j");
    assert!(a.plugins.providers.overwrite_decision.is_none());
    let r = a.show_provider_overwrite(String::from("k"), 0, 5, context(), String::from("l"), false, true);
    assert_eq!(r, Ok(()));
    a.clear_provider_overwrite("other");
    assert!(a.plugins.providers.overwrite.is_some());
    a.clear_provider_overwrite("k");
    assert!(a.plugins.providers.overwrite.is_none());
}

fn intent(a: &App) -> ProviderReloadIntent {
    ProviderReloadIntent {
        buffer: 0,
        expected_revision: 4,
        context: context(),
        identity: String::from("doc"),
        generation: String::from("g1"),
        epoch: a.buffers[0].provider.as_ref().unwrap().baseline_epoch,
    }
}

#[test]
fn reload_intent_checks() {
    let a = app();
    assert_eq!(a.validate_provider_reload_intent(&intent(&a)), Ok(()));
    let mut i = intent(&a);
    i.context.buffer = 1;
    assert_eq!(a.validate_provider_reload_intent(&i), Err(ReloadError::Foreground(ForegroundError::ContextChanged)));
    let mut i = intent(&a);
    i.buffer = 1;
    assert_eq!(a.validate_provider_reload_intent(&i), Err(ReloadError::TargetChanged));
    let mut i = intent(&a);
    i.generation = String::from("g2");
    assert_eq!(a.validate_provider_reload_intent(&i), Err(ReloadError::BindingChanged));
    assert_eq!(ReloadError::BindingChanged.message(), "Document or resource binding changed during reload");
    let mut b = app();
    b.closed_buffers = vec![0];
    assert_eq!(b.validate_provider_reload_intent(&intent(&b)), Err(ReloadError::DocumentClosed));
}

#[test]
fn reload_choice_rows_and_keys() {
    let mut a = app();
    let i = intent(&a);
    assert_eq!(a.show_provider_reload(String::from("r"), i, String::from("l"), true), Ok(()));
    assert_eq!(a.status, "Choose how to adopt the remote text");
    assert_eq!(a.plugins.providers.reload.as_ref().unwrap().selected, 2);
    let revision = a.confirmation_revision;
    a.handle_provider_reload_input(&key(KeyCode::Down));
    assert_eq!(a.plugins.providers.reload.as_ref().unwrap().selected, 0);
    a.handle_provider_reload_input(&key(KeyCode::Up));
    assert_eq!(a.plugins.providers.reload.as_ref().unwrap().selected, 2);
    a.handle_provider_reload_input(&InputEvent::Key(KeyStroke::ctrl('p')));
    assert_eq!(a.plugins.providers.reload.as_ref().unwrap().selected, 1);
    assert_eq!(a.confirmation_revision, revision + 3);
    a.handle_provider_reload_input(&key(KeyCode::Char('z')));
    assert_eq!(a.confirmation_revision, revision + 3);
    a.handle_provider_reload_input(&key(KeyCode::Enter));
    assert!(a.plugins.providers.reload.is_none());
    let d = a.take_provider_reload_decisions();
    assert_eq!(d[0].choice, Some(ProviderReloadChoice::KeepLocal));
    assert!(d[0].context.is_some());
}

#[test]
fn reload_cancel_row_and_escape_decide_nothing() {
    let mut a = app();
    let i = intent(&a);
    a.show_provider_reload(String::from("r"), i, String::from("l"), true).unwrap();
    a.handle_provider_reload_input(&key(KeyCode::Enter));
    let d = a.take_provider_reload_decisions();
    assert_eq!(d[0].choice, None);
    assert!(d[0].context.is_none());
    let i = intent(&a);
    a.show_provider_reload(String::from("r"), i, String::from("l"), true).unwrap();
    a.handle_provider_reload_input(&key(KeyCode::Tab));
    a.handle_provider_reload_input(&key(KeyCode::Escape));
    let d = a.take_provider_reload_decisions();
    assert_eq!(d[0].choice, None);
    let i = intent(&a);
    assert_eq!(a.show_provider_reload(String::from("r"), i, String::from("l"), false), Err(ReloadError::InvalidLabel));
}

#[test]
fn reload_choice_drops_when_the_document_changes() {
    let mut a = app();
    let i = intent(&a);
    a.show_provider_reload(String::from("r"), i, String::from("l"), true).unwrap();
    a.mode = Mode::Command;
    a.sync_provider_reload();
    assert!(a.plugins.providers.reload.is_none());
    assert_eq!(a.plugins.providers.reload_decision.as_ref().unwrap().choice, None);
    a.clear_provider_reload("r");
    assert!(a.plugins.providers.reload_decision.is_none());
}

#[test]
fn reload_queue_reserves_the_buffer() {
    let mut a = app();
    a.active_action_id = Some(3);
    assert_eq!(a.queue_provider_reload(), Ok(()));
    assert_eq!(a.queue_provider_reload(), Ok(()));
    assert_eq!(a.plugins.providers.document_saves, vec![0]);
    assert_eq!(a.status, "Reading remote text for reload");
    let intents = a.take_provider_reload_intents();
    assert_eq!(intents.len(), 2);
    assert_eq!(intents[0].expected_revision, 4);
    assert_eq!(intents[0].context.action, Some(3));
    assert_eq!(intents[0].generation, "g1");
    assert!(a.plugins.providers.reload_intents.is_empty());
    for _ in 0..4 {
        a.queue_provider_reload().unwrap();
    }
    assert_eq!(a.queue_provider_reload(), Err(ReloadError::QueueFull));
}

#[test]
fn reload_queue_refusals() {
    let mut a = app();
    a.buffers[0].mutation_pending = true;
    assert_eq!(a.queue_provider_reload(), Err(ReloadError::MutationPending));
    let mut a = app();
    a.macro_replay_pending = true;
    assert_eq!(a.queue_provider_reload(), Err(ReloadError::InsideMacro));
    let mut a = app();
    a.buffers[0].provider = None;
    assert_eq!(a.queue_provider_reload(), Err(ReloadError::NotProvider));
    let mut a = app();
    a.buffers[0].len_bytes = 8 * 1024 * 1024 + 1;
    assert_eq!(a.queue_provider_reload(), Err(ReloadError::TooLarge));
    assert_eq!(ReloadError::TooLarge.message(), "Document exceeds the 8 MiB reload limit");
    let mut a = app();
    a.plugins.frontend_attached = false;
    assert_eq!(a.queue_provider_reload(), Err(ReloadError::Foreground(ForegroundError::NoFrontend)));
    let mut a = app();
    a.closed_buffers = vec![0];
    assert_eq!(a.queue_provider_reload(), Err(ReloadError::DocumentClosed));
}

#[test]
fn filesystem_plan_review_and_cancel() {
    let mut a = app();
    assert!(!a.plugin_has_input_surface());
    a.present_plugin_filesystem(7, String::from("plan"), 3);
    assert_eq!(a.fs_confirmation, Some(FsConfirmation { buffer: 0, operations: 3, selected: 0 }));
    assert_eq!(a.status, "Review application filesystem changes before applying");
    a.cancel_plugin_filesystem(8, None);
    assert!(a.plugins.filesystem.confirmation.is_some());
    a.cancel_plugin_filesystem(7, Some("other"));
    assert!(a.plugins.filesystem.confirmation.is_some());
    a.cancel_plugin_filesystem(7, Some("plan"));
    assert!(a.plugins.filesystem.confirmation.is_none());
    assert!(a.fs_confirmation.is_none());
    let (owner, finished) = a.plugins.filesystem.finished.last().unwrap();
    assert_eq!(*owner, 7);
    assert_eq!(finished.state, "cancelled");
    assert_eq!(finished.applied, 0);
}

#[test]
fn filesystem_plan_is_cancelled_when_its_review_goes() {
    let mut a = app();
    a.present_plugin_filesystem(7, String::from("plan"), 3);
    a.sync_plugin_filesystem_confirmation();
    assert!(a.plugins.filesystem.confirmation.is_some());
    a.fs_confirmation = None;
    a.sync_plugin_filesystem_confirmation();
    assert!(a.plugins.filesystem.confirmation.is_none());
    assert_eq!(a.plugins.filesystem.finished.len(), 1);
    a.finish_plugin_filesystem(Some((2, String::from("p2"), 0, 0)), "applied", 4, true);
    let (_, f): &(usize, FsFinished) = a.plugins.filesystem.finished.last().unwrap();
    assert_eq!(f.state, "applied");
    assert!(f.recovery);
    a.finish_plugin_filesystem(None, "applied", 4, true);
    assert_eq!(a.plugins.filesystem.finished.len(), 2);
}

#[test]
fn save_continuation_applies_only_in_its_context() {
    let c = ProviderSaveContinuation { action: ProviderSaveClose::QuitView, pane: 0, buffer: 0, attachment: 0, foreground: 0 };
    let mut a = app();
    assert_eq!(a.finish_provider_save_continuation(None), SaveContinuationStep::Nothing);
    assert_eq!(a.finish_provider_save_continuation(Some(c)), SaveContinuationStep::QuitView);
    a.plugins.foreground_generation = 1;
    assert_eq!(a.finish_provider_save_continuation(Some(c)), SaveContinuationStep::Nothing);
    a.plugins.foreground_generation = 0;
    a.buffers[0].dirty = true;
    assert_eq!(a.finish_provider_save_continuation(Some(c)), SaveContinuationStep::Nothing);
    a.buffers[0].dirty = false;
    let close = ProviderSaveContinuation { action: ProviderSaveClose::CloseBuffer, ..c };
    assert_eq!(a.finish_provider_save_continuation(Some(close)), SaveContinuationStep::Closed(Some(0)));
    assert!(a.take_provider_save_intents().is_empty());
}
