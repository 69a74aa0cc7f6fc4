//! The editor's application state: who owns input, the key grammar's
//! pending state, pointer gestures, and the waits that connect buffers to
//! terminals.

use vstd::prelude::*;

use std::collections::HashMap;

use crate::keys::{GrammarKind, KeyStroke, Mode, PointerEvent};
use crate::menu::Menu;
use crate::plugin_fs::FsFinished;
use crate::provider::{
    ProviderDocument, ProviderOverwrite, ProviderOverwriteDecision, ProviderReload,
    ProviderReloadDecision, ProviderReloadIntent, ProviderSaveIntent,
};
use crate::surface::Surface;

verus! {

broadcast use vstd::std_specs::hash::group_hash_axioms;

/// The binding registry's fixed keys.
#[derive(Clone, Copy, Debug, PartialEq, Eq, Structural)]
pub struct Keymap {
    /// The key that starts the application command tree.
    pub leader: KeyStroke,
    /// The key that starts a window command.
    pub window_prefix: KeyStroke,
}

impl Keymap {
    /// The key that starts the application command tree.
    pub fn leader(&self) -> (k: KeyStroke)
        ensures
            k == self.leader,
    {
        self.leader
    }

    /// The key that starts a window command.
    pub fn window_prefix(&self) -> (k: KeyStroke)
        ensures
            k == self.window_prefix,
    {
        self.window_prefix
    }
}

/// The key grammar's state between keys.
pub struct Grammar {
    pub kind: GrammarKind,
    /// Keys of a sequence not yet resolved.
    pub pending: Vec<KeyStroke>,
    /// A typed count not yet consumed.
    pub count: Option<usize>,
    /// A character-taking command waits for its character.
    pub awaiting_character: bool,
    /// The mode a closed prompt returns to, where the grammar names one.
    pub preferred_mode: Option<Mode>,
}

/// What an editor-level exit means for a persistent session.
#[derive(Clone, Copy, Debug, PartialEq, Eq, Structural)]
pub enum PersistentExitRequest {
    Quit { force: bool },
}

/// A pointer gesture in progress.
#[derive(Clone, Copy, Debug, PartialEq, Eq, Structural)]
pub enum PointerDrag {
    /// A document selection being dragged in `pane`, over `buffer`, from
    /// `anchor`.
    Selection { pane: usize, buffer: usize, anchor: usize },
    /// A selection over a terminal's captured review.
    TerminalSelection { pane: usize, terminal: usize, anchor: usize },
    /// A divider between two panes being dragged.
    Resize { first: usize, second: usize, vertical: bool, last_column: u16, last_row: u16 },
}

/// The rows of a pane's text body on screen.
#[derive(Clone, Copy, Debug, PartialEq, Eq, Structural)]
pub struct PaneBody {
    /// The screen row of its top.
    pub y: u16,
    pub height: u16,
}

/// Milliseconds between two autoscroll steps.
pub const AUTOSCROLL_INTERVAL: u64 = 60;

/// `now` plus one autoscroll interval, stopping at the clock's end.
pub open spec fn next_autoscroll_due(now: u64) -> u64 {
    if now as int + AUTOSCROLL_INTERVAL as int <= u64::MAX as int {
        (now + AUTOSCROLL_INTERVAL) as u64
    } else {
        u64::MAX
    }
}

/// Which way the pointer on `row` scrolls a body: up on its top row, down
/// on its bottom one, not at all in between.
pub open spec fn edge_direction(row: u16, body: PaneBody) -> int {
    if row <= body.y {
        -1
    } else if row >= body.y + body.height - 1 {
        1
    } else {
        0
    }
}

/// The autoscroll after the held `drag` moved to `event` at `now`, over the
/// drag pane's `body`, given the one there was.
pub open spec fn spec_autoscroll_after(
    drag: Option<PointerDrag>,
    existing: Option<Autoscroll>,
    event: PointerEvent,
    body: Option<PaneBody>,
    now: u64,
) -> Option<Autoscroll> {
    match (drag, body) {
        (Some(PointerDrag::Selection { pane, buffer, anchor }), Some(b)) => {
            let d = PointerDrag::Selection { pane, buffer, anchor };
            let direction = edge_direction(event.row, b);
            if b.height <= 1 || direction == 0 {
                None
            } else {
                let due = match existing {
                    Some(scroll) => if scroll.drag == d && scroll.direction == direction {
                        scroll.due
                    } else {
                        next_autoscroll_due(now)
                    },
                    None => next_autoscroll_due(now),
                };
                Some(Autoscroll { drag: d, event, direction: direction as i32, due })
            }
        },
        _ => None,
    }
}

/// The autoscroll after the held `drag` moved to `event` at `now`.
fn autoscroll_after(
    drag: Option<PointerDrag>,
    existing: Option<Autoscroll>,
    event: PointerEvent,
    body: Option<PaneBody>,
    now: u64,
) -> (r: Option<Autoscroll>)
    ensures
        r == spec_autoscroll_after(drag, existing, event, body, now),
{
    let (d, b) = match (drag, body) {
        (Some(PointerDrag::Selection { pane, buffer, anchor }), Some(b)) => (
            PointerDrag::Selection { pane, buffer, anchor },
            b,
        ),
        _ => return None,
    };
    if b.height <= 1 {
        return None;
    }
    let direction: i32 = if event.row <= b.y {
        -1
    } else if event.row as u32 >= b.y as u32 + b.height as u32 - 1 {
        1
    } else {
        return None;
    };
    let fresh = now.saturating_add(AUTOSCROLL_INTERVAL);
    let due = match existing {
        Some(scroll) => if scroll.drag == d && scroll.direction == direction {
            scroll.due
        } else {
            fresh
        },
        None => fresh,
    };
    Some(Autoscroll { drag: d, event, direction, due })
}

/// A selection drag held at a pane edge, scrolling while it stays there.
#[derive(Clone, Copy, Debug, PartialEq, Eq, Structural)]
pub struct Autoscroll {
    pub drag: PointerDrag,
    pub event: PointerEvent,
    /// -1 scrolls up, 1 down.
    pub direction: i32,
    /// When the next step is due, in milliseconds of the editor's clock.
    pub due: u64,
}

/// One pane of the layout.
#[derive(Clone, Copy, Debug)]
pub struct Pane {
    pub id: usize,
    pub buffer: usize,
    /// The terminal shown in place of the buffer.
    pub terminal: Option<usize>,
    /// A buffer shown over a terminal it hides, and that terminal.
    pub covered_terminal: Option<(usize, usize)>,
}

/// A terminal session, by id.
#[derive(Clone, Copy, Debug, PartialEq, Eq, Structural)]
pub struct Terminal {
    pub id: usize,
    /// Its child process is still running.
    pub live: bool,
}

/// What kind of buffer a buffer is.
#[derive(Clone, Copy, Debug, PartialEq, Eq, Structural)]
pub enum BufferKind {
    File,
    Scratch,
    CommitMessage,
    Virtual,
    Settings,
    Notifications,
    GitStatus,
    GitBranches,
    GitWorktrees,
    GitLog,
    GitBlame,
    GitStash,
    GitCommit,
    WorkspaceSearch,
    Help,
    Directory,
}

/// What the application knows of a buffer.
pub struct BufferInfo {
    pub kind: BufferKind,
    pub dirty: bool,
    /// It holds no text.
    pub empty: bool,
    /// The language its file maps to.
    pub language: Option<String>,
    /// A syntax tree is ready.
    pub syntax_ready: bool,
    /// The syntax tree is being rebuilt.
    pub syntax_stale: bool,
    /// Bumped by every edit.
    pub revision: u64,
    /// The remote document a provider backs it with, if any.
    pub provider: Option<ProviderDocument>,
    /// The size of its text in bytes.
    pub len_bytes: usize,
    /// A captured revision of it is still being written or read.
    pub mutation_pending: bool,
}

/// The plugin host's state.
pub struct Plugins {
    pub frontend_attached: bool,
    pub attachment_generation: u64,
    pub foreground_generation: u64,
    /// The input surface a plugin has open.
    pub input: Option<Surface>,
    /// Surfaces answered or abandoned, for the plugin host to deliver.
    pub input_finished: Vec<FinishedInput>,
    pub presentation_dirty: bool,
    /// Approvals for provider documents.
    pub providers: ProviderApprovals,
    /// An application's filesystem plan under review.
    pub filesystem: FsReview,
}

/// Approvals for provider documents, and what was decided.
pub struct ProviderApprovals {
    /// The remote overwrite awaiting approval.
    pub overwrite: Option<ProviderOverwrite>,
    /// What was decided about it, for the host to deliver.
    pub overwrite_decision: Option<ProviderOverwriteDecision>,
    /// The remote reload awaiting a choice.
    pub reload: Option<ProviderReload>,
    /// What was chosen about it, for the host to deliver.
    pub reload_decision: Option<ProviderReloadDecision>,
    /// Reloads queued for the host to read, oldest first.
    pub reload_intents: Vec<ProviderReloadIntent>,
    /// Buffers reserved by a save or reload the host has not settled.
    pub document_saves: Vec<usize>,
    /// Saves queued for the host to write, oldest first.
    pub save_intents: Vec<ProviderSaveIntent>,
}

/// An application's filesystem plan under review, and the plans that ended.
pub struct FsReview {
    /// The plan under review: its owner, handle, confirmation revision and
    /// initiating buffer.
    pub confirmation: Option<(usize, String, u64, usize)>,
    /// Plans that ended, with their owners.
    pub finished: Vec<(usize, FsFinished)>,
}

/// What a surface's owner is told when it closes.
pub struct Submission {
    pub surface: String,
    pub accepted: bool,
    /// A secret field was submitted.
    pub sensitive: bool,
    /// Each field's id and value, when accepted.
    pub values: Vec<(String, crate::surface::Value)>,
}

/// A closed surface, with its owner and the context its answer runs in.
pub struct FinishedInput {
    pub owner: usize,
    pub context: CapturedContext,
    pub submission: Submission,
}

/// What a resource finder is ranking by.
#[derive(Clone, Copy, Debug, PartialEq, Eq, Structural)]
pub enum FinderMode {
    Names,
    Contents,
}

/// The open resource finder.
pub struct Finder {
    pub mode: FinderMode,
    /// A name rank has been asked for and not answered.
    pub name_rank_pending: bool,
}

/// A bounded pass over live resources' contents.
pub struct ContentScan {
    /// The pass refills rows it has just dropped.
    pub refilling: bool,
}

/// What a prompt's text is for.
#[derive(Clone, Copy, Debug, PartialEq, Eq, Structural)]
pub enum PromptKind {
    Command,
    FinderPath,
    ExternalProgram,
    SessionRename,
    SessionNumber,
}

/// An action on an external program choice.
#[derive(Clone, Copy, Debug, PartialEq, Eq, Structural)]
pub enum ProgramAction {
    Delete,
    SetDefault,
}

/// One row of the external-program list.
#[derive(Clone, Debug)]
pub struct ProgramChoice {
    pub program: String,
    /// The system opener.
    pub system: bool,
    /// Remembered by the program cache.
    pub remembered: bool,
    pub is_default: bool,
}

/// The application state that input, pointer gestures, waits and plugin
/// surfaces act on.
pub struct App {
    pub mode: Mode,
    pub grammar: Grammar,
    pub keymap: Keymap,
    pub should_quit: bool,
    pub persistent_exit_request: Option<PersistentExitRequest>,
    pub status: String,
    pub status_error: bool,
    pub active_pane: usize,
    pub panes: Vec<Pane>,
    pub terminals: Vec<Terminal>,
    pub buffers: Vec<BufferInfo>,
    pub closed_buffers: Vec<usize>,
    pub pointer_drag: Option<PointerDrag>,
    pub pointer_autoscroll: Option<Autoscroll>,
    /// An overlay (prompt, picker, confirmation, menu) owns input.
    pub input_overlay: bool,
    /// A macro replay is running or queued.
    pub macro_replay_pending: bool,
    /// A macro is being recorded.
    pub recording_macro: bool,
    /// Buffers waited on by a parent terminal, with how many requests share
    /// each.
    pub parent_wait_buffers: HashMap<usize, usize>,
    /// The pane and terminal each waited buffer returns to.
    pub parent_wait_origins: Vec<(usize, (usize, usize))>,
    /// Completed or cancelled waits, for the host to answer.
    pub parent_wait_actions: Vec<(usize, bool)>,
    pub plugins: Plugins,
    pub finder: Option<Finder>,
    pub finder_content_scan: Option<ContentScan>,
    pub finder_dirty_terminals: Vec<usize>,
    /// The file picker is open and ranking.
    pub picker_ranking: Option<bool>,
    pub prompt_kind: PromptKind,
    pub prompt_origin_mode: Mode,
    pub prompt_revision: u64,
    pub command: Vec<char>,
    pub command_cursor: usize,
    pub command_selection: usize,
    pub programs: Vec<String>,
    pub default_program: Option<String>,
    pub system_program: Option<String>,
    pub program_action_menu: Option<(ProgramChoice, Menu<ProgramAction>)>,
    /// How many path hints the finder-path prompt shows.
    pub finder_hint_count: usize,
    pub fs_confirmation: Option<FsConfirmation>,
    pub buffer_discard_confirmation: Option<usize>,
    pub git_branch_deletion: Option<TypedConfirmation>,
    pub git_branch_switch: Option<TypedConfirmation>,
    pub git_worktree_removal: Option<TypedConfirmation>,
    pub git_pull_rebase: Option<PullRebase>,
    /// Changes to discard before a directory buffer reloads or is left.
    pub directory_reload_confirmation: Option<DirectoryReload>,
    /// Paths whose working-tree changes Git would discard.
    pub git_discard_confirmation: Option<Vec<String>>,
    /// A file buffer to reload from disk over its edits.
    pub file_reload_confirmation: Option<FileReload>,
    /// Bumped whenever a typed confirmation's text changes.
    pub confirmation_revision: u64,
    pub lsp: LspState,
    /// Grammars that failed to load: language and error.
    pub syntax_errors: Vec<(String, String)>,
    pub has_git: bool,
    pub git_discovery_failure: Option<String>,
    pub git_repository: bool,
    pub git_discovery_complete: bool,
    pub git_discovery_error: bool,
    pub persistent_session: CommandAvailability,
    pub menus: Menus,
    /// Rows of the session manager.
    pub workspace_rows: Vec<WorkspaceRow>,
    /// The file picker's query, while it is open.
    pub picker_query: Option<Vec<char>>,
    /// The caret in the file picker's query, in characters.
    pub picker_cursor: usize,
    /// The file picker shows a preview of the selected row.
    pub picker_preview: bool,
    /// The id the next file or content scan gets; never 0.
    pub next_file_scan_id: u64,
    /// The open choice list.
    pub list: Option<ListView>,
    /// The completion popup, by where its candidates come from.
    pub completion: Option<crate::completion::CompletionSource>,
    /// The user action being handled, while one is.
    pub active_action_id: Option<u64>,
}

/// A directory buffer with unsaved edits, waiting to reload or to be left
/// for `destination`.
pub struct DirectoryReload {
    pub buffer: usize,
    /// Where the navigation was going; none to reload in place.
    pub destination: Option<String>,
    /// The entry to focus once there.
    pub focus_entry: Option<String>,
}

/// What a file looked like on disk when its reload was offered.
pub struct FileReload {
    pub buffer: usize,
    /// The buffer's file baseline when the reload was offered.
    pub generation: u64,
    pub path: Vec<char>,
    /// What was observed on disk, by its fingerprint.
    pub observation: u64,
}

/// What the disk shows of a file buffer now.
pub struct FileSnapshot {
    pub generation: u64,
    pub path: Vec<char>,
    pub observation: u64,
    /// The observation is readable text.
    pub text: bool,
}

/// One row of the session manager.
pub struct WorkspaceRow {
    pub running: bool,
    pub name: Option<String>,
    pub number: Option<u8>,
}

/// What the terminal list offers for a terminal.
#[derive(Clone, Copy, Debug, PartialEq, Eq, Structural)]
pub enum TerminalAction {
    Show,
    Rename,
    Close,
    Create,
}

/// What the session manager offers for a session.
#[derive(Clone, Copy, Debug, PartialEq, Eq, Structural)]
pub enum SessionAction {
    Open,
    Rename,
    Number,
    Close,
    ForceClose,
    Forget,
}

/// Where a copied path goes.
#[derive(Clone, Copy, Debug, PartialEq, Eq, Structural)]
pub enum PathClipboardTarget {
    System,
    Register,
}

/// The nested action menus, at most one of which is normally open.
pub struct Menus {
    /// A terminal's actions; arming asks again before closing a hidden live
    /// terminal.
    pub terminal: Option<(usize, Menu<TerminalAction>)>,
    /// A session row's actions; arming asks again before force-closing.
    pub session: Option<(usize, Menu<SessionAction>)>,
    pub buffer: Option<(usize, Menu<crate::lsp::BufferAction>)>,
    /// The path popup, with the path it shows.
    pub path_popup: Option<String>,
    pub path: Option<Menu<PathClipboardTarget>>,
    /// The context actions the keymap offers where the caret is.
    pub context: Option<Menu<crate::menus::ContextAction>>,
}

/// Language services: configuration, the workspace permission, and what
/// the attached manager reports.
pub struct LspState {
    /// Language servers are enabled in configuration.
    pub config_enable: bool,
    /// Languages with a configured server.
    pub config_servers: Vec<String>,
    /// Language servers may run for this workspace.
    pub workspace_allowed: bool,
    pub trust_error: Option<String>,
    /// The permission store, and whether it can remember a decision.
    pub trust_store: Option<bool>,
    /// A language-server manager is attached.
    pub attached: bool,
    /// Ready servers: language and server name.
    pub servers: Vec<(String, String)>,
    /// Buffers attached to their server.
    pub documents: Vec<usize>,
    /// Each diagnostic's language and severity.
    pub diagnostics: Vec<(String, Severity)>,
    /// The permission choice list is on screen, with what each row does.
    pub list_open: bool,
    pub list_actions: Vec<ListAction>,
}

/// How serious a diagnostic is.
#[derive(Clone, Copy, Debug, PartialEq, Eq, Structural)]
pub enum Severity {
    Error,
    Warning,
    Information,
    Hint,
}

/// Whether a command's capability is there, and why not.
#[derive(Clone, Debug)]
pub enum CommandAvailability {
    Available,
    Unavailable(String),
}

/// What choosing a row of a choice list does.
#[derive(Clone, Copy, Debug, PartialEq, Eq, Structural)]
pub enum ListAction {
    LspTrust { allowed: bool, remember: bool },
    Buffer(usize),
    Terminal(usize),
    /// A row of the session manager.
    Workspace(usize),
}

/// An open choice list, as far as its keys read it; its rows are the
/// host's.
pub struct ListView {
    /// What is typed to narrow the rows.
    pub filter: Vec<char>,
    /// Typing goes into the filter.
    pub accepts_filter: bool,
    /// A read-only report, which only scrolls.
    pub report: bool,
    /// The rows carry tags that Tab cycles through.
    pub has_tags: bool,
    /// The list can show a preview.
    pub has_preview: bool,
    pub show_preview: bool,
    /// The list is the session manager.
    pub sessions: bool,
    /// The list picks a setting's value.
    pub settings: bool,
    /// What the selected row does, where it does something.
    pub selected: Option<ListAction>,
}

/// A filesystem plan awaiting confirmation, with one of its operations
/// selected.
#[derive(Clone, Copy, Debug, PartialEq, Eq, Structural)]
pub struct FsConfirmation {
    /// The buffer active when the plan was presented.
    pub buffer: usize,
    pub operations: usize,
    pub selected: usize,
}

/// A destructive operation confirmed by Enter, or by typing a name first.
pub struct TypedConfirmation {
    pub input: Vec<char>,
    pub cursor: usize,
    /// What must be typed.
    pub expected: Vec<char>,
    /// Whether typing is required at all.
    pub typed: bool,
    /// How the subject is shown in messages.
    pub subject: String,
    /// What the status line says when a switch is cancelled.
    pub cancelled_message: String,
}

/// A pull refused because it would need a rebase.
pub struct PullRebase {
    pub branch: String,
    pub behind: u64,
    pub upstream: String,
}

/// Terminal `id` exists and its child still runs.
pub open spec fn terminal_live(terminals: Seq<Terminal>, id: usize) -> bool {
    exists|i: int| 0 <= i < terminals.len() && terminals[i].id == id && terminals[i].live
}

/// Pane `p` shows terminal `terminal`, or holds a buffer covering it.
pub open spec fn pane_shows_terminal(p: Pane, terminal: usize) -> bool {
    p.terminal == Some(terminal) || (p.covered_terminal matches Some(c) && c.1 == terminal)
}

/// The origins kept for buffers that `buffers` still waits on.
pub open spec fn retained_origins(
    origins: Seq<(usize, (usize, usize))>,
    buffers: Map<usize, usize>,
) -> Seq<(usize, (usize, usize))> {
    origins.filter(|entry: (usize, (usize, usize))| buffers.contains_key(entry.0))
}

/// `origins` with `buffer` recorded as returning to `origin`: an entry for it
/// is replaced, else one is added at the end.
pub open spec fn record_origin(
    origins: Seq<(usize, (usize, usize))>,
    buffer: usize,
    origin: (usize, usize),
) -> Seq<(usize, (usize, usize))> {
    if exists|i: int| 0 <= i < origins.len() && origins[i].0 == buffer {
        let i = choose|i: int| 0 <= i < origins.len() && origins[i].0 == buffer;
        origins.update(i, (buffer, origin))
    } else {
        origins.push((buffer, origin))
    }
}

/// Each buffer of `buffers`, in order, recorded as returning to `origin`.
pub open spec fn record_origins(
    origins: Seq<(usize, (usize, usize))>,
    buffers: Seq<usize>,
    origin: (usize, usize),
) -> Seq<(usize, (usize, usize))>
    decreases buffers.len(),
{
    if buffers.len() == 0 {
        origins
    } else {
        record_origin(record_origins(origins, buffers.drop_last(), origin), buffers.last(), origin)
    }
}

/// No buffer has two origins.
pub open spec fn origins_unique(origins: Seq<(usize, (usize, usize))>) -> bool {
    forall|i: int, j: int|
        0 <= i < j < origins.len() ==> #[trigger] origins[i].0 != #[trigger] origins[j].0
}

/// Why a parent terminal cannot be waited on.
#[derive(Clone, Copy, Debug, PartialEq, Eq, Structural)]
pub enum ParentWaitError {
    /// No pane shows the terminal.
    OriginNotVisible,
    /// The terminal's child has exited.
    OriginExited,
}

impl App {
    /// The registry used by this editor instance.
    pub fn keymap(&self) -> (k: &Keymap)
        ensures
            *k == self.keymap,
    {
        &self.keymap
    }

    /// Replaces the binding registry.
    pub fn set_keymap(&mut self, keymap: Keymap)
        ensures
            *final(self) == (App { keymap, ..*old(self) }),
    {
        self.keymap = keymap;
    }

    /// Keys of the sequence still being resolved.
    pub fn pending_sequence(&self) -> (s: &Vec<KeyStroke>)
        ensures
            s@ == self.grammar.pending@,
    {
        &self.grammar.pending
    }

    /// The count typed and not yet consumed.
    pub fn pending_count(&self) -> (c: Option<usize>)
        ensures
            c == self.grammar.count,
    {
        self.grammar.count
    }

    /// The key grammar in use.
    pub fn grammar_kind(&self) -> (k: GrammarKind)
        ensures
            k == self.grammar.kind,
    {
        self.grammar.kind
    }

    /// Registry mode used by key discovery for the active grammar: none
    /// while a character-taking command waits for its character; otherwise
    /// the mode in Normal or Select, Vim's Select counting as Normal; none in
    /// any other mode.
    pub open spec fn spec_key_hint_mode(&self) -> Option<Mode> {
        if self.grammar.awaiting_character {
            None
        } else if self.mode == Mode::Normal || self.mode == Mode::Select {
            match self.grammar.kind {
                GrammarKind::Runyte => Some(self.mode),
                GrammarKind::Vim => Some(Mode::Normal),
            }
        } else {
            None
        }
    }

    /// Registry mode used by key discovery for the active grammar.
    pub fn key_hint_mode(&self) -> (m: Option<Mode>)
        ensures
            m == self.spec_key_hint_mode(),
    {
        if self.grammar.awaiting_character {
            return None;
        }
        if self.mode == Mode::Normal || self.mode == Mode::Select {
            match self.grammar.kind {
                GrammarKind::Runyte => Some(self.mode),
                GrammarKind::Vim => Some(Mode::Normal),
            }
        } else {
            None
        }
    }

    /// Registry mode a frontend should use while observing `key`: in Insert
    /// or Replace, that mode itself when the key is the window prefix or a
    /// sequence is pending; otherwise the key-hint mode.
    pub fn key_hint_mode_for_key(&self, key: KeyStroke) -> (m: Option<Mode>)
        ensures
            m == (if (self.mode == Mode::Insert || self.mode == Mode::Replace) && (
            key.spec_canonical_for_binding() == self.keymap.window_prefix
                || self.grammar.pending@.len() != 0) {
                Some(self.mode)
            } else {
                self.spec_key_hint_mode()
            }),
    {
        if (self.mode == Mode::Insert || self.mode == Mode::Replace) && (key.canonical_for_binding()
            == self.keymap.window_prefix() || self.grammar.pending.len() != 0) {
            return Some(self.mode);
        }
        self.key_hint_mode()
    }

    /// Takes the persistent-session meaning of an editor-level exit: nothing
    /// unless an exit was asked for; then the recorded request, or an
    /// ordinary safe quit. The exit flag and the request are both cleared.
    pub fn take_persistent_exit_request(&mut self) -> (r: Option<PersistentExitRequest>)
        ensures
            !old(self).should_quit ==> r is None && *final(self) == *old(self),
            old(self).should_quit ==> {
                &&& r == Some(
                    match old(self).persistent_exit_request {
                        Some(request) => request,
                        None => PersistentExitRequest::Quit { force: false },
                    },
                )
                &&& *final(self) == (App {
                    should_quit: false,
                    persistent_exit_request: None,
                    ..*old(self)
                })
            },
    {
        if !self.should_quit {
            return None;
        }
        self.should_quit = false;
        let request = match self.persistent_exit_request.take() {
            Some(request) => request,
            None => PersistentExitRequest::Quit { force: false },
        };
        Some(request)
    }

    /// Whether a document selection drag is in progress.
    pub fn pointer_selection_drag_active(&self) -> (b: bool)
        ensures
            b == (self.pointer_drag matches Some(PointerDrag::Selection { .. })),
    {
        match self.pointer_drag {
            Some(PointerDrag::Selection { .. }) => true,
            _ => false,
        }
    }

    /// Ends a pointer gesture when keyboard input or attachment loss takes
    /// over, and says whether Runyte owned one.
    pub fn cancel_pointer_drag(&mut self) -> (owned: bool)
        ensures
            owned == old(self).pointer_drag is Some,
            *final(self) == (App { pointer_drag: None, pointer_autoscroll: None, ..*old(self) }),
    {
        let owned = self.pointer_drag.is_some();
        self.pointer_drag = None;
        self.pointer_autoscroll = None;
        owned
    }

    /// Follows a held selection drag at time `now`: while the pointer is
    /// on the top or bottom row of the drag pane's `body` (none when the
    /// pane is not drawn), the drag scrolls up or down, keeping its
    /// schedule when it goes on the same way and otherwise starting one
    /// interval from now; anywhere else, or for a body of a single row, or
    /// with no selection drag, autoscroll stops.
    pub fn update_pointer_autoscroll(&mut self, event: PointerEvent, body: Option<PaneBody>, now: u64)
        ensures
            *final(self) == (App {
                pointer_autoscroll: spec_autoscroll_after(
                    old(self).pointer_drag,
                    old(self).pointer_autoscroll,
                    event,
                    body,
                    now,
                ),
                ..*old(self)
            }),
    {
        self.pointer_autoscroll = autoscroll_after(self.pointer_drag, self.pointer_autoscroll, event, body, now);
    }

    /// Whether an autoscroll step is due at `now`: an autoscroll that is no
    /// longer valid is dropped; a valid one that is due is handed back for
    /// the host to follow and scroll by a row.
    pub fn pointer_autoscroll_due(&mut self, now: u64) -> (r: Option<Autoscroll>)
        requires
            old(self).wf(),
        ensures
            match old(self).spec_valid_pointer_autoscroll() {
                None => r is None && *final(self) == (App { pointer_autoscroll: None, ..*old(self) }),
                Some(scroll) => *final(self) == *old(self) && r == (if now < scroll.due {
                    None
                } else {
                    Some(scroll)
                }),
            },
    {
        match self.valid_pointer_autoscroll() {
            None => {
                self.pointer_autoscroll = None;
                None
            },
            Some(scroll) => if now < scroll.due {
                None
            } else {
                Some(scroll)
            },
        }
    }

    /// Ends an autoscroll step taken at `now`: when the pane did not move,
    /// autoscroll stops; otherwise the next step is due one interval after
    /// this one ran, so late steps never catch up in a burst. Says whether
    /// the step scrolled.
    pub fn finish_pointer_autoscroll(&mut self, moved: bool, now: u64) -> (stepped: bool)
        ensures
            stepped == (moved && old(self).pointer_autoscroll is Some),
            !stepped ==> *final(self) == (App { pointer_autoscroll: None, ..*old(self) }),
            stepped ==> *final(self) == (App {
                pointer_autoscroll: Some(
                    Autoscroll {
                        due: next_autoscroll_due(now),
                        ..old(self).pointer_autoscroll->0
                    },
                ),
                ..*old(self)
            }),
    {
        match self.pointer_autoscroll {
            Some(scroll) if moved => {
                self.pointer_autoscroll = Some(
                    Autoscroll { due: now.saturating_add(AUTOSCROLL_INTERVAL), ..scroll },
                );
                true
            },
            _ => {
                self.pointer_autoscroll = None;
                false
            },
        }
    }

    /// The pane with id `id`, if there is one.
    pub open spec fn pane_with_id(&self, id: usize) -> Option<Pane> {
        if exists|i: int| 0 <= i < self.panes@.len() && self.panes@[i].id == id {
            Some(self.panes@[choose|i: int| 0 <= i < self.panes@.len() && self.panes@[i].id == id])
        } else {
            None
        }
    }

    /// Whether the state is well formed: pane ids and terminal ids are
    /// unique, no waited buffer has two origins, and the active pane exists.
    pub fn is_well_formed(&self) -> (b: bool)
        ensures
            b == self.wf(),
    {
        let mut i: usize = 0;
        while i < self.panes.len()
            invariant
                i <= self.panes@.len(),
                forall|a: int, c: int|
                    0 <= a < c < i ==> #[trigger] self.panes@[a].id != #[trigger] self.panes@[c].id,
            decreases self.panes@.len() - i,
        {
            let mut j: usize = 0;
            while j < i
                invariant
                    j <= i < self.panes@.len(),
                    forall|a: int| 0 <= a < j ==> #[trigger] self.panes@[a].id != self.panes@[i as int].id,
                decreases i - j,
            {
                if self.panes[j].id == self.panes[i].id {
                    return false;
                }
                j = j + 1;
            }
            i = i + 1;
        }
        let mut i: usize = 0;
        while i < self.terminals.len()
            invariant
                i <= self.terminals@.len(),
                forall|a: int, c: int|
                    0 <= a < c < self.panes@.len() ==> #[trigger] self.panes@[a].id != #[trigger] self.panes@[c].id,
                forall|a: int, c: int|
                    0 <= a < c < i ==> #[trigger] self.terminals@[a].id != #[trigger] self.terminals@[c].id,
            decreases self.terminals@.len() - i,
        {
            let mut j: usize = 0;
            while j < i
                invariant
                    j <= i < self.terminals@.len(),
                    forall|a: int| 0 <= a < j ==> #[trigger] self.terminals@[a].id != self.terminals@[i as int].id,
                decreases i - j,
            {
                if self.terminals[j].id == self.terminals[i].id {
                    return false;
                }
                j = j + 1;
            }
            i = i + 1;
        }
        let mut i: usize = 0;
        while i < self.parent_wait_origins.len()
            invariant
                i <= self.parent_wait_origins@.len(),
                forall|a: int, c: int|
                    0 <= a < c < self.panes@.len() ==> #[trigger] self.panes@[a].id != #[trigger] self.panes@[c].id,
                forall|a: int, c: int|
                    0 <= a < c < self.terminals@.len() ==> #[trigger] self.terminals@[a].id != #[trigger] self.terminals@[c].id,
                forall|a: int, c: int|
                    0 <= a < c < i ==> #[trigger] self.parent_wait_origins@[a].0
                        != #[trigger] self.parent_wait_origins@[c].0,
            decreases self.parent_wait_origins@.len() - i,
        {
            let mut j: usize = 0;
            while j < i
                invariant
                    j <= i < self.parent_wait_origins@.len(),
                    forall|a: int|
                        0 <= a < j ==> #[trigger] self.parent_wait_origins@[a].0
                            != self.parent_wait_origins@[i as int].0,
                decreases i - j,
            {
                if self.parent_wait_origins[j].0 == self.parent_wait_origins[i].0 {
                    return false;
                }
                j = j + 1;
            }
            i = i + 1;
        }
        let mut k: usize = 0;
        while k < self.panes.len()
            invariant
                k <= self.panes@.len(),
                forall|a: int, c: int|
                    0 <= a < c < self.panes@.len() ==> #[trigger] self.panes@[a].id != #[trigger] self.panes@[c].id,
                forall|a: int, c: int|
                    0 <= a < c < self.terminals@.len() ==> #[trigger] self.terminals@[a].id != #[trigger] self.terminals@[c].id,
                origins_unique(self.parent_wait_origins@),
                forall|a: int| 0 <= a < k ==> #[trigger] self.panes@[a].id != self.active_pane,
            decreases self.panes@.len() - k,
        {
            if self.panes[k].id == self.active_pane {
                assert(self.panes@[k as int].id == self.active_pane);
                return true;
            }
            k = k + 1;
        }
        false
    }

    /// Pane ids are unique, as are terminal ids.
    pub open spec fn wf(&self) -> bool {
        &&& forall|i: int, j: int|
            0 <= i < j < self.panes@.len() ==> #[trigger] self.panes@[i].id
                != #[trigger] self.panes@[j].id
        &&& forall|i: int, j: int|
            0 <= i < j < self.terminals@.len() ==> #[trigger] self.terminals@[i].id
                != #[trigger] self.terminals@[j].id
        &&& origins_unique(self.parent_wait_origins@)
        &&& self.pane_with_id(self.active_pane) is Some
    }

    /// The held edge drag, while it is still the gesture in progress, its
    /// pane is active and still shows its buffer rather than a terminal,
    /// the prompt is closed, no overlay owns input and no macro replay is
    /// pending.
    pub open spec fn spec_valid_pointer_autoscroll(&self) -> Option<Autoscroll> {
        match self.pointer_autoscroll {
            Some(scroll) => match scroll.drag {
                PointerDrag::Selection { pane, buffer, .. } => {
                    if self.pointer_drag == Some(scroll.drag) && self.active_pane == pane && (
                    self.pane_with_id(pane) matches Some(p) && p.buffer == buffer && p.terminal
                        is None) && self.mode != Mode::Command && !self.input_overlay
                        && !self.macro_replay_pending {
                        Some(scroll)
                    } else {
                        None
                    }
                },
                _ => None,
            },
            None => None,
        }
    }

    /// The pane with id `id`.
    fn find_pane(&self, id: usize) -> (p: Option<Pane>)
        requires
            self.wf(),
        ensures
            p == self.pane_with_id(id),
    {
        let mut i: usize = 0;
        while i < self.panes.len()
            invariant
                self.wf(),
                i <= self.panes@.len(),
                forall|k: int| 0 <= k < i ==> self.panes@[k].id != id,
            decreases self.panes@.len() - i,
        {
            if self.panes[i].id == id {
                proof {
                    let c = choose|k: int| 0 <= k < self.panes@.len() && self.panes@[k].id == id;
                    if c != i {
                        if c < i {
                            assert(self.panes@[c].id != self.panes@[i as int].id);
                        } else {
                            assert(self.panes@[i as int].id != self.panes@[c].id);
                        }
                    }
                }
                return Some(self.panes[i]);
            }
            i = i + 1;
        }
        None
    }

    fn valid_pointer_autoscroll(&self) -> (a: Option<Autoscroll>)
        requires
            self.wf(),
        ensures
            a == self.spec_valid_pointer_autoscroll(),
    {
        let scroll = match self.pointer_autoscroll {
            Some(scroll) => scroll,
            None => return None,
        };
        let (pane, buffer) = match scroll.drag {
            PointerDrag::Selection { pane, buffer, .. } => (pane, buffer),
            _ => return None,
        };
        let shows = match self.find_pane(pane) {
            Some(p) => p.buffer == buffer && p.terminal.is_none(),
            None => false,
        };
        if self.pointer_drag == Some(scroll.drag) && self.active_pane == pane && shows && self.mode
            != Mode::Command && !self.input_overlay && !self.macro_replay_pending {
            Some(scroll)
        } else {
            None
        }
    }

    /// How long until the held edge drag scrolls again, in milliseconds from
    /// `now`; nothing when no edge drag is active.
    pub fn pointer_autoscroll_delay(&self, now: u64) -> (d: Option<u64>)
        requires
            self.wf(),
        ensures
            d == (match self.spec_valid_pointer_autoscroll() {
                Some(scroll) => Some(
                    if scroll.due > now {
                        (scroll.due - now) as u64
                    } else {
                        0u64
                    },
                ),
                None => None::<u64>,
            }),
    {
        match self.valid_pointer_autoscroll() {
            Some(scroll) => Some(scroll.due.saturating_sub(now)),
            None => None,
        }
    }

    /// Whether the terminal that asked for an external edit can still be
    /// returned to: it runs, and some pane shows it or covers it.
    pub fn parent_wait_origin_available(&self, terminal: usize) -> (b: bool)
        requires
            self.wf(),
        ensures
            b == (terminal_live(self.terminals@, terminal) && exists|i: int|
                0 <= i < self.panes@.len() && pane_shows_terminal(
                    #[trigger] self.panes@[i],
                    terminal,
                )),
    {
        if !self.terminal_is_live(terminal) {
            return false;
        }
        let mut i: usize = 0;
        while i < self.panes.len()
            invariant
                terminal_live(self.terminals@, terminal),
                i <= self.panes@.len(),
                forall|k: int| 0 <= k < i ==> !pane_shows_terminal(#[trigger] self.panes@[k], terminal),
            decreases self.panes@.len() - i,
        {
            let p = self.panes[i];
            let covered = match p.covered_terminal {
                Some(c) => c.1 == terminal,
                None => false,
            };
            if p.terminal == Some(terminal) || covered {
                assert(pane_shows_terminal(self.panes@[i as int], terminal));
                return true;
            }
            i = i + 1;
        }
        false
    }

    /// Whether terminal `terminal` runs.
    pub(crate) fn terminal_is_live(&self, terminal: usize) -> (b: bool)
        requires
            self.wf(),
        ensures
            b == terminal_live(self.terminals@, terminal),
    {
        let mut i: usize = 0;
        while i < self.terminals.len()
            invariant
                self.wf(),
                i <= self.terminals@.len(),
                forall|k: int| 0 <= k < i ==> self.terminals@[k].id != terminal,
            decreases self.terminals@.len() - i,
        {
            if self.terminals[i].id == terminal {
                proof {
                    assert forall|k: int|
                        0 <= k < self.terminals@.len() && self.terminals@[k].id == terminal implies k
                        == i by {
                        if k < i {
                        } else if k > i {
                            assert(self.terminals@[i as int].id != self.terminals@[k].id);
                        }
                    }
                }
                return self.terminals[i].live;
            }
            i = i + 1;
        }
        false
    }

    /// Replaces the set of waited buffers, forgetting the origins of any
    /// buffer no longer waited on.
    pub fn set_parent_wait_buffers(&mut self, buffers: HashMap<usize, usize>)
        requires
            old(self).wf(),
        ensures
            final(self).wf(),
            final(self).parent_wait_buffers@ == buffers@,
            final(self).parent_wait_origins@ == retained_origins(
                old(self).parent_wait_origins@,
                buffers@,
            ),
            final(self).parent_wait_actions@ == old(self).parent_wait_actions@,
            final(self).panes@ == old(self).panes@,
            final(self).terminals@ == old(self).terminals@,
    {
        let mut kept: Vec<(usize, (usize, usize))> = Vec::new();
        let mut i: usize = 0;
        let ghost origins = self.parent_wait_origins@;
        let ghost pred = |entry: (usize, (usize, usize))| buffers@.contains_key(entry.0);
        proof {
            reveal(Seq::filter);
            assert(origins.take(0).filter(pred) =~= Seq::<(usize, (usize, usize))>::empty());
        }
        while i < self.parent_wait_origins.len()
            invariant
                pred == (|entry: (usize, (usize, usize))| buffers@.contains_key(entry.0)),
                origins == self.parent_wait_origins@,
                origins_unique(origins),
                i <= origins.len(),
                kept@ == origins.take(i as int).filter(pred),
                forall|a: int, b: int|
                    0 <= a < b < kept@.len() ==> #[trigger] kept@[a].0 != #[trigger] kept@[b].0,
                forall|a: int|
                    0 <= a < kept@.len() ==> exists|k: int|
                        0 <= k < i && origins[k] == #[trigger] kept@[a],
            decreases origins.len() - i,
        {
            let entry = self.parent_wait_origins[i];
            proof {
                assert(origins.take(i + 1).drop_last() == origins.take(i as int));
                reveal(Seq::filter);
                assert(origins.take(i + 1) == origins.take(i as int).push(entry));
            }
            let keep = buffers.contains_key(&entry.0);
            assert(keep == buffers@.contains_key(entry.0));
            assert(keep == pred(entry));
            if keep {
                proof {
                    assert forall|a: int| 0 <= a < kept@.len() implies kept@[a].0 != entry.0 by {
                        let k = choose|k: int| 0 <= k < i && origins[k] == kept@[a];
                        assert(origins[k].0 != origins[i as int].0);
                    }
                }
                kept.push(entry);
                assert(kept@ == origins.take(i + 1).filter(pred)) by {
                    reveal(Seq::filter);
                }
            } else {
                assert(kept@ == origins.take(i + 1).filter(pred)) by {
                    reveal(Seq::filter);
                }
            }
            i = i + 1;
        }
        assert(origins.take(origins.len() as int) == origins);
        self.parent_wait_origins = kept;
        self.parent_wait_buffers = buffers;
    }

    /// Takes the completed and cancelled waits for the host to answer.
    pub fn take_parent_wait_actions(&mut self) -> (actions: Vec<(usize, bool)>)
        ensures
            actions@ == old(self).parent_wait_actions@,
            final(self).parent_wait_actions@ == Seq::<(usize, bool)>::empty(),
            *final(self) == (App { parent_wait_actions: final(self).parent_wait_actions, ..*old(self) }),
    {
        let mut actions: Vec<(usize, bool)> = Vec::new();
        std::mem::swap(&mut actions, &mut self.parent_wait_actions);
        actions
    }
}

/// Where the entry of `buffer` sits among `origins`, if it has one.
pub open spec fn origin_index(origins: Seq<(usize, (usize, usize))>, buffer: usize) -> Option<int> {
    if exists|i: int| 0 <= i < origins.len() && origins[i].0 == buffer {
        Some(choose|i: int| 0 <= i < origins.len() && origins[i].0 == buffer)
    } else {
        None
    }
}

/// What finishing the parent-terminal wait of the active buffer did.
#[derive(Clone, Copy, Debug, PartialEq, Eq)]
pub enum ParentWaitStep {
    /// The buffer is not waited on, or a terminal is active: not the
    /// wait's key.
    NotWaiting,
    /// A document write is still pending; nothing changed.
    WritePending,
    /// Refused; the status line says why.
    Refused,
    /// The host discards the buffer's changes, then asks again.
    Discard(usize),
    /// The wait ended, completed or cancelled; where the origin pane still
    /// shows the buffer and its live terminal is shown nowhere else, the host
    /// activates that pane and shows the terminal again.
    Finished { buffer: usize, cancel: bool, return_to: Option<(usize, usize)> },
}

/// Whether the wait of `buffer` can return to `origin`: its pane still
/// shows the buffer, the terminal is alive, and no other pane shows it.
pub open spec fn origin_returnable(app: App, buffer: usize, origin: (usize, usize)) -> bool {
    &&& app.pane_with_id(origin.0) matches Some(p) && p.terminal is None && p.buffer == buffer
    &&& terminal_live(app.terminals@, origin.1)
    &&& forall|i: int|
        0 <= i < app.panes@.len() && (#[trigger] app.panes@[i]).id != origin.0 ==> app.panes@[i].terminal
            != Some(origin.1)
}

impl App {
    /// With pane ids unique, the pane with a given id is the one at any
    /// index holding it.
    proof fn lemma_pane_with_id(&self, id: usize, k: int)
        requires
            self.wf(),
            0 <= k < self.panes@.len(),
            self.panes@[k].id == id,
        ensures
            self.pane_with_id(id) == Some(self.panes@[k]),
    {
        let c = choose|i: int| 0 <= i < self.panes@.len() && self.panes@[i].id == id;
        if c < k {
            assert(self.panes@[c].id != self.panes@[k].id);
        } else if c > k {
            assert(self.panes@[k].id != self.panes@[c].id);
        }
    }

    /// Removes the origin recorded for `buffer`, handing it back.
    #[verifier::rlimit(60)]
    fn take_parent_wait_origin(&mut self, buffer: usize) -> (r: Option<(usize, usize)>)
        requires
            origins_unique(old(self).parent_wait_origins@),
        ensures
            origins_unique(final(self).parent_wait_origins@),
            match origin_index(old(self).parent_wait_origins@, buffer) {
                Some(i) => r == Some(old(self).parent_wait_origins@[i].1)
                    && final(self).parent_wait_origins@ == old(self).parent_wait_origins@.remove(i),
                None => r is None && final(self).parent_wait_origins@ == old(self).parent_wait_origins@,
            },
            *final(self) == (App { parent_wait_origins: final(self).parent_wait_origins, ..*old(self) }),
    {
        let mut j: usize = 0;
        while j < self.parent_wait_origins.len()
            invariant
                j <= self.parent_wait_origins@.len(),
                forall|k: int| 0 <= k < j ==> self.parent_wait_origins@[k].0 != buffer,
            ensures
                j <= self.parent_wait_origins@.len(),
                forall|k: int| 0 <= k < j ==> self.parent_wait_origins@[k].0 != buffer,
                j < self.parent_wait_origins@.len() ==> self.parent_wait_origins@[j as int].0
                    == buffer,
            decreases self.parent_wait_origins@.len() - j,
        {
            if self.parent_wait_origins[j].0 == buffer {
                break;
            }
            j = j + 1;
        }
        if j == self.parent_wait_origins.len() {
            return None;
        }
        let ghost o = self.parent_wait_origins@;
        proof {
            let c = choose|i: int| 0 <= i < o.len() && o[i].0 == buffer;
            assert(c == j as int) by {
                if c < j {
                } else if c > j {
                    assert(o[j as int].0 != o[c].0);
                }
            }
        }
        let entry = self.parent_wait_origins.remove(j);
        proof {
            let n = self.parent_wait_origins@;
            assert forall|a: int, b: int| 0 <= a < b < n.len() implies #[trigger] n[a].0 != #[trigger] n[b].0 by {
                let oa = if a < j { a } else { a + 1 };
                let ob = if b < j { b } else { b + 1 };
                assert(n[a] == o[oa]);
                assert(n[b] == o[ob]);
            }
        }
        Some(entry.1)
    }

    /// Whether the wait of `buffer` can return to `origin`.
    fn origin_is_returnable(&self, buffer: usize, origin: (usize, usize)) -> (b: bool)
        requires
            self.wf(),
        ensures
            b == origin_returnable(*self, buffer, origin),
    {
        let mut found = false;
        let mut i: usize = 0;
        while i < self.panes.len()
            invariant
                self.wf(),
                i <= self.panes@.len(),
                found == (exists|k: int| 0 <= k < i && self.panes@[k].id == origin.0 && self.panes@[k].terminal is None && self.panes@[k].buffer == buffer),
                forall|k: int| 0 <= k < i && (#[trigger] self.panes@[k]).id != origin.0 ==> self.panes@[k].terminal != Some(origin.1),
            decreases self.panes@.len() - i,
        {
            let p = self.panes[i];
            if p.id != origin.0 && p.terminal == Some(origin.1) {
                return false;
            }
            if p.id == origin.0 && p.terminal.is_none() && p.buffer == buffer {
                found = true;
            }
            i = i + 1;
        }
        proof {
            if found {
                let k = choose|k: int| 0 <= k < self.panes@.len() && self.panes@[k].id == origin.0 && self.panes@[k].terminal is None && self.panes@[k].buffer == buffer;
                self.lemma_pane_with_id(origin.0, k);
            } else {
                if self.pane_with_id(origin.0) matches Some(p) {
                    let k = choose|k: int| 0 <= k < self.panes@.len() && self.panes@[k].id == origin.0;
                    self.lemma_pane_with_id(origin.0, k);
                }
            }
        }
        found && self.terminal_is_live(origin.1)
    }

    /// Ends the parent-terminal wait of the active buffer (`:wq`, or a
    /// cancel): refused while a captured revision of it is still being
    /// written, while the buffer has unsaved changes and is not being
    /// cancelled, or when another request shares the buffer; a cancel with
    /// changes first has the host discard them. Otherwise the wait is
    /// answered, forgotten with its origin, and the status line says so.
    pub fn complete_parent_wait(&mut self, cancel: bool) -> (r: ParentWaitStep)
        requires
            old(self).wf(),
            old(self).active().buffer < old(self).buffers@.len(),
        ensures
            final(self).wf(),
            r is Finished ==> final(self).active() == old(self).active()
                && !final(self).parent_wait_buffers@.contains_key(final(self).active().buffer),
            ({
                let buffer = old(self).active().buffer;
                let waits = old(self).parent_wait_buffers@;
                if old(self).buffers@[buffer as int].mutation_pending {
                    r == ParentWaitStep::WritePending && *final(self) == *old(self)
                } else if old(self).active().terminal is Some || !waits.contains_key(buffer) {
                    r == ParentWaitStep::NotWaiting && *final(self) == *old(self)
                } else if old(self).buffers@[buffer as int].dirty && !cancel {
                    r == ParentWaitStep::Refused && final(self).status_error && final(self).status@
                        == "unsaved changes · :wq saves and returns to terminal"@
                } else if old(self).buffers@[buffer as int].dirty && waits[buffer] > 1 {
                    r == ParentWaitStep::Refused && final(self).status_error && final(self).status@
                        == "another pending request shares this buffer; save before canceling"@
                } else if old(self).buffers@[buffer as int].dirty {
                    r == ParentWaitStep::Discard(buffer) && *final(self) == *old(self)
                } else {
                    let origin = match origin_index(old(self).parent_wait_origins@, buffer) {
                        Some(i) => Some(old(self).parent_wait_origins@[i].1),
                        None => None,
                    };
                    &&& r == ParentWaitStep::Finished {
                        buffer,
                        cancel,
                        return_to: match origin {
                            Some(o) => if origin_returnable(*old(self), buffer, o) {
                                Some(o)
                            } else {
                                None
                            },
                            None => None,
                        },
                    }
                    &&& final(self).parent_wait_actions@ == old(self).parent_wait_actions@.push((buffer, cancel))
                    &&& final(self).parent_wait_buffers@ == waits.remove(buffer)
                    &&& final(self).parent_wait_origins@ == match origin_index(old(self).parent_wait_origins@, buffer) {
                        Some(i) => old(self).parent_wait_origins@.remove(i),
                        None => old(self).parent_wait_origins@,
                    }
                    &&& !final(self).status_error
                    &&& final(self).status@ == (if cancel {
                        "external editor request canceled"@
                    } else {
                        "external edit completed"@
                    })
                    &&& final(self).panes@ == old(self).panes@
                    &&& final(self).active_pane == old(self).active_pane
                }
            }),
    {
        let pane = self.active_pane_snapshot();
        if self.buffers[pane.buffer].mutation_pending {
            return ParentWaitStep::WritePending;
        }
        let buffer = pane.buffer;
        if pane.terminal.is_some() || !self.parent_wait_buffers.contains_key(&buffer) {
            return ParentWaitStep::NotWaiting;
        }
        if self.buffers[buffer].dirty {
            if !cancel {
                self.status = String::from_str("unsaved changes · :wq saves and returns to terminal");
                self.status_error = true;
                return ParentWaitStep::Refused;
            }
            let shared = match self.parent_wait_buffers.get(&buffer) {
                Some(n) => *n > 1,
                None => false,
            };
            if shared {
                self.status = String::from_str(
                    "another pending request shares this buffer; save before canceling",
                );
                self.status_error = true;
                return ParentWaitStep::Refused;
            }
            return ParentWaitStep::Discard(buffer);
        }
        let ghost before = *self;
        let origin = self.take_parent_wait_origin(buffer);
        let return_to = match origin {
            Some(o) => if self.origin_is_returnable(buffer, o) {
                Some(o)
            } else {
                None
            },
            None => None,
        };
        self.parent_wait_actions.push((buffer, cancel));
        self.parent_wait_buffers.remove(&buffer);
        self.status = if cancel {
            String::from_str("external editor request canceled")
        } else {
            String::from_str("external edit completed")
        };
        self.status_error = false;
        ParentWaitStep::Finished { buffer, cancel, return_to }
    }
}

/// What the invoking plugin call captured of the foreground.
#[derive(Clone, Copy, Debug, PartialEq, Eq, Structural)]
pub struct CapturedContext {
    /// The user action the call belongs to.
    pub action: Option<u64>,
    pub foreground_allowed: bool,
    pub attachment: u64,
    pub foreground: u64,
    pub pane: usize,
    pub buffer: usize,
    pub terminal: Option<usize>,
}

/// Why a plugin may not act in the foreground.
#[derive(Clone, Copy, Debug, PartialEq, Eq, Structural)]
pub enum ForegroundError {
    /// No frontend is attached.
    NoFrontend,
    /// The invoking context changed.
    ContextChanged,
}

/// What the host does about terminals whose output the finder has not read.
#[derive(Clone, Debug)]
pub enum FinderRefresh {
    /// Nothing now.
    Nothing,
    /// Re-read these terminals' name-mode items.
    Names(Vec<usize>),
    /// Start a content pass over these terminals.
    Contents(Vec<usize>),
}

impl App {
    /// The index in `panes` of the pane with id `id`.
    pub open spec fn pane_index(&self, id: usize) -> int {
        choose|i: int| 0 <= i < self.panes@.len() && self.panes@[i].id == id
    }

    /// The active pane.
    pub open spec fn active(&self) -> Pane {
        self.pane_with_id(self.active_pane)->0
    }

    /// The first pane, in layout order, that shows or covers `terminal`.
    pub open spec fn first_pane_showing(&self, terminal: usize) -> Option<int> {
        if exists|i: int| 0 <= i < self.panes@.len() && pane_shows_terminal(self.panes@[i], terminal) {
            Some(
                choose|i: int|
                    0 <= i < self.panes@.len() && pane_shows_terminal(self.panes@[i], terminal)
                        && forall|k: int|
                        0 <= k < i ==> !pane_shows_terminal(#[trigger] self.panes@[k], terminal),
            )
        } else {
            None
        }
    }

    /// Starts waiting, on behalf of terminal `terminal`, for `buffers` to be
    /// edited: every buffer records the first pane showing the terminal as
    /// where it returns to, that pane becomes active, and the first buffer is
    /// shown in it over the terminal, in Normal mode.
    #[verifier::rlimit(60)]
    pub fn begin_parent_wait(&mut self, terminal: usize, buffers: &Vec<usize>) -> (r: Result<(), ParentWaitError>)
        requires
            old(self).wf(),
        ensures
            final(self).wf(),
            old(self).first_pane_showing(terminal) is None ==> r == Err::<(), ParentWaitError>(
                ParentWaitError::OriginNotVisible,
            ) && *final(self) == *old(self),
            old(self).first_pane_showing(terminal) is Some && !terminal_live(
                old(self).terminals@,
                terminal,
            ) ==> r == Err::<(), ParentWaitError>(ParentWaitError::OriginExited) && *final(self)
                == *old(self),
            old(self).first_pane_showing(terminal) matches Some(i) ==> terminal_live(
                old(self).terminals@,
                terminal,
            ) ==> {
                let pane = old(self).panes@[i].id;
                &&& r is Ok
                &&& final(self).parent_wait_origins@ == record_origins(
                    old(self).parent_wait_origins@,
                    buffers@,
                    (pane, terminal),
                )
                &&& final(self).active_pane == pane
                &&& final(self).terminals@ == old(self).terminals@
                &&& final(self).panes@.len() == old(self).panes@.len()
                &&& buffers@.len() == 0 ==> final(self).panes@ == old(self).panes@
                    && final(self).mode == old(self).mode
                &&& buffers@.len() > 0 ==> {
                    &&& final(self).panes@ == old(self).panes@.update(
                        i,
                        Pane {
                            buffer: buffers@[0],
                            terminal: None,
                            covered_terminal: Some((buffers@[0], terminal)),
                            ..old(self).panes@[i]
                        },
                    )
                    &&& final(self).mode == Mode::Normal
                    &&& final(self).status@ == ":wq saves and returns to terminal"@
                }
            },
    {
        let mut i: usize = 0;
        while i < self.panes.len()
            invariant
                i <= self.panes@.len(),
                forall|k: int| 0 <= k < i ==> !pane_shows_terminal(#[trigger] self.panes@[k], terminal),
            ensures
                i <= self.panes@.len(),
                forall|k: int| 0 <= k < i ==> !pane_shows_terminal(#[trigger] self.panes@[k], terminal),
                i < self.panes@.len() ==> pane_shows_terminal(self.panes@[i as int], terminal),
            decreases self.panes@.len() - i,
        {
            let p = self.panes[i];
            let covered = match p.covered_terminal {
                Some(c) => c.1 == terminal,
                None => false,
            };
            if p.terminal == Some(terminal) || covered {
                break;
            }
            i = i + 1;
        }
        if i == self.panes.len() {
            return Err(ParentWaitError::OriginNotVisible);
        }
        proof {
            let panes = self.panes@;
            assert(pane_shows_terminal(panes[i as int], terminal) && forall|k: int|
                0 <= k < i ==> !pane_shows_terminal(#[trigger] panes[k], terminal));
            let c = self.first_pane_showing(terminal)->0;
            assert(c == i as int) by {
                if c < i {
                    assert(!pane_shows_terminal(panes[c], terminal));
                } else if c > i {
                    assert(!pane_shows_terminal(panes[i as int], terminal));
                }
            }
        }
        if !self.terminal_is_live(terminal) {
            return Err(ParentWaitError::OriginExited);
        }
        let pane = self.panes[i].id;
        let mut k: usize = 0;
        let ghost start = self.parent_wait_origins@;
        let ghost before = *self;
        while k < buffers.len()
            invariant
                *self == (App { parent_wait_origins: self.parent_wait_origins, ..before }),
                k <= buffers@.len(),
                origins_unique(self.parent_wait_origins@),
                self.parent_wait_origins@ == record_origins(
                    start,
                    buffers@.take(k as int),
                    (pane, terminal),
                ),
            decreases buffers@.len() - k,
        {
            self.record_parent_wait_origin(buffers[k], (pane, terminal));
            assert(buffers@.take(k + 1).drop_last() == buffers@.take(k as int));
            k = k + 1;
        }
        assert(buffers@.take(buffers@.len() as int) == buffers@);
        self.active_pane = pane;
        if buffers.len() > 0 {
            let first = buffers[0];
            let mut shown = self.panes[i];
            shown.buffer = first;
            shown.terminal = None;
            shown.covered_terminal = Some((first, terminal));
            self.panes.set(i, shown);
            self.mode = Mode::Normal;
            self.status = String::from_str(":wq saves and returns to terminal");
            self.status_error = false;
        }
        proof {
            assert(self.panes@[i as int].id == pane);
            assert(self.panes@[self.pane_index(pane)].id == pane);
        }
        Ok(())
    }

    /// Records `buffer` as returning to `origin`.
    fn record_parent_wait_origin(&mut self, buffer: usize, origin: (usize, usize))
        requires
            origins_unique(old(self).parent_wait_origins@),
        ensures
            origins_unique(final(self).parent_wait_origins@),
            final(self).parent_wait_origins@ == record_origin(
                old(self).parent_wait_origins@,
                buffer,
                origin,
            ),
            *final(self) == (App {
                parent_wait_origins: final(self).parent_wait_origins,
                ..*old(self)
            }),
    {
        let mut j: usize = 0;
        while j < self.parent_wait_origins.len()
            invariant
                j <= self.parent_wait_origins@.len(),
                forall|k: int| 0 <= k < j ==> self.parent_wait_origins@[k].0 != buffer,
            ensures
                j <= self.parent_wait_origins@.len(),
                forall|k: int| 0 <= k < j ==> self.parent_wait_origins@[k].0 != buffer,
                j < self.parent_wait_origins@.len() ==> self.parent_wait_origins@[j as int].0
                    == buffer,
            decreases self.parent_wait_origins@.len() - j,
        {
            if self.parent_wait_origins[j].0 == buffer {
                break;
            }
            j = j + 1;
        }
        if j < self.parent_wait_origins.len() {
            proof {
                let o = self.parent_wait_origins@;
                let c = choose|i: int| 0 <= i < o.len() && o[i].0 == buffer;
                assert(c == j as int) by {
                    if c < j {
                    } else if c > j {
                        assert(o[j as int].0 != o[c].0);
                    }
                }
            }
            self.parent_wait_origins.set(j, (buffer, origin));
        } else {
            self.parent_wait_origins.push((buffer, origin));
        }
    }

    /// Whether a plugin has an input surface open.
    pub fn plugin_input_active(&self) -> (b: bool)
        ensures
            b == self.plugins.input is Some,
    {
        self.plugins.input.is_some()
    }

    /// Records whether a frontend is attached; a change starts a new
    /// attachment generation, so plugin calls captured under the old one no
    /// longer reach the foreground.
    pub fn note_plugin_frontend(&mut self, attached: bool)
        requires
            old(self).plugins.frontend_attached != attached ==> old(self).plugins.attachment_generation < u64::MAX,
        ensures
            old(self).plugins.frontend_attached == attached ==> *final(self) == *old(self),
            old(self).plugins.frontend_attached != attached ==> {
                &&& final(self).plugins.frontend_attached == attached
                &&& final(self).plugins.attachment_generation == old(self).plugins.attachment_generation + 1
                &&& final(self).plugins.foreground_generation == old(self).plugins.foreground_generation
                &&& final(self).plugins.input == old(self).plugins.input
                &&& final(self).plugins.presentation_dirty == old(self).plugins.presentation_dirty
                &&& *final(self) == (App { plugins: final(self).plugins, ..*old(self) })
            },
    {
        if self.plugins.frontend_attached != attached {
            self.plugins.frontend_attached = attached;
            self.plugins.attachment_generation = self.plugins.attachment_generation + 1;
        }
    }

    /// Whether a plugin call that captured `context` may act in the
    /// foreground: a frontend must be attached, and the context must still
    /// be current (allowed, same attachment and foreground generations,
    /// same active pane, buffer and terminal).
    pub fn plugin_foreground(&self, context: &CapturedContext) -> (r: Result<(), ForegroundError>)
        requires
            self.wf(),
        ensures
            !self.plugins.frontend_attached ==> r == Err::<(), ForegroundError>(
                ForegroundError::NoFrontend,
            ),
            self.plugins.frontend_attached ==> (r is Ok <==> (context.foreground_allowed
                && self.plugins.attachment_generation == context.attachment
                && self.plugins.foreground_generation == context.foreground && self.active_pane
                == context.pane && self.active().buffer == context.buffer
                && self.active().terminal == context.terminal)),
            r is Err ==> self.plugins.frontend_attached ==> r == Err::<(), ForegroundError>(
                ForegroundError::ContextChanged,
            ),
    {
        if !self.plugins.frontend_attached {
            return Err(ForegroundError::NoFrontend);
        }
        let active = self.find_pane(self.active_pane);
        let active = match active {
            Some(p) => p,
            None => return Err(ForegroundError::ContextChanged),
        };
        if !context.foreground_allowed || self.plugins.attachment_generation != context.attachment
            || self.plugins.foreground_generation != context.foreground || self.active_pane
            != context.pane || active.buffer != context.buffer || active.terminal
            != context.terminal {
            return Err(ForegroundError::ContextChanged);
        }
        Ok(())
    }

    /// Whether another bounded live-content pass should be scheduled: one is
    /// in flight, or the finder waits on a name rank.
    pub fn resource_finder_scan_pending(&self) -> (b: bool)
        ensures
            b == (self.finder_content_scan is Some || (self.finder matches Some(f)
                && f.name_rank_pending)),
    {
        self.finder_content_scan.is_some() || match &self.finder {
            Some(f) => f.name_rank_pending,
            None => false,
        }
    }

    /// Whether the pass in flight is refilling rows it has just dropped.
    pub fn finder_scan_refills(&self) -> (b: bool)
        ensures
            b == (self.finder_content_scan matches Some(scan) && scan.refilling),
    {
        match &self.finder_content_scan {
            Some(scan) => scan.refilling,
            None => false,
        }
    }

    /// Whether any terminal has written something the finder has not read.
    pub fn finder_terminals_dirty(&self) -> (b: bool)
        ensures
            b == (self.finder_dirty_terminals@.len() > 0),
    {
        self.finder_dirty_terminals.len() > 0
    }

    /// Records that terminal `terminal` wrote something the open finder has
    /// not read; nothing when no finder is open.
    pub fn note_terminal_finder_change(&mut self, terminal: usize)
        ensures
            old(self).finder is None ==> *final(self) == *old(self),
            old(self).finder is Some ==> {
                &&& final(self).finder_dirty_terminals@.contains(terminal)
                &&& forall|t: usize|
                    #![trigger final(self).finder_dirty_terminals@.contains(t)]
                    t != terminal ==> (final(self).finder_dirty_terminals@.contains(t)
                        <==> old(self).finder_dirty_terminals@.contains(t))
                &&& *final(self) == (App {
                    finder_dirty_terminals: final(self).finder_dirty_terminals,
                    ..*old(self)
                })
            },
    {
        if self.finder.is_none() {
            return;
        }
        let mut i: usize = 0;
        while i < self.finder_dirty_terminals.len()
            invariant
                i <= self.finder_dirty_terminals@.len(),
                forall|k: int| 0 <= k < i ==> self.finder_dirty_terminals@[k] != terminal,
            decreases self.finder_dirty_terminals@.len() - i,
        {
            if self.finder_dirty_terminals[i] == terminal {
                assert(self.finder_dirty_terminals@[i as int] == terminal);
                return;
            }
            i = i + 1;
        }
        let ghost previous = self.finder_dirty_terminals@;
        self.finder_dirty_terminals.push(terminal);
        proof {
            let now = self.finder_dirty_terminals@;
            assert(now[now.len() - 1] == terminal);
            assert forall|t: usize| t != terminal implies (#[trigger] now.contains(t)
                <==> previous.contains(t)) by {
                if now.contains(t) {
                    let k = choose|k: int| 0 <= k < now.len() && now[k] == t;
                    assert(previous[k] == t);
                }
                if previous.contains(t) {
                    let k = choose|k: int| 0 <= k < previous.len() && previous[k] == t;
                    assert(now[k] == t);
                }
            }
        }
    }

    /// Decides what to do about terminals whose output the finder has not
    /// read. Nothing while none are dirty, a content pass is in flight, or
    /// the picker is ranking; with no finder open the dirty set is simply
    /// dropped; otherwise the dirty terminals are taken, to be re-read as
    /// name items or by a content pass, as the finder's mode says.
    pub fn refresh_finder_terminals(&mut self) -> (r: FinderRefresh)
        ensures
            (old(self).finder_dirty_terminals@.len() == 0 || old(self).finder_content_scan is Some
                || old(self).picker_ranking == Some(true)) ==> r is Nothing && *final(self) == *old(self),
            !(old(self).finder_dirty_terminals@.len() == 0 || old(self).finder_content_scan is Some
                || old(self).picker_ranking == Some(true)) ==> {
                &&& final(self).finder_dirty_terminals@.len() == 0
                &&& *final(self) == (App {
                    finder_dirty_terminals: final(self).finder_dirty_terminals,
                    ..*old(self)
                })
                &&& match old(self).finder {
                    None => r is Nothing,
                    Some(f) => match f.mode {
                        FinderMode::Names => r matches FinderRefresh::Names(t) && t@
                            == old(self).finder_dirty_terminals@,
                        FinderMode::Contents => r matches FinderRefresh::Contents(t) && t@
                            == old(self).finder_dirty_terminals@,
                    },
                }
            },
    {
        let ranking = match self.picker_ranking {
            Some(r) => r,
            None => false,
        };
        if self.finder_dirty_terminals.len() == 0 || self.finder_content_scan.is_some() || ranking {
            return FinderRefresh::Nothing;
        }
        let mode = match &self.finder {
            Some(f) => f.mode,
            None => {
                self.finder_dirty_terminals = Vec::new();
                return FinderRefresh::Nothing;
            },
        };
        let mut dirty: Vec<usize> = Vec::new();
        std::mem::swap(&mut dirty, &mut self.finder_dirty_terminals);
        match mode {
            FinderMode::Names => FinderRefresh::Names(dirty),
            FinderMode::Contents => FinderRefresh::Contents(dirty),
        }
    }
}

impl App {
    /// A fresh editor: one pane showing one clean scratch buffer, in Normal
    /// mode, under `grammar`, with nothing pending, open or waited on.
    pub fn new(keymap: Keymap, grammar: GrammarKind) -> (app: App)
        ensures
            app.wf(),
            app.mode == Mode::Normal,
            app.keymap == keymap,
            app.grammar.kind == grammar,
            app.grammar.pending@.len() == 0,
            app.grammar.count is None,
            !app.grammar.awaiting_character,
            app.active_pane == 0,
            app.panes@ == seq![Pane { id: 0, buffer: 0, terminal: None, covered_terminal: None }],
            app.terminals@.len() == 0,
            app.buffers@.len() == 1,
            !app.should_quit,
            app.persistent_exit_request is None,
            app.pointer_drag is None,
            app.pointer_autoscroll is None,
            app.parent_wait_origins@.len() == 0,
            app.parent_wait_actions@.len() == 0,
            app.plugins.input is None,
            !app.plugins.frontend_attached,
            app.plugins.attachment_generation == 0,
            app.prompt_kind == PromptKind::Command,
            app.command@.len() == 0,
            app.command_cursor == 0,
    {
        let mut panes: Vec<Pane> = Vec::new();
        panes.push(Pane { id: 0, buffer: 0, terminal: None, covered_terminal: None });
        let mut buffers: Vec<BufferInfo> = Vec::new();
        buffers.push(
            BufferInfo {
                kind: BufferKind::Scratch,
                dirty: false,
                empty: true,
                language: None,
                syntax_ready: false,
                syntax_stale: false,
                revision: 0,
                provider: None,
                len_bytes: 0,
                mutation_pending: false,
            },
        );
        let app = App {
            mode: Mode::Normal,
            grammar: Grammar {
                kind: grammar,
                pending: Vec::new(),
                count: None,
                awaiting_character: false,
                preferred_mode: None,
            },
            keymap,
            should_quit: false,
            persistent_exit_request: None,
            status: String::new(),
            status_error: false,
            active_pane: 0,
            panes,
            terminals: Vec::new(),
            buffers,
            closed_buffers: Vec::new(),
            pointer_drag: None,
            pointer_autoscroll: None,
            input_overlay: false,
            macro_replay_pending: false,
            recording_macro: false,
            parent_wait_buffers: HashMap::new(),
            parent_wait_origins: Vec::new(),
            parent_wait_actions: Vec::new(),
            plugins: Plugins {
                frontend_attached: false,
                attachment_generation: 0,
                foreground_generation: 0,
                input: None,
                input_finished: Vec::new(),
                presentation_dirty: false,
                providers: ProviderApprovals {
                    overwrite: None,
                    overwrite_decision: None,
                    reload: None,
                    reload_decision: None,
                    reload_intents: Vec::new(),
                    document_saves: Vec::new(),
                    save_intents: Vec::new(),
                },
                filesystem: FsReview { confirmation: None, finished: Vec::new() },
            },
            finder: None,
            finder_content_scan: None,
            finder_dirty_terminals: Vec::new(),
            picker_ranking: None,
            prompt_kind: PromptKind::Command,
            prompt_origin_mode: Mode::Normal,
            prompt_revision: 0,
            command: Vec::new(),
            command_cursor: 0,
            command_selection: 0,
            programs: Vec::new(),
            default_program: None,
            system_program: None,
            program_action_menu: None,
            finder_hint_count: 0,
            fs_confirmation: None,
            buffer_discard_confirmation: None,
            git_branch_deletion: None,
            git_branch_switch: None,
            git_worktree_removal: None,
            git_pull_rebase: None,
            directory_reload_confirmation: None,
            git_discard_confirmation: None,
            file_reload_confirmation: None,
            confirmation_revision: 0,
            lsp: LspState {
                config_enable: true,
                config_servers: Vec::new(),
                workspace_allowed: false,
                trust_error: None,
                trust_store: None,
                attached: false,
                servers: Vec::new(),
                documents: Vec::new(),
                diagnostics: Vec::new(),
                list_open: false,
                list_actions: Vec::new(),
            },
            syntax_errors: Vec::new(),
            has_git: false,
            git_discovery_failure: None,
            git_repository: false,
            git_discovery_complete: false,
            git_discovery_error: false,
            persistent_session: CommandAvailability::Available,
            menus: Menus {
                terminal: None,
                session: None,
                buffer: None,
                path_popup: None,
                path: None,
                context: None,
            },
            workspace_rows: Vec::new(),
            picker_query: None,
            picker_cursor: 0,
            picker_preview: true,
            next_file_scan_id: 1,
            list: None,
            completion: None,
            active_action_id: None,
        };
        assert(app.panes@[0].id == 0);
        app
    }
}

} // verus!
