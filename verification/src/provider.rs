//! Host-owned approvals for a buffer backed by a remote provider: letting
//! the captured text overwrite the remote copy, and choosing how to adopt
//! remote text on reload.

use vstd::prelude::*;

use crate::app::{App, CapturedContext, ForegroundError};
use crate::keys::{InputEvent, KeyCode, KeyStroke, Modifiers};
use crate::plugin_fs::bumped;
use crate::strings::{push_str, string_of};

verus! {

/// The remote document a provider backs a buffer with.
pub struct ProviderDocument {
    /// Which remote resource it is.
    pub identity: String,
    /// The provider's generation of that resource.
    pub generation: String,
    /// Bumped whenever the saved baseline changes.
    pub baseline_epoch: u64,
}

/// A remote overwrite awaiting approval.
pub struct ProviderOverwrite {
    pub job: String,
    pub buffer: usize,
    /// The buffer revision the captured text was taken at.
    pub expected_revision: u64,
    pub context: CapturedContext,
    /// How the remote document is named to the person.
    pub label: String,
    /// The provider replaces the remote copy atomically.
    pub atomic_replace: bool,
}

/// What was decided about a remote overwrite.
pub struct ProviderOverwriteDecision {
    pub job: String,
    /// The context to continue in, present only when an unmodified Enter
    /// accepted.
    pub context: Option<CapturedContext>,
}

/// How remote text read on reload is adopted.
#[derive(Clone, Copy, Debug, PartialEq, Eq, Structural)]
pub enum ProviderReloadChoice {
    /// Replace the local text with the remote text.
    ReloadRemote,
    /// Keep the local edits and accept the remote text as the new baseline.
    KeepLocal,
}

/// A reload queued for the host to read, with what it was taken against.
pub struct ProviderReloadIntent {
    pub buffer: usize,
    pub expected_revision: u64,
    pub context: CapturedContext,
    pub identity: String,
    pub generation: String,
    pub epoch: u64,
}

/// A remote reload awaiting the person's choice.
pub struct ProviderReload {
    pub job: String,
    pub intent: ProviderReloadIntent,
    pub label: String,
    /// The highlighted row: reload, keep local, or cancel.
    pub selected: usize,
}

/// What was chosen about a remote reload.
pub struct ProviderReloadDecision {
    pub job: String,
    /// `None` when cancelled.
    pub choice: Option<ProviderReloadChoice>,
    /// The context to continue in, present only when a choice was made.
    pub context: Option<CapturedContext>,
}

/// What a provider save closes once it is accepted.
#[derive(Clone, Copy, Debug, PartialEq, Eq, Structural)]
pub enum ProviderSaveClose {
    /// The view quits.
    QuitView,
    /// The buffer closes, or its parent-terminal wait ends.
    CloseBuffer,
}

/// What an accepted provider save goes on to do, with the context it was
/// asked in.
#[derive(Clone, Copy, Debug, PartialEq, Eq, Structural)]
pub struct ProviderSaveContinuation {
    pub action: ProviderSaveClose,
    pub pane: usize,
    pub buffer: usize,
    pub attachment: u64,
    pub foreground: u64,
}

/// A save queued for the host to write.
pub struct ProviderSaveIntent {
    pub buffer: usize,
    /// The revision the save was asked at: the host refuses edits made
    /// after it.
    pub expected_revision: u64,
    pub continuation: Option<ProviderSaveContinuation>,
}

/// What finishing an accepted save's continuation did.
#[derive(Clone, Copy, Debug, PartialEq, Eq)]
pub enum SaveContinuationStep {
    /// There was none, or the editor moved on since it was asked.
    Nothing,
    /// The host quits the view.
    QuitView,
    /// The buffer's parent-terminal wait took the close.
    ParentWait(crate::app::ParentWaitStep),
    /// The buffer closes: the host retires the buffer given.
    Closed(Option<usize>),
}

/// Why a remote overwrite could not be put up for approval.
#[derive(Clone, Copy, Debug, PartialEq, Eq, Structural)]
pub enum OverwriteError {
    /// The invoking context may not act in the foreground.
    Foreground(ForegroundError),
    /// A macro is being recorded or replayed.
    InsideMacro,
    /// The buffer is no longer the provider document at that revision.
    TargetChanged,
    /// Something else owns input, or an earlier decision is undelivered.
    Pending,
    /// The job or label is not fit to show.
    InvalidLabel,
}

/// Why a remote reload could not be queued or put up for a choice.
#[derive(Clone, Copy, Debug, PartialEq, Eq, Structural)]
pub enum ReloadError {
    /// The invoking context may not act in the foreground.
    Foreground(ForegroundError),
    /// The active pane shows no provider document.
    NotProvider,
    /// A captured revision of the document is still being written or read.
    MutationPending,
    /// Four reloads are already queued.
    QueueFull,
    /// A macro is being recorded or replayed.
    InsideMacro,
    /// The document is larger than the reload limit.
    TooLarge,
    /// The context is not over the reloaded buffer.
    TargetChanged,
    /// The reloaded buffer closed.
    DocumentClosed,
    /// The buffer was edited, or its remote resource rebound.
    BindingChanged,
    /// Something else owns input, or an earlier choice is undelivered.
    Pending,
    /// The job or label is not fit to show.
    InvalidLabel,
}

/// The most reloads queued at once.
pub const RELOAD_QUEUE_LIMIT: usize = 4;

/// The largest document, in bytes, that can be reloaded.
pub const RELOAD_BYTE_LIMIT: usize = 8388608;

impl ReloadError {
    /// The error's message.
    pub fn message(&self) -> (s: String)
        ensures
            s@ == (match *self {
                ReloadError::Foreground(ForegroundError::NoFrontend) => "No attached frontend"@,
                ReloadError::Foreground(ForegroundError::ContextChanged) => "Invoking context changed"@,
                ReloadError::NotProvider => "Reload requires a provider document"@,
                ReloadError::MutationPending => "Document operation is pending"@,
                ReloadError::QueueFull => "Remote reload queue is full"@,
                ReloadError::InsideMacro => "Remote reload requires input outside a macro"@,
                ReloadError::TooLarge => "Document exceeds the 8 MiB reload limit"@,
                ReloadError::TargetChanged => "Remote reload target changed"@,
                ReloadError::DocumentClosed => "Remote reload document closed"@,
                ReloadError::BindingChanged => "Document or resource binding changed during reload"@,
                ReloadError::Pending => "An input surface or previous reload decision is pending"@,
                ReloadError::InvalidLabel => "Invalid remote reload label"@,
            }),
    {
        match self {
            ReloadError::Foreground(e) => e.message(),
            ReloadError::NotProvider => String::from_str("Reload requires a provider document"),
            ReloadError::MutationPending => String::from_str("Document operation is pending"),
            ReloadError::QueueFull => String::from_str("Remote reload queue is full"),
            ReloadError::InsideMacro => String::from_str("Remote reload requires input outside a macro"),
            ReloadError::TooLarge => String::from_str("Document exceeds the 8 MiB reload limit"),
            ReloadError::TargetChanged => String::from_str("Remote reload target changed"),
            ReloadError::DocumentClosed => String::from_str("Remote reload document closed"),
            ReloadError::BindingChanged => String::from_str(
                "Document or resource binding changed during reload",
            ),
            ReloadError::Pending => String::from_str(
                "An input surface or previous reload decision is pending",
            ),
            ReloadError::InvalidLabel => String::from_str("Invalid remote reload label"),
        }
    }
}

/// What the replacement risks, as the approval says it.
pub open spec fn replacement_note(atomic: bool) -> Seq<char> {
    if atomic {
        "Replacement is atomic, but changes made remotely since the saved version was read can still be overwritten."@
    } else {
        "Replacement is not atomic. Changes made remotely since the saved version was read can be overwritten, and a failed write can leave partial content."@
    }
}

/// The text of the approval for overwriting `label`.
pub open spec fn overwrite_message(label: Seq<char>, atomic: bool) -> Seq<char> {
    "Overwrite "@ + label + " with the captured Runyte text?\nThis provider cannot guarantee conditional writes.\n"@
        + replacement_note(atomic) + "\nEnter confirms.\nEscape cancels."@
}

impl ForegroundError {
    /// The error's message.
    pub fn message(&self) -> (s: String)
        ensures
            s@ == (match *self {
                ForegroundError::NoFrontend => "No attached frontend"@,
                ForegroundError::ContextChanged => "Invoking context changed"@,
            }),
    {
        match self {
            ForegroundError::NoFrontend => String::from_str("No attached frontend"),
            ForegroundError::ContextChanged => String::from_str("Invoking context changed"),
        }
    }
}

impl OverwriteError {
    /// The error's message.
    pub fn message(&self) -> (s: String)
        ensures
            s@ == (match *self {
                OverwriteError::Foreground(ForegroundError::NoFrontend) => "No attached frontend"@,
                OverwriteError::Foreground(ForegroundError::ContextChanged) => "Invoking context changed"@,
                OverwriteError::InsideMacro => "Remote overwrite confirmation requires input outside a macro"@,
                OverwriteError::TargetChanged => "Remote overwrite target changed"@,
                OverwriteError::Pending => "An input surface or previous overwrite decision is pending"@,
                OverwriteError::InvalidLabel => "Invalid remote overwrite label"@,
            }),
    {
        match self {
            OverwriteError::Foreground(e) => e.message(),
            OverwriteError::InsideMacro => String::from_str(
                "Remote overwrite confirmation requires input outside a macro",
            ),
            OverwriteError::TargetChanged => String::from_str("Remote overwrite target changed"),
            OverwriteError::Pending => String::from_str(
                "An input surface or previous overwrite decision is pending",
            ),
            OverwriteError::InvalidLabel => String::from_str("Invalid remote overwrite label"),
        }
    }
}

impl ProviderOverwrite {
    /// The approval's text: what is overwritten, what the replacement
    /// risks, and which keys answer.
    pub fn message(&self) -> (s: String)
        ensures
            s@ == overwrite_message(self.label@, self.atomic_replace),
    {
        let mut out: Vec<char> = Vec::new();
        push_str(&mut out, "Overwrite ");
        push_str(&mut out, self.label.as_str());
        push_str(
            &mut out,
            " with the captured Runyte text?\nThis provider cannot guarantee conditional writes.\n",
        );
        if self.atomic_replace {
            push_str(
                &mut out,
                "Replacement is atomic, but changes made remotely since the saved version was read can still be overwritten.",
            );
        } else {
            push_str(
                &mut out,
                "Replacement is not atomic. Changes made remotely since the saved version was read can be overwritten, and a failed write can leave partial content.",
            );
        }
        push_str(&mut out, "\nEnter confirms.\nEscape cancels.");
        string_of(&out)
    }
}

/// Whether `key` answers an approval with yes: Enter, unmodified.
pub open spec fn approves(key: KeyStroke) -> bool {
    key.code == KeyCode::Enter && key.modifiers.spec_is_empty()
}

impl App {
    /// Whether `c` may act in the foreground now.
    pub open spec fn in_foreground(&self, c: CapturedContext) -> bool {
        &&& self.plugins.frontend_attached
        &&& c.foreground_allowed
        &&& self.plugins.attachment_generation == c.attachment
        &&& self.plugins.foreground_generation == c.foreground
        &&& self.active_pane == c.pane
        &&& self.active().buffer == c.buffer
        &&& self.active().terminal == c.terminal
    }

    /// Whether buffer `buffer` is open, backed by a provider, at revision
    /// `revision`.
    pub open spec fn provider_at(&self, buffer: usize, revision: u64) -> bool {
        &&& buffer < self.buffers@.len()
        &&& !self.closed_buffers@.contains(buffer)
        &&& self.buffers@[buffer as int].provider is Some
        &&& self.buffers@[buffer as int].revision == revision
    }

    /// Whether `key` dismisses an approval: Escape, Ctrl-C or the leader.
    pub open spec fn dismisses(&self, key: KeyStroke) -> bool {
        key.code == KeyCode::Escape || (key.code == KeyCode::Char('c') && key.modifiers == Modifiers {
            shift: false,
            control: true,
            alt: false,
            super_key: false,
        }) || key.spec_canonical_for_binding() == self.keymap.leader
    }

    /// Whether the overwrite `o` awaiting approval still stands: no macro
    /// runs, its context may act in the foreground over its buffer, which
    /// is still the provider document at the captured revision, and
    /// nothing else owns input.
    pub open spec fn overwrite_stands(&self, o: ProviderOverwrite) -> bool {
        &&& !self.recording_macro
        &&& !self.macro_replay_pending
        &&& self.in_foreground(o.context)
        &&& o.context.terminal is None
        &&& self.provider_at(o.buffer, o.expected_revision)
        &&& !self.input_overlay
        &&& self.mode != crate::keys::Mode::Command
    }

    /// Whether buffer `buffer` is open, backed by a provider, at revision
    /// `revision`.
    fn is_provider_at(&self, buffer: usize, revision: u64) -> (b: bool)
        ensures
            b == self.provider_at(buffer, revision),
    {
        buffer < self.buffers.len() && !self.is_closed(buffer) && self.buffers[buffer].provider.is_some()
            && self.buffers[buffer].revision == revision
    }

    /// Whether `key` dismisses an approval.
    fn is_dismissal(&self, key: KeyStroke) -> (b: bool)
        ensures
            b == self.dismisses(key),
    {
        key.code == KeyCode::Escape || (key.code == KeyCode::Char('c') && key.modifiers
            == Modifiers::control()) || key.canonical_for_binding() == self.keymap.leader()
    }

    /// Drops the overwrite awaiting approval once it no longer stands; its
    /// job is then decided with no context to continue in.
    pub fn sync_provider_overwrite(&mut self)
        requires
            old(self).wf(),
        ensures
            overwrite_synced(*old(self), *final(self)),
    {
        let stands = match &self.plugins.providers.overwrite {
            Some(o) => !self.recording_macro && !self.macro_replay_pending && self.plugin_foreground(
                &o.context,
            ).is_ok() && o.context.terminal.is_none() && self.is_provider_at(o.buffer, o.expected_revision)
                && !self.input_overlay && self.mode != crate::keys::Mode::Command,
            None => return,
        };
        if stands {
            return;
        }
        let Some(o) = self.plugins.providers.overwrite.take() else {
            return;
        };
        self.plugins.providers.overwrite_decision = Some(ProviderOverwriteDecision { job: o.job, context: None });
        self.confirmation_revision = self.confirmation_revision.wrapping_add(1);
        self.plugins.presentation_dirty = true;
    }
}

/// The refusal of putting an overwrite up for approval in state `a`, if
/// any: see `App::show_provider_overwrite`.
pub open spec fn overwrite_refusal(
    a: App,
    buffer: usize,
    expected_revision: u64,
    context: CapturedContext,
    label_fit: bool,
) -> Option<OverwriteError> {
    if !a.in_foreground(context) {
        Some(
            OverwriteError::Foreground(
                if a.plugins.frontend_attached {
                    ForegroundError::ContextChanged
                } else {
                    ForegroundError::NoFrontend
                },
            ),
        )
    } else if a.recording_macro || a.macro_replay_pending {
        Some(OverwriteError::InsideMacro)
    } else if !(context.buffer == buffer && context.terminal is None && a.provider_at(
        buffer,
        expected_revision,
    )) {
        Some(OverwriteError::TargetChanged)
    } else if a.spec_plugin_has_input_surface() || a.plugins.providers.overwrite_decision is Some || (
    a.plugins.providers.overwrite matches Some(o) && !a.overwrite_stands(o)) {
        Some(OverwriteError::Pending)
    } else if !label_fit {
        Some(OverwriteError::InvalidLabel)
    } else {
        None
    }
}

/// What dropping an overwrite that no longer stands leaves of `before`:
/// `after`.
pub open spec fn overwrite_synced(before: App, after: App) -> bool {
    match before.plugins.providers.overwrite {
        Some(o) => if !before.overwrite_stands(o) {
            &&& after.plugins.providers.overwrite_decision matches Some(d) && d.job == o.job && d.context is None
            &&& after == (App {
                confirmation_revision: bumped(before.confirmation_revision),
                plugins: crate::app::Plugins {
                    providers: crate::app::ProviderApprovals {
                        overwrite: None,
                        overwrite_decision: after.plugins.providers.overwrite_decision,
                        ..before.plugins.providers
                    },
                    presentation_dirty: true,
                    ..before.plugins
                },
                ..before
            })
        } else {
            after == before
        },
        None => after == before,
    }
}

impl App {
    /// Puts the captured text's overwrite of `buffer`'s remote copy up for
    /// approval as job `job`, once an earlier overwrite that no longer
    /// stands is dropped. `label_fit` says whether the job and label passed
    /// the provider's safe-text check. Refused when the context may not act
    /// in the foreground, inside a macro, when the buffer is no longer the
    /// provider document at `expected_revision`, while something else owns
    /// input or an earlier decision is undelivered, or when the label is
    /// unfit; otherwise the approval is shown under a new confirmation
    /// revision.
    #[verifier::rlimit(60)]
    pub fn show_provider_overwrite(
        &mut self,
        job: String,
        buffer: usize,
        expected_revision: u64,
        context: CapturedContext,
        label: String,
        atomic_replace: bool,
        label_fit: bool,
    ) -> (r: Result<(), OverwriteError>)
        requires
            old(self).wf(),
        ensures
            match overwrite_refusal(*old(self), buffer, expected_revision, context, label_fit) {
                Some(e) => r == Err::<(), OverwriteError>(e) && overwrite_synced(*old(self), *final(self)),
                None => {
                    &&& r is Ok
                    &&& *final(self) == (App {
                        confirmation_revision: bumped(old(self).confirmation_revision),
                        plugins: crate::app::Plugins {
                            providers: crate::app::ProviderApprovals {
                                overwrite: Some(
                                    ProviderOverwrite { job, buffer, expected_revision, context, label, atomic_replace },
                                ),
                                ..old(self).plugins.providers
                            },
                            presentation_dirty: true,
                            ..old(self).plugins
                        },
                        status: final(self).status,
                        status_error: false,
                        ..*old(self)
                    })
                    &&& final(self).status@ == "Review the remote overwrite before continuing"@
                },
            },
    {
        self.sync_provider_overwrite();
        if let Err(e) = self.plugin_foreground(&context) {
            return Err(OverwriteError::Foreground(e));
        }
        if self.recording_macro || self.macro_replay_pending {
            return Err(OverwriteError::InsideMacro);
        }
        if !(context.buffer == buffer && context.terminal.is_none() && self.is_provider_at(buffer, expected_revision)) {
            return Err(OverwriteError::TargetChanged);
        }
        if self.plugin_has_input_surface() || self.plugins.providers.overwrite_decision.is_some() {
            return Err(OverwriteError::Pending);
        }
        if !label_fit {
            return Err(OverwriteError::InvalidLabel);
        }
        self.plugins.providers.overwrite = Some(
            ProviderOverwrite { job, buffer, expected_revision, context, label, atomic_replace },
        );
        self.confirmation_revision = self.confirmation_revision.wrapping_add(1);
        self.plugins.presentation_dirty = true;
        self.set_status(String::from_str("Review the remote overwrite before continuing"));
        Ok(())
    }

    /// Drops the overwrite awaiting approval, and an undelivered decision,
    /// that belong to job `job`.
    #[verifier::rlimit(80)]
    pub fn clear_provider_overwrite(&mut self, job: &str)
        ensures
            ({
                let o = old(self).plugins.providers.overwrite;
                let d = old(self).plugins.providers.overwrite_decision;
                let clears = o matches Some(x) && x.job@ == job@;
                &&& final(self).plugins.providers.overwrite == (if clears {
                    None
                } else {
                    o
                })
                &&& final(self).plugins.providers.overwrite_decision == (if d matches Some(x) && x.job@ == job@ {
                    None
                } else {
                    d
                })
                &&& final(self).confirmation_revision == (if clears {
                    bumped(old(self).confirmation_revision)
                } else {
                    old(self).confirmation_revision
                })
                &&& final(self).plugins.presentation_dirty == (clears || old(self).plugins.presentation_dirty)
                &&& *final(self) == (App {
                    confirmation_revision: final(self).confirmation_revision,
                    plugins: crate::app::Plugins {
                        providers: crate::app::ProviderApprovals {
                            overwrite: final(self).plugins.providers.overwrite,
                            overwrite_decision: final(self).plugins.providers.overwrite_decision,
                            ..old(self).plugins.providers
                        },
                        presentation_dirty: final(self).plugins.presentation_dirty,
                        ..old(self).plugins
                    },
                    ..*old(self)
                })
            }),
    {
        let clears = match &self.plugins.providers.overwrite {
            Some(o) => crate::validation::str_is(&o.job, job),
            None => false,
        };
        if clears {
            self.plugins.providers.overwrite = None;
            self.confirmation_revision = self.confirmation_revision.wrapping_add(1);
            self.plugins.presentation_dirty = true;
        }
        let decided = match &self.plugins.providers.overwrite_decision {
            Some(d) => crate::validation::str_is(&d.job, job),
            None => false,
        };
        if decided {
            self.plugins.providers.overwrite_decision = None;
        }
    }

    /// Hands over the undelivered overwrite decision, if any.
    pub fn take_provider_overwrite_decisions(&mut self) -> (r: Vec<ProviderOverwriteDecision>)
        ensures
            r@ == (match old(self).plugins.providers.overwrite_decision {
                Some(d) => seq![d],
                None => Seq::empty(),
            }),
            *final(self) == (App {
                plugins: crate::app::Plugins {
                    providers: crate::app::ProviderApprovals {
                        overwrite_decision: None,
                        ..old(self).plugins.providers
                    },
                    ..old(self).plugins
                },
                ..*old(self)
            }),
    {
        let mut r: Vec<ProviderOverwriteDecision> = Vec::new();
        if let Some(d) = self.plugins.providers.overwrite_decision.take() {
            r.push(d);
        }
        r
    }

    /// An input while the overwrite awaits approval. An unmodified Enter
    /// approves and Escape, Ctrl-C or the leader cancels: either decides
    /// the job, approval alone with the context to continue in, under the
    /// action being handled, and the approval closes under a new
    /// confirmation revision. Anything else leaves it open. Either way the
    /// context continues in the foreground generation now current.
    #[verifier::rlimit(80)]
    pub fn handle_provider_overwrite_input(&mut self, input: &InputEvent)
        ensures
            match old(self).plugins.providers.overwrite {
                None => *final(self) == *old(self),
                Some(o) => {
                    let accepted = *input matches InputEvent::Key(k) && approves(k);
                    let cancelled = *input matches InputEvent::Key(k) && old(self).dismisses(k);
                    let context = CapturedContext { foreground: old(self).plugins.foreground_generation, ..o.context };
                    if accepted || cancelled {
                        &&& final(self).plugins.providers.overwrite is None
                        &&& final(self).plugins.providers.overwrite_decision matches Some(d) && d.job == o.job
                            && d.context == (if accepted {
                            Some(CapturedContext { action: old(self).active_action_id, ..context })
                        } else {
                            None
                        })
                        &&& *final(self) == (App {
                            confirmation_revision: bumped(old(self).confirmation_revision),
                            plugins: crate::app::Plugins {
                                providers: crate::app::ProviderApprovals {
                                    overwrite: None,
                                    overwrite_decision: final(self).plugins.providers.overwrite_decision,
                                    ..old(self).plugins.providers
                                },
                                presentation_dirty: true,
                                ..old(self).plugins
                            },
                            ..*old(self)
                        })
                    } else {
                        &&& final(self).plugins.providers.overwrite matches Some(n) && n == (ProviderOverwrite {
                            context,
                            job: n.job,
                            label: n.label,
                            ..o
                        }) && n.job@ == o.job@ && n.label@ == o.label@
                        &&& *final(self) == (App {
                            plugins: crate::app::Plugins {
                                providers: crate::app::ProviderApprovals {
                                    overwrite: final(self).plugins.providers.overwrite,
                                    ..old(self).plugins.providers
                                },
                                ..old(self).plugins
                            },
                            ..*old(self)
                        })
                    }
                },
            },
    {
        let (accepted, cancelled) = match input {
            InputEvent::Key(k) => (
                k.code == KeyCode::Enter && k.modifiers.is_empty(),
                self.is_dismissal(*k),
            ),
            _ => (false, false),
        };
        let Some(mut surface) = self.plugins.providers.overwrite.take() else {
            return;
        };
        surface.context.foreground = self.plugins.foreground_generation;
        if accepted || cancelled {
            surface.context.action = self.active_action_id;
            let context = if accepted {
                Some(surface.context)
            } else {
                None
            };
            self.plugins.providers.overwrite_decision = Some(
                ProviderOverwriteDecision { job: surface.job, context },
            );
            self.confirmation_revision = self.confirmation_revision.wrapping_add(1);
            self.plugins.presentation_dirty = true;
        } else {
            self.plugins.providers.overwrite = Some(surface);
        }
    }
}

/// The refusal of reload `intent` in state `a`, if any: the context may
/// not act in the foreground, is not over the intent's buffer, the buffer
/// closed, or it was edited or its remote resource rebound since.
pub open spec fn intent_refusal(a: App, intent: ProviderReloadIntent) -> Option<ReloadError> {
    if !a.in_foreground(intent.context) {
        Some(
            ReloadError::Foreground(
                if a.plugins.frontend_attached {
                    ForegroundError::ContextChanged
                } else {
                    ForegroundError::NoFrontend
                },
            ),
        )
    } else if !(intent.context.buffer == intent.buffer && intent.context.terminal is None) {
        Some(ReloadError::TargetChanged)
    } else if !(intent.buffer < a.buffers@.len() && !a.closed_buffers@.contains(intent.buffer)) {
        Some(ReloadError::DocumentClosed)
    } else if !(a.buffers@[intent.buffer as int].revision == intent.expected_revision
        && (a.buffers@[intent.buffer as int].provider matches Some(d) && d.identity@ == intent.identity@
        && d.generation@ == intent.generation@ && d.baseline_epoch == intent.epoch)) {
        Some(ReloadError::BindingChanged)
    } else {
        None
    }
}

/// What dropping a reload choice that no longer stands leaves of `before`:
/// `after`.
pub open spec fn reload_synced(before: App, after: App) -> bool {
    match before.plugins.providers.reload {
        Some(r) => if intent_refusal(before, r.intent) is Some || before.spec_plugin_has_input_surface() {
            &&& after.plugins.providers.reload_decision matches Some(d) && d.job == r.job && d.choice is None
                && d.context is None
            &&& after == (App {
                confirmation_revision: bumped(before.confirmation_revision),
                plugins: crate::app::Plugins {
                    providers: crate::app::ProviderApprovals {
                        reload: None,
                        reload_decision: after.plugins.providers.reload_decision,
                        ..before.plugins.providers
                    },
                    presentation_dirty: true,
                    ..before.plugins
                },
                ..before
            })
        } else {
            after == before
        },
        None => after == before,
    }
}

/// The choice the reload surface's row `selected` stands for: reload,
/// keep local, or none (cancel).
pub open spec fn reload_choice(selected: usize) -> Option<ProviderReloadChoice> {
    if selected == 0 {
        Some(ProviderReloadChoice::ReloadRemote)
    } else if selected == 1 {
        Some(ProviderReloadChoice::KeepLocal)
    } else {
        None
    }
}

/// Where key `k` moves the reload surface's selection `selected`, if it
/// moves it: down or back round its three rows.
pub open spec fn reload_selection_after(k: KeyStroke, selected: usize) -> usize {
    let control = k.modifiers == Modifiers { shift: false, control: true, alt: false, super_key: false };
    if (k.modifiers.spec_is_empty() && (k.code == KeyCode::Down || k.code == KeyCode::Tab)) || (control
        && k.code == KeyCode::Char('n')) {
        ((selected + 1) % 3) as usize
    } else if k.code == KeyCode::BackTab || (k.modifiers.spec_is_empty() && k.code == KeyCode::Up) || (
    control && k.code == KeyCode::Char('p')) {
        ((selected + 2) % 3) as usize
    } else {
        selected
    }
}

impl App {
    /// Checks reload `intent` against the editor now: see `intent_refusal`.
    pub fn validate_provider_reload_intent(&self, intent: &ProviderReloadIntent) -> (r: Result<(), ReloadError>)
        requires
            self.wf(),
        ensures
            match intent_refusal(*self, *intent) {
                Some(e) => r == Err::<(), ReloadError>(e),
                None => r is Ok,
            },
    {
        if let Err(e) = self.plugin_foreground(&intent.context) {
            return Err(ReloadError::Foreground(e));
        }
        if !(intent.context.buffer == intent.buffer && intent.context.terminal.is_none()) {
            return Err(ReloadError::TargetChanged);
        }
        if !(intent.buffer < self.buffers.len() && !self.is_closed(intent.buffer)) {
            return Err(ReloadError::DocumentClosed);
        }
        let buffer = &self.buffers[intent.buffer];
        let bound = buffer.revision == intent.expected_revision && match &buffer.provider {
            Some(d) => crate::validation::str_is(&d.identity, intent.identity.as_str())
                && crate::validation::str_is(&d.generation, intent.generation.as_str())
                && d.baseline_epoch == intent.epoch,
            None => false,
        };
        if !bound {
            return Err(ReloadError::BindingChanged);
        }
        Ok(())
    }

    /// A new confirmation revision, and a redraw.
    fn provider_reload_presentation_changed(&mut self)
        ensures
            *final(self) == (App {
                confirmation_revision: bumped(old(self).confirmation_revision),
                plugins: crate::app::Plugins { presentation_dirty: true, ..old(self).plugins },
                ..*old(self)
            }),
    {
        self.confirmation_revision = self.confirmation_revision.wrapping_add(1);
        self.plugins.presentation_dirty = true;
    }

    /// Drops the reload choice once its intent no longer checks out or
    /// something else owns input; its job is then decided with no choice
    /// and no context.
    #[verifier::rlimit(60)]
    pub fn sync_provider_reload(&mut self)
        requires
            old(self).wf(),
        ensures
            reload_synced(*old(self), *final(self)),
    {
        let stands = match &self.plugins.providers.reload {
            Some(r) => self.validate_provider_reload_intent(&r.intent).is_ok() && !self.plugin_has_input_surface(),
            None => return,
        };
        if stands {
            return;
        }
        let Some(r) = self.plugins.providers.reload.take() else {
            return;
        };
        self.plugins.providers.reload_decision = Some(
            ProviderReloadDecision { job: r.job, choice: None, context: None },
        );
        self.provider_reload_presentation_changed();
    }

    /// Puts reload `intent` up for the person's choice as job `job`, once
    /// an earlier choice that no longer stands is dropped. `label_fit` says
    /// whether the job and label passed the provider's safe-text check.
    /// Refused when the intent no longer checks out, while something else
    /// owns input or an earlier choice is undelivered, or when the label is
    /// unfit; otherwise the choice opens on its cancel row under a new
    /// confirmation revision.
    #[verifier::rlimit(80)]
    pub fn show_provider_reload(
        &mut self,
        job: String,
        intent: ProviderReloadIntent,
        label: String,
        label_fit: bool,
    ) -> (r: Result<(), ReloadError>)
        requires
            old(self).wf(),
        ensures
            ({
                let decided = old(self).plugins.providers.reload_decision is Some || (
                old(self).plugins.providers.reload matches Some(x) && (intent_refusal(
                    *old(self),
                    x.intent,
                ) is Some || old(self).spec_plugin_has_input_surface()));
                let refusal = if intent_refusal(*old(self), intent) is Some {
                    intent_refusal(*old(self), intent)
                } else if old(self).spec_plugin_has_input_surface() || decided {
                    Some(ReloadError::Pending)
                } else if !label_fit {
                    Some(ReloadError::InvalidLabel)
                } else {
                    None
                };
                match refusal {
                    Some(e) => r == Err::<(), ReloadError>(e) && reload_synced(*old(self), *final(self)),
                    None => {
                        &&& r is Ok
                        &&& *final(self) == (App {
                            confirmation_revision: bumped(old(self).confirmation_revision),
                            plugins: crate::app::Plugins {
                                providers: crate::app::ProviderApprovals {
                                    reload: Some(ProviderReload { job, intent, label, selected: 2 }),
                                    ..old(self).plugins.providers
                                },
                                presentation_dirty: true,
                                ..old(self).plugins
                            },
                            status: final(self).status,
                            status_error: false,
                            ..*old(self)
                        })
                        &&& final(self).status@ == "Choose how to adopt the remote text"@
                    },
                }
            }),
    {
        self.sync_provider_reload();
        self.validate_provider_reload_intent(&intent)?;
        if self.plugin_has_input_surface() || self.plugins.providers.reload_decision.is_some() {
            return Err(ReloadError::Pending);
        }
        if !label_fit {
            return Err(ReloadError::InvalidLabel);
        }
        self.plugins.providers.reload = Some(ProviderReload { job, intent, label, selected: 2 });
        self.provider_reload_presentation_changed();
        self.set_status(String::from_str("Choose how to adopt the remote text"));
        Ok(())
    }

    /// Drops the reload choice, and an undelivered decision, that belong to
    /// job `job`.
    #[verifier::rlimit(80)]
    pub fn clear_provider_reload(&mut self, job: &str)
        ensures
            ({
                let o = old(self).plugins.providers.reload;
                let d = old(self).plugins.providers.reload_decision;
                let clears = o matches Some(x) && x.job@ == job@;
                &&& final(self).plugins.providers.reload == (if clears {
                    None
                } else {
                    o
                })
                &&& final(self).plugins.providers.reload_decision == (if d matches Some(x) && x.job@ == job@ {
                    None
                } else {
                    d
                })
                &&& final(self).confirmation_revision == (if clears {
                    bumped(old(self).confirmation_revision)
                } else {
                    old(self).confirmation_revision
                })
                &&& final(self).plugins.presentation_dirty == (clears || old(self).plugins.presentation_dirty)
                &&& *final(self) == (App {
                    confirmation_revision: final(self).confirmation_revision,
                    plugins: crate::app::Plugins {
                        providers: crate::app::ProviderApprovals {
                            reload: final(self).plugins.providers.reload,
                            reload_decision: final(self).plugins.providers.reload_decision,
                            ..old(self).plugins.providers
                        },
                        presentation_dirty: final(self).plugins.presentation_dirty,
                        ..old(self).plugins
                    },
                    ..*old(self)
                })
            }),
    {
        let clears = match &self.plugins.providers.reload {
            Some(r) => crate::validation::str_is(&r.job, job),
            None => false,
        };
        if clears {
            self.plugins.providers.reload = None;
            self.provider_reload_presentation_changed();
        }
        let decided = match &self.plugins.providers.reload_decision {
            Some(d) => crate::validation::str_is(&d.job, job),
            None => false,
        };
        if decided {
            self.plugins.providers.reload_decision = None;
        }
    }

    /// Hands over the undelivered reload decision, if any.
    pub fn take_provider_reload_decisions(&mut self) -> (r: Vec<ProviderReloadDecision>)
        ensures
            r@ == (match old(self).plugins.providers.reload_decision {
                Some(d) => seq![d],
                None => Seq::empty(),
            }),
            *final(self) == (App {
                plugins: crate::app::Plugins {
                    providers: crate::app::ProviderApprovals {
                        reload_decision: None,
                        ..old(self).plugins.providers
                    },
                    ..old(self).plugins
                },
                ..*old(self)
            }),
    {
        let mut r: Vec<ProviderReloadDecision> = Vec::new();
        if let Some(d) = self.plugins.providers.reload_decision.take() {
            r.push(d);
        }
        r
    }

    /// Hands over the queued reloads, oldest first, leaving none.
    pub fn take_provider_reload_intents(&mut self) -> (r: Vec<ProviderReloadIntent>)
        ensures
            r == old(self).plugins.providers.reload_intents,
            final(self).plugins.providers.reload_intents@.len() == 0,
            *final(self) == (App {
                plugins: crate::app::Plugins {
                    providers: crate::app::ProviderApprovals {
                        reload_intents: final(self).plugins.providers.reload_intents,
                        ..old(self).plugins.providers
                    },
                    ..old(self).plugins
                },
                ..*old(self)
            }),
    {
        let mut r: Vec<ProviderReloadIntent> = Vec::new();
        std::mem::swap(&mut r, &mut self.plugins.providers.reload_intents);
        r
    }
}

/// What key `k` decides on the reload surface with row `selected`
/// highlighted, if it decides: Escape, Ctrl-C or the leader cancels, an
/// unmodified Enter takes the highlighted row's choice.
pub open spec fn reload_finish(a: App, k: KeyStroke, selected: usize) -> Option<Option<ProviderReloadChoice>> {
    if a.dismisses(k) {
        Some(None)
    } else if approves(k) {
        Some(reload_choice(selected))
    } else {
        None
    }
}

/// The refusal of queueing a reload of the active buffer in state `a`, if
/// any: see `App::queue_provider_reload`.
pub open spec fn queue_refusal(a: App) -> Option<ReloadError> {
    let b = a.active().buffer;
    if a.active().terminal is Some {
        Some(ReloadError::NotProvider)
    } else if a.buffers@[b as int].mutation_pending {
        Some(ReloadError::MutationPending)
    } else if a.plugins.providers.reload_intents@.len() >= RELOAD_QUEUE_LIMIT {
        Some(ReloadError::QueueFull)
    } else if a.recording_macro || a.macro_replay_pending {
        Some(ReloadError::InsideMacro)
    } else if a.buffers@[b as int].provider is None {
        Some(ReloadError::NotProvider)
    } else if a.buffers@[b as int].len_bytes > RELOAD_BYTE_LIMIT {
        Some(ReloadError::TooLarge)
    } else if !a.plugins.frontend_attached {
        Some(ReloadError::Foreground(ForegroundError::NoFrontend))
    } else if a.closed_buffers@.contains(b) {
        Some(ReloadError::DocumentClosed)
    } else {
        None
    }
}

impl App {
    /// An input while the reload choice is open. Escape, Ctrl-C or the
    /// leader cancels; an unmodified Enter takes the highlighted row's
    /// choice (reload, keep local, or cancel on the last row): either
    /// decides the job, with the context to continue in when a choice was
    /// made, and closes the surface. Down, Tab and Ctrl-N move the
    /// highlight down round the three rows, Up, Back-Tab and Ctrl-P up.
    /// The intent's context continues in the foreground generation now
    /// current, and a decision or a moved highlight changes the
    /// presentation.
    #[verifier::rlimit(80)]
    pub fn handle_provider_reload_input(&mut self, input: &InputEvent)
        requires
            old(self).plugins.providers.reload matches Some(r) ==> r.selected <= usize::MAX - 2,
        ensures
            match old(self).plugins.providers.reload {
                None => *final(self) == *old(self),
                Some(r) => {
                    let context = CapturedContext { foreground: old(self).plugins.foreground_generation, ..r.intent.context };
                    let intent = ProviderReloadIntent { context, ..r.intent };
                    let finish = match *input {
                        InputEvent::Key(k) => reload_finish(*old(self), k, r.selected),
                        _ => None,
                    };
                    let selected = match *input {
                        InputEvent::Key(k) => reload_selection_after(k, r.selected),
                        _ => r.selected,
                    };
                    match finish {
                        Some(choice) => {
                            &&& final(self).plugins.providers.reload is None
                            &&& final(self).plugins.providers.reload_decision == Some(
                                ProviderReloadDecision {
                                    job: r.job,
                                    choice,
                                    context: if choice is Some {
                                        Some(context)
                                    } else {
                                        None
                                    },
                                },
                            )
                            &&& *final(self) == (App {
                                confirmation_revision: bumped(old(self).confirmation_revision),
                                plugins: crate::app::Plugins {
                                    providers: crate::app::ProviderApprovals {
                                        reload: None,
                                        reload_decision: final(self).plugins.providers.reload_decision,
                                        ..old(self).plugins.providers
                                    },
                                    presentation_dirty: true,
                                    ..old(self).plugins
                                },
                                ..*old(self)
                            })
                        },
                        None => {
                            let changed = selected != r.selected;
                            &&& final(self).plugins.providers.reload == Some(
                                ProviderReload { intent, selected, ..r },
                            )
                            &&& *final(self) == (App {
                                confirmation_revision: if changed {
                                    bumped(old(self).confirmation_revision)
                                } else {
                                    old(self).confirmation_revision
                                },
                                plugins: crate::app::Plugins {
                                    providers: crate::app::ProviderApprovals {
                                        reload: final(self).plugins.providers.reload,
                                        ..old(self).plugins.providers
                                    },
                                    presentation_dirty: changed || old(self).plugins.presentation_dirty,
                                    ..old(self).plugins
                                },
                                ..*old(self)
                            })
                        },
                    }
                },
            },
    {
        let Some(mut surface) = self.plugins.providers.reload.take() else {
            return;
        };
        let previous = surface.selected;
        let (finish, selected) = self.reload_step(input, previous);
        surface.selected = selected;
        surface.intent.context.foreground = self.plugins.foreground_generation;
        let changed = finish.is_some() || selected != previous;
        if let Some(choice) = finish {
            let context = if choice.is_some() {
                Some(surface.intent.context)
            } else {
                None
            };
            self.plugins.providers.reload_decision = Some(
                ProviderReloadDecision { job: surface.job, choice, context },
            );
        } else {
            self.plugins.providers.reload = Some(surface);
        }
        if changed {
            self.provider_reload_presentation_changed();
        }
    }

    /// What `input` does on the reload surface with row `selected`
    /// highlighted: the decision it makes, if any, and the row highlighted
    /// after it.
    fn reload_step(&self, input: &InputEvent, selected: usize) -> (r: (Option<Option<ProviderReloadChoice>>, usize))
        requires
            selected <= usize::MAX - 2,
        ensures
            r.0 == (match *input {
                InputEvent::Key(k) => reload_finish(*self, k, selected),
                _ => None,
            }),
            r.1 == (match *input {
                InputEvent::Key(k) => if r.0 is Some {
                    selected
                } else {
                    reload_selection_after(k, selected)
                },
                _ => selected,
            }),
    {
        let InputEvent::Key(key) = input else {
            return (None, selected);
        };
        let control = key.modifiers == Modifiers::control();
        if self.is_dismissal(*key) {
            (Some(None), selected)
        } else if key.code == KeyCode::Enter && key.modifiers.is_empty() {
            let choice = if selected == 0 {
                Some(ProviderReloadChoice::ReloadRemote)
            } else if selected == 1 {
                Some(ProviderReloadChoice::KeepLocal)
            } else {
                None
            };
            (Some(choice), selected)
        } else if (key.modifiers.is_empty() && (key.code == KeyCode::Down || key.code == KeyCode::Tab))
            || (control && key.code == KeyCode::Char('n')) {
            (None, (selected + 1) % 3)
        } else if key.code == KeyCode::BackTab || (key.modifiers.is_empty() && key.code == KeyCode::Up)
            || (control && key.code == KeyCode::Char('p')) {
            (None, (selected + 2) % 3)
        } else {
            (None, selected)
        }
    }

    /// Queues a reload of the active buffer's provider document for the
    /// host to read, reserving the buffer. Refused when the active pane
    /// shows a terminal, a captured revision is still pending, four
    /// reloads are queued, a macro runs, the buffer has no provider, it is
    /// larger than 8 MiB, no frontend is attached, or the buffer closed.
    /// The intent captures the buffer's revision and remote binding and the
    /// active context, under the action being handled.
    #[verifier::rlimit(80)]
    pub fn queue_provider_reload(&mut self) -> (r: Result<(), ReloadError>)
        requires
            old(self).wf(),
            old(self).active().terminal is None ==> old(self).active().buffer < old(self).buffers@.len(),
        ensures
            match queue_refusal(*old(self)) {
                Some(e) => r == Err::<(), ReloadError>(e) && *final(self) == *old(self),
                None => {
                    let b = old(self).active().buffer;
                    let d = old(self).buffers@[b as int].provider->0;
                    let i = final(self).plugins.providers.reload_intents@.last();
                    &&& r is Ok
                    &&& final(self).plugins.providers.reload_intents@.len() == old(self).plugins.providers.reload_intents@.len() + 1
                    &&& final(self).plugins.providers.reload_intents@.drop_last() == old(self).plugins.providers.reload_intents@
                    &&& i.buffer == b
                    &&& i.expected_revision == old(self).buffers@[b as int].revision
                    &&& i.context == (CapturedContext {
                        action: old(self).active_action_id,
                        foreground_allowed: true,
                        attachment: old(self).plugins.attachment_generation,
                        foreground: old(self).plugins.foreground_generation,
                        pane: old(self).active_pane,
                        buffer: b,
                        terminal: None,
                    })
                    &&& i.identity@ == d.identity@
                    &&& i.generation@ == d.generation@
                    &&& i.epoch == d.baseline_epoch
                    &&& final(self).plugins.providers.document_saves@ == (if old(self).plugins.providers.document_saves@.contains(b) {
                        old(self).plugins.providers.document_saves@
                    } else {
                        old(self).plugins.providers.document_saves@.push(b)
                    })
                    &&& final(self).status@ == "Reading remote text for reload"@
                    &&& *final(self) == (App {
                        plugins: crate::app::Plugins {
                            providers: crate::app::ProviderApprovals {
                                reload_intents: final(self).plugins.providers.reload_intents,
                                document_saves: final(self).plugins.providers.document_saves,
                                ..old(self).plugins.providers
                            },
                            ..old(self).plugins
                        },
                        status: final(self).status,
                        status_error: false,
                        ..*old(self)
                    })
                },
            },
    {
        let active = self.active_pane_snapshot();
        let buffer = active.buffer;
        if active.terminal.is_some() {
            return Err(ReloadError::NotProvider);
        }
        if self.buffers[buffer].mutation_pending {
            return Err(ReloadError::MutationPending);
        }
        if self.plugins.providers.reload_intents.len() >= RELOAD_QUEUE_LIMIT {
            return Err(ReloadError::QueueFull);
        }
        if self.recording_macro || self.macro_replay_pending {
            return Err(ReloadError::InsideMacro);
        }
        let intent = match &self.buffers[buffer].provider {
            Some(d) => ProviderReloadIntent {
                buffer,
                expected_revision: self.buffers[buffer].revision,
                context: CapturedContext {
                    action: self.active_action_id,
                    foreground_allowed: true,
                    attachment: self.plugins.attachment_generation,
                    foreground: self.plugins.foreground_generation,
                    pane: self.active_pane,
                    buffer,
                    terminal: None,
                },
                identity: d.identity.clone(),
                generation: d.generation.clone(),
                epoch: d.baseline_epoch,
            },
            None => return Err(ReloadError::NotProvider),
        };
        if self.buffers[buffer].len_bytes > RELOAD_BYTE_LIMIT {
            return Err(ReloadError::TooLarge);
        }
        self.validate_provider_reload_intent(&intent)?;
        let mut reserved = false;
        let mut k: usize = 0;
        while k < self.plugins.providers.document_saves.len()
            invariant
                k <= self.plugins.providers.document_saves@.len(),
                reserved == exists|j: int| 0 <= j < k && self.plugins.providers.document_saves@[j] == buffer,
            decreases self.plugins.providers.document_saves@.len() - k,
        {
            if self.plugins.providers.document_saves[k] == buffer {
                reserved = true;
            }
            k = k + 1;
        }
        if !reserved {
            self.plugins.providers.document_saves.push(buffer);
        }
        self.plugins.providers.reload_intents.push(intent);
        self.set_status(String::from_str("Reading remote text for reload"));
        Ok(())
    }
}

/// Moving the reload choice's highlight down and then up, by any of the
/// keys that move it, returns it to the row it was on; three moves down go
/// round the three rows.
pub proof fn lemma_reload_selection_round_trip(down: KeyStroke, up: KeyStroke, selected: usize)
    requires
        selected < 3,
        down.modifiers.spec_is_empty() && (down.code == KeyCode::Down || down.code == KeyCode::Tab),
        up.modifiers.spec_is_empty() && up.code == KeyCode::Up,
    ensures
        reload_selection_after(up, reload_selection_after(down, selected)) == selected,
        reload_selection_after(down, reload_selection_after(down, reload_selection_after(down, selected)))
            == selected,
{
}

/// Whether continuation `c` still applies in state `a`: the same
/// frontend attachment and foreground generation, its pane active and
/// showing its buffer rather than a terminal, and that buffer open, clean
/// and with no captured revision pending.
pub open spec fn continuation_applies(a: App, c: ProviderSaveContinuation) -> bool {
    &&& a.plugins.attachment_generation == c.attachment
    &&& a.plugins.foreground_generation == c.foreground
    &&& a.active_pane == c.pane
    &&& a.active().buffer == c.buffer
    &&& a.active().terminal is None
    &&& !a.closed_buffers@.contains(c.buffer)
    &&& !a.buffers@[c.buffer as int].dirty
    &&& !a.buffers@[c.buffer as int].mutation_pending
}

impl App {
    /// Hands over the queued saves, oldest first, leaving none.
    pub fn take_provider_save_intents(&mut self) -> (r: Vec<ProviderSaveIntent>)
        ensures
            r == old(self).plugins.providers.save_intents,
            final(self).plugins.providers.save_intents@.len() == 0,
            *final(self) == (App {
                plugins: crate::app::Plugins {
                    providers: crate::app::ProviderApprovals {
                        save_intents: final(self).plugins.providers.save_intents,
                        ..old(self).plugins.providers
                    },
                    ..old(self).plugins
                },
                ..*old(self)
            }),
    {
        let mut r: Vec<ProviderSaveIntent> = Vec::new();
        std::mem::swap(&mut r, &mut self.plugins.providers.save_intents);
        r
    }

    /// Goes on after an accepted save with `continuation`, when there is
    /// one and it still applies: the view quits, or the buffer's
    /// parent-terminal wait ends, or, when none waits on it, the buffer
    /// closes.
    pub fn finish_provider_save_continuation(
        &mut self,
        continuation: Option<ProviderSaveContinuation>,
    ) -> (r: SaveContinuationStep)
        requires
            old(self).wf(),
            old(self).active().buffer < old(self).buffers@.len(),
        ensures
            match continuation {
                Some(c) if continuation_applies(*old(self), c) => match c.action {
                    ProviderSaveClose::QuitView => r == SaveContinuationStep::QuitView && *final(self) == *old(self),
                    ProviderSaveClose::CloseBuffer => if old(self).parent_wait_buffers@.contains_key(c.buffer) {
                        &&& r matches SaveContinuationStep::ParentWait(
                            crate::app::ParentWaitStep::Finished { buffer, cancel, .. },
                        )
                        &&& buffer == c.buffer && !cancel
                        &&& !final(self).parent_wait_buffers@.contains_key(c.buffer)
                        &&& final(self).wf()
                    } else {
                        r == SaveContinuationStep::Closed(Some(c.buffer)) && *final(self) == *old(self)
                    },
                },
                _ => r == SaveContinuationStep::Nothing && *final(self) == *old(self),
            },
    {
        let Some(c) = continuation else {
            return SaveContinuationStep::Nothing;
        };
        let pane = self.active_pane_snapshot();
        if self.plugins.attachment_generation != c.attachment || self.plugins.foreground_generation != c.foreground
            || self.active_pane != c.pane || pane.buffer != c.buffer || pane.terminal.is_some() || self.is_closed(
            c.buffer,
        ) || self.buffers[c.buffer].dirty || self.buffers[c.buffer].mutation_pending {
            return SaveContinuationStep::Nothing;
        }
        match c.action {
            ProviderSaveClose::QuitView => SaveContinuationStep::QuitView,
            ProviderSaveClose::CloseBuffer => {
                let step = self.complete_parent_wait(false);
                match step {
                    crate::app::ParentWaitStep::NotWaiting => SaveContinuationStep::Closed(
                        self.close_active_buffer(false),
                    ),
                    _ => SaveContinuationStep::ParentWait(step),
                }
            },
        }
    }
}

} // verus!
