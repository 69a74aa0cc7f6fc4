//! The completion popup's keys.

use vstd::prelude::*;

use crate::app::{App, BufferKind};
use crate::keys::{KeyCode, KeyStroke};

verus! {

/// Where completion candidates come from.
#[derive(Clone, Copy, Debug, PartialEq, Eq, Structural)]
pub enum CompletionSource {
    /// Words seen in the workspace, offered as a prefix is typed.
    Word,
    /// A language server.
    Language,
    /// Entries under a typed path.
    Path,
}

/// What a key did to the completion popup.
#[derive(Clone, Copy, Debug, PartialEq, Eq, Structural)]
pub enum CompletionAction {
    /// No popup, or the key was not the popup's.
    Passed,
    Dismissed,
    /// The host steps the selection down (`true`) or up.
    Step(bool),
    /// The host inserts the selected candidate.
    Accept,
}

/// The answer of a popup key: the action, and whether the key was the
/// popup's (otherwise ordinary Insert-mode handling goes on with it).
#[derive(Clone, Copy, Debug, PartialEq, Eq, Structural)]
pub struct CompletionStep {
    pub action: CompletionAction,
    pub consumed: bool,
}

/// What `key` does to a popup of `source`, `directory` telling whether the
/// active buffer is a directory: Escape dismisses it and still reaches the
/// editor for word completion and in a directory buffer; Control-c
/// dismisses it; Down, Up, Control-n and Control-p step; Tab accepts; Enter
/// dismisses it and goes on as a newline; anything else is not the popup's.
pub open spec fn spec_completion_step(key: KeyStroke, source: CompletionSource, directory: bool) -> CompletionStep {
    let control = key.modifiers.control;
    match key.code {
        KeyCode::Escape => CompletionStep {
            action: CompletionAction::Dismissed,
            consumed: source != CompletionSource::Word && !directory,
        },
        KeyCode::Down => CompletionStep { action: CompletionAction::Step(true), consumed: true },
        KeyCode::Up => CompletionStep { action: CompletionAction::Step(false), consumed: true },
        KeyCode::Tab => CompletionStep { action: CompletionAction::Accept, consumed: true },
        KeyCode::Enter => CompletionStep { action: CompletionAction::Dismissed, consumed: false },
        KeyCode::Char(c) => if control && c == 'c' {
            CompletionStep { action: CompletionAction::Dismissed, consumed: true }
        } else if control && c == 'n' {
            CompletionStep { action: CompletionAction::Step(true), consumed: true }
        } else if control && c == 'p' {
            CompletionStep { action: CompletionAction::Step(false), consumed: true }
        } else {
            CompletionStep { action: CompletionAction::Passed, consumed: false }
        },
        _ => CompletionStep { action: CompletionAction::Passed, consumed: false },
    }
}

impl App {
    /// Whether the open completion offers entries under a typed path.
    pub fn path_completion_active(&self) -> (b: bool)
        ensures
            b == (self.completion == Some(CompletionSource::Path)),
    {
        match self.completion {
            Some(CompletionSource::Path) => true,
            _ => false,
        }
    }
}

impl App {
    /// A key while the completion popup may be open. Dismissing closes it
    /// here; stepping and accepting are the host's, which owns the
    /// candidates.
    pub fn handle_completion_key(&mut self, key: KeyStroke) -> (r: CompletionStep)
        requires
            old(self).wf(),
            old(self).active().buffer < old(self).buffers@.len(),
        ensures
            match old(self).completion {
                None => r == (CompletionStep { action: CompletionAction::Passed, consumed: false })
                    && *final(self) == *old(self),
                Some(source) => {
                    &&& r == spec_completion_step(
                        key,
                        source,
                        old(self).buffers@[old(self).active().buffer as int].kind
                            == BufferKind::Directory,
                    )
                    &&& r.action == CompletionAction::Dismissed ==> *final(self) == (App {
                        completion: None,
                        ..*old(self)
                    })
                    &&& r.action != CompletionAction::Dismissed ==> *final(self) == *old(self)
                },
            },
    {
        let Some(source) = self.completion else {
            return CompletionStep { action: CompletionAction::Passed, consumed: false };
        };
        let buffer = self.active_pane_snapshot().buffer;
        let directory = self.buffers[buffer].kind == BufferKind::Directory;
        let control = key.modifiers.control;
        let step = match key.code {
            KeyCode::Escape => CompletionStep {
                action: CompletionAction::Dismissed,
                consumed: source != CompletionSource::Word && !directory,
            },
            KeyCode::Down => CompletionStep { action: CompletionAction::Step(true), consumed: true },
            KeyCode::Up => CompletionStep { action: CompletionAction::Step(false), consumed: true },
            KeyCode::Tab => CompletionStep { action: CompletionAction::Accept, consumed: true },
            KeyCode::Enter => CompletionStep { action: CompletionAction::Dismissed, consumed: false },
            KeyCode::Char(c) => {
                if control && c == 'c' {
                    CompletionStep { action: CompletionAction::Dismissed, consumed: true }
                } else if control && c == 'n' {
                    CompletionStep { action: CompletionAction::Step(true), consumed: true }
                } else if control && c == 'p' {
                    CompletionStep { action: CompletionAction::Step(false), consumed: true }
                } else {
                    CompletionStep { action: CompletionAction::Passed, consumed: false }
                }
            },
            _ => CompletionStep { action: CompletionAction::Passed, consumed: false },
        };
        if step.action == CompletionAction::Dismissed {
            self.completion = None;
        }
        step
    }
}

} // verus!
