//! Language services as the application sees them: the workspace
//! permission that lets servers run, what the command palette can offer,
//! and the status-line summary.

use vstd::prelude::*;
use vstd::string::*;

use crate::app::{App, BufferKind, CommandAvailability, ListAction, LspState, Severity};
use crate::strings::{chars_of, decimal, push_decimal, push_str, string_of};

verus! {

/// An availability as values: nothing when available, else the reason.
pub open spec fn availability_view(a: CommandAvailability) -> Option<Seq<char>> {
    match a {
        CommandAvailability::Available => None,
        CommandAvailability::Unavailable(reason) => Some(reason@),
    }
}

/// Every optional capability the command palette consults, observed at
/// one moment.
pub struct AppCapabilitySnapshot {
    pub syntax: CommandAvailability,
    pub lsp_manager: CommandAvailability,
    pub lsp_document: CommandAvailability,
    pub git_project: CommandAvailability,
    pub git_refresh: CommandAvailability,
    pub persistent_session: CommandAvailability,
}

/// The first entry of `pairs` whose key is `key`, if any.
pub open spec fn lookup(pairs: Seq<(String, String)>, key: Seq<char>) -> Option<int> {
    if exists|i: int| 0 <= i < pairs.len() && pairs[i].0@ == key {
        Some(
            choose|i: int|
                0 <= i < pairs.len() && pairs[i].0@ == key && forall|k: int|
                    0 <= k < i ==> pairs[k].0@ != key,
        )
    } else {
        None
    }
}

/// How many of `s` are `severity`.
pub open spec fn count_severity(s: Seq<(String, Severity)>, severity: Severity) -> nat
    decreases s.len(),
{
    if s.len() == 0 {
        0
    } else {
        count_severity(s.drop_last(), severity) + if s.last().1 == severity {
            1nat
        } else {
            0nat
        }
    }
}

/// Whether some string of `v` reads `s`.
pub open spec fn has_string(v: Seq<String>, s: Seq<char>) -> bool {
    exists|i: int| 0 <= i < v.len() && v[i]@ == s
}

/// What a storage call the permission choice needs.
#[derive(Clone, Copy, Debug, PartialEq, Eq, Structural)]
pub enum TrustStorageCall {
    /// Record the decision.
    Save(bool),
    /// Clear any recorded decision.
    Forget,
}

/// What opening the permission store gave.
pub enum TrustStoreOutcome {
    /// The store could not be opened.
    Unavailable(String),
    /// The store opened; whether it can remember a decision, and what
    /// reading the recorded decision gave.
    Opened { can_remember: bool, load: Result<Option<bool>, String> },
}

/// What a buffer offers from the buffer list.
#[derive(Clone, Copy, Debug, PartialEq, Eq, Structural)]
pub enum BufferAction {
    Save,
    Discard,
    Close,
}

impl App {
    /// The active buffer.
    pub open spec fn active_buffer(&self) -> usize {
        self.active().buffer
    }

    /// The language the buffer maps to.
    pub open spec fn spec_language_of(&self, buffer: usize) -> Option<Seq<char>> {
        if buffer < self.buffers@.len() {
            match self.buffers@[buffer as int].language {
                Some(l) => Some(l@),
                None => None,
            }
        } else {
            None
        }
    }

    /// The language buffer `buffer` maps to.
    pub fn language_of(&self, buffer: usize) -> (l: Option<String>)
        ensures
            match l {
                Some(s) => self.spec_language_of(buffer) == Some(s@),
                None => self.spec_language_of(buffer) is None,
            },
    {
        if buffer < self.buffers.len() {
            match &self.buffers[buffer].language {
                Some(l) => Some(l.clone()),
                None => None,
            }
        } else {
            None
        }
    }

    /// Why syntax commands are unavailable for the active buffer, if they
    /// are.
    pub open spec fn syntax_unavailable(&self) -> Option<Seq<char>> {
        let b = self.active_buffer();
        if b < self.buffers@.len() && self.buffers@[b as int].syntax_ready {
            None
        } else if b < self.buffers@.len() && self.buffers@[b as int].syntax_stale {
            Some("syntax tree is being refreshed for this buffer"@)
        } else {
            match self.spec_language_of(b) {
                Some(l) => match lookup(self.syntax_errors@, l) {
                    Some(i) => Some("syntax unavailable: "@ + self.syntax_errors@[i].1@),
                    None => Some("syntax is unavailable for this buffer"@),
                },
                None => Some("syntax is unavailable for this buffer"@),
            }
        }
    }

    /// Why the language-server manager is unavailable, if it is.
    pub open spec fn lsp_manager_unavailable(&self) -> Option<Seq<char>> {
        if !self.lsp.config_enable {
            Some("language servers are disabled in settings"@)
        } else if !self.lsp.workspace_allowed {
            Some("LSP is disabled for this workspace; use :lsp-trust"@)
        } else if !self.lsp.attached {
            Some("language-server manager is not attached"@)
        } else {
            None
        }
    }

    /// Why language-server commands are unavailable for the active buffer,
    /// if they are.
    pub open spec fn lsp_document_unavailable(&self) -> Option<Seq<char>> {
        match self.spec_language_of(self.active_buffer()) {
            None => Some("the active buffer has no recognized language"@),
            Some(language) => if !self.lsp.config_enable {
                Some("language servers are disabled in settings"@)
            } else if !self.lsp.workspace_allowed {
                Some("LSP is disabled for this workspace; use :lsp-trust"@)
            } else if !has_string(self.lsp.config_servers@, language) {
                Some("no language server is configured for "@ + language)
            } else if !self.lsp.attached {
                Some("language-server manager is not attached"@)
            } else if lookup(self.lsp.servers@, language) is None {
                Some("the "@ + language + " language server is not ready"@)
            } else if !self.lsp.documents@.contains(self.active_buffer()) {
                Some("the active file is not attached to its language server"@)
            } else {
                None
            },
        }
    }

    /// Why Git project commands are unavailable, if they are.
    pub open spec fn git_project_unavailable(&self) -> Option<Seq<char>> {
        if !self.has_git {
            Some("no `git` executable was found"@)
        } else if self.git_discovery_failure is Some {
            Some(self.git_discovery_failure->0@)
        } else if self.git_repository {
            None
        } else if self.git_discovery_complete {
            Some("this project is not in a Git repository"@)
        } else {
            Some("Git repository discovery is still in progress"@)
        }
    }

    /// Why refreshing Git discovery is unavailable, if it is: a finished
    /// discovery that failed can always be retried.
    pub open spec fn git_refresh_unavailable(&self) -> Option<Seq<char>> {
        if self.has_git && self.git_discovery_complete && self.git_discovery_error {
            None
        } else {
            self.git_project_unavailable()
        }
    }

    /// Captures every optional capability consulted by the command palette.
    pub fn command_capabilities(&self) -> (c: AppCapabilitySnapshot)
        requires
            self.wf(),
        ensures
            availability_view(c.syntax) == self.syntax_unavailable(),
            availability_view(c.lsp_manager) == self.lsp_manager_unavailable(),
            availability_view(c.lsp_document) == self.lsp_document_unavailable(),
            availability_view(c.git_project) == self.git_project_unavailable(),
            availability_view(c.git_refresh) == self.git_refresh_unavailable(),
            availability_view(c.persistent_session) == availability_view(self.persistent_session),
    {
        let buffer = self.active_buffer_id();
        let language = self.language_of(buffer);
        let syntax = self.syntax_availability(buffer, &language);
        let lsp_manager = if !self.lsp.config_enable {
            CommandAvailability::Unavailable(
                String::from_str("language servers are disabled in settings"),
            )
        } else if !self.lsp.workspace_allowed {
            CommandAvailability::Unavailable(
                String::from_str("LSP is disabled for this workspace; use :lsp-trust"),
            )
        } else if !self.lsp.attached {
            CommandAvailability::Unavailable(
                String::from_str("language-server manager is not attached"),
            )
        } else {
            CommandAvailability::Available
        };
        let lsp_document = self.lsp_document_availability(buffer, &language);
        let git_project = self.git_project_availability();
        let git_refresh = if self.has_git && self.git_discovery_complete
            && self.git_discovery_error {
            CommandAvailability::Available
        } else {
            self.git_project_availability()
        };
        let persistent_session = match &self.persistent_session {
            CommandAvailability::Available => CommandAvailability::Available,
            CommandAvailability::Unavailable(reason) => CommandAvailability::Unavailable(
                reason.clone(),
            ),
        };
        AppCapabilitySnapshot {
            syntax,
            lsp_manager,
            lsp_document,
            git_project,
            git_refresh,
            persistent_session,
        }
    }

    /// The active pane's buffer.
    fn active_buffer_id(&self) -> (b: usize)
        requires
            self.wf(),
        ensures
            b == self.active_buffer(),
    {
        self.active_pane_snapshot().buffer
    }

    /// The first entry of `pairs` keyed by `key`.
    pub(crate) fn find_pair(pairs: &Vec<(String, String)>, key: &String) -> (r: Option<usize>)
        ensures
            match r {
                Some(i) => lookup(pairs@, key@) == Some(i as int) && i < pairs@.len(),
                None => lookup(pairs@, key@) is None,
            },
    {
        let mut i: usize = 0;
        while i < pairs.len()
            invariant
                i <= pairs@.len(),
                forall|k: int| 0 <= k < i ==> pairs@[k].0@ != key@,
            decreases pairs@.len() - i,
        {
            if pairs[i].0 == *key {
                proof {
                    assert(0 <= i < pairs@.len() && pairs@[i as int].0@ == key@ && forall|k: int|
                        0 <= k < i ==> pairs@[k].0@ != key@);
                    let c = lookup(pairs@, key@)->0;
                    if c < i {
                    } else if c > i {
                        assert(pairs@[i as int].0@ != key@);
                    }
                }
                return Some(i);
            }
            i = i + 1;
        }
        None
    }

    fn syntax_availability(&self, buffer: usize, language: &Option<String>) -> (a: CommandAvailability)
        requires
            self.wf(),
            buffer == self.active_buffer(),
            match language {
                Some(s) => self.spec_language_of(buffer) == Some(s@),
                None => self.spec_language_of(buffer) is None,
            },
        ensures
            availability_view(a) == self.syntax_unavailable(),
    {
        if buffer < self.buffers.len() && self.buffers[buffer].syntax_ready {
            return CommandAvailability::Available;
        }
        if buffer < self.buffers.len() && self.buffers[buffer].syntax_stale {
            return CommandAvailability::Unavailable(
                String::from_str("syntax tree is being refreshed for this buffer"),
            );
        }
        if let Some(l) = language {
            if let Some(i) = App::find_pair(&self.syntax_errors, l) {
                let mut message = chars_of("syntax unavailable: ");
                push_str(&mut message, self.syntax_errors[i].1.as_str());
                return CommandAvailability::Unavailable(string_of(&message));
            }
        }
        CommandAvailability::Unavailable(String::from_str("syntax is unavailable for this buffer"))
    }

    /// Whether a configured server names `language`.
    fn server_configured(&self, language: &String) -> (b: bool)
        ensures
            b == has_string(self.lsp.config_servers@, language@),
    {
        let mut i: usize = 0;
        while i < self.lsp.config_servers.len()
            invariant
                i <= self.lsp.config_servers@.len(),
                forall|k: int| 0 <= k < i ==> self.lsp.config_servers@[k]@ != language@,
            decreases self.lsp.config_servers@.len() - i,
        {
            if self.lsp.config_servers[i] == *language {
                return true;
            }
            i = i + 1;
        }
        false
    }

    /// Whether buffer `buffer` is attached to its server.
    fn document_attached(&self, buffer: usize) -> (b: bool)
        ensures
            b == self.lsp.documents@.contains(buffer),
    {
        let mut i: usize = 0;
        while i < self.lsp.documents.len()
            invariant
                i <= self.lsp.documents@.len(),
                forall|k: int| 0 <= k < i ==> self.lsp.documents@[k] != buffer,
            decreases self.lsp.documents@.len() - i,
        {
            if self.lsp.documents[i] == buffer {
                assert(self.lsp.documents@[i as int] == buffer);
                return true;
            }
            i = i + 1;
        }
        false
    }

    fn lsp_document_availability(&self, buffer: usize, language: &Option<String>) -> (a:
        CommandAvailability)
        requires
            self.wf(),
            buffer == self.active_buffer(),
            match language {
                Some(s) => self.spec_language_of(buffer) == Some(s@),
                None => self.spec_language_of(buffer) is None,
            },
        ensures
            availability_view(a) == self.lsp_document_unavailable(),
    {
        let Some(language) = language else {
            return CommandAvailability::Unavailable(
                String::from_str("the active buffer has no recognized language"),
            );
        };
        if !self.lsp.config_enable {
            return CommandAvailability::Unavailable(
                String::from_str("language servers are disabled in settings"),
            );
        }
        if !self.lsp.workspace_allowed {
            return CommandAvailability::Unavailable(
                String::from_str("LSP is disabled for this workspace; use :lsp-trust"),
            );
        }
        if !self.server_configured(language) {
            let mut message = chars_of("no language server is configured for ");
            push_str(&mut message, language.as_str());
            return CommandAvailability::Unavailable(string_of(&message));
        }
        if !self.lsp.attached {
            return CommandAvailability::Unavailable(
                String::from_str("language-server manager is not attached"),
            );
        }
        if App::find_pair(&self.lsp.servers, language).is_none() {
            let mut message = chars_of("the ");
            push_str(&mut message, language.as_str());
            push_str(&mut message, " language server is not ready");
            return CommandAvailability::Unavailable(string_of(&message));
        }
        if !self.document_attached(buffer) {
            return CommandAvailability::Unavailable(
                String::from_str("the active file is not attached to its language server"),
            );
        }
        CommandAvailability::Available
    }

    fn git_project_availability(&self) -> (a: CommandAvailability)
        ensures
            availability_view(a) == self.git_project_unavailable(),
    {
        if !self.has_git {
            return CommandAvailability::Unavailable(String::from_str("no `git` executable was found"));
        }
        if let Some(message) = &self.git_discovery_failure {
            return CommandAvailability::Unavailable(message.clone());
        }
        if self.git_repository {
            CommandAvailability::Available
        } else if self.git_discovery_complete {
            CommandAvailability::Unavailable(
                String::from_str("this project is not in a Git repository"),
            )
        } else {
            CommandAvailability::Unavailable(
                String::from_str("Git repository discovery is still in progress"),
            )
        }
    }

    /// The status-line summary of the active buffer's language server: its
    /// name, followed by the error and warning counts when there are any.
    pub open spec fn spec_lsp_summary(&self) -> Option<Seq<char>> {
        match self.spec_language_of(self.active_buffer()) {
            None => None,
            Some(language) => match lookup(self.lsp.servers@, language) {
                None => None,
                Some(i) => {
                    let name = self.lsp.servers@[i].1@;
                    let errors = count_severity(self.lsp.diagnostics@, Severity::Error);
                    let warnings = count_severity(self.lsp.diagnostics@, Severity::Warning);
                    if errors == 0 && warnings == 0 {
                        Some(name)
                    } else {
                        Some(
                            name + " "@ + decimal(errors) + "E "@ + decimal(warnings) + "W"@,
                        )
                    }
                },
            },
        }
    }

    /// How many diagnostics are of `severity`.
    fn count_diagnostics(&self, severity: Severity) -> (n: u64)
        ensures
            n == count_severity(self.lsp.diagnostics@, severity),
    {
        let mut n: u64 = 0;
        let mut i: usize = 0;
        while i < self.lsp.diagnostics.len()
            invariant
                i <= self.lsp.diagnostics@.len(),
                n == count_severity(self.lsp.diagnostics@.take(i as int), severity),
                n <= i,
            decreases self.lsp.diagnostics@.len() - i,
        {
            assert(self.lsp.diagnostics@.take(i + 1).drop_last() == self.lsp.diagnostics@.take(i as int));
            if self.lsp.diagnostics[i].1 == severity {
                n = n + 1;
            }
            i = i + 1;
        }
        assert(self.lsp.diagnostics@.take(self.lsp.diagnostics@.len() as int) == self.lsp.diagnostics@);
        n
    }

    /// A short language-server summary for the status line, or nothing when
    /// no server is ready for the active buffer.
    pub fn lsp_summary(&self) -> (s: Option<String>)
        requires
            self.wf(),
            self.lsp.diagnostics@.len() <= u64::MAX,
        ensures
            match s {
                Some(text) => self.spec_lsp_summary() == Some(text@),
                None => self.spec_lsp_summary() is None,
            },
    {
        let buffer = self.active_buffer_id();
        let Some(language) = self.language_of(buffer) else {
            return None;
        };
        let Some(i) = App::find_pair(&self.lsp.servers, &language) else {
            return None;
        };
        let name = &self.lsp.servers[i].1;
        let errors = self.count_diagnostics(Severity::Error);
        let warnings = self.count_diagnostics(Severity::Warning);
        if errors == 0 && warnings == 0 {
            return Some(name.clone());
        }
        let mut text = chars_of(name.as_str());
        push_str(&mut text, " ");
        push_decimal(&mut text, errors);
        push_str(&mut text, "E ");
        push_decimal(&mut text, warnings);
        push_str(&mut text, "W");
        Some(string_of(&text))
    }

    /// What the buffer list offers for buffer `buffer`: nothing for a
    /// closed, unknown or directory buffer; closing a clean one; saving or
    /// discarding a modified file; discarding a modified scratch or commit
    /// message; nothing for any other modified buffer.
    pub open spec fn spec_available_buffer_actions(&self, buffer: usize) -> Seq<BufferAction> {
        if buffer >= self.buffers@.len() || self.closed_buffers@.contains(buffer)
            || self.buffers@[buffer as int].kind == BufferKind::Directory {
            Seq::empty()
        } else if !self.buffers@[buffer as int].dirty {
            seq![BufferAction::Close]
        } else {
            match self.buffers@[buffer as int].kind {
                BufferKind::File => seq![BufferAction::Save, BufferAction::Discard],
                BufferKind::Scratch | BufferKind::CommitMessage => seq![BufferAction::Discard],
                _ => Seq::empty(),
            }
        }
    }

    /// Whether buffer `buffer` has been closed.
    pub(crate) fn is_closed(&self, buffer: usize) -> (b: bool)
        ensures
            b == self.closed_buffers@.contains(buffer),
    {
        let mut i: usize = 0;
        while i < self.closed_buffers.len()
            invariant
                i <= self.closed_buffers@.len(),
                forall|k: int| 0 <= k < i ==> self.closed_buffers@[k] != buffer,
            decreases self.closed_buffers@.len() - i,
        {
            if self.closed_buffers[i] == buffer {
                assert(self.closed_buffers@[i as int] == buffer);
                return true;
            }
            i = i + 1;
        }
        false
    }

    /// What the buffer list offers for buffer `buffer`.
    pub fn available_buffer_actions(&self, buffer: usize) -> (a: Vec<BufferAction>)
        ensures
            a@ == self.spec_available_buffer_actions(buffer),
    {
        let mut actions: Vec<BufferAction> = Vec::new();
        if buffer >= self.buffers.len() || self.is_closed(buffer) || self.buffers[buffer].kind
            == BufferKind::Directory {
            return actions;
        }
        if !self.buffers[buffer].dirty {
            actions.push(BufferAction::Close);
            return actions;
        }
        match self.buffers[buffer].kind {
            BufferKind::File => {
                actions.push(BufferAction::Save);
                actions.push(BufferAction::Discard);
            },
            BufferKind::Scratch | BufferKind::CommitMessage => {
                actions.push(BufferAction::Discard);
            },
            _ => {},
        }
        actions
    }
}

/// The rows of the workspace permission list, by what each does: keep
/// language servers disabled (remembered where the store can remember),
/// allow them once, and, where the store can remember, always allow them.
pub open spec fn trust_list_actions(remember: bool) -> Seq<ListAction> {
    seq![
        ListAction::LspTrust { allowed: false, remember },
        ListAction::LspTrust { allowed: true, remember: false },
    ] + if remember {
        seq![ListAction::LspTrust { allowed: true, remember: true }]
    } else {
        Seq::empty()
    }
}

/// What reading the workspace permission from `store` makes of `before`:
/// `after`. The permission holds only when the store remembered yes and
/// language services are enabled; a store that failed to open or to load
/// records why; an undecided, enabled workspace opens the trust choice.
pub open spec fn trust_configured(before: LspState, after: LspState, store: TrustStoreOutcome) -> bool {
    &&& (after.workspace_allowed == (LspState::loaded_decision(store) == Some(true)
        && before.config_enable))
    &&& (after.trust_store == match store {
        TrustStoreOutcome::Unavailable(_) => None,
        TrustStoreOutcome::Opened { can_remember, .. } => Some(can_remember),
    })
    &&& (after.config_enable == before.config_enable)
    &&& (LspState::loaded_decision(store) is None && before.config_enable ==> after.list_open && after.list_actions@ == trust_list_actions(
        after.trust_error is None && after.trust_store == Some(true),
    ))
    &&& (!(LspState::loaded_decision(store) is None && before.config_enable) ==> after.list_open == before.list_open && after.list_actions == before.list_actions)
    &&& (match store {
        TrustStoreOutcome::Unavailable(e) => (after.trust_error matches Some(m) && m@
            == "LSP permission storage unavailable: "@ + e@),
        TrustStoreOutcome::Opened { load, .. } => match load {
            Err(e) => (after.trust_error matches Some(m) && m@
                == "Cannot read LSP permission: "@ + e@),
            Ok(_) => if LspState::loaded_decision(store) is None && before.config_enable
                && after.trust_store != Some(true) {
                (after.trust_error matches Some(m) && m@
                    == "LSP permission storage unavailable"@)
            } else {
                after.trust_error is None
            },
        },
    })
}

impl LspState {
    /// The permission list shown by `show_lsp_trust`: where language servers are
    /// enabled, the choice list opens with the rows the store allows, and a
    /// missing way to remember is recorded as the trust error unless one is
    /// already recorded.
    pub open spec fn shows_trust_list(&self, before: &LspState) -> bool {
        if !before.config_enable {
            *self == *before
        } else {
            let remember = before.trust_error is None && before.trust_store == Some(true);
            &&& self.list_open
            &&& self.list_actions@ == trust_list_actions(remember)
            &&& if !remember && before.trust_error is None {
                self.trust_error matches Some(e) && e@ == "LSP permission storage unavailable"@
            } else {
                self.trust_error == before.trust_error
            }
            &&& *self == (LspState {
                list_open: self.list_open,
                list_actions: self.list_actions,
                trust_error: self.trust_error,
                ..*before
            })
        }
    }

    /// Offers the workspace permission choice.
    pub fn show_lsp_trust(&mut self)
        ensures
            final(self).shows_trust_list(old(self)),
    {
        if !self.config_enable {
            return;
        }
        let remember = self.trust_error.is_none() && self.trust_store == Some(true);
        if !remember && self.trust_error.is_none() {
            self.trust_error = Some(String::from_str("LSP permission storage unavailable"));
        }
        let mut actions: Vec<ListAction> = Vec::new();
        actions.push(ListAction::LspTrust { allowed: false, remember });
        actions.push(ListAction::LspTrust { allowed: true, remember: false });
        if remember {
            actions.push(ListAction::LspTrust { allowed: true, remember: true });
        }
        assert(actions@ =~= trust_list_actions(remember));
        self.list_actions = actions;
        self.list_open = true;
    }

    /// Reopens the permission choice on request: where there is a store,
    /// what reading it again gave (`reload`) replaces the trust error, so a
    /// fixed storage failure recovers; then the choice is offered.
    pub fn open_lsp_trust(&mut self, reload: Option<Result<(), String>>)
        ensures
            ({
                let error = match reload {
                    Some(Ok(_)) => None,
                    Some(Err(e)) => Some(("Cannot read LSP permission: "@ + e@)),
                    None => match old(self).trust_error {
                        Some(e) => Some(e@),
                        None => None,
                    },
                };
                &&& !old(self).config_enable ==> final(self).list_open == old(self).list_open
                &&& old(self).config_enable ==> final(self).list_open
                    && final(self).list_actions@ == trust_list_actions(
                    error is None && old(self).trust_store == Some(true),
                )
                &&& error matches Some(m) ==> (final(self).trust_error matches Some(t) && t@ == m)
            }),
    {
        if let Some(load) = reload {
            self.trust_error = match load {
                Ok(()) => None,
                Err(e) => {
                    let mut message = chars_of("Cannot read LSP permission: ");
                    push_str(&mut message, e.as_str());
                    Some(string_of(&message))
                },
            };
        }
        self.show_lsp_trust();
    }

    /// The decision opening the store gave, if any.
    pub open spec fn loaded_decision(store: TrustStoreOutcome) -> Option<bool> {
        match store {
            TrustStoreOutcome::Unavailable(_) => None,
            TrustStoreOutcome::Opened { load, .. } => match load {
                Ok(d) => d,
                Err(_) => None,
            },
        }
    }

    /// Reads the workspace permission from what opening the store gave.
    pub fn configure_trust(&mut self, store: TrustStoreOutcome)
        ensures
            trust_configured(*old(self), *final(self), store),
    {
        self.workspace_allowed = false;
        self.trust_error = None;
        let decision: Option<bool> = match store {
            TrustStoreOutcome::Unavailable(e) => {
                let mut message = chars_of("LSP permission storage unavailable: ");
                push_str(&mut message, e.as_str());
                self.trust_error = Some(string_of(&message));
                self.trust_store = None;
                None
            },
            TrustStoreOutcome::Opened { can_remember, load } => {
                self.trust_store = Some(can_remember);
                match load {
                    Ok(d) => d,
                    Err(e) => {
                        let mut message = chars_of("Cannot read LSP permission: ");
                        push_str(&mut message, e.as_str());
                        self.trust_error = Some(string_of(&message));
                        None
                    },
                }
            },
        };
        self.workspace_allowed = decision == Some(true) && self.config_enable;
        if decision.is_none() && self.config_enable {
            self.show_lsp_trust();
        }
    }

    /// The storage call choosing a permission needs first, if any:
    /// remembering records the decision; allowing once clears any recorded
    /// decision where there is a store.
    pub fn storage_call(&self, allowed: bool, remember: bool) -> (c: Option<TrustStorageCall>)
        ensures
            c == (if remember {
                Some(TrustStorageCall::Save(allowed))
            } else if allowed && self.trust_store is Some {
                Some(TrustStorageCall::Forget)
            } else {
                None::<TrustStorageCall>
            }),
    {
        if remember {
            Some(TrustStorageCall::Save(allowed))
        } else if allowed && self.trust_store.is_some() {
            Some(TrustStorageCall::Forget)
        } else {
            None
        }
    }

    /// Sets whether language servers may run; they may only where
    /// configuration enables them. Revoking drops every server, attached
    /// document and diagnostic.
    pub fn set_lsp_workspace_allowed(&mut self, allowed: bool)
        ensures
            final(self).workspace_allowed == (allowed && old(self).config_enable),
            !(allowed && old(self).config_enable) ==> *final(self) == (LspState {
                workspace_allowed: false,
                servers: final(self).servers,
                documents: final(self).documents,
                diagnostics: final(self).diagnostics,
                ..*old(self)
            }) && final(self).servers@.len() == 0 && final(self).documents@.len() == 0
                && final(self).diagnostics@.len() == 0,
            allowed && old(self).config_enable ==> *final(self) == (LspState {
                workspace_allowed: true,
                ..*old(self)
            }),
    {
        self.workspace_allowed = allowed && self.config_enable;
        if !self.workspace_allowed {
            self.servers = Vec::new();
            self.documents = Vec::new();
            self.diagnostics = Vec::new();
        }
    }

    /// A permission choice failed with `message`: it becomes the trust
    /// error, and the choice is offered again.
    fn lsp_trust_failed(&mut self, message: &String)
        ensures
            final(self).workspace_allowed == old(self).workspace_allowed,
            final(self).trust_store == old(self).trust_store,
            final(self).config_enable == old(self).config_enable,
            old(self).config_enable ==> final(self).list_open && final(self).list_actions@
                == trust_list_actions(false),
            final(self).trust_error matches Some(e) && e@ == message@,
    {
        self.trust_error = Some(message.clone());
        self.show_lsp_trust();
    }

    /// Applies a permission choice once the storage call it needed gave
    /// `storage`, and returns the status line and whether it reports a
    /// failure. A failed save leaves the permission as it was, except that a
    /// refused revocation still stops servers here; a failed clear leaves it
    /// as it was too; either failure offers the choice again. Otherwise the
    /// permission is set and the list closes.
    pub fn choose_trust(&mut self, allowed: bool, remember: bool, storage: Result<(), String>) -> (r:
        (String, bool))
        ensures
            remember && storage is Err ==> {
                &&& r.1
                &&& r.0@ == "Cannot remember LSP permission: "@ + storage->Err_0@
                &&& final(self).workspace_allowed == (if allowed {
                    old(self).workspace_allowed
                } else {
                    false
                })
            },
            !remember && allowed && old(self).trust_store is Some && storage is Err ==> {
                &&& r.1
                &&& r.0@ == "Cannot clear remembered LSP permission: "@ + storage->Err_0@
                &&& final(self).workspace_allowed == old(self).workspace_allowed
            },
            storage is Ok || (!remember && !(allowed && old(self).trust_store is Some)) ==> {
                &&& final(self).workspace_allowed == (allowed && old(self).config_enable)
                &&& !final(self).list_open
                &&& final(self).list_actions@.len() == 0
                &&& !r.1
                &&& r.0@ == (if allowed {
                    "LSP allowed for this workspace"@
                } else {
                    "LSP disabled for this workspace"@
                })
            },
    {
        if remember {
            if let Err(e) = &storage {
                if !allowed {
                    self.set_lsp_workspace_allowed(false);
                }
                let mut message = chars_of("Cannot remember LSP permission: ");
                push_str(&mut message, e.as_str());
                let message = string_of(&message);
                self.lsp_trust_failed(&message);
                return (message, true);
            }
        }
        if !remember && allowed && self.trust_store.is_some() {
            if let Err(e) = &storage {
                let mut message = chars_of("Cannot clear remembered LSP permission: ");
                push_str(&mut message, e.as_str());
                let message = string_of(&message);
                self.lsp_trust_failed(&message);
                return (message, true);
            }
        }
        self.set_lsp_workspace_allowed(allowed);
        self.list_open = false;
        self.list_actions = Vec::new();
        let message = if allowed {
            String::from_str("LSP allowed for this workspace")
        } else {
            String::from_str("LSP disabled for this workspace")
        };
        (message, false)
    }
}

impl App {
    /// Reads the workspace permission at startup from what opening the store
    /// gave; see `LspState::configure_trust`.
    pub fn configure_lsp_trust(&mut self, store: TrustStoreOutcome)
        ensures
            trust_configured(old(self).lsp, final(self).lsp, store),
            *final(self) == (App { lsp: final(self).lsp, ..*old(self) }),
    {
        self.lsp.configure_trust(store);
    }

    /// Applies a permission choice once its storage call gave `storage`,
    /// reporting the outcome on the status line; see `LspState::choose_trust`.
    pub fn choose_lsp_trust(&mut self, allowed: bool, remember: bool, storage: Result<(), String>)
        ensures
            storage is Ok ==> final(self).lsp.workspace_allowed == (allowed && old(self).lsp.config_enable) && !final(self).status_error,
            storage is Err && (remember || (allowed && old(self).lsp.trust_store is Some)) ==> final(self).status_error && final(self).lsp.workspace_allowed == (if allowed {
                old(self).lsp.workspace_allowed
            } else {
                false
            }),
    {
        let (message, failed) = self.lsp.choose_trust(allowed, remember, storage);
        self.status = message;
        self.status_error = failed;
    }
}

} // verus!
