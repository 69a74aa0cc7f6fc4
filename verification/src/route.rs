//! Which overlay a key goes to, nearest the person first.

use vstd::prelude::*;

use crate::app::App;
use crate::keys::{KeyCode, KeyStroke, Modifiers};

verus! {

/// Where a key goes.
#[derive(Clone, Copy, Debug, PartialEq, Eq, Structural)]
pub enum KeyRoute {
    FsConfirmation,
    DirectoryReload,
    FileReload,
    GitDiscard,
    BranchSwitch,
    BranchDeletion,
    PullRebase,
    WorktreeRemoval,
    BufferDiscard,
    ContextMenu,
    ProgramMenu,
    PathMenu,
    PathPopup,
    Picker,
    List,
    /// No overlay owns the key: the editor's own modes take it.
    Editor,
}

impl App {
    /// The overlay that owns input first, in the order confirmations, the
    /// action menus, the path popup, the picker and the choice list are
    /// stacked.
    pub open spec fn spec_key_route(&self) -> KeyRoute {
        if self.fs_confirmation is Some {
            KeyRoute::FsConfirmation
        } else if self.directory_reload_confirmation is Some {
            KeyRoute::DirectoryReload
        } else if self.file_reload_confirmation is Some {
            KeyRoute::FileReload
        } else if self.git_discard_confirmation is Some {
            KeyRoute::GitDiscard
        } else if self.git_branch_switch is Some {
            KeyRoute::BranchSwitch
        } else if self.git_branch_deletion is Some {
            KeyRoute::BranchDeletion
        } else if self.git_pull_rebase is Some {
            KeyRoute::PullRebase
        } else if self.git_worktree_removal is Some {
            KeyRoute::WorktreeRemoval
        } else if self.buffer_discard_confirmation is Some {
            KeyRoute::BufferDiscard
        } else if self.menus.context is Some {
            KeyRoute::ContextMenu
        } else if self.program_action_menu is Some {
            KeyRoute::ProgramMenu
        } else if self.menus.path is Some {
            KeyRoute::PathMenu
        } else if self.menus.path_popup is Some {
            KeyRoute::PathPopup
        } else if self.picker_query is Some {
            KeyRoute::Picker
        } else if self.list is Some {
            KeyRoute::List
        } else {
            KeyRoute::Editor
        }
    }

    /// Where a key goes, and the key it arrives as: the leader key closes
    /// an overlay that a Space closes, arriving there as Escape, so each
    /// overlay cancels in its own way.
    pub fn route_key(&self, key: KeyStroke) -> (r: (KeyStroke, KeyRoute))
        ensures
            r.1 == self.spec_key_route(),
            r.0 == (if key.spec_canonical_for_binding() == self.keymap.leader
                && self.spec_space_dismisses_input_overlay() {
                KeyStroke { code: KeyCode::Escape, modifiers: Modifiers { shift: false, control: false, alt: false, super_key: false } }
            } else {
                key
            }),
    {
        let key = if key.canonical_for_binding() == self.keymap.leader
            && self.space_dismisses_input_overlay() {
            KeyStroke::plain(KeyCode::Escape)
        } else {
            key
        };
        let route = if self.fs_confirmation.is_some() {
            KeyRoute::FsConfirmation
        } else if self.directory_reload_confirmation.is_some() {
            KeyRoute::DirectoryReload
        } else if self.file_reload_confirmation.is_some() {
            KeyRoute::FileReload
        } else if self.git_discard_confirmation.is_some() {
            KeyRoute::GitDiscard
        } else if self.git_branch_switch.is_some() {
            KeyRoute::BranchSwitch
        } else if self.git_branch_deletion.is_some() {
            KeyRoute::BranchDeletion
        } else if self.git_pull_rebase.is_some() {
            KeyRoute::PullRebase
        } else if self.git_worktree_removal.is_some() {
            KeyRoute::WorktreeRemoval
        } else if self.buffer_discard_confirmation.is_some() {
            KeyRoute::BufferDiscard
        } else if self.menus.context.is_some() {
            KeyRoute::ContextMenu
        } else if self.program_action_menu.is_some() {
            KeyRoute::ProgramMenu
        } else if self.menus.path.is_some() {
            KeyRoute::PathMenu
        } else if self.menus.path_popup.is_some() {
            KeyRoute::PathPopup
        } else if self.picker_query.is_some() {
            KeyRoute::Picker
        } else if self.list.is_some() {
            KeyRoute::List
        } else {
            KeyRoute::Editor
        };
        (key, route)
    }
}

} // verus!
