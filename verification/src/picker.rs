//! The file picker and the resource finder: what a key does to the picker,
//! the edits of its query, its closing, and the finder's two modes.

use vstd::prelude::*;

use crate::app::{App, FinderMode};
use crate::keys::{spec_edits_picker_query, edits_picker_query, KeyCode, KeyStroke};
use crate::prompt::{
    prompt_backspace, prompt_delete, prompt_delete_range, prompt_insert, prompt_word_backward,
    spec_prompt_word_backward,
};

verus! {

/// A move of the picker's selection.
#[derive(Clone, Copy, Debug, PartialEq, Eq, Structural)]
pub enum PickerMove {
    Up,
    Down,
    PageUp,
    PageDown,
    First,
    Last,
}

/// An edit of the picker's query or of its caret.
#[derive(Clone, Copy, Debug, PartialEq, Eq, Structural)]
pub enum PickerEdit {
    Left,
    Right,
    Backspace,
    Delete,
    /// Deletes the word before the caret.
    DeleteWord,
    /// Deletes from the caret to the end.
    DeleteEnd,
    Start,
    End,
    Insert(char),
}

/// Which way a split opens the selected file.
#[derive(Clone, Copy, Debug, PartialEq, Eq, Structural)]
pub enum SplitAxis {
    Vertical,
    Horizontal,
}

/// What a key means to the picker.
#[derive(Clone, Copy, Debug, PartialEq, Eq, Structural)]
pub enum PickerKey {
    Close,
    /// Switches the finder between names and contents.
    ToggleFinderMode,
    Move(PickerMove),
    Edit(PickerEdit),
    /// Opens the selected file in a new split.
    Split(SplitAxis),
    TogglePreview,
    /// Opens the selected row.
    Open,
    Ignored,
}

/// What a key means to the picker, with `finder` telling whether the
/// resource finder runs in it. Escape and Control-c close it; Tab switches
/// the finder's mode, and moves down in a plain picker; Control with `p`,
/// `n`, `u`, `d` moves, with `s` and `v` opens in a split, with `t`
/// toggles the preview, and with `b`, `f`, `h`, `w`, `k`, `a`, `e` edits
/// as the arrows, Backspace, delete-word, delete-to-end, Home and End do;
/// a character typed without Control, Alt or Super goes into the query.
pub open spec fn spec_picker_key(key: KeyStroke, finder: bool) -> PickerKey {
    let m = key.modifiers;
    if key.spec_is_cancel() {
        PickerKey::Close
    } else if finder && key.code == KeyCode::Tab && m.spec_is_empty() {
        PickerKey::ToggleFinderMode
    } else {
        match key.code {
            KeyCode::Char(c) => if m.control {
                spec_control_picker_key(c)
            } else if m.alt || m.super_key {
                PickerKey::Ignored
            } else {
                PickerKey::Edit(PickerEdit::Insert(c))
            },
            KeyCode::Down => PickerKey::Move(PickerMove::Down),
            KeyCode::Tab => if finder {
                PickerKey::Ignored
            } else {
                PickerKey::Move(PickerMove::Down)
            },
            KeyCode::Up | KeyCode::BackTab => PickerKey::Move(PickerMove::Up),
            KeyCode::PageUp => PickerKey::Move(PickerMove::PageUp),
            KeyCode::PageDown => PickerKey::Move(PickerMove::PageDown),
            KeyCode::Home => PickerKey::Move(PickerMove::First),
            KeyCode::End => PickerKey::Move(PickerMove::Last),
            KeyCode::Left => PickerKey::Edit(PickerEdit::Left),
            KeyCode::Right => PickerKey::Edit(PickerEdit::Right),
            KeyCode::Backspace => PickerKey::Edit(PickerEdit::Backspace),
            KeyCode::Delete => PickerKey::Edit(PickerEdit::Delete),
            KeyCode::Enter => PickerKey::Open,
            KeyCode::Escape => PickerKey::Close,
        }
    }
}

/// What Control with the character `c` means to the picker.
pub open spec fn spec_control_picker_key(c: char) -> PickerKey {
    if c == 'p' {
        PickerKey::Move(PickerMove::Up)
    } else if c == 'n' {
        PickerKey::Move(PickerMove::Down)
    } else if c == 'u' {
        PickerKey::Move(PickerMove::PageUp)
    } else if c == 'd' {
        PickerKey::Move(PickerMove::PageDown)
    } else if c == 's' {
        PickerKey::Split(SplitAxis::Vertical)
    } else if c == 'v' {
        PickerKey::Split(SplitAxis::Horizontal)
    } else if c == 't' {
        PickerKey::TogglePreview
    } else if c == 'b' {
        PickerKey::Edit(PickerEdit::Left)
    } else if c == 'f' {
        PickerKey::Edit(PickerEdit::Right)
    } else if c == 'h' {
        PickerKey::Edit(PickerEdit::Backspace)
    } else if c == 'w' {
        PickerKey::Edit(PickerEdit::DeleteWord)
    } else if c == 'k' {
        PickerKey::Edit(PickerEdit::DeleteEnd)
    } else if c == 'a' {
        PickerKey::Edit(PickerEdit::Start)
    } else if c == 'e' {
        PickerKey::Edit(PickerEdit::End)
    } else {
        PickerKey::Ignored
    }
}

/// What Control with the character `c` means to the picker.
fn control_picker_key(c: char) -> (k: PickerKey)
    ensures
        k == spec_control_picker_key(c),
{
    if c == 'p' {
        PickerKey::Move(PickerMove::Up)
    } else if c == 'n' {
        PickerKey::Move(PickerMove::Down)
    } else if c == 'u' {
        PickerKey::Move(PickerMove::PageUp)
    } else if c == 'd' {
        PickerKey::Move(PickerMove::PageDown)
    } else if c == 's' {
        PickerKey::Split(SplitAxis::Vertical)
    } else if c == 'v' {
        PickerKey::Split(SplitAxis::Horizontal)
    } else if c == 't' {
        PickerKey::TogglePreview
    } else if c == 'b' {
        PickerKey::Edit(PickerEdit::Left)
    } else if c == 'f' {
        PickerKey::Edit(PickerEdit::Right)
    } else if c == 'h' {
        PickerKey::Edit(PickerEdit::Backspace)
    } else if c == 'w' {
        PickerKey::Edit(PickerEdit::DeleteWord)
    } else if c == 'k' {
        PickerKey::Edit(PickerEdit::DeleteEnd)
    } else if c == 'a' {
        PickerKey::Edit(PickerEdit::Start)
    } else if c == 'e' {
        PickerKey::Edit(PickerEdit::End)
    } else {
        PickerKey::Ignored
    }
}

/// What a key means to the picker, with `finder` telling whether the
/// resource finder runs in it.
pub fn picker_key(key: KeyStroke, finder: bool) -> (k: PickerKey)
    ensures
        k == spec_picker_key(key, finder),
{
    if key.is_cancel() {
        return PickerKey::Close;
    }
    if finder && key.code == KeyCode::Tab && key.modifiers.is_empty() {
        return PickerKey::ToggleFinderMode;
    }
    match key.code {
        KeyCode::Char(c) => {
            if key.modifiers.control {
                control_picker_key(c)
            } else if key.modifiers.alt || key.modifiers.super_key {
                PickerKey::Ignored
            } else {
                PickerKey::Edit(PickerEdit::Insert(c))
            }
        },
        KeyCode::Down => PickerKey::Move(PickerMove::Down),
        KeyCode::Tab => if finder {
            PickerKey::Ignored
        } else {
            PickerKey::Move(PickerMove::Down)
        },
        KeyCode::Up | KeyCode::BackTab => PickerKey::Move(PickerMove::Up),
        KeyCode::PageUp => PickerKey::Move(PickerMove::PageUp),
        KeyCode::PageDown => PickerKey::Move(PickerMove::PageDown),
        KeyCode::Home => PickerKey::Move(PickerMove::First),
        KeyCode::End => PickerKey::Move(PickerMove::Last),
        KeyCode::Left => PickerKey::Edit(PickerEdit::Left),
        KeyCode::Right => PickerKey::Edit(PickerEdit::Right),
        KeyCode::Backspace => PickerKey::Edit(PickerEdit::Backspace),
        KeyCode::Delete => PickerKey::Edit(PickerEdit::Delete),
        KeyCode::Enter => PickerKey::Open,
        KeyCode::Escape => PickerKey::Close,
    }
}


/// The query and caret after `edit`. Deleting a word removes the word
/// before the caret, by the prompt's word rule.
pub open spec fn spec_picker_edit(query: Seq<char>, cursor: int, edit: PickerEdit) -> (Seq<char>, int) {
    match edit {
        PickerEdit::Left => (query, if cursor > 0 { cursor - 1 } else { 0 }),
        PickerEdit::Right => (query, if cursor < query.len() { cursor + 1 } else { query.len() as int }),
        PickerEdit::Backspace => if cursor > 0 {
            (query.remove(cursor - 1), cursor - 1)
        } else {
            (query, cursor)
        },
        PickerEdit::Delete => if cursor < query.len() {
            (query.remove(cursor), cursor)
        } else {
            (query, cursor)
        },
        PickerEdit::DeleteWord => {
            let start = spec_prompt_word_backward(query, cursor);
            (query.subrange(0, start) + query.subrange(cursor, query.len() as int), start)
        },
        PickerEdit::DeleteEnd => (query.subrange(0, cursor), cursor),
        PickerEdit::Start => (query, 0),
        PickerEdit::End => (query, query.len() as int),
        PickerEdit::Insert(c) => (query.insert(cursor, c), cursor + 1),
    }
}

/// Delete with the caret before the end of the query removes exactly the one
/// character under the caret: the query gets one shorter, what stood before
/// the caret stays, what stood after it moves one place left, and the caret
/// keeps its place. At the end of the query it changes nothing.
pub proof fn lemma_picker_delete_removes_one(query: Seq<char>, cursor: int)
    requires
        0 <= cursor <= query.len(),
    ensures
        ({
            let (q, c) = spec_picker_edit(query, cursor, PickerEdit::Delete);
            if cursor < query.len() {
                &&& q.len() == query.len() - 1
                &&& forall|i: int| 0 <= i < cursor ==> q[i] == query[i]
                &&& forall|i: int| cursor <= i < q.len() ==> q[i] == query[i + 1]
                &&& c == cursor
            } else {
                q == query && c == cursor
            }
        }),
{
}

/// Backspace with a character before the caret removes exactly that one
/// character: the query gets one shorter, what stood before it stays, what
/// stood after it moves one place left, and the caret steps back by one. At
/// the start of the query it changes nothing.
pub proof fn lemma_picker_backspace_removes_one(query: Seq<char>, cursor: int)
    requires
        0 <= cursor <= query.len(),
    ensures
        ({
            let (q, c) = spec_picker_edit(query, cursor, PickerEdit::Backspace);
            if cursor > 0 {
                &&& q.len() == query.len() - 1
                &&& forall|i: int| 0 <= i < cursor - 1 ==> q[i] == query[i]
                &&& forall|i: int| cursor - 1 <= i < q.len() ==> q[i] == query[i + 1]
                &&& c == cursor - 1
            } else {
                q == query && c == cursor
            }
        }),
{
}

/// Whether `edit` changes the query: deleting backwards needs a character
/// before the caret, deleting forwards one after it, and typing always does.
pub open spec fn spec_picker_edit_changes(query: Seq<char>, cursor: int, edit: PickerEdit) -> bool {
    match edit {
        PickerEdit::Backspace | PickerEdit::DeleteWord => cursor > 0,
        PickerEdit::Delete | PickerEdit::DeleteEnd => cursor < query.len(),
        PickerEdit::Insert(_) => true,
        _ => false,
    }
}

/// Applies `edit` to the picker's query and caret. Says whether the query
/// changes.
pub fn apply_picker_edit(query: &mut Vec<char>, cursor: &mut usize, edit: PickerEdit) -> (changed: bool)
    requires
        *old(cursor) <= old(query)@.len() < usize::MAX,
    ensures
        changed == spec_picker_edit_changes(old(query)@, *old(cursor) as int, edit),
        final(query)@ == spec_picker_edit(old(query)@, *old(cursor) as int, edit).0,
        *final(cursor) == spec_picker_edit(old(query)@, *old(cursor) as int, edit).1,
        *final(cursor) <= final(query)@.len(),
{
    match edit {
        PickerEdit::Left => {
            if *cursor > 0 {
                *cursor = *cursor - 1;
            }
            false
        },
        PickerEdit::Right => {
            if *cursor < query.len() {
                *cursor = *cursor + 1;
            }
            false
        },
        PickerEdit::Backspace => {
            let changed = *cursor > 0;
            prompt_backspace(query, cursor);
            changed
        },
        PickerEdit::Delete => {
            let changed = *cursor < query.len();
            prompt_delete(query, *cursor);
            changed
        },
        PickerEdit::DeleteWord => {
            let changed = *cursor > 0;
            let start = prompt_word_backward(query, *cursor);
            prompt_delete_range(query, start, *cursor);
            *cursor = start;
            changed
        },
        PickerEdit::DeleteEnd => {
            let changed = *cursor < query.len();
            let len = query.len();
            prompt_delete_range(query, *cursor, len);
            proof {
                assert(query@ =~= old(query)@.subrange(0, *old(cursor) as int));
            }
            changed
        },
        PickerEdit::Start => {
            *cursor = 0;
            false
        },
        PickerEdit::End => {
            *cursor = query.len();
            false
        },
        PickerEdit::Insert(c) => {
            prompt_insert(query, *cursor, c);
            *cursor = *cursor + 1;
            true
        },
    }
}


/// Typing a character into the query and deleting it again with Backspace
/// gives back the query and the caret.
pub proof fn lemma_picker_insert_then_backspace(query: Seq<char>, cursor: int, c: char)
    requires
        0 <= cursor <= query.len(),
    ensures
        ({
            let typed = spec_picker_edit(query, cursor, PickerEdit::Insert(c));
            spec_picker_edit(typed.0, typed.1, PickerEdit::Backspace) == (query, cursor)
        }),
{
    let typed = query.insert(cursor, c);
    assert(typed.remove(cursor) =~= query);
}

/// The finder's other mode.
pub open spec fn other_finder_mode(mode: FinderMode) -> FinderMode {
    match mode {
        FinderMode::Names => FinderMode::Contents,
        FinderMode::Contents => FinderMode::Names,
    }
}

/// Switching the finder's mode twice brings back the mode it had.
pub proof fn lemma_finder_mode_toggle_twice(mode: FinderMode)
    ensures
        other_finder_mode(other_finder_mode(mode)) == mode,
{
}

/// The scan id that follows `id`: the next one, skipping 0 on wrapping.
pub open spec fn next_scan_id(id: u64) -> u64 {
    if id == u64::MAX {
        1
    } else {
        (id + 1) as u64
    }
}

/// What a key did to the picker, and what the host does next.
#[derive(Clone, Copy, Debug, PartialEq, Eq, Structural)]
pub struct PickerStep {
    pub key: PickerKey,
    /// The query changed, so the finder ranks again.
    pub query_changed: bool,
    /// The preview follows the selection again.
    pub refresh_preview: bool,
    /// Held ranked rows are shown before the key reads the list.
    pub publish_rows: bool,
}

/// What a key does to the picker, given whether the finder runs in it and
/// the query and caret: the plain picker refreshes its preview when the
/// selection may have moved, the finder after every key that does not
/// leave it.
pub open spec fn spec_picker_step(key: KeyStroke, finder: bool, query: Seq<char>, cursor: int) -> PickerStep {
    let k = spec_picker_key(key, finder);
    let changed = match k {
        PickerKey::Edit(e) => spec_picker_edit_changes(query, cursor, e),
        _ => false,
    };
    PickerStep {
        key: k,
        query_changed: changed,
        refresh_preview: match k {
            PickerKey::Close | PickerKey::ToggleFinderMode | PickerKey::Split(_) | PickerKey::Open => false,
            PickerKey::Move(_) => true,
            PickerKey::Edit(_) => finder || changed,
            _ => finder,
        },
        publish_rows: k != PickerKey::Close && !spec_edits_picker_query(key),
    }
}

impl App {
    /// Hands out the next file or content scan id.
    pub fn allocate_file_scan_id(&mut self) -> (id: u64)
        ensures
            id == old(self).next_file_scan_id,
            final(self).next_file_scan_id == next_scan_id(id),
            final(self).next_file_scan_id != 0,
            *final(self) == (App { next_file_scan_id: final(self).next_file_scan_id, ..*old(self) }),
    {
        let id = self.next_file_scan_id;
        let next = id.wrapping_add(1);
        self.next_file_scan_id = if next < 1 {
            1
        } else {
            next
        };
        id
    }

    /// Closes the file picker and the finder in it, with the finder's
    /// content scan and the terminals marked for it.
    pub fn close_file_picker(&mut self)
        ensures
            *final(self) == (App {
                picker_query: None,
                picker_cursor: 0,
                picker_ranking: None,
                finder: None,
                finder_content_scan: None,
                finder_dirty_terminals: final(self).finder_dirty_terminals,
                ..*old(self)
            }),
            final(self).finder_dirty_terminals@.len() == 0,
    {
        self.picker_query = None;
        self.picker_cursor = 0;
        self.picker_ranking = None;
        self.finder = None;
        self.finder_content_scan = None;
        self.finder_dirty_terminals = Vec::new();
    }

    /// Switches the finder between names and contents, under a fresh scan
    /// id; hands back the new mode and that id, for the host to scan, or
    /// nothing when no finder is open.
    pub fn toggle_finder_mode(&mut self) -> (r: Option<(FinderMode, u64)>)
        ensures
            match old(self).finder {
                None => r is None && *final(self) == *old(self),
                Some(f) => {
                    &&& r == Some((other_finder_mode(f.mode), old(self).next_file_scan_id))
                    &&& final(self).next_file_scan_id == next_scan_id(old(self).next_file_scan_id)
                    &&& final(self).finder == Some(
                        crate::app::Finder { mode: other_finder_mode(f.mode), ..f },
                    )
                    &&& *final(self) == (App {
                        finder: final(self).finder,
                        next_file_scan_id: final(self).next_file_scan_id,
                        ..*old(self)
                    })
                },
            },
    {
        let Some(mut finder) = self.finder.take() else {
            return None;
        };
        let next = match finder.mode {
            FinderMode::Names => FinderMode::Contents,
            FinderMode::Contents => FinderMode::Names,
        };
        finder.mode = next;
        self.finder = Some(finder);
        let id = self.allocate_file_scan_id();
        Some((next, id))
    }

    /// Applies `edit` to the open picker's query; says whether it changed.
    fn edit_picker_query(&mut self, edit: PickerEdit) -> (changed: bool)
        requires
            old(self).picker_query matches Some(q) && old(self).picker_cursor <= q@.len() < usize::MAX,
        ensures
            changed == spec_picker_edit_changes(
                old(self).picker_query->0@,
                old(self).picker_cursor as int,
                edit,
            ),
            final(self).picker_query matches Some(q) && q@ == spec_picker_edit(
                old(self).picker_query->0@,
                old(self).picker_cursor as int,
                edit,
            ).0,
            final(self).picker_cursor == spec_picker_edit(
                old(self).picker_query->0@,
                old(self).picker_cursor as int,
                edit,
            ).1,
            *final(self) == (App {
                picker_query: final(self).picker_query,
                picker_cursor: final(self).picker_cursor,
                ..*old(self)
            }),
    {
        let mut query = self.picker_query.take().unwrap();
        let mut cursor = self.picker_cursor;
        let changed = apply_picker_edit(&mut query, &mut cursor, edit);
        self.picker_query = Some(query);
        self.picker_cursor = cursor;
        changed
    }

    /// A key while the file picker is open. Escape and Control-c close it;
    /// edits change its query and caret (deleting a word is the host's);
    /// Control-t toggles its preview; moves, splits, opening the selected
    /// row and switching the finder's mode are handed back for the host,
    /// which owns the rows. The step says whether the query changed, whether
    /// the preview follows the selection again, and whether held rows are
    /// shown before the key reads them.
    #[verifier::rlimit(60)]
    pub fn handle_picker(&mut self, key: KeyStroke) -> (step: PickerStep)
        requires
            old(self).picker_query matches Some(q) && old(self).picker_cursor <= q@.len() < usize::MAX,
        ensures
            step == spec_picker_step(
                key,
                old(self).finder is Some,
                old(self).picker_query->0@,
                old(self).picker_cursor as int,
            ),
            match step.key {
                PickerKey::Close => *final(self) == (App {
                    picker_query: None,
                    picker_cursor: 0,
                    picker_ranking: None,
                    finder: None,
                    finder_content_scan: None,
                    finder_dirty_terminals: final(self).finder_dirty_terminals,
                    ..*old(self)
                }) && final(self).finder_dirty_terminals@.len() == 0,
                PickerKey::Edit(e) => {
                    &&& final(self).picker_query matches Some(q) && q@ == spec_picker_edit(
                        old(self).picker_query->0@,
                        old(self).picker_cursor as int,
                        e,
                    ).0
                    &&& final(self).picker_cursor == spec_picker_edit(
                        old(self).picker_query->0@,
                        old(self).picker_cursor as int,
                        e,
                    ).1
                    &&& *final(self) == (App {
                        picker_query: final(self).picker_query,
                        picker_cursor: final(self).picker_cursor,
                        ..*old(self)
                    })
                },
                PickerKey::TogglePreview => *final(self) == (App {
                    picker_preview: !old(self).picker_preview,
                    ..*old(self)
                }),
                _ => *final(self) == *old(self),
            },
    {
        let finder = self.finder.is_some();
        let k = picker_key(key, finder);
        let publish_rows = !edits_picker_query(key);
        match k {
            PickerKey::Close => {
                self.close_file_picker();
                PickerStep {
                    key: k,
                    query_changed: false,
                    refresh_preview: false,
                    publish_rows: false,
                }
            },
            PickerKey::Edit(e) => {
                let changed = self.edit_picker_query(e);
                PickerStep {
                    key: k,
                    query_changed: changed,
                    refresh_preview: finder || changed,
                    publish_rows,
                }
            },
            PickerKey::TogglePreview => {
                self.picker_preview = !self.picker_preview;
                PickerStep { key: k, query_changed: false, refresh_preview: finder, publish_rows }
            },
            PickerKey::Move(_) => PickerStep {
                key: k,
                query_changed: false,
                refresh_preview: true,
                publish_rows,
            },
            PickerKey::Ignored => PickerStep {
                key: k,
                query_changed: false,
                refresh_preview: finder,
                publish_rows,
            },
            _ => PickerStep { key: k, query_changed: false, refresh_preview: false, publish_rows },
        }
    }
}

} // verus!
