//! The command prompt's text editing and the external-program chooser that
//! shares it.

use vstd::prelude::*;
use vstd::string::*;

use crate::app::{App, ProgramAction, ProgramChoice, PromptKind};
use crate::chars::{char_is_whitespace, is_whitespace};
use crate::keys::{KeyCode, KeyStroke, Mode};
use crate::menu::{Menu, MenuKey, classify_menu_key, spec_classify_menu_key};
use crate::prompt::{
    prompt_backspace, prompt_delete, prompt_delete_range, prompt_word_backward,
    spec_prompt_word_backward,
};
use crate::strings::{chars_of, push_str, string_of};

verus! {

/// Index of the first non-whitespace character of `s` (its length when
/// there is none).
pub open spec fn first_non_blank(s: Seq<char>) -> int {
    if exists|i: int| 0 <= i < s.len() && !char_is_whitespace(s[i]) {
        choose|i: int|
            0 <= i < s.len() && !char_is_whitespace(s[i]) && forall|k: int|
                0 <= k < i ==> char_is_whitespace(s[k])
    } else {
        s.len() as int
    }
}

/// One past the last non-whitespace character of `s` (zero when there is
/// none).
pub open spec fn end_non_blank(s: Seq<char>) -> int {
    if exists|i: int| 0 <= i < s.len() && !char_is_whitespace(s[i]) {
        1 + choose|i: int|
            0 <= i < s.len() && !char_is_whitespace(s[i]) && forall|k: int|
                i < k < s.len() ==> char_is_whitespace(s[k])
    } else {
        0
    }
}

/// `s` without leading and trailing whitespace.
pub open spec fn trim(s: Seq<char>) -> Seq<char> {
    if exists|i: int| 0 <= i < s.len() && !char_is_whitespace(s[i]) {
        s.subrange(first_non_blank(s), end_non_blank(s))
    } else {
        Seq::empty()
    }
}

/// `s` without leading and trailing whitespace.
pub fn trim_chars(s: &Vec<char>) -> (t: Vec<char>)
    ensures
        t@ == trim(s@),
{
    let mut a: usize = 0;
    while a < s.len() && is_whitespace(s[a])
        invariant
            a <= s@.len(),
            forall|k: int| 0 <= k < a ==> char_is_whitespace(s@[k]),
        decreases s@.len() - a,
    {
        a = a + 1;
    }
    if a == s.len() {
        return Vec::new();
    }
    proof {
        let c = first_non_blank(s@);
        assert(!char_is_whitespace(s@[a as int]));
        assert(c == a as int) by {
            if c < a {
            } else if c > a {
            }
        }
    }
    let mut b: usize = s.len();
    while b > a && is_whitespace(s[b - 1])
        invariant
            a < b <= s@.len(),
            !char_is_whitespace(s@[a as int]),
            forall|k: int| b <= k < s@.len() ==> char_is_whitespace(s@[k]),
        decreases b,
    {
        b = b - 1;
    }
    proof {
        let c = choose|i: int|
            0 <= i < s@.len() && !char_is_whitespace(s@[i]) && forall|k: int|
                i < k < s@.len() ==> char_is_whitespace(s@[k]);
        assert(!char_is_whitespace(s@[b - 1]));
        assert(c == b - 1) by {
            if c < b - 1 {
            } else if c > b - 1 {
            }
        }
    }
    let mut t: Vec<char> = Vec::new();
    let mut i: usize = a;
    while i < b
        invariant
            a <= i <= b <= s@.len(),
            t@ == s@.subrange(a as int, i as int),
        decreases b - i,
    {
        t.push(s[i]);
        assert(s@.subrange(a as int, i + 1) == s@.subrange(a as int, i as int).push(s@[i as int]));
        i = i + 1;
    }
    t
}

/// Whether `s` starts with `prefix`.
pub fn starts_with(s: &Vec<char>, prefix: &Vec<char>) -> (b: bool)
    ensures
        b == (prefix@.len() <= s@.len() && s@.subrange(0, prefix@.len() as int) == prefix@),
{
    if prefix.len() > s.len() {
        return false;
    }
    let mut i: usize = 0;
    while i < prefix.len()
        invariant
            i <= prefix@.len() <= s@.len(),
            forall|k: int| 0 <= k < i ==> s@[k] == prefix@[k],
        decreases prefix@.len() - i,
    {
        if s[i] != prefix[i] {
            assert(s@.subrange(0, prefix@.len() as int)[i as int] != prefix@[i as int]);
            return false;
        }
        i = i + 1;
    }
    assert(s@.subrange(0, prefix@.len() as int) =~= prefix@);
    true
}

/// A program passes the typed filter: nothing typed, or it starts with it.
pub open spec fn program_matches(query: Seq<char>, program: Seq<char>) -> bool {
    query.len() == 0 || (query.len() <= program.len() && program.subrange(0, query.len() as int)
        == query)
}

/// One row of the program chooser, as values: program, system opener,
/// remembered, default.
pub type ChoiceRow = (Seq<char>, bool, bool, bool);

/// The chooser rows `candidates` give, in order: each candidate (a program
/// and whether it is the system opener) that passes the filter and is not
/// already listed.
pub open spec fn choice_rows(
    query: Seq<char>,
    candidates: Seq<(Seq<char>, bool)>,
    remembered: Seq<Seq<char>>,
    default: Option<Seq<char>>,
) -> Seq<ChoiceRow>
    decreases candidates.len(),
{
    if candidates.len() == 0 {
        Seq::empty()
    } else {
        let before = choice_rows(query, candidates.drop_last(), remembered, default);
        let (program, system) = candidates.last();
        if !program_matches(query, program) || exists|i: int|
            0 <= i < before.len() && before[i].0 == program {
            before
        } else {
            before.push((program, system, remembered.contains(program), default == Some(program)))
        }
    }
}

/// The views of a list of strings.
pub open spec fn string_views(v: Seq<String>) -> Seq<Seq<char>> {
    Seq::new(v.len(), |i: int| v[i]@)
}

/// The view of an optional string.
pub open spec fn option_view(o: Option<String>) -> Option<Seq<char>> {
    match o {
        Some(s) => Some(s@),
        None => None,
    }
}

impl App {
    /// The default program: the one the cache names, else the system
    /// opener.
    pub open spec fn default_program_view(&self) -> Option<Seq<char>> {
        match self.default_program {
            Some(p) => Some(p@),
            None => option_view(self.system_program),
        }
    }

    /// The chooser's candidates in order: the default (flagged as the system
    /// opener when it is that), the system opener, then every remembered
    /// program.
    pub open spec fn program_candidates(&self) -> Seq<(Seq<char>, bool)> {
        self.candidate_head() + self.candidate_mid() + Seq::new(
            self.programs@.len(),
            |i: int| (self.programs@[i]@, false),
        )
    }

    /// The default program, as a candidate.
    pub open spec fn candidate_head(&self) -> Seq<(Seq<char>, bool)> {
        match self.default_program_view() {
            Some(d) => seq![(d, option_view(self.system_program) == Some(d))],
            None => Seq::empty(),
        }
    }

    /// The system opener, as a candidate.
    pub open spec fn candidate_mid(&self) -> Seq<(Seq<char>, bool)> {
        match self.system_program {
            Some(s) => seq![(s@, true)],
            None => Seq::empty(),
        }
    }

    /// The chooser rows for the prompt's text.
    pub open spec fn spec_program_choices(&self) -> Seq<ChoiceRow> {
        if self.prompt_kind != PromptKind::ExternalProgram {
            Seq::empty()
        } else {
            choice_rows(
                trim(self.command@),
                self.program_candidates(),
                string_views(self.programs@),
                self.default_program_view(),
            )
        }
    }

    /// Remembered programs still reachable from what has been typed.
    pub fn matching_programs(&self) -> (r: Vec<String>)
        ensures
            self.prompt_kind != PromptKind::ExternalProgram ==> r@.len() == 0,
            self.prompt_kind == PromptKind::ExternalProgram ==> string_views(r@)
                == string_views(self.programs@).filter(
                |p: Seq<char>| program_matches(trim(self.command@), p),
            ),
    {
        let mut r: Vec<String> = Vec::new();
        if self.prompt_kind != PromptKind::ExternalProgram {
            return r;
        }
        let query = trim_chars(&self.command);
        let ghost pred = |p: Seq<char>| program_matches(trim(self.command@), p);
        let ghost all = string_views(self.programs@);
        proof {
            reveal(Seq::filter);
            assert(string_views(r@) =~= all.take(0).filter(pred));
        }
        let mut i: usize = 0;
        while i < self.programs.len()
            invariant
                pred == (|p: Seq<char>| program_matches(trim(self.command@), p)),
                all == string_views(self.programs@),
                query@ == trim(self.command@),
                i <= self.programs@.len(),
                string_views(r@) == all.take(i as int).filter(pred),
            decreases self.programs@.len() - i,
        {
            let program = chars_of(self.programs[i].as_str());
            let keep = query.len() == 0 || starts_with(&program, &query);
            assert(all.take(i + 1).drop_last() == all.take(i as int));
            assert(all.take(i + 1).last() == self.programs@[i as int]@);
            if keep {
                r.push(self.programs[i].clone());
                assert(string_views(r@) == all.take(i + 1).filter(pred)) by {
                    reveal(Seq::filter);
                    assert(string_views(r@) =~= string_views(r@.drop_last()).push(
                        self.programs@[i as int]@,
                    ));
                }
            } else {
                assert(string_views(r@) == all.take(i + 1).filter(pred)) by {
                    reveal(Seq::filter);
                }
            }
            i = i + 1;
        }
        assert(all.take(all.len() as int) == all);
        r
    }
}

/// A chooser row as values.
pub open spec fn choice_view(c: ProgramChoice) -> ChoiceRow {
    (c.program@, c.system, c.remembered, c.is_default)
}

/// The rows of `v` as values.
pub open spec fn choice_views(v: Seq<ProgramChoice>) -> Seq<ChoiceRow> {
    Seq::new(v.len(), |i: int| choice_view(v[i]))
}

/// Whether `v` holds a string equal to `s`.
fn contains_string(v: &Vec<String>, s: &String) -> (b: bool)
    ensures
        b == string_views(v@).contains(s@),
{
    let mut i: usize = 0;
    while i < v.len()
        invariant
            i <= v@.len(),
            forall|k: int| 0 <= k < i ==> v@[k]@ != s@,
        decreases v@.len() - i,
    {
        if v[i] == *s {
            assert(string_views(v@)[i as int] == s@);
            return true;
        }
        i = i + 1;
    }
    proof {
        if string_views(v@).contains(s@) {
            let k = choose|k: int| 0 <= k < string_views(v@).len() && string_views(v@)[k] == s@;
            assert(v@[k]@ == s@);
        }
    }
    false
}

/// Whether a row for `program` is already listed.
fn listed(choices: &Vec<ProgramChoice>, program: &String) -> (b: bool)
    ensures
        b == exists|i: int| 0 <= i < choices@.len() && choice_views(choices@)[i].0 == program@,
{
    let mut i: usize = 0;
    while i < choices.len()
        invariant
            i <= choices@.len(),
            forall|k: int| 0 <= k < i ==> choices@[k].program@ != program@,
        decreases choices@.len() - i,
    {
        if choices[i].program == *program {
            assert(choice_views(choices@)[i as int].0 == program@);
            return true;
        }
        i = i + 1;
    }
    proof {
        assert forall|k: int| 0 <= k < choices@.len() implies choice_views(choices@)[k].0 != program@ by {
            assert(choices@[k].program@ != program@);
        }
    }
    false
}

/// Whether two optional strings hold the same text.
fn same_option(a: &Option<String>, b: &String) -> (r: bool)
    ensures
        r == (option_view(*a) == Some(b@)),
{
    match a {
        Some(s) => *s == *b,
        None => false,
    }
}

impl App {
    /// The chooser's candidates, in order.
    fn program_candidate_list(&self) -> (c: Vec<(String, bool)>)
        ensures
            c@.len() == self.program_candidates().len(),
            forall|i: int|
                0 <= i < c@.len() ==> (#[trigger] c@[i]).0@ == self.program_candidates()[i].0
                    && c@[i].1 == self.program_candidates()[i].1,
    {
        let mut c: Vec<(String, bool)> = Vec::new();
        let default = match &self.default_program {
            Some(p) => Some(p.clone()),
            None => match &self.system_program {
                Some(s) => Some(s.clone()),
                None => None,
            },
        };
        let ghost head = self.candidate_head();
        let ghost mid = self.candidate_mid();
        let ghost tail = Seq::new(self.programs@.len(), |i: int| (self.programs@[i]@, false));
        match default {
            Some(d) => {
                let is_system = same_option(&self.system_program, &d);
                c.push((d, is_system));
            },
            None => {},
        }
        match &self.system_program {
            Some(s) => c.push((s.clone(), true)),
            None => {},
        }
        let ghost prefix = head + mid;
        assert(c@.len() == prefix.len());
        let mut i: usize = 0;
        while i < self.programs.len()
            invariant
                prefix == head + mid,
                self.program_candidates() == prefix + tail,
                tail == Seq::new(self.programs@.len(), |i: int| (self.programs@[i]@, false)),
                i <= self.programs@.len(),
                c@.len() == prefix.len() + i,
                forall|k: int|
                    0 <= k < c@.len() ==> (#[trigger] c@[k]).0@ == (prefix + tail)[k].0 && c@[k].1
                        == (prefix + tail)[k].1,
            decreases self.programs@.len() - i,
        {
            c.push((self.programs[i].clone(), false));
            i = i + 1;
        }
        c
    }

    /// Selectable external-program rows, with the configured default first.
    pub fn matching_program_choices(&self) -> (r: Vec<ProgramChoice>)
        ensures
            choice_views(r@) == self.spec_program_choices(),
    {
        let mut choices: Vec<ProgramChoice> = Vec::new();
        if self.prompt_kind != PromptKind::ExternalProgram {
            assert(choice_views(choices@) =~= Seq::<ChoiceRow>::empty());
            return choices;
        }
        let query = trim_chars(&self.command);
        let default = match &self.default_program {
            Some(p) => Some(p.clone()),
            None => match &self.system_program {
                Some(s) => Some(s.clone()),
                None => None,
            },
        };
        assert(option_view(default) == self.default_program_view());
        let candidates = self.program_candidate_list();
        let ghost cands = self.program_candidates();
        let ghost remembered = string_views(self.programs@);
        assert(choice_views(choices@) =~= choice_rows(
            query@,
            cands.take(0),
            remembered,
            option_view(default),
        ));
        let mut i: usize = 0;
        while i < candidates.len()
            invariant
                query@ == trim(self.command@),
                cands == self.program_candidates(),
                remembered == string_views(self.programs@),
                candidates@.len() == cands.len(),
                forall|k: int|
                    0 <= k < candidates@.len() ==> (#[trigger] candidates@[k]).0@ == cands[k].0
                        && candidates@[k].1 == cands[k].1,
                i <= candidates@.len(),
                choice_views(choices@) == choice_rows(
                    query@,
                    cands.take(i as int),
                    remembered,
                    option_view(default),
                ),
            decreases candidates@.len() - i,
        {
            let (program, system) = (&candidates[i].0, candidates[i].1);
            assert(cands.take(i + 1).drop_last() == cands.take(i as int));
            assert(cands.take(i + 1).last() == cands[i as int]);
            let chars = chars_of(program.as_str());
            let passes = query.len() == 0 || starts_with(&chars, &query);
            let already = listed(&choices, program);
            if passes && !already {
                let remembered_here = contains_string(&self.programs, program);
                let is_default = same_option(&default, program);
                let ghost before = choices@;
                choices.push(
                    ProgramChoice {
                        program: program.clone(),
                        system,
                        remembered: remembered_here,
                        is_default,
                    },
                );
                assert(choice_views(choices@) =~= choice_views(before).push(
                    choice_view(choices@.last()),
                ));
            }
            i = i + 1;
        }
        assert(cands.take(cands.len() as int) == cands);
        choices
    }

    /// The chooser row the prompt's selection names.
    fn selected_program_choice(&self) -> (c: Option<ProgramChoice>)
        ensures
            match c {
                Some(choice) => self.command_selection < self.spec_program_choices().len()
                    && choice_view(choice) == self.spec_program_choices()[self.command_selection as int],
                None => self.command_selection >= self.spec_program_choices().len(),
            },
    {
        let choices = self.matching_program_choices();
        if self.command_selection < choices.len() {
            let row = &choices[self.command_selection];
            let choice = ProgramChoice {
                program: row.program.clone(),
                system: row.system,
                remembered: row.remembered,
                is_default: row.is_default,
            };
            assert(choice_view(choices@[self.command_selection as int])
                == choice_views(choices@)[self.command_selection as int]);
            Some(choice)
        } else {
            None
        }
    }
}

/// What a Control key did in the prompt.
#[derive(Clone, Copy, Debug, PartialEq, Eq, Structural)]
pub enum PromptControl {
    /// The text or caret was edited, or nothing happened.
    Edited,
    /// The prompt was closed.
    Closed,
    /// Saving was asked for; the host saves.
    SaveRequested,
}

/// The prompt's text and caret after Control-`c` other than `c` and `s`.
pub open spec fn spec_prompt_control_edit(value: Seq<char>, cursor: int, c: char) -> (Seq<char>, int) {
    if c == 'b' {
        (value, if cursor > 0 {
            cursor - 1
        } else {
            0
        })
    } else if c == 'f' {
        (value, if cursor + 1 < value.len() {
            cursor + 1
        } else {
            value.len() as int
        })
    } else if c == 'a' {
        (value, 0)
    } else if c == 'e' {
        (value, value.len() as int)
    } else if c == 'w' {
        let start = spec_prompt_word_backward(value, cursor);
        (value.subrange(0, start) + value.subrange(cursor, value.len() as int), start)
    } else if c == 'u' {
        (value.subrange(cursor, value.len() as int), 0)
    } else if c == 'k' {
        (value.subrange(0, cursor), cursor)
    } else if c == 'h' {
        if cursor > 0 {
            (value.remove(cursor - 1), cursor - 1)
        } else {
            (value, cursor)
        }
    } else if c == 'd' {
        if cursor < value.len() {
            (value.remove(cursor), cursor)
        } else {
            (value, cursor)
        }
    } else {
        (value, cursor)
    }
}

/// What Control key `key` does in the prompt, from `before` to `after`
/// with outcome `r`: see `App::handle_prompt_control`.
pub open spec fn prompt_control_step(before: App, after: App, key: KeyStroke, r: PromptControl) -> bool {
    &&& (key.code == KeyCode::Char('c') ==> r == PromptControl::Closed && prompt_closed(before, after))
    &&& (key.code == KeyCode::Char('s') ==> r == PromptControl::SaveRequested && after
        == before)
    &&& (!(key.code == KeyCode::Char('c') || key.code == KeyCode::Char('s')) ==> {
        &&& r == PromptControl::Edited
        &&& after.command_cursor <= after.command@.len()
        &&& match key.code {
            KeyCode::Char(c) => {
                &&& after.command@ == spec_prompt_control_edit(
                    before.command@,
                    before.command_cursor as int,
                    c,
                ).0
                &&& after.command_cursor == spec_prompt_control_edit(
                    before.command@,
                    before.command_cursor as int,
                    c,
                ).1
            },
            _ => after.command@ == before.command@ && after.command_cursor
                == before.command_cursor,
        }
    })
}

/// What opening the actions for the selected program row makes of
/// `before`: `after`. See `App::open_program_actions`.
pub open spec fn program_actions_opened(before: App, after: App) -> bool {
    match before.selected_row() {
        None => after == before,
        Some(row) => if !row.2 && row.3 {
            after.status@ == "the system opener is already the default"@
                && !after.status_error && after.program_action_menu
                == before.program_action_menu
        } else {
            after.program_action_menu matches Some((choice, menu)) && choice_view(
                choice,
            ) == row && menu.wf() && menu.selected == 0 && !menu.armed && menu.actions@
                == (if row.2 {
                seq![ProgramAction::Delete]
            } else {
                Seq::<ProgramAction>::empty()
            }) + (if !row.3 {
                seq![ProgramAction::SetDefault]
            } else {
                Seq::<ProgramAction>::empty()
            })
        },
    }
}

/// Closing the prompt of `before` gives `after`: its text, caret, selection
/// and program menu are dropped, it reverts to a command prompt, and the
/// mode becomes the one the grammar prefers, else Normal.
pub open spec fn prompt_closed(before: App, after: App) -> bool {
    &&& after.command@.len() == 0
    &&& after.command_cursor == 0
    &&& after.command_selection == 0
    &&& after.program_action_menu is None
    &&& after.prompt_kind == PromptKind::Command
    &&& after.mode == (match before.grammar.preferred_mode {
        Some(m) => m,
        None => Mode::Normal,
    })
    &&& after == (App {
        mode: after.mode,
        prompt_kind: after.prompt_kind,
        command: after.command,
        command_cursor: after.command_cursor,
        command_selection: after.command_selection,
        program_action_menu: after.program_action_menu,
        ..before
    })
}

impl App {
    /// Opens a prompt of `kind` with empty text, remembering the mode it
    /// was opened from unless a prompt was already open.
    pub fn open_prompt(&mut self, kind: PromptKind)
        ensures
            final(self).mode == Mode::Command,
            final(self).prompt_origin_mode == (if old(self).mode != Mode::Command {
                old(self).mode
            } else {
                old(self).prompt_origin_mode
            }),
            final(self).prompt_kind == kind,
            final(self).command@.len() == 0,
            final(self).command_cursor == 0,
            final(self).command_selection == 0,
            final(self).program_action_menu is None,
            final(self).prompt_revision == (if old(self).prompt_revision == u64::MAX {
                0
            } else {
                old(self).prompt_revision + 1
            }),
            *final(self) == (App {
                mode: final(self).mode,
                prompt_origin_mode: final(self).prompt_origin_mode,
                prompt_kind: final(self).prompt_kind,
                command: final(self).command,
                command_cursor: final(self).command_cursor,
                command_selection: final(self).command_selection,
                program_action_menu: final(self).program_action_menu,
                prompt_revision: final(self).prompt_revision,
                ..*old(self)
            }),
    {
        if self.mode != Mode::Command {
            self.prompt_origin_mode = self.mode;
        }
        self.mode = Mode::Command;
        self.prompt_kind = kind;
        self.command = Vec::new();
        self.command_cursor = 0;
        self.command_selection = 0;
        self.program_action_menu = None;
        self.prompt_revision = self.prompt_revision.wrapping_add(1);
    }

    /// Opens a prompt of `kind` holding `value`, with the caret after it.
    pub fn open_prompt_with_value(&mut self, kind: PromptKind, value: Vec<char>)
        ensures
            final(self).mode == Mode::Command,
            final(self).prompt_kind == kind,
            final(self).command@ == value@,
            final(self).command_cursor == value@.len(),
            final(self).command_selection == 0,
            final(self).program_action_menu is None,
    {
        self.open_prompt(kind);
        self.command_cursor = value.len();
        self.command = value;
        self.prompt_revision = self.prompt_revision.wrapping_add(1);
    }

    /// Closes the prompt: its text, caret, selection and program menu are
    /// dropped, it reverts to a command prompt, and the mode becomes the one
    /// the grammar prefers, else Normal.
    pub fn close_prompt(&mut self)
        ensures
            prompt_closed(*old(self), *final(self)),
    {
        self.command = Vec::new();
        self.command_cursor = 0;
        self.command_selection = 0;
        self.program_action_menu = None;
        self.prompt_kind = PromptKind::Command;
        self.mode = match self.grammar.preferred_mode {
            Some(m) => m,
            None => Mode::Normal,
        };
    }

    /// A Control key in the prompt: `c` closes it, `s` asks to save, `b`,
    /// `f`, `a` and `e` move the caret, `w`, `u` and `k` delete the word
    /// before it, everything before it and everything after it, `h` and `d`
    /// delete the character before and under it.
    pub fn handle_prompt_control(&mut self, key: KeyStroke) -> (r: PromptControl)
        requires
            old(self).command_cursor <= old(self).command@.len(),
        ensures
            prompt_control_step(*old(self), *final(self), key, r),
    {
        let c = match key.code {
            KeyCode::Char(c) => c,
            _ => return PromptControl::Edited,
        };
        let len = self.command.len();
        if c == 'c' {
            self.close_prompt();
            return PromptControl::Closed;
        } else if c == 's' {
            return PromptControl::SaveRequested;
        } else if c == 'b' {
            self.command_cursor = self.command_cursor.saturating_sub(1);
        } else if c == 'f' {
            self.command_cursor = if self.command_cursor < len {
                self.command_cursor + 1
            } else {
                len
            };
        } else if c == 'a' {
            self.command_cursor = 0;
        } else if c == 'e' {
            self.command_cursor = len;
        } else if c == 'w' {
            let start = prompt_word_backward(&self.command, self.command_cursor);
            prompt_delete_range(&mut self.command, start, self.command_cursor);
            self.command_cursor = start;
        } else if c == 'u' {
            prompt_delete_range(&mut self.command, 0, self.command_cursor);
            self.command_cursor = 0;
        } else if c == 'k' {
            prompt_delete_range(&mut self.command, self.command_cursor, len);
        } else if c == 'h' {
            prompt_backspace(&mut self.command, &mut self.command_cursor);
        } else if c == 'd' {
            prompt_delete(&mut self.command, self.command_cursor);
        }
        PromptControl::Edited
    }

    /// Opens the actions for the selected program row: forgetting it when
    /// it is remembered, making it the default when it is not. A row with
    /// neither leaves a status line instead.
    pub fn open_program_actions(&mut self)
        ensures
            program_actions_opened(*old(self), *final(self)),
    {
        let Some(choice) = self.selected_program_choice() else {
            return;
        };
        let mut actions: Vec<ProgramAction> = Vec::new();
        if choice.remembered {
            actions.push(ProgramAction::Delete);
        }
        if !choice.is_default {
            actions.push(ProgramAction::SetDefault);
        }
        if actions.len() == 0 {
            self.status = String::from_str("the system opener is already the default");
            self.status_error = false;
            return;
        }
        proof {
            assert(actions@ =~= (if choice.remembered {
                seq![ProgramAction::Delete]
            } else {
                Seq::<ProgramAction>::empty()
            }) + (if !choice.is_default {
                seq![ProgramAction::SetDefault]
            } else {
                Seq::<ProgramAction>::empty()
            }));
        }
        self.program_action_menu = Some((choice, Menu::new(actions)));
    }

    /// The selected row of the program chooser, as values.
    pub open spec fn selected_row(&self) -> Option<ChoiceRow> {
        if self.command_selection < self.spec_program_choices().len() {
            Some(self.spec_program_choices()[self.command_selection as int])
        } else {
            None
        }
    }

    /// A key in the program-action menu. Closing keys drop the menu; moving
    /// keys move its selection round; Enter hands back the row and the
    /// selected action for the host to run.
    pub fn handle_program_action_key(&mut self, key: KeyStroke) -> (r: Option<(ProgramChoice, ProgramAction)>)
        requires
            old(self).program_action_menu matches Some(m) ==> m.1.wf(),
            spec_classify_menu_key(key) == MenuKey::Next || spec_classify_menu_key(key)
                == MenuKey::Previous ==> old(self).program_action_menu is Some,
        ensures
            spec_classify_menu_key(key) == MenuKey::Close ==> r is None
                && final(self).program_action_menu is None,
            spec_classify_menu_key(key) == MenuKey::Next ==> r is None && (final(self).program_action_menu matches Some(m) && old(self).program_action_menu matches Some(o) && m.1.actions@ == o.1.actions@ && (o.1.actions@.len() > 0 ==> m.1.selected
                == crate::menu::next_index(o.1.selected as int, o.1.actions@.len() as int))),
            spec_classify_menu_key(key) == MenuKey::Previous ==> r is None && (final(self).program_action_menu matches Some(m) && old(self).program_action_menu matches Some(o) && m.1.actions@ == o.1.actions@ && (o.1.actions@.len() > 0 ==> m.1.selected
                == crate::menu::previous_index(o.1.selected as int, o.1.actions@.len() as int))),
            spec_classify_menu_key(key) == MenuKey::Choose ==> final(self).program_action_menu
                == old(self).program_action_menu && match old(self).program_action_menu {
                Some(m) => if m.1.selected < m.1.actions@.len() {
                    r matches Some(chosen) && choice_view(chosen.0) == choice_view(m.0) && chosen.1
                        == m.1.actions@[m.1.selected as int]
                } else {
                    r is None
                },
                None => r is None,
            },
            spec_classify_menu_key(key) == MenuKey::Other ==> r is None
                && final(self).program_action_menu == old(self).program_action_menu,
    {
        match classify_menu_key(key) {
            MenuKey::Close => {
                self.program_action_menu = None;
                None
            },
            MenuKey::Next => {
                let (choice, mut menu) = self.program_action_menu.take().unwrap();
                menu.select_next();
                self.program_action_menu = Some((choice, menu));
                None
            },
            MenuKey::Previous => {
                let (choice, mut menu) = self.program_action_menu.take().unwrap();
                menu.select_previous();
                self.program_action_menu = Some((choice, menu));
                None
            },
            MenuKey::Choose => match &self.program_action_menu {
                Some((choice, menu)) => match menu.selected_action() {
                    Some(action) => Some(
                        (
                            ProgramChoice {
                                program: choice.program.clone(),
                                system: choice.system,
                                remembered: choice.remembered,
                                is_default: choice.is_default,
                            },
                            action,
                        ),
                    ),
                    None => None,
                },
                None => None,
            },
            MenuKey::Other => None,
        }
    }
}

/// What a key did in a text prompt.
pub enum PromptKeyOutcome {
    /// The text, caret or selection changed, or nothing happened.
    Edited,
    /// The prompt was closed without submitting.
    Closed,
    /// Saving was asked for; the host saves.
    SaveRequested,
    /// The prompt was submitted and closed; the host acts on what kind of
    /// prompt it was, its text, and for the program chooser the selected
    /// row.
    Submitted { kind: PromptKind, value: Vec<char>, choice: Option<ProgramChoice> },
    /// Tab in the finder-path prompt: the host completes the selected hint.
    CompleteFinderPath,
}

/// The prompt's text, caret and selection after an unmodified editing key,
/// for a list of `rows` rows under it.
pub open spec fn spec_prompt_edit(
    value: Seq<char>,
    cursor: int,
    selection: int,
    kind: PromptKind,
    rows: int,
    code: KeyCode,
) -> (Seq<char>, int, int) {
    let listed = kind == PromptKind::ExternalProgram || kind == PromptKind::FinderPath;
    match code {
        KeyCode::Backspace => if cursor > 0 {
            (value.remove(cursor - 1), cursor - 1, 0)
        } else {
            (value, cursor, 0)
        },
        KeyCode::Delete => if cursor < value.len() {
            (value.remove(cursor), cursor, 0)
        } else {
            (value, cursor, 0)
        },
        KeyCode::Left => (value, if cursor > 0 {
            cursor - 1
        } else {
            0
        }, selection),
        KeyCode::Right => (value, if cursor + 1 < value.len() {
            cursor + 1
        } else {
            value.len() as int
        }, selection),
        KeyCode::Home => (value, 0, selection),
        KeyCode::End => (value, value.len() as int, selection),
        KeyCode::Up | KeyCode::BackTab => if listed {
            (value, cursor, if selection > 0 {
                selection - 1
            } else {
                0
            })
        } else {
            (value, cursor, selection)
        },
        KeyCode::Down => if listed {
            let last = if rows > 0 {
                rows - 1
            } else {
                0
            };
            (value, cursor, if selection + 1 < last {
                selection + 1
            } else {
                last
            })
        } else {
            (value, cursor, selection)
        },
        KeyCode::Char(c) => (value.insert(cursor, c), cursor + 1, 0),
        _ => (value, cursor, selection),
    }
}

impl App {
    /// How many rows are listed under the prompt.
    pub open spec fn prompt_rows(&self) -> int {
        if self.prompt_kind == PromptKind::ExternalProgram {
            self.spec_program_choices().len() as int
        } else {
            self.finder_hint_count as int
        }
    }

    /// A key in a text prompt. Control keys go to `handle_prompt_control`;
    /// Alt-b and Alt-f move the caret by words; Escape closes the prompt;
    /// Enter submits it; Tab opens the program actions or completes a path
    /// hint; every other key edits as `spec_prompt_edit` says.
    pub fn handle_search_prompt(&mut self, key: KeyStroke) -> (r: PromptKeyOutcome)
        requires
            old(self).command_cursor <= old(self).command@.len() < usize::MAX,
        ensures
            key.modifiers.control ==> prompt_control_step(
                *old(self),
                *final(self),
                key,
                match r {
                    PromptKeyOutcome::Closed => PromptControl::Closed,
                    PromptKeyOutcome::SaveRequested => PromptControl::SaveRequested,
                    _ => PromptControl::Edited,
                },
            ) && (r is Closed || r is SaveRequested || r is Edited),
            !key.modifiers.control && key.modifiers.alt ==> r is Edited && final(self).command@
                == old(self).command@ && final(self).command_cursor == match key.code {
                KeyCode::Char(c) => if c == 'b' {
                    crate::prompt::spec_prompt_word_backward(
                        old(self).command@,
                        old(self).command_cursor as int,
                    )
                } else if c == 'f' {
                    crate::prompt::spec_prompt_word_forward(
                        old(self).command@,
                        old(self).command_cursor as int,
                    )
                } else {
                    old(self).command_cursor as int
                },
                _ => old(self).command_cursor as int,
            },
            !key.modifiers.control && !key.modifiers.alt && key.code == KeyCode::Escape ==> r is Closed
                && prompt_closed(*old(self), *final(self)),
            !key.modifiers.control && !key.modifiers.alt && key.code == KeyCode::Enter ==> (
            r matches PromptKeyOutcome::Submitted { kind, value, choice } && kind == old(self).prompt_kind && value@ == old(self).command@ && (kind
                == PromptKind::ExternalProgram ==> match choice {
                Some(c) => old(self).selected_row() == Some(choice_view(c)),
                None => old(self).selected_row() is None,
            }) && (kind != PromptKind::ExternalProgram ==> choice is None)) && prompt_closed(*old(self), *final(self)),
            !key.modifiers.control && !key.modifiers.alt && key.code == KeyCode::Tab ==> (
            old(self).prompt_kind == PromptKind::FinderPath ==> r is CompleteFinderPath && *final(self) == *old(self))
                && (old(self).prompt_kind == PromptKind::ExternalProgram ==> r is Edited
                && program_actions_opened(*old(self), *final(self))) && (old(self).prompt_kind
                != PromptKind::FinderPath && old(self).prompt_kind != PromptKind::ExternalProgram
                ==> r is Edited && *final(self) == *old(self)),
            !key.modifiers.control && !key.modifiers.alt && key.code != KeyCode::Escape && key.code
                != KeyCode::Enter && key.code != KeyCode::Tab ==> {
                let e = spec_prompt_edit(
                    old(self).command@,
                    old(self).command_cursor as int,
                    old(self).command_selection as int,
                    old(self).prompt_kind,
                    old(self).prompt_rows(),
                    key.code,
                );
                &&& r is Edited
                &&& final(self).command@ == e.0
                &&& final(self).command_cursor == e.1
                &&& final(self).command_selection == e.2
                &&& final(self).prompt_kind == old(self).prompt_kind
            },
    {
        if key.modifiers.control {
            return match self.handle_prompt_control(key) {
                PromptControl::Edited => PromptKeyOutcome::Edited,
                PromptControl::Closed => PromptKeyOutcome::Closed,
                PromptControl::SaveRequested => PromptKeyOutcome::SaveRequested,
            };
        }
        if key.modifiers.alt {
            match key.code {
                KeyCode::Char(c) => {
                    if c == 'b' {
                        self.command_cursor = prompt_word_backward(&self.command, self.command_cursor);
                    } else if c == 'f' {
                        self.command_cursor = crate::prompt::prompt_word_forward(
                            &self.command,
                            self.command_cursor,
                        );
                    }
                },
                _ => {},
            }
            return PromptKeyOutcome::Edited;
        }
        let listed = self.prompt_kind == PromptKind::ExternalProgram || self.prompt_kind
            == PromptKind::FinderPath;
        let len = self.command.len();
        match key.code {
            KeyCode::Escape => {
                self.close_prompt();
                return PromptKeyOutcome::Closed;
            },
            KeyCode::Enter => {
                let kind = self.prompt_kind;
                let choice = if kind == PromptKind::ExternalProgram {
                    self.selected_program_choice()
                } else {
                    None
                };
                let mut value: Vec<char> = Vec::new();
                std::mem::swap(&mut value, &mut self.command);
                self.close_prompt();
                return PromptKeyOutcome::Submitted { kind, value, choice };
            },
            KeyCode::Tab => {
                if self.prompt_kind == PromptKind::ExternalProgram {
                    self.open_program_actions();
                } else if self.prompt_kind == PromptKind::FinderPath {
                    return PromptKeyOutcome::CompleteFinderPath;
                }
                return PromptKeyOutcome::Edited;
            },
            KeyCode::Backspace => {
                prompt_backspace(&mut self.command, &mut self.command_cursor);
                self.command_selection = 0;
            },
            KeyCode::Delete => {
                prompt_delete(&mut self.command, self.command_cursor);
                self.command_selection = 0;
            },
            KeyCode::Left => {
                self.command_cursor = self.command_cursor.saturating_sub(1);
            },
            KeyCode::Right => {
                self.command_cursor = if self.command_cursor < len {
                    self.command_cursor + 1
                } else {
                    len
                };
            },
            KeyCode::Home => {
                self.command_cursor = 0;
            },
            KeyCode::End => {
                self.command_cursor = len;
            },
            KeyCode::Up | KeyCode::BackTab => {
                if listed {
                    self.command_selection = self.command_selection.saturating_sub(1);
                }
            },
            KeyCode::Down => {
                if listed {
                    let rows = if self.prompt_kind == PromptKind::ExternalProgram {
                        self.matching_program_choices().len()
                    } else {
                        self.finder_hint_count
                    };
                    let last = rows.saturating_sub(1);
                    self.command_selection = if self.command_selection < last {
                        self.command_selection + 1
                    } else {
                        last
                    };
                }
            },
            KeyCode::Char(ch) => {
                crate::prompt::prompt_insert(&mut self.command, self.command_cursor, ch);
                self.command_cursor = self.command_cursor + 1;
                self.command_selection = 0;
            },
            _ => {},
        }
        PromptKeyOutcome::Edited
    }
}

/// What the program store is asked to do for a program action: forget the
/// program, or make it the default (the system opener clears the default).
#[derive(Clone, Debug)]
pub enum ProgramStorageCall {
    Forget(String),
    SetDefault(Option<String>),
}

/// The store call a program action makes.
pub fn program_storage_call(choice: &ProgramChoice, action: ProgramAction) -> (c: ProgramStorageCall)
    ensures
        action == ProgramAction::Delete ==> (c matches ProgramStorageCall::Forget(p) && p@
            == choice.program@),
        action == ProgramAction::SetDefault ==> (c matches ProgramStorageCall::SetDefault(d) && (
        if choice.system {
            d is None
        } else {
            (d matches Some(p) && p@ == choice.program@)
        })),
{
    match action {
        ProgramAction::Delete => ProgramStorageCall::Forget(choice.program.clone()),
        ProgramAction::SetDefault => ProgramStorageCall::SetDefault(
            if choice.system {
                None
            } else {
                Some(choice.program.clone())
            },
        ),
    }
}

impl App {
    /// Finishes a program action once the store answered `stored`: on
    /// success the menu and the prompt's text close and the status says
    /// what changed; a failure is shown as an error and leaves them open.
    pub fn run_program_action(&mut self, choice: &ProgramChoice, action: ProgramAction, stored: Result<(), String>)
        ensures
            match stored {
                Ok(_) => {
                    &&& final(self).program_action_menu is None
                    &&& final(self).command@.len() == 0
                    &&& final(self).command_cursor == 0
                    &&& final(self).command_selection == 0
                    &&& !final(self).status_error
                    &&& final(self).status@ == if action == ProgramAction::Delete {
                        "forgot "@ + choice.program@
                    } else {
                        choice.program@ + " is now the default application"@
                    }
                },
                Err(e) => final(self).status@ == e@ && final(self).status_error
                    && final(self).program_action_menu == old(self).program_action_menu
                    && final(self).command == old(self).command,
            },
    {
        match stored {
            Ok(()) => {
                self.program_action_menu = None;
                self.command = Vec::new();
                self.command_cursor = 0;
                self.command_selection = 0;
                let message = if action == ProgramAction::Delete {
                    let mut m = chars_of("forgot ");
                    push_str(&mut m, choice.program.as_str());
                    m
                } else {
                    let mut m = chars_of(choice.program.as_str());
                    push_str(&mut m, " is now the default application");
                    m
                };
                self.set_status(string_of(&message));
            },
            Err(e) => {
                self.status = e;
                self.status_error = true;
            },
        }
    }
}

impl App {
    /// Moves the command palette's selection down one of its `count` rows,
    /// wrapping round.
    pub fn select_next_command(&mut self, count: usize)
        ensures
            count > 0 ==> final(self).command_selection == crate::menu::next_index(
                old(self).command_selection as int,
                count as int,
            ),
            count == 0 ==> final(self).command_selection == old(self).command_selection,
            *final(self) == (App { command_selection: final(self).command_selection, ..*old(self) }),
    {
        if count > 0 {
            let next = (self.command_selection as u128 + 1) % (count as u128);
            self.command_selection = next as usize;
        }
    }

    /// Moves the command palette's selection up one of its `count` rows,
    /// wrapping round.
    pub fn select_previous_command(&mut self, count: usize)
        ensures
            count > 0 ==> final(self).command_selection == crate::menu::previous_index(
                old(self).command_selection as int,
                count as int,
            ),
            count == 0 ==> final(self).command_selection == old(self).command_selection,
            *final(self) == (App { command_selection: final(self).command_selection, ..*old(self) }),
    {
        if count > 0 {
            let previous = (self.command_selection as u128 + count as u128 - 1) % (count as u128);
            self.command_selection = previous as usize;
        }
    }
}

} // verus!
