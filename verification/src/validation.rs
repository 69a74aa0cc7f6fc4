//! Taking in a plugin's validation answer for an open input surface.

use vstd::prelude::*;

use crate::app::App;
use crate::surface::{
    first_rejected, revision_tag, Field, FieldValidation, Surface, ValidationIntent, ValidationState, ValidationStatus, Value,
};
use crate::confirm::same_chars;
use crate::plugin_input::{copy_value, same_value, submission_matches, sync_effects};
use crate::strings::{push_decimal, string_of};

verus! {

/// Whether answer `a` is for some validated field of `fields`.
pub open spec fn answer_expected(fields: Seq<Field>, a: FieldValidation) -> bool {
    exists|k: int| 0 <= k < fields.len() && (#[trigger] fields[k]).validate && fields[k].id@ == a.field@
}

/// Whether some answer of `answers` is for field `f`.
pub open spec fn field_answered(answers: Seq<FieldValidation>, f: Field) -> bool {
    exists|i: int| 0 <= i < answers.len() && (#[trigger] answers[i]).field@ == f.id@
}

/// No two answers are for the same field.
pub open spec fn answers_distinct(answers: Seq<FieldValidation>) -> bool {
    forall|i: int, j: int|
        0 <= i < j < answers.len() ==> (#[trigger] answers[i]).field@ != (#[trigger] answers[j]).field@
}

/// Whether `answers` answer exactly the validated `fields`: each field at
/// most once, no field that is not validated, and every validated one.
pub open spec fn answers_match(fields: Seq<Field>, answers: Seq<FieldValidation>) -> bool {
    &&& answers_distinct(answers)
    &&& forall|i: int| 0 <= i < answers.len() ==> answer_expected(fields, #[trigger] answers[i])
    &&& forall|k: int|
        0 <= k < fields.len() && (#[trigger] fields[k]).validate ==> field_answered(answers, fields[k])
}

/// The first field whose id is `id`, if any.
pub open spec fn field_named(fields: Seq<Field>, id: Seq<char>) -> Option<int> {
    if exists|k: int| 0 <= k < fields.len() && (#[trigger] fields[k]).id@ == id {
        Some(
            choose|k: int|
                0 <= k < fields.len() && (#[trigger] fields[k]).id@ == id && forall|j: int|
                    0 <= j < k ==> (#[trigger] fields[j]).id@ != id,
        )
    } else {
        None
    }
}

/// What taking in a validation answer did.
#[derive(Clone, Copy, Debug, PartialEq, Eq, Structural)]
pub enum ValidationOutcome {
    /// The answer is not for the request in flight.
    Ignored,
    /// The answer is for values that have changed since.
    Stale,
    /// The answer does not answer the validated fields.
    Unavailable,
    /// The answer was taken in; `submit` says whether the form is now
    /// submitted.
    Checked { submit: bool },
}

/// Whether a validated field `k` exists with id `id`.
fn validates(fields: &Vec<Field>, id: &String) -> (b: bool)
    ensures
        b == answer_expected(fields@, FieldValidation { field: *id, status: ValidationStatus::Valid }),
{
    let mut k: usize = 0;
    while k < fields.len()
        invariant
            k <= fields@.len(),
            forall|j: int| 0 <= j < k ==> !((#[trigger] fields@[j]).validate && fields@[j].id@ == id@),
        decreases fields@.len() - k,
    {
        if fields[k].validate && fields[k].id == *id {
            return true;
        }
        k = k + 1;
    }
    false
}

/// Whether some answer is for the field `id`.
fn answered(answers: &Vec<FieldValidation>, id: &String) -> (b: bool)
    ensures
        b == exists|i: int| 0 <= i < answers@.len() && (#[trigger] answers@[i]).field@ == id@,
{
    let mut i: usize = 0;
    while i < answers.len()
        invariant
            i <= answers@.len(),
            forall|j: int| 0 <= j < i ==> (#[trigger] answers@[j]).field@ != id@,
        decreases answers@.len() - i,
    {
        if answers[i].field == *id {
            return true;
        }
        i = i + 1;
    }
    false
}

/// Whether no two answers are for the same field.
fn distinct_answers(answers: &Vec<FieldValidation>) -> (b: bool)
    ensures
        b == answers_distinct(answers@),
{
    let mut i: usize = 0;
    while i < answers.len()
        invariant
            i <= answers@.len(),
            forall|a: int, c: int|
                0 <= a < c < i ==> (#[trigger] answers@[a]).field@ != (#[trigger] answers@[c]).field@,
        decreases answers@.len() - i,
    {
        let mut j: usize = 0;
        while j < i
            invariant
                j <= i < answers@.len(),
                forall|a: int| 0 <= a < j ==> (#[trigger] answers@[a]).field@ != answers@[i as int].field@,
            decreases i - j,
        {
            if answers[j].field == answers[i].field {
                assert(!answers_distinct(answers@)) by {
                    assert(answers@[j as int].field@ == answers@[i as int].field@);
                }
                return false;
            }
            j = j + 1;
        }
        i = i + 1;
    }
    true
}

/// Whether every answer is for a validated field.
fn answers_expected(fields: &Vec<Field>, answers: &Vec<FieldValidation>) -> (b: bool)
    ensures
        b == forall|i: int| 0 <= i < answers@.len() ==> answer_expected(fields@, #[trigger] answers@[i]),
{
    let mut i: usize = 0;
    while i < answers.len()
        invariant
            i <= answers@.len(),
            forall|a: int| 0 <= a < i ==> answer_expected(fields@, #[trigger] answers@[a]),
        decreases answers@.len() - i,
    {
        if !validates(fields, &answers[i].field) {
            return false;
        }
        i = i + 1;
    }
    true
}

/// Whether every validated field is answered.
fn fields_answered(fields: &Vec<Field>, answers: &Vec<FieldValidation>) -> (b: bool)
    ensures
        b == forall|k: int|
            0 <= k < fields@.len() && (#[trigger] fields@[k]).validate ==> field_answered(answers@, fields@[k]),
{
    let mut k: usize = 0;
    while k < fields.len()
        invariant
            k <= fields@.len(),
            forall|q: int|
                0 <= q < k && (#[trigger] fields@[q]).validate ==> field_answered(answers@, fields@[q]),
        decreases fields@.len() - k,
    {
        if fields[k].validate && !answered(answers, &fields[k].id) {
            return false;
        }
        k = k + 1;
    }
    true
}

/// Whether `answers` answer exactly the validated `fields`.
fn answers_match_fields(fields: &Vec<Field>, answers: &Vec<FieldValidation>) -> (b: bool)
    ensures
        b == answers_match(fields@, answers@),
{
    distinct_answers(answers) && answers_expected(fields, answers) && fields_answered(fields, answers)
}

/// Whether answer `r` is for the request in flight on `s`: from its owner,
/// for its handle, under the revision and foreground it was sent with.
pub open spec fn answers_request(s: Surface, owner: usize, handle: Seq<char>, revision: Seq<char>, foreground: u64) -> bool {
    &&& s.owner == owner
    &&& s.handle@ == handle
    &&& s.validation.in_flight matches Some(f) && f.0@ == revision && f.1 == foreground
}

/// Whether some answer says the plugin could not validate.
pub open spec fn any_unavailable(answers: Seq<FieldValidation>) -> bool {
    exists|i: int| 0 <= i < answers.len() && (#[trigger] answers[i]).status == ValidationStatus::Unavailable
}

/// Where the caret goes in value `v`: after a text's last character.
pub open spec fn end_of_value(v: Value) -> usize {
    match v {
        Value::Text(t) => t@.len() as usize,
        Value::Boolean(_) => 0,
    }
}

/// The first answer that says the plugin could not validate, if any.
fn find_unavailable(answers: &Vec<FieldValidation>) -> (b: bool)
    ensures
        b == any_unavailable(answers@),
{
    let mut i: usize = 0;
    while i < answers.len()
        invariant
            i <= answers@.len(),
            forall|j: int| 0 <= j < i ==> (#[trigger] answers@[j]).status != ValidationStatus::Unavailable,
        decreases answers@.len() - i,
    {
        if answers[i].status == ValidationStatus::Unavailable {
            return true;
        }
        i = i + 1;
    }
    false
}

/// The first answer that is not valid, if any.
fn find_rejected(answers: &Vec<FieldValidation>) -> (r: Option<usize>)
    ensures
        r matches Some(i) ==> i < answers@.len() && first_rejected(answers@) == Some(i as int),
        r is None ==> first_rejected(answers@) is None,
{
    let mut i: usize = 0;
    while i < answers.len()
        invariant
            i <= answers@.len(),
            forall|j: int| 0 <= j < i ==> (#[trigger] answers@[j]).status == ValidationStatus::Valid,
        decreases answers@.len() - i,
    {
        if answers[i].status != ValidationStatus::Valid {
            proof {
                let c = choose|c: int|
                    0 <= c < answers@.len() && answers@[c].status != ValidationStatus::Valid && forall|k: int|
                        0 <= k < c ==> answers@[k].status == ValidationStatus::Valid;
                if c < i {
                    assert(answers@[c].status == ValidationStatus::Valid);
                } else if c > i {
                    assert(answers@[i as int].status == ValidationStatus::Valid);
                }
            }
            return Some(i);
        }
        i = i + 1;
    }
    None
}

/// The first field whose id is `id`.
fn find_field(fields: &Vec<Field>, id: &String) -> (r: Option<usize>)
    ensures
        r matches Some(k) ==> k < fields@.len() && field_named(fields@, id@) == Some(k as int),
        r is None ==> field_named(fields@, id@) is None,
{
    let mut k: usize = 0;
    while k < fields.len()
        invariant
            k <= fields@.len(),
            forall|j: int| 0 <= j < k ==> (#[trigger] fields@[j]).id@ != id@,
        decreases fields@.len() - k,
    {
        if fields[k].id == *id {
            proof {
                let c = choose|c: int|
                    0 <= c < fields@.len() && (#[trigger] fields@[c]).id@ == id@ && forall|j: int|
                        0 <= j < c ==> (#[trigger] fields@[j]).id@ != id@;
                if c < k {
                    assert(fields@[c].id@ != id@);
                } else if c > k {
                    assert(fields@[k as int].id@ != id@);
                }
            }
            return Some(k);
        }
        k = k + 1;
    }
    None
}

/// The field the first rejected answer of `answers` is for, if any.
pub open spec fn rejected_field(fields: Seq<Field>, answers: Seq<FieldValidation>) -> Option<int> {
    match first_rejected(answers) {
        Some(i) => field_named(fields, answers[i].field@),
        None => None,
    }
}

/// What taking in the validation `answers` for the request `revision`,
/// sent under `foreground` by `owner` for `handle`, makes of surface
/// `before`, with `generation` the foreground generation now current:
/// surface `after` and outcome `r`.
pub open spec fn takes_validation(
    before: Surface,
    after: Surface,
    r: ValidationOutcome,
    owner: usize,
    handle: Seq<char>,
    revision: Seq<char>,
    foreground: u64,
    generation: u64,
    answers: Seq<FieldValidation>,
) -> bool {
    let v = before.validation;
    let waiting = v.submit == Some((v.revision, foreground));
    if !answers_request(before, owner, handle, revision, foreground) {
        r == ValidationOutcome::Ignored && after == before
    } else {
        &&& after == (Surface {
            selected: after.selected,
            cursor: after.cursor,
            validation: ValidationState {
                in_flight: None,
                submit: after.validation.submit,
                results: after.validation.results,
                unavailable: after.validation.unavailable,
                ..v
            },
            ..before
        })
        &&& if revision != revision_tag(v.revision) {
            &&& r == ValidationOutcome::Stale
            &&& after.validation.submit == v.submit
            &&& after.validation.results == v.results
            &&& after.validation.unavailable == v.unavailable
            &&& after.selected == before.selected
            &&& after.cursor == before.cursor
        } else if !answers_match(before.fields@, answers) {
            &&& r == ValidationOutcome::Unavailable
            &&& after.validation.unavailable
            &&& after.validation.submit == (if waiting {
                None
            } else {
                v.submit
            })
            &&& after.validation.results == v.results
            &&& after.selected == before.selected
            &&& after.cursor == before.cursor
        } else {
            let current = waiting && generation == foreground;
            let all_valid = first_rejected(answers) is None;
            let jump = if current {
                rejected_field(before.fields@, answers)
            } else {
                None
            };
            &&& r == ValidationOutcome::Checked { submit: all_valid && current }
            &&& after.validation.results@ == answers
            &&& after.validation.unavailable == any_unavailable(answers)
            &&& after.validation.submit == (if !(all_valid && current) && waiting {
                None
            } else {
                v.submit
            })
            &&& match jump {
                Some(k) => after.selected == k && after.cursor == end_of_value(before.values@[k]),
                None => after.selected == before.selected && after.cursor == before.cursor,
            }
        }
    }
}

impl Surface {
    /// Selects the field the first rejected answer is for, the caret at the
    /// end of its value.
    fn select_rejected(&mut self, answers: &Vec<FieldValidation>)
        requires
            old(self).fields@.len() == old(self).values@.len(),
        ensures
            match rejected_field(old(self).fields@, answers@) {
                Some(k) => final(self).selected == k && final(self).cursor == end_of_value(
                    old(self).values@[k],
                ),
                None => final(self).selected == old(self).selected && final(self).cursor == old(self).cursor,
            },
            *final(self) == (Surface { selected: final(self).selected, cursor: final(self).cursor, ..*old(self) }),
    {
        if let Some(i) = find_rejected(answers) {
            if let Some(k) = find_field(&self.fields, &answers[i].field) {
                self.selected = k;
                self.cursor = match &self.values[k] {
                    Value::Text(t) => t.len(),
                    Value::Boolean(_) => 0,
                };
            }
        }
    }

    /// Keeps `answers`, which answer exactly the validated fields; when a
    /// submission `waiting` on them belongs to the `current` generation, the
    /// first rejected field is selected with the caret at its end. Says
    /// whether the form is submitted; a waiting submission that is not
    /// made is dropped.
    fn take_answers(&mut self, answers: Vec<FieldValidation>, waiting: bool, same_generation: bool) -> (submit: bool)
        requires
            old(self).fields@.len() == old(self).values@.len(),
        ensures
            ({
                let current = waiting && same_generation;
                let all_valid = first_rejected(answers@) is None;
                let jump = if current {
                    rejected_field(old(self).fields@, answers@)
                } else {
                    None
                };
                &&& submit == (all_valid && current)
                &&& final(self).validation.results@ == answers@
                &&& final(self).validation.unavailable == any_unavailable(answers@)
                &&& final(self).validation.submit == (if !submit && waiting {
                    None
                } else {
                    old(self).validation.submit
                })
                &&& match jump {
                    Some(k) => final(self).selected == k && final(self).cursor == end_of_value(old(self).values@[k]),
                    None => final(self).selected == old(self).selected && final(self).cursor == old(self).cursor,
                }
            }),
            *final(self) == (Surface {
                selected: final(self).selected,
                cursor: final(self).cursor,
                validation: ValidationState {
                    submit: final(self).validation.submit,
                    results: final(self).validation.results,
                    unavailable: final(self).validation.unavailable,
                    ..old(self).validation
                },
                ..*old(self)
            }),
    {
        let unavailable = find_unavailable(&answers);
        let rejected = find_rejected(&answers);
        let current = waiting && same_generation;
        if current {
            self.select_rejected(&answers);
        }
        let submit = rejected.is_none() && current;
        if !submit && waiting {
            self.validation.submit = None;
        }
        self.validation.results = answers;
        self.validation.unavailable = unavailable;
        submit
    }

    /// Takes in the plugin's validation `answers` for the request
    /// `revision` sent under `foreground` by `owner` for `handle`, with
    /// `generation` the foreground generation now current. An answer for
    /// another request is ignored; one for values that changed since only
    /// clears the request; one that does not answer exactly the validated
    /// fields marks validation unavailable and drops a waiting submission.
    /// Otherwise the answers are kept: when a submission waits on them in
    /// this generation, the first rejected field is selected with the caret
    /// at its end, and the form is submitted if every answer is valid; a
    /// submission that is not made is dropped.
    pub fn apply_validation(
        &mut self,
        owner: usize,
        handle: &str,
        revision: &str,
        foreground: u64,
        generation: u64,
        answers: Vec<FieldValidation>,
    ) -> (r: ValidationOutcome)
        requires
            old(self).fields@.len() == old(self).values@.len(),
        ensures
            takes_validation(
                *old(self),
                *final(self),
                r,
                owner,
                handle@,
                revision@,
                foreground,
                generation,
                answers@,
            ),
    {
        let in_flight = match &self.validation.in_flight {
            Some(f) => f.1 == foreground && str_is(&f.0, revision),
            None => false,
        };
        if !(self.owner == owner && str_is(&self.handle, handle) && in_flight) {
            return ValidationOutcome::Ignored;
        }
        self.validation.in_flight = None;
        if !str_is(&tag_of(self.validation.revision), revision) {
            return ValidationOutcome::Stale;
        }
        let waiting = self.validation.submit == Some((self.validation.revision, foreground));
        if !answers_match_fields(&self.fields, &answers) {
            self.validation.unavailable = true;
            if waiting {
                self.validation.submit = None;
            }
            return ValidationOutcome::Unavailable;
        }
        let submit = self.take_answers(answers, waiting, generation == foreground);
        ValidationOutcome::Checked { submit }
    }
}

/// Whether `s` holds the characters of `t`.
pub(crate) fn str_is(s: &String, t: &str) -> (b: bool)
    ensures
        b == (s@ == t@),
{
    let a = crate::strings::chars_of(s.as_str());
    let b = crate::strings::chars_of(t);
    crate::confirm::same_chars(&a, &b)
}

/// The tag of validation revision `revision`.
fn tag_of(revision: u64) -> (t: String)
    ensures
        t@ == revision_tag(revision),
{
    let mut tag: Vec<char> = Vec::new();
    tag.push('i');
    tag.push(':');
    push_decimal(&mut tag, revision);
    string_of(&tag)
}

/// Whether `a` and `b` are the same validation request.
pub open spec fn same_intent(a: ValidationIntent, b: ValidationIntent) -> bool {
    &&& a.owner == b.owner
    &&& a.surface@ == b.surface@
    &&& a.revision@ == b.revision@
    &&& a.foreground == b.foreground
    &&& a.fields@.len() == b.fields@.len()
    &&& forall|i: int| 0 <= i < a.fields@.len() ==> (#[trigger] a.fields@[i])@ == b.fields@[i]@
    &&& a.values@.len() == b.values@.len()
    &&& forall|i: int|
        0 <= i < a.values@.len() ==> (#[trigger] a.values@[i]).0@ == b.values@[i].0@ && same_value(
            a.values@[i].1,
            b.values@[i].1,
        )
}

/// A copy of request `q`.
fn copy_intent(q: &ValidationIntent) -> (r: ValidationIntent)
    ensures
        same_intent(r, *q),
{
    let mut fields: Vec<String> = Vec::new();
    let mut i: usize = 0;
    while i < q.fields.len()
        invariant
            i <= q.fields@.len(),
            fields@.len() == i,
            forall|k: int| 0 <= k < i ==> (#[trigger] fields@[k])@ == q.fields@[k]@,
        decreases q.fields@.len() - i,
    {
        fields.push(q.fields[i].clone());
        i = i + 1;
    }
    let mut values: Vec<(String, Value)> = Vec::new();
    let mut j: usize = 0;
    while j < q.values.len()
        invariant
            j <= q.values@.len(),
            values@.len() == j,
            forall|k: int|
                0 <= k < j ==> (#[trigger] values@[k]).0@ == q.values@[k].0@ && same_value(
                    values@[k].1,
                    q.values@[k].1,
                ),
        decreases q.values@.len() - j,
    {
        values.push((q.values[j].0.clone(), copy_value(&q.values[j].1)));
        j = j + 1;
    }
    let mut revision: Vec<char> = Vec::new();
    let mut k: usize = 0;
    while k < q.revision.len()
        invariant
            k <= q.revision@.len(),
            revision@ == q.revision@.take(k as int),
        decreases q.revision@.len() - k,
    {
        revision.push(q.revision[k]);
        k = k + 1;
    }
    assert(revision@ == q.revision@);
    ValidationIntent {
        owner: q.owner,
        surface: q.surface.clone(),
        revision,
        fields,
        values,
        foreground: q.foreground,
    }
}

/// Whether `intent` is the request queued on surface `input`, not yet sent
/// and none in flight, in foreground generation `generation`.
pub open spec fn intent_pending(input: Option<Surface>, intent: ValidationIntent, generation: u64) -> bool {
    &&& input matches Some(s)
    &&& s.owner == intent.owner
    &&& s.handle@ == intent.surface@
    &&& s.validation.in_flight is None
    &&& intent.foreground == generation
    &&& s.validation.queued matches Some(q)
    &&& q.revision@ == intent.revision@
    &&& q.foreground == intent.foreground
}

/// Surface `s` once the plugin says it could not validate the request
/// `revision` sent under `foreground`: nothing is in flight; when the
/// request is for the current values, validation is unavailable and a
/// submission waiting on it is dropped.
pub open spec fn validation_failed(s: Surface, revision: Seq<char>, foreground: u64) -> Surface {
    let v = s.validation;
    let current = revision == revision_tag(v.revision);
    Surface {
        validation: ValidationState {
            in_flight: None,
            unavailable: current || v.unavailable,
            submit: if current && v.submit == Some((v.revision, foreground)) {
                None
            } else {
                v.submit
            },
            ..v
        },
        ..s
    }
}

impl App {
    /// The request queued on the open surface, when none is in flight and
    /// it belongs to the foreground generation now current.
    pub open spec fn ready_intent(&self) -> Option<ValidationIntent> {
        match self.plugins.input {
            Some(s) => if s.validation.in_flight is None && (s.validation.queued matches Some(q)
                && q.foreground == self.plugins.foreground_generation) {
                s.validation.queued
            } else {
                None
            },
            None => None,
        }
    }

    /// Whether the open surface is `owner`'s surface `handle` and
    /// `revision` tags its current values.
    pub fn plugin_validation_current(&self, owner: usize, handle: &str, revision: &str) -> (b: bool)
        ensures
            b == (self.plugins.input matches Some(s) && s.owner == owner && s.handle@ == handle@
                && revision@ == revision_tag(s.validation.revision)),
    {
        match &self.plugins.input {
            Some(s) => s.owner == owner && str_is(&s.handle, handle) && str_is(
                &tag_of(s.validation.revision),
                revision,
            ),
            None => false,
        }
    }

    /// A copy of the request ready to be sent to the plugin, if any.
    pub fn peek_plugin_validation(&self) -> (r: Option<ValidationIntent>)
        ensures
            match (r, self.ready_intent()) {
                (Some(i), Some(q)) => same_intent(i, q),
                (None, None) => true,
                _ => false,
            },
    {
        let Some(surface) = &self.plugins.input else {
            return None;
        };
        if surface.validation.in_flight.is_some() {
            return None;
        }
        match &surface.validation.queued {
            Some(q) => if q.foreground == self.plugins.foreground_generation {
                Some(copy_intent(q))
            } else {
                None
            },
            None => None,
        }
    }

    /// Marks `intent` as sent: when it is the request queued on the open
    /// surface, once kept consistent, it moves in flight, the earlier
    /// answers are cleared and `true` is returned.
    #[verifier::rlimit(60)]
    pub fn plugin_validation_pending(&mut self, intent: &ValidationIntent) -> (r: bool)
        requires
            old(self).wf(),
        ensures
            r == intent_pending(old(self).synced_input(), *intent, old(self).plugins.foreground_generation),
            sync_effects(*old(self), *final(self)),
            !r ==> final(self).plugins.input == old(self).synced_input()
                && final(self).plugins.presentation_dirty == old(self).synced_dirty(),
            r ==> {
                &&& final(self).plugins.presentation_dirty
                &&& old(self).synced_input() matches Some(s)
                &&& final(self).plugins.input matches Some(n)
                &&& n == (Surface {
                    validation: ValidationState {
                        queued: None,
                        unavailable: false,
                        results: n.validation.results,
                        in_flight: n.validation.in_flight,
                        ..s.validation
                    },
                    ..s
                })
                &&& n.validation.results@.len() == 0
                &&& n.validation.in_flight matches Some(f)
                &&& f.0@ == intent.revision@
                &&& f.1 == intent.foreground
            },
    {
        self.sync_plugin_input();
        let generation = self.plugins.foreground_generation;
        let Some(surface) = &mut self.plugins.input else {
            return false;
        };
        let queued = match &surface.validation.queued {
            Some(q) => same_chars(&q.revision, &intent.revision) && q.foreground == intent.foreground,
            None => false,
        };
        if surface.owner != intent.owner || !str_is(&surface.handle, intent.surface.as_str())
            || surface.validation.in_flight.is_some() || intent.foreground != generation || !queued {
            return false;
        }
        surface.validation.queued = None;
        surface.validation.unavailable = false;
        surface.validation.results = Vec::new();
        surface.validation.in_flight = Some((string_of(&intent.revision), intent.foreground));
        self.plugins.presentation_dirty = true;
        true
    }

    /// Takes in the plugin's validation answers for the request `revision`
    /// sent under `foreground` by `owner` for surface `handle`: see
    /// `Surface::apply_validation`, with the foreground generation now
    /// current. Says whether the answer was for the request in flight on the
    /// open surface, once kept consistent; a form whose answers all pass
    /// while its submission waits on them in this generation is submitted.
    #[verifier::rlimit(60)]
    pub fn apply_plugin_validation(
        &mut self,
        owner: usize,
        handle: &str,
        revision: &str,
        foreground: u64,
        answers: Vec<FieldValidation>,
    ) -> (r: bool)
        requires
            old(self).wf(),
            old(self).plugins.input matches Some(s) ==> s.fields@.len() == s.values@.len(),
        ensures
            r == (old(self).synced_input() matches Some(s) && answers_request(
                s,
                owner,
                handle@,
                revision@,
                foreground,
            )),
            !r ==> final(self).plugins.input == old(self).synced_input()
                && final(self).plugins.presentation_dirty == old(self).synced_dirty()
                && sync_effects(*old(self), *final(self)),
            r ==> (old(self).synced_input() matches Some(s) && exists|n: Surface, o: ValidationOutcome|
                #[trigger] takes_validation(
                    s,
                    n,
                    o,
                    owner,
                    handle@,
                    revision@,
                    foreground,
                    old(self).plugins.foreground_generation,
                    answers@,
                ) && final(self).plugins.presentation_dirty && if o == (ValidationOutcome::Checked {
                    submit: true,
                }) {
                    &&& final(self).plugins.input is None
                    &&& final(self).plugins.input_finished@.len() == old(self).plugins.input_finished@.len() + 1
                    &&& final(self).plugins.input_finished@.drop_last() == old(self).plugins.input_finished@
                    &&& final(self).plugins.input_finished@.last().owner == n.owner
                    &&& submission_matches(final(self).plugins.input_finished@.last().submission, n, true)
                    &&& *final(self) == (App { plugins: final(self).plugins, ..*old(self) })
                } else {
                    final(self).plugins.input == Some(n) && sync_effects(*old(self), *final(self))
                }),
    {
        self.sync_plugin_input();
        let generation = self.plugins.foreground_generation;
        let ghost synced = self.plugins.input;
        let outcome = match &mut self.plugins.input {
            Some(surface) => surface.apply_validation(owner, handle, revision, foreground, generation, answers),
            None => return false,
        };
        let ghost taken = self.plugins.input->0;
        assert(takes_validation(
            synced->0,
            taken,
            outcome,
            owner,
            handle@,
            revision@,
            foreground,
            generation,
            answers@,
        ));
        match outcome {
            ValidationOutcome::Ignored => false,
            ValidationOutcome::Checked { submit: true } => {
                self.finish_plugin_input(true);
                true
            },
            _ => {
                self.plugins.presentation_dirty = true;
                true
            },
        }
    }

    /// The plugin could not validate the request `revision` sent under
    /// `foreground` by `owner` for surface `handle`. Says whether that was
    /// the request in flight on the open surface, once kept consistent.
    #[verifier::rlimit(60)]
    pub fn plugin_validation_failed(&mut self, owner: usize, handle: &str, revision: &str, foreground: u64) -> (r: bool)
        requires
            old(self).wf(),
        ensures
            r == (old(self).synced_input() matches Some(s) && answers_request(
                s,
                owner,
                handle@,
                revision@,
                foreground,
            )),
            sync_effects(*old(self), *final(self)),
            !r ==> final(self).plugins.input == old(self).synced_input()
                && final(self).plugins.presentation_dirty == old(self).synced_dirty(),
            r ==> (old(self).synced_input() matches Some(s) && final(self).plugins.input == Some(
                validation_failed(s, revision@, foreground),
            ) && final(self).plugins.presentation_dirty),
    {
        self.sync_plugin_input();
        let Some(surface) = &mut self.plugins.input else {
            return false;
        };
        let in_flight = match &surface.validation.in_flight {
            Some(f) => f.1 == foreground && str_is(&f.0, revision),
            None => false,
        };
        if !(surface.owner == owner && str_is(&surface.handle, handle) && in_flight) {
            return false;
        }
        surface.validation.in_flight = None;
        if str_is(&tag_of(surface.validation.revision), revision) {
            surface.validation.unavailable = true;
            if surface.validation.submit == Some((surface.validation.revision, foreground)) {
                surface.validation.submit = None;
            }
        }
        self.plugins.presentation_dirty = true;
        true
    }
}

} // verus!
