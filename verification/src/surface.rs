//! A plugin's input surface: fields a person fills in, and the validation
//! the plugin runs on them before the surface is submitted.

use vstd::prelude::*;
use vstd::string::*;

use crate::strings::{chars_of, decimal, push_char, push_decimal, push_str, string_of};

verus! {

/// What a field holds and how it is shown.
#[derive(Clone, Copy, Debug, PartialEq, Eq, Structural)]
pub enum FieldKind {
    Text,
    /// Text shown masked.
    Secret,
    Boolean,
    Choice,
}

/// One field of a surface.
pub struct Field {
    pub id: String,
    pub label: String,
    pub kind: FieldKind,
    /// The plugin validates this field before submission.
    pub validate: bool,
    pub maximum_length: usize,
    pub choices: Vec<String>,
    pub validation_message: Option<String>,
}

/// A field's value.
#[derive(Clone, Debug)]
pub enum Value {
    Text(Vec<char>),
    Boolean(bool),
}

/// Whether a validated field was accepted.
#[derive(Clone, Copy, Debug, PartialEq, Eq, Structural)]
pub enum ValidationStatus {
    Valid,
    Invalid,
    /// The plugin could not validate the field.
    Unavailable,
}

/// The plugin's answer for one field.
pub struct FieldValidation {
    pub field: String,
    pub status: ValidationStatus,
}

/// A validation request waiting to be sent to the plugin.
pub struct ValidationIntent {
    pub owner: usize,
    pub surface: String,
    /// The revision tag, `i:` and the surface's validation revision.
    pub revision: Vec<char>,
    /// The fields the plugin validates.
    pub fields: Vec<String>,
    /// The values sent along: every field's but a secret one's that is not
    /// validated.
    pub values: Vec<(String, Value)>,
    pub foreground: u64,
}

/// A list a surface offers to choose one value from.
pub struct SurfacePicker {
    /// What has been typed to filter it.
    pub filter: Vec<char>,
    pub selected: usize,
    /// The labels of the rows the filter leaves.
    pub visible: Vec<String>,
}

/// Where validation of a surface stands.
pub struct ValidationState {
    /// Bumped whenever a value changes.
    pub revision: u64,
    pub queued: Option<ValidationIntent>,
    /// The request the plugin is answering, with its foreground generation.
    pub in_flight: Option<(String, u64)>,
    /// The revision and foreground a submission waits on.
    pub submit: Option<(u64, u64)>,
    pub results: Vec<FieldValidation>,
    /// The plugin could not validate.
    pub unavailable: bool,
}

/// An open plugin input surface.
pub struct Surface {
    pub owner: usize,
    pub handle: String,
    /// What the opening call captured of the foreground.
    pub context: crate::app::CapturedContext,
    pub title: String,
    pub fields: Vec<Field>,
    pub values: Vec<Value>,
    pub selected: usize,
    pub cursor: usize,
    pub error: bool,
    /// A yes/no confirmation rather than a form.
    pub confirmation: bool,
    /// A list to choose the one value from, rather than a form.
    pub picker: Option<SurfacePicker>,
    pub validation: ValidationState,
    /// The most bytes a text value may hold.
    pub max_value_bytes: usize,
}

/// The revision string a request for `revision` carries.
pub open spec fn revision_tag(revision: u64) -> Seq<char> {
    seq!['i', ':'] + decimal(revision as nat)
}

/// The first result that was not accepted, if any.
pub open spec fn first_rejected(results: Seq<FieldValidation>) -> Option<int> {
    if exists|i: int| 0 <= i < results.len() && results[i].status != ValidationStatus::Valid {
        Some(
            choose|i: int|
                0 <= i < results.len() && results[i].status != ValidationStatus::Valid && forall|
                    k: int,
                |
                    0 <= k < i ==> results[k].status == ValidationStatus::Valid,
        )
    } else {
        None
    }
}

/// The first field whose id is `id`, if any.
pub open spec fn first_field_with_id(fields: Seq<Field>, id: Seq<char>) -> Option<int> {
    if exists|i: int| 0 <= i < fields.len() && fields[i].id@ == id {
        Some(
            choose|i: int|
                0 <= i < fields.len() && fields[i].id@ == id && forall|k: int|
                    0 <= k < i ==> fields[k].id@ != id,
        )
    } else {
        None
    }
}

impl Surface {
    /// The line under the surface: validation unavailable; fields being
    /// checked (a request queued, or the one in flight being for the current
    /// revision); or the label and message of the field of the first
    /// rejected result. Nothing when that field is unknown or nothing was
    /// rejected.
    pub open spec fn spec_validation_feedback(&self) -> Option<Seq<char>> {
        if self.validation.unavailable {
            Some("Validation unavailable; press Enter to retry or Escape to cancel"@)
        } else if self.validation.queued is Some || (self.validation.in_flight matches Some(f)
            && f.0@ == revision_tag(self.validation.revision)) {
            Some("Checking fields…"@)
        } else {
            match first_rejected(self.validation.results@) {
                None => None,
                Some(r) => match first_field_with_id(
                    self.fields@,
                    self.validation.results@[r].field@,
                ) {
                    None => None,
                    Some(f) => Some(
                        self.fields@[f].label@ + ": "@ + match self.fields@[f].validation_message {
                            Some(m) => m@,
                            None => "Value was not accepted; press Enter to retry"@,
                        },
                    ),
                },
            }
        }
    }

    /// The line under the surface.
    pub fn validation_feedback(&self) -> (r: Option<String>)
        ensures
            match (r, self.spec_validation_feedback()) {
                (Some(s), Some(t)) => s@ == t,
                (None, None) => true,
                _ => false,
            },
    {
        if self.validation.unavailable {
            return Some(
                String::from_str("Validation unavailable; press Enter to retry or Escape to cancel"),
            );
        }
        let checking = match &self.validation.in_flight {
            Some(f) => {
                let mut tag: Vec<char> = Vec::new();
                tag.push('i');
                tag.push(':');
                push_decimal(&mut tag, self.validation.revision);
                assert(tag@ == revision_tag(self.validation.revision));
                let tag = string_of(&tag);
                f.0 == tag
            },
            None => false,
        };
        if self.validation.queued.is_some() || checking {
            return Some(String::from_str("Checking fields…"));
        }
        let mut r: usize = 0;
        while r < self.validation.results.len()
            invariant
                r <= self.validation.results@.len(),
                forall|k: int| 0 <= k < r ==> self.validation.results@[k].status == ValidationStatus::Valid,
            ensures
                r <= self.validation.results@.len(),
                forall|k: int| 0 <= k < r ==> self.validation.results@[k].status == ValidationStatus::Valid,
                r < self.validation.results@.len() ==> self.validation.results@[r as int].status
                    != ValidationStatus::Valid,
            decreases self.validation.results@.len() - r,
        {
            if self.validation.results[r].status != ValidationStatus::Valid {
                break;
            }
            r = r + 1;
        }
        if r == self.validation.results.len() {
            return None;
        }
        proof {
            let results = self.validation.results@;
            assert(0 <= r < results.len() && results[r as int].status != ValidationStatus::Valid
                && forall|k: int| 0 <= k < r ==> results[k].status == ValidationStatus::Valid);
            let c = first_rejected(results)->0;
            assert(c == r as int) by {
                if c < r {
                    assert(results[c].status == ValidationStatus::Valid);
                } else if c > r {
                    assert(results[r as int].status == ValidationStatus::Valid);
                }
            }
        }
        let id = &self.validation.results[r].field;
        let mut f: usize = 0;
        while f < self.fields.len()
            invariant
                f <= self.fields@.len(),
                forall|k: int| 0 <= k < f ==> self.fields@[k].id@ != id@,
            ensures
                f <= self.fields@.len(),
                forall|k: int| 0 <= k < f ==> self.fields@[k].id@ != id@,
                f < self.fields@.len() ==> self.fields@[f as int].id@ == id@,
            decreases self.fields@.len() - f,
        {
            if self.fields[f].id == *id {
                break;
            }
            f = f + 1;
        }
        if f == self.fields.len() {
            return None;
        }
        proof {
            let fields = self.fields@;
            assert(0 <= f < fields.len() && fields[f as int].id@ == id@ && forall|k: int|
                0 <= k < f ==> fields[k].id@ != id@);
            let c = first_field_with_id(fields, id@)->0;
            assert(c == f as int) by {
                if c < f {
                    assert(fields[c].id@ != id@);
                } else if c > f {
                    assert(fields[f as int].id@ != id@);
                }
            }
        }
        let field = &self.fields[f];
        let mut out = chars_of(field.label.as_str());
        push_str(&mut out, ": ");
        match &field.validation_message {
            Some(m) => push_str(&mut out, m.as_str()),
            None => push_str(&mut out, "Value was not accepted; press Enter to retry"),
        }
        Some(string_of(&out))
    }

    /// How field `index`'s value is shown: a secret as one bullet per
    /// character, other text as it is, a boolean as `true` or `false`.
    pub open spec fn spec_display(&self, index: int) -> Seq<char> {
        match self.values@[index] {
            Value::Text(v) => if self.fields@[index].kind == FieldKind::Secret {
                Seq::new(v@.len(), |i: int| '•')
            } else {
                v@
            },
            Value::Boolean(b) => if b {
                "true"@
            } else {
                "false"@
            },
        }
    }

    /// How field `index`'s value is shown.
    pub fn display(&self, index: usize) -> (s: String)
        requires
            index < self.values@.len(),
            index < self.fields@.len(),
        ensures
            s@ == self.spec_display(index as int),
    {
        match &self.values[index] {
            Value::Text(value) => {
                if self.fields[index].kind == FieldKind::Secret {
                    let n = value.len();
                    let mut out = String::new();
                    let mut i: usize = 0;
                    while i < n
                        invariant
                            i <= n,
                            out@ == Seq::new(i as nat, |k: int| '•'),
                        decreases n - i,
                    {
                        push_char(&mut out, '•');
                        assert(out@ =~= Seq::new((i + 1) as nat, |k: int| '•'));
                        i = i + 1;
                    }
                    assert(out@ =~= Seq::new(value@.len(), |k: int| '•'));
                    out
                } else {
                    string_of(value)
                }
            },
            Value::Boolean(b) => {
                if *b {
                    String::from_str("true")
                } else {
                    String::from_str("false")
                }
            },
        }
    }
}

} // verus!
