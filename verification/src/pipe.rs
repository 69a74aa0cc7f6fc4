//! Piping selections through a shell command: what may be piped, and what
//! the pipe is given.

use vstd::prelude::*;
use vstd::string::*;

use crate::app::App;
use crate::plugin_input::{utf8_bytes, utf8_size_wide};
use crate::text::Text;

verus! {

/// The longest pipe command, in bytes (16 KiB).
pub const PIPE_COMMAND_LIMIT: u128 = 16384;

/// The most input a pipe is given, in bytes (8 MiB).
pub const PIPE_INPUT_LIMIT: u128 = 8388608;

/// The most selections a pipe takes.
pub const PIPE_SELECTION_LIMIT: usize = 256;

/// Why a pipe was refused.
#[derive(Clone, Copy, Debug, PartialEq, Eq, Structural)]
pub enum PipeError {
    Running,
    CommandTooLong,
    NotEditable,
    ReadOnly,
    TooManySelections,
    Overlapping,
    InputTooLarge,
}

impl PipeError {
    /// What the refusal says.
    pub open spec fn spec_message(&self) -> Seq<char> {
        match self {
            PipeError::Running => "a pipe is already running; use :pipe-cancel"@,
            PipeError::CommandTooLong => "pipe command exceeds 16 KiB"@,
            PipeError::NotEditable => "pipe requires an editable buffer"@,
            PipeError::ReadOnly => "pipe buffer is read-only"@,
            PipeError::TooManySelections => "pipe supports at most 256 selections"@,
            PipeError::Overlapping => "pipe selection spans overlap"@,
            PipeError::InputTooLarge => "pipe input exceeds 8 MiB"@,
        }
    }

    /// What the refusal says.
    pub fn message(&self) -> (m: String)
        ensures
            m@ == self.spec_message(),
    {
        match self {
            PipeError::Running => String::from_str("a pipe is already running; use :pipe-cancel"),
            PipeError::CommandTooLong => String::from_str("pipe command exceeds 16 KiB"),
            PipeError::NotEditable => String::from_str("pipe requires an editable buffer"),
            PipeError::ReadOnly => String::from_str("pipe buffer is read-only"),
            PipeError::TooManySelections => String::from_str("pipe supports at most 256 selections"),
            PipeError::Overlapping => String::from_str("pipe selection spans overlap"),
            PipeError::InputTooLarge => String::from_str("pipe input exceeds 8 MiB"),
        }
    }
}

/// Each span ends before the next starts.
pub open spec fn spans_in_order(spans: Seq<(usize, usize)>) -> bool {
    forall|i: int| 0 <= i < spans.len() - 1 ==> (#[trigger] spans[i]).1 <= spans[i + 1].0
}

/// The characters the spans cover, together.
pub open spec fn span_chars(spans: Seq<(usize, usize)>) -> int
    decreases spans.len(),
{
    if spans.len() == 0 {
        0
    } else {
        span_chars(spans.drop_last()) + spans.last().1 - spans.last().0
    }
}

/// The UTF-8 bytes the spans of `t` cover, together.
pub open spec fn span_bytes(t: Seq<char>, spans: Seq<(usize, usize)>) -> int
    decreases spans.len(),
{
    if spans.len() == 0 {
        0
    } else {
        span_bytes(t, spans.drop_last()) + utf8_bytes(
            t.subrange(spans.last().0 as int, spans.last().1 as int),
        )
    }
}

/// Why piping `spans` of `t` through `command` is refused, if it is: a
/// pipe already runs, the command is too long, a terminal is active, the
/// buffer is read-only, there are too many selections, they overlap, or
/// they hold too much.
pub open spec fn pipe_refusal(
    t: Seq<char>,
    spans: Seq<(usize, usize)>,
    command: Seq<char>,
    running: bool,
    terminal: bool,
    read_only: bool,
) -> Option<PipeError> {
    if running {
        Some(PipeError::Running)
    } else if utf8_bytes(command) > PIPE_COMMAND_LIMIT {
        Some(PipeError::CommandTooLong)
    } else if terminal {
        Some(PipeError::NotEditable)
    } else if read_only {
        Some(PipeError::ReadOnly)
    } else if spans.len() > PIPE_SELECTION_LIMIT {
        Some(PipeError::TooManySelections)
    } else if !spans_in_order(spans) {
        Some(PipeError::Overlapping)
    } else if span_chars(spans) > PIPE_INPUT_LIMIT || span_bytes(t, spans) > PIPE_INPUT_LIMIT {
        Some(PipeError::InputTooLarge)
    } else {
        None
    }
}

/// Whether a shell pipe is running.
pub struct PipeState {
    pub running: bool,
}

/// A pipe to run: the spans of `buffer` and the text of each.
pub struct PipeRequest {
    pub buffer: usize,
    pub spans: Vec<(usize, usize)>,
    pub command: String,
    pub inputs: Vec<Vec<char>>,
}

/// Whether the spans follow each other.
fn spans_ordered(spans: &Vec<(usize, usize)>) -> (b: bool)
    ensures
        b == spans_in_order(spans@),
{
    if spans.len() == 0 {
        return true;
    }
    let mut i: usize = 0;
    while i < spans.len() - 1
        invariant
            spans@.len() > 0,
            i < spans@.len(),
            forall|k: int| 0 <= k < i ==> (#[trigger] spans@[k]).1 <= spans@[k + 1].0,
        decreases spans@.len() - i,
    {
        if spans[i].1 > spans[i + 1].0 {
            return false;
        }
        i = i + 1;
    }
    true
}

/// The characters and the texts of the spans, with their UTF-8 size.
fn span_inputs(t: &Text, spans: &Vec<(usize, usize)>) -> (r: (u128, u128, Vec<Vec<char>>))
    requires
        t.wf(),
        spans@.len() <= PIPE_SELECTION_LIMIT,
        forall|i: int| 0 <= i < spans@.len() ==> (#[trigger] spans@[i]).0 <= spans@[i].1 <= t@.len(),
    ensures
        r.0 == span_chars(spans@),
        r.1 == span_bytes(t@, spans@),
        r.2@.len() == spans@.len(),
        forall|i: int| 0 <= i < spans@.len() ==> (#[trigger] r.2@[i])@ == t@.subrange(spans@[i].0 as int, spans@[i].1 as int),
{
    let mut chars: u128 = 0;
    let mut bytes: u128 = 0;
    let mut inputs: Vec<Vec<char>> = Vec::new();
    let mut i: usize = 0;
    while i < spans.len()
        invariant
            t.wf(),
            spans@.len() <= PIPE_SELECTION_LIMIT,
            forall|k: int| 0 <= k < spans@.len() ==> (#[trigger] spans@[k]).0 <= spans@[k].1 <= t@.len(),
            i <= spans@.len(),
            chars == span_chars(spans@.take(i as int)),
            bytes == span_bytes(t@, spans@.take(i as int)),
            chars <= i * (usize::MAX as int),
            bytes <= 4 * i * (usize::MAX as int),
            inputs@.len() == i,
            forall|k: int| 0 <= k < i ==> (#[trigger] inputs@[k])@ == t@.subrange(spans@[k].0 as int, spans@[k].1 as int),
        decreases spans@.len() - i,
    {
        let (from, to) = spans[i];
        let part = t.slice(from, to);
        let size = utf8_size_wide(&part);
        proof {
            assert(spans@.take(i + 1).drop_last() =~= spans@.take(i as int));
            assert(spans@.take(i + 1).last() == spans@[i as int]);
        }
        assert((i + 1) * (usize::MAX as int) == i * (usize::MAX as int) + usize::MAX) by (nonlinear_arith);
        assert(4 * (i + 1) * (usize::MAX as int) == 4 * i * (usize::MAX as int) + 4 * usize::MAX) by (nonlinear_arith);
        assert(i * (usize::MAX as int) <= 256 * (usize::MAX as int)) by (nonlinear_arith)
            requires i <= 256;
        chars = chars + (to - from) as u128;
        bytes = bytes + size;
        inputs.push(part);
        i = i + 1;
    }
    assert(spans@.take(spans@.len() as int) =~= spans@);
    (chars, bytes, inputs)
}

impl App {
    /// Starts piping `spans` of the active buffer's text `t` through
    /// `command`, unless it is refused (see `pipe_refusal`); `read_only`
    /// tells whether the buffer may be edited. A started pipe is marked
    /// running in `pipe` and handed back with the text of each span.
    pub fn request_pipe(
        &mut self,
        pipe: &mut PipeState,
        t: &Text,
        spans: Vec<(usize, usize)>,
        command: String,
        read_only: bool,
    ) -> (r: Result<PipeRequest, PipeError>)
        requires
            old(self).wf(),
            t.wf(),
            forall|i: int| 0 <= i < spans@.len() ==> (#[trigger] spans@[i]).0 <= spans@[i].1 <= t@.len(),
        ensures
            match pipe_refusal(t@, spans@, command@, old(pipe).running, old(self).active().terminal is Some, read_only) {
                Some(e) => r == Err::<PipeRequest, PipeError>(e) && *final(self) == *old(self)
                    && final(pipe).running == old(pipe).running,
                None => r matches Ok(p) && {
                    &&& p.buffer == old(self).active().buffer
                    &&& p.spans@ == spans@
                    &&& p.command@ == command@
                    &&& p.inputs@.len() == spans@.len()
                    &&& forall|i: int| 0 <= i < spans@.len() ==> (#[trigger] p.inputs@[i])@ == t@.subrange(spans@[i].0 as int, spans@[i].1 as int)
                    &&& final(pipe).running
                    &&& !final(self).status_error
                    &&& final(self).status@ == "Pipe started; :pipe-cancel cancels"@
                },
            },
    {
        if pipe.running {
            return Err(PipeError::Running);
        }
        let command_chars = crate::strings::chars_of(command.as_str());
        if utf8_size_wide(&command_chars) > PIPE_COMMAND_LIMIT {
            return Err(PipeError::CommandTooLong);
        }
        let pane = self.active_pane_snapshot();
        if pane.terminal.is_some() {
            return Err(PipeError::NotEditable);
        }
        if read_only {
            return Err(PipeError::ReadOnly);
        }
        if spans.len() > PIPE_SELECTION_LIMIT {
            return Err(PipeError::TooManySelections);
        }
        if !spans_ordered(&spans) {
            return Err(PipeError::Overlapping);
        }
        let (chars, bytes, inputs) = span_inputs(t, &spans);
        if chars > PIPE_INPUT_LIMIT || bytes > PIPE_INPUT_LIMIT {
            return Err(PipeError::InputTooLarge);
        }
        pipe.running = true;
        self.set_status(String::from_str("Pipe started; :pipe-cancel cancels"));
        Ok(PipeRequest { buffer: pane.buffer, spans, command, inputs })
    }

    /// `:pipe-cancel`: whether there is a running pipe for the host to
    /// signal to stop. Nothing else changes; the pipe stops running only
    /// once it reports that it finished.
    pub fn cancel_pipe(&self, pipe: &PipeState) -> (signal: bool)
        ensures
            signal == pipe.running,
    {
        pipe.running
    }

    /// A pipe ended with `result`: it no longer runs, and the status line
    /// says it completed or why it did not. A failure reported as
    /// `protective` (the editor refused the pipe's output to protect the
    /// buffer) is a warning, titled "Pipe result refused"; any other is an
    /// error, titled "Pipe failed". The outcome names which, for the host to
    /// title the message.
    pub fn pipe_finished(&mut self, pipe: &mut PipeState, result: Result<(), String>, protective: bool) -> (end: PipeEnd)
        ensures
            !final(pipe).running,
            match result {
                Ok(_) => end == PipeEnd::Completed && final(self).status@ == "Pipe completed"@
                    && !final(self).status_error,
                Err(m) => final(self).status@ == m@ && if protective {
                    end == PipeEnd::Refused && !final(self).status_error
                } else {
                    end == PipeEnd::Failed && final(self).status_error
                },
            },
            *final(self) == (App { status: final(self).status, status_error: final(self).status_error, ..*old(self) }),
    {
        pipe.running = false;
        match result {
            Ok(()) => {
                self.set_status(String::from_str("Pipe completed"));
                PipeEnd::Completed
            },
            Err(m) => {
                self.status = m;
                self.status_error = !protective;
                if protective {
                    PipeEnd::Refused
                } else {
                    PipeEnd::Failed
                }
            },
        }
    }
}

/// How a pipe ended.
#[derive(Clone, Copy, Debug, PartialEq, Eq, Structural)]
pub enum PipeEnd {
    Completed,
    /// Its output was refused to protect the buffer: a warning.
    Refused,
    /// It failed: an error.
    Failed,
}

} // verus!
