//! From the sidecar's output stream to log entries.
//!
//! The host reads the pipe and hands over what arrived, one event at a
//! time. Each line of standard output becomes one log entry: the text,
//! decoded leniently, behind a prefix that names the sidecar. Nothing else
//! is forwarded, and the order of the lines is kept.

use crate::supervisor::Phase;
use vstd::prelude::*;
use vstd::string::StringExecFns;
use vstd::utf8::{decode_utf8, valid_utf8};

verus! {

/// The character that stands in for bytes that are not UTF-8.
pub const REPLACEMENT: char = '\u{FFFD}';

/// The text of a byte sequence under `String::from_utf8_lossy`.
pub uninterp spec fn utf8_lossy(bytes: Seq<u8>) -> Seq<char>;

/// `text` is `bytes` decoded leniently: well-formed UTF-8 decodes to the
/// characters it encodes, and anything else still gives a text, in which
/// the replacement character marks what could not be decoded.
pub open spec fn decoded_lossily(bytes: Seq<u8>, text: Seq<char>) -> bool {
    &&& text == utf8_lossy(bytes)
    &&& valid_utf8(bytes) ==> text == decode_utf8(bytes)
    &&& !valid_utf8(bytes) ==> text.contains(REPLACEMENT)
}

/// The log entry for a line of text: the sidecar's tag, then the text.
pub open spec fn log_text(text: Seq<char>) -> Seq<char> {
    "[backend] "@ + text
}

/// `entry` is the log entry for the raw line `bytes`.
pub open spec fn is_entry_for(bytes: Seq<u8>, entry: Seq<char>) -> bool {
    &&& entry == log_text(utf8_lossy(bytes))
    &&& decoded_lossily(bytes, utf8_lossy(bytes))
}

/// Calls `String::from_utf8_lossy` and takes the result as an owned string.
///
/// Trusted: the result is a function of the bytes alone; on well-formed
/// UTF-8 it is the decoded text, unchanged; on anything else it holds
/// U+FFFD in place of each ill-formed sequence, hence at least once.
#[verifier::external_body]
fn from_utf8_lossy(bytes: &[u8]) -> (text: String)
    ensures
        text@ == utf8_lossy(bytes@),
        valid_utf8(bytes@) ==> text@ == decode_utf8(bytes@),
        !valid_utf8(bytes@) ==> text@.contains(REPLACEMENT),
{
    String::from_utf8_lossy(bytes).into_owned()
}

/// One line of the sidecar's output, as text.
#[derive(Debug, PartialEq, Eq)]
pub struct OutputLine {
    text: String,
}

impl View for OutputLine {
    type V = Seq<char>;

    closed spec fn view(&self) -> Seq<char> {
        self.text@
    }
}

impl OutputLine {
    /// Decodes a raw line. Every byte sequence gives a line: bytes that are
    /// not UTF-8 are replaced, never refused.
    pub fn decode(bytes: &[u8]) -> (line: OutputLine)
        ensures
            decoded_lossily(bytes@, line@),
    {
        OutputLine { text: from_utf8_lossy(bytes) }
    }

    /// The text of the line.
    pub fn text(&self) -> (text: &str)
        ensures
            text@ == self@,
    {
        self.text.as_str()
    }

    /// The entry that goes to the log for this line.
    pub fn log_entry(&self) -> (entry: String)
        ensures
            entry@ == log_text(self@),
    {
        log_entry(self.text.as_str())
    }
}

/// The log entry for `text`: `"[backend] "` and then the text.
pub fn log_entry(text: &str) -> (entry: String)
    ensures
        entry@ == log_text(text@),
{
    let mut entry = String::from_str("[backend] ");
    entry.append(text);
    entry
}

/// What the host's reader delivers from a running sidecar.
#[derive(Debug, PartialEq, Eq)]
pub enum StreamEvent {
    /// A line that the sidecar wrote to standard output.
    Stdout(Vec<u8>),
    /// A line that the sidecar wrote to standard error.
    Stderr(Vec<u8>),
    /// The reader failed, with this message.
    Error(String),
    /// The process ended, with this exit code and signal where known.
    Terminated { code: Option<i32>, signal: Option<i32> },
}

impl StreamEvent {
    /// The raw line, if the event is a line of standard output.
    pub open spec fn stdout(self) -> Option<Seq<u8>> {
        match self {
            StreamEvent::Stdout(bytes) => Some(bytes@),
            _ => None,
        }
    }
}

/// The lines of standard output among `events`, in the order of arrival.
pub open spec fn stdout_lines(events: Seq<StreamEvent>) -> Seq<Seq<u8>>
    decreases events.len(),
{
    if events.len() == 0 {
        Seq::empty()
    } else {
        let earlier = stdout_lines(events.drop_last());
        match events.last().stdout() {
            Some(bytes) => earlier.push(bytes),
            None => earlier,
        }
    }
}

/// What the draining task does with one delivery.
#[derive(Debug, PartialEq, Eq)]
pub enum DrainStep {
    /// Hand this entry to the log.
    Forward(String),
    /// Nothing to log; wait for the next event.
    Skip,
    /// The stream is closed; the task ends.
    Finished,
}

/// The task that drains one sidecar's output. It starts open, closes when
/// the stream does, and never opens again.
#[derive(Debug)]
pub struct DrainTask {
    open: bool,
}

impl DrainTask {
    /// Whether the stream may still deliver.
    pub closed spec fn is_open(&self) -> bool {
        self.open
    }

    /// A task for a freshly launched sidecar.
    pub fn new() -> (task: Self)
        ensures
            task.is_open(),
    {
        DrainTask { open: true }
    }

    /// Whether the stream may still deliver.
    pub fn open(&self) -> (open: bool)
        ensures
            open == self.is_open(),
    {
        self.open
    }

    /// The sidecar's phase as its output shows it: `Running` while the
    /// stream is open, `Stopped` once it closed, whether the host shut the
    /// sidecar down or the process ended by itself.
    pub fn phase(&self) -> (phase: Phase)
        ensures
            phase == (if self.is_open() {
                Phase::Running
            } else {
                Phase::Stopped
            }),
    {
        if self.open {
            Phase::Running
        } else {
            Phase::Stopped
        }
    }

    /// Decides what to do with one delivery; `None` says that the stream
    /// closed.
    ///
    /// While the task is open, a line of standard output is forwarded as
    /// its log entry, whatever its bytes; any other event is skipped; the
    /// end of the stream closes the task. A closed task answers `Finished`
    /// to everything and stays closed.
    pub fn step(&mut self, event: Option<&StreamEvent>) -> (step: DrainStep)
        ensures
            final(self).is_open() == (old(self).is_open() && event is Some),
            !final(self).is_open() ==> step is Finished,
            final(self).is_open() && event->0.stdout() is None ==> step is Skip,
            final(self).is_open() && event->0.stdout() is Some ==> step is Forward
                && is_entry_for(event->0.stdout()->0, step->Forward_0@),
    {
        if !self.open {
            return DrainStep::Finished;
        }
        match event {
            None => {
                self.open = false;
                DrainStep::Finished
            },
            Some(StreamEvent::Stdout(bytes)) => {
                let line = OutputLine::decode(bytes.as_slice());
                DrainStep::Forward(line.log_entry())
            },
            Some(_) => DrainStep::Skip,
        }
    }
}

/// Drains a whole stream: the events of one sidecar from launch to the
/// closing of its pipe. The result holds one entry for each line of
/// standard output, in the order in which the lines arrived.
pub fn drain(events: &Vec<StreamEvent>) -> (entries: Vec<String>)
    ensures
        entries@.len() == stdout_lines(events@).len(),
        forall|i: int|
            0 <= i < entries@.len() ==> is_entry_for(
                #[trigger] stdout_lines(events@)[i],
                entries@[i]@,
            ),
{
    let mut task = DrainTask::new();
    let mut entries: Vec<String> = Vec::new();
    let mut at: usize = 0;
    while at < events.len()
        invariant
            at <= events.len(),
            task.is_open(),
            entries@.len() == stdout_lines(events@.take(at as int)).len(),
            forall|i: int|
                0 <= i < entries@.len() ==> is_entry_for(
                    #[trigger] stdout_lines(events@.take(at as int))[i],
                    entries@[i]@,
                ),
        decreases events.len() - at,
    {
        proof {
            assert(events@.take(at + 1).drop_last() =~= events@.take(at as int));
        }
        match task.step(Some(&events[at])) {
            DrainStep::Forward(entry) => {
                entries.push(entry);
            },
            _ => {},
        }
        at += 1;
    }
    proof {
        assert(events@.take(at as int) =~= events@);
    }
    let _ = task.step(None);
    entries
}

/// The lines of a stream that arrives in two parts are the lines of the
/// first part followed by the lines of the second: draining keeps the order
/// of arrival, and forwards no line twice and none out of turn.
pub proof fn lemma_lines_keep_order(first: Seq<StreamEvent>, second: Seq<StreamEvent>)
    ensures
        stdout_lines(first + second) == stdout_lines(first) + stdout_lines(second),
    decreases second.len(),
{
    if second.len() == 0 {
        assert(first + second =~= first);
        assert(stdout_lines(first) + stdout_lines(second) =~= stdout_lines(first));
    } else {
        lemma_lines_keep_order(first, second.drop_last());
        assert((first + second).drop_last() =~= first + second.drop_last());
        assert(stdout_lines(first + second) =~= stdout_lines(first) + stdout_lines(second));
    }
}

/// Of a stream that holds nothing but lines of standard output, every line
/// is forwarded, each once and at its own place.
pub proof fn lemma_every_line_once(events: Seq<StreamEvent>)
    requires
        forall|i: int| 0 <= i < events.len() ==> (#[trigger] events[i]).stdout() is Some,
    ensures
        stdout_lines(events).len() == events.len(),
        forall|i: int|
            0 <= i < events.len() ==> #[trigger] stdout_lines(events)[i] == events[i].stdout()->0,
    decreases events.len(),
{
    if events.len() > 0 {
        let earlier = events.drop_last();
        assert forall|i: int| 0 <= i < earlier.len() implies (#[trigger] earlier[i]).stdout()
            is Some by {
            assert(earlier[i] == events[i]);
        }
        lemma_every_line_once(earlier);
        assert forall|i: int| 0 <= i < events.len() implies #[trigger] stdout_lines(events)[i]
            == events[i].stdout()->0 by {
            if i < earlier.len() {
                assert(earlier[i] == events[i]);
            }
        }
    }
}

/// An event that is no line of standard output adds nothing to the log,
/// wherever it stands in the stream.
pub proof fn lemma_other_events_add_nothing(
    first: Seq<StreamEvent>,
    event: StreamEvent,
    second: Seq<StreamEvent>,
)
    requires
        event.stdout() is None,
    ensures
        stdout_lines(first.push(event) + second) == stdout_lines(first + second),
{
    lemma_lines_keep_order(first.push(event), second);
    lemma_lines_keep_order(first, second);
    assert(first.push(event).drop_last() =~= first);
}

} // verus!
