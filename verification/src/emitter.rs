//! The output sink consumed by the emission coordinator: three operations —
//! header, one call per file, footer — whose call sequence is tracked as a
//! ghost event log, so that contracts can state exactly which calls a batch
//! made and in which order. A recording sink implements the trait and keeps
//! the calls as plain values for inspection.
use crate::config::FileName;
use crate::config::FileNameV;
use vstd::prelude::*;

verus! {

/// The opaque per-file outcome a sink reports (for example whether the file
/// differed from its formatted form). This library never interprets it, only
/// propagates it.
#[derive(Clone, Copy, PartialEq, Eq, Structural, Debug)]
pub struct EmitterResult {
    /// Whether the sink saw a difference between original and formatted text.
    pub has_diff: bool,
}

/// Why an emission failed: a filesystem read failed, the target was the
/// virtual stream where a real path was required, or the sink itself failed.
#[derive(Clone, Copy, PartialEq, Eq, Structural, Debug)]
pub enum EmitError {
    /// A filesystem read failed; the kind is propagated unchanged.
    Io(crate::file_system::ReadErrorKind),
    /// File-oriented emission was requested for the virtual stream and no
    /// cached text was available: a contract violation, rejected rather than
    /// silently answered with empty text.
    InvalidTarget,
    /// The sink reported a failure of its own.
    Sink,
}

/// One file as handed to the sink: its identity and borrowed original and
/// formatted texts. Never stored beyond one emission call.
pub struct FormattedFile<'a> {
    /// The identity of the file.
    pub filename: &'a FileName,
    /// The verbatim pre-formatting content.
    pub original_text: &'a String,
    /// The output of the formatting engine.
    pub formatted_text: &'a String,
}

/// One call into a sink, as a mathematical value.
pub ghost enum EmitEvent {
    /// The header hook was called.
    Header,
    /// The per-file operation was called with this pair.
    File { filename: FileNameV, original: Seq<char>, formatted: Seq<char> },
    /// The footer hook was called.
    Footer,
}

/// The event that handing the given pair to the sink records.
pub open spec fn spec_file_event(
    filename: FileNameV,
    original: Seq<char>,
    formatted: Seq<char>,
) -> EmitEvent {
    EmitEvent::File { filename, original, formatted }
}

/// An output sink. `events` is the ordered log of calls made into the sink;
/// the three `*_outcome` functions say what each call returns given the log
/// at the time of the call, so a caller's contract can propagate the sink's
/// answer verbatim. Every call appends its event whether or not it succeeds.
pub trait Emitter: Sized {
    /// The calls made into this sink so far, in order.
    spec fn events(&self) -> Seq<EmitEvent>;

    /// What the header hook returns when called with the given log.
    spec fn header_outcome(events: Seq<EmitEvent>) -> Result<(), EmitError>;

    /// What the footer hook returns when called with the given log.
    spec fn footer_outcome(events: Seq<EmitEvent>) -> Result<(), EmitError>;

    /// What the per-file operation returns when called with the given log
    /// and pair.
    spec fn file_outcome(events: Seq<EmitEvent>, ev: EmitEvent) -> Result<
        EmitterResult,
        EmitError,
    >;

    /// Call the header hook: at most once per batch, before any file.
    fn emit_header(&mut self, output: &mut Vec<u8>) -> (r: Result<(), EmitError>)
        ensures
            final(self).events() == old(self).events().push(EmitEvent::Header),
            r == Self::header_outcome(old(self).events()),
    ;

    /// Call the footer hook: at most once per batch, after every file.
    fn emit_footer(&mut self, output: &mut Vec<u8>) -> (r: Result<(), EmitError>)
        ensures
            final(self).events() == old(self).events().push(EmitEvent::Footer),
            r == Self::footer_outcome(old(self).events()),
    ;

    /// Hand one (original, formatted) pair to the sink.
    fn emit_formatted_file(&mut self, output: &mut Vec<u8>, file: FormattedFile<'_>) -> (r: Result<
        EmitterResult,
        EmitError,
    >)
        ensures
            final(self).events() == old(self).events().push(
                spec_file_event(file.filename@, file.original_text@, file.formatted_text@),
            ),
            r == Self::file_outcome(
                old(self).events(),
                spec_file_event(file.filename@, file.original_text@, file.formatted_text@),
            ),
    ;
}

/// One recorded call, as plain values a test can inspect.
#[derive(Debug, PartialEq, Eq)]
pub enum SinkCall {
    /// The header hook was called.
    Header,
    /// The per-file operation was called with this identity and these texts.
    File { filename: FileName, original: String, formatted: String },
    /// The footer hook was called.
    Footer,
}

impl View for SinkCall {
    type V = EmitEvent;

    open spec fn view(&self) -> EmitEvent {
        match self {
            SinkCall::Header => EmitEvent::Header,
            SinkCall::File { filename, original, formatted } => EmitEvent::File {
                filename: filename@,
                original: original@,
                formatted: formatted@,
            },
            SinkCall::Footer => EmitEvent::Footer,
        }
    }
}

/// A sink that records every call and always succeeds; its per-file outcome
/// reports whether original and formatted text differ.
pub struct RecordingSink {
    calls: Vec<SinkCall>,
}

impl RecordingSink {
    /// A sink that has seen no calls.
    pub fn new() -> (sink: RecordingSink)
        ensures
            sink.events() == Seq::<EmitEvent>::empty(),
    {
        let sink = RecordingSink { calls: Vec::new() };
        proof {
            assert(sink.events() =~= Seq::<EmitEvent>::empty());
        }
        sink
    }

    /// The recorded calls, oldest first.
    pub fn calls(&self) -> (calls: &Vec<SinkCall>)
        ensures
            calls@.map_values(|c: SinkCall| c@) == self.events(),
    {
        &self.calls
    }
}

impl Emitter for RecordingSink {
    closed spec fn events(&self) -> Seq<EmitEvent> {
        self.calls@.map_values(|c: SinkCall| c@)
    }

    open spec fn header_outcome(events: Seq<EmitEvent>) -> Result<(), EmitError> {
        Ok(())
    }

    open spec fn footer_outcome(events: Seq<EmitEvent>) -> Result<(), EmitError> {
        Ok(())
    }

    open spec fn file_outcome(events: Seq<EmitEvent>, ev: EmitEvent) -> Result<
        EmitterResult,
        EmitError,
    > {
        match ev {
            EmitEvent::File { filename, original, formatted } => Ok(
                EmitterResult { has_diff: original != formatted },
            ),
            _ => Ok(EmitterResult { has_diff: false }),
        }
    }

    fn emit_header(&mut self, output: &mut Vec<u8>) -> (r: Result<(), EmitError>)
        ensures
            final(self).events() == old(self).events().push(EmitEvent::Header),
            r == Self::header_outcome(old(self).events()),
    {
        let ghost old_calls = self.calls@;
        self.calls.push(SinkCall::Header);
        proof {
            assert(self.calls@.map_values(|c: SinkCall| c@) =~= old_calls.map_values(
                |c: SinkCall| c@,
            ).push(EmitEvent::Header));
        }
        Ok(())
    }

    fn emit_footer(&mut self, output: &mut Vec<u8>) -> (r: Result<(), EmitError>)
        ensures
            final(self).events() == old(self).events().push(EmitEvent::Footer),
            r == Self::footer_outcome(old(self).events()),
    {
        let ghost old_calls = self.calls@;
        self.calls.push(SinkCall::Footer);
        proof {
            assert(self.calls@.map_values(|c: SinkCall| c@) =~= old_calls.map_values(
                |c: SinkCall| c@,
            ).push(EmitEvent::Footer));
        }
        Ok(())
    }

    fn emit_formatted_file(&mut self, output: &mut Vec<u8>, file: FormattedFile<'_>) -> (r: Result<
        EmitterResult,
        EmitError,
    >)
        ensures
            final(self).events() == old(self).events().push(
                spec_file_event(file.filename@, file.original_text@, file.formatted_text@),
            ),
            r == Self::file_outcome(
                old(self).events(),
                spec_file_event(file.filename@, file.original_text@, file.formatted_text@),
            ),
    {
        let ghost old_calls = self.calls@;
        let has_diff = !(*file.original_text == *file.formatted_text);
        let call = SinkCall::File {
            filename: file.filename.clone(),
            original: file.original_text.clone(),
            formatted: file.formatted_text.clone(),
        };
        proof {
            assert(call@ == spec_file_event(
                file.filename@,
                file.original_text@,
                file.formatted_text@,
            ));
        }
        self.calls.push(call);
        proof {
            assert(self.calls@.map_values(|c: SinkCall| c@) =~= old_calls.map_values(
                |c: SinkCall| c@,
            ).push(
                spec_file_event(file.filename@, file.original_text@, file.formatted_text@),
            ));
        }
        Ok(EmitterResult { has_diff })
    }
}

} // verus!
