//! The inspection of one file, from its bytes to its report.
//!
//! `run` is the whole pipeline on what reading the file gave. The
//! `Inspector` is the same pipeline as a state machine, for a caller that
//! does the reading and the writing itself: it is told what happened and
//! answers what to do next.

use vstd::prelude::*;
use vstd::string::StringExecFns;
use crate::container::ParseError;
use crate::container::decode;
use crate::container::decoded_view;
use crate::container::parse_outcome;
use crate::media::FileTimes;
use crate::media::Media;
use crate::media::MediaView;
use crate::media::media_view;
use crate::render::lemma_report_in_two_parts;
use crate::render::render_file_section;
use crate::render::render_tracks;
use crate::render::report_text;
use crate::render::section_text;
use crate::report::file_section_of;
use crate::report::sections_of_report;
use crate::report::sections_of_tracks;
use crate::text::decimal;
use crate::track::ClassifiedTrack;
use crate::track::RawTrack;
use crate::track::TrackFailure;
use crate::track::classified_all;
use crate::track::classify_all;

verus! {

/// MEDIAFILE Argument constant
pub const ARG_MEDIAFILE: &'static str = "MEDIAFILE";

/// What reading a file gave: all of its bytes, and the timestamps that the
/// file system keeps for it.
#[derive(Clone, Debug, PartialEq, Eq)]
pub struct FileData {
    pub bytes: Vec<u8>,
    pub times: FileTimes,
}

/// What an inspection gave.
#[derive(Clone, Debug, PartialEq, Eq)]
pub struct Outcome {
    /// The text that was produced, as far as the inspection got.
    pub output: String,
    /// The tracks of the container, classified, in container order.
    pub tracks: Vec<Result<ClassifiedTrack, TrackFailure>>,
    /// Why the inspection failed, if it did.
    pub failure: Option<InspectError>,
}

/// The content of the description of the file that `run` inspects: its size
/// is the length of the buffer.
pub open spec fn inspected_media(path: Seq<char>, bytes: Seq<u8>, times: FileTimes) -> MediaView {
    media_view(path, bytes.len() as u64, times)
}

/// What an inspection gives for a file and the result of parsing it.
///
/// Where the buffer parsed, every record is classified and the output is
/// the whole report. Where it did not, the output is the file section
/// alone: the failure is fatal to the run, and no track section and no
/// closing blank line follow what was already produced.
pub open spec fn reported(
    media: MediaView,
    parsed: Result<Seq<RawTrack>, ParseError>,
    out: Outcome,
) -> bool {
    match parsed {
        Ok(raws) => {
            &&& out.failure is None
            &&& out.tracks@ == classified_all(raws)
            &&& out.output@ == report_text(sections_of_report(media, classified_all(raws)))
        },
        Err(error) => {
            &&& out.failure == Some(InspectError::Parse { error })
            &&& out.tracks@.len() == 0
            &&& out.output@ == section_text(file_section_of(media))
        },
    }
}

/// Finishes an inspection from the result of parsing the buffer.
pub fn report_parsed(media: &Media, parsed: Result<Vec<RawTrack>, ParseError>) -> (out: Outcome)
    ensures
        reported(media@, decoded_view(parsed), out),
{
    let mut output: String = render_file_section(media);
    match parsed {
        Ok(raws) => {
            let tracks = classify_all(&raws);
            let rest: String = render_tracks(&tracks);
            output.append(rest.as_str());
            proof {
                lemma_report_in_two_parts(media@, tracks@);
            }
            Outcome { output, tracks, failure: None }
        },
        Err(error) => Outcome {
            output,
            tracks: Vec::new(),
            failure: Some(InspectError::Parse { error }),
        },
    }
}

/// What inspecting a buffer gives: what is reported for the file and for
/// what the parser makes of the bytes. Only where memory ran out while
/// parsing is that failure reported in its place.
pub open spec fn inspected(media: MediaView, bytes: Seq<u8>, out: Outcome) -> bool {
    ||| reported(media, parse_outcome(bytes), out)
    ||| out.failure matches Some(InspectError::Parse { error }) && error.memory_ran_out()
        && reported(media, Err::<Seq<RawTrack>, ParseError>(error), out)
}

/// What an inspection gives where the file could not be read: nothing is
/// produced, neither the file section nor any track, and the failure
/// carries the reader's message.
pub open spec fn unread(message: Seq<char>, out: Outcome) -> bool {
    &&& out.output@.len() == 0
    &&& out.tracks@.len() == 0
    &&& out.failure matches Some(InspectError::Io { message: m })
    &&& m@ == message
}

/// Inspects the file at `path` from what reading it gave: its bytes and
/// timestamps, or the message of the failure to open, read or examine it.
///
/// Where the file could not be read the inspection ends there: nothing is
/// parsed and nothing is produced but the failure. Otherwise the file
/// section comes first and shows the exact length of the buffer as `bytes`,
/// and what follows is decided by what the parser makes of these bytes:
/// their records, classified and rendered in container order, or, where
/// they do not parse, nothing more and the failure.
pub fn run(path: String, read: Result<FileData, String>) -> (out: Outcome)
    ensures
        match read {
            Err(message) => unread(message@, out),
            Ok(data) => {
                &&& inspected(
                    inspected_media(path@, data.bytes@, data.times),
                    data.bytes@,
                    out,
                )
                &&& section_text(
                    file_section_of(inspected_media(path@, data.bytes@, data.times)),
                ).is_prefix_of(out.output@)
            },
        },
{
    match read {
        Err(message) => Outcome {
            output: String::new(),
            tracks: Vec::new(),
            failure: Some(InspectError::Io { message }),
        },
        Ok(data) => {
            let media: Media = Media::new(path, data.bytes.len() as u64, data.times);
            let out = report_parsed(&media, decode(&data.bytes));
            proof {
                lemma_report_in_two_parts(media@, out.tracks@);
            }
            out
        },
    }
}

/// The report of `run` shows, as the value of `bytes`, the decimal numeral of
/// the exact length of the buffer that was read.
pub proof fn lemma_bytes_is_buffer_length(path: Seq<char>, bytes: Seq<u8>, times: FileTimes)
    requires
        bytes.len() <= u64::MAX,
    ensures
        file_section_of(inspected_media(path, bytes, times)).fields[1] == (
            "bytes"@,
            decimal(bytes.len()),
        ),
{
}

/// The stages of an inspection, in the order in which they are passed.
/// `Done` and `Error` are final.
#[derive(Clone, Copy, Debug, PartialEq, Eq, Structural)]
pub enum Stage {
    Start,
    FileOpened,
    BufferRead,
    TimestampsResolved,
    Parsed,
    TracksClassified,
    Rendered,
    Done,
    Error,
}

/// Why an inspection failed.
#[derive(Clone, Debug, PartialEq, Eq)]
pub enum InspectError {
    /// The file is missing or unreadable; the message is the caller's.
    Io { message: String },
    /// The buffer is no MP4 container.
    Parse { error: ParseError },
    /// Something was reported that cannot happen at the current stage.
    OutOfOrder,
}

/// What the caller reports to the inspector.
#[derive(Clone, Debug, PartialEq, Eq)]
pub enum Event {
    /// The file was opened.
    Opened,
    /// The whole file was read.
    Loaded { bytes: Vec<u8> },
    /// The file system was asked for the timestamps of the file.
    Resolved { times: FileTimes },
    /// The last action is done and there is nothing to report.
    Proceed,
    /// The last action failed.
    Failed { message: String },
}

/// What the inspector asks the caller to do next.
#[derive(Clone, Debug, PartialEq, Eq)]
pub enum Action {
    /// Open the file.
    OpenFile,
    /// Read the whole file into memory.
    ReadBuffer,
    /// Ask the file system for the timestamps of the file.
    ResolveTimestamps,
    /// Write the text to the report stream, then report `Proceed`.
    Emit { text: String },
    /// Report `Proceed`.
    Continue,
    /// Close the file and end with success.
    Finish,
    /// Close the file, report the error and end with failure. What was
    /// emitted before stays emitted.
    Abort { error: InspectError },
    /// Nothing: the inspection has ended.
    Halt,
}

/// An inspection in progress.
pub struct Inspector {
    stage: Stage,
    path: String,
    bytes: Vec<u8>,
    raws: Vec<RawTrack>,
    entries: Vec<Result<ClassifiedTrack, TrackFailure>>,
}

/// The mathematical content of an `Inspector`.
#[verifier::ext_equal]
pub ghost struct InspectorView {
    pub stage: Stage,
    pub path: Seq<char>,
    pub bytes: Seq<u8>,
    pub raws: Seq<RawTrack>,
    pub entries: Seq<Result<ClassifiedTrack, TrackFailure>>,
}

impl View for Inspector {
    type V = InspectorView;

    closed spec fn view(&self) -> InspectorView {
        InspectorView {
            stage: self.stage,
            path: self.path@,
            bytes: self.bytes@,
            raws: self.raws@,
            entries: self.entries@,
        }
    }
}

impl Stage {
    /// Whether the stage is final.
    pub open spec fn terminal(self) -> bool {
        self == Stage::Done || self == Stage::Error
    }
}

impl InspectorView {
    /// The same inspection at another stage.
    pub open spec fn at(self, stage: Stage) -> InspectorView {
        InspectorView { stage, ..self }
    }
}

/// The inspection that has just begun on `path`.
pub open spec fn initial(path: Seq<char>) -> InspectorView {
    InspectorView {
        stage: Stage::Start,
        path,
        bytes: Seq::empty(),
        raws: Seq::empty(),
        entries: Seq::empty(),
    }
}

/// The step taken on an event that the stage does not accept: the inspection
/// ends in error.
pub open spec fn out_of_order(before: InspectorView, after: InspectorView, action: Action) -> bool {
    &&& after == before.at(Stage::Error)
    &&& action == Action::Abort { error: InspectError::OutOfOrder }
}

/// The step taken when the result of parsing arrives: on success the records
/// are kept and the inspection goes on, on failure it ends in error.
pub open spec fn parsed_step(
    before: InspectorView,
    parsed: Result<Seq<RawTrack>, ParseError>,
    after: InspectorView,
    action: Action,
) -> bool {
    if before.stage == Stage::TimestampsResolved {
        match parsed {
            Ok(raws) => {
                &&& after == InspectorView { stage: Stage::Parsed, raws, ..before }
                &&& action == Action::Continue
            },
            Err(error) => {
                &&& after == before.at(Stage::Error)
                &&& action == Action::Abort { error: InspectError::Parse { error } }
            },
        }
    } else if before.stage.terminal() {
        after == before && action == Action::Halt
    } else {
        out_of_order(before, after, action)
    }
}

/// The step taken on an event.
///
/// A final stage answers `Halt` to everything and stays as it is. Before
/// that, a failure ends the inspection in error with the caller's message,
/// and each stage accepts exactly one other event, which takes it to the
/// next stage. The step that parses is decided by what the parser makes of
/// the bytes that were loaded; only where memory ran out while parsing does
/// it end in error with that failure instead.
pub open spec fn stepped(
    before: InspectorView,
    event: Event,
    after: InspectorView,
    action: Action,
) -> bool {
    if before.stage.terminal() {
        after == before && action == Action::Halt
    } else {
        match event {
            Event::Failed { message } => {
                &&& after == before.at(Stage::Error)
                &&& action matches Action::Abort { error: InspectError::Io { message: m } }
                &&& m@ == message@
            },
            Event::Opened => if before.stage == Stage::Start {
                after == before.at(Stage::FileOpened) && action == Action::ReadBuffer
            } else {
                out_of_order(before, after, action)
            },
            Event::Loaded { bytes } => if before.stage == Stage::FileOpened {
                &&& after == InspectorView { stage: Stage::BufferRead, bytes: bytes@, ..before }
                &&& action == Action::ResolveTimestamps
            } else {
                out_of_order(before, after, action)
            },
            Event::Resolved { times } => if before.stage == Stage::BufferRead {
                &&& after == before.at(Stage::TimestampsResolved)
                &&& action matches Action::Emit { text }
                &&& text@ == section_text(
                    file_section_of(inspected_media(before.path, before.bytes, times)),
                )
            } else {
                out_of_order(before, after, action)
            },
            Event::Proceed => match before.stage {
                Stage::TimestampsResolved => {
                    ||| parsed_step(before, parse_outcome(before.bytes), after, action)
                    ||| action matches Action::Abort { error: InspectError::Parse { error } }
                        && error.memory_ran_out() && parsed_step(
                        before,
                        Err::<Seq<RawTrack>, ParseError>(error),
                        after,
                        action,
                    )
                },
                Stage::Parsed => {
                    &&& after == InspectorView {
                        stage: Stage::TracksClassified,
                        entries: classified_all(before.raws),
                        ..before
                    }
                    &&& action == Action::Continue
                },
                Stage::TracksClassified => {
                    &&& after == before.at(Stage::Rendered)
                    &&& action matches Action::Emit { text }
                    &&& text@ == report_text(sections_of_tracks(before.entries))
                },
                Stage::Rendered => after == before.at(Stage::Done) && action == Action::Finish,
                _ => out_of_order(before, after, action),
            },
        }
    }
}

impl Stage {
    /// The place of the stage in the order of an inspection that succeeds.
    pub open spec fn rank(self) -> nat {
        match self {
            Stage::Start => 0,
            Stage::FileOpened => 1,
            Stage::BufferRead => 2,
            Stage::TimestampsResolved => 3,
            Stage::Parsed => 4,
            Stage::TracksClassified => 5,
            Stage::Rendered => 6,
            Stage::Done => 7,
            Stage::Error => 8,
        }
    }
}

/// An inspection never goes back and never skips a stage: a step leaves a
/// final stage as it is, and takes any other stage either to the one that
/// follows it or to `Error`.
pub proof fn lemma_stages_only_advance(
    before: InspectorView,
    event: Event,
    after: InspectorView,
    action: Action,
)
    requires
        stepped(before, event, after, action),
    ensures
        before.stage.terminal() ==> after.stage == before.stage,
        !before.stage.terminal() ==> after.stage == Stage::Error || after.stage.rank()
            == before.stage.rank() + 1,
{
}

/// Once an inspection has ended, in success or in error, nothing more is
/// emitted: every further event is answered by `Halt`.
pub proof fn lemma_final_stage_halts(
    before: InspectorView,
    event: Event,
    after: InspectorView,
    action: Action,
)
    requires
        before.stage.terminal(),
        stepped(before, event, after, action),
    ensures
        after == before,
        action == Action::Halt,
{
}

/// A failure that is reported before the inspection has ended puts it into
/// `Error` at once: the answer is `Abort` with the reported message, so
/// nothing is emitted and nothing is parsed on account of that event.
pub proof fn lemma_failure_aborts(
    before: InspectorView,
    message: String,
    after: InspectorView,
    action: Action,
)
    requires
        !before.stage.terminal(),
        stepped(before, Event::Failed { message }, after, action),
    ensures
        after.stage == Stage::Error,
        after.raws == before.raws,
        after.entries == before.entries,
        action matches Action::Abort { error: InspectError::Io { message: m } } && m@ == message@,
{
}

/// Text is emitted at two steps only: when the timestamps arrive, and when
/// the classified tracks are rendered.
pub proof fn lemma_emit_steps(
    before: InspectorView,
    event: Event,
    after: InspectorView,
    action: Action,
)
    requires
        stepped(before, event, after, action),
        action is Emit,
    ensures
        (before.stage == Stage::BufferRead && after.stage == Stage::TimestampsResolved) || (
        before.stage == Stage::TracksClassified && after.stage == Stage::Rendered),
{
}

impl Inspector {
    /// Begins the inspection of the file at `path`. The first thing to do is
    /// to open the file.
    pub fn start(path: String) -> (r: (Inspector, Action))
        ensures
            r.0@ == initial(path@),
            r.1 == Action::OpenFile,
    {
        let inspector = Inspector {
            stage: Stage::Start,
            path,
            bytes: Vec::new(),
            raws: Vec::new(),
            entries: Vec::new(),
        };
        (inspector, Action::OpenFile)
    }

    /// The stage that the inspection is at.
    pub fn stage(&self) -> (s: Stage)
        ensures
            s == self@.stage,
    {
        self.stage
    }

    fn is_terminal(&self) -> (b: bool)
        ensures
            b == self@.stage.terminal(),
    {
        match self.stage {
            Stage::Done => true,
            Stage::Error => true,
            _ => false,
        }
    }

    fn reject(&mut self) -> (action: Action)
        ensures
            out_of_order(old(self)@, final(self)@, action),
    {
        self.stage = Stage::Error;
        Action::Abort { error: InspectError::OutOfOrder }
    }

    /// Takes the result of parsing the buffer, which is due once the file
    /// section has been emitted.
    pub fn accept_parsed(&mut self, parsed: Result<Vec<RawTrack>, ParseError>) -> (action: Action)
        ensures
            parsed_step(old(self)@, decoded_view(parsed), final(self)@, action),
    {
        if self.is_terminal() {
            return Action::Halt;
        }
        match self.stage {
            Stage::TimestampsResolved => match parsed {
                Ok(raws) => {
                    self.raws = raws;
                    self.stage = Stage::Parsed;
                    Action::Continue
                },
                Err(error) => {
                    self.stage = Stage::Error;
                    Action::Abort { error: InspectError::Parse { error } }
                },
            },
            _ => self.reject(),
        }
    }

    /// Takes the next event and answers with the next action.
    pub fn step(&mut self, event: Event) -> (action: Action)
        ensures
            stepped(old(self)@, event, final(self)@, action),
    {
        if self.is_terminal() {
            return Action::Halt;
        }
        match event {
            Event::Failed { message } => {
                self.stage = Stage::Error;
                Action::Abort { error: InspectError::Io { message } }
            },
            Event::Opened => match self.stage {
                Stage::Start => {
                    self.stage = Stage::FileOpened;
                    Action::ReadBuffer
                },
                _ => self.reject(),
            },
            Event::Loaded { bytes } => match self.stage {
                Stage::FileOpened => {
                    self.bytes = bytes;
                    self.stage = Stage::BufferRead;
                    Action::ResolveTimestamps
                },
                _ => self.reject(),
            },
            Event::Resolved { times } => match self.stage {
                Stage::BufferRead => {
                    let media: Media = Media::new(
                        self.path.clone(),
                        self.bytes.len() as u64,
                        times,
                    );
                    let text: String = render_file_section(&media);
                    self.stage = Stage::TimestampsResolved;
                    Action::Emit { text }
                },
                _ => self.reject(),
            },
            Event::Proceed => match self.stage {
                Stage::TimestampsResolved => {
                    let parsed = decode(&self.bytes);
                    self.accept_parsed(parsed)
                },
                Stage::Parsed => {
                    self.entries = classify_all(&self.raws);
                    self.stage = Stage::TracksClassified;
                    Action::Continue
                },
                Stage::TracksClassified => {
                    let text: String = render_tracks(&self.entries);
                    self.stage = Stage::Rendered;
                    Action::Emit { text }
                },
                Stage::Rendered => {
                    self.stage = Stage::Done;
                    Action::Finish
                },
                _ => self.reject(),
            },
        }
    }
}

} // verus!
