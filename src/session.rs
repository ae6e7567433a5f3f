use vstd::prelude::*;

use crate::error::{CrlError, DetectionError, IoStep};
use crate::kds::{crl_file_name, crl_file_name_of, crl_url_for, crl_url_of};
use crate::processor::ProcessorGeneration;

verus! {

/// Relies on std's `PathBuf` as an opaque value that the library carries for
/// its caller and never inspects.
#[verifier::external_type_specification]
#[verifier::external_body]
pub struct ExPathBuf(std::path::PathBuf);

/// What the operation is asked to do: store the list under `dir_path`.
pub struct Crl {
    pub dir_path: std::path::PathBuf,
}

/// Where one retrieval stands. Each stage waits for the outcome of the
/// outside work that the last action asked for.
#[derive(Debug, PartialEq, Eq)]
pub enum Stage {
    /// Waiting for the processor generation.
    Detecting,
    /// Waiting for the response body from the key-distribution service.
    Fetching { generation: ProcessorGeneration },
    /// Waiting to learn whether the destination directory exists.
    CheckingDir { generation: ProcessorGeneration, body: Vec<u8> },
    /// Waiting for the destination directory to be created.
    CreatingDir { generation: ProcessorGeneration, body: Vec<u8> },
    /// Waiting for the output file to be written.
    Writing { generation: ProcessorGeneration },
    /// Finished, with the outcome of the whole operation.
    Done { outcome: Result<(), CrlError> },
}

/// The outcome of the outside work that an action asked for.
#[derive(Debug, PartialEq, Eq)]
pub enum Event {
    Detected { generation: ProcessorGeneration },
    DetectionFailed,
    Fetched { body: Vec<u8> },
    FetchFailed,
    DirExists,
    DirMissing,
    DirCreated,
    DirCreateFailed,
    Written,
    WriteFailed,
}

/// The outside work that the caller performs next.
#[derive(Debug, PartialEq, Eq)]
pub enum Action {
    /// Detect the host's processor generation.
    Detect,
    /// Issue one GET request to `url` and collect the whole response body.
    Fetch { url: String },
    /// Find out whether the destination directory exists.
    CheckDir,
    /// Create the destination directory and its missing ancestors.
    CreateDir,
    /// Open `file_name` inside the destination directory, creating it if
    /// absent and truncating it if present, and write exactly `bytes`.
    WriteFile { file_name: String, bytes: Vec<u8> },
    /// Stop, with the outcome of the whole operation.
    Finish { outcome: Result<(), CrlError> },
}

/// A stage, with the bytes it holds as a sequence.
pub ghost enum StageView {
    Detecting,
    Fetching { generation: ProcessorGeneration },
    CheckingDir { generation: ProcessorGeneration, body: Seq<u8> },
    CreatingDir { generation: ProcessorGeneration, body: Seq<u8> },
    Writing { generation: ProcessorGeneration },
    Done { outcome: Result<(), CrlError> },
}

/// An event, with the bytes it carries as a sequence.
pub ghost enum EventView {
    Detected { generation: ProcessorGeneration },
    DetectionFailed,
    Fetched { body: Seq<u8> },
    FetchFailed,
    DirExists,
    DirMissing,
    DirCreated,
    DirCreateFailed,
    Written,
    WriteFailed,
}

/// An action, with its text and bytes as sequences.
pub ghost enum ActionView {
    Detect,
    Fetch { url: Seq<char> },
    CheckDir,
    CreateDir,
    WriteFile { file_name: Seq<char>, bytes: Seq<u8> },
    Finish { outcome: Result<(), CrlError> },
}

impl View for Stage {
    type V = StageView;

    open spec fn view(&self) -> StageView {
        match self {
            Stage::Detecting => StageView::Detecting,
            Stage::Fetching { generation } => StageView::Fetching { generation: *generation },
            Stage::CheckingDir { generation, body } => StageView::CheckingDir {
                generation: *generation,
                body: body@,
            },
            Stage::CreatingDir { generation, body } => StageView::CreatingDir {
                generation: *generation,
                body: body@,
            },
            Stage::Writing { generation } => StageView::Writing { generation: *generation },
            Stage::Done { outcome } => StageView::Done { outcome: *outcome },
        }
    }
}

impl View for Event {
    type V = EventView;

    open spec fn view(&self) -> EventView {
        match self {
            Event::Detected { generation } => EventView::Detected { generation: *generation },
            Event::DetectionFailed => EventView::DetectionFailed,
            Event::Fetched { body } => EventView::Fetched { body: body@ },
            Event::FetchFailed => EventView::FetchFailed,
            Event::DirExists => EventView::DirExists,
            Event::DirMissing => EventView::DirMissing,
            Event::DirCreated => EventView::DirCreated,
            Event::DirCreateFailed => EventView::DirCreateFailed,
            Event::Written => EventView::Written,
            Event::WriteFailed => EventView::WriteFailed,
        }
    }
}

impl View for Action {
    type V = ActionView;

    open spec fn view(&self) -> ActionView {
        match self {
            Action::Detect => ActionView::Detect,
            Action::Fetch { url } => ActionView::Fetch { url: url@ },
            Action::CheckDir => ActionView::CheckDir,
            Action::CreateDir => ActionView::CreateDir,
            Action::WriteFile { file_name, bytes } => ActionView::WriteFile {
                file_name: file_name@,
                bytes: bytes@,
            },
            Action::Finish { outcome } => ActionView::Finish { outcome: *outcome },
        }
    }
}

/// Whether `e` is an outcome of the work that stage `s` waits for.
pub open spec fn accepts_spec(s: StageView, e: EventView) -> bool {
    match s {
        StageView::Detecting => e is Detected || e is DetectionFailed,
        StageView::Fetching { .. } => e is Fetched || e is FetchFailed,
        StageView::CheckingDir { .. } => e is DirExists || e is DirMissing,
        StageView::CreatingDir { .. } => e is DirCreated || e is DirCreateFailed,
        StageView::Writing { .. } => e is Written || e is WriteFailed,
        StageView::Done { .. } => false,
    }
}

/// Ends the operation with `outcome`.
pub open spec fn finish(outcome: Result<(), CrlError>) -> (StageView, ActionView) {
    (StageView::Done { outcome }, ActionView::Finish { outcome })
}

/// Writes `body` to the file of generation `g`.
pub open spec fn write_body(g: ProcessorGeneration, body: Seq<u8>) -> (StageView, ActionView) {
    (
        StageView::Writing { generation: g },
        ActionView::WriteFile { file_name: crl_file_name_of(g), bytes: body },
    )
}

/// The next stage and action, when stage `s` receives event `e`. The
/// generation is detected once; its list is fetched from its own address; the
/// directory is created only where it is missing; the body is written
/// unchanged to the generation's file. The first failure ends the operation
/// with the error of the step that failed.
pub open spec fn transition(s: StageView, e: EventView) -> (StageView, ActionView)
    recommends
        accepts_spec(s, e),
{
    match (s, e) {
        (StageView::Detecting, EventView::Detected { generation }) => (
            StageView::Fetching { generation },
            ActionView::Fetch { url: crl_url_of(generation) },
        ),
        (StageView::Detecting, _) => finish(Err(CrlError::Detection)),
        (StageView::Fetching { generation }, EventView::Fetched { body }) => (
            StageView::CheckingDir { generation, body },
            ActionView::CheckDir,
        ),
        (StageView::Fetching { .. }, _) => finish(Err(CrlError::Fetch)),
        (StageView::CheckingDir { generation, body }, EventView::DirExists) => write_body(
            generation,
            body,
        ),
        (StageView::CheckingDir { generation, body }, _) => (
            StageView::CreatingDir { generation, body },
            ActionView::CreateDir,
        ),
        (StageView::CreatingDir { generation, body }, EventView::DirCreated) => write_body(
            generation,
            body,
        ),
        (StageView::CreatingDir { .. }, _) => finish(Err(CrlError::Io(IoStep::CreateDir))),
        (StageView::Writing { .. }, EventView::Written) => finish(Ok(())),
        (StageView::Writing { .. }, _) => finish(Err(CrlError::Io(IoStep::Write))),
        (StageView::Done { outcome }, _) => finish(outcome),
    }
}

/// The stage in which an operation starts, and its first action.
pub fn begin() -> (r: (Stage, Action))
    ensures
        r.0@ == StageView::Detecting,
        r.1@ == ActionView::Detect,
{
    (Stage::Detecting, Action::Detect)
}

/// Whether `event` is an outcome of the work that `stage` waits for.
pub fn accepts(stage: &Stage, event: &Event) -> (r: bool)
    ensures
        r == accepts_spec(stage@, event@),
{
    match stage {
        Stage::Detecting => matches!(event, Event::Detected { .. } | Event::DetectionFailed),
        Stage::Fetching { .. } => matches!(event, Event::Fetched { .. } | Event::FetchFailed),
        Stage::CheckingDir { .. } => matches!(event, Event::DirExists | Event::DirMissing),
        Stage::CreatingDir { .. } => matches!(event, Event::DirCreated | Event::DirCreateFailed),
        Stage::Writing { .. } => matches!(event, Event::Written | Event::WriteFailed),
        Stage::Done { .. } => false,
    }
}

/// Hands `event` to `stage`: returns the next stage and the action that the
/// caller performs next.
pub fn step(stage: Stage, event: Event) -> (r: (Stage, Action))
    requires
        accepts_spec(stage@, event@),
    ensures
        (r.0@, r.1@) == transition(stage@, event@),
{
    match stage {
        Stage::Detecting => match event {
            Event::Detected { generation } => (
                Stage::Fetching { generation },
                Action::Fetch { url: crl_url_for(generation) },
            ),
            _ => done(Err(CrlError::Detection)),
        },
        Stage::Fetching { generation } => match event {
            Event::Fetched { body } => (Stage::CheckingDir { generation, body }, Action::CheckDir),
            _ => done(Err(CrlError::Fetch)),
        },
        Stage::CheckingDir { generation, body } => match event {
            Event::DirExists => write(generation, body),
            _ => (Stage::CreatingDir { generation, body }, Action::CreateDir),
        },
        Stage::CreatingDir { generation, body } => match event {
            Event::DirCreated => write(generation, body),
            _ => done(Err(CrlError::Io(IoStep::CreateDir))),
        },
        Stage::Writing { .. } => match event {
            Event::Written => done(Ok(())),
            _ => done(Err(CrlError::Io(IoStep::Write))),
        },
        Stage::Done { outcome } => done(outcome),
    }
}

fn done(outcome: Result<(), CrlError>) -> (r: (Stage, Action))
    ensures
        (r.0@, r.1@) == finish(outcome),
{
    (Stage::Done { outcome }, Action::Finish { outcome })
}

fn write(generation: ProcessorGeneration, body: Vec<u8>) -> (r: (Stage, Action))
    ensures
        (r.0@, r.1@) == write_body(generation, body@),
{
    (
        Stage::Writing { generation },
        Action::WriteFile { file_name: crl_file_name(generation), bytes: body },
    )
}

} // verus!
