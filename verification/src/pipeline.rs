//! The pipeline from a configuration to a generated declaration.
//!
//! The pipeline itself reads no file and runs no compiler. It is a state
//! machine: each state asks for one [`Action`], and the outcome of that action
//! comes back as an [`Event`]. A shader source is resolved before its stage is
//! looked at, and the compiler is asked for only once both are known.
//!
//! The project root, against which a source path is resolved, is a parameter:
//! the caller passes what its environment names, if it names one.

use vstd::prelude::*;
use vstd::string::*;
use crate::annotation::{text_view, Configuration, ConfigurationView};
use crate::declaration::GeneratedDeclaration;
use crate::error::{EmbedError, ErrorView};
use crate::marker::{marker_reading, read_marker};
use crate::stage::{stage_of_tag, StageTag};

verus! {

/// What came of the action that the pipeline asked for.
#[derive(Debug, PartialEq, Eq)]
pub enum Event {
    /// The source file was read; these are its contents.
    SourceRead { contents: String },
    /// The source file could not be opened or read; `reason` is what the
    /// system said of it.
    SourceUnreadable { reason: String },
    /// The compiler accepted the shader. `bytes` is the binary as it was read
    /// to its end, `length` the number of bytes that the read reported.
    Compiled { bytes: Vec<u8>, length: usize },
    /// The compiler rejected the shader with this diagnostic.
    Rejected { diagnostic: String },
}

/// The mathematical value of an [`Event`].
pub enum EventView {
    SourceRead { contents: Seq<char> },
    SourceUnreadable { reason: Seq<char> },
    Compiled { bytes: Seq<u8>, length: nat },
    Rejected { diagnostic: Seq<char> },
}

impl View for Event {
    type V = EventView;

    open spec fn view(&self) -> EventView {
        match *self {
            Event::SourceRead { contents } => EventView::SourceRead { contents: contents@ },
            Event::SourceUnreadable { reason } => EventView::SourceUnreadable { reason: reason@ },
            Event::Compiled { bytes, length } => EventView::Compiled {
                bytes: bytes@,
                length: length as nat,
            },
            Event::Rejected { diagnostic } => EventView::Rejected { diagnostic: diagnostic@ },
        }
    }
}

impl Clone for Event {
    fn clone(&self) -> (copy: Event)
        ensures
            copy@ == self@,
    {
        match self {
            Event::SourceRead { contents } => Event::SourceRead { contents: contents.clone() },
            Event::SourceUnreadable { reason } => Event::SourceUnreadable {
                reason: reason.clone(),
            },
            Event::Compiled { bytes, length } => {
                let copied = bytes.clone();
                assert(copied@ =~= bytes@);
                Event::Compiled { bytes: copied, length: *length }
            },
            Event::Rejected { diagnostic } => Event::Rejected { diagnostic: diagnostic.clone() },
        }
    }
}

/// What the caller of the pipeline has to do next.
#[derive(Debug, PartialEq, Eq)]
pub enum Action {
    /// Read the file at `path`, relative to the directory `root`, as text.
    ReadFile { root: String, path: String },
    /// Compile `source` as a shader of the given stage.
    Compile { source: String, stage: StageTag },
    /// Put the declaration in place of the marker. The pipeline is done.
    Emit { declaration: GeneratedDeclaration },
    /// Give up with this error. The pipeline is done.
    Abort { error: EmbedError },
}

/// The mathematical value of an [`Action`].
pub enum ActionView {
    ReadFile { root: Seq<char>, path: Seq<char> },
    Compile { source: Seq<char>, stage: StageTag },
    Emit { bytes: Seq<u8> },
    Abort { error: ErrorView },
}

impl View for Action {
    type V = ActionView;

    open spec fn view(&self) -> ActionView {
        match *self {
            Action::ReadFile { root, path } => ActionView::ReadFile { root: root@, path: path@ },
            Action::Compile { source, stage } => ActionView::Compile { source: source@, stage },
            Action::Emit { declaration } => ActionView::Emit { bytes: declaration@ },
            Action::Abort { error } => ActionView::Abort { error: error@ },
        }
    }
}

impl Clone for Action {
    fn clone(&self) -> (copy: Action)
        ensures
            copy@ == self@,
    {
        match self {
            Action::ReadFile { root, path } => Action::ReadFile {
                root: root.clone(),
                path: path.clone(),
            },
            Action::Compile { source, stage } => Action::Compile {
                source: source.clone(),
                stage: *stage,
            },
            Action::Emit { declaration } => Action::Emit { declaration: declaration.clone() },
            Action::Abort { error } => Action::Abort { error: error.clone() },
        }
    }
}

/// The state of the pipeline for one marker declaration.
#[derive(Debug, PartialEq, Eq)]
pub enum Pipeline {
    /// The source is in a file that has yet to be read.
    AwaitingSource { root: String, path: String, ty: Option<String> },
    /// Source and stage are known; the compiler has yet to answer.
    AwaitingBinary { source: String, stage: StageTag },
    /// Done: the shader was compiled and its declaration generated.
    Emitted { declaration: GeneratedDeclaration },
    /// Done: the shader cannot be embedded.
    Failed { error: EmbedError },
}

/// The mathematical value of a [`Pipeline`].
pub enum PipelineView {
    AwaitingSource { root: Seq<char>, path: Seq<char>, ty: Option<Seq<char>> },
    AwaitingBinary { source: Seq<char>, stage: StageTag },
    Emitted { bytes: Seq<u8> },
    Failed { error: ErrorView },
}

impl View for Pipeline {
    type V = PipelineView;

    open spec fn view(&self) -> PipelineView {
        match *self {
            Pipeline::AwaitingSource { root, path, ty } => PipelineView::AwaitingSource {
                root: root@,
                path: path@,
                ty: text_view(ty),
            },
            Pipeline::AwaitingBinary { source, stage } => PipelineView::AwaitingBinary {
                source: source@,
                stage,
            },
            Pipeline::Emitted { declaration } => PipelineView::Emitted { bytes: declaration@ },
            Pipeline::Failed { error } => PipelineView::Failed { error: error@ },
        }
    }
}

impl Clone for Pipeline {
    fn clone(&self) -> (copy: Pipeline)
        ensures
            copy@ == self@,
    {
        match self {
            Pipeline::AwaitingSource { root, path, ty } => Pipeline::AwaitingSource {
                root: root.clone(),
                path: path.clone(),
                ty: match ty {
                    Some(tag) => Some(tag.clone()),
                    None => None,
                },
            },
            Pipeline::AwaitingBinary { source, stage } => Pipeline::AwaitingBinary {
                source: source.clone(),
                stage: *stage,
            },
            Pipeline::Emitted { declaration } => Pipeline::Emitted {
                declaration: declaration.clone(),
            },
            Pipeline::Failed { error } => Pipeline::Failed { error: error.clone() },
        }
    }
}

/// The state once the source text is known: the stage tag must be present and
/// name a stage, and then the compiler is asked.
pub open spec fn with_source(source: Seq<char>, ty: Option<Seq<char>>) -> PipelineView {
    match ty {
        None => PipelineView::Failed { error: ErrorView::MissingStage },
        Some(tag) => match stage_of_tag(tag) {
            Some(stage) => PipelineView::AwaitingBinary { source, stage },
            None => PipelineView::Failed { error: ErrorView::UnknownStage { tag } },
        },
    }
}

/// The project root: the directory that was given, and the current directory
/// where none was.
pub open spec fn root_or_current(root: Option<Seq<char>>) -> Seq<char> {
    match root {
        Some(directory) => directory,
        None => "."@,
    }
}

/// The state in which a configuration starts. An inline source is taken as it
/// is, and before a path; a path is resolved against the project root;
/// without either there is no source.
pub open spec fn start_state(config: ConfigurationView, root: Option<Seq<char>>) -> PipelineView {
    match config.src {
        Some(source) => with_source(source, config.ty),
        None => match config.path {
            Some(path) => PipelineView::AwaitingSource {
                root: root_or_current(root),
                path,
                ty: config.ty,
            },
            None => PipelineView::Failed { error: ErrorView::NoSource },
        },
    }
}

/// The state in which the pipeline starts for a marker, given the outcome of
/// reading the marker.
pub open spec fn start_of(
    read: Result<ConfigurationView, ErrorView>,
    root: Option<Seq<char>>,
) -> PipelineView {
    match read {
        Ok(config) => start_state(config, root),
        Err(error) => PipelineView::Failed { error },
    }
}

/// The state after an event. An event that does not answer what the state
/// asks for changes nothing.
pub open spec fn next_state(state: PipelineView, event: EventView) -> PipelineView {
    match state {
        PipelineView::AwaitingSource { path, ty, .. } => match event {
            EventView::SourceRead { contents } => with_source(contents, ty),
            EventView::SourceUnreadable { reason } => PipelineView::Failed {
                error: ErrorView::UnreadableSource { path, reason },
            },
            _ => state,
        },
        PipelineView::AwaitingBinary { .. } => match event {
            EventView::Compiled { bytes, length } => if length == bytes.len() {
                PipelineView::Emitted { bytes }
            } else {
                PipelineView::Failed {
                    error: ErrorView::LengthMismatch { declared: length, actual: bytes.len() },
                }
            },
            EventView::Rejected { diagnostic } => PipelineView::Failed {
                error: ErrorView::CompileFailed { diagnostic },
            },
            _ => state,
        },
        _ => state,
    }
}

/// What a state asks its caller to do.
pub open spec fn pending_action(state: PipelineView) -> ActionView {
    match state {
        PipelineView::AwaitingSource { root, path, .. } => ActionView::ReadFile { root, path },
        PipelineView::AwaitingBinary { source, stage } => ActionView::Compile { source, stage },
        PipelineView::Emitted { bytes } => ActionView::Emit { bytes },
        PipelineView::Failed { error } => ActionView::Abort { error },
    }
}

/// The pipeline is done: it has emitted a declaration or failed.
pub open spec fn finished(state: PipelineView) -> bool {
    state is Emitted || state is Failed
}

/// The state after a sequence of events, taken in order.
pub open spec fn run(state: PipelineView, events: Seq<EventView>) -> PipelineView
    decreases events.len(),
{
    if events.len() == 0 {
        state
    } else {
        next_state(run(state, events.drop_last()), events.last())
    }
}

/// The project root: the directory that was given, and the current directory
/// where none was.
pub fn project_root(root: Option<String>) -> (directory: String)
    ensures
        directory@ == root_or_current(text_view(root)),
{
    match root {
        Some(directory) => directory,
        None => String::from_str("."),
    }
}

fn resolve_stage(source: String, ty: Option<String>) -> (state: Pipeline)
    ensures
        state@ == with_source(source@, text_view(ty)),
{
    match ty {
        None => Pipeline::Failed { error: EmbedError::MissingStage },
        Some(tag) => match StageTag::from_tag(tag.as_str()) {
            Some(stage) => Pipeline::AwaitingBinary { source, stage },
            None => Pipeline::Failed { error: EmbedError::UnknownStage { tag } },
        },
    }
}

impl Pipeline {
    /// Starts the pipeline for a configuration, and says what to do first.
    /// `root` is the project root, if the environment names one.
    pub fn start(config: Configuration, root: Option<String>) -> (begun: (Pipeline, Action))
        ensures
            begun.0@ == start_state(config@, text_view(root)),
            begun.1@ == pending_action(begun.0@),
    {
        let Configuration { src, path, ty } = config;
        let state = match src {
            Some(source) => resolve_stage(source, ty),
            None => match path {
                Some(path) => Pipeline::AwaitingSource { root: project_root(root), path, ty },
                None => Pipeline::Failed { error: EmbedError::NoSource },
            },
        };
        let action = state.action();
        (state, action)
    }

    /// Starts the pipeline for the source text of a marker declaration: reads
    /// the marker's configuration and starts with it, or has failed at once if
    /// the marker cannot be read, be it that its text is refused unparsed,
    /// that it does not parse, or that one of its attributes is rejected.
    /// `root` is the project root, if the environment names one.
    pub fn begin(marker: &str, root: Option<String>) -> (begun: (Pipeline, Action))
        ensures
            begun.0@ == start_of(marker_reading(marker@), text_view(root)),
            begun.1@ == pending_action(begun.0@),
    {
        match read_marker(marker) {
            Ok(config) => Pipeline::start(config, root),
            Err(error) => {
                let state = Pipeline::Failed { error };
                let action = state.action();
                (state, action)
            },
        }
    }

    /// Takes the outcome of the pending action, and says what to do next.
    pub fn step(self, event: Event) -> (stepped: (Pipeline, Action))
        ensures
            stepped.0@ == next_state(self@, event@),
            stepped.1@ == pending_action(stepped.0@),
    {
        let state = match self {
            Pipeline::AwaitingSource { root, path, ty } => match event {
                Event::SourceRead { contents } => resolve_stage(contents, ty),
                Event::SourceUnreadable { reason } => Pipeline::Failed {
                    error: EmbedError::UnreadableSource { path, reason },
                },
                _ => Pipeline::AwaitingSource { root, path, ty },
            },
            Pipeline::AwaitingBinary { source, stage } => match event {
                Event::Compiled { bytes, length } => match GeneratedDeclaration::new(bytes, length) {
                    Ok(declaration) => Pipeline::Emitted { declaration },
                    Err(error) => Pipeline::Failed { error },
                },
                Event::Rejected { diagnostic } => Pipeline::Failed {
                    error: EmbedError::CompileFailed { diagnostic },
                },
                _ => Pipeline::AwaitingBinary { source, stage },
            },
            Pipeline::Emitted { declaration } => Pipeline::Emitted { declaration },
            Pipeline::Failed { error } => Pipeline::Failed { error },
        };
        let action = state.action();
        (state, action)
    }

    /// What this state asks its caller to do.
    pub fn action(&self) -> (action: Action)
        ensures
            action@ == pending_action(self@),
    {
        match self {
            Pipeline::AwaitingSource { root, path, .. } => Action::ReadFile {
                root: root.clone(),
                path: path.clone(),
            },
            Pipeline::AwaitingBinary { source, stage } => Action::Compile {
                source: source.clone(),
                stage: *stage,
            },
            Pipeline::Emitted { declaration } => Action::Emit { declaration: declaration.clone() },
            Pipeline::Failed { error } => Action::Abort { error: error.clone() },
        }
    }

    /// Whether the pipeline is done.
    pub fn is_finished(&self) -> (done: bool)
        ensures
            done == finished(self@),
    {
        match self {
            Pipeline::Emitted { .. } => true,
            Pipeline::Failed { .. } => true,
            _ => false,
        }
    }
}

} // verus!
