//! What holds of every run of the pipeline.

use vstd::prelude::*;
use crate::annotation::{text_view, validation, Configuration, ConfigurationView};
use crate::declaration::{
    declaration_text, lemma_declaration_text_determines_bytes, GeneratedDeclaration,
};
use crate::error::{
    kind_of, lemma_message_holds_diagnostic, message_text, occurs_at, ErrorKind, ErrorView,
};
use crate::pipeline::{
    finished, next_state, pending_action, root_or_current, run, start_state, Action, ActionView,
    Event, EventView, Pipeline, PipelineView,
};
use crate::stage::stage_of_tag;

verus! {

/// The stage tag is absent, or names none of the six stages.
pub open spec fn names_no_stage(ty: Option<Seq<char>>) -> bool {
    match ty {
        Some(tag) => stage_of_tag(tag) is None,
        None => true,
    }
}

/// A pipeline that is done stays as it is: no event moves it, so an error is
/// never recovered from and a declaration is never replaced.
pub proof fn lemma_finished_is_final(state: PipelineView, events: Seq<EventView>)
    requires
        finished(state),
    ensures
        run(state, events) == state,
    decreases events.len(),
{
    if events.len() > 0 {
        lemma_finished_is_final(state, events.drop_last());
    }
}

/// With an inline source and a stage tag that names a stage, the pipeline
/// asks at once for the compilation of exactly that source at that stage;
/// and when the compiler hands back a binary whose recorded length is the
/// number of its bytes, the pipeline ends with a declaration of exactly
/// those bytes, all of them and in order. The text of that declaration reads
/// back as those bytes and no others.
pub proof fn lemma_inline_source_embeds_binary(
    config: ConfigurationView,
    root: Option<Seq<char>>,
    bytes: Seq<u8>,
)
    requires
        config.src is Some,
        config.ty is Some,
        stage_of_tag(config.ty->0) is Some,
    ensures
        pending_action(start_state(config, root)) == (ActionView::Compile {
            source: config.src->0,
            stage: stage_of_tag(config.ty->0)->0,
        }),
        next_state(start_state(config, root), EventView::Compiled { bytes, length: bytes.len() })
            == (PipelineView::Emitted { bytes }),
        forall|read_back: Seq<u8>| #[trigger]
            declaration_text(read_back) == declaration_text(bytes) ==> read_back == bytes,
{
    assert forall|read_back: Seq<u8>| #[trigger]
        declaration_text(read_back) == declaration_text(bytes) implies read_back == bytes by {
        lemma_declaration_text_determines_bytes(read_back, bytes);
    }
}

/// Without `src` and without `path` the pipeline has failed from the start
/// for want of a source, and whatever events follow, it stays so: the
/// compiler is never asked.
pub proof fn lemma_no_source_never_compiles(
    config: ConfigurationView,
    root: Option<Seq<char>>,
    events: Seq<EventView>,
)
    requires
        config.src is None,
        config.path is None,
    ensures
        run(start_state(config, root), events) == (PipelineView::Failed {
            error: ErrorView::NoSource,
        }),
        kind_of(ErrorView::NoSource) == ErrorKind::SourceResolution,
        !(pending_action(run(start_state(config, root), events)) is Compile),
{
    lemma_finished_is_final(start_state(config, root), events);
}

/// With a stage tag that is absent or names no stage, no run of the pipeline
/// ever reaches the state that asks for the compiler, and none emits a
/// declaration.
pub proof fn lemma_unknown_stage_never_compiles(
    config: ConfigurationView,
    root: Option<Seq<char>>,
    events: Seq<EventView>,
)
    requires
        names_no_stage(config.ty),
    ensures
        !(pending_action(run(start_state(config, root), events)) is Compile),
        !(run(start_state(config, root), events) is Emitted),
        run(start_state(config, root), events) matches PipelineView::AwaitingSource { ty, .. }
            ==> ty == config.ty,
    decreases events.len(),
{
    if events.len() > 0 {
        lemma_unknown_stage_never_compiles(config, root, events.drop_last());
    }
}

/// A configuration that is not valid never has its shader compiled, and
/// nothing is ever emitted for it. With an inline source, or with no source
/// at all, the pipeline has failed from the start with the very error that
/// validation gives.
pub proof fn lemma_invalid_configuration_fails(
    config: ConfigurationView,
    root: Option<Seq<char>>,
    events: Seq<EventView>,
)
    requires
        validation(config) is Err,
    ensures
        !(pending_action(run(start_state(config, root), events)) is Compile),
        !(run(start_state(config, root), events) is Emitted),
        (config.src is Some || config.path is None) ==> run(start_state(config, root), events) == (
        PipelineView::Failed { error: validation(config)->Err_0 }),
{
    if config.src is None && config.path is None {
        lemma_no_source_never_compiles(config, root, events);
    } else {
        lemma_unknown_stage_never_compiles(config, root, events);
        if config.src is Some {
            lemma_finished_is_final(start_state(config, root), events);
        }
    }
}

/// A valid configuration has its shader compiled at the stage that
/// validation gives: at once where the source is inline, and else as soon as
/// the file has been read.
pub proof fn lemma_valid_configuration_compiles(
    config: ConfigurationView,
    root: Option<Seq<char>>,
    contents: Seq<char>,
)
    requires
        validation(config) is Ok,
    ensures
        config.src is Some ==> pending_action(start_state(config, root)) == (ActionView::Compile {
            source: config.src->0,
            stage: validation(config)->Ok_0,
        }),
        config.src is None ==> pending_action(
            next_state(start_state(config, root), EventView::SourceRead { contents }),
        ) == (ActionView::Compile { source: contents, stage: validation(config)->Ok_0 }),
{
}

/// With a stage tag that names no stage and an inline source, the pipeline
/// has failed from the start with a configuration error that holds the tag.
pub proof fn lemma_unknown_stage_fails_at_once(config: ConfigurationView, root: Option<Seq<char>>)
    requires
        config.src is Some,
        config.ty is Some,
        stage_of_tag(config.ty->0) is None,
    ensures
        start_state(config, root) == (PipelineView::Failed {
            error: ErrorView::UnknownStage { tag: config.ty->0 },
        }),
        kind_of(ErrorView::UnknownStage { tag: config.ty->0 }) == ErrorKind::Configuration,
{
}

/// Where `src` is present it is taken: neither a `path` beside it nor the
/// project root has any effect.
pub proof fn lemma_inline_source_comes_first(
    config: ConfigurationView,
    root: Option<Seq<char>>,
    other_root: Option<Seq<char>>,
)
    requires
        config.src is Some,
    ensures
        start_state(config, root) == start_state(
            ConfigurationView { path: None, ..config },
            other_root,
        ),
{
}

/// With a path, no inline source and a stage tag that names a stage, the
/// pipeline first asks for the file at exactly that path under the project
/// root, and then for the compilation of exactly what was read from it. If
/// the file cannot be read, the error holds that path and the reason.
pub proof fn lemma_file_source_is_compiled_as_read(
    config: ConfigurationView,
    root: Option<Seq<char>>,
    contents: Seq<char>,
    reason: Seq<char>,
)
    requires
        config.src is None,
        config.path is Some,
        config.ty is Some,
        stage_of_tag(config.ty->0) is Some,
    ensures
        pending_action(start_state(config, root)) == (ActionView::ReadFile {
            root: root_or_current(root),
            path: config.path->0,
        }),
        pending_action(next_state(start_state(config, root), EventView::SourceRead { contents }))
            == (ActionView::Compile { source: contents, stage: stage_of_tag(config.ty->0)->0 }),
        next_state(start_state(config, root), EventView::SourceUnreadable { reason }) == (
        PipelineView::Failed {
            error: ErrorView::UnreadableSource { path: config.path->0, reason },
        }),
{
}

/// A declaration is emitted only for a binary that the compiler handed back
/// with a recorded length equal to the number of its bytes, and it holds
/// exactly those bytes. A binary whose recorded length differs is an error.
pub proof fn lemma_emitted_is_compiler_output(state: PipelineView, event: EventView)
    requires
        !finished(state),
    ensures
        next_state(state, event) matches PipelineView::Emitted { bytes: emitted } ==> {
            &&& state is AwaitingBinary
            &&& event == (EventView::Compiled { bytes: emitted, length: emitted.len() })
        },
        (state is AwaitingBinary && event is Compiled && event->length != event->bytes.len())
            ==> {
            &&& next_state(state, event) matches PipelineView::Failed { error }
            &&& kind_of(error) == ErrorKind::Render
        },
{
}

/// A shader that the compiler rejects ends the pipeline with a compile error
/// whose message starts with the compiler's whole diagnostic.
pub proof fn lemma_rejection_reports_diagnostic(state: PipelineView, diagnostic: Seq<char>)
    requires
        state is AwaitingBinary,
    ensures
        next_state(state, EventView::Rejected { diagnostic }) == (PipelineView::Failed {
            error: ErrorView::CompileFailed { diagnostic },
        }),
        kind_of(ErrorView::CompileFailed { diagnostic }) == ErrorKind::Compile,
        occurs_at(message_text(ErrorView::CompileFailed { diagnostic }), diagnostic, 0),
{
    lemma_message_holds_diagnostic(diagnostic);
}

/// Starting the pipeline adds nothing of its own: whatever two calls of
/// [`Pipeline::start`] return for the same configuration and the same
/// project root, they return the same state and ask for the same action.
pub proof fn lemma_start_is_deterministic(
    config: Configuration,
    other_config: Configuration,
    root: Option<String>,
    other_root: Option<String>,
    begun: (Pipeline, Action),
    other_begun: (Pipeline, Action),
)
    requires
        config@ == other_config@,
        text_view(root) == text_view(other_root),
        call_ensures(Pipeline::start, (config, root), begun),
        call_ensures(Pipeline::start, (other_config, other_root), other_begun),
    ensures
        begun.0@ == other_begun.0@,
        begun.1@ == other_begun.1@,
{
}

/// Reading a marker and starting with it adds nothing of its own: whatever
/// two calls of [`Pipeline::begin`] return for the same marker text and the
/// same project root, they return the same state and ask for the same
/// action.
pub proof fn lemma_begin_is_deterministic(
    marker: &str,
    other_marker: &str,
    root: Option<String>,
    other_root: Option<String>,
    begun: (Pipeline, Action),
    other_begun: (Pipeline, Action),
)
    requires
        marker@ == other_marker@,
        text_view(root) == text_view(other_root),
        call_ensures(Pipeline::begin, (marker, root), begun),
        call_ensures(Pipeline::begin, (other_marker, other_root), other_begun),
    ensures
        begun.0@ == other_begun.0@,
        begun.1@ == other_begun.1@,
{
}

/// A step adds nothing of its own: whatever two calls of [`Pipeline::step`]
/// return for the same state and the same event, they return the same state
/// and ask for the same action.
pub proof fn lemma_step_is_deterministic(
    state: Pipeline,
    other_state: Pipeline,
    event: Event,
    other_event: Event,
    stepped: (Pipeline, Action),
    other_stepped: (Pipeline, Action),
)
    requires
        state@ == other_state@,
        event@ == other_event@,
        call_ensures(Pipeline::step, (state, event), stepped),
        call_ensures(Pipeline::step, (other_state, other_event), other_stepped),
    ensures
        stepped.0@ == other_stepped.0@,
        stepped.1@ == other_stepped.1@,
{
}

/// Rendering adds nothing of its own: whatever two calls of
/// [`GeneratedDeclaration::render`] return for declarations of the same
/// bytes, they return the same text, character for character.
pub proof fn lemma_render_is_deterministic(
    declaration: GeneratedDeclaration,
    other_declaration: GeneratedDeclaration,
    text: String,
    other_text: String,
)
    requires
        declaration@ == other_declaration@,
        call_ensures(GeneratedDeclaration::render, (&declaration,), text),
        call_ensures(GeneratedDeclaration::render, (&other_declaration,), other_text),
    ensures
        text@ == other_text@,
{
}

} // verus!
