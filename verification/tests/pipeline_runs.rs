use glsl_embed::annotation::Configuration;
use glsl_embed::declaration::GeneratedDeclaration;
use glsl_embed::error::{EmbedError, ErrorKind};
use glsl_embed::pipeline::{project_root, Action, Event, Pipeline};
use glsl_embed::stage::StageTag;

fn configuration(src: Option<&str>, path: Option<&str>, ty: Option<&str>) -> Configuration {
    Configuration {
        src: src.map(|s| s.to_string()),
        path: path.map(|s| s.to_string()),
        ty: ty.map(|s| s.to_string()),
    }
}

fn compiled(bytes: &[u8]) -> Event {
    Event::Compiled { bytes: bytes.to_vec(), length: bytes.len() }
}

fn all_events() -> Vec<Event> {
    vec![
        Event::SourceRead { contents: "void main() {}".to_string() },
        Event::SourceUnreadable { reason: "denied".to_string() },
        compiled(&[1, 2, 3]),
        Event::Compiled { bytes: vec![1, 2, 3], length: 2 },
        Event::Rejected { diagnostic: "error".to_string() },
    ]
}

fn run(config: Configuration, events: &[Event]) -> (Pipeline, Vec<Action>) {
    let (mut state, action) = Pipeline::start(config, Some("/project".to_string()));
    let mut actions = vec![action];
    for event in events {
        let (next, action) = state.step(event.clone());
        state = next;
        actions.push(action);
    }
    (state, actions)
}

#[test]
fn an_inline_source_is_compiled_and_embedded() {
    let (state, action) = Pipeline::start(configuration(Some("void main() {}"), None, Some("vs")), None);
    assert_eq!(action, Action::Compile { source: "void main() {}".to_string(), stage: StageTag::Vertex });
    assert_eq!(state.action(), action);
    assert!(!state.is_finished());
    let binary = vec![3u8, 2, 35, 7, 0, 0, 1, 0];
    let (state, action) = state.step(compiled(&binary));
    assert!(state.is_finished());
    match action {
        Action::Emit { declaration } => {
            assert_eq!(declaration.len(), binary.len());
            assert_eq!(declaration.bytes(), &binary);
            assert_eq!(
                declaration.render(),
                "static DATA : [ u8 ; 8usize ] = [ 3u8 , 2u8 , 35u8 , 7u8 , 0u8 , 0u8 , 1u8 , 0u8 , ] ;"
            );
        }
        other => panic!("no declaration was emitted: {:?}", other),
    }
}

#[test]
fn an_empty_binary_is_embedded_as_an_empty_array() {
    let (state, _) = Pipeline::start(configuration(Some(""), None, Some("cs")), None);
    let (state, action) = state.step(compiled(&[]));
    assert_eq!(action, Action::Emit { declaration: GeneratedDeclaration::new(vec![], 0).unwrap() });
    assert_eq!(state, Pipeline::Emitted { declaration: GeneratedDeclaration::new(vec![], 0).unwrap() });
}

#[test]
fn each_stage_tag_reaches_the_compiler_as_its_stage() {
    let pairs = vec![
        ("vs", StageTag::Vertex),
        ("fs", StageTag::Fragment),
        ("gs", StageTag::Geometry),
        ("tcs", StageTag::TessellationControl),
        ("tes", StageTag::TessellationEvaluation),
        ("cs", StageTag::Compute),
    ];
    for (tag, stage) in pairs {
        let (_, action) = Pipeline::start(configuration(Some("x"), None, Some(tag)), None);
        assert_eq!(action, Action::Compile { source: "x".to_string(), stage });
    }
}

#[test]
fn without_a_source_nothing_is_compiled() {
    for ty in vec![Some("vs"), Some("xyz"), None] {
        let (state, action) = Pipeline::start(configuration(None, None, ty), None);
        assert_eq!(action, Action::Abort { error: EmbedError::NoSource });
        assert_eq!(state, Pipeline::Failed { error: EmbedError::NoSource });
        assert!(state.is_finished());
        let (state, actions) = run(configuration(None, None, ty), &all_events());
        assert_eq!(state, Pipeline::Failed { error: EmbedError::NoSource });
        for action in actions {
            assert_eq!(action, Action::Abort { error: EmbedError::NoSource });
        }
    }
    assert_eq!(EmbedError::NoSource.kind(), ErrorKind::SourceResolution);
}

#[test]
fn an_unknown_stage_fails_before_the_compiler() {
    let unknown = EmbedError::UnknownStage { tag: "xyz".to_string() };
    let (state, action) = Pipeline::start(configuration(Some("void main() {}"), None, Some("xyz")), None);
    assert_eq!(action, Action::Abort { error: unknown.clone() });
    assert_eq!(state, Pipeline::Failed { error: unknown.clone() });
    assert_eq!(unknown.kind(), ErrorKind::Configuration);

    let (state, action) = Pipeline::start(configuration(None, Some("a.vert"), Some("xyz")), None);
    assert_eq!(action, Action::ReadFile { root: ".".to_string(), path: "a.vert".to_string() });
    let (state, action) = state.step(Event::SourceRead { contents: "void main() {}".to_string() });
    assert_eq!(action, Action::Abort { error: unknown.clone() });
    assert_eq!(state, Pipeline::Failed { error: unknown.clone() });

    for config in vec![
        configuration(Some("void main() {}"), None, Some("xyz")),
        configuration(None, Some("a.vert"), Some("xyz")),
        configuration(Some("void main() {}"), Some("a.vert"), Some("")),
    ] {
        let events = all_events();
        for first in 0..events.len() {
            for second in 0..events.len() {
                let chosen = vec![events[first].clone(), events[second].clone()];
                let (state, actions) = run(config.clone(), &chosen);
                assert!(!matches!(state, Pipeline::Emitted { .. }));
                for action in actions {
                    assert!(!matches!(action, Action::Compile { .. }));
                    assert!(!matches!(action, Action::Emit { .. }));
                }
            }
        }
    }
}

#[test]
fn a_missing_stage_fails_before_the_compiler() {
    let (state, action) = Pipeline::start(configuration(Some("void main() {}"), None, None), None);
    assert_eq!(action, Action::Abort { error: EmbedError::MissingStage });
    assert_eq!(state, Pipeline::Failed { error: EmbedError::MissingStage });

    let (state, _) = Pipeline::start(configuration(None, Some("a.vert"), None), None);
    let (state, action) = state.step(Event::SourceRead { contents: "x".to_string() });
    assert_eq!(action, Action::Abort { error: EmbedError::MissingStage });
    assert!(state.is_finished());
}

#[test]
fn a_source_file_is_compiled_as_it_was_read() {
    let (state, action) = Pipeline::start(
        configuration(None, Some("shaders/test.vert"), Some("vs")),
        Some("/home/user/project".to_string()),
    );
    assert_eq!(
        action,
        Action::ReadFile { root: "/home/user/project".to_string(), path: "shaders/test.vert".to_string() }
    );
    assert_eq!(
        state,
        Pipeline::AwaitingSource {
            root: "/home/user/project".to_string(),
            path: "shaders/test.vert".to_string(),
            ty: Some("vs".to_string()),
        }
    );
    let contents = "#version 450\n\nvoid main() {\n\tgl_Position = vec4(0.0);\n}\n// \u{e9}\r\n";
    let (state, action) = state.step(Event::SourceRead { contents: contents.to_string() });
    assert_eq!(action, Action::Compile { source: contents.to_string(), stage: StageTag::Vertex });
    let (_, action) = state.step(compiled(&[9, 8, 7]));
    assert_eq!(action, Action::Emit { declaration: GeneratedDeclaration::new(vec![9, 8, 7], 3).unwrap() });
}

#[test]
fn an_unreadable_file_is_reported_with_its_path() {
    let (state, _) = Pipeline::start(configuration(None, Some("shaders/missing.vert"), Some("vs")), None);
    let reason = "Os { code: 2, kind: NotFound, message: \"No such file or directory\" }";
    let (state, action) = state.step(Event::SourceUnreadable { reason: reason.to_string() });
    let error = EmbedError::UnreadableSource {
        path: "shaders/missing.vert".to_string(),
        reason: reason.to_string(),
    };
    assert_eq!(action, Action::Abort { error: error.clone() });
    assert_eq!(state, Pipeline::Failed { error: error.clone() });
    assert_eq!(error.kind(), ErrorKind::SourceResolution);
    assert!(error.message().contains("shaders/missing.vert"));
    assert_eq!(
        error.message(),
        "Error reading shader source file: \"shaders/missing.vert\": Os { code: 2, kind: NotFound, message: \"No such file or directory\" }"
    );
}

#[test]
fn an_unreadable_file_comes_before_an_unknown_stage() {
    let (state, _) = Pipeline::start(configuration(None, Some("a.vert"), Some("xyz")), None);
    let (_, action) = state.step(Event::SourceUnreadable { reason: "gone".to_string() });
    assert_eq!(
        action,
        Action::Abort {
            error: EmbedError::UnreadableSource { path: "a.vert".to_string(), reason: "gone".to_string() }
        }
    );
}

#[test]
fn an_inline_source_comes_before_a_path() {
    let (state, action) = Pipeline::start(configuration(Some("inline"), Some("a.vert"), Some("fs")), None);
    assert_eq!(action, Action::Compile { source: "inline".to_string(), stage: StageTag::Fragment });
    let (_, only_src) = Pipeline::start(configuration(Some("inline"), None, Some("fs")), None);
    assert_eq!(state.action(), only_src);
}

#[test]
fn a_rejected_shader_is_reported_with_the_diagnostic() {
    let (state, action) = Pipeline::start(configuration(Some("not glsl"), None, Some("fs")), None);
    assert_eq!(action, Action::Compile { source: "not glsl".to_string(), stage: StageTag::Fragment });
    let diagnostic = "ERROR: 0:1: '' :  syntax error, unexpected IDENTIFIER\nERROR: 1 compilation errors.  No code generated.\n";
    let (state, action) = state.step(Event::Rejected { diagnostic: diagnostic.to_string() });
    let error = EmbedError::CompileFailed { diagnostic: diagnostic.to_string() };
    assert_eq!(action, Action::Abort { error: error.clone() });
    assert_eq!(state, Pipeline::Failed { error: error.clone() });
    assert_eq!(error.kind(), ErrorKind::Compile);
    assert!(error.message().contains(diagnostic));
    assert_eq!(error.message(), format!("{}\nfailed to compile shader", diagnostic));
}

#[test]
fn a_binary_with_a_wrong_length_is_not_embedded() {
    for length in vec![0usize, 2, 4, 100] {
        let (state, _) = Pipeline::start(configuration(Some("void main() {}"), None, Some("vs")), None);
        let (state, action) = state.step(Event::Compiled { bytes: vec![1, 2, 3], length });
        let error = EmbedError::LengthMismatch { declared: length, actual: 3 };
        assert_eq!(action, Action::Abort { error: error.clone() });
        assert_eq!(state, Pipeline::Failed { error: error.clone() });
        assert_eq!(error.kind(), ErrorKind::Render);
    }
}

#[test]
fn an_event_that_answers_nothing_changes_nothing() {
    let (state, action) = Pipeline::start(configuration(None, Some("a.vert"), Some("vs")), None);
    let (state, again) = state.step(compiled(&[1]));
    assert_eq!(again, action);
    let (state, again) = state.step(Event::Rejected { diagnostic: "d".to_string() });
    assert_eq!(again, action);
    assert_eq!(
        state,
        Pipeline::AwaitingSource {
            root: ".".to_string(),
            path: "a.vert".to_string(),
            ty: Some("vs".to_string()),
        }
    );

    let (state, action) = Pipeline::start(configuration(Some("x"), None, Some("vs")), None);
    let (state, again) = state.step(Event::SourceRead { contents: "y".to_string() });
    assert_eq!(again, action);
    let (state, again) = state.step(Event::SourceUnreadable { reason: "gone".to_string() });
    assert_eq!(again, action);
    assert_eq!(state, Pipeline::AwaitingBinary { source: "x".to_string(), stage: StageTag::Vertex });
}

#[test]
fn a_finished_pipeline_stays_finished() {
    let (state, _) = Pipeline::start(configuration(Some("x"), None, Some("vs")), None);
    let (mut state, emitted) = state.step(compiled(&[5, 6]));
    assert!(state.is_finished());
    for event in all_events() {
        let (next, action) = state.step(event);
        assert_eq!(action, emitted);
        assert!(next.is_finished());
        state = next;
    }

    let (state, _) = Pipeline::start(configuration(Some("x"), None, Some("vs")), None);
    let (mut state, aborted) = state.step(Event::Rejected { diagnostic: "d".to_string() });
    for event in all_events() {
        let (next, action) = state.step(event);
        assert_eq!(action, aborted);
        state = next;
    }
    assert_eq!(state, Pipeline::Failed { error: EmbedError::CompileFailed { diagnostic: "d".to_string() } });
}

#[test]
fn the_same_inputs_give_the_same_output() {
    let events = vec![Event::SourceRead { contents: "void main() {}".to_string() }, compiled(&[1, 2, 3, 4])];
    let (first, first_actions) = run(configuration(None, Some("a.vert"), Some("gs")), &events);
    let (second, second_actions) = run(configuration(None, Some("a.vert"), Some("gs")), &events);
    assert_eq!(first, second);
    assert_eq!(first_actions, second_actions);
    match (first.action(), second.action()) {
        (Action::Emit { declaration: one }, Action::Emit { declaration: other }) => {
            assert_eq!(one.render(), other.render());
            assert_eq!(one.bytes(), other.bytes());
            assert_eq!(one.render(), "static DATA : [ u8 ; 4usize ] = [ 1u8 , 2u8 , 3u8 , 4u8 , ] ;");
        }
        other => panic!("no declaration was emitted: {:?}", other),
    }
}

#[test]
fn a_marker_starts_the_pipeline() {
    let (state, action) = Pipeline::begin("#[src = \"void main() {}\"] #[ty = \"tes\"] struct Dummy;", None);
    assert_eq!(
        action,
        Action::Compile { source: "void main() {}".to_string(), stage: StageTag::TessellationEvaluation }
    );
    assert_eq!(state.action(), action);

    let (_, action) = Pipeline::begin(
        "#[path = \"shaders/test.vert\"] #[ty = \"vs\"] struct Dummy;",
        Some("/project".to_string()),
    );
    assert_eq!(
        action,
        Action::ReadFile { root: "/project".to_string(), path: "shaders/test.vert".to_string() }
    );

    let (_, action) = Pipeline::begin("#[ty = \"vs\"] struct Dummy;", None);
    assert_eq!(action, Action::Abort { error: EmbedError::NoSource });

    let (_, action) = Pipeline::begin("#[src = \"x\"] #[ty = \"xyz\"] struct Dummy;", None);
    assert_eq!(action, Action::Abort { error: EmbedError::UnknownStage { tag: "xyz".to_string() } });
}

#[test]
fn a_marker_with_a_wide_byte_literal_fails_at_once() {
    for marker in vec![
        "#[ty = b'\u{e9}'] struct Dummy;",
        "#[src = \"x\"] #[ty = \"vs\"] #[allow(b'\u{e9}')] struct Dummy;",
        "#[src = \"x\"] #[ty = \"vs\"] struct Dummy([u8; b'\u{20ac}']);",
    ] {
        let (state, action) = Pipeline::begin(marker, None);
        assert_eq!(action, Action::Abort { error: EmbedError::InvalidArguments });
        assert_eq!(state, Pipeline::Failed { error: EmbedError::InvalidArguments });
    }
}

#[test]
fn a_marker_that_cannot_be_read_fails_at_once() {
    for marker in vec!["", "struct", "#[src = \"x\"] #[other = \"y\"] struct Dummy;", "#[src] struct Dummy;"] {
        let (state, action) = Pipeline::begin(marker, None);
        assert_eq!(action, Action::Abort { error: EmbedError::InvalidArguments });
        assert_eq!(state, Pipeline::Failed { error: EmbedError::InvalidArguments });
    }
}

#[test]
fn the_project_root_defaults_to_the_current_directory() {
    assert_eq!(project_root(None), ".");
    assert_eq!(project_root(Some("/project".to_string())), "/project");
    assert_eq!(project_root(Some("".to_string())), "");

    let (_, action) = Pipeline::start(configuration(None, Some("a.vert"), Some("vs")), None);
    assert_eq!(action, Action::ReadFile { root: ".".to_string(), path: "a.vert".to_string() });
    let (_, action) =
        Pipeline::start(configuration(None, Some("a.vert"), Some("vs")), Some("/project".to_string()));
    assert_eq!(action, Action::ReadFile { root: "/project".to_string(), path: "a.vert".to_string() });
}

#[test]
fn an_inline_source_needs_no_project_root() {
    let (with_root, first) =
        Pipeline::start(configuration(Some("x"), None, Some("vs")), Some("/project".to_string()));
    let (without_root, second) = Pipeline::start(configuration(Some("x"), None, Some("vs")), None);
    assert_eq!(with_root, without_root);
    assert_eq!(first, second);
}

#[test]
fn copies_are_equal_to_what_they_copy() {
    for event in all_events() {
        assert_eq!(event.clone(), event);
    }
    let (state, action) = Pipeline::start(configuration(None, Some("a.vert"), Some("vs")), None);
    assert_eq!(state.clone(), state);
    assert_eq!(action.clone(), action);
    let (state, action) = state.step(Event::SourceRead { contents: "x".to_string() });
    assert_eq!(state.clone(), state);
    assert_eq!(action.clone(), action);
    let (state, action) = state.clone().step(compiled(&[1, 2]));
    assert_eq!(state.clone(), state);
    assert_eq!(action.clone(), action);
    let (state, action) = state.step(Event::SourceUnreadable { reason: "gone".to_string() });
    assert_eq!(state.clone().action(), action);
}
