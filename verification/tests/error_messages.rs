use glsl_embed::error::{EmbedError, ErrorKind};

#[test]
fn the_kind_of_each_error() {
    assert_eq!(EmbedError::InvalidArguments.kind(), ErrorKind::Configuration);
    assert_eq!(EmbedError::MissingStage.kind(), ErrorKind::Configuration);
    assert_eq!(EmbedError::UnknownStage { tag: "xyz".to_string() }.kind(), ErrorKind::Configuration);
    assert_eq!(EmbedError::NoSource.kind(), ErrorKind::SourceResolution);
    assert_eq!(
        EmbedError::UnreadableSource { path: "a.vert".to_string(), reason: "gone".to_string() }.kind(),
        ErrorKind::SourceResolution
    );
    assert_eq!(EmbedError::CompileFailed { diagnostic: "e".to_string() }.kind(), ErrorKind::Compile);
    assert_eq!(EmbedError::LengthMismatch { declared: 1, actual: 2 }.kind(), ErrorKind::Render);
}

#[test]
fn the_message_of_each_error() {
    assert_eq!(
        EmbedError::InvalidArguments.message(),
        "Invalid shader macro arguments - you must specify a single string literal."
    );
    assert_eq!(EmbedError::MissingStage.message(), "no shader stage provided");
    assert_eq!(
        EmbedError::UnknownStage { tag: "xyz".to_string() }.message(),
        "unrecognized shader stage \"xyz\": expected one of vs, fs, gs, tcs, tes, cs"
    );
    assert_eq!(EmbedError::NoSource.message(), "no source provided");
    assert_eq!(
        EmbedError::UnreadableSource {
            path: "shaders/test.vert".to_string(),
            reason: "permission denied".to_string(),
        }
        .message(),
        "Error reading shader source file: \"shaders/test.vert\": permission denied"
    );
    assert_eq!(
        EmbedError::CompileFailed { diagnostic: "ERROR: 0:1: syntax error".to_string() }.message(),
        "ERROR: 0:1: syntax error\nfailed to compile shader"
    );
    assert_eq!(
        EmbedError::LengthMismatch { declared: 120, actual: 96 }.message(),
        "declared length 120 does not match payload length 96"
    );
}

#[test]
fn a_path_is_reported_verbatim() {
    let path = "dir with space\\sub\"dir/\u{e9}.vert";
    let reason = "Os { code: 2, kind: NotFound, message: \"No such file or directory\" }";
    let message =
        EmbedError::UnreadableSource { path: path.to_string(), reason: reason.to_string() }.message();
    assert_eq!(message, format!("Error reading shader source file: \"{}\": {}", path, reason));
    assert!(message.contains(path));
    assert!(message.ends_with(reason));
}

#[test]
fn a_diagnostic_is_reported_in_full() {
    let diagnostic = "ERROR: 0:1: '' :  syntax error\nERROR: 1 compilation errors.\n";
    let message = EmbedError::CompileFailed { diagnostic: diagnostic.to_string() }.message();
    assert!(message.starts_with(diagnostic));
    assert!(message.ends_with("\nfailed to compile shader"));
    assert_eq!(message.len(), diagnostic.len() + "\nfailed to compile shader".len());
}

#[test]
fn a_copied_error_is_the_same_error() {
    let errors = vec![
        EmbedError::InvalidArguments,
        EmbedError::MissingStage,
        EmbedError::UnknownStage { tag: "xyz".to_string() },
        EmbedError::NoSource,
        EmbedError::UnreadableSource { path: "p".to_string(), reason: "r".to_string() },
        EmbedError::CompileFailed { diagnostic: "d".to_string() },
        EmbedError::LengthMismatch { declared: 3, actual: 4 },
    ];
    for error in errors {
        assert_eq!(error.clone(), error);
        assert_eq!(error.clone().message(), error.message());
    }
}
