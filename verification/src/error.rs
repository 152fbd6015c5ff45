//! The errors that end the embedding of a shader, and their messages.

use vstd::prelude::*;
use vstd::string::*;
use crate::text::{decimal_string, decimal_text};

verus! {

/// The four families of errors.
#[derive(Clone, Copy, Debug, PartialEq, Eq, Structural)]
pub enum ErrorKind {
    /// The configuration is malformed, or names no stage that exists.
    Configuration,
    /// No shader source was given, or it could not be read.
    SourceResolution,
    /// The compiler rejected the shader.
    Compile,
    /// The declared length of a binary differs from the length of its bytes.
    Render,
}

/// Why a shader could not be embedded. Every error is final: nothing is
/// emitted for the marker that caused it.
#[derive(Debug, PartialEq, Eq)]
pub enum EmbedError {
    /// The marker could not be read, or one of its attributes is none of
    /// `src = "..."`, `path = "..."`, `ty = "..."` and `allow(...)`.
    InvalidArguments,
    /// The configuration has no `ty`.
    MissingStage,
    /// The configuration's `ty` is none of the six stage tags.
    UnknownStage { tag: String },
    /// The configuration has neither `src` nor `path`.
    NoSource,
    /// The file named by `path` could not be opened or read; `reason` is what
    /// the system said of it.
    UnreadableSource { path: String, reason: String },
    /// The compiler rejected the shader with this diagnostic.
    CompileFailed { diagnostic: String },
    /// A binary was handed over with a length that is not that of its bytes.
    LengthMismatch { declared: usize, actual: usize },
}

/// The mathematical value of an [`EmbedError`].
pub enum ErrorView {
    InvalidArguments,
    MissingStage,
    UnknownStage { tag: Seq<char> },
    NoSource,
    UnreadableSource { path: Seq<char>, reason: Seq<char> },
    CompileFailed { diagnostic: Seq<char> },
    LengthMismatch { declared: nat, actual: nat },
}

impl View for EmbedError {
    type V = ErrorView;

    open spec fn view(&self) -> ErrorView {
        match *self {
            EmbedError::InvalidArguments => ErrorView::InvalidArguments,
            EmbedError::MissingStage => ErrorView::MissingStage,
            EmbedError::UnknownStage { tag } => ErrorView::UnknownStage { tag: tag@ },
            EmbedError::NoSource => ErrorView::NoSource,
            EmbedError::UnreadableSource { path, reason } => ErrorView::UnreadableSource {
                path: path@,
                reason: reason@,
            },
            EmbedError::CompileFailed { diagnostic } => ErrorView::CompileFailed {
                diagnostic: diagnostic@,
            },
            EmbedError::LengthMismatch { declared, actual } => ErrorView::LengthMismatch {
                declared: declared as nat,
                actual: actual as nat,
            },
        }
    }
}

/// The family an error belongs to.
pub open spec fn kind_of(error: ErrorView) -> ErrorKind {
    match error {
        ErrorView::InvalidArguments => ErrorKind::Configuration,
        ErrorView::MissingStage => ErrorKind::Configuration,
        ErrorView::UnknownStage { .. } => ErrorKind::Configuration,
        ErrorView::NoSource => ErrorKind::SourceResolution,
        ErrorView::UnreadableSource { .. } => ErrorKind::SourceResolution,
        ErrorView::CompileFailed { .. } => ErrorKind::Compile,
        ErrorView::LengthMismatch { .. } => ErrorKind::Render,
    }
}

/// The message that reports an error. A path, a stage tag and a compiler
/// diagnostic appear in it unchanged.
pub open spec fn message_text(error: ErrorView) -> Seq<char> {
    match error {
        ErrorView::InvalidArguments => {
            "Invalid shader macro arguments - you must specify a single string literal."@
        },
        ErrorView::MissingStage => "no shader stage provided"@,
        ErrorView::UnknownStage { tag } => {
            "unrecognized shader stage \""@ + tag
                + "\": expected one of vs, fs, gs, tcs, tes, cs"@
        },
        ErrorView::NoSource => "no source provided"@,
        ErrorView::UnreadableSource { path, reason } => {
            "Error reading shader source file: \""@ + path + "\": "@ + reason
        },
        ErrorView::CompileFailed { diagnostic } => diagnostic + "\nfailed to compile shader"@,
        ErrorView::LengthMismatch { declared, actual } => {
            "declared length "@ + decimal_text(declared) + " does not match payload length "@
                + decimal_text(actual)
        },
    }
}

/// `part` stands in `text`, starting at position `at`.
pub open spec fn occurs_at(text: Seq<char>, part: Seq<char>, at: int) -> bool {
    &&& 0 <= at
    &&& at + part.len() <= text.len()
    &&& text.subrange(at, at + part.len()) == part
}

/// The message for a file that could not be read holds the path as it was
/// given, right after the opening quote, and ends with the reason.
pub proof fn lemma_message_holds_path(path: Seq<char>, reason: Seq<char>)
    ensures
        occurs_at(
            message_text(ErrorView::UnreadableSource { path, reason }),
            path,
            "Error reading shader source file: \""@.len() as int,
        ),
        occurs_at(
            message_text(ErrorView::UnreadableSource { path, reason }),
            reason,
            message_text(ErrorView::UnreadableSource { path, reason }).len() - reason.len(),
        ),
{
    let head = "Error reading shader source file: \""@;
    let text = message_text(ErrorView::UnreadableSource { path, reason });
    assert(text.subrange(head.len() as int, head.len() as int + path.len()) =~= path);
    assert(text.subrange(text.len() - reason.len(), text.len() as int) =~= reason);
}

/// The message for a stage tag that names no stage holds the tag as it was
/// given, right after the opening quote.
pub proof fn lemma_message_holds_tag(tag: Seq<char>)
    ensures
        occurs_at(
            message_text(ErrorView::UnknownStage { tag }),
            tag,
            "unrecognized shader stage \""@.len() as int,
        ),
{
    let head = "unrecognized shader stage \""@;
    let text = message_text(ErrorView::UnknownStage { tag });
    assert(text.subrange(head.len() as int, head.len() as int + tag.len()) =~= tag);
}

/// The message for a rejected shader starts with the whole diagnostic of the
/// compiler.
pub proof fn lemma_message_holds_diagnostic(diagnostic: Seq<char>)
    ensures
        occurs_at(message_text(ErrorView::CompileFailed { diagnostic }), diagnostic, 0),
{
    let text = message_text(ErrorView::CompileFailed { diagnostic });
    assert(text.subrange(0, diagnostic.len() as int) =~= diagnostic);
}

impl Clone for EmbedError {
    fn clone(&self) -> (copy: EmbedError)
        ensures
            copy@ == self@,
    {
        match self {
            EmbedError::InvalidArguments => EmbedError::InvalidArguments,
            EmbedError::MissingStage => EmbedError::MissingStage,
            EmbedError::UnknownStage { tag } => EmbedError::UnknownStage { tag: tag.clone() },
            EmbedError::NoSource => EmbedError::NoSource,
            EmbedError::UnreadableSource { path, reason } => EmbedError::UnreadableSource {
                path: path.clone(),
                reason: reason.clone(),
            },
            EmbedError::CompileFailed { diagnostic } => EmbedError::CompileFailed {
                diagnostic: diagnostic.clone(),
            },
            EmbedError::LengthMismatch { declared, actual } => EmbedError::LengthMismatch {
                declared: *declared,
                actual: *actual,
            },
        }
    }
}

impl EmbedError {
    /// The family this error belongs to.
    pub fn kind(&self) -> (kind: ErrorKind)
        ensures
            kind == kind_of(self@),
    {
        match self {
            EmbedError::InvalidArguments => ErrorKind::Configuration,
            EmbedError::MissingStage => ErrorKind::Configuration,
            EmbedError::UnknownStage { .. } => ErrorKind::Configuration,
            EmbedError::NoSource => ErrorKind::SourceResolution,
            EmbedError::UnreadableSource { .. } => ErrorKind::SourceResolution,
            EmbedError::CompileFailed { .. } => ErrorKind::Compile,
            EmbedError::LengthMismatch { .. } => ErrorKind::Render,
        }
    }

    /// The message that reports this error.
    pub fn message(&self) -> (text: String)
        ensures
            text@ == message_text(self@),
    {
        match self {
            EmbedError::InvalidArguments => String::from_str(
                "Invalid shader macro arguments - you must specify a single string literal.",
            ),
            EmbedError::MissingStage => String::from_str("no shader stage provided"),
            EmbedError::UnknownStage { tag } => {
                let mut text = String::from_str("unrecognized shader stage \"");
                text.append(tag.as_str());
                text.append("\": expected one of vs, fs, gs, tcs, tes, cs");
                text
            },
            EmbedError::NoSource => String::from_str("no source provided"),
            EmbedError::UnreadableSource { path, reason } => {
                let mut text = String::from_str("Error reading shader source file: \"");
                text.append(path.as_str());
                text.append("\": ");
                text.append(reason.as_str());
                text
            },
            EmbedError::CompileFailed { diagnostic } => {
                let mut text = diagnostic.clone();
                text.append("\nfailed to compile shader");
                text
            },
            EmbedError::LengthMismatch { declared, actual } => {
                let mut text = String::from_str("declared length ");
                let declared_text = decimal_string(*declared);
                text.append(declared_text.as_str());
                text.append(" does not match payload length ");
                let actual_text = decimal_string(*actual);
                text.append(actual_text.as_str());
                text
            },
        }
    }
}

} // verus!
