//! The ways in which loading a catalog, probing a file, building a command
//! or running a job can fail.

use vstd::prelude::*;

verus! {

/// A terminal failure. Each variant carries the text that tells it apart
/// from others of its kind.
#[derive(Debug, Clone)]
pub enum Failure {
    /// A file could not be read, written, created or moved; the text is the
    /// system's message.
    Io(String),
    /// A table row or the probe tool's output is malformed; the text says
    /// what was wrong.
    Parse(String),
    /// The probe tool is missing or ended with a non-zero status.
    Probe,
    /// A selected modifier is not in the catalog; the text is its short name.
    UnknownModifier(String),
    /// A modifier's code, with the value filled in, cannot be split into
    /// arguments; the text is the modifier's short name.
    ModifierSyntax(String),
    /// The detection pass ended with a non-zero status; the text is the
    /// status.
    Stabilization(String),
    /// The main pass ended with a non-zero status or was cancelled; the text
    /// is the status.
    EncodingFailed(String),
    /// The lock around the session state could not be taken.
    Lock,
}

/// A `Failure` as plain values.
pub enum FailureKind {
    Io(Seq<char>),
    Parse(Seq<char>),
    Probe,
    UnknownModifier(Seq<char>),
    ModifierSyntax(Seq<char>),
    Stabilization(Seq<char>),
    EncodingFailed(Seq<char>),
    Lock,
}

impl View for Failure {
    type V = FailureKind;

    open spec fn view(&self) -> FailureKind {
        match self {
            Failure::Io(text) => FailureKind::Io(text@),
            Failure::Parse(text) => FailureKind::Parse(text@),
            Failure::Probe => FailureKind::Probe,
            Failure::UnknownModifier(name) => FailureKind::UnknownModifier(name@),
            Failure::ModifierSyntax(name) => FailureKind::ModifierSyntax(name@),
            Failure::Stabilization(status) => FailureKind::Stabilization(status@),
            Failure::EncodingFailed(status) => FailureKind::EncodingFailed(status@),
            Failure::Lock => FailureKind::Lock,
        }
    }
}

/// The message that a failure shows to the user.
pub open spec fn message_of(failure: FailureKind) -> Seq<char> {
    match failure {
        FailureKind::Io(text) => text,
        FailureKind::Parse(text) => text,
        FailureKind::Probe => "Failed to run ffprobe"@,
        FailureKind::UnknownModifier(name) => "Unknown modifier: "@ + name,
        FailureKind::ModifierSyntax(name) => "Failed to parse modifier code: "@ + name,
        FailureKind::Stabilization(status) => "Stabilization Pass 1 failed. Status: "@ + status,
        FailureKind::EncodingFailed(status) => "FFmpeg failed or was aborted. Status: "@ + status,
        FailureKind::Lock => "Failed to lock mutex"@,
    }
}

impl Failure {
    /// The message that this failure shows to the user.
    pub fn message(&self) -> (text: String)
        ensures
            text@ == message_of(self@),
    {
        match self {
            Failure::Io(text) => text.clone(),
            Failure::Parse(text) => text.clone(),
            Failure::Probe => "Failed to run ffprobe".to_owned(),
            Failure::UnknownModifier(name) => "Unknown modifier: ".to_owned().concat(name.as_str()),
            Failure::ModifierSyntax(name) => "Failed to parse modifier code: ".to_owned().concat(
                name.as_str(),
            ),
            Failure::Stabilization(status) => "Stabilization Pass 1 failed. Status: ".to_owned().concat(
                status.as_str(),
            ),
            Failure::EncodingFailed(status) => "FFmpeg failed or was aborted. Status: ".to_owned().concat(
                status.as_str(),
            ),
            Failure::Lock => "Failed to lock mutex".to_owned(),
        }
    }
}

} // verus!
