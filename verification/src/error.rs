//! The failures that the operations of this crate report.

use vstd::prelude::*;
use vstd::string::*;

verus! {

/// The path of the command channel: commands are appended to this file.
pub const AUDIO_UPDATE_PATH: &'static str = "/tmp/audio";

/// The path of the status snapshot that the service publishes.
pub const AUDIO_STATUS_PATH: &'static str = "/tmp/audioStatus.json";

/// What went wrong.
#[derive(Debug, PartialEq, Eq, Clone, Copy, Structural)]
pub enum ErrorKind {
    /// A file could not be opened, read or written.
    Io,
    /// The status snapshot, one of its fields or a timestamp is malformed.
    Parse,
    /// The snapshot holds no record for the identity or name asked for.
    NotFound,
    /// The service did not confirm a new source in time.
    Timeout,
}

/// What an [`AudioError`] holds.
pub ghost struct AudioErrorView {
    pub kind: ErrorKind,
    pub message: Seq<char>,
}

/// A failure of an audio operation: its kind, and a message for people.
#[derive(Debug)]
pub struct AudioError {
    kind: ErrorKind,
    msg: String,
}

/// The result of an audio operation.
pub type AudioResult<T> = Result<T, AudioError>;

impl View for AudioError {
    type V = AudioErrorView;

    closed spec fn view(&self) -> AudioErrorView {
        AudioErrorView { kind: self.kind, message: self.msg@ }
    }
}

/// The failure of kind `kind` with the message `message`.
pub open spec fn failure(kind: ErrorKind, message: Seq<char>) -> AudioErrorView {
    AudioErrorView { kind, message }
}

impl AudioError {
    /// Makes the failure of kind `kind` with the message `msg`.
    pub fn new(kind: ErrorKind, msg: String) -> (error: AudioError)
        ensures
            error@ == failure(kind, msg@),
    {
        AudioError { kind, msg }
    }

    /// Makes the failure to open the command channel, where `detail` says
    /// why it could not be opened.
    pub fn open_failed(detail: &str) -> (error: AudioError)
        ensures
            error@ == failure(ErrorKind::Io, open_failure_message(detail@)),
    {
        let mut head = String::from_str("Error in opening ");
        head.append(AUDIO_UPDATE_PATH);
        head.append(".");
        AudioError::new(ErrorKind::Io, message_with_detail(head.as_str(), detail))
    }

    /// Makes the failure to write a command to the command channel, where
    /// `detail` says why it could not be written.
    pub fn write_failed(detail: &str) -> (error: AudioError)
        ensures
            error@ == failure(ErrorKind::Io, write_failure_message(detail@)),
    {
        let mut head = String::from_str("Error in writing to ");
        head.append(AUDIO_UPDATE_PATH);
        head.append(".");
        AudioError::new(ErrorKind::Io, message_with_detail(head.as_str(), detail))
    }

    /// The kind of this failure.
    pub fn kind(&self) -> (kind: ErrorKind)
        ensures
            kind == self@.kind,
    {
        self.kind
    }

    /// The message of this failure.
    pub fn description(&self) -> (text: &str)
        ensures
            text@ == self@.message,
    {
        self.msg.as_str()
    }

    /// The message of this failure, as an owned string.
    pub fn to_string(&self) -> (text: String)
        ensures
            text@ == self@.message,
    {
        self.msg.clone()
    }
}

/// The message for a command channel that could not be opened, where
/// `detail` says why.
pub open spec fn open_failure_message(detail: Seq<char>) -> Seq<char> {
    with_detail("Error in opening "@ + AUDIO_UPDATE_PATH@ + "."@, detail)
}

/// The message for a command that could not be written to the command
/// channel, where `detail` says why.
pub open spec fn write_failure_message(detail: Seq<char>) -> Seq<char> {
    with_detail("Error in writing to "@ + AUDIO_UPDATE_PATH@ + "."@, detail)
}

/// `head`, then `detail` in round brackets: the shape of a message that
/// passes on what another party reported.
pub open spec fn with_detail(head: Seq<char>, detail: Seq<char>) -> Seq<char> {
    head + " ("@ + detail + ")"@
}

/// Builds `with_detail(head, detail)`.
pub(crate) fn message_with_detail(head: &str, detail: &str) -> (text: String)
    ensures
        text@ == with_detail(head@, detail@),
{
    let mut text = String::from_str(head);
    text.append(" (");
    text.append(detail);
    text.append(")");
    text
}

} // verus!
