//! Client-side control surface for a host-controlled audio playback service.
//!
//! The service is reached through two files: commands are appended to one,
//! and the service publishes a status snapshot in the other. This crate holds
//! the protocol between the two: how commands are encoded, how a freshly
//! requested source is matched with the identity the service assigns to it,
//! and how later queries and updates address that source. It performs no
//! file access itself; callers hand it what they read and write what it
//! encodes.
//!
//! An `AudioBuilder` describes a source and builds a `PendingAudio`, which
//! holds the create command and decides, step by step, how long to wait for
//! the service. Once the service lists the source, the wait ends with an
//! `Audio`, the handle for queries and updates.

pub mod audio;
pub mod command;
pub mod digits;
pub mod document;
pub mod error;
pub mod names;
pub mod source;
pub mod status;
pub mod timestamp;

pub use audio::{
    is_disabled, is_running, Audio, AudioBuilder, PendingAudio, PollAction, PollEvent,
    CONFIRM_TIMEOUT_NANOS,
};
pub use command::{encode_create, encode_update, AudioUpdate};
pub use error::{AudioError, AudioResult, ErrorKind, AUDIO_STATUS_PATH, AUDIO_UPDATE_PATH};
pub use names::{name_for, NameCounter};
pub use source::{AudioType, Decimal, FileType, ToneType};
pub use status::{get_status_by_id, get_status_by_name, parse_status};
pub use timestamp::{Timestamp, TIME_FORMAT};
