use vstd::prelude::*;

verus! {

/// Errors surfaced by the recording-session controller.
#[derive(Clone, Copy, Debug, PartialEq, Eq, Structural)]
pub enum RecorderError {
    /// `start` was called while a session was already running or paused.
    AlreadyRecording,
    /// `pause`, `resume` or `stop` was called while no session was running.
    NotRecording,
    /// `pause` was called while the session was already paused.
    AlreadyPaused,
    /// `resume` was called while the session was not paused.
    NotPaused,
    /// A requested capture device is absent from the current enumeration.
    DeviceNotFound,
    /// No device name was requested and the host reports no default device.
    NoDefaultDevice,
    /// The host audio subsystem could not be queried at all.
    DeviceEnumeration,
    /// A device was found but opening its stream failed.
    StreamCreation,
    /// The external merge subprocess exited with a non-zero status.
    MergeFailed,
}

impl RecorderError {
    pub open spec fn message_spec(self) -> Seq<char> {
        match self {
            RecorderError::AlreadyRecording => "Recording already started"@,
            RecorderError::NotRecording => "Recording not started"@,
            RecorderError::AlreadyPaused => "Recording already paused"@,
            RecorderError::NotPaused => "Recording not paused"@,
            RecorderError::DeviceNotFound => "Device not found on client device"@,
            RecorderError::NoDefaultDevice => "No default device available"@,
            RecorderError::DeviceEnumeration => "Failed to get audio devices"@,
            RecorderError::StreamCreation => "Failed to create input stream"@,
            RecorderError::MergeFailed => "Failed to merge the audio files"@,
        }
    }

    /// A human-readable description of the error.
    pub fn message(&self) -> (r: String)
        ensures
            r@ == self.message_spec(),
    {
        match self {
            RecorderError::AlreadyRecording => String::from_str("Recording already started"),
            RecorderError::NotRecording => String::from_str("Recording not started"),
            RecorderError::AlreadyPaused => String::from_str("Recording already paused"),
            RecorderError::NotPaused => String::from_str("Recording not paused"),
            RecorderError::DeviceNotFound => String::from_str("Device not found on client device"),
            RecorderError::NoDefaultDevice => String::from_str("No default device available"),
            RecorderError::DeviceEnumeration => String::from_str("Failed to get audio devices"),
            RecorderError::StreamCreation => String::from_str("Failed to create input stream"),
            RecorderError::MergeFailed => String::from_str("Failed to merge the audio files"),
        }
    }
}

/// Errors surfaced by the meeting reference store.
#[derive(Clone, Copy, Debug, PartialEq, Eq, Structural)]
pub enum StoreError {
    /// The meeting id is absent from the store.
    MeetingNotFound,
    /// A meeting with this id is already present.
    MeetingAlreadyExists,
}

impl StoreError {
    pub open spec fn message_spec(self) -> Seq<char> {
        match self {
            StoreError::MeetingNotFound => "Meeting does not exist"@,
            StoreError::MeetingAlreadyExists => "Meeting already exists"@,
        }
    }

    /// A human-readable description of the error.
    pub fn message(&self) -> (r: String)
        ensures
            r@ == self.message_spec(),
    {
        match self {
            StoreError::MeetingNotFound => String::from_str("Meeting does not exist"),
            StoreError::MeetingAlreadyExists => String::from_str("Meeting already exists"),
        }
    }
}

/// Errors surfaced when preparing or applying a summarization.
#[derive(Clone, Copy, Debug, PartialEq, Eq, Structural)]
pub enum SummarizeError {
    /// The meeting holds no transcript to summarize.
    NoTranscript,
    /// The meeting holds no note to improve.
    NoNote,
    /// The summarization backend reported a failure.
    Backend,
}

/// Errors of the combined load-summarize-update flows: either the
/// summarization step or the index update failed.
#[derive(Clone, Copy, Debug, PartialEq, Eq, Structural)]
pub enum MeetingOpError {
    Store(StoreError),
    Summarize(SummarizeError),
}

/// Errors surfaced by settings handling.
#[derive(Clone, Copy, Debug, PartialEq, Eq, Structural)]
pub enum SettingError {
    /// The platform reports no local data directory.
    NoDataDir,
}

/// Errors surfaced by the CRM request builders.
#[derive(Clone, Copy, Debug, PartialEq, Eq, Structural)]
pub enum CrmError {
    /// The CRM API token is not configured.
    ApiTokenNotSet,
    /// The CRM list id is not configured.
    ListIdNotSet,
    /// The meeting carries no organization id.
    CompanyIdMissing,
    /// A search was requested with an empty term.
    EmptyTerm,
    /// An empty organization id was handed to a lookup.
    EmptyOrganizationId,
}

/// Errors surfaced by the transcription flow.
#[derive(Clone, Copy, Debug, PartialEq, Eq, Structural)]
pub enum TranscribeError {
    /// The transcription backend reported a failure.
    Backend,
    /// The completed transcription carries no text.
    NoText,
}

} // verus!
