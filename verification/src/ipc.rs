use vstd::prelude::*;

use crate::devices::RecordingDevices;

verus! {

/// What every mutation of the model hands back: the id it touched.
#[derive(Clone, Debug, PartialEq, Eq)]
pub struct ModelMutateResultData {
    pub id: String,
}

/// The payload of a creation request.
pub struct CreateParams<D> {
    pub data: D,
}

/// The payload of an update request.
pub struct UpdateParams<D> {
    pub id: String,
    pub data: D,
}

/// The payload of a lookup request.
pub struct GetParams {
    pub id: String,
}

/// The payload of a transcription request.
pub struct GetTranscriptParams {
    pub path: String,
    pub language: String,
}

/// The payload of a deletion request.
pub struct DeleteParams {
    pub id: String,
}

/// The payload of a search request.
pub struct QueryParams {
    pub query: String,
}

/// The payload of a start-recording request.
pub struct GetRecordingStartParams {
    pub recording_devices: RecordingDevices,
}

} // verus!
