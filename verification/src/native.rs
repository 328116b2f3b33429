use vstd::prelude::*;
use vstd::string::StringExecFns;

use crate::capture::RecordingMessage;

verus! {

/// The native capture path stores at most this many audio channels.
pub const MAX_CHANNELS: usize = 2;

/// The two calls the OS-native capture API offers.
#[derive(Clone, Copy, Debug, PartialEq, Eq, Structural)]
pub enum NativeAction {
    StartCapture,
    StopCapture,
}

/// How session control maps onto the native API: pausing and stopping
/// both stop the capture stream; resuming starts it again.
pub open spec fn spec_native_action(message: RecordingMessage) -> NativeAction {
    match message {
        RecordingMessage::Pause => NativeAction::StopCapture,
        RecordingMessage::Resume => NativeAction::StartCapture,
        RecordingMessage::Stop => NativeAction::StopCapture,
    }
}

/// Decides the native capture call for one control message.
pub fn native_control_action(message: &RecordingMessage) -> (r: NativeAction)
    ensures
        r == spec_native_action(*message),
{
    match message {
        RecordingMessage::Pause => NativeAction::StopCapture,
        RecordingMessage::Resume => NativeAction::StartCapture,
        RecordingMessage::Stop => NativeAction::StopCapture,
    }
}

/// How many of the delivered per-channel buffers are stored: the first
/// two; any further channels are dropped.
pub fn stored_channel_count(delivered: usize) -> (r: usize)
    ensures
        r == (if delivered < MAX_CHANNELS {
            delivered as int
        } else {
            MAX_CHANNELS as int
        }),
{
    if delivered < MAX_CHANNELS {
        delivered
    } else {
        MAX_CHANNELS
    }
}

/// The two raw-PCM file paths the native capture path appends to, one
/// per stored channel, under the data directory's `tmp` folder.
pub fn native_raw_paths(base: &str) -> (r: Vec<String>)
    ensures
        r@.len() == 2,
        r@[0]@ == base@ + "/tmp/output0.raw"@,
        r@[1]@ == base@ + "/tmp/output1.raw"@,
{
    let mut r: Vec<String> = Vec::new();
    r.push(String::from_str(base).concat("/tmp/output0.raw"));
    r.push(String::from_str(base).concat("/tmp/output1.raw"));
    r
}

/// The argument list of the external transcode call that packages the two
/// raw mono PCM channel files into one stereo playable container, with
/// sample format, rate and channel count given explicitly.
pub open spec fn spec_convert_args(raw0: Seq<char>, raw1: Seq<char>, out: Seq<char>) -> Seq<
    Seq<char>,
> {
    seq![
        "-y"@,
        "-f"@,
        "f32le"@,
        "-ar"@,
        "48000"@,
        "-ac"@,
        "1"@,
        "-i"@,
        raw0,
        "-f"@,
        "f32le"@,
        "-ar"@,
        "48000"@,
        "-ac"@,
        "1"@,
        "-i"@,
        raw1,
        "-filter_complex"@,
        "[0:a][1:a]amerge=inputs=2"@,
        "-ac"@,
        "2"@,
        out,
    ]
}

/// Builds the raw-PCM-to-container conversion arguments. This conversion
/// is mandatory after a native-capture session stops, before the merge.
pub fn convert_to_wav_args(raw0: &str, raw1: &str, output_path: &str) -> (r: Vec<String>)
    ensures
        r.deep_view() == spec_convert_args(raw0@, raw1@, output_path@),
{
    let mut r: Vec<String> = Vec::new();
    r.push(String::from_str("-y"));
    r.push(String::from_str("-f"));
    r.push(String::from_str("f32le"));
    r.push(String::from_str("-ar"));
    r.push(String::from_str("48000"));
    r.push(String::from_str("-ac"));
    r.push(String::from_str("1"));
    r.push(String::from_str("-i"));
    r.push(String::from_str(raw0));
    r.push(String::from_str("-f"));
    r.push(String::from_str("f32le"));
    r.push(String::from_str("-ar"));
    r.push(String::from_str("48000"));
    r.push(String::from_str("-ac"));
    r.push(String::from_str("1"));
    r.push(String::from_str("-i"));
    r.push(String::from_str(raw1));
    r.push(String::from_str("-filter_complex"));
    r.push(String::from_str("[0:a][1:a]amerge=inputs=2"));
    r.push(String::from_str("-ac"));
    r.push(String::from_str("2"));
    r.push(String::from_str(output_path));
    proof {
        assert(r.deep_view() =~~= spec_convert_args(raw0@, raw1@, output_path@));
    }
    r
}

} // verus!
