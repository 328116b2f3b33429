use vstd::prelude::*;
use vstd::string::StringExecFns;

use crate::devices::{opt_name_view, resolve_device, result_name_view, spec_resolve,
    AvailableDevices, RecordingDevices};
use crate::errors::RecorderError;
use crate::ids::new_session_id;
use crate::meetings::{spec_blank_meeting_fields, Meeting};
use crate::timefmt::{format_rfc2822, now_clamped, rfc2822_of, rfc3339_of, MAX_TIMESTAMP};

verus! {

/// The recording session's state.
#[derive(Clone, Copy, Debug, PartialEq, Eq, Structural)]
pub enum State {
    Stopped,
    Recording,
    Paused,
}

/// The four operations of the session controller.
#[derive(Clone, Copy, Debug, PartialEq, Eq, Structural)]
pub enum RecorderOp {
    Start,
    Pause,
    Resume,
    Stop,
}

/// The transition table of the session state machine: the next state when
/// the operation is allowed in this state, nothing when it is rejected.
pub open spec fn transition(s: State, op: RecorderOp) -> Option<State> {
    match (s, op) {
        (State::Stopped, RecorderOp::Start) => Some(State::Recording),
        (State::Recording, RecorderOp::Pause) => Some(State::Paused),
        (State::Paused, RecorderOp::Resume) => Some(State::Recording),
        (State::Recording, RecorderOp::Stop) => Some(State::Stopped),
        (State::Paused, RecorderOp::Stop) => Some(State::Stopped),
        _ => None,
    }
}

/// State machine totality: for every state and operation the table is
/// decided — it allows the operation exactly in the states below, and
/// when it does, it names one definite next state. Each operation's own
/// contract ties its outcome to this table, so no call can leave the
/// session in an undefined state.
pub proof fn lemma_state_machine_total(s: State, op: RecorderOp)
    ensures
        match op {
            RecorderOp::Start => transition(s, op) is Some <==> s is Stopped,
            RecorderOp::Pause => transition(s, op) is Some <==> s is Recording,
            RecorderOp::Resume => transition(s, op) is Some <==> s is Paused,
            RecorderOp::Stop => transition(s, op) is Some <==> !(s is Stopped),
        },
        transition(s, op) matches Some(t) ==> (match op {
            RecorderOp::Start => t is Recording,
            RecorderOp::Pause => t is Paused,
            RecorderOp::Resume => t is Recording,
            RecorderOp::Stop => t is Stopped,
        }),
{
}

/// Idempotent rejection of `start`: in every state but Stopped the table
/// refuses Start, so by `start`'s contract a second call without an
/// intervening `stop` fails with AlreadyRecording and leaves the running
/// session untouched.
pub proof fn lemma_start_rejected_while_active(s: State)
    requires
        !(s is Stopped),
    ensures
        transition(s, RecorderOp::Start) is None,
{
}

/// The argument list of the external merge call: both capture files mixed
/// into one output, summing with a short dropout transition, at a fixed
/// bitrate.
pub open spec fn spec_merge_args(mic: Seq<char>, speakers: Seq<char>, out: Seq<char>) -> Seq<
    Seq<char>,
> {
    seq![
        "-i"@,
        mic,
        "-i"@,
        speakers,
        "-filter_complex"@,
        " amix=inputs=2:duration=first:dropout_transition=3"@,
        "-b:a"@,
        "128k"@,
        out,
    ]
}

/// Builds the merge-stage arguments.
pub fn merge_args(mic: &str, speakers: &str, output_path: &str) -> (r: Vec<String>)
    ensures
        r.deep_view() == spec_merge_args(mic@, speakers@, output_path@),
{
    let mut r: Vec<String> = Vec::new();
    r.push(String::from_str("-i"));
    r.push(String::from_str(mic));
    r.push(String::from_str("-i"));
    r.push(String::from_str(speakers));
    r.push(String::from_str("-filter_complex"));
    r.push(String::from_str(" amix=inputs=2:duration=first:dropout_transition=3"));
    r.push(String::from_str("-b:a"));
    r.push(String::from_str("128k"));
    r.push(String::from_str(output_path));
    proof {
        assert(r.deep_view() =~~= spec_merge_args(mic@, speakers@, output_path@));
    }
    r
}

/// The merge work a stopped session hands back to its caller: the two
/// finished capture files, the output location derived from the session
/// id, and the full external-call argument list.
pub struct MergeJob {
    pub microphone_path: String,
    pub speakers_path: String,
    pub output_path: String,
    pub args: Vec<String>,
}

/// The recording-session controller: the single state machine that owns
/// the session identity, the bound device names and the capture file
/// locations, and drives both capture workers in lockstep.
pub struct InnerRecordingState {
    pub state: State,
    pub output_device_name: String,
    pub input_device_name: String,
    pub speakers_output_path: String,
    pub microphone_output_path: String,
    pub data_dir: String,
    pub starting_time: i64,
    pub uuid: String,
}

impl InnerRecordingState {
    /// Well-formedness: the timestamp is in the range the formatters
    /// accept, and the session id has its generated 36-character shape.
    pub open spec fn wf(&self) -> bool {
        &&& 0 <= self.starting_time < MAX_TIMESTAMP
        &&& self.uuid@.len() == 36
    }

    /// A fresh controller: stopped, with no devices bound, and the two
    /// fixed per-session capture file locations under the data directory.
    pub fn new(data_dir: String) -> (s: Self)
        ensures
            s.state is Stopped,
            s.input_device_name@ == Seq::<char>::empty(),
            s.output_device_name@ == Seq::<char>::empty(),
            s.speakers_output_path@ == data_dir@ + "/tmp/speaker_recorded.wav"@,
            s.microphone_output_path@ == data_dir@ + "/tmp/microphone_recorded.wav"@,
            s.data_dir == data_dir,
            s.wf(),
    {
        let speakers_output_path = data_dir.clone().concat("/tmp/speaker_recorded.wav");
        let microphone_output_path = data_dir.clone().concat("/tmp/microphone_recorded.wav");
        InnerRecordingState {
            state: State::Stopped,
            output_device_name: String::new(),
            input_device_name: String::new(),
            speakers_output_path,
            microphone_output_path,
            data_dir,
            starting_time: now_clamped(),
            uuid: new_session_id(),
        }
    }

    /// The current state.
    pub fn get_state(&self) -> (r: State)
        ensures
            r == self.state,
    {
        self.state
    }

    /// The names of the devices bound by the current session; never
    /// fails.
    pub fn get_device_names(&self) -> (r: Result<RecordingDevices, RecorderError>)
        ensures
            r matches Ok(d) && d.input_device_name == self.input_device_name
                && d.output_device_name == self.output_device_name,
    {
        Ok(
            RecordingDevices {
                input_device_name: self.input_device_name.clone(),
                output_device_name: self.output_device_name.clone(),
            },
        )
    }

    /// Starts a session: allowed only from Stopped; both requests are
    /// resolved against the current enumeration before anything changes,
    /// so a failed start leaves no session partially active. On success
    /// the session is Recording with a fresh id and timestamp, both
    /// resolved names recorded, and reports what it listens on.
    pub fn start(
        &mut self,
        devices: &AvailableDevices,
        input_device_name: Option<String>,
        output_device_name: Option<String>,
    ) -> (r: Result<String, RecorderError>)
        requires
            old(self).wf(),
        ensures
            final(self).wf(),
            r is Ok <==> (transition(old(self).state, RecorderOp::Start) is Some && spec_resolve(
                opt_name_view(output_device_name),
                devices.output_devices@,
            ) is Ok && spec_resolve(opt_name_view(input_device_name), devices.input_devices@)
                is Ok),
            !(old(self).state is Stopped) ==> r == Err::<String, RecorderError>(
                RecorderError::AlreadyRecording,
            ) && *final(self) == *old(self),
            old(self).state is Stopped ==> (match (
                spec_resolve(opt_name_view(output_device_name), devices.output_devices@),
                spec_resolve(opt_name_view(input_device_name), devices.input_devices@),
            ) {
                (Ok(out), Ok(inp)) => {
                    &&& r matches Ok(msg) && msg@ == "Listening on "@ + out + " and "@ + inp
                    &&& final(self).state is Recording
                    &&& final(self).output_device_name@ == out
                    &&& final(self).input_device_name@ == inp
                    &&& final(self).speakers_output_path == old(self).speakers_output_path
                    &&& final(self).microphone_output_path == old(self).microphone_output_path
                    &&& final(self).data_dir == old(self).data_dir
                },
                (Err(e), _) => r == Err::<String, RecorderError>(e) && *final(self) == *old(self),
                (Ok(_), Err(e)) => r == Err::<String, RecorderError>(e) && *final(self) == *old(
                    self,
                ),
            }),
    {
        match self.state {
            State::Stopped => {
                let output = match resolve_device(&output_device_name, &devices.output_devices) {
                    Ok(name) => name,
                    Err(e) => {
                        return Err(e);
                    },
                };
                let input = match resolve_device(&input_device_name, &devices.input_devices) {
                    Ok(name) => name,
                    Err(e) => {
                        return Err(e);
                    },
                };
                self.state = State::Recording;
                self.starting_time = now_clamped();
                self.uuid = new_session_id();
                self.output_device_name = output.clone();
                self.input_device_name = input.clone();
                let msg = String::from_str("Listening on ").concat(output.as_str()).concat(
                    " and ",
                ).concat(input.as_str());
                Ok(msg)
            },
            _ => Err(RecorderError::AlreadyRecording),
        }
    }

    /// Tears the session down when a capture backend reports that stream
    /// creation failed during start: the start attempt as a whole fails
    /// and no session is left partially active.
    pub fn stream_failed(&mut self)
        ensures
            *final(self) == (InnerRecordingState { state: State::Stopped, ..*old(self) }),
    {
        self.state = State::Stopped;
    }

    /// Pauses the running session: Pause is sent to both workers'
    /// inboxes; the capture files stay open.
    pub fn pause(&mut self) -> (r: Result<(), RecorderError>)
        ensures
            r is Ok <==> transition(old(self).state, RecorderOp::Pause) is Some,
            old(self).state is Recording ==> r is Ok && *final(self) == (InnerRecordingState {
                state: State::Paused,
                ..*old(self)
            }),
            old(self).state is Stopped ==> r == Err::<(), RecorderError>(
                RecorderError::NotRecording,
            ) && *final(self) == *old(self),
            old(self).state is Paused ==> r == Err::<(), RecorderError>(
                RecorderError::AlreadyPaused,
            ) && *final(self) == *old(self),
    {
        match self.state {
            State::Recording => {
                self.state = State::Paused;
                Ok(())
            },
            State::Stopped => Err(RecorderError::NotRecording),
            State::Paused => Err(RecorderError::AlreadyPaused),
        }
    }

    /// Resumes the paused session: Resume is sent to both workers'
    /// inboxes.
    pub fn resume(&mut self) -> (r: Result<(), RecorderError>)
        ensures
            r is Ok <==> transition(old(self).state, RecorderOp::Resume) is Some,
            old(self).state is Paused ==> r is Ok && *final(self) == (InnerRecordingState {
                state: State::Recording,
                ..*old(self)
            }),
            old(self).state is Stopped ==> r == Err::<(), RecorderError>(
                RecorderError::NotRecording,
            ) && *final(self) == *old(self),
            old(self).state is Recording ==> r == Err::<(), RecorderError>(
                RecorderError::NotPaused,
            ) && *final(self) == *old(self),
    {
        match self.state {
            State::Paused => {
                self.state = State::Recording;
                Ok(())
            },
            State::Stopped => Err(RecorderError::NotRecording),
            State::Recording => Err(RecorderError::NotPaused),
        }
    }

    /// Stops the session: Stop is sent to both inboxes, both writers are
    /// finalized, and the returned job names the merge the caller must
    /// run — both capture files combined into one output at a location
    /// derived from the session id.
    pub fn stop(&mut self) -> (r: Result<MergeJob, RecorderError>)
        ensures
            r is Ok <==> transition(old(self).state, RecorderOp::Stop) is Some,
            old(self).state is Stopped ==> r == Err::<MergeJob, RecorderError>(
                RecorderError::NotRecording,
            ) && *final(self) == *old(self),
            !(old(self).state is Stopped) ==> (*final(self) == (InnerRecordingState {
                state: State::Stopped,
                ..*old(self)
            }) && (r matches Ok(job) && {
                &&& job.microphone_path == old(self).microphone_output_path
                &&& job.speakers_path == old(self).speakers_output_path
                &&& job.output_path@ == old(self).data_dir@ + "/audio/"@ + old(self).uuid@
                    + "-recording.mp3"@
                &&& job.args.deep_view() == spec_merge_args(
                    old(self).microphone_output_path@,
                    old(self).speakers_output_path@,
                    job.output_path@,
                )
            })),
    {
        match self.state {
            State::Stopped => Err(RecorderError::NotRecording),
            _ => {
                self.state = State::Stopped;
                let output_path = self.data_dir.clone().concat("/audio/").concat(
                    self.uuid.as_str(),
                ).concat("-recording.mp3");
                let args = merge_args(
                    self.microphone_output_path.as_str(),
                    self.speakers_output_path.as_str(),
                    output_path.as_str(),
                );
                Ok(
                    MergeJob {
                        microphone_path: self.microphone_output_path.clone(),
                        speakers_path: self.speakers_output_path.clone(),
                        output_path,
                        args,
                    },
                )
            },
        }
    }

    /// Builds the finished session record once the merge subprocess has
    /// exited: with exit status zero, a meeting titled by the session's
    /// start time and pointing at the merged file; a non-zero status is
    /// fatal to the stop and yields no record.
    pub fn finish_stop(&self, merge_ok: bool, job: &MergeJob) -> (r: Result<
        Meeting,
        RecorderError,
    >)
        requires
            self.wf(),
        ensures
            !merge_ok ==> r == Err::<Meeting, RecorderError>(RecorderError::MergeFailed),
            merge_ok ==> (r matches Ok(m) && {
                &&& m.uuid == self.uuid
                &&& m.title@ == rfc2822_of(self.starting_time as int)
                &&& m.datetime@ == rfc3339_of(self.starting_time as int)
                &&& m.audio_path == job.output_path
                &&& spec_blank_meeting_fields(m)
            }),
    {
        if !merge_ok {
            return Err(RecorderError::MergeFailed);
        }
        let title = format_rfc2822(self.starting_time);
        let meeting = Meeting::new(
            Some(self.uuid.clone()),
            title,
            self.starting_time,
            job.output_path.clone(),
        );
        Ok(meeting)
    }
}

} // verus!
