use watson::devices::{build_available_devices, AvailableDevices};
use watson::errors::RecorderError;
use watson::recorder::{merge_args, InnerRecordingState, State};

fn catalog() -> AvailableDevices {
    build_available_devices(
        &vec![Some("Mic A".to_string()), Some("Mic B".to_string())],
        &Some("Mic A".to_string()),
        &vec![Some("Speakers".to_string()), Some("Loopback".to_string())],
        &Some("Speakers".to_string()),
    )
}

#[test]
fn start_with_defaults_records_and_stops_into_merge_job() {
    let devices = catalog();
    let mut r = InnerRecordingState::new("/data".to_string());
    assert!(matches!(r.get_state(), State::Stopped));

    let msg = r.start(&devices, None, None).expect("start should bind both defaults");
    assert_eq!(msg, "Listening on Speakers and Mic A");
    assert!(matches!(r.get_state(), State::Recording));

    let names = r.get_device_names().unwrap();
    assert_eq!(names.input_device_name, "Mic A");
    assert_eq!(names.output_device_name, "Speakers");

    let job = r.stop().expect("stop from Recording succeeds");
    assert!(matches!(r.get_state(), State::Stopped));
    assert_eq!(job.microphone_path, "/data/tmp/microphone_recorded.wav");
    assert_eq!(job.speakers_path, "/data/tmp/speaker_recorded.wav");
    assert!(job.output_path.starts_with("/data/audio/"));
    assert!(job.output_path.ends_with("-recording.mp3"));

    let expected_args = vec![
        "-i".to_string(),
        "/data/tmp/microphone_recorded.wav".to_string(),
        "-i".to_string(),
        "/data/tmp/speaker_recorded.wav".to_string(),
        "-filter_complex".to_string(),
        " amix=inputs=2:duration=first:dropout_transition=3".to_string(),
        "-b:a".to_string(),
        "128k".to_string(),
        job.output_path.clone(),
    ];
    assert_eq!(job.args, expected_args);

    let meeting = r.finish_stop(true, &job).expect("merge succeeded");
    assert_eq!(meeting.audio_path, job.output_path);
    assert_eq!(meeting.uuid.len(), 36);
    assert!(!meeting.published);
    assert_eq!(meeting.publish_with_note, Some(false));
    assert!(meeting.transcript.is_empty());
}

#[test]
fn start_twice_fails_second_and_keeps_first_session() {
    let devices = catalog();
    let mut r = InnerRecordingState::new("/data".to_string());
    r.start(&devices, Some("Mic B".to_string()), None).unwrap();
    assert!(matches!(r.get_state(), State::Recording));

    let second = r.start(&devices, None, None);
    assert_eq!(second, Err(RecorderError::AlreadyRecording));
    assert!(matches!(r.get_state(), State::Recording));
    let names = r.get_device_names().unwrap();
    assert_eq!(names.input_device_name, "Mic B");
    assert_eq!(names.output_device_name, "Speakers");
}

#[test]
fn pause_while_stopped_is_not_recording() {
    let mut r = InnerRecordingState::new("/data".to_string());
    assert_eq!(r.pause(), Err(RecorderError::NotRecording));
    assert!(matches!(r.get_state(), State::Stopped));
}

#[test]
fn start_with_unknown_device_fails_and_stays_stopped() {
    let devices = catalog();
    let mut r = InnerRecordingState::new("/data".to_string());
    let attempt = r.start(&devices, Some("No Such Mic".to_string()), None);
    assert_eq!(attempt, Err(RecorderError::DeviceNotFound));
    assert!(matches!(r.get_state(), State::Stopped));
    let names = r.get_device_names().unwrap();
    assert_eq!(names.input_device_name, "");
    assert_eq!(names.output_device_name, "");
    assert!(r.stop().is_err(), "nothing to stop, so no files are produced");
}

#[test]
fn pause_resume_stop_cycle_follows_the_table() {
    let devices = catalog();
    let mut r = InnerRecordingState::new("/data".to_string());
    assert_eq!(r.resume(), Err(RecorderError::NotRecording));
    assert!(matches!(r.stop(), Err(RecorderError::NotRecording)));

    r.start(&devices, None, None).unwrap();
    assert_eq!(r.resume(), Err(RecorderError::NotPaused));
    assert_eq!(r.pause(), Ok(()));
    assert!(matches!(r.get_state(), State::Paused));
    assert_eq!(r.pause(), Err(RecorderError::AlreadyPaused));
    assert_eq!(r.resume(), Ok(()));
    assert!(matches!(r.get_state(), State::Recording));
    assert_eq!(r.pause(), Ok(()));
    assert!(r.stop().is_ok(), "stop is allowed from Paused too");
    assert!(matches!(r.get_state(), State::Stopped));
}

#[test]
fn failed_stream_creation_tears_the_session_down() {
    let devices = catalog();
    let mut r = InnerRecordingState::new("/data".to_string());
    r.start(&devices, None, None).unwrap();
    r.stream_failed();
    assert!(matches!(r.get_state(), State::Stopped));
    let msg = r.start(&devices, None, None);
    assert!(msg.is_ok(), "after teardown a new start is allowed");
}

#[test]
fn merge_failure_is_fatal_to_the_stop() {
    let devices = catalog();
    let mut r = InnerRecordingState::new("/data".to_string());
    r.start(&devices, None, None).unwrap();
    let job = r.stop().unwrap();
    let res = r.finish_stop(false, &job);
    assert!(res.is_err());
    assert_eq!(
        res.unwrap_err().message(),
        "Failed to merge the audio files"
    );
}

#[test]
fn merge_args_are_exact() {
    let args = merge_args("mic.wav", "spk.wav", "out.mp3");
    assert_eq!(
        args,
        vec![
            "-i".to_string(),
            "mic.wav".to_string(),
            "-i".to_string(),
            "spk.wav".to_string(),
            "-filter_complex".to_string(),
            " amix=inputs=2:duration=first:dropout_transition=3".to_string(),
            "-b:a".to_string(),
            "128k".to_string(),
            "out.mp3".to_string(),
        ]
    );
}

#[test]
fn finished_session_is_titled_by_its_start_time() {
    let mut r = InnerRecordingState::new("/data".to_string());
    r.starting_time = 0;
    r.state = State::Recording;
    let job = r.stop().unwrap();
    let meeting = r.finish_stop(true, &job).unwrap();
    assert_eq!(meeting.title, "Thu, 1 Jan 1970 00:00:00 +0000");
    assert_eq!(meeting.datetime, "1970-01-01T00:00:00Z");
    assert_eq!(meeting.uuid, r.uuid);
}

#[test]
fn new_meeting_datetime_is_rfc3339() {
    let m = watson::meetings::Meeting::new(
        None,
        "a title".to_string(),
        0,
        "audio.mp3".to_string(),
    );
    assert_eq!(m.datetime, "1970-01-01T00:00:00Z");
    assert_eq!(m.title, "a title");
    assert_eq!(m.uuid.len(), 36);
}
