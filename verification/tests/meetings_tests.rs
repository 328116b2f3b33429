use watson::errors::{MeetingOpError, StoreError, SummarizeError};
use watson::meetings::{
    default_number_ops, export_zip_path, meeting_file_path, Meeting, MeetingController,
    MeetingInfo,
};

fn sample_meeting(uuid: &str, title: &str) -> Meeting {
    let mut m = Meeting::new(
        Some(uuid.to_string()),
        title.to_string(),
        0,
        "audio.mp3".to_string(),
    );
    m.datetime = "2024-01-02T03:04:05Z".to_string();
    m
}

#[test]
fn add_list_update_delete_round_trip() {
    let mut c = MeetingController::new();
    let m = sample_meeting("id-1", "first");
    let m = c.add(m).expect("new id is accepted");
    assert_eq!(m.uuid, "id-1");
    assert!(matches!(
        c.add(sample_meeting("id-1", "again")),
        Err(StoreError::MeetingAlreadyExists)
    ));

    c.add(sample_meeting("id-2", "second")).unwrap();
    let rows = c.list().unwrap();
    assert_eq!(rows.len(), 2);
    assert_eq!(rows[0].uuid, "id-1");
    assert_eq!(rows[0].title, "first");
    assert_eq!(rows[0].number_ops, 0);
    assert_eq!(rows[1].uuid, "id-2");

    let mut updated = sample_meeting("id-2", "renamed");
    updated.datetime = "2025-06-07T08:09:10Z".to_string();
    let d = c.update(updated).unwrap();
    assert_eq!(d.id, "id-2");
    let rows = c.list().unwrap();
    assert_eq!(rows[1].title, "renamed");
    assert_eq!(rows[1].datetime, "2025-06-07T08:09:10Z");

    assert!(matches!(
        c.update(sample_meeting("id-9", "ghost")),
        Err(StoreError::MeetingNotFound)
    ));

    let d = c.delete("id-1".to_string()).unwrap();
    assert_eq!(d.id, "id-1");
    assert_eq!(c.list().unwrap().len(), 1);
    assert_eq!(
        c.delete("id-1".to_string()),
        Err(StoreError::MeetingNotFound)
    );
}

#[test]
fn archive_removes_from_the_index_only() {
    let mut c = MeetingController::new();
    c.add(sample_meeting("id-1", "kept on disk")).unwrap();
    let d = c.archive("id-1".to_string()).unwrap();
    assert_eq!(d.id, "id-1");
    assert!(c.list().unwrap().is_empty());
    assert_eq!(
        c.archive("id-1".to_string()),
        Err(StoreError::MeetingNotFound)
    );

    c.add(sample_meeting("a", "a")).unwrap();
    c.add(sample_meeting("b", "b")).unwrap();
    c.archive_all().unwrap();
    assert!(c.list().unwrap().is_empty());

    c.add(sample_meeting("c", "c")).unwrap();
    c.delete_all().unwrap();
    assert!(c.list().unwrap().is_empty());
}

#[test]
fn async_ops_count_up_and_down_but_never_below_zero() {
    let mut c = MeetingController::new();
    c.add(sample_meeting("id-1", "t")).unwrap();

    assert_eq!(c.get_nb_async_ops("id-1".to_string()), Ok(0));
    c.increment_async_ops("id-1".to_string()).unwrap();
    c.increment_async_ops("id-1".to_string()).unwrap();
    assert_eq!(c.get_nb_async_ops("id-1".to_string()), Ok(2));
    c.decrement_async_ops("id-1".to_string()).unwrap();
    assert_eq!(c.get_nb_async_ops("id-1".to_string()), Ok(1));
    c.decrement_async_ops("id-1".to_string()).unwrap();
    c.decrement_async_ops("id-1".to_string()).unwrap();
    assert_eq!(c.get_nb_async_ops("id-1".to_string()), Ok(0));

    assert_eq!(
        c.increment_async_ops("nope".to_string()),
        Err(StoreError::MeetingNotFound)
    );
    assert_eq!(
        c.decrement_async_ops("nope".to_string()),
        Err(StoreError::MeetingNotFound)
    );
    assert_eq!(
        c.get_nb_async_ops("nope".to_string()),
        Err(StoreError::MeetingNotFound)
    );
}

#[test]
fn counters_standalone_behave_the_same() {
    assert_eq!(default_number_ops(), 0);
    let mut info = MeetingInfo::new("t".to_string(), "d".to_string());
    assert_eq!(info.number_ops, 0);
    info.decremeent_async_ops();
    assert_eq!(info.number_ops, 0);
    info.incremeent_async_ops();
    info.incremeent_async_ops();
    assert_eq!(info.number_ops, 2);
    info.decremeent_async_ops();
    assert_eq!(info.number_ops, 1);
}

#[test]
fn loading_saved_entries_zeroes_counters_and_keeps_the_last_duplicate() {
    let entries = vec![
        (
            "id-1".to_string(),
            MeetingInfo {
                title: "old title".to_string(),
                datetime: "d1".to_string(),
                number_ops: 3,
            },
        ),
        (
            "id-2".to_string(),
            MeetingInfo {
                title: "other".to_string(),
                datetime: "d2".to_string(),
                number_ops: 1,
            },
        ),
        (
            "id-1".to_string(),
            MeetingInfo {
                title: "new title".to_string(),
                datetime: "d3".to_string(),
                number_ops: 7,
            },
        ),
    ];
    let c = MeetingController::from_saved(entries);
    let rows = c.list().unwrap();
    assert_eq!(rows.len(), 2);
    assert_eq!(rows[0].uuid, "id-1");
    assert_eq!(rows[0].title, "new title");
    assert_eq!(rows[0].datetime, "d3");
    assert_eq!(rows[0].number_ops, 0);
    assert_eq!(rows[1].uuid, "id-2");
    assert_eq!(rows[1].number_ops, 0);
}

#[test]
fn summarize_needs_a_transcript_and_stores_the_reply() {
    let mut m = sample_meeting("id-1", "t");
    assert_eq!(
        m.summarize_prompt(),
        Err(SummarizeError::NoTranscript)
    );
    assert_eq!(
        m.summarize(Ok("ignored".to_string())),
        Err(SummarizeError::NoTranscript)
    );

    m.transcript = "we talked".to_string();
    assert_eq!(m.summarize_prompt(), Ok(None));
    m.prompt = "be brief".to_string();
    assert_eq!(m.summarize_prompt(), Ok(Some("be brief".to_string())));

    assert_eq!(m.summarize(Ok("the summary".to_string())), Ok(()));
    assert_eq!(m.summary, "the summary");

    assert_eq!(
        m.summarize(Err(SummarizeError::Backend)),
        Err(SummarizeError::Backend)
    );
    assert_eq!(m.summary, "the summary");
}

#[test]
fn improve_note_needs_a_note_and_refines_into_the_summary() {
    let mut m = sample_meeting("id-1", "t");
    assert_eq!(m.improve_note_prompt(), Err(SummarizeError::NoNote));
    assert_eq!(
        m.improve_note(Ok("x".to_string())),
        Err(SummarizeError::NoNote)
    );

    m.note = "rough note".to_string();
    let p = m.improve_note_prompt().unwrap();
    assert_eq!(
        p,
        "Refine and complete the note with missing information, maintaining a similar structure in HTML format. This is crucial for accurate documentation. <note>rough note</note>"
    );
    assert_eq!(m.improve_note(Ok("refined".to_string())), Ok(()));
    assert_eq!(m.summary, "refined");
    assert_eq!(m.note, "rough note");
}

#[test]
fn summarize_meeting_stores_the_summary_in_the_index() {
    let mut c = MeetingController::new();
    let mut m = sample_meeting("id-1", "old");
    m.transcript = "words".to_string();
    c.add(m.clone()).unwrap();

    let mut renamed = m;
    renamed.title = "renamed".to_string();
    let d = c
        .summarize_meeting(renamed, Ok("the summary".to_string()))
        .unwrap();
    assert_eq!(d.id, "id-1");
    let rows = c.list().unwrap();
    assert_eq!(rows[0].title, "renamed");

    let silent = sample_meeting("id-1", "t");
    assert!(matches!(
        c.summarize_meeting(silent, Ok("ignored".to_string())),
        Err(MeetingOpError::Summarize(SummarizeError::NoTranscript))
    ));

    let mut ghost_meeting = sample_meeting("id-9", "t");
    ghost_meeting.transcript = "words".to_string();
    assert!(matches!(
        c.summarize_meeting(ghost_meeting, Ok("s".to_string())),
        Err(MeetingOpError::Store(StoreError::MeetingNotFound))
    ));
}

#[test]
fn improve_note_meeting_needs_a_note() {
    let mut c = MeetingController::new();
    let mut m = sample_meeting("id-1", "t");
    m.note = "raw".to_string();
    c.add(m.clone()).unwrap();

    assert!(matches!(
        c.improve_note_meeting(
            sample_meeting("id-1", "t"),
            Ok("refined".to_string())
        ),
        Err(MeetingOpError::Summarize(SummarizeError::NoNote))
    ));
    let d = c.improve_note_meeting(m, Ok("refined".to_string())).unwrap();
    assert_eq!(d.id, "id-1");
}

#[test]
fn paths_are_derived_from_the_data_directory() {
    assert_eq!(
        meeting_file_path("/data", "id-1"),
        "/data/meetings/id-1.json"
    );
    assert_eq!(
        export_zip_path("/data", 0),
        "/data/export/compressed_meetings_1970-01-01_00-00-00.zip"
    );
}

#[test]
fn meeting_uuid_round_trip() {
    let m = sample_meeting("id-7", "t");
    assert_eq!(m.get_uuid(), "id-7");
}
