use watson::crm::{
    add_to_list_plan, add_to_list_url, create_note_content, entry_exists, get_api_key,
    list_entries_url, lists_url, notes_url, organization_url, organizations_query_url,
    persons_query_url,
};
use watson::errors::{CrmError, SettingError, TranscribeError};
use watson::meetings::Meeting;
use watson::native::{
    convert_to_wav_args, native_control_action, native_raw_paths, stored_channel_count,
    NativeAction,
};
use watson::capture::RecordingMessage;
use watson::openai::{build_chat_prompt, build_summarize_request, ModelTurbo};
use watson::session::{InnerSessionState, NewMeetingNote};
use watson::setting::{Setting, SettingController, SettingPath};
use watson::transcribe::{
    build_transcript_request, get_transcript, normalize_language, poll_step, PollAction,
    TranscriptResponse,
};

const FORMAT_INSTRUCTION: &str = "[VERY IMPORTANT: Answer in HTML format directly, Without the header <!DOCTYPE html><html><head> ...</head>), don't include <body> tag don't use <h1> tag, prefer using <h4> and <li> tags instead";

#[test]
fn chat_prompt_wraps_the_transcript() {
    let with = build_chat_prompt("the words", &Some("do this".to_string()));
    assert_eq!(
        with,
        format!(
            "<Instruction>do this \n&\n {} \n</Instruction> <transcript>the words/transcipt>",
            FORMAT_INSTRUCTION
        )
    );
    let without = build_chat_prompt("the words", &None);
    assert_eq!(
        without,
        format!(
            "Refine and organize the provided transcript using bullet points. \n&\n {} \n<transcript>the words</transcript>",
            FORMAT_INSTRUCTION
        )
    );
}

#[test]
fn summarize_request_picks_the_configured_model() {
    let r = build_summarize_request(&Some(ModelTurbo::GPT4), "t", &None);
    assert_eq!(r.model, "gpt-4-1106-preview");
    let r = build_summarize_request(&None, "t", &None);
    assert_eq!(r.model, "gpt-3.5-turbo-1106");
    assert_eq!(ModelTurbo::GPT3.as_str(), "gpt-3.5-turbo-1106");
}

#[test]
fn languages_normalize_through_case_folding() {
    assert_eq!(normalize_language(&None), "en_us");
    assert_eq!(normalize_language(&Some("FRENCH".to_string())), "fr");
    assert_eq!(normalize_language(&Some("Anglais".to_string())), "en_us");
    assert_eq!(normalize_language(&Some("zh".to_string())), "zh");
    assert_eq!(normalize_language(&Some("klingon".to_string())), "en_us");
}

#[test]
fn transcript_request_offers_chapters_for_english_only() {
    let r = build_transcript_request("http://u/1".to_string(), &Some("english".to_string()));
    assert_eq!(r.audio_url, "http://u/1");
    assert_eq!(r.language_code, "en_us");
    assert!(r.auto_chapters);
    let r = build_transcript_request("http://u/2".to_string(), &Some("fr".to_string()));
    assert_eq!(r.language_code, "fr");
    assert!(!r.auto_chapters);
}

#[test]
fn poll_steps_on_the_reported_status() {
    assert_eq!(poll_step(&"completed".to_string()), PollAction::Finished);
    assert_eq!(poll_step(&"error".to_string()), PollAction::Failed);
    assert_eq!(poll_step(&"queued".to_string()), PollAction::Wait);
}

fn response(text: Option<&str>) -> TranscriptResponse {
    TranscriptResponse {
        id: "job-1".to_string(),
        language_model: None,
        acoustic_model: None,
        language_code: None,
        audio_url: "http://u".to_string(),
        status: "completed".to_string(),
        text: text.map(|t| t.to_string()),
        chapters: None,
    }
}

#[test]
fn transcript_comes_from_the_completed_response() {
    assert_eq!(
        get_transcript(Ok(response(Some("hello")))),
        Ok("hello".to_string())
    );
    assert_eq!(
        get_transcript(Ok(response(None))),
        Err(TranscribeError::NoText)
    );
    assert_eq!(
        get_transcript(Err(TranscribeError::Backend)),
        Err(TranscribeError::Backend)
    );
}

#[test]
fn default_settings_hold_the_stock_prompts() {
    let s = Setting::new();
    assert_eq!(s.uuid.len(), 36);
    assert!(s.assemblyai_api_token.is_empty());
    assert!(s.affinity_crm_list_id.is_none());
    let prompts = s.prompts.as_ref().unwrap();
    assert_eq!(prompts.len(), 2);
    assert_eq!(prompts[0].name, "VC Intro Call");
    assert_eq!(prompts[1].name, "Q&A Call");
    assert_eq!(s.default_model, Some(ModelTurbo::GPT4));
}

#[test]
fn setting_controller_keeps_stock_prompts_for_old_files() {
    let mut c =
        SettingController::new(SettingPath::Custom("/tmp/settings.json".to_string())).unwrap();
    assert_eq!(c.local_data_path, "/tmp/settings.json");

    let mut loaded = Setting::new();
    loaded.openai_api_token = "SECRET-REDACTED".to_string();
    loaded.prompts = None;
    c.apply_loaded(loaded);
    let s = c.get_setting().unwrap();
    assert_eq!(s.openai_api_token, "SECRET-REDACTED");
    assert_eq!(s.prompts.as_ref().unwrap().len(), 2, "stock prompts kept");

    let mut replacement = Setting::new();
    replacement.prompts = Some(vec![]);
    c.set_setting(replacement);
    assert!(c.get_setting().unwrap().prompts.unwrap().is_empty());
}

#[test]
fn crm_urls_and_key() {
    let mut s = Setting::new();
    assert_eq!(get_api_key(&s), Err(CrmError::ApiTokenNotSet));
    s.affinity_api_token = "SECRET-REDACTED".to_string();
    assert_eq!(get_api_key(&s), Ok("SECRET-REDACTED".to_string()));

    assert_eq!(lists_url(), "https://api.affinity.co//lists");
    assert_eq!(list_entries_url("9"), "https://api.affinity.co//lists/9");
    assert_eq!(
        add_to_list_url("9"),
        "https://api.affinity.co//lists/9/list-entries"
    );
    assert_eq!(notes_url(), "https://api.affinity.co//notes");
    assert_eq!(
        organization_url("77"),
        Ok("https://api.affinity.co//organizations/77".to_string())
    );
    assert_eq!(organization_url(""), Err(CrmError::EmptyOrganizationId));

    assert_eq!(
        persons_query_url("jo", &Some("50".to_string()), &None),
        Ok("https://api.affinity.co//persons?term=jo&page_size=50".to_string())
    );
    assert_eq!(
        organizations_query_url("acme", &None, &Some("tok".to_string())),
        Ok("https://api.affinity.co//organizations?term=acme&page_token=tok".to_string())
    );
    assert_eq!(persons_query_url("", &None, &None), Err(CrmError::EmptyTerm));
}

#[test]
fn adding_to_a_list_happens_once() {
    let entries = vec!["11".to_string(), "22".to_string()];
    assert!(entry_exists(&entries, &"22".to_string()));
    assert!(!entry_exists(&entries, &"33".to_string()));

    assert_eq!(
        add_to_list_plan(&Some("9".to_string()), &"22".to_string(), &entries),
        Ok(None)
    );
    assert_eq!(
        add_to_list_plan(&Some("9".to_string()), &"33".to_string(), &entries),
        Ok(Some("9".to_string()))
    );
    assert_eq!(
        add_to_list_plan(&None, &"33".to_string(), &entries),
        Err(CrmError::ListIdNotSet)
    );
    assert_eq!(
        add_to_list_plan(&Some("9".to_string()), &"".to_string(), &entries),
        Err(CrmError::CompanyIdMissing)
    );
}

#[test]
fn published_note_carries_title_summary_and_optionally_the_note() {
    let mut m = Meeting::new(
        Some("id-1".to_string()),
        "Board call".to_string(),
        0,
        "a.mp3".to_string(),
    );
    assert_eq!(create_note_content(&m), Err(CrmError::CompanyIdMissing));

    m.company_id = "42".to_string();
    m.summary = "<p>went well</p>".to_string();
    m.note = "secret thoughts".to_string();
    let without = create_note_content(&m).unwrap();
    assert!(without.starts_with("<p>Board call<p><p>Generated with Watson</p><p>"));
    assert!(without.ends_with("<p><p>went well</p>"));
    assert!(!without.contains("secret thoughts"));

    m.publish_with_note = Some(true);
    let with = create_note_content(&m).unwrap();
    assert!(with.contains("<br><p><b>Personal note</b></p>secret thoughts"));
}

#[test]
fn native_capture_strategy_decisions() {
    assert_eq!(
        native_control_action(&RecordingMessage::Pause),
        NativeAction::StopCapture
    );
    assert_eq!(
        native_control_action(&RecordingMessage::Resume),
        NativeAction::StartCapture
    );
    assert_eq!(
        native_control_action(&RecordingMessage::Stop),
        NativeAction::StopCapture
    );

    assert_eq!(stored_channel_count(1), 1);
    assert_eq!(stored_channel_count(2), 2);
    assert_eq!(stored_channel_count(5), 2);

    assert_eq!(
        native_raw_paths("/data"),
        vec![
            "/data/tmp/output0.raw".to_string(),
            "/data/tmp/output1.raw".to_string(),
        ]
    );

    let args = convert_to_wav_args("/data/tmp/output0.raw", "/data/tmp/output1.raw", "out.wav");
    assert_eq!(
        args,
        vec![
            "-y", "-f", "f32le", "-ar", "48000", "-ac", "1", "-i", "/data/tmp/output0.raw",
            "-f", "f32le", "-ar", "48000", "-ac", "1", "-i", "/data/tmp/output1.raw",
            "-filter_complex", "[0:a][1:a]amerge=inputs=2", "-ac", "2", "out.wav",
        ]
        .into_iter()
        .map(|s| s.to_string())
        .collect::<Vec<String>>()
    );
}

#[test]
fn session_note_starts_empty_and_updates() {
    let mut s = InnerSessionState::new();
    let n = s.get_new_meeting_note().unwrap();
    assert!(n.note.is_empty());
    assert!(n.title.is_empty());
    s.update_new_meeting_note(NewMeetingNote {
        note: "remember".to_string(),
        title: "kickoff".to_string(),
    })
    .unwrap();
    let n = s.get_new_meeting_note().unwrap();
    assert_eq!(n.note, "remember");
    assert_eq!(n.title, "kickoff");
}

#[test]
fn data_dir_error_has_a_message() {
    let e = SettingError::NoDataDir;
    assert_eq!(e, SettingError::NoDataDir);
}
