use vstd::prelude::*;
use vstd::string::StringExecFns;

use crate::errors::TranscribeError;
use crate::meetings::Chapter;

verus! {

/// What the transcription backend reports for one job.
pub struct TranscriptResponse {
    pub id: String,
    pub language_model: Option<String>,
    pub acoustic_model: Option<String>,
    pub language_code: Option<String>,
    pub audio_url: String,
    pub status: String,
    pub text: Option<String>,
    pub chapters: Option<Vec<Chapter>>,
}

/// Relies on str::to_lowercase: the result depends on the characters
/// alone.
#[verifier::external_body]
pub fn lowercase(s: &str) -> (r: String)
    ensures
        r@ == lower_of(s@),
{
    s.to_lowercase()
}

/// The lower-case folding of a string.
pub uninterp spec fn lower_of(s: Seq<char>) -> Seq<char>;

/// The transcription language code for a lower-cased language request:
/// a few English, French and Chinese spellings are recognized; anything
/// else falls back to US English.
pub open spec fn spec_language_code(lowered: Seq<char>) -> Seq<char> {
    if lowered == "en_us"@ || lowered == "en"@ || lowered == "english"@ || lowered == "anglais"@ {
        "en_us"@
    } else if lowered == "fr"@ || lowered == "french"@ || lowered == "francais"@ || lowered
        == "français"@ {
        "fr"@
    } else if lowered == "zh"@ || lowered == "chinese"@ || lowered == "中文"@ {
        "zh"@
    } else {
        "en_us"@
    }
}

/// Maps an already lower-cased language request to its code.
pub fn language_code(lowered: &String) -> (r: String)
    ensures
        r@ == spec_language_code(lowered@),
{
    if lowered.eq(&String::from_str("en_us")) || lowered.eq(&String::from_str("en"))
        || lowered.eq(&String::from_str("english")) || lowered.eq(&String::from_str("anglais")) {
        String::from_str("en_us")
    } else if lowered.eq(&String::from_str("fr")) || lowered.eq(&String::from_str("french"))
        || lowered.eq(&String::from_str("francais")) || lowered.eq(
        &String::from_str("français"),
    ) {
        String::from_str("fr")
    } else if lowered.eq(&String::from_str("zh")) || lowered.eq(&String::from_str("chinese"))
        || lowered.eq(&String::from_str("中文")) {
        String::from_str("zh")
    } else {
        String::from_str("en_us")
    }
}

/// The language used for a transcription: the normalized request, or US
/// English when none was given.
pub fn normalize_language(language: &Option<String>) -> (r: String)
    ensures
        match *language {
            Some(l) => r@ == spec_language_code(lower_of(l@)),
            None => r@ == "en_us"@,
        },
{
    match language {
        Some(l) => {
            let lowered = lowercase(l.as_str());
            language_code(&lowered)
        },
        None => String::from_str("en_us"),
    }
}

/// What a transcription job asks of the backend: the uploaded audio,
/// automatic chapters (offered for US English alone), and the language.
pub struct TranscriptRequest {
    pub audio_url: String,
    pub auto_chapters: bool,
    pub language_code: String,
}

/// Builds the transcription request for an uploaded recording.
pub fn build_transcript_request(upload_url: String, language: &Option<String>) -> (r:
    TranscriptRequest)
    ensures
        r.audio_url == upload_url,
        r.language_code@ == (match *language {
            Some(l) => spec_language_code(lower_of(l@)),
            None => "en_us"@,
        }),
        r.auto_chapters == (r.language_code@ == "en_us"@),
{
    let code = normalize_language(language);
    let auto_chapters = code.eq(&String::from_str("en_us"));
    TranscriptRequest { audio_url: upload_url, auto_chapters, language_code: code }
}

/// What the poll loop does next, given the reported job status.
#[derive(Clone, Copy, Debug, PartialEq, Eq, Structural)]
pub enum PollAction {
    /// The transcript is ready.
    Finished,
    /// The backend failed the job; polling stops.
    Failed,
    /// Keep waiting and ask again.
    Wait,
}

/// The poll decision for one reported status.
pub open spec fn spec_poll_step(status: Seq<char>) -> PollAction {
    if status == "completed"@ {
        PollAction::Finished
    } else if status == "error"@ {
        PollAction::Failed
    } else {
        PollAction::Wait
    }
}

/// Decides one round of the transcription poll loop.
pub fn poll_step(status: &String) -> (r: PollAction)
    ensures
        r == spec_poll_step(status@),
{
    if status.eq(&String::from_str("completed")) {
        PollAction::Finished
    } else if status.eq(&String::from_str("error")) {
        PollAction::Failed
    } else {
        PollAction::Wait
    }
}

/// The transcript text of a finished job: the completed response's text,
/// an error when the backend failed or the completed job carries none.
pub fn get_transcript(outcome: Result<TranscriptResponse, TranscribeError>) -> (r: Result<
    String,
    TranscribeError,
>)
    ensures
        match outcome {
            Ok(resp) => (match resp.text {
                Some(t) => r == Ok::<String, TranscribeError>(t),
                None => r == Err::<String, TranscribeError>(TranscribeError::NoText),
            }),
            Err(e) => r == Err::<String, TranscribeError>(e),
        },
{
    match outcome {
        Ok(resp) => match resp.text {
            Some(t) => Ok(t),
            None => Err(TranscribeError::NoText),
        },
        Err(e) => Err(e),
    }
}

} // verus!
