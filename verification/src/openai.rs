use vstd::prelude::*;
use vstd::string::StringExecFns;

verus! {

/// The chat models the summarizer can use.
#[derive(Clone, Copy, Debug, PartialEq, Eq, Structural)]
pub enum ModelTurbo {
    GPT3,
    GPT4,
}

/// The wire name of each model.
pub open spec fn spec_model_name(m: ModelTurbo) -> Seq<char> {
    match m {
        ModelTurbo::GPT3 => "gpt-3.5-turbo-1106"@,
        ModelTurbo::GPT4 => "gpt-4-1106-preview"@,
    }
}

impl ModelTurbo {
    /// The model's wire name.
    pub fn as_str(&self) -> (r: &'static str)
        ensures
            r@ == spec_model_name(*self),
    {
        match self {
            ModelTurbo::GPT3 => "gpt-3.5-turbo-1106",
            ModelTurbo::GPT4 => "gpt-4-1106-preview",
        }
    }
}

/// The model used when the settings name one, and the fallback otherwise.
pub fn openai_model_choice(default_model: &Option<ModelTurbo>) -> (r: ModelTurbo)
    ensures
        r == (match *default_model {
            Some(m) => m,
            None => ModelTurbo::GPT3,
        }),
{
    match default_model {
        Some(m) => *m,
        None => ModelTurbo::GPT3,
    }
}

/// The fixed output-format instruction appended to every summarization
/// prompt.
pub open spec fn spec_format_instruction() -> Seq<char> {
    "[VERY IMPORTANT: Answer in HTML format directly, Without the header <!DOCTYPE html><html><head> ...</head>), don't include <body> tag don't use <h1> tag, prefer using <h4> and <li> tags instead"@
}

/// The full chat prompt for a transcript: a caller-supplied instruction
/// wraps the transcript in instruction tags; without one, a fixed
/// refine-and-organize instruction is used.
pub open spec fn spec_chat_prompt(transcript: Seq<char>, prompt: Option<Seq<char>>) -> Seq<char> {
    match prompt {
        Some(p) => "<Instruction>"@ + p + " \n&\n "@ + spec_format_instruction()
            + " \n</Instruction> <transcript>"@ + transcript + "/transcipt>"@,
        None => "Refine and organize the provided transcript using bullet points. \n&\n "@
            + spec_format_instruction() + " \n<transcript>"@ + transcript + "</transcript>"@,
    }
}

/// Builds the chat prompt handed to the summarization backend.
pub fn build_chat_prompt(transcript: &str, prompt: &Option<String>) -> (r: String)
    ensures
        r@ == spec_chat_prompt(
            transcript@,
            match *prompt {
                Some(p) => Some(p@),
                None => None,
            },
        ),
{
    match prompt {
        Some(p) => {
            String::from_str("<Instruction>").concat(p.as_str()).concat(" \n&\n ").concat(
                "[VERY IMPORTANT: Answer in HTML format directly, Without the header <!DOCTYPE html><html><head> ...</head>), don't include <body> tag don't use <h1> tag, prefer using <h4> and <li> tags instead",
            ).concat(" \n</Instruction> <transcript>").concat(transcript).concat("/transcipt>")
        },
        None => {
            String::from_str(
                "Refine and organize the provided transcript using bullet points. \n&\n ",
            ).concat(
                "[VERY IMPORTANT: Answer in HTML format directly, Without the header <!DOCTYPE html><html><head> ...</head>), don't include <body> tag don't use <h1> tag, prefer using <h4> and <li> tags instead",
            ).concat(" \n<transcript>").concat(transcript).concat("</transcript>")
        },
    }
}

/// What the summarization backend is asked: which model, and the full
/// prompt. The caller performs the call and hands the reply back.
pub struct ChatRequest {
    pub model: String,
    pub prompt: String,
}

/// Builds the summarization request from the configured default model,
/// the transcript, and an optional custom instruction.
pub fn build_summarize_request(
    default_model: &Option<ModelTurbo>,
    transcript: &str,
    prompt: &Option<String>,
) -> (r: ChatRequest)
    ensures
        r.model@ == spec_model_name(
            match *default_model {
                Some(m) => m,
                None => ModelTurbo::GPT3,
            },
        ),
        r.prompt@ == spec_chat_prompt(
            transcript@,
            match *prompt {
                Some(p) => Some(p@),
                None => None,
            },
        ),
{
    let model = openai_model_choice(default_model);
    ChatRequest {
        model: String::from_str(model.as_str()),
        prompt: build_chat_prompt(transcript, prompt),
    }
}

} // verus!
