use vstd::prelude::*;

use crate::config::Config;
use crate::error::PipelineError;
use crate::prompt::{PROMPT_HEAD, PROMPT_TAIL};

verus! {

/// One message of a request: who speaks, and what is said.
#[derive(Clone, Debug)]
pub struct Message {
    pub role: String,
    pub content: String,
}

/// The body of a summarization request.
#[derive(Clone, Debug)]
pub struct SummaryRequest {
    pub model: String,
    pub system: Option<String>,
    pub max_tokens: u32,
    pub messages: Vec<Message>,
}

/// One content block of a response, with its text field when it has one
/// that is a string.
#[derive(Clone, Debug)]
pub struct ContentBlock {
    pub text: Option<String>,
}

/// What a response holds of interest: its `content` field, when that is an
/// array. Anything else in the response is ignored.
#[derive(Clone, Debug)]
pub struct SummaryResponse {
    pub content: Option<Vec<ContentBlock>>,
}

/// The instruction sent for transcript `t`: the transcript embedded
/// verbatim, neither escaped nor shortened.
pub open spec fn prompt_of(t: Seq<char>) -> Seq<char> {
    PROMPT_HEAD@ + t + PROMPT_TAIL@
}

pub open spec fn text_of(s: Option<String>) -> Option<Seq<char>> {
    match s {
        Some(x) => Some(x@),
        None => None,
    }
}

/// Whether `req` is the request for transcript `t` under `cfg`: the
/// configured model, system instruction and token ceiling, and a single user
/// message holding the instruction.
pub open spec fn is_request_for(req: SummaryRequest, cfg: Config, t: Seq<char>) -> bool {
    &&& req.model@ == cfg.model@
    &&& text_of(req.system) == text_of(cfg.system)
    &&& req.max_tokens == cfg.max_tokens
    &&& req.messages@.len() == 1
    &&& req.messages@[0].role@ == "user"@
    &&& req.messages@[0].content@ == prompt_of(t)
}

/// The summary a response carries: the text of its first content block.
pub open spec fn summary_of(resp: SummaryResponse) -> Option<Seq<char>> {
    match resp.content {
        Some(blocks) => if blocks@.len() > 0 {
            text_of(blocks@[0].text)
        } else {
            None
        },
        None => None,
    }
}

/// The instruction for transcript `t`.
pub fn build_prompt(t: &str) -> (r: String)
    ensures
        r@ == prompt_of(t@),
{
    let mut r = String::from_str(PROMPT_HEAD);
    r.append(t);
    r.append(PROMPT_TAIL);
    r
}

fn copy_text(s: &Option<String>) -> (r: Option<String>)
    ensures
        text_of(r) == text_of(*s),
{
    match s {
        Some(x) => Some(x.clone()),
        None => None,
    }
}

/// The request that asks for a summary of transcript `t`.
pub fn build_request(cfg: &Config, t: &str) -> (r: SummaryRequest)
    ensures
        is_request_for(r, *cfg, t@),
{
    let mut messages: Vec<Message> = Vec::new();
    messages.push(Message { role: String::from_str("user"), content: build_prompt(t) });
    SummaryRequest {
        model: cfg.model.clone(),
        system: copy_text(&cfg.system),
        max_tokens: cfg.max_tokens,
        messages,
    }
}

/// The summary text of a response: the text of its first content block.
/// A response without a content array, with an empty one, or whose first
/// block has no text is unexpected.
pub fn extract_summary(resp: &SummaryResponse) -> (r: Result<String, PipelineError>)
    ensures
        match r {
            Ok(s) => summary_of(*resp) == Some(s@),
            Err(e) => summary_of(*resp) is None && e == PipelineError::EmptyOrUnexpectedResponse,
        },
{
    match &resp.content {
        Some(blocks) => {
            if blocks.len() > 0 {
                match &blocks[0].text {
                    Some(t) => Ok(t.clone()),
                    None => Err(PipelineError::EmptyOrUnexpectedResponse),
                }
            } else {
                Err(PipelineError::EmptyOrUnexpectedResponse)
            }
        },
        None => Err(PipelineError::EmptyOrUnexpectedResponse),
    }
}

} // verus!
