//! Turns a local media file into a written summary: audio extraction,
//! transcription, a checkpoint of the transcript, a request to a language
//! model, and the persisted result.
//!
//! Every decision of the pipeline is made here, on plain values; the program
//! around the library performs the actions it asks for (spawning tools,
//! reading and writing files, the network call) and reports back.

mod artifacts;
mod config;
mod document;
mod error;
mod invocation;
mod laws;
mod paths;
mod pipeline;
mod prompt;
mod summary;

pub use artifacts::{
    audio_path, checkpoint_path, decimal, extractor_args, result_path, transcriber_args,
    transcript_path,
};
pub use config::Config;
pub use document::{parse_reply, response_of};
pub use error::{PipelineError, Tool};
pub use invocation::{get_flag, source_argument};
pub use laws::{
    audio_plan_at_start, checkpoint_before_request, extractor_only_at_start,
    missing_credential_aborts, missing_flag_aborts, summary_round_trip, transcript_path_after_move,
    transcript_path_at_start, unexpected_response_aborts,
};
pub use paths::{get_file_extension, resolve_source, SourceMedia};
pub use pipeline::{start, step, Action, Event, Reply, Stage};
pub use prompt::{PROMPT_HEAD, PROMPT_TAIL, SYSTEM_INSTRUCTION};
pub use summary::{
    build_prompt, build_request, extract_summary, ContentBlock, Message, SummaryRequest,
    SummaryResponse,
};
