use vstd::prelude::*;

use crate::artifacts::{
    audio_path, audio_path_of, checkpoint_path, checkpoint_path_of, extractor_args,
    extractor_args_of, result_path, result_path_of, texts, transcriber_args,
    transcriber_args_of, transcript_path, transcript_path_of,
};
use crate::config::Config;
use crate::error::{PipelineError, Tool};
use crate::invocation::{source_argument, source_of};
use crate::paths::{extension_of, is_well_formed_source, resolve_source, stem_of};
use crate::summary::{build_request, extract_summary, is_request_for, summary_of, SummaryRequest, SummaryResponse};

verus! {

/// Where a run stands, and what it waits for.
#[derive(Clone, Debug)]
pub enum Stage {
    /// The extractor is writing the audio track to `audio`.
    Extracting { audio: String },
    /// The transcriber is writing the transcript to `transcript`.
    Transcribing { transcript: String },
    /// The transcript file is being read.
    Loading,
    /// The transcript is being checkpointed.
    Checkpointing { transcript: String },
    /// The credential is being looked up.
    Authorizing { transcript: String },
    /// The request is on its way.
    Summarizing,
    /// The summary is being written.
    Persisting { summary: String },
    /// The run produced `summary`.
    Done { summary: String },
    /// The run ended with `error`.
    Aborted { error: PipelineError },
}

/// How the remote call ended, as far as the pipeline cares.
#[derive(Clone, Debug)]
pub enum Reply {
    /// The request could not be sent, or the transport failed.
    TransportFailure,
    /// The body was not a structured document.
    Unparsable,
    /// The body, reduced to what the pipeline reads.
    Parsed { response: SummaryResponse },
}

/// What happened when the last action was carried out.
#[derive(Clone, Debug)]
pub enum Event {
    ToolExited { success: bool },
    FileRead { content: Option<String> },
    FileWritten { success: bool },
    CredentialRead { credential: Option<String> },
    ResponseReceived { reply: Reply },
}

/// What the pipeline asks to be done next.
#[derive(Clone, Debug)]
pub enum Action {
    /// Create `output_dir` (with its parents) if missing, then run `program`
    /// with `args` to completion.
    RunTool { tool: Tool, program: String, args: Vec<String>, output_dir: String },
    /// Read the file at `path`.
    ReadFile { path: String },
    /// Write `content` to `path`, replacing what was there.
    WriteFile { path: String, content: String },
    /// Look up the credential of the summarization service.
    ReadCredential,
    /// Send `request` with `credential`.
    SendRequest { credential: String, request: SummaryRequest },
    /// The run is over with `summary`.
    Finish { summary: String },
    /// The run is over with `error`.
    Abort { error: PipelineError },
    /// Nothing to do: the event does not belong to the stage.
    Idle,
}

/// `a` runs `tool` as `program` with `args`, in directory `dir`.
pub open spec fn runs(
    a: Action,
    tool: Tool,
    program: Seq<char>,
    args: Seq<Seq<char>>,
    dir: Seq<char>,
) -> bool {
    match a {
        Action::RunTool { tool: t, program: p, args: v, output_dir: d } => t == tool && p@
            == program && texts(v@) == args && d@ == dir,
        _ => false,
    }
}

/// `a` writes `content` to `path`.
pub open spec fn writes(a: Action, path: Seq<char>, content: Seq<char>) -> bool {
    match a {
        Action::WriteFile { path: p, content: c } => p@ == path && c@ == content,
        _ => false,
    }
}

/// The run ends in `s2` with `error`, and asks for nothing but to stop.
pub open spec fn aborts(s2: Stage, a: Action, error: PipelineError) -> bool {
    s2 == (Stage::Aborted { error }) && a == (Action::Abort { error })
}

/// The run stays where it is, with nothing to do.
pub open spec fn idles(s: Stage, s2: Stage, a: Action) -> bool {
    s2 == s && a == Action::Idle
}

/// The transcriber is started on `audio`, and its transcript expected at
/// `<temp>/<audio stem>.txt`.
pub open spec fn transcribes(cfg: Config, audio: Seq<char>, s2: Stage, a: Action) -> bool {
    &&& s2 matches Stage::Transcribing { transcript } && transcript@ == transcript_path_of(
        cfg.temp_dir@,
        audio,
    )
    &&& runs(a, Tool::Transcriber, cfg.transcriber@, transcriber_args_of(cfg, audio), cfg.temp_dir@)
}

/// How a run begins with the arguments `args`: a video source has its audio
/// extracted to `<temp>/<stem>.wav`; any other source goes to the
/// transcriber as it is.
pub open spec fn starts(cfg: Config, args: Seq<String>, s: Stage, a: Action) -> bool {
    match source_of(args) {
        None => aborts(s, a, PipelineError::InvalidInvocation),
        Some(p) => if !is_well_formed_source(p) {
            aborts(s, a, PipelineError::MalformedPath)
        } else if extension_of(p) == Some(cfg.video_extension@) {
            let out = audio_path_of(cfg.temp_dir@, stem_of(p));
            &&& s matches Stage::Extracting { audio } && audio@ == out
            &&& runs(a, Tool::Extractor, cfg.extractor@, extractor_args_of(cfg, p, out), cfg.temp_dir@)
        } else {
            transcribes(cfg, p, s, a)
        },
    }
}

/// One move of a run: from stage `s`, on event `e`, to stage `s2` with
/// action `a`. Every failure ends the run at once with its error.
pub open spec fn moves(cfg: Config, s: Stage, e: Event, s2: Stage, a: Action) -> bool {
    let temp = cfg.temp_dir@;
    match s {
        Stage::Extracting { audio } => match e {
            Event::ToolExited { success } => if success {
                transcribes(cfg, audio@, s2, a)
            } else {
                aborts(s2, a, PipelineError::ExternalToolFailure { tool: Tool::Extractor })
            },
            _ => idles(s, s2, a),
        },
        Stage::Transcribing { transcript } => match e {
            Event::ToolExited { success } => if success {
                &&& s2 == Stage::Loading
                &&& a matches Action::ReadFile { path } && path@ == transcript@
            } else {
                aborts(s2, a, PipelineError::ExternalToolFailure { tool: Tool::Transcriber })
            },
            _ => idles(s, s2, a),
        },
        Stage::Loading => match e {
            Event::FileRead { content } => match content {
                Some(c) => s2 matches Stage::Checkpointing { transcript } && transcript@ == c@
                    && writes(a, checkpoint_path_of(temp), c@),
                None => aborts(s2, a, PipelineError::ArtifactMissing),
            },
            _ => idles(s, s2, a),
        },
        Stage::Checkpointing { transcript } => match e {
            Event::FileWritten { success } => if success {
                s2 matches Stage::Authorizing { transcript: t } && t@ == transcript@ && a
                    == Action::ReadCredential
            } else {
                aborts(s2, a, PipelineError::PersistenceFailure)
            },
            _ => idles(s, s2, a),
        },
        Stage::Authorizing { transcript } => match e {
            Event::CredentialRead { credential } => match credential {
                Some(k) => {
                    &&& s2 == Stage::Summarizing
                    &&& a matches Action::SendRequest { credential: k2, request } && k2@ == k@
                        && is_request_for(request, cfg, transcript@)
                },
                None => aborts(s2, a, PipelineError::MissingCredential),
            },
            _ => idles(s, s2, a),
        },
        Stage::Summarizing => match e {
            Event::ResponseReceived { reply } => match reply {
                Reply::TransportFailure => aborts(s2, a, PipelineError::TransportFailure),
                Reply::Unparsable => aborts(s2, a, PipelineError::MalformedResponse),
                Reply::Parsed { response } => match summary_of(response) {
                    Some(x) => s2 matches Stage::Persisting { summary } && summary@ == x
                        && writes(a, result_path_of(temp), x),
                    None => aborts(s2, a, PipelineError::EmptyOrUnexpectedResponse),
                },
            },
            _ => idles(s, s2, a),
        },
        Stage::Persisting { summary } => match e {
            Event::FileWritten { success } => if success {
                &&& s2 matches Stage::Done { summary: x } && x@ == summary@
                &&& a matches Action::Finish { summary: y } && y@ == summary@
            } else {
                aborts(s2, a, PipelineError::PersistenceFailure)
            },
            _ => idles(s, s2, a),
        },
        Stage::Done { .. } => idles(s, s2, a),
        Stage::Aborted { .. } => idles(s, s2, a),
    }
}

fn abort(error: PipelineError) -> (r: (Stage, Action))
    ensures
        aborts(r.0, r.1, error),
{
    (Stage::Aborted { error }, Action::Abort { error })
}

fn transcribe(cfg: &Config, audio: &str) -> (r: (Stage, Action))
    ensures
        transcribes(*cfg, audio@, r.0, r.1),
{
    let transcript = transcript_path(cfg, audio);
    let args = transcriber_args(cfg, audio);
    (
        Stage::Transcribing { transcript },
        Action::RunTool {
            tool: Tool::Transcriber,
            program: cfg.transcriber.clone(),
            args,
            output_dir: cfg.temp_dir.clone(),
        },
    )
}

/// Begins a run on the arguments it was invoked with.
pub fn start(cfg: &Config, args: &Vec<String>) -> (r: (Stage, Action))
    ensures
        starts(*cfg, args@, r.0, r.1),
{
    match source_argument(args) {
        Err(e) => abort(e),
        Ok(p) => match resolve_source(p.as_str()) {
            None => abort(PipelineError::MalformedPath),
            Some(m) => {
                if m.extension == cfg.video_extension {
                    let out = audio_path(cfg, m.stem.as_str());
                    let args = extractor_args(cfg, p.as_str(), out.as_str());
                    (
                        Stage::Extracting { audio: out },
                        Action::RunTool {
                            tool: Tool::Extractor,
                            program: cfg.extractor.clone(),
                            args,
                            output_dir: cfg.temp_dir.clone(),
                        },
                    )
                } else {
                    transcribe(cfg, p.as_str())
                }
            },
        },
    }
}

/// Moves a run on by one event.
pub fn step(cfg: &Config, s: Stage, e: Event) -> (r: (Stage, Action))
    ensures
        moves(*cfg, s, e, r.0, r.1),
{
    match s {
        Stage::Extracting { audio } => match e {
            Event::ToolExited { success } => if success {
                transcribe(cfg, audio.as_str())
            } else {
                abort(PipelineError::ExternalToolFailure { tool: Tool::Extractor })
            },
            _ => (Stage::Extracting { audio }, Action::Idle),
        },
        Stage::Transcribing { transcript } => match e {
            Event::ToolExited { success } => if success {
                (Stage::Loading, Action::ReadFile { path: transcript })
            } else {
                abort(PipelineError::ExternalToolFailure { tool: Tool::Transcriber })
            },
            _ => (Stage::Transcribing { transcript }, Action::Idle),
        },
        Stage::Loading => match e {
            Event::FileRead { content } => match content {
                Some(c) => {
                    let path = checkpoint_path(cfg);
                    let copy = c.clone();
                    (Stage::Checkpointing { transcript: c }, Action::WriteFile { path, content: copy })
                },
                None => abort(PipelineError::ArtifactMissing),
            },
            _ => (Stage::Loading, Action::Idle),
        },
        Stage::Checkpointing { transcript } => match e {
            Event::FileWritten { success } => if success {
                (Stage::Authorizing { transcript }, Action::ReadCredential)
            } else {
                abort(PipelineError::PersistenceFailure)
            },
            _ => (Stage::Checkpointing { transcript }, Action::Idle),
        },
        Stage::Authorizing { transcript } => match e {
            Event::CredentialRead { credential } => match credential {
                Some(k) => {
                    let request = build_request(cfg, transcript.as_str());
                    (Stage::Summarizing, Action::SendRequest { credential: k, request })
                },
                None => abort(PipelineError::MissingCredential),
            },
            _ => (Stage::Authorizing { transcript }, Action::Idle),
        },
        Stage::Summarizing => match e {
            Event::ResponseReceived { reply } => match reply {
                Reply::TransportFailure => abort(PipelineError::TransportFailure),
                Reply::Unparsable => abort(PipelineError::MalformedResponse),
                Reply::Parsed { response } => match extract_summary(&response) {
                    Ok(x) => {
                        let path = result_path(cfg);
                        let copy = x.clone();
                        (Stage::Persisting { summary: x }, Action::WriteFile { path, content: copy })
                    },
                    Err(err) => abort(err),
                },
            },
            _ => (Stage::Summarizing, Action::Idle),
        },
        Stage::Persisting { summary } => match e {
            Event::FileWritten { success } => if success {
                let copy = summary.clone();
                (Stage::Done { summary }, Action::Finish { summary: copy })
            } else {
                abort(PipelineError::PersistenceFailure)
            },
            _ => (Stage::Persisting { summary }, Action::Idle),
        },
        Stage::Done { summary } => (Stage::Done { summary }, Action::Idle),
        Stage::Aborted { error } => (Stage::Aborted { error }, Action::Idle),
    }
}

} // verus!
