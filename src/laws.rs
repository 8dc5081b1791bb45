use vstd::prelude::*;

use crate::artifacts::{
    audio_path_of, checkpoint_path_of, result_path_of, texts, transcript_path_of,
};
use crate::config::Config;
use crate::error::{PipelineError, Tool};
use crate::invocation::{has_flag, source_of};
use crate::paths::{extension_of, is_well_formed_source, stem_of};
use crate::pipeline::{aborts, moves, starts, writes, Action, Event, Reply, Stage};
use crate::summary::{is_request_for, SummaryResponse};

verus! {

/// The texts of a tool run's arguments line up with the arguments themselves.
proof fn args_texts(a: Action)
    ensures
        a matches Action::RunTool { args: v, .. } ==> texts(v@).len() == v@.len() && forall|i: int|
            0 <= i < v@.len() ==> #[trigger] texts(v@)[i] == v@[i]@,
{
}

/// A video source has its audio extracted to `<temp>/<stem>.wav`, where
/// the output is the extractor's last argument; any other source goes to the
/// transcriber unchanged.
pub proof fn audio_plan_at_start(cfg: Config, args: Seq<String>, p: Seq<char>, s: Stage, a: Action)
    requires
        starts(cfg, args, s, a),
        source_of(args) == Some(p),
        is_well_formed_source(p),
    ensures
        extension_of(p) == Some(cfg.video_extension@) ==> (a matches Action::RunTool {
            tool,
            args: v,
            ..
        } && tool == Tool::Extractor && v@.len() == 10 && v@[9]@ == audio_path_of(
            cfg.temp_dir@,
            stem_of(p),
        )),
        extension_of(p) != Some(cfg.video_extension@) ==> (a matches Action::RunTool {
            tool,
            args: v,
            ..
        } && tool == Tool::Transcriber && v@.len() > 0 && v@[0]@ == p),
{
    args_texts(a);
}

/// Once a run has begun, it never runs the extractor again: the extractor
/// runs at most once per run.
pub proof fn extractor_only_at_start(cfg: Config, s: Stage, e: Event, s2: Stage, a: Action)
    requires
        moves(cfg, s, e, s2, a),
    ensures
        a matches Action::RunTool { tool, .. } ==> tool != Tool::Extractor,
{
}

/// Whenever the transcriber is started, whether on the source itself or on
/// extracted audio, its transcript is expected at `<temp>/<audio stem>.txt`.
pub proof fn transcript_path_after_move(cfg: Config, s: Stage, e: Event, s2: Stage, a: Action)
    requires
        moves(cfg, s, e, s2, a),
    ensures
        match a {
            Action::RunTool { tool, args: v, .. } => tool == Tool::Transcriber ==> {
                &&& v@.len() > 0
                &&& s2 matches Stage::Transcribing { transcript }
                    && transcript@ == transcript_path_of(cfg.temp_dir@, v@[0]@)
            },
            _ => true,
        },
{
    args_texts(a);
}

/// The same expectation holds for a transcriber started at the beginning of a run.
pub proof fn transcript_path_at_start(cfg: Config, args: Seq<String>, s: Stage, a: Action)
    requires
        starts(cfg, args, s, a),
    ensures
        match a {
            Action::RunTool { tool, args: v, .. } => tool == Tool::Transcriber ==> {
                &&& v@.len() > 0
                &&& s matches Stage::Transcribing { transcript }
                    && transcript@ == transcript_path_of(cfg.temp_dir@, v@[0]@)
            },
            _ => true,
        },
{
    args_texts(a);
}

/// A loaded transcript is first written verbatim to `<temp>/transcription.txt`;
/// the credential is only looked up once that write succeeded, and a request
/// only goes out from there, carrying that same transcript.
pub proof fn checkpoint_before_request(cfg: Config, s: Stage, e: Event, s2: Stage, a: Action)
    requires
        moves(cfg, s, e, s2, a),
    ensures
        s == Stage::Loading ==> (e matches Event::FileRead { content: Some(c) } ==> writes(
            a,
            checkpoint_path_of(cfg.temp_dir@),
            c@,
        )),
        match s2 {
            Stage::Authorizing { transcript } => !(s is Authorizing) ==> {
                &&& s matches Stage::Checkpointing { transcript: t } && t@ == transcript@
                &&& e == (Event::FileWritten { success: true })
            },
            _ => true,
        },
        a matches Action::SendRequest { request, .. } ==> s matches Stage::Authorizing {
            transcript,
        } && is_request_for(request, cfg, transcript@),
{
}

/// A response whose first content block has text `x` has exactly `x`
/// written to `<temp>/result.md`, and the run then finishes with `x`.
pub proof fn summary_round_trip(
    cfg: Config,
    resp: SummaryResponse,
    x: Seq<char>,
    s2: Stage,
    a: Action,
    s3: Stage,
    a3: Action,
)
    requires
        resp.content matches Some(v) && v@.len() > 0 && (v@[0].text matches Some(t) && t@ == x),
        moves(
            cfg,
            Stage::Summarizing,
            Event::ResponseReceived { reply: Reply::Parsed { response: resp } },
            s2,
            a,
        ),
        moves(cfg, s2, Event::FileWritten { success: true }, s3, a3),
    ensures
        writes(a, result_path_of(cfg.temp_dir@), x),
        a3 matches Action::Finish { summary } && summary@ == x,
        s3 matches Stage::Done { summary } && summary@ == x,
{
}

/// Without the input flag a run fails as an invalid invocation at once,
/// asking for no file or network work.
pub proof fn missing_flag_aborts(cfg: Config, args: Seq<String>, s: Stage, a: Action)
    requires
        !has_flag(args),
        starts(cfg, args, s, a),
    ensures
        aborts(s, a, PipelineError::InvalidInvocation),
{
}

/// Without a credential the run fails before any request is sent.
pub proof fn missing_credential_aborts(cfg: Config, t: String, s2: Stage, a: Action)
    requires
        moves(
            cfg,
            Stage::Authorizing { transcript: t },
            Event::CredentialRead { credential: None },
            s2,
            a,
        ),
    ensures
        aborts(s2, a, PipelineError::MissingCredential),
        !(a is SendRequest),
{
}

/// A response without a content array, with an empty one, or whose first
/// block has no text fails as unexpected, and nothing is written.
pub proof fn unexpected_response_aborts(cfg: Config, resp: SummaryResponse, s2: Stage, a: Action)
    requires
        match resp.content {
            None => true,
            Some(v) => v@.len() == 0 || v@[0].text is None,
        },
        moves(
            cfg,
            Stage::Summarizing,
            Event::ResponseReceived { reply: Reply::Parsed { response: resp } },
            s2,
            a,
        ),
    ensures
        aborts(s2, a, PipelineError::EmptyOrUnexpectedResponse),
        !(a is WriteFile),
{
}

} // verus!
