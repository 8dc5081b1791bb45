use media_summary::{
    build_prompt, build_request, decimal, parse_reply, extract_summary, get_file_extension, get_flag,
    resolve_source, source_argument, start, step, transcript_path, Action, Config, ContentBlock,
    Event, PipelineError, Reply, Stage, SummaryResponse, Tool, PROMPT_HEAD, PROMPT_TAIL,
    SYSTEM_INSTRUCTION,
};

fn strings(v: &[&str]) -> Vec<String> {
    v.iter().map(|s| s.to_string()).collect()
}

fn cfg() -> Config {
    Config::standard("temp".to_string(), "summary-model".to_string())
}

fn response(text: &str) -> SummaryResponse {
    SummaryResponse {
        content: Some(vec![ContentBlock {
            text: Some(text.to_string()),
        }]),
    }
}

fn expect_abort(r: (Stage, Action), error: PipelineError) {
    match r {
        (Stage::Aborted { error: e1 }, Action::Abort { error: e2 }) => {
            assert_eq!(e1, error);
            assert_eq!(e2, error);
        }
        other => panic!("expected an abort, got {:?}", other),
    }
}

#[test]
fn test_get_flag() {
    let args = vec!["-i".to_string(), "test.mp4".to_string()];
    let result = get_flag(args.clone());
    assert_eq!(result, Ok(args));
}

#[test]
fn test_get_file_extension() {
    let file_path = "test.mp4";
    let result = get_file_extension(file_path);
    println!("{:?}", result);
    assert_eq!(result, "mp4");
}

#[test]
fn test_write_to_file() {
    let res = response("これはテストです。");
    let (stage, action) = step(
        &cfg(),
        Stage::Summarizing,
        Event::ResponseReceived {
            reply: Reply::Parsed { response: res },
        },
    );
    match (stage, action) {
        (Stage::Persisting { summary }, Action::WriteFile { path, content }) => {
            assert_eq!(summary, "これはテストです。");
            assert_eq!(path, "temp/result.md");
            assert_eq!(content, "これはテストです。");
        }
        other => panic!("unexpected {:?}", other),
    }
}

#[test]
fn get_flag_without_flag_is_invalid() {
    let args = strings(&["prog", "talk.mp4"]);
    assert_eq!(get_flag(args), Err(PipelineError::InvalidInvocation));
}

#[test]
fn source_argument_follows_first_flag() {
    let args = strings(&["prog", "-i", "a/talk.mp4", "-i", "other.wav"]);
    assert_eq!(source_argument(&args), Ok("a/talk.mp4".to_string()));
    let args = strings(&["prog", "-i"]);
    assert_eq!(source_argument(&args), Err(PipelineError::InvalidInvocation));
}

#[test]
fn resolve_source_splits_stem_and_extension() {
    let m = resolve_source("/home/u/talk.final.mp4").unwrap();
    assert_eq!(m.path, "/home/u/talk.final.mp4");
    assert_eq!(m.stem, "talk.final");
    assert_eq!(m.extension, "mp4");
    assert_eq!(get_file_extension("dir.x/clip.WAV"), "WAV");
}

#[test]
fn resolve_source_rejects_malformed_paths() {
    assert!(resolve_source("noext").is_none());
    assert!(resolve_source("dir/").is_none());
    assert!(resolve_source("a/.hidden").is_none());
    assert!(resolve_source("..").is_none());
    assert!(resolve_source("").is_none());
}

#[test]
fn decimal_renders_numbers() {
    assert_eq!(decimal(0), "0");
    assert_eq!(decimal(1), "1");
    assert_eq!(decimal(44100), "44100");
    assert_eq!(decimal(u32::MAX), "4294967295");
}

#[test]
fn standard_config_values() {
    let c = cfg();
    assert_eq!(c.temp_dir, "temp");
    assert_eq!(c.video_extension, "mp4");
    assert_eq!(c.sample_rate, 44100);
    assert_eq!(c.channels, 1);
    assert_eq!(c.model, "summary-model");
    assert_eq!(c.max_tokens, 4096);
    assert_eq!(c.system, Some(SYSTEM_INSTRUCTION.to_string()));
}

#[test]
fn video_source_is_extracted_to_wav() {
    let args = strings(&["prog", "-i", "media/talk.mp4"]);
    match start(&cfg(), &args) {
        (
            Stage::Extracting { audio },
            Action::RunTool {
                tool,
                program,
                args,
                output_dir,
            },
        ) => {
            assert_eq!(audio, "temp/talk.wav");
            assert_eq!(tool, Tool::Extractor);
            assert_eq!(program, "ffmpeg");
            assert_eq!(output_dir, "temp");
            assert_eq!(
                args,
                strings(&[
                    "-i",
                    "media/talk.mp4",
                    "-vn",
                    "-acodec",
                    "pcm_s16le",
                    "-ar",
                    "44100",
                    "-ac",
                    "1",
                    "temp/talk.wav"
                ])
            );
        }
        other => panic!("unexpected {:?}", other),
    }
}

#[test]
fn audio_source_passes_through() {
    let args = strings(&["prog", "-i", "media/talk.wav"]);
    match start(&cfg(), &args) {
        (
            Stage::Transcribing { transcript },
            Action::RunTool {
                tool,
                program,
                args,
                output_dir,
            },
        ) => {
            assert_eq!(transcript, "temp/talk.txt");
            assert_eq!(tool, Tool::Transcriber);
            assert_eq!(program, "whisper");
            assert_eq!(output_dir, "temp");
            assert_eq!(
                args,
                strings(&[
                    "media/talk.wav",
                    "--language",
                    "Japanese",
                    "--word_timestamps",
                    "True",
                    "--model",
                    "small",
                    "--output_dir",
                    "temp"
                ])
            );
        }
        other => panic!("unexpected {:?}", other),
    }
}

#[test]
fn extension_match_is_case_sensitive() {
    let args = strings(&["prog", "-i", "talk.MP4"]);
    assert!(matches!(
        start(&cfg(), &args),
        (Stage::Transcribing { .. }, Action::RunTool { tool: Tool::Transcriber, .. })
    ));
}

#[test]
fn transcript_path_uses_audio_stem() {
    assert_eq!(transcript_path(&cfg(), "x/y/talk.wav"), "temp/talk.txt");
    assert_eq!(transcript_path(&cfg(), "temp/a.b.wav"), "temp/a.b.txt");
}

#[test]
fn missing_flag_aborts_without_io() {
    expect_abort(
        start(&cfg(), &strings(&["prog", "talk.mp4"])),
        PipelineError::InvalidInvocation,
    );
    expect_abort(start(&cfg(), &strings(&[])), PipelineError::InvalidInvocation);
}

#[test]
fn malformed_path_aborts() {
    expect_abort(
        start(&cfg(), &strings(&["prog", "-i", "talk"])),
        PipelineError::MalformedPath,
    );
}

#[test]
fn tool_failures_abort() {
    expect_abort(
        step(
            &cfg(),
            Stage::Extracting {
                audio: "temp/talk.wav".to_string(),
            },
            Event::ToolExited { success: false },
        ),
        PipelineError::ExternalToolFailure {
            tool: Tool::Extractor,
        },
    );
    expect_abort(
        step(
            &cfg(),
            Stage::Transcribing {
                transcript: "temp/talk.txt".to_string(),
            },
            Event::ToolExited { success: false },
        ),
        PipelineError::ExternalToolFailure {
            tool: Tool::Transcriber,
        },
    );
}

#[test]
fn missing_transcript_aborts() {
    expect_abort(
        step(&cfg(), Stage::Loading, Event::FileRead { content: None }),
        PipelineError::ArtifactMissing,
    );
}

#[test]
fn checkpoint_holds_transcript_verbatim() {
    let t = "line one\n  ```odd``` \u{0}end";
    match step(
        &cfg(),
        Stage::Loading,
        Event::FileRead {
            content: Some(t.to_string()),
        },
    ) {
        (Stage::Checkpointing { transcript }, Action::WriteFile { path, content }) => {
            assert_eq!(transcript, t);
            assert_eq!(path, "temp/transcription.txt");
            assert_eq!(content, t);
        }
        other => panic!("unexpected {:?}", other),
    }
}

#[test]
fn failed_writes_abort() {
    expect_abort(
        step(
            &cfg(),
            Stage::Checkpointing {
                transcript: "t".to_string(),
            },
            Event::FileWritten { success: false },
        ),
        PipelineError::PersistenceFailure,
    );
    expect_abort(
        step(
            &cfg(),
            Stage::Persisting {
                summary: "s".to_string(),
            },
            Event::FileWritten { success: false },
        ),
        PipelineError::PersistenceFailure,
    );
}

#[test]
fn missing_credential_aborts_before_request() {
    expect_abort(
        step(
            &cfg(),
            Stage::Authorizing {
                transcript: "t".to_string(),
            },
            Event::CredentialRead { credential: None },
        ),
        PipelineError::MissingCredential,
    );
}

#[test]
fn request_carries_transcript() {
    match step(
        &cfg(),
        Stage::Authorizing {
            transcript: "本文".to_string(),
        },
        Event::CredentialRead {
            credential: Some("key".to_string()),
        },
    ) {
        (Stage::Summarizing, Action::SendRequest { credential, request }) => {
            assert_eq!(credential, "key");
            assert_eq!(request.model, "summary-model");
            assert_eq!(request.system, Some(SYSTEM_INSTRUCTION.to_string()));
            assert_eq!(request.max_tokens, 4096);
            assert_eq!(request.messages.len(), 1);
            assert_eq!(request.messages[0].role, "user");
            assert_eq!(
                request.messages[0].content,
                format!("{}本文{}", PROMPT_HEAD, PROMPT_TAIL)
            );
        }
        other => panic!("unexpected {:?}", other),
    }
}

#[test]
fn prompt_embeds_transcript_verbatim() {
    let p = build_prompt("abc");
    assert!(p.starts_with("以下の文章は音声の文字起こしであり"));
    assert!(p.ends_with("以下に文字起こしの本文を示します：\n\n\n```abc```"));
    let r = build_request(&cfg(), "");
    assert_eq!(r.messages[0].content, format!("{}```", PROMPT_HEAD));
}

#[test]
fn transport_and_parse_failures_abort() {
    expect_abort(
        step(
            &cfg(),
            Stage::Summarizing,
            Event::ResponseReceived {
                reply: Reply::TransportFailure,
            },
        ),
        PipelineError::TransportFailure,
    );
    expect_abort(
        step(
            &cfg(),
            Stage::Summarizing,
            Event::ResponseReceived {
                reply: Reply::Unparsable,
            },
        ),
        PipelineError::MalformedResponse,
    );
}

#[test]
fn unexpected_responses_abort_without_writing() {
    let cases = vec![
        SummaryResponse { content: None },
        SummaryResponse {
            content: Some(vec![]),
        },
        SummaryResponse {
            content: Some(vec![
                ContentBlock { text: None },
                ContentBlock {
                    text: Some("later".to_string()),
                },
            ]),
        },
    ];
    for c in cases {
        assert_eq!(
            extract_summary(&c),
            Err(PipelineError::EmptyOrUnexpectedResponse)
        );
        expect_abort(
            step(
                &cfg(),
                Stage::Summarizing,
                Event::ResponseReceived {
                    reply: Reply::Parsed { response: c },
                },
            ),
            PipelineError::EmptyOrUnexpectedResponse,
        );
    }
}

#[test]
fn first_block_wins() {
    let r = SummaryResponse {
        content: Some(vec![
            ContentBlock {
                text: Some("first".to_string()),
            },
            ContentBlock {
                text: Some("second".to_string()),
            },
        ]),
    };
    assert_eq!(extract_summary(&r), Ok("first".to_string()));
}

#[test]
fn summary_round_trip_returns_text() {
    let c = cfg();
    let (s2, a2) = step(
        &c,
        Stage::Summarizing,
        Event::ResponseReceived {
            reply: Reply::Parsed {
                response: response("X"),
            },
        },
    );
    match &a2 {
        Action::WriteFile { path, content } => {
            assert_eq!(path, "temp/result.md");
            assert_eq!(content, "X");
        }
        other => panic!("unexpected {:?}", other),
    }
    match step(&c, s2, Event::FileWritten { success: true }) {
        (Stage::Done { summary }, Action::Finish { summary: s }) => {
            assert_eq!(summary, "X");
            assert_eq!(s, "X");
        }
        other => panic!("unexpected {:?}", other),
    }
}

#[test]
fn mismatched_events_are_ignored() {
    match step(&cfg(), Stage::Loading, Event::ToolExited { success: true }) {
        (Stage::Loading, Action::Idle) => {}
        other => panic!("unexpected {:?}", other),
    }
    match step(
        &cfg(),
        Stage::Done {
            summary: "s".to_string(),
        },
        Event::FileWritten { success: true },
    ) {
        (Stage::Done { summary }, Action::Idle) => assert_eq!(summary, "s"),
        other => panic!("unexpected {:?}", other),
    }
}

#[test]
fn talk_video_end_to_end() {
    let c = cfg();
    let (s, a) = start(&c, &strings(&["prog", "-i", "talk.mp4"]));
    match &a {
        Action::RunTool { tool, args, .. } => {
            assert_eq!(*tool, Tool::Extractor);
            assert_eq!(args[9], "temp/talk.wav");
        }
        other => panic!("unexpected {:?}", other),
    }
    let (s, a) = step(&c, s, Event::ToolExited { success: true });
    match &a {
        Action::RunTool { tool, args, .. } => {
            assert_eq!(*tool, Tool::Transcriber);
            assert_eq!(args[0], "temp/talk.wav");
        }
        other => panic!("unexpected {:?}", other),
    }
    let (s, a) = step(&c, s, Event::ToolExited { success: true });
    match &a {
        Action::ReadFile { path } => assert_eq!(path, "temp/talk.txt"),
        other => panic!("unexpected {:?}", other),
    }
    let (s, a) = step(
        &c,
        s,
        Event::FileRead {
            content: Some("こんにちは".to_string()),
        },
    );
    match &a {
        Action::WriteFile { path, content } => {
            assert_eq!(path, "temp/transcription.txt");
            assert_eq!(content, "こんにちは");
        }
        other => panic!("unexpected {:?}", other),
    }
    let (s, a) = step(&c, s, Event::FileWritten { success: true });
    assert!(matches!(a, Action::ReadCredential));
    let (s, a) = step(
        &c,
        s,
        Event::CredentialRead {
            credential: Some("k".to_string()),
        },
    );
    match &a {
        Action::SendRequest { request, .. } => {
            assert!(request.messages[0].content.contains("```こんにちは```"))
        }
        other => panic!("unexpected {:?}", other),
    }
    let (s, a) = step(
        &c,
        s,
        Event::ResponseReceived {
            reply: Reply::Parsed {
                response: response("## 要約\n- 挨拶"),
            },
        },
    );
    match &a {
        Action::WriteFile { path, content } => {
            assert_eq!(path, "temp/result.md");
            assert_eq!(content, "## 要約\n- 挨拶");
        }
        other => panic!("unexpected {:?}", other),
    }
    match step(&c, s, Event::FileWritten { success: true }) {
        (Stage::Done { summary }, Action::Finish { summary: out }) => {
            assert_eq!(summary, "## 要約\n- 挨拶");
            assert_eq!(out, "## 要約\n- 挨拶");
        }
        other => panic!("unexpected {:?}", other),
    }
}

#[test]
fn test_convert_to_audio() {
    let file_name = "test";
    let file_path: &str = &format!("{}.mp4", file_name);
    let args = strings(&["prog", "-i", file_path]);
    let result = start(&cfg(), &args);
    assert!(matches!(
        result,
        (Stage::Extracting { .. }, Action::RunTool { tool: Tool::Extractor, .. })
    ));
}

#[test]
fn test_convert_to_text() {
    let file_name = "test";
    let audio_file_path: &str = &format!("{}.wav", file_name);
    let args = strings(&["prog", "-i", audio_file_path]);
    match start(&cfg(), &args) {
        (Stage::Transcribing { transcript }, Action::RunTool { tool, args, .. }) => {
            assert_eq!(tool, Tool::Transcriber);
            assert_eq!(args[0], "test.wav");
            assert_eq!(transcript, "temp/test.txt");
        }
        other => panic!("unexpected {:?}", other),
    }
}

#[test]
fn test_request_claude() {
    let result = String::from("文字起こしのテストです。");
    let next = step(
        &cfg(),
        Stage::Authorizing { transcript: result },
        Event::CredentialRead {
            credential: Some("key".to_string()),
        },
    );
    match next {
        (Stage::Summarizing, Action::SendRequest { request, .. }) => {
            assert!(request.messages[0]
                .content
                .ends_with("```文字起こしのテストです。```"));
        }
        other => panic!("unexpected {:?}", other),
    }
}

fn reply_summary(body: &str) -> Result<String, PipelineError> {
    match parse_reply(body) {
        Reply::Parsed { response } => extract_summary(&response),
        Reply::Unparsable => Err(PipelineError::MalformedResponse),
        Reply::TransportFailure => Err(PipelineError::TransportFailure),
    }
}

#[test]
fn synthetic_response_round_trip() {
    assert_eq!(
        reply_summary(r#"{"content":[{"text":"X"}]}"#),
        Ok("X".to_string())
    );
    let (s, a) = step(
        &cfg(),
        Stage::Summarizing,
        Event::ResponseReceived {
            reply: parse_reply(r#"{"id":"m","content":[{"type":"text","text":"X"},{"text":"Y"}]}"#),
        },
    );
    match (&s, &a) {
        (Stage::Persisting { summary }, Action::WriteFile { path, content }) => {
            assert_eq!(summary, "X");
            assert_eq!(path, "temp/result.md");
            assert_eq!(content, "X");
        }
        other => panic!("unexpected {:?}", other),
    }
}

#[test]
fn escaped_text_is_decoded() {
    assert_eq!(
        reply_summary("{\"content\":[{\"text\":\"## \\u8981\\u7d04\\n- a\\/b\"}]}"),
        Ok("## 要約\n- a/b".to_string())
    );
}

#[test]
fn malformed_documents_are_unexpected() {
    for body in [
        r#"{}"#,
        r#"{"content":"text"}"#,
        r#"{"content":[]}"#,
        r#"{"content":[{"type":"text"}]}"#,
        r#"{"content":[{"text":5}]}"#,
        r#"{"content":[["text"]]}"#,
        r#"[{"content":[{"text":"X"}]}]"#,
        r#""plain""#,
    ] {
        assert_eq!(
            reply_summary(body),
            Err(PipelineError::EmptyOrUnexpectedResponse),
            "{}",
            body
        );
    }
}

#[test]
fn non_json_body_is_unparsable() {
    for body in ["", "not json", r#"{"content":["#, "<html></html>"] {
        assert!(matches!(parse_reply(body), Reply::Unparsable), "{}", body);
    }
    expect_abort(
        step(
            &cfg(),
            Stage::Summarizing,
            Event::ResponseReceived {
                reply: parse_reply("oops"),
            },
        ),
        PipelineError::MalformedResponse,
    );
}
