use vstd::prelude::*;

use crate::config::Config;
use crate::paths::{split_file_name, stem_of};

verus! {

/// The decimal digits, in order.
pub const DIGITS: &'static str = "0123456789";

/// The decimal notation of `n`, without leading zeros.
pub open spec fn decimal_of(n: nat) -> Seq<char>
    decreases n,
{
    if n < 10 {
        DIGITS@.subrange(n as int, n + 1 as int)
    } else {
        decimal_of(n / 10) + DIGITS@.subrange((n % 10) as int, (n % 10 + 1) as int)
    }
}

/// The text of each string of a sequence.
pub open spec fn texts(v: Seq<String>) -> Seq<Seq<char>> {
    v.map_values(|s: String| s@)
}

/// `name` inside directory `dir`.
pub open spec fn join_path(dir: Seq<char>, name: Seq<char>) -> Seq<char> {
    dir + seq!['/'] + name
}

/// Where the audio extracted from a video with stem `stem` is written.
pub open spec fn audio_path_of(temp: Seq<char>, stem: Seq<char>) -> Seq<char> {
    join_path(temp, stem + ".wav"@)
}

/// Where the transcriber writes the transcript of `audio`.
pub open spec fn transcript_path_of(temp: Seq<char>, audio: Seq<char>) -> Seq<char> {
    join_path(temp, stem_of(audio) + ".txt"@)
}

/// Where the transcript is checkpointed before the network call.
pub open spec fn checkpoint_path_of(temp: Seq<char>) -> Seq<char> {
    join_path(temp, "transcription.txt"@)
}

/// Where the summary is written.
pub open spec fn result_path_of(temp: Seq<char>) -> Seq<char> {
    join_path(temp, "result.md"@)
}

/// Arguments of the extractor: no video, 16-bit little-endian PCM at the
/// configured rate and channel count.
pub open spec fn extractor_args_of(cfg: Config, input: Seq<char>, output: Seq<char>) -> Seq<Seq<char>> {
    seq![
        "-i"@,
        input,
        "-vn"@,
        "-acodec"@,
        "pcm_s16le"@,
        "-ar"@,
        decimal_of(cfg.sample_rate as nat),
        "-ac"@,
        decimal_of(cfg.channels as nat),
        output,
    ]
}

/// Arguments of the transcriber: language, word timestamps, model size and
/// the directory that receives the transcript.
pub open spec fn transcriber_args_of(cfg: Config, audio: Seq<char>) -> Seq<Seq<char>> {
    seq![
        audio,
        "--language"@,
        cfg.language@,
        "--word_timestamps"@,
        "True"@,
        "--model"@,
        cfg.model_size@,
        "--output_dir"@,
        cfg.temp_dir@,
    ]
}

/// The decimal notation of `n`.
pub fn decimal(n: u32) -> (r: String)
    ensures
        r@ == decimal_of(n as nat),
    decreases n,
{
    proof {
        reveal_strlit("0123456789");
    }
    let d: usize = (n % 10) as usize;
    let digit = DIGITS.substring_char(d, d + 1);
    if n < 10 {
        String::from_str(digit)
    } else {
        let mut s = decimal(n / 10);
        s.append(digit);
        s
    }
}

/// `name` inside directory `dir`.
fn join(dir: &str, name: &str) -> (r: String)
    ensures
        r@ == join_path(dir@, name@),
{
    let mut r = String::from_str(dir);
    r.append("/");
    r.append(name);
    proof {
        reveal_strlit("/");
    }
    assert(r@ =~= join_path(dir@, name@));
    r
}

/// Where the audio of a video with stem `stem` is extracted to.
pub fn audio_path(cfg: &Config, stem: &str) -> (r: String)
    ensures
        r@ == audio_path_of(cfg.temp_dir@, stem@),
{
    let mut name = String::from_str(stem);
    name.append(".wav");
    join(cfg.temp_dir.as_str(), name.as_str())
}

/// Where the transcript of `audio` is expected, whatever the audio's source.
pub fn transcript_path(cfg: &Config, audio: &str) -> (r: String)
    ensures
        r@ == transcript_path_of(cfg.temp_dir@, audio@),
{
    let (mut name, _) = split_file_name(audio);
    name.append(".txt");
    join(cfg.temp_dir.as_str(), name.as_str())
}

/// Where the transcript is checkpointed.
pub fn checkpoint_path(cfg: &Config) -> (r: String)
    ensures
        r@ == checkpoint_path_of(cfg.temp_dir@),
{
    join(cfg.temp_dir.as_str(), "transcription.txt")
}

/// Where the summary is written.
pub fn result_path(cfg: &Config) -> (r: String)
    ensures
        r@ == result_path_of(cfg.temp_dir@),
{
    join(cfg.temp_dir.as_str(), "result.md")
}

/// The extractor's arguments for turning `input` into the WAV file `output`.
pub fn extractor_args(cfg: &Config, input: &str, output: &str) -> (r: Vec<String>)
    ensures
        texts(r@) == extractor_args_of(*cfg, input@, output@),
{
    let mut v: Vec<String> = Vec::new();
    v.push(String::from_str("-i"));
    v.push(String::from_str(input));
    v.push(String::from_str("-vn"));
    v.push(String::from_str("-acodec"));
    v.push(String::from_str("pcm_s16le"));
    v.push(String::from_str("-ar"));
    v.push(decimal(cfg.sample_rate));
    v.push(String::from_str("-ac"));
    v.push(decimal(cfg.channels as u32));
    v.push(String::from_str(output));
    assert(texts(v@) =~= extractor_args_of(*cfg, input@, output@));
    v
}

/// The transcriber's arguments for transcribing `audio` into the artifact directory.
pub fn transcriber_args(cfg: &Config, audio: &str) -> (r: Vec<String>)
    ensures
        texts(r@) == transcriber_args_of(*cfg, audio@),
{
    let mut v: Vec<String> = Vec::new();
    v.push(String::from_str(audio));
    v.push(String::from_str("--language"));
    v.push(cfg.language.clone());
    v.push(String::from_str("--word_timestamps"));
    v.push(String::from_str("True"));
    v.push(String::from_str("--model"));
    v.push(cfg.model_size.clone());
    v.push(String::from_str("--output_dir"));
    v.push(cfg.temp_dir.clone());
    assert(texts(v@) =~= transcriber_args_of(*cfg, audio@));
    v
}

} // verus!
