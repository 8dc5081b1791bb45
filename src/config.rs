use vstd::prelude::*;

use crate::prompt::SYSTEM_INSTRUCTION;

verus! {

/// The fixed settings of a run, passed to every stage.
#[derive(Clone, Debug)]
pub struct Config {
    /// Directory that receives every artifact of a run.
    pub temp_dir: String,
    /// Extension of the inputs whose audio must be extracted first.
    pub video_extension: String,
    /// Program that extracts the audio track.
    pub extractor: String,
    /// Program that transcribes speech.
    pub transcriber: String,
    pub sample_rate: u32,
    pub channels: u8,
    /// Spoken language handed to the transcriber.
    pub language: String,
    /// Model size handed to the transcriber.
    pub model_size: String,
    /// Language model that writes the summary.
    pub model: String,
    pub system: Option<String>,
    pub max_tokens: u32,
}

impl Config {
    /// The standard settings, with artifacts under `temp_dir` and summaries
    /// written by `model`.
    pub fn standard(temp_dir: String, model: String) -> (r: Config)
        ensures
            r.temp_dir@ == temp_dir@,
            r.video_extension@ == "mp4"@,
            r.extractor@ == "ffmpeg"@,
            r.transcriber@ == "whisper"@,
            r.sample_rate == 44100,
            r.channels == 1,
            r.language@ == "Japanese"@,
            r.model_size@ == "small"@,
            r.model@ == model@,
            r.system matches Some(s) && s@ == SYSTEM_INSTRUCTION@,
            r.max_tokens == 4096,
    {
        Config {
            temp_dir,
            video_extension: String::from_str("mp4"),
            extractor: String::from_str("ffmpeg"),
            transcriber: String::from_str("whisper"),
            sample_rate: 44100,
            channels: 1,
            language: String::from_str("Japanese"),
            model_size: String::from_str("small"),
            model,
            system: Some(String::from_str(SYSTEM_INSTRUCTION)),
            max_tokens: 4096,
        }
    }
}

} // verus!
