//! Settings taken from the environment.

use vstd::prelude::*;
use vstd::string::StringExecFns;

verus! {

/// Keys and file names of one run.
#[derive(Debug, Clone)]
pub struct EnvConfig {
    pub whisper_api_key: String,
    pub llm_api_key: String,
    pub recording_filename: String,
    pub output_filename: String,
}

/// A setting that must be there is missing.
#[derive(Clone, Copy, Debug, PartialEq, Eq, Structural)]
pub enum EnvError {
    /// `WHISPER_API_KEY` is not set.
    MissingWhisperKey,
    /// `LLM_API_KEY` is not set.
    MissingLlmKey,
}

/// The value of a setting: what was found, else the default.
pub open spec fn or_default(found: Option<String>, default: Seq<char>) -> Seq<char> {
    match found {
        Some(s) => s@,
        None => default,
    }
}

/// What `load` gives for the four values: the first missing key as an error,
/// else the settings with the defaults filled in.
pub open spec fn loaded(
    whisper_api_key: Option<String>,
    llm_api_key: Option<String>,
    recording_filename: Option<String>,
    output_filename: Option<String>,
    r: Result<EnvConfig, EnvError>,
) -> bool {
    match (whisper_api_key, llm_api_key) {
        (None, _) => r matches Err(e) && e == EnvError::MissingWhisperKey,
        (Some(_), None) => r matches Err(e) && e == EnvError::MissingLlmKey,
        (Some(w), Some(l)) => r matches Ok(c) && c.whisper_api_key@ == w@ && c.llm_api_key@ == l@
            && c.recording_filename@ == or_default(recording_filename, "recording.wav"@)
            && c.output_filename@ == or_default(output_filename, "output.md"@),
    }
}

fn value_or(found: Option<String>, default: &str) -> (s: String)
    ensures
        s@ == or_default(found, default@),
{
    match found {
        Some(s) => s,
        None => String::from_str(default),
    }
}

impl EnvError {
    /// The error in words.
    pub fn message(&self) -> (m: String)
        ensures
            m@ == match *self {
                EnvError::MissingWhisperKey => "WHISPER_API_KEY not found in environment"@,
                EnvError::MissingLlmKey => "LLM_API_KEY not found in environment"@,
            },
    {
        match self {
            EnvError::MissingWhisperKey => String::from_str(
                "WHISPER_API_KEY not found in environment",
            ),
            EnvError::MissingLlmKey => String::from_str("LLM_API_KEY not found in environment"),
        }
    }
}

impl EnvConfig {
    /// Makes the settings from the values of `WHISPER_API_KEY`, `LLM_API_KEY`,
    /// `RECORDING_FILENAME` and `OUTPUT_FILENAME`, each `None` where the
    /// variable is not set. The two keys must be there; the file names
    /// default to `recording.wav` and `output.md`.
    pub fn load(
        whisper_api_key: Option<String>,
        llm_api_key: Option<String>,
        recording_filename: Option<String>,
        output_filename: Option<String>,
    ) -> (r: Result<EnvConfig, EnvError>)
        ensures
            loaded(whisper_api_key, llm_api_key, recording_filename, output_filename, r),
    {
        let whisper_api_key: String = match whisper_api_key {
            Some(key) => key,
            None => {
                return Err(EnvError::MissingWhisperKey);
            },
        };
        let llm_api_key: String = match llm_api_key {
            Some(key) => key,
            None => {
                return Err(EnvError::MissingLlmKey);
            },
        };
        Ok(
            EnvConfig {
                whisper_api_key,
                llm_api_key,
                recording_filename: value_or(recording_filename, "recording.wav"),
                output_filename: value_or(output_filename, "output.md"),
            },
        )
    }
}

/// The lines that keep secrets and results out of version control, as they
/// are appended to the ignore file: an empty line, a heading, then one
/// pattern on each line.
pub fn gitignore_entries() -> (text: String)
    ensures
        text@ == "\n# Environment Variables\n.env\n.env.local\n*.wav\n*.md\n"@,
{
    String::from_str("\n# Environment Variables\n.env\n.env.local\n*.wav\n*.md\n")
}

} // verus!
