//! Configuration and result types of one recording session.

use vstd::prelude::*;
use crate::provider::TranscriptionProvider;

verus! {

/// Configuration for one recording run.
#[derive(Debug, Clone, PartialEq, Eq)]
pub struct RecordConfig {
    /// Whether to post-process the transcript.
    pub post_process: bool,
    /// Name of the output preset to apply, if any; the preset itself is
    /// loaded by the caller.
    pub preset: Option<String>,
    /// Whether to print to stdout instead of the clipboard.
    pub print: bool,
    /// Recording duration in milliseconds (None = until stopped).
    pub duration_ms: Option<u64>,
    /// Disable voice-activity detection.
    pub no_vad: bool,
}

impl RecordConfig {
    /// Assemble a recording configuration from the caller's choices.
    pub fn new(
        post_process: bool,
        preset_name: Option<String>,
        print: bool,
        duration_ms: Option<u64>,
        no_vad: bool,
    ) -> (c: Self)
        ensures
            c.post_process == post_process,
            c.preset == preset_name,
            c.print == print,
            c.duration_ms == duration_ms,
            c.no_vad == no_vad,
    {
        RecordConfig { post_process, preset: preset_name, print, duration_ms, no_vad }
    }

    /// Whether output should stay quiet, keeping stdout clean for the
    /// transcript.
    pub fn is_quiet(&self) -> (r: bool)
        ensures
            r == self.print,
    {
        self.print
    }
}

/// The transcript after the post-processing phase.
#[derive(Debug, Clone, PartialEq, Eq)]
pub struct ProcessedResult {
    /// The processed text.
    pub text: String,
}

/// Everything a transcription run needs about its backend: the provider,
/// its credential (or model path, for local providers), and the language
/// hint.
#[derive(Debug, Clone, PartialEq, Eq)]
pub struct TranscriptionConfig {
    /// The chosen provider.
    pub provider: TranscriptionProvider,
    /// API key for remote providers; model path for local ones.
    pub api_key: String,
    /// Optional language hint.
    pub language: Option<String>,
}

} // verus!
