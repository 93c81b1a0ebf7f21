//! Error taxonomy of the pipeline.
//!
//! Configuration problems, malformed audio, transport failures, non-success
//! HTTP responses, unexpected response shapes, missing model files and opaque
//! inference failures each get their own variant, so no failure is ever
//! collapsed into another or silently dropped.

use vstd::prelude::*;

verus! {

/// Failure of an audio-processing step (resampling, encoding, decoding).
#[derive(Debug, Clone, PartialEq, Eq, Structural)]
pub enum AudioError {
    /// The input held no samples.
    EmptyInput,
    /// The declared sample rate was zero.
    ZeroRate,
    /// The declared channel count was zero.
    ZeroChannels,
    /// A compressed stream yielded no decodable audio.
    DecodeFailed,
    /// The outside encoder could not be set up or failed mid-stream.
    EncodeFailed,
    /// No real audio input device is available.
    NoDevices,
}

/// Failure of a transcription attempt.
#[derive(Debug, Clone, PartialEq, Eq)]
pub enum TranscribeError {
    /// A credential or model path was missing or empty.
    Configuration,
    /// The audio payload could not be prepared.
    Audio { cause: AudioError },
    /// The transport failed before any HTTP status was received.
    Network,
    /// The server answered with a non-success status.
    Api { status: u16, body: String },
    /// The response was well formed but held no transcript.
    ResponseFormat,
    /// The local model file does not exist at the given path.
    ModelNotFound { path: String },
    /// The local inference engine failed for an unstated reason.
    Inference,
}

} // verus!
