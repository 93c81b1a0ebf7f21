//! Core of a progressive speech-to-text pipeline.
//!
//! The library turns a stream of captured audio samples into an ordered
//! transcript.  Samples are resampled to mono 16 kHz, optionally screened by a
//! voice-activity detector, accumulated into overlapping indexed chunks,
//! encoded into a transport byte format, and handed to a transcription
//! backend (remote HTTP providers or a local model).  Out-of-order results
//! are reassembled by chunk index into the final transcript.
//!
//! All I/O (audio capture, HTTP transport, disk access) lives outside this
//! crate; the functions here compute plans, decisions and transformations
//! over plain values, and their contracts are machine-checked.

pub mod bubble;
pub mod chunker;
pub mod dconf;
pub mod devices;
pub mod encoder;
pub mod errors;
pub mod hotkey;
pub mod model_cache;
pub mod mp3;
pub mod ollama;
pub mod provider;
pub mod reassembly;
pub mod record;
pub mod resample;
pub mod retry;
pub mod services;
pub mod shortcuts;
pub mod text;
pub mod transport;
pub mod vad;
pub mod verbose;
