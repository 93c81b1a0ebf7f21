//! Encoding of a chunk's samples into the transport byte format.
//!
//! Each chunk is encoded independently and statelessly, so chunks can be
//! encoded out of order.  The format is a constant-bitrate mono 16 kHz MP3
//! stream, produced by the LAME encoder with fixed settings: the encoded
//! bytes are a function of the samples alone, so the contracts speak of
//! that function by name.  Empty input is an encode error, and a failure
//! of the outside encoder is surfaced rather than swallowed.

use vstd::prelude::*;
use crate::chunker::ProgressiveChunk;
use crate::errors::AudioError;

verus! {

/// The constant-bitrate mono 16 kHz MP3 image of a sample sequence, as the
/// fixed encoder settings produce it.  The stream takes pages to describe,
/// so it is named, not spelled out; nothing is assumed about its bytes.
pub uninterp spec fn mp3_bytes_of(samples: Seq<i16>) -> Seq<u8>;

/// Relies on mp3lame_encoder's Builder and Encoder (backed by LAME):
/// encodes mono 16 kHz samples as a constant-bitrate MP3 stream.  With
/// these fixed settings the output depends on the samples alone, which the
/// name records; constructing the encoder can fail, and nothing more is
/// assumed of the outside code.
#[verifier::external_body]
fn lame_encode_mono_16k(samples: &Vec<i16>) -> (r: Option<Vec<u8>>)
    ensures
        r matches Option::Some(b) ==> b@ == mp3_bytes_of(samples@),
{
    let mut builder = mp3lame_encoder::Builder::new()?;
    builder.set_num_channels(1).ok()?;
    builder.set_sample_rate(16000).ok()?;
    builder.set_brate(mp3lame_encoder::Bitrate::Kbps64).ok()?;
    let mut encoder = builder.build().ok()?;
    let mut out: Vec<u8> = Vec::new();
    out.reserve(mp3lame_encoder::max_required_buffer_size(samples.len()));
    encoder.encode_to_vec(mp3lame_encoder::MonoPcm(samples.as_slice()), &mut out).ok()?;
    encoder.flush_to_vec::<mp3lame_encoder::FlushNoGap>(&mut out).ok()?;
    Some(out)
}

/// The stateless chunk encoder.
#[derive(Debug, Default, Clone, PartialEq, Eq, Structural)]
pub struct AudioEncoder;

/// Make an encoder for this session's chunks.
pub fn create_encoder() -> (e: AudioEncoder)
    ensures
        e == AudioEncoder,
{
    AudioEncoder
}

impl AudioEncoder {
    /// Encode one chunk of mono 16 kHz samples into the transport byte
    /// format.  Stateless and deterministic: a success is exactly the MP3
    /// image of the samples.  Empty input is an encode error, and a
    /// failure of the outside encoder is reported as one.
    pub fn encode(&self, samples: &Vec<i16>) -> (r: Result<Vec<u8>, AudioError>)
        requires
            samples@.len() <= 0x7fff_0000,
        ensures
            samples@.len() == 0 ==> r == Result::<Vec<u8>, AudioError>::Err(
                AudioError::EmptyInput,
            ),
            samples@.len() > 0 ==> (r matches Result::Ok(bytes) && bytes@ == mp3_bytes_of(
                samples@,
            )) || r == Result::<Vec<u8>, AudioError>::Err(AudioError::EncodeFailed),
    {
        if samples.len() == 0 {
            return Result::Err(AudioError::EmptyInput);
        }
        match lame_encode_mono_16k(samples) {
            Option::Some(bytes) => Result::Ok(bytes),
            Option::None => Result::Err(AudioError::EncodeFailed),
        }
    }
}

/// A chunk of audio, encoded and ready for transcription.
#[derive(Debug, Clone, PartialEq, Eq)]
pub struct AudioChunk {
    /// Encoded audio bytes.
    pub data: Vec<u8>,
    /// Chunk index (0-based, for ordering).
    pub index: usize,
    /// Whether this chunk has overlap from the previous chunk.
    pub has_leading_overlap: bool,
}

/// Output from a recording session: either one encoded blob or a list of
/// encoded chunks for progressive transcription.
#[derive(Debug, Clone, PartialEq, Eq)]
pub enum RecordingOutput {
    /// Small recording that can be transcribed in one request.
    Single(Vec<u8>),
    /// Large recording split into chunks (parallel for remote backends,
    /// sequential for local ones).
    Chunked(Vec<AudioChunk>),
}

/// Encode one emitted chunk, keeping its index and overlap flag.
pub fn encode_chunk(encoder: &AudioEncoder, chunk: &ProgressiveChunk) -> (r: Result<
    AudioChunk,
    AudioError,
>)
    requires
        chunk.samples@.len() <= 0x7fff_0000,
    ensures
        chunk.samples@.len() == 0 ==> r == Result::<AudioChunk, AudioError>::Err(
            AudioError::EmptyInput,
        ),
        chunk.samples@.len() > 0 ==> (r matches Result::Ok(c) && {
            &&& c.data@ == mp3_bytes_of(chunk.samples@)
            &&& c.index == chunk.index
            &&& c.has_leading_overlap == chunk.has_leading_overlap
        }) || r == Result::<AudioChunk, AudioError>::Err(AudioError::EncodeFailed),
{
    let data = encoder.encode(&chunk.samples)?;
    Result::Ok(
        AudioChunk { data, index: chunk.index, has_leading_overlap: chunk.has_leading_overlap },
    )
}

} // verus!
