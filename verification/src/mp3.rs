//! MP3 decoding for local transcription, through the `minimp3` decoder.
//!
//! Remote providers receive the encoded bytes untouched; the local backends
//! need raw samples, so compressed recordings are decoded frame by frame
//! and then resampled to the pipeline's mono 16 kHz format.  The decoder
//! itself is an outside library and its output is taken as-is; everything
//! after it — collecting frames, rejecting empty streams, resampling — is
//! verified against the decoded samples, whatever they are.

use vstd::prelude::*;
use crate::errors::AudioError;
use crate::resample::resample_to_16k;

verus! {

/// The outside MP3 decoder type, opaque to the verifier.
#[verifier::external_type_specification]
#[verifier::external_body]
#[verifier::reject_recursive_types(R)]
pub struct ExDecoder<R>(minimp3::Decoder<R>);

/// What one decoding step produced.
pub enum Mp3Step {
    /// One decoded frame: interleaved samples, their rate and channel
    /// count.
    Frame { samples: Vec<i16>, sample_rate: u32, channels: u16 },
    /// The end of the byte stream.
    End,
    /// The stream could not be decoded further.
    Failed,
}

/// Relies on minimp3::Decoder::new: wraps a byte slice for decoding.
#[verifier::external_body]
fn mp3_decoder_new<'a>(data: &'a [u8]) -> minimp3::Decoder<&'a [u8]> {
    minimp3::Decoder::new(data)
}

/// Relies on minimp3::Decoder::next_frame: yields the next decoded frame,
/// the end of the stream, or a failure.  Nothing is assumed about the
/// decoded samples; callers handle every outcome.
#[verifier::external_body]
fn mp3_next_frame(dec: &mut minimp3::Decoder<&[u8]>) -> (r: Mp3Step) {
    match dec.next_frame() {
        Ok(frame) => Mp3Step::Frame {
            samples: frame.data,
            sample_rate: frame.sample_rate as u32,
            channels: frame.channels as u16,
        },
        Err(minimp3::Error::Eof) => Mp3Step::End,
        Err(_) => Mp3Step::Failed,
    }
}

/// Decode a whole MP3 byte stream into interleaved samples, together with
/// the sample rate and channel count of its last frame.  A stream that
/// fails to decode, or decodes to nothing, is a decode error.  On success
/// the samples are never empty.
#[verifier::loop_isolation(false)]
pub fn decode_mp3_to_samples(data: &Vec<u8>) -> (r: Result<(Vec<i16>, u32, u16), AudioError>)
    ensures
        r matches Result::Ok(out) ==> out.0@.len() > 0,
        r matches Result::Err(e) ==> e == AudioError::DecodeFailed,
{
    let mut dec = mp3_decoder_new(data.as_slice());
    let mut samples: Vec<i16> = Vec::new();
    let mut sample_rate: u32 = 0;
    let mut channels: u16 = 0;
    // An MP3 frame occupies at least one input byte, so a well-formed
    // stream yields at most `data.len()` frames; the bound makes the
    // decoding loop finite whatever the decoder does.
    let mut steps: usize = 0;
    let max_steps = data.len();
    while steps < max_steps
        invariant
            steps <= max_steps,
        decreases max_steps - steps,
    {
        match mp3_next_frame(&mut dec) {
            Mp3Step::Frame { samples: frame_samples, sample_rate: sr, channels: ch } => {
                let mut frame_samples = frame_samples;
                samples.append(&mut frame_samples);
                sample_rate = sr;
                channels = ch;
            },
            Mp3Step::End => {
                if samples.len() == 0 {
                    return Result::Err(AudioError::DecodeFailed);
                }
                return Result::Ok((samples, sample_rate, channels));
            },
            Mp3Step::Failed => {
                return Result::Err(AudioError::DecodeFailed);
            },
        }
        steps = steps + 1;
    }
    Result::Err(AudioError::DecodeFailed)
}

/// Decode an MP3 byte stream and resample it to mono 16 kHz for local
/// inference.  The decoded samples, whatever the decoder produced, go
/// through [`resample_to_16k`], whose contract fixes the result exactly.
/// A stream that fails to decode (or is too large to resample) is a decode
/// error, and a decoded stream with a zero rate or channel count surfaces
/// the resampler's error; a decoded stream is never empty, so an
/// empty-input error cannot occur.
pub fn decode_and_resample(data: &Vec<u8>) -> (r: Result<Vec<i16>, AudioError>)
    ensures
        r matches Result::Err(e) ==> e == AudioError::DecodeFailed || e == AudioError::ZeroRate
            || e == AudioError::ZeroChannels,
{
    let decoded = decode_mp3_to_samples(data)?;
    let (samples, sample_rate, channels) = decoded;
    if usize::MAX / 16000 < samples.len() {
        return Result::Err(AudioError::DecodeFailed);
    }
    proof {
        vstd::arithmetic::div_mod::lemma_fundamental_div_mod(usize::MAX as int, 16000);
        assert(samples@.len() * 16000 <= usize::MAX) by (nonlinear_arith)
            requires
                samples@.len() <= usize::MAX as int / 16000,
                usize::MAX as int == 16000 * (usize::MAX as int / 16000) + usize::MAX as int
                    % 16000,
                0 <= usize::MAX as int % 16000,
        ;
    }
    resample_to_16k(&samples, sample_rate, channels)
}

} // verus!
