//! Conversion of captured audio to the pipeline's fixed format: mono
//! samples at 16000 Hz.
//!
//! Channels are averaged into one, then the rate is converted by
//! nearest-sample selection: output sample `i` is the averaged frame at
//! input position `i * rate / 16000`.  The output length is exactly
//! `floor(frames * 16000 / rate)` where `frames = len / channels`, so for
//! every valid rate and channel count the result is mono 16 kHz audio whose
//! length is the input frame count scaled by `16000 / rate`.  The conversion
//! is a pure function of its inputs: identical input yields identical
//! output.  Empty input, a zero rate and a zero channel count are rejected.

use vstd::prelude::*;
use vstd::arithmetic::div_mod::{lemma_fundamental_div_mod, lemma_multiply_divide_lt};
use crate::errors::AudioError;

verus! {

/// The target sample rate of everything downstream of the resampler.
pub const TARGET_SAMPLE_RATE: u32 = 16000;

/// How many whole interleaved frames the input holds.
pub open spec fn spec_frames(len: int, channels: int) -> int {
    len / channels
}

/// The number of output samples: input frames scaled to the target rate,
/// rounded down.
pub open spec fn spec_output_len(len: int, rate: int, channels: int) -> int {
    spec_frames(len, channels) * 16000 / rate
}

/// Sum of the first `k` channel values of one frame, each shifted by 32768
/// into the non-negative range.
pub open spec fn shifted_frame_sum(s: Seq<i16>, channels: int, frame: int, k: int) -> int
    decreases k,
{
    if k <= 0 {
        0
    } else {
        shifted_frame_sum(s, channels, frame, k - 1) + s[frame * channels + (k - 1)] + 32768
    }
}

/// The channel average of one frame, as the floor of the shifted mean,
/// shifted back.
pub open spec fn spec_mono_sample(s: Seq<i16>, channels: int, frame: int) -> int {
    shifted_frame_sum(s, channels, frame, channels) / channels - 32768
}

/// Output sample `i`: the channel average of the input frame nearest below
/// position `i * rate / 16000`.
pub open spec fn spec_resampled(s: Seq<i16>, rate: int, channels: int, i: int) -> int {
    spec_mono_sample(s, channels, i * rate / 16000)
}

/// Convert interleaved samples at `sample_rate` with `channels` channels
/// into mono 16 kHz samples.  Deterministic; rejects empty input and zero
/// rates or channel counts, and otherwise returns exactly the nearest-sample
/// conversion of the channel-averaged input.
#[verifier::loop_isolation(false)]
pub fn resample_to_16k(samples: &Vec<i16>, sample_rate: u32, channels: u16) -> (r: Result<
    Vec<i16>,
    AudioError,
>)
    requires
        samples@.len() * 16000 <= usize::MAX,
    ensures
        samples@.len() == 0 ==> r == Result::<Vec<i16>, AudioError>::Err(AudioError::EmptyInput),
        samples@.len() > 0 && sample_rate == 0 ==> r == Result::<Vec<i16>, AudioError>::Err(
            AudioError::ZeroRate,
        ),
        samples@.len() > 0 && sample_rate > 0 && channels == 0 ==> r == Result::<
            Vec<i16>,
            AudioError,
        >::Err(AudioError::ZeroChannels),
        samples@.len() > 0 && sample_rate > 0 && channels > 0 ==> {
            &&& r matches Result::Ok(out)
            &&& out@.len() == spec_output_len(
                samples@.len() as int,
                sample_rate as int,
                channels as int,
            )
            &&& forall|i: int|
                0 <= i < out@.len() ==> out@[i] == spec_resampled(
                    samples@,
                    sample_rate as int,
                    channels as int,
                    i,
                )
        },
{
    if samples.len() == 0 {
        return Result::Err(AudioError::EmptyInput);
    }
    if sample_rate == 0 {
        return Result::Err(AudioError::ZeroRate);
    }
    if channels == 0 {
        return Result::Err(AudioError::ZeroChannels);
    }
    let len = samples.len();
    let ch = channels as usize;
    let rate = sample_rate as usize;
    let frames = len / ch;
    proof {
        lemma_fundamental_div_mod(len as int, ch as int);
        assert(frames * ch <= len) by (nonlinear_arith)
            requires
                len == ch * frames + (len as int) % (ch as int),
                0 <= (len as int) % (ch as int),
        ;
        assert(frames * 16000 <= len * 16000) by (nonlinear_arith)
            requires
                frames <= len,
        ;
    }
    let scaled = frames * 16000;
    let out_len = scaled / rate;
    proof {
        lemma_fundamental_div_mod(scaled as int, rate as int);
        assert(out_len * rate <= scaled) by (nonlinear_arith)
            requires
                scaled == rate * out_len + (scaled as int) % (rate as int),
                0 <= (scaled as int) % (rate as int),
        ;
    }
    let mut out: Vec<i16> = Vec::new();
    let mut i: usize = 0;
    while i < out_len
        invariant
            i <= out_len,
            out@.len() == i,
            forall|j: int|
                0 <= j < i ==> out@[j] == spec_resampled(
                    samples@,
                    sample_rate as int,
                    channels as int,
                    j,
                ),
        decreases out_len - i,
    {
        // The source frame of output sample i, always within the input.
        proof {
            assert(i * rate + rate == (i + 1) * rate) by (nonlinear_arith);
            assert((i + 1) * rate <= out_len * rate) by (nonlinear_arith)
                requires
                    i + 1 <= out_len,
                    rate >= 0,
            ;
        }
        let pos = i * rate;
        let frame = pos / 16000;
        proof {
            assert(pos < 16000 * frames);
            lemma_multiply_divide_lt(pos as int, 16000, frames as int);
            assert(frame < frames);
            assert((frame + 1) * ch <= frames * ch) by (nonlinear_arith)
                requires
                    frame + 1 <= frames,
                    ch >= 0,
            ;
            assert(frame * ch + ch == (frame + 1) * ch) by (nonlinear_arith);
        }
        let base = frame * ch;
        // Average the channels of that frame, shifted to stay non-negative.
        let mut acc: u64 = 0;
        let mut j: usize = 0;
        while j < ch
            invariant
                j <= ch,
                base + ch <= len,
                acc == shifted_frame_sum(samples@, ch as int, frame as int, j as int),
                acc <= j * 65535,
            decreases ch - j,
        {
            let v = samples[base + j];
            acc = acc + ((v as i64 + 32768) as u64);
            j = j + 1;
            proof {
                assert((j - 1) * 65535 + 65535 == j * 65535) by (nonlinear_arith);
            }
        }
        let avg = acc / (ch as u64);
        proof {
            assert(acc < (ch as u64) * 65536) by (nonlinear_arith)
                requires
                    acc <= ch * 65535,
                    ch >= 1,
            ;
            lemma_multiply_divide_lt(acc as int, ch as int, 65536);
            assert(avg <= 65535);
        }
        let mono = (avg as i64 - 32768) as i16;
        out.push(mono);
        i = i + 1;
    }
    Result::Ok(out)
}

} // verus!
