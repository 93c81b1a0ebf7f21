//! Voice-activity detection: classifies frames as speech or silence.
//!
//! The detector has two states.  Moving from `Silence` to `Speech` requires
//! `activation_frames` consecutive frames whose level exceeds the
//! configured threshold (default 500 of 1000, i.e. 0.5), which keeps
//! rapid toggling away on short bursts; the run length is 3 frames by default.
//! A single frame at or below the threshold returns the detector to `Silence`
//! and resets the run.  Frame levels and the threshold are expressed in
//! thousandths (0 = silence, 1000 = loud speech).  When disabled, the detector
//! is a pass-through that always reports `Speech`.

use vstd::prelude::*;

verus! {

/// Default speech threshold, in thousandths.
pub const DEFAULT_VAD_THRESHOLD_PERMILLE: u32 = 500;

/// Default number of consecutive loud frames required to enter `Speech`.
pub const DEFAULT_VAD_ACTIVATION_FRAMES: u32 = 3;

/// The detector's two states.
#[derive(Debug, Clone, Copy, PartialEq, Eq, Structural)]
pub enum VadState {
    /// No speech detected.
    Silence,
    /// Speech detected.
    Speech,
}

/// Configuration of the detector.
#[derive(Debug, Clone, Copy, PartialEq, Eq, Structural)]
pub struct VadConfig {
    /// Whether the detector is active at all.
    pub enabled: bool,
    /// Frames strictly above this level (in thousandths) count as loud.
    pub threshold_permille: u32,
    /// How many consecutive loud frames enter `Speech` from `Silence`.
    pub activation_frames: u32,
}

impl VadConfig {
    /// A usable configuration: at least one frame must be required.
    pub open spec fn wf(self) -> bool {
        1 <= self.activation_frames
    }
}

impl Default for VadConfig {
    /// Disabled by default (all audio passes), threshold 0.5, three-frame
    /// activation run.
    fn default() -> (c: Self)
        ensures
            c == (VadConfig { enabled: false, threshold_permille: 500, activation_frames: 3 }),
            c.wf(),
    {
        VadConfig { enabled: false, threshold_permille: 500, activation_frames: 3 }
    }
}

/// One detector transition: the next state and loud-run length after a frame of
/// the given loudness.
pub open spec fn spec_vad_step(c: VadConfig, state: VadState, run: int, loud: bool) -> (
    VadState,
    int,
) {
    if !c.enabled {
        (state, run)
    } else if loud {
        let next_run = if run + 1 < c.activation_frames {
            run + 1
        } else {
            c.activation_frames as int
        };
        let next_state = if state == VadState::Silence && next_run >= c.activation_frames {
            VadState::Speech
        } else {
            state
        };
        (next_state, next_run)
    } else {
        (VadState::Silence, 0)
    }
}

/// The detector state after `k` consecutive loud frames.
pub open spec fn spec_vad_loud_steps(c: VadConfig, state: VadState, run: int, k: int) -> (
    VadState,
    int,
)
    decreases k,
{
    if k <= 0 {
        (state, run)
    } else {
        let prev = spec_vad_loud_steps(c, state, run, k - 1);
        spec_vad_step(c, prev.0, prev.1, true)
    }
}

/// Law: with the detector enabled, a burst of fewer than `activation_frames`
/// consecutive loud frames starting from fresh silence never reports
/// speech, so short bursts cannot flip the detector.
pub proof fn lemma_short_burst_stays_silent(c: VadConfig, k: int)
    requires
        c.wf(),
        c.enabled,
        0 <= k < c.activation_frames,
    ensures
        spec_vad_loud_steps(c, VadState::Silence, 0, k) == (VadState::Silence, k),
    decreases k,
{
    if k > 0 {
        lemma_short_burst_stays_silent(c, k - 1);
    }
}

/// The voice-activity detector.
#[derive(Debug, Clone, Copy, PartialEq, Eq, Structural)]
pub struct VadProcessor {
    /// The detector's configuration, fixed per session.
    pub config: VadConfig,
    /// The current state.
    pub state: VadState,
    /// The current count of consecutive loud frames, capped at
    /// `activation_frames`.
    pub run: u32,
}

impl VadProcessor {
    /// The run count never exceeds the activation requirement.
    pub open spec fn wf(self) -> bool {
        &&& self.config.wf()
        &&& self.run <= self.config.activation_frames
    }

    /// A fresh detector, starting in silence.
    pub fn new(config: VadConfig) -> (p: Self)
        requires
            config.wf(),
        ensures
            p == (VadProcessor { config, state: VadState::Silence, run: 0u32 }),
            p.wf(),
    {
        VadProcessor { config, state: VadState::Silence, run: 0 }
    }

    /// Feed one frame's level (in thousandths) and report the detector's state
    /// for it: exactly the step of the documented transition relation.
    pub fn process_frame(&mut self, level_permille: u32) -> (s: VadState)
        requires
            old(self).wf(),
        ensures
            final(self).wf(),
            final(self).config == old(self).config,
            !old(self).config.enabled ==> s == VadState::Speech && *final(self) == *old(self),
            old(self).config.enabled ==> ({
                let step = spec_vad_step(
                    old(self).config,
                    old(self).state,
                    old(self).run as int,
                    level_permille > old(self).config.threshold_permille,
                );
                &&& final(self).state == step.0
                &&& final(self).run == step.1
                &&& s == step.0
            }),
    {
        if !self.config.enabled {
            return VadState::Speech;
        }
        if level_permille > self.config.threshold_permille {
            if self.run < self.config.activation_frames - 1 {
                self.run = self.run + 1;
            } else {
                self.run = self.config.activation_frames;
            }
            if matches!(self.state, VadState::Silence) && self.run >= self.config.activation_frames
            {
                self.state = VadState::Speech;
            }
        } else {
            self.run = 0;
            self.state = VadState::Silence;
        }
        self.state
    }
}

} // verus!
