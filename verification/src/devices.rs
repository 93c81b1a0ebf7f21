//! Audio input device listing: filtering out virtual devices and cleaning
//! names for display.
//!
//! Enumerating the hardware is the platform layer's job; it hands this
//! module the raw device descriptions, and everything after that — which
//! devices are real microphones and how their names read — is verified.

use vstd::prelude::*;
use crate::errors::AudioError;
use crate::text::{
    contains_ci,
    eq_ci,
    find_first,
    spec_contains_ci,
    spec_eq_ci,
    spec_find,
};

verus! {

/// Information about an available audio input device.
#[derive(Debug, Clone, PartialEq, Eq)]
pub struct AudioDeviceInfo {
    /// Device name as reported by the system (used for selection).
    pub name: String,
    /// Cleaned-up display name for UI (None = use name).
    pub display_name: Option<String>,
    /// Whether this is the default input device.
    pub is_default: bool,
    /// Device form factor, where the platform reports one.
    pub form_factor: Option<String>,
    /// Device bus type, where the platform reports one.
    pub bus: Option<String>,
    /// True if this is a monitor source (loopback from output, not a real
    /// mic).
    pub is_monitor: bool,
}

/// A device as reported by the platform layer: its raw name and whether it
/// is the system default.
#[derive(Debug, Clone, PartialEq, Eq)]
pub struct RawInputDevice {
    /// The name the system reports.
    pub name: String,
    /// Whether this is the default input device.
    pub is_default: bool,
}

/// Whether a device name denotes a virtual or null device rather than a
/// real microphone: null/dummy sinks, output monitors, and the sound
/// server's own device.
pub open spec fn spec_is_virtual(name: Seq<char>) -> bool {
    ||| spec_contains_ci(name, "discard all samples"@)
    ||| spec_contains_ci(name, "generate zero samples"@)
    ||| spec_contains_ci(name, "null"@)
    ||| (spec_contains_ci(name, "output"@) && spec_contains_ci(name, "monitor"@))
    ||| spec_eq_ci(name, "pipewire sound server"@)
}

/// Whether a device should be filtered out as virtual.
pub fn is_virtual_device(name: &str) -> (r: bool)
    ensures
        r == spec_is_virtual(name@),
{
    if contains_ci(name, "discard all samples") {
        return true;
    }
    if contains_ci(name, "generate zero samples") {
        return true;
    }
    if contains_ci(name, "null") {
        return true;
    }
    if contains_ci(name, "output") && contains_ci(name, "monitor") {
        return true;
    }
    if eq_ci(name, "pipewire sound server") {
        return true;
    }
    false
}

/// `s` cut at the first occurrence of `suffix`, if there is one.
pub open spec fn spec_strip(s: Seq<char>, suffix: Seq<char>) -> Seq<char> {
    if spec_find(s, suffix) >= 0 {
        s.subrange(0, spec_find(s, suffix))
    } else {
        s
    }
}

/// The length of `s` once trailing commas and spaces are removed.
pub open spec fn spec_trim_end_len(s: Seq<char>) -> int
    decreases s.len(),
{
    if s.len() == 0 {
        0
    } else if s.last() == ',' || s.last() == ' ' {
        spec_trim_end_len(s.drop_last())
    } else {
        s.len() as int
    }
}

/// The name after the verbose suffixes are cut, each in turn, and trailing
/// commas and spaces are trimmed.
pub open spec fn spec_stripped_name(name: Seq<char>) -> Seq<char> {
    let a = spec_strip(name, " (currently PipeWire Media Server)"@);
    let b = spec_strip(a, " (currently PulseAudio)"@);
    let c = spec_strip(b, " Analog Stereo"@);
    let d = spec_strip(c, " Digital Stereo"@);
    let e = spec_strip(d, " Stereo"@);
    let f = spec_strip(e, " Mono"@);
    f.subrange(0, spec_trim_end_len(f))
}

/// The display name of a device: the stripped name, or the original where
/// stripping leaves nothing.
pub open spec fn spec_clean_device_name(name: Seq<char>) -> Seq<char> {
    if spec_stripped_name(name).len() == 0 {
        name
    } else {
        spec_stripped_name(name)
    }
}

/// Cut `s` at the first occurrence of `suffix`.
fn strip_suffix_at<'a>(s: &'a str, suffix: &str) -> (r: &'a str)
    ensures
        r@ == spec_strip(s@, suffix@),
{
    match find_first(s, suffix) {
        Option::Some(pos) => s.substring_char(0, pos),
        Option::None => s,
    }
}

/// Clean a raw device name for display: drop known verbose suffixes, trim
/// trailing commas and spaces, and fall back to the raw name when nothing
/// is left.
pub fn clean_device_name(name: &str) -> (r: String)
    ensures
        r@ == spec_clean_device_name(name@),
{
    let a = strip_suffix_at(name, " (currently PipeWire Media Server)");
    let b = strip_suffix_at(a, " (currently PulseAudio)");
    let c = strip_suffix_at(b, " Analog Stereo");
    let d = strip_suffix_at(c, " Digital Stereo");
    let e = strip_suffix_at(d, " Stereo");
    let f = strip_suffix_at(e, " Mono");
    let flen = f.unicode_len();
    proof {
        assert(f@.subrange(0, flen as int) =~= f@);
    }
    let mut end: usize = flen;
    while end > 0
        invariant_except_break
            end <= flen,
            flen == f@.len(),
            spec_trim_end_len(f@) == spec_trim_end_len(f@.subrange(0, end as int)),
        ensures
            end <= flen,
            flen == f@.len(),
            spec_trim_end_len(f@) == spec_trim_end_len(f@.subrange(0, end as int)),
            end == 0 || (f@[end - 1] != ',' && f@[end - 1] != ' '),
        decreases end,
    {
        let ch = f.get_char(end - 1);
        if ch != ',' && ch != ' ' {
            break;
        }
        end = end - 1;
        proof {
            assert(f@.subrange(0, end + 1).drop_last() =~= f@.subrange(0, end as int));
        }
    }
    proof {
        if end > 0 {
            assert(f@.subrange(0, end as int).last() == f@[end - 1]);
        }
        assert(spec_trim_end_len(f@.subrange(0, end as int)) == end);
    }
    let trimmed = f.substring_char(0, end);
    if end == 0 {
        name.to_owned()
    } else {
        trimmed.to_owned()
    }
}

/// The devices kept by the filter, as (name, is_default) pairs in order.
pub open spec fn spec_kept_devices(devs: Seq<(Seq<char>, bool)>) -> Seq<(Seq<char>, bool)>
    decreases devs.len(),
{
    if devs.len() == 0 {
        Seq::empty()
    } else {
        let rest = spec_kept_devices(devs.drop_last());
        if spec_is_virtual(devs.last().0) {
            rest
        } else {
            rest + seq![devs.last()]
        }
    }
}

impl RawInputDevice {
    /// The mathematical image of this device.
    pub open spec fn model(self) -> (Seq<char>, bool) {
        (self.name@, self.is_default)
    }
}

/// The mathematical image of a raw device list.
pub open spec fn raw_models(devs: Seq<RawInputDevice>) -> Seq<(Seq<char>, bool)> {
    Seq::new(devs.len(), |i: int| devs[i].model())
}

/// Turn the platform's raw device list into the devices the pipeline
/// offers: virtual devices are dropped, every kept device carries a cleaned
/// display name, and an empty result is an error rather than a silent empty
/// list.
#[verifier::loop_isolation(false)]
pub fn list_audio_devices(devices: &Vec<RawInputDevice>) -> (r: Result<
    Vec<AudioDeviceInfo>,
    AudioError,
>)
    ensures
        ({
            let kept = spec_kept_devices(raw_models(devices@));
            &&& kept.len() == 0 ==> r == Result::<Vec<AudioDeviceInfo>, AudioError>::Err(
                AudioError::NoDevices,
            )
            &&& kept.len() > 0 ==> (r matches Result::Ok(out) && out@.len() == kept.len()
                && (forall|k: int|
                0 <= k < kept.len() ==> {
                    &&& (#[trigger] out@[k]).name@ == kept[k].0
                    &&& out@[k].is_default == kept[k].1
                    &&& out@[k].display_name matches Option::Some(d) && d@
                        == spec_clean_device_name(kept[k].0)
                    &&& out@[k].form_factor is None
                    &&& out@[k].bus is None
                    &&& out@[k].is_monitor == false
                }))
        }),
{
    let mut out: Vec<AudioDeviceInfo> = Vec::new();
    let mut i: usize = 0;
    while i < devices.len()
        invariant
            i <= devices@.len(),
            ({
                let kept = spec_kept_devices(raw_models(devices@.subrange(0, i as int)));
                &&& out@.len() == kept.len()
                &&& forall|k: int|
                    0 <= k < kept.len() ==> {
                        &&& (#[trigger] out@[k]).name@ == kept[k].0
                        &&& out@[k].is_default == kept[k].1
                        &&& out@[k].display_name matches Option::Some(d) && d@
                            == spec_clean_device_name(kept[k].0)
                        &&& out@[k].form_factor is None
                        &&& out@[k].bus is None
                        &&& out@[k].is_monitor == false
                    }
            }),
        decreases devices@.len() - i,
    {
        let dev = &devices[i];
        if !is_virtual_device(dev.name.as_str()) {
            let display = clean_device_name(dev.name.as_str());
            out.push(
                AudioDeviceInfo {
                    name: dev.name.clone(),
                    display_name: Option::Some(display),
                    is_default: dev.is_default,
                    form_factor: Option::None,
                    bus: Option::None,
                    is_monitor: false,
                },
            );
        }
        i = i + 1;
        proof {
            assert(raw_models(devices@.subrange(0, i as int)).drop_last() =~= raw_models(
                devices@.subrange(0, i - 1),
            ));
        }
    }
    proof {
        assert(devices@.subrange(0, devices@.len() as int) =~= devices@);
    }
    if out.len() == 0 {
        return Result::Err(AudioError::NoDevices);
    }
    Result::Ok(out)
}

} // verus!
