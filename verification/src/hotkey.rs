//! Push-to-talk hotkey support: events and combination validation.
//!
//! Listening for key events is platform work; what a hotkey string means
//! is decided here.  A valid combination is one or more modifier names
//! followed by a key, joined with `+`, compared without regard to ASCII
//! case: `ctrl+alt+w`, `super+shift+r`, `cmd+option+w`.  The normalized
//! form is the combination in lower case.

use vstd::prelude::*;
use crate::text::{find_first, spec_find, spec_lower_seq, str_eq, to_ascii_lower};

verus! {

/// Hotkey events for push-to-talk mode.
#[derive(Debug, Clone, Copy, PartialEq, Eq, Structural)]
pub enum HotkeyEvent {
    /// Hotkey was pressed — start recording.
    Pressed,
    /// Hotkey was released — stop recording.
    Released,
}

/// Why a hotkey string was rejected.
#[derive(Debug, Clone, Copy, PartialEq, Eq, Structural)]
pub enum HotkeyError {
    /// The string is not a modifier combination followed by a key.
    Invalid,
}

/// The accepted modifier names, in lower case.
pub open spec fn spec_is_modifier(t: Seq<char>) -> bool {
    ||| t == "ctrl"@
    ||| t == "control"@
    ||| t == "alt"@
    ||| t == "option"@
    ||| t == "shift"@
    ||| t == "super"@
    ||| t == "cmd"@
    ||| t == "command"@
    ||| t == "meta"@
}

/// Whether a lower-cased, `+`-joined token list reads as zero or more
/// modifiers followed by one non-empty, non-modifier key.
pub open spec fn spec_valid_tokens(s: Seq<char>) -> bool
    decreases s.len(),
{
    let p = spec_find(s, "+"@);
    if p < 0 || p + 1 > s.len() {
        s.len() > 0 && !spec_is_modifier(s)
    } else {
        spec_is_modifier(s.subrange(0, p)) && spec_valid_tokens(s.subrange(p + 1, s.len() as int))
    }
}

/// Whether a hotkey string is valid: compared in lower case, it must hold
/// at least one `+` (so at least one modifier) and read as modifiers
/// followed by a key.
pub open spec fn spec_valid_hotkey(s: Seq<char>) -> bool {
    let low = spec_lower_seq(s);
    spec_find(low, "+"@) >= 0 && spec_valid_tokens(low)
}

/// Whether a lower-cased token is an accepted modifier name.
fn is_modifier(t: &str) -> (r: bool)
    ensures
        r == spec_is_modifier(t@),
{
    str_eq(t, "ctrl") || str_eq(t, "control") || str_eq(t, "alt") || str_eq(t, "option") || str_eq(
        t,
        "shift",
    ) || str_eq(t, "super") || str_eq(t, "cmd") || str_eq(t, "command") || str_eq(t, "meta")
}

/// Validate a hotkey string and return its normalized (lower-case) form.
/// Exactly the valid combinations are accepted.
#[verifier::loop_isolation(false)]
pub fn validate(hotkey_str: &str) -> (r: Result<String, HotkeyError>)
    ensures
        spec_valid_hotkey(hotkey_str@) ==> (r matches Result::Ok(n) && n@ == spec_lower_seq(
            hotkey_str@,
        )),
        !spec_valid_hotkey(hotkey_str@) ==> r == Result::<String, HotkeyError>::Err(
            HotkeyError::Invalid,
        ),
{
    proof {
        reveal_strlit("+");
    }
    let low = to_ascii_lower(hotkey_str);
    let mut rest: &str = low.as_str();
    let mut saw_modifier = false;
    loop
        invariant
            spec_valid_tokens(low@) == spec_valid_tokens(rest@),
            rest@ == low@ || saw_modifier,
            saw_modifier ==> spec_find(low@, "+"@) >= 0,
        decreases rest@.len(),
    {
        let rlen = rest.unicode_len();
        match find_first(rest, "+") {
            Option::None => {
                if rlen > 0 && !is_modifier(rest) && saw_modifier {
                    return Result::Ok(low);
                }
                return Result::Err(HotkeyError::Invalid);
            },
            Option::Some(p) => {
                let token = rest.substring_char(0, p);
                if !is_modifier(token) {
                    return Result::Err(HotkeyError::Invalid);
                }
                saw_modifier = true;
                rest = rest.substring_char(p + 1, rlen);
            },
        }
    }
}

} // verus!
