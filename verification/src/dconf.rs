//! Reading shortcuts from a GNOME dconf dump.
//!
//! Running `dconf dump` is the caller's job; this module parses the dump
//! text it hands over: the portal's global-shortcuts section for a
//! `toggle-recording` binding, and the media-keys custom keybindings for
//! one whose command toggles this application.  GVariant-format shortcuts
//! such as `<Control><Alt>m` are converted to the human-readable
//! `Ctrl+Alt+M`.

use vstd::prelude::*;
use crate::text::{
    ascii_upper_char,
    contains_ci,
    find_first,
    matches_here,
    match_at,
    push_char,
    replace_all,
    rfind_char,
    spec_contains,
    spec_contains_ci,
    spec_find,
    spec_replace_all,
    spec_rfind_char,
    spec_upper_seq,
};

verus! {

/// The GVariant modifier tags spelled out as key prefixes.
pub open spec fn spec_modifiers_replaced(raw: Seq<char>) -> Seq<char> {
    spec_replace_all(
        spec_replace_all(
            spec_replace_all(spec_replace_all(raw, "<Control>"@, "Ctrl+"@), "<Alt>"@, "Alt+"@),
            "<Shift>"@,
            "Shift+"@,
        ),
        "<Super>"@,
        "Super+"@,
    )
}

/// A GVariant shortcut in human-readable form: modifier tags spelled out,
/// and the final key (after the last `+`, or the whole string where there
/// is none) upper-cased.
pub open spec fn spec_convert_gvariant(raw: Seq<char>) -> Seq<char> {
    let conv = spec_modifiers_replaced(raw);
    let p = spec_rfind_char(conv, '+');
    if p >= 0 {
        conv.subrange(0, p + 1) + spec_upper_seq(conv.subrange(p + 1, conv.len() as int))
    } else {
        spec_upper_seq(conv)
    }
}

/// Convert a GVariant shortcut such as `<Control><Alt>m` to `Ctrl+Alt+M`.
#[verifier::loop_isolation(false)]
pub fn convert_gvariant_shortcut(raw: &str) -> (r: String)
    ensures
        r@ == spec_convert_gvariant(raw@),
{
    proof {
        reveal_strlit("<Control>");
        reveal_strlit("<Alt>");
        reveal_strlit("<Shift>");
        reveal_strlit("<Super>");
    }
    let a = replace_all(raw, "<Control>", "Ctrl+");
    let b = replace_all(a.as_str(), "<Alt>", "Alt+");
    let c = replace_all(b.as_str(), "<Shift>", "Shift+");
    let converted = replace_all(c.as_str(), "<Super>", "Super+");
    let clen = converted.as_str().unicode_len();
    let start: usize = match rfind_char(converted.as_str(), '+') {
        Option::Some(p) => p + 1,
        Option::None => 0,
    };
    let mut out = String::new();
    let prefix = converted.as_str().substring_char(0, start);
    out.append(prefix);
    let mut i: usize = start;
    while i < clen
        invariant
            start <= i <= clen,
            out@ == converted@.subrange(0, start as int) + spec_upper_seq(
                converted@.subrange(start as int, i as int),
            ),
        decreases clen - i,
    {
        push_char(&mut out, ascii_upper_char(converted.as_str().get_char(i)));
        i = i + 1;
        proof {
            assert(out@ =~= converted@.subrange(0, start as int) + spec_upper_seq(
                converted@.subrange(start as int, i as int),
            ));
        }
    }
    proof {
        if start == 0 {
            assert(converted@.subrange(0, clen as int) =~= converted@);
            assert(out@ =~= spec_upper_seq(converted@));
        } else {
            assert(out@ =~= spec_convert_gvariant(raw@));
        }
    }
    out
}

/// The portal shortcut found in one dump line, if any: the line must
/// mention `toggle-recording` and `shortcuts`, and hold a GVariant list
/// `<['...']>`, whose content is converted.
pub open spec fn spec_portal_from_line(line: Seq<char>) -> Option<Seq<char>> {
    if !(spec_contains(line, "toggle-recording"@) && spec_contains(line, "shortcuts"@)) {
        Option::None
    } else {
        let a = spec_find(line, "<['"@);
        if a < 0 {
            Option::None
        } else {
            let b = spec_find(line.subrange(a, line.len() as int), "']>"@);
            if b < 3 {
                Option::None
            } else {
                Option::Some(spec_convert_gvariant(line.subrange(a + 3, a + b)))
            }
        }
    }
}

/// The portal shortcut found in a whole dump: the first line that yields
/// one.
pub open spec fn spec_portal_from_dump(dump: Seq<char>) -> Option<Seq<char>>
    decreases dump.len(),
{
    let nl = spec_find(dump, "\n"@);
    if nl < 0 || nl + 1 > dump.len() {
        spec_portal_from_line(dump)
    } else {
        let line = dump.subrange(0, nl);
        if spec_portal_from_line(line) is Some {
            spec_portal_from_line(line)
        } else {
            spec_portal_from_dump(dump.subrange(nl + 1, dump.len() as int))
        }
    }
}

/// Examine one dump line for a portal `toggle-recording` binding.
fn portal_from_line(line: &str) -> (r: Option<String>)
    ensures
        r matches Option::Some(s) ==> spec_portal_from_line(line@) == Option::Some(s@),
        r is None ==> spec_portal_from_line(line@) is None,
{
    proof {
        reveal_strlit("<['");
        reveal_strlit("']>");
    }
    if !(contains_plain(line, "toggle-recording") && contains_plain(line, "shortcuts")) {
        return Option::None;
    }
    let a = match find_first(line, "<['") {
        Option::Some(a) => a,
        Option::None => {
            return Option::None;
        },
    };
    let llen = line.unicode_len();
    let tail = line.substring_char(a, llen);
    let b = match find_first(tail, "']>") {
        Option::Some(b) => b,
        Option::None => {
            return Option::None;
        },
    };
    if b < 3 {
        return Option::None;
    }
    let raw = line.substring_char(a + 3, a + b);
    Option::Some(convert_gvariant_shortcut(raw))
}

/// Case-sensitive containment.
fn contains_plain(hay: &str, needle: &str) -> (r: bool)
    ensures
        r == spec_contains(hay@, needle@),
{
    match find_first(hay, needle) {
        Option::Some(_) => true,
        Option::None => {
            proof {
                if spec_contains(hay@, needle@) {
                    let i = choose|i: int| match_at(hay@, needle@, i);
                    lemma_find_from_finds(hay@, needle@, 0, i);
                }
            }
            false
        },
    }
}

/// Where some occurrence exists at or after `j`, the scan from `j` finds
/// one.
proof fn lemma_find_from_finds(hay: Seq<char>, needle: Seq<char>, j: int, i: int)
    requires
        0 <= j <= i,
        match_at(hay, needle, i),
    ensures
        crate::text::spec_find_from(hay, needle, j) >= 0,
    decreases i - j,
{
    if j < i && !match_at(hay, needle, j) {
        lemma_find_from_finds(hay, needle, j + 1, i);
    }
}

/// Read the portal's `toggle-recording` shortcut from a dconf dump of the
/// global-shortcuts section, in a form like `Ctrl+Alt+M`.
#[verifier::loop_isolation(false)]
pub fn read_portal_shortcut_from_dconf(dump: &str) -> (r: Option<String>)
    ensures
        r matches Option::Some(s) ==> spec_portal_from_dump(dump@) == Option::Some(s@),
        r is None ==> spec_portal_from_dump(dump@) is None,
{
    let mut rest: &str = dump;
    proof {
        reveal_strlit("\n");
    }
    loop
        invariant
            spec_portal_from_dump(dump@) == spec_portal_from_dump(rest@),
        decreases rest@.len(),
    {
        let rlen = rest.unicode_len();
        match find_first(rest, "\n") {
            Option::None => {
                return portal_from_line(rest);
            },
            Option::Some(nl) => {
                let line = rest.substring_char(0, nl);
                match portal_from_line(line) {
                    Option::Some(s) => {
                        return Option::Some(s);
                    },
                    Option::None => {
                        rest = rest.substring_char(nl + 1, rlen);
                    },
                }
            },
        }
    }
}


/// Whether `s` begins with `prefix`.
pub open spec fn spec_starts_with(s: Seq<char>, prefix: Seq<char>) -> bool {
    match_at(s, prefix, 0)
}

/// Whether `s` begins with `prefix`.
fn starts_with(s: &str, prefix: &str) -> (r: bool)
    ensures
        r == spec_starts_with(s@, prefix@),
{
    let sn = s.unicode_len();
    let pn = prefix.unicode_len();
    if pn > sn {
        return false;
    }
    matches_here(s, prefix, 0)
}

/// The number of leading quote characters of `s`.
pub open spec fn spec_quote_prefix_len(s: Seq<char>) -> int
    decreases s.len(),
{
    if s.len() == 0 {
        0
    } else if s[0] == '\'' || s[0] == '"' {
        1 + spec_quote_prefix_len(s.subrange(1, s.len() as int))
    } else {
        0
    }
}

/// The length of `s` once trailing quote characters are removed.
pub open spec fn spec_quote_trim_end(s: Seq<char>) -> int
    decreases s.len(),
{
    if s.len() == 0 {
        0
    } else if s.last() == '\'' || s.last() == '"' {
        spec_quote_trim_end(s.drop_last())
    } else {
        s.len() as int
    }
}

/// `s` with quote characters trimmed from both ends (matching the usual
/// trim: first the ends are trimmed independently, never past each other).
pub open spec fn spec_trim_quotes(s: Seq<char>) -> Seq<char> {
    let a = spec_quote_prefix_len(s);
    let b = spec_quote_trim_end(s);
    if a <= b {
        s.subrange(a, b)
    } else {
        Seq::empty()
    }
}

/// Trim `'` and `"` from both ends of `s`.
fn trim_quotes<'a>(s: &'a str) -> (r: &'a str)
    ensures
        r@ == spec_trim_quotes(s@),
{
    let n = s.unicode_len();
    proof {
        assert(s@.subrange(0, n as int) =~= s@);
    }
    let mut a: usize = 0;
    while a < n
        invariant_except_break
            a <= n,
            n == s@.len(),
            spec_quote_prefix_len(s@) == a + spec_quote_prefix_len(s@.subrange(a as int, n as int)),
        ensures
            a <= n,
            n == s@.len(),
            spec_quote_prefix_len(s@) == a + spec_quote_prefix_len(s@.subrange(a as int, n as int)),
            a == n || (s@[a as int] != '\'' && s@[a as int] != '"'),
        decreases n - a,
    {
        let ch = s.get_char(a);
        if ch != '\'' && ch != '"' {
            break;
        }
        a = a + 1;
        proof {
            assert(s@.subrange(a - 1, n as int).subrange(1, n - a + 1) =~= s@.subrange(
                a as int,
                n as int,
            ));
        }
    }
    proof {
        if a == n {
            assert(s@.subrange(a as int, n as int).len() == 0);
        }
        assert(spec_quote_prefix_len(s@) == a);
    }
    proof {
        assert(s@.subrange(0, n as int) =~= s@);
    }
    let mut b: usize = n;
    while b > 0
        invariant_except_break
            b <= n,
            n == s@.len(),
            spec_quote_trim_end(s@) == spec_quote_trim_end(s@.subrange(0, b as int)),
        ensures
            b <= n,
            n == s@.len(),
            spec_quote_trim_end(s@) == spec_quote_trim_end(s@.subrange(0, b as int)),
            b == 0 || (s@[b - 1] != '\'' && s@[b - 1] != '"'),
        decreases b,
    {
        let ch = s.get_char(b - 1);
        if ch != '\'' && ch != '"' {
            break;
        }
        b = b - 1;
        proof {
            assert(s@.subrange(0, b + 1).drop_last() =~= s@.subrange(0, b as int));
        }
    }
    proof {
        if b > 0 {
            assert(s@.subrange(0, b as int).last() == s@[b - 1]);
        }
        assert(spec_quote_trim_end(s@.subrange(0, b as int)) == b);
        assert(spec_quote_trim_end(s@) == b);
    }
    if a <= b {
        s.substring_char(a, b)
    } else {
        proof {
            assert(s@.subrange(0, 0) =~= Seq::<char>::empty());
        }
        s.substring_char(0, 0)
    }
}

/// The scan state of the custom-keybindings dump: the binding of the
/// current section, and whether the section's command toggles this
/// application.
pub open spec fn spec_gnome_update(
    line: Seq<char>,
    binding: Option<Seq<char>>,
    found: bool,
) -> (Option<Seq<char>>, bool) {
    if spec_starts_with(line, "binding='"@) {
        let rest = line.subrange(9, line.len() as int);
        if rest.len() > 0 && rest.last() == '\'' {
            (Option::Some(rest.drop_last()), found)
        } else {
            (Option::None, found)
        }
    } else if spec_starts_with(line, "command="@) {
        let cmd = spec_trim_quotes(line.subrange(8, line.len() as int));
        (
            binding,
            found || (spec_contains_ci(cmd, "whis"@) && spec_contains(cmd, "--toggle"@)),
        )
    } else {
        (binding, found)
    }
}

/// What one line contributes to the scan: a new-section marker either
/// resolves the previous section or resets the state; any other line
/// updates the state.
pub open spec fn spec_gnome_line_is_section(line: Seq<char>) -> bool {
    line.len() > 0 && line[0] == '['
}

/// The scan's verdict once every line is consumed.
pub open spec fn spec_gnome_finish(binding: Option<Seq<char>>, found: bool) -> Option<Seq<char>> {
    if found && binding is Some {
        Option::Some(spec_convert_gvariant(binding->0))
    } else {
        Option::None
    }
}

/// The custom shortcut found in a dump, scanning from the given state.
pub open spec fn spec_gnome_scan(
    dump: Seq<char>,
    binding: Option<Seq<char>>,
    found: bool,
) -> Option<Seq<char>>
    decreases dump.len(),
{
    let nl = spec_find(dump, "\n"@);
    if nl < 0 || nl + 1 > dump.len() {
        if spec_gnome_line_is_section(dump) {
            spec_gnome_finish(binding, found)
        } else {
            let st = spec_gnome_update(dump, binding, found);
            spec_gnome_finish(st.0, st.1)
        }
    } else {
        let line = dump.subrange(0, nl);
        let rest = dump.subrange(nl + 1, dump.len() as int);
        if spec_gnome_line_is_section(line) {
            if spec_gnome_finish(binding, found) is Some {
                spec_gnome_finish(binding, found)
            } else {
                spec_gnome_scan(rest, Option::None, false)
            }
        } else {
            let st = spec_gnome_update(line, binding, found);
            spec_gnome_scan(rest, st.0, st.1)
        }
    }
}

/// Apply one non-section line to the scan state.
fn gnome_update_state(line: &str, binding: Option<String>, found: bool) -> (r: (
    Option<String>,
    bool,
))
    ensures
        ({
            let bview = match binding {
                Option::Some(b) => Option::Some(b@),
                Option::None => Option::<Seq<char>>::None,
            };
            let st = spec_gnome_update(line@, bview, found);
            &&& (match r.0 {
                Option::Some(b) => Option::Some(b@),
                Option::None => Option::<Seq<char>>::None,
            }) == st.0
            &&& r.1 == st.1
        }),
{
    proof {
        reveal_strlit("binding='");
        reveal_strlit("command=");
    }
    let llen = line.unicode_len();
    if starts_with(line, "binding='") {
        let rest = line.substring_char(9, llen);
        let rlen = rest.unicode_len();
        if rlen > 0 && rest.get_char(rlen - 1) == '\'' {
            proof {
                assert(rest@.subrange(0, rlen - 1) =~= rest@.drop_last());
            }
            return (Option::Some(rest.substring_char(0, rlen - 1).to_owned()), found);
        }
        return (Option::None, found);
    }
    if starts_with(line, "command=") {
        let cmd = trim_quotes(line.substring_char(8, llen));
        let hit = contains_ci(cmd, "whis") && contains_plain(cmd, "--toggle");
        return (binding, found || hit);
    }
    (binding, found)
}

/// Read a custom GNOME Settings shortcut whose command toggles this
/// application, from a dconf dump of the media-keys custom keybindings, in
/// a form like `Ctrl+Alt+F`.
#[verifier::loop_isolation(false)]
pub fn read_gnome_custom_shortcut(dump: &str) -> (r: Option<String>)
    ensures
        r matches Option::Some(s) ==> spec_gnome_scan(dump@, Option::None, false) == Option::Some(
            s@,
        ),
        r is None ==> spec_gnome_scan(dump@, Option::None, false) is None,
{
    proof {
        reveal_strlit("\n");
    }
    let mut rest: &str = dump;
    let mut binding: Option<String> = Option::None;
    let mut found: bool = false;
    loop
        invariant
            spec_gnome_scan(dump@, Option::None, false) == spec_gnome_scan(
                rest@,
                match binding {
                    Option::Some(b) => Option::Some(b@),
                    Option::None => Option::<Seq<char>>::None,
                },
                found,
            ),
        decreases rest@.len(),
    {
        let rlen = rest.unicode_len();
        let (line, next, last): (&str, &str, bool) = match find_first(rest, "\n") {
            Option::None => (rest, rest, true),
            Option::Some(nl) => (
                rest.substring_char(0, nl),
                rest.substring_char(nl + 1, rlen),
                false,
            ),
        };
        let is_section = line.unicode_len() > 0 && line.get_char(0) == '[';
        if is_section {
            if found {
                match binding {
                    Option::Some(b) => {
                        return Option::Some(convert_gvariant_shortcut(b.as_str()));
                    },
                    Option::None => {},
                }
            }
            if last {
                return Option::None;
            }
            binding = Option::None;
            found = false;
            rest = next;
        } else {
            let st = gnome_update_state(line, binding, found);
            binding = st.0;
            found = st.1;
            if last {
                match binding {
                    Option::Some(b) => {
                        if found {
                            return Option::Some(convert_gvariant_shortcut(b.as_str()));
                        }
                        return Option::None;
                    },
                    Option::None => {
                        return Option::None;
                    },
                }
            }
            rest = next;
        }
    }
}

} // verus!

