//! Small verified helpers over strings and characters.

use vstd::prelude::*;

verus! {

/// Character-wise string equality, proved equivalent to equality of views.
pub fn str_eq(a: &str, b: &str) -> (r: bool)
    ensures
        r == (a@ == b@),
{
    let n = a.unicode_len();
    let m = b.unicode_len();
    if n != m {
        return false;
    }
    let mut i: usize = 0;
    while i < n
        invariant
            n == a@.len() && n == b@.len(),
            i <= n,
            forall|j: int| 0 <= j < i ==> a@[j] == b@[j],
        decreases n - i,
    {
        if a.get_char(i) != b.get_char(i) {
            return false;
        }
        i = i + 1;
    }
    proof {
        assert(a@ =~= b@);
    }
    true
}

/// The character code, lower-cased for ASCII letters.
pub open spec fn lower_code(c: char) -> int {
    if 65 <= c as int <= 90 {
        c as int + 32
    } else {
        c as int
    }
}

/// Whether `needle` occurs in `hay` at position `i`, ignoring ASCII case.
pub open spec fn match_ci_at(hay: Seq<char>, needle: Seq<char>, i: int) -> bool {
    &&& 0 <= i
    &&& i + needle.len() <= hay.len()
    &&& forall|j: int| 0 <= j < needle.len() ==> lower_code(hay[i + j]) == lower_code(needle[j])
}

/// Whether `needle` occurs anywhere in `hay`, ignoring ASCII case.
pub open spec fn spec_contains_ci(hay: Seq<char>, needle: Seq<char>) -> bool {
    exists|i: int| match_ci_at(hay, needle, i)
}

/// Whether `needle` occurs in `hay` at position `i`, case-sensitively.
pub open spec fn match_at(hay: Seq<char>, needle: Seq<char>, i: int) -> bool {
    &&& 0 <= i
    &&& i + needle.len() <= hay.len()
    &&& hay.subrange(i, i + needle.len()) == needle
}

/// Whether `needle` occurs anywhere in `hay`, case-sensitively.
pub open spec fn spec_contains(hay: Seq<char>, needle: Seq<char>) -> bool {
    exists|i: int| match_at(hay, needle, i)
}

/// The lower-cased code of one character.
fn lower_code_of(c: char) -> (r: u32)
    ensures
        r == lower_code(c),
{
    let code = c as u32;
    if 65 <= code && code <= 90 {
        code + 32
    } else {
        code
    }
}

/// Whether `needle` occurs in `hay` starting at `i`, ignoring ASCII case.
#[verifier::loop_isolation(false)]
fn matches_ci_here(hay: &str, needle: &str, i: usize) -> (r: bool)
    requires
        i + needle@.len() <= hay@.len(),
    ensures
        r == match_ci_at(hay@, needle@, i as int),
{
    let hn = hay.unicode_len();
    let n = needle.unicode_len();
    let mut j: usize = 0;
    while j < n
        invariant
            j <= n,
            forall|m: int| 0 <= m < j ==> lower_code(hay@[i + m]) == lower_code(needle@[m]),
        decreases n - j,
    {
        if lower_code_of(hay.get_char(i + j)) != lower_code_of(needle.get_char(j)) {
            return false;
        }
        j = j + 1;
    }
    true
}

/// Whether `needle` occurs anywhere in `hay`, ignoring ASCII case.
#[verifier::loop_isolation(false)]
pub fn contains_ci(hay: &str, needle: &str) -> (r: bool)
    ensures
        r == spec_contains_ci(hay@, needle@),
{
    let hn = hay.unicode_len();
    let nn = needle.unicode_len();
    if nn > hn {
        return false;
    }
    if nn == 0 {
        proof {
            assert(match_ci_at(hay@, needle@, 0));
        }
        return true;
    }
    let mut i: usize = 0;
    while i <= hn - nn
        invariant
            i <= hn - nn + 1,
            forall|m: int| 0 <= m < i ==> !match_ci_at(hay@, needle@, m),
        decreases hn + 1 - nn - i,
    {
        if matches_ci_here(hay, needle, i) {
            return true;
        }
        i = i + 1;
    }
    false
}

/// Whether `needle` occurs in `hay` starting at `i`, case-sensitively.
#[verifier::loop_isolation(false)]
pub fn matches_here(hay: &str, needle: &str, i: usize) -> (r: bool)
    requires
        i + needle@.len() <= hay@.len(),
    ensures
        r == match_at(hay@, needle@, i as int),
{
    let hn = hay.unicode_len();
    let n = needle.unicode_len();
    let mut j: usize = 0;
    while j < n
        invariant
            j <= n,
            forall|m: int| 0 <= m < j ==> hay@[i + m] == needle@[m],
        decreases n - j,
    {
        if hay.get_char(i + j) != needle.get_char(j) {
            proof {
                assert(hay@.subrange(i as int, i + needle@.len())[j as int] != needle@[j as int]);
            }
            return false;
        }
        j = j + 1;
    }
    proof {
        assert(hay@.subrange(i as int, i + needle@.len()) =~= needle@);
    }
    true
}

/// Whether two strings are equal ignoring ASCII case.
pub open spec fn spec_eq_ci(a: Seq<char>, b: Seq<char>) -> bool {
    a.len() == b.len() && match_ci_at(a, b, 0)
}

/// Case-insensitive string equality.
pub fn eq_ci(a: &str, b: &str) -> (r: bool)
    ensures
        r == spec_eq_ci(a@, b@),
{
    let an = a.unicode_len();
    let bn = b.unicode_len();
    if an != bn {
        return false;
    }
    matches_ci_here(a, b, 0)
}

/// The first position at or after `i` where `needle` occurs in `hay`, or
/// -1 if there is none.
pub open spec fn spec_find_from(hay: Seq<char>, needle: Seq<char>, i: int) -> int
    decreases hay.len() + 1 - i,
{
    if i < 0 || i + needle.len() > hay.len() {
        -1
    } else if match_at(hay, needle, i) {
        i
    } else {
        spec_find_from(hay, needle, i + 1)
    }
}

/// The first position where `needle` occurs in `hay`, or -1.
pub open spec fn spec_find(hay: Seq<char>, needle: Seq<char>) -> int {
    spec_find_from(hay, needle, 0)
}

/// The first occurrence of `needle` in `hay`, if any.
#[verifier::loop_isolation(false)]
pub fn find_first(hay: &str, needle: &str) -> (r: Option<usize>)
    ensures
        r matches Option::Some(i) ==> spec_find(hay@, needle@) == i && match_at(
            hay@,
            needle@,
            i as int,
        ),
        r is None ==> spec_find(hay@, needle@) == -1,
{
    let hn = hay.unicode_len();
    let nn = needle.unicode_len();
    if nn > hn {
        return Option::None;
    }
    if nn == 0 {
        proof {
            assert(hay@.subrange(0, 0) =~= needle@);
        }
        return Option::Some(0);
    }
    let mut i: usize = 0;
    while i <= hn - nn
        invariant
            i <= hn - nn + 1,
            spec_find(hay@, needle@) == spec_find_from(hay@, needle@, i as int),
        decreases hn + 1 - nn - i,
    {
        if matches_here(hay, needle, i) {
            return Option::Some(i);
        }
        i = i + 1;
    }
    Option::None
}


/// An ASCII lowercase letter mapped to uppercase; anything else unchanged.
pub open spec fn spec_upper_char(c: char) -> char {
    if 97 <= c as int <= 122 {
        (((c as u8) - 32) as char)
    } else {
        c
    }
}

/// An ASCII uppercase letter mapped to lowercase; anything else unchanged.
pub open spec fn spec_lower_char(c: char) -> char {
    if 65 <= c as int <= 90 {
        (((c as u8) + 32) as char)
    } else {
        c
    }
}

/// A string with every ASCII letter upper-cased.
pub open spec fn spec_upper_seq(s: Seq<char>) -> Seq<char> {
    Seq::new(s.len(), |i: int| spec_upper_char(s[i]))
}

/// A string with every ASCII letter lower-cased.
pub open spec fn spec_lower_seq(s: Seq<char>) -> Seq<char> {
    Seq::new(s.len(), |i: int| spec_lower_char(s[i]))
}

/// Map an ASCII lowercase letter to uppercase; leave anything else
/// unchanged.
pub fn ascii_upper_char(c: char) -> (r: char)
    ensures
        r == spec_upper_char(c),
{
    let code = c as u32;
    if 97 <= code && code <= 122 {
        ((code - 32) as u8) as char
    } else {
        c
    }
}

/// Map an ASCII uppercase letter to lowercase; leave anything else
/// unchanged.
pub fn ascii_lower_char(c: char) -> (r: char)
    ensures
        r == spec_lower_char(c),
{
    let code = c as u32;
    if 65 <= code && code <= 90 {
        ((code + 32) as u8) as char
    } else {
        c
    }
}

/// Relies on String::push: appends exactly one character.
#[verifier::external_body]
pub fn push_char(s: &mut String, c: char)
    ensures
        final(s)@ == old(s)@ + seq![c],
{
    s.push(c);
}

/// A string with every ASCII letter lower-cased.
#[verifier::loop_isolation(false)]
pub fn to_ascii_lower(s: &str) -> (r: String)
    ensures
        r@ == spec_lower_seq(s@),
{
    let n = s.unicode_len();
    let mut out = String::new();
    let mut i: usize = 0;
    while i < n
        invariant
            i <= n,
            out@ == spec_lower_seq(s@.subrange(0, i as int)),
        decreases n - i,
    {
        push_char(&mut out, ascii_lower_char(s.get_char(i)));
        i = i + 1;
        proof {
            assert(out@ =~= spec_lower_seq(s@.subrange(0, i as int)));
        }
    }
    proof {
        assert(s@.subrange(0, n as int) =~= s@);
        assert(out@ =~= spec_lower_seq(s@));
    }
    out
}

/// The position of the last occurrence of `c` in `s`, or -1.
pub open spec fn spec_rfind_char(s: Seq<char>, c: char) -> int
    decreases s.len(),
{
    if s.len() == 0 {
        -1
    } else if s.last() == c {
        s.len() - 1
    } else {
        spec_rfind_char(s.drop_last(), c)
    }
}

/// The last occurrence of `c` in `s`, if any.
#[verifier::loop_isolation(false)]
pub fn rfind_char(s: &str, c: char) -> (r: Option<usize>)
    ensures
        r matches Option::Some(i) ==> spec_rfind_char(s@, c) == i && i < s@.len(),
        r is None ==> spec_rfind_char(s@, c) == -1,
{
    let n = s.unicode_len();
    proof {
        assert(s@.subrange(0, n as int) =~= s@);
    }
    let mut i: usize = n;
    while i > 0
        invariant
            i <= n,
            spec_rfind_char(s@, c) == spec_rfind_char(s@.subrange(0, i as int), c),
        decreases i,
    {
        if s.get_char(i - 1) == c {
            proof {
                assert(s@.subrange(0, i as int).last() == s@[i - 1]);
            }
            return Option::Some(i - 1);
        }
        i = i - 1;
        proof {
            assert(s@.subrange(0, i + 1).drop_last() =~= s@.subrange(0, i as int));
        }
    }
    Option::None
}

/// `s` with every occurrence of `from` (left to right, non-overlapping)
/// replaced by `to`.
pub open spec fn spec_replace_all(s: Seq<char>, from: Seq<char>, to: Seq<char>) -> Seq<char>
    decreases s.len(),
{
    if from.len() == 0 {
        s
    } else {
        let i = spec_find(s, from);
        if i < 0 || i + from.len() > s.len() {
            s
        } else {
            s.subrange(0, i) + to + spec_replace_all(
                s.subrange(i + from.len(), s.len() as int),
                from,
                to,
            )
        }
    }
}

/// Replace every occurrence of `from` in `s` by `to`, scanning left to
/// right without overlap.
#[verifier::loop_isolation(false)]
pub fn replace_all(s: &str, from: &str, to: &str) -> (r: String)
    requires
        from@.len() >= 1,
    ensures
        r@ == spec_replace_all(s@, from@, to@),
{
    let flen = from.unicode_len();
    let mut acc = String::new();
    let mut rest: &str = s;
    proof {
        assert(acc@ + spec_replace_all(rest@, from@, to@) =~= spec_replace_all(s@, from@, to@));
    }
    loop
        invariant
            flen == from@.len(),
            1 <= flen,
            spec_replace_all(s@, from@, to@) == acc@ + spec_replace_all(rest@, from@, to@),
        decreases rest@.len(),
    {
        match find_first(rest, from) {
            Option::None => {
                acc.append(rest);
                proof {
                    assert(acc@ =~= spec_replace_all(s@, from@, to@));
                }
                return acc;
            },
            Option::Some(i) => {
                let rlen = rest.unicode_len();
                let ghost rest0 = rest@;
                let prefix = rest.substring_char(0, i);
                acc.append(prefix);
                acc.append(to);
                rest = rest.substring_char(i + flen, rlen);
                proof {
                    assert(acc@ + spec_replace_all(rest@, from@, to@) =~= spec_replace_all(
                        s@,
                        from@,
                        to@,
                    ));
                }
            },
        }
    }
}


/// The decimal digits of `n`, most significant first.
pub open spec fn spec_decimal(n: nat) -> Seq<char>
    decreases n,
{
    if n < 10 {
        seq![((48 + n) as u8) as char]
    } else {
        spec_decimal(n / 10) + seq![((48 + n % 10) as u8) as char]
    }
}

/// Append the decimal form of `n`.
pub fn push_decimal(s: &mut String, n: u64)
    ensures
        final(s)@ == old(s)@ + spec_decimal(n as nat),
    decreases n,
{
    if n >= 10 {
        push_decimal(s, n / 10);
    }
    let digit: u8 = 48 + (n % 10) as u8;
    push_char(s, digit as char);
    proof {
        assert(final(s)@ =~= old(s)@ + spec_decimal(n as nat));
    }
}

/// The decimal form of `n`.
pub fn u64_to_string(n: u64) -> (r: String)
    ensures
        r@ == spec_decimal(n as nat),
{
    let mut s = String::new();
    push_decimal(&mut s, n);
    proof {
        assert(s@ =~= spec_decimal(n as nat));
    }
    s
}


/// Whether a character is ASCII whitespace.
pub open spec fn is_ws(c: char) -> bool {
    c == ' ' || c == '\t' || c == '\n' || c == '\r'
}

/// The number of leading whitespace characters of `s`.
pub open spec fn spec_ws_prefix_len(s: Seq<char>) -> int
    decreases s.len(),
{
    if s.len() == 0 {
        0
    } else if is_ws(s[0]) {
        1 + spec_ws_prefix_len(s.subrange(1, s.len() as int))
    } else {
        0
    }
}

/// The length of `s` once trailing whitespace is removed.
pub open spec fn spec_ws_trim_end(s: Seq<char>) -> int
    decreases s.len(),
{
    if s.len() == 0 {
        0
    } else if is_ws(s.last()) {
        spec_ws_trim_end(s.drop_last())
    } else {
        s.len() as int
    }
}

/// `s` with ASCII whitespace trimmed from both ends.
pub open spec fn spec_trim_ws(s: Seq<char>) -> Seq<char> {
    let a = spec_ws_prefix_len(s);
    let b = spec_ws_trim_end(s);
    if a <= b {
        s.subrange(a, b)
    } else {
        Seq::empty()
    }
}

/// Trim ASCII whitespace from both ends of `s`.
pub fn trim_ws<'a>(s: &'a str) -> (r: &'a str)
    ensures
        r@ == spec_trim_ws(s@),
{
    let n = s.unicode_len();
    proof {
        assert(s@.subrange(0, n as int) =~= s@);
    }
    let mut a: usize = 0;
    while a < n
        invariant_except_break
            a <= n,
            n == s@.len(),
            spec_ws_prefix_len(s@) == a + spec_ws_prefix_len(s@.subrange(a as int, n as int)),
        ensures
            a <= n,
            n == s@.len(),
            spec_ws_prefix_len(s@) == a + spec_ws_prefix_len(s@.subrange(a as int, n as int)),
            a == n || !is_ws(s@[a as int]),
        decreases n - a,
    {
        let ch = s.get_char(a);
        if !(ch == ' ' || ch == '\t' || ch == '\n' || ch == '\r') {
            break;
        }
        a = a + 1;
        proof {
            assert(s@.subrange(a - 1, n as int).subrange(1, n - a + 1) =~= s@.subrange(
                a as int,
                n as int,
            ));
        }
    }
    proof {
        if a == n {
            assert(s@.subrange(a as int, n as int).len() == 0);
        }
        assert(spec_ws_prefix_len(s@) == a);
    }
    let mut b: usize = n;
    while b > 0
        invariant_except_break
            b <= n,
            n == s@.len(),
            spec_ws_trim_end(s@) == spec_ws_trim_end(s@.subrange(0, b as int)),
        ensures
            b <= n,
            n == s@.len(),
            spec_ws_trim_end(s@) == spec_ws_trim_end(s@.subrange(0, b as int)),
            b == 0 || !is_ws(s@[b - 1]),
        decreases b,
    {
        let ch = s.get_char(b - 1);
        if !(ch == ' ' || ch == '\t' || ch == '\n' || ch == '\r') {
            break;
        }
        b = b - 1;
        proof {
            assert(s@.subrange(0, b + 1).drop_last() =~= s@.subrange(0, b as int));
        }
    }
    proof {
        if b > 0 {
            assert(s@.subrange(0, b as int).last() == s@[b - 1]);
        }
        assert(spec_ws_trim_end(s@.subrange(0, b as int)) == b);
        assert(spec_ws_trim_end(s@) == b);
    }
    if a <= b {
        s.substring_char(a, b)
    } else {
        proof {
            assert(s@.subrange(0, 0) =~= Seq::<char>::empty());
        }
        s.substring_char(0, 0)
    }
}

} // verus!





