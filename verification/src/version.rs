//! The installed WireGuard tools' version against the latest release.

use vstd::prelude::*;
use crate::text::{
    all_digits, is_ws, lead_ws, parse_u32, split, split_from, trim, trim_start_char,
    char_is_ws, count_lead_ws, parse_u32_chars, slice_chars, str_chars, string_from_chars,
    trim_chars, trim_start_char_chars,
};
use crate::dump::split_chars;

verus! {

/// `s` with `p` taken off its front when it starts with `p`.
pub open spec fn strip_prefix(s: Seq<char>, p: Seq<char>) -> Seq<char> {
    if p.len() <= s.len() && s.take(p.len() as int) == p {
        s.skip(p.len() as int)
    } else {
        s
    }
}

/// The number of leading characters that are not whitespace.
pub open spec fn word_len(s: Seq<char>) -> nat
    decreases s.len(),
{
    if s.len() > 0 && !is_ws(s[0]) {
        1 + word_len(s.drop_first())
    } else {
        0
    }
}

/// `s.split_whitespace().next()`: the first run of non-whitespace.
pub open spec fn first_word(s: Seq<char>) -> Option<Seq<char>> {
    let rest = s.skip(lead_ws(s) as int);
    if rest.len() == 0 {
        None
    } else {
        Some(rest.take(word_len(rest) as int))
    }
}

/// A part of a version: one or more ASCII digits.
pub open spec fn is_number_part(p: Seq<char>) -> bool {
    p.len() > 0 && all_digits(p)
}

/// The first (at most) three parts are numbers.
pub open spec fn numeric_head(parts: Seq<Seq<char>>) -> bool {
    forall|i: int| 0 <= i < parts.len() && i < 3 ==> is_number_part(#[trigger] parts[i])
}

/// The version number that `wg --version` reports, as in
/// `"wireguard-tools v1.0.20210914 - https://..."` or `"1.0.20210914"`:
/// the first word after the program name and a `v`, when its first three
/// dot-separated parts are numbers.
pub open spec fn semverish(raw: Seq<char>) -> Option<Seq<char>> {
    let s = strip_prefix(strip_prefix(trim(raw), "wireguard-tools "@), "v"@);
    let w = match first_word(s) {
        Some(x) => x,
        None => s,
    };
    if numeric_head(split(w, '.')) {
        Some(w)
    } else {
        None
    }
}

/// A part of a version as a number; a missing or malformed part counts 0.
pub open spec fn ver_part(parts: Seq<Seq<char>>, i: int) -> u32 {
    if i < parts.len() {
        match parse_u32(parts[i]) {
            Some(x) => x,
            None => 0,
        }
    } else {
        0
    }
}

/// The first three parts of a dotted version.
pub open spec fn ver_tuple(v: Seq<char>) -> (u32, u32, u32) {
    let parts = split(v, '.');
    (ver_part(parts, 0), ver_part(parts, 1), ver_part(parts, 2))
}

/// Tuples of versions in lexicographic order.
pub open spec fn ver_less(a: (u32, u32, u32), b: (u32, u32, u32)) -> bool {
    a.0 < b.0 || (a.0 == b.0 && (a.1 < b.1 || (a.1 == b.1 && a.2 < b.2)))
}

/// The latest release from its tag: the tag without its leading `v`s.
pub open spec fn tag_version(tag: Seq<char>) -> Option<Seq<char>> {
    let t = trim_start_char(tag, 'v');
    if t.len() == 0 {
        None
    } else {
        Some(t)
    }
}

/// What the dashboard shows of the WireGuard version.
pub struct WgVersionReport {
    /// The installed version number, when `wg --version` gives one.
    pub current: Option<String>,
    /// What `wg --version` printed.
    pub current_raw: Option<String>,
    /// The latest release.
    pub latest: Option<String>,
    /// Whether the installed version is older than the latest release.
    pub outdated: bool,
}

proof fn lemma_word_step(s: Seq<char>, i: int)
    requires
        0 <= i < s.len(),
        !is_ws(s[i]),
    ensures
        word_len(s.skip(i)) == 1 + word_len(s.skip(i + 1)),
{
    assert(s.skip(i).drop_first() =~= s.skip(i + 1));
}

/// `s` without `p` at its front, when it is there.
fn strip_prefix_chars(s: &Vec<char>, p: &str) -> (r: Vec<char>)
    ensures
        r@ == strip_prefix(s@, p@),
{
    let pv = str_chars(p);
    if pv.len() <= s.len() {
        let head = slice_chars(s, 0, pv.len());
        if crate::text::chars_eq(&head, &pv) {
            proof {
                assert(head@ =~= s@.take(pv@.len() as int));
            }
            let r = slice_chars(s, pv.len(), s.len());
            proof {
                assert(r@ =~= s@.skip(pv@.len() as int));
            }
            return r;
        }
        proof {
            assert(head@ =~= s@.take(pv@.len() as int));
        }
    }
    let r = slice_chars(s, 0, s.len());
    proof {
        assert(r@ =~= s@);
    }
    r
}

/// `s.split_whitespace().next()`, on characters.
fn first_word_chars(s: &Vec<char>) -> (r: Option<Vec<char>>)
    ensures
        r.deep_view() == first_word(s@),
{
    let a = count_lead_ws(s);
    let mut i: usize = a;
    proof {
        assert(s@.skip(a as int).skip(0) =~= s@.skip(a as int));
    }
    while i < s.len() && !char_is_ws(s[i])
        invariant
            a <= i <= s@.len(),
            word_len(s@.skip(a as int)) == (i - a) + word_len(s@.skip(i as int)),
        decreases s.len() - i,
    {
        proof {
            lemma_word_step(s@, i as int);
        }
        i = i + 1;
    }
    proof {
        if i < s.len() {
            assert(s@.skip(i as int)[0] == s@[i as int]);
        } else {
            assert(s@.skip(i as int).len() == 0);
        }
    }
    if a == s.len() {
        return None;
    }
    let w = slice_chars(s, a, i);
    proof {
        assert(w@ =~= s@.skip(a as int).take(word_len(s@.skip(a as int)) as int));
        crate::text::lemma_chars_deep_view(w);
    }
    Some(w)
}

/// Whether every character is an ASCII digit.
fn all_digit_chars(p: &Vec<char>) -> (r: bool)
    ensures
        r == all_digits(p@),
{
    let mut i: usize = 0;
    while i < p.len()
        invariant
            i <= p@.len(),
            all_digits(p@.take(i as int)),
        decreases p.len() - i,
    {
        if !('0' <= p[i] && p[i] <= '9') {
            proof {
                assert(!crate::text::is_digit(p@[i as int]));
            }
            return false;
        }
        proof {
            assert(p@.take(i + 1) =~= p@.take(i as int).push(p@[i as int]));
            assert(all_digits(p@.take(i + 1)));
        }
        i = i + 1;
    }
    proof {
        assert(p@.take(p@.len() as int) =~= p@);
    }
    true
}

/// The version number in the output of `wg --version`.
pub fn extract_semverish(raw: &str) -> (r: Option<String>)
    ensures
        r.deep_view() == semverish(raw@),
{
    let rv = str_chars(raw);
    let t = trim_chars(&rv);
    let a = strip_prefix_chars(&t, "wireguard-tools ");
    let s = strip_prefix_chars(&a, "v");
    let ghost sv = s@;
    let fw = first_word_chars(&s);
    let w = match fw {
        Some(x) => {
            proof {
                crate::text::lemma_chars_deep_view(x);
            }
            x
        },
        None => s,
    };
    let ghost wspec = match first_word(sv) {
        Some(x) => x,
        None => sv,
    };
    proof {
        assert(w@ == wspec);
    }
    let parts = split_chars(&w, '.');
    let ghost pv = parts.deep_view();
    proof {
        assert(sv == strip_prefix(strip_prefix(trim(raw@), "wireguard-tools "@), "v"@));
        assert(pv == split(wspec, '.'));
    }
    let mut i: usize = 0;
    while i < parts.len() && i < 3
        invariant
            i <= parts@.len(),
            i <= 3,
            pv == parts.deep_view(),
            w@ == wspec,
            pv == split(wspec, '.'),
            semverish(raw@) == (if numeric_head(pv) {
                Some(wspec)
            } else {
                None::<Seq<char>>
            }),
            forall|j: int| 0 <= j < i ==> is_number_part(#[trigger] pv[j]),
        decreases parts.len() - i,
    {
        let ok = parts[i].len() > 0 && all_digit_chars(&parts[i]);
        proof {
            crate::text::lemma_chars_deep_view(parts@[i as int]);
            assert(pv[i as int] == parts@[i as int]@);
        }
        if !ok {
            proof {
                assert(!is_number_part(pv[i as int]));
            }
            return None;
        }
        i = i + 1;
    }
    Some(string_from_chars(&w))
}

/// The first three parts of a dotted version as numbers.
pub fn parse_ver_tuple(v: &str) -> (r: (u32, u32, u32))
    ensures
        r == ver_tuple(v@),
{
    let vc = str_chars(v);
    let parts = split_chars(&vc, '.');
    let ghost pv = parts.deep_view();
    let mut out: [u32; 3] = [0, 0, 0];
    let mut i: usize = 0;
    while i < 3
        invariant
            i <= 3,
            pv == parts.deep_view(),
            forall|j: int| 0 <= j < i ==> out@[j] == ver_part(pv, j),
            forall|j: int| i <= j < 3 ==> out@[j] == 0,
            out@.len() == 3,
        decreases 3 - i,
    {
        if i < parts.len() {
            proof {
                crate::text::lemma_chars_deep_view(parts@[i as int]);
            }
            let x: u32 = match parse_u32_chars(&parts[i]) {
                Some(x) => x,
                None => 0,
            };
            out.set(i, x);
        }
        i = i + 1;
    }
    (out[0], out[1], out[2])
}

/// Whether version `a` is older than version `b`.
pub fn version_less(a: (u32, u32, u32), b: (u32, u32, u32)) -> (r: bool)
    ensures
        r == ver_less(a, b),
{
    a.0 < b.0 || (a.0 == b.0 && (a.1 < b.1 || (a.1 == b.1 && a.2 < b.2)))
}

/// The latest release from the tag of its GitHub release.
pub fn latest_version_from_tag(tag: &str) -> (r: Option<String>)
    ensures
        r.deep_view() == tag_version(tag@),
{
    let tv = str_chars(tag);
    let t = trim_start_char_chars(&tv, 'v');
    if t.len() == 0 {
        None
    } else {
        Some(string_from_chars(&t))
    }
}

/// What the dashboard shows, from what `wg --version` printed and the
/// latest release: outdated only when both versions are known and the
/// installed one is older.
pub fn wg_version_report(current_raw: Option<String>, latest: Option<String>) -> (r: WgVersionReport)
    ensures
        r.current.deep_view() == (match current_raw {
            Some(raw) => semverish(raw@),
            None => None,
        }),
        r.current_raw == current_raw,
        r.latest == latest,
        r.outdated == (match (r.current.deep_view(), latest.deep_view()) {
            (Some(c), Some(l)) => ver_less(ver_tuple(c), ver_tuple(l)),
            _ => false,
        }),
{
    let current: Option<String> = match &current_raw {
        Some(raw) => extract_semverish(raw.as_str()),
        None => None,
    };
    let outdated = match (&current, &latest) {
        (Some(c), Some(l)) => version_less(parse_ver_tuple(c.as_str()), parse_ver_tuple(l.as_str())),
        _ => false,
    };
    WgVersionReport { current, current_raw, latest, outdated }
}

/// Being older is a strict order: no version is older than itself, and of
/// two versions at most one is older than the other.
pub proof fn lemma_version_order_strict(a: (u32, u32, u32), b: (u32, u32, u32))
    ensures
        !ver_less(a, a),
        ver_less(a, b) ==> !ver_less(b, a),
        a != b ==> (ver_less(a, b) || ver_less(b, a)),
{
}

} // verus!
