//! Character-level helpers on strings, with their specifications.
//!
//! The spec functions here state what the std string operations used by
//! the manager compute (`trim`, `lines`, `split`, `u64::from_str`, decimal
//! formatting); the exec functions compute the same on character vectors.

use vstd::prelude::*;

verus! {

/// `String::push` appends one character.
pub assume_specification[ String::push ](s: &mut String, ch: char)
    ensures
        final(s)@ == old(s)@.push(ch),
;

// ---------------------------------------------------------------------
// Specifications
// ---------------------------------------------------------------------

/// Unicode `White_Space`, the property that `char::is_whitespace` and
/// `str::trim` go by.
pub open spec fn is_ws(c: char) -> bool {
    ||| '\u{9}' <= c <= '\u{d}'
    ||| c == ' '
    ||| c == '\u{85}'
    ||| c == '\u{a0}'
    ||| c == '\u{1680}'
    ||| '\u{2000}' <= c <= '\u{200a}'
    ||| c == '\u{2028}'
    ||| c == '\u{2029}'
    ||| c == '\u{202f}'
    ||| c == '\u{205f}'
    ||| c == '\u{3000}'
}

/// Number of leading whitespace characters.
pub open spec fn lead_ws(s: Seq<char>) -> nat
    decreases s.len(),
{
    if s.len() > 0 && is_ws(s[0]) {
        1 + lead_ws(s.drop_first())
    } else {
        0
    }
}

/// Number of trailing whitespace characters.
pub open spec fn trail_ws(s: Seq<char>) -> nat
    decreases s.len(),
{
    if s.len() > 0 && is_ws(s.last()) {
        1 + trail_ws(s.drop_last())
    } else {
        0
    }
}

/// Number of leading occurrences of `c`.
pub open spec fn lead_char(s: Seq<char>, c: char) -> nat
    decreases s.len(),
{
    if s.len() > 0 && s[0] == c {
        1 + lead_char(s.drop_first(), c)
    } else {
        0
    }
}

/// `str::trim_start`.
pub open spec fn trim_start(s: Seq<char>) -> Seq<char> {
    s.skip(lead_ws(s) as int)
}

/// `str::trim_end`.
pub open spec fn trim_end(s: Seq<char>) -> Seq<char> {
    s.take(s.len() - trail_ws(s))
}

/// `str::trim`.
pub open spec fn trim(s: Seq<char>) -> Seq<char> {
    trim_end(trim_start(s))
}

/// `str::trim_start_matches(c)` for a single character.
pub open spec fn trim_start_char(s: Seq<char>, c: char) -> Seq<char> {
    s.skip(lead_char(s, c) as int)
}

/// The pieces of `rest` split at `sep`, where `cur` is the piece read so far.
pub open spec fn split_from(cur: Seq<char>, rest: Seq<char>, sep: char) -> Seq<Seq<char>>
    decreases rest.len(),
{
    if rest.len() == 0 {
        seq![cur]
    } else if rest[0] == sep {
        seq![cur] + split_from(Seq::empty(), rest.drop_first(), sep)
    } else {
        split_from(cur.push(rest[0]), rest.drop_first(), sep)
    }
}

/// `str::split(sep)` for a single character: never empty.
pub open spec fn split(s: Seq<char>, sep: char) -> Seq<Seq<char>> {
    split_from(Seq::empty(), s, sep)
}

/// A line without its `\r` before the line feed.
pub open spec fn strip_cr(s: Seq<char>) -> Seq<char> {
    if s.len() > 0 && s.last() == '\r' {
        s.drop_last()
    } else {
        s
    }
}

/// The lines of `rest`, where `cur` is the part of the current line read so far.
pub open spec fn lines_from(cur: Seq<char>, rest: Seq<char>) -> Seq<Seq<char>>
    decreases rest.len(),
{
    if rest.len() == 0 {
        if cur.len() == 0 {
            Seq::empty()
        } else {
            seq![cur]
        }
    } else if rest[0] == '\n' {
        seq![strip_cr(cur)] + lines_from(Seq::empty(), rest.drop_first())
    } else {
        lines_from(cur.push(rest[0]), rest.drop_first())
    }
}

/// `str::lines`: split at `\n` (and `\r\n`); a final line ending is optional.
pub open spec fn lines(s: Seq<char>) -> Seq<Seq<char>> {
    lines_from(Seq::empty(), s)
}

/// The first line of `s`, as `s.lines().next()`.
pub open spec fn first_line(s: Seq<char>) -> Option<Seq<char>> {
    if lines(s).len() == 0 {
        None
    } else {
        Some(lines(s)[0])
    }
}

/// The texts of a result of texts.
pub open spec fn str_result(r: Result<String, String>) -> Result<Seq<char>, Seq<char>> {
    match r {
        Ok(x) => Ok(x@),
        Err(e) => Err(e@),
    }
}

pub open spec fn is_digit(c: char) -> bool {
    '0' <= c <= '9'
}

pub open spec fn all_digits(s: Seq<char>) -> bool {
    forall|i: int| 0 <= i < s.len() ==> is_digit(#[trigger] s[i])
}

pub open spec fn digit_value(c: char) -> nat {
    (c as int - '0' as int) as nat
}

/// The value of a string of decimal digits.
pub open spec fn digits_value(s: Seq<char>) -> nat
    decreases s.len(),
{
    if s.len() == 0 {
        0
    } else {
        digits_value(s.drop_last()) * 10 + digit_value(s.last())
    }
}

/// The digits that `u64::from_str` reads: an optional leading `+` is dropped.
pub open spec fn unsigned_digits(s: Seq<char>) -> Seq<char> {
    if s.len() > 0 && s[0] == '+' {
        s.drop_first()
    } else {
        s
    }
}

/// `s.parse::<u64>().ok()`: an optional `+`, then one or more decimal
/// digits whose value fits in 64 bits.
pub open spec fn parse_u64(s: Seq<char>) -> Option<u64> {
    let d = unsigned_digits(s);
    if d.len() > 0 && all_digits(d) && digits_value(d) <= u64::MAX {
        Some(digits_value(d) as u64)
    } else {
        None
    }
}

/// `s.parse::<u32>().ok()`.
pub open spec fn parse_u32(s: Seq<char>) -> Option<u32> {
    let d = unsigned_digits(s);
    if d.len() > 0 && all_digits(d) && digits_value(d) <= u32::MAX {
        Some(digits_value(d) as u32)
    } else {
        None
    }
}

pub open spec fn digit_char(d: nat) -> char {
    (d + '0' as int) as char
}

/// The decimal representation of `n`, as `Display` writes it.
pub open spec fn decimal(n: nat) -> Seq<char>
    decreases n,
{
    if n < 10 {
        seq![digit_char(n)]
    } else {
        decimal(n / 10).push(digit_char(n % 10))
    }
}

/// The decimal representation of a signed integer, as `Display` writes it.
pub open spec fn signed_decimal(n: int) -> Seq<char> {
    if n < 0 {
        seq!['-'] + decimal((-n) as nat)
    } else {
        decimal(n as nat)
    }
}

/// `s` holds `t` as a contiguous part.
pub open spec fn contains_seq(s: Seq<char>, t: Seq<char>) -> bool {
    exists|i: int| 0 <= i <= s.len() - t.len() && #[trigger] s.subrange(i, i + t.len()) == t
}

/// The lines joined with `\n` between them.
pub open spec fn join_lines(ls: Seq<Seq<char>>) -> Seq<char>
    decreases ls.len(),
{
    if ls.len() == 0 {
        Seq::empty()
    } else if ls.len() == 1 {
        ls[0]
    } else {
        join_lines(ls.drop_last()) + seq!['\n'] + ls.last()
    }
}

// ---------------------------------------------------------------------
// Lemmas
// ---------------------------------------------------------------------

proof fn lemma_skip_drop_first(s: Seq<char>, i: int)
    requires
        0 <= i < s.len(),
    ensures
        s.skip(i).drop_first() == s.skip(i + 1),
        s.skip(i)[0] == s[i],
{
    assert(s.skip(i).drop_first() =~= s.skip(i + 1));
}

proof fn lemma_take_drop_last(s: Seq<char>, k: int)
    requires
        0 < k <= s.len(),
    ensures
        s.take(k).drop_last() == s.take(k - 1),
        s.take(k).last() == s[k - 1],
{
    assert(s.take(k).drop_last() =~= s.take(k - 1));
}

/// A prefix of digits has a value no larger than the whole.
proof fn lemma_digits_prefix_le(s: Seq<char>, k: int)
    requires
        0 <= k <= s.len(),
    ensures
        digits_value(s.take(k)) <= digits_value(s),
    decreases s.len(),
{
    if k < s.len() {
        assert(s.drop_last().take(k) =~= s.take(k));
        lemma_digits_prefix_le(s.drop_last(), k);
    } else {
        assert(s.take(k) =~= s);
    }
}

/// Reading the decimal representation of `n` as digits gives `n` back.
pub proof fn lemma_decimal_reads_back(n: nat)
    ensures
        digits_value(decimal(n)) == n,
        decimal(n).len() >= 1,
        all_digits(decimal(n)),
    decreases n,
{
    lemma_decimal_nonempty(n);
    if n < 10 {
        assert(decimal(n).drop_last() =~= Seq::<char>::empty());
        assert(digit_value(digit_char(n)) == n);
        assert(digits_value(Seq::<char>::empty()) == 0);
        assert(digits_value(decimal(n)) == digits_value(decimal(n).drop_last()) * 10 + digit_value(
            decimal(n).last(),
        ));
    } else {
        assert(digit_value(digit_char(n % 10)) == n % 10);
        lemma_decimal_reads_back(n / 10);
        assert(decimal(n).drop_last() =~= decimal(n / 10));
        assert(decimal(n).last() == digit_char(n % 10));
        assert((n / 10) * 10 + n % 10 == n) by (nonlinear_arith);
        assert(digits_value(decimal(n)) == digits_value(decimal(n).drop_last()) * 10 + digit_value(
            decimal(n).last(),
        ));
    }
}

/// Splitting at `sep` reads over a piece without `sep` into the piece
/// being read.
pub proof fn lemma_split_from_over(cur: Seq<char>, x: Seq<char>, r: Seq<char>, sep: char)
    requires
        !x.contains(sep),
    ensures
        split_from(cur, x + r, sep) == split_from(cur + x, r, sep),
    decreases x.len(),
{
    if x.len() == 0 {
        assert(x + r =~= r);
        assert(cur + x =~= cur);
    } else {
        assert((x + r)[0] == x[0]);
        assert(x[0] != sep) by {
            assert(x.contains(x[0]));
        }
        assert((x + r).drop_first() =~= x.drop_first() + r);
        assert forall|c: char| x.drop_first().contains(c) implies x.contains(c) by {
            let i = choose|i: int| 0 <= i < x.drop_first().len() && x.drop_first()[i] == c;
            assert(x[i + 1] == c);
        }
        lemma_split_from_over(cur.push(x[0]), x.drop_first(), r, sep);
        assert(cur.push(x[0]) + x.drop_first() =~= cur + x);
    }
}

/// A piece without `sep`, then `sep`, then the rest, splits into that
/// piece followed by the pieces of the rest; a piece without `sep` alone is
/// one piece.
pub proof fn lemma_split_piece(x: Seq<char>, rest: Seq<char>, sep: char)
    requires
        !x.contains(sep),
    ensures
        split(x + seq![sep] + rest, sep) == seq![x] + split(rest, sep),
        split(x, sep) == seq![x],
{
    let e = Seq::<char>::empty();
    assert(x + seq![sep] + rest =~= x + (seq![sep] + rest));
    lemma_split_from_over(e, x, seq![sep] + rest, sep);
    assert(e + x =~= x);
    assert((seq![sep] + rest)[0] == sep);
    assert((seq![sep] + rest).drop_first() =~= rest);
    lemma_split_from_over(e, x, e, sep);
    assert(x + e =~= x);
}

/// A string of digits contains no `.`.
pub proof fn lemma_digits_no_dot(s: Seq<char>)
    requires
        all_digits(s),
    ensures
        !s.contains('.'),
{
    if s.contains('.') {
        let i = choose|i: int| 0 <= i < s.len() && s[i] == '.';
        assert(is_digit(s[i]));
    }
}

pub proof fn lemma_decimal_nonempty(n: nat)
    ensures
        decimal(n).len() >= 1,
        forall|i: int| 0 <= i < decimal(n).len() ==> is_digit(#[trigger] decimal(n)[i]),
    decreases n,
{
    if n >= 10 {
        lemma_decimal_nonempty(n / 10);
    }
}

/// The deep model of a character vector is its model.
pub proof fn lemma_chars_deep_view(v: Vec<char>)
    ensures
        v.deep_view() == v@,
{
    assert(v.deep_view() =~= v@);
}

/// Pushing a character vector adds its characters as one more element.
pub proof fn lemma_push_chars_deep(before: Vec<Vec<char>>, after: Vec<Vec<char>>, x: Vec<char>)
    requires
        after@ == before@.push(x),
    ensures
        after.deep_view() == before.deep_view().push(x@),
{
    lemma_chars_deep_view(x);
    assert(after.deep_view() =~= before.deep_view().push(x@));
}

/// Pushing a string adds its characters as one more element.
pub proof fn lemma_push_string_deep(before: Vec<String>, after: Vec<String>, x: String)
    requires
        after@ == before@.push(x),
    ensures
        after.deep_view() == before.deep_view().push(x@),
{
    assert(after.deep_view() =~= before.deep_view().push(x@));
}

// ---------------------------------------------------------------------
// Executable helpers
// ---------------------------------------------------------------------

/// The characters of a string slice, in order.
pub fn str_chars(s: &str) -> (v: Vec<char>)
    ensures
        v@ == s@,
{
    let mut v: Vec<char> = Vec::new();
    for c in it: s.chars()
        invariant
            v@ == it.seq().take(it.index() as int),
    {
        v.push(c);
    }
    v
}

/// A string made of the given characters.
pub fn string_from_chars(cs: &[char]) -> (s: String)
    ensures
        s@ == cs@,
{
    let mut s = String::new();
    let mut i: usize = 0;
    while i < cs.len()
        invariant
            i <= cs.len(),
            s@ == cs@.take(i as int),
        decreases cs.len() - i,
    {
        s.push(cs[i]);
        proof {
            assert(cs@.take(i + 1) =~= cs@.take(i as int).push(cs@[i as int]));
        }
        i = i + 1;
    }
    proof {
        assert(cs@.take(cs@.len() as int) =~= cs@);
    }
    s
}

/// A string made of the characters of `a` followed by those of `b`.
pub fn concat_str(a: &str, b: &str) -> (s: String)
    ensures
        s@ == a@ + b@,
{
    let mut v = str_chars(a);
    let w = str_chars(b);
    push_all(&mut v, &w);
    string_from_chars(&v)
}

/// Appends all characters of `w` to `v`.
pub fn push_all(v: &mut Vec<char>, w: &[char])
    ensures
        final(v)@ == old(v)@ + w@,
{
    let mut i: usize = 0;
    while i < w.len()
        invariant
            i <= w.len(),
            v@ == old(v)@ + w@.take(i as int),
        decreases w.len() - i,
    {
        v.push(w[i]);
        proof {
            assert(w@.take(i + 1) =~= w@.take(i as int).push(w@[i as int]));
        }
        i = i + 1;
    }
    proof {
        assert(w@.take(w@.len() as int) =~= w@);
    }
}

/// Appends all characters of a string slice to `v`.
pub fn push_str_chars(v: &mut Vec<char>, s: &str)
    ensures
        final(v)@ == old(v)@ + s@,
{
    let w = str_chars(s);
    push_all(v, &w);
}

/// Whitespace as `char::is_whitespace` decides it.
pub fn char_is_ws(c: char) -> (b: bool)
    ensures
        b == is_ws(c),
{
    ('\u{9}' <= c && c <= '\u{d}') || c == ' ' || c == '\u{85}' || c == '\u{a0}' || c
        == '\u{1680}' || ('\u{2000}' <= c && c <= '\u{200a}') || c == '\u{2028}' || c
        == '\u{2029}' || c == '\u{202f}' || c == '\u{205f}' || c == '\u{3000}'
}

/// The number of leading whitespace characters.
pub fn count_lead_ws(v: &[char]) -> (n: usize)
    ensures
        n == lead_ws(v@),
        n <= v@.len(),
{
    let mut i: usize = 0;
    proof {
        assert(v@.skip(0) =~= v@);
    }
    while i < v.len() && char_is_ws(v[i])
        invariant
            i <= v.len(),
            lead_ws(v@) == i + lead_ws(v@.skip(i as int)),
        decreases v.len() - i,
    {
        proof {
            lemma_skip_drop_first(v@, i as int);
        }
        i = i + 1;
    }
    proof {
        if i < v.len() {
            lemma_skip_drop_first(v@, i as int);
        }
    }
    i
}

/// The number of trailing whitespace characters.
pub fn count_trail_ws(v: &[char]) -> (n: usize)
    ensures
        n == trail_ws(v@),
        n <= v@.len(),
{
    let mut k: usize = v.len();
    proof {
        assert(v@.take(k as int) =~= v@);
    }
    while k > 0 && char_is_ws(v[k - 1])
        invariant
            k <= v.len(),
            trail_ws(v@) == (v.len() - k) + trail_ws(v@.take(k as int)),
        decreases k,
    {
        proof {
            lemma_take_drop_last(v@, k as int);
        }
        k = k - 1;
    }
    proof {
        if k > 0 {
            lemma_take_drop_last(v@, k as int);
        } else {
            assert(v@.take(0) =~= Seq::<char>::empty());
        }
        if k == v.len() {
            assert(v@.take(k as int) =~= v@);
        }
    }
    v.len() - k
}

/// The number of leading occurrences of `c`.
pub fn count_lead_char(v: &[char], c: char) -> (n: usize)
    ensures
        n == lead_char(v@, c),
        n <= v@.len(),
{
    let mut i: usize = 0;
    proof {
        assert(v@.skip(0) =~= v@);
    }
    while i < v.len() && v[i] == c
        invariant
            i <= v.len(),
            lead_char(v@, c) == i + lead_char(v@.skip(i as int), c),
        decreases v.len() - i,
    {
        proof {
            lemma_skip_drop_first(v@, i as int);
        }
        i = i + 1;
    }
    proof {
        if i < v.len() {
            lemma_skip_drop_first(v@, i as int);
        }
    }
    i
}

/// A copy of `v[lo..hi]`.
pub fn slice_chars(v: &[char], lo: usize, hi: usize) -> (r: Vec<char>)
    requires
        lo <= hi <= v@.len(),
    ensures
        r@ == v@.subrange(lo as int, hi as int),
{
    let mut r: Vec<char> = Vec::new();
    let mut i: usize = lo;
    while i < hi
        invariant
            lo <= i <= hi,
            hi <= v@.len(),
            r@ == v@.subrange(lo as int, i as int),
        decreases hi - i,
    {
        r.push(v[i]);
        proof {
            assert(v@.subrange(lo as int, i + 1) =~= v@.subrange(lo as int, i as int).push(
                v@[i as int],
            ));
        }
        i = i + 1;
    }
    r
}

/// `str::trim` on characters.
pub fn trim_chars(v: &[char]) -> (r: Vec<char>)
    ensures
        r@ == trim(v@),
{
    let a = count_lead_ws(v);
    let t = slice_chars(v, a, v.len());
    proof {
        assert(t@ =~= trim_start(v@));
    }
    let b = count_trail_ws(&t);
    let r = slice_chars(&t, 0, t.len() - b);
    proof {
        assert(r@ =~= trim_end(t@));
    }
    r
}

/// `str::trim` on a string slice.
pub fn trim_str(s: &str) -> (r: String)
    ensures
        r@ == trim(s@),
{
    let v = str_chars(s);
    let t = trim_chars(&v);
    string_from_chars(&t)
}

/// `str::trim_start_matches(c)` on characters.
pub fn trim_start_char_chars(v: &[char], c: char) -> (r: Vec<char>)
    ensures
        r@ == trim_start_char(v@, c),
{
    let n = count_lead_char(v, c);
    let r = slice_chars(v, n, v.len());
    proof {
        assert(r@ =~= trim_start_char(v@, c));
    }
    r
}

/// Whether the characters equal those of a string slice.
pub fn chars_eq(a: &[char], b: &[char]) -> (r: bool)
    ensures
        r == (a@ == b@),
{
    if a.len() != b.len() {
        return false;
    }
    let mut i: usize = 0;
    while i < a.len()
        invariant
            a@.len() == b@.len(),
            i <= a@.len(),
            forall|j: int| 0 <= j < i ==> a@[j] == b@[j],
        decreases a.len() - i,
    {
        if a[i] != b[i] {
            return false;
        }
        i = i + 1;
    }
    proof {
        assert(a@ =~= b@);
    }
    true
}

/// String equality by contents.
pub fn str_eq(a: &str, b: &str) -> (r: bool)
    ensures
        r == (a@ == b@),
{
    let x = str_chars(a);
    let y = str_chars(b);
    chars_eq(&x, &y)
}

/// Whether `c` occurs in `v`.
pub fn has_char(v: &[char], c: char) -> (r: bool)
    ensures
        r == v@.contains(c),
{
    let mut i: usize = 0;
    while i < v.len()
        invariant
            i <= v@.len(),
            forall|j: int| 0 <= j < i ==> v@[j] != c,
        decreases v.len() - i,
    {
        if v[i] == c {
            return true;
        }
        i = i + 1;
    }
    false
}

/// Whether `t` occurs in `v` as a contiguous part.
pub fn has_subslice(v: &[char], t: &[char]) -> (r: bool)
    ensures
        r == contains_seq(v@, t@),
{
    if t.len() > v.len() {
        return false;
    }
    let n: usize = v.len();
    let last: usize = n - t.len();
    let mut i: usize = 0;
    loop
        invariant
            n == v@.len(),
            t@.len() <= v@.len(),
            last == v@.len() - t@.len(),
            i <= last,
            i + t@.len() <= v@.len(),
            forall|j: int| 0 <= j < i ==> #[trigger] v@.subrange(j, j + t@.len()) != t@,
        decreases last - i,
    {
        let part = slice_chars(v, i, i + t.len());
        if chars_eq(&part, t) {
            return true;
        }
        if i == last {
            return false;
        }
        i = i + 1;
    }
}

/// The index of the first occurrence of `c` at or after `from`, or `v.len()`.
pub fn find_char(v: &[char], c: char, from: usize) -> (k: usize)
    requires
        from <= v@.len(),
    ensures
        from <= k <= v@.len(),
        k < v@.len() ==> v@[k as int] == c,
        forall|j: int| from <= j < k ==> v@[j] != c,
{
    let mut i: usize = from;
    while i < v.len() && v[i] != c
        invariant
            from <= i <= v@.len(),
            forall|j: int| from <= j < i ==> v@[j] != c,
        decreases v.len() - i,
    {
        i = i + 1;
    }
    i
}

/// `u64::from_str`, on characters.
pub fn parse_u64_chars(v: &[char]) -> (r: Option<u64>)
    ensures
        r == parse_u64(v@),
{
    let start: usize = if v.len() > 0 && v[0] == '+' {
        1
    } else {
        0
    };
    let ghost d = unsigned_digits(v@);
    proof {
        assert(d =~= v@.skip(start as int));
    }
    if start == v.len() {
        return None;
    }
    let mut acc: u64 = 0;
    let mut i: usize = start;
    while i < v.len()
        invariant
            start <= i <= v@.len(),
            d == v@.skip(start as int),
            d == unsigned_digits(v@),
            d.len() > 0,
            all_digits(d.take(i - start)),
            acc == digits_value(d.take(i - start)),
        decreases v.len() - i,
    {
        let c = v[i];
        let ghost k = i - start;
        proof {
            assert(d.take(k + 1).drop_last() =~= d.take(k));
            assert(d.take(k + 1).last() == c);
        }
        proof {
            assert(d[k] == v@[i as int]);
        }
        if !('0' <= c && c <= '9') {
            proof {
                assert(!is_digit(d[k]));
                assert(!all_digits(d));
            }
            return None;
        }
        let dv: u64 = (c as u32 - '0' as u32) as u64;
        if acc > (u64::MAX - dv) / 10 {
            proof {
                assert(digit_value(c) == dv);
                assert(digits_value(d.take(k + 1)) == acc * 10 + dv);
                assert(acc * 10 + dv > u64::MAX) by (nonlinear_arith)
                    requires
                        acc > (u64::MAX - dv) / 10,
                        dv <= 9,
                ;
                lemma_digits_prefix_le(d, k + 1);
                assert(digits_value(d) > u64::MAX);
            }
            return None;
        }
        proof {
            assert(acc * 10 + dv <= u64::MAX) by (nonlinear_arith)
                requires
                    acc <= (u64::MAX - dv) / 10,
                    dv <= 9,
            ;
            assert(all_digits(d.take(k + 1)));
        }
        acc = acc * 10 + dv;
        i = i + 1;
    }
    proof {
        assert(d.take(d.len() as int) =~= d);
    }
    Some(acc)
}

/// `u32::from_str`, on characters.
pub fn parse_u32_chars(v: &[char]) -> (r: Option<u32>)
    ensures
        r == parse_u32(v@),
{
    match parse_u64_chars(v) {
        Some(x) => {
            if x <= u32::MAX as u64 {
                Some(x as u32)
            } else {
                None
            }
        },
        None => {
            proof {
                let d = unsigned_digits(v@);
                if d.len() > 0 && all_digits(d) && digits_value(d) <= u32::MAX {
                    assert(digits_value(d) <= u64::MAX);
                }
            }
            None
        },
    }
}

/// Appends the decimal representation of `n`.
pub fn push_decimal(out: &mut Vec<char>, n: u64)
    ensures
        final(out)@ == old(out)@ + decimal(n as nat),
    decreases n,
{
    if n >= 10 {
        push_decimal(out, n / 10);
    }
    let d: u8 = (n % 10) as u8;
    let c: char = (48u8 + d) as char;
    proof {
        assert(c == digit_char((n % 10) as nat));
    }
    out.push(c);
    proof {
        if n >= 10 {
            assert(decimal(n as nat) == decimal((n / 10) as nat).push(c));
        }
    }
}

/// Appends the decimal representation of a signed `n`.
pub fn push_signed_decimal(out: &mut Vec<char>, n: i64)
    ensures
        final(out)@ == old(out)@ + signed_decimal(n as int),
{
    if n < 0 {
        out.push('-');
        let m: u64 = if n == i64::MIN {
            9223372036854775808u64
        } else {
            (-n) as u64
        };
        let ghost mid = out@;
        push_decimal(out, m);
        proof {
            assert(out@ =~= old(out)@ + signed_decimal(n as int));
        }
    } else {
        push_decimal(out, n as u64);
    }
}

/// The decimal representation of `n` as a string.
pub fn u64_to_string(n: u64) -> (s: String)
    ensures
        s@ == decimal(n as nat),
{
    let mut v: Vec<char> = Vec::new();
    push_decimal(&mut v, n);
    proof {
        assert(v@ =~= decimal(n as nat));
    }
    string_from_chars(&v)
}

} // verus!
