//! The manual under `docs/`: which names may be opened, what each page is
//! titled, the order of the list, and the HTML of a page.

use vstd::prelude::*;
use vstd::multiset::Multiset;
use crate::text::{
    trim, trim_start_char, first_line, lines, contains_seq, str_chars, trim_chars,
    trim_start_char_chars, string_from_chars, has_char, has_subslice, push_str_chars,
    push_all, find_char, slice_chars,
};
use crate::dump::lines_chars;

verus! {

/// `base.join(p)` for Unix paths: an absolute `p` replaces `base`; else a
/// `/` goes between them unless `base` is empty or already ends with one.
pub open spec fn join_path(base: Seq<char>, p: Seq<char>) -> Seq<char> {
    if p.len() > 0 && p[0] == '/' {
        p
    } else if base.len() == 0 || base.last() == '/' {
        base + p
    } else {
        base + seq!['/'] + p
    }
}

/// A name that may be opened from the manual: no `..`, `/` or `\`.
pub open spec fn is_safe_doc_name(name: Seq<char>) -> bool {
    &&& !contains_seq(name, ".."@)
    &&& !name.contains('/')
    &&& !name.contains('\\')
}

/// The title of a page: its first line (or the fallback for an empty page)
/// without the surrounding blanks and the leading `#`s of a heading.
pub open spec fn doc_title_spec(md: Seq<char>, fallback: Seq<char>) -> Seq<char> {
    let l = match first_line(md) {
        Some(x) => x,
        None => fallback,
    };
    trim(trim_start_char(trim(l), '#'))
}

/// The index of the last `.` in `s`, if any.
pub open spec fn last_dot(s: Seq<char>) -> Option<int>
    decreases s.len(),
{
    if s.len() == 0 {
        None
    } else if s.last() == '.' {
        Some(s.len() - 1)
    } else {
        last_dot(s.drop_last())
    }
}

/// `Path::file_stem` and `Path::extension` of a file name: the parts
/// before and after the last `.`, unless the name is `..` or its only `.`
/// comes first.
pub open spec fn stem_and_extension(name: Seq<char>) -> (Seq<char>, Option<Seq<char>>) {
    if name == ".."@ {
        (name, None)
    } else {
        match last_dot(name) {
            None => (name, None),
            Some(k) => if k == 0 {
                (name, None)
            } else {
                (name.take(k), Some(name.skip(k + 1)))
            },
        }
    }
}

/// The page name of a file of the manual: its stem, when its extension is `md`.
pub open spec fn md_page_name(file_name: Seq<char>) -> Option<Seq<char>> {
    let (stem, ext) = stem_and_extension(file_name);
    if ext == Some("md"@) {
        Some(stem)
    } else {
        None
    }
}

/// `a` comes before or equals `b` in the order of `str`: character by
/// character, a prefix first.
pub open spec fn str_le(a: Seq<char>, b: Seq<char>) -> bool
    decreases a.len(),
{
    if a.len() == 0 {
        true
    } else if b.len() == 0 {
        false
    } else if a[0] != b[0] {
        a[0] < b[0]
    } else {
        str_le(a.drop_first(), b.drop_first())
    }
}

/// One entry of the manual's list.
#[derive(Debug, Clone)]
pub struct DocEntry {
    pub name: String,
    pub title: String,
}

/// The list is in the order of the names.
pub open spec fn sorted_by_name(es: Seq<DocEntry>) -> bool {
    forall|i: int, j: int| 0 <= i < j < es.len() ==> str_le(es[i].name@, es[j].name@)
}

/// The path of a page of the manual, when `name` may be opened: the file
/// `<name>.md` in `docs_dir`. Whether the file exists is checked by the
/// caller.
pub fn safe_doc_path(docs_dir: &str, name: &str) -> (r: Option<String>)
    ensures
        is_safe_doc_name(name@) ==> (r matches Some(p) && p@ == join_path(docs_dir@, name@ + ".md"@)),
        !is_safe_doc_name(name@) ==> r is None,
{
    let nv = str_chars(name);
    let dots = str_chars("..");
    if has_subslice(&nv, &dots) || has_char(&nv, '/') || has_char(&nv, '\\') {
        return None;
    }
    let mut file: Vec<char> = Vec::new();
    push_all(&mut file, &nv);
    push_str_chars(&mut file, ".md");
    let f = string_from_chars(&file);
    Some(join_path_str(docs_dir, f.as_str()))
}

/// `base.join(p)` on strings.
pub fn join_path_str(base: &str, p: &str) -> (r: String)
    ensures
        r@ == join_path(base@, p@),
{
    let bv = str_chars(base);
    let pv = str_chars(p);
    if pv.len() > 0 && pv[0] == '/' {
        return string_from_chars(&pv);
    }
    let mut v = bv;
    if v.len() > 0 && v[v.len() - 1] != '/' {
        v.push('/');
    }
    push_all(&mut v, &pv);
    string_from_chars(&v)
}

/// Where a configured path points: an absolute path as it is, a relative
/// one under `base`.
pub fn resolve_pathbuf_under_base(base: &str, p: &str) -> (r: String)
    ensures
        r@ == join_path(base@, p@),
{
    join_path_str(base, p)
}

/// The title of a page (see [`doc_title_spec`]).
pub fn doc_title(md: &str, fallback: &str) -> (r: String)
    ensures
        r@ == doc_title_spec(md@, fallback@),
{
    let mv = str_chars(md);
    let ls = lines_chars(&mv);
    let l: Vec<char> = if ls.len() > 0 {
        proof {
            crate::text::lemma_chars_deep_view(ls@[0]);
        }
        slice_chars(&ls[0], 0, ls[0].len())
    } else {
        str_chars(fallback)
    };
    proof {
        assert(l@ == match first_line(md@) {
            Some(x) => x,
            None => fallback@,
        });
    }
    let a = trim_chars(&l);
    let b = trim_start_char_chars(&a, '#');
    let c = trim_chars(&b);
    string_from_chars(&c)
}

proof fn lemma_last_dot_step(s: Seq<char>, k: int)
    requires
        0 <= k < s.len(),
        s[k] != '.',
    ensures
        last_dot(s.take(k + 1)) == last_dot(s.take(k)),
{
    assert(s.take(k + 1).drop_last() =~= s.take(k));
}

/// The page name of a file of the manual (see [`md_page_name`]).
pub fn md_page_name_of(file_name: &str) -> (r: Option<String>)
    ensures
        r.deep_view() == md_page_name(file_name@),
{
    let v = str_chars(file_name);
    proof {
        reveal_strlit("..");
        reveal_strlit("md");
    }
    let dd = str_chars("..");
    if crate::text::chars_eq(&v, &dd) {
        return None;
    }
    // the last dot, scanning from the end
    let mut k: usize = v.len();
    proof {
        assert(v@.take(k as int) =~= v@);
    }
    while k > 0 && v[k - 1] != '.'
        invariant
            k <= v@.len(),
            last_dot(v@) == last_dot(v@.take(k as int)),
        decreases k,
    {
        proof {
            lemma_last_dot_step(v@, k - 1);
        }
        k = k - 1;
    }
    if k == 0 {
        proof {
            assert(v@.take(0) =~= Seq::<char>::empty());
        }
        return None;
    }
    let dot = k - 1;
    proof {
        assert(v@.take(k as int).last() == '.');
        assert(last_dot(v@) == Some(dot as int));
    }
    if dot == 0 {
        return None;
    }
    let ext = slice_chars(&v, dot + 1, v.len());
    let md = str_chars("md");
    if !crate::text::chars_eq(&ext, &md) {
        proof {
            assert(ext@ =~= v@.skip(dot + 1));
        }
        return None;
    }
    let stem = slice_chars(&v, 0, dot);
    proof {
        assert(ext@ =~= v@.skip(dot + 1));
        assert(stem@ =~= v@.take(dot as int));
    }
    Some(string_from_chars(&stem))
}

/// Whether `a` comes before or equals `b` in the order of `str`.
pub fn str_le_chars(a: &[char], b: &[char]) -> (r: bool)
    ensures
        r == str_le(a@, b@),
{
    let mut i: usize = 0;
    proof {
        assert(a@.skip(0) =~= a@);
        assert(b@.skip(0) =~= b@);
    }
    while i < a.len() && i < b.len() && a[i] == b[i]
        invariant
            i <= a@.len(),
            i <= b@.len(),
            str_le(a@, b@) == str_le(a@.skip(i as int), b@.skip(i as int)),
        decreases a.len() - i,
    {
        proof {
            assert(a@.skip(i as int).drop_first() =~= a@.skip(i + 1));
            assert(b@.skip(i as int).drop_first() =~= b@.skip(i + 1));
        }
        i = i + 1;
    }
    if i == a.len() {
        true
    } else if i == b.len() {
        false
    } else {
        a[i] < b[i]
    }
}

/// `str_le` is total.
proof fn lemma_str_le_total(a: Seq<char>, b: Seq<char>)
    ensures
        str_le(a, b) || str_le(b, a),
    decreases a.len(),
{
    if a.len() > 0 && b.len() > 0 && a[0] == b[0] {
        lemma_str_le_total(a.drop_first(), b.drop_first());
    }
}

/// `str_le` is transitive.
proof fn lemma_str_le_trans(a: Seq<char>, b: Seq<char>, c: Seq<char>)
    requires
        str_le(a, b),
        str_le(b, c),
    ensures
        str_le(a, c),
    decreases a.len(),
{
    if a.len() > 0 && b.len() > 0 && c.len() > 0 && a[0] == b[0] && b[0] == c[0] {
        lemma_str_le_trans(a.drop_first(), b.drop_first(), c.drop_first());
    }
}

/// The manual's list, the same entries in the order of their page names.
pub fn sort_doc_entries(entries: Vec<DocEntry>) -> (r: Vec<DocEntry>)
    ensures
        r@.to_multiset() == entries@.to_multiset(),
        sorted_by_name(r@),
{
    let mut out: Vec<DocEntry> = Vec::new();
    let mut rest = entries;
    let ghost all = rest@;
    proof {
        broadcast use vstd::seq_lib::group_to_multiset_ensures, vstd::multiset::group_multiset_axioms;
        assert(out@.to_multiset() =~= Multiset::<DocEntry>::empty());
        assert(all.to_multiset() =~= rest@.to_multiset().add(out@.to_multiset()));
    }
    while rest.len() > 0
        invariant
            sorted_by_name(out@),
            all.to_multiset() == rest@.to_multiset().add(out@.to_multiset()),
        decreases rest.len(),
    {
        let ghost rest_before = rest@;
        let e = rest.remove(0);
        let ev = str_chars(e.name.as_str());
        // after the last entry whose name is not greater
        let mut k: usize = out.len();
        while k > 0 && !str_le_chars(&str_chars(out[k - 1].name.as_str()), &ev)
            invariant
                k <= out@.len(),
                sorted_by_name(out@),
                ev@ == e.name@,
                forall|j: int| k <= j < out@.len() ==> !str_le(out@[j].name@, e.name@),
            decreases k,
        {
            k = k - 1;
        }
        let ghost before = out@;
        proof {
            assert forall|j: int| k <= j < before.len() implies str_le(e.name@, before[j].name@) by {
                lemma_str_le_total(before[j].name@, e.name@);
            }
            if k > 0 {
                assert forall|j: int| 0 <= j < k implies str_le(before[j].name@, e.name@) by {
                    if j < k - 1 {
                        lemma_str_le_trans(before[j].name@, before[k - 1].name@, e.name@);
                    }
                }
            }
        }
        out.insert(k, e);
        proof {
            assert(out@ =~= before.insert(k as int, e));
            assert forall|i: int, j: int| 0 <= i < j < out@.len() implies str_le(
                out@[i].name@,
                out@[j].name@,
            ) by {
                if i < k && j > k {
                    lemma_str_le_trans(out@[i].name@, e.name@, out@[j].name@);
                }
            }
            before.insert_ensures(k as int, e);
            broadcast use vstd::seq_lib::group_to_multiset_ensures, vstd::multiset::group_multiset_axioms;
            assert(rest@ == rest_before.remove(0));
            assert(rest@.to_multiset() =~= rest_before.to_multiset().remove(e));
            assert(out@.to_multiset() =~= before.to_multiset().insert(e));
            assert(rest_before.to_multiset().count(e) > 0);
            assert(all.to_multiset() =~= rest@.to_multiset().add(out@.to_multiset()));
        }
    }
    proof {
        broadcast use vstd::seq_lib::group_to_multiset_ensures, vstd::multiset::group_multiset_axioms;
        assert(rest@.to_multiset() =~= Multiset::<DocEntry>::empty());
        assert(all.to_multiset() =~= out@.to_multiset());
    }
    out
}

/// The name of the markdown rendering that the manual's pages get: what
/// `pulldown_cmark` makes of a text with tables, footnotes and
/// strikethrough enabled.
pub uninterp spec fn markdown_html(md: Seq<char>, tables: bool, footnotes: bool, strikethrough: bool) -> Seq<char>;

/// Renders markdown to HTML with `pulldown_cmark` (`Parser::new_ext` with
/// the given extensions, then `html::push_html`). The result is named, not
/// stated. No `requires` is given: the parser is taken to return on every
/// text without panicking, which its source is written for (markdown has
/// no invalid input) but which has not been proved of its many internal
/// `unwrap` and `expect` sites.
#[verifier::external_body]
fn render_markdown(md: &str, tables: bool, footnotes: bool, strikethrough: bool) -> (r: String)
    ensures
        r@ == markdown_html(md@, tables, footnotes, strikethrough),
{
    let mut opts = pulldown_cmark::Options::empty();
    opts.set(pulldown_cmark::Options::ENABLE_TABLES, tables);
    opts.set(pulldown_cmark::Options::ENABLE_FOOTNOTES, footnotes);
    opts.set(pulldown_cmark::Options::ENABLE_STRIKETHROUGH, strikethrough);
    let mut html = String::new();
    pulldown_cmark::html::push_html(&mut html, pulldown_cmark::Parser::new_ext(md, opts));
    html
}

/// A page of the manual as shown: its title (the page name when the file
/// is empty) and its HTML.
pub fn doc_page(name: &str, md: &str) -> (r: (String, String))
    ensures
        r.0@ == doc_title_spec(md@, name@),
        r.1@ == markdown_html(md@, true, true, true),
{
    let title = doc_title(md, name);
    let html = render_markdown(md, true, true, true);
    (title, html)
}

/// An entry of the manual's list from a file's name and first content: the
/// page name and title, or nothing when the file is no markdown page. An
/// unreadable file is passed as empty content, so that its title is its
/// page name.
pub fn doc_entry(file_name: &str, content: &str) -> (r: Option<DocEntry>)
    ensures
        match md_page_name(file_name@) {
            None => r is None,
            Some(stem) => r matches Some(e) && e.name@ == stem && e.title@ == doc_title_spec(
                content@,
                stem,
            ),
        },
{
    match md_page_name_of(file_name) {
        None => None,
        Some(stem) => {
            let title = doc_title(content, stem.as_str());
            Some(DocEntry { name: stem, title })
        },
    }
}

} // verus!
