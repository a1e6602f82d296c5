//! Structured text extracted from EPUB chapters, and the HTML stripping
//! it rests on.  Opening the container and walking its spine is I/O and
//! stays with the caller; the text handling here is pure.

use vstd::prelude::*;
use vstd::string::StrSliceExecFns;
use crate::strutil::{
    char_is_ws, chars_to_string, is_ws, split_lines, spec_lines, str_to_chars, trim_chars,
    trimmed, utf8_len,
};

verus! {

/// Structured content of one book.
pub struct EpubContent {
    pub title: String,
    pub author: String,
    pub chapters: Vec<(String, String)>,
}

/// Case-insensitive match of an ASCII-lowercase pattern character.
pub open spec fn ascii_eq_ci(a: char, b: char) -> bool {
    a == b || ('A' <= a && a <= 'Z' && (a as u32) + 32 == (b as u32))
}

/// The text at position `j` begins, case-insensitively, with the
/// ASCII-lowercase pattern `p`.
pub open spec fn ci_prefix_at(s: Seq<char>, j: int, p: Seq<char>) -> bool {
    &&& 0 <= j
    &&& j + p.len() <= s.len()
    &&& forall|k: int| 0 <= k < p.len() ==> ascii_eq_ci(#[trigger] s[j + k], p[k])
}

/// How an opening angle bracket at position `j - 1` changes the
/// script/style state: script and style tags enter it, their closing tags
/// leave it, anything else keeps it.
pub open spec fn script_state_after(s: Seq<char>, j: int, cur: bool) -> bool {
    if ci_prefix_at(s, j, "script"@) || ci_prefix_at(s, j, "style"@) {
        true
    } else if ci_prefix_at(s, j, "/script"@) || ci_prefix_at(s, j, "/style"@) {
        false
    } else {
        cur
    }
}

/// The visible characters of an HTML fragment from position `i`: markup is
/// replaced by single spaces, script and style elements disappear whole.
pub open spec fn strip_html_from(s: Seq<char>, i: int, in_tag: bool, in_script: bool) -> Seq<char>
    decreases s.len() - i,
{
    if i < 0 || i >= s.len() {
        Seq::empty()
    } else if s[i] == '<' {
        strip_html_from(s, i + 1, true, script_state_after(s, i + 1, in_script))
    } else if s[i] == '>' {
        (if !in_script {
            seq![' ']
        } else {
            Seq::empty()
        }) + strip_html_from(s, i + 1, false, in_script)
    } else if !in_tag && !in_script {
        seq![s[i]] + strip_html_from(s, i + 1, in_tag, in_script)
    } else {
        strip_html_from(s, i + 1, in_tag, in_script)
    }
}

/// Whitespace-normalization from position `i`: words joined by single
/// spaces, no leading or trailing whitespace.
pub open spec fn norm_ws_from(s: Seq<char>, i: int, started: bool) -> Seq<char>
    decreases s.len() - i,
{
    if i < 0 || i >= s.len() {
        Seq::empty()
    } else if char_is_ws(s[i]) {
        norm_ws_from(s, i + 1, started)
    } else {
        (if started && i > 0 && char_is_ws(s[i - 1]) {
            seq![' ']
        } else if started && i == 0 {
            seq![' ']
        } else {
            Seq::empty()
        }) + seq![s[i]] + norm_ws_from(s, i + 1, true)
    }
}

/// What stripping the markup from an HTML fragment leaves: the visible
/// text, whitespace-normalized.
pub open spec fn stripped_html(s: Seq<char>) -> Seq<char> {
    norm_ws_from(strip_html_from(s, 0, false, false), 0, false)
}

/// Case-insensitive comparison against an ASCII-lowercase pattern.
fn ci_starts(v: &Vec<char>, j: usize, pat: &str) -> (r: bool)
    requires
        j <= v@.len(),
    ensures
        r == ci_prefix_at(v@, j as int, pat@),
{
    let m = pat.unicode_len();
    if m > v.len() - j {
        return false;
    }
    let mut k: usize = 0;
    while k < m
        invariant
            0 <= k <= m,
            m == pat@.len(),
            j + m <= v@.len(),
            v@.len() <= usize::MAX,
            forall|t: int| 0 <= t < k ==> ascii_eq_ci(#[trigger] v@[j + t], pat@[t]),
        decreases m - k,
    {
        let a = v[j + k];
        let b = pat.get_char(k);
        let matches_here = if a == b {
            true
        } else if 'A' <= a && a <= 'Z' {
            (a as u32) + 32 == (b as u32)
        } else {
            false
        };
        if !matches_here {
            return false;
        }
        k += 1;
    }
    true
}

/// Strip HTML markup: tags are replaced by spaces, the contents of script
/// and style elements are dropped whole, and the visible text is
/// whitespace-normalized.
pub fn strip_html_tags(html: &str) -> (r: String)
    ensures
        r@ == stripped_html(html@),
{
    let v = str_to_chars(html);
    let n = v.len();
    let mut raw: Vec<char> = Vec::new();
    let mut in_tag = false;
    let mut in_script = false;
    let mut i: usize = 0;
    while i < n
        invariant
            0 <= i <= n,
            n == v@.len(),
            strip_html_from(v@, 0, false, false) =~= raw@ + strip_html_from(
                v@,
                i as int,
                in_tag,
                in_script,
            ),
        decreases n - i,
    {
        let c = v[i];
        if c == '<' {
            in_tag = true;
            let opens_script = ci_starts(&v, i + 1, "script") || ci_starts(&v, i + 1, "style");
            let closes_script = ci_starts(&v, i + 1, "/script") || ci_starts(&v, i + 1, "/style");
            if opens_script {
                in_script = true;
            } else if closes_script {
                in_script = false;
            }
        } else if c == '>' {
            in_tag = false;
            if !in_script {
                raw.push(' ');
            }
        } else if !in_tag && !in_script {
            raw.push(c);
        }
        i += 1;
    }
    // whitespace normalization of the visible text
    let m = raw.len();
    let mut out: Vec<char> = Vec::new();
    let mut started = false;
    let mut k: usize = 0;
    while k < m
        invariant
            0 <= k <= m,
            m == raw@.len(),
            norm_ws_from(raw@, 0, false) =~= out@ + norm_ws_from(raw@, k as int, started),
            started ==> k > 0,
        decreases m - k,
    {
        let c = raw[k];
        if is_ws(c) {
            k += 1;
        } else {
            if started && k > 0 && is_ws(raw[k - 1]) {
                out.push(' ');
            }
            out.push(c);
            started = true;
            k += 1;
        }
    }
    chars_to_string(&out)
}

/// The first line that trims to something short enough to be a title.
pub open spec fn spec_chapter_title(ls: Seq<Seq<char>>) -> Option<Seq<char>>
    decreases ls.len(),
{
    if ls.len() == 0 {
        None
    } else {
        let t = trimmed(ls[0]);
        if t.len() > 0 && utf8_len(t) < 100 {
            Some(t)
        } else {
            spec_chapter_title(ls.drop_first())
        }
    }
}

/// The chapter title of a content fragment: its first non-empty line of
/// fewer than one hundred bytes, trimmed.
pub fn extract_chapter_title(content: &str) -> (r: Option<String>)
    ensures
        r is Some <==> spec_chapter_title(spec_lines(content@)) is Some,
        r matches Some(t) ==> spec_chapter_title(spec_lines(content@)) == Some(t@),
{
    let v = str_to_chars(content);
    let lines = split_lines(&v);
    let ghost line_views = lines@.map_values(|l: Vec<char>| l@);
    proof {
        assert(line_views.skip(0) =~= line_views);
    }
    let mut i: usize = 0;
    while i < lines.len()
        invariant
            0 <= i <= lines@.len(),
            line_views == lines@.map_values(|l: Vec<char>| l@),
            line_views == spec_lines(content@),
            spec_chapter_title(line_views) == spec_chapter_title(
                line_views.skip(i as int),
            ),
        decreases lines@.len() - i,
    {
        proof {
            assert(line_views.skip(i as int)[0] == line_views[i as int]);
            assert(line_views.skip(i as int).drop_first() =~= line_views.skip(i + 1));
        }
        let t = trim_chars(&lines[i]);
        if t.len() > 0 && byte_len(&t) < 100 {
            proof {
                assert(t@ == trimmed(line_views[i as int]));
                assert(utf8_len(t@) < 100);
                assert(spec_chapter_title(line_views.skip(i as int)) == Some(t@));
            }
            return Some(chars_to_string(&t));
        }
        i += 1;
    }
    proof {
        assert(line_views.skip(lines@.len() as int) =~= Seq::<Seq<char>>::empty());
    }
    None
}

/// The UTF-8 byte length of a character vector.
pub fn byte_len(v: &Vec<char>) -> (r: usize)
    ensures
        r <= utf8_len(v@),
        r < usize::MAX ==> r == utf8_len(v@),
{
    let mut total: usize = 0;
    let mut i: usize = 0;
    while i < v.len()
        invariant
            0 <= i <= v@.len(),
            total <= utf8_len(v@.take(i as int)),
            total < usize::MAX ==> total == utf8_len(v@.take(i as int)),
        decreases v@.len() - i,
    {
        let c = v[i];
        let w: usize = if (c as u32) < 0x80 {
            1
        } else if (c as u32) < 0x800 {
            2
        } else if (c as u32) < 0x10000 {
            3
        } else {
            4
        };
        proof {
            assert(v@.take(i + 1).drop_last() =~= v@.take(i as int));
            assert(v@.take(i + 1).last() == v@[i as int]);
        }
        if total > usize::MAX - w {
            total = usize::MAX;
        } else {
            total = total + w;
        }
        i += 1;
    }
    proof {
        assert(v@.take(v@.len() as int) =~= v@);
    }
    total
}

} // verus!
