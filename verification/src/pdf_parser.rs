//! Structured text extracted from PDF files.  Pulling the raw text out of
//! the container is I/O and stays with the caller; the page splitting,
//! heading detection and sectioning here are pure.

use vstd::prelude::*;
use vstd::string::{StringExecFns, StrSliceExecFns};
use crate::strutil::{
    char_is_numeric, char_is_upper, char_is_ws, chars_to_string, is_numeric, is_upper, is_ws,
    split_lines, spec_lines, str_to_chars, subvec, trim_chars, trimmed, utf8_len,
};

verus! {

/// Raw content of one document: the text, its pages, and whether any
/// extractable text was found.
pub struct PdfContent {
    pub text: String,
    pub pages: Vec<String>,
    pub has_text: bool,
}

/// Why structuring a document can fail.
#[derive(Debug, Clone, Copy, PartialEq, Eq, Structural)]
pub enum PdfTextError {
    /// The document has no extractable text; recognition may be required.
    NoExtractableText,
}

/// The page pieces of a text from position `i`, the current piece starting
/// at `start`: split at every form-feed character, all pieces kept.
pub open spec fn pages_from(s: Seq<char>, i: int, start: int) -> Seq<Seq<char>>
    decreases s.len() - i,
{
    if i < start || start < 0 || i > s.len() {
        Seq::empty()
    } else if i >= s.len() {
        seq![s.subrange(start, s.len() as int)]
    } else if s[i] == '\u{000C}' {
        seq![s.subrange(start, i)] + pages_from(s, i + 1, i + 1)
    } else {
        pages_from(s, i + 1, start)
    }
}

/// The pages of a text, split at form feeds.
pub open spec fn spec_pages(s: Seq<char>) -> Seq<Seq<char>> {
    pages_from(s, 0, 0)
}

/// Wrap extracted document text: pages are the form-feed-separated pieces,
/// and the document counts as having text when it does not trim to nothing.
pub fn pdf_content_from_text(text: String) -> (r: PdfContent)
    ensures
        r.text == text,
        r.has_text == (trimmed(text@).len() > 0),
        r.pages@.map_values(|p: String| p@) == spec_pages(text@),
{
    let v = str_to_chars(text.as_str());
    let has_text = trim_chars(&v).len() > 0;
    let n = v.len();
    let mut pages: Vec<String> = Vec::new();
    let mut i: usize = 0;
    let mut start: usize = 0;
    while i < n
        invariant
            0 <= start <= i <= n,
            n == v@.len(),
            spec_pages(v@) =~= pages@.map_values(|p: String| p@) + pages_from(
                v@,
                i as int,
                start as int,
            ),
        decreases n - i,
    {
        if v[i] == '\u{000C}' {
            let ghost prev = pages@.map_values(|p: String| p@);
            let piece = subvec(&v, start, i);
            pages.push(chars_to_string(&piece));
            proof {
                assert(pages@.map_values(|p: String| p@) =~= prev + seq![
                    v@.subrange(start as int, i as int),
                ]);
            }
            start = i + 1;
        }
        i += 1;
    }
    let ghost prev = pages@.map_values(|p: String| p@);
    let tail = subvec(&v, start, n);
    pages.push(chars_to_string(&tail));
    proof {
        assert(pages@.map_values(|p: String| p@) =~= prev + seq![
            v@.subrange(start as int, n as int),
        ]);
        assert(pages_from(v@, n as int, start as int) =~= seq![
            v@.subrange(start as int, n as int),
        ]);
    }
    PdfContent { text, pages, has_text }
}

/// The sequence begins with the given prefix.
pub open spec fn has_prefix(s: Seq<char>, p: Seq<char>) -> bool {
    p.len() <= s.len() && s.subrange(0, p.len() as int) == p
}

/// Every character is uppercase or whitespace.
pub open spec fn all_upper_or_ws(s: Seq<char>) -> bool {
    forall|i: int| 0 <= i < s.len() ==> char_is_upper(#[trigger] s[i]) || char_is_ws(s[i])
}

/// The heading heuristic: common heading openers, a short line that starts
/// with a digit, or a short all-capitals line.
pub open spec fn spec_likely_heading(s: Seq<char>) -> bool {
    s.len() > 0 && {
        ||| has_prefix(s, "Chapter "@)
        ||| has_prefix(s, "CHAPTER "@)
        ||| has_prefix(s, "Section "@)
        ||| has_prefix(s, "Part "@)
        ||| (char_is_numeric(s[0]) && utf8_len(s) < 50)
        ||| (all_upper_or_ws(s) && utf8_len(s) < 80)
    }
}

/// The line begins with the given pattern.
fn starts_with_lit(v: &Vec<char>, pat: &str) -> (r: bool)
    ensures
        r == has_prefix(v@, pat@),
{
    let m = pat.unicode_len();
    if m > v.len() {
        proof {
            assert(!has_prefix(v@, pat@));
        }
        return false;
    }
    let mut k: usize = 0;
    while k < m
        invariant
            0 <= k <= m,
            m == pat@.len(),
            m <= v@.len(),
            forall|t: int| 0 <= t < k ==> v@[t] == pat@[t],
        decreases m - k,
    {
        if v[k] != pat.get_char(k) {
            proof {
                assert(v@.subrange(0, m as int)[k as int] != pat@[k as int]);
            }
            return false;
        }
        k += 1;
    }
    proof {
        assert(v@.subrange(0, m as int) =~= pat@);
    }
    true
}

/// Whether every character of the line is uppercase or whitespace.
fn check_all_upper_or_ws(v: &Vec<char>) -> (r: bool)
    ensures
        r == all_upper_or_ws(v@),
{
    let mut i: usize = 0;
    while i < v.len()
        invariant
            0 <= i <= v@.len(),
            forall|j: int| 0 <= j < i ==> char_is_upper(#[trigger] v@[j]) || char_is_ws(v@[j]),
        decreases v@.len() - i,
    {
        let c = v[i];
        if !is_upper(c) && !is_ws(c) {
            return false;
        }
        i += 1;
    }
    true
}

/// Whether a line looks like a chapter or section heading.
pub fn is_likely_heading(line: &str) -> (r: bool)
    ensures
        r == spec_likely_heading(line@),
{
    let v = str_to_chars(line);
    if v.len() == 0 {
        return false;
    }
    if starts_with_lit(&v, "Chapter ") || starts_with_lit(&v, "CHAPTER ") || starts_with_lit(
        &v,
        "Section ",
    ) || starts_with_lit(&v, "Part ") {
        return true;
    }
    let bytes = crate::epub_parser::byte_len(&v);
    if is_numeric(v[0]) && bytes < 50 {
        return true;
    }
    check_all_upper_or_ws(&v) && bytes < 80
}

/// One step of the sectioning fold: a heading line closes the section in
/// progress (when it has content) and opens a new one under its own,
/// trimmed, name; any other non-blank line joins the content in progress.
pub open spec fn section_step(
    st: (Seq<char>, Seq<char>, Seq<(Seq<char>, Seq<char>)>),
    line: Seq<char>,
) -> (Seq<char>, Seq<char>, Seq<(Seq<char>, Seq<char>)>) {
    let t = trimmed(line);
    if spec_likely_heading(t) {
        if st.1.len() > 0 {
            (t, Seq::empty(), st.2.push((st.0, trimmed(st.1))))
        } else {
            (t, st.1, st.2)
        }
    } else {
        if t.len() > 0 {
            (st.0, st.1 + line + seq!['\n'], st.2)
        } else {
            st
        }
    }
}

/// The sectioning fold over a line list.
pub open spec fn sectionize(ls: Seq<Seq<char>>) -> (
    Seq<char>,
    Seq<char>,
    Seq<(Seq<char>, Seq<char>)>,
)
    decreases ls.len(),
{
    if ls.len() == 0 {
        ("Introduction"@, Seq::empty(), Seq::empty())
    } else {
        section_step(sectionize(ls.drop_last()), ls.last())
    }
}

/// The sections of a text: the fold over its lines, with the section still
/// in progress appended when it has content.
pub open spec fn spec_sections(text: Seq<char>) -> Seq<(Seq<char>, Seq<char>)> {
    let st = sectionize(spec_lines(text));
    if st.1.len() > 0 {
        st.2.push((st.0, trimmed(st.1)))
    } else {
        st.2
    }
}

/// Detect chapter-like sections of extracted document text.  Fails exactly
/// when the text trims to nothing (recognition may be required); otherwise
/// the titled sections in reading order.
pub fn extract_structured_content(text: &str) -> (r: Result<
    Vec<(String, String)>,
    PdfTextError,
>)
    ensures
        r is Err <==> trimmed(text@).len() == 0,
        r matches Ok(sections) ==> sections@.map_values(|p: (String, String)| (p.0@, p.1@))
            == spec_sections(text@),
{
    let all = str_to_chars(text);
    if trim_chars(&all).len() == 0 {
        return Err(PdfTextError::NoExtractableText);
    }
    let lines = split_lines(&all);
    let ghost line_views = lines@.map_values(|l: Vec<char>| l@);
    let mut title = str_to_chars("Introduction");
    let mut content: Vec<char> = Vec::new();
    let mut sections: Vec<(String, String)> = Vec::new();
    let mut i: usize = 0;
    proof {
        assert(line_views.subrange(0, 0) =~= Seq::<Seq<char>>::empty());
    }
    while i < lines.len()
        invariant
            0 <= i <= lines@.len(),
            line_views == lines@.map_values(|l: Vec<char>| l@),
            (title@, content@, sections@.map_values(|p: (String, String)| (p.0@, p.1@)))
                == sectionize(line_views.subrange(0, i as int)),
        decreases lines@.len() - i,
    {
        proof {
            assert(line_views.subrange(0, i + 1).drop_last() =~= line_views.subrange(0, i as int));
            assert(line_views.subrange(0, i + 1).last() == line_views[i as int]);
        }
        let ghost pre_sections = sections@.map_values(|p: (String, String)| (p.0@, p.1@));
        let t = trim_chars(&lines[i]);
        let t_str = chars_to_string(&t);
        if is_likely_heading(t_str.as_str()) {
            if content.len() > 0 {
                let closed_title = chars_to_string(&title);
                let closed_content = chars_to_string(&trim_chars(&content));
                sections.push((closed_title, closed_content));
                proof {
                    assert(sections@.map_values(|p: (String, String)| (p.0@, p.1@))
                        =~= pre_sections.push((title@, trimmed(content@))));
                }
                content = Vec::new();
            }
            title = t;
        } else {
            if t.len() > 0 {
                let mut line_copy = subvec(&lines[i], 0, lines[i].len());
                content.append(&mut line_copy);
                content.push('\n');
                proof {
                    assert(content@ =~= sectionize(line_views.subrange(0, i as int)).1
                        + line_views[i as int] + seq!['\n']);
                }
            }
        }
        i += 1;
    }
    proof {
        assert(line_views.subrange(0, lines@.len() as int) =~= line_views);
    }
    if content.len() > 0 {
        let ghost pre_sections = sections@.map_values(|p: (String, String)| (p.0@, p.1@));
        let closed_title = chars_to_string(&title);
        let closed_content = chars_to_string(&trim_chars(&content));
        sections.push((closed_title, closed_content));
        proof {
            assert(sections@.map_values(|p: (String, String)| (p.0@, p.1@)) =~= pre_sections.push(
                (title@, trimmed(content@)),
            ));
        }
    }
    Ok(sections)
}

} // verus!
