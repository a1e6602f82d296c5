//! Text cleaning and structure markers for corpus preparation.

use vstd::prelude::*;
use vstd::string::{StringExecFns, StrSliceExecFns};
use crate::strutil::{chars_to_string, str_to_chars, subvec, trim_chars, trim_str, trimmed};

verus! {

/// The text with every match of a pattern replaced.
pub uninterp spec fn regex_replaced(pat: Seq<char>, rep: Seq<char>, text: Seq<char>) -> Seq<char>;

/// Whether a pattern is accepted by the regular-expression engine.
pub uninterp spec fn pattern_compiles(pat: Seq<char>) -> bool;

/// Relies on `regex::Regex::new` and `regex::Regex::replace_all`: every
/// non-overlapping match of the pattern, leftmost first, is replaced.
/// `None` exactly when the pattern does not compile.
#[verifier::external_body]
fn regex_replace_all(pat: &str, rep: &str, text: &str) -> (r: Option<String>)
    ensures
        r is Some <==> pattern_compiles(pat@),
        r matches Some(s) ==> s@ == regex_replaced(pat@, rep@, text@),
{
    match regex::Regex::new(pat) {
        Ok(re) => Some(re.replace_all(text, rep).into_owned()),
        Err(_) => None,
    }
}

/// The four cleaning passes: collapse runs of spaces and tabs, limit blank
/// lines to one, drop stand-alone page numbers, drop page/chapter header
/// lines.
pub open spec fn cleaned_passes(text: Seq<char>) -> Seq<char> {
    regex_replaced(
        "(?m)^(Page \\d+|Chapter \\d+)\\s*$"@,
        ""@,
        regex_replaced(
            "(?m)^\\s*\\d+\\s*$"@,
            ""@,
            regex_replaced("\\n{3,}"@, "\n\n"@, regex_replaced("[ \\t]+"@, " "@, text)),
        ),
    )
}

/// All four cleaning patterns compile.
pub open spec fn cleaning_patterns_ok() -> bool {
    &&& pattern_compiles("[ \\t]+"@)
    &&& pattern_compiles("\\n{3,}"@)
    &&& pattern_compiles("(?m)^\\s*\\d+\\s*$"@)
    &&& pattern_compiles("(?m)^(Page \\d+|Chapter \\d+)\\s*$"@)
}

/// Clean text: collapse runs of horizontal whitespace, limit blank lines,
/// drop stand-alone page numbers and page/chapter header lines, and trim.
/// The verifier cannot rule out a pattern being rejected by the
/// expression engine; if one is, the text is returned merely trimmed.
pub fn clean_text(text: &str) -> (r: String)
    ensures
        cleaning_patterns_ok() ==> r@ == trimmed(cleaned_passes(text@)),
        !cleaning_patterns_ok() ==> r@ == trimmed(text@),
{
    let pass1 = regex_replace_all("[ \\t]+", " ", text);
    let pass2 = match &pass1 {
        Some(t1) => regex_replace_all("\\n{3,}", "\n\n", t1.as_str()),
        None => None,
    };
    let pass3 = match (&pass1, &pass2) {
        (Some(_), Some(t2)) => regex_replace_all("(?m)^\\s*\\d+\\s*$", "", t2.as_str()),
        _ => None,
    };
    let pass4 = match (&pass1, &pass2, &pass3) {
        (Some(_), Some(_), Some(t3)) => regex_replace_all(
            "(?m)^(Page \\d+|Chapter \\d+)\\s*$",
            "",
            t3.as_str(),
        ),
        _ => None,
    };
    match pass4 {
        Some(t4) => trim_str(t4.as_str()),
        None => trim_str(text),
    }
}

/// The paragraph pieces of a text from position `i`, the current piece
/// starting at `start`: split at every blank line (two consecutive
/// newlines).
pub open spec fn paras_from(s: Seq<char>, i: int, start: int) -> Seq<Seq<char>>
    decreases s.len() - i,
{
    if i < start || start < 0 || i > s.len() {
        Seq::empty()
    } else if i + 1 >= s.len() {
        seq![s.subrange(start, s.len() as int)]
    } else if s[i] == '\n' && s[i + 1] == '\n' {
        seq![s.subrange(start, i)] + paras_from(s, i + 2, i + 2)
    } else {
        paras_from(s, i + 1, start)
    }
}

/// The paragraphs of a text, as splitting on a blank line gives them.
pub open spec fn spec_paragraphs(s: Seq<char>) -> Seq<Seq<char>> {
    paras_from(s, 0, 0)
}

/// The paragraphs of a character vector.
fn split_paragraphs(v: &Vec<char>) -> (r: Vec<Vec<char>>)
    ensures
        r@.map_values(|p: Vec<char>| p@) == spec_paragraphs(v@),
{
    let n = v.len();
    let mut r: Vec<Vec<char>> = Vec::new();
    let mut i: usize = 0;
    let mut start: usize = 0;
    while i < n
        invariant
            0 <= start <= i <= n,
            n == v@.len(),
            spec_paragraphs(v@) =~= r@.map_values(|p: Vec<char>| p@) + paras_from(
                v@,
                i as int,
                start as int,
            ),
        decreases n - i,
    {
        if i + 1 < n && v[i] == '\n' && v[i + 1] == '\n' {
            let ghost prev = r@.map_values(|p: Vec<char>| p@);
            let piece = subvec(v, start, i);
            r.push(piece);
            proof {
                assert(r@.map_values(|p: Vec<char>| p@) =~= prev + seq![
                    v@.subrange(start as int, i as int),
                ]);
            }
            start = i + 2;
            i = i + 2;
        } else {
            i += 1;
        }
    }
    let ghost prev = r@.map_values(|p: Vec<char>| p@);
    let tail = subvec(v, start, n);
    r.push(tail);
    proof {
        assert(r@.map_values(|p: Vec<char>| p@) =~= prev + seq![
            v@.subrange(start as int, n as int),
        ]);
        assert(paras_from(v@, i as int, start as int) =~= seq![
            v@.subrange(start as int, n as int),
        ]);
    }
    r
}

/// The marker block one paragraph contributes: nothing when it trims to
/// nothing, otherwise the trimmed paragraph between paragraph markers.
pub open spec fn para_block(p: Seq<char>) -> Seq<char> {
    if trimmed(p).len() == 0 {
        Seq::empty()
    } else {
        "<PARAGRAPH>"@ + trimmed(p) + "</PARAGRAPH>\n"@
    }
}

/// The marker blocks of a paragraph list, concatenated.
pub open spec fn para_blocks(ps: Seq<Seq<char>>) -> Seq<char>
    decreases ps.len(),
{
    if ps.len() == 0 {
        Seq::empty()
    } else {
        para_blocks(ps.drop_last()) + para_block(ps.last())
    }
}

/// The marker block of one titled section.
pub open spec fn section_block(title: Seq<char>, content: Seq<char>) -> Seq<char> {
    "<CHAPTER>"@ + title + "</CHAPTER>\n"@ + para_blocks(spec_paragraphs(content)) + "\n"@
}

/// The marker blocks of a section list, concatenated.
pub open spec fn marked_of(sections: Seq<(String, String)>) -> Seq<char>
    decreases sections.len(),
{
    if sections.len() == 0 {
        Seq::empty()
    } else {
        marked_of(sections.drop_last()) + section_block(
            sections.last().0@,
            sections.last().1@,
        )
    }
}

/// Wrap titled sections in structure markers: each section contributes its
/// title between chapter markers and each non-blank paragraph of its
/// content, trimmed, between paragraph markers.
pub fn add_structure_markers(sections: Vec<(String, String)>) -> (r: String)
    ensures
        r@ == marked_of(sections@),
{
    let mut acc = String::new();
    let mut k: usize = 0;
    while k < sections.len()
        invariant
            0 <= k <= sections@.len(),
            acc@ =~= marked_of(sections@.subrange(0, k as int)),
        decreases sections@.len() - k,
    {
        proof {
            assert(sections@.subrange(0, k + 1).drop_last() =~= sections@.subrange(0, k as int));
            assert(sections@.subrange(0, k + 1).last() == sections@[k as int]);
        }
        acc.append("<CHAPTER>");
        acc.append(sections[k].0.as_str());
        acc.append("</CHAPTER>\n");
        let content_chars = str_to_chars(sections[k].1.as_str());
        let paras = split_paragraphs(&content_chars);
        let mut p: usize = 0;
        let ghost section_prefix = acc@;
        let ghost para_views = paras@.map_values(|q: Vec<char>| q@);
        while p < paras.len()
            invariant
                0 <= p <= paras@.len(),
                para_views == paras@.map_values(|q: Vec<char>| q@),
                acc@ =~= section_prefix + para_blocks(para_views.subrange(0, p as int)),
            decreases paras@.len() - p,
        {
            proof {
                assert(para_views.subrange(0, p + 1).drop_last() =~= para_views.subrange(
                    0,
                    p as int,
                ));
                assert(para_views.subrange(0, p + 1).last() == para_views[p as int]);
            }
            let cleaned = trim_chars(&paras[p]);
            if cleaned.len() > 0 {
                acc.append("<PARAGRAPH>");
                let piece = chars_to_string(&cleaned);
                acc.append(piece.as_str());
                acc.append("</PARAGRAPH>\n");
            }
            p += 1;
        }
        proof {
            assert(para_views.subrange(0, para_views.len() as int) =~= para_views);
        }
        acc.append("\n");
        proof {
            assert(acc@ =~= marked_of(sections@.subrange(0, k + 1)));
        }
        k += 1;
    }
    proof {
        assert(sections@.subrange(0, sections@.len() as int) =~= sections@);
    }
    acc
}

/// Remove chapter and paragraph markers, keeping the text between them.
/// The verifier cannot rule out the marker pattern being rejected by the
/// expression engine; if it is, the text is returned unchanged.
pub fn remove_structure_markers(text: &str) -> (r: String)
    ensures
        pattern_compiles("</?(?:CHAPTER|PARAGRAPH)>"@) ==> r@ == regex_replaced(
            "</?(?:CHAPTER|PARAGRAPH)>"@,
            ""@,
            text@,
        ),
        !pattern_compiles("</?(?:CHAPTER|PARAGRAPH)>"@) ==> r@ == text@,
{
    match regex_replace_all("</?(?:CHAPTER|PARAGRAPH)>", "", text) {
        Some(s) => s,
        None => {
            let v = str_to_chars(text);
            chars_to_string(&v)
        },
    }
}

} // verus!
