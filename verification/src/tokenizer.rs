//! Character-level tokenization.
//!
//! Ids 0 and 1 are reserved for the padding and unknown tokens; every other
//! id is two more than the character's position in the vocabulary vector.

use vstd::prelude::*;
use vstd::string::StrSliceExecFns;
use crate::strutil::{chars_to_string, contains_char, find_char};

verus! {

/// The characters with reserved ids: padding and the replacement character.
pub open spec fn is_reserved_char(c: char) -> bool {
    c == '\0' || c == '\u{FFFD}'
}

/// Tokenization: a bijective-as-far-as-possible map between text and ids.
pub trait Tokenizer {
    spec fn wf(&self) -> bool;

    fn encode(&self, text: &str) -> (r: Vec<i64>)
        requires
            self.wf(),
    ;

    fn decode(&self, tokens: &[i64]) -> (r: String)
        requires
            self.wf(),
    ;

    fn vocab_size(&self) -> (r: usize)
        requires
            self.wf(),
    ;

    fn unk_id(&self) -> i64;

    fn pad_id(&self) -> i64;
}

/// A character-level tokenizer: a vocabulary vector; the id of the
/// character at position `i` is `i + 2`.
pub struct CharTokenizer {
    chars: Vec<char>,
}

impl CharTokenizer {
    pub closed spec fn chars_view(self) -> Seq<char> {
        self.chars@
    }

    /// The vocabulary holds no reserved character, no duplicates, and every
    /// id fits the id type.
    pub open spec fn inv(self) -> bool {
        &&& forall|i: int|
            0 <= i < self.chars_view().len() ==> !is_reserved_char(#[trigger] self.chars_view()[i])
        &&& forall|i: int, j: int|
            0 <= i < j < self.chars_view().len() ==> #[trigger] self.chars_view()[i]
                != #[trigger] self.chars_view()[j]
        &&& self.chars_view().len() + 2 <= i64::MAX
        &&& self.chars_view().len() + 2 <= usize::MAX
    }

    pub open spec fn has_char(self, c: char) -> bool {
        exists|i: int| 0 <= i < self.chars_view().len() && self.chars_view()[i] == c
    }

    /// The id a character encodes to.
    pub open spec fn token_matches(self, c: char, id: i64) -> bool {
        if c == '\0' {
            id == 0
        } else if c == '\u{FFFD}' {
            id == 1
        } else if self.has_char(c) {
            2 <= id && id - 2 < self.chars_view().len() && self.chars_view()[id - 2] == c
        } else {
            id == 1
        }
    }

    /// What one id decodes to: the reserved characters, the vocabulary
    /// entry, or nothing for an id out of range.
    pub open spec fn decoded_one(self, id: i64) -> Seq<char> {
        if id == 0 {
            seq!['\0']
        } else if id == 1 {
            seq!['\u{FFFD}']
        } else if 2 <= id && id - 2 < self.chars_view().len() {
            seq![self.chars_view()[id - 2]]
        } else {
            Seq::empty()
        }
    }

    /// What a sequence of ids decodes to.
    pub open spec fn decoded(self, toks: Seq<i64>) -> Seq<char>
        decreases toks.len(),
    {
        if toks.len() == 0 {
            Seq::empty()
        } else {
            self.decoded(toks.drop_last()) + self.decoded_one(toks.last())
        }
    }

    /// Build a tokenizer from sample text: the vocabulary is the set of
    /// distinct non-reserved characters of the text, in code-point order.
    pub fn from_text(text: &str) -> (r: CharTokenizer)
        requires
            text@.len() + 2 <= i64::MAX,
            text@.len() + 2 <= usize::MAX,
        ensures
            r.inv(),
            forall|i: int, j: int|
                0 <= i < j < r.chars_view().len() ==> (#[trigger] (r.chars_view()[i] as u32)) < (
                #[trigger] (r.chars_view()[j] as u32)),
            forall|c: char| #[trigger] r.has_char(c) <==> text@.contains(c) && !is_reserved_char(c),
    {
        let n = text.unicode_len();
        let mut chars: Vec<char> = Vec::new();
        let mut i: usize = 0;
        while i < n
            invariant
                0 <= i <= n,
                n == text@.len(),
                n + 2 <= i64::MAX,
                n + 2 <= usize::MAX,
                chars@.len() <= i,
                forall|p: int, q: int|
                    0 <= p < q < chars@.len() ==> (#[trigger] (chars@[p] as u32)) < (#[trigger] (
                    chars@[q] as u32)),
                forall|p: int| 0 <= p < chars@.len() ==> !is_reserved_char(#[trigger] chars@[p]),
                forall|c: char|
                    #[trigger] chars@.contains(c) <==> text@.subrange(0, i as int).contains(c)
                        && !is_reserved_char(c),
            decreases n - i,
        {
            let c = text.get_char(i);
            let ghost pre = chars@;
            if !(c == '\0' || c == '\u{FFFD}') {
                insert_sorted(&mut chars, c);
            }
            proof {
                assert forall|d: char| #[trigger]
                    text@.subrange(0, i + 1).contains(d) implies text@.subrange(
                    0,
                    i as int,
                ).contains(d) || d == text@[i as int] by {
                    let w = choose|w: int|
                        0 <= w < i + 1 && #[trigger] text@.subrange(0, i + 1)[w] == d;
                    if w < i {
                        assert(text@.subrange(0, i as int)[w] == d);
                    }
                }
                assert forall|d: char|
                    text@.subrange(0, i as int).contains(d) implies #[trigger] text@.subrange(
                    0,
                    i + 1,
                ).contains(d) by {
                    let w = choose|w: int|
                        0 <= w < i && #[trigger] text@.subrange(0, i as int)[w] == d;
                    assert(text@.subrange(0, i + 1)[w] == d);
                }
                assert(text@.subrange(0, i + 1)[i as int] == text@[i as int]);
                assert forall|p: int|
                    0 <= p < chars@.len() implies !is_reserved_char(#[trigger] chars@[p]) by {
                    assert(chars@.contains(chars@[p]));
                    if pre.contains(chars@[p]) {
                        let w = choose|w: int| 0 <= w < pre.len() && #[trigger] pre[w] == chars@[p];
                    }
                }
                assert forall|d: char| #[trigger]
                    chars@.contains(d) implies text@.subrange(0, i + 1).contains(d)
                    && !is_reserved_char(d) by {
                    if pre.contains(d) {
                    } else {
                        assert(d == text@[i as int]);
                    }
                }
                assert forall|d: char|
                    text@.subrange(0, i + 1).contains(d) && !is_reserved_char(d) implies #[trigger]
                    chars@.contains(d) by {
                    if text@.subrange(0, i as int).contains(d) {
                        assert(pre.contains(d));
                        if !is_reserved_char(text@[i as int]) {
                        } else {
                            assert(chars@ == pre);
                        }
                    } else {
                        assert(d == text@[i as int]);
                    }
                }
            }
            i += 1;
        }
        proof {
            assert(text@.subrange(0, n as int) =~= text@);
        }
        let r = CharTokenizer { chars };
        proof {
            assert forall|p: int, q: int|
                0 <= p < q < r.chars_view().len() implies (#[trigger] (r.chars_view()[p] as u32))
                < (#[trigger] (r.chars_view()[q] as u32)) by {
                assert((chars@[p] as u32) < (chars@[q] as u32));
            }
            assert forall|p: int, q: int|
                0 <= p < q < r.chars_view().len() implies #[trigger] r.chars_view()[p]
                != #[trigger] r.chars_view()[q] by {
                assert((r.chars_view()[p] as u32) < (r.chars_view()[q] as u32));
            }
            assert forall|c: char| #[trigger] r.has_char(c) implies text@.contains(c)
                && !is_reserved_char(c) by {
                if r.has_char(c) {
                    assert(r.chars_view().contains(c));
                }
            }
            assert forall|c: char|
                text@.contains(c) && !is_reserved_char(c) implies #[trigger] r.has_char(c) by {
                assert(r.chars_view().contains(c));
                let w = choose|w: int|
                    0 <= w < r.chars_view().len() && #[trigger] r.chars_view()[w] == c;
                assert(0 <= w < r.chars_view().len() && r.chars_view()[w] == c);
            }
        }
        r
    }

    /// Build a tokenizer from an explicit vocabulary: reserved characters
    /// and repeated characters are dropped, first occurrences keep their
    /// order.
    pub fn from_vocab(vocab: Vec<char>) -> (r: CharTokenizer)
        requires
            vocab@.len() + 2 <= i64::MAX,
            vocab@.len() + 2 <= usize::MAX,
        ensures
            r.inv(),
            r.chars_view() == vocab_kept(vocab@),
    {
        let mut chars: Vec<char> = Vec::new();
        let mut i: usize = 0;
        while i < vocab.len()
            invariant
                0 <= i <= vocab@.len(),
                vocab@.len() + 2 <= i64::MAX,
                vocab@.len() + 2 <= usize::MAX,
                chars@.len() <= i,
                chars@ == vocab_kept(vocab@.subrange(0, i as int)),
                forall|p: int| 0 <= p < chars@.len() ==> !is_reserved_char(#[trigger] chars@[p]),
                forall|p: int, q: int|
                    0 <= p < q < chars@.len() ==> #[trigger] chars@[p] != #[trigger] chars@[q],
            decreases vocab@.len() - i,
        {
            let c = vocab[i];
            proof {
                assert(vocab@.subrange(0, i + 1).drop_last() =~= vocab@.subrange(0, i as int));
                assert(vocab@.subrange(0, i + 1).last() == vocab@[i as int]);
            }
            if !(c == '\0' || c == '\u{FFFD}') && !contains_char(&chars, c) {
                proof {
                    assert forall|p: int, q: int|
                        0 <= p < q < chars@.push(c).len() implies #[trigger] chars@.push(c)[p]
                        != #[trigger] chars@.push(c)[q] by {
                        if q < chars@.len() {
                        } else {
                            assert(chars@.contains(chars@[p]));
                        }
                    }
                }
                chars.push(c);
            }
            i += 1;
        }
        proof {
            assert(vocab@.subrange(0, vocab@.len() as int) =~= vocab@);
        }
        CharTokenizer { chars }
    }

    /// Encode text: each character becomes its vocabulary id, reserved
    /// characters their reserved ids, anything else the unknown id.
    pub fn encode(&self, text: &str) -> (r: Vec<i64>)
        requires
            self.inv(),
        ensures
            r@.len() == text@.len(),
            forall|k: int|
                0 <= k < r@.len() ==> self.token_matches(text@[k], #[trigger] r@[k]),
    {
        let n = text.unicode_len();
        let mut ids: Vec<i64> = Vec::new();
        let mut i: usize = 0;
        while i < n
            invariant
                0 <= i <= n,
                n == text@.len(),
                self.inv(),
                ids@.len() == i,
                forall|k: int|
                    0 <= k < i ==> self.token_matches(text@[k], #[trigger] ids@[k]),
            decreases n - i,
        {
            let c = text.get_char(i);
            let id: i64 = if c == '\0' {
                0
            } else if c == '\u{FFFD}' {
                1
            } else {
                match find_char(&self.chars, c) {
                    Some(pos) => (pos as i64) + 2,
                    None => 1,
                }
            };
            proof {
                if !is_reserved_char(text@[i as int]) && self.chars_view().contains(
                    text@[i as int],
                ) {
                    assert(self.has_char(text@[i as int]));
                }
            }
            ids.push(id);
            i += 1;
        }
        ids
    }

    /// Decode ids: reserved ids and vocabulary ids become their characters;
    /// an id out of range is skipped.
    pub fn decode(&self, tokens: &[i64]) -> (r: String)
        requires
            self.inv(),
        ensures
            r@ == self.decoded(tokens@),
    {
        let n = tokens.len();
        let mut acc: Vec<char> = Vec::new();
        let mut i: usize = 0;
        while i < n
            invariant
                0 <= i <= n,
                n == tokens@.len(),
                self.inv(),
                acc@ == self.decoded(tokens@.subrange(0, i as int)),
            decreases n - i,
        {
            let id = tokens[i];
            proof {
                assert(tokens@.subrange(0, i + 1).drop_last() =~= tokens@.subrange(0, i as int));
                assert(tokens@.subrange(0, i + 1).last() == tokens@[i as int]);
            }
            if id == 0 {
                acc.push('\0');
                proof {
                    assert(acc@ =~= self.decoded(tokens@.subrange(0, i + 1)));
                }
            } else if id == 1 {
                acc.push('\u{FFFD}');
                proof {
                    assert(acc@ =~= self.decoded(tokens@.subrange(0, i + 1)));
                }
            } else if id >= 2 && id - 2 < self.chars.len() as i64 {
                acc.push(self.chars[(id - 2) as usize]);
                proof {
                    assert(acc@ =~= self.decoded(tokens@.subrange(0, i + 1)));
                }
            } else {
                proof {
                    assert(acc@ =~= self.decoded(tokens@.subrange(0, i + 1)));
                }
            }
            i += 1;
        }
        proof {
            assert(tokens@.subrange(0, n as int) =~= tokens@);
        }
        chars_to_string(&acc)
    }

    /// The vocabulary characters, in id order: the character at position
    /// `i` encodes to `i + 2`.  Persisting this vector and rebuilding with
    /// `from_vocab` yields a tokenizer with the same ids (see
    /// `lemma_vocab_rebuild_identity`).
    pub fn vocab(&self) -> (r: Vec<char>)
        ensures
            r@ == self.chars_view(),
    {
        let n = self.chars.len();
        let mut r: Vec<char> = Vec::new();
        let mut i: usize = 0;
        while i < n
            invariant
                0 <= i <= n,
                n == self.chars_view().len(),
                r@ =~= self.chars_view().subrange(0, i as int),
            decreases n - i,
        {
            r.push(self.chars[i]);
            proof {
                assert(r@ =~= self.chars_view().subrange(0, i + 1));
            }
            i += 1;
        }
        proof {
            assert(self.chars_view().subrange(0, n as int) =~= self.chars_view());
        }
        r
    }

    /// Vocabulary size, the two reserved ids included.
    pub fn vocab_size(&self) -> (r: usize)
        requires
            self.inv(),
        ensures
            r == self.chars_view().len() + 2,
    {
        self.chars.len() + 2
    }

    /// The id unknown characters encode to.
    pub fn unk_id(&self) -> (r: i64)
        ensures
            r == 1,
    {
        1
    }

    /// The padding id.
    pub fn pad_id(&self) -> (r: i64)
        ensures
            r == 0,
    {
        0
    }
}

/// Law: a tokenizer's own vocabulary survives `from_vocab` unchanged, so
/// saving the vocabulary and rebuilding keeps every id: the vector holds no
/// reserved character and no repeat, and such a list is exactly what
/// `from_vocab` keeps.
pub proof fn lemma_vocab_rebuild_identity(t: CharTokenizer)
    requires
        t.inv(),
    ensures
        vocab_kept(t.chars_view()) == t.chars_view(),
{
    lemma_vocab_kept_identity(t.chars_view());
}

/// A list without reserved characters or repeats is kept whole.
proof fn lemma_vocab_kept_identity(s: Seq<char>)
    requires
        forall|i: int| 0 <= i < s.len() ==> !is_reserved_char(#[trigger] s[i]),
        forall|i: int, j: int| 0 <= i < j < s.len() ==> #[trigger] s[i] != #[trigger] s[j],
    ensures
        vocab_kept(s) == s,
    decreases s.len(),
{
    if s.len() > 0 {
        lemma_vocab_kept_identity(s.drop_last());
        if s.drop_last().contains(s.last()) {
            let w = choose|w: int| 0 <= w < s.drop_last().len() && #[trigger] s.drop_last()[w]
                == s.last();
            assert(s[w] == s[s.len() - 1]);
            assert(false);
        }
        assert(vocab_kept(s) =~= s);
    } else {
        assert(vocab_kept(s) =~= s);
    }
}

/// The vocabulary a character list is kept as: reserved characters and
/// repeats dropped, first occurrences in order.
pub open spec fn vocab_kept(s: Seq<char>) -> Seq<char>
    decreases s.len(),
{
    if s.len() == 0 {
        Seq::empty()
    } else {
        let pre = vocab_kept(s.drop_last());
        if is_reserved_char(s.last()) || pre.contains(s.last()) {
            pre
        } else {
            pre.push(s.last())
        }
    }
}

/// Distinct characters have distinct code points.
proof fn lemma_char_strict(c1: char, c2: char)
    requires
        c1 != c2,
        (c1 as u32) >= (c2 as u32),
    ensures
        (c1 as u32) > (c2 as u32),
{
}

/// The first position whose character is not below `c` in code-point
/// order.
fn lower_bound(v: &Vec<char>, c: char) -> (j: usize)
    ensures
        j <= v@.len(),
        forall|p: int| 0 <= p < j ==> (#[trigger] (v@[p] as u32)) < (c as u32),
        j < v@.len() ==> (v@[j as int] as u32) >= (c as u32),
{
    let mut j: usize = 0;
    while j < v.len()
        invariant
            0 <= j <= v@.len(),
            forall|p: int| 0 <= p < j ==> (#[trigger] (v@[p] as u32)) < (c as u32),
        decreases v@.len() - j,
    {
        if !((v[j] as u32) < (c as u32)) {
            return j;
        }
        j += 1;
    }
    j
}

/// Insert a character into a strictly code-point-ordered vector, keeping
/// the order; a character already present is left alone.
fn insert_sorted(v: &mut Vec<char>, c: char)
    requires
        forall|p: int, q: int|
            0 <= p < q < old(v)@.len() ==> (#[trigger] (old(v)@[p] as u32)) < (#[trigger] (old(v)@[q] as u32)),
        old(v)@.len() < usize::MAX,
    ensures
        forall|p: int, q: int|
            0 <= p < q < final(v)@.len() ==> (#[trigger] (final(v)@[p] as u32)) < (#[trigger] (
            final(v)@[q] as u32)),
        final(v)@.len() <= old(v)@.len() + 1,
        forall|d: char| #[trigger] final(v)@.contains(d) <==> old(v)@.contains(d) || d == c,
    {
    let j = lower_bound(v, c);
    if j < v.len() && v[j] == c {
        proof {
            assert(v@.contains(c));
            assert forall|d: char| #[trigger] v@.contains(d) <==> old(v)@.contains(d) || d == c by {
            }
        }
        return;
    }
    proof {
        if j < v@.len() {
            lemma_char_strict(v@[j as int], c);
        }
    }
    v.insert(j, c);
    proof {
        let newv = v@;
        let oldv = old(v)@;
        assert(newv == oldv.insert(j as int, c));
        assert forall|p: int, q: int|
            0 <= p < q < newv.len() implies (#[trigger] (newv[p] as u32)) < (#[trigger] (newv[q]
            as u32)) by {
            if p < j && q < j {
            } else if p < j && q == j {
            } else if p < j && q > j {
                assert(newv[q] == oldv[q - 1]);
            } else if p == j {
                assert(newv[q] == oldv[q - 1]);
            } else {
                assert(newv[p] == oldv[p - 1]);
                assert(newv[q] == oldv[q - 1]);
            }
        }
        assert forall|d: char| #[trigger] newv.contains(d) implies oldv.contains(d) || d == c by {
            let w = choose|w: int| 0 <= w < newv.len() && #[trigger] newv[w] == d;
            if w < j {
                assert(oldv[w] == d);
            } else if w > j {
                assert(oldv[w - 1] == d);
            }
        }
        assert forall|d: char| oldv.contains(d) || d == c implies #[trigger] newv.contains(d) by {
            if d == c {
                assert(newv[j as int] == c);
            } else if oldv.contains(d) {
                let w = choose|w: int| 0 <= w < oldv.len() && #[trigger] oldv[w] == d;
                if w < j {
                    assert(newv[w] == d);
                } else {
                    assert(newv[w + 1] == d);
                }
            }
        }
    }
}

impl Tokenizer for CharTokenizer {
    open spec fn wf(&self) -> bool {
        self.inv()
    }

    fn encode(&self, text: &str) -> (r: Vec<i64>) {
        CharTokenizer::encode(self, text)
    }

    fn decode(&self, tokens: &[i64]) -> (r: String) {
        CharTokenizer::decode(self, tokens)
    }

    fn vocab_size(&self) -> (r: usize) {
        CharTokenizer::vocab_size(self)
    }

    fn unk_id(&self) -> i64 {
        CharTokenizer::unk_id(self)
    }

    fn pad_id(&self) -> i64 {
        CharTokenizer::pad_id(self)
    }
}

} // verus!
