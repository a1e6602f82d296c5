//! Data loaders: deterministic batches for testing, and sequential
//! windowing over a pre-tokenized corpus.

use vstd::prelude::*;
use crate::tensor::token_tensor_from;
use crate::training::{generate_random_batch, BatchData};

verus! {

/// A source of training batches: callers can stay generic over where the
/// data comes from.
pub trait DataLoader {
    spec fn loader_wf(&self) -> bool;

    fn next_batch(&mut self) -> (r: Option<BatchData>)
        requires
            old(self).loader_wf(),
        ensures
            final(self).loader_wf(),
    ;

    fn reset(&mut self)
        requires
            old(self).loader_wf(),
        ensures
            final(self).loader_wf(),
    ;

    fn num_batches(&self) -> (r: Option<usize>)
        requires
            self.loader_wf(),
    ;
}

/// The arithmetic facts the windowing needs about its batch extent.
proof fn lemma_need_bounds(batch: int, seq: int)
    requires
        batch >= 1,
        seq >= 1,
        batch * (seq + 1) <= usize::MAX,
    ensures
        seq + 1 <= usize::MAX,
        batch * (seq + 1) == batch * seq + batch,
        batch * seq >= seq,
        batch * seq >= 0,
{
    assert(seq + 1 <= batch * (seq + 1) && batch * (seq + 1) == batch * seq + batch && batch * seq
        >= seq && batch * seq >= 0) by (nonlinear_arith)
        requires
            batch >= 1,
            seq >= 1,
    ;
}

/// An earlier cell's flattened index stays below the window's end.
proof fn lemma_window_cell(row: int, c: int, batch: int, seq: int)
    requires
        0 <= row < batch,
        0 <= c <= seq,
        seq >= 1,
    ensures
        0 <= row * seq + c <= batch * seq,
        batch * (seq + 1) == batch * seq + batch,
        row * seq + seq == (row + 1) * seq,
        (row + 1) * seq <= batch * seq,
        row * seq >= 0,
{
    assert(0 <= row * seq + c <= batch * seq && batch * (seq + 1) == batch * seq + batch && row
        * seq + seq == (row + 1) * seq && (row + 1) * seq <= batch * seq && row * seq >= 0)
        by (nonlinear_arith)
        requires
            0 <= row < batch,
            0 <= c <= seq,
            seq >= 1,
    ;
}

/// Cut the next `batch` windows of `seq + 1` tokens out of a corpus at
/// `pos`: inputs are the first `seq` tokens of each window, targets the
/// same window shifted by one.  `None` when the corpus has too few tokens
/// left.  Each window starts `seq` tokens after the previous one.
fn window_batch(tokens: &Vec<i64>, pos: usize, batch: usize, seq: usize) -> (r: Option<
    (BatchData, usize)>)
    requires
        batch >= 1,
        seq >= 1,
        (batch as nat) * ((seq as nat) + 1) <= usize::MAX,
    ensures
        r is Some <==> pos + batch * (seq + 1) <= tokens@.len(),
        r matches Some((b, new_pos)) ==> {
            &&& new_pos == pos + batch * seq
            &&& b.tokens.d0() == batch && b.tokens.d1() == seq
            &&& b.targets.d0() == batch && b.targets.d1() == seq
            &&& forall|row: int, c: int|
                0 <= row < batch && 0 <= c < seq ==> #[trigger] b.tokens.val()[row * seq + c]
                    == tokens@[pos + row * seq + c]
            &&& forall|row: int, c: int|
                0 <= row < batch && 0 <= c < seq ==> #[trigger] b.targets.val()[row * seq + c]
                    == tokens@[pos + row * seq + c + 1]
        },
{
    proof {
        lemma_need_bounds(batch as int, seq as int);
    }
    let need = batch * (seq + 1);
    if tokens.len() < need || pos > tokens.len() - need {
        return None;
    }
    let mut ins: Vec<i64> = Vec::new();
    let mut outs: Vec<i64> = Vec::new();
    let mut row: usize = 0;
    while row < batch
        invariant
            0 <= row <= batch,
            batch >= 1,
            seq >= 1,
            pos + batch * (seq + 1) <= tokens@.len(),
            tokens@.len() <= usize::MAX,
            batch * (seq + 1) == batch * seq + batch,
            ins@.len() == row * seq,
            outs@.len() == row * seq,
            forall|rr: int, c: int|
                0 <= rr < row && 0 <= c < seq ==> #[trigger] ins@[rr * seq + c] == tokens@[pos + rr
                    * seq + c],
            forall|rr: int, c: int|
                0 <= rr < row && 0 <= c < seq ==> #[trigger] outs@[rr * seq + c] == tokens@[pos
                    + rr * seq + c + 1],
        decreases batch - row,
    {
        proof {
            lemma_window_cell(row as int, 0, batch as int, seq as int);
        }
        let mut c: usize = 0;
        while c < seq
            invariant
                0 <= c <= seq,
                0 <= row < batch,
                seq >= 1,
                pos + batch * (seq + 1) <= tokens@.len(),
                tokens@.len() <= usize::MAX,
                batch * (seq + 1) == batch * seq + batch,
                row * seq + seq == (row + 1) * seq,
                (row + 1) * seq <= batch * seq,
                row * seq >= 0,
                ins@.len() == row * seq + c,
                outs@.len() == row * seq + c,
                forall|rr: int, cc: int|
                    0 <= rr < row && 0 <= cc < seq ==> #[trigger] ins@[rr * seq + cc] == tokens@[pos
                        + rr * seq + cc],
                forall|rr: int, cc: int|
                    0 <= rr < row && 0 <= cc < seq ==> #[trigger] outs@[rr * seq + cc]
                        == tokens@[pos + rr * seq + cc + 1],
                forall|cc: int|
                    0 <= cc < c ==> #[trigger] ins@[row * seq + cc] == tokens@[pos + row * seq
                        + cc],
                forall|cc: int|
                    0 <= cc < c ==> #[trigger] outs@[row * seq + cc] == tokens@[pos + row * seq
                        + cc + 1],
            decreases seq - c,
        {
            ins.push(tokens[pos + row * seq + c]);
            outs.push(tokens[pos + row * seq + c + 1]);
            proof {
                assert forall|rr: int, cc: int|
                    0 <= rr < row && 0 <= cc < seq implies #[trigger] ins@[rr * seq + cc]
                    == tokens@[pos + rr * seq + cc] by {
                    lemma_window_cell(rr, cc, row as int, seq as int);
                }
                assert forall|rr: int, cc: int|
                    0 <= rr < row && 0 <= cc < seq implies #[trigger] outs@[rr * seq + cc]
                    == tokens@[pos + rr * seq + cc + 1] by {
                    lemma_window_cell(rr, cc, row as int, seq as int);
                }
            }
            c += 1;
        }
        proof {
            assert forall|rr: int, cc: int|
                0 <= rr < row + 1 && 0 <= cc < seq implies #[trigger] ins@[rr * seq + cc]
                == tokens@[pos + rr * seq + cc] by {
                if rr < row {
                    lemma_window_cell(rr, cc, row as int, seq as int);
                }
            }
            assert forall|rr: int, cc: int|
                0 <= rr < row + 1 && 0 <= cc < seq implies #[trigger] outs@[rr * seq + cc]
                == tokens@[pos + rr * seq + cc + 1] by {
                if rr < row {
                    lemma_window_cell(rr, cc, row as int, seq as int);
                }
            }
        }
        row += 1;
    }
    let b = BatchData {
        tokens: token_tensor_from(&ins, batch, seq),
        targets: token_tensor_from(&outs, batch, seq),
    };
    Some((b, pos + batch * seq))
}

/// How many full batches a corpus yields under the original windowing.
pub open spec fn spec_num_batches(len: int, batch: int, seq: int) -> int {
    if len < batch * (seq + 1) {
        0
    } else {
        ((len - seq) / seq) / batch
    }
}

/// A loader over a pre-tokenized text corpus.
pub struct TextDataLoader {
    tokens: Vec<i64>,
    batch_size: usize,
    seq_len: usize,
    current_pos: usize,
}

impl TextDataLoader {
    pub closed spec fn tokens_view(self) -> Seq<i64> {
        self.tokens@
    }

    pub closed spec fn spec_batch_size(self) -> usize {
        self.batch_size
    }

    pub closed spec fn spec_seq_len(self) -> usize {
        self.seq_len
    }

    pub closed spec fn pos(self) -> usize {
        self.current_pos
    }

    pub open spec fn wf(self) -> bool {
        &&& self.spec_batch_size() >= 1
        &&& self.spec_seq_len() >= 1
        &&& (self.spec_batch_size() as nat) * ((self.spec_seq_len() as nat) + 1) <= usize::MAX
    }

    /// A loader over already-tokenized data.
    pub fn from_tokens(tokens: Vec<i64>, batch_size: usize, seq_len: usize) -> (r: TextDataLoader)
        requires
            batch_size >= 1,
            seq_len >= 1,
            (batch_size as nat) * ((seq_len as nat) + 1) <= usize::MAX,
        ensures
            r.wf(),
            r.tokens_view() == tokens@,
            r.spec_batch_size() == batch_size,
            r.spec_seq_len() == seq_len,
            r.pos() == 0,
    {
        TextDataLoader { tokens, batch_size, seq_len, current_pos: 0 }
    }

    /// The next batch of windows, if enough tokens remain.
    pub fn next_batch(&mut self) -> (r: Option<BatchData>)
        requires
            old(self).wf(),
        ensures
            final(self).tokens_view() == old(self).tokens_view(),
            final(self).spec_batch_size() == old(self).spec_batch_size(),
            final(self).spec_seq_len() == old(self).spec_seq_len(),
            r is Some <==> old(self).pos() + old(self).spec_batch_size() * (
            old(self).spec_seq_len() + 1) <= old(self).tokens_view().len(),
            r is None ==> final(self).pos() == old(self).pos(),
            r matches Some(b) ==> {
                &&& final(self).pos() == old(self).pos() + old(self).spec_batch_size() * old(
                    self,
                ).spec_seq_len()
                &&& b.tokens.d0() == old(self).spec_batch_size() && b.tokens.d1() == old(
                    self,
                ).spec_seq_len()
                &&& b.targets.d0() == old(self).spec_batch_size() && b.targets.d1() == old(
                    self,
                ).spec_seq_len()
                &&& forall|row: int, c: int|
                    0 <= row < old(self).spec_batch_size() && 0 <= c < old(self).spec_seq_len()
                        ==> #[trigger] b.tokens.val()[row * old(self).spec_seq_len() + c] == old(
                        self,
                    ).tokens_view()[old(self).pos() + row * old(self).spec_seq_len() + c]
                &&& forall|row: int, c: int|
                    0 <= row < old(self).spec_batch_size() && 0 <= c < old(self).spec_seq_len()
                        ==> #[trigger] b.targets.val()[row * old(self).spec_seq_len() + c] == old(
                        self,
                    ).tokens_view()[old(self).pos() + row * old(self).spec_seq_len() + c + 1]
            },
    {
        match window_batch(&self.tokens, self.current_pos, self.batch_size, self.seq_len) {
            Some((b, new_pos)) => {
                self.current_pos = new_pos;
                Some(b)
            },
            None => None,
        }
    }

    /// Rewind to the start of the corpus.
    pub fn reset(&mut self)
        ensures
            final(self).pos() == 0,
            final(self).tokens_view() == old(self).tokens_view(),
            final(self).spec_batch_size() == old(self).spec_batch_size(),
            final(self).spec_seq_len() == old(self).spec_seq_len(),
    {
        self.current_pos = 0;
    }

    /// The number of complete batches the corpus can yield.
    pub fn num_batches(&self) -> (r: Option<usize>)
        requires
            self.wf(),
        ensures
            r == Some(
                spec_num_batches(
                    self.tokens_view().len() as int,
                    self.spec_batch_size() as int,
                    self.spec_seq_len() as int,
                ) as usize,
            ),
    {
        proof {
            lemma_need_bounds(self.batch_size as int, self.seq_len as int);
        }
        let required_len = self.batch_size * (self.seq_len + 1);
        if self.tokens.len() < required_len {
            return Some(0);
        }
        let available_sequences = (self.tokens.len() - self.seq_len) / self.seq_len;
        Some(available_sequences / self.batch_size)
    }
}

/// A loader over tokens extracted from books, with the list of source
/// files it came from.
pub struct BookDataLoader {
    tokens: Vec<i64>,
    batch_size: usize,
    seq_len: usize,
    current_pos: usize,
    book_files: Vec<String>,
}

impl BookDataLoader {
    pub closed spec fn tokens_view(self) -> Seq<i64> {
        self.tokens@
    }

    pub closed spec fn spec_batch_size(self) -> usize {
        self.batch_size
    }

    pub closed spec fn spec_seq_len(self) -> usize {
        self.seq_len
    }

    pub closed spec fn pos(self) -> usize {
        self.current_pos
    }

    pub closed spec fn files_view(self) -> Seq<String> {
        self.book_files@
    }

    pub open spec fn wf(self) -> bool {
        &&& self.spec_batch_size() >= 1
        &&& self.spec_seq_len() >= 1
        &&& (self.spec_batch_size() as nat) * ((self.spec_seq_len() as nat) + 1) <= usize::MAX
    }

    /// A loader over preprocessed tokens (offline mode); no source files.
    pub fn from_preprocessed(tokens: Vec<i64>, batch_size: usize, seq_len: usize) -> (r:
        BookDataLoader)
        requires
            batch_size >= 1,
            seq_len >= 1,
            (batch_size as nat) * ((seq_len as nat) + 1) <= usize::MAX,
        ensures
            r.wf(),
            r.tokens_view() == tokens@,
            r.spec_batch_size() == batch_size,
            r.spec_seq_len() == seq_len,
            r.pos() == 0,
            r.files_view().len() == 0,
    {
        BookDataLoader { tokens, batch_size, seq_len, current_pos: 0, book_files: Vec::new() }
    }

    /// A loader over tokens extracted from the named book files.
    pub fn from_book_tokens(
        tokens: Vec<i64>,
        batch_size: usize,
        seq_len: usize,
        book_files: Vec<String>,
    ) -> (r: BookDataLoader)
        requires
            batch_size >= 1,
            seq_len >= 1,
            (batch_size as nat) * ((seq_len as nat) + 1) <= usize::MAX,
        ensures
            r.wf(),
            r.tokens_view() == tokens@,
            r.spec_batch_size() == batch_size,
            r.spec_seq_len() == seq_len,
            r.pos() == 0,
            r.files_view() == book_files@,
    {
        BookDataLoader { tokens, batch_size, seq_len, current_pos: 0, book_files }
    }

    /// The source files the corpus was extracted from.
    pub fn book_files(&self) -> (r: &Vec<String>)
        ensures
            r@ == self.files_view(),
    {
        &self.book_files
    }

    /// The next batch of windows, if enough tokens remain.
    pub fn next_batch(&mut self) -> (r: Option<BatchData>)
        requires
            old(self).wf(),
        ensures
            final(self).tokens_view() == old(self).tokens_view(),
            final(self).spec_batch_size() == old(self).spec_batch_size(),
            final(self).spec_seq_len() == old(self).spec_seq_len(),
            final(self).files_view() == old(self).files_view(),
            r is Some <==> old(self).pos() + old(self).spec_batch_size() * (
            old(self).spec_seq_len() + 1) <= old(self).tokens_view().len(),
            r is None ==> final(self).pos() == old(self).pos(),
            r matches Some(b) ==> {
                &&& final(self).pos() == old(self).pos() + old(self).spec_batch_size() * old(
                    self,
                ).spec_seq_len()
                &&& b.tokens.d0() == old(self).spec_batch_size() && b.tokens.d1() == old(
                    self,
                ).spec_seq_len()
                &&& b.targets.d0() == old(self).spec_batch_size() && b.targets.d1() == old(
                    self,
                ).spec_seq_len()
                &&& forall|row: int, c: int|
                    0 <= row < old(self).spec_batch_size() && 0 <= c < old(self).spec_seq_len()
                        ==> #[trigger] b.tokens.val()[row * old(self).spec_seq_len() + c] == old(
                        self,
                    ).tokens_view()[old(self).pos() + row * old(self).spec_seq_len() + c]
                &&& forall|row: int, c: int|
                    0 <= row < old(self).spec_batch_size() && 0 <= c < old(self).spec_seq_len()
                        ==> #[trigger] b.targets.val()[row * old(self).spec_seq_len() + c] == old(
                        self,
                    ).tokens_view()[old(self).pos() + row * old(self).spec_seq_len() + c + 1]
            },
    {
        match window_batch(&self.tokens, self.current_pos, self.batch_size, self.seq_len) {
            Some((b, new_pos)) => {
                self.current_pos = new_pos;
                Some(b)
            },
            None => None,
        }
    }

    /// Rewind to the start of the corpus.
    pub fn reset(&mut self)
        ensures
            final(self).pos() == 0,
            final(self).tokens_view() == old(self).tokens_view(),
            final(self).spec_batch_size() == old(self).spec_batch_size(),
            final(self).spec_seq_len() == old(self).spec_seq_len(),
            final(self).files_view() == old(self).files_view(),
    {
        self.current_pos = 0;
    }

    /// The number of complete batches the corpus can yield.
    pub fn num_batches(&self) -> (r: Option<usize>)
        requires
            self.wf(),
        ensures
            r == Some(
                spec_num_batches(
                    self.tokens_view().len() as int,
                    self.spec_batch_size() as int,
                    self.spec_seq_len() as int,
                ) as usize,
            ),
    {
        proof {
            lemma_need_bounds(self.batch_size as int, self.seq_len as int);
        }
        let required_len = self.batch_size * (self.seq_len + 1);
        if self.tokens.len() < required_len {
            return Some(0);
        }
        let available_sequences = (self.tokens.len() - self.seq_len) / self.seq_len;
        Some(available_sequences / self.batch_size)
    }
}

impl DataLoader for TextDataLoader {
    open spec fn loader_wf(&self) -> bool {
        self.wf()
    }

    fn next_batch(&mut self) -> (r: Option<BatchData>) {
        TextDataLoader::next_batch(self)
    }

    fn reset(&mut self) {
        TextDataLoader::reset(self)
    }

    fn num_batches(&self) -> (r: Option<usize>) {
        TextDataLoader::num_batches(self)
    }
}

impl DataLoader for BookDataLoader {
    open spec fn loader_wf(&self) -> bool {
        self.wf()
    }

    fn next_batch(&mut self) -> (r: Option<BatchData>) {
        BookDataLoader::next_batch(self)
    }

    fn reset(&mut self) {
        BookDataLoader::reset(self)
    }

    fn num_batches(&self) -> (r: Option<usize>) {
        BookDataLoader::num_batches(self)
    }
}

/// A loader that serves deterministic test batches.
pub struct RandomDataLoader {
    batch_size: usize,
    seq_len: usize,
    vocab_size: usize,
    num_batches: usize,
    current_batch: usize,
}

impl RandomDataLoader {
    pub closed spec fn spec_batch_size(self) -> usize {
        self.batch_size
    }

    pub closed spec fn spec_seq_len(self) -> usize {
        self.seq_len
    }

    pub closed spec fn spec_vocab_size(self) -> usize {
        self.vocab_size
    }

    pub closed spec fn spec_num_batches(self) -> usize {
        self.num_batches
    }

    pub closed spec fn spec_current_batch(self) -> usize {
        self.current_batch
    }

    pub open spec fn wf(self) -> bool {
        &&& self.spec_batch_size() >= 1
        &&& self.spec_seq_len() >= 1
        &&& self.spec_vocab_size() >= 1
        &&& (self.spec_batch_size() as nat) * (self.spec_seq_len() as nat) <= usize::MAX
        &&& (self.spec_batch_size() as nat) * (self.spec_seq_len() as nat) <= i64::MAX
    }

    pub fn new(batch_size: usize, seq_len: usize, vocab_size: usize, num_batches: usize) -> (r:
        RandomDataLoader)
        requires
            batch_size >= 1,
            seq_len >= 1,
            vocab_size >= 1,
            (batch_size as nat) * (seq_len as nat) <= usize::MAX,
            (batch_size as nat) * (seq_len as nat) <= i64::MAX,
        ensures
            r.wf(),
            r.spec_batch_size() == batch_size,
            r.spec_seq_len() == seq_len,
            r.spec_vocab_size() == vocab_size,
            r.spec_num_batches() == num_batches,
            r.spec_current_batch() == 0,
    {
        RandomDataLoader { batch_size, seq_len, vocab_size, num_batches, current_batch: 0 }
    }

    /// The next deterministic batch, until the configured count runs out.
    pub fn next_batch(&mut self) -> (r: Option<BatchData>)
        requires
            old(self).wf(),
        ensures
            final(self).spec_batch_size() == old(self).spec_batch_size(),
            final(self).spec_seq_len() == old(self).spec_seq_len(),
            final(self).spec_vocab_size() == old(self).spec_vocab_size(),
            final(self).spec_num_batches() == old(self).spec_num_batches(),
            r is Some <==> old(self).spec_current_batch() < old(self).spec_num_batches(),
            r is None ==> final(self).spec_current_batch() == old(self).spec_current_batch(),
            r matches Some(b) ==> {
                &&& final(self).spec_current_batch() == old(self).spec_current_batch() + 1
                &&& b.tokens.d0() == old(self).spec_batch_size() && b.tokens.d1() == old(
                    self,
                ).spec_seq_len()
                &&& b.targets.d0() == old(self).spec_batch_size() && b.targets.d1() == old(
                    self,
                ).spec_seq_len()
                &&& forall|k: int|
                    0 <= k < b.tokens.val().len() ==> #[trigger] b.tokens.val()[k] == k % (old(
                        self,
                    ).spec_vocab_size() as int)
            },
    {
        if self.current_batch >= self.num_batches {
            return None;
        }
        self.current_batch = self.current_batch + 1;
        Some(generate_random_batch(self.batch_size, self.seq_len, self.vocab_size))
    }

    pub fn reset(&mut self)
        ensures
            final(self).spec_current_batch() == 0,
            final(self).spec_batch_size() == old(self).spec_batch_size(),
            final(self).spec_seq_len() == old(self).spec_seq_len(),
            final(self).spec_vocab_size() == old(self).spec_vocab_size(),
            final(self).spec_num_batches() == old(self).spec_num_batches(),
    {
        self.current_batch = 0;
    }

    pub fn num_batches(&self) -> (r: Option<usize>)
        ensures
            r == Some(self.spec_num_batches()),
    {
        Some(self.num_batches)
    }
}

impl DataLoader for RandomDataLoader {
    open spec fn loader_wf(&self) -> bool {
        self.wf()
    }

    fn next_batch(&mut self) -> (r: Option<BatchData>) {
        RandomDataLoader::next_batch(self)
    }

    fn reset(&mut self) {
        RandomDataLoader::reset(self)
    }

    fn num_batches(&self) -> (r: Option<usize>) {
        RandomDataLoader::num_batches(self)
    }
}

} // verus!
