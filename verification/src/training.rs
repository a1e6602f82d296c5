//! Batch construction for the training driver.

use vstd::prelude::*;
use crate::tensor::{token_tensor_from, TokenTensor};

verus! {

/// One training batch: input tokens and next-token targets.
pub struct BatchData {
    pub tokens: TokenTensor,
    pub targets: TokenTensor,
}

impl BatchData {
    pub fn new(tokens: TokenTensor, targets: TokenTensor) -> (r: BatchData)
        ensures
            r.tokens == tokens,
            r.targets == targets,
    {
        BatchData { tokens, targets }
    }
}

/// The token at row `r`, column `c` of a deterministic test batch.
pub open spec fn random_batch_token(r: int, c: int, seq_len: int, vocab: int) -> int {
    (r * seq_len + c) % vocab
}

/// A deterministic test batch: the flattened cell index modulo the
/// vocabulary, with targets shifted left by one and zero-padded.
pub fn generate_random_batch(batch_size: usize, seq_len: usize, vocab_size: usize) -> (r:
    BatchData)
    requires
        batch_size >= 1,
        seq_len >= 1,
        vocab_size >= 1,
        (batch_size as nat) * (seq_len as nat) <= usize::MAX,
        (batch_size as nat) * (seq_len as nat) <= i64::MAX,
    ensures
        r.tokens.d0() == batch_size && r.tokens.d1() == seq_len,
        r.targets.d0() == batch_size && r.targets.d1() == seq_len,
        r.tokens.val().len() == batch_size * seq_len,
        r.targets.val().len() == batch_size * seq_len,
        forall|k: int|
            0 <= k < r.tokens.val().len() ==> #[trigger] r.tokens.val()[k] == k % (
            vocab_size as int),
        forall|row: int, c: int|
            0 <= row < batch_size && 0 <= c < seq_len ==> #[trigger] r.targets.val()[row * seq_len
                + c] == if c < seq_len - 1 {
                (row * seq_len + c + 1) % (vocab_size as int)
            } else {
                0
            },
{
    let total = batch_size * seq_len;
    let mut toks: Vec<i64> = Vec::new();
    let mut k: usize = 0;
    while k < total
        invariant
            0 <= k <= total,
            total == batch_size * seq_len,
            total <= i64::MAX,
            vocab_size >= 1,
            toks@.len() == k,
            forall|j: int| 0 <= j < k ==> #[trigger] toks@[j] == j % (vocab_size as int),
        decreases total - k,
    {
        proof {
            lemma_mod_le(k as int, vocab_size as int);
        }
        toks.push(((k % vocab_size) as i64));
        k += 1;
    }
    let mut tgts: Vec<i64> = Vec::new();
    let mut row: usize = 0;
    while row < batch_size
        invariant
            0 <= row <= batch_size,
            total == batch_size * seq_len,
            total <= i64::MAX,
            seq_len >= 1,
            vocab_size >= 1,
            tgts@.len() == row * seq_len,
            forall|rr: int, c: int|
                0 <= rr < row && 0 <= c < seq_len ==> #[trigger] tgts@[rr * seq_len + c] == if c
                    < seq_len - 1 {
                    (rr * seq_len + c + 1) % (vocab_size as int)
                } else {
                    0
                },
        decreases batch_size - row,
    {
        proof {
            lemma_row_bound(row as int, batch_size as int, seq_len as int);
        }
        let mut c: usize = 0;
        while c < seq_len
            invariant
                0 <= c <= seq_len,
                0 <= row < batch_size,
                total == batch_size * seq_len,
                total <= i64::MAX,
                seq_len >= 1,
                vocab_size >= 1,
                (row + 1) * seq_len <= total,
                row * seq_len + seq_len == (row + 1) * seq_len,
                row * seq_len >= 0,
                tgts@.len() == row * seq_len + c,
                forall|rr: int, cc: int|
                    0 <= rr < row && 0 <= cc < seq_len ==> #[trigger] tgts@[rr * seq_len + cc]
                        == if cc < seq_len - 1 {
                        (rr * seq_len + cc + 1) % (vocab_size as int)
                    } else {
                        0
                    },
                forall|cc: int|
                    0 <= cc < c ==> #[trigger] tgts@[row * seq_len + cc] == if cc < seq_len - 1 {
                        (row * seq_len + cc + 1) % (vocab_size as int)
                    } else {
                        0
                    },
            decreases seq_len - c,
        {
            let cell: i64 = if c < seq_len - 1 {
                proof {
                    lemma_mod_le((row * seq_len + c + 1) as int, vocab_size as int);
                }
                (((row * seq_len + c + 1) % vocab_size) as i64)
            } else {
                0
            };
            tgts.push(cell);
            proof {
                assert forall|rr: int, cc: int|
                    0 <= rr < row && 0 <= cc < seq_len implies #[trigger] tgts@[rr * seq_len + cc]
                    == if cc < seq_len - 1 {
                    (rr * seq_len + cc + 1) % (vocab_size as int)
                } else {
                    0
                } by {
                    lemma_cell_bound(rr, row as int, cc, seq_len as int);
                }
            }
            c += 1;
        }
        proof {
            assert forall|rr: int, cc: int|
                0 <= rr < row + 1 && 0 <= cc < seq_len implies #[trigger] tgts@[rr * seq_len + cc]
                == if cc < seq_len - 1 {
                (rr * seq_len + cc + 1) % (vocab_size as int)
            } else {
                0
            } by {
                if rr < row {
                    lemma_cell_bound(rr, row as int, cc, seq_len as int);
                }
            }
        }
        row += 1;
    }
    proof {
        assert(tgts@.len() == batch_size * seq_len);
    }
    let tokens = token_tensor_from(&toks, batch_size, seq_len);
    let targets = token_tensor_from(&tgts, batch_size, seq_len);
    BatchData { tokens, targets }
}

/// An earlier cell's flattened index lies below the current row's start.
proof fn lemma_cell_bound(rr: int, row: int, cc: int, seq: int)
    requires
        0 <= rr < row,
        0 <= cc < seq,
    ensures
        0 <= rr * seq + cc < row * seq,
{
    assert(0 <= rr * seq + cc < row * seq) by (nonlinear_arith)
        requires
            0 <= rr < row,
            0 <= cc < seq,
    ;
}

/// A non-negative value only shrinks under modulo.
proof fn lemma_mod_le(x: int, m: int)
    requires
        x >= 0,
        m >= 1,
    ensures
        0 <= x % m <= x,
        x % m < m,
{
    assert(0 <= x % m <= x && x % m < m) by (nonlinear_arith)
        requires
            x >= 0,
            m >= 1,
    ;
}

/// A row prefix stays inside the flattened batch.
proof fn lemma_row_bound(row: int, batch: int, seq: int)
    requires
        0 <= row < batch,
        seq >= 1,
    ensures
        (row + 1) * seq <= batch * seq,
        row * seq + seq == (row + 1) * seq,
        row * seq >= 0,
{
    assert((row + 1) * seq <= batch * seq && row * seq + seq == (row + 1) * seq && row * seq >= 0)
        by (nonlinear_arith)
        requires
            0 <= row < batch,
            seq >= 1,
    ;
}

} // verus!
