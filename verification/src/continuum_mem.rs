//! Multi-span exponential memory with attention-based retrieval.
//!
//! Five banks summarize past hidden activity at increasingly slow
//! timescales; retrieval attends jointly over all of them and adds the
//! result to the query as a residual.

use vstd::prelude::*;
use crate::config::ContinuumMemConfig;
use crate::layers::{linear_forward2, linear_init, norm_forward2, norm_init, LinearLayer, NormLayer};
use crate::tensor::{
    add3, add3_of, cat5_mid, clone3, div_by_sqrt3, div_scalar3, div_scalar3_of, fits3, matmul3,
    mul_scalar3, mul_scalar3_of, reshape2to3, reshape3to2, same_dims3, softmax3_last, swap12,
    zero_val3, zeros3, Tensor3,
};

verus! {

/// The five decaying summaries, fastest first.
pub struct ContinuumMemoryState {
    pub ultra_short: Tensor3,
    pub short: Tensor3,
    pub mid: Tensor3,
    pub long: Tensor3,
    pub episodic: Tensor3,
}

impl ContinuumMemoryState {
    /// Every bank has the shape `[d0, d1, d2]`.
    pub open spec fn dims_are(self, d0: usize, d1: usize, d2: usize) -> bool {
        &&& self.ultra_short.d0() == d0 && self.ultra_short.d1() == d1 && self.ultra_short.d2()
            == d2
        &&& self.short.d0() == d0 && self.short.d1() == d1 && self.short.d2() == d2
        &&& self.mid.d0() == d0 && self.mid.d1() == d1 && self.mid.d2() == d2
        &&& self.long.d0() == d0 && self.long.d1() == d1 && self.long.d2() == d2
        &&& self.episodic.d0() == d0 && self.episodic.d1() == d1 && self.episodic.d2() == d2
    }
}

/// One exponential-moving-average step of a bank with time constant
/// `span`: `prev*(1 - 1/span) + fresh*(1/span)`, carried out over the
/// common denominator as `(prev*(span-1) + fresh) / span`.
pub open spec fn ema_bank(prev: Seq<u8>, fresh: Seq<u8>, span: usize) -> Seq<u8> {
    div_scalar3_of(add3_of(mul_scalar3_of(prev, (span - 1) as u64), fresh), span as u64)
}

/// The memory module: its configuration and the shared retrieval layers.
pub struct ContinuumMemory {
    cfg: ContinuumMemConfig,
    hidden: usize,
    query_proj: LinearLayer,
    key_proj: LinearLayer,
    value_proj: LinearLayer,
    norm: NormLayer,
}

impl ContinuumMemory {
    pub closed spec fn spec_config(self) -> ContinuumMemConfig {
        self.cfg
    }

    pub closed spec fn hidden_size(self) -> usize {
        self.hidden
    }

    /// Construction-time invariant: the configuration was validated and the
    /// retrieval layers are square over the hidden width.
    pub open spec fn inv(self) -> bool {
        &&& self.spec_config().valid()
        &&& self.hidden_size() >= 1
        &&& self.query_proj().d_in() == self.hidden_size()
        &&& self.query_proj().d_out() == self.hidden_size()
        &&& self.key_proj().d_in() == self.hidden_size()
        &&& self.key_proj().d_out() == self.hidden_size()
        &&& self.value_proj().d_in() == self.hidden_size()
        &&& self.value_proj().d_out() == self.hidden_size()
        &&& self.norm_layer().d_model() == self.hidden_size()
    }

    pub closed spec fn query_proj(self) -> LinearLayer {
        self.query_proj
    }

    pub closed spec fn key_proj(self) -> LinearLayer {
        self.key_proj
    }

    pub closed spec fn value_proj(self) -> LinearLayer {
        self.value_proj
    }

    pub closed spec fn norm_layer(self) -> NormLayer {
        self.norm
    }

    pub fn new(config: ContinuumMemConfig, hidden_size: usize) -> (r: ContinuumMemory)
        requires
            config.valid(),
            hidden_size >= 1,
        ensures
            r.inv(),
            r.spec_config() == config,
            r.hidden_size() == hidden_size,
    {
        ContinuumMemory {
            cfg: config,
            hidden: hidden_size,
            query_proj: linear_init(hidden_size, hidden_size),
            key_proj: linear_init(hidden_size, hidden_size),
            value_proj: linear_init(hidden_size, hidden_size),
            norm: norm_init(hidden_size),
        }
    }

    pub fn config(&self) -> (r: &ContinuumMemConfig)
        ensures
            *r == self.spec_config(),
    {
        &self.cfg
    }

    /// Five zero banks of the given shape.
    pub fn init_state(&self, batch: usize, seq_len: usize, hidden_size: usize) -> (r:
        ContinuumMemoryState)
        requires
            fits3(batch, seq_len, hidden_size),
        ensures
            r.dims_are(batch, seq_len, hidden_size),
            r.ultra_short.val() == zero_val3(batch, seq_len, hidden_size),
            r.short.val() == zero_val3(batch, seq_len, hidden_size),
            r.mid.val() == zero_val3(batch, seq_len, hidden_size),
            r.long.val() == zero_val3(batch, seq_len, hidden_size),
            r.episodic.val() == zero_val3(batch, seq_len, hidden_size),
    {
        ContinuumMemoryState {
            ultra_short: zeros3(batch, seq_len, hidden_size),
            short: zeros3(batch, seq_len, hidden_size),
            mid: zeros3(batch, seq_len, hidden_size),
            long: zeros3(batch, seq_len, hidden_size),
            episodic: zeros3(batch, seq_len, hidden_size),
        }
    }

    /// One EMA step of one bank.
    fn ema_update(&self, prev: &Tensor3, fresh: &Tensor3, span: usize) -> (r: Tensor3)
        requires
            same_dims3(*prev, *fresh),
            span >= 1,
        ensures
            same_dims3(r, *prev),
            r.val() == ema_bank(prev.val(), fresh.val(), span),
    {
        let weighted = mul_scalar3(prev, (span - 1) as u64);
        let summed = add3(&weighted, fresh);
        div_scalar3(&summed, span as u64)
    }

    /// Fold fresh activity into the banks.  The fastest bank is overwritten
    /// outright; each slower bank moves toward the fresh value by `1/span`.
    /// Disabled, the state is left exactly as it was.
    pub fn update(&self, state: &mut ContinuumMemoryState, new_hidden: &Tensor3)
        requires
            self.inv(),
            old(state).dims_are(new_hidden.d0(), new_hidden.d1(), new_hidden.d2()),
        ensures
            !self.spec_config().enabled ==> *final(state) == *old(state),
            self.spec_config().enabled ==> {
                &&& final(state).dims_are(new_hidden.d0(), new_hidden.d1(), new_hidden.d2())
                &&& final(state).ultra_short.val() == new_hidden.val()
                &&& final(state).short.val() == ema_bank(
                    old(state).short.val(),
                    new_hidden.val(),
                    self.spec_config().short_span,
                )
                &&& final(state).mid.val() == ema_bank(
                    old(state).mid.val(),
                    new_hidden.val(),
                    self.spec_config().mid_span,
                )
                &&& final(state).long.val() == ema_bank(
                    old(state).long.val(),
                    new_hidden.val(),
                    self.spec_config().long_span,
                )
                &&& final(state).episodic.val() == ema_bank(
                    old(state).episodic.val(),
                    new_hidden.val(),
                    self.spec_config().episodic_span,
                )
            },
    {
        if !self.cfg.enabled {
            return;
        }
        state.ultra_short = clone3(new_hidden);
        state.short = self.ema_update(&state.short, new_hidden, self.cfg.short_span);
        state.mid = self.ema_update(&state.mid, new_hidden, self.cfg.mid_span);
        state.long = self.ema_update(&state.long, new_hidden, self.cfg.long_span);
        state.episodic = self.ema_update(&state.episodic, new_hidden, self.cfg.episodic_span);
    }

    /// Project one bank through a shared affine layer, keeping its rank.
    fn project_bank(&self, l: &LinearLayer, bank: &Tensor3) -> (r: Tensor3)
        requires
            bank.d2() == l.d_in(),
            (bank.d0() as nat) * (bank.d1() as nat) <= usize::MAX,
        ensures
            r.d0() == bank.d0() && r.d1() == bank.d1() && r.d2() == l.d_out(),
    {
        let (b, s, h) = bank.shape();
        let flat = reshape3to2(bank, b * s, h);
        let projected = linear_forward2(l, &flat);
        reshape2to3(&projected, b, s, l.output_dim())
    }

    /// Retrieval: attention from the (projected, normalized) query over the
    /// concatenation of all five banks, added back to the unprojected query
    /// as a residual.  Disabled, the query comes back unchanged.
    pub fn retrieve(&self, state: &ContinuumMemoryState, query: &Tensor3) -> (r: Tensor3)
        requires
            self.inv(),
            self.spec_config().enabled ==> {
                &&& query.d2() == self.hidden_size()
                &&& state.dims_are(query.d0(), query.d1(), query.d2())
                &&& query.d1() * 5 <= usize::MAX
                &&& (query.d0() as nat) * (query.d1() as nat) * (query.d2() as nat) * 20
                    <= usize::MAX
            },
        ensures
            same_dims3(r, *query),
            !self.spec_config().enabled ==> r.val() == query.val(),
            // enabled, the attended memory is added to the original,
            // unprojected query as a residual
            self.spec_config().enabled ==> exists|att: Seq<u8>|
                r.val() == #[trigger] add3_of(query.val(), att),
    {
        if !self.cfg.enabled {
            return clone3(query);
        }
        let (b, s, h) = query.shape();
        proof {
            lemma_retrieve_bounds(b as nat, s as nat, h as nat);
        }
        // queries: affine projection and normalization over the last axis
        let q_flat = reshape3to2(query, b * s, h);
        let q_proj = linear_forward2(&self.query_proj, &q_flat);
        let q_norm = norm_forward2(&self.norm, &q_proj);
        let q3 = reshape2to3(&q_norm, b, s, h);
        // keys and values: shared projections of each bank
        let k1 = self.project_bank(&self.key_proj, &state.ultra_short);
        let k2 = self.project_bank(&self.key_proj, &state.short);
        let k3 = self.project_bank(&self.key_proj, &state.mid);
        let k4 = self.project_bank(&self.key_proj, &state.long);
        let k5 = self.project_bank(&self.key_proj, &state.episodic);
        let v1 = self.project_bank(&self.value_proj, &state.ultra_short);
        let v2 = self.project_bank(&self.value_proj, &state.short);
        let v3 = self.project_bank(&self.value_proj, &state.mid);
        let v4 = self.project_bank(&self.value_proj, &state.long);
        let v5 = self.project_bank(&self.value_proj, &state.episodic);
        let keys = cat5_mid(&k1, &k2, &k3, &k4, &k5);
        let values = cat5_mid(&v1, &v2, &v3, &v4, &v5);
        // scaled dot-product attention over the concatenated memory axis
        let keys_t = swap12(&keys);
        let scores = matmul3(&q3, &keys_t);
        let scaled = div_by_sqrt3(&scores, h as u64);
        let weights = softmax3_last(&scaled);
        let attended = matmul3(&weights, &values);
        // residual connection to the unprojected query
        let merged = add3(query, &attended);
        proof {
            assert(merged.val() == add3_of(query.val(), attended.val()));
        }
        merged
    }
}

/// The bounds a retrieval needs, unfolded from its stated limit.
proof fn lemma_retrieve_bounds(b: nat, s: nat, h: nat)
    requires
        h >= 1,
        b * s * h * 20 <= usize::MAX,
        s * 5 <= usize::MAX,
    ensures
        b * s <= usize::MAX,
        (b * s) * h == b * s * h,
        b * (s * 5) * h * 4 <= usize::MAX,
        b * (s * 5) * h == b * s * h * 5,
{
    assert(b * s <= b * s * h * 20 && (b * s) * h == b * s * h && b * (s * 5) * h * 4 == b * s * h
        * 20 && b * (s * 5) * h == b * s * h * 5) by (nonlinear_arith)
        requires
            h >= 1,
    ;
}

} // verus!
