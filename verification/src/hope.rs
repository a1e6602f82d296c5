//! The hierarchical sequence model: embeddings, the nested per-level
//! timescale loop, and the orchestration of memory, self-modification and
//! the output head around a carried state.

use vstd::prelude::*;
use crate::config::{timescale_sum, HopeConfig};
use crate::continuum_mem::{ema_bank, ContinuumMemory, ContinuumMemoryState};
use crate::layers::{
    embedding_forward, embedding_init, encoder_forward, encoder_init, linear_forward2,
    linear_init, EmbeddingLayer, EncoderStack, LinearLayer,
};
use crate::self_modify::{SelfModifyModule, SelfModifyState};
use crate::tensor::{
    add3, clone3, div_by_sqrt3, fits2, fits3, reshape2to3, reshape3to2, token_tensor_from,
    zero_val2, zero_val3, zeros_vec, Tensor3, TokenTensor,
};

verus! {

/// One forward call's input: a batch of token ids.
pub struct HopeInput {
    pub tokens: TokenTensor,
}

/// One forward call's output.
pub struct HopeOutput {
    pub logits: Tensor3,
    pub hidden_states: Tensor3,
}

/// State carried by the caller between forward calls.
pub struct HopeCarry {
    pub level_states: Vec<Tensor3>,
    pub continuum_memory: Option<ContinuumMemoryState>,
    pub self_modify: Option<SelfModifyState>,
    pub step_count: usize,
}

/// The sum of the first `n` timescales is non-negative.
proof fn lemma_timescale_sum_nonneg(ts: Seq<usize>, n: int)
    requires
        0 <= n <= ts.len(),
    ensures
        timescale_sum(ts, n) >= 0,
    decreases n,
{
    if n > 0 {
        lemma_timescale_sum_nonneg(ts, n - 1);
    }
}

/// Timescale sums grow with their range.
proof fn lemma_timescale_sum_mono(ts: Seq<usize>, a: int, b: int)
    requires
        0 <= a <= b <= ts.len(),
    ensures
        timescale_sum(ts, a) <= timescale_sum(ts, b),
    decreases b - a,
{
    if a < b {
        lemma_timescale_sum_mono(ts, a, b - 1);
    }
}

/// The model: embeddings, one encoder stack per hierarchy level, the
/// optional memory and self-modification modules, and the output head.
pub struct HopeModel {
    cfg: HopeConfig,
    token_embed: EmbeddingLayer,
    pos_embed: EmbeddingLayer,
    level_encoders: Vec<EncoderStack>,
    continuum_memory: Option<ContinuumMemory>,
    self_modify: Option<SelfModifyModule>,
    head: LinearLayer,
}

impl HopeModel {
    pub closed spec fn spec_config(self) -> HopeConfig {
        self.cfg
    }

    /// Construction-time invariant: the configuration was validated, every
    /// layer has the widths the architecture prescribes, and the optional
    /// modules are present exactly when their configuration enables them.
    pub closed spec fn inv(self) -> bool {
        &&& self.cfg.valid()
        &&& self.token_embed.n_vocab() == self.cfg.vocab_size
        &&& self.token_embed.d_model() == self.cfg.hidden_size
        &&& self.pos_embed.n_vocab() == self.cfg.seq_len
        &&& self.pos_embed.d_model() == self.cfg.hidden_size
        &&& self.level_encoders@.len() == self.cfg.num_levels
        &&& forall|i: int|
            0 <= i < self.level_encoders@.len() ==> (#[trigger] self.level_encoders@[i]).d_model()
                == self.cfg.hidden_size
        &&& self.continuum_memory is Some <==> self.cfg.continuum_mem.enabled
        &&& (self.continuum_memory matches Some(m) ==> m.inv() && m.spec_config()
            == self.cfg.continuum_mem && m.hidden_size() == self.cfg.hidden_size)
        &&& self.self_modify is Some <==> self.cfg.self_modify.enabled
        &&& (self.self_modify matches Some(sm) ==> sm.inv() && sm.spec_config()
            == self.cfg.self_modify && sm.hidden_size() == self.cfg.hidden_size)
        &&& self.head.d_in() == self.cfg.hidden_size
        &&& self.head.d_out() == self.cfg.vocab_size
    }

    /// A carry fits this model at batch width `b` when its pieces have the
    /// shapes one forward call expects.
    pub open spec fn carry_wf(self, carry: HopeCarry, b: usize) -> bool {
        &&& carry.level_states@.len() == self.spec_config().num_levels
        &&& forall|i: int|
            0 <= i < carry.level_states@.len() ==> {
                &&& (#[trigger] carry.level_states@[i]).d0() == b
                &&& carry.level_states@[i].d1() == self.spec_config().seq_len
                &&& carry.level_states@[i].d2() == self.spec_config().hidden_size
            }
        &&& (carry.continuum_memory matches Some(m) ==> m.dims_are(
            b,
            self.spec_config().seq_len,
            self.spec_config().hidden_size,
        ))
        &&& (carry.self_modify matches Some(st) ==> st.meta_state.d0() == b
            && st.meta_state.d1() == self.spec_config().self_modify.weight_mod_dim)
    }

    /// The machine limits a forward call at batch `b`, sequence `s` needs.
    pub open spec fn forward_limits(self, b: usize, s: usize) -> bool {
        &&& (b as nat) * (s as nat) <= usize::MAX
        &&& s <= i64::MAX
        &&& (self.spec_config().continuum_mem.enabled ==> (b as nat) * (s as nat) * (
        self.spec_config().hidden_size as nat) * 20 <= usize::MAX && (s as nat) * 5 <= usize::MAX)
        &&& (self.spec_config().self_modify.enabled ==> fits3(
            b,
            s,
            self.spec_config().self_modify.weight_mod_dim,
        ) && fits2(b, self.spec_config().self_modify.weight_mod_dim))
    }

    pub fn new(config: HopeConfig) -> (r: HopeModel)
        requires
            config.valid(),
        ensures
            r.inv(),
            r.spec_config() == config,
    {
        let token_embed = embedding_init(config.vocab_size, config.hidden_size);
        let pos_embed = embedding_init(config.seq_len, config.hidden_size);
        let ff_dim = config.feedforward_dim();
        let mut level_encoders: Vec<EncoderStack> = Vec::new();
        let mut i: usize = 0;
        while i < config.num_levels
            invariant
                0 <= i <= config.num_levels,
                config.valid(),
                ff_dim == config.spec_feedforward_dim(),
                level_encoders@.len() == i,
                forall|j: int|
                    0 <= j < i ==> (#[trigger] level_encoders@[j]).d_model() == config.hidden_size,
            decreases config.num_levels - i,
        {
            level_encoders.push(
                encoder_init(
                    config.hidden_size,
                    ff_dim,
                    config.num_heads,
                    config.num_layers,
                    config.dropout.num,
                    config.dropout.den,
                ),
            );
            i += 1;
        }
        let continuum_memory = if config.continuum_mem.enabled {
            Some(ContinuumMemory::new(config.continuum_mem, config.hidden_size))
        } else {
            None
        };
        let self_modify = if config.self_modify.enabled {
            Some(SelfModifyModule::new(config.self_modify, config.hidden_size))
        } else {
            None
        };
        let head = linear_init(config.hidden_size, config.vocab_size);
        HopeModel {
            cfg: config,
            token_embed,
            pos_embed,
            level_encoders,
            continuum_memory,
            self_modify,
            head,
        }
    }

    pub fn config(&self) -> (r: &HopeConfig)
        ensures
            *r == self.spec_config(),
    {
        &self.cfg
    }

    /// A fresh carry for a sequence of batch width `batch`: one zero state
    /// per hierarchy level, zero memory banks and a zero meta-state exactly
    /// when the respective modules are enabled, and a step count of zero.
    pub fn initial_carry(&self, batch: usize) -> (r: HopeCarry)
        requires
            self.inv(),
            fits3(batch, self.spec_config().seq_len, self.spec_config().hidden_size),
            fits2(batch, self.spec_config().self_modify.weight_mod_dim),
        ensures
            self.carry_wf(r, batch),
            r.level_states@.len() == self.spec_config().num_levels,
            forall|i: int|
                0 <= i < r.level_states@.len() ==> (#[trigger] r.level_states@[i]).val()
                    == zero_val3(
                    batch,
                    self.spec_config().seq_len,
                    self.spec_config().hidden_size,
                ),
            r.continuum_memory is Some <==> self.spec_config().continuum_mem.enabled,
            r.continuum_memory matches Some(m) ==> {
                &&& m.ultra_short.val() == zero_val3(
                    batch,
                    self.spec_config().seq_len,
                    self.spec_config().hidden_size,
                )
                &&& m.short.val() == m.ultra_short.val()
                &&& m.mid.val() == m.ultra_short.val()
                &&& m.long.val() == m.ultra_short.val()
                &&& m.episodic.val() == m.ultra_short.val()
            },
            r.self_modify is Some <==> self.spec_config().self_modify.enabled,
            r.self_modify matches Some(st) ==> st.update_count == 0 && st.meta_state.val()
                == zero_val2(batch, self.spec_config().self_modify.weight_mod_dim),
            r.step_count == 0,
    {
        let level_states = zeros_vec(
            self.cfg.num_levels,
            batch,
            self.cfg.seq_len,
            self.cfg.hidden_size,
        );
        let continuum_memory = match &self.continuum_memory {
            Some(mem) => Some(mem.init_state(batch, self.cfg.seq_len, self.cfg.hidden_size)),
            None => None,
        };
        let self_modify = match &self.self_modify {
            Some(sm) => Some(sm.init_state(batch, self.cfg.hidden_size)),
            None => None,
        };
        HopeCarry { level_states, continuum_memory, self_modify, step_count: 0 }
    }

    /// One forward call.
    ///
    /// Embeds the tokens, retrieves context from the memory banks when both
    /// the module and the carried banks are present, runs each hierarchy
    /// level for exactly its configured number of inner steps (each inner
    /// step an encoder evaluation followed, when self-modification is
    /// present, by a meta-state update and a perturbation), folds the final
    /// level output into the memory banks, projects logits, and advances
    /// the step count once.  Lower levels never see updates from higher
    /// levels within the same call: each level fully consumes the fixed
    /// output of the level beneath it.
    pub fn forward(&self, input: HopeInput, carry: HopeCarry) -> (r: (HopeCarry, HopeOutput))
        requires
            self.inv(),
            input.tokens.d0() >= 1,
            input.tokens.d1() == self.spec_config().seq_len,
            forall|i: int|
                0 <= i < input.tokens.val().len() ==> 0 <= #[trigger] input.tokens.val()[i]
                    < self.spec_config().vocab_size,
            self.carry_wf(carry, input.tokens.d0()),
            self.forward_limits(input.tokens.d0(), input.tokens.d1()),
            carry.step_count < usize::MAX,
            carry.self_modify matches Some(st) ==> st.update_count
                + self.spec_config().spec_total_timescale() <= usize::MAX,
        ensures
            r.1.logits.d0() == input.tokens.d0(),
            r.1.logits.d1() == self.spec_config().seq_len,
            r.1.logits.d2() == self.spec_config().vocab_size,
            r.1.hidden_states.d0() == input.tokens.d0(),
            r.1.hidden_states.d1() == self.spec_config().seq_len,
            r.1.hidden_states.d2() == self.spec_config().hidden_size,
            self.carry_wf(r.0, input.tokens.d0()),
            // the returned hidden states are the final level's carried state
            r.0.level_states@[self.spec_config().num_levels - 1].val()
                == r.1.hidden_states.val(),
            r.0.step_count == carry.step_count + 1,
            r.0.continuum_memory is Some <==> carry.continuum_memory is Some,
            r.0.self_modify is Some <==> carry.self_modify is Some,
            // the memory banks fold in the final hidden states
            self.spec_config().continuum_mem.enabled ==> (carry.continuum_memory matches Some(pre)
                ==> (r.0.continuum_memory matches Some(post) ==> {
                &&& post.ultra_short.val() == r.1.hidden_states.val()
                &&& post.short.val() == ema_bank(
                    pre.short.val(),
                    r.1.hidden_states.val(),
                    self.spec_config().continuum_mem.short_span,
                )
                &&& post.mid.val() == ema_bank(
                    pre.mid.val(),
                    r.1.hidden_states.val(),
                    self.spec_config().continuum_mem.mid_span,
                )
                &&& post.long.val() == ema_bank(
                    pre.long.val(),
                    r.1.hidden_states.val(),
                    self.spec_config().continuum_mem.long_span,
                )
                &&& post.episodic.val() == ema_bank(
                    pre.episodic.val(),
                    r.1.hidden_states.val(),
                    self.spec_config().continuum_mem.episodic_span,
                )
            })),
            !(self.spec_config().continuum_mem.enabled && carry.continuum_memory is Some)
                ==> r.0.continuum_memory == carry.continuum_memory,
            // self-modification advances once per inner encoder evaluation
            carry.self_modify matches Some(pre) ==> (r.0.self_modify matches Some(post)
                ==> post.update_count == if self.spec_config().self_modify.enabled {
                pre.update_count + self.spec_config().spec_total_timescale()
            } else {
                pre.update_count as int
            }),
            !(self.spec_config().self_modify.enabled && carry.self_modify is Some)
                ==> r.0.self_modify == carry.self_modify,
    {
        let (b, s) = input.tokens.shape();
        let h = self.cfg.hidden_size;
        let ghost ts = self.cfg.level_timescales@;
        // token embedding, scaled by the reciprocal square root of the width
        let token_embeds_raw = embedding_forward(&self.token_embed, &input.tokens);
        let token_embeds = div_by_sqrt3(&token_embeds_raw, h as u64);
        // learned positional embedding at positions 0..seq_len
        let pos_vals = position_ids(b, s);
        let positions = token_tensor_from(&pos_vals, b, s);
        let pos_embeds = embedding_forward(&self.pos_embed, &positions);
        let mut hidden = add3(&token_embeds, &pos_embeds);
        // memory retrieval replaces the hidden states when available
        if let Some(mem) = &self.continuum_memory {
            match &carry.continuum_memory {
                Some(mem_state) => {
                    hidden = mem.retrieve(mem_state, &hidden);
                },
                None => {},
            }
        }
        let ghost carry0 = carry;
        let ghost base_count: int = if carry0.self_modify is Some {
            carry0.self_modify->Some_0.update_count as int
        } else {
            0
        };
        let mut carry = carry;
        // the nested per-level loop
        let mut prev_level_output = hidden;
        let num_levels = self.cfg.num_levels;
        let mut level_idx: usize = 0;
        while level_idx < num_levels
            invariant
                0 <= level_idx <= num_levels,
                self.inv(),
                num_levels == self.spec_config().num_levels,
                ts == self.spec_config().level_timescales@,
                ts.len() == num_levels,
                b == input.tokens.d0(),
                b >= 1,
                s == self.spec_config().seq_len,
                s >= 1,
                h == self.spec_config().hidden_size,
                self.forward_limits(b, s),
                prev_level_output.d0() == b && prev_level_output.d1() == s
                    && prev_level_output.d2() == h,
                carry.level_states@.len() == num_levels,
                forall|i: int|
                    0 <= i < num_levels ==> (#[trigger] carry.level_states@[i]).d0() == b
                        && carry.level_states@[i].d1() == s && carry.level_states@[i].d2() == h,
                level_idx > 0 ==> carry.level_states@[level_idx - 1].val()
                    == prev_level_output.val(),
                carry.continuum_memory == carry0.continuum_memory,
                carry.step_count == carry0.step_count,
                carry.self_modify is Some <==> carry0.self_modify is Some,
                !(self.spec_config().self_modify.enabled && carry0.self_modify is Some)
                    ==> carry.self_modify == carry0.self_modify,
                (self.spec_config().self_modify.enabled && carry0.self_modify is Some) ==> {
                    &&& carry.self_modify is Some
                    &&& carry.self_modify->Some_0.meta_state.d0() == b
                    &&& carry.self_modify->Some_0.meta_state.d1()
                        == self.spec_config().self_modify.weight_mod_dim
                    &&& carry.self_modify->Some_0.update_count == base_count + timescale_sum(
                        ts,
                        level_idx as int,
                    )
                },
                carry0.self_modify is Some ==> base_count + timescale_sum(
                    ts,
                    num_levels as int,
                ) <= usize::MAX,
                base_count >= 0,
            decreases num_levels - level_idx,
        {
            let timescale = self.cfg.level_timescales[level_idx];
            let mut level_state = clone3(&carry.level_states[level_idx]);
            proof {
                lemma_timescale_sum_nonneg(ts, level_idx as int);
                lemma_timescale_sum_mono(ts, level_idx as int + 1, num_levels as int);
            }
            let mut t: usize = 0;
            while t < timescale
                invariant
                    0 <= t <= timescale,
                    0 <= level_idx < num_levels,
                    self.inv(),
                    num_levels == self.spec_config().num_levels,
                    ts == self.spec_config().level_timescales@,
                    ts.len() == num_levels,
                    timescale == ts[level_idx as int],
                    b == input.tokens.d0(),
                    b >= 1,
                    s == self.spec_config().seq_len,
                    s >= 1,
                    h == self.spec_config().hidden_size,
                    self.forward_limits(b, s),
                    level_state.d0() == b && level_state.d1() == s && level_state.d2() == h,
                    prev_level_output.d0() == b && prev_level_output.d1() == s
                        && prev_level_output.d2() == h,
                    level_idx > 0 ==> carry.level_states@[level_idx - 1].val()
                        == prev_level_output.val(),
                    carry.level_states@.len() == num_levels,
                    forall|i: int|
                        0 <= i < num_levels ==> (#[trigger] carry.level_states@[i]).d0() == b
                            && carry.level_states@[i].d1() == s && carry.level_states@[i].d2()
                            == h,
                    carry.continuum_memory == carry0.continuum_memory,
                    carry.step_count == carry0.step_count,
                    carry.self_modify is Some <==> carry0.self_modify is Some,
                    !(self.spec_config().self_modify.enabled && carry0.self_modify is Some)
                        ==> carry.self_modify == carry0.self_modify,
                    (self.spec_config().self_modify.enabled && carry0.self_modify is Some) ==> {
                        &&& carry.self_modify is Some
                        &&& carry.self_modify->Some_0.meta_state.d0() == b
                        &&& carry.self_modify->Some_0.meta_state.d1()
                            == self.spec_config().self_modify.weight_mod_dim
                        &&& carry.self_modify->Some_0.update_count == base_count + timescale_sum(
                            ts,
                            level_idx as int,
                        ) + t
                    },
                    carry0.self_modify is Some ==> base_count + timescale_sum(
                        ts,
                        num_levels as int,
                    ) <= usize::MAX,
                    base_count >= 0,
                    timescale_sum(ts, level_idx as int) >= 0,
                    timescale_sum(ts, level_idx as int + 1) <= timescale_sum(
                        ts,
                        num_levels as int,
                    ),
                decreases timescale - t,
            {
                let level_input = add3(&level_state, &prev_level_output);
                let encoded = encoder_forward(&self.level_encoders[level_idx], &level_input);
                if let Some(sm) = &self.self_modify {
                    match &mut carry.self_modify {
                        Some(sm_state) => {
                            let meta = sm.compute_update_rule(&encoded, sm_state);
                            sm_state.meta_state = meta;
                            sm_state.update_count = sm_state.update_count + 1;
                            level_state = sm.apply_weight_modification(
                                &encoded,
                                &sm_state.meta_state,
                            );
                        },
                        None => {
                            level_state = encoded;
                        },
                    }
                } else {
                    level_state = encoded;
                }
                t += 1;
            }
            carry.level_states[level_idx] = clone3(&level_state);
            prev_level_output = level_state;
            level_idx += 1;
        }
        // fold the final level output into the memory banks
        if let Some(mem) = &self.continuum_memory {
            match &mut carry.continuum_memory {
                Some(mem_state) => {
                    mem.update(mem_state, &prev_level_output);
                },
                None => {},
            }
        }
        // output head
        let flat = reshape3to2(&prev_level_output, b * s, h);
        let logits2 = linear_forward2(&self.head, &flat);
        let logits = reshape2to3(&logits2, b, s, self.head.output_dim());
        carry.step_count = carry.step_count + 1;
        let output = HopeOutput { logits, hidden_states: prev_level_output };
        (carry, output)
    }
}

/// Row-major position ids for a `[b, s]` batch: each row is `0..s`.
fn position_ids(b: usize, s: usize) -> (r: Vec<i64>)
    requires
        s >= 1,
        (b as nat) * (s as nat) <= usize::MAX,
        s <= i64::MAX,
    ensures
        r@.len() == b * s,
        forall|k: int| 0 <= k < r@.len() ==> 0 <= #[trigger] r@[k] < s,
{
    let total = b * s;
    let mut v: Vec<i64> = Vec::new();
    let mut k: usize = 0;
    while k < total
        invariant
            0 <= k <= total,
            s >= 1,
            s <= i64::MAX,
            v@.len() == k,
            forall|j: int| 0 <= j < k ==> 0 <= #[trigger] v@[j] < s,
        decreases total - k,
    {
        v.push((k % s) as i64);
        k += 1;
    }
    v
}

} // verus!
