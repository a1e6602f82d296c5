//! Dual-rate auxiliary optimizer.
//!
//! Keeps fast- and slow-moving shadow copies of per-level activity,
//! independent of the primary gradient optimizer, and periodically snaps
//! the slow copy onto the fast moving average.

use vstd::prelude::*;
use crate::config::{DeepOptimizerConfig, Ratio};
use crate::tensor::{
    add3, add3_of, clone3, div_scalar3, div_scalar3_of, fits2, fits3, gather_heads, mul_scalar3,
    mul_scalar3_of, reshape3to2, same_dims3, slice2_cols, sub3, sub3_of, sum_mid3, sum_mid3_of,
    zero_val2, zero_val3, zeros2, zeros_vec, Tensor2, Tensor3,
};

verus! {

/// Per-level shadow state of the dual-rate optimizer.
pub struct DeepOptimizerState {
    pub fast_params: Vec<Tensor3>,
    pub slow_params: Vec<Tensor3>,
    pub fast_ema: Vec<Tensor3>,
    pub slow_ema: Vec<Tensor3>,
    pub step_count: usize,
}

impl DeepOptimizerState {
    /// The four shadow vectors agree in length and, level by level, in shape.
    pub open spec fn aligned(self) -> bool {
        &&& self.slow_params@.len() == self.fast_params@.len()
        &&& self.fast_ema@.len() == self.fast_params@.len()
        &&& self.slow_ema@.len() == self.fast_params@.len()
        &&& forall|i: int|
            0 <= i < self.fast_params@.len() ==> {
                &&& same_dims3(#[trigger] self.fast_params@[i], self.fast_ema@[i])
                &&& same_dims3(self.fast_params@[i], self.slow_params@[i])
                &&& same_dims3(self.fast_params@[i], self.slow_ema@[i])
            }
    }

    pub open spec fn levels(self) -> int {
        self.fast_params@.len() as int
    }
}

/// What a parameter step does to a level's fast parameters: subtract the
/// gradient scaled by `lr * scale`.
pub open spec fn grad_step(g: Seq<u8>, lr: Ratio, scale: Ratio) -> Seq<u8> {
    div_scalar3_of(
        mul_scalar3_of(g, (lr.num * scale.num) as u64),
        (lr.den * scale.den) as u64,
    )
}

/// An exponential-moving-average blend `prev*(1-c) + cur*c`, carried out
/// over the common denominator: `(prev*(den-num) + cur*num) / den`.
pub open spec fn ema_mix3(prev: Seq<u8>, cur: Seq<u8>, c: Ratio) -> Seq<u8> {
    div_scalar3_of(
        add3_of(
            mul_scalar3_of(prev, (c.den - c.num) as u64),
            mul_scalar3_of(cur, c.num as u64),
        ),
        c.den as u64,
    )
}

/// What `sync` does: the slow parameters take the fast moving average, and
/// everything else stays.
pub open spec fn sync_post(pre: DeepOptimizerState, post: DeepOptimizerState) -> bool {
    &&& post.fast_params == pre.fast_params
    &&& post.fast_ema == pre.fast_ema
    &&& post.slow_ema == pre.slow_ema
    &&& post.step_count == pre.step_count
    &&& post.slow_params@.len() == pre.slow_params@.len()
    &&& pre.slow_params@.len() == pre.fast_ema@.len()
    &&& forall|i: int|
        0 <= i < post.slow_params@.len() ==> (#[trigger] post.slow_params@[i]).val()
            == pre.fast_ema@[i].val()
    &&& forall|i: int|
        0 <= i < post.slow_params@.len() ==> same_dims3(
            #[trigger] post.slow_params@[i],
            pre.slow_params@[i],
        )
}

/// Law: synchronization is idempotent on immediate repetition.  A second
/// `sync` with no step in between leaves the slow parameters unchanged,
/// because the fast moving average it copies has not moved.
pub proof fn lemma_sync_idempotent(
    s1: DeepOptimizerState,
    s2: DeepOptimizerState,
    s3: DeepOptimizerState,
)
    requires
        sync_post(s1, s2),
        sync_post(s2, s3),
    ensures
        forall|i: int|
            0 <= i < s3.slow_params@.len() ==> (#[trigger] s3.slow_params@[i]).val()
                == s2.slow_params@[i].val(),
{
}

/// Law: synchronization is due exactly at the multiples of the interval.
/// A step count passes `should_sync` precisely when some whole number of
/// intervals has elapsed.
pub proof fn lemma_sync_at_multiples(step_count: usize, interval: usize)
    requires
        interval >= 1,
    ensures
        (step_count % interval == 0) <==> (exists|m: int|
            0 <= m && step_count == #[trigger] (m * interval)),
{
    if step_count % interval == 0 {
        vstd::arithmetic::div_mod::lemma_fundamental_div_mod(
            step_count as int,
            interval as int,
        );
        assert(step_count == (interval as int) * ((step_count as int) / (interval as int))
            + (step_count as int) % (interval as int));
        let m = (step_count as int) / (interval as int);
        assert(m >= 0) by (nonlinear_arith)
            requires
                step_count >= 0,
                interval >= 1,
                m == (step_count as int) / (interval as int),
        ;
        assert(step_count == m * interval) by (nonlinear_arith)
            requires
                step_count == (interval as int) * m + (step_count as int) % (interval as int),
                (step_count as int) % (interval as int) == 0,
        ;
    }
    if exists|m: int| 0 <= m && step_count == #[trigger] (m * interval) {
        let m = choose|m: int| 0 <= m && step_count == #[trigger] (m * interval);
        vstd::arithmetic::div_mod::lemma_mod_multiples_basic(m, interval as int);
        assert((m * interval) % (interval as int) == 0);
    }
}

/// The dual-rate optimizer itself: stateless but for its configuration.
pub struct DeepOptimizer {
    cfg: DeepOptimizerConfig,
}

/// The product of two 32-bit values stays within 64 bits.
proof fn lemma_u32_mul_fits(a: u64, b: u64)
    requires
        a <= u32::MAX,
        b <= u32::MAX,
    ensures
        a * b <= u64::MAX,
{
    assert(a * b <= 0xFFFF_FFFFu64 * 0xFFFF_FFFFu64) by (nonlinear_arith)
        requires
            a <= 0xFFFF_FFFFu64,
            b <= 0xFFFF_FFFFu64,
    ;
}

impl DeepOptimizer {
    pub closed spec fn spec_config(self) -> DeepOptimizerConfig {
        self.cfg
    }

    /// The construction-time invariant: the configuration was validated.
    pub open spec fn inv(self) -> bool {
        self.spec_config().valid()
    }

    pub fn new(config: DeepOptimizerConfig) -> (r: DeepOptimizer)
        requires
            config.valid(),
        ensures
            r.spec_config() == config,
            r.inv(),
    {
        DeepOptimizer { cfg: config }
    }

    pub fn config(&self) -> (r: &DeepOptimizerConfig)
        ensures
            *r == self.spec_config(),
    {
        &self.cfg
    }

    /// Fresh shadow state: one zero array per level in each of the four
    /// roles, and a step count of zero.
    pub fn init_state(
        &self,
        num_levels: usize,
        batch: usize,
        seq_len: usize,
        hidden_size: usize,
    ) -> (r: DeepOptimizerState)
        requires
            fits3(batch, seq_len, hidden_size),
        ensures
            r.aligned(),
            r.levels() == num_levels,
            r.step_count == 0,
            forall|i: int|
                0 <= i < num_levels ==> {
                    &&& (#[trigger] r.fast_params@[i]).d0() == batch
                    &&& r.fast_params@[i].d1() == seq_len
                    &&& r.fast_params@[i].d2() == hidden_size
                    &&& r.fast_params@[i].val() == zero_val3(batch, seq_len, hidden_size)
                    &&& r.slow_params@[i].val() == zero_val3(batch, seq_len, hidden_size)
                    &&& r.fast_ema@[i].val() == zero_val3(batch, seq_len, hidden_size)
                    &&& r.slow_ema@[i].val() == zero_val3(batch, seq_len, hidden_size)
                },
    {
        DeepOptimizerState {
            fast_params: zeros_vec(num_levels, batch, seq_len, hidden_size),
            slow_params: zeros_vec(num_levels, batch, seq_len, hidden_size),
            fast_ema: zeros_vec(num_levels, batch, seq_len, hidden_size),
            slow_ema: zeros_vec(num_levels, batch, seq_len, hidden_size),
            step_count: 0,
        }
    }

    /// One fast step: each level's fast parameters descend along the given
    /// gradient scaled by `lr * fast_lr_scale`, the fast moving average is
    /// re-blended, and the shared step counter advances once per call.
    /// Disabled, the state is left exactly as it was.
    pub fn update_fast_params(
        &self,
        state: &mut DeepOptimizerState,
        gradients: &Vec<Tensor3>,
        lr: Ratio,
    )
        requires
            self.inv(),
            lr.valid(),
            old(state).aligned(),
            old(state).step_count < usize::MAX,
            forall|i: int|
                0 <= i < min_int(gradients@.len() as int, old(state).levels()) ==> same_dims3(
                    #[trigger] gradients@[i],
                    old(state).fast_params@[i],
                ),
        ensures
            !self.spec_config().enabled ==> *final(state) == *old(state),
            self.spec_config().enabled ==> {
                &&& final(state).aligned()
                &&& final(state).levels() == old(state).levels()
                &&& final(state).step_count == old(state).step_count + 1
                &&& final(state).slow_params == old(state).slow_params
                &&& final(state).slow_ema == old(state).slow_ema
                &&& forall|i: int|
                    0 <= i < min_int(gradients@.len() as int, old(state).levels()) ==> {
                        &&& (#[trigger] final(state).fast_params@[i]).val() == sub3_of(
                            old(state).fast_params@[i].val(),
                            grad_step(gradients@[i].val(), lr, self.spec_config().fast_lr_scale),
                        )
                        &&& final(state).fast_ema@[i].val() == ema_mix3(
                            old(state).fast_ema@[i].val(),
                            final(state).fast_params@[i].val(),
                            self.spec_config().fast_ema,
                        )
                        &&& same_dims3(final(state).fast_params@[i], old(state).fast_params@[i])
                        &&& same_dims3(final(state).fast_ema@[i], old(state).fast_ema@[i])
                    }
                &&& forall|i: int|
                    min_int(gradients@.len() as int, old(state).levels()) <= i < old(
                        state,
                    ).levels() ==> (#[trigger] final(state).fast_params@[i]) == old(state).fast_params@[i]
                        && final(state).fast_ema@[i] == old(state).fast_ema@[i]
            },
    {
        if !self.cfg.enabled {
            return;
        }
        let scale = self.cfg.fast_lr_scale;
        proof {
            lemma_u32_mul_fits(lr.num as u64, scale.num as u64);
            lemma_u32_mul_fits(lr.den as u64, scale.den as u64);
        }
        let fl_num: u64 = (lr.num as u64) * (scale.num as u64);
        let fl_den: u64 = (lr.den as u64) * (scale.den as u64);
        let c = self.cfg.fast_ema;
        let n = state.fast_params.len();
        let k = if gradients.len() < n { gradients.len() } else { n };
        let mut i: usize = 0;
        while i < k
            invariant
                0 <= i <= k,
                k == min_int(gradients@.len() as int, old(state).levels()),
                k <= n == state.fast_params@.len() == old(state).fast_params@.len(),
                fl_num == lr.num * scale.num,
                fl_den == lr.den * scale.den,
                c == self.spec_config().fast_ema,
                c.num <= c.den,
                self.inv(),
                state.aligned(),
                state.fast_ema@.len() == n,
                state.slow_params == old(state).slow_params,
                state.slow_ema == old(state).slow_ema,
                state.step_count == old(state).step_count,
                old(state).step_count < usize::MAX,
                forall|j: int|
                    0 <= j < min_int(gradients@.len() as int, old(state).levels()) ==> same_dims3(
                        #[trigger] gradients@[j],
                        old(state).fast_params@[j],
                    ),
                forall|j: int|
                    0 <= j < i ==> (#[trigger] state.fast_params@[j]).val() == sub3_of(
                        old(state).fast_params@[j].val(),
                        grad_step(gradients@[j].val(), lr, scale),
                    ) && same_dims3(state.fast_params@[j], old(state).fast_params@[j]),
                forall|j: int|
                    0 <= j < i ==> (#[trigger] state.fast_ema@[j]).val() == ema_mix3(
                        old(state).fast_ema@[j].val(),
                        state.fast_params@[j].val(),
                        c,
                    ) && same_dims3(state.fast_ema@[j], old(state).fast_ema@[j]),
                forall|j: int|
                    i <= j < n ==> (#[trigger] state.fast_params@[j]) == old(
                        state,
                    ).fast_params@[j],
                forall|j: int|
                    i <= j < n ==> (#[trigger] state.fast_ema@[j]) == old(state).fast_ema@[j],
            decreases k - i,
        {
            proof {
                assert(same_dims3(state.fast_params@[i as int], state.fast_ema@[i as int]));
                assert(same_dims3(
                    gradients@[i as int],
                    old(state).fast_params@[i as int],
                ));
                assert(state.fast_params@[i as int] == old(state).fast_params@[i as int]);
            }
            let scaled = mul_scalar3(&gradients[i], fl_num);
            let update = div_scalar3(&scaled, fl_den);
            let stepped = sub3(&state.fast_params[i], &update);
            state.fast_params[i] = stepped;
            let prev_part = mul_scalar3(&state.fast_ema[i], (c.den - c.num) as u64);
            let cur_part = mul_scalar3(&state.fast_params[i], c.num as u64);
            let mixed = add3(&prev_part, &cur_part);
            state.fast_ema[i] = div_scalar3(&mixed, c.den as u64);
            i += 1;
        }
        state.step_count = state.step_count + 1;
    }

    /// One slow step: each level's slow parameters move toward the fast
    /// moving average by the fraction `lr * slow_lr_scale`, and the slow
    /// moving average is re-blended.  The step counter does not advance.
    /// Disabled, the state is left exactly as it was.
    pub fn update_slow_params(&self, state: &mut DeepOptimizerState, lr: Ratio)
        requires
            self.inv(),
            lr.valid(),
            old(state).aligned(),
        ensures
            !self.spec_config().enabled ==> *final(state) == *old(state),
            self.spec_config().enabled ==> {
                &&& final(state).aligned()
                &&& final(state).levels() == old(state).levels()
                &&& final(state).step_count == old(state).step_count
                &&& final(state).fast_params == old(state).fast_params
                &&& final(state).fast_ema == old(state).fast_ema
                &&& forall|i: int|
                    0 <= i < old(state).levels() ==> {
                        &&& (#[trigger] final(state).slow_params@[i]).val() == add3_of(
                            old(state).slow_params@[i].val(),
                            grad_step(
                                sub3_of(
                                    old(state).fast_ema@[i].val(),
                                    old(state).slow_params@[i].val(),
                                ),
                                lr,
                                self.spec_config().slow_lr_scale,
                            ),
                        )
                        &&& final(state).slow_ema@[i].val() == ema_mix3(
                            old(state).slow_ema@[i].val(),
                            final(state).slow_params@[i].val(),
                            self.spec_config().slow_ema,
                        )
                        &&& same_dims3(final(state).slow_params@[i], old(state).slow_params@[i])
                        &&& same_dims3(final(state).slow_ema@[i], old(state).slow_ema@[i])
                    }
            },
    {
        if !self.cfg.enabled {
            return;
        }
        let scale = self.cfg.slow_lr_scale;
        proof {
            lemma_u32_mul_fits(lr.num as u64, scale.num as u64);
            lemma_u32_mul_fits(lr.den as u64, scale.den as u64);
        }
        let sl_num: u64 = (lr.num as u64) * (scale.num as u64);
        let sl_den: u64 = (lr.den as u64) * (scale.den as u64);
        let c = self.cfg.slow_ema;
        let n = state.slow_params.len();
        let mut i: usize = 0;
        while i < n
            invariant
                0 <= i <= n,
                n == old(state).levels(),
                sl_num == lr.num * scale.num,
                sl_den == lr.den * scale.den,
                c == self.spec_config().slow_ema,
                c.num <= c.den,
                self.inv(),
                state.aligned(),
                state.slow_params@.len() == n,
                state.fast_params == old(state).fast_params,
                state.fast_ema == old(state).fast_ema,
                state.step_count == old(state).step_count,
                forall|j: int|
                    0 <= j < i ==> (#[trigger] state.slow_params@[j]).val() == add3_of(
                        old(state).slow_params@[j].val(),
                        grad_step(
                            sub3_of(
                                old(state).fast_ema@[j].val(),
                                old(state).slow_params@[j].val(),
                            ),
                            lr,
                            scale,
                        ),
                    ) && same_dims3(state.slow_params@[j], old(state).slow_params@[j]),
                forall|j: int|
                    0 <= j < i ==> (#[trigger] state.slow_ema@[j]).val() == ema_mix3(
                        old(state).slow_ema@[j].val(),
                        state.slow_params@[j].val(),
                        c,
                    ) && same_dims3(state.slow_ema@[j], old(state).slow_ema@[j]),
                forall|j: int|
                    i <= j < n ==> (#[trigger] state.slow_params@[j]) == old(
                        state,
                    ).slow_params@[j],
                forall|j: int|
                    i <= j < n ==> (#[trigger] state.slow_ema@[j]) == old(state).slow_ema@[j],
            decreases n - i,
        {
            proof {
                assert(same_dims3(state.fast_params@[i as int], state.fast_ema@[i as int]));
                assert(same_dims3(state.fast_params@[i as int], state.slow_params@[i as int]));
                assert(same_dims3(state.fast_params@[i as int], state.slow_ema@[i as int]));
                assert(state.slow_params@[i as int] == old(state).slow_params@[i as int]);
            }
            let diff = sub3(&state.fast_ema[i], &state.slow_params[i]);
            let scaled = mul_scalar3(&diff, sl_num);
            let update = div_scalar3(&scaled, sl_den);
            let moved = add3(&state.slow_params[i], &update);
            state.slow_params[i] = moved;
            let prev_part = mul_scalar3(&state.slow_ema[i], (c.den - c.num) as u64);
            let cur_part = mul_scalar3(&state.slow_params[i], c.num as u64);
            let mixed = add3(&prev_part, &cur_part);
            state.slow_ema[i] = div_scalar3(&mixed, c.den as u64);
            i += 1;
        }
    }

    /// Synchronization is due exactly at the multiples of `sync_interval`.
    pub fn should_sync(&self, state: &DeepOptimizerState) -> (r: bool)
        requires
            self.inv(),
        ensures
            r == (self.spec_config().enabled && state.step_count % self.spec_config().sync_interval
                == 0),
    {
        self.cfg.enabled && state.step_count % self.cfg.sync_interval == 0
    }

    /// Hard synchronization: every level's slow parameters are overwritten
    /// with the fast moving average.  Disabled, the state is left exactly
    /// as it was.
    pub fn sync(&self, state: &mut DeepOptimizerState)
        requires
            self.inv(),
            old(state).aligned(),
        ensures
            !self.spec_config().enabled ==> *final(state) == *old(state),
            self.spec_config().enabled ==> {
                &&& final(state).aligned()
                &&& sync_post(*old(state), *final(state))
            },
    {
        if !self.cfg.enabled {
            return;
        }
        let n = state.slow_params.len();
        let mut i: usize = 0;
        while i < n
            invariant
                0 <= i <= n,
                n == old(state).levels(),
                old(state).aligned(),
                state.aligned(),
                state.slow_params@.len() == n,
                state.fast_params == old(state).fast_params,
                state.fast_ema == old(state).fast_ema,
                state.slow_ema == old(state).slow_ema,
                state.step_count == old(state).step_count,
                forall|j: int|
                    0 <= j < i ==> (#[trigger] state.slow_params@[j]).val() == old(
                        state,
                    ).fast_ema@[j].val() && same_dims3(
                        state.slow_params@[j],
                        old(state).slow_params@[j],
                    ),
                forall|j: int|
                    i <= j < n ==> (#[trigger] state.slow_params@[j]) == old(
                        state,
                    ).slow_params@[j],
            decreases n - i,
        {
            proof {
                assert(same_dims3(state.fast_params@[i as int], state.fast_ema@[i as int]));
                assert(same_dims3(state.fast_params@[i as int], state.slow_params@[i as int]));
            }
            let copied = clone3(&state.fast_ema[i]);
            state.slow_params[i] = copied;
            i += 1;
        }
    }

    /// Compress a `[batch, seq, hidden]` gradient: average over the
    /// sequence axis, then keep the first `min(compression_dim, hidden)`
    /// columns.  Disabled, a zero array of the configured width.
    pub fn compress_gradient(&self, gradient: &Tensor3) -> (r: Tensor2)
        requires
            self.inv(),
            gradient.d0() >= 1,
            gradient.d1() >= 1,
            gradient.d2() >= 1,
            fits3(gradient.d0(), gradient.d1(), gradient.d2()),
            !self.spec_config().enabled ==> fits2(
                gradient.d0(),
                self.spec_config().gradient_compression_dim,
            ),
        ensures
            !self.spec_config().enabled ==> {
                &&& r.d0() == gradient.d0()
                &&& r.d1() == self.spec_config().gradient_compression_dim
                &&& r.val() == zero_val2(gradient.d0(), self.spec_config().gradient_compression_dim)
            },
            self.spec_config().enabled ==> {
                &&& r.d0() == gradient.d0()
                &&& r.d1() == min_int(
                    self.spec_config().gradient_compression_dim as int,
                    gradient.d2() as int,
                )
                &&& r.val() == gather_heads(
                    div_scalar3_of(
                        sum_mid3_of(gradient.val(), gradient.d1() as nat, gradient.d2() as nat),
                        gradient.d1() as u64,
                    ),
                    (gradient.d2() as nat) * 4,
                    (r.d1() as nat) * 4,
                )
            },
    {
        if !self.cfg.enabled {
            let batch = gradient.shape().0;
            return zeros2(batch, self.cfg.gradient_compression_dim);
        }
        let (batch, seq_len, hidden) = gradient.shape();
        let summed = sum_mid3(gradient);
        let averaged = div_scalar3(&summed, seq_len as u64);
        proof {
            lemma_mul_one_mid(batch as nat, hidden as nat);
        }
        let flat = reshape3to2(&averaged, batch, hidden);
        let compress_dim = if self.cfg.gradient_compression_dim < hidden {
            self.cfg.gradient_compression_dim
        } else {
            hidden
        };
        slice2_cols(&flat, compress_dim)
    }

    pub fn get_fast_params<'a>(&self, state: &'a DeepOptimizerState, level_idx: usize) -> (r:
        Option<&'a Tensor3>)
        ensures
            level_idx < state.fast_params@.len() ==> r == Some(
                &state.fast_params@[level_idx as int],
            ),
            level_idx >= state.fast_params@.len() ==> r is None,
    {
        if level_idx < state.fast_params.len() {
            Some(&state.fast_params[level_idx])
        } else {
            None
        }
    }

    pub fn get_slow_params<'a>(&self, state: &'a DeepOptimizerState, level_idx: usize) -> (r:
        Option<&'a Tensor3>)
        ensures
            level_idx < state.slow_params@.len() ==> r == Some(
                &state.slow_params@[level_idx as int],
            ),
            level_idx >= state.slow_params@.len() ==> r is None,
    {
        if level_idx < state.slow_params.len() {
            Some(&state.slow_params[level_idx])
        } else {
            None
        }
    }
}

/// The smaller of two mathematical integers.
pub open spec fn min_int(a: int, b: int) -> int {
    if a < b {
        a
    } else {
        b
    }
}

/// Multiplying through a middle factor of one changes nothing.
proof fn lemma_mul_one_mid(a: nat, b: nat)
    ensures
        a * b == a * 1 * b,
{
    assert(a * b == a * 1 * b) by (nonlinear_arith);
}



} // verus!
