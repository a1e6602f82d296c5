//! Configuration for the hierarchical sequence model and its sub-modules.
//!
//! Every configuration type carries a `valid` spec function that states its
//! invariant; `validate` is the executable check for it.  Construction of the
//! model requires a valid configuration, so an invalid one can never reach
//! the forward path.

use vstd::prelude::*;

verus! {

/// A non-negative rational number, used wherever the model's update rules
/// take a fractional coefficient (learning-rate scales, moving-average
/// weights, the feed-forward width multiplier).  The represented value is
/// `num / den`.
#[derive(Debug, Clone, Copy, PartialEq, Eq, Structural)]
pub struct Ratio {
    pub num: u32,
    pub den: u32,
}

impl Ratio {
    /// A denominator of zero never represents a value.
    pub open spec fn valid(self) -> bool {
        self.den > 0
    }

    /// The represented value is positive.
    pub open spec fn is_positive(self) -> bool {
        self.valid() && self.num > 0
    }

    /// The represented value lies in the closed interval [0, 1].
    pub open spec fn is_fraction(self) -> bool {
        self.valid() && self.num <= self.den
    }

    pub fn new(num: u32, den: u32) -> (r: Ratio)
        requires
            den > 0,
        ensures
            r == (Ratio { num, den }),
            r.valid(),
    {
        Ratio { num, den }
    }
}

/// Configuration of the multi-span exponential memory bank.
#[derive(Debug, Clone, Copy, PartialEq, Eq, Structural)]
pub struct ContinuumMemConfig {
    pub enabled: bool,
    pub ultra_short_span: usize,
    pub short_span: usize,
    pub mid_span: usize,
    pub long_span: usize,
    pub episodic_span: usize,
}

impl ContinuumMemConfig {
    /// When the memory is enabled all spans must be positive and
    /// monotonically non-decreasing from the fastest to the slowest bank.
    pub open spec fn valid(self) -> bool {
        self.enabled ==> {
            &&& self.ultra_short_span > 0
            &&& self.short_span >= self.ultra_short_span
            &&& self.mid_span >= self.short_span
            &&& self.long_span >= self.mid_span
            &&& self.episodic_span >= self.long_span
        }
    }

    pub fn validate(&self) -> (r: bool)
        ensures
            r == self.valid(),
    {
        if self.enabled {
            self.ultra_short_span > 0
                && self.short_span >= self.ultra_short_span
                && self.mid_span >= self.short_span
                && self.long_span >= self.mid_span
                && self.episodic_span >= self.long_span
        } else {
            true
        }
    }
}

impl Default for ContinuumMemConfig {
    fn default() -> (r: Self)
        ensures
            r.valid(),
            r.enabled,
            r.ultra_short_span == 2,
            r.short_span == 8,
            r.mid_span == 32,
            r.long_span == 128,
            r.episodic_span == 512,
    {
        ContinuumMemConfig {
            enabled: true,
            ultra_short_span: 2,
            short_span: 8,
            mid_span: 32,
            long_span: 128,
            episodic_span: 512,
        }
    }
}

/// Configuration of the self-modification module.
#[derive(Debug, Clone, Copy, PartialEq, Eq, Structural)]
pub struct SelfModifyConfig {
    pub enabled: bool,
    pub meta_lr: Ratio,
    pub update_frequency: usize,
    pub weight_mod_dim: usize,
}

impl SelfModifyConfig {
    pub open spec fn valid(self) -> bool {
        self.enabled ==> {
            &&& self.meta_lr.is_positive()
            &&& self.update_frequency > 0
            &&& self.weight_mod_dim > 0
        }
    }

    pub fn validate(&self) -> (r: bool)
        ensures
            r == self.valid(),
    {
        if self.enabled {
            self.meta_lr.den > 0 && self.meta_lr.num > 0 && self.update_frequency > 0
                && self.weight_mod_dim > 0
        } else {
            true
        }
    }
}

impl Default for SelfModifyConfig {
    fn default() -> (r: Self)
        ensures
            r.valid(),
            r.enabled,
            r.update_frequency == 8,
            r.weight_mod_dim == 128,
    {
        SelfModifyConfig {
            enabled: true,
            meta_lr: Ratio { num: 1, den: 100000 },
            update_frequency: 8,
            weight_mod_dim: 128,
        }
    }
}

/// Configuration of the dual-rate auxiliary optimizer.
#[derive(Debug, Clone, Copy, PartialEq, Eq, Structural)]
pub struct DeepOptimizerConfig {
    pub enabled: bool,
    pub fast_lr_scale: Ratio,
    pub slow_lr_scale: Ratio,
    pub fast_ema: Ratio,
    pub slow_ema: Ratio,
    pub sync_interval: usize,
    pub gradient_compression_dim: usize,
}

impl DeepOptimizerConfig {
    pub open spec fn valid(self) -> bool {
        self.enabled ==> {
            &&& self.fast_ema.is_fraction()
            &&& self.slow_ema.is_fraction()
            &&& self.sync_interval > 0
            &&& self.fast_lr_scale.is_positive()
            &&& self.slow_lr_scale.is_positive()
            &&& self.gradient_compression_dim > 0
        }
    }

    pub fn validate(&self) -> (r: bool)
        ensures
            r == self.valid(),
    {
        if self.enabled {
            self.fast_ema.den > 0 && self.fast_ema.num <= self.fast_ema.den
                && self.slow_ema.den > 0 && self.slow_ema.num <= self.slow_ema.den
                && self.sync_interval > 0
                && self.fast_lr_scale.den > 0 && self.fast_lr_scale.num > 0
                && self.slow_lr_scale.den > 0 && self.slow_lr_scale.num > 0
                && self.gradient_compression_dim > 0
        } else {
            true
        }
    }
}

impl Default for DeepOptimizerConfig {
    fn default() -> (r: Self)
        ensures
            r.valid(),
            r.enabled,
            r.sync_interval == 64,
            r.gradient_compression_dim == 256,
    {
        DeepOptimizerConfig {
            enabled: true,
            fast_lr_scale: Ratio { num: 1, den: 1 },
            slow_lr_scale: Ratio { num: 1, den: 10 },
            fast_ema: Ratio { num: 9, den: 10 },
            slow_ema: Ratio { num: 99, den: 100 },
            sync_interval: 64,
            gradient_compression_dim: 256,
        }
    }
}

/// Top-level model configuration.
#[derive(Debug, Clone, PartialEq, Eq)]
pub struct HopeConfig {
    pub hidden_size: usize,
    pub vocab_size: usize,
    pub seq_len: usize,
    pub num_heads: usize,
    pub num_layers: usize,
    pub ff_multiplier: Ratio,
    pub dropout: Ratio,
    pub num_levels: usize,
    pub level_timescales: Vec<usize>,
    pub continuum_mem: ContinuumMemConfig,
    pub self_modify: SelfModifyConfig,
    pub deep_optimizer: DeepOptimizerConfig,
}

/// The sum of the first `n` entries of a timescale sequence.
pub open spec fn timescale_sum(ts: Seq<usize>, n: int) -> int
    decreases n,
{
    if n <= 0 {
        0
    } else {
        timescale_sum(ts, n - 1) + ts[n - 1]
    }
}

/// The product of a machine-word value and a 32-bit value stays far below
/// the 128-bit range.
proof fn lemma_ff_product_bound(h: u128, num: u128)
    requires
        h <= u64::MAX,
        num <= u32::MAX,
    ensures
        h * num <= 0xFFFF_FFFF_FFFF_FFFFu128 * 0xFFFF_FFFFu128,
{
    assert(h * num <= 0xFFFF_FFFF_FFFF_FFFFu128 * 0xFFFF_FFFFu128) by (nonlinear_arith)
        requires
            h <= 0xFFFF_FFFF_FFFF_FFFFu128,
            num <= 0xFFFF_FFFFu128,
    ;
}

impl HopeConfig {
    /// The width of the per-level feed-forward network:
    /// `hidden_size * ff_multiplier`, rounded half away from zero.
    pub open spec fn spec_feedforward_dim(self) -> int {
        (2 * (self.hidden_size * self.ff_multiplier.num) + self.ff_multiplier.den)
            / (2 * self.ff_multiplier.den)
    }

    /// Total number of encoder evaluations a single forward call performs.
    pub open spec fn spec_total_timescale(self) -> int {
        timescale_sum(self.level_timescales@, self.level_timescales@.len() as int)
    }

    pub open spec fn valid(self) -> bool {
        &&& self.hidden_size > 0
        &&& self.hidden_size % self.num_heads == 0
        &&& self.vocab_size > 0
        &&& self.seq_len > 0
        &&& self.num_heads > 0
        &&& self.num_layers > 0
        &&& self.num_levels > 0
        &&& self.level_timescales@.len() == self.num_levels
        &&& (forall|i: int| 0 <= i < self.level_timescales@.len() ==> self.level_timescales@[i] > 0)
        &&& self.ff_multiplier.is_positive()
        &&& self.dropout.is_fraction()
        &&& self.continuum_mem.valid()
        &&& self.self_modify.valid()
        &&& self.deep_optimizer.valid()
        // machine limits: the feed-forward width must be computable and
        // representable
        &&& 2 * (self.hidden_size * self.ff_multiplier.num) + self.ff_multiplier.den <= u64::MAX
        &&& self.spec_feedforward_dim() <= usize::MAX
        &&& self.spec_feedforward_dim() >= 1
    }

    pub fn validate(&self) -> (r: bool)
        ensures
            r == self.valid(),
    {
        let structural = self.hidden_size > 0 && self.num_heads > 0
            && self.hidden_size % self.num_heads == 0 && self.vocab_size > 0 && self.seq_len > 0
            && self.num_layers > 0 && self.num_levels > 0
            && self.level_timescales.len() == self.num_levels;
        if !structural {
            return false;
        }
        let mut i: usize = 0;
        while i < self.level_timescales.len()
            invariant
                0 <= i <= self.level_timescales@.len(),
                forall|j: int| 0 <= j < i ==> self.level_timescales@[j] > 0,
            decreases self.level_timescales@.len() - i,
        {
            if self.level_timescales[i] == 0 {
                return false;
            }
            i += 1;
        }
        if !(self.ff_multiplier.den > 0 && self.ff_multiplier.num > 0) {
            return false;
        }
        if !(self.dropout.den > 0 && self.dropout.num <= self.dropout.den) {
            return false;
        }
        if !(self.continuum_mem.validate() && self.self_modify.validate()
            && self.deep_optimizer.validate()) {
            return false;
        }
        // feed-forward width arithmetic must stay in range
        let h = self.hidden_size as u128;
        let num = self.ff_multiplier.num as u128;
        let den = self.ff_multiplier.den as u128;
        proof {
            lemma_ff_product_bound(h, num);
        }
        let hn = h * num;
        let prod = 2 * hn + den;
        if prod > u64::MAX as u128 {
            return false;
        }
        let ff = prod / (2 * den);
        ff <= usize::MAX as u128 && ff >= 1
    }

    pub fn feedforward_dim(&self) -> (r: usize)
        requires
            self.valid(),
        ensures
            r == self.spec_feedforward_dim(),
    {
        let h = self.hidden_size as u128;
        let num = self.ff_multiplier.num as u128;
        let den = self.ff_multiplier.den as u128;
        proof {
            lemma_ff_product_bound(h, num);
        }
        let hn = h * num;
        let ff = (2 * hn + den) / (2 * den);
        ff as usize
    }
}

impl Default for HopeConfig {
    fn default() -> (r: Self)
        ensures
            r.valid(),
            r.hidden_size == 384,
            r.vocab_size == 512,
            r.seq_len == 256,
            r.num_heads == 8,
            r.num_layers == 4,
            r.num_levels == 3,
    {
        let mut level_timescales: Vec<usize> = Vec::new();
        level_timescales.push(1);
        level_timescales.push(4);
        level_timescales.push(16);
        proof {
            assert(level_timescales@ =~= seq![1usize, 4usize, 16usize]);
            assert forall|i: int|
                0 <= i < level_timescales@.len() implies #[trigger] level_timescales@[i] > 0 by {
                if i == 0 {
                    assert(level_timescales@[0] == 1usize);
                } else if i == 1 {
                    assert(level_timescales@[1] == 4usize);
                } else {
                    assert(level_timescales@[2] == 16usize);
                }
            }
        }
        let r = HopeConfig {
            hidden_size: 384,
            vocab_size: 512,
            seq_len: 256,
            num_heads: 8,
            num_layers: 4,
            ff_multiplier: Ratio { num: 4, den: 1 },
            dropout: Ratio { num: 1, den: 10 },
            num_levels: 3,
            level_timescales,
            continuum_mem: ContinuumMemConfig::default(),
            self_modify: SelfModifyConfig::default(),
            deep_optimizer: DeepOptimizerConfig::default(),
        };
        proof {
            let ghost h: int = r.hidden_size as int;
            let ghost fnum: int = r.ff_multiplier.num as int;
            let ghost fden: int = r.ff_multiplier.den as int;
            assert(2 * (h * fnum) + fden == 3073int) by (nonlinear_arith)
                requires
                    h == 384int,
                    fnum == 4int,
                    fden == 1int,
            ;
            assert(r.spec_feedforward_dim() == 3073int / 2int);
            assert(r.valid());
        }
        r
    }
}

/// Driver-side training settings.
#[derive(Debug, Clone, PartialEq, Eq, Structural)]
pub struct TrainingConfig {
    pub batch_size: usize,
    pub num_steps: usize,
    pub learning_rate: Ratio,
    pub log_every: usize,
    pub use_random_data: bool,
}

/// A full training configuration: the model and the driver settings.
#[derive(Debug, Clone, PartialEq, Eq)]
pub struct TrainConfig {
    pub model: HopeConfig,
    pub training: TrainingConfig,
}

impl TrainConfig {
    pub fn batch_size(&self) -> (r: usize)
        ensures
            r == self.training.batch_size,
    {
        self.training.batch_size
    }

    pub fn num_steps(&self) -> (r: usize)
        ensures
            r == self.training.num_steps,
    {
        self.training.num_steps
    }

    pub fn learning_rate(&self) -> (r: Ratio)
        ensures
            r == self.training.learning_rate,
    {
        self.training.learning_rate
    }

    pub fn log_every(&self) -> (r: usize)
        ensures
            r == self.training.log_every,
    {
        self.training.log_every
    }
}

pub fn default_batch_size() -> (r: usize)
    ensures
        r == 4,
{
    4
}

pub fn default_num_steps() -> (r: usize)
    ensures
        r == 1000,
{
    1000
}

pub fn default_learning_rate() -> (r: Ratio)
    ensures
        r == (Ratio { num: 1, den: 10000 }),
{
    Ratio { num: 1, den: 10000 }
}

pub fn default_log_every() -> (r: usize)
    ensures
        r == 10,
{
    10
}

pub fn default_use_random_data() -> (r: bool)
    ensures
        r,
{
    true
}

} // verus!
