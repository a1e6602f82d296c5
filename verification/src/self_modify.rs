//! Self-modification: a meta-network derives an evolving meta-state from
//! hidden activity, and a second network uses it to perturb hidden
//! representations.

use vstd::prelude::*;
use crate::config::SelfModifyConfig;
use crate::layers::{linear_forward2, linear_init, norm_forward2, norm_init, LinearLayer, NormLayer};
use crate::tensor::{
    add2, add2_of, add3, clone3, div_scalar2, div_scalar2_of, div_scalar3, fits2, fits3,
    mul_scalar2, mul_scalar2_of, relu2, repeat3_mid, repeat_blocks, reshape2to3, reshape3to2,
    same_dims3, slice3_row0, sum_mid3, tanh2, unsqueeze2to3, zero_val2, zero_val3, zeros2, zeros3,
    Tensor2, Tensor3,
};

verus! {

/// Fixed blend weights of the evolving meta-state: nine parts previous
/// state, one part fresh update rule, of ten.  These are deliberately not
/// configurable (in particular, `meta_lr` does not enter here).
pub const META_PREV_WEIGHT: u64 = 9;

/// Denominator of the fixed meta-state blend.
pub const META_BLEND_DENOM: u64 = 10;

/// The weight-modification residual is scaled by one tenth, a fixed factor.
pub const WEIGHT_MOD_SCALE_DENOM: u64 = 10;

/// Carried state of the self-modification module.
pub struct SelfModifyState {
    pub meta_state: Tensor2,
    pub update_count: usize,
}

/// The fixed-coefficient blend of the previous meta-state with a fresh
/// update rule: `0.9*prev + 0.1*fresh`, carried out over the common
/// denominator as `(prev*9 + fresh) / 10`.
pub open spec fn meta_blend(prev: Seq<u8>, fresh: Seq<u8>) -> Seq<u8> {
    div_scalar2_of(add2_of(mul_scalar2_of(prev, META_PREV_WEIGHT), fresh), META_BLEND_DENOM)
}

/// The self-modification module: meta-network, weight-modification network,
/// gradient compressor, and final normalization.
pub struct SelfModifyModule {
    cfg: SelfModifyConfig,
    hidden: usize,
    meta_l1: LinearLayer,
    meta_l2: LinearLayer,
    meta_l3: LinearLayer,
    wm_input: LinearLayer,
    wm_hidden: LinearLayer,
    wm_output: LinearLayer,
    grad_compress: LinearLayer,
    grad_decompress: LinearLayer,
    norm: NormLayer,
}

impl SelfModifyModule {
    pub closed spec fn spec_config(self) -> SelfModifyConfig {
        self.cfg
    }

    pub closed spec fn hidden_size(self) -> usize {
        self.hidden
    }

    /// The meta-state width.
    pub open spec fn meta_dim(self) -> usize {
        self.spec_config().weight_mod_dim
    }

    /// Construction-time invariant: the configuration was validated and all
    /// nine layers have the widths of the two-stage architecture.
    pub open spec fn inv(self) -> bool {
        &&& self.spec_config().valid()
        &&& self.hidden_size() >= 1
        &&& self.meta_dim() >= 1
        &&& self.layer_dims_ok()
    }

    pub closed spec fn layer_dims_ok(self) -> bool {
        &&& self.meta_l1.d_in() == self.hidden && self.meta_l1.d_out() == self.cfg.weight_mod_dim
        &&& self.meta_l2.d_in() == self.cfg.weight_mod_dim && self.meta_l2.d_out()
            == self.cfg.weight_mod_dim
        &&& self.meta_l3.d_in() == self.cfg.weight_mod_dim && self.meta_l3.d_out()
            == self.cfg.weight_mod_dim
        &&& self.wm_input.d_in() == self.hidden && self.wm_input.d_out()
            == self.cfg.weight_mod_dim
        &&& self.wm_hidden.d_in() == self.cfg.weight_mod_dim && self.wm_hidden.d_out()
            == self.cfg.weight_mod_dim
        &&& self.wm_output.d_in() == self.cfg.weight_mod_dim && self.wm_output.d_out()
            == self.hidden
        &&& self.grad_compress.d_in() == self.hidden && self.grad_compress.d_out()
            == self.cfg.weight_mod_dim
        &&& self.grad_decompress.d_in() == self.cfg.weight_mod_dim && self.grad_decompress.d_out()
            == self.hidden
        &&& self.norm.d_model() == self.hidden
    }

    pub fn new(config: SelfModifyConfig, hidden_size: usize) -> (r: SelfModifyModule)
        requires
            config.valid(),
            config.weight_mod_dim >= 1,
            hidden_size >= 1,
        ensures
            r.inv(),
            r.spec_config() == config,
            r.hidden_size() == hidden_size,
    {
        let meta_dim = config.weight_mod_dim;
        SelfModifyModule {
            cfg: config,
            hidden: hidden_size,
            meta_l1: linear_init(hidden_size, meta_dim),
            meta_l2: linear_init(meta_dim, meta_dim),
            meta_l3: linear_init(meta_dim, meta_dim),
            wm_input: linear_init(hidden_size, meta_dim),
            wm_hidden: linear_init(meta_dim, meta_dim),
            wm_output: linear_init(meta_dim, hidden_size),
            grad_compress: linear_init(hidden_size, meta_dim),
            grad_decompress: linear_init(meta_dim, hidden_size),
            norm: norm_init(hidden_size),
        }
    }

    pub fn config(&self) -> (r: &SelfModifyConfig)
        ensures
            *r == self.spec_config(),
    {
        &self.cfg
    }

    /// A fresh carried state: a zero meta-state and a zero update count.
    pub fn init_state(&self, batch: usize, _hidden_size: usize) -> (r: SelfModifyState)
        requires
            fits2(batch, self.meta_dim()),
        ensures
            r.meta_state.d0() == batch,
            r.meta_state.d1() == self.meta_dim(),
            r.meta_state.val() == zero_val2(batch, self.meta_dim()),
            r.update_count == 0,
    {
        SelfModifyState { meta_state: zeros2(batch, self.cfg.weight_mod_dim), update_count: 0 }
    }

    /// Derive the next meta-state from the representation at sequence
    /// position zero, through the three-layer meta-network, blended with
    /// the previous meta-state by the fixed coefficients.  Disabled, an
    /// all-zero meta-state of the configured width.
    pub fn compute_update_rule(&self, hidden: &Tensor3, state: &SelfModifyState) -> (r: Tensor2)
        requires
            self.inv(),
            fits2(hidden.d0(), self.meta_dim()),
            self.spec_config().enabled ==> {
                &&& hidden.d0() >= 1
                &&& hidden.d1() >= 1
                &&& hidden.d2() == self.hidden_size()
                &&& state.meta_state.d0() == hidden.d0()
                &&& state.meta_state.d1() == self.meta_dim()
            },
        ensures
            r.d0() == hidden.d0(),
            r.d1() == self.meta_dim(),
            !self.spec_config().enabled ==> r.val() == zero_val2(hidden.d0(), self.meta_dim()),
            // enabled, the result is the fixed blend of the previous
            // meta-state with some fresh update rule
            self.spec_config().enabled ==> exists|rule: Seq<u8>|
                r.val() == #[trigger] meta_blend(state.meta_state.val(), rule),
    {
        if !self.cfg.enabled {
            let batch = hidden.shape().0;
            return zeros2(batch, self.cfg.weight_mod_dim);
        }
        let (b, _s, h) = hidden.shape();
        // representation at sequence position zero only
        let first = slice3_row0(hidden);
        proof {
            lemma_mul_one_mid(b as nat, h as nat);
        }
        let meta_input = reshape3to2(&first, b, h);
        // three-layer meta-network
        let x = linear_forward2(&self.meta_l1, &meta_input);
        let x = relu2(&x);
        let x = linear_forward2(&self.meta_l2, &x);
        let x = relu2(&x);
        let x = linear_forward2(&self.meta_l3, &x);
        let update_rule = tanh2(&x);
        // fixed-coefficient blend with the previous meta-state
        let kept = mul_scalar2(&state.meta_state, META_PREV_WEIGHT);
        let summed = add2(&kept, &update_rule);
        let blended = div_scalar2(&summed, META_BLEND_DENOM);
        proof {
            assert(blended.val() == meta_blend(state.meta_state.val(), update_rule.val()));
        }
        blended
    }

    /// Perturb hidden representations: project, modulate with the
    /// broadcast meta-state, project back, scale by the fixed tenth, add as
    /// a residual and normalize.  Disabled, the hidden value comes back
    /// unchanged.
    pub fn apply_weight_modification(&self, hidden: &Tensor3, meta_state: &Tensor2) -> (r: Tensor3)
        requires
            self.inv(),
            self.spec_config().enabled ==> {
                &&& hidden.d1() >= 1
                &&& hidden.d2() == self.hidden_size()
                &&& meta_state.d0() == hidden.d0()
                &&& meta_state.d1() == self.meta_dim()
                &&& (hidden.d0() as nat) * (hidden.d1() as nat) <= usize::MAX
                &&& fits3(hidden.d0(), hidden.d1(), self.meta_dim())
            },
        ensures
            same_dims3(r, *hidden),
            !self.spec_config().enabled ==> r.val() == hidden.val(),
    {
        if !self.cfg.enabled {
            return clone3(hidden);
        }
        let (b, s, h) = hidden.shape();
        proof {
            lemma_mul_assoc3(b as nat, s as nat, h as nat, self.meta_dim() as nat);
        }
        // first projection of the flattened hidden states
        let flat = reshape3to2(hidden, b * s, h);
        let x = linear_forward2(&self.wm_input, &flat);
        let x = relu2(&x);
        // broadcast the meta-state across the sequence axis
        let meta3 = unsqueeze2to3(meta_state);
        let meta_rep = repeat3_mid(&meta3, s);
        let meta_flat = reshape3to2(&meta_rep, b * s, self.cfg.weight_mod_dim);
        let x = add2(&x, &meta_flat);
        // second stage, back to the hidden width
        let x = linear_forward2(&self.wm_hidden, &x);
        let x = relu2(&x);
        let weight_mod = linear_forward2(&self.wm_output, &x);
        let weight_mod3 = reshape2to3(&weight_mod, b, s, h);
        // small fixed scale, residual connection, normalization
        let scaled = div_scalar3(&weight_mod3, WEIGHT_MOD_SCALE_DENOM);
        let modified = add3(hidden, &scaled);
        let mod_flat = reshape3to2(&modified, b * s, h);
        let normed = norm_forward2(&self.norm, &mod_flat);
        reshape2to3(&normed, b, s, h)
    }

    /// Average a gradient over the sequence axis and compress it to the
    /// meta width.  Disabled, an all-zero compressed gradient.
    pub fn compress_gradients(&self, gradients: &Tensor3) -> (r: Tensor2)
        requires
            self.inv(),
            fits2(gradients.d0(), self.meta_dim()),
            self.spec_config().enabled ==> {
                &&& gradients.d1() >= 1
                &&& gradients.d2() == self.hidden_size()
            },
        ensures
            r.d0() == gradients.d0(),
            r.d1() == self.meta_dim(),
            !self.spec_config().enabled ==> r.val() == zero_val2(
                gradients.d0(),
                self.meta_dim(),
            ),
    {
        if !self.cfg.enabled {
            let batch = gradients.shape().0;
            return zeros2(batch, self.cfg.weight_mod_dim);
        }
        let (b, s, h) = gradients.shape();
        let summed = sum_mid3(gradients);
        let averaged = div_scalar3(&summed, s as u64);
        proof {
            lemma_mul_one_mid(b as nat, h as nat);
        }
        let flat = reshape3to2(&averaged, b, h);
        let compressed = linear_forward2(&self.grad_compress, &flat);
        tanh2(&compressed)
    }

    /// Expand a compressed gradient back to a full `[d0, d1, d2]` array by
    /// decompression and broadcast over the sequence axis.  Disabled, an
    /// all-zero array of the target shape.
    pub fn decompress_gradients(
        &self,
        compressed: &Tensor2,
        target_shape: (usize, usize, usize),
    ) -> (r: Tensor3)
        requires
            self.inv(),
            fits3(target_shape.0, target_shape.1, target_shape.2),
            self.spec_config().enabled ==> {
                &&& compressed.d0() == target_shape.0
                &&& compressed.d1() == self.meta_dim()
                &&& target_shape.1 >= 1
                &&& target_shape.2 == self.hidden_size()
            },
        ensures
            r.d0() == target_shape.0 && r.d1() == target_shape.1 && r.d2() == target_shape.2,
            !self.spec_config().enabled ==> r.val() == zero_val3(
                target_shape.0,
                target_shape.1,
                target_shape.2,
            ),
            // the decompressed vector of each batch entry is repeated at
            // every sequence position
            self.spec_config().enabled ==> exists|row: Seq<u8>|
                r.val() == #[trigger] repeat_blocks(
                    row,
                    (target_shape.2 as nat) * 4,
                    target_shape.1 as nat,
                ),
    {
        let (t0, t1, t2) = target_shape;
        if !self.cfg.enabled {
            return zeros3(t0, t1, t2);
        }
        let decompressed = linear_forward2(&self.grad_decompress, compressed);
        let dec3 = unsqueeze2to3(&decompressed);
        let r = repeat3_mid(&dec3, t1);
        proof {
            assert(r.val() == repeat_blocks(
                decompressed.val(),
                (target_shape.2 as nat) * 4,
                target_shape.1 as nat,
            ));
        }
        r
    }

    /// An update is due exactly at the multiples of `update_frequency`.
    pub fn should_update(&self, state: &SelfModifyState) -> (r: bool)
        requires
            self.inv(),
        ensures
            r == (self.spec_config().enabled && state.update_count
                % self.spec_config().update_frequency == 0),
    {
        self.cfg.enabled && state.update_count % self.cfg.update_frequency == 0
    }
}

/// Multiplying through a middle factor of one changes nothing.
proof fn lemma_mul_one_mid(a: nat, b: nat)
    ensures
        a * b == a * 1 * b,
{
    assert(a * b == a * 1 * b) by (nonlinear_arith);
}

/// The associativity facts the flatten-and-restore reshapes need.
proof fn lemma_mul_assoc3(b: nat, s: nat, h: nat, m: nat)
    ensures
        (b * s) * h == b * s * h,
        (b * s) * m == b * s * m,
{
}

} // verus!
