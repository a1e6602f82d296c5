//! Trusted handles on the engine's learned modules.
//!
//! A module owns randomly initialized parameters, so nothing can be said of
//! the numeric value its forward pass produces; the contracts state what
//! holds of every outcome: the output shape, as the engine's documentation
//! gives it.

use vstd::prelude::*;
use burn::backend::Autodiff;
use burn::nn::{
    Embedding, EmbeddingConfig, LayerNorm, LayerNormConfig, Linear, LinearConfig,
};
use burn::nn::transformer::{
    TransformerEncoder, TransformerEncoderConfig, TransformerEncoderInput,
};
use burn::tensor::cast::ToElement;
use burn_ndarray::{NdArray, NdArrayDevice};

use crate::tensor::{FloatPayload2, FloatPayload3, Tensor2, Tensor3, TokenTensor};

verus! {

/// Opaque handle on an affine (linear) module of the engine.
#[verifier::external_body]
pub struct LinearPayload {
    pub(crate) m: Linear<Autodiff<NdArray>>,
}

/// Opaque handle on a layer-normalization module of the engine.
#[verifier::external_body]
pub struct NormPayload {
    pub(crate) m: LayerNorm<Autodiff<NdArray>>,
}

/// Opaque handle on an embedding table of the engine.
#[verifier::external_body]
pub struct EmbeddingPayload {
    pub(crate) m: Embedding<Autodiff<NdArray>>,
}

/// Opaque handle on a multi-head self-attention encoder stack of the engine.
#[verifier::external_body]
pub struct EncoderPayload {
    pub(crate) m: TransformerEncoder<Autodiff<NdArray>>,
}

/// An affine layer mapping `d_in` features to `d_out` features.
pub struct LinearLayer {
    pub(crate) p: LinearPayload,
    pub(crate) din: usize,
    pub(crate) dout: usize,
}

impl LinearLayer {
    pub closed spec fn d_in(self) -> usize { self.din }

    pub closed spec fn d_out(self) -> usize { self.dout }

    pub fn input_dim(&self) -> (r: usize)
        ensures
            r == self.d_in(),
    {
        self.din
    }

    pub fn output_dim(&self) -> (r: usize)
        ensures
            r == self.d_out(),
    {
        self.dout
    }
}

/// A layer normalization over `dim` features.
pub struct NormLayer {
    pub(crate) p: NormPayload,
    pub(crate) dim: usize,
}

impl NormLayer {
    pub closed spec fn d_model(self) -> usize { self.dim }
}

/// An embedding table of `n_vocab` rows, each `d_model` wide.
pub struct EmbeddingLayer {
    pub(crate) p: EmbeddingPayload,
    pub(crate) nvocab: usize,
    pub(crate) dmodel: usize,
}

impl EmbeddingLayer {
    pub closed spec fn n_vocab(self) -> usize { self.nvocab }

    pub closed spec fn d_model(self) -> usize { self.dmodel }
}

/// A pre-normalized transformer encoder stack over `d_model` features.
pub struct EncoderStack {
    pub(crate) p: EncoderPayload,
    pub(crate) dmodel: usize,
}

impl EncoderStack {
    pub closed spec fn d_model(self) -> usize { self.dmodel }
}

/// Relies on the engine's `LinearConfig::init`: a freshly initialized
/// affine layer with the given feature widths.
#[verifier::external_body]
pub(crate) fn linear_init(d_in: usize, d_out: usize) -> (r: LinearLayer)
    requires
        d_in >= 1,
        d_out >= 1,
    ensures
        r.d_in() == d_in && r.d_out() == d_out,
{
    let dev = NdArrayDevice::Cpu;
    LinearLayer { p: LinearPayload { m: LinearConfig::new(d_in, d_out).init(&dev) }, din: d_in, dout: d_out }
}

/// Relies on the engine's `Linear::forward`: the affine map is applied to
/// the last axis, `[n, d_in] -> [n, d_out]`.  The numeric result depends on
/// the layer's randomly initialized parameters and is not modelled.
#[verifier::external_body]
pub(crate) fn linear_forward2(l: &LinearLayer, x: &Tensor2) -> (r: Tensor2)
    requires
        x.d1() == l.d_in(),
    ensures
        r.d0() == x.d0() && r.d1() == l.d_out(),
{
    Tensor2 { data: FloatPayload2 { t: l.p.m.forward(x.data.t.clone()) }, n0: x.n0, n1: l.dout }
}

/// Relies on the engine's `LayerNormConfig::init`.
#[verifier::external_body]
pub(crate) fn norm_init(dim: usize) -> (r: NormLayer)
    requires
        dim >= 1,
    ensures
        r.d_model() == dim,
{
    let dev = NdArrayDevice::Cpu;
    NormLayer { p: NormPayload { m: LayerNormConfig::new(dim).init(&dev) }, dim }
}

/// Relies on the engine's `LayerNorm::forward`: normalizes the last axis,
/// keeping the shape.  The numeric result is not modelled.
#[verifier::external_body]
pub(crate) fn norm_forward2(n: &NormLayer, x: &Tensor2) -> (r: Tensor2)
    requires
        x.d1() == n.d_model(),
    ensures
        r.d0() == x.d0() && r.d1() == x.d1(),
{
    Tensor2 { data: FloatPayload2 { t: n.p.m.forward(x.data.t.clone()) }, n0: x.n0, n1: x.n1 }
}

/// Relies on the engine's `EmbeddingConfig::init`: a freshly initialized
/// table with `n_vocab` rows of `d_model` features.
#[verifier::external_body]
pub(crate) fn embedding_init(n_vocab: usize, d_model: usize) -> (r: EmbeddingLayer)
    requires
        n_vocab >= 1,
        d_model >= 1,
    ensures
        r.n_vocab() == n_vocab && r.d_model() == d_model,
{
    let dev = NdArrayDevice::Cpu;
    EmbeddingLayer {
        p: EmbeddingPayload { m: EmbeddingConfig::new(n_vocab, d_model).init(&dev) },
        nvocab: n_vocab,
        dmodel: d_model,
    }
}

/// Relies on the engine's `Embedding::forward`: row lookup,
/// `[batch, seq] -> [batch, seq, d_model]`.  Every id must index into the
/// table.  The numeric result depends on the randomly initialized table and
/// is not modelled.
#[verifier::external_body]
pub(crate) fn embedding_forward(e: &EmbeddingLayer, toks: &TokenTensor) -> (r: Tensor3)
    requires
        forall|i: int| 0 <= i < toks.val().len() ==> 0 <= #[trigger] toks.val()[i] < e.n_vocab(),
    ensures
        r.d0() == toks.d0() && r.d1() == toks.d1() && r.d2() == e.d_model(),
{
    Tensor3 {
        data: FloatPayload3 { t: e.p.m.forward(toks.data.t.clone()) },
        n0: toks.n0,
        n1: toks.n1,
        n2: e.dmodel,
    }
}

/// Relies on the engine's `TransformerEncoderConfig::init`: a pre-normalized
/// encoder stack of `n_layers` layers of `n_heads` heads over `d_model`
/// features, with the dropout probability `drop_num / drop_den`.
#[verifier::external_body]
pub(crate) fn encoder_init(
    d_model: usize,
    d_ff: usize,
    n_heads: usize,
    n_layers: usize,
    drop_num: u32,
    drop_den: u32,
) -> (r: EncoderStack)
    requires
        d_model >= 1,
        d_ff >= 1,
        n_heads >= 1,
        n_layers >= 1,
        d_model % n_heads == 0,
        drop_den >= 1,
        drop_num <= drop_den,
    ensures
        r.d_model() == d_model,
{
    let dev = NdArrayDevice::Cpu;
    let m = TransformerEncoderConfig::new(d_model, d_ff, n_heads, n_layers)
        .with_dropout(drop_num.to_f64() / drop_den.to_f64())
        .with_norm_first(true)
        .init(&dev);
    EncoderStack { p: EncoderPayload { m }, dmodel: d_model }
}

/// Relies on the engine's `TransformerEncoder::forward`: the stack keeps
/// the input shape `[batch, seq, d_model]`.  The numeric result depends on
/// the stack's randomly initialized parameters (and, while training, on its
/// dropout draws) and is not modelled.
#[verifier::external_body]
pub(crate) fn encoder_forward(e: &EncoderStack, x: &Tensor3) -> (r: Tensor3)
    requires
        x.d2() == e.d_model(),
    ensures
        r.d0() == x.d0() && r.d1() == x.d1() && r.d2() == x.d2(),
{
    Tensor3 {
        data: FloatPayload3 { t: e.p.m.forward(TransformerEncoderInput::new(x.data.t.clone())) },
        n0: x.n0,
        n1: x.n1,
        n2: x.n2,
    }
}

} // verus!
