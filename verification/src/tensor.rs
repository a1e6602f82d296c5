//! Thin verified facade over the tensor engine.
//!
//! The model's logic never inspects the numeric contents of an array: it
//! only threads arrays between engine operations and tracks their shapes.
//! Accordingly each array is held opaquely, its shape is carried beside it
//! as plain fields, and its contents are modelled as the byte image of its
//! elements in row-major order (`val`).  Deterministic engine operations
//! (elementwise arithmetic, pure data movement) are given exact or named
//! contracts; operations whose bit-level outcome may differ between
//! machines (matrix products, softmax, module forwards) are specified by
//! shape alone.

use vstd::prelude::*;
use burn::tensor::{Int, Tensor, TensorData, activation};
use burn::backend::Autodiff;
use burn_ndarray::{NdArray, NdArrayDevice};

verus! {

/// Opaque handle on a rank-3 floating array of the tensor engine.
#[verifier::external_body]
pub struct FloatPayload3 {
    pub(crate) t: Tensor<Autodiff<NdArray>, 3>,
}

/// Opaque handle on a rank-2 floating array of the tensor engine.
#[verifier::external_body]
pub struct FloatPayload2 {
    pub(crate) t: Tensor<Autodiff<NdArray>, 2>,
}

/// Opaque handle on a rank-2 integer array of the tensor engine.
#[verifier::external_body]
pub struct IntPayload2 {
    pub(crate) t: Tensor<Autodiff<NdArray>, 2, Int>,
}

/// The byte image, in row-major element order, of a rank-3 floating array.
pub uninterp spec fn float3_bytes(p: FloatPayload3) -> Seq<u8>;

/// The byte image, in row-major element order, of a rank-2 floating array.
pub uninterp spec fn float2_bytes(p: FloatPayload2) -> Seq<u8>;

/// The elements, in row-major order, of a rank-2 integer array.
pub uninterp spec fn int2_vals(p: IntPayload2) -> Seq<i64>;

/// A rank-3 array `[d0, d1, d2]` together with its tracked shape.
pub struct Tensor3 {
    pub(crate) data: FloatPayload3,
    pub(crate) n0: usize,
    pub(crate) n1: usize,
    pub(crate) n2: usize,
}

/// A rank-2 array `[d0, d1]` together with its tracked shape.
pub struct Tensor2 {
    pub(crate) data: FloatPayload2,
    pub(crate) n0: usize,
    pub(crate) n1: usize,
}

/// A rank-2 integer array `[d0, d1]` of token ids.
pub struct TokenTensor {
    pub(crate) data: IntPayload2,
    pub(crate) n0: usize,
    pub(crate) n1: usize,
}

impl Tensor3 {
    pub closed spec fn d0(self) -> usize { self.n0 }

    pub closed spec fn d1(self) -> usize { self.n1 }

    pub closed spec fn d2(self) -> usize { self.n2 }

    pub closed spec fn val(self) -> Seq<u8> {
        float3_bytes(self.data)
    }

    pub fn shape(&self) -> (r: (usize, usize, usize))
        ensures
            r == (self.d0(), self.d1(), self.d2()),
    {
        (self.n0, self.n1, self.n2)
    }
}

impl Tensor2 {
    pub closed spec fn d0(self) -> usize { self.n0 }

    pub closed spec fn d1(self) -> usize { self.n1 }

    pub closed spec fn val(self) -> Seq<u8> {
        float2_bytes(self.data)
    }

    pub fn shape(&self) -> (r: (usize, usize))
        ensures
            r == (self.d0(), self.d1()),
    {
        (self.n0, self.n1)
    }
}

impl TokenTensor {
    pub closed spec fn d0(self) -> usize { self.n0 }

    pub closed spec fn d1(self) -> usize { self.n1 }

    pub closed spec fn val(self) -> Seq<i64> {
        int2_vals(self.data)
    }

    pub fn shape(&self) -> (r: (usize, usize))
        ensures
            r == (self.d0(), self.d1()),
    {
        (self.n0, self.n1)
    }
}

/// The element count of a rank-3 shape stays within the address space.
pub open spec fn fits3(d0: usize, d1: usize, d2: usize) -> bool {
    d0 * d1 * d2 * 4 <= usize::MAX
}

/// The element count of a rank-2 shape stays within the address space.
pub open spec fn fits2(d0: usize, d1: usize) -> bool {
    d0 * d1 * 4 <= usize::MAX
}

/// The byte image of an all-zero rank-3 array: the zero element is encoded
/// as four zero bytes.
pub open spec fn zero_val3(d0: usize, d1: usize, d2: usize) -> Seq<u8> {
    Seq::new(((d0 as nat) * (d1 as nat) * (d2 as nat) * 4) as nat, |i: int| 0u8)
}

/// The byte image of an all-zero rank-2 array.
pub open spec fn zero_val2(d0: usize, d1: usize) -> Seq<u8> {
    Seq::new(((d0 as nat) * (d1 as nat) * 4) as nat, |i: int| 0u8)
}

// ---------------------------------------------------------------------------
// Names for the results of deterministic elementwise engine operations.
// Each is applied by exactly one trusted wrapper below.
// ---------------------------------------------------------------------------

/// Elementwise sum of two same-shaped rank-3 arrays.
pub uninterp spec fn add3_of(a: Seq<u8>, b: Seq<u8>) -> Seq<u8>;

/// Elementwise difference of two same-shaped rank-3 arrays.
pub uninterp spec fn sub3_of(a: Seq<u8>, b: Seq<u8>) -> Seq<u8>;

/// Elementwise product of a rank-3 array with the scalar `k`.
pub uninterp spec fn mul_scalar3_of(a: Seq<u8>, k: u64) -> Seq<u8>;

/// Elementwise quotient of a rank-3 array by the scalar `k`.
pub uninterp spec fn div_scalar3_of(a: Seq<u8>, k: u64) -> Seq<u8>;

/// Elementwise sum of two same-shaped rank-2 arrays.
pub uninterp spec fn add2_of(a: Seq<u8>, b: Seq<u8>) -> Seq<u8>;

/// Elementwise product of a rank-2 array with the scalar `k`.
pub uninterp spec fn mul_scalar2_of(a: Seq<u8>, k: u64) -> Seq<u8>;

/// Elementwise quotient of a rank-2 array by the scalar `k`.
pub uninterp spec fn div_scalar2_of(a: Seq<u8>, k: u64) -> Seq<u8>;

// ---------------------------------------------------------------------------
// Trusted wrappers: creation, observation, elementwise arithmetic.
// ---------------------------------------------------------------------------

/// Relies on the engine's `Tensor::zeros`: an array of the given shape with
/// every element zero; the zero element is encoded as four zero bytes.
#[verifier::external_body]
pub(crate) fn zeros3(d0: usize, d1: usize, d2: usize) -> (r: Tensor3)
    requires
        fits3(d0, d1, d2),
    ensures
        r.d0() == d0 && r.d1() == d1 && r.d2() == d2,
        r.val() == zero_val3(d0, d1, d2),
{
    let dev = NdArrayDevice::Cpu;
    Tensor3 { data: FloatPayload3 { t: Tensor::zeros([d0, d1, d2], &dev) }, n0: d0, n1: d1, n2: d2 }
}

/// Relies on the engine's `Tensor::zeros`, as `zeros3`, at rank 2.
#[verifier::external_body]
pub(crate) fn zeros2(d0: usize, d1: usize) -> (r: Tensor2)
    requires
        fits2(d0, d1),
    ensures
        r.d0() == d0 && r.d1() == d1,
        r.val() == zero_val2(d0, d1),
{
    let dev = NdArrayDevice::Cpu;
    Tensor2 { data: FloatPayload2 { t: Tensor::zeros([d0, d1], &dev) }, n0: d0, n1: d1 }
}

/// Relies on the engine's `Tensor::clone`: the clone shares the same
/// contents and shape.
#[verifier::external_body]
pub(crate) fn clone3(t: &Tensor3) -> (r: Tensor3)
    ensures
        r.d0() == t.d0() && r.d1() == t.d1() && r.d2() == t.d2(),
        r.val() == t.val(),
{
    Tensor3 { data: FloatPayload3 { t: t.data.t.clone() }, n0: t.n0, n1: t.n1, n2: t.n2 }
}

/// Relies on the engine's `Tensor::into_data` and `TensorData::as_bytes`:
/// the byte image of the elements in row-major order.
#[verifier::external_body]
fn tensor3_bytes_raw(t: &Tensor3) -> (r: Vec<u8>)
    ensures
        r@ == float3_bytes(t.data),
{
    t.data.t.clone().into_data().as_bytes().to_vec()
}

/// Relies on the engine's `Tensor::into_data` and `TensorData::as_bytes`,
/// as `tensor3_bytes_raw`, at rank 2.
#[verifier::external_body]
fn tensor2_bytes_raw(t: &Tensor2) -> (r: Vec<u8>)
    ensures
        r@ == float2_bytes(t.data),
{
    t.data.t.clone().into_data().as_bytes().to_vec()
}

/// The byte image of a rank-3 array's contents, for callers and tests.
pub fn bytes3(t: &Tensor3) -> (r: Vec<u8>)
    ensures
        r@ == t.val(),
{
    tensor3_bytes_raw(t)
}

/// The byte image of a rank-2 array's contents, for callers and tests.
pub fn bytes2(t: &Tensor2) -> (r: Vec<u8>)
    ensures
        r@ == t.val(),
{
    tensor2_bytes_raw(t)
}

/// Relies on the engine's elementwise `+` on same-shaped rank-3 arrays.
#[verifier::external_body]
pub(crate) fn add3(a: &Tensor3, b: &Tensor3) -> (r: Tensor3)
    requires
        a.d0() == b.d0() && a.d1() == b.d1() && a.d2() == b.d2(),
    ensures
        r.d0() == a.d0() && r.d1() == a.d1() && r.d2() == a.d2(),
        r.val() == add3_of(a.val(), b.val()),
{
    Tensor3 {
        data: FloatPayload3 { t: a.data.t.clone() + b.data.t.clone() },
        n0: a.n0,
        n1: a.n1,
        n2: a.n2,
    }
}

/// Relies on the engine's elementwise `-` on same-shaped rank-3 arrays.
#[verifier::external_body]
pub(crate) fn sub3(a: &Tensor3, b: &Tensor3) -> (r: Tensor3)
    requires
        a.d0() == b.d0() && a.d1() == b.d1() && a.d2() == b.d2(),
    ensures
        r.d0() == a.d0() && r.d1() == a.d1() && r.d2() == a.d2(),
        r.val() == sub3_of(a.val(), b.val()),
{
    Tensor3 {
        data: FloatPayload3 { t: a.data.t.clone() - b.data.t.clone() },
        n0: a.n0,
        n1: a.n1,
        n2: a.n2,
    }
}

/// Relies on the engine's `Tensor::mul_scalar`; the integer scalar is
/// converted to the element type by the engine.
#[verifier::external_body]
pub(crate) fn mul_scalar3(a: &Tensor3, k: u64) -> (r: Tensor3)
    ensures
        r.d0() == a.d0() && r.d1() == a.d1() && r.d2() == a.d2(),
        r.val() == mul_scalar3_of(a.val(), k),
{
    Tensor3 {
        data: FloatPayload3 { t: a.data.t.clone().mul_scalar(k) },
        n0: a.n0,
        n1: a.n1,
        n2: a.n2,
    }
}

/// Relies on the engine's `Tensor::div_scalar`; the integer scalar is
/// converted to the element type by the engine.
#[verifier::external_body]
pub(crate) fn div_scalar3(a: &Tensor3, k: u64) -> (r: Tensor3)
    ensures
        r.d0() == a.d0() && r.d1() == a.d1() && r.d2() == a.d2(),
        r.val() == div_scalar3_of(a.val(), k),
{
    Tensor3 {
        data: FloatPayload3 { t: a.data.t.clone().div_scalar(k) },
        n0: a.n0,
        n1: a.n1,
        n2: a.n2,
    }
}

/// Relies on the engine's elementwise `+` on same-shaped rank-2 arrays.
#[verifier::external_body]
pub(crate) fn add2(a: &Tensor2, b: &Tensor2) -> (r: Tensor2)
    requires
        a.d0() == b.d0() && a.d1() == b.d1(),
    ensures
        r.d0() == a.d0() && r.d1() == a.d1(),
        r.val() == add2_of(a.val(), b.val()),
{
    Tensor2 { data: FloatPayload2 { t: a.data.t.clone() + b.data.t.clone() }, n0: a.n0, n1: a.n1 }
}

/// Relies on the engine's `Tensor::mul_scalar` at rank 2.
#[verifier::external_body]
pub(crate) fn mul_scalar2(a: &Tensor2, k: u64) -> (r: Tensor2)
    ensures
        r.d0() == a.d0() && r.d1() == a.d1(),
        r.val() == mul_scalar2_of(a.val(), k),
{
    Tensor2 { data: FloatPayload2 { t: a.data.t.clone().mul_scalar(k) }, n0: a.n0, n1: a.n1 }
}

/// Relies on the engine's `Tensor::div_scalar` at rank 2.
#[verifier::external_body]
pub(crate) fn div_scalar2(a: &Tensor2, k: u64) -> (r: Tensor2)
    ensures
        r.d0() == a.d0() && r.d1() == a.d1(),
        r.val() == div_scalar2_of(a.val(), k),
{
    Tensor2 { data: FloatPayload2 { t: a.data.t.clone().div_scalar(k) }, n0: a.n0, n1: a.n1 }
}

// ---------------------------------------------------------------------------
// Integer token arrays: fully specified construction and observation.
// ---------------------------------------------------------------------------

/// Relies on the engine's `TensorData::new` and `Tensor::from_data`: the
/// array holds exactly the given elements in row-major order.
#[verifier::external_body]
pub(crate) fn token_tensor_from(v: &Vec<i64>, rows: usize, cols: usize) -> (r: TokenTensor)
    requires
        v@.len() == rows * cols,
    ensures
        r.d0() == rows && r.d1() == cols,
        r.val() == v@,
{
    let dev = NdArrayDevice::Cpu;
    let data = TensorData::new(v.clone(), [rows, cols]);
    TokenTensor { data: IntPayload2 { t: Tensor::from_data(data, &dev) }, n0: rows, n1: cols }
}

/// Relies on the engine's `Tensor::into_data` and `TensorData::to_vec`:
/// the elements in row-major order.
#[verifier::external_body]
fn token_values_raw(t: &TokenTensor) -> (r: Vec<i64>)
    ensures
        r@ == int2_vals(t.data),
{
    t.data.t.clone().into_data().to_vec::<i64>().expect("token elements")
}

/// The elements of a token array, for callers and tests.
pub fn token_values(t: &TokenTensor) -> (r: Vec<i64>)
    ensures
        r@ == t.val(),
{
    token_values_raw(t)
}

/// Relies on the engine's `Tensor::from_data` over a raw `TensorData`:
/// an array holding exactly the given element bytes in row-major order.
/// Every dimension must be positive: an empty byte buffer fails the
/// engine's cast alignment check.
#[verifier::external_body]
fn tensor3_from_bytes_raw(b: &Vec<u8>, d0: usize, d1: usize, d2: usize) -> (r: Tensor3)
    requires
        d0 >= 1,
        d1 >= 1,
        d2 >= 1,
        b@.len() == (d0 as nat) * (d1 as nat) * (d2 as nat) * 4,
    ensures
        r.d0() == d0 && r.d1() == d1 && r.d2() == d2,
        r.val() == b@,
{
    let dev = NdArrayDevice::Cpu;
    let data = TensorData {
        bytes: b.clone(),
        shape: vec![d0, d1, d2],
        dtype: burn::tensor::DType::F32,
    };
    Tensor3 { data: FloatPayload3 { t: Tensor::from_data(data, &dev) }, n0: d0, n1: d1, n2: d2 }
}

/// Relies on the engine's `Tensor::from_data`, as `tensor3_from_bytes_raw`,
/// at rank 2.
#[verifier::external_body]
fn tensor2_from_bytes_raw(b: &Vec<u8>, d0: usize, d1: usize) -> (r: Tensor2)
    requires
        d0 >= 1,
        d1 >= 1,
        b@.len() == (d0 as nat) * (d1 as nat) * 4,
    ensures
        r.d0() == d0 && r.d1() == d1,
        r.val() == b@,
{
    let dev = NdArrayDevice::Cpu;
    let data = TensorData { bytes: b.clone(), shape: vec![d0, d1], dtype: burn::tensor::DType::F32 };
    Tensor2 { data: FloatPayload2 { t: Tensor::from_data(data, &dev) }, n0: d0, n1: d1 }
}

/// A rank-3 array built from the byte image of its elements.
pub fn tensor3_from_bytes(b: &Vec<u8>, d0: usize, d1: usize, d2: usize) -> (r: Tensor3)
    requires
        d0 >= 1,
        d1 >= 1,
        d2 >= 1,
        b@.len() == (d0 as nat) * (d1 as nat) * (d2 as nat) * 4,
    ensures
        r.d0() == d0 && r.d1() == d1 && r.d2() == d2,
        r.val() == b@,
{
    tensor3_from_bytes_raw(b, d0, d1, d2)
}

/// A rank-2 array built from the byte image of its elements.
pub fn tensor2_from_bytes(b: &Vec<u8>, d0: usize, d1: usize) -> (r: Tensor2)
    requires
        d0 >= 1,
        d1 >= 1,
        b@.len() == (d0 as nat) * (d1 as nat) * 4,
    ensures
        r.d0() == d0 && r.d1() == d1,
        r.val() == b@,
{
    tensor2_from_bytes_raw(b, d0, d1)
}

/// A public all-zero rank-3 array.
pub fn tensor3_zeros(d0: usize, d1: usize, d2: usize) -> (r: Tensor3)
    requires
        fits3(d0, d1, d2),
    ensures
        r.d0() == d0 && r.d1() == d1 && r.d2() == d2,
        r.val() == zero_val3(d0, d1, d2),
{
    zeros3(d0, d1, d2)
}

/// A public all-zero rank-2 array.
pub fn tensor2_zeros(d0: usize, d1: usize) -> (r: Tensor2)
    requires
        fits2(d0, d1),
    ensures
        r.d0() == d0 && r.d1() == d1,
        r.val() == zero_val2(d0, d1),
{
    zeros2(d0, d1)
}

/// A public token array built from its elements.
pub fn token_tensor_from_values(v: &Vec<i64>, rows: usize, cols: usize) -> (r: TokenTensor)
    requires
        v@.len() == rows * cols,
    ensures
        r.d0() == rows && r.d1() == cols,
        r.val() == v@,
{
    token_tensor_from(v, rows, cols)
}

/// Two rank-3 arrays have the same shape.
pub open spec fn same_dims3(a: Tensor3, b: Tensor3) -> bool {
    a.d0() == b.d0() && a.d1() == b.d1() && a.d2() == b.d2()
}

// ---------------------------------------------------------------------------
// Pure data movement: exactly specified over the byte image.
// ---------------------------------------------------------------------------

/// From each leading block of `block` bytes, keep the first `head` bytes.
pub open spec fn gather_heads(v: Seq<u8>, block: nat, head: nat) -> Seq<u8>
    decreases v.len(),
{
    if block == 0 || v.len() < block {
        Seq::empty()
    } else {
        v.subrange(0, head as int) + gather_heads(v.skip(block as int), block, head)
    }
}

/// `times` copies of a byte sequence, concatenated.
pub open spec fn repeat_seq(s: Seq<u8>, times: nat) -> Seq<u8>
    decreases times,
{
    if times == 0 {
        Seq::empty()
    } else {
        s + repeat_seq(s, (times - 1) as nat)
    }
}

/// Each leading block of `block` bytes, repeated `times` times in place.
pub open spec fn repeat_blocks(v: Seq<u8>, block: nat, times: nat) -> Seq<u8>
    decreases v.len(),
{
    if block == 0 || v.len() < block {
        Seq::empty()
    } else {
        repeat_seq(v.subrange(0, block as int), times) + repeat_blocks(
            v.skip(block as int),
            block,
            times,
        )
    }
}

/// Relies on the engine's `Tensor::reshape`: a pure relayout; the elements,
/// and hence the byte image, are unchanged.
#[verifier::external_body]
pub(crate) fn reshape3to2(t: &Tensor3, r0: usize, r1: usize) -> (r: Tensor2)
    requires
        (r0 as nat) * (r1 as nat) == (t.d0() as nat) * (t.d1() as nat) * (t.d2() as nat),
    ensures
        r.d0() == r0 && r.d1() == r1,
        r.val() == t.val(),
{
    Tensor2 { data: FloatPayload2 { t: t.data.t.clone().reshape([r0, r1]) }, n0: r0, n1: r1 }
}

/// Relies on the engine's `Tensor::reshape`, as `reshape3to2`, to rank 3.
#[verifier::external_body]
pub(crate) fn reshape2to3(t: &Tensor2, r0: usize, r1: usize, r2: usize) -> (r: Tensor3)
    requires
        (r0 as nat) * (r1 as nat) * (r2 as nat) == (t.d0() as nat) * (t.d1() as nat),
    ensures
        r.d0() == r0 && r.d1() == r1 && r.d2() == r2,
        r.val() == t.val(),
{
    Tensor3 {
        data: FloatPayload3 { t: t.data.t.clone().reshape([r0, r1, r2]) },
        n0: r0,
        n1: r1,
        n2: r2,
    }
}

/// Relies on the engine's `Tensor::slice`: keeps position 0 of the middle
/// axis, so from each batch block the first row survives.  Every axis must
/// be non-empty: the engine's range check refuses an empty slice range.
#[verifier::external_body]
pub(crate) fn slice3_row0(t: &Tensor3) -> (r: Tensor3)
    requires
        t.d0() >= 1,
        t.d1() >= 1,
        t.d2() >= 1,
    ensures
        r.d0() == t.d0() && r.d1() == 1 && r.d2() == t.d2(),
        r.val() == gather_heads(
            t.val(),
            (t.d1() as nat) * (t.d2() as nat) * 4,
            (t.d2() as nat) * 4,
        ),
{
    Tensor3 {
        data: FloatPayload3 {
            t: t.data.t.clone().slice([0..t.n0, 0..1usize, 0..t.n2]),
        },
        n0: t.n0,
        n1: 1,
        n2: t.n2,
    }
}

/// Relies on the engine's `Tensor::slice`: keeps the first `cols` columns,
/// so from each row the leading bytes survive.  There must be at least one
/// row: the engine's range check refuses an empty slice range.
#[verifier::external_body]
pub(crate) fn slice2_cols(t: &Tensor2, cols: usize) -> (r: Tensor2)
    requires
        t.d0() >= 1,
        1 <= cols <= t.d1(),
    ensures
        r.d0() == t.d0() && r.d1() == cols,
        r.val() == gather_heads(t.val(), (t.d1() as nat) * 4, (cols as nat) * 4),
{
    Tensor2 {
        data: FloatPayload2 { t: t.data.t.clone().slice([0..t.n0, 0..cols]) },
        n0: t.n0,
        n1: cols,
    }
}

/// Relies on the engine's `Tensor::unsqueeze_dim`: inserts a middle axis of
/// size one; a pure relayout, the byte image is unchanged.
#[verifier::external_body]
pub(crate) fn unsqueeze2to3(t: &Tensor2) -> (r: Tensor3)
    ensures
        r.d0() == t.d0() && r.d1() == 1 && r.d2() == t.d1(),
        r.val() == t.val(),
{
    Tensor3 {
        data: FloatPayload3 { t: t.data.t.clone().unsqueeze_dim(1) },
        n0: t.n0,
        n1: 1,
        n2: t.n1,
    }
}

/// Relies on the engine's `Tensor::repeat_dim` on the middle axis of a
/// `[d0, 1, d2]` array: each batch block is repeated in place.
#[verifier::external_body]
pub(crate) fn repeat3_mid(t: &Tensor3, times: usize) -> (r: Tensor3)
    requires
        t.d1() == 1,
        times >= 1,
        fits3(t.d0(), times, t.d2()),
    ensures
        r.d0() == t.d0() && r.d1() == times && r.d2() == t.d2(),
        r.val() == repeat_blocks(t.val(), (t.d2() as nat) * 4, times as nat),
{
    Tensor3 {
        data: FloatPayload3 { t: t.data.t.clone().repeat_dim(1, times) },
        n0: t.n0,
        n1: times,
        n2: t.n2,
    }
}

// ---------------------------------------------------------------------------
// Deterministic reductions and rescalings: named results.
// ---------------------------------------------------------------------------

/// Sum over the middle axis of a `[d0, d1, d2]` array, keeping the axis at
/// size one.
pub uninterp spec fn sum_mid3_of(v: Seq<u8>, d1: nat, d2: nat) -> Seq<u8>;

/// Every element divided by the square root of `n`.
pub uninterp spec fn div_sqrt3_of(v: Seq<u8>, n: u64) -> Seq<u8>;

/// The middle and last axes of a rank-3 array exchanged.
pub uninterp spec fn swap12_of(v: Seq<u8>, d1: nat, d2: nat) -> Seq<u8>;

/// Five same-shaped rank-3 arrays concatenated along the middle axis.
pub uninterp spec fn cat5_mid_of(
    a: Seq<u8>,
    b: Seq<u8>,
    c: Seq<u8>,
    d: Seq<u8>,
    e: Seq<u8>,
    d1: nat,
    d2: nat,
) -> Seq<u8>;

/// Elementwise maximum with zero of a rank-2 array.
pub uninterp spec fn relu2_of(v: Seq<u8>) -> Seq<u8>;

/// Relies on the engine's `Tensor::sum_dim` over the middle axis: a fixed
/// sequential reduction of each lane.
#[verifier::external_body]
pub(crate) fn sum_mid3(t: &Tensor3) -> (r: Tensor3)
    ensures
        r.d0() == t.d0() && r.d1() == 1 && r.d2() == t.d2(),
        r.val() == sum_mid3_of(t.val(), t.d1() as nat, t.d2() as nat),
{
    Tensor3 {
        data: FloatPayload3 { t: t.data.t.clone().sum_dim(1) },
        n0: t.n0,
        n1: 1,
        n2: t.n2,
    }
}

/// Relies on the engine's `Tensor::full`, `Tensor::sqrt` and elementwise
/// `/`: divides every element by the square root of `n`.
#[verifier::external_body]
pub(crate) fn div_by_sqrt3(t: &Tensor3, n: u64) -> (r: Tensor3)
    requires
        n >= 1,
    ensures
        r.d0() == t.d0() && r.d1() == t.d1() && r.d2() == t.d2(),
        r.val() == div_sqrt3_of(t.val(), n),
{
    let dev = NdArrayDevice::Cpu;
    let denom = Tensor::full([t.n0, t.n1, t.n2], n, &dev).sqrt();
    Tensor3 {
        data: FloatPayload3 { t: t.data.t.clone() / denom },
        n0: t.n0,
        n1: t.n1,
        n2: t.n2,
    }
}

/// Relies on the engine's `Tensor::swap_dims` on the two trailing axes.
#[verifier::external_body]
pub(crate) fn swap12(t: &Tensor3) -> (r: Tensor3)
    ensures
        r.d0() == t.d0() && r.d1() == t.d2() && r.d2() == t.d1(),
        r.val() == swap12_of(t.val(), t.d1() as nat, t.d2() as nat),
{
    Tensor3 {
        data: FloatPayload3 { t: t.data.t.clone().swap_dims(1, 2) },
        n0: t.n0,
        n1: t.n2,
        n2: t.n1,
    }
}

/// Relies on the engine's `Tensor::cat` along the middle axis of five
/// same-shaped arrays.
#[verifier::external_body]
pub(crate) fn cat5_mid(a: &Tensor3, b: &Tensor3, c: &Tensor3, d: &Tensor3, e: &Tensor3) -> (r:
    Tensor3)
    requires
        same_dims3(*a, *b) && same_dims3(*a, *c) && same_dims3(*a, *d) && same_dims3(*a, *e),
        a.d1() * 5 <= usize::MAX,
        fits3(a.d0(), (a.d1() * 5) as usize, a.d2()),
    ensures
        r.d0() == a.d0() && r.d1() == a.d1() * 5 && r.d2() == a.d2(),
        r.val() == cat5_mid_of(
            a.val(),
            b.val(),
            c.val(),
            d.val(),
            e.val(),
            a.d1() as nat,
            a.d2() as nat,
        ),
{
    let parts = vec![
        a.data.t.clone(),
        b.data.t.clone(),
        c.data.t.clone(),
        d.data.t.clone(),
        e.data.t.clone(),
    ];
    Tensor3 {
        data: FloatPayload3 { t: Tensor::cat(parts, 1) },
        n0: a.n0,
        n1: a.n1 * 5,
        n2: a.n2,
    }
}

/// Relies on the engine's `relu` activation: the elementwise maximum with
/// zero.
#[verifier::external_body]
pub(crate) fn relu2(t: &Tensor2) -> (r: Tensor2)
    ensures
        r.d0() == t.d0() && r.d1() == t.d1(),
        r.val() == relu2_of(t.val()),
{
    Tensor2 { data: FloatPayload2 { t: activation::relu(t.data.t.clone()) }, n0: t.n0, n1: t.n1 }
}

// ---------------------------------------------------------------------------
// Operations whose bit-level outcome may vary between machines: shape only.
// ---------------------------------------------------------------------------

/// Relies on the engine's `Tensor::matmul` on batched matrices
/// `[d0, m, k] x [d0, k, n] -> [d0, m, n]`.  The numeric result is not
/// modelled: its accumulation order may differ between machines.
#[verifier::external_body]
pub(crate) fn matmul3(a: &Tensor3, b: &Tensor3) -> (r: Tensor3)
    requires
        a.d0() == b.d0(),
        a.d2() == b.d1(),
    ensures
        r.d0() == a.d0() && r.d1() == a.d1() && r.d2() == b.d2(),
{
    Tensor3 {
        data: FloatPayload3 { t: a.data.t.clone().matmul(b.data.t.clone()) },
        n0: a.n0,
        n1: a.n1,
        n2: b.n2,
    }
}

/// Relies on the engine's `softmax` over the last axis.  The numeric result
/// is not modelled: it goes through the machine's exponential function.
#[verifier::external_body]
pub(crate) fn softmax3_last(t: &Tensor3) -> (r: Tensor3)
    ensures
        r.d0() == t.d0() && r.d1() == t.d1() && r.d2() == t.d2(),
{
    Tensor3 {
        data: FloatPayload3 { t: activation::softmax(t.data.t.clone(), 2) },
        n0: t.n0,
        n1: t.n1,
        n2: t.n2,
    }
}

/// Relies on the engine's `tanh` activation.  The numeric result is not
/// modelled: it goes through the machine's mathematical library.
#[verifier::external_body]
pub(crate) fn tanh2(t: &Tensor2) -> (r: Tensor2)
    ensures
        r.d0() == t.d0() && r.d1() == t.d1(),
{
    Tensor2 { data: FloatPayload2 { t: activation::tanh(t.data.t.clone()) }, n0: t.n0, n1: t.n1 }
}

/// A vector of `n` zero arrays of one shape.
pub(crate) fn zeros_vec(n: usize, d0: usize, d1: usize, d2: usize) -> (r: Vec<Tensor3>)
    requires
        fits3(d0, d1, d2),
    ensures
        r@.len() == n,
        forall|i: int|
            0 <= i < n ==> {
                &&& (#[trigger] r@[i]).d0() == d0
                &&& r@[i].d1() == d1
                &&& r@[i].d2() == d2
                &&& r@[i].val() == zero_val3(d0, d1, d2)
            },
{
    let mut v: Vec<Tensor3> = Vec::new();
    let mut i: usize = 0;
    while i < n
        invariant
            0 <= i <= n,
            v@.len() == i,
            fits3(d0, d1, d2),
            forall|j: int|
                0 <= j < i ==> {
                    &&& (#[trigger] v@[j]).d0() == d0
                    &&& v@[j].d1() == d1
                    &&& v@[j].d2() == d2
                    &&& v@[j].val() == zero_val3(d0, d1, d2)
                },
        decreases n - i,
    {
        v.push(zeros3(d0, d1, d2));
        i += 1;
    }
    v
}

} // verus!
