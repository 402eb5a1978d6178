//! The sparse attention kernel of `ruvllm_sparse_attention`, as far as this crate relies on it.
//!
//! Every contract in this file is taken on trust from the kernel's source: when it refuses its
//! arguments and in which words, and the shape of what it returns. What it computes from the
//! numbers in the tensors is not described, as its exponentials may differ in the last bits from
//! one platform to the next. There is only a relation for it, which ties a result to the call that
//! made it. Running out of memory is not described either.
use ruvllm_sparse_attention::{
    AttentionBackend, AttentionError, SparseAttentionConfig, SubquadraticSparseAttention, Tensor3,
};
use vstd::prelude::*;

use crate::text::decimal;

verus! {

/// `ruvllm_sparse_attention::Tensor3`, an array with three indices: token, head and dimension.
#[verifier::external_type_specification]
#[verifier::external_body]
pub struct ExTensor3(Tensor3);

/// `ruvllm_sparse_attention::SubquadraticSparseAttention`, the kernel with its settings.
#[verifier::external_type_specification]
#[verifier::external_body]
pub struct ExSubquadraticSparseAttention(SubquadraticSparseAttention);

/// `ruvllm_sparse_attention::AttentionError`, a refusal of the kernel.
#[verifier::external_type_specification]
#[verifier::external_body]
pub struct ExAttentionError(AttentionError);

/// What a tensor holds: its shape, and the bit patterns of its numbers, row by row.
pub struct TensorView {
    pub seq: usize,
    pub heads: usize,
    pub dim: usize,
    pub bits: Seq<u32>,
}

/// The settings that a kernel works by.
pub struct KernelConfig {
    pub window: usize,
    pub block_size: usize,
    pub global_tokens: Seq<usize>,
    pub causal: bool,
    pub use_log_stride: bool,
    pub use_landmarks: bool,
    pub sort_candidates: bool,
}

/// Why the kernel refuses to work.
pub enum Fault {
    ShapeMismatch { q: (usize, usize, usize), k: (usize, usize, usize), v: (usize, usize, usize) },
    InvalidConfig(Seq<char>),
}

/// What a tensor holds: the fields of `Tensor3`.
pub uninterp spec fn tensor(t: Tensor3) -> TensorView;

/// The settings in a kernel: the field `config` of `SubquadraticSparseAttention`.
pub uninterp spec fn kernel_config(attn: SubquadraticSparseAttention) -> KernelConfig;

/// The reason in a kernel error: the variant of `AttentionError` and what it holds.
pub uninterp spec fn fault(e: AttentionError) -> Fault;

/// `out` is an output of `SubquadraticSparseAttention::forward` under `config` on `q`, `k`, `v`.
pub uninterp spec fn forward_output(
    config: KernelConfig,
    q: TensorView,
    k: TensorView,
    v: TensorView,
    out: TensorView,
) -> bool;

/// `out` is an output of `SubquadraticSparseAttention::forward_gqa` under `config` on `q`, `k`,
/// `v`.
pub uninterp spec fn forward_gqa_output(
    config: KernelConfig,
    q: TensorView,
    k: TensorView,
    v: TensorView,
    out: TensorView,
) -> bool;

impl TensorView {
    pub open spec fn shape(self) -> (usize, usize, usize) {
        (self.seq, self.heads, self.dim)
    }

    /// The tensor has a number for every place of its shape.
    pub open spec fn covers_shape(self) -> bool {
        self.seq * self.heads * self.dim <= self.bits.len()
    }

    /// Exactly one number for every place of its shape.
    pub open spec fn is_exact(self) -> bool {
        self.seq * self.heads * self.dim == self.bits.len()
    }
}

/// A triple the way Rust's `{:?}` prints it.
pub open spec fn triple_text(t: (usize, usize, usize)) -> Seq<char> {
    "("@ + decimal(t.0 as nat) + ", "@ + decimal(t.1 as nat) + ", "@ + decimal(t.2 as nat) + ")"@
}

/// The text of a kernel error.
pub open spec fn fault_text(f: Fault) -> Seq<char> {
    match f {
        Fault::ShapeMismatch { q, k, v } => "shape mismatch, q="@ + triple_text(q) + ", k="@
            + triple_text(k) + ", v="@ + triple_text(v) + "; expected equal shapes"@,
        Fault::InvalidConfig(message) => "invalid config: "@ + message,
    }
}

/// What the kernel says of settings with empty blocks.
pub open spec fn empty_blocks() -> Fault {
    Fault::InvalidConfig("block_size must be greater than zero"@)
}

/// What the kernel says of heads without dimensions.
pub open spec fn empty_heads() -> Fault {
    Fault::InvalidConfig("head dimension must be greater than zero"@)
}

/// The reason for which `forward` refuses its arguments, if there is one.
pub open spec fn forward_fault(
    config: KernelConfig,
    q: TensorView,
    k: TensorView,
    v: TensorView,
) -> Option<Fault> {
    if q.dim == 0 {
        Some(empty_heads())
    } else if q.shape() != k.shape() || q.shape() != v.shape() {
        Some(Fault::ShapeMismatch { q: q.shape(), k: k.shape(), v: v.shape() })
    } else if config.block_size == 0 {
        Some(empty_blocks())
    } else {
        None
    }
}

/// The reason for which `forward_gqa` refuses its arguments, if there is one.
pub open spec fn forward_gqa_fault(
    config: KernelConfig,
    q: TensorView,
    k: TensorView,
    v: TensorView,
) -> Option<Fault> {
    if q.dim == 0 {
        Some(empty_heads())
    } else if q.seq != k.seq || k.seq != v.seq {
        Some(Fault::ShapeMismatch { q: q.shape(), k: k.shape(), v: v.shape() })
    } else if q.dim != k.dim || k.dim != v.dim {
        Some(
            Fault::InvalidConfig(
                "head dim mismatch: q.dim="@ + decimal(q.dim as nat) + ", k.dim="@ + decimal(
                    k.dim as nat,
                ),
            ),
        )
    } else if k.heads == 0 || q.heads as int % k.heads as int != 0 {
        Some(
            Fault::InvalidConfig(
                "q_heads="@ + decimal(q.heads as nat) + " must be divisible by kv_heads="@
                    + decimal(k.heads as nat),
            ),
        )
    } else if k.heads != v.heads {
        Some(
            Fault::InvalidConfig(
                "k.heads="@ + decimal(k.heads as nat) + " != v.heads="@ + decimal(v.heads as nat),
            ),
        )
    } else if config.block_size == 0 {
        Some(empty_blocks())
    } else {
        None
    }
}

/// The most machine words that one allocation can hold.
pub open spec fn max_words() -> int {
    isize::MAX as int / (usize::BITS as int / 8)
}

/// The kernel can lay out its scratch space for these arguments: the tensors hold the numbers
/// that their shapes promise, and no scratch vector is longer than an allocation can be.
pub open spec fn workable(
    config: KernelConfig,
    q: TensorView,
    k: TensorView,
    v: TensorView,
) -> bool {
    q.seq > 0 ==> {
        &&& q.covers_shape()
        &&& k.covers_shape()
        &&& v.covers_shape()
        &&& config.window + 64 <= max_words()
        &&& q.seq <= max_words()
        &&& q.dim <= isize::MAX as int / 4
    }
}

/// `SubquadraticSparseAttention::new`: a kernel with the settings given, or a refusal of empty
/// blocks.
#[verifier::external_body]
pub(crate) fn new_kernel(
    window: usize,
    block_size: usize,
    global_tokens: Vec<usize>,
    causal: bool,
    use_log_stride: bool,
    use_landmarks: bool,
    sort_candidates: bool,
) -> (r: Result<SubquadraticSparseAttention, AttentionError>)
    ensures
        block_size == 0 ==> r is Err && fault(r->Err_0) == empty_blocks(),
        block_size > 0 ==> r is Ok && kernel_config(r->Ok_0) == (KernelConfig {
            window,
            block_size,
            global_tokens: global_tokens@,
            causal,
            use_log_stride,
            use_landmarks,
            sort_candidates,
        }),
{
    SubquadraticSparseAttention::new(
        SparseAttentionConfig {
            window,
            block_size,
            global_tokens,
            causal,
            use_log_stride,
            use_landmarks,
            sort_candidates,
        },
    )
}

/// `AttentionBackend::forward` of the kernel: an error for exactly the arguments that it refuses,
/// with the reason, else an output of the shape of `q` that holds one number for every place. Where
/// the kernel works, the arguments have to leave it room; it would panic otherwise. The numbers in
/// the output are left unsaid.
#[verifier::external_body]
pub(crate) fn kernel_forward(
    attn: &SubquadraticSparseAttention,
    q: &Tensor3,
    k: &Tensor3,
    v: &Tensor3,
) -> (r: Result<Tensor3, AttentionError>)
    requires
        forward_fault(kernel_config(*attn), tensor(*q), tensor(*k), tensor(*v)) is None
            ==> workable(kernel_config(*attn), tensor(*q), tensor(*k), tensor(*v)),
    ensures
        r is Err <==> forward_fault(
            kernel_config(*attn),
            tensor(*q),
            tensor(*k),
            tensor(*v),
        ) is Some,
        r matches Err(e) ==> forward_fault(
            kernel_config(*attn),
            tensor(*q),
            tensor(*k),
            tensor(*v),
        ) == Some(fault(e)),
        r matches Ok(out) ==> {
            &&& tensor(out).shape() == tensor(*q).shape()
            &&& tensor(out).is_exact()
            &&& forward_output(
                kernel_config(*attn),
                tensor(*q),
                tensor(*k),
                tensor(*v),
                tensor(out),
            )
        },
{
    attn.forward(q, k, v)
}

/// `SubquadraticSparseAttention::forward_gqa`: an error for exactly the arguments that it refuses,
/// with the reason, else an output of the shape of `q` that holds one number for every place. Where
/// the kernel works, the arguments have to leave it room; it would panic otherwise. The numbers in
/// the output are left unsaid.
#[verifier::external_body]
pub(crate) fn kernel_forward_gqa(
    attn: &SubquadraticSparseAttention,
    q: &Tensor3,
    k: &Tensor3,
    v: &Tensor3,
) -> (r: Result<Tensor3, AttentionError>)
    requires
        forward_gqa_fault(kernel_config(*attn), tensor(*q), tensor(*k), tensor(*v)) is None
            ==> workable(kernel_config(*attn), tensor(*q), tensor(*k), tensor(*v)),
    ensures
        r is Err <==> forward_gqa_fault(
            kernel_config(*attn),
            tensor(*q),
            tensor(*k),
            tensor(*v),
        ) is Some,
        r matches Err(e) ==> forward_gqa_fault(
            kernel_config(*attn),
            tensor(*q),
            tensor(*k),
            tensor(*v),
        ) == Some(fault(e)),
        r matches Ok(out) ==> {
            &&& tensor(out).shape() == tensor(*q).shape()
            &&& tensor(out).is_exact()
            &&& forward_gqa_output(
                kernel_config(*attn),
                tensor(*q),
                tensor(*k),
                tensor(*v),
                tensor(out),
            )
        },
{
    attn.forward_gqa(q, k, v)
}

/// The `Display` text of an `AttentionError`: the words for the reason that it holds.
#[verifier::external_body]
pub(crate) fn error_text(e: &AttentionError) -> (r: String)
    ensures
        r@ == fault_text(fault(*e)),
{
    format!("{e}")
}

/// `Tensor3::shape`: the shape of a tensor.
#[verifier::external_body]
pub(crate) fn tensor_shape(t: &Tensor3) -> (r: (usize, usize, usize))
    ensures
        r == tensor(*t).shape(),
{
    t.shape()
}

/// The length of `Tensor3::data`: how many numbers a tensor holds.
#[verifier::external_body]
pub(crate) fn tensor_len(t: &Tensor3) -> (r: usize)
    ensures
        r == tensor(*t).bits.len(),
{
    t.data.len()
}

} // verus!
