//! What making a head and running it come to together, told of the kernel alone.
use ruvllm_sparse_attention::Tensor3;
use vstd::prelude::*;

use crate::error::TemporalError;
use crate::kernel::{forward_gqa_output, forward_output, tensor, KernelConfig};
use crate::sparse::{SparseGqaHead, TemporalHeadConfig};
use crate::text::decimal;

verus! {

/// A head is made exactly if no defect of its settings is reported and its blocks are not empty. A
/// defect is reported in the words that it was given, before the kernel is asked.
pub proof fn law_who_gets_a_head(
    cfg: TemporalHeadConfig,
    r: Result<SparseGqaHead, TemporalError>,
)
    requires
        call_ensures(SparseGqaHead::new, (&cfg,), r),
    ensures
        r is Ok <==> cfg.defect is None && cfg.block_size != 0,
        cfg.defect matches Some(why) ==> (r matches Err(TemporalError::InvalidConfig(said))
            && said == why),
        cfg.defect is None && cfg.block_size == 0 ==> (r matches Err(TemporalError::Kernel(said))
            && said@ == "invalid config: "@ + "block_size must be greater than zero"@),
{
}

/// The kernel of a head works by the settings of the head, one by one, whatever the numbers of
/// heads, and the head shows the settings that it was made with.
pub proof fn law_kernel_works_by_the_settings(
    cfg: TemporalHeadConfig,
    head: SparseGqaHead,
    shown: &TemporalHeadConfig,
)
    requires
        call_ensures(SparseGqaHead::new, (&cfg,), Ok::<SparseGqaHead, TemporalError>(head)),
        call_ensures(SparseGqaHead::cfg, (&head,), shown),
    ensures
        head.kernel().causal == cfg.causal,
        head.kernel().window == cfg.window,
        head.kernel().block_size == cfg.block_size,
        head.kernel().global_tokens.len() == 1,
        head.kernel().global_tokens[0] == 0,
        head.kernel().use_log_stride,
        head.kernel().use_landmarks,
        !head.kernel().sort_candidates,
        shown.q_heads == cfg.q_heads,
        shown.kv_heads == cfg.kv_heads,
        shown.window == cfg.window,
        shown.block_size == cfg.block_size,
        shown.causal == cfg.causal,
        shown.defect == cfg.defect,
{
}

/// A head with as many key heads as query heads gives what the plain form of the kernel gives under
/// the settings of the head, with queries as queries, keys as keys and values as values. It refuses
/// heads without dimensions and tensors of different shapes, and nothing else.
pub proof fn law_plain_head_is_plain_attention(
    cfg: TemporalHeadConfig,
    head: SparseGqaHead,
    q: Tensor3,
    k: Tensor3,
    v: Tensor3,
    r: Result<Tensor3, TemporalError>,
)
    requires
        cfg.q_heads == cfg.kv_heads,
        call_ensures(SparseGqaHead::new, (&cfg,), Ok::<SparseGqaHead, TemporalError>(head)),
        call_ensures(SparseGqaHead::forward, (&head, &q, &k, &v), r),
    ensures
        r matches Ok(out) ==> {
            &&& forward_output(
                KernelConfig {
                    window: cfg.window,
                    block_size: cfg.block_size,
                    global_tokens: seq![0usize],
                    causal: cfg.causal,
                    use_log_stride: true,
                    use_landmarks: true,
                    sort_candidates: false,
                },
                tensor(q),
                tensor(k),
                tensor(v),
                tensor(out),
            )
            &&& tensor(out).seq == tensor(q).seq
            &&& tensor(out).heads == tensor(q).heads
            &&& tensor(out).dim == tensor(q).dim
            &&& tensor(out).bits.len() == tensor(q).seq * tensor(q).heads * tensor(q).dim
        },
        r is Ok <==> {
            &&& tensor(q).dim != 0
            &&& tensor(q).seq == tensor(k).seq == tensor(v).seq
            &&& tensor(q).heads == tensor(k).heads == tensor(v).heads
            &&& tensor(q).dim == tensor(k).dim == tensor(v).dim
        },
        r matches Err(e) ==> {
            &&& e matches TemporalError::Kernel(said)
            &&& tensor(q).dim == 0 ==> said@ == "invalid config: "@
                + "head dimension must be greater than zero"@
            &&& tensor(q).dim != 0 ==> said@ == mismatch(
                (tensor(q).seq, tensor(q).heads, tensor(q).dim),
                (tensor(k).seq, tensor(k).heads, tensor(k).dim),
                (tensor(v).seq, tensor(v).heads, tensor(v).dim),
            )
        },
{
}

/// A head with fewer key heads than query heads, or more, gives what the grouped form of the kernel
/// gives under the settings of the head, with each tensor in its own part. It works exactly if the
/// tensors agree in tokens and dimensions, there are dimensions, the key heads are as many as the
/// value heads, and they divide the query heads.
pub proof fn law_grouped_head_is_grouped_attention(
    cfg: TemporalHeadConfig,
    head: SparseGqaHead,
    q: Tensor3,
    k: Tensor3,
    v: Tensor3,
    r: Result<Tensor3, TemporalError>,
)
    requires
        cfg.q_heads != cfg.kv_heads,
        call_ensures(SparseGqaHead::new, (&cfg,), Ok::<SparseGqaHead, TemporalError>(head)),
        call_ensures(SparseGqaHead::forward, (&head, &q, &k, &v), r),
    ensures
        r matches Ok(out) ==> {
            &&& forward_gqa_output(
                KernelConfig {
                    window: cfg.window,
                    block_size: cfg.block_size,
                    global_tokens: seq![0usize],
                    causal: cfg.causal,
                    use_log_stride: true,
                    use_landmarks: true,
                    sort_candidates: false,
                },
                tensor(q),
                tensor(k),
                tensor(v),
                tensor(out),
            )
            &&& tensor(out).seq == tensor(q).seq
            &&& tensor(out).heads == tensor(q).heads
            &&& tensor(out).dim == tensor(q).dim
            &&& tensor(out).bits.len() == tensor(q).seq * tensor(q).heads * tensor(q).dim
        },
        r is Ok <==> {
            &&& tensor(q).dim != 0
            &&& tensor(q).seq == tensor(k).seq == tensor(v).seq
            &&& tensor(q).dim == tensor(k).dim == tensor(v).dim
            &&& tensor(k).heads == tensor(v).heads
            &&& tensor(k).heads != 0
            &&& tensor(q).heads as int % tensor(k).heads as int == 0
        },
        r matches Err(e) ==> {
            let (q, k, v) = (tensor(q), tensor(k), tensor(v));
            &&& e matches TemporalError::Kernel(said)
            &&& said@ == if q.dim == 0 {
                "invalid config: "@ + "head dimension must be greater than zero"@
            } else if q.seq != k.seq || k.seq != v.seq {
                mismatch((q.seq, q.heads, q.dim), (k.seq, k.heads, k.dim), (v.seq, v.heads, v.dim))
            } else if q.dim != k.dim || k.dim != v.dim {
                "invalid config: "@ + ("head dim mismatch: q.dim="@ + decimal(q.dim as nat)
                    + ", k.dim="@ + decimal(k.dim as nat))
            } else if k.heads == 0 || q.heads as int % k.heads as int != 0 {
                "invalid config: "@ + ("q_heads="@ + decimal(q.heads as nat)
                    + " must be divisible by kv_heads="@ + decimal(k.heads as nat))
            } else {
                "invalid config: "@ + ("k.heads="@ + decimal(k.heads as nat) + " != v.heads="@
                    + decimal(v.heads as nat))
            }
        },
{
}

/// The words of the kernel for shapes that differ.
pub open spec fn mismatch(
    q: (usize, usize, usize),
    k: (usize, usize, usize),
    v: (usize, usize, usize),
) -> Seq<char> {
    "shape mismatch, q="@ + ("("@ + decimal(q.0 as nat) + ", "@ + decimal(q.1 as nat) + ", "@
        + decimal(q.2 as nat) + ")"@) + ", k="@ + ("("@ + decimal(k.0 as nat) + ", "@ + decimal(
        k.1 as nat,
    ) + ", "@ + decimal(k.2 as nat) + ")"@) + ", v="@ + ("("@ + decimal(v.0 as nat) + ", "@
        + decimal(v.1 as nat) + ", "@ + decimal(v.2 as nat) + ")"@) + "; expected equal shapes"@
}

/// Checking first changes no result: what `checked_forward` gives is an outcome that `forward`
/// can give, and it declines only arguments that the kernel takes up without room for them: a
/// tensor lacks numbers, or a scratch vector would be longer than an allocation can be.
pub proof fn law_checking_declines_only_what_has_no_room(
    cfg: TemporalHeadConfig,
    head: SparseGqaHead,
    q: Tensor3,
    k: Tensor3,
    v: Tensor3,
    r: Option<Result<Tensor3, TemporalError>>,
)
    requires
        call_ensures(SparseGqaHead::new, (&cfg,), Ok::<SparseGqaHead, TemporalError>(head)),
        call_ensures(SparseGqaHead::checked_forward, (&head, &q, &k, &v), r),
    ensures
        tensor(q).seq == 0 ==> r is Some,
        ({
            let words = isize::MAX as int / (usize::BITS as int / 8);
            &&& tensor(q).seq * tensor(q).heads * tensor(q).dim <= tensor(q).bits.len()
            &&& tensor(k).seq * tensor(k).heads * tensor(k).dim <= tensor(k).bits.len()
            &&& tensor(v).seq * tensor(v).heads * tensor(v).dim <= tensor(v).bits.len()
            &&& cfg.window + 64 <= words
            &&& tensor(q).seq <= words
            &&& tensor(q).dim <= isize::MAX as int / 4
        }) ==> r is Some,
        r matches Some(Ok(out)) ==> {
            let settings = KernelConfig {
                window: cfg.window,
                block_size: cfg.block_size,
                global_tokens: seq![0usize],
                causal: cfg.causal,
                use_log_stride: true,
                use_landmarks: true,
                sort_candidates: false,
            };
            &&& cfg.q_heads == cfg.kv_heads ==> forward_output(
                settings,
                tensor(q),
                tensor(k),
                tensor(v),
                tensor(out),
            )
            &&& cfg.q_heads != cfg.kv_heads ==> forward_gqa_output(
                settings,
                tensor(q),
                tensor(k),
                tensor(v),
                tensor(out),
            )
            &&& tensor(out).seq == tensor(q).seq
            &&& tensor(out).heads == tensor(q).heads
            &&& tensor(out).dim == tensor(q).dim
            &&& tensor(q).dim != 0
            &&& tensor(q).seq == tensor(k).seq == tensor(v).seq
            &&& tensor(q).dim == tensor(k).dim == tensor(v).dim
            &&& tensor(k).heads == tensor(v).heads
            &&& cfg.q_heads == cfg.kv_heads ==> tensor(q).heads == tensor(k).heads
            &&& cfg.q_heads != cfg.kv_heads ==> tensor(k).heads != 0 && tensor(q).heads as int
                % tensor(k).heads as int == 0
        },
        r matches Some(Err(e)) ==> {
            &&& e is Kernel
            &&& !(tensor(q).dim != 0 && tensor(q).seq == tensor(k).seq == tensor(v).seq && tensor(
                q,
            ).dim == tensor(k).dim == tensor(v).dim && tensor(q).heads == tensor(k).heads == tensor(
                v,
            ).heads && tensor(q).heads > 0)
        },
        r is None ==> tensor(q).seq > 0 && tensor(q).dim > 0 && tensor(q).seq == tensor(k).seq
            == tensor(v).seq && tensor(q).dim == tensor(k).dim == tensor(v).dim,
{
    if tensor(q).heads > 0 {
        assert(tensor(q).heads as int % tensor(q).heads as int == 0) by (nonlinear_arith)
            requires
                tensor(q).heads > 0,
        ;
    }
}

/// The error of a head in words: what kind it is, then what there is to say of it.
pub proof fn law_head_errors_in_words(e: TemporalError, r: String)
    requires
        call_ensures(TemporalError::message, (&e,), r),
    ensures
        e matches TemporalError::InvalidConfig(why) ==> r@ == "temporal head config invalid: "@
            + why@,
        e is DenseBackendNotImplemented ==> r@
            == "dense MHA backend not implemented yet (ADR-096 §4.4 follow-up)"@,
        e matches TemporalError::Kernel(said) ==> r@ == "sparse attention kernel error: "@ + said@,
{
}

} // verus!
