//! The temporal attention head over the sparse kernel.
use ruvllm_sparse_attention::{SubquadraticSparseAttention, Tensor3};
use vstd::prelude::*;

use crate::error::TemporalError;
use crate::kernel::{
    kernel_forward, kernel_forward_gqa, new_kernel, tensor_len, tensor_shape,
};

verus! {

/// The settings of a temporal head.
#[derive(Clone, Copy, Debug)]
pub struct TemporalHeadConfig {
    /// Query heads.
    pub q_heads: usize,
    /// Key and value heads.
    pub kv_heads: usize,
    /// How far a token sees to either side.
    pub window: usize,
    /// Tokens in a landmark block.
    pub block_size: usize,
    /// A token sees no later token.
    pub causal: bool,
    /// What is wrong with the settings, as found by whoever made them; `None` if nothing is. It is
    /// reported as it stands: settings are refused as far as their maker fills it in.
    pub defect: Option<&'static str>,
}

impl TemporalHeadConfig {
    /// Reports what is wrong with the settings.
    pub fn validate(&self) -> (r: Result<(), TemporalError>)
        ensures
            r == match self.defect {
                Some(why) => Err::<(), TemporalError>(TemporalError::InvalidConfig(why)),
                None => Ok(()),
            },
    {
        match self.defect {
            Some(why) => Err(TemporalError::InvalidConfig(why)),
            None => Ok(()),
        }
    }
}

/// The kernel settings that a head configuration asks for: token 0 is the one global token, long
/// strides and landmarks are on, candidates stay unsorted.
pub open spec fn kernel_settings(cfg: TemporalHeadConfig) -> crate::kernel::KernelConfig {
    crate::kernel::KernelConfig {
        window: cfg.window,
        block_size: cfg.block_size,
        global_tokens: seq![0usize],
        causal: cfg.causal,
        use_log_stride: true,
        use_landmarks: true,
        sort_candidates: false,
    }
}

/// The global tokens of a head: token 0, the start of the session, is visible from every
/// position.
pub fn alloc_first_token() -> (r: Vec<usize>)
    ensures
        r@ == seq![0usize],
{
    vec![0]
}

/// A temporal head on the sparse attention kernel.
pub struct SparseGqaHead {
    cfg: TemporalHeadConfig,
    attn: SubquadraticSparseAttention,
}

impl SparseGqaHead {
    /// The settings that the head was made with.
    pub closed spec fn config(self) -> TemporalHeadConfig {
        self.cfg
    }

    /// The settings of the kernel in the head.
    pub closed spec fn kernel(self) -> crate::kernel::KernelConfig {
        crate::kernel::kernel_config(self.attn)
    }

    /// A head that `new` made: no defect of its configuration is reported, and its kernel works by it.
    pub open spec fn wf(self) -> bool {
        &&& self.config().defect is None
        &&& self.config().block_size > 0
        &&& self.kernel() == kernel_settings(self.config())
    }

    /// Plain multi-head attention: every query head has key and value heads of its own.
    pub open spec fn is_mha(self) -> bool {
        self.config().q_heads == self.config().kv_heads
    }

    /// The reason for which the head refuses its arguments, if there is one.
    pub open spec fn refusal(self, q: Tensor3, k: Tensor3, v: Tensor3) -> Option<
        crate::kernel::Fault,
    > {
        let (q, k, v) = (
            crate::kernel::tensor(q),
            crate::kernel::tensor(k),
            crate::kernel::tensor(v),
        );
        if self.is_mha() {
            crate::kernel::forward_fault(self.kernel(), q, k, v)
        } else {
            crate::kernel::forward_gqa_fault(self.kernel(), q, k, v)
        }
    }

    /// `out` is an output of the kernel for these arguments: of its plain form where the head is
    /// plain multi-head attention, and of its grouped form otherwise.
    pub open spec fn output(self, q: Tensor3, k: Tensor3, v: Tensor3, out: Tensor3) -> bool {
        let (q, k, v, out) = (
            crate::kernel::tensor(q),
            crate::kernel::tensor(k),
            crate::kernel::tensor(v),
            crate::kernel::tensor(out),
        );
        if self.is_mha() {
            crate::kernel::forward_output(self.kernel(), q, k, v, out)
        } else {
            crate::kernel::forward_gqa_output(self.kernel(), q, k, v, out)
        }
    }

    /// The kernel either refuses the arguments or has room to work on them.
    pub open spec fn accepts(self, q: Tensor3, k: Tensor3, v: Tensor3) -> bool {
        self.refusal(q, k, v) is None ==> crate::kernel::workable(
            self.kernel(),
            crate::kernel::tensor(q),
            crate::kernel::tensor(k),
            crate::kernel::tensor(v),
        )
    }

    /// Makes a head. An unsound configuration is reported first; then the kernel may refuse empty
    /// blocks.
    pub fn new(cfg: &TemporalHeadConfig) -> (r: Result<Self, TemporalError>)
        ensures
            cfg.defect matches Some(why) ==> r == Err::<Self, TemporalError>(
                TemporalError::InvalidConfig(why),
            ),
            cfg.defect is None && cfg.block_size == 0 ==> r is Err && crate::error::reports(
                r->Err_0,
                crate::kernel::empty_blocks(),
            ),
            cfg.defect is None && cfg.block_size > 0 ==> r is Ok && r->Ok_0.wf()
                && r->Ok_0.config() == *cfg,
    {
        match cfg.validate() {
            Err(e) => Err(e),
            Ok(()) => {
                match new_kernel(
                    cfg.window,
                    cfg.block_size,
                    alloc_first_token(),
                    cfg.causal,
                    true,
                    true,
                    false,
                ) {
                    Err(e) => Err(TemporalError::from(e)),
                    Ok(attn) => Ok(SparseGqaHead { cfg: *cfg, attn }),
                }
            },
        }
    }

    /// The settings of the head.
    pub fn cfg(&self) -> (r: &TemporalHeadConfig)
        ensures
            *r == self.config(),
    {
        &self.cfg
    }

    /// Runs the head: the plain form of the kernel where query and key heads are equal in number,
    /// the grouped form where they differ.
    pub fn forward(&self, q: &Tensor3, k: &Tensor3, v: &Tensor3) -> (r: Result<
        Tensor3,
        TemporalError,
    >)
        requires
            self.accepts(*q, *k, *v),
        ensures
            r is Err <==> self.refusal(*q, *k, *v) is Some,
            r matches Err(e) ==> crate::error::reports(e, self.refusal(*q, *k, *v)->Some_0),
            r matches Ok(out) ==> {
                &&& crate::kernel::tensor(out).shape() == crate::kernel::tensor(*q).shape()
                &&& crate::kernel::tensor(out).is_exact()
                &&& self.output(*q, *k, *v, out)
            },
    {
        if self.cfg.q_heads == self.cfg.kv_heads {
            match kernel_forward(&self.attn, q, k, v) {
                Ok(out) => Ok(out),
                Err(e) => Err(TemporalError::from(e)),
            }
        } else {
            match kernel_forward_gqa(&self.attn, q, k, v) {
                Ok(out) => Ok(out),
                Err(e) => Err(TemporalError::from(e)),
            }
        }
    }

    /// Whether the kernel either refuses the arguments or has room to work on them.
    fn is_accepted(&self, q: &Tensor3, k: &Tensor3, v: &Tensor3) -> (r: bool)
        requires
            self.wf(),
        ensures
            r == self.accepts(*q, *k, *v),
    {
        let (q_seq, q_heads, q_dim) = tensor_shape(q);
        let (k_seq, k_heads, k_dim) = tensor_shape(k);
        let (v_seq, v_heads, v_dim) = tensor_shape(v);
        if q_seq == 0 || q_dim == 0 || q_seq != k_seq || q_seq != v_seq || q_dim != k_dim || q_dim
            != v_dim || k_heads != v_heads {
            return true;
        }
        if self.cfg.q_heads == self.cfg.kv_heads {
            if q_heads != k_heads {
                return true;
            }
        } else if k_heads == 0 || q_heads % k_heads != 0 {
            return true;
        }
        let words: usize = isize::MAX as usize / (usize::BITS / 8) as usize;
        words >= 64 && self.cfg.window <= words - 64 && q_seq <= words && q_dim <= isize::MAX
            as usize / 4 && covers(q_seq, q_heads, q_dim, tensor_len(q)) && covers(
            k_seq,
            k_heads,
            k_dim,
            tensor_len(k),
        ) && covers(v_seq, v_heads, v_dim, tensor_len(v))
    }

    /// Runs the head where the kernel can work; `None` where it has no room for the arguments or
    /// a tensor lacks numbers that its shape promises.
    pub fn checked_forward(&self, q: &Tensor3, k: &Tensor3, v: &Tensor3) -> (r: Option<
        Result<Tensor3, TemporalError>,
    >)
        requires
            self.wf(),
        ensures
            r is Some <==> self.accepts(*q, *k, *v),
            r matches Some(Err(e)) ==> self.refusal(*q, *k, *v) is Some && crate::error::reports(
                e,
                self.refusal(*q, *k, *v)->Some_0,
            ),
            r matches Some(Ok(out)) ==> {
                &&& self.refusal(*q, *k, *v) is None
                &&& crate::kernel::tensor(out).shape() == crate::kernel::tensor(*q).shape()
                &&& crate::kernel::tensor(out).is_exact()
                &&& self.output(*q, *k, *v, out)
            },
    {
        if self.is_accepted(q, k, v) {
            Some(self.forward(q, k, v))
        } else {
            None
        }
    }
}

/// Whether `len` numbers are enough for a shape.
fn covers(seq: usize, heads: usize, dim: usize, len: usize) -> (r: bool)
    ensures
        r == (seq * heads * dim <= len),
{
    if seq == 0 || heads == 0 || dim == 0 {
        assert(seq * heads * dim == 0) by (nonlinear_arith)
            requires
                seq == 0 || heads == 0 || dim == 0,
        ;
        return true;
    }
    assert(seq * heads <= seq * heads * dim) by (nonlinear_arith)
        requires
            seq > 0,
            heads > 0,
            dim > 0,
    ;
    match seq.checked_mul(heads) {
        Some(rows) => {
            match rows.checked_mul(dim) {
                Some(places) => places <= len,
                None => false,
            }
        },
        None => false,
    }
}

/// Tensors of one shape, with heads and dimensions, are accepted by every head, whichever form of
/// the kernel it uses.
pub proof fn law_equal_shapes_are_never_refused(
    head: SparseGqaHead,
    q: Tensor3,
    k: Tensor3,
    v: Tensor3,
)
    requires
        head.wf(),
        crate::kernel::tensor(q).shape() == crate::kernel::tensor(k).shape(),
        crate::kernel::tensor(q).shape() == crate::kernel::tensor(v).shape(),
        crate::kernel::tensor(q).heads > 0,
        crate::kernel::tensor(q).dim > 0,
    ensures
        head.refusal(q, k, v) is None,
{
    assert(crate::kernel::tensor(q).heads as int % crate::kernel::tensor(q).heads as int == 0)
        by (nonlinear_arith)
        requires
            crate::kernel::tensor(q).heads > 0,
    ;
}

/// What a head refuses depends on the shapes of the tensors alone, not on the numbers in them.
pub proof fn law_refusal_goes_by_shape(
    head: SparseGqaHead,
    q: Tensor3,
    k: Tensor3,
    v: Tensor3,
    q2: Tensor3,
    k2: Tensor3,
    v2: Tensor3,
)
    requires
        crate::kernel::tensor(q).shape() == crate::kernel::tensor(q2).shape(),
        crate::kernel::tensor(k).shape() == crate::kernel::tensor(k2).shape(),
        crate::kernel::tensor(v).shape() == crate::kernel::tensor(v2).shape(),
    ensures
        head.refusal(q, k, v) == head.refusal(q2, k2, v2),
{
}

/// A head that `new` made never fails for empty blocks: the settings are refused once, when the
/// head is made.
pub proof fn law_made_heads_have_blocks(head: SparseGqaHead, q: Tensor3, k: Tensor3, v: Tensor3)
    requires
        head.wf(),
    ensures
        head.refusal(q, k, v) != Some(crate::kernel::empty_blocks()),
{
    // The messages of the other refusals begin with other letters.
    reveal_strlit("block_size must be greater than zero");
    reveal_strlit("head dimension must be greater than zero");
    reveal_strlit("head dim mismatch: q.dim=");
    reveal_strlit("q_heads=");
    reveal_strlit("k.heads=");
    let other = head.refusal(q, k, v);
    if let Some(crate::kernel::Fault::InvalidConfig(message)) = other {
        assert(message[0] != "block_size must be greater than zero"@[0]);
    }
}

/// Grouped heads share key and value heads evenly: where such a head works, the query heads are a
/// multiple of the key heads, and key and value heads are equal in number.
pub proof fn law_grouped_heads_share_evenly(
    head: SparseGqaHead,
    q: Tensor3,
    k: Tensor3,
    v: Tensor3,
)
    requires
        head.wf(),
        !head.is_mha(),
        head.refusal(q, k, v) is None,
    ensures
        crate::kernel::tensor(k).heads > 0,
        crate::kernel::tensor(q).heads as int % crate::kernel::tensor(k).heads as int == 0,
        crate::kernel::tensor(k).shape() == crate::kernel::tensor(v).shape(),
        crate::kernel::tensor(q).seq == crate::kernel::tensor(k).seq,
        crate::kernel::tensor(q).dim == crate::kernel::tensor(k).dim,
{
}

/// The form of the kernel that a head uses gives one output for equal arguments.
pub open spec fn is_deterministic(head: SparseGqaHead) -> bool {
    forall|q: Tensor3, k: Tensor3, v: Tensor3, a: Tensor3, b: Tensor3|
        #[trigger] head.output(q, k, v, a) && #[trigger] head.output(q, k, v, b)
            ==> crate::kernel::tensor(a) == crate::kernel::tensor(b)
}

/// A head keeps nothing between calls: two heads made with equal settings give the same result for
/// the same tensors, whatever was asked of either before, where the kernel is deterministic.
pub proof fn law_equal_heads_agree(
    cfg: TemporalHeadConfig,
    h1: SparseGqaHead,
    h2: SparseGqaHead,
    q: Tensor3,
    k: Tensor3,
    v: Tensor3,
    r1: Result<Tensor3, TemporalError>,
    r2: Result<Tensor3, TemporalError>,
)
    requires
        call_ensures(SparseGqaHead::new, (&cfg,), Ok::<SparseGqaHead, TemporalError>(h1)),
        call_ensures(SparseGqaHead::new, (&cfg,), Ok::<SparseGqaHead, TemporalError>(h2)),
        is_deterministic(h1),
        call_ensures(SparseGqaHead::forward, (&h1, &q, &k, &v), r1),
        call_ensures(SparseGqaHead::forward, (&h2, &q, &k, &v), r2),
    ensures
        h1.accepts(q, k, v) == h2.accepts(q, k, v),
        match (r1, r2) {
            (Ok(a), Ok(b)) => crate::kernel::tensor(a) == crate::kernel::tensor(b),
            (Err(a), Err(b)) => a.text() == b.text(),
            _ => false,
        },
{
    if let (Ok(a), Ok(b)) = (r1, r2) {
        assert(h1.output(q, k, v, a));
        assert(h2.output(q, k, v, b));
        assert(h1.output(q, k, v, b));
    }
}

/// Token 0 is a global token of every head, and the only one.
pub proof fn law_first_token_is_global(head: SparseGqaHead)
    requires
        head.wf(),
    ensures
        head.kernel().global_tokens == seq![0usize],
{
}

} // verus!
