//! Scaled dot-product attention: dense, over a KV cache, and over packed
//! segments.
use vstd::prelude::*;

use crate::buffer::CudaBuffer;
use crate::context::CudaContext;
use crate::dtype::DType;
use crate::error::Error;
use crate::ops::binding::{dims_3, dims_4, tensor_storage};
use crate::ops::launch::{begin_launch, LaunchPolicy, PendingLaunch};
use crate::scalar::F32Bits;
use crate::shape::{has_zero, same_dims};
use crate::tensor::Tensor;
use crate::workspace::ThreadState;

verus! {

/// Queries, keys and values that were split out of one packed tensor.
#[derive(Debug)]
pub struct QkvTensors {
    pub q: Tensor,
    pub k: Tensor,
    pub v: Tensor,
}

/// Which keys a query sees.
#[derive(Clone, Copy, Debug, PartialEq, Eq, Structural)]
pub enum AttentionMask {
    /// All of them.
    Unmasked,
    /// Those up to its own position.
    Causal,
}

/// Factor on the scores.
#[derive(Clone, Copy, Debug, PartialEq, Eq, Structural)]
pub enum AttentionScale {
    Explicit(F32Bits),
    /// One over the square root of the head dimension.
    InverseSqrt { head_dim: usize },
}

impl AttentionScale {
    /// The factor is finite and positive.
    pub open spec fn usable(self) -> bool {
        match self {
            AttentionScale::Explicit(bits) => bits.usable(),
            AttentionScale::InverseSqrt { head_dim } => head_dim > 0,
        }
    }

    pub fn is_usable(self) -> (r: bool)
        ensures
            r == self.usable(),
    {
        match self {
            AttentionScale::Explicit(bits) => bits.is_finite_positive(),
            AttentionScale::InverseSqrt { head_dim } => head_dim > 0,
        }
    }
}

/// The default factor for a query whose head dimension is extent `axis`.
pub open spec fn default_scale(query: &Tensor, axis: int) -> AttentionScale {
    AttentionScale::InverseSqrt {
        head_dim: if axis < query.extents().len() {
            query.extents()[axis]
        } else {
            1
        },
    }
}

/// Dense attention: `[batch, tokens, heads, head_dim]` queries over keys and
/// values with as many or fewer heads.
#[derive(Debug)]
pub struct AttentionArgs<'a> {
    pub query: &'a Tensor,
    pub key: &'a Tensor,
    pub value: &'a Tensor,
    pub out: &'a Tensor,
    pub mask: AttentionMask,
    pub scale: AttentionScale,
    pub policy: LaunchPolicy,
}

/// Attention over a contiguous KV cache. By default the query tokens are the
/// trailing positions of the cache.
#[derive(Debug)]
pub struct KvCacheAttentionArgs<'a> {
    pub query: &'a Tensor,
    pub key_cache: &'a Tensor,
    pub value_cache: &'a Tensor,
    pub out: &'a Tensor,
    /// Tokens of the cache that hold data.
    pub valid_key_tokens: usize,
    /// Position of the first query token.
    pub query_start: usize,
    pub mask: AttentionMask,
    pub scale: AttentionScale,
    pub policy: LaunchPolicy,
}

/// Packed variable-length self-attention. `offsets` partitions the leading
/// token extent of matching `[tokens, heads, head_dim]` tensors.
#[derive(Debug)]
pub struct SegmentedAttentionArgs<'a> {
    pub query: &'a Tensor,
    pub key: &'a Tensor,
    pub value: &'a Tensor,
    pub out: &'a Tensor,
    pub offsets: &'a [u32],
    pub scale: AttentionScale,
    pub policy: LaunchPolicy,
}

fn extent_or(tensor: &Tensor, axis: usize, default: usize) -> (extent: usize)
    ensures
        extent == (if axis < tensor.extents().len() {
            tensor.extents()[axis as int]
        } else {
            default
        }),
{
    let dims: &Vec<usize> = tensor.shape.dims();
    if axis < dims.len() {
        dims[axis]
    } else {
        default
    }
}

impl<'a> AttentionArgs<'a> {
    pub fn new(query: &'a Tensor, key: &'a Tensor, value: &'a Tensor, out: &'a Tensor) -> (args:
        Self)
        ensures
            args == (AttentionArgs {
                query,
                key,
                value,
                out,
                mask: AttentionMask::Unmasked,
                scale: default_scale(query, 3),
                policy: crate::ops::launch::default_launch_policy(),
            }),
            args.query == query,
            args.key == key,
            args.value == value,
            args.out == out,
    {
        AttentionArgs {
            query,
            key,
            value,
            out,
            mask: AttentionMask::Unmasked,
            scale: AttentionScale::InverseSqrt { head_dim: extent_or(query, 3, 1) },
            policy: LaunchPolicy::default(),
        }
    }

    /// The same request under a causal mask.
    pub fn causal(self) -> (args: Self)
        ensures
            args == (AttentionArgs { mask: AttentionMask::Causal, ..self }),
    {
        AttentionArgs { mask: AttentionMask::Causal, ..self }
    }
}

/// The position at which `queries` tokens end with the last of `keys` tokens.
pub open spec fn trailing_start(keys: usize, queries: usize) -> usize {
    if queries <= keys {
        (keys - queries) as usize
    } else {
        0
    }
}

/// Extent `axis` of a tensor, zero where it has none.
pub open spec fn extent_or_zero(tensor: &Tensor, axis: int) -> usize {
    if axis < tensor.extents().len() {
        tensor.extents()[axis]
    } else {
        0
    }
}

impl<'a> KvCacheAttentionArgs<'a> {
    pub fn new(
        query: &'a Tensor,
        key_cache: &'a Tensor,
        value_cache: &'a Tensor,
        out: &'a Tensor,
    ) -> (args: Self)
        ensures
            args == (KvCacheAttentionArgs {
                query,
                key_cache,
                value_cache,
                out,
                valid_key_tokens: extent_or_zero(key_cache, 1),
                query_start: trailing_start(
                    extent_or_zero(key_cache, 1),
                    extent_or_zero(query, 1),
                ),
                mask: AttentionMask::Causal,
                scale: default_scale(query, 3),
                policy: crate::ops::launch::default_launch_policy(),
            }),
            args.query == query,
            args.key_cache == key_cache,
            args.value_cache == value_cache,
            args.out == out,
    {
        let keys: usize = extent_or(key_cache, 1, 0);
        let queries: usize = extent_or(query, 1, 0);
        KvCacheAttentionArgs {
            query,
            key_cache,
            value_cache,
            out,
            valid_key_tokens: keys,
            query_start: keys.saturating_sub(queries),
            mask: AttentionMask::Causal,
            scale: AttentionScale::InverseSqrt { head_dim: extent_or(query, 3, 1) },
            policy: LaunchPolicy::default(),
        }
    }
}

impl<'a> SegmentedAttentionArgs<'a> {
    pub fn new(
        query: &'a Tensor,
        key: &'a Tensor,
        value: &'a Tensor,
        out: &'a Tensor,
        offsets: &'a [u32],
    ) -> (args: Self)
        ensures
            args == (SegmentedAttentionArgs {
                query,
                key,
                value,
                out,
                offsets,
                scale: default_scale(query, 2),
                policy: crate::ops::launch::default_launch_policy(),
            }),
            args.query == query,
            args.key == key,
            args.value == value,
            args.out == out,
            args.offsets == offsets,
    {
        SegmentedAttentionArgs {
            query,
            key,
            value,
            out,
            offsets,
            scale: AttentionScale::InverseSqrt { head_dim: extent_or(query, 2, 1) },
            policy: LaunchPolicy::default(),
        }
    }
}

/// The native launch of an attention.
#[derive(Clone, Copy, Debug, PartialEq, Eq, Structural)]
pub struct AttentionLaunch {
    pub dtype: DType,
    pub batch: i64,
    pub query_tokens: i64,
    /// Keys that hold data.
    pub key_tokens: i64,
    /// Keys there is storage for.
    pub key_capacity: i64,
    pub query_heads: i64,
    pub kv_heads: i64,
    pub head_dim: i64,
    pub mask: AttentionMask,
    /// Position of the first query token.
    pub query_start: i64,
    pub scale: AttentionScale,
    pub query: usize,
    pub key: usize,
    pub value: usize,
    pub output: usize,
    pub stream: usize,
}

pub const ATTENTION_RANK_TEXT: &'static str =
    "Attention requires non-empty [batch, tokens, heads, head_dim] tensors";

pub const ATTENTION_TYPE_TEXT: &'static str = "Attention supports F16 or BF16";

pub const ATTENTION_HEADS_TEXT: &'static str =
    "Attention query heads must be a multiple of KV heads";

pub const ATTENTION_SCALE_TEXT: &'static str = "Attention scale must be finite and positive";

pub const ATTENTION_POSITION_TEXT: &'static str =
    "Attention query positions must lie within the valid keys";

pub const SEGMENT_SHAPE_TEXT: &'static str =
    "segmented Attention requires matching non-empty [tokens, heads, head_dim] tensors";

pub const SEGMENT_OFFSETS_TEXT: &'static str =
    "segmented Attention offsets must be monotonic and span all tokens";

pub const SEGMENT_SCALE_TEXT: &'static str =
    "segmented Attention scale must be finite and positive";

pub const SEGMENT_ROW_TEXT: &'static str = "segmented Attention row size overflow";

/// No extent is zero.
pub open spec fn non_empty(dims: Seq<usize>) -> bool {
    forall|i: int| 0 <= i < dims.len() ==> dims[i] != 0
}

/// Why an attention over a KV cache is refused, if it is.
///
/// The query tokens have to lie within the valid keys where a causal mask
/// relates the two.
pub open spec fn kv_attention_rejection(device: usize, r: &KvCacheAttentionArgs<'_>) -> Option<
    Error,
> {
    let q = r.query.extents();
    let k = r.key_cache.extents();
    let t = r.query.dtype;
    if q.len() != 4 || k.len() != 4 || !non_empty(q) || !non_empty(k) {
        Some(Error::Other(ATTENTION_RANK_TEXT))
    } else if !t.half() {
        Some(Error::Other(ATTENTION_TYPE_TEXT))
    } else if q[2] % k[2] != 0 {
        Some(Error::Other(ATTENTION_HEADS_TEXT))
    } else if !r.scale.usable() {
        Some(Error::Other(ATTENTION_SCALE_TEXT))
    } else if r.valid_key_tokens == 0 || r.valid_key_tokens > k[1] {
        Some(Error::Other(ATTENTION_POSITION_TEXT))
    } else if r.mask == AttentionMask::Causal && r.query_start + q[1] > r.valid_key_tokens {
        Some(Error::Other(ATTENTION_POSITION_TEXT))
    } else {
        crate::ops::binding::first(
            crate::ops::binding::operand_rejection(device, r.query, t, seq![q[0], q[1], q[2], q[3]]),
            crate::ops::binding::first(
                crate::ops::binding::operand_rejection(device, r.key_cache, t, seq![q[0], k[1], k[2], q[3]]),
                crate::ops::binding::first(
                    crate::ops::binding::operand_rejection(device, r.value_cache, t, seq![q[0], k[1], k[2], q[3]]),
                    crate::ops::binding::operand_rejection(device, r.out, t, seq![q[0], q[1], q[2], q[3]]),
                ),
            ),
        )
    }
}

/// The launch of an accepted attention over a KV cache.
pub open spec fn kv_attention_launch(
    ctx: &CudaContext,
    r: &KvCacheAttentionArgs<'_>,
) -> AttentionLaunch {
    AttentionLaunch {
        dtype: r.query.dtype,
        batch: r.query.extents()[0] as i64,
        query_tokens: r.query.extents()[1] as i64,
        key_tokens: r.valid_key_tokens as i64,
        key_capacity: r.key_cache.extents()[1] as i64,
        query_heads: r.query.extents()[2] as i64,
        kv_heads: r.key_cache.extents()[2] as i64,
        head_dim: r.query.extents()[3] as i64,
        mask: r.mask,
        query_start: r.query_start as i64,
        scale: r.scale,
        query: crate::ops::binding::bound_range(r.query).ptr,
        key: crate::ops::binding::bound_range(r.key_cache).ptr,
        value: crate::ops::binding::bound_range(r.value_cache).ptr,
        output: crate::ops::binding::bound_range(r.out).ptr,
        stream: ctx.stream.handle,
    }
}

/// `result` is what a KV cache attention request comes to.
pub open spec fn kv_attention_outcome(
    thread: &ThreadState,
    ctx: &CudaContext,
    r: &KvCacheAttentionArgs<'_>,
    result: Result<PendingLaunch<AttentionLaunch>, Error>,
) -> bool {
    match kv_attention_rejection(ctx.device_id, r) {
        Some(e) => result == Err::<PendingLaunch<AttentionLaunch>, Error>(e),
        None => crate::ops::launch::becomes_pending(thread, ctx, kv_attention_launch(ctx, r), r.policy, result),
    }
}

/// Starts an attention over a contiguous KV cache.
pub fn kv_cache_attention(thread: &ThreadState, ctx: &CudaContext, args: KvCacheAttentionArgs<'_>)
    -> (result: Result<PendingLaunch<AttentionLaunch>, Error>)
    ensures
        kv_attention_outcome(thread, ctx, &args, result),
        result matches Ok(p) ==> {
            &&& p.launch.dtype == args.query.dtype
            &&& args.query.packed_at(ctx.device_id, p.launch.query, p.launch.dtype, seq![p.launch.batch, p.launch.query_tokens, p.launch.query_heads, p.launch.head_dim])
            &&& args.key_cache.packed_at(ctx.device_id, p.launch.key, p.launch.dtype, seq![p.launch.batch, p.launch.key_capacity, p.launch.kv_heads, p.launch.head_dim])
            &&& args.value_cache.packed_at(ctx.device_id, p.launch.value, p.launch.dtype, seq![p.launch.batch, p.launch.key_capacity, p.launch.kv_heads, p.launch.head_dim])
            &&& args.out.packed_at(ctx.device_id, p.launch.output, p.launch.dtype, seq![p.launch.batch, p.launch.query_tokens, p.launch.query_heads, p.launch.head_dim])
            &&& p.launch.mask == args.mask
            &&& p.launch.scale == args.scale
            &&& p.launch.key_tokens == args.valid_key_tokens as i64
            &&& p.launch.query_start == args.query_start as i64
            &&& p.policy == args.policy
            &&& p.stream == ctx.stream
            &&& p.runtime == ctx.runtime
            &&& p.launch.stream == ctx.stream.handle
        },
{
    let q: &Vec<usize> = args.query.shape.dims();
    let k: &Vec<usize> = args.key_cache.shape.dims();
    if q.len() != 4 || k.len() != 4 || has_zero(q) || has_zero(k) {
        return Err(Error::Other(ATTENTION_RANK_TEXT));
    }
    let t: DType = args.query.dtype;
    if !t.is_half() {
        return Err(Error::Other(ATTENTION_TYPE_TEXT));
    }
    if q[2] % k[2] != 0 {
        return Err(Error::Other(ATTENTION_HEADS_TEXT));
    }
    if !args.scale.is_usable() {
        return Err(Error::Other(ATTENTION_SCALE_TEXT));
    }
    if args.valid_key_tokens == 0 || args.valid_key_tokens > k[1] {
        return Err(Error::Other(ATTENTION_POSITION_TEXT));
    }
    if args.mask == AttentionMask::Causal && (args.query_start > args.valid_key_tokens || q[1]
        > args.valid_key_tokens - args.query_start) {
        return Err(Error::Other(ATTENTION_POSITION_TEXT));
    }
    let queries: Vec<usize> = dims_4(q[0], q[1], q[2], q[3]);
    let keys: Vec<usize> = dims_4(q[0], k[1], k[2], q[3]);
    let query: CudaBuffer = tensor_storage(ctx, args.query, t, &queries)?;
    let key: CudaBuffer = tensor_storage(ctx, args.key_cache, t, &keys)?;
    let value: CudaBuffer = tensor_storage(ctx, args.value_cache, t, &keys)?;
    let output: CudaBuffer = tensor_storage(ctx, args.out, t, &queries)?;
    let launch: AttentionLaunch = AttentionLaunch {
        dtype: t,
        batch: q[0] as i64,
        query_tokens: q[1] as i64,
        key_tokens: args.valid_key_tokens as i64,
        key_capacity: k[1] as i64,
        query_heads: q[2] as i64,
        kv_heads: k[2] as i64,
        head_dim: q[3] as i64,
        mask: args.mask,
        query_start: args.query_start as i64,
        scale: args.scale,
        query: query.ptr(),
        key: key.ptr(),
        value: value.ptr(),
        output: output.ptr(),
        stream: ctx.stream.handle,
    };
    begin_launch(thread, ctx, launch, args.policy)
}

impl<'a> AttentionArgs<'a> {
    /// Dense attention as attention over a full cache: every key is valid and
    /// the queries are the trailing positions.
    pub open spec fn over_cache(self) -> KvCacheAttentionArgs<'a> {
        KvCacheAttentionArgs {
            query: self.query,
            key_cache: self.key,
            value_cache: self.value,
            out: self.out,
            valid_key_tokens: extent_or_zero(self.key, 1),
            query_start: trailing_start(
                extent_or_zero(self.key, 1),
                extent_or_zero(self.query, 1),
            ),
            mask: self.mask,
            scale: self.scale,
            policy: self.policy,
        }
    }
}

/// Starts a dense attention.
pub fn attention(thread: &ThreadState, ctx: &CudaContext, args: AttentionArgs<'_>) -> (result:
    Result<PendingLaunch<AttentionLaunch>, Error>)
    ensures
        kv_attention_outcome(thread, ctx, &args.over_cache(), result),
        result matches Ok(p) ==> {
            &&& p.launch.dtype == args.query.dtype
            &&& args.query.packed_at(ctx.device_id, p.launch.query, p.launch.dtype, seq![p.launch.batch, p.launch.query_tokens, p.launch.query_heads, p.launch.head_dim])
            &&& args.key.packed_at(ctx.device_id, p.launch.key, p.launch.dtype, seq![p.launch.batch, p.launch.key_capacity, p.launch.kv_heads, p.launch.head_dim])
            &&& args.value.packed_at(ctx.device_id, p.launch.value, p.launch.dtype, seq![p.launch.batch, p.launch.key_capacity, p.launch.kv_heads, p.launch.head_dim])
            &&& args.out.packed_at(ctx.device_id, p.launch.output, p.launch.dtype, seq![p.launch.batch, p.launch.query_tokens, p.launch.query_heads, p.launch.head_dim])
            &&& p.launch.mask == args.mask
            &&& p.launch.scale == args.scale
            &&& p.launch.key_tokens == p.launch.key_capacity
            &&& args.query.extents()[1] <= args.key.extents()[1] ==> p.launch.query_start == (args.key.extents()[1] - args.query.extents()[1]) as i64
            &&& args.query.extents()[1] > args.key.extents()[1] ==> p.launch.query_start == 0
            &&& p.policy == args.policy
            &&& p.stream == ctx.stream
            &&& p.runtime == ctx.runtime
            &&& p.launch.stream == ctx.stream.handle
        },
{
    let keys: usize = extent_or(args.key, 1, 0);
    let queries: usize = extent_or(args.query, 1, 0);
    kv_cache_attention(
        thread,
        ctx,
        KvCacheAttentionArgs {
            query: args.query,
            key_cache: args.key,
            value_cache: args.value,
            out: args.out,
            valid_key_tokens: keys,
            query_start: keys.saturating_sub(queries),
            mask: args.mask,
            scale: args.scale,
            policy: args.policy,
        },
    )
}

/// Offsets start at zero, never decrease and end with the token count.
pub open spec fn spans(offsets: Seq<u32>, tokens: usize) -> bool {
    &&& offsets.len() >= 2
    &&& offsets[0] == 0
    &&& offsets[offsets.len() - 1] == tokens
    &&& forall|i: int| 0 <= i < offsets.len() - 1 ==> #[trigger] offsets[i] <= offsets[i + 1]
}

/// The non-empty segments among the first `count` that offsets delimit, by
/// first and past-the-end token.
pub open spec fn segments(offsets: Seq<u32>, count: int) -> Seq<(u32, u32)>
    decreases count,
{
    if count <= 0 {
        Seq::empty()
    } else if offsets[count - 1] < offsets[count] {
        segments(offsets, count - 1).push((offsets[count - 1], offsets[count]))
    } else {
        segments(offsets, count - 1)
    }
}

/// Why a segmented attention is refused, if it is.
pub open spec fn segmented_rejection(device: usize, r: &SegmentedAttentionArgs<'_>) -> Option<
    Error,
> {
    let shape = r.query.extents();
    let t = r.query.dtype;
    if shape.len() != 3 || !non_empty(shape) || r.key.extents() != shape || r.value.extents()
        != shape || r.out.extents() != shape || r.key.dtype != t || r.value.dtype != t
        || r.out.dtype != t {
        Some(Error::Other(SEGMENT_SHAPE_TEXT))
    } else if !spans(r.offsets@, shape[0]) {
        Some(Error::Other(SEGMENT_OFFSETS_TEXT))
    } else if !r.scale.usable() {
        Some(Error::Other(SEGMENT_SCALE_TEXT))
    } else if (shape[1] * shape[2]) * t.size() > usize::MAX {
        Some(Error::Other(SEGMENT_ROW_TEXT))
    } else if !t.half() {
        Some(Error::Other(ATTENTION_TYPE_TEXT))
    } else {
        crate::ops::binding::first(
            crate::ops::binding::operand_rejection(device, r.query, t, shape),
            crate::ops::binding::first(
                crate::ops::binding::operand_rejection(device, r.key, t, shape),
                crate::ops::binding::first(
                    crate::ops::binding::operand_rejection(device, r.value, t, shape),
                    crate::ops::binding::operand_rejection(device, r.out, t, shape),
                ),
            ),
        )
    }
}

/// Bytes of one token's row.
pub open spec fn row_bytes(r: &SegmentedAttentionArgs<'_>) -> int {
    (r.query.extents()[1] * r.query.extents()[2]) * r.query.dtype.size()
}

/// The launch of one segment: unmasked attention of its tokens among
/// themselves.
pub open spec fn segment_launch(
    ctx: &CudaContext,
    r: &SegmentedAttentionArgs<'_>,
    segment: (u32, u32),
) -> AttentionLaunch {
    let offset = segment.0 * row_bytes(r);
    let tokens = segment.1 - segment.0;
    AttentionLaunch {
        dtype: r.query.dtype,
        batch: 1,
        query_tokens: tokens as i64,
        key_tokens: tokens as i64,
        key_capacity: tokens as i64,
        query_heads: r.query.extents()[1] as i64,
        kv_heads: r.query.extents()[1] as i64,
        head_dim: r.query.extents()[2] as i64,
        mask: AttentionMask::Unmasked,
        query_start: 0,
        scale: r.scale,
        query: (crate::ops::binding::bound_range(r.query).ptr + offset) as usize,
        key: (crate::ops::binding::bound_range(r.key).ptr + offset) as usize,
        value: (crate::ops::binding::bound_range(r.value).ptr + offset) as usize,
        output: (crate::ops::binding::bound_range(r.out).ptr + offset) as usize,
        stream: ctx.stream.handle,
    }
}

/// The launches of the first `count` segments that the offsets delimit.
pub open spec fn segment_launches(
    ctx: &CudaContext,
    r: &SegmentedAttentionArgs<'_>,
    count: int,
) -> Seq<AttentionLaunch> {
    segments(r.offsets@, count).map_values(|s: (u32, u32)| segment_launch(ctx, r, s))
}

/// Whether offsets start at zero, never decrease and end with `tokens`.
fn offsets_span(offsets: &[u32], tokens: usize) -> (r: bool)
    ensures
        r == spans(offsets@, tokens),
{
    let count: usize = offsets.len();
    if count < 2 || offsets[0] != 0 || offsets[count - 1] as usize != tokens {
        return false;
    }
    let mut i: usize = 0;
    while i < count - 1
        invariant
            count == offsets@.len(),
            2 <= count,
            i <= count - 1,
            forall|j: int| 0 <= j < i ==> #[trigger] offsets@[j] <= offsets@[j + 1],
        decreases count - i,
    {
        if offsets[i] > offsets[i + 1] {
            assert(offsets@[i as int] > offsets@[i as int + 1]);
            return false;
        }
        i = i + 1;
    }
    true
}

proof fn lemma_offsets_bounded(offsets: Seq<u32>, tokens: usize, i: int)
    requires
        spans(offsets, tokens),
        0 <= i < offsets.len(),
    ensures
        offsets[i] <= tokens,
    decreases offsets.len() - i,
{
    if i < offsets.len() - 1 {
        lemma_offsets_bounded(offsets, tokens, i + 1);
        assert(offsets[i] <= offsets[i + 1]);
    }
}

proof fn lemma_segment_offset_fits(start: int, tokens: int, row: int, len: int)
    requires
        0 <= start <= tokens,
        0 <= row,
        tokens * row <= len,
    ensures
        0 <= start * row <= len,
{
    assert(0 <= start * row <= tokens * row) by (nonlinear_arith)
        requires
            0 <= start <= tokens,
            0 <= row,
    ;
}

/// Starts a packed variable-length attention: one launch per non-empty
/// segment, in order.
pub fn segmented_attention(
    thread: &ThreadState,
    ctx: &CudaContext,
    args: SegmentedAttentionArgs<'_>,
) -> (result: Result<PendingLaunch<Vec<AttentionLaunch>>, Error>)
    ensures
        match result {
            Ok(p) => {
                &&& segmented_rejection(ctx.device_id, &args) is None
                &&& thread@.target_rejection(ctx.device_id, ctx.stream.handle) is None
                &&& p.launch@ == segment_launches(ctx, &args, args.offsets@.len() - 1)
                &&& p.policy == args.policy
                &&& p.runtime == ctx.runtime
                &&& p.stream == ctx.stream
            },
            Err(e) => crate::ops::binding::first(
                segmented_rejection(ctx.device_id, &args),
                thread@.target_rejection(ctx.device_id, ctx.stream.handle),
            ) == Some(e),
        },
        result matches Ok(p) ==> p.launch@.len() == segments(args.offsets@, args.offsets@.len() - 1).len(),
        result matches Ok(p) ==> (forall|i: int|
            0 <= i < p.launch@.len() ==> {
                let l = #[trigger] p.launch@[i];
                let s = segments(args.offsets@, args.offsets@.len() - 1)[i];
                &&& l.query == args.query.address_3(s.0 as int, 0, 0)
                &&& l.key == args.key.address_3(s.0 as int, 0, 0)
                &&& l.value == args.value.address_3(s.0 as int, 0, 0)
                &&& l.output == args.out.address_3(s.0 as int, 0, 0)
                &&& l.query_tokens == s.1 - s.0
                &&& l.key_tokens == s.1 - s.0
                &&& l.key_capacity == s.1 - s.0
                &&& l.query_heads == args.query.extents()[1] as i64
                &&& l.kv_heads == args.query.extents()[1] as i64
                &&& l.head_dim == args.query.extents()[2] as i64
                &&& l.batch == 1
                &&& l.query_start == 0
                &&& l.mask is Unmasked
                &&& l.scale == args.scale
                &&& l.dtype == args.query.dtype
                &&& l.stream == ctx.stream.handle
            }),
{
    let shape: &Vec<usize> = args.query.shape.dims();
    let t: DType = args.query.dtype;
    if shape.len() != 3 || has_zero(shape) || !same_dims(args.key.shape.dims(), shape)
        || !same_dims(args.value.shape.dims(), shape) || !same_dims(args.out.shape.dims(), shape)
        || args.key.dtype != t || args.value.dtype != t || args.out.dtype != t {
        return Err(Error::Other(SEGMENT_SHAPE_TEXT));
    }
    let tokens: usize = shape[0];
    let heads: usize = shape[1];
    let head_dim: usize = shape[2];
    if !offsets_span(args.offsets, tokens) {
        return Err(Error::Other(SEGMENT_OFFSETS_TEXT));
    }
    if !args.scale.is_usable() {
        return Err(Error::Other(SEGMENT_SCALE_TEXT));
    }
    let size: usize = t.size_in_bytes();
    let row: usize = match heads.checked_mul(head_dim) {
        Some(elements) => match elements.checked_mul(size) {
            Some(row) => row,
            None => {
                return Err(Error::Other(SEGMENT_ROW_TEXT));
            },
        },
        None => {
            assert((heads * head_dim) * size > usize::MAX) by (nonlinear_arith)
                requires
                    heads * head_dim > usize::MAX,
                    size >= 1,
            ;
            return Err(Error::Other(SEGMENT_ROW_TEXT));
        },
    };
    if !t.is_half() {
        return Err(Error::Other(ATTENTION_TYPE_TEXT));
    }
    let query: CudaBuffer = tensor_storage(ctx, args.query, t, shape)?;
    let key: CudaBuffer = tensor_storage(ctx, args.key, t, shape)?;
    let value: CudaBuffer = tensor_storage(ctx, args.value, t, shape)?;
    let output: CudaBuffer = tensor_storage(ctx, args.out, t, shape)?;
    let query_len: usize = query.len();
    let key_len: usize = key.len();
    let value_len: usize = value.len();
    let output_len: usize = output.len();
    proof {
        assert(shape@ =~= seq![tokens, heads, head_dim]);
        crate::shape::lemma_product_3(tokens, heads, head_dim);
        assert((tokens * heads * head_dim) * size == tokens * ((heads * head_dim) * size))
            by (nonlinear_arith);
    }
    let mut launches: Vec<AttentionLaunch> = Vec::new();
    let count: usize = args.offsets.len() - 1;
    let mut i: usize = 0;
    while i < count
        invariant
            i <= count,
            count == args.offsets@.len() - 1,
            spans(args.offsets@, tokens),
            t == args.query.dtype,
            args.query.extents() == seq![tokens, heads, head_dim],
            row == row_bytes(&args),
            row == (heads * head_dim) * t.size(),
            tokens * row <= query_len,
            tokens * row <= key_len,
            tokens * row <= value_len,
            tokens * row <= output_len,
            query_len == query.range().len,
            key_len == key.range().len,
            value_len == value.range().len,
            output_len == output.range().len,
            crate::ops::binding::bound_range(args.query) == query.range(),
            crate::ops::binding::bound_range(args.key) == key.range(),
            crate::ops::binding::bound_range(args.value) == value.range(),
            crate::ops::binding::bound_range(args.out) == output.range(),
            launches@ == segment_launches(ctx, &args, i as int),
        decreases count - i,
    {
        let start: u32 = args.offsets[i];
        let end: u32 = args.offsets[i + 1];
        if start < end {
            proof {
                lemma_offsets_bounded(args.offsets@, tokens, i as int);
                lemma_segment_offset_fits(start as int, tokens as int, row as int, query_len as int);
                lemma_segment_offset_fits(start as int, tokens as int, row as int, key_len as int);
                lemma_segment_offset_fits(start as int, tokens as int, row as int, value_len as int);
                lemma_segment_offset_fits(
                    start as int,
                    tokens as int,
                    row as int,
                    output_len as int,
                );
            }
            let segment_tokens: u32 = end - start;
            let offset: usize = start as usize * row;
            let launch: AttentionLaunch = AttentionLaunch {
                dtype: t,
                batch: 1,
                query_tokens: segment_tokens as i64,
                key_tokens: segment_tokens as i64,
                key_capacity: segment_tokens as i64,
                query_heads: heads as i64,
                kv_heads: heads as i64,
                head_dim: head_dim as i64,
                mask: AttentionMask::Unmasked,
                query_start: 0,
                scale: args.scale,
                query: query.ptr() + offset,
                key: key.ptr() + offset,
                value: value.ptr() + offset,
                output: output.ptr() + offset,
                stream: ctx.stream.handle,
            };
            proof {
                assert(launch == segment_launch(ctx, &args, (start, end)));
                assert(segment_launches(ctx, &args, i + 1) =~= segment_launches(
                    ctx,
                    &args,
                    i as int,
                ).push(launch));
            }
            launches.push(launch);
        } else {
            assert(segments(args.offsets@, i + 1) == segments(args.offsets@, i as int));
        }
        i = i + 1;
    }
    proof {
        let all = segments(args.offsets@, args.offsets@.len() - 1);
        assert forall|i: int| 0 <= i < launches@.len() implies {
            let l = #[trigger] launches@[i];
            let s = all[i];
            &&& l.query == args.query.address_3(s.0 as int, 0, 0)
            &&& l.key == args.key.address_3(s.0 as int, 0, 0)
            &&& l.value == args.value.address_3(s.0 as int, 0, 0)
            &&& l.output == args.out.address_3(s.0 as int, 0, 0)
            &&& l.query_tokens == s.1 - s.0
            &&& l.key_tokens == s.1 - s.0
            &&& l.key_capacity == s.1 - s.0
            &&& l.query_heads == args.query.extents()[1] as i64
            &&& l.kv_heads == args.query.extents()[1] as i64
            &&& l.head_dim == args.query.extents()[2] as i64
            &&& l.batch == 1
            &&& l.query_start == 0
            &&& l.mask is Unmasked
            &&& l.scale == args.scale
            &&& l.dtype == args.query.dtype
            &&& l.stream == ctx.stream.handle
        } by {
            law_segments_read_their_own_tokens(ctx, &args, i);
        }
    }
    begin_launch(thread, ctx, launches, args.policy)
}

/// `list` runs from token 0 to `end` without gap or overlap, and none of its
/// segments is empty.
pub open spec fn tiles(list: Seq<(u32, u32)>, end: int) -> bool {
    &&& list.len() == 0 ==> end == 0
    &&& list.len() > 0 ==> list[0].0 == 0 && list[list.len() - 1].1 == end
    &&& forall|i: int| 0 <= i < list.len() ==> (#[trigger] list[i]).0 < list[i].1
    &&& forall|i: int| 0 <= i < list.len() - 1 ==> (#[trigger] list[i]).1 == list[i + 1].0
}

proof fn lemma_segments_tile(offsets: Seq<u32>, tokens: usize, count: int)
    requires
        spans(offsets, tokens),
        0 <= count < offsets.len(),
    ensures
        tiles(segments(offsets, count), offsets[count] as int),
    decreases count,
{
    if count > 0 {
        lemma_segments_tile(offsets, tokens, count - 1);
        let before = segments(offsets, count - 1);
        let after = segments(offsets, count);
        assert(offsets[count - 1] <= offsets[count - 1 + 1]);
        if offsets[count - 1] < offsets[count] {
            assert forall|i: int| 0 <= i < after.len() - 1 implies (#[trigger] after[i]).1 == after[i
                + 1].0 by {
                if i < before.len() - 1 {
                    assert(after[i] == before[i]);
                    assert(before[i].1 == before[i + 1].0);
                }
            }
        }
    }
}

/// The launched segments partition the tokens: they start at the first token,
/// end after the last, follow each other without gap or overlap, and none is
/// empty.
pub proof fn law_segments_partition_the_tokens(offsets: Seq<u32>, tokens: usize)
    requires
        spans(offsets, tokens),
    ensures
        tiles(segments(offsets, offsets.len() - 1), tokens as int),
{
    lemma_segments_tile(offsets, tokens, offsets.len() - 1);
}

/// A segment's tokens stay inside the tensors that were accepted, and the
/// next segment's memory starts where this one's ends.
pub proof fn law_segments_stay_inside_their_tensors(
    ctx: &CudaContext,
    r: &SegmentedAttentionArgs<'_>,
    i: int,
)
    requires
        segmented_rejection(ctx.device_id, r) is None,
        0 <= i < segments(r.offsets@, r.offsets@.len() - 1).len(),
        crate::ops::binding::bound_range(r.query).ptr + crate::ops::binding::bound_range(r.query).len <= usize::MAX,
    ensures
        ({
            let all = segments(r.offsets@, r.offsets@.len() - 1);
            let launch = segment_launch(ctx, r, all[i]);
            let bytes = (all[i].1 - all[i].0) * row_bytes(r);
            &&& crate::ops::binding::bound_range(r.query).ptr <= launch.query
            &&& launch.query + bytes <= crate::ops::binding::bound_range(r.query).ptr + crate::ops::binding::bound_range(r.query).len
            &&& i + 1 < all.len() ==> segment_launch(ctx, r, all[i + 1]).query == launch.query
                + bytes
        }),
{
    let shape = r.query.extents();
    let tokens = shape[0];
    let all = segments(r.offsets@, r.offsets@.len() - 1);
    law_segments_partition_the_tokens(r.offsets@, tokens);
    lemma_tiles_bounded(all, tokens as int, i);
    let row = row_bytes(r);
    assert(shape =~= seq![shape[0], shape[1], shape[2]]);
    crate::shape::lemma_product_3(shape[0], shape[1], shape[2]);
    let size = r.query.dtype.size();
    assert((shape[0] * shape[1] * shape[2]) * size == shape[0] * ((shape[1] * shape[2]) * size))
        by (nonlinear_arith);
    let a = all[i].0 as int;
    let b = all[i].1 as int;
    assert(0 <= row) by (nonlinear_arith)
        requires
            row == (shape[1] * shape[2]) * size,
    ;
    assert(0 <= a * row && a * row + (b - a) * row == b * row && b * row <= tokens * row)
        by (nonlinear_arith)
        requires
            0 <= a <= b <= tokens,
            0 <= row,
    ;
    if i + 1 < all.len() {
        assert(all[i].1 == all[i + 1].0);
    }
}

proof fn lemma_tiles_bounded(list: Seq<(u32, u32)>, end: int, i: int)
    requires
        tiles(list, end),
        0 <= i < list.len(),
    ensures
        list[i].0 < list[i].1 <= end,
    decreases list.len() - i,
{
    if i < list.len() - 1 {
        lemma_tiles_bounded(list, end, i + 1);
        assert(list[i].1 == list[i + 1].0);
    }
}

/// An attention over a cache is accepted exactly when its operands fit
/// together and its queries lie within the valid keys, and then its kernel
/// finds each operand in its own role, the keys as keys and the values as
/// values, of the extents it is told.
pub proof fn law_cache_attention_reads_each_operand_in_its_role(
    thread: &ThreadState,
    ctx: &CudaContext,
    args: &KvCacheAttentionArgs<'_>,
    result: Result<PendingLaunch<AttentionLaunch>, Error>,
)
    requires
        kv_attention_outcome(thread, ctx, args, result),
    ensures
        kv_attention_rejection(ctx.device_id, args) is None <==> {
            &&& args.query.extents().len() == 4 && args.key_cache.extents().len() == 4
            &&& forall|i: int| 0 <= i < 4 ==> #[trigger] args.query.extents()[i] > 0
            &&& forall|i: int| 0 <= i < 4 ==> #[trigger] args.key_cache.extents()[i] > 0
            &&& args.query.dtype == DType::F16 || args.query.dtype == DType::BF16
            &&& args.query.extents()[2] % args.key_cache.extents()[2] == 0
            &&& args.scale.usable()
            &&& 0 < args.valid_key_tokens <= args.key_cache.extents()[1]
            &&& args.mask is Causal ==> args.query_start + args.query.extents()[1] <= args.valid_key_tokens
            &&& args.key_cache.extents()[0] == args.query.extents()[0]
            &&& args.key_cache.extents()[3] == args.query.extents()[3]
            &&& args.query.holds(ctx.device_id, args.query.dtype, args.query.extents())
            &&& args.key_cache.holds(ctx.device_id, args.query.dtype, args.key_cache.extents())
            &&& args.value_cache.holds(ctx.device_id, args.query.dtype, args.key_cache.extents())
            &&& args.out.holds(ctx.device_id, args.query.dtype, args.query.extents())
        },
        result is Ok <==> kv_attention_rejection(ctx.device_id, args) is None && thread@.target_rejection(ctx.device_id, ctx.stream.handle) is None,
        result matches Ok(p) ==> {
            &&& p.launch.dtype == args.query.dtype
            &&& args.query.packed_at(ctx.device_id, p.launch.query, p.launch.dtype, seq![p.launch.batch, p.launch.query_tokens, p.launch.query_heads, p.launch.head_dim])
            &&& args.key_cache.packed_at(ctx.device_id, p.launch.key, p.launch.dtype, seq![p.launch.batch, p.launch.key_capacity, p.launch.kv_heads, p.launch.head_dim])
            &&& args.value_cache.packed_at(ctx.device_id, p.launch.value, p.launch.dtype, seq![p.launch.batch, p.launch.key_capacity, p.launch.kv_heads, p.launch.head_dim])
            &&& args.out.packed_at(ctx.device_id, p.launch.output, p.launch.dtype, seq![p.launch.batch, p.launch.query_tokens, p.launch.query_heads, p.launch.head_dim])
            &&& p.launch.mask == args.mask
            &&& p.launch.scale == args.scale
            &&& p.launch.key_tokens == args.valid_key_tokens as i64
            &&& p.launch.query_start == args.query_start as i64
            &&& p.policy == args.policy
            &&& p.stream == ctx.stream
            &&& p.runtime == ctx.runtime
            &&& p.launch.stream == ctx.stream.handle
        },
{
    let q = args.query.extents();
    let k = args.key_cache.extents();
    assert(q.len() == 4 ==> q =~= seq![q[0], q[1], q[2], q[3]]);
    assert(k.len() == 4 ==> k =~= seq![k[0], k[1], k[2], k[3]]);
    assert(k.len() == 4 && k[0] == q[0] && k[3] == q[3] ==> k =~= seq![q[0], k[1], k[2], q[3]]);
}

/// A dense attention reads every key it is given, the queries as the last
/// positions, each operand in its own role.
pub proof fn law_dense_attention_reads_each_operand_in_its_role(
    thread: &ThreadState,
    ctx: &CudaContext,
    args: AttentionArgs<'_>,
    result: Result<PendingLaunch<AttentionLaunch>, Error>,
)
    requires
        kv_attention_outcome(thread, ctx, &args.over_cache(), result),
    ensures
        result matches Ok(p) ==> {
            &&& p.launch.dtype == args.query.dtype
            &&& args.query.packed_at(ctx.device_id, p.launch.query, p.launch.dtype, seq![p.launch.batch, p.launch.query_tokens, p.launch.query_heads, p.launch.head_dim])
            &&& args.key.packed_at(ctx.device_id, p.launch.key, p.launch.dtype, seq![p.launch.batch, p.launch.key_capacity, p.launch.kv_heads, p.launch.head_dim])
            &&& args.value.packed_at(ctx.device_id, p.launch.value, p.launch.dtype, seq![p.launch.batch, p.launch.key_capacity, p.launch.kv_heads, p.launch.head_dim])
            &&& args.out.packed_at(ctx.device_id, p.launch.output, p.launch.dtype, seq![p.launch.batch, p.launch.query_tokens, p.launch.query_heads, p.launch.head_dim])
            &&& p.launch.mask == args.mask
            &&& p.launch.scale == args.scale
            &&& p.launch.key_tokens == p.launch.key_capacity
            &&& args.query.extents()[1] <= args.key.extents()[1] ==> p.launch.query_start == (args.key.extents()[1] - args.query.extents()[1]) as i64
            &&& args.query.extents()[1] > args.key.extents()[1] ==> p.launch.query_start == 0
            &&& p.policy == args.policy
            &&& p.stream == ctx.stream
            &&& p.runtime == ctx.runtime
            &&& p.launch.stream == ctx.stream.handle
        },
{
}

/// A factor is usable exactly when it is finite and positive, and the default
/// is that of the query's innermost extent.
pub proof fn law_scales_are_finite_and_positive(scale: AttentionScale, query: &Tensor, axis: int)
    ensures
        scale matches AttentionScale::Explicit(value) ==> (scale.usable() <==> 0 < value.bits < 0x7f80_0000),
        scale matches AttentionScale::InverseSqrt { head_dim } ==> (scale.usable() <==> head_dim > 0),
        0 <= axis < query.extents().len() ==> default_scale(query, axis) == (AttentionScale::InverseSqrt {
            head_dim: query.extents()[axis],
        }),
{
}

/// The launch of a segment works on exactly the tokens of that segment: its
/// rows of the queries, of the keys, of the values and of the output.
pub proof fn law_segments_read_their_own_tokens(
    ctx: &CudaContext,
    args: &SegmentedAttentionArgs<'_>,
    i: int,
)
    requires
        segmented_rejection(ctx.device_id, args) is None,
        0 <= i < segments(args.offsets@, args.offsets@.len() - 1).len(),
        crate::ops::binding::bound_range(args.query).ptr + crate::ops::binding::bound_range(args.query).len <= usize::MAX,
        crate::ops::binding::bound_range(args.key).ptr + crate::ops::binding::bound_range(args.key).len <= usize::MAX,
        crate::ops::binding::bound_range(args.value).ptr + crate::ops::binding::bound_range(args.value).len <= usize::MAX,
        crate::ops::binding::bound_range(args.out).ptr + crate::ops::binding::bound_range(args.out).len <= usize::MAX,
    ensures
        ({
            let s = segments(args.offsets@, args.offsets@.len() - 1)[i];
            let l = segment_launch(ctx, args, s);
            &&& args.query.holds(ctx.device_id, args.query.dtype, args.query.extents())
            &&& args.key.holds(ctx.device_id, args.query.dtype, args.query.extents())
            &&& args.value.holds(ctx.device_id, args.query.dtype, args.query.extents())
            &&& args.out.holds(ctx.device_id, args.query.dtype, args.query.extents())
            &&& l.query == args.query.address_3(s.0 as int, 0, 0)
            &&& l.key == args.key.address_3(s.0 as int, 0, 0)
            &&& l.value == args.value.address_3(s.0 as int, 0, 0)
            &&& l.output == args.out.address_3(s.0 as int, 0, 0)
            &&& l.query_tokens == s.1 - s.0
            &&& l.key_tokens == s.1 - s.0
            &&& l.key_capacity == s.1 - s.0
            &&& l.query_heads == args.query.extents()[1] as i64
            &&& l.kv_heads == args.query.extents()[1] as i64
            &&& l.head_dim == args.query.extents()[2] as i64
            &&& l.batch == 1
            &&& l.query_start == 0
            &&& l.mask is Unmasked
            &&& l.scale == args.scale
            &&& l.dtype == args.query.dtype
            &&& l.stream == ctx.stream.handle
        }),
{
    let shape = args.query.extents();
    let tokens = shape[0];
    let all = segments(args.offsets@, args.offsets@.len() - 1);
    law_segments_partition_the_tokens(args.offsets@, tokens);
    lemma_tiles_bounded(all, tokens as int, i);
    lemma_row_offset(shape, args.query.dtype.size() as int, all[i].0 as int);
}

proof fn lemma_row_offset(shape: Seq<usize>, size: int, a: int)
    requires
        shape.len() == 3,
        1 <= size,
        0 <= a <= shape[0],
    ensures
        0 <= a * ((shape[1] * shape[2]) * size) <= crate::shape::product(shape) * size,
        ((a * shape[1] + 0) * shape[2] + 0) * size == a * ((shape[1] * shape[2]) * size),
{
    let (x, y, z) = (shape[0], shape[1], shape[2]);
    assert(shape =~= seq![x, y, z]);
    crate::shape::lemma_product_3(x, y, z);
    lemma_row_arithmetic(x as int, y as int, z as int, size, a);
}

proof fn lemma_row_arithmetic(x: int, y: int, z: int, size: int, a: int)
    requires
        0 <= y,
        0 <= z,
        1 <= size,
        0 <= a <= x,
    ensures
        0 <= a * ((y * z) * size) <= (x * y * z) * size,
        ((a * y + 0) * z + 0) * size == a * ((y * z) * size),
{
    assert(0 <= (y * z) * size) by (nonlinear_arith)
        requires
            0 <= y,
            0 <= z,
            1 <= size,
    ;
    assert(0 <= a * ((y * z) * size) <= x * ((y * z) * size)) by (nonlinear_arith)
        requires
            0 <= (y * z) * size,
            0 <= a <= x,
    ;
    assert(x * ((y * z) * size) == (x * y * z) * size) by (nonlinear_arith);
    assert(((a * y + 0) * z + 0) * size == a * ((y * z) * size)) by (nonlinear_arith);
}

/// The launched segments are exactly the non-empty ones that two neighbouring
/// offsets delimit.
pub proof fn law_segments_are_delimited_by_neighbouring_offsets(offsets: Seq<u32>, count: int)
    requires
        0 <= count < offsets.len(),
    ensures
        forall|i: int|
            0 <= i < segments(offsets, count).len() ==> exists|j: int|
                0 <= j < count && #[trigger] segments(offsets, count)[i] == (#[trigger] offsets[j], offsets[j + 1]),
        forall|j: int|
            0 <= j < count && #[trigger] offsets[j] < offsets[j + 1] ==> segments(offsets, count).contains(
                (offsets[j], offsets[j + 1]),
            ),
        segments(offsets, count).len() <= count,
    decreases count,
{
    if count > 0 {
        law_segments_are_delimited_by_neighbouring_offsets(offsets, count - 1);
        let before = segments(offsets, count - 1);
        let after = segments(offsets, count);
        assert forall|i: int| 0 <= i < after.len() implies exists|j: int|
            0 <= j < count && #[trigger] after[i] == (#[trigger] offsets[j], offsets[j + 1]) by {
            if i < before.len() {
                assert(after[i] == before[i]);
                let j = choose|j: int|
                    0 <= j < count - 1 && before[i] == (#[trigger] offsets[j], offsets[j + 1]);
                assert(after[i] == (offsets[j], offsets[j + 1]));
            } else {
                assert(after[i] == (offsets[count - 1], offsets[count - 1 + 1]));
            }
        }
        assert forall|j: int| 0 <= j < count && #[trigger] offsets[j] < offsets[j + 1] implies after.contains(
            (offsets[j], offsets[j + 1]),
        ) by {
            if j < count - 1 {
                assert(before.contains((offsets[j], offsets[j + 1])));
                let i = choose|i: int| 0 <= i < before.len() && before[i] == (offsets[j], offsets[j + 1]);
                assert(after[i] == before[i]);
            } else {
                assert(after[after.len() - 1] == (offsets[j], offsets[j + 1]));
            }
        }
    }
}

/// Queries that are trailing positions end with the last key.
pub proof fn law_trailing_queries_end_with_the_last_key(keys: usize, queries: usize, tensor: &Tensor, axis: int)
    ensures
        queries <= keys ==> trailing_start(keys, queries) + queries == keys,
        queries > keys ==> trailing_start(keys, queries) == 0,
        0 <= axis < tensor.extents().len() ==> extent_or_zero(tensor, axis) == tensor.extents()[axis],
        axis >= tensor.extents().len() ==> extent_or_zero(tensor, axis) == 0,
{
}

} // verus!
