//! Splitting a packed QKV projection, with or without rotary embedding.
use vstd::prelude::*;

use crate::buffer::CudaBuffer;
use crate::context::CudaContext;
use crate::dtype::DType;
use crate::error::Error;
use crate::ops::binding::{
    dims_1, dims_2, dims_3, optional_address, optional_storage, tensor_storage,
};
use crate::ops::launch::{begin_launch, LaunchPolicy, PendingLaunch};
use crate::scalar::F32Bits;
use crate::tensor::Tensor;
use crate::workspace::ThreadState;

verus! {

/// What a split computes.
#[derive(Clone, Copy, Debug, PartialEq, Eq, Structural)]
pub enum RopeSemantic {
    /// Split, and rotate queries and keys by their positions.
    SplitQkvRope,
    /// Split, and add a bias.
    SplitQkvBias,
}

/// A split of rows `[q_heads | kv_heads | kv_heads] * head_dim`.
#[derive(Debug)]
pub struct RopeArgs<'a> {
    pub semantic: RopeSemantic,
    pub qkv: &'a Tensor,
    pub bias: Option<&'a Tensor>,
    pub q: &'a Tensor,
    pub k: &'a Tensor,
    pub v: &'a Tensor,
    pub q_heads: usize,
    pub kv_heads: usize,
    pub head_dim: usize,
    pub theta: F32Bits,
    /// Position of the first token.
    pub position_offset: usize,
    /// Row of `k` and `v` that takes the first token.
    pub kv_output_offset: usize,
}

/// The native launch of a split.
#[derive(Clone, Copy, Debug, PartialEq, Eq, Structural)]
pub struct RopeLaunch {
    pub semantic: RopeSemantic,
    pub dtype: DType,
    pub tokens: i64,
    pub q_heads: i64,
    pub kv_heads: i64,
    pub head_dim: i64,
    pub theta: F32Bits,
    pub position_offset: i64,
    pub kv_output_offset: i64,
    pub qkv: usize,
    pub bias: usize,
    pub q: usize,
    pub k: usize,
    pub v: usize,
    pub stream: usize,
}

pub const ROPE_GEOMETRY_TEXT: &'static str = "RoPE head counts and head dimension must be non-zero";

pub const ROPE_WIDTH_TEXT: &'static str = "RoPE packed width overflow";

pub const ROPE_RANK_TEXT: &'static str =
    "RoPE takes a packed matrix and three-dimensional outputs";

pub const ROPE_TYPE_TEXT: &'static str = "RoPE supports F16 or BF16";

pub const ROPE_POSITION_TEXT: &'static str =
    "non-rotary QKV split does not take a position offset";

pub const ROPE_BIAS_TEXT: &'static str = "rotary QKV split does not take a bias";

pub const ROPE_DIM_TEXT: &'static str = "rotary head dimension must be even";

pub const ROPE_THETA_TEXT: &'static str = "RoPE theta must be finite and positive";

pub const ROPE_CAPACITY_TEXT: &'static str = "RoPE key and value outputs are too short";

/// Width of a packed row.
pub open spec fn packed_width(q_heads: usize, kv_heads: usize, head_dim: usize) -> int {
    (q_heads + 2 * kv_heads) * head_dim
}

/// Why a split is refused, if it is.
pub open spec fn rope_rejection(device: usize, r: &RopeArgs<'_>) -> Option<Error> {
    let tokens = r.qkv.extents()[0];
    let capacity = r.k.extents()[0];
    let t = r.qkv.dtype;
    let width = packed_width(r.q_heads, r.kv_heads, r.head_dim);
    if r.q_heads == 0 || r.kv_heads == 0 || r.head_dim == 0 {
        Some(Error::Other(ROPE_GEOMETRY_TEXT))
    } else if width > usize::MAX {
        Some(Error::Other(ROPE_WIDTH_TEXT))
    } else if r.qkv.extents().len() != 2 || r.k.extents().len() != 3 {
        Some(Error::Other(ROPE_RANK_TEXT))
    } else if !t.half() {
        Some(Error::Other(ROPE_TYPE_TEXT))
    } else if r.semantic == RopeSemantic::SplitQkvBias && r.position_offset != 0 {
        Some(Error::Other(ROPE_POSITION_TEXT))
    } else if r.semantic == RopeSemantic::SplitQkvRope && r.bias is Some {
        Some(Error::Other(ROPE_BIAS_TEXT))
    } else if r.semantic == RopeSemantic::SplitQkvRope && r.head_dim % 2 != 0 {
        Some(Error::Other(ROPE_DIM_TEXT))
    } else if r.semantic == RopeSemantic::SplitQkvRope && !r.theta.usable() {
        Some(Error::Other(ROPE_THETA_TEXT))
    } else if r.kv_output_offset + tokens > capacity {
        Some(Error::Other(ROPE_CAPACITY_TEXT))
    } else {
        crate::ops::binding::first(
            crate::ops::binding::operand_rejection(device, r.qkv, t, seq![tokens, width as usize]),
            crate::ops::binding::first(
                crate::ops::binding::optional_rejection(device, r.bias, t, seq![width as usize]),
                crate::ops::binding::first(
                    crate::ops::binding::operand_rejection(device, r.q, t, seq![tokens, r.q_heads, r.head_dim]),
                    crate::ops::binding::first(
                        crate::ops::binding::operand_rejection(device, r.k, t, seq![capacity, r.kv_heads, r.head_dim]),
                        crate::ops::binding::operand_rejection(device, r.v, t, seq![capacity, r.kv_heads, r.head_dim]),
                    ),
                ),
            ),
        )
    }
}

/// The launch of an accepted request.
pub open spec fn rope_launch(ctx: &CudaContext, r: &RopeArgs<'_>) -> RopeLaunch {
    RopeLaunch {
        semantic: r.semantic,
        dtype: r.qkv.dtype,
        tokens: r.qkv.extents()[0] as i64,
        q_heads: r.q_heads as i64,
        kv_heads: r.kv_heads as i64,
        head_dim: r.head_dim as i64,
        theta: r.theta,
        position_offset: r.position_offset as i64,
        kv_output_offset: r.kv_output_offset as i64,
        qkv: crate::ops::binding::bound_range(r.qkv).ptr,
        bias: crate::ops::binding::optional_ptr(r.bias),
        q: crate::ops::binding::bound_range(r.q).ptr,
        k: crate::ops::binding::bound_range(r.k).ptr,
        v: crate::ops::binding::bound_range(r.v).ptr,
        stream: ctx.stream.handle,
    }
}

/// `result` is what a split request comes to.
pub open spec fn rope_outcome(
    thread: &ThreadState,
    ctx: &CudaContext,
    r: &RopeArgs<'_>,
    result: Result<PendingLaunch<RopeLaunch>, Error>,
) -> bool {
    match rope_rejection(ctx.device_id, r) {
        Some(e) => result == Err::<PendingLaunch<RopeLaunch>, Error>(e),
        None => crate::ops::launch::becomes_pending(
            thread,
            ctx,
            rope_launch(ctx, r),
            crate::ops::launch::default_launch_policy(),
            result,
        ),
    }
}

fn packed_columns(q_heads: usize, kv_heads: usize, head_dim: usize) -> (width: Option<usize>)
    requires
        head_dim >= 1,
    ensures
        match width {
            Some(w) => w == packed_width(q_heads, kv_heads, head_dim),
            None => packed_width(q_heads, kv_heads, head_dim) > usize::MAX,
        },
{
    let ghost total = q_heads + 2 * kv_heads;
    assert(total > usize::MAX ==> total * head_dim > usize::MAX) by (nonlinear_arith)
        requires
            head_dim >= 1,
            total >= 0,
    ;
    match kv_heads.checked_mul(2) {
        Some(pair) => match q_heads.checked_add(pair) {
            Some(heads) => heads.checked_mul(head_dim),
            None => None,
        },
        None => None,
    }
}

/// Starts a split of a packed QKV projection.
pub fn rope(thread: &ThreadState, ctx: &CudaContext, args: RopeArgs<'_>) -> (result: Result<
    PendingLaunch<RopeLaunch>,
    Error,
>)
    ensures
        rope_outcome(thread, ctx, &args, result),
        result matches Ok(p) ==> {
            &&& p.launch.semantic == args.semantic
            &&& p.launch.dtype == args.qkv.dtype
            &&& p.launch.theta == args.theta
            &&& p.launch.position_offset == args.position_offset as i64
            &&& p.launch.kv_output_offset == args.kv_output_offset as i64
            &&& p.launch.q_heads == args.q_heads as i64
            &&& p.launch.kv_heads == args.kv_heads as i64
            &&& p.launch.head_dim == args.head_dim as i64
            &&& args.qkv.starts_at(ctx.device_id, p.launch.qkv)
            &&& args.qkv.holds(ctx.device_id, args.qkv.dtype, args.qkv.extents())
            &&& args.qkv.extents()[0] as i64 == p.launch.tokens
            &&& args.qkv.extents()[1] == (args.q_heads + args.kv_heads + args.kv_heads) * args.head_dim
            &&& args.q.packed_at(ctx.device_id, p.launch.q, args.qkv.dtype, seq![p.launch.tokens, p.launch.q_heads, p.launch.head_dim])
            &&& args.k.packed_at(ctx.device_id, p.launch.k, args.qkv.dtype, seq![args.k.extents()[0] as i64, p.launch.kv_heads, p.launch.head_dim])
            &&& args.v.packed_at(ctx.device_id, p.launch.v, args.qkv.dtype, seq![args.k.extents()[0] as i64, p.launch.kv_heads, p.launch.head_dim])
            &&& args.kv_output_offset + args.qkv.extents()[0] <= args.k.extents()[0]
            &&& args.bias matches Some(t) ==> t.starts_at(ctx.device_id, p.launch.bias) && t.holds(ctx.device_id, args.qkv.dtype, seq![args.qkv.extents()[1]])
            &&& args.bias is None ==> p.launch.bias == 0
            &&& p.stream == ctx.stream
            &&& p.runtime == ctx.runtime
            &&& p.launch.stream == ctx.stream.handle
        },
{
    assert((args.q_heads + args.kv_heads + args.kv_heads) * args.head_dim == (args.q_heads + 2 * args.kv_heads) * args.head_dim)
        by (nonlinear_arith);
    if args.q_heads == 0 || args.kv_heads == 0 || args.head_dim == 0 {
        return Err(Error::Other(ROPE_GEOMETRY_TEXT));
    }
    let width: usize = match packed_columns(args.q_heads, args.kv_heads, args.head_dim) {
        Some(width) => width,
        None => {
            return Err(Error::Other(ROPE_WIDTH_TEXT));
        },
    };
    let dims: &Vec<usize> = args.qkv.shape.dims();
    let k_dims: &Vec<usize> = args.k.shape.dims();
    if dims.len() != 2 || k_dims.len() != 3 {
        return Err(Error::Other(ROPE_RANK_TEXT));
    }
    let tokens: usize = dims[0];
    let capacity: usize = k_dims[0];
    let t: DType = args.qkv.dtype;
    if !t.is_half() {
        return Err(Error::Other(ROPE_TYPE_TEXT));
    }
    let rotary: bool = args.semantic == RopeSemantic::SplitQkvRope;
    if !rotary && args.position_offset != 0 {
        return Err(Error::Other(ROPE_POSITION_TEXT));
    }
    if rotary && args.bias.is_some() {
        return Err(Error::Other(ROPE_BIAS_TEXT));
    }
    if rotary && args.head_dim % 2 != 0 {
        return Err(Error::Other(ROPE_DIM_TEXT));
    }
    if rotary && !args.theta.is_finite_positive() {
        return Err(Error::Other(ROPE_THETA_TEXT));
    }
    if args.kv_output_offset > capacity || tokens > capacity - args.kv_output_offset {
        return Err(Error::Other(ROPE_CAPACITY_TEXT));
    }
    let qkv: CudaBuffer = tensor_storage(ctx, args.qkv, t, &dims_2(tokens, width))?;
    let bias: Option<CudaBuffer> = optional_storage(ctx, args.bias, t, &dims_1(width))?;
    let q: CudaBuffer = tensor_storage(
        ctx,
        args.q,
        t,
        &dims_3(tokens, args.q_heads, args.head_dim),
    )?;
    let kv: Vec<usize> = dims_3(capacity, args.kv_heads, args.head_dim);
    let k: CudaBuffer = tensor_storage(ctx, args.k, t, &kv)?;
    let v: CudaBuffer = tensor_storage(ctx, args.v, t, &kv)?;
    let launch: RopeLaunch = RopeLaunch {
        semantic: args.semantic,
        dtype: t,
        tokens: tokens as i64,
        q_heads: args.q_heads as i64,
        kv_heads: args.kv_heads as i64,
        head_dim: args.head_dim as i64,
        theta: args.theta,
        position_offset: args.position_offset as i64,
        kv_output_offset: args.kv_output_offset as i64,
        qkv: qkv.ptr(),
        bias: optional_address(&bias),
        q: q.ptr(),
        k: k.ptr(),
        v: v.ptr(),
        stream: ctx.stream.handle,
    };
    begin_launch(thread, ctx, launch, LaunchPolicy::default())
}

/// A split is accepted exactly when its packed rows hold the queries, keys and
/// values of the heads it is told, and its outputs have room for them; then its
/// kernel finds each operand in its own role.
pub proof fn law_split_reads_each_operand_in_its_role(
    thread: &ThreadState,
    ctx: &CudaContext,
    args: &RopeArgs<'_>,
    result: Result<PendingLaunch<RopeLaunch>, Error>,
)
    requires
        rope_outcome(thread, ctx, args, result),
    ensures
        rope_rejection(ctx.device_id, args) is None <==> {
            &&& args.q_heads > 0 && args.kv_heads > 0 && args.head_dim > 0
            &&& ((args.q_heads + args.kv_heads + args.kv_heads) * args.head_dim) <= usize::MAX
            &&& args.qkv.extents().len() == 2
            &&& args.k.extents().len() == 3
            &&& args.qkv.dtype == DType::F16 || args.qkv.dtype == DType::BF16
            &&& (args.semantic is SplitQkvBias ==> args.position_offset == 0)
            &&& (args.semantic is SplitQkvRope ==> args.bias is None && args.head_dim % 2 == 0 && 0 < args.theta.bits < 0x7f80_0000)
            &&& args.kv_output_offset + args.qkv.extents()[0] <= args.k.extents()[0]
            &&& args.qkv.holds(ctx.device_id, args.qkv.dtype, seq![args.qkv.extents()[0], ((args.q_heads + args.kv_heads + args.kv_heads) * args.head_dim) as usize])
            &&& (args.bias matches Some(t) ==> t.holds(ctx.device_id, args.qkv.dtype, seq![((args.q_heads + args.kv_heads + args.kv_heads) * args.head_dim) as usize]))
            &&& args.q.holds(ctx.device_id, args.qkv.dtype, seq![args.qkv.extents()[0], args.q_heads, args.head_dim])
            &&& args.k.holds(ctx.device_id, args.qkv.dtype, seq![args.k.extents()[0], args.kv_heads, args.head_dim])
            &&& args.v.holds(ctx.device_id, args.qkv.dtype, seq![args.k.extents()[0], args.kv_heads, args.head_dim])
        },
        result is Ok <==> rope_rejection(ctx.device_id, args) is None && thread@.target_rejection(ctx.device_id, ctx.stream.handle) is None,
        result matches Ok(p) ==> {
            &&& p.launch.semantic == args.semantic
            &&& p.launch.dtype == args.qkv.dtype
            &&& p.launch.theta == args.theta
            &&& p.launch.position_offset == args.position_offset as i64
            &&& p.launch.kv_output_offset == args.kv_output_offset as i64
            &&& p.launch.q_heads == args.q_heads as i64
            &&& p.launch.kv_heads == args.kv_heads as i64
            &&& p.launch.head_dim == args.head_dim as i64
            &&& args.qkv.starts_at(ctx.device_id, p.launch.qkv)
            &&& args.qkv.holds(ctx.device_id, args.qkv.dtype, args.qkv.extents())
            &&& args.qkv.extents()[0] as i64 == p.launch.tokens
            &&& args.qkv.extents()[1] == (args.q_heads + args.kv_heads + args.kv_heads) * args.head_dim
            &&& args.q.packed_at(ctx.device_id, p.launch.q, args.qkv.dtype, seq![p.launch.tokens, p.launch.q_heads, p.launch.head_dim])
            &&& args.k.packed_at(ctx.device_id, p.launch.k, args.qkv.dtype, seq![args.k.extents()[0] as i64, p.launch.kv_heads, p.launch.head_dim])
            &&& args.v.packed_at(ctx.device_id, p.launch.v, args.qkv.dtype, seq![args.k.extents()[0] as i64, p.launch.kv_heads, p.launch.head_dim])
            &&& args.kv_output_offset + args.qkv.extents()[0] <= args.k.extents()[0]
            &&& args.bias matches Some(t) ==> t.starts_at(ctx.device_id, p.launch.bias) && t.holds(ctx.device_id, args.qkv.dtype, seq![args.qkv.extents()[1]])
            &&& args.bias is None ==> p.launch.bias == 0
            &&& p.stream == ctx.stream
            &&& p.runtime == ctx.runtime
            &&& p.launch.stream == ctx.stream.handle
        },
{
    assert((args.q_heads + args.kv_heads + args.kv_heads) * args.head_dim == (args.q_heads + 2 * args.kv_heads) * args.head_dim)
        by (nonlinear_arith);
}

} // verus!
