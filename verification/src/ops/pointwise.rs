//! Elementwise operators.
use vstd::prelude::*;

use crate::buffer::CudaBuffer;
use crate::context::CudaContext;
use crate::dtype::DType;
use crate::error::Error;
use crate::ops::binding::{dims_1, dims_2, optional_address, optional_storage, tensor_storage};
use crate::ops::launch::{begin_launch, LaunchPolicy, PendingLaunch};
use crate::scalar::F32Bits;
use crate::tensor::Tensor;
use crate::workspace::ThreadState;

verus! {

/// What a pointwise operator computes.
#[derive(Clone, Copy, Debug, PartialEq, Eq, Structural)]
pub enum PointwiseSemantic {
    /// `gelu(left half) * right half` of each row.
    Geglu,
    /// `activation(input + bias)`.
    BiasActivation,
    /// `input + dt * secondary`.
    EulerUpdate,
}

#[derive(Clone, Copy, Debug, PartialEq, Eq, Structural)]
pub enum PointwiseActivation {
    Identity,
    Gelu,
    Silu,
}

/// A pointwise request.
#[derive(Debug)]
pub struct PointwiseArgs<'a> {
    pub semantic: PointwiseSemantic,
    pub input: &'a Tensor,
    pub out: &'a Tensor,
    pub bias: Option<&'a Tensor>,
    /// The velocity of an Euler update.
    pub secondary: Option<&'a Tensor>,
    pub activation: PointwiseActivation,
    pub dt: F32Bits,
    pub policy: LaunchPolicy,
}

impl<'a> PointwiseArgs<'a> {
    pub fn new(semantic: PointwiseSemantic, input: &'a Tensor, out: &'a Tensor) -> (args: Self)
        ensures
            args == (PointwiseArgs {
                semantic,
                input,
                out,
                bias: None,
                secondary: None,
                activation: PointwiseActivation::Identity,
                dt: F32Bits { bits: 0 },
                policy: crate::ops::launch::default_launch_policy(),
            }),
            args.semantic == semantic,
            args.input == input,
            args.out == out,
    {
        PointwiseArgs {
            semantic,
            input,
            out,
            bias: None,
            secondary: None,
            activation: PointwiseActivation::Identity,
            dt: F32Bits { bits: 0 },
            policy: LaunchPolicy::default(),
        }
    }
}

/// The native launch of a pointwise operator.
#[derive(Clone, Copy, Debug, PartialEq, Eq, Structural)]
pub struct PointwiseLaunch {
    pub semantic: PointwiseSemantic,
    pub activation: PointwiseActivation,
    pub dtype: DType,
    pub rows: i64,
    pub cols: i64,
    pub dt: F32Bits,
    pub input: usize,
    pub bias: usize,
    pub secondary: usize,
    pub output: usize,
    pub stream: usize,
}

pub const POINTWISE_RANK_TEXT: &'static str = "pointwise input must be a non-empty matrix";

pub const POINTWISE_TYPE_TEXT: &'static str = "pointwise supports F16 or BF16";

pub const POINTWISE_BIAS_TEXT: &'static str = "this pointwise semantic takes no bias";

pub const POINTWISE_SECONDARY_TEXT: &'static str = "this pointwise semantic takes no velocity";

pub const POINTWISE_VELOCITY_TEXT: &'static str = "Euler update requires a velocity";

pub const POINTWISE_WIDTH_TEXT: &'static str = "GeGLU needs an even number of columns";

/// Columns of the output.
pub open spec fn pointwise_columns(semantic: PointwiseSemantic, cols: usize) -> usize {
    if semantic == PointwiseSemantic::Geglu {
        cols / 2
    } else {
        cols
    }
}

/// Why a pointwise request is refused, if it is: the rank or type of its
/// input, an operand its semantic misses or does not take, or an operand that
/// does not fit.
pub open spec fn pointwise_rejection(device: usize, r: &PointwiseArgs<'_>) -> Option<Error> {
    let rows = r.input.extents()[0];
    let cols = r.input.extents()[1];
    let t = r.input.dtype;
    if r.input.extents().len() != 2 || rows == 0 || cols == 0 {
        Some(Error::Other(POINTWISE_RANK_TEXT))
    } else if !t.half() {
        Some(Error::Other(POINTWISE_TYPE_TEXT))
    } else if r.semantic != PointwiseSemantic::BiasActivation && r.bias is Some {
        Some(Error::Other(POINTWISE_BIAS_TEXT))
    } else if r.semantic != PointwiseSemantic::EulerUpdate && r.secondary is Some {
        Some(Error::Other(POINTWISE_SECONDARY_TEXT))
    } else if r.semantic == PointwiseSemantic::EulerUpdate && r.secondary is None {
        Some(Error::Other(POINTWISE_VELOCITY_TEXT))
    } else if r.semantic == PointwiseSemantic::Geglu && cols % 2 != 0 {
        Some(Error::Other(POINTWISE_WIDTH_TEXT))
    } else {
        crate::ops::binding::first(
            crate::ops::binding::operand_rejection(device, r.input, t, seq![rows, cols]),
            crate::ops::binding::first(
                crate::ops::binding::optional_rejection(device, r.bias, t, seq![cols]),
                crate::ops::binding::first(
                    crate::ops::binding::optional_rejection(device, r.secondary, t, seq![rows, cols]),
                    crate::ops::binding::operand_rejection(
                        device,
                        r.out,
                        t,
                        seq![rows, pointwise_columns(r.semantic, cols)],
                    ),
                ),
            ),
        )
    }
}

/// The launch of an accepted request.
pub open spec fn pointwise_launch(ctx: &CudaContext, r: &PointwiseArgs<'_>) -> PointwiseLaunch {
    PointwiseLaunch {
        semantic: r.semantic,
        activation: r.activation,
        dtype: r.input.dtype,
        rows: r.input.extents()[0] as i64,
        cols: pointwise_columns(r.semantic, r.input.extents()[1]) as i64,
        dt: r.dt,
        input: crate::ops::binding::bound_range(r.input).ptr,
        bias: crate::ops::binding::optional_ptr(r.bias),
        secondary: crate::ops::binding::optional_ptr(r.secondary),
        output: crate::ops::binding::bound_range(r.out).ptr,
        stream: ctx.stream.handle,
    }
}

/// `result` is what a pointwise request comes to.
pub open spec fn pointwise_outcome(
    thread: &ThreadState,
    ctx: &CudaContext,
    r: &PointwiseArgs<'_>,
    result: Result<PendingLaunch<PointwiseLaunch>, Error>,
) -> bool {
    match pointwise_rejection(ctx.device_id, r) {
        Some(e) => result == Err::<PendingLaunch<PointwiseLaunch>, Error>(e),
        None => crate::ops::launch::becomes_pending(thread, ctx, pointwise_launch(ctx, r), r.policy, result),
    }
}

/// Starts a pointwise operator.
pub fn pointwise(thread: &ThreadState, ctx: &CudaContext, args: PointwiseArgs<'_>) -> (result:
    Result<PendingLaunch<PointwiseLaunch>, Error>)
    ensures
        pointwise_outcome(thread, ctx, &args, result),
        result matches Ok(p) ==> {
            &&& p.launch.semantic == args.semantic
            &&& p.launch.activation == args.activation
            &&& p.launch.dt == args.dt
            &&& p.launch.dtype == args.input.dtype
            &&& args.input.starts_at(ctx.device_id, p.launch.input)
            &&& args.input.holds(ctx.device_id, p.launch.dtype, seq![args.input.extents()[0], args.input.extents()[1]])
            &&& args.out.packed_at(ctx.device_id, p.launch.output, p.launch.dtype, seq![p.launch.rows, p.launch.cols])
            &&& p.launch.rows == args.input.extents()[0] as i64
            &&& args.semantic == PointwiseSemantic::Geglu ==> args.input.extents()[1] == 2 * args.out.extents()[1]
            &&& args.semantic != PointwiseSemantic::Geglu ==> args.input.extents()[1] == args.out.extents()[1]
            &&& args.bias matches Some(t) ==> t.packed_at(ctx.device_id, p.launch.bias, p.launch.dtype, seq![p.launch.cols])
            &&& args.bias is None ==> p.launch.bias == 0
            &&& args.secondary matches Some(t) ==> t.packed_at(ctx.device_id, p.launch.secondary, p.launch.dtype, seq![p.launch.rows, p.launch.cols])
            &&& args.secondary is None ==> p.launch.secondary == 0
            &&& args.secondary is Some <==> args.semantic == PointwiseSemantic::EulerUpdate
            &&& args.bias is Some ==> args.semantic == PointwiseSemantic::BiasActivation
            &&& p.policy == args.policy
            &&& p.stream == ctx.stream
            &&& p.runtime == ctx.runtime
            &&& p.launch.stream == ctx.stream.handle
        },
{
    let dims: &Vec<usize> = args.input.shape.dims();
    if dims.len() != 2 || dims[0] == 0 || dims[1] == 0 {
        return Err(Error::Other(POINTWISE_RANK_TEXT));
    }
    let rows: usize = dims[0];
    let cols: usize = dims[1];
    let t: DType = args.input.dtype;
    if !t.is_half() {
        return Err(Error::Other(POINTWISE_TYPE_TEXT));
    }
    if args.semantic != PointwiseSemantic::BiasActivation && args.bias.is_some() {
        return Err(Error::Other(POINTWISE_BIAS_TEXT));
    }
    if args.semantic != PointwiseSemantic::EulerUpdate && args.secondary.is_some() {
        return Err(Error::Other(POINTWISE_SECONDARY_TEXT));
    }
    if args.semantic == PointwiseSemantic::EulerUpdate && args.secondary.is_none() {
        return Err(Error::Other(POINTWISE_VELOCITY_TEXT));
    }
    if args.semantic == PointwiseSemantic::Geglu && cols % 2 != 0 {
        return Err(Error::Other(POINTWISE_WIDTH_TEXT));
    }
    let width: usize = if args.semantic == PointwiseSemantic::Geglu {
        cols / 2
    } else {
        cols
    };
    let input: CudaBuffer = tensor_storage(ctx, args.input, t, &dims_2(rows, cols))?;
    let bias: Option<CudaBuffer> = optional_storage(ctx, args.bias, t, &dims_1(cols))?;
    let secondary: Option<CudaBuffer> = optional_storage(
        ctx,
        args.secondary,
        t,
        &dims_2(rows, cols),
    )?;
    let output: CudaBuffer = tensor_storage(ctx, args.out, t, &dims_2(rows, width))?;
    let launch: PointwiseLaunch = PointwiseLaunch {
        semantic: args.semantic,
        activation: args.activation,
        dtype: t,
        rows: rows as i64,
        cols: width as i64,
        dt: args.dt,
        input: input.ptr(),
        bias: optional_address(&bias),
        secondary: optional_address(&secondary),
        output: output.ptr(),
        stream: ctx.stream.handle,
    };
    begin_launch(thread, ctx, launch, args.policy)
}

/// A pointwise operator is accepted exactly when its operands fit its semantic
/// and each other, and then its kernel computes that semantic and finds each
/// operand in its own role.
pub proof fn law_pointwise_reads_each_operand_in_its_role(
    thread: &ThreadState,
    ctx: &CudaContext,
    args: &PointwiseArgs<'_>,
    result: Result<PendingLaunch<PointwiseLaunch>, Error>,
)
    requires
        pointwise_outcome(thread, ctx, args, result),
    ensures
        pointwise_rejection(ctx.device_id, args) is None <==> {
            &&& args.input.extents().len() == 2
            &&& args.input.extents()[0] > 0
            &&& args.input.extents()[1] > 0
            &&& args.input.dtype == DType::F16 || args.input.dtype == DType::BF16
            &&& args.bias is Some ==> args.semantic is BiasActivation
            &&& args.secondary is Some <==> args.semantic is EulerUpdate
            &&& args.semantic is Geglu ==> args.input.extents()[1] % 2 == 0
            &&& args.input.holds(ctx.device_id, args.input.dtype, args.input.extents())
            &&& (args.bias matches Some(t) ==> t.holds(ctx.device_id, args.input.dtype, seq![args.input.extents()[1]]))
            &&& (args.secondary matches Some(t) ==> t.holds(ctx.device_id, args.input.dtype, args.input.extents()))
            &&& args.out.holds(ctx.device_id, args.input.dtype, seq![args.input.extents()[0], (if args.semantic is Geglu { args.input.extents()[1] / 2 } else { args.input.extents()[1] })])
        },
        result is Ok <==> pointwise_rejection(ctx.device_id, args) is None && thread@.target_rejection(ctx.device_id, ctx.stream.handle) is None,
        result matches Ok(p) ==> {
            &&& p.launch.semantic == args.semantic
            &&& p.launch.activation == args.activation
            &&& p.launch.dt == args.dt
            &&& p.launch.dtype == args.input.dtype
            &&& args.input.starts_at(ctx.device_id, p.launch.input)
            &&& args.input.holds(ctx.device_id, p.launch.dtype, seq![args.input.extents()[0], args.input.extents()[1]])
            &&& args.out.packed_at(ctx.device_id, p.launch.output, p.launch.dtype, seq![p.launch.rows, p.launch.cols])
            &&& p.launch.rows == args.input.extents()[0] as i64
            &&& args.semantic == PointwiseSemantic::Geglu ==> args.input.extents()[1] == 2 * args.out.extents()[1]
            &&& args.semantic != PointwiseSemantic::Geglu ==> args.input.extents()[1] == args.out.extents()[1]
            &&& args.bias matches Some(t) ==> t.packed_at(ctx.device_id, p.launch.bias, p.launch.dtype, seq![p.launch.cols])
            &&& args.bias is None ==> p.launch.bias == 0
            &&& args.secondary matches Some(t) ==> t.packed_at(ctx.device_id, p.launch.secondary, p.launch.dtype, seq![p.launch.rows, p.launch.cols])
            &&& args.secondary is None ==> p.launch.secondary == 0
            &&& args.secondary is Some <==> args.semantic == PointwiseSemantic::EulerUpdate
            &&& args.bias is Some ==> args.semantic == PointwiseSemantic::BiasActivation
            &&& p.policy == args.policy
            &&& p.stream == ctx.stream
            &&& p.runtime == ctx.runtime
            &&& p.launch.stream == ctx.stream.handle
        },
{
    assert(args.input.extents().len() == 2 ==> args.input.extents() =~= seq![args.input.extents()[0], args.input.extents()[1]]);
}

} // verus!
