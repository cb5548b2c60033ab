//! Normalization and residual fusions.
use vstd::prelude::*;

use crate::buffer::CudaBuffer;
use crate::context::CudaContext;
use crate::dtype::DType;
use crate::error::Error;
use crate::ops::binding::{
    dims_1, dims_2, optional_address, optional_storage, optional_wide_storage, tensor_storage,
};
use crate::ops::launch::{begin_launch, LaunchPolicy, PendingLaunch};
use crate::scalar::{F32Bits, F32_MICRO_BITS};
use crate::tensor::Tensor;
use crate::workspace::ThreadState;

verus! {

/// What a normalization computes.
#[derive(Clone, Copy, Debug, PartialEq, Eq, Structural)]
pub enum NormSemantic {
    Rms,
    Layer,
    AdaptiveRms,
    BiasResidual,
    BiasResidualRms,
    BiasResidualLayer,
    AdaGateResidual,
    AdaGateResidualRms,
    BiasThenResidual,
}

/// A normalization request with every operand that some semantic takes.
#[derive(Debug)]
pub struct NormRequest<'a> {
    pub semantic: NormSemantic,
    pub input: &'a Tensor,
    pub bias: Option<&'a Tensor>,
    pub residual: Option<&'a Tensor>,
    pub weight: Option<&'a Tensor>,
    pub norm_bias: Option<&'a Tensor>,
    pub norm_style: Option<&'a Tensor>,
    pub gate_style: Option<&'a Tensor>,
    pub hidden: Option<&'a Tensor>,
    pub normalized: Option<&'a Tensor>,
    pub eps: F32Bits,
    pub policy: LaunchPolicy,
}

/// The native launch of a normalization; absent operands have a null address.
#[derive(Clone, Copy, Debug, PartialEq, Eq, Structural)]
pub struct NormLaunch {
    pub semantic: NormSemantic,
    pub dtype: DType,
    pub rows: i64,
    pub cols: i64,
    pub eps: F32Bits,
    pub input: usize,
    pub bias: usize,
    pub residual: usize,
    pub weight: usize,
    pub norm_bias: usize,
    pub norm_style: usize,
    pub gate_style: usize,
    pub hidden: usize,
    pub normalized: usize,
    pub stream: usize,
}

pub const NORM_EPS_TEXT: &'static str = "norm epsilon must be finite and positive";

pub const NORM_RANK_TEXT: &'static str = "norm input must be a non-empty matrix";

pub const NORM_TYPE_TEXT: &'static str = "norm supports F16 or BF16";

pub const NORM_BF16_TEXT: &'static str = "bias-then-residual is a BF16-only semantic";

/// Why a normalization is refused, if it is: its epsilon, the rank and type
/// of its input, or the first of its operands that does not fit the input.
///
/// With an input of `[rows, cols]`, biases and weights are `[cols]`, the
/// normalization style is `[2 * cols]`, a gating style `[3 * cols]`, and all
/// else is `[rows, cols]`; all share the type of the input.
pub open spec fn norm_rejection(device: usize, r: &NormRequest<'_>) -> Option<Error> {
    let rows = r.input.extents()[0];
    let cols = r.input.extents()[1];
    let t = r.input.dtype;
    if !r.eps.usable() {
        Some(Error::Other(NORM_EPS_TEXT))
    } else if r.input.extents().len() != 2 || rows == 0 || cols == 0 {
        Some(Error::Other(NORM_RANK_TEXT))
    } else if !t.half() {
        Some(Error::Other(NORM_TYPE_TEXT))
    } else if r.semantic == NormSemantic::BiasThenResidual && t != DType::BF16 {
        Some(Error::Other(NORM_BF16_TEXT))
    } else {
        crate::ops::binding::first(
            crate::ops::binding::operand_rejection(device, r.input, t, seq![rows, cols]),
            crate::ops::binding::first(
                crate::ops::binding::optional_rejection(device, r.bias, t, seq![cols]),
                crate::ops::binding::first(
                    crate::ops::binding::optional_rejection(device, r.residual, t, seq![rows, cols]),
                    crate::ops::binding::first(
                        crate::ops::binding::optional_rejection(device, r.weight, t, seq![cols]),
                        crate::ops::binding::first(
                            crate::ops::binding::optional_rejection(device, r.norm_bias, t, seq![cols]),
                            crate::ops::binding::first(
                                crate::ops::binding::optional_wide_rejection(device, r.norm_style, t, 2, cols),
                                crate::ops::binding::first(
                                    crate::ops::binding::optional_wide_rejection(device, r.gate_style, t, 3, cols),
                                    crate::ops::binding::first(
                                        crate::ops::binding::optional_rejection(device, r.hidden, t, seq![rows, cols]),
                                        crate::ops::binding::optional_rejection(
                                            device,
                                            r.normalized,
                                            t,
                                            seq![rows, cols],
                                        ),
                                    ),
                                ),
                            ),
                        ),
                    ),
                ),
            ),
        )
    }
}

/// The launch of an accepted request.
pub open spec fn norm_launch(ctx: &CudaContext, r: &NormRequest<'_>) -> NormLaunch {
    NormLaunch {
        semantic: r.semantic,
        dtype: r.input.dtype,
        rows: r.input.extents()[0] as i64,
        cols: r.input.extents()[1] as i64,
        eps: r.eps,
        input: crate::ops::binding::bound_range(r.input).ptr,
        bias: crate::ops::binding::optional_ptr(r.bias),
        residual: crate::ops::binding::optional_ptr(r.residual),
        weight: crate::ops::binding::optional_ptr(r.weight),
        norm_bias: crate::ops::binding::optional_ptr(r.norm_bias),
        norm_style: crate::ops::binding::optional_ptr(r.norm_style),
        gate_style: crate::ops::binding::optional_ptr(r.gate_style),
        hidden: crate::ops::binding::optional_ptr(r.hidden),
        normalized: crate::ops::binding::optional_ptr(r.normalized),
        stream: ctx.stream.handle,
    }
}

/// `result` is what a normalization request comes to.
pub open spec fn norm_outcome(
    thread: &ThreadState,
    ctx: &CudaContext,
    r: &NormRequest<'_>,
    result: Result<PendingLaunch<NormLaunch>, Error>,
) -> bool {
    match norm_rejection(ctx.device_id, r) {
        Some(e) => result == Err::<PendingLaunch<NormLaunch>, Error>(e),
        None => crate::ops::launch::becomes_pending(thread, ctx, norm_launch(ctx, r), r.policy, result),
    }
}

/// Checks a request and describes its launch.
fn normalize(ctx: &CudaContext, r: &NormRequest<'_>) -> (launch: Result<NormLaunch, Error>)
    ensures
        match launch {
            Ok(l) => norm_rejection(ctx.device_id, r) is None && l == norm_launch(ctx, r),
            Err(e) => norm_rejection(ctx.device_id, r) == Some(e),
        },
{
    if !r.eps.is_finite_positive() {
        return Err(Error::Other(NORM_EPS_TEXT));
    }
    let dims: &Vec<usize> = r.input.shape.dims();
    if dims.len() != 2 || dims[0] == 0 || dims[1] == 0 {
        return Err(Error::Other(NORM_RANK_TEXT));
    }
    let t: DType = r.input.dtype;
    if !t.is_half() {
        return Err(Error::Other(NORM_TYPE_TEXT));
    }
    if r.semantic == NormSemantic::BiasThenResidual && t != DType::BF16 {
        return Err(Error::Other(NORM_BF16_TEXT));
    }
    let rows: usize = dims[0];
    let cols: usize = dims[1];
    let row: Vec<usize> = dims_1(cols);
    let matrix: Vec<usize> = dims_2(rows, cols);
    let input: CudaBuffer = tensor_storage(ctx, r.input, t, &matrix)?;
    let bias: Option<CudaBuffer> = optional_storage(ctx, r.bias, t, &row)?;
    let residual: Option<CudaBuffer> = optional_storage(ctx, r.residual, t, &matrix)?;
    let weight: Option<CudaBuffer> = optional_storage(ctx, r.weight, t, &row)?;
    let norm_bias: Option<CudaBuffer> = optional_storage(ctx, r.norm_bias, t, &row)?;
    let norm_style: Option<CudaBuffer> = optional_wide_storage(ctx, r.norm_style, t, 2, cols)?;
    let gate_style: Option<CudaBuffer> = optional_wide_storage(ctx, r.gate_style, t, 3, cols)?;
    let hidden: Option<CudaBuffer> = optional_storage(ctx, r.hidden, t, &matrix)?;
    let normalized: Option<CudaBuffer> = optional_storage(ctx, r.normalized, t, &matrix)?;
    Ok(
        NormLaunch {
            semantic: r.semantic,
            dtype: t,
            rows: rows as i64,
            cols: cols as i64,
            eps: r.eps,
            input: input.ptr(),
            bias: optional_address(&bias),
            residual: optional_address(&residual),
            weight: optional_address(&weight),
            norm_bias: optional_address(&norm_bias),
            norm_style: optional_address(&norm_style),
            gate_style: optional_address(&gate_style),
            hidden: optional_address(&hidden),
            normalized: optional_address(&normalized),
            stream: ctx.stream.handle,
        },
    )
}

fn submit(thread: &ThreadState, ctx: &CudaContext, r: NormRequest<'_>) -> (result: Result<
    PendingLaunch<NormLaunch>,
    Error,
>)
    ensures
        norm_outcome(thread, ctx, &r, result),
{
    let launch: NormLaunch = normalize(ctx, &r)?;
    begin_launch(thread, ctx, launch, r.policy)
}

/// Ordinary RMS normalization.
#[derive(Debug)]
pub struct RmsNormArgs<'a> {
    pub input: &'a Tensor,
    pub weight: &'a Tensor,
    pub normalized: &'a Tensor,
    pub eps: F32Bits,
    pub policy: LaunchPolicy,
}

impl<'a> RmsNormArgs<'a> {
    /// The request these arguments stand for.
    pub open spec fn request(self) -> NormRequest<'a> {
        NormRequest {
            semantic: NormSemantic::Rms,
            input: self.input,
            bias: None,
            residual: None,
            weight: Some(self.weight),
            norm_bias: None,
            norm_style: None,
            gate_style: None,
            hidden: None,
            normalized: Some(self.normalized),
            eps: self.eps,
            policy: self.policy,
        }
    }

    pub fn new(
        input: &'a Tensor,
        weight: &'a Tensor,
        normalized: &'a Tensor,
        eps: F32Bits,
    ) -> (args: Self)
        ensures
            args == (RmsNormArgs {
                input,
                weight,
                normalized,
                eps,
                policy: crate::ops::launch::default_launch_policy(),
            }),
            args.input == input,
            args.weight == weight,
            args.normalized == normalized,
            args.eps == eps,
    {
        RmsNormArgs {
            input,
            weight,
            normalized,
            eps,
            policy: LaunchPolicy::default(),
        }
    }

    pub fn with_policy(self, policy: LaunchPolicy) -> (args: Self)
        ensures
            args == (RmsNormArgs { policy, ..self }),
    {
        RmsNormArgs { policy, ..self }
    }
}

/// Starts ordinary RMS normalization.
pub fn rms_norm(thread: &ThreadState, ctx: &CudaContext, args: RmsNormArgs<'_>) -> (result: Result<
    PendingLaunch<NormLaunch>,
    Error,
>)
    ensures
        norm_outcome(thread, ctx, &args.request(), result),
        result matches Ok(p) ==> {
            &&& p.launch.semantic is Rms
            &&& p.launch.dtype == args.input.dtype
            &&& args.input.packed_at(ctx.device_id, p.launch.input, p.launch.dtype, seq![p.launch.rows, p.launch.cols])
            &&& p.launch.bias == 0
            &&& p.launch.residual == 0
            &&& args.weight.packed_at(ctx.device_id, p.launch.weight, p.launch.dtype, seq![p.launch.cols])
            &&& p.launch.norm_bias == 0
            &&& p.launch.norm_style == 0
            &&& p.launch.gate_style == 0
            &&& p.launch.hidden == 0
            &&& args.normalized.packed_at(ctx.device_id, p.launch.normalized, p.launch.dtype, seq![p.launch.rows, p.launch.cols])
            &&& p.launch.eps == args.eps
            &&& p.policy == args.policy
            &&& p.stream == ctx.stream
            &&& p.runtime == ctx.runtime
            &&& p.launch.stream == ctx.stream.handle
        },
{
    submit(
        thread,
        ctx,
        NormRequest {
            semantic: NormSemantic::Rms,
            input: args.input,
            bias: None,
            residual: None,
            weight: Some(args.weight),
            norm_bias: None,
            norm_style: None,
            gate_style: None,
            hidden: None,
            normalized: Some(args.normalized),
            eps: args.eps,
            policy: args.policy,
        },
    )
}

/// Ordinary layer normalization.
#[derive(Debug)]
pub struct LayerNormArgs<'a> {
    pub input: &'a Tensor,
    pub weight: &'a Tensor,
    pub bias: &'a Tensor,
    pub normalized: &'a Tensor,
    pub eps: F32Bits,
    pub policy: LaunchPolicy,
}

impl<'a> LayerNormArgs<'a> {
    /// The request these arguments stand for.
    pub open spec fn request(self) -> NormRequest<'a> {
        NormRequest {
            semantic: NormSemantic::Layer,
            input: self.input,
            bias: None,
            residual: None,
            weight: Some(self.weight),
            norm_bias: Some(self.bias),
            norm_style: None,
            gate_style: None,
            hidden: None,
            normalized: Some(self.normalized),
            eps: self.eps,
            policy: self.policy,
        }
    }

    pub fn new(
        input: &'a Tensor,
        weight: &'a Tensor,
        bias: &'a Tensor,
        normalized: &'a Tensor,
        eps: F32Bits,
    ) -> (args: Self)
        ensures
            args == (LayerNormArgs {
                input,
                weight,
                bias,
                normalized,
                eps,
                policy: crate::ops::launch::default_launch_policy(),
            }),
            args.input == input,
            args.weight == weight,
            args.bias == bias,
            args.normalized == normalized,
            args.eps == eps,
    {
        LayerNormArgs {
            input,
            weight,
            bias,
            normalized,
            eps,
            policy: LaunchPolicy::default(),
        }
    }

    pub fn with_policy(self, policy: LaunchPolicy) -> (args: Self)
        ensures
            args == (LayerNormArgs { policy, ..self }),
    {
        LayerNormArgs { policy, ..self }
    }
}

/// Starts ordinary layer normalization.
pub fn layer_norm(thread: &ThreadState, ctx: &CudaContext, args: LayerNormArgs<'_>) -> (result: Result<
    PendingLaunch<NormLaunch>,
    Error,
>)
    ensures
        norm_outcome(thread, ctx, &args.request(), result),
        result matches Ok(p) ==> {
            &&& p.launch.semantic is Layer
            &&& p.launch.dtype == args.input.dtype
            &&& args.input.packed_at(ctx.device_id, p.launch.input, p.launch.dtype, seq![p.launch.rows, p.launch.cols])
            &&& p.launch.bias == 0
            &&& p.launch.residual == 0
            &&& args.weight.packed_at(ctx.device_id, p.launch.weight, p.launch.dtype, seq![p.launch.cols])
            &&& args.bias.packed_at(ctx.device_id, p.launch.norm_bias, p.launch.dtype, seq![p.launch.cols])
            &&& p.launch.norm_style == 0
            &&& p.launch.gate_style == 0
            &&& p.launch.hidden == 0
            &&& args.normalized.packed_at(ctx.device_id, p.launch.normalized, p.launch.dtype, seq![p.launch.rows, p.launch.cols])
            &&& p.launch.eps == args.eps
            &&& p.policy == args.policy
            &&& p.stream == ctx.stream
            &&& p.runtime == ctx.runtime
            &&& p.launch.stream == ctx.stream.handle
        },
{
    submit(
        thread,
        ctx,
        NormRequest {
            semantic: NormSemantic::Layer,
            input: args.input,
            bias: None,
            residual: None,
            weight: Some(args.weight),
            norm_bias: Some(args.bias),
            norm_style: None,
            gate_style: None,
            hidden: None,
            normalized: Some(args.normalized),
            eps: args.eps,
            policy: args.policy,
        },
    )
}

/// Adaptive RMS normalization. `norm_style` is `[2 * cols]`.
#[derive(Debug)]
pub struct AdaptiveRmsNormArgs<'a> {
    pub input: &'a Tensor,
    pub norm_style: &'a Tensor,
    pub normalized: &'a Tensor,
    pub eps: F32Bits,
    pub policy: LaunchPolicy,
}

impl<'a> AdaptiveRmsNormArgs<'a> {
    /// The request these arguments stand for.
    pub open spec fn request(self) -> NormRequest<'a> {
        NormRequest {
            semantic: NormSemantic::AdaptiveRms,
            input: self.input,
            bias: None,
            residual: None,
            weight: None,
            norm_bias: None,
            norm_style: Some(self.norm_style),
            gate_style: None,
            hidden: None,
            normalized: Some(self.normalized),
            eps: self.eps,
            policy: self.policy,
        }
    }

    pub fn new(
        input: &'a Tensor,
        norm_style: &'a Tensor,
        normalized: &'a Tensor,
        eps: F32Bits,
    ) -> (args: Self)
        ensures
            args == (AdaptiveRmsNormArgs {
                input,
                norm_style,
                normalized,
                eps,
                policy: crate::ops::launch::default_launch_policy(),
            }),
            args.input == input,
            args.norm_style == norm_style,
            args.normalized == normalized,
            args.eps == eps,
    {
        AdaptiveRmsNormArgs {
            input,
            norm_style,
            normalized,
            eps,
            policy: LaunchPolicy::default(),
        }
    }

    pub fn with_policy(self, policy: LaunchPolicy) -> (args: Self)
        ensures
            args == (AdaptiveRmsNormArgs { policy, ..self }),
    {
        AdaptiveRmsNormArgs { policy, ..self }
    }
}

/// Starts adaptive RMS normalization.
pub fn adaptive_rms_norm(thread: &ThreadState, ctx: &CudaContext, args: AdaptiveRmsNormArgs<'_>) -> (result: Result<
    PendingLaunch<NormLaunch>,
    Error,
>)
    ensures
        norm_outcome(thread, ctx, &args.request(), result),
        result matches Ok(p) ==> {
            &&& p.launch.semantic is AdaptiveRms
            &&& p.launch.dtype == args.input.dtype
            &&& args.input.packed_at(ctx.device_id, p.launch.input, p.launch.dtype, seq![p.launch.rows, p.launch.cols])
            &&& p.launch.bias == 0
            &&& p.launch.residual == 0
            &&& p.launch.weight == 0
            &&& p.launch.norm_bias == 0
            &&& args.norm_style.starts_at(ctx.device_id, p.launch.norm_style)
            &&& 2 * args.input.extents()[1] <= usize::MAX && args.norm_style.holds(ctx.device_id, p.launch.dtype, seq![(2 * args.input.extents()[1]) as usize])
            &&& p.launch.gate_style == 0
            &&& p.launch.hidden == 0
            &&& args.normalized.packed_at(ctx.device_id, p.launch.normalized, p.launch.dtype, seq![p.launch.rows, p.launch.cols])
            &&& p.launch.eps == args.eps
            &&& p.policy == args.policy
            &&& p.stream == ctx.stream
            &&& p.runtime == ctx.runtime
            &&& p.launch.stream == ctx.stream.handle
        },
{
    submit(
        thread,
        ctx,
        NormRequest {
            semantic: NormSemantic::AdaptiveRms,
            input: args.input,
            bias: None,
            residual: None,
            weight: None,
            norm_bias: None,
            norm_style: Some(args.norm_style),
            gate_style: None,
            hidden: None,
            normalized: Some(args.normalized),
            eps: args.eps,
            policy: args.policy,
        },
    )
}

/// Bias plus residual. The bias is optional.
#[derive(Debug)]
pub struct BiasResidualArgs<'a> {
    pub input: &'a Tensor,
    pub bias: Option<&'a Tensor>,
    pub residual: &'a Tensor,
    pub hidden: &'a Tensor,
    pub policy: LaunchPolicy,
}

impl<'a> BiasResidualArgs<'a> {
    /// The request these arguments stand for.
    pub open spec fn request(self) -> NormRequest<'a> {
        NormRequest {
            semantic: NormSemantic::BiasResidual,
            input: self.input,
            bias: self.bias,
            residual: Some(self.residual),
            weight: None,
            norm_bias: None,
            norm_style: None,
            gate_style: None,
            hidden: Some(self.hidden),
            normalized: None,
            eps: F32Bits { bits: F32_MICRO_BITS },
            policy: self.policy,
        }
    }

    pub fn new(
        input: &'a Tensor,
        bias: Option<&'a Tensor>,
        residual: &'a Tensor,
        hidden: &'a Tensor,
    ) -> (args: Self)
        ensures
            args == (BiasResidualArgs {
                input,
                bias,
                residual,
                hidden,
                policy: crate::ops::launch::default_launch_policy(),
            }),
            args.input == input,
            args.bias == bias,
            args.residual == residual,
            args.hidden == hidden,
    {
        BiasResidualArgs {
            input,
            bias,
            residual,
            hidden,
            policy: LaunchPolicy::default(),
        }
    }

    pub fn with_policy(self, policy: LaunchPolicy) -> (args: Self)
        ensures
            args == (BiasResidualArgs { policy, ..self }),
    {
        BiasResidualArgs { policy, ..self }
    }
}

/// Starts bias plus residual.
pub fn bias_residual(thread: &ThreadState, ctx: &CudaContext, args: BiasResidualArgs<'_>) -> (result: Result<
    PendingLaunch<NormLaunch>,
    Error,
>)
    ensures
        norm_outcome(thread, ctx, &args.request(), result),
        result matches Ok(p) ==> {
            &&& p.launch.semantic is BiasResidual
            &&& p.launch.dtype == args.input.dtype
            &&& args.input.packed_at(ctx.device_id, p.launch.input, p.launch.dtype, seq![p.launch.rows, p.launch.cols])
            &&& args.bias matches Some(t) ==> t.packed_at(ctx.device_id, p.launch.bias, p.launch.dtype, seq![p.launch.cols])
            &&& args.bias is None ==> p.launch.bias == 0
            &&& args.residual.packed_at(ctx.device_id, p.launch.residual, p.launch.dtype, seq![p.launch.rows, p.launch.cols])
            &&& p.launch.weight == 0
            &&& p.launch.norm_bias == 0
            &&& p.launch.norm_style == 0
            &&& p.launch.gate_style == 0
            &&& args.hidden.packed_at(ctx.device_id, p.launch.hidden, p.launch.dtype, seq![p.launch.rows, p.launch.cols])
            &&& p.launch.normalized == 0
            &&& p.launch.eps.bits == 0x3586_37bd
            &&& p.policy == args.policy
            &&& p.stream == ctx.stream
            &&& p.runtime == ctx.runtime
            &&& p.launch.stream == ctx.stream.handle
        },
{
    submit(
        thread,
        ctx,
        NormRequest {
            semantic: NormSemantic::BiasResidual,
            input: args.input,
            bias: args.bias,
            residual: Some(args.residual),
            weight: None,
            norm_bias: None,
            norm_style: None,
            gate_style: None,
            hidden: Some(args.hidden),
            normalized: None,
            eps: F32Bits { bits: F32_MICRO_BITS },
            policy: args.policy,
        },
    )
}

/// Bias plus residual, then RMS normalization of the sum.
#[derive(Debug)]
pub struct BiasResidualRmsNormArgs<'a> {
    pub input: &'a Tensor,
    pub bias: Option<&'a Tensor>,
    pub residual: &'a Tensor,
    pub weight: &'a Tensor,
    pub hidden: &'a Tensor,
    pub normalized: &'a Tensor,
    pub eps: F32Bits,
    pub policy: LaunchPolicy,
}

impl<'a> BiasResidualRmsNormArgs<'a> {
    /// The request these arguments stand for.
    pub open spec fn request(self) -> NormRequest<'a> {
        NormRequest {
            semantic: NormSemantic::BiasResidualRms,
            input: self.input,
            bias: self.bias,
            residual: Some(self.residual),
            weight: Some(self.weight),
            norm_bias: None,
            norm_style: None,
            gate_style: None,
            hidden: Some(self.hidden),
            normalized: Some(self.normalized),
            eps: self.eps,
            policy: self.policy,
        }
    }

    pub fn new(
        input: &'a Tensor,
        bias: Option<&'a Tensor>,
        residual: &'a Tensor,
        weight: &'a Tensor,
        hidden: &'a Tensor,
        normalized: &'a Tensor,
        eps: F32Bits,
    ) -> (args: Self)
        ensures
            args == (BiasResidualRmsNormArgs {
                input,
                bias,
                residual,
                weight,
                hidden,
                normalized,
                eps,
                policy: crate::ops::launch::default_launch_policy(),
            }),
            args.input == input,
            args.bias == bias,
            args.residual == residual,
            args.weight == weight,
            args.hidden == hidden,
            args.normalized == normalized,
            args.eps == eps,
    {
        BiasResidualRmsNormArgs {
            input,
            bias,
            residual,
            weight,
            hidden,
            normalized,
            eps,
            policy: LaunchPolicy::default(),
        }
    }

    pub fn with_policy(self, policy: LaunchPolicy) -> (args: Self)
        ensures
            args == (BiasResidualRmsNormArgs { policy, ..self }),
    {
        BiasResidualRmsNormArgs { policy, ..self }
    }
}

/// Starts bias plus residual, then RMS normalization of the sum.
pub fn bias_residual_rms_norm(thread: &ThreadState, ctx: &CudaContext, args: BiasResidualRmsNormArgs<'_>) -> (result: Result<
    PendingLaunch<NormLaunch>,
    Error,
>)
    ensures
        norm_outcome(thread, ctx, &args.request(), result),
        result matches Ok(p) ==> {
            &&& p.launch.semantic is BiasResidualRms
            &&& p.launch.dtype == args.input.dtype
            &&& args.input.packed_at(ctx.device_id, p.launch.input, p.launch.dtype, seq![p.launch.rows, p.launch.cols])
            &&& args.bias matches Some(t) ==> t.packed_at(ctx.device_id, p.launch.bias, p.launch.dtype, seq![p.launch.cols])
            &&& args.bias is None ==> p.launch.bias == 0
            &&& args.residual.packed_at(ctx.device_id, p.launch.residual, p.launch.dtype, seq![p.launch.rows, p.launch.cols])
            &&& args.weight.packed_at(ctx.device_id, p.launch.weight, p.launch.dtype, seq![p.launch.cols])
            &&& p.launch.norm_bias == 0
            &&& p.launch.norm_style == 0
            &&& p.launch.gate_style == 0
            &&& args.hidden.packed_at(ctx.device_id, p.launch.hidden, p.launch.dtype, seq![p.launch.rows, p.launch.cols])
            &&& args.normalized.packed_at(ctx.device_id, p.launch.normalized, p.launch.dtype, seq![p.launch.rows, p.launch.cols])
            &&& p.launch.eps == args.eps
            &&& p.policy == args.policy
            &&& p.stream == ctx.stream
            &&& p.runtime == ctx.runtime
            &&& p.launch.stream == ctx.stream.handle
        },
{
    submit(
        thread,
        ctx,
        NormRequest {
            semantic: NormSemantic::BiasResidualRms,
            input: args.input,
            bias: args.bias,
            residual: Some(args.residual),
            weight: Some(args.weight),
            norm_bias: None,
            norm_style: None,
            gate_style: None,
            hidden: Some(args.hidden),
            normalized: Some(args.normalized),
            eps: args.eps,
            policy: args.policy,
        },
    )
}

/// Bias plus residual, then layer normalization of the sum.
#[derive(Debug)]
pub struct BiasResidualLayerNormArgs<'a> {
    pub input: &'a Tensor,
    pub bias: Option<&'a Tensor>,
    pub residual: &'a Tensor,
    pub weight: &'a Tensor,
    pub norm_bias: &'a Tensor,
    pub hidden: &'a Tensor,
    pub normalized: &'a Tensor,
    pub eps: F32Bits,
    pub policy: LaunchPolicy,
}

impl<'a> BiasResidualLayerNormArgs<'a> {
    /// The request these arguments stand for.
    pub open spec fn request(self) -> NormRequest<'a> {
        NormRequest {
            semantic: NormSemantic::BiasResidualLayer,
            input: self.input,
            bias: self.bias,
            residual: Some(self.residual),
            weight: Some(self.weight),
            norm_bias: Some(self.norm_bias),
            norm_style: None,
            gate_style: None,
            hidden: Some(self.hidden),
            normalized: Some(self.normalized),
            eps: self.eps,
            policy: self.policy,
        }
    }

    pub fn new(
        input: &'a Tensor,
        bias: Option<&'a Tensor>,
        residual: &'a Tensor,
        weight: &'a Tensor,
        norm_bias: &'a Tensor,
        hidden: &'a Tensor,
        normalized: &'a Tensor,
        eps: F32Bits,
    ) -> (args: Self)
        ensures
            args == (BiasResidualLayerNormArgs {
                input,
                bias,
                residual,
                weight,
                norm_bias,
                hidden,
                normalized,
                eps,
                policy: crate::ops::launch::default_launch_policy(),
            }),
            args.input == input,
            args.bias == bias,
            args.residual == residual,
            args.weight == weight,
            args.norm_bias == norm_bias,
            args.hidden == hidden,
            args.normalized == normalized,
            args.eps == eps,
    {
        BiasResidualLayerNormArgs {
            input,
            bias,
            residual,
            weight,
            norm_bias,
            hidden,
            normalized,
            eps,
            policy: LaunchPolicy::default(),
        }
    }

    pub fn with_policy(self, policy: LaunchPolicy) -> (args: Self)
        ensures
            args == (BiasResidualLayerNormArgs { policy, ..self }),
    {
        BiasResidualLayerNormArgs { policy, ..self }
    }
}

/// Starts bias plus residual, then layer normalization of the sum.
pub fn bias_residual_layer_norm(thread: &ThreadState, ctx: &CudaContext, args: BiasResidualLayerNormArgs<'_>) -> (result: Result<
    PendingLaunch<NormLaunch>,
    Error,
>)
    ensures
        norm_outcome(thread, ctx, &args.request(), result),
        result matches Ok(p) ==> {
            &&& p.launch.semantic is BiasResidualLayer
            &&& p.launch.dtype == args.input.dtype
            &&& args.input.packed_at(ctx.device_id, p.launch.input, p.launch.dtype, seq![p.launch.rows, p.launch.cols])
            &&& args.bias matches Some(t) ==> t.packed_at(ctx.device_id, p.launch.bias, p.launch.dtype, seq![p.launch.cols])
            &&& args.bias is None ==> p.launch.bias == 0
            &&& args.residual.packed_at(ctx.device_id, p.launch.residual, p.launch.dtype, seq![p.launch.rows, p.launch.cols])
            &&& args.weight.packed_at(ctx.device_id, p.launch.weight, p.launch.dtype, seq![p.launch.cols])
            &&& args.norm_bias.packed_at(ctx.device_id, p.launch.norm_bias, p.launch.dtype, seq![p.launch.cols])
            &&& p.launch.norm_style == 0
            &&& p.launch.gate_style == 0
            &&& args.hidden.packed_at(ctx.device_id, p.launch.hidden, p.launch.dtype, seq![p.launch.rows, p.launch.cols])
            &&& args.normalized.packed_at(ctx.device_id, p.launch.normalized, p.launch.dtype, seq![p.launch.rows, p.launch.cols])
            &&& p.launch.eps == args.eps
            &&& p.policy == args.policy
            &&& p.stream == ctx.stream
            &&& p.runtime == ctx.runtime
            &&& p.launch.stream == ctx.stream.handle
        },
{
    submit(
        thread,
        ctx,
        NormRequest {
            semantic: NormSemantic::BiasResidualLayer,
            input: args.input,
            bias: args.bias,
            residual: Some(args.residual),
            weight: Some(args.weight),
            norm_bias: Some(args.norm_bias),
            norm_style: None,
            gate_style: None,
            hidden: Some(args.hidden),
            normalized: Some(args.normalized),
            eps: args.eps,
            policy: args.policy,
        },
    )
}

/// Adaptive gate plus residual. `gate_style` is `[3 * cols]`.
#[derive(Debug)]
pub struct AdaGateResidualArgs<'a> {
    pub input: &'a Tensor,
    pub residual: &'a Tensor,
    pub gate_style: &'a Tensor,
    pub hidden: &'a Tensor,
    pub policy: LaunchPolicy,
}

impl<'a> AdaGateResidualArgs<'a> {
    /// The request these arguments stand for.
    pub open spec fn request(self) -> NormRequest<'a> {
        NormRequest {
            semantic: NormSemantic::AdaGateResidual,
            input: self.input,
            bias: None,
            residual: Some(self.residual),
            weight: None,
            norm_bias: None,
            norm_style: None,
            gate_style: Some(self.gate_style),
            hidden: Some(self.hidden),
            normalized: None,
            eps: F32Bits { bits: F32_MICRO_BITS },
            policy: self.policy,
        }
    }

    pub fn new(
        input: &'a Tensor,
        residual: &'a Tensor,
        gate_style: &'a Tensor,
        hidden: &'a Tensor,
    ) -> (args: Self)
        ensures
            args == (AdaGateResidualArgs {
                input,
                residual,
                gate_style,
                hidden,
                policy: crate::ops::launch::default_launch_policy(),
            }),
            args.input == input,
            args.residual == residual,
            args.gate_style == gate_style,
            args.hidden == hidden,
    {
        AdaGateResidualArgs {
            input,
            residual,
            gate_style,
            hidden,
            policy: LaunchPolicy::default(),
        }
    }

    pub fn with_policy(self, policy: LaunchPolicy) -> (args: Self)
        ensures
            args == (AdaGateResidualArgs { policy, ..self }),
    {
        AdaGateResidualArgs { policy, ..self }
    }
}

/// Starts adaptive gate plus residual.
pub fn ada_gate_residual(thread: &ThreadState, ctx: &CudaContext, args: AdaGateResidualArgs<'_>) -> (result: Result<
    PendingLaunch<NormLaunch>,
    Error,
>)
    ensures
        norm_outcome(thread, ctx, &args.request(), result),
        result matches Ok(p) ==> {
            &&& p.launch.semantic is AdaGateResidual
            &&& p.launch.dtype == args.input.dtype
            &&& args.input.packed_at(ctx.device_id, p.launch.input, p.launch.dtype, seq![p.launch.rows, p.launch.cols])
            &&& p.launch.bias == 0
            &&& args.residual.packed_at(ctx.device_id, p.launch.residual, p.launch.dtype, seq![p.launch.rows, p.launch.cols])
            &&& p.launch.weight == 0
            &&& p.launch.norm_bias == 0
            &&& p.launch.norm_style == 0
            &&& args.gate_style.starts_at(ctx.device_id, p.launch.gate_style)
            &&& 3 * args.input.extents()[1] <= usize::MAX && args.gate_style.holds(ctx.device_id, p.launch.dtype, seq![(3 * args.input.extents()[1]) as usize])
            &&& args.hidden.packed_at(ctx.device_id, p.launch.hidden, p.launch.dtype, seq![p.launch.rows, p.launch.cols])
            &&& p.launch.normalized == 0
            &&& p.launch.eps.bits == 0x3586_37bd
            &&& p.policy == args.policy
            &&& p.stream == ctx.stream
            &&& p.runtime == ctx.runtime
            &&& p.launch.stream == ctx.stream.handle
        },
{
    submit(
        thread,
        ctx,
        NormRequest {
            semantic: NormSemantic::AdaGateResidual,
            input: args.input,
            bias: None,
            residual: Some(args.residual),
            weight: None,
            norm_bias: None,
            norm_style: None,
            gate_style: Some(args.gate_style),
            hidden: Some(args.hidden),
            normalized: None,
            eps: F32Bits { bits: F32_MICRO_BITS },
            policy: args.policy,
        },
    )
}

/// Adaptive gate plus residual, then adaptive RMS normalization.
#[derive(Debug)]
pub struct AdaGateResidualRmsNormArgs<'a> {
    pub input: &'a Tensor,
    pub residual: &'a Tensor,
    pub norm_style: &'a Tensor,
    pub gate_style: &'a Tensor,
    pub hidden: &'a Tensor,
    pub normalized: &'a Tensor,
    pub eps: F32Bits,
    pub policy: LaunchPolicy,
}

impl<'a> AdaGateResidualRmsNormArgs<'a> {
    /// The request these arguments stand for.
    pub open spec fn request(self) -> NormRequest<'a> {
        NormRequest {
            semantic: NormSemantic::AdaGateResidualRms,
            input: self.input,
            bias: None,
            residual: Some(self.residual),
            weight: None,
            norm_bias: None,
            norm_style: Some(self.norm_style),
            gate_style: Some(self.gate_style),
            hidden: Some(self.hidden),
            normalized: Some(self.normalized),
            eps: self.eps,
            policy: self.policy,
        }
    }

    pub fn new(
        input: &'a Tensor,
        residual: &'a Tensor,
        norm_style: &'a Tensor,
        gate_style: &'a Tensor,
        hidden: &'a Tensor,
        normalized: &'a Tensor,
        eps: F32Bits,
    ) -> (args: Self)
        ensures
            args == (AdaGateResidualRmsNormArgs {
                input,
                residual,
                norm_style,
                gate_style,
                hidden,
                normalized,
                eps,
                policy: crate::ops::launch::default_launch_policy(),
            }),
            args.input == input,
            args.residual == residual,
            args.norm_style == norm_style,
            args.gate_style == gate_style,
            args.hidden == hidden,
            args.normalized == normalized,
            args.eps == eps,
    {
        AdaGateResidualRmsNormArgs {
            input,
            residual,
            norm_style,
            gate_style,
            hidden,
            normalized,
            eps,
            policy: LaunchPolicy::default(),
        }
    }

    pub fn with_policy(self, policy: LaunchPolicy) -> (args: Self)
        ensures
            args == (AdaGateResidualRmsNormArgs { policy, ..self }),
    {
        AdaGateResidualRmsNormArgs { policy, ..self }
    }
}

/// Starts adaptive gate plus residual, then adaptive RMS normalization.
pub fn ada_gate_residual_rms_norm(thread: &ThreadState, ctx: &CudaContext, args: AdaGateResidualRmsNormArgs<'_>) -> (result: Result<
    PendingLaunch<NormLaunch>,
    Error,
>)
    ensures
        norm_outcome(thread, ctx, &args.request(), result),
        result matches Ok(p) ==> {
            &&& p.launch.semantic is AdaGateResidualRms
            &&& p.launch.dtype == args.input.dtype
            &&& args.input.packed_at(ctx.device_id, p.launch.input, p.launch.dtype, seq![p.launch.rows, p.launch.cols])
            &&& p.launch.bias == 0
            &&& args.residual.packed_at(ctx.device_id, p.launch.residual, p.launch.dtype, seq![p.launch.rows, p.launch.cols])
            &&& p.launch.weight == 0
            &&& p.launch.norm_bias == 0
            &&& args.norm_style.starts_at(ctx.device_id, p.launch.norm_style)
            &&& 2 * args.input.extents()[1] <= usize::MAX && args.norm_style.holds(ctx.device_id, p.launch.dtype, seq![(2 * args.input.extents()[1]) as usize])
            &&& args.gate_style.starts_at(ctx.device_id, p.launch.gate_style)
            &&& 3 * args.input.extents()[1] <= usize::MAX && args.gate_style.holds(ctx.device_id, p.launch.dtype, seq![(3 * args.input.extents()[1]) as usize])
            &&& args.hidden.packed_at(ctx.device_id, p.launch.hidden, p.launch.dtype, seq![p.launch.rows, p.launch.cols])
            &&& args.normalized.packed_at(ctx.device_id, p.launch.normalized, p.launch.dtype, seq![p.launch.rows, p.launch.cols])
            &&& p.launch.eps == args.eps
            &&& p.policy == args.policy
            &&& p.stream == ctx.stream
            &&& p.runtime == ctx.runtime
            &&& p.launch.stream == ctx.stream.handle
        },
{
    submit(
        thread,
        ctx,
        NormRequest {
            semantic: NormSemantic::AdaGateResidualRms,
            input: args.input,
            bias: None,
            residual: Some(args.residual),
            weight: None,
            norm_bias: None,
            norm_style: Some(args.norm_style),
            gate_style: Some(args.gate_style),
            hidden: Some(args.hidden),
            normalized: Some(args.normalized),
            eps: args.eps,
            policy: args.policy,
        },
    )
}

/// Bias and then residual, rounded to BF16 in between; BF16 only.
#[derive(Debug)]
pub struct BiasThenResidualArgs<'a> {
    pub input: &'a Tensor,
    pub bias: Option<&'a Tensor>,
    pub residual: &'a Tensor,
    pub hidden: &'a Tensor,
    pub policy: LaunchPolicy,
}

impl<'a> BiasThenResidualArgs<'a> {
    /// The request these arguments stand for.
    pub open spec fn request(self) -> NormRequest<'a> {
        NormRequest {
            semantic: NormSemantic::BiasThenResidual,
            input: self.input,
            bias: self.bias,
            residual: Some(self.residual),
            weight: None,
            norm_bias: None,
            norm_style: None,
            gate_style: None,
            hidden: Some(self.hidden),
            normalized: None,
            eps: F32Bits { bits: F32_MICRO_BITS },
            policy: self.policy,
        }
    }

    pub fn new(
        input: &'a Tensor,
        bias: Option<&'a Tensor>,
        residual: &'a Tensor,
        hidden: &'a Tensor,
    ) -> (args: Self)
        ensures
            args == (BiasThenResidualArgs {
                input,
                bias,
                residual,
                hidden,
                policy: crate::ops::launch::default_launch_policy(),
            }),
            args.input == input,
            args.bias == bias,
            args.residual == residual,
            args.hidden == hidden,
    {
        BiasThenResidualArgs {
            input,
            bias,
            residual,
            hidden,
            policy: LaunchPolicy::default(),
        }
    }

    pub fn with_policy(self, policy: LaunchPolicy) -> (args: Self)
        ensures
            args == (BiasThenResidualArgs { policy, ..self }),
    {
        BiasThenResidualArgs { policy, ..self }
    }
}

/// Starts bias and then residual, rounded to BF16 in between; BF16 only.
pub fn bias_then_residual(thread: &ThreadState, ctx: &CudaContext, args: BiasThenResidualArgs<'_>) -> (result: Result<
    PendingLaunch<NormLaunch>,
    Error,
>)
    ensures
        norm_outcome(thread, ctx, &args.request(), result),
        result matches Ok(p) ==> {
            &&& p.launch.semantic is BiasThenResidual
            &&& p.launch.dtype == args.input.dtype
            &&& args.input.packed_at(ctx.device_id, p.launch.input, p.launch.dtype, seq![p.launch.rows, p.launch.cols])
            &&& args.bias matches Some(t) ==> t.packed_at(ctx.device_id, p.launch.bias, p.launch.dtype, seq![p.launch.cols])
            &&& args.bias is None ==> p.launch.bias == 0
            &&& args.residual.packed_at(ctx.device_id, p.launch.residual, p.launch.dtype, seq![p.launch.rows, p.launch.cols])
            &&& p.launch.weight == 0
            &&& p.launch.norm_bias == 0
            &&& p.launch.norm_style == 0
            &&& p.launch.gate_style == 0
            &&& args.hidden.packed_at(ctx.device_id, p.launch.hidden, p.launch.dtype, seq![p.launch.rows, p.launch.cols])
            &&& p.launch.normalized == 0
            &&& p.launch.eps.bits == 0x3586_37bd
            &&& p.policy == args.policy
            &&& p.stream == ctx.stream
            &&& p.runtime == ctx.runtime
            &&& p.launch.stream == ctx.stream.handle
        },
{
    submit(
        thread,
        ctx,
        NormRequest {
            semantic: NormSemantic::BiasThenResidual,
            input: args.input,
            bias: args.bias,
            residual: Some(args.residual),
            weight: None,
            norm_bias: None,
            norm_style: None,
            gate_style: None,
            hidden: Some(args.hidden),
            normalized: None,
            eps: F32Bits { bits: F32_MICRO_BITS },
            policy: args.policy,
        },
    )
}

/// An RMS normalization that goes on is computed as that: its kernel finds each
/// operand in its own role, and no operand that it does not take.
pub proof fn law_rms_norm_reads_each_operand_in_its_role(
    thread: &ThreadState,
    ctx: &CudaContext,
    args: RmsNormArgs<'_>,
    result: Result<PendingLaunch<NormLaunch>, Error>,
)
    requires
        norm_outcome(thread, ctx, &args.request(), result),
    ensures
        result matches Ok(p) ==> {
            &&& p.launch.semantic is Rms
            &&& p.launch.dtype == args.input.dtype
            &&& args.input.packed_at(ctx.device_id, p.launch.input, p.launch.dtype, seq![p.launch.rows, p.launch.cols])
            &&& p.launch.bias == 0
            &&& p.launch.residual == 0
            &&& args.weight.packed_at(ctx.device_id, p.launch.weight, p.launch.dtype, seq![p.launch.cols])
            &&& p.launch.norm_bias == 0
            &&& p.launch.norm_style == 0
            &&& p.launch.gate_style == 0
            &&& p.launch.hidden == 0
            &&& args.normalized.packed_at(ctx.device_id, p.launch.normalized, p.launch.dtype, seq![p.launch.rows, p.launch.cols])
            &&& p.launch.eps == args.eps
            &&& p.policy == args.policy
            &&& p.stream == ctx.stream
            &&& p.runtime == ctx.runtime
            &&& p.launch.stream == ctx.stream.handle
        },
{
}

/// A layer normalization that goes on is computed as that: its kernel finds each
/// operand in its own role, and no operand that it does not take.
pub proof fn law_layer_norm_reads_each_operand_in_its_role(
    thread: &ThreadState,
    ctx: &CudaContext,
    args: LayerNormArgs<'_>,
    result: Result<PendingLaunch<NormLaunch>, Error>,
)
    requires
        norm_outcome(thread, ctx, &args.request(), result),
    ensures
        result matches Ok(p) ==> {
            &&& p.launch.semantic is Layer
            &&& p.launch.dtype == args.input.dtype
            &&& args.input.packed_at(ctx.device_id, p.launch.input, p.launch.dtype, seq![p.launch.rows, p.launch.cols])
            &&& p.launch.bias == 0
            &&& p.launch.residual == 0
            &&& args.weight.packed_at(ctx.device_id, p.launch.weight, p.launch.dtype, seq![p.launch.cols])
            &&& args.bias.packed_at(ctx.device_id, p.launch.norm_bias, p.launch.dtype, seq![p.launch.cols])
            &&& p.launch.norm_style == 0
            &&& p.launch.gate_style == 0
            &&& p.launch.hidden == 0
            &&& args.normalized.packed_at(ctx.device_id, p.launch.normalized, p.launch.dtype, seq![p.launch.rows, p.launch.cols])
            &&& p.launch.eps == args.eps
            &&& p.policy == args.policy
            &&& p.stream == ctx.stream
            &&& p.runtime == ctx.runtime
            &&& p.launch.stream == ctx.stream.handle
        },
{
}

/// An adaptive RMS normalization that goes on is computed as that: its kernel finds each
/// operand in its own role, and no operand that it does not take.
pub proof fn law_adaptive_rms_norm_reads_each_operand_in_its_role(
    thread: &ThreadState,
    ctx: &CudaContext,
    args: AdaptiveRmsNormArgs<'_>,
    result: Result<PendingLaunch<NormLaunch>, Error>,
)
    requires
        norm_outcome(thread, ctx, &args.request(), result),
    ensures
        result matches Ok(p) ==> {
            &&& p.launch.semantic is AdaptiveRms
            &&& p.launch.dtype == args.input.dtype
            &&& args.input.packed_at(ctx.device_id, p.launch.input, p.launch.dtype, seq![p.launch.rows, p.launch.cols])
            &&& p.launch.bias == 0
            &&& p.launch.residual == 0
            &&& p.launch.weight == 0
            &&& p.launch.norm_bias == 0
            &&& args.norm_style.starts_at(ctx.device_id, p.launch.norm_style)
            &&& 2 * args.input.extents()[1] <= usize::MAX && args.norm_style.holds(ctx.device_id, p.launch.dtype, seq![(2 * args.input.extents()[1]) as usize])
            &&& p.launch.gate_style == 0
            &&& p.launch.hidden == 0
            &&& args.normalized.packed_at(ctx.device_id, p.launch.normalized, p.launch.dtype, seq![p.launch.rows, p.launch.cols])
            &&& p.launch.eps == args.eps
            &&& p.policy == args.policy
            &&& p.stream == ctx.stream
            &&& p.runtime == ctx.runtime
            &&& p.launch.stream == ctx.stream.handle
        },
{
}

/// A sum with bias and residual that goes on is computed as that: its kernel finds each
/// operand in its own role, and no operand that it does not take.
pub proof fn law_bias_residual_reads_each_operand_in_its_role(
    thread: &ThreadState,
    ctx: &CudaContext,
    args: BiasResidualArgs<'_>,
    result: Result<PendingLaunch<NormLaunch>, Error>,
)
    requires
        norm_outcome(thread, ctx, &args.request(), result),
    ensures
        result matches Ok(p) ==> {
            &&& p.launch.semantic is BiasResidual
            &&& p.launch.dtype == args.input.dtype
            &&& args.input.packed_at(ctx.device_id, p.launch.input, p.launch.dtype, seq![p.launch.rows, p.launch.cols])
            &&& args.bias matches Some(t) ==> t.packed_at(ctx.device_id, p.launch.bias, p.launch.dtype, seq![p.launch.cols])
            &&& args.bias is None ==> p.launch.bias == 0
            &&& args.residual.packed_at(ctx.device_id, p.launch.residual, p.launch.dtype, seq![p.launch.rows, p.launch.cols])
            &&& p.launch.weight == 0
            &&& p.launch.norm_bias == 0
            &&& p.launch.norm_style == 0
            &&& p.launch.gate_style == 0
            &&& args.hidden.packed_at(ctx.device_id, p.launch.hidden, p.launch.dtype, seq![p.launch.rows, p.launch.cols])
            &&& p.launch.normalized == 0
            &&& p.launch.eps.bits == 0x3586_37bd
            &&& p.policy == args.policy
            &&& p.stream == ctx.stream
            &&& p.runtime == ctx.runtime
            &&& p.launch.stream == ctx.stream.handle
        },
{
}

/// A sum with bias and residual that is RMS-normalized that goes on is computed as that: its kernel finds each
/// operand in its own role, and no operand that it does not take.
pub proof fn law_bias_residual_rms_norm_reads_each_operand_in_its_role(
    thread: &ThreadState,
    ctx: &CudaContext,
    args: BiasResidualRmsNormArgs<'_>,
    result: Result<PendingLaunch<NormLaunch>, Error>,
)
    requires
        norm_outcome(thread, ctx, &args.request(), result),
    ensures
        result matches Ok(p) ==> {
            &&& p.launch.semantic is BiasResidualRms
            &&& p.launch.dtype == args.input.dtype
            &&& args.input.packed_at(ctx.device_id, p.launch.input, p.launch.dtype, seq![p.launch.rows, p.launch.cols])
            &&& args.bias matches Some(t) ==> t.packed_at(ctx.device_id, p.launch.bias, p.launch.dtype, seq![p.launch.cols])
            &&& args.bias is None ==> p.launch.bias == 0
            &&& args.residual.packed_at(ctx.device_id, p.launch.residual, p.launch.dtype, seq![p.launch.rows, p.launch.cols])
            &&& args.weight.packed_at(ctx.device_id, p.launch.weight, p.launch.dtype, seq![p.launch.cols])
            &&& p.launch.norm_bias == 0
            &&& p.launch.norm_style == 0
            &&& p.launch.gate_style == 0
            &&& args.hidden.packed_at(ctx.device_id, p.launch.hidden, p.launch.dtype, seq![p.launch.rows, p.launch.cols])
            &&& args.normalized.packed_at(ctx.device_id, p.launch.normalized, p.launch.dtype, seq![p.launch.rows, p.launch.cols])
            &&& p.launch.eps == args.eps
            &&& p.policy == args.policy
            &&& p.stream == ctx.stream
            &&& p.runtime == ctx.runtime
            &&& p.launch.stream == ctx.stream.handle
        },
{
}

/// A sum with bias and residual that is layer-normalized that goes on is computed as that: its kernel finds each
/// operand in its own role, and no operand that it does not take.
pub proof fn law_bias_residual_layer_norm_reads_each_operand_in_its_role(
    thread: &ThreadState,
    ctx: &CudaContext,
    args: BiasResidualLayerNormArgs<'_>,
    result: Result<PendingLaunch<NormLaunch>, Error>,
)
    requires
        norm_outcome(thread, ctx, &args.request(), result),
    ensures
        result matches Ok(p) ==> {
            &&& p.launch.semantic is BiasResidualLayer
            &&& p.launch.dtype == args.input.dtype
            &&& args.input.packed_at(ctx.device_id, p.launch.input, p.launch.dtype, seq![p.launch.rows, p.launch.cols])
            &&& args.bias matches Some(t) ==> t.packed_at(ctx.device_id, p.launch.bias, p.launch.dtype, seq![p.launch.cols])
            &&& args.bias is None ==> p.launch.bias == 0
            &&& args.residual.packed_at(ctx.device_id, p.launch.residual, p.launch.dtype, seq![p.launch.rows, p.launch.cols])
            &&& args.weight.packed_at(ctx.device_id, p.launch.weight, p.launch.dtype, seq![p.launch.cols])
            &&& args.norm_bias.packed_at(ctx.device_id, p.launch.norm_bias, p.launch.dtype, seq![p.launch.cols])
            &&& p.launch.norm_style == 0
            &&& p.launch.gate_style == 0
            &&& args.hidden.packed_at(ctx.device_id, p.launch.hidden, p.launch.dtype, seq![p.launch.rows, p.launch.cols])
            &&& args.normalized.packed_at(ctx.device_id, p.launch.normalized, p.launch.dtype, seq![p.launch.rows, p.launch.cols])
            &&& p.launch.eps == args.eps
            &&& p.policy == args.policy
            &&& p.stream == ctx.stream
            &&& p.runtime == ctx.runtime
            &&& p.launch.stream == ctx.stream.handle
        },
{
}

/// A gated sum with a residual that goes on is computed as that: its kernel finds each
/// operand in its own role, and no operand that it does not take.
pub proof fn law_ada_gate_residual_reads_each_operand_in_its_role(
    thread: &ThreadState,
    ctx: &CudaContext,
    args: AdaGateResidualArgs<'_>,
    result: Result<PendingLaunch<NormLaunch>, Error>,
)
    requires
        norm_outcome(thread, ctx, &args.request(), result),
    ensures
        result matches Ok(p) ==> {
            &&& p.launch.semantic is AdaGateResidual
            &&& p.launch.dtype == args.input.dtype
            &&& args.input.packed_at(ctx.device_id, p.launch.input, p.launch.dtype, seq![p.launch.rows, p.launch.cols])
            &&& p.launch.bias == 0
            &&& args.residual.packed_at(ctx.device_id, p.launch.residual, p.launch.dtype, seq![p.launch.rows, p.launch.cols])
            &&& p.launch.weight == 0
            &&& p.launch.norm_bias == 0
            &&& p.launch.norm_style == 0
            &&& args.gate_style.starts_at(ctx.device_id, p.launch.gate_style)
            &&& 3 * args.input.extents()[1] <= usize::MAX && args.gate_style.holds(ctx.device_id, p.launch.dtype, seq![(3 * args.input.extents()[1]) as usize])
            &&& args.hidden.packed_at(ctx.device_id, p.launch.hidden, p.launch.dtype, seq![p.launch.rows, p.launch.cols])
            &&& p.launch.normalized == 0
            &&& p.launch.eps.bits == 0x3586_37bd
            &&& p.policy == args.policy
            &&& p.stream == ctx.stream
            &&& p.runtime == ctx.runtime
            &&& p.launch.stream == ctx.stream.handle
        },
{
}

/// A gated sum with a residual that is RMS-normalized that goes on is computed as that: its kernel finds each
/// operand in its own role, and no operand that it does not take.
pub proof fn law_ada_gate_residual_rms_norm_reads_each_operand_in_its_role(
    thread: &ThreadState,
    ctx: &CudaContext,
    args: AdaGateResidualRmsNormArgs<'_>,
    result: Result<PendingLaunch<NormLaunch>, Error>,
)
    requires
        norm_outcome(thread, ctx, &args.request(), result),
    ensures
        result matches Ok(p) ==> {
            &&& p.launch.semantic is AdaGateResidualRms
            &&& p.launch.dtype == args.input.dtype
            &&& args.input.packed_at(ctx.device_id, p.launch.input, p.launch.dtype, seq![p.launch.rows, p.launch.cols])
            &&& p.launch.bias == 0
            &&& args.residual.packed_at(ctx.device_id, p.launch.residual, p.launch.dtype, seq![p.launch.rows, p.launch.cols])
            &&& p.launch.weight == 0
            &&& p.launch.norm_bias == 0
            &&& args.norm_style.starts_at(ctx.device_id, p.launch.norm_style)
            &&& 2 * args.input.extents()[1] <= usize::MAX && args.norm_style.holds(ctx.device_id, p.launch.dtype, seq![(2 * args.input.extents()[1]) as usize])
            &&& args.gate_style.starts_at(ctx.device_id, p.launch.gate_style)
            &&& 3 * args.input.extents()[1] <= usize::MAX && args.gate_style.holds(ctx.device_id, p.launch.dtype, seq![(3 * args.input.extents()[1]) as usize])
            &&& args.hidden.packed_at(ctx.device_id, p.launch.hidden, p.launch.dtype, seq![p.launch.rows, p.launch.cols])
            &&& args.normalized.packed_at(ctx.device_id, p.launch.normalized, p.launch.dtype, seq![p.launch.rows, p.launch.cols])
            &&& p.launch.eps == args.eps
            &&& p.policy == args.policy
            &&& p.stream == ctx.stream
            &&& p.runtime == ctx.runtime
            &&& p.launch.stream == ctx.stream.handle
        },
{
}

/// A bias followed by a residual that goes on is computed as that: its kernel finds each
/// operand in its own role, and no operand that it does not take.
pub proof fn law_bias_then_residual_reads_each_operand_in_its_role(
    thread: &ThreadState,
    ctx: &CudaContext,
    args: BiasThenResidualArgs<'_>,
    result: Result<PendingLaunch<NormLaunch>, Error>,
)
    requires
        norm_outcome(thread, ctx, &args.request(), result),
    ensures
        result matches Ok(p) ==> {
            &&& p.launch.semantic is BiasThenResidual
            &&& p.launch.dtype == args.input.dtype
            &&& args.input.packed_at(ctx.device_id, p.launch.input, p.launch.dtype, seq![p.launch.rows, p.launch.cols])
            &&& args.bias matches Some(t) ==> t.packed_at(ctx.device_id, p.launch.bias, p.launch.dtype, seq![p.launch.cols])
            &&& args.bias is None ==> p.launch.bias == 0
            &&& args.residual.packed_at(ctx.device_id, p.launch.residual, p.launch.dtype, seq![p.launch.rows, p.launch.cols])
            &&& p.launch.weight == 0
            &&& p.launch.norm_bias == 0
            &&& p.launch.norm_style == 0
            &&& p.launch.gate_style == 0
            &&& args.hidden.packed_at(ctx.device_id, p.launch.hidden, p.launch.dtype, seq![p.launch.rows, p.launch.cols])
            &&& p.launch.normalized == 0
            &&& p.launch.eps.bits == 0x3586_37bd
            &&& p.policy == args.policy
            &&& p.stream == ctx.stream
            &&& p.runtime == ctx.runtime
            &&& p.launch.stream == ctx.stream.handle
        },
{
}

/// A normalization is accepted exactly when its epsilon is usable, its input
/// is a non-empty matrix of a half-precision type, and every operand that is
/// there fits that matrix.
pub proof fn law_normalizations_are_accepted_exactly_when_their_operands_fit(
    device: usize,
    r: &NormRequest<'_>,
)
    ensures
        norm_rejection(device, r) is None <==> {
            &&& 0 < r.eps.bits < 0x7f80_0000
            &&& r.input.extents().len() == 2
            &&& r.input.extents()[0] > 0 && r.input.extents()[1] > 0
            &&& r.input.dtype == DType::F16 || r.input.dtype == DType::BF16
            &&& (r.semantic is BiasThenResidual ==> r.input.dtype == DType::BF16)
            &&& r.input.holds(device, r.input.dtype, r.input.extents())
            &&& (r.bias matches Some(t) ==> t.holds(device, r.input.dtype, seq![r.input.extents()[1]]))
            &&& (r.weight matches Some(t) ==> t.holds(device, r.input.dtype, seq![r.input.extents()[1]]))
            &&& (r.norm_bias matches Some(t) ==> t.holds(device, r.input.dtype, seq![r.input.extents()[1]]))
            &&& (r.residual matches Some(t) ==> t.holds(device, r.input.dtype, r.input.extents()))
            &&& (r.hidden matches Some(t) ==> t.holds(device, r.input.dtype, r.input.extents()))
            &&& (r.normalized matches Some(t) ==> t.holds(device, r.input.dtype, r.input.extents()))
            &&& (r.norm_style matches Some(t) ==> 2 * r.input.extents()[1] <= usize::MAX && t.holds(device, r.input.dtype, seq![(2 * r.input.extents()[1]) as usize]))
            &&& (r.gate_style matches Some(t) ==> 3 * r.input.extents()[1] <= usize::MAX && t.holds(device, r.input.dtype, seq![(3 * r.input.extents()[1]) as usize]))
        },
{
    assert(r.input.extents().len() == 2 ==> r.input.extents() =~= seq![r.input.extents()[0], r.input.extents()[1]]);
}

} // verus!
