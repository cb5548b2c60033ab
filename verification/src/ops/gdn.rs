//! Gated DeltaNet primitives: the recurrent step, its gates, the causal
//! convolution window, and the gated output norm.
use vstd::prelude::*;

use crate::buffer::CudaBuffer;
use crate::context::CudaContext;
use crate::dtype::DType;
use crate::error::Error;
use crate::ops::binding::{
    dims_1, dims_2, dims_3, optional_address, optional_storage, tensor_storage,
};
use crate::scalar::F32Bits;
use crate::tensor::Tensor;

verus! {

/// Elements of the recurrent state a layer carries between tokens, of extents
/// `[v_heads, v_dim, k_dim]`.
pub fn gdn_state_elements(v_heads: usize, v_dim: usize, k_dim: usize) -> (elements: usize)
    requires
        v_heads * v_dim <= usize::MAX,
        (v_heads * v_dim) * k_dim <= usize::MAX,
    ensures
        elements == (v_heads * v_dim) * k_dim,
{
    v_heads * v_dim * k_dim
}

pub const GDN_STATE_TEXT: &'static str = "GDN state must be [v_heads, v_dim, k_dim]";

pub const GDN_HEADS_TEXT: &'static str = "GDN value heads must be a multiple of key heads";

/// The native launch of a recurrent step.
#[derive(Clone, Copy, Debug, PartialEq, Eq, Structural)]
pub struct GdnRecurrentStep {
    pub state: usize,
    pub q: usize,
    pub k: usize,
    pub v: usize,
    pub decay: usize,
    pub beta: usize,
    pub output: usize,
    pub v_heads: i64,
    pub k_heads: i64,
    pub v_dim: i64,
    pub k_dim: i64,
    pub stream: usize,
}

/// Why the step is refused, if it is.
pub open spec fn gdn_recurrent_step_rejection(
    device: usize,
    state: &Tensor,
    q: &Tensor,
    k: &Tensor,
    v: &Tensor,
    decay: &Tensor,
    beta: &Tensor,
    output: &Tensor,
    k_heads: usize,
) -> Option<Error> {
    let v_heads = state.extents()[0];
    let v_dim = state.extents()[1];
    let k_dim = state.extents()[2];
    if state.extents().len() != 3 {
        Some(Error::Other(GDN_STATE_TEXT))
    } else if k_heads == 0 || v_heads % k_heads != 0 {
        Some(Error::Other(GDN_HEADS_TEXT))
    } else {
        crate::ops::binding::first(
            crate::ops::binding::operand_rejection(device, state, DType::F32, seq![v_heads, v_dim, k_dim]),
            crate::ops::binding::first(
                crate::ops::binding::operand_rejection(device, q, DType::BF16, seq![k_heads, k_dim]),
                crate::ops::binding::first(
                    crate::ops::binding::operand_rejection(device, k, DType::BF16, seq![k_heads, k_dim]),
                    crate::ops::binding::first(
                        crate::ops::binding::operand_rejection(device, v, DType::BF16, seq![v_heads, v_dim]),
                        crate::ops::binding::first(
                            crate::ops::binding::operand_rejection(device, decay, DType::F32, seq![v_heads]),
                            crate::ops::binding::first(
                                crate::ops::binding::operand_rejection(device, beta, DType::F32, seq![v_heads]),
                                crate::ops::binding::operand_rejection(device, output, DType::BF16, seq![v_heads, v_dim]),
                            ),
                        ),
                    ),
                ),
            ),
        )
    }
}

/// The launch of an accepted step.
pub open spec fn gdn_recurrent_step_launch(
    ctx: &CudaContext,
    state: &Tensor,
    q: &Tensor,
    k: &Tensor,
    v: &Tensor,
    decay: &Tensor,
    beta: &Tensor,
    output: &Tensor,
    k_heads: usize,
) -> GdnRecurrentStep {
    let v_heads = state.extents()[0];
    let v_dim = state.extents()[1];
    let k_dim = state.extents()[2];
    GdnRecurrentStep {
        state: crate::ops::binding::bound_range(state).ptr,
        q: crate::ops::binding::bound_range(q).ptr,
        k: crate::ops::binding::bound_range(k).ptr,
        v: crate::ops::binding::bound_range(v).ptr,
        decay: crate::ops::binding::bound_range(decay).ptr,
        beta: crate::ops::binding::bound_range(beta).ptr,
        output: crate::ops::binding::bound_range(output).ptr,
        v_heads: v_heads as i64,
        k_heads: k_heads as i64,
        v_dim: v_dim as i64,
        k_dim: k_dim as i64,
        stream: ctx.stream.handle,
    }
}

/// One recurrent step: decay, delta-rule correction, rank-1 update, readout.
///
/// `state` is `[v_heads, v_dim, k_dim]` f32, updated in place. `q` and `k` are
/// `[k_heads, k_dim]`, `v` is `[v_heads, v_dim]`; value head `h` reads key head
/// `h / (v_heads / k_heads)`.
pub fn gdn_recurrent_step(
    ctx: &CudaContext,
    state: &Tensor,
    q: &Tensor,
    k: &Tensor,
    v: &Tensor,
    decay: &Tensor,
    beta: &Tensor,
    output: &Tensor,
    k_heads: usize,
) -> (launch: Result<GdnRecurrentStep, Error>)
    ensures
        match launch {
            Ok(l) => {
                &&& gdn_recurrent_step_rejection(ctx.device_id, state, q, k, v, decay, beta, output, k_heads) is None
                &&& l == gdn_recurrent_step_launch(ctx, state, q, k, v, decay, beta, output, k_heads)
                &&& state.packed_at(ctx.device_id, l.state, DType::F32, seq![l.v_heads, l.v_dim, l.k_dim])
                &&& q.packed_at(ctx.device_id, l.q, DType::BF16, seq![l.k_heads, l.k_dim])
                &&& k.packed_at(ctx.device_id, l.k, DType::BF16, seq![l.k_heads, l.k_dim])
                &&& v.packed_at(ctx.device_id, l.v, DType::BF16, seq![l.v_heads, l.v_dim])
                &&& decay.packed_at(ctx.device_id, l.decay, DType::F32, seq![l.v_heads])
                &&& beta.packed_at(ctx.device_id, l.beta, DType::F32, seq![l.v_heads])
                &&& output.packed_at(ctx.device_id, l.output, DType::BF16, seq![l.v_heads, l.v_dim])
                &&& l.stream == ctx.stream.handle
            },
            Err(e) => gdn_recurrent_step_rejection(ctx.device_id, state, q, k, v, decay, beta, output, k_heads) == Some(e),
        },
{
    if state.shape.dims().len() != 3 {
        return Err(Error::Other(GDN_STATE_TEXT));
    }
    let v_heads: usize = state.shape.dims()[0];
    if k_heads == 0 || v_heads % k_heads != 0 {
        return Err(Error::Other(GDN_HEADS_TEXT));
    }
    let v_dim: usize = state.shape.dims()[1];
    let k_dim: usize = state.shape.dims()[2];
    let state_storage: CudaBuffer = tensor_storage(ctx, state, DType::F32, &dims_3(v_heads, v_dim, k_dim))?;
    let q_storage: CudaBuffer = tensor_storage(ctx, q, DType::BF16, &dims_2(k_heads, k_dim))?;
    let k_storage: CudaBuffer = tensor_storage(ctx, k, DType::BF16, &dims_2(k_heads, k_dim))?;
    let v_storage: CudaBuffer = tensor_storage(ctx, v, DType::BF16, &dims_2(v_heads, v_dim))?;
    let decay_storage: CudaBuffer = tensor_storage(ctx, decay, DType::F32, &dims_1(v_heads))?;
    let beta_storage: CudaBuffer = tensor_storage(ctx, beta, DType::F32, &dims_1(v_heads))?;
    let output_storage: CudaBuffer = tensor_storage(ctx, output, DType::BF16, &dims_2(v_heads, v_dim))?;
    Ok(
        GdnRecurrentStep {
            state: state_storage.ptr(),
            q: q_storage.ptr(),
            k: k_storage.ptr(),
            v: v_storage.ptr(),
            decay: decay_storage.ptr(),
            beta: beta_storage.ptr(),
            output: output_storage.ptr(),
            v_heads: v_heads as i64,
            k_heads: k_heads as i64,
            v_dim: v_dim as i64,
            k_dim: k_dim as i64,
            stream: ctx.stream.handle,
        },
    )
}

pub const GDN_NORM_TEXT: &'static str = "GDN gated norm expects [heads, head_dim]";

/// The native launch of a gated norm.
#[derive(Clone, Copy, Debug, PartialEq, Eq, Structural)]
pub struct GdnGatedNorm {
    pub input: usize,
    pub gate: usize,
    pub weight: usize,
    pub output: usize,
    pub heads: i64,
    pub head_dim: i64,
    pub epsilon: F32Bits,
    pub stream: usize,
}

/// Why the step is refused, if it is.
pub open spec fn gdn_gated_norm_rejection(
    device: usize,
    input: &Tensor,
    gate: &Tensor,
    weight: &Tensor,
    output: &Tensor,
    epsilon: F32Bits,
) -> Option<Error> {
    let heads = input.extents()[0];
    let head_dim = input.extents()[1];
    if input.extents().len() != 2 {
        Some(Error::Other(GDN_NORM_TEXT))
    } else {
        crate::ops::binding::first(
            crate::ops::binding::operand_rejection(device, input, DType::BF16, seq![heads, head_dim]),
            crate::ops::binding::first(
                crate::ops::binding::operand_rejection(device, gate, DType::BF16, seq![heads, head_dim]),
                crate::ops::binding::first(
                    crate::ops::binding::operand_rejection(device, weight, DType::BF16, seq![head_dim]),
                    crate::ops::binding::operand_rejection(device, output, DType::BF16, seq![heads, head_dim]),
                ),
            ),
        )
    }
}

/// The launch of an accepted step.
pub open spec fn gdn_gated_norm_launch(
    ctx: &CudaContext,
    input: &Tensor,
    gate: &Tensor,
    weight: &Tensor,
    output: &Tensor,
    epsilon: F32Bits,
) -> GdnGatedNorm {
    let heads = input.extents()[0];
    let head_dim = input.extents()[1];
    GdnGatedNorm {
        input: crate::ops::binding::bound_range(input).ptr,
        gate: crate::ops::binding::bound_range(gate).ptr,
        weight: crate::ops::binding::bound_range(weight).ptr,
        output: crate::ops::binding::bound_range(output).ptr,
        heads: heads as i64,
        head_dim: head_dim as i64,
        epsilon: epsilon,
        stream: ctx.stream.handle,
    }
}

/// Per-head RMSNorm followed by the swish output gate.
pub fn gdn_gated_norm(
    ctx: &CudaContext,
    input: &Tensor,
    gate: &Tensor,
    weight: &Tensor,
    output: &Tensor,
    epsilon: F32Bits,
) -> (launch: Result<GdnGatedNorm, Error>)
    ensures
        match launch {
            Ok(l) => {
                &&& gdn_gated_norm_rejection(ctx.device_id, input, gate, weight, output, epsilon) is None
                &&& l == gdn_gated_norm_launch(ctx, input, gate, weight, output, epsilon)
                &&& input.packed_at(ctx.device_id, l.input, DType::BF16, seq![l.heads, l.head_dim])
                &&& gate.packed_at(ctx.device_id, l.gate, DType::BF16, seq![l.heads, l.head_dim])
                &&& weight.packed_at(ctx.device_id, l.weight, DType::BF16, seq![l.head_dim])
                &&& output.packed_at(ctx.device_id, l.output, DType::BF16, seq![l.heads, l.head_dim])
                &&& l.epsilon == epsilon
                &&& l.stream == ctx.stream.handle
            },
            Err(e) => gdn_gated_norm_rejection(ctx.device_id, input, gate, weight, output, epsilon) == Some(e),
        },
{
    if input.shape.dims().len() != 2 {
        return Err(Error::Other(GDN_NORM_TEXT));
    }
    let heads: usize = input.shape.dims()[0];
    let head_dim: usize = input.shape.dims()[1];
    let input_storage: CudaBuffer = tensor_storage(ctx, input, DType::BF16, &dims_2(heads, head_dim))?;
    let gate_storage: CudaBuffer = tensor_storage(ctx, gate, DType::BF16, &dims_2(heads, head_dim))?;
    let weight_storage: CudaBuffer = tensor_storage(ctx, weight, DType::BF16, &dims_1(head_dim))?;
    let output_storage: CudaBuffer = tensor_storage(ctx, output, DType::BF16, &dims_2(heads, head_dim))?;
    Ok(
        GdnGatedNorm {
            input: input_storage.ptr(),
            gate: gate_storage.ptr(),
            weight: weight_storage.ptr(),
            output: output_storage.ptr(),
            heads: heads as i64,
            head_dim: head_dim as i64,
            epsilon: epsilon,
            stream: ctx.stream.handle,
        },
    )
}

pub const GDN_WINDOW_TEXT: &'static str = "GDN conv window must be [channels, kernel_width]";

/// The native launch of a convolution step.
#[derive(Clone, Copy, Debug, PartialEq, Eq, Structural)]
pub struct GdnConvStep {
    pub window: usize,
    pub input: usize,
    pub weight: usize,
    pub output: usize,
    pub channels: i64,
    pub kernel_width: i64,
    pub stream: usize,
}

/// Why the step is refused, if it is.
pub open spec fn gdn_causal_conv_step_rejection(
    device: usize,
    window: &Tensor,
    input: &Tensor,
    weight: &Tensor,
    output: &Tensor,
) -> Option<Error> {
    let channels = window.extents()[0];
    let kernel_width = window.extents()[1];
    if window.extents().len() != 2 {
        Some(Error::Other(GDN_WINDOW_TEXT))
    } else {
        crate::ops::binding::first(
            crate::ops::binding::operand_rejection(device, window, DType::F32, seq![channels, kernel_width]),
            crate::ops::binding::first(
                crate::ops::binding::operand_rejection(device, input, DType::BF16, seq![channels]),
                crate::ops::binding::first(
                    crate::ops::binding::operand_rejection(device, weight, DType::BF16, seq![channels, kernel_width]),
                    crate::ops::binding::operand_rejection(device, output, DType::BF16, seq![channels]),
                ),
            ),
        )
    }
}

/// The launch of an accepted step.
pub open spec fn gdn_causal_conv_step_launch(
    ctx: &CudaContext,
    window: &Tensor,
    input: &Tensor,
    weight: &Tensor,
    output: &Tensor,
) -> GdnConvStep {
    let channels = window.extents()[0];
    let kernel_width = window.extents()[1];
    GdnConvStep {
        window: crate::ops::binding::bound_range(window).ptr,
        input: crate::ops::binding::bound_range(input).ptr,
        weight: crate::ops::binding::bound_range(weight).ptr,
        output: crate::ops::binding::bound_range(output).ptr,
        channels: channels as i64,
        kernel_width: kernel_width as i64,
        stream: ctx.stream.handle,
    }
}

/// Advances the causal convolution by one token, then applies SiLU.
///
/// `window` is `[channels, kernel_width]` f32 holding the last `kernel_width`
/// inputs per channel.
pub fn gdn_causal_conv_step(
    ctx: &CudaContext,
    window: &Tensor,
    input: &Tensor,
    weight: &Tensor,
    output: &Tensor,
) -> (launch: Result<GdnConvStep, Error>)
    ensures
        match launch {
            Ok(l) => {
                &&& gdn_causal_conv_step_rejection(ctx.device_id, window, input, weight, output) is None
                &&& l == gdn_causal_conv_step_launch(ctx, window, input, weight, output)
                &&& window.packed_at(ctx.device_id, l.window, DType::F32, seq![l.channels, l.kernel_width])
                &&& input.packed_at(ctx.device_id, l.input, DType::BF16, seq![l.channels])
                &&& weight.packed_at(ctx.device_id, l.weight, DType::BF16, seq![l.channels, l.kernel_width])
                &&& output.packed_at(ctx.device_id, l.output, DType::BF16, seq![l.channels])
                &&& l.stream == ctx.stream.handle
            },
            Err(e) => gdn_causal_conv_step_rejection(ctx.device_id, window, input, weight, output) == Some(e),
        },
{
    if window.shape.dims().len() != 2 {
        return Err(Error::Other(GDN_WINDOW_TEXT));
    }
    let channels: usize = window.shape.dims()[0];
    let kernel_width: usize = window.shape.dims()[1];
    let window_storage: CudaBuffer = tensor_storage(ctx, window, DType::F32, &dims_2(channels, kernel_width))?;
    let input_storage: CudaBuffer = tensor_storage(ctx, input, DType::BF16, &dims_1(channels))?;
    let weight_storage: CudaBuffer = tensor_storage(ctx, weight, DType::BF16, &dims_2(channels, kernel_width))?;
    let output_storage: CudaBuffer = tensor_storage(ctx, output, DType::BF16, &dims_1(channels))?;
    Ok(
        GdnConvStep {
            window: window_storage.ptr(),
            input: input_storage.ptr(),
            weight: weight_storage.ptr(),
            output: output_storage.ptr(),
            channels: channels as i64,
            kernel_width: kernel_width as i64,
            stream: ctx.stream.handle,
        },
    )
}

/// The native launch of a convolution over a prompt.
#[derive(Clone, Copy, Debug, PartialEq, Eq, Structural)]
pub struct GdnConvForward {
    pub input: usize,
    pub weight: usize,
    pub output: usize,
    pub window: usize,
    pub tokens: i64,
    pub channels: i64,
    pub kernel_width: i64,
    pub stream: usize,
}

/// Why the step is refused, if it is.
pub open spec fn gdn_causal_conv_forward_rejection(
    device: usize,
    input: &Tensor,
    weight: &Tensor,
    output: &Tensor,
    window: Option<&Tensor>,
    tokens: usize,
    channels: usize,
    kernel_width: usize,
) -> Option<Error> {
    crate::ops::binding::first(
        crate::ops::binding::operand_rejection(device, input, DType::BF16, seq![tokens, channels]),
        crate::ops::binding::first(
            crate::ops::binding::operand_rejection(device, weight, DType::BF16, seq![channels, kernel_width]),
            crate::ops::binding::first(
                crate::ops::binding::operand_rejection(device, output, DType::BF16, seq![tokens, channels]),
                crate::ops::binding::optional_rejection(device, window, DType::F32, seq![channels, kernel_width]),
            ),
        ),
    )
}

/// The launch of an accepted step.
pub open spec fn gdn_causal_conv_forward_launch(
    ctx: &CudaContext,
    input: &Tensor,
    weight: &Tensor,
    output: &Tensor,
    window: Option<&Tensor>,
    tokens: usize,
    channels: usize,
    kernel_width: usize,
) -> GdnConvForward {
    GdnConvForward {
        input: crate::ops::binding::bound_range(input).ptr,
        weight: crate::ops::binding::bound_range(weight).ptr,
        output: crate::ops::binding::bound_range(output).ptr,
        window: crate::ops::binding::optional_ptr(window),
        tokens: tokens as i64,
        channels: channels as i64,
        kernel_width: kernel_width as i64,
        stream: ctx.stream.handle,
    }
}

/// Causal depthwise convolution over a whole prompt, then SiLU.
///
/// `input` and `output` are `[tokens, channels]` and `weight` is
/// `[channels, kernel_width]`. A `window` takes the last `kernel_width` inputs in
/// the layout of [`gdn_causal_conv_step`], so decode continues from a prompt;
/// without one nothing may decode afterwards.
pub fn gdn_causal_conv_forward(
    ctx: &CudaContext,
    input: &Tensor,
    weight: &Tensor,
    output: &Tensor,
    window: Option<&Tensor>,
    tokens: usize,
    channels: usize,
    kernel_width: usize,
) -> (launch: Result<GdnConvForward, Error>)
    ensures
        match launch {
            Ok(l) => {
                &&& gdn_causal_conv_forward_rejection(ctx.device_id, input, weight, output, window, tokens, channels, kernel_width) is None
                &&& l == gdn_causal_conv_forward_launch(ctx, input, weight, output, window, tokens, channels, kernel_width)
                &&& input.packed_at(ctx.device_id, l.input, DType::BF16, seq![l.tokens, l.channels])
                &&& weight.packed_at(ctx.device_id, l.weight, DType::BF16, seq![l.channels, l.kernel_width])
                &&& output.packed_at(ctx.device_id, l.output, DType::BF16, seq![l.tokens, l.channels])
                &&& window matches Some(t) ==> t.packed_at(ctx.device_id, l.window, DType::F32, seq![l.channels, l.kernel_width])
                &&& window is None ==> l.window == 0
                &&& l.stream == ctx.stream.handle
            },
            Err(e) => gdn_causal_conv_forward_rejection(ctx.device_id, input, weight, output, window, tokens, channels, kernel_width) == Some(e),
        },
{
    let input_storage: CudaBuffer = tensor_storage(ctx, input, DType::BF16, &dims_2(tokens, channels))?;
    let weight_storage: CudaBuffer = tensor_storage(ctx, weight, DType::BF16, &dims_2(channels, kernel_width))?;
    let output_storage: CudaBuffer = tensor_storage(ctx, output, DType::BF16, &dims_2(tokens, channels))?;
    let window_storage: Option<CudaBuffer> = optional_storage(ctx, window, DType::F32, &dims_2(channels, kernel_width))?;
    Ok(
        GdnConvForward {
            input: input_storage.ptr(),
            weight: weight_storage.ptr(),
            output: output_storage.ptr(),
            window: optional_address(&window_storage),
            tokens: tokens as i64,
            channels: channels as i64,
            kernel_width: kernel_width as i64,
            stream: ctx.stream.handle,
        },
    )
}

/// The native launch of the gates of a prompt.
#[derive(Clone, Copy, Debug, PartialEq, Eq, Structural)]
pub struct GdnDecayBetaSeq {
    pub a: usize,
    pub b: usize,
    pub a_log: usize,
    pub dt_bias: usize,
    pub decay: usize,
    pub beta: usize,
    pub tokens: i64,
    pub heads: i64,
    pub stream: usize,
}

/// Why the step is refused, if it is.
pub open spec fn gdn_decay_and_beta_seq_rejection(
    device: usize,
    a: &Tensor,
    b: &Tensor,
    a_log: &Tensor,
    dt_bias: &Tensor,
    decay: &Tensor,
    beta: &Tensor,
    tokens: usize,
    heads: usize,
) -> Option<Error> {
    crate::ops::binding::first(
        crate::ops::binding::operand_rejection(device, a, DType::BF16, seq![tokens, heads]),
        crate::ops::binding::first(
            crate::ops::binding::operand_rejection(device, b, DType::BF16, seq![tokens, heads]),
            crate::ops::binding::first(
                crate::ops::binding::operand_rejection(device, a_log, DType::BF16, seq![heads]),
                crate::ops::binding::first(
                    crate::ops::binding::operand_rejection(device, dt_bias, DType::BF16, seq![heads]),
                    crate::ops::binding::first(
                        crate::ops::binding::operand_rejection(device, decay, DType::F32, seq![tokens, heads]),
                        crate::ops::binding::operand_rejection(device, beta, DType::F32, seq![tokens, heads]),
                    ),
                ),
            ),
        ),
    )
}

/// The launch of an accepted step.
pub open spec fn gdn_decay_and_beta_seq_launch(
    ctx: &CudaContext,
    a: &Tensor,
    b: &Tensor,
    a_log: &Tensor,
    dt_bias: &Tensor,
    decay: &Tensor,
    beta: &Tensor,
    tokens: usize,
    heads: usize,
) -> GdnDecayBetaSeq {
    GdnDecayBetaSeq {
        a: crate::ops::binding::bound_range(a).ptr,
        b: crate::ops::binding::bound_range(b).ptr,
        a_log: crate::ops::binding::bound_range(a_log).ptr,
        dt_bias: crate::ops::binding::bound_range(dt_bias).ptr,
        decay: crate::ops::binding::bound_range(decay).ptr,
        beta: crate::ops::binding::bound_range(beta).ptr,
        tokens: tokens as i64,
        heads: heads as i64,
        stream: ctx.stream.handle,
    }
}

/// Sequence-axis [`gdn_decay_and_beta`].
///
/// `a` and `b` are `[tokens, heads]`, `decay` and `beta` `[tokens, heads]` f32;
/// `a_log` and `dt_bias` stay per head.
pub fn gdn_decay_and_beta_seq(
    ctx: &CudaContext,
    a: &Tensor,
    b: &Tensor,
    a_log: &Tensor,
    dt_bias: &Tensor,
    decay: &Tensor,
    beta: &Tensor,
    tokens: usize,
    heads: usize,
) -> (launch: Result<GdnDecayBetaSeq, Error>)
    ensures
        match launch {
            Ok(l) => {
                &&& gdn_decay_and_beta_seq_rejection(ctx.device_id, a, b, a_log, dt_bias, decay, beta, tokens, heads) is None
                &&& l == gdn_decay_and_beta_seq_launch(ctx, a, b, a_log, dt_bias, decay, beta, tokens, heads)
                &&& a.packed_at(ctx.device_id, l.a, DType::BF16, seq![l.tokens, l.heads])
                &&& b.packed_at(ctx.device_id, l.b, DType::BF16, seq![l.tokens, l.heads])
                &&& a_log.packed_at(ctx.device_id, l.a_log, DType::BF16, seq![l.heads])
                &&& dt_bias.packed_at(ctx.device_id, l.dt_bias, DType::BF16, seq![l.heads])
                &&& decay.packed_at(ctx.device_id, l.decay, DType::F32, seq![l.tokens, l.heads])
                &&& beta.packed_at(ctx.device_id, l.beta, DType::F32, seq![l.tokens, l.heads])
                &&& l.stream == ctx.stream.handle
            },
            Err(e) => gdn_decay_and_beta_seq_rejection(ctx.device_id, a, b, a_log, dt_bias, decay, beta, tokens, heads) == Some(e),
        },
{
    let a_storage: CudaBuffer = tensor_storage(ctx, a, DType::BF16, &dims_2(tokens, heads))?;
    let b_storage: CudaBuffer = tensor_storage(ctx, b, DType::BF16, &dims_2(tokens, heads))?;
    let a_log_storage: CudaBuffer = tensor_storage(ctx, a_log, DType::BF16, &dims_1(heads))?;
    let dt_bias_storage: CudaBuffer = tensor_storage(ctx, dt_bias, DType::BF16, &dims_1(heads))?;
    let decay_storage: CudaBuffer = tensor_storage(ctx, decay, DType::F32, &dims_2(tokens, heads))?;
    let beta_storage: CudaBuffer = tensor_storage(ctx, beta, DType::F32, &dims_2(tokens, heads))?;
    Ok(
        GdnDecayBetaSeq {
            a: a_storage.ptr(),
            b: b_storage.ptr(),
            a_log: a_log_storage.ptr(),
            dt_bias: dt_bias_storage.ptr(),
            decay: decay_storage.ptr(),
            beta: beta_storage.ptr(),
            tokens: tokens as i64,
            heads: heads as i64,
            stream: ctx.stream.handle,
        },
    )
}

/// The native launch of a gated norm over a prompt.
#[derive(Clone, Copy, Debug, PartialEq, Eq, Structural)]
pub struct GdnGatedNormSeq {
    pub input: usize,
    pub gate: usize,
    pub weight: usize,
    pub output: usize,
    pub tokens: i64,
    pub heads: i64,
    pub head_dim: i64,
    pub epsilon: F32Bits,
    pub stream: usize,
}

/// Why the step is refused, if it is.
pub open spec fn gdn_gated_norm_seq_rejection(
    device: usize,
    input: &Tensor,
    gate: &Tensor,
    weight: &Tensor,
    output: &Tensor,
    tokens: usize,
    heads: usize,
    head_dim: usize,
    epsilon: F32Bits,
) -> Option<Error> {
    crate::ops::binding::first(
        crate::ops::binding::operand_rejection(device, input, DType::BF16, seq![tokens, heads, head_dim]),
        crate::ops::binding::first(
            crate::ops::binding::operand_rejection(device, gate, DType::BF16, seq![tokens, heads, head_dim]),
            crate::ops::binding::first(
                crate::ops::binding::operand_rejection(device, weight, DType::BF16, seq![head_dim]),
                crate::ops::binding::operand_rejection(device, output, DType::BF16, seq![tokens, heads, head_dim]),
            ),
        ),
    )
}

/// The launch of an accepted step.
pub open spec fn gdn_gated_norm_seq_launch(
    ctx: &CudaContext,
    input: &Tensor,
    gate: &Tensor,
    weight: &Tensor,
    output: &Tensor,
    tokens: usize,
    heads: usize,
    head_dim: usize,
    epsilon: F32Bits,
) -> GdnGatedNormSeq {
    GdnGatedNormSeq {
        input: crate::ops::binding::bound_range(input).ptr,
        gate: crate::ops::binding::bound_range(gate).ptr,
        weight: crate::ops::binding::bound_range(weight).ptr,
        output: crate::ops::binding::bound_range(output).ptr,
        tokens: tokens as i64,
        heads: heads as i64,
        head_dim: head_dim as i64,
        epsilon: epsilon,
        stream: ctx.stream.handle,
    }
}

/// Sequence-axis [`gdn_gated_norm`]. Tensors are `[tokens, heads, head_dim]`.
pub fn gdn_gated_norm_seq(
    ctx: &CudaContext,
    input: &Tensor,
    gate: &Tensor,
    weight: &Tensor,
    output: &Tensor,
    tokens: usize,
    heads: usize,
    head_dim: usize,
    epsilon: F32Bits,
) -> (launch: Result<GdnGatedNormSeq, Error>)
    ensures
        match launch {
            Ok(l) => {
                &&& gdn_gated_norm_seq_rejection(ctx.device_id, input, gate, weight, output, tokens, heads, head_dim, epsilon) is None
                &&& l == gdn_gated_norm_seq_launch(ctx, input, gate, weight, output, tokens, heads, head_dim, epsilon)
                &&& input.packed_at(ctx.device_id, l.input, DType::BF16, seq![l.tokens, l.heads, l.head_dim])
                &&& gate.packed_at(ctx.device_id, l.gate, DType::BF16, seq![l.tokens, l.heads, l.head_dim])
                &&& weight.packed_at(ctx.device_id, l.weight, DType::BF16, seq![l.head_dim])
                &&& output.packed_at(ctx.device_id, l.output, DType::BF16, seq![l.tokens, l.heads, l.head_dim])
                &&& l.epsilon == epsilon
                &&& l.stream == ctx.stream.handle
            },
            Err(e) => gdn_gated_norm_seq_rejection(ctx.device_id, input, gate, weight, output, tokens, heads, head_dim, epsilon) == Some(e),
        },
{
    let input_storage: CudaBuffer = tensor_storage(ctx, input, DType::BF16, &dims_3(tokens, heads, head_dim))?;
    let gate_storage: CudaBuffer = tensor_storage(ctx, gate, DType::BF16, &dims_3(tokens, heads, head_dim))?;
    let weight_storage: CudaBuffer = tensor_storage(ctx, weight, DType::BF16, &dims_1(head_dim))?;
    let output_storage: CudaBuffer = tensor_storage(ctx, output, DType::BF16, &dims_3(tokens, heads, head_dim))?;
    Ok(
        GdnGatedNormSeq {
            input: input_storage.ptr(),
            gate: gate_storage.ptr(),
            weight: weight_storage.ptr(),
            output: output_storage.ptr(),
            tokens: tokens as i64,
            heads: heads as i64,
            head_dim: head_dim as i64,
            epsilon: epsilon,
            stream: ctx.stream.handle,
        },
    )
}

pub const GDN_L2_TEXT: &'static str = "GDN head normalization expects [heads, head_dim]";

/// The native launch of a head normalization.
#[derive(Clone, Copy, Debug, PartialEq, Eq, Structural)]
pub struct GdnL2Normalize {
    pub data: usize,
    pub heads: i64,
    pub head_dim: i64,
    pub epsilon: F32Bits,
    pub stream: usize,
}

/// Why the step is refused, if it is.
pub open spec fn gdn_l2_normalize_heads_rejection(
    device: usize,
    data: &Tensor,
    epsilon: F32Bits,
) -> Option<Error> {
    let heads = data.extents()[0];
    let head_dim = data.extents()[1];
    if data.extents().len() != 2 {
        Some(Error::Other(GDN_L2_TEXT))
    } else {
        crate::ops::binding::operand_rejection(device, data, DType::BF16, seq![heads, head_dim])
    }
}

/// The launch of an accepted step.
pub open spec fn gdn_l2_normalize_heads_launch(
    ctx: &CudaContext,
    data: &Tensor,
    epsilon: F32Bits,
) -> GdnL2Normalize {
    let heads = data.extents()[0];
    let head_dim = data.extents()[1];
    GdnL2Normalize {
        data: crate::ops::binding::bound_range(data).ptr,
        heads: heads as i64,
        head_dim: head_dim as i64,
        epsilon: epsilon,
        stream: ctx.stream.handle,
    }
}

/// L2-normalizes each head in place.
pub fn gdn_l2_normalize_heads(
    ctx: &CudaContext,
    data: &Tensor,
    epsilon: F32Bits,
) -> (launch: Result<GdnL2Normalize, Error>)
    ensures
        match launch {
            Ok(l) => {
                &&& gdn_l2_normalize_heads_rejection(ctx.device_id, data, epsilon) is None
                &&& l == gdn_l2_normalize_heads_launch(ctx, data, epsilon)
                &&& data.packed_at(ctx.device_id, l.data, DType::BF16, seq![l.heads, l.head_dim])
                &&& l.epsilon == epsilon
                &&& l.stream == ctx.stream.handle
            },
            Err(e) => gdn_l2_normalize_heads_rejection(ctx.device_id, data, epsilon) == Some(e),
        },
{
    if data.shape.dims().len() != 2 {
        return Err(Error::Other(GDN_L2_TEXT));
    }
    let heads: usize = data.shape.dims()[0];
    let head_dim: usize = data.shape.dims()[1];
    let data_storage: CudaBuffer = tensor_storage(ctx, data, DType::BF16, &dims_2(heads, head_dim))?;
    Ok(
        GdnL2Normalize {
            data: data_storage.ptr(),
            heads: heads as i64,
            head_dim: head_dim as i64,
            epsilon: epsilon,
            stream: ctx.stream.handle,
        },
    )
}

pub const GDN_GATE_TEXT: &'static str = "GDN gate inputs must be [heads]";

/// The native launch of the gates of a token.
#[derive(Clone, Copy, Debug, PartialEq, Eq, Structural)]
pub struct GdnDecayBeta {
    pub a: usize,
    pub b: usize,
    pub a_log: usize,
    pub dt_bias: usize,
    pub decay: usize,
    pub beta: usize,
    pub heads: i64,
    pub stream: usize,
}

/// Why the step is refused, if it is.
pub open spec fn gdn_decay_and_beta_rejection(
    device: usize,
    a: &Tensor,
    b: &Tensor,
    a_log: &Tensor,
    dt_bias: &Tensor,
    decay: &Tensor,
    beta: &Tensor,
) -> Option<Error> {
    let heads = a.extents()[0];
    if a.extents().len() != 1 {
        Some(Error::Other(GDN_GATE_TEXT))
    } else {
        crate::ops::binding::first(
            crate::ops::binding::operand_rejection(device, a, DType::BF16, seq![heads]),
            crate::ops::binding::first(
                crate::ops::binding::operand_rejection(device, b, DType::BF16, seq![heads]),
                crate::ops::binding::first(
                    crate::ops::binding::operand_rejection(device, a_log, DType::BF16, seq![heads]),
                    crate::ops::binding::first(
                        crate::ops::binding::operand_rejection(device, dt_bias, DType::BF16, seq![heads]),
                        crate::ops::binding::first(
                            crate::ops::binding::operand_rejection(device, decay, DType::F32, seq![heads]),
                            crate::ops::binding::operand_rejection(device, beta, DType::F32, seq![heads]),
                        ),
                    ),
                ),
            ),
        )
    }
}

/// The launch of an accepted step.
pub open spec fn gdn_decay_and_beta_launch(
    ctx: &CudaContext,
    a: &Tensor,
    b: &Tensor,
    a_log: &Tensor,
    dt_bias: &Tensor,
    decay: &Tensor,
    beta: &Tensor,
) -> GdnDecayBeta {
    let heads = a.extents()[0];
    GdnDecayBeta {
        a: crate::ops::binding::bound_range(a).ptr,
        b: crate::ops::binding::bound_range(b).ptr,
        a_log: crate::ops::binding::bound_range(a_log).ptr,
        dt_bias: crate::ops::binding::bound_range(dt_bias).ptr,
        decay: crate::ops::binding::bound_range(decay).ptr,
        beta: crate::ops::binding::bound_range(beta).ptr,
        heads: heads as i64,
        stream: ctx.stream.handle,
    }
}

/// `decay = -exp(a_log) * softplus(a + dt_bias)`, `beta = sigmoid(b)`.
pub fn gdn_decay_and_beta(
    ctx: &CudaContext,
    a: &Tensor,
    b: &Tensor,
    a_log: &Tensor,
    dt_bias: &Tensor,
    decay: &Tensor,
    beta: &Tensor,
) -> (launch: Result<GdnDecayBeta, Error>)
    ensures
        match launch {
            Ok(l) => {
                &&& gdn_decay_and_beta_rejection(ctx.device_id, a, b, a_log, dt_bias, decay, beta) is None
                &&& l == gdn_decay_and_beta_launch(ctx, a, b, a_log, dt_bias, decay, beta)
                &&& a.packed_at(ctx.device_id, l.a, DType::BF16, seq![l.heads])
                &&& b.packed_at(ctx.device_id, l.b, DType::BF16, seq![l.heads])
                &&& a_log.packed_at(ctx.device_id, l.a_log, DType::BF16, seq![l.heads])
                &&& dt_bias.packed_at(ctx.device_id, l.dt_bias, DType::BF16, seq![l.heads])
                &&& decay.packed_at(ctx.device_id, l.decay, DType::F32, seq![l.heads])
                &&& beta.packed_at(ctx.device_id, l.beta, DType::F32, seq![l.heads])
                &&& l.stream == ctx.stream.handle
            },
            Err(e) => gdn_decay_and_beta_rejection(ctx.device_id, a, b, a_log, dt_bias, decay, beta) == Some(e),
        },
{
    if a.shape.dims().len() != 1 {
        return Err(Error::Other(GDN_GATE_TEXT));
    }
    let heads: usize = a.shape.dims()[0];
    let a_storage: CudaBuffer = tensor_storage(ctx, a, DType::BF16, &dims_1(heads))?;
    let b_storage: CudaBuffer = tensor_storage(ctx, b, DType::BF16, &dims_1(heads))?;
    let a_log_storage: CudaBuffer = tensor_storage(ctx, a_log, DType::BF16, &dims_1(heads))?;
    let dt_bias_storage: CudaBuffer = tensor_storage(ctx, dt_bias, DType::BF16, &dims_1(heads))?;
    let decay_storage: CudaBuffer = tensor_storage(ctx, decay, DType::F32, &dims_1(heads))?;
    let beta_storage: CudaBuffer = tensor_storage(ctx, beta, DType::F32, &dims_1(heads))?;
    Ok(
        GdnDecayBeta {
            a: a_storage.ptr(),
            b: b_storage.ptr(),
            a_log: a_log_storage.ptr(),
            dt_bias: dt_bias_storage.ptr(),
            decay: decay_storage.ptr(),
            beta: beta_storage.ptr(),
            heads: heads as i64,
            stream: ctx.stream.handle,
        },
    )
}

pub const GDN_SQUARE_TEXT: &'static str = "GDN chunk scan expects square v_dim == k_dim state";

pub const GDN_CHUNK_TEXT: &'static str = "GDN chunk size must be positive";

pub const GDN_QUERY_TEXT: &'static str = "GDN chunk scan q must be [seq, k_heads, k_dim]";

pub const GDN_SEQUENCE_TEXT: &'static str = "GDN chunk scan seq must be a multiple of chunk_size";

/// The native launch of a chunked scan; strides are in elements per token.
#[derive(Clone, Copy, Debug, PartialEq, Eq, Structural)]
pub struct GdnChunkScan {
    pub q: usize,
    pub k: usize,
    pub v: usize,
    pub g: usize,
    pub beta: usize,
    pub out: usize,
    pub state: usize,
    pub seq_padded: i64,
    pub v_heads: i64,
    pub k_heads: i64,
    pub chunk_size: i64,
    pub k_dim: i64,
    pub num_chunks: i64,
    pub q_stride: i64,
    pub k_stride: i64,
    pub v_stride: i64,
    pub stream: usize,
}

/// Why the step is refused, if it is.
pub open spec fn gdn_chunk_scan_rejection(
    device: usize,
    q: &Tensor,
    k: &Tensor,
    v: &Tensor,
    g: &Tensor,
    beta: &Tensor,
    out: &Tensor,
    state: &Tensor,
    v_heads: usize,
    k_heads: usize,
    chunk_size: usize,
) -> Option<Error> {
    let v_dim = state.extents()[1];
    let k_dim = state.extents()[2];
    let seq_padded = q.extents()[0];
    if state.extents().len() != 3 {
        Some(Error::Other(GDN_STATE_TEXT))
    } else if state.extents()[0] != v_heads || v_dim != k_dim {
        Some(Error::Other(GDN_SQUARE_TEXT))
    } else if k_heads == 0 || v_heads % k_heads != 0 {
        Some(Error::Other(GDN_HEADS_TEXT))
    } else if chunk_size == 0 {
        Some(Error::Other(GDN_CHUNK_TEXT))
    } else if q.extents().len() != 3 {
        Some(Error::Other(GDN_QUERY_TEXT))
    } else if seq_padded % chunk_size != 0 {
        Some(Error::Other(GDN_SEQUENCE_TEXT))
    } else {
        crate::ops::binding::first(
            crate::ops::binding::operand_rejection(device, q, DType::BF16, seq![seq_padded, k_heads, k_dim]),
            crate::ops::binding::first(
                crate::ops::binding::operand_rejection(device, k, DType::BF16, seq![seq_padded, k_heads, k_dim]),
                crate::ops::binding::first(
                    crate::ops::binding::operand_rejection(device, v, DType::BF16, seq![seq_padded, v_heads, v_dim]),
                    crate::ops::binding::first(
                        crate::ops::binding::operand_rejection(device, g, DType::F32, seq![seq_padded, v_heads]),
                        crate::ops::binding::first(
                            crate::ops::binding::operand_rejection(device, beta, DType::F32, seq![seq_padded, v_heads]),
                            crate::ops::binding::first(
                                crate::ops::binding::operand_rejection(device, out, DType::BF16, seq![seq_padded, v_heads, v_dim]),
                                crate::ops::binding::operand_rejection(device, state, DType::F32, seq![v_heads, v_dim, k_dim]),
                            ),
                        ),
                    ),
                ),
            ),
        )
    }
}

/// The launch of an accepted step.
pub open spec fn gdn_chunk_scan_launch(
    ctx: &CudaContext,
    q: &Tensor,
    k: &Tensor,
    v: &Tensor,
    g: &Tensor,
    beta: &Tensor,
    out: &Tensor,
    state: &Tensor,
    v_heads: usize,
    k_heads: usize,
    chunk_size: usize,
) -> GdnChunkScan {
    let v_dim = state.extents()[1];
    let k_dim = state.extents()[2];
    let seq_padded = q.extents()[0];
    GdnChunkScan {
        q: crate::ops::binding::bound_range(q).ptr,
        k: crate::ops::binding::bound_range(k).ptr,
        v: crate::ops::binding::bound_range(v).ptr,
        g: crate::ops::binding::bound_range(g).ptr,
        beta: crate::ops::binding::bound_range(beta).ptr,
        out: crate::ops::binding::bound_range(out).ptr,
        state: crate::ops::binding::bound_range(state).ptr,
        seq_padded: seq_padded as i64,
        v_heads: v_heads as i64,
        k_heads: k_heads as i64,
        chunk_size: chunk_size as i64,
        k_dim: k_dim as i64,
        num_chunks: (seq_padded as int / chunk_size as int) as i64,
        q_stride: (k_heads * k_dim) as i64,
        k_stride: (k_heads * k_dim) as i64,
        v_stride: (v_heads * k_dim) as i64,
        stream: ctx.stream.handle,
    }
}

/// The operands of an accepted scan.
#[derive(Clone, Copy, Debug, PartialEq, Eq, Structural)]
pub struct GdnScanOperands {
    pub q: usize,
    pub k: usize,
    pub v: usize,
    pub g: usize,
    pub beta: usize,
    pub out: usize,
    pub state: usize,
    pub seq_padded: usize,
    pub k_dim: usize,
}

/// Refuses a scan whose operands do not fit together, and gives the operands
/// of any other.
///
/// A scan that is accepted may still have rows too wide to address; such a
/// scan must not be launched.
pub fn gdn_chunk_scan_operands(
    ctx: &CudaContext,
    q: &Tensor,
    k: &Tensor,
    v: &Tensor,
    g: &Tensor,
    beta: &Tensor,
    out: &Tensor,
    state: &Tensor,
    v_heads: usize,
    k_heads: usize,
    chunk_size: usize,
) -> (operands: Result<GdnScanOperands, Error>)
    ensures
        match operands {
            Ok(o) => {
                &&& gdn_chunk_scan_rejection(ctx.device_id, q, k, v, g, beta, out, state, v_heads, k_heads, chunk_size) is None
                &&& o == (GdnScanOperands {
                    q: crate::ops::binding::bound_range(q).ptr,
                    k: crate::ops::binding::bound_range(k).ptr,
                    v: crate::ops::binding::bound_range(v).ptr,
                    g: crate::ops::binding::bound_range(g).ptr,
                    beta: crate::ops::binding::bound_range(beta).ptr,
                    out: crate::ops::binding::bound_range(out).ptr,
                    state: crate::ops::binding::bound_range(state).ptr,
                    seq_padded: q.extents()[0],
                    k_dim: state.extents()[2],
                })
                &&& q.packed_at(ctx.device_id, o.q, DType::BF16, seq![o.seq_padded as i64, k_heads as i64, o.k_dim as i64])
                &&& k.packed_at(ctx.device_id, o.k, DType::BF16, seq![o.seq_padded as i64, k_heads as i64, o.k_dim as i64])
                &&& v.packed_at(ctx.device_id, o.v, DType::BF16, seq![o.seq_padded as i64, v_heads as i64, o.k_dim as i64])
                &&& g.packed_at(ctx.device_id, o.g, DType::F32, seq![o.seq_padded as i64, v_heads as i64])
                &&& beta.packed_at(ctx.device_id, o.beta, DType::F32, seq![o.seq_padded as i64, v_heads as i64])
                &&& out.packed_at(ctx.device_id, o.out, DType::BF16, seq![o.seq_padded as i64, v_heads as i64, o.k_dim as i64])
                &&& state.packed_at(ctx.device_id, o.state, DType::F32, seq![v_heads as i64, o.k_dim as i64, o.k_dim as i64])
            },
            Err(e) => gdn_chunk_scan_rejection(ctx.device_id, q, k, v, g, beta, out, state, v_heads, k_heads, chunk_size) == Some(e),
        },
{
    if state.shape.dims().len() != 3 {
        return Err(Error::Other(GDN_STATE_TEXT));
    }
    let v_dim: usize = state.shape.dims()[1];
    let k_dim: usize = state.shape.dims()[2];
    if state.shape.dims()[0] != v_heads || v_dim != k_dim {
        return Err(Error::Other(GDN_SQUARE_TEXT));
    }
    if k_heads == 0 || v_heads % k_heads != 0 {
        return Err(Error::Other(GDN_HEADS_TEXT));
    }
    if chunk_size == 0 {
        return Err(Error::Other(GDN_CHUNK_TEXT));
    }
    if q.shape.dims().len() != 3 {
        return Err(Error::Other(GDN_QUERY_TEXT));
    }
    let seq_padded: usize = q.shape.dims()[0];
    if seq_padded % chunk_size != 0 {
        return Err(Error::Other(GDN_SEQUENCE_TEXT));
    }
    let q_storage: CudaBuffer = tensor_storage(ctx, q, DType::BF16, &dims_3(seq_padded, k_heads, k_dim))?;
    let k_storage: CudaBuffer = tensor_storage(ctx, k, DType::BF16, &dims_3(seq_padded, k_heads, k_dim))?;
    let v_storage: CudaBuffer = tensor_storage(ctx, v, DType::BF16, &dims_3(seq_padded, v_heads, v_dim))?;
    let g_storage: CudaBuffer = tensor_storage(ctx, g, DType::F32, &dims_2(seq_padded, v_heads))?;
    let beta_storage: CudaBuffer = tensor_storage(ctx, beta, DType::F32, &dims_2(seq_padded, v_heads))?;
    let out_storage: CudaBuffer = tensor_storage(ctx, out, DType::BF16, &dims_3(seq_padded, v_heads, v_dim))?;
    let state_storage: CudaBuffer = tensor_storage(ctx, state, DType::F32, &dims_3(v_heads, v_dim, k_dim))?;
    Ok(
        GdnScanOperands {
            q: q_storage.ptr(),
            k: k_storage.ptr(),
            v: v_storage.ptr(),
            g: g_storage.ptr(),
            beta: beta_storage.ptr(),
            out: out_storage.ptr(),
            state: state_storage.ptr(),
            seq_padded,
            k_dim,
        },
    )
}

/// Chunked parallel scan over `seq_padded` tokens (prefill).
///
/// Leaves `state` in exactly the form [`gdn_recurrent_step`] expects, so a prompt
/// run through this scan and then decoded continues from an identical state.
///
/// `q` and `k` are `[seq_padded, k_heads, k_dim]`, `v` and `out` are
/// `[seq_padded, v_heads, k_dim]`, `g` and `beta` are `[seq_padded, v_heads]` f32,
/// and `state` is `[v_heads, k_dim, k_dim]` f32, updated in place. `seq_padded`
/// must be a multiple of `chunk_size`.
pub fn gdn_chunk_scan(
    ctx: &CudaContext,
    q: &Tensor,
    k: &Tensor,
    v: &Tensor,
    g: &Tensor,
    beta: &Tensor,
    out: &Tensor,
    state: &Tensor,
    v_heads: usize,
    k_heads: usize,
    chunk_size: usize,
) -> (launch: Result<GdnChunkScan, Error>)
    requires
        gdn_chunk_scan_rejection(ctx.device_id, q, k, v, g, beta, out, state, v_heads, k_heads, chunk_size) is None
            ==> k_heads * state.extents()[2] <= usize::MAX,
        gdn_chunk_scan_rejection(ctx.device_id, q, k, v, g, beta, out, state, v_heads, k_heads, chunk_size) is None
            ==> v_heads * state.extents()[2] <= usize::MAX,
    ensures
        match launch {
            Ok(l) => {
                &&& gdn_chunk_scan_rejection(ctx.device_id, q, k, v, g, beta, out, state, v_heads, k_heads, chunk_size) is None
                &&& l == gdn_chunk_scan_launch(ctx, q, k, v, g, beta, out, state, v_heads, k_heads, chunk_size)
                &&& q.packed_at(ctx.device_id, l.q, DType::BF16, seq![l.seq_padded, l.k_heads, l.k_dim])
                &&& k.packed_at(ctx.device_id, l.k, DType::BF16, seq![l.seq_padded, l.k_heads, l.k_dim])
                &&& v.packed_at(ctx.device_id, l.v, DType::BF16, seq![l.seq_padded, l.v_heads, l.k_dim])
                &&& g.packed_at(ctx.device_id, l.g, DType::F32, seq![l.seq_padded, l.v_heads])
                &&& beta.packed_at(ctx.device_id, l.beta, DType::F32, seq![l.seq_padded, l.v_heads])
                &&& out.packed_at(ctx.device_id, l.out, DType::BF16, seq![l.seq_padded, l.v_heads, l.k_dim])
                &&& state.packed_at(ctx.device_id, l.state, DType::F32, seq![l.v_heads, l.k_dim, l.k_dim])
                &&& l.chunk_size == chunk_size as i64
                &&& l.stream == ctx.stream.handle
            },
            Err(e) => gdn_chunk_scan_rejection(ctx.device_id, q, k, v, g, beta, out, state, v_heads, k_heads, chunk_size) == Some(e),
        },
{
    let o: GdnScanOperands = gdn_chunk_scan_operands(ctx, q, k, v, g, beta, out, state, v_heads, k_heads, chunk_size)?;
    Ok(
        GdnChunkScan {
            q: o.q,
            k: o.k,
            v: o.v,
            g: o.g,
            beta: o.beta,
            out: o.out,
            state: o.state,
            seq_padded: o.seq_padded as i64,
            v_heads: v_heads as i64,
            k_heads: k_heads as i64,
            chunk_size: chunk_size as i64,
            k_dim: o.k_dim as i64,
            num_chunks: (o.seq_padded / chunk_size) as i64,
            q_stride: (k_heads * o.k_dim) as i64,
            k_stride: (k_heads * o.k_dim) as i64,
            v_stride: (v_heads * o.k_dim) as i64,
            stream: ctx.stream.handle,
        },
    )
}

pub const GDN_MULTIPLE_TEXT: &'static str = "GDN chunk scan needs a multiple of chunk_size";

pub const GDN_OFFSETS_TEXT: &'static str = "GDN chunk scan offsets run past the fused row";

/// Whether `heads` heads of `dim` elements that start at `offset` end within a
/// row of `width` elements.
fn ends_within(offset: usize, heads: usize, dim: usize, width: usize) -> (r: bool)
    ensures
        r == (offset + heads * dim <= width),
{
    match heads.checked_mul(dim) {
        Some(elements) => offset <= width && elements <= width - offset,
        None => false,
    }
}

/// Address of element `offset` of the first row.
///
/// Only a row that is there has an element: an operand of an empty row, or of
/// no rows at all, starts wherever the arithmetic of addresses puts it.
pub open spec fn fused_address(fused: &Tensor, offset: usize) -> usize {
    let address = crate::ops::binding::bound_range(fused).ptr + offset * 2;
    if address > usize::MAX {
        crate::ops::binding::bound_range(fused).ptr
    } else {
        address as usize
    }
}

fn address_in_row(fused: &CudaBuffer, offset: usize) -> (ptr: usize)
    ensures
        ptr == (if fused.range().ptr + offset * 2 > usize::MAX {
            fused.range().ptr
        } else {
            (fused.range().ptr + offset * 2) as usize
        }),
{
    let base: usize = fused.ptr();
    match offset.checked_mul(2) {
        Some(bytes) => match base.checked_add(bytes) {
            Some(address) => address,
            None => base,
        },
        None => base,
    }
}

/// Why the step is refused, if it is.
pub open spec fn gdn_chunk_scan_interleaved_rejection(
    device: usize,
    fused: &Tensor,
    g: &Tensor,
    beta: &Tensor,
    out: &Tensor,
    state: &Tensor,
    seq_padded: usize,
    row_width: usize,
    offsets: [usize; 3],
    v_heads: usize,
    k_heads: usize,
    chunk_size: usize,
    k_dim: usize,
) -> Option<Error> {
    let q_offset = offsets@[0];
    let k_offset = offsets@[1];
    let v_offset = offsets@[2];
    if seq_padded % chunk_size != 0 {
        Some(Error::Other(GDN_MULTIPLE_TEXT))
    } else if q_offset + k_heads * k_dim > row_width || k_offset + k_heads * k_dim > row_width || v_offset
        + v_heads * k_dim > row_width {
        Some(Error::Other(GDN_OFFSETS_TEXT))
    } else {
        crate::ops::binding::first(
            crate::ops::binding::operand_rejection(device, fused, DType::BF16, seq![seq_padded, row_width]),
            crate::ops::binding::first(
                crate::ops::binding::operand_rejection(device, g, DType::F32, seq![seq_padded, v_heads]),
                crate::ops::binding::first(
                    crate::ops::binding::operand_rejection(device, beta, DType::F32, seq![seq_padded, v_heads]),
                    crate::ops::binding::first(
                        crate::ops::binding::operand_rejection(device, out, DType::BF16, seq![seq_padded, v_heads, k_dim]),
                        crate::ops::binding::operand_rejection(device, state, DType::F32, seq![v_heads, k_dim, k_dim]),
                    ),
                ),
            ),
        )
    }
}

/// The launch of an accepted step.
pub open spec fn gdn_chunk_scan_interleaved_launch(
    ctx: &CudaContext,
    fused: &Tensor,
    g: &Tensor,
    beta: &Tensor,
    out: &Tensor,
    state: &Tensor,
    seq_padded: usize,
    row_width: usize,
    offsets: [usize; 3],
    v_heads: usize,
    k_heads: usize,
    chunk_size: usize,
    k_dim: usize,
) -> GdnChunkScan {
    let q_offset = offsets@[0];
    let k_offset = offsets@[1];
    let v_offset = offsets@[2];
    GdnChunkScan {
        q: fused_address(fused, q_offset),
        k: fused_address(fused, k_offset),
        v: fused_address(fused, v_offset),
        g: crate::ops::binding::bound_range(g).ptr,
        beta: crate::ops::binding::bound_range(beta).ptr,
        out: crate::ops::binding::bound_range(out).ptr,
        state: crate::ops::binding::bound_range(state).ptr,
        seq_padded: seq_padded as i64,
        v_heads: v_heads as i64,
        k_heads: k_heads as i64,
        chunk_size: chunk_size as i64,
        k_dim: k_dim as i64,
        num_chunks: (seq_padded as int / chunk_size as int) as i64,
        q_stride: row_width as i64,
        k_stride: row_width as i64,
        v_stride: row_width as i64,
        stream: ctx.stream.handle,
    }
}

/// [`gdn_chunk_scan`] over q, k and v interleaved in one projection row.
///
/// `fused` is `[seq_padded, row_width]`. Each operand points at its own element
/// offset inside a row and carries the full row width as its stride, so the row
/// is never split into contiguous copies.
pub fn gdn_chunk_scan_interleaved(
    ctx: &CudaContext,
    fused: &Tensor,
    g: &Tensor,
    beta: &Tensor,
    out: &Tensor,
    state: &Tensor,
    seq_padded: usize,
    row_width: usize,
    offsets: [usize; 3],
    v_heads: usize,
    k_heads: usize,
    chunk_size: usize,
    k_dim: usize,
) -> (launch: Result<GdnChunkScan, Error>)
    requires
        chunk_size > 0,
    ensures
        match launch {
            Ok(l) => {
                &&& gdn_chunk_scan_interleaved_rejection(ctx.device_id, fused, g, beta, out, state, seq_padded, row_width, offsets, v_heads, k_heads, chunk_size, k_dim) is None
                &&& l == gdn_chunk_scan_interleaved_launch(ctx, fused, g, beta, out, state, seq_padded, row_width, offsets, v_heads, k_heads, chunk_size, k_dim)
                &&& g.packed_at(ctx.device_id, l.g, DType::F32, seq![l.seq_padded, l.v_heads])
                &&& beta.packed_at(ctx.device_id, l.beta, DType::F32, seq![l.seq_padded, l.v_heads])
                &&& out.packed_at(ctx.device_id, l.out, DType::BF16, seq![l.seq_padded, l.v_heads, l.k_dim])
                &&& state.packed_at(ctx.device_id, l.state, DType::F32, seq![l.v_heads, l.k_dim, l.k_dim])
                &&& fused.holds(ctx.device_id, DType::BF16, seq![seq_padded, row_width])
                &&& seq_padded > 0 ==> l.q == fused.address_2(0, offsets@[0] as int)
                &&& seq_padded > 0 ==> l.k == fused.address_2(0, offsets@[1] as int)
                &&& seq_padded > 0 ==> l.v == fused.address_2(0, offsets@[2] as int)
                &&& fused.extents()[1] as i64 == l.q_stride
                &&& fused.extents()[1] as i64 == l.k_stride
                &&& fused.extents()[1] as i64 == l.v_stride
                &&& l.k_heads == k_heads as i64
                &&& l.chunk_size == chunk_size as i64
                &&& l.stream == ctx.stream.handle
            },
            Err(e) => gdn_chunk_scan_interleaved_rejection(ctx.device_id, fused, g, beta, out, state, seq_padded, row_width, offsets, v_heads, k_heads, chunk_size, k_dim) == Some(e),
        },
{
    if seq_padded % chunk_size != 0 {
        return Err(Error::Other(GDN_MULTIPLE_TEXT));
    }
    let q_offset: usize = offsets[0];
    let k_offset: usize = offsets[1];
    let v_offset: usize = offsets[2];
    if !ends_within(q_offset, k_heads, k_dim, row_width) || !ends_within(
        k_offset,
        k_heads,
        k_dim,
        row_width,
    ) || !ends_within(v_offset, v_heads, k_dim, row_width) {
        return Err(Error::Other(GDN_OFFSETS_TEXT));
    }
    let fused_storage: CudaBuffer = tensor_storage(ctx, fused, DType::BF16, &dims_2(seq_padded, row_width))?;
    let g_storage: CudaBuffer = tensor_storage(ctx, g, DType::F32, &dims_2(seq_padded, v_heads))?;
    let beta_storage: CudaBuffer = tensor_storage(ctx, beta, DType::F32, &dims_2(seq_padded, v_heads))?;
    let out_storage: CudaBuffer = tensor_storage(ctx, out, DType::BF16, &dims_3(seq_padded, v_heads, k_dim))?;
    let state_storage: CudaBuffer = tensor_storage(ctx, state, DType::F32, &dims_3(v_heads, k_dim, k_dim))?;
    proof {
        if seq_padded > 0 {
            law_interleaved_operands_stay_inside_the_row(
                ctx.device_id,
                fused,
                g,
                beta,
                out,
                state,
                seq_padded,
                row_width,
                offsets,
                v_heads,
                k_heads,
                chunk_size,
                k_dim,
            );
        }
    }
    Ok(
        GdnChunkScan {
            q: address_in_row(&fused_storage, q_offset),
            k: address_in_row(&fused_storage, k_offset),
            v: address_in_row(&fused_storage, v_offset),
            g: g_storage.ptr(),
            beta: beta_storage.ptr(),
            out: out_storage.ptr(),
            state: state_storage.ptr(),
            seq_padded: seq_padded as i64,
            v_heads: v_heads as i64,
            k_heads: k_heads as i64,
            chunk_size: chunk_size as i64,
            k_dim: k_dim as i64,
            num_chunks: (seq_padded / chunk_size) as i64,
            q_stride: row_width as i64,
            k_stride: row_width as i64,
            v_stride: row_width as i64,
            stream: ctx.stream.handle,
        },
    )
}

/// A recurrent step is accepted exactly when its operands fit together, and
/// then its kernel finds each of them in its own role: the decays as decays,
/// the update strengths as update strengths, of the extents it is told.
pub proof fn law_recurrent_step_reads_each_operand_in_its_role(
    ctx: &CudaContext,
    state: &Tensor,
    q: &Tensor,
    k: &Tensor,
    v: &Tensor,
    decay: &Tensor,
    beta: &Tensor,
    output: &Tensor,
    k_heads: usize,
)
    ensures
        gdn_recurrent_step_rejection(ctx.device_id, state, q, k, v, decay, beta, output, k_heads) is None <==> {
            &&& state.extents().len() == 3
            &&& k_heads != 0
            &&& state.extents()[0] % k_heads == 0
            &&& state.holds(ctx.device_id, DType::F32, seq![state.extents()[0], state.extents()[1], state.extents()[2]])
            &&& q.holds(ctx.device_id, DType::BF16, seq![k_heads, state.extents()[2]])
            &&& k.holds(ctx.device_id, DType::BF16, seq![k_heads, state.extents()[2]])
            &&& v.holds(ctx.device_id, DType::BF16, seq![state.extents()[0], state.extents()[1]])
            &&& decay.holds(ctx.device_id, DType::F32, seq![state.extents()[0]])
            &&& beta.holds(ctx.device_id, DType::F32, seq![state.extents()[0]])
            &&& output.holds(ctx.device_id, DType::BF16, seq![state.extents()[0], state.extents()[1]])
        },
        gdn_recurrent_step_rejection(ctx.device_id, state, q, k, v, decay, beta, output, k_heads) is None ==> ({
            let l = gdn_recurrent_step_launch(ctx, state, q, k, v, decay, beta, output, k_heads);
            &&& state.packed_at(ctx.device_id, l.state, DType::F32, seq![l.v_heads, l.v_dim, l.k_dim])
            &&& q.packed_at(ctx.device_id, l.q, DType::BF16, seq![l.k_heads, l.k_dim])
            &&& k.packed_at(ctx.device_id, l.k, DType::BF16, seq![l.k_heads, l.k_dim])
            &&& v.packed_at(ctx.device_id, l.v, DType::BF16, seq![l.v_heads, l.v_dim])
            &&& decay.packed_at(ctx.device_id, l.decay, DType::F32, seq![l.v_heads])
            &&& beta.packed_at(ctx.device_id, l.beta, DType::F32, seq![l.v_heads])
            &&& output.packed_at(ctx.device_id, l.output, DType::BF16, seq![l.v_heads, l.v_dim])
            &&& l.stream == ctx.stream.handle
        }),
{
    assert(state.extents().len() == 3 ==> state.extents() =~= seq![state.extents()[0], state.extents()[1], state.extents()[2]]);
}

/// A gated norm is accepted exactly when its operands fit together, and then
/// its kernel finds each of them in its own role.
pub proof fn law_gated_norm_reads_each_operand_in_its_role(
    ctx: &CudaContext,
    input: &Tensor,
    gate: &Tensor,
    weight: &Tensor,
    output: &Tensor,
    epsilon: F32Bits,
)
    ensures
        gdn_gated_norm_rejection(ctx.device_id, input, gate, weight, output, epsilon) is None <==> {
            &&& input.extents().len() == 2
            &&& input.holds(ctx.device_id, DType::BF16, seq![input.extents()[0], input.extents()[1]])
            &&& gate.holds(ctx.device_id, DType::BF16, seq![input.extents()[0], input.extents()[1]])
            &&& weight.holds(ctx.device_id, DType::BF16, seq![input.extents()[1]])
            &&& output.holds(ctx.device_id, DType::BF16, seq![input.extents()[0], input.extents()[1]])
        },
        gdn_gated_norm_rejection(ctx.device_id, input, gate, weight, output, epsilon) is None ==> ({
            let l = gdn_gated_norm_launch(ctx, input, gate, weight, output, epsilon);
            &&& input.packed_at(ctx.device_id, l.input, DType::BF16, seq![l.heads, l.head_dim])
            &&& gate.packed_at(ctx.device_id, l.gate, DType::BF16, seq![l.heads, l.head_dim])
            &&& weight.packed_at(ctx.device_id, l.weight, DType::BF16, seq![l.head_dim])
            &&& output.packed_at(ctx.device_id, l.output, DType::BF16, seq![l.heads, l.head_dim])
            &&& l.epsilon == epsilon
            &&& l.stream == ctx.stream.handle
        }),
{
    assert(input.extents().len() == 2 ==> input.extents() =~= seq![input.extents()[0], input.extents()[1]]);
}

/// A convolution step is accepted exactly when its operands fit together, and
/// then its kernel finds each of them in its own role.
pub proof fn law_convolution_step_reads_each_operand_in_its_role(
    ctx: &CudaContext,
    window: &Tensor,
    input: &Tensor,
    weight: &Tensor,
    output: &Tensor,
)
    ensures
        gdn_causal_conv_step_rejection(ctx.device_id, window, input, weight, output) is None <==> {
            &&& window.extents().len() == 2
            &&& window.holds(ctx.device_id, DType::F32, seq![window.extents()[0], window.extents()[1]])
            &&& input.holds(ctx.device_id, DType::BF16, seq![window.extents()[0]])
            &&& weight.holds(ctx.device_id, DType::BF16, seq![window.extents()[0], window.extents()[1]])
            &&& output.holds(ctx.device_id, DType::BF16, seq![window.extents()[0]])
        },
        gdn_causal_conv_step_rejection(ctx.device_id, window, input, weight, output) is None ==> ({
            let l = gdn_causal_conv_step_launch(ctx, window, input, weight, output);
            &&& window.packed_at(ctx.device_id, l.window, DType::F32, seq![l.channels, l.kernel_width])
            &&& input.packed_at(ctx.device_id, l.input, DType::BF16, seq![l.channels])
            &&& weight.packed_at(ctx.device_id, l.weight, DType::BF16, seq![l.channels, l.kernel_width])
            &&& output.packed_at(ctx.device_id, l.output, DType::BF16, seq![l.channels])
            &&& l.stream == ctx.stream.handle
        }),
{
    assert(window.extents().len() == 2 ==> window.extents() =~= seq![window.extents()[0], window.extents()[1]]);
}

/// A prompt's convolution is accepted exactly when its operands fit together,
/// and then its kernel finds each of them in its own role, and no window where
/// none was given.
pub proof fn law_prompt_convolution_reads_each_operand_in_its_role(
    ctx: &CudaContext,
    input: &Tensor,
    weight: &Tensor,
    output: &Tensor,
    window: Option<&Tensor>,
    tokens: usize,
    channels: usize,
    kernel_width: usize,
)
    ensures
        gdn_causal_conv_forward_rejection(ctx.device_id, input, weight, output, window, tokens, channels, kernel_width) is None <==> {
            &&& input.holds(ctx.device_id, DType::BF16, seq![tokens, channels])
            &&& weight.holds(ctx.device_id, DType::BF16, seq![channels, kernel_width])
            &&& output.holds(ctx.device_id, DType::BF16, seq![tokens, channels])
            &&& (window matches Some(t) ==> t.holds(ctx.device_id, DType::F32, seq![channels, kernel_width]))
        },
        gdn_causal_conv_forward_rejection(ctx.device_id, input, weight, output, window, tokens, channels, kernel_width) is None ==> ({
            let l = gdn_causal_conv_forward_launch(ctx, input, weight, output, window, tokens, channels, kernel_width);
            &&& input.packed_at(ctx.device_id, l.input, DType::BF16, seq![l.tokens, l.channels])
            &&& weight.packed_at(ctx.device_id, l.weight, DType::BF16, seq![l.channels, l.kernel_width])
            &&& output.packed_at(ctx.device_id, l.output, DType::BF16, seq![l.tokens, l.channels])
            &&& window matches Some(t) ==> t.packed_at(ctx.device_id, l.window, DType::F32, seq![l.channels, l.kernel_width])
            &&& window is None ==> l.window == 0
            &&& l.stream == ctx.stream.handle
        }),
{
}

/// The gates of a prompt are accepted exactly when their operands fit
/// together, and then the kernel finds each of them in its own role.
pub proof fn law_prompt_gates_read_each_operand_in_its_role(
    ctx: &CudaContext,
    a: &Tensor,
    b: &Tensor,
    a_log: &Tensor,
    dt_bias: &Tensor,
    decay: &Tensor,
    beta: &Tensor,
    tokens: usize,
    heads: usize,
)
    ensures
        gdn_decay_and_beta_seq_rejection(ctx.device_id, a, b, a_log, dt_bias, decay, beta, tokens, heads) is None <==> {
            &&& a.holds(ctx.device_id, DType::BF16, seq![tokens, heads])
            &&& b.holds(ctx.device_id, DType::BF16, seq![tokens, heads])
            &&& a_log.holds(ctx.device_id, DType::BF16, seq![heads])
            &&& dt_bias.holds(ctx.device_id, DType::BF16, seq![heads])
            &&& decay.holds(ctx.device_id, DType::F32, seq![tokens, heads])
            &&& beta.holds(ctx.device_id, DType::F32, seq![tokens, heads])
        },
        gdn_decay_and_beta_seq_rejection(ctx.device_id, a, b, a_log, dt_bias, decay, beta, tokens, heads) is None ==> ({
            let l = gdn_decay_and_beta_seq_launch(ctx, a, b, a_log, dt_bias, decay, beta, tokens, heads);
            &&& a.packed_at(ctx.device_id, l.a, DType::BF16, seq![l.tokens, l.heads])
            &&& b.packed_at(ctx.device_id, l.b, DType::BF16, seq![l.tokens, l.heads])
            &&& a_log.packed_at(ctx.device_id, l.a_log, DType::BF16, seq![l.heads])
            &&& dt_bias.packed_at(ctx.device_id, l.dt_bias, DType::BF16, seq![l.heads])
            &&& decay.packed_at(ctx.device_id, l.decay, DType::F32, seq![l.tokens, l.heads])
            &&& beta.packed_at(ctx.device_id, l.beta, DType::F32, seq![l.tokens, l.heads])
            &&& l.stream == ctx.stream.handle
        }),
{
}

/// A prompt's gated norm is accepted exactly when its operands fit together,
/// and then its kernel finds each of them in its own role.
pub proof fn law_prompt_gated_norm_reads_each_operand_in_its_role(
    ctx: &CudaContext,
    input: &Tensor,
    gate: &Tensor,
    weight: &Tensor,
    output: &Tensor,
    tokens: usize,
    heads: usize,
    head_dim: usize,
    epsilon: F32Bits,
)
    ensures
        gdn_gated_norm_seq_rejection(ctx.device_id, input, gate, weight, output, tokens, heads, head_dim, epsilon) is None <==> {
            &&& input.holds(ctx.device_id, DType::BF16, seq![tokens, heads, head_dim])
            &&& gate.holds(ctx.device_id, DType::BF16, seq![tokens, heads, head_dim])
            &&& weight.holds(ctx.device_id, DType::BF16, seq![head_dim])
            &&& output.holds(ctx.device_id, DType::BF16, seq![tokens, heads, head_dim])
        },
        gdn_gated_norm_seq_rejection(ctx.device_id, input, gate, weight, output, tokens, heads, head_dim, epsilon) is None ==> ({
            let l = gdn_gated_norm_seq_launch(ctx, input, gate, weight, output, tokens, heads, head_dim, epsilon);
            &&& input.packed_at(ctx.device_id, l.input, DType::BF16, seq![l.tokens, l.heads, l.head_dim])
            &&& gate.packed_at(ctx.device_id, l.gate, DType::BF16, seq![l.tokens, l.heads, l.head_dim])
            &&& weight.packed_at(ctx.device_id, l.weight, DType::BF16, seq![l.head_dim])
            &&& output.packed_at(ctx.device_id, l.output, DType::BF16, seq![l.tokens, l.heads, l.head_dim])
            &&& l.epsilon == epsilon
            &&& l.stream == ctx.stream.handle
        }),
{
}

/// A head normalization is accepted exactly when its operand is a matrix that
/// fits, and then its kernel works on that matrix.
pub proof fn law_head_normalization_works_on_its_operand(
    ctx: &CudaContext,
    data: &Tensor,
    epsilon: F32Bits,
)
    ensures
        gdn_l2_normalize_heads_rejection(ctx.device_id, data, epsilon) is None <==> {
            &&& data.extents().len() == 2
            &&& data.holds(ctx.device_id, DType::BF16, seq![data.extents()[0], data.extents()[1]])
        },
        gdn_l2_normalize_heads_rejection(ctx.device_id, data, epsilon) is None ==> ({
            let l = gdn_l2_normalize_heads_launch(ctx, data, epsilon);
            &&& data.packed_at(ctx.device_id, l.data, DType::BF16, seq![l.heads, l.head_dim])
            &&& l.epsilon == epsilon
            &&& l.stream == ctx.stream.handle
        }),
{
    assert(data.extents().len() == 2 ==> data.extents() =~= seq![data.extents()[0], data.extents()[1]]);
}

/// The gates of a token are accepted exactly when their operands fit
/// together, and then the kernel finds each of them in its own role.
pub proof fn law_gates_read_each_operand_in_its_role(
    ctx: &CudaContext,
    a: &Tensor,
    b: &Tensor,
    a_log: &Tensor,
    dt_bias: &Tensor,
    decay: &Tensor,
    beta: &Tensor,
)
    ensures
        gdn_decay_and_beta_rejection(ctx.device_id, a, b, a_log, dt_bias, decay, beta) is None <==> {
            &&& a.extents().len() == 1
            &&& a.holds(ctx.device_id, DType::BF16, seq![a.extents()[0]])
            &&& b.holds(ctx.device_id, DType::BF16, seq![a.extents()[0]])
            &&& a_log.holds(ctx.device_id, DType::BF16, seq![a.extents()[0]])
            &&& dt_bias.holds(ctx.device_id, DType::BF16, seq![a.extents()[0]])
            &&& decay.holds(ctx.device_id, DType::F32, seq![a.extents()[0]])
            &&& beta.holds(ctx.device_id, DType::F32, seq![a.extents()[0]])
        },
        gdn_decay_and_beta_rejection(ctx.device_id, a, b, a_log, dt_bias, decay, beta) is None ==> ({
            let l = gdn_decay_and_beta_launch(ctx, a, b, a_log, dt_bias, decay, beta);
            &&& a.packed_at(ctx.device_id, l.a, DType::BF16, seq![l.heads])
            &&& b.packed_at(ctx.device_id, l.b, DType::BF16, seq![l.heads])
            &&& a_log.packed_at(ctx.device_id, l.a_log, DType::BF16, seq![l.heads])
            &&& dt_bias.packed_at(ctx.device_id, l.dt_bias, DType::BF16, seq![l.heads])
            &&& decay.packed_at(ctx.device_id, l.decay, DType::F32, seq![l.heads])
            &&& beta.packed_at(ctx.device_id, l.beta, DType::F32, seq![l.heads])
            &&& l.stream == ctx.stream.handle
        }),
{
    assert(a.extents().len() == 1 ==> a.extents() =~= seq![a.extents()[0]]);
}

/// A chunked scan is accepted exactly when its operands fit together, and then
/// its kernel finds each of them in its own role: the log decays as decays, the
/// update strengths as update strengths, of the extents it is told.
pub proof fn law_scan_reads_each_operand_in_its_role(
    ctx: &CudaContext,
    q: &Tensor,
    k: &Tensor,
    v: &Tensor,
    g: &Tensor,
    beta: &Tensor,
    out: &Tensor,
    state: &Tensor,
    v_heads: usize,
    k_heads: usize,
    chunk_size: usize,
)
    ensures
        gdn_chunk_scan_rejection(ctx.device_id, q, k, v, g, beta, out, state, v_heads, k_heads, chunk_size) is None <==> {
            &&& state.extents().len() == 3
            &&& k_heads != 0
            &&& v_heads % k_heads == 0
            &&& chunk_size != 0
            &&& q.extents().len() == 3
            &&& q.extents()[0] % chunk_size == 0
            &&& q.holds(ctx.device_id, DType::BF16, seq![q.extents()[0], k_heads, state.extents()[2]])
            &&& k.holds(ctx.device_id, DType::BF16, seq![q.extents()[0], k_heads, state.extents()[2]])
            &&& v.holds(ctx.device_id, DType::BF16, seq![q.extents()[0], v_heads, state.extents()[2]])
            &&& g.holds(ctx.device_id, DType::F32, seq![q.extents()[0], v_heads])
            &&& beta.holds(ctx.device_id, DType::F32, seq![q.extents()[0], v_heads])
            &&& out.holds(ctx.device_id, DType::BF16, seq![q.extents()[0], v_heads, state.extents()[2]])
            &&& state.holds(ctx.device_id, DType::F32, seq![v_heads, state.extents()[2], state.extents()[2]])
        },
        gdn_chunk_scan_rejection(ctx.device_id, q, k, v, g, beta, out, state, v_heads, k_heads, chunk_size) is None ==> ({
            let l = gdn_chunk_scan_launch(ctx, q, k, v, g, beta, out, state, v_heads, k_heads, chunk_size);
            &&& q.packed_at(ctx.device_id, l.q, DType::BF16, seq![l.seq_padded, l.k_heads, l.k_dim])
            &&& k.packed_at(ctx.device_id, l.k, DType::BF16, seq![l.seq_padded, l.k_heads, l.k_dim])
            &&& v.packed_at(ctx.device_id, l.v, DType::BF16, seq![l.seq_padded, l.v_heads, l.k_dim])
            &&& g.packed_at(ctx.device_id, l.g, DType::F32, seq![l.seq_padded, l.v_heads])
            &&& beta.packed_at(ctx.device_id, l.beta, DType::F32, seq![l.seq_padded, l.v_heads])
            &&& out.packed_at(ctx.device_id, l.out, DType::BF16, seq![l.seq_padded, l.v_heads, l.k_dim])
            &&& state.packed_at(ctx.device_id, l.state, DType::F32, seq![l.v_heads, l.k_dim, l.k_dim])
            &&& l.chunk_size == chunk_size as i64
            &&& l.stream == ctx.stream.handle
        }),
{
}

/// An interleaved scan is accepted exactly when its operands fit together, and
/// then its kernel finds the gates, the output and the state each in its own
/// role.
pub proof fn law_interleaved_scan_reads_each_operand_in_its_role(
    ctx: &CudaContext,
    fused: &Tensor,
    g: &Tensor,
    beta: &Tensor,
    out: &Tensor,
    state: &Tensor,
    seq_padded: usize,
    row_width: usize,
    offsets: [usize; 3],
    v_heads: usize,
    k_heads: usize,
    chunk_size: usize,
    k_dim: usize,
)
    requires
        chunk_size > 0,
    ensures
        gdn_chunk_scan_interleaved_rejection(ctx.device_id, fused, g, beta, out, state, seq_padded, row_width, offsets, v_heads, k_heads, chunk_size, k_dim) is None <==> {
            &&& seq_padded % chunk_size == 0
            &&& offsets@[0] + k_heads * k_dim <= row_width
            &&& offsets@[1] + k_heads * k_dim <= row_width
            &&& offsets@[2] + v_heads * k_dim <= row_width
            &&& fused.holds(ctx.device_id, DType::BF16, seq![seq_padded, row_width])
            &&& g.holds(ctx.device_id, DType::F32, seq![seq_padded, v_heads])
            &&& beta.holds(ctx.device_id, DType::F32, seq![seq_padded, v_heads])
            &&& out.holds(ctx.device_id, DType::BF16, seq![seq_padded, v_heads, k_dim])
            &&& state.holds(ctx.device_id, DType::F32, seq![v_heads, k_dim, k_dim])
        },
        gdn_chunk_scan_interleaved_rejection(ctx.device_id, fused, g, beta, out, state, seq_padded, row_width, offsets, v_heads, k_heads, chunk_size, k_dim) is None ==> ({
            let l = gdn_chunk_scan_interleaved_launch(ctx, fused, g, beta, out, state, seq_padded, row_width, offsets, v_heads, k_heads, chunk_size, k_dim);
            &&& g.packed_at(ctx.device_id, l.g, DType::F32, seq![l.seq_padded, l.v_heads])
            &&& beta.packed_at(ctx.device_id, l.beta, DType::F32, seq![l.seq_padded, l.v_heads])
            &&& out.packed_at(ctx.device_id, l.out, DType::BF16, seq![l.seq_padded, l.v_heads, l.k_dim])
            &&& state.packed_at(ctx.device_id, l.state, DType::F32, seq![l.v_heads, l.k_dim, l.k_dim])
            &&& l.k_heads == k_heads as i64
            &&& l.stream == ctx.stream.handle
        }),
{
}

/// The strides of a scan lead its kernel to the elements of the operands:
/// element `d` of head `h` of token `t` of the queries, keys and values is
/// where the kernel looks for it, and so is the output's.
pub proof fn law_scan_strides_reach_every_element(
    ctx: &CudaContext,
    q: &Tensor,
    k: &Tensor,
    v: &Tensor,
    g: &Tensor,
    beta: &Tensor,
    out: &Tensor,
    state: &Tensor,
    v_heads: usize,
    k_heads: usize,
    chunk_size: usize,
    t: int,
    h: int,
    d: int,
)
    requires
        gdn_chunk_scan_rejection(ctx.device_id, q, k, v, g, beta, out, state, v_heads, k_heads, chunk_size) is None,
        0 <= t < q.extents()[0],
        0 <= h,
        0 <= d < state.extents()[2],
    ensures
        ({
            let l = gdn_chunk_scan_launch(ctx, q, k, v, g, beta, out, state, v_heads, k_heads, chunk_size);
            &&& h < k_heads ==> l.q + (t * l.q_stride + h * l.k_dim + d) * 2 == q.address_3(t, h, d)
            &&& h < k_heads ==> l.k + (t * l.k_stride + h * l.k_dim + d) * 2 == k.address_3(t, h, d)
            &&& h < v_heads ==> l.v + (t * l.v_stride + h * l.k_dim + d) * 2 == v.address_3(t, h, d)
            &&& h < v_heads ==> l.out + ((t * l.v_heads + h) * l.k_dim + d) * 2 == out.address_3(t, h, d)
            &&& h < v_heads ==> l.g + (t * l.v_heads + h) * 4 == g.address_2(t, h)
            &&& h < v_heads ==> l.beta + (t * l.v_heads + h) * 4 == beta.address_2(t, h)
        }),
{
    let tokens = q.extents()[0];
    let dim = state.extents()[2];
    if h < k_heads {
        lemma_strided(tokens, k_heads, dim, t, h, d);
    }
    if h < v_heads {
        lemma_strided(tokens, v_heads, dim, t, h, d);
    }
}

proof fn lemma_strided(tokens: usize, heads: usize, dim: usize, t: int, h: int, d: int)
    requires
        0 <= t < tokens,
        0 <= h < heads,
        0 <= d < dim,
        crate::shape::product(seq![tokens, heads, dim]) * 2 <= usize::MAX,
    ensures
        (heads * dim) as i64 == heads * dim,
        heads as i64 == heads,
        dim as i64 == dim,
        t * (heads * dim) + h * dim + d == (t * heads + h) * dim + d,
{
    crate::shape::lemma_product_3(tokens, heads, dim);
    assert(heads * dim <= (tokens * heads) * dim && heads <= heads * dim && dim <= heads * dim)
        by (nonlinear_arith)
        requires
            1 <= tokens,
            1 <= heads,
            1 <= dim,
    ;
    assert(t * (heads * dim) + h * dim == (t * heads + h) * dim) by (nonlinear_arith);
}

/// The chunks of an accepted scan are as many as make up the sequence.
pub proof fn law_chunks_tile_the_sequence(
    ctx: &CudaContext,
    q: &Tensor,
    k: &Tensor,
    v: &Tensor,
    g: &Tensor,
    beta: &Tensor,
    out: &Tensor,
    state: &Tensor,
    v_heads: usize,
    k_heads: usize,
    chunk_size: usize,
)
    requires
        gdn_chunk_scan_rejection(ctx.device_id, q, k, v, g, beta, out, state, v_heads, k_heads, chunk_size) is None,
        q.extents()[0] <= i64::MAX,
        chunk_size <= i64::MAX,
    ensures
        ({
            let l = gdn_chunk_scan_launch(ctx, q, k, v, g, beta, out, state, v_heads, k_heads, chunk_size);
            l.num_chunks * l.chunk_size == l.seq_padded
        }),
{
    let tokens = q.extents()[0] as int;
    vstd::arithmetic::div_mod::lemma_fundamental_div_mod(tokens, chunk_size as int);
    assert(tokens / (chunk_size as int) <= tokens) by (nonlinear_arith)
        requires
            0 <= tokens,
            chunk_size >= 1,
    ;
    assert((chunk_size as int) * (tokens / (chunk_size as int)) == (tokens / (chunk_size as int)) * (
    chunk_size as int)) by (nonlinear_arith);
}

/// The strides and offsets of an interleaved scan lead its kernel to the
/// elements of the fused rows: element `d` of head `h` of token `t` lies
/// `h` heads and `d` elements behind the operand's offset in row `t`.
pub proof fn law_interleaved_strides_reach_every_element(
    ctx: &CudaContext,
    fused: &Tensor,
    g: &Tensor,
    beta: &Tensor,
    out: &Tensor,
    state: &Tensor,
    seq_padded: usize,
    row_width: usize,
    offsets: [usize; 3],
    v_heads: usize,
    k_heads: usize,
    chunk_size: usize,
    k_dim: usize,
    t: int,
    h: int,
    d: int,
)
    requires
        chunk_size > 0,
        crate::ops::binding::bound_range(fused).ptr + crate::ops::binding::bound_range(fused).len <= usize::MAX,
        gdn_chunk_scan_interleaved_rejection(ctx.device_id, fused, g, beta, out, state, seq_padded, row_width, offsets, v_heads, k_heads, chunk_size, k_dim) is None,
        0 <= t < seq_padded,
        0 <= h,
        0 <= d < k_dim,
    ensures
        ({
            let l = gdn_chunk_scan_interleaved_launch(ctx, fused, g, beta, out, state, seq_padded, row_width, offsets, v_heads, k_heads, chunk_size, k_dim);
            &&& h < k_heads ==> l.q + (t * l.q_stride + h * l.k_dim + d) * 2 == fused.address_2(t, offsets@[0] + h * k_dim + d)
            &&& h < k_heads ==> l.k + (t * l.k_stride + h * l.k_dim + d) * 2 == fused.address_2(t, offsets@[1] + h * k_dim + d)
            &&& h < v_heads ==> l.v + (t * l.v_stride + h * l.k_dim + d) * 2 == fused.address_2(t, offsets@[2] + h * k_dim + d)
        }),
{
    law_interleaved_operands_stay_inside_the_row(
        ctx.device_id,
        fused,
        g,
        beta,
        out,
        state,
        seq_padded,
        row_width,
        offsets,
        v_heads,
        k_heads,
        chunk_size,
        k_dim,
    );
    let from_q = fused_address(fused, offsets@[0]);
    let from_k = fused_address(fused, offsets@[1]);
    let from_v = fused_address(fused, offsets@[2]);
    assert(from_q == crate::ops::binding::bound_range(fused).ptr + offsets@[0] * 2);
    assert(from_k == crate::ops::binding::bound_range(fused).ptr + offsets@[1] * 2);
    assert(from_v == crate::ops::binding::bound_range(fused).ptr + offsets@[2] * 2);
    assert(row_width <= seq_padded * row_width) by (nonlinear_arith)
        requires
            seq_padded > 0,
    ;
    if h < k_heads {
        assert(k_dim <= k_heads * k_dim) by (nonlinear_arith)
            requires
                1 <= k_heads,
        ;
    }
    if h < v_heads {
        assert(k_dim <= v_heads * k_dim) by (nonlinear_arith)
            requires
                1 <= v_heads,
        ;
    }
    assert(row_width as i64 == row_width);
    assert(fused.extents()[1] == row_width && fused.dtype.size() == 2);
    let l = gdn_chunk_scan_interleaved_launch(ctx, fused, g, beta, out, state, seq_padded, row_width, offsets, v_heads, k_heads, chunk_size, k_dim);
    assert(l.q == from_q && l.k == from_k && l.v == from_v);
    assert(h < k_heads || h < v_heads ==> l.k_dim == k_dim);
    assert(l.q_stride == row_width && l.k_stride == row_width && l.v_stride == row_width);
}

/// The gates that are computed for a token are the gates that its recurrent
/// step reads: the decay as the decay, the update strength as the update
/// strength.
pub proof fn law_computed_gates_reach_the_step(
    ctx: &CudaContext,
    a: &Tensor,
    b: &Tensor,
    a_log: &Tensor,
    dt_bias: &Tensor,
    decay: &Tensor,
    beta: &Tensor,
    state: &Tensor,
    q: &Tensor,
    k: &Tensor,
    v: &Tensor,
    output: &Tensor,
    k_heads: usize,
)
    requires
        gdn_decay_and_beta_rejection(ctx.device_id, a, b, a_log, dt_bias, decay, beta) is None,
        gdn_recurrent_step_rejection(ctx.device_id, state, q, k, v, decay, beta, output, k_heads) is None,
    ensures
        ({
            let gates = gdn_decay_and_beta_launch(ctx, a, b, a_log, dt_bias, decay, beta);
            let step = gdn_recurrent_step_launch(ctx, state, q, k, v, decay, beta, output, k_heads);
            &&& decay.starts_at(ctx.device_id, gates.decay) && step.decay == gates.decay
            &&& beta.starts_at(ctx.device_id, gates.beta) && step.beta == gates.beta
            &&& step.v_heads == gates.heads
        }),
{
}

/// The gates that are computed for a prompt are the gates that its scan reads.
pub proof fn law_computed_prompt_gates_reach_the_scan(
    ctx: &CudaContext,
    a: &Tensor,
    b: &Tensor,
    a_log: &Tensor,
    dt_bias: &Tensor,
    g: &Tensor,
    beta: &Tensor,
    q: &Tensor,
    k: &Tensor,
    v: &Tensor,
    out: &Tensor,
    state: &Tensor,
    tokens: usize,
    v_heads: usize,
    k_heads: usize,
    chunk_size: usize,
)
    requires
        gdn_decay_and_beta_seq_rejection(ctx.device_id, a, b, a_log, dt_bias, g, beta, tokens, v_heads) is None,
        gdn_chunk_scan_rejection(ctx.device_id, q, k, v, g, beta, out, state, v_heads, k_heads, chunk_size) is None,
    ensures
        ({
            let gates = gdn_decay_and_beta_seq_launch(ctx, a, b, a_log, dt_bias, g, beta, tokens, v_heads);
            let scan = gdn_chunk_scan_launch(ctx, q, k, v, g, beta, out, state, v_heads, k_heads, chunk_size);
            &&& g.starts_at(ctx.device_id, gates.decay) && scan.g == gates.decay
            &&& beta.starts_at(ctx.device_id, gates.beta) && scan.beta == gates.beta
            &&& scan.v_heads == gates.heads
            &&& scan.seq_padded == gates.tokens
        }),
{
    assert(seq![tokens, v_heads][0] == seq![q.extents()[0], v_heads][0]);
}

/// A state that a chunked scan accepts is one that the recurrent step over as
/// many key heads accepts as its state.
pub proof fn law_scanned_state_fits_the_recurrent_step(
    ctx: &CudaContext,
    q: &Tensor,
    k: &Tensor,
    v: &Tensor,
    g: &Tensor,
    beta: &Tensor,
    out: &Tensor,
    state: &Tensor,
    v_heads: usize,
    k_heads: usize,
    chunk_size: usize,
)
    requires
        gdn_chunk_scan_rejection(
            ctx.device_id,
            q,
            k,
            v,
            g,
            beta,
            out,
            state,
            v_heads,
            k_heads,
            chunk_size,
        ) is None,
    ensures
        state.extents().len() == 3,
        state.extents()[0] == v_heads,
        k_heads != 0 && state.extents()[0] % k_heads == 0,
        crate::ops::binding::operand_rejection(
            ctx.device_id,
            state,
            DType::F32,
            seq![state.extents()[0], state.extents()[1], state.extents()[2]],
        ) is None,
        state.packed_at(
            ctx.device_id,
            gdn_chunk_scan_launch(ctx, q, k, v, g, beta, out, state, v_heads, k_heads, chunk_size).state,
            DType::F32,
            seq![v_heads as i64, state.extents()[1] as i64, state.extents()[2] as i64],
        ),
{
}

/// A window that a prompt's convolution accepts is one that the step accepts,
/// together with the weight the prompt ran with.
pub proof fn law_prompt_window_fits_the_step(
    device: usize,
    input: &Tensor,
    weight: &Tensor,
    output: &Tensor,
    window: &Tensor,
    tokens: usize,
    channels: usize,
    kernel_width: usize,
    step_input: &Tensor,
    step_output: &Tensor,
)
    requires
        gdn_causal_conv_forward_rejection(
            device,
            input,
            weight,
            output,
            Some(window),
            tokens,
            channels,
            kernel_width,
        ) is None,
        crate::ops::binding::operand_rejection(device, step_input, DType::BF16, seq![channels]) is None,
        crate::ops::binding::operand_rejection(device, step_output, DType::BF16, seq![channels]) is None,
    ensures
        gdn_causal_conv_step_rejection(device, window, step_input, weight, step_output) is None,
{
}

/// Every operand of an accepted interleaved scan over at least one row lies
/// inside the fused tensor, first row and last.
pub proof fn law_interleaved_operands_stay_inside_the_row(
    device: usize,
    fused: &Tensor,
    g: &Tensor,
    beta: &Tensor,
    out: &Tensor,
    state: &Tensor,
    seq_padded: usize,
    row_width: usize,
    offsets: [usize; 3],
    v_heads: usize,
    k_heads: usize,
    chunk_size: usize,
    k_dim: usize,
)
    requires
        chunk_size > 0,
        seq_padded > 0,
        crate::ops::binding::bound_range(fused).ptr + crate::ops::binding::bound_range(fused).len <= usize::MAX,
        gdn_chunk_scan_interleaved_rejection(
            device,
            fused,
            g,
            beta,
            out,
            state,
            seq_padded,
            row_width,
            offsets,
            v_heads,
            k_heads,
            chunk_size,
            k_dim,
        ) is None,
    ensures
        forall|i: int|
            0 <= i < 3 ==> fused_address(fused, #[trigger] offsets@[i]) == crate::ops::binding::bound_range(fused).ptr
                + offsets@[i] * 2,
        offsets@[0] * 2 + (k_heads * k_dim) * 2 <= row_width * 2,
        offsets@[1] * 2 + (k_heads * k_dim) * 2 <= row_width * 2,
        offsets@[2] * 2 + (v_heads * k_dim) * 2 <= row_width * 2,
        (seq_padded * row_width) * 2 <= crate::ops::binding::bound_range(fused).len,
{
    crate::shape::lemma_product_2(seq_padded, row_width);
    assert(row_width * 2 <= (seq_padded * row_width) * 2) by (nonlinear_arith)
        requires
            seq_padded > 0,
    ;
    assert(0 <= k_heads * k_dim && 0 <= v_heads * k_dim) by (nonlinear_arith);
    assert forall|i: int| 0 <= i < 3 implies fused_address(fused, #[trigger] offsets@[i])
        == crate::ops::binding::bound_range(fused).ptr + offsets@[i] * 2 by {
        assert(i == 0 || i == 1 || i == 2);
    }
}

} // verus!
