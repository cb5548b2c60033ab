//! MLP building blocks: RMSNorm, SwiGLU, residual addition and per-tensor
//! FP8 quantization.
//!
//! These have a single implementation each and nothing to select between, so
//! they are direct entry points.
use vstd::prelude::*;

use crate::buffer::CudaBuffer;
use crate::context::CudaContext;
use crate::dtype::DType;
use crate::error::Error;
use crate::ops::binding::{dims_1, tensor_storage};
use crate::scalar::F32Bits;
use crate::shape::{checked_product, same_dims};
use crate::tensor::Tensor;

verus! {

pub const RMS_RANK_TEXT: &'static str = "RMSNorm requires a rank-2 tensor";

pub const SWIGLU_RANK_TEXT: &'static str = "SwiGLU requires rank-2 tensors";

pub const SWIGLU_SHAPE_TEXT: &'static str =
    "SwiGLU input must be [rows, 2*width] for an output of [rows, width]";

pub const ADD_SHAPE_TEXT: &'static str = "residual add requires matching shapes";

pub const FP8_SHAPE_TEXT: &'static str = "FP8 quantization requires matching shapes";

pub const FP8_SCALE_TEXT: &'static str = "FP8 input_scale must be finite and positive";

/// The native launch of an RMSNorm.
#[derive(Clone, Copy, Debug, PartialEq, Eq, Structural)]
pub struct RmsNormCall {
    pub input: usize,
    pub weight: usize,
    pub output: usize,
    pub rows: i64,
    pub width: i64,
    pub epsilon: F32Bits,
    pub stream: usize,
}

/// Why an RMSNorm is refused, if it is.
pub open spec fn rms_norm_rejection(
    device: usize,
    input: &Tensor,
    weight: &Tensor,
    output: &Tensor,
) -> Option<Error> {
    let dims = input.extents();
    if dims.len() != 2 {
        Some(Error::Other(RMS_RANK_TEXT))
    } else {
        crate::ops::binding::first(
            crate::ops::binding::operand_rejection(device, input, DType::BF16, dims),
            crate::ops::binding::first(
                crate::ops::binding::operand_rejection(device, weight, DType::BF16, seq![dims[1]]),
                crate::ops::binding::operand_rejection(device, output, DType::BF16, dims),
            ),
        )
    }
}

/// `y[r,c] = x[r,c] / sqrt(mean(x[r,:]^2) + epsilon) * weight[c]`
///
/// The reduction runs in f32 regardless of the BF16 storage.
pub fn rms_norm(
    ctx: &CudaContext,
    input: &Tensor,
    weight: &Tensor,
    output: &Tensor,
    epsilon: F32Bits,
) -> (call: Result<RmsNormCall, Error>)
    ensures
        match call {
            Ok(c) => {
                &&& rms_norm_rejection(ctx.device_id, input, weight, output) is None
                &&& c == (RmsNormCall {
                    input: crate::ops::binding::bound_range(input).ptr,
                    weight: crate::ops::binding::bound_range(weight).ptr,
                    output: crate::ops::binding::bound_range(output).ptr,
                    rows: input.extents()[0] as i64,
                    width: input.extents()[1] as i64,
                    epsilon,
                    stream: ctx.stream.handle,
                })
                &&& input.packed_at(ctx.device_id, c.input, DType::BF16, seq![c.rows, c.width])
                &&& weight.packed_at(ctx.device_id, c.weight, DType::BF16, seq![c.width])
                &&& output.packed_at(ctx.device_id, c.output, DType::BF16, seq![c.rows, c.width])
                &&& c.epsilon == epsilon
                &&& c.stream == ctx.stream.handle
            },
            Err(e) => rms_norm_rejection(ctx.device_id, input, weight, output) == Some(e),
        },
{
    let dims: &Vec<usize> = input.shape.dims();
    if dims.len() != 2 {
        return Err(Error::Other(RMS_RANK_TEXT));
    }
    let input_storage: CudaBuffer = tensor_storage(ctx, input, DType::BF16, dims)?;
    let weight_storage: CudaBuffer = tensor_storage(ctx, weight, DType::BF16, &dims_1(dims[1]))?;
    let output_storage: CudaBuffer = tensor_storage(ctx, output, DType::BF16, dims)?;
    Ok(
        RmsNormCall {
            input: input_storage.ptr(),
            weight: weight_storage.ptr(),
            output: output_storage.ptr(),
            rows: dims[0] as i64,
            width: dims[1] as i64,
            epsilon,
            stream: ctx.stream.handle,
        },
    )
}

/// The native launch of a SwiGLU.
#[derive(Clone, Copy, Debug, PartialEq, Eq, Structural)]
pub struct SwigluCall {
    pub fused: usize,
    pub output: usize,
    pub rows: i64,
    pub width: i64,
    pub stream: usize,
}

/// Why a SwiGLU is refused, if it is.
pub open spec fn swiglu_rejection(device: usize, fused: &Tensor, output: &Tensor) -> Option<Error> {
    let f = fused.extents();
    let o = output.extents();
    if f.len() != 2 || o.len() != 2 {
        Some(Error::Other(SWIGLU_RANK_TEXT))
    } else if f[0] != o[0] || f[1] != o[1] * 2 {
        Some(Error::Other(SWIGLU_SHAPE_TEXT))
    } else {
        crate::ops::binding::first(
            crate::ops::binding::operand_rejection(device, fused, DType::BF16, f),
            crate::ops::binding::operand_rejection(device, output, DType::BF16, o),
        )
    }
}

/// `y[r,c] = silu(fused[r,c]) * fused[r,width+c]`
///
/// `fused` is `[rows, 2*width]` with gate first, the layout one fused gate/up
/// GEMM produces. This is SwiGLU; the GELU variant is not interchangeable.
pub fn swiglu(ctx: &CudaContext, fused: &Tensor, output: &Tensor) -> (call: Result<
    SwigluCall,
    Error,
>)
    ensures
        match call {
            Ok(c) => {
                &&& swiglu_rejection(ctx.device_id, fused, output) is None
                &&& c == (SwigluCall {
                    fused: crate::ops::binding::bound_range(fused).ptr,
                    output: crate::ops::binding::bound_range(output).ptr,
                    rows: output.extents()[0] as i64,
                    width: output.extents()[1] as i64,
                    stream: ctx.stream.handle,
                })
                &&& output.packed_at(ctx.device_id, c.output, DType::BF16, seq![c.rows, c.width])
                &&& fused.starts_at(ctx.device_id, c.fused)
                &&& fused.holds(ctx.device_id, DType::BF16, seq![output.extents()[0], (2 * output.extents()[1]) as usize])
                &&& fused.extents()[1] == 2 * output.extents()[1]
                &&& c.stream == ctx.stream.handle
            },
            Err(e) => swiglu_rejection(ctx.device_id, fused, output) == Some(e),
        },
{
    let f: &Vec<usize> = fused.shape.dims();
    let o: &Vec<usize> = output.shape.dims();
    if f.len() != 2 || o.len() != 2 {
        return Err(Error::Other(SWIGLU_RANK_TEXT));
    }
    if f[0] != o[0] || f[1] % 2 != 0 || f[1] / 2 != o[1] {
        return Err(Error::Other(SWIGLU_SHAPE_TEXT));
    }
    assert(f@ =~= seq![o[0], (2 * o[1]) as usize]);
    let fused_storage: CudaBuffer = tensor_storage(ctx, fused, DType::BF16, f)?;
    let output_storage: CudaBuffer = tensor_storage(ctx, output, DType::BF16, o)?;
    Ok(
        SwigluCall {
            fused: fused_storage.ptr(),
            output: output_storage.ptr(),
            rows: o[0] as i64,
            width: o[1] as i64,
            stream: ctx.stream.handle,
        },
    )
}

/// The native launch of an elementwise addition.
#[derive(Clone, Copy, Debug, PartialEq, Eq, Structural)]
pub struct AddCall {
    pub addend: usize,
    pub accumulator: usize,
    pub count: i64,
    pub stream: usize,
}

/// Why an addition is refused, if it is.
pub open spec fn add_into_rejection(
    device: usize,
    addend: &Tensor,
    accumulator: &Tensor,
) -> Option<Error> {
    let dims = addend.extents();
    if accumulator.extents() != dims {
        Some(Error::Other(ADD_SHAPE_TEXT))
    } else {
        crate::ops::binding::first(
            crate::ops::binding::operand_rejection(device, addend, DType::BF16, dims),
            crate::ops::binding::operand_rejection(device, accumulator, DType::BF16, dims),
        )
    }
}

fn element_count(dims: &Vec<usize>) -> (count: usize)
    requires
        crate::shape::product(dims@) <= usize::MAX,
    ensures
        count == crate::shape::product(dims@),
{
    match checked_product(dims) {
        Some(count) => count,
        None => {
            assert(false);
            0
        },
    }
}

/// `accumulator += addend`, elementwise. Residual connections.
pub fn add_into(ctx: &CudaContext, addend: &Tensor, accumulator: &Tensor) -> (call: Result<
    AddCall,
    Error,
>)
    ensures
        match call {
            Ok(c) => {
                &&& add_into_rejection(ctx.device_id, addend, accumulator) is None
                &&& c == (AddCall {
                    addend: crate::ops::binding::bound_range(addend).ptr,
                    accumulator: crate::ops::binding::bound_range(accumulator).ptr,
                    count: (crate::shape::product(addend.extents()) as usize) as i64,
                    stream: ctx.stream.handle,
                })
                &&& crate::shape::product(addend.extents()) <= usize::MAX
                &&& addend.starts_at(ctx.device_id, c.addend)
                &&& accumulator.starts_at(ctx.device_id, c.accumulator)
                &&& addend.holds(ctx.device_id, DType::BF16, addend.extents())
                &&& accumulator.holds(ctx.device_id, DType::BF16, addend.extents())
                &&& c.count == (crate::shape::product(accumulator.extents()) as usize) as i64
                &&& c.stream == ctx.stream.handle
            },
            Err(e) => add_into_rejection(ctx.device_id, addend, accumulator) == Some(e),
        },
{
    let dims: &Vec<usize> = addend.shape.dims();
    if !same_dims(accumulator.shape.dims(), dims) {
        return Err(Error::Other(ADD_SHAPE_TEXT));
    }
    let addend_storage: CudaBuffer = tensor_storage(ctx, addend, DType::BF16, dims)?;
    let accumulator_storage: CudaBuffer = tensor_storage(ctx, accumulator, DType::BF16, dims)?;
    Ok(
        AddCall {
            addend: addend_storage.ptr(),
            accumulator: accumulator_storage.ptr(),
            count: element_count(dims) as i64,
            stream: ctx.stream.handle,
        },
    )
}

/// The native launch of a per-tensor quantization.
#[derive(Clone, Copy, Debug, PartialEq, Eq, Structural)]
pub struct QuantizeCall {
    pub source: usize,
    pub destination: usize,
    pub count: i64,
    pub scale: F32Bits,
    pub stream: usize,
}

/// Why a per-tensor quantization is refused, if it is.
pub open spec fn quantize_rejection(
    device: usize,
    input: &Tensor,
    output: &Tensor,
    input_scale: F32Bits,
) -> Option<Error> {
    let dims = input.extents();
    if output.extents() != dims {
        Some(Error::Other(FP8_SHAPE_TEXT))
    } else if !input_scale.usable() {
        Some(Error::Other(FP8_SCALE_TEXT))
    } else {
        crate::ops::binding::first(
            crate::ops::binding::operand_rejection(device, input, DType::BF16, dims),
            crate::ops::binding::operand_rejection(device, output, DType::F8E4M3, dims),
        )
    }
}

/// Quantizes BF16 to E4M3 against a single per-tensor scale.
///
/// With the input quantized against its own scale, a projection runs on unit
/// scales with `alpha = weight_scale * input_scale`.
pub fn quantize_fp8_per_tensor(
    ctx: &CudaContext,
    input: &Tensor,
    output: &Tensor,
    input_scale: F32Bits,
) -> (call: Result<QuantizeCall, Error>)
    ensures
        match call {
            Ok(c) => {
                &&& quantize_rejection(ctx.device_id, input, output, input_scale) is None
                &&& c == (QuantizeCall {
                    source: crate::ops::binding::bound_range(input).ptr,
                    destination: crate::ops::binding::bound_range(output).ptr,
                    count: (crate::shape::product(input.extents()) as usize) as i64,
                    scale: input_scale,
                    stream: ctx.stream.handle,
                })
                &&& crate::shape::product(input.extents()) <= usize::MAX
                &&& input.starts_at(ctx.device_id, c.source)
                &&& output.starts_at(ctx.device_id, c.destination)
                &&& input.holds(ctx.device_id, DType::BF16, input.extents())
                &&& output.holds(ctx.device_id, DType::F8E4M3, input.extents())
                &&& c.count == (crate::shape::product(output.extents()) as usize) as i64
                &&& c.scale == input_scale
                &&& c.stream == ctx.stream.handle
            },
            Err(e) => quantize_rejection(ctx.device_id, input, output, input_scale) == Some(e),
        },
{
    let dims: &Vec<usize> = input.shape.dims();
    if !same_dims(output.shape.dims(), dims) {
        return Err(Error::Other(FP8_SHAPE_TEXT));
    }
    if !input_scale.is_finite_positive() {
        return Err(Error::Other(FP8_SCALE_TEXT));
    }
    let source: CudaBuffer = tensor_storage(ctx, input, DType::BF16, dims)?;
    let destination: CudaBuffer = tensor_storage(ctx, output, DType::F8E4M3, dims)?;
    Ok(
        QuantizeCall {
            source: source.ptr(),
            destination: destination.ptr(),
            count: element_count(dims) as i64,
            scale: input_scale,
            stream: ctx.stream.handle,
        },
    )
}

/// Each building block is accepted exactly when its operands have the types
/// and extents that its formula relates.
pub proof fn law_building_blocks_are_accepted_exactly_when_their_operands_fit(
    device: usize,
    a: &Tensor,
    b: &Tensor,
    c: &Tensor,
    scale: F32Bits,
)
    ensures
        rms_norm_rejection(device, a, b, c) is None <==> {
            &&& a.extents().len() == 2
            &&& a.holds(device, DType::BF16, a.extents())
            &&& b.holds(device, DType::BF16, seq![a.extents()[1]])
            &&& c.holds(device, DType::BF16, a.extents())
        },
        swiglu_rejection(device, a, b) is None <==> {
            &&& a.extents().len() == 2
            &&& b.extents().len() == 2
            &&& a.extents()[0] == b.extents()[0]
            &&& a.extents()[1] == b.extents()[1] + b.extents()[1]
            &&& a.holds(device, DType::BF16, a.extents())
            &&& b.holds(device, DType::BF16, b.extents())
        },
        add_into_rejection(device, a, b) is None <==> {
            &&& a.holds(device, DType::BF16, b.extents())
            &&& b.holds(device, DType::BF16, a.extents())
        },
        quantize_rejection(device, a, b, scale) is None <==> {
            &&& 0 < scale.bits < 0x7f80_0000
            &&& a.holds(device, DType::BF16, b.extents())
            &&& b.holds(device, DType::F8E4M3, a.extents())
        },
{
}

} // verus!
