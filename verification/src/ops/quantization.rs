//! Quantization and representation conversion.
use vstd::prelude::*;

use crate::buffer::CudaBuffer;
use crate::context::CudaContext;
use crate::dtype::DType;
use crate::error::Error;
use crate::ops::binding::{dims_1, dims_2, optional_address, optional_storage, tensor_storage};
use crate::ops::gemm::contracts::{alignment_of, SPEC_VERSION};
use crate::ops::launch::{begin_launch, LaunchPolicy, PendingLaunch};
use crate::scalar::{F32Bits, F32_ONE_BITS};
use crate::tensor::Tensor;
use crate::workspace::ThreadState;

verus! {

/// What a conversion computes.
#[derive(Clone, Copy, Debug, PartialEq, Eq, Structural)]
pub enum QuantizationSemantic {
    /// E4M3 codes of `input / scale`.
    FixedScaleE4m3,
    /// E4M3 codes with one computed scale per row; wider outputs are zero-filled.
    RowwiseE4m3,
    /// 8-bit integers with one computed scale per row.
    RowwiseI8,
    CastF16ToBf16,
    /// The leading columns of each row.
    SliceColumnsBf16,
}

impl QuantizationSemantic {
    /// Number by which the native interface knows the semantic.
    pub open spec fn code(self) -> u32 {
        match self {
            QuantizationSemantic::FixedScaleE4m3 => 0,
            QuantizationSemantic::RowwiseE4m3 => 1,
            QuantizationSemantic::RowwiseI8 => 2,
            QuantizationSemantic::CastF16ToBf16 => 3,
            QuantizationSemantic::SliceColumnsBf16 => 4,
        }
    }

    /// The semantic writes one scale per row.
    pub open spec fn rowwise(self) -> bool {
        self == QuantizationSemantic::RowwiseE4m3 || self == QuantizationSemantic::RowwiseI8
    }

    /// The input may be of this type.
    pub open spec fn reads(self, dtype: DType) -> bool {
        match self {
            QuantizationSemantic::CastF16ToBf16 => dtype == DType::F16,
            QuantizationSemantic::SliceColumnsBf16 => dtype == DType::BF16,
            _ => dtype.half(),
        }
    }

    /// Type of the output.
    pub open spec fn writes(self) -> DType {
        match self {
            QuantizationSemantic::FixedScaleE4m3 | QuantizationSemantic::RowwiseE4m3 => DType::F8E4M3,
            QuantizationSemantic::RowwiseI8 => DType::I8,
            QuantizationSemantic::CastF16ToBf16 | QuantizationSemantic::SliceColumnsBf16 => DType::BF16,
        }
    }

    /// An output of `out` columns fits an input of `cols` columns.
    pub open spec fn widths(self, cols: usize, out: usize) -> bool {
        match self {
            QuantizationSemantic::RowwiseE4m3 => out >= cols,
            QuantizationSemantic::SliceColumnsBf16 => 0 < out <= cols,
            _ => out == cols,
        }
    }
}

/// A conversion request.
#[derive(Debug)]
pub struct QuantizationArgs<'a> {
    pub semantic: QuantizationSemantic,
    pub input: &'a Tensor,
    pub output: &'a Tensor,
    /// Where a rowwise semantic writes its scales.
    pub scales: Option<&'a Tensor>,
    pub scale: F32Bits,
    pub policy: LaunchPolicy,
}

impl<'a> QuantizationArgs<'a> {
    pub fn new(semantic: QuantizationSemantic, input: &'a Tensor, output: &'a Tensor) -> (args:
        Self)
        ensures
            args == (QuantizationArgs {
                semantic,
                input,
                output,
                scales: None,
                scale: F32Bits { bits: F32_ONE_BITS },
                policy: crate::ops::launch::default_launch_policy(),
            }),
            args.semantic == semantic,
            args.input == input,
            args.output == output,
    {
        QuantizationArgs {
            semantic,
            input,
            output,
            scales: None,
            scale: F32Bits { bits: F32_ONE_BITS },
            policy: LaunchPolicy::default(),
        }
    }
}

/// The native launch of a conversion.
#[derive(Clone, Copy, Debug, PartialEq, Eq, Structural)]
pub struct QuantizationLaunch {
    pub version: u32,
    pub semantic: u32,
    pub input_dtype: u32,
    pub output_dtype: u32,
    pub scale_dtype: u32,
    pub input_alignment: u32,
    pub output_alignment: u32,
    pub scales_alignment: u32,
    pub rows: i64,
    pub input_cols: i64,
    pub output_cols: i64,
    pub input: usize,
    pub output: usize,
    pub scales: usize,
    pub stream: usize,
    pub scale: F32Bits,
}

pub const QUANTIZATION_RANK_TEXT: &'static str =
    "quantization input and output must be non-empty matrices";

pub const QUANTIZATION_INPUT_TEXT: &'static str =
    "quantization input dtype does not fit its semantic";

pub const QUANTIZATION_WIDTH_TEXT: &'static str =
    "quantization output width does not fit its semantic";

pub const QUANTIZATION_SCALES_TEXT: &'static str = "rowwise quantization requires a scale output";

pub const QUANTIZATION_NO_SCALES_TEXT: &'static str = "this quantization writes no scales";

pub const QUANTIZATION_SCALE_TEXT: &'static str =
    "quantization scale must be finite and positive";

/// Why a conversion is refused, if it is.
pub open spec fn quantization_rejection(device: usize, r: &QuantizationArgs<'_>) -> Option<Error> {
    let rows = r.input.extents()[0];
    let cols = r.input.extents()[1];
    let out = r.output.extents()[1];
    if r.input.extents().len() != 2 || r.output.extents().len() != 2 || rows == 0 || cols == 0 {
        Some(Error::Other(QUANTIZATION_RANK_TEXT))
    } else if !r.semantic.reads(r.input.dtype) {
        Some(Error::Other(QUANTIZATION_INPUT_TEXT))
    } else if !r.semantic.widths(cols, out) {
        Some(Error::Other(QUANTIZATION_WIDTH_TEXT))
    } else if r.semantic.rowwise() && r.scales is None {
        Some(Error::Other(QUANTIZATION_SCALES_TEXT))
    } else if !r.semantic.rowwise() && r.scales is Some {
        Some(Error::Other(QUANTIZATION_NO_SCALES_TEXT))
    } else if r.semantic == QuantizationSemantic::FixedScaleE4m3 && !r.scale.usable() {
        Some(Error::Other(QUANTIZATION_SCALE_TEXT))
    } else {
        crate::ops::binding::first(
            crate::ops::binding::operand_rejection(device, r.input, r.input.dtype, seq![rows, cols]),
            crate::ops::binding::first(
                crate::ops::binding::operand_rejection(device, r.output, r.semantic.writes(), seq![rows, out]),
                crate::ops::binding::optional_rejection(device, r.scales, DType::F32, seq![rows]),
            ),
        )
    }
}

/// The launch of an accepted request.
pub open spec fn quantization_launch(
    ctx: &CudaContext,
    r: &QuantizationArgs<'_>,
) -> QuantizationLaunch {
    QuantizationLaunch {
        version: SPEC_VERSION,
        semantic: r.semantic.code(),
        input_dtype: r.input.dtype.code(),
        output_dtype: r.output.dtype.code(),
        scale_dtype: DType::F32.code(),
        input_alignment: crate::ops::gemm::contracts::alignment(crate::ops::binding::bound_range(r.input).ptr),
        output_alignment: crate::ops::gemm::contracts::alignment(crate::ops::binding::bound_range(r.output).ptr),
        scales_alignment: crate::ops::gemm::contracts::optional_alignment(r.scales),
        rows: r.input.extents()[0] as i64,
        input_cols: r.input.extents()[1] as i64,
        output_cols: r.output.extents()[1] as i64,
        input: crate::ops::binding::bound_range(r.input).ptr,
        output: crate::ops::binding::bound_range(r.output).ptr,
        scales: crate::ops::binding::optional_ptr(r.scales),
        stream: ctx.stream.handle,
        scale: r.scale,
    }
}

/// `result` is what a conversion request comes to.
pub open spec fn quantization_outcome(
    thread: &ThreadState,
    ctx: &CudaContext,
    r: &QuantizationArgs<'_>,
    result: Result<PendingLaunch<QuantizationLaunch>, Error>,
) -> bool {
    match quantization_rejection(ctx.device_id, r) {
        Some(e) => result == Err::<PendingLaunch<QuantizationLaunch>, Error>(e),
        None => crate::ops::launch::becomes_pending(thread, ctx, quantization_launch(ctx, r), r.policy, result),
    }
}

/// Starts a quantization or representation conversion.
pub fn quantization(thread: &ThreadState, ctx: &CudaContext, args: QuantizationArgs<'_>) -> (result:
    Result<PendingLaunch<QuantizationLaunch>, Error>)
    ensures
        quantization_outcome(thread, ctx, &args, result),
        result matches Ok(p) ==> {
            &&& args.input.packed_at(ctx.device_id, p.launch.input, args.input.dtype, seq![p.launch.rows, p.launch.input_cols])
            &&& args.output.packed_at(ctx.device_id, p.launch.output, args.output.dtype, seq![p.launch.rows, p.launch.output_cols])
            &&& args.scales matches Some(t) ==> t.packed_at(ctx.device_id, p.launch.scales, DType::F32, seq![p.launch.rows])
            &&& args.scales is None ==> p.launch.scales == 0
            &&& p.launch.scale == args.scale
            &&& p.launch.input_dtype == args.input.dtype.code()
            &&& p.launch.output_dtype == args.output.dtype.code()
            &&& p.launch.scale_dtype == DType::F32.code()
            &&& (args.semantic is FixedScaleE4m3 || args.semantic is RowwiseE4m3) <==> args.output.dtype is F8E4M3
            &&& args.semantic is RowwiseI8 <==> args.output.dtype is I8
            &&& (args.semantic is CastF16ToBf16 || args.semantic is SliceColumnsBf16) <==> args.output.dtype is BF16
            &&& (args.semantic is RowwiseE4m3 || args.semantic is RowwiseI8) <==> args.scales is Some
            &&& (args.semantic is FixedScaleE4m3 <==> p.launch.semantic == 0) && (args.semantic is RowwiseE4m3 <==> p.launch.semantic == 1)
            &&& (args.semantic is RowwiseI8 <==> p.launch.semantic == 2) && (args.semantic is CastF16ToBf16 <==> p.launch.semantic == 3)
            &&& args.semantic is SliceColumnsBf16 <==> p.launch.semantic == 4
            &&& p.launch.input_alignment == crate::ops::gemm::contracts::alignment(p.launch.input)
            &&& p.launch.output_alignment == crate::ops::gemm::contracts::alignment(p.launch.output)
            &&& args.scales is Some ==> p.launch.scales_alignment == crate::ops::gemm::contracts::alignment(p.launch.scales)
            &&& args.scales is None ==> p.launch.scales_alignment == 0
            &&& p.policy == args.policy
            &&& p.stream == ctx.stream
            &&& p.runtime == ctx.runtime
            &&& p.launch.stream == ctx.stream.handle
        },
{
    let dims: &Vec<usize> = args.input.shape.dims();
    let out_dims: &Vec<usize> = args.output.shape.dims();
    if dims.len() != 2 || out_dims.len() != 2 || dims[0] == 0 || dims[1] == 0 {
        return Err(Error::Other(QUANTIZATION_RANK_TEXT));
    }
    let rows: usize = dims[0];
    let cols: usize = dims[1];
    let out: usize = out_dims[1];
    let t: DType = args.input.dtype;
    let readable: bool = match args.semantic {
        QuantizationSemantic::CastF16ToBf16 => t == DType::F16,
        QuantizationSemantic::SliceColumnsBf16 => t == DType::BF16,
        _ => t.is_half(),
    };
    if !readable {
        return Err(Error::Other(QUANTIZATION_INPUT_TEXT));
    }
    let fitting: bool = match args.semantic {
        QuantizationSemantic::RowwiseE4m3 => out >= cols,
        QuantizationSemantic::SliceColumnsBf16 => 0 < out && out <= cols,
        _ => out == cols,
    };
    if !fitting {
        return Err(Error::Other(QUANTIZATION_WIDTH_TEXT));
    }
    let rowwise: bool = args.semantic == QuantizationSemantic::RowwiseE4m3 || args.semantic
        == QuantizationSemantic::RowwiseI8;
    if rowwise && args.scales.is_none() {
        return Err(Error::Other(QUANTIZATION_SCALES_TEXT));
    }
    if !rowwise && args.scales.is_some() {
        return Err(Error::Other(QUANTIZATION_NO_SCALES_TEXT));
    }
    if args.semantic == QuantizationSemantic::FixedScaleE4m3 && !args.scale.is_finite_positive() {
        return Err(Error::Other(QUANTIZATION_SCALE_TEXT));
    }
    let written: DType = match args.semantic {
        QuantizationSemantic::FixedScaleE4m3 | QuantizationSemantic::RowwiseE4m3 => DType::F8E4M3,
        QuantizationSemantic::RowwiseI8 => DType::I8,
        QuantizationSemantic::CastF16ToBf16 | QuantizationSemantic::SliceColumnsBf16 => DType::BF16,
    };
    let code: u32 = match args.semantic {
        QuantizationSemantic::FixedScaleE4m3 => 0,
        QuantizationSemantic::RowwiseE4m3 => 1,
        QuantizationSemantic::RowwiseI8 => 2,
        QuantizationSemantic::CastF16ToBf16 => 3,
        QuantizationSemantic::SliceColumnsBf16 => 4,
    };
    let input: CudaBuffer = tensor_storage(ctx, args.input, t, &dims_2(rows, cols))?;
    let output: CudaBuffer = tensor_storage(ctx, args.output, written, &dims_2(rows, out))?;
    let scales: Option<CudaBuffer> = optional_storage(
        ctx,
        args.scales,
        DType::F32,
        &dims_1(rows),
    )?;
    let scales_alignment: u32 = match &scales {
        Some(b) => alignment_of(b.ptr()),
        None => 0,
    };
    let launch: QuantizationLaunch = QuantizationLaunch {
        version: SPEC_VERSION,
        semantic: code,
        input_dtype: t.abi_code(),
        output_dtype: written.abi_code(),
        scale_dtype: DType::F32.abi_code(),
        input_alignment: alignment_of(input.ptr()),
        output_alignment: alignment_of(output.ptr()),
        scales_alignment,
        rows: rows as i64,
        input_cols: cols as i64,
        output_cols: out as i64,
        input: input.ptr(),
        output: output.ptr(),
        scales: optional_address(&scales),
        stream: ctx.stream.handle,
        scale: args.scale,
    };
    begin_launch(thread, ctx, launch, args.policy)
}

/// A conversion is accepted exactly when its operands fit its semantic, and
/// then its kernel computes that semantic and finds each operand in its own
/// role, of its own type.
pub proof fn law_conversion_reads_each_operand_in_its_role(
    thread: &ThreadState,
    ctx: &CudaContext,
    args: &QuantizationArgs<'_>,
    result: Result<PendingLaunch<QuantizationLaunch>, Error>,
)
    requires
        quantization_outcome(thread, ctx, args, result),
    ensures
        quantization_rejection(ctx.device_id, args) is None <==> {
            &&& args.input.extents().len() == 2 && args.output.extents().len() == 2
            &&& args.input.extents()[0] > 0 && args.input.extents()[1] > 0
            &&& (args.semantic is CastF16ToBf16 ==> args.input.dtype is F16)
            &&& (args.semantic is SliceColumnsBf16 ==> args.input.dtype is BF16)
            &&& args.input.dtype is F16 || args.input.dtype is BF16
            &&& (args.semantic is RowwiseE4m3 ==> args.output.extents()[1] >= args.input.extents()[1])
            &&& (args.semantic is SliceColumnsBf16 ==> 0 < args.output.extents()[1] <= args.input.extents()[1])
            &&& (!(args.semantic is RowwiseE4m3 || args.semantic is SliceColumnsBf16) ==> args.output.extents()[1] == args.input.extents()[1])
            &&& ((args.semantic is RowwiseE4m3 || args.semantic is RowwiseI8) <==> args.scales is Some)
            &&& (args.semantic is FixedScaleE4m3 ==> 0 < args.scale.bits < 0x7f80_0000)
            &&& args.input.holds(ctx.device_id, args.input.dtype, args.input.extents())
            &&& args.output.holds(ctx.device_id, (if args.semantic is RowwiseI8 { DType::I8 } else if args.semantic is FixedScaleE4m3 || args.semantic is RowwiseE4m3 { DType::F8E4M3 } else { DType::BF16 }), seq![args.input.extents()[0], args.output.extents()[1]])
            &&& (args.scales matches Some(t) ==> t.holds(ctx.device_id, DType::F32, seq![args.input.extents()[0]]))
        },
        result is Ok <==> quantization_rejection(ctx.device_id, args) is None && thread@.target_rejection(ctx.device_id, ctx.stream.handle) is None,
        result matches Ok(p) ==> {
            &&& args.input.packed_at(ctx.device_id, p.launch.input, args.input.dtype, seq![p.launch.rows, p.launch.input_cols])
            &&& args.output.packed_at(ctx.device_id, p.launch.output, args.output.dtype, seq![p.launch.rows, p.launch.output_cols])
            &&& args.scales matches Some(t) ==> t.packed_at(ctx.device_id, p.launch.scales, DType::F32, seq![p.launch.rows])
            &&& args.scales is None ==> p.launch.scales == 0
            &&& p.launch.scale == args.scale
            &&& p.launch.input_dtype == args.input.dtype.code()
            &&& p.launch.output_dtype == args.output.dtype.code()
            &&& p.launch.scale_dtype == DType::F32.code()
            &&& (args.semantic is FixedScaleE4m3 || args.semantic is RowwiseE4m3) <==> args.output.dtype is F8E4M3
            &&& args.semantic is RowwiseI8 <==> args.output.dtype is I8
            &&& (args.semantic is CastF16ToBf16 || args.semantic is SliceColumnsBf16) <==> args.output.dtype is BF16
            &&& (args.semantic is RowwiseE4m3 || args.semantic is RowwiseI8) <==> args.scales is Some
            &&& (args.semantic is FixedScaleE4m3 <==> p.launch.semantic == 0) && (args.semantic is RowwiseE4m3 <==> p.launch.semantic == 1)
            &&& (args.semantic is RowwiseI8 <==> p.launch.semantic == 2) && (args.semantic is CastF16ToBf16 <==> p.launch.semantic == 3)
            &&& args.semantic is SliceColumnsBf16 <==> p.launch.semantic == 4
            &&& p.launch.input_alignment == crate::ops::gemm::contracts::alignment(p.launch.input)
            &&& p.launch.output_alignment == crate::ops::gemm::contracts::alignment(p.launch.output)
            &&& args.scales is Some ==> p.launch.scales_alignment == crate::ops::gemm::contracts::alignment(p.launch.scales)
            &&& args.scales is None ==> p.launch.scales_alignment == 0
            &&& p.policy == args.policy
            &&& p.stream == ctx.stream
            &&& p.runtime == ctx.runtime
            &&& p.launch.stream == ctx.stream.handle
        },
{
    assert(args.input.extents().len() == 2 ==> args.input.extents() =~= seq![args.input.extents()[0], args.input.extents()[1]]);
}

} // verus!
