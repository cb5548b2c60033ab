//! Arguments of the GEMM family and the problem they describe.
use vstd::prelude::*;

use crate::buffer::{BufferView, CudaBuffer};
use crate::context::CudaContext;
use crate::dtype::DType;
use crate::error::Error;
use crate::ops::binding::{dims_1, dims_2, optional_storage, tensor_storage};
use crate::scalar::{F32Bits, F32_ONE_BITS};
use crate::tensor::Tensor;

verus! {

/// What is computed from the product of the two matrices.
#[derive(Clone, Copy, Debug, PartialEq, Eq, Structural)]
pub enum Semantic {
    Gemm,
    GemmBiasGelu,
    GemmBias,
    GemmGeglu,
}

/// The native entry points of one member of the family.
#[derive(Clone, Copy, Debug, PartialEq, Eq, Structural)]
pub enum PlanApi {
    Gemm,
    GemmBiasGelu,
    GemmBias,
    GemmGeglu,
}

impl PlanApi {
    /// Name that the native symbols of the member share.
    pub open spec fn label(self) -> Seq<char> {
        match self {
            PlanApi::Gemm => "gemm"@,
            PlanApi::GemmBiasGelu => "gemm_bias_gelu"@,
            PlanApi::GemmBias => "gemm_bias"@,
            PlanApi::GemmGeglu => "gemm_geglu"@,
        }
    }

    pub fn gemm() -> (api: Self)
        ensures
            api == PlanApi::Gemm,
    {
        PlanApi::Gemm
    }

    pub fn gemm_bias_gelu() -> (api: Self)
        ensures
            api == PlanApi::GemmBiasGelu,
    {
        PlanApi::GemmBiasGelu
    }

    pub fn gemm_bias() -> (api: Self)
        ensures
            api == PlanApi::GemmBias,
    {
        PlanApi::GemmBias
    }

    pub fn gemm_geglu() -> (api: Self)
        ensures
            api == PlanApi::GemmGeglu,
    {
        PlanApi::GemmGeglu
    }

    /// Name that the native symbols of the member share.
    pub fn name(self) -> (name: &'static str)
        ensures
            name@ == self.label(),
    {
        match self {
            PlanApi::Gemm => "gemm",
            PlanApi::GemmBiasGelu => "gemm_bias_gelu",
            PlanApi::GemmBias => "gemm_bias",
            PlanApi::GemmGeglu => "gemm_geglu",
        }
    }
}

/// How the operands encode the values they stand for.
#[derive(Clone, Copy, Debug, PartialEq, Eq, Structural)]
pub enum GemmQuantization {
    /// Floating-point operands.
    Unquantized,
    /// E4M3 operands that stand for themselves.
    Fp8UnitScale,
    /// E4M3 operands with one scale per row of A and per column of B.
    Fp8,
    /// 8-bit integer operands with one scale per row of A and per column of B.
    W8A8,
}

impl GemmQuantization {
    /// Number by which the native interface knows the encoding.
    pub open spec fn code(self) -> u32 {
        match self {
            GemmQuantization::Unquantized => 0,
            GemmQuantization::Fp8UnitScale => 1,
            GemmQuantization::Fp8 => 2,
            GemmQuantization::W8A8 => 3,
        }
    }

    /// The operands come with row and channel scales.
    pub open spec fn scaled(self) -> bool {
        self == GemmQuantization::Fp8 || self == GemmQuantization::W8A8
    }

    /// The operands may be of this type.
    pub open spec fn admits(self, dtype: DType) -> bool {
        match self {
            GemmQuantization::Unquantized => dtype == DType::F32 || dtype.half(),
            GemmQuantization::Fp8UnitScale | GemmQuantization::Fp8 => dtype == DType::F8E4M3,
            GemmQuantization::W8A8 => dtype == DType::I8,
        }
    }

    /// Type in which products are summed.
    pub open spec fn accumulator(self) -> DType {
        if self == GemmQuantization::W8A8 {
            DType::I32
        } else {
            DType::F32
        }
    }

    /// Type of a bias: that of floating-point operands, else that of the output.
    pub open spec fn bias_type(self, operand: DType, output: DType) -> DType {
        if self == GemmQuantization::Unquantized {
            operand
        } else {
            output
        }
    }
}

/// The output of a GEMM may be of this type.
pub open spec fn output_type(dtype: DType) -> bool {
    dtype == DType::F32 || dtype.half() || dtype == DType::F8E4M3
}

/// Whether work is enqueued directly or replayed from a graph.
#[derive(Clone, Copy, Debug, PartialEq, Eq, Structural)]
pub enum GemmExecutionMode {
    Eager,
    GraphReplay,
}

/// Version of a weight that its owner does not change in place.
#[derive(Clone, Copy, Debug, PartialEq, Eq, Structural)]
pub struct WeightVersion {
    pub version: u64,
}

impl WeightVersion {
    pub fn new(version: u64) -> (v: Self)
        ensures
            v.version == version,
    {
        WeightVersion { version }
    }
}

/// How an implementation may be chosen.
#[derive(Debug)]
pub struct GemmPolicy {
    pub workspace_limit: usize,
    /// Time candidates where no recipe is known.
    pub online_tune: bool,
    /// Run an untuned candidate where no recipe is known.
    pub allow_fallback: bool,
    pub graph_safe: bool,
    pub deterministic: bool,
    pub execution_mode: GemmExecutionMode,
    /// Where recipes persist.
    pub cache_dir: Option<String>,
}

impl Default for GemmPolicy {
    fn default() -> (policy: Self)
        ensures
            policy == default_policy(),
    {
        GemmPolicy {
            workspace_limit: usize::MAX,
            online_tune: true,
            allow_fallback: true,
            graph_safe: false,
            deterministic: false,
            execution_mode: GemmExecutionMode::Eager,
            cache_dir: None,
        }
    }
}

/// The policy of a request that says nothing of its own.
pub open spec fn default_policy() -> GemmPolicy {
    GemmPolicy {
        workspace_limit: usize::MAX,
        online_tune: true,
        allow_fallback: true,
        graph_safe: false,
        deterministic: false,
        execution_mode: GemmExecutionMode::Eager,
        cache_dir: None,
    }
}

/// The default policy forbids nothing: no workspace is too large, plans may be
/// tuned and may fall back, none has to be safe for graphs or deterministic,
/// and nothing is kept on disk.
pub proof fn law_default_policy_forbids_nothing(bytes: usize)
    ensures
        bytes <= default_policy().workspace_limit,
        default_policy().online_tune && default_policy().allow_fallback,
        !default_policy().graph_safe && !default_policy().deterministic,
        default_policy().execution_mode is Eager,
        default_policy().cache_dir is None,
{
}

/// Host copies of the unquantized operands, by address and element count.
#[derive(Clone, Copy, Debug, PartialEq, Eq, Structural)]
pub struct ValidationReference {
    pub a: usize,
    pub a_len: usize,
    pub b: usize,
    pub b_len: usize,
    pub bias: usize,
    pub bias_len: usize,
}

/// A GEMM request: `out = output_scale * (alpha * a b)`, before what the
/// member of the family adds to it.
#[derive(Debug)]
pub struct GemmArgs<'a> {
    pub a: &'a Tensor,
    pub b: &'a Tensor,
    pub out: &'a Tensor,
    pub a_scales: Option<&'a Tensor>,
    pub b_scales: Option<&'a Tensor>,
    pub quantization: GemmQuantization,
    pub alpha: F32Bits,
    pub output_scale: F32Bits,
    pub weight_version: Option<WeightVersion>,
    pub validation_reference: Option<ValidationReference>,
    pub policy: GemmPolicy,
}

impl<'a> GemmArgs<'a> {
    /// A request on floating-point operands.
    pub fn new(a: &'a Tensor, b: &'a Tensor, out: &'a Tensor) -> (args: Self)
        ensures
            args == (GemmArgs {
                a,
                b,
                out,
                a_scales: None,
                b_scales: None,
                quantization: GemmQuantization::Unquantized,
                alpha: F32Bits { bits: F32_ONE_BITS },
                output_scale: F32Bits { bits: F32_ONE_BITS },
                weight_version: None,
                validation_reference: None,
                policy: default_policy(),
            }),
            args.a == a,
            args.b == b,
            args.out == out,
    {
        GemmArgs {
            a,
            b,
            out,
            a_scales: None,
            b_scales: None,
            quantization: GemmQuantization::Unquantized,
            alpha: F32Bits { bits: F32_ONE_BITS },
            output_scale: F32Bits { bits: F32_ONE_BITS },
            weight_version: None,
            validation_reference: None,
            policy: GemmPolicy::default(),
        }
    }

    /// A request on scaled E4M3 operands.
    pub fn fp8(
        a: &'a Tensor,
        row_scales: &'a Tensor,
        b: &'a Tensor,
        channel_scales: &'a Tensor,
        out: &'a Tensor,
    ) -> (args: Self)
        ensures
            args == (GemmArgs {
                a,
                b,
                out,
                a_scales: Some(row_scales),
                b_scales: Some(channel_scales),
                quantization: GemmQuantization::Fp8,
                alpha: F32Bits { bits: F32_ONE_BITS },
                output_scale: F32Bits { bits: F32_ONE_BITS },
                weight_version: None,
                validation_reference: None,
                policy: default_policy(),
            }),
            args.a == a,
            args.b == b,
            args.out == out,
            args.a_scales == Some(row_scales),
            args.b_scales == Some(channel_scales),
    {
        let base: GemmArgs = GemmArgs::new(a, b, out);
        GemmArgs {
            a_scales: Some(row_scales),
            b_scales: Some(channel_scales),
            quantization: GemmQuantization::Fp8,
            ..base
        }
    }

    /// A request on scaled 8-bit integer operands.
    pub fn w8a8(
        a: &'a Tensor,
        row_scales: &'a Tensor,
        b: &'a Tensor,
        channel_scales: &'a Tensor,
        out: &'a Tensor,
    ) -> (args: Self)
        ensures
            args == (GemmArgs {
                a,
                b,
                out,
                a_scales: Some(row_scales),
                b_scales: Some(channel_scales),
                quantization: GemmQuantization::W8A8,
                alpha: F32Bits { bits: F32_ONE_BITS },
                output_scale: F32Bits { bits: F32_ONE_BITS },
                weight_version: None,
                validation_reference: None,
                policy: default_policy(),
            }),
            args.a == a,
            args.b == b,
            args.out == out,
            args.a_scales == Some(row_scales),
            args.b_scales == Some(channel_scales),
    {
        let base: GemmArgs = GemmArgs::new(a, b, out);
        GemmArgs {
            a_scales: Some(row_scales),
            b_scales: Some(channel_scales),
            quantization: GemmQuantization::W8A8,
            ..base
        }
    }

    /// Promises that B keeps its contents as long as it keeps this version.
    pub fn with_immutable_weight(self, version: WeightVersion) -> (args: Self)
        ensures
            args == (GemmArgs { weight_version: Some(version), ..self }),
    {
        GemmArgs { weight_version: Some(version), ..self }
    }
}

/// The problem as a tuner sees it: types, alignments, extents and whether the
/// scales are trivial, but no address and no scale value.
#[derive(Clone, Copy, Debug, PartialEq, Eq, Structural)]
pub struct GemmSpec {
    pub version: u32,
    pub a_dtype: u32,
    pub b_dtype: u32,
    pub accumulation_dtype: u32,
    pub output_dtype: u32,
    pub quantization: u32,
    pub a_alignment: u32,
    pub b_alignment: u32,
    pub bias_alignment: u32,
    pub a_scales_alignment: u32,
    pub b_scales_alignment: u32,
    pub output_alignment: u32,
    pub m: i64,
    pub n: i64,
    pub k: i64,
    pub unit_alpha: bool,
    pub unit_output_scale: bool,
}

/// Version of the layout of [`GemmSpec`].
pub const SPEC_VERSION: u32 = 1;

/// What one execution works on: addresses, stream, scale values and the
/// version of the weight.
#[derive(Clone, Copy, Debug, PartialEq, Eq, Structural)]
pub struct GemmBindings {
    pub a: usize,
    pub b: usize,
    pub bias: usize,
    pub a_scales: usize,
    pub b_scales: usize,
    pub output: usize,
    pub stream: usize,
    pub alpha: F32Bits,
    pub output_scale: F32Bits,
    pub weight_version: Option<WeightVersion>,
}

/// A checked request.
#[derive(Debug)]
pub struct Normalized {
    pub api: PlanApi,
    pub spec: GemmSpec,
    pub policy: GemmPolicy,
    pub bindings: GemmBindings,
    /// Every range the execution reads or writes, to be kept alive with it.
    pub storage: Vec<CudaBuffer>,
    pub validation_reference: Option<ValidationReference>,
}

pub const GEMM_RANK_TEXT: &'static str = "GEMM A, B and output must be two-dimensional";

pub const GEMM_EMPTY_TEXT: &'static str = "GEMM extents must be non-zero";

pub const GEMM_GEGLU_WIDTH_TEXT: &'static str = "GEMM GeGLU needs an even number of B columns";

pub const GEMM_INPUT_TEXT: &'static str = "GEMM operand dtype does not fit its quantization";

pub const GEMM_OUTPUT_TEXT: &'static str = "GEMM output dtype is not supported";

pub const GEMM_SCALES_TEXT: &'static str = "scaled GEMM requires row and channel scales";

pub const GEMM_NO_SCALES_TEXT: &'static str = "unscaled GEMM takes no row or channel scales";

pub const GEMM_BIAS_TEXT: &'static str = "GEMM bias does not belong to this semantic";

pub const GEMM_A_OVERLAP_TEXT: &'static str = "GEMM output overlaps read-only A storage";

pub const GEMM_B_OVERLAP_TEXT: &'static str = "GEMM output overlaps read-only B storage";

pub const GEMM_A_SCALES_OVERLAP_TEXT: &'static str =
    "GEMM output overlaps read-only A scale storage";

pub const GEMM_B_SCALES_OVERLAP_TEXT: &'static str =
    "GEMM output overlaps read-only B scale storage";

pub const GEMM_BIAS_OVERLAP_TEXT: &'static str = "GEMM output overlaps read-only bias storage";

/// Largest power of two, up to 256, that divides an address.
pub open spec fn alignment(ptr: usize) -> u32 {
    if ptr % 256 == 0 {
        256
    } else if ptr % 128 == 0 {
        128
    } else if ptr % 64 == 0 {
        64
    } else if ptr % 32 == 0 {
        32
    } else if ptr % 16 == 0 {
        16
    } else if ptr % 8 == 0 {
        8
    } else if ptr % 4 == 0 {
        4
    } else if ptr % 2 == 0 {
        2
    } else {
        1
    }
}

/// Largest power of two, up to 256, that divides an address.
pub fn alignment_of(ptr: usize) -> (bytes: u32)
    ensures
        bytes == alignment(ptr),
{
    if ptr % 256 == 0 {
        256
    } else if ptr % 128 == 0 {
        128
    } else if ptr % 64 == 0 {
        64
    } else if ptr % 32 == 0 {
        32
    } else if ptr % 16 == 0 {
        16
    } else if ptr % 8 == 0 {
        8
    } else if ptr % 4 == 0 {
        4
    } else if ptr % 2 == 0 {
        2
    } else {
        1
    }
}

/// Alignment of an optional operand, zero where there is none.
pub open spec fn optional_alignment(tensor: Option<&Tensor>) -> u32 {
    match tensor {
        Some(t) => alignment(crate::ops::binding::bound_range(t).ptr),
        None => 0,
    }
}

/// Columns of the output: GeGLU pairs each column with one of the other half.
pub open spec fn output_columns(semantic: Semantic, n: usize) -> usize {
    if semantic == Semantic::GemmGeglu {
        n / 2
    } else {
        n
    }
}

/// The semantic adds a bias.
pub open spec fn takes_bias(semantic: Semantic) -> bool {
    semantic == Semantic::GemmBias || semantic == Semantic::GemmBiasGelu
}

/// Refusals of the shapes, types and optional operands, before any storage is
/// looked at.
pub open spec fn request_rejection(
    args: &GemmArgs<'_>,
    semantic: Semantic,
    bias: Option<&Tensor>,
) -> Option<Error> {
    if args.a.extents().len() != 2 || args.b.extents().len() != 2 || args.out.extents().len() != 2 {
        Some(Error::Other(GEMM_RANK_TEXT))
    } else if args.a.extents()[0] == 0 || args.a.extents()[1] == 0 || args.b.extents()[1] == 0 {
        Some(Error::Other(GEMM_EMPTY_TEXT))
    } else if semantic == Semantic::GemmGeglu && args.b.extents()[1] % 2 != 0 {
        Some(Error::Other(GEMM_GEGLU_WIDTH_TEXT))
    } else if !args.quantization.admits(args.a.dtype) {
        Some(Error::Other(GEMM_INPUT_TEXT))
    } else if !output_type(args.out.dtype) {
        Some(Error::Other(GEMM_OUTPUT_TEXT))
    } else if args.quantization.scaled() && (args.a_scales is None || args.b_scales is None) {
        Some(Error::Other(GEMM_SCALES_TEXT))
    } else if !args.quantization.scaled() && (args.a_scales is Some || args.b_scales is Some) {
        Some(Error::Other(GEMM_NO_SCALES_TEXT))
    } else if takes_bias(semantic) != (bias is Some) {
        Some(Error::Other(GEMM_BIAS_TEXT))
    } else {
        None
    }
}

/// Refusals of the individual operands.
pub open spec fn operands_rejection(
    device: usize,
    args: &GemmArgs<'_>,
    semantic: Semantic,
    bias: Option<&Tensor>,
) -> Option<Error> {
    let m = args.a.extents()[0];
    let k = args.a.extents()[1];
    let n = args.b.extents()[1];
    crate::ops::binding::first(
        crate::ops::binding::operand_rejection(device, args.a, args.a.dtype, seq![m, k]),
        crate::ops::binding::first(
            crate::ops::binding::operand_rejection(device, args.b, args.a.dtype, seq![k, n]),
            crate::ops::binding::first(
                crate::ops::binding::operand_rejection(
                    device,
                    args.out,
                    args.out.dtype,
                    seq![m, output_columns(semantic, n)],
                ),
                crate::ops::binding::first(
                    crate::ops::binding::optional_rejection(device, args.a_scales, DType::F32, seq![m]),
                    crate::ops::binding::first(
                        crate::ops::binding::optional_rejection(device, args.b_scales, DType::F32, seq![n]),
                        crate::ops::binding::optional_rejection(
                            device,
                            bias,
                            args.quantization.bias_type(args.a.dtype, args.out.dtype),
                            seq![n],
                        ),
                    ),
                ),
            ),
        ),
    )
}

/// The output shares an address with an operand that is only read.
pub open spec fn clobbers(out: &Tensor, operand: &Tensor) -> bool {
    crate::ops::binding::bound_range(out).overlaps(crate::ops::binding::bound_range(operand))
}

pub open spec fn clobbers_optional(out: &Tensor, operand: Option<&Tensor>) -> bool {
    match operand {
        Some(t) => clobbers(out, t),
        None => false,
    }
}

/// Refusals of an output that overlaps an operand.
pub open spec fn overlap_rejection(args: &GemmArgs<'_>, bias: Option<&Tensor>) -> Option<Error> {
    if clobbers(args.out, args.a) {
        Some(Error::Other(GEMM_A_OVERLAP_TEXT))
    } else if clobbers(args.out, args.b) {
        Some(Error::Other(GEMM_B_OVERLAP_TEXT))
    } else if clobbers_optional(args.out, args.a_scales) {
        Some(Error::Other(GEMM_A_SCALES_OVERLAP_TEXT))
    } else if clobbers_optional(args.out, args.b_scales) {
        Some(Error::Other(GEMM_B_SCALES_OVERLAP_TEXT))
    } else if clobbers_optional(args.out, bias) {
        Some(Error::Other(GEMM_BIAS_OVERLAP_TEXT))
    } else {
        None
    }
}

/// Why a GEMM request is refused, if it is.
pub open spec fn gemm_rejection(
    device: usize,
    args: &GemmArgs<'_>,
    semantic: Semantic,
    bias: Option<&Tensor>,
) -> Option<Error> {
    crate::ops::binding::first(
        request_rejection(args, semantic, bias),
        crate::ops::binding::first(operands_rejection(device, args, semantic, bias), overlap_rejection(args, bias)),
    )
}

/// The problem that a request poses to the tuner.
pub open spec fn gemm_spec(args: &GemmArgs<'_>, bias: Option<&Tensor>) -> GemmSpec {
    GemmSpec {
        version: SPEC_VERSION,
        a_dtype: args.a.dtype.code(),
        b_dtype: args.b.dtype.code(),
        accumulation_dtype: args.quantization.accumulator().code(),
        output_dtype: args.out.dtype.code(),
        quantization: args.quantization.code(),
        a_alignment: alignment(crate::ops::binding::bound_range(args.a).ptr),
        b_alignment: alignment(crate::ops::binding::bound_range(args.b).ptr),
        bias_alignment: optional_alignment(bias),
        a_scales_alignment: optional_alignment(args.a_scales),
        b_scales_alignment: optional_alignment(args.b_scales),
        output_alignment: alignment(crate::ops::binding::bound_range(args.out).ptr),
        m: args.a.extents()[0] as i64,
        n: args.b.extents()[1] as i64,
        k: args.a.extents()[1] as i64,
        unit_alpha: args.alpha.bits == F32_ONE_BITS,
        unit_output_scale: args.output_scale.bits == F32_ONE_BITS,
    }
}

/// What an execution of a request works on.
pub open spec fn gemm_bindings(
    ctx: &CudaContext,
    args: &GemmArgs<'_>,
    bias: Option<&Tensor>,
) -> GemmBindings {
    GemmBindings {
        a: crate::ops::binding::bound_range(args.a).ptr,
        b: crate::ops::binding::bound_range(args.b).ptr,
        bias: crate::ops::binding::optional_ptr(bias),
        a_scales: crate::ops::binding::optional_ptr(args.a_scales),
        b_scales: crate::ops::binding::optional_ptr(args.b_scales),
        output: crate::ops::binding::bound_range(args.out).ptr,
        stream: ctx.stream.handle,
        alpha: args.alpha,
        output_scale: args.output_scale,
        weight_version: args.weight_version,
    }
}

/// The range of an operand, where there is one.
pub open spec fn optional_range(tensor: Option<&Tensor>) -> Seq<BufferView> {
    match tensor {
        Some(t) => seq![crate::ops::binding::bound_range(t)],
        None => Seq::empty(),
    }
}

/// Every range of device memory that a request names.
pub open spec fn gemm_ranges(args: &GemmArgs<'_>, bias: Option<&Tensor>) -> Seq<BufferView> {
    seq![crate::ops::binding::bound_range(args.a), crate::ops::binding::bound_range(args.b), crate::ops::binding::bound_range(args.out)] + optional_range(
        args.a_scales,
    ) + optional_range(args.b_scales) + optional_range(bias)
}

/// The ranges of a list of buffers.
pub open spec fn ranges(buffers: Seq<CudaBuffer>) -> Seq<BufferView> {
    buffers.map_values(|b: CudaBuffer| b.range())
}

/// `normalized` is what becomes of an accepted request.
pub open spec fn describes(
    normalized: &Normalized,
    ctx: &CudaContext,
    args: &GemmArgs<'_>,
    api: PlanApi,
    bias: Option<&Tensor>,
) -> bool {
    &&& normalized.api == api
    &&& normalized.spec == gemm_spec(args, bias)
    &&& normalized.policy == args.policy
    &&& normalized.bindings == gemm_bindings(ctx, args, bias)
    &&& ranges(normalized.storage@) == gemm_ranges(args, bias)
    &&& normalized.validation_reference == args.validation_reference
}

fn check_request(args: &GemmArgs<'_>, semantic: Semantic, bias: Option<&Tensor>) -> (r: Result<
    (),
    Error,
>)
    ensures
        match r {
            Ok(()) => request_rejection(args, semantic, bias) is None,
            Err(e) => request_rejection(args, semantic, bias) == Some(e),
        },
{
    let a: &Vec<usize> = args.a.shape.dims();
    let b: &Vec<usize> = args.b.shape.dims();
    if a.len() != 2 || b.len() != 2 || args.out.shape.dims().len() != 2 {
        return Err(Error::Other(GEMM_RANK_TEXT));
    }
    if a[0] == 0 || a[1] == 0 || b[1] == 0 {
        return Err(Error::Other(GEMM_EMPTY_TEXT));
    }
    if semantic == Semantic::GemmGeglu && b[1] % 2 != 0 {
        return Err(Error::Other(GEMM_GEGLU_WIDTH_TEXT));
    }
    let admitted: bool = match args.quantization {
        GemmQuantization::Unquantized => args.a.dtype == DType::F32 || args.a.dtype.is_half(),
        GemmQuantization::Fp8UnitScale | GemmQuantization::Fp8 => args.a.dtype == DType::F8E4M3,
        GemmQuantization::W8A8 => args.a.dtype == DType::I8,
    };
    if !admitted {
        return Err(Error::Other(GEMM_INPUT_TEXT));
    }
    let out: DType = args.out.dtype;
    if !(out == DType::F32 || out.is_half() || out == DType::F8E4M3) {
        return Err(Error::Other(GEMM_OUTPUT_TEXT));
    }
    let scaled: bool = args.quantization == GemmQuantization::Fp8 || args.quantization
        == GemmQuantization::W8A8;
    if scaled && (args.a_scales.is_none() || args.b_scales.is_none()) {
        return Err(Error::Other(GEMM_SCALES_TEXT));
    }
    if !scaled && (args.a_scales.is_some() || args.b_scales.is_some()) {
        return Err(Error::Other(GEMM_NO_SCALES_TEXT));
    }
    let biased: bool = semantic == Semantic::GemmBias || semantic == Semantic::GemmBiasGelu;
    if biased != bias.is_some() {
        return Err(Error::Other(GEMM_BIAS_TEXT));
    }
    Ok(())
}

fn overlaps_optional(out: &CudaBuffer, operand: &Option<CudaBuffer>) -> (r: bool)
    ensures
        r == (match *operand {
            Some(b) => out.range().overlaps(b.range()),
            None => false,
        }),
{
    match operand {
        Some(b) => out.overlaps(b),
        None => false,
    }
}

fn address_and_alignment(operand: &Option<CudaBuffer>) -> (r: (usize, u32))
    ensures
        r == (match *operand {
            Some(b) => (b.range().ptr, alignment(b.range().ptr)),
            None => (0usize, 0u32),
        }),
{
    match operand {
        Some(b) => {
            let ptr: usize = b.ptr();
            (ptr, alignment_of(ptr))
        },
        None => (0, 0),
    }
}

fn push_optional(list: &mut Vec<CudaBuffer>, operand: Option<CudaBuffer>)
    ensures
        final(list)@ == (match operand {
            Some(b) => old(list)@.push(b),
            None => old(list)@,
        }),
{
    match operand {
        Some(b) => {
            list.push(b);
        },
        None => {},
    }
}

/// Checks a request and describes its problem, its bindings and the storage
/// its execution has to keep alive.
pub fn normalize<'a>(
    ctx: &CudaContext,
    args: GemmArgs<'a>,
    semantic: Semantic,
    api: PlanApi,
    bias: Option<&'a Tensor>,
) -> (normalized: Result<Normalized, Error>)
    ensures
        match normalized {
            Ok(n) => gemm_rejection(ctx.device_id, &args, semantic, bias) is None && describes(
                &n,
                ctx,
                &args,
                api,
                bias,
            ),
            Err(e) => gemm_rejection(ctx.device_id, &args, semantic, bias) == Some(e),
        },
        normalized matches Ok(n) ==> {
            &&& args.a.packed_at(ctx.device_id, n.bindings.a, args.a.dtype, seq![n.spec.m, n.spec.k])
            &&& args.b.packed_at(ctx.device_id, n.bindings.b, args.a.dtype, seq![n.spec.k, n.spec.n])
            &&& args.out.starts_at(ctx.device_id, n.bindings.output)
            &&& args.out.holds(ctx.device_id, args.out.dtype, args.out.extents())
            &&& args.out.extents()[0] == args.a.extents()[0]
            &&& semantic is GemmGeglu ==> args.b.extents()[1] == 2 * args.out.extents()[1]
            &&& !(semantic is GemmGeglu) ==> args.b.extents()[1] == args.out.extents()[1]
            &&& args.a_scales matches Some(t) ==> t.packed_at(ctx.device_id, n.bindings.a_scales, DType::F32, seq![n.spec.m])
            &&& args.a_scales is None ==> n.bindings.a_scales == 0
            &&& args.b_scales matches Some(t) ==> t.packed_at(ctx.device_id, n.bindings.b_scales, DType::F32, seq![n.spec.n])
            &&& args.b_scales is None ==> n.bindings.b_scales == 0
            &&& bias matches Some(t) ==> t.starts_at(ctx.device_id, n.bindings.bias) && t.extents() == seq![args.b.extents()[1]]
            &&& bias matches Some(t) ==> t.dtype == (if args.quantization is Unquantized { args.a.dtype } else { args.out.dtype })
            &&& bias is None ==> n.bindings.bias == 0
            &&& n.bindings.alpha == args.alpha
            &&& n.bindings.output_scale == args.output_scale
            &&& n.bindings.weight_version == args.weight_version
            &&& n.bindings.stream == ctx.stream.handle
            &&& n.spec.a_dtype == args.a.dtype.code()
            &&& n.spec.b_dtype == args.b.dtype.code()
            &&& n.spec.output_dtype == args.out.dtype.code()
            &&& n.spec.accumulation_dtype == (if args.quantization is W8A8 { DType::I32 } else { DType::F32 }).code()
            &&& args.quantization is Unquantized <==> n.spec.quantization == 0
            &&& args.quantization is Fp8UnitScale <==> n.spec.quantization == 1
            &&& args.quantization is Fp8 <==> n.spec.quantization == 2
            &&& args.quantization is W8A8 <==> n.spec.quantization == 3
            &&& n.spec.a_alignment == crate::ops::gemm::contracts::alignment(n.bindings.a)
            &&& n.spec.b_alignment == crate::ops::gemm::contracts::alignment(n.bindings.b)
            &&& n.spec.output_alignment == crate::ops::gemm::contracts::alignment(n.bindings.output)
            &&& args.a_scales is Some ==> n.spec.a_scales_alignment == crate::ops::gemm::contracts::alignment(n.bindings.a_scales)
            &&& args.b_scales is Some ==> n.spec.b_scales_alignment == crate::ops::gemm::contracts::alignment(n.bindings.b_scales)
            &&& bias is Some ==> n.spec.bias_alignment == crate::ops::gemm::contracts::alignment(n.bindings.bias)
            &&& n.spec.unit_alpha <==> args.alpha.bits == 0x3f80_0000
            &&& n.spec.unit_output_scale <==> args.output_scale.bits == 0x3f80_0000
            &&& n.storage@.len() >= 3
            &&& args.a.cuda_range() == Some(n.storage@[0].range())
            &&& args.b.cuda_range() == Some(n.storage@[1].range())
            &&& args.out.cuda_range() == Some(n.storage@[2].range())
            &&& args.a_scales matches Some(t) ==> exists|i: int| 0 <= i < n.storage@.len() && t.cuda_range() == Some((#[trigger] n.storage@[i]).range())
            &&& args.b_scales matches Some(t) ==> exists|i: int| 0 <= i < n.storage@.len() && t.cuda_range() == Some((#[trigger] n.storage@[i]).range())
            &&& bias matches Some(t) ==> exists|i: int| 0 <= i < n.storage@.len() && t.cuda_range() == Some((#[trigger] n.storage@[i]).range())
            &&& n.api == api
            &&& n.policy == args.policy
            &&& n.validation_reference == args.validation_reference
        },
{
    check_request(&args, semantic, bias)?;
    let m: usize = args.a.shape.dims()[0];
    let k: usize = args.a.shape.dims()[1];
    let n: usize = args.b.shape.dims()[1];
    let columns: usize = if semantic == Semantic::GemmGeglu {
        n / 2
    } else {
        n
    };
    let a: CudaBuffer = tensor_storage(ctx, args.a, args.a.dtype, &dims_2(m, k))?;
    let b: CudaBuffer = tensor_storage(ctx, args.b, args.a.dtype, &dims_2(k, n))?;
    let out: CudaBuffer = tensor_storage(ctx, args.out, args.out.dtype, &dims_2(m, columns))?;
    let a_scales: Option<CudaBuffer> = optional_storage(
        ctx,
        args.a_scales,
        DType::F32,
        &dims_1(m),
    )?;
    let b_scales: Option<CudaBuffer> = optional_storage(
        ctx,
        args.b_scales,
        DType::F32,
        &dims_1(n),
    )?;
    let bias_type: DType = if args.quantization == GemmQuantization::Unquantized {
        args.a.dtype
    } else {
        args.out.dtype
    };
    let bias_storage: Option<CudaBuffer> = optional_storage(ctx, bias, bias_type, &dims_1(n))?;
    if out.overlaps(&a) {
        return Err(Error::Other(GEMM_A_OVERLAP_TEXT));
    }
    if out.overlaps(&b) {
        return Err(Error::Other(GEMM_B_OVERLAP_TEXT));
    }
    if overlaps_optional(&out, &a_scales) {
        return Err(Error::Other(GEMM_A_SCALES_OVERLAP_TEXT));
    }
    if overlaps_optional(&out, &b_scales) {
        return Err(Error::Other(GEMM_B_SCALES_OVERLAP_TEXT));
    }
    if overlaps_optional(&out, &bias_storage) {
        return Err(Error::Other(GEMM_BIAS_OVERLAP_TEXT));
    }
    let (a_scales_ptr, a_scales_alignment): (usize, u32) = address_and_alignment(&a_scales);
    let (b_scales_ptr, b_scales_alignment): (usize, u32) = address_and_alignment(&b_scales);
    let (bias_ptr, bias_alignment): (usize, u32) = address_and_alignment(&bias_storage);
    let accumulator: DType = if args.quantization == GemmQuantization::W8A8 {
        DType::I32
    } else {
        DType::F32
    };
    let quantization: u32 = match args.quantization {
        GemmQuantization::Unquantized => 0,
        GemmQuantization::Fp8UnitScale => 1,
        GemmQuantization::Fp8 => 2,
        GemmQuantization::W8A8 => 3,
    };
    let a_ptr: usize = a.ptr();
    let b_ptr: usize = b.ptr();
    let out_ptr: usize = out.ptr();
    let mut storage: Vec<CudaBuffer> = Vec::new();
    storage.push(a);
    storage.push(b);
    storage.push(out);
    push_optional(&mut storage, a_scales);
    push_optional(&mut storage, b_scales);
    push_optional(&mut storage, bias_storage);
    assert(ranges(storage@) =~= gemm_ranges(&args, bias));
    let normalized: Normalized = Normalized {
        api,
        spec: GemmSpec {
            version: SPEC_VERSION,
            a_dtype: args.a.dtype.abi_code(),
            b_dtype: args.b.dtype.abi_code(),
            accumulation_dtype: accumulator.abi_code(),
            output_dtype: args.out.dtype.abi_code(),
            quantization,
            a_alignment: alignment_of(a_ptr),
            b_alignment: alignment_of(b_ptr),
            bias_alignment,
            a_scales_alignment,
            b_scales_alignment,
            output_alignment: alignment_of(out_ptr),
            m: m as i64,
            n: n as i64,
            k: k as i64,
            unit_alpha: args.alpha.bits == F32_ONE_BITS,
            unit_output_scale: args.output_scale.bits == F32_ONE_BITS,
        },
        policy: args.policy,
        bindings: GemmBindings {
            a: a_ptr,
            b: b_ptr,
            bias: bias_ptr,
            a_scales: a_scales_ptr,
            b_scales: b_scales_ptr,
            output: out_ptr,
            stream: ctx.stream.handle,
            alpha: args.alpha,
            output_scale: args.output_scale,
            weight_version: args.weight_version,
        },
        storage,
        validation_reference: args.validation_reference,
    };
    proof {
        law_requests_bind_each_operand_to_its_role(
            ctx,
            &args,
            semantic,
            api,
            bias,
            &normalized,
        );
    }
    Ok(normalized)
}

/// An accepted request is described as it was made: each operand in its own
/// role and of the extents of the problem, each scale and flag as it was
/// given, and every range that it names kept.
pub proof fn law_requests_bind_each_operand_to_its_role(
    ctx: &CudaContext,
    args: &GemmArgs<'_>,
    semantic: Semantic,
    api: PlanApi,
    bias: Option<&Tensor>,
    n: &Normalized,
)
    requires
        gemm_rejection(ctx.device_id, args, semantic, bias) is None,
        describes(n, ctx, args, api, bias),
    ensures
        ({
            &&& args.a.packed_at(ctx.device_id, n.bindings.a, args.a.dtype, seq![n.spec.m, n.spec.k])
            &&& args.b.packed_at(ctx.device_id, n.bindings.b, args.a.dtype, seq![n.spec.k, n.spec.n])
            &&& args.out.starts_at(ctx.device_id, n.bindings.output)
            &&& args.out.holds(ctx.device_id, args.out.dtype, args.out.extents())
            &&& args.out.extents()[0] == args.a.extents()[0]
            &&& semantic is GemmGeglu ==> args.b.extents()[1] == 2 * args.out.extents()[1]
            &&& !(semantic is GemmGeglu) ==> args.b.extents()[1] == args.out.extents()[1]
            &&& args.a_scales matches Some(t) ==> t.packed_at(ctx.device_id, n.bindings.a_scales, DType::F32, seq![n.spec.m])
            &&& args.a_scales is None ==> n.bindings.a_scales == 0
            &&& args.b_scales matches Some(t) ==> t.packed_at(ctx.device_id, n.bindings.b_scales, DType::F32, seq![n.spec.n])
            &&& args.b_scales is None ==> n.bindings.b_scales == 0
            &&& bias matches Some(t) ==> t.starts_at(ctx.device_id, n.bindings.bias) && t.extents() == seq![args.b.extents()[1]]
            &&& bias matches Some(t) ==> t.dtype == (if args.quantization is Unquantized { args.a.dtype } else { args.out.dtype })
            &&& bias is None ==> n.bindings.bias == 0
            &&& n.bindings.alpha == args.alpha
            &&& n.bindings.output_scale == args.output_scale
            &&& n.bindings.weight_version == args.weight_version
            &&& n.bindings.stream == ctx.stream.handle
            &&& n.spec.a_dtype == args.a.dtype.code()
            &&& n.spec.b_dtype == args.b.dtype.code()
            &&& n.spec.output_dtype == args.out.dtype.code()
            &&& n.spec.accumulation_dtype == (if args.quantization is W8A8 { DType::I32 } else { DType::F32 }).code()
            &&& args.quantization is Unquantized <==> n.spec.quantization == 0
            &&& args.quantization is Fp8UnitScale <==> n.spec.quantization == 1
            &&& args.quantization is Fp8 <==> n.spec.quantization == 2
            &&& args.quantization is W8A8 <==> n.spec.quantization == 3
            &&& n.spec.a_alignment == crate::ops::gemm::contracts::alignment(n.bindings.a)
            &&& n.spec.b_alignment == crate::ops::gemm::contracts::alignment(n.bindings.b)
            &&& n.spec.output_alignment == crate::ops::gemm::contracts::alignment(n.bindings.output)
            &&& args.a_scales is Some ==> n.spec.a_scales_alignment == crate::ops::gemm::contracts::alignment(n.bindings.a_scales)
            &&& args.b_scales is Some ==> n.spec.b_scales_alignment == crate::ops::gemm::contracts::alignment(n.bindings.b_scales)
            &&& bias is Some ==> n.spec.bias_alignment == crate::ops::gemm::contracts::alignment(n.bindings.bias)
            &&& n.spec.unit_alpha <==> args.alpha.bits == 0x3f80_0000
            &&& n.spec.unit_output_scale <==> args.output_scale.bits == 0x3f80_0000
            &&& n.storage@.len() >= 3
            &&& args.a.cuda_range() == Some(n.storage@[0].range())
            &&& args.b.cuda_range() == Some(n.storage@[1].range())
            &&& args.out.cuda_range() == Some(n.storage@[2].range())
            &&& args.a_scales matches Some(t) ==> exists|i: int| 0 <= i < n.storage@.len() && t.cuda_range() == Some((#[trigger] n.storage@[i]).range())
            &&& args.b_scales matches Some(t) ==> exists|i: int| 0 <= i < n.storage@.len() && t.cuda_range() == Some((#[trigger] n.storage@[i]).range())
            &&& bias matches Some(t) ==> exists|i: int| 0 <= i < n.storage@.len() && t.cuda_range() == Some((#[trigger] n.storage@[i]).range())
            &&& n.api == api
            &&& n.policy == args.policy
            &&& n.validation_reference == args.validation_reference
        }),
{
    let kept = ranges(n.storage@);
    assert(kept.len() == n.storage@.len());
    assert forall|i: int| 0 <= i < kept.len() implies kept[i] == (#[trigger] n.storage@[i]).range() by {}
    let row = optional_range(args.a_scales);
    let channel = optional_range(args.b_scales);
    if args.a_scales is Some {
        assert(kept[3] == crate::ops::binding::bound_range(args.a_scales.unwrap()));
        assert(n.storage@[3].range() == kept[3]);
    }
    if args.b_scales is Some {
        let i = 3 + row.len();
        assert(kept[i as int] == crate::ops::binding::bound_range(args.b_scales.unwrap()));
        assert(n.storage@[i as int].range() == kept[i as int]);
    }
    if bias is Some {
        let i = 3 + row.len() + channel.len();
        assert(kept[i as int] == crate::ops::binding::bound_range(bias.unwrap()));
        assert(n.storage@[i as int].range() == kept[i as int]);
    }
    assert(n.storage@[0].range() == kept[0] && n.storage@[1].range() == kept[1] && n.storage@[2].range() == kept[2]);
}

/// A request is accepted exactly when it is a product of non-empty matrices
/// whose types fit the encoding, with the scales that the encoding and the
/// bias that the semantic calls for, and the output shares no memory with what
/// is read.
pub proof fn law_requests_are_accepted_exactly_when_they_pose_a_product(
    device: usize,
    args: &GemmArgs<'_>,
    semantic: Semantic,
    bias: Option<&Tensor>,
)
    ensures
        gemm_rejection(device, args, semantic, bias) is None <==> {
            &&& args.a.extents().len() == 2 && args.b.extents().len() == 2 && args.out.extents().len() == 2
            &&& args.a.extents()[0] > 0 && args.a.extents()[1] > 0 && args.b.extents()[1] > 0
            &&& (semantic is GemmGeglu ==> args.b.extents()[1] % 2 == 0)
            &&& (args.quantization is Unquantized ==> args.a.dtype is F32 || args.a.dtype is F16 || args.a.dtype is BF16)
            &&& (args.quantization is Fp8UnitScale || args.quantization is Fp8 ==> args.a.dtype is F8E4M3)
            &&& (args.quantization is W8A8 ==> args.a.dtype is I8)
            &&& args.out.dtype is F32 || args.out.dtype is F16 || args.out.dtype is BF16 || args.out.dtype is F8E4M3
            &&& (args.a_scales is Some <==> args.quantization is Fp8 || args.quantization is W8A8)
            &&& (args.b_scales is Some <==> args.quantization is Fp8 || args.quantization is W8A8)
            &&& (bias is Some <==> semantic is GemmBias || semantic is GemmBiasGelu)
            &&& args.a.holds(device, args.a.dtype, args.a.extents())
            &&& args.b.holds(device, args.a.dtype, seq![args.a.extents()[1], args.b.extents()[1]])
            &&& args.out.holds(device, args.out.dtype, seq![args.a.extents()[0], (if semantic is GemmGeglu { args.b.extents()[1] / 2 } else { args.b.extents()[1] })])
            &&& (args.a_scales matches Some(t) ==> t.holds(device, DType::F32, seq![args.a.extents()[0]]))
            &&& (args.b_scales matches Some(t) ==> t.holds(device, DType::F32, seq![args.b.extents()[1]]))
            &&& (bias matches Some(t) ==> t.holds(device, (if args.quantization is Unquantized { args.a.dtype } else { args.out.dtype }), seq![args.b.extents()[1]]))
            &&& !args.out.cuda_range().unwrap().overlaps(args.a.cuda_range().unwrap())
            &&& !args.out.cuda_range().unwrap().overlaps(args.b.cuda_range().unwrap())
            &&& (args.a_scales matches Some(t) ==> !args.out.cuda_range().unwrap().overlaps(t.cuda_range().unwrap()))
            &&& (args.b_scales matches Some(t) ==> !args.out.cuda_range().unwrap().overlaps(t.cuda_range().unwrap()))
            &&& (bias matches Some(t) ==> !args.out.cuda_range().unwrap().overlaps(t.cuda_range().unwrap()))
        },
{
    let a = args.a.extents();
    assert(a.len() == 2 ==> a =~= seq![a[0], a[1]]);
}

} // verus!
