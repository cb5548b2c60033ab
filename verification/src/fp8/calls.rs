//! Native calls of static FP8 products.
use vstd::prelude::*;

use crate::buffer::CudaBuffer;
use crate::context::CudaContext;
use crate::error::Error;
use crate::scalar::F32Bits;
use crate::tensor::Tensor;

verus! {

/// A static per-tensor FP8 weight.
#[derive(Clone, Copy, Debug)]
pub struct Fp8WeightView<'a> {
    pub values_e4m3: &'a Tensor,
    pub scale: F32Bits,
    /// The values lie in the interleaved layout of the dual GeGLU backend,
    /// which alone may read them.
    pub dual_geglu_interleaved: bool,
    /// An interleaved copy of plain values, for the dual GeGLU backend.
    pub dual_geglu_auto_interleaved: Option<&'a Tensor>,
}

/// The factor on a product: that of the activation times that of the weight.
#[derive(Clone, Copy, Debug, PartialEq, Eq, Structural)]
pub struct Alpha {
    pub activation: F32Bits,
    pub weight: F32Bits,
}

/// The configuration that a custom tactic stands for.
#[derive(Clone, Copy, Debug, PartialEq, Eq, Structural)]
pub struct CustomConfig {
    pub tile_id: i32,
    pub custom_option: i32,
    pub stages_id: i32,
    pub cluster_shape_id: i32,
}

/// The call that fixes the heuristic rank for a shape.
#[derive(Clone, Copy, Debug, PartialEq, Eq, Structural)]
pub struct HeuristicCall {
    pub m: i32,
    pub n: i32,
    pub k: i32,
    pub rank: i32,
}

/// Which product a custom configuration is for.
#[derive(Clone, Copy, Debug, PartialEq, Eq, Structural)]
pub enum CustomKind {
    Plain,
    FusedBias,
    SplitSerial,
}

/// The call that fixes a custom configuration for a shape.
#[derive(Clone, Copy, Debug, PartialEq, Eq, Structural)]
pub struct CustomCall {
    pub kind: CustomKind,
    pub m: i32,
    pub n: i32,
    pub k: i32,
    pub config: CustomConfig,
}

pub const CUSTOM_TACTIC_NAME: &'static str = "custom tactic";

pub const BIAS_TACTIC_NAME: &'static str = "fused-bias custom tactic";

pub const SPLIT_TACTIC_NAME: &'static str = "split-serial custom tactic";

/// Ranks that the matrix library hands out for a shape.
pub const HEURISTIC_RANKS: i32 = 64;

/// Fixes the heuristic rank for a shape; refused where there is no such rank.
pub fn set_cublaslt_gemm_heuristic(m: usize, n: usize, k: usize, heuristic_rank: i32) -> (call:
    Result<HeuristicCall, Error>)
    ensures
        match call {
            Ok(c) => 0 <= heuristic_rank < HEURISTIC_RANKS && c == (HeuristicCall {
                m: m as i32,
                n: n as i32,
                k: k as i32,
                rank: heuristic_rank,
            }),
            Err(e) => !(0 <= heuristic_rank < HEURISTIC_RANKS) && e == (Error::HeuristicRank {
                rank: heuristic_rank,
            }),
        },
        call is Ok <==> 0 <= heuristic_rank < 64,
        call matches Ok(c) ==> c.m == m as i32 && c.n == n as i32 && c.k == k as i32 && c.rank == heuristic_rank,
{
    if heuristic_rank < 0 || heuristic_rank >= HEURISTIC_RANKS {
        return Err(Error::HeuristicRank { rank: heuristic_rank });
    }
    Ok(HeuristicCall { m: m as i32, n: n as i32, k: k as i32, rank: heuristic_rank })
}

/// `call` fixes what a tactic was decoded to; a number that stands for no
/// configuration is refused.
pub open spec fn fixes(
    kind: CustomKind,
    what: &'static str,
    m: usize,
    n: usize,
    k: usize,
    tactic: i32,
    decoded: Option<CustomConfig>,
    call: Result<CustomCall, Error>,
) -> bool {
    match decoded {
        Some(config) => call == Ok::<CustomCall, Error>(
            CustomCall { kind, m: m as i32, n: n as i32, k: k as i32, config },
        ),
        None => call == Err::<CustomCall, Error>(Error::CustomTactic { what, tactic }),
    }
}

fn fix(
    kind: CustomKind,
    what: &'static str,
    m: usize,
    n: usize,
    k: usize,
    tactic: i32,
    decoded: Option<CustomConfig>,
) -> (call: Result<CustomCall, Error>)
    ensures
        fixes(kind, what, m, n, k, tactic, decoded, call),
{
    match decoded {
        Some(config) => Ok(CustomCall { kind, m: m as i32, n: n as i32, k: k as i32, config }),
        None => Err(Error::CustomTactic { what, tactic }),
    }
}

/// Fixes the configuration that `tactic` was decoded to for a shape.
pub fn set_cublaslt_gemm_custom(
    m: usize,
    n: usize,
    k: usize,
    tactic: i32,
    decoded: Option<CustomConfig>,
) -> (call: Result<CustomCall, Error>)
    ensures
        fixes(CustomKind::Plain, CUSTOM_TACTIC_NAME, m, n, k, tactic, decoded, call),
{
    fix(CustomKind::Plain, CUSTOM_TACTIC_NAME, m, n, k, tactic, decoded)
}

/// Fixes the configuration that `tactic` was decoded to for a shape with a
/// fused bias.
pub fn set_cublaslt_gemm_bias_custom(
    m: usize,
    n: usize,
    k: usize,
    tactic: i32,
    decoded: Option<CustomConfig>,
) -> (call: Result<CustomCall, Error>)
    ensures
        fixes(CustomKind::FusedBias, BIAS_TACTIC_NAME, m, n, k, tactic, decoded, call),
{
    fix(CustomKind::FusedBias, BIAS_TACTIC_NAME, m, n, k, tactic, decoded)
}

/// Fixes the configuration that `tactic` was decoded to for a shape computed
/// in two halves.
pub fn set_cublaslt_gemm_split_custom(
    m: usize,
    n: usize,
    k: usize,
    tactic: i32,
    decoded: Option<CustomConfig>,
) -> (call: Result<CustomCall, Error>)
    ensures
        fixes(CustomKind::SplitSerial, SPLIT_TACTIC_NAME, m, n, k, tactic, decoded, call),
{
    fix(CustomKind::SplitSerial, SPLIT_TACTIC_NAME, m, n, k, tactic, decoded)
}

/// The call that decodes E4M3 values to FP16.
#[derive(Clone, Copy, Debug, PartialEq, Eq, Structural)]
pub struct DequantizeCall {
    pub input: usize,
    pub output: usize,
    pub elements: i64,
    pub scale: F32Bits,
    pub stream: usize,
}

/// Decodes E4M3 values to FP16.
pub fn dequantize_e4m3_f16(
    ctx: &CudaContext,
    input: &CudaBuffer,
    output: &CudaBuffer,
    elements: usize,
    scale: F32Bits,
) -> (call: DequantizeCall)
    ensures
        call == (DequantizeCall {
            input: input.range().ptr,
            output: output.range().ptr,
            elements: elements as i64,
            scale,
            stream: ctx.stream.handle,
        }),
        call.input == input.range().ptr,
        call.output == output.range().ptr,
{
    DequantizeCall {
        input: input.ptr(),
        output: output.ptr(),
        elements: elements as i64,
        scale,
        stream: ctx.stream.handle,
    }
}

/// The call that makes a plan for a shape.
#[derive(Clone, Copy, Debug, PartialEq, Eq, Structural)]
pub struct PrepareCall {
    /// The product is computed in two halves.
    pub split: bool,
    pub m: i32,
    pub n: i32,
    pub k: i32,
}

/// The call that makes a plan for a shape.
pub open spec fn prepare_call(split: bool, m: usize, n: usize, k: usize) -> PrepareCall {
    PrepareCall { split, m: m as i32, n: n as i32, k: k as i32 }
}

/// Makes a plan for a shape.
pub fn prepare_cublaslt_fp8_gemm(m: usize, n: usize, k: usize) -> (call: PrepareCall)
    ensures
        call == prepare_call(false, m, n, k),
        call.split == false,
        call.m == m as i32,
        call.n == n as i32,
        call.k == k as i32,
{
    PrepareCall { split: false, m: m as i32, n: n as i32, k: k as i32 }
}

/// Makes a plan for a shape computed in two halves.
pub fn prepare_cublaslt_fp8_gemm_split(m: usize, n: usize, k: usize) -> (call: PrepareCall)
    ensures
        call == prepare_call(true, m, n, k),
        call.split == true,
        call.m == m as i32,
        call.n == n as i32,
        call.k == k as i32,
{
    PrepareCall { split: true, m: m as i32, n: n as i32, k: k as i32 }
}

/// How the matrix library computes a product.
#[derive(Clone, Copy, Debug, PartialEq, Eq, Structural)]
pub enum Fp8GemmKind {
    Whole,
    /// One half of the columns after the other.
    Split,
    /// Only the first half of the columns.
    SplitFirst,
}

/// The call that computes a product.
#[derive(Clone, Copy, Debug, PartialEq, Eq, Structural)]
pub struct Fp8GemmCall {
    pub kind: Fp8GemmKind,
    pub activation: usize,
    pub weight: usize,
    pub output: usize,
    pub m: i32,
    pub n: i32,
    pub k: i32,
    pub alpha: Alpha,
    pub stream: usize,
}

/// The call that computes a product of operands at these addresses.
pub open spec fn gemm_call(
    kind: Fp8GemmKind,
    ctx: &CudaContext,
    activation: usize,
    weight: usize,
    output: usize,
    m: usize,
    n: usize,
    k: usize,
    alpha: Alpha,
) -> Fp8GemmCall {
    Fp8GemmCall {
        kind,
        activation,
        weight,
        output,
        m: m as i32,
        n: n as i32,
        k: k as i32,
        alpha,
        stream: ctx.stream.handle,
    }
}

fn product_call(
    kind: Fp8GemmKind,
    ctx: &CudaContext,
    activation: &CudaBuffer,
    weight: &CudaBuffer,
    output: &CudaBuffer,
    m: usize,
    n: usize,
    k: usize,
    alpha: Alpha,
) -> (call: Fp8GemmCall)
    ensures
        call == gemm_call(
            kind,
            ctx,
            activation.range().ptr,
            weight.range().ptr,
            output.range().ptr,
            m,
            n,
            k,
            alpha,
        ),
        call.activation == activation.range().ptr,
        call.weight == weight.range().ptr,
        call.output == output.range().ptr,
        call.m == m as i32,
        call.n == n as i32,
        call.k == k as i32,
        call.alpha == alpha,
        call.stream == ctx.stream.handle,
{
    Fp8GemmCall {
        kind,
        activation: activation.ptr(),
        weight: weight.ptr(),
        output: output.ptr(),
        m: m as i32,
        n: n as i32,
        k: k as i32,
        alpha,
        stream: ctx.stream.handle,
    }
}

/// Computes a product whole.
pub fn cublaslt_fp8_gemm_f16(
    ctx: &CudaContext,
    activation: &CudaBuffer,
    weight: &CudaBuffer,
    output: &CudaBuffer,
    m: usize,
    n: usize,
    k: usize,
    alpha: Alpha,
) -> (call: Fp8GemmCall)
    ensures
        call == gemm_call(
            Fp8GemmKind::Whole,
            ctx,
            activation.range().ptr,
            weight.range().ptr,
            output.range().ptr,
            m,
            n,
            k,
            alpha,
        ),
        call.activation == activation.range().ptr,
        call.weight == weight.range().ptr,
        call.output == output.range().ptr,
        call.m == m as i32,
        call.n == n as i32,
        call.k == k as i32,
        call.alpha == alpha,
        call.stream == ctx.stream.handle,
{
    product_call(Fp8GemmKind::Whole, ctx, activation, weight, output, m, n, k, alpha)
}

/// Computes a product in two halves.
pub fn cublaslt_fp8_gemm_split_f16(
    ctx: &CudaContext,
    activation: &CudaBuffer,
    weight: &CudaBuffer,
    output: &CudaBuffer,
    m: usize,
    n: usize,
    k: usize,
    alpha: Alpha,
) -> (call: Fp8GemmCall)
    ensures
        call == gemm_call(
            Fp8GemmKind::Split,
            ctx,
            activation.range().ptr,
            weight.range().ptr,
            output.range().ptr,
            m,
            n,
            k,
            alpha,
        ),
        call.activation == activation.range().ptr,
        call.weight == weight.range().ptr,
        call.output == output.range().ptr,
        call.m == m as i32,
        call.n == n as i32,
        call.k == k as i32,
        call.alpha == alpha,
        call.stream == ctx.stream.handle,
{
    product_call(Fp8GemmKind::Split, ctx, activation, weight, output, m, n, k, alpha)
}

/// Computes the first half of a product's columns.
pub fn cublaslt_fp8_gemm_split_first_f16(
    ctx: &CudaContext,
    activation: &CudaBuffer,
    weight: &CudaBuffer,
    output: &CudaBuffer,
    m: usize,
    n: usize,
    k: usize,
    alpha: Alpha,
) -> (call: Fp8GemmCall)
    ensures
        call == gemm_call(
            Fp8GemmKind::SplitFirst,
            ctx,
            activation.range().ptr,
            weight.range().ptr,
            output.range().ptr,
            m,
            n,
            k,
            alpha,
        ),
        call.activation == activation.range().ptr,
        call.weight == weight.range().ptr,
        call.output == output.range().ptr,
        call.m == m as i32,
        call.n == n as i32,
        call.k == k as i32,
        call.alpha == alpha,
        call.stream == ctx.stream.handle,
{
    product_call(Fp8GemmKind::SplitFirst, ctx, activation, weight, output, m, n, k, alpha)
}

/// The call that computes a product with a CUTLASS tactic.
#[derive(Clone, Copy, Debug, PartialEq, Eq, Structural)]
pub struct CutlassCall {
    pub activation: usize,
    pub weight: usize,
    pub output: usize,
    pub m: i32,
    pub n: i32,
    pub k: i32,
    pub alpha: Alpha,
    pub tactic: i32,
    pub stream: usize,
}

/// Computes a product with a CUTLASS tactic.
pub fn cutlass_fp8_gemm_f16(
    ctx: &CudaContext,
    activation: &CudaBuffer,
    weight: &CudaBuffer,
    output: &CudaBuffer,
    m: usize,
    n: usize,
    k: usize,
    alpha: Alpha,
    tactic: i32,
) -> (call: CutlassCall)
    ensures
        call == (CutlassCall {
            activation: activation.range().ptr,
            weight: weight.range().ptr,
            output: output.range().ptr,
            m: m as i32,
            n: n as i32,
            k: k as i32,
            alpha,
            tactic,
            stream: ctx.stream.handle,
        }),
        call.activation == activation.range().ptr,
        call.weight == weight.range().ptr,
        call.output == output.range().ptr,
        call.m == m as i32,
        call.n == n as i32,
        call.k == k as i32,
        call.alpha == alpha,
        call.stream == ctx.stream.handle,
{
    CutlassCall {
        activation: activation.ptr(),
        weight: weight.ptr(),
        output: output.ptr(),
        m: m as i32,
        n: n as i32,
        k: k as i32,
        alpha,
        tactic,
        stream: ctx.stream.handle,
    }
}

/// Whether a CUTLASS kernel took the problem, by its status.
pub fn cutlass_accepted(status: i32) -> (accepted: bool)
    ensures
        accepted == (status == 0),
{
    status == 0
}

/// The question whether a device runs E4M3 products on its tensor cores.
#[derive(Clone, Copy, Debug, PartialEq, Eq, Structural)]
pub struct Fp8SupportQuery {
    pub device: i32,
}

impl Fp8SupportQuery {
    /// The answer: anything but zero is a yes.
    pub fn answered(self, reported: Result<i32, Error>) -> (supported: Result<bool, Error>)
        ensures
            supported == (match reported {
                Ok(answer) => Ok::<bool, Error>(answer != 0),
                Err(e) => Err(e),
            }),
    {
        match reported {
            Ok(answer) => Ok(answer != 0),
            Err(e) => Err(e),
        }
    }
}

/// Asks whether a device runs E4M3 products on its tensor cores.
pub fn native_fp8_gemm_supported_for_device(device: usize) -> (query: Fp8SupportQuery)
    ensures
        query == (Fp8SupportQuery { device: device as i32 }),
{
    Fp8SupportQuery { device: device as i32 }
}

/// Asks whether the device of a context runs E4M3 products on its tensor cores.
pub fn native_fp8_gemm_supported(ctx: &CudaContext) -> (query: Fp8SupportQuery)
    ensures
        query == (Fp8SupportQuery { device: ctx.device_id as i32 }),
{
    native_fp8_gemm_supported_for_device(ctx.device_id())
}

/// The matrix library is handed a product as it was posed, with each operand
/// in its own role and each extent in its own place, and a plan is made for
/// exactly that product.
pub proof fn law_library_calls_are_the_product_that_was_posed(
    kind: Fp8GemmKind,
    ctx: &CudaContext,
    activation: usize,
    weight: usize,
    output: usize,
    m: usize,
    n: usize,
    k: usize,
    alpha: Alpha,
    split: bool,
)
    ensures
        ({
            let call = gemm_call(kind, ctx, activation, weight, output, m, n, k, alpha);
            let plan = prepare_call(split, m, n, k);
            &&& call.kind == kind
            &&& call.activation == activation
            &&& call.weight == weight
            &&& call.output == output
            &&& call.m == m as i32
            &&& call.n == n as i32
            &&& call.k == k as i32
            &&& call.alpha == alpha
            &&& call.stream == ctx.stream.handle
            &&& (plan.m, plan.n, plan.k) == (call.m, call.n, call.k)
            &&& plan.split == split
        }),
{
}

/// A custom configuration is fixed exactly where the tactic stands for one, as
/// it was decoded, for the shape and the kind of product it was asked for.
pub proof fn law_custom_configurations_are_fixed_as_decoded(
    kind: CustomKind,
    what: &'static str,
    m: usize,
    n: usize,
    k: usize,
    tactic: i32,
    decoded: Option<CustomConfig>,
    call: Result<CustomCall, Error>,
)
    requires
        fixes(kind, what, m, n, k, tactic, decoded, call),
    ensures
        call is Ok <==> decoded is Some,
        call matches Ok(c) ==> {
            &&& Some(c.config) == decoded
            &&& c.kind == kind
            &&& c.m == m as i32
            &&& c.n == n as i32
            &&& c.k == k as i32
        },
        call matches Err(e) ==> e == (Error::CustomTactic { what, tactic }),
{
}

} // verus!
