//! The static FP8 product with FP16 output.
use vstd::prelude::*;

use crate::buffer::{BufferView, CudaBuffer};
use crate::context::{CudaContext, OutputTensor};
use crate::dtype::{DType, Device};
use crate::error::{Error, ErrorView};
use crate::fp8::calls::{
    cublaslt_fp8_gemm_f16, cublaslt_fp8_gemm_split_f16, cutlass_fp8_gemm_f16,
    dequantize_e4m3_f16, prepare_cublaslt_fp8_gemm, prepare_cublaslt_fp8_gemm_split, Alpha,
    CutlassCall, DequantizeCall, Fp8GemmCall, Fp8WeightView, PrepareCall,
};
#[allow(unused_imports)]
use crate::fp8::calls::Fp8GemmKind;
use crate::fp8::tuning::{
    exact_fp8_tactic, selected_cutlass_tactic, TacticBackend, TacticId, TuningRegistry,
};
#[allow(unused_imports)]
use crate::fp8::tuning::GemmRecord;
use crate::ops::binding::dims_2;
use crate::scalar::F32Bits;
use crate::shape::{copy_dims, Shape};
use crate::tensor::Tensor;
use crate::workspace::ThreadState;
#[allow(unused_imports)]
use crate::workspace::ThreadView;

verus! {

pub const INTERLEAVED_TEXT: &'static str =
    "FP8 dual GeGLU interleaved Gate/Up weight cannot be used by plain FP8 GEMM";

pub const GEMM_FP8_NAME: &'static str = "gemm_fp8";

pub const ACTIVATION_DECODE_TEXT: &'static str = "FP8 activation decode size overflow";

pub const WEIGHT_DECODE_TEXT: &'static str = "FP8 weight decode size overflow";

/// Both tensors hold E4M3 values.
pub open spec fn both_e4m3(a: &Tensor, b: &Tensor) -> bool {
    a.dtype == DType::F8E4M3 && b.dtype == DType::F8E4M3
}

/// Two matrices that can be multiplied.
pub open spec fn multipliable(a: Seq<usize>, b: Seq<usize>) -> bool {
    a.len() == 2 && b.len() == 2 && a[1] == b[0]
}

/// Refusal of operands on another device: the activation's before the weight's.
pub open spec fn device_rejection(device: usize, activation: &Tensor, weight: &Tensor) -> Option<
    ErrorView,
> {
    let expected_device = Device::Cuda(device);
    if activation.placed_on() != expected_device {
        Some(
            ErrorView::Plain(
                Error::DeviceMismatch { expected_device, got_device: activation.placed_on() },
            ),
        )
    } else if weight.placed_on() != expected_device {
        Some(
            ErrorView::Plain(
                Error::DeviceMismatch { expected_device, got_device: weight.placed_on() },
            ),
        )
    } else {
        None
    }
}

/// Why a static FP8 product is refused, if it is.
pub open spec fn fp8_rejection(
    device: usize,
    activation: &Tensor,
    activation_scale: F32Bits,
    weight: Fp8WeightView<'_>,
) -> Option<ErrorView> {
    let values = weight.values_e4m3;
    if weight.dual_geglu_interleaved {
        Some(ErrorView::Plain(Error::Other(INTERLEAVED_TEXT)))
    } else if !both_e4m3(activation, values) {
        Some(
            ErrorView::Plain(
                Error::Fp8Operands {
                    what: GEMM_FP8_NAME,
                    left: activation.dtype,
                    right: values.dtype,
                },
            ),
        )
    } else if !activation_scale.usable() || !weight.scale.usable() {
        Some(
            ErrorView::Plain(
                Error::Fp8Scales {
                    what: GEMM_FP8_NAME,
                    activation_scale,
                    weight_scale: weight.scale,
                    output_scale: None,
                },
            ),
        )
    } else if !multipliable(activation.extents(), values.extents()) {
        Some(
            ErrorView::Fp8Shapes {
                what: GEMM_FP8_NAME,
                a: activation.extents(),
                b: values.extents(),
            },
        )
    } else {
        device_rejection(device, activation, values)
    }
}

/// A checked product.
#[derive(Clone, Debug)]
pub struct Fp8Problem {
    pub activation: CudaBuffer,
    pub weight: CudaBuffer,
    pub m: usize,
    pub n: usize,
    pub k: usize,
    pub alpha: Alpha,
}

/// A checked product that waits for its output storage.
#[derive(Debug)]
pub struct Fp8Step {
    pub problem: Fp8Problem,
    pub output: OutputTensor,
}

/// `problem` is the product of these operands.
pub open spec fn poses(
    problem: &Fp8Problem,
    activation: &Tensor,
    activation_scale: F32Bits,
    weight: Fp8WeightView<'_>,
) -> bool {
    &&& activation.cuda_range() == Some(problem.activation.range())
    &&& weight.values_e4m3.cuda_range() == Some(problem.weight.range())
    &&& problem.m == activation.extents()[0]
    &&& problem.k == activation.extents()[1]
    &&& problem.n == weight.values_e4m3.extents()[1]
    &&& problem.alpha == (Alpha { activation: activation_scale, weight: weight.scale })
}

/// Refuses operands on another device.
pub fn check_device(ctx: &CudaContext, activation: &Tensor, weight: &Tensor) -> (r: Result<(), Error>)
    ensures
        match r {
            Ok(()) => device_rejection(ctx.device_id, activation, weight) is None,
            Err(e) => device_rejection(ctx.device_id, activation, weight) == Some(e@),
        },
{
    let expected_device: Device = Device::Cuda(ctx.device_id);
    let first: Device = activation.device();
    if first != expected_device {
        return Err(Error::DeviceMismatch { expected_device, got_device: first });
    }
    let second: Device = weight.device();
    if second != expected_device {
        return Err(Error::DeviceMismatch { expected_device, got_device: second });
    }
    Ok(())
}

/// The memory behind a tensor that is known to be on a CUDA device.
pub fn cuda_storage(ctx: &CudaContext, tensor: &Tensor) -> (buffer: CudaBuffer)
    requires
        tensor.placed_on() == Device::Cuda(ctx.device_id),
    ensures
        tensor.cuda_range() == Some(buffer.range()),
        buffer.range().device == ctx.device_id,
{
    match CudaBuffer::from_tensor(tensor) {
        Ok(buffer) => buffer,
        Err(_) => {
            assert(false);
            CudaBuffer::from_raw_parts(0, 0, ctx.device_id, None)
        },
    }
}

/// Refuses what is not a static FP8 product.
///
/// A product that is accepted may still have an output too large to address;
/// such a product must not be started.
pub fn check_gemm_fp8(
    ctx: &CudaContext,
    activation: &Tensor,
    activation_scale: F32Bits,
    weight: Fp8WeightView<'_>,
) -> (r: Result<(), Error>)
    ensures
        match r {
            Ok(()) => fp8_rejection(ctx.device_id, activation, activation_scale, weight) is None,
            Err(e) => fp8_rejection(ctx.device_id, activation, activation_scale, weight) == Some(
                e@,
            ),
        },
{
    let values: &Tensor = weight.values_e4m3;
    if weight.dual_geglu_interleaved {
        return Err(Error::Other(INTERLEAVED_TEXT));
    }
    if activation.dtype != DType::F8E4M3 || values.dtype != DType::F8E4M3 {
        return Err(
            Error::Fp8Operands {
                what: GEMM_FP8_NAME,
                left: activation.dtype,
                right: values.dtype,
            },
        );
    }
    if !activation_scale.is_finite_positive() || !weight.scale.is_finite_positive() {
        return Err(
            Error::Fp8Scales {
                what: GEMM_FP8_NAME,
                activation_scale,
                weight_scale: weight.scale,
                output_scale: None,
            },
        );
    }
    let a: &Vec<usize> = activation.shape.dims();
    let b: &Vec<usize> = values.shape.dims();
    if a.len() != 2 || b.len() != 2 || a[1] != b[0] {
        return Err(
            Error::Fp8Shapes {
                what: GEMM_FP8_NAME,
                a_dims: copy_dims(a),
                b_dims: copy_dims(b),
            },
        );
    }
    check_device(ctx, activation, values)
}

/// Starts a static FP8 product: checks it and asks for its output.
pub fn gemm_fp8(
    thread: &mut ThreadState,
    ctx: &CudaContext,
    activation: &Tensor,
    activation_scale: F32Bits,
    weight: Fp8WeightView<'_>,
) -> (step: Result<Fp8Step, Error>)
    requires
        fp8_rejection(ctx.device_id, activation, activation_scale, weight) is None ==> (
        activation.extents()[0] * weight.values_e4m3.extents()[1]) * 2 <= usize::MAX,
    ensures
        match fp8_rejection(ctx.device_id, activation, activation_scale, weight) {
            Some(refusal) => step is Err && step->Err_0@ == refusal && final(thread)@ == old(
                thread,
            )@,
            None => exists|shape: Shape, output: Result<OutputTensor, Error>|
                {
                    &&& shape@ == seq![
                        activation.extents()[0],
                        weight.values_e4m3.extents()[1],
                    ]
                    &&& #[trigger] crate::context::output_outcome(
                        old(thread)@,
                        final(thread)@,
                        ctx.device_id,
                        shape,
                        DType::F16,
                        output,
                    )
                    &&& match output {
                        Err(e) => step == Err::<Fp8Step, Error>(e),
                        Ok(o) => {
                            &&& step is Ok
                            &&& step->Ok_0.output == o
                            &&& poses(&step->Ok_0.problem, activation, activation_scale, weight)
                        },
                    }
                },
        },
        step matches Ok(s) ==> {
            &&& activation.starts_at(ctx.device_id, s.problem.activation.range().ptr)
            &&& weight.values_e4m3.starts_at(ctx.device_id, s.problem.weight.range().ptr)
            &&& activation.extents() == seq![s.problem.m, s.problem.k]
            &&& weight.values_e4m3.extents() == seq![s.problem.k, s.problem.n]
            &&& s.problem.alpha.activation == activation_scale
            &&& s.problem.alpha.weight == weight.scale
            &&& s.output.provides(ctx.device_id, DType::F16, seq![s.problem.m, s.problem.n])
        },
{
    check_gemm_fp8(ctx, activation, activation_scale, weight)?;
    let values: &Tensor = weight.values_e4m3;
    let a: &Vec<usize> = activation.shape.dims();
    let b: &Vec<usize> = values.shape.dims();
    let shape: Shape = Shape::new(dims_2(a[0], b[1]));
    let ghost extents = shape;
    let output: Result<OutputTensor, Error> = ctx.allocate_output(thread, shape, DType::F16);
    assert(crate::context::output_outcome(old(thread)@, thread@, ctx.device_id, extents, DType::F16, output));
    match output {
        Err(e) => Err(e),
        Ok(output) => Ok(
            Fp8Step {
                problem: Fp8Problem {
                    activation: cuda_storage(ctx, activation),
                    weight: cuda_storage(ctx, values),
                    m: a[0],
                    n: b[1],
                    k: a[1],
                    alpha: Alpha { activation: activation_scale, weight: weight.scale },
                },
                output,
            },
        ),
    }
}

/// A product by way of FP16: both operands are decoded, and the copies are
/// multiplied without further scaling.
#[derive(Clone, Copy, Debug, PartialEq, Eq, Structural)]
pub struct EmulationPlan {
    pub activation_bytes: usize,
    pub weight_bytes: usize,
    pub activation_elements: usize,
    pub weight_elements: usize,
    pub m: usize,
    pub n: usize,
    pub k: usize,
}

/// A product of two FP16 matrices, the factor one and nothing added.
#[derive(Clone, Copy, Debug, PartialEq, Eq, Structural)]
pub struct HalfGemmCall {
    pub a: usize,
    pub b: usize,
    pub output: usize,
    pub m: usize,
    pub n: usize,
    pub k: usize,
}

/// The calls of an emulated product, in order.
#[derive(Clone, Copy, Debug, PartialEq, Eq, Structural)]
pub struct EmulatedCalls {
    pub decode_activation: DequantizeCall,
    pub decode_weight: DequantizeCall,
    pub product: HalfGemmCall,
}

/// A product by the matrix library, with the plan to make first where native
/// resources may be created.
#[derive(Clone, Copy, Debug, PartialEq, Eq, Structural)]
pub struct LibraryPlan {
    pub prepare: Option<PrepareCall>,
    pub call: Fp8GemmCall,
}

/// How a product is computed.
#[derive(Clone, Copy, Debug, PartialEq, Eq, Structural)]
pub enum Fp8Route {
    Emulated(EmulationPlan),
    /// A CUTLASS kernel, and the matrix library where the kernel turns the
    /// problem down.
    Cutlass { call: CutlassCall, otherwise: LibraryPlan },
    Library(LibraryPlan),
}

/// The tactic computes the product in two halves.
pub open spec fn splits(tactic: Option<TacticId>) -> bool {
    match tactic {
        Some(t) => match t.backend {
            TacticBackend::CublasLtCustomSplitSerial
            | TacticBackend::CublasLtCustomSplitGeGluCutlass
            | TacticBackend::CublasLtCustomSplitGeGluCutlass2SmAuto
            | TacticBackend::CublasLtCustomSplitGeGluCutlass2SmStage3
            | TacticBackend::CublasLtCustomSplitGeGluCutlassM522Explicit2Sm => true,
            _ => false,
        },
        None => false,
    }
}

/// The tactic is one of the matrix library.
pub open spec fn by_library(tactic: Option<TacticId>) -> bool {
    splits(tactic) || match tactic {
        Some(t) => match t.backend {
            TacticBackend::CublasLt | TacticBackend::CublasLtCustom
            | TacticBackend::CublasLtCustomBias => true,
            _ => false,
        },
        None => false,
    }
}

/// A CUTLASS kernel is tried for this shape.
pub open spec fn suits_cutlass(n: usize, k: usize) -> bool {
    n >= 1024 && n % 16 == 0 && k % 16 == 0
}

/// The product by the matrix library.
pub open spec fn library_plan(
    ctx: &CudaContext,
    may_create: bool,
    p: &Fp8Problem,
    output: BufferView,
    exact: Option<TacticId>,
) -> LibraryPlan {
    LibraryPlan {
        prepare: if may_create {
            Some(crate::fp8::calls::prepare_call(splits(exact), p.m, p.n, p.k))
        } else {
            None
        },
        call: crate::fp8::calls::gemm_call(
            if splits(exact) {
                Fp8GemmKind::Split
            } else {
                Fp8GemmKind::Whole
            },
            ctx,
            p.activation.range().ptr,
            p.weight.range().ptr,
            output.ptr,
            p.m,
            p.n,
            p.k,
            p.alpha,
        ),
    }
}

/// How a product is computed: by emulation where the device needs it, else by
/// what the installed record says, else by CUTLASS where it is there and the
/// shape suits it, else by the matrix library.
pub open spec fn fp8_route(
    ctx: &CudaContext,
    may_create: bool,
    registry: Option<Seq<GemmRecord>>,
    p: &Fp8Problem,
    output: BufferView,
    emulated: Result<bool, Error>,
    near: Option<TacticId>,
    cutlass: bool,
) -> Result<Fp8Route, Error> {
    let exact = crate::fp8::tuning::installed_tactic(registry, crate::fp8::tuning::fp8_key(ctx, p.m, p.n, p.k));
    match emulated {
        Err(e) => Err(e),
        Ok(true) => if (p.m * p.k) * 2 > usize::MAX {
            Err(Error::Other(ACTIVATION_DECODE_TEXT))
        } else if (p.k * p.n) * 2 > usize::MAX {
            Err(Error::Other(WEIGHT_DECODE_TEXT))
        } else {
            Ok(
                Fp8Route::Emulated(
                    EmulationPlan {
                        activation_bytes: ((p.m * p.k) * 2) as usize,
                        weight_bytes: ((p.k * p.n) * 2) as usize,
                        activation_elements: (p.m * p.k) as usize,
                        weight_elements: (p.k * p.n) as usize,
                        m: p.m,
                        n: p.n,
                        k: p.k,
                    },
                ),
            )
        },
        Ok(false) => {
            let plan = library_plan(ctx, may_create, p, output, exact);
            if cutlass && suits_cutlass(p.n, p.k) && !by_library(exact) {
                Ok(
                    Fp8Route::Cutlass {
                        call: CutlassCall {
                            activation: p.activation.range().ptr,
                            weight: p.weight.range().ptr,
                            output: output.ptr,
                            m: p.m as i32,
                            n: p.n as i32,
                            k: p.k as i32,
                            alpha: p.alpha,
                            tactic: crate::fp8::tuning::cutlass_choice(exact, near, p.m),
                            stream: ctx.stream.handle,
                        },
                        otherwise: plan,
                    },
                )
            } else {
                Ok(Fp8Route::Library(plan))
            }
        },
    }
}

fn is_split(tactic: Option<TacticId>) -> (r: bool)
    ensures
        r == splits(tactic),
{
    match tactic {
        Some(t) => match t.backend {
            TacticBackend::CublasLtCustomSplitSerial
            | TacticBackend::CublasLtCustomSplitGeGluCutlass
            | TacticBackend::CublasLtCustomSplitGeGluCutlass2SmAuto
            | TacticBackend::CublasLtCustomSplitGeGluCutlass2SmStage3
            | TacticBackend::CublasLtCustomSplitGeGluCutlassM522Explicit2Sm => true,
            _ => false,
        },
        None => false,
    }
}

fn is_by_library(tactic: Option<TacticId>) -> (r: bool)
    ensures
        r == by_library(tactic),
{
    if is_split(tactic) {
        return true;
    }
    match tactic {
        Some(t) => match t.backend {
            TacticBackend::CublasLt | TacticBackend::CublasLtCustom
            | TacticBackend::CublasLtCustomBias => true,
            _ => false,
        },
        None => false,
    }
}

/// Bytes of FP16 copies of `a * b` elements, and the elements.
fn decoded_bytes(a: usize, b: usize) -> (r: Option<(usize, usize)>)
    ensures
        match r {
            Some((bytes, elements)) => elements == a * b && bytes == (a * b) * 2,
            None => (a * b) * 2 > usize::MAX,
        },
{
    match a.checked_mul(b) {
        Some(elements) => match elements.checked_mul(2) {
            Some(bytes) => Some((bytes, elements)),
            None => None,
        },
        None => None,
    }
}

impl Fp8Problem {
    /// Decides how the product is computed once its output is there.
    ///
    /// `emulated` says whether the device needs E4M3 emulated, `near` is the
    /// record nearest to the problem, and `cutlass` whether CUTLASS kernels
    /// were built.
    pub fn route(
        &self,
        thread: &ThreadState,
        ctx: &CudaContext,
        registry: &TuningRegistry,
        output: &CudaBuffer,
        emulated: Result<bool, Error>,
        near: Option<TacticId>,
        cutlass: bool,
    ) -> (route: Result<Fp8Route, Error>)
        ensures
            route == fp8_route(
                ctx,
                thread@.may_create(),
                registry@,
                self,
                output.range(),
                emulated,
                near,
                cutlass,
            ),
            match route {
                Ok(Fp8Route::Library(plan)) => {
                    &&& plan.call.activation == self.activation.range().ptr
                    &&& plan.call.weight == self.weight.range().ptr
                    &&& plan.call.output == output.range().ptr
                    &&& plan.call.m == self.m as i32
                    &&& plan.call.n == self.n as i32
                    &&& plan.call.k == self.k as i32
                    &&& plan.call.alpha == self.alpha
                    &&& plan.prepare matches Some(made) ==> (made.m, made.n, made.k) == (plan.call.m, plan.call.n, plan.call.k)
                },
                Ok(Fp8Route::Cutlass { call, otherwise: plan }) => {
                    &&& call.activation == self.activation.range().ptr
                    &&& call.weight == self.weight.range().ptr
                    &&& call.output == output.range().ptr
                    &&& call.m == self.m as i32
                    &&& call.n == self.n as i32
                    &&& call.k == self.k as i32
                    &&& call.alpha == self.alpha
                    &&& (plan.call.m, plan.call.n, plan.call.k) == (call.m, call.n, call.k)
                    &&& (plan.call.activation, plan.call.weight, plan.call.output) == (call.activation, call.weight, call.output)
                    &&& plan.call.alpha == self.alpha
                    &&& plan.prepare matches Some(made) ==> (made.m, made.n, made.k) == (plan.call.m, plan.call.n, plan.call.k)
                },
                Ok(Fp8Route::Emulated(plan)) => plan.m == self.m && plan.n == self.n && plan.k == self.k,
                Err(_) => true,
            },
    {
        let (m, n, k): (usize, usize, usize) = (self.m, self.n, self.k);
        let needed: bool = emulated?;
        if needed {
            let (activation_bytes, activation_elements): (usize, usize) = match decoded_bytes(m, k) {
                Some(sizes) => sizes,
                None => {
                    return Err(Error::Other(ACTIVATION_DECODE_TEXT));
                },
            };
            let (weight_bytes, weight_elements): (usize, usize) = match decoded_bytes(k, n) {
                Some(sizes) => sizes,
                None => {
                    return Err(Error::Other(WEIGHT_DECODE_TEXT));
                },
            };
            return Ok(
                Fp8Route::Emulated(
                    EmulationPlan {
                        activation_bytes,
                        weight_bytes,
                        activation_elements,
                        weight_elements,
                        m,
                        n,
                        k,
                    },
                ),
            );
        }
        let exact: Option<TacticId> = exact_fp8_tactic(registry, ctx, m, n, k);
        let split: bool = is_split(exact);
        let prepare: Option<PrepareCall> = if thread.may_prepare_native_resources() {
            if split {
                Some(prepare_cublaslt_fp8_gemm_split(m, n, k))
            } else {
                Some(prepare_cublaslt_fp8_gemm(m, n, k))
            }
        } else {
            None
        };
        let call: Fp8GemmCall = if split {
            cublaslt_fp8_gemm_split_f16(
                ctx,
                &self.activation,
                &self.weight,
                output,
                m,
                n,
                k,
                self.alpha,
            )
        } else {
            cublaslt_fp8_gemm_f16(
                ctx,
                &self.activation,
                &self.weight,
                output,
                m,
                n,
                k,
                self.alpha,
            )
        };
        let plan: LibraryPlan = LibraryPlan { prepare, call };
        if cutlass && n >= 1024 && n % 16 == 0 && k % 16 == 0 && !is_by_library(exact) {
            let tactic: i32 = selected_cutlass_tactic(exact, near, m);
            let call: CutlassCall = cutlass_fp8_gemm_f16(
                ctx,
                &self.activation,
                &self.weight,
                output,
                m,
                n,
                k,
                self.alpha,
                tactic,
            );
            return Ok(Fp8Route::Cutlass { call, otherwise: plan });
        }
        Ok(Fp8Route::Library(plan))
    }

    /// The calls of an emulated product into `output`, by way of room for the
    /// decoded operands.
    pub open spec fn emulated(
        self,
        ctx: &CudaContext,
        plan: EmulationPlan,
        activation_f16: BufferView,
        weight_f16: BufferView,
        output: BufferView,
    ) -> EmulatedCalls {
        EmulatedCalls {
            decode_activation: DequantizeCall {
                input: self.activation.range().ptr,
                output: activation_f16.ptr,
                elements: plan.activation_elements as i64,
                scale: self.alpha.activation,
                stream: ctx.stream.handle,
            },
            decode_weight: DequantizeCall {
                input: self.weight.range().ptr,
                output: weight_f16.ptr,
                elements: plan.weight_elements as i64,
                scale: self.alpha.weight,
                stream: ctx.stream.handle,
            },
            product: HalfGemmCall {
                a: activation_f16.ptr,
                b: weight_f16.ptr,
                output: output.ptr,
                m: plan.m,
                n: plan.n,
                k: plan.k,
            },
        }
    }

    /// The calls of an emulated product, once there is room for the decoded
    /// operands. The scales are applied while decoding.
    pub fn emulated_calls(
        &self,
        ctx: &CudaContext,
        plan: &EmulationPlan,
        activation_f16: &CudaBuffer,
        weight_f16: &CudaBuffer,
        output: &CudaBuffer,
    ) -> (calls: EmulatedCalls)
        ensures
            calls.decode_activation == (DequantizeCall {
                input: self.activation.range().ptr,
                output: activation_f16.range().ptr,
                elements: plan.activation_elements as i64,
                scale: self.alpha.activation,
                stream: ctx.stream.handle,
            }),
            calls.decode_weight == (DequantizeCall {
                input: self.weight.range().ptr,
                output: weight_f16.range().ptr,
                elements: plan.weight_elements as i64,
                scale: self.alpha.weight,
                stream: ctx.stream.handle,
            }),
            calls.product == (HalfGemmCall {
                a: activation_f16.range().ptr,
                b: weight_f16.range().ptr,
                output: output.range().ptr,
                m: plan.m,
                n: plan.n,
                k: plan.k,
            }),
            calls == self.emulated(ctx, *plan, activation_f16.range(), weight_f16.range(), output.range()),
            calls.product.output == output.range().ptr,
            (calls.product.m, calls.product.n, calls.product.k) == (plan.m, plan.n, plan.k),
            calls.product.a == calls.decode_activation.output,
            calls.product.b == calls.decode_weight.output,
            calls.decode_activation.input == self.activation.range().ptr,
            calls.decode_weight.input == self.weight.range().ptr,
            calls.decode_activation.scale == self.alpha.activation,
            calls.decode_weight.scale == self.alpha.weight,
    {
        EmulatedCalls {
            decode_activation: dequantize_e4m3_f16(
                ctx,
                &self.activation,
                activation_f16,
                plan.activation_elements,
                self.alpha.activation,
            ),
            decode_weight: dequantize_e4m3_f16(
                ctx,
                &self.weight,
                weight_f16,
                plan.weight_elements,
                self.alpha.weight,
            ),
            product: HalfGemmCall {
                a: activation_f16.ptr(),
                b: weight_f16.ptr(),
                output: output.ptr(),
                m: plan.m,
                n: plan.n,
                k: plan.k,
            },
        }
    }
}

/// An emulated product of an activation `[m, k]` and a weight `[k, n]` decodes
/// every value of each operand with that operand's scale, and multiplies the
/// decoded activation by the decoded weight.
pub proof fn law_emulation_multiplies_the_decoded_operands(
    ctx: &CudaContext,
    may_create: bool,
    registry: Option<Seq<GemmRecord>>,
    p: &Fp8Problem,
    activation_f16: BufferView,
    weight_f16: BufferView,
    output: BufferView,
    near: Option<TacticId>,
    cutlass: bool,
    activation: &Tensor,
    activation_scale: F32Bits,
    weight: Fp8WeightView<'_>,
)
    requires
        fp8_rejection(ctx.device_id, activation, activation_scale, weight) is None,
        poses(p, activation, activation_scale, weight),
    ensures
        fp8_route(ctx, may_create, registry, p, output, Ok(true), near, cutlass) matches Ok(route) ==> {
            let plan = route->Emulated_0;
            let calls = p.emulated(ctx, plan, activation_f16, weight_f16, output);
            &&& route is Emulated
            &&& activation.starts_at(ctx.device_id, calls.decode_activation.input)
            &&& weight.values_e4m3.starts_at(ctx.device_id, calls.decode_weight.input)
            &&& calls.decode_activation.scale == activation_scale
            &&& calls.decode_weight.scale == weight.scale
            &&& plan.activation_elements == calls.product.m * calls.product.k
            &&& plan.weight_elements == calls.product.k * calls.product.n
            &&& plan.activation_bytes == plan.activation_elements * DType::F16.size()
            &&& plan.weight_bytes == plan.weight_elements * DType::F16.size()
            &&& calls.decode_activation.output == activation_f16.ptr
            &&& calls.product.a == activation_f16.ptr
            &&& calls.decode_weight.output == weight_f16.ptr
            &&& calls.product.b == weight_f16.ptr
            &&& calls.product.output == output.ptr
            &&& activation.extents() == seq![calls.product.m, calls.product.k]
            &&& weight.values_e4m3.extents() == seq![calls.product.k, calls.product.n]
        },
{
    assert(activation.extents() =~= seq![p.m, p.k]);
    assert(weight.values_e4m3.extents() =~= seq![p.k, p.n]);
}

/// The plain product never reads a weight in the interleaved layout.
pub proof fn law_plain_product_refuses_interleaved_weights(
    device: usize,
    activation: &Tensor,
    activation_scale: F32Bits,
    weight: Fp8WeightView<'_>,
)
    requires
        weight.dual_geglu_interleaved,
    ensures
        fp8_rejection(device, activation, activation_scale, weight) == Some(
            ErrorView::Plain(Error::Other(INTERLEAVED_TEXT)),
        ),
{
}

/// A problem that an installed record assigns to the matrix library is never
/// tried with CUTLASS, and a record that splits it is followed.
pub proof fn law_library_records_are_followed(
    ctx: &CudaContext,
    may_create: bool,
    registry: Option<Seq<GemmRecord>>,
    p: &Fp8Problem,
    output: BufferView,
    near: Option<TacticId>,
    cutlass: bool,
)
    requires
        by_library(crate::fp8::tuning::installed_tactic(registry, crate::fp8::tuning::fp8_key(ctx, p.m, p.n, p.k))),
    ensures
        fp8_route(ctx, may_create, registry, p, output, Ok(false), near, cutlass) matches Ok(
            Fp8Route::Library(plan),
        ) && (plan.call.kind == Fp8GemmKind::Split) == splits(
            crate::fp8::tuning::installed_tactic(registry, crate::fp8::tuning::fp8_key(ctx, p.m, p.n, p.k)),
        ),
{
}

/// Nothing native is created for a product while a prepared traversal runs.
pub proof fn law_no_plan_is_made_during_a_traversal(
    ctx: &CudaContext,
    thread: ThreadView,
    registry: Option<Seq<GemmRecord>>,
    p: &Fp8Problem,
    output: BufferView,
    near: Option<TacticId>,
    cutlass: bool,
)
    requires
        thread.active is Some,
        !thread.preparing,
    ensures
        match fp8_route(
            ctx,
            thread.may_create(),
            registry,
            p,
            output,
            Ok(false),
            near,
            cutlass,
        ) {
            Ok(Fp8Route::Library(plan)) => plan.prepare is None,
            Ok(Fp8Route::Cutlass { otherwise, .. }) => otherwise.prepare is None,
            _ => false,
        },
{
}

/// A product of an activation `[m, k]` and a weight `[k, n]` is computed as
/// that, whichever way it goes: each operand in its own role, each scale with
/// its own operand, `m` the activation's rows, `n` the weight's columns, `k`
/// the extent they share, and a plan for exactly these extents.
pub proof fn law_every_route_computes_the_product_that_was_posed(
    ctx: &CudaContext,
    may_create: bool,
    registry: Option<Seq<GemmRecord>>,
    p: &Fp8Problem,
    output: BufferView,
    emulated: Result<bool, Error>,
    near: Option<TacticId>,
    cutlass: bool,
    activation: &Tensor,
    activation_scale: F32Bits,
    weight: Fp8WeightView<'_>,
)
    requires
        fp8_rejection(ctx.device_id, activation, activation_scale, weight) is None,
        poses(p, activation, activation_scale, weight),
    ensures
        match fp8_route(ctx, may_create, registry, p, output, emulated, near, cutlass) {
            Ok(Fp8Route::Library(library)) => {
                &&& activation.starts_at(ctx.device_id, library.call.activation)
                &&& weight.values_e4m3.starts_at(ctx.device_id, library.call.weight)
                &&& library.call.output == output.ptr
                &&& library.call.m == activation.extents()[0] as i32
                &&& library.call.n == weight.values_e4m3.extents()[1] as i32
                &&& library.call.k == activation.extents()[1] as i32
                &&& library.call.k == weight.values_e4m3.extents()[0] as i32
                &&& library.call.alpha.activation == activation_scale
                &&& library.call.alpha.weight == weight.scale
                &&& library.call.stream == ctx.stream.handle
                &&& library.prepare matches Some(plan) ==> (plan.m, plan.n, plan.k) == (library.call.m, library.call.n, library.call.k)
                    && plan.split == (library.call.kind == Fp8GemmKind::Split)
                &&& library.prepare is Some <==> may_create
                &&& library.call.kind != Fp8GemmKind::SplitFirst
            },
            Ok(Fp8Route::Cutlass { call, otherwise }) => {
                &&& activation.starts_at(ctx.device_id, call.activation)
                &&& weight.values_e4m3.starts_at(ctx.device_id, call.weight)
                &&& call.output == output.ptr
                &&& call.m == activation.extents()[0] as i32
                &&& call.n == weight.values_e4m3.extents()[1] as i32
                &&& call.k == activation.extents()[1] as i32
                &&& call.k == weight.values_e4m3.extents()[0] as i32
                &&& call.alpha.activation == activation_scale
                &&& call.alpha.weight == weight.scale
                &&& call.stream == ctx.stream.handle
                &&& activation.starts_at(ctx.device_id, otherwise.call.activation)
                &&& weight.values_e4m3.starts_at(ctx.device_id, otherwise.call.weight)
                &&& otherwise.call.output == output.ptr
                &&& otherwise.call.m == activation.extents()[0] as i32
                &&& otherwise.call.n == weight.values_e4m3.extents()[1] as i32
                &&& otherwise.call.k == activation.extents()[1] as i32
                &&& otherwise.call.k == weight.values_e4m3.extents()[0] as i32
                &&& otherwise.call.alpha.activation == activation_scale
                &&& otherwise.call.alpha.weight == weight.scale
                &&& otherwise.call.stream == ctx.stream.handle
                &&& otherwise.prepare matches Some(plan) ==> (plan.m, plan.n, plan.k) == (otherwise.call.m, otherwise.call.n, otherwise.call.k)
                    && plan.split == (otherwise.call.kind == Fp8GemmKind::Split)
                &&& otherwise.prepare is Some <==> may_create
                &&& otherwise.call.kind != Fp8GemmKind::SplitFirst
            },
            Ok(Fp8Route::Emulated(plan)) => {
                &&& plan.m == activation.extents()[0]
                &&& plan.n == weight.values_e4m3.extents()[1]
                &&& plan.k == activation.extents()[1]
                &&& plan.activation_elements == crate::shape::product(activation.extents())
                &&& plan.weight_elements == crate::shape::product(weight.values_e4m3.extents())
                &&& plan.activation_bytes == plan.activation_elements * DType::F16.size()
                &&& plan.weight_bytes == plan.weight_elements * DType::F16.size()
            },
            Err(_) => emulated != Ok::<bool, Error>(false),
        },
        emulated == Ok::<bool, Error>(false) ==> !(fp8_route(ctx, may_create, registry, p, output, emulated, near, cutlass) matches Ok(
            Fp8Route::Emulated(_),
        )),
        emulated == Ok::<bool, Error>(true) ==> match fp8_route(ctx, may_create, registry, p, output, emulated, near, cutlass) {
            Ok(Fp8Route::Emulated(_)) => true,
            Err(_) => crate::shape::product(activation.extents()) * 2 > usize::MAX || crate::shape::product(
                weight.values_e4m3.extents(),
            ) * 2 > usize::MAX,
            _ => false,
        },
        emulated matches Err(e) ==> fp8_route(ctx, may_create, registry, p, output, emulated, near, cutlass) == Err::<
            Fp8Route,
            Error,
        >(e),
{
    let a = activation.extents();
    let b = weight.values_e4m3.extents();
    assert(a =~= seq![a[0], a[1]]);
    assert(b =~= seq![b[0], b[1]]);
    crate::shape::lemma_product_2(a[0], a[1]);
    crate::shape::lemma_product_2(b[0], b[1]);
}

/// A static FP8 product is accepted exactly when both operands hold E4M3
/// values on the device, can be multiplied and have usable scales, and the
/// weight is not interleaved.
pub proof fn law_products_are_accepted_exactly_when_they_can_be_computed(
    device: usize,
    activation: &Tensor,
    activation_scale: F32Bits,
    weight: Fp8WeightView<'_>,
)
    ensures
        fp8_rejection(device, activation, activation_scale, weight) is None <==> {
            &&& !weight.dual_geglu_interleaved
            &&& activation.dtype == DType::F8E4M3
            &&& weight.values_e4m3.dtype == DType::F8E4M3
            &&& 0 < activation_scale.bits < 0x7f80_0000
            &&& 0 < weight.scale.bits < 0x7f80_0000
            &&& activation.extents().len() == 2
            &&& weight.values_e4m3.extents().len() == 2
            &&& activation.extents()[1] == weight.values_e4m3.extents()[0]
            &&& activation.placed_on() == Device::Cuda(device)
            &&& weight.values_e4m3.placed_on() == Device::Cuda(device)
        },
{
}

/// A CUTLASS kernel is tried exactly where such kernels were built, the
/// columns are many and aligned, the inner extent is aligned, and no record
/// assigns the shape to the matrix library; a plan for two halves is made
/// exactly where the record says so.
pub proof fn law_routes_follow_shape_and_record(
    ctx: &CudaContext,
    may_create: bool,
    registry: Option<Seq<GemmRecord>>,
    p: &Fp8Problem,
    output: BufferView,
    near: Option<TacticId>,
    cutlass: bool,
)
    ensures
        ({
            let route = fp8_route(ctx, may_create, registry, p, output, Ok(false), near, cutlass);
            let exact = crate::fp8::tuning::installed_tactic(registry, crate::fp8::tuning::fp8_key(ctx, p.m, p.n, p.k));
            let to_library = exact matches Some(t) && !(t.backend is Cutlass || t.backend is CutlassFp8DualGeGlu
                || t.backend is CutlassBf16DualGeGluM522 || t.backend is CutlassBf16DualGeGluM533
                || t.backend is CublasLtCustomSplitGeGluCutlassBf16 || t.backend is Vendor);
            let halves = to_library && !(exact.unwrap().backend is CublasLt || exact.unwrap().backend is CublasLtCustom
                || exact.unwrap().backend is CublasLtCustomBias);
            &&& route is Ok
            &&& route->Ok_0 is Cutlass <==> cutlass && p.n >= 1024 && p.n % 16 == 0 && p.k % 16 == 0 && !to_library
            &&& route->Ok_0 matches Fp8Route::Library(plan) ==> (plan.call.kind == Fp8GemmKind::Split) == halves
            &&& route->Ok_0 matches Fp8Route::Cutlass { otherwise, .. } ==> otherwise.call.kind == Fp8GemmKind::Whole
        }),
{
}

} // verus!
