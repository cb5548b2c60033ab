//! The static FP8 product with a fused GeGLU.
use vstd::prelude::*;

use crate::buffer::{BufferView, CudaBuffer};
use crate::context::{CudaContext, OutputTensor};
use crate::dtype::{DType, Device};
use crate::error::{Error, ErrorView};
use crate::fp8::calls::{
    cublaslt_fp8_gemm_split_first_f16, prepare_cublaslt_fp8_gemm_split, Alpha, Fp8GemmCall,
    Fp8WeightView, PrepareCall,
};
#[allow(unused_imports)]
use crate::fp8::calls::Fp8GemmKind;
use crate::fp8::dual::{
    fp8_dual_geglu_weight_route, Fp8DualGeGluMode, Fp8DualGeGluWeightRoute, GEGLU_COLUMNS,
    GEGLU_INNER,
};
use crate::fp8::gemm::{check_device, cuda_storage};
use crate::fp8::tuning::{exact_fp8_tactic, TacticBackend, TacticId, TuningRegistry};
#[allow(unused_imports)]
use crate::fp8::tuning::GemmRecord;
use crate::ops::binding::dims_2;
use crate::scalar::F32Bits;
use crate::shape::{copy_dims, same_dims, Shape};
use crate::tensor::Tensor;
use crate::workspace::{output_buffer, OutputBuffer, ThreadState};
#[allow(unused_imports)]
use crate::workspace::ThreadView;

verus! {

pub const FUSED_GEGLU_NAME: &'static str = "FP8 fused GeGLU";

pub const DUAL_KERNEL_NAME: &'static str = "FP8 dual-GEMM GeGLU";

pub const FUSED_KERNEL_NAME: &'static str = "FP8 fused GeGLU CUTLASS fused GeGLU";

pub const FUSED_NATIVE_TEXT: &'static str = "FP8 fused GeGLU requires native FP8 Tensor Cores";

pub const FUSED_BUILD_TEXT: &'static str =
    "FP8 fused GeGLU requires the SM100-family CUTLASS build";

pub const FUSED_OUTPUT_TEXT: &'static str = "FP8 fused GeGLU output size overflow";

pub const FUSED_GATE_TEXT: &'static str = "FP8 fused GeGLU gate size overflow";

/// Why the arguments of a fused product are refused, if they are.
pub open spec fn fused_rejection(
    device: usize,
    activation: &Tensor,
    activation_scale: F32Bits,
    weight: Fp8WeightView<'_>,
    output_scale: F32Bits,
) -> Option<ErrorView> {
    let values = weight.values_e4m3;
    if !crate::fp8::gemm::both_e4m3(activation, values) {
        Some(
            ErrorView::Plain(
                Error::Fp8Operands {
                    what: FUSED_GEGLU_NAME,
                    left: activation.dtype,
                    right: values.dtype,
                },
            ),
        )
    } else if !activation_scale.usable() || !weight.scale.usable() || !output_scale.usable() {
        Some(
            ErrorView::Plain(
                Error::Fp8Scales {
                    what: FUSED_GEGLU_NAME,
                    activation_scale,
                    weight_scale: weight.scale,
                    output_scale: Some(output_scale),
                },
            ),
        )
    } else if !crate::fp8::gemm::multipliable(activation.extents(), values.extents()) || values.extents()[1] % 2
        != 0 {
        Some(
            ErrorView::Fp8Shapes {
                what: FUSED_GEGLU_NAME,
                a: activation.extents(),
                b: values.extents(),
            },
        )
    } else {
        crate::fp8::gemm::device_rejection(device, activation, values)
    }
}

/// A fused backend: the number of its kernel, the rows it was tuned for, and
/// whether it computes both halves at once.
#[derive(Clone, Copy, Debug, PartialEq, Eq, Structural)]
pub struct FusedChoice {
    pub tactic: i32,
    pub tuned_m: usize,
    pub dual: bool,
}

/// The fused backend that a record selects, if it selects one.
pub open spec fn fused_choice(tactic: Option<TacticId>, m: usize) -> Option<FusedChoice> {
    match tactic {
        None => None,
        Some(t) => match t.backend {
            TacticBackend::CublasLtCustomSplitGeGluCutlass => Some(
                FusedChoice { tactic: 0, tuned_m: 778, dual: false },
            ),
            TacticBackend::CublasLtCustomSplitGeGluCutlass2SmAuto => Some(
                FusedChoice { tactic: 1, tuned_m: 778, dual: false },
            ),
            TacticBackend::CublasLtCustomSplitGeGluCutlass2SmStage3 => Some(
                FusedChoice { tactic: 2, tuned_m: 778, dual: false },
            ),
            TacticBackend::CublasLtCustomSplitGeGluCutlassM522Explicit2Sm => Some(
                FusedChoice { tactic: 3, tuned_m: 522, dual: false },
            ),
            TacticBackend::CutlassFp8DualGeGlu => Some(
                FusedChoice { tactic: 0, tuned_m: m, dual: true },
            ),
            _ => None,
        },
    }
}

fn choose_fused(tactic: Option<TacticId>, m: usize) -> (choice: Option<FusedChoice>)
    ensures
        choice == fused_choice(tactic, m),
{
    match tactic {
        None => None,
        Some(t) => match t.backend {
            TacticBackend::CublasLtCustomSplitGeGluCutlass => Some(
                FusedChoice { tactic: 0, tuned_m: 778, dual: false },
            ),
            TacticBackend::CublasLtCustomSplitGeGluCutlass2SmAuto => Some(
                FusedChoice { tactic: 1, tuned_m: 778, dual: false },
            ),
            TacticBackend::CublasLtCustomSplitGeGluCutlass2SmStage3 => Some(
                FusedChoice { tactic: 2, tuned_m: 778, dual: false },
            ),
            TacticBackend::CublasLtCustomSplitGeGluCutlassM522Explicit2Sm => Some(
                FusedChoice { tactic: 3, tuned_m: 522, dual: false },
            ),
            TacticBackend::CutlassFp8DualGeGlu => Some(
                FusedChoice { tactic: 0, tuned_m: m, dual: true },
            ),
            _ => None,
        },
    }
}

/// A fused product that an installed record selects.
#[derive(Clone, Copy, Debug, PartialEq, Eq, Structural)]
pub struct FusedProblem {
    pub m: usize,
    pub k: usize,
    /// Columns of gate and up projection together.
    pub full_n: usize,
    /// Number of the fused kernel.
    pub tactic: i32,
    /// Both halves are computed at once.
    pub dual: bool,
    pub alpha: Alpha,
    pub output_scale: F32Bits,
}

/// What a checked request comes to: nothing unless the record of exactly its
/// shape selects a fused backend; refusal where that backend was tuned for
/// another shape.
pub open spec fn fused_selection(
    registry: Option<Seq<GemmRecord>>,
    ctx: &CudaContext,
    activation: &Tensor,
    activation_scale: F32Bits,
    weight: Fp8WeightView<'_>,
    output_scale: F32Bits,
) -> Result<Option<FusedProblem>, Error> {
    let m = activation.extents()[0];
    let k = activation.extents()[1];
    let full_n = weight.values_e4m3.extents()[1];
    match fused_choice(crate::fp8::tuning::installed_tactic(registry, crate::fp8::tuning::fp8_key(ctx, m, full_n, k)), m) {
        None => Ok(None),
        Some(choice) => if m != choice.tuned_m || full_n != GEGLU_COLUMNS || k != GEGLU_INNER {
            Err(Error::FusedShape { tuned_m: choice.tuned_m, m, full_n, k })
        } else {
            Ok(
                Some(
                    FusedProblem {
                        m,
                        k,
                        full_n,
                        tactic: choice.tactic,
                        dual: choice.dual,
                        alpha: Alpha { activation: activation_scale, weight: weight.scale },
                        output_scale,
                    },
                ),
            )
        },
    }
}

/// Starts a fused GeGLU product.
///
/// Gives nothing unless the record of exactly this shape selects a fused
/// backend; a selected but unsupported record fails instead of falling back.
pub fn gemm_fp8_geglu_fused(
    registry: &TuningRegistry,
    ctx: &CudaContext,
    activation: &Tensor,
    activation_scale: F32Bits,
    packed_weight: Fp8WeightView<'_>,
    output_scale: F32Bits,
) -> (problem: Result<Option<FusedProblem>, Error>)
    ensures
        match fused_rejection(
            ctx.device_id,
            activation,
            activation_scale,
            packed_weight,
            output_scale,
        ) {
            Some(refusal) => problem is Err && problem->Err_0@ == refusal,
            None => problem == fused_selection(
                registry@,
                ctx,
                activation,
                activation_scale,
                packed_weight,
                output_scale,
            ),
        },
{
    let values: &Tensor = packed_weight.values_e4m3;
    if activation.dtype != DType::F8E4M3 || values.dtype != DType::F8E4M3 {
        return Err(
            Error::Fp8Operands {
                what: FUSED_GEGLU_NAME,
                left: activation.dtype,
                right: values.dtype,
            },
        );
    }
    if !activation_scale.is_finite_positive() || !packed_weight.scale.is_finite_positive()
        || !output_scale.is_finite_positive() {
        return Err(
            Error::Fp8Scales {
                what: FUSED_GEGLU_NAME,
                activation_scale,
                weight_scale: packed_weight.scale,
                output_scale: Some(output_scale),
            },
        );
    }
    let a: &Vec<usize> = activation.shape.dims();
    let b: &Vec<usize> = values.shape.dims();
    if a.len() != 2 || b.len() != 2 || a[1] != b[0] || b[1] % 2 != 0 {
        return Err(
            Error::Fp8Shapes {
                what: FUSED_GEGLU_NAME,
                a_dims: copy_dims(a),
                b_dims: copy_dims(b),
            },
        );
    }
    check_device(ctx, activation, values)?;
    let (m, k, full_n): (usize, usize, usize) = (a[0], a[1], b[1]);
    let choice: FusedChoice = match choose_fused(exact_fp8_tactic(registry, ctx, m, full_n, k), m) {
        Some(choice) => choice,
        None => {
            return Ok(None);
        },
    };
    if m != choice.tuned_m || full_n != GEGLU_COLUMNS || k != GEGLU_INNER {
        return Err(Error::FusedShape { tuned_m: choice.tuned_m, m, full_n, k });
    }
    Ok(
        Some(
            FusedProblem {
                m,
                k,
                full_n,
                tactic: choice.tactic,
                dual: choice.dual,
                alpha: Alpha { activation: activation_scale, weight: packed_weight.scale },
                output_scale,
            },
        ),
    )
}

/// The tensor that a route reads.
pub open spec fn routed_weight<'a>(
    route: Fp8DualGeGluWeightRoute,
    weight: Fp8WeightView<'a>,
) -> &'a Tensor {
    match route {
        Fp8DualGeGluWeightRoute::InterleavedAuto => weight.dual_geglu_auto_interleaved.unwrap(),
        _ => weight.values_e4m3,
    }
}

/// Why a fused product cannot read its weight, if it cannot: no native FP8,
/// an unreadable switch, a switch and layout that do not go together, a
/// weight that does not fit, or no kernels in this build.
pub open spec fn weight_rejection(
    device: usize,
    dual: bool,
    weight: Fp8WeightView<'_>,
    emulated: Result<bool, Error>,
    mode: Result<Fp8DualGeGluMode, Error>,
    cutlass: bool,
) -> Option<ErrorView> {
    let expected_device = Device::Cuda(device);
    let auto = weight.dual_geglu_auto_interleaved is Some;
    match emulated {
        Err(e) => Some(e@),
        Ok(true) => Some(ErrorView::Plain(Error::Other(FUSED_NATIVE_TEXT))),
        Ok(false) => match mode {
            Err(e) => Some(e@),
            Ok(mode) => match crate::fp8::dual::weight_route(mode, dual, weight.dual_geglu_interleaved, auto) {
                None => Some(
                    ErrorView::Plain(
                        Error::DualLayout {
                            mode,
                            dual_mega: dual,
                            primary_interleaved: weight.dual_geglu_interleaved,
                            auto_interleaved: auto,
                        },
                    ),
                ),
                Some(route) => {
                    let selected = routed_weight(route, weight);
                    if selected.dtype != DType::F8E4M3 || selected.extents()
                        != weight.values_e4m3.extents() {
                        Some(
                            ErrorView::SelectedWeight {
                                wanted: weight.values_e4m3.extents(),
                                dtype: selected.dtype,
                                found: selected.extents(),
                            },
                        )
                    } else if selected.placed_on() != expected_device {
                        Some(
                            ErrorView::Plain(
                                Error::DeviceMismatch {
                                    expected_device,
                                    got_device: selected.placed_on(),
                                },
                            ),
                        )
                    } else if !cutlass {
                        Some(ErrorView::Plain(Error::Other(FUSED_BUILD_TEXT)))
                    } else {
                        None
                    }
                },
            },
        },
    }
}

/// The call of the kernel that computes both halves at once.
#[derive(Clone, Copy, Debug, PartialEq, Eq, Structural)]
pub struct DualCall {
    pub activation: usize,
    pub weight: usize,
    pub output: usize,
    pub m: i32,
    pub n: i32,
    pub k: i32,
    pub full_n: i32,
    pub alpha: Alpha,
    pub output_scale: F32Bits,
    pub stream: usize,
}

/// The call of the kernel that computes the second half and joins it with the
/// gate.
#[derive(Clone, Copy, Debug, PartialEq, Eq, Structural)]
pub struct GegluCall {
    pub activation: usize,
    pub weight: usize,
    pub gate: usize,
    pub output: usize,
    pub m: i32,
    pub n: i32,
    pub k: i32,
    pub full_n: i32,
    pub alpha: Alpha,
    pub output_scale: F32Bits,
    pub tactic: i32,
    pub stream: usize,
}

/// The calls of a product in two steps: the gating half by the matrix library, then
/// the fused kernel.
#[derive(Clone, Copy, Debug, PartialEq, Eq, Structural)]
pub struct GatedCalls {
    pub prepare: Option<PrepareCall>,
    pub gate: Fp8GemmCall,
    pub fused: GegluCall,
}

impl FusedProblem {
    /// Columns of the output.
    pub open spec fn columns(self) -> usize {
        self.full_n / 2
    }

    /// Decides which copy of the weight the product reads.
    pub fn select_weight(
        &self,
        ctx: &CudaContext,
        weight: Fp8WeightView<'_>,
        emulated: Result<bool, Error>,
        mode: Result<Fp8DualGeGluMode, Error>,
        cutlass: bool,
    ) -> (selected: Result<CudaBuffer, Error>)
        ensures
            match selected {
                Ok(buffer) => {
                    &&& weight_rejection(
                        ctx.device_id,
                        self.dual,
                        weight,
                        emulated,
                        mode,
                        cutlass,
                    ) is None
                    &&& routed_weight(
                        crate::fp8::dual::weight_route(
                            mode->Ok_0,
                            self.dual,
                            weight.dual_geglu_interleaved,
                            weight.dual_geglu_auto_interleaved is Some,
                        ).unwrap(),
                        weight,
                    ).cuda_range() == Some(buffer.range())
                },
                Err(e) => weight_rejection(
                    ctx.device_id,
                    self.dual,
                    weight,
                    emulated,
                    mode,
                    cutlass,
                ) == Some(e@),
            },
    {
        let needed: bool = emulated?;
        if needed {
            return Err(Error::Other(FUSED_NATIVE_TEXT));
        }
        let mode: Fp8DualGeGluMode = mode?;
        let route: Fp8DualGeGluWeightRoute = fp8_dual_geglu_weight_route(
            mode,
            self.dual,
            weight.dual_geglu_interleaved,
            weight.dual_geglu_auto_interleaved.is_some(),
        )?;
        let selected: &Tensor = match route {
            Fp8DualGeGluWeightRoute::InterleavedAuto => match weight.dual_geglu_auto_interleaved {
                Some(copy) => copy,
                None => {
                    assert(false);
                    weight.values_e4m3
                },
            },
            _ => weight.values_e4m3,
        };
        let b: &Vec<usize> = weight.values_e4m3.shape.dims();
        if selected.dtype != DType::F8E4M3 || !same_dims(selected.shape.dims(), b) {
            return Err(
                Error::SelectedWeight {
                    wanted_dims: copy_dims(b),
                    dtype: selected.dtype,
                    got_dims: copy_dims(selected.shape.dims()),
                },
            );
        }
        let expected_device: Device = Device::Cuda(ctx.device_id);
        let device: Device = selected.device();
        if device != expected_device {
            return Err(Error::DeviceMismatch { expected_device, got_device: device });
        }
        if !cutlass {
            return Err(Error::Other(FUSED_BUILD_TEXT));
        }
        Ok(cuda_storage(ctx, selected))
    }

    /// Asks for the storage of the E4M3 output.
    pub fn request_output(&self, thread: &mut ThreadState, ctx: &CudaContext) -> (output: Result<
        OutputTensor,
        Error,
    >)
        ensures
            if self.m * self.columns() > usize::MAX {
                &&& output == Err::<OutputTensor, Error>(Error::Other(FUSED_OUTPUT_TEXT))
                &&& final(thread)@ == old(thread)@
            } else {
                exists|shape: Shape|
                    shape@ == seq![self.m, self.columns()] && #[trigger] crate::context::output_outcome(
                        old(thread)@,
                        final(thread)@,
                        ctx.device_id,
                        shape,
                        DType::F8E4M3,
                        output,
                    )
            },
            output matches Ok(o) ==> o.provides(
                ctx.device_id,
                DType::F8E4M3,
                seq![self.m, (self.full_n / 2) as usize],
            ),
    {
        let n: usize = self.full_n / 2;
        if self.m.checked_mul(n).is_none() {
            return Err(Error::Other(FUSED_OUTPUT_TEXT));
        }
        ctx.allocate_output(thread, Shape::new(dims_2(self.m, n)), DType::F8E4M3)
    }

    /// Asks for the storage of the FP16 gate, which a product in two steps
    /// needs.
    pub fn request_gate(&self, thread: &mut ThreadState, ctx: &CudaContext) -> (gate: Result<
        OutputBuffer,
        Error,
    >)
        ensures
            ({
                let bytes = (self.m * self.full_n) * 2;
                if bytes > usize::MAX {
                    &&& gate == Err::<OutputBuffer, Error>(Error::Other(FUSED_GATE_TEXT))
                    &&& final(thread)@ == old(thread)@
                } else {
                    match old(thread)@.active {
                        None => {
                            &&& gate == Ok::<OutputBuffer, Error>(
                                OutputBuffer::Allocate {
                                    bytes: bytes as usize,
                                    device: ctx.device_id,
                                },
                            )
                            &&& final(thread)@ == old(thread)@
                        },
                        Some(w) => match gate {
                            Ok(found) => {
                                &&& w.allocation_rejection(bytes as usize, ctx.device_id) is None
                                &&& found matches OutputBuffer::Arena(buffer) && buffer.range()
                                    == w.allocation(bytes as usize)
                                &&& final(thread)@ == (ThreadView {
                                    active: Some(w.allocated(bytes as usize)),
                                    ..old(thread)@
                                })
                            },
                            Err(e) => {
                                &&& w.allocation_rejection(bytes as usize, ctx.device_id) == Some(
                                    e,
                                )
                                &&& final(thread)@ == old(thread)@
                            },
                        },
                    }
                }
            }),
    {
        let bytes: usize = match self.m.checked_mul(self.full_n) {
            Some(elements) => match elements.checked_mul(2) {
                Some(bytes) => bytes,
                None => {
                    return Err(Error::Other(FUSED_GATE_TEXT));
                },
            },
            None => {
                return Err(Error::Other(FUSED_GATE_TEXT));
            },
        };
        output_buffer(thread, ctx, bytes)
    }

    /// The call of a product whose halves are computed at once.
    pub open spec fn at_once(
        self,
        ctx: &CudaContext,
        activation: BufferView,
        weight: BufferView,
        output: BufferView,
    ) -> DualCall {
        DualCall {
            activation: activation.ptr,
            weight: weight.ptr,
            output: output.ptr,
            m: self.m as i32,
            n: self.columns() as i32,
            k: self.k as i32,
            full_n: self.full_n as i32,
            alpha: self.alpha,
            output_scale: self.output_scale,
            stream: ctx.stream.handle,
        }
    }

    /// The second call of a product in two steps.
    pub open spec fn second_step(
        self,
        ctx: &CudaContext,
        activation: BufferView,
        weight: BufferView,
        gate: BufferView,
        output: BufferView,
    ) -> GegluCall {
        GegluCall {
            activation: activation.ptr,
            weight: weight.ptr,
            gate: gate.ptr,
            output: output.ptr,
            m: self.m as i32,
            n: self.columns() as i32,
            k: self.k as i32,
            full_n: self.full_n as i32,
            alpha: self.alpha,
            output_scale: self.output_scale,
            tactic: self.tactic,
            stream: ctx.stream.handle,
        }
    }

    /// The call of a product whose halves are computed at once.
    pub fn dual_call(
        &self,
        ctx: &CudaContext,
        activation: &CudaBuffer,
        weight: &CudaBuffer,
        output: &CudaBuffer,
    ) -> (call: DualCall)
        ensures
            call == (DualCall {
                activation: activation.range().ptr,
                weight: weight.range().ptr,
                output: output.range().ptr,
                m: self.m as i32,
                n: self.columns() as i32,
                k: self.k as i32,
                full_n: self.full_n as i32,
                alpha: self.alpha,
                output_scale: self.output_scale,
                stream: ctx.stream.handle,
            }),
            call == self.at_once(ctx, activation.range(), weight.range(), output.range()),
            call.activation == activation.range().ptr,
            call.weight == weight.range().ptr,
            call.output == output.range().ptr,
            (call.m, call.k, call.full_n) == (self.m as i32, self.k as i32, self.full_n as i32),
            call.n == (self.full_n / 2) as i32,
    {
        DualCall {
            activation: activation.ptr(),
            weight: weight.ptr(),
            output: output.ptr(),
            m: self.m as i32,
            n: (self.full_n / 2) as i32,
            k: self.k as i32,
            full_n: self.full_n as i32,
            alpha: self.alpha,
            output_scale: self.output_scale,
            stream: ctx.stream.handle,
        }
    }

    /// The calls of a product in two steps.
    pub fn gated_calls(
        &self,
        thread: &ThreadState,
        ctx: &CudaContext,
        activation: &CudaBuffer,
        weight: &CudaBuffer,
        gate: &CudaBuffer,
        output: &CudaBuffer,
    ) -> (calls: GatedCalls)
        ensures
            calls.prepare == (if thread@.may_create() {
                Some(crate::fp8::calls::prepare_call(true, self.m, self.full_n, self.k))
            } else {
                None
            }),
            calls.gate == crate::fp8::calls::gemm_call(
                Fp8GemmKind::SplitFirst,
                ctx,
                activation.range().ptr,
                weight.range().ptr,
                gate.range().ptr,
                self.m,
                self.full_n,
                self.k,
                self.alpha,
            ),
            calls.fused == (GegluCall {
                activation: activation.range().ptr,
                weight: weight.range().ptr,
                gate: gate.range().ptr,
                output: output.range().ptr,
                m: self.m as i32,
                n: self.columns() as i32,
                k: self.k as i32,
                full_n: self.full_n as i32,
                alpha: self.alpha,
                output_scale: self.output_scale,
                tactic: self.tactic,
                stream: ctx.stream.handle,
            }),
            calls.fused == self.second_step(
                ctx,
                activation.range(),
                weight.range(),
                gate.range(),
                output.range(),
            ),
            calls.gate.output == calls.fused.gate,
            calls.gate.activation == calls.fused.activation,
            calls.gate.weight == calls.fused.weight,
            calls.fused.activation == activation.range().ptr,
            calls.fused.weight == weight.range().ptr,
            calls.fused.gate == gate.range().ptr,
            calls.fused.output == output.range().ptr,
            calls.gate.m == self.m as i32,
            calls.gate.n == self.full_n as i32,
            calls.gate.k == self.k as i32,
            (calls.fused.m, calls.fused.full_n, calls.fused.k) == (calls.gate.m, calls.gate.n, calls.gate.k),
            calls.gate.alpha == self.alpha,
            calls.fused.alpha == self.alpha,
            calls.fused.output_scale == self.output_scale,
            calls.fused.tactic == self.tactic,
            calls.gate.kind == Fp8GemmKind::SplitFirst,
            calls.prepare matches Some(made) ==> made.split && (made.m, made.n, made.k) == (calls.gate.m, calls.gate.n, calls.gate.k),
    {
        let prepare: Option<PrepareCall> = if thread.may_prepare_native_resources() {
            Some(prepare_cublaslt_fp8_gemm_split(self.m, self.full_n, self.k))
        } else {
            None
        };
        GatedCalls {
            prepare,
            gate: cublaslt_fp8_gemm_split_first_f16(
                ctx,
                activation,
                weight,
                gate,
                self.m,
                self.full_n,
                self.k,
                self.alpha,
            ),
            fused: GegluCall {
                activation: activation.ptr(),
                weight: weight.ptr(),
                gate: gate.ptr(),
                output: output.ptr(),
                m: self.m as i32,
                n: (self.full_n / 2) as i32,
                k: self.k as i32,
                full_n: self.full_n as i32,
                alpha: self.alpha,
                output_scale: self.output_scale,
                tactic: self.tactic,
                stream: ctx.stream.handle,
            },
        }
    }

    /// What the status of the fused kernel means: anything but zero is a
    /// refusal, and there is no other kernel to try.
    pub fn kernel_outcome(&self, status: i32) -> (r: Result<(), Error>)
        ensures
            match r {
                Ok(()) => status == 0,
                Err(e) => status != 0 && e == (Error::KernelRejected {
                    what: if self.dual {
                        DUAL_KERNEL_NAME
                    } else {
                        FUSED_KERNEL_NAME
                    },
                    m: self.m,
                    n: self.columns(),
                    k: self.k,
                    status,
                }),
            },
    {
        if status == 0 {
            return Ok(());
        }
        Err(
            Error::KernelRejected {
                what: if self.dual {
                    DUAL_KERNEL_NAME
                } else {
                    FUSED_KERNEL_NAME
                },
                m: self.m,
                n: self.full_n / 2,
                k: self.k,
                status,
            },
        )
    }
}

/// A record that selects a fused backend is never passed over: the request
/// either goes on with that backend or fails.
pub proof fn law_selected_fused_backend_is_never_passed_over(
    registry: Option<Seq<GemmRecord>>,
    ctx: &CudaContext,
    activation: &Tensor,
    activation_scale: F32Bits,
    weight: Fp8WeightView<'_>,
    output_scale: F32Bits,
)
    requires
        fused_choice(
            crate::fp8::tuning::installed_tactic(
                registry,
                crate::fp8::tuning::fp8_key(
                    ctx,
                    activation.extents()[0],
                    weight.values_e4m3.extents()[1],
                    activation.extents()[1],
                ),
            ),
            activation.extents()[0],
        ) is Some,
    ensures
        fused_selection(
            registry,
            ctx,
            activation,
            activation_scale,
            weight,
            output_scale,
        ) != Ok::<Option<FusedProblem>, Error>(None),
{
}

/// A fused product that goes on has exactly the shape its backend was tuned
/// for.
pub proof fn law_fused_products_have_the_tuned_shape(
    registry: Option<Seq<GemmRecord>>,
    ctx: &CudaContext,
    activation: &Tensor,
    activation_scale: F32Bits,
    weight: Fp8WeightView<'_>,
    output_scale: F32Bits,
)
    ensures
        fused_selection(
            registry,
            ctx,
            activation,
            activation_scale,
            weight,
            output_scale,
        ) matches Ok(Some(p)) ==> p.full_n == GEGLU_COLUMNS && p.k == GEGLU_INNER && (!p.dual ==> (
        p.m == 778 || p.m == 522)),
{
}

/// A fused product that goes on is the one that was asked for: the
/// activation's rows and inner extent, both halves of the weight's columns,
/// each scale with what it belongs to.
pub proof fn law_fused_products_are_the_product_that_was_posed(
    registry: Option<Seq<GemmRecord>>,
    ctx: &CudaContext,
    activation: &Tensor,
    activation_scale: F32Bits,
    weight: Fp8WeightView<'_>,
    output_scale: F32Bits,
)
    requires
        fused_rejection(ctx.device_id, activation, activation_scale, weight, output_scale) is None,
    ensures
        fused_selection(registry, ctx, activation, activation_scale, weight, output_scale) matches Ok(Some(p)) ==> {
            &&& activation.extents() == seq![p.m, p.k]
            &&& weight.values_e4m3.extents() == seq![p.k, p.full_n]
            &&& p.full_n == p.columns() + p.columns()
            &&& p.alpha.activation == activation_scale
            &&& p.alpha.weight == weight.scale
            &&& p.output_scale == output_scale
            &&& crate::fp8::tuning::installed_tactic(registry, crate::fp8::tuning::fp8_key(ctx, p.m, p.full_n, p.k)) matches Some(t) && (
            p.dual == (t.backend is CutlassFp8DualGeGlu))
        },
{
    assert(activation.extents() =~= seq![activation.extents()[0], activation.extents()[1]]);
    assert(weight.values_e4m3.extents() =~= seq![
        weight.values_e4m3.extents()[0],
        weight.values_e4m3.extents()[1],
    ]);
}

/// A fused product is the same one in either way of computing it: an `[m, k]`
/// activation by both halves of a `[k, full_n]` weight into an output as wide
/// as one half, with the same factors.
pub proof fn law_either_way_computes_the_same_fused_product(
    p: FusedProblem,
    ctx: &CudaContext,
    activation: BufferView,
    weight: BufferView,
    gate: BufferView,
    output: BufferView,
)
    requires
        p.m <= i32::MAX,
        p.k <= i32::MAX,
        p.full_n <= i32::MAX,
        p.full_n % 2 == 0,
    ensures
        ({
            let dual = p.at_once(ctx, activation, weight, output);
            let step = p.second_step(ctx, activation, weight, gate, output);
            &&& (dual.activation, dual.weight, dual.output) == (activation.ptr, weight.ptr, output.ptr)
            &&& (step.activation, step.weight, step.output) == (activation.ptr, weight.ptr, output.ptr)
            &&& step.gate == gate.ptr
            &&& dual.m == p.m && dual.k == p.k && dual.full_n == p.full_n
            &&& dual.n + dual.n == dual.full_n
            &&& (step.m, step.n, step.k, step.full_n) == (dual.m, dual.n, dual.k, dual.full_n)
            &&& dual.alpha == p.alpha && step.alpha == p.alpha
            &&& dual.output_scale == p.output_scale && step.output_scale == p.output_scale
            &&& dual.stream == ctx.stream.handle && step.stream == ctx.stream.handle
            &&& step.tactic == p.tactic
        }),
{
}

/// A fused product is accepted exactly when both operands hold E4M3 values on
/// the device, can be multiplied, have usable scales, and the weight's columns
/// fall into two halves.
pub proof fn law_fused_products_are_accepted_exactly_when_they_can_be_computed(
    device: usize,
    activation: &Tensor,
    activation_scale: F32Bits,
    weight: Fp8WeightView<'_>,
    output_scale: F32Bits,
)
    ensures
        fused_rejection(device, activation, activation_scale, weight, output_scale) is None <==> {
            &&& activation.dtype == DType::F8E4M3
            &&& weight.values_e4m3.dtype == DType::F8E4M3
            &&& 0 < activation_scale.bits < 0x7f80_0000
            &&& 0 < weight.scale.bits < 0x7f80_0000
            &&& 0 < output_scale.bits < 0x7f80_0000
            &&& activation.extents().len() == 2
            &&& weight.values_e4m3.extents().len() == 2
            &&& activation.extents()[1] == weight.values_e4m3.extents()[0]
            &&& weight.values_e4m3.extents()[1] % 2 == 0
            &&& activation.placed_on() == Device::Cuda(device)
            &&& weight.values_e4m3.placed_on() == Device::Cuda(device)
        },
{
}

/// Exactly the fused backends are taken as fused, each with the kernel and the
/// rows it was tuned for; the two-step backends are all among those that split
/// their product.
pub proof fn law_fused_backends_split_their_product(tactic: Option<TacticId>, m: usize)
    ensures
        fused_choice(tactic, m) matches Some(choice) ==> {
            &&& choice.dual <==> tactic.unwrap().backend is CutlassFp8DualGeGlu
            &&& !choice.dual ==> crate::fp8::gemm::splits(tactic)
            &&& choice.dual ==> choice.tuned_m == m && choice.tactic == 0
            &&& tactic.unwrap().backend is CublasLtCustomSplitGeGluCutlass ==> choice.tactic == 0
            &&& tactic.unwrap().backend is CublasLtCustomSplitGeGluCutlass2SmAuto ==> choice.tactic == 1
            &&& tactic.unwrap().backend is CublasLtCustomSplitGeGluCutlass2SmStage3 ==> choice.tactic == 2
            &&& tactic.unwrap().backend is CublasLtCustomSplitGeGluCutlassM522Explicit2Sm <==> choice.tactic == 3
            &&& !choice.dual ==> choice.tuned_m == (if choice.tactic == 3 { 522usize } else { 778usize })
        },
        fused_choice(tactic, m) is None <==> (tactic matches Some(t) ==> t.backend is CublasLtCustomSplitSerial
            || !(t.backend is CutlassFp8DualGeGlu || crate::fp8::gemm::splits(tactic))),
{
}

/// The weight that a fused product reads is the one its layout calls for: the
/// plain values by the two-step backends, the interleaved ones by the dual
/// backend, the copy only where the switch leaves the choice open.
pub proof fn law_routes_read_the_layout_of_their_backend(
    device: usize,
    dual: bool,
    weight: Fp8WeightView<'_>,
    emulated: Result<bool, Error>,
    mode: Result<Fp8DualGeGluMode, Error>,
    cutlass: bool,
)
    requires
        weight_rejection(device, dual, weight, emulated, mode, cutlass) is None,
    ensures
        emulated == Ok::<bool, Error>(false),
        cutlass,
        ({
            let route = crate::fp8::dual::weight_route(
                mode->Ok_0,
                dual,
                weight.dual_geglu_interleaved,
                weight.dual_geglu_auto_interleaved is Some,
            ).unwrap();
            let read = routed_weight(route, weight);
            &&& read.dtype == DType::F8E4M3
            &&& read.extents() == weight.values_e4m3.extents()
            &&& read.placed_on() == Device::Cuda(device)
            &&& !dual ==> read == weight.values_e4m3 && !weight.dual_geglu_interleaved
            &&& dual && weight.dual_geglu_interleaved ==> read == weight.values_e4m3
            &&& dual && !weight.dual_geglu_interleaved ==> Some(read) == weight.dual_geglu_auto_interleaved
        }),
{
}

} // verus!
