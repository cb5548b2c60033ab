//! The portable backend: checks and routes requests, binds tensors, and enters
//! the operators.
//!
//! A request that produces a tensor goes in steps. The first checks it and
//! asks for output storage; the second, once the storage is there, starts the
//! operator; where the output has another shape than the operator's, a last
//! one reshapes it.
use vstd::prelude::*;

use crate::buffer::CudaBuffer;
use crate::context::{CudaContext, CudaStream, OutputTensor, SynchronizeCall};
use crate::dtype::{DType, Device};
use crate::error::{Error, ErrorView};
use crate::graph::{begin, BeginCapture, CaptureMode};
use crate::kv_cache::{CudaKVCache, KvAppend};
#[allow(unused_imports)]
use crate::kv_cache::KvView;
use crate::ops::attention::{
    attention, kv_cache_attention, AttentionArgs, AttentionLaunch, AttentionMask,
    KvCacheAttentionArgs,
};
use crate::ops::binding::{dims_2, dims_3, dims_4};
use crate::ops::gemm::contracts::GemmArgs;
#[allow(unused_imports)]
use crate::ops::gemm::contracts::{GemmQuantization, PlanApi, Semantic};
use crate::ops::gemm::execution::Execution;
use crate::ops::gemm::semantics::gemm;
use crate::ops::launch::PendingLaunch;
use crate::ops::norm::{layer_norm, rms_norm, LayerNormArgs, NormLaunch, RmsNormArgs};
use crate::ops::pointwise::{
    pointwise, PointwiseActivation, PointwiseArgs, PointwiseLaunch, PointwiseSemantic,
};
use crate::scalar::F32Bits;
#[allow(unused_imports)]
use crate::scalar::F32_ONE_BITS;
use crate::shape::{copy_dims, same_dims, Shape};
use crate::tensor::{Tensor, RESHAPE_TEXT};
use crate::workspace::ThreadState;
#[allow(unused_imports)]
use crate::workspace::ThreadView;

verus! {

pub const KV_GEOMETRY_TEXT: &'static str = "KV cache device or geometry does not match Attention";

pub const KV_SHAPE_TEXT: &'static str = "invalid portable KV Attention shape";

pub const KV_FEWER_TEXT: &'static str = "KV Attention has fewer keys than query tokens";

pub const KV_UNINITIALIZED_TEXT: &'static str = "KV Attention cache has not been initialized";

pub const MROPE_TEXT: &'static str = "mRoPE position count mismatch";

pub const VISION_ROPE_TEXT: &'static str = "vision RoPE position count mismatch";

pub const CONCAT_EMPTY_TEXT: &'static str = "concat_2d requires inputs";

pub const CONCAT_RANK_TEXT: &'static str = "concat_2d requires matrices";

pub const CONCAT_MATCH_TEXT: &'static str =
    "concat_2d inputs must have matching rows, dtype, and device";

pub const CONCAT_WIDTH_TEXT: &'static str = "concat_2d width overflow";

pub const CONCAT_OUTPUT_TEXT: &'static str = "concat_2d output does not fit its inputs";

pub const VISION_SHAPE_TEXT: &'static str = "vision Attention shape mismatch";

pub const EMBEDDING_EMPTY_TEXT: &'static str = "embedding requires at least one token";

/// The operators of one device and stream behind a portable interface.
#[derive(Clone, Copy, Debug)]
pub struct CudaBackend {
    pub ctx: CudaContext,
}

/// A vector or matrix taken as a matrix, and the output of the same extents.
#[derive(Debug)]
pub struct RowStep {
    pub matrix: Tensor,
    pub was_vector: bool,
    pub output: OutputTensor,
}

/// Which implementation serves a request.
#[derive(Debug)]
pub enum Route {
    /// The half-precision operator.
    Rows(RowStep),
    /// The single-precision primitive.
    Primitive,
}

/// Token numbers or positions to be uploaded before a kernel reads them.
#[derive(Clone, Copy, Debug, PartialEq, Eq, Structural)]
pub struct IndexUpload {
    pub device: usize,
    /// How many 32-bit values.
    pub count: usize,
}

/// A stream-ordered copy of rows into a wider matrix.
#[derive(Clone, Copy, Debug, PartialEq, Eq, Structural)]
pub struct RowCopy {
    pub source: usize,
    /// First address of the destination matrix.
    pub destination: usize,
    /// Bytes from there to the first copied byte.
    pub offset: usize,
    pub destination_pitch: usize,
    pub source_pitch: usize,
    /// Bytes copied per row.
    pub width: usize,
    pub rows: usize,
    pub stream: CudaStream,
}

impl RowCopy {
    /// Address that byte `b` of row `r` is read from.
    pub open spec fn reads(self, r: int, b: int) -> int {
        self.source + r * self.source_pitch + b
    }

    /// Address that byte `b` of row `r` is written to.
    pub open spec fn writes(self, r: int, b: int) -> int {
        self.destination + self.offset + r * self.destination_pitch + b
    }
}

/// The output of a concatenation, still to be filled.
#[derive(Debug)]
pub struct ConcatStep {
    pub rows: usize,
    pub total_cols: usize,
    pub dtype: DType,
    pub output: OutputTensor,
}

/// A checked attention over a KV cache that waits for its output storage.
#[derive(Debug)]
pub struct CachedAttention {
    pub query: Tensor,
    pub key: Tensor,
    pub value: Tensor,
    pub valid_key_tokens: usize,
    pub query_start: usize,
    pub output: OutputTensor,
}

/// A checked vision attention that waits for its output storage.
#[derive(Debug)]
pub struct VisionAttention {
    pub query: Tensor,
    pub key: Tensor,
    pub value: Tensor,
    pub output: OutputTensor,
}

/// `copy` is `tensor` under the extents `dims`.
pub open spec fn reshaped(tensor: &Tensor, copy: &Tensor, dims: Seq<usize>) -> bool {
    &&& copy.extents() == dims
    &&& copy.dtype == tensor.dtype
    &&& tensor.storage.same_bytes(&copy.storage)
}

/// The extents of a vector or matrix taken as a matrix.
pub open spec fn matrix_extents(tensor: &Tensor) -> Seq<usize> {
    if tensor.extents().len() == 1 {
        seq![1usize, tensor.extents()[0]]
    } else {
        tensor.extents()
    }
}

/// Refusal of a tensor that is neither vector nor matrix.
pub open spec fn matrix_rejection(tensor: &Tensor, operation: &'static str) -> Option<Error> {
    if tensor.extents().len() == 1 || tensor.extents().len() == 2 {
        None
    } else {
        Some(Error::MatrixRank { operation, rank: tensor.extents().len() as usize })
    }
}

/// `step` is a request on the rows of `input`: the rows as a matrix, and
/// output storage of the same extents.
pub open spec fn row_step(
    before: ThreadView,
    after: ThreadView,
    device: usize,
    input: &Tensor,
    operation: &'static str,
    step: Result<RowStep, Error>,
) -> bool {
    match matrix_rejection(input, operation) {
        Some(e) => step == Err::<RowStep, Error>(e) && after == before,
        None => exists|shape: Shape, output: Result<OutputTensor, Error>|
            {
                &&& shape@ == matrix_extents(input)
                &&& #[trigger] crate::context::output_outcome(before, after, device, shape, input.dtype, output)
                &&& match output {
                    Err(e) => step == Err::<RowStep, Error>(e),
                    Ok(o) => {
                        &&& step is Ok
                        &&& reshaped(input, &step->Ok_0.matrix, matrix_extents(input))
                        &&& step->Ok_0.was_vector == (input.extents().len() == 1)
                        &&& step->Ok_0.output == o
                    },
                }
            },
    }
}

/// What a request that only serves half precision comes to.
pub open spec fn half_only(
    before: ThreadView,
    after: ThreadView,
    device: usize,
    input: &Tensor,
    name: &'static str,
    operation: &'static str,
    step: Result<RowStep, Error>,
) -> bool {
    if input.dtype.half() {
        row_step(before, after, device, input, operation, step)
    } else {
        &&& step == Err::<RowStep, Error>(
            Error::UnsupportedType { operation: name, dtype: input.dtype },
        )
        &&& after == before
    }
}

/// What a request that serves half precision and has a single-precision
/// primitive comes to.
pub open spec fn half_or_single(
    before: ThreadView,
    after: ThreadView,
    device: usize,
    input: &Tensor,
    name: &'static str,
    operation: &'static str,
    route: Result<Route, Error>,
) -> bool {
    if input.dtype == DType::F32 {
        route == Ok::<Route, Error>(Route::Primitive) && after == before
    } else {
        match route {
            Ok(Route::Rows(step)) => half_only(
                before,
                after,
                device,
                input,
                name,
                operation,
                Ok(step),
            ),
            Ok(Route::Primitive) => false,
            Err(e) => half_only(before, after, device, input, name, operation, Err(e)),
        }
    }
}

pub const NORMALIZATION_NAME: &'static str = "normalization";

pub const POINTWISE_NAME: &'static str = "pointwise activation";

pub const RMS_NORM_NAME: &'static str = "RMSNorm";

pub const SILU_NAME: &'static str = "SiLU";

pub const LAYER_NORM_NAME: &'static str = "LayerNorm";

pub const GELU_NAME: &'static str = "GELU";

pub const BIAS_ADD_NAME: &'static str = "bias add";

/// A vector or matrix as a matrix, and whether it was a vector.
fn matrix_view(tensor: &Tensor, operation: &'static str) -> (view: Result<(Tensor, bool), Error>)
    ensures
        match view {
            Ok((matrix, was_vector)) => {
                &&& matrix_rejection(tensor, operation) is None
                &&& reshaped(tensor, &matrix, matrix_extents(tensor))
                &&& was_vector == (tensor.extents().len() == 1)
            },
            Err(e) => matrix_rejection(tensor, operation) == Some(e),
        },
{
    let dims: &Vec<usize> = tensor.shape.dims();
    if dims.len() == 1 {
        let wide: Vec<usize> = dims_2(1, dims[0]);
        proof {
            crate::shape::lemma_product_1(dims[0]);
            crate::shape::lemma_product_2(1, dims[0]);
            assert(tensor.extents() =~= seq![dims[0]]);
        }
        match tensor.reshape(Shape::new(wide)) {
            Ok(matrix) => Ok((matrix, true)),
            Err(e) => {
                assert(false);
                Err(e)
            },
        }
    } else if dims.len() == 2 {
        Ok(
            (
                Tensor {
                    shape: tensor.shape.duplicate(),
                    dtype: tensor.dtype,
                    storage: tensor.storage.share(),
                },
                false,
            ),
        )
    } else {
        Err(Error::MatrixRank { operation, rank: dims.len() })
    }
}

/// The request for `activation(matrix + bias)`.
pub open spec fn activation_args<'a>(
    matrix: &'a Tensor,
    bias: Option<&'a Tensor>,
    activation: PointwiseActivation,
    output: &'a Tensor,
) -> PointwiseArgs<'a> {
    PointwiseArgs {
        semantic: PointwiseSemantic::BiasActivation,
        input: matrix,
        out: output,
        bias,
        secondary: None,
        activation,
        dt: F32Bits { bits: 0 },
        policy: crate::ops::launch::default_launch_policy(),
    }
}

/// A request on the rows of a vector or matrix works on the same memory, a
/// vector as the only row, and writes an output of the same extents and type.
pub proof fn law_row_requests_keep_memory_and_extents(
    before: ThreadView,
    after: ThreadView,
    device: usize,
    input: &Tensor,
    operation: &'static str,
    step: Result<RowStep, Error>,
)
    requires
        row_step(before, after, device, input, operation, step),
    ensures
        step matches Ok(s) ==> {
            &&& input.storage.same_bytes(&s.matrix.storage)
            &&& s.matrix.dtype == input.dtype
            &&& s.was_vector <==> input.extents().len() == 1
            &&& s.was_vector ==> s.matrix.extents() == seq![1usize, input.extents()[0]]
            &&& !s.was_vector ==> input.extents().len() == 2 && s.matrix.extents() == input.extents()
            &&& s.output.provides(device, input.dtype, s.matrix.extents())
        },
        input.extents().len() != 1 && input.extents().len() != 2 ==> step is Err,
        step is Err ==> after == before,
        before.active is None && (input.extents().len() == 1 || input.extents().len() == 2)
            && crate::shape::product(matrix_extents(input)) * input.dtype.size() <= usize::MAX
            ==> step is Ok,
{
}

/// A request that only serves half precision goes on for the half-precision
/// types alone, and one with a primitive takes that exactly for single
/// precision.
pub proof fn law_requests_serve_their_types(
    before: ThreadView,
    after: ThreadView,
    device: usize,
    input: &Tensor,
    name: &'static str,
    operation: &'static str,
    step: Result<RowStep, Error>,
    route: Result<Route, Error>,
)
    requires
        half_only(before, after, device, input, name, operation, step),
        half_or_single(before, after, device, input, name, operation, route),
    ensures
        step is Ok ==> input.dtype == DType::F16 || input.dtype == DType::BF16,
        step is Ok ==> row_step(before, after, device, input, operation, step),
        route matches Ok(Route::Primitive) <==> input.dtype == DType::F32,
        route matches Ok(Route::Rows(s)) ==> (input.dtype == DType::F16 || input.dtype == DType::BF16)
            && row_step(before, after, device, input, operation, Ok(s)),
{
}

impl CudaBackend {
    /// A backend on a completed context.
    pub fn new(ctx: CudaContext) -> (backend: Self)
        ensures
            backend.ctx == ctx,
    {
        CudaBackend { ctx }
    }

    pub fn context(&self) -> (ctx: &CudaContext)
        ensures
            ctx == self.ctx,
    {
        &self.ctx
    }

    pub fn device_id(&self) -> (device_id: usize)
        ensures
            device_id == self.ctx.device_id,
    {
        self.ctx.device_id
    }

    pub fn device(&self) -> (device: Device)
        ensures
            device == Device::Cuda(self.ctx.device_id),
    {
        Device::Cuda(self.ctx.device_id)
    }

    /// The request that begins a capture.
    pub fn begin_capture(&self) -> (request: BeginCapture)
        ensures
            request == (BeginCapture { stream: self.ctx.stream, mode: CaptureMode::ThreadLocal }),
    {
        begin(&self.ctx, CaptureMode::ThreadLocal)
    }

    /// Another spelling of [`Self::begin_capture`]: there is one capture
    /// policy, under which unrelated work cannot invalidate the graph.
    pub fn begin_capture_relaxed(&self) -> (request: BeginCapture)
        ensures
            request == (BeginCapture { stream: self.ctx.stream, mode: CaptureMode::ThreadLocal }),
    {
        self.begin_capture()
    }

    /// Request to wait for everything enqueued on the backend's stream.
    pub fn synchronize(&self) -> (call: SynchronizeCall)
        ensures
            call.stream == self.ctx.stream,
    {
        self.ctx.synchronize()
    }

    fn begin_rows(&self, thread: &mut ThreadState, input: &Tensor, operation: &'static str) -> (step:
        Result<RowStep, Error>)
        ensures
            row_step(
                old(thread)@,
                final(thread)@,
                self.ctx.device_id,
                input,
                operation,
                step,
            ),
    {
        let (matrix, was_vector): (Tensor, bool) = matrix_view(input, operation)?;
        let shape: Shape = matrix.shape.duplicate();
        let ghost extents = shape;
        let output: Result<OutputTensor, Error> = self.ctx.allocate_output(
            thread,
            shape,
            input.dtype,
        );
        assert(crate::context::output_outcome(
            old(thread)@,
            thread@,
            self.ctx.device_id,
            extents,
            input.dtype,
            output,
        ));
        match output {
            Ok(output) => Ok(RowStep { matrix, was_vector, output }),
            Err(e) => Err(e),
        }
    }

    fn begin_half(
        &self,
        thread: &mut ThreadState,
        input: &Tensor,
        name: &'static str,
        operation: &'static str,
    ) -> (step: Result<RowStep, Error>)
        ensures
            half_only(
                old(thread)@,
                final(thread)@,
                self.ctx.device_id,
                input,
                name,
                operation,
                step,
            ),
    {
        if input.dtype.is_half() {
            self.begin_rows(thread, input, operation)
        } else {
            Err(Error::UnsupportedType { operation: name, dtype: input.dtype })
        }
    }

    /// Starts an RMS normalization.
    pub fn rms_norm(&self, thread: &mut ThreadState, input: &Tensor) -> (route: Result<
        Route,
        Error,
    >)
        ensures
            half_or_single(
                old(thread)@,
                final(thread)@,
                self.ctx.device_id,
                input,
                RMS_NORM_NAME,
                NORMALIZATION_NAME,
                route,
            ),
    {
        if input.dtype == DType::F32 {
            return Ok(Route::Primitive);
        }
        match self.begin_half(thread, input, RMS_NORM_NAME, NORMALIZATION_NAME) {
            Ok(step) => Ok(Route::Rows(step)),
            Err(e) => Err(e),
        }
    }

    /// Goes on with an RMS normalization once its output is there.
    pub fn rms_norm_into(
        &self,
        thread: &ThreadState,
        matrix: &Tensor,
        weight: &Tensor,
        output: &Tensor,
        eps: F32Bits,
    ) -> (launch: Result<PendingLaunch<NormLaunch>, Error>)
        ensures
            crate::ops::norm::norm_outcome(
                thread,
                &self.ctx,
                &(RmsNormArgs {
                    input: matrix,
                    weight,
                    normalized: output,
                    eps,
                    policy: crate::ops::launch::default_launch_policy(),
                }).request(),
                launch,
            ),
            launch matches Ok(p) ==> {
                &&& p.launch.semantic is Rms
                &&& matrix.packed_at(self.ctx.device_id, p.launch.input, matrix.dtype, seq![p.launch.rows, p.launch.cols])
                &&& weight.packed_at(self.ctx.device_id, p.launch.weight, matrix.dtype, seq![p.launch.cols])
                &&& p.launch.norm_bias == 0
                &&& output.packed_at(self.ctx.device_id, p.launch.normalized, matrix.dtype, seq![p.launch.rows, p.launch.cols])
                &&& p.launch.eps == eps
                &&& p.launch.bias == 0 && p.launch.residual == 0 && p.launch.hidden == 0
                &&& p.policy == crate::ops::launch::default_launch_policy()
                &&& p.stream == self.ctx.stream
                &&& p.runtime == self.ctx.runtime
            },
    {
        rms_norm(thread, &self.ctx, RmsNormArgs::new(matrix, weight, output, eps))
    }

    /// Starts a layer normalization.
    pub fn layer_norm(&self, thread: &mut ThreadState, input: &Tensor) -> (step: Result<
        RowStep,
        Error,
    >)
        ensures
            half_only(
                old(thread)@,
                final(thread)@,
                self.ctx.device_id,
                input,
                LAYER_NORM_NAME,
                NORMALIZATION_NAME,
                step,
            ),
    {
        self.begin_half(thread, input, LAYER_NORM_NAME, NORMALIZATION_NAME)
    }

    /// Goes on with a layer normalization once its output is there.
    pub fn layer_norm_into(
        &self,
        thread: &ThreadState,
        matrix: &Tensor,
        weight: &Tensor,
        bias: &Tensor,
        output: &Tensor,
        eps: F32Bits,
    ) -> (launch: Result<PendingLaunch<NormLaunch>, Error>)
        ensures
            crate::ops::norm::norm_outcome(
                thread,
                &self.ctx,
                &(LayerNormArgs {
                    input: matrix,
                    weight,
                    bias,
                    normalized: output,
                    eps,
                    policy: crate::ops::launch::default_launch_policy(),
                }).request(),
                launch,
            ),
            launch matches Ok(p) ==> {
                &&& p.launch.semantic is Layer
                &&& matrix.packed_at(self.ctx.device_id, p.launch.input, matrix.dtype, seq![p.launch.rows, p.launch.cols])
                &&& weight.packed_at(self.ctx.device_id, p.launch.weight, matrix.dtype, seq![p.launch.cols])
                &&& bias.packed_at(self.ctx.device_id, p.launch.norm_bias, matrix.dtype, seq![p.launch.cols])
                &&& output.packed_at(self.ctx.device_id, p.launch.normalized, matrix.dtype, seq![p.launch.rows, p.launch.cols])
                &&& p.launch.eps == eps
                &&& p.launch.bias == 0 && p.launch.residual == 0 && p.launch.hidden == 0
                &&& p.policy == crate::ops::launch::default_launch_policy()
                &&& p.stream == self.ctx.stream
                &&& p.runtime == self.ctx.runtime
            },
    {
        layer_norm(thread, &self.ctx, LayerNormArgs::new(matrix, weight, bias, output, eps))
    }

    /// Starts a SiLU.
    pub fn silu(&self, thread: &mut ThreadState, input: &Tensor) -> (route: Result<Route, Error>)
        ensures
            half_or_single(
                old(thread)@,
                final(thread)@,
                self.ctx.device_id,
                input,
                SILU_NAME,
                POINTWISE_NAME,
                route,
            ),
    {
        if input.dtype == DType::F32 {
            return Ok(Route::Primitive);
        }
        match self.begin_half(thread, input, SILU_NAME, POINTWISE_NAME) {
            Ok(step) => Ok(Route::Rows(step)),
            Err(e) => Err(e),
        }
    }

    /// Starts a tanh-approximated GELU.
    pub fn gelu_tanh(&self, thread: &mut ThreadState, input: &Tensor) -> (step: Result<
        RowStep,
        Error,
    >)
        ensures
            half_only(
                old(thread)@,
                final(thread)@,
                self.ctx.device_id,
                input,
                GELU_NAME,
                POINTWISE_NAME,
                step,
            ),
    {
        self.begin_half(thread, input, GELU_NAME, POINTWISE_NAME)
    }

    /// Starts the addition of a bias.
    pub fn add_bias(&self, thread: &mut ThreadState, input: &Tensor) -> (step: Result<
        RowStep,
        Error,
    >)
        ensures
            half_only(
                old(thread)@,
                final(thread)@,
                self.ctx.device_id,
                input,
                BIAS_ADD_NAME,
                POINTWISE_NAME,
                step,
            ),
    {
        self.begin_half(thread, input, BIAS_ADD_NAME, POINTWISE_NAME)
    }

    fn pointwise_activation_into(
        &self,
        thread: &ThreadState,
        matrix: &Tensor,
        bias: Option<&Tensor>,
        activation: PointwiseActivation,
        output: &Tensor,
    ) -> (launch: Result<PendingLaunch<PointwiseLaunch>, Error>)
        ensures
            crate::ops::pointwise::pointwise_outcome(
                thread,
                &self.ctx,
                &activation_args(matrix, bias, activation, output),
                launch,
            ),
    {
        let base: PointwiseArgs = PointwiseArgs::new(
            PointwiseSemantic::BiasActivation,
            matrix,
            output,
        );
        pointwise(thread, &self.ctx, PointwiseArgs { bias, activation, ..base })
    }

    /// Goes on with a SiLU once its output is there.
    pub fn silu_into(
        &self,
        thread: &ThreadState,
        matrix: &Tensor,
        output: &Tensor,
    ) -> (launch: Result<PendingLaunch<PointwiseLaunch>, Error>)
        ensures
            crate::ops::pointwise::pointwise_outcome(
                thread,
                &self.ctx,
                &activation_args(matrix, None, PointwiseActivation::Silu, output),
                launch,
            ),
            launch matches Ok(p) ==> {
                &&& p.launch.semantic is BiasActivation
                &&& p.launch.activation is Silu
                &&& matrix.packed_at(self.ctx.device_id, p.launch.input, matrix.dtype, seq![p.launch.rows, p.launch.cols])
                &&& output.packed_at(self.ctx.device_id, p.launch.output, matrix.dtype, seq![p.launch.rows, p.launch.cols])
                &&& p.launch.bias == 0
                &&& p.launch.secondary == 0
                &&& p.policy == crate::ops::launch::default_launch_policy()
                &&& p.stream == self.ctx.stream
                &&& p.runtime == self.ctx.runtime
            },
    {
        self.pointwise_activation_into(thread, matrix, None, PointwiseActivation::Silu, output)
    }

    /// Goes on with a tanh-approximated GELU once its output is there.
    pub fn gelu_tanh_into(
        &self,
        thread: &ThreadState,
        matrix: &Tensor,
        output: &Tensor,
    ) -> (launch: Result<PendingLaunch<PointwiseLaunch>, Error>)
        ensures
            crate::ops::pointwise::pointwise_outcome(
                thread,
                &self.ctx,
                &activation_args(matrix, None, PointwiseActivation::Gelu, output),
                launch,
            ),
            launch matches Ok(p) ==> {
                &&& p.launch.semantic is BiasActivation
                &&& p.launch.activation is Gelu
                &&& matrix.packed_at(self.ctx.device_id, p.launch.input, matrix.dtype, seq![p.launch.rows, p.launch.cols])
                &&& output.packed_at(self.ctx.device_id, p.launch.output, matrix.dtype, seq![p.launch.rows, p.launch.cols])
                &&& p.launch.bias == 0
                &&& p.launch.secondary == 0
                &&& p.policy == crate::ops::launch::default_launch_policy()
                &&& p.stream == self.ctx.stream
                &&& p.runtime == self.ctx.runtime
            },
    {
        self.pointwise_activation_into(thread, matrix, None, PointwiseActivation::Gelu, output)
    }

    /// Goes on with the addition of a bias once its output is there.
    pub fn add_bias_into(
        &self,
        thread: &ThreadState,
        matrix: &Tensor,
        bias: &Tensor,
        output: &Tensor,
    ) -> (launch: Result<PendingLaunch<PointwiseLaunch>, Error>)
        ensures
            crate::ops::pointwise::pointwise_outcome(
                thread,
                &self.ctx,
                &activation_args(matrix, Some(bias), PointwiseActivation::Identity, output),
                launch,
            ),
            launch matches Ok(p) ==> {
                &&& p.launch.semantic is BiasActivation
                &&& p.launch.activation is Identity
                &&& matrix.packed_at(self.ctx.device_id, p.launch.input, matrix.dtype, seq![p.launch.rows, p.launch.cols])
                &&& output.packed_at(self.ctx.device_id, p.launch.output, matrix.dtype, seq![p.launch.rows, p.launch.cols])
                &&& bias.packed_at(self.ctx.device_id, p.launch.bias, matrix.dtype, seq![p.launch.cols])
                &&& p.launch.secondary == 0
                &&& p.policy == crate::ops::launch::default_launch_policy()
                &&& p.stream == self.ctx.stream
                &&& p.runtime == self.ctx.runtime
            },
    {
        self.pointwise_activation_into(thread, matrix, Some(bias), PointwiseActivation::Identity, output)
    }

    /// Gives the result of a request on rows the extents of its input.
    pub fn restore_rows(&self, output: Tensor, was_vector: bool, input: &Tensor) -> (result: Result<
        Tensor,
        Error,
    >)
        ensures
            match result {
                Ok(t) => if was_vector {
                    &&& crate::shape::product(input.extents()) == crate::shape::product(output.extents())
                    &&& reshaped(&output, &t, input.extents())
                } else {
                    t == output
                },
                Err(e) => {
                    &&& was_vector
                    &&& crate::shape::product(input.extents()) != crate::shape::product(output.extents()) || crate::shape::product(
                        input.extents(),
                    ) > usize::MAX
                    &&& e == Error::Other(RESHAPE_TEXT)
                },
            },
    {
        if was_vector {
            output.reshape(input.shape.duplicate())
        } else {
            Ok(output)
        }
    }

    /// Starts a product of two matrices.
    pub fn matmul(&self, thread: &mut ThreadState, a: &Tensor, b: &Tensor) -> (output: Result<
        OutputTensor,
        Error,
    >)
        ensures
            if a.extents().len() != 2 || b.extents().len() != 2 || a.extents()[1]
                != b.extents()[0] {
                &&& output is Err
                &&& output->Err_0@ == (ErrorView::MatmulShapes {
                    a: a.extents(),
                    b: b.extents(),
                })
                &&& final(thread)@ == old(thread)@
            } else {
                exists|shape: Shape|
                    shape@ == seq![a.extents()[0], b.extents()[1]] && #[trigger] crate::context::output_outcome(
                        old(thread)@,
                        final(thread)@,
                        self.ctx.device_id,
                        shape,
                        a.dtype,
                        output,
                    )
            },
            output matches Ok(o) ==> o.provides(
                self.ctx.device_id,
                a.dtype,
                seq![a.extents()[0], b.extents()[1]],
            ),
    {
        let a_dims: &Vec<usize> = a.shape.dims();
        let b_dims: &Vec<usize> = b.shape.dims();
        if a_dims.len() != 2 || b_dims.len() != 2 || a_dims[1] != b_dims[0] {
            return Err(
                Error::MatmulShapes { a_dims: copy_dims(a_dims), b_dims: copy_dims(b_dims) },
            );
        }
        let shape: Shape = Shape::new(dims_2(a_dims[0], b_dims[1]));
        self.ctx.allocate_output(thread, shape, a.dtype)
    }

    /// Goes on with a product once its output is there.
    pub fn matmul_into(&self, thread: &mut ThreadState, a: &Tensor, b: &Tensor, output: &Tensor)
        -> (execution: Result<Execution, Error>)
        ensures
            crate::ops::gemm::semantics::begins(
                old(thread)@,
                final(thread)@,
                &self.ctx,
                &(GemmArgs {
                    a,
                    b,
                    out: output,
                    a_scales: None,
                    b_scales: None,
                    quantization: GemmQuantization::Unquantized,
                    alpha: F32Bits { bits: F32_ONE_BITS },
                    output_scale: F32Bits { bits: F32_ONE_BITS },
                    weight_version: None,
                    validation_reference: None,
                    policy: crate::ops::gemm::contracts::default_policy(),
                }),
                Semantic::Gemm,
                PlanApi::Gemm,
                None,
                true,
                crate::ops::gemm::semantics::step_of(execution),
            ),
            crate::ops::gemm::semantics::waits_if_new(old(thread)@, &self.ctx, execution),
    {
        gemm(thread, &self.ctx, GemmArgs::new(a, b, output))
    }
}

/// Tokens of a tensor: its leading extent, zero where it has none.
pub open spec fn leading_extent(tensor: &Tensor) -> usize {
    if tensor.extents().len() > 0 {
        tensor.extents()[0]
    } else {
        0
    }
}

/// `tokens * axes`, at most what a machine word holds.
pub open spec fn position_count(tokens: usize, axes: usize) -> int {
    if tokens * axes > usize::MAX {
        usize::MAX as int
    } else {
        tokens * axes
    }
}

fn expected_positions(input: &Tensor, axes: usize) -> (count: usize)
    ensures
        count == position_count(leading_extent(input), axes),
{
    let dims: &Vec<usize> = input.shape.dims();
    let tokens: usize = if dims.len() > 0 {
        dims[0]
    } else {
        0
    };
    match tokens.checked_mul(axes) {
        Some(count) => count,
        None => usize::MAX,
    }
}

impl CudaBackend {
    /// The upload of the positions of a rotary embedding on three axes: three
    /// per token.
    pub fn rope_mrope(&self, input: &Tensor, pos_ids: &[u32]) -> (upload: Result<
        IndexUpload,
        Error,
    >)
        ensures
            match upload {
                Ok(u) => pos_ids@.len() == position_count(leading_extent(input), 3) && u == (
                IndexUpload {
                    device: self.ctx.device_id,
                    count: pos_ids@.len() as usize,
                }),
                Err(e) => pos_ids@.len() != position_count(leading_extent(input), 3) && e
                    == Error::Other(MROPE_TEXT),
            },
    {
        if pos_ids.len() != expected_positions(input, 3) {
            return Err(Error::Other(MROPE_TEXT));
        }
        Ok(IndexUpload { device: self.ctx.device_id, count: pos_ids.len() })
    }

    /// The upload of the positions of a rotary embedding on an image: two per
    /// token.
    pub fn rope_vision_2d(&self, input: &Tensor, pos_ids: &[u32]) -> (upload: Result<
        IndexUpload,
        Error,
    >)
        ensures
            match upload {
                Ok(u) => pos_ids@.len() == position_count(leading_extent(input), 2) && u == (
                IndexUpload {
                    device: self.ctx.device_id,
                    count: pos_ids@.len() as usize,
                }),
                Err(e) => pos_ids@.len() != position_count(leading_extent(input), 2) && e
                    == Error::Other(VISION_ROPE_TEXT),
            },
    {
        if pos_ids.len() != expected_positions(input, 2) {
            return Err(Error::Other(VISION_ROPE_TEXT));
        }
        Ok(IndexUpload { device: self.ctx.device_id, count: pos_ids.len() })
    }

    /// The upload of the token numbers of an embedding lookup.
    pub fn embedding(&self, ids: &[u32]) -> (upload: Result<IndexUpload, Error>)
        ensures
            match upload {
                Ok(u) => ids@.len() > 0 && u == (IndexUpload {
                    device: self.ctx.device_id,
                    count: ids@.len() as usize,
                }),
                Err(e) => ids@.len() == 0 && e == Error::Other(EMBEDDING_EMPTY_TEXT),
            },
    {
        if ids.len() == 0 {
            return Err(Error::Other(EMBEDDING_EMPTY_TEXT));
        }
        Ok(IndexUpload { device: self.ctx.device_id, count: ids.len() })
    }
}


/// Positions are as many as the tokens have axes, wherever a machine word
/// holds that many, and the tokens are the leading extent.
pub proof fn law_positions_count_every_axis_of_every_token(tensor: &Tensor, axes: usize)
    ensures
        leading_extent(tensor) * axes <= usize::MAX ==> position_count(leading_extent(tensor), axes) == leading_extent(tensor)
            * axes,
        tensor.extents().len() > 0 ==> leading_extent(tensor) == tensor.extents()[0],
        tensor.extents().len() == 0 ==> leading_extent(tensor) == 0,
{
}

/// Columns of the first `count` matrices.
pub open spec fn total_columns(tensors: Seq<&Tensor>, count: int) -> int
    decreases count,
{
    if count <= 0 {
        0
    } else {
        total_columns(tensors, count - 1) + tensors[count - 1].extents()[1]
    }
}

/// A matrix of these rows and type on this device.
pub open spec fn joinable(tensor: &Tensor, rows: usize, dtype: DType, device: usize) -> bool {
    &&& tensor.extents().len() == 2
    &&& tensor.extents()[0] == rows
    &&& tensor.dtype == dtype
    &&& tensor.placed_on() == Device::Cuda(device)
}

/// The first refusal among the first `count` matrices.
pub open spec fn join_rejection(
    device: usize,
    tensors: Seq<&Tensor>,
    rows: usize,
    dtype: DType,
    count: int,
) -> Option<Error>
    decreases count,
{
    if count <= 0 {
        None
    } else if join_rejection(device, tensors, rows, dtype, count - 1) is Some {
        join_rejection(device, tensors, rows, dtype, count - 1)
    } else if !joinable(tensors[count - 1], rows, dtype, device) {
        Some(Error::Other(CONCAT_MATCH_TEXT))
    } else if total_columns(tensors, count) > usize::MAX {
        Some(Error::Other(CONCAT_WIDTH_TEXT))
    } else {
        None
    }
}

/// Why a concatenation is refused, if it is.
pub open spec fn concat_rejection(device: usize, tensors: Seq<&Tensor>) -> Option<Error> {
    if tensors.len() == 0 {
        Some(Error::Other(CONCAT_EMPTY_TEXT))
    } else if tensors[0].extents().len() != 2 {
        Some(Error::Other(CONCAT_RANK_TEXT))
    } else {
        join_rejection(
            device,
            tensors,
            tensors[0].extents()[0],
            tensors[0].dtype,
            tensors.len() as int,
        )
    }
}

proof fn lemma_join_prefix(
    device: usize,
    tensors: Seq<&Tensor>,
    rows: usize,
    dtype: DType,
    i: int,
    count: int,
)
    requires
        0 <= i <= count,
    ensures
        join_rejection(device, tensors, rows, dtype, i) is Some ==> join_rejection(
            device,
            tensors,
            rows,
            dtype,
            count,
        ) == join_rejection(device, tensors, rows, dtype, i),
    decreases count - i,
{
    if i < count {
        lemma_join_prefix(device, tensors, rows, dtype, i, count - 1);
    }
}

proof fn lemma_columns_grow(tensors: Seq<&Tensor>, i: int, count: int)
    requires
        0 <= i <= count,
    ensures
        0 <= total_columns(tensors, i) <= total_columns(tensors, count),
    decreases count,
{
    if i < count {
        lemma_columns_grow(tensors, i, count - 1);
    } else if count > 0 {
        lemma_columns_grow(tensors, i - 1, count - 1);
    }
}

/// The copy of one matrix of a concatenation into its columns.
pub open spec fn join_copy(
    stream: CudaStream,
    tensors: Seq<&Tensor>,
    output: &Tensor,
    i: int,
) -> RowCopy {
    let size = tensors[0].dtype.size();
    RowCopy {
        source: tensors[i].cuda_range().unwrap().ptr,
        destination: output.cuda_range().unwrap().ptr,
        offset: (total_columns(tensors, i) * size) as usize,
        destination_pitch: (total_columns(tensors, tensors.len() as int) * size) as usize,
        source_pitch: (tensors[i].extents()[1] * size) as usize,
        width: (tensors[i].extents()[1] * size) as usize,
        rows: tensors[0].extents()[0],
        stream,
    }
}

/// `output` can take the concatenation of `tensors`.
pub open spec fn takes_join(device: usize, tensors: Seq<&Tensor>, output: &Tensor) -> bool {
    let total = total_columns(tensors, tensors.len() as int);
    &&& output.placed_on() == Device::Cuda(device)
    &&& output.dtype == tensors[0].dtype
    &&& output.extents().len() == 2
    &&& output.extents()[0] == tensors[0].extents()[0]
    &&& output.extents()[1] == total
    &&& total * tensors[0].dtype.size() <= usize::MAX
}

/// In a concatenation the copies fill each output row from its start to its
/// end: every matrix starts where the one before it ended.
pub proof fn law_joined_columns_tile_the_row(
    device: usize,
    tensors: Seq<&Tensor>,
    output: &Tensor,
    stream: CudaStream,
    i: int,
)
    requires
        concat_rejection(device, tensors) is None,
        takes_join(device, tensors, output),
        0 <= i < tensors.len(),
    ensures
        join_copy(stream, tensors, output, 0).offset == 0,
        i + 1 < tensors.len() ==> join_copy(stream, tensors, output, i + 1).offset == join_copy(
            stream,
            tensors,
            output,
            i,
        ).offset + join_copy(stream, tensors, output, i).width,
        i + 1 == tensors.len() ==> join_copy(stream, tensors, output, i).offset + join_copy(
            stream,
            tensors,
            output,
            i,
        ).width == join_copy(stream, tensors, output, i).destination_pitch,
{
    let size = tensors[0].dtype.size() as int;
    let n = tensors.len() as int;
    lemma_columns_grow(tensors, i, n);
    lemma_columns_grow(tensors, i + 1, n);
    let before = total_columns(tensors, i);
    let after = total_columns(tensors, i + 1);
    let cols = tensors[i].extents()[1] as int;
    let total = total_columns(tensors, n);
    assert(after == before + cols);
    assert(before * size + cols * size == after * size && 0 <= before * size && 0 <= cols * size
        && after * size <= total * size) by (nonlinear_arith)
        requires
            after == before + cols,
            0 <= before,
            0 <= cols,
            after <= total,
            size >= 1,
    ;
}

proof fn lemma_copy_fits(tensors: Seq<&Tensor>, i: int)
    requires
        0 <= i < tensors.len(),
        total_columns(tensors, tensors.len() as int) * tensors[0].dtype.size() <= usize::MAX,
    ensures
        0 <= total_columns(tensors, i) * tensors[0].dtype.size() <= usize::MAX,
        0 <= tensors[i].extents()[1] * tensors[0].dtype.size() <= usize::MAX,
{
    let n = tensors.len() as int;
    lemma_columns_grow(tensors, i, n);
    lemma_columns_grow(tensors, i + 1, n);
    let size = tensors[0].dtype.size() as int;
    let before = total_columns(tensors, i);
    let cols = tensors[i].extents()[1] as int;
    let total = total_columns(tensors, n);
    assert(total_columns(tensors, i + 1) == before + cols);
    assert(0 <= before * size <= total * size && 0 <= cols * size <= total * size)
        by (nonlinear_arith)
        requires
            0 <= before,
            0 <= cols,
            before + cols <= total,
            1 <= size,
    ;
}

/// A concatenation is accepted exactly when there is a matrix, all of them
/// have the rows, type and device of the first, and a machine word holds the
/// columns of them together.
pub proof fn law_concatenations_are_accepted_exactly_when_rows_and_types_match(
    device: usize,
    tensors: Seq<&Tensor>,
)
    ensures
        concat_rejection(device, tensors) is None <==> {
            &&& tensors.len() > 0
            &&& forall|i: int|
                0 <= i < tensors.len() ==> {
                    &&& (#[trigger] tensors[i]).extents().len() == 2
                    &&& tensors[i].extents()[0] == tensors[0].extents()[0]
                    &&& tensors[i].dtype == tensors[0].dtype
                    &&& tensors[i].placed_on() == Device::Cuda(device)
                }
            &&& total_columns(tensors, tensors.len() as int) <= usize::MAX
        },
{
    if tensors.len() > 0 && tensors[0].extents().len() == 2 {
        lemma_join_accepts(
            device,
            tensors,
            tensors[0].extents()[0],
            tensors[0].dtype,
            tensors.len() as int,
        );
    }
}

proof fn lemma_join_accepts(
    device: usize,
    tensors: Seq<&Tensor>,
    rows: usize,
    dtype: DType,
    count: int,
)
    requires
        0 <= count <= tensors.len(),
    ensures
        join_rejection(device, tensors, rows, dtype, count) is None <==> {
            &&& forall|i: int| 0 <= i < count ==> joinable(#[trigger] tensors[i], rows, dtype, device)
            &&& total_columns(tensors, count) <= usize::MAX
        },
    decreases count,
{
    if count > 0 {
        lemma_join_accepts(device, tensors, rows, dtype, count - 1);
        lemma_columns_grow(tensors, count - 1, count);
        if join_rejection(device, tensors, rows, dtype, count) is None {
            assert forall|i: int| 0 <= i < count implies joinable(
                #[trigger] tensors[i],
                rows,
                dtype,
                device,
            ) by {
                if i == count - 1 {
                    assert(joinable(tensors[count - 1], rows, dtype, device));
                }
            }
        }
    }
}

/// Copy `i` of a concatenation carries element `[r, c]` of matrix `i`, and no
/// other matrix, to element `[r, columns before + c]` of the output, and it
/// carries whole rows of that matrix and all of them.
pub proof fn law_copies_carry_each_matrix_to_its_columns(
    device: usize,
    tensors: Seq<&Tensor>,
    output: &Tensor,
    stream: CudaStream,
    i: int,
    r: int,
    c: int,
)
    requires
        concat_rejection(device, tensors) is None,
        takes_join(device, tensors, output),
        0 <= i < tensors.len(),
        0 <= r < tensors[i].extents()[0],
        0 <= c < tensors[i].extents()[1],
    ensures
        ({
            let copy = join_copy(stream, tensors, output, i);
            let size = tensors[i].dtype.size();
            &&& copy.rows == tensors[i].extents()[0]
            &&& copy.width == tensors[i].extents()[1] * size
            &&& copy.reads(r, c * size) == tensors[i].address_2(r, c)
            &&& copy.writes(r, c * size) == output.address_2(
                r,
                total_columns(tensors, i) + c,
            )
            &&& copy.stream == stream
        }),
{
    let n = tensors.len() as int;
    let rows = tensors[0].extents()[0];
    law_concatenations_are_accepted_exactly_when_rows_and_types_match(device, tensors);
    lemma_columns_grow(tensors, i, n);
    lemma_columns_grow(tensors, i + 1, n);
    let size = tensors[i].dtype.size() as int;
    let before = total_columns(tensors, i);
    let cols = tensors[i].extents()[1] as int;
    let total = total_columns(tensors, n);
    assert(total_columns(tensors, i + 1) == before + cols);
    assert(0 <= before * size <= total * size && 0 <= cols * size <= total * size)
        by (nonlinear_arith)
        requires
            0 <= before,
            0 <= cols,
            before + cols <= total,
            1 <= size,
    ;
    assert(r * (cols * size) + c * size == (r * cols + c) * size) by (nonlinear_arith);
    assert(before * size + r * (total * size) + c * size == (r * total + (before + c)) * size)
        by (nonlinear_arith);
}

impl CudaBackend {
    /// Starts to put matrices of equal rows side by side.
    pub fn concat_2d(&self, thread: &mut ThreadState, tensors: &[&Tensor]) -> (step: Result<
        ConcatStep,
        Error,
    >)
        ensures
            match concat_rejection(self.ctx.device_id, tensors@) {
                Some(e) => step == Err::<ConcatStep, Error>(e) && final(thread)@ == old(thread)@,
                None => exists|shape: Shape, output: Result<OutputTensor, Error>|
                    {
                        let total = total_columns(tensors@, tensors@.len() as int);
                        &&& shape@ == seq![tensors@[0].extents()[0], total as usize]
                        &&& #[trigger] crate::context::output_outcome(
                            old(thread)@,
                            final(thread)@,
                            self.ctx.device_id,
                            shape,
                            tensors@[0].dtype,
                            output,
                        )
                        &&& match output {
                            Err(e) => step == Err::<ConcatStep, Error>(e),
                            Ok(o) => step == Ok::<ConcatStep, Error>(
                                ConcatStep {
                                    rows: tensors@[0].extents()[0],
                                    total_cols: total as usize,
                                    dtype: tensors@[0].dtype,
                                    output: o,
                                },
                            ),
                        }
                    },
            },
            step matches Ok(s) ==> s.output.provides(
                self.ctx.device_id,
                tensors@[0].dtype,
                seq![
                    tensors@[0].extents()[0],
                    total_columns(tensors@, tensors@.len() as int) as usize,
                ],
            ),
    {
        if tensors.len() == 0 {
            return Err(Error::Other(CONCAT_EMPTY_TEXT));
        }
        let first_dims: &Vec<usize> = tensors[0].shape.dims();
        if first_dims.len() != 2 {
            return Err(Error::Other(CONCAT_RANK_TEXT));
        }
        let rows: usize = first_dims[0];
        let dtype: DType = tensors[0].dtype;
        let device: Device = self.device();
        let mut total_cols: usize = 0;
        let mut i: usize = 0;
        while i < tensors.len()
            invariant
                i <= tensors@.len(),
                device == Device::Cuda(self.ctx.device_id),
                *thread == *old(thread),
                tensors@.len() > 0,
                tensors@[0].extents().len() == 2,
                rows == tensors@[0].extents()[0],
                dtype == tensors@[0].dtype,
                total_cols == total_columns(tensors@, i as int),
                join_rejection(self.ctx.device_id, tensors@, rows, dtype, i as int) is None,
            decreases tensors.len() - i,
        {
            let tensor: &Tensor = tensors[i];
            let dims: &Vec<usize> = tensor.shape.dims();
            proof {
                lemma_join_prefix(
                    self.ctx.device_id,
                    tensors@,
                    rows,
                    dtype,
                    i + 1,
                    tensors@.len() as int,
                );
            }
            if dims.len() != 2 || dims[0] != rows || tensor.dtype != dtype || tensor.device()
                != device {
                return Err(Error::Other(CONCAT_MATCH_TEXT));
            }
            total_cols = match total_cols.checked_add(dims[1]) {
                Some(total) => total,
                None => {
                    return Err(Error::Other(CONCAT_WIDTH_TEXT));
                },
            };
            i = i + 1;
        }
        let shape: Shape = Shape::new(dims_2(rows, total_cols));
        let ghost extents = shape;
        let output: Result<OutputTensor, Error> = self.ctx.allocate_output(thread, shape, dtype);
        assert(crate::context::output_outcome(
            old(thread)@,
            thread@,
            self.ctx.device_id,
            extents,
            dtype,
            output,
        ));
        match output {
            Ok(output) => Ok(ConcatStep { rows, total_cols, dtype, output }),
            Err(e) => Err(e),
        }
    }

    /// The copies that fill a concatenation once its output is there, in the
    /// order of the matrices.
    pub fn concat_copies(&self, tensors: &[&Tensor], output: &Tensor) -> (copies: Result<
        Vec<RowCopy>,
        Error,
    >)
        requires
            concat_rejection(self.ctx.device_id, tensors@) is None,
        ensures
            match copies {
                Ok(c) => {
                    &&& takes_join(self.ctx.device_id, tensors@, output)
                    &&& c@.len() == tensors@.len()
                    &&& forall|i: int|
                        0 <= i < c@.len() ==> #[trigger] c@[i] == join_copy(
                            self.ctx.stream,
                            tensors@,
                            output,
                            i,
                        )
                },
                Err(e) => {
                    &&& !takes_join(self.ctx.device_id, tensors@, output)
                    &&& e == Error::Other(CONCAT_OUTPUT_TEXT)
                },
            },
            copies matches Ok(c) ==> (
                forall|i: int|
                    0 <= i < c@.len() ==> {
                        &&& tensors@[i].starts_at(self.ctx.device_id, (#[trigger] c@[i]).source)
                        &&& output.starts_at(self.ctx.device_id, c@[i].destination)
                        &&& c@[i].rows == tensors@[i].extents()[0]
                        &&& c@[i].width == tensors@[i].extents()[1] * output.dtype.size()
                        &&& c@[i].source_pitch == tensors@[i].extents()[1] * output.dtype.size()
                        &&& c@[i].destination_pitch == output.extents()[1] * output.dtype.size()
                        &&& c@[i].offset == total_columns(tensors@, i) * output.dtype.size()
                    }
            ),
            copies matches Ok(c) ==> (
                forall|i: int, r: int, col: int|
                    0 <= i < c@.len() && #[trigger] tensors@[i].has_2(r, col) ==> {
                        &&& c@[i].reads(r, col * output.dtype.size()) == tensors@[i].address_2(r, col)
                        &&& c@[i].writes(r, col * output.dtype.size()) == output.address_2(
                            r,
                            total_columns(tensors@, i) + col,
                        )
                    }
            ),
    {
        let rows: usize = tensors[0].shape.dims()[0];
        let dtype: DType = tensors[0].dtype;
        let size: usize = dtype.size_in_bytes();
        let mut total_cols: usize = 0;
        let mut n: usize = 0;
        while n < tensors.len()
            invariant
                n <= tensors@.len(),
                concat_rejection(self.ctx.device_id, tensors@) is None,
                rows == tensors@[0].extents()[0],
                dtype == tensors@[0].dtype,
                total_cols == total_columns(tensors@, n as int),
            decreases tensors.len() - n,
        {
            proof {
                lemma_join_prefix(
                    self.ctx.device_id,
                    tensors@,
                    rows,
                    dtype,
                    n + 1,
                    tensors@.len() as int,
                );
            }
            total_cols = total_cols + tensors[n].shape.dims()[1];
            n = n + 1;
        }
        let out_dims: &Vec<usize> = output.shape.dims();
        if output.device() != self.device() || output.dtype != dtype || out_dims.len() != 2
            || out_dims[0] != rows || out_dims[1] != total_cols {
            return Err(Error::Other(CONCAT_OUTPUT_TEXT));
        }
        let pitch: usize = match total_cols.checked_mul(size) {
            Some(pitch) => pitch,
            None => {
                return Err(Error::Other(CONCAT_OUTPUT_TEXT));
            },
        };
        let destination: CudaBuffer = match CudaBuffer::from_tensor(output) {
            Ok(buffer) => buffer,
            Err(e) => {
                assert(false);
                return Err(e);
            },
        };
        let mut copies: Vec<RowCopy> = Vec::new();
        let mut column: usize = 0;
        let mut i: usize = 0;
        while i < tensors.len()
            invariant
                i <= tensors@.len(),
                copies@.len() == i,
                concat_rejection(self.ctx.device_id, tensors@) is None,
                takes_join(self.ctx.device_id, tensors@, output),
                rows == tensors@[0].extents()[0],
                dtype == tensors@[0].dtype,
                size == dtype.size(),
                1 <= size,
                total_cols == total_columns(tensors@, tensors@.len() as int),
                pitch == total_cols * size,
                output.cuda_range() == Some(destination.range()),
                column == total_columns(tensors@, i as int),
                forall|j: int|
                    0 <= j < i ==> #[trigger] copies@[j] == join_copy(
                        self.ctx.stream,
                        tensors@,
                        output,
                        j,
                    ),
            decreases tensors.len() - i,
        {
            proof {
                lemma_join_prefix(
                    self.ctx.device_id,
                    tensors@,
                    rows,
                    dtype,
                    i + 1,
                    tensors@.len() as int,
                );
                lemma_columns_grow(tensors@, i as int, tensors@.len() as int);
                lemma_columns_grow(tensors@, i + 1, tensors@.len() as int);
                let cols = tensors@[i as int].extents()[1] as int;
                assert(0 <= column * size <= total_cols * size && 0 <= cols * size <= total_cols
                    * size) by (nonlinear_arith)
                    requires
                        0 <= column,
                        0 <= cols,
                        column + cols <= total_cols,
                        1 <= size,
                ;
            }
            let cols: usize = tensors[i].shape.dims()[1];
            let source: CudaBuffer = match CudaBuffer::from_tensor(tensors[i]) {
                Ok(buffer) => buffer,
                Err(e) => {
                    assert(false);
                    return Err(e);
                },
            };
            let width: usize = cols * size;
            copies.push(
                RowCopy {
                    source: source.ptr(),
                    destination: destination.ptr(),
                    offset: column * size,
                    destination_pitch: pitch,
                    source_pitch: width,
                    width,
                    rows,
                    stream: self.ctx.stream,
                },
            );
            column = column + cols;
            i = i + 1;
        }
        proof {
            law_concatenations_are_accepted_exactly_when_rows_and_types_match(
                self.ctx.device_id,
                tensors@,
            );
            assert forall|i: int| 0 <= i < copies@.len() implies {
                &&& tensors@[i].starts_at(self.ctx.device_id, (#[trigger] copies@[i]).source)
                &&& output.starts_at(self.ctx.device_id, copies@[i].destination)
                &&& copies@[i].rows == tensors@[i].extents()[0]
                &&& copies@[i].width == tensors@[i].extents()[1] * output.dtype.size()
                &&& copies@[i].source_pitch == tensors@[i].extents()[1] * output.dtype.size()
                &&& copies@[i].destination_pitch == output.extents()[1] * output.dtype.size()
                &&& copies@[i].offset == total_columns(tensors@, i) * output.dtype.size()
            } by {
                assert(tensors@[i].extents().len() == 2);
                lemma_copy_fits(tensors@, i);
            }
            assert forall|i: int, r: int, col: int|
                0 <= i < copies@.len() && #[trigger] tensors@[i].has_2(r, col) implies {
                &&& copies@[i].reads(r, col * output.dtype.size()) == tensors@[i].address_2(r, col)
                &&& copies@[i].writes(r, col * output.dtype.size()) == output.address_2(
                    r,
                    total_columns(tensors@, i) + col,
                )
            } by {
                assert(tensors@[i].extents().len() == 2);
                law_copies_carry_each_matrix_to_its_columns(
                    self.ctx.device_id,
                    tensors@,
                    output,
                    self.ctx.stream,
                    i,
                    r,
                    col,
                );
            }
        }
        Ok(copies)
    }
}

/// Why a vision attention is refused before its output is asked for, if it is.
pub open spec fn vision_rejection(
    q: &Tensor,
    k: &Tensor,
    v: &Tensor,
    seq_len: usize,
    n_heads: usize,
    head_dim: usize,
) -> Option<Error> {
    let expected = seq![seq_len, n_heads, head_dim];
    if q.extents() != expected || k.extents() != expected || v.extents() != expected {
        Some(Error::Other(VISION_SHAPE_TEXT))
    } else if crate::shape::product(expected) > usize::MAX {
        Some(Error::Other(RESHAPE_TEXT))
    } else {
        None
    }
}

proof fn lemma_batched_product(a: usize, b: usize, c: usize)
    ensures
        crate::shape::product(seq![1usize, a, b, c]) == crate::shape::product(seq![a, b, c]),
{
    crate::shape::lemma_product_3(a, b, c);
    crate::shape::lemma_product_4(1, a, b, c);
    assert(1 * a * b * c == a * b * c) by (nonlinear_arith);
}

/// The same bytes with a leading extent of one.
fn batched(tensor: &Tensor, a: usize, b: usize, c: usize) -> (view: Result<Tensor, Error>)
    requires
        tensor.extents() == seq![a, b, c],
    ensures
        match view {
            Ok(t) => crate::shape::product(seq![a, b, c]) <= usize::MAX && reshaped(
                tensor,
                &t,
                seq![1usize, a, b, c],
            ),
            Err(e) => crate::shape::product(seq![a, b, c]) > usize::MAX && e == Error::Other(RESHAPE_TEXT),
        },
{
    proof {
        lemma_batched_product(a, b, c);
    }
    tensor.reshape(Shape::new(dims_4(1, a, b, c)))
}

/// An attention among the tokens of an image is accepted exactly when queries,
/// keys and values all have the extents that were named.
pub proof fn law_vision_attention_is_accepted_exactly_when_extents_match(
    q: &Tensor,
    k: &Tensor,
    v: &Tensor,
    seq_len: usize,
    n_heads: usize,
    head_dim: usize,
)
    ensures
        vision_rejection(q, k, v, seq_len, n_heads, head_dim) is None <==> {
            &&& q.extents() == seq![seq_len, n_heads, head_dim]
            &&& k.extents() == seq![seq_len, n_heads, head_dim]
            &&& v.extents() == seq![seq_len, n_heads, head_dim]
            &&& crate::shape::product(seq![seq_len, n_heads, head_dim]) <= usize::MAX
        },
{
}

impl CudaBackend {
    /// Starts an unmasked attention among the tokens of an image.
    pub fn vision_sdpa(
        &self,
        thread: &mut ThreadState,
        q: &Tensor,
        k: &Tensor,
        v: &Tensor,
        seq_len: usize,
        n_heads: usize,
        head_dim: usize,
    ) -> (step: Result<VisionAttention, Error>)
        ensures
            match vision_rejection(q, k, v, seq_len, n_heads, head_dim) {
                Some(e) => step == Err::<VisionAttention, Error>(e) && final(thread)@ == old(
                    thread,
                )@,
                None => exists|shape: Shape, output: Result<OutputTensor, Error>|
                    {
                        let dims = seq![1usize, seq_len, n_heads, head_dim];
                        &&& shape@ == dims
                        &&& #[trigger] crate::context::output_outcome(
                            old(thread)@,
                            final(thread)@,
                            self.ctx.device_id,
                            shape,
                            q.dtype,
                            output,
                        )
                        &&& match output {
                            Err(e) => step == Err::<VisionAttention, Error>(e),
                            Ok(o) => {
                                &&& step is Ok
                                &&& reshaped(q, &step->Ok_0.query, dims)
                                &&& reshaped(k, &step->Ok_0.key, dims)
                                &&& reshaped(v, &step->Ok_0.value, dims)
                                &&& step->Ok_0.output == o
                            },
                        }
                    },
            },
            step matches Ok(s) ==> {
                &&& q.storage.same_bytes(&s.query.storage)
                &&& k.storage.same_bytes(&s.key.storage)
                &&& v.storage.same_bytes(&s.value.storage)
                &&& s.query.extents() == seq![1usize, seq_len, n_heads, head_dim]
                &&& s.key.extents() == seq![1usize, seq_len, n_heads, head_dim]
                &&& s.value.extents() == seq![1usize, seq_len, n_heads, head_dim]
                &&& s.output.provides(
                    self.ctx.device_id,
                    q.dtype,
                    seq![1usize, seq_len, n_heads, head_dim],
                )
            },
    {
        let expected: Vec<usize> = dims_3(seq_len, n_heads, head_dim);
        if !same_dims(q.shape.dims(), &expected) || !same_dims(k.shape.dims(), &expected)
            || !same_dims(v.shape.dims(), &expected) {
            return Err(Error::Other(VISION_SHAPE_TEXT));
        }
        let query: Tensor = batched(q, seq_len, n_heads, head_dim)?;
        let key: Tensor = batched(k, seq_len, n_heads, head_dim)?;
        let value: Tensor = batched(v, seq_len, n_heads, head_dim)?;
        let shape: Shape = Shape::new(dims_4(1, seq_len, n_heads, head_dim));
        let ghost extents = shape;
        let output: Result<OutputTensor, Error> = self.ctx.allocate_output(thread, shape, q.dtype);
        assert(crate::context::output_outcome(
            old(thread)@,
            thread@,
            self.ctx.device_id,
            extents,
            q.dtype,
            output,
        ));
        match output {
            Ok(output) => Ok(VisionAttention { query, key, value, output }),
            Err(e) => Err(e),
        }
    }

    /// Goes on with a vision attention once its output is there.
    pub fn vision_sdpa_into(
        &self,
        thread: &ThreadState,
        query: &Tensor,
        key: &Tensor,
        value: &Tensor,
        output: &Tensor,
    ) -> (launch: Result<PendingLaunch<AttentionLaunch>, Error>)
        ensures
            crate::ops::attention::kv_attention_outcome(
                thread,
                &self.ctx,
                &(AttentionArgs {
                    query,
                    key,
                    value,
                    out: output,
                    mask: AttentionMask::Unmasked,
                    scale: crate::ops::attention::default_scale(query, 3),
                    policy: crate::ops::launch::default_launch_policy(),
                }).over_cache(),
                launch,
            ),
            launch matches Ok(p) ==> {
                &&& query.packed_at(self.ctx.device_id, p.launch.query, query.dtype, seq![p.launch.batch, p.launch.query_tokens, p.launch.query_heads, p.launch.head_dim])
                &&& key.packed_at(self.ctx.device_id, p.launch.key, query.dtype, seq![p.launch.batch, p.launch.key_capacity, p.launch.kv_heads, p.launch.head_dim])
                &&& value.packed_at(self.ctx.device_id, p.launch.value, query.dtype, seq![p.launch.batch, p.launch.key_capacity, p.launch.kv_heads, p.launch.head_dim])
                &&& output.packed_at(self.ctx.device_id, p.launch.output, query.dtype, seq![p.launch.batch, p.launch.query_tokens, p.launch.query_heads, p.launch.head_dim])
                &&& p.launch.scale == (crate::ops::AttentionScale::InverseSqrt { head_dim: query.extents()[3] })
                &&& p.launch.mask is Unmasked
                &&& p.launch.key_tokens == p.launch.key_capacity
                &&& p.policy == crate::ops::launch::default_launch_policy()
                &&& p.stream == self.ctx.stream
                &&& p.runtime == self.ctx.runtime
            },
    {
        attention(thread, &self.ctx, AttentionArgs::new(query, key, value, output))
    }

    /// Gives the result of an attention one row per token.
    pub fn attention_rows(&self, output: &Tensor, tokens: usize, n_heads: usize, head_dim: usize)
        -> (result: Result<Tensor, Error>)
        ensures
            match result {
                Ok(t) => {
                    &&& n_heads * head_dim <= usize::MAX
                    &&& reshaped(output, &t, seq![tokens, (n_heads * head_dim) as usize])
                },
                Err(e) => {
                    &&& e == Error::Other(RESHAPE_TEXT)
                    &&& n_heads * head_dim > usize::MAX || crate::shape::product(
                        seq![tokens, (n_heads * head_dim) as usize],
                    ) != crate::shape::product(output.extents()) || crate::shape::product(output.extents()) > usize::MAX
                },
            },
    {
        match n_heads.checked_mul(head_dim) {
            Some(width) => output.reshape(Shape::new(dims_2(tokens, width))),
            None => Err(Error::Other(RESHAPE_TEXT)),
        }
    }
}

/// Why an attention over a KV cache is refused before its output is asked
/// for, if it is.
pub open spec fn sdpa_rejection(
    device: usize,
    q: &Tensor,
    cache: KvView,
    layer_idx: usize,
    n_heads: usize,
    n_kv_heads: usize,
    head_dim: usize,
    kv_len: usize,
    max_seq_len: usize,
) -> Option<Error> {
    let dims = q.extents();
    if cache.device != device || cache.n_kv_heads != n_kv_heads || cache.head_dim != head_dim
        || cache.max_seq_len != max_seq_len {
        Some(Error::Other(KV_GEOMETRY_TEXT))
    } else if dims.len() != 3 || dims[1] != n_heads || dims[2] != head_dim || kv_len == 0 || kv_len
        > max_seq_len {
        Some(Error::Other(KV_SHAPE_TEXT))
    } else if kv_len < dims[0] {
        Some(Error::Other(KV_FEWER_TEXT))
    } else if cache.dtype is None {
        Some(Error::Other(KV_UNINITIALIZED_TEXT))
    } else if q.dtype != cache.dtype.unwrap() {
        Some(Error::DTypeMismatch { expected: cache.dtype.unwrap(), got: q.dtype })
    } else if crate::shape::product(dims) > usize::MAX {
        Some(Error::Other(RESHAPE_TEXT))
    } else if layer_idx >= cache.k.len() {
        Some(Error::KvLayer { layer: layer_idx, layers: cache.k.len() as usize })
    } else {
        None
    }
}

/// An attention over a cache is accepted exactly when cache and query have the
/// geometry that was named, the valid tokens lie within the cache and include
/// the query's, and the query has the type that the cache holds.
pub proof fn law_cached_attention_is_accepted_exactly_when_it_fits(
    device: usize,
    q: &Tensor,
    cache: KvView,
    layer_idx: usize,
    n_heads: usize,
    n_kv_heads: usize,
    head_dim: usize,
    kv_len: usize,
    max_seq_len: usize,
)
    ensures
        sdpa_rejection(device, q, cache, layer_idx, n_heads, n_kv_heads, head_dim, kv_len, max_seq_len) is None <==> {
            &&& cache.device == device
            &&& cache.n_kv_heads == n_kv_heads
            &&& cache.head_dim == head_dim
            &&& cache.max_seq_len == max_seq_len
            &&& q.extents().len() == 3
            &&& q.extents()[1] == n_heads
            &&& q.extents()[2] == head_dim
            &&& 0 < kv_len <= max_seq_len
            &&& q.extents()[0] <= kv_len
            &&& cache.dtype == Some(q.dtype)
            &&& crate::shape::product(q.extents()) <= usize::MAX
            &&& layer_idx < cache.k.len()
        },
{
}

/// How an attention over a KV cache starts.
pub open spec fn sdpa_outcome(
    before: ThreadView,
    after: ThreadView,
    device: usize,
    q: &Tensor,
    cache: KvView,
    layer_idx: usize,
    n_heads: usize,
    n_kv_heads: usize,
    head_dim: usize,
    kv_len: usize,
    max_seq_len: usize,
    step: Result<CachedAttention, Error>,
) -> bool {
    match sdpa_rejection(
        device,
        q,
        cache,
        layer_idx,
        n_heads,
        n_kv_heads,
        head_dim,
        kv_len,
        max_seq_len,
    ) {
        Some(e) => step == Err::<CachedAttention, Error>(e) && after == before,
        None => exists|shape: Shape, output: Result<OutputTensor, Error>|
            {
                let tokens = q.extents()[0];
                let dims = seq![1usize, tokens, n_heads, head_dim];
                let keys = seq![1usize, max_seq_len, n_kv_heads, head_dim];
                let bytes = cache.logical_bytes(q.dtype) as usize;
                &&& shape@ == dims
                &&& #[trigger] crate::context::output_outcome(
                    before,
                    after,
                    device,
                    shape,
                    q.dtype,
                    output,
                )
                &&& match output {
                    Err(e) => step == Err::<CachedAttention, Error>(e),
                    Ok(o) => {
                        &&& step is Ok
                        &&& reshaped(q, &step->Ok_0.query, dims)
                        &&& step->Ok_0.key.extents() == keys
                        &&& step->Ok_0.key.dtype == q.dtype
                        &&& step->Ok_0.key.cuda_range() == Some(
                            cache.k[layer_idx as int].part(0, bytes),
                        )
                        &&& step->Ok_0.value.extents() == keys
                        &&& step->Ok_0.value.dtype == q.dtype
                        &&& step->Ok_0.value.cuda_range() == Some(
                            cache.v[layer_idx as int].part(0, bytes),
                        )
                        &&& step->Ok_0.valid_key_tokens == kv_len
                        &&& step->Ok_0.query_start == kv_len - tokens
                        &&& step->Ok_0.output == o
                    },
                }
            },
    }
}

/// An attention over a cache reads the keys and values of its own layer, from
/// their start, and takes the query for the last tokens of what is valid.
pub proof fn law_cached_attention_reads_its_layer(
    before: ThreadView,
    after: ThreadView,
    device: usize,
    q: &Tensor,
    cache: KvView,
    layer_idx: usize,
    n_heads: usize,
    n_kv_heads: usize,
    head_dim: usize,
    kv_len: usize,
    max_seq_len: usize,
    step: Result<CachedAttention, Error>,
)
    requires
        sdpa_outcome(
            before,
            after,
            device,
            q,
            cache,
            layer_idx,
            n_heads,
            n_kv_heads,
            head_dim,
            kv_len,
            max_seq_len,
            step,
        ),
    ensures
        step matches Ok(s) ==> {
            &&& layer_idx < cache.k.len()
            &&& s.key.cuda_range() matches Some(range) && range.ptr == cache.k[layer_idx as int].ptr
                && range.device == cache.k[layer_idx as int].device
            &&& s.value.cuda_range() matches Some(range) && range.ptr == cache.v[layer_idx as int].ptr
                && range.device == cache.v[layer_idx as int].device
            &&& s.key.extents() == seq![1usize, cache.max_seq_len, cache.n_kv_heads, cache.head_dim]
            &&& s.value.extents() == s.key.extents()
            &&& Some(s.key.dtype) == cache.dtype
            &&& Some(s.value.dtype) == cache.dtype
            &&& q.storage.same_bytes(&s.query.storage)
            &&& s.query.extents() == seq![1usize, q.extents()[0], n_heads, head_dim]
            &&& q.extents() == seq![q.extents()[0], n_heads, head_dim]
            &&& s.query_start + q.extents()[0] == s.valid_key_tokens
            &&& s.valid_key_tokens == kv_len
            &&& 0 < kv_len <= cache.max_seq_len
            &&& s.output.provides(device, q.dtype, s.query.extents())
        },
        step is Err ==> after == before,
{
    if step is Ok {
        assert(q.extents() =~= seq![q.extents()[0], n_heads, head_dim]);
    }
}

impl CudaBackend {
    /// Starts a causal attention of the last tokens over a KV cache: during
    /// decode and during prefill alike.
    pub fn sdpa_with_cache(
        &self,
        thread: &mut ThreadState,
        q: &Tensor,
        cache: &CudaKVCache,
        layer_idx: usize,
        n_heads: usize,
        n_kv_heads: usize,
        head_dim: usize,
        kv_len: usize,
        max_seq_len: usize,
    ) -> (step: Result<CachedAttention, Error>)
        ensures
            sdpa_outcome(
                old(thread)@,
                final(thread)@,
                self.ctx.device_id,
                q,
                cache@,
                layer_idx,
                n_heads,
                n_kv_heads,
                head_dim,
                kv_len,
                max_seq_len,
                step,
            ),
    {
        if cache.device_id() != self.ctx.device_id || cache.n_kv_heads() != n_kv_heads
            || cache.head_dim() != head_dim || cache.max_seq_len() != max_seq_len {
            return Err(Error::Other(KV_GEOMETRY_TEXT));
        }
        let dims: &Vec<usize> = q.shape.dims();
        if dims.len() != 3 || dims[1] != n_heads || dims[2] != head_dim || kv_len == 0 || kv_len
            > max_seq_len {
            return Err(Error::Other(KV_SHAPE_TEXT));
        }
        let query_tokens: usize = dims[0];
        if kv_len < query_tokens {
            return Err(Error::Other(KV_FEWER_TEXT));
        }
        let query_start: usize = kv_len - query_tokens;
        let dtype: DType = match cache.dtype() {
            Some(dtype) => dtype,
            None => {
                return Err(Error::Other(KV_UNINITIALIZED_TEXT));
            },
        };
        if q.dtype != dtype {
            return Err(Error::DTypeMismatch { expected: dtype, got: q.dtype });
        }
        assert(q.extents() =~= seq![query_tokens, n_heads, head_dim]);
        let query: Tensor = batched(q, query_tokens, n_heads, head_dim)?;
        let key: Tensor = cache.key_tensor(layer_idx, dtype)?;
        let value: Tensor = cache.value_tensor(layer_idx, dtype)?;
        let shape: Shape = Shape::new(dims_4(1, query_tokens, n_heads, head_dim));
        let ghost extents = shape;
        let output: Result<OutputTensor, Error> = self.ctx.allocate_output(thread, shape, dtype);
        assert(crate::context::output_outcome(
            old(thread)@,
            thread@,
            self.ctx.device_id,
            extents,
            dtype,
            output,
        ));
        match output {
            Ok(output) => Ok(
                CachedAttention {
                    query,
                    key,
                    value,
                    valid_key_tokens: kv_len,
                    query_start,
                    output,
                },
            ),
            Err(e) => Err(e),
        }
    }

    /// Goes on with an attention over a KV cache once its output is there.
    pub fn sdpa_with_cache_into(
        &self,
        thread: &ThreadState,
        query: &Tensor,
        key: &Tensor,
        value: &Tensor,
        valid_key_tokens: usize,
        query_start: usize,
        output: &Tensor,
    ) -> (launch: Result<PendingLaunch<AttentionLaunch>, Error>)
        ensures
            crate::ops::attention::kv_attention_outcome(
                thread,
                &self.ctx,
                &(KvCacheAttentionArgs {
                    query,
                    key_cache: key,
                    value_cache: value,
                    out: output,
                    valid_key_tokens,
                    query_start,
                    mask: AttentionMask::Causal,
                    scale: crate::ops::attention::default_scale(query, 3),
                    policy: crate::ops::launch::default_launch_policy(),
                }),
                launch,
            ),
            launch matches Ok(p) ==> {
                &&& query.packed_at(self.ctx.device_id, p.launch.query, query.dtype, seq![p.launch.batch, p.launch.query_tokens, p.launch.query_heads, p.launch.head_dim])
                &&& key.packed_at(self.ctx.device_id, p.launch.key, query.dtype, seq![p.launch.batch, p.launch.key_capacity, p.launch.kv_heads, p.launch.head_dim])
                &&& value.packed_at(self.ctx.device_id, p.launch.value, query.dtype, seq![p.launch.batch, p.launch.key_capacity, p.launch.kv_heads, p.launch.head_dim])
                &&& output.packed_at(self.ctx.device_id, p.launch.output, query.dtype, seq![p.launch.batch, p.launch.query_tokens, p.launch.query_heads, p.launch.head_dim])
                &&& p.launch.scale == (crate::ops::AttentionScale::InverseSqrt { head_dim: query.extents()[3] })
                &&& p.launch.mask is Causal
                &&& p.launch.key_tokens == valid_key_tokens as i64
                &&& p.launch.query_start == query_start as i64
                &&& p.policy == crate::ops::launch::default_launch_policy()
                &&& p.stream == self.ctx.stream
                &&& p.runtime == self.ctx.runtime
            },
    {
        let base: KvCacheAttentionArgs = KvCacheAttentionArgs::new(query, key, value, output);
        kv_cache_attention(
            thread,
            &self.ctx,
            KvCacheAttentionArgs {
                valid_key_tokens,
                query_start,
                mask: AttentionMask::Causal,
                ..base
            },
        )
    }

    /// Starts the attention of a decoded token over a KV cache.
    pub fn sdpa_decode(
        &self,
        thread: &mut ThreadState,
        q: &Tensor,
        cache: &CudaKVCache,
        layer_idx: usize,
        n_heads: usize,
        n_kv_heads: usize,
        head_dim: usize,
        kv_len: usize,
        max_seq_len: usize,
    ) -> (step: Result<CachedAttention, Error>)
        ensures
            sdpa_outcome(
                old(thread)@,
                final(thread)@,
                self.ctx.device_id,
                q,
                cache@,
                layer_idx,
                n_heads,
                n_kv_heads,
                head_dim,
                kv_len,
                max_seq_len,
                step,
            ),
    {
        self.sdpa_with_cache(
            thread,
            q,
            cache,
            layer_idx,
            n_heads,
            n_kv_heads,
            head_dim,
            kv_len,
            max_seq_len,
        )
    }

    /// Starts the attention of the tokens of a prompt over a KV cache.
    pub fn sdpa_prefill(
        &self,
        thread: &mut ThreadState,
        q: &Tensor,
        cache: &CudaKVCache,
        layer_idx: usize,
        n_heads: usize,
        n_kv_heads: usize,
        head_dim: usize,
        kv_len: usize,
        max_seq_len: usize,
    ) -> (step: Result<CachedAttention, Error>)
        ensures
            sdpa_outcome(
                old(thread)@,
                final(thread)@,
                self.ctx.device_id,
                q,
                cache@,
                layer_idx,
                n_heads,
                n_kv_heads,
                head_dim,
                kv_len,
                max_seq_len,
                step,
            ),
    {
        self.sdpa_with_cache(
            thread,
            q,
            cache,
            layer_idx,
            n_heads,
            n_kv_heads,
            head_dim,
            kv_len,
            max_seq_len,
        )
    }

    /// Appends keys and values to a layer of a cache.
    pub fn kv_append(
        &self,
        cache: &mut CudaKVCache,
        layer_idx: usize,
        k: &Tensor,
        v: &Tensor,
        append_len: usize,
    ) -> (copies: Result<KvAppend, Error>)
        ensures
            match copies {
                Ok(c) => {
                    &&& old(cache)@.append_rejection(self.ctx.device_id, layer_idx, k, v, append_len)
                        is None
                    &&& c == old(cache)@.append_copies(
                        self.ctx.stream,
                        layer_idx,
                        k,
                        v,
                        append_len,
                    )
                    &&& final(cache)@ == (KvView { dtype: Some(k.dtype), ..old(cache)@ })
                },
                Err(e) => {
                    &&& old(cache)@.append_rejection(self.ctx.device_id, layer_idx, k, v, append_len)
                        == Some(e@)
                    &&& final(cache)@ == old(cache)@
                },
            },
    {
        cache.append(&self.ctx, layer_idx, k, v, append_len)
    }
}

} // verus!
