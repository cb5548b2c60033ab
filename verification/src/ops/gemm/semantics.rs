//! The members of the GEMM family.
use std::rc::Rc;

use vstd::prelude::*;

use crate::context::{CudaContext, SynchronizeCall};
use crate::error::Error;
use crate::ops::gemm::contracts::{normalize, GemmArgs, Normalized, PlanApi, Semantic};
use crate::ops::gemm::execution::{execute, prepare, Execution, PrepareStep};
#[allow(unused_imports)]
use crate::ops::gemm::execution::CACHE_MISS_TEXT;
use crate::ops::gemm::instance::SharedExecution;
#[allow(unused_imports)]
use crate::dtype::DType;
#[allow(unused_imports)]
use crate::scalar::F32_ONE_BITS;
use crate::tensor::Tensor;
use crate::workspace::ThreadState;
#[allow(unused_imports)]
use crate::workspace::{ThreadView, WorkspaceView};

verus! {

/// A product to which a bias is added.
#[derive(Debug)]
pub struct GemmBiasArgs<'a> {
    pub gemm: GemmArgs<'a>,
    pub bias: &'a Tensor,
}

/// A product to which a bias and then GELU is applied.
#[derive(Debug)]
pub struct GemmBiasGeluArgs<'a> {
    pub gemm: GemmArgs<'a>,
    pub bias: &'a Tensor,
}

/// A product whose left half of columns gates the right half.
#[derive(Debug)]
pub struct GemmGegluArgs<'a> {
    pub gemm: GemmArgs<'a>,
}

/// `step` is what a request of the family comes to: the first refusal of its
/// arguments, or else what preparing it in the thread's state gives.
pub open spec fn begins(
    before: ThreadView,
    after: ThreadView,
    ctx: &CudaContext,
    args: &GemmArgs<'_>,
    semantic: Semantic,
    api: PlanApi,
    bias: Option<&Tensor>,
    one_shot: bool,
    step: Result<PrepareStep, Error>,
) -> bool {
    match crate::ops::gemm::contracts::gemm_rejection(ctx.device_id, args, semantic, bias) {
        Some(e) => step == Err::<PrepareStep, Error>(e) && after == before,
        None => exists|n: Normalized|
            {
                &&& #[trigger] crate::ops::gemm::contracts::describes(&n, ctx, args, api, bias)
                &&& match step {
                    Ok(s) => crate::ops::gemm::execution::preparation_rejection(before, &n) is None && crate::ops::gemm::execution::prepares(
                        before,
                        after,
                        ctx,
                        &n,
                        one_shot,
                        &s,
                    ),
                    Err(e) => crate::ops::gemm::execution::preparation_rejection(before, &n) == Some(e) && after == before,
                }
            },
    }
}

/// The preparation that a one-shot execution starts with.
pub open spec fn step_of(execution: Result<Execution, Error>) -> Result<PrepareStep, Error> {
    match execution {
        Ok(x) => Ok(x.step),
        Err(e) => Err(e),
    }
}

/// The stream is waited for after a new instance was enqueued outside a capture.
pub open spec fn waits_if_new(
    before: ThreadView,
    ctx: &CudaContext,
    execution: Result<Execution, Error>,
) -> bool {
    execution matches Ok(x) ==> x.synchronize == (if x.step is Create && before.target is None {
        Some(SynchronizeCall { stream: ctx.stream })
    } else {
        None
    })
}

/// Starts to compute `out = a b`.
pub fn gemm(thread: &mut ThreadState, ctx: &CudaContext, args: GemmArgs<'_>) -> (execution: Result<
    Execution,
    Error,
>)
    ensures
        begins(
            old(thread)@,
            final(thread)@,
            ctx,
            &args,
            Semantic::Gemm,
            PlanApi::Gemm,
            None,
            true,
            step_of(execution),
        ),
        waits_if_new(old(thread)@, ctx, execution),
{
    let n: Normalized = normalize(ctx, args, Semantic::Gemm, PlanApi::gemm(), None)?;
    let ghost request = n;
    assert(crate::ops::gemm::contracts::describes(&request, ctx, &args, PlanApi::Gemm, None));
    execute(thread, ctx, n)
}

/// Starts to prepare `out = a b`.
pub fn prepare_gemm(thread: &mut ThreadState, ctx: &CudaContext, args: GemmArgs<'_>) -> (step:
    Result<PrepareStep, Error>)
    ensures
        begins(
            old(thread)@,
            final(thread)@,
            ctx,
            &args,
            Semantic::Gemm,
            PlanApi::Gemm,
            None,
            false,
            step,
        ),
{
    let n: Normalized = normalize(ctx, args, Semantic::Gemm, PlanApi::gemm(), None)?;
    let ghost request = n;
    assert(crate::ops::gemm::contracts::describes(&request, ctx, &args, PlanApi::Gemm, None));
    prepare(thread, ctx, n)
}

/// Starts to compute `out = a b + bias`.
pub fn gemm_bias(thread: &mut ThreadState, ctx: &CudaContext, args: GemmBiasArgs<'_>) -> (execution: Result<
    Execution,
    Error,
>)
    ensures
        begins(
            old(thread)@,
            final(thread)@,
            ctx,
            &args.gemm,
            Semantic::GemmBias,
            PlanApi::GemmBias,
            Some(args.bias),
            true,
            step_of(execution),
        ),
        waits_if_new(old(thread)@, ctx, execution),
{
    let ghost asked = args;
    let n: Normalized = normalize(
        ctx,
        args.gemm,
        Semantic::GemmBias,
        PlanApi::gemm_bias(),
        Some(args.bias),
    )?;
    let ghost request = n;
    assert(crate::ops::gemm::contracts::describes(&request, ctx, &asked.gemm, PlanApi::GemmBias, Some(asked.bias)));
    execute(thread, ctx, n)
}

/// Starts to prepare `out = a b + bias`.
pub fn prepare_gemm_bias(thread: &mut ThreadState, ctx: &CudaContext, args: GemmBiasArgs<'_>) -> (step: Result<
    PrepareStep,
    Error,
>)
    ensures
        begins(
            old(thread)@,
            final(thread)@,
            ctx,
            &args.gemm,
            Semantic::GemmBias,
            PlanApi::GemmBias,
            Some(args.bias),
            false,
            step,
        ),
{
    let ghost asked = args;
    let n: Normalized = normalize(
        ctx,
        args.gemm,
        Semantic::GemmBias,
        PlanApi::gemm_bias(),
        Some(args.bias),
    )?;
    let ghost request = n;
    assert(crate::ops::gemm::contracts::describes(&request, ctx, &asked.gemm, PlanApi::GemmBias, Some(asked.bias)));
    prepare(thread, ctx, n)
}

/// Starts to compute `out = gelu(a b + bias)`.
pub fn gemm_bias_gelu(thread: &mut ThreadState, ctx: &CudaContext, args: GemmBiasGeluArgs<'_>) -> (execution: Result<
    Execution,
    Error,
>)
    ensures
        begins(
            old(thread)@,
            final(thread)@,
            ctx,
            &args.gemm,
            Semantic::GemmBiasGelu,
            PlanApi::GemmBiasGelu,
            Some(args.bias),
            true,
            step_of(execution),
        ),
        waits_if_new(old(thread)@, ctx, execution),
{
    let ghost asked = args;
    let n: Normalized = normalize(
        ctx,
        args.gemm,
        Semantic::GemmBiasGelu,
        PlanApi::gemm_bias_gelu(),
        Some(args.bias),
    )?;
    let ghost request = n;
    assert(crate::ops::gemm::contracts::describes(&request, ctx, &asked.gemm, PlanApi::GemmBiasGelu, Some(asked.bias)));
    execute(thread, ctx, n)
}

/// Starts to prepare `out = gelu(a b + bias)`.
pub fn prepare_gemm_bias_gelu(thread: &mut ThreadState, ctx: &CudaContext, args: GemmBiasGeluArgs<'_>) -> (step: Result<
    PrepareStep,
    Error,
>)
    ensures
        begins(
            old(thread)@,
            final(thread)@,
            ctx,
            &args.gemm,
            Semantic::GemmBiasGelu,
            PlanApi::GemmBiasGelu,
            Some(args.bias),
            false,
            step,
        ),
{
    let ghost asked = args;
    let n: Normalized = normalize(
        ctx,
        args.gemm,
        Semantic::GemmBiasGelu,
        PlanApi::gemm_bias_gelu(),
        Some(args.bias),
    )?;
    let ghost request = n;
    assert(crate::ops::gemm::contracts::describes(&request, ctx, &asked.gemm, PlanApi::GemmBiasGelu, Some(asked.bias)));
    prepare(thread, ctx, n)
}

/// Starts to compute `out = gelu(a b_left) * (a b_right)`.
pub fn gemm_geglu(thread: &mut ThreadState, ctx: &CudaContext, args: GemmGegluArgs<'_>) -> (execution: Result<
    Execution,
    Error,
>)
    ensures
        begins(
            old(thread)@,
            final(thread)@,
            ctx,
            &args.gemm,
            Semantic::GemmGeglu,
            PlanApi::GemmGeglu,
            None,
            true,
            step_of(execution),
        ),
        waits_if_new(old(thread)@, ctx, execution),
{
    let ghost asked = args;
    let n: Normalized = normalize(
        ctx,
        args.gemm,
        Semantic::GemmGeglu,
        PlanApi::gemm_geglu(),
        None,
    )?;
    let ghost request = n;
    assert(crate::ops::gemm::contracts::describes(&request, ctx, &asked.gemm, PlanApi::GemmGeglu, None));
    execute(thread, ctx, n)
}

/// Starts to prepare `out = gelu(a b_left) * (a b_right)`.
pub fn prepare_gemm_geglu(thread: &mut ThreadState, ctx: &CudaContext, args: GemmGegluArgs<'_>) -> (step: Result<
    PrepareStep,
    Error,
>)
    ensures
        begins(
            old(thread)@,
            final(thread)@,
            ctx,
            &args.gemm,
            Semantic::GemmGeglu,
            PlanApi::GemmGeglu,
            None,
            false,
            step,
        ),
{
    let ghost asked = args;
    let n: Normalized = normalize(
        ctx,
        args.gemm,
        Semantic::GemmGeglu,
        PlanApi::gemm_geglu(),
        None,
    )?;
    let ghost request = n;
    assert(crate::ops::gemm::contracts::describes(&request, ctx, &asked.gemm, PlanApi::GemmGeglu, None));
    prepare(thread, ctx, n)
}

/// A tuned choice belongs to the problem, not to one allocation: requests
/// that agree in types, extents, encoding, alignments and in whether their
/// scales are trivial pose one and the same problem, whatever their addresses
/// and scale values.
pub proof fn law_problem_ignores_addresses_and_scale_values(
    x: &GemmArgs<'_>,
    x_bias: Option<&Tensor>,
    y: &GemmArgs<'_>,
    y_bias: Option<&Tensor>,
)
    requires
        x.a.dtype == y.a.dtype,
        x.b.dtype == y.b.dtype,
        x.out.dtype == y.out.dtype,
        x.quantization == y.quantization,
        x.a.extents() == y.a.extents(),
        x.b.extents() == y.b.extents(),
        crate::ops::gemm::contracts::alignment(crate::ops::binding::bound_range(x.a).ptr) == crate::ops::gemm::contracts::alignment(crate::ops::binding::bound_range(y.a).ptr),
        crate::ops::gemm::contracts::alignment(crate::ops::binding::bound_range(x.b).ptr) == crate::ops::gemm::contracts::alignment(crate::ops::binding::bound_range(y.b).ptr),
        crate::ops::gemm::contracts::alignment(crate::ops::binding::bound_range(x.out).ptr) == crate::ops::gemm::contracts::alignment(crate::ops::binding::bound_range(y.out).ptr),
        crate::ops::gemm::contracts::optional_alignment(x.a_scales) == crate::ops::gemm::contracts::optional_alignment(y.a_scales),
        crate::ops::gemm::contracts::optional_alignment(x.b_scales) == crate::ops::gemm::contracts::optional_alignment(y.b_scales),
        crate::ops::gemm::contracts::optional_alignment(x_bias) == crate::ops::gemm::contracts::optional_alignment(y_bias),
        (x.alpha.bits == F32_ONE_BITS) == (y.alpha.bits == F32_ONE_BITS),
        (x.output_scale.bits == F32_ONE_BITS) == (y.output_scale.bits == F32_ONE_BITS),
    ensures
        crate::ops::gemm::contracts::gemm_spec(x, x_bias) == crate::ops::gemm::contracts::gemm_spec(y, y_bias),
{
}

/// The encoding of the operands is part of the problem.
pub proof fn law_quantization_is_part_of_the_problem(
    x: &GemmArgs<'_>,
    x_bias: Option<&Tensor>,
    y: &GemmArgs<'_>,
    y_bias: Option<&Tensor>,
)
    ensures
        crate::ops::gemm::contracts::gemm_spec(x, x_bias) == crate::ops::gemm::contracts::gemm_spec(y, y_bias) ==> x.quantization == y.quantization,
{
}

/// One instance never serves requests that differ in an address, a stream, a
/// scale value or the version of the weight.
pub proof fn law_instances_are_bound_to_their_operands(
    ctx: &CudaContext,
    x: &Normalized,
    x_args: &GemmArgs<'_>,
    other: &CudaContext,
    y: &Normalized,
    y_args: &GemmArgs<'_>,
    api: PlanApi,
    bias: Option<&Tensor>,
)
    requires
        crate::ops::gemm::contracts::describes(x, ctx, x_args, api, bias),
        crate::ops::gemm::contracts::describes(y, other, y_args, api, bias),
        crate::ops::gemm::execution::instance_key(x) == crate::ops::gemm::execution::instance_key(y),
    ensures
        crate::ops::binding::bound_range(x_args.a).ptr == crate::ops::binding::bound_range(y_args.a).ptr,
        crate::ops::binding::bound_range(x_args.b).ptr == crate::ops::binding::bound_range(y_args.b).ptr,
        crate::ops::binding::bound_range(x_args.out).ptr == crate::ops::binding::bound_range(y_args.out).ptr,
        ctx.stream.handle == other.stream.handle,
        x_args.alpha == y_args.alpha,
        x_args.output_scale == y_args.output_scale,
        x_args.weight_version == y_args.weight_version,
        crate::ops::binding::optional_ptr(x_args.a_scales) == crate::ops::binding::optional_ptr(y_args.a_scales),
        crate::ops::binding::optional_ptr(x_args.b_scales) == crate::ops::binding::optional_ptr(y_args.b_scales),
        x_args.quantization == y_args.quantization,
        x_args.a.extents()[0] as i64 == y_args.a.extents()[0] as i64,
        x_args.a.extents()[1] as i64 == y_args.a.extents()[1] as i64,
        x_args.b.extents()[1] as i64 == y_args.b.extents()[1] as i64,
        x_args.policy.graph_safe == y_args.policy.graph_safe,
        x_args.policy.deterministic == y_args.policy.deterministic,
        x_args.policy.execution_mode == y_args.policy.execution_mode,
{
}

/// The alignment recorded for an address divides it, is a power of two up to
/// 256, and is the largest such.
pub proof fn law_alignment_is_the_largest_power_of_two(ptr: usize, other: u32)
    requires
        other == 1 || other == 2 || other == 4 || other == 8 || other == 16 || other == 32 || other
            == 64 || other == 128 || other == 256,
        ptr % (other as usize) == 0,
    ensures
        ptr as int % crate::ops::gemm::contracts::alignment(ptr) as int == 0,
        other <= crate::ops::gemm::contracts::alignment(ptr),
{
}

/// What was prepared in a workspace is found again by every later traversal
/// of it that makes the same request, and then nothing new is created.
pub proof fn law_prepared_requests_are_reused(
    thread: ThreadView,
    workspace: WorkspaceView,
    request: &Normalized,
    one_shot: bool,
    instance: Rc<SharedExecution>,
    ctx: &CudaContext,
    after: ThreadView,
    step: &PrepareStep,
)
    requires
        crate::ops::gemm::execution::terminable(request.policy.cache_dir),
        thread.active is None,
        crate::ops::gemm::execution::prepares(
            thread.entering(
                thread.entering(workspace, true).storing(
                    crate::ops::gemm::execution::instance_key(request),
                    crate::ops::gemm::execution::request_terms(request),
                    instance,
                ).arena_left(workspace),
                false,
            ),
            after,
            ctx,
            request,
            one_shot,
            step,
        ),
    ensures
        step matches PrepareStep::Ready(p) && p.shared == instance,
        after.created == thread.created,
{
}

/// Outside any workspace every preparation creates an instance of its own,
/// whatever was executed before.
pub proof fn law_preparing_outside_a_workspace_creates(
    thread: ThreadView,
    request: &Normalized,
    ctx: &CudaContext,
    after: ThreadView,
    step: &PrepareStep,
)
    requires
        thread.active is None,
        crate::ops::gemm::execution::prepares(thread, after, ctx, request, false, step),
    ensures
        step matches PrepareStep::Create(create) && !create.reusable,
        after == thread,
{
}

/// Outside any workspace the instance of a one-shot request serves only the
/// request that it was created for: one that asks for other tuning, another fallback, another
/// recipe cache or another reference is created anew.
pub proof fn law_eager_instances_serve_only_their_request(
    thread: ThreadView,
    request: &Normalized,
    terms: crate::ops::gemm::execution::CreationTerms,
    instance: Rc<SharedExecution>,
)
    requires
        thread.active is None,
        terms != crate::ops::gemm::execution::request_terms(request),
    ensures
        thread.storing(
            crate::ops::gemm::execution::instance_key(request),
            terms,
            instance,
        ).cached(
            crate::ops::gemm::execution::instance_key(request),
            crate::ops::gemm::execution::request_terms(request),
        ) == thread.cached(
            crate::ops::gemm::execution::instance_key(request),
            crate::ops::gemm::execution::request_terms(request),
        ),
        thread.storing(
            crate::ops::gemm::execution::instance_key(request),
            crate::ops::gemm::execution::request_terms(request),
            instance,
        ).cached(
            crate::ops::gemm::execution::instance_key(request),
            crate::ops::gemm::execution::request_terms(request),
        ) == Some(instance),
{
}

/// During the capture of a traversal, a request that was not prepared is
/// refused and nothing is created.
pub proof fn law_unprepared_requests_are_refused_in_a_traversal(
    thread: ThreadView,
    workspace: WorkspaceView,
    request: &Normalized,
)
    requires
        crate::ops::gemm::execution::terminable(request.policy.cache_dir),
        !workspace.instances.dom().contains(crate::ops::gemm::execution::instance_key(request)),
    ensures
        crate::ops::gemm::execution::preparation_rejection(thread.entering(workspace, false), request) == Some(
            Error::Other(CACHE_MISS_TEXT),
        ),
{
}

/// A capture keeps every instance it uses, and keeps it once.
pub proof fn law_capture_keeps_what_it_uses(thread: ThreadView, instance: Rc<SharedExecution>)
    requires
        thread.target is Some,
        crate::workspace::distinct(thread.captured),
    ensures
        crate::workspace::holds(thread.retaining(instance).captured, &instance),
        crate::workspace::distinct(thread.retaining(instance).captured),
        thread.retaining(instance).retaining(instance) == thread.retaining(instance),
{
    let kept = thread.retaining(instance).captured;
    if !crate::workspace::holds(thread.captured, &instance) {
        assert(kept[thread.captured.len() as int].raw == instance.raw);
        assert forall|i: int, j: int| 0 <= i < j < kept.len() implies (#[trigger] kept[i]).raw != (
        #[trigger] kept[j]).raw by {
            if j == thread.captured.len() {
                assert(kept[i] == thread.captured[i]);
            }
        }
    }
}

/// An instance that is created for a request of the family is made for exactly
/// that request: each operand in its own role, the member of the family that
/// was asked for, the policy and the references as they were given.
pub proof fn law_created_instances_are_made_for_their_request(
    before: ThreadView,
    after: ThreadView,
    ctx: &CudaContext,
    args: &GemmArgs<'_>,
    semantic: Semantic,
    api: PlanApi,
    bias: Option<&Tensor>,
    one_shot: bool,
    step: Result<PrepareStep, Error>,
)
    requires
        begins(before, after, ctx, args, semantic, api, bias, one_shot, step),
    ensures
        step matches Ok(PrepareStep::Create(c)) ==> {
            &&& args.a.packed_at(ctx.device_id, c.key.bindings.a, args.a.dtype, seq![c.key.spec.m, c.key.spec.k])
            &&& args.b.packed_at(ctx.device_id, c.key.bindings.b, args.a.dtype, seq![c.key.spec.k, c.key.spec.n])
            &&& args.out.starts_at(ctx.device_id, c.key.bindings.output)
            &&& args.out.holds(ctx.device_id, args.out.dtype, args.out.extents())
            &&& args.out.extents()[0] == args.a.extents()[0]
            &&& semantic is GemmGeglu ==> args.b.extents()[1] == 2 * args.out.extents()[1]
            &&& !(semantic is GemmGeglu) ==> args.b.extents()[1] == args.out.extents()[1]
            &&& args.a_scales matches Some(t) ==> t.packed_at(ctx.device_id, c.key.bindings.a_scales, DType::F32, seq![c.key.spec.m])
            &&& args.a_scales is None ==> c.key.bindings.a_scales == 0
            &&& args.b_scales matches Some(t) ==> t.packed_at(ctx.device_id, c.key.bindings.b_scales, DType::F32, seq![c.key.spec.n])
            &&& args.b_scales is None ==> c.key.bindings.b_scales == 0
            &&& bias matches Some(t) ==> t.starts_at(ctx.device_id, c.key.bindings.bias) && t.extents() == seq![args.b.extents()[1]]
            &&& bias matches Some(t) ==> t.dtype == (if args.quantization is Unquantized { args.a.dtype } else { args.out.dtype })
            &&& bias is None ==> c.key.bindings.bias == 0
            &&& c.key.bindings.alpha == args.alpha
            &&& c.key.bindings.output_scale == args.output_scale
            &&& c.key.bindings.weight_version == args.weight_version
            &&& c.key.bindings.stream == ctx.stream.handle
            &&& c.key.spec.a_dtype == args.a.dtype.code()
            &&& c.key.spec.b_dtype == args.b.dtype.code()
            &&& c.key.spec.output_dtype == args.out.dtype.code()
            &&& c.key.spec.accumulation_dtype == (if args.quantization is W8A8 { DType::I32 } else { DType::F32 }).code()
            &&& args.quantization is Unquantized <==> c.key.spec.quantization == 0
            &&& args.quantization is Fp8UnitScale <==> c.key.spec.quantization == 1
            &&& args.quantization is Fp8 <==> c.key.spec.quantization == 2
            &&& args.quantization is W8A8 <==> c.key.spec.quantization == 3
            &&& c.key.spec.a_alignment == crate::ops::gemm::contracts::alignment(c.key.bindings.a)
            &&& c.key.spec.b_alignment == crate::ops::gemm::contracts::alignment(c.key.bindings.b)
            &&& c.key.spec.output_alignment == crate::ops::gemm::contracts::alignment(c.key.bindings.output)
            &&& args.a_scales is Some ==> c.key.spec.a_scales_alignment == crate::ops::gemm::contracts::alignment(c.key.bindings.a_scales)
            &&& args.b_scales is Some ==> c.key.spec.b_scales_alignment == crate::ops::gemm::contracts::alignment(c.key.bindings.b_scales)
            &&& bias is Some ==> c.key.spec.bias_alignment == crate::ops::gemm::contracts::alignment(c.key.bindings.bias)
            &&& c.key.spec.unit_alpha <==> args.alpha.bits == 0x3f80_0000
            &&& c.key.spec.unit_output_scale <==> args.output_scale.bits == 0x3f80_0000
            &&& c.key.api == api
            &&& c.runtime == ctx.runtime
            &&& c.stream == ctx.stream
            &&& c.reusable == one_shot
            &&& c.policy.workspace_limit == args.policy.workspace_limit as u64
            &&& c.policy.online_tune == 1 <==> args.policy.online_tune
            &&& c.policy.allow_fallback == 1 <==> args.policy.allow_fallback
            &&& c.policy.graph_safe == 1 <==> args.policy.graph_safe
            &&& c.policy.deterministic == 1 <==> args.policy.deterministic
            &&& c.policy.execution_mode == 1 <==> args.policy.execution_mode is GraphReplay
            &&& c.policy.execution_mode == 0 <==> args.policy.execution_mode is Eager
            &&& c.policy.cache_dir == args.policy.cache_dir
            &&& (c.key.workspace_limit, c.key.graph_safe, c.key.deterministic, c.key.execution_mode) == (c.policy.workspace_limit, c.policy.graph_safe, c.policy.deterministic, c.policy.execution_mode)
            &&& c.tuning.execution == c.key.bindings
            &&& args.validation_reference matches Some(r) ==> (c.tuning.original_a, c.tuning.original_b, c.tuning.original_bias) == (r.a, r.b, r.bias)
            &&& args.validation_reference matches Some(r) ==> (c.tuning.original_a_len, c.tuning.original_b_len, c.tuning.original_bias_len) == (r.a_len as u64, r.b_len as u64, r.bias_len as u64)
            &&& c.tuning.reference_kind == 1 <==> args.validation_reference is Some
            &&& args.validation_reference is None ==> c.tuning.original_a == 0 && c.tuning.original_b == 0 && c.tuning.original_bias == 0
            &&& exists|n: Normalized| n.storage == c.storage && #[trigger] crate::ops::gemm::contracts::describes(&n, ctx, args, api, bias)
        },
        step matches Ok(PrepareStep::Create(_)) ==> after == before,
        step is Err ==> after == before,
{
    if step is Ok && step->Ok_0 is Create {
        let n = choose|n: Normalized|
            {
                &&& #[trigger] crate::ops::gemm::contracts::describes(&n, ctx, args, api, bias)
                &&& crate::ops::gemm::execution::prepares(before, after, ctx, &n, one_shot, &step->Ok_0)
            };
        crate::ops::gemm::contracts::law_requests_bind_each_operand_to_its_role(ctx, args, semantic, api, bias, &n);
    }
}

/// An instance that is made holds what the request named, under the handles
/// that the creation gave, and submitting it submits that instance to the
/// stream it was made for.
pub proof fn law_made_instances_hold_what_was_asked(
    create: crate::ops::gemm::execution::CreateRequest,
    plan: usize,
    summary: String,
    raw: usize,
)
    ensures
        ({
            let made = create.made(plan, summary, raw);
            &&& made.api == create.key.api
            &&& made.raw == raw
            &&& made.plan == plan
            &&& made.summary == summary
            &&& made.stream == create.stream
            &&& made.storage == create.storage
        }),
{
}

/// A request is refused in a thread exactly where its cache path cannot be
/// passed on, or where it was not prepared and nothing may be created.
pub proof fn law_requests_go_on_where_they_are_prepared_or_may_be(
    thread: ThreadView,
    request: &Normalized,
)
    ensures
        crate::ops::gemm::execution::preparation_rejection(thread, request) is None <==> {
            &&& (request.policy.cache_dir matches Some(path) ==> forall|i: int|
                0 <= i < path@.len() ==> #[trigger] path@[i] != '\0')
            &&& thread.prepared(crate::ops::gemm::execution::instance_key(request)) is Some || thread.preparing
                || thread.active is None
        },
{
}

/// A one-shot execution waits for its context's stream exactly after a new
/// instance outside a capture.
pub proof fn law_executions_wait_only_for_new_instances(
    before: ThreadView,
    ctx: &CudaContext,
    execution: Result<Execution, Error>,
)
    requires
        waits_if_new(before, ctx, execution),
    ensures
        execution matches Ok(x) ==> (x.synchronize is Some <==> x.step is Create && before.target is None),
        execution matches Ok(x) ==> (x.synchronize matches Some(call) ==> call.stream == ctx.stream),
{
}

/// An instance that serves a request is the one that was kept for it, and a
/// running capture keeps it; nothing is created then.
pub proof fn law_served_requests_use_the_kept_instance(
    before: ThreadView,
    after: ThreadView,
    ctx: &CudaContext,
    request: &Normalized,
    one_shot: bool,
    step: &PrepareStep,
)
    requires
        crate::ops::gemm::execution::prepares(before, after, ctx, request, one_shot, step),
    ensures
        step matches PrepareStep::Ready(p) ==> {
            &&& before.active is Some ==> before.prepared(crate::ops::gemm::execution::instance_key(request)) == Some(p.shared)
            &&& before.active is None ==> one_shot && before.cached(
                crate::ops::gemm::execution::instance_key(request),
                crate::ops::gemm::execution::request_terms(request),
            ) == Some(p.shared)
            &&& before.target is Some ==> crate::workspace::holds(after.captured, &p.shared)
            &&& after.active == before.active && after.created == before.created && after.eager == before.eager
        },
        step is Ready <==> crate::ops::gemm::execution::serving(before, request, one_shot) is Some,
{
    if step is Ready {
        let instance = step->Ready_0.shared;
        if before.target is Some && !crate::workspace::holds(before.captured, &instance) {
            assert(after.captured[before.captured.len() as int].raw == instance.raw);
        }
    }
}

} // verus!
