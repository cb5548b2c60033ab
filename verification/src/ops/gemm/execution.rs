//! Preparation, reuse and submission of native GEMM instances.
use std::rc::Rc;

use vstd::prelude::*;

use crate::buffer::{BufferView, CudaBuffer};
use crate::context::{CudaContext, CudaStream, SynchronizeCall};
use crate::error::Error;
use crate::ops::gemm::contracts::{
    GemmBindings, GemmExecutionMode, GemmPolicy, GemmSpec, Normalized, PlanApi, ValidationReference,
};
use crate::ops::gemm::instance::{InstanceKey, SharedExecution};
use crate::text::same_text;
use crate::workspace::ThreadState;
#[allow(unused_imports)]
use crate::workspace::ThreadView;

verus! {

pub const CACHE_PATH_TEXT: &'static str = "cache path contains NUL";

pub const CACHE_MISS_TEXT: &'static str =
    "GEMM instance cache miss during capture; prepare the same bindings first";

/// A policy as the native interface takes it.
#[derive(Debug)]
pub struct NativePolicy {
    pub workspace_limit: u64,
    pub online_tune: u32,
    pub allow_fallback: u32,
    pub graph_safe: u32,
    pub deterministic: u32,
    pub execution_mode: u32,
    pub cache_dir: Option<String>,
}

/// What a tuner runs candidates on, and what it compares their results with.
#[derive(Clone, Copy, Debug, PartialEq, Eq, Structural)]
pub struct TuningBindings {
    pub execution: GemmBindings,
    pub original_a: usize,
    pub original_a_len: u64,
    pub original_b: usize,
    pub original_b_len: u64,
    pub original_bias: usize,
    pub original_bias_len: u64,
    pub reference_kind: u32,
}

/// What the creation of an instance depends on besides its key.
#[verifier::ext_equal]
pub struct CreationTerms {
    pub online_tune: u32,
    pub allow_fallback: u32,
    pub cache_dir: Option<Seq<char>>,
    pub tuning: TuningBindings,
}

/// The text of a path.
pub open spec fn path_text(path: Option<String>) -> Option<Seq<char>> {
    match path {
        Some(p) => Some(p@),
        None => None,
    }
}

impl NativePolicy {
    /// The terms of a creation under this policy.
    pub open spec fn terms(self, tuning: TuningBindings) -> CreationTerms {
        CreationTerms {
            online_tune: self.online_tune,
            allow_fallback: self.allow_fallback,
            cache_dir: path_text(self.cache_dir),
            tuning,
        }
    }

    /// Whether two policies set the same terms.
    pub fn agrees(&self, other: &NativePolicy) -> (r: bool)
        ensures
            r == (self.online_tune == other.online_tune && self.allow_fallback
                == other.allow_fallback && path_text(self.cache_dir) == path_text(other.cache_dir)),
    {
        let same_path: bool = match (&self.cache_dir, &other.cache_dir) {
            (Some(a), Some(b)) => same_text(a.as_str(), b.as_str()),
            (None, None) => true,
            _ => false,
        };
        same_path && self.online_tune == other.online_tune && self.allow_fallback
            == other.allow_fallback
    }
}

/// A flag as the native interface takes it.
pub open spec fn flag(set: bool) -> u32 {
    if set {
        1
    } else {
        0
    }
}

/// A flag as the native interface takes it.
pub fn flag_of(set: bool) -> (value: u32)
    ensures
        value == flag(set),
{
    if set {
        1
    } else {
        0
    }
}

/// An execution mode as the native interface takes it.
pub open spec fn mode_code(mode: GemmExecutionMode) -> u32 {
    match mode {
        GemmExecutionMode::Eager => 0,
        GemmExecutionMode::GraphReplay => 1,
    }
}

/// The tuning bindings of a request: its own operands, and host references
/// where it names any.
pub open spec fn tuning_bindings(
    bindings: GemmBindings,
    reference: Option<ValidationReference>,
) -> TuningBindings {
    match reference {
        Some(r) => TuningBindings {
            execution: bindings,
            original_a: r.a,
            original_a_len: r.a_len as u64,
            original_b: r.b,
            original_b_len: r.b_len as u64,
            original_bias: r.bias,
            original_bias_len: r.bias_len as u64,
            reference_kind: 1,
        },
        None => TuningBindings {
            execution: bindings,
            original_a: 0,
            original_a_len: 0,
            original_b: 0,
            original_b_len: 0,
            original_bias: 0,
            original_bias_len: 0,
            reference_kind: 0,
        },
    }
}

/// What the instance of a request is kept under.
pub open spec fn instance_key(request: &Normalized) -> InstanceKey {
    InstanceKey {
        api: request.api,
        spec: request.spec,
        bindings: request.bindings,
        workspace_limit: request.policy.workspace_limit as u64,
        graph_safe: flag(request.policy.graph_safe),
        deterministic: flag(request.policy.deterministic),
        execution_mode: mode_code(request.policy.execution_mode),
    }
}

/// What the creation of a request's instance depends on besides its key.
pub open spec fn request_terms(request: &Normalized) -> CreationTerms {
    CreationTerms {
        online_tune: flag(request.policy.online_tune),
        allow_fallback: flag(request.policy.allow_fallback),
        cache_dir: path_text(request.policy.cache_dir),
        tuning: tuning_bindings(request.bindings, request.validation_reference),
    }
}

/// The text can be passed on as a zero-terminated string.
pub open spec fn terminable(path: Option<String>) -> bool {
    match path {
        Some(p) => forall|i: int| 0 <= i < p@.len() ==> p@[i] != '\0',
        None => true,
    }
}

/// Why the preparation of a request is refused in a thread's state, if it is.
pub open spec fn preparation_rejection(thread: ThreadView, request: &Normalized) -> Option<Error> {
    if !terminable(request.policy.cache_dir) {
        Some(Error::Other(CACHE_PATH_TEXT))
    } else if thread.prepared(instance_key(request)) is None && !thread.may_create() {
        Some(Error::Other(CACHE_MISS_TEXT))
    } else {
        None
    }
}

/// A fully prepared GEMM execution bound to fixed tensor addresses.
///
/// Preparation selects the candidate, creates provider resources and performs
/// any required warmup. Enqueue is asynchronous; whoever enqueues owns
/// synchronization or graph replay.
#[derive(Clone, Debug)]
pub struct PreparedExecution {
    pub shared: Rc<SharedExecution>,
}

/// A native instance still to be created: first a plan for the problem, then
/// an instance of the plan for the bindings.
#[derive(Debug)]
pub struct CreateRequest {
    pub key: InstanceKey,
    pub runtime: usize,
    pub policy: NativePolicy,
    pub tuning: TuningBindings,
    pub stream: CudaStream,
    pub storage: Vec<CudaBuffer>,
    /// Outside any workspace the instance is kept for further one-shot
    /// requests.
    pub reusable: bool,
}

/// How a preparation goes on.
#[derive(Debug)]
pub enum PrepareStep {
    /// A cached instance serves the request.
    Ready(PreparedExecution),
    /// A native instance has to be created.
    Create(CreateRequest),
}

/// What became of the creation of a native instance.
#[derive(Debug)]
pub enum CreateOutcome {
    PlanFailed(Error),
    InstanceFailed { plan: usize, failure: Error },
    Created { plan: usize, summary: String, raw: usize },
}

/// A creation that failed, and the plan to destroy, where one was made.
#[derive(Debug)]
pub struct AbandonedCreation {
    pub error: Error,
    pub plan: Option<usize>,
}

/// A prepared execution whose stream's device is to be made current.
#[derive(Debug)]
pub struct EnqueueStart {
    pub shared: Rc<SharedExecution>,
}

/// The native call that submits an instance to its stream.
#[derive(Clone, Copy, Debug, PartialEq, Eq, Structural)]
pub struct EnqueueCall {
    pub api: PlanApi,
    pub raw: usize,
    pub stream: CudaStream,
}

/// A one-shot execution: how its preparation goes on, and whether to wait for
/// the stream after the instance was enqueued.
#[derive(Debug)]
pub struct Execution {
    pub step: PrepareStep,
    pub synchronize: Option<SynchronizeCall>,
}

/// `create` asks for what `request` needs.
pub open spec fn asks_for(
    create: &CreateRequest,
    ctx: &CudaContext,
    request: &Normalized,
    one_shot: bool,
) -> bool {
    &&& create.key == instance_key(request)
    &&& create.runtime == ctx.runtime
    &&& create.policy.workspace_limit == request.policy.workspace_limit as u64
    &&& create.policy.online_tune == flag(request.policy.online_tune)
    &&& create.policy.allow_fallback == flag(request.policy.allow_fallback)
    &&& create.policy.graph_safe == flag(request.policy.graph_safe)
    &&& create.policy.deterministic == flag(request.policy.deterministic)
    &&& create.policy.execution_mode == mode_code(request.policy.execution_mode)
    &&& create.policy.cache_dir == request.policy.cache_dir
    &&& create.tuning == tuning_bindings(request.bindings, request.validation_reference)
    &&& create.stream == ctx.stream
    &&& create.storage == request.storage
    &&& create.reusable == one_shot
}

/// The instance that serves a request in a thread's state, if there is one. A
/// one-shot request is also served outside any workspace, by the instance of
/// an earlier one; any other is served only by what its workspace holds.
pub open spec fn serving(thread: ThreadView, request: &Normalized, one_shot: bool) -> Option<
    Rc<SharedExecution>,
> {
    if one_shot {
        thread.cached(instance_key(request), request_terms(request))
    } else {
        thread.prepared(instance_key(request))
    }
}

/// `step` is how the preparation of `request` goes on, and `after` what the
/// thread has become: a cached instance is reused and kept by a running
/// capture, and anything else is to be created.
pub open spec fn prepares(
    before: ThreadView,
    after: ThreadView,
    ctx: &CudaContext,
    request: &Normalized,
    one_shot: bool,
    step: &PrepareStep,
) -> bool {
    match serving(before, request, one_shot) {
        Some(instance) => {
            &&& step matches PrepareStep::Ready(p) && p.shared == instance
            &&& after == before.retaining(instance)
        },
        None => {
            &&& step matches PrepareStep::Create(create) && asks_for(
                &create,
                ctx,
                request,
                one_shot,
            )
            &&& after == before
        },
    }
}

/// Whether a text can be passed on as a zero-terminated string.
pub fn is_terminable(path: &Option<String>) -> (r: bool)
    ensures
        r == terminable(*path),
{
    match path {
        None => true,
        Some(p) => {
            let text: &str = p.as_str();
            let count: usize = text.unicode_len();
            let mut i: usize = 0;
            while i < count
                invariant
                    i <= count,
                    count == text@.len(),
                    text@ == p@,
                    *path == Some(*p),
                    forall|j: int| 0 <= j < i ==> p@[j] != '\0',
                decreases count - i,
            {
                if text.get_char(i) == '\0' {
                    assert(0 <= i < path->Some_0@.len() && path->Some_0@[i as int] == '\0');
                    return false;
                }
                i = i + 1;
            }
            true
        },
    }
}

/// Starts to prepare a checked request. Outside any workspace every
/// preparation creates an instance of its own.
pub fn prepare(thread: &mut ThreadState, ctx: &CudaContext, normalized: Normalized) -> (step: Result<
    PrepareStep,
    Error,
>)
    ensures
        match step {
            Ok(s) => {
                &&& preparation_rejection(old(thread)@, &normalized) is None
                &&& prepares(old(thread)@, final(thread)@, ctx, &normalized, false, &s)
            },
            Err(e) => {
                &&& preparation_rejection(old(thread)@, &normalized) == Some(e)
                &&& final(thread)@ == old(thread)@
            },
        },
{
    begin(thread, ctx, normalized, false)
}

/// Starts to serve a checked request.
fn begin(thread: &mut ThreadState, ctx: &CudaContext, normalized: Normalized, one_shot: bool) -> (step:
    Result<PrepareStep, Error>)
    ensures
        match step {
            Ok(s) => {
                &&& preparation_rejection(old(thread)@, &normalized) is None
                &&& prepares(old(thread)@, final(thread)@, ctx, &normalized, one_shot, &s)
            },
            Err(e) => {
                &&& preparation_rejection(old(thread)@, &normalized) == Some(e)
                &&& final(thread)@ == old(thread)@
            },
        },
{
    if !is_terminable(&normalized.policy.cache_dir) {
        return Err(Error::Other(CACHE_PATH_TEXT));
    }
    let options: GemmPolicy = normalized.policy;
    let policy: NativePolicy = NativePolicy {
        workspace_limit: options.workspace_limit as u64,
        online_tune: flag_of(options.online_tune),
        allow_fallback: flag_of(options.allow_fallback),
        graph_safe: flag_of(options.graph_safe),
        deterministic: flag_of(options.deterministic),
        execution_mode: match options.execution_mode {
            GemmExecutionMode::Eager => 0,
            GemmExecutionMode::GraphReplay => 1,
        },
        cache_dir: options.cache_dir,
    };
    let tuning: TuningBindings = match normalized.validation_reference {
        Some(reference) => TuningBindings {
            execution: normalized.bindings,
            original_a: reference.a,
            original_a_len: reference.a_len as u64,
            original_b: reference.b,
            original_b_len: reference.b_len as u64,
            original_bias: reference.bias,
            original_bias_len: reference.bias_len as u64,
            reference_kind: 1,
        },
        None => TuningBindings {
            execution: normalized.bindings,
            original_a: 0,
            original_a_len: 0,
            original_b: 0,
            original_b_len: 0,
            original_bias: 0,
            original_bias_len: 0,
            reference_kind: 0,
        },
    };
    let key: InstanceKey = InstanceKey {
        api: normalized.api,
        spec: normalized.spec,
        bindings: normalized.bindings,
        workspace_limit: policy.workspace_limit,
        graph_safe: policy.graph_safe,
        deterministic: policy.deterministic,
        execution_mode: policy.execution_mode,
    };
    assert(policy.terms(tuning) == request_terms(&normalized));
    let found: Option<Rc<SharedExecution>> = if one_shot {
        thread.lookup_reusable_instance(&key, &policy, &tuning)
    } else {
        thread.lookup_gemm_instance(&key)
    };
    match found {
        Some(shared) => {
            return Ok(PrepareStep::Ready(PreparedExecution { shared }));
        },
        None => {},
    }
    if !thread.may_prepare_native_resources() {
        return Err(Error::Other(CACHE_MISS_TEXT));
    }
    Ok(
        PrepareStep::Create(
            CreateRequest {
                key,
                runtime: ctx.runtime,
                policy,
                tuning,
                stream: ctx.stream,
                storage: normalized.storage,
                reusable: one_shot,
            },
        ),
    )
}

/// Starts a one-shot execution of a checked request.
///
/// An instance that serves it already is only enqueued. After a new one was
/// created and enqueued, the stream is waited for, unless it is being captured.
pub fn execute(thread: &mut ThreadState, ctx: &CudaContext, normalized: Normalized) -> (execution:
    Result<Execution, Error>)
    ensures
        match execution {
            Ok(x) => {
                &&& preparation_rejection(old(thread)@, &normalized) is None
                &&& prepares(old(thread)@, final(thread)@, ctx, &normalized, true, &x.step)
                &&& x.synchronize == (if x.step is Create && old(thread)@.target is None {
                    Some(SynchronizeCall { stream: ctx.stream })
                } else {
                    None
                })
            },
            Err(e) => {
                &&& preparation_rejection(old(thread)@, &normalized) == Some(e)
                &&& final(thread)@ == old(thread)@
            },
        },
{
    let capturing: bool = thread.is_capturing();
    let step: PrepareStep = begin(thread, ctx, normalized, true)?;
    let synchronize: Option<SynchronizeCall> = match &step {
        PrepareStep::Ready(_) => None,
        PrepareStep::Create(_) => if capturing {
            None
        } else {
            Some(ctx.synchronize())
        },
    };
    Ok(Execution { step, synchronize })
}

impl CreateRequest {
    /// The instance that a successful creation makes.
    pub open spec fn made(self, plan: usize, summary: String, raw: usize) -> SharedExecution {
        SharedExecution {
            api: self.key.api,
            raw,
            plan,
            stream: self.stream,
            storage: self.storage,
            summary,
        }
    }

    /// Takes over what the native creation gave: a new instance is counted,
    /// and kept in the active workspace, or outside any workspace for further
    /// one-shot requests, where it was made for one; after a failure the plan has to be destroyed.
    pub fn finish(self, thread: &mut ThreadState, outcome: CreateOutcome) -> (created: Result<
        PreparedExecution,
        AbandonedCreation,
    >)
        ensures
            match outcome {
                CreateOutcome::PlanFailed(failure) => {
                    &&& created == Err::<PreparedExecution, AbandonedCreation>(
                        AbandonedCreation { error: failure, plan: None },
                    )
                    &&& final(thread)@ == old(thread)@
                },
                CreateOutcome::InstanceFailed { plan, failure } => {
                    &&& created == Err::<PreparedExecution, AbandonedCreation>(
                        AbandonedCreation { error: failure, plan: Some(plan) },
                    )
                    &&& final(thread)@ == old(thread)@
                },
                CreateOutcome::Created { plan, summary, raw } => {
                    &&& created matches Ok(p) && *p.shared == self.made(plan, summary, raw)
                    &&& final(thread)@ == (ThreadView {
                        created: if old(thread)@.created == u64::MAX {
                            u64::MAX
                        } else {
                            (old(thread)@.created + 1) as u64
                        },
                        ..if self.reusable || old(thread)@.active is Some {
                            old(thread)@.storing(
                                self.key,
                                self.policy.terms(self.tuning),
                                created->Ok_0.shared,
                            )
                        } else {
                            old(thread)@
                        }
                    })
                },
            },
    {
        match outcome {
            CreateOutcome::PlanFailed(failure) => Err(
                AbandonedCreation { error: failure, plan: None },
            ),
            CreateOutcome::InstanceFailed { plan, failure } => Err(
                AbandonedCreation { error: failure, plan: Some(plan) },
            ),
            CreateOutcome::Created { plan, summary, raw } => {
                let shared: Rc<SharedExecution> = Rc::new(
                    SharedExecution {
                        api: self.key.api,
                        raw,
                        plan,
                        stream: self.stream,
                        storage: self.storage,
                        summary,
                    },
                );
                thread.note_creation();
                if self.reusable || thread.has_active_workspace() {
                    thread.store_gemm_instance(
                        self.key,
                        self.policy,
                        self.tuning,
                        Rc::clone(&shared),
                    );
                }
                Ok(PreparedExecution { shared })
            },
        }
    }
}

impl PreparedExecution {
    /// How the implementation was chosen.
    pub fn summary(&self) -> (summary: &String)
        ensures
            summary == self.shared.summary,
    {
        &self.shared.summary
    }

    /// Starts to submit the execution: refused while another stream is
    /// captured, and otherwise waits for its device to be made current.
    pub fn enqueue(&self, thread: &ThreadState) -> (start: Result<EnqueueStart, Error>)
        ensures
            match start {
                Ok(s) => {
                    &&& thread@.target_rejection(self.shared.stream.device, self.shared.stream.handle)
                        is None
                    &&& s.shared == self.shared
                },
                Err(e) => thread@.target_rejection(
                    self.shared.stream.device,
                    self.shared.stream.handle,
                ) == Some(e),
            },
    {
        thread.validate_capture_target(self.shared.stream.device, self.shared.stream.handle)?;
        Ok(EnqueueStart { shared: Rc::clone(&self.shared) })
    }
}

impl EnqueueStart {
    /// Goes on once the device was made current, or could not be: lets a
    /// running capture keep the instance and gives the native call.
    pub fn device_selected(self, thread: &mut ThreadState, selected: Result<(), Error>) -> (call:
        Result<EnqueueCall, Error>)
        ensures
            match selected {
                Ok(()) => {
                    &&& call == Ok::<EnqueueCall, Error>(
                        EnqueueCall {
                            api: self.shared.api,
                            raw: self.shared.raw,
                            stream: self.shared.stream,
                        },
                    )
                    &&& final(thread)@ == old(thread)@.retaining(self.shared)
                },
                Err(e) => call == Err::<EnqueueCall, Error>(e) && final(thread)@ == old(thread)@,
            },
    {
        match selected {
            Ok(()) => {
                thread.retain_gemm_instance(&self.shared);
                Ok(
                    EnqueueCall {
                        api: self.shared.api,
                        raw: self.shared.raw,
                        stream: self.shared.stream,
                    },
                )
            },
            Err(e) => Err(e),
        }
    }
}

} // verus!
