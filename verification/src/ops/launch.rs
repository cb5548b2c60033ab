//! Direct launches: operators without prepared state, which are validated and
//! then submitted as they are.
use vstd::prelude::*;

use crate::context::{CudaContext, CudaStream};
use crate::error::Error;
use crate::ops::gemm::execution::{flag_of, is_terminable, CACHE_PATH_TEXT};
use crate::workspace::ThreadState;

verus! {

/// How an implementation may be chosen.
#[derive(Debug)]
pub struct LaunchPolicy {
    pub workspace_limit: usize,
    pub online_tune: bool,
    pub allow_fallback: bool,
    pub graph_safe: bool,
    pub deterministic: bool,
    /// Where recipes persist.
    pub cache_dir: Option<String>,
}

/// The policy of a request that says nothing of its own.
pub open spec fn default_launch_policy() -> LaunchPolicy {
    LaunchPolicy {
        workspace_limit: usize::MAX,
        online_tune: true,
        allow_fallback: true,
        graph_safe: false,
        deterministic: false,
        cache_dir: None,
    }
}

impl Default for LaunchPolicy {
    fn default() -> (policy: Self)
        ensures
            policy == default_launch_policy(),
    {
        LaunchPolicy {
            workspace_limit: usize::MAX,
            online_tune: true,
            allow_fallback: true,
            graph_safe: false,
            deterministic: false,
            cache_dir: None,
        }
    }
}

/// A launch policy as the native interface takes it.
#[derive(Debug)]
pub struct NativeLaunchPolicy {
    pub workspace_limit: u64,
    pub online_tune: u32,
    pub allow_fallback: u32,
    pub graph_safe: u32,
    pub deterministic: u32,
    pub cache_dir: Option<String>,
}

/// A validated launch that waits for its stream's device to be made current.
#[derive(Debug)]
pub struct PendingLaunch<L> {
    pub launch: L,
    pub policy: LaunchPolicy,
    pub runtime: usize,
    pub stream: CudaStream,
}

/// The arguments of a native launch.
#[derive(Debug)]
pub struct ReadyLaunch<L> {
    pub launch: L,
    pub policy: NativeLaunchPolicy,
    pub runtime: usize,
    pub stream: CudaStream,
}

/// `result` is what a validated launch comes to: refused while another stream
/// is captured, else pending.
pub open spec fn becomes_pending<L>(
    thread: &ThreadState,
    ctx: &CudaContext,
    launch: L,
    policy: LaunchPolicy,
    result: Result<PendingLaunch<L>, Error>,
) -> bool {
    match thread@.target_rejection(ctx.device_id, ctx.stream.handle) {
        Some(e) => result == Err::<PendingLaunch<L>, Error>(e),
        None => result == Ok::<PendingLaunch<L>, Error>(
            PendingLaunch { launch, policy, runtime: ctx.runtime, stream: ctx.stream },
        ),
    }
}

/// Refuses a launch while another stream is captured.
pub fn begin_launch<L>(
    thread: &ThreadState,
    ctx: &CudaContext,
    launch: L,
    policy: LaunchPolicy,
) -> (pending: Result<PendingLaunch<L>, Error>)
    ensures
        becomes_pending(thread, ctx, launch, policy, pending),
{
    thread.validate_capture_target(ctx.device_id, ctx.stream.handle)?;
    Ok(PendingLaunch { launch, policy, runtime: ctx.runtime, stream: ctx.stream })
}

impl<L> PendingLaunch<L> {
    /// Goes on once the device was made current, or could not be.
    pub fn device_selected(self, selected: Result<(), Error>) -> (ready: Result<
        ReadyLaunch<L>,
        Error,
    >)
        ensures
            match ready {
                Ok(r) => {
                    &&& selected is Ok
                    &&& crate::ops::gemm::execution::terminable(self.policy.cache_dir)
                    &&& r.launch == self.launch
                    &&& r.runtime == self.runtime
                    &&& r.stream == self.stream
                    &&& r.policy.workspace_limit == self.policy.workspace_limit as u64
                    &&& r.policy.online_tune == crate::ops::gemm::execution::flag(self.policy.online_tune)
                    &&& r.policy.allow_fallback == crate::ops::gemm::execution::flag(self.policy.allow_fallback)
                    &&& r.policy.graph_safe == crate::ops::gemm::execution::flag(self.policy.graph_safe)
                    &&& r.policy.deterministic == crate::ops::gemm::execution::flag(self.policy.deterministic)
                    &&& r.policy.cache_dir == self.policy.cache_dir
                },
                Err(e) => match selected {
                    Err(failure) => e == failure,
                    Ok(()) => !crate::ops::gemm::execution::terminable(self.policy.cache_dir) && e == Error::Other(
                        CACHE_PATH_TEXT,
                    ),
                },
            },
    {
        match selected {
            Err(e) => {
                return Err(e);
            },
            Ok(()) => {},
        }
        if !is_terminable(&self.policy.cache_dir) {
            return Err(Error::Other(CACHE_PATH_TEXT));
        }
        let policy: LaunchPolicy = self.policy;
        Ok(
            ReadyLaunch {
                launch: self.launch,
                policy: NativeLaunchPolicy {
                    workspace_limit: policy.workspace_limit as u64,
                    online_tune: flag_of(policy.online_tune),
                    allow_fallback: flag_of(policy.allow_fallback),
                    graph_safe: flag_of(policy.graph_safe),
                    deterministic: flag_of(policy.deterministic),
                    cache_dir: policy.cache_dir,
                },
                runtime: self.runtime,
                stream: self.stream,
            },
        )
    }
}

/// A validated launch goes on exactly where no other stream is captured, and
/// then as it is: the same launch under the same policy, on its context's
/// stream and runtime.
pub proof fn law_launches_go_on_unchanged<L>(
    thread: &ThreadState,
    ctx: &CudaContext,
    launch: L,
    policy: LaunchPolicy,
    result: Result<PendingLaunch<L>, Error>,
)
    requires
        becomes_pending(thread, ctx, launch, policy, result),
    ensures
        result is Ok <==> thread@.target_rejection(ctx.device_id, ctx.stream.handle) is None,
        result matches Ok(p) ==> p.launch == launch && p.policy == policy && p.runtime == ctx.runtime && p.stream
            == ctx.stream,
        result matches Err(e) ==> Some(e) == thread@.target_rejection(ctx.device_id, ctx.stream.handle),
{
}

/// A request that says nothing of its own sets no limit, lets candidates be
/// timed and fallen back on, and asks for nothing else.
pub proof fn law_default_policy_sets_no_limits()
    ensures
        default_launch_policy().workspace_limit == usize::MAX,
        default_launch_policy().online_tune,
        default_launch_policy().allow_fallback,
        !default_launch_policy().graph_safe,
        !default_launch_policy().deterministic,
        default_launch_policy().cache_dir is None,
        crate::ops::gemm::contracts::default_policy().workspace_limit == usize::MAX,
        crate::ops::gemm::contracts::default_policy().online_tune,
        crate::ops::gemm::contracts::default_policy().allow_fallback,
        !crate::ops::gemm::contracts::default_policy().graph_safe,
        !crate::ops::gemm::contracts::default_policy().deterministic,
        crate::ops::gemm::contracts::default_policy().execution_mode is Eager,
        crate::ops::gemm::contracts::default_policy().cache_dir is None,
        crate::ops::gemm::execution::flag(true) == 1,
        crate::ops::gemm::execution::flag(false) == 0,
{
}

} // verus!
