//! Native GEMM instances and what identifies them.
use vstd::prelude::*;

use crate::buffer::CudaBuffer;
use crate::context::CudaStream;
use crate::ops::gemm::contracts::{GemmBindings, GemmSpec, PlanApi};

verus! {

/// A native instance together with every device allocation it refers to.
///
/// The instance and its plan are destroyed, after the stream has run dry,
/// when the last owner lets go of it.
#[derive(Debug)]
pub struct SharedExecution {
    pub api: PlanApi,
    /// Handle of the native instance; no two live instances share one.
    pub raw: usize,
    /// Handle of the plan the instance was made from.
    pub plan: usize,
    pub stream: CudaStream,
    /// Ranges of device memory that stay alive as long as the instance does.
    pub storage: Vec<CudaBuffer>,
    pub summary: String,
}

/// What an instance is kept under: the problem, the bindings and the parts of
/// the policy that an instance depends on.
#[derive(Clone, Copy, Debug, PartialEq, Eq, Structural)]
pub struct InstanceKey {
    pub api: PlanApi,
    pub spec: GemmSpec,
    pub bindings: GemmBindings,
    pub workspace_limit: u64,
    pub graph_safe: u32,
    pub deterministic: u32,
    pub execution_mode: u32,
}

} // verus!
