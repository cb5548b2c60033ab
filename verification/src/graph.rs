//! Capture of a stream into a graph, and its replay.
use std::rc::Rc;

use vstd::prelude::*;

use crate::context::{CudaContext, CudaStream};
use crate::error::Error;
use crate::ops::gemm::instance::SharedExecution;
use crate::workspace::{CaptureTarget, ThreadState};
#[allow(unused_imports)]
use crate::workspace::ThreadView;

verus! {

/// Which work outside the captured stream a capture tolerates.
#[derive(Clone, Copy, Debug, PartialEq, Eq, Structural)]
pub enum CaptureMode {
    /// Unrelated work of other threads cannot invalidate the graph.
    ThreadLocal,
}

/// A replayable graph with every instance it refers to.
#[derive(Debug)]
pub struct CapturedGraph {
    pub executable: usize,
    pub graph: usize,
    pub stream: CudaStream,
    pub instances: Vec<Rc<SharedExecution>>,
}

/// The native launch of a graph, made with the stream's device current.
#[derive(Clone, Copy, Debug, PartialEq, Eq, Structural)]
pub struct GraphLaunch {
    pub executable: usize,
    pub stream: CudaStream,
}

impl CapturedGraph {
    /// The launch that replays the graph.
    pub fn replay(&self) -> (launch: GraphLaunch)
        ensures
            launch == (GraphLaunch { executable: self.executable, stream: self.stream }),
    {
        GraphLaunch { executable: self.executable, stream: self.stream }
    }
}

/// A capture to be begun: the stream's device is made current and stays so
/// until the capture ends, and then the stream is captured.
#[derive(Clone, Copy, Debug, PartialEq, Eq, Structural)]
pub struct BeginCapture {
    pub stream: CudaStream,
    pub mode: CaptureMode,
}

/// A recorded graph that waits to be instantiated.
#[derive(Debug)]
pub struct RecordedGraph {
    pub graph: usize,
    pub stream: CudaStream,
    pub instances: Vec<Rc<SharedExecution>>,
}

/// A recorded graph that could not be instantiated and has to be destroyed.
#[derive(Debug)]
pub struct AbandonedGraph {
    pub error: Error,
    pub graph: usize,
}

/// The native request that begins a capture of the context's stream.
pub fn begin(ctx: &CudaContext, mode: CaptureMode) -> (request: BeginCapture)
    ensures
        request == (BeginCapture { stream: ctx.stream, mode }),
{
    BeginCapture { stream: ctx.stream, mode }
}

impl BeginCapture {
    /// Goes on once the native capture has begun, or has not: from then on
    /// the thread keeps the instances that the capture uses.
    pub fn started(self, thread: &mut ThreadState, outcome: Result<(), Error>) -> (r: Result<
        (),
        Error,
    >)
        ensures
            match outcome {
                Ok(()) => r is Ok,
                Err(e) => r == Err::<(), Error>(e),
            },
            final(thread)@ == (match outcome {
                Ok(()) => ThreadView {
                    target: Some(
                        CaptureTarget { device: self.stream.device, stream: self.stream.handle },
                    ),
                    captured: Seq::empty(),
                    ..old(thread)@
                },
                Err(_) => old(thread)@,
            }),
            outcome is Ok ==> (final(thread)@.target matches Some(t) && t.device == self.stream.device && t.stream
                == self.stream.handle),
    {
        match outcome {
            Ok(()) => {
                thread.begin_capture_retention(
                    CaptureTarget { device: self.stream.device, stream: self.stream.handle },
                );
                Ok(())
            },
            Err(e) => Err(e),
        }
    }
}

/// Ends a capture with what the native calls gave: `selected` by making the
/// device current, and `ended` by ending the native capture.
///
/// Once the device is current, the capture is over whatever ending it gave.
pub fn end(
    thread: &mut ThreadState,
    ctx: &CudaContext,
    selected: Result<(), Error>,
    ended: Result<usize, Error>,
) -> (recorded: Result<RecordedGraph, Error>)
    ensures
        match selected {
            Err(e) => {
                &&& recorded == Err::<RecordedGraph, Error>(e)
                &&& final(thread)@ == old(thread)@
            },
            Ok(()) => {
                &&& final(thread)@ == (ThreadView {
                    target: None,
                    captured: Seq::empty(),
                    ..old(thread)@
                })
                &&& match ended {
                    Err(e) => recorded == Err::<RecordedGraph, Error>(e),
                    Ok(graph) => {
                        &&& recorded is Ok
                        &&& recorded->Ok_0.graph == graph
                        &&& recorded->Ok_0.stream == ctx.stream
                        &&& recorded->Ok_0.instances@ == old(thread)@.captured
                        &&& crate::workspace::distinct(recorded->Ok_0.instances@)
                    },
                }
            },
        },
{
    match selected {
        Err(e) => {
            return Err(e);
        },
        Ok(()) => {},
    }
    let instances: Vec<Rc<SharedExecution>> = thread.end_capture_retention();
    match ended {
        Err(e) => Err(e),
        Ok(graph) => Ok(RecordedGraph { graph, stream: ctx.stream, instances }),
    }
}

impl RecordedGraph {
    /// Goes on once the graph was instantiated, or could not be.
    pub fn instantiated(self, outcome: Result<usize, Error>) -> (captured: Result<
        CapturedGraph,
        AbandonedGraph,
    >)
        ensures
            captured == (match outcome {
                Ok(executable) => Ok::<CapturedGraph, AbandonedGraph>(
                    CapturedGraph {
                        executable,
                        graph: self.graph,
                        stream: self.stream,
                        instances: self.instances,
                    },
                ),
                Err(error) => Err(AbandonedGraph { error, graph: self.graph }),
            }),
            captured matches Ok(g) ==> outcome == Ok::<usize, Error>(g.executable) && g.graph == self.graph,
    {
        match outcome {
            Ok(executable) => Ok(
                CapturedGraph {
                    executable,
                    graph: self.graph,
                    stream: self.stream,
                    instances: self.instances,
                },
            ),
            Err(error) => Err(AbandonedGraph { error, graph: self.graph }),
        }
    }
}

/// What a capture of `operation` gives, once the capture has ended: the graph
/// where both went well, else the operation's failure before the capture's
/// own.
pub fn capture(operation: Result<(), Error>, ended: Result<CapturedGraph, Error>) -> (captured:
    Result<CapturedGraph, Error>)
    ensures
        captured == (match operation {
            Err(e) => Err::<CapturedGraph, Error>(e),
            Ok(()) => ended,
        }),
{
    match operation {
        Err(e) => Err(e),
        Ok(()) => ended,
    }
}

/// A capture that failed does not weigh on the next: whatever the thread was
/// left with, the next capture starts with its own stream and no instances,
/// and once a capture has ended every stream may be worked on again.
pub proof fn law_failed_capture_does_not_poison_the_next(
    before: ThreadView,
    first: CaptureTarget,
    second: CaptureTarget,
    used: Seq<Rc<SharedExecution>>,
    device: usize,
    stream: usize,
)
    ensures
        ({
            let during = ThreadView { target: Some(first), captured: used, ..before };
            let ended = ThreadView { target: None, captured: Seq::empty(), ..during };
            let again = ThreadView { target: Some(second), captured: Seq::empty(), ..ended };
            &&& ended.target_rejection(device, stream) is None
            &&& again == (ThreadView { target: Some(second), captured: Seq::empty(), ..before })
            &&& again.target_rejection(second.device, second.stream) is None
        }),
{
}

} // verus!
