//! Measurement of FP8 tactics with a cold L2 cache.
use vstd::prelude::*;

use crate::buffer::{CudaBuffer, NOT_CUDA_TEXT};
use crate::context::CudaContext;
use crate::dtype::DType;
use crate::error::Error;
use crate::fp8::calls::{Alpha, CutlassCall};
use crate::scalar::F32Bits;
use crate::tensor::Tensor;

verus! {

pub const EMPTY_L2_TEXT: &'static str = "CUDA reported an empty L2 cache";

pub const EVICTION_SIZE_TEXT: &'static str = "cold-L2 eviction buffer size overflow";

pub const CUTLASS_ITERATIONS_TEXT: &'static str = "CUTLASS autotune iterations must be non-zero";

pub const CUTLASS_OPERANDS_TEXT: &'static str =
    "CUTLASS autotune expects aligned FP8 [M,K] @ [K,N]";

pub const CUTLASS_BUILD_TEXT: &'static str =
    "CUTLASS FP8 autotune requires an SM100-family CUDA build";

pub const CUBLASLT_COUNTS_TEXT: &'static str =
    "cuBLASLt autotune expects 1..=64 algorithms and non-zero iterations";

pub const CUBLASLT_OPERANDS_TEXT: &'static str = "cuBLASLt autotune expects FP8 [M,K] @ [K,N]";

/// The last CUTLASS tactic; the first is zero. All of them are ordinary
/// auto-scheduled one-SM kernels.
pub const LAST_CUTLASS_TACTIC: i32 = 7;

/// Algorithms that one measurement of the matrix library may ask for.
pub const MAX_ALGORITHMS: usize = 64;

/// Size of the L2 cache, and of the buffer that displaces what is in it.
#[derive(Clone, Copy, Debug, PartialEq, Eq, Structural)]
pub struct ColdL2TuningMetadata {
    pub l2_cache_bytes: usize,
    pub eviction_buffer_bytes: usize,
}

/// Four times the cache, rounded up to whole blocks of 256 bytes.
pub open spec fn eviction_bytes(l2_cache_bytes: int) -> int {
    ((4 * l2_cache_bytes + 255) / 256) * 256
}

/// Sizes the eviction buffer from the L2 size that the driver reported.
pub fn cold_l2_tuning_metadata(reported: Result<i32, Error>) -> (metadata: Result<
    ColdL2TuningMetadata,
    Error,
>)
    ensures
        match reported {
            Err(e) => metadata == Err::<ColdL2TuningMetadata, Error>(e),
            Ok(bytes) => if bytes <= 0 {
                metadata == Err::<ColdL2TuningMetadata, Error>(Error::Other(EMPTY_L2_TEXT))
            } else if 4 * bytes + 255 > usize::MAX {
                metadata == Err::<ColdL2TuningMetadata, Error>(Error::Other(EVICTION_SIZE_TEXT))
            } else {
                &&& metadata is Ok
                &&& metadata->Ok_0.l2_cache_bytes == bytes
                &&& metadata->Ok_0.eviction_buffer_bytes == eviction_bytes(bytes as int)
            },
        },
{
    let bytes: i32 = reported?;
    if bytes <= 0 {
        return Err(Error::Other(EMPTY_L2_TEXT));
    }
    let l2_cache_bytes: usize = bytes as usize;
    let rounded: Option<usize> = match l2_cache_bytes.checked_mul(4) {
        Some(four) => four.checked_add(255),
        None => None,
    };
    match rounded {
        Some(sum) => Ok(
            ColdL2TuningMetadata { l2_cache_bytes, eviction_buffer_bytes: (sum / 256) * 256 },
        ),
        None => Err(Error::Other(EVICTION_SIZE_TEXT)),
    }
}

/// The eviction buffer is at least four times the cache and consists of whole
/// blocks.
pub proof fn law_eviction_buffer_covers_the_cache(l2_cache_bytes: int)
    requires
        l2_cache_bytes > 0,
    ensures
        eviction_bytes(l2_cache_bytes) >= 4 * l2_cache_bytes,
        eviction_bytes(l2_cache_bytes) < 4 * l2_cache_bytes + 256,
        eviction_bytes(l2_cache_bytes) % 256 == 0,
{
}

/// The call that displaces what is in the L2 cache.
#[derive(Clone, Copy, Debug, PartialEq, Eq, Structural)]
pub struct EvictCall {
    pub buffer: usize,
    pub bytes: usize,
    pub seed: u32,
    pub stream: usize,
}

/// A buffer that displaces what is in the L2 cache when it is written, each
/// time with other values.
#[derive(Debug)]
pub struct ColdL2Evictor {
    pub buffer: CudaBuffer,
    pub metadata: ColdL2TuningMetadata,
    pub seed: u32,
}

/// The seed after this one.
pub open spec fn next_seed(seed: u32) -> u32 {
    if seed == u32::MAX {
        0
    } else {
        (seed + 1) as u32
    }
}

impl ColdL2Evictor {
    /// An evictor over zeroed memory of the metadata's size.
    pub fn new(metadata: ColdL2TuningMetadata, allocated: Result<CudaBuffer, Error>) -> (evictor:
        Result<ColdL2Evictor, Error>)
        ensures
            match allocated {
                Ok(buffer) => evictor == Ok::<ColdL2Evictor, Error>(
                    ColdL2Evictor { buffer, metadata, seed: 0 },
                ),
                Err(e) => evictor == Err::<ColdL2Evictor, Error>(e),
            },
    {
        match allocated {
            Ok(buffer) => Ok(ColdL2Evictor { buffer, metadata, seed: 0 }),
            Err(e) => Err(e),
        }
    }

    /// The eviction with this seed.
    pub open spec fn eviction(self, seed: u32, stream: usize) -> EvictCall {
        EvictCall {
            buffer: self.buffer.range().ptr,
            bytes: self.metadata.eviction_buffer_bytes,
            seed,
            stream,
        }
    }

    /// The next eviction.
    pub fn evict(&mut self, stream: usize) -> (call: EvictCall)
        ensures
            final(self).buffer == old(self).buffer,
            final(self).metadata == old(self).metadata,
            final(self).seed == next_seed(old(self).seed),
            call == old(self).eviction(next_seed(old(self).seed), stream),
    {
        self.seed = if self.seed == u32::MAX {
            0
        } else {
            self.seed + 1
        };
        EvictCall {
            buffer: self.buffer.ptr(),
            bytes: self.metadata.eviction_buffer_bytes,
            seed: self.seed,
            stream,
        }
    }
}

/// The measured times of a tactic, in milliseconds.
#[derive(Debug)]
pub struct CutlassTacticTiming {
    pub tactic: i32,
    pub samples: Vec<F32Bits>,
}

#[verifier::ext_equal]
pub struct TimingView {
    pub tactic: i32,
    pub samples: Seq<F32Bits>,
}

impl View for CutlassTacticTiming {
    type V = TimingView;

    open spec fn view(&self) -> TimingView {
        TimingView { tactic: self.tactic, samples: self.samples@ }
    }
}

/// Two matrices of E4M3 values that can be multiplied.
pub open spec fn e4m3_product(a: &Tensor, b: &Tensor) -> bool {
    &&& a.dtype == DType::F8E4M3
    &&& b.dtype == DType::F8E4M3
    &&& a.extents().len() == 2
    &&& b.extents().len() == 2
    &&& a.extents()[1] == b.extents()[0]
}

fn is_e4m3_product(a: &Tensor, b: &Tensor) -> (r: bool)
    ensures
        r == e4m3_product(a, b),
{
    let left: &Vec<usize> = a.shape.dims();
    let right: &Vec<usize> = b.shape.dims();
    a.dtype == DType::F8E4M3 && b.dtype == DType::F8E4M3 && left.len() == 2 && right.len() == 2
        && left[1] == right[0]
}

/// Why a measurement of CUTLASS tactics is refused, if it is.
pub open spec fn cutlass_rejection(
    cutlass: bool,
    iterations: usize,
    activation: &Tensor,
    weight: &Tensor,
) -> Option<Error> {
    if !cutlass {
        Some(Error::Other(CUTLASS_BUILD_TEXT))
    } else if iterations == 0 {
        Some(Error::Other(CUTLASS_ITERATIONS_TEXT))
    } else if !e4m3_product(activation, weight) || weight.extents()[1] % 16 != 0
        || activation.extents()[1] % 16 != 0 {
        Some(Error::Other(CUTLASS_OPERANDS_TEXT))
    } else {
        None
    }
}

/// A checked measurement.
#[derive(Clone, Copy, Debug)]
pub struct CutlassTuning {
    /// Addresses of the operands, unless they are not in device memory.
    pub operands: Option<(usize, usize)>,
    pub m: usize,
    pub n: usize,
    pub k: usize,
    pub alpha: Alpha,
    pub warmup: usize,
    pub iterations: usize,
    pub output_bytes: usize,
    pub stream: usize,
}

/// The addresses of both operands, where both are in device memory.
pub open spec fn operand_addresses(activation: &Tensor, weight: &Tensor) -> Option<(usize, usize)> {
    match (activation.cuda_range(), weight.cuda_range()) {
        (Some(a), Some(b)) => Some((a.ptr, b.ptr)),
        _ => None,
    }
}

fn addresses(activation: &Tensor, weight: &Tensor) -> (r: Option<(usize, usize)>)
    ensures
        r == operand_addresses(activation, weight),
{
    match CudaBuffer::from_tensor(activation) {
        Ok(a) => match CudaBuffer::from_tensor(weight) {
            Ok(b) => Some((a.ptr(), b.ptr())),
            Err(_) => None,
        },
        Err(_) => None,
    }
}

/// Refuses a measurement that cannot be made.
pub fn check_cutlass_measurement(
    cutlass: bool,
    iterations: usize,
    activation: &Tensor,
    weight: &Tensor,
) -> (r: Result<(), Error>)
    ensures
        match r {
            Ok(()) => cutlass_rejection(cutlass, iterations, activation, weight) is None,
            Err(e) => cutlass_rejection(cutlass, iterations, activation, weight) == Some(e),
        },
{
    if !cutlass {
        return Err(Error::Other(CUTLASS_BUILD_TEXT));
    }
    if iterations == 0 {
        return Err(Error::Other(CUTLASS_ITERATIONS_TEXT));
    }
    if !is_e4m3_product(activation, weight) || weight.shape.dims()[1] % 16 != 0
        || activation.shape.dims()[1] % 16 != 0 {
        return Err(Error::Other(CUTLASS_OPERANDS_TEXT));
    }
    Ok(())
}

/// Starts a measurement of the CUTLASS tactics for a product.
pub fn autotune_cutlass_gemm_f16(
    ctx: &CudaContext,
    activation: &Tensor,
    weight: &Tensor,
    activation_scale: F32Bits,
    weight_scale: F32Bits,
    warmup: usize,
    iterations: usize,
    cutlass: bool,
) -> (tuning: Result<CutlassTuning, Error>)
    requires
        cutlass_rejection(cutlass, iterations, activation, weight) is None ==> (
        activation.extents()[0] * weight.extents()[1]) * 2 <= usize::MAX,
    ensures
        match cutlass_rejection(cutlass, iterations, activation, weight) {
            Some(e) => tuning == Err::<CutlassTuning, Error>(e),
            None => tuning == Ok::<CutlassTuning, Error>(
                CutlassTuning {
                    operands: operand_addresses(activation, weight),
                    m: activation.extents()[0],
                    n: weight.extents()[1],
                    k: activation.extents()[1],
                    alpha: Alpha { activation: activation_scale, weight: weight_scale },
                    warmup,
                    iterations,
                    output_bytes: ((activation.extents()[0] * weight.extents()[1]) * 2) as usize,
                    stream: ctx.stream.handle,
                },
            ),
        },
        tuning matches Ok(t) ==> {
            &&& t.operands matches Some((a, b)) ==> activation.cuda_range().unwrap().ptr == a && weight.cuda_range().unwrap().ptr == b
            &&& t.m == activation.extents()[0]
            &&& t.n == weight.extents()[1]
            &&& t.k == activation.extents()[1]
            &&& t.k == weight.extents()[0]
            &&& t.alpha.activation == activation_scale
            &&& t.alpha.weight == weight_scale
            &&& t.warmup == warmup
            &&& t.iterations == iterations
            &&& t.output_bytes == (t.m * t.n) * DType::F16.size()
            &&& t.stream == ctx.stream.handle
        },
{
    check_cutlass_measurement(cutlass, iterations, activation, weight)?;
    let m: usize = activation.shape.dims()[0];
    let k: usize = activation.shape.dims()[1];
    let n: usize = weight.shape.dims()[1];
    Ok(
        CutlassTuning {
            operands: addresses(activation, weight),
            m,
            n,
            k,
            alpha: Alpha { activation: activation_scale, weight: weight_scale },
            warmup,
            iterations,
            output_bytes: m * n * 2,
            stream: ctx.stream.handle,
        },
    )
}

/// What a search carries from step to step.
#[derive(Debug)]
pub struct SearchState {
    pub tuning: CutlassTuning,
    pub output: CudaBuffer,
    pub evictor: ColdL2Evictor,
    pub tactic: i32,
    pub timings: Vec<CutlassTacticTiming>,
}

#[verifier::ext_equal]
pub struct StateView {
    pub tuning: CutlassTuning,
    pub output: CudaBuffer,
    pub buffer: CudaBuffer,
    pub metadata: ColdL2TuningMetadata,
    pub seed: u32,
    pub tactic: i32,
    pub timings: Seq<TimingView>,
}

/// The views of the timings.
pub open spec fn views(timings: Seq<CutlassTacticTiming>) -> Seq<TimingView> {
    Seq::new(timings.len(), |i: int| timings[i]@)
}

impl View for SearchState {
    type V = StateView;

    open spec fn view(&self) -> StateView {
        StateView {
            tuning: self.tuning,
            output: self.output,
            buffer: self.evictor.buffer,
            metadata: self.evictor.metadata,
            seed: self.evictor.seed,
            tactic: self.tactic,
            timings: views(self.timings@),
        }
    }
}

/// A run of the kernel on a cold cache: first the eviction, then, if it
/// succeeded and there is one, the launch.
#[derive(Clone, Copy, Debug, PartialEq, Eq, Structural)]
pub struct ColdRun {
    pub evict: EvictCall,
    pub launch: Option<CutlassCall>,
}

/// A run before anything is measured.
#[derive(Debug)]
pub struct WarmStep {
    pub run: ColdRun,
    /// Runs still to make, this one among them.
    pub left: usize,
    pub state: SearchState,
}

/// Waiting for the stream between warming up and measuring.
#[derive(Debug)]
pub struct SettleStep {
    pub state: SearchState,
}

/// A timed run.
#[derive(Debug)]
pub struct MeasureStep {
    pub run: ColdRun,
    pub samples: Vec<F32Bits>,
    pub state: SearchState,
}

/// What comes next in a search.
#[derive(Debug)]
pub enum SearchStep {
    Warm(WarmStep),
    Settle(SettleStep),
    Measure(MeasureStep),
    Finished(Vec<CutlassTacticTiming>),
}

#[verifier::ext_equal]
pub enum StepView {
    Warm { run: ColdRun, left: usize, state: StateView },
    Settle { state: StateView },
    Measure { run: ColdRun, samples: Seq<F32Bits>, state: StateView },
    Finished { timings: Seq<TimingView> },
}

impl View for SearchStep {
    type V = StepView;

    open spec fn view(&self) -> StepView {
        match self {
            SearchStep::Warm(step) => StepView::Warm {
                run: step.run,
                left: step.left,
                state: step.state@,
            },
            SearchStep::Settle(step) => StepView::Settle { state: step.state@ },
            SearchStep::Measure(step) => StepView::Measure {
                run: step.run,
                samples: step.samples@,
                state: step.state@,
            },
            SearchStep::Finished(timings) => StepView::Finished { timings: views(timings@) },
        }
    }
}

impl StateView {
    /// The state after one more eviction.
    pub open spec fn evicted(self) -> StateView {
        StateView { seed: next_seed(self.seed), ..self }
    }

    /// The run that the next eviction begins.
    pub open spec fn run(self) -> ColdRun {
        let t = self.tuning;
        ColdRun {
            evict: EvictCall {
                buffer: self.buffer.range().ptr,
                bytes: self.metadata.eviction_buffer_bytes,
                seed: next_seed(self.seed),
                stream: t.stream,
            },
            launch: match t.operands {
                Some((activation, weight)) => Some(
                    CutlassCall {
                        activation,
                        weight,
                        output: self.output.range().ptr,
                        m: t.m as i32,
                        n: t.n as i32,
                        k: t.k as i32,
                        alpha: t.alpha,
                        tactic: self.tactic,
                        stream: t.stream,
                    },
                ),
                None => None,
            },
        }
    }

    /// A warm-up run with so many left, or the wait that follows the last.
    pub open spec fn warming(self, left: usize) -> StepView {
        if left == 0 {
            StepView::Settle { state: self }
        } else {
            StepView::Warm { run: self.run(), left, state: self.evicted() }
        }
    }

    /// A timed run after these.
    pub open spec fn measuring(self, samples: Seq<F32Bits>) -> StepView {
        StepView::Measure { run: self.run(), samples, state: self.evicted() }
    }

    /// The first step of the tactic after this one, if there is one.
    pub open spec fn following(self) -> StepView {
        if self.tactic < LAST_CUTLASS_TACTIC {
            (StateView { tactic: (self.tactic + 1) as i32, ..self }).warming(self.tuning.warmup)
        } else {
            StepView::Finished { timings: self.timings }
        }
    }

    /// The state with one more timing.
    pub open spec fn timed(self, samples: Seq<F32Bits>) -> StateView {
        StateView {
            timings: self.timings.push(TimingView { tactic: self.tactic, samples }),
            ..self
        }
    }
}

/// Why a launch failed, if it did: there were no operands in device memory,
/// or the kernel turned the shape down.
pub open spec fn launch_failure(state: StateView, status: i32) -> Option<Error> {
    if state.tuning.operands is None {
        Some(Error::Other(NOT_CUDA_TEXT))
    } else if status != 0 {
        Some(
            Error::TacticRejected {
                tactic: state.tactic,
                m: state.tuning.m,
                n: state.tuning.n,
                k: state.tuning.k,
                status,
            },
        )
    } else {
        None
    }
}

/// What happened in a timed run, in the order in which it happened; what
/// follows a failure does not count.
#[derive(Debug)]
pub struct TimedRun {
    pub evicted: Result<(), Error>,
    pub started: Result<(), Error>,
    pub status: i32,
    pub elapsed: Result<F32Bits, Error>,
}

/// The time of a timed run, or its first failure.
pub open spec fn sample(state: StateView, timed: TimedRun) -> Result<F32Bits, Error> {
    match timed.evicted {
        Err(e) => Err(e),
        Ok(()) => match timed.started {
            Err(e) => Err(e),
            Ok(()) => match launch_failure(state, timed.status) {
                Some(e) => Err(e),
                None => timed.elapsed,
            },
        },
    }
}

impl SearchState {
    fn failed_launch(&self, status: i32) -> (r: Option<Error>)
        ensures
            r == launch_failure(self@, status),
    {
        if self.tuning.operands.is_none() {
            return Some(Error::Other(NOT_CUDA_TEXT));
        }
        if status != 0 {
            return Some(
                Error::TacticRejected {
                    tactic: self.tactic,
                    m: self.tuning.m,
                    n: self.tuning.n,
                    k: self.tuning.k,
                    status,
                },
            );
        }
        None
    }

    fn cold_run(&mut self) -> (run: ColdRun)
        ensures
            run == old(self)@.run(),
            final(self)@ == old(self)@.evicted(),
    {
        let t: CutlassTuning = self.tuning;
        let evict: EvictCall = self.evictor.evict(t.stream);
        let launch: Option<CutlassCall> = match t.operands {
            Some((activation, weight)) => Some(
                CutlassCall {
                    activation,
                    weight,
                    output: self.output.ptr(),
                    m: t.m as i32,
                    n: t.n as i32,
                    k: t.k as i32,
                    alpha: t.alpha,
                    tactic: self.tactic,
                    stream: t.stream,
                },
            ),
            None => None,
        };
        ColdRun { evict, launch }
    }

    fn warm(self, left: usize) -> (step: SearchStep)
        ensures
            step@ == self@.warming(left),
    {
        let mut state: SearchState = self;
        if left == 0 {
            return SearchStep::Settle(SettleStep { state });
        }
        let run: ColdRun = state.cold_run();
        SearchStep::Warm(WarmStep { run, left, state })
    }

    fn measure(self, samples: Vec<F32Bits>) -> (step: SearchStep)
        ensures
            step@ == self@.measuring(samples@),
    {
        let mut state: SearchState = self;
        let run: ColdRun = state.cold_run();
        SearchStep::Measure(MeasureStep { run, samples, state })
    }

    fn follow(self) -> (step: SearchStep)
        ensures
            step@ == self@.following(),
    {
        if self.tactic < LAST_CUTLASS_TACTIC {
            let state: SearchState = SearchState {
                tuning: self.tuning,
                output: self.output,
                evictor: self.evictor,
                tactic: self.tactic + 1,
                timings: self.timings,
            };
            let warmup: usize = state.tuning.warmup;
            state.warm(warmup)
        } else {
            SearchStep::Finished(self.timings)
        }
    }
}

/// The state in which the first tactic begins.
pub open spec fn initial_state(
    tuning: CutlassTuning,
    output: CudaBuffer,
    evictor: ColdL2Evictor,
) -> StateView {
    StateView {
        tuning,
        output,
        buffer: evictor.buffer,
        metadata: evictor.metadata,
        seed: evictor.seed,
        tactic: 0,
        timings: Seq::empty(),
    }
}

impl CutlassTuning {
    /// Begins with the first tactic.
    pub fn begin(self, output: CudaBuffer, evictor: ColdL2Evictor) -> (step: SearchStep)
        ensures
            step@ == initial_state(self, output, evictor).warming(self.warmup),
    {
        let state: SearchState = SearchState {
            tuning: self,
            output,
            evictor,
            tactic: 0,
            timings: Vec::new(),
        };
        assert(state@ =~= initial_state(self, output, evictor));
        state.warm(self.warmup)
    }
}

impl WarmStep {
    /// Goes on after a warm-up run: one that failed drops its tactic.
    pub fn done(self, evicted: Result<(), Error>, status: i32) -> (step: SearchStep)
        ensures
            step@ == (if evicted is Err || launch_failure(self.state@, status) is Some {
                self.state@.following()
            } else {
                self.state@.warming(
                    if self.left == 0 {
                        0
                    } else {
                        (self.left - 1) as usize
                    },
                )
            }),
    {
        if evicted.is_err() || self.state.failed_launch(status).is_some() {
            return self.state.follow();
        }
        let left: usize = if self.left == 0 {
            0
        } else {
            self.left - 1
        };
        self.state.warm(left)
    }
}

impl SettleStep {
    /// Goes on after the wait: a failed one ends the search.
    pub fn done(self, synchronized: Result<(), Error>) -> (step: Result<SearchStep, Error>)
        ensures
            match synchronized {
                Err(e) => step == Err::<SearchStep, Error>(e),
                Ok(()) => step is Ok && step->Ok_0@ == self.state@.measuring(Seq::empty()),
            },
    {
        match synchronized {
            Err(e) => Err(e),
            Ok(()) => Ok(self.state.measure(Vec::new())),
        }
    }
}

impl MeasureStep {
    /// Goes on after a timed run: a failed one ends the search, the last one
    /// completes the tactic.
    pub fn done(self, timed: TimedRun) -> (step: Result<SearchStep, Error>)
        ensures
            match sample(self.state@, timed) {
                Err(e) => step == Err::<SearchStep, Error>(e),
                Ok(milliseconds) => {
                    let samples = self.samples@.push(milliseconds);
                    &&& step is Ok
                    &&& step->Ok_0@ == (if samples.len() < self.state.tuning.iterations {
                        self.state@.measuring(samples)
                    } else {
                        self.state@.timed(samples).following()
                    })
                },
            },
    {
        if let Err(e) = timed.evicted {
            return Err(e);
        }
        if let Err(e) = timed.started {
            return Err(e);
        }
        if let Some(e) = self.state.failed_launch(timed.status) {
            return Err(e);
        }
        let milliseconds: F32Bits = match timed.elapsed {
            Ok(milliseconds) => milliseconds,
            Err(e) => {
                return Err(e);
            },
        };
        let ghost before = self.state@;
        let mut state: SearchState = self.state;
        let mut samples: Vec<F32Bits> = self.samples;
        samples.push(milliseconds);
        if samples.len() < state.tuning.iterations {
            return Ok(state.measure(samples));
        }
        let tactic: i32 = state.tactic;
        let ghost taken = samples@;
        state.timings.push(CutlassTacticTiming { tactic, samples });
        assert(state@ =~= before.timed(taken));
        Ok(state.follow())
    }
}

/// Every timing is of another tactic, in ascending order below `bound`, and
/// holds as many samples as were asked for.
pub open spec fn complete(timings: Seq<TimingView>, iterations: usize, bound: int) -> bool {
    &&& forall|i: int|
        0 <= i < timings.len() ==> 0 <= (#[trigger] timings[i]).tactic < bound
            && timings[i].samples.len() == iterations
    &&& forall|i: int, j: int|
        0 <= i < j < timings.len() ==> (#[trigger] timings[i]).tactic < (
        #[trigger] timings[j]).tactic
}

/// A step that a search can be in.
pub open spec fn sound(step: StepView, iterations: usize) -> bool {
    match step {
        StepView::Warm { state, .. } | StepView::Settle { state } => sound_state(state, iterations),
        StepView::Measure { samples, state, .. } => sound_state(state, iterations) && samples.len()
            < iterations,
        StepView::Finished { timings } => complete(
            timings,
            iterations,
            LAST_CUTLASS_TACTIC + 1,
        ),
    }
}

/// A state that a search can be in.
pub open spec fn sound_state(state: StateView, iterations: usize) -> bool {
    &&& state.tuning.iterations == iterations
    &&& 0 <= state.tactic <= LAST_CUTLASS_TACTIC
    &&& complete(state.timings, iterations, state.tactic as int)
}

/// A search reports each tactic at most once, in ascending order, each with
/// exactly the samples asked for: so it begins, and so every step goes on.
pub proof fn law_search_reports_complete_timings(
    tuning: CutlassTuning,
    output: CudaBuffer,
    evictor: ColdL2Evictor,
    state: StateView,
    samples: Seq<F32Bits>,
    milliseconds: F32Bits,
    left: usize,
)
    requires
        sound_state(state, tuning.iterations),
        samples.len() < tuning.iterations,
    ensures
        sound(
            initial_state(tuning, output, evictor).warming(tuning.warmup),
            tuning.iterations,
        ),
        sound(state.following(), tuning.iterations),
        sound(state.warming(left), tuning.iterations),
        sound(state.measuring(Seq::empty()), tuning.iterations),
        samples.len() + 1 < tuning.iterations ==> sound(
            state.measuring(samples.push(milliseconds)),
            tuning.iterations,
        ),
        samples.len() + 1 == tuning.iterations ==> sound(
            state.timed(samples.push(milliseconds)).following(),
            tuning.iterations,
        ),
{
}

/// Successive runs of a search evict with different seeds.
pub proof fn law_successive_evictions_differ(state: StateView)
    ensures
        state.run().evict.seed != state.evicted().run().evict.seed,
{
}

/// Why a measurement of the matrix library's algorithms is refused, if it is.
pub open spec fn cublaslt_rejection(
    max_algorithms: usize,
    iterations: usize,
    activation: &Tensor,
    weight: &Tensor,
) -> Option<Error> {
    if max_algorithms == 0 || max_algorithms > MAX_ALGORITHMS || iterations == 0 {
        Some(Error::Other(CUBLASLT_COUNTS_TEXT))
    } else if !e4m3_product(activation, weight) {
        Some(Error::Other(CUBLASLT_OPERANDS_TEXT))
    } else {
        None
    }
}

/// A checked measurement of the matrix library's algorithms.
#[derive(Clone, Copy, Debug)]
pub struct CublasLtTuning {
    pub operands: Option<(usize, usize)>,
    pub m: usize,
    pub n: usize,
    pub k: usize,
    pub alpha: Alpha,
    pub max_algorithms: usize,
    pub warmup: usize,
    pub iterations: usize,
    pub output_bytes: usize,
    pub stream: usize,
}

/// Refuses a measurement that cannot be made.
pub fn check_cublaslt_measurement(
    max_algorithms: usize,
    iterations: usize,
    activation: &Tensor,
    weight: &Tensor,
) -> (r: Result<(), Error>)
    ensures
        match r {
            Ok(()) => cublaslt_rejection(max_algorithms, iterations, activation, weight) is None,
            Err(e) => cublaslt_rejection(max_algorithms, iterations, activation, weight) == Some(
                e,
            ),
        },
{
    if max_algorithms == 0 || max_algorithms > MAX_ALGORITHMS || iterations == 0 {
        return Err(Error::Other(CUBLASLT_COUNTS_TEXT));
    }
    if !is_e4m3_product(activation, weight) {
        return Err(Error::Other(CUBLASLT_OPERANDS_TEXT));
    }
    Ok(())
}

/// Starts a measurement of the matrix library's algorithms for a product.
pub fn autotune_cublaslt_gemm_f16(
    ctx: &CudaContext,
    activation: &Tensor,
    weight: &Tensor,
    activation_scale: F32Bits,
    weight_scale: F32Bits,
    max_algorithms: usize,
    warmup: usize,
    iterations: usize,
) -> (tuning: Result<CublasLtTuning, Error>)
    requires
        cublaslt_rejection(max_algorithms, iterations, activation, weight) is None ==> (
        activation.extents()[0] * weight.extents()[1]) * 2 <= usize::MAX,
    ensures
        match cublaslt_rejection(max_algorithms, iterations, activation, weight) {
            Some(e) => tuning == Err::<CublasLtTuning, Error>(e),
            None => tuning == Ok::<CublasLtTuning, Error>(
                CublasLtTuning {
                    operands: operand_addresses(activation, weight),
                    m: activation.extents()[0],
                    n: weight.extents()[1],
                    k: activation.extents()[1],
                    alpha: Alpha { activation: activation_scale, weight: weight_scale },
                    max_algorithms,
                    warmup,
                    iterations,
                    output_bytes: ((activation.extents()[0] * weight.extents()[1]) * 2) as usize,
                    stream: ctx.stream.handle,
                },
            ),
        },
        tuning matches Ok(t) ==> {
            &&& t.operands matches Some((a, b)) ==> activation.cuda_range().unwrap().ptr == a && weight.cuda_range().unwrap().ptr == b
            &&& t.m == activation.extents()[0]
            &&& t.n == weight.extents()[1]
            &&& t.k == activation.extents()[1]
            &&& t.k == weight.extents()[0]
            &&& t.alpha.activation == activation_scale
            &&& t.alpha.weight == weight_scale
            &&& t.warmup == warmup
            &&& t.iterations == iterations
            &&& t.output_bytes == (t.m * t.n) * DType::F16.size()
            &&& t.stream == ctx.stream.handle
        },
{
    check_cublaslt_measurement(max_algorithms, iterations, activation, weight)?;
    let m: usize = activation.shape.dims()[0];
    let k: usize = activation.shape.dims()[1];
    let n: usize = weight.shape.dims()[1];
    Ok(
        CublasLtTuning {
            operands: addresses(activation, weight),
            m,
            n,
            k,
            alpha: Alpha { activation: activation_scale, weight: weight_scale },
            max_algorithms,
            warmup,
            iterations,
            output_bytes: m * n * 2,
            stream: ctx.stream.handle,
        },
    )
}

/// The call that measures the matrix library's algorithms.
#[derive(Clone, Copy, Debug, PartialEq, Eq, Structural)]
pub struct CublasLtAutotuneCall {
    pub activation: usize,
    pub weight: usize,
    pub output: usize,
    pub eviction_buffer: usize,
    pub eviction_bytes: usize,
    pub m: i32,
    pub n: i32,
    pub k: i32,
    pub alpha: Alpha,
    pub max_algorithms: i32,
    pub warmup: i32,
    pub iterations: i32,
    pub stream: usize,
}

/// The time of one of the matrix library's algorithms, in milliseconds.
#[derive(Clone, Copy, Debug, PartialEq, Eq, Structural)]
pub struct CublasLtAlgorithmTiming {
    pub heuristic_rank: i32,
    pub milliseconds: F32Bits,
}

/// The timings of the first `n` algorithms that ran: those with a time that is
/// not negative.
pub open spec fn measured(milliseconds: Seq<F32Bits>, n: int) -> Seq<CublasLtAlgorithmTiming>
    decreases n,
{
    if n <= 0 {
        Seq::empty()
    } else {
        let before = measured(milliseconds, n - 1);
        let last = milliseconds[n - 1];
        if last.at_least_zero() {
            before.push(
                CublasLtAlgorithmTiming { heuristic_rank: (n - 1) as i32, milliseconds: last },
            )
        } else {
            before
        }
    }
}

/// How many of the times that were asked for were filled in.
pub open spec fn filled(returned: i32, held: nat) -> int {
    if returned <= 0 {
        0
    } else if returned <= held {
        returned as int
    } else {
        held as int
    }
}

impl CublasLtTuning {
    /// How many times there are: one for each algorithm asked for, as far as
    /// they were handed over.
    pub open spec fn held(self, milliseconds: Seq<F32Bits>) -> nat {
        if milliseconds.len() <= self.max_algorithms {
            milliseconds.len()
        } else {
            self.max_algorithms as nat
        }
    }

    /// The measuring call on an output and an evictor, where the operands are
    /// in device memory.
    pub open spec fn measuring(self, output: CudaBuffer, evictor: ColdL2Evictor) -> Option<
        CublasLtAutotuneCall,
    > {
        match self.operands {
            None => None,
            Some((activation, weight)) => Some(
                CublasLtAutotuneCall {
                    activation,
                    weight,
                    output: output.range().ptr,
                    eviction_buffer: evictor.buffer.range().ptr,
                    eviction_bytes: evictor.metadata.eviction_buffer_bytes,
                    m: self.m as i32,
                    n: self.n as i32,
                    k: self.k as i32,
                    alpha: self.alpha,
                    max_algorithms: self.max_algorithms as i32,
                    warmup: self.warmup as i32,
                    iterations: self.iterations as i32,
                    stream: self.stream,
                },
            ),
        }
    }

    /// The measuring call, once output and evictor are there.
    pub fn call(&self, output: &CudaBuffer, evictor: &ColdL2Evictor) -> (call: Result<
        CublasLtAutotuneCall,
        Error,
    >)
        ensures
            match self.measuring(*output, *evictor) {
                None => call == Err::<CublasLtAutotuneCall, Error>(Error::Other(NOT_CUDA_TEXT)),
                Some(c) => call == Ok::<CublasLtAutotuneCall, Error>(c),
            },
            call is Ok <==> self.operands is Some,
            call matches Ok(c) ==> {
                &&& self.operands == Some((c.activation, c.weight))
                &&& c.output == output.range().ptr
                &&& c.eviction_buffer == evictor.buffer.range().ptr
                &&& c.eviction_bytes == evictor.metadata.eviction_buffer_bytes
                &&& (c.m, c.n, c.k) == (self.m as i32, self.n as i32, self.k as i32)
                &&& c.alpha == self.alpha
                &&& c.max_algorithms == self.max_algorithms as i32
                &&& c.warmup == self.warmup as i32
                &&& c.iterations == self.iterations as i32
                &&& c.stream == self.stream
            },
    {
        match self.operands {
            None => Err(Error::Other(NOT_CUDA_TEXT)),
            Some((activation, weight)) => Ok(
                CublasLtAutotuneCall {
                    activation,
                    weight,
                    output: output.ptr(),
                    eviction_buffer: evictor.buffer.ptr(),
                    eviction_bytes: evictor.metadata.eviction_buffer_bytes,
                    m: self.m as i32,
                    n: self.n as i32,
                    k: self.k as i32,
                    alpha: self.alpha,
                    max_algorithms: self.max_algorithms as i32,
                    warmup: self.warmup as i32,
                    iterations: self.iterations as i32,
                    stream: self.stream,
                },
            ),
        }
    }

    /// The timings among what the call filled in.
    pub fn timings(&self, outcome: Result<i32, Error>, milliseconds: &Vec<F32Bits>) -> (timings:
        Result<Vec<CublasLtAlgorithmTiming>, Error>)
        ensures
            match outcome {
                Err(e) => timings == Err::<Vec<CublasLtAlgorithmTiming>, Error>(e),
                Ok(returned) => timings is Ok && timings->Ok_0@ == measured(
                    milliseconds@,
                    filled(returned, self.held(milliseconds@)),
                ),
            },
    {
        let returned: i32 = match outcome {
            Ok(returned) => returned,
            Err(e) => {
                return Err(e);
            },
        };
        let mut kept: Vec<CublasLtAlgorithmTiming> = Vec::new();
        let mut rank: i32 = 0;
        let mut i: usize = 0;
        while rank < returned && i < milliseconds.len() && i < self.max_algorithms
            invariant
                0 <= rank,
                rank == i,
                i <= filled(returned, self.held(milliseconds@)),
                kept@ == measured(milliseconds@, i as int),
            decreases milliseconds.len() - i,
        {
            let time: F32Bits = milliseconds[i];
            if time.is_at_least_zero() {
                kept.push(CublasLtAlgorithmTiming { heuristic_rank: rank, milliseconds: time });
            }
            rank = rank + 1;
            i = i + 1;
        }
        Ok(kept)
    }
}

/// A rank is reported exactly if its algorithm ran, with its own time, and the
/// reported ranks ascend.
pub proof fn law_exactly_the_measured_ranks_are_reported(milliseconds: Seq<F32Bits>, n: int)
    requires
        0 <= n <= milliseconds.len(),
        n <= i32::MAX,
    ensures
        forall|j: int|
            0 <= j < measured(milliseconds, n).len() ==> {
                let timing = #[trigger] measured(milliseconds, n)[j];
                &&& 0 <= timing.heuristic_rank < n
                &&& timing.milliseconds == milliseconds[timing.heuristic_rank as int]
                &&& timing.milliseconds.at_least_zero()
            },
        forall|r: int|
            0 <= r < n && (#[trigger] milliseconds[r]).at_least_zero() ==> exists|j: int|
                0 <= j < measured(milliseconds, n).len() && (#[trigger] measured(
                    milliseconds,
                    n,
                )[j]).heuristic_rank == r,
        forall|i: int, j: int|
            0 <= i < j < measured(milliseconds, n).len() ==> (#[trigger] measured(
                milliseconds,
                n,
            )[i]).heuristic_rank < (#[trigger] measured(milliseconds, n)[j]).heuristic_rank,
    decreases n,
{
    if n > 0 {
        law_exactly_the_measured_ranks_are_reported(milliseconds, n - 1);
        let before = measured(milliseconds, n - 1);
        let now = measured(milliseconds, n);
        assert forall|r: int|
            0 <= r < n && (#[trigger] milliseconds[r]).at_least_zero() implies exists|j: int|
            0 <= j < now.len() && (#[trigger] now[j]).heuristic_rank == r by {
            if r < n - 1 {
                let j = choose|j: int|
                    0 <= j < before.len() && (#[trigger] before[j]).heuristic_rank == r;
                assert(now[j] == before[j]);
            } else {
                assert(now[now.len() - 1].heuristic_rank == r);
            }
        }
    }
}

/// Every run of a search first displaces the cache, with a seed of its own,
/// and then launches the tactic that is searched, on the product that is
/// measured: its operands each in its own role, its extents, its factor.
pub proof fn law_cold_runs_launch_the_searched_tactic(state: StateView)
    ensures
        ({
            let run = state.run();
            &&& run.evict.buffer == state.buffer.range().ptr
            &&& run.evict.bytes == state.metadata.eviction_buffer_bytes
            &&& run.evict.stream == state.tuning.stream
            &&& run.evict.seed == (state.seed + 1) % 0x1_0000_0000
            &&& run.launch is Some <==> state.tuning.operands is Some
            &&& run.launch matches Some(call) ==> {
                &&& state.tuning.operands == Some((call.activation, call.weight))
                &&& call.output == state.output.range().ptr
                &&& call.m == state.tuning.m as i32
                &&& call.n == state.tuning.n as i32
                &&& call.k == state.tuning.k as i32
                &&& call.alpha == state.tuning.alpha
                &&& call.tactic == state.tactic
                &&& call.stream == state.tuning.stream
            }
            &&& state.evicted().tactic == state.tactic
            &&& state.evicted().timings == state.timings
            &&& state.evicted().tuning == state.tuning
            &&& state.evicted().seed == run.evict.seed
        }),
{
}

/// A measurement of the matrix library runs on the product that is measured,
/// its operands each in its own role, with the counts that were asked for, and
/// displaces the cache with the evictor's whole buffer.
pub proof fn law_library_measurements_are_of_the_measured_product(
    tuning: CublasLtTuning,
    output: CudaBuffer,
    evictor: ColdL2Evictor,
)
    ensures
        tuning.measuring(output, evictor) is Some <==> tuning.operands is Some,
        tuning.measuring(output, evictor) matches Some(c) ==> {
            &&& tuning.operands == Some((c.activation, c.weight))
            &&& c.output == output.range().ptr
            &&& c.eviction_buffer == evictor.buffer.range().ptr
            &&& c.eviction_bytes == evictor.metadata.eviction_buffer_bytes
            &&& tuning.m <= i32::MAX ==> c.m == tuning.m
            &&& tuning.n <= i32::MAX ==> c.n == tuning.n
            &&& tuning.k <= i32::MAX ==> c.k == tuning.k
            &&& c.alpha == tuning.alpha
            &&& tuning.max_algorithms <= i32::MAX ==> c.max_algorithms == tuning.max_algorithms
            &&& tuning.warmup <= i32::MAX ==> c.warmup == tuning.warmup
            &&& tuning.iterations <= i32::MAX ==> c.iterations == tuning.iterations
            &&& c.stream == tuning.stream
        },
{
}

/// The operands of a measurement are where their tensors are, the activation
/// as the activation and the weight as the weight.
pub proof fn law_measured_operands_are_the_tensors(activation: &Tensor, weight: &Tensor)
    ensures
        operand_addresses(activation, weight) matches Some((a, b)) ==> {
            &&& activation.cuda_range() matches Some(range) && activation.starts_at(range.device, a)
            &&& weight.cuda_range() matches Some(range) && weight.starts_at(range.device, b)
        },
        operand_addresses(activation, weight) is Some <==> activation.cuda_range() is Some && weight.cuda_range() is Some,
{
}

/// A search tries the eight tactics one after another, from zero up: each is
/// warmed as often as was asked, then waited for, then measured, and what it
/// took is recorded under its own number.
pub proof fn law_search_tries_every_tactic_in_turn(
    tuning: CutlassTuning,
    output: CudaBuffer,
    evictor: ColdL2Evictor,
    state: StateView,
    samples: Seq<F32Bits>,
    left: usize,
)
    ensures
        initial_state(tuning, output, evictor).tactic == 0,
        initial_state(tuning, output, evictor).timings.len() == 0,
        initial_state(tuning, output, evictor).tuning == tuning,
        initial_state(tuning, output, evictor).output == output,
        initial_state(tuning, output, evictor).buffer == evictor.buffer,
        left == 0 ==> state.warming(left) == (StepView::Settle { state }),
        left > 0 ==> (state.warming(left) matches StepView::Warm { run, left: now, state: next } && run == state.run() && now
            == left && next == state.evicted()),
        state.measuring(samples) matches StepView::Measure { run, samples: taken, state: next } && run == state.run() && taken
            == samples && next == state.evicted(),
        state.tactic < 7 ==> match state.following() {
            StepView::Warm { state: next, left: now, .. } => next.tactic == state.tactic + 1 && next.timings
                == state.timings && now == state.tuning.warmup,
            StepView::Settle { state: next } => next.tactic == state.tactic + 1 && next.timings == state.timings
                && state.tuning.warmup == 0,
            _ => false,
        },
        state.tactic >= 7 ==> state.following() == (StepView::Finished { timings: state.timings }),
        state.timed(samples).timings == state.timings.push(TimingView { tactic: state.tactic, samples }),
        state.timed(samples).tactic == state.tactic,
        state.timed(samples).tuning == state.tuning,
{
}

/// A timed run gives its time exactly where every part of it succeeded, and
/// otherwise the first failure; a kernel that turns the shape down is reported
/// with its tactic and the extents it was tried on.
pub proof fn law_timed_runs_report_the_first_failure(state: StateView, timed: TimedRun)
    ensures
        sample(state, timed) is Ok <==> timed.evicted is Ok && timed.started is Ok && state.tuning.operands is Some
            && timed.status == 0 && timed.elapsed is Ok,
        sample(state, timed) matches Ok(time) ==> timed.elapsed == Ok::<F32Bits, Error>(time),
        timed.evicted matches Err(e) ==> sample(state, timed) == Err::<F32Bits, Error>(e),
        timed.evicted is Ok ==> (timed.started matches Err(e) ==> sample(state, timed) == Err::<F32Bits, Error>(e)),
        timed.evicted is Ok && timed.started is Ok && state.tuning.operands is Some && timed.status != 0 ==> sample(
            state,
            timed,
        ) == Err::<F32Bits, Error>(
            Error::TacticRejected {
                tactic: state.tactic,
                m: state.tuning.m,
                n: state.tuning.n,
                k: state.tuning.k,
                status: timed.status,
            },
        ),
{
}

/// A measurement is accepted exactly when there is something to measure: the
/// kernels, at least one iteration, and an E4M3 product that they can compute,
/// or as many algorithms as the matrix library hands out.
pub proof fn law_measurements_are_accepted_exactly_when_they_can_be_made(
    cutlass: bool,
    max_algorithms: usize,
    iterations: usize,
    activation: &Tensor,
    weight: &Tensor,
)
    ensures
        cutlass_rejection(cutlass, iterations, activation, weight) is None <==> {
            &&& cutlass
            &&& iterations > 0
            &&& activation.dtype is F8E4M3 && weight.dtype is F8E4M3
            &&& activation.extents().len() == 2 && weight.extents().len() == 2
            &&& activation.extents()[1] == weight.extents()[0]
            &&& weight.extents()[1] % 16 == 0 && activation.extents()[1] % 16 == 0
        },
        cublaslt_rejection(max_algorithms, iterations, activation, weight) is None <==> {
            &&& 1 <= max_algorithms <= 64
            &&& iterations > 0
            &&& activation.dtype is F8E4M3 && weight.dtype is F8E4M3
            &&& activation.extents().len() == 2 && weight.extents().len() == 2
            &&& activation.extents()[1] == weight.extents()[0]
        },
{
}

/// As many times are taken as were filled in, and never more than were asked
/// for or handed over.
pub proof fn law_times_are_taken_as_far_as_they_were_filled(
    tuning: CublasLtTuning,
    returned: i32,
    milliseconds: Seq<F32Bits>,
)
    ensures
        ({
            let n = filled(returned, tuning.held(milliseconds));
            &&& 0 <= n <= milliseconds.len()
            &&& n <= tuning.max_algorithms
            &&& n <= returned || n == 0
            &&& n == returned || n == milliseconds.len() || n == tuning.max_algorithms || returned < 0
            &&& returned <= 0 ==> n == 0
        }),
{
}

} // verus!
