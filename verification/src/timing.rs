//! Timing by events on an execution stream.
use vstd::prelude::*;

use crate::context::{CudaContext, CudaStream};
use crate::error::Error;
use crate::scalar::F32Bits;

verus! {

/// A reusable pair of events on a stream.
#[derive(Clone, Copy, Debug)]
pub struct CudaEventTimer {
    pub start: usize,
    pub end: usize,
    pub stream: CudaStream,
}

/// Why a timer could not be made, with the event that is to be destroyed.
#[derive(Debug)]
pub struct AbandonedTimer {
    pub error: Error,
    pub event: usize,
}

/// The recording of an event on a stream.
#[derive(Clone, Copy, Debug, PartialEq, Eq, Structural)]
pub struct EventRecord {
    pub event: usize,
    pub stream: usize,
}

/// The calls of a measurement, in order: make `device` current, record
/// `before`, run the operation, record `after`, wait for it, and ask for the
/// time from `before` to `after`.
#[derive(Clone, Copy, Debug, PartialEq, Eq, Structural)]
pub struct EventMeasurement {
    pub device: usize,
    pub before: EventRecord,
    pub after: EventRecord,
}

/// What the calls of a measurement gave, in order; what follows a failure does
/// not count.
#[derive(Debug)]
pub struct EventRun<T> {
    pub selected: Result<(), Error>,
    pub started: Result<(), Error>,
    pub operation: Result<T, Error>,
    pub stopped: Result<(), Error>,
    pub waited: Result<(), Error>,
    pub elapsed: Result<F32Bits, Error>,
}

/// The value and the time of a measurement, or its first failure.
pub open spec fn measured_value<T>(run: EventRun<T>) -> Result<(T, F32Bits), Error> {
    match (run.selected, run.started) {
        (Err(e), _) => Err(e),
        (Ok(()), Err(e)) => Err(e),
        (Ok(()), Ok(())) => match run.operation {
            Err(e) => Err(e),
            Ok(value) => match (run.stopped, run.waited) {
                (Err(e), _) => Err(e),
                (Ok(()), Err(e)) => Err(e),
                (Ok(()), Ok(())) => match run.elapsed {
                    Err(e) => Err(e),
                    Ok(milliseconds) => Ok((value, milliseconds)),
                },
            },
        },
    }
}

impl CudaEventTimer {
    /// A timer on a context's stream, once its first event was made; where the
    /// second could not be, the first is to be destroyed.
    pub fn new(ctx: &CudaContext, start: usize, end: Result<usize, Error>) -> (timer: Result<
        CudaEventTimer,
        AbandonedTimer,
    >)
        ensures
            timer == (match end {
                Ok(end) => Ok::<CudaEventTimer, AbandonedTimer>(
                    CudaEventTimer { start, end, stream: ctx.stream },
                ),
                Err(error) => Err(AbandonedTimer { error, event: start }),
            }),
            timer matches Ok(t) ==> t.start == start && end == Ok::<usize, Error>(t.end),
    {
        match end {
            Ok(end) => Ok(CudaEventTimer { start, end, stream: ctx.stream }),
            Err(error) => Err(AbandonedTimer { error, event: start }),
        }
    }

    /// The calls that measure work enqueued on the timer's stream.
    pub fn measure(&self) -> (calls: EventMeasurement)
        ensures
            calls == (EventMeasurement {
                device: self.stream.device,
                before: EventRecord { event: self.start, stream: self.stream.handle },
                after: EventRecord { event: self.end, stream: self.stream.handle },
            }),
            calls.before.event == self.start,
            calls.after.event == self.end,
    {
        EventMeasurement {
            device: self.stream.device,
            before: EventRecord { event: self.start, stream: self.stream.handle },
            after: EventRecord { event: self.end, stream: self.stream.handle },
        }
    }
}

impl EventMeasurement {
    /// The value and the time of the measurement, in milliseconds, or its
    /// first failure.
    pub fn finish<T>(&self, run: EventRun<T>) -> (measured: Result<(T, F32Bits), Error>)
        ensures
            measured == measured_value(run),
    {
        match run.selected {
            Err(e) => {
                return Err(e);
            },
            Ok(()) => {},
        }
        match run.started {
            Err(e) => {
                return Err(e);
            },
            Ok(()) => {},
        }
        let value: T = match run.operation {
            Err(e) => {
                return Err(e);
            },
            Ok(value) => value,
        };
        match run.stopped {
            Err(e) => {
                return Err(e);
            },
            Ok(()) => {},
        }
        match run.waited {
            Err(e) => {
                return Err(e);
            },
            Ok(()) => {},
        }
        match run.elapsed {
            Err(e) => Err(e),
            Ok(milliseconds) => Ok((value, milliseconds)),
        }
    }
}

/// A measurement succeeds exactly where every one of its calls did, and then
/// gives the operation's value and the elapsed time; otherwise it gives the
/// failure of the first call that failed.
pub proof fn law_measurements_report_the_first_failure<T>(run: EventRun<T>)
    ensures
        measured_value(run) is Ok <==> run.selected is Ok && run.started is Ok && run.operation is Ok && run.stopped is Ok
            && run.waited is Ok && run.elapsed is Ok,
        measured_value(run) matches Ok((value, milliseconds)) ==> run.operation == Ok::<T, Error>(value) && run.elapsed
            == Ok::<F32Bits, Error>(milliseconds),
        run.selected matches Err(e) ==> measured_value(run) == Err::<(T, F32Bits), Error>(e),
        run.selected is Ok ==> (run.started matches Err(e) ==> measured_value(run) == Err::<(T, F32Bits), Error>(e)),
        run.selected is Ok && run.started is Ok ==> (run.operation matches Err(e) ==> measured_value(run) == Err::<
            (T, F32Bits),
            Error,
        >(e)),
        run.selected is Ok && run.started is Ok && run.operation is Ok ==> (run.stopped matches Err(e) ==> measured_value(
            run,
        ) == Err::<(T, F32Bits), Error>(e)),
        run.selected is Ok && run.started is Ok && run.operation is Ok && run.stopped is Ok ==> (
        run.waited matches Err(e) ==> measured_value(run) == Err::<(T, F32Bits), Error>(e)),
        run.selected is Ok && run.started is Ok && run.operation is Ok && run.stopped is Ok && run.waited is Ok ==> (
        run.elapsed matches Err(e) ==> measured_value(run) == Err::<(T, F32Bits), Error>(e)),
{
}

} // verus!
