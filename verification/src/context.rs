//! CUDA device and stream context.
use vstd::prelude::*;

use crate::buffer::CudaBuffer;
use crate::dtype::DType;
use crate::error::Error;
use crate::shape::Shape;
use crate::tensor::Tensor;
use crate::workspace::{output_buffer, OutputBuffer, ThreadState};
#[allow(unused_imports)]
use crate::workspace::ThreadView;

verus! {

/// One memory snapshot of a CUDA device.
#[derive(Clone, Copy, Debug, PartialEq, Eq, Structural)]
pub struct CudaMemoryInfo {
    pub free_bytes: usize,
    pub total_bytes: usize,
}

impl CudaMemoryInfo {
    /// Bytes in use: what the total leaves after the free bytes, never below zero.
    pub open spec fn used(self) -> int {
        if self.free_bytes <= self.total_bytes {
            self.total_bytes - self.free_bytes
        } else {
            0
        }
    }

    /// Bytes in use: what the total leaves after the free bytes, never below zero.
    pub fn used_bytes(self) -> (used: usize)
        ensures
            used == self.used(),
    {
        self.total_bytes.saturating_sub(self.free_bytes)
    }
}

/// Why a memory query of `device_id` that reported `reported` fails, if it does.
pub open spec fn memory_info_rejection(
    device_id: usize,
    reported: Result<(usize, usize), Error>,
) -> Option<Error> {
    if device_id > i32::MAX {
        Some(Error::DeviceOrdinal { device_id })
    } else {
        match reported {
            Err(e) => Some(e),
            Ok((free, total)) => if free > total {
                Some(Error::InvalidMemoryInfo { free, total })
            } else {
                None
            },
        }
    }
}

/// The driver's number for a device.
pub fn device_ordinal(device_id: usize) -> (ordinal: Result<i32, Error>)
    ensures
        match ordinal {
            Ok(n) => n == device_id,
            Err(e) => device_id > i32::MAX && e == (Error::DeviceOrdinal { device_id }),
        },
{
    if device_id > i32::MAX as usize {
        Err(Error::DeviceOrdinal { device_id })
    } else {
        Ok(device_id as i32)
    }
}

/// Device-wide memory from what the driver reported as free and total bytes.
///
/// The query itself is made on the calling thread after the device was made
/// current there; a device number beyond the driver's range is refused
/// whatever was reported.
pub fn device_memory_info(
    device_id: usize,
    reported: Result<(usize, usize), Error>,
) -> (info: Result<CudaMemoryInfo, Error>)
    ensures
        match info {
            Ok(m) => memory_info_rejection(device_id, reported) is None && reported == Ok::<
                (usize, usize),
                Error,
            >((m.free_bytes, m.total_bytes)),
            Err(e) => memory_info_rejection(device_id, reported) == Some(e),
        },
{
    match device_ordinal(device_id) {
        Err(e) => {
            return Err(e);
        },
        Ok(_) => {},
    }
    match reported {
        Err(e) => Err(e),
        Ok((free, total)) => {
            if free > total {
                return Err(Error::InvalidMemoryInfo { free, total });
            }
            Ok(CudaMemoryInfo { free_bytes: free, total_bytes: total })
        },
    }
}

/// In an accepted snapshot, used and free bytes add up to the total.
pub proof fn law_used_and_free_make_the_total(
    device_id: usize,
    reported: Result<(usize, usize), Error>,
    info: CudaMemoryInfo,
)
    requires
        memory_info_rejection(device_id, reported) is None,
        reported == Ok::<(usize, usize), Error>((info.free_bytes, info.total_bytes)),
    ensures
        info.used() + info.free_bytes == info.total_bytes,
{
}

/// An execution stream of one device.
#[derive(Clone, Copy, Debug, PartialEq, Eq, Structural)]
pub struct CudaStream {
    pub device: usize,
    pub handle: usize,
}

/// What the runtime knows of a device.
#[derive(Clone, Copy, Debug, PartialEq, Eq, Structural)]
pub struct CudaDeviceCaps {
    pub compute_major: u32,
    pub compute_minor: u32,
    pub multiprocessor_count: u32,
    pub total_global_memory: u64,
}

/// Request to wait until a stream has run dry.
#[derive(Clone, Copy, Debug, PartialEq, Eq, Structural)]
pub struct SynchronizeCall {
    pub stream: CudaStream,
}

/// A context that could not be completed, and the native runtime to destroy.
#[derive(Debug)]
pub struct AbandonedContext {
    pub runtime: usize,
    pub error: Error,
}

/// The stream and opaque native runtime used by operator executions.
#[derive(Clone, Copy, Debug)]
pub struct CudaContext {
    pub device_id: usize,
    pub stream: CudaStream,
    pub runtime: usize,
    pub caps: CudaDeviceCaps,
}

impl CudaContext {
    /// Completes a context once its stream and native runtime exist.
    ///
    /// Where the capabilities could not be queried, the runtime has to be
    /// destroyed and the failure is reported.
    pub fn new(
        device_id: usize,
        stream: CudaStream,
        runtime: usize,
        caps: Result<CudaDeviceCaps, Error>,
    ) -> (context: Result<CudaContext, AbandonedContext>)
        ensures
            context == (match caps {
                Ok(caps) => Ok::<CudaContext, AbandonedContext>(
                    CudaContext { device_id, stream, runtime, caps },
                ),
                Err(error) => Err(AbandonedContext { runtime, error }),
            }),
    {
        match caps {
            Ok(caps) => Ok(CudaContext { device_id, stream, runtime, caps }),
            Err(error) => Err(AbandonedContext { runtime, error }),
        }
    }

    pub fn device_id(&self) -> (device_id: usize)
        ensures
            device_id == self.device_id,
    {
        self.device_id
    }

    pub fn stream(&self) -> (stream: &CudaStream)
        ensures
            stream == self.stream,
    {
        &self.stream
    }

    pub fn caps(&self) -> (caps: &CudaDeviceCaps)
        ensures
            caps == self.caps,
    {
        &self.caps
    }

    /// The opaque native runtime.
    pub fn runtime(&self) -> (runtime: usize)
        ensures
            runtime == self.runtime,
    {
        self.runtime
    }

    /// Request to wait for everything enqueued on the context's stream.
    pub fn synchronize(&self) -> (call: SynchronizeCall)
        ensures
            call.stream == self.stream,
    {
        SynchronizeCall { stream: self.stream }
    }

    /// Device-wide memory of this context's device, from what the driver reported.
    pub fn memory_info(&self, reported: Result<(usize, usize), Error>) -> (info: Result<
        CudaMemoryInfo,
        Error,
    >)
        ensures
            match info {
                Ok(m) => memory_info_rejection(self.device_id, reported) is None && reported == Ok::<
                    (usize, usize),
                    Error,
                >((m.free_bytes, m.total_bytes)),
                Err(e) => memory_info_rejection(self.device_id, reported) == Some(e),
            },
    {
        device_memory_info(self.device_id, reported)
    }

    /// Starts to provide output storage for an operator: a range of the
    /// active workspace, or else an allocation still to be made.
    pub fn allocate_output(&self, thread: &mut ThreadState, shape: Shape, dtype: DType) -> (output:
        Result<OutputTensor, Error>)
        ensures
            output_outcome(
                old(thread)@,
                final(thread)@,
                self.device_id,
                shape,
                dtype,
                output,
            ),
            output matches Ok(o) ==> o.provides(self.device_id, dtype, shape@),
    {
        let bytes: usize = match shape.numel() {
            Some(count) => match count.checked_mul(dtype.size_in_bytes()) {
                Some(bytes) => bytes,
                None => {
                    return Err(Error::Other(OUTPUT_SIZE_TEXT));
                },
            },
            None => {
                assert(crate::shape::product(shape@) * dtype.size() > usize::MAX) by (nonlinear_arith)
                    requires
                        crate::shape::product(shape@) > usize::MAX,
                        dtype.size() >= 1,
                ;
                return Err(Error::Other(OUTPUT_SIZE_TEXT));
            },
        };
        match output_buffer(thread, self, bytes)? {
            OutputBuffer::Arena(buffer) => Ok(OutputTensor::Ready(buffer.into_tensor(shape, dtype))),
            OutputBuffer::Allocate { bytes, device } => Ok(
                OutputTensor::Allocate(OutputRequest { bytes, device, shape, dtype }),
            ),
        }
    }
}

pub const OUTPUT_SIZE_TEXT: &'static str = "CUDA output size overflow";

/// A zeroed allocation to be made for an output.
#[derive(Debug)]
pub struct OutputRequest {
    pub bytes: usize,
    pub device: usize,
    pub shape: Shape,
    pub dtype: DType,
}

/// An output tensor, or the allocation it waits for.
#[derive(Debug)]
pub enum OutputTensor {
    Ready(Tensor),
    Allocate(OutputRequest),
}

impl OutputTensor {
    /// The output has this type and these extents, on this device, in exactly
    /// as many bytes as they take, whether they are there or still to be
    /// allocated.
    pub open spec fn provides(&self, device: usize, dtype: DType, dims: Seq<usize>) -> bool {
        match *self {
            OutputTensor::Ready(tensor) => {
                &&& tensor.dtype == dtype
                &&& tensor.extents() == dims
                &&& tensor.cuda_range() matches Some(range) && range.device == device && range.len
                    == crate::shape::product(dims) * dtype.size()
            },
            OutputTensor::Allocate(request) => {
                &&& request.dtype == dtype
                &&& request.shape@ == dims
                &&& request.device == device
                &&& request.bytes == crate::shape::product(dims) * dtype.size()
            },
        }
    }
}

/// Output storage is what was asked for: of that type and those extents, on
/// that device, and of their size. Where there is no workspace it is always
/// given, unless no machine word holds its size.
pub proof fn law_output_storage_is_what_was_asked_for(
    before: ThreadView,
    after: ThreadView,
    device: usize,
    shape: Shape,
    dtype: DType,
    output: Result<OutputTensor, Error>,
)
    requires
        output_outcome(before, after, device, shape, dtype, output),
    ensures
        output matches Ok(o) ==> o.provides(device, dtype, shape@),
        before.active is None ==> (output is Ok <==> crate::shape::product(shape@) * dtype.size()
            <= usize::MAX),
        before.active is None ==> after == before,
        output is Err ==> after == before,
{
}

impl OutputRequest {
    /// Binds the allocation that was made to the output.
    pub fn bind(self, buffer: CudaBuffer) -> (tensor: Tensor)
        requires
            buffer.range().len == self.bytes,
            buffer.range().device == self.device,
        ensures
            tensor.shape == self.shape,
            tensor.dtype == self.dtype,
            tensor.cuda_range() == Some(buffer.range()),
    {
        buffer.into_tensor(self.shape, self.dtype)
    }
}

/// `output` is what a request for output storage comes to, and `after` what
/// the thread has become.
pub open spec fn output_outcome(
    before: ThreadView,
    after: ThreadView,
    device: usize,
    shape: Shape,
    dtype: DType,
    output: Result<OutputTensor, Error>,
) -> bool {
    let bytes = crate::shape::product(shape@) * dtype.size();
    if bytes > usize::MAX {
        output == Err::<OutputTensor, Error>(Error::Other(OUTPUT_SIZE_TEXT)) && after == before
    } else {
        match before.active {
            None => {
                &&& output == Ok::<OutputTensor, Error>(
                    OutputTensor::Allocate(
                        OutputRequest { bytes: bytes as usize, device, shape, dtype },
                    ),
                )
                &&& after == before
            },
            Some(w) => match w.allocation_rejection(bytes as usize, device) {
                Some(e) => output == Err::<OutputTensor, Error>(e) && after == before,
                None => {
                    &&& output is Ok
                    &&& output->Ok_0 is Ready
                    &&& output->Ok_0->Ready_0.shape == shape
                    &&& output->Ok_0->Ready_0.dtype == dtype
                    &&& output->Ok_0->Ready_0.cuda_range() == Some(w.allocation(bytes as usize))
                    &&& after == (ThreadView {
                        active: Some(w.allocated(bytes as usize)),
                        ..before
                    })
                },
            },
        }
    }
}

/// Memory is reported exactly where the driver can name the device, answered,
/// and reported no more free than total bytes.
pub proof fn law_memory_is_reported_exactly_when_it_makes_sense(
    device_id: usize,
    reported: Result<(usize, usize), Error>,
)
    ensures
        memory_info_rejection(device_id, reported) is None <==> device_id <= 0x7fff_ffff && (reported matches Ok(
            (free, total),
        ) && free <= total),
        device_id <= 0x7fff_ffff ==> (reported matches Err(e) ==> memory_info_rejection(device_id, reported) == Some(e)),
{
}

} // verus!
