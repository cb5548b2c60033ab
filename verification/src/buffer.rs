//! Ranges of device memory.
use std::sync::Arc;

use vstd::prelude::*;

use crate::dtype::{DType, Device};
use crate::error::Error;
use crate::shape::Shape;
use crate::storage::{DeviceAllocation, GpuStorageHandle, Storage};
use crate::tensor::Tensor;

verus! {

/// A range of memory on one CUDA device, with the allocation that owns it.
#[derive(Debug)]
pub struct CudaBuffer {
    handle: GpuStorageHandle,
    device: usize,
}

/// What a [`CudaBuffer`] designates.
pub struct BufferView {
    pub ptr: usize,
    pub len: usize,
    pub device: usize,
    pub owner: Option<Arc<DeviceAllocation>>,
}

impl CudaBuffer {
    /// What the buffer designates.
    pub closed spec fn range(&self) -> BufferView {
        BufferView {
            ptr: self.handle@.ptr,
            len: self.handle@.len,
            device: self.device,
            owner: self.handle@.owner,
        }
    }
}

impl BufferView {
    /// The addresses of the range.
    pub open spec fn covers(self, address: int) -> bool {
        self.ptr <= address < self.ptr + self.len
    }

    /// The two ranges share an address.
    pub open spec fn overlaps(self, other: BufferView) -> bool {
        &&& self.device == other.device
        &&& self.len > 0
        &&& other.len > 0
        &&& self.ptr < other.ptr + other.len
        &&& other.ptr < self.ptr + self.len
    }

    /// The part of the range that starts `offset` bytes in and is `bytes` long.
    pub open spec fn part(self, offset: usize, bytes: usize) -> BufferView {
        BufferView { ptr: (self.ptr + offset) as usize, len: bytes, ..self }
    }
}

/// Two ranges overlap exactly when an address belongs to both.
pub proof fn law_overlap_is_a_shared_address(a: BufferView, b: BufferView)
    requires
        a.device == b.device,
    ensures
        a.overlaps(b) == (exists|address: int| a.covers(address) && b.covers(address)),
{
    if a.overlaps(b) {
        let address: int = if a.ptr >= b.ptr {
            a.ptr as int
        } else {
            b.ptr as int
        };
        assert(a.covers(address) && b.covers(address));
    }
}

impl CudaBuffer {
    /// Takes over a range of `len` bytes at `ptr` on CUDA device `device`.
    pub fn from_raw_parts(ptr: usize, len: usize, device: usize, owner: Option<Arc<DeviceAllocation>>) -> (buffer:
        Self)
        requires
            ptr + len <= usize::MAX,
        ensures
            buffer.range() == (BufferView { ptr, len, device, owner }),
            buffer.range().ptr == ptr,
            buffer.range().len == len,
            buffer.range().device == device,
            buffer.range().owner == owner,
    {
        CudaBuffer { handle: GpuStorageHandle::from_raw_parts(ptr, len, owner), device }
    }

    /// First address.
    pub fn ptr(&self) -> (ptr: usize)
        ensures
            ptr == self.range().ptr,
            ptr + self.range().len <= usize::MAX,
    {
        self.handle.ptr()
    }

    /// Number of bytes.
    pub fn len(&self) -> (len: usize)
        ensures
            len == self.range().len,
            self.range().ptr + len <= usize::MAX,
    {
        self.handle.len()
    }

    /// CUDA device the range lies on.
    pub fn device(&self) -> (device: usize)
        ensures
            device == self.range().device,
    {
        self.device
    }

    /// The part of the range that starts `offset` bytes in and is `bytes` long.
    pub fn view(&self, offset: usize, bytes: usize) -> (part: Result<CudaBuffer, Error>)
        ensures
            match part {
                Ok(buffer) => {
                    &&& offset + bytes <= self.range().len
                    &&& self.range().ptr + offset + bytes <= usize::MAX
                    &&& buffer.range() == self.range().part(offset, bytes)
                },
                Err(e) => {
                    &&& offset + bytes > self.range().len
                    &&& e == (Error::ViewOutOfRange { offset, bytes, available: self.range().len })
                },
            },
            part matches Ok(b) ==> {
                &&& b.range().ptr == self.range().ptr + offset
                &&& b.range().len == bytes
                &&& b.range().device == self.range().device
                &&& b.range().owner == self.range().owner
            },
    {
        let len: usize = self.handle.len();
        let ptr: usize = self.handle.ptr();
        if offset > len || bytes > len - offset {
            return Err(Error::ViewOutOfRange { offset, bytes, available: len });
        }
        let owner: Option<Arc<DeviceAllocation>> = match self.handle.owner() {
            Some(allocation) => Some(Arc::clone(allocation)),
            None => None,
        };
        Ok(CudaBuffer {
            handle: GpuStorageHandle::from_raw_parts(ptr + offset, bytes, owner),
            device: self.device,
        })
    }

    /// Whether two buffers designate one and the same range.
    pub fn is_same(&self, other: &CudaBuffer) -> (r: bool)
        ensures
            r == (self.range() == other.range()),
    {
        let owned: bool = match (self.handle.owner(), other.handle.owner()) {
            (Some(a), Some(b)) => a.id == b.id,
            (None, None) => true,
            _ => false,
        };
        owned && self.ptr() == other.ptr() && self.len() == other.len() && self.device
            == other.device
    }

    /// Whether two ranges share an address.
    pub fn overlaps(&self, other: &CudaBuffer) -> (r: bool)
        ensures
            r == self.range().overlaps(other.range()),
    {
        let a: usize = self.ptr();
        let a_len: usize = self.len();
        let b: usize = other.ptr();
        let b_len: usize = other.len();
        self.device == other.device && a_len > 0 && b_len > 0 && a < b + b_len && b < a + a_len
    }

    /// Binds the whole range to a tensor of exactly that many bytes.
    pub fn as_tensor(&self, shape: Shape, dtype: DType) -> (bound: Result<Tensor, Error>)
        ensures
            match bound {
                Ok(tensor) => {
                    &&& crate::shape::product(shape@) * dtype.size() == self.range().len
                    &&& tensor.shape == shape
                    &&& tensor.dtype == dtype
                    &&& tensor.cuda_range() == Some(self.range())
                },
                Err(e) => {
                    &&& crate::shape::product(shape@) * dtype.size() != self.range().len
                    &&& e == (Error::TensorSize { available: self.range().len })
                },
            },
    {
        let len: usize = self.len();
        let count: usize = match shape.numel() {
            Some(count) => count,
            None => {
                assert(crate::shape::product(shape@) * dtype.size() > usize::MAX) by (nonlinear_arith)
                    requires
                        crate::shape::product(shape@) > usize::MAX,
                        dtype.size() >= 1,
                ;
                return Err(Error::TensorSize { available: len });
            },
        };
        match count.checked_mul(dtype.size_in_bytes()) {
            Some(bytes) => {
                if bytes == len {
                    Ok(self.into_tensor(shape, dtype))
                } else {
                    Err(Error::TensorSize { available: len })
                }
            },
            None => Err(Error::TensorSize { available: len }),
        }
    }

    /// Binds the range to a tensor without relating its size to the extents.
    pub fn into_tensor(&self, shape: Shape, dtype: DType) -> (tensor: Tensor)
        ensures
            tensor.shape == shape,
            tensor.dtype == dtype,
            tensor.cuda_range() == Some(self.range()),
    {
        Tensor {
            shape,
            dtype,
            storage: Storage::Gpu { device: Device::Cuda(self.device), handle: self.handle.clone() },
        }
    }

    /// The range behind a CUDA tensor.
    pub fn from_tensor(tensor: &Tensor) -> (range: Result<CudaBuffer, Error>)
        ensures
            match range {
                Ok(buffer) => tensor.cuda_range() == Some(buffer.range()),
                Err(e) => tensor.cuda_range() is None && e == Error::Other(NOT_CUDA_TEXT),
            },
    {
        match &tensor.storage {
            Storage::Gpu { device: Device::Cuda(device), handle } => {
                Ok(CudaBuffer { handle: handle.clone(), device: *device })
            },
            _ => Err(Error::Other(NOT_CUDA_TEXT)),
        }
    }
}

impl Clone for CudaBuffer {
    /// The same range, which shares its allocation.
    fn clone(&self) -> (buffer: Self)
        ensures
            buffer == *self,
    {
        CudaBuffer { handle: self.handle.clone(), device: self.device }
    }
}

/// Refusal of a tensor that is not in CUDA memory.
pub const NOT_CUDA_TEXT: &'static str = "tensor is not stored on a CUDA device";

impl Tensor {
    /// The range of CUDA memory behind the tensor, where there is one.
    pub open spec fn cuda_range(&self) -> Option<BufferView> {
        match self.storage {
            Storage::Gpu { device: Device::Cuda(device), handle } => Some(
                BufferView { ptr: handle@.ptr, len: handle@.len, device, owner: handle@.owner },
            ),
            _ => None,
        }
    }

    /// The tensor's storage starts at this address of this CUDA device.
    pub open spec fn starts_at(&self, device: usize, address: usize) -> bool {
        self.storage matches Storage::Gpu { device: place, handle } && place == Device::Cuda(device)
            && handle@.ptr == address
    }

    /// The tensor is on this CUDA device, of this type and these extents, and
    /// its storage has room for them and the alignment of the type.
    pub open spec fn holds(&self, device: usize, dtype: DType, dims: Seq<usize>) -> bool {
        &&& self.dtype == dtype
        &&& self.extents() == dims
        &&& self.storage matches Storage::Gpu { device: place, handle } && place == Device::Cuda(
            device,
        ) && crate::shape::product(dims) * dtype.size() <= handle@.len && handle@.ptr % dtype.size()
            == 0
    }

    /// A kernel that is handed this address, and takes it for a packed array
    /// of this type and these extents, reads and writes exactly the elements
    /// of the tensor. Extents are compared in the width that kernels take.
    pub open spec fn packed_at(
        &self,
        device: usize,
        address: usize,
        dtype: DType,
        dims: Seq<i64>,
    ) -> bool {
        &&& self.starts_at(device, address)
        &&& self.holds(device, dtype, self.extents())
        &&& self.extents().len() == dims.len()
        &&& forall|i: int| 0 <= i < dims.len() ==> self.extents()[i] as i64 == #[trigger] dims[i]
    }

    /// A matrix with an element in row `i` and column `j`.
    pub open spec fn has_2(&self, i: int, j: int) -> bool {
        self.extents().len() == 2 && 0 <= i < self.extents()[0] && 0 <= j < self.extents()[1]
    }

    /// Address of an element of a matrix, row by row.
    pub open spec fn address_2(&self, i: int, j: int) -> int {
        match self.storage {
            Storage::Gpu { handle, .. } => handle@.ptr + (i * self.extents()[1] + j)
                * self.dtype.size(),
            _ => 0,
        }
    }

    /// Address of an element of a tensor of three extents, row by row.
    pub open spec fn address_3(&self, i: int, j: int, k: int) -> int {
        match self.storage {
            Storage::Gpu { handle, .. } => handle@.ptr + ((i * self.extents()[1] + j)
                * self.extents()[2] + k) * self.dtype.size(),
            _ => 0,
        }
    }
}

} // verus!
