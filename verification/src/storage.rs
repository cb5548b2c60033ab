//! Raw data behind a tensor.
use std::sync::Arc;

use vstd::prelude::*;

use crate::dtype::Device;

verus! {

/// A share in an allocation of device memory. The memory is released only
/// after the last share of it was dropped.
#[derive(Debug)]
pub struct DeviceAllocation {
    pub id: u64,
}

/// Raw data backing for a tensor.
///
/// CPU storage is a byte buffer. CUDA storage holds an opaque handle that the
/// backend interprets.
#[derive(Clone, Debug)]
pub enum Storage {
    /// CPU-side contiguous byte buffer.
    Cpu(Vec<u8>),
    /// GPU storage owned by the CUDA backend.
    Gpu { device: Device, handle: GpuStorageHandle },
}

/// Opaque handle to GPU memory. It shares the ownership of the allocation, so
/// that device memory stays live while the tensor is live.
#[derive(Debug)]
pub struct GpuStorageHandle {
    ptr: usize,
    len: usize,
    owner: Option<Arc<DeviceAllocation>>,
}

/// What a [`GpuStorageHandle`] designates.
pub struct HandleView {
    pub ptr: usize,
    pub len: usize,
    pub owner: Option<Arc<DeviceAllocation>>,
}

impl View for GpuStorageHandle {
    type V = HandleView;

    closed spec fn view(&self) -> HandleView {
        HandleView { ptr: self.ptr, len: self.len, owner: self.owner }
    }
}

impl GpuStorageHandle {
    /// The designated range does not wrap around the address space.
    #[verifier::type_invariant]
    spec fn in_address_space(self) -> bool {
        self.ptr + self.len <= usize::MAX
    }

    /// Construct a handle for a backend-owned GPU allocation.
    ///
    /// `ptr..ptr + len` is to be a valid device allocation for as long as
    /// `owner` is alive, and must not wrap around the address space.
    pub fn from_raw_parts(ptr: usize, len: usize, owner: Option<Arc<DeviceAllocation>>) -> (handle: Self)
        requires
            ptr + len <= usize::MAX,
        ensures
            handle@ == (HandleView { ptr, len, owner }),
            handle@.ptr == ptr,
            handle@.len == len,
            handle@.owner == owner,
    {
        GpuStorageHandle { ptr, len, owner }
    }

    /// First address of the range.
    pub fn ptr(&self) -> (ptr: usize)
        ensures
            ptr == self@.ptr,
            ptr + self@.len <= usize::MAX,
    {
        proof {
            use_type_invariant(self);
        }
        self.ptr
    }

    /// Number of bytes in the range.
    pub fn len(&self) -> (len: usize)
        ensures
            len == self@.len,
            self@.ptr + len <= usize::MAX,
    {
        proof {
            use_type_invariant(self);
        }
        self.len
    }

    /// Owner of the allocation, where one is retained.
    pub fn owner(&self) -> (owner: Option<&Arc<DeviceAllocation>>)
        ensures
            owner == (match self@.owner {
                Some(allocation) => Some(&allocation),
                None => None,
            }),
    {
        self.owner.as_ref()
    }
}

impl Clone for GpuStorageHandle {
    /// Another handle on the same range, which shares its allocation.
    fn clone(&self) -> (handle: Self)
        ensures
            handle == *self,
    {
        proof {
            use_type_invariant(self);
        }
        let owner: Option<Arc<DeviceAllocation>> = match &self.owner {
            Some(allocation) => Some(Arc::clone(allocation)),
            None => None,
        };
        GpuStorageHandle { ptr: self.ptr, len: self.len, owner }
    }
}

impl Storage {
    /// The two designate the same bytes: equal contents on the CPU, one and
    /// the same range on a GPU.
    pub open spec fn same_bytes(&self, other: &Storage) -> bool {
        match (*self, *other) {
            (Storage::Cpu(a), Storage::Cpu(b)) => a@ == b@,
            (Storage::Gpu { device: d, handle: a }, Storage::Gpu { device: e, handle: b }) => d == e
                && a == b,
            _ => false,
        }
    }

    /// Number of bytes held.
    pub open spec fn byte_len(&self) -> nat {
        match self {
            Storage::Cpu(v) => v@.len(),
            Storage::Gpu { handle, .. } => handle@.len as nat,
        }
    }

    /// Create a zeroed CPU buffer.
    pub fn cpu_zeros(num_bytes: usize) -> (storage: Self)
        ensures
            storage matches Storage::Cpu(v) && v@ == Seq::new(num_bytes as nat, |i: int| 0u8),
    {
        let v: Vec<u8> = vec![0u8; num_bytes];
        assert(v@ =~= Seq::new(num_bytes as nat, |i: int| 0u8));
        Storage::Cpu(v)
    }

    /// Create a CPU buffer from existing bytes.
    pub fn cpu_from_bytes(data: Vec<u8>) -> (storage: Self)
        ensures
            storage == Storage::Cpu(data),
    {
        Storage::Cpu(data)
    }

    /// Number of bytes in this storage.
    pub fn len(&self) -> (len: usize)
        ensures
            len == self.byte_len(),
    {
        match self {
            Storage::Cpu(v) => v.len(),
            Storage::Gpu { handle, .. } => handle.len(),
        }
    }

    /// Whether this storage is empty.
    pub fn is_empty(&self) -> (empty: bool)
        ensures
            empty == (self.byte_len() == 0),
    {
        self.len() == 0
    }

    /// Another view of the same bytes.
    pub fn share(&self) -> (copy: Storage)
        ensures
            self.same_bytes(&copy),
    {
        match self {
            Storage::Cpu(v) => {
                let copy: Vec<u8> = v.clone();
                assert(copy@ =~= v@);
                Storage::Cpu(copy)
            },
            Storage::Gpu { device, handle } => Storage::Gpu { device: *device, handle: handle.clone() },
        }
    }

    /// Get a reference to the CPU data, or `None` if on GPU.
    pub fn as_cpu(&self) -> (data: Option<&[u8]>)
        ensures
            match *self {
                Storage::Cpu(v) => data matches Some(bytes) && bytes@ == v@,
                Storage::Gpu { .. } => data is None,
            },
    {
        match self {
            Storage::Cpu(v) => Some(v.as_slice()),
            Storage::Gpu { .. } => None,
        }
    }

    /// Get a mutable reference to the CPU data, or `None` if on GPU.
    pub fn as_cpu_mut(&mut self) -> (data: Option<&mut [u8]>)
        ensures
            match data {
                Some(bytes) => {
                    &&& *old(self) matches Storage::Cpu(before) && bytes@ == before@
                    &&& *final(self) matches Storage::Cpu(after) && after@ == final(bytes)@
                },
                None => !(*old(self) is Cpu) && *final(self) == *old(self),
            },
    {
        match self {
            Storage::Cpu(v) => Some(v.as_mut_slice()),
            Storage::Gpu { .. } => None,
        }
    }

    /// Get a reference to the GPU handle, or `None` if on CPU.
    pub fn as_gpu(&self) -> (found: Option<&GpuStorageHandle>)
        ensures
            match *self {
                Storage::Cpu(_) => found is None,
                Storage::Gpu { handle, .. } => found == Some(&handle),
            },
    {
        match self {
            Storage::Cpu(_) => None,
            Storage::Gpu { handle, .. } => Some(handle),
        }
    }
}

} // verus!
