//! Typed, shaped views of storage.
use vstd::prelude::*;

use crate::dtype::{DType, Device};
use crate::error::Error;
use crate::shape::Shape;
use crate::storage::Storage;

verus! {

/// Refusal of a reshape that would change the element count.
pub const RESHAPE_TEXT: &'static str = "reshape must preserve the number of elements";

/// A shaped, typed view of storage.
#[derive(Clone, Debug)]
pub struct Tensor {
    pub shape: Shape,
    pub dtype: DType,
    pub storage: Storage,
}

impl Tensor {
    /// Extents.
    pub open spec fn extents(&self) -> Seq<usize> {
        self.shape@
    }

    /// Where the data lives.
    pub open spec fn placed_on(&self) -> Device {
        match self.storage {
            Storage::Cpu(_) => Device::Cpu,
            Storage::Gpu { device, .. } => device,
        }
    }

    pub fn new(shape: Shape, dtype: DType, storage: Storage) -> (tensor: Self)
        ensures
            tensor == (Tensor { shape, dtype, storage }),
    {
        Tensor { shape, dtype, storage }
    }

    pub fn shape(&self) -> (shape: &Shape)
        ensures
            shape == self.shape,
    {
        &self.shape
    }

    pub fn dtype(&self) -> (dtype: DType)
        ensures
            dtype == self.dtype,
    {
        self.dtype
    }

    pub fn storage(&self) -> (storage: &Storage)
        ensures
            storage == self.storage,
    {
        &self.storage
    }

    /// Where the data lives.
    pub fn device(&self) -> (device: Device)
        ensures
            device == self.placed_on(),
    {
        match &self.storage {
            Storage::Cpu(_) => Device::Cpu,
            Storage::Gpu { device, .. } => *device,
        }
    }

    /// Number of elements, where a machine word can hold it.
    pub fn numel(&self) -> (count: Option<usize>)
        ensures
            match count {
                Some(n) => n == crate::shape::product(self.extents()),
                None => crate::shape::product(self.extents()) > usize::MAX,
            },
    {
        self.shape.numel()
    }

    /// The same bytes under other extents, which must hold as many elements.
    pub fn reshape(&self, shape: Shape) -> (reshaped: Result<Tensor, Error>)
        ensures
            match reshaped {
                Ok(tensor) => {
                    &&& crate::shape::product(shape@) == crate::shape::product(self.extents())
                    &&& crate::shape::product(shape@) <= usize::MAX
                    &&& tensor.shape == shape
                    &&& tensor.dtype == self.dtype
                    &&& self.storage.same_bytes(&tensor.storage)
                },
                Err(e) => {
                    &&& crate::shape::product(shape@) != crate::shape::product(self.extents()) || crate::shape::product(shape@) > usize::MAX
                    &&& e == Error::Other(RESHAPE_TEXT)
                },
            },
    {
        let wanted: Option<usize> = shape.numel();
        let present: Option<usize> = self.shape.numel();
        match (wanted, present) {
            (Some(a), Some(b)) => {
                if a == b {
                    let storage: Storage = self.storage.share();
                    Ok(Tensor { shape, dtype: self.dtype, storage })
                } else {
                    Err(Error::Other(RESHAPE_TEXT))
                }
            },
            _ => Err(Error::Other(RESHAPE_TEXT)),
        }
    }
}

} // verus!
