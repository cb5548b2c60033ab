//! Binding tensors to operator operands.
use vstd::prelude::*;

use crate::buffer::{BufferView, CudaBuffer};
use crate::context::CudaContext;
use crate::dtype::{DType, Device};
use crate::error::Error;
use crate::tensor::Tensor;

verus! {

/// The first of two refusals.
pub open spec fn first(a: Option<Error>, b: Option<Error>) -> Option<Error> {
    if a is Some {
        a
    } else {
        b
    }
}

/// Refusal of a tensor whose extents are not those of the operand.
pub const OPERAND_SHAPE_TEXT: &'static str = "tensor shape does not match the operator contract";

/// Refusal of a tensor whose storage is too small for its extents.
pub const OPERAND_STORAGE_TEXT: &'static str = "tensor storage is smaller than its shape requires";

/// The range of device memory a CUDA tensor is bound to.
pub open spec fn bound_range(tensor: &Tensor) -> BufferView {
    tensor.cuda_range().unwrap()
}

/// Why `tensor` cannot be an operand of type `dtype` and extents `dims` on
/// CUDA device `device`, if it cannot: another type, other extents, another
/// device, too little storage, or an address the type is not aligned to.
pub open spec fn operand_rejection(
    device: usize,
    tensor: &Tensor,
    dtype: DType,
    dims: Seq<usize>,
) -> Option<Error> {
    if tensor.dtype != dtype {
        Some(Error::DTypeMismatch { expected: dtype, got: tensor.dtype })
    } else if tensor.extents() != dims {
        Some(Error::Other(OPERAND_SHAPE_TEXT))
    } else if tensor.placed_on() != Device::Cuda(device) {
        Some(
            Error::DeviceMismatch {
                expected_device: Device::Cuda(device),
                got_device: tensor.placed_on(),
            },
        )
    } else if crate::shape::product(dims) * dtype.size() > bound_range(tensor).len {
        Some(Error::Other(OPERAND_STORAGE_TEXT))
    } else if bound_range(tensor).ptr % dtype.size() != 0 {
        Some(Error::Misaligned { ptr: bound_range(tensor).ptr, bytes: dtype.size() })
    } else {
        None
    }
}

/// A tensor is accepted as an operand exactly when it is on the device, has
/// the operand's type and extents, and has storage for them at an address the
/// type is aligned to; what it is bound to is that storage.
pub proof fn law_operands_are_accepted_exactly_when_they_fit(
    device: usize,
    tensor: &Tensor,
    dtype: DType,
    dims: Seq<usize>,
)
    ensures
        operand_rejection(device, tensor, dtype, dims) is None <==> tensor.holds(device, dtype, dims),
        tensor.holds(device, dtype, dims) ==> tensor.starts_at(device, bound_range(tensor).ptr),
{
}

/// Resolves the device memory behind an operand after checking the tensor.
pub fn tensor_storage(
    ctx: &CudaContext,
    tensor: &Tensor,
    dtype: DType,
    dims: &Vec<usize>,
) -> (storage: Result<CudaBuffer, Error>)
    ensures
        match storage {
            Ok(buffer) => {
                &&& operand_rejection(ctx.device_id, tensor, dtype, dims@) is None
                &&& tensor.holds(ctx.device_id, dtype, dims@)
                &&& tensor.starts_at(ctx.device_id, buffer.range().ptr)
                &&& buffer.range().ptr + buffer.range().len <= usize::MAX
                &&& tensor.cuda_range() == Some(buffer.range())
                &&& crate::shape::product(dims@) <= usize::MAX
            },
            Err(e) => operand_rejection(ctx.device_id, tensor, dtype, dims@) == Some(e),
        },
{
    if tensor.dtype != dtype {
        return Err(Error::DTypeMismatch { expected: dtype, got: tensor.dtype });
    }
    if !crate::shape::same_dims(&tensor.shape.dims, dims) {
        return Err(Error::Other(OPERAND_SHAPE_TEXT));
    }
    let device: Device = tensor.device();
    if device != Device::Cuda(ctx.device_id) {
        return Err(
            Error::DeviceMismatch {
                expected_device: Device::Cuda(ctx.device_id),
                got_device: device,
            },
        );
    }
    let buffer: CudaBuffer = match CudaBuffer::from_tensor(tensor) {
        Ok(buffer) => buffer,
        Err(e) => {
            assert(false);
            return Err(e);
        },
    };
    let size: usize = dtype.size_in_bytes();
    let count: usize = match crate::shape::checked_product(dims) {
        Some(count) => count,
        None => {
            assert(crate::shape::product(dims@) * dtype.size() > usize::MAX) by (nonlinear_arith)
                requires
                    crate::shape::product(dims@) > usize::MAX,
                    dtype.size() >= 1,
            ;
            return Err(Error::Other(OPERAND_STORAGE_TEXT));
        },
    };
    match count.checked_mul(size) {
        Some(bytes) => {
            if bytes > buffer.len() {
                return Err(Error::Other(OPERAND_STORAGE_TEXT));
            }
        },
        None => {
            return Err(Error::Other(OPERAND_STORAGE_TEXT));
        },
    }
    let ptr: usize = buffer.ptr();
    if ptr % size != 0 {
        return Err(Error::Misaligned { ptr, bytes: size });
    }
    Ok(buffer)
}

/// Refusal of an operand, where it is there.
pub open spec fn optional_rejection(
    device: usize,
    tensor: Option<&Tensor>,
    dtype: DType,
    dims: Seq<usize>,
) -> Option<Error> {
    match tensor {
        Some(t) => operand_rejection(device, t, dtype, dims),
        None => None,
    }
}

/// Address of an optional operand, null where there is none.
pub open spec fn optional_ptr(tensor: Option<&Tensor>) -> usize {
    match tensor {
        Some(t) => bound_range(t).ptr,
        None => 0,
    }
}

/// Address of a range, null where there is none.
pub fn optional_address(storage: &Option<CudaBuffer>) -> (ptr: usize)
    ensures
        ptr == (match *storage {
            Some(b) => b.range().ptr,
            None => 0,
        }),
{
    match storage {
        Some(b) => b.ptr(),
        None => 0,
    }
}

/// Resolves the device memory behind an operand that may be absent.
pub fn optional_storage(
    ctx: &CudaContext,
    tensor: Option<&Tensor>,
    dtype: DType,
    dims: &Vec<usize>,
) -> (r: Result<Option<CudaBuffer>, Error>)
    ensures
        match r {
            Ok(found) => {
                &&& optional_rejection(ctx.device_id, tensor, dtype, dims@) is None
                &&& match tensor {
                    Some(t) => found is Some && t.cuda_range() == Some(found.unwrap().range()),
                    None => found is None,
                }
            },
            Err(e) => optional_rejection(ctx.device_id, tensor, dtype, dims@) == Some(e),
        },
{
    match tensor {
        Some(t) => match tensor_storage(ctx, t, dtype, dims) {
            Ok(buffer) => Ok(Some(buffer)),
            Err(e) => Err(e),
        },
        None => Ok(None),
    }
}

/// One extent as a list.
pub fn dims_1(a: usize) -> (v: Vec<usize>)
    ensures
        v@ == seq![a],
{
    let v: Vec<usize> = vec![a];
    assert(v@ =~= seq![a]);
    v
}

/// Two extents as a list.
pub fn dims_2(a: usize, b: usize) -> (v: Vec<usize>)
    ensures
        v@ == seq![a, b],
{
    let v: Vec<usize> = vec![a, b];
    assert(v@ =~= seq![a, b]);
    v
}

/// Three extents as a list.
pub fn dims_3(a: usize, b: usize, c: usize) -> (v: Vec<usize>)
    ensures
        v@ == seq![a, b, c],
{
    let v: Vec<usize> = vec![a, b, c];
    assert(v@ =~= seq![a, b, c]);
    v
}

/// Four extents as a list.
pub fn dims_4(a: usize, b: usize, c: usize, d: usize) -> (v: Vec<usize>)
    ensures
        v@ == seq![a, b, c, d],
{
    let v: Vec<usize> = vec![a, b, c, d];
    assert(v@ =~= seq![a, b, c, d]);
    v
}

/// Refusal of an operand whose extent a machine word cannot hold.
pub const OPERAND_WIDTH_TEXT: &'static str = "operator operand width overflow";

/// Refusal of an optional operand of extents `[factor * cols]`.
pub open spec fn optional_wide_rejection(
    device: usize,
    tensor: Option<&Tensor>,
    dtype: DType,
    factor: usize,
    cols: usize,
) -> Option<Error> {
    match tensor {
        Some(t) => if factor * cols > usize::MAX {
            Some(Error::Other(OPERAND_WIDTH_TEXT))
        } else {
            operand_rejection(device, t, dtype, seq![(factor * cols) as usize])
        },
        None => None,
    }
}

/// Resolves the device memory behind an optional operand of extents
/// `[factor * cols]`.
pub fn optional_wide_storage(
    ctx: &CudaContext,
    tensor: Option<&Tensor>,
    dtype: DType,
    factor: usize,
    cols: usize,
) -> (r: Result<Option<CudaBuffer>, Error>)
    ensures
        match r {
            Ok(found) => {
                &&& optional_wide_rejection(ctx.device_id, tensor, dtype, factor, cols) is None
                &&& match tensor {
                    Some(t) => found is Some && t.cuda_range() == Some(found.unwrap().range()),
                    None => found is None,
                }
            },
            Err(e) => optional_wide_rejection(ctx.device_id, tensor, dtype, factor, cols) == Some(
                e,
            ),
        },
{
    match tensor {
        Some(t) => match factor.checked_mul(cols) {
            Some(width) => match tensor_storage(ctx, t, dtype, &dims_1(width)) {
                Ok(buffer) => Ok(Some(buffer)),
                Err(e) => Err(e),
            },
            None => Err(Error::Other(OPERAND_WIDTH_TEXT)),
        },
        None => Ok(None),
    }
}

/// A tensor is refused for what is wrong with it: its type first, then its
/// extents, its device, its storage, its address.
pub proof fn law_operands_are_refused_for_what_is_wrong(
    device: usize,
    tensor: &Tensor,
    dtype: DType,
    dims: Seq<usize>,
)
    ensures
        tensor.dtype != dtype ==> operand_rejection(device, tensor, dtype, dims) == Some(
            Error::DTypeMismatch { expected: dtype, got: tensor.dtype },
        ),
        tensor.dtype == dtype && tensor.extents() != dims ==> operand_rejection(device, tensor, dtype, dims) == Some(
            Error::Other(OPERAND_SHAPE_TEXT),
        ),
        tensor.dtype == dtype && tensor.extents() == dims && tensor.placed_on() != Device::Cuda(device)
            ==> operand_rejection(device, tensor, dtype, dims) == Some(
            Error::DeviceMismatch {
                expected_device: Device::Cuda(device),
                got_device: tensor.placed_on(),
            },
        ),
        tensor.dtype == dtype && tensor.extents() == dims && tensor.placed_on() == Device::Cuda(device)
            && tensor.storage.byte_len() < crate::shape::product(dims) * dtype.size() ==> operand_rejection(
            device,
            tensor,
            dtype,
            dims,
        ) == Some(Error::Other(OPERAND_STORAGE_TEXT)),
{
}

/// An operand that may be absent is refused only where it is there, and then
/// as any other; its address is null exactly as its absence says.
pub proof fn law_absent_operands_are_null(
    device: usize,
    tensor: Option<&Tensor>,
    dtype: DType,
    dims: Seq<usize>,
    factor: usize,
    cols: usize,
)
    ensures
        tensor is None ==> optional_rejection(device, tensor, dtype, dims) is None && optional_ptr(tensor) == 0
            && optional_wide_rejection(device, tensor, dtype, factor, cols) is None,
        tensor matches Some(t) ==> optional_rejection(device, tensor, dtype, dims) == operand_rejection(device, t, dtype, dims),
        tensor matches Some(t) ==> (t.holds(device, dtype, dims) ==> t.starts_at(device, optional_ptr(tensor))),
        tensor matches Some(t) ==> (optional_wide_rejection(device, tensor, dtype, factor, cols) is None <==> factor * cols
            <= usize::MAX && t.holds(device, dtype, seq![(factor * cols) as usize])),
{
}

} // verus!
