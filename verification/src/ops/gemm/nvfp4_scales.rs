//! Block scales of NVFP4 operands.
use vstd::prelude::*;

use crate::buffer::CudaBuffer;
use crate::context::CudaContext;
use crate::dtype::DType;
use crate::error::Error;
use crate::ops::binding::tensor_storage;
use crate::tensor::Tensor;

verus! {

pub const NVFP4_SHAPE_TEXT: &'static str = "NVFP4 scale buffer needs a nonempty shape";

/// The native query for the size of a scale buffer.
#[derive(Clone, Copy, Debug, PartialEq, Eq, Structural)]
pub struct ScaleQuery {
    pub rows: i64,
    pub k: i64,
    pub block_size: u32,
}

/// The shape has a scale buffer: it is not empty and fits the native query.
pub open spec fn scalable(rows: usize, k: usize) -> bool {
    0 < rows <= i32::MAX && 0 < k <= i32::MAX
}

/// Why a scale buffer has no size, if it has none: the shape, or a native
/// answer of zero, which stands for an unsupported block size.
pub open spec fn scale_rejection(
    rows: usize,
    k: usize,
    block_size: u32,
    reported: u64,
) -> Option<Error> {
    if !scalable(rows, k) {
        Some(Error::Other(NVFP4_SHAPE_TEXT))
    } else if reported == 0 {
        Some(Error::Nvfp4BlockSize { block_size })
    } else {
        None
    }
}

/// Scales in one row of a checkpoint's scale tensor.
pub open spec fn block_count(k: usize, block_size: u32) -> int {
    (k + block_size - 1) / block_size as int
}

/// The native query for the bytes that an NVFP4 block-scale buffer occupies in
/// the layout the kernel reads.
///
/// `rows` is M for an activation operand and N for a weight. The layout pads
/// the logical `[rows, k / block_size]` grid up to the kernel's atom
/// boundaries, so the answer is queried rather than derived.
pub fn nvfp4_scale_query(rows: usize, k: usize, block_size: u32) -> (query: Result<
    ScaleQuery,
    Error,
>)
    ensures
        match query {
            Ok(q) => scalable(rows, k) && q == (ScaleQuery {
                rows: rows as i64,
                k: k as i64,
                block_size,
            }),
            Err(e) => !scalable(rows, k) && e == Error::Other(NVFP4_SHAPE_TEXT),
        },
{
    if rows == 0 || k == 0 || rows > i32::MAX as usize || k > i32::MAX as usize {
        return Err(Error::Other(NVFP4_SHAPE_TEXT));
    }
    Ok(ScaleQuery { rows: rows as i64, k: k as i64, block_size })
}

/// Bytes of a scale buffer, from what the native query reported.
pub fn nvfp4_scale_buffer_bytes(rows: usize, k: usize, block_size: u32, reported: u64) -> (bytes:
    Result<usize, Error>)
    ensures
        match bytes {
            Ok(n) => scale_rejection(rows, k, block_size, reported) is None && n
                == reported as usize,
            Err(e) => scale_rejection(rows, k, block_size, reported) == Some(e),
        },
{
    nvfp4_scale_query(rows, k, block_size)?;
    if reported == 0 {
        return Err(Error::Nvfp4BlockSize { block_size });
    }
    Ok(reported as usize)
}

/// The native launch that rewrites block scales.
#[derive(Clone, Copy, Debug, PartialEq, Eq, Structural)]
pub struct PackScalesCall {
    pub source: usize,
    pub destination: usize,
    pub rows: i64,
    pub k: i64,
    pub block_size: u32,
    pub stream: usize,
}

/// Why the rewriting of block scales is refused, if it is.
pub open spec fn pack_rejection(
    device: usize,
    source: &Tensor,
    destination: &Tensor,
    rows: usize,
    k: usize,
    block_size: u32,
    reported: u64,
) -> Option<Error> {
    let source_refusal = crate::ops::binding::operand_rejection(device, source, DType::F8E4M3, source.extents());
    let destination_refusal = crate::ops::binding::operand_rejection(
        device,
        destination,
        DType::F8E4M3,
        destination.extents(),
    );
    if scale_rejection(rows, k, block_size, reported) is Some {
        scale_rejection(rows, k, block_size, reported)
    } else if source_refusal is Some {
        source_refusal
    } else if crate::ops::binding::bound_range(source).len < rows * block_count(k, block_size) {
        Some(
            Error::Nvfp4Source {
                held: crate::ops::binding::bound_range(source).len,
                needed: (rows * block_count(k, block_size)) as u64,
            },
        )
    } else if destination_refusal is Some {
        destination_refusal
    } else if crate::ops::binding::bound_range(destination).len < reported as usize {
        Some(
            Error::Nvfp4Destination {
                held: crate::ops::binding::bound_range(destination).len,
                required: reported as usize,
            },
        )
    } else {
        None
    }
}

/// Rewrites checkpoint-order block scales into the layout the kernel reads.
///
/// `source` is the row-major `[rows, k / block_size]` E4M3 tensor as a
/// checkpoint stores it; `destination` holds at least the bytes that the
/// native query `reported`. The target layout depends only on `block_size`, so
/// this runs once when weights are loaded.
pub fn nvfp4_pack_block_scales(
    ctx: &CudaContext,
    source: &Tensor,
    destination: &Tensor,
    rows: usize,
    k: usize,
    block_size: u32,
    reported: u64,
) -> (call: Result<PackScalesCall, Error>)
    requires
        reported != 0 ==> block_size > 0,
    ensures
        match call {
            Ok(c) => {
                &&& pack_rejection(
                    ctx.device_id,
                    source,
                    destination,
                    rows,
                    k,
                    block_size,
                    reported,
                ) is None
                &&& c == (PackScalesCall {
                    source: crate::ops::binding::bound_range(source).ptr,
                    destination: crate::ops::binding::bound_range(destination).ptr,
                    rows: rows as i64,
                    k: k as i64,
                    block_size,
                    stream: ctx.stream.handle,
                })
                &&& source.starts_at(ctx.device_id, c.source)
                &&& destination.starts_at(ctx.device_id, c.destination)
                &&& source.holds(ctx.device_id, DType::F8E4M3, source.extents())
                &&& destination.holds(ctx.device_id, DType::F8E4M3, destination.extents())
                &&& c.rows == rows
                &&& c.k == k
                &&& c.block_size == block_size
                &&& c.stream == ctx.stream.handle
            },
            Err(e) => pack_rejection(
                ctx.device_id,
                source,
                destination,
                rows,
                k,
                block_size,
                reported,
            ) == Some(e),
        },
{
    let required: usize = nvfp4_scale_buffer_bytes(rows, k, block_size, reported)?;
    let blocks: u64 = (k as u64 + block_size as u64 - 1) / block_size as u64;
    proof {
        let b = block_size as int;
        let n = k + b - 1;
        assert(0 <= n / b <= k) by (nonlinear_arith)
            requires
                b >= 1,
                k >= 1,
                n == k + b - 1,
        ;
        assert(0 <= rows * (n / b) <= 0x7fff_ffff * 0x7fff_ffff) by (nonlinear_arith)
            requires
                0 <= n / b <= 0x7fff_ffff,
                0 <= rows <= 0x7fff_ffff,
        ;
    }
    let needed: u64 = rows as u64 * blocks;
    let source_storage: CudaBuffer = tensor_storage(
        ctx,
        source,
        DType::F8E4M3,
        source.shape.dims(),
    )?;
    let held: usize = source_storage.len();
    if (held as u64) < needed {
        return Err(Error::Nvfp4Source { held, needed });
    }
    let destination_storage: CudaBuffer = tensor_storage(
        ctx,
        destination,
        DType::F8E4M3,
        destination.shape.dims(),
    )?;
    let room: usize = destination_storage.len();
    if room < required {
        return Err(Error::Nvfp4Destination { held: room, required });
    }
    Ok(
        PackScalesCall {
            source: source_storage.ptr(),
            destination: destination_storage.ptr(),
            rows: rows as i64,
            k: k as i64,
            block_size,
            stream: ctx.stream.handle,
        },
    )
}

/// The scales of a row are as many as blocks that cover the row, the last one
/// perhaps in part.
pub proof fn law_blocks_cover_the_row(k: usize, block_size: u32)
    requires
        k > 0,
        block_size > 0,
    ensures
        (block_count(k, block_size) - 1) * block_size < k <= block_count(k, block_size) * block_size,
{
    let b = block_size as int;
    let n = k + b - 1;
    vstd::arithmetic::div_mod::lemma_fundamental_div_mod(n, b);
    let q = n / b;
    assert((q - 1) * b == q * b - b && q * b == b * q) by (nonlinear_arith);
}

/// Block scales are rewritten exactly when the shape is one the kernels know,
/// the source holds a scale for every block of every row, and the destination
/// has the room that was reported.
pub proof fn law_scales_are_packed_exactly_when_both_sides_have_room(
    device: usize,
    source: &Tensor,
    destination: &Tensor,
    rows: usize,
    k: usize,
    block_size: u32,
    reported: u64,
)
    ensures
        pack_rejection(device, source, destination, rows, k, block_size, reported) is None <==> {
            &&& 0 < rows <= i32::MAX
            &&& 0 < k <= i32::MAX
            &&& reported != 0
            &&& source.holds(device, DType::F8E4M3, source.extents())
            &&& destination.holds(device, DType::F8E4M3, destination.extents())
            &&& rows * block_count(k, block_size) <= source.cuda_range().unwrap().len
            &&& reported as usize <= destination.cuda_range().unwrap().len
        },
{
}

} // verus!
