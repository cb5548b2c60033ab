//! Gathering rows of a table, positions, and patches of images.
use vstd::prelude::*;

use crate::buffer::{BufferView, CudaBuffer};
use crate::context::CudaContext;
use crate::dtype::DType;
use crate::error::Error;
use crate::ops::binding::{dims_1, dims_2, optional_address, optional_storage, tensor_storage};
use crate::ops::launch::{begin_launch, LaunchPolicy, PendingLaunch};
use crate::tensor::Tensor;
use crate::workspace::ThreadState;

verus! {

/// What a gather computes.
#[derive(Clone, Copy, Debug, PartialEq, Eq, Structural)]
pub enum GatherSemantic {
    /// Scaled rows of an embedding table, by token number.
    EmbeddingLookup,
    /// Rows plus a bias plus the row's position within its view.
    BiasPosition,
    /// Patches of 8-bit RGB images, mapped to `[-1, 1]`.
    RgbToPatches,
}

/// How square images are cut into square patches.
#[derive(Clone, Copy, Debug, PartialEq, Eq, Structural)]
pub struct GatherPatchGeometry {
    pub views: usize,
    pub image_size: usize,
    pub patch_size: usize,
    /// Channels are the innermost extent of an image.
    pub nhwc: bool,
}

impl GatherPatchGeometry {
    /// Bytes of all images.
    pub open spec fn image_bytes(self) -> int {
        ((self.image_size * self.image_size) * 3) * self.views
    }

    /// Patches along one side.
    pub open spec fn side(self) -> int {
        self.image_size as int / self.patch_size as int
    }

    /// Patches of all images.
    pub open spec fn patches(self) -> int {
        (self.side() * self.side()) * self.views
    }

    /// Values of one patch.
    pub open spec fn patch_values(self) -> int {
        (self.patch_size * self.patch_size) * 3
    }

    /// There is an image, and patches tile it.
    pub open spec fn tiles(self) -> bool {
        &&& self.views > 0
        &&& self.patch_size > 0
        &&& self.image_size > 0
        &&& self.image_size as int % self.patch_size as int == 0
    }
}

/// A gather request.
#[derive(Debug)]
pub struct GatherArgs<'a> {
    pub semantic: GatherSemantic,
    pub input: Option<&'a Tensor>,
    pub out: &'a Tensor,
    /// Token numbers, 32 bits each.
    pub ids: Option<&'a CudaBuffer>,
    /// Raw 8-bit RGB images.
    pub images: Option<&'a CudaBuffer>,
    pub bias: Option<&'a Tensor>,
    pub position: Option<&'a Tensor>,
    pub vocab_size: usize,
    pub tokens_per_view: usize,
    pub geometry: Option<GatherPatchGeometry>,
    pub policy: LaunchPolicy,
}

impl<'a> GatherArgs<'a> {
    pub fn new(semantic: GatherSemantic, input: &'a Tensor, out: &'a Tensor) -> (args: Self)
        ensures
            args == (GatherArgs {
                semantic,
                input: Some(input),
                out,
                ids: None,
                images: None,
                bias: None,
                position: None,
                vocab_size: 0,
                tokens_per_view: 0,
                geometry: None,
                policy: crate::ops::launch::default_launch_policy(),
            }),
            args.semantic == semantic,
            args.input == Some(input),
            args.out == out,
    {
        GatherArgs {
            semantic,
            input: Some(input),
            out,
            ids: None,
            images: None,
            bias: None,
            position: None,
            vocab_size: 0,
            tokens_per_view: 0,
            geometry: None,
            policy: LaunchPolicy::default(),
        }
    }

    pub fn rgb_to_patches(
        images: &'a CudaBuffer,
        out: &'a Tensor,
        geometry: GatherPatchGeometry,
    ) -> (args: Self)
        ensures
            args == (GatherArgs {
                semantic: GatherSemantic::RgbToPatches,
                input: None,
                out,
                ids: None,
                images: Some(images),
                bias: None,
                position: None,
                vocab_size: 0,
                tokens_per_view: 0,
                geometry: Some(geometry),
                policy: crate::ops::launch::default_launch_policy(),
            }),
            args.out == out,
            args.images == Some(images),
            args.geometry == Some(geometry),
    {
        GatherArgs {
            semantic: GatherSemantic::RgbToPatches,
            input: None,
            out,
            ids: None,
            images: Some(images),
            bias: None,
            position: None,
            vocab_size: 0,
            tokens_per_view: 0,
            geometry: Some(geometry),
            policy: LaunchPolicy::default(),
        }
    }
}

/// The native launch of a gather.
#[derive(Clone, Copy, Debug, PartialEq, Eq, Structural)]
pub struct GatherLaunch {
    pub semantic: GatherSemantic,
    pub dtype: DType,
    pub rows: i64,
    pub cols: i64,
    pub vocab_size: i64,
    pub tokens_per_view: i64,
    pub geometry: GatherPatchGeometry,
    /// A table, a projection or raw images.
    pub input: usize,
    pub ids: usize,
    pub bias: usize,
    pub position: usize,
    pub output: usize,
    pub stream: usize,
}

pub const GATHER_RANK_TEXT: &'static str = "gather tensors must be non-empty matrices";

pub const GATHER_TYPE_TEXT: &'static str = "gather supports F16 or BF16";

pub const GATHER_INPUT_TEXT: &'static str = "gather input does not belong to this semantic";

pub const GATHER_IDS_TEXT: &'static str = "embedding lookup requires token ids";

pub const GATHER_UNRELATED_TEXT: &'static str = "gather binding does not belong to this semantic";

pub const GATHER_POSITION_TEXT: &'static str = "bias-position requires a position table";

pub const GATHER_VIEW_TEXT: &'static str = "gather rows are not whole views";

pub const GATHER_VOCAB_TEXT: &'static str = "embedding vocabulary does not match its table";

pub const GATHER_BUFFER_TEXT: &'static str = "gather buffer is on another device or too small";

pub const GATHER_IMAGES_TEXT: &'static str = "patch gather requires raw images and a geometry";

pub const GATHER_GEOMETRY_TEXT: &'static str = "patches do not tile the images";

/// A buffer on `device` that holds at least `bytes` bytes.
pub open spec fn holds_bytes(buffer: BufferView, device: usize, bytes: int) -> bool {
    buffer.device == device && bytes <= buffer.len
}

/// Refusals of a lookup of `out.rows` rows in an embedding table.
pub open spec fn embedding_rejection(device: usize, r: &GatherArgs<'_>) -> Option<Error> {
    let table = r.input.unwrap();
    let rows = r.out.extents()[0];
    let cols = r.out.extents()[1];
    let t = r.out.dtype;
    if r.images is Some || r.bias is Some || r.position is Some || r.geometry is Some {
        Some(Error::Other(GATHER_UNRELATED_TEXT))
    } else if r.ids is None {
        Some(Error::Other(GATHER_IDS_TEXT))
    } else if r.vocab_size == 0 || table.extents().len() != 2 || table.extents()[0] != r.vocab_size {
        Some(Error::Other(GATHER_VOCAB_TEXT))
    } else if !holds_bytes(r.ids.unwrap().range(), device, rows * 4) {
        Some(Error::Other(GATHER_BUFFER_TEXT))
    } else {
        crate::ops::binding::first(
            crate::ops::binding::operand_rejection(device, table, t, seq![r.vocab_size, cols]),
            crate::ops::binding::operand_rejection(device, r.out, t, seq![rows, cols]),
        )
    }
}

/// Refusals of the addition of a bias and of positions.
pub open spec fn position_rejection(device: usize, r: &GatherArgs<'_>) -> Option<Error> {
    let rows = r.out.extents()[0];
    let cols = r.out.extents()[1];
    let t = r.out.dtype;
    if r.images is Some || r.ids is Some || r.geometry is Some {
        Some(Error::Other(GATHER_UNRELATED_TEXT))
    } else if r.position is None {
        Some(Error::Other(GATHER_POSITION_TEXT))
    } else if r.tokens_per_view == 0 || rows % r.tokens_per_view != 0 {
        Some(Error::Other(GATHER_VIEW_TEXT))
    } else {
        crate::ops::binding::first(
            crate::ops::binding::operand_rejection(device, r.input.unwrap(), t, seq![rows, cols]),
            crate::ops::binding::first(
                crate::ops::binding::optional_rejection(device, r.bias, t, seq![cols]),
                crate::ops::binding::first(
                    crate::ops::binding::operand_rejection(
                        device,
                        r.position.unwrap(),
                        t,
                        seq![r.tokens_per_view, cols],
                    ),
                    crate::ops::binding::operand_rejection(device, r.out, t, seq![rows, cols]),
                ),
            ),
        )
    }
}

/// Refusals of the cutting of images into patches.
pub open spec fn patches_rejection(device: usize, r: &GatherArgs<'_>) -> Option<Error> {
    let rows = r.out.extents()[0];
    let cols = r.out.extents()[1];
    if r.ids is Some || r.bias is Some || r.position is Some {
        Some(Error::Other(GATHER_UNRELATED_TEXT))
    } else if r.images is None || r.geometry is None {
        Some(Error::Other(GATHER_IMAGES_TEXT))
    } else if !r.geometry.unwrap().tiles() {
        Some(Error::Other(GATHER_GEOMETRY_TEXT))
    } else if r.geometry.unwrap().patches() != rows || r.geometry.unwrap().patch_values() != cols {
        Some(Error::Other(GATHER_GEOMETRY_TEXT))
    } else if !holds_bytes(r.images.unwrap().range(), device, r.geometry.unwrap().image_bytes()) {
        Some(Error::Other(GATHER_BUFFER_TEXT))
    } else {
        crate::ops::binding::operand_rejection(device, r.out, r.out.dtype, seq![rows, cols])
    }
}

/// Why a gather is refused, if it is.
pub open spec fn gather_rejection(device: usize, r: &GatherArgs<'_>) -> Option<Error> {
    if r.out.extents().len() != 2 || r.out.extents()[0] == 0 || r.out.extents()[1] == 0 {
        Some(Error::Other(GATHER_RANK_TEXT))
    } else if !r.out.dtype.half() {
        Some(Error::Other(GATHER_TYPE_TEXT))
    } else if (r.semantic == GatherSemantic::RgbToPatches) == (r.input is Some) {
        Some(Error::Other(GATHER_INPUT_TEXT))
    } else {
        match r.semantic {
            GatherSemantic::EmbeddingLookup => embedding_rejection(device, r),
            GatherSemantic::BiasPosition => position_rejection(device, r),
            GatherSemantic::RgbToPatches => patches_rejection(device, r),
        }
    }
}

/// Address of an optional buffer, null where there is none.
pub open spec fn buffer_ptr(buffer: Option<&CudaBuffer>) -> usize {
    match buffer {
        Some(b) => b.range().ptr,
        None => 0,
    }
}

/// The geometry of a request, empty where it names none.
pub open spec fn geometry_or_empty(geometry: Option<GatherPatchGeometry>) -> GatherPatchGeometry {
    match geometry {
        Some(g) => g,
        None => GatherPatchGeometry { views: 0, image_size: 0, patch_size: 0, nhwc: false },
    }
}

/// The launch of an accepted request.
pub open spec fn gather_launch(ctx: &CudaContext, r: &GatherArgs<'_>) -> GatherLaunch {
    GatherLaunch {
        semantic: r.semantic,
        dtype: r.out.dtype,
        rows: r.out.extents()[0] as i64,
        cols: r.out.extents()[1] as i64,
        vocab_size: r.vocab_size as i64,
        tokens_per_view: r.tokens_per_view as i64,
        geometry: geometry_or_empty(r.geometry),
        input: match r.input {
            Some(t) => crate::ops::binding::bound_range(t).ptr,
            None => buffer_ptr(r.images),
        },
        ids: buffer_ptr(r.ids),
        bias: crate::ops::binding::optional_ptr(r.bias),
        position: crate::ops::binding::optional_ptr(r.position),
        output: crate::ops::binding::bound_range(r.out).ptr,
        stream: ctx.stream.handle,
    }
}

/// `result` is what a gather request comes to.
pub open spec fn gather_outcome(
    thread: &ThreadState,
    ctx: &CudaContext,
    r: &GatherArgs<'_>,
    result: Result<PendingLaunch<GatherLaunch>, Error>,
) -> bool {
    match gather_rejection(ctx.device_id, r) {
        Some(e) => result == Err::<PendingLaunch<GatherLaunch>, Error>(e),
        None => crate::ops::launch::becomes_pending(thread, ctx, gather_launch(ctx, r), r.policy, result),
    }
}

/// Whether three factors have the product `wanted`.
fn product_is(a: usize, b: usize, c: usize, wanted: usize) -> (r: bool)
    requires
        c > 0,
    ensures
        r == ((a * b) * c == wanted),
{
    match a.checked_mul(b) {
        Some(ab) => match ab.checked_mul(c) {
            Some(abc) => abc == wanted,
            None => false,
        },
        None => {
            assert((a * b) * c > usize::MAX) by (nonlinear_arith)
                requires
                    a * b > usize::MAX,
                    c > 0,
            ;
            false
        },
    }
}

/// Whether the images of a geometry fit into `limit` bytes.
fn images_fit(g: GatherPatchGeometry, limit: usize) -> (r: bool)
    requires
        g.views > 0,
    ensures
        r == (g.image_bytes() <= limit),
{
    let ghost area = g.image_size * g.image_size;
    let ghost views = g.views as int;
    assert(area * 3 > usize::MAX ==> (area * 3) * views > usize::MAX) by (nonlinear_arith)
        requires
            area >= 0,
            views > 0,
    ;
    assert(0 <= area) by (nonlinear_arith)
        requires
            area == g.image_size * g.image_size,
    ;
    match g.image_size.checked_mul(g.image_size) {
        Some(a) => match a.checked_mul(3) {
            Some(bytes) => match bytes.checked_mul(g.views) {
                Some(total) => total <= limit,
                None => false,
            },
            None => false,
        },
        None => false,
    }
}

fn buffer_address(buffer: &Option<&CudaBuffer>) -> (ptr: usize)
    ensures
        ptr == buffer_ptr(*buffer),
{
    match buffer {
        Some(b) => b.ptr(),
        None => 0,
    }
}

/// Addresses of the operands of a checked request.
struct GatherOperands {
    input: usize,
    bias: usize,
    position: usize,
}

fn bind_embedding(ctx: &CudaContext, r: &GatherArgs<'_>, table: &Tensor) -> (bound: Result<
    GatherOperands,
    Error,
>)
    requires
        r.input == Some(table),
        r.out.extents().len() == 2,
    ensures
        match bound {
            Ok(o) => {
                &&& embedding_rejection(ctx.device_id, r) is None
                &&& o.input == crate::ops::binding::bound_range(table).ptr
                &&& o.bias == 0
                &&& o.position == 0
            },
            Err(e) => embedding_rejection(ctx.device_id, r) == Some(e),
        },
{
    let rows: usize = r.out.shape.dims()[0];
    let cols: usize = r.out.shape.dims()[1];
    let t: DType = r.out.dtype;
    if r.images.is_some() || r.bias.is_some() || r.position.is_some() || r.geometry.is_some() {
        return Err(Error::Other(GATHER_UNRELATED_TEXT));
    }
    let ids: &CudaBuffer = match r.ids {
        Some(ids) => ids,
        None => {
            return Err(Error::Other(GATHER_IDS_TEXT));
        },
    };
    let table_dims: &Vec<usize> = table.shape.dims();
    if r.vocab_size == 0 || table_dims.len() != 2 || table_dims[0] != r.vocab_size {
        return Err(Error::Other(GATHER_VOCAB_TEXT));
    }
    if ids.device() != ctx.device_id || rows > ids.len() / 4 {
        return Err(Error::Other(GATHER_BUFFER_TEXT));
    }
    let storage: CudaBuffer = tensor_storage(ctx, table, t, &dims_2(r.vocab_size, cols))?;
    tensor_storage(ctx, r.out, t, &dims_2(rows, cols))?;
    Ok(GatherOperands { input: storage.ptr(), bias: 0, position: 0 })
}

fn bind_position(ctx: &CudaContext, r: &GatherArgs<'_>, input: &Tensor) -> (bound: Result<
    GatherOperands,
    Error,
>)
    requires
        r.input == Some(input),
        r.out.extents().len() == 2,
    ensures
        match bound {
            Ok(o) => {
                &&& position_rejection(ctx.device_id, r) is None
                &&& o.input == crate::ops::binding::bound_range(input).ptr
                &&& o.bias == crate::ops::binding::optional_ptr(r.bias)
                &&& o.position == crate::ops::binding::optional_ptr(r.position)
            },
            Err(e) => position_rejection(ctx.device_id, r) == Some(e),
        },
{
    let rows: usize = r.out.shape.dims()[0];
    let cols: usize = r.out.shape.dims()[1];
    let t: DType = r.out.dtype;
    if r.images.is_some() || r.ids.is_some() || r.geometry.is_some() {
        return Err(Error::Other(GATHER_UNRELATED_TEXT));
    }
    let position: &Tensor = match r.position {
        Some(position) => position,
        None => {
            return Err(Error::Other(GATHER_POSITION_TEXT));
        },
    };
    if r.tokens_per_view == 0 || rows % r.tokens_per_view != 0 {
        return Err(Error::Other(GATHER_VIEW_TEXT));
    }
    let matrix: Vec<usize> = dims_2(rows, cols);
    let storage: CudaBuffer = tensor_storage(ctx, input, t, &matrix)?;
    let bias: Option<CudaBuffer> = optional_storage(ctx, r.bias, t, &dims_1(cols))?;
    let table: CudaBuffer = tensor_storage(ctx, position, t, &dims_2(r.tokens_per_view, cols))?;
    tensor_storage(ctx, r.out, t, &matrix)?;
    Ok(
        GatherOperands {
            input: storage.ptr(),
            bias: optional_address(&bias),
            position: table.ptr(),
        },
    )
}

fn bind_patches(ctx: &CudaContext, r: &GatherArgs<'_>) -> (bound: Result<GatherOperands, Error>)
    requires
        r.input is None,
        r.out.extents().len() == 2,
    ensures
        match bound {
            Ok(o) => {
                &&& patches_rejection(ctx.device_id, r) is None
                &&& o.input == buffer_ptr(r.images)
                &&& o.bias == 0
                &&& o.position == 0
            },
            Err(e) => patches_rejection(ctx.device_id, r) == Some(e),
        },
{
    let rows: usize = r.out.shape.dims()[0];
    let cols: usize = r.out.shape.dims()[1];
    if r.ids.is_some() || r.bias.is_some() || r.position.is_some() {
        return Err(Error::Other(GATHER_UNRELATED_TEXT));
    }
    let (images, g): (&CudaBuffer, GatherPatchGeometry) = match (r.images, r.geometry) {
        (Some(images), Some(g)) => (images, g),
        _ => {
            return Err(Error::Other(GATHER_IMAGES_TEXT));
        },
    };
    if g.views == 0 || g.patch_size == 0 || g.image_size == 0 || g.image_size % g.patch_size != 0 {
        return Err(Error::Other(GATHER_GEOMETRY_TEXT));
    }
    let side: usize = g.image_size / g.patch_size;
    if !product_is(side, side, g.views, rows) || !product_is(g.patch_size, g.patch_size, 3, cols) {
        return Err(Error::Other(GATHER_GEOMETRY_TEXT));
    }
    if images.device() != ctx.device_id || !images_fit(g, images.len()) {
        return Err(Error::Other(GATHER_BUFFER_TEXT));
    }
    tensor_storage(ctx, r.out, r.out.dtype, &dims_2(rows, cols))?;
    Ok(GatherOperands { input: images.ptr(), bias: 0, position: 0 })
}

/// Starts a gather.
///
/// A gather holds no prepared state: the same call serves eager work, the
/// preparation of a workspace and a capture.
pub fn gather(thread: &ThreadState, ctx: &CudaContext, args: GatherArgs<'_>) -> (result: Result<
    PendingLaunch<GatherLaunch>,
    Error,
>)
    ensures
        gather_outcome(thread, ctx, &args, result),
        result matches Ok(p) ==> {
            &&& p.launch.semantic == args.semantic
            &&& p.launch.dtype == args.out.dtype
            &&& args.out.packed_at(ctx.device_id, p.launch.output, p.launch.dtype, seq![p.launch.rows, p.launch.cols])
            &&& args.semantic is EmbeddingLookup ==> args.input.unwrap().packed_at(ctx.device_id, p.launch.input, p.launch.dtype, seq![p.launch.vocab_size, p.launch.cols])
            &&& args.semantic is EmbeddingLookup ==> p.launch.ids == args.ids.unwrap().range().ptr && args.ids.unwrap().range().device == ctx.device_id && 4 * args.out.extents()[0] <= args.ids.unwrap().range().len
            &&& args.semantic is BiasPosition ==> args.input.unwrap().packed_at(ctx.device_id, p.launch.input, p.launch.dtype, seq![p.launch.rows, p.launch.cols])
            &&& args.semantic is BiasPosition ==> args.position.unwrap().packed_at(ctx.device_id, p.launch.position, p.launch.dtype, seq![p.launch.tokens_per_view, p.launch.cols])
            &&& args.semantic is BiasPosition ==> args.out.extents()[0] % args.tokens_per_view == 0
            &&& args.bias matches Some(t) ==> t.packed_at(ctx.device_id, p.launch.bias, p.launch.dtype, seq![p.launch.cols])
            &&& args.semantic is RgbToPatches ==> p.launch.input == args.images.unwrap().range().ptr && args.images.unwrap().range().device == ctx.device_id
            &&& args.semantic is RgbToPatches ==> args.geometry == Some(p.launch.geometry)
            &&& args.semantic is RgbToPatches ==> p.launch.geometry.image_bytes() <= args.images.unwrap().range().len
            &&& !(args.semantic is EmbeddingLookup) ==> p.launch.ids == 0
            &&& !(args.semantic is BiasPosition) ==> p.launch.position == 0 && p.launch.bias == 0
            &&& args.bias is None ==> p.launch.bias == 0
            &&& p.launch.tokens_per_view == args.tokens_per_view as i64
            &&& p.launch.vocab_size == args.vocab_size as i64
            &&& p.policy == args.policy
            &&& p.stream == ctx.stream
            &&& p.runtime == ctx.runtime
            &&& p.launch.stream == ctx.stream.handle
        },
{
    let dims: &Vec<usize> = args.out.shape.dims();
    if dims.len() != 2 || dims[0] == 0 || dims[1] == 0 {
        return Err(Error::Other(GATHER_RANK_TEXT));
    }
    if !args.out.dtype.is_half() {
        return Err(Error::Other(GATHER_TYPE_TEXT));
    }
    let rows: usize = dims[0];
    let cols: usize = dims[1];
    let operands: GatherOperands = match (args.semantic, args.input) {
        (GatherSemantic::EmbeddingLookup, Some(table)) => bind_embedding(ctx, &args, table)?,
        (GatherSemantic::BiasPosition, Some(input)) => bind_position(ctx, &args, input)?,
        (GatherSemantic::RgbToPatches, None) => bind_patches(ctx, &args)?,
        _ => {
            return Err(Error::Other(GATHER_INPUT_TEXT));
        },
    };
    let output: CudaBuffer = match CudaBuffer::from_tensor(args.out) {
        Ok(output) => output,
        Err(e) => {
            assert(false);
            return Err(e);
        },
    };
    let launch: GatherLaunch = GatherLaunch {
        semantic: args.semantic,
        dtype: args.out.dtype,
        rows: rows as i64,
        cols: cols as i64,
        vocab_size: args.vocab_size as i64,
        tokens_per_view: args.tokens_per_view as i64,
        geometry: match args.geometry {
            Some(g) => g,
            None => GatherPatchGeometry { views: 0, image_size: 0, patch_size: 0, nhwc: false },
        },
        input: operands.input,
        ids: buffer_address(&args.ids),
        bias: operands.bias,
        position: operands.position,
        output: output.ptr(),
        stream: ctx.stream.handle,
    };
    begin_launch(thread, ctx, launch, args.policy)
}

/// A gather is accepted exactly when it has the operands of its semantic, and
/// no others, and they fit its output; then its kernel computes that semantic
/// and finds each operand in its own role.
pub proof fn law_gather_reads_each_operand_in_its_role(
    thread: &ThreadState,
    ctx: &CudaContext,
    args: &GatherArgs<'_>,
    result: Result<PendingLaunch<GatherLaunch>, Error>,
)
    requires
        gather_outcome(thread, ctx, args, result),
    ensures
        gather_rejection(ctx.device_id, args) is None <==> {
            &&& args.out.extents().len() == 2 && args.out.extents()[0] > 0 && args.out.extents()[1] > 0
            &&& args.out.dtype == DType::F16 || args.out.dtype == DType::BF16
            &&& args.out.holds(ctx.device_id, args.out.dtype, args.out.extents())
            &&& args.semantic is EmbeddingLookup ==> {
                &&& args.input is Some && args.ids is Some
                &&& args.images is None && args.bias is None && args.position is None && args.geometry is None
                &&& args.vocab_size > 0
                &&& args.input.unwrap().holds(ctx.device_id, args.out.dtype, seq![args.vocab_size, args.out.extents()[1]])
                &&& args.ids.unwrap().range().device == ctx.device_id
                &&& args.out.extents()[0] * 4 <= args.ids.unwrap().range().len
            }
            &&& args.semantic is BiasPosition ==> {
                &&& args.input is Some && args.position is Some
                &&& args.images is None && args.ids is None && args.geometry is None
                &&& args.tokens_per_view > 0 && args.out.extents()[0] % args.tokens_per_view == 0
                &&& args.input.unwrap().holds(ctx.device_id, args.out.dtype, args.out.extents())
                &&& args.position.unwrap().holds(ctx.device_id, args.out.dtype, seq![args.tokens_per_view, args.out.extents()[1]])
                &&& args.bias matches Some(t) ==> t.holds(ctx.device_id, args.out.dtype, seq![args.out.extents()[1]])
            }
            &&& args.semantic is RgbToPatches ==> {
                &&& args.input is None && args.images is Some && args.geometry is Some
                &&& args.ids is None && args.bias is None && args.position is None
                &&& args.geometry.unwrap().tiles()
                &&& args.out.extents()[0] == args.geometry.unwrap().patches()
                &&& args.out.extents()[1] == args.geometry.unwrap().patch_values()
                &&& args.images.unwrap().range().device == ctx.device_id
                &&& args.geometry.unwrap().image_bytes() <= args.images.unwrap().range().len
            }
        },
        result is Ok <==> gather_rejection(ctx.device_id, args) is None && thread@.target_rejection(ctx.device_id, ctx.stream.handle) is None,
        result matches Ok(p) ==> {
            &&& p.launch.semantic == args.semantic
            &&& p.launch.dtype == args.out.dtype
            &&& args.out.packed_at(ctx.device_id, p.launch.output, p.launch.dtype, seq![p.launch.rows, p.launch.cols])
            &&& args.semantic is EmbeddingLookup ==> args.input.unwrap().packed_at(ctx.device_id, p.launch.input, p.launch.dtype, seq![p.launch.vocab_size, p.launch.cols])
            &&& args.semantic is EmbeddingLookup ==> p.launch.ids == args.ids.unwrap().range().ptr && args.ids.unwrap().range().device == ctx.device_id && 4 * args.out.extents()[0] <= args.ids.unwrap().range().len
            &&& args.semantic is BiasPosition ==> args.input.unwrap().packed_at(ctx.device_id, p.launch.input, p.launch.dtype, seq![p.launch.rows, p.launch.cols])
            &&& args.semantic is BiasPosition ==> args.position.unwrap().packed_at(ctx.device_id, p.launch.position, p.launch.dtype, seq![p.launch.tokens_per_view, p.launch.cols])
            &&& args.semantic is BiasPosition ==> args.out.extents()[0] % args.tokens_per_view == 0
            &&& args.bias matches Some(t) ==> t.packed_at(ctx.device_id, p.launch.bias, p.launch.dtype, seq![p.launch.cols])
            &&& args.semantic is RgbToPatches ==> p.launch.input == args.images.unwrap().range().ptr && args.images.unwrap().range().device == ctx.device_id
            &&& args.semantic is RgbToPatches ==> args.geometry == Some(p.launch.geometry)
            &&& args.semantic is RgbToPatches ==> p.launch.geometry.image_bytes() <= args.images.unwrap().range().len
            &&& !(args.semantic is EmbeddingLookup) ==> p.launch.ids == 0
            &&& !(args.semantic is BiasPosition) ==> p.launch.position == 0 && p.launch.bias == 0
            &&& args.bias is None ==> p.launch.bias == 0
            &&& p.launch.tokens_per_view == args.tokens_per_view as i64
            &&& p.launch.vocab_size == args.vocab_size as i64
            &&& p.policy == args.policy
            &&& p.stream == ctx.stream
            &&& p.runtime == ctx.runtime
            &&& p.launch.stream == ctx.stream.handle
        },
{
    let o = args.out.extents();
    assert(o.len() == 2 ==> o =~= seq![o[0], o[1]]);
}

/// Patches that tile the images hold every value of them exactly once: as many
/// values as there are bytes, in squares of the patch size that make up squares
/// of the image size.
pub proof fn law_patches_hold_every_pixel_once(g: GatherPatchGeometry)
    requires
        g.tiles(),
    ensures
        g.side() * g.patch_size == g.image_size,
        g.patches() * g.patch_values() == g.image_bytes(),
        g.patches() == g.side() * g.side() * g.views,
        g.patch_values() == g.patch_size * g.patch_size * 3,
        g.views > 0 && g.image_size > 0 && g.patch_size > 0 && g.side() > 0,
{
    let side = g.side();
    let p = g.patch_size as int;
    let n = g.image_size as int;
    let v = g.views as int;
    vstd::arithmetic::div_mod::lemma_fundamental_div_mod(n, p);
    assert(side * p == n) by (nonlinear_arith)
        requires
            n == p * side,
    ;
    assert(side > 0) by (nonlinear_arith)
        requires
            side * p == n,
            n > 0,
            p > 0,
    ;
    assert(((side * side) * v) * ((p * p) * 3) == (((side * p) * (side * p)) * 3) * v)
        by (nonlinear_arith);
}

} // verus!
