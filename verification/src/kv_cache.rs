//! Device storage for the keys and values of past tokens.
//!
//! The physical layout of a layer is `[1, capacity, kv_heads, head_dim]`.
use vstd::prelude::*;

use crate::buffer::{BufferView, CudaBuffer};
use crate::context::{CudaContext, CudaStream};
use crate::dtype::{DType, Device};
use crate::error::{Error, ErrorView};
use crate::shape::{copy_dims, same_dims, Shape};
use crate::tensor::Tensor;

verus! {

/// Bytes reserved for an element, whatever type the first append brings.
pub const MAX_ELEMENT_BYTES: usize = 4;

pub const KV_EMPTY_TEXT: &'static str = "CUDA KV cache dimensions must all be non-zero";

pub const KV_SIZE_TEXT: &'static str = "CUDA KV cache size overflow";

pub const KV_BYTES_TEXT: &'static str = "CUDA KV cache byte size overflow";

pub const KV_STORAGE_TEXT: &'static str = "CUDA KV cache allocations do not match its geometry";

pub const KV_APPEND_EMPTY_TEXT: &'static str = "CUDA KV append length must be non-zero";

pub const KV_POSITION_TEXT: &'static str = "CUDA KV cache position overflow";

pub const KV_TYPE_TEXT: &'static str =
    "cuda-new KV cache supports matching F16 or BF16 K/V";

pub const KV_STREAM_TEXT: &'static str =
    "CUDA KV append requires the backend stream; call Backend::kv_append";

pub const KV_DEVICE_TEXT: &'static str = "CUDA device id exceeds i32";

/// Keys and values of past tokens, layer by layer.
#[derive(Debug)]
pub struct CudaKVCache {
    k_buffers: Vec<CudaBuffer>,
    v_buffers: Vec<CudaBuffer>,
    n_kv_heads: usize,
    head_dim: usize,
    max_seq_len: usize,
    seq_len: usize,
    device_id: usize,
    dtype: Option<DType>,
}

/// Geometry, storage and fill state of a [`CudaKVCache`].
#[verifier::ext_equal]
pub struct KvView {
    pub k: Seq<BufferView>,
    pub v: Seq<BufferView>,
    pub n_kv_heads: usize,
    pub head_dim: usize,
    pub max_seq_len: usize,
    pub seq_len: usize,
    pub device: usize,
    /// Element type, once an append has established it.
    pub dtype: Option<DType>,
}

/// A stream-ordered copy between two ranges of device memory.
#[derive(Clone, Copy, Debug, PartialEq, Eq, Structural)]
pub struct DeviceCopy {
    pub destination: usize,
    pub source: usize,
    pub bytes: usize,
    pub stream: CudaStream,
}

/// The two copies of an append, keys first.
#[derive(Clone, Copy, Debug, PartialEq, Eq, Structural)]
pub struct KvAppend {
    pub key: DeviceCopy,
    pub value: DeviceCopy,
}

/// A range of device memory to be zeroed.
#[derive(Clone, Copy, Debug, PartialEq, Eq, Structural)]
pub struct DeviceClear {
    pub ptr: usize,
    pub bytes: usize,
}

/// The device to make current and the ranges to zero there.
#[derive(Debug)]
pub struct KvClear {
    pub device: i32,
    pub ranges: Vec<DeviceClear>,
}

/// Elements of one layer's keys, or of its values.
pub open spec fn layer_elements(n_kv_heads: usize, head_dim: usize, max_seq_len: usize) -> int {
    (n_kv_heads * head_dim) * max_seq_len
}

/// Why a cache of this geometry is refused, if it is.
pub open spec fn geometry_rejection(
    n_layers: usize,
    n_kv_heads: usize,
    head_dim: usize,
    max_seq_len: usize,
) -> Option<Error> {
    if n_layers == 0 || n_kv_heads == 0 || head_dim == 0 || max_seq_len == 0 {
        Some(Error::Other(KV_EMPTY_TEXT))
    } else if layer_elements(n_kv_heads, head_dim, max_seq_len) > usize::MAX {
        Some(Error::Other(KV_SIZE_TEXT))
    } else if layer_elements(n_kv_heads, head_dim, max_seq_len) * MAX_ELEMENT_BYTES > usize::MAX {
        Some(Error::Other(KV_BYTES_TEXT))
    } else {
        None
    }
}

/// Every range has `bytes` bytes on `device`.
pub open spec fn all_sized(ranges: Seq<BufferView>, bytes: int, device: usize) -> bool {
    forall|i: int|
        0 <= i < ranges.len() ==> (#[trigger] ranges[i]).len == bytes && ranges[i].device == device
            && ranges[i].ptr + ranges[i].len <= usize::MAX
}

impl KvView {
    /// The geometry is representable and every layer has its storage.
    pub open spec fn sound(self) -> bool {
        let bytes = layer_elements(self.n_kv_heads, self.head_dim, self.max_seq_len)
            * MAX_ELEMENT_BYTES;
        &&& geometry_rejection(
            self.k.len() as usize,
            self.n_kv_heads,
            self.head_dim,
            self.max_seq_len,
        ) is None
        &&& 0 < self.k.len() <= usize::MAX
        &&& self.k.len() == self.v.len()
        &&& all_sized(self.k, bytes, self.device)
        &&& all_sized(self.v, bytes, self.device)
        &&& self.dtype matches Some(t) ==> t.half()
    }

    /// Elements of one token.
    pub open spec fn row(self) -> int {
        self.n_kv_heads * self.head_dim
    }

    /// Bytes of a layer's keys when its elements are of type `dtype`.
    pub open spec fn logical_bytes(self, dtype: DType) -> int {
        layer_elements(self.n_kv_heads, self.head_dim, self.max_seq_len) * dtype.size()
    }

    /// Where, in bytes from the start of a layer, the next token goes.
    pub open spec fn next_offset(self, dtype: DType) -> int {
        (self.seq_len * self.row()) * dtype.size()
    }

    /// Bytes of `tokens` tokens.
    pub open spec fn token_bytes(self, tokens: usize, dtype: DType) -> int {
        (tokens * self.row()) * dtype.size()
    }

    /// Refusal of an appended tensor: another device, or other extents than
    /// `[append_len, kv_heads, head_dim]`.
    pub open spec fn row_rejection(self, tensor: &Tensor, append_len: usize) -> Option<ErrorView> {
        let expected = seq![append_len, self.n_kv_heads, self.head_dim];
        if tensor.placed_on() != Device::Cuda(self.device) {
            Some(
                ErrorView::Plain(
                    Error::DeviceMismatch {
                        expected_device: Device::Cuda(self.device),
                        got_device: tensor.placed_on(),
                    },
                ),
            )
        } else if tensor.extents() != expected {
            Some(ErrorView::Shape { expected, got: tensor.extents() })
        } else {
            None
        }
    }

    /// Why an append is refused, if it is.
    pub open spec fn append_rejection(
        self,
        device: usize,
        layer_idx: usize,
        k: &Tensor,
        v: &Tensor,
        append_len: usize,
    ) -> Option<ErrorView> {
        if device != self.device {
            Some(
                ErrorView::Plain(
                    Error::DeviceMismatch {
                        expected_device: Device::Cuda(self.device),
                        got_device: Device::Cuda(device),
                    },
                ),
            )
        } else if layer_idx >= self.k.len() {
            Some(
                ErrorView::Plain(
                    Error::KvLayer { layer: layer_idx, layers: self.k.len() as usize },
                ),
            )
        } else if append_len == 0 {
            Some(ErrorView::Plain(Error::Other(KV_APPEND_EMPTY_TEXT)))
        } else if self.seq_len + append_len > usize::MAX {
            Some(ErrorView::Plain(Error::Other(KV_POSITION_TEXT)))
        } else if self.seq_len + append_len > self.max_seq_len {
            Some(
                ErrorView::Plain(
                    Error::KvCapacity {
                        end: (self.seq_len + append_len) as usize,
                        limit: self.max_seq_len,
                    },
                ),
            )
        } else if !k.dtype.half() || v.dtype != k.dtype {
            Some(ErrorView::Plain(Error::Other(KV_TYPE_TEXT)))
        } else if self.dtype is Some && self.dtype != Some(k.dtype) {
            Some(
                ErrorView::Plain(
                    Error::DTypeMismatch { expected: self.dtype.unwrap(), got: k.dtype },
                ),
            )
        } else if self.row_rejection(k, append_len) is Some {
            self.row_rejection(k, append_len)
        } else {
            self.row_rejection(v, append_len)
        }
    }

    /// The copies of an accepted append.
    pub open spec fn append_copies(
        self,
        stream: CudaStream,
        layer_idx: usize,
        k: &Tensor,
        v: &Tensor,
        append_len: usize,
    ) -> KvAppend {
        let bytes = self.token_bytes(append_len, k.dtype) as usize;
        KvAppend {
            key: DeviceCopy {
                destination: (self.k[layer_idx as int].ptr + self.next_offset(k.dtype)) as usize,
                source: k.cuda_range().unwrap().ptr,
                bytes,
                stream,
            },
            value: DeviceCopy {
                destination: (self.v[layer_idx as int].ptr + self.next_offset(k.dtype)) as usize,
                source: v.cuda_range().unwrap().ptr,
                bytes,
                stream,
            },
        }
    }
}

/// The ranges of a list of buffers.
pub open spec fn buffer_ranges(buffers: Seq<CudaBuffer>) -> Seq<BufferView> {
    buffers.map_values(|b: CudaBuffer| b.range())
}

impl View for CudaKVCache {
    type V = KvView;

    closed spec fn view(&self) -> KvView {
        KvView {
            k: buffer_ranges(self.k_buffers@),
            v: buffer_ranges(self.v_buffers@),
            n_kv_heads: self.n_kv_heads,
            head_dim: self.head_dim,
            max_seq_len: self.max_seq_len,
            seq_len: self.seq_len,
            device: self.device_id,
            dtype: self.dtype,
        }
    }
}

fn sized(buffers: &Vec<CudaBuffer>, bytes: usize, device: usize) -> (r: bool)
    ensures
        r == all_sized(buffer_ranges(buffers@), bytes as int, device),
{
    let mut i: usize = 0;
    while i < buffers.len()
        invariant
            i <= buffers.len(),
            all_sized(buffer_ranges(buffers@.take(i as int)), bytes as int, device),
        decreases buffers.len() - i,
    {
        let len: usize = buffers[i].len();
        assert(buffer_ranges(buffers@)[i as int] == buffers[i as int].range());
        if len != bytes || buffers[i].device() != device {
            return false;
        }
        proof {
            let before = buffer_ranges(buffers@.take(i as int));
            let after = buffer_ranges(buffers@.take(i + 1));
            assert forall|j: int| 0 <= j < after.len() implies (#[trigger] after[j]).len == bytes
                && after[j].device == device && after[j].ptr + after[j].len <= usize::MAX by {
                if j < i {
                    assert(after[j] == before[j]);
                }
            }
        }
        i = i + 1;
    }
    assert(buffers@.take(i as int) =~= buffers@);
    true
}

/// Bytes that each layer of a cache needs for its keys, and as many for its
/// values.
pub fn kv_layer_bytes(
    n_layers: usize,
    n_kv_heads: usize,
    head_dim: usize,
    max_seq_len: usize,
) -> (bytes: Result<usize, Error>)
    ensures
        match bytes {
            Ok(n) => {
                &&& geometry_rejection(n_layers, n_kv_heads, head_dim, max_seq_len) is None
                &&& n == layer_elements(n_kv_heads, head_dim, max_seq_len) * MAX_ELEMENT_BYTES
            },
            Err(e) => geometry_rejection(n_layers, n_kv_heads, head_dim, max_seq_len) == Some(e),
        },
{
    if n_layers == 0 || n_kv_heads == 0 || head_dim == 0 || max_seq_len == 0 {
        return Err(Error::Other(KV_EMPTY_TEXT));
    }
    let elements: usize = match n_kv_heads.checked_mul(head_dim) {
        Some(row) => match row.checked_mul(max_seq_len) {
            Some(elements) => elements,
            None => {
                return Err(Error::Other(KV_SIZE_TEXT));
            },
        },
        None => {
            assert((n_kv_heads * head_dim) * max_seq_len > usize::MAX) by (nonlinear_arith)
                requires
                    n_kv_heads * head_dim > usize::MAX,
                    max_seq_len >= 1,
            ;
            return Err(Error::Other(KV_SIZE_TEXT));
        },
    };
    match elements.checked_mul(MAX_ELEMENT_BYTES) {
        Some(bytes) => Ok(bytes),
        None => Err(Error::Other(KV_BYTES_TEXT)),
    }
}

proof fn lemma_layer_fits(heads: int, dim: int, limit: int, tokens: int, size: int)
    requires
        heads >= 1,
        dim >= 1,
        0 <= tokens <= limit,
        1 <= size <= 4,
    ensures
        0 <= (tokens * (heads * dim)) * size <= ((heads * dim) * limit) * size,
        ((heads * dim) * limit) * size <= ((heads * dim) * limit) * 4,
        heads * dim <= (heads * dim) * limit || limit == 0,
        0 <= tokens * (heads * dim) <= (heads * dim) * limit,
        0 <= (heads * dim) * limit <= ((heads * dim) * limit) * 4,
{
    assert(heads * dim >= 1) by (nonlinear_arith)
        requires
            heads >= 1,
            dim >= 1,
    ;
    let row = heads * dim;
    assert(0 <= tokens * row <= row * limit) by (nonlinear_arith)
        requires
            row >= 1,
            0 <= tokens <= limit,
    ;
    assert(row <= row * limit || limit == 0) by (nonlinear_arith)
        requires
            row >= 1,
            0 <= limit,
    ;
    assert(0 <= (tokens * row) * size <= (row * limit) * size) by (nonlinear_arith)
        requires
            0 <= tokens * row <= row * limit,
            1 <= size,
    ;
    assert((row * limit) * size <= (row * limit) * 4) by (nonlinear_arith)
        requires
            0 <= row * limit,
            1 <= size <= 4,
    ;
}

impl CudaKVCache {
    #[verifier::type_invariant]
    spec fn well_formed(self) -> bool {
        self@.sound()
    }

    /// An empty cache over the ranges allocated for it: one per layer for the
    /// keys, one per layer for the values.
    pub fn new(
        device_id: usize,
        n_layers: usize,
        n_kv_heads: usize,
        head_dim: usize,
        max_seq_len: usize,
        k_buffers: Vec<CudaBuffer>,
        v_buffers: Vec<CudaBuffer>,
    ) -> (cache: Result<Self, Error>)
        ensures
            ({
                let bytes = layer_elements(n_kv_heads, head_dim, max_seq_len) * MAX_ELEMENT_BYTES;
                let fitting = k_buffers@.len() == n_layers && v_buffers@.len() == n_layers
                    && all_sized(buffer_ranges(k_buffers@), bytes, device_id) && all_sized(
                    buffer_ranges(v_buffers@),
                    bytes,
                    device_id,
                );
                match cache {
                    Ok(c) => {
                        &&& geometry_rejection(n_layers, n_kv_heads, head_dim, max_seq_len) is None
                        &&& fitting
                        &&& c@.sound()
                        &&& c@ == (KvView {
                            k: buffer_ranges(k_buffers@),
                            v: buffer_ranges(v_buffers@),
                            n_kv_heads,
                            head_dim,
                            max_seq_len,
                            seq_len: 0,
                            device: device_id,
                            dtype: None,
                        })
                    },
                    Err(e) => match geometry_rejection(
                        n_layers,
                        n_kv_heads,
                        head_dim,
                        max_seq_len,
                    ) {
                        Some(refusal) => e == refusal,
                        None => !fitting && e == Error::Other(KV_STORAGE_TEXT),
                    },
                }
            }),
    {
        let bytes: usize = kv_layer_bytes(n_layers, n_kv_heads, head_dim, max_seq_len)?;
        if k_buffers.len() != n_layers || v_buffers.len() != n_layers {
            return Err(Error::Other(KV_STORAGE_TEXT));
        }
        if !sized(&k_buffers, bytes, device_id) || !sized(&v_buffers, bytes, device_id) {
            return Err(Error::Other(KV_STORAGE_TEXT));
        }
        Ok(
            CudaKVCache {
                k_buffers,
                v_buffers,
                n_kv_heads,
                head_dim,
                max_seq_len,
                seq_len: 0,
                device_id,
                dtype: None,
            },
        )
    }

    pub fn device_id(&self) -> (device_id: usize)
        ensures
            device_id == self@.device,
    {
        self.device_id
    }

    pub fn n_kv_heads(&self) -> (n: usize)
        ensures
            n == self@.n_kv_heads,
    {
        self.n_kv_heads
    }

    pub fn head_dim(&self) -> (n: usize)
        ensures
            n == self@.head_dim,
    {
        self.head_dim
    }

    pub fn max_seq_len(&self) -> (n: usize)
        ensures
            n == self@.max_seq_len,
    {
        self.max_seq_len
    }

    /// Element type, once an append has established it.
    pub fn dtype(&self) -> (dtype: Option<DType>)
        ensures
            dtype == self@.dtype,
    {
        self.dtype
    }

    pub fn n_layers(&self) -> (n: usize)
        ensures
            n == self@.k.len(),
            self@.sound(),
    {
        proof {
            use_type_invariant(self);
        }
        self.k_buffers.len()
    }

    /// Tokens held.
    pub fn seq_len(&self) -> (n: usize)
        ensures
            n == self@.seq_len,
    {
        self.seq_len
    }

    /// The storage of a layer's keys.
    pub fn k_buffer(&self, layer_idx: usize) -> (buffer: &CudaBuffer)
        requires
            layer_idx < self@.k.len(),
        ensures
            buffer.range() == self@.k[layer_idx as int],
    {
        &self.k_buffers[layer_idx]
    }

    /// The storage of a layer's values.
    pub fn v_buffer(&self, layer_idx: usize) -> (buffer: &CudaBuffer)
        requires
            layer_idx < self@.v.len(),
        ensures
            buffer.range() == self@.v[layer_idx as int],
    {
        &self.v_buffers[layer_idx]
    }

    /// Bytes of a layer's keys when its elements are of type `dtype`.
    fn logical_bytes(&self, dtype: DType) -> (bytes: usize)
        ensures
            bytes == self@.logical_bytes(dtype),
    {
        proof {
            use_type_invariant(self);
            lemma_layer_fits(
                self.n_kv_heads as int,
                self.head_dim as int,
                self.max_seq_len as int,
                self.max_seq_len as int,
                dtype.size() as int,
            );
        }
        self.n_kv_heads * self.head_dim * self.max_seq_len * dtype.size_in_bytes()
    }

    /// The whole capacity of a layer as a tensor.
    fn layer_tensor(&self, layer_idx: usize, key: bool, dtype: DType) -> (tensor: Result<
        Tensor,
        Error,
    >)
        ensures
            match tensor {
                Ok(t) => {
                    &&& layer_idx < self@.k.len()
                    &&& t.dtype == dtype
                    &&& t.extents() == seq![
                        1usize,
                        self@.max_seq_len,
                        self@.n_kv_heads,
                        self@.head_dim,
                    ]
                    &&& t.cuda_range() == Some(
                        (if key {
                            self@.k[layer_idx as int]
                        } else {
                            self@.v[layer_idx as int]
                        }).part(0, self@.logical_bytes(dtype) as usize),
                    )
                    &&& self@.logical_bytes(dtype) <= usize::MAX
                },
                Err(e) => layer_idx >= self@.k.len() && e == (Error::KvLayer {
                    layer: layer_idx,
                    layers: self@.k.len() as usize,
                }),
            },
    {
        proof {
            use_type_invariant(self);
        }
        let buffers: &Vec<CudaBuffer> = if key {
            &self.k_buffers
        } else {
            &self.v_buffers
        };
        if layer_idx >= buffers.len() {
            return Err(Error::KvLayer { layer: layer_idx, layers: buffers.len() });
        }
        let bytes: usize = self.logical_bytes(dtype);
        let dims: Vec<usize> = vec![1, self.max_seq_len, self.n_kv_heads, self.head_dim];
        proof {
            let m = self.max_seq_len as int;
            let h = self.n_kv_heads as int;
            let d = self.head_dim as int;
            lemma_layer_fits(h, d, m, m, dtype.size() as int);
            assert(dims@ =~= seq![1usize, self.max_seq_len, self.n_kv_heads, self.head_dim]);
            crate::shape::lemma_product_4(1, self.max_seq_len, self.n_kv_heads, self.head_dim);
            assert(1 * m * h * d == (h * d) * m) by (nonlinear_arith);
            if key {
                assert(self@.k[layer_idx as int] == buffers[layer_idx as int].range());
            } else {
                assert(self@.v[layer_idx as int] == buffers[layer_idx as int].range());
            }
        }
        let view: CudaBuffer = match buffers[layer_idx].view(0, bytes) {
            Ok(view) => view,
            Err(e) => {
                assert(false);
                return Err(e);
            },
        };
        match view.as_tensor(Shape::new(dims), dtype) {
            Ok(tensor) => Ok(tensor),
            Err(e) => {
                assert(false);
                Err(e)
            },
        }
    }

    /// The keys of a layer as a tensor over its whole capacity.
    pub fn key_tensor(&self, layer_idx: usize, dtype: DType) -> (tensor: Result<Tensor, Error>)
        ensures
            match tensor {
                Ok(t) => {
                    &&& layer_idx < self@.k.len()
                    &&& t.dtype == dtype
                    &&& t.extents() == seq![
                        1usize,
                        self@.max_seq_len,
                        self@.n_kv_heads,
                        self@.head_dim,
                    ]
                    &&& t.cuda_range() == Some(
                        self@.k[layer_idx as int].part(0, self@.logical_bytes(dtype) as usize),
                    )
                    &&& self@.logical_bytes(dtype) <= usize::MAX
                },
                Err(e) => layer_idx >= self@.k.len() && e == (Error::KvLayer {
                    layer: layer_idx,
                    layers: self@.k.len() as usize,
                }),
            },
    {
        self.layer_tensor(layer_idx, true, dtype)
    }

    /// The values of a layer as a tensor over its whole capacity.
    pub fn value_tensor(&self, layer_idx: usize, dtype: DType) -> (tensor: Result<Tensor, Error>)
        ensures
            match tensor {
                Ok(t) => {
                    &&& layer_idx < self@.k.len()
                    &&& t.dtype == dtype
                    &&& t.extents() == seq![
                        1usize,
                        self@.max_seq_len,
                        self@.n_kv_heads,
                        self@.head_dim,
                    ]
                    &&& t.cuda_range() == Some(
                        self@.v[layer_idx as int].part(0, self@.logical_bytes(dtype) as usize),
                    )
                    &&& self@.logical_bytes(dtype) <= usize::MAX
                },
                Err(e) => layer_idx >= self@.k.len() && e == (Error::KvLayer {
                    layer: layer_idx,
                    layers: self@.k.len() as usize,
                }),
            },
    {
        self.layer_tensor(layer_idx, false, dtype)
    }

    fn check_row(&self, tensor: &Tensor, append_len: usize) -> (r: Result<(), Error>)
        ensures
            match r {
                Ok(()) => self@.row_rejection(tensor, append_len) is None,
                Err(e) => self@.row_rejection(tensor, append_len) == Some(e@),
            },
    {
        let device: Device = tensor.device();
        if device != Device::Cuda(self.device_id) {
            return Err(
                Error::DeviceMismatch {
                    expected_device: Device::Cuda(self.device_id),
                    got_device: device,
                },
            );
        }
        let expected: Vec<usize> = vec![append_len, self.n_kv_heads, self.head_dim];
        assert(expected@ =~= seq![append_len, self.n_kv_heads, self.head_dim]);
        if !same_dims(&tensor.shape.dims, &expected) {
            return Err(
                Error::ShapeMismatch {
                    expected_dims: expected,
                    got_dims: copy_dims(&tensor.shape.dims),
                },
            );
        }
        Ok(())
    }

    /// Appends token-major rows of keys and values to a layer: gives the two
    /// stream-ordered copies to make and fixes the element type.
    ///
    /// The position is advanced separately, once every layer was appended to.
    pub fn append(
        &mut self,
        ctx: &CudaContext,
        layer_idx: usize,
        k: &Tensor,
        v: &Tensor,
        append_len: usize,
    ) -> (copies: Result<KvAppend, Error>)
        ensures
            match copies {
                Ok(c) => {
                    &&& old(self)@.append_rejection(ctx.device_id, layer_idx, k, v, append_len)
                        is None
                    &&& c == old(self)@.append_copies(ctx.stream, layer_idx, k, v, append_len)
                    &&& final(self)@ == (KvView { dtype: Some(k.dtype), ..old(self)@ })
                    &&& k.starts_at(ctx.device_id, c.key.source)
                    &&& v.starts_at(ctx.device_id, c.value.source)
                    &&& c.key.bytes == (append_len * (old(self)@.n_kv_heads * old(self)@.head_dim)) * k.dtype.size()
                    &&& c.value.bytes == c.key.bytes
                    &&& c.key.destination == old(self)@.k[layer_idx as int].ptr + (old(self)@.seq_len * (
                    old(self)@.n_kv_heads * old(self)@.head_dim)) * k.dtype.size()
                    &&& c.value.destination == old(self)@.v[layer_idx as int].ptr + (old(self)@.seq_len * (
                    old(self)@.n_kv_heads * old(self)@.head_dim)) * k.dtype.size()
                },
                Err(e) => {
                    &&& old(self)@.append_rejection(ctx.device_id, layer_idx, k, v, append_len)
                        == Some(e@)
                    &&& final(self)@ == old(self)@
                },
            },
            old(self)@.sound(),
            final(self)@.sound(),
    {
        proof {
            use_type_invariant(&*self);
        }
        if ctx.device_id != self.device_id {
            return Err(
                Error::DeviceMismatch {
                    expected_device: Device::Cuda(self.device_id),
                    got_device: Device::Cuda(ctx.device_id),
                },
            );
        }
        if layer_idx >= self.k_buffers.len() {
            return Err(Error::KvLayer { layer: layer_idx, layers: self.k_buffers.len() });
        }
        if append_len == 0 {
            return Err(Error::Other(KV_APPEND_EMPTY_TEXT));
        }
        let end: usize = match self.seq_len.checked_add(append_len) {
            Some(end) => end,
            None => {
                return Err(Error::Other(KV_POSITION_TEXT));
            },
        };
        if end > self.max_seq_len {
            return Err(Error::KvCapacity { end, limit: self.max_seq_len });
        }
        let dtype: DType = k.dtype;
        if !dtype.is_half() || v.dtype != dtype {
            return Err(Error::Other(KV_TYPE_TEXT));
        }
        match self.dtype {
            Some(cache_dtype) => {
                if cache_dtype != dtype {
                    return Err(Error::DTypeMismatch { expected: cache_dtype, got: dtype });
                }
            },
            None => {},
        }
        self.check_row(k, append_len)?;
        self.check_row(v, append_len)?;
        let k_source: CudaBuffer = match CudaBuffer::from_tensor(k) {
            Ok(buffer) => buffer,
            Err(e) => {
                assert(false);
                return Err(e);
            },
        };
        let v_source: CudaBuffer = match CudaBuffer::from_tensor(v) {
            Ok(buffer) => buffer,
            Err(e) => {
                assert(false);
                return Err(e);
            },
        };
        let size: usize = dtype.size_in_bytes();
        proof {
            let h = self.n_kv_heads as int;
            let d = self.head_dim as int;
            let m = self.max_seq_len as int;
            lemma_layer_fits(h, d, m, self.seq_len as int, size as int);
            lemma_layer_fits(h, d, m, append_len as int, size as int);
            lemma_layer_fits(h, d, m, end as int, size as int);
            assert((self.seq_len * (h * d)) * size + (append_len * (h * d)) * size == (end * (h
                * d)) * size) by (nonlinear_arith)
                requires
                    end == self.seq_len + append_len,
            ;
            assert(self@.k[layer_idx as int] == self.k_buffers[layer_idx as int].range());
            assert(self@.v[layer_idx as int] == self.v_buffers[layer_idx as int].range());
        }
        let row: usize = self.n_kv_heads * self.head_dim;
        let offset: usize = self.seq_len * row * size;
        let bytes: usize = append_len * row * size;
        let copies: KvAppend = KvAppend {
            key: DeviceCopy {
                destination: self.k_buffers[layer_idx].ptr() + offset,
                source: k_source.ptr(),
                bytes,
                stream: ctx.stream,
            },
            value: DeviceCopy {
                destination: self.v_buffers[layer_idx].ptr() + offset,
                source: v_source.ptr(),
                bytes,
                stream: ctx.stream,
            },
        };
        self.dtype = Some(dtype);
        Ok(copies)
    }

    /// The portable append, which has no stream to order its copies on.
    pub fn append_without_stream(&self) -> (r: Result<KvAppend, Error>)
        ensures
            r == Err::<KvAppend, Error>(Error::Other(KV_STREAM_TEXT)),
    {
        Err(Error::Other(KV_STREAM_TEXT))
    }

    /// Moves the position past `n` appended tokens.
    pub fn advance(&mut self, n: usize)
        ensures
            final(self)@ == (KvView {
                seq_len: if old(self)@.seq_len + n > usize::MAX {
                    usize::MAX
                } else {
                    (old(self)@.seq_len + n) as usize
                },
                ..old(self)@
            }),
    {
        proof {
            use_type_invariant(&*self);
        }
        self.seq_len = self.seq_len.saturating_add(n);
    }

    /// What has to be zeroed to clear the cache: the keys of every layer,
    /// then the values.
    pub fn clear(&self) -> (request: Result<KvClear, Error>)
        ensures
            match request {
                Ok(r) => {
                    &&& r.device == self@.device
                    &&& r.ranges@.len() == self@.k.len() + self@.v.len()
                    &&& forall|i: int|
                        0 <= i < self@.k.len() ==> (#[trigger] r.ranges@[i]) == (DeviceClear {
                            ptr: self@.k[i].ptr,
                            bytes: self@.k[i].len,
                        })
                    &&& forall|i: int|
                        self@.k.len() <= i < r.ranges@.len() ==> (#[trigger] r.ranges@[i]) == (
                        DeviceClear {
                            ptr: self@.v[i - self@.k.len()].ptr,
                            bytes: self@.v[i - self@.k.len()].len,
                        })
                },
                Err(e) => self@.device > i32::MAX && e == Error::Other(KV_DEVICE_TEXT),
            },
    {
        if self.device_id > i32::MAX as usize {
            return Err(Error::Other(KV_DEVICE_TEXT));
        }
        let mut ranges: Vec<DeviceClear> = Vec::new();
        let layers: usize = self.k_buffers.len();
        let mut i: usize = 0;
        while i < layers
            invariant
                i <= layers == self.k_buffers.len(),
                ranges@.len() == i,
                forall|j: int|
                    0 <= j < i ==> (#[trigger] ranges@[j]) == (DeviceClear {
                        ptr: self.k_buffers[j].range().ptr,
                        bytes: self.k_buffers[j].range().len,
                    }),
            decreases layers - i,
        {
            ranges.push(
                DeviceClear { ptr: self.k_buffers[i].ptr(), bytes: self.k_buffers[i].len() },
            );
            i = i + 1;
        }
        let mut j: usize = 0;
        while j < self.v_buffers.len()
            invariant
                j <= self.v_buffers.len(),
                layers == self.k_buffers.len(),
                ranges@.len() == layers + j,
                forall|x: int|
                    0 <= x < layers ==> (#[trigger] ranges@[x]) == (DeviceClear {
                        ptr: self.k_buffers[x].range().ptr,
                        bytes: self.k_buffers[x].range().len,
                    }),
                forall|x: int|
                    layers <= x < layers + j ==> (#[trigger] ranges@[x]) == (DeviceClear {
                        ptr: self.v_buffers[x - layers].range().ptr,
                        bytes: self.v_buffers[x - layers].range().len,
                    }),
            decreases self.v_buffers.len() - j,
        {
            ranges.push(
                DeviceClear { ptr: self.v_buffers[j].ptr(), bytes: self.v_buffers[j].len() },
            );
            j = j + 1;
        }
        Ok(KvClear { device: self.device_id as i32, ranges })
    }

    /// Forgets every token and the element type, once the storage was zeroed.
    pub fn finish_clear(&mut self)
        ensures
            final(self)@ == (KvView { seq_len: 0, dtype: None, ..old(self)@ }),
    {
        proof {
            use_type_invariant(&*self);
        }
        self.seq_len = 0;
        self.dtype = None;
    }
}

/// An accepted append stays inside its layer's storage, and inside the part
/// that the layer's tensor covers.
pub proof fn law_append_stays_inside_its_layer(
    cache: KvView,
    device: usize,
    layer_idx: usize,
    k: &Tensor,
    v: &Tensor,
    append_len: usize,
    stream: CudaStream,
)
    requires
        cache.sound(),
        cache.append_rejection(device, layer_idx, k, v, append_len) is None,
    ensures
        ({
            let copies = cache.append_copies(stream, layer_idx, k, v, append_len);
            let keys = cache.k[layer_idx as int];
            let values = cache.v[layer_idx as int];
            &&& keys.ptr <= copies.key.destination
            &&& copies.key.destination + copies.key.bytes <= keys.ptr + cache.logical_bytes(k.dtype)
            &&& keys.ptr + cache.logical_bytes(k.dtype) <= keys.ptr + keys.len
            &&& values.ptr <= copies.value.destination
            &&& copies.value.destination + copies.value.bytes <= values.ptr + cache.logical_bytes(
                k.dtype,
            )
            &&& values.ptr + cache.logical_bytes(k.dtype) <= values.ptr + values.len
        }),
{
    lemma_append_bytes(cache, device, layer_idx, k, v, append_len);
}

proof fn lemma_append_bytes(
    cache: KvView,
    device: usize,
    layer_idx: usize,
    k: &Tensor,
    v: &Tensor,
    append_len: usize,
)
    requires
        cache.sound(),
        cache.append_rejection(device, layer_idx, k, v, append_len) is None,
    ensures
        0 <= cache.next_offset(k.dtype),
        0 <= cache.token_bytes(append_len, k.dtype),
        cache.next_offset(k.dtype) + cache.token_bytes(append_len, k.dtype)
            <= cache.logical_bytes(k.dtype),
        cache.next_offset(k.dtype) + cache.token_bytes(append_len, k.dtype) == ((cache.seq_len
            + append_len) * cache.row()) * k.dtype.size(),
        cache.logical_bytes(k.dtype) <= cache.k[layer_idx as int].len,
        cache.logical_bytes(k.dtype) <= cache.v[layer_idx as int].len,
        cache.k[layer_idx as int].ptr + cache.k[layer_idx as int].len <= usize::MAX,
        cache.v[layer_idx as int].ptr + cache.v[layer_idx as int].len <= usize::MAX,
{
    let h = cache.n_kv_heads as int;
    let d = cache.head_dim as int;
    let m = cache.max_seq_len as int;
    let size = k.dtype.size() as int;
    let end = cache.seq_len + append_len;
    lemma_layer_fits(h, d, m, cache.seq_len as int, size);
    lemma_layer_fits(h, d, m, append_len as int, size);
    lemma_layer_fits(h, d, m, end, size);
    assert((cache.seq_len * (h * d)) * size + (append_len * (h * d)) * size == (end * (h * d))
        * size) by (nonlinear_arith)
        requires
            end == cache.seq_len + append_len,
    ;
}

/// After an append and the advance past it, the next append to the layer
/// starts right where the first one ended.
pub proof fn law_appends_are_adjacent(
    cache: KvView,
    device: usize,
    layer_idx: usize,
    k: &Tensor,
    v: &Tensor,
    append_len: usize,
    next_k: &Tensor,
    next_v: &Tensor,
    next_len: usize,
    stream: CudaStream,
)
    requires
        cache.sound(),
        cache.append_rejection(device, layer_idx, k, v, append_len) is None,
        (KvView {
            dtype: Some(k.dtype),
            seq_len: (cache.seq_len + append_len) as usize,
            ..cache
        }).append_rejection(device, layer_idx, next_k, next_v, next_len) is None,
    ensures
        ({
            let advanced = KvView {
                dtype: Some(k.dtype),
                seq_len: (cache.seq_len + append_len) as usize,
                ..cache
            };
            let first = cache.append_copies(stream, layer_idx, k, v, append_len);
            let second = advanced.append_copies(stream, layer_idx, next_k, next_v, next_len);
            &&& next_k.dtype == k.dtype
            &&& second.key.destination == first.key.destination + first.key.bytes
            &&& second.value.destination == first.value.destination + first.value.bytes
        }),
{
    lemma_append_bytes(cache, device, layer_idx, k, v, append_len);
    let advanced = KvView {
        dtype: Some(k.dtype),
        seq_len: (cache.seq_len + append_len) as usize,
        ..cache
    };
    lemma_append_bytes(advanced, device, layer_idx, next_k, next_v, next_len);
}

/// Once an append has fixed the element type, appends of another type are
/// refused until the cache is cleared; then any half-precision type is taken.
pub proof fn law_type_is_fixed_until_cleared(
    cache: KvView,
    fixed: DType,
    device: usize,
    layer_idx: usize,
    k: &Tensor,
    v: &Tensor,
    append_len: usize,
)
    requires
        cache.sound(),
        cache.dtype == Some(fixed),
        (KvView { seq_len: 0, dtype: None, ..cache }).append_rejection(
            device,
            layer_idx,
            k,
            v,
            append_len,
        ) is None,
        cache.seq_len + append_len <= cache.max_seq_len,
    ensures
        k.dtype == fixed ==> cache.append_rejection(device, layer_idx, k, v, append_len) is None,
        k.dtype != fixed ==> cache.append_rejection(device, layer_idx, k, v, append_len) == Some(
            ErrorView::Plain(Error::DTypeMismatch { expected: fixed, got: k.dtype }),
        ),
{
    assert(cache.row_rejection(k, append_len) == (KvView {
        seq_len: 0,
        dtype: None,
        ..cache
    }).row_rejection(k, append_len));
    assert(cache.row_rejection(v, append_len) == (KvView {
        seq_len: 0,
        dtype: None,
        ..cache
    }).row_rejection(v, append_len));
}

/// An append carries each element of its tokens to the row of that token in
/// its layer, behind the tokens that are there: keys to the layer's keys,
/// values to its values, and nothing else.
pub proof fn law_append_carries_each_token_to_its_row(
    cache: KvView,
    device: usize,
    layer_idx: usize,
    k: &Tensor,
    v: &Tensor,
    append_len: usize,
    stream: CudaStream,
    t: int,
    h: int,
    d: int,
)
    requires
        cache.sound(),
        cache.append_rejection(device, layer_idx, k, v, append_len) is None,
        0 <= t < append_len,
        0 <= h < cache.n_kv_heads,
        0 <= d < cache.head_dim,
    ensures
        ({
            let copies = cache.append_copies(stream, layer_idx, k, v, append_len);
            let size = k.dtype.size();
            let place = (((cache.seq_len + t) * cache.n_kv_heads + h) * cache.head_dim + d) * size;
            &&& k.starts_at(device, copies.key.source)
            &&& v.starts_at(device, copies.value.source)
            &&& copies.key.destination + (k.address_3(t, h, d) - copies.key.source) == cache.k[layer_idx as int].ptr + place
            &&& copies.value.destination + (v.address_3(t, h, d) - copies.value.source) == cache.v[layer_idx as int].ptr + place
            &&& copies.key.source <= k.address_3(t, h, d)
            &&& k.address_3(t, h, d) + size <= copies.key.source + copies.key.bytes
            &&& copies.key.bytes == crate::shape::product(k.extents()) * size
            &&& copies.value.bytes == crate::shape::product(v.extents()) * size
            &&& copies.key.stream == stream
            &&& copies.value.stream == stream
        }),
{
    lemma_append_bytes(cache, device, layer_idx, k, v, append_len);
    let heads = cache.n_kv_heads as int;
    let dim = cache.head_dim as int;
    let size = k.dtype.size() as int;
    let past = cache.seq_len as int;
    let tokens = append_len as int;
    crate::shape::lemma_product_3(append_len, cache.n_kv_heads, cache.head_dim);
    assert((past * (heads * dim)) * size + ((t * heads + h) * dim + d) * size == (((past + t) * heads + h) * dim + d) * size)
        by (nonlinear_arith);
    assert((tokens * heads * dim) * size == (tokens * (heads * dim)) * size) by (nonlinear_arith);
    assert(0 <= (t * heads + h) * dim + d && (t * heads + h) * dim + d + 1 <= tokens * heads * dim)
        by (nonlinear_arith)
        requires
            0 <= t < tokens,
            0 <= h < heads,
            0 <= d < dim,
    ;
    assert(0 <= ((t * heads + h) * dim + d) * size && ((t * heads + h) * dim + d) * size + size <= (tokens * heads * dim) * size)
        by (nonlinear_arith)
        requires
            0 <= (t * heads + h) * dim + d,
            (t * heads + h) * dim + d + 1 <= tokens * heads * dim,
            1 <= size,
    ;
}

/// An append is accepted exactly when it is of at least one token, fits behind
/// those that are there, names a layer, and brings keys and values of one
/// half-precision type, that of the cache once it has one, of the cache's
/// geometry and device.
pub proof fn law_appends_are_accepted_exactly_when_they_fit(
    cache: KvView,
    device: usize,
    layer_idx: usize,
    k: &Tensor,
    v: &Tensor,
    append_len: usize,
)
    ensures
        cache.append_rejection(device, layer_idx, k, v, append_len) is None <==> {
            &&& device == cache.device
            &&& layer_idx < cache.k.len()
            &&& append_len > 0
            &&& cache.seq_len + append_len <= cache.max_seq_len
            &&& k.dtype is F16 || k.dtype is BF16
            &&& v.dtype == k.dtype
            &&& (cache.dtype matches Some(fixed) ==> fixed == k.dtype)
            &&& k.placed_on() == Device::Cuda(device)
            &&& v.placed_on() == Device::Cuda(device)
            &&& k.extents() == seq![append_len, cache.n_kv_heads, cache.head_dim]
            &&& v.extents() == seq![append_len, cache.n_kv_heads, cache.head_dim]
        },
{
}

/// A layer has room for as many tokens as the cache takes, of any element
/// type, and a cache is refused exactly where an extent is zero or a machine
/// word does not hold that many bytes.
pub proof fn law_layers_have_room_for_every_token(
    n_layers: usize,
    n_kv_heads: usize,
    head_dim: usize,
    max_seq_len: usize,
    dtype: DType,
)
    ensures
        geometry_rejection(n_layers, n_kv_heads, head_dim, max_seq_len) is None <==> {
            &&& n_layers > 0 && n_kv_heads > 0 && head_dim > 0 && max_seq_len > 0
            &&& ((n_kv_heads * head_dim) * max_seq_len) * 4 <= usize::MAX
        },
        layer_elements(n_kv_heads, head_dim, max_seq_len) == (n_kv_heads * head_dim) * max_seq_len,
        dtype.size() <= MAX_ELEMENT_BYTES,
        DType::F32.size() == MAX_ELEMENT_BYTES,
{
    assert(0 <= (n_kv_heads * head_dim) * max_seq_len) by (nonlinear_arith);
}

} // verus!
