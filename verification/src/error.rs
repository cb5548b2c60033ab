//! Failures reported by the runtime.
use vstd::prelude::*;

use crate::dtype::{DType, Device};
use crate::fp8::dual::Fp8DualGeGluMode;
use crate::fp8::tuning::GemmOp;
use crate::scalar::F32Bits;
use crate::text::{push_dims, push_i32, push_u64, push_usize};

verus! {

/// Why a request was refused, or what the driver reported.
#[derive(Debug)]
pub enum Error {
    /// A refusal described by a fixed sentence.
    Other(&'static str),
    /// A failure reported by the driver or by a native library.
    Cuda(String),
    DTypeMismatch { expected: DType, got: DType },
    DeviceMismatch { expected_device: Device, got_device: Device },
    ShapeMismatch { expected_dims: Vec<usize>, got_dims: Vec<usize> },
    /// A view that would leave its buffer.
    ViewOutOfRange { offset: usize, bytes: usize, available: usize },
    /// A buffer whose size is not that of the tensor it was to hold.
    TensorSize { available: usize },
    /// An operand at an address its element type is not aligned to.
    Misaligned { ptr: usize, bytes: usize },
    /// A device number beyond the driver's range.
    DeviceOrdinal { device_id: usize },
    /// A workspace used by an operation on another device.
    WorkspaceDevice { workspace_device: usize, operation_device: usize },
    /// A workspace too small for what it is to hold.
    WorkspaceExhausted { need: usize, capacity: usize },
    /// More free than total memory.
    InvalidMemoryInfo { free: usize, total: usize },
    /// A layer that a KV cache does not have.
    KvLayer { layer: usize, layers: usize },
    /// An append that would leave a KV cache.
    KvCapacity { end: usize, limit: usize },
    /// An NVFP4 block size that the native library does not know.
    Nvfp4BlockSize { block_size: u32 },
    /// NVFP4 scales that are fewer than their shape needs.
    Nvfp4Source { held: usize, needed: u64 },
    /// A destination too small for relaid-out NVFP4 scales.
    Nvfp4Destination { held: usize, required: usize },
    /// An operation that the type of its input does not have.
    UnsupportedType { operation: &'static str, dtype: DType },
    /// An input that is neither vector nor matrix.
    MatrixRank { operation: &'static str, rank: usize },
    /// A switch of the dual GeGLU backend that stands for no mode.
    DualMode { given: String },
    /// A dual GeGLU mode, backend and weight layout that do not go together.
    DualLayout {
        mode: Fp8DualGeGluMode,
        dual_mega: bool,
        primary_interleaved: bool,
        auto_interleaved: bool,
    },
    /// A record that the FP8 dual GeGLU backend was not validated for.
    Fp8DualRecord { m: usize, n: usize, k: usize, tactic: i32 },
    /// A record that a BF16 dual GeGLU backend was not validated for.
    Bf16DualRecord { experiment: &'static str, expected_m: usize },
    /// A tactic for an operation that its backend does not have.
    TuningOperation { what: &'static str, op: GemmOp },
    /// A heuristic rank that the matrix library does not have.
    HeuristicRank { rank: i32 },
    /// A number that stands for no custom tactic.
    CustomTactic { what: &'static str, tactic: i32 },
    /// Operands of a static FP8 product that are not E4M3.
    Fp8Operands { what: &'static str, left: DType, right: DType },
    /// Scales of a static FP8 product that are not finite and positive.
    Fp8Scales {
        what: &'static str,
        activation_scale: F32Bits,
        weight_scale: F32Bits,
        output_scale: Option<F32Bits>,
    },
    /// Extents that a static FP8 product cannot have.
    Fp8Shapes { what: &'static str, a_dims: Vec<usize>, b_dims: Vec<usize> },
    /// A product that a fused backend was not tuned for.
    FusedShape { tuned_m: usize, m: usize, full_n: usize, k: usize },
    /// A weight that does not fit the route that selected it.
    SelectedWeight { wanted_dims: Vec<usize>, dtype: DType, got_dims: Vec<usize> },
    /// A kernel that turned a problem down.
    KernelRejected { what: &'static str, m: usize, n: usize, k: usize, status: i32 },
    /// A tuning candidate that turned a problem down.
    TacticRejected { tactic: i32, m: usize, n: usize, k: usize, status: i32 },
    /// Two matrices that cannot be multiplied.
    MatmulShapes { a_dims: Vec<usize>, b_dims: Vec<usize> },
}

/// What an [`Error`] says, with lists taken by their elements.
pub enum ErrorView {
    Plain(Error),
    Shape { expected: Seq<usize>, got: Seq<usize> },
    MatmulShapes { a: Seq<usize>, b: Seq<usize> },
    Fp8Shapes { what: &'static str, a: Seq<usize>, b: Seq<usize> },
    SelectedWeight { wanted: Seq<usize>, dtype: DType, found: Seq<usize> },
}

impl View for Error {
    type V = ErrorView;

    open spec fn view(&self) -> ErrorView {
        match *self {
            Error::ShapeMismatch { expected_dims, got_dims } => ErrorView::Shape {
                expected: expected_dims@,
                got: got_dims@,
            },
            Error::MatmulShapes { a_dims, b_dims } => ErrorView::MatmulShapes {
                a: a_dims@,
                b: b_dims@,
            },
            Error::Fp8Shapes { what, a_dims, b_dims } => ErrorView::Fp8Shapes {
                what,
                a: a_dims@,
                b: b_dims@,
            },
            Error::SelectedWeight { wanted_dims, dtype, got_dims } => ErrorView::SelectedWeight {
                wanted: wanted_dims@,
                dtype,
                found: got_dims@,
            },
            _ => ErrorView::Plain(*self),
        }
    }
}

/// How a yes or no reads.
pub open spec fn flag_text(flag: bool) -> Seq<char> {
    if flag {
        "true"@
    } else {
        "false"@
    }
}

fn flag_name(flag: bool) -> (name: &'static str)
    ensures
        name@ == flag_text(flag),
{
    if flag {
        "true"
    } else {
        "false"
    }
}

impl Error {
    /// The sentence that describes the failure.
    pub open spec fn text(self) -> Seq<char> {
        match self {
            Error::Other(text) => text@,
            Error::Cuda(text) => text@,
            Error::DTypeMismatch { expected, got } => "dtype mismatch: expected "@ + expected.label() + ", got "@ + got.label(),
            Error::DeviceMismatch { expected_device, got_device } => "device mismatch: expected "@ + expected_device.label() + ", got "@ + got_device.label(),
            Error::ShapeMismatch { expected_dims, got_dims } => "shape mismatch: expected "@ + crate::text::bracketed(expected_dims@) + ", got "@ + crate::text::bracketed(got_dims@),
            Error::ViewOutOfRange { offset, bytes, available } => "view of "@ + crate::text::decimal(bytes as nat) + " bytes at "@ + crate::text::decimal(offset as nat) + " leaves a buffer of "@ + crate::text::decimal(available as nat) + " bytes"@,
            Error::TensorSize { available } => "a buffer of "@ + crate::text::decimal(available as nat) + " bytes does not hold the tensor exactly"@,
            Error::Misaligned { ptr, bytes } => "address "@ + crate::text::decimal(ptr as nat) + " is not aligned for a "@ + crate::text::decimal(bytes as nat) + "-byte dtype"@,
            Error::DeviceOrdinal { device_id } => "CUDA device id "@ + crate::text::decimal(device_id as nat) + " does not fit in i32"@,
            Error::WorkspaceDevice { workspace_device, operation_device } => "static inference workspace is on CUDA "@ + crate::text::decimal(workspace_device as nat) + ", but operation targets CUDA "@ + crate::text::decimal(operation_device as nat),
            Error::WorkspaceExhausted { need, capacity } => "static inference workspace exhausted: need "@ + crate::text::decimal(need as nat) + " bytes, capacity is "@ + crate::text::decimal(capacity as nat) + " bytes"@,
            Error::InvalidMemoryInfo { free, total } => "CUDA returned invalid memory info: free="@ + crate::text::decimal(free as nat) + ", total="@ + crate::text::decimal(total as nat),
            Error::KvLayer { layer, layers } => "CUDA KV cache layer "@ + crate::text::decimal(layer as nat) + " is out of range for "@ + crate::text::decimal(layers as nat) + " layers"@,
            Error::KvCapacity { end, limit } => "CUDA KV append ends at "@ + crate::text::decimal(end as nat) + ", beyond capacity "@ + crate::text::decimal(limit as nat),
            Error::Nvfp4BlockSize { block_size } => "unsupported NVFP4 block size "@ + crate::text::decimal(block_size as nat),
            Error::Nvfp4Source { held, needed } => "NVFP4 scale source holds "@ + crate::text::decimal(held as nat) + " bytes, needs "@ + crate::text::decimal(needed as nat),
            Error::Nvfp4Destination { held, required } => "NVFP4 scale destination holds "@ + crate::text::decimal(held as nat) + " bytes, needs "@ + crate::text::decimal(required as nat),
            Error::UnsupportedType { operation, dtype } => "portable CUDA "@ + operation@ + " does not support "@ + dtype.label(),
            Error::MatrixRank { operation, rank } => operation@ + " requires a vector or matrix, got rank "@ + crate::text::decimal(rank as nat),
            Error::DualMode { given } => "APXINF_PI05_FP8_DUAL_GEGLU must be auto, 0/off, or 1/on; got "@ + given@,
            Error::DualLayout { mode, dual_mega, primary_interleaved, auto_interleaved } => "FP8 dual GeGLU config/layout mismatch: mode="@ + mode.label() + ", backend_dual="@ + flag_text(dual_mega) + ", primary_interleaved="@ + flag_text(primary_interleaved) + ", auto_interleaved="@ + flag_text(auto_interleaved),
            Error::Fp8DualRecord { m, n, k, tactic } => "FP8 dual GeGLU backend requires M522 or M533, N32768/K2048, tactic 0; got M"@ + crate::text::decimal(m as nat) + "/N"@ + crate::text::decimal(n as nat) + "/K"@ + crate::text::decimal(k as nat) + " tactic "@ + crate::text::signed_decimal(tactic as int),
            Error::Bf16DualRecord { experiment, expected_m } => experiment@ + " backend requires exact BF16 M"@ + crate::text::decimal(expected_m as nat) + "/N32768/K2048 tactic 0"@,
            Error::TuningOperation { what, op } => what@ + " does not support tuning operation "@ + op.label(),
            Error::HeuristicRank { rank } => "invalid static inference cuBLASLt heuristic rank "@ + crate::text::signed_decimal(rank as int),
            Error::CustomTactic { what, tactic } => "invalid static inference cuBLASLt "@ + what@ + " "@ + crate::text::signed_decimal(tactic as int),
            Error::Fp8Operands { what, left, right } => what@ + " expects E4M3 operands, got "@ + left.label() + " and "@ + right.label(),
            Error::Fp8Scales { what, .. } => what@ + " scales must be finite and positive"@,
            Error::Fp8Shapes { what, a_dims, b_dims } => what@ + " shape mismatch: "@ + crate::text::bracketed(a_dims@) + " @ "@ + crate::text::bracketed(b_dims@),
            Error::FusedShape { tuned_m, m, full_n, k } => "fused FP8 GeGLU backend is tuned only for ["@ + crate::text::decimal(tuned_m as nat) + ",2048] @ [2048,32768], got ["@ + crate::text::decimal(m as nat) + ","@ + crate::text::decimal(k as nat) + "] @ ["@ + crate::text::decimal(k as nat) + ","@ + crate::text::decimal(full_n as nat) + "]"@,
            Error::SelectedWeight { wanted_dims, dtype, got_dims } => "FP8 dual GeGLU selected weight must be E4M3 "@ + crate::text::bracketed(wanted_dims@) + ", got "@ + dtype.label() + " "@ + crate::text::bracketed(got_dims@),
            Error::KernelRejected { what, m, n, k, status } => what@ + " rejected ["@ + crate::text::decimal(m as nat) + ","@ + crate::text::decimal(n as nat) + ","@ + crate::text::decimal(k as nat) + "] ("@ + crate::text::signed_decimal(status as int) + ")"@,
            Error::TacticRejected { tactic, m, n, k, status } => "CUTLASS tactic "@ + crate::text::signed_decimal(tactic as int) + " rejected shape ["@ + crate::text::decimal(m as nat) + ","@ + crate::text::decimal(n as nat) + ","@ + crate::text::decimal(k as nat) + "] ("@ + crate::text::signed_decimal(status as int) + ")"@,
            Error::MatmulShapes { a_dims, b_dims } => "portable CUDA matmul requires [M,K] @ [K,N], got "@ + crate::text::bracketed(a_dims@) + " and "@ + crate::text::bracketed(b_dims@),
        }
    }

    /// The sentence with the values of unusable scales, in the decimal form
    /// that is given for them.
    pub open spec fn text_with_scales(
        &self,
        activation: Seq<char>,
        weight: Seq<char>,
        output: Seq<char>,
    ) -> Seq<char> {
        match *self {
            Error::Fp8Scales { output_scale, .. } => self.text() + ", got activation="@ + activation
                + ", weight="@ + weight + (if output_scale is Some {
                ", output="@ + output
            } else {
                Seq::empty()
            }),
            _ => self.text(),
        }
    }

    /// The sentence that describes the failure, with the values of unusable
    /// scales. Whoever can print floating-point numbers gives these values;
    /// of any other failure they are no part.
    pub fn message_with_scales(&self, activation: &str, weight: &str, output: &str) -> (message:
        String)
        ensures
            message@ == self.text_with_scales(activation@, weight@, output@),
    {
        let mut out: String = self.message();
        match self {
            Error::Fp8Scales { output_scale, .. } => {
                out.append(", got activation=");
                out.append(activation);
                out.append(", weight=");
                out.append(weight);
                if output_scale.is_some() {
                    out.append(", output=");
                    out.append(output);
                }
                assert(out@ =~= self.text_with_scales(activation@, weight@, output@));
            },
            _ => {},
        }
        out
    }

    /// The sentence that describes the failure. The values of unusable scales
    /// are not part of it: they stand in the error's fields, and
    /// [`message_with_scales`](Self::message_with_scales) adds them.
    pub fn message(&self) -> (message: String)
        ensures
            message@ == self.text(),
    {
        let mut out: String = String::new();
        match self {
            Error::Other(text) => {
                out.append(text);
            },
            Error::Cuda(text) => {
                out.append(text.as_str());
            },
            Error::DTypeMismatch { expected, got } => {
                out.append("dtype mismatch: expected ");
                out.append(expected.name());
                out.append(", got ");
                out.append(got.name());
            },
            Error::DeviceMismatch { expected_device, got_device } => {
                out.append("device mismatch: expected ");
                expected_device.push_name(&mut out);
                out.append(", got ");
                got_device.push_name(&mut out);
            },
            Error::ShapeMismatch { expected_dims, got_dims } => {
                out.append("shape mismatch: expected ");
                push_dims(&mut out, expected_dims);
                out.append(", got ");
                push_dims(&mut out, got_dims);
            },
            Error::ViewOutOfRange { offset, bytes, available } => {
                out.append("view of ");
                push_usize(&mut out, *bytes);
                out.append(" bytes at ");
                push_usize(&mut out, *offset);
                out.append(" leaves a buffer of ");
                push_usize(&mut out, *available);
                out.append(" bytes");
            },
            Error::TensorSize { available } => {
                out.append("a buffer of ");
                push_usize(&mut out, *available);
                out.append(" bytes does not hold the tensor exactly");
            },
            Error::Misaligned { ptr, bytes } => {
                out.append("address ");
                push_usize(&mut out, *ptr);
                out.append(" is not aligned for a ");
                push_usize(&mut out, *bytes);
                out.append("-byte dtype");
            },
            Error::DeviceOrdinal { device_id } => {
                out.append("CUDA device id ");
                push_usize(&mut out, *device_id);
                out.append(" does not fit in i32");
            },
            Error::WorkspaceDevice { workspace_device, operation_device } => {
                out.append("static inference workspace is on CUDA ");
                push_usize(&mut out, *workspace_device);
                out.append(", but operation targets CUDA ");
                push_usize(&mut out, *operation_device);
            },
            Error::WorkspaceExhausted { need, capacity } => {
                out.append("static inference workspace exhausted: need ");
                push_usize(&mut out, *need);
                out.append(" bytes, capacity is ");
                push_usize(&mut out, *capacity);
                out.append(" bytes");
            },
            Error::InvalidMemoryInfo { free, total } => {
                out.append("CUDA returned invalid memory info: free=");
                push_usize(&mut out, *free);
                out.append(", total=");
                push_usize(&mut out, *total);
            },
            Error::KvLayer { layer, layers } => {
                out.append("CUDA KV cache layer ");
                push_usize(&mut out, *layer);
                out.append(" is out of range for ");
                push_usize(&mut out, *layers);
                out.append(" layers");
            },
            Error::KvCapacity { end, limit } => {
                out.append("CUDA KV append ends at ");
                push_usize(&mut out, *end);
                out.append(", beyond capacity ");
                push_usize(&mut out, *limit);
            },
            Error::Nvfp4BlockSize { block_size } => {
                out.append("unsupported NVFP4 block size ");
                push_u64(&mut out, *block_size as u64);
            },
            Error::Nvfp4Source { held, needed } => {
                out.append("NVFP4 scale source holds ");
                push_usize(&mut out, *held);
                out.append(" bytes, needs ");
                push_u64(&mut out, *needed);
            },
            Error::Nvfp4Destination { held, required } => {
                out.append("NVFP4 scale destination holds ");
                push_usize(&mut out, *held);
                out.append(" bytes, needs ");
                push_usize(&mut out, *required);
            },
            Error::UnsupportedType { operation, dtype } => {
                out.append("portable CUDA ");
                out.append(operation);
                out.append(" does not support ");
                out.append(dtype.name());
            },
            Error::MatrixRank { operation, rank } => {
                out.append(operation);
                out.append(" requires a vector or matrix, got rank ");
                push_usize(&mut out, *rank);
            },
            Error::DualMode { given } => {
                out.append("APXINF_PI05_FP8_DUAL_GEGLU must be auto, 0/off, or 1/on; got ");
                out.append(given.as_str());
            },
            Error::DualLayout { mode, dual_mega, primary_interleaved, auto_interleaved } => {
                out.append("FP8 dual GeGLU config/layout mismatch: mode=");
                out.append(mode.name());
                out.append(", backend_dual=");
                out.append(flag_name(*dual_mega));
                out.append(", primary_interleaved=");
                out.append(flag_name(*primary_interleaved));
                out.append(", auto_interleaved=");
                out.append(flag_name(*auto_interleaved));
            },
            Error::Fp8DualRecord { m, n, k, tactic } => {
                out.append("FP8 dual GeGLU backend requires M522 or M533, N32768/K2048, tactic 0; got M");
                push_usize(&mut out, *m);
                out.append("/N");
                push_usize(&mut out, *n);
                out.append("/K");
                push_usize(&mut out, *k);
                out.append(" tactic ");
                push_i32(&mut out, *tactic);
            },
            Error::Bf16DualRecord { experiment, expected_m } => {
                out.append(experiment);
                out.append(" backend requires exact BF16 M");
                push_usize(&mut out, *expected_m);
                out.append("/N32768/K2048 tactic 0");
            },
            Error::TuningOperation { what, op } => {
                out.append(what);
                out.append(" does not support tuning operation ");
                out.append(op.name());
            },
            Error::HeuristicRank { rank } => {
                out.append("invalid static inference cuBLASLt heuristic rank ");
                push_i32(&mut out, *rank);
            },
            Error::CustomTactic { what, tactic } => {
                out.append("invalid static inference cuBLASLt ");
                out.append(what);
                out.append(" ");
                push_i32(&mut out, *tactic);
            },
            Error::Fp8Operands { what, left, right } => {
                out.append(what);
                out.append(" expects E4M3 operands, got ");
                out.append(left.name());
                out.append(" and ");
                out.append(right.name());
            },
            Error::Fp8Scales { what, .. } => {
                out.append(what);
                out.append(" scales must be finite and positive");
            },
            Error::Fp8Shapes { what, a_dims, b_dims } => {
                out.append(what);
                out.append(" shape mismatch: ");
                push_dims(&mut out, a_dims);
                out.append(" @ ");
                push_dims(&mut out, b_dims);
            },
            Error::FusedShape { tuned_m, m, full_n, k } => {
                out.append("fused FP8 GeGLU backend is tuned only for [");
                push_usize(&mut out, *tuned_m);
                out.append(",2048] @ [2048,32768], got [");
                push_usize(&mut out, *m);
                out.append(",");
                push_usize(&mut out, *k);
                out.append("] @ [");
                push_usize(&mut out, *k);
                out.append(",");
                push_usize(&mut out, *full_n);
                out.append("]");
            },
            Error::SelectedWeight { wanted_dims, dtype, got_dims } => {
                out.append("FP8 dual GeGLU selected weight must be E4M3 ");
                push_dims(&mut out, wanted_dims);
                out.append(", got ");
                out.append(dtype.name());
                out.append(" ");
                push_dims(&mut out, got_dims);
            },
            Error::KernelRejected { what, m, n, k, status } => {
                out.append(what);
                out.append(" rejected [");
                push_usize(&mut out, *m);
                out.append(",");
                push_usize(&mut out, *n);
                out.append(",");
                push_usize(&mut out, *k);
                out.append("] (");
                push_i32(&mut out, *status);
                out.append(")");
            },
            Error::TacticRejected { tactic, m, n, k, status } => {
                out.append("CUTLASS tactic ");
                push_i32(&mut out, *tactic);
                out.append(" rejected shape [");
                push_usize(&mut out, *m);
                out.append(",");
                push_usize(&mut out, *n);
                out.append(",");
                push_usize(&mut out, *k);
                out.append("] (");
                push_i32(&mut out, *status);
                out.append(")");
            },
            Error::MatmulShapes { a_dims, b_dims } => {
                out.append("portable CUDA matmul requires [M,K] @ [K,N], got ");
                push_dims(&mut out, a_dims);
                out.append(" and ");
                push_dims(&mut out, b_dims);
            },
        }
        assert(out@ =~= self.text());
        out
    }
}

} // verus!
