//! Requests run end to end on a simulated device: the library decides, and
//! the native calls it asks for are carried out on host memory.

use std::collections::HashMap;
use std::sync::{Arc, Weak};

use apxinf_cuda::graph::{begin, end};
use apxinf_cuda::ops::attention::AttentionLaunch;
use apxinf_cuda::ops::gather::GatherLaunch;
use apxinf_cuda::ops::gemm::contracts::{normalize, PlanApi, Semantic};
use apxinf_cuda::ops::gemm::execution::{
    prepare, CreateOutcome, Execution, PrepareStep, PreparedExecution,
};
use apxinf_cuda::ops::gemm::instance::InstanceKey;
use apxinf_cuda::ops::launch::PendingLaunch;
use apxinf_cuda::ops::norm::{NormLaunch, NormSemantic};
use apxinf_cuda::ops::pointwise::PointwiseLaunch;
use apxinf_cuda::ops::quantization::QuantizationLaunch;
use apxinf_cuda::ops::rope::RopeLaunch;
use apxinf_cuda::ops::{
    ada_gate_residual, ada_gate_residual_rms_norm, adaptive_rms_norm, attention, bias_residual,
    bias_residual_layer_norm, bias_residual_rms_norm, bias_then_residual, gather, gemm, gemm_bias,
    gemm_bias_gelu, gemm_geglu, kv_cache_attention, layer_norm, pointwise, prepare_gemm,
    quantization, rms_norm, rope, segmented_attention, AdaGateResidualArgs,
    AdaGateResidualRmsNormArgs, AdaptiveRmsNormArgs, AttentionArgs, AttentionMask, AttentionScale,
    BiasResidualArgs, BiasResidualLayerNormArgs, BiasResidualRmsNormArgs, BiasThenResidualArgs,
    GatherArgs, GatherPatchGeometry, GatherSemantic, GemmArgs, GemmBiasArgs, GemmBiasGeluArgs,
    GemmGegluArgs, GemmQuantization, KvCacheAttentionArgs, LayerNormArgs, PointwiseActivation,
    PointwiseArgs, PointwiseSemantic, QuantizationArgs, QuantizationSemantic, RmsNormArgs,
    RopeArgs, RopeSemantic, SegmentedAttentionArgs, WeightVersion,
};
use apxinf_cuda::workspace::{prepare_with_workspace, with_workspace};
use apxinf_cuda::{
    capture, CaptureMode, CapturedGraph, CudaBuffer, CudaContext, CudaDeviceCaps, CudaStream,
    DType, DeviceAllocation, Error, F32Bits, GraphWorkspace, Shape, Tensor, ThreadState,
};

/// Bits of the BF16 value nearest to `value`, ties to even.
fn bf16_bits(value: f32) -> u16 {
    let bits = value.to_bits();
    ((bits + 0x7fff + ((bits >> 16) & 1)) >> 16) as u16
}

fn bf16_value(bits: u16) -> f32 {
    f32::from_bits((bits as u32) << 16)
}

/// `value` rounded to a binary format with so many mantissa bits and this
/// least exponent, ties to even.
fn rounded(value: f64, mantissa: i32, least: i32) -> f64 {
    if value == 0.0 {
        return 0.0;
    }
    let exponent = (value.abs().log2().floor() as i32).max(least);
    let quantum = 2f64.powi(exponent - mantissa);
    (value / quantum).round_ties_even() * quantum
}

/// Bits of a small format, from a value that it represents.
fn packed(value: f64, mantissa: i32, least: i32, sign_bit: u32) -> u32 {
    let sign = if value.is_sign_negative() { 1u32 << sign_bit } else { 0 };
    let magnitude = value.abs();
    if magnitude == 0.0 {
        return sign;
    }
    let mut exponent = magnitude.log2().floor() as i32;
    if exponent < least {
        exponent = least - 1;
        let fraction = magnitude / 2f64.powi(least - mantissa);
        return sign | fraction as u32;
    }
    let fraction = (magnitude / 2f64.powi(exponent) - 1.0) * 2f64.powi(mantissa);
    sign | (((exponent - least + 1) as u32) << mantissa) | fraction as u32
}

fn f16_bits(value: f32) -> u16 {
    let near = rounded(value as f64, 10, -14);
    if near.abs() > 65504.0 {
        return if near < 0.0 { 0xfc00 } else { 0x7c00 };
    }
    packed(near, 10, -14, 15) as u16
}

fn f16_value(bits: u16) -> f32 {
    let sign = if bits & 0x8000 != 0 { -1.0 } else { 1.0 };
    let exponent = ((bits >> 10) & 0x1f) as i32;
    let fraction = (bits & 0x3ff) as f32;
    if exponent == 0x1f {
        return sign * f32::INFINITY;
    }
    if exponent == 0 {
        return sign * fraction * 2f32.powi(-24);
    }
    sign * (1.0 + fraction / 1024.0) * 2f32.powi(exponent - 15)
}

/// E4M3 code nearest to `value`; values beyond the range saturate.
fn e4m3_bits(value: f32) -> u8 {
    let near = rounded(value as f64, 3, -6).clamp(-448.0, 448.0);
    packed(near, 3, -6, 7) as u8
}

fn e4m3_value(bits: u8) -> f32 {
    let sign = if bits & 0x80 != 0 { -1.0 } else { 1.0 };
    let exponent = ((bits >> 3) & 0xf) as i32;
    let fraction = (bits & 7) as f32;
    if exponent == 0 {
        return sign * fraction * 2f32.powi(-9);
    }
    sign * (1.0 + fraction / 8.0) * 2f32.powi(exponent - 7)
}

fn bits_of(value: f32) -> F32Bits {
    F32Bits::from_bits(value.to_bits())
}

fn value_of(bits: F32Bits) -> f32 {
    f32::from_bits(bits.bits)
}

fn dtype_of(code: u32) -> DType {
    [
        DType::F32,
        DType::F16,
        DType::BF16,
        DType::F8E4M3,
        DType::I8,
        DType::I32,
        DType::E2M1Pair,
    ][code as usize]
}

fn gelu_tanh(x: f32) -> f32 {
    0.5 * x * (1.0 + (0.797_884_6 * (x + 0.044_715 * x * x * x)).tanh())
}

/// Work that a stream carries out.
#[derive(Clone, Debug)]
enum Work {
    Gemm(usize),
    Norm(NormLaunch),
    Pointwise(PointwiseLaunch),
    Rope(RopeLaunch),
    Gather(GatherLaunch),
    Quantization(QuantizationLaunch),
    Attention(AttentionLaunch),
}

/// A stretch of device memory that stays valid while somebody has a share in
/// it.
struct Block {
    share: Weak<DeviceAllocation>,
    start: usize,
    bytes: usize,
}

/// A device whose memory is host memory and whose kernels run on the host.
struct Gpu {
    memory: Vec<u8>,
    next: usize,
    handles: usize,
    instances: HashMap<usize, InstanceKey>,
    prepacks: HashMap<usize, usize>,
    blocks: Vec<Block>,
    recording: Option<Vec<Work>>,
    graphs: HashMap<usize, Vec<Work>>,
    allocations: usize,
    synchronizations: usize,
}

/// Lowest address of device memory.
const BASE: usize = 0x10_0000;

impl Gpu {
    fn new() -> Gpu {
        Gpu {
            memory: vec![0; 1 << 20],
            next: 0,
            handles: 1,
            instances: HashMap::new(),
            prepacks: HashMap::new(),
            blocks: Vec::new(),
            recording: None,
            graphs: HashMap::new(),
            allocations: 0,
            synchronizations: 0,
        }
    }

    fn handle(&mut self) -> usize {
        self.handles += 1;
        self.handles
    }

    fn context(&mut self) -> CudaContext {
        let handle = self.handle();
        let runtime = self.handle();
        CudaContext::new(0, CudaStream { device: 0, handle }, runtime, Ok(caps())).unwrap()
    }

    fn allocate(&mut self, bytes: usize) -> CudaBuffer {
        self.allocations += 1;
        let ptr = BASE + self.next;
        self.next += (bytes + 255) / 256 * 256;
        assert!(self.next <= self.memory.len());
        let share = Arc::new(DeviceAllocation { id: self.allocations as u64 });
        self.blocks.push(Block { share: Arc::downgrade(&share), start: ptr - BASE, bytes });
        CudaBuffer::from_raw_parts(ptr, bytes, 0, Some(share))
    }

    /// Frees the memory that nobody has a share in: its contents are lost.
    fn collect(&mut self) {
        let memory = &mut self.memory;
        self.blocks.retain(|block| {
            let live = block.share.strong_count() > 0;
            if !live {
                memory[block.start..block.start + block.bytes].fill(0xff);
            }
            live
        });
    }

    /// Number of allocations that are still in use.
    fn live(&mut self) -> usize {
        self.collect();
        self.blocks.len()
    }

    fn weight_prepack_count(&self, prepared: &PreparedExecution) -> usize {
        self.prepacks[&prepared.shared.raw]
    }

    fn workspace(&mut self, bytes: usize) -> GraphWorkspace {
        let storage = self.allocate(bytes);
        GraphWorkspace::new(bytes, Ok(storage)).unwrap()
    }

    fn write_at(&mut self, ptr: usize, bytes: &[u8]) {
        self.memory[ptr - BASE..ptr - BASE + bytes.len()].copy_from_slice(bytes);
    }

    fn copy_from_host(&mut self, buffer: &CudaBuffer, bytes: &[u8]) {
        assert_eq!(buffer.len(), bytes.len());
        self.write_at(buffer.ptr(), bytes);
    }

    fn copy_to_host(&self, buffer: &CudaBuffer) -> Vec<u8> {
        let start = buffer.ptr() - BASE;
        self.memory[start..start + buffer.len()].to_vec()
    }

    fn tensor(&mut self, shape: Vec<usize>, dtype: DType, values: &[f32]) -> Tensor {
        let buffer = self.allocate(values.len() * dtype.size_in_bytes());
        for (index, value) in values.iter().enumerate() {
            self.store(buffer.ptr(), dtype, index, *value);
        }
        buffer.as_tensor(Shape::new(shape), dtype).unwrap()
    }

    fn bytes_tensor(&mut self, shape: Vec<usize>, dtype: DType, bytes: &[u8]) -> Tensor {
        assert_eq!(bytes.len(), shape.iter().product::<usize>() * dtype.size_in_bytes());
        let buffer = self.allocate(bytes.len());
        self.copy_from_host(&buffer, bytes);
        buffer.as_tensor(Shape::new(shape), dtype).unwrap()
    }

    fn zeros_tensor(&mut self, shape: Vec<usize>, dtype: DType) -> Tensor {
        let count = shape.iter().product::<usize>();
        self.bytes_tensor(shape, dtype, &vec![0; count * dtype.size_in_bytes()])
    }

    fn scales(&mut self, values: &[f32]) -> Tensor {
        self.tensor(vec![values.len()], DType::F32, values)
    }

    fn u32_buffer(&mut self, values: &[u32]) -> CudaBuffer {
        let bytes: Vec<u8> = values.iter().flat_map(|value| value.to_ne_bytes()).collect();
        let buffer = self.allocate(bytes.len());
        self.copy_from_host(&buffer, &bytes);
        buffer
    }

    fn u8_buffer(&mut self, values: &[u8]) -> CudaBuffer {
        let buffer = self.allocate(values.len());
        self.copy_from_host(&buffer, values);
        buffer
    }

    fn bytes(&self, tensor: &Tensor) -> Vec<u8> {
        self.copy_to_host(&CudaBuffer::from_tensor(tensor).unwrap())
    }

    fn values(&self, tensor: &Tensor) -> Vec<f32> {
        let buffer = CudaBuffer::from_tensor(tensor).unwrap();
        let count = buffer.len() / tensor.dtype().size_in_bytes();
        (0..count).map(|index| self.load(buffer.ptr(), tensor.dtype(), index)).collect()
    }

    fn buffer_values(&self, buffer: &CudaBuffer) -> Vec<f32> {
        let count = buffer.len() / DType::BF16.size_in_bytes();
        (0..count).map(|index| self.load(buffer.ptr(), DType::BF16, index)).collect()
    }

    fn load(&self, ptr: usize, dtype: DType, index: usize) -> f32 {
        let start = ptr - BASE + index * dtype.size_in_bytes();
        let m = &self.memory;
        match dtype {
            DType::F32 => f32::from_ne_bytes(m[start..start + 4].try_into().unwrap()),
            DType::BF16 => bf16_value(u16::from_ne_bytes([m[start], m[start + 1]])),
            DType::F16 => f16_value(u16::from_ne_bytes([m[start], m[start + 1]])),
            DType::F8E4M3 => e4m3_value(m[start]),
            DType::I8 => m[start] as i8 as f32,
            other => panic!("unsupported type {}", other.name()),
        }
    }

    fn store(&mut self, ptr: usize, dtype: DType, index: usize, value: f32) {
        let at = ptr + index * dtype.size_in_bytes();
        match dtype {
            DType::F32 => self.write_at(at, &value.to_ne_bytes()),
            DType::BF16 => self.write_at(at, &bf16_bits(value).to_ne_bytes()),
            DType::F16 => self.write_at(at, &f16_bits(value).to_ne_bytes()),
            DType::F8E4M3 => self.write_at(at, &[e4m3_bits(value)]),
            DType::I8 => self.write_at(at, &[value.round_ties_even() as i8 as u8]),
            other => panic!("unsupported type {}", other.name()),
        }
    }

    fn submit(&mut self, work: Work) {
        match &mut self.recording {
            Some(recorded) => recorded.push(work),
            None => self.run(&work),
        }
    }

    fn run(&mut self, work: &Work) {
        self.collect();
        match work {
            Work::Gemm(raw) => self.run_instance(*raw),
            Work::Norm(launch) => self.run_norm(launch),
            Work::Pointwise(launch) => self.run_pointwise(launch),
            Work::Rope(launch) => self.run_rope(launch),
            Work::Gather(launch) => self.run_gather(launch),
            Work::Quantization(launch) => self.run_quantization(launch),
            Work::Attention(launch) => self.run_attention(launch),
        }
    }

    /// Packs a weight anew unless it is known not to change, and multiplies.
    fn run_instance(&mut self, raw: usize) {
        let key = self.instances[&raw];
        if key.bindings.weight_version.is_none() {
            *self.prepacks.get_mut(&raw).unwrap() += 1;
        }
        if key.bindings.a < BASE + self.memory.len() {
            self.run_gemm(&key);
        }
    }

    fn run_gemm(&mut self, key: &InstanceKey) {
        let (spec, bound) = (&key.spec, &key.bindings);
        let (m, n, k) = (spec.m as usize, spec.n as usize, spec.k as usize);
        let (a, b, out) = (dtype_of(spec.a_dtype), dtype_of(spec.b_dtype), dtype_of(spec.output_dtype));
        let bias_type = if spec.quantization == 0 { a } else { out };
        for row in 0..m {
            let mut sums = vec![0.0f32; n];
            for (column, sum) in sums.iter_mut().enumerate() {
                for inner in 0..k {
                    *sum += self.load(bound.a, a, row * k + inner) * self.load(bound.b, b, inner * n + column);
                }
                if bound.a_scales != 0 {
                    *sum *= self.load(bound.a_scales, DType::F32, row);
                }
                if bound.b_scales != 0 {
                    *sum *= self.load(bound.b_scales, DType::F32, column);
                }
                *sum *= value_of(bound.alpha);
                if bound.bias != 0 {
                    *sum += self.load(bound.bias, bias_type, column);
                }
            }
            let results: Vec<f32> = match key.api {
                PlanApi::Gemm | PlanApi::GemmBias => sums,
                PlanApi::GemmBiasGelu => sums.into_iter().map(gelu_tanh).collect(),
                PlanApi::GemmGeglu => {
                    (0..n / 2).map(|column| gelu_tanh(sums[column]) * sums[column + n / 2]).collect()
                }
            };
            let width = results.len();
            for (column, result) in results.into_iter().enumerate() {
                let scaled = result * value_of(bound.output_scale);
                self.store(bound.output, out, row * width + column, scaled);
            }
        }
    }

    fn run_norm(&mut self, l: &NormLaunch) {
        let (rows, cols, t) = (l.rows as usize, l.cols as usize, l.dtype);
        let eps = value_of(l.eps);
        for row in 0..rows {
            let at = |col: usize| row * cols + col;
            let mut hidden: Vec<f32> = (0..cols).map(|col| self.load(l.input, t, at(col))).collect();
            for (col, value) in hidden.iter_mut().enumerate() {
                match l.semantic {
                    NormSemantic::AdaGateResidual | NormSemantic::AdaGateResidualRms => {
                        *value = self.load(l.residual, t, at(col))
                            + *value * self.load(l.gate_style, t, 2 * cols + col);
                    }
                    _ => {
                        if l.bias != 0 {
                            *value += self.load(l.bias, t, col);
                        }
                        if l.semantic == NormSemantic::BiasThenResidual {
                            *value = bf16_value(bf16_bits(*value));
                        }
                        if l.residual != 0 {
                            *value += self.load(l.residual, t, at(col));
                        }
                    }
                }
            }
            if l.hidden != 0 {
                for (col, value) in hidden.iter().enumerate() {
                    self.store(l.hidden, t, at(col), *value);
                }
            }
            if l.normalized == 0 {
                continue;
            }
            let centered = matches!(l.semantic, NormSemantic::Layer | NormSemantic::BiasResidualLayer);
            let mean = if centered { hidden.iter().sum::<f32>() / cols as f32 } else { 0.0 };
            let square = hidden.iter().map(|x| (x - mean) * (x - mean)).sum::<f32>() / cols as f32;
            let inverse = (square + eps).sqrt().recip();
            for (col, value) in hidden.iter().enumerate() {
                let mut result = (value - mean) * inverse;
                if l.norm_style != 0 {
                    result = result * (1.0 + self.load(l.norm_style, t, col))
                        + self.load(l.norm_style, t, cols + col);
                }
                if l.weight != 0 {
                    result *= self.load(l.weight, t, col);
                }
                if l.norm_bias != 0 {
                    result += self.load(l.norm_bias, t, col);
                }
                self.store(l.normalized, t, at(col), result);
            }
        }
    }

    fn run_pointwise(&mut self, l: &PointwiseLaunch) {
        let (rows, cols, t) = (l.rows as usize, l.cols as usize, l.dtype);
        for row in 0..rows {
            match l.semantic {
                PointwiseSemantic::Geglu => {
                    for col in 0..cols {
                        let gate = self.load(l.input, t, row * 2 * cols + col);
                        let up = self.load(l.input, t, (row * 2 + 1) * cols + col);
                        self.store(l.output, t, row * cols + col, gelu_tanh(gate) * up);
                    }
                }
                PointwiseSemantic::BiasActivation => {
                    for col in 0..cols {
                        let mut x = self.load(l.input, t, row * cols + col);
                        if l.bias != 0 {
                            x += self.load(l.bias, t, col);
                        }
                        let y = match l.activation {
                            PointwiseActivation::Identity => x,
                            PointwiseActivation::Gelu => gelu_tanh(x),
                            PointwiseActivation::Silu => x / (1.0 + (-x).exp()),
                        };
                        self.store(l.output, t, row * cols + col, y);
                    }
                }
                PointwiseSemantic::EulerUpdate => {
                    for col in 0..cols {
                        let x = self.load(l.input, t, row * cols + col);
                        let v = self.load(l.secondary, t, row * cols + col);
                        self.store(l.output, t, row * cols + col, x + value_of(l.dt) * v);
                    }
                }
            }
        }
    }

    fn run_rope(&mut self, l: &RopeLaunch) {
        let (tokens, qh, kvh, dim) =
            (l.tokens as usize, l.q_heads as usize, l.kv_heads as usize, l.head_dim as usize);
        let width = (qh + 2 * kvh) * dim;
        let t = l.dtype;
        for token in 0..tokens {
            for head in 0..qh + 2 * kvh {
                let mut values: Vec<f32> = (0..dim)
                    .map(|d| {
                        let column = head * dim + d;
                        let x = self.load(l.qkv, t, token * width + column);
                        if l.bias != 0 { x + self.load(l.bias, t, column) } else { x }
                    })
                    .collect();
                if l.semantic == RopeSemantic::SplitQkvRope && head < qh + kvh {
                    let position = (token as i64 + l.position_offset) as f32;
                    for pair in 0..dim / 2 {
                        let frequency = value_of(l.theta).powf(-2.0 * pair as f32 / dim as f32);
                        let (sin, cos) = (position * frequency).sin_cos();
                        let (x, y) = (values[pair], values[pair + dim / 2]);
                        values[pair] = x * cos - y * sin;
                        values[pair + dim / 2] = x * sin + y * cos;
                    }
                }
                let row = token + l.kv_output_offset as usize;
                for (d, value) in values.into_iter().enumerate() {
                    if head < qh {
                        self.store(l.q, t, (token * qh + head) * dim + d, value);
                    } else if head < qh + kvh {
                        self.store(l.k, t, (row * kvh + head - qh) * dim + d, value);
                    } else {
                        self.store(l.v, t, (row * kvh + head - qh - kvh) * dim + d, value);
                    }
                }
            }
        }
    }

    fn run_gather(&mut self, l: &GatherLaunch) {
        let (rows, cols, t) = (l.rows as usize, l.cols as usize, l.dtype);
        for row in 0..rows {
            for col in 0..cols {
                let value = match l.semantic {
                    GatherSemantic::EmbeddingLookup => {
                        let start = l.ids - BASE + 4 * row;
                        let id = u32::from_ne_bytes(self.memory[start..start + 4].try_into().unwrap());
                        self.load(l.input, t, id as usize * cols + col) * (cols as f32).sqrt()
                    }
                    GatherSemantic::BiasPosition => {
                        let mut x = self.load(l.input, t, row * cols + col);
                        if l.bias != 0 {
                            x += self.load(l.bias, t, col);
                        }
                        x + self.load(l.position, t, (row % l.tokens_per_view as usize) * cols + col)
                    }
                    GatherSemantic::RgbToPatches => {
                        let g = l.geometry;
                        let side = g.image_size / g.patch_size;
                        let (view, patch) = (row / (side * side), row % (side * side));
                        let area = g.patch_size * g.patch_size;
                        let (channel, within) = (col / area, col % area);
                        let y = patch / side * g.patch_size + within / g.patch_size;
                        let x = patch % side * g.patch_size + within % g.patch_size;
                        let size = g.image_size;
                        let index = if g.nhwc {
                            ((view * size + y) * size + x) * 3 + channel
                        } else {
                            ((view * 3 + channel) * size + y) * size + x
                        };
                        self.memory[l.input - BASE + index] as f32 / 127.5 - 1.0
                    }
                };
                self.store(l.output, t, row * cols + col, value);
            }
        }
    }

    fn run_quantization(&mut self, l: &QuantizationLaunch) {
        let (rows, cols, out_cols) = (l.rows as usize, l.input_cols as usize, l.output_cols as usize);
        let (from, to) = (dtype_of(l.input_dtype), dtype_of(l.output_dtype));
        for row in 0..rows {
            let values: Vec<f32> = (0..cols).map(|col| self.load(l.input, from, row * cols + col)).collect();
            let largest = values.iter().fold(0.0f32, |a, x| a.max(x.abs()));
            let scale = match l.semantic {
                0 => value_of(l.scale),
                1 => (largest / 448.0).max(1.0e-12),
                2 => (largest / 127.0).max(1.0e-12),
                _ => 1.0,
            };
            if l.scales != 0 {
                self.store(l.scales, DType::F32, row, scale);
            }
            for col in 0..out_cols {
                let value = if col < cols { values[col] / scale } else { 0.0 };
                self.store(l.output, to, row * out_cols + col, value);
            }
        }
    }

    fn run_attention(&mut self, l: &AttentionLaunch) {
        let (batch, queries, keys, capacity) = (
            l.batch as usize,
            l.query_tokens as usize,
            l.key_tokens as usize,
            l.key_capacity as usize,
        );
        let (heads, kv_heads, dim) = (l.query_heads as usize, l.kv_heads as usize, l.head_dim as usize);
        let t = l.dtype;
        let scale = match l.scale {
            AttentionScale::Explicit(bits) => value_of(bits),
            AttentionScale::InverseSqrt { head_dim } => 1.0 / (head_dim as f32).sqrt(),
        };
        for b in 0..batch {
            for query in 0..queries {
                for head in 0..heads {
                    let kv = head / (heads / kv_heads);
                    let seen = match l.mask {
                        AttentionMask::Unmasked => keys,
                        AttentionMask::Causal => keys.min(l.query_start as usize + query + 1),
                    };
                    let q = ((b * queries + query) * heads + head) * dim;
                    let row = |key: usize| ((b * capacity + key) * kv_heads + kv) * dim;
                    let scores: Vec<f32> = (0..seen)
                        .map(|key| {
                            scale
                                * (0..dim)
                                    .map(|d| self.load(l.query, t, q + d) * self.load(l.key, t, row(key) + d))
                                    .sum::<f32>()
                        })
                        .collect();
                    let largest = scores.iter().copied().fold(f32::NEG_INFINITY, f32::max);
                    let total: f32 = scores.iter().map(|s| (s - largest).exp()).sum();
                    let results: Vec<f32> = (0..dim)
                        .map(|d| {
                            scores
                                .iter()
                                .enumerate()
                                .map(|(key, s)| (s - largest).exp() / total * self.load(l.value, t, row(key) + d))
                                .sum()
                        })
                        .collect();
                    for (d, result) in results.into_iter().enumerate() {
                        self.store(l.output, t, q + d, result);
                    }
                }
            }
        }
    }

    /// Creates the native instance that a preparation asks for, if it does.
    fn prepared(&mut self, thread: &mut ThreadState, step: PrepareStep) -> PreparedExecution {
        match step {
            PrepareStep::Ready(prepared) => prepared,
            PrepareStep::Create(request) => {
                let plan = self.handle();
                let raw = self.handle();
                self.instances.insert(raw, request.key);
                self.prepacks.insert(raw, 1);
                let summary = String::from("source=fallback");
                request.finish(thread, CreateOutcome::Created { plan, summary, raw }).unwrap()
            }
        }
    }

    fn enqueue(&mut self, thread: &mut ThreadState, prepared: &PreparedExecution) -> Result<(), Error> {
        let call = prepared.enqueue(thread)?.device_selected(thread, Ok(()))?;
        let key = self.instances[&call.raw];
        assert_eq!(key.api, call.api);
        self.submit(Work::Gemm(call.raw));
        Ok(())
    }

    fn execute(&mut self, thread: &mut ThreadState, execution: Execution) -> Result<(), Error> {
        let prepared = self.prepared(thread, execution.step);
        self.enqueue(thread, &prepared)?;
        if execution.synchronize.is_some() {
            self.synchronizations += 1;
        }
        Ok(())
    }

    fn gemm(&mut self, thread: &mut ThreadState, ctx: &CudaContext, args: GemmArgs<'_>) -> Result<(), Error> {
        let execution = gemm(thread, ctx, args)?;
        self.execute(thread, execution)
    }

    fn launch<L>(&mut self, pending: Result<PendingLaunch<L>, Error>, work: fn(L) -> Work) -> Result<(), Error> {
        let ready = pending?.device_selected(Ok(()))?;
        self.submit(work(ready.launch));
        Ok(())
    }

    fn capture(
        &mut self,
        thread: &mut ThreadState,
        ctx: &CudaContext,
        operation: impl FnOnce(&mut Gpu, &mut ThreadState) -> Result<(), Error>,
    ) -> Result<CapturedGraph, Error> {
        begin(ctx, CaptureMode::ThreadLocal).started(thread, Ok(()))?;
        self.recording = Some(Vec::new());
        let result = operation(self, thread);
        let work = self.recording.take().unwrap();
        let graph = self.handle();
        let executable = self.handle();
        self.graphs.insert(executable, work);
        let ended = match end(thread, ctx, Ok(()), Ok(graph)) {
            Ok(recorded) => recorded.instantiated(Ok(executable)).map_err(|abandoned| abandoned.error),
            Err(error) => Err(error),
        };
        capture(result, ended)
    }

    fn replay(&mut self, graph: &CapturedGraph) {
        for work in self.graphs[&graph.replay().executable].clone() {
            self.run(&work);
        }
    }
}

fn caps() -> CudaDeviceCaps {
    CudaDeviceCaps {
        compute_major: 10,
        compute_minor: 0,
        multiprocessor_count: 14,
        total_global_memory: 32 << 30,
    }
}

const EPS: f32 = 1.0e-6;

fn assert_close(gpu: &Gpu, actual: &Tensor, expected: &[f32], tolerance: f32) {
    let actual = gpu.values(actual);
    assert_eq!(actual.len(), expected.len());
    for (index, (&actual, &expected)) in actual.iter().zip(expected).enumerate() {
        assert!(
            (actual - expected).abs() <= tolerance,
            "element {index}: got {actual}, expected {expected} (tolerance {tolerance})"
        );
    }
}

fn assert_values(actual: &[f32], expected: &[f32]) {
    assert_eq!(actual.len(), expected.len());
    for (index, (&actual, &expected)) in actual.iter().zip(expected).enumerate() {
        assert!(actual.is_finite(), "element {index} is not finite");
        assert!(
            (actual - expected).abs() < 0.02,
            "element {index}: got {actual}, expected {expected}"
        );
    }
}

fn untuned<'a>(a: &'a Tensor, b: &'a Tensor, out: &'a Tensor) -> GemmArgs<'a> {
    let mut args = GemmArgs::new(a, b, out);
    args.policy.online_tune = false;
    args
}

fn bf16_bytes(values: &[f32]) -> Vec<u8> {
    values.iter().flat_map(|value| bf16_bits(*value).to_ne_bytes()).collect()
}

fn overlapping_output() {
    let mut gpu = Gpu::new();
    let mut thread = ThreadState::new();
    let ctx = gpu.context();
    let backing = gpu.allocate(12);
    let a = backing.view(0, 8).unwrap().as_tensor(Shape::new(vec![2, 2]), DType::BF16).unwrap();
    let b = gpu.tensor(vec![2, 2], DType::BF16, &[1.0; 4]);
    let out = backing.view(4, 8).unwrap().as_tensor(Shape::new(vec![2, 2]), DType::BF16).unwrap();

    let error = gpu.gemm(&mut thread, &ctx, GemmArgs::new(&a, &b, &out)).unwrap_err();
    assert!(error.message().contains("overlaps read-only A storage"));
}

#[test]
fn tests_gemm_rejects_partially_overlapping_output_storage() {
    overlapping_output();
}

#[test]
fn framework_gemm_rejects_partially_overlapping_output_storage() {
    overlapping_output();
}

#[test]
fn gemm_rejects_storage_misaligned_for_its_dtype() {
    let mut gpu = Gpu::new();
    let mut thread = ThreadState::new();
    let ctx = gpu.context();
    let backing = gpu.allocate(9);
    let a = backing.view(1, 8).unwrap().as_tensor(Shape::new(vec![2, 2]), DType::BF16).unwrap();
    let b = gpu.tensor(vec![2, 2], DType::BF16, &[1.0; 4]);
    let out = gpu.tensor(vec![2, 2], DType::BF16, &[0.0; 4]);

    let error = gpu.gemm(&mut thread, &ctx, GemmArgs::new(&a, &b, &out)).unwrap_err();
    assert!(error.message().contains("2-byte dtype"), "{}", error.message());
}

#[test]
fn gpu_e2e_candidate_alignment_is_selected_and_keyed_from_actual_bindings() {
    let mut gpu = Gpu::new();
    let mut thread = ThreadState::new();
    let ctx = gpu.context();
    let (m, k, n) = (64, 64, 64);
    let a = gpu.bytes_tensor(vec![m, k], DType::F8E4M3, &vec![0x38; m * k]);
    let b = gpu.bytes_tensor(vec![k, n], DType::F8E4M3, &vec![0x38; k * n]);

    let aligned_out = gpu.zeros_tensor(vec![m, n], DType::F16);
    let mut aligned_args = GemmArgs::new(&a, &b, &aligned_out);
    aligned_args.quantization = GemmQuantization::Fp8UnitScale;
    aligned_args.policy.allow_fallback = false;
    let aligned = normalize(&ctx, aligned_args, Semantic::Gemm, PlanApi::gemm(), None).unwrap();
    assert!(aligned.spec.output_alignment >= 16);
    let aligned_spec = aligned.spec;
    let step = prepare(&mut thread, &ctx, aligned).unwrap();
    gpu.prepared(&mut thread, step);

    // Offset by two bytes: valid for F16, but another problem to a tuner.
    let output_bytes = m * n * DType::F16.size_in_bytes();
    let backing = gpu.allocate(output_bytes + 2);
    let misaligned_out = backing
        .view(2, output_bytes)
        .unwrap()
        .as_tensor(Shape::new(vec![m, n]), DType::F16)
        .unwrap();
    let mut misaligned_args = GemmArgs::new(&a, &b, &misaligned_out);
    misaligned_args.quantization = GemmQuantization::Fp8UnitScale;
    misaligned_args.policy.allow_fallback = false;
    let misaligned = normalize(&ctx, misaligned_args, Semantic::Gemm, PlanApi::gemm(), None).unwrap();
    assert_eq!(misaligned.spec.output_alignment, 2);
    assert!(misaligned.spec != aligned_spec);
    let step = prepare(&mut thread, &ctx, misaligned).unwrap();
    assert!(matches!(step, PrepareStep::Create(_)));
    let instance = gpu.prepared(&mut thread, step);
    gpu.enqueue(&mut thread, &instance).unwrap();
    assert!(gpu.values(&misaligned_out).iter().all(|&value| value == k as f32));
}

#[test]
fn fp8_unit_scale_f32_output_does_not_round_through_f16() {
    let mut gpu = Gpu::new();
    let mut thread = ThreadState::new();
    let ctx = gpu.context();
    let (m, k, n) = (1, 16, 16);
    // E4M3 448 is 0x7e. The dot product is finite in F32 but overflows F16.
    let a = gpu.bytes_tensor(vec![m, k], DType::F8E4M3, &vec![0x7e; m * k]);
    let b = gpu.bytes_tensor(vec![k, n], DType::F8E4M3, &vec![0x7e; k * n]);
    let out = gpu.zeros_tensor(vec![m, n], DType::F32);
    let mut args = untuned(&a, &b, &out);
    args.quantization = GemmQuantization::Fp8UnitScale;

    gpu.gemm(&mut thread, &ctx, args).unwrap();

    let expected = 448.0 * 448.0 * k as f32;
    assert_eq!(expected, 3_211_264.0);
    assert!(gpu.values(&out).iter().all(|&value| value == expected));
}

#[test]
fn fp8_unit_scale_bf16_output_does_not_round_through_f16() {
    let mut gpu = Gpu::new();
    let mut thread = ThreadState::new();
    let ctx = gpu.context();
    let (m, k, n) = (1, 16, 16);
    // BF16 can represent this dot product exactly, while F16 overflows it.
    let a = gpu.bytes_tensor(vec![m, k], DType::F8E4M3, &vec![0x7e; m * k]);
    let b = gpu.bytes_tensor(vec![k, n], DType::F8E4M3, &vec![0x7e; k * n]);
    let out = gpu.zeros_tensor(vec![m, n], DType::BF16);
    let mut args = GemmArgs::new(&a, &b, &out);
    args.quantization = GemmQuantization::Fp8UnitScale;
    args.policy.online_tune = true;
    args.policy.allow_fallback = false;

    let normalized = normalize(&ctx, args, Semantic::Gemm, PlanApi::gemm(), None).unwrap();
    assert_eq!(normalized.spec.accumulation_dtype, 0);
    let step = prepare(&mut thread, &ctx, normalized).unwrap();
    let instance = gpu.prepared(&mut thread, step);
    gpu.enqueue(&mut thread, &instance).unwrap();

    let expected = 448.0 * 448.0 * k as f32;
    assert_eq!(expected, 3_211_264.0);
    assert!(gpu.values(&out).iter().all(|&value| value == expected));
}

fn replay_overwrites_sentinel() {
    let mut gpu = Gpu::new();
    let mut thread = ThreadState::new();
    let ctx = gpu.context();
    let (m, k, n) = (7, 19, 22);
    let a = gpu.tensor(vec![m, k], DType::BF16, &vec![1.0; m * k]);
    let b = gpu.tensor(vec![k, n], DType::BF16, &vec![1.0; k * n]);
    let out = gpu.tensor(vec![m, n], DType::BF16, &vec![0.0; m * n]);
    let observed = CudaBuffer::from_tensor(&out).unwrap();
    let args = untuned(&a, &b, &out);
    let normalized = normalize(&ctx, args, Semantic::Gemm, PlanApi::gemm(), None).unwrap();
    let step = prepare(&mut thread, &ctx, normalized).unwrap();
    let instance = gpu.prepared(&mut thread, step);
    let graph = gpu
        .capture(&mut thread, &ctx, |gpu, thread| gpu.enqueue(thread, &instance))
        .unwrap();

    gpu.copy_from_host(&observed, &bf16_bytes(&vec![-123.0; m * n]));
    assert!(gpu.values(&out).iter().all(|&value| value == -123.0));

    gpu.replay(&graph);
    let actual = gpu.values(&out);
    assert!(
        actual.iter().all(|&value| value == k as f32),
        "captured graph replay did not overwrite the sentinel: {actual:?}"
    );
}

#[test]
fn tests_gpu_e2e_graph_replay_overwrites_sentinel_and_matches_numeric_result() {
    replay_overwrites_sentinel();
}

#[test]
fn framework_gpu_e2e_graph_replay_overwrites_sentinel_and_matches_numeric_result() {
    replay_overwrites_sentinel();
}

fn bf16_numeric_and_graph() {
    let mut gpu = Gpu::new();
    let mut thread = ThreadState::new();
    let ctx = gpu.context();
    let (m, k, n) = (7, 19, 22);
    let a_values: Vec<_> = (0..m * k).map(|i| ((i * 7 % 17) as f32 - 8.0) / 16.0).collect();
    let b_values: Vec<_> = (0..k * n).map(|i| ((i * 3 % 13) as f32 - 6.0) / 16.0).collect();
    let a = gpu.tensor(vec![m, k], DType::BF16, &a_values);
    let b = gpu.tensor(vec![k, n], DType::BF16, &b_values);
    let out = gpu.tensor(vec![m, n], DType::BF16, &vec![0.0; m * n]);
    let mut args = GemmArgs::new(&a, &b, &out);
    args.policy.cache_dir = Some("/tmp/apxinf-gemm-design-tests".into());
    let normalized = normalize(&ctx, args, Semantic::Gemm, PlanApi::gemm(), None).unwrap();
    let step = prepare(&mut thread, &ctx, normalized).unwrap();
    let instance = gpu.prepared(&mut thread, step);
    gpu.enqueue(&mut thread, &instance).unwrap();
    let actual = gpu.values(&out);
    for row in 0..m {
        for column in 0..n {
            let expected: f32 =
                (0..k).map(|inner| a_values[row * k + inner] * b_values[inner * n + column]).sum();
            assert!((actual[row * n + column] - expected).abs() < 0.01);
        }
    }

    let mut cached_args = untuned(&a, &b, &out);
    cached_args.policy.cache_dir = Some("/tmp/apxinf-gemm-design-tests".into());
    cached_args.policy.allow_fallback = false;
    gpu.gemm(&mut thread, &ctx, cached_args).unwrap();

    let graph = gpu
        .capture(&mut thread, &ctx, |gpu, thread| gpu.enqueue(thread, &instance))
        .unwrap();
    gpu.replay(&graph);
    assert_eq!(gpu.values(&out), actual);
    drop(a);
    drop(b);
    gpu.replay(&graph);
    assert_eq!(gpu.values(&out), actual);
}

#[test]
fn tests_bf16_gemm_numeric_recipe_and_graph() {
    bf16_numeric_and_graph();
}

#[test]
fn framework_bf16_gemm_numeric_recipe_and_graph() {
    bf16_numeric_and_graph();
}

fn graph_retains_instance_and_storage() {
    let mut gpu = Gpu::new();
    let mut thread = ThreadState::new();
    let ctx = gpu.context();
    let a = gpu.tensor(vec![2, 3], DType::BF16, &[1.0; 6]);
    let b = gpu.tensor(vec![3, 4], DType::BF16, &[1.0; 12]);
    let out = gpu.tensor(vec![2, 4], DType::BF16, &[0.0; 8]);
    let observed = CudaBuffer::from_tensor(&out).unwrap().as_tensor(Shape::new(vec![2, 4]), DType::BF16).unwrap();
    let mut workspace = gpu.workspace(4096);

    prepare_with_workspace(&mut thread, &mut workspace, |thread| {
        gpu.gemm(thread, &ctx, GemmArgs::new(&a, &b, &out))
    })
    .unwrap();

    let graph = gpu
        .capture(&mut thread, &ctx, |gpu, thread| {
            with_workspace(thread, &mut workspace, |thread| {
                gpu.gemm(thread, &ctx, GemmArgs::new(&a, &b, &out))
            })
        })
        .unwrap();

    // The graph holds the instance, and the instance every range it works on.
    assert_eq!(graph.instances.len(), 1);
    for tensor in [&a, &b, &out] {
        let range = CudaBuffer::from_tensor(tensor).unwrap();
        assert!(graph.instances[0]
            .storage
            .iter()
            .any(|held| held.ptr() == range.ptr() && held.len() == range.len()));
    }
    drop(workspace);
    drop(a);
    drop(b);
    drop(out);
    gpu.replay(&graph);
    assert!(gpu.values(&observed).iter().all(|&value| value == 3.0));
}

#[test]
fn tests_captured_graph_retains_workspace_instance_and_tensor_storage() {
    graph_retains_instance_and_storage();
}

#[test]
fn framework_captured_graph_retains_workspace_instance_and_tensor_storage() {
    graph_retains_instance_and_storage();
}

fn geglu_domain() {
    let mut gpu = Gpu::new();
    let mut thread = ThreadState::new();
    let ctx = gpu.context();
    let (m, k, n) = (3, 5, 1024);
    let a_values = vec![0.25; m * k];
    let b_values: Vec<_> = (0..k * n).map(|i| ((i % 11) as f32 - 5.0) / 16.0).collect();
    let a = gpu.tensor(vec![m, k], DType::BF16, &a_values);
    let b = gpu.tensor(vec![k, n], DType::BF16, &b_values);
    let out = gpu.tensor(vec![m, n / 2], DType::BF16, &vec![0.0; m * n / 2]);
    let execution = gemm_geglu(&mut thread, &ctx, GemmGegluArgs { gemm: untuned(&a, &b, &out) }).unwrap();
    gpu.execute(&mut thread, execution).unwrap();
    let actual = gpu.values(&out);
    assert_eq!(actual.len(), m * n / 2);
    for row in 0..m {
        for column in 0..n / 2 {
            let dot = |target| {
                bf16_value(bf16_bits(
                    (0..k).map(|inner| a_values[row * k + inner] * b_values[inner * n + target]).sum(),
                ))
            };
            let gate: f32 = dot(column);
            let expected = 0.5
                * gate
                * (1.0 + (0.79788456 * (gate + 0.044715 * gate.powi(3))).tanh())
                * dot(column + n / 2);
            assert!((actual[row * n / 2 + column] - expected).abs() < 0.01);
        }
    }
}

#[test]
fn tests_gemm_geglu_is_a_separate_semantic_domain() {
    geglu_domain();
}

#[test]
fn l3_behavior_gemm_geglu_is_a_separate_semantic_domain() {
    geglu_domain();
}

fn bias_gelu_api() {
    let mut gpu = Gpu::new();
    let mut thread = ThreadState::new();
    let ctx = gpu.context();
    let a = gpu.tensor(vec![2, 3], DType::BF16, &[1.0; 6]);
    let b = gpu.tensor(vec![3, 4], DType::BF16, &[1.0; 12]);
    let bias = gpu.tensor(vec![4], DType::BF16, &[0.5; 4]);
    let out = gpu.tensor(vec![2, 4], DType::BF16, &[0.0; 8]);
    let args = GemmBiasGeluArgs { gemm: untuned(&a, &b, &out), bias: &bias };
    let execution = gemm_bias_gelu(&mut thread, &ctx, args).unwrap();
    gpu.execute(&mut thread, execution).unwrap();
    let output = gpu.values(&out);
    let x: f32 = 3.5;
    let expected = 0.5 * x * (1.0 + (0.79788456 * (x + 0.044715 * x.powi(3))).tanh());
    assert!(output.iter().all(|value| (*value - expected).abs() < 0.02));
}

#[test]
fn tests_gemm_bias_gelu_has_its_own_semantic_api() {
    bias_gelu_api();
}

#[test]
fn l3_behavior_gemm_bias_gelu_has_its_own_semantic_api() {
    bias_gelu_api();
}

fn bias_api() {
    let mut gpu = Gpu::new();
    let mut thread = ThreadState::new();
    let ctx = gpu.context();
    let a = gpu.tensor(vec![2, 3], DType::BF16, &[1.0; 6]);
    let b = gpu.tensor(vec![3, 4], DType::BF16, &[1.0; 12]);
    let bias = gpu.tensor(vec![4], DType::BF16, &[0.5, -0.5, 1.0, -1.0]);
    let out = gpu.tensor(vec![2, 4], DType::BF16, &[0.0; 8]);
    let args = GemmBiasArgs { gemm: untuned(&a, &b, &out), bias: &bias };
    let execution = gemm_bias(&mut thread, &ctx, args).unwrap();
    gpu.execute(&mut thread, execution).unwrap();
    let expected = [3.5, 2.5, 4.0, 2.0, 3.5, 2.5, 4.0, 2.0];
    for (actual, expected) in gpu.values(&out).iter().zip(expected) {
        assert!((*actual - expected).abs() < 0.01);
    }
}

#[test]
fn tests_gemm_bias_has_its_own_semantic_api() {
    bias_api();
}

#[test]
fn l3_behavior_gemm_bias_has_its_own_semantic_api() {
    bias_api();
}

#[test]
fn gemm_has_its_own_semantic_api() {
    let mut gpu = Gpu::new();
    let mut thread = ThreadState::new();
    let ctx = gpu.context();
    let a = gpu.tensor(vec![2, 3], DType::BF16, &[1.0; 6]);
    let b = gpu.tensor(vec![3, 4], DType::BF16, &[1.0; 12]);
    let out = gpu.tensor(vec![2, 4], DType::BF16, &[0.0; 8]);
    gpu.gemm(&mut thread, &ctx, untuned(&a, &b, &out)).unwrap();
    assert!(gpu.values(&out).iter().all(|&value| value == 3.0));
}

fn quantization_in_the_key() {
    let mut gpu = Gpu::new();
    let ctx = gpu.context();
    let (m, k, n) = (2, 16, 8);
    let row_scales = gpu.scales(&[1.0; 2]);
    let channel_scales = gpu.scales(&[1.0; 8]);

    let fp8_a = gpu.zeros_tensor(vec![m, k], DType::F8E4M3);
    let fp8_b = gpu.zeros_tensor(vec![k, n], DType::F8E4M3);
    let fp8_out = gpu.zeros_tensor(vec![m, n], DType::BF16);
    let fp8 = normalize(
        &ctx,
        GemmArgs::fp8(&fp8_a, &row_scales, &fp8_b, &channel_scales, &fp8_out),
        Semantic::Gemm,
        PlanApi::gemm(),
        None,
    )
    .unwrap();
    assert_eq!(fp8.spec.quantization, 2);
    assert_eq!(fp8.spec.accumulation_dtype, 0);

    let int8_a = gpu.zeros_tensor(vec![m, k], DType::I8);
    let int8_b = gpu.zeros_tensor(vec![k, n], DType::I8);
    let int8_out = gpu.zeros_tensor(vec![m, n], DType::BF16);
    let w8a8 = normalize(
        &ctx,
        GemmArgs::w8a8(&int8_a, &row_scales, &int8_b, &channel_scales, &int8_out),
        Semantic::Gemm,
        PlanApi::gemm(),
        None,
    )
    .unwrap();
    assert_eq!(w8a8.spec.quantization, 3);
    assert_eq!(w8a8.spec.accumulation_dtype, 5);
}

#[test]
fn tests_quantization_contract_becomes_part_of_the_gemm_key() {
    quantization_in_the_key();
}

#[test]
fn framework_quantization_contract_becomes_part_of_the_gemm_key() {
    quantization_in_the_key();
}

fn scaled_products() {
    let mut gpu = Gpu::new();
    let mut thread = ThreadState::new();
    let ctx = gpu.context();
    let (m, k, n) = (2, 16, 8);
    let row_scales = gpu.scales(&[0.5, 0.25]);
    let channel_scales = gpu.scales(&[2.0; 8]);

    // E4M3 1.0 is 0x38. Both rows therefore produce K * row * channel.
    let fp8_a = gpu.bytes_tensor(vec![m, k], DType::F8E4M3, &vec![0x38; m * k]);
    let fp8_b = gpu.bytes_tensor(vec![k, n], DType::F8E4M3, &vec![0x38; k * n]);
    let fp8_out = gpu.zeros_tensor(vec![m, n], DType::BF16);
    let mut fp8_args = GemmArgs::fp8(&fp8_a, &row_scales, &fp8_b, &channel_scales, &fp8_out);
    fp8_args.policy.online_tune = false;
    gpu.gemm(&mut thread, &ctx, fp8_args).unwrap();
    let fp8_values = gpu.values(&fp8_out);
    assert!(fp8_values[..n].iter().all(|&value| value == 16.0));
    assert!(fp8_values[n..].iter().all(|&value| value == 8.0));

    let int8_a = gpu.bytes_tensor(vec![m, k], DType::I8, &vec![1; m * k]);
    let int8_b = gpu.bytes_tensor(vec![k, n], DType::I8, &vec![1; k * n]);
    let int8_out = gpu.zeros_tensor(vec![m, n], DType::BF16);
    let mut int8_args = GemmArgs::w8a8(&int8_a, &row_scales, &int8_b, &channel_scales, &int8_out);
    int8_args.policy.online_tune = false;
    gpu.gemm(&mut thread, &ctx, int8_args).unwrap();
    let int8_values = gpu.values(&int8_out);
    assert!(int8_values[..n].iter().all(|&value| value == 16.0));
    assert!(int8_values[n..].iter().all(|&value| value == 8.0));
}

#[test]
fn tests_scaled_fp8_and_w8a8_use_the_canonical_kn_weight_contract() {
    scaled_products();
}

#[test]
fn framework_scaled_fp8_and_w8a8_use_the_canonical_kn_weight_contract() {
    scaled_products();
}

#[test]
fn prepared_eager_execution_has_no_repeated_setup() {
    let mut gpu = Gpu::new();
    let mut thread = ThreadState::new();
    let ctx = gpu.context();
    let a = gpu.tensor(vec![8, 16], DType::BF16, &[1.0; 8 * 16]);
    let b = gpu.tensor(vec![16, 8], DType::BF16, &[1.0; 16 * 8]);
    let out = gpu.tensor(vec![8, 8], DType::BF16, &[0.0; 8 * 8]);

    // Establish the choice and all execution resources before the measured
    // steady-state window.
    gpu.gemm(&mut thread, &ctx, untuned(&a, &b, &out)).unwrap();
    assert_eq!(thread.prepared_execution_create_count(), 1);

    thread.reset_prepared_execution_create_count();
    gpu.allocations = 0;
    gpu.synchronizations = 0;
    for _ in 0..100 {
        gpu.gemm(&mut thread, &ctx, untuned(&a, &b, &out)).unwrap();
    }
    assert_eq!(thread.prepared_execution_create_count(), 0);
    assert_eq!(gpu.allocations, 0);
    assert_eq!(gpu.synchronizations, 0);
    assert!(gpu.values(&out).iter().all(|&value| value == 16.0));
}

#[test]
fn tuning_reuse_is_independent_of_tensor_addresses() {
    let mut gpu = Gpu::new();
    let mut thread = ThreadState::new();
    let ctx = gpu.context();
    let a1 = gpu.tensor(vec![2, 3], DType::BF16, &[1.0; 6]);
    let b1 = gpu.tensor(vec![3, 4], DType::BF16, &[1.0; 12]);
    let out1 = gpu.tensor(vec![2, 4], DType::BF16, &[0.0; 8]);
    let a2 = gpu.tensor(vec![2, 3], DType::BF16, &[2.0; 6]);
    let b2 = gpu.tensor(vec![3, 4], DType::BF16, &[1.0; 12]);
    let out2 = gpu.tensor(vec![2, 4], DType::BF16, &[0.0; 8]);
    let tuned = |a, b, out| {
        let mut args = GemmArgs::new(a, b, out);
        args.policy.online_tune = true;
        args.policy.allow_fallback = false;
        args
    };

    // What a tuner is asked about is the same problem at both addresses.
    let first = normalize(&ctx, tuned(&a1, &b1, &out1), Semantic::Gemm, PlanApi::gemm(), None).unwrap();
    let second = normalize(&ctx, tuned(&a2, &b2, &out2), Semantic::Gemm, PlanApi::gemm(), None).unwrap();
    assert_eq!(first.spec, second.spec);
    assert!(first.bindings != second.bindings);

    gpu.gemm(&mut thread, &ctx, tuned(&a1, &b1, &out1)).unwrap();
    assert!(gpu.values(&out1).iter().all(|&value| value == 3.0));
    gpu.gemm(&mut thread, &ctx, tuned(&a2, &b2, &out2)).unwrap();
    assert!(gpu.values(&out2).iter().all(|&value| value == 6.0));
    gpu.gemm(&mut thread, &ctx, tuned(&a1, &b1, &out1)).unwrap();
    assert!(gpu.values(&out1).iter().all(|&value| value == 3.0));
}

#[test]
fn gpu_e2e_alpha_is_bound_per_execution_not_baked_into_the_plan() {
    let mut gpu = Gpu::new();
    let mut thread = ThreadState::new();
    let ctx = gpu.context();
    let (m, k, n) = (5, 11, 8);
    let a_values: Vec<f32> = (0..m * k).map(|i| ((i * 5 % 13) as f32 - 6.0) / 8.0).collect();
    let b_values: Vec<f32> = (0..k * n).map(|i| ((i * 3 % 11) as f32 - 5.0) / 8.0).collect();
    let a = gpu.tensor(vec![m, k], DType::BF16, &a_values);
    let b = gpu.tensor(vec![k, n], DType::BF16, &b_values);

    let mut results = Vec::new();
    let mut specs = Vec::new();
    for alpha in [2.0f32, 3.0] {
        let out = gpu.tensor(vec![m, n], DType::BF16, &vec![0.0; m * n]);
        let mut args = GemmArgs::new(&a, &b, &out);
        args.alpha = bits_of(alpha);
        let normalized = normalize(&ctx, args, Semantic::Gemm, PlanApi::gemm(), None).unwrap();
        specs.push(normalized.spec);
        let step = prepare(&mut thread, &ctx, normalized).unwrap();
        let instance = gpu.prepared(&mut thread, step);
        gpu.enqueue(&mut thread, &instance).unwrap();
        let actual = gpu.values(&out);
        for row in 0..m {
            for column in 0..n {
                let want = alpha
                    * (0..k)
                        .map(|inner| a_values[row * k + inner] * b_values[inner * n + column])
                        .sum::<f32>();
                let got = actual[row * n + column];
                assert!((got - want).abs() < 0.05, "alpha={alpha}: {got} but should be {want}");
            }
        }
        results.push(actual);
    }
    assert_eq!(specs[0], specs[1]);
    assert_ne!(results[0], results[1]);
}

#[test]
fn gpu_e2e_scale_values_do_not_fragment_the_tuning_cache() {
    let mut gpu = Gpu::new();
    let ctx = gpu.context();
    let (m, k, n) = (6, 9, 12);
    let a = gpu.tensor(vec![m, k], DType::BF16, &vec![0.5; m * k]);
    let b = gpu.tensor(vec![k, n], DType::BF16, &vec![0.25; k * n]);
    let out = gpu.tensor(vec![m, n], DType::BF16, &vec![0.0; m * n]);
    let spec = |alpha: f32| {
        let mut args = GemmArgs::new(&a, &b, &out);
        args.alpha = bits_of(alpha);
        normalize(&ctx, args, Semantic::Gemm, PlanApi::gemm(), None).unwrap().spec
    };
    assert_eq!(spec(2.0), spec(3.0));
    assert_eq!(spec(2.0), spec(4.0));
    // Only whether the factor is one belongs to the problem.
    assert!(spec(1.0) != spec(2.0));
}

#[test]
fn graph_workspace_reuses_one_native_instance_across_forward_traversals() {
    let mut gpu = Gpu::new();
    let mut thread = ThreadState::new();
    let ctx = gpu.context();
    let a = gpu.tensor(vec![2, 3], DType::BF16, &[1.0; 6]);
    let b = gpu.tensor(vec![3, 4], DType::BF16, &[1.0; 12]);
    let out = gpu.tensor(vec![2, 4], DType::BF16, &[0.0; 8]);
    let mut workspace = gpu.workspace(4096);

    thread.reset_prepared_execution_create_count();
    prepare_with_workspace(&mut thread, &mut workspace, |thread| {
        gpu.gemm(thread, &ctx, untuned(&a, &b, &out))
    })
    .unwrap();
    assert_eq!(thread.prepared_execution_create_count(), 1);

    for _ in 0..2 {
        with_workspace(&mut thread, &mut workspace, |thread| {
            gpu.gemm(thread, &ctx, untuned(&a, &b, &out))
        })
        .unwrap();
    }

    // Native instance creation includes provider resource creation and warmup.
    // Repeating the same public traversal must hit the workspace instance.
    assert_eq!(thread.prepared_execution_create_count(), 1);
    assert!(gpu.values(&out).iter().all(|&value| value == 3.0));
}

#[test]
fn gpu_e2e_cached_plan_rebuilds_and_drops_provider_private_instances() {
    let mut gpu = Gpu::new();
    let mut thread = ThreadState::new();
    let ctx = gpu.context();
    let a = gpu.tensor(vec![8, 16], DType::BF16, &[1.0; 8 * 16]);
    let b = gpu.tensor(vec![16, 8], DType::BF16, &[1.0; 16 * 8]);
    let mut specs = Vec::new();
    for _ in 0..4 {
        let out = gpu.tensor(vec![8, 8], DType::BF16, &[0.0; 8 * 8]);
        let mut args = GemmArgs::new(&a, &b, &out);
        args.policy.online_tune = true;
        args.policy.allow_fallback = false;
        let normalized = normalize(&ctx, args, Semantic::Gemm, PlanApi::gemm(), None).unwrap();
        specs.push(normalized.spec);
        let step = prepare(&mut thread, &ctx, normalized).unwrap();
        let prepared = gpu.prepared(&mut thread, step);
        gpu.enqueue(&mut thread, &prepared).unwrap();
        drop(prepared);
        assert!(gpu.values(&out).iter().all(|&value| value == 16.0));
    }
    assert!(specs.iter().all(|spec| *spec == specs[0]));
}

#[test]
fn gpu_e2e_cutlass_geglu_prepack_is_bound_to_allocation_and_version() {
    let mut gpu = Gpu::new();
    let mut thread = ThreadState::new();
    let ctx = gpu.context();
    let (m, k, n) = (522, 2048, 32768);
    // The extents are those of a real layer; nothing is computed, so no
    // memory stands behind them.
    let range = |bytes: usize, ptr: usize| CudaBuffer::from_raw_parts(ptr, bytes, 0, None);
    let fp8 = DType::F8E4M3;
    let a = range(m * k, 1 << 32).as_tensor(Shape::new(vec![m, k]), fp8).unwrap();
    let b = range(k * n, 1 << 33).as_tensor(Shape::new(vec![k, n]), fp8).unwrap();
    let out = range(m * n / 2, 1 << 34).as_tensor(Shape::new(vec![m, n / 2]), fp8).unwrap();
    let request = |version: Option<u64>| {
        let mut args = untuned(&a, &b, &out);
        if let Some(version) = version {
            args = args.with_immutable_weight(WeightVersion::new(version));
        }
        args.quantization = GemmQuantization::Fp8UnitScale;
        args.policy.allow_fallback = false;
        args.policy.cache_dir = Some(String::from("apxinf-geglu-prepack"));
        normalize(&ctx, args, Semantic::GemmGeglu, PlanApi::gemm_geglu(), None)
    };
    let mut workspace = gpu.workspace(1);
    thread.reset_prepared_execution_create_count();
    let mut prepared = prepare_with_workspace(&mut thread, &mut workspace, |thread| {
        let mut prepared = Vec::new();
        for version in [7, 7, 8] {
            let step = prepare(thread, &ctx, request(Some(version))?)?;
            prepared.push(gpu.prepared(thread, step));
        }
        Ok(prepared)
    })
    .unwrap();
    let changed_version = prepared.pop().unwrap();
    let same_version = prepared.pop().unwrap();
    let first = prepared.pop().unwrap();
    // The same version shares an instance; another version gets its own.
    assert_eq!(thread.prepared_execution_create_count(), 2);
    assert_eq!(first.shared.raw, same_version.shared.raw);
    assert_ne!(first.shared.raw, changed_version.shared.raw);
    assert_eq!(gpu.weight_prepack_count(&first), 1);
    assert_eq!(gpu.weight_prepack_count(&same_version), 1);
    assert_eq!(gpu.weight_prepack_count(&changed_version), 1);

    gpu.enqueue(&mut thread, &first).unwrap();
    gpu.enqueue(&mut thread, &first).unwrap();
    assert_eq!(gpu.weight_prepack_count(&first), 1);

    let graph = gpu.capture(&mut thread, &ctx, |gpu, thread| gpu.enqueue(thread, &first)).unwrap();
    gpu.replay(&graph);
    gpu.replay(&graph);
    assert_eq!(gpu.weight_prepack_count(&first), 1);

    drop((graph, first, same_version, changed_version));
    drop(workspace);

    // A weight that may change is packed anew by every launch.
    let step = prepare(&mut thread, &ctx, request(None).unwrap()).unwrap();
    let mutable = gpu.prepared(&mut thread, step);
    assert_eq!(gpu.weight_prepack_count(&mutable), 1);
    gpu.enqueue(&mut thread, &mutable).unwrap();
    assert_eq!(gpu.weight_prepack_count(&mutable), 2);
}

#[test]
fn eager_instances_serve_only_the_request_they_were_made_for() {
    let mut gpu = Gpu::new();
    let mut thread = ThreadState::new();
    let ctx = gpu.context();
    let a = gpu.tensor(vec![2, 3], DType::BF16, &[1.0; 6]);
    let b = gpu.tensor(vec![3, 2], DType::BF16, &[1.0; 6]);
    let out = gpu.tensor(vec![2, 2], DType::BF16, &[0.0; 4]);
    let request = |fallback: bool, tune: bool, cache: Option<&str>| {
        let mut args = GemmArgs::new(&a, &b, &out);
        args.policy.allow_fallback = fallback;
        args.policy.online_tune = tune;
        args.policy.cache_dir = cache.map(String::from);
        args
    };
    let requests = [
        (true, false, None),
        (false, true, None),
        (true, true, None),
        (true, false, Some("first")),
        (true, false, Some("second")),
    ];
    for round in 0..2 {
        for (index, (fallback, tune, cache)) in requests.into_iter().enumerate() {
            gpu.gemm(&mut thread, &ctx, request(fallback, tune, cache)).unwrap();
            let created = if round == 0 { index as u64 + 1 } else { 5 };
            assert_eq!(thread.prepared_execution_create_count(), created);
        }
    }
    // In a workspace these parts of the policy do not tell instances apart.
    let mut workspace = gpu.workspace(256);
    thread.reset_prepared_execution_create_count();
    prepare_with_workspace(&mut thread, &mut workspace, |thread| {
        for (fallback, tune, cache) in requests {
            gpu.gemm(thread, &ctx, request(fallback, tune, cache))?;
        }
        Ok(())
    })
    .unwrap();
    assert_eq!(thread.prepared_execution_create_count(), 1);
}

#[test]
fn released_eager_instances_let_go_of_their_memory() {
    let mut gpu = Gpu::new();
    let mut thread = ThreadState::new();
    let ctx = gpu.context();
    let a = gpu.tensor(vec![2, 3], DType::BF16, &[1.0; 6]);
    let b = gpu.tensor(vec![3, 2], DType::BF16, &[1.0; 6]);
    let out = gpu.tensor(vec![2, 2], DType::BF16, &[0.0; 4]);
    gpu.gemm(&mut thread, &ctx, untuned(&a, &b, &out)).unwrap();
    gpu.gemm(&mut thread, &ctx, untuned(&a, &b, &out)).unwrap();
    drop((a, b, out));
    assert_eq!(gpu.live(), 3);
    let released = thread.release_eager_instances();
    assert_eq!(released.len(), 1);
    assert_eq!(gpu.live(), 3);
    drop(released);
    assert_eq!(gpu.live(), 0);
    assert!(thread.release_eager_instances().is_empty());
}

#[test]
fn every_preparation_outside_a_workspace_creates_its_own_instance() {
    let mut gpu = Gpu::new();
    let mut thread = ThreadState::new();
    let ctx = gpu.context();
    let a = gpu.tensor(vec![2, 3], DType::BF16, &[1.0; 6]);
    let b = gpu.tensor(vec![3, 2], DType::BF16, &[1.0; 6]);
    let out = gpu.tensor(vec![2, 2], DType::BF16, &[0.0; 4]);
    gpu.gemm(&mut thread, &ctx, untuned(&a, &b, &out)).unwrap();
    let step = prepare_gemm(&mut thread, &ctx, untuned(&a, &b, &out)).unwrap();
    let first = gpu.prepared(&mut thread, step);
    let step = prepare_gemm(&mut thread, &ctx, untuned(&a, &b, &out)).unwrap();
    let second = gpu.prepared(&mut thread, step);
    assert_eq!(thread.prepared_execution_create_count(), 3);
    assert_ne!(first.shared.raw, second.shared.raw);
    gpu.gemm(&mut thread, &ctx, untuned(&a, &b, &out)).unwrap();
    assert_eq!(thread.prepared_execution_create_count(), 3);
    // The thread keeps the instance of the one-shot product alone.
    let released = thread.release_eager_instances();
    assert_eq!(released.len(), 1);
    drop((released, a, b, out));
    assert_eq!(gpu.live(), 3);
    drop(first);
    assert_eq!(gpu.live(), 3);
    drop(second);
    assert_eq!(gpu.live(), 0);

    // In a workspace a second preparation finds the instance of the first.
    let a = gpu.tensor(vec![2, 3], DType::BF16, &[1.0; 6]);
    let b = gpu.tensor(vec![3, 2], DType::BF16, &[1.0; 6]);
    let out = gpu.tensor(vec![2, 2], DType::BF16, &[0.0; 4]);
    let mut workspace = gpu.workspace(256);
    thread.reset_prepared_execution_create_count();
    prepare_with_workspace(&mut thread, &mut workspace, |thread| {
        for _ in 0..2 {
            let step = prepare_gemm(thread, &ctx, untuned(&a, &b, &out))?;
            gpu.prepared(thread, step);
        }
        Ok(())
    })
    .unwrap();
    assert_eq!(thread.prepared_execution_create_count(), 1);
}

fn rms_rows(input: &[f32], rows: usize, cols: usize, eps: f32) -> Vec<f32> {
    let mut output = vec![0.0; input.len()];
    for row in 0..rows {
        let values = &input[row * cols..(row + 1) * cols];
        let inverse = (values.iter().map(|x| x * x).sum::<f32>() / cols as f32 + eps).sqrt().recip();
        for col in 0..cols {
            output[row * cols + col] = values[col] * inverse;
        }
    }
    output
}

fn rms_weighted(input: &[f32], weight: &[f32], rows: usize, cols: usize, eps: f32) -> Vec<f32> {
    let mut output = rms_rows(input, rows, cols, eps);
    for row in 0..rows {
        for col in 0..cols {
            output[row * cols + col] *= weight[col];
        }
    }
    output
}

fn layer_rows(input: &[f32], weight: &[f32], bias: &[f32], rows: usize, cols: usize, eps: f32) -> Vec<f32> {
    let mut output = vec![0.0; input.len()];
    for row in 0..rows {
        let values = &input[row * cols..(row + 1) * cols];
        let mean = values.iter().sum::<f32>() / cols as f32;
        let variance = values.iter().map(|x| (x - mean) * (x - mean)).sum::<f32>() / cols as f32;
        let inverse = (variance + eps).sqrt().recip();
        for col in 0..cols {
            output[row * cols + col] = (values[col] - mean) * inverse * weight[col] + bias[col];
        }
    }
    output
}

fn adaptive_rms(input: &[f32], style: &[f32], rows: usize, cols: usize, eps: f32) -> Vec<f32> {
    let (scale, shift) = style.split_at(cols);
    rms_rows(input, rows, cols, eps)
        .iter()
        .enumerate()
        .map(|(index, &x)| x * (1.0 + scale[index % cols]) + shift[index % cols])
        .collect()
}

fn bias_residual_reference(input: &[f32], bias: &[f32], residual: &[f32], cols: usize) -> Vec<f32> {
    input
        .iter()
        .zip(residual)
        .enumerate()
        .map(|(index, (&input, &residual))| input + bias[index % cols] + residual)
        .collect()
}

fn gated_residual(input: &[f32], residual: &[f32], gate_style: &[f32], cols: usize) -> Vec<f32> {
    let gate = &gate_style[2 * cols..3 * cols];
    input
        .iter()
        .zip(residual)
        .enumerate()
        .map(|(index, (&input, &residual))| residual + input * gate[index % cols])
        .collect()
}

#[test]
fn norm_all_semantics_match_independent_cpu_references() {
    let mut gpu = Gpu::new();
    let thread = ThreadState::new();
    let ctx = gpu.context();
    let (rows, cols) = (2, 4);
    let input_values = [1.0, 2.0, 3.0, 4.0, -1.0, 0.5, 2.0, -0.5];
    let residual_values = [0.5, -1.0, 1.5, 0.25, 2.0, -0.5, 0.25, 1.0];
    let bias_values = [0.25, -0.5, 0.75, 1.0];
    let weight_values = [1.0, 0.5, 1.5, -1.0];
    let norm_bias_values = [0.25, -0.25, 0.5, -0.5];
    let norm_style_values = [0.5, -0.25, 1.0, 0.0, 1.0, -1.0, 0.5, 0.25];
    let gate_style_values = [
        7.0, 7.0, 7.0, 7.0, // unrelated scale segment
        9.0, 9.0, 9.0, 9.0, // unrelated shift segment
        0.5, -1.0, 2.0, 0.25,
    ];

    for dtype in [DType::BF16, DType::F16] {
        let input = gpu.tensor(vec![rows, cols], dtype, &input_values);
        let residual = gpu.tensor(vec![rows, cols], dtype, &residual_values);
        let bias = gpu.tensor(vec![cols], dtype, &bias_values);
        let weight = gpu.tensor(vec![cols], dtype, &weight_values);
        let norm_bias = gpu.tensor(vec![cols], dtype, &norm_bias_values);
        let norm_style = gpu.tensor(vec![2 * cols], dtype, &norm_style_values);
        let gate_style = gpu.tensor(vec![3 * cols], dtype, &gate_style_values);

        let normalized = gpu.tensor(vec![rows, cols], dtype, &[0.0; 8]);
        let pending = rms_norm(&thread, &ctx, RmsNormArgs::new(&input, &weight, &normalized, bits_of(EPS)));
        gpu.launch(pending, Work::Norm).unwrap();
        assert_close(&gpu, &normalized, &rms_weighted(&input_values, &weight_values, rows, cols, EPS), 0.035);

        let normalized = gpu.tensor(vec![rows, cols], dtype, &[0.0; 8]);
        let args = LayerNormArgs::new(&input, &weight, &norm_bias, &normalized, bits_of(EPS));
        gpu.launch(layer_norm(&thread, &ctx, args), Work::Norm).unwrap();
        assert_close(
            &gpu,
            &normalized,
            &layer_rows(&input_values, &weight_values, &norm_bias_values, rows, cols, EPS),
            0.035,
        );

        let normalized = gpu.tensor(vec![rows, cols], dtype, &[0.0; 8]);
        let args = AdaptiveRmsNormArgs::new(&input, &norm_style, &normalized, bits_of(EPS));
        gpu.launch(adaptive_rms_norm(&thread, &ctx, args), Work::Norm).unwrap();
        assert_close(&gpu, &normalized, &adaptive_rms(&input_values, &norm_style_values, rows, cols, EPS), 0.035);

        let hidden_reference = bias_residual_reference(&input_values, &bias_values, &residual_values, cols);
        let hidden = gpu.tensor(vec![rows, cols], dtype, &[0.0; 8]);
        let args = BiasResidualArgs::new(&input, Some(&bias), &residual, &hidden);
        gpu.launch(bias_residual(&thread, &ctx, args), Work::Norm).unwrap();
        assert_close(&gpu, &hidden, &hidden_reference, 0.02);

        let hidden = gpu.tensor(vec![rows, cols], dtype, &[0.0; 8]);
        let normalized = gpu.tensor(vec![rows, cols], dtype, &[0.0; 8]);
        let args = BiasResidualRmsNormArgs::new(
            &input,
            Some(&bias),
            &residual,
            &weight,
            &hidden,
            &normalized,
            bits_of(EPS),
        );
        gpu.launch(bias_residual_rms_norm(&thread, &ctx, args), Work::Norm).unwrap();
        assert_close(&gpu, &hidden, &hidden_reference, 0.02);
        assert_close(&gpu, &normalized, &rms_weighted(&hidden_reference, &weight_values, rows, cols, EPS), 0.035);

        let hidden = gpu.tensor(vec![rows, cols], dtype, &[0.0; 8]);
        let normalized = gpu.tensor(vec![rows, cols], dtype, &[0.0; 8]);
        let args = BiasResidualLayerNormArgs::new(
            &input,
            Some(&bias),
            &residual,
            &weight,
            &norm_bias,
            &hidden,
            &normalized,
            bits_of(EPS),
        );
        gpu.launch(bias_residual_layer_norm(&thread, &ctx, args), Work::Norm).unwrap();
        assert_close(&gpu, &hidden, &hidden_reference, 0.02);
        assert_close(
            &gpu,
            &normalized,
            &layer_rows(&hidden_reference, &weight_values, &norm_bias_values, rows, cols, EPS),
            0.035,
        );

        let gated_reference = gated_residual(&input_values, &residual_values, &gate_style_values, cols);
        let hidden = gpu.tensor(vec![rows, cols], dtype, &[0.0; 8]);
        let args = AdaGateResidualArgs::new(&input, &residual, &gate_style, &hidden);
        gpu.launch(ada_gate_residual(&thread, &ctx, args), Work::Norm).unwrap();
        assert_close(&gpu, &hidden, &gated_reference, 0.02);

        let hidden = gpu.tensor(vec![rows, cols], dtype, &[0.0; 8]);
        let normalized = gpu.tensor(vec![rows, cols], dtype, &[0.0; 8]);
        let args = AdaGateResidualRmsNormArgs::new(
            &input,
            &residual,
            &norm_style,
            &gate_style,
            &hidden,
            &normalized,
            bits_of(EPS),
        );
        gpu.launch(ada_gate_residual_rms_norm(&thread, &ctx, args), Work::Norm).unwrap();
        assert_close(&gpu, &hidden, &gated_reference, 0.02);
        assert_close(&gpu, &normalized, &adaptive_rms(&gated_reference, &norm_style_values, rows, cols, EPS), 0.035);
    }
}

#[test]
fn typed_norm_rejects_invalid_tensor_shapes() {
    let mut gpu = Gpu::new();
    let thread = ThreadState::new();
    let ctx = gpu.context();
    let input = gpu.tensor(vec![1, 4], DType::BF16, &[1.0; 4]);
    let weight = gpu.tensor(vec![4], DType::BF16, &[1.0; 4]);
    let wrong_style = gpu.tensor(vec![4], DType::BF16, &[0.0; 4]);
    let output = gpu.tensor(vec![1, 4], DType::BF16, &[0.0; 4]);

    assert!(rms_norm(&thread, &ctx, RmsNormArgs::new(&input, &weight, &output, bits_of(-1.0))).is_err());
    assert!(
        adaptive_rms_norm(
            &thread,
            &ctx,
            AdaptiveRmsNormArgs::new(&input, &wrong_style, &output, bits_of(EPS)),
        )
        .is_err(),
        "adaptive RMSNorm must reject a style tensor with the wrong typed shape"
    );
}

#[test]
fn norm_public_surface_is_typed_by_semantic() {
    let mut gpu = Gpu::new();
    let thread = ThreadState::new();
    let ctx = gpu.context();
    let t = DType::BF16;
    let x = gpu.tensor(vec![1, 4], t, &[1.0; 4]);
    let y = gpu.tensor(vec![1, 4], t, &[1.0; 4]);
    let z = gpu.tensor(vec![1, 4], t, &[1.0; 4]);
    let h = gpu.tensor(vec![1, 4], t, &[1.0; 4]);
    let w = gpu.tensor(vec![4], t, &[1.0; 4]);
    let style = gpu.tensor(vec![8], t, &[1.0; 8]);
    let gate = gpu.tensor(vec![12], t, &[1.0; 12]);
    let eps = bits_of(EPS);
    let th = &thread;
    let c = &ctx;
    for (pending, semantic) in [
        (rms_norm(th, c, RmsNormArgs::new(&x, &w, &y, eps)), NormSemantic::Rms),
        (layer_norm(th, c, LayerNormArgs::new(&x, &w, &w, &y, eps)), NormSemantic::Layer),
        (adaptive_rms_norm(th, c, AdaptiveRmsNormArgs::new(&x, &style, &y, eps)), NormSemantic::AdaptiveRms),
        (bias_residual(th, c, BiasResidualArgs::new(&x, Some(&w), &z, &y)), NormSemantic::BiasResidual),
        (
            bias_residual_rms_norm(th, c, BiasResidualRmsNormArgs::new(&x, None, &z, &w, &h, &y, eps)),
            NormSemantic::BiasResidualRms,
        ),
        (
            bias_residual_layer_norm(th, c, BiasResidualLayerNormArgs::new(&x, None, &z, &w, &w, &h, &y, eps)),
            NormSemantic::BiasResidualLayer,
        ),
        (ada_gate_residual(th, c, AdaGateResidualArgs::new(&x, &z, &gate, &y)), NormSemantic::AdaGateResidual),
        (
            ada_gate_residual_rms_norm(th, c, AdaGateResidualRmsNormArgs::new(&x, &z, &style, &gate, &h, &y, eps)),
            NormSemantic::AdaGateResidualRms,
        ),
        (bias_then_residual(th, c, BiasThenResidualArgs::new(&x, Some(&w), &z, &y)), NormSemantic::BiasThenResidual),
    ] {
        assert_eq!(pending.unwrap().launch.semantic, semantic);
    }
}

/// One launch of each operator family that keeps no prepared state.
fn stateless_launches(gpu: &mut Gpu, thread: &ThreadState, ctx: &CudaContext) -> Vec<Result<(), Error>> {
    let t = DType::BF16;
    let x = gpu.tensor(vec![1, 6], t, &[1.0; 6]);
    let w = gpu.tensor(vec![6], t, &[1.0; 6]);
    let y = gpu.tensor(vec![1, 6], t, &[0.0; 6]);
    let q = gpu.tensor(vec![1, 1, 2], t, &[0.0; 2]);
    let k = gpu.tensor(vec![1, 1, 2], t, &[0.0; 2]);
    let v = gpu.tensor(vec![1, 1, 2], t, &[0.0; 2]);
    let codes = gpu.zeros_tensor(vec![1, 6], DType::F8E4M3);
    let ids = gpu.u32_buffer(&[0]);
    let mut lookup = GatherArgs::new(GatherSemantic::EmbeddingLookup, &x, &y);
    lookup.ids = Some(&ids);
    lookup.vocab_size = 1;
    let split = RopeArgs {
        semantic: RopeSemantic::SplitQkvRope,
        qkv: &x,
        bias: None,
        q: &q,
        k: &k,
        v: &v,
        q_heads: 1,
        kv_heads: 1,
        head_dim: 2,
        theta: bits_of(10_000.0),
        position_offset: 0,
        kv_output_offset: 0,
    };
    let gathered = gather(thread, ctx, lookup);
    let normed = rms_norm(thread, ctx, RmsNormArgs::new(&x, &w, &y, bits_of(EPS)));
    let pointed = pointwise(thread, ctx, PointwiseArgs::new(PointwiseSemantic::BiasActivation, &x, &y));
    let quantized = quantization(
        thread,
        ctx,
        QuantizationArgs::new(QuantizationSemantic::FixedScaleE4m3, &x, &codes),
    );
    let rotated = rope(thread, ctx, split);
    vec![
        gpu.launch(gathered, Work::Gather),
        gpu.launch(normed, Work::Norm),
        gpu.launch(pointed, Work::Pointwise),
        gpu.launch(quantized, Work::Quantization),
        gpu.launch(rotated, Work::Rope),
    ]
}

#[test]
fn stateless_families_have_no_execution_cache_or_synchronization() {
    let mut gpu = Gpu::new();
    let mut thread = ThreadState::new();
    let ctx = gpu.context();
    let other = gpu.context();
    // No family creates an instance or waits for the stream.
    assert!(stateless_launches(&mut gpu, &thread, &ctx).iter().all(|launched| launched.is_ok()));
    assert_eq!(thread.prepared_execution_create_count(), 0);
    assert_eq!(gpu.synchronizations, 0);
    // Every family validates the stream that a capture is of.
    let graph = gpu
        .capture(&mut thread, &other, |gpu, thread| {
            for launched in stateless_launches(gpu, thread, &ctx) {
                assert!(launched.unwrap_err().message().contains("multi-stream capture is not supported"));
            }
            for launched in stateless_launches(gpu, thread, &other) {
                launched.unwrap();
            }
            Ok(())
        })
        .unwrap();
    assert!(graph.instances.is_empty());
}

fn activate(kind: PointwiseActivation, x: f32) -> f32 {
    match kind {
        PointwiseActivation::Identity => x,
        PointwiseActivation::Gelu => gelu_tanh(x),
        PointwiseActivation::Silu => x / (1.0 + (-x).exp()),
    }
}

#[test]
fn pointwise_all_semantics_and_activations_match_cpu_references() {
    let mut gpu = Gpu::new();
    let thread = ThreadState::new();
    let ctx = gpu.context();

    let geglu_values = [-1.0, -0.5, 0.5, 1.5, 2.0, -2.0, 0.25, 4.0];
    let geglu_expected: Vec<_> =
        (0..4).map(|column| gelu_tanh(geglu_values[column]) * geglu_values[column + 4]).collect();
    let input_values = [-2.0, -0.5, 0.25, 2.0, 1.0, -1.0, 0.5, 3.0];
    let bias_values = [0.5, -0.5, 1.0, -1.0];
    let state_values = [1.0, -2.0, 3.0, -4.0];
    let velocity_values = [2.0, 4.0, -1.0, -2.0];
    let euler_expected: Vec<_> =
        state_values.iter().zip(velocity_values).map(|(&state, velocity)| state - 0.25 * velocity).collect();

    for dtype in [DType::BF16, DType::F16] {
        let geglu_input = gpu.tensor(vec![1, 8], dtype, &geglu_values);
        let geglu_out = gpu.tensor(vec![1, 4], dtype, &[0.0; 4]);
        let args = PointwiseArgs::new(PointwiseSemantic::Geglu, &geglu_input, &geglu_out);
        gpu.launch(pointwise(&thread, &ctx, args), Work::Pointwise).unwrap();
        assert_close(&gpu, &geglu_out, &geglu_expected, 0.025);

        let input = gpu.tensor(vec![2, 4], dtype, &input_values);
        let bias = gpu.tensor(vec![4], dtype, &bias_values);
        for activation in [
            PointwiseActivation::Identity,
            PointwiseActivation::Gelu,
            PointwiseActivation::Silu,
        ] {
            let out = gpu.tensor(vec![2, 4], dtype, &[0.0; 8]);
            let mut args = PointwiseArgs::new(PointwiseSemantic::BiasActivation, &input, &out);
            args.bias = Some(&bias);
            args.activation = activation;
            gpu.launch(pointwise(&thread, &ctx, args), Work::Pointwise).unwrap();
            let expected: Vec<_> = input_values
                .iter()
                .enumerate()
                .map(|(index, &x)| activate(activation, x + bias_values[index % 4]))
                .collect();
            assert_close(&gpu, &out, &expected, 0.025);
        }

        let state = gpu.tensor(vec![2, 2], dtype, &state_values);
        let velocity = gpu.tensor(vec![2, 2], dtype, &velocity_values);
        let out = gpu.tensor(vec![2, 2], dtype, &[0.0; 4]);
        let mut args = PointwiseArgs::new(PointwiseSemantic::EulerUpdate, &state, &out);
        args.secondary = Some(&velocity);
        args.dt = bits_of(-0.25);
        gpu.launch(pointwise(&thread, &ctx, args), Work::Pointwise).unwrap();
        assert_close(&gpu, &out, &euler_expected, 0.01);
    }
}

#[test]
fn pointwise_rejects_missing_and_unrelated_bindings() {
    let mut gpu = Gpu::new();
    let thread = ThreadState::new();
    let ctx = gpu.context();
    let input = gpu.tensor(vec![1, 2], DType::BF16, &[1.0, 2.0]);
    let secondary = gpu.tensor(vec![1, 2], DType::BF16, &[3.0, 4.0]);
    let out = gpu.tensor(vec![1, 2], DType::BF16, &[0.0; 2]);

    let missing = PointwiseArgs::new(PointwiseSemantic::EulerUpdate, &input, &out);
    assert!(pointwise(&thread, &ctx, missing).is_err(), "Euler update requires velocity");

    let mut unrelated = PointwiseArgs::new(PointwiseSemantic::BiasActivation, &input, &out);
    unrelated.secondary = Some(&secondary);
    unrelated.activation = PointwiseActivation::Silu;
    assert!(
        pointwise(&thread, &ctx, unrelated).is_err(),
        "bias-activation must reject an unrelated velocity"
    );
}

fn rotate_pair(x: f32, y: f32, position: usize) -> [f32; 2] {
    let angle = position as f32;
    let (sin, cos) = angle.sin_cos();
    [x * cos - y * sin, x * sin + y * cos]
}

#[test]
fn rope_split_rotate_and_bias_split_match_cpu_references() {
    let mut gpu = Gpu::new();
    let thread = ThreadState::new();
    let ctx = gpu.context();

    // head_dim=2 makes the standard RoPE frequency exactly one, which keeps
    // this reference independent of any frequency-table implementation.
    let qkv_values = [
        1.0, 2.0, 3.0, 4.0, 5.0, 6.0, 7.0, 8.0, -1.0, 0.5, 2.0, -3.0, 4.0, -2.0, 0.25, 1.5,
    ];
    let mut expected_q = Vec::new();
    let mut expected_k = Vec::new();
    let mut expected_v = Vec::new();
    for token in 0..2 {
        let row = &qkv_values[token * 8..(token + 1) * 8];
        expected_q.extend(rotate_pair(row[0], row[1], token + 1));
        expected_q.extend(rotate_pair(row[2], row[3], token + 1));
        expected_k.extend(rotate_pair(row[4], row[5], token + 1));
        expected_v.extend_from_slice(&row[6..8]);
    }

    for dtype in [DType::BF16, DType::F16] {
        let qkv = gpu.tensor(vec![2, 8], dtype, &qkv_values);
        let q = gpu.tensor(vec![2, 2, 2], dtype, &[0.0; 8]);
        let k = gpu.tensor(vec![2, 1, 2], dtype, &[0.0; 4]);
        let v = gpu.tensor(vec![2, 1, 2], dtype, &[0.0; 4]);
        let pending = rope(
            &thread,
            &ctx,
            RopeArgs {
                semantic: RopeSemantic::SplitQkvRope,
                qkv: &qkv,
                bias: None,
                q: &q,
                k: &k,
                v: &v,
                q_heads: 2,
                kv_heads: 1,
                head_dim: 2,
                theta: bits_of(10_000.0),
                position_offset: 1,
                kv_output_offset: 0,
            },
        );
        gpu.launch(pending, Work::Rope).unwrap();
        assert_close(&gpu, &q, &expected_q, 0.025);
        assert_close(&gpu, &k, &expected_k, 0.025);
        assert_close(&gpu, &v, &expected_v, 0.01);
    }

    let packed_values = [1.0, 2.0, 3.0, 4.0, 5.0, 6.0, -1.0, -2.0, -3.0, -4.0, -5.0, -6.0];
    let bias_values = [0.5, -0.5, 1.0, -1.0, 2.0, -2.0];
    let expected: Vec<_> =
        packed_values.iter().enumerate().map(|(index, &x)| x + bias_values[index % 6]).collect();
    for dtype in [DType::BF16, DType::F16] {
        let packed = gpu.tensor(vec![2, 6], dtype, &packed_values);
        let bias = gpu.tensor(vec![6], dtype, &bias_values);
        let q = gpu.tensor(vec![2, 1, 2], dtype, &[0.0; 4]);
        let k = gpu.tensor(vec![2, 1, 2], dtype, &[0.0; 4]);
        let v = gpu.tensor(vec![2, 1, 2], dtype, &[0.0; 4]);
        let pending = rope(
            &thread,
            &ctx,
            RopeArgs {
                semantic: RopeSemantic::SplitQkvBias,
                qkv: &packed,
                bias: Some(&bias),
                q: &q,
                k: &k,
                v: &v,
                q_heads: 1,
                kv_heads: 1,
                head_dim: 2,
                theta: bits_of(10_000.0),
                position_offset: 0,
                kv_output_offset: 0,
            },
        );
        gpu.launch(pending, Work::Rope).unwrap();
        assert_close(&gpu, &q, &[expected[0], expected[1], expected[6], expected[7]], 0.01);
        assert_close(&gpu, &k, &[expected[2], expected[3], expected[8], expected[9]], 0.01);
        assert_close(&gpu, &v, &[expected[4], expected[5], expected[10], expected[11]], 0.01);
    }
}

#[test]
fn rope_rejects_illegal_or_unrelated_arguments() {
    let mut gpu = Gpu::new();
    let thread = ThreadState::new();
    let ctx = gpu.context();
    let packed = gpu.tensor(vec![1, 6], DType::BF16, &[0.0; 6]);
    let q = gpu.tensor(vec![1, 1, 2], DType::BF16, &[0.0; 2]);
    let k = gpu.tensor(vec![1, 1, 2], DType::BF16, &[0.0; 2]);
    let v = gpu.tensor(vec![1, 1, 2], DType::BF16, &[0.0; 2]);
    let result = rope(
        &thread,
        &ctx,
        RopeArgs {
            semantic: RopeSemantic::SplitQkvBias,
            qkv: &packed,
            bias: None,
            q: &q,
            k: &k,
            v: &v,
            q_heads: 1,
            kv_heads: 1,
            head_dim: 2,
            theta: bits_of(10_000.0),
            position_offset: 1,
            kv_output_offset: 0,
        },
    );
    assert!(result.is_err(), "the non-rotary split must reject a rotary position offset");
}

#[test]
fn gather_all_semantics_match_cpu_references() {
    let mut gpu = Gpu::new();
    let thread = ThreadState::new();
    let ctx = gpu.context();

    let table_values = [1.0, 2.0, 3.0, 4.0, -1.0, -2.0, -3.0, -4.0, 0.5, 1.5, -0.5, -1.5];
    let ids = gpu.u32_buffer(&[2, 0]);
    let embedding_expected: Vec<_> =
        table_values[8..12].iter().chain(&table_values[0..4]).map(|value| value * 2.0).collect();
    for dtype in [DType::BF16, DType::F16] {
        let table = gpu.tensor(vec![3, 4], dtype, &table_values);
        let out = gpu.tensor(vec![2, 4], dtype, &[0.0; 8]);
        let mut args = GatherArgs::new(GatherSemantic::EmbeddingLookup, &table, &out);
        args.ids = Some(&ids);
        args.vocab_size = 3;
        gpu.launch(gather(&thread, &ctx, args), Work::Gather).unwrap();
        assert_close(&gpu, &out, &embedding_expected, 0.01);
    }

    let projection_values = [1.0, 2.0, 3.0, 4.0, 5.0, 6.0, 7.0, 8.0, 9.0, 10.0, 11.0, 12.0];
    let bias_values = [0.5, -0.5, 1.0];
    let position_values = [1.0, 2.0, 3.0, -1.0, -2.0, -3.0];
    let position_expected: Vec<_> = projection_values
        .iter()
        .enumerate()
        .map(|(index, &x)| {
            let row = index / 3;
            let col = index % 3;
            x + bias_values[col] + position_values[(row % 2) * 3 + col]
        })
        .collect();
    for dtype in [DType::BF16, DType::F16] {
        let projection = gpu.tensor(vec![4, 3], dtype, &projection_values);
        let bias = gpu.tensor(vec![3], dtype, &bias_values);
        let position = gpu.tensor(vec![2, 3], dtype, &position_values);
        let out = gpu.tensor(vec![4, 3], dtype, &[0.0; 12]);
        let mut args = GatherArgs::new(GatherSemantic::BiasPosition, &projection, &out);
        args.bias = Some(&bias);
        args.position = Some(&position);
        args.tokens_per_view = 2;
        gpu.launch(gather(&thread, &ctx, args), Work::Gather).unwrap();
        assert_close(&gpu, &out, &position_expected, 0.02);
    }

    let nhwc = [0, 10, 20, 30, 40, 50, 60, 70, 80, 90, 100, 110];
    let nchw = [0, 30, 60, 90, 10, 40, 70, 100, 20, 50, 80, 110];
    let expected_u8 = [0, 30, 60, 90, 10, 40, 70, 100, 20, 50, 80, 110];
    let expected: Vec<_> = expected_u8.iter().map(|&value| value as f32 / 127.5 - 1.0).collect();
    for dtype in [DType::BF16, DType::F16] {
        for (bytes, nhwc) in [(&nhwc[..], true), (&nchw[..], false)] {
            let images = gpu.u8_buffer(bytes);
            let out = gpu.tensor(vec![1, 12], dtype, &[0.0; 12]);
            let geometry = GatherPatchGeometry { views: 1, image_size: 2, patch_size: 2, nhwc };
            let args = GatherArgs::rgb_to_patches(&images, &out, geometry);
            gpu.launch(gather(&thread, &ctx, args), Work::Gather).unwrap();
            assert_close(&gpu, &out, &expected, 0.012);
        }
    }
}

#[test]
fn gather_rejects_missing_and_unrelated_bindings() {
    let mut gpu = Gpu::new();
    let thread = ThreadState::new();
    let ctx = gpu.context();
    let input = gpu.tensor(vec![2, 2], DType::BF16, &[1.0; 4]);
    let images = gpu.u8_buffer(&[0; 12]);
    let out = gpu.tensor(vec![1, 2], DType::BF16, &[0.0; 2]);

    let mut missing = GatherArgs::new(GatherSemantic::EmbeddingLookup, &input, &out);
    missing.vocab_size = 2;
    assert!(gather(&thread, &ctx, missing).is_err(), "embedding lookup requires token ids");

    let mut unrelated = GatherArgs::new(GatherSemantic::BiasPosition, &input, &out);
    unrelated.images = Some(&images);
    unrelated.position = Some(&input);
    unrelated.tokens_per_view = 1;
    assert!(gather(&thread, &ctx, unrelated).is_err(), "bias-position must reject raw-image storage");
}

#[test]
fn stateless_pointwise_captures_without_a_prepare_cache() {
    let mut gpu = Gpu::new();
    let mut thread = ThreadState::new();
    let ctx = gpu.context();
    let input = gpu.tensor(vec![1, 4], DType::BF16, &[1.0, -2.0, 3.0, -4.0]);
    let velocity = gpu.tensor(vec![1, 4], DType::BF16, &[2.0, 4.0, -1.0, -2.0]);
    let out = gpu.tensor(vec![1, 4], DType::BF16, &[0.0; 4]);
    let graph = gpu
        .capture(&mut thread, &ctx, |gpu, thread| {
            let mut args = PointwiseArgs::new(PointwiseSemantic::EulerUpdate, &input, &out);
            args.secondary = Some(&velocity);
            args.dt = bits_of(-0.25);
            gpu.launch(pointwise(thread, &ctx, args), Work::Pointwise)
        })
        .unwrap();
    let output = CudaBuffer::from_tensor(&out).unwrap();
    gpu.copy_from_host(&output, &bf16_bytes(&[-123.0; 4]));
    gpu.replay(&graph);
    assert_close(&gpu, &out, &[0.5, -3.0, 3.25, -3.5], 0.0);
}

fn two_stage_reference(projection: f32, bias: f32, residual: f32) -> u16 {
    let near = |x: f32| bf16_value(bf16_bits(x));
    bf16_bits(near(near(projection) + near(bias)) + near(residual))
}

#[test]
fn bias_then_residual_preserves_the_bf16_intermediate_rounding() {
    let mut gpu = Gpu::new();
    let thread = ThreadState::new();
    let ctx = gpu.context();
    let half_ulp = 0.00390625;
    let projection = gpu.tensor(vec![1, 1], DType::BF16, &[1.0]);
    let bias = gpu.tensor(vec![1], DType::BF16, &[half_ulp]);
    let residual = gpu.tensor(vec![1, 1], DType::BF16, &[half_ulp]);

    let two_stage = gpu.tensor(vec![1, 1], DType::BF16, &[0.0]);
    let args = BiasThenResidualArgs::new(&projection, Some(&bias), &residual, &two_stage);
    gpu.launch(bias_then_residual(&thread, &ctx, args), Work::Norm).unwrap();
    let expected = two_stage_reference(1.0, half_ulp, half_ulp);
    assert_eq!(gpu.bytes(&two_stage), expected.to_ne_bytes());
    assert_eq!(expected, bf16_bits(1.0));

    // Not an alias for the ordinary bias-residual semantic, which rounds only
    // after summing all operands.
    let one_stage = gpu.tensor(vec![1, 1], DType::BF16, &[0.0]);
    let args = BiasResidualArgs::new(&projection, Some(&bias), &residual, &one_stage);
    gpu.launch(bias_residual(&thread, &ctx, args), Work::Norm).unwrap();
    assert_eq!(gpu.bytes(&one_stage), bf16_bits(1.0078125).to_ne_bytes());
    assert_ne!(gpu.bytes(&two_stage), gpu.bytes(&one_stage));
}

#[test]
fn bias_then_residual_rejects_f16_instead_of_changing_its_contract() {
    let mut gpu = Gpu::new();
    let thread = ThreadState::new();
    let ctx = gpu.context();
    let projection = gpu.tensor(vec![1, 1], DType::F16, &[1.0]);
    let residual = gpu.tensor(vec![1, 1], DType::F16, &[0.5]);
    let output = gpu.tensor(vec![1, 1], DType::F16, &[0.0]);
    let args = BiasThenResidualArgs::new(&projection, None, &residual, &output);
    let error = bias_then_residual(&thread, &ctx, args)
        .expect_err("F16 must not enter a BF16-only semantic");
    assert!(error.message().contains("BF16-only semantic"), "unexpected error: {}", error.message());
    assert_eq!(output.dtype(), DType::F16);
}

#[allow(clippy::too_many_arguments)]
fn kv_cache_attention_reference(
    query: &[f32],
    key: &[f32],
    value: &[f32],
    batch: usize,
    query_tokens: usize,
    valid_keys: usize,
    key_capacity: usize,
    query_heads: usize,
    kv_heads: usize,
    head_dim: usize,
    query_start: usize,
    scale: f32,
    causal: bool,
) -> Vec<f32> {
    let mut output = vec![0.0; batch * query_tokens * query_heads * head_dim];
    for batch_index in 0..batch {
        for query_token in 0..query_tokens {
            for query_head in 0..query_heads {
                let kv_head = query_head / (query_heads / kv_heads);
                let seen = if causal {
                    (query_start + query_token + 1).min(valid_keys)
                } else {
                    valid_keys
                };
                let q = ((batch_index * query_tokens + query_token) * query_heads + query_head) * head_dim;
                let row = |token: usize| ((batch_index * key_capacity + token) * kv_heads + kv_head) * head_dim;
                let scores: Vec<f32> = (0..seen)
                    .map(|token| {
                        scale * (0..head_dim).map(|d| query[q + d] * key[row(token) + d]).sum::<f32>()
                    })
                    .collect();
                let maximum = scores.iter().copied().fold(f32::NEG_INFINITY, f32::max);
                let denominator: f32 = scores.iter().map(|score| (score - maximum).exp()).sum();
                for d in 0..head_dim {
                    output[q + d] = scores
                        .iter()
                        .enumerate()
                        .map(|(token, score)| ((*score - maximum).exp() / denominator) * value[row(token) + d])
                        .sum();
                }
            }
        }
    }
    output
}

#[allow(clippy::too_many_arguments)]
fn attention_reference(
    query: &[f32],
    key: &[f32],
    value: &[f32],
    batch: usize,
    query_tokens: usize,
    key_tokens: usize,
    query_heads: usize,
    kv_heads: usize,
    head_dim: usize,
    scale: f32,
    causal: bool,
) -> Vec<f32> {
    kv_cache_attention_reference(
        query,
        key,
        value,
        batch,
        query_tokens,
        key_tokens,
        key_tokens,
        query_heads,
        kv_heads,
        head_dim,
        key_tokens - query_tokens,
        scale,
        causal,
    )
}

#[test]
fn attention_supports_mha_gqa_mqa_and_causal_masking() {
    let mut gpu = Gpu::new();
    let thread = ThreadState::new();
    let ctx = gpu.context();
    let (batch, query_tokens, key_tokens, query_heads, head_dim) = (1, 2, 3, 4, 2);
    let query_values: Vec<_> = (0..batch * query_tokens * query_heads * head_dim)
        .map(|index| (index as f32 - 7.0) / 8.0)
        .collect();
    let scale = 0.5;

    for (kv_heads, causal) in [(4, false), (2, false), (1, false), (2, true)] {
        let key_values: Vec<_> = (0..batch * key_tokens * kv_heads * head_dim)
            .map(|index| ((index * 3 % 11) as f32 - 5.0) / 8.0)
            .collect();
        let value_values: Vec<_> = (0..batch * key_tokens * kv_heads * head_dim)
            .map(|index| ((index * 5 % 13) as f32 - 6.0) / 8.0)
            .collect();
        let query = gpu.tensor(vec![batch, query_tokens, query_heads, head_dim], DType::BF16, &query_values);
        let key = gpu.tensor(vec![batch, key_tokens, kv_heads, head_dim], DType::BF16, &key_values);
        let value = gpu.tensor(vec![batch, key_tokens, kv_heads, head_dim], DType::BF16, &value_values);
        let out = gpu.tensor(
            vec![batch, query_tokens, query_heads, head_dim],
            DType::BF16,
            &vec![0.0; query_values.len()],
        );
        let mut args = AttentionArgs::new(&query, &key, &value, &out);
        args.scale = AttentionScale::Explicit(bits_of(scale));
        args.mask = if causal { AttentionMask::Causal } else { AttentionMask::Unmasked };
        args.policy.online_tune = false;
        gpu.launch(attention(&thread, &ctx, args), Work::Attention).unwrap();

        let expected = attention_reference(
            &query_values,
            &key_values,
            &value_values,
            batch,
            query_tokens,
            key_tokens,
            query_heads,
            kv_heads,
            head_dim,
            scale,
            causal,
        );
        for (index, (actual, expected)) in gpu.values(&out).iter().zip(expected).enumerate() {
            assert!(
                (*actual - expected).abs() < 0.02,
                "attention element {index} for kv_heads={kv_heads}, causal={causal} is {actual}, expected {expected}"
            );
        }
    }
}

#[test]
fn attention_prepares_before_capture_and_replays_from_cache() {
    let mut gpu = Gpu::new();
    let mut thread = ThreadState::new();
    let ctx = gpu.context();
    let query = gpu.tensor(vec![1, 2, 2, 2], DType::BF16, &[0.25; 8]);
    let key = gpu.tensor(vec![1, 3, 1, 2], DType::BF16, &[0.5; 6]);
    let value = gpu.tensor(vec![1, 3, 1, 2], DType::BF16, &[1.0, 2.0, 3.0, 4.0, 5.0, 6.0]);
    let out = gpu.tensor(vec![1, 2, 2, 2], DType::BF16, &[0.0; 8]);
    let mut workspace = gpu.workspace(4096);

    prepare_with_workspace(&mut thread, &mut workspace, |thread| {
        let mut args = AttentionArgs::new(&query, &key, &value, &out);
        args.policy.online_tune = false;
        gpu.launch(attention(thread, &ctx, args), Work::Attention)
    })
    .unwrap();
    let expected = gpu.values(&out);

    let graph = gpu
        .capture(&mut thread, &ctx, |gpu, thread| {
            with_workspace(thread, &mut workspace, |thread| {
                let mut args = AttentionArgs::new(&query, &key, &value, &out);
                args.policy.online_tune = false;
                gpu.launch(attention(thread, &ctx, args), Work::Attention)
            })
        })
        .unwrap();
    let output = CudaBuffer::from_tensor(&out).unwrap();
    gpu.copy_from_host(&output, &bf16_bytes(&[-123.0; 8]));
    gpu.replay(&graph);
    assert_eq!(gpu.values(&out), expected);
}

#[test]
fn kv_cache_attention_uses_trailing_causal_positions() {
    let mut gpu = Gpu::new();
    let thread = ThreadState::new();
    let ctx = gpu.context();
    let query_values = vec![0.5, -0.25, 0.25, 0.75];
    let key_values = vec![0.25, 0.5, -0.5, 0.25, 0.75, -0.25];
    let value_values = vec![1.0, 2.0, 3.0, 4.0, 5.0, 6.0];
    let query = gpu.tensor(vec![1, 2, 1, 2], DType::BF16, &query_values);
    let key = gpu.tensor(vec![1, 3, 1, 2], DType::BF16, &key_values);
    let value = gpu.tensor(vec![1, 3, 1, 2], DType::BF16, &value_values);
    let out = gpu.tensor(vec![1, 2, 1, 2], DType::BF16, &[0.0; 4]);
    let mut args = KvCacheAttentionArgs::new(&query, &key, &value, &out);
    args.policy.online_tune = false;
    gpu.launch(kv_cache_attention(&thread, &ctx, args), Work::Attention).unwrap();

    let expected = attention_reference(
        &query_values,
        &key_values,
        &value_values,
        1,
        2,
        3,
        1,
        1,
        2,
        1.0 / 2.0_f32.sqrt(),
        true,
    );
    for (actual, expected) in gpu.values(&out).iter().zip(expected) {
        assert!((*actual - expected).abs() < 0.02);
    }
}

#[test]
fn segmented_attention_keeps_packed_segments_isolated() {
    let mut gpu = Gpu::new();
    let thread = ThreadState::new();
    let ctx = gpu.context();
    let query_values = vec![1.0, 0.0, 0.0, 1.0, 1.0, 1.0];
    let key_values = vec![1.0, 0.0, 0.0, 1.0, 1.0, -1.0];
    let value_values = vec![2.0, 4.0, 6.0, 8.0, 100.0, 200.0];
    let query = gpu.tensor(vec![3, 1, 2], DType::BF16, &query_values);
    let key = gpu.tensor(vec![3, 1, 2], DType::BF16, &key_values);
    let value = gpu.tensor(vec![3, 1, 2], DType::BF16, &value_values);
    let out = gpu.tensor(vec![3, 1, 2], DType::BF16, &[0.0; 6]);
    let mut args = SegmentedAttentionArgs::new(&query, &key, &value, &out, &[0, 2, 3]);
    args.policy.online_tune = false;
    let ready = segmented_attention(&thread, &ctx, args).unwrap().device_selected(Ok(())).unwrap();
    for launch in ready.launch {
        gpu.submit(Work::Attention(launch));
    }

    let mut expected = attention_reference(
        &query_values[..4],
        &key_values[..4],
        &value_values[..4],
        1,
        2,
        2,
        1,
        1,
        2,
        1.0 / 2.0_f32.sqrt(),
        false,
    );
    expected.extend_from_slice(&value_values[4..]);
    for (actual, expected) in gpu.values(&out).iter().zip(expected) {
        assert!((*actual - expected).abs() < 0.02);
    }
}

#[test]
fn attention_all_candidates_match_reference() {
    let mut gpu = Gpu::new();
    let thread = ThreadState::new();
    let ctx = gpu.context();
    let (batch, query_tokens, key_tokens, query_heads, kv_heads, head_dim) = (1, 3, 4, 4, 2, 8);
    let query_values: Vec<_> = (0..batch * query_tokens * query_heads * head_dim)
        .map(|index| ((index * 3 % 17) as f32 - 8.0) / 16.0)
        .collect();
    let key_values: Vec<_> = (0..batch * key_tokens * kv_heads * head_dim)
        .map(|index| ((index * 5 % 19) as f32 - 9.0) / 16.0)
        .collect();
    let value_values: Vec<_> = (0..batch * key_tokens * kv_heads * head_dim)
        .map(|index| ((index * 7 % 23) as f32 - 11.0) / 16.0)
        .collect();
    let scale = 1.0 / (head_dim as f32).sqrt();
    let query = gpu.tensor(vec![batch, query_tokens, query_heads, head_dim], DType::BF16, &query_values);
    let key = gpu.tensor(vec![batch, key_tokens, kv_heads, head_dim], DType::BF16, &key_values);
    let value = gpu.tensor(vec![batch, key_tokens, kv_heads, head_dim], DType::BF16, &value_values);
    let out = gpu.zeros_tensor(vec![batch, query_tokens, query_heads, head_dim], DType::BF16);
    let mut args = AttentionArgs::new(&query, &key, &value, &out).causal();
    args.policy.allow_fallback = false;
    args.policy.graph_safe = true;
    gpu.launch(attention(&thread, &ctx, args), Work::Attention).unwrap();
    let expected = attention_reference(
        &query_values,
        &key_values,
        &value_values,
        batch,
        query_tokens,
        key_tokens,
        query_heads,
        kv_heads,
        head_dim,
        scale,
        true,
    );
    assert_values(&gpu.values(&out), &expected);
}

#[test]
fn kv_cache_attention_all_candidates_match_reference() {
    let mut gpu = Gpu::new();
    let thread = ThreadState::new();
    let ctx = gpu.context();
    let (batch, query_tokens, valid_key_tokens, key_capacity, heads, head_dim) = (2, 2, 4, 6, 2, 8);
    let query_values: Vec<_> = (0..batch * query_tokens * heads * head_dim)
        .map(|index| ((index * 3 % 17) as f32 - 8.0) / 16.0)
        .collect();
    let key_values: Vec<_> = (0..batch * key_capacity * heads * head_dim)
        .map(|index| ((index * 5 % 19) as f32 - 9.0) / 16.0)
        .collect();
    let value_values: Vec<_> = (0..batch * key_capacity * heads * head_dim)
        .map(|index| ((index * 7 % 23) as f32 - 11.0) / 16.0)
        .collect();
    let query = gpu.tensor(vec![batch, query_tokens, heads, head_dim], DType::BF16, &query_values);
    let key = gpu.tensor(vec![batch, key_capacity, heads, head_dim], DType::BF16, &key_values);
    let value = gpu.tensor(vec![batch, key_capacity, heads, head_dim], DType::BF16, &value_values);
    let out = gpu.zeros_tensor(vec![batch, query_tokens, heads, head_dim], DType::BF16);
    let mut args = KvCacheAttentionArgs::new(&query, &key, &value, &out);
    args.valid_key_tokens = valid_key_tokens;
    args.query_start = 1;
    args.policy.allow_fallback = false;
    args.policy.graph_safe = true;
    gpu.launch(kv_cache_attention(&thread, &ctx, args), Work::Attention).unwrap();
    let expected = kv_cache_attention_reference(
        &query_values,
        &key_values,
        &value_values,
        batch,
        query_tokens,
        valid_key_tokens,
        key_capacity,
        heads,
        heads,
        head_dim,
        1,
        1.0 / (head_dim as f32).sqrt(),
        true,
    );
    assert_values(&gpu.values(&out), &expected);
}

#[test]
fn segmented_attention_all_candidates_match_reference() {
    let mut gpu = Gpu::new();
    let thread = ThreadState::new();
    let ctx = gpu.context();
    let (tokens, heads, head_dim) = (4, 2, 8);
    let query_values: Vec<_> =
        (0..tokens * heads * head_dim).map(|index| ((index * 3 % 17) as f32 - 8.0) / 16.0).collect();
    let key_values: Vec<_> =
        (0..tokens * heads * head_dim).map(|index| ((index * 5 % 19) as f32 - 9.0) / 16.0).collect();
    let value_values: Vec<_> =
        (0..tokens * heads * head_dim).map(|index| ((index * 7 % 23) as f32 - 11.0) / 16.0).collect();
    let query = gpu.tensor(vec![tokens, heads, head_dim], DType::BF16, &query_values);
    let key = gpu.tensor(vec![tokens, heads, head_dim], DType::BF16, &key_values);
    let value = gpu.tensor(vec![tokens, heads, head_dim], DType::BF16, &value_values);
    let out = gpu.zeros_tensor(vec![tokens, heads, head_dim], DType::BF16);
    let host_offsets = [0, 2, 2, 4];
    let mut args = SegmentedAttentionArgs::new(&query, &key, &value, &out, &host_offsets);
    args.policy.allow_fallback = false;
    args.policy.graph_safe = true;
    let ready = segmented_attention(&thread, &ctx, args).unwrap().device_selected(Ok(())).unwrap();
    for launch in ready.launch {
        gpu.submit(Work::Attention(launch));
    }
    let elements = 2 * heads * head_dim;
    let scale = 1.0 / (head_dim as f32).sqrt();
    let mut expected = Vec::new();
    for part in [0..elements, elements..2 * elements] {
        expected.extend(attention_reference(
            &query_values[part.clone()],
            &key_values[part.clone()],
            &value_values[part],
            1,
            2,
            2,
            heads,
            heads,
            head_dim,
            scale,
            false,
        ));
    }
    assert_values(&gpu.values(&out), &expected);
}

#[test]
fn fixed_e4m3_matches_standard_encoding_for_both_input_types() {
    let mut gpu = Gpu::new();
    let thread = ThreadState::new();
    let ctx = gpu.context();
    let values = [0.0, 1.0, -2.0, 4.0];
    // With scale=2 the E4M3-domain values are [0, .5, -1, 2].
    let expected = [0x00, 0x30, 0xb8, 0x40];

    for dtype in [DType::F16, DType::BF16] {
        let input = gpu.tensor(vec![2, 2], dtype, &values);
        let output = gpu.zeros_tensor(vec![2, 2], DType::F8E4M3);
        let mut args = QuantizationArgs::new(QuantizationSemantic::FixedScaleE4m3, &input, &output);
        args.scale = bits_of(2.0);
        gpu.launch(quantization(&thread, &ctx, args), Work::Quantization).unwrap();
        assert_eq!(gpu.bytes(&output), expected);
    }
}

#[test]
fn rowwise_e4m3_computes_scales_and_zero_fills_padding() {
    let mut gpu = Gpu::new();
    let thread = ThreadState::new();
    let ctx = gpu.context();
    let input = gpu.tensor(vec![2, 3], DType::BF16, &[0.0, 1.0, -2.0, 4.0, -1.0, 2.0]);
    let output = gpu.zeros_tensor(vec![2, 5], DType::F8E4M3);
    let scales = gpu.zeros_tensor(vec![2], DType::F32);
    let mut args = QuantizationArgs::new(QuantizationSemantic::RowwiseE4m3, &input, &output);
    args.scales = Some(&scales);
    gpu.launch(quantization(&thread, &ctx, args), Work::Quantization).unwrap();

    let scales = gpu.values(&scales);
    assert!((scales[0] - 2.0 / 448.0).abs() <= 1.0e-7);
    assert!((scales[1] - 4.0 / 448.0).abs() <= 1.0e-7);
    let bytes = gpu.bytes(&output);
    assert_eq!(&bytes[3..5], &[0, 0]);
    assert_eq!(&bytes[8..10], &[0, 0]);
    // Each row's maximum maps to the finite E4M3 value 448 (0x7e), with sign.
    assert_eq!(bytes[2], 0xfe);
    assert_eq!(bytes[5], 0x7e);
}

#[test]
fn cast_and_slice_match_independent_bf16_rounding_and_indexing() {
    let mut gpu = Gpu::new();
    let thread = ThreadState::new();
    let ctx = gpu.context();
    let source_values = [0.1, -0.25, 1.5, 1000.0, -7.75, 3.0];
    let input = gpu.tensor(vec![2, 3], DType::F16, &source_values);
    let cast = gpu.zeros_tensor(vec![2, 3], DType::BF16);
    let args = QuantizationArgs::new(QuantizationSemantic::CastF16ToBf16, &input, &cast);
    gpu.launch(quantization(&thread, &ctx, args), Work::Quantization).unwrap();
    let expected: Vec<u16> =
        source_values.iter().map(|&value| bf16_bits(f16_value(f16_bits(value)))).collect();
    let bits = |gpu: &Gpu, tensor: &Tensor| -> Vec<u16> {
        gpu.bytes(tensor).chunks_exact(2).map(|b| u16::from_ne_bytes([b[0], b[1]])).collect()
    };
    assert_eq!(bits(&gpu, &cast), expected);

    let sliced = gpu.zeros_tensor(vec![2, 2], DType::BF16);
    let args = QuantizationArgs::new(QuantizationSemantic::SliceColumnsBf16, &cast, &sliced);
    gpu.launch(quantization(&thread, &ctx, args), Work::Quantization).unwrap();
    assert_eq!(bits(&gpu, &sliced), vec![expected[0], expected[1], expected[3], expected[4]]);
}

#[test]
fn rowwise_i8_matches_cpu_scale_and_rounding_reference() {
    let mut gpu = Gpu::new();
    let thread = ThreadState::new();
    let ctx = gpu.context();
    let input = gpu.tensor(vec![2, 4], DType::BF16, &[0.0, 1.0, -2.0, 4.0, 0.0, 0.0, 0.0, 0.0]);
    let output = gpu.bytes_tensor(vec![2, 4], DType::I8, &[0; 8]);
    let scales = gpu.zeros_tensor(vec![2], DType::F32);
    let mut args = QuantizationArgs::new(QuantizationSemantic::RowwiseI8, &input, &output);
    args.scales = Some(&scales);
    gpu.launch(quantization(&thread, &ctx, args), Work::Quantization).unwrap();

    assert_eq!(gpu.bytes(&output), &[0, 32, 192, 127, 0, 0, 0, 0]);
    let scales = gpu.values(&scales);
    assert!((scales[0] - 4.0 / 127.0).abs() <= 1.0e-7);
    assert_eq!(scales[1], 1.0e-12);
}

#[test]
fn semantic_contract_rejects_wrong_auxiliaries_and_shapes() {
    let mut gpu = Gpu::new();
    let thread = ThreadState::new();
    let ctx = gpu.context();
    let input = gpu.tensor(vec![2, 3], DType::BF16, &[1.0; 6]);
    let fp8 = gpu.zeros_tensor(vec![2, 3], DType::F8E4M3);
    let scales = gpu.zeros_tensor(vec![2], DType::F32);

    let mut fixed = QuantizationArgs::new(QuantizationSemantic::FixedScaleE4m3, &input, &fp8);
    fixed.scales = Some(&scales);
    assert!(quantization(&thread, &ctx, fixed).is_err());

    let too_narrow = gpu.zeros_tensor(vec![2, 2], DType::F8E4M3);
    let mut rowwise = QuantizationArgs::new(QuantizationSemantic::RowwiseE4m3, &input, &too_narrow);
    rowwise.scales = Some(&scales);
    assert!(quantization(&thread, &ctx, rowwise).is_err());
}

#[test]
fn rowwise_i8_prepares_and_replays_without_native_work_during_capture() {
    let mut gpu = Gpu::new();
    let mut thread = ThreadState::new();
    let ctx = gpu.context();
    let input = gpu.tensor(vec![1, 4], DType::BF16, &[0.0, 1.0, -2.0, 4.0]);
    let output = gpu.bytes_tensor(vec![1, 4], DType::I8, &[0; 4]);
    let scales = gpu.zeros_tensor(vec![1], DType::F32);
    let mut workspace = gpu.workspace(256);

    prepare_with_workspace(&mut thread, &mut workspace, |thread| {
        let mut args = QuantizationArgs::new(QuantizationSemantic::RowwiseI8, &input, &output);
        args.scales = Some(&scales);
        gpu.launch(quantization(thread, &ctx, args), Work::Quantization)
    })
    .unwrap();
    let expected = gpu.bytes(&output);

    let graph = gpu
        .capture(&mut thread, &ctx, |gpu, thread| {
            with_workspace(thread, &mut workspace, |thread| {
                let mut args = QuantizationArgs::new(QuantizationSemantic::RowwiseI8, &input, &output);
                args.scales = Some(&scales);
                gpu.launch(quantization(thread, &ctx, args), Work::Quantization)
            })
        })
        .unwrap();
    let buffer = CudaBuffer::from_tensor(&output).unwrap();
    gpu.copy_from_host(&buffer, &[0xaa; 4]);
    gpu.replay(&graph);
    assert_eq!(gpu.bytes(&output), expected);
}

fn cpu_gemm(a: &[f32], b: &[f32], m: usize, k: usize, n: usize) -> Vec<f32> {
    let mut out = vec![0.0; m * n];
    for row in 0..m {
        for column in 0..n {
            out[row * n + column] = (0..k).map(|inner| a[row * k + inner] * b[inner * n + column]).sum();
        }
    }
    out
}

/// Operands of two chained products.
struct Forward {
    a: Tensor,
    first_weight: Tensor,
    intermediate: Tensor,
    second_weight: Tensor,
    bias: Tensor,
    out: Tensor,
}

impl Forward {
    fn run(&self, gpu: &mut Gpu, thread: &mut ThreadState, ctx: &CudaContext) -> Result<(), Error> {
        gpu.gemm(thread, ctx, untuned(&self.a, &self.first_weight, &self.intermediate))?;
        let args = GemmBiasArgs {
            gemm: untuned(&self.intermediate, &self.second_weight, &self.out),
            bias: &self.bias,
        };
        let execution = gemm_bias(thread, ctx, args)?;
        gpu.execute(thread, execution)
    }
}

#[test]
fn same_public_l3_forward_prepares_captures_and_replays() {
    let mut gpu = Gpu::new();
    let mut thread = ThreadState::new();
    let ctx = gpu.context();
    let first_weight_values = [1.0, 0.0, -1.0, 2.0, 0.5, -0.5];
    let second_weight_values = [1.0, -1.0, 0.5, 2.0];
    let bias_values = [0.25, -0.5];
    let initial_a = [1.0, 2.0, -1.0, 0.0, 3.0, 1.0];
    let eager_a = [2.0, -1.0, 0.5, -2.0, 1.0, 3.0];
    let replay_a = [-1.0, 0.5, 2.0, 3.0, -2.0, 1.0];
    let t = DType::BF16;
    let forward = Forward {
        a: gpu.tensor(vec![2, 3], t, &initial_a),
        first_weight: gpu.tensor(vec![3, 2], t, &first_weight_values),
        intermediate: gpu.tensor(vec![2, 2], t, &[0.0; 4]),
        second_weight: gpu.tensor(vec![2, 2], t, &second_weight_values),
        bias: gpu.tensor(vec![2], t, &bias_values),
        out: gpu.tensor(vec![2, 2], t, &[0.0; 4]),
    };
    let a_buffer = CudaBuffer::from_tensor(&forward.a).unwrap();
    let observed = CudaBuffer::from_tensor(&forward.out).unwrap();
    let mut workspace = gpu.workspace(4096);

    let expected = |a_values: &[f32]| {
        let intermediate = cpu_gemm(a_values, &first_weight_values, 2, 3, 2);
        let mut output = cpu_gemm(&intermediate, &second_weight_values, 2, 2, 2);
        for (index, value) in output.iter_mut().enumerate() {
            *value += bias_values[index % 2];
        }
        output
    };

    prepare_with_workspace(&mut thread, &mut workspace, |thread| forward.run(&mut gpu, thread, &ctx)).unwrap();

    gpu.copy_from_host(&a_buffer, &bf16_bytes(&eager_a));
    with_workspace(&mut thread, &mut workspace, |thread| forward.run(&mut gpu, thread, &ctx)).unwrap();
    assert_values(&gpu.values(&forward.out), &expected(&eager_a));

    let graph = gpu
        .capture(&mut thread, &ctx, |gpu, thread| {
            with_workspace(thread, &mut workspace, |thread| forward.run(gpu, thread, &ctx))
        })
        .unwrap();

    gpu.copy_from_host(&a_buffer, &bf16_bytes(&replay_a));
    gpu.copy_from_host(&observed, &bf16_bytes(&[-123.0; 4]));
    gpu.replay(&graph);
    assert_values(&gpu.values(&forward.out), &expected(&replay_a));
}

#[test]
fn public_graph_retains_resources_and_reads_updated_inputs() {
    let mut gpu = Gpu::new();
    let mut thread = ThreadState::new();
    let ctx = gpu.context();
    let b_values = [1.0, 2.0, 0.0, -1.0, 2.0, 1.0];
    let a = gpu.tensor(vec![2, 3], DType::BF16, &[0.0; 6]);
    let b = gpu.tensor(vec![3, 2], DType::BF16, &b_values);
    let out = gpu.tensor(vec![2, 2], DType::BF16, &[0.0; 4]);
    let input = CudaBuffer::from_tensor(&a).unwrap();
    let observed = CudaBuffer::from_tensor(&out).unwrap();
    let mut workspace = gpu.workspace(4096);

    prepare_with_workspace(&mut thread, &mut workspace, |thread| {
        gpu.gemm(thread, &ctx, untuned(&a, &b, &out))
    })
    .unwrap();
    let graph = gpu
        .capture(&mut thread, &ctx, |gpu, thread| {
            with_workspace(thread, &mut workspace, |thread| {
                gpu.gemm(thread, &ctx, untuned(&a, &b, &out))
            })
        })
        .unwrap();

    drop(workspace);
    drop(a);
    drop(b);
    drop(out);
    // The graph alone keeps the weight.
    assert_eq!(gpu.live(), 3);
    for a_values in [[1.0, 2.0, -1.0, 0.0, 3.0, 1.0], [2.0, -1.0, 0.5, -2.0, 1.0, 3.0]] {
        gpu.copy_from_host(&input, &bf16_bytes(&a_values));
        gpu.copy_from_host(&observed, &bf16_bytes(&[-123.0; 4]));
        gpu.replay(&graph);
        assert_values(&gpu.buffer_values(&observed), &cpu_gemm(&a_values, &b_values, 2, 3, 2));
    }
    drop(graph);
    assert_eq!(gpu.live(), 2);
}

#[test]
fn public_graphs_keep_independent_bindings_and_specializations() {
    let mut gpu = Gpu::new();
    let mut thread = ThreadState::new();
    let ctx = gpu.context();
    let t = DType::BF16;

    let a1 = gpu.tensor(vec![2, 3], t, &[0.0; 6]);
    let b1_values = [1.0, 2.0, 0.0, -1.0, 2.0, 1.0];
    let b1 = gpu.tensor(vec![3, 2], t, &b1_values);
    let out1 = gpu.tensor(vec![2, 2], t, &[0.0; 4]);
    let a2 = gpu.tensor(vec![1, 2], t, &[0.0; 2]);
    let b2_values = [1.0, -1.0, 2.0, 0.5, 1.0, -2.0];
    let b2 = gpu.tensor(vec![2, 3], t, &b2_values);
    let out2 = gpu.tensor(vec![1, 3], t, &[0.0; 3]);

    let mut graphs = Vec::new();
    for (a, b, out) in [(&a1, &b1, &out1), (&a2, &b2, &out2)] {
        let mut workspace = gpu.workspace(4096);
        prepare_with_workspace(&mut thread, &mut workspace, |thread| {
            gpu.gemm(thread, &ctx, untuned(a, b, out))
        })
        .unwrap();
        graphs.push(
            gpu.capture(&mut thread, &ctx, |gpu, thread| {
                with_workspace(thread, &mut workspace, |thread| gpu.gemm(thread, &ctx, untuned(a, b, out)))
            })
            .unwrap(),
        );
    }

    let write = |gpu: &mut Gpu, tensor: &Tensor, values: &[f32]| {
        let buffer = CudaBuffer::from_tensor(tensor).unwrap();
        gpu.copy_from_host(&buffer, &bf16_bytes(values));
    };
    let a1_values = [1.0, 2.0, -1.0, 0.0, 3.0, 1.0];
    let a2_values = [2.0, -1.0];
    write(&mut gpu, &a1, &a1_values);
    write(&mut gpu, &a2, &a2_values);
    write(&mut gpu, &out1, &[-123.0; 4]);
    write(&mut gpu, &out2, &[-456.0; 3]);

    gpu.replay(&graphs[1]);
    gpu.replay(&graphs[0]);
    assert_values(&gpu.values(&out1), &cpu_gemm(&a1_values, &b1_values, 2, 3, 2));
    assert_values(&gpu.values(&out2), &cpu_gemm(&a2_values, &b2_values, 1, 2, 3));

    let changed_a1 = [-1.0, 0.5, 2.0, 3.0, -2.0, 1.0];
    write(&mut gpu, &a1, &changed_a1);
    write(&mut gpu, &out1, &[-789.0; 4]);
    gpu.replay(&graphs[0]);
    assert_values(&gpu.values(&out1), &cpu_gemm(&changed_a1, &b1_values, 2, 3, 2));
    assert_values(&gpu.values(&out2), &cpu_gemm(&a2_values, &b2_values, 1, 2, 3));
}

#[test]
fn public_l3_capture_rejects_cached_instance_from_another_stream() {
    let mut gpu = Gpu::new();
    let mut thread = ThreadState::new();
    let capture_ctx = gpu.context();
    let execution_ctx = gpu.context();
    let a = gpu.tensor(vec![2, 3], DType::BF16, &[1.0; 6]);
    let b = gpu.tensor(vec![3, 4], DType::BF16, &[1.0; 12]);
    let out = gpu.tensor(vec![2, 4], DType::BF16, &[0.0; 8]);
    let mut workspace = gpu.workspace(4096);

    prepare_with_workspace(&mut thread, &mut workspace, |thread| {
        gpu.gemm(thread, &execution_ctx, untuned(&a, &b, &out))
    })
    .unwrap();
    let error = match gpu.capture(&mut thread, &capture_ctx, |gpu, thread| {
        with_workspace(thread, &mut workspace, |thread| {
            gpu.gemm(thread, &execution_ctx, untuned(&a, &b, &out))
        })
    }) {
        Ok(_) => panic!("capture accepted an execution bound to another stream"),
        Err(error) => error,
    };
    assert!(
        error.message().contains("multi-stream capture is not supported"),
        "unexpected error: {}",
        error.message()
    );

    // A failed mismatched capture must not poison later capture on the bound
    // stream.
    let graph = gpu
        .capture(&mut thread, &execution_ctx, |gpu, thread| {
            with_workspace(thread, &mut workspace, |thread| {
                gpu.gemm(thread, &execution_ctx, untuned(&a, &b, &out))
            })
        })
        .unwrap();
    gpu.replay(&graph);
    assert!(gpu.values(&out).iter().all(|&value| value == 3.0));
}

#[test]
fn public_l3_capture_rejects_an_unprepared_cache_miss() {
    let mut gpu = Gpu::new();
    let mut thread = ThreadState::new();
    let ctx = gpu.context();
    let a = gpu.tensor(vec![2, 3], DType::BF16, &[1.0; 6]);
    let b = gpu.tensor(vec![3, 4], DType::BF16, &[1.0; 12]);
    let out = gpu.tensor(vec![2, 4], DType::BF16, &[0.0; 8]);
    let mut workspace = gpu.workspace(4096);

    let error = match gpu.capture(&mut thread, &ctx, |gpu, thread| {
        with_workspace(thread, &mut workspace, |thread| gpu.gemm(thread, &ctx, untuned(&a, &b, &out)))
    }) {
        Ok(_) => panic!("capture unexpectedly prepared a GEMM instance"),
        Err(error) => error,
    };
    assert!(
        error.message().contains("cache miss during capture"),
        "unexpected error: {}",
        error.message()
    );

    prepare_with_workspace(&mut thread, &mut workspace, |thread| {
        gpu.gemm(thread, &ctx, untuned(&a, &b, &out))
    })
    .unwrap();
    let graph = gpu
        .capture(&mut thread, &ctx, |gpu, thread| {
            with_workspace(thread, &mut workspace, |thread| gpu.gemm(thread, &ctx, untuned(&a, &b, &out)))
        })
        .unwrap();
    let observed = CudaBuffer::from_tensor(&out).unwrap();
    gpu.copy_from_host(&observed, &bf16_bytes(&[-123.0; 8]));
    gpu.replay(&graph);
    assert!(gpu.values(&out).iter().all(|&value| value == 3.0));
}

#[test]
fn public_prepared_execution_can_be_captured_and_replayed() {
    let mut gpu = Gpu::new();
    let mut thread = ThreadState::new();
    let ctx = gpu.context();
    let a = gpu.tensor(vec![2, 3], DType::BF16, &[1.0; 6]);
    let b = gpu.tensor(vec![3, 4], DType::BF16, &[1.0; 12]);
    let out = gpu.tensor(vec![2, 4], DType::BF16, &[0.0; 8]);
    let observed = CudaBuffer::from_tensor(&out).unwrap();

    let step = prepare_gemm(&mut thread, &ctx, untuned(&a, &b, &out)).unwrap();
    let prepared = gpu.prepared(&mut thread, step);
    let graph = gpu
        .capture(&mut thread, &ctx, |gpu, thread| gpu.enqueue(thread, &prepared))
        .unwrap();

    gpu.copy_from_host(&observed, &bf16_bytes(&[-123.0; 8]));
    gpu.replay(&graph);
    assert!(gpu.values(&out).iter().all(|&value| value == 3.0));
}
