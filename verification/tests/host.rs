//! Decisions of the library that no device takes part in.

use std::sync::Arc;

use apxinf_cuda::backend::Route;
use apxinf_cuda::buffer::NOT_CUDA_TEXT;
use apxinf_cuda::context::{device_memory_info, device_ordinal, OutputTensor};
use apxinf_cuda::fp8::autotune::{
    autotune_cublaslt_gemm_f16, autotune_cutlass_gemm_f16, check_cublaslt_measurement,
    check_cutlass_measurement, cold_l2_tuning_metadata, ColdL2Evictor, ColdL2TuningMetadata,
    SearchStep, TimedRun,
};
use apxinf_cuda::fp8::calls::{
    native_fp8_gemm_supported, native_fp8_gemm_supported_for_device, set_cublaslt_gemm_bias_custom,
    set_cublaslt_gemm_custom, set_cublaslt_gemm_heuristic, set_cublaslt_gemm_split_custom, Alpha,
    CustomConfig, CustomKind, Fp8GemmKind, Fp8WeightView,
};
use apxinf_cuda::fp8::dual::Fp8DualGeGluMode;
use apxinf_cuda::fp8::fused::gemm_fp8_geglu_fused;
use apxinf_cuda::fp8::gemm::{check_gemm_fp8, gemm_fp8, Fp8Route};
use apxinf_cuda::fp8::install::{install_tuning_db, install_tuning_dbs, InstallStep, Seed, SeedAction};
use apxinf_cuda::fp8::tuning::{
    exact_fp8_tactic, selected_cutlass_tactic, tuning_key, GemmOp, GemmRecord, TacticBackend,
    TacticId, TacticStore, TuningRegistry,
};
use apxinf_cuda::kv_cache::kv_layer_bytes;
use apxinf_cuda::ops::attention::QkvTensors;
use apxinf_cuda::ops::gdn::{
    gdn_causal_conv_forward, gdn_causal_conv_step, gdn_chunk_scan, gdn_chunk_scan_interleaved,
    gdn_chunk_scan_operands,
    gdn_decay_and_beta, gdn_decay_and_beta_seq, gdn_gated_norm, gdn_gated_norm_seq,
    gdn_l2_normalize_heads, gdn_recurrent_step, gdn_state_elements,
};
use apxinf_cuda::ops::gemm::contracts::{alignment_of, normalize, PlanApi, Semantic};
use apxinf_cuda::ops::gemm::nvfp4_scales::{
    nvfp4_pack_block_scales, nvfp4_scale_buffer_bytes, nvfp4_scale_query,
};
use apxinf_cuda::ops::gemm::observer::{
    install_bf16_observer, observe, Bf16ActivationObserver, ObserverSlot,
};
use apxinf_cuda::ops::mlp::{add_into, quantize_fp8_per_tensor, rms_norm, swiglu};
use apxinf_cuda::ops::{
    segmented_attention, GemmArgs, PointwiseActivation, PointwiseSemantic, SegmentedAttentionArgs,
};
use apxinf_cuda::timing::EventRun;
use apxinf_cuda::workspace::{output_buffer, with_workspace, OutputBuffer};
use apxinf_cuda::{
    CudaBackend, CudaBuffer, CudaContext, CudaDeviceCaps, CudaEventTimer, CudaKVCache,
    CudaMemoryInfo, CudaStream, DType, Device, DeviceAllocation, Error, F32Bits, GraphWorkspace, ImageLayout, Shape,
    Storage, Tensor, ThreadState,
};

fn context() -> CudaContext {
    let caps = CudaDeviceCaps {
        compute_major: 10,
        compute_minor: 0,
        multiprocessor_count: 14,
        total_global_memory: 32 << 30,
    };
    CudaContext::new(0, CudaStream { device: 0, handle: 7 }, 9, Ok(caps)).unwrap()
}

fn buffer(ptr: usize, bytes: usize) -> CudaBuffer {
    CudaBuffer::from_raw_parts(ptr, bytes, 0, None)
}

fn tensor(ptr: usize, shape: &[usize], dtype: DType) -> Tensor {
    let bytes = shape.iter().product::<usize>() * dtype.size_in_bytes();
    buffer(ptr, bytes).as_tensor(Shape::new(shape.to_vec()), dtype).unwrap()
}

fn bits(value: f32) -> F32Bits {
    F32Bits::from_bits(value.to_bits())
}

fn failed<T>(text: &str) -> Result<T, Error> {
    Err(Error::Cuda(text.to_string()))
}

#[test]
fn memory_snapshot_checks_what_the_driver_reported() {
    let info = device_memory_info(0, Ok((3, 10))).unwrap();
    assert_eq!(info, CudaMemoryInfo { free_bytes: 3, total_bytes: 10 });
    assert_eq!(info.used_bytes(), 7);
    assert_eq!(CudaMemoryInfo { free_bytes: 10, total_bytes: 3 }.used_bytes(), 0);
    assert_eq!(
        device_memory_info(0, Ok((11, 10))).unwrap_err().message(),
        "CUDA returned invalid memory info: free=11, total=10"
    );
    assert_eq!(device_memory_info(0, failed("lost")).unwrap_err().message(), "lost");
    assert_eq!(
        device_memory_info(1 << 31, Ok((0, 0))).unwrap_err().message(),
        "CUDA device id 2147483648 does not fit in i32"
    );
    assert_eq!(device_ordinal((1 << 31) - 1).unwrap(), i32::MAX);
    assert_eq!(context().memory_info(Ok((1, 2))).unwrap().used_bytes(), 1);
}

#[test]
fn context_without_capabilities_gives_its_runtime_back() {
    let stream = CudaStream { device: 0, handle: 7 };
    let abandoned = CudaContext::new(0, stream, 9, failed("no caps")).unwrap_err();
    assert_eq!(abandoned.runtime, 9);
    assert_eq!(abandoned.error.message(), "no caps");
    let ctx = context();
    assert_eq!((ctx.device_id(), ctx.runtime(), ctx.stream().handle), (0, 9, 7));
    assert_eq!(ctx.synchronize().stream, stream);
    assert_eq!(ctx.caps().multiprocessor_count, 14);
}

#[test]
fn workspace_hands_out_aligned_disjoint_ranges_and_repeats_them() {
    let ctx = context();
    let mut thread = ThreadState::new();
    let mut workspace = GraphWorkspace::new(1024, Ok(buffer(4096, 1024))).unwrap();
    assert_eq!((workspace.capacity(), workspace.used()), (1024, 0));
    let mut traversals = Vec::new();
    for _ in 0..2 {
        let ranges = with_workspace(&mut thread, &mut workspace, |thread| {
            let mut ranges = Vec::new();
            for bytes in [1, 300, 0, 256] {
                match output_buffer(thread, &ctx, bytes)? {
                    OutputBuffer::Arena(range) => ranges.push((range.ptr(), range.len())),
                    OutputBuffer::Allocate { .. } => unreachable!(),
                }
            }
            Ok(ranges)
        })
        .unwrap();
        traversals.push(ranges);
    }
    assert_eq!(traversals[0], vec![(4096, 1), (4352, 300), (4864, 0), (4864, 256)]);
    assert_eq!(traversals[0], traversals[1]);
    assert_eq!(workspace.used(), 1024);
    assert_eq!(
        workspace.allocate(1, 0).unwrap_err().message(),
        "static inference workspace exhausted: need 1025 bytes, capacity is 1024 bytes"
    );
    assert_eq!(
        workspace.allocate(usize::MAX, 0).unwrap_err().message(),
        "static inference workspace size overflow"
    );
    assert_eq!(
        workspace.allocate(0, 3).unwrap_err().message(),
        "static inference workspace is on CUDA 0, but operation targets CUDA 3"
    );
}

#[test]
fn workspace_refuses_to_be_empty_or_nested() {
    assert_eq!(
        GraphWorkspace::new(0, Ok(buffer(0, 0))).unwrap_err().message(),
        "static inference workspace capacity must be non-zero"
    );
    assert_eq!(GraphWorkspace::new(8, failed("out of memory")).unwrap_err().message(), "out of memory");
    let mut thread = ThreadState::new();
    let mut outer = GraphWorkspace::new(256, Ok(buffer(0, 256))).unwrap();
    let mut inner = GraphWorkspace::new(256, Ok(buffer(256, 256))).unwrap();
    let result = with_workspace(&mut thread, &mut outer, |thread| {
        assert!(thread.has_active_workspace());
        assert!(!thread.is_preparing_workspace());
        assert!(!thread.may_prepare_native_resources());
        with_workspace(thread, &mut inner, |_| Ok(()))
    });
    assert_eq!(
        result.unwrap_err().message(),
        "nested static inference workspaces are not supported"
    );
    assert!(!thread.has_active_workspace());
    assert!(thread.may_prepare_native_resources());
}

#[test]
fn output_outside_a_workspace_is_to_be_allocated() {
    let ctx = context();
    let mut thread = ThreadState::new();
    match ctx.allocate_output(&mut thread, Shape::new(vec![3, 5]), DType::F16).unwrap() {
        OutputTensor::Allocate(request) => {
            assert_eq!((request.bytes, request.device), (30, 0));
            let tensor = request.bind(buffer(512, 30));
            assert_eq!(tensor.shape().dims(), &vec![3, 5]);
            assert_eq!(tensor.device(), Device::Cuda(0));
        }
        OutputTensor::Ready(_) => unreachable!(),
    }
    let huge = Shape::new(vec![usize::MAX, 2]);
    assert_eq!(
        ctx.allocate_output(&mut thread, huge, DType::F16).unwrap_err().message(),
        "CUDA output size overflow"
    );
}

#[test]
fn buffers_bind_and_overlap_by_their_addresses() {
    let whole = buffer(1000, 12);
    let head = whole.view(0, 8).unwrap();
    let tail = whole.view(8, 4).unwrap();
    assert!(!head.overlaps(&tail));
    assert!(whole.overlaps(&tail));
    assert!(!CudaBuffer::from_raw_parts(1000, 12, 1, None).overlaps(&whole));
    assert_eq!(
        whole.view(9, 4).unwrap_err().message(),
        "view of 4 bytes at 9 leaves a buffer of 12 bytes"
    );
    assert!(head.as_tensor(Shape::new(vec![2, 2]), DType::BF16).is_ok());
    assert_eq!(
        head.as_tensor(Shape::new(vec![2]), DType::BF16).unwrap_err().message(),
        "a buffer of 8 bytes does not hold the tensor exactly"
    );
    let host = Tensor::new(Shape::new(vec![2]), DType::I8, Storage::cpu_zeros(2));
    assert_eq!(CudaBuffer::from_tensor(&host).unwrap_err().message(), NOT_CUDA_TEXT);
}

#[test]
fn storage_gives_access_to_host_bytes_only() {
    let mut storage = Storage::cpu_from_bytes(vec![1, 2, 3]);
    assert_eq!((storage.len(), storage.is_empty()), (3, false));
    storage.as_cpu_mut().unwrap()[1] = 9;
    assert_eq!(storage.as_cpu().unwrap(), &[1, 9, 3]);
    assert!(storage.as_gpu().is_none());
    assert!(Storage::cpu_zeros(0).is_empty());
    assert_eq!(Storage::cpu_zeros(2).as_cpu().unwrap(), &[0, 0]);
    let device = tensor(640, &[4], DType::F32);
    let handle = device.storage().as_gpu().unwrap();
    assert_eq!((handle.ptr(), handle.len()), (640, 16));
    assert!(handle.owner().is_none());
    assert!(device.storage().as_cpu().is_none());
}

#[test]
fn reshape_keeps_the_number_of_elements() {
    let t = tensor(0, &[2, 6], DType::BF16);
    let r = t.reshape(Shape::new(vec![3, 4])).unwrap();
    assert_eq!(r.shape().dims(), &vec![3, 4]);
    assert_eq!(r.numel(), Some(12));
    assert_eq!(
        t.reshape(Shape::new(vec![5])).unwrap_err().message(),
        "reshape must preserve the number of elements"
    );
}

/// A cache of two layers, four tokens, one head of two values.
fn cache() -> CudaKVCache {
    let bytes = kv_layer_bytes(2, 1, 2, 4).unwrap();
    assert_eq!(bytes, 32);
    let k = vec![buffer(1024, bytes), buffer(2048, bytes)];
    let v = vec![buffer(3072, bytes), buffer(4096, bytes)];
    CudaKVCache::new(0, 2, 1, 2, 4, k, v).unwrap()
}

#[test]
fn kv_appends_are_adjacent_and_fix_the_type() {
    let ctx = context();
    let mut cache = cache();
    assert_eq!((cache.n_layers(), cache.seq_len(), cache.dtype()), (2, 0, None));
    let k = tensor(8192, &[3, 1, 2], DType::F16);
    let v = tensor(8448, &[3, 1, 2], DType::F16);
    let first = cache.append(&ctx, 1, &k, &v, 3).unwrap();
    assert_eq!((first.key.destination, first.key.source, first.key.bytes), (2048, 8192, 12));
    assert_eq!((first.value.destination, first.value.source, first.value.bytes), (4096, 8448, 12));
    assert_eq!(cache.dtype(), Some(DType::F16));
    cache.advance(3);
    let k1 = tensor(8192, &[1, 1, 2], DType::F16);
    let v1 = tensor(8448, &[1, 1, 2], DType::F16);
    let second = cache.append(&ctx, 1, &k1, &v1, 1).unwrap();
    assert_eq!(second.key.destination, first.key.destination + first.key.bytes);

    let other = tensor(8192, &[1, 1, 2], DType::BF16);
    assert!(cache.append(&ctx, 1, &other, &other, 1).is_err());
    assert_eq!(
        cache.append(&ctx, 2, &k1, &v1, 1).unwrap_err().message(),
        "CUDA KV cache layer 2 is out of range for 2 layers"
    );
    assert_eq!(
        cache.append(&ctx, 0, &k, &v, 3).unwrap_err().message(),
        "CUDA KV append ends at 6, beyond capacity 4"
    );
    assert_eq!(
        cache.append(&ctx, 0, &k, &v, 1).unwrap_err().message(),
        "shape mismatch: expected [1, 1, 2], got [3, 1, 2]"
    );
    assert_eq!(
        cache.append(&ctx, 0, &k, &v, 0).unwrap_err().message(),
        "CUDA KV append length must be non-zero"
    );
    assert_eq!(
        cache.append_without_stream().unwrap_err().message(),
        "CUDA KV append requires the backend stream; call Backend::kv_append"
    );

    let request = cache.clear().unwrap();
    assert_eq!(request.ranges.len(), 4);
    cache.finish_clear();
    assert_eq!((cache.seq_len(), cache.dtype()), (0, None));
    assert!(cache.append(&ctx, 1, &other, &other, 1).is_ok());
}

#[test]
fn kv_cache_refuses_empty_oversized_and_misfitting_geometry() {
    assert_eq!(
        kv_layer_bytes(1, 0, 2, 4).unwrap_err().message(),
        "CUDA KV cache dimensions must all be non-zero"
    );
    assert_eq!(
        kv_layer_bytes(1, usize::MAX, 2, 4).unwrap_err().message(),
        "CUDA KV cache size overflow"
    );
    assert_eq!(
        kv_layer_bytes(1, usize::MAX / 2, 1, 1).unwrap_err().message(),
        "CUDA KV cache byte size overflow"
    );
    let short = CudaKVCache::new(0, 1, 1, 2, 4, vec![buffer(0, 31)], vec![buffer(64, 32)]);
    assert_eq!(
        short.unwrap_err().message(),
        "CUDA KV cache allocations do not match its geometry"
    );
    let cache = cache();
    assert_eq!(cache.k_buffer(1).ptr(), 2048);
    assert_eq!(cache.v_buffer(0).ptr(), 3072);
    assert_eq!(
        cache.key_tensor(0, DType::BF16).unwrap().shape().dims(),
        &vec![1, 4, 1, 2]
    );
    assert!(cache.value_tensor(2, DType::BF16).is_err());
}

#[test]
fn cached_attention_takes_the_trailing_tokens() {
    let backend = CudaBackend::new(context());
    let mut thread = ThreadState::new();
    let mut cache = cache();
    let q = tensor(512, &[2, 2, 2], DType::F16);
    let fresh = backend.sdpa_decode(&mut thread, &q, &cache, 0, 2, 1, 2, 3, 4);
    assert_eq!(fresh.unwrap_err().message(), "KV Attention cache has not been initialized");
    let k = tensor(8192, &[3, 1, 2], DType::F16);
    let copies = backend.kv_append(&mut cache, 0, &k, &k, 3).unwrap();
    assert_eq!(copies.key.bytes, 12);
    let step = backend.sdpa_prefill(&mut thread, &q, &cache, 0, 2, 1, 2, 3, 4).unwrap();
    assert_eq!((step.valid_key_tokens, step.query_start), (3, 1));
    assert_eq!(step.query.shape().dims(), &vec![1, 2, 2, 2]);
    let output = match step.output {
        OutputTensor::Allocate(request) => request.bind(buffer(256, 16)),
        OutputTensor::Ready(_) => unreachable!(),
    };
    let launch = backend
        .sdpa_with_cache_into(
            &thread,
            &step.query,
            &step.key,
            &step.value,
            step.valid_key_tokens,
            step.query_start,
            &output,
        )
        .unwrap()
        .launch;
    assert_eq!((launch.key_tokens, launch.key_capacity, launch.query_start), (3, 4, 1));
    let rows = backend.attention_rows(&output, 2, 2, 2).unwrap();
    assert_eq!(rows.shape().dims(), &vec![2, 4]);

    let few = backend.sdpa_decode(&mut thread, &q, &cache, 0, 2, 1, 2, 1, 4);
    assert_eq!(few.unwrap_err().message(), "KV Attention has fewer keys than query tokens");
    let long = backend.sdpa_decode(&mut thread, &q, &cache, 0, 2, 1, 2, 5, 4);
    assert_eq!(long.unwrap_err().message(), "invalid portable KV Attention shape");
    let heads = backend.sdpa_decode(&mut thread, &q, &cache, 0, 2, 2, 2, 3, 4);
    assert_eq!(heads.unwrap_err().message(), "KV cache device or geometry does not match Attention");
    let half = tensor(512, &[2, 2, 2], DType::BF16);
    let typed = backend.sdpa_decode(&mut thread, &half, &cache, 0, 2, 1, 2, 3, 4);
    assert_eq!(typed.unwrap_err().message(), "dtype mismatch: expected F16, got BF16");
}

#[test]
fn joined_columns_tile_every_row() {
    let backend = CudaBackend::new(context());
    let mut thread = ThreadState::new();
    let a = tensor(256, &[3, 2], DType::F16);
    let b = tensor(512, &[3, 5], DType::F16);
    let step = backend.concat_2d(&mut thread, &[&a, &b]).unwrap();
    assert_eq!((step.rows, step.total_cols), (3, 7));
    let output = match step.output {
        OutputTensor::Allocate(request) => request.bind(buffer(1024, 42)),
        OutputTensor::Ready(_) => unreachable!(),
    };
    let copies = backend.concat_copies(&[&a, &b], &output).unwrap();
    assert_eq!((copies[0].offset, copies[0].width), (0, 4));
    assert_eq!((copies[1].offset, copies[1].width), (4, 10));
    assert!(copies.iter().all(|copy| copy.destination_pitch == 14 && copy.rows == 3));

    let c = tensor(768, &[2, 5], DType::F16);
    assert_eq!(
        backend.concat_2d(&mut thread, &[&a, &c]).unwrap_err().message(),
        "concat_2d inputs must have matching rows, dtype, and device"
    );
    assert_eq!(
        backend.concat_2d(&mut thread, &[]).unwrap_err().message(),
        "concat_2d requires inputs"
    );
    let flat = tensor(768, &[5], DType::F16);
    assert_eq!(
        backend.concat_2d(&mut thread, &[&flat]).unwrap_err().message(),
        "concat_2d requires matrices"
    );
}

#[test]
fn portable_operators_route_by_type_and_rank() {
    let backend = CudaBackend::new(context());
    let mut thread = ThreadState::new();
    assert_eq!(backend.device(), Device::Cuda(0));
    let row = tensor(256, &[8], DType::BF16);
    let step = match backend.rms_norm(&mut thread, &row).unwrap() {
        Route::Rows(step) => step,
        Route::Primitive => unreachable!(),
    };
    assert!(step.was_vector);
    assert_eq!(step.matrix.shape().dims(), &vec![1, 8]);
    let output = match step.output {
        OutputTensor::Allocate(request) => request.bind(buffer(512, 16)),
        OutputTensor::Ready(_) => unreachable!(),
    };
    assert_eq!(backend.restore_rows(output, true, &row).unwrap().shape().dims(), &vec![8]);

    let matrix = tensor(256, &[2, 4], DType::BF16);
    let bias = tensor(1024, &[4], DType::BF16);
    let written = tensor(512, &[2, 4], DType::BF16);
    let silu = backend.silu_into(&thread, &matrix, &written).unwrap().launch;
    let gelu = backend.gelu_tanh_into(&thread, &matrix, &written).unwrap().launch;
    let biased = backend.add_bias_into(&thread, &matrix, &bias, &written).unwrap().launch;
    for launch in [&silu, &gelu, &biased] {
        assert_eq!(launch.semantic, PointwiseSemantic::BiasActivation);
        assert_eq!((launch.rows, launch.cols, launch.input, launch.output), (2, 4, 256, 512));
    }
    assert_eq!((silu.activation, silu.bias), (PointwiseActivation::Silu, 0));
    assert_eq!((gelu.activation, gelu.bias), (PointwiseActivation::Gelu, 0));
    assert_eq!((biased.activation, biased.bias), (PointwiseActivation::Identity, 1024));

    let single = tensor(256, &[2, 4], DType::F32);
    assert!(matches!(backend.rms_norm(&mut thread, &single).unwrap(), Route::Primitive));
    assert!(matches!(backend.silu(&mut thread, &single).unwrap(), Route::Primitive));
    assert_eq!(
        backend.gelu_tanh(&mut thread, &single).unwrap_err().message(),
        "portable CUDA GELU does not support F32"
    );
    assert_eq!(
        backend.layer_norm(&mut thread, &single).unwrap_err().message(),
        "portable CUDA LayerNorm does not support F32"
    );
    let codes = tensor(256, &[2, 4], DType::I8);
    assert_eq!(
        backend.silu(&mut thread, &codes).unwrap_err().message(),
        "portable CUDA SiLU does not support I8"
    );
    let cube = tensor(256, &[2, 2, 2], DType::F16);
    assert_eq!(
        backend.add_bias(&mut thread, &cube).unwrap_err().message(),
        "pointwise activation requires a vector or matrix, got rank 3"
    );
    assert_eq!(
        backend.matmul(&mut thread, &single, &single).unwrap_err().message(),
        "portable CUDA matmul requires [M,K] @ [K,N], got [2, 4] and [2, 4]"
    );
    assert_eq!(
        backend.rope_mrope(&single, &[0; 5]).unwrap_err().message(),
        "mRoPE position count mismatch"
    );
    assert_eq!(backend.rope_mrope(&single, &[0; 6]).unwrap().count, 6);
    assert_eq!(backend.rope_vision_2d(&single, &[0; 4]).unwrap().count, 4);
    assert!(backend.rope_vision_2d(&single, &[0; 6]).is_err());
    assert_eq!(
        backend.embedding(&[]).unwrap_err().message(),
        "embedding requires at least one token"
    );
    assert_eq!(backend.embedding(&[4, 5]).unwrap().count, 2);
    assert_eq!(backend.begin_capture(), backend.begin_capture_relaxed());
}

#[test]
fn segments_partition_the_tokens() {
    let ctx = context();
    let thread = ThreadState::new();
    let t = tensor(4096, &[5, 2, 4], DType::F16);
    let out = tensor(8192, &[5, 2, 4], DType::F16);
    let launches = |offsets: &[u32]| {
        segmented_attention(&thread, &ctx, SegmentedAttentionArgs::new(&t, &t, &t, &out, offsets))
    };
    let parts = launches(&[0, 2, 2, 5]).unwrap().launch;
    assert_eq!(parts.len(), 2);
    assert_eq!((parts[0].query_tokens, parts[0].query, parts[0].output), (2, 4096, 8192));
    assert_eq!((parts[1].query_tokens, parts[1].query, parts[1].output), (3, 4128, 8224));
    for offsets in [&[0, 3, 2, 5][..], &[1, 5][..], &[0, 4][..], &[][..]] {
        assert_eq!(
            launches(offsets).unwrap_err().message(),
            "segmented Attention offsets must be monotonic and span all tokens"
        );
    }
}

#[test]
fn alignment_is_the_largest_power_of_two_up_to_the_limit() {
    for (ptr, bytes) in [(0, 256), (512, 256), (128, 128), (96, 32), (6, 2), (7, 1), (8, 8), (4, 4)] {
        assert_eq!(alignment_of(ptr), bytes);
    }
}

#[test]
fn gemm_requests_are_refused_for_what_they_lack() {
    let ctx = context();
    let a = tensor(1024, &[2, 4], DType::BF16);
    let b = tensor(2048, &[4, 6], DType::BF16);
    let out = tensor(3072, &[2, 6], DType::BF16);
    let bias = tensor(4096, &[6], DType::BF16);
    let check = |args, semantic, bias| normalize(&ctx, args, semantic, PlanApi::gemm(), bias);
    let ok = check(GemmArgs::new(&a, &b, &out), Semantic::Gemm, None).unwrap();
    assert_eq!((ok.spec.m, ok.spec.n, ok.spec.k), (2, 6, 4));
    assert!(ok.spec.unit_alpha && ok.spec.unit_output_scale);
    assert_eq!(ok.storage.len(), 3);
    assert_eq!(
        check(GemmArgs::new(&a, &b, &out), Semantic::Gemm, Some(&bias)).unwrap_err().message(),
        "GEMM bias does not belong to this semantic"
    );
    assert!(check(GemmArgs::new(&a, &b, &out), Semantic::GemmBias, Some(&bias)).is_ok());
    let flat = tensor(1024, &[8], DType::BF16);
    assert_eq!(
        check(GemmArgs::new(&flat, &b, &out), Semantic::Gemm, None).unwrap_err().message(),
        "GEMM A, B and output must be two-dimensional"
    );
    let other = tensor(2048, &[3, 6], DType::BF16);
    assert_eq!(
        check(GemmArgs::new(&a, &other, &out), Semantic::Gemm, None).unwrap_err().message(),
        "tensor shape does not match the operator contract"
    );
    let mut scaled = GemmArgs::new(&a, &b, &out);
    scaled.a_scales = Some(&bias);
    assert_eq!(
        check(scaled, Semantic::Gemm, None).unwrap_err().message(),
        "unscaled GEMM takes no row or channel scales"
    );
    let mut policy = GemmArgs::new(&a, &b, &out);
    policy.policy.cache_dir = Some("a\0b".to_string());
    let request = check(policy, Semantic::Gemm, None).unwrap();
    let mut thread = ThreadState::new();
    let refused = apxinf_cuda::ops::gemm::execution::prepare(&mut thread, &ctx, request);
    assert_eq!(refused.unwrap_err().message(), "cache path contains NUL");
}

#[test]
fn nvfp4_scales_are_sized_and_checked() {
    let ctx = context();
    let query = nvfp4_scale_query(3, 64, 16).unwrap();
    assert_eq!((query.rows, query.k, query.block_size), (3, 64, 16));
    assert_eq!(
        nvfp4_scale_query(0, 64, 16).unwrap_err().message(),
        "NVFP4 scale buffer needs a nonempty shape"
    );
    assert_eq!(nvfp4_scale_buffer_bytes(3, 64, 16, 512).unwrap(), 512);
    assert_eq!(
        nvfp4_scale_buffer_bytes(3, 64, 5, 0).unwrap_err().message(),
        "unsupported NVFP4 block size 5"
    );
    let source = tensor(1024, &[12], DType::F8E4M3);
    let destination = tensor(2048, &[512], DType::F8E4M3);
    let call = nvfp4_pack_block_scales(&ctx, &source, &destination, 3, 64, 16, 512).unwrap();
    assert_eq!((call.source, call.destination, call.rows, call.k), (1024, 2048, 3, 64));
    let few = tensor(1024, &[11], DType::F8E4M3);
    assert_eq!(
        nvfp4_pack_block_scales(&ctx, &few, &destination, 3, 64, 16, 512).unwrap_err().message(),
        "NVFP4 scale source holds 11 bytes, needs 12"
    );
    let small = tensor(2048, &[511], DType::F8E4M3);
    assert_eq!(
        nvfp4_pack_block_scales(&ctx, &source, &small, 3, 64, 16, 512).unwrap_err().message(),
        "NVFP4 scale destination holds 511 bytes, needs 512"
    );
}

struct Refusing;

impl Bf16ActivationObserver for Refusing {
    fn observe(&self, activation: &Tensor, _weight: &Tensor) -> Result<(), Error> {
        failed(&format!("saw {} elements", activation.numel().unwrap()))
    }
}

#[test]
fn one_observer_at_a_time_sees_bf16_operands() {
    let mut slot = ObserverSlot::new();
    let half = tensor(0, &[2, 3], DType::BF16);
    let single = tensor(0, &[2, 3], DType::F32);
    assert!(observe(&slot, &GemmArgs::new(&half, &half, &half)).is_ok());
    let guard = install_bf16_observer(&mut slot, Refusing).unwrap();
    assert_eq!(
        install_bf16_observer(&mut slot, Refusing).unwrap_err().message(),
        "a BF16 activation observer is already installed"
    );
    assert_eq!(
        observe(&slot, &GemmArgs::new(&half, &half, &half)).unwrap_err().message(),
        "saw 6 elements"
    );
    assert!(observe(&slot, &GemmArgs::new(&half, &single, &half)).is_ok());
    guard.release(&mut slot);
    assert!(observe(&slot, &GemmArgs::new(&half, &half, &half)).is_ok());
    assert!(install_bf16_observer(&mut slot, Refusing).is_ok());
}

#[test]
fn multilayer_calls_carry_their_extents() {
    let ctx = context();
    let x = tensor(1024, &[2, 4], DType::BF16);
    let y = tensor(2048, &[2, 4], DType::BF16);
    let w = tensor(4096, &[4], DType::BF16);
    let norm = rms_norm(&ctx, &x, &w, &y, bits(1.0e-6)).unwrap();
    assert_eq!((norm.rows, norm.width, norm.stream), (2, 4, 7));
    let fused = tensor(1024, &[2, 8], DType::BF16);
    let gated = swiglu(&ctx, &fused, &y).unwrap();
    assert_eq!((gated.rows, gated.width), (2, 4));
    assert_eq!(
        swiglu(&ctx, &x, &y).unwrap_err().message(),
        "SwiGLU input must be [rows, 2*width] for an output of [rows, width]"
    );
    assert_eq!(add_into(&ctx, &x, &y).unwrap().count, 8);
    assert_eq!(
        add_into(&ctx, &x, &fused).unwrap_err().message(),
        "residual add requires matching shapes"
    );
    let codes = tensor(2048, &[2, 4], DType::F8E4M3);
    assert_eq!(quantize_fp8_per_tensor(&ctx, &x, &codes, bits(0.5)).unwrap().count, 8);
    for scale in [0.0, -1.0, f32::NAN, f32::INFINITY] {
        assert_eq!(
            quantize_fp8_per_tensor(&ctx, &x, &codes, bits(scale)).unwrap_err().message(),
            "FP8 input_scale must be finite and positive"
        );
    }
}

#[test]
fn recurrent_layers_agree_on_their_state() {
    let ctx = context();
    assert_eq!(gdn_state_elements(2, 4, 4), 32);
    let f = DType::F32;
    let h = DType::BF16;
    // Two value heads and one key head of four values.
    let state = tensor(4096, &[2, 4, 4], f);
    let q = tensor(8192, &[8, 1, 4], h);
    let v = tensor(8448, &[8, 2, 4], h);
    let g = tensor(8704, &[8, 2], f);
    let beta = tensor(8960, &[8, 2], f);
    let out = tensor(9216, &[8, 2, 4], h);
    let scan = gdn_chunk_scan(&ctx, &q, &q, &v, &g, &beta, &out, &state, 2, 1, 4).unwrap();
    assert_eq!((scan.seq_padded, scan.num_chunks, scan.k_dim), (8, 2, 4));
    assert_eq!((scan.q_stride, scan.v_stride), (4, 8));
    assert_eq!(
        gdn_chunk_scan(&ctx, &q, &q, &v, &g, &beta, &out, &state, 2, 1, 3).unwrap_err().message(),
        "GDN chunk scan seq must be a multiple of chunk_size"
    );
    assert_eq!(
        gdn_chunk_scan(&ctx, &q, &q, &v, &g, &beta, &out, &state, 2, 1, 0).unwrap_err().message(),
        "GDN chunk size must be positive"
    );
    let long = tensor(4096, &[2, 4, 8], f);
    assert_eq!(
        gdn_chunk_scan(&ctx, &q, &q, &v, &g, &beta, &out, &long, 2, 1, 4).unwrap_err().message(),
        "GDN chunk scan expects square v_dim == k_dim state"
    );

    // The same operands side by side in rows of 20: q, k, v and a gap.
    let fused = tensor(8192, &[8, 20], h);
    let scan = gdn_chunk_scan_interleaved(&ctx, &fused, &g, &beta, &out, &state, 8, 20, [0, 4, 8], 2, 1, 4, 4)
        .unwrap();
    assert_eq!((scan.q, scan.k, scan.v), (8192, 8200, 8208));
    assert_eq!((scan.q_stride, scan.k_stride, scan.v_stride), (20, 20, 20));
    let past = gdn_chunk_scan_interleaved(&ctx, &fused, &g, &beta, &out, &state, 8, 20, [0, 4, 13], 2, 1, 4, 4);
    assert_eq!(past.unwrap_err().message(), "GDN chunk scan offsets run past the fused row");
}

#[test]
fn recurrent_steps_check_heads_and_windows() {
    let ctx = context();
    let f = DType::F32;
    let h = DType::BF16;
    let state = tensor(4096, &[3, 2, 2], f);
    let step = |k_heads: usize| {
        let q = tensor(8192, &[k_heads, 2], h);
        let v = tensor(8448, &[3, 2], h);
        let d = tensor(8704, &[3], f);
        let out = tensor(9216, &[3, 2], h);
        gdn_recurrent_step(&ctx, &state, &q, &q, &v, &d, &d, &out, k_heads)
    };
    assert_eq!(step(2).unwrap_err().message(), "GDN value heads must be a multiple of key heads");
    assert_eq!(step(0).unwrap_err().message(), "GDN value heads must be a multiple of key heads");
    let accepted = step(1).unwrap();
    assert_eq!((accepted.v_heads, accepted.k_heads, accepted.v_dim, accepted.k_dim), (3, 1, 2, 2));
    let window = tensor(4096, &[6, 4], f);
    let weight = tensor(6144, &[6, 4], h);
    let input = tensor(8192, &[6], h);
    let out = tensor(8448, &[6], h);
    let conv = gdn_causal_conv_step(&ctx, &window, &input, &weight, &out).unwrap();
    assert_eq!((conv.channels, conv.kernel_width, conv.window, conv.weight), (6, 4, 4096, 6144));
    assert_eq!(
        gdn_causal_conv_step(&ctx, &input, &input, &window, &out).unwrap_err().message(),
        "GDN conv window must be [channels, kernel_width]"
    );
    assert_eq!(
        gdn_gated_norm(&ctx, &input, &input, &input, &out, bits(1.0e-6)).unwrap_err().message(),
        "GDN gated norm expects [heads, head_dim]"
    );
    assert_eq!(
        gdn_l2_normalize_heads(&ctx, &input, bits(1.0e-6)).unwrap_err().message(),
        "GDN head normalization expects [heads, head_dim]"
    );
    assert_eq!(
        gdn_decay_and_beta(&ctx, &window, &window, &window, &window, &window, &window).unwrap_err().message(),
        "GDN gate inputs must be [heads]"
    );
    assert!(gdn_causal_conv_forward(&ctx, &input, &input, &input, None, 2, 6, 4).is_err());
    assert!(gdn_decay_and_beta_seq(&ctx, &input, &input, &input, &input, &input, &input, 2, 3).is_err());
    assert!(gdn_gated_norm_seq(&ctx, &input, &input, &input, &input, 2, 3, 1, bits(1.0e-6)).is_err());
}

fn record(ctx: &CudaContext, m: usize, n: usize, k: usize, backend: TacticBackend, value: i32) -> GemmRecord {
    GemmRecord { key: tuning_key(ctx, m, n, k), tactic: TacticId { backend, value } }
}

fn store(records: &[GemmRecord]) -> TacticStore {
    let mut store = TacticStore::new();
    for record in records {
        store.record(*record).unwrap();
    }
    store
}

fn installed(records: &[GemmRecord]) -> TuningRegistry {
    let mut registry = TuningRegistry::new();
    registry.install(store(records)).unwrap();
    registry
}

#[test]
fn stores_are_seeded_once_and_published_whole() {
    let ctx = context();
    let first = record(&ctx, 8, 1024, 64, TacticBackend::CublasLt, 5);
    let second = record(&ctx, 16, 1024, 64, TacticBackend::Cutlass, 2);
    let mut registry = TuningRegistry::new();
    let plan = match install_tuning_dbs(&registry, vec![store(&[first]), store(&[second])]).unwrap() {
        InstallStep::Seed(plan) => plan,
        InstallStep::AlreadyInstalled => unreachable!(),
    };
    assert!(plan.refusal.is_none());
    assert_eq!(plan.actions, vec![SeedAction { seed: Seed::Fp8Heuristic, m: 8, n: 1024, k: 64, value: 5 }]);
    plan.finish(&mut registry, Ok(())).unwrap();
    assert_eq!(exact_fp8_tactic(&registry, &ctx, 16, 1024, 64), Some(second.tactic));
    assert_eq!(exact_fp8_tactic(&registry, &ctx, 17, 1024, 64), None);

    // Installing the same again asks for nothing, in any order; anything else
    // is refused.
    let again = install_tuning_dbs(&registry, vec![store(&[second]), store(&[first])]);
    assert!(matches!(again.unwrap(), InstallStep::AlreadyInstalled));
    let other = install_tuning_db(&registry, store(&[first]));
    assert_eq!(other.unwrap_err().message(), "a different CUDA tactic store is already installed");
}

#[test]
fn unsupported_records_keep_a_store_from_being_published() {
    let ctx = context();
    let bad = record(&ctx, 521, 32768, 2048, TacticBackend::CutlassFp8DualGeGlu, 0);
    let mut registry = TuningRegistry::new();
    match install_tuning_db(&registry, store(&[bad])).unwrap() {
        InstallStep::Seed(plan) => {
            assert!(plan.actions.is_empty());
            assert!(plan.finish(&mut registry, Ok(())).is_err());
        }
        InstallStep::AlreadyInstalled => unreachable!(),
    }
    assert!(registry.installed().is_none());

    let mut half = record(&ctx, 8, 64, 64, TacticBackend::CublasLtCustomBias, 1);
    half.key.op = GemmOp::Bf16;
    match install_tuning_db(&registry, store(&[half])).unwrap() {
        InstallStep::Seed(plan) => assert_eq!(
            plan.finish(&mut registry, Ok(())).unwrap_err().message(),
            "cublaslt_custom_bias does not support tuning operation Bf16"
        ),
        InstallStep::AlreadyInstalled => unreachable!(),
    }
    match install_tuning_db(&registry, TacticStore::new()).unwrap() {
        InstallStep::Seed(plan) => assert_eq!(
            plan.finish(&mut registry, failed("seed lost")).unwrap_err().message(),
            "seed lost"
        ),
        InstallStep::AlreadyInstalled => unreachable!(),
    }
    assert!(registry.installed().is_none());
}

#[test]
fn merged_stores_refuse_conflicting_tactics() {
    let ctx = context();
    let one = record(&ctx, 8, 1024, 64, TacticBackend::Cutlass, 1);
    let two = record(&ctx, 8, 1024, 64, TacticBackend::Cutlass, 2);
    let merged = TacticStore::merge(vec![store(&[one]), store(&[one])]).unwrap();
    assert_eq!(merged.lookup_exact(&one.key), Some(one.tactic));
    assert_eq!(merged.gemm_records().len(), 1);
    assert_eq!(
        TacticStore::merge(vec![store(&[one]), store(&[two])]).unwrap_err().message(),
        "conflicting CUDA tactics for one tuning key"
    );
}

#[test]
fn cutlass_tactic_follows_records_and_then_the_row_count() {
    let cutlass = Some(TacticId { backend: TacticBackend::Cutlass, value: 6 });
    let vendor = Some(TacticId { backend: TacticBackend::Vendor, value: 6 });
    assert_eq!(selected_cutlass_tactic(cutlass, None, 1), 6);
    assert_eq!(selected_cutlass_tactic(None, cutlass, 1), 6);
    assert_eq!(selected_cutlass_tactic(vendor, cutlass, 1), 0);
    for (m, tactic) in [(16, 0), (17, 1), (64, 1), (65, 2), (256, 2), (257, 3)] {
        assert_eq!(selected_cutlass_tactic(None, None, m), tactic);
    }
}

#[test]
fn library_settings_check_ranks_and_tactics() {
    assert_eq!(set_cublaslt_gemm_heuristic(1, 2, 3, 63).unwrap().rank, 63);
    for rank in [-1, 64] {
        assert_eq!(
            set_cublaslt_gemm_heuristic(1, 2, 3, rank).unwrap_err().message(),
            format!("invalid static inference cuBLASLt heuristic rank {rank}")
        );
    }
    let config = CustomConfig { tile_id: 1, custom_option: 2, stages_id: 3, cluster_shape_id: 4 };
    let plain = set_cublaslt_gemm_custom(1, 2, 3, 9, Some(config)).unwrap();
    assert_eq!((plain.kind, plain.config), (CustomKind::Plain, config));
    assert_eq!(
        set_cublaslt_gemm_custom(1, 2, 3, 9, None).unwrap_err().message(),
        "invalid static inference cuBLASLt custom tactic 9"
    );
    assert_eq!(
        set_cublaslt_gemm_bias_custom(1, 2, 3, -9, None).unwrap_err().message(),
        "invalid static inference cuBLASLt fused-bias custom tactic -9"
    );
    assert_eq!(
        set_cublaslt_gemm_split_custom(1, 2, 3, 9, None).unwrap_err().message(),
        "invalid static inference cuBLASLt split-serial custom tactic 9"
    );
    assert_eq!(native_fp8_gemm_supported(&context()), native_fp8_gemm_supported_for_device(0));
    assert!(native_fp8_gemm_supported_for_device(3).answered(Ok(2)).unwrap());
    assert!(!native_fp8_gemm_supported_for_device(3).answered(Ok(0)).unwrap());
}

fn plain_weight(values: &Tensor) -> Fp8WeightView<'_> {
    Fp8WeightView {
        values_e4m3: values,
        scale: bits(0.5),
        dual_geglu_interleaved: false,
        dual_geglu_auto_interleaved: None,
    }
}

#[test]
fn static_fp8_products_are_checked_in_order() {
    let ctx = context();
    let mut thread = ThreadState::new();
    let a = tensor(1024, &[2, 4], DType::F8E4M3);
    let b = tensor(2048, &[4, 6], DType::F8E4M3);
    let half = tensor(2048, &[4, 6], DType::F16);
    let wrong = tensor(2048, &[3, 6], DType::F8E4M3);
    let mut interleaved = plain_weight(&half);
    interleaved.dual_geglu_interleaved = true;
    assert_eq!(
        gemm_fp8(&mut thread, &ctx, &a, bits(0.0), interleaved).unwrap_err().message(),
        "FP8 dual GeGLU interleaved Gate/Up weight cannot be used by plain FP8 GEMM"
    );
    assert_eq!(
        gemm_fp8(&mut thread, &ctx, &a, bits(0.0), plain_weight(&half)).unwrap_err().message(),
        "gemm_fp8 expects E4M3 operands, got F8E4M3 and F16"
    );
    assert_eq!(
        gemm_fp8(&mut thread, &ctx, &a, bits(0.0), plain_weight(&wrong)).unwrap_err().message(),
        "gemm_fp8 scales must be finite and positive"
    );
    let scales = gemm_fp8(&mut thread, &ctx, &a, bits(0.0), plain_weight(&wrong)).unwrap_err();
    assert_eq!(
        scales.message_with_scales("0", "0.5", "7"),
        "gemm_fp8 scales must be finite and positive, got activation=0, weight=0.5"
    );
    let fused = Error::Fp8Scales {
        what: "FP8 fused GeGLU",
        activation_scale: bits(f32::NAN),
        weight_scale: bits(0.5),
        output_scale: Some(bits(-2.0)),
    };
    assert_eq!(
        fused.message_with_scales("NaN", "0.5", "-2"),
        "FP8 fused GeGLU scales must be finite and positive, got activation=NaN, weight=0.5, output=-2"
    );
    assert_eq!(Error::Other("lost").message_with_scales("0", "1", "2"), "lost");
    assert_eq!(
        gemm_fp8(&mut thread, &ctx, &a, bits(2.0), plain_weight(&wrong)).unwrap_err().message(),
        "gemm_fp8 shape mismatch: [2, 4] @ [3, 6]"
    );
    let elsewhere = CudaBuffer::from_raw_parts(1024, 8, 1, None)
        .as_tensor(Shape::new(vec![2, 4]), DType::F8E4M3)
        .unwrap();
    assert_eq!(
        gemm_fp8(&mut thread, &ctx, &elsewhere, bits(2.0), plain_weight(&b)).unwrap_err().message(),
        "device mismatch: expected cuda:0, got cuda:1"
    );
    let step = gemm_fp8(&mut thread, &ctx, &a, bits(2.0), plain_weight(&b)).unwrap();
    assert_eq!((step.problem.m, step.problem.n, step.problem.k), (2, 6, 4));
    match step.output {
        OutputTensor::Allocate(request) => assert_eq!(request.bytes, 24),
        OutputTensor::Ready(_) => unreachable!(),
    }
}

#[test]
fn static_fp8_products_take_the_route_of_their_record() {
    let ctx = context();
    let mut thread = ThreadState::new();
    let a = tensor(1024, &[2, 16], DType::F8E4M3);
    let b = tensor(2048, &[16, 1024], DType::F8E4M3);
    let step = gemm_fp8(&mut thread, &ctx, &a, bits(2.0), plain_weight(&b)).unwrap();
    let problem = step.problem;
    let output = buffer(65536, 4096);
    let empty = TuningRegistry::new();

    // Without a record the suiting kernel is tried, with a library plan behind it.
    match problem.route(&thread, &ctx, &empty, &output, Ok(false), None, true).unwrap() {
        Fp8Route::Cutlass { call, otherwise } => {
            assert_eq!((call.tactic, call.m, call.n, call.k), (0, 2, 1024, 16));
            assert_eq!(call.alpha, Alpha { activation: bits(2.0), weight: bits(0.5) });
            assert!(!otherwise.prepare.unwrap().split);
        }
        other => panic!("unexpected route {other:?}"),
    }
    // A record of the library is followed, in halves where it says so.
    let split = installed(&[record(&ctx, 2, 1024, 16, TacticBackend::CublasLtCustomSplitSerial, 3)]);
    match problem.route(&thread, &ctx, &split, &output, Ok(false), None, true).unwrap() {
        Fp8Route::Library(plan) => {
            assert_eq!(plan.call.kind, Fp8GemmKind::Split);
            assert!(plan.prepare.unwrap().split);
        }
        other => panic!("unexpected route {other:?}"),
    }
    // Nothing is created during a prepared traversal.
    let mut workspace = GraphWorkspace::new(256, Ok(buffer(0, 256))).unwrap();
    with_workspace(&mut thread, &mut workspace, |thread| {
        match problem.route(thread, &ctx, &empty, &output, Ok(false), None, false)? {
            Fp8Route::Library(plan) => assert!(plan.prepare.is_none()),
            other => panic!("unexpected route {other:?}"),
        }
        Ok(())
    })
    .unwrap();
    match problem.route(&thread, &ctx, &empty, &output, Ok(true), None, true).unwrap() {
        Fp8Route::Emulated(plan) => {
            assert_eq!((plan.activation_bytes, plan.weight_bytes), (64, 32768));
            let calls = problem.emulated_calls(&ctx, &plan, &buffer(8, 64), &buffer(128, 32768), &output);
            assert_eq!((calls.decode_activation.elements, calls.decode_activation.scale), (32, bits(2.0)));
            assert_eq!((calls.decode_weight.elements, calls.decode_weight.scale), (16384, bits(0.5)));
            assert_eq!((calls.product.a, calls.product.b, calls.product.output), (8, 128, 65536));
        }
        other => panic!("unexpected route {other:?}"),
    }
    let lost = problem.route(&thread, &ctx, &empty, &output, failed("query lost"), None, true);
    assert_eq!(lost.unwrap_err().message(), "query lost");
}

#[test]
fn fused_geglu_runs_only_what_its_record_selects() {
    let ctx = context();
    let fp8 = DType::F8E4M3;
    let a = tensor(1 << 20, &[778, 2048], fp8);
    let b = tensor(1 << 30, &[2048, 32768], fp8);
    let weight = plain_weight(&b);
    let fused = |registry: &TuningRegistry, a: &Tensor| {
        gemm_fp8_geglu_fused(registry, &ctx, a, bits(2.0), weight, bits(0.25))
    };
    assert!(fused(&TuningRegistry::new(), &a).unwrap().is_none());

    let backend = TacticBackend::CublasLtCustomSplitGeGluCutlass2SmAuto;
    let registry = installed(&[
        record(&ctx, 778, 32768, 2048, backend, 4),
        record(&ctx, 777, 32768, 2048, backend, 4),
    ]);
    let problem = fused(&registry, &a).unwrap().unwrap();
    assert_eq!((problem.tactic, problem.dual), (1, false));
    let short = tensor(1 << 20, &[777, 2048], fp8);
    assert_eq!(
        fused(&registry, &short).unwrap_err().message(),
        "fused FP8 GeGLU backend is tuned only for [778,2048] @ [2048,32768], \
         got [777,2048] @ [2048,32768]"
    );

    let select = |emulated, mode, cutlass| problem.select_weight(&ctx, weight, emulated, mode, cutlass);
    assert_eq!(
        select(Ok(true), Ok(Fp8DualGeGluMode::Auto), true).unwrap_err().message(),
        "FP8 fused GeGLU requires native FP8 Tensor Cores"
    );
    assert_eq!(
        select(Ok(false), Ok(Fp8DualGeGluMode::Auto), false).unwrap_err().message(),
        "FP8 fused GeGLU requires the SM100-family CUTLASS build"
    );
    assert!(select(Ok(false), Ok(Fp8DualGeGluMode::On), true).is_err());
    let selected = select(Ok(false), Ok(Fp8DualGeGluMode::Off), true).unwrap();
    assert_eq!(selected.ptr(), 1 << 30);

    let mut thread = ThreadState::new();
    match problem.request_gate(&mut thread, &ctx).unwrap() {
        OutputBuffer::Allocate { bytes, .. } => assert_eq!(bytes, 778 * 32768 * 2),
        OutputBuffer::Arena(_) => unreachable!(),
    }
    match problem.request_output(&mut thread, &ctx).unwrap() {
        OutputTensor::Allocate(request) => assert_eq!(request.bytes, 778 * 16384),
        OutputTensor::Ready(_) => unreachable!(),
    }
    let calls = problem.gated_calls(
        &thread,
        &ctx,
        &buffer(16, 1),
        &selected,
        &buffer(32, 1),
        &buffer(48, 1),
    );
    assert_eq!(calls.gate.kind, Fp8GemmKind::SplitFirst);
    assert_eq!((calls.fused.n, calls.fused.full_n, calls.fused.tactic), (16384, 32768, 1));
    assert!(problem.kernel_outcome(0).is_ok());
    assert_eq!(
        problem.kernel_outcome(7).unwrap_err().message(),
        "FP8 fused GeGLU CUTLASS fused GeGLU rejected [778,16384,2048] (7)"
    );
}

#[test]
fn dual_geglu_reads_the_interleaved_copy() {
    let ctx = context();
    let fp8 = DType::F8E4M3;
    let a = tensor(1 << 20, &[533, 2048], fp8);
    let b = tensor(1 << 30, &[2048, 32768], fp8);
    let copy = tensor(1 << 31, &[2048, 32768], fp8);
    let mut weight = plain_weight(&b);
    weight.dual_geglu_auto_interleaved = Some(&copy);
    let registry = installed(&[record(&ctx, 533, 32768, 2048, TacticBackend::CutlassFp8DualGeGlu, 0)]);
    let problem = gemm_fp8_geglu_fused(&registry, &ctx, &a, bits(2.0), weight, bits(0.25)).unwrap().unwrap();
    assert!(problem.dual);
    let auto = || Ok(Fp8DualGeGluMode::Auto);
    let selected = problem.select_weight(&ctx, weight, Ok(false), auto(), true).unwrap();
    assert_eq!(selected.ptr(), 1 << 31);
    let call = problem.dual_call(&ctx, &buffer(16, 1), &selected, &buffer(48, 1));
    assert_eq!((call.m, call.n, call.k, call.full_n), (533, 16384, 2048, 32768));
    assert_eq!(
        problem.kernel_outcome(-2).unwrap_err().message(),
        "FP8 dual-GEMM GeGLU rejected [533,16384,2048] (-2)"
    );
    let narrow = tensor(1 << 31, &[2048, 16], fp8);
    weight.dual_geglu_auto_interleaved = Some(&narrow);
    assert_eq!(
        problem.select_weight(&ctx, weight, Ok(false), auto(), true).unwrap_err().message(),
        "FP8 dual GeGLU selected weight must be E4M3 [2048, 32768], got F8E4M3 [2048, 16]"
    );
}

#[test]
fn eviction_buffer_is_four_caches_in_whole_blocks() {
    let metadata = cold_l2_tuning_metadata(Ok(1000)).unwrap();
    assert_eq!(metadata, ColdL2TuningMetadata { l2_cache_bytes: 1000, eviction_buffer_bytes: 4096 });
    assert_eq!(cold_l2_tuning_metadata(Ok(64)).unwrap().eviction_buffer_bytes, 256);
    for reported in [0, -1] {
        assert_eq!(
            cold_l2_tuning_metadata(Ok(reported)).unwrap_err().message(),
            "CUDA reported an empty L2 cache"
        );
    }
    let mut evictor = ColdL2Evictor::new(metadata, Ok(buffer(512, 4096))).unwrap();
    assert_eq!(evictor.evict(7).seed, 1);
    evictor.seed = u32::MAX;
    let wrapped = evictor.evict(7);
    assert_eq!((wrapped.seed, wrapped.bytes, wrapped.buffer), (0, 4096, 512));
    assert!(ColdL2Evictor::new(metadata, failed("no memory")).is_err());
}

#[test]
fn search_times_every_tactic_that_warms_up() {
    let ctx = context();
    let a = tensor(1024, &[2, 16], DType::F8E4M3);
    let b = tensor(2048, &[16, 32], DType::F8E4M3);
    let tuning = autotune_cutlass_gemm_f16(&ctx, &a, &b, bits(2.0), bits(0.5), 1, 2, true).unwrap();
    assert_eq!(tuning.output_bytes, 128);
    let metadata = cold_l2_tuning_metadata(Ok(64)).unwrap();
    let evictor = ColdL2Evictor::new(metadata, Ok(buffer(512, 256))).unwrap();
    let mut step = tuning.begin(buffer(4096, 128), evictor);
    let mut seeds = Vec::new();
    let timings = loop {
        step = match step {
            SearchStep::Warm(warm) => {
                seeds.push(warm.run.evict.seed);
                // Odd tactics turn the shape down.
                let status = warm.run.launch.unwrap().tactic % 2;
                warm.done(Ok(()), status)
            }
            SearchStep::Settle(settle) => settle.done(Ok(())).unwrap(),
            SearchStep::Measure(measure) => {
                seeds.push(measure.run.evict.seed);
                let tactic = measure.run.launch.unwrap().tactic;
                let elapsed = Ok(bits(tactic as f32 + 0.5));
                measure.done(TimedRun { evicted: Ok(()), started: Ok(()), status: 0, elapsed }).unwrap()
            }
            SearchStep::Finished(timings) => break timings,
        };
    };
    assert_eq!(timings.iter().map(|timing| timing.tactic).collect::<Vec<_>>(), vec![0, 2, 4, 6]);
    for timing in &timings {
        assert_eq!(timing.samples, vec![bits(timing.tactic as f32 + 0.5); 2]);
    }
    assert_eq!(seeds, (1..=16).collect::<Vec<u32>>());
}

#[test]
fn search_stops_at_a_failed_wait_or_measurement() {
    let ctx = context();
    let a = tensor(1024, &[2, 16], DType::F8E4M3);
    let b = tensor(2048, &[16, 32], DType::F8E4M3);
    let metadata = cold_l2_tuning_metadata(Ok(64)).unwrap();
    let begin = || {
        let tuning = autotune_cutlass_gemm_f16(&ctx, &a, &b, bits(2.0), bits(0.5), 0, 1, true).unwrap();
        let evictor = ColdL2Evictor::new(metadata, Ok(buffer(512, 256))).unwrap();
        match tuning.begin(buffer(4096, 128), evictor) {
            SearchStep::Settle(settle) => settle,
            other => panic!("unexpected step {other:?}"),
        }
    };
    assert_eq!(begin().done(failed("stream lost")).unwrap_err().message(), "stream lost");
    let measure = || match begin().done(Ok(())).unwrap() {
        SearchStep::Measure(measure) => measure,
        other => panic!("unexpected step {other:?}"),
    };
    let run = |evicted, started, status, elapsed| TimedRun { evicted, started, status, elapsed };
    let one = || Ok(bits(1.0));
    assert_eq!(
        measure().done(run(failed("evict"), failed("start"), 5, one())).unwrap_err().message(),
        "evict"
    );
    assert_eq!(
        measure().done(run(Ok(()), failed("start"), 5, one())).unwrap_err().message(),
        "start"
    );
    assert_eq!(
        measure().done(run(Ok(()), Ok(()), 5, one())).unwrap_err().message(),
        "CUTLASS tactic 0 rejected shape [2,32,16] (5)"
    );
    assert_eq!(
        measure().done(run(Ok(()), Ok(()), 0, failed("elapsed"))).unwrap_err().message(),
        "elapsed"
    );

    let check = |a, b, iterations, cutlass| {
        autotune_cutlass_gemm_f16(&ctx, a, b, bits(1.0), bits(1.0), 1, iterations, cutlass).unwrap_err().message()
    };
    assert_eq!(check(&a, &b, 1, false), "CUTLASS FP8 autotune requires an SM100-family CUDA build");
    assert_eq!(check(&a, &b, 0, true), "CUTLASS autotune iterations must be non-zero");
    let odd = tensor(2048, &[16, 33], DType::F8E4M3);
    assert_eq!(check(&a, &odd, 1, true), "CUTLASS autotune expects aligned FP8 [M,K] @ [K,N]");
}

#[test]
fn library_autotune_reports_the_algorithms_that_ran() {
    let ctx = context();
    let a = tensor(1024, &[2, 16], DType::F8E4M3);
    let b = tensor(2048, &[16, 32], DType::F8E4M3);
    let tune = |algorithms, iterations| {
        autotune_cublaslt_gemm_f16(&ctx, &a, &b, bits(2.0), bits(0.5), algorithms, 1, iterations)
    };
    for (algorithms, iterations) in [(0, 1), (65, 1), (1, 0)] {
        assert_eq!(
            tune(algorithms, iterations).unwrap_err().message(),
            "cuBLASLt autotune expects 1..=64 algorithms and non-zero iterations"
        );
    }
    let tuning = tune(4, 3).unwrap();
    let metadata = cold_l2_tuning_metadata(Ok(64)).unwrap();
    let evictor = ColdL2Evictor::new(metadata, Ok(buffer(512, 256))).unwrap();
    let call = tuning.call(&buffer(4096, 128), &evictor).unwrap();
    assert_eq!((call.max_algorithms, call.iterations, call.eviction_bytes), (4, 3, 256));
    let times = vec![bits(0.5), bits(-1.0), bits(0.0), bits(f32::NAN)];
    let ranks = |returned| -> Vec<(i32, F32Bits)> {
        tuning
            .timings(Ok(returned), &times)
            .unwrap()
            .iter()
            .map(|timing| (timing.heuristic_rank, timing.milliseconds))
            .collect()
    };
    assert_eq!(ranks(4), vec![(0, bits(0.5)), (2, bits(0.0))]);
    assert_eq!(ranks(2), vec![(0, bits(0.5))]);
    assert_eq!(ranks(9), ranks(4));
    // Times beyond the algorithms asked for are not reported.
    let fewer = tune(1, 3).unwrap();
    let reported = fewer.timings(Ok(9), &vec![bits(0.5), bits(0.25), bits(0.125)]).unwrap();
    assert_eq!(reported.len(), 1);
    assert_eq!((reported[0].heuristic_rank, reported[0].milliseconds), (0, bits(0.5)));
    assert!(tuning.timings(Ok(4), &vec![]).unwrap().is_empty());
    assert!(ranks(-3).is_empty());
    assert_eq!(tuning.timings(failed("lost"), &times).unwrap_err().message(), "lost");
    let host = Tensor::new(Shape::new(vec![2, 16]), DType::F8E4M3, Storage::cpu_zeros(32));
    let unbound = autotune_cublaslt_gemm_f16(&ctx, &host, &b, bits(2.0), bits(0.5), 4, 1, 3).unwrap();
    assert_eq!(unbound.call(&buffer(4096, 128), &evictor).unwrap_err().message(), NOT_CUDA_TEXT);
}

#[test]
fn timer_reports_the_first_failure() {
    let ctx = context();
    let abandoned = CudaEventTimer::new(&ctx, 11, failed("no event")).unwrap_err();
    assert_eq!((abandoned.event, abandoned.error.message()), (11, "no event".to_string()));
    let timer = CudaEventTimer::new(&ctx, 11, Ok(12)).unwrap();
    let calls = timer.measure();
    assert_eq!((calls.before.event, calls.after.event, calls.before.stream), (11, 12, 7));
    let run = |operation: Result<u8, Error>, stopped| EventRun {
        selected: Ok(()),
        started: Ok(()),
        operation,
        stopped,
        waited: Ok(()),
        elapsed: Ok(bits(1.5)),
    };
    assert_eq!(calls.finish(run(Ok(5), Ok(()))).unwrap(), (5, bits(1.5)));
    assert_eq!(calls.finish(run(failed("op"), failed("stop"))).unwrap_err().message(), "op");
    assert_eq!(calls.finish(run(Ok(5), failed("stop"))).unwrap_err().message(), "stop");
}

#[test]
fn layouts_and_ranges_have_their_names() {
    assert_eq!(ImageLayout::Nhwc.name(), "nhwc");
    assert_eq!(ImageLayout::Nchw.name(), "nchw");
    let _range = apxinf_cuda::nvtx::range("decode");
    let t = || tensor(0, &[1], DType::F16);
    let split = QkvTensors { q: t(), k: t(), v: t() };
    assert_eq!(split.q.dtype(), split.v.dtype());
}

#[test]
fn chunk_scan_answers_refused_requests_whatever_their_extents() {
    let ctx = context();
    let x = tensor(256, &[1], DType::BF16);
    let state = tensor(4096, &[1, 4, 4], DType::F32);
    let scan = |v_heads: usize, k_heads: usize, chunk: usize| {
        gdn_chunk_scan(&ctx, &x, &x, &x, &x, &x, &x, &state, v_heads, k_heads, chunk)
            .unwrap_err()
            .message()
    };
    assert_eq!(scan(1, usize::MAX, 0), "GDN value heads must be a multiple of key heads");
    assert_eq!(scan(1, 0, 0), "GDN value heads must be a multiple of key heads");
    assert_eq!(scan(usize::MAX, 1, 0), "GDN chunk scan expects square v_dim == k_dim state");
    assert_eq!(scan(1, 1, 0), "GDN chunk size must be positive");
    let operands = gdn_chunk_scan_operands(&ctx, &x, &x, &x, &x, &x, &x, &state, 1, 1, 1);
    assert_eq!(operands.unwrap_err().message(), "GDN chunk scan q must be [seq, k_heads, k_dim]");
    let q = tensor(8192, &[2, 1, 4], DType::BF16);
    let g = tensor(16384, &[2, 1], DType::F32);
    let operands =
        gdn_chunk_scan_operands(&ctx, &q, &q, &q, &g, &g, &q, &state, 1, 1, 1).unwrap();
    assert_eq!((operands.q, operands.state, operands.seq_padded, operands.k_dim), (8192, 4096, 2, 4));
}

#[test]
fn arena_keeps_its_capacity_and_empties_only_on_entry() {
    let ctx = context();
    let mut thread = ThreadState::new();
    let mut workspace = GraphWorkspace::new(1024, Ok(buffer(4096, 1024))).unwrap();
    workspace.allocate(10, 0).unwrap();
    assert_eq!((workspace.capacity(), workspace.used()), (1024, 10));
    workspace.allocate(2000, 0).unwrap_err();
    assert_eq!((workspace.capacity(), workspace.used()), (1024, 10));
    workspace.allocate(10, 0).unwrap();
    assert_eq!((workspace.capacity(), workspace.used()), (1024, 266));
    with_workspace(&mut thread, &mut workspace, |thread| {
        output_buffer(thread, &ctx, 5)?;
        Ok(())
    })
    .unwrap();
    assert_eq!((workspace.capacity(), workspace.used()), (1024, 5));
    with_workspace(&mut thread, &mut workspace, |_| Ok(())).unwrap();
    assert_eq!((workspace.capacity(), workspace.used()), (1024, 0));
    // Whatever a traversal does to its thread, the arena stays the same one.
    let mut other = GraphWorkspace::new(256, Ok(buffer(8192, 256))).unwrap();
    with_workspace(&mut thread, &mut workspace, |thread| {
        let mut second = ThreadState::new();
        with_workspace(&mut second, &mut other, |second| {
            std::mem::swap(thread, second);
            Ok(())
        })
    })
    .unwrap();
    assert_eq!((workspace.capacity(), workspace.used()), (1024, 0));
    assert_eq!((other.capacity(), other.used()), (256, 0));
}

#[test]
fn handles_share_the_ownership_of_their_allocation() {
    let share = Arc::new(DeviceAllocation { id: 3 });
    let alive = Arc::downgrade(&share);
    let whole = CudaBuffer::from_raw_parts(1024, 64, 0, Some(share));
    let part = whole.view(16, 32).unwrap();
    let bound = part.as_tensor(Shape::new(vec![16]), DType::F16).unwrap();
    let reshaped = bound.reshape(Shape::new(vec![4, 4])).unwrap();
    assert!(whole.is_same(&whole.clone()));
    assert!(!whole.is_same(&part));
    assert!(!whole.is_same(&buffer(1024, 64)));
    assert_eq!(reshaped.storage().as_gpu().unwrap().owner().unwrap().id, 3);
    drop((whole, part, bound));
    assert_eq!(alive.strong_count(), 1);
    drop(reshaped);
    assert_eq!(alive.strong_count(), 0);
}

#[test]
fn measurements_and_products_are_checked_before_they_start() {
    let ctx = context();
    let a = tensor(256, &[2, 16], DType::F8E4M3);
    let b = tensor(512, &[16, 16], DType::F8E4M3);
    assert!(check_cutlass_measurement(true, 1, &a, &b).is_ok());
    assert_eq!(
        check_cutlass_measurement(false, 1, &a, &b).unwrap_err().message(),
        "CUTLASS FP8 autotune requires an SM100-family CUDA build"
    );
    assert!(check_cublaslt_measurement(64, 1, &a, &b).is_ok());
    assert_eq!(
        check_cublaslt_measurement(65, 1, &a, &b).unwrap_err().message(),
        "cuBLASLt autotune expects 1..=64 algorithms and non-zero iterations"
    );
    // An output too large to address belongs to no accepted measurement here.
    let wide = Tensor::new(
        Shape::new(vec![usize::MAX, 0]),
        DType::BF16,
        Storage::cpu_from_bytes(vec![]),
    );
    assert_eq!(
        check_cublaslt_measurement(1, 1, &wide, &wide).unwrap_err().message(),
        "cuBLASLt autotune expects FP8 [M,K] @ [K,N]"
    );
    let weight = Fp8WeightView {
        values_e4m3: &b,
        scale: bits(1.0),
        dual_geglu_interleaved: true,
        dual_geglu_auto_interleaved: None,
    };
    assert_eq!(
        check_gemm_fp8(&ctx, &a, bits(1.0), weight).unwrap_err().message(),
        "FP8 dual GeGLU interleaved Gate/Up weight cannot be used by plain FP8 GEMM"
    );
    let plain = Fp8WeightView { dual_geglu_interleaved: false, ..weight };
    assert!(check_gemm_fp8(&ctx, &a, bits(1.0), plain).is_ok());
}
