//! Host side of a CUDA inference runtime.
//!
//! The library checks requests, selects implementations, plans memory and
//! decides which native calls to make. The calls themselves are made by the
//! code around it, which hands the outcomes back.
pub mod backend;
pub mod buffer;
pub mod context;
pub mod dtype;
pub mod error;
pub mod fp8;
pub mod graph;
pub mod image;
pub mod kv_cache;
pub mod nvtx;
pub mod ops;
pub mod scalar;
pub mod shape;
pub mod storage;
pub mod tensor;
pub mod text;
pub mod timing;
pub mod workspace;

pub use backend::CudaBackend;
pub use buffer::CudaBuffer;
pub use context::{CudaContext, CudaDeviceCaps, CudaMemoryInfo, CudaStream};
pub use dtype::{DType, Device};
pub use error::Error;
pub use graph::{capture, CaptureMode, CapturedGraph};
pub use image::ImageLayout;
pub use kv_cache::CudaKVCache;
pub use scalar::F32Bits;
pub use shape::Shape;
pub use storage::{DeviceAllocation, GpuStorageHandle, Storage};
pub use tensor::Tensor;
pub use timing::CudaEventTimer;
pub use workspace::{GraphWorkspace, ThreadState};
