//! Static FP8 matrix products: tuned tactics, their installation, selection
//! and measurement.
pub mod autotune;
pub mod calls;
pub mod dual;
pub mod fused;
pub mod gemm;
pub mod install;
pub mod tuning;
