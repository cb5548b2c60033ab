//! Matrix products.
pub mod contracts;
pub mod instance;
pub mod execution;
pub mod semantics;
pub mod nvfp4_scales;
pub mod observer;
