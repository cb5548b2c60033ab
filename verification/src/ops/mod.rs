//! Operators.
//!
//! Every operator validates its request and gives the native launch that
//! carries it out, or the step by which a prepared instance is obtained.
pub mod attention;
pub mod binding;
pub mod gather;
pub mod gdn;
pub mod gemm;
pub mod launch;
pub mod mlp;
pub mod norm;
pub mod pointwise;
pub mod quantization;
pub mod rope;

pub use attention::{
    attention, kv_cache_attention, segmented_attention, AttentionArgs, AttentionMask,
    AttentionScale, KvCacheAttentionArgs, SegmentedAttentionArgs,
};
pub use gather::{gather, GatherArgs, GatherPatchGeometry, GatherSemantic};
pub use gemm::contracts::{GemmArgs, GemmPolicy, GemmQuantization, WeightVersion};
pub use gemm::execution::PreparedExecution;
pub use gemm::semantics::{
    gemm, gemm_bias, gemm_bias_gelu, gemm_geglu, prepare_gemm, prepare_gemm_bias,
    prepare_gemm_bias_gelu, prepare_gemm_geglu, GemmBiasArgs, GemmBiasGeluArgs, GemmGegluArgs,
};
pub use norm::{
    ada_gate_residual, ada_gate_residual_rms_norm, adaptive_rms_norm, bias_residual,
    bias_residual_layer_norm, bias_residual_rms_norm, bias_then_residual, layer_norm, rms_norm,
    AdaGateResidualArgs, AdaGateResidualRmsNormArgs, AdaptiveRmsNormArgs, BiasResidualArgs,
    BiasResidualLayerNormArgs, BiasResidualRmsNormArgs, BiasThenResidualArgs, LayerNormArgs,
    RmsNormArgs,
};
pub use pointwise::{pointwise, PointwiseActivation, PointwiseArgs, PointwiseSemantic};
pub use quantization::{quantization, QuantizationArgs, QuantizationSemantic};
pub use rope::{rope, RopeArgs, RopeSemantic};
