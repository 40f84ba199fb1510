//! The verification engine: invariant descriptions and the proof harnesses and
//! adversarial tests generated from them.

pub mod vir_loader;
pub mod runtime_bridge;
pub mod kani_generator;
pub mod adversarial_generator;
