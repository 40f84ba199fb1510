pub mod text;
pub mod digest;
pub mod sced_offer_chain;
pub mod canonical_core;
pub mod failure_axis;
pub mod canonical_time;
pub mod ptp_compliance;
pub mod tlbss_types;
pub mod fiel;
pub mod compliance;
pub mod adversarial_harness;
pub mod demo_pipeline;
pub mod evidence_repository;
pub mod interface_discovery;
pub mod protocol_drivers;
pub mod reliability_controls;
pub mod regulatory_policy;
pub mod kernel;
pub mod recovery;
pub mod phase_control;
pub mod operator_interface;
pub mod mvre_core_deterministic;
pub mod hal_output;
pub mod adversarial_runtime;
pub mod kani_bindings;
pub mod verification_engine;
pub mod ise;
pub mod mvre_kernel;
pub mod deployment_manifest;
pub mod economics;
pub mod backcast_profiles;
pub mod ir_codegen;
pub mod ir_backends;
pub mod ai_ingestion_buffer;
pub mod drivers;
