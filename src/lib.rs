//! Builds throwaway example projects for binding-generator integration tests:
//! the configuration, the files synthesised from it, the plan of what lands on
//! disk, and the order in which the external tools are driven.
pub mod bigint;
pub mod declarations;
pub mod identity;
pub mod laws;
pub mod pipeline;
pub mod plan;
pub mod project;
pub mod synth;
pub mod templates;
pub mod text;
