//! A verified core of a SPIR-V code generation backend.
//!
//! The crate resolves textual target descriptors into environment, version
//! and memory-model parameters, drives the two-phase translation of a
//! compilation unit into a binary module, converts modules between their
//! word-sequence and byte-sequence forms, and merges freshly compiled
//! modules with cached ones into the final link set.

pub mod backend;
pub mod codec;
pub mod compile;
pub mod link;
pub mod strutil;
pub mod target;

pub use backend::SpirCodegenBackend;
pub use codec::SpirvModuleBuffer;
pub use codec::SpirvThinBuffer;
pub use target::InvalidTarget;
pub use target::MemoryModel;
pub use target::SpirvTarget;
pub use target::TargetEnv;
