//! Verified packaging pipeline: resolves a target triplet, maps it to an RPM
//! architecture name, and assembles per-member package specifications for a
//! multi-member build workspace.

pub mod assets;
pub mod errors;
pub mod manifest;
pub mod plan;
pub mod resolve;
pub mod strutil;
pub mod triplet;

pub use errors::PackError;
pub use errors::RequiredField;
