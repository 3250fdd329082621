//! Build-orchestration bookkeeping for a vendored TLS/crypto library.
//!
//! The crate plans a native build: it decides whether assembly
//! optimizations must be disabled, lays out the ordered filesystem steps
//! that produce a stable `include/` and `lib/` tree, filters
//! version-control metadata out of a header copy, and formats the linker
//! metadata lines a downstream build consumes. Running the external build
//! tool and touching the filesystem are left to the embedding program.

pub mod artifacts;
pub mod builder;
pub mod errors;
pub mod headers;
pub mod paths;
pub mod version;

pub use artifacts::Artifacts;
pub use builder::Build;
pub use builder::BuildPlan;
pub use builder::Step;
pub use errors::BuildError;
