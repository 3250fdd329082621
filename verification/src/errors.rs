use vstd::prelude::*;

verus! {

/// A failure of the build wrapper. Every variant is fatal to the build
/// that hit it; the caller chooses its own termination policy.
#[derive(Debug, Clone, PartialEq, Eq)]
pub enum BuildError {
    /// No output directory was configured before the build was planned.
    MissingOutputDir,
    /// The external build tool, or one of its probes, failed; `step`
    /// names the invocation that failed.
    ExternalToolFailed { step: String },
    /// A filesystem operation failed; `op` names the operation and
    /// `path` the path it was applied to.
    FilesystemError { op: String, path: String },
}

} // verus!
