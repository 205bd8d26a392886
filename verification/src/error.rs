//! The library's error taxonomy: resolution errors, tool-invocation
//! failures, user rejection, and the state-consistency errors of a
//! rollback.  Every variant carries what a caller needs to render the
//! failure; none is ever retried by the library itself.

use vstd::prelude::*;

verus! {

/// How an external process ended when it did not succeed.
#[derive(Debug, Clone, Copy, PartialEq, Eq, Structural)]
pub enum ProcessStatus {
    /// The process exited with this (non-zero) code.
    Exited(u32),
    /// The process was terminated by this signal.
    Signaled(u8),
    /// The platform reported something else.
    Other(i32),
    /// The outcome could not be determined.
    Undetermined,
}

/// Everything the library's operations can fail with.
#[derive(Debug, PartialEq, Eq)]
pub enum Error {
    /// The profile lists no generations at all.
    NoGenerations,
    /// No generation in the profile is flagged current.
    NoCurrentGeneration,
    /// The current generation is already the oldest one.
    NoOlderGeneration,
    /// No generation carries the requested number.
    GenerationNotFound(u64),
    /// The user answered no to the confirmation prompt.
    UserRejected,
    /// The operation refuses to run under the root user.
    RunningAsRoot,
    /// An explicitly named configuration is absent from the tree; the
    /// rendered path that was attempted is carried along.
    ExplicitConfigNotFound { tried: String },
    /// No candidate configuration was found in the tree; every attempted
    /// rendered path is carried along.
    ConfigNotFound { attempted: Vec<String> },
    /// An external command exited unsuccessfully.
    CommandFailed(ProcessStatus),
    /// The activation program of a target generation failed.
    ActivationFailed(ProcessStatus),
    /// After a failed activation, repointing the profile back to the prior
    /// generation failed as well; both outcomes are surfaced.
    RevertFailed { activation: ProcessStatus, revert: ProcessStatus },
    /// The installed builder is older than the minimum this tool supports.
    VersionTooOld { is_lix: bool, current: String },
    /// The builder's version string could not be understood.
    VersionUnparsable,
    /// Required experimental features are missing from the builder.
    MissingFeatures { missing: Vec<String> },
    /// The machine's hostname could not be determined and none was given.
    HostnameUnavailable,
    /// Store-path installables carry no attribute tree to work with here.
    StoreNotSupported,
    /// The system-manager binary is not present on the search path.
    SystemManagerNotFound,
    /// The interactive prompt could not be read.
    PromptFailed,
    /// An argument list does not follow the expected grammar.
    InvalidArguments,
    /// The machine-level configuration manager runs only on Linux.
    LinuxOnly,
}

} // verus!
