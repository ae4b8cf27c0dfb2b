//! How a rebuild ends: the ways it can fail and the ways it can succeed.

use vstd::prelude::*;

verus! {

/// An interaction with the machine that the workflow asks its caller to
/// carry out and that may fail. It names the command that an
/// [`crate::workflow::Action::Run`] stands for, and gives a
/// [`RebuildError::CommandFailure`] its context.
#[derive(Clone, Copy, Debug, PartialEq, Eq, Structural)]
pub enum Step {
    /// Looking up the local machine's hostname.
    Hostname,
    /// Creating the ephemeral directory that receives the build output.
    BuildOutput,
    /// Fetching and merging the configuration source.
    Pull,
    /// Listing the unmerged files of the configuration source.
    ConflictCheck,
    /// Unstaging the conflicted lock file.
    LockReset,
    /// Restoring the lock file from the index.
    LockCheckout,
    /// Refreshing the lock file.
    Update,
    /// Building the configuration.
    Build,
    /// Showing what changes between the running and the built system.
    Diff,
    /// Asking the operator whether to go on.
    Confirm,
    /// Activating the built configuration on the running system.
    ActivateTest,
    /// Reading owner and permissions of the system profile.
    InspectProfile,
    /// Pointing the system profile at the built configuration.
    SetProfile,
    /// Registering the built configuration with the bootloader.
    Bootloader,
    /// Running the per-user half of the activation.
    ActivateUser,
    /// Running the system half of the activation.
    Activate,
}

/// Why a rebuild was abandoned. Every error is fatal: the workflow stops at
/// the step where it arises, and what was done before is not undone.
#[derive(Clone, Copy, Debug, PartialEq, Eq, Structural)]
pub enum RebuildError {
    /// The invoker is root and did not ask to bypass the root check.
    PolicyViolation,
    /// The configuration source has unmerged files besides the lock file.
    ConflictError,
    /// The profile to activate does not exist.
    MissingProfile,
    /// The build tool's version could not be determined.
    ToolchainError,
    /// The named step exited unsuccessfully or could not be carried out.
    CommandFailure(Step),
}

/// The ways a rebuild ends without error.
#[derive(Clone, Copy, Debug, PartialEq, Eq, Structural)]
pub enum Completion {
    /// Stopped after the comparison: a build-only or a dry run.
    EarlyExit,
    /// The operator declined the confirmation.
    Declined,
    /// Every activation phase of the mode went through.
    Activated,
}

impl RebuildError {
    /// A sentence for the operator.
    pub fn describe(&self) -> (text: &'static str)
        ensures
            text@ == self.description(),
    {
        match self {
            RebuildError::PolicyViolation => "refusing to run as root: elevation is requested per command",
            RebuildError::ConflictError => "the configuration source has conflicts beyond the lock file",
            RebuildError::MissingProfile => "the profile to activate does not exist",
            RebuildError::ToolchainError => "the build tool's version could not be determined; is it a nonstandard toolchain?",
            RebuildError::CommandFailure(_) => "an external step failed",
        }
    }

    /// The text of [`RebuildError::describe`].
    pub open spec fn description(&self) -> Seq<char> {
        match self {
            RebuildError::PolicyViolation => "refusing to run as root: elevation is requested per command"@,
            RebuildError::ConflictError => "the configuration source has conflicts beyond the lock file"@,
            RebuildError::MissingProfile => "the profile to activate does not exist"@,
            RebuildError::ToolchainError => "the build tool's version could not be determined; is it a nonstandard toolchain?"@,
            RebuildError::CommandFailure(_) => "an external step failed"@,
        }
    }
}

} // verus!
