//! Who runs the rebuild, and which commands have to be elevated.

use vstd::prelude::*;
use crate::error::RebuildError;

verus! {

/// The effective user and group of the invoking process.
#[derive(Clone, Copy, Debug, PartialEq, Eq, Structural)]
pub struct Identity {
    pub uid: u32,
    pub gid: u32,
}

/// Owner and permissions of a file, as far as the workflow reads them.
#[derive(Clone, Copy, Debug, PartialEq, Eq, Structural)]
pub struct ProfileMetadata {
    pub readonly: bool,
    pub uid: u32,
    pub gid: u32,
}

/// Which commands run elevated. Commands that activate the system go by
/// `use_sudo`; commands that change the configuration source go by
/// `elevate_source`.
#[derive(Clone, Copy, Debug, PartialEq, Eq, Structural)]
pub struct ElevationPolicy {
    /// Elevation is used in this run at all.
    pub use_sudo: bool,
    /// Commands that write to the configuration source are elevated.
    pub elevate_source: bool,
}

/// The user id of root.
pub open spec fn is_root(uid: u32) -> bool {
    uid == 0
}

/// `nix::unistd::Uid::effective`, as a raw id. The answer belongs to the
/// process, so nothing is claimed of it.
#[verifier::external_body]
fn effective_uid() -> (uid: u32) {
    nix::unistd::Uid::effective().as_raw()
}

/// `nix::unistd::Gid::effective`, as a raw id. The answer belongs to the
/// process, so nothing is claimed of it.
#[verifier::external_body]
fn effective_gid() -> (gid: u32) {
    nix::unistd::Gid::effective().as_raw()
}

/// `nix::unistd::Uid::is_root`, on the id made by `Uid::from_raw`: true
/// exactly for the id zero.
#[verifier::external_body]
fn uid_is_root(uid: u32) -> (root: bool)
    ensures
        root == is_root(uid),
{
    nix::unistd::Uid::from_raw(uid).is_root()
}

impl Identity {
    /// The identity under which this process runs.
    pub fn effective() -> Identity {
        Identity { uid: effective_uid(), gid: effective_gid() }
    }

    /// Whether this is root.
    pub fn is_root(&self) -> (root: bool)
        ensures
            root == is_root(self.uid),
    {
        uid_is_root(self.uid)
    }

    /// The identity owns the file or belongs to its group, and the file is
    /// not read-only.
    pub open spec fn may_write(self, file: ProfileMetadata) -> bool {
        !file.readonly && (self.uid == file.uid || self.gid == file.gid)
    }

    /// Whether the identity can write to a file with the given metadata.
    pub fn can_write(&self, file: &ProfileMetadata) -> (yes: bool)
        ensures
            yes == self.may_write(*file),
    {
        !file.readonly && (self.uid == file.uid || self.gid == file.gid)
    }
}

/// Whether elevation is used in a run: refused for root without the
/// bypass, never for root with it, always otherwise.
pub open spec fn sudo_use(invoker_is_root: bool, bypass_root_check: bool) -> Result<
    bool,
    RebuildError,
> {
    if bypass_root_check {
        Ok(!invoker_is_root)
    } else if invoker_is_root {
        Err(RebuildError::PolicyViolation)
    } else {
        Ok(true)
    }
}

/// The policy for an invoker and a configuration source.
pub open spec fn elevation_policy(
    invoker_is_root: bool,
    bypass_root_check: bool,
    source_is_root_owned: bool,
) -> Result<ElevationPolicy, RebuildError> {
    match sudo_use(invoker_is_root, bypass_root_check) {
        Ok(use_sudo) => Ok(
            ElevationPolicy { use_sudo, elevate_source: use_sudo && source_is_root_owned },
        ),
        Err(e) => Err(e),
    }
}

/// The configuration source belongs to root. A source whose owner is
/// unknown, such as a remote one, does not.
pub open spec fn root_owned(owner: Option<u32>) -> bool {
    match owner {
        Some(uid) => is_root(uid),
        None => false,
    }
}

/// Whether the configuration source belongs to root, given the owner of
/// its path where that could be read.
pub fn source_is_root_owned(owner: Option<u32>) -> (yes: bool)
    ensures
        yes == root_owned(owner),
{
    match owner {
        Some(uid) => uid_is_root(uid),
        None => false,
    }
}

/// Whether elevation is used in a run.
pub fn decide_sudo(invoker_is_root: bool, bypass_root_check: bool) -> (decision: Result<
    bool,
    RebuildError,
>)
    ensures
        decision == sudo_use(invoker_is_root, bypass_root_check),
{
    if bypass_root_check {
        Ok(!invoker_is_root)
    } else if invoker_is_root {
        Err(RebuildError::PolicyViolation)
    } else {
        Ok(true)
    }
}

impl ElevationPolicy {
    /// Decides which commands run elevated. Root is refused unless the
    /// root check is bypassed; with the bypass, elevation is used only by
    /// an invoker who is not root; and commands that write to the source
    /// are elevated only where elevation is used and root owns the source.
    pub fn decide(
        invoker_is_root: bool,
        bypass_root_check: bool,
        source_is_root_owned: bool,
    ) -> (decision: Result<ElevationPolicy, RebuildError>)
        ensures
            decision == elevation_policy(invoker_is_root, bypass_root_check, source_is_root_owned),
    {
        match decide_sudo(invoker_is_root, bypass_root_check) {
            Ok(use_sudo) => Ok(
                ElevationPolicy { use_sudo, elevate_source: use_sudo && source_is_root_owned },
            ),
            Err(e) => Err(e),
        }
    }
}

} // verus!
