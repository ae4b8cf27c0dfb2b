//! The rebuild workflow as a transition system over mathematical values:
//! its states, the events that move it, and the action that each state
//! waits for.

use vstd::prelude::*;
use crate::activation::{
    activate_command,
    activate_user_command,
    bootloader_command,
    set_profile_command,
    test_command,
    SPEC_LOCATION,
    SYSTEM_PROFILE,
};
use crate::building::{
    build_command,
    caller_result,
    diff_command,
    ephemeral_result,
    BuildResultModel,
};
use crate::command::{BuildCommandModel, CommandModel};
use crate::error::{Completion, RebuildError, Step};
use crate::privilege::{
    elevation_policy,
    is_root,
    root_owned,
    sudo_use,
    ElevationPolicy,
    Identity,
    ProfileMetadata,
};
use crate::request::{Platform, RebuildRequest};
use crate::specialisation::{profile_path, resolved};
use crate::update::{
    conflict_check_command,
    lock_checkout_command,
    lock_refresh_command,
    lock_reset_command,
    pull_command,
    reported_status,
    selector_needed,
    ConflictStatus,
};

verus! {

/// Where the workflow stands. Every phase but the last two is named after
/// the answer it waits for.
#[derive(Clone, Copy, Debug, PartialEq, Eq)]
pub enum Phase {
    Hostname,
    BuildOutput,
    SourceOwner,
    Pull,
    ToolVersion,
    Conflicts,
    LockReset,
    LockCheckout,
    Update,
    Build,
    Specialisation,
    Probe,
    Diff,
    Confirm,
    ActivateTest,
    SystemProfile,
    SetProfile,
    Bootloader,
    ActivateUser,
    Activate,
    /// The outcome is settled; the ephemeral build output is being
    /// released.
    Release(Result<Completion, RebuildError>),
    /// The workflow is over.
    Done(Result<Completion, RebuildError>),
}

/// What the workflow asks its caller to do.
pub enum ActionModel {
    QueryHostname,
    AllocateBuildOutput,
    InspectSource(Seq<char>),
    QueryToolVersion,
    Run(Step, CommandModel),
    Build(BuildCommandModel),
    ReadSpecialisation(Seq<char>),
    ProbeProfile(Seq<char>),
    Confirm,
    InspectProfile(Seq<char>),
    ReleaseBuildOutput,
    Finish(Result<Completion, RebuildError>),
}

/// What the caller reports back.
pub enum EventModel {
    Hostname(Seq<char>),
    BuildOutput(Seq<char>),
    SourceOwner(Option<u32>),
    ToolVersion(Seq<char>),
    Succeeded,
    Captured(Option<Seq<char>>),
    Specialisation(Option<Seq<char>>),
    ProfileExists(bool),
    Confirmation(bool),
    SystemProfile(ProfileMetadata),
    Released,
    Failed,
}

/// A state of the workflow.
pub struct WorkflowModel {
    pub request: RebuildRequest,
    pub platform: Platform,
    pub identity: Identity,
    pub phase: Phase,
    pub policy: ElevationPolicy,
    /// The host to build for, once it is known.
    pub hostname: Seq<char>,
    /// Where the build goes, once it is known.
    pub output: BuildResultModel,
    /// The lock refresh takes the source selector.
    pub selector: bool,
    /// The profile to activate, once the specialisation is resolved.
    pub target_profile: Seq<char>,
    /// The invoker can write the system profile.
    pub profile_writable: bool,
}

impl WorkflowModel {
    /// The same state in another phase.
    pub open spec fn at(self, phase: Phase) -> WorkflowModel {
        WorkflowModel { phase, ..self }
    }

    /// Ends the workflow with `outcome`: at once, or after the release of
    /// an ephemeral build output.
    pub open spec fn finish(self, outcome: Result<Completion, RebuildError>) -> WorkflowModel {
        if self.output.ephemeral {
            self.at(Phase::Release(outcome))
        } else {
            self.at(Phase::Done(outcome))
        }
    }

    /// Ends the workflow with an error.
    pub open spec fn fail(self, error: RebuildError) -> WorkflowModel {
        self.finish(Err(error))
    }

    /// Settles the host: the requested one, else the local one.
    pub open spec fn enter_hostname(self) -> WorkflowModel {
        match self.request.hostname {
            Some(name) => WorkflowModel { hostname: name, ..self }.enter_output(),
            None => self.at(Phase::Hostname),
        }
    }

    /// Settles where the build goes: the requested out-link, else an
    /// ephemeral directory.
    pub open spec fn enter_output(self) -> WorkflowModel {
        match self.request.out_link {
            Some(path) => WorkflowModel { output: caller_result(path), ..self }.at(
                Phase::SourceOwner,
            ),
            None => self.at(Phase::BuildOutput),
        }
    }

    /// Pulls the source where that is asked for.
    pub open spec fn enter_pull(self) -> WorkflowModel {
        if self.request.pull {
            self.at(Phase::Pull)
        } else {
            self.enter_update()
        }
    }

    /// Refreshes the lock file where that is asked for, starting with the
    /// build tool's version.
    pub open spec fn enter_update(self) -> WorkflowModel {
        if self.request.update {
            self.at(Phase::ToolVersion)
        } else {
            self.at(Phase::Build)
        }
    }

    /// Goes on after the comparison: stops for a dry run and for a
    /// build-only run, asks where confirmation is wanted, else activates.
    pub open spec fn after_diff(self) -> WorkflowModel {
        if self.request.dry || self.request.mode is Build {
            self.finish(Ok(Completion::EarlyExit))
        } else if self.request.ask {
            self.at(Phase::Confirm)
        } else {
            self.enter_test()
        }
    }

    /// Activates the running system where the mode does so.
    pub open spec fn enter_test(self) -> WorkflowModel {
        if self.request.mode.activates() {
            self.at(Phase::ActivateTest)
        } else {
            self.enter_boot()
        }
    }

    /// Changes the boot default where the mode does so, starting with a
    /// look at the system profile.
    pub open spec fn enter_boot(self) -> WorkflowModel {
        if self.request.mode.persists() {
            self.at(Phase::SystemProfile)
        } else {
            self.finish(Ok(Completion::Activated))
        }
    }

    /// After the hostname was asked for.
    pub open spec fn on_hostname(self, event: EventModel) -> WorkflowModel {
        match event {
            EventModel::Hostname(name) => WorkflowModel { hostname: name, ..self }.enter_output(),
            _ => self.fail(RebuildError::CommandFailure(Step::Hostname)),
        }
    }

    /// After an ephemeral directory was asked for: the build goes to
    /// `result` inside it.
    pub open spec fn on_build_output(self, event: EventModel) -> WorkflowModel {
        match event {
            EventModel::BuildOutput(dir) => WorkflowModel {
                output: ephemeral_result(dir),
                ..self
            }.at(Phase::SourceOwner),
            _ => self.fail(RebuildError::CommandFailure(Step::BuildOutput)),
        }
    }

    /// After the owner of the source was asked for: the elevation policy
    /// is decided for the invoker and the source. A source whose owner is
    /// not reported is not root's.
    pub open spec fn on_source_owner(self, event: EventModel) -> WorkflowModel {
        let owned = match event {
            EventModel::SourceOwner(owner) => root_owned(owner),
            _ => false,
        };
        match elevation_policy(
            is_root(self.identity.uid),
            self.request.bypass_root_check,
            owned,
        ) {
            Ok(policy) => WorkflowModel { policy, ..self }.enter_pull(),
            Err(error) => self.fail(error),
        }
    }

    /// After the pull.
    pub open spec fn on_pull(self, event: EventModel) -> WorkflowModel {
        match event {
            EventModel::Succeeded => self.enter_update(),
            _ => self.fail(RebuildError::CommandFailure(Step::Pull)),
        }
    }

    /// After the build tool's version was asked for: without a version
    /// that can be read, the toolchain is unknown and the run ends.
    pub open spec fn on_tool_version(self, event: EventModel) -> WorkflowModel {
        match event {
            EventModel::ToolVersion(version) => match selector_needed(version) {
                Some(selector) => WorkflowModel { selector, ..self }.at(Phase::Conflicts),
                None => self.fail(RebuildError::ToolchainError),
            },
            _ => self.fail(RebuildError::ToolchainError),
        }
    }

    /// After the conflict listing: a clean source goes on to the refresh,
    /// a conflict in the lock file alone is discarded first, and any other
    /// conflict ends the run.
    pub open spec fn on_conflicts(self, event: EventModel) -> WorkflowModel {
        match event {
            EventModel::Captured(None) => self.at(Phase::Update),
            EventModel::Captured(Some(output)) => match reported_status(output) {
                ConflictStatus::Clean => self.at(Phase::Update),
                ConflictStatus::LockFileOnly => self.at(Phase::LockReset),
                ConflictStatus::Foreign => self.fail(RebuildError::ConflictError),
            },
            _ => self.fail(RebuildError::CommandFailure(Step::ConflictCheck)),
        }
    }

    /// After a command that has nothing to report but its success: on to
    /// `then`, or the failure of `step`.
    pub open spec fn on_command(self, event: EventModel, step: Step, then: Phase) -> WorkflowModel {
        match event {
            EventModel::Succeeded => self.at(then),
            _ => self.fail(RebuildError::CommandFailure(step)),
        }
    }

    /// After the active specialisation was asked for: the profile to
    /// activate is settled. An answer that does not come counts as no
    /// active specialisation.
    pub open spec fn on_specialisation(self, event: EventModel) -> WorkflowModel {
        let current = match event {
            EventModel::Specialisation(name) => name,
            _ => None,
        };
        WorkflowModel {
            target_profile: profile_path(
                self.output.path,
                resolved(self.request.no_specialisation, self.request.specialisation, current),
            ),
            ..self
        }.at(Phase::Probe)
    }

    /// After the profile was probed: it has to exist.
    pub open spec fn on_probe(self, event: EventModel) -> WorkflowModel {
        match event {
            EventModel::ProfileExists(true) => self.at(Phase::Diff),
            _ => self.fail(RebuildError::MissingProfile),
        }
    }

    /// After the comparison.
    pub open spec fn on_diff(self, event: EventModel) -> WorkflowModel {
        match event {
            EventModel::Succeeded => self.after_diff(),
            _ => self.fail(RebuildError::CommandFailure(Step::Diff)),
        }
    }

    /// After the operator was asked: declining ends the run without error.
    pub open spec fn on_confirm(self, event: EventModel) -> WorkflowModel {
        match event {
            EventModel::Confirmation(true) => self.enter_test(),
            EventModel::Confirmation(false) => self.finish(Ok(Completion::Declined)),
            _ => self.fail(RebuildError::CommandFailure(Step::Confirm)),
        }
    }

    /// After the activation of the running system.
    pub open spec fn on_activate_test(self, event: EventModel) -> WorkflowModel {
        match event {
            EventModel::Succeeded => self.enter_boot(),
            _ => self.fail(RebuildError::CommandFailure(Step::ActivateTest)),
        }
    }

    /// After the system profile was inspected.
    pub open spec fn on_system_profile(self, event: EventModel) -> WorkflowModel {
        match event {
            EventModel::SystemProfile(file) => WorkflowModel {
                profile_writable: self.identity.may_write(file),
                ..self
            }.at(Phase::SetProfile),
            _ => self.fail(RebuildError::CommandFailure(Step::InspectProfile)),
        }
    }

    /// After the system profile was set: on to what makes the build the
    /// boot default on this platform.
    pub open spec fn on_set_profile(self, event: EventModel) -> WorkflowModel {
        match event {
            EventModel::Succeeded => match self.platform {
                Platform::Linux => self.at(Phase::Bootloader),
                Platform::Darwin => self.at(Phase::ActivateUser),
            },
            _ => self.fail(RebuildError::CommandFailure(Step::SetProfile)),
        }
    }

    /// After the last command of the boot phase.
    pub open spec fn on_last_command(self, event: EventModel, step: Step) -> WorkflowModel {
        match event {
            EventModel::Succeeded => self.finish(Ok(Completion::Activated)),
            _ => self.fail(RebuildError::CommandFailure(step)),
        }
    }

    /// The state after the caller has reported `event`. An event other
    /// than the answer that the phase waits for counts as the failure of
    /// what was asked, except where a missing answer has a meaning of its
    /// own. Once the outcome is settled, whatever is reported leads to the
    /// end, and there the state stays.
    pub open spec fn next(self, event: EventModel) -> WorkflowModel {
        match self.phase {
            Phase::Hostname => self.on_hostname(event),
            Phase::BuildOutput => self.on_build_output(event),
            Phase::SourceOwner => self.on_source_owner(event),
            Phase::Pull => self.on_pull(event),
            Phase::ToolVersion => self.on_tool_version(event),
            Phase::Conflicts => self.on_conflicts(event),
            Phase::LockReset => self.on_command(event, Step::LockReset, Phase::LockCheckout),
            Phase::LockCheckout => self.on_command(event, Step::LockCheckout, Phase::Update),
            Phase::Update => self.on_command(event, Step::Update, Phase::Build),
            Phase::Build => self.on_command(event, Step::Build, Phase::Specialisation),
            Phase::Specialisation => self.on_specialisation(event),
            Phase::Probe => self.on_probe(event),
            Phase::Diff => self.on_diff(event),
            Phase::Confirm => self.on_confirm(event),
            Phase::ActivateTest => self.on_activate_test(event),
            Phase::SystemProfile => self.on_system_profile(event),
            Phase::SetProfile => self.on_set_profile(event),
            Phase::Bootloader => self.on_last_command(event, Step::Bootloader),
            Phase::ActivateUser => self.on_command(event, Step::ActivateUser, Phase::Activate),
            Phase::Activate => self.on_last_command(event, Step::Activate),
            Phase::Release(outcome) => self.at(Phase::Done(outcome)),
            Phase::Done(_) => self,
        }
    }

    /// What the workflow waits for in this state.
    pub open spec fn pending(self) -> ActionModel {
        let r = self.request;
        match self.phase {
            Phase::Hostname => ActionModel::QueryHostname,
            Phase::BuildOutput => ActionModel::AllocateBuildOutput,
            Phase::SourceOwner => ActionModel::InspectSource(r.flakeref),
            Phase::Pull => ActionModel::Run(
                Step::Pull,
                pull_command(r.flakeref, self.policy.elevate_source, r.dry),
            ),
            Phase::ToolVersion => ActionModel::QueryToolVersion,
            Phase::Conflicts => ActionModel::Run(
                Step::ConflictCheck,
                conflict_check_command(r.flakeref, r.dry),
            ),
            Phase::LockReset => ActionModel::Run(
                Step::LockReset,
                lock_reset_command(r.flakeref, r.dry),
            ),
            Phase::LockCheckout => ActionModel::Run(
                Step::LockCheckout,
                lock_checkout_command(r.flakeref, r.dry),
            ),
            Phase::Update => ActionModel::Run(
                Step::Update,
                lock_refresh_command(r.flakeref, self.selector, self.policy.elevate_source, r.dry),
            ),
            Phase::Build => ActionModel::Build(
                build_command(
                    r.flakeref,
                    self.platform,
                    self.hostname,
                    self.output.path,
                    r.extra_args,
                    r.no_nom,
                    r.dry,
                ),
            ),
            Phase::Specialisation => ActionModel::ReadSpecialisation(SPEC_LOCATION@),
            Phase::Probe => ActionModel::ProbeProfile(self.target_profile),
            Phase::Diff => ActionModel::Run(
                Step::Diff,
                diff_command(r.diff_provider, self.target_profile, r.dry),
            ),
            Phase::Confirm => ActionModel::Confirm,
            Phase::ActivateTest => ActionModel::Run(
                Step::ActivateTest,
                test_command(self.target_profile, self.policy.use_sudo, r.dry),
            ),
            Phase::SystemProfile => ActionModel::InspectProfile(SYSTEM_PROFILE@),
            Phase::SetProfile => ActionModel::Run(
                Step::SetProfile,
                set_profile_command(
                    self.output.path,
                    self.policy.use_sudo,
                    self.profile_writable,
                    r.dry,
                ),
            ),
            Phase::Bootloader => ActionModel::Run(
                Step::Bootloader,
                bootloader_command(self.output.path, self.policy.use_sudo, r.dry),
            ),
            Phase::ActivateUser => ActionModel::Run(
                Step::ActivateUser,
                activate_user_command(self.output.path, r.dry),
            ),
            Phase::Activate => ActionModel::Run(
                Step::Activate,
                activate_command(self.output.path, self.policy.use_sudo, r.dry),
            ),
            Phase::Release(_) => ActionModel::ReleaseBuildOutput,
            Phase::Done(outcome) => ActionModel::Finish(outcome),
        }
    }

    /// The state that is reached from this one by reporting `events` in
    /// order.
    #[verifier::opaque]
    pub open spec fn after(self, events: Seq<EventModel>) -> WorkflowModel
        decreases events.len(),
    {
        if events.len() == 0 {
            self
        } else {
            self.after(events.drop_last()).next(events.last())
        }
    }
}

/// The state in which a workflow begins. An invoker who is root without
/// the bypass is turned away before anything is asked of the machine.
pub open spec fn start(request: RebuildRequest, platform: Platform, identity: Identity) -> WorkflowModel {
    let blank = WorkflowModel {
        request,
        platform,
        identity,
        phase: Phase::Hostname,
        policy: ElevationPolicy { use_sudo: false, elevate_source: false },
        hostname: Seq::empty(),
        output: caller_result(Seq::empty()),
        selector: false,
        target_profile: Seq::empty(),
        profile_writable: false,
    };
    match sudo_use(is_root(identity.uid), request.bypass_root_check) {
        Ok(use_sudo) => WorkflowModel {
            policy: ElevationPolicy { use_sudo, elevate_source: false },
            ..blank
        }.enter_hostname(),
        Err(error) => blank.fail(error),
    }
}

} // verus!
