//! The rebuild workflow as it runs: a state that the caller keeps, the
//! actions it hands out, and the events it takes.

use vstd::prelude::*;
use vstd::string::*;
use crate::activation::{
    make_activate_command,
    make_activate_user_command,
    make_bootloader_command,
    make_set_profile_command,
    make_test_command,
    SPEC_LOCATION,
    SYSTEM_PROFILE,
};
use crate::building::{make_build_command, make_diff_command, BuildResult};
use crate::command::{clone_option, clone_strings, BuildCommand, Command};
use crate::error::{Completion, RebuildError, Step};
use crate::consistency::{lemma_next_is_consistent, lemma_start_is_consistent};
use crate::model::{start, ActionModel, EventModel, Phase, WorkflowModel};
use crate::privilege::{decide_sudo, source_is_root_owned, ElevationPolicy, Identity, ProfileMetadata};
use crate::request::{OsRebuildArgs, Platform, RebuildMode};
use crate::specialisation::{resolve_specialisation, target_profile};
use crate::update::{
    conflicts_in,
    make_conflict_check_command,
    make_lock_checkout_command,
    make_lock_refresh_command,
    make_lock_reset_command,
    make_pull_command,
    needs_selector,
    ConflictStatus,
};

verus! {

/// What the workflow asks its caller to do next.
#[derive(Debug, PartialEq, Eq)]
pub enum Action {
    /// Look up the local hostname; answer with [`Event::Hostname`].
    QueryHostname,
    /// Create an ephemeral directory for the build output; answer with
    /// [`Event::BuildOutput`].
    AllocateBuildOutput,
    /// Read the owner of the path; answer with [`Event::SourceOwner`].
    InspectSource(String),
    /// Ask the build tool for its version; answer with
    /// [`Event::ToolVersion`].
    QueryToolVersion,
    /// Execute the command; answer with [`Event::Succeeded`], or with
    /// [`Event::Captured`] where the command captures its output.
    Run(Step, Command),
    /// Execute the build; answer with [`Event::Succeeded`].
    Build(BuildCommand),
    /// Read the name of the active specialisation from the path; answer
    /// with [`Event::Specialisation`].
    ReadSpecialisation(String),
    /// Test whether the path exists; answer with [`Event::ProfileExists`].
    ProbeProfile(String),
    /// Ask the operator whether to go on; answer with
    /// [`Event::Confirmation`].
    Confirm,
    /// Read owner and permissions of the path; answer with
    /// [`Event::SystemProfile`].
    InspectProfile(String),
    /// Release the ephemeral directory; answer with [`Event::Released`].
    ReleaseBuildOutput,
    /// Nothing is left to do: the workflow has ended in this way.
    Finish(Result<Completion, RebuildError>),
}

impl View for Action {
    type V = ActionModel;

    open spec fn view(&self) -> ActionModel {
        match self {
            Action::QueryHostname => ActionModel::QueryHostname,
            Action::AllocateBuildOutput => ActionModel::AllocateBuildOutput,
            Action::InspectSource(path) => ActionModel::InspectSource(path@),
            Action::QueryToolVersion => ActionModel::QueryToolVersion,
            Action::Run(step, command) => ActionModel::Run(*step, command@),
            Action::Build(command) => ActionModel::Build(command@),
            Action::ReadSpecialisation(path) => ActionModel::ReadSpecialisation(path@),
            Action::ProbeProfile(path) => ActionModel::ProbeProfile(path@),
            Action::Confirm => ActionModel::Confirm,
            Action::InspectProfile(path) => ActionModel::InspectProfile(path@),
            Action::ReleaseBuildOutput => ActionModel::ReleaseBuildOutput,
            Action::Finish(outcome) => ActionModel::Finish(*outcome),
        }
    }
}

/// What the caller reports after it has carried out an action.
#[derive(Debug, PartialEq, Eq)]
pub enum Event {
    /// The local hostname.
    Hostname(String),
    /// The path of the ephemeral directory that was created.
    BuildOutput(String),
    /// The user id that owns the configuration source; `None` where the
    /// source is no local path or cannot be inspected.
    SourceOwner(Option<u32>),
    /// The semantic version that the build tool reports.
    ToolVersion(String),
    /// The command exited successfully, or was logged in a dry run.
    Succeeded,
    /// The command exited successfully with this output; `None` where it
    /// was only logged.
    Captured(Option<String>),
    /// The name of the active specialisation; `None` where none is
    /// recorded or the record cannot be read.
    Specialisation(Option<String>),
    /// Whether the probed path exists.
    ProfileExists(bool),
    /// The operator's answer.
    Confirmation(bool),
    /// Owner and permissions of the system profile.
    SystemProfile(ProfileMetadata),
    /// The ephemeral directory is gone.
    Released,
    /// What was asked could not be done, or failed.
    Failed,
}

impl View for Event {
    type V = EventModel;

    open spec fn view(&self) -> EventModel {
        match self {
            Event::Hostname(name) => EventModel::Hostname(name@),
            Event::BuildOutput(dir) => EventModel::BuildOutput(dir@),
            Event::SourceOwner(owner) => EventModel::SourceOwner(*owner),
            Event::ToolVersion(version) => EventModel::ToolVersion(version@),
            Event::Succeeded => EventModel::Succeeded,
            Event::Captured(output) => EventModel::Captured(output.deep_view()),
            Event::Specialisation(name) => EventModel::Specialisation(name.deep_view()),
            Event::ProfileExists(exists) => EventModel::ProfileExists(*exists),
            Event::Confirmation(yes) => EventModel::Confirmation(*yes),
            Event::SystemProfile(file) => EventModel::SystemProfile(*file),
            Event::Released => EventModel::Released,
            Event::Failed => EventModel::Failed,
        }
    }
}

impl Event {
    /// The answer to a command that was logged and not run: success, with
    /// no output where output was to be captured.
    pub fn logged(capture_output: bool) -> (event: Event)
        ensures
            event@ == if capture_output {
                EventModel::Captured(None)
            } else {
                EventModel::Succeeded
            },
    {
        if capture_output {
            Event::Captured(None)
        } else {
            Event::Succeeded
        }
    }
}

/// A rebuild in progress. The caller carries out the pending action,
/// reports the result to [`Workflow::step`], and goes on with the action
/// it gets back, until that is [`Action::Finish`].
#[derive(Debug)]
pub struct Workflow {
    args: OsRebuildArgs,
    mode: RebuildMode,
    platform: Platform,
    identity: Identity,
    phase: Phase,
    policy: ElevationPolicy,
    hostname: String,
    output: BuildResult,
    selector: bool,
    target_profile: String,
    profile_writable: bool,
}

impl View for Workflow {
    type V = WorkflowModel;

    closed spec fn view(&self) -> WorkflowModel {
        WorkflowModel {
            request: self.args.request(self.mode),
            platform: self.platform,
            identity: self.identity,
            phase: self.phase,
            policy: self.policy,
            hostname: self.hostname@,
            output: self.output@,
            selector: self.selector,
            target_profile: self.target_profile@,
            profile_writable: self.profile_writable,
        }
    }
}

impl OsRebuildArgs {
    /// A copy of the arguments.
    pub fn duplicate(&self) -> (copy: OsRebuildArgs)
        ensures
            forall|mode: RebuildMode| copy.request(mode) == self.request(mode),
    {
        OsRebuildArgs {
            flakeref: self.flakeref.clone(),
            hostname: clone_option(&self.hostname),
            specialisation: clone_option(&self.specialisation),
            no_specialisation: self.no_specialisation,
            dry: self.dry,
            pull: self.pull,
            update: self.update,
            ask: self.ask,
            bypass_root_check: self.bypass_root_check,
            no_nom: self.no_nom,
            out_link: clone_option(&self.out_link),
            extra_args: clone_strings(&self.extra_args),
            diff_provider: self.diff_provider.clone(),
        }
    }

    /// Begins the rebuild that these arguments ask for, as the user that
    /// runs this process. The workflow comes with its first action.
    pub fn rebuild(&self, rebuild_type: RebuildMode, platform: Platform) -> (begun: (Workflow, Action))
        ensures
            exists|identity: Identity|
                begun.0@ == start(self.request(rebuild_type), platform, identity),
            begun.0@.consistent(),
            begun.1@ == begun.0@.pending(),
    {
        Workflow::start(self.duplicate(), rebuild_type, platform, Identity::effective())
    }
}

impl Workflow {
    /// Begins a rebuild on behalf of `identity`.
    pub fn start(args: OsRebuildArgs, mode: RebuildMode, platform: Platform, identity: Identity) -> (begun: (
        Workflow,
        Action,
    ))
        ensures
            begun.0@ == start(args.request(mode), platform, identity),
            begun.0@.consistent(),
            begun.1@ == begun.0@.pending(),
    {
        proof {
            lemma_start_is_consistent(args.request(mode), platform, identity);
        }
        let mut workflow = Workflow {
            args,
            mode,
            platform,
            identity,
            phase: Phase::Hostname,
            policy: ElevationPolicy { use_sudo: false, elevate_source: false },
            hostname: String::new(),
            output: BuildResult::at(""),
            selector: false,
            target_profile: String::new(),
            profile_writable: false,
        };
        proof {
            reveal_strlit("");
            assert(workflow.output@.path =~= Seq::<char>::empty());
        }
        match decide_sudo(identity.is_root(), workflow.args.bypass_root_check) {
            Ok(use_sudo) => {
                workflow.policy = ElevationPolicy { use_sudo, elevate_source: false };
                workflow.enter_hostname();
            },
            Err(error) => {
                workflow.finish(Err(error));
            },
        }
        let action = workflow.pending();
        (workflow, action)
    }

    /// Where the workflow stands.
    pub fn phase(&self) -> (phase: Phase)
        ensures
            phase == self@.phase,
    {
        self.phase
    }

    /// The mode of the rebuild.
    pub fn mode(&self) -> (mode: RebuildMode)
        ensures
            mode == self@.request.mode,
    {
        self.mode
    }

    /// Which commands run elevated. The part on the configuration source
    /// is settled once the owner of the source is known.
    pub fn policy(&self) -> (policy: ElevationPolicy)
        ensures
            policy == self@.policy,
    {
        self.policy
    }

    /// Where the build goes, once that is settled.
    pub fn build_result(&self) -> (output: &BuildResult)
        ensures
            output@ == self@.output,
    {
        &self.output
    }

    /// The profile to activate, once the specialisation is resolved.
    pub fn target_profile(&self) -> (path: &String)
        ensures
            path@ == self@.target_profile,
    {
        &self.target_profile
    }

    /// How the workflow ended, once it has.
    pub fn outcome(&self) -> (outcome: Option<Result<Completion, RebuildError>>)
        ensures
            outcome == match self@.phase {
                Phase::Done(o) => Some(o),
                _ => None,
            },
    {
        match self.phase {
            Phase::Done(o) => Some(o),
            _ => None,
        }
    }

    fn finish(&mut self, outcome: Result<Completion, RebuildError>)
        ensures
            final(self)@ == old(self)@.finish(outcome),
    {
        if self.output.ephemeral {
            self.phase = Phase::Release(outcome);
        } else {
            self.phase = Phase::Done(outcome);
        }
    }

    fn enter_hostname(&mut self)
        ensures
            final(self)@ == old(self)@.enter_hostname(),
    {
        match clone_option(&self.args.hostname) {
            Some(name) => {
                self.hostname = name;
                self.enter_output();
            },
            None => {
                self.phase = Phase::Hostname;
            },
        }
    }

    fn enter_output(&mut self)
        ensures
            final(self)@ == old(self)@.enter_output(),
    {
        match &self.args.out_link {
            Some(path) => {
                self.output = BuildResult::at(path.as_str());
                self.phase = Phase::SourceOwner;
            },
            None => {
                self.phase = Phase::BuildOutput;
            },
        }
    }

    fn enter_pull(&mut self)
        ensures
            final(self)@ == old(self)@.enter_pull(),
    {
        if self.args.pull {
            self.phase = Phase::Pull;
        } else {
            self.enter_update();
        }
    }

    fn enter_update(&mut self)
        ensures
            final(self)@ == old(self)@.enter_update(),
    {
        if self.args.update {
            self.phase = Phase::ToolVersion;
        } else {
            self.phase = Phase::Build;
        }
    }

    fn after_diff(&mut self)
        ensures
            final(self)@ == old(self)@.after_diff(),
    {
        let build_only: bool = match self.mode {
            RebuildMode::Build => true,
            _ => false,
        };
        if self.args.dry || build_only {
            self.finish(Ok(Completion::EarlyExit));
        } else if self.args.ask {
            self.phase = Phase::Confirm;
        } else {
            self.enter_test();
        }
    }

    fn enter_test(&mut self)
        ensures
            final(self)@ == old(self)@.enter_test(),
    {
        if self.mode.runs_test_phase() {
            self.phase = Phase::ActivateTest;
        } else {
            self.enter_boot();
        }
    }

    fn enter_boot(&mut self)
        ensures
            final(self)@ == old(self)@.enter_boot(),
    {
        if self.mode.runs_boot_phase() {
            self.phase = Phase::SystemProfile;
        } else {
            self.finish(Ok(Completion::Activated));
        }
    }

    fn on_hostname(&mut self, event: Event)
        ensures
            final(self)@ == old(self)@.on_hostname(event@),
    {
        match event {
            Event::Hostname(name) => {
                self.hostname = name;
                self.enter_output();
            },
            _ => {
                self.finish(Err(RebuildError::CommandFailure(Step::Hostname)));
            },
        }
    }

    fn on_build_output(&mut self, event: Event)
        ensures
            final(self)@ == old(self)@.on_build_output(event@),
    {
        match event {
            Event::BuildOutput(dir) => {
                self.output = BuildResult::in_ephemeral(dir.as_str());
                self.phase = Phase::SourceOwner;
            },
            _ => {
                self.finish(Err(RebuildError::CommandFailure(Step::BuildOutput)));
            },
        }
    }

    fn on_source_owner(&mut self, event: Event)
        ensures
            final(self)@ == old(self)@.on_source_owner(event@),
    {
        let owned: bool = match event {
            Event::SourceOwner(owner) => source_is_root_owned(owner),
            _ => false,
        };
        match ElevationPolicy::decide(
            self.identity.is_root(),
            self.args.bypass_root_check,
            owned,
        ) {
            Ok(policy) => {
                self.policy = policy;
                self.enter_pull();
            },
            Err(error) => {
                self.finish(Err(error));
            },
        }
    }

    fn on_pull(&mut self, event: Event)
        ensures
            final(self)@ == old(self)@.on_pull(event@),
    {
        match event {
            Event::Succeeded => {
                self.enter_update();
            },
            _ => {
                self.finish(Err(RebuildError::CommandFailure(Step::Pull)));
            },
        }
    }

    fn on_tool_version(&mut self, event: Event)
        ensures
            final(self)@ == old(self)@.on_tool_version(event@),
    {
        match event {
            Event::ToolVersion(version) => match needs_selector(version.as_str()) {
                Some(selector) => {
                    self.selector = selector;
                    self.phase = Phase::Conflicts;
                },
                None => {
                    self.finish(Err(RebuildError::ToolchainError));
                },
            },
            _ => {
                self.finish(Err(RebuildError::ToolchainError));
            },
        }
    }

    fn on_conflicts(&mut self, event: Event)
        ensures
            final(self)@ == old(self)@.on_conflicts(event@),
    {
        match event {
            Event::Captured(None) => {
                self.phase = Phase::Update;
            },
            Event::Captured(Some(output)) => match conflicts_in(output.as_str()) {
                ConflictStatus::Clean => {
                    self.phase = Phase::Update;
                },
                ConflictStatus::LockFileOnly => {
                    self.phase = Phase::LockReset;
                },
                ConflictStatus::Foreign => {
                    self.finish(Err(RebuildError::ConflictError));
                },
            },
            _ => {
                self.finish(Err(RebuildError::CommandFailure(Step::ConflictCheck)));
            },
        }
    }

    fn on_command(&mut self, event: Event, step: Step, then: Phase)
        ensures
            final(self)@ == old(self)@.on_command(event@, step, then),
    {
        match event {
            Event::Succeeded => {
                self.phase = then;
            },
            _ => {
                self.finish(Err(RebuildError::CommandFailure(step)));
            },
        }
    }

    fn on_specialisation(&mut self, event: Event)
        ensures
            final(self)@ == old(self)@.on_specialisation(event@),
    {
        let current: Option<String> = match event {
            Event::Specialisation(name) => name,
            _ => None,
        };
        let chosen: Option<String> = resolve_specialisation(
            self.args.no_specialisation,
            &self.args.specialisation,
            &current,
        );
        self.target_profile = target_profile(self.output.path.as_str(), &chosen);
        self.phase = Phase::Probe;
    }

    fn on_probe(&mut self, event: Event)
        ensures
            final(self)@ == old(self)@.on_probe(event@),
    {
        match event {
            Event::ProfileExists(true) => {
                self.phase = Phase::Diff;
            },
            _ => {
                self.finish(Err(RebuildError::MissingProfile));
            },
        }
    }

    fn on_diff(&mut self, event: Event)
        ensures
            final(self)@ == old(self)@.on_diff(event@),
    {
        match event {
            Event::Succeeded => {
                self.after_diff();
            },
            _ => {
                self.finish(Err(RebuildError::CommandFailure(Step::Diff)));
            },
        }
    }

    fn on_confirm(&mut self, event: Event)
        ensures
            final(self)@ == old(self)@.on_confirm(event@),
    {
        match event {
            Event::Confirmation(true) => {
                self.enter_test();
            },
            Event::Confirmation(false) => {
                self.finish(Ok(Completion::Declined));
            },
            _ => {
                self.finish(Err(RebuildError::CommandFailure(Step::Confirm)));
            },
        }
    }

    fn on_activate_test(&mut self, event: Event)
        ensures
            final(self)@ == old(self)@.on_activate_test(event@),
    {
        match event {
            Event::Succeeded => {
                self.enter_boot();
            },
            _ => {
                self.finish(Err(RebuildError::CommandFailure(Step::ActivateTest)));
            },
        }
    }

    fn on_system_profile(&mut self, event: Event)
        ensures
            final(self)@ == old(self)@.on_system_profile(event@),
    {
        match event {
            Event::SystemProfile(file) => {
                self.profile_writable = self.identity.can_write(&file);
                self.phase = Phase::SetProfile;
            },
            _ => {
                self.finish(Err(RebuildError::CommandFailure(Step::InspectProfile)));
            },
        }
    }

    fn on_set_profile(&mut self, event: Event)
        ensures
            final(self)@ == old(self)@.on_set_profile(event@),
    {
        match event {
            Event::Succeeded => match self.platform {
                Platform::Linux => {
                    self.phase = Phase::Bootloader;
                },
                Platform::Darwin => {
                    self.phase = Phase::ActivateUser;
                },
            },
            _ => {
                self.finish(Err(RebuildError::CommandFailure(Step::SetProfile)));
            },
        }
    }

    fn on_last_command(&mut self, event: Event, step: Step)
        ensures
            final(self)@ == old(self)@.on_last_command(event@, step),
    {
        match event {
            Event::Succeeded => {
                self.finish(Ok(Completion::Activated));
            },
            _ => {
                self.finish(Err(RebuildError::CommandFailure(step)));
            },
        }
    }

    /// Moves the workflow on by the answer to its pending action.
    fn advance(&mut self, event: Event)
        ensures
            final(self)@ == old(self)@.next(event@),
    {
        match self.phase {
            Phase::Hostname => self.on_hostname(event),
            Phase::BuildOutput => self.on_build_output(event),
            Phase::SourceOwner => self.on_source_owner(event),
            Phase::Pull => self.on_pull(event),
            Phase::ToolVersion => self.on_tool_version(event),
            Phase::Conflicts => self.on_conflicts(event),
            Phase::LockReset => self.on_command(event, Step::LockReset, Phase::LockCheckout),
            Phase::LockCheckout => self.on_command(event, Step::LockCheckout, Phase::Update),
            Phase::Update => self.on_command(event, Step::Update, Phase::Build),
            Phase::Build => self.on_command(event, Step::Build, Phase::Specialisation),
            Phase::Specialisation => self.on_specialisation(event),
            Phase::Probe => self.on_probe(event),
            Phase::Diff => self.on_diff(event),
            Phase::Confirm => self.on_confirm(event),
            Phase::ActivateTest => self.on_activate_test(event),
            Phase::SystemProfile => self.on_system_profile(event),
            Phase::SetProfile => self.on_set_profile(event),
            Phase::Bootloader => self.on_last_command(event, Step::Bootloader),
            Phase::ActivateUser => self.on_command(event, Step::ActivateUser, Phase::Activate),
            Phase::Activate => self.on_last_command(event, Step::Activate),
            Phase::Release(outcome) => {
                self.phase = Phase::Done(outcome);
            },
            Phase::Done(_) => {},
        }
    }

    /// The action that the workflow waits for.
    pub fn pending(&self) -> (action: Action)
        ensures
            action@ == self@.pending(),
    {
        let flakeref: &str = self.args.flakeref.as_str();
        let out_path: &str = self.output.path.as_str();
        let target: &str = self.target_profile.as_str();
        let dry: bool = self.args.dry;
        let use_sudo: bool = self.policy.use_sudo;
        let elevate_source: bool = self.policy.elevate_source;
        match self.phase {
            Phase::Hostname => Action::QueryHostname,
            Phase::BuildOutput => Action::AllocateBuildOutput,
            Phase::SourceOwner => Action::InspectSource(String::from_str(flakeref)),
            Phase::Pull => Action::Run(Step::Pull, make_pull_command(flakeref, elevate_source, dry)),
            Phase::ToolVersion => Action::QueryToolVersion,
            Phase::Conflicts => Action::Run(
                Step::ConflictCheck,
                make_conflict_check_command(flakeref, dry),
            ),
            Phase::LockReset => Action::Run(Step::LockReset, make_lock_reset_command(flakeref, dry)),
            Phase::LockCheckout => Action::Run(
                Step::LockCheckout,
                make_lock_checkout_command(flakeref, dry),
            ),
            Phase::Update => Action::Run(
                Step::Update,
                make_lock_refresh_command(flakeref, self.selector, elevate_source, dry),
            ),
            Phase::Build => Action::Build(
                make_build_command(
                    flakeref,
                    self.platform,
                    self.hostname.as_str(),
                    out_path,
                    &self.args.extra_args,
                    self.args.no_nom,
                    dry,
                ),
            ),
            Phase::Specialisation => Action::ReadSpecialisation(String::from_str(SPEC_LOCATION)),
            Phase::Probe => Action::ProbeProfile(String::from_str(target)),
            Phase::Diff => Action::Run(
                Step::Diff,
                make_diff_command(self.args.diff_provider.as_str(), target, dry),
            ),
            Phase::Confirm => Action::Confirm,
            Phase::ActivateTest => Action::Run(
                Step::ActivateTest,
                make_test_command(target, use_sudo, dry),
            ),
            Phase::SystemProfile => Action::InspectProfile(String::from_str(SYSTEM_PROFILE)),
            Phase::SetProfile => Action::Run(
                Step::SetProfile,
                make_set_profile_command(out_path, use_sudo, self.profile_writable, dry),
            ),
            Phase::Bootloader => Action::Run(
                Step::Bootloader,
                make_bootloader_command(out_path, use_sudo, dry),
            ),
            Phase::ActivateUser => Action::Run(
                Step::ActivateUser,
                make_activate_user_command(out_path, dry),
            ),
            Phase::Activate => Action::Run(
                Step::Activate,
                make_activate_command(out_path, use_sudo, dry),
            ),
            Phase::Release(_) => Action::ReleaseBuildOutput,
            Phase::Done(outcome) => Action::Finish(outcome),
        }
    }

    /// Takes the answer to the pending action and hands out the next one.
    /// Once the workflow has ended, every further event is answered with
    /// the same [`Action::Finish`].
    pub fn step(&mut self, event: Event) -> (action: Action)
        ensures
            final(self)@ == old(self)@.next(event@),
            old(self)@.consistent() ==> final(self)@.consistent(),
            action@ == final(self)@.pending(),
    {
        proof {
            if self@.consistent() {
                lemma_next_is_consistent(self@, event@);
            }
        }
        self.advance(event);
        self.pending()
    }
}

} // verus!
