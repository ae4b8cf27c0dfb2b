//! Dry runs: they go the way of the real run and only log.

use vstd::prelude::*;
use crate::command::{BuildCommandModel, CommandModel};
use crate::error::{Completion, RebuildError, Step};
use crate::consistency::{
    lemma_after,
    lemma_after_is_consistent,
    lemma_run_is_consistent,
    lemma_run_keeps_request,
    lemma_settled_stays,
};
use crate::model::{start, ActionModel, EventModel, Phase, WorkflowModel};
use crate::privilege::Identity;
use crate::request::{Platform, RebuildRequest};

verus! {

impl ActionModel {
    /// The same action with its command, if it has one, marked dry.
    pub open spec fn marked_dry(self) -> ActionModel {
        match self {
            ActionModel::Run(step, command) => ActionModel::Run(
                step,
                CommandModel { dry: true, ..command },
            ),
            ActionModel::Build(build) => ActionModel::Build(
                BuildCommandModel { dry: true, ..build },
            ),
            other => other,
        }
    }
}

impl WorkflowModel {
    /// The state in which the run of the same request without `dry`
    /// would be.
    pub open spec fn for_real(self) -> WorkflowModel {
        WorkflowModel { request: RebuildRequest { dry: false, ..self.request }, ..self }
    }
}

/// In a dry run every command that the workflow asks for is dry and has
/// a message, so that its execution logs the message and spawns nothing;
/// no command that activates is asked for at all; and the build tool is
/// asked for its version only where the lock file is to be refreshed.
pub proof fn law_dry_run_only_logs(
    request: RebuildRequest,
    platform: Platform,
    identity: Identity,
    events: Seq<EventModel>,
)
    requires
        request.dry,
    ensures
        ({
            let action = start(request, platform, identity).after(events).pending();
            &&& action matches ActionModel::Run(_, command) ==> {
                &&& command.dry
                &&& command.execution().spawn is None
                &&& command.execution().log is Some
            }
            &&& action matches ActionModel::Build(build) ==> {
                &&& build.dry
                &&& build.execution().spawn is None
                &&& build.execution().log is Some
            }
            &&& !action.is_activation()
            &&& action is QueryToolVersion ==> request.update
        }),
{
    lemma_run_is_consistent(request, platform, identity, events);
    lemma_run_keeps_request(request, platform, identity, events);
}

/// The execution of a command logs its message whether the command is dry
/// or not, and spawns a process exactly where it is not dry.
pub proof fn law_dry_commands_are_logged(command: CommandModel)
    ensures
        command.execution().log == command.message,
        command.execution().spawn is None <==> command.dry,
        !command.dry ==> command.execution().spawn == Some(command.invocation()),
{
}

/// The two states are one but for `dry`: the first is where the run
/// without `dry` stands when the second is where the dry run stands.
#[verifier::opaque]
pub open spec fn mirrors(actual: WorkflowModel, dried: WorkflowModel) -> bool {
    &&& actual.request == RebuildRequest { dry: false, ..dried.request }
    &&& actual.platform == dried.platform
    &&& actual.identity == dried.identity
    &&& actual.phase == dried.phase
    &&& actual.policy == dried.policy
    &&& actual.hostname == dried.hostname
    &&& actual.output == dried.output
    &&& actual.selector == dried.selector
    &&& actual.target_profile == dried.target_profile
    &&& actual.profile_writable == dried.profile_writable
}

/// The event does to the dry state what it does to its counterpart
/// without `dry`.
#[verifier::opaque]
pub open spec fn steps_alike(w: WorkflowModel, event: EventModel) -> bool {
    mirrors(w.for_real().next(event), w.next(event))
}

proof fn lemma_dry_from_hostname(w: WorkflowModel, event: EventModel)
    requires
        w.phase is Hostname,
    ensures
        mirrors(w.for_real().on_hostname(event), w.on_hostname(event)),
{
    reveal(mirrors);
}

proof fn lemma_alike_from_hostname(w: WorkflowModel, event: EventModel)
    requires
        w.phase is Hostname,
    ensures
        steps_alike(w, event),
{
    reveal(steps_alike);
    lemma_dry_from_hostname(w, event);
}

proof fn lemma_dry_from_build_output(w: WorkflowModel, event: EventModel)
    requires
        w.phase is BuildOutput,
    ensures
        mirrors(w.for_real().on_build_output(event), w.on_build_output(event)),
{
    reveal(mirrors);
}

proof fn lemma_alike_from_build_output(w: WorkflowModel, event: EventModel)
    requires
        w.phase is BuildOutput,
    ensures
        steps_alike(w, event),
{
    reveal(steps_alike);
    lemma_dry_from_build_output(w, event);
}

proof fn lemma_dry_from_source_owner(w: WorkflowModel, event: EventModel)
    requires
        w.phase is SourceOwner,
    ensures
        mirrors(w.for_real().on_source_owner(event), w.on_source_owner(event)),
{
    reveal(mirrors);
}

proof fn lemma_alike_from_source_owner(w: WorkflowModel, event: EventModel)
    requires
        w.phase is SourceOwner,
    ensures
        steps_alike(w, event),
{
    reveal(steps_alike);
    lemma_dry_from_source_owner(w, event);
}

proof fn lemma_dry_from_pull(w: WorkflowModel, event: EventModel)
    requires
        w.phase is Pull,
    ensures
        mirrors(w.for_real().on_pull(event), w.on_pull(event)),
{
    reveal(mirrors);
}

proof fn lemma_alike_from_pull(w: WorkflowModel, event: EventModel)
    requires
        w.phase is Pull,
    ensures
        steps_alike(w, event),
{
    reveal(steps_alike);
    lemma_dry_from_pull(w, event);
}

proof fn lemma_dry_from_tool_version(w: WorkflowModel, event: EventModel)
    requires
        w.phase is ToolVersion,
    ensures
        mirrors(w.for_real().on_tool_version(event), w.on_tool_version(event)),
{
    reveal(mirrors);
}

proof fn lemma_alike_from_tool_version(w: WorkflowModel, event: EventModel)
    requires
        w.phase is ToolVersion,
    ensures
        steps_alike(w, event),
{
    reveal(steps_alike);
    lemma_dry_from_tool_version(w, event);
}

proof fn lemma_dry_from_conflicts(w: WorkflowModel, event: EventModel)
    requires
        w.phase is Conflicts,
    ensures
        mirrors(w.for_real().on_conflicts(event), w.on_conflicts(event)),
{
    reveal(mirrors);
}

proof fn lemma_alike_from_conflicts(w: WorkflowModel, event: EventModel)
    requires
        w.phase is Conflicts,
    ensures
        steps_alike(w, event),
{
    reveal(steps_alike);
    lemma_dry_from_conflicts(w, event);
}

proof fn lemma_dry_from_lock_reset(w: WorkflowModel, event: EventModel)
    requires
        w.phase is LockReset,
    ensures
        mirrors(w.for_real().on_command(event, Step::LockReset, Phase::LockCheckout), w.on_command(event, Step::LockReset, Phase::LockCheckout)),
{
    reveal(mirrors);
}

proof fn lemma_alike_from_lock_reset(w: WorkflowModel, event: EventModel)
    requires
        w.phase is LockReset,
    ensures
        steps_alike(w, event),
{
    reveal(steps_alike);
    lemma_dry_from_lock_reset(w, event);
}

proof fn lemma_dry_from_lock_checkout(w: WorkflowModel, event: EventModel)
    requires
        w.phase is LockCheckout,
    ensures
        mirrors(w.for_real().on_command(event, Step::LockCheckout, Phase::Update), w.on_command(event, Step::LockCheckout, Phase::Update)),
{
    reveal(mirrors);
}

proof fn lemma_alike_from_lock_checkout(w: WorkflowModel, event: EventModel)
    requires
        w.phase is LockCheckout,
    ensures
        steps_alike(w, event),
{
    reveal(steps_alike);
    lemma_dry_from_lock_checkout(w, event);
}

proof fn lemma_dry_from_update(w: WorkflowModel, event: EventModel)
    requires
        w.phase is Update,
    ensures
        mirrors(w.for_real().on_command(event, Step::Update, Phase::Build), w.on_command(event, Step::Update, Phase::Build)),
{
    reveal(mirrors);
}

proof fn lemma_alike_from_update(w: WorkflowModel, event: EventModel)
    requires
        w.phase is Update,
    ensures
        steps_alike(w, event),
{
    reveal(steps_alike);
    lemma_dry_from_update(w, event);
}

proof fn lemma_dry_from_build(w: WorkflowModel, event: EventModel)
    requires
        w.phase is Build,
    ensures
        mirrors(w.for_real().on_command(event, Step::Build, Phase::Specialisation), w.on_command(event, Step::Build, Phase::Specialisation)),
{
    reveal(mirrors);
}

proof fn lemma_alike_from_build(w: WorkflowModel, event: EventModel)
    requires
        w.phase is Build,
    ensures
        steps_alike(w, event),
{
    reveal(steps_alike);
    lemma_dry_from_build(w, event);
}

proof fn lemma_dry_from_specialisation(w: WorkflowModel, event: EventModel)
    requires
        w.phase is Specialisation,
    ensures
        mirrors(w.for_real().on_specialisation(event), w.on_specialisation(event)),
{
    reveal(mirrors);
}

proof fn lemma_alike_from_specialisation(w: WorkflowModel, event: EventModel)
    requires
        w.phase is Specialisation,
    ensures
        steps_alike(w, event),
{
    reveal(steps_alike);
    lemma_dry_from_specialisation(w, event);
}

proof fn lemma_dry_from_probe(w: WorkflowModel, event: EventModel)
    requires
        w.phase is Probe,
    ensures
        mirrors(w.for_real().on_probe(event), w.on_probe(event)),
{
    reveal(mirrors);
}

proof fn lemma_alike_from_probe(w: WorkflowModel, event: EventModel)
    requires
        w.phase is Probe,
    ensures
        steps_alike(w, event),
{
    reveal(steps_alike);
    lemma_dry_from_probe(w, event);
}

proof fn lemma_dry_from_diff(w: WorkflowModel, event: EventModel)
    requires
        w.phase is Diff,
        !(event is Succeeded),
    ensures
        mirrors(w.for_real().on_diff(event), w.on_diff(event)),
{
    reveal(mirrors);
}

proof fn lemma_alike_from_diff(w: WorkflowModel, event: EventModel)
    requires
        w.phase is Diff,
        !(event is Succeeded),
    ensures
        steps_alike(w, event),
{
    reveal(steps_alike);
    lemma_dry_from_diff(w, event);
}

proof fn lemma_dry_from_confirm(w: WorkflowModel, event: EventModel)
    requires
        w.phase is Confirm,
    ensures
        mirrors(w.for_real().on_confirm(event), w.on_confirm(event)),
{
    reveal(mirrors);
}

proof fn lemma_alike_from_confirm(w: WorkflowModel, event: EventModel)
    requires
        w.phase is Confirm,
    ensures
        steps_alike(w, event),
{
    reveal(steps_alike);
    lemma_dry_from_confirm(w, event);
}

proof fn lemma_dry_from_activate_test(w: WorkflowModel, event: EventModel)
    requires
        w.phase is ActivateTest,
    ensures
        mirrors(w.for_real().on_activate_test(event), w.on_activate_test(event)),
{
    reveal(mirrors);
}

proof fn lemma_alike_from_activate_test(w: WorkflowModel, event: EventModel)
    requires
        w.phase is ActivateTest,
    ensures
        steps_alike(w, event),
{
    reveal(steps_alike);
    lemma_dry_from_activate_test(w, event);
}

proof fn lemma_dry_from_system_profile(w: WorkflowModel, event: EventModel)
    requires
        w.phase is SystemProfile,
    ensures
        mirrors(w.for_real().on_system_profile(event), w.on_system_profile(event)),
{
    reveal(mirrors);
}

proof fn lemma_alike_from_system_profile(w: WorkflowModel, event: EventModel)
    requires
        w.phase is SystemProfile,
    ensures
        steps_alike(w, event),
{
    reveal(steps_alike);
    lemma_dry_from_system_profile(w, event);
}

proof fn lemma_dry_from_set_profile(w: WorkflowModel, event: EventModel)
    requires
        w.phase is SetProfile,
    ensures
        mirrors(w.for_real().on_set_profile(event), w.on_set_profile(event)),
{
    reveal(mirrors);
}

proof fn lemma_alike_from_set_profile(w: WorkflowModel, event: EventModel)
    requires
        w.phase is SetProfile,
    ensures
        steps_alike(w, event),
{
    reveal(steps_alike);
    lemma_dry_from_set_profile(w, event);
}

proof fn lemma_dry_from_bootloader(w: WorkflowModel, event: EventModel)
    requires
        w.phase is Bootloader,
    ensures
        mirrors(w.for_real().on_last_command(event, Step::Bootloader), w.on_last_command(event, Step::Bootloader)),
{
    reveal(mirrors);
}

proof fn lemma_alike_from_bootloader(w: WorkflowModel, event: EventModel)
    requires
        w.phase is Bootloader,
    ensures
        steps_alike(w, event),
{
    reveal(steps_alike);
    lemma_dry_from_bootloader(w, event);
}

proof fn lemma_dry_from_activate_user(w: WorkflowModel, event: EventModel)
    requires
        w.phase is ActivateUser,
    ensures
        mirrors(w.for_real().on_command(event, Step::ActivateUser, Phase::Activate), w.on_command(event, Step::ActivateUser, Phase::Activate)),
{
    reveal(mirrors);
}

proof fn lemma_alike_from_activate_user(w: WorkflowModel, event: EventModel)
    requires
        w.phase is ActivateUser,
    ensures
        steps_alike(w, event),
{
    reveal(steps_alike);
    lemma_dry_from_activate_user(w, event);
}

proof fn lemma_dry_from_activate(w: WorkflowModel, event: EventModel)
    requires
        w.phase is Activate,
    ensures
        mirrors(w.for_real().on_last_command(event, Step::Activate), w.on_last_command(event, Step::Activate)),
{
    reveal(mirrors);
}

proof fn lemma_alike_from_activate(w: WorkflowModel, event: EventModel)
    requires
        w.phase is Activate,
    ensures
        steps_alike(w, event),
{
    reveal(steps_alike);
    lemma_dry_from_activate(w, event);
}

proof fn lemma_alike_from_release(w: WorkflowModel, event: EventModel)
    requires
        w.phase is Release,
    ensures
        steps_alike(w, event),
{
    reveal(steps_alike);
    reveal(mirrors);
    let outcome = w.phase->Release_0;
    assert(w.next(event) == w.at(Phase::Done(outcome)));
    assert(w.for_real().next(event) == w.for_real().at(Phase::Done(outcome)));
}

proof fn lemma_alike_from_done(w: WorkflowModel, event: EventModel)
    requires
        w.phase is Done,
    ensures
        steps_alike(w, event),
{
    reveal(steps_alike);
    reveal(mirrors);
    assert(w.next(event) == w);
    assert(w.for_real().next(event) == w.for_real());
}

/// Whether a run is dry makes no difference to what an event does,
/// except where the comparison has succeeded: there the dry run stops.
pub proof fn lemma_dry_steps_like_real(w: WorkflowModel, event: EventModel)
    requires
        !(w.phase is Diff && event is Succeeded),
    ensures
        steps_alike(w, event),
{
    match w.phase {
        Phase::Hostname => {
            lemma_alike_from_hostname(w, event);
        },
        Phase::BuildOutput => {
            lemma_alike_from_build_output(w, event);
        },
        Phase::SourceOwner => {
            lemma_alike_from_source_owner(w, event);
        },
        Phase::Pull => {
            lemma_alike_from_pull(w, event);
        },
        Phase::ToolVersion => {
            lemma_alike_from_tool_version(w, event);
        },
        Phase::Conflicts => {
            lemma_alike_from_conflicts(w, event);
        },
        Phase::LockReset => {
            lemma_alike_from_lock_reset(w, event);
        },
        Phase::LockCheckout => {
            lemma_alike_from_lock_checkout(w, event);
        },
        Phase::Update => {
            lemma_alike_from_update(w, event);
        },
        Phase::Build => {
            lemma_alike_from_build(w, event);
        },
        Phase::Specialisation => {
            lemma_alike_from_specialisation(w, event);
        },
        Phase::Probe => {
            lemma_alike_from_probe(w, event);
        },
        Phase::Diff => {
            lemma_alike_from_diff(w, event);
        },
        Phase::Confirm => {
            lemma_alike_from_confirm(w, event);
        },
        Phase::ActivateTest => {
            lemma_alike_from_activate_test(w, event);
        },
        Phase::SystemProfile => {
            lemma_alike_from_system_profile(w, event);
        },
        Phase::SetProfile => {
            lemma_alike_from_set_profile(w, event);
        },
        Phase::Bootloader => {
            lemma_alike_from_bootloader(w, event);
        },
        Phase::ActivateUser => {
            lemma_alike_from_activate_user(w, event);
        },
        Phase::Activate => {
            lemma_alike_from_activate(w, event);
        },
        Phase::Release(_) => {
            lemma_alike_from_release(w, event);
        },
        Phase::Done(_) => {
            lemma_alike_from_done(w, event);
        },
    }
}

/// States that are one but for `dry` stay so over an event, except where
/// the comparison has succeeded.
pub proof fn lemma_mirror_step(actual: WorkflowModel, dried: WorkflowModel, event: EventModel)
    requires
        mirrors(actual, dried),
        !(dried.phase is Diff && event is Succeeded),
    ensures
        mirrors(actual.next(event), dried.next(event)),
{
    lemma_dry_steps_like_real(dried, event);
    reveal(steps_alike);
    assert(actual == dried.for_real()) by {
        reveal(mirrors);
    }
}

/// A dry run stops once the comparison has succeeded.
pub proof fn lemma_dry_run_stops_after_diff(w: WorkflowModel, event: EventModel)
    requires
        w.phase is Diff,
        event is Succeeded,
        w.request.dry,
    ensures
        w.next(event).phase.outcome() == Some(
            Ok::<Completion, RebuildError>(Completion::EarlyExit),
        ),
{
    assert(w.next(event) == w.on_diff(event));
}

/// From a dry state and from its counterpart without `dry`, the same
/// events lead to states that are one but for `dry`, unless the dry run
/// has stopped after the comparison.
proof fn lemma_dry_run_mirrors_from(w: WorkflowModel, events: Seq<EventModel>)
    requires
        w.request.dry,
    ensures
        w.after(events).phase.outcome() == Some(
            Ok::<Completion, RebuildError>(Completion::EarlyExit),
        ) || mirrors(w.for_real().after(events), w.after(events)),
    decreases events.len(),
{
    lemma_after(w, events);
    lemma_after(w.for_real(), events);
    if events.len() == 0 {
        reveal(mirrors);
    } else {
        let shorter = events.drop_last();
        let before = w.after(shorter);
        lemma_dry_run_mirrors_from(w, shorter);
        lemma_after_is_consistent(w, shorter);
        if before.phase.settled() && before.phase.outcome() == Some(
            Ok::<Completion, RebuildError>(Completion::EarlyExit),
        ) {
            lemma_settled_stays(before, events.last());
        } else if before.phase is Diff && events.last() is Succeeded {
            lemma_dry_run_stops_after_diff(before, events.last());
        } else {
            lemma_mirror_step(w.for_real().after(shorter), before, events.last());
        }
    }
}

/// A run begins in the same way whether it is dry or not.
proof fn lemma_dry_run_starts_like_real(request: RebuildRequest, platform: Platform, identity: Identity)
    ensures
        start(request, platform, identity).for_real() == start(
            RebuildRequest { dry: false, ..request },
            platform,
            identity,
        ),
        start(request, platform, identity).request == request,
{
}

/// A dry run goes the way of the real run. As long as it has not stopped
/// after the comparison, it is in the state in which the run of the same
/// request without `dry` would be after the same events, and waits for
/// the same action, marked dry. So every command that the real run would
/// run up to there, the dry run asks to log.
pub proof fn law_dry_run_mirrors_the_real_run(
    request: RebuildRequest,
    platform: Platform,
    identity: Identity,
    events: Seq<EventModel>,
)
    requires
        request.dry,
    ensures
        ({
            let dried = start(request, platform, identity).after(events);
            let actual = start(RebuildRequest { dry: false, ..request }, platform, identity).after(
                events,
            );
            ||| dried.phase.outcome() == Some(Ok::<Completion, RebuildError>(Completion::EarlyExit))
            ||| dried.for_real() == actual && dried.pending() == actual.pending().marked_dry()
        }),
{
    let first = start(request, platform, identity);
    lemma_dry_run_starts_like_real(request, platform, identity);
    lemma_dry_run_mirrors_from(first, events);
    lemma_after_is_consistent(first, events);
    reveal(mirrors);
    lemma_pending_marked_dry(first.after(events));
}

/// What a dry state waits for is what its real counterpart waits for,
/// marked dry.
pub proof fn lemma_pending_marked_dry(w: WorkflowModel)
    requires
        w.request.dry,
    ensures
        w.pending() == w.for_real().pending().marked_dry(),
{
}

} // verus!
