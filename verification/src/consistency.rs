//! What every state of a run has in common, and what a single event can
//! do to a state. The laws of the workflow are proved from here.

use vstd::prelude::*;
use crate::building::{caller_result, ephemeral_result};
use crate::error::{Completion, RebuildError, Step};
use crate::model::{start, ActionModel, EventModel, Phase, WorkflowModel};
use crate::privilege::{is_root, sudo_use, Identity};
use crate::request::{Platform, RebuildRequest};
use crate::specialisation::{profile_path, resolved};

verus! {

impl Phase {
    /// The place of the phase in the order of the workflow.
    pub open spec fn rank(self) -> nat {
        match self {
            Phase::Hostname => 0,
            Phase::BuildOutput => 1,
            Phase::SourceOwner => 2,
            Phase::Pull => 3,
            Phase::ToolVersion => 4,
            Phase::Conflicts => 5,
            Phase::LockReset => 6,
            Phase::LockCheckout => 7,
            Phase::Update => 8,
            Phase::Build => 9,
            Phase::Specialisation => 10,
            Phase::Probe => 11,
            Phase::Diff => 12,
            Phase::Confirm => 13,
            Phase::ActivateTest => 14,
            Phase::SystemProfile => 15,
            Phase::SetProfile => 16,
            Phase::Bootloader => 17,
            Phase::ActivateUser => 18,
            Phase::Activate => 19,
            Phase::Release(_) => 20,
            Phase::Done(_) => 21,
        }
    }

    /// The outcome is settled: the workflow is releasing the build output
    /// or is over.
    pub open spec fn settled(self) -> bool {
        self is Release || self is Done
    }

    /// The outcome, once it is settled.
    pub open spec fn outcome(self) -> Option<Result<Completion, RebuildError>> {
        match self {
            Phase::Release(outcome) => Some(outcome),
            Phase::Done(outcome) => Some(outcome),
            _ => None,
        }
    }

    /// Nothing has gone wrong and nothing was called off: the workflow is
    /// under way, or has activated all that the mode asks for.
    pub open spec fn on_course(self) -> bool {
        !self.settled() || self.outcome() == Some(
            Ok::<Completion, RebuildError>(Completion::Activated),
        )
    }

    /// The phase belongs to the activation of the running system.
    pub open spec fn in_test_phase(self) -> bool {
        self is ActivateTest
    }

    /// The phase belongs to making the build the boot default.
    pub open spec fn in_boot_phase(self) -> bool {
        self is SystemProfile || self is SetProfile || self is Bootloader || self is ActivateUser
            || self is Activate
    }
}

impl RebuildRequest {
    /// A run of this request on `platform` may pass by `phase` without
    /// entering it.
    pub open spec fn may_skip(self, platform: Platform, phase: Phase) -> bool {
        match phase {
            Phase::Hostname => self.hostname is Some,
            Phase::BuildOutput => self.out_link is Some,
            Phase::SourceOwner => false,
            Phase::Pull => !self.pull,
            Phase::ToolVersion => !self.update,
            Phase::Conflicts => !self.update,
            Phase::LockReset => true,
            Phase::LockCheckout => true,
            Phase::Update => !self.update,
            Phase::Build => false,
            Phase::Specialisation => false,
            Phase::Probe => false,
            Phase::Diff => false,
            Phase::Confirm => !self.ask,
            Phase::ActivateTest => !self.mode.activates(),
            Phase::SystemProfile => !self.mode.persists(),
            Phase::SetProfile => !self.mode.persists(),
            Phase::Bootloader => !self.mode.persists() || platform is Darwin,
            Phase::ActivateUser => !self.mode.persists() || platform is Linux,
            Phase::Activate => !self.mode.persists() || platform is Linux,
            Phase::Release(_) => true,
            Phase::Done(_) => true,
        }
    }
}

impl Step {
    /// The step changes the running system or what the machine boots
    /// into.
    pub open spec fn activates(self) -> bool {
        self is ActivateTest || self is SetProfile || self is Bootloader || self is ActivateUser
            || self is Activate
    }
}

impl ActionModel {
    /// The action is a command that activates.
    pub open spec fn is_activation(self) -> bool {
        match self {
            ActionModel::Run(step, _) => step.activates(),
            _ => false,
        }
    }
}

impl WorkflowModel {
    /// What holds of every state that a run reaches.
    pub open spec fn consistent(self) -> bool {
        let r = self.request;
        let p = self.phase;
        &&& match sudo_use(is_root(self.identity.uid), r.bypass_root_check) {
            Ok(use_sudo) => self.policy.use_sudo == use_sudo,
            Err(error) => p == Phase::Done(Err(error)),
        }
        &&& self.policy.elevate_source ==> self.policy.use_sudo
        &&& p is Pull ==> r.pull
        &&& Phase::ToolVersion.rank() <= p.rank() <= Phase::Update.rank() ==> r.update
        &&& Phase::Confirm.rank() <= p.rank() <= Phase::Activate.rank() ==> !r.dry && !(r.mode is Build)
        &&& p is Confirm ==> r.ask
        &&& p.in_test_phase() ==> r.mode.activates()
        &&& p.in_boot_phase() ==> r.mode.persists()
        &&& p is Bootloader ==> self.platform is Linux
        &&& p is ActivateUser || p is Activate ==> self.platform is Darwin
        &&& p is Release ==> self.output.ephemeral
        &&& self.output.ephemeral ==> r.out_link is None && p.rank() >= Phase::SourceOwner.rank()
        &&& p is Hostname ==> r.hostname is None
        &&& p is BuildOutput ==> r.out_link is None
        &&& p.outcome() == Some(Ok::<Completion, RebuildError>(Completion::Activated)) ==> !r.dry && !(r.mode is Build)
        &&& p.outcome() == Some(Ok::<Completion, RebuildError>(Completion::Declined)) ==> r.ask && !r.dry && !(r.mode is Build)
        &&& p.outcome() == Some(Ok::<Completion, RebuildError>(Completion::EarlyExit)) ==> r.dry || r.mode is Build
        &&& Phase::BuildOutput.rank() <= p.rank() <= Phase::Activate.rank() ==> (r.hostname matches Some(name)
            ==> self.hostname == name)
        &&& Phase::SourceOwner.rank() <= p.rank() <= Phase::Activate.rank() ==> match r.out_link {
            Some(path) => self.output == caller_result(path),
            None => exists|dir: Seq<char>| self.output == #[trigger] ephemeral_result(dir),
        }
        &&& Phase::Probe.rank() <= p.rank() <= Phase::Activate.rank() ==> exists|
            current: Option<Seq<char>>,
        |
            self.target_profile == profile_path(
                self.output.path,
                #[trigger] resolved(r.no_specialisation, r.specialisation, current),
            )
    }

    /// The state is reached from this one by the first `k` of `events`.
    pub open spec fn at_event(self, events: Seq<EventModel>, k: int) -> WorkflowModel {
        self.after(events.take(k))
    }

    /// Some state of the run from this one through `events` is in `phase`.
    pub open spec fn visits(self, events: Seq<EventModel>, phase: Phase) -> bool {
        exists|k: int| 0 <= k <= events.len() && (#[trigger] self.at_event(events, k)).phase == phase
    }
}

/// What one event may do to a state. It keeps what was asked and for
/// whom, and the elevation policy once that is decided; it moves the workflow forward unless it is over; it keeps a
/// consistent state consistent; it leaves a settled outcome as it is; it
/// ends a workflow with an ephemeral output only from a settled outcome;
/// it stops early only after the comparison and is declined only at the
/// prompt; and, while the run is on course, it passes by a phase only
/// where the request allows that.
#[verifier::opaque]
pub open spec fn steps_to(w: WorkflowModel, n: WorkflowModel) -> bool {
    &&& n.request == w.request
    &&& n.platform == w.platform
    &&& n.identity == w.identity
    &&& w.consistent() ==> n.policy.use_sudo == w.policy.use_sudo
    &&& !(w.phase is SourceOwner) ==> n.policy == w.policy
    &&& w.phase is Done ==> n == w
    &&& !(w.phase is Done) ==> n.phase.rank() > w.phase.rank()
    &&& w.consistent() ==> n.consistent()
    &&& w.phase.settled() ==> n.phase.settled() && n.phase.outcome() == w.phase.outcome()
    &&& n.output.ephemeral && n.phase is Done ==> w.phase.settled()
    &&& !w.phase.settled() && n.phase.outcome() == Some(
        Ok::<Completion, RebuildError>(Completion::EarlyExit),
    ) ==> w.phase is Diff
    &&& !w.phase.settled() && n.phase.outcome() == Some(
        Ok::<Completion, RebuildError>(Completion::Declined),
    ) ==> w.phase is Confirm
    &&& w.consistent() && n.phase.on_course() ==> forall|passed: Phase|
        w.phase.rank() < #[trigger] passed.rank() < n.phase.rank() ==> w.request.may_skip(
            w.platform,
            passed,
        )
}

proof fn lemma_from_hostname(w: WorkflowModel, event: EventModel)
    requires
        w.phase is Hostname,
    ensures
        steps_to(w, w.on_hostname(event)),
{
    reveal(steps_to);
}

proof fn lemma_from_build_output(w: WorkflowModel, event: EventModel)
    requires
        w.phase is BuildOutput,
    ensures
        steps_to(w, w.on_build_output(event)),
{
    reveal(steps_to);
}

proof fn lemma_from_source_owner(w: WorkflowModel, event: EventModel)
    requires
        w.phase is SourceOwner,
    ensures
        steps_to(w, w.on_source_owner(event)),
{
    reveal(steps_to);
}

proof fn lemma_from_pull(w: WorkflowModel, event: EventModel)
    requires
        w.phase is Pull,
    ensures
        steps_to(w, w.on_pull(event)),
{
    reveal(steps_to);
}

proof fn lemma_from_tool_version(w: WorkflowModel, event: EventModel)
    requires
        w.phase is ToolVersion,
    ensures
        steps_to(w, w.on_tool_version(event)),
{
    reveal(steps_to);
}

proof fn lemma_from_conflicts(w: WorkflowModel, event: EventModel)
    requires
        w.phase is Conflicts,
    ensures
        steps_to(w, w.on_conflicts(event)),
{
    reveal(steps_to);
}

proof fn lemma_from_lock_reset(w: WorkflowModel, event: EventModel)
    requires
        w.phase is LockReset,
    ensures
        steps_to(w, w.on_command(event, Step::LockReset, Phase::LockCheckout)),
{
    reveal(steps_to);
}

proof fn lemma_from_lock_checkout(w: WorkflowModel, event: EventModel)
    requires
        w.phase is LockCheckout,
    ensures
        steps_to(w, w.on_command(event, Step::LockCheckout, Phase::Update)),
{
    reveal(steps_to);
}

proof fn lemma_from_update(w: WorkflowModel, event: EventModel)
    requires
        w.phase is Update,
    ensures
        steps_to(w, w.on_command(event, Step::Update, Phase::Build)),
{
    reveal(steps_to);
}

proof fn lemma_from_build(w: WorkflowModel, event: EventModel)
    requires
        w.phase is Build,
    ensures
        steps_to(w, w.on_command(event, Step::Build, Phase::Specialisation)),
{
    reveal(steps_to);
}

proof fn lemma_from_specialisation(w: WorkflowModel, event: EventModel)
    requires
        w.phase is Specialisation,
    ensures
        steps_to(w, w.on_specialisation(event)),
{
    reveal(steps_to);
}

proof fn lemma_from_probe(w: WorkflowModel, event: EventModel)
    requires
        w.phase is Probe,
    ensures
        steps_to(w, w.on_probe(event)),
{
    reveal(steps_to);
}

proof fn lemma_from_diff(w: WorkflowModel, event: EventModel)
    requires
        w.phase is Diff,
    ensures
        steps_to(w, w.on_diff(event)),
{
    reveal(steps_to);
}

proof fn lemma_from_confirm(w: WorkflowModel, event: EventModel)
    requires
        w.phase is Confirm,
    ensures
        steps_to(w, w.on_confirm(event)),
{
    reveal(steps_to);
}

proof fn lemma_from_activate_test(w: WorkflowModel, event: EventModel)
    requires
        w.phase is ActivateTest,
    ensures
        steps_to(w, w.on_activate_test(event)),
{
    reveal(steps_to);
}

proof fn lemma_from_system_profile(w: WorkflowModel, event: EventModel)
    requires
        w.phase is SystemProfile,
    ensures
        steps_to(w, w.on_system_profile(event)),
{
    reveal(steps_to);
}

proof fn lemma_from_set_profile(w: WorkflowModel, event: EventModel)
    requires
        w.phase is SetProfile,
    ensures
        steps_to(w, w.on_set_profile(event)),
{
    reveal(steps_to);
}

proof fn lemma_from_bootloader(w: WorkflowModel, event: EventModel)
    requires
        w.phase is Bootloader,
    ensures
        steps_to(w, w.on_last_command(event, Step::Bootloader)),
{
    reveal(steps_to);
}

proof fn lemma_from_activate_user(w: WorkflowModel, event: EventModel)
    requires
        w.phase is ActivateUser,
    ensures
        steps_to(w, w.on_command(event, Step::ActivateUser, Phase::Activate)),
{
    reveal(steps_to);
}

proof fn lemma_from_activate(w: WorkflowModel, event: EventModel)
    requires
        w.phase is Activate,
    ensures
        steps_to(w, w.on_last_command(event, Step::Activate)),
{
    reveal(steps_to);
}

/// Every event steps as `steps_to` says.
pub proof fn lemma_step(w: WorkflowModel, event: EventModel)
    ensures
        steps_to(w, w.next(event)),
{
    let n = w.next(event);
    match w.phase {
        Phase::Hostname => {
            lemma_from_hostname(w, event);
            assert(n == w.on_hostname(event));
        },
        Phase::BuildOutput => {
            lemma_from_build_output(w, event);
            assert(n == w.on_build_output(event));
        },
        Phase::SourceOwner => {
            lemma_from_source_owner(w, event);
            assert(n == w.on_source_owner(event));
        },
        Phase::Pull => {
            lemma_from_pull(w, event);
            assert(n == w.on_pull(event));
        },
        Phase::ToolVersion => {
            lemma_from_tool_version(w, event);
            assert(n == w.on_tool_version(event));
        },
        Phase::Conflicts => {
            lemma_from_conflicts(w, event);
            assert(n == w.on_conflicts(event));
        },
        Phase::LockReset => {
            lemma_from_lock_reset(w, event);
            assert(n == w.on_command(event, Step::LockReset, Phase::LockCheckout));
        },
        Phase::LockCheckout => {
            lemma_from_lock_checkout(w, event);
            assert(n == w.on_command(event, Step::LockCheckout, Phase::Update));
        },
        Phase::Update => {
            lemma_from_update(w, event);
            assert(n == w.on_command(event, Step::Update, Phase::Build));
        },
        Phase::Build => {
            lemma_from_build(w, event);
            assert(n == w.on_command(event, Step::Build, Phase::Specialisation));
        },
        Phase::Specialisation => {
            lemma_from_specialisation(w, event);
            assert(n == w.on_specialisation(event));
        },
        Phase::Probe => {
            lemma_from_probe(w, event);
            assert(n == w.on_probe(event));
        },
        Phase::Diff => {
            lemma_from_diff(w, event);
            assert(n == w.on_diff(event));
        },
        Phase::Confirm => {
            lemma_from_confirm(w, event);
            assert(n == w.on_confirm(event));
        },
        Phase::ActivateTest => {
            lemma_from_activate_test(w, event);
            assert(n == w.on_activate_test(event));
        },
        Phase::SystemProfile => {
            lemma_from_system_profile(w, event);
            assert(n == w.on_system_profile(event));
        },
        Phase::SetProfile => {
            lemma_from_set_profile(w, event);
            assert(n == w.on_set_profile(event));
        },
        Phase::Bootloader => {
            lemma_from_bootloader(w, event);
            assert(n == w.on_last_command(event, Step::Bootloader));
        },
        Phase::ActivateUser => {
            lemma_from_activate_user(w, event);
            assert(n == w.on_command(event, Step::ActivateUser, Phase::Activate));
        },
        Phase::Activate => {
            lemma_from_activate(w, event);
            assert(n == w.on_last_command(event, Step::Activate));
        },
        Phase::Release(outcome) => {
            assert(n == w.at(Phase::Done(outcome)));
            assert(steps_to(w, w.at(Phase::Done(outcome)))) by {
                reveal(steps_to);
            }
        },
        Phase::Done(_) => {
            assert(n == w);
            assert(steps_to(w, w)) by {
                reveal(steps_to);
            }
        },
    }
}

/// How `after` unfolds.
pub proof fn lemma_after(w: WorkflowModel, events: Seq<EventModel>)
    ensures
        events.len() == 0 ==> w.after(events) == w,
        events.len() > 0 ==> w.after(events) == w.after(events.drop_last()).next(events.last()),
{
    reveal_with_fuel(WorkflowModel::after, 2);
}

/// The first state of a run is consistent.
pub proof fn lemma_start_is_consistent(request: RebuildRequest, platform: Platform, identity: Identity)
    ensures
        start(request, platform, identity).consistent(),
{
}

/// Events keep a state consistent.
pub proof fn lemma_next_is_consistent(w: WorkflowModel, event: EventModel)
    requires
        w.consistent(),
    ensures
        w.next(event).consistent(),
{
    lemma_step(w, event);
    reveal(steps_to);
}

/// Events keep a consistent state consistent, and leave the request, the
/// platform and the identity as they are.
pub proof fn lemma_after_is_consistent(w: WorkflowModel, events: Seq<EventModel>)
    ensures
        w.consistent() ==> w.after(events).consistent(),
        w.after(events).request == w.request,
        w.after(events).platform == w.platform,
        w.after(events).identity == w.identity,
    decreases events.len(),
{
    lemma_after(w, events);
    if events.len() > 0 {
        lemma_after_is_consistent(w, events.drop_last());
        lemma_step(w.after(events.drop_last()), events.last());
        reveal(steps_to);
    }
}

/// Every state that a run reaches is consistent.
pub proof fn lemma_run_is_consistent(
    request: RebuildRequest,
    platform: Platform,
    identity: Identity,
    events: Seq<EventModel>,
)
    ensures
        start(request, platform, identity).after(events).consistent(),
{
    lemma_start_is_consistent(request, platform, identity);
    lemma_after_is_consistent(start(request, platform, identity), events);
}

/// The request of a run stays the one it began with.
pub proof fn lemma_run_keeps_request(
    request: RebuildRequest,
    platform: Platform,
    identity: Identity,
    events: Seq<EventModel>,
)
    ensures
        start(request, platform, identity).after(events).request == request,
        start(request, platform, identity).after(events).platform == platform,
        start(request, platform, identity).after(events).identity == identity,
{
    lemma_after_is_consistent(start(request, platform, identity), events);
}

/// The state after one more event.
pub proof fn lemma_at_event_next(w: WorkflowModel, events: Seq<EventModel>, k: int)
    requires
        0 <= k < events.len(),
    ensures
        w.at_event(events, k + 1) == w.at_event(events, k).next(events[k]),
        w.at_event(events, events.len() as int) == w.after(events),
        w.at_event(events, 0) == w,
{
    reveal_with_fuel(WorkflowModel::after, 2);
    assert(events.take(k + 1).drop_last() =~= events.take(k));
    assert(events.take(k + 1).last() == events[k]);
    assert(events.take(events.len() as int) =~= events);
    assert(events.take(0).len() == 0);
}

/// An event passes by a phase only where the request allows it, as long
/// as the run stays on course.
pub proof fn lemma_no_skip(w: WorkflowModel, event: EventModel, passed: Phase)
    requires
        w.consistent(),
        w.phase.rank() < passed.rank() < w.next(event).phase.rank(),
        w.next(event).phase.on_course(),
    ensures
        w.request.may_skip(w.platform, passed),
{
    lemma_step(w, event);
    reveal(steps_to);
}

/// What a run has visited, it has visited in every longer run.
pub proof fn lemma_visits_extends(w: WorkflowModel, events: Seq<EventModel>, phase: Phase)
    requires
        events.len() > 0,
        w.visits(events.drop_last(), phase) || w.after(events.drop_last()).phase == phase,
    ensures
        w.visits(events, phase),
{
    let shorter = events.drop_last();
    if w.visits(shorter, phase) {
        let k = choose|k: int| 0 <= k <= shorter.len() && (#[trigger] w.at_event(shorter, k)).phase == phase;
        assert(shorter.take(k) =~= events.take(k));
        assert(w.at_event(events, k).phase == phase);
    } else {
        assert(events.take(shorter.len() as int) =~= shorter);
        assert(w.at_event(events, shorter.len() as int).phase == phase);
    }
}

/// A phase in which the workflow is under way is known by its rank.
pub proof fn lemma_rank_names_the_phase(a: Phase, b: Phase)
    ensures
        a.rank() == b.rank() && !a.settled() ==> a == b,
{
}

/// A run that is on course was on course before.
pub proof fn lemma_course_is_kept(w: WorkflowModel, event: EventModel)
    ensures
        w.next(event).phase.on_course() ==> w.phase.on_course(),
{
    lemma_step(w, event);
    reveal(steps_to);
}

/// A settled outcome stays over one event.
pub proof fn lemma_settled_stays(w: WorkflowModel, event: EventModel)
    requires
        w.phase.settled(),
    ensures
        w.next(event).phase.settled(),
        w.next(event).phase.outcome() == w.phase.outcome(),
{
    lemma_step(w, event);
    reveal(steps_to);
}

} // verus!
