//! What holds of every run of the workflow, whatever the machine answers.
//!
//! A run is a request, a platform and an identity, which fix the first
//! state, and a sequence of events. The laws speak of the states that such
//! sequences reach and of the actions that those states wait for.

use vstd::prelude::*;
use crate::activation::{bootloader_command, set_profile_command, test_command};
use crate::error::{Completion, RebuildError, Step};
use crate::consistency::{
    lemma_after,
    lemma_after_is_consistent,
    lemma_at_event_next,
    lemma_course_is_kept,
    lemma_no_skip,
    lemma_rank_names_the_phase,
    lemma_run_is_consistent,
    lemma_run_keeps_request,
    lemma_start_is_consistent,
    lemma_step,
    lemma_visits_extends,
    steps_to,
};
use crate::model::{start, ActionModel, EventModel, Phase, WorkflowModel};
use crate::privilege::{is_root, Identity};
use crate::request::{Platform, RebuildRequest};
use crate::specialisation::{profile_path, resolved};
use crate::text::lines;
use crate::update::{lock_refresh_command, reported_status};

verus! {

/// An event never changes what was asked, for whom, or on which platform,
/// nor, in a run, whether elevation is in use. The elevation policy is
/// decided when the owner of the source is reported, and stays.
pub proof fn law_request_is_kept(w: WorkflowModel, event: EventModel)
    ensures
        w.next(event).request == w.request,
        w.next(event).platform == w.platform,
        w.next(event).identity == w.identity,
        w.consistent() ==> w.next(event).policy.use_sudo == w.policy.use_sudo,
        !(w.phase is SourceOwner) ==> w.next(event).policy == w.policy,
{
    lemma_step(w, event);
    reveal(steps_to);
}

/// Every event moves the workflow forward, until it is over; then nothing
/// moves it.
pub proof fn law_progress(w: WorkflowModel, event: EventModel)
    ensures
        w.phase is Done ==> w.next(event) == w,
        !(w.phase is Done) ==> w.next(event).phase.rank() > w.phase.rank(),
{
    lemma_step(w, event);
    reveal(steps_to);
}

/// A settled outcome stays: after it, the workflow only releases the
/// build output and ends, with that outcome.
pub proof fn law_outcome_is_final(w: WorkflowModel, events: Seq<EventModel>)
    requires
        w.phase.settled(),
    ensures
        w.after(events).phase.settled(),
        w.after(events).phase.outcome() == w.phase.outcome(),
    decreases events.len(),
{
    lemma_after(w, events);
    if events.len() > 0 {
        law_outcome_is_final(w, events.drop_last());
        lemma_step(w.after(events.drop_last()), events.last());
        reveal(steps_to);
    }
}

/// A build-only run never asks for a command that activates, whatever
/// else is requested and whatever the machine answers.
pub proof fn law_build_never_activates(
    request: RebuildRequest,
    platform: Platform,
    identity: Identity,
    events: Seq<EventModel>,
)
    requires
        request.mode is Build,
    ensures
        !start(request, platform, identity).after(events).pending().is_activation(),
{
    lemma_run_is_consistent(request, platform, identity, events);
    lemma_run_keeps_request(request, platform, identity, events);
}

/// Root without the bypass is turned away: the run is over before it
/// begins, with a policy violation, and asks for nothing but to finish.
pub proof fn law_root_is_turned_away(
    request: RebuildRequest,
    platform: Platform,
    identity: Identity,
    events: Seq<EventModel>,
)
    requires
        is_root(identity.uid),
        !request.bypass_root_check,
    ensures
        start(request, platform, identity).after(events).pending() == ActionModel::Finish(
            Err(RebuildError::PolicyViolation),
        ),
{
    lemma_run_is_consistent(request, platform, identity, events);
    lemma_run_keeps_request(request, platform, identity, events);
}

/// A run never returns to a phase: of two states of a run, the later one
/// is further on, unless the run was over at the earlier one already.
pub proof fn law_phases_ascend(w: WorkflowModel, events: Seq<EventModel>, i: int, j: int)
    requires
        0 <= i < j <= events.len(),
    ensures
        w.at_event(events, i).phase is Done || w.at_event(events, i).phase.rank() < w.at_event(
            events,
            j,
        ).phase.rank(),
    decreases j - i,
{
    let before = w.at_event(events, j - 1);
    lemma_at_event_next(w, events, j - 1);
    law_progress(before, events[j - 1]);
    if i < j - 1 {
        law_phases_ascend(w, events, i, j - 1);
    }
}

/// No phase but the last is visited twice.
pub proof fn law_phases_are_visited_once(w: WorkflowModel, events: Seq<EventModel>, i: int, j: int)
    requires
        0 <= i <= events.len(),
        0 <= j <= events.len(),
        w.at_event(events, i).phase == w.at_event(events, j).phase,
        !(w.at_event(events, i).phase is Done),
    ensures
        i == j,
{
    if i < j {
        law_phases_ascend(w, events, i, j);
    } else if j < i {
        law_phases_ascend(w, events, j, i);
    }
}

/// From a state that has not left `phase` behind without leave, a run
/// that is on course has been in `phase` once it is past it.
proof fn lemma_no_phase_is_skipped_from(w: WorkflowModel, events: Seq<EventModel>, phase: Phase)
    requires
        w.consistent(),
        !w.request.may_skip(w.platform, phase),
        w.phase.rank() > phase.rank() ==> !w.phase.on_course(),
        w.after(events).phase.rank() > phase.rank(),
        w.after(events).phase.on_course(),
    ensures
        w.visits(events, phase),
    decreases events.len(),
{
    lemma_after(w, events);
    if events.len() > 0 {
        let shorter = events.drop_last();
        let before = w.after(shorter);
        lemma_after_is_consistent(w, shorter);
        lemma_course_is_kept(before, events.last());
        if before.phase.rank() > phase.rank() {
            lemma_no_phase_is_skipped_from(w, shorter, phase);
        } else if before.phase.rank() < phase.rank() {
            lemma_no_skip(before, events.last(), phase);
        } else {
            lemma_rank_names_the_phase(phase, before.phase);
        }
        lemma_visits_extends(w, events, phase);
    }
}

/// A run begins in the first phase that its request does not let it pass
/// by.
proof fn lemma_start_skips_by_leave(
    request: RebuildRequest,
    platform: Platform,
    identity: Identity,
    phase: Phase,
)
    requires
        start(request, platform, identity).phase.rank() > phase.rank(),
        start(request, platform, identity).phase.on_course(),
    ensures
        request.may_skip(platform, phase),
{
    lemma_rank_names_the_phase(Phase::Hostname, phase);
    lemma_rank_names_the_phase(Phase::BuildOutput, phase);
}

/// A run that is on course has been in every phase that lies behind it
/// and that its request does not let it pass by. So the build comes
/// before the comparison, the comparison before the confirmation, the
/// confirmation before any activation, and the activation of the running
/// system before the change of the boot default.
pub proof fn law_no_phase_is_skipped(
    request: RebuildRequest,
    platform: Platform,
    identity: Identity,
    events: Seq<EventModel>,
    phase: Phase,
)
    requires
        !request.may_skip(platform, phase),
        start(request, platform, identity).after(events).phase.rank() > phase.rank(),
        start(request, platform, identity).after(events).phase.on_course(),
    ensures
        start(request, platform, identity).visits(events, phase),
{
    let first = start(request, platform, identity);
    lemma_start_is_consistent(request, platform, identity);
    if first.phase.rank() > phase.rank() && first.phase.on_course() {
        lemma_start_skips_by_leave(request, platform, identity, phase);
    }
    lemma_no_phase_is_skipped_from(first, events, phase);
}

/// An ephemeral build output is released before the workflow ends,
/// however it ends: a run that is over and has an ephemeral output has
/// asked for its release, with the outcome already settled.
pub proof fn law_ephemeral_output_is_released(
    request: RebuildRequest,
    platform: Platform,
    identity: Identity,
    events: Seq<EventModel>,
)
    requires
        start(request, platform, identity).after(events).phase is Done,
        start(request, platform, identity).after(events).output.ephemeral,
    ensures
        exists|k: int|
            0 <= k <= events.len() && (#[trigger] start(request, platform, identity).at_event(
                events,
                k,
            )).pending() == ActionModel::ReleaseBuildOutput,
    decreases events.len(),
{
    let first = start(request, platform, identity);
    lemma_after(first, events);
    if events.len() > 0 {
        let shorter = events.drop_last();
        let before = first.after(shorter);
        lemma_step(before, events.last());
        reveal(steps_to);
        if before.phase is Done {
            law_ephemeral_output_is_released(request, platform, identity, shorter);
            let k = choose|k: int|
                0 <= k <= shorter.len() && (#[trigger] first.at_event(shorter, k)).pending()
                    == ActionModel::ReleaseBuildOutput;
            assert(shorter.take(k) =~= events.take(k));
            assert(first.at_event(events, k).pending() == ActionModel::ReleaseBuildOutput);
        } else {
            assert(events.take(shorter.len() as int) =~= shorter);
            assert(first.at_event(events, shorter.len() as int).pending()
                == ActionModel::ReleaseBuildOutput);
        }
    }
}

/// The release is asked for only where the output is ephemeral, and what
/// comes after it is the end.
pub proof fn law_release_comes_last(
    request: RebuildRequest,
    platform: Platform,
    identity: Identity,
    events: Seq<EventModel>,
    event: EventModel,
)
    requires
        start(request, platform, identity).after(events).pending() == ActionModel::ReleaseBuildOutput,
    ensures
        start(request, platform, identity).after(events).output.ephemeral,
        start(request, platform, identity).after(events).next(event).pending() is Finish,
{
    lemma_run_is_consistent(request, platform, identity, events);
}

/// A run stops early only after the comparison, and is declined only at
/// the prompt.
pub proof fn law_early_ends_have_their_place(
    request: RebuildRequest,
    platform: Platform,
    identity: Identity,
    events: Seq<EventModel>,
)
    ensures
        ({
            let first = start(request, platform, identity);
            let last = first.after(events);
            &&& last.phase.outcome() == Some(Ok::<Completion, RebuildError>(Completion::EarlyExit))
                ==> first.visits(events, Phase::Diff)
            &&& last.phase.outcome() == Some(Ok::<Completion, RebuildError>(Completion::Declined))
                ==> first.visits(events, Phase::Confirm)
        }),
    decreases events.len(),
{
    let first = start(request, platform, identity);
    lemma_after(first, events);
    if events.len() > 0 {
        let shorter = events.drop_last();
        let before = first.after(shorter);
        law_early_ends_have_their_place(request, platform, identity, shorter);
        lemma_step(before, events.last());
        reveal(steps_to);
        let last = first.after(events);
        if last.phase.outcome() == Some(Ok::<Completion, RebuildError>(Completion::EarlyExit)) {
            lemma_visits_extends(first, events, Phase::Diff);
        }
        if last.phase.outcome() == Some(Ok::<Completion, RebuildError>(Completion::Declined)) {
            lemma_visits_extends(first, events, Phase::Confirm);
        }
    }
}

/// Conflicts are narrowed down to the lock file: without unmerged paths
/// the lock refresh comes next; with the lock file as the only one, it is
/// reset and checked out first; with any other list the run fails and
/// nothing is discarded.
pub proof fn law_conflicts_are_narrowed(w: WorkflowModel, output: Seq<char>)
    requires
        w.phase is Conflicts,
    ensures
        ({
            let n = w.next(EventModel::Captured(Some(output)));
            let refresh = ActionModel::Run(
                Step::Update,
                lock_refresh_command(
                    w.request.flakeref,
                    w.selector,
                    w.policy.elevate_source,
                    w.request.dry,
                ),
            );
            &&& lines(output).len() == 0 ==> n.pending() == refresh
            &&& lines(output) =~= seq!["flake.lock"@] ==> {
                &&& n.phase is LockReset
                &&& n.next(EventModel::Succeeded).phase is LockCheckout
                &&& n.next(EventModel::Succeeded).next(EventModel::Succeeded).pending() == refresh
            }
            &&& lines(output).len() > 0 && !(lines(output) =~= seq!["flake.lock"@])
                ==> n.phase.outcome() == Some(
                Err::<Completion, RebuildError>(RebuildError::ConflictError),
            )
        }),
{
    let n = w.next(EventModel::Captured(Some(output)));
    reveal(reported_status);
    assert(n == w.on_conflicts(EventModel::Captured(Some(output))));
    if lines(output) =~= seq!["flake.lock"@] {
        let m = n.next(EventModel::Succeeded);
        assert(m == n.on_command(EventModel::Succeeded, Step::LockReset, Phase::LockCheckout));
        assert(m.next(EventModel::Succeeded) == m.on_command(
            EventModel::Succeeded,
            Step::LockCheckout,
            Phase::Update,
        ));
    }
}

/// Where a run both activates the running system and changes the boot
/// default, it does the first before the second.
pub proof fn law_test_comes_before_boot(w: WorkflowModel, events: Seq<EventModel>, i: int, j: int)
    requires
        0 <= i <= events.len(),
        0 <= j <= events.len(),
        w.at_event(events, i).phase.in_test_phase(),
        w.at_event(events, j).phase.in_boot_phase(),
    ensures
        i < j,
{
    if j < i {
        law_phases_ascend(w, events, j, i);
    }
}

/// What each mode runs. A state in the test phase belongs to a mode that
/// activates, a state in the boot phase to one that persists: so `Test`
/// never touches the boot default and `Boot` never the running system.
/// The test phase activates the profile of the resolved specialisation;
/// the boot phase works on the build output itself.
pub proof fn law_mode_selects_phases(
    request: RebuildRequest,
    platform: Platform,
    identity: Identity,
    events: Seq<EventModel>,
)
    ensures
        ({
            let s = start(request, platform, identity).after(events);
            &&& s.phase.in_test_phase() ==> request.mode.activates()
            &&& s.phase.in_boot_phase() ==> request.mode.persists()
            &&& s.phase is ActivateTest ==> s.pending() == ActionModel::Run(
                Step::ActivateTest,
                test_command(s.target_profile, s.policy.use_sudo, false),
            ) && exists|current: Option<Seq<char>>|
                s.target_profile == profile_path(
                    s.output.path,
                    #[trigger] resolved(request.no_specialisation, request.specialisation, current),
                )
            &&& s.phase is SetProfile ==> s.pending() == ActionModel::Run(
                Step::SetProfile,
                set_profile_command(s.output.path, s.policy.use_sudo, s.profile_writable, false),
            )
            &&& s.phase is Bootloader ==> s.pending() == ActionModel::Run(
                Step::Bootloader,
                bootloader_command(s.output.path, s.policy.use_sudo, false),
            )
        }),
{
    lemma_run_is_consistent(request, platform, identity, events);
    lemma_run_keeps_request(request, platform, identity, events);
}

/// A run that has activated has been through every phase of its mode:
/// the test phase where the mode activates, and, where it persists, the
/// setting of the system profile and what follows it on the platform.
pub proof fn law_activated_runs_are_complete(
    request: RebuildRequest,
    platform: Platform,
    identity: Identity,
    events: Seq<EventModel>,
)
    requires
        start(request, platform, identity).after(events).phase.outcome() == Some(
            Ok::<Completion, RebuildError>(Completion::Activated),
        ),
    ensures
        ({
            let first = start(request, platform, identity);
            &&& first.visits(events, Phase::Build)
            &&& first.visits(events, Phase::Diff)
            &&& request.ask ==> first.visits(events, Phase::Confirm)
            &&& request.mode.activates() ==> first.visits(events, Phase::ActivateTest)
            &&& request.mode.persists() ==> first.visits(events, Phase::SetProfile)
            &&& request.mode.persists() && platform is Linux ==> first.visits(
                events,
                Phase::Bootloader,
            )
            &&& request.mode.persists() && platform is Darwin ==> first.visits(
                events,
                Phase::ActivateUser,
            ) && first.visits(events, Phase::Activate)
        }),
{
    law_no_phase_is_skipped(request, platform, identity, events, Phase::Build);
    law_no_phase_is_skipped(request, platform, identity, events, Phase::Diff);
    if request.ask {
        law_no_phase_is_skipped(request, platform, identity, events, Phase::Confirm);
    }
    if request.mode.activates() {
        law_no_phase_is_skipped(request, platform, identity, events, Phase::ActivateTest);
    }
    if request.mode.persists() {
        law_no_phase_is_skipped(request, platform, identity, events, Phase::SetProfile);
        if platform is Linux {
            law_no_phase_is_skipped(request, platform, identity, events, Phase::Bootloader);
        } else {
            law_no_phase_is_skipped(request, platform, identity, events, Phase::ActivateUser);
            law_no_phase_is_skipped(request, platform, identity, events, Phase::Activate);
        }
    }
}

/// Where a command fails, the run ends with the failure of that step,
/// and no later event brings it back: after a failed activation of the
/// running system, the boot default is never touched.
pub proof fn law_failure_ends_the_run(w: WorkflowModel, event: EventModel, later: Seq<EventModel>)
    requires
        w.pending() is Run,
        !(event is Succeeded),
        !(event is Captured),
    ensures
        w.pending() matches ActionModel::Run(step, _) && w.next(event).phase.outcome() == Some(
            Err::<Completion, RebuildError>(RebuildError::CommandFailure(step)),
        ),
        w.next(event).after(later).pending() is ReleaseBuildOutput || w.next(event).after(
            later,
        ).pending() is Finish,
{
    let n = w.next(event);
    match w.phase {
        Phase::Pull => {
            assert(n == w.on_pull(event));
        },
        Phase::Conflicts => {
            assert(n == w.on_conflicts(event));
        },
        Phase::LockReset => {
            assert(n == w.on_command(event, Step::LockReset, Phase::LockCheckout));
        },
        Phase::LockCheckout => {
            assert(n == w.on_command(event, Step::LockCheckout, Phase::Update));
        },
        Phase::Update => {
            assert(n == w.on_command(event, Step::Update, Phase::Build));
        },
        Phase::Diff => {
            assert(n == w.on_diff(event));
        },
        Phase::ActivateTest => {
            assert(n == w.on_activate_test(event));
        },
        Phase::SetProfile => {
            assert(n == w.on_set_profile(event));
        },
        Phase::Bootloader => {
            assert(n == w.on_last_command(event, Step::Bootloader));
        },
        Phase::ActivateUser => {
            assert(n == w.on_command(event, Step::ActivateUser, Phase::Activate));
        },
        Phase::Activate => {
            assert(n == w.on_last_command(event, Step::Activate));
        },
        _ => {},
    }
    law_outcome_is_final(n, later);
}

} // verus!
