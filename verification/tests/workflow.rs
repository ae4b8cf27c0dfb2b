use os_rebuild::command::Command;
use os_rebuild::error::{Completion, RebuildError, Step};
use os_rebuild::model::Phase;
use os_rebuild::privilege::{ElevationPolicy, Identity, ProfileMetadata};
use os_rebuild::request::{OsRebuildArgs, Platform, RebuildMode};
use os_rebuild::workflow::{Action, Event, Workflow};

fn request() -> OsRebuildArgs {
    OsRebuildArgs::new("/etc/nixos".to_string(), "nvd diff".to_string())
}

fn operator() -> Identity {
    Identity { uid: 1000, gid: 100 }
}

fn root() -> Identity {
    Identity { uid: 0, gid: 0 }
}

fn strs(items: &[&str]) -> Vec<String> {
    items.iter().map(|s| s.to_string()).collect()
}

/// Runs a workflow through `events` and returns every action it handed
/// out, the first one included.
fn drive(
    args: OsRebuildArgs,
    mode: RebuildMode,
    platform: Platform,
    identity: Identity,
    events: Vec<Event>,
) -> (Workflow, Vec<Action>) {
    let (mut workflow, first) = Workflow::start(args, mode, platform, identity);
    let mut actions = vec![first];
    for event in events {
        actions.push(workflow.step(event));
    }
    (workflow, actions)
}

/// The events of a machine on which everything works, up to and
/// including the comparison, for a request without pull and update.
fn until_diff() -> Vec<Event> {
    vec![
        Event::Hostname("box".to_string()),
        Event::BuildOutput("/tmp/nh-os1".to_string()),
        Event::SourceOwner(Some(1000)),
        Event::Succeeded,
        Event::Specialisation(None),
        Event::ProfileExists(true),
        Event::Succeeded,
    ]
}

fn writable() -> Event {
    Event::SystemProfile(ProfileMetadata { readonly: false, uid: 1000, gid: 100 })
}

fn steps_of(actions: &[Action]) -> Vec<Step> {
    let mut steps = Vec::new();
    for action in actions {
        if let Action::Run(step, _) = action {
            steps.push(*step);
        }
    }
    steps
}

fn command_of(actions: &[Action], wanted: Step) -> &Command {
    for action in actions {
        if let Action::Run(step, command) = action {
            if *step == wanted {
                return command;
            }
        }
    }
    panic!("no command for {:?}", wanted)
}

fn activates(step: &Step) -> bool {
    matches!(
        step,
        Step::ActivateTest | Step::SetProfile | Step::Bootloader | Step::ActivateUser | Step::Activate
    )
}

#[test]
fn the_first_steps_of_a_plain_request() {
    let (_, actions) =
        drive(request(), RebuildMode::Switch, Platform::Linux, operator(), until_diff());
    assert_eq!(actions[0], Action::QueryHostname);
    assert_eq!(actions[1], Action::AllocateBuildOutput);
    assert_eq!(actions[2], Action::InspectSource("/etc/nixos".to_string()));
    match &actions[3] {
        Action::Build(build) => {
            assert_eq!(
                build.installable,
                "/etc/nixos#nixosConfigurations.box.config.system.build.toplevel"
            );
            assert_eq!(build.extra_args, strs(&["--out-link", "/tmp/nh-os1/result"]));
            assert!(build.nom);
            assert!(!build.dry);
        }
        other => panic!("expected the build, got {:?}", other),
    }
    assert_eq!(actions[4], Action::ReadSpecialisation("/etc/specialisation".to_string()));
    assert_eq!(actions[5], Action::ProbeProfile("/tmp/nh-os1/result".to_string()));
    match &actions[6] {
        Action::Run(Step::Diff, diff) => {
            assert_eq!(
                diff.argv,
                strs(&["nvd", "diff", "/run/current-system", "/tmp/nh-os1/result"])
            );
        }
        other => panic!("expected the comparison, got {:?}", other),
    }
}

#[test]
fn a_given_hostname_and_out_link_are_not_asked_for() {
    let mut args = request();
    args.hostname = Some("given".to_string());
    args.out_link = Some("./result".to_string());
    let (workflow, actions) = drive(
        args,
        RebuildMode::Build,
        Platform::Linux,
        operator(),
        vec![Event::SourceOwner(None)],
    );
    assert_eq!(actions[0], Action::InspectSource("/etc/nixos".to_string()));
    match &actions[1] {
        Action::Build(build) => {
            assert_eq!(
                build.installable,
                "/etc/nixos#nixosConfigurations.given.config.system.build.toplevel"
            );
            assert_eq!(build.extra_args, strs(&["--out-link", "./result"]));
        }
        other => panic!("expected the build, got {:?}", other),
    }
    assert!(!workflow.build_result().ephemeral);
    assert_eq!(workflow.build_result().path, "./result");
}

#[test]
fn build_mode_never_activates() {
    for ask in [false, true] {
        for dry in [false, true] {
            for bypass in [false, true] {
                let mut args = request();
                args.ask = ask;
                args.dry = dry;
                args.bypass_root_check = bypass;
                let mut events = until_diff();
                events.push(Event::Confirmation(true));
                events.push(Event::Succeeded);
                events.push(writable());
                events.push(Event::Succeeded);
                events.push(Event::Succeeded);
                let (workflow, actions) =
                    drive(args, RebuildMode::Build, Platform::Linux, operator(), events);
                assert!(steps_of(&actions).iter().all(|s| !activates(s)));
                assert!(!actions.contains(&Action::Confirm));
                assert_eq!(workflow.outcome(), Some(Ok(Completion::EarlyExit)));
            }
        }
    }
}

#[test]
fn a_dry_run_marks_every_command_dry_and_stops_after_the_comparison() {
    for mode in [RebuildMode::Build, RebuildMode::Test, RebuildMode::Boot, RebuildMode::Switch] {
        let mut args = request();
        args.dry = true;
        args.pull = true;
        args.update = true;
        args.ask = true;
        let events = vec![
            Event::Hostname("box".to_string()),
            Event::BuildOutput("/tmp/nh-os1".to_string()),
            Event::SourceOwner(Some(0)),
            Event::Succeeded,
            Event::ToolVersion("2.19.0".to_string()),
            Event::Captured(None),
            Event::Succeeded,
            Event::Succeeded,
            Event::Specialisation(None),
            Event::ProfileExists(true),
            Event::Succeeded,
            Event::Released,
        ];
        let (workflow, actions) = drive(args, mode, Platform::Linux, operator(), events);
        let mut commands = 0;
        for action in &actions {
            match action {
                Action::Run(_, command) => {
                    commands += 1;
                    assert!(command.dry);
                    let plan = command.execution();
                    assert_eq!(plan.spawn, None);
                    assert_eq!(plan.log, command.message);
                    assert!(plan.log.is_some());
                }
                Action::Build(build) => {
                    commands += 1;
                    assert!(build.dry);
                    let plan = build.execution();
                    assert_eq!(plan.spawn, None);
                    assert_eq!(plan.log, Some(build.message.clone()));
                }
                _ => {}
            }
        }
        assert_eq!(commands, 5);
        assert_eq!(
            steps_of(&actions),
            vec![Step::Pull, Step::ConflictCheck, Step::Update, Step::Diff]
        );
        assert_eq!(workflow.outcome(), Some(Ok(Completion::EarlyExit)));
    }
}

#[test]
fn root_is_turned_away_before_anything_is_asked() {
    let (mut workflow, first) =
        Workflow::start(request(), RebuildMode::Switch, Platform::Linux, root());
    assert_eq!(first, Action::Finish(Err(RebuildError::PolicyViolation)));
    assert_eq!(workflow.outcome(), Some(Err(RebuildError::PolicyViolation)));
    assert_eq!(workflow.step(Event::Succeeded), Action::Finish(Err(RebuildError::PolicyViolation)));
    assert_eq!(
        workflow.step(Event::Hostname("box".to_string())),
        Action::Finish(Err(RebuildError::PolicyViolation))
    );
}

#[test]
fn root_with_bypass_runs_without_elevation() {
    let mut args = request();
    args.bypass_root_check = true;
    args.pull = true;
    let mut events = vec![
        Event::Hostname("box".to_string()),
        Event::BuildOutput("/tmp/nh-os1".to_string()),
        Event::SourceOwner(Some(0)),
        Event::Succeeded,
        Event::Succeeded,
        Event::Specialisation(None),
        Event::ProfileExists(true),
        Event::Succeeded,
        Event::Succeeded,
        Event::SystemProfile(ProfileMetadata { readonly: true, uid: 5, gid: 5 }),
        Event::Succeeded,
        Event::Succeeded,
    ];
    events.push(Event::Released);
    let (workflow, actions) = drive(args, RebuildMode::Switch, Platform::Linux, root(), events);
    assert_eq!(workflow.policy(), ElevationPolicy { use_sudo: false, elevate_source: false });
    for action in &actions {
        if let Action::Run(_, command) = action {
            assert!(!command.elevate);
        }
    }
    assert_eq!(workflow.outcome(), Some(Ok(Completion::Activated)));
}

#[test]
fn a_bypassing_operator_still_elevates() {
    let mut args = request();
    args.bypass_root_check = true;
    let (workflow, _) = drive(args, RebuildMode::Test, Platform::Linux, operator(), until_diff());
    assert!(workflow.policy().use_sudo);
}

#[test]
fn source_commands_are_elevated_only_for_a_source_of_root() {
    for (owner, elevated) in [(Some(0), true), (Some(1000), false), (None, false)] {
        let mut args = request();
        args.pull = true;
        args.update = true;
        let events = vec![
            Event::Hostname("box".to_string()),
            Event::BuildOutput("/tmp/nh-os1".to_string()),
            Event::SourceOwner(owner),
            Event::Succeeded,
            Event::ToolVersion("2.24.1".to_string()),
            Event::Captured(Some(String::new())),
        ];
        let (workflow, actions) =
            drive(args, RebuildMode::Build, Platform::Linux, operator(), events);
        assert_eq!(
            workflow.policy(),
            ElevationPolicy { use_sudo: true, elevate_source: elevated }
        );
        assert_eq!(command_of(&actions, Step::Pull).elevate, elevated);
        assert_eq!(command_of(&actions, Step::Update).elevate, elevated);
        assert!(!command_of(&actions, Step::ConflictCheck).elevate);
    }
}

#[test]
fn an_unanswered_owner_query_counts_as_not_root() {
    let mut args = request();
    args.pull = true;
    let events = vec![
        Event::Hostname("box".to_string()),
        Event::BuildOutput("/tmp/nh-os1".to_string()),
        Event::Failed,
    ];
    let (_, actions) = drive(args, RebuildMode::Build, Platform::Linux, operator(), events);
    assert!(!command_of(&actions, Step::Pull).elevate);
}

fn update_events(version: &str, conflicts: Option<&str>) -> Vec<Event> {
    vec![
        Event::Hostname("box".to_string()),
        Event::BuildOutput("/tmp/nh-os1".to_string()),
        Event::SourceOwner(None),
        Event::ToolVersion(version.to_string()),
        Event::Captured(conflicts.map(|c| c.to_string())),
        Event::Succeeded,
        Event::Succeeded,
        Event::Succeeded,
    ]
}

#[test]
fn a_conflict_in_the_lock_file_is_reset_and_checked_out() {
    let mut args = request();
    args.update = true;
    let (workflow, actions) = drive(
        args,
        RebuildMode::Build,
        Platform::Linux,
        operator(),
        update_events("2.19.0", Some("flake.lock\n")),
    );
    assert_eq!(
        steps_of(&actions),
        vec![Step::ConflictCheck, Step::LockReset, Step::LockCheckout, Step::Update]
    );
    assert_eq!(
        command_of(&actions, Step::LockReset).argv,
        strs(&["git", "-C", "/etc/nixos", "reset", "flake.lock"])
    );
    assert_eq!(
        command_of(&actions, Step::LockCheckout).argv,
        strs(&["git", "-C", "/etc/nixos", "checkout", "flake.lock"])
    );
    assert_eq!(workflow.phase(), Phase::Build);
}

#[test]
fn a_conflict_beside_the_lock_file_is_fatal() {
    let mut args = request();
    args.update = true;
    let (workflow, actions) = drive(
        args,
        RebuildMode::Switch,
        Platform::Linux,
        operator(),
        update_events("2.19.0", Some("flake.lock\nother.nix\n")),
    );
    assert_eq!(steps_of(&actions), vec![Step::ConflictCheck]);
    assert_eq!(actions[5], Action::ReleaseBuildOutput);
    assert_eq!(actions[6], Action::Finish(Err(RebuildError::ConflictError)));
    assert_eq!(workflow.outcome(), Some(Err(RebuildError::ConflictError)));
}

#[test]
fn without_conflicts_nothing_is_reset() {
    for listing in [None, Some("")] {
        let mut args = request();
        args.update = true;
        let (_, actions) = drive(
            args,
            RebuildMode::Build,
            Platform::Linux,
            operator(),
            update_events("2.18.1", listing),
        );
        assert_eq!(steps_of(&actions), vec![Step::ConflictCheck, Step::Update]);
        assert_eq!(
            command_of(&actions, Step::Update).argv,
            strs(&["nix", "flake", "update", "/etc/nixos"])
        );
    }
}

#[test]
fn the_lock_refresh_takes_the_selector_from_the_threshold_on() {
    for (version, argv) in [
        ("2.18.9", strs(&["nix", "flake", "update", "/etc/nixos"])),
        ("2.19.0", strs(&["nix", "flake", "update", "--flake", "/etc/nixos"])),
        ("2.24.0", strs(&["nix", "flake", "update", "--flake", "/etc/nixos"])),
    ] {
        let mut args = request();
        args.update = true;
        let (_, actions) = drive(
            args,
            RebuildMode::Build,
            Platform::Linux,
            operator(),
            update_events(version, None),
        );
        assert_eq!(command_of(&actions, Step::Update).argv, argv);
    }
}

#[test]
fn an_unknown_tool_version_is_a_toolchain_error() {
    for event in [Event::ToolVersion("nix (Lix)".to_string()), Event::Failed] {
        let mut args = request();
        args.update = true;
        args.out_link = Some("./result".to_string());
        let events = vec![Event::Hostname("box".to_string()), Event::SourceOwner(None), event];
        let (workflow, actions) =
            drive(args, RebuildMode::Switch, Platform::Linux, operator(), events);
        assert_eq!(actions[2], Action::QueryToolVersion);
        assert_eq!(actions[3], Action::Finish(Err(RebuildError::ToolchainError)));
        assert_eq!(workflow.outcome(), Some(Err(RebuildError::ToolchainError)));
    }
}

#[test]
fn pull_comes_before_update() {
    let mut args = request();
    args.pull = true;
    args.update = true;
    let events = vec![
        Event::Hostname("box".to_string()),
        Event::BuildOutput("/tmp/nh-os1".to_string()),
        Event::SourceOwner(None),
        Event::Succeeded,
        Event::ToolVersion("2.19.0".to_string()),
    ];
    let (_, actions) = drive(args, RebuildMode::Build, Platform::Linux, operator(), events);
    assert_eq!(
        command_of(&actions, Step::Pull).argv,
        strs(&["git", "-C", "/etc/nixos", "pull"])
    );
    assert_eq!(actions[4], Action::QueryToolVersion);
    assert_eq!(steps_of(&actions), vec![Step::Pull, Step::ConflictCheck]);
}

#[test]
fn a_failed_pull_ends_the_run() {
    let mut args = request();
    args.pull = true;
    args.update = true;
    let events = vec![
        Event::Hostname("box".to_string()),
        Event::BuildOutput("/tmp/nh-os1".to_string()),
        Event::SourceOwner(None),
        Event::Failed,
        Event::Released,
        Event::Succeeded,
    ];
    let (_, actions) = drive(args, RebuildMode::Build, Platform::Linux, operator(), events);
    assert_eq!(actions[4], Action::ReleaseBuildOutput);
    assert_eq!(actions[5], Action::Finish(Err(RebuildError::CommandFailure(Step::Pull))));
    assert_eq!(actions[6], Action::Finish(Err(RebuildError::CommandFailure(Step::Pull))));
}

#[test]
fn test_mode_activates_the_specialisation_and_leaves_the_boot_default() {
    let mut events = until_diff();
    events[4] = Event::Specialisation(Some("foo".to_string()));
    events.push(Event::Succeeded);
    events.push(Event::Released);
    let (workflow, actions) =
        drive(request(), RebuildMode::Test, Platform::Linux, operator(), events);
    assert_eq!(steps_of(&actions), vec![Step::Diff, Step::ActivateTest]);
    let test = command_of(&actions, Step::ActivateTest);
    assert_eq!(
        test.argv,
        strs(&["/tmp/nh-os1/result/specialisation/foo/bin/switch-to-configuration", "test"])
    );
    assert!(test.elevate);
    assert!(!test.dry);
    assert_eq!(workflow.target_profile(), "/tmp/nh-os1/result/specialisation/foo");
    assert_eq!(actions[actions.len() - 2], Action::ReleaseBuildOutput);
    assert_eq!(actions[actions.len() - 1], Action::Finish(Ok(Completion::Activated)));
}

#[test]
fn boot_mode_sets_the_profile_and_the_bootloader_on_the_build_output() {
    let mut events = until_diff();
    events[4] = Event::Specialisation(Some("foo".to_string()));
    events.push(Event::SystemProfile(ProfileMetadata { readonly: false, uid: 0, gid: 0 }));
    events.push(Event::Succeeded);
    events.push(Event::Succeeded);
    events.push(Event::Released);
    let (workflow, actions) =
        drive(request(), RebuildMode::Boot, Platform::Linux, operator(), events);
    assert_eq!(steps_of(&actions), vec![Step::Diff, Step::SetProfile, Step::Bootloader]);
    assert_eq!(
        actions[7],
        Action::InspectProfile("/nix/var/nix/profiles/system".to_string())
    );
    let set = command_of(&actions, Step::SetProfile);
    assert_eq!(
        set.argv,
        strs(&["nix-env", "--profile", "/nix/var/nix/profiles/system", "--set", "/tmp/nh-os1/result"])
    );
    assert!(set.elevate);
    let boot = command_of(&actions, Step::Bootloader);
    assert_eq!(boot.argv, strs(&["/tmp/nh-os1/result/bin/switch-to-configuration", "boot"]));
    assert!(boot.elevate);
    assert_eq!(workflow.outcome(), Some(Ok(Completion::Activated)));
}

#[test]
fn switch_mode_tests_first_and_boots_second() {
    let mut events = until_diff();
    events.push(Event::Succeeded);
    events.push(writable());
    events.push(Event::Succeeded);
    events.push(Event::Succeeded);
    events.push(Event::Released);
    let (workflow, actions) =
        drive(request(), RebuildMode::Switch, Platform::Linux, operator(), events);
    assert_eq!(
        steps_of(&actions),
        vec![Step::Diff, Step::ActivateTest, Step::SetProfile, Step::Bootloader]
    );
    assert!(!command_of(&actions, Step::SetProfile).elevate);
    assert!(command_of(&actions, Step::Bootloader).elevate);
    assert_eq!(workflow.outcome(), Some(Ok(Completion::Activated)));
}

#[test]
fn switch_mode_stops_before_the_boot_phase_when_the_test_fails() {
    let mut events = until_diff();
    events.push(Event::Failed);
    events.push(writable());
    events.push(Event::Succeeded);
    events.push(Event::Succeeded);
    let (workflow, actions) =
        drive(request(), RebuildMode::Switch, Platform::Linux, operator(), events);
    assert_eq!(steps_of(&actions), vec![Step::Diff, Step::ActivateTest]);
    assert!(!actions.iter().any(|a| matches!(a, Action::InspectProfile(_))));
    assert_eq!(actions[8], Action::ReleaseBuildOutput);
    assert_eq!(
        workflow.outcome(),
        Some(Err(RebuildError::CommandFailure(Step::ActivateTest)))
    );
}

#[test]
fn darwin_activates_in_two_steps() {
    let mut events = until_diff();
    events.push(writable());
    events.push(Event::Succeeded);
    events.push(Event::Succeeded);
    events.push(Event::Succeeded);
    events.push(Event::Released);
    let (workflow, actions) =
        drive(request(), RebuildMode::Boot, Platform::Darwin, operator(), events);
    assert_eq!(
        steps_of(&actions),
        vec![Step::Diff, Step::SetProfile, Step::ActivateUser, Step::Activate]
    );
    match &actions[3] {
        Action::Build(build) => {
            assert_eq!(
                build.installable,
                "/etc/nixos#darwinConfigurations.box.config.system.build.toplevel"
            );
            assert_eq!(build.message, "Building Darwin configuration");
        }
        other => panic!("expected the build, got {:?}", other),
    }
    let user = command_of(&actions, Step::ActivateUser);
    assert_eq!(user.argv, strs(&["/tmp/nh-os1/result/activate-user"]));
    assert!(!user.elevate);
    let system = command_of(&actions, Step::Activate);
    assert_eq!(system.argv, strs(&["/tmp/nh-os1/result/activate"]));
    assert!(system.elevate);
    assert_eq!(workflow.outcome(), Some(Ok(Completion::Activated)));
}

#[test]
fn a_missing_profile_is_fatal() {
    for answer in [Event::ProfileExists(false), Event::Failed] {
        let mut events = until_diff();
        events.truncate(5);
        events.push(answer);
        events.push(Event::Released);
        let (workflow, actions) =
            drive(request(), RebuildMode::Switch, Platform::Linux, operator(), events);
        assert_eq!(actions[6], Action::ReleaseBuildOutput);
        assert_eq!(actions[7], Action::Finish(Err(RebuildError::MissingProfile)));
        assert_eq!(workflow.outcome(), Some(Err(RebuildError::MissingProfile)));
    }
}

#[test]
fn a_failed_comparison_ends_the_run_and_releases_the_output() {
    let mut events = until_diff();
    events[6] = Event::Failed;
    events.push(Event::Released);
    let (_, actions) = drive(request(), RebuildMode::Switch, Platform::Linux, operator(), events);
    assert_eq!(actions[7], Action::ReleaseBuildOutput);
    assert_eq!(actions[8], Action::Finish(Err(RebuildError::CommandFailure(Step::Diff))));
}

#[test]
fn a_failed_build_ends_the_run() {
    let mut events = until_diff();
    events[3] = Event::Failed;
    let (_, actions) = drive(request(), RebuildMode::Switch, Platform::Linux, operator(), events);
    assert_eq!(actions[4], Action::ReleaseBuildOutput);
    assert_eq!(actions[5], Action::Finish(Err(RebuildError::CommandFailure(Step::Build))));
    assert_eq!(actions.len(), 8);
    assert_eq!(actions[7], Action::Finish(Err(RebuildError::CommandFailure(Step::Build))));
}

/// The answers of a machine on which a switch goes through.
fn switch_script() -> Vec<Event> {
    let mut events = until_diff();
    events.push(Event::Succeeded);
    events.push(writable());
    events.push(Event::Succeeded);
    events.push(Event::Succeeded);
    events
}

#[test]
fn the_output_is_released_whatever_fails() {
    let length = switch_script().len();
    for failing in 2..length {
        // A missing answer on the owner of the source or on the active
        // specialisation is no failure.
        if failing == 2 || failing == 4 {
            continue;
        }
        let mut events = switch_script();
        events.truncate(failing);
        events.push(Event::Failed);
        events.push(Event::Released);
        let (workflow, actions) =
            drive(request(), RebuildMode::Switch, Platform::Linux, operator(), events);
        let n = actions.len();
        assert_eq!(actions[n - 2], Action::ReleaseBuildOutput, "failing at {}", failing);
        assert!(matches!(actions[n - 1], Action::Finish(Err(_))), "failing at {}", failing);
        assert_eq!(actions.iter().filter(|a| **a == Action::ReleaseBuildOutput).count(), 1);
        assert!(matches!(workflow.outcome(), Some(Err(_))));
    }
}

#[test]
fn the_output_is_released_after_success_too() {
    let mut events = switch_script();
    events.push(Event::Released);
    let (_, actions) = drive(request(), RebuildMode::Switch, Platform::Linux, operator(), events);
    let n = actions.len();
    assert_eq!(actions[n - 2], Action::ReleaseBuildOutput);
    assert_eq!(actions[n - 1], Action::Finish(Ok(Completion::Activated)));
}

#[test]
fn a_caller_supplied_output_is_not_released() {
    let mut args = request();
    args.out_link = Some("./result".to_string());
    let events = vec![
        Event::Hostname("box".to_string()),
        Event::SourceOwner(None),
        Event::Succeeded,
        Event::Specialisation(None),
        Event::ProfileExists(true),
        Event::Failed,
    ];
    let (_, actions) = drive(args, RebuildMode::Switch, Platform::Linux, operator(), events);
    assert!(!actions.contains(&Action::ReleaseBuildOutput));
    assert!(!actions.contains(&Action::AllocateBuildOutput));
    assert_eq!(
        actions[actions.len() - 1],
        Action::Finish(Err(RebuildError::CommandFailure(Step::Diff)))
    );
}

#[test]
fn declining_the_confirmation_ends_the_run_without_error() {
    let mut args = request();
    args.ask = true;
    let mut events = until_diff();
    events.push(Event::Confirmation(false));
    events.push(Event::Released);
    let (workflow, actions) = drive(args, RebuildMode::Switch, Platform::Linux, operator(), events);
    assert_eq!(actions[7], Action::Confirm);
    assert_eq!(actions[8], Action::ReleaseBuildOutput);
    assert_eq!(actions[9], Action::Finish(Ok(Completion::Declined)));
    assert!(steps_of(&actions).iter().all(|s| !activates(s)));
    assert_eq!(workflow.outcome(), Some(Ok(Completion::Declined)));
}

#[test]
fn confirming_goes_on_to_the_activation() {
    let mut args = request();
    args.ask = true;
    let mut events = until_diff();
    events.push(Event::Confirmation(true));
    let (workflow, actions) = drive(args, RebuildMode::Test, Platform::Linux, operator(), events);
    assert_eq!(actions[7], Action::Confirm);
    assert!(matches!(actions[8], Action::Run(Step::ActivateTest, _)));
    assert_eq!(workflow.phase(), Phase::ActivateTest);
}

#[test]
fn a_prompt_that_fails_is_an_error() {
    let mut args = request();
    args.ask = true;
    let mut events = until_diff();
    events.push(Event::Failed);
    events.push(Event::Released);
    let (workflow, _) = drive(args, RebuildMode::Test, Platform::Linux, operator(), events);
    assert_eq!(workflow.outcome(), Some(Err(RebuildError::CommandFailure(Step::Confirm))));
}

#[test]
fn an_answer_of_the_wrong_kind_counts_as_failure() {
    let events = vec![Event::Succeeded];
    let (workflow, actions) =
        drive(request(), RebuildMode::Test, Platform::Linux, operator(), events);
    assert_eq!(actions[1], Action::Finish(Err(RebuildError::CommandFailure(Step::Hostname))));
    assert_eq!(workflow.outcome(), Some(Err(RebuildError::CommandFailure(Step::Hostname))));

    let events = vec![Event::Hostname("box".to_string()), Event::Hostname("box".to_string())];
    let (workflow, _) = drive(request(), RebuildMode::Test, Platform::Linux, operator(), events);
    assert_eq!(workflow.outcome(), Some(Err(RebuildError::CommandFailure(Step::BuildOutput))));
}

#[test]
fn specialisations_can_be_switched_off() {
    let mut args = request();
    args.no_specialisation = true;
    args.specialisation = Some("asked".to_string());
    let mut events = until_diff();
    events[4] = Event::Specialisation(Some("active".to_string()));
    let (workflow, _) = drive(args, RebuildMode::Test, Platform::Linux, operator(), events);
    assert_eq!(workflow.target_profile(), "/tmp/nh-os1/result");
}

#[test]
fn the_requested_specialisation_is_used_when_none_is_active() {
    for answer in [Event::Specialisation(None), Event::Specialisation(Some(String::new())), Event::Failed] {
        let mut args = request();
        args.specialisation = Some("asked".to_string());
        let mut events = until_diff();
        events[4] = answer;
        let (workflow, _) = drive(args, RebuildMode::Test, Platform::Linux, operator(), events);
        assert_eq!(workflow.target_profile(), "/tmp/nh-os1/result/specialisation/asked");
    }
}

#[test]
fn the_pending_action_is_the_one_that_step_returned() {
    let (mut workflow, first) =
        Workflow::start(request(), RebuildMode::Switch, Platform::Linux, operator());
    assert_eq!(workflow.pending(), first);
    let mut events = until_diff();
    events.push(Event::Succeeded);
    events.push(writable());
    for event in events {
        let action = workflow.step(event);
        assert_eq!(workflow.pending(), action);
    }
    assert_eq!(workflow.mode(), RebuildMode::Switch);
}

#[test]
fn rebuild_begins_as_the_effective_user() {
    let args = request();
    let (workflow, first) = args.rebuild(RebuildMode::Build, Platform::Linux);
    if Identity::effective().is_root() {
        assert_eq!(first, Action::Finish(Err(RebuildError::PolicyViolation)));
        assert_eq!(workflow.outcome(), Some(Err(RebuildError::PolicyViolation)));
    } else {
        assert_eq!(first, Action::QueryHostname);
        assert!(workflow.policy().use_sudo);
    }
    assert_eq!(args.duplicate(), args);
}

#[test]
fn error_descriptions() {
    assert!(RebuildError::PolicyViolation.describe().contains("root"));
    assert!(RebuildError::ToolchainError.describe().contains("nonstandard toolchain"));
    assert!(RebuildError::ConflictError.describe().contains("lock file"));
    assert!(RebuildError::MissingProfile.describe().contains("does not exist"));
    assert!(RebuildError::CommandFailure(Step::Diff).describe().contains("failed"));
}

#[test]
fn logged_commands_are_answered_with_success() {
    assert_eq!(Event::logged(false), Event::Succeeded);
    assert_eq!(Event::logged(true), Event::Captured(None));
}

fn copy_of(event: &Event) -> Event {
    match event {
        Event::Hostname(name) => Event::Hostname(name.clone()),
        Event::BuildOutput(dir) => Event::BuildOutput(dir.clone()),
        Event::SourceOwner(owner) => Event::SourceOwner(*owner),
        Event::ToolVersion(version) => Event::ToolVersion(version.clone()),
        Event::Succeeded => Event::Succeeded,
        Event::Captured(output) => Event::Captured(output.clone()),
        Event::Specialisation(name) => Event::Specialisation(name.clone()),
        Event::ProfileExists(exists) => Event::ProfileExists(*exists),
        Event::Confirmation(yes) => Event::Confirmation(*yes),
        Event::SystemProfile(file) => Event::SystemProfile(*file),
        Event::Released => Event::Released,
        Event::Failed => Event::Failed,
    }
}

/// Feeds `events` and then a failure, and returns how the run ended.
fn failing_after(
    args: OsRebuildArgs,
    platform: Platform,
    mut events: Vec<Event>,
) -> Option<Result<Completion, RebuildError>> {
    events.push(Event::Failed);
    events.push(Event::Released);
    let (workflow, _) = drive(args, RebuildMode::Switch, platform, operator(), events);
    workflow.outcome()
}

#[test]
fn every_step_fails_with_its_own_name() {
    let updating = || {
        let mut args = request();
        args.pull = true;
        args.update = true;
        args.ask = true;
        args
    };
    let script = vec![
        (Step::Hostname, None),
        (Step::BuildOutput, Some(Event::Hostname("box".to_string()))),
        (Step::Pull, Some(Event::BuildOutput("/tmp/nh-os1".to_string()))),
        (Step::ConflictCheck, Some(Event::Succeeded)),
        (Step::LockReset, Some(Event::Captured(Some("flake.lock\n".to_string())))),
        (Step::LockCheckout, Some(Event::Succeeded)),
        (Step::Update, Some(Event::Succeeded)),
        (Step::Build, Some(Event::Succeeded)),
        (Step::Diff, Some(Event::Succeeded)),
        (Step::Confirm, Some(Event::Succeeded)),
        (Step::ActivateTest, Some(Event::Confirmation(true))),
        (Step::InspectProfile, Some(Event::Succeeded)),
        (Step::SetProfile, Some(writable())),
        (Step::Bootloader, Some(Event::Succeeded)),
    ];
    let mut events: Vec<Event> = Vec::new();
    for (step, answer) in script {
        if let Some(event) = answer {
            events.push(event);
        }
        // Three answers in between cannot fail a step: the owner of the
        // source, the tool's version and the active specialisation.
        match step {
            Step::Pull => events.push(Event::SourceOwner(None)),
            Step::ConflictCheck => events.push(Event::ToolVersion("2.19.0".to_string())),
            Step::Diff => {
                events.push(Event::Specialisation(None));
                events.push(Event::ProfileExists(true));
            }
            _ => {}
        }
        let prefix: Vec<Event> = events.iter().map(copy_of).collect();
        assert_eq!(
            failing_after(updating(), Platform::Linux, prefix),
            Some(Err(RebuildError::CommandFailure(step))),
            "{:?}",
            step
        );
    }
}

#[test]
fn the_darwin_steps_fail_with_their_own_names() {
    let mut events = until_diff();
    events.push(Event::Succeeded);
    events.push(writable());
    events.push(Event::Succeeded);
    assert_eq!(
        failing_after(request(), Platform::Darwin, events),
        Some(Err(RebuildError::CommandFailure(Step::ActivateUser)))
    );
    let mut events = until_diff();
    events.push(Event::Succeeded);
    events.push(writable());
    events.push(Event::Succeeded);
    events.push(Event::Succeeded);
    assert_eq!(
        failing_after(request(), Platform::Darwin, events),
        Some(Err(RebuildError::CommandFailure(Step::Activate)))
    );
}

#[test]
fn test_mode_activates_on_darwin_too() {
    let mut events = until_diff();
    events.push(Event::Succeeded);
    events.push(Event::Released);
    let (workflow, actions) =
        drive(request(), RebuildMode::Test, Platform::Darwin, operator(), events);
    assert_eq!(steps_of(&actions), vec![Step::Diff, Step::ActivateTest]);
    assert_eq!(workflow.outcome(), Some(Ok(Completion::Activated)));
}
