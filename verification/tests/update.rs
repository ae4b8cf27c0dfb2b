use os_rebuild::request::{Platform, RebuildMode};
use os_rebuild::update::{
    classify_conflicts, conflicts_in, make_conflict_check_command, make_lock_checkout_command,
    make_lock_refresh_command, make_lock_reset_command, make_pull_command, ConflictStatus,
};

fn paths(items: &[&str]) -> Vec<String> {
    items.iter().map(|s| s.to_string()).collect()
}

#[test]
fn a_conflict_in_the_lock_file_alone_can_be_discarded() {
    assert_eq!(classify_conflicts(&paths(&["flake.lock"])), ConflictStatus::LockFileOnly);
    assert_eq!(conflicts_in("flake.lock\n"), ConflictStatus::LockFileOnly);
    assert_eq!(conflicts_in("flake.lock"), ConflictStatus::LockFileOnly);
}

#[test]
fn a_conflict_beside_the_lock_file_is_foreign() {
    assert_eq!(classify_conflicts(&paths(&["flake.lock", "other.nix"])), ConflictStatus::Foreign);
    assert_eq!(conflicts_in("flake.lock\nother.nix\n"), ConflictStatus::Foreign);
    assert_eq!(conflicts_in("other.nix\n"), ConflictStatus::Foreign);
    assert_eq!(conflicts_in("other.nix\nflake.lock\n"), ConflictStatus::Foreign);
}

#[test]
fn no_conflict_is_clean() {
    assert_eq!(classify_conflicts(&Vec::new()), ConflictStatus::Clean);
    assert_eq!(conflicts_in(""), ConflictStatus::Clean);
}

#[test]
fn odd_listings_are_foreign() {
    assert_eq!(conflicts_in("\n"), ConflictStatus::Foreign);
    assert_eq!(conflicts_in("flake.lock\n\n"), ConflictStatus::Foreign);
    assert_eq!(conflicts_in("flake.lock\nflake.lock\n"), ConflictStatus::Foreign);
    assert_eq!(conflicts_in(" flake.lock\n"), ConflictStatus::Foreign);
    assert_eq!(conflicts_in("flake.lock\r\n"), ConflictStatus::Foreign);
    assert_eq!(conflicts_in("sub/flake.lock\n"), ConflictStatus::Foreign);
}

#[test]
fn pull_command() {
    let command = make_pull_command("/etc/nixos", true, false);
    assert_eq!(command.argv, paths(&["git", "-C", "/etc/nixos", "pull"]));
    assert!(command.elevate);
    assert!(!command.capture_output);
    assert_eq!(command.message, Some("Pulling flake".to_string()));
    assert!(!command.dry);
}

#[test]
fn conflict_check_command_captures_its_output() {
    let command = make_conflict_check_command("/etc/nixos", true);
    assert_eq!(
        command.argv,
        paths(&["git", "-C", "/etc/nixos", "diff", "--name-only", "--diff-filter=U"])
    );
    assert!(!command.elevate);
    assert!(command.capture_output);
    assert_eq!(command.message, Some("Checking for conflicts".to_string()));
    assert!(command.dry);
}

#[test]
fn lock_file_commands() {
    let reset = make_lock_reset_command("/etc/nixos", false);
    assert_eq!(reset.argv, paths(&["git", "-C", "/etc/nixos", "reset", "flake.lock"]));
    assert_eq!(reset.message, Some("Resetting flake.lock".to_string()));
    assert!(!reset.elevate);
    let checkout = make_lock_checkout_command("/etc/nixos", false);
    assert_eq!(checkout.argv, paths(&["git", "-C", "/etc/nixos", "checkout", "flake.lock"]));
    assert_eq!(checkout.message, Some("Checking out flake.lock".to_string()));
    assert!(!checkout.elevate);
}

#[test]
fn lock_refresh_names_the_source_behind_the_selector() {
    let modern = make_lock_refresh_command("/etc/nixos", true, true, false);
    assert_eq!(modern.argv, paths(&["nix", "flake", "update", "--flake", "/etc/nixos"]));
    assert!(modern.elevate);
    let legacy = make_lock_refresh_command("/etc/nixos", false, false, false);
    assert_eq!(legacy.argv, paths(&["nix", "flake", "update", "/etc/nixos"]));
    assert!(!legacy.elevate);
    assert_eq!(legacy.message, Some("Updating flake".to_string()));
}

#[test]
fn subcommands_select_modes() {
    assert_eq!(RebuildMode::from_subcommand("switch"), Some(RebuildMode::Switch));
    assert_eq!(RebuildMode::from_subcommand("boot"), Some(RebuildMode::Boot));
    assert_eq!(RebuildMode::from_subcommand("test"), Some(RebuildMode::Test));
    assert_eq!(RebuildMode::from_subcommand("build"), Some(RebuildMode::Build));
    assert_eq!(RebuildMode::from_subcommand("info"), None);
    assert_eq!(RebuildMode::from_subcommand("Switch"), None);
    assert_eq!(RebuildMode::from_subcommand(""), None);
}

#[test]
fn modes_select_phases() {
    assert!(!RebuildMode::Build.runs_test_phase() && !RebuildMode::Build.runs_boot_phase());
    assert!(RebuildMode::Test.runs_test_phase() && !RebuildMode::Test.runs_boot_phase());
    assert!(!RebuildMode::Boot.runs_test_phase() && RebuildMode::Boot.runs_boot_phase());
    assert!(RebuildMode::Switch.runs_test_phase() && RebuildMode::Switch.runs_boot_phase());
}

#[test]
fn platforms_name_their_configurations() {
    assert_eq!(Platform::Linux.module_name(), "nixosConfigurations");
    assert_eq!(Platform::Darwin.module_name(), "darwinConfigurations");
    assert_eq!(Platform::Linux.build_announcement(), "Building NixOS configuration");
    assert_eq!(Platform::Darwin.build_announcement(), "Building Darwin configuration");
}
