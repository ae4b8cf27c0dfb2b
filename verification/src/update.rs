//! Refreshing the configuration source: pulling it, narrowing merge
//! conflicts down to the lock file, and refreshing the lock file.

use vstd::prelude::*;
use vstd::string::*;
use crate::command::{push_str, Command, CommandModel};
use crate::text::{lines, split_lines, str_eq};
use crate::version::{parse, parse_version};

verus! {

/// What the unmerged files of the configuration source allow.
#[derive(Clone, Copy, Debug, PartialEq, Eq, Structural)]
pub enum ConflictStatus {
    /// Nothing is unmerged.
    Clean,
    /// The lock file is unmerged and nothing else is. It may be discarded,
    /// because the refresh writes it anew.
    LockFileOnly,
    /// Something other than the lock file is unmerged. Nothing is
    /// discarded on the operator's behalf.
    Foreign,
}

/// The status of a list of unmerged paths: clean where it is empty,
/// confined to the lock file where it holds `flake.lock` and nothing
/// else, foreign in every other case.
pub open spec fn conflict_status(paths: Seq<Seq<char>>) -> ConflictStatus {
    if paths.len() == 0 {
        ConflictStatus::Clean
    } else if paths.len() == 1 && paths[0] == "flake.lock"@ {
        ConflictStatus::LockFileOnly
    } else {
        ConflictStatus::Foreign
    }
}

/// The status that the output of the conflict listing reports: one
/// unmerged path per line.
#[verifier::opaque]
pub open spec fn reported_status(output: Seq<char>) -> ConflictStatus {
    conflict_status(lines(output))
}

/// Classifies a list of unmerged paths.
pub fn classify_conflicts(paths: &Vec<String>) -> (status: ConflictStatus)
    ensures
        status == conflict_status(paths.deep_view()),
{
    if paths.len() == 0 {
        ConflictStatus::Clean
    } else {
        assert(paths.deep_view()[0] == paths@[0]@);
        if paths.len() == 1 && str_eq(paths[0].as_str(), "flake.lock") {
            ConflictStatus::LockFileOnly
        } else {
            ConflictStatus::Foreign
        }
    }
}

/// Classifies the output of the conflict listing.
pub fn conflicts_in(output: &str) -> (status: ConflictStatus)
    ensures
        status == reported_status(output@),
{
    proof {
        reveal(reported_status);
    }
    let paths: Vec<String> = split_lines(output);
    classify_conflicts(&paths)
}

/// Whether the lock refresh of the build tool with the given version
/// takes the source selector, as it does from release 2.19.0 on: `None`
/// where the version cannot be read.
#[verifier::opaque]
pub open spec fn selector_needed(version: Seq<char>) -> Option<bool> {
    match parse(version) {
        Some(v) => Some(v.at_least(2, 19, 0)),
        None => None,
    }
}

/// Decides from the build tool's version whether the lock refresh takes
/// the source selector.
pub fn needs_selector(version: &str) -> (needed: Option<bool>)
    ensures
        needed == selector_needed(version@),
{
    proof {
        reveal(selector_needed);
    }
    match parse_version(version) {
        Some(v) => Some(v.is_at_least(2, 19, 0)),
        None => None,
    }
}

/// `git -C <flakeref>` followed by `tail`.
pub open spec fn git_argv(flakeref: Seq<char>, tail: Seq<Seq<char>>) -> Seq<Seq<char>> {
    seq!["git"@, "-C"@, flakeref] + tail
}

/// Fetches and merges the configuration source.
pub open spec fn pull_command(flakeref: Seq<char>, elevate: bool, dry: bool) -> CommandModel {
    CommandModel {
        argv: git_argv(flakeref, seq!["pull"@]),
        elevate,
        capture_output: false,
        message: Some("Pulling flake"@),
        dry,
    }
}

/// Lists the unmerged files of the configuration source.
pub open spec fn conflict_check_command(flakeref: Seq<char>, dry: bool) -> CommandModel {
    CommandModel {
        argv: git_argv(flakeref, seq!["diff"@, "--name-only"@, "--diff-filter=U"@]),
        elevate: false,
        capture_output: true,
        message: Some("Checking for conflicts"@),
        dry,
    }
}

/// Unstages the lock file.
pub open spec fn lock_reset_command(flakeref: Seq<char>, dry: bool) -> CommandModel {
    CommandModel {
        argv: git_argv(flakeref, seq!["reset"@, "flake.lock"@]),
        elevate: false,
        capture_output: false,
        message: Some("Resetting flake.lock"@),
        dry,
    }
}

/// Restores the lock file from the index.
pub open spec fn lock_checkout_command(flakeref: Seq<char>, dry: bool) -> CommandModel {
    CommandModel {
        argv: git_argv(flakeref, seq!["checkout"@, "flake.lock"@]),
        elevate: false,
        capture_output: false,
        message: Some("Checking out flake.lock"@),
        dry,
    }
}

/// Refreshes the lock file, naming the source behind `--flake` where the
/// build tool asks for the selector.
pub open spec fn lock_refresh_command(
    flakeref: Seq<char>,
    selector: bool,
    elevate: bool,
    dry: bool,
) -> CommandModel {
    CommandModel {
        argv: if selector {
            seq!["nix"@, "flake"@, "update"@, "--flake"@, flakeref]
        } else {
            seq!["nix"@, "flake"@, "update"@, flakeref]
        },
        elevate,
        capture_output: false,
        message: Some("Updating flake"@),
        dry,
    }
}

/// The start of every git invocation on the configuration source.
fn git_prefix(flakeref: &str) -> (argv: Vec<String>)
    ensures
        argv.deep_view() == git_argv(flakeref@, Seq::empty()),
{
    let mut argv: Vec<String> = Vec::new();
    assert(argv.deep_view() =~= Seq::<Seq<char>>::empty());
    push_str(&mut argv, "git");
    push_str(&mut argv, "-C");
    push_str(&mut argv, flakeref);
    assert(argv.deep_view() =~= git_argv(flakeref@, Seq::empty()));
    argv
}

/// The command that fetches and merges the configuration source.
pub fn make_pull_command(flakeref: &str, elevate: bool, dry: bool) -> (command: Command)
    ensures
        command@ == pull_command(flakeref@, elevate, dry),
{
    let mut argv: Vec<String> = git_prefix(flakeref);
    push_str(&mut argv, "pull");
    assert(argv.deep_view() =~= git_argv(flakeref@, seq!["pull"@]));
    Command {
        argv,
        elevate,
        capture_output: false,
        message: Some(String::from_str("Pulling flake")),
        dry,
    }
}

/// The command that lists the unmerged files of the configuration source.
pub fn make_conflict_check_command(flakeref: &str, dry: bool) -> (command: Command)
    ensures
        command@ == conflict_check_command(flakeref@, dry),
{
    let mut argv: Vec<String> = git_prefix(flakeref);
    push_str(&mut argv, "diff");
    push_str(&mut argv, "--name-only");
    push_str(&mut argv, "--diff-filter=U");
    assert(argv.deep_view() =~= git_argv(
        flakeref@,
        seq!["diff"@, "--name-only"@, "--diff-filter=U"@],
    ));
    Command {
        argv,
        elevate: false,
        capture_output: true,
        message: Some(String::from_str("Checking for conflicts")),
        dry,
    }
}

/// The command that unstages the lock file.
pub fn make_lock_reset_command(flakeref: &str, dry: bool) -> (command: Command)
    ensures
        command@ == lock_reset_command(flakeref@, dry),
{
    let mut argv: Vec<String> = git_prefix(flakeref);
    push_str(&mut argv, "reset");
    push_str(&mut argv, "flake.lock");
    assert(argv.deep_view() =~= git_argv(flakeref@, seq!["reset"@, "flake.lock"@]));
    Command {
        argv,
        elevate: false,
        capture_output: false,
        message: Some(String::from_str("Resetting flake.lock")),
        dry,
    }
}

/// The command that restores the lock file from the index.
pub fn make_lock_checkout_command(flakeref: &str, dry: bool) -> (command: Command)
    ensures
        command@ == lock_checkout_command(flakeref@, dry),
{
    let mut argv: Vec<String> = git_prefix(flakeref);
    push_str(&mut argv, "checkout");
    push_str(&mut argv, "flake.lock");
    assert(argv.deep_view() =~= git_argv(flakeref@, seq!["checkout"@, "flake.lock"@]));
    Command {
        argv,
        elevate: false,
        capture_output: false,
        message: Some(String::from_str("Checking out flake.lock")),
        dry,
    }
}

/// The command that refreshes the lock file.
pub fn make_lock_refresh_command(flakeref: &str, selector: bool, elevate: bool, dry: bool) -> (command:
    Command)
    ensures
        command@ == lock_refresh_command(flakeref@, selector, elevate, dry),
{
    let mut argv: Vec<String> = Vec::new();
    assert(argv.deep_view() =~= Seq::<Seq<char>>::empty());
    push_str(&mut argv, "nix");
    push_str(&mut argv, "flake");
    push_str(&mut argv, "update");
    if selector {
        push_str(&mut argv, "--flake");
    }
    push_str(&mut argv, flakeref);
    assert(argv.deep_view() =~= lock_refresh_command(flakeref@, selector, elevate, dry).argv);
    Command {
        argv,
        elevate,
        capture_output: false,
        message: Some(String::from_str("Updating flake")),
        dry,
    }
}

} // verus!
