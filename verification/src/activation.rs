//! Making a built configuration the running system, the boot default, or
//! both.

use vstd::prelude::*;
use vstd::string::*;
use crate::command::{push_str, Command, CommandModel};

verus! {

/// The pointer to the installed system generation, which the bootloader
/// follows.
pub const SYSTEM_PROFILE: &'static str = "/nix/var/nix/profiles/system";

/// Where the name of the active specialisation is kept.
pub const SPEC_LOCATION: &'static str = "/etc/specialisation";

/// The activation script of a profile.
pub open spec fn switch_script(profile: Seq<char>) -> Seq<char> {
    profile + "/bin/switch-to-configuration"@
}

/// Activates `target_profile` on the running system. The profile is the
/// one of the resolved specialisation, so that a test shows what will run.
pub open spec fn test_command(target_profile: Seq<char>, use_sudo: bool, dry: bool) -> CommandModel {
    CommandModel {
        argv: seq![switch_script(target_profile), "test"@],
        elevate: use_sudo,
        capture_output: false,
        message: Some("Activating configuration"@),
        dry,
    }
}

/// Points the system profile at the build output `out_path`. It is
/// elevated where elevation is in use and the invoker cannot write the
/// profile.
pub open spec fn set_profile_command(
    out_path: Seq<char>,
    use_sudo: bool,
    can_write: bool,
    dry: bool,
) -> CommandModel {
    CommandModel {
        argv: seq!["nix-env"@, "--profile"@, SYSTEM_PROFILE@, "--set"@, out_path],
        elevate: use_sudo && !can_write,
        capture_output: false,
        message: None,
        dry,
    }
}

/// Registers the build output `out_path` with the bootloader. The path is
/// the build output itself, whatever the specialisation: which one runs
/// is chosen when the machine boots.
pub open spec fn bootloader_command(out_path: Seq<char>, use_sudo: bool, dry: bool) -> CommandModel {
    CommandModel {
        argv: seq![switch_script(out_path), "boot"@],
        elevate: use_sudo,
        capture_output: false,
        message: Some("Adding configuration to bootloader"@),
        dry,
    }
}

/// Runs the per-user half of the activation of `out_path`, never elevated.
pub open spec fn activate_user_command(out_path: Seq<char>, dry: bool) -> CommandModel {
    CommandModel {
        argv: seq![out_path + "/activate-user"@],
        elevate: false,
        capture_output: false,
        message: Some("Activating configuration for user"@),
        dry,
    }
}

/// Runs the system half of the activation of `out_path`.
pub open spec fn activate_command(out_path: Seq<char>, use_sudo: bool, dry: bool) -> CommandModel {
    CommandModel {
        argv: seq![out_path + "/activate"@],
        elevate: use_sudo,
        capture_output: false,
        message: Some("Activating configuration"@),
        dry,
    }
}

/// The command that activates `target_profile` on the running system.
pub fn make_test_command(target_profile: &str, use_sudo: bool, dry: bool) -> (command: Command)
    ensures
        command@ == test_command(target_profile@, use_sudo, dry),
{
    let script: String = String::from_str(target_profile).concat("/bin/switch-to-configuration");
    let mut argv: Vec<String> = Vec::new();
    assert(argv.deep_view() =~= Seq::<Seq<char>>::empty());
    push_str(&mut argv, script.as_str());
    push_str(&mut argv, "test");
    assert(argv.deep_view() =~= seq![switch_script(target_profile@), "test"@]);
    Command {
        argv,
        elevate: use_sudo,
        capture_output: false,
        message: Some(String::from_str("Activating configuration")),
        dry,
    }
}

/// The command that points the system profile at `out_path`.
pub fn make_set_profile_command(out_path: &str, use_sudo: bool, can_write: bool, dry: bool) -> (command:
    Command)
    ensures
        command@ == set_profile_command(out_path@, use_sudo, can_write, dry),
{
    let mut argv: Vec<String> = Vec::new();
    assert(argv.deep_view() =~= Seq::<Seq<char>>::empty());
    push_str(&mut argv, "nix-env");
    push_str(&mut argv, "--profile");
    push_str(&mut argv, SYSTEM_PROFILE);
    push_str(&mut argv, "--set");
    push_str(&mut argv, out_path);
    assert(argv.deep_view() =~= seq![
        "nix-env"@,
        "--profile"@,
        SYSTEM_PROFILE@,
        "--set"@,
        out_path@,
    ]);
    Command { argv, elevate: use_sudo && !can_write, capture_output: false, message: None, dry }
}

/// The command that registers `out_path` with the bootloader.
pub fn make_bootloader_command(out_path: &str, use_sudo: bool, dry: bool) -> (command: Command)
    ensures
        command@ == bootloader_command(out_path@, use_sudo, dry),
{
    let script: String = String::from_str(out_path).concat("/bin/switch-to-configuration");
    let mut argv: Vec<String> = Vec::new();
    assert(argv.deep_view() =~= Seq::<Seq<char>>::empty());
    push_str(&mut argv, script.as_str());
    push_str(&mut argv, "boot");
    assert(argv.deep_view() =~= seq![switch_script(out_path@), "boot"@]);
    Command {
        argv,
        elevate: use_sudo,
        capture_output: false,
        message: Some(String::from_str("Adding configuration to bootloader")),
        dry,
    }
}

/// The command that runs the per-user half of the activation.
pub fn make_activate_user_command(out_path: &str, dry: bool) -> (command: Command)
    ensures
        command@ == activate_user_command(out_path@, dry),
{
    let script: String = String::from_str(out_path).concat("/activate-user");
    let mut argv: Vec<String> = Vec::new();
    assert(argv.deep_view() =~= Seq::<Seq<char>>::empty());
    push_str(&mut argv, script.as_str());
    assert(argv.deep_view() =~= seq![out_path@ + "/activate-user"@]);
    Command {
        argv,
        elevate: false,
        capture_output: false,
        message: Some(String::from_str("Activating configuration for user")),
        dry,
    }
}

/// The command that runs the system half of the activation.
pub fn make_activate_command(out_path: &str, use_sudo: bool, dry: bool) -> (command: Command)
    ensures
        command@ == activate_command(out_path@, use_sudo, dry),
{
    let script: String = String::from_str(out_path).concat("/activate");
    let mut argv: Vec<String> = Vec::new();
    assert(argv.deep_view() =~= Seq::<Seq<char>>::empty());
    push_str(&mut argv, script.as_str());
    assert(argv.deep_view() =~= seq![out_path@ + "/activate"@]);
    Command {
        argv,
        elevate: use_sudo,
        capture_output: false,
        message: Some(String::from_str("Activating configuration")),
        dry,
    }
}

} // verus!
