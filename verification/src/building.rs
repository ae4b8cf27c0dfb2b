//! Building the configuration and comparing it with the running system.

use vstd::prelude::*;
use vstd::string::*;
use crate::command::{extend_strings, push_str, BuildCommand, BuildCommandModel, Command, CommandModel};
use crate::request::Platform;
use crate::text::{split_ascii_whitespace, words};

verus! {

/// The root of the system that is running now.
pub const CURRENT_PROFILE: &'static str = "/run/current-system";

/// Where the build result lies: at the caller's path, or in a directory
/// that exists for this run only.
#[derive(Debug, PartialEq, Eq)]
pub struct BuildResult {
    /// The root of the built configuration. It exists only once the build
    /// has succeeded.
    pub path: String,
    /// The path lies in an ephemeral directory, which is released when the
    /// workflow ends.
    pub ephemeral: bool,
}

/// A [`BuildResult`] as a mathematical value.
pub struct BuildResultModel {
    pub path: Seq<char>,
    pub ephemeral: bool,
}

impl View for BuildResult {
    type V = BuildResultModel;

    open spec fn view(&self) -> BuildResultModel {
        BuildResultModel { path: self.path@, ephemeral: self.ephemeral }
    }
}

/// The build result inside the ephemeral directory `dir`.
pub open spec fn ephemeral_result(dir: Seq<char>) -> BuildResultModel {
    BuildResultModel { path: dir + "/result"@, ephemeral: true }
}

/// The build result at a path that the caller chose.
pub open spec fn caller_result(path: Seq<char>) -> BuildResultModel {
    BuildResultModel { path, ephemeral: false }
}

impl BuildResult {
    /// The build result inside the ephemeral directory `dir`.
    pub fn in_ephemeral(dir: &str) -> (result: BuildResult)
        ensures
            result@ == ephemeral_result(dir@),
    {
        BuildResult { path: String::from_str(dir).concat("/result"), ephemeral: true }
    }

    /// The build result at a path that the caller chose.
    pub fn at(path: &str) -> (result: BuildResult)
        ensures
            result@ == caller_result(path@),
    {
        BuildResult { path: String::from_str(path), ephemeral: false }
    }
}

/// The flake output that holds the system of `hostname`:
/// `<flakeref>#<module>.<hostname>.config.system.build.toplevel`.
pub open spec fn build_target(flakeref: Seq<char>, platform: Platform, hostname: Seq<char>) -> Seq<
    char,
> {
    flakeref + "#"@ + platform.configuration_module() + "."@ + hostname
        + ".config.system.build.toplevel"@
}

/// Builds the system of `hostname` into `out_path`.
pub open spec fn build_command(
    flakeref: Seq<char>,
    platform: Platform,
    hostname: Seq<char>,
    out_path: Seq<char>,
    extra_args: Seq<Seq<char>>,
    no_nom: bool,
    dry: bool,
) -> BuildCommandModel {
    BuildCommandModel {
        installable: build_target(flakeref, platform, hostname),
        extra_args: seq!["--out-link"@, out_path] + extra_args,
        nom: !no_nom,
        message: platform.build_message(),
        dry,
    }
}

/// Compares the running system with `target_profile`, by the words of
/// the comparison tool's command line followed by the two paths.
pub open spec fn diff_command(diff_provider: Seq<char>, target_profile: Seq<char>, dry: bool) -> CommandModel {
    CommandModel {
        argv: words(diff_provider) + seq![CURRENT_PROFILE@, target_profile],
        elevate: false,
        capture_output: false,
        message: Some("Comparing changes"@),
        dry,
    }
}

/// The flake output that holds the system of `hostname`.
pub fn make_build_target(flakeref: &str, platform: Platform, hostname: &str) -> (target: String)
    ensures
        target@ == build_target(flakeref@, platform, hostname@),
{
    String::from_str(flakeref).concat("#").concat(platform.module_name()).concat(".").concat(
        hostname,
    ).concat(".config.system.build.toplevel")
}

/// The build of the system of `hostname` into `out_path`.
pub fn make_build_command(
    flakeref: &str,
    platform: Platform,
    hostname: &str,
    out_path: &str,
    extra_args: &Vec<String>,
    no_nom: bool,
    dry: bool,
) -> (command: BuildCommand)
    ensures
        command@ == build_command(
            flakeref@,
            platform,
            hostname@,
            out_path@,
            extra_args.deep_view(),
            no_nom,
            dry,
        ),
{
    let mut args: Vec<String> = Vec::new();
    assert(args.deep_view() =~= Seq::<Seq<char>>::empty());
    push_str(&mut args, "--out-link");
    push_str(&mut args, out_path);
    extend_strings(&mut args, extra_args);
    assert(args.deep_view() =~= seq!["--out-link"@, out_path@] + extra_args.deep_view());
    BuildCommand {
        installable: make_build_target(flakeref, platform, hostname),
        extra_args: args,
        nom: !no_nom,
        message: String::from_str(platform.build_announcement()),
        dry,
    }
}

/// The comparison of the running system with `target_profile`.
pub fn make_diff_command(diff_provider: &str, target_profile: &str, dry: bool) -> (command: Command)
    ensures
        command@ == diff_command(diff_provider@, target_profile@, dry),
{
    let mut argv: Vec<String> = split_ascii_whitespace(diff_provider);
    push_str(&mut argv, CURRENT_PROFILE);
    push_str(&mut argv, target_profile);
    assert(argv.deep_view() =~= words(diff_provider@) + seq![CURRENT_PROFILE@, target_profile@]);
    Command {
        argv,
        elevate: false,
        capture_output: false,
        message: Some(String::from_str("Comparing changes")),
        dry,
    }
}

} // verus!
