//! What the operator asks for: the rebuild request.

use vstd::prelude::*;
use vstd::string::*;
use crate::text::str_eq;

verus! {

/// How far a rebuild goes once the configuration is built.
#[derive(Clone, Copy, Debug, PartialEq, Eq, Structural)]
pub enum RebuildMode {
    /// Build and compare; never activate.
    Build,
    /// Activate on the running system; nothing survives a reboot.
    Test,
    /// Make the build the boot default; leave the running system alone.
    Boot,
    /// Both: activate now, then make it the boot default.
    Switch,
}

impl RebuildMode {
    /// The mode activates the running system.
    pub open spec fn activates(self) -> bool {
        self is Test || self is Switch
    }

    /// The mode changes what the machine boots into.
    pub open spec fn persists(self) -> bool {
        self is Boot || self is Switch
    }

    /// Whether the mode activates the running system.
    pub fn runs_test_phase(self) -> (yes: bool)
        ensures
            yes == self.activates(),
    {
        match self {
            RebuildMode::Test | RebuildMode::Switch => true,
            RebuildMode::Build | RebuildMode::Boot => false,
        }
    }

    /// Whether the mode changes what the machine boots into.
    pub fn runs_boot_phase(self) -> (yes: bool)
        ensures
            yes == self.persists(),
    {
        match self {
            RebuildMode::Boot | RebuildMode::Switch => true,
            RebuildMode::Build | RebuildMode::Test => false,
        }
    }

    /// The mode that a subcommand's name selects.
    pub open spec fn of_subcommand(name: Seq<char>) -> Option<RebuildMode> {
        if name == "switch"@ {
            Some(RebuildMode::Switch)
        } else if name == "boot"@ {
            Some(RebuildMode::Boot)
        } else if name == "test"@ {
            Some(RebuildMode::Test)
        } else if name == "build"@ {
            Some(RebuildMode::Build)
        } else {
            None
        }
    }

    /// Maps the subcommands `switch`, `boot`, `test` and `build` to their
    /// modes; any other name selects none.
    pub fn from_subcommand(name: &str) -> (mode: Option<RebuildMode>)
        ensures
            mode == Self::of_subcommand(name@),
    {
        if str_eq(name, "switch") {
            Some(RebuildMode::Switch)
        } else if str_eq(name, "boot") {
            Some(RebuildMode::Boot)
        } else if str_eq(name, "test") {
            Some(RebuildMode::Test)
        } else if str_eq(name, "build") {
            Some(RebuildMode::Build)
        } else {
            None
        }
    }
}

/// The family of system that is being rebuilt. It selects the attribute
/// that holds the system configurations and the way a build is made the
/// boot default.
#[derive(Clone, Copy, Debug, PartialEq, Eq, Structural)]
pub enum Platform {
    Linux,
    Darwin,
}

impl Platform {
    /// The flake attribute under which the configurations of this platform
    /// are found.
    pub open spec fn configuration_module(self) -> Seq<char> {
        match self {
            Platform::Linux => "nixosConfigurations"@,
            Platform::Darwin => "darwinConfigurations"@,
        }
    }

    /// The line that announces the build.
    pub open spec fn build_message(self) -> Seq<char> {
        match self {
            Platform::Linux => "Building NixOS configuration"@,
            Platform::Darwin => "Building Darwin configuration"@,
        }
    }

    /// The flake attribute under which the configurations of this platform
    /// are found.
    pub fn module_name(self) -> (name: &'static str)
        ensures
            name@ == self.configuration_module(),
    {
        match self {
            Platform::Linux => "nixosConfigurations",
            Platform::Darwin => "darwinConfigurations",
        }
    }

    /// The line that announces the build.
    pub fn build_announcement(self) -> (line: &'static str)
        ensures
            line@ == self.build_message(),
    {
        match self {
            Platform::Linux => "Building NixOS configuration",
            Platform::Darwin => "Building Darwin configuration",
        }
    }
}

/// The operator's request, without the mode: where the configuration comes
/// from, which host and specialisation are meant, and the switches that
/// shape the run. Built once and never changed.
#[derive(Debug, PartialEq, Eq)]
pub struct OsRebuildArgs {
    /// Reference to the configuration source, a path or a URI.
    pub flakeref: String,
    /// The host to build for; the local hostname where absent.
    pub hostname: Option<String>,
    /// The specialisation asked for by name.
    pub specialisation: Option<String>,
    /// Activate no specialisation, even if one is active now.
    pub no_specialisation: bool,
    /// Log every command and run none.
    pub dry: bool,
    /// Fetch and merge the configuration source first.
    pub pull: bool,
    /// Refresh the lock file first.
    pub update: bool,
    /// Ask before activating.
    pub ask: bool,
    /// Allow the invoker to be root.
    pub bypass_root_check: bool,
    /// Do not pipe the build through the output formatter.
    pub no_nom: bool,
    /// Where to leave the build result; an ephemeral directory where absent.
    pub out_link: Option<String>,
    /// Further arguments for the build, in order.
    pub extra_args: Vec<String>,
    /// The command line of the comparison tool.
    pub diff_provider: String,
}

/// The rebuild request as a mathematical value: the arguments together
/// with the mode.
pub struct RebuildRequest {
    pub flakeref: Seq<char>,
    pub hostname: Option<Seq<char>>,
    pub specialisation: Option<Seq<char>>,
    pub no_specialisation: bool,
    pub mode: RebuildMode,
    pub dry: bool,
    pub pull: bool,
    pub update: bool,
    pub ask: bool,
    pub bypass_root_check: bool,
    pub no_nom: bool,
    pub out_link: Option<Seq<char>>,
    pub extra_args: Seq<Seq<char>>,
    pub diff_provider: Seq<char>,
}

impl OsRebuildArgs {
    /// The request that these arguments make in the given mode.
    pub open spec fn request(&self, mode: RebuildMode) -> RebuildRequest {
        RebuildRequest {
            flakeref: self.flakeref@,
            hostname: self.hostname.deep_view(),
            specialisation: self.specialisation.deep_view(),
            no_specialisation: self.no_specialisation,
            mode,
            dry: self.dry,
            pull: self.pull,
            update: self.update,
            ask: self.ask,
            bypass_root_check: self.bypass_root_check,
            no_nom: self.no_nom,
            out_link: self.out_link.deep_view(),
            extra_args: self.extra_args.deep_view(),
            diff_provider: self.diff_provider@,
        }
    }

    /// A request for `flakeref` with every switch off: no host, no
    /// specialisation, no out-link and no extra arguments.
    pub fn new(flakeref: String, diff_provider: String) -> (args: OsRebuildArgs)
        ensures
            args.flakeref@ == flakeref@,
            args.diff_provider@ == diff_provider@,
            args.hostname is None,
            args.specialisation is None,
            args.out_link is None,
            args.extra_args@.len() == 0,
            !args.no_specialisation && !args.dry && !args.pull && !args.update && !args.ask
                && !args.bypass_root_check && !args.no_nom,
    {
        OsRebuildArgs {
            flakeref,
            hostname: None,
            specialisation: None,
            no_specialisation: false,
            dry: false,
            pull: false,
            update: false,
            ask: false,
            bypass_root_check: false,
            no_nom: false,
            out_link: None,
            extra_args: Vec::new(),
            diff_provider,
        }
    }
}

} // verus!
