//! External commands as values: what to run, whether elevated, whether its
//! output is wanted, and what to tell the operator.

use vstd::prelude::*;
use vstd::string::*;

verus! {

/// One invocation of an external program.
#[derive(Debug, PartialEq, Eq)]
pub struct Command {
    /// The program and its arguments, in order.
    pub argv: Vec<String>,
    /// Run it through the elevation wrapper.
    pub elevate: bool,
    /// Hand its standard output back instead of showing it.
    pub capture_output: bool,
    /// What to tell the operator before it runs.
    pub message: Option<String>,
    /// Log the command and do not run it.
    pub dry: bool,
}

/// A [`Command`] as a mathematical value.
pub struct CommandModel {
    pub argv: Seq<Seq<char>>,
    pub elevate: bool,
    pub capture_output: bool,
    pub message: Option<Seq<char>>,
    pub dry: bool,
}

impl View for Command {
    type V = CommandModel;

    open spec fn view(&self) -> CommandModel {
        CommandModel {
            argv: self.argv.deep_view(),
            elevate: self.elevate,
            capture_output: self.capture_output,
            message: self.message.deep_view(),
            dry: self.dry,
        }
    }
}

/// A build of one flake output.
#[derive(Debug, PartialEq, Eq)]
pub struct BuildCommand {
    /// The flake output to build.
    pub installable: String,
    /// Further arguments for the build tool, in order.
    pub extra_args: Vec<String>,
    /// Pipe the build through the output formatter.
    pub nom: bool,
    /// What to tell the operator before it runs.
    pub message: String,
    /// Log the build and do not run it.
    pub dry: bool,
}

/// A [`BuildCommand`] as a mathematical value.
pub struct BuildCommandModel {
    pub installable: Seq<char>,
    pub extra_args: Seq<Seq<char>>,
    pub nom: bool,
    pub message: Seq<char>,
    pub dry: bool,
}

impl View for BuildCommand {
    type V = BuildCommandModel;

    open spec fn view(&self) -> BuildCommandModel {
        BuildCommandModel {
            installable: self.installable@,
            extra_args: self.extra_args.deep_view(),
            nom: self.nom,
            message: self.message@,
            dry: self.dry,
        }
    }
}

/// What an executor does with a command: the line to log, if any, and the
/// process to spawn, if any.
#[derive(Debug, PartialEq, Eq)]
pub struct Execution {
    /// The line to log before anything runs.
    pub log: Option<String>,
    /// The program and arguments to spawn; `None` where nothing is run.
    pub spawn: Option<Vec<String>>,
    /// Read the standard output of the process.
    pub capture_output: bool,
}

/// An [`Execution`] as a mathematical value.
pub struct ExecutionModel {
    pub log: Option<Seq<char>>,
    pub spawn: Option<Seq<Seq<char>>>,
    pub capture_output: bool,
}

impl View for Execution {
    type V = ExecutionModel;

    open spec fn view(&self) -> ExecutionModel {
        ExecutionModel {
            log: self.log.deep_view(),
            spawn: match self.spawn {
                Some(argv) => Some(argv.deep_view()),
                None => None,
            },
            capture_output: self.capture_output,
        }
    }
}

impl CommandModel {
    /// The process that the command stands for: its arguments, behind the
    /// elevation wrapper where it is elevated.
    pub open spec fn invocation(self) -> Seq<Seq<char>> {
        if self.elevate {
            seq!["sudo"@] + self.argv
        } else {
            self.argv
        }
    }

    /// How the command is executed: its message is logged in any case, and
    /// its process is spawned unless the command is dry.
    pub open spec fn execution(self) -> ExecutionModel {
        ExecutionModel {
            log: self.message,
            spawn: if self.dry {
                None
            } else {
                Some(self.invocation())
            },
            capture_output: self.capture_output,
        }
    }
}

impl BuildCommandModel {
    /// The process that the build stands for: the build tool, told to
    /// build the flake output, with the further arguments behind it.
    pub open spec fn invocation(self) -> Seq<Seq<char>> {
        seq!["nix"@, "build"@, self.installable] + self.extra_args
    }

    /// How the build is executed: its message is logged in any case, and
    /// its process is spawned unless the build is dry.
    pub open spec fn execution(self) -> ExecutionModel {
        ExecutionModel {
            log: Some(self.message),
            spawn: if self.dry {
                None
            } else {
                Some(self.invocation())
            },
            capture_output: false,
        }
    }
}

/// A copy of `items`.
pub fn clone_strings(items: &Vec<String>) -> (copy: Vec<String>)
    ensures
        copy.deep_view() == items.deep_view(),
{
    let mut copy: Vec<String> = Vec::new();
    let mut i: usize = 0;
    while i < items.len()
        invariant
            i <= items.len(),
            copy.deep_view() == items.deep_view().take(i as int),
        decreases items.len() - i,
    {
        let ghost before = copy.deep_view();
        copy.push(items[i].clone());
        assert(copy.deep_view() =~= before.push(items@[i as int]@));
        assert(items.deep_view().take(i + 1) =~= items.deep_view().take(i as int).push(
            items@[i as int]@,
        ));
        i = i + 1;
    }
    assert(items.deep_view().take(items.len() as int) =~= items.deep_view());
    copy
}

/// Appends copies of `items` to `list`.
pub fn extend_strings(list: &mut Vec<String>, items: &Vec<String>)
    ensures
        final(list).deep_view() == old(list).deep_view() + items.deep_view(),
{
    let mut i: usize = 0;
    assert(items.deep_view().take(0) =~= Seq::<Seq<char>>::empty());
    assert(list.deep_view() =~= old(list).deep_view() + items.deep_view().take(0));
    while i < items.len()
        invariant
            i <= items.len(),
            list.deep_view() == old(list).deep_view() + items.deep_view().take(i as int),
        decreases items.len() - i,
    {
        let ghost before = list.deep_view();
        list.push(items[i].clone());
        assert(list.deep_view() =~= before.push(items@[i as int]@));
        assert(items.deep_view().take(i + 1) =~= items.deep_view().take(i as int).push(
            items@[i as int]@,
        ));
        i = i + 1;
    }
    assert(items.deep_view().take(items.len() as int) =~= items.deep_view());
}

/// Appends a copy of `item` to `list`.
pub fn push_str(list: &mut Vec<String>, item: &str)
    ensures
        final(list).deep_view() == old(list).deep_view().push(item@),
{
    let ghost before = list.deep_view();
    list.push(String::from_str(item));
    assert(list.deep_view() =~= before.push(item@));
}

/// A copy of `text`, where there is one.
pub fn clone_option(text: &Option<String>) -> (copy: Option<String>)
    ensures
        copy.deep_view() == text.deep_view(),
{
    match text {
        Some(t) => Some(t.clone()),
        None => None,
    }
}

impl Command {
    /// The program and arguments to spawn for this command.
    pub fn invocation(&self) -> (argv: Vec<String>)
        ensures
            argv.deep_view() == self@.invocation(),
    {
        let mut argv: Vec<String> = Vec::new();
        assert(argv.deep_view() =~= Seq::<Seq<char>>::empty());
        if self.elevate {
            push_str(&mut argv, "sudo");
        }
        extend_strings(&mut argv, &self.argv);
        assert(argv.deep_view() =~= self@.invocation());
        argv
    }

    /// What an executor has to do with this command. A dry command is
    /// logged like any other and spawns nothing.
    pub fn execution(&self) -> (plan: Execution)
        ensures
            plan@ == self@.execution(),
    {
        let spawn: Option<Vec<String>> = if self.dry {
            None
        } else {
            Some(self.invocation())
        };
        Execution { log: clone_option(&self.message), spawn, capture_output: self.capture_output }
    }
}

impl BuildCommand {
    /// The program and arguments to spawn for this build.
    pub fn invocation(&self) -> (argv: Vec<String>)
        ensures
            argv.deep_view() == self@.invocation(),
    {
        let mut argv: Vec<String> = Vec::new();
        assert(argv.deep_view() =~= Seq::<Seq<char>>::empty());
        push_str(&mut argv, "nix");
        push_str(&mut argv, "build");
        push_str(&mut argv, self.installable.as_str());
        extend_strings(&mut argv, &self.extra_args);
        assert(argv.deep_view() =~= self@.invocation());
        argv
    }

    /// What an executor has to do with this build. A dry build is logged
    /// like any other and spawns nothing.
    pub fn execution(&self) -> (plan: Execution)
        ensures
            plan@ == self@.execution(),
    {
        let spawn: Option<Vec<String>> = if self.dry {
            None
        } else {
            Some(self.invocation())
        };
        Execution { log: Some(self.message.clone()), spawn, capture_output: false }
    }
}

} // verus!
