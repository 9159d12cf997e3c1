//! External commands as data.
//!
//! The update logic never spawns a process itself: it decides *which*
//! command to run and hands a [`Command`] value to the embedding program.
//! The shapes of the git, stack and cargo invocations are fixed here and
//! stated as spec functions, so every decision about arguments and working
//! directories is verified.

use vstd::prelude::*;
use vstd::string::*;

verus! {

/// The ghost shape of a command: program name, arguments and working
/// directory as character sequences.
#[verifier::ext_equal]
pub struct CommandView {
    pub program: Seq<char>,
    pub args: Seq<Seq<char>>,
    pub working_dir: Option<Seq<char>>,
}

/// An external command to run: a program name, its arguments, and the
/// working directory to run it in, if any.
#[derive(Debug)]
pub struct Command {
    pub program: String,
    pub args: Vec<String>,
    pub working_dir: Option<String>,
}

impl View for Command {
    type V = CommandView;

    open spec fn view(&self) -> CommandView {
        CommandView {
            program: self.program@,
            args: self.args.deep_view(),
            working_dir: match self.working_dir {
                Some(d) => Some(d@),
                None => None,
            },
        }
    }
}

/// How a spawned command ended: the process ran and exited with a status
/// code, or it could not be started at all.
#[derive(Debug)]
pub enum RunOutcome {
    Exited { status: i32 },
    SpawnFailed { cause: String },
}

/// The ghost shape of a run outcome.
#[verifier::ext_equal]
pub enum RunOutcomeView {
    Exited { status: int },
    SpawnFailed { cause: Seq<char> },
}

impl View for RunOutcome {
    type V = RunOutcomeView;

    open spec fn view(&self) -> RunOutcomeView {
        match self {
            RunOutcome::Exited { status } => RunOutcomeView::Exited { status: *status as int },
            RunOutcome::SpawnFailed { cause } => RunOutcomeView::SpawnFailed { cause: cause@ },
        }
    }
}

/// A run succeeded exactly when the process exited with status zero.
pub open spec fn run_ok(out: RunOutcomeView) -> bool {
    out matches RunOutcomeView::Exited { status } && status == 0
}

/// Whether `outcome` is an exit with status zero.
pub fn run_succeeded(outcome: &RunOutcome) -> (r: bool)
    ensures
        r == run_ok(outcome@),
{
    match outcome {
        RunOutcome::Exited { status } => *status == 0,
        RunOutcome::SpawnFailed { .. } => false,
    }
}

/// The git invocation that clones `src` into `dest`.
pub open spec fn clone_cmd(src: Seq<char>, dest: Seq<char>) -> CommandView {
    CommandView {
        program: "git"@,
        args: seq!["clone"@, src, dest],
        working_dir: None,
    }
}

/// The git invocation that pulls the latest changes inside `dest`.
pub open spec fn pull_cmd(dest: Seq<char>) -> CommandView {
    CommandView { program: "git"@, args: seq!["pull"@], working_dir: Some(dest) }
}

/// The sync command for one repository: pull inside an existing
/// destination, clone into a missing one.
pub open spec fn sync_cmd(src: Seq<char>, dest: Seq<char>, dest_exists: bool) -> CommandView {
    if dest_exists {
        pull_cmd(dest)
    } else {
        clone_cmd(src, dest)
    }
}

/// The stack invocation that builds the project at `from` and installs its
/// binaries into `dest`.
pub open spec fn stack_install_cmd(from: Seq<char>, dest: Seq<char>) -> CommandView {
    CommandView {
        program: "stack"@,
        args: seq!["--local-bin-path"@, dest, "install"@],
        working_dir: Some(from),
    }
}

/// The cargo invocation that force-installs the project at `from` with
/// `dest` as the install root.
pub open spec fn cargo_install_cmd(from: Seq<char>, dest: Seq<char>) -> CommandView {
    CommandView {
        program: "cargo"@,
        args: seq!["install"@, "--path"@, "."@, "--force"@, "--root"@, dest],
        working_dir: Some(from),
    }
}

/// Builds the git command that clones `src` into `dest`.
pub fn clone(src: &str, dest: &str) -> (c: Command)
    ensures
        c@ == clone_cmd(src@, dest@),
{
    let mut args: Vec<String> = Vec::new();
    args.push("clone".to_owned());
    args.push(src.to_owned());
    args.push(dest.to_owned());
    let c = Command { program: "git".to_owned(), args, working_dir: None };
    proof {
        assert(c@.args =~= clone_cmd(src@, dest@).args);
        assert(c@ =~= clone_cmd(src@, dest@));
    }
    c
}

/// Builds the git command that pulls inside `dest`.
pub fn pull(dest: &str) -> (c: Command)
    ensures
        c@ == pull_cmd(dest@),
{
    let mut args: Vec<String> = Vec::new();
    args.push("pull".to_owned());
    let c = Command { program: "git".to_owned(), args, working_dir: Some(dest.to_owned()) };
    proof {
        assert(c@.args =~= pull_cmd(dest@).args);
        assert(c@ =~= pull_cmd(dest@));
    }
    c
}

/// Chooses the sync command for one repository: pull when the destination
/// already exists, clone when it does not.
pub fn update_or_clone(src: &str, dest: &str, dest_exists: bool) -> (c: Command)
    ensures
        c@ == sync_cmd(src@, dest@, dest_exists),
{
    if dest_exists {
        pull(dest)
    } else {
        clone(src, dest)
    }
}

/// Builds the stack command that installs the project at `from` into
/// `dest`.
pub fn stack_install(from: &str, dest: &str) -> (c: Command)
    ensures
        c@ == stack_install_cmd(from@, dest@),
{
    let mut args: Vec<String> = Vec::new();
    args.push("--local-bin-path".to_owned());
    args.push(dest.to_owned());
    args.push("install".to_owned());
    let c = Command { program: "stack".to_owned(), args, working_dir: Some(from.to_owned()) };
    proof {
        assert(c@.args =~= stack_install_cmd(from@, dest@).args);
        assert(c@ =~= stack_install_cmd(from@, dest@));
    }
    c
}

/// Builds the cargo command that force-installs the project at `from` with
/// `dest` as the install root.
pub fn cargo_install(from: &str, dest: &str) -> (c: Command)
    ensures
        c@ == cargo_install_cmd(from@, dest@),
{
    let mut args: Vec<String> = Vec::new();
    args.push("install".to_owned());
    args.push("--path".to_owned());
    args.push(".".to_owned());
    args.push("--force".to_owned());
    args.push("--root".to_owned());
    args.push(dest.to_owned());
    let c = Command { program: "cargo".to_owned(), args, working_dir: Some(from.to_owned()) };
    proof {
        assert(c@.args =~= cargo_install_cmd(from@, dest@).args);
        assert(c@ =~= cargo_install_cmd(from@, dest@));
    }
    c
}

} // verus!
