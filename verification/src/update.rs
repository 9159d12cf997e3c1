//! The update orchestration.
//!
//! One update locates the state root under the user's home, syncs the two
//! companion repositories (clone when absent, pull when present) and runs
//! the two tool-specific install commands, strictly in that order, aborting
//! at the first failure.  The whole sequence is a state machine whose
//! transition function [`update`] is pure and verified; the embedding
//! program performs each pending [`UpdateAction`] (reading an environment
//! variable, checking or creating a directory, running a command) and feeds
//! the resulting [`UpdateEvent`] back in.

use crate::command::{
    cargo_install, cargo_install_cmd, clone_cmd, run_ok, run_succeeded, stack_install,
    stack_install_cmd, sync_cmd, update_or_clone, Command, CommandView, RunOutcome,
    RunOutcomeView,
};
use vstd::prelude::*;
use vstd::string::*;

verus! {

/// A fatal update failure.
#[derive(Debug)]
pub enum UpdateError {
    /// The home-directory environment value is absent.
    MissingHomeDirectory,
    /// A filesystem operation (directory creation) failed.
    FilesystemError { operation: String, cause: String },
    /// An external tool ran and exited with a non-zero status.
    ExternalCommandFailed { tool_name: String, exit_status: i32 },
    /// An external tool could not be launched at all.
    SpawnFailed { tool_name: String, cause: String },
}

/// The ghost shape of an update failure.
#[verifier::ext_equal]
pub enum UpdateErrorView {
    MissingHomeDirectory,
    FilesystemError { operation: Seq<char>, cause: Seq<char> },
    ExternalCommandFailed { tool_name: Seq<char>, exit_status: int },
    SpawnFailed { tool_name: Seq<char>, cause: Seq<char> },
}

impl View for UpdateError {
    type V = UpdateErrorView;

    open spec fn view(&self) -> UpdateErrorView {
        match self {
            UpdateError::MissingHomeDirectory => UpdateErrorView::MissingHomeDirectory,
            UpdateError::FilesystemError { operation, cause } => UpdateErrorView::FilesystemError {
                operation: operation@,
                cause: cause@,
            },
            UpdateError::ExternalCommandFailed { tool_name, exit_status } =>
                UpdateErrorView::ExternalCommandFailed {
                tool_name: tool_name@,
                exit_status: *exit_status as int,
            },
            UpdateError::SpawnFailed { tool_name, cause } => UpdateErrorView::SpawnFailed {
                tool_name: tool_name@,
                cause: cause@,
            },
        }
    }
}

/// The failure a finished run maps to: the tool's name with the non-zero
/// exit status, or the tool's name with the spawn failure's cause.
pub open spec fn run_error(tool: Seq<char>, out: RunOutcomeView) -> UpdateErrorView {
    match out {
        RunOutcomeView::Exited { status } => UpdateErrorView::ExternalCommandFailed {
            tool_name: tool,
            exit_status: status,
        },
        RunOutcomeView::SpawnFailed { cause } => UpdateErrorView::SpawnFailed {
            tool_name: tool,
            cause,
        },
    }
}

/// Maps a failed run of `tool` to its update error.
fn run_error_of(tool: &str, outcome: RunOutcome) -> (e: UpdateError)
    ensures
        e@ == run_error(tool@, outcome@),
{
    match outcome {
        RunOutcome::Exited { status } => UpdateError::ExternalCommandFailed {
            tool_name: tool.to_owned(),
            exit_status: status,
        },
        RunOutcome::SpawnFailed { cause } => UpdateError::SpawnFailed {
            tool_name: tool.to_owned(),
            cause,
        },
    }
}

/// `a` and `b` joined by a single path separator.
pub open spec fn path_join_spec(a: Seq<char>, b: Seq<char>) -> Seq<char> {
    if a.len() == 0 {
        b
    } else if a.last() == '/' {
        a + b
    } else {
        a + seq!['/'] + b
    }
}

/// Joins two path fragments with a single separator.
pub fn path_join(a: &str, b: &str) -> (r: String)
    ensures
        r@ == path_join_spec(a@, b@),
{
    let n = a.unicode_len();
    if n == 0 {
        return b.to_owned();
    }
    let mut r = a.to_owned();
    if a.get_char(n - 1) != '/' {
        r.append("/");
        proof {
            reveal_strlit("/");
        }
    }
    r.append(b);
    proof {
        assert(r@ =~= path_join_spec(a@, b@));
    }
    r
}

/// The state root under the home directory.
pub open spec fn root_path(home: Seq<char>) -> Seq<char> {
    path_join_spec(home, ".rain"@)
}

/// The destination of the repository called `name` under the root.
pub open spec fn repo_path(root: Seq<char>, name: Seq<char>) -> Seq<char> {
    path_join_spec(path_join_spec(root, "repo"@), name)
}

/// The working copy of the compiler repository.
pub open spec fn ml_repo_path(root: Seq<char>) -> Seq<char> {
    repo_path(root, "rain-ml"@)
}

/// The working copy of the virtual-machine repository.
pub open spec fn vm_repo_path(root: Seq<char>) -> Seq<char> {
    repo_path(root, "rain-vm"@)
}

/// Where the stack-built binaries are installed.
pub open spec fn bin_path(root: Seq<char>) -> Seq<char> {
    path_join_spec(root, "bin"@)
}

/// The fixed state root under the user's home directory.
pub fn root(home: &str) -> (r: String)
    ensures
        r@ == root_path(home@),
{
    path_join(home, ".rain")
}

/// The destination directory of the repository called `name`.
pub fn repo_dir(root_dir: &str, name: &str) -> (r: String)
    ensures
        r@ == repo_path(root_dir@, name@),
{
    let repos = path_join(root_dir, "repo");
    path_join(repos.as_str(), name)
}

/// A set and non-empty override wins over the built-in default.
pub open spec fn resolve_uri_spec(override_val: Option<Seq<char>>, default: Seq<char>) -> Seq<
    char,
> {
    match override_val {
        Some(v) => if v.len() > 0 {
            v
        } else {
            default
        },
        None => default,
    }
}

/// The ghost value of an optional environment string.
pub open spec fn opt_view(o: Option<String>) -> Option<Seq<char>> {
    match o {
        Some(s) => Some(s@),
        None => None,
    }
}

fn resolve_uri(override_val: Option<String>, default: &str) -> (r: String)
    ensures
        r@ == resolve_uri_spec(opt_view(override_val), default@),
{
    match override_val {
        Some(v) => {
            if v.as_str().unicode_len() > 0 {
                v
            } else {
                default.to_owned()
            }
        },
        None => default.to_owned(),
    }
}

/// The source of the compiler repository: the override value when set and
/// non-empty, the built-in default otherwise.
pub fn rain_ml_uri(override_val: Option<String>) -> (r: String)
    ensures
        r@ == resolve_uri_spec(opt_view(override_val), "https://github.com/elpinal/rain-ml"@),
{
    resolve_uri(override_val, "https://github.com/elpinal/rain-ml")
}

/// The source of the virtual-machine repository: the override value when
/// set and non-empty, the built-in default otherwise.
pub fn rain_vm_uri(override_val: Option<String>) -> (r: String)
    ensures
        r@ == resolve_uri_spec(opt_view(override_val), "https://github.com/elpinal/rain-vm"@),
{
    resolve_uri(override_val, "https://github.com/elpinal/rain-vm")
}

/// The sync command for the repository called `name` under the root:
/// pull inside an existing working copy, clone into a missing one.
pub fn update_repo(root_dir: &str, name: &str, uri: &str, dest_exists: bool) -> (c: Command)
    ensures
        c@ == sync_cmd(uri@, repo_path(root_dir@, name@), dest_exists),
{
    let dest = repo_dir(root_dir, name);
    update_or_clone(uri, dest.as_str(), dest_exists)
}

/// Where an update stands.  Each non-terminal state has one pending action
/// ([`pending_action_spec`]); the matching event advances the machine
/// ([`next_state_spec`]).
#[derive(Debug)]
pub enum UpdateState {
    /// Nothing done yet; the home directory is wanted.
    Start,
    /// The root path is known; whether it exists on disk is wanted.
    CheckingRoot { root: String },
    /// The root is missing; its creation is pending.
    CreatingRoot { root: String },
    /// The compiler repository's override variable is wanted.
    ResolvingMlUri { root: String },
    /// Whether the compiler working copy exists is wanted.
    CheckingMlRepo { root: String, uri: String },
    /// The compiler repository's sync command is running.
    SyncingMlRepo { root: String, uri: String, dest_exists: bool },
    /// The virtual machine repository's override variable is wanted.
    ResolvingVmUri { root: String },
    /// Whether the virtual machine working copy exists is wanted.
    CheckingVmRepo { root: String, uri: String },
    /// The virtual machine repository's sync command is running.
    SyncingVmRepo { root: String, uri: String, dest_exists: bool },
    /// The stack install of the compiler is running.
    InstallingMl { root: String },
    /// The cargo install of the virtual machine is running.
    InstallingVm { root: String },
    /// Every step succeeded.
    Done,
    /// A step failed; the cause is kept unchanged.
    Failed { error: UpdateError },
}

/// The ghost shape of an update state.
#[verifier::ext_equal]
pub enum UpdateStateView {
    Start,
    CheckingRoot { root: Seq<char> },
    CreatingRoot { root: Seq<char> },
    ResolvingMlUri { root: Seq<char> },
    CheckingMlRepo { root: Seq<char>, uri: Seq<char> },
    SyncingMlRepo { root: Seq<char>, uri: Seq<char>, dest_exists: bool },
    ResolvingVmUri { root: Seq<char> },
    CheckingVmRepo { root: Seq<char>, uri: Seq<char> },
    SyncingVmRepo { root: Seq<char>, uri: Seq<char>, dest_exists: bool },
    InstallingMl { root: Seq<char> },
    InstallingVm { root: Seq<char> },
    Done,
    Failed { error: UpdateErrorView },
}

impl View for UpdateState {
    type V = UpdateStateView;

    open spec fn view(&self) -> UpdateStateView {
        match self {
            UpdateState::Start => UpdateStateView::Start,
            UpdateState::CheckingRoot { root } => UpdateStateView::CheckingRoot { root: root@ },
            UpdateState::CreatingRoot { root } => UpdateStateView::CreatingRoot { root: root@ },
            UpdateState::ResolvingMlUri { root } => UpdateStateView::ResolvingMlUri {
                root: root@,
            },
            UpdateState::CheckingMlRepo { root, uri } => UpdateStateView::CheckingMlRepo {
                root: root@,
                uri: uri@,
            },
            UpdateState::SyncingMlRepo { root, uri, dest_exists } =>
                UpdateStateView::SyncingMlRepo {
                root: root@,
                uri: uri@,
                dest_exists: *dest_exists,
            },
            UpdateState::ResolvingVmUri { root } => UpdateStateView::ResolvingVmUri {
                root: root@,
            },
            UpdateState::CheckingVmRepo { root, uri } => UpdateStateView::CheckingVmRepo {
                root: root@,
                uri: uri@,
            },
            UpdateState::SyncingVmRepo { root, uri, dest_exists } =>
                UpdateStateView::SyncingVmRepo {
                root: root@,
                uri: uri@,
                dest_exists: *dest_exists,
            },
            UpdateState::InstallingMl { root } => UpdateStateView::InstallingMl { root: root@ },
            UpdateState::InstallingVm { root } => UpdateStateView::InstallingVm { root: root@ },
            UpdateState::Done => UpdateStateView::Done,
            UpdateState::Failed { error } => UpdateStateView::Failed { error: error@ },
        }
    }
}

/// What the embedding program reports back after performing an action.
#[derive(Debug)]
pub enum UpdateEvent {
    /// The home-directory variable's value, absent when unset.
    HomeDir { value: Option<String> },
    /// Whether the checked path exists on disk.
    DirChecked { exists: bool },
    /// The result of creating a directory: no cause on success.
    DirCreated { error: Option<String> },
    /// An override variable's value, absent when unset.
    UriOverride { value: Option<String> },
    /// How the running command ended.
    CommandFinished { outcome: RunOutcome },
}

/// The ghost shape of an update event.
#[verifier::ext_equal]
pub enum UpdateEventView {
    HomeDir { value: Option<Seq<char>> },
    DirChecked { exists: bool },
    DirCreated { error: Option<Seq<char>> },
    UriOverride { value: Option<Seq<char>> },
    CommandFinished { outcome: RunOutcomeView },
}

impl View for UpdateEvent {
    type V = UpdateEventView;

    open spec fn view(&self) -> UpdateEventView {
        match self {
            UpdateEvent::HomeDir { value } => UpdateEventView::HomeDir {
                value: match value {
                    Some(v) => Some(v@),
                    None => None,
                },
            },
            UpdateEvent::DirChecked { exists } => UpdateEventView::DirChecked {
                exists: *exists,
            },
            UpdateEvent::DirCreated { error } => UpdateEventView::DirCreated {
                error: match error {
                    Some(v) => Some(v@),
                    None => None,
                },
            },
            UpdateEvent::UriOverride { value } => UpdateEventView::UriOverride {
                value: match value {
                    Some(v) => Some(v@),
                    None => None,
                },
            },
            UpdateEvent::CommandFinished { outcome } => UpdateEventView::CommandFinished {
                outcome: outcome@,
            },
        }
    }
}

/// What the embedding program must do next.
#[derive(Debug)]
pub enum UpdateAction {
    /// Read the platform home-directory variable.
    ReadHomeDir,
    /// Report whether `path` exists on disk.
    CheckDir { path: String },
    /// Create `path` and any missing parents.
    CreateDir { path: String },
    /// Read the environment variable called `name`.
    ReadEnvVar { name: String },
    /// Run `command` and wait for it.
    RunCommand { command: Command },
    /// The update is over; nothing more to do.
    Stop,
}

/// The ghost shape of an update action.
#[verifier::ext_equal]
pub enum UpdateActionView {
    ReadHomeDir,
    CheckDir { path: Seq<char> },
    CreateDir { path: Seq<char> },
    ReadEnvVar { name: Seq<char> },
    RunCommand { command: CommandView },
    Stop,
}

impl View for UpdateAction {
    type V = UpdateActionView;

    open spec fn view(&self) -> UpdateActionView {
        match self {
            UpdateAction::ReadHomeDir => UpdateActionView::ReadHomeDir,
            UpdateAction::CheckDir { path } => UpdateActionView::CheckDir { path: path@ },
            UpdateAction::CreateDir { path } => UpdateActionView::CreateDir { path: path@ },
            UpdateAction::ReadEnvVar { name } => UpdateActionView::ReadEnvVar { name: name@ },
            UpdateAction::RunCommand { command } => UpdateActionView::RunCommand {
                command: command@,
            },
            UpdateAction::Stop => UpdateActionView::Stop,
        }
    }
}

/// The one pending action of each state.  Terminal states pend `Stop`.
pub open spec fn pending_action_spec(s: UpdateStateView) -> UpdateActionView {
    match s {
        UpdateStateView::Start => UpdateActionView::ReadHomeDir,
        UpdateStateView::CheckingRoot { root } => UpdateActionView::CheckDir { path: root },
        UpdateStateView::CreatingRoot { root } => UpdateActionView::CreateDir { path: root },
        UpdateStateView::ResolvingMlUri { root } => UpdateActionView::ReadEnvVar {
            name: "RAINY_RAIN_ML_URI"@,
        },
        UpdateStateView::CheckingMlRepo { root, uri } => UpdateActionView::CheckDir {
            path: ml_repo_path(root),
        },
        UpdateStateView::SyncingMlRepo { root, uri, dest_exists } => UpdateActionView::RunCommand {
            command: sync_cmd(uri, ml_repo_path(root), dest_exists),
        },
        UpdateStateView::ResolvingVmUri { root } => UpdateActionView::ReadEnvVar {
            name: "RAINY_RAIN_VM_URI"@,
        },
        UpdateStateView::CheckingVmRepo { root, uri } => UpdateActionView::CheckDir {
            path: vm_repo_path(root),
        },
        UpdateStateView::SyncingVmRepo { root, uri, dest_exists } => UpdateActionView::RunCommand {
            command: sync_cmd(uri, vm_repo_path(root), dest_exists),
        },
        UpdateStateView::InstallingMl { root } => UpdateActionView::RunCommand {
            command: stack_install_cmd(ml_repo_path(root), bin_path(root)),
        },
        UpdateStateView::InstallingVm { root } => UpdateActionView::RunCommand {
            command: cargo_install_cmd(vm_repo_path(root), root),
        },
        UpdateStateView::Done => UpdateActionView::Stop,
        UpdateStateView::Failed { error } => UpdateActionView::Stop,
    }
}

/// The transition relation of the update: strictly ordered steps, any
/// failure going straight to `Failed` with its cause kept, `Done` and
/// `Failed` absorbing.  An event that does not answer the state's pending
/// action leaves the state unchanged.
pub open spec fn next_state_spec(s: UpdateStateView, e: UpdateEventView) -> UpdateStateView {
    match (s, e) {
        (UpdateStateView::Start, UpdateEventView::HomeDir { value }) => match value {
            Some(home) => UpdateStateView::CheckingRoot { root: root_path(home) },
            None => UpdateStateView::Failed { error: UpdateErrorView::MissingHomeDirectory },
        },
        (
            UpdateStateView::CheckingRoot { root },
            UpdateEventView::DirChecked { exists },
        ) => if exists {
            UpdateStateView::ResolvingMlUri { root }
        } else {
            UpdateStateView::CreatingRoot { root }
        },
        (
            UpdateStateView::CreatingRoot { root },
            UpdateEventView::DirCreated { error },
        ) => match error {
            None => UpdateStateView::ResolvingMlUri { root },
            Some(cause) => UpdateStateView::Failed {
                error: UpdateErrorView::FilesystemError { operation: "create_dir_all"@, cause },
            },
        },
        (
            UpdateStateView::ResolvingMlUri { root },
            UpdateEventView::UriOverride { value },
        ) => UpdateStateView::CheckingMlRepo {
            root,
            uri: resolve_uri_spec(value, "https://github.com/elpinal/rain-ml"@),
        },
        (
            UpdateStateView::CheckingMlRepo { root, uri },
            UpdateEventView::DirChecked { exists },
        ) => UpdateStateView::SyncingMlRepo { root, uri, dest_exists: exists },
        (
            UpdateStateView::SyncingMlRepo { root, uri, dest_exists },
            UpdateEventView::CommandFinished { outcome },
        ) => if run_ok(outcome) {
            UpdateStateView::ResolvingVmUri { root }
        } else {
            UpdateStateView::Failed { error: run_error("git"@, outcome) }
        },
        (
            UpdateStateView::ResolvingVmUri { root },
            UpdateEventView::UriOverride { value },
        ) => UpdateStateView::CheckingVmRepo {
            root,
            uri: resolve_uri_spec(value, "https://github.com/elpinal/rain-vm"@),
        },
        (
            UpdateStateView::CheckingVmRepo { root, uri },
            UpdateEventView::DirChecked { exists },
        ) => UpdateStateView::SyncingVmRepo { root, uri, dest_exists: exists },
        (
            UpdateStateView::SyncingVmRepo { root, uri, dest_exists },
            UpdateEventView::CommandFinished { outcome },
        ) => if run_ok(outcome) {
            UpdateStateView::InstallingMl { root }
        } else {
            UpdateStateView::Failed { error: run_error("git"@, outcome) }
        },
        (
            UpdateStateView::InstallingMl { root },
            UpdateEventView::CommandFinished { outcome },
        ) => if run_ok(outcome) {
            UpdateStateView::InstallingVm { root }
        } else {
            UpdateStateView::Failed { error: run_error("stack"@, outcome) }
        },
        (
            UpdateStateView::InstallingVm { root },
            UpdateEventView::CommandFinished { outcome },
        ) => if run_ok(outcome) {
            UpdateStateView::Done
        } else {
            UpdateStateView::Failed { error: run_error("cargo"@, outcome) }
        },
        (s0, _) => s0,
    }
}

/// The pending action of `state`: what the embedding program must perform
/// before the machine can advance.
pub fn action_of(state: &UpdateState) -> (a: UpdateAction)
    ensures
        a@ == pending_action_spec(state@),
{
    match state {
        UpdateState::Start => UpdateAction::ReadHomeDir,
        UpdateState::CheckingRoot { root } => UpdateAction::CheckDir { path: root.clone() },
        UpdateState::CreatingRoot { root } => UpdateAction::CreateDir { path: root.clone() },
        UpdateState::ResolvingMlUri { root } => UpdateAction::ReadEnvVar {
            name: "RAINY_RAIN_ML_URI".to_owned(),
        },
        UpdateState::CheckingMlRepo { root, uri } => UpdateAction::CheckDir {
            path: repo_dir(root.as_str(), "rain-ml"),
        },
        UpdateState::SyncingMlRepo { root, uri, dest_exists } => UpdateAction::RunCommand {
            command: update_repo(root.as_str(), "rain-ml", uri.as_str(), *dest_exists),
        },
        UpdateState::ResolvingVmUri { root } => UpdateAction::ReadEnvVar {
            name: "RAINY_RAIN_VM_URI".to_owned(),
        },
        UpdateState::CheckingVmRepo { root, uri } => UpdateAction::CheckDir {
            path: repo_dir(root.as_str(), "rain-vm"),
        },
        UpdateState::SyncingVmRepo { root, uri, dest_exists } => UpdateAction::RunCommand {
            command: update_repo(root.as_str(), "rain-vm", uri.as_str(), *dest_exists),
        },
        UpdateState::InstallingMl { root } => {
            let from = repo_dir(root.as_str(), "rain-ml");
            let dest = path_join(root.as_str(), "bin");
            UpdateAction::RunCommand {
                command: stack_install(from.as_str(), dest.as_str()),
            }
        },
        UpdateState::InstallingVm { root } => {
            let from = repo_dir(root.as_str(), "rain-vm");
            UpdateAction::RunCommand {
                command: cargo_install(from.as_str(), root.as_str()),
            }
        },
        UpdateState::Done => UpdateAction::Stop,
        UpdateState::Failed { error } => UpdateAction::Stop,
    }
}

/// Advances the update by one step: feeds the event answering `state`'s
/// pending action into the machine.  An event that does not answer it
/// leaves the state unchanged.
pub fn update(state: UpdateState, event: UpdateEvent) -> (next: UpdateState)
    ensures
        next@ == next_state_spec(state@, event@),
{
    match (state, event) {
        (UpdateState::Start, UpdateEvent::HomeDir { value }) => match value {
            Some(home) => UpdateState::CheckingRoot { root: root(home.as_str()) },
            None => UpdateState::Failed { error: UpdateError::MissingHomeDirectory },
        },
        (UpdateState::CheckingRoot { root }, UpdateEvent::DirChecked { exists }) => if exists {
            UpdateState::ResolvingMlUri { root }
        } else {
            UpdateState::CreatingRoot { root }
        },
        (UpdateState::CreatingRoot { root }, UpdateEvent::DirCreated { error }) => match error {
            None => UpdateState::ResolvingMlUri { root },
            Some(cause) => UpdateState::Failed {
                error: UpdateError::FilesystemError {
                    operation: "create_dir_all".to_owned(),
                    cause,
                },
            },
        },
        (
            UpdateState::ResolvingMlUri { root },
            UpdateEvent::UriOverride { value },
        ) => UpdateState::CheckingMlRepo { root, uri: rain_ml_uri(value) },
        (
            UpdateState::CheckingMlRepo { root, uri },
            UpdateEvent::DirChecked { exists },
        ) => UpdateState::SyncingMlRepo { root, uri, dest_exists: exists },
        (
            UpdateState::SyncingMlRepo { root, uri, dest_exists },
            UpdateEvent::CommandFinished { outcome },
        ) => if run_succeeded(&outcome) {
            UpdateState::ResolvingVmUri { root }
        } else {
            UpdateState::Failed { error: run_error_of("git", outcome) }
        },
        (
            UpdateState::ResolvingVmUri { root },
            UpdateEvent::UriOverride { value },
        ) => UpdateState::CheckingVmRepo { root, uri: rain_vm_uri(value) },
        (
            UpdateState::CheckingVmRepo { root, uri },
            UpdateEvent::DirChecked { exists },
        ) => UpdateState::SyncingVmRepo { root, uri, dest_exists: exists },
        (
            UpdateState::SyncingVmRepo { root, uri, dest_exists },
            UpdateEvent::CommandFinished { outcome },
        ) => if run_succeeded(&outcome) {
            UpdateState::InstallingMl { root }
        } else {
            UpdateState::Failed { error: run_error_of("git", outcome) }
        },
        (
            UpdateState::InstallingMl { root },
            UpdateEvent::CommandFinished { outcome },
        ) => if run_succeeded(&outcome) {
            UpdateState::InstallingVm { root }
        } else {
            UpdateState::Failed { error: run_error_of("stack", outcome) }
        },
        (
            UpdateState::InstallingVm { root },
            UpdateEvent::CommandFinished { outcome },
        ) => if run_succeeded(&outcome) {
            UpdateState::Done
        } else {
            UpdateState::Failed { error: run_error_of("cargo", outcome) }
        },
        (s0, _) => s0,
    }
}

/// Runs the machine from `s` over a sequence of events.
pub open spec fn run_machine(s: UpdateStateView, evs: Seq<UpdateEventView>) -> UpdateStateView
    decreases evs.len(),
{
    if evs.len() == 0 {
        s
    } else {
        run_machine(next_state_spec(s, evs[0]), evs.drop_first())
    }
}

/// The pending actions along a run: the action of the start state, then of
/// each state the events lead to, ending with the final state's action.
pub open spec fn machine_actions(s: UpdateStateView, evs: Seq<UpdateEventView>) -> Seq<
    UpdateActionView,
> {
    Seq::new(evs.len() + 1, |i: int| pending_action_spec(run_machine(s, evs.take(i))))
}

proof fn lemma_run_machine_snoc(s: UpdateStateView, evs: Seq<UpdateEventView>, i: int)
    requires
        0 <= i < evs.len(),
    ensures
        run_machine(s, evs.take(i + 1)) == next_state_spec(run_machine(s, evs.take(i)), evs[i]),
    decreases i,
{
    if i == 0 {
        assert(evs.take(0) =~= Seq::<UpdateEventView>::empty());
        assert(evs.take(1) =~= seq![evs[0]]);
        assert(evs.take(1).drop_first() =~= Seq::<UpdateEventView>::empty());
        let n1 = next_state_spec(s, evs[0]);
        assert(run_machine(n1, Seq::<UpdateEventView>::empty()) == n1);
        assert(run_machine(s, evs.take(1)) == run_machine(n1, evs.take(1).drop_first()));
        assert(run_machine(s, evs.take(0)) == s);
    } else {
        let t = evs.drop_first();
        lemma_run_machine_snoc(next_state_spec(s, evs[0]), t, i - 1);
        assert(evs.take(i).drop_first() =~= t.take(i - 1));
        assert(evs.take(i + 1).drop_first() =~= t.take(i));
        assert(evs.take(i)[0] == evs[0]);
        assert(evs.take(i + 1)[0] == evs[0]);
        assert(t[i - 1] == evs[i]);
        assert(run_machine(s, evs.take(i)) == run_machine(
            next_state_spec(s, evs[0]),
            t.take(i - 1),
        ));
        assert(run_machine(s, evs.take(i + 1)) == run_machine(
            next_state_spec(s, evs[0]),
            t.take(i),
        ));
    }
}

/// Failure propagation: when the compiler repository's sync exits with a
/// non-zero status, the update fails with the tool's name and that status.
/// With [`lemma_terminal_absorbing`], the second repository's sync and both
/// installs are never attempted after that.
pub proof fn lemma_sync_failure(root: Seq<char>, uri: Seq<char>, dest_exists: bool, status: int)
    requires
        status != 0,
    ensures
        next_state_spec(
            UpdateStateView::SyncingMlRepo { root, uri, dest_exists },
            UpdateEventView::CommandFinished { outcome: RunOutcomeView::Exited { status } },
        ) == (UpdateStateView::Failed {
            error: UpdateErrorView::ExternalCommandFailed {
                tool_name: "git"@,
                exit_status: status,
            },
        }),
{
}

/// Terminal states absorb: once the update is done or failed, no event
/// changes the state, the failure's cause is kept unchanged, and the only
/// pending action is `Stop` — no further command is ever issued.
pub proof fn lemma_terminal_absorbing(s: UpdateStateView, e: UpdateEventView)
    requires
        s is Done || s is Failed,
    ensures
        next_state_spec(s, e) == s,
        pending_action_spec(s) == UpdateActionView::Stop,
{
}

/// The events of a fresh, fully successful update: the home set, no root
/// directory yet, its creation succeeding, no override variables, neither
/// working copy present, and all four commands exiting with status zero.
pub open spec fn fresh_success_events(home: Seq<char>) -> Seq<UpdateEventView> {
    seq![
        UpdateEventView::HomeDir { value: Some(home) },
        UpdateEventView::DirChecked { exists: false },
        UpdateEventView::DirCreated { error: None },
        UpdateEventView::UriOverride { value: None },
        UpdateEventView::DirChecked { exists: false },
        UpdateEventView::CommandFinished { outcome: RunOutcomeView::Exited { status: 0 } },
        UpdateEventView::UriOverride { value: None },
        UpdateEventView::DirChecked { exists: false },
        UpdateEventView::CommandFinished { outcome: RunOutcomeView::Exited { status: 0 } },
        UpdateEventView::CommandFinished { outcome: RunOutcomeView::Exited { status: 0 } },
        UpdateEventView::CommandFinished { outcome: RunOutcomeView::Exited { status: 0 } },
    ]
}

/// The actions of a fresh, fully successful update, in order: read the
/// home, check and create the root, then per repository read its override
/// and check and clone its working copy, then the stack install into
/// `root/bin` and the cargo install into the root, then stop.  Each install
/// appears exactly once.
pub open spec fn fresh_success_actions(home: Seq<char>) -> Seq<UpdateActionView> {
    let root = root_path(home);
    seq![
        UpdateActionView::ReadHomeDir,
        UpdateActionView::CheckDir { path: root },
        UpdateActionView::CreateDir { path: root },
        UpdateActionView::ReadEnvVar { name: "RAINY_RAIN_ML_URI"@ },
        UpdateActionView::CheckDir { path: ml_repo_path(root) },
        UpdateActionView::RunCommand {
            command: clone_cmd("https://github.com/elpinal/rain-ml"@, ml_repo_path(root)),
        },
        UpdateActionView::ReadEnvVar { name: "RAINY_RAIN_VM_URI"@ },
        UpdateActionView::CheckDir { path: vm_repo_path(root) },
        UpdateActionView::RunCommand {
            command: clone_cmd("https://github.com/elpinal/rain-vm"@, vm_repo_path(root)),
        },
        UpdateActionView::RunCommand {
            command: stack_install_cmd(ml_repo_path(root), bin_path(root)),
        },
        UpdateActionView::RunCommand { command: cargo_install_cmd(vm_repo_path(root), root) },
        UpdateActionView::Stop,
    ]
}

/// End to end: starting fresh, with no overrides and every command
/// succeeding, the update reaches `Done`, and the actions it asks for are
/// exactly the documented ones, in the documented order.
pub proof fn lemma_fresh_update_succeeds(home: Seq<char>)
    ensures
        run_machine(UpdateStateView::Start, fresh_success_events(home)) == UpdateStateView::Done,
        machine_actions(UpdateStateView::Start, fresh_success_events(home))
            == fresh_success_actions(home),
{
    let e = fresh_success_events(home);
    let s0 = UpdateStateView::Start;
    let root = root_path(home);
    let ml = "https://github.com/elpinal/rain-ml"@;
    let vm = "https://github.com/elpinal/rain-vm"@;
    assert(e.take(0) =~= Seq::<UpdateEventView>::empty());
    assert(run_machine(s0, e.take(0)) == s0);
    lemma_run_machine_snoc(s0, e, 0);
    assert(run_machine(s0, e.take(1)) == (UpdateStateView::CheckingRoot { root }));
    lemma_run_machine_snoc(s0, e, 1);
    assert(run_machine(s0, e.take(2)) == (UpdateStateView::CreatingRoot { root }));
    lemma_run_machine_snoc(s0, e, 2);
    assert(run_machine(s0, e.take(3)) == (UpdateStateView::ResolvingMlUri { root }));
    lemma_run_machine_snoc(s0, e, 3);
    assert(run_machine(s0, e.take(4)) == (UpdateStateView::CheckingMlRepo { root, uri: ml }));
    lemma_run_machine_snoc(s0, e, 4);
    assert(run_machine(s0, e.take(5)) == (UpdateStateView::SyncingMlRepo {
        root,
        uri: ml,
        dest_exists: false,
    }));
    lemma_run_machine_snoc(s0, e, 5);
    assert(run_machine(s0, e.take(6)) == (UpdateStateView::ResolvingVmUri { root }));
    lemma_run_machine_snoc(s0, e, 6);
    assert(run_machine(s0, e.take(7)) == (UpdateStateView::CheckingVmRepo { root, uri: vm }));
    lemma_run_machine_snoc(s0, e, 7);
    assert(run_machine(s0, e.take(8)) == (UpdateStateView::SyncingVmRepo {
        root,
        uri: vm,
        dest_exists: false,
    }));
    lemma_run_machine_snoc(s0, e, 8);
    assert(run_machine(s0, e.take(9)) == (UpdateStateView::InstallingMl { root }));
    lemma_run_machine_snoc(s0, e, 9);
    assert(run_machine(s0, e.take(10)) == (UpdateStateView::InstallingVm { root }));
    lemma_run_machine_snoc(s0, e, 10);
    assert(run_machine(s0, e.take(11)) == UpdateStateView::Done);
    assert(e.take(11) =~= e);
    let acts = machine_actions(s0, e);
    let want = fresh_success_actions(home);
    assert(acts[0] == want[0]);
    assert(acts[1] == want[1]);
    assert(acts[2] == want[2]);
    assert(acts[3] == want[3]);
    assert(acts[4] == want[4]);
    assert(acts[5] == want[5]);
    assert(acts[6] == want[6]);
    assert(acts[7] == want[7]);
    assert(acts[8] == want[8]);
    assert(acts[9] == want[9]);
    assert(acts[10] == want[10]);
    assert(acts[11] == want[11]);
    assert(acts =~= want);
}

} // verus!
