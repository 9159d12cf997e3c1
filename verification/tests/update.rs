use rainy::command::{cargo_install, stack_install, update_or_clone, Command, RunOutcome};
use rainy::update::{
    action_of, rain_ml_uri, rain_vm_uri, repo_dir, root, update, UpdateAction, UpdateError,
    UpdateEvent, UpdateState,
};

#[test]
fn root_is_under_home() {
    assert_eq!(root("/home/u"), "/home/u/.rain");
    assert_eq!(root("/home/u/"), "/home/u/.rain");
}

#[test]
fn repo_dirs_are_under_root() {
    assert_eq!(repo_dir("/r", "rain-ml"), "/r/repo/rain-ml");
    assert_eq!(repo_dir("/r/", "rain-vm"), "/r/repo/rain-vm");
}

#[test]
fn uri_override_wins_when_set_and_non_empty() {
    assert_eq!(rain_ml_uri(Some("file:///tmp/ml".to_string())), "file:///tmp/ml");
    assert_eq!(rain_vm_uri(Some("file:///tmp/vm".to_string())), "file:///tmp/vm");
}

#[test]
fn uri_default_when_unset_or_empty() {
    assert_eq!(rain_ml_uri(None), "https://github.com/elpinal/rain-ml");
    assert_eq!(rain_ml_uri(Some(String::new())), "https://github.com/elpinal/rain-ml");
    assert_eq!(rain_vm_uri(None), "https://github.com/elpinal/rain-vm");
    assert_eq!(rain_vm_uri(Some(String::new())), "https://github.com/elpinal/rain-vm");
}

#[test]
fn sync_pulls_when_destination_exists() {
    let c = update_or_clone("uri", "/r/repo/rain-ml", true);
    assert_eq!(c.program, "git");
    assert_eq!(c.args, vec!["pull".to_string()]);
    assert_eq!(c.working_dir.as_deref(), Some("/r/repo/rain-ml"));
    assert!(!c.args.iter().any(|a| a == "clone"));
}

#[test]
fn sync_clones_when_destination_is_missing() {
    let c = update_or_clone("uri", "/r/repo/rain-ml", false);
    assert_eq!(c.program, "git");
    assert_eq!(c.args, vec!["clone".to_string(), "uri".to_string(), "/r/repo/rain-ml".to_string()]);
    assert_eq!(c.working_dir, None);
    assert!(!c.args.iter().any(|a| a == "pull"));
}

#[test]
fn stack_install_shape() {
    let c = stack_install("/r/repo/rain-ml", "/r/bin");
    assert_eq!(c.program, "stack");
    assert_eq!(
        c.args,
        vec!["--local-bin-path".to_string(), "/r/bin".to_string(), "install".to_string()]
    );
    assert_eq!(c.working_dir.as_deref(), Some("/r/repo/rain-ml"));
}

#[test]
fn cargo_install_shape() {
    let c = cargo_install("/r/repo/rain-vm", "/r");
    assert_eq!(c.program, "cargo");
    assert_eq!(
        c.args,
        vec![
            "install".to_string(),
            "--path".to_string(),
            ".".to_string(),
            "--force".to_string(),
            "--root".to_string(),
            "/r".to_string()
        ]
    );
    assert_eq!(c.working_dir.as_deref(), Some("/r/repo/rain-vm"));
}

#[test]
fn missing_home_fails_before_any_mutation() {
    let st = update(UpdateState::Start, UpdateEvent::HomeDir { value: None });
    assert!(matches!(
        st,
        UpdateState::Failed { error: UpdateError::MissingHomeDirectory }
    ));
    assert!(matches!(action_of(&st), UpdateAction::Stop));
}

#[test]
fn root_creation_failure_is_filesystem_error() {
    let st = update(UpdateState::Start, UpdateEvent::HomeDir { value: Some("/h".to_string()) });
    let st = update(st, UpdateEvent::DirChecked { exists: false });
    assert!(matches!(action_of(&st), UpdateAction::CreateDir { ref path } if path == "/h/.rain"));
    let st = update(st, UpdateEvent::DirCreated { error: Some("denied".to_string()) });
    match st {
        UpdateState::Failed { error: UpdateError::FilesystemError { operation, cause } } => {
            assert_eq!(operation, "create_dir_all");
            assert_eq!(cause, "denied");
        }
        other => panic!("unexpected state {:?}", other),
    }
}

/// Drives the machine up to the point where the first repository's sync
/// command is pending, with the root already present and no overrides.
fn drive_to_ml_sync(ml_exists: bool) -> (UpdateState, Command) {
    let st = update(UpdateState::Start, UpdateEvent::HomeDir { value: Some("/h".to_string()) });
    let st = update(st, UpdateEvent::DirChecked { exists: true });
    assert!(matches!(action_of(&st), UpdateAction::ReadEnvVar { ref name } if name == "RAINY_RAIN_ML_URI"));
    let st = update(st, UpdateEvent::UriOverride { value: None });
    assert!(
        matches!(action_of(&st), UpdateAction::CheckDir { ref path } if path == "/h/.rain/repo/rain-ml")
    );
    let st = update(st, UpdateEvent::DirChecked { exists: ml_exists });
    match action_of(&st) {
        UpdateAction::RunCommand { command } => (st, command),
        other => panic!("expected a pending command, got {:?}", other),
    }
}

#[test]
fn git_failure_aborts_everything_after_it() {
    let (st, cmd) = drive_to_ml_sync(false);
    assert_eq!(cmd.program, "git");
    let st = update(
        st,
        UpdateEvent::CommandFinished { outcome: RunOutcome::Exited { status: 1 } },
    );
    match &st {
        UpdateState::Failed {
            error: UpdateError::ExternalCommandFailed { tool_name, exit_status },
        } => {
            assert_eq!(tool_name, "git");
            assert_eq!(*exit_status, 1);
        }
        other => panic!("unexpected state {:?}", other),
    }
    // the failure is absorbing: no further sync or install is ever issued
    assert!(matches!(action_of(&st), UpdateAction::Stop));
    let st = update(st, UpdateEvent::DirChecked { exists: true });
    assert!(matches!(action_of(&st), UpdateAction::Stop));
    assert!(matches!(
        st,
        UpdateState::Failed { error: UpdateError::ExternalCommandFailed { .. } }
    ));
}

#[test]
fn spawn_failure_is_distinct_from_non_zero_exit() {
    let (st, _) = drive_to_ml_sync(false);
    let st = update(
        st,
        UpdateEvent::CommandFinished {
            outcome: RunOutcome::SpawnFailed { cause: "not found".to_string() },
        },
    );
    match st {
        UpdateState::Failed { error: UpdateError::SpawnFailed { tool_name, cause } } => {
            assert_eq!(tool_name, "git");
            assert_eq!(cause, "not found");
        }
        other => panic!("unexpected state {:?}", other),
    }
}

#[test]
fn fresh_update_runs_the_documented_commands_once_each() {
    // a fresh home: nothing exists, everything succeeds
    let mut st = UpdateState::Start;
    let mut commands: Vec<Command> = Vec::new();
    let mut checked: Vec<String> = Vec::new();
    let mut created: Vec<String> = Vec::new();
    let mut env_reads: Vec<String> = Vec::new();
    let mut steps: usize = 0;
    loop {
        steps += 1;
        assert!(steps < 20, "the machine did not stop");
        let ev = match action_of(&st) {
            UpdateAction::ReadHomeDir => UpdateEvent::HomeDir { value: Some("/h".to_string()) },
            UpdateAction::CheckDir { path } => {
                checked.push(path);
                UpdateEvent::DirChecked { exists: false }
            }
            UpdateAction::CreateDir { path } => {
                created.push(path);
                UpdateEvent::DirCreated { error: None }
            }
            UpdateAction::ReadEnvVar { name } => {
                env_reads.push(name);
                UpdateEvent::UriOverride { value: None }
            }
            UpdateAction::RunCommand { command } => {
                commands.push(command);
                UpdateEvent::CommandFinished { outcome: RunOutcome::Exited { status: 0 } }
            }
            UpdateAction::Stop => break,
        };
        st = update(st, ev);
    }
    assert!(matches!(st, UpdateState::Done));
    assert_eq!(created, vec!["/h/.rain".to_string()]);
    assert_eq!(
        checked,
        vec![
            "/h/.rain".to_string(),
            "/h/.rain/repo/rain-ml".to_string(),
            "/h/.rain/repo/rain-vm".to_string()
        ]
    );
    assert_eq!(
        env_reads,
        vec!["RAINY_RAIN_ML_URI".to_string(), "RAINY_RAIN_VM_URI".to_string()]
    );
    assert_eq!(commands.len(), 4);
    assert_eq!(commands[0].program, "git");
    assert_eq!(
        commands[0].args,
        vec![
            "clone".to_string(),
            "https://github.com/elpinal/rain-ml".to_string(),
            "/h/.rain/repo/rain-ml".to_string()
        ]
    );
    assert_eq!(commands[1].program, "git");
    assert_eq!(
        commands[1].args,
        vec![
            "clone".to_string(),
            "https://github.com/elpinal/rain-vm".to_string(),
            "/h/.rain/repo/rain-vm".to_string()
        ]
    );
    assert_eq!(commands[2].program, "stack");
    assert_eq!(
        commands[2].args,
        vec!["--local-bin-path".to_string(), "/h/.rain/bin".to_string(), "install".to_string()]
    );
    assert_eq!(commands[2].working_dir.as_deref(), Some("/h/.rain/repo/rain-ml"));
    assert_eq!(commands[3].program, "cargo");
    assert_eq!(
        commands[3].args,
        vec![
            "install".to_string(),
            "--path".to_string(),
            ".".to_string(),
            "--force".to_string(),
            "--root".to_string(),
            "/h/.rain".to_string()
        ]
    );
    assert_eq!(commands[3].working_dir.as_deref(), Some("/h/.rain/repo/rain-vm"));
    let stacks = commands.iter().filter(|c| c.program == "stack").count();
    let cargos = commands.iter().filter(|c| c.program == "cargo").count();
    assert_eq!(stacks, 1);
    assert_eq!(cargos, 1);
}

#[test]
fn rerun_after_everything_exists_pulls_instead_of_cloning() {
    let (_, cmd) = drive_to_ml_sync(true);
    assert_eq!(cmd.program, "git");
    assert_eq!(cmd.args, vec!["pull".to_string()]);
    assert_eq!(cmd.working_dir.as_deref(), Some("/h/.rain/repo/rain-ml"));
}

#[test]
fn override_reaches_the_sync_command() {
    let st = update(UpdateState::Start, UpdateEvent::HomeDir { value: Some("/h".to_string()) });
    let st = update(st, UpdateEvent::DirChecked { exists: true });
    let st = update(
        st,
        UpdateEvent::UriOverride { value: Some("file:///tmp/ml".to_string()) },
    );
    let st = update(st, UpdateEvent::DirChecked { exists: false });
    match action_of(&st) {
        UpdateAction::RunCommand { command } => {
            assert_eq!(
                command.args,
                vec![
                    "clone".to_string(),
                    "file:///tmp/ml".to_string(),
                    "/h/.rain/repo/rain-ml".to_string()
                ]
            );
        }
        other => panic!("expected a pending command, got {:?}", other),
    }
}
