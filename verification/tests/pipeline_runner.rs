use nanobuild::error::RunError;
use nanobuild::executor::{run_scripted, Executor, ExecutorState};
use nanobuild::pipeline::{output_dir, Pipeline};
use nanobuild::step::{Step, StepOutcome};

fn command(program: &str, arguments: &[&str]) -> Step {
    Step::Command {
        program: program.to_owned(),
        arguments: arguments.iter().map(|a| a.to_string()).collect(),
    }
}

fn pipeline(steps: Vec<Step>) -> Pipeline {
    Pipeline::new("/work".to_owned(), "build-001".to_owned(), steps)
}

#[test]
fn empty_pipeline_completes_immediately() {
    let mut exec = Executor::new(pipeline(vec![]));
    exec.start();
    assert!(exec.is_completed());
    assert!(!exec.is_running());
    assert!(!exec.is_failed());
    assert!(exec.current_step().is_none());
    assert_eq!(exec.success_message(), "Build build-001 complete");
}

#[test]
fn steps_run_in_declaration_order() {
    let mut exec = Executor::new(pipeline(vec![
        command("alpha", &[]),
        command("beta", &[]),
        command("gamma", &[]),
    ]));
    exec.start();
    for expected in ["alpha", "beta", "gamma"] {
        match exec.current_step() {
            Some(Step::Command { program, .. }) => assert_eq!(program.as_str(), expected),
            other => panic!("expected a command step, got {:?}", other.is_some()),
        }
        exec.report_outcome(StepOutcome::Exited { code: 0 });
    }
    assert!(exec.is_completed());
}

#[test]
fn failure_stops_the_pipeline_at_the_failing_step() {
    let mut exec = Executor::new(pipeline(vec![
        command("first", &[]),
        command("second", &[]),
        command("third", &[]),
    ]));
    exec.start();
    exec.report_outcome(StepOutcome::Exited { code: 0 });
    exec.report_outcome(StepOutcome::Exited { code: 7 });
    assert!(exec.is_failed());
    // The third step is never requested.
    assert!(exec.current_step().is_none());
    match exec.state() {
        ExecutorState::Failed { step, error } => {
            assert_eq!(*step, 1);
            match error {
                RunError::NonZeroExitError { program, code, .. } => {
                    assert_eq!(program.as_str(), "second");
                    assert_eq!(*code, 7);
                }
                _ => panic!("expected a non-zero-exit error"),
            }
        }
        _ => panic!("expected the failed state"),
    }
}

#[test]
fn missing_program_is_a_spawn_error_not_a_nonzero_exit_error() {
    let mut exec = Executor::new(pipeline(vec![command("no-such-program", &["x"])]));
    exec.start();
    exec.report_outcome(StepOutcome::SpawnFailed);
    assert!(exec.is_failed());
    match exec.state() {
        ExecutorState::Failed { step, error } => {
            assert_eq!(*step, 0);
            assert!(matches!(error, RunError::SpawnError { .. }));
            assert!(!matches!(error, RunError::NonZeroExitError { .. }));
            match error {
                RunError::SpawnError { program, arguments } => {
                    assert_eq!(program.as_str(), "no-such-program");
                    assert_eq!(arguments.len(), 1);
                    assert_eq!(arguments[0].as_str(), "x");
                }
                _ => unreachable!(),
            }
        }
        _ => panic!("expected the failed state"),
    }
}

#[test]
fn exit_code_two_is_reported_as_nonzero_exit_with_code_two() {
    let mut exec = Executor::new(pipeline(vec![command("tool", &[])]));
    exec.start();
    exec.report_outcome(StepOutcome::Exited { code: 2 });
    match exec.state() {
        ExecutorState::Failed { step, error } => {
            assert_eq!(*step, 0);
            match error {
                RunError::NonZeroExitError { program, arguments, code } => {
                    assert_eq!(program.as_str(), "tool");
                    assert!(arguments.is_empty());
                    assert_eq!(*code, 2);
                }
                _ => panic!("expected a non-zero-exit error"),
            }
        }
        _ => panic!("expected the failed state"),
    }
}

#[test]
fn workspace_failure_is_a_filesystem_error() {
    let mut exec = Executor::new(pipeline(vec![Step::PrepareWorkspace {
        path: "/work".to_owned(),
    }]));
    exec.start();
    exec.report_outcome(StepOutcome::WorkspaceFailed);
    match exec.state() {
        ExecutorState::Failed { step, error } => {
            assert_eq!(*step, 0);
            match error {
                RunError::FilesystemError { path } => assert_eq!(path.as_str(), "/work"),
                _ => panic!("expected a filesystem error"),
            }
        }
        _ => panic!("expected the failed state"),
    }
}

#[test]
fn end_to_end_scenario_fails_at_the_false_step() {
    // prepare workspace /tmp/w; true (exit 0); false (exit 1); echo done.
    assert_eq!(output_dir("/tmp/w"), "/tmp/w/output");
    let mut exec = Executor::new(pipeline(vec![
        Step::PrepareWorkspace { path: "/tmp/w".to_owned() },
        command("true", &[]),
        command("false", &[]),
        command("echo", &["done"]),
    ]));
    exec.start();
    match exec.current_step() {
        Some(Step::PrepareWorkspace { path }) => assert_eq!(path.as_str(), "/tmp/w"),
        _ => panic!("expected the workspace step first"),
    }
    exec.report_outcome(StepOutcome::WorkspaceReady);
    match exec.current_step() {
        Some(Step::Command { program, .. }) => assert_eq!(program.as_str(), "true"),
        _ => panic!("expected the true step second"),
    }
    exec.report_outcome(StepOutcome::Exited { code: 0 });
    match exec.current_step() {
        Some(Step::Command { program, .. }) => assert_eq!(program.as_str(), "false"),
        _ => panic!("expected the false step third"),
    }
    exec.report_outcome(StepOutcome::Exited { code: 1 });
    assert!(exec.is_failed());
    // The echo step is never executed.
    assert!(exec.current_step().is_none());
    match exec.state() {
        ExecutorState::Failed { step, error } => {
            assert_eq!(*step, 2);
            match error {
                RunError::NonZeroExitError { program, code, .. } => {
                    assert_eq!(program.as_str(), "false");
                    assert_eq!(*code, 1);
                }
                _ => panic!("expected a non-zero-exit error"),
            }
        }
        _ => panic!("expected the failed state"),
    }
}

#[test]
fn scripted_replay_completes_when_every_step_succeeds() {
    let p = pipeline(vec![
        Step::PrepareWorkspace { path: "/work".to_owned() },
        command("one", &[]),
        command("two", &[]),
    ]);
    let outcomes = vec![
        StepOutcome::WorkspaceReady,
        StepOutcome::Exited { code: 0 },
        StepOutcome::Exited { code: 0 },
    ];
    let exec = run_scripted(p, &outcomes);
    assert!(exec.is_completed());
    assert_eq!(exec.success_message(), "Build build-001 complete");
}

#[test]
fn scripted_replay_stops_at_the_first_failure() {
    let p = pipeline(vec![
        command("one", &[]),
        command("two", &["a", "b"]),
        command("three", &[]),
    ]);
    let outcomes = vec![
        StepOutcome::Exited { code: 0 },
        StepOutcome::SpawnFailed,
        StepOutcome::Exited { code: 0 },
    ];
    let exec = run_scripted(p, &outcomes);
    assert!(exec.is_failed());
    match exec.state() {
        ExecutorState::Failed { step, error } => {
            assert_eq!(*step, 1);
            match error {
                RunError::SpawnError { program, arguments } => {
                    assert_eq!(program.as_str(), "two");
                    assert_eq!(arguments, &vec!["a".to_string(), "b".to_string()]);
                }
                _ => panic!("expected a spawn error"),
            }
        }
        _ => panic!("expected the failed state"),
    }
}

#[test]
fn standard_pipeline_lists_the_build_steps_in_order() {
    let p = Pipeline::standard("/Users/username/web4-runner".to_owned(), "build-001".to_owned());
    assert_eq!(p.build_id.as_str(), "build-001");
    assert_eq!(p.workspace_root.as_str(), "/Users/username/web4-runner");
    assert_eq!(p.steps.len(), 9);
    match &p.steps[0] {
        Step::PrepareWorkspace { path } => {
            assert_eq!(path.as_str(), "/Users/username/web4-runner")
        }
        _ => panic!("expected the workspace step first"),
    }
    let scripts = [
        "tools/install-xcode.sh",
        "tools/install-homebrew.sh",
        "tools/install-node.sh",
        "configure/configure-tccdb.sh",
        "configure/configure-shell.sh",
        "tests/run-tests.sh",
        "tests/generate-report.sh",
    ];
    for (i, script) in scripts.iter().enumerate() {
        match &p.steps[i + 1] {
            Step::Command { program, arguments } => {
                assert_eq!(program.as_str(), "bash");
                assert_eq!(arguments.len(), 1);
                assert_eq!(arguments[0].as_str(), *script);
            }
            _ => panic!("expected a command step"),
        }
    }
    match &p.steps[8] {
        Step::Command { program, arguments } => {
            assert_eq!(program.as_str(), "ipfs");
            assert_eq!(
                arguments,
                &vec![
                    "add".to_string(),
                    "-r".to_string(),
                    "/Users/username/web4-runner/output".to_string()
                ]
            );
        }
        _ => panic!("expected the upload step last"),
    }
}

#[test]
fn standard_pipeline_completes_when_every_step_succeeds() {
    let p = Pipeline::standard("/srv/build".to_owned(), "release-7".to_owned());
    let mut outcomes = vec![StepOutcome::WorkspaceReady];
    for _ in 1..p.steps.len() {
        outcomes.push(StepOutcome::Exited { code: 0 });
    }
    let exec = run_scripted(p, &outcomes);
    assert!(exec.is_completed());
    assert_eq!(exec.success_message(), "Build release-7 complete");
}

#[test]
fn invocation_lines_name_the_command_and_its_arguments() {
    let step = command("ipfs", &["add", "-r", "/w/output"]);
    assert_eq!(step.invocation_line(), "Running: ipfs add -r /w/output");
    let bare = command("true", &[]);
    assert_eq!(bare.invocation_line(), "Running: true");
    let prep = Step::PrepareWorkspace { path: "/tmp/w".to_owned() };
    assert_eq!(prep.invocation_line(), "Preparing workspace: /tmp/w");
}

#[test]
fn failure_reports_name_the_command_arguments_and_code() {
    let nonzero = RunError::NonZeroExitError {
        program: "bash".to_owned(),
        arguments: vec!["tests/run-tests.sh".to_owned()],
        code: 2,
    };
    assert_eq!(
        nonzero.describe(),
        "Command failed with exit code 2: bash tests/run-tests.sh"
    );
    let negative = RunError::NonZeroExitError {
        program: "tool".to_owned(),
        arguments: vec![],
        code: -13,
    };
    assert_eq!(negative.describe(), "Command failed with exit code -13: tool");
    let spawn = RunError::SpawnError {
        program: "no-such".to_owned(),
        arguments: vec!["a".to_owned(), "b".to_owned()],
    };
    assert_eq!(spawn.describe(), "Spawn error: could not launch: no-such a b");
    let filesystem = RunError::FilesystemError { path: "/w".to_owned() };
    assert_eq!(
        filesystem.describe(),
        "Filesystem error: could not create workspace directories under /w"
    );
}

#[test]
fn large_exit_codes_render_every_digit() {
    let e = RunError::NonZeroExitError {
        program: "p".to_owned(),
        arguments: vec![],
        code: 1073741824,
    };
    assert_eq!(e.describe(), "Command failed with exit code 1073741824: p");
}
