use cargo_tokio_ci::{
    Action, CiError, CommandSpec, Execution, StageOutcome, Termination, TokioCIStage, TokioCIStageBuilder,
    TokioCIStep, ToolChain, TOOLCHAIN_VAR,
};

/// Stands in for the process primitive: `false` fails with code 1, a
/// program called `missing` cannot be started, anything else succeeds.
fn fake_run(cmd: &CommandSpec) -> StageOutcome {
    match cmd.program() {
        "false" => StageOutcome::from_exit(false, Some(1), None),
        "missing" => StageOutcome::SpawnFailed,
        _ => StageOutcome::from_exit(true, Some(0), None),
    }
}

/// Drives a run to its end and returns the launched commands' first
/// arguments (or programs) in order, with the result.
fn drive(mut exec: Execution) -> (Vec<String>, Result<(), CiError>) {
    let mut log = Vec::new();
    loop {
        match exec.next_action() {
            Action::Launch(i) => {
                let cmd = exec.command(i);
                let label = match cmd.args().first() {
                    Some(a) => a.clone(),
                    None => cmd.program().to_string(),
                };
                log.push(label);
                let outcome = fake_run(cmd);
                exec.record(outcome);
            }
            Action::Finish(r) => return (log, r),
        }
    }
}

fn stage(program: &str, args: &[&str]) -> TokioCIStage {
    TokioCIStageBuilder::new(program).args(args).build()
}

fn env_value(cmd: &CommandSpec, name: &str) -> Option<String> {
    let mut found = None;
    for (k, v) in cmd.envs() {
        if k == name {
            found = Some(v.clone());
        }
    }
    found
}

#[test]
fn failure_at_middle_stage_skips_the_rest() {
    let stages = vec![stage("echo", &["A"]), stage("false", &[]), stage("echo", &["B"])];
    let (log, result) = drive(TokioCIStep::new(stages, ToolChain::Stable).start());
    assert_eq!(log, vec!["A".to_string(), "false".to_string()]);
    assert_eq!(result, Err(CiError::StageFailed { stage: 1, status: Termination::Code(1) }));
}

#[test]
fn all_stages_succeed_in_order() {
    let stages = vec![stage("echo", &["A"]), stage("echo", &["B"]), stage("echo", &["C"])];
    let (log, result) = drive(TokioCIStep::new(stages, ToolChain::Nightly).start());
    assert_eq!(log, vec!["A".to_string(), "B".to_string(), "C".to_string()]);
    assert_eq!(result, Ok(()));
}

#[test]
fn empty_pipeline_succeeds_without_launching() {
    let exec = TokioCIStep::new(Vec::new(), ToolChain::Stable).start();
    assert_eq!(exec.next_action(), Action::Finish(Ok(())));
    let (log, result) = drive(exec);
    assert!(log.is_empty());
    assert_eq!(result, Ok(()));
}

#[test]
fn spawn_failure_stops_the_run() {
    let stages = vec![stage("echo", &["A"]), stage("missing", &[]), stage("echo", &["B"])];
    let (log, result) = drive(TokioCIStep::new(stages, ToolChain::Stable).start());
    assert_eq!(log.len(), 2);
    assert_eq!(result, Err(CiError::SpawnFailed { stage: 1 }));
}

#[test]
fn finished_run_stays_finished() {
    let mut exec = TokioCIStep::new(vec![stage("false", &[]), stage("echo", &["B"])], ToolChain::Stable).start();
    assert_eq!(exec.next_action(), Action::Launch(0));
    exec.record(StageOutcome::Failed(Termination::Signal(9)));
    let expected = Action::Finish(Err(CiError::StageFailed { stage: 0, status: Termination::Signal(9) }));
    assert_eq!(exec.next_action(), expected);
    assert_eq!(exec.next_action(), expected);
}

#[test]
fn toolchain_reaches_every_stage() {
    let with_flags = TokioCIStageBuilder::new("cargo").envs(&[("RUSTFLAGS", "-Dwarnings")]).build();
    let stages = vec![with_flags, stage("cargo", &["check"])];
    let exec = TokioCIStep::new(stages, ToolChain::Nightly).start();
    for i in 0..2 {
        assert_eq!(env_value(exec.command(i), TOOLCHAIN_VAR), Some("nightly".to_string()));
    }
    assert_eq!(env_value(exec.command(0), "RUSTFLAGS"), Some("-Dwarnings".to_string()));
    assert_eq!(env_value(exec.command(1), "RUSTFLAGS"), None);
}

#[test]
fn toolchain_names() {
    assert_eq!(ToolChain::Stable.name(), "stable");
    assert_eq!(ToolChain::Nightly.name(), "nightly");
    assert_eq!(TOOLCHAIN_VAR, "RUSTUP_TOOLCHAIN");
}

#[test]
fn exit_status_classification() {
    assert_eq!(StageOutcome::from_exit(true, Some(0), None), StageOutcome::Succeeded);
    assert_eq!(StageOutcome::from_exit(false, Some(101), None), StageOutcome::Failed(Termination::Code(101)));
    assert_eq!(StageOutcome::from_exit(false, None, Some(11)), StageOutcome::Failed(Termination::Signal(11)));
    assert_eq!(StageOutcome::from_exit(false, None, None), StageOutcome::Failed(Termination::Unknown));
}
