use cargo_tokio_ci::{
    run, step_names, Action, CargoTokio, CiError, CommandSpec, StageOutcome, Target, TokioCIStep, ToolChain,
    FMT_CHECK,
};

fn args_of(cmd: &CommandSpec) -> Vec<String> {
    cmd.args().to_vec()
}

#[test]
fn every_named_step_exists() {
    let names = ["test", "test-unstable", "miri", "san", "cross", "features", "minrust", "fmt", "clippy", "docs", "loom"];
    for name in names {
        assert!(TokioCIStep::named(name).is_some(), "{}", name);
    }
    assert_eq!(step_names(), names.to_vec());
    assert!(TokioCIStep::named("tests").is_none());
    assert!(TokioCIStep::named("").is_none());
}

#[test]
fn test_step_has_five_stable_stages() {
    let step = TokioCIStep::test_tokio_full();
    assert_eq!(step.len(), 5);
    assert_eq!(step.toolchain(), ToolChain::Stable);
    let exec = step.start();
    let first = exec.command(0);
    assert_eq!(first.program(), "cargo");
    assert_eq!(args_of(first), vec!["test", "--features", "full"]);
    assert_eq!(first.cwd(), Some("tokio"));
    assert_eq!(args_of(exec.command(1)), vec!["test", "--features", "full,parking_lot"]);
    assert_eq!(exec.command(3).cwd(), Some("tests-integration"));
}

#[test]
fn san_step_sets_sanitizer_flags() {
    let step = TokioCIStep::san();
    assert_eq!(step.toolchain(), ToolChain::Nightly);
    let exec = step.start();
    let cmd = exec.command(0);
    assert_eq!(
        args_of(cmd),
        vec!["test", "--all-features", "--target", "x86_64-unknown-linux-gnu", "--lib", "--", "--test-threads", "1"]
    );
    let envs: Vec<(String, String)> = cmd.envs().to_vec();
    assert_eq!(
        envs,
        vec![
            ("RUSTFLAGS".to_string(), "-Z sanitizer=address".to_string()),
            ("ASAN_OPTIONS".to_string(), "detect_leaks=0".to_string()),
            ("RUSTUP_TOOLCHAIN".to_string(), "nightly".to_string()),
        ]
    );
}

#[test]
fn cross_step_covers_each_target() {
    let exec = TokioCIStep::cross().start();
    let triples = ["i686-unknown-linux-gnu", "powerpc-unknown-linux-gnu", "powerpc64-unknown-linux-gnu", "mips-unknown-linux-gnu", "arm-linux-androideabi"];
    for (i, t) in triples.iter().enumerate() {
        assert_eq!(args_of(exec.command(i)), vec!["check", "--workspace", "--target", t]);
    }
    assert_eq!(exec.next_action(), Action::Launch(0));
}

#[test]
fn loom_step_runs_each_group() {
    let step = TokioCIStep::loom();
    assert_eq!(step.len(), 5);
    let exec = step.start();
    let args = args_of(exec.command(2));
    assert_eq!(args.last().map(String::as_str), Some("loom_pool::group_b"));
    assert_eq!(exec.command(2).cwd(), Some("tokio"));
}

#[test]
fn fmt_step_installs_then_checks() {
    let exec = TokioCIStep::fmt().start();
    assert_eq!(exec.command(0).program(), "sh");
    assert_eq!(args_of(exec.command(0)), vec!["-c", "rustup component add rustfmt"]);
    assert_eq!(args_of(exec.command(1)), vec!["-c", FMT_CHECK]);
    assert!(exec.command(0).envs().is_empty());
    assert!(exec.command(1).envs().is_empty());
    assert!(FMT_CHECK.starts_with("if ! rustfmt --check --edition 2018"));
}

#[test]
fn target_triples() {
    assert_eq!(Target::x86_64_unknown_linux_gnu.triple(), "x86_64-unknown-linux-gnu");
    assert_eq!(Target::arm_linux_androideabi.triple(), "arm-linux-androideabi");
}

#[test]
fn command_line_selects_step() {
    let cli = CargoTokio::Tokio { step: Some("docs".to_string()) };
    assert_eq!(cli.step(), Some("docs"));
    let exec = run(&cli).ok().expect("docs is a step");
    assert_eq!(args_of(exec.command(0)), vec!["doc", "--lib", "--no-deps", "--all-features"]);
}

#[test]
fn unknown_or_missing_step_is_invalid() {
    let unknown = CargoTokio::Tokio { step: Some("deploy".to_string()) };
    assert!(matches!(run(&unknown), Err(CiError::InvalidSelection)));
    let missing = CargoTokio::Tokio { step: None };
    assert_eq!(missing.step(), None);
    assert!(matches!(run(&missing), Err(CiError::InvalidSelection)));
}

#[test]
fn install_commands_carry_no_override() {
    let exec = TokioCIStep::features().start();
    assert_eq!(args_of(exec.command(0)), vec!["-c", "cargo install cargo-hack"]);
    assert!(exec.command(0).envs().is_empty());
    let stage_envs: Vec<(String, String)> = exec.command(1).envs().to_vec();
    assert_eq!(stage_envs.last(), Some(&("RUSTUP_TOOLCHAIN".to_string(), "nightly".to_string())));

    let exec = TokioCIStep::clippy().start();
    assert_eq!(args_of(exec.command(0)), vec!["-c", "rustup component add clippy"]);
    assert!(exec.command(0).envs().is_empty());
    assert_eq!(args_of(exec.command(1)), vec!["clippy", "--all", "--tests"]);
}

#[test]
fn failing_install_stops_the_step() {
    let mut exec = TokioCIStep::features().start();
    assert_eq!(exec.next_action(), Action::Launch(0));
    exec.record(StageOutcome::SpawnFailed);
    assert_eq!(
        exec.next_action(),
        Action::Finish(Err(CiError::SetupFailed { command: 0, outcome: StageOutcome::SpawnFailed }))
    );
}

#[test]
fn stage_index_counts_after_setup() {
    let mut exec = TokioCIStep::clippy().start();
    exec.record(StageOutcome::Succeeded);
    assert_eq!(exec.next_action(), Action::Launch(1));
    exec.record(StageOutcome::from_exit(false, Some(101), None));
    assert!(matches!(exec.next_action(), Action::Finish(Err(CiError::StageFailed { stage: 0, .. }))));
}
