use cargo_tokio_ci::{CommandSpec, ProcessBuilder, TokioCIStageBuilder};

fn args_of(cmd: &CommandSpec) -> Vec<String> {
    cmd.args().to_vec()
}

#[test]
fn mock_test_triggered_example() {
    assert_eq!(1, 1)
}

#[test]
fn cargo_test_features_full_invocation() {
    let stage = TokioCIStageBuilder::new("cargo").args(&["test", "--features", "full"]).build();
    let cmd = stage.command();
    assert_eq!(cmd.program(), "cargo");
    assert_eq!(args_of(cmd), vec!["test", "--features", "full"]);
    assert!(cmd.envs().is_empty());
    assert_eq!(cmd.cwd(), None);
}

#[test]
fn args_append_in_call_order() {
    let stage = TokioCIStageBuilder::new("cargo")
        .args(&["a", "b"])
        .current_dir("x")
        .args(&[])
        .envs(&[("K", "V")])
        .args(&["c"])
        .build();
    assert_eq!(args_of(stage.command()), vec!["a", "b", "c"]);
}

#[test]
fn args_are_kept_verbatim() {
    let stage = TokioCIStageBuilder::new("sh").args(&["-c", "echo 'a b' $HOME; exit 1"]).build();
    assert_eq!(args_of(stage.command()), vec!["-c", "echo 'a b' $HOME; exit 1"]);
}

#[test]
fn later_env_value_wins() {
    let stage = TokioCIStageBuilder::new("cargo")
        .envs(&[("A", "1"), ("B", "2")])
        .envs(&[("A", "3")])
        .build();
    let mut last = std::collections::HashMap::new();
    for (k, v) in stage.command().envs() {
        last.insert(k.clone(), v.clone());
    }
    assert_eq!(last.get("A").map(String::as_str), Some("3"));
    assert_eq!(last.get("B").map(String::as_str), Some("2"));
    assert_eq!(last.len(), 2);
}

#[test]
fn working_directory_is_replaced() {
    let stage = TokioCIStageBuilder::new("cargo").current_dir("a").current_dir("b").build();
    assert_eq!(stage.command().cwd(), Some("b"));
}

#[test]
fn process_builder_makes_plain_command() {
    let args = ["build", "--release"];
    let process = ProcessBuilder::new("cargo", &args).build();
    let cmd = process.command();
    assert_eq!(cmd.program(), "cargo");
    assert_eq!(args_of(cmd), vec!["build", "--release"]);
    assert!(cmd.envs().is_empty());
    assert_eq!(cmd.cwd(), None);
}
