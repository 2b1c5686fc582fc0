use rust_webservice::{build_plan, command_outcome, rerun_directive, BuildError};

#[test]
fn missing_project_root_fails_the_build() {
    assert!(matches!(build_plan(None), Err(BuildError::MissingProjectRoot)));
}

#[test]
fn plan_runs_npm_build_in_client_dir() {
    let plan = build_plan(Some("/work/project")).unwrap();
    assert_eq!(plan.working_dir, "/work/project/client");
    assert_eq!(plan.program, "npm");
    assert_eq!(plan.args, vec!["run".to_string(), "build".to_string()]);
    assert_eq!(plan.watched, vec!["client/src/".to_string(), "client/static/".to_string()]);
}

#[test]
fn every_invocation_plans_the_build_again() {
    let first = build_plan(Some("/p")).unwrap();
    let second = build_plan(Some("/p")).unwrap();
    assert_eq!(first.program, second.program);
    assert_eq!(first.args, second.args);
    assert_eq!(first.working_dir, second.working_dir);
    assert_eq!(second.args, vec!["run".to_string(), "build".to_string()]);
}

#[test]
fn rerun_directive_names_the_path() {
    assert_eq!(rerun_directive("client/src/"), "cargo::rerun-if-changed=client/src/");
    assert_eq!(rerun_directive(""), "cargo::rerun-if-changed=");
}

#[test]
fn spawn_failure_fails_the_build() {
    assert_eq!(command_outcome(false), Err(BuildError::SpawnFailed));
    assert_eq!(command_outcome(true), Ok(()));
}
