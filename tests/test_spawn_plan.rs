use procspawn::{
    enable, plan_child, take_bootstrap_token, Builder, EnvVars, JoinState, PollBackoff,
    ProcessHandleState, RuntimeFlags, SpawnError, SpawnRefusal, StdioMode, TestSupport, ENV_NAME,
};

fn strings(items: &[&str]) -> Vec<String> {
    items.iter().map(|s| s.to_string()).collect()
}

#[test]
fn env_vars_set_remove_clear() {
    let mut vars = EnvVars::new();
    vars.set("FOO", "1");
    vars.set("BAR", "2");
    vars.set("FOO", "42");
    assert_eq!(vars.get("FOO"), Some("42".to_string()));
    assert_eq!(vars.entries.len(), 2);
    vars.remove("FOO");
    assert_eq!(vars.get("FOO"), None);
    assert_eq!(vars.get("BAR"), Some("2".to_string()));
    vars.clear();
    assert_eq!(vars.get("BAR"), None);
}

#[test]
fn child_gets_builder_environment_and_token() {
    let mut builder = Builder::new(EnvVars::new());
    builder.env("FOO", "42").env("GONE", "x").env_remove("GONE").stdout(StdioMode::Piped);
    let flags = RuntimeFlags::new();
    let plan = plan_child(builder, "/tmp/rendezvous", &flags, &TestSupport::new(), &vec![]).unwrap();
    assert_eq!(plan.env.get("FOO"), Some("42".to_string()));
    let foo: i32 = plan.env.get("FOO").unwrap().parse().unwrap();
    assert_eq!(foo + 23, 65);
    assert_eq!(plan.env.get("GONE"), None);
    assert_eq!(plan.env.get(ENV_NAME), Some("/tmp/rendezvous".to_string()));
    assert_eq!(plan.stdout, Some(StdioMode::Piped));
    assert!(plan.args.is_empty());
}

#[test]
fn child_gets_parent_arguments_when_passed() {
    let mut flags = RuntimeFlags::new();
    flags.pass_args = true;
    let parent = strings(&["prog", "--verbose", "input"]);
    let mut builder = Builder::new(EnvVars::new());
    builder.uid(1000).gid(100);
    let plan = plan_child(builder, "t", &flags, &TestSupport::new(), &parent).unwrap();
    assert_eq!(plan.args, strings(&["--verbose", "input"]));
    assert_eq!(plan.uid, Some(1000));
    assert_eq!(plan.gid, Some(100));
    flags.pass_args = false;
    let plan = plan_child(Builder::new(EnvVars::new()), "t", &flags, &TestSupport::new(), &parent)
        .unwrap();
    assert!(plan.args.is_empty());
}

#[test]
fn child_under_test_harness_runs_helper() {
    let mut support = TestSupport::new();
    let mut flags = RuntimeFlags::new();
    enable(&mut support, &mut flags, None);
    flags.pass_args = true;
    let parent = strings(&["prog", "--verbose"]);
    let plan = plan_child(Builder::new(EnvVars::new()), "t", &flags, &support, &parent).unwrap();
    assert_eq!(
        plan.args,
        strings(&["procspawn_test_helper", "--exact", "--test-threads=1", "-q"])
    );
    assert_eq!(plan.stdout, Some(StdioMode::Null));
}

#[test]
fn reserved_variable_is_refused() {
    let mut vars = EnvVars::new();
    vars.set(ENV_NAME, "stale");
    let flags = RuntimeFlags::new();
    let plan = plan_child(Builder::new(vars), "t", &flags, &TestSupport::new(), &vec![]);
    assert_eq!(plan.unwrap_err(), SpawnRefusal::ReservedVariableSet);
}

#[test]
fn nested_child_sees_only_its_own_token() {
    let mut parent = Builder::new(EnvVars::new());
    parent.env("FOO", "42");
    let flags = RuntimeFlags::new();
    let plan = plan_child(parent, "outer", &flags, &TestSupport::new(), &vec![]).unwrap();
    let mut child_env = plan.env;
    assert_eq!(take_bootstrap_token(&mut child_env), Some("outer".to_string()));
    assert_eq!(child_env.get(ENV_NAME), None);
    let nested = plan_child(Builder::new(child_env), "inner", &flags, &TestSupport::new(), &vec![])
        .unwrap();
    assert_eq!(nested.env.get(ENV_NAME), Some("inner".to_string()));
    assert_eq!(nested.env.get("FOO"), Some("42".to_string()));
    let mut plain = EnvVars::new();
    assert_eq!(take_bootstrap_token(&mut plain), None);
}

#[test]
fn process_state_reports_pid() {
    let mut state = ProcessHandleState::new(Some(4242));
    assert_eq!(state.pid(), Some(4242));
    assert!(state.needs_kill());
    state.mark_exited();
    assert!(!state.needs_kill());
    assert_eq!(ProcessHandleState::new(None).pid(), None);
}

#[test]
fn second_join_is_consumed() {
    let mut state = JoinState::new();
    assert_eq!(state.take_result::<i32>(Ok(3)).unwrap(), 3);
    let second = state.take_result::<i32>(Ok(3));
    assert!(second.unwrap_err().is_consumed());
    let third = state.take_result::<i32>(Err(SpawnError::new_timeout()));
    assert!(third.unwrap_err().is_consumed());
}

#[test]
fn poll_backoff_doubles_up_to_deadline() {
    let mut backoff = PollBackoff::new();
    assert_eq!(backoff.next_wait(100), Some(1));
    assert_eq!(backoff.next_wait(100), Some(2));
    assert_eq!(backoff.next_wait(100), Some(4));
    assert_eq!(backoff.next_wait(3), Some(3));
    assert_eq!(backoff.delay_ms, 16);
    assert_eq!(backoff.next_wait(0), None);
    let mut big = PollBackoff { delay_ms: u64::MAX };
    assert_eq!(big.next_wait(5), Some(5));
    assert_eq!(big.delay_ms, u64::MAX);
}
