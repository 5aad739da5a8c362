use web_launcher::launch::{plan_launch, server_dir};
use web_launcher::message::{decimal_text, failed_line, started_line, starting_line, LogLevel};
use web_launcher::mode::{log_filter, stream_policy, DeploymentMode, StreamPolicy};
use web_launcher::path::join_relative;
use web_launcher::setup::{Action, Event, Phase, Setup};

fn to_spawn(setup: &mut Setup, dir: &str) -> Vec<String> {
    let mut lines = Vec::new();
    let d = setup.step(Event::Begin);
    assert!(d.logs.is_empty());
    if setup.mode == DeploymentMode::Debug {
        assert!(matches!(d.action, Action::AttachLogging(LogLevel::Info)));
        let d = setup.step(Event::LoggingAttached);
        assert!(d.logs.is_empty());
        assert!(matches!(d.action, Action::ResolveWorkingDir));
    } else {
        assert!(matches!(d.action, Action::ResolveWorkingDir));
    }
    let d = setup.step(Event::WorkingDir(dir.to_string()));
    for l in &d.logs {
        lines.push(l.text.clone());
    }
    assert!(matches!(d.action, Action::Spawn(_)));
    assert_eq!(setup.phase, Phase::Spawning);
    lines
}

#[test]
fn scenario_app_directory() {
    let mut setup = Setup::new(DeploymentMode::Debug);
    let lines = to_spawn(&mut setup, "/app");
    assert_eq!(lines, vec!["Starting web server in: \"/app/web\"".to_string()]);
    let d = setup.step(Event::Spawned(4242));
    assert_eq!(d.logs.len(), 1);
    assert_eq!(d.logs[0].level, LogLevel::Info);
    assert_eq!(d.logs[0].text, "Web server started with PID: 4242");
    assert!(matches!(d.action, Action::Proceed));
    assert_eq!(setup.phase, Phase::Ready);
}

#[test]
fn plan_for_app_directory() {
    let plan = plan_launch("/app", DeploymentMode::Debug);
    assert_eq!(plan.program, "node");
    assert_eq!(plan.args, vec!["server.js".to_string()]);
    assert_eq!(plan.dir, "/app/web");
    assert_eq!(plan.streams, StreamPolicy::Inherit);
}

#[test]
fn release_plan_discards_output() {
    let plan = plan_launch("/srv/site", DeploymentMode::Release);
    assert_eq!(plan.dir, "/srv/site/web");
    assert_eq!(plan.streams, StreamPolicy::Discard);
    assert_eq!(stream_policy(DeploymentMode::Debug), StreamPolicy::Inherit);
    assert_eq!(stream_policy(DeploymentMode::Release), StreamPolicy::Discard);
}

#[test]
fn spawn_in_release_mode_skips_logging_attach() {
    let mut setup = Setup::new(DeploymentMode::Release);
    let lines = to_spawn(&mut setup, "/opt/shell");
    assert_eq!(lines, vec!["Starting web server in: \"/opt/shell/web\"".to_string()]);
    let d = setup.step(Event::Spawned(1));
    assert_eq!(d.logs[0].text, "Web server started with PID: 1");
    assert!(matches!(d.action, Action::Proceed));
}

#[test]
fn missing_runtime_logs_error_and_fails() {
    let mut setup = Setup::new(DeploymentMode::Debug);
    to_spawn(&mut setup, "/app");
    let err = "No such file or directory (os error 2)";
    let d = setup.step(Event::SpawnFailed(err.to_string()));
    assert_eq!(d.logs.len(), 1);
    assert_eq!(d.logs[0].level, LogLevel::Error);
    assert_eq!(d.logs[0].text, "Failed to start web server: No such file or directory (os error 2)");
    match d.action {
        Action::Abort(reason) => assert_eq!(reason, err),
        _ => panic!("expected the start-up to abort"),
    }
    assert_eq!(setup.phase, Phase::Failed);
}

#[test]
fn unresolved_working_dir_fails_before_spawn() {
    let mut setup = Setup::new(DeploymentMode::Release);
    let d = setup.step(Event::Begin);
    assert!(matches!(d.action, Action::ResolveWorkingDir));
    let d = setup.step(Event::WorkingDirFailed("No such file or directory (os error 2)".to_string()));
    assert!(d.logs.is_empty());
    assert!(matches!(d.action, Action::Abort(_)));
    assert_eq!(setup.phase, Phase::Failed);
    let d = setup.step(Event::WorkingDir("/app".to_string()));
    assert!(d.logs.is_empty());
    assert!(matches!(d.action, Action::Nothing));
    assert_eq!(setup.phase, Phase::Failed);
}

#[test]
fn logging_attach_failure_aborts() {
    let mut setup = Setup::new(DeploymentMode::Debug);
    setup.step(Event::Begin);
    let d = setup.step(Event::LoggingFailed("plugin already registered".to_string()));
    match d.action {
        Action::Abort(reason) => assert_eq!(reason, "plugin already registered"),
        _ => panic!("expected the start-up to abort"),
    }
    assert_eq!(setup.phase, Phase::Failed);
}

#[test]
fn launching_twice_spawns_twice() {
    let mut first = Setup::new(DeploymentMode::Debug);
    let mut second = Setup::new(DeploymentMode::Debug);
    let a = to_spawn(&mut first, "/app");
    let b = to_spawn(&mut second, "/app");
    assert_eq!(a, b);
    assert!(matches!(first.step(Event::Spawned(10)).action, Action::Proceed));
    assert!(matches!(second.step(Event::Spawned(11)).action, Action::Proceed));
}

#[test]
fn event_out_of_turn_changes_nothing() {
    let mut setup = Setup::new(DeploymentMode::Debug);
    let d = setup.step(Event::Spawned(5));
    assert!(d.logs.is_empty());
    assert!(matches!(d.action, Action::Nothing));
    assert_eq!(setup.phase, Phase::Idle);
}

#[test]
fn shown_directory_is_quoted_and_escaped() {
    let mut setup = Setup::new(DeploymentMode::Release);
    let lines = to_spawn(&mut setup, "/home/a\"b");
    assert_eq!(lines, vec!["Starting web server in: \"/home/a\\\"b/web\"".to_string()]);
}

#[test]
fn join_edge_cases() {
    assert_eq!(join_relative("/app", "web"), "/app/web");
    assert_eq!(join_relative("/app/", "web"), "/app/web");
    assert_eq!(join_relative("/", "web"), "/web");
    assert_eq!(join_relative("", "web"), "web");
    assert_eq!(join_relative("/app", ""), "/app/");
    assert_eq!(server_dir("/"), "/web");
    assert_eq!(server_dir("/données"), "/données/web");
}

#[test]
fn decimal_text_values() {
    assert_eq!(decimal_text(0), "0");
    assert_eq!(decimal_text(7), "7");
    assert_eq!(decimal_text(10), "10");
    assert_eq!(decimal_text(4242), "4242");
    assert_eq!(decimal_text(u32::MAX), "4294967295");
}

#[test]
fn log_line_texts() {
    assert_eq!(starting_line("\"/x\"").text, "Starting web server in: \"/x\"");
    assert_eq!(starting_line("\"/x\"").level, LogLevel::Info);
    assert_eq!(started_line(u32::MAX).text, "Web server started with PID: 4294967295");
    assert_eq!(failed_line("Permission denied (os error 13)").text, "Failed to start web server: Permission denied (os error 13)");
    assert_eq!(failed_line("x").level, LogLevel::Error);
}

#[test]
fn log_filter_by_mode() {
    assert_eq!(log_filter(DeploymentMode::Debug), Some(LogLevel::Info));
    assert_eq!(log_filter(DeploymentMode::Release), None);
}
