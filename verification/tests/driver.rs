use kit::machine::{Effect, Event, PathKind, RunError, Step};
use kit::run_tests::driver::{execute, make_compiled_runtime, Driver, DriverPhase};
use kit::run_tests::types::{Config, NetworkRouter, Node, Runtime, Test, TestPackage};

const OK: &str = r#"{"body":[111,107]}"#;
const PASS: &str = r#"{"body":[34,80,97,115,115,34]}"#;

fn scenario(port: u16) -> Test {
    Test {
        setup_package_paths: vec![],
        test_packages: vec![TestPackage {
            path: "/tests/chat_test".to_string(),
            grant_capabilities: vec![],
        }],
        package_build_verbose: true,
        timeout_secs: 5,
        network_router: NetworkRouter { port: 9001, defects: String::new() },
        nodes: vec![Node {
            home: "/home/node".to_string(),
            port,
            fake_node_name: "node.os".to_string(),
            rpc: None,
            password: None,
            is_testnet: false,
            runtime_verbose: true,
        }],
    }
}

fn config(runtime: Runtime, tests: Vec<Test>) -> Config {
    Config { runtime, runtime_build_verbose: true, runtime_build_release: false, tests }
}

/// Performs every effect in memory, and fails the builds of the scenario
/// with the node at `failing_port`.
fn drive(start: (Driver, Step), failing_port: u16) -> (Vec<String>, Result<(), RunError>) {
    let (mut driver, mut step) = start;
    let mut log = Vec::new();
    let mut tester = false;
    let mut fail_build = false;
    loop {
        let effect = match step {
            Step::Finish(result) => {
                assert_eq!(driver.phase, DriverPhase::Finished);
                return (log, result);
            }
            Step::Perform(effect) => effect,
        };
        let event = match &effect {
            Effect::FetchRuntime { version } => {
                log.push(format!("fetch {}", version));
                Event::Resolved(format!("/cache/{}/kinode", version))
            }
            Effect::CompileRuntime { repository, verbose, release } => {
                log.push(format!("compile {} {} {}", repository, verbose, release));
                Event::Completed
            }
            Effect::Inspect { path } => {
                log.push(format!("inspect {}", path));
                Event::Inspected(PathKind::Directory)
            }
            Effect::Launch { runtime, port, detached, verbose, .. } => {
                log.push(format!("launch {} {} {} {}", runtime, port, detached, verbose));
                fail_build = false;
                Event::Completed
            }
            Effect::StartServices { .. } => {
                Event::Completed
            }
            Effect::Build { .. } => {
                if fail_build {
                    Event::Failed("build broke".to_string())
                } else {
                    Event::Completed
                }
            }
            Effect::PrepareHome { home, .. } => Event::Resolved(home.clone()),
            Effect::ReadFile { .. } => Event::FileRead(vec![1, 2, 3]),
            Effect::Post { url, message } => {
                tester = message.get("process").unwrap().as_str() == Some("tester:tester:sys");
                if url.starts_with(&format!("http://localhost:{}/", failing_port)) && tester {
                    Event::Answered { status: 500 }
                } else {
                    Event::Answered { status: 200 }
                }
            }
            Effect::ReadReply => {
                Event::ReplyRead(if tester { PASS.to_string() } else { OK.to_string() })
            }
            Effect::Teardown => {
                log.push("teardown".to_string());
                Event::Completed
            }
            Effect::Pause { .. } => Event::Paused,
            _ => Event::Completed,
        };
        let next = driver.step(event);
        driver = next.0;
        step = next.1;
    }
}

#[test]
fn compiled_runtime_lies_under_target() {
    assert_eq!(make_compiled_runtime("/repo", true), "/repo/target/release/kinode");
    assert_eq!(make_compiled_runtime("/repo", false), "/repo/target/debug/kinode");
    assert_eq!(make_compiled_runtime("repo/", false), "repo/target/debug/kinode");
}

#[test]
fn driver_fetches_a_published_version() {
    let plan = config(Runtime::FetchVersion("0.5.0".to_string()), vec![scenario(8080)]);
    let (driver, step) = Driver::start(plan);
    assert_eq!(driver.phase, DriverPhase::Fetching);
    assert_eq!(step, Step::Perform(Effect::FetchRuntime { version: "0.5.0".to_string() }));
    let (log, result) = drive((driver, step), 0);
    assert_eq!(result, Ok(()));
    assert_eq!(log, vec!["fetch 0.5.0", "launch /cache/0.5.0/kinode 8080 true true", "teardown"]);
}

#[test]
fn driver_compiles_a_source_checkout() {
    let plan = config(Runtime::RepoPath("/repo".to_string()), vec![scenario(8080)]);
    let (log, result) = drive(Driver::start(plan), 0);
    assert_eq!(result, Ok(()));
    assert_eq!(
        log,
        vec![
            "inspect /repo",
            "compile /repo true false",
            "launch /repo/target/debug/kinode 8080 true true",
            "teardown"
        ]
    );
}

#[test]
fn driver_takes_the_release_binary() {
    let mut plan = config(Runtime::RepoPath("/repo".to_string()), vec![scenario(8080)]);
    plan.runtime_build_release = true;
    plan.runtime_build_verbose = false;
    let (log, result) = drive(Driver::start(plan), 0);
    assert_eq!(result, Ok(()));
    assert_eq!(log[1], "compile /repo false true");
    assert_eq!(log[2], "launch /repo/target/release/kinode 8080 true true");
}

#[test]
fn driver_refuses_a_missing_checkout() {
    let plan = config(Runtime::RepoPath("/repo".to_string()), vec![scenario(8080)]);
    let (driver, _) = Driver::start(plan);
    let (driver, step) = driver.step(Event::Inspected(PathKind::Missing));
    assert_eq!(step, Step::Finish(Err(RunError::RepositoryMissing("/repo".to_string()))));
    assert_eq!(driver.phase, DriverPhase::Finished);
}

#[test]
fn driver_refuses_a_checkout_that_is_a_file() {
    let plan = config(Runtime::RepoPath("/repo".to_string()), vec![scenario(8080)]);
    let (driver, _) = Driver::start(plan);
    let (_, step) = driver.step(Event::Inspected(PathKind::File));
    assert_eq!(step, Step::Finish(Err(RunError::RepositoryNotDirectory("/repo".to_string()))));
}

#[test]
fn driver_fails_when_the_runtime_cannot_be_had() {
    let plan = config(Runtime::FetchVersion("0.5.0".to_string()), vec![scenario(8080)]);
    let (driver, _) = Driver::start(plan);
    let (_, step) = driver.step(Event::Failed("no network".to_string()));
    assert_eq!(step, Step::Finish(Err(RunError::Failed("no network".to_string()))));
    let plan = config(Runtime::RepoPath("/repo".to_string()), vec![scenario(8080)]);
    let (driver, _) = Driver::start(plan);
    let (driver, _) = driver.step(Event::Inspected(PathKind::Directory));
    assert_eq!(driver.phase, DriverPhase::Compiling);
    let (_, step) = driver.step(Event::Failed("does not compile".to_string()));
    assert_eq!(step, Step::Finish(Err(RunError::Failed("does not compile".to_string()))));
}

#[test]
fn driver_runs_the_scenarios_in_order() {
    let plan = config(
        Runtime::FetchVersion("1".to_string()),
        vec![scenario(8080), scenario(8081), scenario(8082)],
    );
    let (log, result) = drive(Driver::start(plan), 0);
    assert_eq!(result, Ok(()));
    assert_eq!(
        log,
        vec![
            "fetch 1",
            "launch /cache/1/kinode 8080 true true",
            "teardown",
            "launch /cache/1/kinode 8081 true true",
            "teardown",
            "launch /cache/1/kinode 8082 true true",
            "teardown"
        ]
    );
}

#[test]
fn driver_stops_at_the_first_scenario_that_fails() {
    let plan = config(
        Runtime::FetchVersion("1".to_string()),
        vec![scenario(8080), scenario(8081), scenario(8082)],
    );
    let (log, result) = drive(Driver::start(plan), 8081);
    assert_eq!(
        result,
        Err(RunError::RunFailed(kit::inject_message::ResponseError::Status(500)))
    );
    assert_eq!(
        log,
        vec![
            "fetch 1",
            "launch /cache/1/kinode 8080 true true",
            "teardown",
            "launch /cache/1/kinode 8081 true true",
            "teardown"
        ]
    );
}

#[test]
fn driver_without_scenarios_ends_in_success() {
    let plan = config(Runtime::FetchVersion("1".to_string()), vec![]);
    let (log, result) = drive(Driver::start(plan), 0);
    assert_eq!(result, Ok(()));
    assert_eq!(log, vec!["fetch 1"]);
}

#[test]
fn driver_that_is_over_stays_over() {
    let plan = config(Runtime::FetchVersion("1".to_string()), vec![]);
    let (driver, _) = Driver::start(plan);
    let (driver, step) = driver.step(Event::Resolved("/bin/kinode".to_string()));
    assert_eq!(step, Step::Finish(Ok(())));
    let (_, step) = driver.step(Event::Completed);
    assert_eq!(step, Step::Finish(Err(RunError::Unexpected)));
}

#[test]
fn execute_begins_with_the_runtime() {
    let plan = config(Runtime::RepoPath("/abs/repo".to_string()), vec![scenario(8080)]);
    let (driver, step) = execute(plan);
    assert_eq!(step, Step::Perform(Effect::Inspect { path: "/abs/repo".to_string() }));
    assert_eq!(driver.queue.remaining.len(), 1);
    assert_eq!(driver.queue.remaining[0], scenario(8080));
}

#[test]
fn driver_refuses_a_plan_with_shared_ports_before_any_effect() {
    let mut shared = scenario(8080);
    let mut second = scenario(8080).nodes.remove(0);
    second.home = "/home/second".to_string();
    shared.nodes.push(second);
    let plan = config(Runtime::FetchVersion("1".to_string()), vec![scenario(8081), shared]);
    let (driver, step) = Driver::start(plan);
    assert_eq!(step, Step::Finish(Err(RunError::PortsNotUnique)));
    assert_eq!(driver.phase, DriverPhase::Finished);
}
