use kit::inject_message::ResponseError;
use kit::machine::{Effect, Event, RunError, Step};
use kit::run_tests::scenario::{handle_test, Scenario, ScenarioPhase};
use kit::run_tests::types::{NetworkRouter, Node, Test, TestPackage};

const OK: &str = r#"{"body":[111,107]}"#;
const PASS: &str = r#"{"body":[34,80,97,115,115,34]}"#;

fn node(home: &str, port: u16) -> Node {
    Node {
        home: home.to_string(),
        port,
        fake_node_name: format!("fake{}.os", port),
        rpc: None,
        password: None,
        is_testnet: true,
        runtime_verbose: false,
    }
}

fn plan() -> Test {
    Test {
        setup_package_paths: vec!["/setup/one".to_string(), "/setup/two".to_string()],
        test_packages: vec![TestPackage {
            path: "/tests/chat_test".to_string(),
            grant_capabilities: vec!["vfs:distro:sys".to_string()],
        }],
        package_build_verbose: false,
        timeout_secs: 10,
        network_router: NetworkRouter { port: 9001, defects: "None".to_string() },
        nodes: vec![node("/home/a", 8080), node("/home/b", 8081)],
    }
}

fn port_of(url: &str) -> u16 {
    let rest = url.strip_prefix("http://localhost:").unwrap();
    let digits: String = rest.chars().take_while(|c| c.is_ascii_digit()).collect();
    digits.parse().unwrap()
}

/// A driver that performs every effect in memory. `respond` may override
/// the event that answers an effect; it is given the effect and how many
/// effects of its kind have come before.
struct Harness {
    log: Vec<String>,
    posts: Vec<(u16, String)>,
    teardowns: u32,
    last_post: u16,
}

impl Harness {
    fn new() -> Harness {
        Harness { log: Vec::new(), posts: Vec::new(), teardowns: 0, last_post: 0 }
    }

    fn default_event(&mut self, effect: &Effect) -> Event {
        match effect {
            Effect::ReadFile { .. } => Event::FileRead(b"bytes".to_vec()),
            Effect::Post { url, message } => {
                self.last_post = port_of(url);
                let process = message.get("process").unwrap().as_str().unwrap().to_string();
                self.posts.push((self.last_post, process));
                Event::Answered { status: 200 }
            }
            Effect::ReadReply => {
                let process = self.posts.last().unwrap().1.clone();
                if process == "tester:tester:sys" {
                    Event::ReplyRead(PASS.to_string())
                } else {
                    Event::ReplyRead(OK.to_string())
                }
            }
            Effect::Pause { .. } => Event::Paused,
            Effect::PrepareHome { home, .. } => Event::Resolved(format!("/canonical{}", home)),
            Effect::Teardown => {
                self.teardowns += 1;
                Event::Completed
            }
            _ => Event::Completed,
        }
    }

    fn name(effect: &Effect) -> String {
        match effect {
            Effect::ReadFile { path } => format!("read {}", path),
            Effect::Post { url, .. } => format!("post {}", port_of(url)),
            Effect::ReadReply => "reply".to_string(),
            Effect::Pause { seconds } => format!("pause {}", seconds),
            Effect::Build { package, verbose } => format!("build {} {}", package, verbose),
            Effect::StartServices { router_port, defects, detached } => {
                format!("services {} {} {}", router_port, defects, detached)
            }
            Effect::PrepareHome { home, state_dirs } => {
                format!("prepare {} {}", home, state_dirs.join(","))
            }
            Effect::Launch { home, port, router_port, arguments, .. } => {
                format!("launch {} {} {} {}", home, port, router_port, arguments.join(" "))
            }
            Effect::InstallPackage { package, url } => format!("install {} {}", package, url),
            Effect::Teardown => "teardown".to_string(),
            other => format!("{:?}", other),
        }
    }

    fn run<F>(&mut self, start: (Scenario, Step), mut respond: F) -> Result<(), RunError>
    where
        F: FnMut(&Effect, &Harness) -> Option<Event>,
    {
        let (mut scenario, mut step) = start;
        loop {
            let effect = match step {
                Step::Finish(result) => {
                    assert_eq!(scenario.phase, ScenarioPhase::Finished);
                    return result;
                }
                Step::Perform(effect) => effect,
            };
            assert_eq!(self.teardowns, 0, "an effect after the teardown: {:?}", effect);
            self.log.push(Harness::name(&effect));
            let overridden = respond(&effect, self);
            let default = self.default_event(&effect);
            let next = scenario.step(overridden.unwrap_or(default));
            scenario = next.0;
            step = next.1;
        }
    }
}

#[test]
fn scenario_runs_every_phase_in_order() {
    let mut harness = Harness::new();
    let result = harness.run(handle_test(true, "/bin/kinode", plan()), |_, _| None);
    assert_eq!(result, Ok(()));
    assert_eq!(harness.teardowns, 1);
    let expected = vec![
        "build /setup/one false",
        "build /setup/two false",
        "build /tests/chat_test false",
        "services 9001 None true",
        "prepare /home/a kernel,kv,sqlite,vfs",
        "launch /canonical/home/a 8080 9001 --fake-node-name fake8080.os --testnet",
        "prepare /home/b kernel,kv,sqlite,vfs",
        "launch /canonical/home/b 8081 9001 --fake-node-name fake8081.os --testnet",
        "post 8080",
        "reply",
        "post 8081",
        "reply",
        "install /setup/one http://localhost:8080",
        "install /setup/two http://localhost:8080",
        "install /setup/one http://localhost:8081",
        "install /setup/two http://localhost:8081",
        "read /tests/chat_test/pkg/chat_test.wasm",
        "post 8080",
        "reply",
        "post 8080",
        "reply",
        "post 8081",
        "post 8080",
        "reply",
        "teardown",
    ];
    assert_eq!(harness.log, expected);
}

#[test]
fn scenario_fails_when_the_second_node_never_boots() {
    let mut harness = Harness::new();
    let mut probes_a = 0;
    let mut probes_b = 0;
    let result = harness.run(handle_test(true, "/bin/kinode", plan()), |effect, _| match effect {
        Effect::Post { url, .. } if port_of(url) == 8080 => {
            probes_a += 1;
            if probes_a < 2 {
                Some(Event::Failed("refused".to_string()))
            } else {
                None
            }
        }
        Effect::Post { url, .. } if port_of(url) == 8081 => {
            probes_b += 1;
            Some(Event::Failed("refused".to_string()))
        }
        _ => None,
    });
    assert_eq!(result, Err(RunError::CouldNotConnect(8081)));
    assert_eq!(probes_a, 2);
    assert_eq!(probes_b, 5);
    assert_eq!(harness.teardowns, 1);
    assert_eq!(harness.log.last().unwrap(), "teardown");
    assert!(harness.log.iter().any(|e| e.starts_with("launch /canonical/home/a")));
    assert!(!harness.log.iter().any(|e| e.starts_with("install")));
    assert_eq!(harness.log.iter().filter(|e| e.starts_with("pause")).count(), 6);
}

#[test]
fn scenario_does_not_probe_later_nodes_after_a_failure() {
    let mut harness = Harness::new();
    let result = harness.run(handle_test(false, "/bin/kinode", plan()), |effect, _| match effect {
        Effect::Post { .. } => Some(Event::Failed("refused".to_string())),
        _ => None,
    });
    assert_eq!(result, Err(RunError::CouldNotConnect(8080)));
    assert_eq!(harness.log.iter().filter(|e| *e == "post 8080").count(), 5);
    assert!(!harness.log.iter().any(|e| e == "post 8081"));
    assert_eq!(harness.teardowns, 1);
}

#[test]
fn scenario_tears_down_once_after_a_failure_in_any_phase() {
    let failing: Vec<(&str, RunError)> = vec![
        ("build /setup/two", RunError::Failed("broken".to_string())),
        ("build /tests/chat_test", RunError::Failed("broken".to_string())),
        ("services", RunError::Failed("broken".to_string())),
        ("prepare /home/b", RunError::Failed("broken".to_string())),
        ("launch /canonical/home/a", RunError::Failed("broken".to_string())),
        ("install /setup/two http://localhost:8081", RunError::Failed("broken".to_string())),
        ("read /tests/chat_test", RunError::Failed("broken".to_string())),
    ];
    for (prefix, expected) in failing {
        let mut harness = Harness::new();
        let result = harness.run(handle_test(true, "/bin/kinode", plan()), |effect, _| {
            if Harness::name(effect).starts_with(prefix) {
                Some(Event::Failed("broken".to_string()))
            } else {
                None
            }
        });
        assert_eq!(result, Err(expected), "{}", prefix);
        assert_eq!(harness.teardowns, 1, "{}", prefix);
        assert_eq!(harness.log.last().unwrap(), "teardown", "{}", prefix);
        let failed_at = harness.log.len() - 2;
        assert!(harness.log[failed_at].starts_with(prefix), "{}", prefix);
    }
}

#[test]
fn scenario_tears_down_once_after_a_test_failure() {
    let mut harness = Harness::new();
    let verdict = r#"{"Fail":{"test":"chat_test","file":"lib.rs","line":1,"column":2}}"#;
    let bytes: Vec<String> = verdict.bytes().map(|b| b.to_string()).collect();
    let content = format!("{{\"body\":[{}]}}", bytes.join(","));
    let result = harness.run(handle_test(true, "/bin/kinode", plan()), |effect, seen| {
        match (effect, seen.posts.last()) {
            (Effect::ReadReply, Some((_, process))) if process == "tester:tester:sys" => {
                Some(Event::ReplyRead(content.clone()))
            }
            _ => None,
        }
    });
    assert_eq!(
        result,
        Err(RunError::TestFailed {
            test: "chat_test".to_string(),
            file: "lib.rs".to_string(),
            line: 1,
            column: 2,
        })
    );
    assert_eq!(harness.teardowns, 1);
}

#[test]
fn scenario_tears_down_once_after_a_loading_failure() {
    let mut harness = Harness::new();
    let mut vfs_answers = 0;
    let result = harness.run(handle_test(true, "/bin/kinode", plan()), |effect, seen| {
        match (effect, seen.posts.last()) {
            (Effect::ReadReply, Some((_, process))) if process == "vfs:distro:sys" => {
                vfs_answers += 1;
                if vfs_answers == 3 {
                    Some(Event::ReplyRead("{}".to_string()))
                } else {
                    None
                }
            }
            _ => None,
        }
    });
    assert_eq!(result, Err(RunError::LoadTests(ResponseError::MissingBody)));
    assert_eq!(harness.teardowns, 1);
}

#[test]
fn scenario_tears_down_once_after_cancellation() {
    let mut harness = Harness::new();
    let result = harness.run(handle_test(true, "/bin/kinode", plan()), |effect, _| match effect {
        Effect::Post { .. } => Some(Event::Failed("refused".to_string())),
        Effect::Pause { .. } => Some(Event::Cancelled),
        _ => None,
    });
    assert_eq!(result, Err(RunError::Cancelled));
    assert_eq!(harness.teardowns, 1);
    assert_eq!(harness.log.iter().filter(|e| e.starts_with("post")).count(), 1);
}

#[test]
fn scenario_keeps_its_result_when_the_teardown_fails() {
    let mut harness = Harness::new();
    let result = harness.run(handle_test(true, "/bin/kinode", plan()), |effect, _| match effect {
        Effect::Teardown => Some(Event::Failed("teardown broke".to_string())),
        _ => None,
    });
    assert_eq!(result, Ok(()));
    let mut harness = Harness::new();
    let result = harness.run(handle_test(true, "/bin/kinode", plan()), |effect, _| match effect {
        Effect::Build { .. } => Some(Event::Failed("build broke".to_string())),
        Effect::Teardown => Some(Event::Failed("teardown broke".to_string())),
        _ => None,
    });
    assert_eq!(result, Err(RunError::Failed("build broke".to_string())));
    assert_eq!(harness.log, vec!["build /setup/one false", "teardown"]);
}

#[test]
fn scenario_without_nodes_fails_and_tears_down() {
    let mut empty = plan();
    empty.nodes.clear();
    let mut harness = Harness::new();
    let result = harness.run(handle_test(true, "/bin/kinode", empty), |_, _| None);
    assert_eq!(result, Err(RunError::NoNodes));
    assert_eq!(harness.teardowns, 1);
}

#[test]
fn scenario_without_setup_packages_installs_nothing() {
    let mut bare = plan();
    bare.setup_package_paths.clear();
    let mut harness = Harness::new();
    let result = harness.run(handle_test(true, "/bin/kinode", bare), |_, _| None);
    assert_eq!(result, Ok(()));
    assert!(!harness.log.iter().any(|e| e.starts_with("install")));
    assert_eq!(harness.teardowns, 1);
}

#[test]
fn scenario_with_a_nameless_node_fails_before_the_run() {
    let mut odd = plan();
    odd.nodes[1].home = "/".to_string();
    let mut harness = Harness::new();
    let result = harness.run(handle_test(true, "/bin/kinode", odd), |_, _| None);
    assert_eq!(result, Err(RunError::NoBasename("/".to_string())));
    assert!(!harness.posts.iter().any(|(_, process)| process == "tester:tester:sys"));
    assert_eq!(harness.teardowns, 1);
}

#[test]
fn scenario_refuses_events_out_of_place_and_tears_down() {
    let mut harness = Harness::new();
    let result = harness.run(handle_test(true, "/bin/kinode", plan()), |effect, _| match effect {
        Effect::StartServices { .. } => Some(Event::Paused),
        _ => None,
    });
    assert_eq!(result, Err(RunError::Unexpected));
    assert_eq!(harness.teardowns, 1);
}

#[test]
fn scenario_that_is_over_stays_over() {
    let (scenario, _) = handle_test(true, "/bin/kinode", plan());
    let (scenario, step) = scenario.step(Event::Failed("broken".to_string()));
    assert_eq!(step, Step::Perform(Effect::Teardown));
    let (scenario, step) = scenario.step(Event::Completed);
    assert_eq!(step, Step::Finish(Err(RunError::Failed("broken".to_string()))));
    let (scenario, step) = scenario.step(Event::Completed);
    assert_eq!(step, Step::Finish(Err(RunError::Unexpected)));
    assert_eq!(scenario.phase, ScenarioPhase::Finished);
}
