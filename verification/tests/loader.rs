use kit::inject_message::ResponseError;
use kit::machine::{Effect, Event, RunError, Step};
use kit::run_tests::loader::{load_tests, make_grants, LoaderPhase, TestLoader};
use kit::run_tests::types::TestPackage;

const OK: &str = r#"{"body":[111,107]}"#;

fn package(path: &str, grants: &[&str]) -> TestPackage {
    TestPackage {
        path: path.to_string(),
        grant_capabilities: grants.iter().map(|g| g.to_string()).collect(),
    }
}

fn packages() -> Vec<TestPackage> {
    vec![
        package("/tests/chat_test", &["chat:chat:template.os", "vfs:distro:sys"]),
        package("other/echo", &[]),
    ]
}

fn answer(loader: TestLoader, content: &str) -> (TestLoader, Step) {
    let (loader, step) = loader.step(Event::Answered { status: 200 });
    assert_eq!(step, Step::Perform(Effect::ReadReply));
    loader.step(Event::ReplyRead(content.to_string()))
}

fn write_target(step: &Step) -> (String, String, Option<String>) {
    match step {
        Step::Perform(Effect::Post { url, message }) => {
            let body: serde_json::Value =
                serde_json::from_str(message.get("body").unwrap().as_str().unwrap()).unwrap();
            assert_eq!(body.get("action").unwrap().as_str(), Some("Write"));
            assert_eq!(message.get("process").unwrap().as_str(), Some("vfs:distro:sys"));
            assert_eq!(message.get("expects_response").unwrap().as_u64(), Some(15));
            (
                url.clone(),
                body.get("path").unwrap().as_str().unwrap().to_string(),
                message.get("data").unwrap().as_str().map(|s| s.to_string()),
            )
        }
        other => panic!("no post: {:?}", other),
    }
}

#[test]
fn grants_by_package_name() {
    let bytes = make_grants(&packages());
    let doc: serde_json::Value = serde_json::from_slice(&bytes).unwrap();
    let expected: serde_json::Value = serde_json::from_str(
        r#"{"chat_test":["chat:chat:template.os","vfs:distro:sys"],"echo":[]}"#,
    )
    .unwrap();
    assert_eq!(doc, expected);
}

#[test]
fn grants_of_the_later_package_count() {
    let bytes = make_grants(&vec![package("a/same", &["one"]), package("b/same", &["two"])]);
    let doc: serde_json::Value = serde_json::from_slice(&bytes).unwrap();
    let expected: serde_json::Value = serde_json::from_str(r#"{"same":["two"]}"#).unwrap();
    assert_eq!(doc, expected);
}

#[test]
fn grants_of_no_package() {
    assert_eq!(make_grants(&Vec::new()), b"{}".to_vec());
}

#[test]
fn loader_writes_each_binary_then_the_grants() {
    let (loader, step) = load_tests(packages(), 8080);
    assert_eq!(loader.phase, LoaderPhase::Writing);
    assert_eq!(
        step,
        Step::Perform(Effect::ReadFile { path: "/tests/chat_test/pkg/chat_test.wasm".to_string() })
    );
    let (loader, step) = loader.step(Event::FileRead(b"wasm one".to_vec()));
    let (url, path, data) = write_target(&step);
    assert_eq!(url, "http://localhost:8080/rpc:distro:sys/message");
    assert_eq!(path, "/tester:sys/tests/chat_test.wasm");
    assert_eq!(data.as_deref(), Some("d2FzbSBvbmU="));

    let (loader, step) = answer(loader, OK);
    assert_eq!(loader.index, 1);
    assert_eq!(
        step,
        Step::Perform(Effect::ReadFile { path: "other/echo/pkg/echo.wasm".to_string() })
    );
    let (loader, step) = loader.step(Event::FileRead(vec![]));
    let (_, path, data) = write_target(&step);
    assert_eq!(path, "/tester:sys/tests/echo.wasm");
    assert_eq!(data.as_deref(), Some(""));

    let (loader, step) = answer(loader, OK);
    assert_eq!(loader.phase, LoaderPhase::Granting);
    let (url, path, data) = write_target(&step);
    assert_eq!(url, "http://localhost:8080/rpc:distro:sys/message");
    assert_eq!(path, "/tester:sys/tests/grant_capabilities.json");
    let grants = kit::inject_message::decode_payload(&data.unwrap()).unwrap();
    assert_eq!(grants, make_grants(&packages()));

    let (loader, step) = answer(loader, OK);
    assert_eq!(step, Step::Finish(Ok(())));
    assert_eq!(loader.phase, LoaderPhase::Finished);
}

#[test]
fn loader_without_packages_writes_the_grants_only() {
    let (loader, step) = TestLoader::start(Vec::new(), 1);
    assert_eq!(loader.phase, LoaderPhase::Granting);
    let (_, path, data) = write_target(&step);
    assert_eq!(path, "/tester:sys/tests/grant_capabilities.json");
    assert_eq!(data.as_deref(), Some("e30="));
    let (_, step) = answer(loader, OK);
    assert_eq!(step, Step::Finish(Ok(())));
}

#[test]
fn loader_stops_at_the_first_write_that_fails() {
    let (loader, _) = load_tests(packages(), 8080);
    let (loader, _) = loader.step(Event::FileRead(vec![1]));
    let (loader, step) = answer(loader, "no json");
    assert_eq!(step, Step::Finish(Err(RunError::LoadTests(ResponseError::InvalidJson))));
    assert_eq!(loader.phase, LoaderPhase::Finished);
    assert_eq!(loader.index, 0);
    let (_, step) = loader.step(Event::Completed);
    assert_eq!(step, Step::Finish(Err(RunError::Unexpected)));
}

#[test]
fn loader_marks_a_bad_status() {
    let (loader, _) = load_tests(packages(), 8080);
    let (loader, _) = loader.step(Event::FileRead(vec![1]));
    let (_, step) = loader.step(Event::Answered { status: 500 });
    assert_eq!(step, Step::Finish(Err(RunError::LoadTests(ResponseError::Status(500)))));
}

#[test]
fn loader_hands_other_failures_on() {
    let (loader, _) = load_tests(packages(), 8080);
    let (_, step) = loader.step(Event::Failed("no such file".to_string()));
    assert_eq!(step, Step::Finish(Err(RunError::Failed("no such file".to_string()))));
    let (loader, _) = load_tests(packages(), 8080);
    let (loader, _) = loader.step(Event::FileRead(vec![1]));
    let (_, step) = loader.step(Event::Failed("refused".to_string()));
    assert_eq!(step, Step::Finish(Err(RunError::Failed("refused".to_string()))));
}

#[test]
fn loader_marks_a_failure_of_the_grants() {
    let (loader, _) = TestLoader::start(Vec::new(), 1);
    let (_, step) = answer(loader, r#"{"nobody":1}"#);
    assert_eq!(step, Step::Finish(Err(RunError::LoadCapabilities(ResponseError::MissingBody))));
}

#[test]
fn loader_refuses_a_package_without_a_name() {
    let (loader, step) = load_tests(vec![package("/", &[])], 8080);
    assert_eq!(step, Step::Finish(Err(RunError::NoBasename("/".to_string()))));
    assert_eq!(loader.phase, LoaderPhase::Finished);
    let (loader, _) = load_tests(vec![package("a/ok", &[]), package("..", &[])], 8080);
    let (loader, _) = loader.step(Event::FileRead(vec![1]));
    let (_, step) = answer(loader, OK);
    assert_eq!(step, Step::Finish(Err(RunError::NoBasename("..".to_string()))));
}
