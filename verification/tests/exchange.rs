use kit::inject_message::{
    execute, Exchange, ExchangePhase, ExchangeStep, MessageError, Request, Response,
    ResponseError,
};
use kit::machine::{Effect, Event, RunError};

fn request() -> Request {
    Request {
        url: "http://localhost:8080".to_string(),
        process: "vfs:distro:sys".to_string(),
        expects_response: Some(15),
        body: "body".to_string(),
        node: None,
    }
}

fn posted(step: &ExchangeStep) -> (String, serde_json::Value) {
    match step {
        ExchangeStep::Perform(Effect::Post { url, message }) => (url.clone(), message.clone()),
        other => panic!("no post: {:?}", other),
    }
}

#[test]
fn exchange_without_payload_posts_at_once() {
    let (exchange, step) = Exchange::start(request(), None, None, true);
    assert_eq!(exchange.phase, ExchangePhase::Posting);
    let (url, message) = posted(&step);
    assert_eq!(url, "http://localhost:8080/rpc:distro:sys/message");
    assert!(message.get("data").unwrap().is_null());
    assert_eq!(message.get("body").unwrap().as_str(), Some("body"));
    assert_eq!(message.get("process").unwrap().as_str(), Some("vfs:distro:sys"));
    assert_eq!(message.get("expects_response").unwrap().as_u64(), Some(15));
}

#[test]
fn exchange_with_inline_payload_posts_it() {
    let (_, step) = Exchange::start(request(), Some(b"hello".to_vec()), None, true);
    let (_, message) = posted(&step);
    assert_eq!(message.get("data").unwrap().as_str(), Some("aGVsbG8="));
}

#[test]
fn exchange_with_both_payloads_fails_before_any_effect() {
    let (exchange, step) =
        Exchange::start(request(), Some(vec![1]), Some("file".to_string()), true);
    assert_eq!(exchange.phase, ExchangePhase::Finished);
    assert_eq!(
        step,
        ExchangeStep::Finish(Err(RunError::Message(MessageError::PayloadConflict)))
    );
}

#[test]
fn exchange_with_file_reads_it_first() {
    let (exchange, step) = Exchange::start(request(), None, Some("a/b.wasm".to_string()), true);
    assert_eq!(exchange.phase, ExchangePhase::ReadingFile);
    assert_eq!(step, ExchangeStep::Perform(Effect::ReadFile { path: "a/b.wasm".to_string() }));
    let (exchange, step) = exchange.step(Event::FileRead(vec![0, 255, 16]));
    assert_eq!(exchange.phase, ExchangePhase::Posting);
    let (_, message) = posted(&step);
    assert_eq!(message.get("data").unwrap().as_str(), Some("AP8Q"));
}

#[test]
fn exchange_file_that_cannot_be_read_fails() {
    let (exchange, _) = Exchange::start(request(), None, Some("missing".to_string()), true);
    let (exchange, step) = exchange.step(Event::Failed("no such file".to_string()));
    assert_eq!(exchange.phase, ExchangePhase::Finished);
    assert_eq!(step, ExchangeStep::Finish(Err(RunError::Failed("no such file".to_string()))));
}

#[test]
fn exchange_decodes_the_answer() {
    let (exchange, _) = Exchange::start(request(), None, None, true);
    let (exchange, step) = exchange.step(Event::Answered { status: 200 });
    assert_eq!(exchange.phase, ExchangePhase::ReadingReply);
    assert_eq!(step, ExchangeStep::Perform(Effect::ReadReply));
    let (exchange, step) = exchange.step(Event::ReplyRead(r#"{"body":[111,107]}"#.to_string()));
    assert_eq!(exchange.phase, ExchangePhase::Finished);
    assert_eq!(
        step,
        ExchangeStep::Finish(Ok(Some(Response {
            body: "ok".to_string(),
            lazy_load_blob_utf8: None,
            lazy_load_blob: None,
        })))
    );
}

#[test]
fn exchange_does_not_read_the_answer_of_a_bad_status() {
    let (exchange, _) = Exchange::start(request(), None, None, true);
    let (exchange, step) = exchange.step(Event::Answered { status: 503 });
    assert_eq!(exchange.phase, ExchangePhase::Finished);
    assert_eq!(
        step,
        ExchangeStep::Finish(Err(RunError::Response(ResponseError::Status(503))))
    );
}

#[test]
fn exchange_without_decoding_checks_the_status_only() {
    let (exchange, _) = Exchange::start(request(), None, None, false);
    let (_, step) = exchange.step(Event::Answered { status: 200 });
    assert_eq!(step, ExchangeStep::Finish(Ok(None)));
    let (exchange, _) = Exchange::start(request(), None, None, false);
    let (_, step) = exchange.step(Event::Answered { status: 404 });
    assert_eq!(
        step,
        ExchangeStep::Finish(Err(RunError::Response(ResponseError::Status(404))))
    );
}

#[test]
fn exchange_answer_that_cannot_be_decoded_fails() {
    let (exchange, _) = Exchange::start(request(), None, None, true);
    let (exchange, _) = exchange.step(Event::Answered { status: 200 });
    let (_, step) = exchange.step(Event::ReplyRead("<html>".to_string()));
    assert_eq!(
        step,
        ExchangeStep::Finish(Err(RunError::Response(ResponseError::InvalidJson)))
    );
}

#[test]
fn exchange_transport_failure_fails() {
    let (exchange, _) = Exchange::start(request(), None, None, true);
    let (_, step) = exchange.step(Event::Failed("connection refused".to_string()));
    assert_eq!(
        step,
        ExchangeStep::Finish(Err(RunError::Failed("connection refused".to_string())))
    );
    let (exchange, _) = Exchange::start(request(), None, None, true);
    let (exchange, _) = exchange.step(Event::Answered { status: 200 });
    let (_, step) = exchange.step(Event::Failed("reset".to_string()));
    assert_eq!(step, ExchangeStep::Finish(Err(RunError::Failed("reset".to_string()))));
}

#[test]
fn exchange_refuses_events_out_of_place() {
    let (exchange, _) = Exchange::start(request(), None, None, true);
    let (exchange, step) = exchange.step(Event::Paused);
    assert_eq!(step, ExchangeStep::Finish(Err(RunError::Unexpected)));
    let (_, step) = exchange.step(Event::Answered { status: 200 });
    assert_eq!(step, ExchangeStep::Finish(Err(RunError::Unexpected)));
    let (exchange, _) = Exchange::start(request(), None, Some("f".to_string()), true);
    let (_, step) = exchange.step(Event::Answered { status: 200 });
    assert_eq!(step, ExchangeStep::Finish(Err(RunError::Unexpected)));
}

#[test]
fn execute_awaits_an_answer_only_where_one_is_expected() {
    let (exchange, step) = execute("http://h:1/", "p:q:r", Some(3), "b", Some("n.os"), None);
    assert!(exchange.decode);
    let (url, message) = posted(&step);
    assert_eq!(url, "http://h:1/rpc:distro:sys/message");
    assert_eq!(message.get("node").unwrap().as_str(), Some("n.os"));
    assert_eq!(message.get("expects_response").unwrap().as_u64(), Some(3));
    let (exchange, _) = execute("http://h:1/", "p:q:r", None, "b", None, None);
    assert!(!exchange.decode);
    let (_, step) = exchange.step(Event::Answered { status: 200 });
    assert_eq!(step, ExchangeStep::Finish(Ok(None)));
}

#[test]
fn execute_reads_the_payload_from_the_file() {
    let (_, step) = execute("http://h:1", "p", Some(1), "b", None, Some("payload.bin"));
    assert_eq!(
        step,
        ExchangeStep::Perform(Effect::ReadFile { path: "payload.bin".to_string() })
    );
}
