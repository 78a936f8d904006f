use kit::machine::RunError;
use kit::run_tests::runner::read_verdict;
use kit::run_tests::tester_types::{
    KernelMessage, TesterError, TesterFail, TesterRequest, TesterResponse,
};

fn document(text: &str) -> serde_json::Value {
    serde_json::from_str(text).unwrap()
}

fn verdict(text: &str) -> Option<TesterResponse> {
    TesterResponse::from_document(&document(text))
}

#[test]
fn verdict_pass() {
    assert_eq!(verdict(r#""Pass""#), Some(TesterResponse::Pass));
}

#[test]
fn verdict_pass_as_an_object() {
    assert_eq!(verdict(r#"{"Pass":null}"#), Some(TesterResponse::Pass));
    assert_eq!(read_verdict(r#"{ "Pass" : null }"#), Ok(()));
}

#[test]
fn verdict_fail_in_order() {
    assert_eq!(
        verdict(r#"{"Fail":["chat","src/lib.rs",12,5]}"#),
        Some(TesterResponse::Fail {
            test: "chat".to_string(),
            file: "src/lib.rs".to_string(),
            line: 12,
            column: 5,
        })
    );
    assert_eq!(
        read_verdict(r#"{"Fail":["a","b",4294967295,0]}"#),
        Err(RunError::TestFailed {
            test: "a".to_string(),
            file: "b".to_string(),
            line: u32::MAX,
            column: 0,
        })
    );
}

#[test]
fn verdict_fail() {
    let text = r#"{"Fail":{"test":"chat","file":"src/lib.rs","line":12,"column":5}}"#;
    assert_eq!(
        verdict(text),
        Some(TesterResponse::Fail {
            test: "chat".to_string(),
            file: "src/lib.rs".to_string(),
            line: 12,
            column: 5,
        })
    );
}

#[test]
fn verdict_fail_with_limits() {
    let text = r#"{"Fail":{"test":"","file":"","line":4294967295,"column":0,"more":1}}"#;
    assert_eq!(
        verdict(text),
        Some(TesterResponse::Fail {
            test: String::new(),
            file: String::new(),
            line: u32::MAX,
            column: 0,
        })
    );
}

#[test]
fn verdict_full_message() {
    assert_eq!(verdict(r#"{"GetFullMessage":null}"#), Some(TesterResponse::GetFullMessage(None)));
    assert_eq!(
        verdict(r#"{"GetFullMessage":{"id":7}}"#),
        Some(TesterResponse::GetFullMessage(Some(KernelMessage {
            document: document(r#"{"id":7}"#),
        })))
    );
}

#[test]
fn verdict_refuses_other_documents() {
    for text in [
        r#""Fail""#,
        r#""pass""#,
        "null",
        "1",
        "[]",
        "{}",
        r#"{"Pass":1}"#,
        r#"{"Pass":"Pass"}"#,
        r#"{"Pass":null,"Fail":null}"#,
        r#"{"Fail":["t","f",1]}"#,
        r#"{"Fail":["t","f",1,2,3]}"#,
        r#"{"Fail":["t","f","1",2]}"#,
        r#"{"Fail":[1,"f",1,2]}"#,
        r#"{"Fail":["t","f",1,4294967296]}"#,
        r#"{"Fail":"t"}"#,
        r#""GetFullMessage""#,
        r#"["Pass"]"#,
        r#"{"Fail":null}"#,
        r#"{"Fail":{"test":"t","file":"f","line":1}}"#,
        r#"{"Fail":{"test":"t","file":"f","line":1,"column":"2"}}"#,
        r#"{"Fail":{"test":"t","file":"f","line":4294967296,"column":2}}"#,
        r#"{"Fail":{"test":"t","file":"f","line":-1,"column":2}}"#,
        r#"{"Fail":{"test":1,"file":"f","line":1,"column":2}}"#,
        r#"{"Fail":{"test":"t","file":"f","line":1,"column":2},"GetFullMessage":null}"#,
        r#"{"Other":1}"#,
    ] {
        assert_eq!(verdict(text), None, "{}", text);
    }
}

#[test]
fn outcome_of_each_verdict() {
    assert_eq!(TesterResponse::Pass.into_outcome(), Ok(()));
    let fail = TesterResponse::Fail {
        test: "t".to_string(),
        file: "f.rs".to_string(),
        line: 3,
        column: 4,
    };
    assert_eq!(
        fail.into_outcome(),
        Err(RunError::TestFailed {
            test: "t".to_string(),
            file: "f.rs".to_string(),
            line: 3,
            column: 4,
        })
    );
    assert_eq!(
        TesterResponse::GetFullMessage(None).into_outcome(),
        Err(RunError::UnexpectedResponse)
    );
}

#[test]
fn verdict_read_from_a_body() {
    assert_eq!(read_verdict(r#""Pass""#), Ok(()));
    assert_eq!(read_verdict("Pass"), Err(RunError::InvalidVerdict));
    assert_eq!(read_verdict(r#""Maybe""#), Err(RunError::InvalidVerdict));
    assert_eq!(read_verdict(r#"{"GetFullMessage":null}"#), Err(RunError::UnexpectedResponse));
    assert_eq!(
        read_verdict(r#"{"Fail":{"test":"a","file":"b","line":1,"column":2}}"#),
        Err(RunError::TestFailed {
            test: "a".to_string(),
            file: "b".to_string(),
            line: 1,
            column: 2,
        })
    );
}

#[test]
fn run_request_as_a_document() {
    let request = TesterRequest::Run {
        input_node_names: vec!["first.os".to_string(), "second.os".to_string()],
        test_names: vec!["/tests/chat".to_string()],
        test_timeout: 10,
    };
    let expected = document(
        r#"{"Run":{"input_node_names":["first.os","second.os"],"test_names":["/tests/chat"],
            "test_timeout":10}}"#,
    );
    assert_eq!(request.to_document(), expected);
}

#[test]
fn other_requests_as_documents() {
    let message = || KernelMessage { document: document(r#"{"id":1}"#) };
    assert_eq!(
        TesterRequest::KernelMessage(message()).to_document(),
        document(r#"{"KernelMessage":{"id":1}}"#)
    );
    assert_eq!(
        TesterRequest::GetFullMessage(message()).to_document(),
        document(r#"{"GetFullMessage":{"id":1}}"#)
    );
}

#[test]
fn tester_error_in_words() {
    assert_eq!(TesterError::RejectForeign.to_text(), "RejectForeign");
    assert_eq!(TesterError::UnexpectedResponse.to_text(), "UnexpectedResponse");
    let fail = TesterError::Fail { test: "chat".to_string(), message: "timed out".to_string() };
    assert_eq!(fail.to_text(), "FAIL chat timed out");
}

#[test]
fn tester_fail_holds_a_place() {
    let fail = TesterFail { test: "t".to_string(), file: "f".to_string(), line: 1, column: 2 };
    assert_eq!(fail.line + fail.column, 3);
    assert_eq!(fail.test, "t");
    assert_eq!(fail.file, "f");
}
