//! What is said to the test coordinator that runs inside a node, and what
//! it answers.

use crate::json::{
    docs_of, has_members, insert_member, member, member_count, new_members, object_value,
    texts_value, unsigned_value, value_doc, JsonDoc, JsonNumber,
};
use crate::machine::{result_view, RunError, RunErrorView};
use crate::text::same_text;
use vstd::prelude::*;
use vstd::string::*;

verus! {

/// A message between processes, kept as the document in which it travels.
#[derive(Debug, PartialEq, Eq)]
pub struct KernelMessage {
    pub document: serde_json::Value,
}

/// A request to the test coordinator.
#[derive(Debug, PartialEq, Eq)]
pub enum TesterRequest {
    /// Run the named tests on the named nodes, each within the timeout in
    /// seconds.
    Run { input_node_names: Vec<String>, test_names: Vec<String>, test_timeout: u64 },
    /// Hand a message on.
    KernelMessage(KernelMessage),
    /// Ask for the full form of a message.
    GetFullMessage(KernelMessage),
}

/// Where a test failed.
#[derive(Debug, PartialEq, Eq)]
pub struct TesterFail {
    pub test: String,
    pub file: String,
    pub line: u32,
    pub column: u32,
}

/// An answer of the test coordinator. Only `Pass` and `Fail` end a run;
/// `GetFullMessage` answers a request of that name.
#[derive(Debug, PartialEq, Eq)]
pub enum TesterResponse {
    Pass,
    Fail { test: String, file: String, line: u32, column: u32 },
    GetFullMessage(Option<KernelMessage>),
}

/// What a [`TesterResponse`] holds.
pub enum TesterResponseView {
    Pass,
    Fail { test: Seq<char>, file: Seq<char>, line: u32, column: u32 },
    GetFullMessage(Option<JsonDoc>),
}

impl View for TesterResponse {
    type V = TesterResponseView;

    open spec fn view(&self) -> TesterResponseView {
        match *self {
            TesterResponse::Pass => TesterResponseView::Pass,
            TesterResponse::Fail { test, file, line, column } => TesterResponseView::Fail {
                test: test@,
                file: file@,
                line,
                column,
            },
            TesterResponse::GetFullMessage(Some(message)) => TesterResponseView::GetFullMessage(
                Some(value_doc(message.document)),
            ),
            TesterResponse::GetFullMessage(None) => TesterResponseView::GetFullMessage(None),
        }
    }
}

/// An error of the test coordinator.
#[derive(Debug, PartialEq, Eq)]
pub enum TesterError {
    RejectForeign,
    UnexpectedResponse,
    Fail { test: String, message: String },
}

impl TesterError {
    /// The error in words.
    pub open spec fn text(self) -> Seq<char> {
        match self {
            TesterError::RejectForeign => "RejectForeign"@,
            TesterError::UnexpectedResponse => "UnexpectedResponse"@,
            TesterError::Fail { test, message } => "FAIL "@ + test@ + " "@ + message@,
        }
    }

    /// Writes the error in words.
    pub fn to_text(&self) -> (r: String)
        ensures
            r@ == self.text(),
    {
        match self {
            TesterError::RejectForeign => String::from_str("RejectForeign"),
            TesterError::UnexpectedResponse => String::from_str("UnexpectedResponse"),
            TesterError::Fail { test, message } => String::from_str("FAIL ").concat(
                test.as_str(),
            ).concat(" ").concat(message.as_str()),
        }
    }
}

/// The command to run tests, as a document.
pub open spec fn run_doc(
    input_node_names: Seq<Seq<char>>,
    test_names: Seq<Seq<char>>,
    test_timeout: u64,
) -> JsonDoc {
    JsonDoc::Object(
        Map::<Seq<char>, JsonDoc>::empty().insert(
            "Run"@,
            JsonDoc::Object(
                Map::<Seq<char>, JsonDoc>::empty().insert(
                    "input_node_names"@,
                    JsonDoc::texts(input_node_names),
                ).insert("test_names"@, JsonDoc::texts(test_names)).insert(
                    "test_timeout"@,
                    JsonDoc::unsigned(test_timeout),
                ),
            ),
        ),
    )
}

/// A document with one member.
pub open spec fn tagged_doc(tag: Seq<char>, inner: JsonDoc) -> JsonDoc {
    JsonDoc::Object(Map::<Seq<char>, JsonDoc>::empty().insert(tag, inner))
}

impl TesterRequest {
    /// The request as the document that is sent.
    pub open spec fn doc(self) -> JsonDoc {
        match self {
            TesterRequest::Run { input_node_names, test_names, test_timeout } => run_doc(
                input_node_names.deep_view(),
                test_names.deep_view(),
                test_timeout,
            ),
            TesterRequest::KernelMessage(message) => tagged_doc(
                "KernelMessage"@,
                value_doc(message.document),
            ),
            TesterRequest::GetFullMessage(message) => tagged_doc(
                "GetFullMessage"@,
                value_doc(message.document),
            ),
        }
    }

    /// Builds the document that is sent for the request.
    pub fn to_document(&self) -> (v: serde_json::Value)
        ensures
            value_doc(v) == self.doc(),
    {
        match self {
            TesterRequest::Run { input_node_names, test_names, test_timeout } => {
                let mut inner = new_members();
                insert_member(&mut inner, "input_node_names", texts_value(input_node_names));
                insert_member(&mut inner, "test_names", texts_value(test_names));
                insert_member(&mut inner, "test_timeout", unsigned_value(*test_timeout));
                let mut outer = new_members();
                insert_member(&mut outer, "Run", object_value(inner));
                object_value(outer)
            },
            TesterRequest::KernelMessage(message) => {
                let mut outer = new_members();
                insert_member(&mut outer, "KernelMessage", message.document.clone());
                object_value(outer)
            },
            TesterRequest::GetFullMessage(message) => {
                let mut outer = new_members();
                insert_member(&mut outer, "GetFullMessage", message.document.clone());
                object_value(outer)
            },
        }
    }
}

/// The document that an optional value holds.
pub open spec fn doc_of(v: Option<&serde_json::Value>) -> Option<JsonDoc> {
    match v {
        Some(v) => Some(value_doc(*v)),
        None => None,
    }
}

/// The text that a document is, if there is one and it is a text.
pub open spec fn doc_text(doc: Option<JsonDoc>) -> Option<Seq<char>> {
    match doc {
        Some(JsonDoc::Text(t)) => Some(t),
        _ => None,
    }
}

/// The number that a document is, if there is one and it is a non-negative
/// integer that fits 32 bits.
pub open spec fn doc_u32(doc: Option<JsonDoc>) -> Option<u32> {
    match doc {
        Some(JsonDoc::Number(JsonNumber::Unsigned(n))) => if n <= u32::MAX {
            Some(n as u32)
        } else {
            None
        },
        _ => None,
    }
}

/// The place of a failure with these four parts: two texts and two numbers
/// that fit 32 bits.
pub open spec fn fail_from(
    test: Option<JsonDoc>,
    file: Option<JsonDoc>,
    line: Option<JsonDoc>,
    column: Option<JsonDoc>,
) -> Option<TesterResponseView> {
    match (doc_text(test), doc_text(file), doc_u32(line), doc_u32(column)) {
        (Some(test), Some(file), Some(line), Some(column)) => Some(
            TesterResponseView::Fail { test, file, line, column },
        ),
        _ => None,
    }
}

/// The place of a failure that a document holds. It is given by name, as
/// an object with the members `test`, `file`, `line` and `column`, beside
/// which other members do not count; or in order, as an array of just
/// these four.
pub open spec fn fail_of(doc: JsonDoc) -> Option<TesterResponseView> {
    match doc {
        JsonDoc::Array(items) => if items.len() == 4 {
            fail_from(Some(items[0]), Some(items[1]), Some(items[2]), Some(items[3]))
        } else {
            None
        },
        _ => fail_from(
            doc.member("test"@),
            doc.member("file"@),
            doc.member("line"@),
            doc.member("column"@),
        ),
    }
}

/// The answer that a document holds, in each form in which an answer
/// travels:
///
/// - `Pass` is the text `Pass`, or an object with the one member `Pass`,
///   which is `null`;
/// - a failure is an object with the one member `Fail`, the place of the
///   failure (see [`fail_of`]);
/// - a full message is an object with the one member `GetFullMessage`, a
///   message or `null`.
///
/// Every other document holds no answer. A member that the text of a
/// document gives twice counts once, with its last value.
pub open spec fn verdict_of(doc: JsonDoc) -> Option<TesterResponseView> {
    match doc {
        JsonDoc::Text(t) => if t == "Pass"@ {
            Some(TesterResponseView::Pass)
        } else {
            None
        },
        JsonDoc::Object(members) => if !has_members(members, 1) {
            None
        } else if members.contains_key("Pass"@) {
            if members["Pass"@] is Null {
                Some(TesterResponseView::Pass)
            } else {
                None
            }
        } else if members.contains_key("Fail"@) {
            fail_of(members["Fail"@])
        } else if members.contains_key("GetFullMessage"@) {
            Some(
                TesterResponseView::GetFullMessage(
                    if members["GetFullMessage"@] is Null {
                        None
                    } else {
                        Some(members["GetFullMessage"@])
                    },
                ),
            )
        } else {
            None
        },
        _ => None,
    }
}

/// The view of an optional answer.
pub open spec fn verdict_view(r: Option<TesterResponse>) -> Option<TesterResponseView> {
    match r {
        Some(v) => Some(v@),
        None => None,
    }
}

fn read_text(v: Option<&serde_json::Value>) -> (r: Option<String>)
    ensures
        r.deep_view() == doc_text(doc_of(v)),
{
    match v {
        Some(v) => match v.as_str() {
            Some(t) => Some(String::from_str(t)),
            None => None,
        },
        None => None,
    }
}

fn read_u32(v: Option<&serde_json::Value>) -> (r: Option<u32>)
    ensures
        r == doc_u32(doc_of(v)),
{
    match v {
        Some(v) => match v.as_u64() {
            Some(n) => if n <= 0xffff_ffff {
                Some(n as u32)
            } else {
                None
            },
            None => None,
        },
        None => None,
    }
}

fn read_fail_from(
    test: Option<&serde_json::Value>,
    file: Option<&serde_json::Value>,
    line: Option<&serde_json::Value>,
    column: Option<&serde_json::Value>,
) -> (r: Option<TesterResponse>)
    ensures
        verdict_view(r) == fail_from(doc_of(test), doc_of(file), doc_of(line), doc_of(column)),
{
    match (read_text(test), read_text(file), read_u32(line), read_u32(column)) {
        (Some(test), Some(file), Some(line), Some(column)) => Some(
            TesterResponse::Fail { test, file, line, column },
        ),
        _ => None,
    }
}

fn read_fail(doc: &serde_json::Value) -> (r: Option<TesterResponse>)
    ensures
        verdict_view(r) == fail_of(value_doc(*doc)),
{
    match doc.as_array() {
        Some(items) => {
            if items.len() == 4 {
                assert(docs_of(items@)[0] == value_doc(items@[0]));
                assert(docs_of(items@)[1] == value_doc(items@[1]));
                assert(docs_of(items@)[2] == value_doc(items@[2]));
                assert(docs_of(items@)[3] == value_doc(items@[3]));
                read_fail_from(Some(&items[0]), Some(&items[1]), Some(&items[2]), Some(&items[3]))
            } else {
                None
            }
        },
        None => read_fail_from(
            member(doc, "test"),
            member(doc, "file"),
            member(doc, "line"),
            member(doc, "column"),
        ),
    }
}

impl TesterResponse {
    /// Reads the answer that a document holds: see [`verdict_of`].
    pub fn from_document(doc: &serde_json::Value) -> (r: Option<TesterResponse>)
        ensures
            verdict_view(r) == verdict_of(value_doc(*doc)),
    {
        match doc.as_str() {
            Some(t) => {
                if same_text(t, "Pass") {
                    return Some(TesterResponse::Pass);
                } else {
                    return None;
                }
            },
            None => {},
        }
        match doc.as_object() {
            None => None,
            Some(members) => {
                if member_count(members) != 1 {
                    return None;
                }
                match member(doc, "Pass") {
                    Some(inner) => {
                        return if inner.is_null() {
                            Some(TesterResponse::Pass)
                        } else {
                            None
                        };
                    },
                    None => {},
                }
                match member(doc, "Fail") {
                    Some(inner) => read_fail(inner),
                    None => match member(doc, "GetFullMessage") {
                        Some(inner) => {
                            if inner.is_null() {
                                Some(TesterResponse::GetFullMessage(None))
                            } else {
                                Some(
                                    TesterResponse::GetFullMessage(
                                        Some(KernelMessage { document: inner.clone() }),
                                    ),
                                )
                            }
                        },
                        None => None,
                    },
                }
            },
        }
    }

    /// Computes [`TesterResponseView::outcome`].
    pub fn into_outcome(self) -> (r: Result<(), RunError>)
        ensures
            result_view(r) == self@.outcome(),
    {
        match self {
            TesterResponse::Pass => Ok(()),
            TesterResponse::Fail { test, file, line, column } => Err(
                RunError::TestFailed { test, file, line, column },
            ),
            TesterResponse::GetFullMessage(_) => Err(RunError::UnexpectedResponse),
        }
    }
}

impl TesterResponseView {
    /// What an answer means as the result of a run: `Pass` is success, a
    /// failure is handed on with its place unchanged, and a full message is
    /// out of place.
    pub open spec fn outcome(self) -> Result<(), RunErrorView> {
        match self {
            TesterResponseView::Pass => Ok(()),
            TesterResponseView::Fail { test, file, line, column } => Err(
                RunErrorView::TestFailed { test, file, line, column },
            ),
            TesterResponseView::GetFullMessage(_) => Err(RunErrorView::UnexpectedResponse),
        }
    }
}

} // verus!
