//! The message codec: the request envelope that a node accepts, the address
//! it is posted to, and the answer that comes back.

use crate::json::{
    bool_value, bytes_of_values, doc_bytes, docs_of, insert_member, json_parse, member,
    new_members, null_value, object_value, optional_text_value, optional_unsigned_value,
    parse_document, text_value, value_doc, JsonDoc,
};
use crate::machine::{Effect, EffectView, Event, RunError, RunErrorView};
use crate::text::{decimal, decimal_text, ends_with, text_of_bytes};
use vstd::prelude::*;
use vstd::string::*;
use vstd::utf8::*;

verus! {

/// The answer of a node to a message.
#[derive(Debug, PartialEq, Eq)]
pub struct Response {
    /// The body, which travels as bytes and is UTF-8 text.
    pub body: String,
    /// For display only: the blob taken as base64 text and decoded, then
    /// read as UTF-8. The outer `None` says that there is no blob or that it
    /// is not base64, the inner one that what it decodes to is not UTF-8.
    pub lazy_load_blob_utf8: Option<Option<String>>,
    /// The blob, if the answer carries one.
    pub lazy_load_blob: Option<Vec<u8>>,
}

/// What a [`Response`] holds.
pub struct ResponseView {
    pub body: Seq<char>,
    pub lazy_load_blob_utf8: Option<Option<Seq<char>>>,
    pub lazy_load_blob: Option<Seq<u8>>,
}

impl View for Response {
    type V = ResponseView;

    open spec fn view(&self) -> ResponseView {
        ResponseView {
            body: self.body@,
            lazy_load_blob_utf8: match self.lazy_load_blob_utf8 {
                Some(Some(s)) => Some(Some(s@)),
                Some(None) => Some(None),
                None => None,
            },
            lazy_load_blob: match self.lazy_load_blob {
                Some(b) => Some(b@),
                None => None,
            },
        }
    }
}

/// Bytes in words: their numbers in decimal digits, with commas between.
pub open spec fn bytes_text(bytes: Seq<u8>) -> Seq<char>
    decreases bytes.len(),
{
    if bytes.len() == 0 {
        Seq::empty()
    } else if bytes.len() == 1 {
        decimal(bytes[0] as nat)
    } else {
        bytes_text(bytes.drop_last()) + ", "@ + decimal(bytes.last() as nat)
    }
}

/// A blob in words: `None`, or its bytes as `Some([1, 2, 3])`.
pub open spec fn blob_text(blob: Option<Seq<u8>>) -> Seq<char> {
    match blob {
        None => "None"@,
        Some(bytes) => "Some(["@ + bytes_text(bytes) + "])"@,
    }
}

/// Computes [`blob_text`].
pub fn write_blob(blob: &Option<Vec<u8>>) -> (r: String)
    ensures
        r@ == blob_text(bytes_view_of(*blob)),
{
    match blob {
        None => String::from_str("None"),
        Some(bytes) => {
            let mut text = String::from_str("Some([");
            let ghost head = text@;
            let mut i: usize = 0;
            while i < bytes.len()
                invariant
                    i <= bytes.len(),
                    text@ == head + bytes_text(bytes@.take(i as int)),
                decreases bytes.len() - i,
            {
                let ghost before = bytes@.take(i as int);
                let ghost upto = bytes@.take(i + 1);
                assert(upto.drop_last() =~= before);
                if i > 0 {
                    text.append(", ");
                }
                let digits = decimal_text(bytes[i] as u64);
                text.append(digits.as_str());
                i += 1;
            }
            assert(bytes@.take(i as int) =~= bytes@);
            text.append("])");
            text
        },
    }
}

impl ResponseView {
    /// The answer in words: the body, then the blob, as text where its
    /// display is one and as its bytes otherwise.
    pub open spec fn text(self) -> Seq<char> {
        "Response:\nbody: "@ + self.body + "\nblob: "@ + match self.lazy_load_blob_utf8 {
            Some(Some(s)) => s,
            _ => blob_text(self.lazy_load_blob),
        }
    }
}

impl Response {
    /// Writes the answer in words.
    pub fn to_text(&self) -> (r: String)
        ensures
            r@ == self@.text(),
    {
        let head = String::from_str("Response:\nbody: ").concat(self.body.as_str()).concat(
            "\nblob: ",
        );
        match &self.lazy_load_blob_utf8 {
            Some(Some(s)) => head.concat(s.as_str()),
            _ => {
                let bytes = write_blob(&self.lazy_load_blob);
                head.concat(bytes.as_str())
            },
        }
    }
}

/// Why no message could be built.
#[derive(Clone, Copy, Debug, PartialEq, Eq, Structural)]
pub enum MessageError {
    /// Both inline bytes and the bytes of a file were given as the payload.
    PayloadConflict,
}

/// Why an answer could not be decoded.
#[derive(Clone, Copy, Debug, PartialEq, Eq, Structural)]
pub enum ResponseError {
    /// The HTTP status was not 200.
    Status(u16),
    /// The content is not a JSON document.
    InvalidJson,
    /// The document has no member `body`.
    MissingBody,
    /// The member `body` is not an array of bytes.
    BodyNotBytes,
    /// The bytes of the body are not UTF-8.
    BodyNotUtf8,
    /// The member `lazy_load_blob` is neither `null`, nor an array, nor an
    /// object.
    BlobNotBytes,
    /// The member `lazy_load_blob` is an array or an object, but holds no
    /// array of bytes.
    BlobFormat,
}

/// The base64 text that `base64::encode` writes for bytes.
pub uninterp spec fn base64_text(bytes: Seq<u8>) -> Seq<char>;

/// The bytes that `base64::decode` reads from base64 text given as bytes;
/// `None` where the input is not base64.
pub uninterp spec fn base64_bytes(input: Seq<u8>) -> Option<Seq<u8>>;

/// The length of the base64 text of so many bytes.
pub open spec fn base64_len(n: nat) -> nat {
    (n / 3) * 4 + if n % 3 > 0 {
        4nat
    } else {
        0nat
    }
}

/// The bytes that a payload text stands for.
pub open spec fn payload_bytes(text: Seq<char>) -> Option<Seq<u8>> {
    base64_bytes(encode_utf8(text))
}

/// `base64::encode` writes bytes as base64 text with the standard alphabet
/// and padding. The text has four characters for every three bytes begun,
/// and `base64::decode` reads the same bytes back from it.
#[verifier::external_body]
fn base64_encode(bytes: &[u8]) -> (text: String)
    requires
        base64_len(bytes@.len()) <= usize::MAX,
    ensures
        text@ == base64_text(bytes@),
        text@.len() == base64_len(bytes@.len()),
        payload_bytes(text@) == Some(bytes@),
{
    #[allow(deprecated)]
    base64::encode(bytes)
}

/// `base64::decode` reads base64 text, given as bytes, with the standard
/// alphabet and padding.
#[verifier::external_body]
fn base64_decode(input: &[u8]) -> (r: Option<Vec<u8>>)
    ensures
        match r {
            Some(bytes) => base64_bytes(input@) == Some(bytes@),
            None => base64_bytes(input@) is None,
        },
{
    #[allow(deprecated)]
    base64::decode(input).ok()
}

/// Writes a payload as the text that travels in a message. Reading the text
/// back with [`decode_payload`] gives the same bytes.
pub fn encode_payload(bytes: &[u8]) -> (text: String)
    requires
        base64_len(bytes@.len()) <= usize::MAX,
    ensures
        text@ == base64_text(bytes@),
        text@.len() == base64_len(bytes@.len()),
        payload_bytes(text@) == Some(bytes@),
{
    base64_encode(bytes)
}

/// Reads the bytes back that a payload text stands for.
pub fn decode_payload(text: &str) -> (r: Option<Vec<u8>>)
    ensures
        match r {
            Some(bytes) => payload_bytes(text@) == Some(bytes@),
            None => payload_bytes(text@) is None,
        },
{
    base64_decode(text.as_bytes())
}

/// A payload that comes back as the blob of an answer is displayed as the
/// bytes that were sent, where these are UTF-8 text: the blob is the
/// payload text, which decodes to the bytes exactly.
pub proof fn lemma_payload_round_trip(bytes: Seq<u8>, text: Seq<char>)
    requires
        payload_bytes(text) == Some(bytes),
    ensures
        blob_display(Some(encode_utf8(text))) == Some(
            if valid_utf8(bytes) {
                Some(decode_utf8(bytes))
            } else {
                None
            },
        ),
        valid_utf8(bytes) ==> encode_utf8(blob_display(Some(encode_utf8(text))).unwrap().unwrap())
            == bytes,
{
    if valid_utf8(bytes) {
        decode_utf8_encode_utf8(bytes);
    }
}

/// Whether the two ways to give a payload are both taken.
pub open spec fn payload_conflict(inline: bool, file: bool) -> bool {
    inline && file
}

/// The payload text of a message: of the inline bytes or of the bytes of
/// the file, whichever is given.
pub open spec fn payload_text(raw_bytes: Option<Seq<u8>>, file_bytes: Option<Seq<u8>>) -> Option<
    Seq<char>,
> {
    match (raw_bytes, file_bytes) {
        (Some(b), _) => Some(base64_text(b)),
        (None, Some(b)) => Some(base64_text(b)),
        (None, None) => None,
    }
}

/// The request envelope as a document.
pub open spec fn envelope_doc(
    process: Seq<char>,
    expects_response: Option<u64>,
    body: Seq<char>,
    node: Option<Seq<char>>,
    data: Option<Seq<char>>,
) -> JsonDoc {
    JsonDoc::Object(
        Map::<Seq<char>, JsonDoc>::empty().insert("node"@, JsonDoc::optional_text(node)).insert(
            "process"@,
            JsonDoc::Text(process),
        ).insert("inherit"@, JsonDoc::Bool(false)).insert(
            "expects_response"@,
            JsonDoc::optional_unsigned(expects_response),
        ).insert("body"@, JsonDoc::Text(body)).insert("metadata"@, JsonDoc::Null).insert(
            "context"@,
            JsonDoc::Null,
        ).insert("mime"@, JsonDoc::Text("application/octet-stream"@)).insert(
            "data"@,
            JsonDoc::optional_text(data),
        ),
    )
}

/// The view of an optional text.
pub open spec fn text_view(text: Option<&str>) -> Option<Seq<char>> {
    match text {
        Some(t) => Some(t@),
        None => None,
    }
}

/// The view of optional bytes.
pub open spec fn bytes_view(bytes: Option<&[u8]>) -> Option<Seq<u8>> {
    match bytes {
        Some(b) => Some(b@),
        None => None,
    }
}

/// Builds the request envelope of a message to `process`, on the local node
/// or on `node`, with the payload text `data`.
pub fn make_envelope(
    process: &str,
    expects_response: Option<u64>,
    body: &str,
    node: Option<&str>,
    data: Option<&str>,
) -> (v: serde_json::Value)
    ensures
        value_doc(v) == envelope_doc(
            process@,
            expects_response,
            body@,
            text_view(node),
            text_view(data),
        ),
{
    let mut members = new_members();
    insert_member(&mut members, "node", optional_text_value(node));
    insert_member(&mut members, "process", text_value(process));
    insert_member(&mut members, "inherit", bool_value(false));
    insert_member(&mut members, "expects_response", optional_unsigned_value(expects_response));
    insert_member(&mut members, "body", text_value(body));
    insert_member(&mut members, "metadata", null_value());
    insert_member(&mut members, "context", null_value());
    insert_member(&mut members, "mime", text_value("application/octet-stream"));
    insert_member(&mut members, "data", optional_text_value(data));
    object_value(members)
}

/// The payload that is given, inline or as the bytes of a file.
pub open spec fn payload_given(raw_bytes: Option<Seq<u8>>, file_bytes: Option<Seq<u8>>) -> Option<
    Seq<u8>,
> {
    match raw_bytes {
        Some(b) => Some(b),
        None => file_bytes,
    }
}

/// The payload that a message carries: what its member `data` stands for,
/// where that is a text.
pub open spec fn message_payload(message: JsonDoc) -> Option<Seq<u8>> {
    match message.member("data"@) {
        Some(JsonDoc::Text(t)) => payload_bytes(t),
        _ => None,
    }
}

/// The message that is built of what is given: none where both payloads
/// are given, and otherwise the envelope with the payload text, if any.
pub open spec fn built_message(
    process: Seq<char>,
    expects_response: Option<u64>,
    body: Seq<char>,
    node: Option<Seq<char>>,
    raw_bytes: Option<Seq<u8>>,
    file_bytes: Option<Seq<u8>>,
) -> Result<JsonDoc, MessageError> {
    if payload_conflict(raw_bytes is Some, file_bytes is Some) {
        Err(MessageError::PayloadConflict)
    } else {
        Ok(envelope_doc(process, expects_response, body, node, payload_text(raw_bytes, file_bytes)))
    }
}

/// Building a message fails if and only if both payloads are given. With
/// one payload or none it succeeds, and without any the member `data` of
/// the message is `null`: the message carries no payload.
pub proof fn lemma_message_fails_on_conflict_only(
    process: Seq<char>,
    expects_response: Option<u64>,
    body: Seq<char>,
    node: Option<Seq<char>>,
    raw_bytes: Option<Seq<u8>>,
    file_bytes: Option<Seq<u8>>,
)
    ensures
        built_message(process, expects_response, body, node, raw_bytes, file_bytes) is Err <==> (
        raw_bytes is Some && file_bytes is Some),
        raw_bytes is None && file_bytes is None ==> ({
            &&& built_message(
                process,
                expects_response,
                body,
                node,
                raw_bytes,
                file_bytes,
            ) matches Ok(message)
            &&& message.member("data"@) == Some(JsonDoc::Null)
            &&& message_payload(message) is None
        }),
{
}

/// Builds the request envelope of a message to `process`, on the local node
/// or on `node`. `expects_response` is the time in seconds to wait for an
/// answer, or `None` where none is awaited. The payload is `raw_bytes` or
/// `file_bytes`, the bytes of a file that the caller has read; without
/// either, the envelope carries no payload.
///
/// Fails if and only if both payloads are given. The payload of the message
/// that is built, read back from its member `data`, is the payload given,
/// byte for byte.
pub fn make_message(
    process: &str,
    expects_response: Option<u64>,
    body: &str,
    node: Option<&str>,
    raw_bytes: Option<&[u8]>,
    file_bytes: Option<&[u8]>,
) -> (r: Result<serde_json::Value, MessageError>)
    requires
        raw_bytes matches Some(b) ==> base64_len(b@.len()) <= usize::MAX,
        file_bytes matches Some(b) ==> base64_len(b@.len()) <= usize::MAX,
    ensures
        payload_conflict(raw_bytes is Some, file_bytes is Some) <==> r is Err,
        match r {
            Ok(v) => built_message(
                process@,
                expects_response,
                body@,
                text_view(node),
                bytes_view(raw_bytes),
                bytes_view(file_bytes),
            ) == Ok::<JsonDoc, MessageError>(value_doc(v)),
            Err(e) => e == MessageError::PayloadConflict,
        },
        r matches Ok(v) ==> message_payload(value_doc(v)) == payload_given(
            bytes_view(raw_bytes),
            bytes_view(file_bytes),
        ),
{
    match (raw_bytes, file_bytes) {
        (Some(_), Some(_)) => Err(MessageError::PayloadConflict),
        (Some(bytes), None) => {
            let data = encode_payload(bytes);
            Ok(make_envelope(process, expects_response, body, node, Some(data.as_str())))
        },
        (None, Some(bytes)) => {
            let data = encode_payload(bytes);
            Ok(make_envelope(process, expects_response, body, node, Some(data.as_str())))
        },
        (None, None) => Ok(make_envelope(process, expects_response, body, node, None)),
    }
}

/// The path under which a node takes messages.
pub open spec fn endpoint() -> Seq<char> {
    "/rpc:distro:sys/message"@
}

/// An address without one trailing slash, if it has one.
pub open spec fn without_slash(url: Seq<char>) -> Seq<char> {
    if url.len() > 0 && url.last() == '/' {
        url.drop_last()
    } else {
        url
    }
}

/// The address to post to, for the address of a node: first one trailing
/// slash is taken off; then the path of the endpoint is appended, unless
/// the address ends with that path already.
pub open spec fn endpoint_url(url: Seq<char>) -> Seq<char> {
    let base = without_slash(url);
    if endpoint().is_suffix_of(base) {
        base
    } else {
        base + endpoint()
    }
}

/// Computes [`endpoint_url`].
pub fn normalize_url(url: &str) -> (r: String)
    ensures
        r@ == endpoint_url(url@),
{
    let base: &str = if ends_with(url, "/") {
        proof {
            reveal_strlit("/");
            assert("/"@[0] == url@.subrange(url@.len() - 1, url@.len() as int)[0]);
        }
        let n = url.unicode_len();
        url.substring_char(0, n - 1)
    } else {
        proof {
            reveal_strlit("/");
            if url@.len() > 0 && url@.last() == '/' {
                assert("/"@ =~= url@.subrange(url@.len() - 1, url@.len() as int));
            }
        }
        url
    };
    assert(base@ == without_slash(url@));
    if ends_with(base, "/rpc:distro:sys/message") {
        String::from_str(base)
    } else {
        String::from_str(base).concat("/rpc:distro:sys/message")
    }
}

/// An address that ends with the path of the endpoint is posted to as it
/// is.
pub proof fn lemma_endpoint_url_ends(base: Seq<char>)
    ensures
        endpoint().is_suffix_of(base + endpoint()),
        without_slash(base + endpoint()) == base + endpoint(),
        endpoint_url(base + endpoint()) == base + endpoint(),
{
    reveal_strlit("/rpc:distro:sys/message");
    let e = endpoint();
    let whole = base + e;
    assert(whole.subrange(whole.len() - e.len(), whole.len() as int) =~= e);
    assert(whole.last() == e[e.len() - 1]);
}

/// Addresses that differ only in a trailing slash, or in that the path of
/// the endpoint is already there, are posted to the same place.
pub proof fn lemma_endpoint_url_forms(base: Seq<char>)
    requires
        !endpoint().is_suffix_of(base),
        base.len() == 0 || base.last() != '/',
    ensures
        endpoint_url(base) == base + endpoint(),
        endpoint_url(base.push('/')) == base + endpoint(),
        endpoint_url(base + endpoint()) == base + endpoint(),
        endpoint_url((base + endpoint()).push('/')) == base + endpoint(),
{
    lemma_endpoint_url_ends(base);
    let slashed = base.push('/');
    assert(slashed.last() == '/');
    assert(slashed.drop_last() =~= base);
    let whole = (base + endpoint()).push('/');
    assert(whole.last() == '/');
    assert(whole.drop_last() =~= base + endpoint());
}

/// What has been posted to is not changed by a second normalisation.
pub proof fn lemma_endpoint_url_idempotent(url: Seq<char>)
    ensures
        endpoint_url(endpoint_url(url)) == endpoint_url(url),
{
    let base = without_slash(url);
    if endpoint().is_suffix_of(base) {
        let e = endpoint();
        let head = base.subrange(0, base.len() - e.len());
        assert(base =~= head + e);
        lemma_endpoint_url_ends(head);
    } else {
        lemma_endpoint_url_ends(base);
    }
}

/// The display of a blob: decoded as base64 text, then read as UTF-8.
pub open spec fn blob_display(blob: Option<Seq<u8>>) -> Option<Option<Seq<char>>> {
    match blob {
        Some(b) => match base64_bytes(b) {
            Some(decoded) => if valid_utf8(decoded) {
                Some(Some(decode_utf8(decoded)))
            } else {
                Some(None)
            },
            None => None,
        },
        None => None,
    }
}

/// The body of an answer: the member `body`, an array of bytes that are
/// UTF-8.
pub open spec fn response_body(doc: JsonDoc) -> Result<Seq<char>, ResponseError> {
    match doc.member("body"@) {
        None => Err(ResponseError::MissingBody),
        Some(JsonDoc::Array(items)) => match doc_bytes(items) {
            None => Err(ResponseError::BodyNotBytes),
            Some(bytes) => if valid_utf8(bytes) {
                Ok(decode_utf8(bytes))
            } else {
                Err(ResponseError::BodyNotUtf8)
            },
        },
        Some(_) => Err(ResponseError::BodyNotBytes),
    }
}

/// The blob of an answer: none where the member `lazy_load_blob` is missing
/// or `null`; the bytes of an array; the bytes of the member `bytes` of an
/// object. Every other shape is refused.
pub open spec fn response_blob(doc: JsonDoc) -> Result<Option<Seq<u8>>, ResponseError> {
    match doc.member("lazy_load_blob"@) {
        None => Ok(None),
        Some(JsonDoc::Null) => Ok(None),
        Some(JsonDoc::Array(items)) => blob_bytes(items),
        Some(JsonDoc::Object(members)) => match JsonDoc::Object(members).member("bytes"@) {
            Some(JsonDoc::Array(items)) => blob_bytes(items),
            _ => Err(ResponseError::BlobFormat),
        },
        Some(_) => Err(ResponseError::BlobNotBytes),
    }
}

/// The bytes of a blob given as an array.
pub open spec fn blob_bytes(items: Seq<JsonDoc>) -> Result<Option<Seq<u8>>, ResponseError> {
    match doc_bytes(items) {
        Some(bytes) => Ok(Some(bytes)),
        None => Err(ResponseError::BlobFormat),
    }
}

/// The answer that a document holds. An error in the body comes before one
/// in the blob.
pub open spec fn response_of(doc: JsonDoc) -> Result<ResponseView, ResponseError> {
    match response_body(doc) {
        Err(e) => Err(e),
        Ok(body) => match response_blob(doc) {
            Err(e) => Err(e),
            Ok(blob) => Ok(
                ResponseView {
                    body,
                    lazy_load_blob_utf8: blob_display(blob),
                    lazy_load_blob: blob,
                },
            ),
        },
    }
}

/// The answer decoded from an HTTP status and the content that came with
/// it.
pub open spec fn parsed_response(status: u16, content: Seq<char>) -> Result<
    ResponseView,
    ResponseError,
> {
    if status != 200 {
        Err(ResponseError::Status(status))
    } else {
        match json_parse(content) {
            None => Err(ResponseError::InvalidJson),
            Some(doc) => response_of(doc),
        }
    }
}

/// An answer that brings a payload text back as its blob holds the bytes
/// of that text as the blob; these decode to the payload exactly, and the
/// display is the payload as text where the payload is UTF-8.
pub proof fn lemma_response_returns_payload(doc: JsonDoc, bytes: Seq<u8>, text: Seq<char>)
    requires
        payload_bytes(text) == Some(bytes),
        response_body(doc) is Ok,
        response_blob(doc) == Ok::<Option<Seq<u8>>, ResponseError>(Some(encode_utf8(text))),
    ensures
        ({
            &&& response_of(doc) matches Ok(response)
            &&& response.lazy_load_blob == Some(encode_utf8(text))
            &&& base64_bytes(response.lazy_load_blob.unwrap()) == Some(bytes)
            &&& response.lazy_load_blob_utf8 == Some(
                if valid_utf8(bytes) {
                    Some(decode_utf8(bytes))
                } else {
                    None
                },
            )
        }),
{
    lemma_payload_round_trip(bytes, text);
}

/// Whether a result is the given one, up to the view of the answer.
pub open spec fn response_matches(
    r: Result<Response, ResponseError>,
    expected: Result<ResponseView, ResponseError>,
) -> bool {
    match r {
        Ok(response) => expected == Ok::<ResponseView, ResponseError>(response@),
        Err(e) => expected == Err::<ResponseView, ResponseError>(e),
    }
}

fn read_blob_bytes(items: &Vec<serde_json::Value>) -> (r: Result<Option<Vec<u8>>, ResponseError>)
    ensures
        match r {
            Ok(Some(b)) => blob_bytes(docs_of(items@)) == Ok::<Option<Seq<u8>>, ResponseError>(
                Some(b@),
            ),
            Ok(None) => false,
            Err(e) => blob_bytes(docs_of(items@)) == Err::<Option<Seq<u8>>, ResponseError>(e),
        },
{
    match bytes_of_values(items) {
        Some(bytes) => Ok(Some(bytes)),
        None => Err(ResponseError::BlobFormat),
    }
}

fn read_body(doc: &serde_json::Value) -> (r: Result<String, ResponseError>)
    ensures
        match r {
            Ok(s) => response_body(value_doc(*doc)) == Ok::<Seq<char>, ResponseError>(s@),
            Err(e) => response_body(value_doc(*doc)) == Err::<Seq<char>, ResponseError>(e),
        },
{
    match member(doc, "body") {
        None => Err(ResponseError::MissingBody),
        Some(body) => match body.as_array() {
            None => Err(ResponseError::BodyNotBytes),
            Some(items) => match bytes_of_values(items) {
                None => Err(ResponseError::BodyNotBytes),
                Some(bytes) => match text_of_bytes(bytes) {
                    Some(text) => Ok(text),
                    None => Err(ResponseError::BodyNotUtf8),
                },
            },
        },
    }
}

fn read_blob(doc: &serde_json::Value) -> (r: Result<Option<Vec<u8>>, ResponseError>)
    ensures
        match r {
            Ok(Some(b)) => response_blob(value_doc(*doc)) == Ok::<Option<Seq<u8>>, ResponseError>(
                Some(b@),
            ),
            Ok(None) => response_blob(value_doc(*doc)) == Ok::<Option<Seq<u8>>, ResponseError>(
                None,
            ),
            Err(e) => response_blob(value_doc(*doc)) == Err::<Option<Seq<u8>>, ResponseError>(e),
        },
{
    match member(doc, "lazy_load_blob") {
        None => Ok(None),
        Some(blob) => {
            if blob.is_null() {
                Ok(None)
            } else {
                match blob.as_array() {
                    Some(items) => read_blob_bytes(items),
                    None => match blob.as_object() {
                        Some(_) => match member(blob, "bytes") {
                            Some(inner) => match inner.as_array() {
                                Some(items) => read_blob_bytes(items),
                                None => Err(ResponseError::BlobFormat),
                            },
                            None => Err(ResponseError::BlobFormat),
                        },
                        None => Err(ResponseError::BlobNotBytes),
                    },
                }
            }
        },
    }
}

fn display_blob(blob: &Option<Vec<u8>>) -> (r: Option<Option<String>>)
    ensures
        match r {
            Some(Some(s)) => blob_display(bytes_view_of(*blob)) == Some(Some(s@)),
            Some(None) => blob_display(bytes_view_of(*blob)) == Some(None::<Seq<char>>),
            None => blob_display(bytes_view_of(*blob)) is None,
        },
{
    match blob {
        Some(bytes) => match base64_decode(bytes.as_slice()) {
            Some(decoded) => Some(text_of_bytes(decoded)),
            None => None,
        },
        None => None,
    }
}

/// The view of optional owned bytes.
pub open spec fn bytes_view_of(bytes: Option<Vec<u8>>) -> Option<Seq<u8>> {
    match bytes {
        Some(b) => Some(b@),
        None => None,
    }
}

/// Decodes the answer that a document holds.
pub fn response_from_document(doc: &serde_json::Value) -> (r: Result<Response, ResponseError>)
    ensures
        response_matches(r, response_of(value_doc(*doc))),
{
    let body = match read_body(doc) {
        Ok(body) => body,
        Err(e) => {
            return Err(e);
        },
    };
    let blob = match read_blob(doc) {
        Ok(blob) => blob,
        Err(e) => {
            return Err(e);
        },
    };
    let display = display_blob(&blob);
    Ok(Response { body, lazy_load_blob_utf8: display, lazy_load_blob: blob })
}

/// Decodes the answer of a node from the HTTP status and the content that
/// came with it. Fails unless the status is 200 and the content is a JSON
/// document that holds an answer.
pub fn parse_response(status: u16, content: &str) -> (r: Result<Response, ResponseError>)
    ensures
        response_matches(r, parsed_response(status, content@)),
{
    if status != 200 {
        return Err(ResponseError::Status(status));
    }
    match parse_document(content) {
        Ok(doc) => response_from_document(&doc),
        Err(_) => Err(ResponseError::InvalidJson),
    }
}

/// Posting a message to the address of a node: the effect that does it.
pub fn send_request(url: &str, json_data: serde_json::Value) -> (effect: Effect)
    ensures
        effect@ == (EffectView::Post { url: endpoint_url(url@), message: value_doc(json_data) }),
{
    Effect::Post { url: normalize_url(url), message: json_data }
}

/// Tells whether so many bytes can be written as base64 text.
pub fn fits_base64(len: usize) -> (r: bool)
    ensures
        r == (base64_len(len as nat) <= usize::MAX),
{
    let chunks: usize = len / 3;
    if chunks > usize::MAX / 4 {
        false
    } else if len % 3 == 0 {
        true
    } else {
        chunks * 4 <= usize::MAX - 4
    }
}

/// A message to a node and where to post it.
#[derive(Debug, PartialEq, Eq)]
pub struct Request {
    /// The address of the node.
    pub url: String,
    /// The process that the message is for.
    pub process: String,
    /// The seconds to wait for an answer; `None` where none is awaited.
    pub expects_response: Option<u64>,
    /// The body of the message.
    pub body: String,
    /// The node that the message is for; `None` for the node posted to.
    pub node: Option<String>,
}

/// What a [`Request`] holds.
pub struct RequestView {
    pub url: Seq<char>,
    pub process: Seq<char>,
    pub expects_response: Option<u64>,
    pub body: Seq<char>,
    pub node: Option<Seq<char>>,
}

impl View for Request {
    type V = RequestView;

    open spec fn view(&self) -> RequestView {
        RequestView {
            url: self.url@,
            process: self.process@,
            expects_response: self.expects_response,
            body: self.body@,
            node: self.node.deep_view(),
        }
    }
}

impl RequestView {
    /// The effect that posts the request with a payload.
    pub open spec fn post(self, payload: Option<Seq<u8>>) -> EffectView {
        EffectView::Post {
            url: endpoint_url(self.url),
            message: envelope_doc(
                self.process,
                self.expects_response,
                self.body,
                self.node,
                payload_text(payload, None),
            ),
        }
    }
}

impl Request {
    /// The effect that posts the request with a payload.
    pub fn post(&self, payload: Option<&[u8]>) -> (effect: Effect)
        requires
            payload matches Some(b) ==> base64_len(b@.len()) <= usize::MAX,
        ensures
            effect@ == self@.post(bytes_view(payload)),
    {
        let node: Option<&str> = match &self.node {
            Some(n) => Some(n.as_str()),
            None => None,
        };
        let message = match payload {
            Some(bytes) => {
                let data = encode_payload(bytes);
                make_envelope(
                    self.process.as_str(),
                    self.expects_response,
                    self.body.as_str(),
                    node,
                    Some(data.as_str()),
                )
            },
            None => make_envelope(
                self.process.as_str(),
                self.expects_response,
                self.body.as_str(),
                node,
                None,
            ),
        };
        send_request(self.url.as_str(), message)
    }
}

/// How far an exchange has come.
#[derive(Clone, Copy, Debug, PartialEq, Eq, Structural)]
pub enum ExchangePhase {
    /// The file that holds the payload is being read.
    ReadingFile,
    /// The message is being posted.
    Posting,
    /// The content of the answer is being read.
    ReadingReply,
    /// The exchange is over.
    Finished,
}

/// One message to a node and the answer to it, as a state machine.
#[derive(Debug, PartialEq, Eq)]
pub struct Exchange {
    pub request: Request,
    /// Whether the answer is decoded; otherwise only its status is looked
    /// at.
    pub decode: bool,
    pub phase: ExchangePhase,
}

/// What an [`Exchange`] holds.
pub struct ExchangeView {
    pub request: RequestView,
    pub decode: bool,
    pub phase: ExchangePhase,
}

impl View for Exchange {
    type V = ExchangeView;

    open spec fn view(&self) -> ExchangeView {
        ExchangeView { request: self.request@, decode: self.decode, phase: self.phase }
    }
}

/// What an exchange does next: it asks for an effect, or it ends, with the
/// decoded answer where one was asked for.
#[derive(Debug, PartialEq, Eq)]
pub enum ExchangeStep {
    Perform(Effect),
    Finish(Result<Option<Response>, RunError>),
}

/// What an [`ExchangeStep`] holds.
pub enum ExchangeStepView {
    Perform(EffectView),
    Finish(Result<Option<ResponseView>, RunErrorView>),
}

impl View for ExchangeStep {
    type V = ExchangeStepView;

    open spec fn view(&self) -> ExchangeStepView {
        match *self {
            ExchangeStep::Perform(effect) => ExchangeStepView::Perform(effect@),
            ExchangeStep::Finish(Ok(Some(response))) => ExchangeStepView::Finish(
                Ok(Some(response@)),
            ),
            ExchangeStep::Finish(Ok(None)) => ExchangeStepView::Finish(Ok(None)),
            ExchangeStep::Finish(Err(e)) => ExchangeStepView::Finish(Err(e@)),
        }
    }
}

impl ExchangeView {
    /// The exchange in another phase.
    pub open spec fn at(self, phase: ExchangePhase) -> ExchangeView {
        ExchangeView { phase, ..self }
    }

    /// The exchange ended by a failure.
    pub open spec fn fail(self, e: RunErrorView) -> (ExchangeView, ExchangeStepView) {
        (self.at(ExchangePhase::Finished), ExchangeStepView::Finish(Err(e)))
    }

    /// The exchange about to post its message with a payload, unless the
    /// payload is too large.
    pub open spec fn send(self, payload: Option<Seq<u8>>) -> (ExchangeView, ExchangeStepView) {
        if payload matches Some(b) && base64_len(b.len()) > usize::MAX {
            self.fail(RunErrorView::PayloadTooLarge)
        } else {
            (self.at(ExchangePhase::Posting), ExchangeStepView::Perform(self.request.post(payload)))
        }
    }

    /// The first step of an exchange. With both payloads given it fails
    /// before any effect; with a file, the file is read first.
    pub open spec fn start(
        request: RequestView,
        raw_bytes: Option<Seq<u8>>,
        bytes_path: Option<Seq<char>>,
        decode: bool,
    ) -> (ExchangeView, ExchangeStepView) {
        let fresh = ExchangeView { request, decode, phase: ExchangePhase::Finished };
        if payload_conflict(raw_bytes is Some, bytes_path is Some) {
            fresh.fail(RunErrorView::Message(MessageError::PayloadConflict))
        } else {
            match bytes_path {
                Some(path) => (
                    fresh.at(ExchangePhase::ReadingFile),
                    ExchangeStepView::Perform(EffectView::ReadFile { path }),
                ),
                None => fresh.send(raw_bytes),
            }
        }
    }

    /// The step that an event leads to.
    pub open spec fn next(self, event: Event) -> (ExchangeView, ExchangeStepView) {
        match self.phase {
            ExchangePhase::ReadingFile => match event {
                Event::FileRead(bytes) => self.send(Some(bytes@)),
                Event::Failed(m) => self.fail(RunErrorView::Failed(m@)),
                _ => self.fail(RunErrorView::Unexpected),
            },
            ExchangePhase::Posting => match event {
                Event::Answered { status } => if status != 200 {
                    self.fail(RunErrorView::Response(ResponseError::Status(status)))
                } else if self.decode {
                    (
                        self.at(ExchangePhase::ReadingReply),
                        ExchangeStepView::Perform(EffectView::ReadReply),
                    )
                } else {
                    (self.at(ExchangePhase::Finished), ExchangeStepView::Finish(Ok(None)))
                },
                Event::Failed(m) => self.fail(RunErrorView::Failed(m@)),
                _ => self.fail(RunErrorView::Unexpected),
            },
            ExchangePhase::ReadingReply => match event {
                Event::ReplyRead(text) => match parsed_response(200, text@) {
                    Ok(response) => (
                        self.at(ExchangePhase::Finished),
                        ExchangeStepView::Finish(Ok(Some(response))),
                    ),
                    Err(e) => self.fail(RunErrorView::Response(e)),
                },
                Event::Failed(m) => self.fail(RunErrorView::Failed(m@)),
                _ => self.fail(RunErrorView::Unexpected),
            },
            ExchangePhase::Finished => self.fail(RunErrorView::Unexpected),
        }
    }
}

impl Exchange {
    fn fail(self, e: RunError) -> (r: (Exchange, ExchangeStep))
        ensures
            (r.0@, r.1@) == self@.fail(e@),
    {
        (
            Exchange { request: self.request, decode: self.decode, phase: ExchangePhase::Finished },
            ExchangeStep::Finish(Err(e)),
        )
    }

    fn send(self, payload: Option<&[u8]>) -> (r: (Exchange, ExchangeStep))
        ensures
            (r.0@, r.1@) == self@.send(bytes_view(payload)),
    {
        let fits = match payload {
            Some(bytes) => fits_base64(bytes.len()),
            None => true,
        };
        if !fits {
            self.fail(RunError::PayloadTooLarge)
        } else {
            let effect = self.request.post(payload);
            (
                Exchange {
                    request: self.request,
                    decode: self.decode,
                    phase: ExchangePhase::Posting,
                },
                ExchangeStep::Perform(effect),
            )
        }
    }

    /// Begins an exchange: see [`ExchangeView::start`].
    pub fn start(
        request: Request,
        raw_bytes: Option<Vec<u8>>,
        bytes_path: Option<String>,
        decode: bool,
    ) -> (r: (Exchange, ExchangeStep))
        ensures
            (r.0@, r.1@) == ExchangeView::start(
                request@,
                bytes_view_of(raw_bytes),
                bytes_path.deep_view(),
                decode,
            ),
    {
        let fresh = Exchange { request, decode, phase: ExchangePhase::Finished };
        if raw_bytes.is_some() && bytes_path.is_some() {
            return fresh.fail(RunError::Message(MessageError::PayloadConflict));
        }
        match bytes_path {
            Some(path) => (
                Exchange {
                    request: fresh.request,
                    decode: fresh.decode,
                    phase: ExchangePhase::ReadingFile,
                },
                ExchangeStep::Perform(Effect::ReadFile { path }),
            ),
            None => match &raw_bytes {
                Some(bytes) => fresh.send(Some(bytes.as_slice())),
                None => fresh.send(None),
            },
        }
    }

    /// Takes the event that answers the effect asked for last: see
    /// [`ExchangeView::next`].
    pub fn step(self, event: Event) -> (r: (Exchange, ExchangeStep))
        ensures
            (r.0@, r.1@) == self@.next(event),
    {
        match self.phase {
            ExchangePhase::ReadingFile => match event {
                Event::FileRead(bytes) => self.send(Some(bytes.as_slice())),
                Event::Failed(m) => self.fail(RunError::Failed(m)),
                _ => self.fail(RunError::Unexpected),
            },
            ExchangePhase::Posting => match event {
                Event::Answered { status } => {
                    if status != 200 {
                        self.fail(RunError::Response(ResponseError::Status(status)))
                    } else if self.decode {
                        (
                            Exchange {
                                request: self.request,
                                decode: self.decode,
                                phase: ExchangePhase::ReadingReply,
                            },
                            ExchangeStep::Perform(Effect::ReadReply),
                        )
                    } else {
                        (
                            Exchange {
                                request: self.request,
                                decode: self.decode,
                                phase: ExchangePhase::Finished,
                            },
                            ExchangeStep::Finish(Ok(None)),
                        )
                    }
                },
                Event::Failed(m) => self.fail(RunError::Failed(m)),
                _ => self.fail(RunError::Unexpected),
            },
            ExchangePhase::ReadingReply => match event {
                Event::ReplyRead(text) => match parse_response(200, text.as_str()) {
                    Ok(response) => (
                        Exchange {
                            request: self.request,
                            decode: self.decode,
                            phase: ExchangePhase::Finished,
                        },
                        ExchangeStep::Finish(Ok(Some(response))),
                    ),
                    Err(e) => self.fail(RunError::Response(e)),
                },
                Event::Failed(m) => self.fail(RunError::Failed(m)),
                _ => self.fail(RunError::Unexpected),
            },
            ExchangePhase::Finished => self.fail(RunError::Unexpected),
        }
    }
}

/// An exchange fails for its payload before any effect if and only if both
/// payloads are given; without any payload its first step is the post of a
/// message without payload.
pub proof fn lemma_exchange_start(
    request: RequestView,
    raw_bytes: Option<Seq<u8>>,
    bytes_path: Option<Seq<char>>,
    decode: bool,
)
    ensures
        ExchangeView::start(request, raw_bytes, bytes_path, decode).1 == ExchangeStepView::Finish(
            Err(RunErrorView::Message(MessageError::PayloadConflict)),
        ) <==> raw_bytes is Some && bytes_path is Some,
        raw_bytes is None && bytes_path is None ==> ExchangeView::start(
            request,
            raw_bytes,
            bytes_path,
            decode,
        ).1 == ExchangeStepView::Perform(request.post(None)),
{
}

/// Sends a message to a process of a node and, where an answer is awaited,
/// decodes it; otherwise only the status of the answer is looked at. The
/// payload, if any, is read from the file at `bytes_path`.
pub fn execute(
    url: &str,
    process: &str,
    expects_response: Option<u64>,
    body: &str,
    node: Option<&str>,
    bytes_path: Option<&str>,
) -> (r: (Exchange, ExchangeStep))
    ensures
        (r.0@, r.1@) == ExchangeView::start(
            RequestView {
                url: url@,
                process: process@,
                expects_response,
                body: body@,
                node: text_view(node),
            },
            None,
            text_view(bytes_path),
            expects_response is Some,
        ),
{
    let request = Request {
        url: String::from_str(url),
        process: String::from_str(process),
        expects_response,
        body: String::from_str(body),
        node: match node {
            Some(n) => Some(String::from_str(n)),
            None => None,
        },
    };
    let path = match bytes_path {
        Some(p) => Some(String::from_str(p)),
        None => None,
    };
    Exchange::start(request, None, path, expects_response.is_some())
}

} // verus!
