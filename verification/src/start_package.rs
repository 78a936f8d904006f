//! Publishing a package to a node and installing it there: the directory
//! `pkg` of the package is packed into an archive, the archive is handed to
//! the app store of the node, and the package is installed.

use crate::inject_message::{
    base64_len, envelope_doc, make_message, payload_text, text_view, Exchange, ExchangeStep,
    ExchangeStepView, ExchangeView, MessageError, Request, RequestView, ResponseError,
};
use crate::json::{
    bool_value, document_text, insert_member, json_parse, json_text, member, new_members,
    object_value, parse_document, text_member, text_value, value_doc, JsonDoc,
};
use crate::machine::{
    event_failure, failure_of, result_view, Effect, EffectView, Event, PathKind, RunError,
    RunErrorView, Step, StepView,
};
use crate::text::{
    join_path, joined_path, parent_of, parent_path, path_with_extension, same_text,
    text_of_bytes, with_extension,
};
use vstd::prelude::*;
use vstd::string::*;
use vstd::utf8::*;

verus! {

/// A package by its name and the node of its publisher, as a document.
pub open spec fn package_doc(package_name: Seq<char>, publisher_node: Seq<char>) -> JsonDoc {
    JsonDoc::Object(
        Map::<Seq<char>, JsonDoc>::empty().insert(
            "package_name"@,
            JsonDoc::Text(package_name),
        ).insert("publisher_node"@, JsonDoc::Text(publisher_node)),
    )
}

fn package_value(package_name: &str, publisher_node: &str) -> (v: serde_json::Value)
    ensures
        value_doc(v) == package_doc(package_name@, publisher_node@),
{
    let mut members = new_members();
    insert_member(&mut members, "package_name", text_value(package_name));
    insert_member(&mut members, "publisher_node", text_value(publisher_node));
    object_value(members)
}

/// The request to the app store that hands it a new package, to be
/// mirrored.
pub open spec fn new_package_doc(package_name: Seq<char>, publisher_node: Seq<char>) -> JsonDoc {
    JsonDoc::Object(
        Map::<Seq<char>, JsonDoc>::empty().insert(
            "NewPackage"@,
            JsonDoc::Object(
                Map::<Seq<char>, JsonDoc>::empty().insert(
                    "package"@,
                    package_doc(package_name, publisher_node),
                ).insert("mirror"@, JsonDoc::Bool(true)),
            ),
        ),
    )
}

/// A request to the app store about a package: the kind of the request
/// with the package under it.
pub open spec fn interaction_doc(
    request_type: Seq<char>,
    package_name: Seq<char>,
    publisher_node: Seq<char>,
) -> JsonDoc {
    JsonDoc::Object(
        Map::<Seq<char>, JsonDoc>::empty().insert(
            request_type,
            package_doc(package_name, publisher_node),
        ),
    )
}

/// The body of the message that hands the app store a new package.
pub fn new_package_body(package_name: &str, publisher_node: &str) -> (r: String)
    ensures
        r@ == json_text(new_package_doc(package_name@, publisher_node@)),
{
    let mut inner = new_members();
    insert_member(&mut inner, "package", package_value(package_name, publisher_node));
    insert_member(&mut inner, "mirror", bool_value(true));
    let mut outer = new_members();
    insert_member(&mut outer, "NewPackage", object_value(inner));
    let doc = object_value(outer);
    document_text(&doc)
}

/// The body of a message to the app store about a package.
pub fn interaction_body(request_type: &str, package_name: &str, publisher_node: &str) -> (r:
    String)
    ensures
        r@ == json_text(interaction_doc(request_type@, package_name@, publisher_node@)),
{
    let mut outer = new_members();
    insert_member(&mut outer, request_type, package_value(package_name, publisher_node));
    let doc = object_value(outer);
    document_text(&doc)
}

/// The message that hands the app store of a node a new package, with the
/// bytes of its archive as the payload. The app store is to answer within
/// 15 seconds.
pub fn new_package(
    node: Option<&str>,
    package_name: &str,
    publisher_node: &str,
    archive: &[u8],
) -> (r: Result<serde_json::Value, MessageError>)
    requires
        base64_len(archive@.len()) <= usize::MAX,
    ensures
        r matches Ok(v) && value_doc(v) == envelope_doc(
            "main:app_store:sys"@,
            Some(15u64),
            json_text(new_package_doc(package_name@, publisher_node@)),
            text_view(node),
            payload_text(None, Some(archive@)),
        ),
{
    let body = new_package_body(package_name, publisher_node);
    make_message("main:app_store:sys", Some(15), body.as_str(), node, None, Some(archive))
}

/// A message to the app store of a node about a package, such as the
/// request to install it. The app store is to answer within 15 seconds.
pub fn interact_with_package(
    request_type: &str,
    node: Option<&str>,
    package_name: &str,
    publisher_node: &str,
) -> (r: Result<serde_json::Value, MessageError>)
    ensures
        r matches Ok(v) && value_doc(v) == envelope_doc(
            "main:app_store:sys"@,
            Some(15u64),
            json_text(interaction_doc(request_type@, package_name@, publisher_node@)),
            text_view(node),
            None,
        ),
{
    let body = interaction_body(request_type, package_name, publisher_node);
    make_message("main:app_store:sys", Some(15), body.as_str(), node, None, None)
}

/// What goes into the archive for an entry of the directory.
#[derive(Clone, Copy, Debug, PartialEq, Eq, Structural)]
pub enum ArchiveEntry {
    /// A file, with its content.
    File,
    /// A directory.
    Directory,
    /// Nothing: the entry is the directory that is packed.
    Skip,
}

/// Tells what goes into the archive for an entry, of which `name` is the
/// path below the directory that is packed: files go in with their
/// content, directories by name, and the directory itself does not.
pub fn archive_entry(is_file: bool, name: &str) -> (r: ArchiveEntry)
    ensures
        r == if is_file {
            ArchiveEntry::File
        } else if name@.len() != 0 {
            ArchiveEntry::Directory
        } else {
            ArchiveEntry::Skip
        },
{
    if is_file {
        ArchiveEntry::File
    } else if !name.is_empty() {
        ArchiveEntry::Directory
    } else {
        ArchiveEntry::Skip
    }
}

/// The name of a package and its publisher, as its metadata give them.
#[derive(Debug, PartialEq, Eq)]
pub struct PackageId {
    pub package: String,
    pub publisher: String,
}

/// The name and the publisher that a document of metadata gives: its
/// members `package` and `publisher`, which are texts.
pub open spec fn metadata_in(doc: JsonDoc) -> Option<(Seq<char>, Seq<char>)> {
    match (doc.member("package"@), doc.member("publisher"@)) {
        (Some(JsonDoc::Text(package)), Some(JsonDoc::Text(publisher))) => Some(
            (package, publisher),
        ),
        _ => None,
    }
}

/// The name and the publisher that the metadata of a package give: those
/// in the document that the bytes hold as UTF-8 text.
pub open spec fn metadata_of(bytes: Seq<u8>) -> Option<(Seq<char>, Seq<char>)> {
    if !valid_utf8(bytes) {
        None
    } else {
        match json_parse(decode_utf8(bytes)) {
            None => None,
            Some(doc) => metadata_in(doc),
        }
    }
}

/// The view of an optional name and publisher.
pub open spec fn id_view(id: Option<PackageId>) -> Option<(Seq<char>, Seq<char>)> {
    match id {
        Some(id) => Some((id.package@, id.publisher@)),
        None => None,
    }
}

/// Computes [`metadata_in`].
pub fn metadata_from_document(doc: &serde_json::Value) -> (r: Option<PackageId>)
    ensures
        id_view(r) == metadata_in(value_doc(*doc)),
{
    match (text_member(doc, "package"), text_member(doc, "publisher")) {
        (Some(package), Some(publisher)) => Some(PackageId { package, publisher }),
        _ => None,
    }
}

/// Computes [`metadata_of`].
pub fn read_metadata(bytes: Vec<u8>) -> (r: Option<PackageId>)
    ensures
        id_view(r) == metadata_of(bytes@),
{
    match text_of_bytes(bytes) {
        None => None,
        Some(text) => match parse_document(text.as_str()) {
            Err(_) => None,
            Ok(doc) => metadata_from_document(&doc),
        },
    }
}

/// Whether a document is the answer of the app store that says `Success`
/// under `key`.
pub open spec fn accepted(doc: JsonDoc, key: Seq<char>) -> bool {
    doc.member(key) == Some(JsonDoc::Text("Success"@))
}

/// The failure that an answer of the app store means that does not say
/// `Success`: the answer is attached as compact text.
pub open spec fn store_failure(doc: JsonDoc, installing: bool) -> RunErrorView {
    if installing {
        RunErrorView::InstallFailed(json_text(doc))
    } else {
        RunErrorView::PackageRejected(json_text(doc))
    }
}

/// The result that an answer of the app store means, given as a document.
pub open spec fn store_result_of(doc: JsonDoc, key: Seq<char>, installing: bool) -> Result<
    (),
    RunErrorView,
> {
    if accepted(doc, key) {
        Ok(())
    } else {
        Err(store_failure(doc, installing))
    }
}

/// The result that an answer of the app store means, given as the body of
/// its answer. A body that is no JSON document is a failure to decode.
pub open spec fn store_result(body: Seq<char>, key: Seq<char>, installing: bool) -> Result<
    (),
    RunErrorView,
> {
    match json_parse(body) {
        None => Err(RunErrorView::Response(ResponseError::InvalidJson)),
        Some(doc) => store_result_of(doc, key, installing),
    }
}

/// Computes [`store_result_of`].
pub fn check_store_document(doc: &serde_json::Value, key: &str, installing: bool) -> (r: Result<
    (),
    RunError,
>)
    ensures
        result_view(r) == store_result_of(value_doc(*doc), key@, installing),
{
    let accepted = match member(doc, key) {
        Some(v) => match v.as_str() {
            Some(t) => same_text(t, "Success"),
            None => false,
        },
        None => false,
    };
    if accepted {
        Ok(())
    } else if installing {
        Err(RunError::InstallFailed(document_text(doc)))
    } else {
        Err(RunError::PackageRejected(document_text(doc)))
    }
}

/// Computes [`store_result`].
pub fn check_store_answer(body: &str, key: &str, installing: bool) -> (r: Result<(), RunError>)
    ensures
        result_view(r) == store_result(body@, key@, installing),
{
    match parse_document(body) {
        Err(_) => Err(RunError::Response(ResponseError::InvalidJson)),
        Ok(doc) => check_store_document(&doc, key, installing),
    }
}

/// A request to the app store of the node at an address.
pub open spec fn store_request(url: Seq<char>, body: Seq<char>) -> RequestView {
    RequestView {
        url,
        process: "main:app_store:sys"@,
        expects_response: Some(15u64),
        body,
        node: None,
    }
}

fn make_store_request(url: &str, body: String) -> (r: Request)
    ensures
        r@ == store_request(url@, body@),
{
    Request {
        url: String::from_str(url),
        process: String::from_str("main:app_store:sys"),
        expects_response: Some(15),
        body,
        node: None,
    }
}

/// Where the archive of a package is put: in the directory `target` beside
/// the directory `pkg`, under the name of the package and its publisher,
/// with the extension `zip`.
pub open spec fn archive_path(target: Seq<char>, package: Seq<char>, publisher: Seq<char>) -> Seq<
    char,
> {
    path_with_extension(joined_path(target, package + ":"@ + publisher), "zip"@)
}

/// How far the installation has come.
#[derive(Debug, PartialEq, Eq)]
pub enum InstallPhase {
    /// The directory `pkg` is being looked for.
    Inspecting,
    /// The directory `pkg` is being resolved.
    Resolving,
    /// The metadata are being read.
    ReadingMetadata,
    /// The directory for the archive is being created.
    CreatingTarget,
    /// The directory `pkg` is being packed.
    Archiving,
    /// The archive is being handed to the app store.
    Publishing { exchange: Exchange },
    /// The app store is being asked to install the package.
    Installing { exchange: Exchange },
    /// The installation is over.
    Finished,
}

/// What an [`InstallPhase`] holds.
pub enum InstallPhaseView {
    Inspecting,
    Resolving,
    ReadingMetadata,
    CreatingTarget,
    Archiving,
    Publishing { exchange: ExchangeView },
    Installing { exchange: ExchangeView },
    Finished,
}

impl View for InstallPhase {
    type V = InstallPhaseView;

    open spec fn view(&self) -> InstallPhaseView {
        match *self {
            InstallPhase::Inspecting => InstallPhaseView::Inspecting,
            InstallPhase::Resolving => InstallPhaseView::Resolving,
            InstallPhase::ReadingMetadata => InstallPhaseView::ReadingMetadata,
            InstallPhase::CreatingTarget => InstallPhaseView::CreatingTarget,
            InstallPhase::Archiving => InstallPhaseView::Archiving,
            InstallPhase::Publishing { exchange } => InstallPhaseView::Publishing {
                exchange: exchange@,
            },
            InstallPhase::Installing { exchange } => InstallPhaseView::Installing {
                exchange: exchange@,
            },
            InstallPhase::Finished => InstallPhaseView::Finished,
        }
    }
}

/// What is known of the package that is being installed.
#[derive(Debug, PartialEq, Eq)]
pub struct InstallPlan {
    /// The directory of the package, which holds the directory `pkg`.
    pub package_dir: String,
    /// The address of the node.
    pub url: String,
    /// The canonical path of the directory `pkg`, once it is known.
    pub pkg_dir: String,
    /// The name of the package, once it is known.
    pub package: String,
    /// The publisher of the package, once it is known.
    pub publisher: String,
    /// The directory for the archive, once it is known.
    pub target: String,
}

/// What an [`InstallPlan`] holds.
pub struct InstallPlanView {
    pub package_dir: Seq<char>,
    pub url: Seq<char>,
    pub pkg_dir: Seq<char>,
    pub package: Seq<char>,
    pub publisher: Seq<char>,
    pub target: Seq<char>,
}

impl View for InstallPlan {
    type V = InstallPlanView;

    open spec fn view(&self) -> InstallPlanView {
        InstallPlanView {
            package_dir: self.package_dir@,
            url: self.url@,
            pkg_dir: self.pkg_dir@,
            package: self.package@,
            publisher: self.publisher@,
            target: self.target@,
        }
    }
}

/// The installation of a package, as a state machine.
#[derive(Debug, PartialEq, Eq)]
pub struct PackageInstall {
    pub plan: InstallPlan,
    pub phase: InstallPhase,
}

/// What a [`PackageInstall`] holds.
pub struct PackageInstallView {
    pub plan: InstallPlanView,
    pub phase: InstallPhaseView,
}

impl View for PackageInstall {
    type V = PackageInstallView;

    open spec fn view(&self) -> PackageInstallView {
        PackageInstallView { plan: self.plan@, phase: self.phase@ }
    }
}

impl InstallPlanView {
    /// The installation over, with a result.
    pub open spec fn end(self, result: Result<(), RunErrorView>) -> (PackageInstallView, StepView) {
        (
            PackageInstallView { plan: self, phase: InstallPhaseView::Finished },
            StepView::Finish(result),
        )
    }

    /// The installation in a phase, asking for an effect.
    pub open spec fn ask(self, phase: InstallPhaseView, effect: EffectView) -> (
        PackageInstallView,
        StepView,
    ) {
        (PackageInstallView { plan: self, phase }, StepView::Perform(effect))
    }

    /// The archive of the package.
    pub open spec fn archive(self) -> Seq<char> {
        archive_path(self.target, self.package, self.publisher)
    }

    /// The installation goes on with what the exchange that begins has to
    /// say.
    pub open spec fn follow(self, installing: bool, began: (ExchangeView, ExchangeStepView)) -> (
        PackageInstallView,
        StepView,
    ) {
        match began.1 {
            ExchangeStepView::Perform(effect) => self.ask(
                if installing {
                    InstallPhaseView::Installing { exchange: began.0 }
                } else {
                    InstallPhaseView::Publishing { exchange: began.0 }
                },
                effect,
            ),
            ExchangeStepView::Finish(Ok(_)) => self.end(Err(RunErrorView::Unexpected)),
            ExchangeStepView::Finish(Err(e)) => self.end(Err(e)),
        }
    }

    /// The archive is handed to the app store: it is read, and posted as
    /// the payload of the message about the new package.
    pub open spec fn publish(self) -> (PackageInstallView, StepView) {
        self.follow(
            false,
            ExchangeView::start(
                store_request(self.url, json_text(new_package_doc(self.package, self.publisher))),
                None,
                Some(self.archive()),
                true,
            ),
        )
    }

    /// The app store is asked to install the package.
    pub open spec fn install(self) -> (PackageInstallView, StepView) {
        self.follow(
            true,
            ExchangeView::start(
                store_request(
                    self.url,
                    json_text(interaction_doc("Install"@, self.package, self.publisher)),
                ),
                None,
                None,
                true,
            ),
        )
    }

    /// The first step: the directory `pkg` of the package is looked for.
    pub open spec fn start(package_dir: Seq<char>, url: Seq<char>) -> (
        PackageInstallView,
        StepView,
    ) {
        InstallPlanView {
            package_dir,
            url,
            pkg_dir: Seq::empty(),
            package: Seq::empty(),
            publisher: Seq::empty(),
            target: Seq::empty(),
        }.ask(
            InstallPhaseView::Inspecting,
            EffectView::Inspect { path: joined_path(package_dir, "pkg"@) },
        )
    }

    /// The step that an event leads to. The package must hold a directory
    /// `pkg` with metadata that name it and its publisher. The app store
    /// must answer `Success` twice: when it is handed the archive, and
    /// when it is asked to install the package.
    pub open spec fn next(self, phase: InstallPhaseView, event: Event) -> (
        PackageInstallView,
        StepView,
    ) {
        match phase {
            InstallPhaseView::Inspecting => match event {
                Event::Inspected(PathKind::Missing) => self.end(
                    Err(RunErrorView::MissingPackageDirectory(self.package_dir)),
                ),
                Event::Inspected(_) => self.ask(
                    InstallPhaseView::Resolving,
                    EffectView::Canonicalize { path: joined_path(self.package_dir, "pkg"@) },
                ),
                _ => self.end(Err(failure_of(event))),
            },
            InstallPhaseView::Resolving => match event {
                Event::Resolved(path) => InstallPlanView { pkg_dir: path@, ..self }.ask(
                    InstallPhaseView::ReadingMetadata,
                    EffectView::ReadFile { path: joined_path(path@, "metadata.json"@) },
                ),
                _ => self.end(Err(failure_of(event))),
            },
            InstallPhaseView::ReadingMetadata => match event {
                Event::FileRead(bytes) => match (metadata_of(bytes@), parent_of(self.pkg_dir)) {
                    (Some((package, publisher)), Some(parent)) => InstallPlanView {
                        package,
                        publisher,
                        target: joined_path(parent, "target"@),
                        ..self
                    }.ask(
                        InstallPhaseView::CreatingTarget,
                        EffectView::CreateDirectory { path: joined_path(parent, "target"@) },
                    ),
                    _ => self.end(Err(RunErrorView::InvalidMetadata)),
                },
                _ => self.end(Err(failure_of(event))),
            },
            InstallPhaseView::CreatingTarget => match event {
                Event::Completed => self.ask(
                    InstallPhaseView::Archiving,
                    EffectView::Archive { directory: self.pkg_dir, archive: self.archive() },
                ),
                _ => self.end(Err(failure_of(event))),
            },
            InstallPhaseView::Archiving => match event {
                Event::Completed => self.publish(),
                _ => self.end(Err(failure_of(event))),
            },
            InstallPhaseView::Publishing { exchange } => {
                let (moved, out) = exchange.next(event);
                match out {
                    ExchangeStepView::Perform(effect) => self.ask(
                        InstallPhaseView::Publishing { exchange: moved },
                        effect,
                    ),
                    ExchangeStepView::Finish(Ok(Some(response))) => match store_result(
                        response.body,
                        "NewPackageResponse"@,
                        false,
                    ) {
                        Ok(()) => self.install(),
                        Err(e) => self.end(Err(e)),
                    },
                    ExchangeStepView::Finish(Ok(None)) => self.end(Err(RunErrorView::Unexpected)),
                    ExchangeStepView::Finish(Err(e)) => self.end(Err(e)),
                }
            },
            InstallPhaseView::Installing { exchange } => {
                let (moved, out) = exchange.next(event);
                match out {
                    ExchangeStepView::Perform(effect) => self.ask(
                        InstallPhaseView::Installing { exchange: moved },
                        effect,
                    ),
                    ExchangeStepView::Finish(Ok(Some(response))) => self.end(
                        store_result(response.body, "InstallResponse"@, true),
                    ),
                    ExchangeStepView::Finish(Ok(None)) => self.end(Err(RunErrorView::Unexpected)),
                    ExchangeStepView::Finish(Err(e)) => self.end(Err(e)),
                }
            },
            InstallPhaseView::Finished => self.end(Err(RunErrorView::Unexpected)),
        }
    }
}

impl InstallPlan {
    fn end(self, result: Result<(), RunError>) -> (r: (PackageInstall, Step))
        ensures
            (r.0@, r.1@) == self@.end(result_view(result)),
    {
        (PackageInstall { plan: self, phase: InstallPhase::Finished }, Step::Finish(result))
    }

    fn ask(self, phase: InstallPhase, effect: Effect) -> (r: (PackageInstall, Step))
        ensures
            (r.0@, r.1@) == self@.ask(phase@, effect@),
    {
        (PackageInstall { plan: self, phase }, Step::Perform(effect))
    }

    fn archive(&self) -> (r: String)
        ensures
            r@ == self@.archive(),
    {
        let name = self.package.clone().concat(":").concat(self.publisher.as_str());
        let place = join_path(self.target.as_str(), name.as_str());
        proof {
            reveal_strlit("zip");
        }
        with_extension(place.as_str(), "zip")
    }

    fn follow(self, installing: bool, began: (Exchange, ExchangeStep)) -> (r: (
        PackageInstall,
        Step,
    ))
        ensures
            (r.0@, r.1@) == self@.follow(installing, (began.0@, began.1@)),
    {
        let (exchange, first) = began;
        match first {
            ExchangeStep::Perform(effect) => {
                if installing {
                    self.ask(InstallPhase::Installing { exchange }, effect)
                } else {
                    self.ask(InstallPhase::Publishing { exchange }, effect)
                }
            },
            ExchangeStep::Finish(Ok(_)) => self.end(Err(RunError::Unexpected)),
            ExchangeStep::Finish(Err(e)) => self.end(Err(e)),
        }
    }

    fn publish(self) -> (r: (PackageInstall, Step))
        ensures
            (r.0@, r.1@) == self@.publish(),
    {
        let body = new_package_body(self.package.as_str(), self.publisher.as_str());
        let request = make_store_request(self.url.as_str(), body);
        let archive = self.archive();
        let began = Exchange::start(request, None, Some(archive), true);
        self.follow(false, began)
    }

    fn install(self) -> (r: (PackageInstall, Step))
        ensures
            (r.0@, r.1@) == self@.install(),
    {
        let body = interaction_body("Install", self.package.as_str(), self.publisher.as_str());
        let request = make_store_request(self.url.as_str(), body);
        let began = Exchange::start(request, None, None, true);
        self.follow(true, began)
    }

    fn next(self, phase: InstallPhase, event: Event) -> (r: (PackageInstall, Step))
        ensures
            (r.0@, r.1@) == self@.next(phase@, event),
    {
        match phase {
            InstallPhase::Inspecting => match event {
                Event::Inspected(PathKind::Missing) => {
                    let package_dir = self.package_dir.clone();
                    self.end(Err(RunError::MissingPackageDirectory(package_dir)))
                },
                Event::Inspected(_) => {
                    let path = join_path(self.package_dir.as_str(), "pkg");
                    self.ask(InstallPhase::Resolving, Effect::Canonicalize { path })
                },
                other => self.end(Err(event_failure(other))),
            },
            InstallPhase::Resolving => match event {
                Event::Resolved(path) => {
                    let metadata = join_path(path.as_str(), "metadata.json");
                    InstallPlan {
                        package_dir: self.package_dir,
                        url: self.url,
                        pkg_dir: path,
                        package: self.package,
                        publisher: self.publisher,
                        target: self.target,
                    }.ask(InstallPhase::ReadingMetadata, Effect::ReadFile { path: metadata })
                },
                other => self.end(Err(event_failure(other))),
            },
            InstallPhase::ReadingMetadata => match event {
                Event::FileRead(bytes) => {
                    let id = read_metadata(bytes);
                    let parent = parent_path(self.pkg_dir.as_str());
                    match (id, parent) {
                        (Some(id), Some(parent)) => {
                            let target = join_path(parent.as_str(), "target");
                            let path = target.clone();
                            InstallPlan {
                                package_dir: self.package_dir,
                                url: self.url,
                                pkg_dir: self.pkg_dir,
                                package: id.package,
                                publisher: id.publisher,
                                target,
                            }.ask(InstallPhase::CreatingTarget, Effect::CreateDirectory { path })
                        },
                        _ => self.end(Err(RunError::InvalidMetadata)),
                    }
                },
                other => self.end(Err(event_failure(other))),
            },
            InstallPhase::CreatingTarget => match event {
                Event::Completed => {
                    let effect = Effect::Archive {
                        directory: self.pkg_dir.clone(),
                        archive: self.archive(),
                    };
                    self.ask(InstallPhase::Archiving, effect)
                },
                other => self.end(Err(event_failure(other))),
            },
            InstallPhase::Archiving => match event {
                Event::Completed => self.publish(),
                other => self.end(Err(event_failure(other))),
            },
            InstallPhase::Publishing { exchange } => {
                let (moved, out) = exchange.step(event);
                match out {
                    ExchangeStep::Perform(effect) => self.ask(
                        InstallPhase::Publishing { exchange: moved },
                        effect,
                    ),
                    ExchangeStep::Finish(Ok(Some(response))) => {
                        match check_store_answer(
                            response.body.as_str(),
                            "NewPackageResponse",
                            false,
                        ) {
                            Ok(()) => self.install(),
                            Err(e) => self.end(Err(e)),
                        }
                    },
                    ExchangeStep::Finish(Ok(None)) => self.end(Err(RunError::Unexpected)),
                    ExchangeStep::Finish(Err(e)) => self.end(Err(e)),
                }
            },
            InstallPhase::Installing { exchange } => {
                let (moved, out) = exchange.step(event);
                match out {
                    ExchangeStep::Perform(effect) => self.ask(
                        InstallPhase::Installing { exchange: moved },
                        effect,
                    ),
                    ExchangeStep::Finish(Ok(Some(response))) => {
                        let result = check_store_answer(
                            response.body.as_str(),
                            "InstallResponse",
                            true,
                        );
                        self.end(result)
                    },
                    ExchangeStep::Finish(Ok(None)) => self.end(Err(RunError::Unexpected)),
                    ExchangeStep::Finish(Err(e)) => self.end(Err(e)),
                }
            },
            InstallPhase::Finished => self.end(Err(RunError::Unexpected)),
        }
    }
}

impl PackageInstall {
    /// Takes the event that answers the effect asked for last: see
    /// [`InstallPlanView::next`].
    pub fn step(self, event: Event) -> (r: (PackageInstall, Step))
        ensures
            (r.0@, r.1@) == self.plan@.next(self.phase@, event),
    {
        self.plan.next(self.phase, event)
    }
}

/// Publishes the package in a directory to the node at an address, and
/// installs it there.
pub fn execute(package_dir: &str, url: &str) -> (r: (PackageInstall, Step))
    ensures
        (r.0@, r.1@) == InstallPlanView::start(package_dir@, url@),
{
    let path = join_path(package_dir, "pkg");
    InstallPlan {
        package_dir: String::from_str(package_dir),
        url: String::from_str(url),
        pkg_dir: String::new(),
        package: String::new(),
        publisher: String::new(),
        target: String::new(),
    }.ask(InstallPhase::Inspecting, Effect::Inspect { path })
}

} // verus!
