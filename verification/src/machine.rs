//! The vocabulary of the state machines: what a machine asks its driver to
//! do, what the driver reports back, and how a machine ends.
//!
//! A machine never touches the outside world. Each step takes the event
//! that answers the effect asked for last, and gives the next effect or the
//! final result. The driver performs the effects, in the order asked.

use crate::inject_message::{MessageError, ResponseError};
use crate::json::{value_doc, JsonDoc};
use vstd::prelude::*;

verus! {

/// What is found at a path.
#[derive(Clone, Copy, Debug, PartialEq, Eq, Structural)]
pub enum PathKind {
    Missing,
    File,
    Directory,
}

/// An action that a machine asks its driver to perform.
#[derive(Debug, PartialEq, Eq)]
pub enum Effect {
    /// Read a whole file. Answered by `FileRead`.
    ReadFile { path: String },
    /// Post a message as JSON to an address. Answered by `Answered`.
    Post { url: String, message: serde_json::Value },
    /// Read the content of the answer to the last post. Answered by
    /// `ReplyRead`.
    ReadReply,
    /// Wait so many seconds, unless cancellation comes first. Answered by
    /// `Paused` or `Cancelled`.
    Pause { seconds: u64 },
    /// Tell what is at a path. Answered by `Inspected`.
    Inspect { path: String },
    /// Resolve a path to its canonical form. Answered by `Resolved`.
    Canonicalize { path: String },
    /// Create a directory and its parents. Answered by `Completed`.
    CreateDirectory { path: String },
    /// Pack a directory into an archive. Answered by `Completed`.
    Archive { directory: String, archive: String },
    /// Build a package. Answered by `Completed`.
    Build { package: String, verbose: bool },
    /// Start the cleanup worker, the signal bridge and the network plane.
    /// Answered by `Completed`.
    StartServices { router_port: u16, defects: String, detached: bool },
    /// Create the home directory of a node and remove the listed
    /// subdirectories of it. Answered by `Resolved` with the canonical path
    /// of the home.
    PrepareHome { home: String, state_dirs: Vec<String> },
    /// Launch a node process and keep what its cleanup needs. Answered by
    /// `Completed`.
    Launch {
        runtime: String,
        home: String,
        port: u16,
        router_port: u16,
        arguments: Vec<String>,
        verbose: bool,
        detached: bool,
    },
    /// Publish a package to a node and install it there. Answered by
    /// `Completed`.
    InstallPackage { package: String, url: String },
    /// Trigger the cleanup and wait for the three services to end. Answered
    /// by `Completed`.
    Teardown,
    /// Get the runtime binary of a published version. Answered by
    /// `Resolved` with its path.
    FetchRuntime { version: String },
    /// Compile the runtime in a source checkout. Answered by `Completed`.
    CompileRuntime { repository: String, verbose: bool, release: bool },
}

/// What an [`Effect`] holds.
pub enum EffectView {
    ReadFile { path: Seq<char> },
    Post { url: Seq<char>, message: JsonDoc },
    ReadReply,
    Pause { seconds: u64 },
    Inspect { path: Seq<char> },
    Canonicalize { path: Seq<char> },
    CreateDirectory { path: Seq<char> },
    Archive { directory: Seq<char>, archive: Seq<char> },
    Build { package: Seq<char>, verbose: bool },
    StartServices { router_port: u16, defects: Seq<char>, detached: bool },
    PrepareHome { home: Seq<char>, state_dirs: Seq<Seq<char>> },
    Launch {
        runtime: Seq<char>,
        home: Seq<char>,
        port: u16,
        router_port: u16,
        arguments: Seq<Seq<char>>,
        verbose: bool,
        detached: bool,
    },
    InstallPackage { package: Seq<char>, url: Seq<char> },
    Teardown,
    FetchRuntime { version: Seq<char> },
    CompileRuntime { repository: Seq<char>, verbose: bool, release: bool },
}

impl View for Effect {
    type V = EffectView;

    open spec fn view(&self) -> EffectView {
        match *self {
            Effect::ReadFile { path } => EffectView::ReadFile { path: path@ },
            Effect::Post { url, message } => EffectView::Post {
                url: url@,
                message: value_doc(message),
            },
            Effect::ReadReply => EffectView::ReadReply,
            Effect::Pause { seconds } => EffectView::Pause { seconds },
            Effect::Inspect { path } => EffectView::Inspect { path: path@ },
            Effect::Canonicalize { path } => EffectView::Canonicalize { path: path@ },
            Effect::CreateDirectory { path } => EffectView::CreateDirectory { path: path@ },
            Effect::Archive { directory, archive } => EffectView::Archive {
                directory: directory@,
                archive: archive@,
            },
            Effect::Build { package, verbose } => EffectView::Build { package: package@, verbose },
            Effect::StartServices { router_port, defects, detached } => EffectView::StartServices {
                router_port,
                defects: defects@,
                detached,
            },
            Effect::PrepareHome { home, state_dirs } => EffectView::PrepareHome {
                home: home@,
                state_dirs: state_dirs.deep_view(),
            },
            Effect::Launch {
                runtime,
                home,
                port,
                router_port,
                arguments,
                verbose,
                detached,
            } => EffectView::Launch {
                runtime: runtime@,
                home: home@,
                port,
                router_port,
                arguments: arguments.deep_view(),
                verbose,
                detached,
            },
            Effect::InstallPackage { package, url } => EffectView::InstallPackage {
                package: package@,
                url: url@,
            },
            Effect::Teardown => EffectView::Teardown,
            Effect::FetchRuntime { version } => EffectView::FetchRuntime { version: version@ },
            Effect::CompileRuntime { repository, verbose, release } => EffectView::CompileRuntime {
                repository: repository@,
                verbose,
                release,
            },
        }
    }
}

/// What the driver reports of the effect that it has performed.
#[derive(Debug, PartialEq, Eq)]
pub enum Event {
    /// The effect is done; it has no result.
    Completed,
    /// The canonical or fetched path that the effect gives.
    Resolved(String),
    /// What is at the path inspected.
    Inspected(PathKind),
    /// The bytes of the file read.
    FileRead(Vec<u8>),
    /// The HTTP status of the answer to the post.
    Answered { status: u16 },
    /// The content of the answer.
    ReplyRead(String),
    /// The pause is over.
    Paused,
    /// Cancellation came before the pause was over.
    Cancelled,
    /// The effect failed, with the driver's words for it.
    Failed(String),
}

/// Why a machine ended in failure.
#[derive(Debug, PartialEq, Eq)]
pub enum RunError {
    /// No message could be built.
    Message(MessageError),
    /// The answer of a node could not be decoded.
    Response(ResponseError),
    /// An effect failed, with the driver's words for it.
    Failed(String),
    /// An event came that does not answer the effect asked for.
    Unexpected,
    /// A payload is too large to be written as base64 text.
    PayloadTooLarge,
    /// Cancellation came while waiting for a node to boot.
    Cancelled,
    /// The node at this port did not answer within the attempts allowed.
    CouldNotConnect(u16),
    /// A path has no final component to name a package or a node by.
    NoBasename(String),
    /// A test package could not be written to the master node.
    LoadTests(ResponseError),
    /// The grants of the test packages could not be written to the master
    /// node.
    LoadCapabilities(ResponseError),
    /// Two nodes of a scenario of the plan listen on one port.
    PortsNotUnique,
    /// The scenario has no node to run on.
    NoNodes,
    /// The master node could not be asked for its verdict.
    RunFailed(ResponseError),
    /// The answer of the master node is no verdict.
    InvalidVerdict,
    /// A test failed, at this place.
    TestFailed { test: String, file: String, line: u32, column: u32 },
    /// The master node answered a run with a full message.
    UnexpectedResponse,
    /// The directory given holds no directory `pkg`.
    MissingPackageDirectory(String),
    /// The metadata of a package do not name it and its publisher.
    InvalidMetadata,
    /// The node did not accept a package; its answer is attached.
    PackageRejected(String),
    /// The node did not install a package; its answer is attached.
    InstallFailed(String),
    /// The source checkout of the runtime does not exist.
    RepositoryMissing(String),
    /// The source checkout of the runtime is no directory.
    RepositoryNotDirectory(String),
}

/// What a [`RunError`] holds.
pub enum RunErrorView {
    Message(MessageError),
    Response(ResponseError),
    Failed(Seq<char>),
    Unexpected,
    PayloadTooLarge,
    Cancelled,
    CouldNotConnect(u16),
    NoBasename(Seq<char>),
    LoadTests(ResponseError),
    LoadCapabilities(ResponseError),
    PortsNotUnique,
    NoNodes,
    RunFailed(ResponseError),
    InvalidVerdict,
    TestFailed { test: Seq<char>, file: Seq<char>, line: u32, column: u32 },
    UnexpectedResponse,
    MissingPackageDirectory(Seq<char>),
    InvalidMetadata,
    PackageRejected(Seq<char>),
    InstallFailed(Seq<char>),
    RepositoryMissing(Seq<char>),
    RepositoryNotDirectory(Seq<char>),
}

impl View for RunError {
    type V = RunErrorView;

    open spec fn view(&self) -> RunErrorView {
        match *self {
            RunError::Message(e) => RunErrorView::Message(e),
            RunError::Response(e) => RunErrorView::Response(e),
            RunError::Failed(m) => RunErrorView::Failed(m@),
            RunError::Unexpected => RunErrorView::Unexpected,
            RunError::PayloadTooLarge => RunErrorView::PayloadTooLarge,
            RunError::Cancelled => RunErrorView::Cancelled,
            RunError::CouldNotConnect(port) => RunErrorView::CouldNotConnect(port),
            RunError::NoBasename(p) => RunErrorView::NoBasename(p@),
            RunError::LoadTests(e) => RunErrorView::LoadTests(e),
            RunError::LoadCapabilities(e) => RunErrorView::LoadCapabilities(e),
            RunError::PortsNotUnique => RunErrorView::PortsNotUnique,
            RunError::NoNodes => RunErrorView::NoNodes,
            RunError::RunFailed(e) => RunErrorView::RunFailed(e),
            RunError::InvalidVerdict => RunErrorView::InvalidVerdict,
            RunError::TestFailed { test, file, line, column } => RunErrorView::TestFailed {
                test: test@,
                file: file@,
                line,
                column,
            },
            RunError::UnexpectedResponse => RunErrorView::UnexpectedResponse,
            RunError::MissingPackageDirectory(p) => RunErrorView::MissingPackageDirectory(p@),
            RunError::InvalidMetadata => RunErrorView::InvalidMetadata,
            RunError::PackageRejected(b) => RunErrorView::PackageRejected(b@),
            RunError::InstallFailed(b) => RunErrorView::InstallFailed(b@),
            RunError::RepositoryMissing(p) => RunErrorView::RepositoryMissing(p@),
            RunError::RepositoryNotDirectory(p) => RunErrorView::RepositoryNotDirectory(p@),
        }
    }
}

/// The failure that an event tells of, where it does not answer the effect
/// asked for with success: the failure of the effect, or that the event is
/// out of place.
pub open spec fn failure_of(event: Event) -> RunErrorView {
    match event {
        Event::Failed(m) => RunErrorView::Failed(m@),
        _ => RunErrorView::Unexpected,
    }
}

/// Computes [`failure_of`].
pub fn event_failure(event: Event) -> (r: RunError)
    ensures
        r@ == failure_of(event),
{
    match event {
        Event::Failed(m) => RunError::Failed(m),
        _ => RunError::Unexpected,
    }
}

/// The view of the result of a machine.
pub open spec fn result_view(r: Result<(), RunError>) -> Result<(), RunErrorView> {
    match r {
        Ok(()) => Ok(()),
        Err(e) => Err(e@),
    }
}

/// What a machine does next: it asks for an effect, or it ends.
#[derive(Debug, PartialEq, Eq)]
pub enum Step {
    Perform(Effect),
    Finish(Result<(), RunError>),
}

/// What a [`Step`] holds.
pub enum StepView {
    Perform(EffectView),
    Finish(Result<(), RunErrorView>),
}

impl View for Step {
    type V = StepView;

    open spec fn view(&self) -> StepView {
        match *self {
            Step::Perform(effect) => StepView::Perform(effect@),
            Step::Finish(result) => StepView::Finish(result_view(result)),
        }
    }
}

} // verus!
