//! Loading the test packages into the master node: each binary is written
//! to the virtual filesystem of the node, then the capabilities to grant.

use crate::inject_message::{
    Exchange, ExchangePhase, ExchangeStep, ExchangeStepView, ExchangeView, };
use crate::json::{
    document_text, insert_member, json_text, map_docs, new_members, no_members, object_value,
    texts_value, JsonDoc,
};
use crate::machine::{result_view, Event, RunError, RunErrorView, Step, StepView};
use crate::run_tests::boot::{make_vfs_request, vfs_request};
use crate::run_tests::get_basename;
use crate::run_tests::types::{TestPackage, TestPackageView};
use crate::text::{file_name_of, join_path, joined_path};
use vstd::prelude::*;
use vstd::string::*;
use vstd::utf8::*;

verus! {

/// Where the binary of a test package is written to in the node.
pub open spec fn binary_target(base: Seq<char>) -> Seq<char> {
    "/tester:sys/tests/"@ + base + ".wasm"@
}

/// Where the binary of a test package lies: in the directory `pkg` of the
/// package, under the name of the package.
pub open spec fn binary_source(path: Seq<char>, base: Seq<char>) -> Seq<char> {
    joined_path(joined_path(path, "pkg"@), base + ".wasm"@)
}

/// Where the capabilities to grant are written to in the node.
pub open spec fn capabilities_target() -> Seq<char> {
    "/tester:sys/tests/grant_capabilities.json"@
}

/// The capabilities to grant, by the name of the package. Where two
/// packages bear one name, the later one counts.
pub open spec fn grants(packages: Seq<TestPackageView>) -> Map<Seq<char>, JsonDoc>
    decreases packages.len(),
{
    if packages.len() == 0 {
        no_members()
    } else {
        let before = grants(packages.drop_last());
        match file_name_of(packages.last().path) {
            Some(base) => before.insert(base, JsonDoc::texts(packages.last().grant_capabilities)),
            None => before,
        }
    }
}

/// The capabilities to grant, as the bytes that are written to the node.
pub open spec fn grants_bytes(packages: Seq<TestPackageView>) -> Seq<u8> {
    encode_utf8(json_text(JsonDoc::Object(grants(packages))))
}

/// Computes [`grants_bytes`].
pub fn make_grants(packages: &Vec<TestPackage>) -> (r: Vec<u8>)
    ensures
        r@ == grants_bytes(packages.deep_view()),
{
    let ghost all = packages.deep_view();
    let mut members = new_members();
    let mut i: usize = 0;
    while i < packages.len()
        invariant
            i <= packages.len(),
            all == packages.deep_view(),
            map_docs(members) == grants(all.take(i as int)),
        decreases packages.len() - i,
    {
        let package = &packages[i];
        proof {
            let upto = all.take(i + 1);
            assert(upto.drop_last() =~= all.take(i as int));
        }
        match get_basename(package.path.as_str()) {
            Some(base) => {
                insert_member(&mut members, base, texts_value(&package.grant_capabilities));
            },
            None => {},
        }
        i += 1;
    }
    assert(all.take(i as int) =~= all);
    let doc = object_value(members);
    let text = document_text(&doc);
    text.as_str().as_bytes_vec()
}

/// How far the loading has come.
#[derive(Clone, Copy, Debug, PartialEq, Eq, Structural)]
pub enum LoaderPhase {
    /// The binary of the package at `index` is being written.
    Writing,
    /// The capabilities are being written.
    Granting,
    /// The loading is over.
    Finished,
}

/// The loading of test packages into the node at a port, as a state
/// machine.
#[derive(Debug, PartialEq, Eq)]
pub struct TestLoader {
    pub port: u16,
    pub packages: Vec<TestPackage>,
    /// The package whose binary is being written.
    pub index: usize,
    pub phase: LoaderPhase,
    /// The write under way, or the last one.
    pub exchange: Exchange,
}

/// What a [`TestLoader`] holds.
pub struct TestLoaderView {
    pub port: u16,
    pub packages: Seq<TestPackageView>,
    pub index: usize,
    pub phase: LoaderPhase,
    pub exchange: ExchangeView,
}

impl View for TestLoader {
    type V = TestLoaderView;

    open spec fn view(&self) -> TestLoaderView {
        TestLoaderView {
            port: self.port,
            packages: self.packages.deep_view(),
            index: self.index,
            phase: self.phase,
            exchange: self.exchange@,
        }
    }
}

/// The failure of a write as the failure of the loading: an answer that
/// cannot be decoded is marked with what was being written.
pub open spec fn load_failure(e: RunErrorView, granting: bool) -> RunErrorView {
    match e {
        RunErrorView::Response(inner) => if granting {
            RunErrorView::LoadCapabilities(inner)
        } else {
            RunErrorView::LoadTests(inner)
        },
        other => other,
    }
}

impl TestLoaderView {
    /// The loading over, with a result.
    pub open spec fn end(self, result: Result<(), RunErrorView>) -> (TestLoaderView, StepView) {
        (TestLoaderView { phase: LoaderPhase::Finished, ..self }, StepView::Finish(result))
    }

    /// The loading goes on with what the write that begins has to say.
    pub open spec fn follow(
        self,
        index: usize,
        phase: LoaderPhase,
        began: (ExchangeView, ExchangeStepView),
    ) -> (TestLoaderView, StepView) {
        let moved = TestLoaderView { index, exchange: began.0, ..self };
        match began.1 {
            ExchangeStepView::Perform(effect) => (
                TestLoaderView { phase, ..moved },
                StepView::Perform(effect),
            ),
            ExchangeStepView::Finish(Ok(_)) => moved.end(Err(RunErrorView::Unexpected)),
            ExchangeStepView::Finish(Err(e)) => moved.end(Err(e)),
        }
    }

    /// The write of the binary of the package at `index` begins or, after
    /// the last package, the write of the capabilities. A package whose
    /// path has no final component ends the loading.
    pub open spec fn begin(self, index: usize) -> (TestLoaderView, StepView) {
        if index < self.packages.len() {
            let path = self.packages[index as int].path;
            match file_name_of(path) {
                None => TestLoaderView { index, ..self }.end(Err(RunErrorView::NoBasename(path))),
                Some(base) => self.follow(
                    index,
                    LoaderPhase::Writing,
                    ExchangeView::start(
                        vfs_request(self.port, binary_target(base), "Write"@),
                        None,
                        Some(binary_source(path, base)),
                        true,
                    ),
                ),
            }
        } else {
            self.follow(
                index,
                LoaderPhase::Granting,
                ExchangeView::start(
                    vfs_request(self.port, capabilities_target(), "Write"@),
                    Some(grants_bytes(self.packages)),
                    None,
                    true,
                ),
            )
        }
    }

    /// The first step of the loading.
    pub open spec fn start(packages: Seq<TestPackageView>, port: u16) -> (
        TestLoaderView,
        StepView,
    ) {
        TestLoaderView {
            port,
            packages,
            index: 0,
            phase: LoaderPhase::Finished,
            exchange: ExchangeView {
                request: vfs_request(port, capabilities_target(), "Write"@),
                decode: true,
                phase: ExchangePhase::Finished,
            },
        }.begin(0)
    }

    /// The step that an event leads to. Each write must be answered and
    /// decoded; the first that is not ends the loading, and what was
    /// written before stays written.
    pub open spec fn next(self, event: Event) -> (TestLoaderView, StepView) {
        match self.phase {
            LoaderPhase::Finished => self.end(Err(RunErrorView::Unexpected)),
            _ => {
                let (exchange, out) = self.exchange.next(event);
                let moved = TestLoaderView { exchange, ..self };
                match out {
                    ExchangeStepView::Perform(effect) => (moved, StepView::Perform(effect)),
                    ExchangeStepView::Finish(Err(e)) => moved.end(
                        Err(load_failure(e, self.phase is Granting)),
                    ),
                    ExchangeStepView::Finish(Ok(_)) => if self.phase is Granting {
                        moved.end(Ok(()))
                    } else if self.index < self.packages.len() {
                        moved.begin((self.index + 1) as usize)
                    } else {
                        moved.end(Err(RunErrorView::Unexpected))
                    },
                }
            },
        }
    }
}

fn make_load_failure(e: RunError, granting: bool) -> (r: RunError)
    ensures
        r@ == load_failure(e@, granting),
{
    match e {
        RunError::Response(inner) => if granting {
            RunError::LoadCapabilities(inner)
        } else {
            RunError::LoadTests(inner)
        },
        other => other,
    }
}

impl TestLoader {
    fn end(self, result: Result<(), RunError>) -> (r: (TestLoader, Step))
        ensures
            (r.0@, r.1@) == self@.end(result_view(result)),
    {
        (
            TestLoader {
                port: self.port,
                packages: self.packages,
                index: self.index,
                phase: LoaderPhase::Finished,
                exchange: self.exchange,
            },
            Step::Finish(result),
        )
    }

    fn follow(self, index: usize, phase: LoaderPhase, began: (Exchange, ExchangeStep)) -> (r: (
        TestLoader,
        Step,
    ))
        ensures
            (r.0@, r.1@) == self@.follow(index, phase, (began.0@, began.1@)),
    {
        let (exchange, first) = began;
        let moved = TestLoader {
            port: self.port,
            packages: self.packages,
            index,
            phase: self.phase,
            exchange,
        };
        match first {
            ExchangeStep::Perform(effect) => (
                TestLoader {
                    port: moved.port,
                    packages: moved.packages,
                    index: moved.index,
                    phase,
                    exchange: moved.exchange,
                },
                Step::Perform(effect),
            ),
            ExchangeStep::Finish(Ok(_)) => moved.end(Err(RunError::Unexpected)),
            ExchangeStep::Finish(Err(e)) => moved.end(Err(e)),
        }
    }

    fn begin(self, index: usize) -> (r: (TestLoader, Step))
        ensures
            (r.0@, r.1@) == self@.begin(index),
    {
        if index < self.packages.len() {
            let package = &self.packages[index];
            match get_basename(package.path.as_str()) {
                None => {
                    let path = package.path.clone();
                    TestLoader {
                        port: self.port,
                        packages: self.packages,
                        index,
                        phase: self.phase,
                        exchange: self.exchange,
                    }.end(Err(RunError::NoBasename(path)))
                },
                Some(base) => {
                    let target = String::from_str("/tester:sys/tests/").concat(base).concat(
                        ".wasm",
                    );
                    let file = String::from_str(base).concat(".wasm");
                    let directory = join_path(package.path.as_str(), "pkg");
                    let source = join_path(directory.as_str(), file.as_str());
                    let request = make_vfs_request(self.port, target.as_str(), "Write");
                    let began = Exchange::start(request, None, Some(source), true);
                    self.follow(index, LoaderPhase::Writing, began)
                },
            }
        } else {
            let bytes = make_grants(&self.packages);
            let request = make_vfs_request(
                self.port,
                "/tester:sys/tests/grant_capabilities.json",
                "Write",
            );
            let began = Exchange::start(request, Some(bytes), None, true);
            self.follow(index, LoaderPhase::Granting, began)
        }
    }

    /// Begins the loading: see [`TestLoaderView::start`].
    pub fn start(packages: Vec<TestPackage>, port: u16) -> (r: (TestLoader, Step))
        ensures
            (r.0@, r.1@) == TestLoaderView::start(packages.deep_view(), port),
    {
        TestLoader {
            port,
            packages,
            index: 0,
            phase: LoaderPhase::Finished,
            exchange: Exchange {
                request: make_vfs_request(
                    port,
                    "/tester:sys/tests/grant_capabilities.json",
                    "Write",
                ),
                decode: true,
                phase: ExchangePhase::Finished,
            },
        }.begin(0)
    }

    /// Takes the event that answers the effect asked for last: see
    /// [`TestLoaderView::next`].
    pub fn step(self, event: Event) -> (r: (TestLoader, Step))
        ensures
            (r.0@, r.1@) == self@.next(event),
    {
        match self.phase {
            LoaderPhase::Finished => self.end(Err(RunError::Unexpected)),
            _ => {
                let granting = match self.phase {
                    LoaderPhase::Granting => true,
                    _ => false,
                };
                let (exchange, out) = self.exchange.step(event);
                let moved = TestLoader {
                    port: self.port,
                    packages: self.packages,
                    index: self.index,
                    phase: self.phase,
                    exchange,
                };
                match out {
                    ExchangeStep::Perform(effect) => (moved, Step::Perform(effect)),
                    ExchangeStep::Finish(Err(e)) => moved.end(
                        Err(make_load_failure(e, granting)),
                    ),
                    ExchangeStep::Finish(Ok(_)) => {
                        if granting {
                            moved.end(Ok(()))
                        } else if moved.index < moved.packages.len() {
                            let following = moved.index + 1;
                            moved.begin(following)
                        } else {
                            moved.end(Err(RunError::Unexpected))
                        }
                    },
                }
            },
        }
    }
}

/// Loads the test packages into the node at a port.
pub fn load_tests(test_packages: Vec<TestPackage>, port: u16) -> (r: (TestLoader, Step))
    ensures
        (r.0@, r.1@) == TestLoaderView::start(test_packages.deep_view(), port),
{
    TestLoader::start(test_packages, port)
}

} // verus!
