//! The distributed run: the command to run the tests goes to every worker
//! node, then to the master node, whose answer is the verdict.

use crate::inject_message::{
    Exchange, ExchangePhase, ExchangeStep, ExchangeStepView, ExchangeView, Request, RequestView,
    Response, ResponseView,
};
use crate::json::{document_text, json_parse, json_text, parse_document, JsonDoc};
use crate::machine::{result_view, Event, RunError, RunErrorView, Step, StepView};
use crate::run_tests::boot::{make_node_url, node_url};
use crate::run_tests::tester_types::{
    run_doc, verdict_of, TesterRequest, TesterResponse, TesterResponseView,
};
use crate::run_tests::types::{TestPackage, TestPackageView};
use vstd::prelude::*;
use vstd::string::*;

verus! {

/// The command to run tests, for the node at a port: it goes to the test
/// coordinator there, to be answered within 15 seconds.
pub open spec fn run_request(
    port: u16,
    node_names: Seq<Seq<char>>,
    test_names: Seq<Seq<char>>,
    timeout: u64,
) -> RequestView {
    RequestView {
        url: node_url(port),
        process: "tester:tester:sys"@,
        expects_response: Some(15u64),
        body: json_text(run_doc(node_names, test_names, timeout)),
        node: None,
    }
}

/// Computes [`run_request`].
pub fn make_run_request(
    port: u16,
    node_names: &Vec<String>,
    test_names: &Vec<String>,
    timeout: u64,
) -> (r: Request)
    ensures
        r@ == run_request(port, node_names.deep_view(), test_names.deep_view(), timeout),
{
    let names = node_names.clone();
    let tests = test_names.clone();
    let command = TesterRequest::Run {
        input_node_names: names,
        test_names: tests,
        test_timeout: timeout,
    };
    let doc = command.to_document();
    Request {
        url: make_node_url(port),
        process: String::from_str("tester:tester:sys"),
        expects_response: Some(15),
        body: document_text(&doc),
        node: None,
    }
}

/// The result of a run that the body of the master's answer gives: the
/// outcome of the verdict that it holds, or that it holds none.
pub open spec fn verdict_outcome(body: Seq<char>) -> Result<(), RunErrorView> {
    match json_parse(body) {
        None => Err(RunErrorView::InvalidVerdict),
        Some(doc) => match verdict_of(doc) {
            None => Err(RunErrorView::InvalidVerdict),
            Some(verdict) => verdict.outcome(),
        },
    }
}

/// Computes [`verdict_outcome`].
pub fn read_verdict(body: &str) -> (r: Result<(), RunError>)
    ensures
        result_view(r) == verdict_outcome(body@),
{
    match parse_document(body) {
        Err(_) => Err(RunError::InvalidVerdict),
        Ok(doc) => match TesterResponse::from_document(&doc) {
            None => Err(RunError::InvalidVerdict),
            Some(verdict) => verdict.into_outcome(),
        },
    }
}

/// The failure of the exchange with the master as the failure of the run:
/// an answer that cannot be decoded is marked as the run's.
pub open spec fn run_failure(e: RunErrorView) -> RunErrorView {
    match e {
        RunErrorView::Response(inner) => RunErrorView::RunFailed(inner),
        other => other,
    }
}

fn make_run_failure(e: RunError) -> (r: RunError)
    ensures
        r@ == run_failure(e@),
{
    match e {
        RunError::Response(inner) => RunError::RunFailed(inner),
        other => other,
    }
}

/// How far the run has come.
#[derive(Clone, Copy, Debug, PartialEq, Eq, Structural)]
pub enum RunPhase {
    /// The worker at `index` is being commanded.
    Workers,
    /// The master is being commanded, and its verdict awaited.
    Master,
    /// The run is over.
    Finished,
}

/// The distributed run, as a state machine. The first port is the
/// master's; the others are the workers'.
#[derive(Debug, PartialEq, Eq)]
pub struct TestRun {
    pub ports: Vec<u16>,
    pub node_names: Vec<String>,
    pub test_names: Vec<String>,
    pub timeout: u64,
    /// The port of the worker that is being commanded.
    pub index: usize,
    pub phase: RunPhase,
    /// The exchange under way, or the last one.
    pub exchange: Exchange,
}

/// What a [`TestRun`] holds.
pub struct TestRunView {
    pub ports: Seq<u16>,
    pub node_names: Seq<Seq<char>>,
    pub test_names: Seq<Seq<char>>,
    pub timeout: u64,
    pub index: usize,
    pub phase: RunPhase,
    pub exchange: ExchangeView,
}

impl View for TestRun {
    type V = TestRunView;

    open spec fn view(&self) -> TestRunView {
        TestRunView {
            ports: self.ports@,
            node_names: self.node_names.deep_view(),
            test_names: self.test_names.deep_view(),
            timeout: self.timeout,
            index: self.index,
            phase: self.phase,
            exchange: self.exchange@,
        }
    }
}

impl TestRunView {
    /// The command for the node at a port.
    pub open spec fn request(self, port: u16) -> RequestView {
        run_request(port, self.node_names, self.test_names, self.timeout)
    }

    /// The run over, with a result.
    pub open spec fn end(self, result: Result<(), RunErrorView>) -> (TestRunView, StepView) {
        (TestRunView { phase: RunPhase::Finished, ..self }, StepView::Finish(result))
    }

    /// The run goes on with what the exchange that begins has to say.
    pub open spec fn follow(
        self,
        index: usize,
        phase: RunPhase,
        began: (ExchangeView, ExchangeStepView),
    ) -> (TestRunView, StepView) {
        let moved = TestRunView { index, exchange: began.0, ..self };
        match began.1 {
            ExchangeStepView::Perform(effect) => (
                TestRunView { phase, ..moved },
                StepView::Perform(effect),
            ),
            ExchangeStepView::Finish(Ok(_)) => moved.end(Err(RunErrorView::Unexpected)),
            ExchangeStepView::Finish(Err(e)) => moved.end(Err(e)),
        }
    }

    /// The worker at `index` is commanded or, after the last worker, the
    /// master. Of a worker's answer only the status counts; the master's
    /// is decoded.
    pub open spec fn begin(self, index: usize) -> (TestRunView, StepView) {
        if 0 < index < self.ports.len() {
            self.follow(
                index,
                RunPhase::Workers,
                ExchangeView::start(self.request(self.ports[index as int]), None, None, false),
            )
        } else if self.ports.len() > 0 {
            self.follow(
                index,
                RunPhase::Master,
                ExchangeView::start(self.request(self.ports[0]), None, None, true),
            )
        } else {
            self.end(Err(RunErrorView::NoNodes))
        }
    }

    /// The first step of the run: the first worker is commanded, or the
    /// master where there is no worker. Without a node there is no run.
    pub open spec fn start(
        test_names: Seq<Seq<char>>,
        ports: Seq<u16>,
        node_names: Seq<Seq<char>>,
        timeout: u64,
    ) -> (TestRunView, StepView) {
        TestRunView {
            ports,
            node_names,
            test_names,
            timeout,
            index: 0,
            phase: RunPhase::Finished,
            exchange: ExchangeView {
                request: run_request(0, node_names, test_names, timeout),
                decode: false,
                phase: ExchangePhase::Finished,
            },
        }.begin(1)
    }

    /// The step that an event leads to. A worker that does not answer with
    /// status 200 ends the run. What the master answers is the verdict, and
    /// the run ends with its outcome.
    pub open spec fn next(self, event: Event) -> (TestRunView, StepView) {
        match self.phase {
            RunPhase::Finished => self.end(Err(RunErrorView::Unexpected)),
            RunPhase::Workers => {
                let (exchange, out) = self.exchange.next(event);
                let moved = TestRunView { exchange, ..self };
                match out {
                    ExchangeStepView::Perform(effect) => (moved, StepView::Perform(effect)),
                    ExchangeStepView::Finish(Err(e)) => moved.end(Err(e)),
                    ExchangeStepView::Finish(Ok(_)) => if self.index < usize::MAX {
                        moved.begin((self.index + 1) as usize)
                    } else {
                        moved.end(Err(RunErrorView::Unexpected))
                    },
                }
            },
            RunPhase::Master => {
                let (exchange, out) = self.exchange.next(event);
                let moved = TestRunView { exchange, ..self };
                match out {
                    ExchangeStepView::Perform(effect) => (moved, StepView::Perform(effect)),
                    ExchangeStepView::Finish(Err(e)) => moved.end(Err(run_failure(e))),
                    ExchangeStepView::Finish(Ok(Some(response))) => moved.end(
                        verdict_outcome(response.body),
                    ),
                    ExchangeStepView::Finish(Ok(None)) => moved.end(Err(RunErrorView::Unexpected)),
                }
            },
        }
    }
}

impl TestRun {
    fn end(self, result: Result<(), RunError>) -> (r: (TestRun, Step))
        ensures
            (r.0@, r.1@) == self@.end(result_view(result)),
    {
        (
            TestRun {
                ports: self.ports,
                node_names: self.node_names,
                test_names: self.test_names,
                timeout: self.timeout,
                index: self.index,
                phase: RunPhase::Finished,
                exchange: self.exchange,
            },
            Step::Finish(result),
        )
    }

    fn follow(self, index: usize, phase: RunPhase, began: (Exchange, ExchangeStep)) -> (r: (
        TestRun,
        Step,
    ))
        ensures
            (r.0@, r.1@) == self@.follow(index, phase, (began.0@, began.1@)),
    {
        let (exchange, first) = began;
        let moved = TestRun {
            ports: self.ports,
            node_names: self.node_names,
            test_names: self.test_names,
            timeout: self.timeout,
            index,
            phase: self.phase,
            exchange,
        };
        match first {
            ExchangeStep::Perform(effect) => (
                TestRun {
                    ports: moved.ports,
                    node_names: moved.node_names,
                    test_names: moved.test_names,
                    timeout: moved.timeout,
                    index: moved.index,
                    phase,
                    exchange: moved.exchange,
                },
                Step::Perform(effect),
            ),
            ExchangeStep::Finish(Ok(_)) => moved.end(Err(RunError::Unexpected)),
            ExchangeStep::Finish(Err(e)) => moved.end(Err(e)),
        }
    }

    fn begin(self, index: usize) -> (r: (TestRun, Step))
        ensures
            (r.0@, r.1@) == self@.begin(index),
    {
        if 0 < index && index < self.ports.len() {
            let request = make_run_request(
                self.ports[index],
                &self.node_names,
                &self.test_names,
                self.timeout,
            );
            let began = Exchange::start(request, None, None, false);
            self.follow(index, RunPhase::Workers, began)
        } else if self.ports.len() > 0 {
            let request = make_run_request(
                self.ports[0],
                &self.node_names,
                &self.test_names,
                self.timeout,
            );
            let began = Exchange::start(request, None, None, true);
            self.follow(index, RunPhase::Master, began)
        } else {
            self.end(Err(RunError::NoNodes))
        }
    }

    /// Begins the run: see [`TestRunView::start`].
    pub fn start(
        test_names: Vec<String>,
        ports: Vec<u16>,
        node_names: Vec<String>,
        timeout: u64,
    ) -> (r: (TestRun, Step))
        ensures
            (r.0@, r.1@) == TestRunView::start(
                test_names.deep_view(),
                ports@,
                node_names.deep_view(),
                timeout,
            ),
    {
        let request = make_run_request(0, &node_names, &test_names, timeout);
        TestRun {
            ports,
            node_names,
            test_names,
            timeout,
            index: 0,
            phase: RunPhase::Finished,
            exchange: Exchange { request, decode: false, phase: ExchangePhase::Finished },
        }.begin(1)
    }

    /// Takes the event that answers the effect asked for last: see
    /// [`TestRunView::next`].
    pub fn step(self, event: Event) -> (r: (TestRun, Step))
        ensures
            (r.0@, r.1@) == self@.next(event),
    {
        match self.phase {
            RunPhase::Finished => self.end(Err(RunError::Unexpected)),
            RunPhase::Workers => {
                let (exchange, out) = self.exchange.step(event);
                let moved = TestRun {
                    ports: self.ports,
                    node_names: self.node_names,
                    test_names: self.test_names,
                    timeout: self.timeout,
                    index: self.index,
                    phase: self.phase,
                    exchange,
                };
                match out {
                    ExchangeStep::Perform(effect) => (moved, Step::Perform(effect)),
                    ExchangeStep::Finish(Err(e)) => moved.end(Err(e)),
                    ExchangeStep::Finish(Ok(_)) => {
                        if moved.index < usize::MAX {
                            let following = moved.index + 1;
                            moved.begin(following)
                        } else {
                            moved.end(Err(RunError::Unexpected))
                        }
                    },
                }
            },
            RunPhase::Master => {
                let (exchange, out) = self.exchange.step(event);
                let moved = TestRun {
                    ports: self.ports,
                    node_names: self.node_names,
                    test_names: self.test_names,
                    timeout: self.timeout,
                    index: self.index,
                    phase: self.phase,
                    exchange,
                };
                match out {
                    ExchangeStep::Perform(effect) => (moved, Step::Perform(effect)),
                    ExchangeStep::Finish(Err(e)) => moved.end(Err(make_run_failure(e))),
                    ExchangeStep::Finish(Ok(Some(response))) => {
                        let outcome = read_verdict(response.body.as_str());
                        moved.end(outcome)
                    },
                    ExchangeStep::Finish(Ok(None)) => moved.end(Err(RunError::Unexpected)),
                }
            },
        }
    }
}

/// The paths of test packages, by which the tests are named.
pub open spec fn package_paths(packages: Seq<TestPackageView>) -> Seq<Seq<char>> {
    Seq::new(packages.len(), |i: int| packages[i].path)
}

/// Computes [`package_paths`].
pub fn make_test_names(test_packages: &Vec<TestPackage>) -> (r: Vec<String>)
    ensures
        r.deep_view() == package_paths(test_packages.deep_view()),
{
    let mut names: Vec<String> = Vec::new();
    let mut i: usize = 0;
    while i < test_packages.len()
        invariant
            i <= test_packages.len(),
            names.len() == i,
            forall|j: int| 0 <= j < i ==> (#[trigger] names[j])@ == test_packages[j].path@,
        decreases test_packages.len() - i,
    {
        names.push(test_packages[i].path.clone());
        i += 1;
    }
    names
}

/// Runs the tests of the packages on the nodes at the ports, of which the
/// first is the master's.
pub fn run_tests(
    test_packages: &Vec<TestPackage>,
    ports: Vec<u16>,
    node_names: Vec<String>,
    test_timeout: u64,
) -> (r: (TestRun, Step))
    ensures
        (r.0@, r.1@) == TestRunView::start(
            package_paths(test_packages.deep_view()),
            ports@,
            node_names.deep_view(),
            test_timeout,
        ),
{
    TestRun::start(make_test_names(test_packages), ports, node_names, test_timeout)
}

/// The run ends with the outcome of the master's verdict, whatever the
/// workers answered.
pub proof fn lemma_master_verdict_surfaces(run: TestRunView, event: Event, response: ResponseView)
    requires
        run.phase is Master,
        run.exchange.next(event).1 == ExchangeStepView::Finish(Ok(Some(response))),
    ensures
        run.next(event).1 == StepView::Finish(verdict_outcome(response.body)),
{
}

/// A failure that the master reports ends the run as that failure: its
/// test, file, line and column are handed on unchanged.
pub proof fn lemma_failure_passes_through(
    run: TestRunView,
    event: Event,
    response: ResponseView,
    doc: JsonDoc,
    test: Seq<char>,
    file: Seq<char>,
    line: u32,
    column: u32,
)
    requires
        run.phase is Master,
        run.exchange.next(event).1 == ExchangeStepView::Finish(Ok(Some(response))),
        json_parse(response.body) == Some(doc),
        verdict_of(doc) == Some(TesterResponseView::Fail { test, file, line, column }),
    ensures
        run.next(event).1 == StepView::Finish(
            Err(RunErrorView::TestFailed { test, file, line, column }),
        ),
{
}

/// A verdict `Pass` of the master ends the run in success.
pub proof fn lemma_pass_is_success(
    run: TestRunView,
    event: Event,
    response: ResponseView,
    doc: JsonDoc,
)
    requires
        run.phase is Master,
        run.exchange.next(event).1 == ExchangeStepView::Finish(Ok(Some(response))),
        json_parse(response.body) == Some(doc),
        verdict_of(doc) == Some(TesterResponseView::Pass),
    ensures
        run.next(event).1 == StepView::Finish(Ok(())),
{
}

} // verus!
