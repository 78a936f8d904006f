//! One scenario: build, supervision, launch, boot, injection, run and the
//! teardown that ends every scenario, as a state machine.

use crate::machine::{
    event_failure, failure_of, result_view, Effect, EffectView, Event, RunError, RunErrorView,
    Step, StepView,
};
use crate::run_tests::boot::{make_node_url, node_url, BootWaiter, BootWaiterView};
use crate::run_tests::loader::{TestLoader, TestLoaderView};
use crate::run_tests::runner::{make_test_names, package_paths, TestRun, TestRunView};
use crate::run_tests::types::{Node, NodeView, Test, TestView};
use crate::run_tests::{homes_of, make_node_names, node_names};
use vstd::prelude::*;
use vstd::string::*;

verus! {

/// The probes that a node is given to boot.
pub const BOOT_ATTEMPTS: u16 = 5;

/// The subdirectories of the home of a node that hold the state of an
/// earlier run, and are removed before the node is launched.
pub open spec fn state_dirs() -> Seq<Seq<char>> {
    seq!["kernel"@, "kv"@, "sqlite"@, "vfs"@]
}

/// Computes [`state_dirs`].
pub fn make_state_dirs() -> (r: Vec<String>)
    ensures
        r.deep_view() == state_dirs(),
{
    let mut dirs: Vec<String> = Vec::new();
    dirs.push(String::from_str("kernel"));
    dirs.push(String::from_str("kv"));
    dirs.push(String::from_str("sqlite"));
    dirs.push(String::from_str("vfs"));
    dirs
}

/// The arguments that the runtime is launched with for a node: its name,
/// then the RPC endpoint and the password where it has them, then the mark
/// of a testnet node.
pub open spec fn node_arguments(node: NodeView) -> Seq<Seq<char>> {
    seq!["--fake-node-name"@, node.fake_node_name] + match node.rpc {
        Some(rpc) => seq!["--rpc"@, rpc],
        None => seq![],
    } + match node.password {
        Some(password) => seq!["--password"@, password],
        None => seq![],
    } + if node.is_testnet {
        seq!["--testnet"@]
    } else {
        seq![]
    }
}

/// Computes [`node_arguments`].
pub fn make_node_arguments(node: &Node) -> (r: Vec<String>)
    ensures
        r.deep_view() == node_arguments(node@),
{
    let mut arguments: Vec<String> = Vec::new();
    arguments.push(String::from_str("--fake-node-name"));
    arguments.push(node.fake_node_name.clone());
    match &node.rpc {
        Some(rpc) => {
            arguments.push(String::from_str("--rpc"));
            arguments.push(rpc.clone());
        },
        None => {},
    }
    match &node.password {
        Some(password) => {
            arguments.push(String::from_str("--password"));
            arguments.push(password.clone());
        },
        None => {},
    }
    if node.is_testnet {
        arguments.push(String::from_str("--testnet"));
    }
    arguments
}

/// The ports of nodes, in order.
pub open spec fn ports_of(nodes: Seq<NodeView>) -> Seq<u16> {
    Seq::new(nodes.len(), |i: int| nodes[i].port)
}

/// Computes [`ports_of`].
pub fn make_ports(nodes: &Vec<Node>) -> (r: Vec<u16>)
    ensures
        r@ == ports_of(nodes.deep_view()),
{
    let mut ports: Vec<u16> = Vec::new();
    let mut i: usize = 0;
    while i < nodes.len()
        invariant
            i <= nodes.len(),
            ports.len() == i,
            forall|j: int| 0 <= j < i ==> #[trigger] ports[j] == nodes[j].port,
        decreases nodes.len() - i,
    {
        ports.push(nodes[i].port);
        i += 1;
    }
    ports
}

/// What a scenario is run with.
#[derive(Debug, PartialEq, Eq)]
pub struct ScenarioPlan {
    /// Whether the node processes are detached from the terminal.
    pub detached: bool,
    /// The runtime binary.
    pub runtime_path: String,
    pub test: Test,
}

/// What a [`ScenarioPlan`] holds.
pub struct ScenarioPlanView {
    pub detached: bool,
    pub runtime_path: Seq<char>,
    pub test: TestView,
}

impl View for ScenarioPlan {
    type V = ScenarioPlanView;

    open spec fn view(&self) -> ScenarioPlanView {
        ScenarioPlanView {
            detached: self.detached,
            runtime_path: self.runtime_path@,
            test: self.test@,
        }
    }
}

/// How far a scenario has come.
#[derive(Debug, PartialEq, Eq)]
pub enum ScenarioPhase {
    /// The package at `index` is being built: the setup packages come
    /// first, then the test packages.
    Building { index: usize },
    /// The cleanup worker, the signal bridge and the network plane are
    /// being started.
    StartingServices,
    /// The home of the node at `index` is being made ready.
    PreparingHome { index: usize },
    /// The node at `index` is being launched.
    Launching { index: usize },
    /// The node at `index` is being waited for.
    Booting { index: usize, waiter: BootWaiter },
    /// The setup package at `setup` is being installed in the node at
    /// `node`.
    Installing { node: usize, setup: usize },
    /// The test packages are being loaded into the master.
    LoadingTests { loader: TestLoader },
    /// The tests are running.
    Running { runner: TestRun },
    /// The teardown is under way; the result of the scenario is kept for
    /// after it.
    TearingDown { outcome: Result<(), RunError> },
    /// The scenario is over.
    Finished,
}

/// What a [`ScenarioPhase`] holds.
pub enum ScenarioPhaseView {
    Building { index: usize },
    StartingServices,
    PreparingHome { index: usize },
    Launching { index: usize },
    Booting { index: usize, waiter: BootWaiterView },
    Installing { node: usize, setup: usize },
    LoadingTests { loader: TestLoaderView },
    Running { runner: TestRunView },
    TearingDown { outcome: Result<(), RunErrorView> },
    Finished,
}

impl View for ScenarioPhase {
    type V = ScenarioPhaseView;

    open spec fn view(&self) -> ScenarioPhaseView {
        match *self {
            ScenarioPhase::Building { index } => ScenarioPhaseView::Building { index },
            ScenarioPhase::StartingServices => ScenarioPhaseView::StartingServices,
            ScenarioPhase::PreparingHome { index } => ScenarioPhaseView::PreparingHome { index },
            ScenarioPhase::Launching { index } => ScenarioPhaseView::Launching { index },
            ScenarioPhase::Booting { index, waiter } => ScenarioPhaseView::Booting {
                index,
                waiter: waiter@,
            },
            ScenarioPhase::Installing { node, setup } => ScenarioPhaseView::Installing {
                node,
                setup,
            },
            ScenarioPhase::LoadingTests { loader } => ScenarioPhaseView::LoadingTests {
                loader: loader@,
            },
            ScenarioPhase::Running { runner } => ScenarioPhaseView::Running { runner: runner@ },
            ScenarioPhase::TearingDown { outcome } => ScenarioPhaseView::TearingDown {
                outcome: result_view(outcome),
            },
            ScenarioPhase::Finished => ScenarioPhaseView::Finished,
        }
    }
}

/// The teardown begins, and the result of the scenario is kept for after
/// it.
pub open spec fn conclude(outcome: Result<(), RunErrorView>) -> (ScenarioPhaseView, StepView) {
    (ScenarioPhaseView::TearingDown { outcome }, StepView::Perform(EffectView::Teardown))
}

/// The scenario has failed: the teardown begins.
pub open spec fn fail(e: RunErrorView) -> (ScenarioPhaseView, StepView) {
    conclude(Err(e))
}

impl ScenarioPlanView {
    /// The package at `index` is built: the setup packages come first,
    /// then the test packages. After the last package the services are
    /// started.
    pub open spec fn build(self, index: usize) -> (ScenarioPhaseView, StepView) {
        let setups = self.test.setup_package_paths;
        let tests = self.test.test_packages;
        if index < setups.len() {
            (
                ScenarioPhaseView::Building { index },
                StepView::Perform(
                    EffectView::Build {
                        package: setups[index as int],
                        verbose: self.test.package_build_verbose,
                    },
                ),
            )
        } else if index - setups.len() < tests.len() {
            (
                ScenarioPhaseView::Building { index },
                StepView::Perform(
                    EffectView::Build {
                        package: tests[index - setups.len()].path,
                        verbose: self.test.package_build_verbose,
                    },
                ),
            )
        } else {
            (
                ScenarioPhaseView::StartingServices,
                StepView::Perform(
                    EffectView::StartServices {
                        router_port: self.test.network_router.port,
                        defects: self.test.network_router.defects,
                        detached: self.detached,
                    },
                ),
            )
        }
    }

    /// The home of the node at `index` is made ready. After the last node
    /// the first is waited for.
    pub open spec fn prepare(self, index: usize) -> (ScenarioPhaseView, StepView) {
        if index < self.test.nodes.len() {
            (
                ScenarioPhaseView::PreparingHome { index },
                StepView::Perform(
                    EffectView::PrepareHome {
                        home: self.test.nodes[index as int].home,
                        state_dirs: state_dirs(),
                    },
                ),
            )
        } else {
            self.boot(0)
        }
    }

    /// The node at `index` is launched in its home, bound to the port of
    /// the network plane.
    pub open spec fn launch(self, index: usize, home: Seq<char>) -> (ScenarioPhaseView, StepView) {
        if index < self.test.nodes.len() {
            let node = self.test.nodes[index as int];
            (
                ScenarioPhaseView::Launching { index },
                StepView::Perform(
                    EffectView::Launch {
                        runtime: self.runtime_path,
                        home,
                        port: node.port,
                        router_port: self.test.network_router.port,
                        arguments: node_arguments(node),
                        verbose: node.runtime_verbose,
                        detached: self.detached,
                    },
                ),
            )
        } else {
            fail(RunErrorView::Unexpected)
        }
    }

    /// The node at `index` is waited for. After the last node the setup
    /// packages are installed.
    pub open spec fn boot(self, index: usize) -> (ScenarioPhaseView, StepView) {
        if index < self.test.nodes.len() {
            let (waiter, first) = BootWaiterView::start(
                self.test.nodes[index as int].port,
                BOOT_ATTEMPTS,
            );
            match first {
                StepView::Perform(effect) => (
                    ScenarioPhaseView::Booting { index, waiter },
                    StepView::Perform(effect),
                ),
                StepView::Finish(Ok(())) => fail(RunErrorView::Unexpected),
                StepView::Finish(Err(e)) => fail(e),
            }
        } else {
            self.install(0, 0)
        }
    }

    /// The setup package at `setup` is installed in the node at `node`.
    /// Where there is none, the test packages are loaded.
    pub open spec fn install(self, node: usize, setup: usize) -> (ScenarioPhaseView, StepView) {
        if node < self.test.nodes.len() && setup < self.test.setup_package_paths.len() {
            (
                ScenarioPhaseView::Installing { node, setup },
                StepView::Perform(
                    EffectView::InstallPackage {
                        package: self.test.setup_package_paths[setup as int],
                        url: node_url(self.test.nodes[node as int].port),
                    },
                ),
            )
        } else {
            self.load()
        }
    }

    /// The installation that follows the one of `setup` in `node`: the
    /// next setup package in the same node, or the first in the next node.
    pub open spec fn install_after(self, node: usize, setup: usize) -> (
        ScenarioPhaseView,
        StepView,
    ) {
        if setup + 1 < self.test.setup_package_paths.len() {
            self.install(node, (setup + 1) as usize)
        } else if node + 1 < self.test.nodes.len() {
            self.install((node + 1) as usize, 0)
        } else {
            self.load()
        }
    }

    /// The test packages are loaded into the master, the first node.
    pub open spec fn load(self) -> (ScenarioPhaseView, StepView) {
        if self.test.nodes.len() == 0 {
            fail(RunErrorView::NoNodes)
        } else {
            let (loader, first) = TestLoaderView::start(
                self.test.test_packages,
                self.test.nodes[0].port,
            );
            match first {
                StepView::Perform(effect) => (
                    ScenarioPhaseView::LoadingTests { loader },
                    StepView::Perform(effect),
                ),
                StepView::Finish(Ok(())) => self.run(),
                StepView::Finish(Err(e)) => fail(e),
            }
        }
    }

    /// The tests are run on all nodes. A node that cannot be named ends
    /// the scenario.
    pub open spec fn run(self) -> (ScenarioPhaseView, StepView) {
        let homes = homes_of(self.test.nodes);
        match node_names(homes) {
            Err(home) => fail(RunErrorView::NoBasename(home)),
            Ok(names) => {
                let (runner, first) = TestRunView::start(
                    package_paths(self.test.test_packages),
                    ports_of(self.test.nodes),
                    names,
                    self.test.timeout_secs,
                );
                match first {
                    StepView::Perform(effect) => (
                        ScenarioPhaseView::Running { runner },
                        StepView::Perform(effect),
                    ),
                    StepView::Finish(outcome) => conclude(outcome),
                }
            },
        }
    }

    /// The first step of a scenario.
    pub open spec fn start(self) -> (ScenarioPhaseView, StepView) {
        self.build(0)
    }

    /// The step that an event leads to. Whatever fails, and at the end of
    /// the run whatever its outcome, the teardown is asked for; when it
    /// has been done, however it went, the scenario ends with the result
    /// that was kept.
    pub open spec fn next(self, phase: ScenarioPhaseView, event: Event) -> (
        ScenarioPhaseView,
        StepView,
    ) {
        match phase {
            ScenarioPhaseView::Building { index } => match event {
                Event::Completed => if index < usize::MAX {
                    self.build((index + 1) as usize)
                } else {
                    fail(RunErrorView::Unexpected)
                },
                _ => fail(failure_of(event)),
            },
            ScenarioPhaseView::StartingServices => match event {
                Event::Completed => self.prepare(0),
                _ => fail(failure_of(event)),
            },
            ScenarioPhaseView::PreparingHome { index } => match event {
                Event::Resolved(home) => self.launch(index, home@),
                _ => fail(failure_of(event)),
            },
            ScenarioPhaseView::Launching { index } => match event {
                Event::Completed => if index < usize::MAX {
                    self.prepare((index + 1) as usize)
                } else {
                    fail(RunErrorView::Unexpected)
                },
                _ => fail(failure_of(event)),
            },
            ScenarioPhaseView::Booting { index, waiter } => {
                let (moved, out) = waiter.next(event);
                match out {
                    StepView::Perform(effect) => (
                        ScenarioPhaseView::Booting { index, waiter: moved },
                        StepView::Perform(effect),
                    ),
                    StepView::Finish(Ok(())) => if index < usize::MAX {
                        self.boot((index + 1) as usize)
                    } else {
                        fail(RunErrorView::Unexpected)
                    },
                    StepView::Finish(Err(e)) => fail(e),
                }
            },
            ScenarioPhaseView::Installing { node, setup } => match event {
                Event::Completed => if node < usize::MAX && setup < usize::MAX {
                    self.install_after(node, setup)
                } else {
                    fail(RunErrorView::Unexpected)
                },
                _ => fail(failure_of(event)),
            },
            ScenarioPhaseView::LoadingTests { loader } => {
                let (moved, out) = loader.next(event);
                match out {
                    StepView::Perform(effect) => (
                        ScenarioPhaseView::LoadingTests { loader: moved },
                        StepView::Perform(effect),
                    ),
                    StepView::Finish(Ok(())) => self.run(),
                    StepView::Finish(Err(e)) => fail(e),
                }
            },
            ScenarioPhaseView::Running { runner } => {
                let (moved, out) = runner.next(event);
                match out {
                    StepView::Perform(effect) => (
                        ScenarioPhaseView::Running { runner: moved },
                        StepView::Perform(effect),
                    ),
                    StepView::Finish(outcome) => conclude(outcome),
                }
            },
            ScenarioPhaseView::TearingDown { outcome } => (
                ScenarioPhaseView::Finished,
                StepView::Finish(outcome),
            ),
            ScenarioPhaseView::Finished => (
                ScenarioPhaseView::Finished,
                StepView::Finish(Err(RunErrorView::Unexpected)),
            ),
        }
    }
}

fn make_conclude(outcome: Result<(), RunError>) -> (r: (ScenarioPhase, Step))
    ensures
        (r.0@, r.1@) == conclude(result_view(outcome)),
{
    (ScenarioPhase::TearingDown { outcome }, Step::Perform(Effect::Teardown))
}

fn make_fail(e: RunError) -> (r: (ScenarioPhase, Step))
    ensures
        (r.0@, r.1@) == fail(e@),
{
    make_conclude(Err(e))
}

impl ScenarioPlan {
    fn build(&self, index: usize) -> (r: (ScenarioPhase, Step))
        ensures
            (r.0@, r.1@) == self@.build(index),
    {
        let setups = &self.test.setup_package_paths;
        let tests = &self.test.test_packages;
        if index < setups.len() {
            (
                ScenarioPhase::Building { index },
                Step::Perform(
                    Effect::Build {
                        package: setups[index].clone(),
                        verbose: self.test.package_build_verbose,
                    },
                ),
            )
        } else if index - setups.len() < tests.len() {
            (
                ScenarioPhase::Building { index },
                Step::Perform(
                    Effect::Build {
                        package: tests[index - setups.len()].path.clone(),
                        verbose: self.test.package_build_verbose,
                    },
                ),
            )
        } else {
            (
                ScenarioPhase::StartingServices,
                Step::Perform(
                    Effect::StartServices {
                        router_port: self.test.network_router.port,
                        defects: self.test.network_router.defects.clone(),
                        detached: self.detached,
                    },
                ),
            )
        }
    }

    fn prepare(&self, index: usize) -> (r: (ScenarioPhase, Step))
        ensures
            (r.0@, r.1@) == self@.prepare(index),
    {
        if index < self.test.nodes.len() {
            (
                ScenarioPhase::PreparingHome { index },
                Step::Perform(
                    Effect::PrepareHome {
                        home: self.test.nodes[index].home.clone(),
                        state_dirs: make_state_dirs(),
                    },
                ),
            )
        } else {
            self.boot(0)
        }
    }

    fn launch(&self, index: usize, home: String) -> (r: (ScenarioPhase, Step))
        ensures
            (r.0@, r.1@) == self@.launch(index, home@),
    {
        if index < self.test.nodes.len() {
            let node = &self.test.nodes[index];
            (
                ScenarioPhase::Launching { index },
                Step::Perform(
                    Effect::Launch {
                        runtime: self.runtime_path.clone(),
                        home,
                        port: node.port,
                        router_port: self.test.network_router.port,
                        arguments: make_node_arguments(node),
                        verbose: node.runtime_verbose,
                        detached: self.detached,
                    },
                ),
            )
        } else {
            make_fail(RunError::Unexpected)
        }
    }

    fn boot(&self, index: usize) -> (r: (ScenarioPhase, Step))
        ensures
            (r.0@, r.1@) == self@.boot(index),
    {
        if index < self.test.nodes.len() {
            let (waiter, first) = BootWaiter::start(self.test.nodes[index].port, BOOT_ATTEMPTS);
            match first {
                Step::Perform(effect) => (
                    ScenarioPhase::Booting { index, waiter },
                    Step::Perform(effect),
                ),
                Step::Finish(Ok(())) => make_fail(RunError::Unexpected),
                Step::Finish(Err(e)) => make_fail(e),
            }
        } else {
            self.install(0, 0)
        }
    }

    fn install(&self, node: usize, setup: usize) -> (r: (ScenarioPhase, Step))
        ensures
            (r.0@, r.1@) == self@.install(node, setup),
    {
        if node < self.test.nodes.len() && setup < self.test.setup_package_paths.len() {
            (
                ScenarioPhase::Installing { node, setup },
                Step::Perform(
                    Effect::InstallPackage {
                        package: self.test.setup_package_paths[setup].clone(),
                        url: make_node_url(self.test.nodes[node].port),
                    },
                ),
            )
        } else {
            self.load()
        }
    }

    fn install_after(&self, node: usize, setup: usize) -> (r: (ScenarioPhase, Step))
        requires
            node < usize::MAX,
            setup < usize::MAX,
        ensures
            (r.0@, r.1@) == self@.install_after(node, setup),
    {
        if setup + 1 < self.test.setup_package_paths.len() {
            self.install(node, setup + 1)
        } else if node + 1 < self.test.nodes.len() {
            self.install(node + 1, 0)
        } else {
            self.load()
        }
    }

    fn load(&self) -> (r: (ScenarioPhase, Step))
        ensures
            (r.0@, r.1@) == self@.load(),
    {
        if self.test.nodes.len() == 0 {
            make_fail(RunError::NoNodes)
        } else {
            let packages = crate::run_tests::clone_packages(&self.test.test_packages);
            let (loader, first) = TestLoader::start(packages, self.test.nodes[0].port);
            match first {
                Step::Perform(effect) => (
                    ScenarioPhase::LoadingTests { loader },
                    Step::Perform(effect),
                ),
                Step::Finish(Ok(())) => self.run(),
                Step::Finish(Err(e)) => make_fail(e),
            }
        }
    }

    fn run(&self) -> (r: (ScenarioPhase, Step))
        ensures
            (r.0@, r.1@) == self@.run(),
    {
        match make_node_names(&self.test.nodes) {
            Err(home) => make_fail(RunError::NoBasename(home)),
            Ok(names) => {
                let (runner, first) = TestRun::start(
                    make_test_names(&self.test.test_packages),
                    make_ports(&self.test.nodes),
                    names,
                    self.test.timeout_secs,
                );
                match first {
                    Step::Perform(effect) => (
                        ScenarioPhase::Running { runner },
                        Step::Perform(effect),
                    ),
                    Step::Finish(outcome) => make_conclude(outcome),
                }
            },
        }
    }

    fn next(&self, phase: ScenarioPhase, event: Event) -> (r: (ScenarioPhase, Step))
        ensures
            (r.0@, r.1@) == self@.next(phase@, event),
    {
        match phase {
            ScenarioPhase::Building { index } => match event {
                Event::Completed => {
                    if index < usize::MAX {
                        self.build(index + 1)
                    } else {
                        make_fail(RunError::Unexpected)
                    }
                },
                other => make_fail(event_failure(other)),
            },
            ScenarioPhase::StartingServices => match event {
                Event::Completed => self.prepare(0),
                other => make_fail(event_failure(other)),
            },
            ScenarioPhase::PreparingHome { index } => match event {
                Event::Resolved(home) => self.launch(index, home),
                other => make_fail(event_failure(other)),
            },
            ScenarioPhase::Launching { index } => match event {
                Event::Completed => {
                    if index < usize::MAX {
                        self.prepare(index + 1)
                    } else {
                        make_fail(RunError::Unexpected)
                    }
                },
                other => make_fail(event_failure(other)),
            },
            ScenarioPhase::Booting { index, waiter } => {
                let (moved, out) = waiter.step(event);
                match out {
                    Step::Perform(effect) => (
                        ScenarioPhase::Booting { index, waiter: moved },
                        Step::Perform(effect),
                    ),
                    Step::Finish(Ok(())) => {
                        if index < usize::MAX {
                            self.boot(index + 1)
                        } else {
                            make_fail(RunError::Unexpected)
                        }
                    },
                    Step::Finish(Err(e)) => make_fail(e),
                }
            },
            ScenarioPhase::Installing { node, setup } => match event {
                Event::Completed => {
                    if node < usize::MAX && setup < usize::MAX {
                        self.install_after(node, setup)
                    } else {
                        make_fail(RunError::Unexpected)
                    }
                },
                other => make_fail(event_failure(other)),
            },
            ScenarioPhase::LoadingTests { loader } => {
                let (moved, out) = loader.step(event);
                match out {
                    Step::Perform(effect) => (
                        ScenarioPhase::LoadingTests { loader: moved },
                        Step::Perform(effect),
                    ),
                    Step::Finish(Ok(())) => self.run(),
                    Step::Finish(Err(e)) => make_fail(e),
                }
            },
            ScenarioPhase::Running { runner } => {
                let (moved, out) = runner.step(event);
                match out {
                    Step::Perform(effect) => (
                        ScenarioPhase::Running { runner: moved },
                        Step::Perform(effect),
                    ),
                    Step::Finish(outcome) => make_conclude(outcome),
                }
            },
            ScenarioPhase::TearingDown { outcome } => (
                ScenarioPhase::Finished,
                Step::Finish(outcome),
            ),
            ScenarioPhase::Finished => (
                ScenarioPhase::Finished,
                Step::Finish(Err(RunError::Unexpected)),
            ),
        }
    }
}

/// A scenario as a state machine.
#[derive(Debug, PartialEq, Eq)]
pub struct Scenario {
    pub plan: ScenarioPlan,
    pub phase: ScenarioPhase,
}

/// What a [`Scenario`] holds.
pub struct ScenarioView {
    pub plan: ScenarioPlanView,
    pub phase: ScenarioPhaseView,
}

impl View for Scenario {
    type V = ScenarioView;

    open spec fn view(&self) -> ScenarioView {
        ScenarioView { plan: self.plan@, phase: self.phase@ }
    }
}

impl ScenarioView {
    /// The phase belongs to the plan.
    pub open spec fn wf(self) -> bool {
        self.plan.fits(self.phase)
    }
}

impl Scenario {
    /// Begins a scenario: see [`ScenarioPlanView::start`].
    pub fn start(plan: ScenarioPlan) -> (r: (Scenario, Step))
        ensures
            r.0.plan@ == plan@,
            (r.0.phase@, r.1@) == plan@.start(),
            r.0@.wf(),
    {
        let (phase, first) = plan.build(0);
        (Scenario { plan, phase }, first)
    }

    /// Takes the event that answers the effect asked for last: see
    /// [`ScenarioPlanView::next`].
    pub fn step(self, event: Event) -> (r: (Scenario, Step))
        ensures
            r.0.plan@ == self.plan@,
            (r.0.phase@, r.1@) == self.plan@.next(self.phase@, event),
            self@.wf() ==> r.0@.wf(),
    {
        let (phase, out) = self.plan.next(self.phase, event);
        (Scenario { plan: self.plan, phase }, out)
    }
}

/// Runs one scenario with a runtime binary.
pub fn handle_test(detached: bool, runtime_path: &str, test: Test) -> (r: (Scenario, Step))
    ensures
        r.0.plan@ == (ScenarioPlanView { detached, runtime_path: runtime_path@, test: test@ }),
        (r.0.phase@, r.1@) == r.0.plan@.start(),
        r.0@.wf(),
{
    Scenario::start(ScenarioPlan { detached, runtime_path: String::from_str(runtime_path), test })
}

/// The phase that a scenario is in after a run of events, each the answer
/// to the effect asked for before it.
pub open spec fn phase_after(plan: ScenarioPlanView, events: Seq<Event>) -> ScenarioPhaseView
    decreases events.len(),
{
    if events.len() == 0 {
        plan.start().0
    } else {
        plan.next(phase_after(plan, events.drop_last()), events.last()).0
    }
}

/// The step that a scenario takes after a run of events: its first step
/// where no event has come yet.
pub open spec fn step_after(plan: ScenarioPlanView, events: Seq<Event>) -> StepView {
    if events.len() == 0 {
        plan.start().1
    } else {
        plan.next(phase_after(plan, events.drop_last()), events.last()).1
    }
}

/// How often a scenario has asked for the teardown, up to the step that
/// it takes after a run of events.
pub open spec fn teardowns(plan: ScenarioPlanView, events: Seq<Event>) -> nat
    decreases events.len(),
{
    let asked: nat = if step_after(plan, events) == StepView::Perform(EffectView::Teardown) {
        1
    } else {
        0
    };
    if events.len() == 0 {
        asked
    } else {
        teardowns(plan, events.drop_last()) + asked
    }
}

/// Whether a scenario has ended within a run of events.
pub open spec fn ended(plan: ScenarioPlanView, events: Seq<Event>) -> bool
    decreases events.len(),
{
    step_after(plan, events) is Finish || (events.len() > 0 && ended(plan, events.drop_last()))
}

/// A step of a scenario asks for the teardown exactly when it leaves the
/// phases of work: never out of the teardown itself, and never after the
/// end. The scenario ends only out of the teardown.
pub proof fn lemma_scenario_step(plan: ScenarioPlanView, phase: ScenarioPhaseView, event: Event)
    ensures
        ({
            let (after, out) = plan.next(phase, event);
            let working = !(phase is TearingDown) && !(phase is Finished);
            &&& out == StepView::Perform(EffectView::Teardown) <==> working && after is TearingDown
            &&& working ==> out is Perform && !(after is Finished)
            &&& !working ==> out is Finish && after is Finished
            &&& phase matches ScenarioPhaseView::TearingDown { outcome } ==> out
                == StepView::Finish(outcome)
        }),
{
    lemma_scenario_begins(plan);
}

/// Whatever a phase of work begins with, it asks for the teardown exactly
/// when it has failed at once.
pub proof fn lemma_scenario_begins(plan: ScenarioPlanView)
    ensures
        forall|index: usize| works(#[trigger] plan.build(index)),
        forall|index: usize| works(#[trigger] plan.prepare(index)),
        forall|index: usize, home: Seq<char>| works(#[trigger] plan.launch(index, home)),
        forall|index: usize| works(#[trigger] plan.boot(index)),
        forall|node: usize, setup: usize| works(#[trigger] plan.install(node, setup)),
        forall|node: usize, setup: usize| works(#[trigger] plan.install_after(node, setup)),
        works(plan.load()),
        works(plan.run()),
{
}

/// Whether what a phase begins with is an effect: the teardown and nothing
/// else where the phase that follows is the teardown.
pub open spec fn works(began: (ScenarioPhaseView, StepView)) -> bool {
    &&& began.1 is Perform
    &&& !(began.0 is Finished)
    &&& began.1 == StepView::Perform(EffectView::Teardown) <==> began.0 is TearingDown
}

/// The teardown is asked for exactly once in every scenario that ends,
/// wherever a failure came from, and never twice in any: before the end
/// comes one teardown, and the end gives the result that was kept when the
/// teardown was asked for.
pub proof fn lemma_teardown_exactly_once(plan: ScenarioPlanView, events: Seq<Event>)
    ensures
        teardowns(plan, events) <= 1,
        ended(plan, events) ==> teardowns(plan, events) == 1,
        teardowns(plan, events) == 1 <==> phase_after(plan, events) is TearingDown || phase_after(
            plan,
            events,
        ) is Finished,
        ended(plan, events) <==> phase_after(plan, events) is Finished,
    decreases events.len(),
{
    lemma_scenario_begins(plan);
    if events.len() > 0 {
        lemma_teardown_exactly_once(plan, events.drop_last());
        lemma_scenario_step(plan, phase_after(plan, events.drop_last()), events.last());
    }
}

impl ScenarioPlanView {
    /// Whether a phase belongs to the plan: a wait is for the node whose
    /// turn it is, with the probes that a node is given.
    pub open spec fn fits(self, phase: ScenarioPhaseView) -> bool {
        match phase {
            ScenarioPhaseView::Booting { index, waiter } => {
                &&& index < self.test.nodes.len()
                &&& waiter.port == self.test.nodes[index as int].port
                &&& waiter.max_waits == BOOT_ATTEMPTS
                &&& waiter.wf()
            },
            _ => true,
        }
    }
}

/// Every phase that a scenario comes to belongs to its plan.
pub proof fn lemma_scenario_keeps_fit(
    plan: ScenarioPlanView,
    phase: ScenarioPhaseView,
    event: Event,
)
    requires
        plan.fits(phase),
    ensures
        plan.fits(plan.start().0),
        plan.fits(plan.next(phase, event).0),
{
}

/// A scenario fails as "could not connect" only while it waits for a
/// node: the port named is that of the node whose turn it was, and every
/// probe that a node is given has been sent to it.
pub proof fn lemma_unreachable_node_is_named(
    plan: ScenarioPlanView,
    phase: ScenarioPhaseView,
    event: Event,
    port: u16,
)
    requires
        plan.fits(phase),
        plan.next(phase, event) == fail(RunErrorView::CouldNotConnect(port)),
    ensures
        phase matches ScenarioPhaseView::Booting { index, waiter } && port
            == plan.test.nodes[index as int].port && waiter.attempts == BOOT_ATTEMPTS,
{
}

/// A node that does not boot ends the work of the scenario: the teardown
/// follows at once, no later node is probed, and the failure of the wait
/// is the result that is kept.
pub proof fn lemma_boot_failure_aborts(
    plan: ScenarioPlanView,
    index: usize,
    waiter: BootWaiterView,
    event: Event,
    e: RunErrorView,
)
    requires
        waiter.next(event).1 == StepView::Finish(Err(e)),
    ensures
        plan.next(ScenarioPhaseView::Booting { index, waiter }, event) == fail(e),
        plan.next(fail(e).0, Event::Completed) == (
            ScenarioPhaseView::Finished,
            StepView::Finish(Err(e)),
        ),
{
}

} // verus!
