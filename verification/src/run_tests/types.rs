//! The test plan: what a scenario is made of.

use vstd::prelude::*;

verus! {

/// A test package and the capabilities to grant it.
#[derive(Debug, PartialEq, Eq)]
pub struct TestPackage {
    /// Where the package lies. Its final component names the package.
    pub path: String,
    pub grant_capabilities: Vec<String>,
}

/// What a [`TestPackage`] holds.
pub struct TestPackageView {
    pub path: Seq<char>,
    pub grant_capabilities: Seq<Seq<char>>,
}

impl DeepView for TestPackage {
    type V = TestPackageView;

    open spec fn deep_view(&self) -> TestPackageView {
        TestPackageView {
            path: self.path@,
            grant_capabilities: self.grant_capabilities.deep_view(),
        }
    }
}

impl View for TestPackage {
    type V = TestPackageView;

    open spec fn view(&self) -> TestPackageView {
        self.deep_view()
    }
}

/// A node of a scenario.
#[derive(Debug, PartialEq, Eq)]
pub struct Node {
    /// The home directory of the node. Its final component names the node.
    pub home: String,
    /// The port that the node listens on, unique within a scenario.
    pub port: u16,
    pub fake_node_name: String,
    /// An external RPC endpoint.
    pub rpc: Option<String>,
    pub password: Option<String>,
    pub is_testnet: bool,
    pub runtime_verbose: bool,
}

/// What a [`Node`] holds.
pub struct NodeView {
    pub home: Seq<char>,
    pub port: u16,
    pub fake_node_name: Seq<char>,
    pub rpc: Option<Seq<char>>,
    pub password: Option<Seq<char>>,
    pub is_testnet: bool,
    pub runtime_verbose: bool,
}

impl DeepView for Node {
    type V = NodeView;

    open spec fn deep_view(&self) -> NodeView {
        NodeView {
            home: self.home@,
            port: self.port,
            fake_node_name: self.fake_node_name@,
            rpc: self.rpc.deep_view(),
            password: self.password.deep_view(),
            is_testnet: self.is_testnet,
            runtime_verbose: self.runtime_verbose,
        }
    }
}

impl View for Node {
    type V = NodeView;

    open spec fn view(&self) -> NodeView {
        self.deep_view()
    }
}

/// The network plane of a scenario: its port and the defects that it
/// simulates, which only the network plane itself reads.
#[derive(Debug, PartialEq, Eq)]
pub struct NetworkRouter {
    pub port: u16,
    pub defects: String,
}

/// What a [`NetworkRouter`] holds.
pub struct NetworkRouterView {
    pub port: u16,
    pub defects: Seq<char>,
}

impl View for NetworkRouter {
    type V = NetworkRouterView;

    open spec fn view(&self) -> NetworkRouterView {
        NetworkRouterView { port: self.port, defects: self.defects@ }
    }
}

/// A scenario: one cycle of boot, injection, run and teardown, on nodes of
/// its own. The first node is the master.
#[derive(Debug, PartialEq, Eq)]
pub struct Test {
    pub setup_package_paths: Vec<String>,
    pub test_packages: Vec<TestPackage>,
    pub package_build_verbose: bool,
    /// The timeout of the run in seconds, which the nodes enforce.
    pub timeout_secs: u64,
    pub network_router: NetworkRouter,
    pub nodes: Vec<Node>,
}

/// What a [`Test`] holds.
pub struct TestView {
    pub setup_package_paths: Seq<Seq<char>>,
    pub test_packages: Seq<TestPackageView>,
    pub package_build_verbose: bool,
    pub timeout_secs: u64,
    pub network_router: NetworkRouterView,
    pub nodes: Seq<NodeView>,
}

impl DeepView for Test {
    type V = TestView;

    open spec fn deep_view(&self) -> TestView {
        TestView {
            setup_package_paths: self.setup_package_paths.deep_view(),
            test_packages: self.test_packages.deep_view(),
            package_build_verbose: self.package_build_verbose,
            timeout_secs: self.timeout_secs,
            network_router: self.network_router@,
            nodes: self.nodes.deep_view(),
        }
    }
}

impl View for Test {
    type V = TestView;

    open spec fn view(&self) -> TestView {
        self.deep_view()
    }
}

impl TestView {
    /// No two nodes of the scenario listen on one port.
    pub open spec fn wf(self) -> bool {
        forall|i: int, j: int|
            0 <= i < j < self.nodes.len() ==> (#[trigger] self.nodes[i]).port
                != (#[trigger] self.nodes[j]).port
    }
}

impl Test {
    /// Tells whether no two nodes of the scenario listen on one port.
    pub fn is_well_formed(&self) -> (r: bool)
        ensures
            r == self@.wf(),
    {
        let ghost nodes = self@.nodes;
        let mut j: usize = 0;
        while j < self.nodes.len()
            invariant
                j <= self.nodes.len(),
                nodes == self@.nodes,
                forall|a: int, b: int|
                    0 <= a < b < j ==> (#[trigger] nodes[a]).port != (#[trigger] nodes[b]).port,
            decreases self.nodes.len() - j,
        {
            let mut i: usize = 0;
            while i < j
                invariant
                    i <= j,
                    j < self.nodes.len(),
                    nodes == self@.nodes,
                    forall|a: int|
                        0 <= a < i ==> (#[trigger] nodes[a]).port != nodes[j as int].port,
                decreases j - i,
            {
                assert(nodes[i as int] == self.nodes[i as int]@);
                if self.nodes[i].port == self.nodes[j].port {
                    return false;
                }
                i += 1;
            }
            j += 1;
        }
        true
    }
}

/// Where the runtime binary comes from.
#[derive(Debug, PartialEq, Eq)]
pub enum Runtime {
    /// A published version, to be fetched.
    FetchVersion(String),
    /// A source checkout, to be compiled.
    RepoPath(String),
}

/// What a [`Runtime`] holds.
pub enum RuntimeView {
    FetchVersion(Seq<char>),
    RepoPath(Seq<char>),
}

impl View for Runtime {
    type V = RuntimeView;

    open spec fn view(&self) -> RuntimeView {
        match *self {
            Runtime::FetchVersion(version) => RuntimeView::FetchVersion(version@),
            Runtime::RepoPath(path) => RuntimeView::RepoPath(path@),
        }
    }
}

/// A test plan: the runtime to use and the scenarios to run, in order.
#[derive(Debug, PartialEq, Eq)]
pub struct Config {
    pub runtime: Runtime,
    pub runtime_build_verbose: bool,
    pub runtime_build_release: bool,
    pub tests: Vec<Test>,
}

/// What a [`Config`] holds.
pub struct ConfigView {
    pub runtime: RuntimeView,
    pub runtime_build_verbose: bool,
    pub runtime_build_release: bool,
    pub tests: Seq<TestView>,
}

impl ConfigView {
    /// Every scenario of the plan is well formed.
    pub open spec fn wf(self) -> bool {
        forall|i: int| 0 <= i < self.tests.len() ==> (#[trigger] self.tests[i]).wf()
    }
}

impl Config {
    /// Tells whether every scenario of the plan is well formed.
    pub fn is_well_formed(&self) -> (r: bool)
        ensures
            r == self@.wf(),
    {
        let mut i: usize = 0;
        while i < self.tests.len()
            invariant
                i <= self.tests.len(),
                forall|t: int| 0 <= t < i ==> (#[trigger] self@.tests[t]).wf(),
            decreases self.tests.len() - i,
        {
            assert(self@.tests[i as int] == self.tests[i as int]@);
            if !self.tests[i].is_well_formed() {
                return false;
            }
            i += 1;
        }
        true
    }
}

impl View for Config {
    type V = ConfigView;

    open spec fn view(&self) -> ConfigView {
        ConfigView {
            runtime: self.runtime@,
            runtime_build_verbose: self.runtime_build_verbose,
            runtime_build_release: self.runtime_build_release,
            tests: self.tests.deep_view(),
        }
    }
}

} // verus!
