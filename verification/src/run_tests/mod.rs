//! Running a test plan: names and paths, and the state machines for boot,
//! package injection, the distributed run and the scenario as a whole.

pub mod boot;
pub mod driver;
pub mod loader;
pub mod runner;
pub mod scenario;
pub mod tester_types;
pub mod types;

use crate::text::{file_name, file_name_of, starts_with};
use types::{
    Config, ConfigView, Node, NodeView, Runtime, RuntimeView, Test, TestPackage,
    TestPackageView, TestView,
};
use vstd::prelude::*;
use vstd::string::*;

verus! {

/// `dirs::home_dir` gives the home directory of the current user, as the
/// environment and the system tell it, if there is one.
#[verifier::external_body]
fn home_directory() -> (home: Option<String>) {
    match dirs::home_dir() {
        Some(path) => Some(path.to_string_lossy().into_owned()),
        None => None,
    }
}

/// The final component of a path, by which a package or a node is named.
pub fn get_basename(file_path: &str) -> (name: Option<&str>)
    ensures
        name.deep_view() == file_name_of(file_path@),
{
    file_name(file_path)
}

/// A path under the home directory: a path that starts with `~/`, with the
/// `~` replaced by the home directory. There is none for other paths, nor
/// without a home directory.
pub open spec fn home_path(path: Seq<char>, home: Option<Seq<char>>) -> Option<Seq<char>> {
    match home {
        Some(h) => if "~/"@.is_prefix_of(path) {
            Some(h + path.skip(1))
        } else {
            None
        },
        None => None,
    }
}

/// A path with the home directory filled in, where it has a place for it.
pub open spec fn expanded_path(path: Seq<char>, home: Option<Seq<char>>) -> Seq<char> {
    match home_path(path, home) {
        Some(p) => p,
        None => path,
    }
}

/// Computes [`home_path`].
pub fn expand_home_path_string(path: &str, home: Option<&str>) -> (r: Option<String>)
    ensures
        r.deep_view() == home_path(path@, home.deep_view()),
{
    match home {
        Some(h) => {
            if starts_with(path, "~/") {
                proof {
                    reveal_strlit("~/");
                }
                let n = path.unicode_len();
                let rest = path.substring_char(1, n);
                Some(String::from_str(h).concat(rest))
            } else {
                None
            }
        },
        None => None,
    }
}

/// The path under the home directory of the current user that a path
/// starting with `~/` stands for.
pub fn expand_home_path(path: &str) -> (r: Option<String>)
    ensures
        exists|home: Option<Seq<char>>| r.deep_view() == #[trigger] home_path(path@, home),
{
    let home = home_directory();
    match &home {
        Some(h) => expand_home_path_string(path, Some(h.as_str())),
        None => expand_home_path_string(path, None),
    }
}

/// Computes [`expanded_path`].
pub fn expand_path(path: &str, home: Option<&str>) -> (r: String)
    ensures
        r@ == expanded_path(path@, home.deep_view()),
{
    match expand_home_path_string(path, home) {
        Some(p) => p,
        None => String::from_str(path),
    }
}

/// The name of a node with a home directory of this final component: the
/// component itself, with `.os` appended unless it ends so.
pub open spec fn node_name(base: Seq<char>) -> Seq<char> {
    if ".os"@.is_suffix_of(base) {
        base
    } else {
        base + ".os"@
    }
}

/// The names of the nodes with these home directories, in order; or the
/// first home directory that has no final component to name a node by.
pub open spec fn node_names(homes: Seq<Seq<char>>) -> Result<Seq<Seq<char>>, Seq<char>> {
    if forall|i: int| 0 <= i < homes.len() ==> file_name_of(#[trigger] homes[i]) is Some {
        Ok(Seq::new(homes.len(), |i: int| node_name(file_name_of(homes[i]).unwrap())))
    } else {
        Err(homes[first_nameless(homes)])
    }
}

/// The place of the first home directory without a final component; the
/// number of the home directories where each has one.
pub open spec fn first_nameless(homes: Seq<Seq<char>>) -> int
    decreases homes.len(),
{
    if homes.len() == 0 {
        0
    } else if file_name_of(homes[0]) is None {
        0
    } else {
        1 + first_nameless(homes.skip(1))
    }
}

/// The home directories of nodes.
pub open spec fn homes_of(nodes: Seq<NodeView>) -> Seq<Seq<char>> {
    Seq::new(nodes.len(), |i: int| nodes[i].home)
}

/// Computes [`node_name`].
pub fn make_node_name(base: &str) -> (r: String)
    ensures
        r@ == node_name(base@),
{
    if crate::text::ends_with(base, ".os") {
        String::from_str(base)
    } else {
        String::from_str(base).concat(".os")
    }
}

/// The names of the nodes of a scenario, in order. Fails with the home
/// directory of the first node that cannot be named.
pub fn make_node_names(nodes: &Vec<Node>) -> (r: Result<Vec<String>, String>)
    ensures
        match r {
            Ok(names) => node_names(homes_of(nodes.deep_view())) == Ok::<
                Seq<Seq<char>>,
                Seq<char>,
            >(names.deep_view()),
            Err(home) => node_names(homes_of(nodes.deep_view())) == Err::<
                Seq<Seq<char>>,
                Seq<char>,
            >(home@),
        },
{
    let ghost homes = homes_of(nodes.deep_view());
    let mut names: Vec<String> = Vec::new();
    let mut i: usize = 0;
    while i < nodes.len()
        invariant
            i <= nodes.len(),
            homes == homes_of(nodes.deep_view()),
            homes.len() == nodes.len(),
            names.len() == i,
            forall|j: int| 0 <= j < i ==> file_name_of(#[trigger] homes[j]) is Some,
            forall|j: int|
                0 <= j < i ==> (#[trigger] names[j])@ == node_name(file_name_of(homes[j]).unwrap()),
        decreases nodes.len() - i,
    {
        match get_basename(nodes[i].home.as_str()) {
            Some(base) => {
                names.push(make_node_name(base));
            },
            None => {
                proof {
                    lemma_first_nameless(homes, i as int);
                }
                return Err(nodes[i].home.clone());
            },
        }
        i += 1;
    }
    assert(names.deep_view() =~= Seq::new(
        homes.len(),
        |i: int| node_name(file_name_of(homes[i]).unwrap()),
    ));
    Ok(names)
}

/// The first home directory without a final component is the one before
/// which all have one.
proof fn lemma_first_nameless(homes: Seq<Seq<char>>, k: int)
    requires
        0 <= k < homes.len(),
        file_name_of(homes[k]) is None,
        forall|i: int| 0 <= i < k ==> file_name_of(#[trigger] homes[i]) is Some,
    ensures
        first_nameless(homes) == k,
    decreases k,
{
    if k > 0 {
        let rest = homes.skip(1);
        assert forall|i: int| 0 <= i < k - 1 implies file_name_of(#[trigger] rest[i]) is Some by {
            assert(rest[i] == homes[i + 1]);
        }
        assert(rest[k - 1] == homes[k]);
        lemma_first_nameless(rest, k - 1);
    }
}

/// The paths with the home directory filled in.
pub open spec fn expanded_paths(paths: Seq<Seq<char>>, home: Option<Seq<char>>) -> Seq<Seq<char>> {
    Seq::new(paths.len(), |i: int| expanded_path(paths[i], home))
}

impl TestPackageView {
    /// The package with the home directory filled in.
    pub open spec fn expanded(self, home: Option<Seq<char>>) -> TestPackageView {
        TestPackageView { path: expanded_path(self.path, home), ..self }
    }
}

impl NodeView {
    /// The node with the home directory filled in.
    pub open spec fn expanded(self, home: Option<Seq<char>>) -> NodeView {
        NodeView { home: expanded_path(self.home, home), ..self }
    }
}

impl TestView {
    /// The scenario with the home directory filled in, in the paths of its
    /// setup packages, of its test packages and of the homes of its nodes.
    pub open spec fn expanded(self, home: Option<Seq<char>>) -> TestView {
        TestView {
            setup_package_paths: expanded_paths(self.setup_package_paths, home),
            test_packages: Seq::new(
                self.test_packages.len(),
                |i: int| self.test_packages[i].expanded(home),
            ),
            nodes: Seq::new(self.nodes.len(), |i: int| self.nodes[i].expanded(home)),
            ..self
        }
    }
}

impl ConfigView {
    /// The plan with the home directory filled in: in the path of a source
    /// checkout of the runtime, and in every scenario.
    pub open spec fn expanded(self, home: Option<Seq<char>>) -> ConfigView {
        ConfigView {
            runtime: match self.runtime {
                RuntimeView::FetchVersion(version) => RuntimeView::FetchVersion(version),
                RuntimeView::RepoPath(path) => RuntimeView::RepoPath(expanded_path(path, home)),
            },
            tests: Seq::new(self.tests.len(), |i: int| self.tests[i].expanded(home)),
            ..self
        }
    }
}

/// Copies test packages.
pub fn clone_packages(packages: &Vec<TestPackage>) -> (r: Vec<TestPackage>)
    ensures
        r.deep_view() == packages.deep_view(),
{
    let mut out: Vec<TestPackage> = Vec::new();
    let mut i: usize = 0;
    while i < packages.len()
        invariant
            i <= packages.len(),
            out.len() == i,
            forall|j: int|
                0 <= j < i ==> (#[trigger] out[j]).deep_view() == packages[j].deep_view(),
        decreases packages.len() - i,
    {
        let package = &packages[i];
        let grants = package.grant_capabilities.clone();
        out.push(TestPackage { path: package.path.clone(), grant_capabilities: grants });
        i += 1;
    }
    out
}

/// Filling the home directory in changes no port: a plan that is well
/// formed stays so.
pub proof fn lemma_expansion_keeps_wf(config: ConfigView, home: Option<Seq<char>>)
    requires
        config.wf(),
    ensures
        config.expanded(home).wf(),
{
    let expanded = config.expanded(home);
    assert forall|t: int| 0 <= t < expanded.tests.len() implies (
    #[trigger] expanded.tests[t]).wf() by {
        let before = config.tests[t];
        let after = expanded.tests[t];
        assert(before.wf());
        assert forall|i: int, j: int| 0 <= i < j < after.nodes.len() implies (
        #[trigger] after.nodes[i]).port != (#[trigger] after.nodes[j]).port by {
            assert(after.nodes[i].port == before.nodes[i].port);
            assert(after.nodes[j].port == before.nodes[j].port);
        }
    }
}

fn expand_paths(paths: &Vec<String>, home: Option<&str>) -> (r: Vec<String>)
    ensures
        r.deep_view() == expanded_paths(paths.deep_view(), home.deep_view()),
{
    let mut out: Vec<String> = Vec::new();
    let mut i: usize = 0;
    while i < paths.len()
        invariant
            i <= paths.len(),
            out.len() == i,
            forall|j: int|
                0 <= j < i ==> (#[trigger] out[j])@ == expanded_path(paths[j]@, home.deep_view()),
        decreases paths.len() - i,
    {
        out.push(expand_path(paths[i].as_str(), home));
        i += 1;
    }
    out
}

fn expand_packages(packages: &Vec<TestPackage>, home: Option<&str>) -> (r: Vec<TestPackage>)
    ensures
        r.deep_view() == Seq::new(
            packages.deep_view().len(),
            |i: int| packages.deep_view()[i].expanded(home.deep_view()),
        ),
{
    let mut out: Vec<TestPackage> = Vec::new();
    let mut i: usize = 0;
    while i < packages.len()
        invariant
            i <= packages.len(),
            out.len() == i,
            forall|j: int|
                0 <= j < i ==> (#[trigger] out[j]).deep_view() == packages[j].deep_view().expanded(
                    home.deep_view(),
                ),
        decreases packages.len() - i,
    {
        let package = &packages[i];
        let grants = package.grant_capabilities.clone();
        out.push(
            TestPackage {
                path: expand_path(package.path.as_str(), home),
                grant_capabilities: grants,
            },
        );
        i += 1;
    }
    out
}

fn expand_nodes(nodes: &Vec<Node>, home: Option<&str>) -> (r: Vec<Node>)
    ensures
        r.deep_view() == Seq::new(
            nodes.deep_view().len(),
            |i: int| nodes.deep_view()[i].expanded(home.deep_view()),
        ),
{
    let mut out: Vec<Node> = Vec::new();
    let mut i: usize = 0;
    while i < nodes.len()
        invariant
            i <= nodes.len(),
            out.len() == i,
            forall|j: int|
                0 <= j < i ==> (#[trigger] out[j]).deep_view() == nodes[j].deep_view().expanded(
                    home.deep_view(),
                ),
        decreases nodes.len() - i,
    {
        let node = &nodes[i];
        out.push(
            Node {
                home: expand_path(node.home.as_str(), home),
                port: node.port,
                fake_node_name: node.fake_node_name.clone(),
                rpc: node.rpc.clone(),
                password: node.password.clone(),
                is_testnet: node.is_testnet,
                runtime_verbose: node.runtime_verbose,
            },
        );
        i += 1;
    }
    out
}

impl Test {
    /// Computes [`TestView::expanded`].
    pub fn expand_home_paths_with(self, home: Option<&str>) -> (r: Test)
        ensures
            r@ == self@.expanded(home.deep_view()),
    {
        Test {
            setup_package_paths: expand_paths(&self.setup_package_paths, home),
            test_packages: expand_packages(&self.test_packages, home),
            package_build_verbose: self.package_build_verbose,
            timeout_secs: self.timeout_secs,
            network_router: self.network_router,
            nodes: expand_nodes(&self.nodes, home),
        }
    }
}

impl Config {
    /// Computes [`ConfigView::expanded`].
    pub fn expand_home_paths_with(self, home: Option<&str>) -> (r: Config)
        ensures
            r@ == self@.expanded(home.deep_view()),
    {
        let runtime = match self.runtime {
            Runtime::FetchVersion(version) => Runtime::FetchVersion(version),
            Runtime::RepoPath(path) => Runtime::RepoPath(expand_path(path.as_str(), home)),
        };
        let ghost before = self.tests.deep_view();
        let mut tests: Vec<Test> = Vec::new();
        let mut rest = self.tests;
        while rest.len() > 0
            invariant
                tests.len() + rest.len() == before.len(),
                forall|j: int|
                    0 <= j < tests.len() ==> (#[trigger] tests[j]).deep_view()
                        == before[j].expanded(home.deep_view()),
                forall|j: int|
                    0 <= j < rest.len() ==> (#[trigger] rest[j]).deep_view() == before[tests.len()
                        + j],
            decreases rest.len(),
        {
            let test = rest.remove(0);
            tests.push(test.expand_home_paths_with(home));
        }
        assert(tests.deep_view() =~= Seq::new(
            before.len(),
            |i: int| before[i].expanded(home.deep_view()),
        ));
        Config {
            runtime,
            runtime_build_verbose: self.runtime_build_verbose,
            runtime_build_release: self.runtime_build_release,
            tests,
        }
    }

    /// Fills the home directory of the current user in, wherever a path of
    /// the plan starts with `~/`.
    pub fn expand_home_paths(self) -> (r: Config)
        ensures
            exists|home: Option<Seq<char>>| r@ == #[trigger] self@.expanded(home),
    {
        let home = home_directory();
        match &home {
            Some(h) => self.expand_home_paths_with(Some(h.as_str())),
            None => self.expand_home_paths_with(None),
        }
    }
}

} // verus!
