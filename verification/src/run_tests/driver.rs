//! A whole test plan: the runtime binary is resolved, then the scenarios
//! run in their order, up to the first that fails.

use crate::machine::{
    event_failure, failure_of, result_view, Effect, EffectView, Event, PathKind, RunError,
    RunErrorView, Step, StepView,
};
use crate::run_tests::scenario::{Scenario, ScenarioPlan, ScenarioPlanView, ScenarioView};
use crate::run_tests::types::{Config, ConfigView, Runtime, RuntimeView, Test, TestView};
use crate::text::{join_path, joined_path};
use vstd::prelude::*;
use vstd::string::*;

verus! {

/// Where the compiled runtime lies in a source checkout.
pub open spec fn compiled_runtime(repository: Seq<char>, release: bool) -> Seq<char> {
    joined_path(
        joined_path(
            joined_path(repository, "target"@),
            if release {
                "release"@
            } else {
                "debug"@
            },
        ),
        "kinode"@,
    )
}

/// Computes [`compiled_runtime`].
pub fn make_compiled_runtime(repository: &str, release: bool) -> (r: String)
    ensures
        r@ == compiled_runtime(repository@, release),
{
    let target = join_path(repository, "target");
    let profile = if release {
        join_path(target.as_str(), "release")
    } else {
        join_path(target.as_str(), "debug")
    };
    join_path(profile.as_str(), "kinode")
}

/// How far the plan has come.
#[derive(Debug, PartialEq, Eq)]
pub enum DriverPhase {
    /// The runtime binary of a published version is being fetched.
    Fetching,
    /// The source checkout of the runtime is being looked at.
    Inspecting,
    /// The runtime is being compiled.
    Compiling,
    /// A scenario is running.
    Running { scenario: Scenario },
    /// The plan is over.
    Finished,
}

/// What a [`DriverPhase`] holds.
pub enum DriverPhaseView {
    Fetching,
    Inspecting,
    Compiling,
    Running { scenario: ScenarioView },
    Finished,
}

impl View for DriverPhase {
    type V = DriverPhaseView;

    open spec fn view(&self) -> DriverPhaseView {
        match *self {
            DriverPhase::Fetching => DriverPhaseView::Fetching,
            DriverPhase::Inspecting => DriverPhaseView::Inspecting,
            DriverPhase::Compiling => DriverPhaseView::Compiling,
            DriverPhase::Running { scenario } => DriverPhaseView::Running { scenario: scenario@ },
            DriverPhase::Finished => DriverPhaseView::Finished,
        }
    }
}

/// The runtime of a plan and the scenarios that are still to run.
#[derive(Debug, PartialEq, Eq)]
pub struct RunQueue {
    pub runtime: Runtime,
    pub runtime_build_verbose: bool,
    pub runtime_build_release: bool,
    /// The runtime binary, once it is known.
    pub runtime_path: String,
    /// The scenarios that are still to run, in their order.
    pub remaining: Vec<Test>,
}

/// What a [`RunQueue`] holds.
pub struct RunQueueView {
    pub runtime: RuntimeView,
    pub runtime_build_verbose: bool,
    pub runtime_build_release: bool,
    pub runtime_path: Seq<char>,
    pub remaining: Seq<TestView>,
}

impl View for RunQueue {
    type V = RunQueueView;

    open spec fn view(&self) -> RunQueueView {
        RunQueueView {
            runtime: self.runtime@,
            runtime_build_verbose: self.runtime_build_verbose,
            runtime_build_release: self.runtime_build_release,
            runtime_path: self.runtime_path@,
            remaining: self.remaining.deep_view(),
        }
    }
}

/// A test plan that is being run, as a state machine.
#[derive(Debug, PartialEq, Eq)]
pub struct Driver {
    pub queue: RunQueue,
    pub phase: DriverPhase,
}

/// What a [`Driver`] holds.
pub struct DriverView {
    pub queue: RunQueueView,
    pub phase: DriverPhaseView,
}

impl View for Driver {
    type V = DriverView;

    open spec fn view(&self) -> DriverView {
        DriverView { queue: self.queue@, phase: self.phase@ }
    }
}

impl RunQueueView {
    /// The plan over, with a result.
    pub open spec fn end(self, result: Result<(), RunErrorView>) -> (DriverView, StepView) {
        (DriverView { queue: self, phase: DriverPhaseView::Finished }, StepView::Finish(result))
    }

    /// The plan in a phase, asking for an effect.
    pub open spec fn ask(self, phase: DriverPhaseView, effect: EffectView) -> (
        DriverView,
        StepView,
    ) {
        (DriverView { queue: self, phase }, StepView::Perform(effect))
    }

    /// The plan goes on with what a scenario has to say: its effect is
    /// performed, its failure ends the plan, and after its success the
    /// next scenario begins.
    pub open spec fn follow(self, scenario: ScenarioView, out: StepView) -> (DriverView, StepView) {
        match out {
            StepView::Perform(effect) => self.ask(DriverPhaseView::Running { scenario }, effect),
            StepView::Finish(Ok(())) => self.advance(),
            StepView::Finish(Err(e)) => self.end(Err(e)),
        }
    }

    /// The next scenario begins, with the node processes detached, or the
    /// plan ends in success where none is left.
    pub open spec fn advance(self) -> (DriverView, StepView)
        decreases self.remaining.len(),
    {
        if self.remaining.len() == 0 {
            self.end(Ok(()))
        } else {
            let plan = ScenarioPlanView {
                detached: true,
                runtime_path: self.runtime_path,
                test: self.remaining[0],
            };
            let (phase, first) = plan.start();
            let rest = RunQueueView { remaining: self.remaining.skip(1), ..self };
            match first {
                StepView::Perform(effect) => rest.ask(
                    DriverPhaseView::Running { scenario: ScenarioView { plan, phase } },
                    effect,
                ),
                StepView::Finish(Ok(())) => rest.advance(),
                StepView::Finish(Err(e)) => rest.end(Err(e)),
            }
        }
    }

    /// The first step of a plan: the runtime binary of a published version
    /// is fetched, or the source checkout is looked at. A plan that is not
    /// well formed ends at once, before any effect.
    pub open spec fn start(config: ConfigView) -> (DriverView, StepView) {
        let fresh = RunQueueView {
            runtime: config.runtime,
            runtime_build_verbose: config.runtime_build_verbose,
            runtime_build_release: config.runtime_build_release,
            runtime_path: Seq::empty(),
            remaining: config.tests,
        };
        if !config.wf() {
            fresh.end(Err(RunErrorView::PortsNotUnique))
        } else {
            fresh.begin()
        }
    }

    /// The runtime binary of a published version is fetched, or the source
    /// checkout is looked at.
    pub open spec fn begin(self) -> (DriverView, StepView) {
        let fresh = self;
        match self.runtime {
            RuntimeView::FetchVersion(version) => fresh.ask(
                DriverPhaseView::Fetching,
                EffectView::FetchRuntime { version },
            ),
            RuntimeView::RepoPath(path) => fresh.ask(
                DriverPhaseView::Inspecting,
                EffectView::Inspect { path },
            ),
        }
    }

    /// The source checkout, where the runtime comes from one.
    pub open spec fn repository(self) -> Seq<char> {
        match self.runtime {
            RuntimeView::RepoPath(path) => path,
            RuntimeView::FetchVersion(_) => Seq::empty(),
        }
    }

    /// The step that an event leads to. A source checkout must be there
    /// and be a directory; it is compiled, and the binary is taken from
    /// where the compiler puts it. The scenarios run in their order, and
    /// the first that fails ends the plan with its failure.
    pub open spec fn next(self, phase: DriverPhaseView, event: Event) -> (DriverView, StepView) {
        match phase {
            DriverPhaseView::Fetching => match event {
                Event::Resolved(path) => RunQueueView { runtime_path: path@, ..self }.advance(),
                _ => self.end(Err(failure_of(event))),
            },
            DriverPhaseView::Inspecting => match event {
                Event::Inspected(PathKind::Missing) => self.end(
                    Err(RunErrorView::RepositoryMissing(self.repository())),
                ),
                Event::Inspected(PathKind::File) => self.end(
                    Err(RunErrorView::RepositoryNotDirectory(self.repository())),
                ),
                Event::Inspected(PathKind::Directory) => self.ask(
                    DriverPhaseView::Compiling,
                    EffectView::CompileRuntime {
                        repository: self.repository(),
                        verbose: self.runtime_build_verbose,
                        release: self.runtime_build_release,
                    },
                ),
                _ => self.end(Err(failure_of(event))),
            },
            DriverPhaseView::Compiling => match event {
                Event::Completed => RunQueueView {
                    runtime_path: compiled_runtime(self.repository(), self.runtime_build_release),
                    ..self
                }.advance(),
                _ => self.end(Err(failure_of(event))),
            },
            DriverPhaseView::Running { scenario } => {
                let (phase, out) = scenario.plan.next(scenario.phase, event);
                self.follow(ScenarioView { plan: scenario.plan, phase }, out)
            },
            DriverPhaseView::Finished => self.end(Err(RunErrorView::Unexpected)),
        }
    }
}

impl RunQueue {
    fn end(self, result: Result<(), RunError>) -> (r: (Driver, Step))
        ensures
            (r.0@, r.1@) == self@.end(result_view(result)),
    {
        (Driver { queue: self, phase: DriverPhase::Finished }, Step::Finish(result))
    }

    fn ask(self, phase: DriverPhase, effect: Effect) -> (r: (Driver, Step))
        ensures
            (r.0@, r.1@) == self@.ask(phase@, effect@),
    {
        (Driver { queue: self, phase }, Step::Perform(effect))
    }

    fn with_runtime(self, runtime_path: String) -> (r: RunQueue)
        ensures
            r@ == (RunQueueView { runtime_path: runtime_path@, ..self@ }),
    {
        RunQueue {
            runtime: self.runtime,
            runtime_build_verbose: self.runtime_build_verbose,
            runtime_build_release: self.runtime_build_release,
            runtime_path,
            remaining: self.remaining,
        }
    }

    fn repository(&self) -> (r: String)
        ensures
            r@ == self@.repository(),
    {
        match &self.runtime {
            Runtime::RepoPath(path) => path.clone(),
            Runtime::FetchVersion(_) => String::new(),
        }
    }

    fn advance(self) -> (r: (Driver, Step))
        ensures
            (r.0@, r.1@) == self@.advance(),
        decreases self.remaining.len(),
    {
        if self.remaining.len() == 0 {
            self.end(Ok(()))
        } else {
            let ghost before = self@;
            let mut remaining = self.remaining;
            let test = remaining.remove(0);
            assert(remaining.deep_view() =~= before.remaining.skip(1));
            let plan = ScenarioPlan {
                detached: true,
                runtime_path: self.runtime_path.clone(),
                test,
            };
            let (scenario, first) = Scenario::start(plan);
            let rest = RunQueue {
                runtime: self.runtime,
                runtime_build_verbose: self.runtime_build_verbose,
                runtime_build_release: self.runtime_build_release,
                runtime_path: self.runtime_path,
                remaining,
            };
            match first {
                Step::Perform(effect) => rest.ask(DriverPhase::Running { scenario }, effect),
                Step::Finish(Ok(())) => rest.advance(),
                Step::Finish(Err(e)) => rest.end(Err(e)),
            }
        }
    }

    fn follow(self, scenario: Scenario, out: Step) -> (r: (Driver, Step))
        ensures
            (r.0@, r.1@) == self@.follow(scenario@, out@),
    {
        match out {
            Step::Perform(effect) => self.ask(DriverPhase::Running { scenario }, effect),
            Step::Finish(Ok(())) => self.advance(),
            Step::Finish(Err(e)) => self.end(Err(e)),
        }
    }

    fn next(self, phase: DriverPhase, event: Event) -> (r: (Driver, Step))
        ensures
            (r.0@, r.1@) == self@.next(phase@, event),
    {
        match phase {
            DriverPhase::Fetching => match event {
                Event::Resolved(path) => self.with_runtime(path).advance(),
                other => self.end(Err(event_failure(other))),
            },
            DriverPhase::Inspecting => match event {
                Event::Inspected(PathKind::Missing) => {
                    let repository = self.repository();
                    self.end(Err(RunError::RepositoryMissing(repository)))
                },
                Event::Inspected(PathKind::File) => {
                    let repository = self.repository();
                    self.end(Err(RunError::RepositoryNotDirectory(repository)))
                },
                Event::Inspected(PathKind::Directory) => {
                    let effect = Effect::CompileRuntime {
                        repository: self.repository(),
                        verbose: self.runtime_build_verbose,
                        release: self.runtime_build_release,
                    };
                    self.ask(DriverPhase::Compiling, effect)
                },
                other => self.end(Err(event_failure(other))),
            },
            DriverPhase::Compiling => match event {
                Event::Completed => {
                    let repository = self.repository();
                    let binary = make_compiled_runtime(
                        repository.as_str(),
                        self.runtime_build_release,
                    );
                    self.with_runtime(binary).advance()
                },
                other => self.end(Err(event_failure(other))),
            },
            DriverPhase::Running { scenario } => {
                let (moved, out) = scenario.step(event);
                self.follow(moved, out)
            },
            DriverPhase::Finished => self.end(Err(RunError::Unexpected)),
        }
    }
}

impl Driver {
    /// Begins a plan: see [`RunQueueView::start`].
    pub fn start(config: Config) -> (r: (Driver, Step))
        ensures
            (r.0@, r.1@) == RunQueueView::start(config@),
    {
        let well_formed = config.is_well_formed();
        let fresh = RunQueue {
            runtime: config.runtime,
            runtime_build_verbose: config.runtime_build_verbose,
            runtime_build_release: config.runtime_build_release,
            runtime_path: String::new(),
            remaining: config.tests,
        };
        if !well_formed {
            return fresh.end(Err(RunError::PortsNotUnique));
        }
        let effect = match &fresh.runtime {
            Runtime::FetchVersion(version) => Effect::FetchRuntime { version: version.clone() },
            Runtime::RepoPath(path) => Effect::Inspect { path: path.clone() },
        };
        let phase = match &fresh.runtime {
            Runtime::FetchVersion(_) => DriverPhase::Fetching,
            Runtime::RepoPath(_) => DriverPhase::Inspecting,
        };
        fresh.ask(phase, effect)
    }

    /// Takes the event that answers the effect asked for last: see
    /// [`RunQueueView::next`].
    pub fn step(self, event: Event) -> (r: (Driver, Step))
        ensures
            (r.0@, r.1@) == self.queue@.next(self.phase@, event),
    {
        self.queue.next(self.phase, event)
    }
}

/// Runs a test plan, with the home directory of the current user filled
/// in wherever a path of the plan starts with `~/`.
pub fn execute(config: Config) -> (r: (Driver, Step))
    ensures
        exists|home: Option<Seq<char>>|
            (r.0@, r.1@) == RunQueueView::start(#[trigger] config@.expanded(home)),
{
    let ghost before = config@;
    let expanded = config.expand_home_paths();
    let ghost home = choose|home: Option<Seq<char>>| expanded@ == #[trigger] before.expanded(home);
    let r = Driver::start(expanded);
    assert((r.0@, r.1@) == RunQueueView::start(before.expanded(home)));
    r
}

} // verus!
