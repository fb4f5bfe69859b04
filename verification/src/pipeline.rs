//! The order of the stages.
//!
//! A build goes through its stages one after the other: the metadata of the
//! project is queried, the helper tools are installed while the packages are
//! compiled, glue code is generated, the optimizer is brought into place and
//! run, and the bootstrap script is written. The pipeline says what is to be
//! done, is told what came of it, and says what comes next.

use crate::cargo::Cargo;
use crate::command::RunResult;
use crate::error::{BuildError, BuildErrorView};
use crate::fetch::Fetch;
use crate::metadata::Metadata;
use crate::options::{BuildPlan, CargoWasm, Job, Opt};
use crate::package::{discovered, BindgenPackages, Bootstrap, Finish, GluePlan, Optimization};
use crate::report::SizeReport;
use crate::scaffold::Scaffold;
use crate::target::WasmTarget;
use crate::text::pushed;
use crate::wasm_opt::WasmOpt;
use vstd::prelude::*;
use vstd::string::*;

verus! {

/// Where an invocation stands.
#[derive(Clone, Debug, PartialEq, Eq)]
pub enum Pipeline {
    /// It is being found out whether the new project exists already.
    Probing { cargo: Cargo, name: String, target: WasmTarget, quiet: bool },
    /// The metadata of the project is being queried.
    Discovering { opt: Opt, cargo: Cargo },
    /// The helper tools are being installed and the packages compiled.
    Building { opt: Opt, packages: BindgenPackages },
    /// Glue code is being generated.
    Gluing { opt: Opt, packages: BindgenPackages },
    /// The optimizer is being brought into place.
    Installing { opt: Opt, optimization: Optimization, bootstrap: Option<Bootstrap> },
    /// The optimizer is running on the artifacts.
    Optimizing { opt: Opt, optimization: Optimization, bootstrap: Option<Bootstrap> },
    /// Nothing is left to decide.
    Done,
}

/// An artifact that the optimizer ran on, with its sizes.
#[derive(Clone, Debug, PartialEq, Eq)]
pub struct Shrunk {
    pub artifact: String,
    pub report: SizeReport,
}

/// The end of a build.
#[derive(Clone, Debug, PartialEq, Eq)]
pub struct Conclusion {
    /// What failed, to be told.
    pub failures: Vec<BuildError>,
    /// What the optimizer saved, to be told.
    pub reports: Vec<Shrunk>,
    /// The bootstrap script, to be written; `None` where there is none.
    pub bootstrap: Option<Bootstrap>,
}

/// What is to be done next.
#[derive(Clone, Debug, PartialEq, Eq)]
pub enum Action {
    /// Find out whether the file `manifest` exists, and report it.
    Probe { manifest: String },
    /// Make a new project. Nothing follows.
    Scaffold(Scaffold),
    /// Query the metadata of the project, and report it.
    Query,
    /// Install the helper tools and compile the packages, side by side, and
    /// report when both have ended.
    Build(BuildPlan),
    /// Generate the glue code, and report how each command ended.
    Glue(GluePlan),
    /// Bring the optimizer into place, beginning with `WasmOpt::try_install` on
    /// the levels of the state, and report the state in which that ended.
    Install,
    /// Take each artifact of the state in turn, whatever came of the one
    /// before: measure it, ask `WasmOpt::run_measured` for its run, start that
    /// run where there is one, and measure the artifact again. Report what was
    /// seen of each.
    Optimize,
    /// Tell of what failed and what was saved, and write the bootstrap script.
    /// Nothing follows.
    Conclude(Conclusion),
    /// Tell of the failure. Nothing follows.
    Fail(BuildError),
    /// Nothing.
    Nothing,
}

/// What was seen of the optimizer on one artifact.
#[derive(Clone, Debug, PartialEq, Eq)]
pub enum Observation {
    /// The artifact was measured, the optimizer was started on it, and the
    /// artifact was measured again.
    Ran { original_size: u64, run: RunResult, final_size: u64 },
    /// The artifact could not be measured, before the run, so that the
    /// optimizer was not started, or after it.
    Unreadable { cause: String },
}

/// What was done.
#[derive(Debug, PartialEq, Eq)]
pub enum Event {
    /// It was found out whether the manifest of the new project exists.
    Probed { exists: bool },
    /// The metadata query gave the metadata, or failed with a cause.
    Metadata(Result<Metadata, String>),
    /// The installations and the compilations have ended.
    Built,
    /// The glue commands have ended, each as told, in the order of the plan.
    Glued(Vec<RunResult>),
    /// The installation of the optimizer has ended in this state.
    Installed(Fetch),
    /// The optimizer has run, with this to be seen of each artifact, in the
    /// order of the artifacts.
    Optimized(Vec<Observation>),
}

impl Observation {
    /// What an observation comes to for the artifact at `artifact`: the sizes
    /// where the optimizer succeeded, and the failure with the artifact's path
    /// and the cause where it did not or the artifact could not be measured.
    pub open spec fn outcome(self, artifact: Seq<char>) -> Result<SizeReport, BuildErrorView> {
        match self {
            Observation::Ran { original_size, run, final_size } => if run.succeeded() {
                Ok(SizeReport { original_size, final_size })
            } else {
                Err(BuildErrorView::OptimizeFailed { path: artifact, cause: run.cause_text() })
            },
            Observation::Unreadable { cause } => Err(
                BuildErrorView::OptimizeFailed { path: artifact, cause: cause@ },
            ),
        }
    }

    /// What the observation comes to for the artifact at `artifact`.
    pub fn concluded(&self, artifact: &str) -> (outcome: Result<SizeReport, BuildError>)
        ensures
            match outcome {
                Ok(report) => self.outcome(artifact@) == Ok::<SizeReport, BuildErrorView>(report),
                Err(error) => self.outcome(artifact@) == Err::<SizeReport, BuildErrorView>(error@),
            },
    {
        match self {
            Observation::Ran { original_size, run, final_size } => WasmOpt::after_run(
                artifact,
                *original_size,
                run,
                *final_size,
            ),
            Observation::Unreadable { cause } => Err(
                BuildError::OptimizeFailed {
                    path: String::from_str(artifact),
                    cause: cause.clone(),
                },
            ),
        }
    }
}

/// The failures among the first `upto` optimizer runs, in their order.
pub open spec fn optimizer_failures(
    artifacts: Seq<String>,
    observations: Seq<Observation>,
    upto: int,
) -> Seq<BuildErrorView>
    decreases upto,
{
    if upto <= 0 {
        Seq::empty()
    } else {
        match observations[upto - 1].outcome(artifacts[upto - 1]@) {
            Ok(_) => optimizer_failures(artifacts, observations, upto - 1),
            Err(error) => optimizer_failures(artifacts, observations, upto - 1).push(error),
        }
    }
}

/// The artifacts among the first `upto` that the optimizer succeeded on, with
/// their sizes, in their order.
pub open spec fn optimizer_reports(
    artifacts: Seq<String>,
    observations: Seq<Observation>,
    upto: int,
) -> Seq<(Seq<char>, SizeReport)>
    decreases upto,
{
    if upto <= 0 {
        Seq::empty()
    } else {
        match observations[upto - 1].outcome(artifacts[upto - 1]@) {
            Ok(report) => optimizer_reports(artifacts, observations, upto - 1).push(
                (artifacts[upto - 1]@, report),
            ),
            Err(_) => optimizer_reports(artifacts, observations, upto - 1),
        }
    }
}

/// How many optimizer runs there is something to say of: as many as there are
/// artifacts and observations both.
pub open spec fn observed_runs(artifacts: Seq<String>, observations: Seq<Observation>) -> int {
    if artifacts.len() <= observations.len() {
        artifacts.len() as int
    } else {
        observations.len() as int
    }
}

impl Conclusion {
    /// The failures as mathematical values.
    pub open spec fn failure_views(self) -> Seq<BuildErrorView> {
        Seq::new(self.failures@.len(), |i: int| self.failures@[i]@)
    }

    /// The reports as mathematical values.
    pub open spec fn report_views(self) -> Seq<(Seq<char>, SizeReport)> {
        Seq::new(
            self.reports@.len(),
            |i: int| (self.reports@[i].artifact@, self.reports@[i].report),
        )
    }

    /// Whether this is the end of a build after the optimizer ran: each run
    /// that there is something to say of gives a report or a failure, and the
    /// bootstrap script is written whatever the runs came to.
    pub open spec fn ends_optimizing(
        self,
        optimization: Optimization,
        observations: Seq<Observation>,
        bootstrap: Option<Bootstrap>,
    ) -> bool {
        let runs = observed_runs(optimization.artifacts@, observations);
        &&& self.failure_views() == optimizer_failures(optimization.artifacts@, observations, runs)
        &&& self.report_views() == optimizer_reports(optimization.artifacts@, observations, runs)
        &&& self.bootstrap == bootstrap
    }
}

impl Pipeline {
    /// Whether an invocation of `command` begins in the state `first` with
    /// `action`: a build with the query of the metadata, a new project with a
    /// look for its manifest.
    pub open spec fn begins(
        command: CargoWasm,
        cargo: Cargo,
        first: Pipeline,
        action: Action,
    ) -> bool {
        match command {
            CargoWasm::Build(opt) => first == (Pipeline::Discovering { opt, cargo }) && action
                == Action::Query,
            CargoWasm::New { name, target, quiet } => {
                &&& first == (Pipeline::Probing {
                    cargo,
                    name,
                    target: match target {
                        Some(target) => target,
                        None => WasmTarget::Web,
                    },
                    quiet,
                })
                &&& action matches Action::Probe { manifest }
                &&& manifest@ == pushed(name@, "Cargo.toml"@)
            },
        }
    }

    /// Whether the pipeline goes on from the end of the glue stage, which
    /// `finish` describes, to `next` with `action`. Where the optimizer is
    /// due it is brought into place first. Else the build ends: the packages
    /// without glue code are told of, and the bootstrap script, if there is
    /// one, is written.
    pub open spec fn follows_glue(
        finish: Finish,
        opt: Opt,
        next: Pipeline,
        action: Action,
    ) -> bool {
        match finish.optimization {
            Some(optimization) => next == (Pipeline::Installing {
                opt,
                optimization,
                bootstrap: finish.bootstrap,
            }) && action == Action::Install,
            None => {
                &&& next == Pipeline::Done
                &&& action matches Action::Conclude(conclusion)
                &&& conclusion.failures == finish.failures
                &&& conclusion.reports@.len() == 0
                &&& conclusion.bootstrap == finish.bootstrap
            },
        }
    }

    /// Whether the pipeline goes on from the end of the optimizer's
    /// installation in the state `fetch` to `next` with `action`. An optimizer
    /// in place is run. Without a platform the invocation ends at once with
    /// that failure. Any other failure is told of, no artifact is optimized,
    /// and the bootstrap script is still written. An installation that has not
    /// ended changes nothing.
    pub open spec fn follows_installation(
        opt: Opt,
        optimization: Optimization,
        bootstrap: Option<Bootstrap>,
        fetch: Fetch,
        next: Pipeline,
        action: Action,
    ) -> bool {
        match fetch {
            Fetch::Installed => next == (Pipeline::Optimizing { opt, optimization, bootstrap })
                && action == Action::Optimize,
            Fetch::Failed(error) => if error is UnsupportedPlatform {
                next == Pipeline::Done && action == Action::Fail(error)
            } else {
                &&& next == Pipeline::Done
                &&& action matches Action::Conclude(conclusion)
                &&& conclusion.failures@ == seq![error]
                &&& conclusion.reports@.len() == 0
                &&& conclusion.bootstrap == bootstrap
            },
            _ => next == (Pipeline::Installing { opt, optimization, bootstrap }) && action
                == Action::Nothing,
        }
    }

    /// Whether the pipeline goes from this state to `next` with `action` when
    /// it is told of `event`.
    ///
    /// A new project is made unless it exists. The metadata ends the build
    /// where the query failed and where no package takes part; else the
    /// packages that take part are built. When they are built, glue code is
    /// generated for them. What follows the glue stage, the installation of
    /// the optimizer and its runs is said by `follows_glue`,
    /// `follows_installation` and `Conclusion::ends_optimizing`. An event that
    /// the state does not wait for changes nothing.
    pub open spec fn steps(self, event: Event, next: Pipeline, action: Action) -> bool {
        match (self, event) {
            (Pipeline::Probing { cargo, name, target, quiet }, Event::Probed { exists }) => {
                &&& next == Pipeline::Done
                &&& if exists {
                    &&& action matches Action::Fail(error)
                    &&& error@ == (BuildErrorView::DestinationExists { destination: name@ })
                } else {
                    &&& action matches Action::Scaffold(scaffold)
                    &&& cargo.scaffolds(scaffold, name@, target, quiet)
                }
            },
            (Pipeline::Discovering { opt, cargo }, Event::Metadata(Err(cause))) => {
                &&& next == Pipeline::Done
                &&& action matches Action::Fail(error)
                &&& error@ == (BuildErrorView::MetadataUnavailable { cause: cause@ })
            },
            (Pipeline::Discovering { opt, cargo }, Event::Metadata(Ok(metadata))) => {
                let found = discovered(metadata@, metadata.packages.len() as int);
                if found.len() == 0 {
                    next == Pipeline::Done && action == Action::Nothing
                } else {
                    &&& next matches Pipeline::Building { opt: kept, packages }
                    &&& kept == opt
                    &&& packages.cargo == cargo
                    &&& packages.infos() == found
                    &&& action matches Action::Build(plan)
                    &&& plan.builds(packages, opt)
                }
            },
            (Pipeline::Building { opt, packages }, Event::Built) => {
                &&& next == (Pipeline::Gluing { opt, packages })
                &&& action matches Action::Glue(plan)
                &&& packages.glues_with(opt, plan)
            },
            (Pipeline::Gluing { opt, packages }, Event::Glued(runs)) => exists|finish: Finish|
                #[trigger] packages.finishes_with(opt, runs@, finish) && Pipeline::follows_glue(
                    finish,
                    opt,
                    next,
                    action,
                ),
            (Pipeline::Installing { opt, optimization, bootstrap }, Event::Installed(fetch)) =>
                Pipeline::follows_installation(opt, optimization, bootstrap, fetch, next, action),
            (
                Pipeline::Optimizing { opt, optimization, bootstrap },
                Event::Optimized(observations),
            ) => {
                &&& next == Pipeline::Done
                &&& action matches Action::Conclude(conclusion)
                &&& conclusion.ends_optimizing(optimization, observations@, bootstrap)
            },
            _ => next == self && action == Action::Nothing,
        }
    }

    /// Begins an invocation.
    pub fn start(command: CargoWasm, cargo: Cargo) -> (begun: (Pipeline, Action))
        ensures
            Pipeline::begins(command, cargo, begun.0, begun.1),
    {
        let job = command.run(cargo);
        match (job, command) {
            (Job::Discover { cargo }, CargoWasm::Build(opt)) => (
                Pipeline::Discovering { opt, cargo },
                Action::Query,
            ),
            (Job::Probe { cargo, manifest }, CargoWasm::New { name, target, quiet }) => {
                let target = match target {
                    Some(target) => target,
                    None => WasmTarget::default(),
                };
                (Pipeline::Probing { cargo, name, target, quiet }, Action::Probe { manifest })
            },
            _ => (Pipeline::Done, Action::Nothing),
        }
    }

    /// Takes in what was done, and says what comes next.
    pub fn advance(self, event: Event) -> (stepped: (Pipeline, Action))
        ensures
            self.steps(event, stepped.0, stepped.1),
    {
        match self {
            Pipeline::Probing { cargo, name, target, quiet } => match event {
                Event::Probed { exists } => {
                    match cargo.new_template_project(name.as_str(), &target, quiet, exists) {
                        Ok(scaffold) => (Pipeline::Done, Action::Scaffold(scaffold)),
                        Err(error) => (Pipeline::Done, Action::Fail(error)),
                    }
                },
                _ => (Pipeline::Probing { cargo, name, target, quiet }, Action::Nothing),
            },
            Pipeline::Discovering { opt, cargo } => match event {
                Event::Metadata(query) => match CargoWasm::discover(cargo, query) {
                    Ok(packages) => {
                        if packages.packages.len() == 0 {
                            (Pipeline::Done, Action::Nothing)
                        } else {
                            let plan = BuildPlan::new(&packages, &opt);
                            (Pipeline::Building { opt, packages }, Action::Build(plan))
                        }
                    },
                    Err(error) => (Pipeline::Done, Action::Fail(error)),
                },
                _ => (Pipeline::Discovering { opt, cargo }, Action::Nothing),
            },
            Pipeline::Building { opt, packages } => match event {
                Event::Built => {
                    let plan = packages.build_wasm_js(&opt);
                    (Pipeline::Gluing { opt, packages }, Action::Glue(plan))
                },
                _ => (Pipeline::Building { opt, packages }, Action::Nothing),
            },
            Pipeline::Gluing { opt, packages } => match event {
                Event::Glued(runs) => {
                    let finish = packages.finish(&opt, &runs);
                    let ghost finished = finish;
                    let ghost given = opt;
                    let stepped = Pipeline::after_glue(finish, opt);
                    assert(packages.finishes_with(given, runs@, finished)
                        && Pipeline::follows_glue(finished, given, stepped.0, stepped.1));
                    stepped
                },
                _ => (Pipeline::Gluing { opt, packages }, Action::Nothing),
            },
            Pipeline::Installing { opt, optimization, bootstrap } => match event {
                Event::Installed(fetch) => Pipeline::after_installation(
                    opt,
                    optimization,
                    bootstrap,
                    fetch,
                ),
                _ => (Pipeline::Installing { opt, optimization, bootstrap }, Action::Nothing),
            },
            Pipeline::Optimizing { opt, optimization, bootstrap } => match event {
                Event::Optimized(observations) => {
                    let conclusion = Pipeline::after_optimizing(
                        optimization,
                        &observations,
                        bootstrap,
                    );
                    (Pipeline::Done, Action::Conclude(conclusion))
                },
                _ => (Pipeline::Optimizing { opt, optimization, bootstrap }, Action::Nothing),
            },
            Pipeline::Done => (Pipeline::Done, Action::Nothing),
        }
    }

    /// What follows the glue stage that `finish` describes.
    pub fn after_glue(finish: Finish, opt: Opt) -> (stepped: (Pipeline, Action))
        ensures
            Pipeline::follows_glue(finish, opt, stepped.0, stepped.1),
    {
        let Finish { failures, optimization, bootstrap } = finish;
        match optimization {
            Some(optimization) => (
                Pipeline::Installing { opt, optimization, bootstrap },
                Action::Install,
            ),
            None => (
                Pipeline::Done,
                Action::Conclude(Conclusion { failures, reports: Vec::new(), bootstrap }),
            ),
        }
    }

    /// What follows the installation of the optimizer, which ended in the
    /// state `fetch`.
    pub fn after_installation(
        opt: Opt,
        optimization: Optimization,
        bootstrap: Option<Bootstrap>,
        fetch: Fetch,
    ) -> (stepped: (Pipeline, Action))
        ensures
            Pipeline::follows_installation(
                opt,
                optimization,
                bootstrap,
                fetch,
                stepped.0,
                stepped.1,
            ),
    {
        match fetch {
            Fetch::Installed => (
                Pipeline::Optimizing { opt, optimization, bootstrap },
                Action::Optimize,
            ),
            Fetch::Failed(error) => match error {
                BuildError::UnsupportedPlatform { .. } => (Pipeline::Done, Action::Fail(error)),
                _ => {
                    let mut failures: Vec<BuildError> = Vec::new();
                    failures.push(error);
                    (
                        Pipeline::Done,
                        Action::Conclude(Conclusion { failures, reports: Vec::new(), bootstrap }),
                    )
                },
            },
            _ => (Pipeline::Installing { opt, optimization, bootstrap }, Action::Nothing),
        }
    }

    /// The end of a build after the optimizer ran, with `observations` to be
    /// seen of its runs.
    pub fn after_optimizing(
        optimization: Optimization,
        observations: &Vec<Observation>,
        bootstrap: Option<Bootstrap>,
    ) -> (conclusion: Conclusion)
        ensures
            conclusion.ends_optimizing(optimization, observations@, bootstrap),
    {
        let n = if optimization.artifacts.len() <= observations.len() {
            optimization.artifacts.len()
        } else {
            observations.len()
        };
        let mut failures: Vec<BuildError> = Vec::new();
        let mut reports: Vec<Shrunk> = Vec::new();
        let mut i: usize = 0;
        while i < n
            invariant
                n == observed_runs(optimization.artifacts@, observations@),
                i <= n,
                Seq::new(failures@.len(), |k: int| failures@[k]@) == optimizer_failures(
                    optimization.artifacts@,
                    observations@,
                    i as int,
                ),
                Seq::new(reports@.len(), |k: int| (reports@[k].artifact@, reports@[k].report))
                    == optimizer_reports(optimization.artifacts@, observations@, i as int),
            decreases n - i,
        {
            let ghost failed = Seq::new(failures@.len(), |k: int| failures@[k]@);
            let ghost told = Seq::new(
                reports@.len(),
                |k: int| (reports@[k].artifact@, reports@[k].report),
            );
            let artifact = &optimization.artifacts[i];
            match observations[i].concluded(artifact.as_str()) {
                Ok(report) => {
                    reports.push(Shrunk { artifact: artifact.clone(), report });
                    assert(Seq::new(
                        reports@.len(),
                        |k: int| (reports@[k].artifact@, reports@[k].report),
                    ) =~= told.push((artifact@, report)));
                },
                Err(error) => {
                    failures.push(error);
                    assert(Seq::new(failures@.len(), |k: int| failures@[k]@) =~= failed.push(
                        error@,
                    ));
                },
            }
            i = i + 1;
        }
        Conclusion { failures, reports, bootstrap }
    }
}

/// The stages come in their order. Packages are built only on the metadata,
/// glue code is generated only when the packages are built, the optimizer is
/// brought into place only when the glue commands have ended, and it runs only
/// when its installation has ended with the optimizer in place. The pipeline
/// comes to wait for the end of a stage exactly by asking for that stage.
pub proof fn lemma_stages_come_in_order(
    state: Pipeline,
    event: Event,
    next: Pipeline,
    action: Action,
)
    requires
        state.steps(event, next, action),
    ensures
        action is Build ==> state is Discovering && event is Metadata,
        action is Glue ==> state is Building && event is Built,
        action is Install ==> state is Gluing && event is Glued,
        action is Optimize ==> state is Installing && event == Event::Installed(Fetch::Installed),
        action is Scaffold ==> state is Probing && event == (Event::Probed { exists: false }),
        !(state is Building) ==> (next is Building <==> action is Build),
        !(state is Gluing) ==> (next is Gluing <==> action is Glue),
        !(state is Installing) ==> (next is Installing <==> action is Install),
        !(state is Optimizing) ==> (next is Optimizing <==> action is Optimize),
        !(action is Query) && !(action is Probe),
{
}

/// Of a project in which no package of its own has the binding-generation
/// library in its dependency graph nothing is built: the metadata ends the
/// build, and no stage follows.
pub proof fn lemma_nothing_follows_without_the_library(
    state: Pipeline,
    metadata: Metadata,
    next: Pipeline,
    action: Action,
)
    requires
        state is Discovering,
        forall|a: int, b: int| metadata@.is_member(a) ==> !metadata@.binds(a, b),
        state.steps(Event::Metadata(Ok(metadata)), next, action),
    ensures
        next == Pipeline::Done,
        action == Action::Nothing,
{
    crate::laws::lemma_nothing_to_build_without_the_library(
        metadata@,
        metadata.packages.len() as int,
    );
}

/// A package without glue code ends the build for all: the optimizer is not
/// brought into place, and no bootstrap script is written.
pub proof fn lemma_failed_glue_ends_the_build(
    opt: Opt,
    packages: BindgenPackages,
    runs: Vec<RunResult>,
    next: Pipeline,
    action: Action,
)
    requires
        !crate::package::glue_complete(packages.infos(), runs@),
        (Pipeline::Gluing { opt, packages }).steps(Event::Glued(runs), next, action),
    ensures
        next == Pipeline::Done,
        action matches Action::Conclude(conclusion) && conclusion.bootstrap is None
            && conclusion.reports@.len() == 0,
{
}

/// A machine without a platform ends the invocation: no artifact is
/// optimized and no bootstrap script is written.
pub proof fn lemma_no_platform_ends_the_invocation(
    opt: Opt,
    optimization: Optimization,
    bootstrap: Option<Bootstrap>,
    error: BuildError,
    next: Pipeline,
    action: Action,
)
    requires
        error is UnsupportedPlatform,
        (Pipeline::Installing { opt, optimization, bootstrap }).steps(
            Event::Installed(Fetch::Failed(error)),
            next,
            action,
        ),
    ensures
        next == Pipeline::Done,
        action == Action::Fail(error),
{
}

/// Once nothing is left to decide, nothing is asked for any more.
pub proof fn lemma_done_stays_done(event: Event, next: Pipeline, action: Action)
    requires
        Pipeline::Done.steps(event, next, action),
    ensures
        next == Pipeline::Done,
        action == Action::Nothing,
{
}

} // verus!
