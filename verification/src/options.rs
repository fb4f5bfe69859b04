//! What one invocation was asked to do.

use crate::cargo::Cargo;
use crate::command::CommandLine;
use crate::error::{BuildError, BuildErrorView};
use crate::metadata::Metadata;
use crate::package::{discovered, BindgenPackages};
use crate::target::WasmTarget;
use crate::text::{path_push, pushed};
use crate::wasm_opt::WasmOpt;
use vstd::prelude::*;
use vstd::string::*;

verus! {

/// The output directory where none is named.
pub const OUT_DIR: &'static str = "dist/js";

/// The work that follows glue generation.
#[derive(Clone, Debug, PartialEq, Eq)]
pub enum SubCmds {
    /// Shrink each generated module with the optimizer.
    WasmOpt(WasmOpt),
}

impl Default for SubCmds {
    /// The optimizer, at its default level.
    fn default() -> (sub: SubCmds)
        ensures
            sub == SubCmds::WasmOpt(WasmOpt::none()),
    {
        SubCmds::WasmOpt(WasmOpt::default())
    }
}

/// The options of a build. They are fixed before the first stage runs.
#[derive(Clone, Debug, PartialEq, Eq)]
pub struct Opt {
    /// Compile in release mode.
    pub release: bool,
    /// Generate TypeScript declarations beside the glue code.
    pub typescript: bool,
    /// The environment that glue code is generated for; the web where none is named.
    pub target: Option<WasmTarget>,
    /// The directory that receives the generated files; `dist/js` where none is named.
    pub out_dir: Option<String>,
    /// Remove the output directory before glue code is written.
    pub clean: bool,
    /// Let the glue code use weak references.
    pub weak_refs: bool,
    /// Let the module use reference types.
    pub reference_types: bool,
    /// Leave the symbol names of the module mangled.
    pub no_demangle: bool,
    /// Discard what the external processes write to standard error.
    pub quiet: bool,
    /// The work that follows glue generation, if any.
    pub subs: Option<SubCmds>,
}

impl Opt {
    /// The output directory of this build.
    pub open spec fn out_dir_text(self) -> Seq<char> {
        match self.out_dir {
            Some(dir) => dir@,
            None => "dist/js"@,
        }
    }

    /// The environment that glue code is generated for.
    pub open spec fn glue_target(self) -> WasmTarget {
        match self.target {
            Some(target) => target,
            None => WasmTarget::Web,
        }
    }

    /// The output directory of this build.
    pub fn output_dir(&self) -> (dir: String)
        ensures
            dir@ == self.out_dir_text(),
    {
        match &self.out_dir {
            Some(dir) => dir.clone(),
            None => String::from_str(OUT_DIR),
        }
    }

    /// The environment that glue code is generated for.
    pub fn target_or_default(&self) -> (target: WasmTarget)
        ensures
            target == self.glue_target(),
    {
        match self.target {
            Some(target) => target,
            None => WasmTarget::default(),
        }
    }
}

impl Default for Opt {
    /// A debug build for the web into `dist/js`, with every switch off.
    fn default() -> (opt: Opt)
        ensures
            !opt.release,
            !opt.typescript,
            opt.target is None,
            opt.out_dir is None,
            !opt.clean,
            !opt.weak_refs,
            !opt.reference_types,
            !opt.no_demangle,
            !opt.quiet,
            opt.subs is None,
    {
        Opt {
            release: false,
            typescript: false,
            target: None,
            out_dir: None,
            clean: false,
            weak_refs: false,
            reference_types: false,
            no_demangle: false,
            quiet: false,
            subs: None,
        }
    }
}

/// What the tool is asked to do.
#[derive(Clone, Debug, PartialEq, Eq)]
pub enum CargoWasm {
    /// Compile the project to WebAssembly and generate its glue code.
    Build(Opt),
    /// Create a project that loads in the browser.
    New {
        /// The name of the project.
        name: String,
        /// The environment that the project is meant for; the web where none is named.
        target: Option<WasmTarget>,
        /// Discard what the external processes write to standard error.
        quiet: bool,
    },
}

/// What an invocation begins with.
#[derive(Clone, Debug, PartialEq, Eq)]
pub enum Job {
    /// The metadata of the project is queried, and handed to `discover`.
    Discover { cargo: Cargo },
    /// It is found out whether `manifest`, the manifest of the new project,
    /// exists; the project is then made with `Cargo::new_template_project`.
    Probe { cargo: Cargo, manifest: String },
}

/// The first stage of a build. Its two parts do not depend on each other and
/// may run side by side; the glue stage begins when both have ended.
#[derive(Clone, Debug, PartialEq, Eq)]
pub struct BuildPlan {
    /// The versions of the helper CLI that are installed, each once.
    pub installs: Vec<String>,
    /// The commands that compile the packages, in the order of the packages.
    pub compiles: Vec<CommandLine>,
}

impl BuildPlan {
    /// Whether the plan is the first stage of a build of `packages`: the
    /// helper CLI is installed in each version that a package needs, once for
    /// each version, and each package is compiled.
    pub open spec fn builds(self, packages: BindgenPackages, opt: Opt) -> bool {
        packages.installs_with(self.installs.deep_view()) && packages.compiles_with(
            opt,
            self.compiles@,
        )
    }

    /// The first stage of a build of `packages`.
    pub fn new(packages: &BindgenPackages, opt: &Opt) -> (plan: BuildPlan)
        ensures
            plan.builds(*packages, *opt),
    {
        BuildPlan {
            installs: packages.install_wasm_bindgen_cli(),
            compiles: packages.build_wasm32_unknown_unknown(opt),
        }
    }
}

impl CargoWasm {
    /// Whether the invocation asks for silence.
    pub open spec fn is_quiet(self) -> bool {
        match self {
            CargoWasm::Build(opt) => opt.quiet,
            CargoWasm::New { quiet, .. } => quiet,
        }
    }

    /// Whether the invocation asks for silence.
    pub fn quiet(&self) -> (quiet: bool)
        ensures
            quiet == self.is_quiet(),
    {
        match self {
            CargoWasm::Build(opt) => opt.quiet,
            CargoWasm::New { name: _, target: _, quiet } => *quiet,
        }
    }

    /// What the invocation begins with: a build with the query of the project's
    /// metadata, a new project with a look for its manifest.
    pub fn run(&self, cargo: Cargo) -> (job: Job)
        ensures
            match *self {
                CargoWasm::Build(_) => job == (Job::Discover { cargo }),
                CargoWasm::New { name, .. } => job matches Job::Probe { cargo: with, manifest }
                    && with == cargo && manifest@ == pushed(name@, "Cargo.toml"@),
            },
    {
        match self {
            CargoWasm::Build(_) => Job::Discover { cargo },
            CargoWasm::New { name, .. } => Job::Probe {
                cargo,
                manifest: path_push(name.as_str(), "Cargo.toml"),
            },
        }
    }

    /// The packages of the project that take part in the build, from what the
    /// query of its metadata gave. A query that failed ends the build with its
    /// cause.
    pub fn discover(cargo: Cargo, query: Result<Metadata, String>) -> (found: Result<
        BindgenPackages,
        BuildError,
    >)
        ensures
            match query {
                Ok(metadata) => found matches Ok(packages) && packages.cargo == cargo
                    && packages.infos() == discovered(metadata@, metadata.packages.len() as int),
                Err(cause) => found matches Err(error) && error@ == (
                BuildErrorView::MetadataUnavailable { cause: cause@ }),
            },
    {
        match query {
            Ok(metadata) => Ok(BindgenPackages::new(cargo, &metadata)),
            Err(cause) => Err(BuildError::MetadataUnavailable { cause }),
        }
    }

    /// The first stage of a build of these packages.
    pub fn build(&self, bindgen_packages: &BindgenPackages, opt: &Opt) -> (plan: BuildPlan)
        ensures
            plan.builds(*bindgen_packages, *opt),
    {
        BuildPlan::new(bindgen_packages, opt)
    }
}

} // verus!
