//! The packages that take part in a build, and the commands that turn each
//! into a module with glue code.

use crate::cargo::{build_args, Cargo};
use crate::command::{CommandLine, CommandLineView, RunResult};
use crate::error::{BuildError, BuildErrorView};
use crate::metadata::{Metadata, MetadataView};
use crate::options::{Opt, SubCmds};
use crate::target::WasmTarget;
use crate::templates::{bootstrap_text, rollup_bootstrap_js};
use crate::text::{ascending, insert_ascending, path_push, pushed, underscored, underscored_of};
use crate::wasm_opt::WasmOpt;
use vstd::prelude::*;
use vstd::string::*;

verus! {

/// A package that needs glue code.
#[derive(Clone, Debug, PartialEq, Eq)]
pub struct PackageInfo {
    pub name: String,
    /// Where the manifest of the package lies.
    pub manifest_path: String,
    /// The version of the binding-generation library that the package is built
    /// with. The helper CLI must be of the same version.
    pub wasm_bindgen_version: String,
}

/// A package that needs glue code, as mathematical value.
pub struct PackageInfoView {
    pub name: Seq<char>,
    pub manifest_path: Seq<char>,
    pub wasm_bindgen_version: Seq<char>,
}

impl View for PackageInfo {
    type V = PackageInfoView;

    open spec fn view(&self) -> PackageInfoView {
        PackageInfoView {
            name: self.name@,
            manifest_path: self.manifest_path@,
            wasm_bindgen_version: self.wasm_bindgen_version@,
        }
    }
}

impl PackageInfoView {
    /// The name of the compiled module: the package's name with an
    /// underscore for each hyphen.
    pub open spec fn module_name(self) -> Seq<char> {
        underscored_of(self.name)
    }

    /// Where the compiler leaves the module.
    pub open spec fn source_wasm(self, release: bool) -> Seq<char> {
        "./target/wasm32-unknown-unknown/"@ + (if release {
            "release"@
        } else {
            "debug"@
        }) + "/"@ + self.module_name() + ".wasm"@
    }

    /// The switches of the helper CLI, one for each option that is set. Without
    /// the option for TypeScript the helper is told to write none: left alone
    /// it would write it.
    pub open spec fn glue_switches(opt: Opt) -> Seq<Seq<char>> {
        (if opt.typescript {
            Seq::empty()
        } else {
            seq!["--no-typescript"@]
        }) + (if opt.weak_refs {
            seq!["--weak-refs"@]
        } else {
            Seq::empty()
        }) + (if opt.reference_types {
            seq!["--reference-types"@]
        } else {
            Seq::empty()
        }) + (if opt.no_demangle {
            seq!["--no-demangle"@]
        } else {
            Seq::empty()
        })
    }

    /// The arguments of the helper CLI: the compiled module, the target, the
    /// switches, and the output directory.
    pub open spec fn glue_args(self, opt: Opt) -> Seq<Seq<char>> {
        seq![self.source_wasm(opt.release), "--target"@, opt.glue_target().cli_name()]
            + Self::glue_switches(opt) + seq!["--out-dir"@, opt.out_dir_text()]
    }

    /// The command that generates the glue code of the package: the helper CLI
    /// of the package's version, with `glue_args`.
    pub open spec fn glue_command(self, opt: Opt) -> CommandLineView {
        CommandLineView {
            program: crate::cli_path_of(self.wasm_bindgen_version),
            args: self.glue_args(opt),
            quiet: opt.quiet,
        }
    }

    /// Where the helper CLI leaves the module that goes with the glue code.
    pub open spec fn bound_wasm(self, out_dir: Seq<char>) -> Seq<char> {
        pushed(out_dir, self.module_name() + "_bg.wasm"@)
    }
}

/// The package `a` of the metadata as one that needs glue code for `version`.
pub open spec fn info_of(metadata: MetadataView, a: int, version: Seq<char>) -> PackageInfoView {
    PackageInfoView {
        name: metadata.packages[a].name,
        manifest_path: metadata.packages[a].manifest_path,
        wasm_bindgen_version: version,
    }
}

impl PackageInfo {
    /// The name of the compiled module.
    pub fn get_package_name(&self) -> (name: String)
        ensures
            name@ == self@.module_name(),
    {
        underscored(self.name.as_str())
    }

    /// The package at `package` in the metadata, if its dependency graph holds
    /// the binding-generation library; with the version of that library.
    pub fn new(metadata: &Metadata, package: usize) -> (info: Option<PackageInfo>)
        ensures
            match info {
                Some(info) => metadata@.has(package as int) && metadata@.bindgen_version(
                    package as int,
                ) is Some && info@ == info_of(
                    metadata@,
                    package as int,
                    metadata@.bindgen_version(package as int)->0,
                ),
                None => !metadata@.has(package as int) || metadata@.bindgen_version(
                    package as int,
                ) is None,
            },
    {
        if package >= metadata.packages.len() {
            return None;
        }
        match metadata.bindgen_version(package) {
            Some(version) => Some(
                PackageInfo {
                    name: metadata.packages[package].name.clone(),
                    manifest_path: metadata.packages[package].manifest_path.clone(),
                    wasm_bindgen_version: version,
                },
            ),
            None => None,
        }
    }

    /// Where the compiler leaves the module.
    pub fn source_wasm(&self, release: bool) -> (path: String)
        ensures
            path@ == self@.source_wasm(release),
    {
        let mut path = String::from_str("./target/wasm32-unknown-unknown/");
        if release {
            path.append("release");
        } else {
            path.append("debug");
        }
        path.append("/");
        path.append(self.get_package_name().as_str());
        path.append(".wasm");
        path
    }

    /// The command that generates the glue code of the package.
    pub fn build_wasm_js(&self, opt: &Opt) -> (command: CommandLine)
        ensures
            command@ == self@.glue_command(*opt),
    {
        let program = crate::path_to_cli(self.wasm_bindgen_version.as_str());
        let mut cmd = CommandLine::new(program.as_str(), opt.quiet);
        cmd.arg(self.source_wasm(opt.release).as_str());
        cmd.arg("--target");
        cmd.arg(opt.target_or_default().as_ref());
        if !opt.typescript {
            cmd.arg("--no-typescript");
        }
        if opt.weak_refs {
            cmd.arg("--weak-refs");
        }
        if opt.reference_types {
            cmd.arg("--reference-types");
        }
        if opt.no_demangle {
            cmd.arg("--no-demangle");
        }
        cmd.arg("--out-dir");
        cmd.arg(opt.output_dir().as_str());
        assert(cmd@.args =~= self@.glue_args(*opt));
        cmd
    }

    /// Where the helper CLI leaves the module that goes with the glue code.
    pub fn bound_wasm(&self, out_dir: &str) -> (path: String)
        ensures
            path@ == self@.bound_wasm(out_dir@),
    {
        let mut file = self.get_package_name();
        file.append("_bg.wasm");
        path_push(out_dir, file.as_str())
    }

    /// What generating the glue code of the package came to: the output
    /// directory, which now holds it, where the helper CLI succeeded, and the
    /// failure with the package's name where it did not.
    pub fn after_glue(&self, opt: &Opt, run: &RunResult) -> (outcome: Result<String, BuildError>)
        ensures
            match outcome {
                Ok(path) => run.succeeded() && path@ == opt.out_dir_text(),
                Err(error) => !run.succeeded() && error@ == (BuildErrorView::GlueGenerationFailed {
                    package: self@.name,
                }),
            },
    {
        if run.success() {
            Ok(opt.output_dir())
        } else {
            Err(BuildError::GlueGenerationFailed { package: self.name.clone() })
        }
    }
}

/// The packages that a build works on, and the cargo that it works with.
#[derive(Clone, Debug, PartialEq, Eq)]
pub struct BindgenPackages {
    pub packages: Vec<PackageInfo>,
    pub cargo: Cargo,
}

/// Whether the package `a` takes part in the build: it is one of the project's
/// own, and its dependency graph holds the binding-generation library.
pub open spec fn takes_part(metadata: MetadataView, a: int) -> bool {
    metadata.is_member(a) && metadata.bindgen_version(a) is Some
}

/// The packages among the first `upto` of the metadata that take part in the
/// build, in the order of the metadata, each with the version of its library.
pub open spec fn discovered(metadata: MetadataView, upto: int) -> Seq<PackageInfoView>
    decreases upto,
{
    if upto <= 0 {
        Seq::empty()
    } else if takes_part(metadata, upto - 1) {
        discovered(metadata, upto - 1).push(
            info_of(metadata, upto - 1, metadata.bindgen_version(upto - 1)->0),
        )
    } else {
        discovered(metadata, upto - 1)
    }
}

impl BindgenPackages {
    /// The packages as mathematical values.
    pub open spec fn infos(self) -> Seq<PackageInfoView> {
        Seq::new(self.packages@.len(), |i: int| self.packages@[i]@)
    }

    /// The versions of the helper CLI that the packages need.
    pub open spec fn versions(self) -> Seq<Seq<char>> {
        Seq::new(self.packages@.len(), |i: int| self.packages@[i]@.wasm_bindgen_version)
    }

    /// Whether `commands` compile the packages: one command for each package,
    /// in the order of the packages, each for its package alone.
    pub open spec fn compiles_with(self, opt: Opt, commands: Seq<CommandLine>) -> bool {
        &&& commands.len() == self.packages@.len()
        &&& forall|i: int|
            0 <= i < self.packages@.len() ==> (#[trigger] commands[i])@ == (CommandLineView {
                program: self.cargo.program(),
                args: build_args(self.packages@[i]@.name, opt.release),
                quiet: opt.quiet,
            })
    }

    /// Whether `versions` are the installations that the packages need: each
    /// version that a package needs, once, however many packages need it, in
    /// ascending order, and no other.
    pub open spec fn installs_with(self, versions: Seq<Seq<char>>) -> bool {
        &&& versions.len() <= self.packages@.len()
        &&& ascending(versions)
        &&& forall|v: Seq<char>| versions.contains(v) <==> self.versions().contains(v)
    }

    /// Finds the packages of a project that take part in the build: those of
    /// the project's own whose dependency graph holds the binding-generation
    /// library. The others are left out without a word.
    pub fn new(cargo: Cargo, metadata: &Metadata) -> (found: BindgenPackages)
        ensures
            found.cargo == cargo,
            found.infos() == discovered(metadata@, metadata.packages.len() as int),
    {
        let mut packages: Vec<PackageInfo> = Vec::new();
        let n = metadata.packages.len();
        let mut a: usize = 0;
        while a < n
            invariant
                n == metadata.packages.len(),
                a <= n,
                Seq::new(packages@.len(), |i: int| packages@[i]@) == discovered(
                    metadata@,
                    a as int,
                ),
            decreases n - a,
        {
            let ghost before = Seq::new(packages@.len(), |i: int| packages@[i]@);
            if metadata.is_member(a) {
                match PackageInfo::new(metadata, a) {
                    Some(info) => {
                        packages.push(info);
                        assert(Seq::new(packages@.len(), |i: int| packages@[i]@) =~= before.push(
                            info@,
                        ));
                    },
                    None => {},
                }
            }
            a = a + 1;
        }
        BindgenPackages { packages, cargo }
    }

    /// The commands that compile the packages, one for each package, in the
    /// order of the packages. Each names its package alone, so that one that
    /// fails holds up no other.
    pub fn build_wasm32_unknown_unknown(&self, opt: &Opt) -> (commands: Vec<CommandLine>)
        ensures
            self.compiles_with(*opt, commands@),
    {
        let mut commands: Vec<CommandLine> = Vec::new();
        let n = self.packages.len();
        let mut i: usize = 0;
        while i < n
            invariant
                n == self.packages@.len(),
                i <= n,
                commands@.len() == i,
                forall|j: int|
                    0 <= j < i ==> (#[trigger] commands@[j])@ == (CommandLineView {
                        program: self.cargo.program(),
                        args: build_args(self.packages@[j]@.name, opt.release),
                        quiet: opt.quiet,
                    }),
            decreases n - i,
        {
            let name = self.packages[i].name.as_str();
            commands.push(self.cargo.build_wasm32_unknown_unknown(name, opt));
            i = i + 1;
        }
        commands
    }

    /// The versions of the helper CLI that are to be installed: each version
    /// that a package needs, once, however many packages need it, in ascending
    /// order.
    pub fn install_wasm_bindgen_cli(&self) -> (versions: Vec<String>)
        ensures
            self.installs_with(versions.deep_view()),
    {
        let mut versions: Vec<String> = Vec::new();
        let n = self.packages.len();
        let mut i: usize = 0;
        assert(versions.deep_view() =~= Seq::empty());
        while i < n
            invariant
                n == self.packages@.len(),
                i <= n,
                versions@.len() <= i,
                ascending(versions.deep_view()),
                forall|v: Seq<char>|
                    versions.deep_view().contains(v) <==> self.versions().take(i as int).contains(
                        v,
                    ),
            decreases n - i,
        {
            let ghost before = versions.deep_view();
            insert_ascending(&mut versions, self.packages[i].wasm_bindgen_version.as_str());
            assert forall|v: Seq<char>|
                versions.deep_view().contains(v) <==> self.versions().take(i + 1).contains(v) by {
                let shorter = self.versions().take(i as int);
                let longer = self.versions().take(i + 1);
                assert(longer =~= shorter.push(self.versions()[i as int]));
                if shorter.contains(v) {
                    let x = choose|x: int| 0 <= x < shorter.len() && shorter[x] == v;
                    assert(longer[x] == v);
                }
                if longer.contains(v) {
                    let x = choose|x: int| 0 <= x < longer.len() && longer[x] == v;
                    if x < i {
                        assert(shorter[x] == v);
                    }
                }
                if v == self.versions()[i as int] {
                    assert(longer[i as int] == v);
                }
            }
            i = i + 1;
        }
        assert(self.versions().take(n as int) =~= self.versions());
        versions
    }
}

/// The glue stage of a build: what is done to the output directory first, and
/// the commands that are then run one after the other.
#[derive(Clone, Debug, PartialEq, Eq)]
pub struct GluePlan {
    /// The directory that is removed, with what it holds, before the first
    /// command runs; `None` where nothing is removed.
    pub clean: Option<String>,
    /// The command of each package, in the order of the packages.
    pub commands: Vec<CommandLine>,
}

/// The optimizer runs that follow the glue stage.
#[derive(Clone, Debug, PartialEq, Eq)]
pub struct Optimization {
    /// The levels that were asked for.
    pub levels: WasmOpt,
    /// The artifact of each package, in the order of the packages. They are
    /// optimized one after the other.
    pub artifacts: Vec<String>,
}

/// The bootstrap script that follows the glue stage.
#[derive(Clone, Debug, PartialEq, Eq)]
pub struct Bootstrap {
    /// Where the script is written.
    pub path: String,
    /// What is written.
    pub text: String,
}

/// What follows the glue stage.
#[derive(Clone, Debug, PartialEq, Eq)]
pub struct Finish {
    /// The packages that no glue code could be generated for.
    pub failures: Vec<BuildError>,
    /// The optimizer runs, if there are any.
    pub optimization: Option<Optimization>,
    /// The bootstrap script, if one is written.
    pub bootstrap: Option<Bootstrap>,
}

/// Whether no glue code was generated for the package `i`: its command failed,
/// or nothing is known of it.
pub open spec fn glue_failed(runs: Seq<RunResult>, i: int) -> bool {
    i >= runs.len() || !runs[i].succeeded()
}

/// The failures among the first `upto` packages, in the order of the packages.
pub open spec fn glue_failures(
    packages: Seq<PackageInfoView>,
    runs: Seq<RunResult>,
    upto: int,
) -> Seq<BuildErrorView>
    decreases upto,
{
    if upto <= 0 {
        Seq::empty()
    } else if glue_failed(runs, upto - 1) {
        glue_failures(packages, runs, upto - 1).push(
            BuildErrorView::GlueGenerationFailed { package: packages[upto - 1].name },
        )
    } else {
        glue_failures(packages, runs, upto - 1)
    }
}

/// Whether the stages after glue generation run: there are packages, and glue
/// code was generated for each of them.
pub open spec fn glue_complete(packages: Seq<PackageInfoView>, runs: Seq<RunResult>) -> bool {
    packages.len() > 0 && forall|i: int| 0 <= i < packages.len() ==> !glue_failed(runs, i)
}

impl BindgenPackages {
    /// Whether `plan` is the glue stage of a build of these packages: the
    /// output directory is removed first where the build asks for it, then the
    /// helper CLI is run for each package, in the order of the packages. A
    /// build without packages does neither.
    pub open spec fn glues_with(self, opt: Opt, plan: GluePlan) -> bool {
        &&& plan.clean is Some <==> opt.clean && self.packages@.len() > 0
        &&& plan.clean matches Some(dir) ==> dir@ == opt.out_dir_text()
        &&& plan.commands@.len() == self.packages@.len()
        &&& forall|i: int|
            0 <= i < self.packages@.len() ==> (#[trigger] plan.commands@[i])@
                == self.packages@[i]@.glue_command(opt)
    }

    /// Whether `finish` is what follows the glue stage, given how the command
    /// of each package ended. Each package without glue code is named as a
    /// failure. The optimizer and the bootstrap script come only where there
    /// are packages and none of them failed: the optimizer where the build asks
    /// for it, on the module of each package; the script where the build is
    /// for rollup, as `bootstrap.js` in the output directory.
    pub open spec fn finishes_with(self, opt: Opt, runs: Seq<RunResult>, finish: Finish) -> bool {
        &&& Seq::new(finish.failures@.len(), |i: int| finish.failures@[i]@) == glue_failures(
            self.infos(),
            runs,
            self.packages@.len() as int,
        )
        &&& finish.optimization is Some <==> glue_complete(self.infos(), runs) && opt.subs is Some
        &&& finish.optimization matches Some(optimization) ==> {
            &&& opt.subs == Some(SubCmds::WasmOpt(optimization.levels))
            &&& optimization.artifacts@.len() == self.packages@.len()
            &&& forall|i: int|
                0 <= i < self.packages@.len() ==> (#[trigger] optimization.artifacts@[i])@
                    == self.packages@[i]@.bound_wasm(opt.out_dir_text())
        }
        &&& finish.bootstrap is Some <==> glue_complete(self.infos(), runs) && opt.target == Some(
            WasmTarget::Rollup,
        )
        &&& finish.bootstrap matches Some(bootstrap) ==> {
            &&& bootstrap.path@ == pushed(opt.out_dir_text(), "bootstrap.js"@)
            &&& bootstrap.text@ == bootstrap_text(self.infos(), opt.out_dir_text())
        }
    }

    /// The glue stage of a build of these packages.
    pub fn build_wasm_js(&self, opt: &Opt) -> (plan: GluePlan)
        ensures
            self.glues_with(*opt, plan),
    {
        let n = self.packages.len();
        let clean = if opt.clean && n > 0 {
            Some(opt.output_dir())
        } else {
            None
        };
        let mut commands: Vec<CommandLine> = Vec::new();
        let mut i: usize = 0;
        while i < n
            invariant
                n == self.packages@.len(),
                i <= n,
                commands@.len() == i,
                forall|j: int|
                    0 <= j < i ==> (#[trigger] commands@[j])@ == self.packages@[j]@.glue_command(
                        *opt,
                    ),
            decreases n - i,
        {
            commands.push(self.packages[i].build_wasm_js(opt));
            i = i + 1;
        }
        GluePlan { clean, commands }
    }

    /// What follows the glue stage, given how the command of each package
    /// ended, in the order of the packages.
    pub fn finish(&self, opt: &Opt, runs: &Vec<RunResult>) -> (finish: Finish)
        ensures
            self.finishes_with(*opt, runs@, finish),
    {
        let n = self.packages.len();
        let out_dir = opt.output_dir();
        let levels = match &opt.subs {
            Some(SubCmds::WasmOpt(levels)) => *levels,
            None => WasmOpt::default(),
        };
        let mut failures: Vec<BuildError> = Vec::new();
        let mut artifacts: Vec<String> = Vec::new();
        let mut i: usize = 0;
        while i < n
            invariant
                n == self.packages@.len(),
                i <= n,
                out_dir@ == opt.out_dir_text(),
                Seq::new(failures@.len(), |k: int| failures@[k]@) == glue_failures(
                    self.infos(),
                    runs@,
                    i as int,
                ),
                failures@.len() == 0 <==> forall|k: int| 0 <= k < i ==> !glue_failed(runs@, k),
                artifacts@.len() == i,
                forall|k: int|
                    0 <= k < i ==> (#[trigger] artifacts@[k])@ == self.packages@[k]@.bound_wasm(
                        opt.out_dir_text(),
                    ),
            decreases n - i,
        {
            let ghost before = Seq::new(failures@.len(), |k: int| failures@[k]@);
            if i >= runs.len() || !runs[i].success() {
                let failure = BuildError::GlueGenerationFailed {
                    package: self.packages[i].name.clone(),
                };
                failures.push(failure);
                assert(Seq::new(failures@.len(), |k: int| failures@[k]@) =~= before.push(
                    BuildErrorView::GlueGenerationFailed { package: self.infos()[i as int].name },
                ));
                assert(glue_failed(runs@, i as int));
            }
            artifacts.push(self.packages[i].bound_wasm(out_dir.as_str()));
            i = i + 1;
        }
        let complete = n > 0 && failures.len() == 0;
        assert(complete == glue_complete(self.infos(), runs@));
        let optimization = if complete && opt.subs.is_some() {
            Some(Optimization { levels, artifacts })
        } else {
            None
        };
        let bootstrap = if complete && is_rollup(opt) {
            Some(
                Bootstrap {
                    path: path_push(out_dir.as_str(), "bootstrap.js"),
                    text: rollup_bootstrap_js(&self.packages, out_dir.as_str()),
                },
            )
        } else {
            None
        };
        Finish { failures, optimization, bootstrap }
    }
}

fn is_rollup(opt: &Opt) -> (rollup: bool)
    ensures
        rollup == (opt.target == Some(WasmTarget::Rollup)),
{
    match opt.target {
        Some(WasmTarget::Rollup) => true,
        _ => false,
    }
}

} // verus!
