//! The commands that are given to cargo.

use crate::command::{CommandLine, CommandLineView, RunResult};
use crate::error::{BuildError, BuildErrorView};
use crate::options::Opt;
use vstd::prelude::*;
use vstd::string::*;

verus! {

/// The cargo executable that the commands are given to.
#[derive(Clone, Debug, PartialEq, Eq)]
pub struct Cargo(pub String);

/// The arguments that install the helper CLI of one version into the
/// directory of that version. The version is named, so that cargo does not
/// pick one.
pub open spec fn install_args(version: Seq<char>) -> Seq<Seq<char>> {
    seq![
        "install"@,
        "--root"@,
        crate::install_root_of(version),
        "--version"@,
        version,
        "--"@,
        "wasm-bindgen-cli"@,
    ]
}

/// The arguments that compile one package, and no other, to WebAssembly.
pub open spec fn build_args(package_name: Seq<char>, release: bool) -> Seq<Seq<char>> {
    seq!["build"@, "--package"@, package_name, "--target"@, "wasm32-unknown-unknown"@] + (
    if release {
        seq!["--release"@]
    } else {
        Seq::empty()
    })
}

impl Cargo {
    /// The executable.
    pub open spec fn program(self) -> Seq<char> {
        self.0@
    }

    /// The command that installs the helper CLI of `wasm_bindgen_version`, if
    /// one is needed: where `installed` says that its executable exists,
    /// nothing is run.
    pub fn install_wasm_bindgen_cli(
        &self,
        wasm_bindgen_version: &str,
        quiet: bool,
        installed: bool,
    ) -> (command: Option<CommandLine>)
        ensures
            installed ==> command is None,
            !installed ==> command is Some && command->0@ == (CommandLineView {
                program: self.program(),
                args: install_args(wasm_bindgen_version@),
                quiet,
            }),
    {
        if installed {
            None
        } else {
            let root = crate::install_root(wasm_bindgen_version);
            let mut cmd = CommandLine::new(self.0.as_str(), quiet);
            cmd.arg("install");
            cmd.arg("--root");
            cmd.arg(root.as_str());
            cmd.arg("--version");
            cmd.arg(wasm_bindgen_version);
            cmd.arg("--");
            cmd.arg(crate::WASM_BINDGEN_CLI);
            assert(cmd@.args =~= install_args(wasm_bindgen_version@));
            Some(cmd)
        }
    }

    /// What the installation of the helper CLI of `wasm_bindgen_version` came
    /// to: the path of its executable where the installer succeeded, and the
    /// failure with its cause where it did not.
    pub fn after_install(wasm_bindgen_version: &str, run: &RunResult) -> (outcome: Result<
        String,
        BuildError,
    >)
        ensures
            match outcome {
                Ok(path) => run.succeeded() && path@ == crate::cli_path_of(wasm_bindgen_version@),
                Err(error) => !run.succeeded() && error@ == (BuildErrorView::InstallFailed {
                    version: wasm_bindgen_version@,
                    cause: run.cause_text(),
                }),
            },
    {
        if run.success() {
            Ok(crate::path_to_cli(wasm_bindgen_version))
        } else {
            Err(
                BuildError::InstallFailed {
                    version: String::from_str(wasm_bindgen_version),
                    cause: run.cause(),
                },
            )
        }
    }

    /// The command that compiles the package `package_name` to WebAssembly, in
    /// release mode where the build asks for it.
    pub fn build_wasm32_unknown_unknown(&self, package_name: &str, opt: &Opt) -> (command:
        CommandLine)
        ensures
            command@ == (CommandLineView {
                program: self.program(),
                args: build_args(package_name@, opt.release),
                quiet: opt.quiet,
            }),
    {
        let mut cmd = CommandLine::new(self.0.as_str(), opt.quiet);
        cmd.arg("build");
        cmd.arg("--package");
        cmd.arg(package_name);
        cmd.arg("--target");
        cmd.arg(crate::WASM32_UNKNOWN_UNKNOWN);
        if opt.release {
            cmd.arg("--release");
        }
        assert(cmd@.args =~= build_args(package_name@, opt.release));
        cmd
    }

    /// What the compilation of the package `package_name` came to: nothing
    /// where the compiler succeeded, and the failure with the package and the
    /// cause where it did not.
    pub fn after_build(package_name: &str, run: &RunResult) -> (outcome: Result<(), BuildError>)
        ensures
            match outcome {
                Ok(_) => run.succeeded(),
                Err(error) => !run.succeeded() && error@ == (BuildErrorView::CompileFailed {
                    package: package_name@,
                    cause: run.cause_text(),
                }),
            },
    {
        if run.success() {
            Ok(())
        } else {
            Err(
                BuildError::CompileFailed {
                    package: String::from_str(package_name),
                    cause: run.cause(),
                },
            )
        }
    }
}

} // verus!
