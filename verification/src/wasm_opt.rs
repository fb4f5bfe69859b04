//! The optimizer: how hard it works, and how it is run.

use crate::command::{CommandLine, CommandLineView, RunResult};
use crate::error::{BuildError, BuildErrorView};
use crate::fetch::{Fetch, FetchView, Platform};
use crate::options::Opt;
use crate::report::{size_text, SizeReport};
use crate::rounding::{lemma_rounded_quotient_is_nearest, round_half_even, spacing_of};
use crate::text::{decimal, two_places};
use vstd::prelude::*;
use vstd::string::*;

verus! {

/// The release of the optimizer that every build uses.
pub const BINARYEN_VERSION: &'static str = "version_97";

/// The directory that the optimizer's archive is unpacked into.
pub const OUT_DIR: &'static str = "target/binaryen";

/// The optimizer's executable, once its archive is unpacked.
pub const FINAL_PATH: &'static str = "target/binaryen/binaryen-version_97/bin/wasm-opt";

/// The one architecture that prebuilt optimizers exist for.
pub const ARCH_X86_64: &'static str = "x86_64";

/// How hard the optimizer works, and for what.
#[derive(Clone, Copy, Debug, PartialEq, Eq, Structural)]
pub enum OptimizationLevel {
    /// No optimization pass.
    O0,
    /// Quick passes, for builds that are repeated often.
    O1,
    /// Most passes.
    O2,
    /// Passes that may take long.
    O3,
    /// As `O3`, on a flattened module.
    O4,
    /// The default passes, with an eye on code size.
    Size,
    /// The default passes, with code size above all.
    SizeAggressive,
    /// The default passes.
    Default,
}

impl OptimizationLevel {
    /// The switch that asks the optimizer for this level.
    pub open spec fn switch_text(self) -> Seq<char> {
        match self {
            OptimizationLevel::O0 => "-O0"@,
            OptimizationLevel::O1 => "-O1"@,
            OptimizationLevel::O2 => "-O2"@,
            OptimizationLevel::O3 => "-O3"@,
            OptimizationLevel::O4 => "-O4"@,
            OptimizationLevel::Size => "-Os"@,
            OptimizationLevel::SizeAggressive => "-Oz"@,
            OptimizationLevel::Default => "-O"@,
        }
    }

    /// The switch that asks the optimizer for this level.
    pub fn switch(&self) -> (text: &'static str)
        ensures
            text@ == self.switch_text(),
    {
        match self {
            OptimizationLevel::O0 => "-O0",
            OptimizationLevel::O1 => "-O1",
            OptimizationLevel::O2 => "-O2",
            OptimizationLevel::O3 => "-O3",
            OptimizationLevel::O4 => "-O4",
            OptimizationLevel::Size => "-Os",
            OptimizationLevel::SizeAggressive => "-Oz",
            OptimizationLevel::Default => "-O",
        }
    }
}

/// The optimization levels that were asked for, one switch each. A sound
/// request sets at most one of them.
#[allow(non_snake_case)]
#[derive(Clone, Copy, Debug, PartialEq, Eq, Structural)]
pub struct WasmOpt {
    /// The default passes.
    pub O: bool,
    /// No optimization pass.
    pub O0: bool,
    /// Quick passes.
    pub O1: bool,
    /// Most passes.
    pub O2: bool,
    /// Passes that may take long.
    pub O3: bool,
    /// As `O3`, on a flattened module.
    pub O4: bool,
    /// The default passes, with an eye on code size.
    pub Os: bool,
    /// The default passes, with code size above all.
    pub Oz: bool,
}

impl Default for WasmOpt {
    /// No level asked for.
    fn default() -> (flags: WasmOpt)
        ensures
            flags == WasmOpt::none(),
    {
        WasmOpt {
            O: false,
            O0: false,
            O1: false,
            O2: false,
            O3: false,
            O4: false,
            Os: false,
            Oz: false,
        }
    }
}

impl WasmOpt {
    /// The request that asks for no level.
    pub open spec fn none() -> WasmOpt {
        WasmOpt {
            O: false,
            O0: false,
            O1: false,
            O2: false,
            O3: false,
            O4: false,
            Os: false,
            Oz: false,
        }
    }

    /// The one level that the optimizer is run at: the first that was asked for
    /// in the order `O0`, `O1`, `O2`, `O3`, `O4`, `Os`, `Oz`, and the default
    /// passes where none of these was.
    pub open spec fn chosen_level(self) -> OptimizationLevel {
        if self.O0 {
            OptimizationLevel::O0
        } else if self.O1 {
            OptimizationLevel::O1
        } else if self.O2 {
            OptimizationLevel::O2
        } else if self.O3 {
            OptimizationLevel::O3
        } else if self.O4 {
            OptimizationLevel::O4
        } else if self.Os {
            OptimizationLevel::Size
        } else if self.Oz {
            OptimizationLevel::SizeAggressive
        } else {
            OptimizationLevel::Default
        }
    }

    /// The arguments of an optimizer run on the artifact at `wasm`: the artifact
    /// as input and as output, the switch for reference types where the build
    /// uses them, and the switch of the one chosen level.
    pub open spec fn run_args(self, wasm: Seq<char>, reference_types: bool) -> Seq<Seq<char>> {
        seq![wasm, "--output"@, wasm] + (if reference_types {
            seq!["--enable-reference-types"@]
        } else {
            Seq::empty()
        }) + seq![self.chosen_level().switch_text()]
    }

    /// The one level that the optimizer is run at.
    pub fn level(&self) -> (level: OptimizationLevel)
        ensures
            level == self.chosen_level(),
    {
        if self.O0 {
            OptimizationLevel::O0
        } else if self.O1 {
            OptimizationLevel::O1
        } else if self.O2 {
            OptimizationLevel::O2
        } else if self.O3 {
            OptimizationLevel::O3
        } else if self.O4 {
            OptimizationLevel::O4
        } else if self.Os {
            OptimizationLevel::Size
        } else if self.Oz {
            OptimizationLevel::SizeAggressive
        } else {
            OptimizationLevel::Default
        }
    }

    /// Writes a byte count in words, as `size_text` defines them.
    pub fn file_size(raw_size: u64) -> (text: String)
        ensures
            text@ == size_text(raw_size as nat),
    {
        if raw_size == 1 {
            String::from_str("1 byte")
        } else if raw_size < 1024 {
            let mut text = decimal(raw_size as u128);
            text.append(" bytes");
            text
        } else if raw_size < 1048576 {
            let mut text = two_places(round_half_even(raw_size as u128 * 100, 1024));
            text.append(" KiB");
            text
        } else {
            let spacing = spacing_of(raw_size);
            let steps = round_half_even(raw_size as u128, spacing);
            proof {
                lemma_rounded_quotient_is_nearest(raw_size as nat, spacing as nat);
            }
            let nearest = steps * (spacing as u128);
            let mut text = two_places(round_half_even(nearest * 100, 1048576));
            text.append(" MB");
            text
        }
    }

    /// Begins the installation of the optimizer. `installed` says whether its
    /// executable exists; `os` and `arch` name the machine.
    pub fn try_install(&self, installed: bool, os: &str, arch: &str) -> (state: Fetch)
        ensures
            state@ == FetchView::start(installed, os@, arch@),
    {
        if installed {
            Fetch::Installed
        } else {
            match Platform::try_new(os, arch) {
                Ok(platform) => Fetch::Download { url: platform.url(), retry: true },
                Err(error) => Fetch::Failed(error),
            }
        }
    }

    /// What an optimizer run on the artifact at `wasm` came to: the sizes before
    /// and after it where the optimizer succeeded, whichever of the two is
    /// larger, and the failure with the artifact's path and the cause where it
    /// did not.
    pub fn after_run(wasm: &str, original_size: u64, run: &RunResult, final_size: u64) -> (outcome:
        Result<SizeReport, BuildError>)
        ensures
            match outcome {
                Ok(report) => run.succeeded() && report == (SizeReport {
                    original_size,
                    final_size,
                }),
                Err(error) => !run.succeeded() && error@ == (BuildErrorView::OptimizeFailed {
                    path: wasm@,
                    cause: run.cause_text(),
                }),
            },
    {
        if run.success() {
            Ok(SizeReport { original_size, final_size })
        } else {
            Err(BuildError::OptimizeFailed { path: String::from_str(wasm), cause: run.cause() })
        }
    }

    /// The optimizer run on the artifact at `wasm`, given what came of
    /// measuring it first. An artifact that could be measured is optimized; on
    /// one that could not be the optimizer is not started, and the failure
    /// carries the artifact's path and the cause.
    pub fn run_measured(&self, wasm: &str, opt: &Opt, measured: &Result<u64, String>) -> (step:
        Result<CommandLine, BuildError>)
        ensures
            match *measured {
                Ok(_) => step matches Ok(cmd) && cmd@ == (CommandLineView {
                    program: "target/binaryen/binaryen-version_97/bin/wasm-opt"@,
                    args: self.run_args(wasm@, opt.reference_types),
                    quiet: opt.quiet,
                }),
                Err(cause) => step matches Err(error) && error@ == (
                BuildErrorView::OptimizeFailed { path: wasm@, cause: cause@ }),
            },
    {
        match measured {
            Ok(_) => Ok(self.try_run(wasm, opt)),
            Err(cause) => Err(
                BuildError::OptimizeFailed { path: String::from_str(wasm), cause: cause.clone() },
            ),
        }
    }

    /// The command that optimizes the artifact at `wasm` in place.
    pub fn try_run(&self, wasm: &str, opt: &Opt) -> (cmd: CommandLine)
        ensures
            cmd@ == (CommandLineView {
                program: "target/binaryen/binaryen-version_97/bin/wasm-opt"@,
                args: self.run_args(wasm@, opt.reference_types),
                quiet: opt.quiet,
            }),
    {
        let mut cmd = CommandLine::new(FINAL_PATH, opt.quiet);
        cmd.arg(wasm);
        cmd.arg("--output");
        cmd.arg(wasm);
        if opt.reference_types {
            cmd.arg("--enable-reference-types");
        }
        cmd.arg(self.level().switch());
        assert(cmd@.args =~= self.run_args(wasm@, opt.reference_types));
        cmd
    }
}

} // verus!
