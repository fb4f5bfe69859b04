//! Planning for a WebAssembly build pipeline.
//!
//! The library decides what has to be run, fetched or written to turn the
//! packages of a workspace into WebAssembly modules with JavaScript glue: which
//! packages take part, which helper tools they need, the command line of every
//! external process, the address of the optimizer's release archive and the text
//! of the generated loader. It starts no process and touches no file: its
//! functions take what was observed as plain values and return what to do next.
//!
//! [`Pipeline`] holds the order of the stages. A program that builds with this
//! library begins with [`Pipeline::start`], does what the [`Action`] says,
//! reports the [`Event`] to [`Pipeline::advance`], and goes on until nothing
//! follows.
//!
//! Paths are text with `/` between their components.

pub mod cargo;
pub mod command;
pub mod error;
pub mod fetch;
pub mod laws;
pub mod metadata;
pub mod options;
pub mod package;
pub mod pipeline;
pub mod report;
pub mod rounding;
pub mod scaffold;
pub mod target;
pub mod templates;
pub mod text;
pub mod wasm_opt;

pub use cargo::Cargo;
pub use command::{CommandLine, CommandLineView, RunResult};
pub use error::{BuildError, BuildErrorView};
pub use fetch::{Fetch, FetchView, Platform};
pub use metadata::{Metadata, MetadataView, Node, NodeView, Package, PackageView};
pub use options::{BuildPlan, CargoWasm, Job, Opt, SubCmds};
pub use package::{
    BindgenPackages, Bootstrap, Finish, GluePlan, Optimization, PackageInfo, PackageInfoView,
};
pub use pipeline::{Action, Conclusion, Event, Observation, Pipeline, Shrunk};
pub use report::SizeReport;
pub use scaffold::{Scaffold, TemplateFile, TemplateFileView};
pub use target::WasmTarget;
pub use templates::{make_html, rollup_bootstrap_js};
pub use text::{decimal, path_push, underscored};
pub use wasm_opt::{OptimizationLevel, WasmOpt};

use vstd::prelude::*;

verus! {

/// The library whose presence among a package's dependencies asks for glue code.
pub const WASM_BINDGEN: &'static str = "wasm-bindgen";

/// The helper CLI that generates glue code. Its version follows the library's.
pub const WASM_BINDGEN_CLI: &'static str = "wasm-bindgen-cli";

/// The compilation target.
pub const WASM32_UNKNOWN_UNKNOWN: &'static str = "wasm32-unknown-unknown";

/// The directory that the helper CLI of one version is installed into: one
/// directory for each version, side by side.
pub open spec fn install_root_of(version: Seq<char>) -> Seq<char> {
    text::pushed(text::pushed("target"@, "wasm-bindgen-cli"@), version)
}

/// The executable of the helper CLI of one version.
pub open spec fn cli_path_of(version: Seq<char>) -> Seq<char> {
    text::pushed(text::pushed(install_root_of(version), "bin"@), "wasm-bindgen"@)
}

/// The directory that the helper CLI of `wasm_bindgen_version` is installed into.
pub fn install_root(wasm_bindgen_version: &str) -> (root: String)
    ensures
        root@ == install_root_of(wasm_bindgen_version@),
{
    let base = path_push("target", WASM_BINDGEN_CLI);
    path_push(base.as_str(), wasm_bindgen_version)
}

/// The executable of the helper CLI of `wasm_bindgen_version`.
pub fn path_to_cli(wasm_bindgen_version: &str) -> (path: String)
    ensures
        path@ == cli_path_of(wasm_bindgen_version@),
{
    let root = install_root(wasm_bindgen_version);
    let bin = path_push(root.as_str(), "bin");
    path_push(bin.as_str(), WASM_BINDGEN)
}

} // verus!
