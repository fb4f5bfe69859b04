//! The failures of the pipeline.

use vstd::prelude::*;
use vstd::string::*;

verus! {

/// Why a stage of the pipeline failed. Each failure ends the stage for the
/// package or tool that it names; none is retried.
#[derive(Clone, Debug, PartialEq, Eq)]
pub enum BuildError {
    /// No prebuilt optimizer exists for this operating system and architecture.
    UnsupportedPlatform { os: String, arch: String },
    /// The project metadata could not be queried.
    MetadataUnavailable { cause: String },
    /// The helper CLI of this version could not be installed.
    InstallFailed { version: String, cause: String },
    /// The package did not compile.
    CompileFailed { package: String, cause: String },
    /// No glue code could be generated for the package.
    GlueGenerationFailed { package: String },
    /// The optimizer's archive could not be downloaded.
    DownloadFailed { cause: String },
    /// The optimizer's archive could not be unpacked.
    ExtractFailed { cause: String },
    /// The optimizer failed on the artifact at `path`.
    OptimizeFailed { path: String, cause: String },
    /// A new project was asked for where one exists.
    DestinationExists { destination: String },
}

/// A failure as mathematical value.
pub enum BuildErrorView {
    UnsupportedPlatform { os: Seq<char>, arch: Seq<char> },
    MetadataUnavailable { cause: Seq<char> },
    InstallFailed { version: Seq<char>, cause: Seq<char> },
    CompileFailed { package: Seq<char>, cause: Seq<char> },
    GlueGenerationFailed { package: Seq<char> },
    DownloadFailed { cause: Seq<char> },
    ExtractFailed { cause: Seq<char> },
    OptimizeFailed { path: Seq<char>, cause: Seq<char> },
    DestinationExists { destination: Seq<char> },
}

impl View for BuildError {
    type V = BuildErrorView;

    open spec fn view(&self) -> BuildErrorView {
        match self {
            BuildError::UnsupportedPlatform { os, arch } => BuildErrorView::UnsupportedPlatform {
                os: os@,
                arch: arch@,
            },
            BuildError::MetadataUnavailable { cause } => BuildErrorView::MetadataUnavailable {
                cause: cause@,
            },
            BuildError::InstallFailed { version, cause } => BuildErrorView::InstallFailed {
                version: version@,
                cause: cause@,
            },
            BuildError::CompileFailed { package, cause } => BuildErrorView::CompileFailed {
                package: package@,
                cause: cause@,
            },
            BuildError::GlueGenerationFailed { package } => BuildErrorView::GlueGenerationFailed {
                package: package@,
            },
            BuildError::DownloadFailed { cause } => BuildErrorView::DownloadFailed {
                cause: cause@,
            },
            BuildError::ExtractFailed { cause } => BuildErrorView::ExtractFailed { cause: cause@ },
            BuildError::OptimizeFailed { path, cause } => BuildErrorView::OptimizeFailed {
                path: path@,
                cause: cause@,
            },
            BuildError::DestinationExists { destination } => BuildErrorView::DestinationExists {
                destination: destination@,
            },
        }
    }
}

impl BuildErrorView {
    /// What is said of the failure: the package or tool that it concerns, and
    /// below it the cause as the failing process or request gave it.
    pub open spec fn message(self) -> Seq<char> {
        match self {
            BuildErrorView::UnsupportedPlatform { os, arch } =>
                "Prebuilt wasm-opt binaries are only available for linux, macos and windows on x86_64, not for "@
                    + os + " on "@ + arch,
            BuildErrorView::MetadataUnavailable { cause } => cause,
            BuildErrorView::InstallFailed { version, cause } =>
                "Unable to install wasm-bindgen-cli "@ + version + "\n"@ + cause,
            BuildErrorView::CompileFailed { package, cause } =>
                "Unable run cargo to build wasm32-unknown-unknown for "@ + package + "\n"@ + cause,
            BuildErrorView::GlueGenerationFailed { package } => "unable to build js glue code for "@
                + package,
            BuildErrorView::DownloadFailed { cause } => "Unable to download wasm-opt:\n"@ + cause,
            BuildErrorView::ExtractFailed { cause } => "Unable to unpack wasm-opt:\n"@ + cause,
            BuildErrorView::OptimizeFailed { path, cause } => "Failed to run wasm-opt for "@ + path
                + "\n"@ + cause,
            BuildErrorView::DestinationExists { destination } => "destination `"@ + destination
                + "` already exists"@,
        }
    }
}

impl BuildError {
    /// Writes what is said of the failure.
    pub fn message(&self) -> (text: String)
        ensures
            text@ == self@.message(),
    {
        match self {
            BuildError::UnsupportedPlatform { os, arch } => {
                let mut text = String::from_str(
                    "Prebuilt wasm-opt binaries are only available for linux, macos and windows on x86_64, not for ",
                );
                text.append(os.as_str());
                text.append(" on ");
                text.append(arch.as_str());
                text
            },
            BuildError::MetadataUnavailable { cause } => cause.clone(),
            BuildError::InstallFailed { version, cause } => {
                let mut text = String::from_str("Unable to install wasm-bindgen-cli ");
                text.append(version.as_str());
                text.append("\n");
                text.append(cause.as_str());
                text
            },
            BuildError::CompileFailed { package, cause } => {
                let mut text = String::from_str(
                    "Unable run cargo to build wasm32-unknown-unknown for ",
                );
                text.append(package.as_str());
                text.append("\n");
                text.append(cause.as_str());
                text
            },
            BuildError::GlueGenerationFailed { package } => {
                let mut text = String::from_str("unable to build js glue code for ");
                text.append(package.as_str());
                text
            },
            BuildError::DownloadFailed { cause } => {
                let mut text = String::from_str("Unable to download wasm-opt:\n");
                text.append(cause.as_str());
                text
            },
            BuildError::ExtractFailed { cause } => {
                let mut text = String::from_str("Unable to unpack wasm-opt:\n");
                text.append(cause.as_str());
                text
            },
            BuildError::OptimizeFailed { path, cause } => {
                let mut text = String::from_str("Failed to run wasm-opt for ");
                text.append(path.as_str());
                text.append("\n");
                text.append(cause.as_str());
                text
            },
            BuildError::DestinationExists { destination } => {
                let mut text = String::from_str("destination `");
                text.append(destination.as_str());
                text.append("` already exists");
                text
            },
        }
    }
}

} // verus!
