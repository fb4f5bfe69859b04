//! The starter files of a new project.

use crate::cargo::Cargo;
use crate::command::{CommandLine, CommandLineView};
use crate::error::{BuildError, BuildErrorView};
use crate::target::WasmTarget;
use crate::templates::{
    html_text, make_html, DEPENDENCIES, GITIGNORE, LIB_RS, NODE_GITIGNORE, ROLLUP_PACKAGE_JSON,
    ROLLUP_TEMPLATE,
};
use crate::text::{path_push, pushed, replace, replaced};
use vstd::prelude::*;
use vstd::string::*;

verus! {

/// A file of a new project.
#[derive(Clone, Debug, PartialEq, Eq)]
pub struct TemplateFile {
    pub path: String,
    pub text: String,
}

/// A file of a new project as mathematical value.
pub struct TemplateFileView {
    pub path: Seq<char>,
    pub text: Seq<char>,
}

impl View for TemplateFile {
    type V = TemplateFileView;

    open spec fn view(&self) -> TemplateFileView {
        TemplateFileView { path: self.path@, text: self.text@ }
    }
}

/// How a new project is made.
#[derive(Clone, Debug, PartialEq, Eq)]
pub struct Scaffold {
    /// The manifest of the project, as cargo writes it.
    pub manifest: String,
    /// The command that creates the project.
    pub command: CommandLine,
    /// The files that are written once the project is created, in this order.
    pub files: Vec<TemplateFile>,
    /// The directory that is created before its page is written.
    pub dist: String,
    /// The page that loads the module.
    pub page: TemplateFile,
}

/// The files of a new project beside its manifest and its page: the library
/// source and what is kept out of version control, and for rollup its
/// configuration and package description.
pub open spec fn starter_files(name: Seq<char>, target: WasmTarget) -> Seq<TemplateFileView> {
    let source = TemplateFileView { path: pushed(name, "src/lib.rs"@), text: LIB_RS@ };
    let ignore = pushed(name, ".gitignore"@);
    match target {
        WasmTarget::Web => seq![source, TemplateFileView { path: ignore, text: GITIGNORE@ }],
        WasmTarget::Rollup => seq![
            source,
            TemplateFileView { path: ignore, text: NODE_GITIGNORE@ },
            TemplateFileView { path: pushed(name, "rollup.config.js"@), text: ROLLUP_TEMPLATE@ },
            TemplateFileView { path: pushed(name, "package.json"@), text: ROLLUP_PACKAGE_JSON@ },
        ],
        WasmTarget::Webpack => seq![
            source,
            TemplateFileView { path: ignore, text: NODE_GITIGNORE@ },
        ],
    }
}

/// The manifest of a new project: what cargo wrote, with the library's kind and
/// the dependencies of a WebAssembly module under its dependencies heading.
pub open spec fn patched_manifest(manifest: Seq<char>) -> Seq<char> {
    replaced(manifest, "[dependencies]"@, DEPENDENCIES@)
}

fn template(base: &str, file: &str, text: &str) -> (made: TemplateFile)
    ensures
        made@ == (TemplateFileView { path: pushed(base@, file@), text: text@ }),
{
    TemplateFile { path: path_push(base, file), text: String::from_str(text) }
}

impl Scaffold {
    /// Writes the manifest of a new project from the one that cargo wrote.
    pub fn patch_manifest(manifest: &str) -> (patched: String)
        ensures
            patched@ == patched_manifest(manifest@),
    {
        replace(manifest, "[dependencies]", DEPENDENCIES)
    }
}

impl Cargo {
    /// Whether `scaffold` makes the project `name` for `target` with this
    /// cargo: cargo creates a library of that name, the starter files follow,
    /// and the page goes into the directory `dist`.
    pub open spec fn scaffolds(
        self,
        scaffold: Scaffold,
        name: Seq<char>,
        target: WasmTarget,
        quiet: bool,
    ) -> bool {
        &&& scaffold.manifest@ == pushed(name, "Cargo.toml"@)
        &&& scaffold.command@ == (CommandLineView {
            program: self.program(),
            args: seq!["new"@, "--lib"@, name],
            quiet,
        })
        &&& Seq::new(scaffold.files@.len(), |i: int| scaffold.files@[i]@) == starter_files(
            name,
            target,
        )
        &&& scaffold.dist@ == pushed(name, "dist"@)
        &&& scaffold.page@ == (TemplateFileView {
            path: pushed(pushed(name, "dist"@), "index.html"@),
            text: html_text(name, target),
        })
    }

    /// How the project `name` is made for `target`: cargo creates a library,
    /// then the starter files are written into it. `exists` says whether the
    /// manifest of such a project is there already: then nothing is made, and
    /// the failure names the destination.
    pub fn new_template_project(
        &self,
        name: &str,
        target: &WasmTarget,
        quiet: bool,
        exists: bool,
    ) -> (made: Result<Scaffold, BuildError>)
        ensures
            match made {
                Ok(scaffold) => !exists && self.scaffolds(scaffold, name@, *target, quiet),
                Err(error) => exists && error@ == (BuildErrorView::DestinationExists {
                    destination: name@,
                }),
            },
    {
        if exists {
            return Err(BuildError::DestinationExists { destination: String::from_str(name) });
        }
        let mut command = CommandLine::new(self.0.as_str(), quiet);
        command.arg("new");
        command.arg("--lib");
        command.arg(name);
        assert(command@.args =~= seq!["new"@, "--lib"@, name@]);
        let mut files: Vec<TemplateFile> = Vec::new();
        files.push(template(name, "src/lib.rs", LIB_RS));
        match target {
            WasmTarget::Web => {
                files.push(template(name, ".gitignore", GITIGNORE));
            },
            WasmTarget::Rollup => {
                files.push(template(name, ".gitignore", NODE_GITIGNORE));
                files.push(template(name, "rollup.config.js", ROLLUP_TEMPLATE));
                files.push(template(name, "package.json", ROLLUP_PACKAGE_JSON));
            },
            WasmTarget::Webpack => {
                files.push(template(name, ".gitignore", NODE_GITIGNORE));
            },
        }
        assert(Seq::new(files@.len(), |i: int| files@[i]@) =~= starter_files(name@, *target));
        let dist = path_push(name, "dist");
        let page = TemplateFile {
            path: path_push(dist.as_str(), "index.html"),
            text: make_html(name, target),
        };
        Ok(Scaffold { manifest: path_push(name, "Cargo.toml"), command, files, dist, page })
    }
}

} // verus!
