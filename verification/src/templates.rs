//! The texts that the pipeline writes: the page of a new project and the
//! bootstrap script of a rollup build.

use crate::package::{PackageInfo, PackageInfoView};
use crate::target::WasmTarget;
use vstd::prelude::*;
use vstd::string::*;

verus! {

/// The library source of a new project.
pub const LIB_RS: &'static str =
    "use wasm_bindgen::prelude::*;\n\n#[wasm_bindgen(start)]\npub fn main() {\n    web_sys::console::log_1(&\"rust says hello from wasm\".into());\n}";

/// What takes the place of the dependencies heading in the manifest of a new project.
pub const DEPENDENCIES: &'static str =
    "[lib]\ncrate-type = [\"cdylib\", \"rlib\"]\n\n[dependencies]\nwasm-bindgen = \"0.2\"\nweb-sys = { version = \"0.3\", features = [\"console\"] }";

/// What a new project for the web keeps out of version control.
pub const GITIGNORE: &'static str = "/target\nCargo.lock\n/dist/js\n";

/// What a new project under a bundler keeps out of version control.
pub const NODE_GITIGNORE: &'static str = "/target\nCargo.lock\n/dist/js\n/node_modules\n";

/// The rollup configuration of a new project: the bootstrap script goes in, the
/// bundle that the page loads comes out.
pub const ROLLUP_TEMPLATE: &'static str =
    "export default {\n    input: \"dist/js/bootstrap.js\",\n    output: {\n        file: \"dist/js/index.js\",\n        format: \"iife\",\n    },\n};\n";

/// The package description of a new project under rollup.
pub const ROLLUP_PACKAGE_JSON: &'static str =
    "{\n    \"private\": true,\n    \"scripts\": {\n        \"build\": \"rollup -c\"\n    },\n    \"devDependencies\": {\n        \"rollup\": \"^2.0.0\"\n    }\n}\n";

/// The element that loads the module: on the web the page imports the glue of
/// `project_name` and starts it, under a bundler it loads the bundle.
pub open spec fn script_text(project_name: Seq<char>, target: WasmTarget) -> Seq<char> {
    match target {
        WasmTarget::Web => "<script type=\"module\">\n        import init from './js/"@
            + project_name + ".js';\n        init();\n    </script>"@,
        WasmTarget::Rollup | WasmTarget::Webpack => "<script src=\"js/index.js\"></script>"@,
    }
}

/// The page of a new project: a fixed document with the loading element
/// between its body and its end.
pub open spec fn html_text(project_name: Seq<char>, target: WasmTarget) -> Seq<char> {
    "<!DOCTYPE html>\n<html>\n\n<head>\n    <meta charset=\"utf-8\">\n</head>\n\n<body>\n<div>Hello from rust + wasm. Check the browser console.</div>\n</body>\n"@
        + script_text(project_name, target) + "\n</html>"@
}

/// Writes the page of a new project.
pub fn make_html(project_name: &str, target: &WasmTarget) -> (html: String)
    ensures
        html@ == html_text(project_name@, *target),
{
    let mut html = String::from_str(
        "<!DOCTYPE html>\n<html>\n\n<head>\n    <meta charset=\"utf-8\">\n</head>\n\n<body>\n<div>Hello from rust + wasm. Check the browser console.</div>\n</body>\n",
    );
    match target {
        WasmTarget::Web => {
            html.append("<script type=\"module\">\n        import init from './js/");
            html.append(project_name);
            html.append(".js';\n        init();\n    </script>");
        },
        WasmTarget::Rollup | WasmTarget::Webpack => {
            html.append("<script src=\"js/index.js\"></script>");
        },
    }
    html.append("\n</html>");
    assert(html@ =~= html_text(project_name@, *target));
    html
}

/// The line that imports the glue code of a module.
pub open spec fn import_line(module: Seq<char>) -> Seq<char> {
    "import * as "@ + module + " from \"./"@ + module + ".js\"\n"@
}

/// The path by which the bootstrap script loads the binary of a module: the
/// name of the binary's file alone. The script lies in the output directory
/// beside the binary, so the path is the same whatever that directory is.
pub open spec fn binary_path(module: Seq<char>, out_dir: Seq<char>) -> Seq<char> {
    module + "_bg.wasm"@
}

/// The line that starts a module with its binary, and reports a binary that
/// does not load by its path.
pub open spec fn init_line(module: Seq<char>, out_dir: Seq<char>) -> Seq<char> {
    module + ".default(\""@ + binary_path(module, out_dir)
        + "\").catch((e) => { console.log(\"Failed to load wasm file: "@ + binary_path(
        module,
        out_dir,
    ) + "\") })\n"@
}

/// The import lines of the first `upto` packages, in their order.
pub open spec fn import_lines(packages: Seq<PackageInfoView>, upto: int) -> Seq<char>
    decreases upto,
{
    if upto <= 0 {
        Seq::empty()
    } else {
        import_lines(packages, upto - 1) + import_line(packages[upto - 1].module_name())
    }
}

/// The lines that start the first `upto` packages, in their order.
pub open spec fn init_lines(packages: Seq<PackageInfoView>, out_dir: Seq<char>, upto: int) -> Seq<
    char,
>
    decreases upto,
{
    if upto <= 0 {
        Seq::empty()
    } else {
        init_lines(packages, out_dir, upto - 1) + init_line(
            packages[upto - 1].module_name(),
            out_dir,
        )
    }
}

/// The bootstrap script: an import line for each package, then a line that
/// starts each package.
pub open spec fn bootstrap_text(packages: Seq<PackageInfoView>, out_dir: Seq<char>) -> Seq<char> {
    import_lines(packages, packages.len() as int) + init_lines(
        packages,
        out_dir,
        packages.len() as int,
    )
}

/// Writes the bootstrap script of a rollup build for the packages `names`,
/// whose glue code lies in `out_dir`.
pub fn rollup_bootstrap_js(names: &Vec<PackageInfo>, out_dir: &str) -> (output: String)
    ensures
        output@ == bootstrap_text(Seq::new(names@.len(), |i: int| names@[i]@), out_dir@),
{
    let ghost packages = Seq::new(names@.len(), |i: int| names@[i]@);
    let n = names.len();
    let mut output = String::new();
    let mut i: usize = 0;
    while i < n
        invariant
            n == names@.len(),
            i <= n,
            packages == Seq::new(names@.len(), |k: int| names@[k]@),
            output@ == import_lines(packages, i as int),
        decreases n - i,
    {
        let ghost before = output@;
        let name = names[i].get_package_name();
        output.append("import * as ");
        output.append(name.as_str());
        output.append(" from \"./");
        output.append(name.as_str());
        output.append(".js\"\n");
        assert(output@ =~= before + import_line(packages[i as int].module_name()));
        i = i + 1;
    }
    let ghost imports = output@;
    let mut j: usize = 0;
    while j < n
        invariant
            n == names@.len(),
            j <= n,
            packages == Seq::new(names@.len(), |k: int| names@[k]@),
            output@ == imports + init_lines(packages, out_dir@, j as int),
        decreases n - j,
    {
        let ghost before = output@;
        let name = names[j].get_package_name();
        let mut path = name.clone();
        path.append("_bg.wasm");
        output.append(name.as_str());
        output.append(".default(\"");
        output.append(path.as_str());
        output.append("\").catch((e) => { console.log(\"Failed to load wasm file: ");
        output.append(path.as_str());
        output.append("\") })\n");
        assert(output@ =~= before + init_line(packages[j as int].module_name(), out_dir@));
        assert(output@ =~= imports + init_lines(packages, out_dir@, j + 1));
        j = j + 1;
    }
    output
}

} // verus!
