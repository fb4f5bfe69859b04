use cargo_wasm::templates::{
    DEPENDENCIES, GITIGNORE, LIB_RS, NODE_GITIGNORE, ROLLUP_PACKAGE_JSON, ROLLUP_TEMPLATE,
};
use cargo_wasm::{
    make_html, BuildError, Cargo, CargoWasm, Job, Scaffold, TemplateFile, WasmTarget,
};

fn file(path: &str, text: &str) -> TemplateFile {
    TemplateFile { path: path.to_string(), text: text.to_string() }
}

#[test]
fn page_for_the_web_imports_the_glue() {
    assert_eq!(
        make_html("hello", &WasmTarget::Web),
        "<!DOCTYPE html>\n<html>\n\n<head>\n    <meta charset=\"utf-8\">\n</head>\n\n<body>\n<div>Hello from rust + wasm. Check the browser console.</div>\n</body>\n<script type=\"module\">\n        import init from './js/hello.js';\n        init();\n    </script>\n</html>"
    );
}

#[test]
fn page_under_a_bundler_loads_the_bundle() {
    let expected = "<!DOCTYPE html>\n<html>\n\n<head>\n    <meta charset=\"utf-8\">\n</head>\n\n<body>\n<div>Hello from rust + wasm. Check the browser console.</div>\n</body>\n<script src=\"js/index.js\"></script>\n</html>";
    assert_eq!(make_html("hello", &WasmTarget::Rollup), expected);
    assert_eq!(make_html("hello", &WasmTarget::Webpack), expected);
}

#[test]
fn new_project_for_the_web() {
    let cargo = Cargo(String::from("cargo"));
    let scaffold = cargo.new_template_project("hello", &WasmTarget::Web, true, false).unwrap();
    assert_eq!(scaffold.manifest, "hello/Cargo.toml");
    assert_eq!(scaffold.command.program, "cargo");
    assert_eq!(scaffold.command.args, vec!["new", "--lib", "hello"]);
    assert!(scaffold.command.quiet);
    assert_eq!(
        scaffold.files,
        vec![file("hello/src/lib.rs", LIB_RS), file("hello/.gitignore", GITIGNORE)]
    );
    assert_eq!(scaffold.dist, "hello/dist");
    assert_eq!(
        scaffold.page,
        file("hello/dist/index.html", &make_html("hello", &WasmTarget::Web))
    );
}

#[test]
fn new_project_for_rollup_gets_its_configuration() {
    let cargo = Cargo(String::from("cargo"));
    let scaffold = cargo.new_template_project("hello", &WasmTarget::Rollup, false, false).unwrap();
    assert_eq!(
        scaffold.files,
        vec![
            file("hello/src/lib.rs", LIB_RS),
            file("hello/.gitignore", NODE_GITIGNORE),
            file("hello/rollup.config.js", ROLLUP_TEMPLATE),
            file("hello/package.json", ROLLUP_PACKAGE_JSON),
        ]
    );
    assert_eq!(scaffold.page.text, make_html("hello", &WasmTarget::Rollup));
    let webpack = cargo.new_template_project("hello", &WasmTarget::Webpack, false, false).unwrap();
    assert_eq!(
        webpack.files,
        vec![file("hello/src/lib.rs", LIB_RS), file("hello/.gitignore", NODE_GITIGNORE)]
    );
}

#[test]
fn new_begins_with_a_look_for_the_manifest() {
    let cargo = Cargo(String::from("cargo"));
    let new = CargoWasm::New { name: String::from("hello"), target: None, quiet: false };
    assert_eq!(
        new.run(cargo.clone()),
        Job::Probe { cargo: cargo.clone(), manifest: String::from("hello/Cargo.toml") }
    );
}

#[test]
fn existing_project_is_left_as_it_is() {
    let cargo = Cargo(String::from("cargo"));
    for target in [WasmTarget::Web, WasmTarget::Rollup, WasmTarget::Webpack].iter() {
        assert_eq!(
            cargo.new_template_project("hello", target, false, true),
            Err(BuildError::DestinationExists { destination: String::from("hello") })
        );
        assert!(cargo.new_template_project("hello", target, false, false).is_ok());
    }
}

#[test]
fn manifest_gets_the_dependencies_of_a_module() {
    let written = "[package]\nname = \"hello\"\nversion = \"0.1.0\"\n\n[dependencies]\n";
    assert_eq!(
        Scaffold::patch_manifest(written),
        "[package]\nname = \"hello\"\nversion = \"0.1.0\"\n\n[lib]\ncrate-type = [\"cdylib\", \"rlib\"]\n\n[dependencies]\nwasm-bindgen = \"0.2\"\nweb-sys = { version = \"0.3\", features = [\"console\"] }\n"
    );
    assert_eq!(Scaffold::patch_manifest(written), written.replace("[dependencies]", DEPENDENCIES));
    assert_eq!(Scaffold::patch_manifest("[package]\n"), "[package]\n");
}
