use cargo_wasm::{
    rollup_bootstrap_js, BindgenPackages, Bootstrap, BuildError, BuildPlan, Cargo, CargoWasm,
    CommandLine, Finish, Job, Opt, Optimization, PackageInfo, RunResult, SubCmds, WasmOpt,
    WasmTarget,
};

fn strings(items: &[&str]) -> Vec<String> {
    items.iter().map(|item| item.to_string()).collect()
}

fn ok() -> RunResult {
    RunResult::Exited { code: Some(0), status: String::from("exit status: 0") }
}

fn failed() -> RunResult {
    RunResult::Exited { code: Some(1), status: String::from("exit status: 1") }
}

fn package(name: &str, version: &str) -> PackageInfo {
    PackageInfo {
        name: name.to_string(),
        manifest_path: format!("/work/{}/Cargo.toml", name),
        wasm_bindgen_version: version.to_string(),
    }
}

fn packages(list: &[(&str, &str)]) -> BindgenPackages {
    BindgenPackages {
        packages: list.iter().map(|(name, version)| package(name, version)).collect(),
        cargo: Cargo(String::from("cargo")),
    }
}

fn build(opt: Opt) -> CargoWasm {
    CargoWasm::Build(opt)
}

#[test]
fn quiet_is_read_from_either_command() {
    let mut opt = Opt::default();
    assert!(!build(Opt::default()).quiet());
    opt.quiet = true;
    assert!(build(opt).quiet());
    assert!(CargoWasm::New { name: String::from("x"), target: None, quiet: true }.quiet());
    assert!(!CargoWasm::New { name: String::from("x"), target: None, quiet: false }.quiet());
}

#[test]
fn a_build_begins_with_the_metadata() {
    let cargo = Cargo(String::from("/usr/bin/cargo"));
    assert_eq!(build(Opt::default()).run(cargo.clone()), Job::Discover { cargo });
}

#[test]
fn each_version_is_installed_once() {
    let found = packages(&[
        ("a", "0.2.68"),
        ("b", "0.2.67"),
        ("c", "0.2.68"),
        ("d", "0.2.67"),
        ("e", "0.2.68"),
    ]);
    assert_eq!(found.install_wasm_bindgen_cli(), strings(&["0.2.67", "0.2.68"]));
    let more = packages(&[("a", "0.2.7"), ("b", "0.10.0"), ("c", "0.2.68"), ("d", "0.2.7")]);
    assert_eq!(more.install_wasm_bindgen_cli(), strings(&["0.10.0", "0.2.68", "0.2.7"]));
    let plan = build(Opt::default()).build(&found, &Opt::default());
    assert_eq!(plan.installs, strings(&["0.2.67", "0.2.68"]));
    assert_eq!(plan.compiles.len(), 5);
}

#[test]
fn two_packages_with_two_versions_get_two_installations() {
    let found = packages(&[("a", "0.2.67"), ("b", "0.2.68")]);
    let opt = Opt::default();
    let plan = build(Opt::default()).build(&found, &opt);
    assert_eq!(plan.installs, strings(&["0.2.67", "0.2.68"]));
    let roots: Vec<String> = plan
        .installs
        .iter()
        .map(|version| found.cargo.install_wasm_bindgen_cli(version, false, false).unwrap().args[2].clone())
        .collect();
    assert_eq!(roots, strings(&["target/wasm-bindgen-cli/0.2.67", "target/wasm-bindgen-cli/0.2.68"]));
    let installed: Vec<String> = plan
        .installs
        .iter()
        .map(|version| Cargo::after_install(version, &ok()).unwrap())
        .collect();
    // the glue stage comes after the installations, and runs what they installed
    let glue = found.build_wasm_js(&opt);
    assert_eq!(glue.commands.len(), 2);
    assert_eq!(glue.commands[0].program, "target/wasm-bindgen-cli/0.2.67/bin/wasm-bindgen");
    assert_eq!(glue.commands[1].program, "target/wasm-bindgen-cli/0.2.68/bin/wasm-bindgen");
    assert_eq!(glue.commands[0].program, installed[0]);
    assert_eq!(glue.commands[1].program, installed[1]);
}

#[test]
fn each_package_is_compiled_on_its_own() {
    let found = packages(&[("my-app", "0.2.68"), ("b", "0.2.68")]);
    let mut opt = Opt::default();
    opt.release = true;
    let commands = found.build_wasm32_unknown_unknown(&opt);
    assert_eq!(
        commands,
        vec![
            CommandLine {
                program: String::from("cargo"),
                args: strings(&[
                    "build",
                    "--package",
                    "my-app",
                    "--target",
                    "wasm32-unknown-unknown",
                    "--release",
                ]),
                quiet: false,
            },
            CommandLine {
                program: String::from("cargo"),
                args: strings(&[
                    "build",
                    "--package",
                    "b",
                    "--target",
                    "wasm32-unknown-unknown",
                    "--release",
                ]),
                quiet: false,
            },
        ]
    );
}

#[test]
fn nothing_runs_without_packages() {
    let none = packages(&[]);
    let opt = Opt {
        clean: true,
        target: Some(WasmTarget::Rollup),
        subs: Some(SubCmds::default()),
        ..Opt::default()
    };
    assert_eq!(
        build(Opt::default()).build(&none, &opt),
        BuildPlan { installs: vec![], compiles: vec![] }
    );
    let glue = none.build_wasm_js(&opt);
    assert_eq!(glue.clean, None);
    assert_eq!(glue.commands, vec![]);
    assert_eq!(
        none.finish(&opt, &vec![]),
        Finish { failures: vec![], optimization: None, bootstrap: None }
    );
}

#[test]
fn output_directory_is_cleaned_once_before_the_glue() {
    let found = packages(&[("a", "0.2.68"), ("b", "0.2.68")]);
    let mut opt = Opt::default();
    opt.clean = true;
    let plan = found.build_wasm_js(&opt);
    assert_eq!(plan.clean, Some(String::from("dist/js")));
    assert_eq!(plan.commands.len(), 2);
    for command in plan.commands.iter() {
        assert_eq!(command.args[command.args.len() - 2], "--out-dir");
        assert_eq!(command.args[command.args.len() - 1], "dist/js");
    }
    // only the packages of this build write into the directory
    assert_eq!(plan.commands[0].args[0], "./target/wasm32-unknown-unknown/debug/a.wasm");
    assert_eq!(plan.commands[1].args[0], "./target/wasm32-unknown-unknown/debug/b.wasm");
    opt.clean = false;
    assert_eq!(found.build_wasm_js(&opt).clean, None);
    opt.clean = true;
    opt.out_dir = Some(String::from("www"));
    assert_eq!(found.build_wasm_js(&opt).clean, Some(String::from("www")));
}

#[test]
fn a_plain_build_ends_with_the_glue() {
    let found = packages(&[("a", "0.2.68"), ("b", "0.2.68")]);
    assert_eq!(
        found.finish(&Opt::default(), &vec![ok(), ok()]),
        Finish { failures: vec![], optimization: None, bootstrap: None }
    );
}

#[test]
fn optimizer_and_bootstrap_follow_complete_glue() {
    let found = packages(&[("my-app", "0.2.68"), ("b", "0.2.67")]);
    let flags = WasmOpt { Oz: true, ..WasmOpt::default() };
    let opt = Opt {
        target: Some(WasmTarget::Rollup),
        subs: Some(SubCmds::WasmOpt(flags)),
        ..Opt::default()
    };
    let finish = found.finish(&opt, &vec![ok(), ok()]);
    assert_eq!(finish.failures, vec![]);
    assert_eq!(
        finish.optimization,
        Some(Optimization {
            levels: flags,
            artifacts: strings(&["dist/js/my_app_bg.wasm", "dist/js/b_bg.wasm"]),
        })
    );
    assert_eq!(
        finish.bootstrap,
        Some(Bootstrap {
            path: String::from("dist/js/bootstrap.js"),
            text: rollup_bootstrap_js(&found.packages, "dist/js"),
        })
    );
}

#[test]
fn one_failed_package_stops_what_follows_for_all() {
    let found = packages(&[("a", "0.2.68"), ("b", "0.2.68"), ("c", "0.2.68")]);
    let opt = Opt {
        target: Some(WasmTarget::Rollup),
        subs: Some(SubCmds::default()),
        ..Opt::default()
    };
    assert_eq!(
        found.finish(&opt, &vec![ok(), failed(), ok()]),
        Finish {
            failures: vec![BuildError::GlueGenerationFailed { package: String::from("b") }],
            optimization: None,
            bootstrap: None,
        }
    );
    // a package that nothing is known of counts as failed
    assert_eq!(
        found.finish(&opt, &vec![failed(), ok()]).failures,
        vec![
            BuildError::GlueGenerationFailed { package: String::from("a") },
            BuildError::GlueGenerationFailed { package: String::from("c") },
        ]
    );
}

#[test]
fn bootstrap_is_for_rollup_only() {
    let found = packages(&[("a", "0.2.68")]);
    for target in [None, Some(WasmTarget::Web), Some(WasmTarget::Webpack)].iter() {
        let opt = Opt { target: *target, ..Opt::default() };
        assert_eq!(found.finish(&opt, &vec![ok()]).bootstrap, None);
    }
    let opt = Opt {
        target: Some(WasmTarget::Rollup),
        out_dir: Some(String::from("www/pkg/")),
        ..Opt::default()
    };
    let bootstrap = found.finish(&opt, &vec![ok()]).bootstrap.unwrap();
    assert_eq!(bootstrap.path, "www/pkg/bootstrap.js");
}

#[test]
fn bootstrap_imports_then_starts_each_package() {
    let names = vec![package("a", "0.2.67"), package("b", "0.2.68")];
    let text = rollup_bootstrap_js(&names, "dist/js");
    assert_eq!(
        text,
        "import * as a from \"./a.js\"\n\
         import * as b from \"./b.js\"\n\
         a.default(\"a_bg.wasm\").catch((e) => { console.log(\"Failed to load wasm file: a_bg.wasm\") })\n\
         b.default(\"b_bg.wasm\").catch((e) => { console.log(\"Failed to load wasm file: b_bg.wasm\") })\n"
    );
    let import_a = text.find("import * as a from \"./a.js\"").unwrap();
    let import_b = text.find("import * as b from \"./b.js\"").unwrap();
    let init_a = text.find("a.default(").unwrap();
    let init_b = text.find("b.default(").unwrap();
    assert!(import_a < import_b && import_b < init_a && init_a < init_b);
    assert!(text[init_a..init_b].contains("a_bg.wasm"));
    assert!(text[init_b..].contains("b_bg.wasm"));
    // the path is the name of the file alone, whatever the output directory
    assert!(!text.contains("js/") && !text.contains("dist"));
    assert_eq!(rollup_bootstrap_js(&names, "www/pkg/"), text);
    assert_eq!(rollup_bootstrap_js(&names, ""), text);
}

#[test]
fn bootstrap_names_modules_with_underscores() {
    let names = vec![package("my-app", "0.2.68")];
    assert_eq!(
        rollup_bootstrap_js(&names, "/"),
        "import * as my_app from \"./my_app.js\"\n\
         my_app.default(\"my_app_bg.wasm\").catch((e) => { console.log(\"Failed to load wasm file: my_app_bg.wasm\") })\n"
    );
    assert_eq!(rollup_bootstrap_js(&vec![], "dist/js"), "");
}
