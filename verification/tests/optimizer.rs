use cargo_wasm::{
    BuildError, CommandLine, Fetch, Opt, OptimizationLevel, Platform, RunResult, SizeReport, WasmOpt,
};
use std::io::Write;

fn strings(items: &[&str]) -> Vec<String> {
    items.iter().map(|item| item.to_string()).collect()
}

fn ok() -> RunResult {
    RunResult::Exited { code: Some(0), status: String::from("exit status: 0") }
}

const URL_LINUX: &str =
    "http://github.com/WebAssembly/binaryen/releases/download/version_97/binaryen-version_97-x86_64-linux.tar.gz";

#[test]
fn platforms_are_three_systems_on_one_architecture() {
    assert_eq!(Platform::try_new("linux", "x86_64"), Ok(Platform::Linux));
    assert_eq!(Platform::try_new("macos", "x86_64"), Ok(Platform::MacOS));
    assert_eq!(Platform::try_new("windows", "x86_64"), Ok(Platform::Windows));
    assert_eq!(
        Platform::try_new("freebsd", "x86_64"),
        Err(BuildError::UnsupportedPlatform {
            os: String::from("freebsd"),
            arch: String::from("x86_64"),
        })
    );
    assert_eq!(
        Platform::try_new("linux", "x86"),
        Err(BuildError::UnsupportedPlatform { os: String::from("linux"), arch: String::from("x86") })
    );
    assert_eq!(
        Platform::try_new("linux", "aarch64"),
        Err(BuildError::UnsupportedPlatform {
            os: String::from("linux"),
            arch: String::from("aarch64"),
        })
    );
}

#[test]
fn archive_address_names_version_architecture_and_platform() {
    assert_eq!(Platform::Linux.name(), "linux");
    assert_eq!(Platform::MacOS.name(), "macos");
    assert_eq!(Platform::Windows.name(), "windows");
    assert_eq!(Platform::Linux.url(), URL_LINUX);
    assert_eq!(
        Platform::Windows.url(),
        "http://github.com/WebAssembly/binaryen/releases/download/version_97/binaryen-version_97-x86_64-windows.tar.gz"
    );
}

#[test]
fn present_optimizer_is_not_fetched() {
    assert_eq!(WasmOpt::default().try_install(true, "linux", "x86_64"), Fetch::Installed);
    assert_eq!(WasmOpt::default().try_install(true, "plan9", "mips"), Fetch::Installed);
}

fn gzip(data: &[u8]) -> Vec<u8> {
    let mut encoder = flate2::write::GzEncoder::new(Vec::new(), flate2::Compression::default());
    encoder.write_all(data).unwrap();
    encoder.finish().unwrap()
}

fn download() -> Fetch {
    Fetch::Download { url: String::from(URL_LINUX), retry: true }
}

fn unpack(tar: &[u8]) -> Fetch {
    Fetch::Unpack { dir: String::from("target/binaryen"), tar: tar.to_vec() }
}

#[test]
fn unsupported_platform_fails_before_any_request() {
    let state = WasmOpt::default().try_install(false, "linux", "x86");
    let failed = Fetch::Failed(BuildError::UnsupportedPlatform {
        os: String::from("linux"),
        arch: String::from("x86"),
    });
    assert_eq!(state, failed);
    // whatever is reported to it, it asks for nothing
    assert_eq!(state.clone().downloaded(Ok(gzip(b"tar"))), failed);
    assert_eq!(state.clone().downloaded(Err(String::from("timeout"))), failed);
    assert_eq!(state.clone().arrived(Ok(b"tar".to_vec())), failed);
    assert_eq!(state.clone().request_failed(String::from("timeout")), failed);
    assert_eq!(state.unpacked(Ok(())), failed);
}

#[test]
fn absent_optimizer_is_downloaded_and_unpacked() {
    let state = WasmOpt::default().try_install(false, "linux", "x86_64");
    assert_eq!(state, download());
    let state = state.downloaded(Ok(gzip(b"what the archive holds")));
    assert_eq!(state, unpack(b"what the archive holds"));
    assert_eq!(state.unpacked(Ok(())), Fetch::Installed);
}

#[test]
fn archive_is_decompressed_as_it_arrives() {
    let mut long = Vec::new();
    for i in 0..100_000u32 {
        long.push((i % 251) as u8);
    }
    assert_eq!(download().downloaded(Ok(gzip(&long))), unpack(&long));
    assert_eq!(download().downloaded(Ok(gzip(b""))), unpack(b""));
}

#[test]
fn archive_that_is_no_gzip_fails_the_installation() {
    let next = download().downloaded(Ok(b"<html>Not Found</html>".to_vec()));
    assert!(matches!(next, Fetch::Failed(BuildError::ExtractFailed { .. })));
    let mut cut = gzip(b"what the archive holds, at some length, so that it can be cut short");
    cut.truncate(cut.len() / 2);
    let next = download().downloaded(Ok(cut));
    assert!(matches!(next, Fetch::Failed(BuildError::ExtractFailed { .. })));
}

#[test]
fn decompressed_archive_is_unpacked_next() {
    assert_eq!(download().arrived(Ok(vec![1, 2, 3])), unpack(&[1, 2, 3]));
    assert_eq!(
        download().arrived(Err(String::from("invalid gzip header"))),
        Fetch::Failed(BuildError::ExtractFailed { cause: String::from("invalid gzip header") })
    );
    let second = Fetch::Download { url: String::from(URL_LINUX), retry: false };
    assert_eq!(second.arrived(Ok(vec![1, 2, 3])), unpack(&[1, 2, 3]));
}

#[test]
fn failed_request_is_made_once_more() {
    let state = WasmOpt::default().try_install(false, "macos", "x86_64");
    let url = Platform::MacOS.url();
    let state = state.downloaded(Err(String::from("connection reset")));
    assert_eq!(state, Fetch::Download { url: url.clone(), retry: false });
    assert_eq!(state.clone().downloaded(Ok(gzip(b"tar"))), unpack(b"tar"));
    assert_eq!(
        state.clone().downloaded(Err(String::from("timeout"))),
        Fetch::Failed(BuildError::DownloadFailed { cause: String::from("timeout") })
    );
    assert_eq!(
        state.request_failed(String::from("refused")),
        Fetch::Failed(BuildError::DownloadFailed { cause: String::from("refused") })
    );
    assert_eq!(
        download().request_failed(String::from("refused")),
        Fetch::Download { url: String::from(URL_LINUX), retry: false }
    );
}

#[test]
fn broken_archive_fails_the_installation() {
    assert_eq!(
        unpack(b"tar").unpacked(Err(String::from("unexpected end of file"))),
        Fetch::Failed(BuildError::ExtractFailed { cause: String::from("unexpected end of file") })
    );
}

#[test]
fn reports_out_of_turn_change_nothing() {
    assert_eq!(Fetch::Installed.downloaded(Err(String::from("x"))), Fetch::Installed);
    assert_eq!(Fetch::Installed.downloaded(Ok(gzip(b"tar"))), Fetch::Installed);
    assert_eq!(Fetch::Installed.unpacked(Err(String::from("x"))), Fetch::Installed);
    assert_eq!(download().unpacked(Ok(())), download());
    assert_eq!(unpack(b"tar").downloaded(Ok(gzip(b"other"))), unpack(b"tar"));
    assert_eq!(unpack(b"tar").downloaded(Err(String::from("x"))), unpack(b"tar"));
}

#[test]
fn levels_follow_a_fixed_precedence() {
    let none = WasmOpt::default();
    assert_eq!(none.level(), OptimizationLevel::Default);
    assert_eq!(WasmOpt { O: true, ..none }.level(), OptimizationLevel::Default);
    assert_eq!(WasmOpt { O0: true, ..none }.level(), OptimizationLevel::O0);
    assert_eq!(WasmOpt { O1: true, ..none }.level(), OptimizationLevel::O1);
    assert_eq!(WasmOpt { O2: true, ..none }.level(), OptimizationLevel::O2);
    assert_eq!(WasmOpt { O3: true, ..none }.level(), OptimizationLevel::O3);
    assert_eq!(WasmOpt { O4: true, ..none }.level(), OptimizationLevel::O4);
    assert_eq!(WasmOpt { Os: true, ..none }.level(), OptimizationLevel::Size);
    assert_eq!(WasmOpt { Oz: true, ..none }.level(), OptimizationLevel::SizeAggressive);
    assert_eq!(WasmOpt { O: true, Oz: true, ..none }.level(), OptimizationLevel::SizeAggressive);
    assert_eq!(WasmOpt { O3: true, Os: true, ..none }.level(), OptimizationLevel::O3);
    assert_eq!(WasmOpt { O0: true, O4: true, Oz: true, ..none }.level(), OptimizationLevel::O0);
    let switches: Vec<&str> = [
        OptimizationLevel::O0,
        OptimizationLevel::O1,
        OptimizationLevel::O2,
        OptimizationLevel::O3,
        OptimizationLevel::O4,
        OptimizationLevel::Size,
        OptimizationLevel::SizeAggressive,
        OptimizationLevel::Default,
    ]
    .iter()
    .map(|level| level.switch())
    .collect();
    assert_eq!(switches, vec!["-O0", "-O1", "-O2", "-O3", "-O4", "-Os", "-Oz", "-O"]);
}

#[test]
fn optimizer_rewrites_the_artifact_in_place() {
    let cmd = WasmOpt::default().try_run("dist/js/a_bg.wasm", &Opt::default());
    assert_eq!(
        cmd,
        CommandLine {
            program: String::from("target/binaryen/binaryen-version_97/bin/wasm-opt"),
            args: strings(&["dist/js/a_bg.wasm", "--output", "dist/js/a_bg.wasm", "-O"]),
            quiet: false,
        }
    );
}

#[test]
fn optimizer_is_told_of_reference_types_and_gets_one_level() {
    let mut opt = Opt::default();
    opt.reference_types = true;
    opt.quiet = true;
    let flags = WasmOpt { O2: true, Os: true, ..WasmOpt::default() };
    let cmd = flags.try_run("a.wasm", &opt);
    assert_eq!(
        cmd.args,
        strings(&["a.wasm", "--output", "a.wasm", "--enable-reference-types", "-O2"])
    );
    assert!(cmd.quiet);
}

#[test]
fn optimizer_is_not_started_on_an_artifact_that_cannot_be_measured() {
    let flags = WasmOpt { O3: true, ..WasmOpt::default() };
    let opt = Opt::default();
    assert_eq!(flags.run_measured("a.wasm", &opt, &Ok(2048)), Ok(flags.try_run("a.wasm", &opt)));
    assert_eq!(flags.run_measured("a.wasm", &opt, &Ok(0)), Ok(flags.try_run("a.wasm", &opt)));
    assert_eq!(
        flags.run_measured("a.wasm", &opt, &Err(String::from("No such file or directory"))),
        Err(BuildError::OptimizeFailed {
            path: String::from("a.wasm"),
            cause: String::from("No such file or directory"),
        })
    );
}

#[test]
fn optimizer_run_reports_sizes_or_the_failure() {
    assert_eq!(
        WasmOpt::after_run("a.wasm", 2048, &ok(), 1024),
        Ok(SizeReport { original_size: 2048, final_size: 1024 })
    );
    // a larger artifact is reported as it is
    assert_eq!(
        WasmOpt::after_run("a.wasm", 1024, &ok(), 2048),
        Ok(SizeReport { original_size: 1024, final_size: 2048 })
    );
    assert_eq!(
        WasmOpt::after_run(
            "a.wasm",
            1024,
            &RunResult::Exited { code: Some(1), status: String::from("exit status: 1") },
            1024
        ),
        Err(BuildError::OptimizeFailed {
            path: String::from("a.wasm"),
            cause: String::from("exit status: 1"),
        })
    );
}

#[test]
fn reduction_is_exact_and_may_be_negative() {
    let shrunk = SizeReport { original_size: 2000, final_size: 1500 };
    assert_eq!(shrunk.saved_bytes(), 500);
    assert_eq!(shrunk.reduction(), Some((50_000, 2000)));
    assert_eq!(shrunk.reduction_percent(), "25.0");
    assert_eq!(shrunk.saved_size(), "500 bytes");

    let grown = SizeReport { original_size: 1000, final_size: 1250 };
    assert_eq!(grown.saved_bytes(), -250);
    assert_eq!(grown.reduction(), Some((-25_000, 1000)));
    assert_eq!(grown.reduction_percent(), "-25.0");
    assert_eq!(grown.saved_size(), "-250 bytes");

    let same = SizeReport { original_size: 1000, final_size: 1000 };
    assert_eq!(same.saved_bytes(), 0);
    assert_eq!(same.reduction(), Some((0, 1000)));
    assert_eq!(same.reduction_percent(), "0.0");

    let widest = SizeReport { original_size: 1, final_size: u64::MAX };
    assert_eq!(widest.saved_bytes(), 1 - (u64::MAX as i128));
    assert_eq!(widest.reduction(), Some((100 * (1 - (u64::MAX as i128)), 1)));
    assert_eq!(widest.reduction_percent(), "-1844674407370955161400.0");
}

#[test]
fn reduction_is_rounded_to_the_nearest_tenth() {
    // 1/3 = 33.33.. %, 2/3 = 66.66.. %
    assert_eq!(SizeReport { original_size: 3, final_size: 2 }.reduction_percent(), "33.3");
    assert_eq!(SizeReport { original_size: 3, final_size: 1 }.reduction_percent(), "66.7");
    // 1/2000 = 0.05 % and 3/2000 = 0.15 % lie halfway between two tenths
    assert_eq!(SizeReport { original_size: 2000, final_size: 1999 }.reduction_percent(), "0.0");
    assert_eq!(SizeReport { original_size: 2000, final_size: 1997 }.reduction_percent(), "0.2");
    assert_eq!(SizeReport { original_size: 2000, final_size: 2003 }.reduction_percent(), "-0.2");
    assert_eq!(SizeReport { original_size: 1000, final_size: 0 }.reduction_percent(), "100.0");
}

#[test]
fn reduction_of_an_empty_artifact() {
    assert_eq!(SizeReport { original_size: 0, final_size: 0 }.reduction(), None);
    assert_eq!(SizeReport { original_size: 0, final_size: 0 }.reduction_percent(), "NaN");
    assert_eq!(SizeReport { original_size: 0, final_size: 8 }.reduction_percent(), "-inf");
    assert_eq!(
        SizeReport { original_size: 0, final_size: 8 }.reduction_percent(),
        format!("{:.1}", (0.0f64 - 8.0f64) / 0.0f64 * 100.0f64)
    );
    assert_eq!(
        SizeReport { original_size: 0, final_size: 0 }.reduction_percent(),
        format!("{:.1}", 0.0f64 / 0.0f64 * 100.0f64)
    );
}

#[test]
fn summary_tells_of_the_run() {
    let report = SizeReport { original_size: 1_572_864, final_size: 1_048_576 };
    assert_eq!(
        report.summary("dist/js/a_bg.wasm"),
        "Ran wasm-opt for dist/js/a_bg.wasm\nOriginal size: 1.50 MB\n   Final size: 1.00 MB\n    Reduction: 33.3 % [512.00 KiB]"
    );
}
