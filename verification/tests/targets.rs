use cargo_wasm::WasmTarget;

#[test]
fn targets_are_read_in_any_case() {
    assert_eq!(WasmTarget::from_str("web"), Ok(WasmTarget::Web));
    assert_eq!(WasmTarget::from_str("WEB"), Ok(WasmTarget::Web));
    assert_eq!(WasmTarget::from_str("webpack"), Ok(WasmTarget::Webpack));
    assert_eq!(WasmTarget::from_str("WebPack"), Ok(WasmTarget::Webpack));
    assert_eq!(WasmTarget::from_str("rollup"), Ok(WasmTarget::Rollup));
    assert_eq!(WasmTarget::from_str("Rollup"), Ok(WasmTarget::Rollup));
}

#[test]
fn unknown_targets_are_refused_with_their_name() {
    assert_eq!(
        WasmTarget::from_str("nodejs"),
        Err(String::from(
            "'nodejs' is not an allowed target. Supported options are: web (default), webpack"
        ))
    );
    assert_eq!(
        WasmTarget::from_str(""),
        Err(String::from(
            "'' is not an allowed target. Supported options are: web (default), webpack"
        ))
    );
    assert!(WasmTarget::from_str("web ").is_err());
}

#[test]
fn targets_name_the_glue_they_take() {
    assert_eq!(WasmTarget::Web.as_ref(), "web");
    assert_eq!(WasmTarget::Rollup.as_ref(), "web");
    assert_eq!(WasmTarget::Webpack.as_ref(), "bundler");
    assert_eq!(WasmTarget::default(), WasmTarget::Web);
}
