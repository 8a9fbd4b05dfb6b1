use ssr_core::errors::{EngineError, Stage};

fn text_of(stage: Stage, detail: Option<&str>) -> String {
    EngineError { stage, detail: detail.map(String::from) }.text()
}

#[test]
fn fixed_messages_for_source_and_conversion_failures() {
    assert_eq!(text_of(Stage::PolyfillSource, None), "Failed to create polyfill code");
    assert_eq!(text_of(Stage::BundleSource, None), "Failed to create JS code string");
    assert_eq!(text_of(Stage::EntryPointSource, None), "Failed to create render call");
    assert_eq!(
        text_of(Stage::ResultConversion, None),
        "Failed to convert result to string"
    );
}

#[test]
fn polyfill_messages() {
    assert_eq!(text_of(Stage::PolyfillCompile, None), "Failed to compile polyfills");
    assert_eq!(
        text_of(Stage::PolyfillCompile, Some("ignored")),
        "Failed to compile polyfills"
    );
    assert_eq!(text_of(Stage::PolyfillRuntime, Some("oops")), "Polyfill error: oops");
    assert_eq!(text_of(Stage::PolyfillRuntime, None), "Failed to run polyfills");
}

#[test]
fn bundle_messages() {
    assert_eq!(
        text_of(Stage::BundleCompile, Some("SyntaxError")),
        "Compile error: SyntaxError"
    );
    assert_eq!(text_of(Stage::BundleCompile, None), "Failed to compile script");
    assert_eq!(text_of(Stage::BundleRuntime, Some("boom")), "Runtime error: boom");
    assert_eq!(text_of(Stage::BundleRuntime, None), "Failed to run script");
}

#[test]
fn entry_point_messages() {
    assert_eq!(
        text_of(Stage::EntryPointCompile, Some("bad call")),
        "Render compile error: bad call"
    );
    assert_eq!(
        text_of(Stage::EntryPointCompile, None),
        "Failed to compile render call"
    );
    assert_eq!(text_of(Stage::EntryPointRuntime, Some("boom")), "Render error: boom");
    assert_eq!(text_of(Stage::EntryPointRuntime, None), "Failed to execute render()");
}
