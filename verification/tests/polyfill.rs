use ssr_core::polyfill::{polyfill_source, POLYFILLS};

#[test]
fn polyfills_alias_the_global_object() {
    let src = polyfill_source();
    assert!(src.contains("var globalThis = this;"));
    assert!(src.contains("var global = this;"));
    assert!(src.contains("var self = this;"));
    assert!(src.contains("var window = this;"));
}

#[test]
fn polyfills_cover_the_expected_host_surface() {
    let src = polyfill_source();
    assert!(src.contains("var console = {"));
    assert!(src.contains("NODE_ENV: 'production'"));
    assert!(src.contains("nextTick: function(fn) { fn(); }"));
    assert!(src.contains("var setTimeout = function(fn, ms) { fn(); return 0; };"));
    assert!(src.contains("var MessageChannel = function() {"));
    assert!(src.contains("var TextEncoder = function() {};"));
    assert!(src.contains("var TextDecoder = function() {};"));
    assert!(src.contains("var location = {"));
    assert!(src.contains("origin: 'http://localhost:8080'"));
}

#[test]
fn polyfill_source_is_the_shared_constant() {
    assert_eq!(polyfill_source(), POLYFILLS);
}
