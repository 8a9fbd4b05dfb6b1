//! The synthetic host environment injected into a fresh execution context
//! before any application code runs: global-object aliases, a no-op console,
//! a minimal process object, immediate-execution timers, a synchronous
//! message channel, single-byte text encoding, a bare URL stand-in and a
//! fixed location describing the server's own origin. Everything here runs
//! synchronously to completion — "deferred" callbacks execute immediately,
//! in call order, a documented divergence from real browser timing. The
//! text-encoding routines use one byte per character and are not
//! Unicode-correct, a documented limitation.

use vstd::prelude::*;

verus! {

/// The fixed polyfill source, shared read-only by every render; it is never
/// mutated, so every execution context starts from the same host surface.
pub const POLYFILLS: &'static str = r#"
var globalThis = this;
var global = this;
var self = this;
var window = this;

// Console polyfill
var console = {
    log: function() {},
    warn: function() {},
    error: function() {},
    info: function() {},
    debug: function() {}
};

// Minimal process polyfill
var process = {
    env: { NODE_ENV: 'production' },
    version: 'v18.0.0',
    nextTick: function(fn) { fn(); }
};

// Minimal setTimeout/clearTimeout
var setTimeout = function(fn, ms) { fn(); return 0; };
var clearTimeout = function(id) {};
var setInterval = function(fn, ms) { return 0; };
var clearInterval = function(id) {};

// MessageChannel polyfill (React scheduler needs this)
var MessageChannel = function() {
    var self = this;
    this.port1 = {
        onmessage: null,
        postMessage: function(msg) {
            if (self.port2.onmessage) {
                self.port2.onmessage({ data: msg });
            }
        }
    };
    this.port2 = {
        onmessage: null,
        postMessage: function(msg) {
            if (self.port1.onmessage) {
                self.port1.onmessage({ data: msg });
            }
        }
    };
};

// TextEncoder/TextDecoder polyfills (minimal)
var TextEncoder = function() {};
TextEncoder.prototype.encode = function(str) {
    var arr = [];
    for (var i = 0; i < str.length; i++) {
        arr.push(str.charCodeAt(i));
    }
    return new Uint8Array(arr);
};

var TextDecoder = function() {};
TextDecoder.prototype.decode = function(arr) {
    return String.fromCharCode.apply(null, arr);
};

// URL polyfill (minimal)
if (typeof URL === 'undefined') {
    var URL = function(url, base) {
        this.href = url;
        this.pathname = url;
        this.origin = '';
    };
}

// location polyfill
var location = {
    href: 'http://localhost:8080/',
    origin: 'http://localhost:8080',
    protocol: 'http:',
    host: 'localhost:8080',
    hostname: 'localhost',
    port: '8080',
    pathname: '/',
    search: '',
    hash: ''
};
"#;

/// Hands out the fixed polyfill source text.
pub fn polyfill_source() -> (r: &'static str)
    ensures
        r@ == POLYFILLS@,
{
    POLYFILLS
}

} // verus!
