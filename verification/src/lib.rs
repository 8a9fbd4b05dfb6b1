//! Core of a server-side rendering service: it builds the synthetic host
//! environment injected into an embedded script engine, drives one render
//! request through the engine's compile/run/convert stages, translates every
//! engine-level failure into a typed error, and assembles the final HTML
//! document around the rendered markup and a discovered stylesheet.

pub mod assemble;
pub mod engine;
pub mod errors;
pub mod page;
pub mod polyfill;
pub mod stylesheet;
