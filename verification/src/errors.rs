//! Error translation: every failure point of the script engine's render
//! pipeline is mapped to a tagged error carrying the engine's own exception
//! text when one was available, else a fixed fallback message for that stage.

use vstd::prelude::*;
use vstd::string::*;

verus! {

/// The failure points of one render, in pipeline order. Each of the three
/// scripts the engine executes (host polyfills, application bundle, entry
/// point call) can fail while its source text is created inside the engine,
/// while it is compiled, or while it runs; converting the entry point's
/// return value to text is the last point that can fail.
#[derive(Clone, Copy, Debug, PartialEq, Eq, Structural)]
pub enum Stage {
    PolyfillSource,
    PolyfillCompile,
    PolyfillRuntime,
    BundleSource,
    BundleCompile,
    BundleRuntime,
    EntryPointSource,
    EntryPointCompile,
    EntryPointRuntime,
    ResultConversion,
}

/// A translated engine failure: the stage it struck and, where the engine
/// exposed an exception object, that exception's message text.
pub struct EngineError {
    pub stage: Stage,
    pub detail: Option<String>,
}

/// The human-readable message reported for a failure: the engine's exception
/// text behind a stage prefix where the stage extracts one and it was
/// present, else that stage's fixed fallback line. Source-creation and
/// conversion failures, and a polyfill compile failure, never carry
/// exception text.
pub open spec fn stage_message(stage: Stage, detail: Option<String>) -> Seq<char> {
    match stage {
        Stage::PolyfillSource => "Failed to create polyfill code"@,
        Stage::PolyfillCompile => "Failed to compile polyfills"@,
        Stage::PolyfillRuntime => match detail {
            Some(m) => "Polyfill error: "@ + m@,
            None => "Failed to run polyfills"@,
        },
        Stage::BundleSource => "Failed to create JS code string"@,
        Stage::BundleCompile => match detail {
            Some(m) => "Compile error: "@ + m@,
            None => "Failed to compile script"@,
        },
        Stage::BundleRuntime => match detail {
            Some(m) => "Runtime error: "@ + m@,
            None => "Failed to run script"@,
        },
        Stage::EntryPointSource => "Failed to create render call"@,
        Stage::EntryPointCompile => match detail {
            Some(m) => "Render compile error: "@ + m@,
            None => "Failed to compile render call"@,
        },
        Stage::EntryPointRuntime => match detail {
            Some(m) => "Render error: "@ + m@,
            None => "Failed to execute render()"@,
        },
        Stage::ResultConversion => "Failed to convert result to string"@,
    }
}

impl EngineError {
    /// The message text of this failure.
    pub open spec fn spec_text(self) -> Seq<char> {
        stage_message(self.stage, self.detail)
    }

    /// Renders the failure as its human-readable message line.
    pub fn text(&self) -> (r: String)
        ensures
            r@ == self.spec_text(),
    {
        match self.stage {
            Stage::PolyfillSource => String::from_str("Failed to create polyfill code"),
            Stage::PolyfillCompile => String::from_str("Failed to compile polyfills"),
            Stage::PolyfillRuntime => match &self.detail {
                Some(m) => String::from_str("Polyfill error: ").concat(m.as_str()),
                None => String::from_str("Failed to run polyfills"),
            },
            Stage::BundleSource => String::from_str("Failed to create JS code string"),
            Stage::BundleCompile => match &self.detail {
                Some(m) => String::from_str("Compile error: ").concat(m.as_str()),
                None => String::from_str("Failed to compile script"),
            },
            Stage::BundleRuntime => match &self.detail {
                Some(m) => String::from_str("Runtime error: ").concat(m.as_str()),
                None => String::from_str("Failed to run script"),
            },
            Stage::EntryPointSource => String::from_str("Failed to create render call"),
            Stage::EntryPointCompile => match &self.detail {
                Some(m) => String::from_str("Render compile error: ").concat(m.as_str()),
                None => String::from_str("Failed to compile render call"),
            },
            Stage::EntryPointRuntime => match &self.detail {
                Some(m) => String::from_str("Render error: ").concat(m.as_str()),
                None => String::from_str("Failed to execute render()"),
            },
            Stage::ResultConversion => String::from_str("Failed to convert result to string"),
        }
    }
}

} // verus!
