//! Response assembly: one render outcome becomes one complete HTML document
//! with an HTTP status. A successful render is embedded verbatim in the
//! fixed document shell's mount element, with a discovered stylesheet's text
//! verbatim in the style block; every failure yields a small, well-formed
//! error document carrying the failure's message — never a blank or
//! malformed page.

use crate::engine::RenderState;
use crate::errors::EngineError;
use vstd::prelude::*;
use vstd::string::*;

verus! {

/// An HTTP response of the page pipeline: a status code and a complete
/// `text/html` body.
pub struct HtmlResponse {
    pub status: u16,
    pub body: String,
}

/// Opening of the document shell, up to the style block's content.
pub const DOC_HEAD: &'static str = "<!DOCTYPE html>\n<html lang=\"en\">\n  <head>\n    <meta charset=\"UTF-8\" />\n    <meta name=\"viewport\" content=\"width=device-width, initial-scale=1.0\" />\n    <link rel=\"icon\" type=\"image/svg+xml\" href=\"/logo.svg\" />\n    <style>";

/// Middle of the document shell, between the style block's content and the
/// mount element's content.
pub const DOC_MID: &'static str = "</style>\n    <title>Vite + React + Rust (SSR)</title>\n  </head>\n  <body>\n    <div id=\"root\">";

/// Close of the document shell, after the mount element's content; it
/// references the client bundle's script path.
pub const DOC_TAIL: &'static str = "</div>\n    <script type=\"module\" src=\"/assets/client.js\"></script>\n  </body>\n</html>";

/// Opening shared by the two error documents.
pub const ERROR_HEAD: &'static str = "<!DOCTYPE html>\n<html>\n<head><title>Error</title></head>\n<body><h1>SSR Error</h1><p>";

/// Line of the missing-bundle error document that precedes the read error's
/// own text.
pub const MISSING_BUNDLE_NOTE: &'static str = "Failed to load SSR bundle. Make sure to run: cd frontend && bun run build</p><p>";

/// Prefix of the render-failure error document's message line.
pub const RENDER_FAILURE_NOTE: &'static str = "Failed to render: ";

/// Close shared by the two error documents.
pub const ERROR_TAIL: &'static str = "</p></body>\n</html>";

/// The successful document: rendered markup inside the shell's mount
/// element, the stylesheet's text inside its style block.
pub open spec fn success_document(css: Seq<char>, markup: Seq<char>) -> Seq<char> {
    DOC_HEAD@ + css + DOC_MID@ + markup + DOC_TAIL@
}

/// The error document for a bundle that could not be read, carrying the
/// read failure's own text after a line naming the missing bundle.
pub open spec fn missing_bundle_document(detail: Seq<char>) -> Seq<char> {
    ERROR_HEAD@ + MISSING_BUNDLE_NOTE@ + detail + ERROR_TAIL@
}

/// The error document for a failed render, carrying the failure's message.
pub open spec fn render_failure_document(message: Seq<char>) -> Seq<char> {
    ERROR_HEAD@ + RENDER_FAILURE_NOTE@ + message + ERROR_TAIL@
}

/// Builds the successful document around the stylesheet text and the
/// rendered markup, both embedded verbatim.
pub fn assemble_success(css: &str, markup: &str) -> (r: String)
    ensures
        r@ == success_document(css@, markup@),
{
    let mut out = String::from_str(DOC_HEAD);
    out.append(css);
    out.append(DOC_MID);
    out.append(markup);
    out.append(DOC_TAIL);
    proof {
        assert(out@ =~= success_document(css@, markup@));
    }
    out
}

/// The response for a bundle that could not be read from its fixed path: a
/// server-error status and the missing-bundle document around the read
/// failure's text.
pub fn missing_bundle_response(detail: &str) -> (r: HtmlResponse)
    ensures
        r.status == 500,
        r.body@ == missing_bundle_document(detail@),
{
    let mut out = String::from_str(ERROR_HEAD);
    out.append(MISSING_BUNDLE_NOTE);
    out.append(detail);
    out.append(ERROR_TAIL);
    proof {
        assert(out@ =~= missing_bundle_document(detail@));
    }
    HtmlResponse { status: 500, body: out }
}

/// The response for a render that failed in the engine: a server-error
/// status and the failure document around the failure's message text.
pub fn render_failure_response(error: &EngineError) -> (r: HtmlResponse)
    ensures
        r.status == 500,
        r.body@ == render_failure_document(error.spec_text()),
{
    let message = error.text();
    let mut out = String::from_str(ERROR_HEAD);
    out.append(RENDER_FAILURE_NOTE);
    out.append(message.as_str());
    out.append(ERROR_TAIL);
    proof {
        assert(out@ =~= render_failure_document(error.spec_text()));
    }
    HtmlResponse { status: 500, body: out }
}

/// The response for a successful render: a success status and the full
/// document around the stylesheet text and the markup.
pub fn success_response(css: &str, markup: &str) -> (r: HtmlResponse)
    ensures
        r.status == 200,
        r.body@ == success_document(css@, markup@),
{
    HtmlResponse { status: 200, body: assemble_success(css, markup) }
}

/// One finished render to one HTTP response: success embeds the markup in
/// the shell with a success status, any engine failure yields the failure
/// document with a server-error status. Either way the body is a complete
/// document.
pub fn respond(outcome: &RenderState, css: &str) -> (r: HtmlResponse)
    requires
        outcome is Done || outcome is Failed,
    ensures
        outcome matches RenderState::Done(m) ==> r.status == 200 && r.body@ == success_document(
            css@,
            m@,
        ),
        outcome matches RenderState::Failed(e) ==> r.status == 500 && r.body@
            == render_failure_document(e.spec_text()),
{
    match outcome {
        RenderState::Done(markup) => success_response(css, markup.as_str()),
        RenderState::Failed(error) => render_failure_response(error),
        _ => HtmlResponse { status: 500, body: String::new() },
    }
}

} // verus!
