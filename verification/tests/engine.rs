use ssr_core::engine::{run_events, step, EngineEvent, RenderState, ENTRY_POINT_CALL};
use ssr_core::errors::Stage;

fn done_text(state: RenderState) -> String {
    match state {
        RenderState::Done(t) => t,
        _ => panic!("expected a finished render"),
    }
}

fn failure_text(state: RenderState) -> String {
    match state {
        RenderState::Failed(e) => e.text(),
        _ => panic!("expected a failed render"),
    }
}

#[test]
fn successful_render_returns_exact_markup() {
    let outcome = run_events(vec![
        EngineEvent::RanOk,
        EngineEvent::RanOk,
        EngineEvent::RanOk,
        EngineEvent::Converted(String::from("<p>hi</p>")),
    ]);
    assert_eq!(done_text(outcome), "<p>hi</p>");
}

#[test]
fn bundle_compile_failure_is_tagged_with_message() {
    let outcome = run_events(vec![
        EngineEvent::RanOk,
        EngineEvent::CompileFailed(Some(String::from("SyntaxError: Unexpected end of input"))),
    ]);
    match &outcome {
        RenderState::Failed(e) => assert!(matches!(e.stage, Stage::BundleCompile)),
        _ => panic!("expected a failed render"),
    }
    assert_eq!(
        failure_text(outcome),
        "Compile error: SyntaxError: Unexpected end of input"
    );
}

#[test]
fn bundle_compile_failure_without_exception_text() {
    let outcome = run_events(vec![EngineEvent::RanOk, EngineEvent::CompileFailed(None)]);
    assert_eq!(failure_text(outcome), "Failed to compile script");
}

#[test]
fn bundle_throw_carries_thrown_message() {
    let outcome = run_events(vec![
        EngineEvent::RanOk,
        EngineEvent::RunFailed(Some(String::from("boom"))),
    ]);
    assert_eq!(failure_text(outcome), "Runtime error: boom");
}

#[test]
fn entry_point_throw_carries_thrown_message() {
    let outcome = run_events(vec![
        EngineEvent::RanOk,
        EngineEvent::RanOk,
        EngineEvent::RunFailed(Some(String::from("boom"))),
    ]);
    match &outcome {
        RenderState::Failed(e) => assert!(matches!(e.stage, Stage::EntryPointRuntime)),
        _ => panic!("expected a failed render"),
    }
    assert_eq!(failure_text(outcome), "Render error: boom");
}

#[test]
fn entry_point_compile_failure_is_distinguished() {
    let outcome = run_events(vec![
        EngineEvent::RanOk,
        EngineEvent::RanOk,
        EngineEvent::CompileFailed(Some(String::from("render is not defined"))),
    ]);
    assert_eq!(failure_text(outcome), "Render compile error: render is not defined");
}

#[test]
fn polyfill_failures_fail_fast() {
    let outcome = run_events(vec![EngineEvent::SourceFailed]);
    assert_eq!(failure_text(outcome), "Failed to create polyfill code");
    let outcome = run_events(vec![EngineEvent::CompileFailed(None)]);
    assert_eq!(failure_text(outcome), "Failed to compile polyfills");
    let outcome = run_events(vec![EngineEvent::RunFailed(Some(String::from("oops")))]);
    assert_eq!(failure_text(outcome), "Polyfill error: oops");
    let outcome = run_events(vec![EngineEvent::RunFailed(None)]);
    assert_eq!(failure_text(outcome), "Failed to run polyfills");
}

#[test]
fn conversion_failure_is_reported() {
    let outcome = run_events(vec![
        EngineEvent::RanOk,
        EngineEvent::RanOk,
        EngineEvent::RanOk,
        EngineEvent::ConversionFailed,
    ]);
    assert_eq!(failure_text(outcome), "Failed to convert result to string");
}

#[test]
fn terminal_states_absorb_further_events() {
    let done = RenderState::Done(String::from("<p>hi</p>"));
    let after = step(done, EngineEvent::RanOk);
    assert_eq!(done_text(after), "<p>hi</p>");
}

#[test]
fn entry_point_is_a_zero_argument_render_call() {
    assert_eq!(ENTRY_POINT_CALL, "render()");
}

#[test]
fn back_to_back_renders_agree() {
    let events = || {
        vec![
            EngineEvent::RanOk,
            EngineEvent::RanOk,
            EngineEvent::RanOk,
            EngineEvent::Converted(String::from("<p>count: 1</p>")),
        ]
    };
    let first = run_events(events());
    let second = run_events(events());
    assert_eq!(done_text(first), done_text(second));
}
