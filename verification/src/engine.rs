//! The render pipeline of the script execution engine, as a state machine.
//!
//! One render request walks a fixed sequence of engine stages inside a fresh,
//! disposable execution context: load the host polyfills, load the
//! application bundle, invoke the bundle's zero-argument `render` entry
//! point, and convert the returned value to text. The engine work itself —
//! creating source strings, compiling and running scripts inside the embedded
//! virtual machine — happens outside this library; each stage reports its
//! outcome as an [`EngineEvent`], and [`step`] decides the next state. Every
//! failure is translated into a tagged [`EngineError`]; `Done` and `Failed`
//! are the only terminal states, so a render always ends in a reportable
//! outcome.

use crate::errors::{EngineError, Stage};
use vstd::prelude::*;

verus! {

/// Progress of one render request. The three `Awaiting` states name the
/// script whose turn it is (polyfills, bundle, entry-point call);
/// `AwaitingConversion` waits for the entry point's return value to be read
/// back as text. `Done` carries the rendered markup, `Failed` the translated
/// engine failure; both are terminal.
pub enum RenderState {
    AwaitingPolyfills,
    AwaitingBundle,
    AwaitingEntryPoint,
    AwaitingConversion,
    Done(String),
    Failed(EngineError),
}

/// Outcome of one engine stage, reported by whoever performs the engine
/// work. The first three speak of a script stage: its source text could not
/// be created in the engine, it failed to compile, or it threw while
/// running — the latter two with the engine's exception text when one was
/// available. The last two speak of reading the entry point's return value
/// back as text.
pub enum EngineEvent {
    SourceFailed,
    CompileFailed(Option<String>),
    RunFailed(Option<String>),
    RanOk,
    ConversionFailed,
    Converted(String),
}

/// The fixed invocation expression of the bundle's entry point: a
/// zero-argument function the bundle is expected to define as a side effect
/// of running, whose return value becomes the rendered markup.
pub const ENTRY_POINT_CALL: &'static str = "render()";

/// The state a fresh render request starts in: nothing loaded yet, the
/// polyfills' turn first. It carries no data, so no render can begin with
/// anything left over from an earlier one.
pub open spec fn initial_state() -> RenderState {
    RenderState::AwaitingPolyfills
}

/// Whether an event can be the outcome of the stage the state is waiting
/// for: script outcomes in the three script states, conversion outcomes
/// while awaiting conversion, nothing in a terminal state.
pub open spec fn event_fits(s: RenderState, e: EngineEvent) -> bool {
    match s {
        RenderState::AwaitingPolyfills
        | RenderState::AwaitingBundle
        | RenderState::AwaitingEntryPoint => match e {
            EngineEvent::SourceFailed
            | EngineEvent::CompileFailed(_)
            | EngineEvent::RunFailed(_)
            | EngineEvent::RanOk => true,
            _ => false,
        },
        RenderState::AwaitingConversion => match e {
            EngineEvent::ConversionFailed | EngineEvent::Converted(_) => true,
            _ => false,
        },
        RenderState::Done(_) | RenderState::Failed(_) => false,
    }
}

/// The transition table of one render. A fitting failure event moves to
/// `Failed` with the tag of the stage it struck and the engine's exception
/// text as reported; a fitting success event moves to the next stage, and
/// the converted text ends in `Done` exactly as handed over. Terminal states
/// absorb every event, and an event that does not fit the state leaves it
/// unchanged.
pub open spec fn spec_step(s: RenderState, e: EngineEvent) -> RenderState {
    match s {
        RenderState::AwaitingPolyfills => match e {
            EngineEvent::SourceFailed => RenderState::Failed(
                EngineError { stage: Stage::PolyfillSource, detail: None },
            ),
            EngineEvent::CompileFailed(d) => RenderState::Failed(
                EngineError { stage: Stage::PolyfillCompile, detail: d },
            ),
            EngineEvent::RunFailed(d) => RenderState::Failed(
                EngineError { stage: Stage::PolyfillRuntime, detail: d },
            ),
            EngineEvent::RanOk => RenderState::AwaitingBundle,
            _ => s,
        },
        RenderState::AwaitingBundle => match e {
            EngineEvent::SourceFailed => RenderState::Failed(
                EngineError { stage: Stage::BundleSource, detail: None },
            ),
            EngineEvent::CompileFailed(d) => RenderState::Failed(
                EngineError { stage: Stage::BundleCompile, detail: d },
            ),
            EngineEvent::RunFailed(d) => RenderState::Failed(
                EngineError { stage: Stage::BundleRuntime, detail: d },
            ),
            EngineEvent::RanOk => RenderState::AwaitingEntryPoint,
            _ => s,
        },
        RenderState::AwaitingEntryPoint => match e {
            EngineEvent::SourceFailed => RenderState::Failed(
                EngineError { stage: Stage::EntryPointSource, detail: None },
            ),
            EngineEvent::CompileFailed(d) => RenderState::Failed(
                EngineError { stage: Stage::EntryPointCompile, detail: d },
            ),
            EngineEvent::RunFailed(d) => RenderState::Failed(
                EngineError { stage: Stage::EntryPointRuntime, detail: d },
            ),
            EngineEvent::RanOk => RenderState::AwaitingConversion,
            _ => s,
        },
        RenderState::AwaitingConversion => match e {
            EngineEvent::ConversionFailed => RenderState::Failed(
                EngineError { stage: Stage::ResultConversion, detail: None },
            ),
            EngineEvent::Converted(t) => RenderState::Done(t),
            _ => s,
        },
        RenderState::Done(_) | RenderState::Failed(_) => s,
    }
}

/// Advances one render by the outcome of its next engine stage, exactly as
/// the transition table says.
pub fn step(s: RenderState, e: EngineEvent) -> (next: RenderState)
    ensures
        next == spec_step(s, e),
{
    match s {
        RenderState::AwaitingPolyfills => match e {
            EngineEvent::SourceFailed => RenderState::Failed(
                EngineError { stage: Stage::PolyfillSource, detail: None },
            ),
            EngineEvent::CompileFailed(d) => RenderState::Failed(
                EngineError { stage: Stage::PolyfillCompile, detail: d },
            ),
            EngineEvent::RunFailed(d) => RenderState::Failed(
                EngineError { stage: Stage::PolyfillRuntime, detail: d },
            ),
            EngineEvent::RanOk => RenderState::AwaitingBundle,
            _ => s,
        },
        RenderState::AwaitingBundle => match e {
            EngineEvent::SourceFailed => RenderState::Failed(
                EngineError { stage: Stage::BundleSource, detail: None },
            ),
            EngineEvent::CompileFailed(d) => RenderState::Failed(
                EngineError { stage: Stage::BundleCompile, detail: d },
            ),
            EngineEvent::RunFailed(d) => RenderState::Failed(
                EngineError { stage: Stage::BundleRuntime, detail: d },
            ),
            EngineEvent::RanOk => RenderState::AwaitingEntryPoint,
            _ => s,
        },
        RenderState::AwaitingEntryPoint => match e {
            EngineEvent::SourceFailed => RenderState::Failed(
                EngineError { stage: Stage::EntryPointSource, detail: None },
            ),
            EngineEvent::CompileFailed(d) => RenderState::Failed(
                EngineError { stage: Stage::EntryPointCompile, detail: d },
            ),
            EngineEvent::RunFailed(d) => RenderState::Failed(
                EngineError { stage: Stage::EntryPointRuntime, detail: d },
            ),
            EngineEvent::RanOk => RenderState::AwaitingConversion,
            _ => s,
        },
        RenderState::AwaitingConversion => match e {
            EngineEvent::ConversionFailed => RenderState::Failed(
                EngineError { stage: Stage::ResultConversion, detail: None },
            ),
            EngineEvent::Converted(t) => RenderState::Done(t),
            _ => s,
        },
        RenderState::Done(_) | RenderState::Failed(_) => s,
    }
}

/// Where a render that saw the given stage outcomes, in order, stands after
/// them, starting from the given state.
pub open spec fn spec_run_from(s: RenderState, evs: Seq<EngineEvent>) -> RenderState
    decreases evs.len(),
{
    if evs.len() == 0 {
        s
    } else {
        spec_run_from(spec_step(s, evs[0]), evs.drop_first())
    }
}

/// Where a fresh render stands after the given stage outcomes: the whole
/// outcome of one request is a function of that request's own events, and of
/// nothing else.
pub open spec fn spec_run(evs: Seq<EngineEvent>) -> RenderState {
    spec_run_from(initial_state(), evs)
}

/// Replays one render's stage outcomes from the fresh initial state.
pub fn run_events(events: Vec<EngineEvent>) -> (r: RenderState)
    ensures
        r == spec_run(events@),
{
    let ghost all: Seq<EngineEvent> = events@;
    let mut remaining = events;
    let mut state = RenderState::AwaitingPolyfills;
    while remaining.len() > 0
        invariant
            spec_run_from(state, remaining@) == spec_run(all),
        decreases remaining@.len(),
    {
        let ghost before: Seq<EngineEvent> = remaining@;
        let e = remaining.remove(0);
        proof {
            assert(remaining@ =~= before.drop_first());
            assert(spec_run_from(state, before) == spec_run_from(
                spec_step(state, e),
                before.drop_first(),
            ));
        }
        state = step(state, e);
    }
    state
}

/// A render whose polyfills, bundle and entry-point call all succeed, and
/// whose return value converts to the text `markup`, ends in `Done(markup)`
/// exactly: the entry point's converted return value, with nothing added
/// around it.
pub proof fn lemma_successful_render(markup: String)
    ensures
        spec_run(
            seq![
                EngineEvent::RanOk,
                EngineEvent::RanOk,
                EngineEvent::RanOk,
                EngineEvent::Converted(markup),
            ],
        ) == RenderState::Done(markup),
{
    let e4 = seq![
        EngineEvent::RanOk,
        EngineEvent::RanOk,
        EngineEvent::RanOk,
        EngineEvent::Converted(markup),
    ];
    let e3 = seq![EngineEvent::RanOk, EngineEvent::RanOk, EngineEvent::Converted(markup)];
    let e2 = seq![EngineEvent::RanOk, EngineEvent::Converted(markup)];
    let e1 = seq![EngineEvent::Converted(markup)];
    assert(e4.drop_first() =~= e3);
    assert(e3.drop_first() =~= e2);
    assert(e2.drop_first() =~= e1);
    assert(e1.drop_first() =~= Seq::<EngineEvent>::empty());
    assert(spec_run(e4) == spec_run_from(RenderState::AwaitingBundle, e3));
    assert(spec_run_from(RenderState::AwaitingBundle, e3) == spec_run_from(
        RenderState::AwaitingEntryPoint,
        e2,
    ));
    assert(spec_run_from(RenderState::AwaitingEntryPoint, e2) == spec_run_from(
        RenderState::AwaitingConversion,
        e1,
    ));
    assert(spec_run_from(RenderState::AwaitingConversion, e1) == spec_run_from(
        RenderState::Done(markup),
        Seq::<EngineEvent>::empty(),
    ));
    assert(spec_run_from(RenderState::Done(markup), Seq::<EngineEvent>::empty())
        == RenderState::Done(markup));
}

/// Malformed bundle text: when the polyfills load but the bundle fails to
/// compile, the render fails with the bundle-compile tag, carrying whatever
/// message the engine reported; with a message present, the reported text is
/// that message behind the compile-error prefix.
pub proof fn lemma_bundle_compile_failure(detail: Option<String>)
    ensures
        spec_run(seq![EngineEvent::RanOk, EngineEvent::CompileFailed(detail)])
            == RenderState::Failed((EngineError { stage: Stage::BundleCompile, detail: detail })),
        detail matches Some(m) ==> (EngineError { stage: Stage::BundleCompile, detail: detail })
            .spec_text() == "Compile error: "@ + m@,
{
    let e2 = seq![EngineEvent::RanOk, EngineEvent::CompileFailed(detail)];
    let e1 = seq![EngineEvent::CompileFailed(detail)];
    assert(e2.drop_first() =~= e1);
    assert(e1.drop_first() =~= Seq::<EngineEvent>::empty());
    assert(spec_run(e2) == spec_run_from(RenderState::AwaitingBundle, e1));
    assert(spec_run_from(RenderState::AwaitingBundle, e1) == spec_run_from(
        spec_step(RenderState::AwaitingBundle, e1[0]),
        Seq::<EngineEvent>::empty(),
    ));
}

/// A bundle that compiles but throws: a throw while the bundle runs, or
/// later while the entry-point call runs, fails the render with that stage's
/// runtime tag, and the reported text carries the thrown message behind the
/// stage's prefix.
pub proof fn lemma_thrown_message_reported(message: String)
    ensures
        spec_run(seq![EngineEvent::RanOk, EngineEvent::RunFailed(Some(message))])
            == RenderState::Failed(
            (EngineError { stage: Stage::BundleRuntime, detail: Some(message) }),
        ),
        spec_run(
            seq![EngineEvent::RanOk, EngineEvent::RanOk, EngineEvent::RunFailed(Some(message))],
        ) == RenderState::Failed(
            (EngineError { stage: Stage::EntryPointRuntime, detail: Some(message) }),
        ),
        (EngineError { stage: Stage::BundleRuntime, detail: Some(message) }).spec_text()
            == "Runtime error: "@ + message@,
        (EngineError { stage: Stage::EntryPointRuntime, detail: Some(message) }).spec_text()
            == "Render error: "@ + message@,
{
    let b2 = seq![EngineEvent::RanOk, EngineEvent::RunFailed(Some(message))];
    let b1 = seq![EngineEvent::RunFailed(Some(message))];
    assert(b2.drop_first() =~= b1);
    assert(b1.drop_first() =~= Seq::<EngineEvent>::empty());
    assert(spec_run(b2) == spec_run_from(RenderState::AwaitingBundle, b1));
    assert(spec_run_from(RenderState::AwaitingBundle, b1) == spec_run_from(
        spec_step(RenderState::AwaitingBundle, b1[0]),
        Seq::<EngineEvent>::empty(),
    ));
    let t3 = seq![EngineEvent::RanOk, EngineEvent::RanOk, EngineEvent::RunFailed(Some(message))];
    let t2 = seq![EngineEvent::RanOk, EngineEvent::RunFailed(Some(message))];
    let t1 = seq![EngineEvent::RunFailed(Some(message))];
    assert(t3.drop_first() =~= t2);
    assert(t2.drop_first() =~= t1);
    assert(t1.drop_first() =~= Seq::<EngineEvent>::empty());
    assert(spec_run(t3) == spec_run_from(RenderState::AwaitingBundle, t2));
    assert(spec_run_from(RenderState::AwaitingBundle, t2) == spec_run_from(
        RenderState::AwaitingEntryPoint,
        t1,
    ));
    assert(spec_run_from(RenderState::AwaitingEntryPoint, t1) == spec_run_from(
        spec_step(RenderState::AwaitingEntryPoint, t1[0]),
        Seq::<EngineEvent>::empty(),
    ));
}

/// Renders do not leak state into one another: every render starts from the
/// fixed, data-free initial state, so a second render whose engine stages
/// report the same outcomes as an earlier one ends in the same result,
/// whatever the earlier render's scripts did to their own context.
pub proof fn lemma_back_to_back_renders(first: Seq<EngineEvent>, second: Seq<EngineEvent>)
    requires
        first =~= second,
    ensures
        spec_run(first) == spec_run(second),
{
    assert(first == second);
}

/// `Done` and `Failed` are terminal: no further event moves a finished
/// render, so both always yield exactly one reportable outcome.
pub proof fn lemma_terminal_states_absorb(s: RenderState, e: EngineEvent)
    requires
        s is Done || s is Failed,
    ensures
        spec_step(s, e) == s,
{
}

/// The engine never silently swallows a failure: every fitting stage
/// outcome other than success ends the render in `Failed`.
pub proof fn lemma_no_failure_swallowed(s: RenderState, e: EngineEvent)
    requires
        event_fits(s, e),
        !(e is RanOk),
        !(e is Converted),
    ensures
        spec_step(s, e) is Failed,
{
}

} // verus!
