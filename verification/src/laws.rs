//! What holds of the engine whatever it is fed.

use vstd::prelude::*;
use crate::command::{lemma_occurrences_concat, lemma_occurrences_push, occurrences, Command};
use crate::engine::EngineView;
use crate::event::{Event, RedrawEvent, Stimulus};
use crate::render_state::{elapsed, present_pass, ui_pass, RenderView};
use crate::surface::{acquire_error, faithful, AcquireError, Size, SurfaceStatus};

verus! {

/// How many redraw requests a script holds before its first close request.
pub open spec fn redraws_before_close(script: Seq<Stimulus>) -> nat
    decreases script.len(),
{
    if script.len() == 0 {
        0
    } else if script[0].event is CloseRequested {
        0
    } else {
        redraws_before_close(script.drop_first()) + if script[0].event is RedrawRequested {
            1nat
        } else {
            0nat
        }
    }
}

/// Whether a script holds no close request.
pub open spec fn never_closes(script: Seq<Stimulus>) -> bool {
    forall|i: int| 0 <= i < script.len() ==> !((#[trigger] script[i]).event is CloseRequested)
}

spec fn hit(x: Command, c: Command) -> nat {
    if x == c {
        1
    } else {
        0
    }
}

proof fn lemma_count_one(x: Command, c: Command)
    ensures
        occurrences(seq![x], c) == hit(x, c),
{
    lemma_occurrences_push(Seq::empty(), x, c);
}

proof fn lemma_count_two(x: Command, y: Command, c: Command)
    ensures
        occurrences(seq![x, y], c) == hit(x, c) + hit(y, c),
{
    lemma_count_one(x, c);
    lemma_occurrences_push(seq![x], y, c);
    assert(seq![x, y] =~= seq![x].push(y));
}

proof fn lemma_count_three(x: Command, y: Command, z: Command, c: Command)
    ensures
        occurrences(seq![x, y, z], c) == hit(x, c) + hit(y, c) + hit(z, c),
{
    lemma_count_two(x, y, c);
    lemma_occurrences_push(seq![x, y], z, c);
    assert(seq![x, y, z] =~= seq![x, y].push(z));
}

proof fn lemma_count_in_frame(state: RenderView, status: SurfaceStatus, c: Command)
    ensures
        occurrences(state.render(status), c) == hit(Command::BeginFrame, c) + hit(
            Command::RunUi,
            c,
        ) + hit(Command::EndFrame, c) + if status == SurfaceStatus::Good {
            hit(Command::Rasterize(state.surface_config.extent()), c) + hit(Command::Submit, c)
                + hit(Command::Present, c)
        } else if status == SurfaceStatus::Outdated {
            0
        } else {
            hit(Command::ReportDropped(status), c)
        },
{
    let extent = state.surface_config.extent();
    let report = seq![Command::ReportDropped(status)];
    lemma_count_three(Command::BeginFrame, Command::RunUi, Command::EndFrame, c);
    lemma_count_three(Command::Rasterize(extent), Command::Submit, Command::Present, c);
    lemma_count_one(Command::ReportDropped(status), c);
    lemma_occurrences_concat(ui_pass(), present_pass(extent), c);
    lemma_occurrences_concat(report, ui_pass(), c);
}

proof fn lemma_count_in_dispatch(engine: EngineView, event: Event, now: u64, c: Command)
    requires
        !(c is HandleEvent),
        !(c is UpdateTime),
        !(c is Configure),
    ensures
        occurrences(engine.dispatch(event, now).1, c) == if engine.phase is Exiting {
            0
        } else {
            match event {
                Event::RedrawRequested => hit(Command::AcquireFrame, c),
                Event::MainEventsCleared => hit(Command::RequestRedraw, c),
                Event::UserEvent(_) => hit(Command::RequestRedraw, c),
                Event::Resized(_) => 0,
                Event::CloseRequested => hit(Command::Exit, c),
                Event::Other => 0,
            }
        },
{
    let fresh = EngineView { frame_pending: false, ..engine };
    lemma_count_one(Command::HandleEvent, c);
    lemma_count_two(Command::HandleEvent, Command::RequestRedraw, c);
    lemma_count_two(Command::HandleEvent, Command::Exit, c);
    lemma_count_three(
        Command::HandleEvent,
        Command::UpdateTime(elapsed(engine.start_time, now)),
        Command::AcquireFrame,
        c,
    );
    if let Event::Resized(size) = event {
        lemma_count_two(
            Command::HandleEvent,
            Command::Configure(fresh.render_state.resize(size).surface_config),
            c,
        );
    }
}

/// Resizing to a size with an area leaves a well-formed state whose
/// configuration has exactly that size and is otherwise unchanged; a
/// surface that keeps faith with a window of that size then answers `Good`,
/// and the frame is drawn and presented at that size. Resizing to a size
/// without an area changes nothing.
pub proof fn lemma_resize_then_acquire(state: RenderView, new_size: Size, status: SurfaceStatus)
    requires
        state.wf(),
    ensures
        state.resize(new_size).wf(),
        !new_size.has_area() ==> state.resize(new_size) == state,
        new_size.has_area() ==> state.resize(new_size).surface_config
            == state.surface_config.with_extent(new_size),
        new_size.has_area() ==> state.resize(new_size).surface_config.matches(new_size),
        new_size.has_area() && faithful(status, state.resize(new_size).surface_config, new_size)
            ==> acquire_error(status) is None && state.resize(new_size).render(status) == ui_pass()
            + present_pass(new_size),
{
}

/// After a resize to a size with an area, every redraw request that a
/// faithful surface of that size answers is drawn and presented at that
/// size, and leaves the configuration as it is, so the next one is too.
pub proof fn lemma_redraw_after_resize(
    engine: EngineView,
    new_size: Size,
    now: u64,
    redraw: Stimulus,
)
    requires
        engine.wf(),
        engine.phase is Running,
        new_size.has_area(),
        redraw.event is RedrawRequested,
    ensures
        ({
            let resized = engine.dispatch(Event::Resized(new_size), now).0;
            let drawn = resized.step(redraw);
            &&& resized.wf()
            &&& resized.phase is Running
            &&& resized.render_state.surface_config.matches(new_size)
            &&& drawn.0.wf()
            &&& drawn.0.phase is Running
            &&& drawn.0.render_state.surface_config == resized.render_state.surface_config
            &&& faithful(redraw.surface, resized.render_state.surface_config, new_size)
                ==> drawn.1 == resized.dispatch(Event::RedrawRequested, redraw.now).1 + (ui_pass()
                + present_pass(new_size))
        }),
{
}

/// A frame holds one user interface pass, begun, built and ended in this
/// order, whatever the surface answered; it submits and presents once if an
/// image was acquired, and not otherwise.
pub proof fn lemma_frame_has_one_ui_pass(state: RenderView, status: SurfaceStatus)
    ensures
        exists|i: int|
            0 <= i && i + 2 < state.render(status).len() && state.render(status)[i]
                == Command::BeginFrame && #[trigger] state.render(status)[i + 1] == Command::RunUi
                && state.render(status)[i + 2] == Command::EndFrame,
        occurrences(state.render(status), Command::BeginFrame) == 1,
        occurrences(state.render(status), Command::RunUi) == 1,
        occurrences(state.render(status), Command::EndFrame) == 1,
        occurrences(state.render(status), Command::AcquireFrame) == 0,
        occurrences(state.render(status), Command::Submit) == if status == SurfaceStatus::Good {
            1nat
        } else {
            0nat
        },
        occurrences(state.render(status), Command::Present) == if status == SurfaceStatus::Good {
            1nat
        } else {
            0nat
        },
{
    let first: int = if acquire_error(status) == Some(AcquireError::Other) {
        1
    } else {
        0
    };
    assert(state.render(status)[first + 1] == Command::RunUi);
    lemma_count_in_frame(state, status, Command::BeginFrame);
    lemma_count_in_frame(state, status, Command::RunUi);
    lemma_count_in_frame(state, status, Command::EndFrame);
    lemma_count_in_frame(state, status, Command::AcquireFrame);
    lemma_count_in_frame(state, status, Command::Submit);
    lemma_count_in_frame(state, status, Command::Present);
}

/// One turn of a running loop holds exactly one user interface pass and one
/// acquire if its event is a redraw request, and none otherwise; it never
/// presents more than once. The engine stays well formed, and leaves only
/// on a close request.
pub proof fn lemma_one_ui_pass_per_redraw(engine: EngineView, turn: Stimulus)
    requires
        engine.wf(),
    ensures
        ({
            let n = if engine.phase is Running && turn.event is RedrawRequested {
                1nat
            } else {
                0nat
            };
            let (next, cmds) = engine.step(turn);
            &&& occurrences(cmds, Command::BeginFrame) == n
            &&& occurrences(cmds, Command::RunUi) == n
            &&& occurrences(cmds, Command::EndFrame) == n
            &&& occurrences(cmds, Command::AcquireFrame) == n
            &&& occurrences(cmds, Command::Present) <= n
            &&& occurrences(cmds, Command::Submit) == occurrences(cmds, Command::Present)
            &&& next.wf()
            &&& !next.frame_pending
            &&& next.phase is Exiting <==> engine.phase is Exiting || turn.event is CloseRequested
        }),
{
    let (asked, head) = engine.dispatch(turn.event, turn.now);
    lemma_count_in_dispatch(engine, turn.event, turn.now, Command::BeginFrame);
    lemma_count_in_dispatch(engine, turn.event, turn.now, Command::RunUi);
    lemma_count_in_dispatch(engine, turn.event, turn.now, Command::EndFrame);
    lemma_count_in_dispatch(engine, turn.event, turn.now, Command::AcquireFrame);
    lemma_count_in_dispatch(engine, turn.event, turn.now, Command::Present);
    lemma_count_in_dispatch(engine, turn.event, turn.now, Command::Submit);
    if asked.frame_pending {
        let tail = asked.render(turn.surface).1;
        lemma_frame_has_one_ui_pass(asked.render_state, turn.surface);
        lemma_occurrences_concat(head, tail, Command::BeginFrame);
        lemma_occurrences_concat(head, tail, Command::RunUi);
        lemma_occurrences_concat(head, tail, Command::EndFrame);
        lemma_occurrences_concat(head, tail, Command::AcquireFrame);
        lemma_occurrences_concat(head, tail, Command::Present);
        lemma_occurrences_concat(head, tail, Command::Submit);
    }
}

/// Over a whole run of a running loop, the user interface is begun, built
/// and ended once for each redraw request that comes before the first close
/// request, a frame is asked for as often, and images are presented at most
/// as often.
pub proof fn lemma_run_draws_each_redraw_once(engine: EngineView, script: Seq<Stimulus>)
    requires
        engine.wf(),
        engine.phase is Running,
    ensures
        occurrences(engine.run(script).1, Command::BeginFrame) == redraws_before_close(script),
        occurrences(engine.run(script).1, Command::RunUi) == redraws_before_close(script),
        occurrences(engine.run(script).1, Command::EndFrame) == redraws_before_close(script),
        occurrences(engine.run(script).1, Command::AcquireFrame) == redraws_before_close(script),
        occurrences(engine.run(script).1, Command::Present) <= redraws_before_close(script),
        engine.run(script).0.wf(),
    decreases script.len(),
{
    if script.len() > 0 {
        let (next, head) = engine.step(script[0]);
        let tail = next.run(script.drop_first()).1;
        lemma_one_ui_pass_per_redraw(engine, script[0]);
        if next.phase is Exiting {
            next.lemma_run_after_exit(script.drop_first());
        } else {
            lemma_run_draws_each_redraw_once(next, script.drop_first());
        }
        lemma_occurrences_concat(head, tail, Command::BeginFrame);
        lemma_occurrences_concat(head, tail, Command::RunUi);
        lemma_occurrences_concat(head, tail, Command::EndFrame);
        lemma_occurrences_concat(head, tail, Command::AcquireFrame);
        lemma_occurrences_concat(head, tail, Command::Present);
    }
}

/// A running loop asks the windowing layer for a redraw exactly once when
/// it is about to idle or a repaint signal arrives, and never otherwise: a
/// resize, a redraw and any other input ask for none.
pub proof fn lemma_redraw_is_requested_when_idle(engine: EngineView, event: Event, now: u64)
    ensures
        occurrences(engine.dispatch(event, now).1, Command::RequestRedraw) == if engine.phase
            is Running && (event is MainEventsCleared || event is UserEvent) {
            1nat
        } else {
            0nat
        },
{
    lemma_count_in_dispatch(engine, event, now, Command::RequestRedraw);
}

/// A run in two parts is the first part, then the second from where the
/// first left the engine.
pub proof fn lemma_run_concat(engine: EngineView, first: Seq<Stimulus>, second: Seq<Stimulus>)
    ensures
        engine.run(first + second) == (
            engine.run(first).0.run(second).0,
            engine.run(first).1 + engine.run(first).0.run(second).1,
        ),
    decreases first.len(),
{
    if first.len() == 0 {
        assert(first + second =~= second);
        assert(Seq::<Command>::empty() + engine.run(second).1 =~= engine.run(second).1);
    } else {
        let (next, head) = engine.step(first[0]);
        assert((first + second).drop_first() =~= first.drop_first() + second);
        assert((first + second)[0] == first[0]);
        lemma_run_concat(next, first.drop_first(), second);
        let mid = next.run(first.drop_first());
        let end = mid.0.run(second);
        assert(head + (mid.1 + end.1) =~= (head + mid.1) + end.1);
    }
}

/// A running loop that is fed no close request keeps running.
pub proof fn lemma_keeps_running(engine: EngineView, script: Seq<Stimulus>)
    requires
        engine.wf(),
        engine.phase is Running,
        never_closes(script),
    ensures
        engine.run(script).0.phase is Running,
        engine.run(script).0.wf(),
    decreases script.len(),
{
    if script.len() > 0 {
        lemma_one_ui_pass_per_redraw(engine, script[0]);
        assert(!(script[0].event is CloseRequested));
        let rest = script.drop_first();
        assert forall|i: int| 0 <= i < rest.len() implies !((#[trigger] rest[i]).event
            is CloseRequested) by {
            assert(rest[i] == script[i + 1]);
        }
        lemma_keeps_running(engine.step(script[0]).0, rest);
    }
}

/// However many turns a running loop has idled through, a repaint signal
/// leads to exactly one request for a redraw, draws nothing itself, and the
/// redraw request that follows leads to a frame.
pub proof fn lemma_repaint_signal_requests_redraw(
    engine: EngineView,
    script: Seq<Stimulus>,
    now: u64,
    later: u64,
    status: SurfaceStatus,
)
    requires
        engine.wf(),
        engine.phase is Running,
        never_closes(script),
    ensures
        ({
            let woken = engine.run(script).0.dispatch(
                Event::UserEvent(RedrawEvent::RequestRedraw),
                now,
            );
            let asked = woken.0.dispatch(Event::RedrawRequested, later);
            &&& woken.0 == (EngineView { frame_pending: false, ..engine.run(script).0 })
            &&& woken.1 == seq![Command::HandleEvent, Command::RequestRedraw]
            &&& occurrences(woken.1, Command::RequestRedraw) == 1
            &&& asked.0.frame_pending
            &&& occurrences(asked.1, Command::AcquireFrame) == 1
            &&& occurrences(asked.0.render(status).1, Command::BeginFrame) == 1
            &&& occurrences(asked.0.render(status).1, Command::EndFrame) == 1
        }),
{
    lemma_keeps_running(engine, script);
    let idled = engine.run(script).0;
    lemma_count_in_dispatch(
        idled,
        Event::UserEvent(RedrawEvent::RequestRedraw),
        now,
        Command::RequestRedraw,
    );
    lemma_count_in_dispatch(
        EngineView { frame_pending: false, ..idled },
        Event::RedrawRequested,
        later,
        Command::AcquireFrame,
    );
    let woken = engine.run(script).0.dispatch(Event::UserEvent(RedrawEvent::RequestRedraw), now);
    let asked = woken.0.dispatch(Event::RedrawRequested, later);
    lemma_frame_has_one_ui_pass(asked.0.render_state, status);
}

/// A close request makes a running loop leave, with no call but handing the
/// event on and the exit itself. From then on no event, no answer of the
/// surface and no run leads to any call or changes anything.
pub proof fn lemma_close_is_final(engine: EngineView, now: u64)
    requires
        engine.wf(),
        engine.phase is Running,
    ensures
        ({
            let (closed, cmds) = engine.dispatch(Event::CloseRequested, now);
            &&& cmds == seq![Command::HandleEvent, Command::Exit]
            &&& closed.phase is Exiting
            &&& closed.wf()
            &&& forall|event: Event, at: u64| #[trigger]
                closed.dispatch(event, at) == (closed, Seq::<Command>::empty())
            &&& forall|status: SurfaceStatus| #[trigger]
                closed.render(status) == (closed, Seq::<Command>::empty())
            &&& forall|turn: Stimulus| #[trigger]
                closed.step(turn) == (closed, Seq::<Command>::empty())
            &&& forall|script: Seq<Stimulus>| #[trigger]
                closed.run(script) == (closed, Seq::<Command>::empty())
        }),
{
    let closed = engine.dispatch(Event::CloseRequested, now).0;
    assert forall|script: Seq<Stimulus>| #[trigger]
        closed.run(script) == (closed, Seq::<Command>::empty()) by {
        closed.lemma_run_after_exit(script);
    }
}

/// Whatever follows a close request in a script, the run is the same as
/// without it.
pub proof fn lemma_run_stops_at_close(
    engine: EngineView,
    before: Seq<Stimulus>,
    close: Stimulus,
    after: Seq<Stimulus>,
)
    requires
        engine.wf(),
        close.event is CloseRequested,
    ensures
        engine.run(before.push(close) + after) == engine.run(before.push(close)),
        engine.run(before.push(close)).0.phase is Exiting,
{
    let head = before.push(close);
    lemma_run_concat(engine, head, after);
    lemma_run_concat(engine, before, seq![close]);
    assert(before + seq![close] =~= head);
    lemma_run_wf(engine, before);
    let mid = engine.run(before).0;
    lemma_one_ui_pass_per_redraw(mid, close);
    let closed = mid.step(close).0;
    closed.lemma_run_after_exit(Seq::<Stimulus>::empty());
    assert(seq![close].drop_first() =~= Seq::<Stimulus>::empty());
    assert(mid.run(seq![close]).0 == closed);
    closed.lemma_run_after_exit(after);
    assert(engine.run(head).1 + Seq::<Command>::empty() =~= engine.run(head).1);
}

/// A run leaves a well-formed engine well formed, with no frame pending.
pub proof fn lemma_run_wf(engine: EngineView, script: Seq<Stimulus>)
    requires
        engine.wf(),
    ensures
        engine.run(script).0.wf(),
        script.len() > 0 ==> !engine.run(script).0.frame_pending,
    decreases script.len(),
{
    if script.len() > 0 {
        lemma_one_ui_pass_per_redraw(engine, script[0]);
        lemma_run_wf(engine.step(script[0]).0, script.drop_first());
    }
}

} // verus!
