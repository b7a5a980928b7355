use wgpu_engine::command::Command;
use wgpu_engine::engine::Engine;
use wgpu_engine::event::{Event, RedrawEvent, Stimulus};
use wgpu_engine::render_state::{GpuReport, StartupError};
use wgpu_engine::surface::{PixelFormat, PresentMode, Size, SurfaceConfig, SurfaceStatus};

fn working_gpu() -> GpuReport {
    GpuReport {
        adapter_found: true,
        device_granted: true,
        preferred_format: Some(PixelFormat::Bgra8UnormSrgb),
    }
}

fn loaded(now: u64) -> Engine {
    Engine::load(Some(Size { width: 1280, height: 720 }), &working_gpu(), now).unwrap()
}

fn config(width: u32, height: u32) -> SurfaceConfig {
    SurfaceConfig {
        usage: 16,
        format: PixelFormat::Bgra8UnormSrgb,
        width,
        height,
        present_mode: PresentMode::Fifo,
    }
}

/// What a surface on a working device answers for a window of this size.
fn surface_answer(engine: &Engine, window: Size) -> SurfaceStatus {
    if engine.surface_config().is_current(window) {
        SurfaceStatus::Good
    } else {
        SurfaceStatus::Outdated
    }
}

fn turn(event: Event, now: u64, surface: SurfaceStatus, ui_nanos: u64) -> Stimulus {
    Stimulus { event, now, surface, ui_nanos }
}

fn count(cmds: &[Command], c: Command) -> usize {
    cmds.iter().filter(|x| **x == c).count()
}

fn good_frame(width: u32, height: u32) -> Vec<Command> {
    vec![
        Command::BeginFrame,
        Command::RunUi,
        Command::EndFrame,
        Command::Rasterize(Size { width, height }),
        Command::Submit,
        Command::Present,
    ]
}

#[test]
fn load_starts_running_with_the_window_configured() {
    let engine = loaded(42);
    assert!(engine.is_running());
    assert!(!engine.frame_pending());
    assert_eq!(engine.surface_config(), config(1280, 720));
    assert_eq!(engine.frame_delta(), 0);
    assert_eq!(engine.previous_ui_draw_time(), None);
}

#[test]
fn load_fails_without_a_window() {
    let r = Engine::load(None, &working_gpu(), 0);
    assert_eq!(r.err(), Some(StartupError::NoWindow));
}

#[test]
fn load_passes_on_the_device_failures() {
    let size = Some(Size { width: 1280, height: 720 });
    let gpu = GpuReport { adapter_found: false, device_granted: false, preferred_format: None };
    assert_eq!(Engine::load(size, &gpu, 0).err(), Some(StartupError::NoAdapter));
    let gpu = GpuReport { adapter_found: true, device_granted: false, preferred_format: None };
    assert_eq!(Engine::load(size, &gpu, 0).err(), Some(StartupError::NoDevice));
    let gpu = GpuReport { adapter_found: true, device_granted: true, preferred_format: None };
    assert_eq!(Engine::load(size, &gpu, 0).err(), Some(StartupError::NoSurfaceFormat));
    let none = Some(Size { width: 0, height: 0 });
    assert_eq!(Engine::load(none, &working_gpu(), 0).err(), Some(StartupError::ZeroArea));
}

#[test]
fn a_redraw_request_updates_the_clock_and_asks_for_a_frame() {
    let mut engine = loaded(1_000);
    let cmds = engine.dispatch(Event::RedrawRequested, 4_000);
    assert_eq!(
        cmds,
        vec![Command::HandleEvent, Command::UpdateTime(3_000), Command::AcquireFrame]
    );
    assert!(engine.frame_pending());
    assert_eq!(engine.frame_delta(), 3_000);
    let cmds = engine.render(SurfaceStatus::Good);
    assert_eq!(cmds, good_frame(1280, 720));
    assert!(!engine.frame_pending());
}

#[test]
fn frame_delta_is_measured_from_the_previous_redraw() {
    let mut engine = loaded(1_000);
    engine.dispatch(Event::RedrawRequested, 4_000);
    engine.render(SurfaceStatus::Good);
    let cmds = engine.dispatch(Event::RedrawRequested, 9_500);
    assert_eq!(cmds[1], Command::UpdateTime(8_500));
    assert_eq!(engine.frame_delta(), 5_500);
    engine.render(SurfaceStatus::Good);
    engine.dispatch(Event::RedrawRequested, 9_000);
    assert_eq!(engine.frame_delta(), 0);
}

#[test]
fn idle_requests_a_redraw_and_draws_nothing() {
    let mut engine = loaded(0);
    let cmds = engine.dispatch(Event::MainEventsCleared, 10);
    assert_eq!(cmds, vec![Command::HandleEvent, Command::RequestRedraw]);
    assert!(!engine.frame_pending());
    assert_eq!(engine.render(SurfaceStatus::Good), vec![]);
}

#[test]
fn a_repaint_signal_requests_exactly_one_redraw() {
    let mut engine = loaded(0);
    for _ in 0..100 {
        engine.dispatch(Event::MainEventsCleared, 10);
    }
    let cmds = engine.dispatch(Event::UserEvent(RedrawEvent::RequestRedraw), 10);
    assert_eq!(cmds, vec![Command::HandleEvent, Command::RequestRedraw]);
    assert_eq!(count(&cmds, Command::RequestRedraw), 1);
    assert!(engine.is_running());
}

#[test]
fn two_repaint_signals_lead_to_a_redraw() {
    let mut engine = loaded(0);
    let first = engine.dispatch(Event::UserEvent(RedrawEvent::RequestRedraw), 1);
    let second = engine.dispatch(Event::UserEvent(RedrawEvent::RequestRedraw), 2);
    assert_eq!(count(&first, Command::RequestRedraw), 1);
    assert_eq!(count(&second, Command::RequestRedraw), 1);
    let mut drawn = engine.dispatch(Event::RedrawRequested, 3);
    drawn.extend(engine.render(SurfaceStatus::Good));
    assert_eq!(count(&drawn, Command::AcquireFrame), 1);
    assert_eq!(count(&drawn, Command::BeginFrame), 1);
    assert_eq!(count(&drawn, Command::EndFrame), 1);
    assert_eq!(count(&drawn, Command::Present), 1);
}

#[test]
fn a_resize_reconfigures_and_asks_for_no_redraw() {
    let mut engine = loaded(0);
    let cmds = engine.dispatch(Event::Resized(Size { width: 800, height: 600 }), 5);
    assert_eq!(cmds, vec![Command::HandleEvent, Command::Configure(config(800, 600))]);
    assert_eq!(engine.surface_config(), config(800, 600));
    assert!(!engine.frame_pending());
}

#[test]
fn a_resize_without_area_only_reaches_the_ui() {
    let mut engine = loaded(0);
    let cmds = engine.dispatch(Event::Resized(Size { width: 0, height: 600 }), 5);
    assert_eq!(cmds, vec![Command::HandleEvent]);
    assert_eq!(engine.surface_config(), config(1280, 720));
    let cmds = engine.dispatch(Event::Resized(Size { width: 800, height: 0 }), 5);
    assert_eq!(cmds, vec![Command::HandleEvent]);
    assert_eq!(engine.surface_config(), config(1280, 720));
}

#[test]
fn resize_scenario_two_acquires_succeed_at_800_by_600() {
    let mut engine = loaded(0);
    assert_eq!(engine.surface_config(), config(1280, 720));
    engine.dispatch(Event::Resized(Size { width: 0, height: 600 }), 1);
    assert_eq!(engine.surface_config(), config(1280, 720));
    engine.dispatch(Event::Resized(Size { width: 800, height: 600 }), 2);
    assert_eq!(engine.surface_config(), config(800, 600));
    let window = Size { width: 800, height: 600 };
    for now in [3, 4] {
        let asked = engine.dispatch(Event::RedrawRequested, now);
        assert_eq!(asked.last(), Some(&Command::AcquireFrame));
        let answer = surface_answer(&engine, window);
        assert_eq!(answer, SurfaceStatus::Good);
        assert_eq!(engine.render(answer), good_frame(800, 600));
        assert_eq!(engine.surface_config(), config(800, 600));
    }
}

#[test]
fn a_stale_surface_skips_the_frame_and_the_next_one_is_drawn() {
    let mut engine = loaded(0);
    let window = Size { width: 800, height: 600 };
    engine.dispatch(Event::RedrawRequested, 1);
    let answer = surface_answer(&engine, window);
    assert_eq!(answer, SurfaceStatus::Outdated);
    assert_eq!(
        engine.render(answer),
        vec![Command::BeginFrame, Command::RunUi, Command::EndFrame]
    );
    assert!(engine.is_running());
    engine.dispatch(Event::Resized(window), 2);
    engine.dispatch(Event::RedrawRequested, 3);
    let answer = surface_answer(&engine, window);
    assert_eq!(engine.render(answer), good_frame(800, 600));
}

#[test]
fn a_lost_surface_is_reported_and_the_loop_goes_on() {
    let mut engine = loaded(0);
    engine.dispatch(Event::RedrawRequested, 1);
    assert_eq!(
        engine.render(SurfaceStatus::Lost),
        vec![
            Command::ReportDropped(SurfaceStatus::Lost),
            Command::BeginFrame,
            Command::RunUi,
            Command::EndFrame,
        ]
    );
    assert!(engine.is_running());
    let cmds = engine.dispatch(Event::MainEventsCleared, 2);
    assert_eq!(cmds, vec![Command::HandleEvent, Command::RequestRedraw]);
}

#[test]
fn other_events_only_reach_the_ui() {
    let mut engine = loaded(0);
    assert_eq!(engine.dispatch(Event::Other, 1), vec![Command::HandleEvent]);
    assert!(engine.is_running());
    assert!(!engine.frame_pending());
}

#[test]
fn close_leaves_and_nothing_follows() {
    let mut engine = loaded(0);
    let cmds = engine.dispatch(Event::CloseRequested, 1);
    assert_eq!(cmds, vec![Command::HandleEvent, Command::Exit]);
    assert!(!engine.is_running());
    let window = Size { width: 640, height: 480 };
    for event in [
        Event::RedrawRequested,
        Event::MainEventsCleared,
        Event::UserEvent(RedrawEvent::RequestRedraw),
        Event::Resized(window),
        Event::CloseRequested,
        Event::Other,
    ] {
        assert_eq!(engine.dispatch(event, 2), vec![]);
        assert_eq!(engine.render(SurfaceStatus::Good), vec![]);
    }
    assert_eq!(engine.surface_config(), config(1280, 720));
    assert!(!engine.is_running());
}

#[test]
fn close_gives_up_a_pending_frame() {
    let mut engine = loaded(0);
    engine.dispatch(Event::RedrawRequested, 1);
    assert!(engine.frame_pending());
    engine.dispatch(Event::CloseRequested, 2);
    assert!(!engine.frame_pending());
    assert_eq!(engine.render(SurfaceStatus::Good), vec![]);
}

#[test]
fn an_answer_counts_once() {
    let mut engine = loaded(0);
    engine.dispatch(Event::RedrawRequested, 1);
    assert_eq!(engine.render(SurfaceStatus::Good).len(), 6);
    assert_eq!(engine.render(SurfaceStatus::Good), vec![]);
}

#[test]
fn a_new_event_gives_up_a_pending_frame() {
    let mut engine = loaded(0);
    engine.dispatch(Event::RedrawRequested, 1);
    engine.dispatch(Event::Other, 2);
    assert!(!engine.frame_pending());
    assert_eq!(engine.render(SurfaceStatus::Good), vec![]);
}

#[test]
fn step_is_dispatch_then_render() {
    let mut live = loaded(100);
    let mut replayed = loaded(100);
    let mut expected = live.dispatch(Event::RedrawRequested, 350);
    expected.extend(live.render(SurfaceStatus::Good));
    live.record_ui_time(77);
    let got = replayed.step(&turn(Event::RedrawRequested, 350, SurfaceStatus::Good, 77));
    assert_eq!(got, expected);
    assert_eq!(got.len(), 9);
    assert_eq!(replayed.previous_ui_draw_time(), Some(77));
    assert_eq!(replayed.frame_delta(), live.frame_delta());
    assert!(!replayed.frame_pending());
}

#[test]
fn step_without_a_redraw_leaves_the_ui_time() {
    let mut engine = loaded(0);
    engine.step(&turn(Event::MainEventsCleared, 1, SurfaceStatus::Good, 55));
    assert_eq!(engine.previous_ui_draw_time(), None);
    engine.step(&turn(Event::RedrawRequested, 2, SurfaceStatus::Outdated, 66));
    assert_eq!(engine.previous_ui_draw_time(), Some(66));
}

#[test]
fn run_draws_once_per_redraw_until_close() {
    let good = SurfaceStatus::Good;
    let script = vec![
        turn(Event::MainEventsCleared, 1, good, 0),
        turn(Event::RedrawRequested, 2, good, 10),
        turn(Event::Other, 3, good, 0),
        turn(Event::RedrawRequested, 4, SurfaceStatus::Outdated, 11),
        turn(Event::Resized(Size { width: 800, height: 600 }), 5, good, 0),
        turn(Event::RedrawRequested, 6, SurfaceStatus::Timeout, 12),
        turn(Event::UserEvent(RedrawEvent::RequestRedraw), 7, good, 0),
        turn(Event::RedrawRequested, 8, good, 13),
        turn(Event::CloseRequested, 9, good, 0),
        turn(Event::RedrawRequested, 10, good, 14),
        turn(Event::MainEventsCleared, 11, good, 0),
    ];
    let mut engine = loaded(0);
    let cmds = engine.run(&script);
    assert_eq!(count(&cmds, Command::BeginFrame), 4);
    assert_eq!(count(&cmds, Command::RunUi), 4);
    assert_eq!(count(&cmds, Command::EndFrame), 4);
    assert_eq!(count(&cmds, Command::AcquireFrame), 4);
    assert_eq!(count(&cmds, Command::Present), 2);
    assert_eq!(count(&cmds, Command::Submit), 2);
    assert_eq!(count(&cmds, Command::RequestRedraw), 2);
    assert_eq!(count(&cmds, Command::ReportDropped(SurfaceStatus::Timeout)), 1);
    assert_eq!(count(&cmds, Command::Configure(config(800, 600))), 1);
    assert_eq!(count(&cmds, Command::HandleEvent), 9);
    assert_eq!(cmds.last(), Some(&Command::Exit));
    assert!(!engine.is_running());
    assert_eq!(engine.previous_ui_draw_time(), Some(13));
    assert_eq!(engine.surface_config(), config(800, 600));
}

#[test]
fn run_is_the_turns_one_after_another() {
    let script = vec![
        turn(Event::RedrawRequested, 5, SurfaceStatus::Lost, 1),
        turn(Event::Resized(Size { width: 0, height: 0 }), 6, SurfaceStatus::Good, 2),
        turn(Event::Resized(Size { width: 30, height: 20 }), 7, SurfaceStatus::Good, 3),
        turn(Event::RedrawRequested, 8, SurfaceStatus::Good, 4),
    ];
    let mut whole = loaded(0);
    let mut stepwise = loaded(0);
    let mut expected = Vec::new();
    for t in &script {
        expected.extend(stepwise.step(t));
    }
    assert_eq!(whole.run(&script), expected);
    assert_eq!(whole.surface_config(), stepwise.surface_config());
    assert_eq!(whole.frame_delta(), 3);
    assert_eq!(whole.previous_ui_draw_time(), Some(4));
}

#[test]
fn an_empty_run_does_nothing() {
    let mut engine = loaded(0);
    assert_eq!(engine.run(&Vec::new()), vec![]);
    assert!(engine.is_running());
}

#[test]
fn a_run_after_close_does_nothing() {
    let mut engine = loaded(0);
    engine.dispatch(Event::CloseRequested, 1);
    let script = vec![
        turn(Event::RedrawRequested, 2, SurfaceStatus::Good, 1),
        turn(Event::Resized(Size { width: 30, height: 20 }), 3, SurfaceStatus::Good, 0),
    ];
    assert_eq!(engine.run(&script), vec![]);
    assert_eq!(engine.surface_config(), config(1280, 720));
    assert_eq!(engine.previous_ui_draw_time(), None);
}
