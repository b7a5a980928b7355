//! The engine loop: a state machine from events to the calls they lead to.

use vstd::prelude::*;
use crate::command::Command;
use crate::event::{Event, RedrawEvent, Stimulus};
use crate::render_state::{elapsed, elapsed_between, GpuReport, RenderState, RenderView, StartupError};
use crate::surface::{Size, SurfaceConfig, SurfaceStatus};

verus! {

/// Where the loop stands.
#[derive(Clone, Copy, Debug, PartialEq, Eq, Structural)]
pub enum Phase {
    /// Events are handled.
    Running,
    /// A close was requested: nothing is handled any more.
    Exiting,
}

/// What an engine is, as a value.
pub struct EngineView {
    pub phase: Phase,
    pub render_state: RenderView,
    /// The clock at the last redraw, in nanoseconds.
    pub time: u64,
    /// The clock when the engine was loaded, in nanoseconds.
    pub start_time: u64,
    /// The nanoseconds between the last two redraws.
    pub frame_delta: u64,
    /// A frame was asked for and the surface's answer is not in yet.
    pub frame_pending: bool,
}

impl EngineView {
    /// The render state is well formed and holds no acquired image, and no
    /// frame is pending once the loop has left.
    pub open spec fn wf(self) -> bool {
        &&& self.render_state.wf()
        &&& !self.render_state.frame_acquired
        &&& self.phase is Exiting ==> !self.frame_pending
    }

    /// The engine as it starts at clock `now`.
    pub open spec fn started(render_state: RenderView, now: u64) -> EngineView {
        EngineView {
            phase: Phase::Running,
            render_state,
            time: now,
            start_time: now,
            frame_delta: 0,
            frame_pending: false,
        }
    }

    /// The outcome of loading: the first failed step, or the engine.
    pub open spec fn load(window: Option<Size>, gpu: GpuReport, now: u64) -> Result<
        EngineView,
        StartupError,
    > {
        match window {
            None => Err(StartupError::NoWindow),
            Some(size) => match RenderView::startup(size, gpu) {
                Ok(render_state) => Ok(Self::started(render_state, now)),
                Err(e) => Err(e),
            },
        }
    }

    /// A redraw was requested: the frame timing advances and a frame is
    /// asked for.
    pub open spec fn on_redraw(self, now: u64) -> (EngineView, Seq<Command>) {
        (
            EngineView {
                time: now,
                frame_delta: elapsed(self.time, now),
                frame_pending: true,
                ..self
            },
            seq![
                Command::HandleEvent,
                Command::UpdateTime(elapsed(self.start_time, now)),
                Command::AcquireFrame,
            ],
        )
    }

    /// The loop is about to idle, or a repaint signal arrived: a redraw is
    /// requested, and nothing is drawn here.
    pub open spec fn on_idle(self) -> (EngineView, Seq<Command>) {
        (self, seq![Command::HandleEvent, Command::RequestRedraw])
    }

    /// The window was resized: the surface follows, and no redraw is asked
    /// for.
    pub open spec fn on_resize(self, size: Size) -> (EngineView, Seq<Command>) {
        let render_state = self.render_state.resize(size);
        (
            EngineView { render_state, ..self },
            if size.has_area() {
                seq![Command::HandleEvent, Command::Configure(render_state.surface_config)]
            } else {
                seq![Command::HandleEvent]
            },
        )
    }

    /// A close was requested: the loop leaves.
    pub open spec fn on_close(self) -> (EngineView, Seq<Command>) {
        (EngineView { phase: Phase::Exiting, ..self }, seq![Command::HandleEvent, Command::Exit])
    }

    /// Any other event only reaches the user interface.
    pub open spec fn on_input(self) -> (EngineView, Seq<Command>) {
        (self, seq![Command::HandleEvent])
    }

    /// One event, handled at clock `now`. Once the loop has left, nothing is
    /// handled. A frame still pending from an earlier event is given up.
    pub open spec fn dispatch(self, event: Event, now: u64) -> (EngineView, Seq<Command>) {
        if self.phase is Exiting {
            (self, Seq::empty())
        } else {
            let fresh = EngineView { frame_pending: false, ..self };
            match event {
                Event::RedrawRequested => fresh.on_redraw(now),
                Event::MainEventsCleared => fresh.on_idle(),
                Event::UserEvent(RedrawEvent::RequestRedraw) => fresh.on_idle(),
                Event::Resized(size) => fresh.on_resize(size),
                Event::CloseRequested => fresh.on_close(),
                Event::Other => fresh.on_input(),
            }
        }
    }

    /// The surface's answer to a pending frame: the frame's calls. With no
    /// frame pending, nothing.
    pub open spec fn render(self, status: SurfaceStatus) -> (EngineView, Seq<Command>) {
        if self.frame_pending && self.phase is Running {
            (EngineView { frame_pending: false, ..self }, self.render_state.render(status))
        } else {
            (self, Seq::empty())
        }
    }

    /// The engine after a user interface pass of `nanos` nanoseconds.
    pub open spec fn record_ui_time(self, nanos: u64) -> EngineView {
        EngineView { render_state: self.render_state.record_ui_time(nanos), ..self }
    }

    /// One recorded turn: the event, then, if it asked for a frame, the
    /// frame.
    pub open spec fn step(self, stimulus: Stimulus) -> (EngineView, Seq<Command>) {
        let (asked, head) = self.dispatch(stimulus.event, stimulus.now);
        if asked.frame_pending {
            let (drawn, tail) = asked.render(stimulus.surface);
            (drawn.record_ui_time(stimulus.ui_nanos), head + tail)
        } else {
            (asked, head)
        }
    }

    /// A whole recorded run, turn after turn.
    pub open spec fn run(self, script: Seq<Stimulus>) -> (EngineView, Seq<Command>)
        decreases script.len(),
    {
        if script.len() == 0 {
            (self, Seq::empty())
        } else {
            let (next, head) = self.step(script[0]);
            let (last, tail) = next.run(script.drop_first());
            (last, head + tail)
        }
    }

    /// Once the loop has left, a run changes nothing and asks for nothing.
    pub proof fn lemma_run_after_exit(self, script: Seq<Stimulus>)
        requires
            self.phase is Exiting,
            !self.frame_pending,
        ensures
            self.run(script) == (self, Seq::<Command>::empty()),
        decreases script.len(),
    {
        if script.len() > 0 {
            self.lemma_run_after_exit(script.drop_first());
            assert(Seq::<Command>::empty() + Seq::<Command>::empty() =~= Seq::<Command>::empty());
        }
    }
}

/// The engine: the loop's phase, the render state and the frame timing.
#[derive(Debug)]
pub struct Engine {
    phase: Phase,
    render_state: RenderState,
    time: u64,
    start_time: u64,
    frame_delta: u64,
    frame_pending: bool,
}

impl View for Engine {
    type V = EngineView;

    closed spec fn view(&self) -> EngineView {
        EngineView {
            phase: self.phase,
            render_state: self.render_state@,
            time: self.time,
            start_time: self.start_time,
            frame_delta: self.frame_delta,
            frame_pending: self.frame_pending,
        }
    }
}

impl Engine {
    #[verifier::type_invariant]
    pub closed spec fn inv(&self) -> bool {
        self@.wf()
    }

    /// Loads the engine at clock `now`. `window` is the size of the window
    /// that was created, if one was; `gpu` is what the device setup answered.
    pub fn load(window: Option<Size>, gpu: &GpuReport, now: u64) -> (r: Result<Engine, StartupError>)
        ensures
            match r {
                Ok(engine) => EngineView::load(window, *gpu, now) == Ok::<EngineView, StartupError>(
                    engine@,
                ) && engine@.wf(),
                Err(e) => EngineView::load(window, *gpu, now) == Err::<EngineView, StartupError>(e),
            },
    {
        match window {
            None => Err(StartupError::NoWindow),
            Some(size) => match RenderState::new(size, gpu) {
                Ok(render_state) => Ok(
                    Engine {
                        phase: Phase::Running,
                        render_state,
                        time: now,
                        start_time: now,
                        frame_delta: 0,
                        frame_pending: false,
                    },
                ),
                Err(e) => Err(e),
            },
        }
    }

    fn on_redraw(&mut self, now: u64) -> (cmds: Vec<Command>)
        requires
            old(self)@.phase is Running,
        ensures
            (final(self)@, cmds@) == old(self)@.on_redraw(now),
    {
        let mut cmds: Vec<Command> = Vec::new();
        cmds.push(Command::HandleEvent);
        cmds.push(self.render_state.update(self.start_time, now));
        cmds.push(Command::AcquireFrame);
        proof {
            use_type_invariant(&*self);
        }
        self.frame_delta = elapsed_between(self.time, now);
        self.time = now;
        self.frame_pending = true;
        assert(cmds@ =~= old(self)@.on_redraw(now).1);
        cmds
    }

    fn on_idle(&self) -> (cmds: Vec<Command>)
        ensures
            (self@, cmds@) == self@.on_idle(),
    {
        let mut cmds: Vec<Command> = Vec::new();
        cmds.push(Command::HandleEvent);
        cmds.push(Command::RequestRedraw);
        assert(cmds@ =~= self@.on_idle().1);
        cmds
    }

    fn on_resize(&mut self, size: Size) -> (cmds: Vec<Command>)
        ensures
            (final(self)@, cmds@) == old(self)@.on_resize(size),
    {
        proof {
            use_type_invariant(&*self);
        }
        let mut cmds: Vec<Command> = Vec::new();
        cmds.push(Command::HandleEvent);
        match self.render_state.resize(size) {
            Some(config) => {
                cmds.push(Command::Configure(config));
            },
            None => {},
        }
        assert(cmds@ =~= old(self)@.on_resize(size).1);
        cmds
    }

    fn on_close(&mut self) -> (cmds: Vec<Command>)
        requires
            !old(self)@.frame_pending,
        ensures
            (final(self)@, cmds@) == old(self)@.on_close(),
    {
        proof {
            use_type_invariant(&*self);
        }
        let mut cmds: Vec<Command> = Vec::new();
        cmds.push(Command::HandleEvent);
        cmds.push(Command::Exit);
        self.phase = Phase::Exiting;
        assert(cmds@ =~= old(self)@.on_close().1);
        cmds
    }

    fn on_input(&self) -> (cmds: Vec<Command>)
        ensures
            (self@, cmds@) == self@.on_input(),
    {
        let mut cmds: Vec<Command> = Vec::new();
        cmds.push(Command::HandleEvent);
        assert(cmds@ =~= self@.on_input().1);
        cmds
    }

    /// Handles one event at clock `now` and returns the calls it leads to,
    /// in order. A redraw request ends in `AcquireFrame`: the surface's
    /// answer goes to `render`.
    pub fn dispatch(&mut self, event: Event, now: u64) -> (cmds: Vec<Command>)
        ensures
            (final(self)@, cmds@) == old(self)@.dispatch(event, now),
            final(self)@.wf(),
    {
        proof {
            use_type_invariant(&*self);
        }
        match self.phase {
            Phase::Exiting => Vec::new(),
            Phase::Running => {
                self.frame_pending = false;
                match event {
                    Event::RedrawRequested => self.on_redraw(now),
                    Event::MainEventsCleared => self.on_idle(),
                    Event::UserEvent(RedrawEvent::RequestRedraw) => self.on_idle(),
                    Event::Resized(size) => self.on_resize(size),
                    Event::CloseRequested => self.on_close(),
                    Event::Other => self.on_input(),
                }
            },
        }
    }

    /// Takes the surface's answer to `AcquireFrame` and returns the calls of
    /// the frame, in order. With no frame pending it returns nothing.
    pub fn render(&mut self, status: SurfaceStatus) -> (cmds: Vec<Command>)
        ensures
            (final(self)@, cmds@) == old(self)@.render(status),
            final(self)@.wf(),
    {
        proof {
            use_type_invariant(&*self);
        }
        if self.frame_pending {
            self.frame_pending = false;
            self.render_state.render(status)
        } else {
            Vec::new()
        }
    }

    /// Records that the user interface pass of the last frame took `nanos`
    /// nanoseconds.
    pub fn record_ui_time(&mut self, nanos: u64)
        ensures
            final(self)@ == old(self)@.record_ui_time(nanos),
            final(self)@.wf(),
    {
        proof {
            use_type_invariant(&*self);
        }
        self.render_state.record_ui_time(nanos);
    }

    /// Replays one recorded turn and returns all its calls.
    pub fn step(&mut self, stimulus: &Stimulus) -> (cmds: Vec<Command>)
        ensures
            (final(self)@, cmds@) == old(self)@.step(*stimulus),
            final(self)@.wf(),
    {
        let mut cmds = self.dispatch(stimulus.event, stimulus.now);
        if self.frame_pending {
            let mut tail = self.render(stimulus.surface);
            cmds.append(&mut tail);
            self.record_ui_time(stimulus.ui_nanos);
        }
        cmds
    }

    /// Replays a recorded run and returns all its calls. Turns after a
    /// close request are not looked at.
    pub fn run(&mut self, script: &Vec<Stimulus>) -> (cmds: Vec<Command>)
        ensures
            (final(self)@, cmds@) == old(self)@.run(script@),
            final(self)@.wf(),
    {
        let ghost start = self@;
        let mut cmds: Vec<Command> = Vec::new();
        let mut i: usize = 0;
        proof {
            use_type_invariant(&*self);
            assert(script@.skip(0) =~= script@);
            assert(cmds@ + self@.run(script@).1 =~= self@.run(script@).1);
        }
        while i < script.len() && self.is_running()
            invariant
                i <= script.len(),
                self@.wf(),
                start.run(script@) == (
                    self@.run(script@.skip(i as int)).0,
                    cmds@ + self@.run(script@.skip(i as int)).1,
                ),
            decreases script.len() - i,
        {
            let ghost before = self@;
            let ghost sofar = cmds@;
            let ghost rest = script@.skip(i as int);
            let mut turn = self.step(&script[i]);
            cmds.append(&mut turn);
            proof {
                assert(rest[0] == script@[i as int]);
                assert(rest.drop_first() =~= script@.skip(i + 1));
                let next = before.step(rest[0]);
                let last = next.0.run(rest.drop_first());
                assert(before.run(rest) == (last.0, next.1 + last.1));
                assert(sofar + (next.1 + last.1) =~= (sofar + next.1) + last.1);
            }
            i += 1;
        }
        proof {
            let rest = script@.skip(i as int);
            if i == script.len() {
                assert(rest.len() == 0);
            } else {
                self@.lemma_run_after_exit(rest);
            }
            assert(cmds@ + Seq::<Command>::empty() =~= cmds@);
        }
        cmds
    }

    /// Whether the loop still handles events.
    pub fn is_running(&self) -> (r: bool)
        ensures
            r == (self@.phase is Running),
    {
        match self.phase {
            Phase::Running => true,
            Phase::Exiting => false,
        }
    }

    /// Whether a frame was asked for and the surface's answer is not in yet.
    pub fn frame_pending(&self) -> (r: bool)
        ensures
            r == self@.frame_pending,
    {
        self.frame_pending
    }

    /// The configuration the live surface holds.
    pub fn surface_config(&self) -> (config: SurfaceConfig)
        ensures
            config == self@.render_state.surface_config,
            self@.wf(),
    {
        proof {
            use_type_invariant(self);
        }
        self.render_state.surface_config()
    }

    /// The nanoseconds between the last two redraws.
    pub fn frame_delta(&self) -> (nanos: u64)
        ensures
            nanos == self@.frame_delta,
    {
        self.frame_delta
    }

    /// How long the last user interface pass took, in nanoseconds.
    pub fn previous_ui_draw_time(&self) -> (nanos: Option<u64>)
        ensures
            nanos == self@.render_state.previous_ui_draw_time,
    {
        self.render_state.previous_ui_draw_time()
    }
}

} // verus!
