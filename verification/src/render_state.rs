//! The render state: the surface's configuration, kept in step with the
//! window, and the calls that make up one frame.

use vstd::prelude::*;
use crate::command::Command;
use crate::surface::{
    acquire_error, AcquireError, FrameHandle, PixelFormat, PresentMode, Size, SurfaceConfig,
    SurfaceStatus, RENDER_ATTACHMENT,
};

verus! {

/// What the graphics backend answered while the device was set up.
#[derive(Clone, Copy, Debug, PartialEq, Eq, Structural)]
pub struct GpuReport {
    /// An adapter compatible with the surface was found.
    pub adapter_found: bool,
    /// The adapter granted a device and a queue.
    pub device_granted: bool,
    /// The format the surface prefers with this adapter, if it has one.
    pub preferred_format: Option<PixelFormat>,
}

/// Why the engine cannot start.
#[derive(Clone, Copy, Debug, PartialEq, Eq, Structural)]
pub enum StartupError {
    /// The window could not be created.
    NoWindow,
    /// No adapter is compatible with the surface.
    NoAdapter,
    /// The adapter granted no device.
    NoDevice,
    /// The surface supports no format with this adapter.
    NoSurfaceFormat,
    /// The window has no area, so no surface can be configured for it.
    ZeroArea,
}

/// Nanoseconds from `since` to `now`; zero if `now` is the earlier one.
pub open spec fn elapsed(since: u64, now: u64) -> u64 {
    if now >= since {
        (now - since) as u64
    } else {
        0
    }
}

/// Computes the nanoseconds from `since` to `now`.
pub fn elapsed_between(since: u64, now: u64) -> (d: u64)
    ensures
        d == elapsed(since, now),
{
    if now >= since {
        now - since
    } else {
        0
    }
}

/// The calls of one user interface pass.
pub open spec fn ui_pass() -> Seq<Command> {
    seq![Command::BeginFrame, Command::RunUi, Command::EndFrame]
}

/// The calls that draw onto an acquired image of size `extent` and show it.
pub open spec fn present_pass(extent: Size) -> Seq<Command> {
    seq![Command::Rasterize(extent), Command::Submit, Command::Present]
}

/// What a render state is, as a value.
pub struct RenderView {
    /// The last size with an area that the window had.
    pub size: Size,
    /// The configuration the live surface holds.
    pub surface_config: SurfaceConfig,
    /// How long the last user interface pass took, in nanoseconds.
    pub previous_ui_draw_time: Option<u64>,
    /// An acquired image is held: it was neither presented nor given up yet.
    pub frame_acquired: bool,
}

impl RenderView {
    /// The configuration has an area and the size on record, and keeps the
    /// usage and the pacing it started with.
    pub open spec fn wf(self) -> bool {
        &&& self.size.has_area()
        &&& self.surface_config.matches(self.size)
        &&& self.surface_config.usage == RENDER_ATTACHMENT
        &&& self.surface_config.present_mode == PresentMode::Fifo
    }

    /// The outcome of setting up for a window of size `size`.
    pub open spec fn startup(size: Size, gpu: GpuReport) -> Result<RenderView, StartupError> {
        if !gpu.adapter_found {
            Err(StartupError::NoAdapter)
        } else if !gpu.device_granted {
            Err(StartupError::NoDevice)
        } else if gpu.preferred_format is None {
            Err(StartupError::NoSurfaceFormat)
        } else if !size.has_area() {
            Err(StartupError::ZeroArea)
        } else {
            Ok(
                RenderView {
                    size,
                    surface_config: SurfaceConfig::initial(size, gpu.preferred_format->0),
                    previous_ui_draw_time: None,
                    frame_acquired: false,
                },
            )
        }
    }

    /// The state after the window took the size `new_size`: with an area,
    /// the configuration follows it; without, nothing changes.
    pub open spec fn resize(self, new_size: Size) -> RenderView {
        if new_size.has_area() {
            RenderView {
                size: new_size,
                surface_config: self.surface_config.with_extent(new_size),
                ..self
            }
        } else {
            self
        }
    }

    /// The state after a user interface pass that took `nanos` nanoseconds.
    pub open spec fn record_ui_time(self, nanos: u64) -> RenderView {
        RenderView { previous_ui_draw_time: Some(nanos), ..self }
    }

    /// The state after the surface answered `status` to a request for an
    /// image: the image is held if there is one.
    pub open spec fn acquire(self, status: SurfaceStatus) -> RenderView {
        RenderView { frame_acquired: acquire_error(status) is None, ..self }
    }

    /// The state after the held image was presented or given up.
    pub open spec fn release(self) -> RenderView {
        RenderView { frame_acquired: false, ..self }
    }

    /// The calls of one frame, given the surface's answer: always one user
    /// interface pass; drawing and presenting only onto an acquired image; a
    /// report for every failure but a stale configuration.
    pub open spec fn render(self, status: SurfaceStatus) -> Seq<Command> {
        match acquire_error(status) {
            None => ui_pass() + present_pass(self.surface_config.extent()),
            Some(AcquireError::Outdated) => ui_pass(),
            Some(AcquireError::Other) => seq![Command::ReportDropped(status)] + ui_pass(),
        }
    }
}

/// The surface's configuration and the timing of the interface.
#[derive(Debug)]
pub struct RenderState {
    size: Size,
    surface_config: SurfaceConfig,
    previous_ui_draw_time: Option<u64>,
    frame_acquired: bool,
}

impl View for RenderState {
    type V = RenderView;

    closed spec fn view(&self) -> RenderView {
        RenderView {
            size: self.size,
            surface_config: self.surface_config,
            previous_ui_draw_time: self.previous_ui_draw_time,
            frame_acquired: self.frame_acquired,
        }
    }
}

impl RenderState {
    #[verifier::type_invariant]
    pub closed spec fn inv(&self) -> bool {
        self@.wf()
    }

    /// Sets up the render state for a window of size `size`, or says which
    /// step of the device's setup makes it impossible.
    pub fn new(size: Size, gpu: &GpuReport) -> (r: Result<RenderState, StartupError>)
        ensures
            match r {
                Ok(state) => RenderView::startup(size, *gpu) == Ok::<RenderView, StartupError>(
                    state@,
                ) && state@.wf(),
                Err(e) => RenderView::startup(size, *gpu) == Err::<RenderView, StartupError>(e),
            },
    {
        if !gpu.adapter_found {
            return Err(StartupError::NoAdapter);
        }
        if !gpu.device_granted {
            return Err(StartupError::NoDevice);
        }
        match gpu.preferred_format {
            None => Err(StartupError::NoSurfaceFormat),
            Some(format) => {
                if !size.is_drawable() {
                    Err(StartupError::ZeroArea)
                } else {
                    Ok(
                        RenderState {
                            size,
                            surface_config: SurfaceConfig::for_window(size, format),
                            previous_ui_draw_time: None,
                            frame_acquired: false,
                        },
                    )
                }
            },
        }
    }

    /// Follows the window to `new_size`. With an area, the configuration
    /// takes the new size and is returned, to be applied to the live surface
    /// before the next frame is acquired. Without, nothing changes.
    ///
    /// No acquired image may be held: a surface cannot be configured anew
    /// under one.
    pub fn resize(&mut self, new_size: Size) -> (applied: Option<SurfaceConfig>)
        requires
            !old(self)@.frame_acquired,
        ensures
            final(self)@ == old(self)@.resize(new_size),
            final(self)@.wf(),
            new_size.has_area() ==> applied == Some(final(self)@.surface_config),
            !new_size.has_area() ==> applied is None,
        no_unwind
    {
        proof {
            use_type_invariant(&*self);
        }
        if new_size.width > 0 && new_size.height > 0 {
            let config = SurfaceConfig {
                usage: self.surface_config.usage,
                format: self.surface_config.format,
                width: new_size.width,
                height: new_size.height,
                present_mode: self.surface_config.present_mode,
            };
            *self = RenderState {
                size: new_size,
                surface_config: config,
                previous_ui_draw_time: self.previous_ui_draw_time,
                frame_acquired: self.frame_acquired,
            };
            Some(config)
        } else {
            None
        }
    }

    /// The call that sets the interface's clock at `now`, for an engine
    /// started at `start_time`.
    pub fn update(&self, start_time: u64, now: u64) -> (c: Command)
        ensures
            c == Command::UpdateTime(elapsed(start_time, now)),
    {
        Command::UpdateTime(elapsed_between(start_time, now))
    }

    /// Turns the surface's answer into a frame handle of the configured
    /// size, which is then held, or into the reason there is none.
    ///
    /// The image acquired before must have been presented or given up.
    pub fn acquire_frame(&mut self, status: SurfaceStatus) -> (r: Result<FrameHandle, AcquireError>)
        requires
            !old(self)@.frame_acquired,
        ensures
            final(self)@ == old(self)@.acquire(status),
            final(self)@.wf(),
            match r {
                Ok(frame) => acquire_error(status) is None && frame@
                    == old(self)@.surface_config.extent(),
                Err(e) => acquire_error(status) == Some(e),
            },
    {
        proof {
            use_type_invariant(&*self);
        }
        let acquired = FrameHandle::acquire(
            status,
            Size { width: self.surface_config.width, height: self.surface_config.height },
        );
        self.frame_acquired = acquired.is_ok();
        acquired
    }

    /// The calls that draw onto `frame` and show it. The handle is used up,
    /// and no image is held any more.
    pub fn submit_and_present(&mut self, frame: FrameHandle) -> (cmds: Vec<Command>)
        requires
            old(self)@.frame_acquired,
        ensures
            final(self)@ == old(self)@.release(),
            final(self)@.wf(),
            cmds@ == present_pass(frame@),
    {
        proof {
            use_type_invariant(&*self);
        }
        self.frame_acquired = false;
        present_calls(frame)
    }

    /// Gives up `frame` without presenting it. No image is held any more.
    pub fn abandon(&mut self, frame: FrameHandle)
        requires
            old(self)@.frame_acquired,
        ensures
            final(self)@ == old(self)@.release(),
            final(self)@.wf(),
    {
        proof {
            use_type_invariant(&*self);
        }
        let _given_up = frame;
        self.frame_acquired = false;
    }

    /// The calls of one frame, given what the surface answered when asked
    /// for an image. An image that was acquired is presented within the
    /// frame, so none is held before or after.
    pub fn render(&self, status: SurfaceStatus) -> (cmds: Vec<Command>)
        requires
            !self@.frame_acquired,
        ensures
            cmds@ == self@.render(status),
    {
        let mut cmds: Vec<Command> = Vec::new();
        let acquired = FrameHandle::acquire(
            status,
            Size { width: self.surface_config.width, height: self.surface_config.height },
        );
        if let Err(AcquireError::Other) = acquired {
            cmds.push(Command::ReportDropped(status));
        }
        let ghost head = cmds@;
        cmds.push(Command::BeginFrame);
        cmds.push(Command::RunUi);
        cmds.push(Command::EndFrame);
        assert(cmds@ =~= head + ui_pass());
        match acquired {
            Ok(frame) => {
                let mut tail = present_calls(frame);
                cmds.append(&mut tail);
                assert(cmds@ =~= ui_pass() + present_pass(self@.surface_config.extent()));
            },
            Err(AcquireError::Outdated) => {
                assert(cmds@ =~= ui_pass());
            },
            Err(AcquireError::Other) => {
                assert(cmds@ =~= seq![Command::ReportDropped(status)] + ui_pass());
            },
        }
        cmds
    }

    /// Records that the last user interface pass took `nanos` nanoseconds.
    pub fn record_ui_time(&mut self, nanos: u64)
        ensures
            final(self)@ == old(self)@.record_ui_time(nanos),
            final(self)@.wf(),
        no_unwind
    {
        proof {
            use_type_invariant(&*self);
        }
        *self = RenderState {
            size: self.size,
            surface_config: self.surface_config,
            previous_ui_draw_time: Some(nanos),
            frame_acquired: self.frame_acquired,
        };
    }

    /// The last size with an area that the window had.
    pub fn size(&self) -> (size: Size)
        ensures
            size == self@.size,
    {
        self.size
    }

    /// The configuration the live surface holds.
    pub fn surface_config(&self) -> (config: SurfaceConfig)
        ensures
            config == self@.surface_config,
            self@.wf(),
    {
        proof {
            use_type_invariant(self);
        }
        self.surface_config
    }

    /// How long the last user interface pass took, in nanoseconds.
    pub fn previous_ui_draw_time(&self) -> (nanos: Option<u64>)
        ensures
            nanos == self@.previous_ui_draw_time,
    {
        self.previous_ui_draw_time
    }

    /// Whether an acquired image is held.
    pub fn frame_acquired(&self) -> (held: bool)
        ensures
            held == self@.frame_acquired,
    {
        self.frame_acquired
    }
}

fn present_calls(frame: FrameHandle) -> (cmds: Vec<Command>)
    ensures
        cmds@ == present_pass(frame@),
{
    let mut cmds: Vec<Command> = Vec::new();
    cmds.push(Command::Rasterize(frame.extent()));
    cmds.push(Command::Submit);
    cmds.push(Command::Present);
    assert(cmds@ =~= present_pass(frame@));
    cmds
}

} // verus!
