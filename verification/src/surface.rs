//! The presentation surface: its configuration, what it answers when asked
//! for a frame, and the single-use handle of an acquired frame.

use vstd::prelude::*;

verus! {

/// Width of the window at startup, in physical pixels.
pub const WIDTH: u32 = 1280;

/// Height of the window at startup, in physical pixels.
pub const HEIGHT: u32 = 720;

/// Usage flag of a texture that a render pass draws into.
pub const RENDER_ATTACHMENT: u32 = 16;

/// A physical size in pixels.
#[derive(Clone, Copy, Debug, PartialEq, Eq, Structural)]
pub struct Size {
    pub width: u32,
    pub height: u32,
}

impl Size {
    /// Whether both dimensions are positive.
    pub open spec fn has_area(self) -> bool {
        self.width > 0 && self.height > 0
    }

    /// Tests whether both dimensions are positive.
    pub fn is_drawable(&self) -> (r: bool)
        ensures
            r == self.has_area(),
    {
        self.width > 0 && self.height > 0
    }
}

/// The pixel formats a surface is asked to present in, in order of preference.
#[derive(Clone, Copy, Debug, PartialEq, Eq, Structural)]
pub enum PixelFormat {
    Bgra8UnormSrgb,
    Rgba8UnormSrgb,
    Bgra8Unorm,
    Rgba8Unorm,
}

/// How presented frames are paced against the display.
#[derive(Clone, Copy, Debug, PartialEq, Eq, Structural)]
pub enum PresentMode {
    /// Present at once; may tear.
    Immediate,
    /// Present the newest frame at the next refresh; never tears.
    Mailbox,
    /// Queue frames and present one per refresh; never tears, bounded rate.
    Fifo,
}

/// What the presentation surface is configured with.
#[derive(Clone, Copy, Debug, PartialEq, Eq, Structural)]
pub struct SurfaceConfig {
    pub usage: u32,
    pub format: PixelFormat,
    pub width: u32,
    pub height: u32,
    pub present_mode: PresentMode,
}

impl SurfaceConfig {
    /// The size of the images this configuration asks for.
    pub open spec fn extent(self) -> Size {
        Size { width: self.width, height: self.height }
    }

    /// Whether this configuration has the size of a window of size `window`.
    /// A configuration that does not is stale.
    pub open spec fn matches(self, window: Size) -> bool {
        self.extent() == window
    }

    /// The configuration a surface starts with: images of the window's size,
    /// drawn into by render passes, presented one per display refresh.
    pub open spec fn initial(size: Size, format: PixelFormat) -> SurfaceConfig {
        SurfaceConfig {
            usage: RENDER_ATTACHMENT,
            format,
            width: size.width,
            height: size.height,
            present_mode: PresentMode::Fifo,
        }
    }

    /// This configuration with another size and nothing else changed.
    pub open spec fn with_extent(self, size: Size) -> SurfaceConfig {
        SurfaceConfig { width: size.width, height: size.height, ..self }
    }

    /// Builds the configuration a surface starts with.
    pub fn for_window(size: Size, format: PixelFormat) -> (config: SurfaceConfig)
        ensures
            config == Self::initial(size, format),
    {
        SurfaceConfig {
            usage: RENDER_ATTACHMENT,
            format,
            width: size.width,
            height: size.height,
            present_mode: PresentMode::Fifo,
        }
    }

    /// Says whether this configuration has the size of the window.
    pub fn is_current(&self, window: Size) -> (r: bool)
        ensures
            r == self.matches(window),
    {
        self.width == window.width && self.height == window.height
    }
}

/// What a presentation surface answers when asked for its next image.
#[derive(Clone, Copy, Debug, PartialEq, Eq, Structural)]
pub enum SurfaceStatus {
    /// An image is ready.
    Good,
    /// No image became free in time.
    Timeout,
    /// The surface has changed under its configuration.
    Outdated,
    /// The swap chain is lost.
    Lost,
    /// No memory is left for a new image.
    OutOfMemory,
}

/// Why no frame was acquired.
#[derive(Clone, Copy, Debug, PartialEq, Eq, Structural)]
pub enum AcquireError {
    /// The configuration is stale: skip this frame and try at the next cycle.
    Outdated,
    /// Any other failure: the frame is reported as dropped and skipped.
    Other,
}

/// The error that a surface's answer amounts to, if any.
pub open spec fn acquire_error(status: SurfaceStatus) -> Option<AcquireError> {
    match status {
        SurfaceStatus::Good => None,
        SurfaceStatus::Outdated => Some(AcquireError::Outdated),
        _ => Some(AcquireError::Other),
    }
}

/// A surface keeps faith with its window when, on a working device, it
/// answers `Outdated` exactly if its configuration is stale, and `Good`
/// otherwise.
pub open spec fn faithful(status: SurfaceStatus, config: SurfaceConfig, window: Size) -> bool {
    if config.matches(window) {
        status == SurfaceStatus::Good
    } else {
        status == SurfaceStatus::Outdated
    }
}

/// One acquired presentable image. It is neither `Clone` nor `Copy`:
/// presenting consumes it.
#[derive(Debug)]
pub struct FrameHandle {
    extent: Size,
}

impl View for FrameHandle {
    type V = Size;

    /// The size of the acquired image.
    closed spec fn view(&self) -> Size {
        self.extent
    }
}

impl FrameHandle {
    /// Turns a surface's answer into a frame handle or the reason there is
    /// none. `extent` is the size the surface is configured with.
    pub fn acquire(status: SurfaceStatus, extent: Size) -> (r: Result<FrameHandle, AcquireError>)
        ensures
            match r {
                Ok(frame) => acquire_error(status) is None && frame@ == extent,
                Err(e) => acquire_error(status) == Some(e),
            },
    {
        match status {
            SurfaceStatus::Good => Ok(FrameHandle { extent }),
            SurfaceStatus::Outdated => Err(AcquireError::Outdated),
            _ => Err(AcquireError::Other),
        }
    }

    /// The size of the acquired image.
    pub fn extent(&self) -> (size: Size)
        ensures
            size == self@,
    {
        self.extent
    }
}

} // verus!
