//! What the platform hands the engine loop.

use vstd::prelude::*;
use crate::surface::{Size, SurfaceStatus};

verus! {

/// The event by which code outside the loop asks for a repaint.
#[derive(Clone, Copy, Debug, PartialEq, Eq, Structural)]
pub enum RedrawEvent {
    RequestRedraw,
}

/// A platform event, as far as the loop tells events apart.
#[derive(Clone, Copy, Debug, PartialEq, Eq, Structural)]
pub enum Event {
    /// The windowing layer wants the window drawn.
    RedrawRequested,
    /// All pending events are handled; the loop is about to idle.
    MainEventsCleared,
    /// A repaint signal arrived.
    UserEvent(RedrawEvent),
    /// The window took a new physical size.
    Resized(Size),
    /// The user asked to close the window.
    CloseRequested,
    /// Any other input or window event.
    Other,
}

/// One recorded turn of the loop: an event, the clock when it was handled,
/// and what the host observed if the event led to a frame.
#[derive(Clone, Copy, Debug, PartialEq, Eq, Structural)]
pub struct Stimulus {
    pub event: Event,
    /// The clock reading, in nanoseconds.
    pub now: u64,
    /// What the surface answered when asked for an image.
    pub surface: SurfaceStatus,
    /// How long the user interface pass took, in nanoseconds.
    pub ui_nanos: u64,
}

} // verus!
