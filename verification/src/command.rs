//! The calls the engine asks its host to make, in the order it asks for them.

use vstd::prelude::*;
use crate::surface::{Size, SurfaceConfig, SurfaceStatus};

verus! {

/// One call on the window, the user interface or the graphics device.
#[derive(Clone, Copy, Debug, PartialEq, Eq, Structural)]
pub enum Command {
    /// Hand the current event to the user interface's input handler.
    HandleEvent,
    /// Ask the windowing layer for a redraw.
    RequestRedraw,
    /// Apply this configuration to the live surface.
    Configure(SurfaceConfig),
    /// Set the user interface's clock to this many nanoseconds since start.
    UpdateTime(u64),
    /// Ask the surface for its next image and report its answer.
    AcquireFrame,
    /// Report a frame dropped for this reason on the error stream.
    ReportDropped(SurfaceStatus),
    /// Open a user interface frame.
    BeginFrame,
    /// Build the widgets of this frame.
    RunUi,
    /// Close the user interface frame and tessellate what it drew.
    EndFrame,
    /// Record the render pass that draws the interface onto an image of
    /// this size.
    Rasterize(Size),
    /// Submit the recorded commands to the queue.
    Submit,
    /// Present the acquired image.
    Present,
    /// Leave the event loop.
    Exit,
}

/// How many times `c` occurs in `cmds`.
pub open spec fn occurrences(cmds: Seq<Command>, c: Command) -> nat
    decreases cmds.len(),
{
    if cmds.len() == 0 {
        0
    } else {
        occurrences(cmds.drop_last(), c) + if cmds.last() == c { 1nat } else { 0nat }
    }
}

/// One more call at the end counts once if it is `c`, and not otherwise.
pub proof fn lemma_occurrences_push(cmds: Seq<Command>, last: Command, c: Command)
    ensures
        occurrences(cmds.push(last), c) == occurrences(cmds, c) + if last == c { 1nat } else { 0nat },
{
    assert(cmds.push(last).drop_last() =~= cmds);
}

/// Occurrences add up over concatenation.
pub proof fn lemma_occurrences_concat(a: Seq<Command>, b: Seq<Command>, c: Command)
    ensures
        occurrences(a + b, c) == occurrences(a, c) + occurrences(b, c),
    decreases b.len(),
{
    if b.len() == 0 {
        assert(a + b =~= a);
    } else {
        assert((a + b).drop_last() =~= a + b.drop_last());
        lemma_occurrences_concat(a, b.drop_last(), c);
    }
}

} // verus!
