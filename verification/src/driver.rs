use vstd::prelude::*;

verus! {

/// The ways presenting a frame can fail, as the library's decision rule
/// reads them.
#[derive(Debug, Clone, Copy, PartialEq, Eq, Structural)]
pub enum SurfaceErrorKind {
    /// Acquiring the next frame timed out.
    Timeout,
    /// The surface no longer matches its target and must be updated.
    Outdated,
    /// The surface was lost and must be recreated.
    Lost,
    /// No memory is left for a new frame.
    OutOfMemory,
}

/// What the frame loop does in response to a failed frame.
#[derive(Debug, Clone, Copy, PartialEq, Eq, Structural)]
pub enum FrameAction {
    /// Reconfigure the surface at its current size and try again next
    /// frame.
    Reconfigure,
    /// Stop the loop: the condition is not recoverable.
    Exit,
    /// Skip this frame; the next one is expected to resolve it.
    SkipFrame,
}

/// The frame loop's recovery rule: a lost surface is reconfigured, running
/// out of memory ends the loop, everything else is resolved by the next
/// frame.
pub open spec fn spec_surface_error_action(k: SurfaceErrorKind) -> FrameAction {
    match k {
        SurfaceErrorKind::Lost => FrameAction::Reconfigure,
        SurfaceErrorKind::OutOfMemory => FrameAction::Exit,
        SurfaceErrorKind::Timeout => FrameAction::SkipFrame,
        SurfaceErrorKind::Outdated => FrameAction::SkipFrame,
    }
}

/// Decides how the frame loop answers a failed frame; exactly the
/// recovery rule above.
pub fn surface_error_action(k: SurfaceErrorKind) -> (r: FrameAction)
    ensures
        r == spec_surface_error_action(k),
{
    match k {
        SurfaceErrorKind::Lost => FrameAction::Reconfigure,
        SurfaceErrorKind::OutOfMemory => FrameAction::Exit,
        SurfaceErrorKind::Timeout => FrameAction::SkipFrame,
        SurfaceErrorKind::Outdated => FrameAction::SkipFrame,
    }
}

/// Decides whether a window resize is applied to the surface: only sizes
/// with both dimensions positive are; a degenerate size is ignored.
pub fn accept_resize(width: u32, height: u32) -> (r: Option<(u32, u32)>)
    ensures
        r == if width > 0 && height > 0 {
            Some((width, height))
        } else {
            None::<(u32, u32)>
        },
{
    if width > 0 && height > 0 {
        Some((width, height))
    } else {
        None
    }
}

} // verus!
