use vstd::prelude::*;

verus! {

/// Failures that the rendering core can report to its caller.
///
/// Creation-phase failures (context, surface, bind) are fatal for the
/// window being set up: no usable rendering context can be returned.
/// Steady-state failures (presenting a frame, later rebinds) are
/// recoverable at the caller's discretion.
#[derive(Clone, Copy, Debug, PartialEq, Eq)]
pub enum RenderingError {
    /// Every context-creation fallback profile was refused by the platform.
    ContextCreationError,
    /// The platform refused to create a drawable surface for the window.
    SurfaceCreationError,
    /// The platform rejected making the context current on a surface.
    ContextBindError,
    /// Presenting a frame failed, either while rebinding to the target
    /// surface or while swapping buffers.
    PresentError,
    /// The platform display advertised no graphics configuration at all.
    NoAvailableConfig,
    /// A resize was requested with a zero width or height.
    InvalidSurfaceSize,
}

}
