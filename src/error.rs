use vstd::prelude::*;

verus! {

/// Failures of the rendering surface.
#[derive(Clone, Copy, Debug, PartialEq, Eq, Structural)]
pub enum SurfaceError {
    /// Queried graphics state cannot describe a render target: the surface
    /// cannot be (re)built.
    SetupFailure,
    /// A frame was started while another frame on the same surface was still
    /// in progress.
    ReentrancyConflict,
    /// A GPU operation was attempted while the graphics context was not current.
    ContextNotCurrent,
}

} // verus!
