use vstd::prelude::*;

use crate::error::SurfaceError;

verus! {

/// Whether the windowing-system graphics context is current on the calling
/// thread. GPU work that touches the context is only allowed while it is.
pub struct GraphicsContextState {
    current: bool,
}

impl View for GraphicsContextState {
    type V = bool;

    closed spec fn view(&self) -> bool {
        self.current
    }
}

impl GraphicsContextState {
    /// A freshly created context is not current.
    pub fn new() -> (r: GraphicsContextState)
        ensures
            r@ == false,
    {
        GraphicsContextState { current: false }
    }

    /// Records that the context was made current. Making an already current
    /// context current again is allowed and keeps it current.
    pub fn make_current(&mut self)
        ensures
            final(self)@ == after_make_current(old(self)@),
    {
        self.current = true;
    }

    /// Records that the context was released by the calling thread.
    pub fn make_not_current(&mut self)
        ensures
            final(self)@ == after_make_not_current(old(self)@),
    {
        self.current = false;
    }

    pub fn is_current(&self) -> (r: bool)
        ensures
            r == self@,
    {
        self.current
    }

    /// Permission for a GPU operation bound to this context: granted exactly
    /// while the context is current.
    pub fn check_current(&self) -> (r: Result<(), SurfaceError>)
        ensures
            r is Ok <==> self@,
            r is Err ==> r == Err::<(), SurfaceError>(SurfaceError::ContextNotCurrent),
    {
        if self.current {
            Ok(())
        } else {
            Err(SurfaceError::ContextNotCurrent)
        }
    }
}

/// Currency of the context after it was made current.
pub open spec fn after_make_current(current: bool) -> bool {
    true
}

/// Currency of the context after the calling thread released it.
pub open spec fn after_make_not_current(current: bool) -> bool {
    false
}

/// Making the context current and releasing it again, with nothing in between,
/// leaves it not current, whatever state it started in; making it current once
/// more then succeeds and grants GPU access again.
pub proof fn lemma_current_cycle(start: bool)
    ensures
        !after_make_not_current(after_make_current(start)),
        after_make_current(after_make_not_current(after_make_current(start))),
{
}

} // verus!
