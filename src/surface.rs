use vstd::prelude::*;

use crate::context::{GraphicsContextState, after_make_current, after_make_not_current};
use crate::error::SurfaceError;

verus! {

/// One piece of outside work in a frame, handed to the caller to perform.
#[derive(Clone, Copy, Debug, PartialEq, Eq, Structural)]
pub enum FrameStep {
    /// Make the graphics context current on this thread.
    MakeCurrent,
    /// Flush any deferred resize notification into the context.
    EnsureResized,
    /// Discard the render target and build one of this size from a freshly
    /// queried framebuffer descriptor.
    RebuildTarget { width: u32, height: u32 },
    /// Obtain the canvas of the current render target.
    AcquireCanvas,
    /// Run the caller's drawing routine on the canvas.
    Draw,
    /// Present the back buffer.
    SwapBuffers,
    /// Release the graphics context.
    MakeNotCurrent,
}

/// Where a surface stands in its frame protocol: `Idle` between frames,
/// otherwise the step that was last handed out and is being performed.
#[derive(Clone, Copy, Debug, PartialEq, Eq, Structural)]
pub enum FramePhase {
    Idle,
    MakingCurrent,
    Resizing,
    Rebuilding,
    Acquiring,
    Drawing,
    Presenting,
    Releasing,
}

/// Abstract state of an [`OpenGLSurface`].
pub struct SurfaceView {
    /// Size the render target was built for.
    pub target_width: u32,
    pub target_height: u32,
    /// How many render targets were built, the initial one included.
    pub rebuilds: u64,
    pub phase: FramePhase,
    /// Drawable size measured when the current (or last) frame began.
    pub frame_width: u32,
    pub frame_height: u32,
    /// Whether the graphics context is current.
    pub current: bool,
}

impl SurfaceView {
    /// The context is current from the moment `MakeCurrent` was performed until
    /// `MakeNotCurrent` was; from the acquisition of the canvas to the end of the
    /// frame the render target has the frame's drawable size.
    pub open spec fn wf(self) -> bool {
        &&& self.current <==> !(self.phase is Idle || self.phase is MakingCurrent)
        &&& (self.phase is Acquiring || self.phase is Drawing || self.phase is Presenting
            || self.phase is Releasing) ==> self.target_width == self.frame_width
            && self.target_height == self.frame_height
    }

    pub open spec fn target_matches_frame(self) -> bool {
        self.target_width == self.frame_width && self.target_height == self.frame_height
    }
}

/// The rebuild counter after one more build; it stops at its maximum.
pub open spec fn bumped(n: u64) -> u64 {
    if n < u64::MAX {
        (n + 1) as u64
    } else {
        n
    }
}

/// Starting a frame whose drawable size was measured as `width` by `height`:
/// refused while another frame is in progress, otherwise the surface goes on to
/// make the context current.
pub open spec fn begin_model(s: SurfaceView, width: u32, height: u32) -> Result<SurfaceView, SurfaceError> {
    if !(s.phase is Idle) {
        Err(SurfaceError::ReentrancyConflict)
    } else {
        Ok(SurfaceView { phase: FramePhase::MakingCurrent, frame_width: width, frame_height: height, ..s })
    }
}

/// The state after the last handed-out step was performed, and the next step
/// to perform (`None` once the frame is over).
pub open spec fn advance_model(s: SurfaceView) -> (SurfaceView, Option<FrameStep>) {
    match s.phase {
        FramePhase::Idle => (s, None),
        FramePhase::MakingCurrent => (
            SurfaceView { phase: FramePhase::Resizing, current: after_make_current(s.current), ..s },
            Some(FrameStep::EnsureResized),
        ),
        FramePhase::Resizing => if s.target_matches_frame() {
            (SurfaceView { phase: FramePhase::Acquiring, ..s }, Some(FrameStep::AcquireCanvas))
        } else {
            (
                SurfaceView { phase: FramePhase::Rebuilding, ..s },
                Some(FrameStep::RebuildTarget { width: s.frame_width, height: s.frame_height }),
            )
        },
        FramePhase::Rebuilding => (
            SurfaceView {
                phase: FramePhase::Acquiring,
                target_width: s.frame_width,
                target_height: s.frame_height,
                rebuilds: bumped(s.rebuilds),
                ..s
            },
            Some(FrameStep::AcquireCanvas),
        ),
        FramePhase::Acquiring => (SurfaceView { phase: FramePhase::Drawing, ..s }, Some(FrameStep::Draw)),
        FramePhase::Drawing => (SurfaceView { phase: FramePhase::Presenting, ..s }, Some(FrameStep::SwapBuffers)),
        FramePhase::Presenting => (SurfaceView { phase: FramePhase::Releasing, ..s }, Some(FrameStep::MakeNotCurrent)),
        FramePhase::Releasing => (
            SurfaceView { phase: FramePhase::Idle, current: after_make_not_current(s.current), ..s },
            None,
        ),
    }
}

/// Performs up to `fuel` steps from `s`: the final state and the steps handed out.
pub open spec fn run_model(s: SurfaceView, fuel: nat) -> (SurfaceView, Seq<FrameStep>)
    decreases fuel,
{
    if fuel == 0 {
        (s, Seq::empty())
    } else {
        let (t, step) = advance_model(s);
        match step {
            None => (t, Seq::empty()),
            Some(x) => {
                let (u, rest) = run_model(t, (fuel - 1) as nat);
                (u, seq![x] + rest)
            },
        }
    }
}

/// A whole frame from an idle surface: the state after it and every step handed
/// out, in order.
pub open spec fn render_model(s: SurfaceView, width: u32, height: u32) -> (SurfaceView, Seq<FrameStep>) {
    match begin_model(s, width, height) {
        Ok(t) => {
            let (u, rest) = run_model(t, 8);
            (u, seq![FrameStep::MakeCurrent] + rest)
        },
        Err(_) => (s, Seq::empty()),
    }
}

/// Frame bookkeeping of a window surface drawn through OpenGL: the size of
/// the render target, how often it was built, whether the graphics context is
/// current and which step of the frame protocol is under way.
///
/// A frame is driven by the caller: `begin_render` with the drawable size
/// measured just before, then each step handed out is performed and `advance`
/// is called for the next, until it returns `None`.
pub struct OpenGLSurface {
    target_width: u32,
    target_height: u32,
    rebuilds: u64,
    phase: FramePhase,
    frame_width: u32,
    frame_height: u32,
    context: GraphicsContextState,
}

impl View for OpenGLSurface {
    type V = SurfaceView;

    closed spec fn view(&self) -> SurfaceView {
        SurfaceView {
            target_width: self.target_width,
            target_height: self.target_height,
            rebuilds: self.rebuilds,
            phase: self.phase,
            frame_width: self.frame_width,
            frame_height: self.frame_height,
            current: self.context@,
        }
    }
}

impl OpenGLSurface {
    /// A surface whose initial render target was built for a drawable of
    /// `width` by `height`, with its context released.
    pub fn new(width: u32, height: u32) -> (r: OpenGLSurface)
        ensures
            r@ == (SurfaceView {
                target_width: width,
                target_height: height,
                rebuilds: 1,
                phase: FramePhase::Idle,
                frame_width: width,
                frame_height: height,
                current: false,
            }),
            r@.wf(),
    {
        OpenGLSurface {
            target_width: width,
            target_height: height,
            rebuilds: 1,
            phase: FramePhase::Idle,
            frame_width: width,
            frame_height: height,
            context: GraphicsContextState::new(),
        }
    }

    /// Starts a frame for a drawable of `width` by `height`, measured just
    /// before. Fails with `ReentrancyConflict`, and changes nothing, while
    /// another frame is in progress; otherwise hands out `MakeCurrent`.
    pub fn begin_render(&mut self, width: u32, height: u32) -> (r: Result<FrameStep, SurfaceError>)
        requires
            old(self)@.wf(),
        ensures
            final(self)@.wf(),
            old(self)@.phase is Idle <==> r is Ok,
            match begin_model(old(self)@, width, height) {
                Ok(t) => r == Ok::<FrameStep, SurfaceError>(FrameStep::MakeCurrent) && final(self)@ == t,
                Err(e) => r == Err::<FrameStep, SurfaceError>(e) && final(self)@ == old(self)@,
            },
    {
        match self.phase {
            FramePhase::Idle => {},
            _ => {
                return Err(SurfaceError::ReentrancyConflict);
            },
        }
        self.phase = FramePhase::MakingCurrent;
        self.frame_width = width;
        self.frame_height = height;
        Ok(FrameStep::MakeCurrent)
    }

    /// Records that the last handed-out step was performed and hands out the
    /// next one; `None` once the frame is over (or when none is in progress).
    pub fn advance(&mut self) -> (r: Option<FrameStep>)
        requires
            old(self)@.wf(),
        ensures
            final(self)@.wf(),
            (final(self)@, r) == advance_model(old(self)@),
    {
        match self.phase {
            FramePhase::Idle => None,
            FramePhase::MakingCurrent => {
                self.context.make_current();
                self.phase = FramePhase::Resizing;
                Some(FrameStep::EnsureResized)
            },
            FramePhase::Resizing => {
                if self.target_width == self.frame_width && self.target_height == self.frame_height {
                    self.phase = FramePhase::Acquiring;
                    Some(FrameStep::AcquireCanvas)
                } else {
                    self.phase = FramePhase::Rebuilding;
                    Some(FrameStep::RebuildTarget { width: self.frame_width, height: self.frame_height })
                }
            },
            FramePhase::Rebuilding => {
                self.target_width = self.frame_width;
                self.target_height = self.frame_height;
                if self.rebuilds < u64::MAX {
                    self.rebuilds = self.rebuilds + 1;
                }
                self.phase = FramePhase::Acquiring;
                Some(FrameStep::AcquireCanvas)
            },
            FramePhase::Acquiring => {
                self.phase = FramePhase::Drawing;
                Some(FrameStep::Draw)
            },
            FramePhase::Drawing => {
                self.phase = FramePhase::Presenting;
                Some(FrameStep::SwapBuffers)
            },
            FramePhase::Presenting => {
                self.phase = FramePhase::Releasing;
                Some(FrameStep::MakeNotCurrent)
            },
            FramePhase::Releasing => {
                self.context.make_not_current();
                self.phase = FramePhase::Idle;
                None
            },
        }
    }

    /// Width and height the render target was built for.
    pub fn target_size(&self) -> (r: (u32, u32))
        ensures
            r == (self@.target_width, self@.target_height),
    {
        (self.target_width, self.target_height)
    }

    /// How many render targets were built, the initial one included.
    pub fn rebuild_count(&self) -> (r: u64)
        ensures
            r == self@.rebuilds,
    {
        self.rebuilds
    }

    pub fn phase(&self) -> (r: FramePhase)
        ensures
            r == self@.phase,
    {
        self.phase
    }

    /// Whether a frame is in progress.
    pub fn is_rendering(&self) -> (r: bool)
        ensures
            r == !(self@.phase is Idle),
    {
        match self.phase {
            FramePhase::Idle => false,
            _ => true,
        }
    }

    /// Whether the graphics context is current.
    pub fn is_context_current(&self) -> (r: bool)
        ensures
            r == self@.current,
    {
        self.context.is_current()
    }

    /// Permission for a GPU operation: granted exactly while the context is
    /// current.
    pub fn check_current(&self) -> (r: Result<(), SurfaceError>)
        ensures
            r is Ok <==> self@.current,
            r is Err ==> r == Err::<(), SurfaceError>(SurfaceError::ContextNotCurrent),
    {
        self.context.check_current()
    }
}

/// The steps of a frame begun on an idle surface, in the order they are
/// handed out: the render target is rebuilt exactly when the measured size
/// differs from the one it was built for.
pub open spec fn frame_steps(s: SurfaceView, width: u32, height: u32) -> Seq<FrameStep> {
    if s.target_width == width && s.target_height == height {
        seq![
            FrameStep::MakeCurrent,
            FrameStep::EnsureResized,
            FrameStep::AcquireCanvas,
            FrameStep::Draw,
            FrameStep::SwapBuffers,
            FrameStep::MakeNotCurrent,
        ]
    } else {
        seq![
            FrameStep::MakeCurrent,
            FrameStep::EnsureResized,
            FrameStep::RebuildTarget { width, height },
            FrameStep::AcquireCanvas,
            FrameStep::Draw,
            FrameStep::SwapBuffers,
            FrameStep::MakeNotCurrent,
        ]
    }
}

/// A frame on an idle surface hands out exactly the steps of `frame_steps`,
/// in that order.
pub proof fn lemma_frame_order(s: SurfaceView, width: u32, height: u32)
    requires
        s.wf(),
        s.phase is Idle,
    ensures
        render_model(s, width, height).1 == frame_steps(s, width, height),
{
    reveal_with_fuel(run_model, 9);
    let t = begin_model(s, width, height)->Ok_0;
    let (u, rest) = run_model(t, 8);
    if s.target_width == width && s.target_height == height {
        assert(rest =~= seq![
            FrameStep::EnsureResized,
            FrameStep::AcquireCanvas,
            FrameStep::Draw,
            FrameStep::SwapBuffers,
            FrameStep::MakeNotCurrent,
        ]);
    } else {
        assert(rest =~= seq![
            FrameStep::EnsureResized,
            FrameStep::RebuildTarget { width, height },
            FrameStep::AcquireCanvas,
            FrameStep::Draw,
            FrameStep::SwapBuffers,
            FrameStep::MakeNotCurrent,
        ]);
    }
    assert(render_model(s, width, height).1 =~= frame_steps(s, width, height));
}

/// After a frame whose drawable size was measured as `width` by `height`, the
/// render target is bound to exactly that size, and the surface is idle and
/// well formed again.
pub proof fn lemma_render_binds_drawable_size(s: SurfaceView, width: u32, height: u32)
    requires
        s.wf(),
        s.phase is Idle,
    ensures
        render_model(s, width, height).0.target_width == width,
        render_model(s, width, height).0.target_height == height,
        render_model(s, width, height).0.phase is Idle,
        render_model(s, width, height).0.wf(),
{
    reveal_with_fuel(run_model, 9);
}

/// A frame rebuilds the render target if and only if the measured drawable
/// size differs from the size the target was built for; the rebuild counter
/// moves by one exactly then, and stays put otherwise.
pub proof fn lemma_rebuild_iff_resized(s: SurfaceView, width: u32, height: u32)
    requires
        s.wf(),
        s.phase is Idle,
    ensures
        (exists|i: int|
            0 <= i < render_model(s, width, height).1.len()
                && #[trigger] render_model(s, width, height).1[i] is RebuildTarget)
            <==> !(s.target_width == width && s.target_height == height),
        render_model(s, width, height).0.rebuilds == if s.target_width == width && s.target_height
            == height {
            s.rebuilds
        } else {
            bumped(s.rebuilds)
        },
{
    reveal_with_fuel(run_model, 9);
    lemma_frame_order(s, width, height);
    let steps = render_model(s, width, height).1;
    if s.target_width == width && s.target_height == height {
        assert(forall|i: int| 0 <= i < steps.len() ==> !(#[trigger] steps[i] is RebuildTarget));
    } else {
        assert(steps[2] is RebuildTarget);
    }
}

/// A finished frame leaves the graphics context released, and making it
/// current again for the next frame is accepted.
pub proof fn lemma_frame_releases_context(s: SurfaceView, width: u32, height: u32, next_width: u32, next_height: u32)
    requires
        s.wf(),
        s.phase is Idle,
    ensures
        !render_model(s, width, height).0.current,
        begin_model(render_model(s, width, height).0, next_width, next_height) is Ok,
{
    reveal_with_fuel(run_model, 9);
}

/// Starting a frame while one is in progress on the same surface, as a
/// drawing routine that renders again would, fails at once with
/// `ReentrancyConflict` and leaves the surface as it was.
pub proof fn lemma_reentrant_render_rejected(s: SurfaceView, width: u32, height: u32)
    requires
        !(s.phase is Idle),
    ensures
        begin_model(s, width, height) == Err::<SurfaceView, SurfaceError>(SurfaceError::ReentrancyConflict),
{
}

/// Every step after `MakeCurrent` is handed out while the context is current,
/// and whenever the drawing routine runs the render target has the frame's
/// drawable size.
pub proof fn lemma_gpu_steps_while_current(s: SurfaceView)
    requires
        s.wf(),
    ensures
        advance_model(s).1 is Some ==> advance_model(s).0.current,
        advance_model(s).1 == Some(FrameStep::Draw) ==> advance_model(s).0.target_matches_frame(),
        advance_model(s).0.wf(),
{
}

/// The state after one frame for each measured drawable size, in order.
pub open spec fn render_all(s: SurfaceView, sizes: Seq<(u32, u32)>) -> SurfaceView
    decreases sizes.len(),
{
    if sizes.len() == 0 {
        s
    } else {
        render_all(render_model(s, sizes[0].0, sizes[0].1).0, sizes.drop_first())
    }
}

/// Whatever sequence of resizes happens between frames, after the last frame
/// the render target has the drawable size measured just before that frame.
pub proof fn lemma_render_all_binds_last_size(s: SurfaceView, sizes: Seq<(u32, u32)>)
    requires
        s.wf(),
        s.phase is Idle,
        sizes.len() > 0,
    ensures
        render_all(s, sizes).target_width == sizes.last().0,
        render_all(s, sizes).target_height == sizes.last().1,
        render_all(s, sizes).phase is Idle,
        render_all(s, sizes).wf(),
    decreases sizes.len(),
{
    let t = render_model(s, sizes[0].0, sizes[0].1).0;
    lemma_render_binds_drawable_size(s, sizes[0].0, sizes[0].1);
    assert(render_all(s, sizes) == render_all(t, sizes.drop_first()));
    if sizes.len() > 1 {
        lemma_render_all_binds_last_size(t, sizes.drop_first());
        assert(sizes.drop_first().last() == sizes.last());
    } else {
        assert(render_all(t, sizes.drop_first()) == t);
    }
}

/// Frames that all measure the size the render target already has never
/// rebuild it: the target and the rebuild counter stay as they were.
pub proof fn lemma_steady_size_never_rebuilds(s: SurfaceView, sizes: Seq<(u32, u32)>)
    requires
        s.wf(),
        s.phase is Idle,
        forall|i: int| 0 <= i < sizes.len() ==> #[trigger] sizes[i] == (s.target_width, s.target_height),
    ensures
        render_all(s, sizes).rebuilds == s.rebuilds,
        render_all(s, sizes).target_width == s.target_width,
        render_all(s, sizes).target_height == s.target_height,
        render_all(s, sizes).phase is Idle,
        render_all(s, sizes).wf(),
    decreases sizes.len(),
{
    if sizes.len() > 0 {
        let t = render_model(s, sizes[0].0, sizes[0].1).0;
        lemma_render_binds_drawable_size(s, sizes[0].0, sizes[0].1);
        lemma_rebuild_iff_resized(s, sizes[0].0, sizes[0].1);
        let rest = sizes.drop_first();
        assert forall|i: int| 0 <= i < rest.len() implies #[trigger] rest[i] == (t.target_width, t.target_height) by {
            assert(rest[i] == sizes[i + 1]);
        }
        lemma_steady_size_never_rebuilds(t, rest);
    }
}

} // verus!
