//! The per-frame executor: one acquired swapchain image and the draw commands
//! recorded against it.
//!
//! An executor is short-lived and single-use.  It is created at the start of a
//! frame, accumulates one draw command per drawable in the order the scene
//! queues them, and is consumed by `submit`, which hands the whole recording
//! to the shell as one atomic batch.  The shell replays the commands inside a
//! single render pass — its one color attachment cleared to black — and
//! presents the image; consuming the executor by move is what makes reuse
//! after submission impossible.

use crate::matrix::Matrix;
use crate::rendering_context::{RenderingContext, SurfaceTexture};
use vstd::prelude::*;

verus! {

/// One recorded draw: which drawable to bind, the matrix its uniform holds,
/// and how many indices its indexed draw covers.
#[derive(Debug, PartialEq, Eq)]
pub struct DrawCommand {
    pub drawable: u128,
    pub mvp: Matrix,
    pub index_count: u32,
}

/// A finished frame: the recorded commands, in order, and the image they are
/// to be rasterized into.  `frame` is `None` when the recording was made
/// without a surface and there is nothing to present.
#[derive(Debug, PartialEq, Eq)]
pub struct FrameSubmission {
    pub frame: Option<SurfaceTexture>,
    pub commands: Vec<DrawCommand>,
}

/// The in-progress recording of one frame.
pub struct RenderPassExecutor {
    frame: Option<SurfaceTexture>,
    commands: Vec<DrawCommand>,
}

impl RenderPassExecutor {
    /// The acquired image, if any.
    pub closed spec fn spec_frame(&self) -> Option<SurfaceTexture> {
        self.frame
    }

    /// The commands recorded so far, in the order they were queued.
    pub closed spec fn spec_commands(&self) -> Seq<DrawCommand> {
        self.commands@
    }

    /// Opens a frame: acquires the next presentable image of the context's
    /// surface and starts an empty recording.
    pub fn new(ctx: &RenderingContext) -> (r: Self)
        requires
            ctx.has_surface(),
        ensures
            r.spec_commands() == Seq::<DrawCommand>::empty(),
            r.spec_frame() matches Some(f) && f.width == ctx.spec_config().width && f.height
                == ctx.spec_config().height,
    {
        let frame = ctx.current_frame();
        Self { frame: Some(frame), commands: Vec::new() }
    }

    /// A recording with no acquired image: what a headless context draws
    /// against.  Submitting it yields the commands and nothing to present.
    pub fn headless() -> (r: Self)
        ensures
            r.spec_commands() == Seq::<DrawCommand>::empty(),
            r.spec_frame() is None,
    {
        Self { frame: None, commands: Vec::new() }
    }

    /// Appends one draw command to the recording.
    pub fn queue_object(&mut self, command: DrawCommand)
        ensures
            final(self).spec_frame() == old(self).spec_frame(),
            final(self).spec_commands() == old(self).spec_commands().push(command),
    {
        self.commands.push(command);
    }

    /// Finishes the frame: consumes the executor and hands the shell the
    /// whole recording and the image to present.  No partial submission: the
    /// frame is atomic from the caller's perspective.
    pub fn submit(self) -> (r: FrameSubmission)
        ensures
            r.frame == self.spec_frame(),
            r.commands@ == self.spec_commands(),
    {
        FrameSubmission { frame: self.frame, commands: self.commands }
    }
}

} // verus!
