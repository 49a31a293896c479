//! The drawable capability and the application loop's decisions.
//!
//! The event loop itself belongs to the window system and runs in the
//! unverified shell.  What the core owns is the decision: for each delivered
//! event, which actions the loop must take, in which order.  The shell
//! performs the actions — rendering a frame, reconfiguring the swapchain,
//! requesting a redraw, terminating — exactly as listed.

use crate::matrix::{spec_resolve_mvp, Matrix};
use crate::primitives::TrianglePrimitive;
use crate::common::WindowDimensions;
use crate::render_pass_exec::{DrawCommand, FrameSubmission, RenderPassExecutor};
use crate::rendering_context::RenderingContext;
use crate::scene::Scene;
use vstd::prelude::*;

verus! {

/// Something the scene can draw.  The drawable kinds are a closed set, so the
/// capability is a tagged variant rather than an open interface.
pub enum RenderableObject {
    /// The triangle primitive, with its own pipeline and geometry.
    Triangle(TrianglePrimitive),
    /// A geometry-less drawable that only records its traversal: the
    /// instrumentation stub that draw order and received matrices are
    /// observed with.
    Probe { uuid: u128 },
}

impl RenderableObject {
    /// The drawable's stable identity; equality of drawables is by identity,
    /// not by geometry.
    pub open spec fn spec_uuid(&self) -> u128 {
        match self {
            RenderableObject::Triangle(t) => t.uuid,
            RenderableObject::Probe { uuid } => *uuid,
        }
    }

    /// How many indices the drawable's one indexed draw covers.
    pub open spec fn spec_index_count(&self) -> u32 {
        match self {
            RenderableObject::Triangle(_) => 3,
            RenderableObject::Probe { .. } => 0,
        }
    }

    /// The command the drawable records for one draw with the given matrix.
    pub open spec fn spec_command(&self, mvp: Option<Matrix>) -> DrawCommand {
        DrawCommand {
            drawable: self.spec_uuid(),
            mvp: spec_resolve_mvp(mvp),
            index_count: self.spec_index_count(),
        }
    }

    pub fn get_uuid(&self) -> (r: u128)
        ensures
            r == self.spec_uuid(),
    {
        match self {
            RenderableObject::Triangle(t) => t.get_uuid(),
            RenderableObject::Probe { uuid } => *uuid,
        }
    }

    /// Records the drawable's one draw against the executor: the given matrix
    /// — or the identity, if none is given — becomes the draw's uniform.
    pub fn draw(&self, rp_exec: &mut RenderPassExecutor, mvp: Option<Matrix>)
        ensures
            final(rp_exec).spec_frame() == old(rp_exec).spec_frame(),
            final(rp_exec).spec_commands() == old(rp_exec).spec_commands().push(
                self.spec_command(mvp),
            ),
    {
        match self {
            RenderableObject::Triangle(t) => t.draw(rp_exec, mvp),
            RenderableObject::Probe { uuid } => {
                let m = match mvp {
                    Some(m) => m,
                    None => Matrix::Identity,
                };
                rp_exec.queue_object(DrawCommand { drawable: *uuid, mvp: m, index_count: 0 });
            },
        }
    }
}

/// One window-system event, as the shell reports it.
#[derive(Debug, Clone, Copy, PartialEq, Eq, Structural)]
pub enum LoopEvent {
    /// The window asked to be redrawn.
    RedrawRequested,
    /// The window was resized.
    Resized(WindowDimensions),
    /// The window asked to close.
    CloseRequested,
    /// Anything else; the loop ignores it.
    Other,
}

/// One action the shell must take, in the order listed.
#[derive(Debug, Clone, Copy, PartialEq, Eq, Structural)]
pub enum LoopAction {
    /// Acquire a frame, draw the scene into it, submit and present.
    RenderFrame,
    /// Reconfigure the swapchain for the new window size.
    RecreateSwapchain(WindowDimensions),
    /// Ask the window for a redraw.
    RequestRedraw,
    /// Terminate the process.
    Exit,
}

/// The actions one event calls for: a redraw request renders a frame; a
/// resize reconfigures the swapchain and then asks for a redraw; a close
/// request terminates; everything else does nothing.
pub open spec fn spec_handle_event(event: LoopEvent) -> Seq<LoopAction> {
    match event {
        LoopEvent::RedrawRequested => seq![LoopAction::RenderFrame],
        LoopEvent::Resized(wd) => seq![
            LoopAction::RecreateSwapchain(wd),
            LoopAction::RequestRedraw,
        ],
        LoopEvent::CloseRequested => seq![LoopAction::Exit],
        LoopEvent::Other => Seq::empty(),
    }
}

/// Decides what the application loop does with one event.
pub fn handle_event(event: &LoopEvent) -> (r: Vec<LoopAction>)
    ensures
        r@ == spec_handle_event(*event),
{
    let mut actions: Vec<LoopAction> = Vec::new();
    match event {
        LoopEvent::RedrawRequested => {
            actions.push(LoopAction::RenderFrame);
        },
        LoopEvent::Resized(wd) => {
            actions.push(LoopAction::RecreateSwapchain(*wd));
            actions.push(LoopAction::RequestRedraw);
        },
        LoopEvent::CloseRequested => {
            actions.push(LoopAction::Exit);
        },
        LoopEvent::Other => {},
    }
    assert(actions@ =~= spec_handle_event(*event));
    actions
}

/// One whole frame, as the redraw arm of the loop performs it: acquire the
/// next image, record one draw per scene object in insertion order, and hand
/// the recording back as one atomic submission.
pub fn render_frame(ctx: &RenderingContext, scene: &Scene) -> (r: FrameSubmission)
    requires
        ctx.has_surface(),
    ensures
        r.frame matches Some(f) && f.width == ctx.spec_config().width && f.height
            == ctx.spec_config().height,
        r.commands@ == scene.spec_draw_commands(),
{
    let mut executor = RenderPassExecutor::new(ctx);
    scene.draw(&mut executor);
    executor.submit()
}

} // verus!
