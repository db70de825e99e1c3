//! The event-driven state machine of the application loop.
//!
//! One thread owns the window, the context and every rendering call; the
//! event source pushes window-system events to the loop one at a time. The
//! loop's whole behaviour is the transition function [`step`]: from the
//! current state and one event to the next state and the single outside
//! action to perform. The runner around the library performs the action —
//! a device call, a frame, an exit — and hands the next event back.
//!
//! A close request moves the loop to its terminal phase at once, whatever
//! else is pending; once terminal, every further event is absorbed without
//! an action, so no frame is rendered and no redraw is requested after a
//! close has been handled.

use vstd::prelude::*;
use crate::projection::Projection;
use crate::renderer::Viewport;

verus! {

/// The lifecycle phase of the loop.
#[derive(Clone, Copy, Debug, PartialEq, Eq, Structural)]
pub enum AppPhase {
    /// Resources are built but the event loop has not started running.
    Idle,
    /// The event loop is running and frames are being produced.
    Rendering,
    /// A close request was handled; terminal, no further event is processed.
    Terminating,
}

/// A window-system event, as the loop sees it.
#[derive(Clone, Copy, Debug, PartialEq, Eq, Structural)]
pub enum AppEvent {
    /// The user asked to close the window.
    CloseRequested,
    /// The drawable size changed to `(width, height)` pixels.
    Resized(u32, u32),
    /// The window system asks for a frame.
    RedrawRequested,
    /// No event is pending; the loop may pace itself.
    IdleTick,
    /// Any other window-system event; ignored.
    Other,
}

/// The single outside action the runner performs after a step.
#[derive(Clone, Copy, Debug, PartialEq, Eq, Structural)]
pub enum AppAction {
    /// Stop the event loop; deliver no further events.
    Exit,
    /// Set the device viewport to this rectangle.
    UpdateViewport(Viewport),
    /// Draw and present one frame: clear, bind the shader, upload the
    /// projection, view and model matrices, draw the mesh, present.
    RenderFrame,
    /// Request another redraw, so the loop runs at the display's cadence.
    RequestRedraw,
    /// Do nothing.
    Ignore,
}

/// The state the application loop owns: its phase, the projection and the
/// viewport, which together must stay consistent with the drawable size.
#[derive(Clone, Copy, Debug, PartialEq, Eq, Structural)]
pub struct AppCore {
    /// Current lifecycle phase.
    pub phase: AppPhase,
    /// Current perspective projection; recomputed on resize.
    pub projection: Projection,
    /// Current device viewport; updated on resize.
    pub viewport: Viewport,
}

impl AppCore {
    /// A consistent loop state: the projection is well formed and matches
    /// the viewport, so every frame is drawn with the aspect ratio of the
    /// surface it is presented on.
    pub open spec fn wf(self) -> bool {
        &&& self.projection.wf()
        &&& self.viewport.x == 0
        &&& self.viewport.y == 0
        &&& self.viewport.width == self.projection.width
        &&& self.viewport.height == self.projection.height
    }

    /// The initial state for a drawable of `width` x `height` pixels.
    pub open spec fn spec_init(width: u32, height: u32) -> AppCore {
        AppCore {
            phase: AppPhase::Idle,
            projection: Projection {
                width,
                height,
                fov_y_degrees: crate::projection::FOV_Y_DEGREES,
                near_thousandths: crate::projection::NEAR_PLANE_THOUSANDTHS,
                far_thousandths: crate::projection::FAR_PLANE_THOUSANDTHS,
            },
            viewport: Viewport::spec_for_size(width, height),
        }
    }

    /// Build the loop state at startup, before the event loop runs.
    pub fn new(width: u32, height: u32) -> (app: AppCore)
        requires
            width > 0,
            height > 0,
        ensures
            app == AppCore::spec_init(width, height),
            app.wf(),
    {
        AppCore {
            phase: AppPhase::Idle,
            projection: Projection::new(width, height),
            viewport: Viewport::for_size(width, height),
        }
    }

    /// Mark the event loop as running: the one step from `Idle` to
    /// `Rendering`, taken when the event source starts delivering. From any
    /// other phase this changes nothing; in particular it cannot leave the
    /// terminal phase.
    pub fn loop_entered(&mut self)
        ensures
            old(self).phase is Idle ==> *final(self) == (AppCore {
                phase: AppPhase::Rendering,
                ..*old(self)
            }),
            !(old(self).phase is Idle) ==> *final(self) == *old(self),
    {
        if let AppPhase::Idle = self.phase {
            self.phase = AppPhase::Rendering;
        }
    }

    /// Process one event: the state after it and the action it demands.
    pub fn handle_event(&mut self, event: AppEvent) -> (action: AppAction)
        ensures
            *final(self) == step(*old(self), event).0,
            action == step(*old(self), event).1,
    {
        if let AppPhase::Terminating = self.phase {
            return AppAction::Ignore;
        }
        match event {
            AppEvent::CloseRequested => {
                self.phase = AppPhase::Terminating;
                AppAction::Exit
            },
            AppEvent::Resized(width, height) => {
                if width > 0 && height > 0 {
                    self.projection.resize(width, height);
                }
                let viewport = Viewport::for_size(width, height);
                self.viewport = viewport;
                AppAction::UpdateViewport(viewport)
            },
            AppEvent::RedrawRequested => AppAction::RenderFrame,
            AppEvent::IdleTick => AppAction::RequestRedraw,
            AppEvent::Other => AppAction::Ignore,
        }
    }
}

/// The transition function of the loop: from a state and one event to the
/// next state and the outside action to perform.
///
/// In the terminal phase every event is absorbed: the state stays and
/// nothing is done. Otherwise a close request terminates; a resize updates
/// the viewport to the full new drawable and, when both dimensions are
/// positive, recomputes the projection for the new aspect ratio; a redraw
/// request produces one frame; an idle tick requests the next redraw; any
/// other event is ignored. No event but a close changes the phase.
pub open spec fn step(pre: AppCore, event: AppEvent) -> (AppCore, AppAction) {
    if pre.phase is Terminating {
        (pre, AppAction::Ignore)
    } else {
        match event {
            AppEvent::CloseRequested => (
                AppCore { phase: AppPhase::Terminating, ..pre },
                AppAction::Exit,
            ),
            AppEvent::Resized(width, height) => (
                AppCore {
                    projection: if width > 0 && height > 0 {
                        pre.projection.spec_resize(width, height)
                    } else {
                        pre.projection
                    },
                    viewport: Viewport::spec_for_size(width, height),
                    ..pre
                },
                AppAction::UpdateViewport(Viewport::spec_for_size(width, height)),
            ),
            AppEvent::RedrawRequested => (pre, AppAction::RenderFrame),
            AppEvent::IdleTick => (pre, AppAction::RequestRedraw),
            AppEvent::Other => (pre, AppAction::Ignore),
        }
    }
}

/// One step of the fixed per-frame order.
#[derive(Clone, Copy, Debug, PartialEq, Eq, Structural)]
pub enum FrameStep {
    /// Clear the color and depth buffers.
    Clear,
    /// Make the shader program the active one.
    BindShader,
    /// Upload the projection matrix.
    SetProjectionMatrix,
    /// Upload the view matrix.
    SetViewMatrix,
    /// Upload the model matrix.
    SetModelMatrix,
    /// Issue the non-indexed triangle draw over all vertices.
    DrawMesh,
    /// Swap buffers to present the frame.
    Present,
}

/// The exact order of one frame: clear, bind, upload the three matrices,
/// draw, present. Correctness of a frame depends on this order — a draw
/// before the bind or an upload after the draw renders with stale state —
/// so the runner takes the order from here rather than fixing it itself.
pub fn frame_plan() -> (steps: Vec<FrameStep>)
    ensures
        steps@ =~= seq![
            FrameStep::Clear,
            FrameStep::BindShader,
            FrameStep::SetProjectionMatrix,
            FrameStep::SetViewMatrix,
            FrameStep::SetModelMatrix,
            FrameStep::DrawMesh,
            FrameStep::Present,
        ],
{
    let mut steps: Vec<FrameStep> = Vec::new();
    steps.push(FrameStep::Clear);
    steps.push(FrameStep::BindShader);
    steps.push(FrameStep::SetProjectionMatrix);
    steps.push(FrameStep::SetViewMatrix);
    steps.push(FrameStep::SetModelMatrix);
    steps.push(FrameStep::DrawMesh);
    steps.push(FrameStep::Present);
    steps
}

/// A close request always terminates: from every state, handling
/// `CloseRequested` leaves the loop in the terminal phase with an `Exit`
/// action, and the projection and viewport are left as they were.
pub proof fn lemma_close_always_terminates(pre: AppCore)
    ensures
        step(pre, AppEvent::CloseRequested).0.phase is Terminating,
        step(pre, AppEvent::CloseRequested).0.projection == pre.projection,
        step(pre, AppEvent::CloseRequested).0.viewport == pre.viewport,
        !(pre.phase is Terminating) ==> step(pre, AppEvent::CloseRequested).1 == AppAction::Exit,
{
}

/// The terminal phase absorbs every event: once the loop is terminating,
/// any further event leaves the state unchanged and demands nothing — no
/// frame, no redraw request.
pub proof fn lemma_terminal_phase_absorbs(pre: AppCore, event: AppEvent)
    requires
        pre.phase is Terminating,
    ensures
        step(pre, event).0 == pre,
        step(pre, event).1 == AppAction::Ignore,
{
}

/// A close request preempts a pending redraw: however the two are ordered
/// by the event source, once the close is handled the pending redraw
/// produces no frame and the loop stays terminal.
pub proof fn lemma_close_preempts_redraw(pre: AppCore)
    ensures
        ({
            let closed = step(pre, AppEvent::CloseRequested).0;
            &&& closed.phase is Terminating
            &&& step(closed, AppEvent::RedrawRequested).1 == AppAction::Ignore
            &&& step(closed, AppEvent::RedrawRequested).0 == closed
        }),
{
}

/// Every step keeps the loop state consistent: from a well-formed state,
/// the projection stays well formed and the viewport keeps matching the
/// projection's drawable size, so resize keeps projection and viewport in
/// lock-step.
pub proof fn lemma_step_preserves_wf(pre: AppCore, event: AppEvent)
    requires
        pre.wf(),
        event matches AppEvent::Resized(width, height) ==> width > 0 && height > 0,
    ensures
        step(pre, event).0.wf(),
{
}

/// What a resize does, spelled out: with positive dimensions the new
/// projection has aspect inputs `width / height` and unchanged frustum
/// constants, the viewport becomes the full new drawable, the phase does
/// not change, and the runner is told to update the device viewport.
pub proof fn lemma_resize_updates_aspect(pre: AppCore, width: u32, height: u32)
    requires
        !(pre.phase is Terminating),
        width > 0,
        height > 0,
    ensures
        ({
            let (post, action) = step(pre, AppEvent::Resized(width, height));
            &&& post.projection.width == width
            &&& post.projection.height == height
            &&& post.projection.fov_y_degrees == pre.projection.fov_y_degrees
            &&& post.projection.near_thousandths == pre.projection.near_thousandths
            &&& post.projection.far_thousandths == pre.projection.far_thousandths
            &&& post.viewport == Viewport::spec_for_size(width, height)
            &&& post.phase == pre.phase
            &&& action == AppAction::UpdateViewport(Viewport::spec_for_size(width, height))
        }),
{
}

} // verus!
