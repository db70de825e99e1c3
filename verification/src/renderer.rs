//! Viewport bookkeeping for the renderer.
//!
//! The renderer is the single point of contact with the device for per-frame
//! state changes: clear, draw, present, and the viewport update after a
//! resize. The device calls themselves happen outside the library; the
//! library fixes what they are called with, here the viewport rectangle a
//! drawable size maps to.

use vstd::prelude::*;

verus! {

/// An RGBA color in thousandths per channel, so the fixed palette of the
/// engine stays exact.
#[derive(Clone, Copy, Debug, PartialEq, Eq, Structural)]
pub struct ClearColor {
    /// Red, in thousandths.
    pub r_thousandths: u16,
    /// Green, in thousandths.
    pub g_thousandths: u16,
    /// Blue, in thousandths.
    pub b_thousandths: u16,
    /// Alpha, in thousandths.
    pub a_thousandths: u16,
}

/// The fixed background color: a dark teal, (0.2, 0.3, 0.3, 1.0).
pub open spec fn spec_clear_color() -> ClearColor {
    ClearColor { r_thousandths: 200, g_thousandths: 300, b_thousandths: 300, a_thousandths: 1000 }
}

/// The fixed background color: a dark teal, (0.2, 0.3, 0.3, 1.0).
pub fn clear_color() -> (c: ClearColor)
    ensures
        c == spec_clear_color(),
{
    ClearColor { r_thousandths: 200, g_thousandths: 300, b_thousandths: 300, a_thousandths: 1000 }
}

/// One step of the one-time device setup at renderer construction.
#[derive(Clone, Copy, Debug, PartialEq, Eq, Structural)]
pub enum RenderSetupStep {
    /// Enable depth testing.
    EnableDepthTest,
    /// Enable culling of back faces.
    EnableBackFaceCulling,
    /// Set the clear color used by every frame's clear.
    SetClearColor(ClearColor),
}

/// The fixed rendering state, established once when the renderer is built
/// and never toggled afterwards: depth testing on, back faces culled, and
/// the teal clear color.
pub fn setup_plan() -> (steps: Vec<RenderSetupStep>)
    ensures
        steps@ =~= seq![
            RenderSetupStep::EnableDepthTest,
            RenderSetupStep::EnableBackFaceCulling,
            RenderSetupStep::SetClearColor(spec_clear_color()),
        ],
{
    let mut steps: Vec<RenderSetupStep> = Vec::new();
    steps.push(RenderSetupStep::EnableDepthTest);
    steps.push(RenderSetupStep::EnableBackFaceCulling);
    steps.push(RenderSetupStep::SetClearColor(clear_color()));
    steps
}

/// A viewport rectangle in pixels, anchored at the origin of the drawable.
#[derive(Clone, Copy, Debug, PartialEq, Eq, Structural)]
pub struct Viewport {
    /// Left edge; always 0 for this engine.
    pub x: u32,
    /// Bottom edge; always 0 for this engine.
    pub y: u32,
    /// Width in pixels.
    pub width: u32,
    /// Height in pixels.
    pub height: u32,
}

impl Viewport {
    /// The viewport a drawable of `width` x `height` pixels maps to.
    pub open spec fn spec_for_size(width: u32, height: u32) -> Viewport {
        Viewport { x: 0, y: 0, width, height }
    }

    /// The viewport to establish after a resize to `width` x `height`:
    /// the full drawable, `(0, 0, width, height)`.
    pub fn for_size(width: u32, height: u32) -> (v: Viewport)
        ensures
            v == Viewport::spec_for_size(width, height),
    {
        Viewport { x: 0, y: 0, width, height }
    }
}

} // verus!
