//! Context-builder handle.
//!
//! Building the rendering context resolves the device's function pointers
//! through the window's display and must happen after the context is made
//! current; that resolution is device work and happens outside the library.
//! The builder itself is a plain value that marks the construction step in
//! the startup order: context current, then device handle built, then
//! shader and mesh created, then the loop entered.

use vstd::prelude::*;

verus! {

/// Builder for the rendering context of a window.
#[derive(Clone, Copy, Debug, PartialEq, Eq, Structural)]
pub struct GlContextBuilder;

impl GlContextBuilder {
    /// Create a new context builder.
    pub fn new() -> (b: GlContextBuilder)
        ensures
            b == GlContextBuilder,
    {
        GlContextBuilder
    }
}

} // verus!
