//! Perspective-projection parameters and the resize rule.
//!
//! The camera projects with a fixed vertical field of view of 45 degrees, a
//! near plane at 0.1 and a far plane at 100.0; only the aspect ratio, the
//! quotient width / height of the drawable size, changes over the life of
//! the application, recomputed on every resize. Plane distances are kept in
//! thousandths so the parameters stay exact integers.

use vstd::prelude::*;

verus! {

/// Fixed vertical field of view, in degrees.
pub const FOV_Y_DEGREES: u32 = 45;

/// Fixed near-plane distance, in thousandths (0.1).
pub const NEAR_PLANE_THOUSANDTHS: u32 = 100;

/// Fixed far-plane distance, in thousandths (100.0).
pub const FAR_PLANE_THOUSANDTHS: u32 = 100_000;

/// The parameters of the perspective projection.
///
/// The aspect ratio is the quotient `width / height`; it is kept as the
/// exact pair rather than a rounded quotient.
#[derive(Clone, Copy, Debug, PartialEq, Eq, Structural)]
pub struct Projection {
    /// Drawable width in pixels; numerator of the aspect ratio.
    pub width: u32,
    /// Drawable height in pixels; denominator of the aspect ratio.
    pub height: u32,
    /// Vertical field of view in degrees; fixed for the whole run.
    pub fov_y_degrees: u32,
    /// Near-plane distance in thousandths; fixed for the whole run.
    pub near_thousandths: u32,
    /// Far-plane distance in thousandths; fixed for the whole run.
    pub far_thousandths: u32,
}

impl Projection {
    /// A projection with positive dimensions and the fixed frustum constants.
    pub open spec fn wf(self) -> bool {
        &&& self.width > 0
        &&& self.height > 0
        &&& self.fov_y_degrees == FOV_Y_DEGREES
        &&& self.near_thousandths == NEAR_PLANE_THOUSANDTHS
        &&& self.far_thousandths == FAR_PLANE_THOUSANDTHS
    }

    /// The projection after a resize to `width` x `height`: the aspect
    /// inputs change, the frustum constants do not.
    pub open spec fn spec_resize(self, width: u32, height: u32) -> Projection {
        Projection { width, height, ..self }
    }

    /// The initial projection for a drawable of `width` x `height` pixels.
    pub fn new(width: u32, height: u32) -> (p: Projection)
        requires
            width > 0,
            height > 0,
        ensures
            p == (Projection {
                width,
                height,
                fov_y_degrees: FOV_Y_DEGREES,
                near_thousandths: NEAR_PLANE_THOUSANDTHS,
                far_thousandths: FAR_PLANE_THOUSANDTHS,
            }),
            p.wf(),
    {
        Projection {
            width,
            height,
            fov_y_degrees: FOV_Y_DEGREES,
            near_thousandths: NEAR_PLANE_THOUSANDTHS,
            far_thousandths: FAR_PLANE_THOUSANDTHS,
        }
    }

    /// Recompute the projection for a new drawable size.
    ///
    /// The aspect ratio becomes `width / height`; field of view, near plane
    /// and far plane keep their values.
    pub fn resize(&mut self, width: u32, height: u32)
        requires
            width > 0,
            height > 0,
        ensures
            *final(self) == old(self).spec_resize(width, height),
            final(self).width == width,
            final(self).height == height,
            final(self).fov_y_degrees == old(self).fov_y_degrees,
            final(self).near_thousandths == old(self).near_thousandths,
            final(self).far_thousandths == old(self).far_thousandths,
            old(self).wf() ==> final(self).wf(),
    {
        self.width = width;
        self.height = height;
    }

    /// The aspect ratio rounded down to thousandths, an exact observable of
    /// the quotient `width / height` that needs no fractional arithmetic.
    pub fn aspect_thousandths(&self) -> (r: u64)
        requires
            self.height > 0,
        ensures
            r == self.width as int * 1000 / self.height as int,
    {
        (self.width as u64) * 1000 / (self.height as u64)
    }
}

/// Resizing changes only the aspect inputs: for every projection and every
/// positive new size, the resized projection has aspect ratio
/// `width / height` while field of view, near plane and far plane are
/// unchanged.
pub proof fn lemma_resize_preserves_frustum(p: Projection, width: u32, height: u32)
    requires
        height > 0,
    ensures
        p.spec_resize(width, height).width == width,
        p.spec_resize(width, height).height == height,
        p.spec_resize(width, height).fov_y_degrees == p.fov_y_degrees,
        p.spec_resize(width, height).near_thousandths == p.near_thousandths,
        p.spec_resize(width, height).far_thousandths == p.far_thousandths,
{
}

} // verus!
