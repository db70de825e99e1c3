//! The animation clock's rule for the model orientation.
//!
//! The model spins about two axes at fixed angular rates: 0.5 rad/s about X
//! and 0.7 rad/s about Y. Elapsed time is read from a monotonic clock that
//! starts once and is never reset. With time in milliseconds and angles in
//! microradians both rates are exact integers: 0.5 rad/s is 500 urad/ms and
//! 0.7 rad/s is 700 urad/ms.

use vstd::prelude::*;

verus! {

/// Spin rate about the X axis, in microradians per millisecond (0.5 rad/s).
pub const SPIN_X_URAD_PER_MS: u64 = 500;

/// Spin rate about the Y axis, in microradians per millisecond (0.7 rad/s).
pub const SPIN_Y_URAD_PER_MS: u64 = 700;

/// The model orientation at one instant.
///
/// The model matrix is the rotation about Y by `y_urad` microradians
/// composed after the rotation about X by `x_urad` microradians: the X
/// rotation is applied to the model first, the Y rotation second.
#[derive(Clone, Copy, Debug, PartialEq, Eq, Structural)]
pub struct ModelRotation {
    /// Angle about the X axis, in microradians.
    pub x_urad: u64,
    /// Angle about the Y axis, in microradians.
    pub y_urad: u64,
}

/// The orientation `elapsed_ms` milliseconds after start: both angles grow
/// linearly with time at their fixed rates.
pub open spec fn spec_model_rotation(elapsed_ms: u64) -> ModelRotation {
    ModelRotation {
        x_urad: (SPIN_X_URAD_PER_MS * elapsed_ms) as u64,
        y_urad: (SPIN_Y_URAD_PER_MS * elapsed_ms) as u64,
    }
}

/// Compute the model orientation for the elapsed time of the current frame.
///
/// At `elapsed_ms == 0` both angles are zero: the model starts unrotated.
pub fn model_rotation(elapsed_ms: u64) -> (r: ModelRotation)
    requires
        SPIN_Y_URAD_PER_MS * elapsed_ms <= u64::MAX,
    ensures
        r == spec_model_rotation(elapsed_ms),
        r.x_urad == SPIN_X_URAD_PER_MS * elapsed_ms,
        r.y_urad == SPIN_Y_URAD_PER_MS * elapsed_ms,
{
    ModelRotation { x_urad: SPIN_X_URAD_PER_MS * elapsed_ms, y_urad: SPIN_Y_URAD_PER_MS * elapsed_ms }
}

/// The spin starts at the identity: at elapsed time zero both angles are
/// zero, so the model matrix is the identity.
pub proof fn lemma_spin_starts_at_identity()
    ensures
        spec_model_rotation(0).x_urad == 0,
        spec_model_rotation(0).y_urad == 0,
{
}

/// Both angles grow linearly: the orientation after `t1 + t2` milliseconds
/// is the sum of the angle increments of the two intervals, so the spin
/// rate never drifts over the life of the clock.
pub proof fn lemma_spin_is_linear(t1: u64, t2: u64)
    requires
        t1 + t2 <= u64::MAX,
        SPIN_Y_URAD_PER_MS * (t1 + t2) <= u64::MAX,
    ensures
        spec_model_rotation((t1 + t2) as u64).x_urad == spec_model_rotation(t1).x_urad
            + spec_model_rotation(t2).x_urad,
        spec_model_rotation((t1 + t2) as u64).y_urad == spec_model_rotation(t1).y_urad
            + spec_model_rotation(t2).y_urad,
{
}

} // verus!
