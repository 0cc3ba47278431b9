//! A position paired with a rotation.

use vstd::prelude::*;

verus! {

/// An object in space: where it stands and which way it looks.
///
/// Whoever builds one from real numbers keeps `rotation` a unit quaternion:
/// it is normalised wherever a rotation is bound into a pose or produced by
/// adding two of them.
#[derive(Clone, Copy, Debug, PartialEq, Eq)]
pub struct PoseRot<P, Q> {
    /// Position in space.
    pub pose: P,
    /// Rotation.
    pub rotation: Q,
}

} // verus!
