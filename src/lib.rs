//! Paths through 3D space.
//!
//! A [`SpaceTrace`] follows a quadratic or cubic Bezier curve for its
//! position and carries a start and an end rotation. This crate holds the
//! path's data model and its record form: the tagged curve variant, the
//! constructors that assemble a trace from two poses and its control points,
//! and the checks that turn a stored record back into a trace. The point and
//! rotation types are parameters; the numeric evaluation of a trace is left
//! to the caller's choice of real-number type.

pub mod curve;
pub mod poserot;
pub mod trace;

pub use crate::curve::{BezierCurve, CurveKind, DecodeError};
pub use crate::poserot::PoseRot;
pub use crate::trace::{SpaceTrace, TraceRecord, TraceView};
