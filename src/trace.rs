//! A path through 3D space: a curve for the position, and the rotations at
//! its two ends between which the orientation is interpolated.

use vstd::prelude::*;

use crate::curve::{BezierCurve, DecodeError};
use crate::poserot::PoseRot;

verus! {

/// What a [`SpaceTrace`] holds: its curve and its start and end rotations.
pub struct TraceView<P, Q> {
    pub curve: BezierCurve<P>,
    pub start_quat: Q,
    pub end_quat: Q,
}

impl<P, Q> TraceView<P, Q> {
    /// The tag that names the kind of curve in a stored record.
    pub open spec fn spec_tag(self) -> Seq<char> {
        self.curve.spec_kind().spec_name()
    }

    /// The control points as a stored record lists them.
    pub open spec fn spec_points(self) -> Seq<P> {
        self.curve.spec_points()
    }

    /// The trace that the fields of a stored record describe, or the reason
    /// why there is none.
    pub open spec fn spec_decode(tag: Seq<char>, points: Seq<P>, start_quat: Q, end_quat: Q) -> Result<
        TraceView<P, Q>,
        DecodeError,
    > {
        match BezierCurve::spec_decode(tag, points) {
            Ok(curve) => Ok(TraceView { curve, start_quat, end_quat }),
            Err(e) => Err(e),
        }
    }
}

/// A path through 3D space, with a rotation at each end.
///
/// Evaluated at progress `k`, the position is the curve's point at `k`, and
/// the rotation the spherical linear interpolation from `start_quat` to
/// `end_quat` at `k`, along the shorter arc.
#[derive(Clone, Copy, Debug, PartialEq, Eq)]
pub struct SpaceTrace<P, Q> {
    curve: BezierCurve<P>,
    start_quat: Q,
    end_quat: Q,
}

impl<P, Q> View for SpaceTrace<P, Q> {
    type V = TraceView<P, Q>;

    closed spec fn view(&self) -> TraceView<P, Q> {
        TraceView { curve: self.curve, start_quat: self.start_quat, end_quat: self.end_quat }
    }
}

/// The record form of a trace: the curve's tag and control points, and the
/// two end rotations.
pub struct TraceRecord<P, Q> {
    /// `"quadratic"` or `"cubic"`.
    pub kind: String,
    /// Three control points for a quadratic curve, four for a cubic one.
    pub points: Vec<P>,
    pub start_quat: Q,
    pub end_quat: Q,
}

impl<P, Q> SpaceTrace<P, Q> {
    /// A trace along the cubic curve from `start`'s position through the
    /// two control points to `end`'s position, turning from `start`'s
    /// rotation to `end`'s.
    pub fn new_cubic_bezier(
        start: PoseRot<P, Q>,
        control_1: P,
        control_2: P,
        end: PoseRot<P, Q>,
    ) -> (t: Self)
        ensures
            t@ == (TraceView {
                curve: BezierCurve::Cubic {
                    start: start.pose,
                    ctrl0: control_1,
                    ctrl1: control_2,
                    end: end.pose,
                },
                start_quat: start.rotation,
                end_quat: end.rotation,
            }),
    {
        SpaceTrace {
            curve: BezierCurve::Cubic {
                start: start.pose,
                ctrl0: control_1,
                ctrl1: control_2,
                end: end.pose,
            },
            start_quat: start.rotation,
            end_quat: end.rotation,
        }
    }

    /// A trace along the quadratic curve from `start`'s position through
    /// the control point to `end`'s position, turning from `start`'s
    /// rotation to `end`'s.
    pub fn new_quadratic_bezier(start: PoseRot<P, Q>, control: P, end: PoseRot<P, Q>) -> (t: Self)
        ensures
            t@ == (TraceView {
                curve: BezierCurve::Quadratic { start: start.pose, ctrl: control, end: end.pose },
                start_quat: start.rotation,
                end_quat: end.rotation,
            }),
    {
        SpaceTrace {
            curve: BezierCurve::Quadratic { start: start.pose, ctrl: control, end: end.pose },
            start_quat: start.rotation,
            end_quat: end.rotation,
        }
    }

    pub fn curve(&self) -> (c: &BezierCurve<P>)
        ensures
            *c == self@.curve,
    {
        &self.curve
    }

    pub fn start_quat(&self) -> (q: &Q)
        ensures
            *q == self@.start_quat,
    {
        &self.start_quat
    }

    pub fn end_quat(&self) -> (q: &Q)
        ensures
            *q == self@.end_quat,
    {
        &self.end_quat
    }

    /// The record form of this trace.
    pub fn into_record(self) -> (r: TraceRecord<P, Q>)
        ensures
            r.kind@ == self@.spec_tag(),
            r.points@ == self@.spec_points(),
            r.start_quat == self@.start_quat,
            r.end_quat == self@.end_quat,
    {
        let kind = self.curve.kind().name().to_owned();
        TraceRecord {
            kind,
            points: self.curve.into_points(),
            start_quat: self.start_quat,
            end_quat: self.end_quat,
        }
    }

    /// The trace that a record describes; fails when its tag names no kind
    /// of curve, or when the number of its points does not fit that kind.
    pub fn from_record(record: TraceRecord<P, Q>) -> (r: Result<SpaceTrace<P, Q>, DecodeError>)
        ensures
            match TraceView::spec_decode(
                record.kind@,
                record.points@,
                record.start_quat,
                record.end_quat,
            ) {
                Ok(v) => r matches Ok(t) && t@ == v,
                Err(e) => r == Err::<SpaceTrace<P, Q>, DecodeError>(e),
            },
    {
        let TraceRecord { kind, points, start_quat, end_quat } = record;
        match BezierCurve::decode(kind.as_str(), points) {
            Ok(curve) => Ok(SpaceTrace { curve, start_quat, end_quat }),
            Err(e) => Err(e),
        }
    }
}

/// Two traces that hold the same curve and the same end rotations are the
/// same trace.
pub proof fn lemma_view_determines_trace<P, Q>(a: SpaceTrace<P, Q>, b: SpaceTrace<P, Q>)
    requires
        a@ == b@,
    ensures
        a == b,
{
}

/// Decoding the record of a trace succeeds and gives back the same curve,
/// control points and variant tag included, and the same end rotations.
pub proof fn lemma_record_round_trip<P, Q>(t: SpaceTrace<P, Q>)
    ensures
        TraceView::spec_decode(t@.spec_tag(), t@.spec_points(), t@.start_quat, t@.end_quat) == Ok::<
            TraceView<P, Q>,
            DecodeError,
        >(t@),
{
    crate::curve::lemma_decode_encoded(t@.curve);
}

/// A trace decoded from a record has exactly that record's tag, control
/// points and end rotations.
pub proof fn lemma_decoded_record<P, Q>(
    tag: Seq<char>,
    points: Seq<P>,
    start_quat: Q,
    end_quat: Q,
    v: TraceView<P, Q>,
)
    requires
        TraceView::spec_decode(tag, points, start_quat, end_quat) == Ok::<
            TraceView<P, Q>,
            DecodeError,
        >(v),
    ensures
        v.spec_tag() == tag,
        v.spec_points() == points,
        v.start_quat == start_quat,
        v.end_quat == end_quat,
{
    crate::curve::lemma_encode_decoded(tag, points, v.curve);
}

} // verus!
