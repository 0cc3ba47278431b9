use spacetrace::{BezierCurve, DecodeError, PoseRot, SpaceTrace, TraceRecord};
use vek::{Quaternion, Vec3};

fn scenario_ends() -> (PoseRot<Vec3<f64>, Quaternion<f64>>, PoseRot<Vec3<f64>, Quaternion<f64>>) {
    let start = PoseRot { pose: Vec3::zero(), rotation: Quaternion::identity() };
    let end = PoseRot {
        pose: Vec3::new(4.0, 4.0, 4.0),
        rotation: Quaternion::from_xyzw(0.545, -0.039, 0.572, 0.612),
    };
    (start, end)
}

#[test]
fn quadratic_trace_layout() {
    let (start, end) = scenario_ends();
    let st = SpaceTrace::new_quadratic_bezier(start, Vec3::new(2.0, 6.0, 3.0), end);
    assert_eq!(
        *st.curve(),
        BezierCurve::Quadratic {
            start: Vec3::zero(),
            ctrl: Vec3::new(2.0, 6.0, 3.0),
            end: Vec3::new(4.0, 4.0, 4.0),
        }
    );
    assert_eq!(*st.start_quat(), Quaternion::identity());
    assert_eq!(*st.end_quat(), Quaternion::from_xyzw(0.545, -0.039, 0.572, 0.612));
}

#[test]
fn cubic_trace_layout() {
    let (start, end) = scenario_ends();
    let st = SpaceTrace::new_cubic_bezier(
        start,
        Vec3::new(2.0, 6.0, 3.0),
        Vec3::new(4.0, 6.0, 3.0),
        end,
    );
    assert_eq!(
        *st.curve(),
        BezierCurve::Cubic {
            start: Vec3::zero(),
            ctrl0: Vec3::new(2.0, 6.0, 3.0),
            ctrl1: Vec3::new(4.0, 6.0, 3.0),
            end: Vec3::new(4.0, 4.0, 4.0),
        }
    );
    assert_eq!(*st.start_quat(), Quaternion::identity());
    assert_eq!(*st.end_quat(), Quaternion::from_xyzw(0.545, -0.039, 0.572, 0.612));
}

#[test]
fn cubic_record_fields() {
    let (start, end) = scenario_ends();
    let st = SpaceTrace::new_cubic_bezier(
        start,
        Vec3::new(2.0, 6.0, 3.0),
        Vec3::new(4.0, 6.0, 3.0),
        end,
    );
    let r = st.into_record();
    assert_eq!(r.kind, "cubic");
    assert_eq!(
        r.points,
        vec![
            Vec3::zero(),
            Vec3::new(2.0, 6.0, 3.0),
            Vec3::new(4.0, 6.0, 3.0),
            Vec3::new(4.0, 4.0, 4.0),
        ]
    );
    assert_eq!(r.start_quat, Quaternion::identity());
    assert_eq!(r.end_quat, Quaternion::from_xyzw(0.545, -0.039, 0.572, 0.612));
}

#[test]
fn quadratic_record_round_trip() {
    let (start, end) = scenario_ends();
    let st = SpaceTrace::new_quadratic_bezier(start, Vec3::new(2.0, 6.0, 3.0), end);
    let r = st.clone().into_record();
    assert_eq!(r.kind, "quadratic");
    assert_eq!(r.points.len(), 3);
    assert_eq!(SpaceTrace::from_record(r), Ok(st));
}

#[test]
fn cubic_record_round_trip() {
    let (start, end) = scenario_ends();
    let st = SpaceTrace::new_cubic_bezier(
        start,
        Vec3::new(2.0, 6.0, 3.0),
        Vec3::new(4.0, 6.0, 3.0),
        end,
    );
    assert_eq!(SpaceTrace::from_record(st.clone().into_record()), Ok(st));
}

#[test]
fn record_with_unknown_kind() {
    let r = TraceRecord {
        kind: String::from("linear"),
        points: vec![1, 2, 3],
        start_quat: 0,
        end_quat: 1,
    };
    assert_eq!(SpaceTrace::from_record(r), Err(DecodeError::UnknownKind));
}

#[test]
fn record_with_wrong_point_count() {
    let r = TraceRecord {
        kind: String::from("quadratic"),
        points: vec![1, 2, 3, 4],
        start_quat: 0,
        end_quat: 1,
    };
    assert_eq!(
        SpaceTrace::from_record(r),
        Err(DecodeError::PointCount { kind: spacetrace::CurveKind::Quadratic, found: 4 })
    );
}

#[test]
fn record_decodes_to_its_fields() {
    let r = TraceRecord {
        kind: String::from("cubic"),
        points: vec![5, 6, 7, 8],
        start_quat: 10,
        end_quat: 20,
    };
    let st = SpaceTrace::from_record(r).unwrap();
    assert_eq!(*st.curve(), BezierCurve::Cubic { start: 5, ctrl0: 6, ctrl1: 7, end: 8 });
    assert_eq!(*st.start_quat(), 10);
    assert_eq!(*st.end_quat(), 20);
}
