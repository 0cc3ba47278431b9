//! The curve a trace follows, as a tagged variant over its control points.

use vstd::prelude::*;

verus! {

/// Which Bezier curve a trace follows.
#[derive(Clone, Copy, Debug, PartialEq, Eq, Structural)]
pub enum CurveKind {
    /// Three control points.
    Quadratic,
    /// Four control points.
    Cubic,
}

/// Whether two strings hold the same characters.
pub fn str_equals(a: &str, b: &str) -> (r: bool)
    ensures
        r == (a@ == b@),
{
    let n = a.unicode_len();
    if n != b.unicode_len() {
        return false;
    }
    let mut i: usize = 0;
    while i < n
        invariant
            n == a@.len(),
            n == b@.len(),
            0 <= i <= n,
            a@.subrange(0, i as int) == b@.subrange(0, i as int),
        decreases n - i,
    {
        if a.get_char(i) != b.get_char(i) {
            return false;
        }
        assert(a@.subrange(0, i + 1) == a@.subrange(0, i as int).push(a@[i as int]));
        assert(b@.subrange(0, i + 1) == b@.subrange(0, i as int).push(b@[i as int]));
        i = i + 1;
    }
    assert(a@ == a@.subrange(0, n as int));
    assert(b@ == b@.subrange(0, n as int));
    true
}

impl CurveKind {
    /// The number of control points of a curve of this kind.
    pub open spec fn spec_point_count(self) -> nat {
        match self {
            CurveKind::Quadratic => 3,
            CurveKind::Cubic => 4,
        }
    }

    /// The tag that names this kind in a stored record.
    pub open spec fn spec_name(self) -> Seq<char> {
        match self {
            CurveKind::Quadratic => "quadratic"@,
            CurveKind::Cubic => "cubic"@,
        }
    }

    /// The kind that a stored tag names, if any.
    pub open spec fn spec_from_name(s: Seq<char>) -> Option<CurveKind> {
        if s == "quadratic"@ {
            Some(CurveKind::Quadratic)
        } else if s == "cubic"@ {
            Some(CurveKind::Cubic)
        } else {
            None
        }
    }

    pub fn point_count(&self) -> (n: usize)
        ensures
            n == self.spec_point_count(),
    {
        match self {
            CurveKind::Quadratic => 3,
            CurveKind::Cubic => 4,
        }
    }

    pub fn name(&self) -> (s: &'static str)
        ensures
            s@ == self.spec_name(),
    {
        match self {
            CurveKind::Quadratic => "quadratic",
            CurveKind::Cubic => "cubic",
        }
    }

    pub fn from_name(s: &str) -> (r: Option<CurveKind>)
        ensures
            r == CurveKind::spec_from_name(s@),
    {
        if str_equals(s, "quadratic") {
            Some(CurveKind::Quadratic)
        } else if str_equals(s, "cubic") {
            Some(CurveKind::Cubic)
        } else {
            None
        }
    }
}

/// Why a stored record could not be turned back into a trace.
#[derive(Clone, Copy, Debug, PartialEq, Eq, Structural)]
pub enum DecodeError {
    /// The curve tag names no known kind of curve.
    UnknownKind,
    /// The number of control points does not fit the kind of curve.
    PointCount { kind: CurveKind, found: usize },
}

/// A Bezier curve in 3D space, given by its control points.
///
/// A quadratic curve evaluates at progress `k` to
/// `(1-k)^2 start + 2k(1-k) ctrl + k^2 end`, a cubic one to
/// `(1-k)^3 start + 3k(1-k)^2 ctrl0 + 3k^2(1-k) ctrl1 + k^3 end`.
#[derive(Clone, Copy, Debug, PartialEq, Eq)]
pub enum BezierCurve<P> {
    Quadratic { start: P, ctrl: P, end: P },
    Cubic { start: P, ctrl0: P, ctrl1: P, end: P },
}

impl<P> BezierCurve<P> {
    pub open spec fn spec_kind(self) -> CurveKind {
        match self {
            BezierCurve::Quadratic { .. } => CurveKind::Quadratic,
            BezierCurve::Cubic { .. } => CurveKind::Cubic,
        }
    }

    /// The control points in order, from the start point to the end point.
    pub open spec fn spec_points(self) -> Seq<P> {
        match self {
            BezierCurve::Quadratic { start, ctrl, end } => seq![start, ctrl, end],
            BezierCurve::Cubic { start, ctrl0, ctrl1, end } => seq![start, ctrl0, ctrl1, end],
        }
    }

    /// The curve of the given kind through the given control points, or
    /// the reason why there is none.
    pub open spec fn spec_from_points(kind: CurveKind, points: Seq<P>) -> Result<
        BezierCurve<P>,
        DecodeError,
    > {
        if points.len() != kind.spec_point_count() {
            Err(DecodeError::PointCount { kind, found: points.len() as usize })
        } else {
            match kind {
                CurveKind::Quadratic => Ok(
                    BezierCurve::Quadratic { start: points[0], ctrl: points[1], end: points[2] },
                ),
                CurveKind::Cubic => Ok(
                    BezierCurve::Cubic {
                        start: points[0],
                        ctrl0: points[1],
                        ctrl1: points[2],
                        end: points[3],
                    },
                ),
            }
        }
    }

    /// The curve that a stored tag and list of control points describe.
    pub open spec fn spec_decode(tag: Seq<char>, points: Seq<P>) -> Result<
        BezierCurve<P>,
        DecodeError,
    > {
        match CurveKind::spec_from_name(tag) {
            None => Err(DecodeError::UnknownKind),
            Some(kind) => BezierCurve::spec_from_points(kind, points),
        }
    }

    pub fn kind(&self) -> (k: CurveKind)
        ensures
            k == self.spec_kind(),
    {
        match self {
            BezierCurve::Quadratic { .. } => CurveKind::Quadratic,
            BezierCurve::Cubic { .. } => CurveKind::Cubic,
        }
    }

    /// The control points in order, from the start point to the end point.
    pub fn into_points(self) -> (v: Vec<P>)
        ensures
            v@ == self.spec_points(),
    {
        let ghost points = self.spec_points();
        let mut v: Vec<P> = Vec::new();
        match self {
            BezierCurve::Quadratic { start, ctrl, end } => {
                v.push(start);
                v.push(ctrl);
                v.push(end);
            },
            BezierCurve::Cubic { start, ctrl0, ctrl1, end } => {
                v.push(start);
                v.push(ctrl0);
                v.push(ctrl1);
                v.push(end);
            },
        }
        assert(v@ =~= points);
        v
    }

    /// The curve of the given kind through the given control points; fails
    /// when their number is not the one that the kind asks for.
    pub fn from_points(kind: CurveKind, points: Vec<P>) -> (r: Result<BezierCurve<P>, DecodeError>)
        ensures
            r == BezierCurve::spec_from_points(kind, points@),
    {
        let mut points = points;
        let ghost given = points@;
        if points.len() != kind.point_count() {
            return Err(DecodeError::PointCount { kind, found: points.len() });
        }
        match kind {
            CurveKind::Quadratic => {
                let end = points.pop().unwrap();
                let ctrl = points.pop().unwrap();
                let start = points.pop().unwrap();
                Ok(BezierCurve::Quadratic { start, ctrl, end })
            },
            CurveKind::Cubic => {
                let end = points.pop().unwrap();
                let ctrl1 = points.pop().unwrap();
                let ctrl0 = points.pop().unwrap();
                let start = points.pop().unwrap();
                Ok(BezierCurve::Cubic { start, ctrl0, ctrl1, end })
            },
        }
    }

    /// The curve that a stored tag and list of control points describe;
    /// fails on an unknown tag or on a wrong number of points.
    pub fn decode(tag: &str, points: Vec<P>) -> (r: Result<BezierCurve<P>, DecodeError>)
        ensures
            r == BezierCurve::spec_decode(tag@, points@),
    {
        match CurveKind::from_name(tag) {
            None => Err(DecodeError::UnknownKind),
            Some(kind) => BezierCurve::from_points(kind, points),
        }
    }
}

/// Reading back the tag of a kind gives that kind.
pub proof fn lemma_name_round_trip(k: CurveKind)
    ensures
        CurveKind::spec_from_name(k.spec_name()) == Some(k),
{
    reveal_strlit("quadratic");
    reveal_strlit("cubic");
    if k == CurveKind::Cubic {
        assert("cubic"@.len() != "quadratic"@.len());
    }
}

/// Decoding the tag and the control points of a curve gives that curve back.
pub proof fn lemma_decode_encoded<P>(c: BezierCurve<P>)
    ensures
        BezierCurve::spec_decode(c.spec_kind().spec_name(), c.spec_points()) == Ok::<
            BezierCurve<P>,
            DecodeError,
        >(c),
{
    lemma_name_round_trip(c.spec_kind());
}

/// A curve decoded from a tag and a list of points has that tag and exactly
/// those points.
pub proof fn lemma_encode_decoded<P>(tag: Seq<char>, points: Seq<P>, c: BezierCurve<P>)
    requires
        BezierCurve::spec_decode(tag, points) == Ok::<BezierCurve<P>, DecodeError>(c),
    ensures
        c.spec_kind().spec_name() == tag,
        c.spec_points() == points,
{
    reveal_strlit("quadratic");
    reveal_strlit("cubic");
    assert(c.spec_points() =~= points);
}

} // verus!
