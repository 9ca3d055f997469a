use vstd::prelude::*;

verus! {

/// One piece of a path, from the end of the previous piece (or the path's
/// start) to `to`; points are of type `P`.
pub enum PathSegment<P> {
    Linear { to: P },
    Arc { to: P, radii: P },
    QuadraticBezier { to: P, param: P },
    CubicBezier { to: P, params: [P; 2] },
    CatmullRom,
}

impl<P> PathSegment<P> {
    /// Whether the segment names its end point; a Catmull-Rom segment does
    /// not.
    pub open spec fn has_end(self) -> bool {
        !(self is CatmullRom)
    }

    /// The end point of a segment that has one.
    pub open spec fn end(self) -> P
        recommends
            self.has_end(),
    {
        match self {
            PathSegment::Linear { to } => to,
            PathSegment::Arc { to, .. } => to,
            PathSegment::QuadraticBezier { to, .. } => to,
            PathSegment::CubicBezier { to, .. } => to,
            PathSegment::CatmullRom => arbitrary(),
        }
    }

    /// The end point of the segment; a Catmull-Rom segment has none.
    pub fn to(&self) -> (r: &P)
        requires
            self.has_end(),
        ensures
            *r == self.end(),
    {
        match self {
            PathSegment::Linear { to } => to,
            PathSegment::Arc { to, .. } => to,
            PathSegment::QuadraticBezier { to, .. } => to,
            PathSegment::CubicBezier { to, .. } => to,
            PathSegment::CatmullRom => vstd::pervasive::unreached(),
        }
    }
}

/// A path: a start point and the segments that follow it.
pub struct PathNode<P> {
    pub from: P,
    pub segments: Vec<PathSegment<P>>,
}

} // verus!
