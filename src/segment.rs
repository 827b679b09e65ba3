use vstd::prelude::*;

verus! {

/// A straight trail element running from `from` to `to`.
///
/// `P` is the point type of the geometry the trail is drawn in.
#[derive(Clone, Copy, Debug)]
pub struct Line<P> {
    pub from: P,
    pub to: P,
}

/// A circular trail element: it starts at `from`, which lies on the circle of
/// `center` and `radius`, and sweeps the signed `angle` around `center`.
///
/// `S` is the scalar type of the geometry (radii and angles).
#[derive(Clone, Copy, Debug)]
pub struct Arc<P, S> {
    pub from: P,
    pub center: P,
    pub radius: S,
    pub angle: S,
}

/// One element of a trail.
#[derive(Clone, Copy, Debug)]
pub enum Segment<P, S> {
    Line(Line<P>),
    Arc(Arc<P, S>),
}

impl<P: Copy, S: Copy> Segment<P, S> {
    pub fn is_line(&self) -> (r: bool)
        ensures
            r == (*self is Line),
    {
        match self {
            Segment::Line(_) => true,
            Segment::Arc(_) => false,
        }
    }

    pub fn is_arc(&self) -> (r: bool)
        ensures
            r == (*self is Arc),
    {
        match self {
            Segment::Line(_) => false,
            Segment::Arc(_) => true,
        }
    }

    /// The arc this segment is, if it is one.
    pub fn as_arc(&self) -> (r: Option<Arc<P, S>>)
        ensures
            r == (match *self {
                Segment::Line(_) => None,
                Segment::Arc(a) => Some(a),
            }),
    {
        match self {
            Segment::Line(_) => None,
            Segment::Arc(a) => Some(*a),
        }
    }

    /// The line this segment is, if it is one.
    pub fn as_line(&self) -> (r: Option<Line<P>>)
        ensures
            r == (match *self {
                Segment::Line(l) => Some(l),
                Segment::Arc(_) => None,
            }),
    {
        match self {
            Segment::Line(l) => Some(*l),
            Segment::Arc(_) => None,
        }
    }
}

} // verus!
