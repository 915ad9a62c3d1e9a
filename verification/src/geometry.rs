//! The geometry that the drawing interface consumes: points, transforms and
//! path elements, as the geometry crate defines them, and the raising of a
//! quadratic segment to a cubic one.
//!
//! Coordinates are real numbers. The library never computes with them: it
//! moves points from path elements into backend calls, and lets the geometry
//! crate do the one computation it needs.

use vstd::prelude::*;
use piet::kurbo::{Affine, CubicBez, PathEl, Point, QuadBez};

verus! {

/// `kurbo::Point`: a point of the plane. Its coordinates are not read here.
#[verifier::external_type_specification]
#[verifier::external_body]
pub struct ExPoint(Point);

/// `kurbo::Affine`: an affine transform of the plane, carried through.
#[verifier::external_type_specification]
#[verifier::external_body]
pub struct ExAffine(Affine);

/// `kurbo::QuadBez`: a quadratic segment by its three points.
#[verifier::external_type_specification]
pub struct ExQuadBez(QuadBez);

/// `kurbo::CubicBez`: a cubic segment by its four points.
#[verifier::external_type_specification]
pub struct ExCubicBez(CubicBez);

/// `kurbo::PathEl`: one element of a path.
#[verifier::external_type_specification]
pub struct ExPathEl(PathEl);

/// The cubic segment that `kurbo::QuadBez::raise` returns for a quadratic one.
pub uninterp spec fn raised(q: QuadBez) -> CubicBez;

/// `kurbo::QuadBez::raise`: the cubic that traces the same curve. The
/// contract only names the result: it is computed from the three points of
/// the quadratic and from nothing else.
pub assume_specification[ QuadBez::raise ](q: &QuadBez) -> (c: CubicBez)
    ensures
        c == raised(*q),
;

/// `Point::default()`: the point that a path starts from when it names none.
#[verifier::external_body]
pub(crate) fn default_point() -> Point {
    Point::default()
}

/// The two inner control points of the cubic that equals the quadratic
/// from `last` by `ctrl` to `end`.
pub open spec fn elevated(last: Point, ctrl: Point, end: Point) -> (Point, Point) {
    let c = raised(QuadBez { p0: last, p1: ctrl, p2: end });
    (c.p1, c.p2)
}

/// Raises the quadratic from `last` by `ctrl` to `end` to a cubic and
/// returns the cubic's two inner control points.
pub fn elevate(last: Point, ctrl: Point, end: Point) -> (r: (Point, Point))
    ensures
        r == elevated(last, ctrl, end),
{
    let q = QuadBez { p0: last, p1: ctrl, p2: end };
    let c = q.raise();
    (c.p1, c.p2)
}

} // verus!
