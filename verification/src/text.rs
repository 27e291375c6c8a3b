//! Glyph outlines as the font reports them: the segments of a contour, the
//! placement of a font point in model space, and contours that collapse to a
//! point.
//!
//! The coordinate type is generic: the font side works in floating point,
//! and the statements below hold for any coordinate type whose arithmetic and
//! equality follow their specifications.

use vstd::prelude::*;
use vstd::std_specs::cmp::PartialEqSpec;
use vstd::std_specs::ops::{MulSpec, NegSpec};
use core::ops::{Mul, Neg};
use crate::boxes::Point3;

verus! {

/// One segment of a glyph contour, continuing from the previous point: a
/// straight line to an end point, a quadratic Bézier through one control
/// point, or a cubic Bézier through two.
#[derive(Clone, Copy, Debug, PartialEq)]
pub enum Segment<T> {
    Line(T, T),
    Quad(T, T, T, T),
    Cubic(T, T, T, T, T, T),
}

/// Places the font point `(x, y)` in model space: both coordinates scaled by
/// `scale`, `y` negated when `flip_y` (fonts whose y axis points down), at
/// height `z`.
pub fn transform_point<T: Copy + Mul<Output = T> + Neg<Output = T>>(
    x: T,
    y: T,
    scale: T,
    flip_y: bool,
    z: T,
) -> (point: Point3<T>)
    requires
        x.mul_req(scale),
        y.mul_req(scale),
        flip_y ==> (T::obeys_mul_spec() && y.mul_spec(scale).neg_req()) || forall|v: T| #[trigger] v.neg_req(),
    ensures
        T::obeys_mul_spec() ==> point.x == x.mul_spec(scale),
        T::obeys_mul_spec() && T::obeys_neg_spec() ==> point.y == if flip_y {
            y.mul_spec(scale).neg_spec()
        } else {
            y.mul_spec(scale)
        },
        point.z == z,
{
    let scaled_y = y.mul(scale);
    let model_y = if flip_y {
        scaled_y.neg()
    } else {
        scaled_y
    };
    Point3 { x: x.mul(scale), y: model_y, z }
}

/// Every point of `segment`, end point and control points, equals `(x, y)`.
pub open spec fn segment_at<T: PartialEq>(segment: Segment<T>, x: T, y: T) -> bool {
    match segment {
        Segment::Line(a, b) => a.eq_spec(&x) && b.eq_spec(&y),
        Segment::Quad(a, b, c, d) => a.eq_spec(&x) && b.eq_spec(&y) && c.eq_spec(&x) && d.eq_spec(&y),
        Segment::Cubic(a, b, c, d, e, f) => a.eq_spec(&x) && b.eq_spec(&y) && c.eq_spec(&x) && d.eq_spec(
            &y,
        ) && e.eq_spec(&x) && f.eq_spec(&y),
    }
}

fn segment_is_at<T: PartialEq + Copy>(segment: &Segment<T>, x: T, y: T) -> (at: bool)
    ensures
        T::obeys_eq_spec() ==> at == segment_at(*segment, x, y),
{
    match segment {
        Segment::Line(a, b) => *a == x && *b == y,
        Segment::Quad(a, b, c, d) => *a == x && *b == y && *c == x && *d == y,
        Segment::Cubic(a, b, c, d, e, f) => *a == x && *b == y && *c == x && *d == y && *e == x && *f == y,
    }
}

/// A contour starting at `(start_x, start_y)` is degenerate when every point
/// of every segment coincides with its start: it collapses to that point and
/// bounds nothing.
pub fn is_degenerate_contour<T: PartialEq + Copy>(
    start_x: T,
    start_y: T,
    segments: &[Segment<T>],
) -> (degenerate: bool)
    ensures
        T::obeys_eq_spec() ==> degenerate == forall|i: int|
            0 <= i < segments@.len() ==> segment_at(#[trigger] segments@[i], start_x, start_y),
{
    let mut i: usize = 0;
    while i < segments.len()
        invariant
            i <= segments@.len(),
            T::obeys_eq_spec() ==> forall|k: int| 0 <= k < i ==> segment_at(#[trigger] segments@[k], start_x, start_y),
        decreases segments.len() - i,
    {
        if !segment_is_at(&segments[i], start_x, start_y) {
            return false;
        }
        i = i + 1;
    }
    true
}

} // verus!
