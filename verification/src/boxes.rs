//! Axis-aligned boxes and the certified box of a solid.
//!
//! Which face of a solid has a certified box, and what that box is, is
//! decided on the geometry by the caller. This module combines the verdicts:
//! the solid's box is the union of its faces' boxes, and there is none as
//! soon as one face has none.
//!
//! The coordinate type is generic. The statements about values hold for any
//! coordinate type whose comparison follows its specification; the laws about
//! enclosure need, besides, that the comparison be a total order.

use vstd::prelude::*;
use vstd::std_specs::cmp::PartialOrdSpec;
use core::cmp::Ordering;

verus! {

/// A point in model space.
#[derive(Clone, Copy, Debug, PartialEq)]
pub struct Point3<T> {
    pub x: T,
    pub y: T,
    pub z: T,
}

/// An axis-aligned box, from its lower corner to its upper corner.
#[derive(Clone, Copy, Debug, PartialEq)]
pub struct BoundingBox<T> {
    pub min: Point3<T>,
    pub max: Point3<T>,
}

/// `a` compares below `b`.
pub open spec fn below<T: PartialOrd>(a: T, b: T) -> bool {
    a.partial_cmp_spec(&b) == Some(Ordering::Less)
}

/// `a` compares below `b` or equal to it.
pub open spec fn at_most<T: PartialOrd>(a: T, b: T) -> bool {
    a.partial_cmp_spec(&b) matches Some(Ordering::Less | Ordering::Equal)
}

/// The lesser of two coordinates: `b` when it compares below `a`, else `a`.
pub open spec fn lesser<T: PartialOrd>(a: T, b: T) -> T {
    if below(b, a) {
        b
    } else {
        a
    }
}

/// The greater of two coordinates: `b` when `a` compares below it, else `a`.
pub open spec fn greater<T: PartialOrd>(a: T, b: T) -> T {
    if below(a, b) {
        b
    } else {
        a
    }
}

/// `T`'s comparison behaves as its specification says.
pub open spec fn comparison_specified<T: PartialOrd>() -> bool {
    T::obeys_partial_cmp_spec()
}

/// `T`'s comparison is a total order.
pub open spec fn totally_ordered<T: PartialOrd>() -> bool {
    &&& comparison_specified::<T>()
    &&& forall|a: T, b: T| #[trigger] at_most(a, b) || at_most(b, a)
    &&& forall|a: T, b: T| #[trigger] below(a, b) <==> !at_most(b, a)
    &&& forall|a: T, b: T, c: T| #[trigger] at_most(a, b) && #[trigger] at_most(b, c) ==> at_most(a, c)
}

/// The lower corner of two corners, coordinate by coordinate.
pub open spec fn lower_corner<T: PartialOrd>(p: Point3<T>, q: Point3<T>) -> Point3<T> {
    Point3 { x: lesser(p.x, q.x), y: lesser(p.y, q.y), z: lesser(p.z, q.z) }
}

/// The upper corner of two corners, coordinate by coordinate.
pub open spec fn upper_corner<T: PartialOrd>(p: Point3<T>, q: Point3<T>) -> Point3<T> {
    Point3 { x: greater(p.x, q.x), y: greater(p.y, q.y), z: greater(p.z, q.z) }
}

/// The smallest box holding both boxes.
pub open spec fn join<T: PartialOrd>(a: BoundingBox<T>, b: BoundingBox<T>) -> BoundingBox<T> {
    BoundingBox { min: lower_corner(a.min, b.min), max: upper_corner(a.max, b.max) }
}

/// The common part of two boxes, as corners; it may be inverted.
pub open spec fn overlap<T: PartialOrd>(a: BoundingBox<T>, b: BoundingBox<T>) -> BoundingBox<T> {
    BoundingBox { min: upper_corner(a.min, b.min), max: lower_corner(a.max, b.max) }
}

/// The lower corner is at most the upper one in every coordinate.
pub open spec fn not_inverted<T: PartialOrd>(b: BoundingBox<T>) -> bool {
    at_most(b.min.x, b.max.x) && at_most(b.min.y, b.max.y) && at_most(b.min.z, b.max.z)
}

/// `outer` holds `inner`.
pub open spec fn encloses<T: PartialOrd>(outer: BoundingBox<T>, inner: BoundingBox<T>) -> bool {
    &&& at_most(outer.min.x, inner.min.x) && at_most(outer.min.y, inner.min.y) && at_most(
        outer.min.z,
        inner.min.z,
    )
    &&& at_most(inner.max.x, outer.max.x) && at_most(inner.max.y, outer.max.y) && at_most(
        inner.max.z,
        outer.max.z,
    )
}

/// Every face has a certified box.
pub open spec fn all_certified<T>(faces: Seq<Option<BoundingBox<T>>>) -> bool {
    forall|i: int| 0 <= i < faces.len() ==> #[trigger] faces[i] is Some
}

/// The union of the boxes of `faces`, joined in order.
pub open spec fn union_of<T: PartialOrd>(faces: Seq<Option<BoundingBox<T>>>) -> BoundingBox<T>
    decreases faces.len(),
{
    if faces.len() <= 1 {
        faces[0].unwrap()
    } else {
        join(union_of(faces.drop_last()), faces.last().unwrap())
    }
}

/// The eight corners of `b`, lower coordinates first, `z` varying fastest.
pub open spec fn corners<T>(b: BoundingBox<T>) -> Seq<Point3<T>> {
    let (l, h) = (b.min, b.max);
    seq![
        Point3 { x: l.x, y: l.y, z: l.z },
        Point3 { x: l.x, y: l.y, z: h.z },
        Point3 { x: l.x, y: h.y, z: l.z },
        Point3 { x: l.x, y: h.y, z: h.z },
        Point3 { x: h.x, y: l.y, z: l.z },
        Point3 { x: h.x, y: l.y, z: h.z },
        Point3 { x: h.x, y: h.y, z: l.z },
        Point3 { x: h.x, y: h.y, z: h.z },
    ]
}

fn least<T: PartialOrd + Copy>(a: T, b: T) -> (m: T)
    ensures
        comparison_specified::<T>() ==> m == lesser(a, b),
{
    if b < a {
        b
    } else {
        a
    }
}

fn most<T: PartialOrd + Copy>(a: T, b: T) -> (m: T)
    ensures
        comparison_specified::<T>() ==> m == greater(a, b),
{
    if a < b {
        b
    } else {
        a
    }
}

fn no_more<T: PartialOrd>(a: &T, b: &T) -> (le: bool)
    ensures
        comparison_specified::<T>() ==> le == at_most(*a, *b),
{
    a <= b
}

/// The smallest box holding both boxes.
pub fn join_boxes<T: PartialOrd + Copy>(a: BoundingBox<T>, b: BoundingBox<T>) -> (joined: BoundingBox<T>)
    ensures
        comparison_specified::<T>() ==> joined == join(a, b),
{
    BoundingBox {
        min: Point3 {
            x: least(a.min.x, b.min.x),
            y: least(a.min.y, b.min.y),
            z: least(a.min.z, b.min.z),
        },
        max: Point3 {
            x: most(a.max.x, b.max.x),
            y: most(a.max.y, b.max.y),
            z: most(a.max.z, b.max.z),
        },
    }
}

/// The overlap of two boxes, or `None` when they do not overlap.
///
/// An empty overlap means that two enclosures of one piece of geometry
/// disagree: that is refused rather than settled for either side.
pub fn intersect_boxes<T: PartialOrd + Copy>(first: BoundingBox<T>, second: BoundingBox<T>) -> (common: Option<BoundingBox<T>>)
    ensures
        comparison_specified::<T>() ==> common == if not_inverted(overlap(first, second)) {
            Some(overlap(first, second))
        } else {
            None
        },
{
    let low = Point3 {
        x: most(first.min.x, second.min.x),
        y: most(first.min.y, second.min.y),
        z: most(first.min.z, second.min.z),
    };
    let high = Point3 {
        x: least(first.max.x, second.max.x),
        y: least(first.max.y, second.max.y),
        z: least(first.max.z, second.max.z),
    };
    if no_more(&low.x, &high.x) && no_more(&low.y, &high.y) && no_more(&low.z, &high.z) {
        Some(BoundingBox { min: low, max: high })
    } else {
        None
    }
}

/// Appends the eight corners of `bbox`; their convex hull is `bbox`.
pub fn push_box_corners<T: Copy>(bbox: &BoundingBox<T>, points: &mut Vec<Point3<T>>)
    ensures
        final(points)@ == old(points)@ + corners(*bbox),
{
    let (low, high) = (bbox.min, bbox.max);
    points.push(Point3 { x: low.x, y: low.y, z: low.z });
    points.push(Point3 { x: low.x, y: low.y, z: high.z });
    points.push(Point3 { x: low.x, y: high.y, z: low.z });
    points.push(Point3 { x: low.x, y: high.y, z: high.z });
    points.push(Point3 { x: high.x, y: low.y, z: low.z });
    points.push(Point3 { x: high.x, y: low.y, z: high.z });
    points.push(Point3 { x: high.x, y: high.y, z: low.z });
    points.push(Point3 { x: high.x, y: high.y, z: high.z });
    assert(final(points)@ =~= old(points)@ + corners(*bbox));
}

/// A certified box containing every point of a solid, from the certified
/// box of each of its faces (shell after shell), or `None` when some face has
/// no certified box, or the solid has no face.
pub fn certified_solid_bounding_box<T: PartialOrd + Copy>(face_boxes: &[Option<BoundingBox<T>>]) -> (bbox: Option<BoundingBox<T>>)
    ensures
        bbox is Some <==> face_boxes@.len() > 0 && all_certified(face_boxes@),
        comparison_specified::<T>() && bbox is Some ==> bbox.unwrap() == union_of(face_boxes@),
{
    let mut result: Option<BoundingBox<T>> = None;
    let mut i: usize = 0;
    while i < face_boxes.len()
        invariant
            i <= face_boxes@.len(),
            all_certified(face_boxes@.subrange(0, i as int)),
            result is Some <==> i > 0,
            comparison_specified::<T>() && i > 0 ==> result.unwrap() == union_of(
                face_boxes@.subrange(0, i as int),
            ),
        decreases face_boxes.len() - i,
    {
        let ghost before = face_boxes@.subrange(0, i as int);
        let ghost after = face_boxes@.subrange(0, i + 1);
        assert(after.drop_last() =~= before);
        match face_boxes[i] {
            None => {
                assert(!all_certified(face_boxes@)) by {
                    assert(face_boxes@[i as int] is None);
                }
                return None;
            },
            Some(face) => {
                result = match result {
                    None => Some(face),
                    Some(so_far) => Some(join_boxes(so_far, face)),
                };
                assert(all_certified(after)) by {
                    assert forall|k: int| 0 <= k < after.len() implies #[trigger] after[k] is Some by {
                        if k < i {
                            assert(after[k] == before[k]);
                        }
                    }
                }
            },
        }
        i = i + 1;
    }
    assert(face_boxes@.subrange(0, face_boxes@.len() as int) =~= face_boxes@);
    result
}

proof fn lemma_join_encloses<T: PartialOrd>(a: BoundingBox<T>, b: BoundingBox<T>)
    requires
        totally_ordered::<T>(),
    ensures
        encloses(join(a, b), a),
        encloses(join(a, b), b),
{
    assert(at_most(a.min.x, b.min.x) || at_most(b.min.x, a.min.x));
    assert(at_most(a.min.y, b.min.y) || at_most(b.min.y, a.min.y));
    assert(at_most(a.min.z, b.min.z) || at_most(b.min.z, a.min.z));
    assert(at_most(a.max.x, b.max.x) || at_most(b.max.x, a.max.x));
    assert(at_most(a.max.y, b.max.y) || at_most(b.max.y, a.max.y));
    assert(at_most(a.max.z, b.max.z) || at_most(b.max.z, a.max.z));
    assert(below(a.min.x, b.min.x) <==> !at_most(b.min.x, a.min.x));
    assert(below(b.min.x, a.min.x) <==> !at_most(a.min.x, b.min.x));
    assert(below(a.min.y, b.min.y) <==> !at_most(b.min.y, a.min.y));
    assert(below(b.min.y, a.min.y) <==> !at_most(a.min.y, b.min.y));
    assert(below(a.min.z, b.min.z) <==> !at_most(b.min.z, a.min.z));
    assert(below(b.min.z, a.min.z) <==> !at_most(a.min.z, b.min.z));
    assert(below(a.max.x, b.max.x) <==> !at_most(b.max.x, a.max.x));
    assert(below(b.max.x, a.max.x) <==> !at_most(a.max.x, b.max.x));
    assert(below(a.max.y, b.max.y) <==> !at_most(b.max.y, a.max.y));
    assert(below(b.max.y, a.max.y) <==> !at_most(a.max.y, b.max.y));
    assert(below(a.max.z, b.max.z) <==> !at_most(b.max.z, a.max.z));
    assert(below(b.max.z, a.max.z) <==> !at_most(a.max.z, b.max.z));
    assert(at_most(a.min.x, a.min.x) && at_most(b.min.x, b.min.x));
    assert(at_most(a.min.y, a.min.y) && at_most(b.min.y, b.min.y));
    assert(at_most(a.min.z, a.min.z) && at_most(b.min.z, b.min.z));
    assert(at_most(a.max.x, a.max.x) && at_most(b.max.x, b.max.x));
    assert(at_most(a.max.y, a.max.y) && at_most(b.max.y, b.max.y));
    assert(at_most(a.max.z, a.max.z) && at_most(b.max.z, b.max.z));
}

proof fn lemma_encloses_transitive<T: PartialOrd>(a: BoundingBox<T>, b: BoundingBox<T>, c: BoundingBox<T>)
    requires
        totally_ordered::<T>(),
        encloses(a, b),
        encloses(b, c),
    ensures
        encloses(a, c),
{
    assert(at_most(a.min.x, b.min.x) && at_most(b.min.x, c.min.x));
    assert(at_most(a.min.y, b.min.y) && at_most(b.min.y, c.min.y));
    assert(at_most(a.min.z, b.min.z) && at_most(b.min.z, c.min.z));
    assert(at_most(c.max.x, b.max.x) && at_most(b.max.x, a.max.x));
    assert(at_most(c.max.y, b.max.y) && at_most(b.max.y, a.max.y));
    assert(at_most(c.max.z, b.max.z) && at_most(b.max.z, a.max.z));
}

/// The certified box of a solid holds the certified box of each of its
/// faces, where the coordinates are totally ordered.
pub proof fn law_solid_box_encloses_every_face<T: PartialOrd>(faces: Seq<Option<BoundingBox<T>>>, i: int)
    requires
        totally_ordered::<T>(),
        all_certified(faces),
        0 <= i < faces.len(),
    ensures
        encloses(union_of(faces), faces[i].unwrap()),
    decreases faces.len(),
{
    assert(faces[i] is Some);
    if faces.len() == 1 {
        let only = faces[0].unwrap();
        assert(at_most(only.min.x, only.min.x) && at_most(only.min.y, only.min.y) && at_most(only.min.z, only.min.z));
        assert(at_most(only.max.x, only.max.x) && at_most(only.max.y, only.max.y) && at_most(only.max.z, only.max.z));
    } else {
        let rest = faces.drop_last();
        let last = faces.last().unwrap();
        assert(faces[faces.len() - 1] is Some);
        lemma_join_encloses(union_of(rest), last);
        if i < faces.len() - 1 {
            assert(all_certified(rest)) by {
                assert forall|k: int| 0 <= k < rest.len() implies #[trigger] rest[k] is Some by {
                    assert(rest[k] == faces[k]);
                }
            }
            assert(rest[i] == faces[i]);
            law_solid_box_encloses_every_face(rest, i);
            lemma_encloses_transitive(union_of(faces), union_of(rest), faces[i].unwrap());
        }
    }
}

/// The overlap of two boxes, when there is one, lies in each of them, where
/// the coordinates are totally ordered.
pub proof fn law_overlap_lies_in_both<T: PartialOrd>(first: BoundingBox<T>, second: BoundingBox<T>)
    requires
        totally_ordered::<T>(),
    ensures
        encloses(first, overlap(first, second)),
        encloses(second, overlap(first, second)),
{
    let a = first;
    let b = second;
    assert(at_most(a.min.x, b.min.x) || at_most(b.min.x, a.min.x));
    assert(at_most(a.min.y, b.min.y) || at_most(b.min.y, a.min.y));
    assert(at_most(a.min.z, b.min.z) || at_most(b.min.z, a.min.z));
    assert(at_most(a.max.x, b.max.x) || at_most(b.max.x, a.max.x));
    assert(at_most(a.max.y, b.max.y) || at_most(b.max.y, a.max.y));
    assert(at_most(a.max.z, b.max.z) || at_most(b.max.z, a.max.z));
    assert(below(a.min.x, b.min.x) <==> !at_most(b.min.x, a.min.x));
    assert(below(b.min.x, a.min.x) <==> !at_most(a.min.x, b.min.x));
    assert(below(a.min.y, b.min.y) <==> !at_most(b.min.y, a.min.y));
    assert(below(b.min.y, a.min.y) <==> !at_most(a.min.y, b.min.y));
    assert(below(a.min.z, b.min.z) <==> !at_most(b.min.z, a.min.z));
    assert(below(b.min.z, a.min.z) <==> !at_most(a.min.z, b.min.z));
    assert(below(a.max.x, b.max.x) <==> !at_most(b.max.x, a.max.x));
    assert(below(b.max.x, a.max.x) <==> !at_most(a.max.x, b.max.x));
    assert(below(a.max.y, b.max.y) <==> !at_most(b.max.y, a.max.y));
    assert(below(b.max.y, a.max.y) <==> !at_most(a.max.y, b.max.y));
    assert(below(a.max.z, b.max.z) <==> !at_most(b.max.z, a.max.z));
    assert(below(b.max.z, a.max.z) <==> !at_most(a.max.z, b.max.z));
    assert(at_most(a.min.x, a.min.x) && at_most(b.min.x, b.min.x));
    assert(at_most(a.min.y, a.min.y) && at_most(b.min.y, b.min.y));
    assert(at_most(a.min.z, a.min.z) && at_most(b.min.z, b.min.z));
    assert(at_most(a.max.x, a.max.x) && at_most(b.max.x, b.max.x));
    assert(at_most(a.max.y, a.max.y) && at_most(b.max.y, b.max.y));
    assert(at_most(a.max.z, a.max.z) && at_most(b.max.z, b.max.z));
}

/// Integer coordinates are totally ordered.
pub proof fn lemma_integers_are_totally_ordered()
    ensures
        totally_ordered::<i64>(),
{
}

} // verus!
