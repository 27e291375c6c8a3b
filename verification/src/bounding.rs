//! Which argument bounds a face, and diagnosing the faces that resist a
//! certified bounding box.
//!
//! Whether a face's box can be certified, and whether an edge curve has a
//! cheap convex-hull enclosure, are decided on the geometry by the caller;
//! this module turns those verdicts into the report: one label per
//! uncertifiable face class, `surface-class[/curve-class ...]`, naming each
//! curve class whose edges carry no enclosure, the labels deduplicated and
//! sorted.

use vstd::prelude::*;
use vstd::string::*;
use crate::classes::{
    CurveClass, SurfaceClass, SurfaceKind, curve_class_label, curve_class_name, surface_class_label,
    surface_class_name,
};
use crate::strings::{lex_less, lex_lt, lemma_lex_lt_strict_total, lemma_lex_lt_transitive};
use crate::boxes::{all_certified, BoundingBox};

verus! {

/// One edge of a face: its curve class, and whether its curve has a cheap
/// convex-hull enclosure.
#[derive(Clone, Copy, Debug, PartialEq, Eq, Structural)]
pub struct EdgeHull {
    pub class: CurveClass,
    pub enclosed: bool,
}

/// One face of a solid: its surface class, whether a bounding box could be
/// certified for it, and its edges.
pub struct FaceCertificate {
    pub surface: SurfaceClass,
    pub certified: bool,
    pub edges: Vec<EdgeHull>,
}

/// The curve classes in the order of their names.
pub open spec fn blocker_order() -> Seq<CurveClass> {
    seq![
        CurveClass::BsplineCurve,
        CurveClass::IntersectionCurve,
        CurveClass::Line,
        CurveClass::NurbsCurve,
        CurveClass::ParameterCurve,
    ]
}

/// Some edge of class `class` carries no enclosure.
pub open spec fn blocks(edges: Seq<EdgeHull>, class: CurveClass) -> bool {
    exists|i: int| 0 <= i < edges.len() && #[trigger] edges[i] == (EdgeHull { class, enclosed: false })
}

/// `/name` for each of the first `k` classes of [`blocker_order`] that blocks.
pub open spec fn blocker_suffix(edges: Seq<EdgeHull>, k: int) -> Seq<char>
    decreases k,
{
    if k <= 0 {
        Seq::empty()
    } else if blocks(edges, blocker_order()[k - 1]) {
        blocker_suffix(edges, k - 1) + "/"@ + curve_class_label(blocker_order()[k - 1])
    } else {
        blocker_suffix(edges, k - 1)
    }
}

/// The label of a face: its surface class, then each blocking curve class.
pub open spec fn face_label(surface: SurfaceClass, edges: Seq<EdgeHull>) -> Seq<char> {
    surface_class_label(surface) + blocker_suffix(edges, 5)
}

/// `label` is the label of some uncertified face among `faces`.
pub open spec fn is_uncertified_label(faces: Seq<FaceCertificate>, label: Seq<char>) -> bool {
    exists|f: int|
        0 <= f < faces.len() && !faces[f].certified && #[trigger] face_label(
            faces[f].surface,
            faces[f].edges@,
        ) == label
}

/// The characters of each string.
pub open spec fn texts(labels: Seq<String>) -> Seq<Seq<char>> {
    labels.map_values(|label: String| label@)
}

/// Strictly increasing in the lexicographic order: sorted, no duplicates.
pub open spec fn strictly_sorted(labels: Seq<Seq<char>>) -> bool {
    forall|i: int, j: int| 0 <= i < j < labels.len() ==> lex_lt(labels[i], labels[j])
}

fn blocks_in(edges: &Vec<EdgeHull>, class: CurveClass) -> (found: bool)
    ensures
        found == blocks(edges@, class),
{
    let mut i: usize = 0;
    while i < edges.len()
        invariant
            i <= edges@.len(),
            forall|k: int| 0 <= k < i ==> #[trigger] edges@[k] != (EdgeHull { class, enclosed: false }),
        decreases edges.len() - i,
    {
        if edges[i].class == class && !edges[i].enclosed {
            assert(edges@[i as int] == (EdgeHull { class, enclosed: false }));
            return true;
        }
        i = i + 1;
    }
    false
}

fn blocker_class(k: usize) -> (class: CurveClass)
    requires
        k < 5,
    ensures
        class == blocker_order()[k as int],
{
    if k == 0 {
        CurveClass::BsplineCurve
    } else if k == 1 {
        CurveClass::IntersectionCurve
    } else if k == 2 {
        CurveClass::Line
    } else if k == 3 {
        CurveClass::NurbsCurve
    } else {
        CurveClass::ParameterCurve
    }
}

/// The label `surface-class[/curve-class ...]` of a face whose edges are
/// `edges`, naming each curve class some edge of which has no enclosure, in
/// the order of the class names and each once.
pub fn face_class_label(surface: SurfaceClass, edges: &Vec<EdgeHull>) -> (label: String)
    ensures
        label@ == face_label(surface, edges@),
{
    let mut label = String::from_str(surface_class_name(surface));
    let mut k: usize = 0;
    while k < 5
        invariant
            k <= 5,
            label@ == surface_class_label(surface) + blocker_suffix(edges@, k as int),
        decreases 5 - k,
    {
        let class = blocker_class(k);
        if blocks_in(edges, class) {
            label.append("/");
            label.append(curve_class_name(class));
            assert(label@ =~= surface_class_label(surface) + blocker_suffix(edges@, k + 1));
        }
        k = k + 1;
    }
    label
}

/// Inserts `label` into the strictly sorted `labels` unless it is already
/// there.
fn insert_sorted(labels: &mut Vec<String>, label: String)
    requires
        strictly_sorted(texts(old(labels)@)),
    ensures
        strictly_sorted(texts(final(labels)@)),
        forall|x: Seq<char>| #[trigger] texts(final(labels)@).contains(x) <==> (texts(
            old(labels)@,
        ).contains(x) || x == label@),
{
    let ghost before = texts(labels@);
    let mut p: usize = 0;
    while p < labels.len() && lex_less(labels[p].as_str(), label.as_str())
        invariant
            labels@ == old(labels)@,
            before == texts(labels@),
            p <= labels@.len(),
            forall|i: int| 0 <= i < p ==> lex_lt(#[trigger] before[i], label@),
        decreases labels.len() - p,
    {
        p = p + 1;
    }
    if p < labels.len() && labels[p] == label {
        assert(before[p as int] == label@);
        return;
    }
    proof {
        lemma_lex_lt_strict_total(label@, label@);
        if p < before.len() {
            lemma_lex_lt_strict_total(before[p as int], label@);
        }
    }
    let ghost inserted = label@;
    labels.insert(p, label);
    let ghost after = texts(labels@);
    assert(after =~= before.insert(p as int, inserted));
    proof {
        assert forall|i: int, j: int| 0 <= i < j < after.len() implies lex_lt(after[i], after[j]) by {
            if j < p {
            } else if j == p {
                assert(after[i] == before[i]);
            } else if i < p {
                assert(after[j] == before[j - 1]);
                if p < before.len() {
                    if j - 1 > p {
                        lemma_lex_lt_transitive(inserted, before[p as int], before[j - 1]);
                    }
                    lemma_lex_lt_transitive(before[i], inserted, before[j - 1]);
                }
            } else if i == p {
                assert(after[j] == before[j - 1]);
                if j - 1 > p {
                    lemma_lex_lt_transitive(inserted, before[p as int], before[j - 1]);
                }
            } else {
                assert(after[i] == before[i - 1]);
                assert(after[j] == before[j - 1]);
            }
        }
        assert forall|x: Seq<char>| #[trigger] after.contains(x) <==> (before.contains(x) || x == inserted) by {
            if after.contains(x) {
                let k = choose|k: int| 0 <= k < after.len() && after[k] == x;
                if k < p {
                    assert(before[k] == x);
                } else if k > p {
                    assert(before[k - 1] == x);
                }
            }
            if before.contains(x) {
                let k = choose|k: int| 0 <= k < before.len() && before[k] == x;
                if k < p {
                    assert(after[k] == x);
                } else {
                    assert(after[k + 1] == x);
                }
            }
            if x == inserted {
                assert(after[p as int] == x);
            }
        }
    }
}

/// The argument by which the certified box of a face is obtained from its
/// surface.
#[derive(Clone, Copy, Debug, PartialEq, Eq, Structural)]
pub enum BoxMethod {
    /// A plane is exactly what its wires enclose: the box of the points
    /// enclosing the boundary.
    BoundaryHull,
    /// Convex-hull property: the box of the control points.
    ControlPoints,
    /// Rational convex-hull property: the box of the projected control
    /// points, refused when a weight is not strictly positive.
    WeightedControlPoints,
    /// The whole ball, under a similarity transform.
    Ball,
    /// The whole ring torus, under a similarity transform.
    Ring,
    /// A cylinder or cone with a straight profile, under a similarity
    /// transform: the revolution region spanned by the boundary hull.
    RevolutionRegion,
    /// No argument applies.
    Refuse,
}

/// The argument for a face carried by `surface`, when a hull of its boundary
/// wires is known (`hull_known`) or not.
pub open spec fn box_method_of(surface: SurfaceKind, hull_known: bool) -> BoxMethod {
    match surface {
        SurfaceKind::Plane => if hull_known { BoxMethod::BoundaryHull } else { BoxMethod::Refuse },
        SurfaceKind::BsplineSurface => BoxMethod::ControlPoints,
        SurfaceKind::NurbsSurface => BoxMethod::WeightedControlPoints,
        SurfaceKind::SphericalSurface => BoxMethod::Ball,
        SurfaceKind::ToroidalSurface => BoxMethod::Ring,
        SurfaceKind::RevolutionSurface { profile, .. } => if profile == CurveClass::Line && hull_known {
            BoxMethod::RevolutionRegion
        } else {
            BoxMethod::Refuse
        },
        SurfaceKind::TsplineSurface => BoxMethod::Refuse,
    }
}

/// Which argument bounds a face carried by `surface`: a plane and a straight
/// surface of revolution need the hull of the face's wires, the control-net
/// and analytic classes bound themselves, a T-spline has no argument.
pub fn certified_box_method(surface: SurfaceKind, hull_known: bool) -> (method: BoxMethod)
    ensures
        method == box_method_of(surface, hull_known),
{
    match surface {
        SurfaceKind::Plane => if hull_known { BoxMethod::BoundaryHull } else { BoxMethod::Refuse },
        SurfaceKind::BsplineSurface => BoxMethod::ControlPoints,
        SurfaceKind::NurbsSurface => BoxMethod::WeightedControlPoints,
        SurfaceKind::SphericalSurface => BoxMethod::Ball,
        SurfaceKind::ToroidalSurface => BoxMethod::Ring,
        SurfaceKind::RevolutionSurface { profile, .. } => {
            if profile == CurveClass::Line && hull_known {
                BoxMethod::RevolutionRegion
            } else {
                BoxMethod::Refuse
            }
        },
        SurfaceKind::TsplineSurface => BoxMethod::Refuse,
    }
}

/// The hull of a face's wires is read only where it is known; the
/// control-net and analytic classes answer the same with or without it; a
/// T-spline surface and a curved surface of revolution are never bounded.
pub proof fn law_box_methods_need_what_they_read(surface: SurfaceKind, hull_known: bool)
    ensures
        (box_method_of(surface, hull_known) == BoxMethod::BoundaryHull
            || box_method_of(surface, hull_known) == BoxMethod::RevolutionRegion) ==> hull_known,
        !(surface is Plane) && !(surface is RevolutionSurface) ==> box_method_of(surface, hull_known)
            == box_method_of(surface, !hull_known),
        surface is TsplineSurface ==> box_method_of(surface, hull_known) == BoxMethod::Refuse,
        surface matches SurfaceKind::RevolutionSurface { profile, .. } && profile != CurveClass::Line
            ==> box_method_of(surface, hull_known) == BoxMethod::Refuse,
{
}

/// Where each face's certified flag says whether its box exists, the
/// diagnosis names no label exactly when every face has a box; so for a
/// solid with a face, the diagnosis is empty exactly when the solid has a
/// certified box.
pub proof fn law_diagnosis_is_empty_exactly_when_the_solid_is_boxed<T>(
    faces: Seq<FaceCertificate>,
    boxes: Seq<Option<BoundingBox<T>>>,
)
    requires
        faces.len() == boxes.len(),
        forall|i: int| 0 <= i < faces.len() ==> #[trigger] faces[i].certified == (boxes[i] is Some),
    ensures
        (forall|label: Seq<char>| !#[trigger] is_uncertified_label(faces, label)) <==> all_certified(boxes),
{
    if !all_certified(boxes) {
        let i = choose|i: int| 0 <= i < boxes.len() && !(#[trigger] boxes[i] is Some);
        assert(!faces[i].certified);
        assert(is_uncertified_label(faces, face_label(faces[i].surface, faces[i].edges@)));
    }
    if exists|label: Seq<char>| is_uncertified_label(faces, label) {
        let label = choose|label: Seq<char>| is_uncertified_label(faces, label);
        let f = choose|f: int| 0 <= f < faces.len() && !faces[f].certified && #[trigger] face_label(
            faces[f].surface,
            faces[f].edges@,
        ) == label;
        assert(!(boxes[f] is Some));
    }
}

/// The face classes that decline a certified box, each as
/// `surface-class[/curve-class ...]`, deduplicated and sorted.
///
/// Diagnosis, not certification: an empty result means every face was
/// bounded.
pub fn uncertifiable_face_classes(faces: &Vec<FaceCertificate>) -> (classes: Vec<String>)
    ensures
        strictly_sorted(texts(classes@)),
        forall|label: Seq<char>| #[trigger] texts(classes@).contains(label) <==> is_uncertified_label(
            faces@,
            label,
        ),
{
    let mut classes: Vec<String> = Vec::new();
    let mut f: usize = 0;
    while f < faces.len()
        invariant
            f <= faces@.len(),
            strictly_sorted(texts(classes@)),
            forall|label: Seq<char>| #[trigger] texts(classes@).contains(label) <==> is_uncertified_label(
                faces@.subrange(0, f as int),
                label,
            ),
        decreases faces.len() - f,
    {
        let ghost prefix = faces@.subrange(0, f as int);
        let ghost next = faces@.subrange(0, f + 1);
        if !faces[f].certified {
            let label = face_class_label(faces[f].surface, &faces[f].edges);
            let ghost text = label@;
            insert_sorted(&mut classes, label);
            proof {
                assert forall|x: Seq<char>| #[trigger] texts(classes@).contains(x) <==> is_uncertified_label(next, x) by {
                    if is_uncertified_label(next, x) {
                        let g = choose|g: int| 0 <= g < next.len() && !next[g].certified && #[trigger] face_label(next[g].surface, next[g].edges@) == x;
                        if g < f {
                            assert(prefix[g] == next[g]);
                            assert(is_uncertified_label(prefix, x));
                        }
                    }
                    if is_uncertified_label(prefix, x) {
                        let g = choose|g: int| 0 <= g < prefix.len() && !prefix[g].certified && #[trigger] face_label(prefix[g].surface, prefix[g].edges@) == x;
                        assert(next[g] == prefix[g]);
                    }
                    if x == text {
                        assert(next[f as int] == faces@[f as int]);
                    }
                }
            }
        } else {
            proof {
                assert forall|x: Seq<char>| #[trigger] texts(classes@).contains(x) <==> is_uncertified_label(next, x) by {
                    if is_uncertified_label(next, x) {
                        let g = choose|g: int| 0 <= g < next.len() && !next[g].certified && #[trigger] face_label(next[g].surface, next[g].edges@) == x;
                        assert(g != f);
                        assert(prefix[g] == next[g]);
                    }
                    if is_uncertified_label(prefix, x) {
                        let g = choose|g: int| 0 <= g < prefix.len() && !prefix[g].certified && #[trigger] face_label(prefix[g].surface, prefix[g].edges@) == x;
                        assert(next[g] == prefix[g]);
                    }
                }
            }
        }
        f = f + 1;
    }
    assert(faces@.subrange(0, faces@.len() as int) =~= faces@);
    classes
}

} // verus!
