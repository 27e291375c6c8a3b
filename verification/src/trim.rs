//! Which methods find the parameter-space boundary of a trim curve on a
//! surface, and in which order they are tried.
//!
//! A method either produces the boundary or fails, and the next one is
//! tried. The methods are numerical and run on the geometry; what is decided
//! here, from the classes of the curve and the surface and from the verdicts
//! of the geometric comparisons, is the order.

use vstd::prelude::*;
use crate::classes::{CurveClass, SurfaceClass};

verus! {

/// One method of finding a boundary.
#[derive(Clone, Copy, Debug, PartialEq, Eq, Structural)]
pub enum BoundaryStep {
    /// The exact parameter curve of the curve on the surface, sampled.
    Exact,
    /// A boundary line read off the control nets of a curve and a surface of
    /// the same kind.
    DirectLine,
    /// Projecting sample points of the curve onto the surface.
    Sampled,
    /// A parameter curve's own points, when it lies on this surface.
    OwnPoints,
    /// An intersection curve: decided by [`intersection_boundary_source`].
    Intersection,
}

/// The methods tried, in order, for a curve of class `curve` on a surface
/// of class `surface`.
pub open spec fn boundary_plan_of(curve: CurveClass, surface: SurfaceClass) -> Seq<BoundaryStep> {
    match curve {
        CurveClass::Line => seq![BoundaryStep::Exact, BoundaryStep::Sampled],
        CurveClass::BsplineCurve => if surface == SurfaceClass::BsplineSurface {
            seq![BoundaryStep::Exact, BoundaryStep::DirectLine, BoundaryStep::Sampled]
        } else {
            seq![BoundaryStep::Exact, BoundaryStep::Sampled]
        },
        CurveClass::NurbsCurve => if surface == SurfaceClass::NurbsSurface {
            seq![BoundaryStep::Exact, BoundaryStep::DirectLine, BoundaryStep::Sampled]
        } else {
            seq![BoundaryStep::Exact, BoundaryStep::Sampled]
        },
        CurveClass::ParameterCurve => seq![BoundaryStep::OwnPoints],
        CurveClass::IntersectionCurve => seq![BoundaryStep::Intersection],
    }
}

/// The methods tried, in order, to find the boundary of a curve of class
/// `curve` on a surface of class `surface`: the exact parameter curve first,
/// then for a B-spline or NURBS curve on a surface of the same kind a
/// boundary line read off the control nets, then sampling; a parameter curve
/// gives its own points; an intersection curve is decided by its stored
/// boundaries.
pub fn boundary_plan(curve: CurveClass, surface: SurfaceClass) -> (plan: Vec<BoundaryStep>)
    ensures
        plan@ == boundary_plan_of(curve, surface),
{
    let plan = match curve {
        CurveClass::Line => vec![BoundaryStep::Exact, BoundaryStep::Sampled],
        CurveClass::BsplineCurve => {
            if surface == SurfaceClass::BsplineSurface {
                vec![BoundaryStep::Exact, BoundaryStep::DirectLine, BoundaryStep::Sampled]
            } else {
                vec![BoundaryStep::Exact, BoundaryStep::Sampled]
            }
        },
        CurveClass::NurbsCurve => {
            if surface == SurfaceClass::NurbsSurface {
                vec![BoundaryStep::Exact, BoundaryStep::DirectLine, BoundaryStep::Sampled]
            } else {
                vec![BoundaryStep::Exact, BoundaryStep::Sampled]
            }
        },
        CurveClass::ParameterCurve => vec![BoundaryStep::OwnPoints],
        CurveClass::IntersectionCurve => vec![BoundaryStep::Intersection],
    };
    assert(plan@ =~= boundary_plan_of(curve, surface));
    plan
}

/// Where the boundary of an intersection curve comes from.
#[derive(Clone, Copy, Debug, PartialEq, Eq, Structural)]
pub enum IntersectionBoundary {
    /// Its stored boundary on its first surface.
    Boundary0,
    /// Its stored boundary on its second surface.
    Boundary1,
    /// The boundary of its leader curve on this surface, by the leader's
    /// own plan.
    Leader,
    /// Projecting sample points of its leader onto this surface.
    SampledLeader,
}

/// The source of an intersection curve's boundary, from the verdicts: its
/// stored boundary on the first (second) surface exists and matches this
/// surface (`matches0`, `matches1`), this surface is its first (second)
/// surface (`on0`, `on1`), and the stored boundaries exist (`has0`, `has1`).
pub open spec fn intersection_boundary_of(
    matches0: bool,
    matches1: bool,
    on0: bool,
    on1: bool,
    has0: bool,
    has1: bool,
) -> IntersectionBoundary {
    if matches0 {
        IntersectionBoundary::Boundary0
    } else if matches1 {
        IntersectionBoundary::Boundary1
    } else if on0 {
        if has0 { IntersectionBoundary::Boundary0 } else { IntersectionBoundary::Leader }
    } else if on1 {
        if has1 { IntersectionBoundary::Boundary1 } else { IntersectionBoundary::Leader }
    } else {
        IntersectionBoundary::SampledLeader
    }
}

/// Where an intersection curve's boundary on a surface comes from: a stored
/// boundary that matches the surface, else the stored boundary (or the
/// leader's) when the surface is one of the curve's two, else the sampled
/// leader.
pub fn intersection_boundary_source(
    matches0: bool,
    matches1: bool,
    on0: bool,
    on1: bool,
    has0: bool,
    has1: bool,
) -> (source: IntersectionBoundary)
    ensures
        source == intersection_boundary_of(matches0, matches1, on0, on1, has0, has1),
{
    if matches0 {
        IntersectionBoundary::Boundary0
    } else if matches1 {
        IntersectionBoundary::Boundary1
    } else if on0 {
        if has0 { IntersectionBoundary::Boundary0 } else { IntersectionBoundary::Leader }
    } else if on1 {
        if has1 { IntersectionBoundary::Boundary1 } else { IntersectionBoundary::Leader }
    } else {
        IntersectionBoundary::SampledLeader
    }
}

/// A plain curve's plan tries the exact boundary first and ends by
/// sampling, so it never gives up before sampling; the control-net line is
/// tried only between curves and surfaces of the same kind.
pub proof fn law_plain_curves_end_by_sampling(curve: CurveClass, surface: SurfaceClass)
    ensures
        (curve == CurveClass::Line || curve == CurveClass::BsplineCurve || curve == CurveClass::NurbsCurve) ==> {
            let plan = boundary_plan_of(curve, surface);
            &&& plan[0] == BoundaryStep::Exact
            &&& plan.last() == BoundaryStep::Sampled
        },
        boundary_plan_of(curve, surface).contains(BoundaryStep::DirectLine) ==> (curve
            == CurveClass::BsplineCurve && surface == SurfaceClass::BsplineSurface) || (curve
            == CurveClass::NurbsCurve && surface == SurfaceClass::NurbsSurface),
{
}

/// A stored boundary is used only when it exists: a matching one is taken
/// first, and a curve on neither of its surfaces is sampled from its leader.
pub proof fn law_stored_boundaries_exist_where_used(
    matches0: bool,
    matches1: bool,
    on0: bool,
    on1: bool,
    has0: bool,
    has1: bool,
)
    requires
        matches0 ==> has0,
        matches1 ==> has1,
    ensures
        intersection_boundary_of(matches0, matches1, on0, on1, has0, has1) == IntersectionBoundary::Boundary0 ==> has0,
        intersection_boundary_of(matches0, matches1, on0, on1, has0, has1) == IntersectionBoundary::Boundary1 ==> has1,
        !matches0 && !matches1 && !on0 && !on1 ==> intersection_boundary_of(matches0, matches1, on0, on1, has0, has1)
            == IntersectionBoundary::SampledLeader,
{
}

} // verus!
