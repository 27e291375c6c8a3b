//! Which test decides whether a model surface contains a model curve.
//!
//! The tests themselves are numerical and run on the geometry; what is
//! decided here, from the classes of the two entities alone, is which test
//! runs on which form of the curve, and where the answer is no without any
//! test at all.

use vstd::prelude::*;
use crate::classes::{CurveClass, SurfaceClass};

verus! {

/// What the containment test reads of a model curve: its class, and for an
/// intersection curve the class of its leader.
#[derive(Clone, Copy, Debug, PartialEq, Eq, Structural)]
pub enum CurveShape {
    Line,
    BsplineCurve,
    NurbsCurve,
    ParameterCurve,
    IntersectionCurve { leader: CurveClass },
}

/// What the containment test reads of a model surface: its class, and for a
/// surface of revolution the shape of its profile curve.
#[derive(Clone, Copy, Debug, PartialEq, Eq, Structural)]
pub enum SurfaceShape {
    Plane,
    BsplineSurface,
    NurbsSurface,
    RevolutionSurface { profile: CurveShape },
    TsplineSurface,
    SphericalSurface,
    ToroidalSurface,
}

/// The curve classes a control-net test reads; a line is read as the
/// B-spline curve it converts to.
#[derive(Clone, Copy, Debug, PartialEq, Eq, Structural)]
pub enum PlainCurve {
    Line,
    BsplineCurve,
    NurbsCurve,
}

/// The curve a control-net test reads: the curve itself, or the leader of an
/// intersection curve, and its class.
#[derive(Clone, Copy, Debug, PartialEq, Eq, Structural)]
pub struct TestedCurve {
    pub class: PlainCurve,
    pub leader: bool,
}

/// The surfaces that test a curve against their own control net.
#[derive(Clone, Copy, Debug, PartialEq, Eq, Structural)]
pub enum NetSurface {
    Plane,
    BsplineSurface,
    NurbsSurface,
}

/// How containment is decided.
#[derive(Clone, Copy, Debug, PartialEq, Eq, Structural)]
pub enum ContainmentTest {
    /// A parameter curve lies on the surface it is defined on: compare that
    /// surface with this one.
    SameSurface,
    /// The surface's own containment test, on `curve`.
    ControlNet { surface: NetSurface, curve: TestedCurve },
    /// The containment test of the surface obtained by revolving `profile`
    /// about the surface's axis, on `curve`.
    RevolvedProfile { profile: TestedCurve, curve: TestedCurve },
    /// Every control point of the curve, lifted to a B-spline, is found on
    /// the surface.
    LiftedControlPoints,
    /// Sample points along each knot span of the curve are found on the
    /// surface.
    SampledPoints,
    /// Not contained; no test runs.
    Refuse,
}

/// The plain class of `class`, if it is one.
pub open spec fn plain_class(class: CurveClass) -> Option<PlainCurve> {
    match class {
        CurveClass::Line => Some(PlainCurve::Line),
        CurveClass::BsplineCurve => Some(PlainCurve::BsplineCurve),
        CurveClass::NurbsCurve => Some(PlainCurve::NurbsCurve),
        _ => None,
    }
}

/// The curve a control-net test reads of `curve`: a plain curve itself, the
/// leader of an intersection curve when that leader is plain, and nothing
/// otherwise.
pub open spec fn tested_curve(curve: CurveShape) -> Option<TestedCurve> {
    match curve {
        CurveShape::Line => Some(TestedCurve { class: PlainCurve::Line, leader: false }),
        CurveShape::BsplineCurve => Some(TestedCurve { class: PlainCurve::BsplineCurve, leader: false }),
        CurveShape::NurbsCurve => Some(TestedCurve { class: PlainCurve::NurbsCurve, leader: false }),
        CurveShape::ParameterCurve => None,
        CurveShape::IntersectionCurve { leader } => match plain_class(leader) {
            Some(class) => Some(TestedCurve { class, leader: true }),
            None => None,
        },
    }
}

/// The control-net test of `surface` on `curve`, or a refusal when the curve
/// has no plain form.
pub open spec fn net_test(surface: NetSurface, curve: CurveShape) -> ContainmentTest {
    match tested_curve(curve) {
        Some(tested) => ContainmentTest::ControlNet { surface, curve: tested },
        None => ContainmentTest::Refuse,
    }
}

/// How containment of `curve` in `surface` is decided.
pub open spec fn containment_test_of(surface: SurfaceShape, curve: CurveShape) -> ContainmentTest {
    if curve is ParameterCurve {
        ContainmentTest::SameSurface
    } else {
        match surface {
            SurfaceShape::Plane => net_test(NetSurface::Plane, curve),
            SurfaceShape::BsplineSurface => net_test(NetSurface::BsplineSurface, curve),
            SurfaceShape::NurbsSurface => net_test(NetSurface::NurbsSurface, curve),
            SurfaceShape::TsplineSurface => ContainmentTest::LiftedControlPoints,
            SurfaceShape::SphericalSurface => ContainmentTest::SampledPoints,
            SurfaceShape::ToroidalSurface => ContainmentTest::SampledPoints,
            SurfaceShape::RevolutionSurface { profile } => match (tested_curve(profile), tested_curve(curve)) {
                (Some(profile), Some(curve)) => ContainmentTest::RevolvedProfile { profile, curve },
                _ => ContainmentTest::Refuse,
            },
        }
    }
}

fn plain_of(class: CurveClass) -> (plain: Option<PlainCurve>)
    ensures
        plain == plain_class(class),
{
    match class {
        CurveClass::Line => Some(PlainCurve::Line),
        CurveClass::BsplineCurve => Some(PlainCurve::BsplineCurve),
        CurveClass::NurbsCurve => Some(PlainCurve::NurbsCurve),
        _ => None,
    }
}

/// The curve a control-net test reads of `curve`, if any.
pub fn tested_form(curve: CurveShape) -> (tested: Option<TestedCurve>)
    ensures
        tested == tested_curve(curve),
{
    match curve {
        CurveShape::Line => Some(TestedCurve { class: PlainCurve::Line, leader: false }),
        CurveShape::BsplineCurve => Some(TestedCurve { class: PlainCurve::BsplineCurve, leader: false }),
        CurveShape::NurbsCurve => Some(TestedCurve { class: PlainCurve::NurbsCurve, leader: false }),
        CurveShape::ParameterCurve => None,
        CurveShape::IntersectionCurve { leader } => match plain_of(leader) {
            Some(class) => Some(TestedCurve { class, leader: true }),
            None => None,
        },
    }
}

fn net_decision(surface: NetSurface, curve: CurveShape) -> (test: ContainmentTest)
    ensures
        test == net_test(surface, curve),
{
    match tested_form(curve) {
        Some(tested) => ContainmentTest::ControlNet { surface, curve: tested },
        None => ContainmentTest::Refuse,
    }
}

/// How containment of `curve` in `surface` is decided: a parameter curve by
/// the identity of its surface; on a plane, a B-spline or a NURBS surface by
/// the surface's control-net test on the curve or its leader; on a surface
/// of revolution by the test of the revolved profile; on a T-spline surface
/// by its lifted control points; on a sphere or torus by sampled points.
/// Where the curve (or the profile) has no plain form, the answer is no.
pub fn containment_test(surface: SurfaceShape, curve: CurveShape) -> (test: ContainmentTest)
    ensures
        test == containment_test_of(surface, curve),
{
    if let CurveShape::ParameterCurve = curve {
        return ContainmentTest::SameSurface;
    }
    match surface {
        SurfaceShape::Plane => net_decision(NetSurface::Plane, curve),
        SurfaceShape::BsplineSurface => net_decision(NetSurface::BsplineSurface, curve),
        SurfaceShape::NurbsSurface => net_decision(NetSurface::NurbsSurface, curve),
        SurfaceShape::TsplineSurface => ContainmentTest::LiftedControlPoints,
        SurfaceShape::SphericalSurface => ContainmentTest::SampledPoints,
        SurfaceShape::ToroidalSurface => ContainmentTest::SampledPoints,
        SurfaceShape::RevolutionSurface { profile } => match (tested_form(profile), tested_form(curve)) {
            (Some(profile), Some(curve)) => ContainmentTest::RevolvedProfile { profile, curve },
            _ => ContainmentTest::Refuse,
        },
    }
}

/// The verdict on whether two surfaces are the same before any sampling.
#[derive(Clone, Copy, Debug, PartialEq, Eq, Structural)]
pub enum SameSurfaceVerdict {
    /// Different classes: not the same surface.
    Different,
    /// Same class and same content hash: the same surface.
    Identical,
    /// Same class, different hash: compare sample points of the two
    /// parameter domains.
    CompareSamples,
}

/// The verdict on two surfaces of classes `lhs` and `rhs` whose content
/// hashes are `lhs_hash` and `rhs_hash`.
pub open spec fn same_surface_verdict_of(
    lhs: SurfaceClass,
    rhs: SurfaceClass,
    lhs_hash: u64,
    rhs_hash: u64,
) -> SameSurfaceVerdict {
    if lhs != rhs {
        SameSurfaceVerdict::Different
    } else if lhs_hash == rhs_hash {
        SameSurfaceVerdict::Identical
    } else {
        SameSurfaceVerdict::CompareSamples
    }
}

/// Whether two surfaces are the same, as far as their classes and content
/// hashes decide it.
pub fn same_surface_verdict(lhs: SurfaceClass, rhs: SurfaceClass, lhs_hash: u64, rhs_hash: u64) -> (verdict: SameSurfaceVerdict)
    ensures
        verdict == same_surface_verdict_of(lhs, rhs, lhs_hash, rhs_hash),
{
    if lhs != rhs {
        SameSurfaceVerdict::Different
    } else if lhs_hash == rhs_hash {
        SameSurfaceVerdict::Identical
    } else {
        SameSurfaceVerdict::CompareSamples
    }
}

/// A parameter curve is contained in a surface exactly when it lies on that
/// surface: whatever the surface, the surfaces are compared and nothing
/// else is tested.
pub proof fn law_parameter_curves_compare_surfaces(surface: SurfaceShape)
    ensures
        containment_test_of(surface, CurveShape::ParameterCurve) == ContainmentTest::SameSurface,
{
}

/// Every test that reads a form of the curve reads a plain one: the curve
/// itself when it is plain, else the plain leader of an intersection curve;
/// an intersection curve whose leader is not plain is never accepted by a
/// control-net or revolved-profile test, nor is any curve on a revolution
/// surface whose profile has no plain form.
pub proof fn law_tests_read_plain_forms(surface: SurfaceShape, curve: CurveShape)
    ensures
        containment_test_of(surface, curve) matches ContainmentTest::ControlNet { curve: tested, .. } ==> tested_curve(curve) == Some(tested),
        containment_test_of(surface, curve) matches ContainmentTest::RevolvedProfile { profile: tested_profile, curve: tested } ==> (
            surface matches SurfaceShape::RevolutionSurface { profile } && tested_curve(profile) == Some(tested_profile)
            && tested_curve(curve) == Some(tested)),
        (curve matches CurveShape::IntersectionCurve { leader } && plain_class(leader) is None
            && (surface matches SurfaceShape::Plane || surface matches SurfaceShape::BsplineSurface
            || surface matches SurfaceShape::NurbsSurface || surface matches SurfaceShape::RevolutionSurface { .. }))
            ==> containment_test_of(surface, curve) == ContainmentTest::Refuse,
        (surface matches SurfaceShape::RevolutionSurface { profile } && tested_curve(profile) is None
            && !(curve is ParameterCurve)) ==> containment_test_of(surface, curve) == ContainmentTest::Refuse,
{
}

/// A curve has a plain form: it is a line, a B-spline or a NURBS curve, or an
/// intersection curve whose leader is one.
pub open spec fn has_plain_form(curve: CurveShape) -> bool {
    match curve {
        CurveShape::Line | CurveShape::BsplineCurve | CurveShape::NurbsCurve => true,
        CurveShape::IntersectionCurve { leader } => leader is Line || leader is BsplineCurve || leader is NurbsCurve,
        CurveShape::ParameterCurve => false,
    }
}

/// The plane and the B-spline and NURBS surfaces test every curve that has
/// a plain form against their own control net, on that plain form (the
/// curve itself, or the leader of an intersection curve, of the same class),
/// and refuse exactly the curves without one. A surface of revolution
/// refuses exactly when its profile or the curve has no plain form.
pub proof fn law_net_surfaces_test_every_plain_curve(surface: SurfaceShape, curve: CurveShape)
    ensures
        (surface is Plane || surface is BsplineSurface || surface is NurbsSurface) && !(curve is ParameterCurve) ==> {
            let test = containment_test_of(surface, curve);
            &&& (test == ContainmentTest::Refuse <==> !has_plain_form(curve))
            &&& has_plain_form(curve) ==> (test matches ContainmentTest::ControlNet { surface: net, curve: tested } && {
                &&& (net == NetSurface::Plane <==> surface is Plane)
                &&& (net == NetSurface::BsplineSurface <==> surface is BsplineSurface)
                &&& (net == NetSurface::NurbsSurface <==> surface is NurbsSurface)
                &&& (tested.leader <==> curve is IntersectionCurve)
                &&& (curve is Line ==> tested.class == PlainCurve::Line)
                &&& (curve is BsplineCurve ==> tested.class == PlainCurve::BsplineCurve)
                &&& (curve is NurbsCurve ==> tested.class == PlainCurve::NurbsCurve)
                &&& (curve matches CurveShape::IntersectionCurve { leader } ==> (leader is Line
                    ==> tested.class == PlainCurve::Line) && (leader is BsplineCurve ==> tested.class
                    == PlainCurve::BsplineCurve) && (leader is NurbsCurve ==> tested.class == PlainCurve::NurbsCurve))
            })
        },
        surface is RevolutionSurface && !(curve is ParameterCurve) ==> (containment_test_of(surface, curve)
            == ContainmentTest::Refuse <==> !has_plain_form(surface->profile) || !has_plain_form(curve)),
        (surface is TsplineSurface || surface is SphericalSurface || surface is ToroidalSurface)
            ==> containment_test_of(surface, curve) != ContainmentTest::Refuse,
{
}

/// Surfaces of different classes are never the same; equal hashes of one
/// class settle it without sampling.
pub proof fn law_sampling_only_within_a_class(lhs: SurfaceClass, rhs: SurfaceClass, lhs_hash: u64, rhs_hash: u64)
    ensures
        same_surface_verdict_of(lhs, rhs, lhs_hash, rhs_hash) == SameSurfaceVerdict::CompareSamples
            ==> lhs == rhs && lhs_hash != rhs_hash,
        same_surface_verdict_of(lhs, lhs, lhs_hash, lhs_hash) == SameSurfaceVerdict::Identical,
{
}

} // verus!
