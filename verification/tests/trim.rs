use monstertruck::classes::{CurveClass, SurfaceClass};
use monstertruck::sweep::{ArcConnector, ExtrudeConnector, LineConnector, RevoluteConnector, Vector3};
use monstertruck::boxes::Point3;
use monstertruck::trim::{boundary_plan, intersection_boundary_source, BoundaryStep, IntersectionBoundary};

#[test]
fn plain_curves_try_exact_then_direct_then_sampled() {
    assert_eq!(boundary_plan(CurveClass::Line, SurfaceClass::BsplineSurface), vec![BoundaryStep::Exact, BoundaryStep::Sampled]);
    assert_eq!(boundary_plan(CurveClass::BsplineCurve, SurfaceClass::BsplineSurface), vec![BoundaryStep::Exact, BoundaryStep::DirectLine, BoundaryStep::Sampled]);
    assert_eq!(boundary_plan(CurveClass::BsplineCurve, SurfaceClass::NurbsSurface), vec![BoundaryStep::Exact, BoundaryStep::Sampled]);
    assert_eq!(boundary_plan(CurveClass::NurbsCurve, SurfaceClass::NurbsSurface), vec![BoundaryStep::Exact, BoundaryStep::DirectLine, BoundaryStep::Sampled]);
    assert_eq!(boundary_plan(CurveClass::NurbsCurve, SurfaceClass::Plane), vec![BoundaryStep::Exact, BoundaryStep::Sampled]);
    assert_eq!(boundary_plan(CurveClass::ParameterCurve, SurfaceClass::Plane), vec![BoundaryStep::OwnPoints]);
    assert_eq!(boundary_plan(CurveClass::IntersectionCurve, SurfaceClass::Plane), vec![BoundaryStep::Intersection]);
}

#[test]
fn intersection_curves_prefer_a_matching_stored_boundary() {
    assert_eq!(intersection_boundary_source(true, true, false, true, true, true), IntersectionBoundary::Boundary0);
    assert_eq!(intersection_boundary_source(false, true, true, false, true, true), IntersectionBoundary::Boundary1);
    assert_eq!(intersection_boundary_source(false, false, true, false, true, false), IntersectionBoundary::Boundary0);
    assert_eq!(intersection_boundary_source(false, false, true, false, false, true), IntersectionBoundary::Leader);
    assert_eq!(intersection_boundary_source(false, false, false, true, false, true), IntersectionBoundary::Boundary1);
    assert_eq!(intersection_boundary_source(false, false, false, true, true, false), IntersectionBoundary::Leader);
    assert_eq!(intersection_boundary_source(false, false, false, false, true, true), IntersectionBoundary::SampledLeader);
}

#[test]
fn connectors_hold_their_parameters() {
    let axis = Vector3 { x: 0.0, y: 0.0, z: 1.0 };
    let origin = Point3 { x: 1.0, y: 2.0, z: 3.0 };
    let arc = ArcConnector { origin, axis, angle: std::f64::consts::PI };
    let revolve = RevoluteConnector { origin, axis };
    let extrude = ExtrudeConnector { vector: axis };
    assert_eq!(arc.origin, revolve.origin);
    assert_eq!(extrude.vector, revolve.axis);
    assert_eq!(LineConnector, LineConnector);
}
