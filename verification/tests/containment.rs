use monstertruck::classes::{CurveClass, SurfaceClass};
use monstertruck::containment::{
    containment_test, same_surface_verdict, tested_form, ContainmentTest, CurveShape, NetSurface, PlainCurve,
    SameSurfaceVerdict, SurfaceShape, TestedCurve,
};

fn own(class: PlainCurve) -> TestedCurve { TestedCurve { class, leader: false } }
fn lead(class: PlainCurve) -> TestedCurve { TestedCurve { class, leader: true } }

#[test]
fn parameter_curves_are_decided_by_their_surface() {
    for surface in [
        SurfaceShape::Plane,
        SurfaceShape::BsplineSurface,
        SurfaceShape::NurbsSurface,
        SurfaceShape::RevolutionSurface { profile: CurveShape::ParameterCurve },
        SurfaceShape::TsplineSurface,
        SurfaceShape::SphericalSurface,
        SurfaceShape::ToroidalSurface,
    ] {
        assert_eq!(containment_test(surface, CurveShape::ParameterCurve), ContainmentTest::SameSurface);
    }
}

#[test]
fn net_surfaces_test_the_curve_or_its_leader() {
    assert_eq!(
        containment_test(SurfaceShape::Plane, CurveShape::Line),
        ContainmentTest::ControlNet { surface: NetSurface::Plane, curve: own(PlainCurve::Line) }
    );
    assert_eq!(
        containment_test(SurfaceShape::NurbsSurface, CurveShape::BsplineCurve),
        ContainmentTest::ControlNet { surface: NetSurface::NurbsSurface, curve: own(PlainCurve::BsplineCurve) }
    );
    assert_eq!(
        containment_test(SurfaceShape::BsplineSurface, CurveShape::IntersectionCurve { leader: CurveClass::NurbsCurve }),
        ContainmentTest::ControlNet { surface: NetSurface::BsplineSurface, curve: lead(PlainCurve::NurbsCurve) }
    );
    assert_eq!(
        containment_test(
            SurfaceShape::BsplineSurface,
            CurveShape::IntersectionCurve { leader: CurveClass::IntersectionCurve }
        ),
        ContainmentTest::Refuse
    );
    assert_eq!(
        containment_test(SurfaceShape::Plane, CurveShape::IntersectionCurve { leader: CurveClass::ParameterCurve }),
        ContainmentTest::Refuse
    );
}

#[test]
fn revolution_surfaces_revolve_a_plain_profile() {
    let cone = SurfaceShape::RevolutionSurface { profile: CurveShape::Line };
    assert_eq!(
        containment_test(cone, CurveShape::NurbsCurve),
        ContainmentTest::RevolvedProfile { profile: own(PlainCurve::Line), curve: own(PlainCurve::NurbsCurve) }
    );
    let traced = SurfaceShape::RevolutionSurface {
        profile: CurveShape::IntersectionCurve { leader: CurveClass::BsplineCurve },
    };
    assert_eq!(
        containment_test(traced, CurveShape::IntersectionCurve { leader: CurveClass::Line }),
        ContainmentTest::RevolvedProfile { profile: lead(PlainCurve::BsplineCurve), curve: lead(PlainCurve::Line) }
    );
    let on_parameter_curve = SurfaceShape::RevolutionSurface { profile: CurveShape::ParameterCurve };
    assert_eq!(containment_test(on_parameter_curve, CurveShape::Line), ContainmentTest::Refuse);
    assert_eq!(
        containment_test(cone, CurveShape::IntersectionCurve { leader: CurveClass::IntersectionCurve }),
        ContainmentTest::Refuse
    );
}

#[test]
fn other_surfaces_sample_the_curve() {
    assert_eq!(containment_test(SurfaceShape::TsplineSurface, CurveShape::Line), ContainmentTest::LiftedControlPoints);
    assert_eq!(
        containment_test(SurfaceShape::SphericalSurface, CurveShape::IntersectionCurve { leader: CurveClass::IntersectionCurve }),
        ContainmentTest::SampledPoints
    );
    assert_eq!(containment_test(SurfaceShape::ToroidalSurface, CurveShape::NurbsCurve), ContainmentTest::SampledPoints);
}

#[test]
fn tested_forms() {
    assert_eq!(tested_form(CurveShape::ParameterCurve), None);
    assert_eq!(tested_form(CurveShape::IntersectionCurve { leader: CurveClass::Line }), Some(lead(PlainCurve::Line)));
    assert_eq!(tested_form(CurveShape::BsplineCurve), Some(own(PlainCurve::BsplineCurve)));
}

#[test]
fn same_surface_verdicts() {
    assert_eq!(
        same_surface_verdict(SurfaceClass::Plane, SurfaceClass::NurbsSurface, 7, 7),
        SameSurfaceVerdict::Different
    );
    assert_eq!(
        same_surface_verdict(SurfaceClass::Plane, SurfaceClass::Plane, 7, 7),
        SameSurfaceVerdict::Identical
    );
    assert_eq!(
        same_surface_verdict(SurfaceClass::Plane, SurfaceClass::Plane, 7, 8),
        SameSurfaceVerdict::CompareSamples
    );
}
