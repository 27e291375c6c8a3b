use monstertruck::bounding::{
    certified_box_method, face_class_label, uncertifiable_face_classes, BoxMethod, EdgeHull, FaceCertificate,
};
use monstertruck::classes::{
    conic_hash_tag, curve2d_hash_tag, curve_class_name, curve_hash_tag, surface_class_name, surface_hash_tag, surface_kind,
    ConicClass, Curve2DClass, CurveClass, SurfaceClass, SurfaceKind,
};

fn edge(class: CurveClass, enclosed: bool) -> EdgeHull {
    EdgeHull { class, enclosed }
}

#[test]
fn every_bounded_face_reports_nothing() {
    let faces = vec![
        FaceCertificate { surface: SurfaceClass::Plane, certified: true, edges: vec![edge(CurveClass::Line, true)] },
        FaceCertificate { surface: SurfaceClass::SphericalSurface, certified: true, edges: vec![] },
    ];
    assert!(uncertifiable_face_classes(&faces).is_empty());
}

#[test]
fn labels_name_the_blocking_curve_classes_sorted_and_once() {
    let edges = vec![
        edge(CurveClass::ParameterCurve, false),
        edge(CurveClass::Line, true),
        edge(CurveClass::IntersectionCurve, false),
        edge(CurveClass::ParameterCurve, false),
    ];
    assert_eq!(
        face_class_label(SurfaceClass::Plane, &edges),
        "Plane/IntersectionCurve/ParameterCurve"
    );
}

#[test]
fn classes_are_deduplicated_and_sorted() {
    let faces = vec![
        FaceCertificate { surface: SurfaceClass::TsplineSurface, certified: false, edges: vec![] },
        FaceCertificate {
            surface: SurfaceClass::RevolutionSurface,
            certified: false,
            edges: vec![edge(CurveClass::NurbsCurve, false)],
        },
        FaceCertificate { surface: SurfaceClass::TsplineSurface, certified: false, edges: vec![] },
        FaceCertificate { surface: SurfaceClass::Plane, certified: true, edges: vec![edge(CurveClass::NurbsCurve, false)] },
        FaceCertificate { surface: SurfaceClass::RevolutionSurface, certified: false, edges: vec![] },
    ];
    assert_eq!(
        uncertifiable_face_classes(&faces),
        vec!["RevolutionSurface", "RevolutionSurface/NurbsCurve", "TsplineSurface"]
    );
}

#[test]
fn class_names_and_lens_names() {
    assert_eq!(surface_class_name(SurfaceClass::ToroidalSurface), "ToroidalSurface");
    assert_eq!(curve_class_name(CurveClass::IntersectionCurve), "IntersectionCurve");
    assert_eq!(surface_kind(SurfaceClass::SphericalSurface), "sphere");
    assert_eq!(surface_kind(SurfaceClass::BsplineSurface), "bspline");
    assert_eq!(
        SurfaceKind::RevolutionSurface { profile: CurveClass::Line, orientation: true }.class(),
        SurfaceClass::RevolutionSurface
    );
}

#[test]
fn hash_tags_keep_the_old_values_and_add_new_ones() {
    assert_eq!(surface_hash_tag(SurfaceClass::Plane), 0);
    assert_eq!(surface_hash_tag(SurfaceClass::TsplineSurface), 4);
    assert_eq!(surface_hash_tag(SurfaceClass::SphericalSurface), 5);
    assert_eq!(surface_hash_tag(SurfaceClass::ToroidalSurface), 6);
    assert_eq!(curve_hash_tag(CurveClass::IntersectionCurve), 4);
    assert_eq!(curve2d_hash_tag(Curve2DClass::Conic), 2);
    assert_eq!(conic_hash_tag(ConicClass::Parabola), 2);
}

#[test]
fn each_surface_class_is_bounded_by_its_own_argument() {
    let cone = SurfaceKind::RevolutionSurface { profile: CurveClass::Line, orientation: true };
    let curved = SurfaceKind::RevolutionSurface { profile: CurveClass::NurbsCurve, orientation: true };
    assert_eq!(certified_box_method(SurfaceKind::Plane, true), BoxMethod::BoundaryHull);
    assert_eq!(certified_box_method(SurfaceKind::Plane, false), BoxMethod::Refuse);
    assert_eq!(certified_box_method(SurfaceKind::BsplineSurface, false), BoxMethod::ControlPoints);
    assert_eq!(certified_box_method(SurfaceKind::NurbsSurface, false), BoxMethod::WeightedControlPoints);
    assert_eq!(certified_box_method(SurfaceKind::SphericalSurface, false), BoxMethod::Ball);
    assert_eq!(certified_box_method(SurfaceKind::ToroidalSurface, true), BoxMethod::Ring);
    assert_eq!(certified_box_method(cone, true), BoxMethod::RevolutionRegion);
    assert_eq!(certified_box_method(cone, false), BoxMethod::Refuse);
    assert_eq!(certified_box_method(curved, true), BoxMethod::Refuse);
    assert_eq!(certified_box_method(SurfaceKind::TsplineSurface, true), BoxMethod::Refuse);
}
