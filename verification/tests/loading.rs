use monstertruck::step::decode::{decode_latin1, decode_step_bytes};
use monstertruck::step::dispatch::{ListShape, ParameterShape};
use monstertruck::step::knots::{quasi_uniform_knot_values, uniform_knot_values};
use monstertruck::step::report::{complex_entity_name, decimal, shape_mismatch_message};
use monstertruck::step::resolve::{
    bound_edge_loop, face_bound_entries, referenced_id, resolve_bound, resolve_in, resolve_shell_face,
    BoundResolution, FaceTarget, Reference,
};
use monstertruck::step::surface_curve::{
    is_intersection_of_surfaces, master_representation, surface_curve_kind, AssociatedGeometryKind,
    SurfaceCurveKind, SurfaceCurveRepresentation,
};
use monstertruck::step::records::{PreferredSurfaceCurveRepresentation, SurfaceCurveEntityKind};
use std::collections::HashSet;

#[test]
fn utf8_bytes_decode_as_utf8() {
    let text = "#1=PRODUCT('Ä','x',$,(#2));";
    assert_eq!(decode_step_bytes(text.as_bytes()), text);
}

#[test]
fn latin1_bytes_decode_one_char_per_byte() {
    // `FILE_NAME('Д')` written as a raw CP1251 byte: not UTF-8.
    let bytes: &[u8] = &[b'F', b'(', b'\'', 0xC4, b'\'', b')', b';'];
    let text = decode_step_bytes(bytes);
    assert_eq!(text.chars().count(), bytes.len());
    assert_eq!(text, "F('\u{C4}');");
    assert_eq!(decode_latin1(&[0x41, 0xFF]), "A\u{FF}");
}

#[test]
fn uniform_knots_start_at_minus_degree() {
    assert_eq!(uniform_knot_values(4, 2), vec![-2, -1, 0, 1, 2, 3, 4]);
    assert_eq!(uniform_knot_values(1, 0), vec![0, 1]);
}

#[test]
fn shape_mismatch_messages_name_both_shapes() {
    assert_eq!(
        shape_mismatch_message(ListShape::Exactly(5), ParameterShape::List(3)),
        "expected a list of 5, got a list of 3"
    );
    assert_eq!(
        shape_mismatch_message(ListShape::AtLeast(3), ParameterShape::Other),
        "expected a list of 3 or more, got a non-list parameter"
    );
    assert_eq!(decimal(0), "0");
    assert_eq!(decimal(1204), "1204");
    assert_eq!(decimal(usize::MAX), usize::MAX.to_string());
}

#[test]
fn complex_instances_are_tallied_under_joined_names() {
    let names = vec!["PRODUCT_DEFINITION".to_string(), "PRODUCT_DEFINITION_SHAPE".to_string()];
    assert_eq!(complex_entity_name(&names), "PRODUCT_DEFINITION+PRODUCT_DEFINITION_SHAPE");
    assert_eq!(complex_entity_name(&vec!["A".to_string()]), "A");
    assert_eq!(complex_entity_name(&Vec::new()), "");
}

#[test]
fn a_vertex_loop_bound_is_recognised_not_lost() {
    let edge_loops: HashSet<u64> = [10].into_iter().collect();
    let vertex_loops: HashSet<u64> = [11, 10].into_iter().collect();
    assert_eq!(resolve_bound(Reference::Entity(10), &edge_loops, &vertex_loops), BoundResolution::EdgeLoop(10));
    assert_eq!(resolve_bound(Reference::Entity(11), &edge_loops, &vertex_loops), BoundResolution::VertexLoop(11));
    assert_eq!(resolve_bound(Reference::Entity(12), &edge_loops, &vertex_loops), BoundResolution::Unresolved(Some(12)));
    assert_eq!(resolve_bound(Reference::Other, &edge_loops, &vertex_loops), BoundResolution::Unresolved(None));
    assert_eq!(resolve_bound(Reference::Inline, &edge_loops, &vertex_loops), BoundResolution::InlineEdgeLoop);
    assert_eq!(bound_edge_loop(BoundResolution::VertexLoop(11)), None);
    assert_eq!(bound_edge_loop(BoundResolution::EdgeLoop(10)), Some(Some(10)));
}

#[test]
fn shell_faces_prefer_oriented_faces() {
    let oriented: HashSet<u64> = [1].into_iter().collect();
    let plain: HashSet<u64> = [1, 2].into_iter().collect();
    assert_eq!(resolve_shell_face(Reference::Entity(1), &oriented, &plain), Some(FaceTarget::OrientedFace(1)));
    assert_eq!(resolve_shell_face(Reference::Entity(2), &oriented, &plain), Some(FaceTarget::FaceSurface(2)));
    assert_eq!(resolve_shell_face(Reference::Entity(3), &oriented, &plain), None);
    assert_eq!(resolve_in(Reference::Entity(2), &plain), Some(Some(2)));
    assert_eq!(resolve_in(Reference::Entity(5), &plain), None);
    assert_eq!(referenced_id(Reference::Entity(5)), Some(5));
    assert_eq!(referenced_id(Reference::Inline), None);
    let bounds = vec![Reference::Entity(1), Reference::Entity(9), Reference::Inline, Reference::Other];
    assert_eq!(
        face_bound_entries(&bounds, &plain),
        vec![(Some(1), true), (Some(9), false), (None, true), (None, false)]
    );
}

#[test]
fn surface_curves_map_their_spelling_and_master() {
    assert_eq!(surface_curve_kind(SurfaceCurveEntityKind::Seam), SurfaceCurveKind::SeamCurve);
    assert_eq!(surface_curve_kind(SurfaceCurveEntityKind::default()), SurfaceCurveKind::SurfaceCurve);
    assert_eq!(
        master_representation(PreferredSurfaceCurveRepresentation::PcurveS2),
        SurfaceCurveRepresentation::ParameterCurve1
    );

    assert!(is_intersection_of_surfaces(&[AssociatedGeometryKind::Surface, AssociatedGeometryKind::Surface]));
    assert!(!is_intersection_of_surfaces(&[AssociatedGeometryKind::Surface]));
    assert!(!is_intersection_of_surfaces(&[AssociatedGeometryKind::Surface, AssociatedGeometryKind::ParameterCurve]));
}

#[test]
fn quasi_uniform_knots_are_clamped_integers() {
    assert_eq!(quasi_uniform_knot_values(5, 2), vec![0, 0, 0, 1, 2, 3, 3, 3]);
    assert_eq!(quasi_uniform_knot_values(2, 1), vec![0, 0, 1, 1]);
    assert_eq!(quasi_uniform_knot_values(4, 0), vec![0, 1, 2, 3, 4]);
}
