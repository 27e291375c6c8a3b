use monstertruck::text::{is_degenerate_contour, transform_point, Segment};

#[test]
fn contour_y_flip() {
    let pt = transform_point::<f64>(10.0, 20.0, 0.01, true, 5.0);
    assert!((pt.x - 0.1).abs() < 1e-10);
    assert!((pt.y - (-0.2)).abs() < 1e-10);
    assert!((pt.z - 5.0).abs() < 1e-10);
}

#[test]
fn contour_no_y_flip() {
    let pt = transform_point::<f64>(10.0, 20.0, 0.01, false, 0.0);
    assert!((pt.x - 0.1).abs() < 1e-10);
    assert!((pt.y - 0.2).abs() < 1e-10);
}

#[test]
fn degenerate_contour_filtered() {
    assert!(is_degenerate_contour(
        5.0,
        5.0,
        &[Segment::Line(5.0, 5.0), Segment::Line(5.0, 5.0)]
    ));
    assert!(!is_degenerate_contour(0.0, 0.0, &[Segment::Line(1.0, 0.0)]));
}

#[test]
fn integer_points_scale_and_flip_exactly() {
    let p = transform_point(3i64, 4i64, 2i64, true, 7i64);
    assert_eq!((p.x, p.y, p.z), (6, -8, 7));
    let q = transform_point(3i64, 4i64, 2i64, false, 0i64);
    assert_eq!((q.x, q.y, q.z), (6, 8, 0));
}

#[test]
fn curved_segments_count_toward_degeneracy() {
    assert!(is_degenerate_contour(1, 2, &[Segment::Quad(1, 2, 1, 2), Segment::Cubic(1, 2, 1, 2, 1, 2)]));
    assert!(!is_degenerate_contour(1, 2, &[Segment::Quad(1, 3, 1, 2)]));
    assert!(!is_degenerate_contour(1, 2, &[Segment::Line(1, 2), Segment::Cubic(1, 2, 1, 2, 0, 2)]));
    assert!(is_degenerate_contour::<i32>(0, 0, &[]));
}
