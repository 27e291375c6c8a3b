use monstertruck::boxes::{
    certified_solid_bounding_box, intersect_boxes, join_boxes, push_box_corners, BoundingBox, Point3,
};

fn bx(min: (i64, i64, i64), max: (i64, i64, i64)) -> BoundingBox<i64> {
    BoundingBox {
        min: Point3 { x: min.0, y: min.1, z: min.2 },
        max: Point3 { x: max.0, y: max.1, z: max.2 },
    }
}

#[test]
fn solid_box_is_the_union_of_its_face_boxes() {
    let faces = vec![
        Some(bx((0, 0, 0), (1, 1, 1))),
        Some(bx((-1, 2, 0), (0, 3, 5))),
        Some(bx((0, -4, 0), (2, 0, 0))),
    ];
    assert_eq!(certified_solid_bounding_box(&faces), Some(bx((-1, -4, 0), (2, 3, 5))));
}

#[test]
fn one_uncertified_face_refuses_the_solid() {
    let faces = vec![Some(bx((0, 0, 0), (1, 1, 1))), None, Some(bx((0, 0, 0), (2, 2, 2)))];
    assert_eq!(certified_solid_bounding_box(&faces), None);
}

#[test]
fn a_solid_without_faces_has_no_box() {
    let faces: Vec<Option<BoundingBox<i64>>> = Vec::new();
    assert_eq!(certified_solid_bounding_box(&faces), None);
}

#[test]
fn float_boxes_join_like_the_geometry() {
    let a = BoundingBox {
        min: Point3 { x: 0.0, y: 0.0, z: 0.0 },
        max: Point3 { x: 1.0, y: 1.0, z: 1.0 },
    };
    let b = BoundingBox {
        min: Point3 { x: -0.5, y: 0.25, z: 0.0 },
        max: Point3 { x: 0.5, y: 2.0, z: 1.5 },
    };
    let joined = join_boxes(a, b);
    assert_eq!(joined.min, Point3 { x: -0.5, y: 0.0, z: 0.0 });
    assert_eq!(joined.max, Point3 { x: 1.0, y: 2.0, z: 1.5 });
}

#[test]
fn overlapping_boxes_intersect() {
    let a = bx((0, 0, 0), (4, 4, 4));
    let b = bx((2, -1, 3), (6, 2, 9));
    assert_eq!(intersect_boxes(a, b), Some(bx((2, 0, 3), (4, 2, 4))));
}

#[test]
fn disjoint_boxes_refuse_to_intersect() {
    let a = bx((0, 0, 0), (1, 1, 1));
    let b = bx((-1, 2, 0), (0, 3, 5));
    assert_eq!(intersect_boxes(a, b), None);
    let touching = bx((1, 0, 0), (2, 1, 1));
    assert_eq!(intersect_boxes(a, touching), Some(bx((1, 0, 0), (1, 1, 1))));
}

#[test]
fn corners_come_lower_first_z_fastest() {
    let mut points = vec![Point3 { x: 9, y: 9, z: 9 }];
    push_box_corners(&bx((0, 1, 2), (3, 4, 5)), &mut points);
    let got: Vec<(i64, i64, i64)> = points.iter().map(|p| (p.x, p.y, p.z)).collect();
    assert_eq!(
        got,
        vec![
            (9, 9, 9),
            (0, 1, 2),
            (0, 1, 5),
            (0, 4, 2),
            (0, 4, 5),
            (3, 1, 2),
            (3, 1, 5),
            (3, 4, 2),
            (3, 4, 5),
        ]
    );
}
