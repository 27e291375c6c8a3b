use monstertruck::step::dispatch::{
    dispatch_complex, dispatch_simple, ComplexDispatch, Dispatch, LabelUse, ListShape, NonRationalCurveForm,
    NonRationalSurfaceForm, ParameterShape, PositionalLayout, RecordHead, Source, TableField,
};
use monstertruck::step::records::SurfaceCurveEntityKind;

#[test]
fn plain_records_deserialize_into_their_table() {
    assert_eq!(
        dispatch_simple("CARTESIAN_POINT", ParameterShape::List(2)),
        Dispatch::Deserialize { field: TableField::CartesianPoint, source: Source::Record }
    );
    assert_eq!(
        dispatch_simple("ADVANCED_FACE", ParameterShape::List(4)),
        Dispatch::Deserialize { field: TableField::FaceSurface, source: Source::Parameter }
    );
    assert_eq!(
        dispatch_simple("FACE_OUTER_BOUND", ParameterShape::List(3)),
        Dispatch::Deserialize { field: TableField::FaceBound, source: Source::Parameter }
    );
    assert_eq!(
        dispatch_simple("ADVANCED_BREP_SHAPE_REPRESENTATION", ParameterShape::List(3)),
        Dispatch::Deserialize { field: TableField::ShapeRepresentation, source: Source::Parameter }
    );
}

#[test]
fn the_degenerate_torus_has_its_own_table() {
    assert_eq!(
        dispatch_simple("DEGENERATE_TOROIDAL_SURFACE", ParameterShape::List(5)),
        Dispatch::Deserialize { field: TableField::DegenerateToroidalSurface, source: Source::Record }
    );
    assert_eq!(
        dispatch_simple("TOROIDAL_SURFACE", ParameterShape::List(4)),
        Dispatch::Deserialize { field: TableField::ToroidalSurface, source: Source::Record }
    );
}

#[test]
fn surface_curves_keep_their_spelling() {
    assert_eq!(
        dispatch_simple("SEAM_CURVE", ParameterShape::List(4)),
        Dispatch::SurfaceCurve { kind: SurfaceCurveEntityKind::Seam }
    );
    assert_eq!(
        dispatch_simple("INTERSECTION_CURVE", ParameterShape::List(4)),
        Dispatch::SurfaceCurve { kind: SurfaceCurveEntityKind::Intersection }
    );
    assert_eq!(
        dispatch_simple("SURFACE_CURVE", ParameterShape::Other),
        Dispatch::SurfaceCurve { kind: SurfaceCurveEntityKind::Surface }
    );
}

#[test]
fn positional_records_need_their_exact_shape() {
    assert_eq!(
        dispatch_simple("ORIENTED_EDGE", ParameterShape::List(5)),
        Dispatch::Positional { field: TableField::OrientedEdge, layout: PositionalLayout::OrientedEdge }
    );
    assert_eq!(
        dispatch_simple("ORIENTED_EDGE", ParameterShape::List(4)),
        Dispatch::UnexpectedShape { expected: ListShape::Exactly(5) }
    );
    assert_eq!(
        dispatch_simple("ORIENTED_CLOSED_SHELL", ParameterShape::Other),
        Dispatch::UnexpectedShape { expected: ListShape::Exactly(4) }
    );
    assert_eq!(
        dispatch_simple("PRODUCT_DEFINITION_FORMATION_WITH_SPECIFIED_SOURCE", ParameterShape::List(4)),
        Dispatch::Positional {
            field: TableField::ProductDefinitionFormation,
            layout: PositionalLayout::FormationWithSource
        }
    );
    assert_eq!(
        dispatch_simple("PRODUCT_DEFINITION_FORMATION_WITH_SPECIFIED_SOURCE", ParameterShape::List(2)),
        Dispatch::UnexpectedShape { expected: ListShape::AtLeast(3) }
    );
    assert_eq!(PositionalLayout::OrientedEdge.picks(), vec![0, 3, 4]);
    assert_eq!(PositionalLayout::OrientedElement.picks(), vec![0, 2, 3]);
    assert_eq!(PositionalLayout::ManifoldSolidBrep.picks(), vec![0, 1]);
    assert_eq!(PositionalLayout::DefinitionalRepresentation.shape(), ListShape::Exactly(3));
}

#[test]
fn unknown_names_are_kept_as_dummies() {
    assert_eq!(dispatch_simple("POINT_STYLE", ParameterShape::List(4)), Dispatch::Dummy);
    assert_eq!(dispatch_simple("cartesian_point", ParameterShape::List(2)), Dispatch::Dummy);
    assert_eq!(dispatch_simple("", ParameterShape::Other), Dispatch::Dummy);
}

fn heads(parts: &[(&str, bool)]) -> Vec<RecordHead> {
    parts
        .iter()
        .map(|&(name, list)| RecordHead {
            name: name.to_string(),
            parameter: if list { ParameterShape::List(1) } else { ParameterShape::Other },
        })
        .collect()
}

#[test]
fn a_rational_bspline_curve_with_knots_is_recognised() {
    let records = heads(&[
        ("BOUNDED_CURVE", false),
        ("B_SPLINE_CURVE", true),
        ("B_SPLINE_CURVE_WITH_KNOTS", true),
        ("CURVE", false),
        ("GEOMETRIC_REPRESENTATION_ITEM", false),
        ("RATIONAL_B_SPLINE_CURVE", true),
        ("REPRESENTATION_ITEM", true),
    ]);
    assert_eq!(
        dispatch_complex(&records),
        ComplexDispatch::RationalCurve {
            form: NonRationalCurveForm::BsplineCurveWithKnots,
            label: 6,
            label_use: LabelUse::WholeList,
            bspline: 1,
            knots: Some(2),
            weights: 5,
        }
    );
}

#[test]
fn a_rational_quasi_uniform_curve_reads_only_the_first_label() {
    let records = heads(&[
        ("BOUNDED_CURVE", false),
        ("B_SPLINE_CURVE", true),
        ("CURVE", false),
        ("GEOMETRIC_REPRESENTATION_ITEM", false),
        ("QUASI_UNIFORM_CURVE", false),
        ("RATIONAL_B_SPLINE_CURVE", true),
        ("REPRESENTATION_ITEM", true),
    ]);
    assert_eq!(
        dispatch_complex(&records),
        ComplexDispatch::RationalCurve {
            form: NonRationalCurveForm::QuasiUniformCurve,
            label: 6,
            label_use: LabelUse::FirstElement,
            bspline: 1,
            knots: None,
            weights: 5,
        }
    );
}

#[test]
fn a_rational_uniform_surface_is_recognised() {
    let records = heads(&[
        ("BOUNDED_SURFACE", false),
        ("B_SPLINE_SURFACE", true),
        ("GEOMETRIC_REPRESENTATION_ITEM", false),
        ("RATIONAL_B_SPLINE_SURFACE", true),
        ("REPRESENTATION_ITEM", true),
        ("SURFACE", false),
        ("UNIFORM_SURFACE", false),
    ]);
    assert_eq!(
        dispatch_complex(&records),
        ComplexDispatch::RationalSurface {
            form: NonRationalSurfaceForm::UniformSurface,
            label: 4,
            bspline: 1,
            knots: None,
            weights: 3,
        }
    );
}

#[test]
fn a_weights_record_without_a_list_is_a_dummy() {
    let records = heads(&[
        ("BOUNDED_CURVE", false),
        ("B_SPLINE_CURVE", true),
        ("B_SPLINE_CURVE_WITH_KNOTS", true),
        ("CURVE", false),
        ("GEOMETRIC_REPRESENTATION_ITEM", false),
        ("RATIONAL_B_SPLINE_CURVE", false),
        ("REPRESENTATION_ITEM", true),
    ]);
    assert_eq!(dispatch_complex(&records), ComplexDispatch::Dummy);
}

#[test]
fn the_placement_relationship_is_recognised() {
    let records = heads(&[
        ("REPRESENTATION_RELATIONSHIP", true),
        ("REPRESENTATION_RELATIONSHIP_WITH_TRANSFORMATION", true),
        ("SHAPE_REPRESENTATION_RELATIONSHIP", false),
    ]);
    assert_eq!(
        dispatch_complex(&records),
        ComplexDispatch::RelationshipWithTransformation { relationship: 0, transformation: 1 }
    );
    let other = heads(&[("A", true), ("B", true)]);
    assert_eq!(dispatch_complex(&other), ComplexDispatch::Dummy);
}
