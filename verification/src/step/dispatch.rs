//! How the records of a STEP data section are routed into the entity tables.
//!
//! A simple record is routed by its entity name: most names deserialize into
//! one table, from the whole record or from its parameter list; a few are
//! taken apart by position, and only when their parameter list has the shape
//! the entity requires; `surface_curve`, `seam_curve` and `intersection_curve`
//! share a table and keep their spelling; any other name lands in the dummy
//! table. A complex record is routed by the sequence of its partial records:
//! the rational B-spline curves and surfaces and the shape representation
//! relationship with transformation are recognised, everything else is kept
//! as a dummy.

use vstd::prelude::*;
use crate::strings::str_eq;
use super::records::SurfaceCurveEntityKind;

verus! {

/// The shape of a record's parameter: a list of so many parameters, or any
/// other parameter.
#[derive(Clone, Copy, Debug, PartialEq, Eq, Structural)]
pub enum ParameterShape {
    List(usize),
    Other,
}

/// The entity tables of a loaded STEP exchange.
#[derive(Clone, Copy, Debug, PartialEq, Eq, Hash, Structural)]
pub enum TableField {
    Representation,
    RepresentationItem,
    RepresentationContext,
    CartesianPoint,
    Direction,
    Vector,
    Placement,
    Axis1Placement,
    Axis2Placement2d,
    Axis2Placement3d,
    Line,
    Polyline,
    BsplineCurveWithKnots,
    BezierCurve,
    QuasiUniformCurve,
    UniformCurve,
    RationalBsplineCurve,
    Circle,
    Ellipse,
    Hyperbola,
    Parabola,
    Pcurve,
    SurfaceCurve,
    Plane,
    SphericalSurface,
    CylindricalSurface,
    ToroidalSurface,
    DegenerateToroidalSurface,
    ConicalSurface,
    BsplineSurfaceWithKnots,
    UniformSurface,
    QuasiUniformSurface,
    BezierSurface,
    RationalBsplineSurface,
    SurfaceOfLinearExtrusion,
    SurfaceOfRevolution,
    VertexPoint,
    EdgeCurve,
    OrientedEdge,
    EdgeLoop,
    VertexLoop,
    FaceBound,
    FaceSurface,
    OrientedFace,
    Shell,
    OrientedShell,
    ShellBasedSurfaceModel,
    ManifoldSolidBrep,
    ApplicationContext,
    ProductContext,
    Product,
    ProductDefinitionFormation,
    ProductDefinitionContext,
    ProductDefinition,
    ProductDefinitionShape,
    ShapeDefinitionRepresentation,
    ShapeRepresentation,
    ContextDependentShapeRepresentation,
    ShapeRepresentationRelationship,
    ShapeRepresentationRelationshipWithTransformation,
    NextAssemblyUsageOccurrence,
    ItemDefinedTransformation,
    GeometricCurveSet,
    DefinitionalRepresentation,
    Dummy,
}

/// What a record deserializes from: the whole record, or its parameter list.
#[derive(Clone, Copy, Debug, PartialEq, Eq, Structural)]
pub enum Source {
    Record,
    Parameter,
}

/// The shape a positional record's parameter list must have.
#[derive(Clone, Copy, Debug, PartialEq, Eq, Structural)]
pub enum ListShape {
    Exactly(usize),
    AtLeast(usize),
}

/// How a record that is taken apart by position is read.
#[derive(Clone, Copy, Debug, PartialEq, Eq, Structural)]
pub enum PositionalLayout {
    /// `oriented_edge`: label, edge element and orientation at 0, 3 and 4 of 5.
    OrientedEdge,
    /// `oriented_face` and the oriented shells: label, element and
    /// orientation at 0, 2 and 3 of 4.
    OrientedElement,
    /// `manifold_solid_brep`: label and outer shell at 0 and 1 of 2, no voids.
    ManifoldSolidBrep,
    /// `product_definition_formation_with_specified_source`: id, description
    /// and product at 0, 1 and 2 of at least 3.
    FormationWithSource,
    /// `definitional_representation`: label, items and context at 0, 1 and 2
    /// of 3.
    DefinitionalRepresentation,
}

/// Where a simple record goes.
#[derive(Clone, Copy, Debug, PartialEq, Eq, Structural)]
pub enum Dispatch {
    /// Deserialize into `field` from `source`.
    Deserialize { field: TableField, source: Source },
    /// Deserialize the shared surface-curve parameters and keep the spelling.
    SurfaceCurve { kind: SurfaceCurveEntityKind },
    /// Take the parameter list apart by position into `field`.
    Positional { field: TableField, layout: PositionalLayout },
    /// The entity is known but its parameter is not a list of the shape it
    /// requires; the record is reported and dropped.
    UnexpectedShape { expected: ListShape },
    /// No table has an arm for the name; the record is kept as a dummy.
    Dummy,
}

/// The list shape `layout` requires.
pub open spec fn layout_shape(layout: PositionalLayout) -> ListShape {
    match layout {
        PositionalLayout::OrientedEdge => ListShape::Exactly(5),
        PositionalLayout::OrientedElement => ListShape::Exactly(4),
        PositionalLayout::ManifoldSolidBrep => ListShape::Exactly(2),
        PositionalLayout::FormationWithSource => ListShape::AtLeast(3),
        PositionalLayout::DefinitionalRepresentation => ListShape::Exactly(3),
    }
}

/// The positions `layout` reads, in field order.
pub open spec fn layout_picks(layout: PositionalLayout) -> Seq<usize> {
    match layout {
        PositionalLayout::OrientedEdge => seq![0usize, 3, 4],
        PositionalLayout::OrientedElement => seq![0usize, 2, 3],
        PositionalLayout::ManifoldSolidBrep => seq![0usize, 1],
        PositionalLayout::FormationWithSource => seq![0usize, 1, 2],
        PositionalLayout::DefinitionalRepresentation => seq![0usize, 1, 2],
    }
}

/// Whether `parameter` has the list shape `shape`.
pub open spec fn shape_admits(shape: ListShape, parameter: ParameterShape) -> bool {
    match parameter {
        ParameterShape::List(len) => match shape {
            ListShape::Exactly(n) => len == n,
            ListShape::AtLeast(n) => len >= n,
        },
        ParameterShape::Other => false,
    }
}

/// A positional arm: read by position when the shape is right, report the
/// record otherwise.
pub open spec fn positional(
    field: TableField,
    layout: PositionalLayout,
    parameter: ParameterShape,
) -> Dispatch {
    if shape_admits(layout_shape(layout), parameter) {
        Dispatch::Positional { field, layout }
    } else {
        Dispatch::UnexpectedShape { expected: layout_shape(layout) }
    }
}

impl PositionalLayout {
    /// The list shape this layout requires.
    pub fn shape(&self) -> (shape: ListShape)
        ensures
            shape == layout_shape(*self),
    {
        match self {
            PositionalLayout::OrientedEdge => ListShape::Exactly(5),
            PositionalLayout::OrientedElement => ListShape::Exactly(4),
            PositionalLayout::ManifoldSolidBrep => ListShape::Exactly(2),
            PositionalLayout::FormationWithSource => ListShape::AtLeast(3),
            PositionalLayout::DefinitionalRepresentation => ListShape::Exactly(3),
        }
    }

    /// The positions this layout reads, in field order.
    pub fn picks(&self) -> (picks: Vec<usize>)
        ensures
            picks@ == layout_picks(*self),
    {
        let picks = match self {
            PositionalLayout::OrientedEdge => vec![0usize, 3, 4],
            PositionalLayout::OrientedElement => vec![0usize, 2, 3],
            PositionalLayout::ManifoldSolidBrep => vec![0usize, 1],
            PositionalLayout::FormationWithSource => vec![0usize, 1, 2],
            PositionalLayout::DefinitionalRepresentation => vec![0usize, 1, 2],
        };
        assert(picks@ =~= layout_picks(*self));
        picks
    }
}

fn shape_matches(shape: ListShape, parameter: ParameterShape) -> (admits: bool)
    ensures
        admits == shape_admits(shape, parameter),
{
    match parameter {
        ParameterShape::List(len) => match shape {
            ListShape::Exactly(n) => len == n,
            ListShape::AtLeast(n) => len >= n,
        },
        ParameterShape::Other => false,
    }
}

fn positional_dispatch(
    field: TableField,
    layout: PositionalLayout,
    parameter: ParameterShape,
) -> (dispatch: Dispatch)
    ensures
        dispatch == positional(field, layout, parameter),
{
    let shape = layout.shape();
    if shape_matches(shape, parameter) {
        Dispatch::Positional { field, layout }
    } else {
        Dispatch::UnexpectedShape { expected: shape }
    }
}

/// How a known entity name is routed, whatever its parameter.
#[derive(Clone, Copy, Debug, PartialEq, Eq, Structural)]
pub enum NamedRoute {
    /// Deserialize into the table from the record or its parameter list.
    Read(TableField, Source),
    /// One of the three surface-curve spellings.
    SurfaceCurve(SurfaceCurveEntityKind),
    /// Read by position into the table, when the parameter has the shape.
    ByPosition(TableField, PositionalLayout),
}

/// Every entity name with a table, and its route: the geometry records,
/// then the topology records, then the product records.
pub open spec fn route_table() -> Seq<(Seq<char>, NamedRoute)> {
    seq![
        ("CARTESIAN_POINT"@, NamedRoute::Read(TableField::CartesianPoint, Source::Record)),
        ("DIRECTION"@, NamedRoute::Read(TableField::Direction, Source::Record)),
        ("VECTOR"@, NamedRoute::Read(TableField::Vector, Source::Record)),
        ("PLACEMENT"@, NamedRoute::Read(TableField::Placement, Source::Record)),
        ("AXIS1_PLACEMENT"@, NamedRoute::Read(TableField::Axis1Placement, Source::Parameter)),
        ("AXIS2_PLACEMENT_2D"@, NamedRoute::Read(TableField::Axis2Placement2d, Source::Parameter)),
        ("AXIS2_PLACEMENT_3D"@, NamedRoute::Read(TableField::Axis2Placement3d, Source::Parameter)),
        ("LINE"@, NamedRoute::Read(TableField::Line, Source::Parameter)),
        ("POLYLINE"@, NamedRoute::Read(TableField::Polyline, Source::Record)),
        ("B_SPLINE_CURVE_WITH_KNOTS"@, NamedRoute::Read(TableField::BsplineCurveWithKnots, Source::Parameter)),
        ("BEZIER_CURVE"@, NamedRoute::Read(TableField::BezierCurve, Source::Record)),
        ("QUASI_UNIFORM_CURVE"@, NamedRoute::Read(TableField::QuasiUniformCurve, Source::Record)),
        ("UNIFORM_CURVE"@, NamedRoute::Read(TableField::UniformCurve, Source::Record)),
        ("CIRCLE"@, NamedRoute::Read(TableField::Circle, Source::Record)),
        ("ELLIPSE"@, NamedRoute::Read(TableField::Ellipse, Source::Record)),
        ("HYPERBOLA"@, NamedRoute::Read(TableField::Hyperbola, Source::Record)),
        ("PARABOLA"@, NamedRoute::Read(TableField::Parabola, Source::Record)),
        ("PCURVE"@, NamedRoute::Read(TableField::Pcurve, Source::Record)),
        ("SURFACE_CURVE"@, NamedRoute::SurfaceCurve(SurfaceCurveEntityKind::Surface)),
        ("SEAM_CURVE"@, NamedRoute::SurfaceCurve(SurfaceCurveEntityKind::Seam)),
        ("INTERSECTION_CURVE"@, NamedRoute::SurfaceCurve(SurfaceCurveEntityKind::Intersection)),
        ("PLANE"@, NamedRoute::Read(TableField::Plane, Source::Record)),
        ("SPHERICAL_SURFACE"@, NamedRoute::Read(TableField::SphericalSurface, Source::Record)),
        ("CYLINDRICAL_SURFACE"@, NamedRoute::Read(TableField::CylindricalSurface, Source::Record)),
        ("TOROIDAL_SURFACE"@, NamedRoute::Read(TableField::ToroidalSurface, Source::Record)),
        ("DEGENERATE_TOROIDAL_SURFACE"@, NamedRoute::Read(TableField::DegenerateToroidalSurface, Source::Record)),
        ("CONICAL_SURFACE"@, NamedRoute::Read(TableField::ConicalSurface, Source::Record)),
        ("B_SPLINE_SURFACE_WITH_KNOTS"@, NamedRoute::Read(TableField::BsplineSurfaceWithKnots, Source::Parameter)),
        ("UNIFORM_SURFACE"@, NamedRoute::Read(TableField::UniformSurface, Source::Record)),
        ("QUASI_UNIFORM_SURFACE"@, NamedRoute::Read(TableField::QuasiUniformSurface, Source::Record)),
        ("BEZIER_SURFACE"@, NamedRoute::Read(TableField::BezierSurface, Source::Record)),
        ("SURFACE_OF_LINEAR_EXTRUSION"@, NamedRoute::Read(TableField::SurfaceOfLinearExtrusion, Source::Record)),
        ("SURFACE_OF_REVOLUTION"@, NamedRoute::Read(TableField::SurfaceOfRevolution, Source::Record)),
        ("VERTEX_POINT"@, NamedRoute::Read(TableField::VertexPoint, Source::Record)),
        ("EDGE_CURVE"@, NamedRoute::Read(TableField::EdgeCurve, Source::Record)),
        ("ORIENTED_EDGE"@, NamedRoute::ByPosition(TableField::OrientedEdge, PositionalLayout::OrientedEdge)),
        ("EDGE_LOOP"@, NamedRoute::Read(TableField::EdgeLoop, Source::Record)),
        ("VERTEX_LOOP"@, NamedRoute::Read(TableField::VertexLoop, Source::Record)),
        ("FACE_BOUND"@, NamedRoute::Read(TableField::FaceBound, Source::Record)),
        ("FACE_OUTER_BOUND"@, NamedRoute::Read(TableField::FaceBound, Source::Parameter)),
        ("FACE_SURFACE"@, NamedRoute::Read(TableField::FaceSurface, Source::Record)),
        ("ADVANCED_FACE"@, NamedRoute::Read(TableField::FaceSurface, Source::Parameter)),
        ("ORIENTED_FACE"@, NamedRoute::ByPosition(TableField::OrientedFace, PositionalLayout::OrientedElement)),
        ("OPEN_SHELL"@, NamedRoute::Read(TableField::Shell, Source::Parameter)),
        ("CLOSED_SHELL"@, NamedRoute::Read(TableField::Shell, Source::Parameter)),
        ("ORIENTED_OPEN_SHELL"@, NamedRoute::ByPosition(TableField::OrientedShell, PositionalLayout::OrientedElement)),
        ("ORIENTED_CLOSED_SHELL"@, NamedRoute::ByPosition(TableField::OrientedShell, PositionalLayout::OrientedElement)),
        ("SHELL_BASED_SURFACE_MODEL"@, NamedRoute::Read(TableField::ShellBasedSurfaceModel, Source::Parameter)),
        ("MANIFOLD_SOLID_BREP"@, NamedRoute::ByPosition(TableField::ManifoldSolidBrep, PositionalLayout::ManifoldSolidBrep)),
        ("BREP_WITH_VOIDS"@, NamedRoute::Read(TableField::ManifoldSolidBrep, Source::Parameter)),
        ("GEOMETRIC_CURVE_SET"@, NamedRoute::Read(TableField::GeometricCurveSet, Source::Parameter)),
        ("DEFINITIONAL_REPRESENTATION"@, NamedRoute::ByPosition(TableField::DefinitionalRepresentation, PositionalLayout::DefinitionalRepresentation)),
        ("APPLICATION_CONTEXT"@, NamedRoute::Read(TableField::ApplicationContext, Source::Parameter)),
        ("PRODUCT_CONTEXT"@, NamedRoute::Read(TableField::ProductContext, Source::Parameter)),
        ("PRODUCT"@, NamedRoute::Read(TableField::Product, Source::Parameter)),
        ("PRODUCT_DEFINITION_FORMATION"@, NamedRoute::Read(TableField::ProductDefinitionFormation, Source::Parameter)),
        ("PRODUCT_DEFINITION_FORMATION_WITH_SPECIFIED_SOURCE"@, NamedRoute::ByPosition(TableField::ProductDefinitionFormation, PositionalLayout::FormationWithSource)),
        ("PRODUCT_DEFINITION_CONTEXT"@, NamedRoute::Read(TableField::ProductDefinitionContext, Source::Parameter)),
        ("PRODUCT_DEFINITION"@, NamedRoute::Read(TableField::ProductDefinition, Source::Parameter)),
        ("PRODUCT_DEFINITION_SHAPE"@, NamedRoute::Read(TableField::ProductDefinitionShape, Source::Parameter)),
        ("SHAPE_DEFINITION_REPRESENTATION"@, NamedRoute::Read(TableField::ShapeDefinitionRepresentation, Source::Parameter)),
        ("SHAPE_REPRESENTATION"@, NamedRoute::Read(TableField::ShapeRepresentation, Source::Parameter)),
        ("ADVANCED_BREP_SHAPE_REPRESENTATION"@, NamedRoute::Read(TableField::ShapeRepresentation, Source::Parameter)),
        ("CONTEXT_DEPENDENT_SHAPE_REPRESENTATION"@, NamedRoute::Read(TableField::ContextDependentShapeRepresentation, Source::Parameter)),
        ("SHAPE_REPRESENTATION_RELATIONSHIP"@, NamedRoute::Read(TableField::ShapeRepresentationRelationship, Source::Parameter)),
        ("NEXT_ASSEMBLY_USAGE_OCCURRENCE"@, NamedRoute::Read(TableField::NextAssemblyUsageOccurrence, Source::Parameter)),
        ("ITEM_DEFINED_TRANSFORMATION"@, NamedRoute::Read(TableField::ItemDefinedTransformation, Source::Parameter)),
    ]
}

/// The route of the first entry of `table` from position `i` on that names
/// `name`.
pub open spec fn route_from(table: Seq<(Seq<char>, NamedRoute)>, name: Seq<char>, i: int) -> Option<NamedRoute>
    decreases table.len() - i,
{
    if i < 0 || i >= table.len() {
        None
    } else if table[i].0 == name {
        Some(table[i].1)
    } else {
        route_from(table, name, i + 1)
    }
}

/// The route of `name`, if it has one.
pub open spec fn named_route(name: Seq<char>) -> Option<NamedRoute> {
    route_from(route_table(), name, 0)
}

/// The table of routes, as executable entries.
fn route_entries() -> (entries: Vec<(&'static str, NamedRoute)>)
    ensures
        entries@.map_values(|entry: (&'static str, NamedRoute)| (entry.0@, entry.1)) == route_table(),
{
    let entries = vec![
        ("CARTESIAN_POINT", NamedRoute::Read(TableField::CartesianPoint, Source::Record)),
        ("DIRECTION", NamedRoute::Read(TableField::Direction, Source::Record)),
        ("VECTOR", NamedRoute::Read(TableField::Vector, Source::Record)),
        ("PLACEMENT", NamedRoute::Read(TableField::Placement, Source::Record)),
        ("AXIS1_PLACEMENT", NamedRoute::Read(TableField::Axis1Placement, Source::Parameter)),
        ("AXIS2_PLACEMENT_2D", NamedRoute::Read(TableField::Axis2Placement2d, Source::Parameter)),
        ("AXIS2_PLACEMENT_3D", NamedRoute::Read(TableField::Axis2Placement3d, Source::Parameter)),
        ("LINE", NamedRoute::Read(TableField::Line, Source::Parameter)),
        ("POLYLINE", NamedRoute::Read(TableField::Polyline, Source::Record)),
        ("B_SPLINE_CURVE_WITH_KNOTS", NamedRoute::Read(TableField::BsplineCurveWithKnots, Source::Parameter)),
        ("BEZIER_CURVE", NamedRoute::Read(TableField::BezierCurve, Source::Record)),
        ("QUASI_UNIFORM_CURVE", NamedRoute::Read(TableField::QuasiUniformCurve, Source::Record)),
        ("UNIFORM_CURVE", NamedRoute::Read(TableField::UniformCurve, Source::Record)),
        ("CIRCLE", NamedRoute::Read(TableField::Circle, Source::Record)),
        ("ELLIPSE", NamedRoute::Read(TableField::Ellipse, Source::Record)),
        ("HYPERBOLA", NamedRoute::Read(TableField::Hyperbola, Source::Record)),
        ("PARABOLA", NamedRoute::Read(TableField::Parabola, Source::Record)),
        ("PCURVE", NamedRoute::Read(TableField::Pcurve, Source::Record)),
        ("SURFACE_CURVE", NamedRoute::SurfaceCurve(SurfaceCurveEntityKind::Surface)),
        ("SEAM_CURVE", NamedRoute::SurfaceCurve(SurfaceCurveEntityKind::Seam)),
        ("INTERSECTION_CURVE", NamedRoute::SurfaceCurve(SurfaceCurveEntityKind::Intersection)),
        ("PLANE", NamedRoute::Read(TableField::Plane, Source::Record)),
        ("SPHERICAL_SURFACE", NamedRoute::Read(TableField::SphericalSurface, Source::Record)),
        ("CYLINDRICAL_SURFACE", NamedRoute::Read(TableField::CylindricalSurface, Source::Record)),
        ("TOROIDAL_SURFACE", NamedRoute::Read(TableField::ToroidalSurface, Source::Record)),
        ("DEGENERATE_TOROIDAL_SURFACE", NamedRoute::Read(TableField::DegenerateToroidalSurface, Source::Record)),
        ("CONICAL_SURFACE", NamedRoute::Read(TableField::ConicalSurface, Source::Record)),
        ("B_SPLINE_SURFACE_WITH_KNOTS", NamedRoute::Read(TableField::BsplineSurfaceWithKnots, Source::Parameter)),
        ("UNIFORM_SURFACE", NamedRoute::Read(TableField::UniformSurface, Source::Record)),
        ("QUASI_UNIFORM_SURFACE", NamedRoute::Read(TableField::QuasiUniformSurface, Source::Record)),
        ("BEZIER_SURFACE", NamedRoute::Read(TableField::BezierSurface, Source::Record)),
        ("SURFACE_OF_LINEAR_EXTRUSION", NamedRoute::Read(TableField::SurfaceOfLinearExtrusion, Source::Record)),
        ("SURFACE_OF_REVOLUTION", NamedRoute::Read(TableField::SurfaceOfRevolution, Source::Record)),
        ("VERTEX_POINT", NamedRoute::Read(TableField::VertexPoint, Source::Record)),
        ("EDGE_CURVE", NamedRoute::Read(TableField::EdgeCurve, Source::Record)),
        ("ORIENTED_EDGE", NamedRoute::ByPosition(TableField::OrientedEdge, PositionalLayout::OrientedEdge)),
        ("EDGE_LOOP", NamedRoute::Read(TableField::EdgeLoop, Source::Record)),
        ("VERTEX_LOOP", NamedRoute::Read(TableField::VertexLoop, Source::Record)),
        ("FACE_BOUND", NamedRoute::Read(TableField::FaceBound, Source::Record)),
        ("FACE_OUTER_BOUND", NamedRoute::Read(TableField::FaceBound, Source::Parameter)),
        ("FACE_SURFACE", NamedRoute::Read(TableField::FaceSurface, Source::Record)),
        ("ADVANCED_FACE", NamedRoute::Read(TableField::FaceSurface, Source::Parameter)),
        ("ORIENTED_FACE", NamedRoute::ByPosition(TableField::OrientedFace, PositionalLayout::OrientedElement)),
        ("OPEN_SHELL", NamedRoute::Read(TableField::Shell, Source::Parameter)),
        ("CLOSED_SHELL", NamedRoute::Read(TableField::Shell, Source::Parameter)),
        ("ORIENTED_OPEN_SHELL", NamedRoute::ByPosition(TableField::OrientedShell, PositionalLayout::OrientedElement)),
        ("ORIENTED_CLOSED_SHELL", NamedRoute::ByPosition(TableField::OrientedShell, PositionalLayout::OrientedElement)),
        ("SHELL_BASED_SURFACE_MODEL", NamedRoute::Read(TableField::ShellBasedSurfaceModel, Source::Parameter)),
        ("MANIFOLD_SOLID_BREP", NamedRoute::ByPosition(TableField::ManifoldSolidBrep, PositionalLayout::ManifoldSolidBrep)),
        ("BREP_WITH_VOIDS", NamedRoute::Read(TableField::ManifoldSolidBrep, Source::Parameter)),
        ("GEOMETRIC_CURVE_SET", NamedRoute::Read(TableField::GeometricCurveSet, Source::Parameter)),
        ("DEFINITIONAL_REPRESENTATION", NamedRoute::ByPosition(TableField::DefinitionalRepresentation, PositionalLayout::DefinitionalRepresentation)),
        ("APPLICATION_CONTEXT", NamedRoute::Read(TableField::ApplicationContext, Source::Parameter)),
        ("PRODUCT_CONTEXT", NamedRoute::Read(TableField::ProductContext, Source::Parameter)),
        ("PRODUCT", NamedRoute::Read(TableField::Product, Source::Parameter)),
        ("PRODUCT_DEFINITION_FORMATION", NamedRoute::Read(TableField::ProductDefinitionFormation, Source::Parameter)),
        ("PRODUCT_DEFINITION_FORMATION_WITH_SPECIFIED_SOURCE", NamedRoute::ByPosition(TableField::ProductDefinitionFormation, PositionalLayout::FormationWithSource)),
        ("PRODUCT_DEFINITION_CONTEXT", NamedRoute::Read(TableField::ProductDefinitionContext, Source::Parameter)),
        ("PRODUCT_DEFINITION", NamedRoute::Read(TableField::ProductDefinition, Source::Parameter)),
        ("PRODUCT_DEFINITION_SHAPE", NamedRoute::Read(TableField::ProductDefinitionShape, Source::Parameter)),
        ("SHAPE_DEFINITION_REPRESENTATION", NamedRoute::Read(TableField::ShapeDefinitionRepresentation, Source::Parameter)),
        ("SHAPE_REPRESENTATION", NamedRoute::Read(TableField::ShapeRepresentation, Source::Parameter)),
        ("ADVANCED_BREP_SHAPE_REPRESENTATION", NamedRoute::Read(TableField::ShapeRepresentation, Source::Parameter)),
        ("CONTEXT_DEPENDENT_SHAPE_REPRESENTATION", NamedRoute::Read(TableField::ContextDependentShapeRepresentation, Source::Parameter)),
        ("SHAPE_REPRESENTATION_RELATIONSHIP", NamedRoute::Read(TableField::ShapeRepresentationRelationship, Source::Parameter)),
        ("NEXT_ASSEMBLY_USAGE_OCCURRENCE", NamedRoute::Read(TableField::NextAssemblyUsageOccurrence, Source::Parameter)),
        ("ITEM_DEFINED_TRANSFORMATION", NamedRoute::Read(TableField::ItemDefinedTransformation, Source::Parameter)),
    ];
    assert(entries@.map_values(|entry: (&'static str, NamedRoute)| (entry.0@, entry.1)) =~= route_table());
    entries
}

/// The route of `name`, if it has one.
fn find_route(name: &str) -> (route: Option<NamedRoute>)
    ensures
        route == named_route(name@),
{
    let entries = route_entries();
    let ghost table = route_table();
    let mut i: usize = 0;
    while i < entries.len()
        invariant
            i <= entries@.len(),
            entries@.map_values(|entry: (&'static str, NamedRoute)| (entry.0@, entry.1)) == table,
            table == route_table(),
            route_from(table, name@, 0) == route_from(table, name@, i as int),
        decreases entries.len() - i,
    {
        assert(table[i as int] == (entries@[i as int].0@, entries@[i as int].1));
        if str_eq(entries[i].0, name) {
            return Some(entries[i].1);
        }
        i = i + 1;
    }
    None
}

/// Where a simple record named `name` with parameter `parameter` goes.
pub open spec fn simple_dispatch(name: Seq<char>, parameter: ParameterShape) -> Dispatch {
    match named_route(name) {
        Some(NamedRoute::Read(field, source)) => Dispatch::Deserialize { field, source },
        Some(NamedRoute::SurfaceCurve(kind)) => Dispatch::SurfaceCurve { kind },
        Some(NamedRoute::ByPosition(field, layout)) => positional(field, layout, parameter),
        None => Dispatch::Dummy,
    }
}

/// Routes a simple record by its entity name and the shape of its parameter.
pub fn dispatch_simple(name: &str, parameter: ParameterShape) -> (dispatch: Dispatch)
    ensures
        dispatch == simple_dispatch(name@, parameter),
{
    match find_route(name) {
        Some(NamedRoute::Read(field, source)) => Dispatch::Deserialize { field, source },
        Some(NamedRoute::SurfaceCurve(kind)) => Dispatch::SurfaceCurve { kind },
        Some(NamedRoute::ByPosition(field, layout)) => positional_dispatch(field, layout, parameter),
        None => Dispatch::Dummy,
    }
}

/// Every position a positional arm reads lies inside the parameter list it
/// was admitted with, so taking the record apart never indexes past its end.
pub proof fn law_positional_picks_are_in_bounds(name: Seq<char>, parameter: ParameterShape)
    ensures
        simple_dispatch(name, parameter) matches Dispatch::Positional { layout, .. } ==> (
        parameter matches ParameterShape::List(len) && forall|i: int|
            0 <= i < layout_picks(layout).len() ==> #[trigger] layout_picks(layout)[i] < len),
{
    if let Dispatch::Positional { layout, .. } = simple_dispatch(name, parameter) {
        assert(shape_admits(layout_shape(layout), parameter));
    }
}

/// The STEP entity each table is named after.
pub open spec fn table_entity_name(field: TableField) -> Seq<char> {
    match field {
        TableField::Representation => "REPRESENTATION"@,
        TableField::RepresentationItem => "REPRESENTATION_ITEM"@,
        TableField::RepresentationContext => "REPRESENTATION_CONTEXT"@,
        TableField::CartesianPoint => "CARTESIAN_POINT"@,
        TableField::Direction => "DIRECTION"@,
        TableField::Vector => "VECTOR"@,
        TableField::Placement => "PLACEMENT"@,
        TableField::Axis1Placement => "AXIS1_PLACEMENT"@,
        TableField::Axis2Placement2d => "AXIS2_PLACEMENT_2D"@,
        TableField::Axis2Placement3d => "AXIS2_PLACEMENT_3D"@,
        TableField::Line => "LINE"@,
        TableField::Polyline => "POLYLINE"@,
        TableField::BsplineCurveWithKnots => "B_SPLINE_CURVE_WITH_KNOTS"@,
        TableField::BezierCurve => "BEZIER_CURVE"@,
        TableField::QuasiUniformCurve => "QUASI_UNIFORM_CURVE"@,
        TableField::UniformCurve => "UNIFORM_CURVE"@,
        TableField::RationalBsplineCurve => "RATIONAL_B_SPLINE_CURVE"@,
        TableField::Circle => "CIRCLE"@,
        TableField::Ellipse => "ELLIPSE"@,
        TableField::Hyperbola => "HYPERBOLA"@,
        TableField::Parabola => "PARABOLA"@,
        TableField::Pcurve => "PCURVE"@,
        TableField::SurfaceCurve => "SURFACE_CURVE"@,
        TableField::Plane => "PLANE"@,
        TableField::SphericalSurface => "SPHERICAL_SURFACE"@,
        TableField::CylindricalSurface => "CYLINDRICAL_SURFACE"@,
        TableField::ToroidalSurface => "TOROIDAL_SURFACE"@,
        TableField::DegenerateToroidalSurface => "DEGENERATE_TOROIDAL_SURFACE"@,
        TableField::ConicalSurface => "CONICAL_SURFACE"@,
        TableField::BsplineSurfaceWithKnots => "B_SPLINE_SURFACE_WITH_KNOTS"@,
        TableField::UniformSurface => "UNIFORM_SURFACE"@,
        TableField::QuasiUniformSurface => "QUASI_UNIFORM_SURFACE"@,
        TableField::BezierSurface => "BEZIER_SURFACE"@,
        TableField::RationalBsplineSurface => "RATIONAL_B_SPLINE_SURFACE"@,
        TableField::SurfaceOfLinearExtrusion => "SURFACE_OF_LINEAR_EXTRUSION"@,
        TableField::SurfaceOfRevolution => "SURFACE_OF_REVOLUTION"@,
        TableField::VertexPoint => "VERTEX_POINT"@,
        TableField::EdgeCurve => "EDGE_CURVE"@,
        TableField::OrientedEdge => "ORIENTED_EDGE"@,
        TableField::EdgeLoop => "EDGE_LOOP"@,
        TableField::VertexLoop => "VERTEX_LOOP"@,
        TableField::FaceBound => "FACE_BOUND"@,
        TableField::FaceSurface => "FACE_SURFACE"@,
        TableField::OrientedFace => "ORIENTED_FACE"@,
        TableField::Shell => "CONNECTED_FACE_SET"@,
        TableField::OrientedShell => "ORIENTED_SHELL"@,
        TableField::ShellBasedSurfaceModel => "SHELL_BASED_SURFACE_MODEL"@,
        TableField::ManifoldSolidBrep => "MANIFOLD_SOLID_BREP"@,
        TableField::ApplicationContext => "APPLICATION_CONTEXT"@,
        TableField::ProductContext => "PRODUCT_CONTEXT"@,
        TableField::Product => "PRODUCT"@,
        TableField::ProductDefinitionFormation => "PRODUCT_DEFINITION_FORMATION"@,
        TableField::ProductDefinitionContext => "PRODUCT_DEFINITION_CONTEXT"@,
        TableField::ProductDefinition => "PRODUCT_DEFINITION"@,
        TableField::ProductDefinitionShape => "PRODUCT_DEFINITION_SHAPE"@,
        TableField::ShapeDefinitionRepresentation => "SHAPE_DEFINITION_REPRESENTATION"@,
        TableField::ShapeRepresentation => "SHAPE_REPRESENTATION"@,
        TableField::ContextDependentShapeRepresentation => "CONTEXT_DEPENDENT_SHAPE_REPRESENTATION"@,
        TableField::ShapeRepresentationRelationship => "SHAPE_REPRESENTATION_RELATIONSHIP"@,
        TableField::ShapeRepresentationRelationshipWithTransformation => "REPRESENTATION_RELATIONSHIP_WITH_TRANSFORMATION"@,
        TableField::NextAssemblyUsageOccurrence => "NEXT_ASSEMBLY_USAGE_OCCURRENCE"@,
        TableField::ItemDefinedTransformation => "ITEM_DEFINED_TRANSFORMATION"@,
        TableField::GeometricCurveSet => "GEOMETRIC_CURVE_SET"@,
        TableField::DefinitionalRepresentation => "DEFINITIONAL_REPRESENTATION"@,
        TableField::Dummy => Seq::empty(),
    }
}

/// The entities that are read into a table named after another one: the
/// subtypes (`face_outer_bound`, `advanced_face`, `brep_with_voids`,
/// `advanced_brep_shape_representation`, the formation with a specified
/// source) and the open and closed shells.
pub open spec fn table_alias(name: Seq<char>, field: TableField) -> bool {
    ||| name == "FACE_OUTER_BOUND"@ && field == TableField::FaceBound
    ||| name == "ADVANCED_FACE"@ && field == TableField::FaceSurface
    ||| name == "OPEN_SHELL"@ && field == TableField::Shell
    ||| name == "CLOSED_SHELL"@ && field == TableField::Shell
    ||| name == "ORIENTED_OPEN_SHELL"@ && field == TableField::OrientedShell
    ||| name == "ORIENTED_CLOSED_SHELL"@ && field == TableField::OrientedShell
    ||| name == "BREP_WITH_VOIDS"@ && field == TableField::ManifoldSolidBrep
    ||| name == "PRODUCT_DEFINITION_FORMATION_WITH_SPECIFIED_SOURCE"@ && field == TableField::ProductDefinitionFormation
    ||| name == "ADVANCED_BREP_SHAPE_REPRESENTATION"@ && field == TableField::ShapeRepresentation
}

/// The spelling of a surface-curve kind.
pub open spec fn surface_curve_spelling(kind: SurfaceCurveEntityKind) -> Seq<char> {
    match kind {
        SurfaceCurveEntityKind::Surface => "SURFACE_CURVE"@,
        SurfaceCurveEntityKind::Seam => "SEAM_CURVE"@,
        SurfaceCurveEntityKind::Intersection => "INTERSECTION_CURVE"@,
    }
}

/// A route entry sends its name to the table named after it, or to the
/// table of the entity it is an alias of, read from its parameter list.
pub open spec fn entry_names_its_table(entry: (Seq<char>, NamedRoute)) -> bool {
    match entry.1 {
        NamedRoute::Read(field, source) => entry.0 == table_entity_name(field)
            || (table_alias(entry.0, field) && source == Source::Parameter),
        NamedRoute::ByPosition(field, _) => entry.0 == table_entity_name(field) || table_alias(entry.0, field),
        NamedRoute::SurfaceCurve(kind) => entry.0 == surface_curve_spelling(kind),
    }
}

proof fn lemma_route_from_entry(table: Seq<(Seq<char>, NamedRoute)>, name: Seq<char>, i: int)
    requires
        route_from(table, name, i) is Some,
    ensures
        exists|j: int| 0 <= j < table.len() && #[trigger] table[j] == (name, route_from(table, name, i)->0),
    decreases table.len() - i,
{
    if table[i].0 == name {
        assert(table[i] == (name, route_from(table, name, i)->0));
    } else {
        lemma_route_from_entry(table, name, i + 1);
    }
}

/// Every entry of `table` from position `i` on names its table.
pub open spec fn entries_name_their_tables(table: Seq<(Seq<char>, NamedRoute)>, i: int) -> bool
    decreases table.len() - i,
{
    if i < 0 || i >= table.len() {
        true
    } else {
        entry_names_its_table(table[i]) && entries_name_their_tables(table, i + 1)
    }
}

proof fn lemma_entries_name_their_tables(table: Seq<(Seq<char>, NamedRoute)>, i: int, j: int)
    requires
        0 <= i <= j < table.len(),
        entries_name_their_tables(table, i),
    ensures
        entry_names_its_table(table[j]),
    decreases j - i,
{
    if i < j {
        lemma_entries_name_their_tables(table, i + 1, j);
    }
}

#[verifier::rlimit(100)]
proof fn lemma_route_table_entries()
    ensures
        forall|j: int| 0 <= j < route_table().len() ==> #[trigger] entry_names_its_table(route_table()[j]),
{
    reveal_with_fuel(entries_name_their_tables, 70);
    assert(entries_name_their_tables(route_table(), 0));
    assert forall|j: int| 0 <= j < route_table().len() implies #[trigger] entry_names_its_table(route_table()[j]) by {
        lemma_entries_name_their_tables(route_table(), 0, j);
    }
}

/// A simple record is read into the table named after its entity, or, for
/// the documented aliases, into the table of the entity it specialises and
/// then from its parameter list; the three surface-curve spellings keep
/// their own spelling.
pub proof fn law_names_route_to_their_own_tables(name: Seq<char>, parameter: ParameterShape)
    ensures
        simple_dispatch(name, parameter) matches Dispatch::Deserialize { field, source } ==> name == table_entity_name(field)
            || (table_alias(name, field) && source == Source::Parameter),
        simple_dispatch(name, parameter) matches Dispatch::Positional { field, .. } ==> name == table_entity_name(field)
            || table_alias(name, field),
        simple_dispatch(name, parameter) matches Dispatch::SurfaceCurve { kind } ==> name == surface_curve_spelling(kind),
{
    if named_route(name) is Some {
        lemma_route_from_entry(route_table(), name, 0);
        lemma_route_table_entries();
        let j = choose|j: int| 0 <= j < route_table().len() && #[trigger] route_table()[j] == (name, named_route(name)->0);
        assert(entry_names_its_table(route_table()[j]));
    }
}

proof fn lemma_route_from_finds(table: Seq<(Seq<char>, NamedRoute)>, name: Seq<char>, i: int, j: int)
    requires
        0 <= i <= j < table.len(),
        table[j].0 == name,
    ensures
        route_from(table, name, i) is Some,
    decreases j - i,
{
    if table[i].0 != name {
        lemma_route_from_finds(table, name, i + 1, j);
    }
}

/// The tables filled by name alone: every table but those filled from
/// complex records, from the three surface-curve spellings, from shells of
/// either kind, the representation supertypes and the dummy table.
pub open spec fn filled_by_own_name(field: TableField) -> bool {
    !(field == TableField::Representation || field == TableField::RepresentationItem
        || field == TableField::RepresentationContext || field == TableField::RationalBsplineCurve
        || field == TableField::RationalBsplineSurface || field == TableField::SurfaceCurve
        || field == TableField::Shell || field == TableField::OrientedShell
        || field == TableField::ShapeRepresentationRelationshipWithTransformation || field == TableField::Dummy)
}

/// Every table filled by name receives the records of the entity it is
/// named after: that name is routed, never dropped as a dummy (and, by
/// `law_names_route_to_their_own_tables`, it reaches a table that bears the
/// name or that the name is a documented alias of); so are the three
/// surface-curve spellings.
#[verifier::rlimit(100)]
pub proof fn law_every_table_receives_its_entity(field: TableField, kind: SurfaceCurveEntityKind, parameter: ParameterShape)
    ensures
        filled_by_own_name(field) ==> !(simple_dispatch(table_entity_name(field), parameter) is Dummy),
        !(simple_dispatch(surface_curve_spelling(kind), parameter) is Dummy),
{
    let name = table_entity_name(field);
    match field {
        TableField::CartesianPoint => lemma_route_from_finds(route_table(), name, 0, 0),
        TableField::Direction => lemma_route_from_finds(route_table(), name, 0, 1),
        TableField::Vector => lemma_route_from_finds(route_table(), name, 0, 2),
        TableField::Placement => lemma_route_from_finds(route_table(), name, 0, 3),
        TableField::Axis1Placement => lemma_route_from_finds(route_table(), name, 0, 4),
        TableField::Axis2Placement2d => lemma_route_from_finds(route_table(), name, 0, 5),
        TableField::Axis2Placement3d => lemma_route_from_finds(route_table(), name, 0, 6),
        TableField::Line => lemma_route_from_finds(route_table(), name, 0, 7),
        TableField::Polyline => lemma_route_from_finds(route_table(), name, 0, 8),
        TableField::BsplineCurveWithKnots => lemma_route_from_finds(route_table(), name, 0, 9),
        TableField::BezierCurve => lemma_route_from_finds(route_table(), name, 0, 10),
        TableField::QuasiUniformCurve => lemma_route_from_finds(route_table(), name, 0, 11),
        TableField::UniformCurve => lemma_route_from_finds(route_table(), name, 0, 12),
        TableField::Circle => lemma_route_from_finds(route_table(), name, 0, 13),
        TableField::Ellipse => lemma_route_from_finds(route_table(), name, 0, 14),
        TableField::Hyperbola => lemma_route_from_finds(route_table(), name, 0, 15),
        TableField::Parabola => lemma_route_from_finds(route_table(), name, 0, 16),
        TableField::Pcurve => lemma_route_from_finds(route_table(), name, 0, 17),
        TableField::Plane => lemma_route_from_finds(route_table(), name, 0, 21),
        TableField::SphericalSurface => lemma_route_from_finds(route_table(), name, 0, 22),
        TableField::CylindricalSurface => lemma_route_from_finds(route_table(), name, 0, 23),
        TableField::ToroidalSurface => lemma_route_from_finds(route_table(), name, 0, 24),
        TableField::DegenerateToroidalSurface => lemma_route_from_finds(route_table(), name, 0, 25),
        TableField::ConicalSurface => lemma_route_from_finds(route_table(), name, 0, 26),
        TableField::BsplineSurfaceWithKnots => lemma_route_from_finds(route_table(), name, 0, 27),
        TableField::UniformSurface => lemma_route_from_finds(route_table(), name, 0, 28),
        TableField::QuasiUniformSurface => lemma_route_from_finds(route_table(), name, 0, 29),
        TableField::BezierSurface => lemma_route_from_finds(route_table(), name, 0, 30),
        TableField::SurfaceOfLinearExtrusion => lemma_route_from_finds(route_table(), name, 0, 31),
        TableField::SurfaceOfRevolution => lemma_route_from_finds(route_table(), name, 0, 32),
        TableField::VertexPoint => lemma_route_from_finds(route_table(), name, 0, 33),
        TableField::EdgeCurve => lemma_route_from_finds(route_table(), name, 0, 34),
        TableField::OrientedEdge => lemma_route_from_finds(route_table(), name, 0, 35),
        TableField::EdgeLoop => lemma_route_from_finds(route_table(), name, 0, 36),
        TableField::VertexLoop => lemma_route_from_finds(route_table(), name, 0, 37),
        TableField::FaceBound => lemma_route_from_finds(route_table(), name, 0, 38),
        TableField::FaceSurface => lemma_route_from_finds(route_table(), name, 0, 40),
        TableField::OrientedFace => lemma_route_from_finds(route_table(), name, 0, 42),
        TableField::ShellBasedSurfaceModel => lemma_route_from_finds(route_table(), name, 0, 47),
        TableField::ManifoldSolidBrep => lemma_route_from_finds(route_table(), name, 0, 48),
        TableField::GeometricCurveSet => lemma_route_from_finds(route_table(), name, 0, 50),
        TableField::DefinitionalRepresentation => lemma_route_from_finds(route_table(), name, 0, 51),
        TableField::ApplicationContext => lemma_route_from_finds(route_table(), name, 0, 52),
        TableField::ProductContext => lemma_route_from_finds(route_table(), name, 0, 53),
        TableField::Product => lemma_route_from_finds(route_table(), name, 0, 54),
        TableField::ProductDefinitionFormation => lemma_route_from_finds(route_table(), name, 0, 55),
        TableField::ProductDefinitionContext => lemma_route_from_finds(route_table(), name, 0, 57),
        TableField::ProductDefinition => lemma_route_from_finds(route_table(), name, 0, 58),
        TableField::ProductDefinitionShape => lemma_route_from_finds(route_table(), name, 0, 59),
        TableField::ShapeDefinitionRepresentation => lemma_route_from_finds(route_table(), name, 0, 60),
        TableField::ShapeRepresentation => lemma_route_from_finds(route_table(), name, 0, 61),
        TableField::ContextDependentShapeRepresentation => lemma_route_from_finds(route_table(), name, 0, 63),
        TableField::ShapeRepresentationRelationship => lemma_route_from_finds(route_table(), name, 0, 64),
        TableField::NextAssemblyUsageOccurrence => lemma_route_from_finds(route_table(), name, 0, 65),
        TableField::ItemDefinedTransformation => lemma_route_from_finds(route_table(), name, 0, 66),
        TableField::Representation | TableField::RepresentationItem | TableField::RepresentationContext | TableField::RationalBsplineCurve | TableField::SurfaceCurve | TableField::RationalBsplineSurface | TableField::Shell | TableField::OrientedShell | TableField::ShapeRepresentationRelationshipWithTransformation | TableField::Dummy => {},
    }
    let spelling = surface_curve_spelling(kind);
    match kind {
        SurfaceCurveEntityKind::Surface => lemma_route_from_finds(route_table(), spelling, 0, 18),
        SurfaceCurveEntityKind::Seam => lemma_route_from_finds(route_table(), spelling, 0, 19),
        SurfaceCurveEntityKind::Intersection => lemma_route_from_finds(route_table(), spelling, 0, 20),
    }
    assert(filled_by_own_name(field) ==> named_route(name) is Some);
}

// ---------------------------------------------------------------------------
// Complex records
// ---------------------------------------------------------------------------

/// The entity name and parameter shape of one partial record.
pub struct RecordHead {
    pub name: String,
    pub parameter: ParameterShape,
}

/// The non-rational curve a rational B-spline curve record is built over.
#[derive(Clone, Copy, Debug, PartialEq, Eq, Structural)]
pub enum NonRationalCurveForm {
    BsplineCurveWithKnots,
    BezierCurve,
    QuasiUniformCurve,
    UniformCurve,
}

/// The non-rational surface a rational B-spline surface record is built over.
#[derive(Clone, Copy, Debug, PartialEq, Eq, Structural)]
pub enum NonRationalSurfaceForm {
    BsplineSurfaceWithKnots,
    BezierSurface,
    QuasiUniformSurface,
    UniformSurface,
}

/// How the `representation_item` partial record's parameter list enters the
/// assembled parameters: whole, or its first element only.
#[derive(Clone, Copy, Debug, PartialEq, Eq, Structural)]
pub enum LabelUse {
    WholeList,
    FirstElement,
}

/// Where a complex record goes. Indices name partial records; the assembled
/// parameters are the label part, then the B-spline list, then the knots list
/// when there is one, and the weights are the first element of the weights
/// record's list.
#[derive(Clone, Copy, Debug, PartialEq, Eq, Structural)]
pub enum ComplexDispatch {
    RationalCurve {
        form: NonRationalCurveForm,
        label: usize,
        label_use: LabelUse,
        bspline: usize,
        knots: Option<usize>,
        weights: usize,
    },
    RationalSurface {
        form: NonRationalSurfaceForm,
        label: usize,
        bspline: usize,
        knots: Option<usize>,
        weights: usize,
    },
    RelationshipWithTransformation { relationship: usize, transformation: usize },
    Dummy,
}

/// Whether a partial record is named `name`, with a list parameter when
/// `list` is asked for.
pub open spec fn head_matches(head: RecordHead, name: Seq<char>, list: bool) -> bool {
    head.name@ == name && (!list || head.parameter is List)
}

fn head_is(head: &RecordHead, name: &str, list: bool) -> (matches: bool)
    ensures
        matches == head_matches(*head, name@, list),
{
    str_eq(head.name.as_str(), name) && (!list || matches!(head.parameter, ParameterShape::List(_)))
}

/// Where a complex record with partial records `heads` goes.
pub open spec fn complex_dispatch(heads: Seq<RecordHead>) -> ComplexDispatch {
    if heads.len() == 7 {
        if head_matches(heads[0], "BOUNDED_CURVE"@, false)
            && head_matches(heads[1], "B_SPLINE_CURVE"@, true)
            && head_matches(heads[2], "B_SPLINE_CURVE_WITH_KNOTS"@, true)
            && head_matches(heads[3], "CURVE"@, false)
            && head_matches(heads[4], "GEOMETRIC_REPRESENTATION_ITEM"@, false)
            && head_matches(heads[5], "RATIONAL_B_SPLINE_CURVE"@, true)
            && head_matches(heads[6], "REPRESENTATION_ITEM"@, true) {
            ComplexDispatch::RationalCurve { form: NonRationalCurveForm::BsplineCurveWithKnots, label: 6, label_use: LabelUse::WholeList, bspline: 1, knots: Some(2), weights: 5 }
        } else if head_matches(heads[0], "BEZIER_CURVE"@, false)
            && head_matches(heads[1], "BOUNDED_CURVE"@, false)
            && head_matches(heads[2], "B_SPLINE_CURVE"@, true)
            && head_matches(heads[3], "CURVE"@, false)
            && head_matches(heads[4], "GEOMETRIC_REPRESENTATION_ITEM"@, false)
            && head_matches(heads[5], "RATIONAL_B_SPLINE_CURVE"@, true)
            && head_matches(heads[6], "REPRESENTATION_ITEM"@, true) {
            ComplexDispatch::RationalCurve { form: NonRationalCurveForm::BezierCurve, label: 6, label_use: LabelUse::WholeList, bspline: 2, knots: None, weights: 5 }
        } else if head_matches(heads[0], "BOUNDED_CURVE"@, false)
            && head_matches(heads[1], "B_SPLINE_CURVE"@, true)
            && head_matches(heads[2], "CURVE"@, false)
            && head_matches(heads[3], "GEOMETRIC_REPRESENTATION_ITEM"@, false)
            && head_matches(heads[4], "QUASI_UNIFORM_CURVE"@, false)
            && head_matches(heads[5], "RATIONAL_B_SPLINE_CURVE"@, true)
            && head_matches(heads[6], "REPRESENTATION_ITEM"@, true) {
            ComplexDispatch::RationalCurve { form: NonRationalCurveForm::QuasiUniformCurve, label: 6, label_use: LabelUse::FirstElement, bspline: 1, knots: None, weights: 5 }
        } else if head_matches(heads[0], "BOUNDED_CURVE"@, false)
            && head_matches(heads[1], "B_SPLINE_CURVE"@, true)
            && head_matches(heads[2], "CURVE"@, false)
            && head_matches(heads[3], "GEOMETRIC_REPRESENTATION_ITEM"@, false)
            && head_matches(heads[4], "RATIONAL_B_SPLINE_CURVE"@, true)
            && head_matches(heads[5], "REPRESENTATION_ITEM"@, true)
            && head_matches(heads[6], "UNIFORM_CURVE"@, false) {
            ComplexDispatch::RationalCurve { form: NonRationalCurveForm::UniformCurve, label: 5, label_use: LabelUse::FirstElement, bspline: 1, knots: None, weights: 4 }
        } else if head_matches(heads[0], "BOUNDED_SURFACE"@, false)
            && head_matches(heads[1], "B_SPLINE_SURFACE"@, true)
            && head_matches(heads[2], "B_SPLINE_SURFACE_WITH_KNOTS"@, true)
            && head_matches(heads[3], "GEOMETRIC_REPRESENTATION_ITEM"@, false)
            && head_matches(heads[4], "RATIONAL_B_SPLINE_SURFACE"@, true)
            && head_matches(heads[5], "REPRESENTATION_ITEM"@, true)
            && head_matches(heads[6], "SURFACE"@, false) {
            ComplexDispatch::RationalSurface { form: NonRationalSurfaceForm::BsplineSurfaceWithKnots, label: 5, bspline: 1, knots: Some(2), weights: 4 }
        } else if head_matches(heads[0], "BEZIER_SURFACE"@, false)
            && head_matches(heads[1], "BOUNDED_SURFACE"@, false)
            && head_matches(heads[2], "B_SPLINE_SURFACE"@, true)
            && head_matches(heads[3], "GEOMETRIC_REPRESENTATION_ITEM"@, false)
            && head_matches(heads[4], "RATIONAL_B_SPLINE_SURFACE"@, true)
            && head_matches(heads[5], "REPRESENTATION_ITEM"@, true)
            && head_matches(heads[6], "SURFACE"@, false) {
            ComplexDispatch::RationalSurface { form: NonRationalSurfaceForm::BezierSurface, label: 5, bspline: 2, knots: None, weights: 4 }
        } else if head_matches(heads[0], "BOUNDED_SURFACE"@, false)
            && head_matches(heads[1], "B_SPLINE_SURFACE"@, true)
            && head_matches(heads[2], "GEOMETRIC_REPRESENTATION_ITEM"@, false)
            && head_matches(heads[3], "QUASI_UNIFORM_SURFACE"@, false)
            && head_matches(heads[4], "RATIONAL_B_SPLINE_SURFACE"@, true)
            && head_matches(heads[5], "REPRESENTATION_ITEM"@, true)
            && head_matches(heads[6], "SURFACE"@, false) {
            ComplexDispatch::RationalSurface { form: NonRationalSurfaceForm::QuasiUniformSurface, label: 5, bspline: 1, knots: None, weights: 4 }
        } else if head_matches(heads[0], "BOUNDED_SURFACE"@, false)
            && head_matches(heads[1], "B_SPLINE_SURFACE"@, true)
            && head_matches(heads[2], "GEOMETRIC_REPRESENTATION_ITEM"@, false)
            && head_matches(heads[3], "RATIONAL_B_SPLINE_SURFACE"@, true)
            && head_matches(heads[4], "REPRESENTATION_ITEM"@, true)
            && head_matches(heads[5], "SURFACE"@, false)
            && head_matches(heads[6], "UNIFORM_SURFACE"@, false) {
            ComplexDispatch::RationalSurface { form: NonRationalSurfaceForm::UniformSurface, label: 4, bspline: 1, knots: None, weights: 3 }
        } else {
            ComplexDispatch::Dummy
        }
    } else if heads.len() == 3 {
        if head_matches(heads[0], "REPRESENTATION_RELATIONSHIP"@, true)
        && head_matches(heads[1], "REPRESENTATION_RELATIONSHIP_WITH_TRANSFORMATION"@, true)
        && head_matches(heads[2], "SHAPE_REPRESENTATION_RELATIONSHIP"@, false) {
            ComplexDispatch::RelationshipWithTransformation { relationship: 0, transformation: 1 }
        } else {
            ComplexDispatch::Dummy
        }
    } else {
        ComplexDispatch::Dummy
    }
}

/// Routes a complex record by the sequence of its partial records.
pub fn dispatch_complex(heads: &Vec<RecordHead>) -> (dispatch: ComplexDispatch)
    ensures
        dispatch == complex_dispatch(heads@),
{
    if heads.len() == 7 {
        if head_is(&heads[0], "BOUNDED_CURVE", false)
            && head_is(&heads[1], "B_SPLINE_CURVE", true)
            && head_is(&heads[2], "B_SPLINE_CURVE_WITH_KNOTS", true)
            && head_is(&heads[3], "CURVE", false)
            && head_is(&heads[4], "GEOMETRIC_REPRESENTATION_ITEM", false)
            && head_is(&heads[5], "RATIONAL_B_SPLINE_CURVE", true)
            && head_is(&heads[6], "REPRESENTATION_ITEM", true) {
            ComplexDispatch::RationalCurve { form: NonRationalCurveForm::BsplineCurveWithKnots, label: 6, label_use: LabelUse::WholeList, bspline: 1, knots: Some(2), weights: 5 }
        } else if head_is(&heads[0], "BEZIER_CURVE", false)
            && head_is(&heads[1], "BOUNDED_CURVE", false)
            && head_is(&heads[2], "B_SPLINE_CURVE", true)
            && head_is(&heads[3], "CURVE", false)
            && head_is(&heads[4], "GEOMETRIC_REPRESENTATION_ITEM", false)
            && head_is(&heads[5], "RATIONAL_B_SPLINE_CURVE", true)
            && head_is(&heads[6], "REPRESENTATION_ITEM", true) {
            ComplexDispatch::RationalCurve { form: NonRationalCurveForm::BezierCurve, label: 6, label_use: LabelUse::WholeList, bspline: 2, knots: None, weights: 5 }
        } else if head_is(&heads[0], "BOUNDED_CURVE", false)
            && head_is(&heads[1], "B_SPLINE_CURVE", true)
            && head_is(&heads[2], "CURVE", false)
            && head_is(&heads[3], "GEOMETRIC_REPRESENTATION_ITEM", false)
            && head_is(&heads[4], "QUASI_UNIFORM_CURVE", false)
            && head_is(&heads[5], "RATIONAL_B_SPLINE_CURVE", true)
            && head_is(&heads[6], "REPRESENTATION_ITEM", true) {
            ComplexDispatch::RationalCurve { form: NonRationalCurveForm::QuasiUniformCurve, label: 6, label_use: LabelUse::FirstElement, bspline: 1, knots: None, weights: 5 }
        } else if head_is(&heads[0], "BOUNDED_CURVE", false)
            && head_is(&heads[1], "B_SPLINE_CURVE", true)
            && head_is(&heads[2], "CURVE", false)
            && head_is(&heads[3], "GEOMETRIC_REPRESENTATION_ITEM", false)
            && head_is(&heads[4], "RATIONAL_B_SPLINE_CURVE", true)
            && head_is(&heads[5], "REPRESENTATION_ITEM", true)
            && head_is(&heads[6], "UNIFORM_CURVE", false) {
            ComplexDispatch::RationalCurve { form: NonRationalCurveForm::UniformCurve, label: 5, label_use: LabelUse::FirstElement, bspline: 1, knots: None, weights: 4 }
        } else if head_is(&heads[0], "BOUNDED_SURFACE", false)
            && head_is(&heads[1], "B_SPLINE_SURFACE", true)
            && head_is(&heads[2], "B_SPLINE_SURFACE_WITH_KNOTS", true)
            && head_is(&heads[3], "GEOMETRIC_REPRESENTATION_ITEM", false)
            && head_is(&heads[4], "RATIONAL_B_SPLINE_SURFACE", true)
            && head_is(&heads[5], "REPRESENTATION_ITEM", true)
            && head_is(&heads[6], "SURFACE", false) {
            ComplexDispatch::RationalSurface { form: NonRationalSurfaceForm::BsplineSurfaceWithKnots, label: 5, bspline: 1, knots: Some(2), weights: 4 }
        } else if head_is(&heads[0], "BEZIER_SURFACE", false)
            && head_is(&heads[1], "BOUNDED_SURFACE", false)
            && head_is(&heads[2], "B_SPLINE_SURFACE", true)
            && head_is(&heads[3], "GEOMETRIC_REPRESENTATION_ITEM", false)
            && head_is(&heads[4], "RATIONAL_B_SPLINE_SURFACE", true)
            && head_is(&heads[5], "REPRESENTATION_ITEM", true)
            && head_is(&heads[6], "SURFACE", false) {
            ComplexDispatch::RationalSurface { form: NonRationalSurfaceForm::BezierSurface, label: 5, bspline: 2, knots: None, weights: 4 }
        } else if head_is(&heads[0], "BOUNDED_SURFACE", false)
            && head_is(&heads[1], "B_SPLINE_SURFACE", true)
            && head_is(&heads[2], "GEOMETRIC_REPRESENTATION_ITEM", false)
            && head_is(&heads[3], "QUASI_UNIFORM_SURFACE", false)
            && head_is(&heads[4], "RATIONAL_B_SPLINE_SURFACE", true)
            && head_is(&heads[5], "REPRESENTATION_ITEM", true)
            && head_is(&heads[6], "SURFACE", false) {
            ComplexDispatch::RationalSurface { form: NonRationalSurfaceForm::QuasiUniformSurface, label: 5, bspline: 1, knots: None, weights: 4 }
        } else if head_is(&heads[0], "BOUNDED_SURFACE", false)
            && head_is(&heads[1], "B_SPLINE_SURFACE", true)
            && head_is(&heads[2], "GEOMETRIC_REPRESENTATION_ITEM", false)
            && head_is(&heads[3], "RATIONAL_B_SPLINE_SURFACE", true)
            && head_is(&heads[4], "REPRESENTATION_ITEM", true)
            && head_is(&heads[5], "SURFACE", false)
            && head_is(&heads[6], "UNIFORM_SURFACE", false) {
            ComplexDispatch::RationalSurface { form: NonRationalSurfaceForm::UniformSurface, label: 4, bspline: 1, knots: None, weights: 3 }
        } else {
            ComplexDispatch::Dummy
        }
    } else if heads.len() == 3 {
        if head_is(&heads[0], "REPRESENTATION_RELATIONSHIP", true)
            && head_is(&heads[1], "REPRESENTATION_RELATIONSHIP_WITH_TRANSFORMATION", true)
            && head_is(&heads[2], "SHAPE_REPRESENTATION_RELATIONSHIP", false) {
            ComplexDispatch::RelationshipWithTransformation { relationship: 0, transformation: 1 }
        } else {
            ComplexDispatch::Dummy
        }
    } else {
        ComplexDispatch::Dummy
    }
}

/// Every partial record a complex arm names exists, and every one it reads a
/// list from carries a list parameter.
pub proof fn law_complex_parts_exist(heads: Seq<RecordHead>)
    ensures
        complex_dispatch(heads) matches ComplexDispatch::RationalCurve {
            label,
            bspline,
            knots,
            weights,
            ..
        } ==> label < heads.len() && bspline < heads.len() && weights < heads.len()
            && heads[label as int].parameter is List && heads[bspline as int].parameter is List
            && heads[weights as int].parameter is List && (knots matches Some(k) ==> k < heads.len()
            && heads[k as int].parameter is List),
        complex_dispatch(heads) matches ComplexDispatch::RationalSurface {
            label,
            bspline,
            knots,
            weights,
            ..
        } ==> label < heads.len() && bspline < heads.len() && weights < heads.len()
            && heads[label as int].parameter is List && heads[bspline as int].parameter is List
            && heads[weights as int].parameter is List && (knots matches Some(k) ==> k < heads.len()
            && heads[k as int].parameter is List),
        complex_dispatch(heads) matches ComplexDispatch::RelationshipWithTransformation {
            relationship,
            transformation,
        } ==> relationship < heads.len() && transformation < heads.len()
            && heads[relationship as int].parameter is List
            && heads[transformation as int].parameter is List,
{
}

/// The partial record a rational curve or surface of form `form` is built
/// over, besides the B-spline record itself.
pub open spec fn curve_form_record(form: NonRationalCurveForm) -> Seq<char> {
    match form {
        NonRationalCurveForm::BsplineCurveWithKnots => "B_SPLINE_CURVE_WITH_KNOTS"@,
        NonRationalCurveForm::BezierCurve => "BEZIER_CURVE"@,
        NonRationalCurveForm::QuasiUniformCurve => "QUASI_UNIFORM_CURVE"@,
        NonRationalCurveForm::UniformCurve => "UNIFORM_CURVE"@,
    }
}

/// The partial record a rational surface of form `form` is built over,
/// besides the B-spline record itself.
pub open spec fn surface_form_record(form: NonRationalSurfaceForm) -> Seq<char> {
    match form {
        NonRationalSurfaceForm::BsplineSurfaceWithKnots => "B_SPLINE_SURFACE_WITH_KNOTS"@,
        NonRationalSurfaceForm::BezierSurface => "BEZIER_SURFACE"@,
        NonRationalSurfaceForm::QuasiUniformSurface => "QUASI_UNIFORM_SURFACE"@,
        NonRationalSurfaceForm::UniformSurface => "UNIFORM_SURFACE"@,
    }
}

/// Each part a complex arm reads is the partial record of that name: the
/// label is the `representation_item`, the B-spline list the
/// `b_spline_curve` or `b_spline_surface`, the knots the `*_with_knots`
/// record, the weights the `rational_b_spline_*` record, and the relationship
/// and its transformation the two relationship records. The form names a
/// partial record that is present; knots are read exactly for the form with
/// knots, and only the uniform and quasi-uniform curves read the label's
/// first element alone.
pub proof fn law_complex_parts_are_the_named_records(heads: Seq<RecordHead>)
    ensures
        complex_dispatch(heads) matches ComplexDispatch::RationalCurve { form, label, label_use, bspline, knots, weights }
            ==> {
            &&& heads[label as int].name@ == "REPRESENTATION_ITEM"@
            &&& heads[bspline as int].name@ == "B_SPLINE_CURVE"@
            &&& heads[weights as int].name@ == "RATIONAL_B_SPLINE_CURVE"@
            &&& (knots is Some <==> form == NonRationalCurveForm::BsplineCurveWithKnots)
            &&& (knots matches Some(k) ==> heads[k as int].name@ == "B_SPLINE_CURVE_WITH_KNOTS"@)
            &&& exists|i: int| 0 <= i < heads.len() && #[trigger] heads[i].name@ == curve_form_record(form)
            &&& (label_use == LabelUse::FirstElement <==> (form == NonRationalCurveForm::QuasiUniformCurve
                || form == NonRationalCurveForm::UniformCurve))
        },
        complex_dispatch(heads) matches ComplexDispatch::RationalSurface { form, label, bspline, knots, weights }
            ==> {
            &&& heads[label as int].name@ == "REPRESENTATION_ITEM"@
            &&& heads[bspline as int].name@ == "B_SPLINE_SURFACE"@
            &&& heads[weights as int].name@ == "RATIONAL_B_SPLINE_SURFACE"@
            &&& (knots is Some <==> form == NonRationalSurfaceForm::BsplineSurfaceWithKnots)
            &&& (knots matches Some(k) ==> heads[k as int].name@ == "B_SPLINE_SURFACE_WITH_KNOTS"@)
            &&& exists|i: int| 0 <= i < heads.len() && #[trigger] heads[i].name@ == surface_form_record(form)
        },
        complex_dispatch(heads) matches ComplexDispatch::RelationshipWithTransformation { relationship, transformation }
            ==> heads[relationship as int].name@ == "REPRESENTATION_RELATIONSHIP"@
            && heads[transformation as int].name@ == "REPRESENTATION_RELATIONSHIP_WITH_TRANSFORMATION"@,
{
    match complex_dispatch(heads) {
        ComplexDispatch::RationalCurve { form, .. } => {
            let i: int = match form {
                NonRationalCurveForm::BsplineCurveWithKnots => 2,
                NonRationalCurveForm::BezierCurve => 0,
                NonRationalCurveForm::QuasiUniformCurve => 4,
                NonRationalCurveForm::UniformCurve => 6,
            };
            assert(heads[i].name@ == curve_form_record(form));
        },
        ComplexDispatch::RationalSurface { form, .. } => {
            let i: int = match form {
                NonRationalSurfaceForm::BsplineSurfaceWithKnots => 2,
                NonRationalSurfaceForm::BezierSurface => 0,
                NonRationalSurfaceForm::QuasiUniformSurface => 3,
                NonRationalSurfaceForm::UniformSurface => 6,
            };
            assert(heads[i].name@ == surface_form_record(form));
        },
        _ => {},
    }
}

} // verus!
