//! Plain STEP entity records: the product and representation structure of an
//! exchange, and the enumerations that geometry records carry.

use vstd::prelude::*;

verus! {

/// A record no table has an arm for, kept with its printed form.
#[derive(Clone, Debug, PartialEq)]
pub struct Dummy {
    pub record: String,
    pub is_simple: bool,
}

/// `representation_item`: the supertype of geometric and topological items.
#[derive(Clone, Debug, PartialEq)]
pub struct RepresentationItem {
    pub name: String,
}

/// `representation_context`
#[derive(Clone, Debug, PartialEq)]
pub struct RepresentationContext {
    pub context_identifier: String,
    pub context_type: String,
}

/// `representation`
#[derive(Clone, Debug, PartialEq)]
pub struct Representation {
    pub name: String,
    pub items: Vec<RepresentationItem>,
    pub context_of_items: Vec<RepresentationContext>,
}

/// `b_spline_curve_form`
#[derive(Clone, Copy, Debug, PartialEq, Eq, Structural)]
pub enum BsplineCurveForm {
    PolylineForm,
    CircularArc,
    EllipticArc,
    ParabolicArc,
    HyperbolicArc,
    Unspecified,
}

/// `knot_type`
#[derive(Clone, Copy, Debug, PartialEq, Eq, Structural)]
pub enum KnotType {
    UniformKnots,
    Unspecified,
    QuasiUniformKnots,
    PiecewiseBezierKnots,
}

/// `preferred_surface_curve_representation`
#[derive(Clone, Copy, Debug, PartialEq, Eq, Structural)]
pub enum PreferredSurfaceCurveRepresentation {
    Curve3D,
    PcurveS1,
    PcurveS2,
}

/// Which of the three `surface_curve` entities a record was spelled as.
#[derive(Clone, Copy, Debug, PartialEq, Eq, Structural)]
pub enum SurfaceCurveEntityKind {
    Surface,
    Seam,
    Intersection,
}

impl Default for SurfaceCurveEntityKind {
    fn default() -> (kind: Self)
        ensures
            kind == SurfaceCurveEntityKind::Surface,
    {
        SurfaceCurveEntityKind::Surface
    }
}

/// `b_spline_surface_form`
#[derive(Clone, Copy, Debug, PartialEq, Eq, Structural)]
pub enum BsplineSurfaceForm {
    PlaneSurf,
    CylindricalSurf,
    ConicalSurf,
    SphericalSurf,
    ToroidalSurf,
    SurfOfRevolution,
    RuledSurf,
    GeneralisedCone,
    QuadricSurf,
    SurfOfLinearExtrusion,
    Unspecified,
}

/// `application_context`
#[derive(Clone, Debug, PartialEq)]
pub struct ApplicationContext {
    pub application: String,
}

/// `product_context`
#[derive(Clone, Debug, PartialEq)]
pub struct ProductContext {
    pub name: String,
    pub frame_of_reference: ApplicationContext,
    pub discipline_type: String,
}

/// `product`; `description` is `OPTIONAL text`, so `$` is conformant.
#[derive(Clone, Debug, PartialEq)]
pub struct Product {
    pub id: String,
    pub name: String,
    pub description: Option<String>,
    pub frame_of_reference: Vec<ProductContext>,
}

/// `product_definition_formation`; `description` is `OPTIONAL text`.
#[derive(Clone, Debug, PartialEq)]
pub struct ProductDefinitionFormation {
    pub id: String,
    pub description: Option<String>,
    pub of_product: Product,
}

/// `product_definition_context`
#[derive(Clone, Debug, PartialEq)]
pub struct ProductDefinitionContext {
    pub name: String,
    pub frame_of_reference: ApplicationContext,
    pub life_cycle_stage: String,
}

/// `product_definition`
#[derive(Clone, Debug, PartialEq)]
pub struct ProductDefinition {
    pub id: String,
    pub description: String,
    pub formation: ProductDefinitionFormation,
    pub frame_of_reference: ProductDefinitionContext,
}

/// `characterized_definition`
#[derive(Debug)]
pub enum CharacterizedDefinition {
    ProductDefinition(Box<ProductDefinition>),
    ProductDefinitionShape(Box<ProductDefinitionShape>),
}

/// `product_definition_shape`. `name` is a mandatory label that exporters
/// leave unset; `None` keeps "unset" apart from "set to empty".
#[derive(Debug)]
pub struct ProductDefinitionShape {
    pub name: Option<String>,
    pub description: Option<String>,
    pub definition: CharacterizedDefinition,
}

/// `shape_representation`, also read for `advanced_brep_shape_representation`.
#[derive(Clone, Debug, PartialEq)]
pub struct ShapeRepresentation {
    pub name: String,
    pub items: Vec<RepresentationItem>,
    pub context_of_items: RepresentationContext,
}

/// `shape_definition_representation`
#[derive(Debug)]
pub struct ShapeDefinitionRepresentation {
    pub definition: ProductDefinitionShape,
    pub used_representation: ShapeRepresentation,
}

/// `shape_representation_relationship`; the label is accepted as unset.
#[derive(Clone, Debug, PartialEq)]
pub struct ShapeRepresentationRelationship {
    pub name: Option<String>,
    pub description: Option<String>,
    pub rep_1: ShapeRepresentation,
    pub rep_2: ShapeRepresentation,
}

/// `next_assembly_usage_occurrence`
#[derive(Clone, Debug, PartialEq)]
pub struct NextAssemblyUsageOccurrence {
    pub id: String,
    pub name: String,
    pub description: String,
    pub relating_product_definition: ProductDefinition,
    pub related_product_definition: ProductDefinition,
    pub reference_designator: Option<String>,
}

} // verus!
