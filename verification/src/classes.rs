//! The variant structure of the modeling geometry enums, as plain values:
//! the class names used in diagnosis, the stable tags of the content hash,
//! and which reported parameter ranges are real bounds.

use vstd::prelude::*;

verus! {

/// The class of a 3-D model curve.
#[derive(Clone, Copy, Debug, PartialEq, Eq, Structural)]
pub enum CurveClass {
    Line,
    BsplineCurve,
    NurbsCurve,
    ParameterCurve,
    IntersectionCurve,
}

/// The class of a model surface.
#[derive(Clone, Copy, Debug, PartialEq, Eq, Structural)]
pub enum SurfaceClass {
    Plane,
    BsplineSurface,
    NurbsSurface,
    RevolutionSurface,
    TsplineSurface,
    SphericalSurface,
    ToroidalSurface,
}

/// The class of a 2-D parameter curve.
#[derive(Clone, Copy, Debug, PartialEq, Eq, Structural)]
pub enum Curve2DClass {
    Line,
    Polyline,
    Conic,
    BsplineCurve,
    NurbsCurve,
}

/// The class of a 2-D conic.
#[derive(Clone, Copy, Debug, PartialEq, Eq, Structural)]
pub enum ConicClass {
    Ellipse,
    Hyperbola,
    Parabola,
}

/// What the parameter-domain logic reads of a surface: its class, and for a
/// surface of revolution the class of its profile curve and the orientation
/// of the processor that carries it (a reversed processor swaps `u` and `v`).
#[derive(Clone, Copy, Debug, PartialEq, Eq, Structural)]
pub enum SurfaceKind {
    Plane,
    BsplineSurface,
    NurbsSurface,
    RevolutionSurface { profile: CurveClass, orientation: bool },
    TsplineSurface,
    SphericalSurface,
    ToroidalSurface,
}

impl SurfaceKind {
    /// The class of the surface.
    pub open spec fn spec_class(&self) -> SurfaceClass {
        match self {
            SurfaceKind::Plane => SurfaceClass::Plane,
            SurfaceKind::BsplineSurface => SurfaceClass::BsplineSurface,
            SurfaceKind::NurbsSurface => SurfaceClass::NurbsSurface,
            SurfaceKind::RevolutionSurface { .. } => SurfaceClass::RevolutionSurface,
            SurfaceKind::TsplineSurface => SurfaceClass::TsplineSurface,
            SurfaceKind::SphericalSurface => SurfaceClass::SphericalSurface,
            SurfaceKind::ToroidalSurface => SurfaceClass::ToroidalSurface,
        }
    }

    /// The class of the surface.
    #[verifier::when_used_as_spec(spec_class)]
    pub fn class(&self) -> (class: SurfaceClass)
        ensures
            class == self.spec_class(),
    {
        match self {
            SurfaceKind::Plane => SurfaceClass::Plane,
            SurfaceKind::BsplineSurface => SurfaceClass::BsplineSurface,
            SurfaceKind::NurbsSurface => SurfaceClass::NurbsSurface,
            SurfaceKind::RevolutionSurface { .. } => SurfaceClass::RevolutionSurface,
            SurfaceKind::TsplineSurface => SurfaceClass::TsplineSurface,
            SurfaceKind::SphericalSurface => SurfaceClass::SphericalSurface,
            SurfaceKind::ToroidalSurface => SurfaceClass::ToroidalSurface,
        }
    }
}

/// The name of a surface class, as diagnosis reports it.
pub open spec fn surface_class_label(class: SurfaceClass) -> Seq<char> {
    match class {
        SurfaceClass::Plane => "Plane"@,
        SurfaceClass::BsplineSurface => "BsplineSurface"@,
        SurfaceClass::NurbsSurface => "NurbsSurface"@,
        SurfaceClass::RevolutionSurface => "RevolutionSurface"@,
        SurfaceClass::TsplineSurface => "TsplineSurface"@,
        SurfaceClass::SphericalSurface => "SphericalSurface"@,
        SurfaceClass::ToroidalSurface => "ToroidalSurface"@,
    }
}

/// The name of a curve class, as diagnosis reports it.
pub open spec fn curve_class_label(class: CurveClass) -> Seq<char> {
    match class {
        CurveClass::Line => "Line"@,
        CurveClass::BsplineCurve => "BsplineCurve"@,
        CurveClass::NurbsCurve => "NurbsCurve"@,
        CurveClass::ParameterCurve => "ParameterCurve"@,
        CurveClass::IntersectionCurve => "IntersectionCurve"@,
    }
}

/// The [`SurfaceClass`] variant's name, for diagnosis.
pub fn surface_class_name(class: SurfaceClass) -> (name: &'static str)
    ensures
        name@ == surface_class_label(class),
{
    match class {
        SurfaceClass::Plane => "Plane",
        SurfaceClass::BsplineSurface => "BsplineSurface",
        SurfaceClass::NurbsSurface => "NurbsSurface",
        SurfaceClass::RevolutionSurface => "RevolutionSurface",
        SurfaceClass::TsplineSurface => "TsplineSurface",
        SurfaceClass::SphericalSurface => "SphericalSurface",
        SurfaceClass::ToroidalSurface => "ToroidalSurface",
    }
}

/// The [`CurveClass`] variant's name, for diagnosis.
pub fn curve_class_name(class: CurveClass) -> (name: &'static str)
    ensures
        name@ == curve_class_label(class),
{
    match class {
        CurveClass::Line => "Line",
        CurveClass::BsplineCurve => "BsplineCurve",
        CurveClass::NurbsCurve => "NurbsCurve",
        CurveClass::ParameterCurve => "ParameterCurve",
        CurveClass::IntersectionCurve => "IntersectionCurve",
    }
}

/// The short name of a surface class used by the projection census lens.
pub open spec fn surface_kind_label(class: SurfaceClass) -> Seq<char> {
    match class {
        SurfaceClass::Plane => "plane"@,
        SurfaceClass::BsplineSurface => "bspline"@,
        SurfaceClass::NurbsSurface => "nurbs"@,
        SurfaceClass::RevolutionSurface => "revolution"@,
        SurfaceClass::TsplineSurface => "tspline"@,
        SurfaceClass::SphericalSurface => "sphere"@,
        SurfaceClass::ToroidalSurface => "torus"@,
    }
}

/// Which surface class this is, for the projection census lens only.
pub fn surface_kind(class: SurfaceClass) -> (name: &'static str)
    ensures
        name@ == surface_kind_label(class),
{
    match class {
        SurfaceClass::Plane => "plane",
        SurfaceClass::BsplineSurface => "bspline",
        SurfaceClass::NurbsSurface => "nurbs",
        SurfaceClass::RevolutionSurface => "revolution",
        SurfaceClass::TsplineSurface => "tspline",
        SurfaceClass::SphericalSurface => "sphere",
        SurfaceClass::ToroidalSurface => "torus",
    }
}

// ---------------------------------------------------------------------------
// Content-hash tags
// ---------------------------------------------------------------------------

/// The byte that opens the content hash of a surface of this class.
pub open spec fn surface_tag(class: SurfaceClass) -> u8 {
    match class {
        SurfaceClass::Plane => 0,
        SurfaceClass::BsplineSurface => 1,
        SurfaceClass::NurbsSurface => 2,
        SurfaceClass::RevolutionSurface => 3,
        SurfaceClass::TsplineSurface => 4,
        SurfaceClass::SphericalSurface => 5,
        SurfaceClass::ToroidalSurface => 6,
    }
}

/// The byte that opens the content hash of a 3-D curve of this class.
pub open spec fn curve_tag(class: CurveClass) -> u8 {
    match class {
        CurveClass::Line => 0,
        CurveClass::BsplineCurve => 1,
        CurveClass::NurbsCurve => 2,
        CurveClass::ParameterCurve => 3,
        CurveClass::IntersectionCurve => 4,
    }
}

/// The byte that opens the content hash of a 2-D curve of this class.
pub open spec fn curve2d_tag(class: Curve2DClass) -> u8 {
    match class {
        Curve2DClass::Line => 0,
        Curve2DClass::Polyline => 1,
        Curve2DClass::Conic => 2,
        Curve2DClass::BsplineCurve => 3,
        Curve2DClass::NurbsCurve => 4,
    }
}

/// The byte that opens the content hash of a conic of this class.
pub open spec fn conic_tag(class: ConicClass) -> u8 {
    match class {
        ConicClass::Ellipse => 0,
        ConicClass::Hyperbola => 1,
        ConicClass::Parabola => 2,
    }
}

/// The tag the content hash of a surface starts with.
pub fn surface_hash_tag(class: SurfaceClass) -> (tag: u8)
    ensures
        tag == surface_tag(class),
{
    match class {
        SurfaceClass::Plane => 0,
        SurfaceClass::BsplineSurface => 1,
        SurfaceClass::NurbsSurface => 2,
        SurfaceClass::RevolutionSurface => 3,
        SurfaceClass::TsplineSurface => 4,
        SurfaceClass::SphericalSurface => 5,
        SurfaceClass::ToroidalSurface => 6,
    }
}

/// The tag the content hash of a 3-D curve starts with.
pub fn curve_hash_tag(class: CurveClass) -> (tag: u8)
    ensures
        tag == curve_tag(class),
{
    match class {
        CurveClass::Line => 0,
        CurveClass::BsplineCurve => 1,
        CurveClass::NurbsCurve => 2,
        CurveClass::ParameterCurve => 3,
        CurveClass::IntersectionCurve => 4,
    }
}

/// The tag the content hash of a 2-D curve starts with.
pub fn curve2d_hash_tag(class: Curve2DClass) -> (tag: u8)
    ensures
        tag == curve2d_tag(class),
{
    match class {
        Curve2DClass::Line => 0,
        Curve2DClass::Polyline => 1,
        Curve2DClass::Conic => 2,
        Curve2DClass::BsplineCurve => 3,
        Curve2DClass::NurbsCurve => 4,
    }
}

/// The tag the content hash of a conic starts with.
pub fn conic_hash_tag(class: ConicClass) -> (tag: u8)
    ensures
        tag == conic_tag(class),
{
    match class {
        ConicClass::Ellipse => 0,
        ConicClass::Hyperbola => 1,
        ConicClass::Parabola => 2,
    }
}

/// Distinct classes open their content hash with distinct tags, so two values
/// of different classes never feed the hasher the same first byte; and the
/// sphere and torus tags are new, so the tags of the five older surface
/// classes keep the values `0..=4`.
pub proof fn law_hash_tags_separate_classes()
    ensures
        forall|a: SurfaceClass, b: SurfaceClass| surface_tag(a) == surface_tag(b) ==> a == b,
        forall|a: CurveClass, b: CurveClass| curve_tag(a) == curve_tag(b) ==> a == b,
        forall|a: Curve2DClass, b: Curve2DClass| curve2d_tag(a) == curve2d_tag(b) ==> a == b,
        forall|a: ConicClass, b: ConicClass| conic_tag(a) == conic_tag(b) ==> a == b,
        forall|a: SurfaceClass|
            a != SurfaceClass::SphericalSurface && a != SurfaceClass::ToroidalSurface ==> surface_tag(a)
                <= 4,
{
}

// ---------------------------------------------------------------------------
// Reported parameter ranges
// ---------------------------------------------------------------------------

/// Whether a curve's reported parameter range bounds it: a line's `[0, 1]` is
/// a nominal segment on an unbounded curve; every other class reports the
/// extent it carries data for.
pub open spec fn curve_range_is_bound(curve: CurveClass) -> bool {
    curve != CurveClass::Line
}

/// Whether each axis of a surface's reported parameter range is a real bound,
/// as `(u, v)`: a plane's unit square is a placeholder, knot vectors and the
/// analytic sphere and torus are real, and a surface of revolution has a real
/// (periodic) turn axis and a profile axis exactly as real as its profile
/// curve's range, the two swapped by a reversed orientation.
pub open spec fn surface_range_is_bound(surface: SurfaceKind) -> (bool, bool) {
    match surface {
        SurfaceKind::Plane => (false, false),
        SurfaceKind::RevolutionSurface { profile, orientation } => if orientation {
            (curve_range_is_bound(profile), true)
        } else {
            (true, curve_range_is_bound(profile))
        },
        _ => (true, true),
    }
}

/// Whether a curve's reported `parameter_range` bounds it, or is a nominal
/// segment stamped onto an analytically unbounded curve.
pub fn reported_range_bounds_the_curve(curve: CurveClass) -> (bounds: bool)
    ensures
        bounds == curve_range_is_bound(curve),
{
    match curve {
        CurveClass::Line => false,
        CurveClass::BsplineCurve
        | CurveClass::NurbsCurve
        | CurveClass::ParameterCurve
        | CurveClass::IntersectionCurve => true,
    }
}

/// Whether each axis of `surface`'s reported parameter range is a real bound,
/// as `(u, v)`.
pub fn reported_range_bounds_the_surface(surface: SurfaceKind) -> (bounds: (bool, bool))
    ensures
        bounds == surface_range_is_bound(surface),
{
    match surface {
        SurfaceKind::Plane => (false, false),
        SurfaceKind::BsplineSurface | SurfaceKind::NurbsSurface => (true, true),
        SurfaceKind::TsplineSurface => (true, true),
        SurfaceKind::SphericalSurface | SurfaceKind::ToroidalSurface => (true, true),
        SurfaceKind::RevolutionSurface { profile, orientation } => {
            let profile_bounds = reported_range_bounds_the_curve(profile);
            let turn = true;
            if orientation {
                (profile_bounds, turn)
            } else {
                (turn, profile_bounds)
            }
        },
    }
}

/// Only a placeholder is ever dropped: every class except the plane keeps at
/// least one bounded axis, and a surface of revolution always keeps its turn
/// axis, whichever way its processor is oriented.
pub proof fn law_only_placeholders_are_dropped(surface: SurfaceKind)
    ensures
        surface != SurfaceKind::Plane ==> surface_range_is_bound(surface).0 || surface_range_is_bound(
            surface,
        ).1,
        surface matches SurfaceKind::RevolutionSurface { orientation, .. } ==> (if orientation {
            surface_range_is_bound(surface).1
        } else {
            surface_range_is_bound(surface).0
        }),
        !(surface is RevolutionSurface) && surface != SurfaceKind::Plane ==> surface_range_is_bound(
            surface,
        ) == (true, true),
{
}

} // verus!
