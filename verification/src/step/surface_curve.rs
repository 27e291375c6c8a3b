//! How a STEP `surface_curve` record becomes a model curve: its entity kind
//! and master representation, and whether it is really an intersection curve.

use vstd::prelude::*;
use super::records::{PreferredSurfaceCurveRepresentation, SurfaceCurveEntityKind};

verus! {

/// The kind of a loaded surface curve.
#[derive(Clone, Copy, Debug, PartialEq, Eq, Structural)]
pub enum SurfaceCurveKind {
    SurfaceCurve,
    SeamCurve,
    IntersectionCurve,
}

/// Which of a surface curve's representations is its master.
#[derive(Clone, Copy, Debug, PartialEq, Eq, Structural)]
pub enum SurfaceCurveRepresentation {
    Curve3D,
    ParameterCurve0,
    ParameterCurve1,
}

/// What one entry of a surface curve's `associated_geometry` is.
#[derive(Clone, Copy, Debug, PartialEq, Eq, Structural)]
pub enum AssociatedGeometryKind {
    ParameterCurve,
    Surface,
}

/// The kind a record spelled as `kind` loads as.
pub open spec fn spec_surface_curve_kind(kind: SurfaceCurveEntityKind) -> SurfaceCurveKind {
    match kind {
        SurfaceCurveEntityKind::Surface => SurfaceCurveKind::SurfaceCurve,
        SurfaceCurveEntityKind::Seam => SurfaceCurveKind::SeamCurve,
        SurfaceCurveEntityKind::Intersection => SurfaceCurveKind::IntersectionCurve,
    }
}

/// The master representation a preferred representation names: `pcurve_s1`
/// and `pcurve_s2` are the first and second associated parameter curves.
pub open spec fn spec_master_representation(
    preferred: PreferredSurfaceCurveRepresentation,
) -> SurfaceCurveRepresentation {
    match preferred {
        PreferredSurfaceCurveRepresentation::Curve3D => SurfaceCurveRepresentation::Curve3D,
        PreferredSurfaceCurveRepresentation::PcurveS1 => SurfaceCurveRepresentation::ParameterCurve0,
        PreferredSurfaceCurveRepresentation::PcurveS2 => SurfaceCurveRepresentation::ParameterCurve1,
    }
}

/// The kind a `surface_curve`, `seam_curve` or `intersection_curve` record
/// loads as.
pub fn surface_curve_kind(kind: SurfaceCurveEntityKind) -> (loaded: SurfaceCurveKind)
    ensures
        loaded == spec_surface_curve_kind(kind),
{
    match kind {
        SurfaceCurveEntityKind::Surface => SurfaceCurveKind::SurfaceCurve,
        SurfaceCurveEntityKind::Seam => SurfaceCurveKind::SeamCurve,
        SurfaceCurveEntityKind::Intersection => SurfaceCurveKind::IntersectionCurve,
    }
}

/// The master representation of a surface curve.
pub fn master_representation(
    preferred: PreferredSurfaceCurveRepresentation,
) -> (master: SurfaceCurveRepresentation)
    ensures
        master == spec_master_representation(preferred),
{
    match preferred {
        PreferredSurfaceCurveRepresentation::Curve3D => SurfaceCurveRepresentation::Curve3D,
        PreferredSurfaceCurveRepresentation::PcurveS1 => SurfaceCurveRepresentation::ParameterCurve0,
        PreferredSurfaceCurveRepresentation::PcurveS2 => SurfaceCurveRepresentation::ParameterCurve1,
    }
}

/// A surface curve loads as an intersection curve of its first two
/// associated surfaces exactly when it carries at least two associated
/// geometries and every one of them is a surface.
pub fn is_intersection_of_surfaces(associated: &[AssociatedGeometryKind]) -> (intersection: bool)
    ensures
        intersection == (associated@.len() >= 2 && forall|i: int|
            0 <= i < associated@.len() ==> #[trigger] associated@[i] == AssociatedGeometryKind::Surface),
{
    if associated.len() < 2 {
        return false;
    }
    let mut i: usize = 0;
    while i < associated.len()
        invariant
            i <= associated@.len(),
            forall|k: int| 0 <= k < i ==> #[trigger] associated@[k] == AssociatedGeometryKind::Surface,
        decreases associated.len() - i,
    {
        if associated[i] != AssociatedGeometryKind::Surface {
            return false;
        }
        i = i + 1;
    }
    true
}

/// The three spellings load as three distinct kinds, and the three preferred
/// representations as three distinct masters.
pub proof fn law_surface_curve_mappings_are_injective()
    ensures
        forall|a: SurfaceCurveEntityKind, b: SurfaceCurveEntityKind|
            spec_surface_curve_kind(a) == spec_surface_curve_kind(b) ==> a == b,
        forall|a: PreferredSurfaceCurveRepresentation, b: PreferredSurfaceCurveRepresentation|
            spec_master_representation(a) == spec_master_representation(b) ==> a == b,
{
}

/// Each preferred representation makes the representation of its own name
/// the master: `.CURVE_3D.` the 3D curve, `.PCURVE_S1.` the first parameter
/// curve and `.PCURVE_S2.` the second; and each spelling loads as the kind
/// of its own name.
pub proof fn law_surface_curve_mappings_keep_their_names(
    preferred: PreferredSurfaceCurveRepresentation,
    kind: SurfaceCurveEntityKind,
)
    ensures
        spec_master_representation(preferred) == SurfaceCurveRepresentation::Curve3D
            <==> preferred == PreferredSurfaceCurveRepresentation::Curve3D,
        spec_master_representation(preferred) == SurfaceCurveRepresentation::ParameterCurve0
            <==> preferred == PreferredSurfaceCurveRepresentation::PcurveS1,
        spec_master_representation(preferred) == SurfaceCurveRepresentation::ParameterCurve1
            <==> preferred == PreferredSurfaceCurveRepresentation::PcurveS2,
        spec_surface_curve_kind(kind) == SurfaceCurveKind::SurfaceCurve <==> kind == SurfaceCurveEntityKind::Surface,
        spec_surface_curve_kind(kind) == SurfaceCurveKind::SeamCurve <==> kind == SurfaceCurveEntityKind::Seam,
        spec_surface_curve_kind(kind) == SurfaceCurveKind::IntersectionCurve
            <==> kind == SurfaceCurveEntityKind::Intersection,
{
}

} // verus!
