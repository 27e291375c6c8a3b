//! Resolving the references between loaded STEP entities.
//!
//! An entity attribute is either written inline, a reference `#id` to another
//! instance, or some other kind of reference; a referenced instance is looked
//! up in the entity tables it may live in. Only which ids each table holds
//! matters here, so the tables are given by their key sets.

use vstd::prelude::*;
use std::collections::HashSet;

verus! {

broadcast use vstd::std_specs::hash::group_hash_axioms;

/// How an entity attribute names the instance it holds.
#[derive(Clone, Copy, Debug, PartialEq, Eq, Structural)]
pub enum Reference {
    /// The instance is written inline.
    Inline,
    /// A reference `#id` to an entity instance.
    Entity(u64),
    /// Any other kind of reference (a value or constant name).
    Other,
}

/// What a `face_bound`'s `bound` turns out to be.
#[derive(Clone, Copy, Debug, PartialEq, Eq, Structural)]
pub enum BoundResolution {
    /// An inline edge loop.
    InlineEdgeLoop,
    /// The edge loop `#id` of the edge-loop table.
    EdgeLoop(u64),
    /// The vertex loop `#id`: a legitimate point boundary.
    VertexLoop(u64),
    /// Neither: no such record, or a loop subtype with no table; carries the
    /// id when the reference had one.
    Unresolved(Option<u64>),
}

/// What a shell's `cfs_faces` entry resolves to.
#[derive(Clone, Copy, Debug, PartialEq, Eq, Structural)]
pub enum FaceTarget {
    Inline,
    OrientedFace(u64),
    FaceSurface(u64),
}

/// The resolution of a bound reference against the edge-loop and
/// vertex-loop tables.
pub open spec fn spec_resolve_bound(bound: Reference, edge_loops: Set<u64>, vertex_loops: Set<u64>) -> BoundResolution {
    match bound {
        Reference::Inline => BoundResolution::InlineEdgeLoop,
        Reference::Entity(id) => if edge_loops.contains(id) {
            BoundResolution::EdgeLoop(id)
        } else if vertex_loops.contains(id) {
            BoundResolution::VertexLoop(id)
        } else {
            BoundResolution::Unresolved(Some(id))
        },
        Reference::Other => BoundResolution::Unresolved(None),
    }
}

/// Resolves a `face_bound`'s `bound`: an edge loop is preferred, a vertex
/// loop is recognised as such, anything else is unresolved.
pub fn resolve_bound(
    bound: Reference,
    edge_loops: &HashSet<u64>,
    vertex_loops: &HashSet<u64>,
) -> (resolved: BoundResolution)
    ensures
        resolved == spec_resolve_bound(bound, edge_loops@, vertex_loops@),
{
    match bound {
        Reference::Inline => BoundResolution::InlineEdgeLoop,
        Reference::Entity(id) => {
            if edge_loops.contains(&id) {
                BoundResolution::EdgeLoop(id)
            } else if vertex_loops.contains(&id) {
                BoundResolution::VertexLoop(id)
            } else {
                BoundResolution::Unresolved(Some(id))
            }
        },
        Reference::Other => BoundResolution::Unresolved(None),
    }
}

/// The edge loop a bound holds, if it resolves to one.
pub fn bound_edge_loop(resolved: BoundResolution) -> (edge_loop: Option<Option<u64>>)
    ensures
        edge_loop == (match resolved {
            BoundResolution::InlineEdgeLoop => Some(None),
            BoundResolution::EdgeLoop(id) => Some(Some(id)),
            _ => None,
        }),
{
    match resolved {
        BoundResolution::InlineEdgeLoop => Some(None),
        BoundResolution::EdgeLoop(id) => Some(Some(id)),
        _ => None,
    }
}

/// The resolution of a shell's face reference: an oriented face first, then
/// a face surface.
pub open spec fn spec_resolve_shell_face(
    face: Reference,
    oriented_faces: Set<u64>,
    face_surfaces: Set<u64>,
) -> Option<FaceTarget> {
    match face {
        Reference::Inline => Some(FaceTarget::Inline),
        Reference::Entity(id) => if oriented_faces.contains(id) {
            Some(FaceTarget::OrientedFace(id))
        } else if face_surfaces.contains(id) {
            Some(FaceTarget::FaceSurface(id))
        } else {
            None
        },
        Reference::Other => None,
    }
}

/// Resolves one `cfs_faces` entry of a shell.
pub fn resolve_shell_face(
    face: Reference,
    oriented_faces: &HashSet<u64>,
    face_surfaces: &HashSet<u64>,
) -> (target: Option<FaceTarget>)
    ensures
        target == spec_resolve_shell_face(face, oriented_faces@, face_surfaces@),
{
    match face {
        Reference::Inline => Some(FaceTarget::Inline),
        Reference::Entity(id) => {
            if oriented_faces.contains(&id) {
                Some(FaceTarget::OrientedFace(id))
            } else if face_surfaces.contains(&id) {
                Some(FaceTarget::FaceSurface(id))
            } else {
                None
            }
        },
        Reference::Other => None,
    }
}

/// Where a single-table reference resolves: `Some(None)` for an inline
/// instance, `Some(Some(id))` for an instance `#id` found in `table`, `None`
/// otherwise.
pub open spec fn spec_resolve_in(element: Reference, table: Set<u64>) -> Option<Option<u64>> {
    match element {
        Reference::Inline => Some(None),
        Reference::Entity(id) => if table.contains(id) {
            Some(Some(id))
        } else {
            None
        },
        Reference::Other => None,
    }
}

/// Resolves a reference that may only point into one table: an oriented
/// face's face element, an oriented edge's edge element.
pub fn resolve_in(element: Reference, table: &HashSet<u64>) -> (resolved: Option<Option<u64>>)
    ensures
        resolved == spec_resolve_in(element, table@),
{
    match element {
        Reference::Inline => Some(None),
        Reference::Entity(id) => {
            if table.contains(&id) {
                Some(Some(id))
            } else {
                None
            }
        },
        Reference::Other => None,
    }
}

/// The entity id a reference names, if it names one.
pub fn referenced_id(element: Reference) -> (id: Option<u64>)
    ensures
        id == (match element {
            Reference::Entity(id) => Some(id),
            _ => None,
        }),
{
    match element {
        Reference::Entity(id) => Some(id),
        _ => None,
    }
}

/// Each bound a face lists, paired with the id it referenced: an inline bound
/// has no id and is present; `#id` is present when the face-bound table holds
/// it; any other reference has neither.
pub open spec fn spec_face_bound_entry(bound: Reference, face_bounds: Set<u64>) -> (Option<u64>, bool) {
    match bound {
        Reference::Inline => (None, true),
        Reference::Entity(id) => (Some(id), face_bounds.contains(id)),
        Reference::Other => (None, false),
    }
}

/// For every bound a face lists, the id it referenced (so a lost bound can
/// be reported by name) and whether it resolved.
pub fn face_bound_entries(bounds: &Vec<Reference>, face_bounds: &HashSet<u64>) -> (entries: Vec<(Option<u64>, bool)>)
    ensures
        entries@.len() == bounds@.len(),
        forall|i: int| 0 <= i < bounds@.len() ==> entries@[i] == spec_face_bound_entry(#[trigger] bounds@[i], face_bounds@),
{
    let mut entries: Vec<(Option<u64>, bool)> = Vec::new();
    let mut i: usize = 0;
    while i < bounds.len()
        invariant
            i <= bounds@.len(),
            entries@.len() == i,
            forall|k: int| 0 <= k < i ==> entries@[k] == spec_face_bound_entry(#[trigger] bounds@[k], face_bounds@),
        decreases bounds.len() - i,
    {
        let entry = match bounds[i] {
            Reference::Inline => (None, true),
            Reference::Entity(id) => (Some(id), face_bounds.contains(&id)),
            Reference::Other => (None, false),
        };
        entries.push(entry);
        i = i + 1;
    }
    entries
}

/// A vertex loop is never mistaken for an edge loop, and an edge loop always
/// wins when both tables hold the id; a bound is lost (unresolved) exactly
/// when neither table holds it.
pub proof fn law_bound_resolution_partitions(id: u64, edge_loops: Set<u64>, vertex_loops: Set<u64>)
    ensures
        spec_resolve_bound(Reference::Entity(id), edge_loops, vertex_loops) is EdgeLoop <==> edge_loops.contains(id),
        spec_resolve_bound(Reference::Entity(id), edge_loops, vertex_loops) is VertexLoop <==> (!edge_loops.contains(id) && vertex_loops.contains(id)),
        spec_resolve_bound(Reference::Entity(id), edge_loops, vertex_loops) is Unresolved <==> (!edge_loops.contains(id) && !vertex_loops.contains(id)),
{
}

} // verus!
