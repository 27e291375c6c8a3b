//! The connectors with which a sweep builds its side geometry: each says how
//! a swept entity is joined to its image. The geometry they build is made by
//! the caller's geometry kernel; here they are the plain values a sweep is
//! asked for.

use vstd::prelude::*;
use crate::boxes::Point3;

verus! {

/// A direction or displacement in model space.
#[derive(Clone, Copy, Debug, PartialEq)]
pub struct Vector3<T> {
    pub x: T,
    pub y: T,
    pub z: T,
}

/// Joins two points by the straight line between them.
#[derive(Clone, Copy, Debug, PartialEq, Eq, Structural)]
pub struct LineConnector;

/// Joins a curve to its translate by the surface of extrusion along `vector`.
#[derive(Clone, Copy, Debug, PartialEq)]
pub struct ExtrudeConnector<T> {
    pub vector: Vector3<T>,
}

/// Joins a point to its image by the circular arc about the axis through
/// `origin` along `axis`, turning by `angle` radians.
#[derive(Clone, Copy, Debug, PartialEq)]
pub struct ArcConnector<T> {
    pub origin: Point3<T>,
    pub axis: Vector3<T>,
    pub angle: T,
}

/// Joins a curve to its image by the surface of revolution about the axis
/// through `origin` along `axis`.
#[derive(Clone, Copy, Debug, PartialEq)]
pub struct RevoluteConnector<T> {
    pub origin: Point3<T>,
    pub axis: Vector3<T>,
}

} // verus!
