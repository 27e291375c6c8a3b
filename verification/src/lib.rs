//! Verified core of a B-rep modeling kernel and its STEP loader: parsing STEP
//! text and routing its records into entity tables, the byte-level scans and
//! decoders the loader relies on, the solver-attempt plan of the surface
//! projector, which method finds a trim boundary, which test decides that a
//! surface contains a curve, which argument bounds a face, the certified box
//! of a solid from its faces' boxes, and the diagnosis of faces that resist a
//! certified bound.
#![allow(unused_imports)]

pub mod bounding;
pub mod boxes;
pub mod classes;
pub mod containment;
pub mod projection;
pub mod step;
pub mod strings;
pub mod sweep;
pub mod text;
pub mod trim;
