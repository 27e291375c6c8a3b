//! The STEP (ISO 10303-21) side: entity records, how a data section's records
//! are routed into the entity tables, and the byte-level helpers of loading.

pub mod census;
pub mod decode;
pub mod dispatch;
pub mod exchange;
pub mod knots;
pub mod numbers;
pub mod parse;
pub mod records;
pub mod report;
pub mod resolve;
pub mod surface_curve;
