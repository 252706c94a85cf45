//! Track-to-row transformation pipeline for loading recorded GPS track logs
//! into a columnar time-series store.
//!
//! A parsed track is a sequence of segments, each an ordered list of points.
//! The library derives missing per-point speeds from geographic distance and
//! elapsed time (the distance itself is computed by a geodesic collaborator
//! outside this crate), maps each point into a fixed, ordered 16-column row,
//! and builds the batched insert request that the ingestion client submits.
//!
//! Quantities that the wire format carries as 64-bit IEEE 754 binary64
//! numbers (coordinates, speeds, dilution-of-precision values) are held
//! throughout this crate as their bit patterns, in `u64` fields: the pipeline
//! never inspects them numerically, it only moves them between places, and
//! the surrounding driver converts at the boundary.

pub mod args;
pub mod error;
pub mod greptimedb;
pub mod schema;
pub mod track;
