//! Single-pass streaming importer core for a geospatial element stream.
//!
//! The library routes points, ways and relations through a spatial
//! admissibility filter and a referential index, producing the rows that a
//! caller appends to its output tables. Coordinates are fixed-point
//! nanodegree values (`1e-9` degree) held in `i64`; callers convert
//! floating-point degrees at the boundary.

pub mod bounds;
pub mod import;
pub mod import_write;
pub mod index;
pub mod osm;
pub mod poly;
pub mod tags;

use vstd::prelude::*;

verus! {

/// Arguments of one import pass: the input path, the connection string of
/// the data sink, and the optional spatial filter, given either as a
/// comma-separated box or as a well-known-text polygon.
pub struct Import {
    /// Input path.
    pub input: String,
    /// Target connection string.
    pub connectionstring: String,
    /// Filter by bbox (lat/lon comma separated).
    pub bbox: Option<String>,
    /// Filter by polygon (WKT, lat/lon).
    pub polygon: Option<String>,
}

} // verus!
