//! Error variants of the loading pipeline.

use vstd::prelude::*;

verus! {

/// Everything that can go wrong while loading a track.
///
/// Errors carry plain values only; where the underlying failure comes from a
/// collaborator outside this crate (the file reader, the track-log parser,
/// the ingestion transport, the geodesic distance routine), the surrounding
/// driver folds its report into the `msg` field.
#[derive(Debug)]
pub enum Error {
    /// A point needed a timestamp (for speed derivation or row mapping)
    /// and had none.
    TimestampNotPresent,
    /// The ingestion boundary rejected or could not complete a submission.
    WriteGreptimeDB { msg: String },
    /// The track-log file could not be opened.
    OpenGpxFile { path: String, msg: String },
    /// The track-log file could not be parsed.
    ReadGpxFile { path: String, msg: String },
    /// The geodesic distance computation between two points failed; carries
    /// both locations (latitude and longitude as binary64 bit patterns).
    CalculateDistance {
        prev_latitude: u64,
        prev_longitude: u64,
        next_latitude: u64,
        next_longitude: u64,
        msg: String,
    },
}

} // verus!
