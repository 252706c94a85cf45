//! Command line arguments, as plain values.
//!
//! The surrounding driver owns the actual argument parsing and hands the
//! parsed values over in this shape.

use vstd::prelude::*;

verus! {

/// The options of one load run, all passed through unchanged to the
/// collaborators: a track name, the input path, and the connection options
/// of the target store.
#[derive(Clone, Debug)]
pub struct Args {
    /// Unique name for the track to input.
    pub track_name: String,
    /// The path of the track-log file to load.
    pub input: String,
    /// The endpoint of the target store's gRPC service.
    pub db_endpoint: String,
    /// Username for the target store.
    pub db_username: Option<String>,
    /// Password for the target store.
    pub db_password: Option<String>,
    /// Table name to insert into.
    pub table_name: String,
    /// Target database name.
    pub database_name: String,
    /// Whether to use TLS.
    pub use_tls: bool,
}

} // verus!
