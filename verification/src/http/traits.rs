//! What a connection tells of itself: the HTTP version and how its streams may be used.
use vstd::prelude::*;

verus! {

/// The identifier of a stream of a connection.
pub type StreamId = usize;

/// A version of HTTP (1, 2 and 3).
#[derive(Copy, Clone, Debug, Eq, PartialEq, Ord, PartialOrd)]
pub enum Version {
    V1,
    V2,
    V3,
}

/// What a connection tells of itself.
#[derive(Copy, Clone, Debug, Eq, PartialEq, Ord, PartialOrd)]
pub struct ConnectionInfo {
    /// the HTTP version of the connection
    pub version: Version,
    /// If true, streams can be written to out of order
    pub out_of_order: bool,
    /// If true, multiple streams can be open at the same time
    pub parallel: bool,
}

} // verus!
