//! The settings of the telemetry exporter: the protocol it speaks and the compression it
//! applies.
use vstd::prelude::*;
use crate::text::str_eq;

verus! {

/// The protocol that telemetry is exported with.
#[derive(Copy, Clone, Debug, Eq, PartialEq)]
pub enum Protocol {
    Grpc,
    HttpJson,
    HttpProto,
}

/// The protocol that a setting names: `grpc`, `http/json` or `http/protobuf`.
pub open spec fn protocol_parse(v: Seq<char>) -> Option<Protocol> {
    if v == "grpc"@ {
        Some(Protocol::Grpc)
    } else if v == "http/json"@ {
        Some(Protocol::HttpJson)
    } else if v == "http/protobuf"@ {
        Some(Protocol::HttpProto)
    } else {
        None
    }
}

impl Protocol {
    /// Reads the protocol that a setting names (see `protocol_parse`).
    pub fn from_str(v: &str) -> (r: Result<Protocol, ()>)
        ensures
            match protocol_parse(v@) {
                Some(p) => r == Ok::<Protocol, ()>(p),
                None => r == Err::<Protocol, ()>(()),
            },
    {
        if str_eq(v, "grpc") {
            Ok(Protocol::Grpc)
        } else if str_eq(v, "http/json") {
            Ok(Protocol::HttpJson)
        } else if str_eq(v, "http/protobuf") {
            Ok(Protocol::HttpProto)
        } else {
            Err(())
        }
    }
}

/// The compression of exported telemetry.
#[derive(Copy, Clone, Debug, Eq, PartialEq)]
pub enum Compression {
    GZip,
}

impl Compression {
    /// Reads the compression that a setting names: `gzip`.
    pub fn from_str(v: &str) -> (r: Result<Compression, ()>)
        ensures
            v@ == "gzip"@ ==> r == Ok::<Compression, ()>(Compression::GZip),
            v@ != "gzip"@ ==> r == Err::<Compression, ()>(()),
    {
        if str_eq(v, "gzip") {
            Ok(Compression::GZip)
        } else {
            Err(())
        }
    }
}

} // verus!
