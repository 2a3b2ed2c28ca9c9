//! Enumerations and plain records of the OpenTelemetry protocol (OTLP) for logs, metrics and
//! traces.
use vstd::prelude::*;

verus! {

/// How the values of a sum or a histogram are aggregated over time (0, 1 and 2 on the wire).
#[derive(Copy, Clone, Debug, PartialEq, Eq)]
pub enum AggregationTemporality {
    Unspecified,
    Delta,
    Cumulative,
}

/// Flags of a data point.
#[derive(Copy, Clone, Debug, PartialEq, Eq)]
pub enum DataPointFlags {
    NONE,
    NoRecordedValue,
}

/// The buckets of an exponential histogram: the index of the first bucket and the counts.
#[derive(Clone, Debug, PartialEq, Eq)]
pub struct Buckets {
    offset: i32,
    bucket_counts: Vec<u64>,
}

/// The kind of a span.
#[derive(Copy, Clone, Debug, PartialEq, Eq)]
pub enum SpanKind {
    Unspecified,
    Internal,
    Server,
    Client,
    Producer,
    Consumer,
}

/// The status of a span: a message and a code.
#[derive(Clone, Debug, PartialEq, Eq)]
pub struct Status {
    pub message: String,
    pub code: StatusCode,
}

/// The code of a span's status.
#[derive(Copy, Clone, Debug, PartialEq, Eq)]
pub enum StatusCode {
    Unset,
    OK,
    Error,
}

/// The severity of a log record.
#[derive(Copy, Clone, Debug, PartialEq, Eq)]
pub enum SeverityNumber {
    Unspecified,
    Trace,
    Trace2,
    Trace3,
    Trace4,
    Debug,
    Debug2,
    Debug3,
    Debug4,
    Info,
    Info2,
    Info3,
    Info4,
    Warn,
    Warn2,
    Warn3,
    Warn4,
    Error,
    Error2,
    Error3,
    Error4,
    Fatal,
    Fatal2,
    Fatal3,
    Fatal4,
}

/// Flags of a log record (0 on the wire).
#[derive(Copy, Clone, Debug, PartialEq, Eq)]
pub enum LogRecordFlags {
    Unspecified,
}

} // verus!
