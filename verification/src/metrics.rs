//! Parameters of metric instruments: which exemplars are kept, how measurements are
//! aggregated, the builder of an instrument's name, unit, description and aggregation, and the
//! data points that integer measurements are aggregated into.
use vstd::prelude::*;
use vstd::string::StringExecFns;
use crate::otlp::AggregationTemporality;
use crate::text::str_eq;
use std::collections::HashMap;

verus! {

/// Which measurements are kept as exemplars.
#[derive(Copy, Clone, Debug, Eq, PartialEq)]
pub enum ExemplarFilter {
    NONE,
    All,
    WithSampledTrace,
}

impl Default for ExemplarFilter {
    /// Measurements of sampled traces are kept.
    fn default() -> (r: Self)
        ensures
            r == ExemplarFilter::WithSampledTrace,
    {
        ExemplarFilter::WithSampledTrace
    }
}

/// The filter that a setting names: `all`, `none` or `with_sampled_trace`.
pub open spec fn exemplar_filter_parse(s: Seq<char>) -> Option<ExemplarFilter> {
    if s == "all"@ {
        Some(ExemplarFilter::All)
    } else if s == "none"@ {
        Some(ExemplarFilter::NONE)
    } else if s == "with_sampled_trace"@ {
        Some(ExemplarFilter::WithSampledTrace)
    } else {
        None
    }
}

impl ExemplarFilter {
    /// Reads the filter that a setting names (see `exemplar_filter_parse`).
    pub fn from_str(v: &str) -> (r: Result<ExemplarFilter, ()>)
        ensures
            match exemplar_filter_parse(v@) {
                Some(f) => r == Ok::<ExemplarFilter, ()>(f),
                None => r == Err::<ExemplarFilter, ()>(()),
            },
    {
        if str_eq(v, "all") {
            Ok(ExemplarFilter::All)
        } else if str_eq(v, "none") {
            Ok(ExemplarFilter::NONE)
        } else if str_eq(v, "with_sampled_trace") {
            Ok(ExemplarFilter::WithSampledTrace)
        } else {
            Err(())
        }
    }
}

/// How an instrument aggregates its measurements.
#[derive(Clone, Debug)]
pub enum Aggregation {
    Drop,
    Sum { temporality: AggregationTemporality, monotonic: bool },
    LastValue,
    Histogram { temporality: AggregationTemporality },
}

/// The kind of number that an instrument records.
#[derive(Copy, Clone, Debug, Eq, PartialEq)]
pub enum DataPointType {
    I64,
    F64,
}

/// The parameters of a new instrument.
#[derive(Clone, Debug)]
pub struct InstrumentParameters {
    pub name: String,
    pub unit: Option<String>,
    pub desc: Option<String>,
    pub aggregation: Aggregation,
}

impl Default for InstrumentParameters {
    /// No name, unit or description; the last value is kept.
    fn default() -> (r: Self)
        ensures
            r.name@ == Seq::<char>::empty(),
            r.unit is None,
            r.desc is None,
            r.aggregation == Aggregation::LastValue,
    {
        InstrumentParameters { name: String::new(), unit: None, desc: None, aggregation: Aggregation::LastValue }
    }
}

impl InstrumentParameters {
    /// The default parameters.
    pub fn new() -> (r: Self)
        ensures
            r.name@ == Seq::<char>::empty(),
            r.unit is None,
            r.desc is None,
            r.aggregation == Aggregation::LastValue,
    {
        Self::default()
    }

    /// Sets the name.
    pub fn name(self, v: String) -> (r: Self)
        ensures
            r == (InstrumentParameters { name: v, ..self }),
    {
        InstrumentParameters { name: v, ..self }
    }

    /// Sets the name from a fixed text.
    pub fn name_str(self, v: &'static str) -> (r: Self)
        ensures
            r.name@ == v@,
            r.unit == self.unit,
            r.desc == self.desc,
            r.aggregation == self.aggregation,
    {
        InstrumentParameters { name: String::from_str(v), ..self }
    }

    /// Sets the unit.
    pub fn unit(self, v: String) -> (r: Self)
        ensures
            r == (InstrumentParameters { unit: Some(v), ..self }),
    {
        InstrumentParameters { unit: Some(v), ..self }
    }

    /// Sets the description.
    pub fn desc(self, v: String) -> (r: Self)
        ensures
            r == (InstrumentParameters { desc: Some(v), ..self }),
    {
        InstrumentParameters { desc: Some(v), ..self }
    }

    /// Sets the aggregation.
    pub fn aggregation(self, v: Aggregation) -> (r: Self)
        ensures
            r == (InstrumentParameters { aggregation: v, ..self }),
    {
        InstrumentParameters { aggregation: v, ..self }
    }

    /// Drops all measurements.
    pub fn aggregation_drop(self) -> (r: Self)
        ensures
            r == (InstrumentParameters { aggregation: Aggregation::Drop, ..self }),
    {
        InstrumentParameters { aggregation: Aggregation::Drop, ..self }
    }

    /// Sums the measurements.
    pub fn aggregation_sum(self, temporality: AggregationTemporality, monotonic: bool) -> (r: Self)
        ensures
            r == (InstrumentParameters { aggregation: Aggregation::Sum { temporality, monotonic }, ..self }),
    {
        InstrumentParameters { aggregation: Aggregation::Sum { temporality, monotonic }, ..self }
    }

    /// Keeps the last measurement.
    pub fn aggregation_last_value(self) -> (r: Self)
        ensures
            r == (InstrumentParameters { aggregation: Aggregation::LastValue, ..self }),
    {
        InstrumentParameters { aggregation: Aggregation::LastValue, ..self }
    }

    /// Counts and sums the measurements in a histogram.
    pub fn aggregation_histogram(self, temporality: AggregationTemporality) -> (r: Self)
        ensures
            r == (InstrumentParameters { aggregation: Aggregation::Histogram { temporality }, ..self }),
    {
        InstrumentParameters { aggregation: Aggregation::Histogram { temporality }, ..self }
    }
}

/// An integer data point: when it was started and last recorded, its value and its flags.
#[derive(Copy, Clone, Debug, Eq, PartialEq)]
pub struct IntDataPoint {
    pub start_time: u64,
    pub time: u64,
    pub value: i64,
    pub flags: u32,
}

/// An integer histogram data point: when it was started and last recorded, how many
/// measurements it holds, their sum and its flags.
#[derive(Copy, Clone, Debug, Eq, PartialEq)]
pub struct IntHistogramDataPoint {
    pub start_time: u64,
    pub time: u64,
    pub count: u64,
    pub sum: i64,
    pub flags: u32,
}

/// The data points of an instrument of integers, one per set of attributes (by its hash), as
/// its aggregation keeps them.
#[derive(Clone, Debug)]
pub enum IntInstrumentData {
    Drop,
    SumI64 { data_points: HashMap<u64, IntDataPoint>, temporality: AggregationTemporality, monotonic: bool },
    LastValueI64 { data_points: HashMap<u64, IntDataPoint> },
    HistogramI64 { data_points: HashMap<u64, IntHistogramDataPoint>, temporality: AggregationTemporality },
}

/// A data point that starts at `now`: no value yet.
pub open spec fn fresh_point(now: u64) -> IntDataPoint {
    IntDataPoint { start_time: now, time: now, value: 0, flags: 0 }
}

/// A histogram data point that starts at `now`: no measurement yet.
pub open spec fn fresh_histogram_point(now: u64) -> IntHistogramDataPoint {
    IntHistogramDataPoint { start_time: now, time: now, count: 0, sum: 0, flags: 0 }
}

/// The data point of `hash`, or a fresh one.
pub open spec fn point_at(m: Map<u64, IntDataPoint>, hash: u64, now: u64) -> IntDataPoint {
    if m.contains_key(hash) { m[hash] } else { fresh_point(now) }
}

/// The histogram data point of `hash`, or a fresh one.
pub open spec fn histogram_point_at(m: Map<u64, IntHistogramDataPoint>, hash: u64, now: u64) -> IntHistogramDataPoint {
    if m.contains_key(hash) { m[hash] } else { fresh_histogram_point(now) }
}

/// Whether recording `value` for `hash` stays within the integers: the sum, or the count and
/// the sum of a histogram, must not overflow.
pub open spec fn recordable(d: IntInstrumentData, hash: u64, value: i64, now: u64) -> bool {
    match d {
        IntInstrumentData::SumI64 { data_points, .. } => {
            let p = point_at(data_points@, hash, now);
            i64::MIN <= p.value + value <= i64::MAX
        },
        IntInstrumentData::HistogramI64 { data_points, .. } => {
            let p = histogram_point_at(data_points@, hash, now);
            p.count < u64::MAX && i64::MIN <= p.sum + value <= i64::MAX
        },
        _ => true,
    }
}

/// What recording `value` for `hash` at `now` makes of the instrument's data `d`: a sum adds
/// the value, a last value replaces it, a histogram counts it and adds it to its sum; the data
/// point is made where there is none yet, and its time becomes `now`. Dropped data stays.
pub open spec fn recorded(d: IntInstrumentData, e: IntInstrumentData, hash: u64, value: i64, now: u64) -> bool {
    match (d, e) {
        (IntInstrumentData::Drop, IntInstrumentData::Drop) => true,
        (IntInstrumentData::SumI64 { data_points: a, temporality: t, monotonic: m },
            IntInstrumentData::SumI64 { data_points: b, temporality: u, monotonic: n }) => {
            let p = point_at(a@, hash, now);
            &&& t == u && m == n
            &&& b@ == a@.insert(hash, IntDataPoint { time: now, value: (p.value + value) as i64, ..p })
        },
        (IntInstrumentData::LastValueI64 { data_points: a }, IntInstrumentData::LastValueI64 { data_points: b }) => {
            let p = point_at(a@, hash, now);
            b@ == a@.insert(hash, IntDataPoint { time: now, value: value, ..p })
        },
        (IntInstrumentData::HistogramI64 { data_points: a, temporality: t },
            IntInstrumentData::HistogramI64 { data_points: b, temporality: u }) => {
            let p = histogram_point_at(a@, hash, now);
            &&& t == u
            &&& b@ == a@.insert(hash, IntHistogramDataPoint { time: now, count: (p.count + 1) as u64,
                sum: (p.sum + value) as i64, ..p })
        },
        _ => false,
    }
}

impl IntInstrumentData {
    /// The empty data of an instrument of integers with the aggregation `aggregation`.
    pub fn new(aggregation: &Aggregation) -> (r: IntInstrumentData)
        ensures
            match *aggregation {
                Aggregation::Drop => r is Drop,
                Aggregation::Sum { temporality, monotonic } => r matches IntInstrumentData::SumI64 { data_points, temporality: t, monotonic: m }
                    && data_points@ == Map::<u64, IntDataPoint>::empty() && t == temporality && m == monotonic,
                Aggregation::LastValue => r matches IntInstrumentData::LastValueI64 { data_points }
                    && data_points@ == Map::<u64, IntDataPoint>::empty(),
                Aggregation::Histogram { temporality } => r matches IntInstrumentData::HistogramI64 { data_points, temporality: t }
                    && data_points@ == Map::<u64, IntHistogramDataPoint>::empty() && t == temporality,
            },
    {
        match aggregation {
            Aggregation::Drop => IntInstrumentData::Drop,
            Aggregation::Sum { temporality, monotonic } => IntInstrumentData::SumI64 {
                data_points: HashMap::with_capacity(256),
                temporality: *temporality,
                monotonic: *monotonic,
            },
            Aggregation::LastValue => IntInstrumentData::LastValueI64 { data_points: HashMap::with_capacity(256) },
            Aggregation::Histogram { temporality } => IntInstrumentData::HistogramI64 {
                data_points: HashMap::with_capacity(256),
                temporality: *temporality,
            },
        }
    }

    /// Records `value` for the attributes with the hash `hash` at the time `now` (see
    /// `recorded`).
    pub fn record(&mut self, hash: u64, value: i64, now: u64)
        requires
            recordable(*old(self), hash, value, now),
        ensures
            recorded(*old(self), *final(self), hash, value, now),
    {
        broadcast use vstd::std_specs::hash::group_hash_axioms;
        match self {
            IntInstrumentData::Drop => {},
            IntInstrumentData::SumI64 { data_points, .. } => {
                let p = match data_points.get(&hash) {
                    Some(p) => *p,
                    None => IntDataPoint { start_time: now, time: now, value: 0, flags: 0 },
                };
                data_points.insert(hash, IntDataPoint { time: now, value: p.value + value, ..p });
            },
            IntInstrumentData::LastValueI64 { data_points } => {
                let p = match data_points.get(&hash) {
                    Some(p) => *p,
                    None => IntDataPoint { start_time: now, time: now, value: 0, flags: 0 },
                };
                data_points.insert(hash, IntDataPoint { time: now, value: value, ..p });
            },
            IntInstrumentData::HistogramI64 { data_points, .. } => {
                let p = match data_points.get(&hash) {
                    Some(p) => *p,
                    None => IntHistogramDataPoint { start_time: now, time: now, count: 0, sum: 0, flags: 0 },
                };
                data_points.insert(hash, IntHistogramDataPoint { time: now, count: p.count + 1, sum: p.sum + value, ..p });
            },
        }
    }
}

} // verus!
