use protocols::exporter::{Compression, Protocol};
use protocols::metrics::{
    Aggregation, DataPointType, ExemplarFilter, InstrumentParameters, IntDataPoint, IntHistogramDataPoint,
    IntInstrumentData,
};
use protocols::otlp::AggregationTemporality;

#[test]
fn exemplar_filter_from_str() {
    assert_eq!(ExemplarFilter::from_str("all"), Ok(ExemplarFilter::All));
    assert_eq!(ExemplarFilter::from_str("none"), Ok(ExemplarFilter::NONE));
    assert_eq!(ExemplarFilter::from_str("with_sampled_trace"), Ok(ExemplarFilter::WithSampledTrace));
    assert_eq!(ExemplarFilter::from_str("All"), Err(()));
    assert_eq!(ExemplarFilter::default(), ExemplarFilter::WithSampledTrace);
}

#[test]
fn instrument_parameters_builder() {
    let p = InstrumentParameters::new();
    assert_eq!(p.name, "");
    assert!(p.unit.is_none() && p.desc.is_none());
    assert!(matches!(p.aggregation, Aggregation::LastValue));
    let p = p
        .name_str("requests")
        .unit("1".to_string())
        .desc("served requests".to_string())
        .aggregation_sum(AggregationTemporality::Cumulative, true);
    assert_eq!(p.name, "requests");
    assert_eq!(p.unit.as_deref(), Some("1"));
    assert_eq!(p.desc.as_deref(), Some("served requests"));
    assert!(matches!(
        p.aggregation,
        Aggregation::Sum { temporality: AggregationTemporality::Cumulative, monotonic: true }
    ));
    let p = p.name("latency".to_string()).aggregation_histogram(AggregationTemporality::Delta);
    assert_eq!(p.name, "latency");
    assert!(matches!(p.aggregation, Aggregation::Histogram { temporality: AggregationTemporality::Delta }));
    assert!(matches!(p.clone().aggregation_drop().aggregation, Aggregation::Drop));
    assert!(matches!(p.clone().aggregation_last_value().aggregation, Aggregation::LastValue));
    assert!(matches!(p.aggregation(Aggregation::Drop).aggregation, Aggregation::Drop));
    assert_ne!(DataPointType::I64, DataPointType::F64);
}

#[test]
fn exporter_settings_from_str() {
    assert_eq!(Protocol::from_str("grpc"), Ok(Protocol::Grpc));
    assert_eq!(Protocol::from_str("http/json"), Ok(Protocol::HttpJson));
    assert_eq!(Protocol::from_str("http/protobuf"), Ok(Protocol::HttpProto));
    assert_eq!(Protocol::from_str("http"), Err(()));
    assert_eq!(Compression::from_str("gzip"), Ok(Compression::GZip));
    assert_eq!(Compression::from_str("GZIP"), Err(()));
}

#[test]
fn integer_data_points_aggregate() {
    let mut sum = IntInstrumentData::new(&Aggregation::Sum { temporality: AggregationTemporality::Cumulative, monotonic: true });
    sum.record(7, 5, 100);
    sum.record(7, -2, 150);
    sum.record(9, 1, 160);
    match &sum {
        IntInstrumentData::SumI64 { data_points, monotonic, .. } => {
            assert!(*monotonic);
            assert_eq!(data_points[&7], IntDataPoint { start_time: 100, time: 150, value: 3, flags: 0 });
            assert_eq!(data_points[&9], IntDataPoint { start_time: 160, time: 160, value: 1, flags: 0 });
        }
        _ => panic!("not a sum"),
    }
    let mut last = IntInstrumentData::new(&Aggregation::LastValue);
    last.record(1, 5, 10);
    last.record(1, -4, 20);
    match &last {
        IntInstrumentData::LastValueI64 { data_points } => {
            assert_eq!(data_points[&1], IntDataPoint { start_time: 10, time: 20, value: -4, flags: 0 });
        }
        _ => panic!("not a last value"),
    }
    let mut hist = IntInstrumentData::new(&Aggregation::Histogram { temporality: AggregationTemporality::Delta });
    hist.record(3, 4, 1);
    hist.record(3, 6, 2);
    match &hist {
        IntInstrumentData::HistogramI64 { data_points, .. } => {
            assert_eq!(data_points[&3], IntHistogramDataPoint { start_time: 1, time: 2, count: 2, sum: 10, flags: 0 });
        }
        _ => panic!("not a histogram"),
    }
    let mut dropped = IntInstrumentData::new(&Aggregation::Drop);
    dropped.record(3, 4, 1);
    assert!(matches!(dropped, IntInstrumentData::Drop));
}
