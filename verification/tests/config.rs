use protocols::config::{config_values, EnvSettings};
use protocols::exporter::{Compression, Protocol};
use protocols::metrics::ExemplarFilter;

#[test]
fn config_defaults() {
    let c = config_values(&EnvSettings::default());
    assert_eq!(c.endpoint, "localhost:55690");
    assert_eq!(c.protocol, Protocol::HttpProto);
    assert!(!c.tls);
    assert_eq!(c.compression, None);
    assert_eq!(c.interval_ms, 10000);
    assert_eq!(c.timeout_ms, 10000);
    assert_eq!(c.resource, vec![(String::new(), String::new())]);
    assert_eq!(c.attribute_value_length_limit, usize::MAX);
    assert_eq!(c.attribute_count_limit, 128);
    assert_eq!(c.span_link_attribute_count_limit, 128);
    assert_eq!(c.metric_exemplar_filter, ExemplarFilter::WithSampledTrace);
}

#[test]
fn config_from_variables() {
    let vars = EnvSettings {
        endpoint: Some("collector:4318".to_string()),
        protocol: Some("grpc".to_string()),
        insecure: Some("true".to_string()),
        compression: Some("gzip".to_string()),
        metric_export_interval: Some("2500".to_string()),
        timeout: Some("soon".to_string()),
        resource_attributes: Some("host=a,flag,k=v=w".to_string()),
        service_name: Some("svc".to_string()),
        attribute_count_limit: Some("64".to_string()),
        span_event_count_limit: Some("-1".to_string()),
        metrics_exemplar_filter: Some("all".to_string()),
        ..EnvSettings::default()
    };
    let c = config_values(&vars);
    assert_eq!(c.endpoint, "collector:4318");
    assert_eq!(c.protocol, Protocol::Grpc);
    assert!(c.tls);
    assert_eq!(c.compression, Some(Compression::GZip));
    assert_eq!(c.interval_ms, 2500);
    assert_eq!(c.timeout_ms, 10000);
    assert_eq!(
        c.resource,
        vec![
            ("host".to_string(), "a".to_string()),
            ("flag".to_string(), String::new()),
            ("k".to_string(), "v=w".to_string()),
            ("service.name".to_string(), "svc".to_string()),
        ]
    );
    assert_eq!(c.attribute_count_limit, 64);
    assert_eq!(c.span_event_count_limit, 128);
    assert_eq!(c.metric_exemplar_filter, ExemplarFilter::All);
    let d = config_values(&EnvSettings { protocol: Some("http".to_string()), insecure: Some("yes".to_string()), ..EnvSettings::default() });
    assert_eq!(d.protocol, Protocol::HttpProto);
    assert!(!d.tls);
}
