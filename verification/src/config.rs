//! The exporter settings that the environment chooses: each setting is the text of its
//! variable, or nothing where the variable is not set, and the values are those text gives or
//! the defaults.
use vstd::prelude::*;
use vstd::string::StringExecFns;
use crate::text::{str_eq, parse_usize, usize_text, parse_u64, u64_text, split_char, split_once, pieces, texts, index_of_from};
use crate::exporter::{Protocol, Compression, protocol_parse};
use crate::metrics::{ExemplarFilter, exemplar_filter_parse};

verus! {

/// The endpoint when none is set.
pub const DEFAULT_ENDPOINT: &'static str = "localhost:55690";
/// The export interval and timeout when none is set, in milliseconds.
pub const DEFAULT_INTERVAL_MS: u64 = 10000;
/// The limit of a length when none is set: none.
pub const DEFAULT_LENGTH_LIMIT: usize = usize::MAX;
/// The limit of a count when none is set.
pub const DEFAULT_COUNT_LIMIT: usize = 128;

/// The text of each variable that the exporter reads, or nothing where it is not set.
#[derive(Clone, Debug, Default)]
pub struct EnvSettings {
    pub endpoint: Option<String>,
    pub protocol: Option<String>,
    pub insecure: Option<String>,
    pub compression: Option<String>,
    pub metric_export_interval: Option<String>,
    pub timeout: Option<String>,
    pub resource_attributes: Option<String>,
    pub service_name: Option<String>,
    pub attribute_value_length_limit: Option<String>,
    pub attribute_count_limit: Option<String>,
    pub span_attribute_value_length_limit: Option<String>,
    pub span_attribute_count_limit: Option<String>,
    pub span_event_count_limit: Option<String>,
    pub span_link_count_limit: Option<String>,
    pub event_attribute_count_limit: Option<String>,
    pub link_attribute_count_limit: Option<String>,
    pub metrics_exemplar_filter: Option<String>,
}

/// The exporter settings that the variables choose.
#[derive(Clone, Debug)]
pub struct ConfigValues {
    pub endpoint: String,
    pub protocol: Protocol,
    /// Whether a TLS client configuration is made: where the insecure variable reads `true`.
    pub tls: bool,
    pub compression: Option<Compression>,
    pub interval_ms: u64,
    pub timeout_ms: u64,
    /// The resource attributes as keys and string values.
    pub resource: Vec<(String, String)>,
    pub attribute_value_length_limit: usize,
    pub attribute_count_limit: usize,
    pub span_attribute_value_length_limit: usize,
    pub span_attribute_count_limit: usize,
    pub span_event_count_limit: usize,
    pub span_link_count_limit: usize,
    pub span_event_attribute_count_limit: usize,
    pub span_link_attribute_count_limit: usize,
    pub metric_exemplar_filter: ExemplarFilter,
}

/// The text of an optional setting.
pub open spec fn setting_text(v: Option<String>) -> Option<Seq<char>> {
    match v {
        Some(s) => Some(s@),
        None => None,
    }
}

/// The number that a setting gives, or `d` where it is not set or does not read as one.
pub open spec fn usize_or(v: Option<Seq<char>>, d: usize) -> usize {
    match v {
        Some(s) => match usize_text(s) {
            Some(n) => n,
            None => d,
        },
        None => d,
    }
}

/// The number that a setting gives, or `d` where it is not set or does not read as one.
pub open spec fn u64_or(v: Option<Seq<char>>, d: u64) -> u64 {
    match v {
        Some(s) => match u64_text(s) {
            Some(n) => n,
            None => d,
        },
        None => d,
    }
}

/// One resource attribute `key=value` cut at its first `=`; without `=` the whole text is the
/// key and the value is empty.
pub open spec fn attribute_pair(p: Seq<char>) -> (Seq<char>, Seq<char>) {
    let i = index_of_from(p, '=', 0);
    if i < 0 { (p, Seq::empty()) } else { (p.take(i), p.skip(i + 1)) }
}

/// The resource attributes: the pieces of the attribute list cut at each `,` (an unset list is
/// read as empty text, which is one empty piece), then `service.name` where a service name is
/// set.
pub open spec fn resource_pairs(attributes: Option<Seq<char>>, service: Option<Seq<char>>) -> Seq<(Seq<char>, Seq<char>)> {
    let text = match attributes {
        Some(a) => a,
        None => Seq::empty(),
    };
    pieces(text, ',').map_values(|p: Seq<char>| attribute_pair(p)) + match service {
        Some(s) => seq![("service.name"@, s)],
        None => Seq::empty(),
    }
}

/// The texts of pairs of strings.
pub open spec fn pairs_view(v: Seq<(String, String)>) -> Seq<(Seq<char>, Seq<char>)> {
    v.map_values(|p: (String, String)| (p.0@, p.1@))
}

fn read_usize_or(v: &Option<String>, d: usize) -> (r: usize)
    ensures
        r == usize_or(setting_text(*v), d),
{
    match v {
        Some(s) => match parse_usize(s.as_str()) {
            Some(n) => n,
            None => d,
        },
        None => d,
    }
}

fn read_u64_or(v: &Option<String>, d: u64) -> (r: u64)
    ensures
        r == u64_or(setting_text(*v), d),
{
    match v {
        Some(s) => match parse_u64(s.as_str()) {
            Some(n) => n,
            None => d,
        },
        None => d,
    }
}

fn read_resource(attributes: &Option<String>, service: &Option<String>) -> (r: Vec<(String, String)>)
    ensures
        pairs_view(r@) == resource_pairs(setting_text(*attributes), setting_text(*service)),
{
    let text: &str = match attributes {
        Some(a) => a.as_str(),
        None => "",
    };
    proof {
        reveal_strlit("");
        assert(""@ =~= Seq::<char>::empty());
    }
    let ps = split_char(text, ',');
    let ghost qs = pieces(text@, ',');
    let mut out: Vec<(String, String)> = Vec::new();
    let mut i: usize = 0;
    while i < ps.len()
        invariant
            i <= ps@.len(),
            texts(ps@) == qs,
            pairs_view(out@) == qs.take(i as int).map_values(|p: Seq<char>| attribute_pair(p)),
        decreases ps@.len() - i,
    {
        assert(texts(ps@)[i as int] == ps@[i as int]@);
        let p = ps[i];
        let pair = match split_once(p, '=') {
            Some((k, v)) => (String::from_str(k), String::from_str(v)),
            None => (String::from_str(p), String::new()),
        };
        let ghost before = out@;
        out.push(pair);
        proof {
            assert(pairs_view(out@) =~= pairs_view(before).push((pair.0@, pair.1@)));
            assert(qs.take(i + 1).map_values(|p: Seq<char>| attribute_pair(p))
                =~= qs.take(i as int).map_values(|p: Seq<char>| attribute_pair(p)).push(attribute_pair(qs[i as int])));
        }
        i += 1;
    }
    proof {
        assert(qs.take(ps@.len() as int) =~= qs);
    }
    match service {
        Some(s) => {
            let ghost before = out@;
            out.push((String::from_str("service.name"), s.clone()));
            proof {
                assert(pairs_view(out@) =~= pairs_view(before).push(("service.name"@, s@)));
            }
        },
        None => {},
    }
    proof {
        assert(pairs_view(out@) =~= resource_pairs(setting_text(*attributes), setting_text(*service)));
    }
    out
}

/// The exporter settings that the variables choose: each set variable that reads as a value
/// gives it, and every other setting takes its default (the endpoint `localhost:55690`, the
/// protocol `http/protobuf`, no TLS configuration, no compression, 10000 ms for the interval and
/// the timeout, no length limit, 128 for a count limit, exemplars of sampled traces).
pub fn config_values(vars: &EnvSettings) -> (c: ConfigValues)
    ensures
        c.endpoint@ == (match setting_text(vars.endpoint) {
            Some(e) => e,
            None => DEFAULT_ENDPOINT@,
        }),
        c.protocol == (match setting_text(vars.protocol) {
            Some(p) => match protocol_parse(p) {
                Some(x) => x,
                None => Protocol::HttpProto,
            },
            None => Protocol::HttpProto,
        }),
        c.tls == (match setting_text(vars.insecure) {
            Some(v) => v == "true"@,
            None => false,
        }),
        c.compression == (match setting_text(vars.compression) {
            Some(v) => if v == "gzip"@ { Some(Compression::GZip) } else { None },
            None => None,
        }),
        c.interval_ms == u64_or(setting_text(vars.metric_export_interval), DEFAULT_INTERVAL_MS),
        c.timeout_ms == u64_or(setting_text(vars.timeout), DEFAULT_INTERVAL_MS),
        pairs_view(c.resource@) == resource_pairs(setting_text(vars.resource_attributes), setting_text(vars.service_name)),
        c.attribute_value_length_limit == usize_or(setting_text(vars.attribute_value_length_limit), DEFAULT_LENGTH_LIMIT),
        c.attribute_count_limit == usize_or(setting_text(vars.attribute_count_limit), DEFAULT_COUNT_LIMIT),
        c.span_attribute_value_length_limit == usize_or(setting_text(vars.span_attribute_value_length_limit), DEFAULT_LENGTH_LIMIT),
        c.span_attribute_count_limit == usize_or(setting_text(vars.span_attribute_count_limit), DEFAULT_COUNT_LIMIT),
        c.span_event_count_limit == usize_or(setting_text(vars.span_event_count_limit), DEFAULT_COUNT_LIMIT),
        c.span_link_count_limit == usize_or(setting_text(vars.span_link_count_limit), DEFAULT_COUNT_LIMIT),
        c.span_event_attribute_count_limit == usize_or(setting_text(vars.event_attribute_count_limit), DEFAULT_COUNT_LIMIT),
        c.span_link_attribute_count_limit == usize_or(setting_text(vars.link_attribute_count_limit), DEFAULT_COUNT_LIMIT),
        c.metric_exemplar_filter == (match setting_text(vars.metrics_exemplar_filter) {
            Some(v) => match exemplar_filter_parse(v) {
                Some(f) => f,
                None => ExemplarFilter::WithSampledTrace,
            },
            None => ExemplarFilter::WithSampledTrace,
        }),
{
    let endpoint = match &vars.endpoint {
        Some(e) => e.clone(),
        None => String::from_str(DEFAULT_ENDPOINT),
    };
    let protocol = match &vars.protocol {
        Some(p) => match Protocol::from_str(p.as_str()) {
            Ok(x) => x,
            Err(_) => Protocol::HttpProto,
        },
        None => Protocol::HttpProto,
    };
    let tls = match &vars.insecure {
        Some(v) => str_eq(v.as_str(), "true"),
        None => false,
    };
    let compression = match &vars.compression {
        Some(v) => match Compression::from_str(v.as_str()) {
            Ok(x) => Some(x),
            Err(_) => None,
        },
        None => None,
    };
    let metric_exemplar_filter = match &vars.metrics_exemplar_filter {
        Some(v) => match ExemplarFilter::from_str(v.as_str()) {
            Ok(f) => f,
            Err(_) => ExemplarFilter::WithSampledTrace,
        },
        None => ExemplarFilter::WithSampledTrace,
    };
    ConfigValues {
        endpoint,
        protocol,
        tls,
        compression,
        interval_ms: read_u64_or(&vars.metric_export_interval, DEFAULT_INTERVAL_MS),
        timeout_ms: read_u64_or(&vars.timeout, DEFAULT_INTERVAL_MS),
        resource: read_resource(&vars.resource_attributes, &vars.service_name),
        attribute_value_length_limit: read_usize_or(&vars.attribute_value_length_limit, DEFAULT_LENGTH_LIMIT),
        attribute_count_limit: read_usize_or(&vars.attribute_count_limit, DEFAULT_COUNT_LIMIT),
        span_attribute_value_length_limit: read_usize_or(&vars.span_attribute_value_length_limit, DEFAULT_LENGTH_LIMIT),
        span_attribute_count_limit: read_usize_or(&vars.span_attribute_count_limit, DEFAULT_COUNT_LIMIT),
        span_event_count_limit: read_usize_or(&vars.span_event_count_limit, DEFAULT_COUNT_LIMIT),
        span_link_count_limit: read_usize_or(&vars.span_link_count_limit, DEFAULT_COUNT_LIMIT),
        span_event_attribute_count_limit: read_usize_or(&vars.event_attribute_count_limit, DEFAULT_COUNT_LIMIT),
        span_link_attribute_count_limit: read_usize_or(&vars.link_attribute_count_limit, DEFAULT_COUNT_LIMIT),
        metric_exemplar_filter,
    }
}

} // verus!
