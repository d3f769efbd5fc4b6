use elasticsearch_exporter::client::{query, ACCEPT, TIMEOUT_SECS};
use elasticsearch_exporter::gauge::{clone_strings, owned_strings, GaugeDesc, GaugeValue, InvalidGauge};

#[test]
fn query_address_is_base_then_endpoint() {
    let q = query("http://es:9200", "/_cluster/health", &[]);
    assert_eq!(q.url, "http://es:9200/_cluster/health");
    assert!(q.params.is_empty());
    assert_eq!(ACCEPT, "application/json");
    assert_eq!(TIMEOUT_SECS, 1);
}

#[test]
fn query_keeps_parameters_in_order() {
    let q = query("http://es:9200", "/_cat/shards", &[("format", "json"), ("v", "true")]);
    assert_eq!(q.url, "http://es:9200/_cat/shards");
    assert_eq!(
        q.params,
        vec![
            ("format".to_string(), "json".to_string()),
            ("v".to_string(), "true".to_string())
        ]
    );
}

#[test]
fn strings_are_copied() {
    let v = owned_strings(&["host", "name"]);
    assert_eq!(v, vec!["host".to_string(), "name".to_string()]);
    assert_eq!(clone_strings(&v), v);
}

#[test]
fn full_names_join_subsystem_and_name() {
    assert_eq!(GaugeDesc::new("os", "load1", "h", &[]).fq_name(), "os_load1");
    assert_eq!(GaugeDesc::new("", "docs", "h", &[]).fq_name(), "docs");
    assert_eq!(GaugeDesc::new("os", "", "h", &[]).fq_name(), "");
}

#[test]
fn prometheus_accepts_valid_descriptions() {
    let d = GaugeDesc::new("cluster_health", "ok", "help", &["host", "name"]);
    assert_eq!(d.validate(), Ok(()));
    let d = GaugeDesc::new("", "a:b_c9", "help", &[]);
    assert_eq!(d.validate(), Ok(()));
}

#[test]
fn prometheus_refuses_invalid_descriptions() {
    assert_eq!(GaugeDesc::new("os", "load1", "", &[]).validate(), Err(InvalidGauge));
    assert_eq!(GaugeDesc::new("", "1load", "h", &[]).validate(), Err(InvalidGauge));
    assert_eq!(GaugeDesc::new("o-s", "load", "h", &[]).validate(), Err(InvalidGauge));
    assert_eq!(GaugeDesc::new("os", "load", "h", &["a-b"]).validate(), Err(InvalidGauge));
    assert_eq!(GaugeDesc::new("os", "load", "h", &["a:b"]).validate(), Err(InvalidGauge));
    assert_eq!(GaugeDesc::new("os", "load", "h", &["host", "host"]).validate(), Err(InvalidGauge));
    assert_eq!(GaugeDesc::new("os", "", "h", &[]).validate(), Err(InvalidGauge));
}

#[test]
fn gauge_values_compare_by_content() {
    assert_eq!(GaugeValue::Milliseconds(1500), GaugeValue::Milliseconds(1500));
    assert_ne!(GaugeValue::Integer(1), GaugeValue::Flag(true));
    assert_eq!(GaugeValue::FloatBits(1.5f64.to_bits()), GaugeValue::FloatBits(1.5f64.to_bits()));
}
