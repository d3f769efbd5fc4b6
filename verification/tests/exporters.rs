use elasticsearch_exporter::config::{Conf, Mode};
use elasticsearch_exporter::exporter::cluster_health::ClusterHealth;
use elasticsearch_exporter::exporter::ping::{Ping, RequestFailed};
use elasticsearch_exporter::exporter::shards::Shards;
use elasticsearch_exporter::exporter::{Collect, ScrapeStep, Source};
use elasticsearch_exporter::gauge::GaugeValue;
use elasticsearch_exporter::response::cluster_health::ClusterHealthResponse;
use elasticsearch_exporter::response::shards::ShardResponse;

fn conf(mode: Mode) -> Conf {
    Conf {
        addr: "http://10.0.0.1:9200".to_string(),
        username: "elastic".to_string(),
        password: "SECRET-REDACTED".to_string(),
        exporter_mode: mode,
    }
}

#[test]
fn cluster_health_gauge_is_cluster_health_ok() {
    let c = ClusterHealth::new();
    assert_eq!(c.status_metric.fq_name(), "cluster_health_ok");
    assert_eq!(
        c.status_metric.help,
        "Elasticsearch cluster status is green (1 if green, 0 otherwise)"
    );
    assert!(c.status_metric.labels.is_empty());
    assert_eq!(c.status_metric.validate(), Ok(()));
}

#[test]
fn cluster_health_query_reads_cluster_health() {
    let c = ClusterHealth::new();
    let q = c.query(&conf(Mode::Standard));
    assert_eq!(q.url, "http://10.0.0.1:9200/_cluster/health");
    assert!(q.params.is_empty());
}

#[test]
fn cluster_health_is_set_only_when_green() {
    let c = ClusterHealth::new();
    let v = |s: &str| c.value(&ClusterHealthResponse { status: s.to_string() });
    assert_eq!(v("green"), GaugeValue::Flag(true));
    assert_eq!(v("yellow"), GaugeValue::Flag(false));
    assert_eq!(v("red"), GaugeValue::Flag(false));
    assert_eq!(v("Green"), GaugeValue::Flag(false));
}

#[test]
fn ping_succeeds_on_success_statuses() {
    let p = Ping::new();
    assert_eq!(p.check(200), Ok(()));
    assert_eq!(p.check(204), Ok(()));
    assert_eq!(p.check(299), Ok(()));
}

#[test]
fn ping_fails_on_other_statuses() {
    let p = Ping::new();
    assert_eq!(p.check(199), Err(RequestFailed { status: 199 }));
    assert_eq!(p.check(300), Err(RequestFailed { status: 300 }));
    assert_eq!(p.check(401), Err(RequestFailed { status: 401 }));
    assert_eq!(p.check(503), Err(RequestFailed { status: 503 }));
}

#[test]
fn ping_query_reads_the_root() {
    let q = Ping::new().query(&conf(Mode::Simple));
    assert_eq!(q.url, "http://10.0.0.1:9200/");
}

#[test]
fn shards_gauge_is_docs_by_index() {
    let s = Shards::new();
    assert_eq!(s.metrics.len(), 1);
    assert_eq!(s.metrics[0].fq_name(), "docs");
    assert_eq!(s.metrics[0].help, "The docs number in target index");
    assert_eq!(s.metrics[0].labels, vec!["index".to_string()]);
    assert_eq!(s.metrics[0].validate(), Ok(()));
}

#[test]
fn shards_query_asks_for_json() {
    let q = Shards::new().query(&conf(Mode::Standard));
    assert_eq!(q.url, "http://10.0.0.1:9200/_cat/shards");
    assert_eq!(q.params, vec![("format".to_string(), "json".to_string())]);
}

fn shard(index: &str, docs: Option<&str>) -> ShardResponse {
    ShardResponse { index: index.to_string(), docs: docs.map(|d| d.to_string()) }
}

#[test]
fn shards_of_hidden_indices_are_skipped() {
    let resp = vec![
        shard("logs", Some("10")),
        shard(".kibana", Some("3")),
        shard("logs", None),
        shard("metrics.v1", Some("7")),
        shard(".tasks", None),
    ];
    let out = Shards::new().samples(&resp);
    let got: Vec<(String, Option<String>)> = out.into_iter().map(|s| (s.index, s.docs)).collect();
    assert_eq!(
        got,
        vec![
            ("logs".to_string(), Some("10".to_string())),
            ("logs".to_string(), None),
            ("metrics.v1".to_string(), Some("7".to_string())),
        ]
    );
}

#[test]
fn shards_of_an_empty_answer_yield_nothing() {
    assert!(Shards::new().samples(&vec![]).is_empty());
    assert!(Shards::new().samples(&vec![shard(".a", None)]).is_empty());
}

#[test]
fn collect_declares_the_scrape_status_gauge() {
    let c = Collect::new(conf(Mode::Standard));
    assert_eq!(c.up.fq_name(), "node_status");
    assert_eq!(c.up.help, "Was the last scrape of rabbitmq successful.");
    assert!(c.up.labels.is_empty());
    assert_eq!(c.up.validate(), Ok(()));
    assert_eq!(c.config.addr, "http://10.0.0.1:9200");
}

#[test]
fn explicit_mode_overrides_configured_mode() {
    let c = Collect::new(conf(Mode::Standard));
    assert_eq!(c.mode(&None), Mode::Standard);
    assert_eq!(c.mode(&Some(Mode::Simple)), Mode::Simple);
    let c = Collect::new(conf(Mode::Simple));
    assert_eq!(c.mode(&None), Mode::Simple);
    assert_eq!(c.mode(&Some(Mode::Standard)), Mode::Standard);
}

#[test]
fn sources_follow_the_mode() {
    let c = Collect::new(conf(Mode::Standard));
    assert_eq!(c.sources(Mode::Standard), vec![Source::ClusterHealth, Source::Shards]);
    assert_eq!(c.sources(Mode::Simple), vec![Source::Ping]);
}

#[test]
fn scrape_status_follows_the_outcome() {
    let c = Collect::new(conf(Mode::Standard));
    assert_eq!(c.up_value(true), GaugeValue::Flag(true));
    assert_eq!(c.up_value(false), GaugeValue::Flag(false));
}

#[test]
fn failed_scrape_reports_only_the_status() {
    let c = Collect::new(conf(Mode::Standard));
    assert_eq!(c.report::<&str>(None, vec!["up"]), vec!["up"]);
}

#[test]
fn successful_scrape_drops_empty_families_and_ends_with_status() {
    let c = Collect::new(conf(Mode::Standard));
    let scraped = vec![("health", 1), ("empty", 0), ("docs", 3), ("none", 0)];
    assert_eq!(c.report(Some(scraped), vec!["up"]), vec!["health", "docs", "up"]);
    assert_eq!(c.report::<&str>(Some(vec![]), vec!["up"]), vec!["up"]);
}

#[test]
fn scrape_steps_read_sources_in_order_and_stop_at_a_failure() {
    let c = Collect::new(conf(Mode::Standard));
    assert_eq!(c.scrape_step(Mode::Standard, 0, false), ScrapeStep::Read(Source::ClusterHealth));
    assert_eq!(c.scrape_step(Mode::Standard, 1, false), ScrapeStep::Read(Source::Shards));
    assert_eq!(c.scrape_step(Mode::Standard, 2, false), ScrapeStep::Finish(true));
    assert_eq!(c.scrape_step(Mode::Standard, 1, true), ScrapeStep::Finish(false));
    assert_eq!(c.scrape_step(Mode::Simple, 0, false), ScrapeStep::Read(Source::Ping));
    assert_eq!(c.scrape_step(Mode::Simple, 1, false), ScrapeStep::Finish(true));
    assert_eq!(c.scrape_step(Mode::Simple, 0, true), ScrapeStep::Finish(false));
}
