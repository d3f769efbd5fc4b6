use elasticsearch_exporter::exporter::nodes::{MetricGroup, NodeSample, Nodes};
use elasticsearch_exporter::gauge::{GaugeDesc, GaugeValue};
use elasticsearch_exporter::response::nodes::{
    NodeStatsBreakersResponse, NodeStatsFSDataResponse, NodeStatsFSIOStatsDeviceResponse,
    NodeStatsFSIOStatsResponse, NodeStatsFSResponse, NodeStatsIndexingPressureCurrentResponse,
    NodeStatsIndexingPressureResponse, NodeStatsIndicesDocsResponse,
    NodeStatsIndicesIndexingResponse, NodeStatsIndicesResponse, NodeStatsJVMGCCollectorResponse,
    NodeStatsJVMGCResponse, NodeStatsJVMMemResponse, NodeStatsJVMResponse,
    NodeStatsNodeResponse, NodeStatsOSCPULoadResponse, NodeStatsOSCPUResponse,
    NodeStatsOSMemResponse, NodeStatsOSResponse, NodeStatsThreadPoolResponse, NodeStatusResponse,
};

fn pool(base: i64) -> NodeStatsThreadPoolResponse {
    NodeStatsThreadPoolResponse {
        threads: base,
        queue: base + 1,
        active: base + 2,
        rejected: base + 3,
        largest: base + 4,
        completed: base + 5,
    }
}

fn node(host: &str, name: &str, devices: usize) -> NodeStatsNodeResponse {
    NodeStatsNodeResponse {
        name: name.to_string(),
        host: host.to_string(),
        timestamp: 1,
        roles: Some(vec!["data".to_string()]),
        attributes: vec![],
        transport_address: "10.0.0.1:9300".to_string(),
        indices: NodeStatsIndicesResponse {
            docs: NodeStatsIndicesDocsResponse { count: 100, deleted: 4 },
            indexing: NodeStatsIndicesIndexingResponse {
                index_total: 50,
                index_time_in_millis: 70,
                index_current: 0,
                delete_total: 6,
                delete_time_in_millis: 2500,
                delete_current: 0,
                is_throttled: true,
                throttle_time_in_millis: 1200,
            },
        },
        os: NodeStatsOSResponse {
            timestamp: 2,
            cpu: NodeStatsOSCPUResponse {
                load_average: NodeStatsOSCPULoadResponse {
                    load1_bits: 0.5f64.to_bits(),
                    load5_bits: 1.25f64.to_bits(),
                    load15_bits: 2.0f64.to_bits(),
                },
                percent: 12,
            },
            mem: NodeStatsOSMemResponse { free_in_bytes: 1000, used_in_bytes: 3000 },
        },
        fs: NodeStatsFSResponse {
            timestamp: 3,
            data: vec![NodeStatsFSDataResponse {
                path: "/data/nodes/0".to_string(),
                mount: "/data (/dev/sda1)".to_string(),
                dev: "/dev/sda1".to_string(),
                total_in_bytes: 900,
                free_in_bytes: 500,
                available_in_bytes: 400,
            }],
            io_stats: NodeStatsFSIOStatsResponse {
                devices: (0..devices)
                    .map(|i| NodeStatsFSIOStatsDeviceResponse {
                        device_name: format!("sda{}", i),
                        operations: 10,
                        read_operations: 4,
                        write_operations: 6,
                        read_kilobytes: 40,
                        write_kilobytes: 60,
                    })
                    .collect(),
            },
        },
        thread_pool: vec![("search".to_string(), pool(10)), ("write".to_string(), pool(20))],
        jvm: NodeStatsJVMResponse {
            mem: NodeStatsJVMMemResponse {
                heap_committed_in_bytes: 1,
                heap_used_in_bytes: 1,
                heap_max_in_bytes: 1,
                non_heap_committed_in_bytes: 1,
                non_heap_used_in_bytes: 1,
            },
            gc: NodeStatsJVMGCResponse {
                collectors: vec![(
                    "young".to_string(),
                    NodeStatsJVMGCCollectorResponse {
                        collection_count: 9,
                        collection_time_in_millis: 3500,
                    },
                )],
            },
        },
        breakers: vec![(
            "request".to_string(),
            NodeStatsBreakersResponse {
                estimated_size_in_bytes: 11,
                limit_size_in_bytes: 22,
                overhead_bits: 1.0f64.to_bits(),
                tripped: 0,
            },
        )],
        indexing_pressure: vec![(
            "memory".to_string(),
            NodeStatsIndexingPressureResponse {
                current: NodeStatsIndexingPressureCurrentResponse { all_in_bytes: 77 },
                limit_in_bytes: 88,
            },
        )],
    }
}

fn answer(nodes: Vec<NodeStatsNodeResponse>) -> NodeStatusResponse {
    NodeStatusResponse {
        cluster_name: "es".to_string(),
        nodes: nodes.into_iter().enumerate().map(|(i, n)| (format!("id{}", i), n)).collect(),
    }
}

fn labels(s: &NodeSample) -> Vec<&str> {
    s.labels.iter().map(|l| l.as_str()).collect()
}

fn gauge<'a>(nodes: &'a Nodes, s: &NodeSample) -> &'a GaugeDesc {
    match s.group {
        MetricGroup::Node => &nodes.node_metrics[s.metric].gauge,
        MetricGroup::GcCollection => &nodes.gc_collection_metrics[s.metric].gauge,
        MetricGroup::Breaker => &nodes.breaker_metrics[s.metric].gauge,
        MetricGroup::IndexingPressure => &nodes.indexing_pressure_metrics[s.metric].gauge,
        MetricGroup::ThreadPool => &nodes.thread_pool_metrics[s.metric].gauge,
        MetricGroup::FilesystemData => &nodes.filesystem_data_metrics[s.metric].gauge,
        MetricGroup::FilesystemIODevice => &nodes.filesystem_io_device_metrics[s.metric].gauge,
    }
}

#[test]
fn nodes_declares_each_family() {
    let n = Nodes::new();
    assert_eq!(n.node_metrics.len(), 13);
    assert_eq!(n.gc_collection_metrics.len(), 2);
    assert_eq!(n.breaker_metrics.len(), 4);
    assert_eq!(n.indexing_pressure_metrics.len(), 2);
    assert_eq!(n.thread_pool_metrics.len(), 6);
    assert_eq!(n.filesystem_data_metrics.len(), 3);
    assert_eq!(n.filesystem_io_device_metrics.len(), 5);
    assert_eq!(n.node_metrics[0].gauge.fq_name(), "os_load1");
    assert_eq!(n.node_metrics[9].gauge.fq_name(), "indices_indexing_delete_time_seconds_total");
    assert_eq!(n.gc_collection_metrics[1].gauge.fq_name(), "jvm_gc_collection_seconds_sum");
    assert_eq!(n.breaker_metrics[1].gauge.labels, vec!["host", "name", "breaker"]);
    assert_eq!(n.breaker_metrics[3].gauge.labels, vec!["host", "name", "breaker"]);
    assert_eq!(n.breaker_metrics[2].gauge.labels, vec!["host", "name", "breaker"]);
    assert_eq!(n.filesystem_data_metrics[2].gauge.fq_name(), "filesystem_data_size_bytes");
    assert_eq!(
        n.filesystem_io_device_metrics[4].gauge.fq_name(),
        "filesystem_io_stats_device_write_size_kilobytes_sum"
    );
    assert_eq!(n.thread_pool_metrics[0].gauge.help, "Thread Pool operatios completed");
}

#[test]
fn every_node_family_is_accepted_by_prometheus() {
    let n = Nodes::new();
    let all: Vec<&GaugeDesc> = n
        .node_metrics
        .iter()
        .map(|m| &m.gauge)
        .chain(n.gc_collection_metrics.iter().map(|m| &m.gauge))
        .chain(n.breaker_metrics.iter().map(|m| &m.gauge))
        .chain(n.indexing_pressure_metrics.iter().map(|m| &m.gauge))
        .chain(n.thread_pool_metrics.iter().map(|m| &m.gauge))
        .chain(n.filesystem_data_metrics.iter().map(|m| &m.gauge))
        .chain(n.filesystem_io_device_metrics.iter().map(|m| &m.gauge))
        .collect();
    assert_eq!(all.len(), 35);
    for g in all {
        assert_eq!(g.validate(), Ok(()), "{}", g.fq_name());
    }
}

#[test]
fn node_query_reads_local_stats() {
    let q = Nodes::new().query("http://es:9200");
    assert_eq!(q.url, "http://es:9200/_nodes/_local/stats");
}

#[test]
fn samples_of_one_node_follow_the_families() {
    let n = Nodes::new();
    let out = n.samples(&answer(vec![node("10.0.0.1", "node-a", 1)]));
    // 13 node, 2 gc, 4 breaker, 2 pressure, 2 * 6 pool, 3 data, 5 device.
    assert_eq!(out.len(), 13 + 2 + 4 + 2 + 12 + 3 + 5);
    assert_eq!(out[0].group, MetricGroup::Node);
    assert_eq!(labels(&out[0]), vec!["10.0.0.1", "node-a"]);
    assert_eq!(out[0].value, GaugeValue::FloatBits(0.5f64.to_bits()));
    assert_eq!(out[3].value, GaugeValue::Integer(12));
    assert_eq!(out[6].value, GaugeValue::Integer(100));
    assert_eq!(out[9].value, GaugeValue::Milliseconds(2500));
    assert_eq!(out[11].value, GaugeValue::Flag(true));
    assert_eq!(out[12].value, GaugeValue::Milliseconds(1200));
    assert_eq!(out[13].group, MetricGroup::GcCollection);
    assert_eq!(labels(&out[13]), vec!["10.0.0.1", "node-a", "young"]);
    assert_eq!(out[14].value, GaugeValue::Milliseconds(3500));
    assert_eq!(out[15].group, MetricGroup::Breaker);
    assert_eq!(labels(&out[15]), vec!["10.0.0.1", "node-a", "request"]);
    assert_eq!(out[18].value, GaugeValue::FloatBits(1.0f64.to_bits()));
    assert_eq!(out[19].group, MetricGroup::IndexingPressure);
    // The current bytes, then the configured limit.
    assert_eq!(out[19].value, GaugeValue::Integer(77));
    assert_eq!(out[20].value, GaugeValue::Integer(88));
    assert_eq!(out[21].group, MetricGroup::ThreadPool);
    assert_eq!(labels(&out[21]), vec!["10.0.0.1", "node-a", "search"]);
    assert_eq!(out[21].value, GaugeValue::Integer(15));
    assert_eq!(labels(&out[27]), vec!["10.0.0.1", "node-a", "write"]);
    assert_eq!(out[32].value, GaugeValue::Integer(20));
    assert_eq!(out[33].group, MetricGroup::FilesystemData);
    assert_eq!(
        labels(&out[33]),
        vec!["10.0.0.1", "node-a", "/data (/dev/sda1)", "/data/nodes/0"]
    );
    assert_eq!(out[33].value, GaugeValue::Integer(400));
    assert_eq!(out[35].value, GaugeValue::Integer(900));
    assert_eq!(out[36].group, MetricGroup::FilesystemIODevice);
    assert_eq!(labels(&out[36]), vec!["10.0.0.1", "node-a", "sda0"]);
    assert_eq!(out[40].value, GaugeValue::Integer(60));
    for (i, s) in out.iter().enumerate() {
        let expected = match s.group {
            MetricGroup::Node => i,
            MetricGroup::GcCollection => i - 13,
            MetricGroup::Breaker => i - 15,
            MetricGroup::IndexingPressure => i - 19,
            MetricGroup::ThreadPool => (i - 21) % 6,
            MetricGroup::FilesystemData => i - 33,
            MetricGroup::FilesystemIODevice => i - 36,
        };
        assert_eq!(s.metric, expected);
    }
}

#[test]
fn samples_of_nodes_come_node_after_node() {
    let n = Nodes::new();
    let out = n.samples(&answer(vec![node("h1", "a", 0), node("h2", "b", 2)]));
    let per_node = 13 + 2 + 4 + 2 + 12 + 3;
    assert_eq!(out.len(), per_node + per_node + 10);
    assert_eq!(labels(&out[0]), vec!["h1", "a"]);
    assert_eq!(labels(&out[per_node]), vec!["h2", "b"]);
    assert_eq!(out[per_node - 1].group, MetricGroup::FilesystemData);
    assert_eq!(out[out.len() - 1].group, MetricGroup::FilesystemIODevice);
}

#[test]
fn samples_of_no_nodes_are_empty() {
    assert!(Nodes::new().samples(&answer(vec![])).is_empty());
}

#[test]
fn label_counts_match_families() {
    let n = Nodes::new();
    let out = n.samples(&answer(vec![node("h", "a", 2)]));
    for s in &out {
        assert_eq!(s.labels.len(), gauge(&n, s).labels.len());
    }
    let last = &out[out.len() - 1];
    assert_eq!(labels(last), vec!["h", "a", "sda1"]);
}

#[test]
fn indexing_pressure_limit_reads_the_configured_limit() {
    let n = Nodes::new();
    assert_eq!(n.indexing_pressure_metrics[1].gauge.fq_name(), "indexing_pressure_limit_in_bytes");
    let out = n.samples(&answer(vec![node("h", "a", 0)]));
    let limit: Vec<_> = out
        .iter()
        .filter(|s| s.group == MetricGroup::IndexingPressure && s.metric == 1)
        .collect();
    assert_eq!(limit.len(), 1);
    assert_eq!(limit[0].value, GaugeValue::Integer(88));
}

#[test]
fn families_are_exported_in_order() {
    assert_eq!(
        Nodes::new().export_order(),
        vec![
            MetricGroup::Node,
            MetricGroup::Breaker,
            MetricGroup::GcCollection,
            MetricGroup::IndexingPressure,
            MetricGroup::ThreadPool,
            MetricGroup::FilesystemData,
            MetricGroup::FilesystemIODevice,
        ]
    );
}

#[test]
fn breaker_gauges_are_labelled_with_the_breaker_name() {
    let n = Nodes::new();
    for m in &n.breaker_metrics {
        assert_eq!(m.gauge.labels, vec!["host", "name", "breaker"]);
    }
    let out = n.samples(&answer(vec![node("h", "a", 0)]));
    let limit: Vec<_> = out
        .iter()
        .filter(|s| s.group == MetricGroup::Breaker && s.metric == 1)
        .collect();
    assert_eq!(limit.len(), 1);
    assert_eq!(labels(limit[0]), vec!["h", "a", "request"]);
    assert_eq!(limit[0].value, GaugeValue::Integer(22));
}

#[test]
fn a_node_sets_each_keyed_gauge_once() {
    let n = Nodes::new();
    let out = n.samples(&answer(vec![node("h", "a", 0)]));
    for (i, s) in out.iter().enumerate() {
        for t in &out[i + 1..] {
            if s.group == t.group && s.metric == t.metric {
                assert_ne!(s.labels, t.labels);
            }
        }
    }
    let pools: Vec<_> = out
        .iter()
        .filter(|s| s.group == MetricGroup::ThreadPool && s.metric == 0)
        .map(labels)
        .collect();
    assert_eq!(pools, vec![vec!["h", "a", "search"], vec!["h", "a", "write"]]);
}
