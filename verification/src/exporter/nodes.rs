use vstd::prelude::*;

use crate::client::{query, Query};
use crate::gauge::{
    clone_strings, desc_view, is_valid_gauge, is_valid_label_name, metrics_view, strings_view,
    strs_view, Field, GaugeDesc, GaugeDescView, GaugeValue,
    Metric,
};
use crate::response::nodes::{
    NodeStatsBreakersResponse, NodeStatsFSDataResponse, NodeStatsFSIOStatsDeviceResponse,
    NodeStatsIndexingPressureResponse, NodeStatsJVMGCCollectorResponse, NodeStatsNodeResponse,
    NodeStatsThreadPoolResponse, NodeStatusResponse,
};

verus! {

/// The endpoint that reports the statistics of the local node.
pub const ENDPOINT: &'static str = "/_nodes/_local/stats";

// ---------------------------------------------------------------------------
// Fields: what each gauge reads off the statistics.
// ---------------------------------------------------------------------------

/// Gauges read off the statistics of a whole node.
#[derive(PartialEq, Eq, Structural, Clone, Copy, Debug)]
pub enum NodeField {
    Load1,
    Load5,
    Load15,
    CpuPercent,
    MemFreeBytes,
    MemUsedBytes,
    Docs,
    DocsDeleted,
    IndexTotal,
    DeleteTime,
    DeleteTotal,
    IsThrottled,
    ThrottleTime,
}

impl Field<NodeStatsNodeResponse> for NodeField {
    open spec fn spec_value(&self, n: &NodeStatsNodeResponse) -> GaugeValue {
        match *self {
            NodeField::Load1 => GaugeValue::FloatBits(n.os.cpu.load_average.load1_bits),
            NodeField::Load5 => GaugeValue::FloatBits(n.os.cpu.load_average.load5_bits),
            NodeField::Load15 => GaugeValue::FloatBits(n.os.cpu.load_average.load15_bits),
            NodeField::CpuPercent => GaugeValue::Integer(n.os.cpu.percent),
            NodeField::MemFreeBytes => GaugeValue::Integer(n.os.mem.free_in_bytes),
            NodeField::MemUsedBytes => GaugeValue::Integer(n.os.mem.used_in_bytes),
            NodeField::Docs => GaugeValue::Integer(n.indices.docs.count),
            NodeField::DocsDeleted => GaugeValue::Integer(n.indices.docs.deleted),
            NodeField::IndexTotal => GaugeValue::Integer(n.indices.indexing.index_total),
            NodeField::DeleteTime => GaugeValue::Milliseconds(
                n.indices.indexing.delete_time_in_millis,
            ),
            NodeField::DeleteTotal => GaugeValue::Integer(n.indices.indexing.delete_total),
            NodeField::IsThrottled => GaugeValue::Flag(n.indices.indexing.is_throttled),
            NodeField::ThrottleTime => GaugeValue::Milliseconds(
                n.indices.indexing.throttle_time_in_millis,
            ),
        }
    }

    fn value(&self, n: &NodeStatsNodeResponse) -> (r: GaugeValue) {
        match *self {
            NodeField::Load1 => GaugeValue::FloatBits(n.os.cpu.load_average.load1_bits),
            NodeField::Load5 => GaugeValue::FloatBits(n.os.cpu.load_average.load5_bits),
            NodeField::Load15 => GaugeValue::FloatBits(n.os.cpu.load_average.load15_bits),
            NodeField::CpuPercent => GaugeValue::Integer(n.os.cpu.percent),
            NodeField::MemFreeBytes => GaugeValue::Integer(n.os.mem.free_in_bytes),
            NodeField::MemUsedBytes => GaugeValue::Integer(n.os.mem.used_in_bytes),
            NodeField::Docs => GaugeValue::Integer(n.indices.docs.count),
            NodeField::DocsDeleted => GaugeValue::Integer(n.indices.docs.deleted),
            NodeField::IndexTotal => GaugeValue::Integer(n.indices.indexing.index_total),
            NodeField::DeleteTime => GaugeValue::Milliseconds(
                n.indices.indexing.delete_time_in_millis,
            ),
            NodeField::DeleteTotal => GaugeValue::Integer(n.indices.indexing.delete_total),
            NodeField::IsThrottled => GaugeValue::Flag(n.indices.indexing.is_throttled),
            NodeField::ThrottleTime => GaugeValue::Milliseconds(
                n.indices.indexing.throttle_time_in_millis,
            ),
        }
    }
}

/// Gauges read off the statistics of one garbage collector.
#[derive(PartialEq, Eq, Structural, Clone, Copy, Debug)]
pub enum GcField {
    CollectionCount,
    CollectionTime,
}

impl Field<NodeStatsJVMGCCollectorResponse> for GcField {
    open spec fn spec_value(&self, g: &NodeStatsJVMGCCollectorResponse) -> GaugeValue {
        match *self {
            GcField::CollectionCount => GaugeValue::Integer(g.collection_count),
            GcField::CollectionTime => GaugeValue::Milliseconds(g.collection_time_in_millis),
        }
    }

    fn value(&self, g: &NodeStatsJVMGCCollectorResponse) -> (r: GaugeValue) {
        match *self {
            GcField::CollectionCount => GaugeValue::Integer(g.collection_count),
            GcField::CollectionTime => GaugeValue::Milliseconds(g.collection_time_in_millis),
        }
    }
}

/// Gauges read off the statistics of one circuit breaker.
#[derive(PartialEq, Eq, Structural, Clone, Copy, Debug)]
pub enum BreakerField {
    EstimatedSize,
    LimitSize,
    Tripped,
    Overhead,
}

impl Field<NodeStatsBreakersResponse> for BreakerField {
    open spec fn spec_value(&self, b: &NodeStatsBreakersResponse) -> GaugeValue {
        match *self {
            BreakerField::EstimatedSize => GaugeValue::Integer(b.estimated_size_in_bytes),
            BreakerField::LimitSize => GaugeValue::Integer(b.limit_size_in_bytes),
            BreakerField::Tripped => GaugeValue::Integer(b.tripped),
            BreakerField::Overhead => GaugeValue::FloatBits(b.overhead_bits),
        }
    }

    fn value(&self, b: &NodeStatsBreakersResponse) -> (r: GaugeValue) {
        match *self {
            BreakerField::EstimatedSize => GaugeValue::Integer(b.estimated_size_in_bytes),
            BreakerField::LimitSize => GaugeValue::Integer(b.limit_size_in_bytes),
            BreakerField::Tripped => GaugeValue::Integer(b.tripped),
            BreakerField::Overhead => GaugeValue::FloatBits(b.overhead_bits),
        }
    }
}

/// Gauges read off the indexing pressure of one kind.
#[derive(PartialEq, Eq, Structural, Clone, Copy, Debug)]
pub enum IndexingPressureField {
    /// The bytes that indexing requests hold at present.
    CurrentAllInBytes,
    /// The configured limit of the bytes that indexing requests may hold.
    LimitInBytes,
}

impl Field<NodeStatsIndexingPressureResponse> for IndexingPressureField {
    open spec fn spec_value(&self, p: &NodeStatsIndexingPressureResponse) -> GaugeValue {
        match *self {
            IndexingPressureField::CurrentAllInBytes => GaugeValue::Integer(p.current.all_in_bytes),
            IndexingPressureField::LimitInBytes => GaugeValue::Integer(p.limit_in_bytes),
        }
    }

    fn value(&self, p: &NodeStatsIndexingPressureResponse) -> (r: GaugeValue) {
        match *self {
            IndexingPressureField::CurrentAllInBytes => GaugeValue::Integer(p.current.all_in_bytes),
            IndexingPressureField::LimitInBytes => GaugeValue::Integer(p.limit_in_bytes),
        }
    }
}

/// Gauges read off the statistics of one thread pool.
#[derive(PartialEq, Eq, Structural, Clone, Copy, Debug)]
pub enum ThreadPoolField {
    Completed,
    Rejected,
    Active,
    Largest,
    Queue,
    Threads,
}

impl Field<NodeStatsThreadPoolResponse> for ThreadPoolField {
    open spec fn spec_value(&self, t: &NodeStatsThreadPoolResponse) -> GaugeValue {
        match *self {
            ThreadPoolField::Completed => GaugeValue::Integer(t.completed),
            ThreadPoolField::Rejected => GaugeValue::Integer(t.rejected),
            ThreadPoolField::Active => GaugeValue::Integer(t.active),
            ThreadPoolField::Largest => GaugeValue::Integer(t.largest),
            ThreadPoolField::Queue => GaugeValue::Integer(t.queue),
            ThreadPoolField::Threads => GaugeValue::Integer(t.threads),
        }
    }

    fn value(&self, t: &NodeStatsThreadPoolResponse) -> (r: GaugeValue) {
        match *self {
            ThreadPoolField::Completed => GaugeValue::Integer(t.completed),
            ThreadPoolField::Rejected => GaugeValue::Integer(t.rejected),
            ThreadPoolField::Active => GaugeValue::Integer(t.active),
            ThreadPoolField::Largest => GaugeValue::Integer(t.largest),
            ThreadPoolField::Queue => GaugeValue::Integer(t.queue),
            ThreadPoolField::Threads => GaugeValue::Integer(t.threads),
        }
    }
}

/// Gauges read off the statistics of one data path.
#[derive(PartialEq, Eq, Structural, Clone, Copy, Debug)]
pub enum FilesystemDataField {
    Available,
    Free,
    Total,
}

impl Field<NodeStatsFSDataResponse> for FilesystemDataField {
    open spec fn spec_value(&self, f: &NodeStatsFSDataResponse) -> GaugeValue {
        match *self {
            FilesystemDataField::Available => GaugeValue::Integer(f.available_in_bytes),
            FilesystemDataField::Free => GaugeValue::Integer(f.free_in_bytes),
            FilesystemDataField::Total => GaugeValue::Integer(f.total_in_bytes),
        }
    }

    fn value(&self, f: &NodeStatsFSDataResponse) -> (r: GaugeValue) {
        match *self {
            FilesystemDataField::Available => GaugeValue::Integer(f.available_in_bytes),
            FilesystemDataField::Free => GaugeValue::Integer(f.free_in_bytes),
            FilesystemDataField::Total => GaugeValue::Integer(f.total_in_bytes),
        }
    }
}

/// Gauges read off the input/output statistics of one device.
#[derive(PartialEq, Eq, Structural, Clone, Copy, Debug)]
pub enum FilesystemIODeviceField {
    Operations,
    ReadOperations,
    WriteOperations,
    ReadKilobytes,
    WriteKilobytes,
}

impl Field<NodeStatsFSIOStatsDeviceResponse> for FilesystemIODeviceField {
    open spec fn spec_value(&self, d: &NodeStatsFSIOStatsDeviceResponse) -> GaugeValue {
        match *self {
            FilesystemIODeviceField::Operations => GaugeValue::Integer(d.operations),
            FilesystemIODeviceField::ReadOperations => GaugeValue::Integer(d.read_operations),
            FilesystemIODeviceField::WriteOperations => GaugeValue::Integer(d.write_operations),
            FilesystemIODeviceField::ReadKilobytes => GaugeValue::Integer(d.read_kilobytes),
            FilesystemIODeviceField::WriteKilobytes => GaugeValue::Integer(d.write_kilobytes),
        }
    }

    fn value(&self, d: &NodeStatsFSIOStatsDeviceResponse) -> (r: GaugeValue) {
        match *self {
            FilesystemIODeviceField::Operations => GaugeValue::Integer(d.operations),
            FilesystemIODeviceField::ReadOperations => GaugeValue::Integer(d.read_operations),
            FilesystemIODeviceField::WriteOperations => GaugeValue::Integer(d.write_operations),
            FilesystemIODeviceField::ReadKilobytes => GaugeValue::Integer(d.read_kilobytes),
            FilesystemIODeviceField::WriteKilobytes => GaugeValue::Integer(d.write_kilobytes),
        }
    }
}

// ---------------------------------------------------------------------------
// Samples: which gauge of which family gets which labels and value.
// ---------------------------------------------------------------------------

/// The families of gauges that the node statistics feed.
#[derive(PartialEq, Eq, Structural, Clone, Copy, Debug)]
pub enum MetricGroup {
    Node,
    GcCollection,
    Breaker,
    IndexingPressure,
    ThreadPool,
    FilesystemData,
    FilesystemIODevice,
}

/// One gauge setting: the gauge family `metric` of `group` gets, under the
/// label values `labels`, the reading `value`.
pub struct NodeSample {
    pub group: MetricGroup,
    pub metric: usize,
    pub labels: Vec<String>,
    pub value: GaugeValue,
}

/// A gauge setting as plain values.
pub struct NodeSampleView {
    pub group: MetricGroup,
    pub metric: int,
    pub labels: Seq<Seq<char>>,
    pub value: GaugeValue,
}

pub open spec fn sample_view(s: NodeSample) -> NodeSampleView {
    NodeSampleView {
        group: s.group,
        metric: s.metric as int,
        labels: strings_view(s.labels@),
        value: s.value,
    }
}

pub open spec fn samples_view(s: Seq<NodeSample>) -> Seq<NodeSampleView> {
    s.map_values(|x: NodeSample| sample_view(x))
}

/// The settings that one set of statistics makes: each family of `metrics`,
/// in order, gets the value its field reads off `stats`, under `labels`.
pub open spec fn group_samples<F: Field<T>, T>(
    group: MetricGroup,
    metrics: Seq<Metric<F>>,
    labels: Seq<Seq<char>>,
    stats: T,
) -> Seq<NodeSampleView> {
    Seq::new(
        metrics.len(),
        |i: int|
            NodeSampleView {
                group,
                metric: i,
                labels,
                value: metrics[i].field.spec_value(&stats),
            },
    )
}

/// The settings that named statistics make, entry after entry: each entry
/// is labelled with `host_name` followed by its name.
pub open spec fn keyed_samples<F: Field<T>, T>(
    group: MetricGroup,
    metrics: Seq<Metric<F>>,
    host_name: Seq<Seq<char>>,
    entries: Seq<(String, T)>,
) -> Seq<NodeSampleView>
    decreases entries.len(),
{
    if entries.len() == 0 {
        Seq::empty()
    } else {
        keyed_samples(group, metrics, host_name, entries.drop_last()) + group_samples(
            group,
            metrics,
            host_name.push(entries.last().0@),
            entries.last().1,
        )
    }
}

/// The settings that the data paths of a node make, path after path: each
/// is labelled with `host_name` followed by its mount point and path.
pub open spec fn filesystem_data_samples(
    metrics: Seq<Metric<FilesystemDataField>>,
    host_name: Seq<Seq<char>>,
    data: Seq<NodeStatsFSDataResponse>,
) -> Seq<NodeSampleView>
    decreases data.len(),
{
    if data.len() == 0 {
        Seq::empty()
    } else {
        filesystem_data_samples(metrics, host_name, data.drop_last()) + group_samples(
            MetricGroup::FilesystemData,
            metrics,
            host_name.push(data.last().mount@).push(data.last().path@),
            data.last(),
        )
    }
}

/// The settings that the devices of a node make, device after device: each
/// is labelled with `host_name` followed by its device name.
pub open spec fn filesystem_io_device_samples(
    metrics: Seq<Metric<FilesystemIODeviceField>>,
    host_name: Seq<Seq<char>>,
    devices: Seq<NodeStatsFSIOStatsDeviceResponse>,
) -> Seq<NodeSampleView>
    decreases devices.len(),
{
    if devices.len() == 0 {
        Seq::empty()
    } else {
        filesystem_io_device_samples(metrics, host_name, devices.drop_last()) + group_samples(
            MetricGroup::FilesystemIODevice,
            metrics,
            host_name.push(devices.last().device_name@),
            devices.last(),
        )
    }
}

/// Appends the settings that `stats` makes on the families of `metrics`.
fn push_group_samples<F: Field<T>, T>(
    out: &mut Vec<NodeSample>,
    group: MetricGroup,
    metrics: &Vec<Metric<F>>,
    labels: &Vec<String>,
    stats: &T,
)
    ensures
        samples_view(final(out)@) == samples_view(old(out)@) + group_samples(
            group,
            metrics@,
            strings_view(labels@),
            *stats,
        ),
{
    let ghost base = samples_view(out@);
    let ghost all = group_samples(group, metrics@, strings_view(labels@), *stats);
    let mut j: usize = 0;
    while j < metrics.len()
        invariant
            0 <= j <= metrics@.len(),
            all == group_samples(group, metrics@, strings_view(labels@), *stats),
            samples_view(out@) == base + all.take(j as int),
        decreases metrics@.len() - j,
    {
        let value = metrics[j].field.value(stats);
        let sample = NodeSample { group, metric: j, labels: clone_strings(labels), value };
        let ghost before = out@;
        out.push(sample);
        proof {
            assert(samples_view(out@) =~= samples_view(before).push(sample_view(sample)));
            assert(all.take(j as int + 1) =~= all.take(j as int).push(all[j as int]));
        }
        j = j + 1;
    }
    assert(all.take(metrics@.len() as int) =~= all);
}

/// The label values `host`, `name`, and `extra` after them.
fn labels_of(host: &String, name: &String, extra: &[&String]) -> (r: Vec<String>)
    ensures
        strings_view(r@) == seq![host@, name@] + extra@.map_values(|s: &String| s@),
{
    let mut r: Vec<String> = Vec::new();
    r.push(host.clone());
    r.push(name.clone());
    let mut i: usize = 0;
    while i < extra.len()
        invariant
            0 <= i <= extra@.len(),
            strings_view(r@) == seq![host@, name@] + extra@.take(i as int).map_values(
                |s: &String| s@,
            ),
        decreases extra@.len() - i,
    {
        let s = extra[i].clone();
        let ghost before = r@;
        r.push(s);
        proof {
            assert(strings_view(r@) =~= strings_view(before).push(s@));
            assert(extra@.take(i as int + 1) =~= extra@.take(i as int).push(extra@[i as int]));
            assert(seq![host@, name@] + extra@.take(i as int + 1).map_values(|s: &String| s@)
                =~= (seq![host@, name@] + extra@.take(i as int).map_values(|s: &String| s@)).push(
                extra@[i as int]@,
            ));
        }
        i = i + 1;
    }
    assert(extra@.take(extra@.len() as int) =~= extra@);
    r
}

/// Appends the settings that named statistics make, entry after entry.
fn push_keyed_samples<F: Field<T>, T>(
    out: &mut Vec<NodeSample>,
    group: MetricGroup,
    metrics: &Vec<Metric<F>>,
    host: &String,
    name: &String,
    entries: &Vec<(String, T)>,
)
    ensures
        samples_view(final(out)@) == samples_view(old(out)@) + keyed_samples(
            group,
            metrics@,
            seq![host@, name@],
            entries@,
        ),
{
    let ghost base = samples_view(out@);
    let ghost host_name = seq![host@, name@];
    let mut k: usize = 0;
    while k < entries.len()
        invariant
            0 <= k <= entries@.len(),
            host_name == seq![host@, name@],
            samples_view(out@) == base + keyed_samples(
                group,
                metrics@,
                host_name,
                entries@.take(k as int),
            ),
        decreases entries@.len() - k,
    {
        let entry = &entries[k];
        let labels = labels_of(host, name, &[&entry.0]);
        let ghost mid = samples_view(out@);
        push_group_samples(out, group, metrics, &labels, &entry.1);
        proof {
            let t = entries@.take(k as int + 1);
            assert(t.drop_last() =~= entries@.take(k as int));
            assert(t.last() == entries@[k as int]);
            assert(strings_view(labels@) =~= host_name.push(entry.0@));
            assert(samples_view(out@) =~= base + keyed_samples(group, metrics@, host_name, t));
        }
        k = k + 1;
    }
    assert(entries@.take(entries@.len() as int) =~= entries@);
}

// ---------------------------------------------------------------------------
// The gauges of a node.
// ---------------------------------------------------------------------------

/// The labels of the gauges of a whole node.
pub open spec fn node_labels() -> Seq<Seq<char>> {
    seq!["host"@, "name"@]
}

/// The labels of the gauges of a garbage collector.
pub open spec fn gc_labels() -> Seq<Seq<char>> {
    seq!["host"@, "name"@, "gc"@]
}

/// The labels of the gauges of a circuit breaker.
pub open spec fn breaker_labels() -> Seq<Seq<char>> {
    seq!["host"@, "name"@, "breaker"@]
}

/// The labels of the gauges of indexing pressure.
pub open spec fn indexing_pressure_labels() -> Seq<Seq<char>> {
    seq!["host"@, "name"@, "indexing_pressure"@]
}

/// The labels of the gauges of a thread pool.
pub open spec fn thread_pool_labels() -> Seq<Seq<char>> {
    seq!["host"@, "name"@, "type"@]
}

/// The labels of the gauges of a data path.
pub open spec fn filesystem_data_labels() -> Seq<Seq<char>> {
    seq!["host"@, "name"@, "mount"@, "path"@]
}

/// The labels of the gauges of a device.
pub open spec fn device_labels() -> Seq<Seq<char>> {
    seq!["host"@, "name"@, "device"@]
}

/// Valid label names that differ from each other.
pub open spec fn valid_labels(labels: Seq<Seq<char>>) -> bool {
    &&& forall|i: int| 0 <= i < labels.len() ==> is_valid_label_name(#[trigger] labels[i])
    &&& labels.no_duplicates()
}

/// Every label set of the node gauges is one that Prometheus takes.
pub proof fn lemma_label_sets_valid()
    ensures
        valid_labels(node_labels()),
        valid_labels(gc_labels()),
        valid_labels(breaker_labels()),
        valid_labels(indexing_pressure_labels()),
        valid_labels(thread_pool_labels()),
        valid_labels(filesystem_data_labels()),
        valid_labels(device_labels()),
{
    reveal_strlit("host");
    reveal_strlit("name");
    reveal_strlit("gc");
    reveal_strlit("breaker");
    reveal_strlit("indexing_pressure");
    reveal_strlit("type");
    reveal_strlit("mount");
    reveal_strlit("path");
    reveal_strlit("device");
    assert(is_valid_label_name("host"@));
    assert(is_valid_label_name("name"@));
    assert(is_valid_label_name("gc"@));
    assert(is_valid_label_name("breaker"@));
    assert(is_valid_label_name("indexing_pressure"@));
    assert(is_valid_label_name("type"@));
    assert(is_valid_label_name("mount"@));
    assert(is_valid_label_name("path"@));
    assert(is_valid_label_name("device"@));
    assert(valid_labels(node_labels()));
    assert(valid_labels(gc_labels()));
    assert(valid_labels(breaker_labels()));
    assert(valid_labels(indexing_pressure_labels()));
    assert(valid_labels(thread_pool_labels()));
    assert(valid_labels(filesystem_data_labels()));
    assert(valid_labels(device_labels()));
}

/// The node gauges: description and field of each, in order.
pub open spec fn spec_node_metrics() -> Seq<(GaugeDescView, NodeField)> {
    seq![
        (
            desc_view(
                "os"@,
                "load1"@,
                "Shortterm load average"@,
                node_labels(),
            ),
            NodeField::Load1,
        ),
        (
            desc_view(
                "os"@,
                "load5"@,
                "Midterm load average"@,
                node_labels(),
            ),
            NodeField::Load5,
        ),
        (
            desc_view(
                "os"@,
                "load15"@,
                "Longterm load average"@,
                node_labels(),
            ),
            NodeField::Load15,
        ),
        (
            desc_view(
                "os"@,
                "cpu_percent"@,
                "Percent CPU used by OS"@,
                node_labels(),
            ),
            NodeField::CpuPercent,
        ),
        (
            desc_view(
                "os"@,
                "mem_free_bytes"@,
                "Amount of free physical memory in bytes"@,
                node_labels(),
            ),
            NodeField::MemFreeBytes,
        ),
        (
            desc_view(
                "os"@,
                "mem_used_bytes"@,
                "Amount of used physical memory in bytes"@,
                node_labels(),
            ),
            NodeField::MemUsedBytes,
        ),
        (
            desc_view(
                "indices"@,
                "docs"@,
                "Count of documents on this node"@,
                node_labels(),
            ),
            NodeField::Docs,
        ),
        (
            desc_view(
                "indices"@,
                "docs_deleted"@,
                "Count of deleted documents on this node"@,
                node_labels(),
            ),
            NodeField::DocsDeleted,
        ),
        (
            desc_view(
                "indices_indexing"@,
                "index_total"@,
                "Total index calls"@,
                node_labels(),
            ),
            NodeField::IndexTotal,
        ),
        (
            desc_view(
                "indices_indexing"@,
                "delete_time_seconds_total"@,
                "Total time indexing delete in seconds"@,
                node_labels(),
            ),
            NodeField::DeleteTime,
        ),
        (
            desc_view(
                "indices_indexing"@,
                "delete_total"@,
                "Total indexing deletes"@,
                node_labels(),
            ),
            NodeField::DeleteTotal,
        ),
        (
            desc_view(
                "indices_indexing"@,
                "is_throttled"@,
                "Indexing throttling"@,
                node_labels(),
            ),
            NodeField::IsThrottled,
        ),
        (
            desc_view(
                "indices_indexing"@,
                "throttle_time_seconds_total"@,
                "Cumulative indexing throttling time"@,
                node_labels(),
            ),
            NodeField::ThrottleTime,
        ),
    ]
}

/// The gc collection gauges: description and field of each, in order.
pub open spec fn spec_gc_collection_metrics() -> Seq<(GaugeDescView, GcField)> {
    seq![
        (
            desc_view(
                "jvm_gc"@,
                "collection_seconds_count"@,
                "Count of JVM GC runs"@,
                gc_labels(),
            ),
            GcField::CollectionCount,
        ),
        (
            desc_view(
                "jvm_gc"@,
                "collection_seconds_sum"@,
                "GC run time in seconds"@,
                gc_labels(),
            ),
            GcField::CollectionTime,
        ),
    ]
}

/// The breaker gauges: description and field of each, in order.
pub open spec fn spec_breaker_metrics() -> Seq<(GaugeDescView, BreakerField)> {
    seq![
        (
            desc_view(
                "breakers"@,
                "estimated_size_bytes"@,
                "Estimated size in bytes of breaker"@,
                breaker_labels(),
            ),
            BreakerField::EstimatedSize,
        ),
        (
            desc_view(
                "breakers"@,
                "limit_size_bytes"@,
                "Limit size in bytes for breaker"@,
                breaker_labels(),
            ),
            BreakerField::LimitSize,
        ),
        (
            desc_view(
                "breakers"@,
                "tripped"@,
                "tripped for breaker"@,
                breaker_labels(),
            ),
            BreakerField::Tripped,
        ),
        (
            desc_view(
                "breakers"@,
                "overhead"@,
                "Overhead of circuit breakers"@,
                breaker_labels(),
            ),
            BreakerField::Overhead,
        ),
    ]
}

/// The indexing pressure gauges: description and field of each, in order.
pub open spec fn spec_indexing_pressure_metrics() -> Seq<(GaugeDescView, IndexingPressureField)> {
    seq![
        (
            desc_view(
                "indexing_pressure"@,
                "current_all_in_bytes"@,
                "Memory consumed, in bytes, by indexing requests in the coordinating, primary, or replica stage."@,
                indexing_pressure_labels(),
            ),
            IndexingPressureField::CurrentAllInBytes,
        ),
        (
            desc_view(
                "indexing_pressure"@,
                "limit_in_bytes"@,
                "Configured memory limit, in bytes, for the indexing requests"@,
                indexing_pressure_labels(),
            ),
            IndexingPressureField::LimitInBytes,
        ),
    ]
}

/// The thread pool gauges: description and field of each, in order.
pub open spec fn spec_thread_pool_metrics() -> Seq<(GaugeDescView, ThreadPoolField)> {
    seq![
        (
            desc_view(
                "thread_pool"@,
                "completed_count"@,
                "Thread Pool operatios completed"@,
                thread_pool_labels(),
            ),
            ThreadPoolField::Completed,
        ),
        (
            desc_view(
                "thread_pool"@,
                "rejected_count"@,
                "Thread Pool operations rejected"@,
                thread_pool_labels(),
            ),
            ThreadPoolField::Rejected,
        ),
        (
            desc_view(
                "thread_pool"@,
                "active_count"@,
                "Thread Pool threads active"@,
                thread_pool_labels(),
            ),
            ThreadPoolField::Active,
        ),
        (
            desc_view(
                "thread_pool"@,
                "largest_count"@,
                "Thread Pool largest threads count"@,
                thread_pool_labels(),
            ),
            ThreadPoolField::Largest,
        ),
        (
            desc_view(
                "thread_pool"@,
                "queue_count"@,
                "Thread Pool operations queued"@,
                thread_pool_labels(),
            ),
            ThreadPoolField::Queue,
        ),
        (
            desc_view(
                "thread_pool"@,
                "threads_count"@,
                "Thread Pool current threads count"@,
                thread_pool_labels(),
            ),
            ThreadPoolField::Threads,
        ),
    ]
}

/// The filesystem data gauges: description and field of each, in order.
pub open spec fn spec_filesystem_data_metrics() -> Seq<(GaugeDescView, FilesystemDataField)> {
    seq![
        (
            desc_view(
                "filesystem_data"@,
                "available_bytes"@,
                "Available space on block device in bytes"@,
                filesystem_data_labels(),
            ),
            FilesystemDataField::Available,
        ),
        (
            desc_view(
                "filesystem_data"@,
                "free_bytes"@,
                "Free space on block device in bytes"@,
                filesystem_data_labels(),
            ),
            FilesystemDataField::Free,
        ),
        (
            desc_view(
                "filesystem_data"@,
                "size_bytes"@,
                "Size of block device in bytes"@,
                filesystem_data_labels(),
            ),
            FilesystemDataField::Total,
        ),
    ]
}

/// The filesystem io device gauges: description and field of each, in order.
pub open spec fn spec_filesystem_io_device_metrics() -> Seq<
    (GaugeDescView, FilesystemIODeviceField),
> {
    seq![
        (
            desc_view(
                "filesystem_io_stats_device"@,
                "operations_count"@,
                "Count of disk operations"@,
                device_labels(),
            ),
            FilesystemIODeviceField::Operations,
        ),
        (
            desc_view(
                "filesystem_io_stats_device"@,
                "read_operations_count"@,
                "Count of disk read operations"@,
                device_labels(),
            ),
            FilesystemIODeviceField::ReadOperations,
        ),
        (
            desc_view(
                "filesystem_io_stats_device"@,
                "write_operations_count"@,
                "Count of disk write operations"@,
                device_labels(),
            ),
            FilesystemIODeviceField::WriteOperations,
        ),
        (
            desc_view(
                "filesystem_io_stats_device"@,
                "read_size_kilobytes_sum"@,
                "Total kilobytes read from disk"@,
                device_labels(),
            ),
            FilesystemIODeviceField::ReadKilobytes,
        ),
        (
            desc_view(
                "filesystem_io_stats_device"@,
                "write_size_kilobytes_sum"@,
                "Total kilobytes written from disk"@,
                device_labels(),
            ),
            FilesystemIODeviceField::WriteKilobytes,
        ),
    ]
}

fn node_metrics() -> (r: Vec<Metric<NodeField>>)
    ensures
        metrics_view(r@) == spec_node_metrics(),
{
    let labels = ["host", "name"];
    let mut r: Vec<Metric<NodeField>> = Vec::new();
    r.push(
        Metric::new(
            GaugeDesc::new(
                "os",
                "load1",
                "Shortterm load average",
                &labels,
            ),
            NodeField::Load1,
        ),
    );
    r.push(
        Metric::new(
            GaugeDesc::new(
                "os",
                "load5",
                "Midterm load average",
                &labels,
            ),
            NodeField::Load5,
        ),
    );
    r.push(
        Metric::new(
            GaugeDesc::new(
                "os",
                "load15",
                "Longterm load average",
                &labels,
            ),
            NodeField::Load15,
        ),
    );
    r.push(
        Metric::new(
            GaugeDesc::new(
                "os",
                "cpu_percent",
                "Percent CPU used by OS",
                &labels,
            ),
            NodeField::CpuPercent,
        ),
    );
    r.push(
        Metric::new(
            GaugeDesc::new(
                "os",
                "mem_free_bytes",
                "Amount of free physical memory in bytes",
                &labels,
            ),
            NodeField::MemFreeBytes,
        ),
    );
    r.push(
        Metric::new(
            GaugeDesc::new(
                "os",
                "mem_used_bytes",
                "Amount of used physical memory in bytes",
                &labels,
            ),
            NodeField::MemUsedBytes,
        ),
    );
    r.push(
        Metric::new(
            GaugeDesc::new(
                "indices",
                "docs",
                "Count of documents on this node",
                &labels,
            ),
            NodeField::Docs,
        ),
    );
    r.push(
        Metric::new(
            GaugeDesc::new(
                "indices",
                "docs_deleted",
                "Count of deleted documents on this node",
                &labels,
            ),
            NodeField::DocsDeleted,
        ),
    );
    r.push(
        Metric::new(
            GaugeDesc::new(
                "indices_indexing",
                "index_total",
                "Total index calls",
                &labels,
            ),
            NodeField::IndexTotal,
        ),
    );
    r.push(
        Metric::new(
            GaugeDesc::new(
                "indices_indexing",
                "delete_time_seconds_total",
                "Total time indexing delete in seconds",
                &labels,
            ),
            NodeField::DeleteTime,
        ),
    );
    r.push(
        Metric::new(
            GaugeDesc::new(
                "indices_indexing",
                "delete_total",
                "Total indexing deletes",
                &labels,
            ),
            NodeField::DeleteTotal,
        ),
    );
    r.push(
        Metric::new(
            GaugeDesc::new(
                "indices_indexing",
                "is_throttled",
                "Indexing throttling",
                &labels,
            ),
            NodeField::IsThrottled,
        ),
    );
    r.push(
        Metric::new(
            GaugeDesc::new(
                "indices_indexing",
                "throttle_time_seconds_total",
                "Cumulative indexing throttling time",
                &labels,
            ),
            NodeField::ThrottleTime,
        ),
    );
    proof {
        assert(strs_view(labels@) =~= node_labels());
        assert(metrics_view(r@) =~= spec_node_metrics());
    }
    r
}

fn gc_collection_metrics() -> (r: Vec<Metric<GcField>>)
    ensures
        metrics_view(r@) == spec_gc_collection_metrics(),
{
    let labels = ["host", "name", "gc"];
    let mut r: Vec<Metric<GcField>> = Vec::new();
    r.push(
        Metric::new(
            GaugeDesc::new(
                "jvm_gc",
                "collection_seconds_count",
                "Count of JVM GC runs",
                &labels,
            ),
            GcField::CollectionCount,
        ),
    );
    r.push(
        Metric::new(
            GaugeDesc::new(
                "jvm_gc",
                "collection_seconds_sum",
                "GC run time in seconds",
                &labels,
            ),
            GcField::CollectionTime,
        ),
    );
    proof {
        assert(strs_view(labels@) =~= gc_labels());
        assert(metrics_view(r@) =~= spec_gc_collection_metrics());
    }
    r
}

fn breaker_metrics() -> (r: Vec<Metric<BreakerField>>)
    ensures
        metrics_view(r@) == spec_breaker_metrics(),
{
    let breaker_names = ["host", "name", "breaker"];
    let mut r: Vec<Metric<BreakerField>> = Vec::new();
    r.push(
        Metric::new(
            GaugeDesc::new(
                "breakers",
                "estimated_size_bytes",
                "Estimated size in bytes of breaker",
                &breaker_names,
            ),
            BreakerField::EstimatedSize,
        ),
    );
    r.push(
        Metric::new(
            GaugeDesc::new(
                "breakers",
                "limit_size_bytes",
                "Limit size in bytes for breaker",
                &breaker_names,
            ),
            BreakerField::LimitSize,
        ),
    );
    r.push(
        Metric::new(
            GaugeDesc::new(
                "breakers",
                "tripped",
                "tripped for breaker",
                &breaker_names,
            ),
            BreakerField::Tripped,
        ),
    );
    r.push(
        Metric::new(
            GaugeDesc::new(
                "breakers",
                "overhead",
                "Overhead of circuit breakers",
                &breaker_names,
            ),
            BreakerField::Overhead,
        ),
    );
    proof {
        assert(strs_view(breaker_names@) =~= breaker_labels());
        assert(metrics_view(r@) =~= spec_breaker_metrics());
    }
    r
}

fn indexing_pressure_metrics() -> (r: Vec<Metric<IndexingPressureField>>)
    ensures
        metrics_view(r@) == spec_indexing_pressure_metrics(),
{
    let labels = ["host", "name", "indexing_pressure"];
    let mut r: Vec<Metric<IndexingPressureField>> = Vec::new();
    r.push(
        Metric::new(
            GaugeDesc::new(
                "indexing_pressure",
                "current_all_in_bytes",
                "Memory consumed, in bytes, by indexing requests in the coordinating, primary, or replica stage.",
                &labels,
            ),
            IndexingPressureField::CurrentAllInBytes,
        ),
    );
    r.push(
        Metric::new(
            GaugeDesc::new(
                "indexing_pressure",
                "limit_in_bytes",
                "Configured memory limit, in bytes, for the indexing requests",
                &labels,
            ),
            IndexingPressureField::LimitInBytes,
        ),
    );
    proof {
        assert(strs_view(labels@) =~= indexing_pressure_labels());
        assert(metrics_view(r@) =~= spec_indexing_pressure_metrics());
    }
    r
}

fn thread_pool_metrics() -> (r: Vec<Metric<ThreadPoolField>>)
    ensures
        metrics_view(r@) == spec_thread_pool_metrics(),
{
    let labels = ["host", "name", "type"];
    let mut r: Vec<Metric<ThreadPoolField>> = Vec::new();
    r.push(
        Metric::new(
            GaugeDesc::new(
                "thread_pool",
                "completed_count",
                "Thread Pool operatios completed",
                &labels,
            ),
            ThreadPoolField::Completed,
        ),
    );
    r.push(
        Metric::new(
            GaugeDesc::new(
                "thread_pool",
                "rejected_count",
                "Thread Pool operations rejected",
                &labels,
            ),
            ThreadPoolField::Rejected,
        ),
    );
    r.push(
        Metric::new(
            GaugeDesc::new(
                "thread_pool",
                "active_count",
                "Thread Pool threads active",
                &labels,
            ),
            ThreadPoolField::Active,
        ),
    );
    r.push(
        Metric::new(
            GaugeDesc::new(
                "thread_pool",
                "largest_count",
                "Thread Pool largest threads count",
                &labels,
            ),
            ThreadPoolField::Largest,
        ),
    );
    r.push(
        Metric::new(
            GaugeDesc::new(
                "thread_pool",
                "queue_count",
                "Thread Pool operations queued",
                &labels,
            ),
            ThreadPoolField::Queue,
        ),
    );
    r.push(
        Metric::new(
            GaugeDesc::new(
                "thread_pool",
                "threads_count",
                "Thread Pool current threads count",
                &labels,
            ),
            ThreadPoolField::Threads,
        ),
    );
    proof {
        assert(strs_view(labels@) =~= thread_pool_labels());
        assert(metrics_view(r@) =~= spec_thread_pool_metrics());
    }
    r
}

fn filesystem_data_metrics() -> (r: Vec<Metric<FilesystemDataField>>)
    ensures
        metrics_view(r@) == spec_filesystem_data_metrics(),
{
    let labels = ["host", "name", "mount", "path"];
    let mut r: Vec<Metric<FilesystemDataField>> = Vec::new();
    r.push(
        Metric::new(
            GaugeDesc::new(
                "filesystem_data",
                "available_bytes",
                "Available space on block device in bytes",
                &labels,
            ),
            FilesystemDataField::Available,
        ),
    );
    r.push(
        Metric::new(
            GaugeDesc::new(
                "filesystem_data",
                "free_bytes",
                "Free space on block device in bytes",
                &labels,
            ),
            FilesystemDataField::Free,
        ),
    );
    r.push(
        Metric::new(
            GaugeDesc::new(
                "filesystem_data",
                "size_bytes",
                "Size of block device in bytes",
                &labels,
            ),
            FilesystemDataField::Total,
        ),
    );
    proof {
        assert(strs_view(labels@) =~= filesystem_data_labels());
        assert(metrics_view(r@) =~= spec_filesystem_data_metrics());
    }
    r
}

fn filesystem_io_device_metrics() -> (r: Vec<Metric<FilesystemIODeviceField>>)
    ensures
        metrics_view(r@) == spec_filesystem_io_device_metrics(),
{
    let labels = ["host", "name", "device"];
    let mut r: Vec<Metric<FilesystemIODeviceField>> = Vec::new();
    r.push(
        Metric::new(
            GaugeDesc::new(
                "filesystem_io_stats_device",
                "operations_count",
                "Count of disk operations",
                &labels,
            ),
            FilesystemIODeviceField::Operations,
        ),
    );
    r.push(
        Metric::new(
            GaugeDesc::new(
                "filesystem_io_stats_device",
                "read_operations_count",
                "Count of disk read operations",
                &labels,
            ),
            FilesystemIODeviceField::ReadOperations,
        ),
    );
    r.push(
        Metric::new(
            GaugeDesc::new(
                "filesystem_io_stats_device",
                "write_operations_count",
                "Count of disk write operations",
                &labels,
            ),
            FilesystemIODeviceField::WriteOperations,
        ),
    );
    r.push(
        Metric::new(
            GaugeDesc::new(
                "filesystem_io_stats_device",
                "read_size_kilobytes_sum",
                "Total kilobytes read from disk",
                &labels,
            ),
            FilesystemIODeviceField::ReadKilobytes,
        ),
    );
    r.push(
        Metric::new(
            GaugeDesc::new(
                "filesystem_io_stats_device",
                "write_size_kilobytes_sum",
                "Total kilobytes written from disk",
                &labels,
            ),
            FilesystemIODeviceField::WriteKilobytes,
        ),
    );
    proof {
        assert(strs_view(labels@) =~= device_labels());
        assert(metrics_view(r@) =~= spec_filesystem_io_device_metrics());
    }
    r
}

// ---------------------------------------------------------------------------
// The exporter of node statistics.
// ---------------------------------------------------------------------------

/// Exports the statistics of the local node: one list of gauge families per
/// kind of statistics.
pub struct Nodes {
    pub node_metrics: Vec<Metric<NodeField>>,
    pub gc_collection_metrics: Vec<Metric<GcField>>,
    pub breaker_metrics: Vec<Metric<BreakerField>>,
    pub indexing_pressure_metrics: Vec<Metric<IndexingPressureField>>,
    pub thread_pool_metrics: Vec<Metric<ThreadPoolField>>,
    pub filesystem_data_metrics: Vec<Metric<FilesystemDataField>>,
    pub filesystem_io_device_metrics: Vec<Metric<FilesystemIODeviceField>>,
}

impl Nodes {
    /// True when the families are those that [`Nodes::new`] declares.
    pub open spec fn is_standard(&self) -> bool {
        &&& metrics_view(self.node_metrics@) == spec_node_metrics()
        &&& metrics_view(self.gc_collection_metrics@) == spec_gc_collection_metrics()
        &&& metrics_view(self.breaker_metrics@) == spec_breaker_metrics()
        &&& metrics_view(self.indexing_pressure_metrics@) == spec_indexing_pressure_metrics()
        &&& metrics_view(self.thread_pool_metrics@) == spec_thread_pool_metrics()
        &&& metrics_view(self.filesystem_data_metrics@) == spec_filesystem_data_metrics()
        &&& metrics_view(self.filesystem_io_device_metrics@)
            == spec_filesystem_io_device_metrics()
    }

    /// Declares the gauge families of node statistics.
    pub fn new() -> (r: Nodes)
        ensures
            r.is_standard(),
    {
        Nodes {
            node_metrics: node_metrics(),
            gc_collection_metrics: gc_collection_metrics(),
            breaker_metrics: breaker_metrics(),
            indexing_pressure_metrics: indexing_pressure_metrics(),
            thread_pool_metrics: thread_pool_metrics(),
            filesystem_data_metrics: filesystem_data_metrics(),
            filesystem_io_device_metrics: filesystem_io_device_metrics(),
        }
    }

    /// The request that reads the statistics of the local node at `base`.
    pub fn query(&self, base: &str) -> (r: Query)
        ensures
            r.url@ == base@ + ENDPOINT@,
            r.params@.len() == 0,
    {
        let no_params: [(&str, &str); 0] = [];
        let r = query(base, ENDPOINT, &no_params);
        proof {
            assert(r.params@.len() == crate::client::params_view(r.params@).len());
        }
        r
    }

    /// The settings that the statistics of one node make: first its own
    /// gauges, labelled with its host and name; then, labelled besides with
    /// the name of each, its garbage collectors, circuit breakers, kinds of
    /// indexing pressure and thread pools; then its data paths, labelled
    /// besides with mount point and path; then its devices, labelled
    /// besides with the device name.
    pub open spec fn spec_node_samples(&self, node: NodeStatsNodeResponse) -> Seq<NodeSampleView> {
        let host_name = seq![node.host@, node.name@];
        group_samples(MetricGroup::Node, self.node_metrics@, host_name, node) + keyed_samples(
            MetricGroup::GcCollection,
            self.gc_collection_metrics@,
            host_name,
            node.jvm.gc.collectors@,
        ) + keyed_samples(MetricGroup::Breaker, self.breaker_metrics@, host_name, node.breakers@)
            + keyed_samples(
            MetricGroup::IndexingPressure,
            self.indexing_pressure_metrics@,
            host_name,
            node.indexing_pressure@,
        ) + keyed_samples(
            MetricGroup::ThreadPool,
            self.thread_pool_metrics@,
            host_name,
            node.thread_pool@,
        ) + filesystem_data_samples(self.filesystem_data_metrics@, host_name, node.fs.data@)
            + filesystem_io_device_samples(
            self.filesystem_io_device_metrics@,
            host_name,
            node.fs.io_stats.devices@,
        )
    }

    /// The settings that the statistics of the nodes make, node after node.
    pub open spec fn spec_samples(&self, nodes: Seq<(String, NodeStatsNodeResponse)>) -> Seq<
        NodeSampleView,
    >
        decreases nodes.len(),
    {
        if nodes.len() == 0 {
            Seq::empty()
        } else {
            self.spec_samples(nodes.drop_last()) + self.spec_node_samples(nodes.last().1)
        }
    }

    fn push_node_samples(&self, out: &mut Vec<NodeSample>, node: &NodeStatsNodeResponse)
        ensures
            samples_view(final(out)@) == samples_view(old(out)@) + self.spec_node_samples(*node),
    {
        let ghost base = samples_view(out@);
        let ghost host_name = seq![node.host@, node.name@];
        let labels = labels_of(&node.host, &node.name, &[]);
        proof {
            assert(strings_view(labels@) =~= host_name);
        }
        push_group_samples(out, MetricGroup::Node, &self.node_metrics, &labels, node);
        let ghost s1 = samples_view(out@);
        push_keyed_samples(
            out,
            MetricGroup::GcCollection,
            &self.gc_collection_metrics,
            &node.host,
            &node.name,
            &node.jvm.gc.collectors,
        );
        let ghost s2 = samples_view(out@);
        push_keyed_samples(
            out,
            MetricGroup::Breaker,
            &self.breaker_metrics,
            &node.host,
            &node.name,
            &node.breakers,
        );
        let ghost s3 = samples_view(out@);
        push_keyed_samples(
            out,
            MetricGroup::IndexingPressure,
            &self.indexing_pressure_metrics,
            &node.host,
            &node.name,
            &node.indexing_pressure,
        );
        let ghost s4 = samples_view(out@);
        push_keyed_samples(
            out,
            MetricGroup::ThreadPool,
            &self.thread_pool_metrics,
            &node.host,
            &node.name,
            &node.thread_pool,
        );
        let ghost s5 = samples_view(out@);
        let data = &node.fs.data;
        let mut i: usize = 0;
        while i < data.len()
            invariant
                0 <= i <= data@.len(),
                host_name == seq![node.host@, node.name@],
                samples_view(out@) == s5 + filesystem_data_samples(
                    self.filesystem_data_metrics@,
                    host_name,
                    data@.take(i as int),
                ),
            decreases data@.len() - i,
        {
            let d = &data[i];
            let labels = labels_of(&node.host, &node.name, &[&d.mount, &d.path]);
            push_group_samples(
                out,
                MetricGroup::FilesystemData,
                &self.filesystem_data_metrics,
                &labels,
                d,
            );
            proof {
                let t = data@.take(i as int + 1);
                assert(t.drop_last() =~= data@.take(i as int));
                assert(t.last() == data@[i as int]);
                assert(strings_view(labels@) =~= host_name.push(d.mount@).push(d.path@));
                assert(samples_view(out@) =~= s5 + filesystem_data_samples(
                    self.filesystem_data_metrics@,
                    host_name,
                    t,
                ));
            }
            i = i + 1;
        }
        assert(data@.take(data@.len() as int) =~= data@);
        let ghost s6 = samples_view(out@);
        let devices = &node.fs.io_stats.devices;
        let mut k: usize = 0;
        while k < devices.len()
            invariant
                0 <= k <= devices@.len(),
                host_name == seq![node.host@, node.name@],
                samples_view(out@) == s6 + filesystem_io_device_samples(
                    self.filesystem_io_device_metrics@,
                    host_name,
                    devices@.take(k as int),
                ),
            decreases devices@.len() - k,
        {
            let d = &devices[k];
            let labels = labels_of(&node.host, &node.name, &[&d.device_name]);
            push_group_samples(
                out,
                MetricGroup::FilesystemIODevice,
                &self.filesystem_io_device_metrics,
                &labels,
                d,
            );
            proof {
                let t = devices@.take(k as int + 1);
                assert(t.drop_last() =~= devices@.take(k as int));
                assert(t.last() == devices@[k as int]);
                assert(strings_view(labels@) =~= host_name.push(d.device_name@));
                assert(samples_view(out@) =~= s6 + filesystem_io_device_samples(
                    self.filesystem_io_device_metrics@,
                    host_name,
                    t,
                ));
            }
            k = k + 1;
        }
        assert(devices@.take(devices@.len() as int) =~= devices@);
        assert(samples_view(out@) =~= base + self.spec_node_samples(*node));
    }

    /// The gauge settings that an answer of the node statistics endpoint
    /// makes, node after node, in the order of the answer.
    pub fn samples(&self, resp: &NodeStatusResponse) -> (r: Vec<NodeSample>)
        ensures
            samples_view(r@) == self.spec_samples(resp.nodes@),
    {
        let mut out: Vec<NodeSample> = Vec::new();
        let nodes = &resp.nodes;
        let mut i: usize = 0;
        assert(samples_view(out@) =~= Seq::<NodeSampleView>::empty());
        while i < nodes.len()
            invariant
                0 <= i <= nodes@.len(),
                samples_view(out@) == self.spec_samples(nodes@.take(i as int)),
            decreases nodes@.len() - i,
        {
            let node = &nodes[i].1;
            self.push_node_samples(&mut out, node);
            proof {
                let t = nodes@.take(i as int + 1);
                assert(t.drop_last() =~= nodes@.take(i as int));
                assert(t.last() == nodes@[i as int]);
            }
            i = i + 1;
        }
        assert(nodes@.take(nodes@.len() as int) =~= nodes@);
        out
    }

    /// The order in which the families are exported.
    pub fn export_order(&self) -> (r: Vec<MetricGroup>)
        ensures
            r@ == seq![
                MetricGroup::Node,
                MetricGroup::Breaker,
                MetricGroup::GcCollection,
                MetricGroup::IndexingPressure,
                MetricGroup::ThreadPool,
                MetricGroup::FilesystemData,
                MetricGroup::FilesystemIODevice,
            ],
    {
        let mut r: Vec<MetricGroup> = Vec::new();
        r.push(MetricGroup::Node);
        r.push(MetricGroup::Breaker);
        r.push(MetricGroup::GcCollection);
        r.push(MetricGroup::IndexingPressure);
        r.push(MetricGroup::ThreadPool);
        r.push(MetricGroup::FilesystemData);
        r.push(MetricGroup::FilesystemIODevice);
        proof {
            assert(r@ =~= seq![
                MetricGroup::Node,
                MetricGroup::Breaker,
                MetricGroup::GcCollection,
                MetricGroup::IndexingPressure,
                MetricGroup::ThreadPool,
                MetricGroup::FilesystemData,
                MetricGroup::FilesystemIODevice,
            ]);
        }
        r
    }
}

// ---------------------------------------------------------------------------
// Label cardinality of the settings.
// ---------------------------------------------------------------------------

/// The number of families of each group that [`Nodes::new`] declares.
pub open spec fn standard_family_count(group: MetricGroup) -> int {
    match group {
        MetricGroup::Node => 13,
        MetricGroup::GcCollection => 2,
        MetricGroup::Breaker => 4,
        MetricGroup::IndexingPressure => 2,
        MetricGroup::ThreadPool => 6,
        MetricGroup::FilesystemData => 3,
        MetricGroup::FilesystemIODevice => 5,
    }
}

/// The number of labels of every family of a group that [`Nodes::new`]
/// declares.
pub open spec fn standard_label_count(group: MetricGroup) -> int {
    match group {
        MetricGroup::Node => 2,
        MetricGroup::FilesystemData => 4,
        _ => 3,
    }
}

/// A setting that names a family of its group and carries as many label
/// values as the families of its group have labels.
pub open spec fn sample_well_shaped(s: NodeSampleView) -> bool {
    &&& 0 <= s.metric < standard_family_count(s.group)
    &&& s.labels.len() == standard_label_count(s.group)
}

pub open spec fn all_well_shaped(s: Seq<NodeSampleView>) -> bool {
    forall|i: int| 0 <= i < s.len() ==> sample_well_shaped(#[trigger] s[i])
}

/// The description of family `metric` of `group` among the families that
/// [`Nodes::new`] declares.
pub open spec fn standard_gauge(group: MetricGroup, metric: int) -> GaugeDescView {
    match group {
        MetricGroup::Node => spec_node_metrics()[metric].0,
        MetricGroup::GcCollection => spec_gc_collection_metrics()[metric].0,
        MetricGroup::Breaker => spec_breaker_metrics()[metric].0,
        MetricGroup::IndexingPressure => spec_indexing_pressure_metrics()[metric].0,
        MetricGroup::ThreadPool => spec_thread_pool_metrics()[metric].0,
        MetricGroup::FilesystemData => spec_filesystem_data_metrics()[metric].0,
        MetricGroup::FilesystemIODevice => spec_filesystem_io_device_metrics()[metric].0,
    }
}

/// The families that [`Nodes::new`] declares: each group holds
/// [`standard_family_count`] families, each with [`standard_label_count`]
/// labels.
pub proof fn lemma_standard_families(group: MetricGroup, metric: int)
    requires
        0 <= metric < standard_family_count(group),
    ensures
        standard_gauge(group, metric).labels.len() == standard_label_count(group),
        group == MetricGroup::Node ==> spec_node_metrics().len() == standard_family_count(group),
        group == MetricGroup::GcCollection ==> spec_gc_collection_metrics().len()
            == standard_family_count(group),
        group == MetricGroup::Breaker ==> spec_breaker_metrics().len() == standard_family_count(
            group,
        ),
        group == MetricGroup::IndexingPressure ==> spec_indexing_pressure_metrics().len()
            == standard_family_count(group),
        group == MetricGroup::ThreadPool ==> spec_thread_pool_metrics().len()
            == standard_family_count(group),
        group == MetricGroup::FilesystemData ==> spec_filesystem_data_metrics().len()
            == standard_family_count(group),
        group == MetricGroup::FilesystemIODevice ==> spec_filesystem_io_device_metrics().len()
            == standard_family_count(group),
{
}

proof fn lemma_concat_well_shaped(a: Seq<NodeSampleView>, b: Seq<NodeSampleView>)
    requires
        all_well_shaped(a),
        all_well_shaped(b),
    ensures
        all_well_shaped(a + b),
{
    assert forall|i: int| 0 <= i < (a + b).len() implies sample_well_shaped(#[trigger] (a + b)[i]) by {
        if i < a.len() {
            assert((a + b)[i] == a[i]);
        } else {
            assert((a + b)[i] == b[i - a.len()]);
        }
    }
}

proof fn lemma_group_well_shaped<F: Field<T>, T>(
    group: MetricGroup,
    metrics: Seq<Metric<F>>,
    labels: Seq<Seq<char>>,
    stats: T,
)
    requires
        metrics.len() == standard_family_count(group),
        labels.len() == standard_label_count(group),
    ensures
        all_well_shaped(group_samples(group, metrics, labels, stats)),
{
    let g = group_samples(group, metrics, labels, stats);
    assert forall|i: int| 0 <= i < g.len() implies sample_well_shaped(#[trigger] g[i]) by {}
}

proof fn lemma_keyed_well_shaped<F: Field<T>, T>(
    group: MetricGroup,
    metrics: Seq<Metric<F>>,
    host_name: Seq<Seq<char>>,
    entries: Seq<(String, T)>,
)
    requires
        metrics.len() == standard_family_count(group),
        host_name.len() == 2,
        standard_label_count(group) == 3,
    ensures
        all_well_shaped(keyed_samples(group, metrics, host_name, entries)),
    decreases entries.len(),
{
    if entries.len() > 0 {
        lemma_keyed_well_shaped(group, metrics, host_name, entries.drop_last());
        lemma_group_well_shaped(group, metrics, host_name.push(entries.last().0@), entries.last().1);
        lemma_concat_well_shaped(
            keyed_samples(group, metrics, host_name, entries.drop_last()),
            group_samples(group, metrics, host_name.push(entries.last().0@), entries.last().1),
        );
    }
}

proof fn lemma_data_well_shaped(
    metrics: Seq<Metric<FilesystemDataField>>,
    host_name: Seq<Seq<char>>,
    data: Seq<NodeStatsFSDataResponse>,
)
    requires
        metrics.len() == standard_family_count(MetricGroup::FilesystemData),
        host_name.len() == 2,
    ensures
        all_well_shaped(filesystem_data_samples(metrics, host_name, data)),
    decreases data.len(),
{
    if data.len() > 0 {
        let labels = host_name.push(data.last().mount@).push(data.last().path@);
        lemma_data_well_shaped(metrics, host_name, data.drop_last());
        lemma_group_well_shaped(MetricGroup::FilesystemData, metrics, labels, data.last());
        lemma_concat_well_shaped(
            filesystem_data_samples(metrics, host_name, data.drop_last()),
            group_samples(MetricGroup::FilesystemData, metrics, labels, data.last()),
        );
    }
}

proof fn lemma_devices_well_shaped(
    metrics: Seq<Metric<FilesystemIODeviceField>>,
    host_name: Seq<Seq<char>>,
    devices: Seq<NodeStatsFSIOStatsDeviceResponse>,
)
    requires
        metrics.len() == standard_family_count(MetricGroup::FilesystemIODevice),
        host_name.len() == 2,
    ensures
        all_well_shaped(filesystem_io_device_samples(metrics, host_name, devices)),
    decreases devices.len(),
{
    if devices.len() > 0 {
        let labels = host_name.push(devices.last().device_name@);
        lemma_devices_well_shaped(metrics, host_name, devices.drop_last());
        lemma_group_well_shaped(MetricGroup::FilesystemIODevice, metrics, labels, devices.last());
        lemma_concat_well_shaped(
            filesystem_io_device_samples(metrics, host_name, devices.drop_last()),
            group_samples(MetricGroup::FilesystemIODevice, metrics, labels, devices.last()),
        );
    }
}

proof fn lemma_node_well_shaped(nodes: Nodes, node: NodeStatsNodeResponse)
    requires
        nodes.is_standard(),
    ensures
        all_well_shaped(nodes.spec_node_samples(node)),
{
    let host_name = seq![node.host@, node.name@];
    assert(nodes.node_metrics@.len() == metrics_view(nodes.node_metrics@).len());
    assert(nodes.gc_collection_metrics@.len() == metrics_view(nodes.gc_collection_metrics@).len());
    assert(nodes.breaker_metrics@.len() == metrics_view(nodes.breaker_metrics@).len());
    assert(nodes.indexing_pressure_metrics@.len() == metrics_view(
        nodes.indexing_pressure_metrics@,
    ).len());
    assert(nodes.thread_pool_metrics@.len() == metrics_view(nodes.thread_pool_metrics@).len());
    assert(nodes.filesystem_data_metrics@.len() == metrics_view(
        nodes.filesystem_data_metrics@,
    ).len());
    assert(nodes.filesystem_io_device_metrics@.len() == metrics_view(
        nodes.filesystem_io_device_metrics@,
    ).len());
    let a = group_samples(MetricGroup::Node, nodes.node_metrics@, host_name, node);
    let b = keyed_samples(
        MetricGroup::GcCollection,
        nodes.gc_collection_metrics@,
        host_name,
        node.jvm.gc.collectors@,
    );
    let c = keyed_samples(MetricGroup::Breaker, nodes.breaker_metrics@, host_name, node.breakers@);
    let d = keyed_samples(
        MetricGroup::IndexingPressure,
        nodes.indexing_pressure_metrics@,
        host_name,
        node.indexing_pressure@,
    );
    let e = keyed_samples(
        MetricGroup::ThreadPool,
        nodes.thread_pool_metrics@,
        host_name,
        node.thread_pool@,
    );
    let f = filesystem_data_samples(nodes.filesystem_data_metrics@, host_name, node.fs.data@);
    let g = filesystem_io_device_samples(
        nodes.filesystem_io_device_metrics@,
        host_name,
        node.fs.io_stats.devices@,
    );
    lemma_group_well_shaped(MetricGroup::Node, nodes.node_metrics@, host_name, node);
    lemma_keyed_well_shaped(
        MetricGroup::GcCollection,
        nodes.gc_collection_metrics@,
        host_name,
        node.jvm.gc.collectors@,
    );
    lemma_keyed_well_shaped(MetricGroup::Breaker, nodes.breaker_metrics@, host_name, node.breakers@);
    lemma_keyed_well_shaped(
        MetricGroup::IndexingPressure,
        nodes.indexing_pressure_metrics@,
        host_name,
        node.indexing_pressure@,
    );
    lemma_keyed_well_shaped(
        MetricGroup::ThreadPool,
        nodes.thread_pool_metrics@,
        host_name,
        node.thread_pool@,
    );
    lemma_data_well_shaped(nodes.filesystem_data_metrics@, host_name, node.fs.data@);
    lemma_devices_well_shaped(
        nodes.filesystem_io_device_metrics@,
        host_name,
        node.fs.io_stats.devices@,
    );
    lemma_concat_well_shaped(a, b);
    lemma_concat_well_shaped(a + b, c);
    lemma_concat_well_shaped(a + b + c, d);
    lemma_concat_well_shaped(a + b + c + d, e);
    lemma_concat_well_shaped(a + b + c + d + e, f);
    lemma_concat_well_shaped(a + b + c + d + e + f, g);
}

/// Label cardinality of the settings: every setting that the statistics of
/// any nodes make on the families of [`Nodes::new`] names a family of its
/// group, and carries exactly as many label values as that family has
/// labels, so that Prometheus takes every one of them.
pub proof fn lemma_sample_label_counts(nodes: Nodes, answer: Seq<(String, NodeStatsNodeResponse)>)
    requires
        nodes.is_standard(),
    ensures
        forall|i: int|
            #![trigger nodes.spec_samples(answer)[i]]
            0 <= i < nodes.spec_samples(answer).len() ==> {
                let s = nodes.spec_samples(answer)[i];
                &&& 0 <= s.metric < standard_family_count(s.group)
                &&& s.labels.len() == standard_gauge(s.group, s.metric).labels.len()
            },
{
    lemma_samples_well_shaped(nodes, answer);
    let all = nodes.spec_samples(answer);
    assert forall|i: int| #![trigger all[i]] 0 <= i < all.len() implies {
        let s = all[i];
        &&& 0 <= s.metric < standard_family_count(s.group)
        &&& s.labels.len() == standard_gauge(s.group, s.metric).labels.len()
    } by {
        assert(sample_well_shaped(all[i]));
        lemma_standard_families(all[i].group, all[i].metric);
    }
}

proof fn lemma_samples_well_shaped(nodes: Nodes, answer: Seq<(String, NodeStatsNodeResponse)>)
    requires
        nodes.is_standard(),
    ensures
        all_well_shaped(nodes.spec_samples(answer)),
    decreases answer.len(),
{
    if answer.len() > 0 {
        lemma_samples_well_shaped(nodes, answer.drop_last());
        lemma_node_well_shaped(nodes, answer.last().1);
        lemma_concat_well_shaped(
            nodes.spec_samples(answer.drop_last()),
            nodes.spec_node_samples(answer.last().1),
        );
    }
}

proof fn lemma_node_metrics_valid()
    ensures
        forall|m: int|
            0 <= m < spec_node_metrics().len() ==> is_valid_gauge(
                #[trigger] spec_node_metrics()[m].0,
            ),
{
    lemma_label_sets_valid();
    reveal_strlit("Amount of free physical memory in bytes");
    reveal_strlit("Amount of used physical memory in bytes");
    reveal_strlit("Count of deleted documents on this node");
    reveal_strlit("Count of documents on this node");
    reveal_strlit("Cumulative indexing throttling time");
    reveal_strlit("Indexing throttling");
    reveal_strlit("Longterm load average");
    reveal_strlit("Midterm load average");
    reveal_strlit("Percent CPU used by OS");
    reveal_strlit("Shortterm load average");
    reveal_strlit("Total index calls");
    reveal_strlit("Total indexing deletes");
    reveal_strlit("Total time indexing delete in seconds");
    reveal_strlit("cpu_percent");
    reveal_strlit("delete_time_seconds_total");
    reveal_strlit("delete_total");
    reveal_strlit("docs");
    reveal_strlit("docs_deleted");
    reveal_strlit("index_total");
    reveal_strlit("indices");
    reveal_strlit("indices_indexing");
    reveal_strlit("is_throttled");
    reveal_strlit("load1");
    reveal_strlit("load15");
    reveal_strlit("load5");
    reveal_strlit("mem_free_bytes");
    reveal_strlit("mem_used_bytes");
    reveal_strlit("os");
    reveal_strlit("throttle_time_seconds_total");
    assert forall|m: int| 0 <= m < spec_node_metrics().len() implies is_valid_gauge(
        #[trigger] spec_node_metrics()[m].0,
    ) by {}
}

proof fn lemma_gc_collection_metrics_valid()
    ensures
        forall|m: int|
            0 <= m < spec_gc_collection_metrics().len() ==> is_valid_gauge(
                #[trigger] spec_gc_collection_metrics()[m].0,
            ),
{
    lemma_label_sets_valid();
    reveal_strlit("Count of JVM GC runs");
    reveal_strlit("GC run time in seconds");
    reveal_strlit("collection_seconds_count");
    reveal_strlit("collection_seconds_sum");
    reveal_strlit("jvm_gc");
    assert forall|m: int| 0 <= m < spec_gc_collection_metrics().len() implies is_valid_gauge(
        #[trigger] spec_gc_collection_metrics()[m].0,
    ) by {}
}

proof fn lemma_breaker_metrics_valid()
    ensures
        forall|m: int|
            0 <= m < spec_breaker_metrics().len() ==> is_valid_gauge(
                #[trigger] spec_breaker_metrics()[m].0,
            ),
{
    lemma_label_sets_valid();
    reveal_strlit("Estimated size in bytes of breaker");
    reveal_strlit("Limit size in bytes for breaker");
    reveal_strlit("Overhead of circuit breakers");
    reveal_strlit("breakers");
    reveal_strlit("estimated_size_bytes");
    reveal_strlit("limit_size_bytes");
    reveal_strlit("overhead");
    reveal_strlit("tripped");
    reveal_strlit("tripped for breaker");
    assert forall|m: int| 0 <= m < spec_breaker_metrics().len() implies is_valid_gauge(
        #[trigger] spec_breaker_metrics()[m].0,
    ) by {}
}

proof fn lemma_indexing_pressure_metrics_valid()
    ensures
        forall|m: int|
            0 <= m < spec_indexing_pressure_metrics().len() ==> is_valid_gauge(
                #[trigger] spec_indexing_pressure_metrics()[m].0,
            ),
{
    lemma_label_sets_valid();
    reveal_strlit("Configured memory limit, in bytes, for the indexing requests");
    reveal_strlit("Memory consumed, in bytes, by indexing requests in the coordinating, primary, or replica stage.");
    reveal_strlit("current_all_in_bytes");
    reveal_strlit("indexing_pressure");
    reveal_strlit("limit_in_bytes");
    assert forall|m: int| 0 <= m < spec_indexing_pressure_metrics().len() implies is_valid_gauge(
        #[trigger] spec_indexing_pressure_metrics()[m].0,
    ) by {}
}

proof fn lemma_thread_pool_metrics_valid()
    ensures
        forall|m: int|
            0 <= m < spec_thread_pool_metrics().len() ==> is_valid_gauge(
                #[trigger] spec_thread_pool_metrics()[m].0,
            ),
{
    lemma_label_sets_valid();
    reveal_strlit("Thread Pool current threads count");
    reveal_strlit("Thread Pool largest threads count");
    reveal_strlit("Thread Pool operations queued");
    reveal_strlit("Thread Pool operations rejected");
    reveal_strlit("Thread Pool operatios completed");
    reveal_strlit("Thread Pool threads active");
    reveal_strlit("active_count");
    reveal_strlit("completed_count");
    reveal_strlit("largest_count");
    reveal_strlit("queue_count");
    reveal_strlit("rejected_count");
    reveal_strlit("thread_pool");
    reveal_strlit("threads_count");
    assert forall|m: int| 0 <= m < spec_thread_pool_metrics().len() implies is_valid_gauge(
        #[trigger] spec_thread_pool_metrics()[m].0,
    ) by {}
}

proof fn lemma_filesystem_data_metrics_valid()
    ensures
        forall|m: int|
            0 <= m < spec_filesystem_data_metrics().len() ==> is_valid_gauge(
                #[trigger] spec_filesystem_data_metrics()[m].0,
            ),
{
    lemma_label_sets_valid();
    reveal_strlit("Available space on block device in bytes");
    reveal_strlit("Free space on block device in bytes");
    reveal_strlit("Size of block device in bytes");
    reveal_strlit("available_bytes");
    reveal_strlit("filesystem_data");
    reveal_strlit("free_bytes");
    reveal_strlit("size_bytes");
    assert forall|m: int| 0 <= m < spec_filesystem_data_metrics().len() implies is_valid_gauge(
        #[trigger] spec_filesystem_data_metrics()[m].0,
    ) by {}
}

proof fn lemma_filesystem_io_device_metrics_valid()
    ensures
        forall|m: int|
            0 <= m < spec_filesystem_io_device_metrics().len() ==> is_valid_gauge(
                #[trigger] spec_filesystem_io_device_metrics()[m].0,
            ),
{
    lemma_label_sets_valid();
    reveal_strlit("Count of disk operations");
    reveal_strlit("Count of disk read operations");
    reveal_strlit("Count of disk write operations");
    reveal_strlit("Total kilobytes read from disk");
    reveal_strlit("Total kilobytes written from disk");
    reveal_strlit("filesystem_io_stats_device");
    reveal_strlit("operations_count");
    reveal_strlit("read_operations_count");
    reveal_strlit("read_size_kilobytes_sum");
    reveal_strlit("write_operations_count");
    reveal_strlit("write_size_kilobytes_sum");
    assert forall|m: int| 0 <= m < spec_filesystem_io_device_metrics().len() implies is_valid_gauge(
        #[trigger] spec_filesystem_io_device_metrics()[m].0,
    ) by {}
}

/// Every family that [`Nodes::new`] declares is one that Prometheus accepts.
pub proof fn lemma_standard_gauges_valid(group: MetricGroup, metric: int)
    requires
        0 <= metric < standard_family_count(group),
    ensures
        is_valid_gauge(standard_gauge(group, metric)),
{
    lemma_standard_families(group, metric);
    match group {
        MetricGroup::Node => lemma_node_metrics_valid(),
        MetricGroup::GcCollection => lemma_gc_collection_metrics_valid(),
        MetricGroup::Breaker => lemma_breaker_metrics_valid(),
        MetricGroup::IndexingPressure => lemma_indexing_pressure_metrics_valid(),
        MetricGroup::ThreadPool => lemma_thread_pool_metrics_valid(),
        MetricGroup::FilesystemData => lemma_filesystem_data_metrics_valid(),
        MetricGroup::FilesystemIODevice => lemma_filesystem_io_device_metrics_valid(),
    }
}

// ---------------------------------------------------------------------------
// Named statistics set each gauge once.
// ---------------------------------------------------------------------------

/// Among the settings `s`, no two on one family of `group` carry the same
/// label values.
pub open spec fn labels_distinct_in(s: Seq<NodeSampleView>, group: MetricGroup) -> bool {
    forall|i: int, j: int|
        #![trigger s[i], s[j]]
        0 <= i < j < s.len() && s[i].group == group && s[j].group == group && s[i].metric
            == s[j].metric ==> s[i].labels != s[j].labels
}

/// Every one of the settings `s` is made on a family of `group`.
pub open spec fn all_in_group(s: Seq<NodeSampleView>, group: MetricGroup) -> bool {
    forall|i: int| 0 <= i < s.len() ==> (#[trigger] s[i]).group == group
}

/// Every one of the settings `s` is made on a family of another group than
/// `group`.
pub open spec fn none_in_group(s: Seq<NodeSampleView>, group: MetricGroup) -> bool {
    forall|i: int| 0 <= i < s.len() ==> (#[trigger] s[i]).group != group
}

proof fn lemma_push_last(a: Seq<Seq<char>>, x: Seq<char>, y: Seq<char>)
    requires
        a.push(x) == a.push(y),
    ensures
        x == y,
{
    assert(a.push(x)[a.len() as int] == x);
    assert(a.push(y)[a.len() as int] == y);
}

proof fn lemma_keyed_origin<F: Field<T>, T>(
    group: MetricGroup,
    metrics: Seq<Metric<F>>,
    host_name: Seq<Seq<char>>,
    entries: Seq<(String, T)>,
)
    ensures
        all_in_group(keyed_samples(group, metrics, host_name, entries), group),
        forall|k: int|
            0 <= k < keyed_samples(group, metrics, host_name, entries).len() ==> exists|e: int|
                0 <= e < entries.len() && (#[trigger] keyed_samples(
                    group,
                    metrics,
                    host_name,
                    entries,
                )[k]).labels == host_name.push((#[trigger] entries[e]).0@),
    decreases entries.len(),
{
    if entries.len() > 0 {
        let p = entries.drop_last();
        lemma_keyed_origin(group, metrics, host_name, p);
        let a = keyed_samples(group, metrics, host_name, p);
        let b = group_samples(group, metrics, host_name.push(entries.last().0@), entries.last().1);
        let all = keyed_samples(group, metrics, host_name, entries);
        assert(all == a + b);
        assert forall|k: int| 0 <= k < all.len() implies (#[trigger] all[k]).group == group by {
            if k < a.len() {
                assert(all[k] == a[k]);
            } else {
                assert(all[k] == b[k - a.len()]);
            }
        }
        assert forall|k: int| 0 <= k < all.len() implies exists|e: int|
            0 <= e < entries.len() && (#[trigger] all[k]).labels == host_name.push(
                (#[trigger] entries[e]).0@,
            ) by {
            if k < a.len() {
                assert(all[k] == a[k]);
                let e = choose|e: int|
                    0 <= e < p.len() && (#[trigger] a[k]).labels == host_name.push(
                        (#[trigger] p[e]).0@,
                    );
                assert(p[e] == entries[e]);
            } else {
                assert(all[k] == b[k - a.len()]);
                assert(entries[entries.len() - 1] == entries.last());
            }
        }
    }
}

/// Named statistics whose names differ from each other, as those of a map
/// do, set each gauge of a family under label values of its own: no two of
/// their settings on one family carry the same labels.
pub proof fn lemma_keyed_labels_distinct<F: Field<T>, T>(
    group: MetricGroup,
    metrics: Seq<Metric<F>>,
    host_name: Seq<Seq<char>>,
    entries: Seq<(String, T)>,
)
    requires
        crate::response::nodes::distinct_keys(entries),
    ensures
        labels_distinct_in(keyed_samples(group, metrics, host_name, entries), group),
    decreases entries.len(),
{
    if entries.len() > 0 {
        let p = entries.drop_last();
        let n = entries.len() - 1;
        assert forall|i: int, j: int|
            0 <= i < p.len() && 0 <= j < p.len() && i != j implies #[trigger] p[i].0@
            != #[trigger] p[j].0@ by {
            assert(p[i] == entries[i]);
            assert(p[j] == entries[j]);
        }
        lemma_keyed_labels_distinct(group, metrics, host_name, p);
        lemma_keyed_origin(group, metrics, host_name, p);
        let a = keyed_samples(group, metrics, host_name, p);
        let last_labels = host_name.push(entries.last().0@);
        let b = group_samples(group, metrics, last_labels, entries.last().1);
        let all = keyed_samples(group, metrics, host_name, entries);
        assert(all == a + b);
        assert forall|i: int, j: int|
            #![trigger all[i], all[j]]
            0 <= i < j < all.len() && all[i].group == group && all[j].group == group
                && all[i].metric == all[j].metric implies all[i].labels != all[j].labels by {
            if j < a.len() {
                assert(all[i] == a[i]);
                assert(all[j] == a[j]);
            } else if i < a.len() {
                assert(all[i] == a[i]);
                assert(all[j] == b[j - a.len()]);
                let e = choose|e: int|
                    0 <= e < p.len() && (#[trigger] a[i]).labels == host_name.push(
                        (#[trigger] p[e]).0@,
                    );
                assert(p[e] == entries[e]);
                assert(entries[n] == entries.last());
                if all[i].labels == all[j].labels {
                    lemma_push_last(host_name, entries[e].0@, entries[n].0@);
                }
            } else {
                assert(all[i] == b[i - a.len()]);
                assert(all[j] == b[j - a.len()]);
            }
        }
    }
}

proof fn lemma_group_distinct<F: Field<T>, T>(
    group: MetricGroup,
    metrics: Seq<Metric<F>>,
    labels: Seq<Seq<char>>,
    stats: T,
    g: MetricGroup,
)
    ensures
        all_in_group(group_samples(group, metrics, labels, stats), group),
        labels_distinct_in(group_samples(group, metrics, labels, stats), g),
{
}

proof fn lemma_data_in_group(
    metrics: Seq<Metric<FilesystemDataField>>,
    host_name: Seq<Seq<char>>,
    data: Seq<NodeStatsFSDataResponse>,
)
    ensures
        all_in_group(filesystem_data_samples(metrics, host_name, data), MetricGroup::FilesystemData),
    decreases data.len(),
{
    if data.len() > 0 {
        let labels = host_name.push(data.last().mount@).push(data.last().path@);
        lemma_data_in_group(metrics, host_name, data.drop_last());
        let a = filesystem_data_samples(metrics, host_name, data.drop_last());
        let b = group_samples(MetricGroup::FilesystemData, metrics, labels, data.last());
        lemma_concat_in_group(a, b, MetricGroup::FilesystemData);
    }
}

proof fn lemma_devices_in_group(
    metrics: Seq<Metric<FilesystemIODeviceField>>,
    host_name: Seq<Seq<char>>,
    devices: Seq<NodeStatsFSIOStatsDeviceResponse>,
)
    ensures
        all_in_group(
            filesystem_io_device_samples(metrics, host_name, devices),
            MetricGroup::FilesystemIODevice,
        ),
    decreases devices.len(),
{
    if devices.len() > 0 {
        let labels = host_name.push(devices.last().device_name@);
        lemma_devices_in_group(metrics, host_name, devices.drop_last());
        let a = filesystem_io_device_samples(metrics, host_name, devices.drop_last());
        let b = group_samples(MetricGroup::FilesystemIODevice, metrics, labels, devices.last());
        lemma_concat_in_group(a, b, MetricGroup::FilesystemIODevice);
    }
}

proof fn lemma_concat_in_group(a: Seq<NodeSampleView>, b: Seq<NodeSampleView>, g: MetricGroup)
    requires
        all_in_group(a, g),
        all_in_group(b, g),
    ensures
        all_in_group(a + b, g),
{
    assert forall|i: int| 0 <= i < (a + b).len() implies (#[trigger] (a + b)[i]).group == g by {
        if i < a.len() {
            assert((a + b)[i] == a[i]);
        } else {
            assert((a + b)[i] == b[i - a.len()]);
        }
    }
}

/// Settings on families of another group than `g` never clash on `g`.
proof fn lemma_other_group(s: Seq<NodeSampleView>, h: MetricGroup, g: MetricGroup)
    requires
        all_in_group(s, h),
        h != g,
    ensures
        none_in_group(s, g),
        labels_distinct_in(s, g),
{
    assert forall|i: int| 0 <= i < s.len() implies (#[trigger] s[i]).group != g by {
        assert(s[i].group == h);
    }
}

proof fn lemma_concat_distinct(a: Seq<NodeSampleView>, b: Seq<NodeSampleView>, g: MetricGroup)
    requires
        labels_distinct_in(a, g),
        labels_distinct_in(b, g),
        none_in_group(a, g) || none_in_group(b, g),
    ensures
        labels_distinct_in(a + b, g),
        none_in_group(a, g) && none_in_group(b, g) ==> none_in_group(a + b, g),
{
    let s = a + b;
    assert forall|i: int, j: int|
        #![trigger s[i], s[j]]
        0 <= i < j < s.len() && s[i].group == g && s[j].group == g && s[i].metric
            == s[j].metric implies s[i].labels != s[j].labels by {
        if j < a.len() {
            assert(s[i] == a[i]);
            assert(s[j] == a[j]);
        } else if i < a.len() {
            assert(s[i] == a[i]);
            assert(s[j] == b[j - a.len()]);
        } else {
            assert(s[i] == b[i - a.len()]);
            assert(s[j] == b[j - a.len()]);
        }
    }
    if none_in_group(a, g) && none_in_group(b, g) {
        assert forall|i: int| 0 <= i < s.len() implies (#[trigger] s[i]).group != g by {
            if i < a.len() {
                assert(s[i] == a[i]);
            } else {
                assert(s[i] == b[i - a.len()]);
            }
        }
    }
}

/// The families a part of the settings of a node is made on: its own
/// group, where its settings never clash, or another.
proof fn lemma_part(s: Seq<NodeSampleView>, h: MetricGroup, g: MetricGroup)
    requires
        all_in_group(s, h),
        h == g ==> labels_distinct_in(s, g),
    ensures
        labels_distinct_in(s, g),
        h != g ==> none_in_group(s, g),
{
    if h != g {
        lemma_other_group(s, h, g);
    }
}

/// The statistics of one node whose maps each hold a name once set each
/// gauge of the node itself, of its garbage collectors, circuit breakers,
/// kinds of indexing pressure and thread pools once: no two of its settings
/// on one such family carry the same label values.
#[verifier::spinoff_prover]
pub proof fn lemma_node_labels_distinct(nodes: Nodes, node: NodeStatsNodeResponse, group: MetricGroup)
    requires
        node.well_formed(),
        group != MetricGroup::FilesystemData,
        group != MetricGroup::FilesystemIODevice,
    ensures
        labels_distinct_in(nodes.spec_node_samples(node), group),
{
    let host_name = seq![node.host@, node.name@];
    let a = group_samples(MetricGroup::Node, nodes.node_metrics@, host_name, node);
    let b = keyed_samples(
        MetricGroup::GcCollection,
        nodes.gc_collection_metrics@,
        host_name,
        node.jvm.gc.collectors@,
    );
    let c = keyed_samples(MetricGroup::Breaker, nodes.breaker_metrics@, host_name, node.breakers@);
    let d = keyed_samples(
        MetricGroup::IndexingPressure,
        nodes.indexing_pressure_metrics@,
        host_name,
        node.indexing_pressure@,
    );
    let e = keyed_samples(
        MetricGroup::ThreadPool,
        nodes.thread_pool_metrics@,
        host_name,
        node.thread_pool@,
    );
    let f = filesystem_data_samples(nodes.filesystem_data_metrics@, host_name, node.fs.data@);
    let h = filesystem_io_device_samples(
        nodes.filesystem_io_device_metrics@,
        host_name,
        node.fs.io_stats.devices@,
    );
    assert(nodes.spec_node_samples(node) == a + b + c + d + e + f + h);
    lemma_group_distinct(MetricGroup::Node, nodes.node_metrics@, host_name, node, group);
    lemma_keyed_origin(
        MetricGroup::GcCollection,
        nodes.gc_collection_metrics@,
        host_name,
        node.jvm.gc.collectors@,
    );
    lemma_keyed_labels_distinct(
        MetricGroup::GcCollection,
        nodes.gc_collection_metrics@,
        host_name,
        node.jvm.gc.collectors@,
    );
    lemma_keyed_origin(MetricGroup::Breaker, nodes.breaker_metrics@, host_name, node.breakers@);
    lemma_keyed_labels_distinct(
        MetricGroup::Breaker,
        nodes.breaker_metrics@,
        host_name,
        node.breakers@,
    );
    lemma_keyed_origin(
        MetricGroup::IndexingPressure,
        nodes.indexing_pressure_metrics@,
        host_name,
        node.indexing_pressure@,
    );
    lemma_keyed_labels_distinct(
        MetricGroup::IndexingPressure,
        nodes.indexing_pressure_metrics@,
        host_name,
        node.indexing_pressure@,
    );
    lemma_keyed_origin(
        MetricGroup::ThreadPool,
        nodes.thread_pool_metrics@,
        host_name,
        node.thread_pool@,
    );
    lemma_keyed_labels_distinct(
        MetricGroup::ThreadPool,
        nodes.thread_pool_metrics@,
        host_name,
        node.thread_pool@,
    );
    lemma_data_in_group(nodes.filesystem_data_metrics@, host_name, node.fs.data@);
    lemma_devices_in_group(
        nodes.filesystem_io_device_metrics@,
        host_name,
        node.fs.io_stats.devices@,
    );
    lemma_part(a, MetricGroup::Node, group);
    lemma_part(b, MetricGroup::GcCollection, group);
    lemma_part(c, MetricGroup::Breaker, group);
    lemma_part(d, MetricGroup::IndexingPressure, group);
    lemma_part(e, MetricGroup::ThreadPool, group);
    lemma_other_group(f, MetricGroup::FilesystemData, group);
    lemma_other_group(h, MetricGroup::FilesystemIODevice, group);
    lemma_concat_distinct(a, b, group);
    lemma_concat_distinct(a + b, c, group);
    lemma_concat_distinct(a + b + c, d, group);
    lemma_concat_distinct(a + b + c + d, e, group);
    lemma_concat_distinct(a + b + c + d + e, f, group);
    lemma_concat_distinct(a + b + c + d + e + f, h, group);
}

// ---------------------------------------------------------------------------
// Each family reads the statistic that its name states.
// ---------------------------------------------------------------------------

/// The family `m` is named `subsystem`_`name`, and reads `value` off `stats`.
pub open spec fn family_reads<F: Field<T>, T>(
    m: Metric<F>,
    subsystem: Seq<char>,
    name: Seq<char>,
    stats: T,
    value: GaugeValue,
) -> bool {
    &&& m.gauge@.subsystem == subsystem
    &&& m.gauge@.name == name
    &&& m.field.spec_value(&stats) == value
}

/// Each family that [`Nodes::new`] declares for the node itself reads, off any
/// statistics, the statistic that its name states.
pub proof fn lemma_node_readings(nodes: Nodes, n: NodeStatsNodeResponse)
    requires
        nodes.is_standard(),
    ensures
        nodes.node_metrics@.len() == 13,
        family_reads(
            nodes.node_metrics@[0],
            "os"@,
            "load1"@,
            n,
            GaugeValue::FloatBits(n.os.cpu.load_average.load1_bits),
        ),
        family_reads(
            nodes.node_metrics@[1],
            "os"@,
            "load5"@,
            n,
            GaugeValue::FloatBits(n.os.cpu.load_average.load5_bits),
        ),
        family_reads(
            nodes.node_metrics@[2],
            "os"@,
            "load15"@,
            n,
            GaugeValue::FloatBits(n.os.cpu.load_average.load15_bits),
        ),
        family_reads(
            nodes.node_metrics@[3],
            "os"@,
            "cpu_percent"@,
            n,
            GaugeValue::Integer(n.os.cpu.percent),
        ),
        family_reads(
            nodes.node_metrics@[4],
            "os"@,
            "mem_free_bytes"@,
            n,
            GaugeValue::Integer(n.os.mem.free_in_bytes),
        ),
        family_reads(
            nodes.node_metrics@[5],
            "os"@,
            "mem_used_bytes"@,
            n,
            GaugeValue::Integer(n.os.mem.used_in_bytes),
        ),
        family_reads(
            nodes.node_metrics@[6],
            "indices"@,
            "docs"@,
            n,
            GaugeValue::Integer(n.indices.docs.count),
        ),
        family_reads(
            nodes.node_metrics@[7],
            "indices"@,
            "docs_deleted"@,
            n,
            GaugeValue::Integer(n.indices.docs.deleted),
        ),
        family_reads(
            nodes.node_metrics@[8],
            "indices_indexing"@,
            "index_total"@,
            n,
            GaugeValue::Integer(n.indices.indexing.index_total),
        ),
        family_reads(
            nodes.node_metrics@[9],
            "indices_indexing"@,
            "delete_time_seconds_total"@,
            n,
            GaugeValue::Milliseconds(n.indices.indexing.delete_time_in_millis),
        ),
        family_reads(
            nodes.node_metrics@[10],
            "indices_indexing"@,
            "delete_total"@,
            n,
            GaugeValue::Integer(n.indices.indexing.delete_total),
        ),
        family_reads(
            nodes.node_metrics@[11],
            "indices_indexing"@,
            "is_throttled"@,
            n,
            GaugeValue::Flag(n.indices.indexing.is_throttled),
        ),
        family_reads(
            nodes.node_metrics@[12],
            "indices_indexing"@,
            "throttle_time_seconds_total"@,
            n,
            GaugeValue::Milliseconds(n.indices.indexing.throttle_time_in_millis),
        ),
{
    let m = nodes.node_metrics@;
    assert(metrics_view(m).len() == m.len());
    assert(metrics_view(m)[0] == (m[0].gauge@, m[0].field));
    assert(metrics_view(m)[1] == (m[1].gauge@, m[1].field));
    assert(metrics_view(m)[2] == (m[2].gauge@, m[2].field));
    assert(metrics_view(m)[3] == (m[3].gauge@, m[3].field));
    assert(metrics_view(m)[4] == (m[4].gauge@, m[4].field));
    assert(metrics_view(m)[5] == (m[5].gauge@, m[5].field));
    assert(metrics_view(m)[6] == (m[6].gauge@, m[6].field));
    assert(metrics_view(m)[7] == (m[7].gauge@, m[7].field));
    assert(metrics_view(m)[8] == (m[8].gauge@, m[8].field));
    assert(metrics_view(m)[9] == (m[9].gauge@, m[9].field));
    assert(metrics_view(m)[10] == (m[10].gauge@, m[10].field));
    assert(metrics_view(m)[11] == (m[11].gauge@, m[11].field));
    assert(metrics_view(m)[12] == (m[12].gauge@, m[12].field));
}

/// Each family that [`Nodes::new`] declares for a garbage collector reads, off any
/// statistics, the statistic that its name states.
pub proof fn lemma_gc_collection_readings(nodes: Nodes, g: NodeStatsJVMGCCollectorResponse)
    requires
        nodes.is_standard(),
    ensures
        nodes.gc_collection_metrics@.len() == 2,
        family_reads(
            nodes.gc_collection_metrics@[0],
            "jvm_gc"@,
            "collection_seconds_count"@,
            g,
            GaugeValue::Integer(g.collection_count),
        ),
        family_reads(
            nodes.gc_collection_metrics@[1],
            "jvm_gc"@,
            "collection_seconds_sum"@,
            g,
            GaugeValue::Milliseconds(g.collection_time_in_millis),
        ),
{
    let m = nodes.gc_collection_metrics@;
    assert(metrics_view(m).len() == m.len());
    assert(metrics_view(m)[0] == (m[0].gauge@, m[0].field));
    assert(metrics_view(m)[1] == (m[1].gauge@, m[1].field));
}

/// Each family that [`Nodes::new`] declares for a circuit breaker reads, off any
/// statistics, the statistic that its name states.
pub proof fn lemma_breaker_readings(nodes: Nodes, b: NodeStatsBreakersResponse)
    requires
        nodes.is_standard(),
    ensures
        nodes.breaker_metrics@.len() == 4,
        family_reads(
            nodes.breaker_metrics@[0],
            "breakers"@,
            "estimated_size_bytes"@,
            b,
            GaugeValue::Integer(b.estimated_size_in_bytes),
        ),
        family_reads(
            nodes.breaker_metrics@[1],
            "breakers"@,
            "limit_size_bytes"@,
            b,
            GaugeValue::Integer(b.limit_size_in_bytes),
        ),
        family_reads(
            nodes.breaker_metrics@[2],
            "breakers"@,
            "tripped"@,
            b,
            GaugeValue::Integer(b.tripped),
        ),
        family_reads(
            nodes.breaker_metrics@[3],
            "breakers"@,
            "overhead"@,
            b,
            GaugeValue::FloatBits(b.overhead_bits),
        ),
{
    let m = nodes.breaker_metrics@;
    assert(metrics_view(m).len() == m.len());
    assert(metrics_view(m)[0] == (m[0].gauge@, m[0].field));
    assert(metrics_view(m)[1] == (m[1].gauge@, m[1].field));
    assert(metrics_view(m)[2] == (m[2].gauge@, m[2].field));
    assert(metrics_view(m)[3] == (m[3].gauge@, m[3].field));
}

/// Each family that [`Nodes::new`] declares for a kind of indexing pressure reads, off any
/// statistics, the statistic that its name states.
pub proof fn lemma_indexing_pressure_readings(nodes: Nodes, p: NodeStatsIndexingPressureResponse)
    requires
        nodes.is_standard(),
    ensures
        nodes.indexing_pressure_metrics@.len() == 2,
        family_reads(
            nodes.indexing_pressure_metrics@[0],
            "indexing_pressure"@,
            "current_all_in_bytes"@,
            p,
            GaugeValue::Integer(p.current.all_in_bytes),
        ),
        family_reads(
            nodes.indexing_pressure_metrics@[1],
            "indexing_pressure"@,
            "limit_in_bytes"@,
            p,
            GaugeValue::Integer(p.limit_in_bytes),
        ),
{
    let m = nodes.indexing_pressure_metrics@;
    assert(metrics_view(m).len() == m.len());
    assert(metrics_view(m)[0] == (m[0].gauge@, m[0].field));
    assert(metrics_view(m)[1] == (m[1].gauge@, m[1].field));
}

/// Each family that [`Nodes::new`] declares for a thread pool reads, off any
/// statistics, the statistic that its name states.
pub proof fn lemma_thread_pool_readings(nodes: Nodes, t: NodeStatsThreadPoolResponse)
    requires
        nodes.is_standard(),
    ensures
        nodes.thread_pool_metrics@.len() == 6,
        family_reads(
            nodes.thread_pool_metrics@[0],
            "thread_pool"@,
            "completed_count"@,
            t,
            GaugeValue::Integer(t.completed),
        ),
        family_reads(
            nodes.thread_pool_metrics@[1],
            "thread_pool"@,
            "rejected_count"@,
            t,
            GaugeValue::Integer(t.rejected),
        ),
        family_reads(
            nodes.thread_pool_metrics@[2],
            "thread_pool"@,
            "active_count"@,
            t,
            GaugeValue::Integer(t.active),
        ),
        family_reads(
            nodes.thread_pool_metrics@[3],
            "thread_pool"@,
            "largest_count"@,
            t,
            GaugeValue::Integer(t.largest),
        ),
        family_reads(
            nodes.thread_pool_metrics@[4],
            "thread_pool"@,
            "queue_count"@,
            t,
            GaugeValue::Integer(t.queue),
        ),
        family_reads(
            nodes.thread_pool_metrics@[5],
            "thread_pool"@,
            "threads_count"@,
            t,
            GaugeValue::Integer(t.threads),
        ),
{
    let m = nodes.thread_pool_metrics@;
    assert(metrics_view(m).len() == m.len());
    assert(metrics_view(m)[0] == (m[0].gauge@, m[0].field));
    assert(metrics_view(m)[1] == (m[1].gauge@, m[1].field));
    assert(metrics_view(m)[2] == (m[2].gauge@, m[2].field));
    assert(metrics_view(m)[3] == (m[3].gauge@, m[3].field));
    assert(metrics_view(m)[4] == (m[4].gauge@, m[4].field));
    assert(metrics_view(m)[5] == (m[5].gauge@, m[5].field));
}

/// Each family that [`Nodes::new`] declares for a data path reads, off any
/// statistics, the statistic that its name states.
pub proof fn lemma_filesystem_data_readings(nodes: Nodes, f: NodeStatsFSDataResponse)
    requires
        nodes.is_standard(),
    ensures
        nodes.filesystem_data_metrics@.len() == 3,
        family_reads(
            nodes.filesystem_data_metrics@[0],
            "filesystem_data"@,
            "available_bytes"@,
            f,
            GaugeValue::Integer(f.available_in_bytes),
        ),
        family_reads(
            nodes.filesystem_data_metrics@[1],
            "filesystem_data"@,
            "free_bytes"@,
            f,
            GaugeValue::Integer(f.free_in_bytes),
        ),
        family_reads(
            nodes.filesystem_data_metrics@[2],
            "filesystem_data"@,
            "size_bytes"@,
            f,
            GaugeValue::Integer(f.total_in_bytes),
        ),
{
    let m = nodes.filesystem_data_metrics@;
    assert(metrics_view(m).len() == m.len());
    assert(metrics_view(m)[0] == (m[0].gauge@, m[0].field));
    assert(metrics_view(m)[1] == (m[1].gauge@, m[1].field));
    assert(metrics_view(m)[2] == (m[2].gauge@, m[2].field));
}

/// Each family that [`Nodes::new`] declares for a device reads, off any
/// statistics, the statistic that its name states.
pub proof fn lemma_filesystem_io_device_readings(nodes: Nodes, d: NodeStatsFSIOStatsDeviceResponse)
    requires
        nodes.is_standard(),
    ensures
        nodes.filesystem_io_device_metrics@.len() == 5,
        family_reads(
            nodes.filesystem_io_device_metrics@[0],
            "filesystem_io_stats_device"@,
            "operations_count"@,
            d,
            GaugeValue::Integer(d.operations),
        ),
        family_reads(
            nodes.filesystem_io_device_metrics@[1],
            "filesystem_io_stats_device"@,
            "read_operations_count"@,
            d,
            GaugeValue::Integer(d.read_operations),
        ),
        family_reads(
            nodes.filesystem_io_device_metrics@[2],
            "filesystem_io_stats_device"@,
            "write_operations_count"@,
            d,
            GaugeValue::Integer(d.write_operations),
        ),
        family_reads(
            nodes.filesystem_io_device_metrics@[3],
            "filesystem_io_stats_device"@,
            "read_size_kilobytes_sum"@,
            d,
            GaugeValue::Integer(d.read_kilobytes),
        ),
        family_reads(
            nodes.filesystem_io_device_metrics@[4],
            "filesystem_io_stats_device"@,
            "write_size_kilobytes_sum"@,
            d,
            GaugeValue::Integer(d.write_kilobytes),
        ),
{
    let m = nodes.filesystem_io_device_metrics@;
    assert(metrics_view(m).len() == m.len());
    assert(metrics_view(m)[0] == (m[0].gauge@, m[0].field));
    assert(metrics_view(m)[1] == (m[1].gauge@, m[1].field));
    assert(metrics_view(m)[2] == (m[2].gauge@, m[2].field));
    assert(metrics_view(m)[3] == (m[3].gauge@, m[3].field));
    assert(metrics_view(m)[4] == (m[4].gauge@, m[4].field));
}

} // verus!
