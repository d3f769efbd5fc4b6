use vstd::prelude::*;

verus! {

/// The keys of a list of pairs differ from each other, as those of a map do.
pub open spec fn distinct_keys<T>(pairs: Seq<(String, T)>) -> bool {
    forall|i: int, j: int|
        0 <= i < pairs.len() && 0 <= j < pairs.len() && i != j ==> #[trigger] pairs[i].0@
            != #[trigger] pairs[j].0@
}

/// The answer of `/_nodes/_local/stats`.
#[derive(Debug)]
pub struct NodeStatusResponse {
    pub cluster_name: String,
    /// The nodes, by node id.
    pub nodes: Vec<(String, NodeStatsNodeResponse)>,
}

impl NodeStatusResponse {
    /// The answer holds each node once, and so does each of its maps.
    pub open spec fn well_formed(&self) -> bool {
        &&& distinct_keys(self.nodes@)
        &&& forall|i: int| 0 <= i < self.nodes@.len() ==> (#[trigger] self.nodes@[i]).1.well_formed()
    }
}

/// The statistics of one node.
#[derive(Debug)]
pub struct NodeStatsNodeResponse {
    pub name: String,
    pub host: String,
    pub timestamp: i64,
    pub roles: Option<Vec<String>>,
    pub attributes: Vec<(String, String)>,
    pub transport_address: String,
    pub indices: NodeStatsIndicesResponse,
    pub os: NodeStatsOSResponse,
    pub fs: NodeStatsFSResponse,
    /// Thread pools, by pool name.
    pub thread_pool: Vec<(String, NodeStatsThreadPoolResponse)>,
    pub jvm: NodeStatsJVMResponse,
    /// Circuit breakers, by breaker name.
    pub breakers: Vec<(String, NodeStatsBreakersResponse)>,
    /// Indexing pressure, by kind.
    pub indexing_pressure: Vec<(String, NodeStatsIndexingPressureResponse)>,
}

impl NodeStatsNodeResponse {
    /// Each map of the statistics holds each key once.
    pub open spec fn well_formed(&self) -> bool {
        &&& distinct_keys(self.attributes@)
        &&& distinct_keys(self.thread_pool@)
        &&& distinct_keys(self.breakers@)
        &&& distinct_keys(self.indexing_pressure@)
        &&& distinct_keys(self.jvm.gc.collectors@)
    }
}

/// The statistics of one circuit breaker.
#[derive(Debug)]
pub struct NodeStatsBreakersResponse {
    pub estimated_size_in_bytes: i64,
    pub limit_size_in_bytes: i64,
    /// The overhead factor, as the bit pattern of its floating-point value.
    pub overhead_bits: u64,
    pub tripped: i64,
}

#[derive(Debug)]
pub struct NodeStatsIndexingPressureResponse {
    pub current: NodeStatsIndexingPressureCurrentResponse,
    pub limit_in_bytes: i64,
}

#[derive(Debug)]
pub struct NodeStatsIndexingPressureCurrentResponse {
    pub all_in_bytes: i64,
}

#[derive(Debug)]
pub struct NodeStatsJVMResponse {
    pub mem: NodeStatsJVMMemResponse,
    pub gc: NodeStatsJVMGCResponse,
}

#[derive(Debug)]
pub struct NodeStatsJVMGCResponse {
    /// Garbage collectors, by collector name.
    pub collectors: Vec<(String, NodeStatsJVMGCCollectorResponse)>,
}

#[derive(Debug)]
pub struct NodeStatsJVMGCCollectorResponse {
    pub collection_count: i64,
    pub collection_time_in_millis: i64,
}

#[derive(Debug)]
pub struct NodeStatsJVMMemResponse {
    pub heap_committed_in_bytes: i64,
    pub heap_used_in_bytes: i64,
    pub heap_max_in_bytes: i64,
    pub non_heap_committed_in_bytes: i64,
    pub non_heap_used_in_bytes: i64,
}

#[derive(Debug)]
pub struct NodeStatsThreadPoolResponse {
    pub threads: i64,
    pub queue: i64,
    pub active: i64,
    pub rejected: i64,
    pub largest: i64,
    pub completed: i64,
}

#[derive(Debug)]
pub struct NodeStatsIndicesResponse {
    pub docs: NodeStatsIndicesDocsResponse,
    pub indexing: NodeStatsIndicesIndexingResponse,
}

#[derive(Debug)]
pub struct NodeStatsIndicesDocsResponse {
    pub count: i64,
    pub deleted: i64,
}

#[derive(Debug)]
pub struct NodeStatsIndicesIndexingResponse {
    pub index_total: i64,
    pub index_time_in_millis: i64,
    pub index_current: i64,
    pub delete_total: i64,
    pub delete_time_in_millis: i64,
    pub delete_current: i64,
    pub is_throttled: bool,
    pub throttle_time_in_millis: i64,
}

#[derive(Debug)]
pub struct NodeStatsOSResponse {
    pub timestamp: i64,
    pub cpu: NodeStatsOSCPUResponse,
    pub mem: NodeStatsOSMemResponse,
}

#[derive(Debug)]
pub struct NodeStatsOSMemResponse {
    pub free_in_bytes: i64,
    pub used_in_bytes: i64,
}

#[derive(Debug)]
pub struct NodeStatsOSCPUResponse {
    pub load_average: NodeStatsOSCPULoadResponse,
    pub percent: i64,
}

/// Load averages, each as the bit pattern of its floating-point value.
#[derive(Debug)]
pub struct NodeStatsOSCPULoadResponse {
    /// Over one minute.
    pub load1_bits: u64,
    /// Over five minutes.
    pub load5_bits: u64,
    /// Over fifteen minutes.
    pub load15_bits: u64,
}

#[derive(Debug)]
pub struct NodeStatsFSResponse {
    pub timestamp: i64,
    /// Data paths; empty when the answer lists none.
    pub data: Vec<NodeStatsFSDataResponse>,
    pub io_stats: NodeStatsFSIOStatsResponse,
}

#[derive(Debug)]
pub struct NodeStatsFSDataResponse {
    pub path: String,
    pub mount: String,
    /// Empty when the answer names no device.
    pub dev: String,
    pub total_in_bytes: i64,
    pub free_in_bytes: i64,
    pub available_in_bytes: i64,
}

#[derive(Debug)]
pub struct NodeStatsFSIOStatsResponse {
    /// Devices; empty when the answer lists none.
    pub devices: Vec<NodeStatsFSIOStatsDeviceResponse>,
}

#[derive(Debug)]
pub struct NodeStatsFSIOStatsDeviceResponse {
    pub device_name: String,
    pub operations: i64,
    pub read_operations: i64,
    pub write_operations: i64,
    pub read_kilobytes: i64,
    pub write_kilobytes: i64,
}

} // verus!
