use vstd::prelude::*;
use vstd::string::*;

use crate::client::{query, Query};
use crate::config::Conf;
use crate::gauge::{desc_view, GaugeDesc, GaugeDescView, GaugeValue};
use crate::response::cluster_health::ClusterHealthResponse;

verus! {

/// The status of a cluster in good health.
pub const ACTIVE_COLOR: &'static str = "green";

/// The endpoint that reports the health of the cluster.
pub const ENDPOINT: &'static str = "/_cluster/health";

/// The gauge of cluster health: `cluster_health_ok`, without labels.
pub open spec fn spec_status_gauge() -> GaugeDescView {
    desc_view(
        "cluster_health"@,
        "ok"@,
        "Elasticsearch cluster status is green (1 if green, 0 otherwise)"@,
        Seq::empty(),
    )
}

/// Reports whether the cluster is in good health.
pub struct ClusterHealth {
    pub status_metric: GaugeDesc,
}

impl ClusterHealth {
    pub fn new() -> (r: ClusterHealth)
        ensures
            r.status_metric@ == spec_status_gauge(),
    {
        let prefix = "cluster_health";
        let no_labels: [&str; 0] = [];
        let status_metric = GaugeDesc::new(
            prefix,
            "ok",
            "Elasticsearch cluster status is green (1 if green, 0 otherwise)",
            &no_labels,
        );
        proof {
            assert(status_metric@.labels =~= Seq::<Seq<char>>::empty());
        }
        ClusterHealth { status_metric }
    }

    /// The request that reads the health of the cluster at `conf.addr`.
    pub fn query(&self, conf: &Conf) -> (r: Query)
        ensures
            r.url@ == conf.addr@ + ENDPOINT@,
            r.params@.len() == 0,
    {
        let no_params: [(&str, &str); 0] = [];
        let r = query(conf.addr.as_str(), ENDPOINT, &no_params);
        proof {
            assert(r.params@.len() == crate::client::params_view(r.params@).len());
        }
        r
    }

    /// The reading of the status gauge for an answer: set exactly when the
    /// cluster is green.
    pub fn value(&self, resp: &ClusterHealthResponse) -> (r: GaugeValue)
        ensures
            r == GaugeValue::Flag(resp.status@ == ACTIVE_COLOR@),
    {
        GaugeValue::Flag(resp.status == String::from_str(ACTIVE_COLOR))
    }
}

} // verus!
