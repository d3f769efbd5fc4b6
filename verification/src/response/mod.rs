//! What the Elasticsearch endpoints answer, as far as the exporter reads it.
//! A map of an answer is kept as a list of `(key, value)` pairs; the order
//! of the pairs is whatever order the caller reads the map in, and every
//! function of the library is verified for any such order. That the keys
//! of such a list differ from each other, as those of a map do, is
//! [`nodes::distinct_keys`]; the laws that rest on it (that a node sets
//! each of its gauges once) require it.

pub mod cluster_health;
pub mod nodes;
pub mod shards;
