//! Decision logic of an Elasticsearch exporter for Prometheus.
//!
//! The library describes which gauges the exporter publishes, which
//! Elasticsearch endpoints it queries, how a scrape is routed (by the
//! configured mode or an explicit request header), which gauge readings
//! each answer yields, and what a scrape finally exports.  Talking HTTP and
//! holding the Prometheus gauges is left to the program around it.

pub mod client;
pub mod config;
pub mod exporter;
pub mod gauge;
pub mod header;
pub mod response;
pub mod text;
