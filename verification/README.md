# elasticsearch_exporter

A Prometheus exporter for Elasticsearch, whose decision logic is verified
with Verus.

- `src/` is the verified library: the modes of a scrape and how a request
  header selects one (`config`, `header`), the requests sent to
  Elasticsearch (`client`), the gauge families and their readings
  (`gauge`), the answers of the endpoints (`response`), and for each
  endpoint which gauge settings an answer yields, together with what a
  whole scrape exports (`exporter`).
- `app/` is the program around it: the HTTP server (axum), the requests
  (reqwest), reading answers and settings (serde, envy), and the Prometheus
  gauges themselves, whose values are floating-point numbers.
- `tests/` runs the library on concrete values.

Environment: `ADDR` (`http://ip:port` of the node) and `EXPORTER_MODE`
(`standard` or `simple`). `USERNAME` and `PASSWORD` are read as well, both
optional, but no request sends them. A scrape at
`/metrics` may name its mode in the `EXPORTER_MODE` request header.
