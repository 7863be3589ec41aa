//! Prometheus metrics for a qBittorrent client: the connection status, the
//! DHT node count, the bytes moved, and the torrents per category and state,
//! refreshed from what the client reports.
pub mod cli;
pub mod exposition;
pub mod labels;
pub mod metrics;
pub mod reconcile;
