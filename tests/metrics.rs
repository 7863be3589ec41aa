use prometheus_client::encoding::text::encode;
use prometheus_client::registry::Registry;
use qbit_exporter::labels::{CategoryLabel, TorrentRecord, TorrentState};
use qbit_exporter::metrics::{ConnectionStatus, QBitMetrics, TransferInfo};

fn info(status: ConnectionStatus, dht: u64, down: u64, up: u64) -> TransferInfo {
    TransferInfo { connection_status: status, dht_nodes: dht, dl_info_data: down, up_info_data: up }
}

fn record(category: Option<&str>, state: Option<TorrentState>) -> TorrentRecord {
    TorrentRecord { category: category.map(|c| c.to_string()), state }
}

fn label(category: &str, state: &str) -> CategoryLabel {
    CategoryLabel { category: category.to_string(), state: state.to_string() }
}

#[test]
fn new_metrics_start_at_zero() {
    let mut registry = Registry::default();
    let m = QBitMetrics::new(&mut registry);
    assert_eq!(m.status(), 0);
    assert_eq!(m.dht_nodes(), 0);
    assert_eq!(m.downloaded_bytes(), 0);
    assert_eq!(m.uploaded_bytes(), 0);
    assert_eq!(m.torrent_count(&label("<None>", "Unknown")), None);
}

#[test]
fn two_cycles_end_to_end() {
    let mut registry = Registry::default();
    let mut m = QBitMetrics::new(&mut registry);
    let torrents = vec![
        record(Some("movies"), Some(TorrentState::Uploading)),
        record(Some("movies"), Some(TorrentState::Uploading)),
        record(None, Some(TorrentState::Downloading)),
    ];
    let r = m.update_metrics(Ok((info(ConnectionStatus::Connected, 12, 1000, 500), torrents)));
    assert_eq!(r, Ok(()));
    assert_eq!(m.status(), 1);
    assert_eq!(m.dht_nodes(), 12);
    assert_eq!(m.downloaded_bytes(), 1000);
    assert_eq!(m.uploaded_bytes(), 500);
    assert_eq!(m.torrent_count(&label("movies", "Uploading")), Some(2));
    assert_eq!(m.torrent_count(&label("<None>", "Downloading")), Some(1));
    assert_eq!(m.torrent_count(&label("movies", "Downloading")), None);

    let r = m.update_metrics(Ok((info(ConnectionStatus::Connected, 12, 1500, 200), vec![])));
    assert_eq!(r, Ok(()));
    assert_eq!(m.downloaded_bytes(), 1500);
    assert_eq!(m.uploaded_bytes(), 500);
}

#[test]
fn failed_fetch_changes_nothing() {
    let mut registry = Registry::default();
    let mut m = QBitMetrics::new(&mut registry);
    let torrents = vec![record(Some("tv"), Some(TorrentState::PausedDL))];
    m.update_metrics(Ok((info(ConnectionStatus::Connected, 3, 40, 50), torrents))).unwrap();
    let r = m.update_metrics(Err("connection refused".to_string()));
    assert_eq!(r, Err("connection refused".to_string()));
    assert_eq!(m.status(), 1);
    assert_eq!(m.dht_nodes(), 3);
    assert_eq!(m.downloaded_bytes(), 40);
    assert_eq!(m.uploaded_bytes(), 50);
    assert_eq!(m.torrent_count(&label("tv", "PausedDL")), Some(1));
}

#[test]
fn stale_labels_are_removed() {
    let mut registry = Registry::default();
    let mut m = QBitMetrics::new(&mut registry);
    let first = vec![
        record(Some("a"), Some(TorrentState::Uploading)),
        record(Some("b"), Some(TorrentState::Error)),
    ];
    m.update_metrics(Ok((info(ConnectionStatus::Connected, 0, 0, 0), first))).unwrap();
    let second = vec![record(Some("b"), Some(TorrentState::Error)), record(Some("b"), Some(TorrentState::Error))];
    m.update_metrics(Ok((info(ConnectionStatus::Connected, 0, 0, 0), second))).unwrap();
    assert_eq!(m.torrent_count(&label("a", "Uploading")), None);
    assert_eq!(m.torrent_count(&label("b", "Error")), Some(2));
}

#[test]
fn disconnected_status_is_zero() {
    let mut registry = Registry::default();
    let mut m = QBitMetrics::new(&mut registry);
    m.update_metrics(Ok((info(ConnectionStatus::Connected, 1, 0, 0), vec![]))).unwrap();
    assert_eq!(m.status(), 1);
    m.update_metrics(Ok((info(ConnectionStatus::Firewalled, 1, 0, 0), vec![]))).unwrap();
    assert_eq!(m.status(), 0);
    m.update_metrics(Ok((info(ConnectionStatus::Disconnected, 1, 0, 0), vec![]))).unwrap();
    assert_eq!(m.status(), 0);
}

#[test]
fn dht_gauge_is_held_at_largest_value() {
    let mut registry = Registry::default();
    let mut m = QBitMetrics::new(&mut registry);
    m.update_metrics(Ok((info(ConnectionStatus::Unknown, u64::MAX, 0, 0), vec![]))).unwrap();
    assert_eq!(m.dht_nodes(), i64::MAX);
}

#[test]
fn counters_follow_rising_values_and_hold_on_regression() {
    let mut registry = Registry::default();
    let mut m = QBitMetrics::new(&mut registry);
    let mut seen = Vec::new();
    for v in [0u64, 10, 10, 250, 100, 300] {
        m.update_metrics(Ok((info(ConnectionStatus::Connected, 0, v, v), vec![]))).unwrap();
        seen.push(m.downloaded_bytes());
    }
    assert_eq!(seen, vec![0, 10, 10, 250, 250, 300]);
    assert_eq!(m.uploaded_bytes(), 300);
}

#[test]
fn registry_renders_the_metrics() {
    let mut registry = Registry::default();
    let mut m = QBitMetrics::new(&mut registry);
    let torrents = vec![record(Some("movies"), Some(TorrentState::Uploading))];
    m.update_metrics(Ok((info(ConnectionStatus::Connected, 12, 1000, 500), torrents))).unwrap();
    let mut text = String::new();
    encode(&mut text, &registry).unwrap();
    assert!(text.contains("qbittorrent_status 1"));
    assert!(text.contains("qbittorrent_dht_nodes_total 12"));
    assert!(text.contains("qbittorrent_downloaded_bytes_total 1000"));
    assert!(text.contains("qbittorrent_uploaded_bytes_total 500"));
    assert!(text.contains("qbittorrent_torrent_category_total{category=\"movies\",state=\"Uploading\"} 1"));
}

#[test]
fn registry_lists_help_texts() {
    let mut registry = Registry::default();
    let mut m = QBitMetrics::new(&mut registry);
    let torrents = vec![record(Some("tv"), Some(TorrentState::QueuedDL))];
    m.update_metrics(Ok((info(ConnectionStatus::Connected, 1, 2, 3), torrents))).unwrap();
    let mut text = String::new();
    encode(&mut text, &registry).unwrap();
    assert!(text.contains("# HELP qbittorrent_status Current status (connected/not connected) of QBittorrent instance."));
    assert!(text.contains("# HELP qbittorrent_dht_nodes_total Number of DHT nodes, connected to."));
    assert!(text.contains("# UNIT qbittorrent_downloaded_bytes bytes"));
    assert!(text.contains("# HELP qbittorrent_uploaded_bytes Data uploaded since the server started, in bytes."));
    assert!(text.contains("# HELP qbittorrent_torrent_category_total Number of torrents for each category and status."));
}
