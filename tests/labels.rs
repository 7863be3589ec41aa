use qbit_exporter::labels::{aggregate, extract_labels, TorrentRecord, TorrentState, DEFAULT_CATEGORY};
use qbit_exporter::reconcile::counter_increment;

fn record(category: Option<&str>, state: Option<TorrentState>) -> TorrentRecord {
    TorrentRecord { category: category.map(|c| c.to_string()), state }
}

#[test]
fn missing_category_and_state_take_defaults() {
    let l = extract_labels(&record(None, None));
    assert_eq!(l.category, DEFAULT_CATEGORY);
    assert_eq!(l.category, "<None>");
    assert_eq!(l.state, "Unknown");
}

#[test]
fn present_category_and_state_are_kept() {
    let l = extract_labels(&record(Some("linux"), Some(TorrentState::StalledUP)));
    assert_eq!(l.category, "linux");
    assert_eq!(l.state, "StalledUP");
}

#[test]
fn state_names() {
    assert_eq!(TorrentState::Downloading.name(), "Downloading");
    assert_eq!(TorrentState::CheckingResumeData.name(), "CheckingResumeData");
    assert_eq!(TorrentState::MetaDL.name(), "MetaDL");
    assert_eq!(TorrentState::Unknown.name(), "Unknown");
}

#[test]
fn aggregate_counts_each_pair() {
    let torrents = vec![
        record(Some("movies"), Some(TorrentState::Uploading)),
        record(Some("movies"), Some(TorrentState::Uploading)),
        record(None, Some(TorrentState::Downloading)),
        record(Some("movies"), Some(TorrentState::Downloading)),
        record(Some("movies"), None),
    ];
    let counts = aggregate(&torrents);
    let mut pairs: Vec<(String, String, usize)> =
        counts.iter().map(|(l, c)| (l.category.clone(), l.state.clone(), *c)).collect();
    pairs.sort();
    assert_eq!(
        pairs,
        vec![
            ("<None>".to_string(), "Downloading".to_string(), 1),
            ("movies".to_string(), "Downloading".to_string(), 1),
            ("movies".to_string(), "Unknown".to_string(), 1),
            ("movies".to_string(), "Uploading".to_string(), 2),
        ]
    );
    let total: usize = counts.iter().map(|(_, c)| *c).sum();
    assert_eq!(total, torrents.len());
}

#[test]
fn aggregate_of_empty_list_is_empty() {
    assert!(aggregate(&vec![]).is_empty());
}

#[test]
fn counter_increment_values() {
    assert_eq!(counter_increment(0, 1000), 1000);
    assert_eq!(counter_increment(1000, 1500), 500);
    assert_eq!(counter_increment(500, 500), 0);
    assert_eq!(counter_increment(500, 200), 0);
    assert_eq!(counter_increment(0, u64::MAX), u64::MAX);
}
