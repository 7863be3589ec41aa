//! The exposed metrics of one remote torrent client, and one refresh of them
//! from what the client reported.
use crate::exposition::{
    counter_get, counter_inc_by, counter_value, family_clear, family_contents, family_get,
    family_set, gauge_get, gauge_set, gauge_value, new_counter, new_family, new_gauge,
    no_labels, register_bytes_counter, register_family, register_gauge, registered, CategoryGauges,
};
use crate::labels::{
    aggregate, labels_of, lemma_occurrences_bounded, occurrences, tally, CategoryLabel, LabelView,
    TorrentRecord,
};
use crate::reconcile::{counter_increment, counter_step};
use prometheus_client::metrics::counter::Counter;
use prometheus_client::metrics::gauge::Gauge;
use prometheus_client::registry::Registry;
use vstd::prelude::*;

verus! {

/// Whether the remote client is connected to the torrent network.
#[derive(Clone, Copy, Debug, PartialEq, Eq, Structural)]
pub enum ConnectionStatus {
    Connected,
    Disconnected,
    Firewalled,
    Unknown,
}

/// What the remote client reports of its transfers.
pub struct TransferInfo {
    pub connection_status: ConnectionStatus,
    /// DHT nodes connected to.
    pub dht_nodes: u64,
    /// Bytes downloaded since the remote client started.
    pub dl_info_data: u64,
    /// Bytes uploaded since the remote client started.
    pub up_info_data: u64,
}

/// The status gauge: 1 when connected, else 0.
pub open spec fn status_of(c: ConnectionStatus) -> int {
    if c == ConnectionStatus::Connected {
        1
    } else {
        0
    }
}

/// The DHT gauge: the node count, held at the largest value a gauge takes.
pub open spec fn dht_gauge_of(nodes: u64) -> int {
    if nodes > i64::MAX {
        i64::MAX as int
    } else {
        nodes as int
    }
}

pub const STATUS_NAME: &'static str = "qbittorrent_status";
pub const STATUS_HELP: &'static str = "Current status (connected/not connected) of QBittorrent instance";
pub const DHT_NODES_NAME: &'static str = "qbittorrent_dht_nodes_total";
pub const DHT_NODES_HELP: &'static str = "Number of DHT nodes, connected to";
// the encoder appends `_bytes_total` to the names of the two counters
pub const DOWNLOADED_NAME: &'static str = "qbittorrent_downloaded";
pub const DOWNLOADED_HELP: &'static str = "Data downloaded since the server started, in bytes";
pub const UPLOADED_NAME: &'static str = "qbittorrent_uploaded";
pub const UPLOADED_HELP: &'static str = "Data uploaded since the server started, in bytes";
pub const CATEGORY_NAME: &'static str = "qbittorrent_torrent_category_total";
pub const CATEGORY_HELP: &'static str = "Number of torrents for each category and status";

/// The five metrics, in the order they are registered: (name, help, in bytes).
pub open spec fn exporter_metrics() -> Seq<(Seq<char>, Seq<char>, bool)> {
    seq![
        (STATUS_NAME@, STATUS_HELP@, false),
        (DHT_NODES_NAME@, DHT_NODES_HELP@, false),
        (DOWNLOADED_NAME@, DOWNLOADED_HELP@, true),
        (UPLOADED_NAME@, UPLOADED_HELP@, true),
        (CATEGORY_NAME@, CATEGORY_HELP@, false),
    ]
}

/// The values that the metrics expose.
pub struct MetricsView {
    pub status: int,
    pub dht_nodes: int,
    pub downloaded: int,
    pub uploaded: int,
    pub categories: Map<LabelView, int>,
}

/// The metrics that one remote torrent client is exposed through.
pub struct QBitMetrics {
    status_gauge: Gauge,
    dht_nodes_gauge: Gauge,
    downloaded_bytes_counter: Counter,
    uploaded_bytes_counter: Counter,
    torrent_category_gauge: CategoryGauges,
}

impl View for QBitMetrics {
    type V = MetricsView;

    closed spec fn view(&self) -> MetricsView {
        MetricsView {
            status: gauge_value(self.status_gauge),
            dht_nodes: gauge_value(self.dht_nodes_gauge),
            downloaded: counter_value(self.downloaded_bytes_counter),
            uploaded: counter_value(self.uploaded_bytes_counter),
            categories: family_contents(self.torrent_category_gauge),
        }
    }
}

impl QBitMetrics {
    /// Creates the metrics, all at 0 and without any category, and registers
    /// them in `registry`.
    pub fn new(registry: &mut Registry) -> (r: Self)
        ensures
            r@.status == 0,
            r@.dht_nodes == 0,
            r@.downloaded == 0,
            r@.uploaded == 0,
            r@.categories == no_labels(),
            registered(*final(registry)) == registered(*old(registry)) + exporter_metrics(),
    {
        let ghost before = registered(*registry);
        let status_gauge = new_gauge();
        register_gauge(registry, STATUS_NAME, STATUS_HELP, &status_gauge);
        let dht_nodes_gauge = new_gauge();
        register_gauge(registry, DHT_NODES_NAME, DHT_NODES_HELP, &dht_nodes_gauge);
        let downloaded_bytes_counter = new_counter();
        register_bytes_counter(registry, DOWNLOADED_NAME, DOWNLOADED_HELP, &downloaded_bytes_counter);
        let uploaded_bytes_counter = new_counter();
        register_bytes_counter(registry, UPLOADED_NAME, UPLOADED_HELP, &uploaded_bytes_counter);
        let torrent_category_gauge = new_family();
        register_family(registry, CATEGORY_NAME, CATEGORY_HELP, &torrent_category_gauge);
        proof {
            assert(registered(*registry) =~= before + exporter_metrics());
        }
        QBitMetrics {
            status_gauge,
            dht_nodes_gauge,
            downloaded_bytes_counter,
            uploaded_bytes_counter,
            torrent_category_gauge,
        }
    }

    /// Refreshes the metrics from one fetch of the remote client: its transfer
    /// info and its torrent list, or the error of whichever fetch failed.
    ///
    /// On an error nothing changes and the error is handed back. Otherwise
    /// the gauges take the reported values, each counter moves up to its
    /// remote value (and stays where the remote value went back), and the
    /// category gauges are replaced by the counts of the new list.
    pub fn update_metrics(
        &mut self,
        fetched: Result<(TransferInfo, Vec<TorrentRecord>), String>,
    ) -> (r: Result<(), String>)
        requires
            fetched is Ok ==> fetched->Ok_0.1.len() <= i64::MAX,
        ensures
            fetched is Err ==> r is Err && r->Err_0 == fetched->Err_0 && final(self)@ == old(self)@,
            fetched is Ok ==> {
                let info = fetched->Ok_0.0;
                let torrents = fetched->Ok_0.1;
                &&& r is Ok
                &&& final(self)@.status == status_of(info.connection_status)
                &&& final(self)@.dht_nodes == dht_gauge_of(info.dht_nodes)
                &&& final(self)@.downloaded == counter_step(
                    old(self)@.downloaded,
                    info.dl_info_data as int,
                )
                &&& final(self)@.uploaded == counter_step(old(self)@.uploaded, info.up_info_data as int)
                &&& final(self)@.categories == tally(labels_of(torrents@))
                &&& final(self)@.categories.dom() == labels_of(torrents@).to_set()
            },
    {
        match fetched {
            Err(e) => Err(e),
            Ok((info, torrents)) => {
                self.report_status_metrics(&info);
                self.report_torrent_metrics(&torrents);
                proof {
                    assert(tally(labels_of(torrents@)).dom() =~= labels_of(torrents@).to_set());
                }
                Ok(())
            },
        }
    }

    /// Sets the status and DHT gauges and brings both counters in step.
    fn report_status_metrics(&mut self, info: &TransferInfo)
        ensures
            final(self)@.status == status_of(info.connection_status),
            final(self)@.dht_nodes == dht_gauge_of(info.dht_nodes),
            final(self)@.downloaded == counter_step(old(self)@.downloaded, info.dl_info_data as int),
            final(self)@.uploaded == counter_step(old(self)@.uploaded, info.up_info_data as int),
            final(self)@.categories == old(self)@.categories,
    {
        if info.connection_status == ConnectionStatus::Connected {
            gauge_set(&mut self.status_gauge, 1);
        } else {
            gauge_set(&mut self.status_gauge, 0);
        }
        let nodes: i64 = if info.dht_nodes > i64::MAX as u64 {
            i64::MAX
        } else {
            info.dht_nodes as i64
        };
        gauge_set(&mut self.dht_nodes_gauge, nodes);

        let download_inc = counter_increment(
            counter_get(&self.downloaded_bytes_counter),
            info.dl_info_data,
        );
        counter_inc_by(&mut self.downloaded_bytes_counter, download_inc);

        let upload_inc = counter_increment(
            counter_get(&self.uploaded_bytes_counter),
            info.up_info_data,
        );
        counter_inc_by(&mut self.uploaded_bytes_counter, upload_inc);
    }

    /// Replaces the category gauges by the counts of `torrents`.
    fn report_torrent_metrics(&mut self, torrents: &Vec<TorrentRecord>)
        requires
            torrents.len() <= i64::MAX,
        ensures
            final(self)@.categories == tally(labels_of(torrents@)),
            final(self)@.status == old(self)@.status,
            final(self)@.dht_nodes == old(self)@.dht_nodes,
            final(self)@.downloaded == old(self)@.downloaded,
            final(self)@.uploaded == old(self)@.uploaded,
    {
        let ghost all = labels_of(torrents@);
        let stats = aggregate(torrents);

        family_clear(&mut self.torrent_category_gauge);
        let mut j: usize = 0;
        while j < stats.len()
            invariant
                j <= stats.len(),
                all == labels_of(torrents@),
                torrents.len() <= i64::MAX,
                forall|a: int, b: int| 0 <= a < b < stats.len() ==> stats[a].0@ != stats[b].0@,
                forall|k: int|
                    0 <= k < stats.len() ==> stats[k].1 == occurrences(all, stats[k].0@)
                        && all.contains(stats[k].0@),
                forall|l: LabelView| all.contains(l) ==> exists|k: int| 0 <= k < stats.len() && stats[k].0@ == l,
                forall|l: LabelView|
                    family_contents(self.torrent_category_gauge).contains_key(l) <==> exists|k: int|
                        0 <= k < j && stats[k].0@ == l,
                forall|k: int|
                    0 <= k < j ==> family_contents(self.torrent_category_gauge)[stats[k].0@] == stats[k].1,
                self@.status == old(self)@.status,
                self@.dht_nodes == old(self)@.dht_nodes,
                self@.downloaded == old(self)@.downloaded,
                self@.uploaded == old(self)@.uploaded,
            decreases stats.len() - j,
        {
            let entry = &stats[j];
            proof {
                lemma_occurrences_bounded(all, entry.0@);
            }
            family_set(
                &mut self.torrent_category_gauge,
                &entry.0.category,
                &entry.0.state,
                entry.1 as i64,
            );
            proof {
                assert forall|l: LabelView|
                    family_contents(self.torrent_category_gauge).contains_key(l) <==> exists|k: int|
                        0 <= k < j + 1 && stats[k].0@ == l by {
                    if l == stats[j as int].0@ {
                        assert(0 <= j < j + 1 && stats[j as int].0@ == l);
                    }
                }
            }
            j = j + 1;
        }
        proof {
            assert forall|l: LabelView|
                family_contents(self.torrent_category_gauge).contains_key(l) implies family_contents(
                self.torrent_category_gauge,
            )[l] == occurrences(all, l) by {
                let k = choose|k: int| 0 <= k < j && stats[k].0@ == l;
            }
            assert(family_contents(self.torrent_category_gauge) =~= tally(all));
        }
    }

    pub fn status(&self) -> (r: i64)
        ensures
            r == self@.status,
    {
        gauge_get(&self.status_gauge)
    }

    pub fn dht_nodes(&self) -> (r: i64)
        ensures
            r == self@.dht_nodes,
    {
        gauge_get(&self.dht_nodes_gauge)
    }

    pub fn downloaded_bytes(&self) -> (r: u64)
        ensures
            r == self@.downloaded,
    {
        counter_get(&self.downloaded_bytes_counter)
    }

    pub fn uploaded_bytes(&self) -> (r: u64)
        ensures
            r == self@.uploaded,
    {
        counter_get(&self.uploaded_bytes_counter)
    }

    /// The number of torrents exposed under `label`, if the label is present.
    pub fn torrent_count(&self, label: &CategoryLabel) -> (r: Option<i64>)
        ensures
            r is Some <==> self@.categories.contains_key(label@),
            r is Some ==> r->0 == self@.categories[label@],
    {
        family_get(&self.torrent_category_gauge, &label.category, &label.state)
    }
}

} // verus!
