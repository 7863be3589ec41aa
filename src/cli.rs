//! The exporter's settings, as given on the command line.
use vstd::prelude::*;

verus! {

/// The port that the exporter listens on, and where and as whom it reaches
/// the remote torrent client.
pub struct Cli {
    pub exporter_port: u16,
    pub qbittorrent_endpoint: String,
    pub qbittorrent_username: String,
    pub qbittorrent_password: String,
}

} // verus!
