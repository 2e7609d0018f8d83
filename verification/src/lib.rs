//! Verified core of the `rbtorrent` libtorrent bindings.

use vstd::prelude::*;

pub mod addr_text;
pub mod alerts;
pub mod client_data;
pub mod create;
pub mod error;
pub mod filter;
pub mod handle;
pub mod info;
pub mod net;
pub mod params;
pub mod session;
pub mod settings;
pub mod stats;
pub mod status;
pub mod text;
pub mod types;

pub use alerts::AlertCategory;
pub use create::{CreateFlags, FileEntry, FileFlags, PieceHashProgress};
pub use error::{Category, Error, Result};
pub use info::{FileFlags as InfoFileFlags, FileSlice};
pub use params::{DownloadPriority, LoadTorrentLimits, StorageMode, TorrentFlags};
pub use session::{DiskIo, RemoveFlags};
pub use settings::{
    Credentials, HostPort, I2pConfig, I2pTunnels, ListenEndpoint, ProxyConfig, ProxyProtocol,
    SettingKey, SettingKind, SettingsError, SettingsPack,
};
pub use stats::{MetricKind, StatsMetric};
pub use status::{State as TorrentState, StorageMode as StatusStorageMode};
pub use types::{InfoHash, PeerRequest, PieceBitfield, Sha1Hash, Sha256Hash};

verus! {

} // verus!
