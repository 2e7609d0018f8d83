//! The alert stream: libtorrent's event mechanism, as plain records.
//!
//! Each typed alert carries the values libtorrent reported for it; the
//! accessors return them (converting the C boundary's encodings, such as
//! an all-zero hash meaning "absent" or a zero error category meaning "no
//! error").

use vstd::prelude::*;

pub mod requests;

use crate::alerts::requests::{binding_error, option_error_view};
use crate::error::{category_of_code, Category, Error, ErrorView, CT_ERROR_CAT_NONE};
use crate::text::string_of;
use crate::types::{sha1_unless_zero, sha256_unless_zero, InfoHash, PeerRequest, Sha1Hash, Sha256Hash};

verus! {

/// The `lt::alert_category_t` bits, for [`AlertCategory::from_bits`].
pub const CATEGORY_ERROR: u32 = 0x1;
pub const CATEGORY_PEER: u32 = 0x2;
pub const CATEGORY_PORT_MAPPING: u32 = 0x4;
pub const CATEGORY_STORAGE: u32 = 0x8;
pub const CATEGORY_TRACKER: u32 = 0x10;
pub const CATEGORY_CONNECT: u32 = 0x20;
pub const CATEGORY_STATUS: u32 = 0x40;
pub const CATEGORY_IP_BLOCK: u32 = 0x100;
pub const CATEGORY_PERFORMANCE_WARNING: u32 = 0x200;
pub const CATEGORY_DHT: u32 = 0x400;
pub const CATEGORY_STATS: u32 = 0x800;
pub const CATEGORY_SESSION_LOG: u32 = 0x2000;
pub const CATEGORY_TORRENT_LOG: u32 = 0x4000;
pub const CATEGORY_PEER_LOG: u32 = 0x8000;
pub const CATEGORY_INCOMING_REQUEST: u32 = 0x1_0000;
pub const CATEGORY_DHT_LOG: u32 = 0x2_0000;
pub const CATEGORY_DHT_OPERATION: u32 = 0x4_0000;
pub const CATEGORY_PORT_MAPPING_LOG: u32 = 0x8_0000;
pub const CATEGORY_PICKER_LOG: u32 = 0x10_0000;
pub const CATEGORY_FILE_PROGRESS: u32 = 0x20_0000;
pub const CATEGORY_PIECE_PROGRESS: u32 = 0x40_0000;
pub const CATEGORY_UPLOAD: u32 = 0x80_0000;
pub const CATEGORY_BLOCK_PROGRESS: u32 = 0x100_0000;
pub const CATEGORY_ALL: u32 = 0xffff_ffff;

/// Bitmask of alert categories (`lt::alert_category_t`) for `SettingsPack::alert_mask`.
#[derive(Clone, Copy, Debug, PartialEq, Eq, Hash, Structural)]
pub struct AlertCategory(u32);

impl View for AlertCategory {
    type V = u32;

    /// The mask value.
    closed spec fn view(&self) -> u32 {
        self.0
    }
}

impl AlertCategory {
    pub fn empty() -> (r: AlertCategory)
        ensures
            r@ == 0,
    {
        AlertCategory(0)
    }

    pub fn bits(self) -> (r: u32)
        ensures
            r == self@,
    {
        self.0
    }

    /// For `SettingsPack::alert_mask` (an `i32` setting): the same 32 bits,
    /// read as a signed integer.
    pub fn bits_i32(self) -> (r: i32)
        ensures
            r == self@ as i32,
    {
        self.0 as i32
    }

    pub fn from_bits(bits: u32) -> (r: AlertCategory)
        ensures
            r@ == bits,
    {
        AlertCategory(bits)
    }

    /// Whether every category of `other` is in `self`.
    pub fn contains(self, other: AlertCategory) -> (r: bool)
        ensures
            r == (self@ & other@ == other@),
    {
        self.0 & other.0 == other.0
    }

    /// Whether `self` and `other` share a category.
    pub fn intersects(self, other: AlertCategory) -> (r: bool)
        ensures
            r == (self@ & other@ != 0),
    {
        self.0 & other.0 != 0
    }

    /// The union of two masks (`self | other`).
    pub fn union(self, other: AlertCategory) -> (r: AlertCategory)
        ensures
            r@ == self@ | other@,
    {
        AlertCategory(self.0 | other.0)
    }
}

/// Raw `lt::alert::type()` ids of the alerts the request registry reacts to.
pub const ALERT_TYPE_TORRENT_REMOVED: i32 = 4;
pub const ALERT_TYPE_ADD_TORRENT: i32 = 67;
pub const ALERT_TYPE_SESSION_STATS: i32 = 70;
pub const ALERT_TYPE_ALERTS_DROPPED: i32 = 95;

/// Whether the dropped-alerts bitmask `dropped` (bit `ty % 8` of byte
/// `ty / 8`, for the 128 alert type ids) marks type `ty`.
pub open spec fn dropped_bit(dropped: Seq<u8>, ty: int) -> bool {
    0 <= ty < 128 && dropped[ty / 8] & (1u8 << ((ty % 8) as u8)) != 0
}

/// The alert queue overflowed and alerts were dropped.
#[derive(Clone, Copy, Debug)]
pub struct AlertsDroppedAlert {
    /// One bit per alert type id: bit `ty % 8` of byte `ty / 8`.
    pub dropped: [u8; 16],
}

impl AlertsDroppedAlert {
    /// Whether alerts with raw type id `ty` were dropped.
    pub fn dropped(&self, ty: i32) -> (r: bool)
        ensures
            r == dropped_bit(self.dropped@, ty as int),
    {
        if ty < 0 || ty >= 128 {
            return false;
        }
        let t: usize = ty as usize;
        let bit: u8 = 1u8 << ((t % 8) as u8);
        self.dropped[t / 8] & bit != 0
    }
}


/// An error as the C boundary reports it: the value, the raw category
/// code (`CT_ERROR_CAT_NONE` when no error is set) and the message
/// libtorrent rendered for it.
#[derive(Clone, Debug)]
pub struct CtError {
    pub value: i32,
    pub category: i32,
    pub message: String,
}

impl CtError {
    /// The error this record stands for, if one is set.
    pub open spec fn spec_error(self) -> Option<ErrorView> {
        if self.category == CT_ERROR_CAT_NONE {
            None
        } else {
            Some(
                ErrorView {
                    value: self.value,
                    category: category_of_code(self.category),
                    message: self.message@,
                },
            )
        }
    }

    /// `Some(Error)` if an error is set.
    pub fn to_error(&self) -> (r: Option<Error>)
        ensures
            option_error_view(r) == self.spec_error(),
    {
        Error::from_ct(self.value, self.category, string_of(self.message.as_str()))
    }

    /// The outcome of a call that reports failure through this record:
    /// the call's value when no error is set, else the error.
    pub fn outcome<T>(&self, value: T) -> (r: Result<T, Error>)
        ensures
            match self.spec_error() {
                None => r == Ok::<T, Error>(value),
                Some(e) => r matches Err(x) && x@ == e,
            },
    {
        match self.to_error() {
            None => Ok(value),
            Some(e) => Err(e),
        }
    }

    /// The outcome of a call that reports success as a flag: success as
    /// reported; on failure this record's error, or, when the call set
    /// none, a bindings error with the text `failure`.
    pub fn flag_outcome(&self, success: bool, failure: &str) -> (r: Result<(), Error>)
        ensures
            success ==> r is Ok,
            !success ==> match self.spec_error() {
                Some(e) => r matches Err(x) && x@ == e,
                None => r matches Err(x) && x@ == binding_error(failure@),
            },
    {
        if success {
            return Ok(());
        }
        match self.to_error() {
            Some(e) => Err(e),
            None => Err(Error::binding(failure)),
        }
    }
}

/// An info-hash as the C boundary reports it: both digests, an all-zero
/// digest meaning that version is absent.
#[derive(Clone, Copy, Debug)]
pub struct CtInfoHash {
    pub v1: Sha1Hash,
    pub v2: Sha256Hash,
}

impl CtInfoHash {
    /// The info-hash this record stands for.
    pub open spec fn spec_info_hash(self) -> (Option<Sha1Hash>, Option<Sha256Hash>) {
        (sha1_unless_zero(self.v1), sha256_unless_zero(self.v2))
    }

    pub fn to_info_hash(&self) -> (r: InfoHash)
        ensures
            r@ == self.spec_info_hash(),
    {
        InfoHash::from_parts(self.v1, self.v2)
    }
}

/// One tracker in a [`TrackerListAlert`].
#[derive(Clone, Debug)]
pub struct TrackerEntry {
    /// Announce URL as it appeared in the torrent/magnet.
    pub url: String,
    /// The `&trackerid=` argument sent to the tracker (normally empty).
    pub trackerid: String,
    /// The tier this tracker belongs to.
    pub tier: i32,
    /// Announce failures in a row before the tracker is given up on (0 = unlimited).
    pub fail_limit: i32,
    /// Where we heard about this tracker (`lt::announce_entry::tracker_source` bits).
    pub source: u32,
    /// True once the tracker has responded to an announce.
    pub verified: bool,
}

/// The torrent's tracker list.
#[derive(Clone, Debug)]
pub struct TrackerListAlert {
    pub trackers: Vec<TrackerEntry>,
}

impl TrackerListAlert {
    /// The number of trackers.
    pub fn len(&self) -> (r: usize)
        ensures
            r == self.trackers@.len(),
    {
        self.trackers.len()
    }

    pub fn is_empty(&self) -> (r: bool)
        ensures
            r == (self.trackers@.len() == 0),
    {
        self.trackers.len() == 0
    }

    /// Tracker `i`; `None` if out of range.
    pub fn get(&self, i: usize) -> (r: Option<&TrackerEntry>)
        ensures
            i < self.trackers@.len() ==> r == Some(&self.trackers@[i as int]),
            i >= self.trackers@.len() ==> r is None,
    {
        if i < self.trackers.len() {
            Some(&self.trackers[i])
        } else {
            None
        }
    }

    /// All trackers, in list order.
    pub fn iter(&self) -> (r: &[TrackerEntry])
        ensures
            r@ == self.trackers@,
    {
        self.trackers.as_slice()
    }
}

/// A listen socket was opened.
#[derive(Clone, Debug)]
pub struct ListenSucceededAlert {
    pub socket_type: i32,
}

impl ListenSucceededAlert {
    pub fn socket_type(&self) -> (r: i32)
        ensures
            r == self.socket_type,
    {
        self.socket_type
    }
}

/// Opening a listen socket failed.
#[derive(Clone, Debug)]
pub struct ListenFailedAlert {
    pub interface_name: String,
    pub error: CtError,
    pub operation: i32,
    pub socket_type: i32,
}

impl ListenFailedAlert {
    pub fn interface_name(&self) -> (r: &str)
        ensures
            r@ == self.interface_name@,
    {
        self.interface_name.as_str()
    }

    pub fn error(&self) -> (r: Option<Error>)
        ensures
            option_error_view(r) == self.error.spec_error(),
    {
        self.error.to_error()
    }

    pub fn operation(&self) -> (r: i32)
        ensures
            r == self.operation,
    {
        self.operation
    }

    pub fn socket_type(&self) -> (r: i32)
        ensures
            r == self.socket_type,
    {
        self.socket_type
    }
}

/// A UDP-level error.
#[derive(Clone, Debug)]
pub struct UdpErrorAlert {
    pub operation: i32,
    pub error: CtError,
}

impl UdpErrorAlert {
    pub fn operation(&self) -> (r: i32)
        ensures
            r == self.operation,
    {
        self.operation
    }

    pub fn error(&self) -> (r: Option<Error>)
        ensures
            option_error_view(r) == self.error.spec_error(),
    {
        self.error.to_error()
    }
}

/// Response to `Session::session_stats` (also matched by the request registry).
#[derive(Clone, Debug)]
pub struct SessionStatsAlert {
    pub counters: Vec<i64>,
}

impl SessionStatsAlert {
    pub fn counters(&self) -> (r: &[i64])
        ensures
            r@ == self.counters@,
    {
        self.counters.as_slice()
    }
}

/// A fatal session error.
#[derive(Clone, Debug)]
pub struct SessionErrorAlert {
    pub error: CtError,
    pub message: String,
}

impl SessionErrorAlert {
    /// The session error. Errors carrying only message text (no code)
    /// yield an [`Error`] with the alert's message and a zero code.
    pub fn error(&self) -> (r: Error)
        ensures
            r@ == (match self.error.spec_error() {
                Some(e) => e,
                None => ErrorView { value: 0, category: Category::Unknown, message: self.message@ },
            }),
    {
        match self.error.to_error() {
            Some(e) => e,
            None => Error::from_message(string_of(self.message.as_str())),
        }
    }
}

/// Result of `Session::add_torrent`.
#[derive(Clone, Debug)]
pub struct AddTorrentAlert {
    pub error: CtError,
    pub userdata: u64,
}

impl AddTorrentAlert {
    pub fn error(&self) -> (r: Option<Error>)
        ensures
            option_error_view(r) == self.error.spec_error(),
    {
        self.error.to_error()
    }
}

/// A torrent was removed from the session.
#[derive(Clone, Debug)]
pub struct TorrentRemovedAlert {
    pub info_hashes: CtInfoHash,
    pub userdata: u64,
}

impl TorrentRemovedAlert {
    pub fn info_hashes(&self) -> (r: InfoHash)
        ensures
            r@ == self.info_hashes.spec_info_hash(),
    {
        self.info_hashes.to_info_hash()
    }
}

/// An incoming connection was accepted.
#[derive(Clone, Debug)]
pub struct IncomingConnectionAlert {
    pub socket_type: i32,
}

impl IncomingConnectionAlert {
    pub fn socket_type(&self) -> (r: i32)
        ensures
            r == self.socket_type,
    {
        self.socket_type
    }
}

/// A port mapping succeeded.
#[derive(Clone, Debug)]
pub struct PortmapAlert {
    pub mapping: i32,
    pub external_port: i32,
    pub protocol: i32,
    pub transport: i32,
}

impl PortmapAlert {
    pub fn mapping(&self) -> (r: i32)
        ensures
            r == self.mapping,
    {
        self.mapping
    }

    pub fn external_port(&self) -> (r: i32)
        ensures
            r == self.external_port,
    {
        self.external_port
    }

    pub fn protocol(&self) -> (r: i32)
        ensures
            r == self.protocol,
    {
        self.protocol
    }

    pub fn transport(&self) -> (r: i32)
        ensures
            r == self.transport,
    {
        self.transport
    }
}

/// A port mapping failed.
#[derive(Clone, Debug)]
pub struct PortmapErrorAlert {
    pub mapping: i32,
    pub transport: i32,
    pub error: CtError,
}

impl PortmapErrorAlert {
    pub fn mapping(&self) -> (r: i32)
        ensures
            r == self.mapping,
    {
        self.mapping
    }

    pub fn transport(&self) -> (r: i32)
        ensures
            r == self.transport,
    {
        self.transport
    }

    pub fn error(&self) -> (r: Option<Error>)
        ensures
            option_error_view(r) == self.error.spec_error(),
    {
        self.error.to_error()
    }
}

/// SOCKS5 proxy error.
#[derive(Clone, Debug)]
pub struct Socks5Alert {
    pub error: CtError,
    pub operation: i32,
}

impl Socks5Alert {
    pub fn error(&self) -> (r: Option<Error>)
        ensures
            option_error_view(r) == self.error.spec_error(),
    {
        self.error.to_error()
    }

    pub fn operation(&self) -> (r: i32)
        ensures
            r == self.operation,
    {
        self.operation
    }
}

/// i2p SAM bridge error.
#[derive(Clone, Debug)]
pub struct I2pAlert {
    pub error: CtError,
}

impl I2pAlert {
    pub fn error(&self) -> (r: Option<Error>)
        ensures
            option_error_view(r) == self.error.spec_error(),
    {
        self.error.to_error()
    }
}

/// Local service discovery error.
#[derive(Clone, Debug)]
pub struct LsdErrorAlert {
    pub error: CtError,
}

impl LsdErrorAlert {
    pub fn error(&self) -> (r: Option<Error>)
        ensures
            option_error_view(r) == self.error.spec_error(),
    {
        self.error.to_error()
    }
}

/// Session log line (requires the session-log alert category).
#[derive(Clone, Debug)]
pub struct LogAlert {
    pub message: String,
}

impl LogAlert {
    pub fn log_message(&self) -> (r: &str)
        ensures
            r@ == self.message@,
    {
        self.message.as_str()
    }
}

/// Torrent log line (requires the torrent-log alert category).
#[derive(Clone, Debug)]
pub struct TorrentLogAlert {
    pub message: String,
}

impl TorrentLogAlert {
    pub fn log_message(&self) -> (r: &str)
        ensures
            r@ == self.message@,
    {
        self.message.as_str()
    }
}

/// Port mapping log line.
#[derive(Clone, Debug)]
pub struct PortmapLogAlert {
    pub message: String,
}

impl PortmapLogAlert {
    pub fn log_message(&self) -> (r: &str)
        ensures
            r@ == self.message@,
    {
        self.message.as_str()
    }
}

/// DHT log line.
#[derive(Clone, Debug)]
pub struct DhtLogAlert {
    pub message: String,
    pub module: i32,
}

impl DhtLogAlert {
    pub fn log_message(&self) -> (r: &str)
        ensures
            r@ == self.message@,
    {
        self.message.as_str()
    }

    pub fn module(&self) -> (r: i32)
        ensures
            r == self.module,
    {
        self.module
    }
}

/// Peer log line.
#[derive(Clone, Debug)]
pub struct PeerLogAlert {
    pub message: String,
    pub event_type: i32,
    pub direction: i32,
}

impl PeerLogAlert {
    pub fn log_message(&self) -> (r: &str)
        ensures
            r@ == self.message@,
    {
        self.message.as_str()
    }

    pub fn event_type(&self) -> (r: i32)
        ensures
            r == self.event_type,
    {
        self.event_type
    }

    pub fn direction(&self) -> (r: i32)
        ensures
            r == self.direction,
    {
        self.direction
    }
}

/// A torrent changed state.
#[derive(Clone, Debug)]
pub struct StateChangedAlert {
    pub state: i32,
    pub prev_state: i32,
}

impl StateChangedAlert {
    pub fn state(&self) -> (r: i32)
        ensures
            r == self.state,
    {
        self.state
    }

    pub fn prev_state(&self) -> (r: i32)
        ensures
            r == self.prev_state,
    {
        self.prev_state
    }
}

/// A torrent entered an error state.
#[derive(Clone, Debug)]
pub struct TorrentErrorAlert {
    pub error: CtError,
    pub filename: String,
}

impl TorrentErrorAlert {
    pub fn error(&self) -> (r: Option<Error>)
        ensures
            option_error_view(r) == self.error.spec_error(),
    {
        self.error.to_error()
    }

    pub fn filename(&self) -> (r: &str)
        ensures
            r@ == self.filename@,
    {
        self.filename.as_str()
    }
}

/// A torrent's files were deleted.
#[derive(Clone, Debug)]
pub struct TorrentDeletedAlert {
    pub info_hashes: CtInfoHash,
}

impl TorrentDeletedAlert {
    pub fn info_hashes(&self) -> (r: InfoHash)
        ensures
            r@ == self.info_hashes.spec_info_hash(),
    {
        self.info_hashes.to_info_hash()
    }
}

/// Deleting a torrent's files failed.
#[derive(Clone, Debug)]
pub struct TorrentDeleteFailedAlert {
    pub error: CtError,
    pub info_hashes: CtInfoHash,
}

impl TorrentDeleteFailedAlert {
    pub fn error(&self) -> (r: Option<Error>)
        ensures
            option_error_view(r) == self.error.spec_error(),
    {
        self.error.to_error()
    }

    pub fn info_hashes(&self) -> (r: InfoHash)
        ensures
            r@ == self.info_hashes.spec_info_hash(),
    {
        self.info_hashes.to_info_hash()
    }
}

/// A performance warning.
#[derive(Clone, Debug)]
pub struct PerformanceAlert {
    pub warning_code: i32,
}

impl PerformanceAlert {
    pub fn warning_code(&self) -> (r: i32)
        ensures
            r == self.warning_code,
    {
        self.warning_code
    }
}

/// Fetching metadata (magnet) failed.
#[derive(Clone, Debug)]
pub struct MetadataFailedAlert {
    pub error: CtError,
}

impl MetadataFailedAlert {
    pub fn error(&self) -> (r: Option<Error>)
        ensures
            option_error_view(r) == self.error.spec_error(),
    {
        self.error.to_error()
    }
}

/// Resume data was rejected.
#[derive(Clone, Debug)]
pub struct FastresumeRejectedAlert {
    pub error: CtError,
    pub file_path: String,
    pub operation: i32,
}

impl FastresumeRejectedAlert {
    pub fn error(&self) -> (r: Option<Error>)
        ensures
            option_error_view(r) == self.error.spec_error(),
    {
        self.error.to_error()
    }

    pub fn file_path(&self) -> (r: &str)
        ensures
            r@ == self.file_path@,
    {
        self.file_path.as_str()
    }

    pub fn operation(&self) -> (r: i32)
        ensures
            r == self.operation,
    {
        self.operation
    }
}

/// Generating resume data failed.
#[derive(Clone, Debug)]
pub struct SaveResumeDataFailedAlert {
    pub error: CtError,
}

impl SaveResumeDataFailedAlert {
    pub fn error(&self) -> (r: Option<Error>)
        ensures
            option_error_view(r) == self.error.spec_error(),
    {
        self.error.to_error()
    }
}

/// Status snapshots of the torrents that changed since the last update.
#[derive(Clone, Debug)]
pub struct StateUpdateAlert {
    pub count: usize,
}

impl StateUpdateAlert {
    /// The number of entries in this snapshot.
    pub fn len(&self) -> (r: usize)
        ensures
            r == self.count,
    {
        self.count
    }

    pub fn is_empty(&self) -> (r: bool)
        ensures
            r == (self.count == 0),
    {
        self.count == 0
    }
}

/// The torrent's currently connected peers.
#[derive(Clone, Debug)]
pub struct PeerInfoAlert {
    pub count: usize,
}

impl PeerInfoAlert {
    /// The number of entries in this snapshot.
    pub fn len(&self) -> (r: usize)
        ensures
            r == self.count,
    {
        self.count
    }

    pub fn is_empty(&self) -> (r: bool)
        ensures
            r == (self.count == 0),
    {
        self.count == 0
    }
}

/// Bytes completed per file.
#[derive(Clone, Debug)]
pub struct FileProgressAlert {
    pub progress: Vec<i64>,
}

impl FileProgressAlert {
    pub fn progress(&self) -> (r: &[i64])
        ensures
            r@ == self.progress@,
    {
        self.progress.as_slice()
    }
}

/// Response to `read_piece`.
#[derive(Clone, Debug)]
pub struct ReadPieceAlert {
    pub error: CtError,
    pub piece: i32,
    pub buffer: Vec<u8>,
}

impl ReadPieceAlert {
    pub fn error(&self) -> (r: Option<Error>)
        ensures
            option_error_view(r) == self.error.spec_error(),
    {
        self.error.to_error()
    }

    pub fn piece(&self) -> (r: i32)
        ensures
            r == self.piece,
    {
        self.piece
    }

    /// The piece data (empty on failure).
    pub fn data(&self) -> (r: &[u8])
        ensures
            r@ == self.buffer@,
    {
        self.buffer.as_slice()
    }
}

/// A piece completed and passed its hash check.
#[derive(Clone, Debug)]
pub struct PieceFinishedAlert {
    pub piece_index: i32,
}

impl PieceFinishedAlert {
    pub fn piece_index(&self) -> (r: i32)
        ensures
            r == self.piece_index,
    {
        self.piece_index
    }
}

/// A piece failed its hash check.
#[derive(Clone, Debug)]
pub struct HashFailedAlert {
    pub piece_index: i32,
}

impl HashFailedAlert {
    pub fn piece_index(&self) -> (r: i32)
        ensures
            r == self.piece_index,
    {
        self.piece_index
    }
}

/// A block event (finished, downloading, timeout, ...: the alert type tells which).
#[derive(Clone, Debug)]
pub struct BlockAlert {
    pub block_index: i32,
    pub piece_index: i32,
}

impl BlockAlert {
    pub fn block_index(&self) -> (r: i32)
        ensures
            r == self.block_index,
    {
        self.block_index
    }

    pub fn piece_index(&self) -> (r: i32)
        ensures
            r == self.piece_index,
    {
        self.piece_index
    }
}

/// A peer sent an invalid request.
#[derive(Clone, Debug)]
pub struct InvalidRequestAlert {
    pub request: PeerRequest,
    pub we_have: bool,
    pub peer_interested: bool,
    pub withheld: bool,
}

impl InvalidRequestAlert {
    pub fn request(&self) -> (r: PeerRequest)
        ensures
            r == self.request,
    {
        self.request
    }

    pub fn we_have(&self) -> (r: bool)
        ensures
            r == self.we_have,
    {
        self.we_have
    }

    pub fn peer_interested(&self) -> (r: bool)
        ensures
            r == self.peer_interested,
    {
        self.peer_interested
    }

    pub fn withheld(&self) -> (r: bool)
        ensures
            r == self.withheld,
    {
        self.withheld
    }
}

/// An incoming block request while those alerts are enabled.
#[derive(Clone, Debug)]
pub struct IncomingRequestAlert {
    pub request: PeerRequest,
}

impl IncomingRequestAlert {
    pub fn request(&self) -> (r: PeerRequest)
        ensures
            r == self.request,
    {
        self.request
    }
}

/// A file finished downloading.
#[derive(Clone, Debug)]
pub struct FileCompletedAlert {
    pub index: i32,
}

impl FileCompletedAlert {
    pub fn index(&self) -> (r: i32)
        ensures
            r == self.index,
    {
        self.index
    }
}

/// A file was renamed.
#[derive(Clone, Debug)]
pub struct FileRenamedAlert {
    pub index: i32,
    pub new_name: String,
    pub old_name: String,
}

impl FileRenamedAlert {
    pub fn index(&self) -> (r: i32)
        ensures
            r == self.index,
    {
        self.index
    }

    pub fn new_name(&self) -> (r: &str)
        ensures
            r@ == self.new_name@,
    {
        self.new_name.as_str()
    }

    pub fn old_name(&self) -> (r: &str)
        ensures
            r@ == self.old_name@,
    {
        self.old_name.as_str()
    }
}

/// Renaming a file failed.
#[derive(Clone, Debug)]
pub struct FileRenameFailedAlert {
    pub index: i32,
    pub error: CtError,
}

impl FileRenameFailedAlert {
    pub fn index(&self) -> (r: i32)
        ensures
            r == self.index,
    {
        self.index
    }

    pub fn error(&self) -> (r: Option<Error>)
        ensures
            option_error_view(r) == self.error.spec_error(),
    {
        self.error.to_error()
    }
}

/// A file-level I/O error.
#[derive(Clone, Debug)]
pub struct FileErrorAlert {
    pub error: CtError,
    pub filename: String,
    pub operation: i32,
}

impl FileErrorAlert {
    pub fn error(&self) -> (r: Option<Error>)
        ensures
            option_error_view(r) == self.error.spec_error(),
    {
        self.error.to_error()
    }

    pub fn filename(&self) -> (r: &str)
        ensures
            r@ == self.filename@,
    {
        self.filename.as_str()
    }

    pub fn operation(&self) -> (r: i32)
        ensures
            r == self.operation,
    {
        self.operation
    }
}

/// Storage was moved to a new path.
#[derive(Clone, Debug)]
pub struct StorageMovedAlert {
    pub storage_path: String,
    pub old_path: String,
}

impl StorageMovedAlert {
    pub fn storage_path(&self) -> (r: &str)
        ensures
            r@ == self.storage_path@,
    {
        self.storage_path.as_str()
    }

    pub fn old_path(&self) -> (r: &str)
        ensures
            r@ == self.old_path@,
    {
        self.old_path.as_str()
    }
}

/// Moving storage failed.
#[derive(Clone, Debug)]
pub struct StorageMovedFailedAlert {
    pub error: CtError,
    pub file_path: String,
    pub operation: i32,
}

impl StorageMovedFailedAlert {
    pub fn error(&self) -> (r: Option<Error>)
        ensures
            option_error_view(r) == self.error.spec_error(),
    {
        self.error.to_error()
    }

    pub fn file_path(&self) -> (r: &str)
        ensures
            r@ == self.file_path@,
    {
        self.file_path.as_str()
    }

    pub fn operation(&self) -> (r: i32)
        ensures
            r == self.operation,
    {
        self.operation
    }
}

/// A peer connection was established.
#[derive(Clone, Debug)]
pub struct PeerConnectAlert {
    pub direction: i32,
    pub socket_type: i32,
}

impl PeerConnectAlert {
    pub fn direction(&self) -> (r: i32)
        ensures
            r == self.direction,
    {
        self.direction
    }

    pub fn socket_type(&self) -> (r: i32)
        ensures
            r == self.socket_type,
    {
        self.socket_type
    }
}

/// A peer disconnected.
#[derive(Clone, Debug)]
pub struct PeerDisconnectedAlert {
    pub socket_type: i32,
    pub operation: i32,
    pub error: CtError,
    pub reason: i32,
}

impl PeerDisconnectedAlert {
    pub fn socket_type(&self) -> (r: i32)
        ensures
            r == self.socket_type,
    {
        self.socket_type
    }

    pub fn operation(&self) -> (r: i32)
        ensures
            r == self.operation,
    {
        self.operation
    }

    pub fn error(&self) -> (r: Option<Error>)
        ensures
            option_error_view(r) == self.error.spec_error(),
    {
        self.error.to_error()
    }

    pub fn reason(&self) -> (r: i32)
        ensures
            r == self.reason,
    {
        self.reason
    }
}

/// A peer-level protocol error.
#[derive(Clone, Debug)]
pub struct PeerErrorAlert {
    pub operation: i32,
    pub error: CtError,
}

impl PeerErrorAlert {
    pub fn operation(&self) -> (r: i32)
        ensures
            r == self.operation,
    {
        self.operation
    }

    pub fn error(&self) -> (r: Option<Error>)
        ensures
            option_error_view(r) == self.error.spec_error(),
    {
        self.error.to_error()
    }
}

/// A peer was blocked from connecting.
#[derive(Clone, Debug)]
pub struct PeerBlockedAlert {
    pub reason: i32,
}

impl PeerBlockedAlert {
    pub fn reason(&self) -> (r: i32)
        ensures
            r == self.reason,
    {
        self.reason
    }
}

/// A tracker announce failed.
#[derive(Clone, Debug)]
pub struct TrackerErrorAlert {
    pub times_in_row: i32,
    pub error: CtError,
    pub operation: i32,
    pub failure_reason: String,
}

impl TrackerErrorAlert {
    pub fn times_in_row(&self) -> (r: i32)
        ensures
            r == self.times_in_row,
    {
        self.times_in_row
    }

    pub fn error(&self) -> (r: Option<Error>)
        ensures
            option_error_view(r) == self.error.spec_error(),
    {
        self.error.to_error()
    }

    pub fn operation(&self) -> (r: i32)
        ensures
            r == self.operation,
    {
        self.operation
    }

    pub fn failure_reason(&self) -> (r: &str)
        ensures
            r@ == self.failure_reason@,
    {
        self.failure_reason.as_str()
    }
}

/// A tracker sent a warning.
#[derive(Clone, Debug)]
pub struct TrackerWarningAlert {
    pub warning_message: String,
}

impl TrackerWarningAlert {
    pub fn warning_message(&self) -> (r: &str)
        ensures
            r@ == self.warning_message@,
    {
        self.warning_message.as_str()
    }
}

/// A tracker announce succeeded.
#[derive(Clone, Debug)]
pub struct TrackerReplyAlert {
    pub num_peers: i32,
}

impl TrackerReplyAlert {
    pub fn num_peers(&self) -> (r: i32)
        ensures
            r == self.num_peers,
    {
        self.num_peers
    }
}

/// A tracker announce was sent.
#[derive(Clone, Debug)]
pub struct TrackerAnnounceAlert {
    pub event: i32,
}

impl TrackerAnnounceAlert {
    pub fn event(&self) -> (r: i32)
        ensures
            r == self.event,
    {
        self.event
    }
}

/// A scrape succeeded.
#[derive(Clone, Debug)]
pub struct ScrapeReplyAlert {
    pub incomplete: i32,
    pub complete: i32,
}

impl ScrapeReplyAlert {
    pub fn incomplete(&self) -> (r: i32)
        ensures
            r == self.incomplete,
    {
        self.incomplete
    }

    pub fn complete(&self) -> (r: i32)
        ensures
            r == self.complete,
    {
        self.complete
    }
}

/// A scrape failed.
#[derive(Clone, Debug)]
pub struct ScrapeFailedAlert {
    pub error: CtError,
    pub error_message: String,
}

impl ScrapeFailedAlert {
    pub fn error(&self) -> (r: Option<Error>)
        ensures
            option_error_view(r) == self.error.spec_error(),
    {
        self.error.to_error()
    }

    pub fn error_message(&self) -> (r: &str)
        ensures
            r@ == self.error_message@,
    {
        self.error_message.as_str()
    }
}

/// The DHT returned peers for a torrent.
#[derive(Clone, Debug)]
pub struct DhtReplyAlert {
    pub num_peers: i32,
}

impl DhtReplyAlert {
    pub fn num_peers(&self) -> (r: i32)
        ensures
            r == self.num_peers,
    {
        self.num_peers
    }
}

/// A tracker assigned us a tracker id.
#[derive(Clone, Debug)]
pub struct TrackeridAlert {
    pub trackerid: String,
}

impl TrackeridAlert {
    pub fn trackerid(&self) -> (r: &str)
        ensures
            r@ == self.trackerid@,
    {
        self.trackerid.as_str()
    }
}

/// A web seed reported an error.
#[derive(Clone, Debug)]
pub struct UrlSeedAlert {
    pub server_url: String,
    pub error_message: String,
    pub error: CtError,
}

impl UrlSeedAlert {
    pub fn server_url(&self) -> (r: &str)
        ensures
            r@ == self.server_url@,
    {
        self.server_url.as_str()
    }

    pub fn error_message(&self) -> (r: &str)
        ensures
            r@ == self.error_message@,
    {
        self.error_message.as_str()
    }

    pub fn error(&self) -> (r: Option<Error>)
        ensures
            option_error_view(r) == self.error.spec_error(),
    {
        self.error.to_error()
    }
}

/// A DHT node announced to an info-hash.
#[derive(Clone, Debug)]
pub struct DhtAnnounceAlert {
    pub info_hash: Sha1Hash,
}

impl DhtAnnounceAlert {
    pub fn info_hash(&self) -> (r: Sha1Hash)
        ensures
            r == self.info_hash,
    {
        self.info_hash
    }
}

/// A DHT get_peers request was received.
#[derive(Clone, Debug)]
pub struct DhtGetPeersAlert {
    pub info_hash: Sha1Hash,
}

impl DhtGetPeersAlert {
    pub fn info_hash(&self) -> (r: Sha1Hash)
        ensures
            r == self.info_hash,
    {
        self.info_hash
    }
}

/// A DHT-level error.
#[derive(Clone, Debug)]
pub struct DhtErrorAlert {
    pub error: CtError,
    pub operation: i32,
}

impl DhtErrorAlert {
    pub fn error(&self) -> (r: Option<Error>)
        ensures
            option_error_view(r) == self.error.spec_error(),
    {
        self.error.to_error()
    }

    pub fn operation(&self) -> (r: i32)
        ensures
            r == self.operation,
    {
        self.operation
    }
}

/// A DHT put completed.
#[derive(Clone, Debug)]
pub struct DhtPutAlert {
    pub target: Sha1Hash,
    pub public_key: [u8; 32],
    pub signature: [u8; 64],
    pub salt: Vec<u8>,
    pub seq: i64,
    pub num_success: i32,
}

impl DhtPutAlert {
    pub fn target(&self) -> (r: Sha1Hash)
        ensures
            r == self.target,
    {
        self.target
    }

    pub fn public_key(&self) -> (r: &[u8; 32])
        ensures
            *r == self.public_key,
    {
        &self.public_key
    }

    pub fn signature(&self) -> (r: &[u8; 64])
        ensures
            *r == self.signature,
    {
        &self.signature
    }

    pub fn salt(&self) -> (r: &[u8])
        ensures
            r@ == self.salt@,
    {
        self.salt.as_slice()
    }

    pub fn seq(&self) -> (r: i64)
        ensures
            r == self.seq,
    {
        self.seq
    }

    pub fn num_success(&self) -> (r: i32)
        ensures
            r == self.num_success,
    {
        self.num_success
    }
}

/// An outgoing DHT get_peers request.
#[derive(Clone, Debug)]
pub struct DhtOutgoingGetPeersAlert {
    pub info_hash: Sha1Hash,
    pub obfuscated_info_hash: Sha1Hash,
}

impl DhtOutgoingGetPeersAlert {
    pub fn info_hash(&self) -> (r: Sha1Hash)
        ensures
            r == self.info_hash,
    {
        self.info_hash
    }

    pub fn obfuscated_info_hash(&self) -> (r: Sha1Hash)
        ensures
            r == self.obfuscated_info_hash,
    {
        self.obfuscated_info_hash
    }
}

/// A raw DHT packet (requires the DHT-log alert category).
#[derive(Clone, Debug)]
pub struct DhtPktAlert {
    pub packet: Vec<u8>,
    pub direction: i32,
}

impl DhtPktAlert {
    pub fn packet(&self) -> (r: &[u8])
        ensures
            r@ == self.packet@,
    {
        self.packet.as_slice()
    }

    pub fn direction(&self) -> (r: i32)
        ensures
            r == self.direction,
    {
        self.direction
    }
}

} // verus!
