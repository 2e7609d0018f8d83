//! The plain value types of torrent parameters: flags, storage mode,
//! download priorities and parser limits.

use vstd::prelude::*;

use crate::alerts::requests::binding_error;
use crate::error::Error;
use crate::text::{int_text, push_int, push_str, string_of};

verus! {

/// `lt::torrent_flags_t` bits, for [`TorrentFlags::from_bits`].
pub const TORRENT_FLAG_SEED_MODE: u64 = 0x1;
pub const TORRENT_FLAG_UPLOAD_MODE: u64 = 0x2;
pub const TORRENT_FLAG_SHARE_MODE: u64 = 0x4;
pub const TORRENT_FLAG_APPLY_IP_FILTER: u64 = 0x8;
pub const TORRENT_FLAG_PAUSED: u64 = 0x10;
pub const TORRENT_FLAG_AUTO_MANAGED: u64 = 0x20;
pub const TORRENT_FLAG_DUPLICATE_IS_ERROR: u64 = 0x40;
pub const TORRENT_FLAG_UPDATE_SUBSCRIBE: u64 = 0x80;
pub const TORRENT_FLAG_SUPER_SEEDING: u64 = 0x100;
pub const TORRENT_FLAG_SEQUENTIAL_DOWNLOAD: u64 = 0x200;
pub const TORRENT_FLAG_STOP_WHEN_READY: u64 = 0x400;
pub const TORRENT_FLAG_DISABLE_DHT: u64 = 0x8_0000;
pub const TORRENT_FLAG_DISABLE_LSD: u64 = 0x10_0000;
pub const TORRENT_FLAG_DISABLE_PEX: u64 = 0x20_0000;
pub const TORRENT_FLAG_NO_VERIFY_FILES: u64 = 0x40_0000;
pub const TORRENT_FLAG_DEFAULT_DONT_DOWNLOAD: u64 = 0x80_0000;
pub const TORRENT_FLAG_I2P_TORRENT: u64 = 0x100_0000;
pub const TORRENT_FLAG_NEED_SAVE_RESUME: u64 = 0x2000;
pub const TORRENT_FLAG_DISABLE_V1_HASHES: u64 = 0x200_0000;
pub const TORRENT_FLAGS_ALL: u64 = 0xffff_ffff_ffff_ffff;
/// The flags a fresh `AddTorrentParams` starts with: subscribed to
/// updates, auto-managed, paused, applying the IP filter and needing a
/// resume-data save.
pub const TORRENT_FLAGS_DEFAULT: u64 = 0x20b8;

/// Flags controlling a torrent's behavior and how it is added (`lt::torrent_flags_t`).
#[derive(Clone, Copy, Debug, PartialEq, Eq, Hash, Structural)]
pub struct TorrentFlags(u64);

impl View for TorrentFlags {
    type V = u64;

    /// The flag bits.
    closed spec fn view(&self) -> u64 {
        self.0
    }
}

impl TorrentFlags {
    pub fn empty() -> (r: TorrentFlags)
        ensures
            r@ == 0,
    {
        TorrentFlags(0)
    }

    pub fn bits(self) -> (r: u64)
        ensures
            r == self@,
    {
        self.0
    }

    pub fn from_bits(bits: u64) -> (r: TorrentFlags)
        ensures
            r@ == bits,
    {
        TorrentFlags(bits)
    }

    /// Whether every flag of `other` is set in `self`.
    pub fn contains(self, other: TorrentFlags) -> (r: bool)
        ensures
            r == (self@ & other@ == other@),
    {
        self.0 & other.0 == other.0
    }

    /// Whether `self` and `other` share a flag.
    pub fn intersects(self, other: TorrentFlags) -> (r: bool)
        ensures
            r == (self@ & other@ != 0),
    {
        self.0 & other.0 != 0
    }

    /// `self | other`.
    pub fn union(self, other: TorrentFlags) -> (r: TorrentFlags)
        ensures
            r@ == self@ | other@,
    {
        TorrentFlags(self.0 | other.0)
    }

    /// `self & other`.
    pub fn intersection(self, other: TorrentFlags) -> (r: TorrentFlags)
        ensures
            r@ == self@ & other@,
    {
        TorrentFlags(self.0 & other.0)
    }

    /// `!self`.
    pub fn complement(self) -> (r: TorrentFlags)
        ensures
            r@ == !self@,
    {
        TorrentFlags(!self.0)
    }
}

/// Setting flags and then asking for them finds them set, and an
/// intersection is contained in both sides.
pub proof fn lemma_flags_union_contains(a: u64, b: u64)
    ensures
        (a | b) & b == b,
        (a | b) & a == a,
        a & (a & b) == a & b,
        b & (a & b) == a & b,
{
    assert((a | b) & b == b) by (bit_vector);
    assert((a | b) & a == a) by (bit_vector);
    assert(a & (a & b) == a & b) by (bit_vector);
    assert(b & (a & b) == a & b) by (bit_vector);
}

/// How storage is allocated for a torrent (`lt::storage_mode_t`).
#[derive(Clone, Copy, Debug, PartialEq, Eq, Hash, Structural)]
pub enum StorageMode {
    /// All files are pre-allocated up front.
    Allocate,
    /// Files are allocated sparsely, growing as data arrives (default).
    Sparse,
}

/// The `lt::storage_mode_t` value of a storage mode.
pub open spec fn storage_mode_code(m: StorageMode) -> i32 {
    match m {
        StorageMode::Allocate => 0,
        StorageMode::Sparse => 1,
    }
}

impl StorageMode {
    /// The `lt::storage_mode_t` value.
    pub fn to_raw(self) -> (r: i32)
        ensures
            r == storage_mode_code(self),
    {
        match self {
            StorageMode::Allocate => 0,
            StorageMode::Sparse => 1,
        }
    }

    /// The mode an `lt::storage_mode_t` value stands for: allocate for its
    /// code, sparse for anything else.
    pub fn from_raw(raw: i32) -> (r: StorageMode)
        ensures
            raw == 0 ==> r == StorageMode::Allocate,
            raw != 0 ==> r == StorageMode::Sparse,
    {
        if raw == 0 {
            StorageMode::Allocate
        } else {
            StorageMode::Sparse
        }
    }
}

/// Each mode is sent as libtorrent's `storage_mode_t` constant for it
/// (allocate as 0, sparse as 1), and a sent mode reads back as itself:
/// exactly allocate is sent as the constant the reader takes for
/// allocate.
pub proof fn lemma_storage_mode_codes(m: StorageMode)
    ensures
        storage_mode_code(StorageMode::Allocate) == 0,
        storage_mode_code(StorageMode::Sparse) == 1,
        (storage_mode_code(m) == 0) == (m == StorageMode::Allocate),
{
}

impl Default for StorageMode {
    fn default() -> (r: StorageMode)
        ensures
            r == StorageMode::Sparse,
    {
        StorageMode::Sparse
    }
}

/// A file or piece download priority (`lt::download_priority_t`): 0
/// disables downloading, 1 is the lowest and 7 the highest priority.
/// Values outside 0..=7 are unrepresentable (libtorrent only asserts the
/// range).
#[derive(Clone, Copy, Debug, PartialEq, Eq, PartialOrd, Ord, Hash, Structural)]
pub struct DownloadPriority(u8);

/// The highest download priority.
pub const PRIORITY_TOP: u8 = 7;
/// The priority files and pieces start with.
pub const PRIORITY_DEFAULT: u8 = 4;
pub const PRIORITY_LOW: u8 = 1;
pub const PRIORITY_DONT_DOWNLOAD: u8 = 0;

impl View for DownloadPriority {
    type V = u8;

    /// The raw priority value.
    closed spec fn view(&self) -> u8 {
        self.0
    }
}

impl DownloadPriority {
    #[verifier::type_invariant]
    spec fn in_range(self) -> bool {
        self.0 <= PRIORITY_TOP
    }

    /// A priority from its raw value; `None` outside 0..=7.
    pub fn new(value: u8) -> (r: Option<DownloadPriority>)
        ensures
            value <= PRIORITY_TOP ==> (r matches Some(p) && p@ == value),
            value > PRIORITY_TOP ==> r is None,
    {
        if value <= PRIORITY_TOP {
            Some(DownloadPriority(value))
        } else {
            None
        }
    }

    /// The raw priority value (0..=7).
    pub fn value(self) -> (r: u8)
        ensures
            r == self@,
            r <= PRIORITY_TOP,
    {
        proof {
            use_type_invariant(self);
        }
        self.0
    }

    /// The highest priority.
    pub fn top() -> (r: DownloadPriority)
        ensures
            r@ == PRIORITY_TOP,
    {
        DownloadPriority(PRIORITY_TOP)
    }

    pub fn from_reported(raw: u8) -> (r: DownloadPriority)
        ensures
            raw <= PRIORITY_TOP ==> r@ == raw,
            raw > PRIORITY_TOP ==> r@ == PRIORITY_TOP,
    {
        match DownloadPriority::new(raw) {
            Some(p) => p,
            None => DownloadPriority::top(),
        }
    }
}

impl TryFrom<u8> for DownloadPriority {
    type Error = Error;

    /// A priority from its raw value; an error outside 0..=7.
    fn try_from(value: u8) -> (r: Result<DownloadPriority, Error>)
        ensures
            value <= PRIORITY_TOP ==> (r matches Ok(p) && p@ == value),
            value > PRIORITY_TOP ==> (r matches Err(e) && e@ == binding_error(
                "download priority is outside 0..=7"@,
            )),
    {
        match DownloadPriority::new(value) {
            Some(p) => Ok(p),
            None => Err(Error::binding("download priority is outside 0..=7")),
        }
    }
}

/// What `try_from` gives is stated by its own `ensures`: its error holds a
/// `String`, whose value a spec function cannot build, so no
/// `try_from_spec` is claimed.
impl vstd::std_specs::convert::TryFromSpecImpl<u8> for DownloadPriority {
    open spec fn obeys_try_from_spec() -> bool {
        false
    }

    open spec fn try_from_spec(v: u8) -> Result<DownloadPriority, Error> {
        arbitrary()
    }
}

impl From<DownloadPriority> for u8 {
    /// The raw priority value (0..=7).
    fn from(priority: DownloadPriority) -> (r: u8)
        ensures
            r == priority@,
    {
        priority.value()
    }
}

impl vstd::std_specs::convert::FromSpecImpl<DownloadPriority> for u8 {
    open spec fn obeys_from_spec() -> bool {
        true
    }

    open spec fn from_spec(v: DownloadPriority) -> u8 {
        v@
    }
}

/// A priority is determined by its value: `u8::from` gives that value,
/// and two priorities of the same value are the same priority (so `new`
/// of a priority's value gives the priority back).
pub proof fn lemma_priority_value_round_trip(p: DownloadPriority, q: DownloadPriority)
    ensures
        <u8 as vstd::std_specs::convert::FromSpec<DownloadPriority>>::obeys_from_spec(),
        <u8 as vstd::std_specs::convert::FromSpec<DownloadPriority>>::from_spec(p) == p@,
        q@ == p@ ==> q == p,
{
}

impl Default for DownloadPriority {
    fn default() -> (r: DownloadPriority)
        ensures
            r@ == PRIORITY_DEFAULT,
    {
        DownloadPriority(PRIORITY_DEFAULT)
    }
}

/// Parser limits protecting against maliciously crafted .torrent data
/// (`lt::load_torrent_limits`).
#[derive(Clone, Copy, Debug, PartialEq, Eq, Structural)]
pub struct LoadTorrentLimits {
    /// The maximum size of a .torrent file to load into RAM.
    pub max_buffer_size: i32,
    /// The maximum number of pieces allowed in the torrent.
    pub max_pieces: i32,
    /// The maximum recursion depth in the bdecoded structure.
    pub max_decode_depth: i32,
    /// The maximum number of bdecode tokens.
    pub max_decode_tokens: i32,
    /// The maximum number of files sharing the same filename.
    pub max_duplicate_filenames: i32,
    /// The maximum depth of the directory structure.
    pub max_directory_depth: i32,
}

impl Default for LoadTorrentLimits {
    /// libtorrent's defaults: 10 MiB buffers, 2^22 pieces, depth 100,
    /// 3,000,000 tokens, 8000 duplicate names, directory depth 100.
    fn default() -> (r: LoadTorrentLimits)
        ensures
            r == (LoadTorrentLimits {
                max_buffer_size: 10485760,
                max_pieces: 4194304,
                max_decode_depth: 100,
                max_decode_tokens: 3000000,
                max_duplicate_filenames: 8000,
                max_directory_depth: 100,
            }),
    {
        LoadTorrentLimits {
            max_buffer_size: 10485760,
            max_pieces: 4194304,
            max_decode_depth: 100,
            max_decode_tokens: 3000000,
            max_duplicate_filenames: 8000,
            max_directory_depth: 100,
        }
    }
}

/// Checks a .torrent buffer against the parser limits before parsing:
/// buffers larger than `limits.max_buffer_size` are rejected (a negative
/// limit admits nothing).
pub fn check_torrent_buffer(len: usize, limits: &LoadTorrentLimits) -> (r: Result<(), Error>)
    ensures
        (limits.max_buffer_size >= 0 && len <= limits.max_buffer_size) ==> r is Ok,
        !(limits.max_buffer_size >= 0 && len <= limits.max_buffer_size) ==> (r matches Err(e)
            && e@ == binding_error("torrent buffer exceeds the max_buffer_size limit"@)),
{
    if limits.max_buffer_size >= 0 && (len as u64) <= (limits.max_buffer_size as u64) {
        Ok(())
    } else {
        Err(Error::binding("torrent buffer exceeds the max_buffer_size limit"))
    }
}

/// The magnet URI libtorrent generated: it generates an empty one when no
/// info-hash is available, which is an error.
pub fn check_magnet_uri(uri: String) -> (r: Result<String, Error>)
    ensures
        uri@.len() > 0 ==> (r matches Ok(u) && u@ == uri@),
        uri@.len() == 0 ==> (r matches Err(e) && e@ == binding_error(
            "cannot make a magnet URI without an info-hash"@,
        )),
{
    if uri.as_str().is_empty() {
        Err(Error::binding("cannot make a magnet URI without an info-hash"))
    } else {
        Ok(uri)
    }
}

/// Checks a file rename: the index must be non-negative and, when the
/// metadata is present (`num_files` is its file count), within range.
pub fn check_renamed_file(file: i32, num_files: Option<i32>) -> (r: Result<(), Error>)
    ensures
        file < 0 ==> (r matches Err(e) && e@ == binding_error(
            "file index "@ + int_text(file as int) + " is negative"@,
        )),
        file >= 0 ==> match num_files {
            None => r is Ok,
            Some(n) => if file < n {
                r is Ok
            } else {
                r matches Err(e) && e@ == binding_error(
                    "file index "@ + int_text(file as int) + " is outside 0.."@ + int_text(n as int),
                )
            },
        },
{
    if file < 0 {
        let mut m = string_of("file index ");
        push_int(&mut m, file as i64);
        push_str(&mut m, " is negative");
        return Err(Error::binding(m.as_str()));
    }
    match num_files {
        Some(count) => {
            if file >= count {
                let mut m = string_of("file index ");
                push_int(&mut m, file as i64);
                push_str(&mut m, " is outside 0..");
                push_int(&mut m, count as i64);
                return Err(Error::binding(m.as_str()));
            }
            Ok(())
        },
        None => Ok(()),
    }
}

} // verus!
