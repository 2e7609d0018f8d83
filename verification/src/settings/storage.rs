//! Disk I/O, storage, hashing, piece picking and metadata.

use vstd::prelude::*;

use crate::settings::enums::{IoBufferMode, MmapWriteMode, SuggestMode, io_buffer_mode_code, io_buffer_mode_of_code, mmap_write_mode_code, mmap_write_mode_of_code, suggest_mode_code, suggest_mode_of_code};
use crate::settings::error::{in_range, range_message, SettingsError, SettingsErrorView};
use crate::settings::table::{AIO_THREADS, ALLOWED_FAST_SET_SIZE, AUTO_SEQUENTIAL, CHECKING_MEM_USAGE, CLOSE_FILE_INTERVAL, DISABLE_HASH_CHECKS, DISK_DISABLE_COPY_ON_WRITE, DISK_IO_READ_MODE, DISK_IO_WRITE_MODE, DISK_WRITE_MODE, ENABLE_SET_FILE_VALID_DATA, FILE_POOL_SIZE, HASHING_THREADS, INITIAL_PICKER_THRESHOLD, MAX_ALLOWED_IN_REQUEST_QUEUE, MAX_METADATA_SIZE, MAX_OUT_REQUEST_QUEUE, MAX_PIECE_COUNT, MAX_QUEUED_DISK_BYTES, MAX_SUGGEST_PIECES, METADATA_TOKEN_LIMIT, MMAP_FILE_SIZE_CUTOFF, NO_ATIME_STORAGE, NO_RECHECK_INCOMPLETE_RESUME, OPTIMISTIC_DISK_RETRY, PIECE_EXTENT_AFFINITY, PIECE_TIMEOUT, PREDICTIVE_PIECE_ANNOUNCE, PRIORITIZE_PARTIAL_PIECES, REPORT_REDUNDANT_BYTES, REPORT_TRUE_DOWNLOADED, REQUEST_QUEUE_TIME, REQUEST_TIMEOUT, SEEDING_PIECE_QUOTA, SEND_REDUNDANT_HAVE, SHARE_MODE_TARGET, STRICT_END_GAME_MODE, SUGGEST_MODE, SUPPORT_SHARE_MODE, WHOLE_PIECES_THRESHOLD};
use crate::settings::{opt_str_view, SettingsPack};

verus! {

impl SettingsPack {
    /// Send `have` messages to peers that already have the piece; mainly
    /// useful for collecting statistics.
    pub fn send_redundant_have(&mut self, value: bool) -> (r: &mut Self)
        requires
            old(self).wf(),
        ensures
            r.wf(),
            r@ == old(self)@.with_bool(SEND_REDUNDANT_HAVE, value),
            *final(self) == *final(r),
    {
        self.put_bool(SEND_REDUNDANT_HAVE, value);
        self
    }

    /// Reads `send_redundant_have` if set in this pack.
    pub fn get_send_redundant_have(&self) -> (r: Option<bool>)
        requires
            self.wf(),
        ensures
            r == self@.bool_at(SEND_REDUNDANT_HAVE),
    {
        self.bool_at(SEND_REDUNDANT_HAVE)
    }

    /// Pick partial pieces before rarer ones. When false, rare pieces win
    /// unless the number of partial pieces grows out of proportion.
    pub fn prioritize_partial_pieces(&mut self, value: bool) -> (r: &mut Self)
        requires
            old(self).wf(),
        ensures
            r.wf(),
            r@ == old(self)@.with_bool(PRIORITIZE_PARTIAL_PIECES, value),
            *final(self) == *final(r),
    {
        self.put_bool(PRIORITIZE_PARTIAL_PIECES, value);
        self
    }

    /// Reads `prioritize_partial_pieces` if set in this pack.
    pub fn get_prioritize_partial_pieces(&self) -> (r: Option<bool>)
        requires
            self.wf(),
        ensures
            r == self@.bool_at(PRIORITIZE_PARTIAL_PIECES),
    {
        self.bool_at(PRIORITIZE_PARTIAL_PIECES)
    }

    /// Assume all downloaded data is correct, skipping hash checks. Only
    /// useful for simulation and testing.
    pub fn disable_hash_checks(&mut self, value: bool) -> (r: &mut Self)
        requires
            old(self).wf(),
        ensures
            r.wf(),
            r@ == old(self)@.with_bool(DISABLE_HASH_CHECKS, value),
            *final(self) == *final(r),
    {
        self.put_bool(DISABLE_HASH_CHECKS, value);
        self
    }

    /// Reads `disable_hash_checks` if set in this pack.
    pub fn get_disable_hash_checks(&self) -> (r: Option<bool>)
        requires
            self.wf(),
        ensures
            r == self@.bool_at(DISABLE_HASH_CHECKS),
    {
        self.bool_at(DISABLE_HASH_CHECKS)
    }

    /// Linux-only: open files with `O_NOATIME`, which may improve disk
    /// performance.
    pub fn no_atime_storage(&mut self, value: bool) -> (r: &mut Self)
        requires
            old(self).wf(),
        ensures
            r.wf(),
            r@ == old(self)@.with_bool(NO_ATIME_STORAGE, value),
            *final(self) == *final(r),
    {
        self.put_bool(NO_ATIME_STORAGE, value);
        self
    }

    /// Reads `no_atime_storage` if set in this pack.
    pub fn get_no_atime_storage(&self) -> (r: Option<bool>)
        requires
            self.wf(),
        ensures
            r == self@.bool_at(NO_ATIME_STORAGE),
    {
        self.bool_at(NO_ATIME_STORAGE)
    }

    /// Include redundant bytes in the downloaded counter reported to
    /// trackers.
    pub fn report_true_downloaded(&mut self, value: bool) -> (r: &mut Self)
        requires
            old(self).wf(),
        ensures
            r.wf(),
            r@ == old(self)@.with_bool(REPORT_TRUE_DOWNLOADED, value),
            *final(self) == *final(r),
    {
        self.put_bool(REPORT_TRUE_DOWNLOADED, value);
        self
    }

    /// Reads `report_true_downloaded` if set in this pack.
    pub fn get_report_true_downloaded(&self) -> (r: Option<bool>)
        requires
            self.wf(),
        ensures
            r == self@.bool_at(REPORT_TRUE_DOWNLOADED),
    {
        self.bool_at(REPORT_TRUE_DOWNLOADED)
    }

    /// Only request a block twice once every remaining piece has at least
    /// one outstanding request. Reduces redundant downloads at the cost of
    /// some end-game speed; when false, peers are always kept busy even if
    /// it duplicates requests.
    pub fn strict_end_game_mode(&mut self, value: bool) -> (r: &mut Self)
        requires
            old(self).wf(),
        ensures
            r.wf(),
            r@ == old(self)@.with_bool(STRICT_END_GAME_MODE, value),
            *final(self) == *final(r),
    {
        self.put_bool(STRICT_END_GAME_MODE, value);
        self
    }

    /// Reads `strict_end_game_mode` if set in this pack.
    pub fn get_strict_end_game_mode(&self) -> (r: Option<bool>)
        requires
            self.wf(),
        ensures
            r == self@.bool_at(STRICT_END_GAME_MODE),
    {
        self.bool_at(STRICT_END_GAME_MODE)
    }

    /// Skip checking existing files when resume data is incomplete or
    /// missing, assuming no data and going straight to download mode.
    pub fn no_recheck_incomplete_resume(&mut self, value: bool) -> (r: &mut Self)
        requires
            old(self).wf(),
        ensures
            r.wf(),
            r@ == old(self)@.with_bool(NO_RECHECK_INCOMPLETE_RESUME, value),
            *final(self) == *final(r),
    {
        self.put_bool(NO_RECHECK_INCOMPLETE_RESUME, value);
        self
    }

    /// Reads `no_recheck_incomplete_resume` if set in this pack.
    pub fn get_no_recheck_incomplete_resume(&self) -> (r: Option<bool>)
        requires
            self.wf(),
        ensures
            r == self@.bool_at(NO_RECHECK_INCOMPLETE_RESUME),
    {
        self.bool_at(NO_RECHECK_INCOMPLETE_RESUME)
    }

    /// Whether libtorrent advertises share-mode support.
    pub fn support_share_mode(&mut self, value: bool) -> (r: &mut Self)
        requires
            old(self).wf(),
        ensures
            r.wf(),
            r@ == old(self)@.with_bool(SUPPORT_SHARE_MODE, value),
            *final(self) == *final(r),
    {
        self.put_bool(SUPPORT_SHARE_MODE, value);
        self
    }

    /// Reads `support_share_mode` if set in this pack.
    pub fn get_support_share_mode(&self) -> (r: Option<bool>)
        requires
            self.wf(),
        ensures
            r == self@.bool_at(SUPPORT_SHARE_MODE),
    {
        self.bool_at(SUPPORT_SHARE_MODE)
    }

    /// Report the number of redundant bytes to the tracker.
    pub fn report_redundant_bytes(&mut self, value: bool) -> (r: &mut Self)
        requires
            old(self).wf(),
        ensures
            r.wf(),
            r@ == old(self)@.with_bool(REPORT_REDUNDANT_BYTES, value),
            *final(self) == *final(r),
    {
        self.put_bool(REPORT_REDUNDANT_BYTES, value);
        self
    }

    /// Reads `report_redundant_bytes` if set in this pack.
    pub fn get_report_redundant_bytes(&self) -> (r: Option<bool>)
        requires
            self.wf(),
        ensures
            r == self@.bool_at(REPORT_REDUNDANT_BYTES),
    {
        self.bool_at(REPORT_REDUNDANT_BYTES)
    }

    /// Download torrents with very high piece/seed availability
    /// sequentially, which is more efficient for disk I/O.
    pub fn auto_sequential(&mut self, value: bool) -> (r: &mut Self)
        requires
            old(self).wf(),
        ensures
            r.wf(),
            r@ == old(self)@.with_bool(AUTO_SEQUENTIAL, value),
            *final(self) == *final(r),
    {
        self.put_bool(AUTO_SEQUENTIAL, value);
        self
    }

    /// Reads `auto_sequential` if set in this pack.
    pub fn get_auto_sequential(&self) -> (r: Option<bool>)
        requires
            self.wf(),
        ensures
            r == self@.bool_at(AUTO_SEQUENTIAL),
    {
        self.bool_at(AUTO_SEQUENTIAL)
    }

    /// Prefer downloading 4 MiB extents of adjacent pieces, improving disk
    /// I/O throughput for torrents with small pieces.
    pub fn piece_extent_affinity(&mut self, value: bool) -> (r: &mut Self)
        requires
            old(self).wf(),
        ensures
            r.wf(),
            r@ == old(self)@.with_bool(PIECE_EXTENT_AFFINITY, value),
            *final(self) == *final(r),
    {
        self.put_bool(PIECE_EXTENT_AFFINITY, value);
        self
    }

    /// Reads `piece_extent_affinity` if set in this pack.
    pub fn get_piece_extent_affinity(&self) -> (r: Option<bool>)
        requires
            self.wf(),
        ensures
            r == self@.bool_at(PIECE_EXTENT_AFFINITY),
    {
        self.bool_at(PIECE_EXTENT_AFFINITY)
    }

    /// Windows-only: use `SetFileValidData()` to pre-allocate disk space.
    /// Requires Administrator privileges and may reveal previously deleted
    /// data from the disk.
    pub fn enable_set_file_valid_data(&mut self, value: bool) -> (r: &mut Self)
        requires
            old(self).wf(),
        ensures
            r.wf(),
            r@ == old(self)@.with_bool(ENABLE_SET_FILE_VALID_DATA, value),
            *final(self) == *final(r),
    {
        self.put_bool(ENABLE_SET_FILE_VALID_DATA, value);
        self
    }

    /// Reads `enable_set_file_valid_data` if set in this pack.
    pub fn get_enable_set_file_valid_data(&self) -> (r: Option<bool>)
        requires
            self.wf(),
        ensures
            r == self@.bool_at(ENABLE_SET_FILE_VALID_DATA),
    {
        self.bool_at(ENABLE_SET_FILE_VALID_DATA)
    }

    /// Linux-only: set the no-copy-on-write flag (`FS_NOCOW_FL`) on
    /// downloaded files. Mitigates heavy fragmentation on CoW filesystems
    /// like btrfs, but disables checksumming/compression and restricts
    /// reflinks for those files.
    pub fn disk_disable_copy_on_write(&mut self, value: bool) -> (r: &mut Self)
        requires
            old(self).wf(),
        ensures
            r.wf(),
            r@ == old(self)@.with_bool(DISK_DISABLE_COPY_ON_WRITE, value),
            *final(self) == *final(r),
    {
        self.put_bool(DISK_DISABLE_COPY_ON_WRITE, value);
        self
    }

    /// Reads `disk_disable_copy_on_write` if set in this pack.
    pub fn get_disk_disable_copy_on_write(&self) -> (r: Option<bool>)
        requires
            self.wf(),
        ensures
            r == self@.bool_at(DISK_DISABLE_COPY_ON_WRITE),
    {
        self.bool_at(DISK_DISABLE_COPY_ON_WRITE)
    }

    /// Seconds from sending a request until it times out with no piece
    /// response.
    pub fn piece_timeout(&mut self, value: i32) -> (r: &mut Self)
        requires
            old(self).wf(),
        ensures
            r.wf(),
            r@ == old(self)@.with_int(PIECE_TIMEOUT, value),
            *final(self) == *final(r),
    {
        self.put_int(PIECE_TIMEOUT, value);
        self
    }

    /// Reads `piece_timeout` if set in this pack.
    pub fn get_piece_timeout(&self) -> (r: Option<i32>)
        requires
            self.wf(),
        ensures
            r == self@.int_at(PIECE_TIMEOUT),
    {
        self.int_at(PIECE_TIMEOUT)
    }

    /// Seconds a 16 kiB block is expected to arrive within before it is
    /// requested from a different peer.
    pub fn request_timeout(&mut self, value: i32) -> (r: &mut Self)
        requires
            old(self).wf(),
        ensures
            r.wf(),
            r@ == old(self)@.with_int(REQUEST_TIMEOUT, value),
            *final(self) == *final(r),
    {
        self.put_int(REQUEST_TIMEOUT, value);
        self
    }

    /// Reads `request_timeout` if set in this pack.
    pub fn get_request_timeout(&self) -> (r: Option<i32>)
        requires
            self.wf(),
        ensures
            r == self@.int_at(REQUEST_TIMEOUT),
    {
        self.int_at(REQUEST_TIMEOUT)
    }

    /// Request queue length, expressed as the number of seconds of
    /// transfer it represents at the current download rate.
    pub fn request_queue_time(&mut self, value: i32) -> (r: &mut Self)
        requires
            old(self).wf(),
        ensures
            r.wf(),
            r@ == old(self)@.with_int(REQUEST_QUEUE_TIME, value),
            *final(self) == *final(r),
    {
        self.put_int(REQUEST_QUEUE_TIME, value);
        self
    }

    /// Reads `request_queue_time` if set in this pack.
    pub fn get_request_queue_time(&self) -> (r: Option<i32>)
        requires
            self.wf(),
        ensures
            r == self@.int_at(REQUEST_QUEUE_TIME),
    {
        self.int_at(REQUEST_QUEUE_TIME)
    }

    /// Max block requests a peer may queue up in the client; excess
    /// requests are dropped. Higher values allow faster upload to a
    /// single peer.
    ///
    /// Accepts `0..=i32::MAX`.
    pub fn max_allowed_in_request_queue(&mut self, value: i32) -> (r: Result<&mut Self, SettingsError>)
        requires
            old(self).wf(),
        ensures
            0 <= value <= i32::MAX ==> (r matches Ok(p) && p.wf() && p@ == old(self)@.with_int(MAX_ALLOWED_IN_REQUEST_QUEUE, value)
                && *final(self) == *final(p)),
            !(0 <= value <= i32::MAX) ==> (r matches Err(e) && e@ == (SettingsErrorView {
                setting: "max_allowed_in_request_queue"@,
                message: range_message(value, 0, i32::MAX),
            }) && *final(self) == *old(self)),
    {
        match in_range("max_allowed_in_request_queue", value, 0, i32::MAX) {
            Ok(()) => {},
            Err(e) => return Err(e),
        }
        self.put_int(MAX_ALLOWED_IN_REQUEST_QUEUE, value);
        Ok(self)
    }

    /// Reads `max_allowed_in_request_queue` if set in this pack.
    pub fn get_max_allowed_in_request_queue(&self) -> (r: Option<i32>)
        requires
            self.wf(),
        ensures
            r == self@.int_at(MAX_ALLOWED_IN_REQUEST_QUEUE),
    {
        self.int_at(MAX_ALLOWED_IN_REQUEST_QUEUE)
    }

    /// Hard cap on outstanding requests to a single peer; takes
    /// precedence over `request_queue_time`.
    pub fn max_out_request_queue(&mut self, value: i32) -> (r: &mut Self)
        requires
            old(self).wf(),
        ensures
            r.wf(),
            r@ == old(self)@.with_int(MAX_OUT_REQUEST_QUEUE, value),
            *final(self) == *final(r),
    {
        self.put_int(MAX_OUT_REQUEST_QUEUE, value);
        self
    }

    /// Reads `max_out_request_queue` if set in this pack.
    pub fn get_max_out_request_queue(&self) -> (r: Option<i32>)
        requires
            self.wf(),
        ensures
            r == self@.int_at(MAX_OUT_REQUEST_QUEUE),
    {
        self.int_at(MAX_OUT_REQUEST_QUEUE)
    }

    /// If a whole piece can be downloaded from a peer within this many
    /// seconds, prefer requesting whole pieces from it (better disk cache
    /// locality, easier attribution of hash failures).
    pub fn whole_pieces_threshold(&mut self, value: i32) -> (r: &mut Self)
        requires
            old(self).wf(),
        ensures
            r.wf(),
            r@ == old(self)@.with_int(WHOLE_PIECES_THRESHOLD, value),
            *final(self) == *final(r),
    {
        self.put_int(WHOLE_PIECES_THRESHOLD, value);
        self
    }

    /// Reads `whole_pieces_threshold` if set in this pack.
    pub fn get_whole_pieces_threshold(&self) -> (r: Option<i32>)
        requires
            self.wf(),
        ensures
            r == self@.int_at(WHOLE_PIECES_THRESHOLD),
    {
        self.int_at(WHOLE_PIECES_THRESHOLD)
    }

    /// Upper limit on the number of file handles the session keeps open
    /// (mind the process file-descriptor limit).
    ///
    /// Accepts `1..=i32::MAX`.
    pub fn file_pool_size(&mut self, value: i32) -> (r: Result<&mut Self, SettingsError>)
        requires
            old(self).wf(),
        ensures
            1 <= value <= i32::MAX ==> (r matches Ok(p) && p.wf() && p@ == old(self)@.with_int(FILE_POOL_SIZE, value)
                && *final(self) == *final(p)),
            !(1 <= value <= i32::MAX) ==> (r matches Err(e) && e@ == (SettingsErrorView {
                setting: "file_pool_size"@,
                message: range_message(value, 1, i32::MAX),
            }) && *final(self) == *old(self)),
    {
        match in_range("file_pool_size", value, 1, i32::MAX) {
            Ok(()) => {},
            Err(e) => return Err(e),
        }
        self.put_int(FILE_POOL_SIZE, value);
        Ok(self)
    }

    /// Reads `file_pool_size` if set in this pack.
    pub fn get_file_pool_size(&self) -> (r: Option<i32>)
        requires
            self.wf(),
        ensures
            r == self@.int_at(FILE_POOL_SIZE),
    {
        self.int_at(FILE_POOL_SIZE)
    }

    /// Number of pieces picked at random before switching to rarest-first
    /// picking.
    pub fn initial_picker_threshold(&mut self, value: i32) -> (r: &mut Self)
        requires
            old(self).wf(),
        ensures
            r.wf(),
            r@ == old(self)@.with_int(INITIAL_PICKER_THRESHOLD, value),
            *final(self) == *final(r),
    {
        self.put_int(INITIAL_PICKER_THRESHOLD, value);
        self
    }

    /// Reads `initial_picker_threshold` if set in this pack.
    pub fn get_initial_picker_threshold(&self) -> (r: Option<i32>)
        requires
            self.wf(),
        ensures
            r == self@.int_at(INITIAL_PICKER_THRESHOLD),
    {
        self.int_at(INITIAL_PICKER_THRESHOLD)
    }

    /// Number of allowed-fast pieces to send to peers supporting the fast
    /// extension.
    pub fn allowed_fast_set_size(&mut self, value: i32) -> (r: &mut Self)
        requires
            old(self).wf(),
        ensures
            r.wf(),
            r@ == old(self)@.with_int(ALLOWED_FAST_SET_SIZE, value),
            *final(self) == *final(r),
    {
        self.put_int(ALLOWED_FAST_SET_SIZE, value);
        self
    }

    /// Reads `allowed_fast_set_size` if set in this pack.
    pub fn get_allowed_fast_set_size(&self) -> (r: Option<i32>)
        requires
            self.wf(),
        ensures
            r == self@.int_at(ALLOWED_FAST_SET_SIZE),
    {
        self.int_at(ALLOWED_FAST_SET_SIZE)
    }

    /// Whether to send suggest messages biasing peers toward requesting
    /// certain pieces; see `SuggestMode`.
    pub fn suggest_mode(&mut self, value: SuggestMode) -> (r: &mut Self)
        requires
            old(self).wf(),
        ensures
            r.wf(),
            r@ == old(self)@.with_int(SUGGEST_MODE, suggest_mode_code(value)),
            *final(self) == *final(r),
    {
        self.put_int(SUGGEST_MODE, value.to_raw());
        self
    }

    /// `None` if unset or set to a value these bindings don't know.
    pub fn get_suggest_mode(&self) -> (r: Option<SuggestMode>)
        requires
            self.wf(),
        ensures
            r == (match self@.int_at(SUGGEST_MODE) {
                Some(raw) => suggest_mode_of_code(raw),
                None => None,
            }),
    {
        match self.int_at(SUGGEST_MODE) {
            Some(raw) => SuggestMode::from_raw(raw),
            None => None,
        }
    }

    /// Max bytes waiting in the disk I/O write queue; when reached, peers
    /// stop reading from their sockets until the disk thread catches up.
    /// Too low a value severely limits download rate.
    ///
    /// Accepts `0..=i32::MAX`.
    pub fn max_queued_disk_bytes(&mut self, value: i32) -> (r: Result<&mut Self, SettingsError>)
        requires
            old(self).wf(),
        ensures
            0 <= value <= i32::MAX ==> (r matches Ok(p) && p.wf() && p@ == old(self)@.with_int(MAX_QUEUED_DISK_BYTES, value)
                && *final(self) == *final(p)),
            !(0 <= value <= i32::MAX) ==> (r matches Err(e) && e@ == (SettingsErrorView {
                setting: "max_queued_disk_bytes"@,
                message: range_message(value, 0, i32::MAX),
            }) && *final(self) == *old(self)),
    {
        match in_range("max_queued_disk_bytes", value, 0, i32::MAX) {
            Ok(()) => {},
            Err(e) => return Err(e),
        }
        self.put_int(MAX_QUEUED_DISK_BYTES, value);
        Ok(self)
    }

    /// Reads `max_queued_disk_bytes` if set in this pack.
    pub fn get_max_queued_disk_bytes(&self) -> (r: Option<i32>)
        requires
            self.wf(),
        ensures
            r == self@.int_at(MAX_QUEUED_DISK_BYTES),
    {
        self.int_at(MAX_QUEUED_DISK_BYTES)
    }

    /// How files are opened for writing with respect to OS caching; see
    /// `IoBufferMode`. Disabling the cache keeps the torrent traffic from
    /// evicting other processes' cached data.
    pub fn disk_io_write_mode(&mut self, value: IoBufferMode) -> (r: &mut Self)
        requires
            old(self).wf(),
        ensures
            r.wf(),
            r@ == old(self)@.with_int(DISK_IO_WRITE_MODE, io_buffer_mode_code(value)),
            *final(self) == *final(r),
    {
        self.put_int(DISK_IO_WRITE_MODE, value.to_raw());
        self
    }

    /// `None` if unset or set to a value these bindings don't know.
    pub fn get_disk_io_write_mode(&self) -> (r: Option<IoBufferMode>)
        requires
            self.wf(),
        ensures
            r == (match self@.int_at(DISK_IO_WRITE_MODE) {
                Some(raw) => io_buffer_mode_of_code(raw),
                None => None,
            }),
    {
        match self.int_at(DISK_IO_WRITE_MODE) {
            Some(raw) => IoBufferMode::from_raw(raw),
            None => None,
        }
    }

    pub fn disk_io_read_mode(&mut self, value: IoBufferMode) -> (r: &mut Self)
        requires
            old(self).wf(),
        ensures
            r.wf(),
            r@ == old(self)@.with_int(DISK_IO_READ_MODE, io_buffer_mode_code(value)),
            *final(self) == *final(r),
    {
        self.put_int(DISK_IO_READ_MODE, value.to_raw());
        self
    }

    /// `None` if unset or set to a value these bindings don't know.
    pub fn get_disk_io_read_mode(&self) -> (r: Option<IoBufferMode>)
        requires
            self.wf(),
        ensures
            r == (match self@.int_at(DISK_IO_READ_MODE) {
                Some(raw) => io_buffer_mode_of_code(raw),
                None => None,
            }),
    {
        match self.int_at(DISK_IO_READ_MODE) {
            Some(raw) => IoBufferMode::from_raw(raw),
            None => None,
        }
    }

    /// Pieces to send a peer, when seeding, before rotating another peer
    /// into the unchoke set.
    pub fn seeding_piece_quota(&mut self, value: i32) -> (r: &mut Self)
        requires
            old(self).wf(),
        ensures
            r.wf(),
            r@ == old(self)@.with_int(SEEDING_PIECE_QUOTA, value),
            *final(self) == *final(r),
    {
        self.put_int(SEEDING_PIECE_QUOTA, value);
        self
    }

    /// Reads `seeding_piece_quota` if set in this pack.
    pub fn get_seeding_piece_quota(&self) -> (r: Option<i32>)
        requires
            self.wf(),
        ensures
            r == self@.int_at(SEEDING_PIECE_QUOTA),
    {
        self.int_at(SEEDING_PIECE_QUOTA)
    }

    /// Seconds after a disk write error before an auto-managed torrent is
    /// taken out of upload mode to re-test the error condition.
    pub fn optimistic_disk_retry(&mut self, value: i32) -> (r: &mut Self)
        requires
            old(self).wf(),
        ensures
            r.wf(),
            r@ == old(self)@.with_int(OPTIMISTIC_DISK_RETRY, value),
            *final(self) == *final(r),
    {
        self.put_int(OPTIMISTIC_DISK_RETRY, value);
        self
    }

    /// Reads `optimistic_disk_retry` if set in this pack.
    pub fn get_optimistic_disk_retry(&self) -> (r: Option<i32>)
        requires
            self.wf(),
        ensures
            r == self@.int_at(OPTIMISTIC_DISK_RETRY),
    {
        self.int_at(OPTIMISTIC_DISK_RETRY)
    }

    /// Max suggested piece indices remembered per peer, bounding the RAM
    /// a suggest-message flood can use.
    ///
    /// Accepts `1..=i32::MAX`.
    pub fn max_suggest_pieces(&mut self, value: i32) -> (r: Result<&mut Self, SettingsError>)
        requires
            old(self).wf(),
        ensures
            1 <= value <= i32::MAX ==> (r matches Ok(p) && p.wf() && p@ == old(self)@.with_int(MAX_SUGGEST_PIECES, value)
                && *final(self) == *final(p)),
            !(1 <= value <= i32::MAX) ==> (r matches Err(e) && e@ == (SettingsErrorView {
                setting: "max_suggest_pieces"@,
                message: range_message(value, 1, i32::MAX),
            }) && *final(self) == *old(self)),
    {
        match in_range("max_suggest_pieces", value, 1, i32::MAX) {
            Ok(()) => {},
            Err(e) => return Err(e),
        }
        self.put_int(MAX_SUGGEST_PIECES, value);
        Ok(self)
    }

    /// Reads `max_suggest_pieces` if set in this pack.
    pub fn get_max_suggest_pieces(&self) -> (r: Option<i32>)
        requires
            self.wf(),
        ensures
            r == self@.int_at(MAX_SUGGEST_PIECES),
    {
        self.int_at(MAX_SUGGEST_PIECES)
    }

    /// Target upload:download ratio for share-mode torrents. Values below
    /// 2 make no sense, and very high values may prevent downloading
    /// anything at all.
    pub fn share_mode_target(&mut self, value: i32) -> (r: &mut Self)
        requires
            old(self).wf(),
        ensures
            r.wf(),
            r@ == old(self)@.with_int(SHARE_MODE_TARGET, value),
            *final(self) == *final(r),
    {
        self.put_int(SHARE_MODE_TARGET, value);
        self
    }

    /// Reads `share_mode_target` if set in this pack.
    pub fn get_share_mode_target(&self) -> (r: Option<i32>)
        requires
            self.wf(),
        ensures
            r == self@.int_at(SHARE_MODE_TARGET),
    {
        self.int_at(SHARE_MODE_TARGET)
    }

    /// Max size in bytes accepted by the metadata extension (magnet
    /// links).
    ///
    /// Accepts `1..=i32::MAX`.
    pub fn max_metadata_size(&mut self, value: i32) -> (r: Result<&mut Self, SettingsError>)
        requires
            old(self).wf(),
        ensures
            1 <= value <= i32::MAX ==> (r matches Ok(p) && p.wf() && p@ == old(self)@.with_int(MAX_METADATA_SIZE, value)
                && *final(self) == *final(p)),
            !(1 <= value <= i32::MAX) ==> (r matches Err(e) && e@ == (SettingsErrorView {
                setting: "max_metadata_size"@,
                message: range_message(value, 1, i32::MAX),
            }) && *final(self) == *old(self)),
    {
        match in_range("max_metadata_size", value, 1, i32::MAX) {
            Ok(()) => {},
            Err(e) => return Err(e),
        }
        self.put_int(MAX_METADATA_SIZE, value);
        Ok(self)
    }

    /// Reads `max_metadata_size` if set in this pack.
    pub fn get_max_metadata_size(&self) -> (r: Option<i32>)
        requires
            self.wf(),
        ensures
            r == self@.int_at(MAX_METADATA_SIZE),
    {
        self.int_at(MAX_METADATA_SIZE)
    }

    /// Disk I/O threads for full-check piece hashing, in addition to
    /// `aio_threads`. These threads also perform the disk reads, so 1 (the
    /// default) is best for sequential-access storage like hard drives.
    ///
    /// Accepts `0..=1_073_741_823`.
    pub fn hashing_threads(&mut self, value: i32) -> (r: Result<&mut Self, SettingsError>)
        requires
            old(self).wf(),
        ensures
            0 <= value <= 1_073_741_823 ==> (r matches Ok(p) && p.wf() && p@ == old(self)@.with_int(HASHING_THREADS, value)
                && *final(self) == *final(p)),
            !(0 <= value <= 1_073_741_823) ==> (r matches Err(e) && e@ == (SettingsErrorView {
                setting: "hashing_threads"@,
                message: range_message(value, 0, 1_073_741_823),
            }) && *final(self) == *old(self)),
    {
        match in_range("hashing_threads", value, 0, 1_073_741_823) {
            Ok(()) => {},
            Err(e) => return Err(e),
        }
        self.put_int(HASHING_THREADS, value);
        Ok(self)
    }

    /// Reads `hashing_threads` if set in this pack.
    pub fn get_hashing_threads(&self) -> (r: Option<i32>)
        requires
            self.wf(),
        ensures
            r == self@.int_at(HASHING_THREADS),
    {
        self.int_at(HASHING_THREADS)
    }

    /// Outstanding blocks (16 kiB each) while checking torrents; higher
    /// is faster but uses more memory.
    ///
    /// Accepts `1..=131_071`.
    pub fn checking_mem_usage(&mut self, value: i32) -> (r: Result<&mut Self, SettingsError>)
        requires
            old(self).wf(),
        ensures
            1 <= value <= 131_071 ==> (r matches Ok(p) && p.wf() && p@ == old(self)@.with_int(CHECKING_MEM_USAGE, value)
                && *final(self) == *final(p)),
            !(1 <= value <= 131_071) ==> (r matches Err(e) && e@ == (SettingsErrorView {
                setting: "checking_mem_usage"@,
                message: range_message(value, 1, 131_071),
            }) && *final(self) == *old(self)),
    {
        match in_range("checking_mem_usage", value, 1, 131_071) {
            Ok(()) => {},
            Err(e) => return Err(e),
        }
        self.put_int(CHECKING_MEM_USAGE, value);
        Ok(self)
    }

    /// Reads `checking_mem_usage` if set in this pack.
    pub fn get_checking_mem_usage(&self) -> (r: Option<i32>)
        requires
            self.wf(),
        ensures
            r == self@.int_at(CHECKING_MEM_USAGE),
    {
        self.int_at(CHECKING_MEM_USAGE)
    }

    /// If > 0, announce pieces to peers this many milliseconds before
    /// they are expected to complete (and before they are hash checked).
    pub fn predictive_piece_announce(&mut self, value: i32) -> (r: &mut Self)
        requires
            old(self).wf(),
        ensures
            r.wf(),
            r@ == old(self)@.with_int(PREDICTIVE_PIECE_ANNOUNCE, value),
            *final(self) == *final(r),
    {
        self.put_int(PREDICTIVE_PIECE_ANNOUNCE, value);
        self
    }

    /// Reads `predictive_piece_announce` if set in this pack.
    pub fn get_predictive_piece_announce(&self) -> (r: Option<i32>)
        requires
            self.wf(),
        ensures
            r == self@.int_at(PREDICTIVE_PIECE_ANNOUNCE),
    {
        self.int_at(PREDICTIVE_PIECE_ANNOUNCE)
    }

    /// Number of I/O threads to use (for some aio back-ends).
    ///
    /// Accepts `1..=i32::MAX`.
    pub fn aio_threads(&mut self, value: i32) -> (r: Result<&mut Self, SettingsError>)
        requires
            old(self).wf(),
        ensures
            1 <= value <= i32::MAX ==> (r matches Ok(p) && p.wf() && p@ == old(self)@.with_int(AIO_THREADS, value)
                && *final(self) == *final(p)),
            !(1 <= value <= i32::MAX) ==> (r matches Err(e) && e@ == (SettingsErrorView {
                setting: "aio_threads"@,
                message: range_message(value, 1, i32::MAX),
            }) && *final(self) == *old(self)),
    {
        match in_range("aio_threads", value, 1, i32::MAX) {
            Ok(()) => {},
            Err(e) => return Err(e),
        }
        self.put_int(AIO_THREADS, value);
        Ok(self)
    }

    /// Reads `aio_threads` if set in this pack.
    pub fn get_aio_threads(&self) -> (r: Option<i32>)
        requires
            self.wf(),
        ensures
            r == self@.int_at(AIO_THREADS),
    {
        self.int_at(AIO_THREADS)
    }

    /// Seconds between closing the least recently opened file, keeping
    /// the OS disk cache bounded (needed mainly on Windows); 0 disables.
    pub fn close_file_interval(&mut self, value: i32) -> (r: &mut Self)
        requires
            old(self).wf(),
        ensures
            r.wf(),
            r@ == old(self)@.with_int(CLOSE_FILE_INTERVAL, value),
            *final(self) == *final(r),
    {
        self.put_int(CLOSE_FILE_INTERVAL, value);
        self
    }

    /// Reads `close_file_interval` if set in this pack.
    pub fn get_close_file_interval(&self) -> (r: Option<i32>)
        requires
            self.wf(),
        ensures
            r == self@.int_at(CLOSE_FILE_INTERVAL),
    {
        self.int_at(CLOSE_FILE_INTERVAL)
    }

    /// Max number of pieces allowed in metadata received via magnet
    /// links.
    ///
    /// Accepts `1..=1_073_741_823`.
    pub fn max_piece_count(&mut self, value: i32) -> (r: Result<&mut Self, SettingsError>)
        requires
            old(self).wf(),
        ensures
            1 <= value <= 1_073_741_823 ==> (r matches Ok(p) && p.wf() && p@ == old(self)@.with_int(MAX_PIECE_COUNT, value)
                && *final(self) == *final(p)),
            !(1 <= value <= 1_073_741_823) ==> (r matches Err(e) && e@ == (SettingsErrorView {
                setting: "max_piece_count"@,
                message: range_message(value, 1, 1_073_741_823),
            }) && *final(self) == *old(self)),
    {
        match in_range("max_piece_count", value, 1, 1_073_741_823) {
            Ok(()) => {},
            Err(e) => return Err(e),
        }
        self.put_int(MAX_PIECE_COUNT, value);
        Ok(self)
    }

    /// Reads `max_piece_count` if set in this pack.
    pub fn get_max_piece_count(&self) -> (r: Option<i32>)
        requires
            self.wf(),
        ensures
            r == self@.int_at(MAX_PIECE_COUNT),
    {
        self.int_at(MAX_PIECE_COUNT)
    }

    /// Max bencoded tokens parsed in metadata received from peers (a DoS
    /// guard); may need raising for very large torrents.
    ///
    /// Accepts `1..=i32::MAX`.
    pub fn metadata_token_limit(&mut self, value: i32) -> (r: Result<&mut Self, SettingsError>)
        requires
            old(self).wf(),
        ensures
            1 <= value <= i32::MAX ==> (r matches Ok(p) && p.wf() && p@ == old(self)@.with_int(METADATA_TOKEN_LIMIT, value)
                && *final(self) == *final(p)),
            !(1 <= value <= i32::MAX) ==> (r matches Err(e) && e@ == (SettingsErrorView {
                setting: "metadata_token_limit"@,
                message: range_message(value, 1, i32::MAX),
            }) && *final(self) == *old(self)),
    {
        match in_range("metadata_token_limit", value, 1, i32::MAX) {
            Ok(()) => {},
            Err(e) => return Err(e),
        }
        self.put_int(METADATA_TOKEN_LIMIT, value);
        Ok(self)
    }

    /// Reads `metadata_token_limit` if set in this pack.
    pub fn get_metadata_token_limit(&self) -> (r: Option<i32>)
        requires
            self.wf(),
        ensures
            r == self@.int_at(METADATA_TOKEN_LIMIT),
    {
        self.int_at(METADATA_TOKEN_LIMIT)
    }

    /// Whether mmap_disk_io writes via memory-mapped files or normal
    /// write calls; see `MmapWriteMode`. Some OSes/filesystems (Windows,
    /// ZFS, Btrfs) do not support mixing write calls with mmap, and since
    /// large files are always read via mmap, forcing write calls there
    /// may cause corruption.
    pub fn disk_write_mode(&mut self, value: MmapWriteMode) -> (r: &mut Self)
        requires
            old(self).wf(),
        ensures
            r.wf(),
            r@ == old(self)@.with_int(DISK_WRITE_MODE, mmap_write_mode_code(value)),
            *final(self) == *final(r),
    {
        self.put_int(DISK_WRITE_MODE, value.to_raw());
        self
    }

    /// `None` if unset or set to a value these bindings don't know.
    pub fn get_disk_write_mode(&self) -> (r: Option<MmapWriteMode>)
        requires
            self.wf(),
        ensures
            r == (match self@.int_at(DISK_WRITE_MODE) {
                Some(raw) => mmap_write_mode_of_code(raw),
                None => None,
            }),
    {
        match self.int_at(DISK_WRITE_MODE) {
            Some(raw) => MmapWriteMode::from_raw(raw),
            None => None,
        }
    }

    /// Files smaller than this many 16 kiB blocks use pread/pwrite
    /// instead of memory mapping (mmap_disk_io only).
    pub fn mmap_file_size_cutoff(&mut self, value: i32) -> (r: &mut Self)
        requires
            old(self).wf(),
        ensures
            r.wf(),
            r@ == old(self)@.with_int(MMAP_FILE_SIZE_CUTOFF, value),
            *final(self) == *final(r),
    {
        self.put_int(MMAP_FILE_SIZE_CUTOFF, value);
        self
    }

    /// Reads `mmap_file_size_cutoff` if set in this pack.
    pub fn get_mmap_file_size_cutoff(&self) -> (r: Option<i32>)
        requires
            self.wf(),
        ensures
            r == self@.int_at(MMAP_FILE_SIZE_CUTOFF),
    {
        self.int_at(MMAP_FILE_SIZE_CUTOFF)
    }
}

} // verus!
