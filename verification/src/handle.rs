//! The validation that torrent-handle operations apply before anything
//! reaches libtorrent, which only asserts (or silently misreads) these
//! preconditions.

use vstd::prelude::*;

use crate::alerts::requests::binding_error;
use crate::error::Error;
use crate::params::DownloadPriority;
use crate::text::{int_text, push_int, push_str, string_of};

verus! {

/// libtorrent's internal "unlimited" sentinel for per-torrent
/// upload/connection counts (the all-ones value of a 24-bit field).
pub const UNLIMITED_PEERS: i32 = 16777215;

/// Whether `limit` is an accepted per-torrent rate limit: -1 (unlimited)
/// or a positive rate below `i32::MAX` bytes/sec.
pub open spec fn valid_rate_limit(limit: i32) -> bool {
    limit == -1 || (1 <= limit < i32::MAX)
}

/// Whether `limit` is an accepted max-uploads/max-connections limit: -1
/// (unlimited) or `2..=16_777_214`.
pub open spec fn valid_peer_limit(limit: i32) -> bool {
    limit == -1 || (2 <= limit < UNLIMITED_PEERS)
}

/// Validates a per-torrent rate limit: -1 (unlimited) or a positive rate
/// in bytes/sec. libtorrent quietly treats 0 and `i32::MAX` as unlimited
/// too; rejecting them keeps a stored limit reading back as what was set.
pub fn check_rate_limit(limit: i32) -> (r: Result<(), Error>)
    ensures
        valid_rate_limit(limit) ==> r is Ok,
        !valid_rate_limit(limit) ==> (r matches Err(e) && e@ == binding_error(
            "rate limit must be -1 (unlimited) or a positive rate in bytes/s, got "@ + int_text(
                limit as int,
            ),
        )),
{
    if limit != -1 && !(1 <= limit && limit < i32::MAX) {
        let mut m = string_of("rate limit must be -1 (unlimited) or a positive rate in bytes/s, got ");
        push_int(&mut m, limit as i64);
        return Err(Error::binding(m.as_str()));
    }
    Ok(())
}

/// Validates a max-uploads/max-connections limit: -1 (unlimited) or
/// `2..=16_777_214`. libtorrent asserts `limit >= 2 || limit == -1` (0 and
/// 1 silently become unlimited in release builds) and stores the limit in
/// a 24-bit field whose all-ones value is the unlimited sentinel: anything
/// larger silently truncates (16_777_216 becomes 0, blocking every peer).
pub fn check_peer_limit(limit: i32) -> (r: Result<(), Error>)
    ensures
        valid_peer_limit(limit) ==> r is Ok,
        !valid_peer_limit(limit) ==> (r matches Err(e) && e@ == binding_error(
            "limit must be -1 (unlimited) or between 2 and 16777214, got "@ + int_text(
                limit as int,
            ),
        )),
{
    if limit != -1 && !(2 <= limit && limit < UNLIMITED_PEERS) {
        let mut m = string_of("limit must be -1 (unlimited) or between 2 and 16777214, got ");
        push_int(&mut m, limit as i64);
        return Err(Error::binding(m.as_str()));
    }
    Ok(())
}

/// A max-uploads/max-connections value as libtorrent reports it, with its
/// unlimited sentinel read back as -1.
pub fn peer_limit_from_reported(raw: i32) -> (r: i32)
    ensures
        raw == UNLIMITED_PEERS ==> r == -1,
        raw != UNLIMITED_PEERS ==> r == raw,
{
    if raw == UNLIMITED_PEERS {
        -1
    } else {
        raw
    }
}

/// Every limit the peer-limit check accepts reads back unchanged after
/// libtorrent stores it.
pub proof fn lemma_accepted_peer_limit_reads_back(limit: i32)
    requires
        valid_peer_limit(limit),
    ensures
        limit != UNLIMITED_PEERS,
{
}

/// The text of the missing-metadata error.
pub open spec fn no_metadata_message() -> Seq<char> {
    "torrent metadata is not available yet"@
}

/// The text of the out-of-range index error: `"{what} index {index} is
/// outside 0..{count}"`.
pub open spec fn index_range_message(what: Seq<char>, index: i32, count: i32) -> Seq<char> {
    what + " index "@ + int_text(index as int) + " is outside 0.."@ + int_text(count as int)
}

/// The index check that piece- and file-indexed operations share:
/// `count` is the torrent's piece (or file) count, `None` while its
/// metadata is not available yet.
fn check_index(what: &str, count: Option<i32>, index: i32) -> (r: Result<(), Error>)
    ensures
        count is None ==> (r matches Err(e) && e@ == binding_error(no_metadata_message())),
        count matches Some(n) ==> (0 <= index < n ==> r is Ok),
        count matches Some(n) ==> (!(0 <= index < n) ==> (r matches Err(e) && e@
            == binding_error(index_range_message(what@, index, n)))),
{
    match count {
        None => Err(Error::binding("torrent metadata is not available yet")),
        Some(n) => {
            if index < 0 || index >= n {
                let mut m = string_of(what);
                push_str(&mut m, " index ");
                push_int(&mut m, index as i64);
                push_str(&mut m, " is outside 0..");
                push_int(&mut m, n as i64);
                Err(Error::binding(m.as_str()))
            } else {
                Ok(())
            }
        },
    }
}

/// Checks a piece index for the piece-deadline and piece-priority calls,
/// which libtorrent asserts instead of checking: metadata must be
/// available (`num_pieces` is `None` until it is) and `piece` in range.
pub fn check_piece(num_pieces: Option<i32>, piece: i32) -> (r: Result<(), Error>)
    ensures
        num_pieces is None ==> (r matches Err(e) && e@ == binding_error(no_metadata_message())),
        num_pieces matches Some(n) ==> (0 <= piece < n ==> r is Ok),
        num_pieces matches Some(n) ==> (!(0 <= piece < n) ==> (r matches Err(e) && e@
            == binding_error(index_range_message("piece"@, piece, n)))),
{
    check_index("piece", num_pieces, piece)
}

/// Checks a file index for `set_file_priority` and `rename_file`:
/// metadata must be available and `file` in range.
pub fn check_file(num_files: Option<i32>, file: i32) -> (r: Result<(), Error>)
    ensures
        num_files is None ==> (r matches Err(e) && e@ == binding_error(no_metadata_message())),
        num_files matches Some(n) ==> (0 <= file < n ==> r is Ok),
        num_files matches Some(n) ==> (!(0 <= file < n) ==> (r matches Err(e) && e@
            == binding_error(index_range_message("file"@, file, n)))),
{
    check_index("file", num_files, file)
}

/// The text of the too-long priority list error.
pub open spec fn list_too_long_message(what: Seq<char>) -> Seq<char> {
    what + " priority list is longer than the number of "@ + what + "s"@
}

/// Checks a priority list for `prioritize_pieces` / `prioritize_files`:
/// metadata must be available and the list no longer than the piece (or
/// file) count; a negative count admits no entries.
fn check_priority_list(what: &str, count: Option<i32>, len: usize) -> (r: Result<(), Error>)
    ensures
        count is None ==> (r matches Err(e) && e@ == binding_error(no_metadata_message())),
        count matches Some(n) ==> (len <= (if n < 0 { 0 } else { n as int }) ==> r is Ok),
        count matches Some(n) ==> (len > (if n < 0 { 0 } else { n as int }) ==> (r matches Err(e)
            && e@ == binding_error(list_too_long_message(what@)))),
{
    match count {
        None => Err(Error::binding("torrent metadata is not available yet")),
        Some(n) => {
            let limit: u64 = if n < 0 {
                0
            } else {
                n as u64
            };
            if (len as u64) > limit {
                let mut m = string_of(what);
                push_str(&mut m, " priority list is longer than the number of ");
                push_str(&mut m, what);
                push_str(&mut m, "s");
                Err(Error::binding(m.as_str()))
            } else {
                Ok(())
            }
        },
    }
}

/// Checks the list for `prioritize_pieces`: pieces beyond its end keep
/// their priority, but it may not be longer than the piece count.
pub fn check_piece_priorities(num_pieces: Option<i32>, priorities: &[DownloadPriority]) -> (r:
    Result<(), Error>)
    ensures
        num_pieces is None ==> (r matches Err(e) && e@ == binding_error(no_metadata_message())),
        num_pieces matches Some(n) ==> (priorities@.len() <= (if n < 0 { 0 } else { n as int })
            ==> r is Ok),
        num_pieces matches Some(n) ==> (priorities@.len() > (if n < 0 { 0 } else { n as int })
            ==> (r matches Err(e) && e@ == binding_error(list_too_long_message("piece"@)))),
{
    check_priority_list("piece", num_pieces, priorities.len())
}

/// Checks the list for `prioritize_files`: files beyond its end reset to
/// the default priority, but it may not be longer than the file count.
pub fn check_file_priorities(num_files: Option<i32>, priorities: &[DownloadPriority]) -> (r:
    Result<(), Error>)
    ensures
        num_files is None ==> (r matches Err(e) && e@ == binding_error(no_metadata_message())),
        num_files matches Some(n) ==> (priorities@.len() <= (if n < 0 { 0 } else { n as int })
            ==> r is Ok),
        num_files matches Some(n) ==> (priorities@.len() > (if n < 0 { 0 } else { n as int })
            ==> (r matches Err(e) && e@ == binding_error(list_too_long_message("file"@)))),
{
    check_priority_list("file", num_files, priorities.len())
}

/// Checks a queue position for `set_queue_position`: it must be >= 0.
pub fn check_queue_position(pos: i32) -> (r: Result<(), Error>)
    ensures
        pos >= 0 ==> r is Ok,
        pos < 0 ==> (r matches Err(e) && e@ == binding_error("queue position must be >= 0"@)),
{
    if pos < 0 {
        return Err(Error::binding("queue position must be >= 0"));
    }
    Ok(())
}

/// The limits the checks accept: a rate limit is -1 (unlimited) or from 1
/// up to but excluding `i32::MAX`; an upload/connection limit is -1
/// (unlimited) or from 2 to 16_777_214, one below libtorrent's 24-bit
/// unlimited sentinel.
pub proof fn lemma_accepted_limits(limit: i32)
    ensures
        valid_rate_limit(limit) == (limit == -1 || (1 <= limit && limit <= 2147483646)),
        valid_peer_limit(limit) == (limit == -1 || (2 <= limit && limit <= 16777214)),
        UNLIMITED_PEERS == 16777215,
{
}

} // verus!
