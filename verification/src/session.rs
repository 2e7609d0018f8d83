//! The plain option types of a session: the disk I/O backend and the
//! torrent-removal flags.

use vstd::prelude::*;

verus! {

/// The disk I/O backend a session uses.
#[derive(Clone, Copy, Debug, PartialEq, Eq, Hash, Structural)]
pub enum DiskIo {
    /// Let libtorrent pick (mmap where available, POSIX otherwise).
    Default,
    /// Memory-mapped file I/O. Not available in every libtorrent build.
    Mmap,
    /// Single-threaded portable POSIX I/O.
    Posix,
    /// Multi-threaded `pread()`/`pwrite()` I/O.
    Pread,
    /// Discards all writes, reads zeros (for testing/benchmarks).
    Disabled,
}

/// The C boundary's code for a backend.
pub open spec fn disk_io_code(d: DiskIo) -> i32 {
    match d {
        DiskIo::Default => 0,
        DiskIo::Mmap => 1,
        DiskIo::Posix => 2,
        DiskIo::Pread => 3,
        DiskIo::Disabled => 4,
    }
}

impl DiskIo {
    /// The C boundary's code for this backend.
    pub fn to_raw(self) -> (r: i32)
        ensures
            r == disk_io_code(self),
    {
        match self {
            DiskIo::Default => 0,
            DiskIo::Mmap => 1,
            DiskIo::Posix => 2,
            DiskIo::Pread => 3,
            DiskIo::Disabled => 4,
        }
    }
}

impl Default for DiskIo {
    fn default() -> (r: DiskIo)
        ensures
            r == DiskIo::Default,
    {
        DiskIo::Default
    }
}

/// Each backend is sent as the C boundary's constant for it, in the order
/// that boundary declares them: default 0, mmap 1, POSIX 2, pread 3,
/// disabled 4.
pub proof fn lemma_disk_io_codes()
    ensures
        disk_io_code(DiskIo::Default) == 0,
        disk_io_code(DiskIo::Mmap) == 1,
        disk_io_code(DiskIo::Posix) == 2,
        disk_io_code(DiskIo::Pread) == 3,
        disk_io_code(DiskIo::Disabled) == 4,
{
}

/// Distinct backends have distinct codes.
pub proof fn lemma_disk_io_codes_distinct(a: DiskIo, b: DiskIo)
    ensures
        disk_io_code(a) == disk_io_code(b) ==> a == b,
{
}

/// Delete the downloaded payload files from disk.
pub const REMOVE_DELETE_FILES: u32 = 0x1;
/// Delete the part file holding pieces of unselected files.
pub const REMOVE_DELETE_PARTFILE: u32 = 0x2;

/// Options for removing a torrent.
#[derive(Clone, Copy, Debug, PartialEq, Eq, Structural)]
pub struct RemoveFlags(u32);

impl View for RemoveFlags {
    type V = u32;

    closed spec fn view(&self) -> u32 {
        self.0
    }
}

impl RemoveFlags {
    pub fn empty() -> (r: RemoveFlags)
        ensures
            r@ == 0,
    {
        RemoveFlags(0)
    }

    /// The flags of `bits` that are known; unknown bits are dropped.
    pub fn from_bits_truncate(bits: u32) -> (r: RemoveFlags)
        ensures
            r@ == bits & (REMOVE_DELETE_FILES | REMOVE_DELETE_PARTFILE),
    {
        RemoveFlags(bits & (REMOVE_DELETE_FILES | REMOVE_DELETE_PARTFILE))
    }

    pub fn bits(self) -> (r: u32)
        ensures
            r == self@,
    {
        self.0
    }

    pub fn contains(self, other: RemoveFlags) -> (r: bool)
        ensures
            r == (self@ & other@ == other@),
    {
        self.0 & other.0 == other.0
    }

    pub fn union(self, other: RemoveFlags) -> (r: RemoveFlags)
        ensures
            r@ == self@ | other@,
    {
        RemoveFlags(self.0 | other.0)
    }
}

impl Default for RemoveFlags {
    fn default() -> (r: RemoveFlags)
        ensures
            r@ == 0,
    {
        RemoveFlags(0)
    }
}

} // verus!
