//! The plain parts of torrent metadata: per-file flags, file slices, and
//! the range checks that piece/file mapping applies before asking
//! libtorrent (which only asserts them).

use vstd::prelude::*;

use crate::types::Sha1Hash;

verus! {

/// `lt::file_storage` file flag bits.
pub const FILE_FLAG_PAD_FILE: u8 = 0x1;
pub const FILE_FLAG_HIDDEN: u8 = 0x2;
pub const FILE_FLAG_EXECUTABLE: u8 = 0x4;
pub const FILE_FLAG_SYMLINK: u8 = 0x8;

/// The attributes of one file in a torrent.
#[derive(Clone, Copy, Debug, PartialEq, Eq, Hash, Structural)]
pub struct FileFlags(u8);

impl View for FileFlags {
    type V = u8;

    closed spec fn view(&self) -> u8 {
        self.0
    }
}

impl FileFlags {
    /// The flags libtorrent reported for a file.
    pub fn from_bits(bits: u8) -> (r: FileFlags)
        ensures
            r@ == bits,
    {
        FileFlags(bits)
    }

    pub fn bits(&self) -> (r: u8)
        ensures
            r == self@,
    {
        self.0
    }

    /// The file is a pad file: zeros, not written to disk, aligning the next
    /// file to a piece boundary.
    pub fn is_pad_file(&self) -> (r: bool)
        ensures
            r == (self@ & FILE_FLAG_PAD_FILE != 0),
    {
        self.0 & FILE_FLAG_PAD_FILE != 0
    }

    /// The file has the (Windows) hidden attribute.
    pub fn is_hidden(&self) -> (r: bool)
        ensures
            r == (self@ & FILE_FLAG_HIDDEN != 0),
    {
        self.0 & FILE_FLAG_HIDDEN != 0
    }

    /// The file has the (POSIX) executable attribute.
    pub fn is_executable(&self) -> (r: bool)
        ensures
            r == (self@ & FILE_FLAG_EXECUTABLE != 0),
    {
        self.0 & FILE_FLAG_EXECUTABLE != 0
    }

    /// The file is a symbolic link.
    pub fn is_symlink(&self) -> (r: bool)
        ensures
            r == (self@ & FILE_FLAG_SYMLINK != 0),
    {
        self.0 & FILE_FLAG_SYMLINK != 0
    }
}

/// A window of one file, as a piece/block maps onto the files storing it.
#[derive(Clone, Copy, Debug, PartialEq, Eq, Structural)]
pub struct FileSlice {
    /// The index of the file.
    pub file_index: i32,
    /// The byte offset within that file where the window starts.
    pub offset: i64,
    /// The number of bytes in the window.
    pub size: i64,
}

/// Whether `index` addresses one of `count` entries.
pub open spec fn index_in(index: i32, count: i32) -> bool {
    0 <= index < count
}

/// Whether the byte range `offset .. offset + size` lies within a file
/// of `file_size` bytes.
pub open spec fn range_within_file(file_size: i64, offset: i64, size: i32) -> bool {
    offset >= 0 && size >= 0 && size + offset <= file_size
}

/// The range check of `map_file`: the byte range must lie within the file.
/// Computed in subtraction form, so a hostile offset cannot overflow.
pub fn file_range_ok(file_size: i64, offset: i64, size: i32) -> (r: bool)
    requires
        file_size >= 0,
    ensures
        r == range_within_file(file_size, offset, size),
{
    !(offset < 0 || size < 0 || (size as i64) > file_size - offset)
}

/// Whether the byte range `offset .. offset + size` of piece `piece` lies
/// within the torrent's data: the piece exists and the range ends at or
/// before the end of the data (`total_size` bytes in pieces of
/// `piece_length`).
pub open spec fn block_within_data(
    num_pieces: i32,
    piece_length: i32,
    total_size: i64,
    piece: i32,
    offset: i64,
    size: i32,
) -> bool {
    &&& 0 <= piece < num_pieces
    &&& offset >= 0
    &&& size >= 0
    &&& piece * piece_length + offset + size <= total_size
}

/// The range check of `map_block`. The piece's start is at most
/// `i32::MAX * i32::MAX`, so every intermediate value fits in 64 bits.
pub fn block_range_ok(
    num_pieces: i32,
    piece_length: i32,
    total_size: i64,
    piece: i32,
    offset: i64,
    size: i32,
) -> (r: bool)
    requires
        piece_length >= 0,
        total_size >= 0,
    ensures
        r == block_within_data(num_pieces, piece_length, total_size, piece, offset, size),
{
    if !(piece >= 0 && piece < num_pieces) || offset < 0 || size < 0 {
        return false;
    }
    assert(0 <= piece * piece_length <= 0x7fff_ffff * 0x7fff_ffff) by (nonlinear_arith)
        requires
            0 <= piece <= 0x7fff_ffff,
            0 <= piece_length <= 0x7fff_ffff,
    ;
    let piece_start: i64 = (piece as i64) * (piece_length as i64);
    let remaining: i64 = total_size - piece_start;
    if remaining < offset {
        return false;
    }
    (size as i64) <= remaining - offset
}

/// A block is accepted exactly when it lies inside the torrent's data:
/// the piece exists, offset and size are non-negative, and the block,
/// starting `offset` bytes into the piece, ends at or before the end of
/// the data. So moving a block later within its piece can only turn an
/// accepted block into a rejected one.
pub proof fn lemma_block_inside_data(
    num_pieces: i32,
    piece_length: i32,
    total_size: i64,
    piece: i32,
    offset: i64,
    later: i64,
    size: i32,
)
    ensures
        block_within_data(num_pieces, piece_length, total_size, piece, offset, size) <==> (0
            <= piece < num_pieces && offset >= 0 && size >= 0 && (piece as int) * (
        piece_length as int) + (offset as int) + (size as int) <= total_size),
        block_within_data(num_pieces, piece_length, total_size, piece, offset, size)
            ==> (piece as int) * (piece_length as int) + (offset as int) + (size as int)
            <= total_size,
        block_within_data(num_pieces, piece_length, total_size, piece, later, size) && 0
            <= offset <= later ==> block_within_data(
            num_pieces,
            piece_length,
            total_size,
            piece,
            offset,
            size,
        ),
{
}

/// A byte range of a file is accepted exactly when it lies inside the
/// file: offset and size non-negative, ending at or before the file's end.
pub proof fn lemma_file_range_inside(file_size: i64, offset: i64, size: i32)
    ensures
        range_within_file(file_size, offset, size) <==> (offset >= 0 && size >= 0 && (offset as int)
            + (size as int) <= file_size),
{
}

/// A file or piece index libtorrent reported: negative means "none".
pub fn index_from_reported(index: i32) -> (r: Option<i32>)
    ensures
        index >= 0 ==> r == Some(index),
        index < 0 ==> r is None,
{
    if index >= 0 {
        Some(index)
    } else {
        None
    }
}

/// The digests packed back to back in `bytes`, 20 bytes each; a trailing
/// partial digest is ignored.
pub open spec fn sha1_chunks(bytes: Seq<u8>) -> Seq<Seq<u8>> {
    Seq::new(bytes.len() / 20, |i: int| bytes.subrange(20 * i, 20 * i + 20))
}

/// Splits a byte string into the SHA-1 digests it packs (BEP 38's
/// similar-torrent lists).
pub fn split_sha1_list(bytes: &[u8]) -> (r: Vec<Sha1Hash>)
    ensures
        r@.len() == sha1_chunks(bytes@).len(),
        forall|i: int| 0 <= i < r@.len() ==> (#[trigger] r@[i]).0@ == sha1_chunks(bytes@)[i],
{
    let len = bytes.len();
    let n = len / 20;
    let mut out: Vec<Sha1Hash> = Vec::new();
    let mut k: usize = 0;
    while k < n
        invariant
            len == bytes@.len(),
            n == bytes@.len() / 20,
            k <= n,
            out@.len() == k,
            forall|i: int| 0 <= i < k ==> (#[trigger] out@[i]).0@ == sha1_chunks(bytes@)[i],
        decreases n - k,
    {
        let mut digest = [0u8; 20];
        let mut j: usize = 0;
        assert(20 * k + 20 <= bytes@.len()) by (nonlinear_arith)
            requires
                k < n,
                n == bytes@.len() / 20,
        ;
        assert(20 * k + 20 <= len);
        let base: usize = 20 * k;
        while j < 20
            invariant
                j <= 20,
                base + 20 <= bytes@.len(),
                len == bytes@.len(),
                forall|t: int| 0 <= t < j ==> digest@[t] == bytes@[base + t],
            decreases 20 - j,
        {
            digest[j] = bytes[base + j];
            j += 1;
        }
        proof {
            assert(digest@ =~= bytes@.subrange(base as int, base as int + 20));
        }
        out.push(Sha1Hash(digest));
        k += 1;
    }
    out
}

} // verus!
