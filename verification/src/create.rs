//! Torrent creation: the file entries a torrent is built from, and the
//! validation a creation request passes before anything reaches
//! libtorrent (which only asserts most of these rules, and otherwise
//! silently rewrites or misreads the request).

use vstd::prelude::*;

use vstd::string::StringSliceAdditionalSpecFns;

use crate::alerts::requests::binding_error;
use crate::error::Error;
use crate::text::{push_str, string_of};

verus! {

/// `String::from_utf8_lossy`: the text of `bytes`, with each invalid
/// UTF-8 sequence replaced by U+FFFD.
pub uninterp spec fn utf8_lossy(bytes: Seq<u8>) -> Seq<char>;

/// Decodes `bytes` with `String::from_utf8_lossy`. Claimed: the result
/// is the named lossy decoding of the bytes, and for valid UTF-8 it is the
/// decoded text itself (the documentation: valid input is returned
/// unchanged). What replaces invalid sequences is left unsaid.
#[verifier::external_body]
fn lossy_text(bytes: &[u8]) -> (r: String)
    ensures
        r@ == utf8_lossy(bytes@),
        vstd::utf8::valid_utf8(bytes@) ==> r@ == vstd::utf8::decode_utf8(bytes@),
{
    String::from_utf8_lossy(bytes).into_owned()
}

/// `file_storage` file flags, for [`FileFlags::from_bits_truncate`].
pub const FILE_PAD_FILE: u32 = 0x1;
pub const FILE_HIDDEN: u32 = 0x2;
pub const FILE_EXECUTABLE: u32 = 0x4;
pub const FILE_SYMLINK: u32 = 0x8;

/// File flags for torrent creation.
#[derive(Clone, Copy, Debug, PartialEq, Eq, Structural)]
pub struct FileFlags(u32);

impl View for FileFlags {
    type V = u32;

    closed spec fn view(&self) -> u32 {
        self.0
    }
}

impl FileFlags {
    pub fn empty() -> (r: FileFlags)
        ensures
            r@ == 0,
    {
        FileFlags(0)
    }

    /// The known flags of `bits`; unknown bits are dropped.
    pub fn from_bits_truncate(bits: u32) -> (r: FileFlags)
        ensures
            r@ == bits & 0xf,
    {
        FileFlags(bits & 0xf)
    }

    pub fn bits(self) -> (r: u32)
        ensures
            r == self@,
    {
        self.0
    }

    pub fn contains(self, other: FileFlags) -> (r: bool)
        ensures
            r == (self@ & other@ == other@),
    {
        self.0 & other.0 == other.0
    }

    /// `self | other`.
    pub fn union(self, other: FileFlags) -> (r: FileFlags)
        ensures
            r@ == self@ | other@,
    {
        FileFlags(self.0 | other.0)
    }
}

/// `create_torrent` flag bits, for [`CreateFlags::from_bits_truncate`].
pub const CREATE_MODIFICATION_TIME: u32 = 0x4;
pub const CREATE_SYMLINKS: u32 = 0x8;
pub const CREATE_V2_ONLY: u32 = 0x20;
pub const CREATE_V1_ONLY: u32 = 0x40;
pub const CREATE_CANONICAL_FILES: u32 = 0x80;
pub const CREATE_NO_ATTRIBUTES: u32 = 0x100;
pub const CREATE_CANONICAL_FILES_NO_TAIL_PADDING: u32 = 0x200;

/// Creation flags.
#[derive(Clone, Copy, Debug, PartialEq, Eq, Structural)]
pub struct CreateFlags(u32);

impl View for CreateFlags {
    type V = u32;

    closed spec fn view(&self) -> u32 {
        self.0
    }
}

impl CreateFlags {
    pub fn empty() -> (r: CreateFlags)
        ensures
            r@ == 0,
    {
        CreateFlags(0)
    }

    /// The known flags of `bits`; unknown bits are dropped.
    pub fn from_bits_truncate(bits: u32) -> (r: CreateFlags)
        ensures
            r@ == bits & 0x3ec,
    {
        CreateFlags(bits & 0x3ec)
    }

    pub fn bits(self) -> (r: u32)
        ensures
            r == self@,
    {
        self.0
    }

    pub fn contains(self, other: CreateFlags) -> (r: bool)
        ensures
            r == (self@ & other@ == other@),
    {
        self.0 & other.0 == other.0
    }

    /// `self | other`.
    pub fn union(self, other: CreateFlags) -> (r: CreateFlags)
        ensures
            r@ == self@ | other@,
    {
        CreateFlags(self.0 | other.0)
    }
}

/// Whether `bytes` contains a NUL byte.
pub open spec fn has_nul(bytes: Seq<u8>) -> bool {
    bytes.contains(0u8)
}

fn bytes_have_nul(bytes: &[u8]) -> (r: bool)
    ensures
        r == has_nul(bytes@),
{
    let mut i: usize = 0;
    while i < bytes.len()
        invariant
            i <= bytes@.len(),
            forall|k: int| 0 <= k < i ==> bytes@[k] != 0u8,
        decreases bytes.len() - i,
    {
        if bytes[i] == 0 {
            return true;
        }
        i += 1;
    }
    false
}

/// File entry for torrent creation.
#[derive(Clone, Debug)]
pub struct FileEntry {
    /// The entry's path relative to the torrent's base directory, as bytes
    /// (never holding a NUL byte: it travels as a C string).
    path: Vec<u8>,
    pub size: i64,
    pub flags: FileFlags,
    pub mtime: Option<i64>,
    /// The target of a symlink entry, as bytes (never holding a NUL byte).
    symlink_target: Option<Vec<u8>>,
}

impl FileEntry {
    /// The entry's relative path, as bytes.
    pub closed spec fn spec_path(&self) -> Seq<u8> {
        self.path@
    }

    /// The entry's size in bytes.
    pub closed spec fn spec_size(&self) -> i64 {
        self.size
    }

    /// The entry's flags.
    pub closed spec fn spec_flags(&self) -> FileFlags {
        self.flags
    }

    /// The entry's modification time, if known.
    pub closed spec fn spec_mtime(&self) -> Option<i64> {
        self.mtime
    }

    /// The symlink target, as bytes.
    pub closed spec fn spec_symlink_target(&self) -> Option<Seq<u8>> {
        match self.symlink_target {
            Some(t) => Some(t@),
            None => None,
        }
    }

    /// An entry for the file at relative `path` (its bytes) of `size`
    /// bytes. Errors if the path contains a NUL byte (it ends up in C
    /// string APIs downstream, which would silently truncate it) or `size`
    /// is negative.
    pub fn new(path: &str, size: i64) -> (r: Result<FileEntry, Error>)
        ensures
            has_nul(path.spec_bytes()) ==> (r matches Err(e) && e@ == binding_error(
                "path contains a NUL byte"@,
            )),
            !has_nul(path.spec_bytes()) && size < 0 ==> (r matches Err(e) && e@ == binding_error(
                "file size must not be negative"@,
            )),
            !has_nul(path.spec_bytes()) && size >= 0 ==> (r matches Ok(f) && f.spec_path()
                == path.spec_bytes() && f.spec_size() == size && f.spec_flags()@ == 0 && f.spec_mtime() is None
                && f.spec_symlink_target() is None),
    {
        let bytes = path.as_bytes();
        if bytes_have_nul(bytes) {
            return Err(Error::binding("path contains a NUL byte"));
        }
        if size < 0 {
            return Err(Error::binding("file size must not be negative"));
        }
        let mut p: Vec<u8> = Vec::new();
        let mut i: usize = 0;
        while i < bytes.len()
            invariant
                i <= bytes@.len(),
                p@ == bytes@.take(i as int),
            decreases bytes.len() - i,
        {
            p.push(bytes[i]);
            i += 1;
            proof {
                assert(p@ =~= bytes@.take(i as int));
            }
        }
        proof {
            assert(bytes@.take(i as int) =~= bytes@);
        }
        Ok(FileEntry { path: p, size, flags: FileFlags::empty(), mtime: None, symlink_target: None })
    }

    /// An entry as a directory listing reports it (its path and symlink
    /// target are C strings, so they hold no NUL byte): a zero
    /// modification time means "unknown", and unknown flag bits are
    /// dropped.
    pub fn from_listing(
        path: Vec<u8>,
        size: i64,
        flags: u32,
        mtime: i64,
        symlink_target: Option<Vec<u8>>,
    ) -> (r: FileEntry)
        requires
            !has_nul(path@),
            symlink_target matches Some(t) ==> !has_nul(t@),
        ensures
            r.spec_path() == path@,
            r.spec_size() == size,
            r.spec_flags()@ == flags & 0xf,
            mtime == 0 ==> r.spec_mtime() is None,
            mtime != 0 ==> r.spec_mtime() == Some(mtime),
            r.spec_symlink_target() == (match symlink_target {
                Some(t) => Some(t@),
                None => None::<Seq<u8>>,
            }),
    {
        FileEntry {
            path,
            size,
            flags: FileFlags::from_bits_truncate(flags),
            mtime: if mtime != 0 {
                Some(mtime)
            } else {
                None
            },
            symlink_target,
        }
    }

    /// The path's bytes.
    pub fn path(&self) -> (r: &[u8])
        ensures
            r@ == self.spec_path(),
    {
        self.path.as_slice()
    }

    /// The symlink target's bytes, if any.
    pub fn symlink_target(&self) -> (r: Option<&[u8]>)
        ensures
            match r {
                Some(t) => self.spec_symlink_target() == Some(t@),
                None => self.spec_symlink_target() is None,
            },
    {
        match &self.symlink_target {
            Some(t) => Some(t.as_slice()),
            None => None,
        }
    }

    /// Set file flags.
    pub fn with_flags(self, flags: FileFlags) -> (r: FileEntry)
        ensures
            r.spec_flags() == flags,
            r.spec_size() == self.spec_size(),
            r.spec_mtime() == self.spec_mtime(),
            r.spec_path() == self.spec_path(),
            r.spec_symlink_target() == self.spec_symlink_target(),
    {
        let mut e = self;
        e.flags = flags;
        e
    }

    /// Set modification time.
    pub fn with_mtime(self, mtime: i64) -> (r: FileEntry)
        ensures
            r.spec_mtime() == Some(mtime),
            r.spec_size() == self.spec_size(),
            r.spec_flags() == self.spec_flags(),
            r.spec_path() == self.spec_path(),
            r.spec_symlink_target() == self.spec_symlink_target(),
    {
        let mut e = self;
        e.mtime = Some(mtime);
        e
    }

    /// Set the symlink target (its bytes), marking the entry as a symlink.
    /// Errors if the target contains a NUL byte.
    pub fn with_symlink(self, target: &str) -> (r: Result<FileEntry, Error>)
        ensures
            has_nul(target.spec_bytes()) ==> (r matches Err(e) && e@ == binding_error(
                "path contains a NUL byte"@,
            )),
            !has_nul(target.spec_bytes()) ==> (r matches Ok(f) && f.spec_symlink_target() == Some(
                target.spec_bytes(),
            ) && f.spec_flags()@ == self.spec_flags()@ | FILE_SYMLINK && f.spec_size() == self.spec_size() && f.spec_mtime()
                == self.spec_mtime() && f.spec_path() == self.spec_path()),
    {
        let bytes = target.as_bytes();
        if bytes_have_nul(bytes) {
            return Err(Error::binding("path contains a NUL byte"));
        }
        let mut t: Vec<u8> = Vec::new();
        let mut i: usize = 0;
        while i < bytes.len()
            invariant
                i <= bytes@.len(),
                t@ == bytes@.take(i as int),
            decreases bytes.len() - i,
        {
            t.push(bytes[i]);
            i += 1;
            proof {
                assert(t@ =~= bytes@.take(i as int));
            }
        }
        proof {
            assert(bytes@.take(i as int) =~= bytes@);
        }
        let mut e = self;
        e.symlink_target = Some(t);
        e.flags = e.flags.union(FileFlags(FILE_SYMLINK));
        Ok(e)
    }
}

/// Progress callback for hashing a torrent's pieces.
pub trait PieceHashProgress {
    /// Called once per hashed piece. Return `true` to keep hashing;
    /// `false` aborts the run, which then fails with an error for which
    /// [`Error::is_cancelled`] holds.
    fn on_piece(&mut self, piece_index: u32) -> bool;
}

// ---- validation of a creation request ----------------------------------------------------

/// Largest accepted piece size (128 MiB); libtorrent rejects anything larger.
pub const MAX_PIECE_SIZE: u32 = 134217728;

/// Smallest accepted piece size (16 KiB).
pub const MIN_PIECE_SIZE: u32 = 16384;

/// Largest piece count libtorrent can represent (`lt::file_storage::max_num_pieces`).
pub const MAX_PIECE_COUNT: u32 = 1073741823;

/// Whether `n` is a power of two.
pub open spec fn power_of_two(n: nat) -> bool
    decreases n,
{
    if n == 1 {
        true
    } else if n == 0 || n % 2 == 1 {
        false
    } else {
        power_of_two(n / 2)
    }
}

fn is_power_of_two(n: u32) -> (r: bool)
    ensures
        r == power_of_two(n as nat),
{
    let mut m: u32 = n;
    while m != 1 && m != 0 && m % 2 == 0
        invariant
            power_of_two(n as nat) == power_of_two(m as nat),
        decreases m,
    {
        m = m / 2;
    }
    m == 1
}

/// Whether byte `b` separates path components: `/`, and also `\\` where
/// backslashes separate too (on Windows).
pub open spec fn is_separator(b: u8, backslash: bool) -> bool {
    b == 47u8 || (backslash && b == 92u8)
}

/// Whether byte `b` separates path components (see [`is_separator`]).
fn separates(b: u8, backslash: bool) -> (r: bool)
    ensures
        r == is_separator(b, backslash),
{
    b == 47u8 || (backslash && b == 92u8)
}

/// The platform's main path separator (`std::path::MAIN_SEPARATOR`):
/// `\\` on Windows, `/` elsewhere. Nothing is claimed of it: it depends
/// on the platform the crate is built for.
#[verifier::external_body]
fn main_separator() -> (r: char) {
    std::path::MAIN_SEPARATOR
}

/// The index of the first separator in `p`, or -1.
pub open spec fn first_separator(p: Seq<u8>, backslash: bool) -> int
    decreases p.len(),
{
    if p.len() == 0 {
        -1
    } else if is_separator(p[0], backslash) {
        0
    } else {
        let r = first_separator(p.drop_first(), backslash);
        if r < 0 {
            -1
        } else {
            r + 1
        }
    }
}

proof fn lemma_first_separator(p: Seq<u8>, backslash: bool)
    ensures
        -1 <= first_separator(p, backslash) < p.len(),
        first_separator(p, backslash) >= 0 ==> is_separator(p[first_separator(p, backslash)], backslash),
        forall|j: int| 0 <= j < first_separator(p, backslash) ==> !is_separator(p[j], backslash),
        first_separator(p, backslash) == -1 ==> forall|j: int| 0 <= j < p.len() ==> !is_separator(p[j], backslash),
    decreases p.len(),
{
    if p.len() > 0 && !is_separator(p[0], backslash) {
        lemma_first_separator(p.drop_first(), backslash);
        assert forall|j: int| 0 < j < p.len() implies p[j] == p.drop_first()[j - 1] by {}
    }
}

/// The separated components of a relative path.
pub open spec fn components(p: Seq<u8>, backslash: bool) -> Seq<Seq<u8>>
    decreases p.len(),
{
    let i = first_separator(p, backslash);
    if i < 0 || i >= p.len() {
        seq![p]
    } else {
        seq![p.take(i)] + components(p.skip(i + 1), backslash)
    }
}

/// Whether a path component is empty, `.` or `..`.
pub open spec fn bad_component(c: Seq<u8>) -> bool {
    c.len() == 0 || c =~= seq![46u8] || c =~= seq![46u8, 46u8]
}

/// Whether some component of `p` is empty, `.` or `..`.
pub open spec fn has_bad_component(p: Seq<u8>, backslash: bool) -> bool {
    exists|k: int| 0 <= k < components(p, backslash).len() && bad_component(#[trigger] components(p, backslash)[k])
}

/// The plain content of a file entry that creation looks at.
pub open spec fn entry_of(f: FileEntry) -> (Seq<u8>, i64) {
    (f.spec_path(), f.spec_size())
}

/// The running state of the validation scan: the total size so far, the
/// paths seen, and the root directory of a multi-file torrent.
pub ghost struct ScanState {
    pub total: int,
    pub seen: Seq<Seq<u8>>,
    pub root: Option<Seq<u8>>,
}

/// Checks one entry against the scan state: its size, the running total,
/// its path (non-empty, not seen before, no empty/`.`/`..` component),
/// and, for a multi-file torrent, that it lies inside the one root
/// directory every file shares.
pub open spec fn check_entry(e: (Seq<u8>, i64), s: ScanState, multi: bool, backslash: bool) -> Result<
    ScanState,
    Seq<char>,
> {
    let (path, size) = e;
    let shown = utf8_lossy(path);
    if size < 0 {
        Err("file entry has a negative size"@)
    } else if s.total + size > i64::MAX {
        Err("total file size overflows"@)
    } else if path.len() == 0 {
        Err("file entry has an empty path"@)
    } else if s.seen.contains(path) {
        Err("duplicate path "@ + shown)
    } else if has_bad_component(path, backslash) {
        Err("path "@ + shown + " has an empty, `.`, or `..` component"@)
    } else if !multi {
        Ok(ScanState { total: s.total + size, seen: s.seen.push(path), root: s.root })
    } else if components(path, backslash).len() < 2 {
        Err("path "@ + shown + " must be inside the torrent's root directory (multi-file layout)"@)
    } else {
        match s.root {
            Some(r) => if r != components(path, backslash)[0] {
                Err(
                    "path "@ + shown + " is outside the root directory "@ + utf8_lossy(r)
                        + ": all files of a multi-file torrent share one root"@,
                )
            } else {
                Ok(ScanState { total: s.total + size, seen: s.seen.push(path), root: s.root })
            },
            None => Ok(
                ScanState {
                    total: s.total + size,
                    seen: s.seen.push(path),
                    root: Some(components(path, backslash)[0]),
                },
            ),
        }
    }
}

/// Checks the entries from `i` on, in order: the first failure, or the
/// total size.
pub open spec fn scan_entries(es: Seq<(Seq<u8>, i64)>, i: int, s: ScanState, multi: bool, backslash: bool) -> Result<
    int,
    Seq<char>,
>
    decreases es.len() - i,
{
    if i < 0 || i >= es.len() {
        Ok(s.total)
    } else {
        match check_entry(es[i], s, multi, backslash) {
            Err(m) => Err(m),
            Ok(next) => scan_entries(es, i + 1, next, multi, backslash),
        }
    }
}

/// What is wrong with a creation request, if anything: the piece size
/// (0 means "pick one"; otherwise a power of two within 16 KiB..=128 MiB),
/// then each entry in order, then the piece count (canonicalization pads
/// each file to a piece boundary, adding at most one piece per file).
pub open spec fn create_problem(es: Seq<(Seq<u8>, i64)>, piece_size: u32, backslash: bool) -> Option<Seq<char>> {
    if piece_size != 0 && piece_size > MAX_PIECE_SIZE {
        Some("piece_size exceeds 128 MiB maximum"@)
    } else if piece_size != 0 && piece_size < MIN_PIECE_SIZE {
        Some("piece_size is below the 16 KiB minimum"@)
    } else if piece_size != 0 && !power_of_two(piece_size as nat) {
        Some("piece_size must be a power of two"@)
    } else {
        match scan_entries(es, 0, ScanState { total: 0, seen: Seq::empty(), root: None }, es.len() > 1, backslash) {
            Err(m) => Some(m),
            Ok(total) => if piece_size != 0 && total / (piece_size as int) > MAX_PIECE_COUNT - (
            if total % (piece_size as int) != 0 {
                1int
            } else {
                0int
            }) - es.len() {
                Some("total size / piece_size exceeds the maximum piece count"@)
            } else {
                None
            },
        }
    }
}

/// The components of the path `v[from..]` begin with a component that
/// ends at the first `/` at or after `from` (or at the end).
fn component_end(v: &[u8], from: usize, backslash: bool) -> (r: usize)
    requires
        from <= v@.len(),
    ensures
        from <= r <= v@.len(),
        forall|k: int| from <= k < r ==> !is_separator(v@[k], backslash),
        r < v@.len() ==> is_separator(v@[r as int], backslash),
{
    let mut j: usize = from;
    while j < v.len() && !separates(v[j], backslash)
        invariant
            from <= j <= v@.len(),
            forall|k: int| from <= k < j ==> !is_separator(v@[k], backslash),
        decreases v.len() - j,
    {
        j += 1;
    }
    j
}

/// Splitting `p` at its first `/`.
proof fn lemma_components_step(p: Seq<u8>, j: int, backslash: bool)
    requires
        0 <= j <= p.len(),
        forall|k: int| 0 <= k < j ==> !is_separator(p[k], backslash),
        j < p.len() ==> is_separator(p[j], backslash),
    ensures
        j < p.len() ==> components(p, backslash) == seq![p.take(j)] + components(p.skip(j + 1), backslash),
        j == p.len() ==> components(p, backslash) == seq![p],
{
    lemma_first_separator(p, backslash);
    if j < p.len() {
        assert(first_separator(p, backslash) == j) by {
            let f = first_separator(p, backslash);
            if f < j && f >= 0 {
                assert(!is_separator(p[f], backslash));
            }
            if f < 0 {
                assert(!is_separator(p[j], backslash));
            }
        }
    } else {
        assert(first_separator(p, backslash) < 0) by {
            let f = first_separator(p, backslash);
            if f >= 0 {
                assert(!is_separator(p[f], backslash));
            }
        }
    }
}

/// Whether a component `v[a..b]` is empty, `.` or `..`.
fn is_bad_component(v: &[u8], a: usize, b: usize) -> (r: bool)
    requires
        a <= b <= v@.len(),
    ensures
        r == bad_component(v@.subrange(a as int, b as int)),
{
    let ghost c = v@.subrange(a as int, b as int);
    if a == b {
        return true;
    }
    if b - a == 1 {
        proof {
            if v@[a as int] == 46u8 {
                assert(c =~= seq![46u8]);
            } else {
                assert(c[0] != seq![46u8][0]);
                assert(!(c =~= seq![46u8, 46u8]));
            }
        }
        return v[a] == 46u8;
    }
    if b - a == 2 {
        proof {
            if v@[a as int] == 46u8 && v@[a + 1] == 46u8 {
                assert(c =~= seq![46u8, 46u8]);
            } else if v@[a as int] != 46u8 {
                assert(c[0] != seq![46u8, 46u8][0]);
            } else {
                assert(c[1] != seq![46u8, 46u8][1]);
            }
        }
        return v[a] == 46u8 && v[a + 1] == 46u8;
    }
    false
}

/// The path's first component (`v[0..end]`) and whether it has a second,
/// after checking every component: `None` if some component is empty,
/// `.` or `..`.
fn scan_components(v: &[u8], backslash: bool) -> (r: Option<(usize, bool)>)
    ensures
        has_bad_component(v@, backslash) ==> r is None,
        !has_bad_component(v@, backslash) ==> (r matches Some(x) && x.0 <= v@.len() && components(v@, backslash)[0]
            == v@.take(x.0 as int) && x.1 == (components(v@, backslash).len() >= 2)),
{
    let n = v.len();
    let mut pos: usize = 0;
    let ghost mut done: Seq<Seq<u8>> = Seq::empty();
    let mut first_end: usize = 0;
    let mut count: usize = 0;
    proof {
        assert(v@.skip(0) =~= v@);
    }
    loop
        invariant
            n == v@.len(),
            pos <= n,
            components(v@, backslash) == done + components(v@.skip(pos as int), backslash),
            forall|k: int| 0 <= k < done.len() ==> !bad_component(#[trigger] done[k]),
            done.len() > 0 ==> first_end <= n && done[0] == v@.take(first_end as int),
            done.len() == 0 ==> pos == 0,
            count == done.len(),
            count <= pos,
        decreases n - pos,
    {
        let j = component_end(v, pos, backslash);
        let ghost rest = v@.skip(pos as int);
        proof {
            lemma_components_step(rest, j - pos, backslash);
            assert(rest.take(j - pos) =~= v@.subrange(pos as int, j as int));
            if j < n {
                assert(rest.skip(j - pos + 1) =~= v@.skip(j + 1));
            }
        }
        if is_bad_component(v, pos, j) {
            proof {
                let k = done.len() as int;
                assert(components(v@, backslash)[k] == v@.subrange(pos as int, j as int));
                assert(bad_component(components(v@, backslash)[k]));
            }
            return None;
        }
        proof {
            if done.len() == 0 {
                assert(v@.subrange(0, j as int) =~= v@.take(j as int));
            }
        }
        if pos == 0 {
            first_end = j;
        }
        proof {
            done = done.push(v@.subrange(pos as int, j as int));
        }
        count = count + 1;
        if j == n {
            proof {
                assert(components(v@, backslash) =~= done);
                assert forall|k: int| 0 <= k < components(v@, backslash).len() implies !bad_component(
                    #[trigger] components(v@, backslash)[k],
                ) by {}
            }
            return Some((first_end, count >= 2));
        }
        proof {
            assert(components(v@, backslash) =~= done + components(v@.skip(j + 1), backslash));
        }
        pos = j + 1;
    }
}

/// Whether `a` and `b` are equal.
fn bytes_equal(a: &[u8], b: &[u8]) -> (r: bool)
    ensures
        r == (a@ == b@),
{
    if a.len() != b.len() {
        return false;
    }
    let mut i: usize = 0;
    while i < a.len()
        invariant
            i <= a@.len() == b@.len(),
            forall|k: int| 0 <= k < i ==> a@[k] == b@[k],
        decreases a.len() - i,
    {
        if a[i] != b[i] {
            return false;
        }
        i += 1;
    }
    proof {
        assert(a@ =~= b@);
    }
    true
}

/// Checks a text field of the torrent being created (comment, creator,
/// URL, hostname, PEM, collection name) before it travels as a C string:
/// it may not contain NUL.
pub fn check_c_text(field: &str, text: &str) -> (r: Result<(), Error>)
    ensures
        !text@.contains('\0') ==> r is Ok,
        text@.contains('\0') ==> (r matches Err(e) && e@ == binding_error(
            field@ + " contains null byte"@,
        )),
{
    let chars = crate::text::to_chars(text);
    if crate::text::chars_contain(chars.as_slice(), '\0') {
        let mut m = string_of(field);
        push_str(&mut m, " contains null byte");
        Err(Error::binding(m.as_str()))
    } else {
        Ok(())
    }
}

/// The creation date to record, in seconds since the Unix epoch, from the
/// timestamp's distance past the epoch (`None` for a timestamp before it,
/// which is refused). Distances beyond `i64::MAX` seconds wrap, as a cast
/// does.
pub fn creation_date_secs(since_epoch: Option<u64>) -> (r: Result<i64, Error>)
    ensures
        since_epoch is None ==> (r matches Err(e) && e@ == binding_error("Invalid timestamp"@)),
        since_epoch matches Some(s) ==> r == Ok::<i64, Error>(s as i64),
{
    match since_epoch {
        None => Err(Error::binding("Invalid timestamp")),
        Some(s) => Ok(s as i64),
    }
}

/// Whether `r` is the outcome of a creation request with `problem`.
pub open spec fn reports(r: Result<(), Error>, problem: Option<Seq<char>>) -> bool {
    match problem {
        None => r is Ok,
        Some(m) => r matches Err(e) && e@ == binding_error(m),
    }
}

/// Validates a creation request on this platform: path components are
/// separated by `/`, and on Windows by `\\` too (see
/// [`validate_create_on`]). The outcome is that of one of the two rule
/// sets; which one is the platform's.
pub fn validate_create(files: &[FileEntry], piece_size: u32) -> (r: Result<(), Error>)
    ensures
        reports(r, create_problem(Seq::new(files@.len(), |i: int| entry_of(files@[i])), piece_size, false))
            || reports(
            r,
            create_problem(Seq::new(files@.len(), |i: int| entry_of(files@[i])), piece_size, true),
        ),
{
    let backslash = main_separator() == '\\';
    validate_create_on(files, piece_size, backslash)
}

/// Validates a creation request: `files` in the order they will be
/// listed, and `piece_size` in bytes (0 = auto; otherwise a power of 2,
/// at least 16 KiB, at most [`MAX_PIECE_SIZE`]), with path components
/// separated by `/` and, when `backslash` holds (on Windows), by `\\`
/// too. The first rule broken is reported.
pub fn validate_create_on(files: &[FileEntry], piece_size: u32, backslash: bool) -> (r: Result<
    (),
    Error,
>)
    ensures
        reports(r, create_problem(Seq::new(files@.len(), |i: int| entry_of(files@[i])), piece_size, backslash)),
{
    let ghost es = Seq::new(files@.len(), |i: int| entry_of(files@[i]));
    if piece_size != 0 && piece_size > MAX_PIECE_SIZE {
        return Err(Error::binding("piece_size exceeds 128 MiB maximum"));
    }
    if piece_size != 0 && piece_size < MIN_PIECE_SIZE {
        return Err(Error::binding("piece_size is below the 16 KiB minimum"));
    }
    if piece_size != 0 && !is_power_of_two(piece_size) {
        return Err(Error::binding("piece_size must be a power of two"));
    }
    let multi = files.len() > 1;
    let mut total: i64 = 0;
    let mut seen: Vec<&[u8]> = Vec::new();
    let mut root: Option<&[u8]> = None;
    let mut i: usize = 0;
    let ghost init = ScanState { total: 0, seen: Seq::empty(), root: None };
    proof {
        assert(Seq::new(seen@.len(), |k: int| seen@[k]@) =~= Seq::<Seq<u8>>::empty());
    }
    while i < files.len()
        invariant
            i <= files@.len(),
            es == Seq::new(files@.len(), |k: int| entry_of(files@[k])),
            multi == (files@.len() > 1),
            total >= 0,
            init == (ScanState { total: 0, seen: Seq::empty(), root: None }),
            !(piece_size != 0 && piece_size > MAX_PIECE_SIZE),
            !(piece_size != 0 && piece_size < MIN_PIECE_SIZE),
            !(piece_size != 0 && !power_of_two(piece_size as nat)),
            scan_entries(es, 0, init, multi, backslash) == scan_entries(
                es,
                i as int,
                ScanState {
                    total: total as int,
                    seen: Seq::new(seen@.len(), |k: int| seen@[k]@),
                    root: match root {
                        Some(r) => Some(r@),
                        None => None,
                    },
                },
                multi,
                backslash,
            ),
        decreases files.len() - i,
    {
        let f = &files[i];
        let path = f.path();
        let ghost s = ScanState {
            total: total as int,
            seen: Seq::new(seen@.len(), |k: int| seen@[k]@),
            root: match root {
                Some(r) => Some(r@),
                None => None,
            },
        };
        proof {
            assert(es[i as int] == (path@, f.size));
            lemma_scan_step(es, i as int, s, multi, backslash);
        }
        if f.size < 0 {
            return Err(Error::binding("file entry has a negative size"));
        }
        if total > i64::MAX - f.size {
            return Err(Error::binding("total file size overflows"));
        }
        if path.len() == 0 {
            return Err(Error::binding("file entry has an empty path"));
        }
        if seen_contains(seen.as_slice(), path) {
            let mut m = string_of("duplicate path ");
            let shown = lossy_text(path);
            push_str(&mut m, shown.as_str());
            return Err(Error::binding(m.as_str()));
        }
        let comps = scan_components(path, backslash);
        let (first_end, has_second) = match comps {
            None => {
                let mut m = string_of("path ");
                let shown = lossy_text(path);
                push_str(&mut m, shown.as_str());
                push_str(&mut m, " has an empty, `.`, or `..` component");
                return Err(Error::binding(m.as_str()));
            },
            Some(x) => x,
        };
        if multi {
            if !has_second {
                let mut m = string_of("path ");
                let shown = lossy_text(path);
                push_str(&mut m, shown.as_str());
                push_str(&mut m, " must be inside the torrent's root directory (multi-file layout)");
                return Err(Error::binding(m.as_str()));
            }
            let this_root: &[u8] = slice_prefix(path, first_end);
            match root {
                None => {
                    root = Some(this_root);
                },
                Some(expected) => {
                    if !bytes_equal(expected, this_root) {
                        let mut m = string_of("path ");
                        let shown = lossy_text(path);
                        push_str(&mut m, shown.as_str());
                        push_str(&mut m, " is outside the root directory ");
                        let shown_root = lossy_text(expected);
                        push_str(&mut m, shown_root.as_str());
                        push_str(&mut m, ": all files of a multi-file torrent share one root");
                        return Err(Error::binding(m.as_str()));
                    }
                },
            }
        }
        total = total + f.size;
        seen.push(path);
        proof {
            assert(Seq::new(seen@.len(), |t: int| seen@[t]@) =~= s.seen.push(path@));
        }
        i += 1;
    }
    proof {
        assert(scan_entries(es, i as int, ScanState {
            total: total as int,
            seen: Seq::new(seen@.len(), |k: int| seen@[k]@),
            root: match root {
                Some(r) => Some(r@),
                None => None,
            },
        }, multi, backslash) == Ok::<int, Seq<char>>(total as int));
    }
    if piece_size != 0 {
        let ps: i64 = piece_size as i64;
        let partial: i128 = if total % ps != 0 {
            1
        } else {
            0
        };
        let budget: i128 = (MAX_PIECE_COUNT as i128) - partial - (files.len() as i128);
        if ((total / ps) as i128) > budget {
            return Err(Error::binding("total size / piece_size exceeds the maximum piece count"));
        }
    }
    Ok(())
}

/// Whether `path` is among the `seen` paths.
fn seen_contains(seen: &[&[u8]], path: &[u8]) -> (r: bool)
    ensures
        r == Seq::new(seen@.len(), |t: int| seen@[t]@).contains(path@),
{
    let ghost all = Seq::new(seen@.len(), |t: int| seen@[t]@);
    let mut k: usize = 0;
    while k < seen.len()
        invariant
            k <= seen@.len(),
            all == Seq::new(seen@.len(), |t: int| seen@[t]@),
            forall|t: int| 0 <= t < k ==> seen@[t]@ != path@,
        decreases seen.len() - k,
    {
        if bytes_equal(seen[k], path) {
            proof {
                assert(all[k as int] == path@);
            }
            return true;
        }
        k += 1;
    }
    proof {
        if all.contains(path@) {
            let t = choose|t: int| 0 <= t < all.len() && all[t] == path@;
            assert(seen@[t]@ == path@);
        }
    }
    false
}

/// One step of the scan: checking entry `i` and going on from there.
proof fn lemma_scan_step(es: Seq<(Seq<u8>, i64)>, i: int, s: ScanState, multi: bool, backslash: bool)
    requires
        0 <= i < es.len(),
    ensures
        scan_entries(es, i, s, multi, backslash) == (match check_entry(es[i], s, multi, backslash) {
            Err(m) => Err(m),
            Ok(next) => scan_entries(es, i + 1, next, multi, backslash),
        }),
{
}

/// A scan that succeeds from entry `i` on, having seen exactly the paths
/// before `i` (pairwise distinct), found every path distinct.
proof fn lemma_scan_ok_paths_distinct(
    es: Seq<(Seq<u8>, i64)>,
    i: int,
    s: ScanState,
    multi: bool,
    backslash: bool,
)
    requires
        0 <= i <= es.len(),
        s.seen == Seq::new(i as nat, |k: int| es[k].0),
        scan_entries(es, i, s, multi, backslash) is Ok,
        forall|a: int, b: int| 0 <= a < b < i ==> es[a].0 != es[b].0,
    ensures
        forall|a: int, b: int| 0 <= a < b < es.len() ==> es[a].0 != es[b].0,
    decreases es.len() - i,
{
    if i < es.len() {
        let c = check_entry(es[i], s, multi, backslash);
        assert(c is Ok);
        let next = c->Ok_0;
        assert(!s.seen.contains(es[i].0));
        assert(next.seen == s.seen.push(es[i].0));
        assert forall|a: int, b: int| 0 <= a < b < i + 1 implies es[a].0 != es[b].0 by {
            if b == i && es[a].0 == es[i].0 {
                assert(s.seen[a] == es[a].0);
                assert(s.seen.contains(es[i].0));
            }
        }
        assert(next.seen =~= Seq::new((i + 1) as nat, |k: int| es[k].0));
        lemma_scan_ok_paths_distinct(es, i + 1, next, multi, backslash);
    }
}

/// The sum of the sizes of the first `n` entries.
pub open spec fn sum_sizes(es: Seq<(Seq<u8>, i64)>, n: int) -> int
    decreases n,
{
    if n <= 0 {
        0
    } else {
        sum_sizes(es, n - 1) + es[n - 1].1
    }
}

/// Whether entry `e` keeps the rules for one file of a request: a
/// non-negative size, a non-empty path with no empty, `.` or `..`
/// component, and, in a multi-file request, at least two components
/// under the shared root directory `root`.
pub open spec fn entry_keeps_rules(e: (Seq<u8>, i64), multi: bool, root: Seq<u8>, backslash: bool) -> bool {
    &&& e.1 >= 0
    &&& e.0.len() > 0
    &&& !has_bad_component(e.0, backslash)
    &&& multi ==> components(e.0, backslash).len() >= 2 && components(e.0, backslash)[0] == root
}

/// A scan that succeeds from entry `i` on, from the state the entries
/// before `i` lead to, finds every entry keeping the rules and the total
/// size within `i64`.
proof fn lemma_scan_ok_rules(
    es: Seq<(Seq<u8>, i64)>,
    i: int,
    s: ScanState,
    multi: bool,
    backslash: bool,
)
    requires
        0 <= i <= es.len(),
        es.len() > 0,
        s.total == sum_sizes(es, i),
        s.total <= i64::MAX,
        multi && i > 0 ==> s.root == Some(components(es[0].0, backslash)[0]),
        !multi || i == 0 ==> s.root is None,
        scan_entries(es, i, s, multi, backslash) is Ok,
        forall|k: int|
            0 <= k < i ==> entry_keeps_rules(
                #[trigger] es[k],
                multi,
                components(es[0].0, backslash)[0],
                backslash,
            ),
    ensures
        sum_sizes(es, es.len() as int) <= i64::MAX,
        forall|k: int|
            0 <= k < es.len() ==> entry_keeps_rules(
                #[trigger] es[k],
                multi,
                components(es[0].0, backslash)[0],
                backslash,
            ),
    decreases es.len() - i,
{
    if i < es.len() {
        let c = check_entry(es[i], s, multi, backslash);
        assert(c is Ok);
        let next = c->Ok_0;
        assert(next.total == s.total + es[i].1);
        if i == 0 && multi {
            assert(next.root == Some(components(es[0].0, backslash)[0]));
        }
        assert(entry_keeps_rules(es[i], multi, components(es[0].0, backslash)[0], backslash));
        lemma_scan_ok_rules(es, i + 1, next, multi, backslash);
    }
}

/// An accepted creation request keeps every rule: the piece size is 0
/// (pick one) or a power of two from 16 KiB to 128 MiB; every file has a
/// non-negative size and a non-empty path with no empty, `.` or `..`
/// component; the sizes add up within `i64`; and in a multi-file request
/// every path lies inside one root directory, the first component of the
/// first path.
pub proof fn lemma_accepted_request_keeps_rules(
    files: Seq<FileEntry>,
    piece_size: u32,
    backslash: bool,
    r: Result<(), Error>,
)
    requires
        files.len() > 0,
        reports(r, create_problem(Seq::new(files.len(), |i: int| entry_of(files[i])), piece_size, backslash)),
    ensures
        r is Ok ==> {
            let es = Seq::new(files.len(), |i: int| entry_of(files[i]));
            &&& (piece_size == 0 || piece_size == 16384 || piece_size == 32768 || piece_size == 65536
                || piece_size == 131072 || piece_size == 262144 || piece_size == 524288
                || piece_size == 1048576 || piece_size == 2097152 || piece_size == 4194304
                || piece_size == 8388608 || piece_size == 16777216 || piece_size == 33554432
                || piece_size == 67108864 || piece_size == 134217728)
            &&& sum_sizes(es, es.len() as int) <= i64::MAX
            &&& forall|k: int|
                0 <= k < files.len() ==> entry_keeps_rules(
                    #[trigger] es[k],
                    files.len() > 1,
                    components(es[0].0, backslash)[0],
                    backslash,
                )
        },
{
    if r is Ok {
        let es = Seq::new(files.len(), |i: int| entry_of(files[i]));
        let init = ScanState { total: 0, seen: Seq::empty(), root: None };
        assert(scan_entries(es, 0, init, es.len() > 1, backslash) is Ok);
        lemma_scan_ok_rules(es, 0, init, es.len() > 1, backslash);
        if piece_size != 0 {
            lemma_power_of_two_in_range(piece_size as nat);
        }
    }
}

/// The powers of two up to 128 MiB.
proof fn lemma_power_of_two_listed(n: nat)
    requires
        power_of_two(n),
        n <= MAX_PIECE_SIZE,
    ensures
        n == 1 || n == 2 || n == 4 || n == 8 || n == 16 || n == 32 || n == 64 || n == 128 || n
            == 256 || n == 512 || n == 1024 || n == 2048 || n == 4096 || n == 8192 || n == 16384
            || n == 32768 || n == 65536 || n == 131072 || n == 262144 || n == 524288 || n
            == 1048576 || n == 2097152 || n == 4194304 || n == 8388608 || n == 16777216 || n
            == 33554432 || n == 67108864 || n == 134217728,
    decreases n,
{
    if n != 1 {
        assert(n % 2 == 0 && power_of_two(n / 2));
        lemma_power_of_two_listed(n / 2);
    }
}

/// The powers of two from 16 KiB to 128 MiB.
proof fn lemma_power_of_two_in_range(n: nat)
    requires
        power_of_two(n),
        MIN_PIECE_SIZE <= n <= MAX_PIECE_SIZE,
    ensures
        n == 16384 || n == 32768 || n == 65536 || n == 131072 || n == 262144 || n == 524288
            || n == 1048576 || n == 2097152 || n == 4194304 || n == 8388608 || n == 16777216
            || n == 33554432 || n == 67108864 || n == 134217728,
{
    lemma_power_of_two_listed(n);
}

/// An accepted creation request lists pairwise distinct paths: a path
/// listed twice, at any two positions of the file list, is refused.
pub proof fn lemma_accepted_paths_distinct(
    files: Seq<FileEntry>,
    piece_size: u32,
    backslash: bool,
    r: Result<(), Error>,
)
    requires
        reports(r, create_problem(Seq::new(files.len(), |i: int| entry_of(files[i])), piece_size, backslash)),
    ensures
        r is Ok ==> forall|a: int, b: int|
            0 <= a < b < files.len() ==> files[a].spec_path() != files[b].spec_path(),
{
    if r is Ok {
        let es = Seq::new(files.len(), |i: int| entry_of(files[i]));
        let init = ScanState { total: 0, seen: Seq::empty(), root: None };
        assert(scan_entries(es, 0, init, es.len() > 1, backslash) is Ok);
        assert(init.seen =~= Seq::new(0, |k: int| es[k].0));
        lemma_scan_ok_paths_distinct(es, 0, init, es.len() > 1, backslash);
        assert forall|a: int, b: int| 0 <= a < b < files.len() implies files[a].spec_path()
            != files[b].spec_path() by {
            assert(es[a].0 == files[a].spec_path());
            assert(es[b].0 == files[b].spec_path());
        }
    }
}

/// `v[..end]`.
fn slice_prefix(v: &[u8], end: usize) -> (r: &[u8])
    requires
        end <= v@.len(),
    ensures
        r@ == v@.take(end as int),
{
    let (head, _tail) = v.split_at(end);
    head
}

} // verus!
