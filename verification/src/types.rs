//! Small shared value types: digests, info-hashes, piece requests and
//! piece bitfields.

use vstd::prelude::*;

use crate::text::push_char;

verus! {

broadcast use vstd::array::group_array_axioms;

/// A SHA-1 digest (v1 info-hash, peer id, DHT target, ...).
#[derive(Clone, Copy, Debug, PartialEq, Eq, Hash)]
pub struct Sha1Hash(pub [u8; 20]);

/// A SHA-256 digest (v2 info-hash, merkle root, ...).
#[derive(Clone, Copy, Debug, PartialEq, Eq, Hash)]
pub struct Sha256Hash(pub [u8; 32]);

/// Whether every byte is zero.
pub open spec fn all_zero(bytes: Seq<u8>) -> bool {
    forall|i: int| 0 <= i < bytes.len() ==> bytes[i] == 0
}

/// The lowercase hexadecimal digit for `d` (`0 <= d < 16`).
pub open spec fn hex_digit(d: int) -> char {
    if d < 10 {
        ('0' as int + d) as char
    } else {
        ('a' as int + d - 10) as char
    }
}

/// Lowercase hexadecimal text of `bytes`: two digits per byte, high
/// nibble first.
pub open spec fn hex_text(bytes: Seq<u8>) -> Seq<char>
    decreases bytes.len(),
{
    if bytes.len() == 0 {
        Seq::empty()
    } else {
        hex_text(bytes.drop_last()) + seq![
            hex_digit(bytes.last() as int / 16),
            hex_digit(bytes.last() as int % 16),
        ]
    }
}

fn hex_char(d: u8) -> (c: char)
    requires
        d < 16,
    ensures
        c == hex_digit(d as int),
{
    if d < 10 {
        ((48u8 + d) as char)
    } else {
        ((87u8 + d) as char)
    }
}

/// Appends the hexadecimal text of `bytes`.
fn push_hex(s: &mut String, bytes: &[u8])
    ensures
        final(s)@ == old(s)@ + hex_text(bytes@),
{
    let mut i: usize = 0;
    while i < bytes.len()
        invariant
            i <= bytes@.len(),
            s@ == old(s)@ + hex_text(bytes@.subrange(0, i as int)),
        decreases bytes.len() - i,
    {
        let b = bytes[i];
        push_char(s, hex_char(b / 16));
        push_char(s, hex_char(b % 16));
        proof {
            let p = bytes@.subrange(0, i as int + 1);
            assert(p.drop_last() =~= bytes@.subrange(0, i as int));
            assert(p.last() == b);
        }
        i += 1;
        proof {
            assert(s@ =~= old(s)@ + hex_text(bytes@.subrange(0, i as int)));
        }
    }
    proof {
        assert(bytes@.subrange(0, i as int) =~= bytes@);
    }
}

/// Whether every byte of `bytes` is zero.
fn bytes_all_zero(bytes: &[u8]) -> (r: bool)
    ensures
        r == all_zero(bytes@),
{
    let mut i: usize = 0;
    while i < bytes.len()
        invariant
            i <= bytes@.len(),
            forall|j: int| 0 <= j < i ==> bytes@[j] == 0,
        decreases bytes.len() - i,
    {
        if bytes[i] != 0 {
            return false;
        }
        i += 1;
    }
    true
}

/// Whether two byte strings are equal.
fn bytes_equal(a: &[u8], b: &[u8]) -> (r: bool)
    ensures
        r == (a@ == b@),
{
    if a.len() != b.len() {
        return false;
    }
    let mut i: usize = 0;
    while i < a.len()
        invariant
            i <= a@.len(),
            a@.len() == b@.len(),
            forall|j: int| 0 <= j < i ==> a@[j] == b@[j],
        decreases a.len() - i,
    {
        if a[i] != b[i] {
            return false;
        }
        i += 1;
    }
    proof {
        assert(a@ =~= b@);
    }
    true
}

impl Sha1Hash {
    pub fn is_all_zeros(&self) -> (r: bool)
        ensures
            r == all_zero(self.0@),
    {
        bytes_all_zero(self.0.as_slice())
    }

    /// Whether two digests are the same.
    pub fn same(&self, other: &Sha1Hash) -> (r: bool)
        ensures
            r == (*self == *other),
    {
        let r = bytes_equal(self.0.as_slice(), other.0.as_slice());
        proof {
            if self.0@ == other.0@ {
                assert(self.0 =~= other.0);
            }
        }
        r
    }

    /// The `Display` text: lowercase hexadecimal.
    pub fn to_string(&self) -> (r: String)
        ensures
            r@ == hex_text(self.0@),
    {
        let mut s = String::new();
        push_hex(&mut s, self.0.as_slice());
        s
    }
}

impl Sha256Hash {
    pub fn is_all_zeros(&self) -> (r: bool)
        ensures
            r == all_zero(self.0@),
    {
        bytes_all_zero(self.0.as_slice())
    }

    /// Whether two digests are the same.
    pub fn same(&self, other: &Sha256Hash) -> (r: bool)
        ensures
            r == (*self == *other),
    {
        let r = bytes_equal(self.0.as_slice(), other.0.as_slice());
        proof {
            if self.0@ == other.0@ {
                assert(self.0 =~= other.0);
            }
        }
        r
    }

    /// The `Display` text: lowercase hexadecimal.
    pub fn to_string(&self) -> (r: String)
        ensures
            r@ == hex_text(self.0@),
    {
        let mut s = String::new();
        push_hex(&mut s, self.0.as_slice());
        s
    }
}

/// The info-hash(es) of a torrent: v1 (SHA-1) and/or v2 (SHA-256).
#[derive(Clone, Copy, Debug, PartialEq, Eq, Hash)]
pub struct InfoHash {
    v1: Option<Sha1Hash>,
    v2: Option<Sha256Hash>,
}

impl View for InfoHash {
    type V = (Option<Sha1Hash>, Option<Sha256Hash>);

    closed spec fn view(&self) -> (Option<Sha1Hash>, Option<Sha256Hash>) {
        (self.v1, self.v2)
    }
}

/// Whether two optional digests are both present and equal.
pub open spec fn both_some_equal<T>(a: Option<T>, b: Option<T>) -> bool {
    a is Some && a == b
}

/// The C boundary's encoding of an optional digest: absent is all zeros.
pub open spec fn sha1_or_zero(h: Option<Sha1Hash>) -> Sha1Hash {
    match h {
        Some(h) => h,
        None => Sha1Hash(vstd::array::spec_array_fill_for_copy_type::<u8, 20>(0u8)),
    }
}

/// The C boundary's encoding of an optional digest: absent is all zeros.
pub open spec fn sha256_or_zero(h: Option<Sha256Hash>) -> Sha256Hash {
    match h {
        Some(h) => h,
        None => Sha256Hash(vstd::array::spec_array_fill_for_copy_type::<u8, 32>(0u8)),
    }
}

/// A digest read from the C boundary: all zeros means absent.
pub open spec fn sha1_unless_zero(h: Sha1Hash) -> Option<Sha1Hash> {
    if all_zero(h.0@) {
        None
    } else {
        Some(h)
    }
}

/// A digest read from the C boundary: all zeros means absent.
pub open spec fn sha256_unless_zero(h: Sha256Hash) -> Option<Sha256Hash> {
    if all_zero(h.0@) {
        None
    } else {
        Some(h)
    }
}

impl InfoHash {
    /// An info-hash from its parts; at least one of `v1`/`v2` should be set.
    pub fn new(v1: Option<Sha1Hash>, v2: Option<Sha256Hash>) -> (r: InfoHash)
        ensures
            r@ == (v1, v2),
    {
        InfoHash { v1, v2 }
    }

    pub fn from_v1(v1: Sha1Hash) -> (r: InfoHash)
        ensures
            r@ == (Some(v1), None::<Sha256Hash>),
    {
        InfoHash { v1: Some(v1), v2: None }
    }

    pub fn from_v2(v2: Sha256Hash) -> (r: InfoHash)
        ensures
            r@ == (None::<Sha1Hash>, Some(v2)),
    {
        InfoHash { v1: None, v2: Some(v2) }
    }

    pub fn v1(&self) -> (r: Option<Sha1Hash>)
        ensures
            r == self@.0,
    {
        self.v1
    }

    pub fn v2(&self) -> (r: Option<Sha256Hash>)
        ensures
            r == self@.1,
    {
        self.v2
    }

    /// Whether the two identify the same torrent: some hash version is
    /// present on both sides and equal. Plain equality is stricter (both
    /// options must match), which misreads hybrid torrents whose hash set
    /// widened over time — e.g. a v2-only magnet later known by both
    /// hashes.
    pub fn overlaps(&self, other: &InfoHash) -> (r: bool)
        ensures
            r == (both_some_equal(self@.0, other@.0) || both_some_equal(self@.1, other@.1)),
    {
        let v1_match = match (&self.v1, &other.v1) {
            (Some(a), Some(b)) => a.same(b),
            _ => false,
        };
        if v1_match {
            return true;
        }
        match (&self.v2, &other.v2) {
            (Some(a), Some(b)) => a.same(b),
            _ => false,
        }
    }

    /// An info-hash read from the C boundary, where an all-zero digest
    /// means that version is absent.
    pub fn from_parts(v1: Sha1Hash, v2: Sha256Hash) -> (r: InfoHash)
        ensures
            r@ == (sha1_unless_zero(v1), sha256_unless_zero(v2)),
    {
        let a = if v1.is_all_zeros() {
            None
        } else {
            Some(v1)
        };
        let b = if v2.is_all_zeros() {
            None
        } else {
            Some(v2)
        };
        InfoHash { v1: a, v2: b }
    }

    /// The C boundary's representation: an absent version is all zeros.
    pub fn to_parts(&self) -> (r: (Sha1Hash, Sha256Hash))
        ensures
            r == (sha1_or_zero(self@.0), sha256_or_zero(self@.1)),
    {
        let a = match self.v1 {
            Some(h) => h,
            None => Sha1Hash([0u8; 20]),
        };
        let b = match self.v2 {
            Some(h) => h,
            None => Sha256Hash([0u8; 32]),
        };
        (a, b)
    }
}

/// Reading back what was written to the C boundary gives the same
/// info-hash, provided no present digest is itself all zeros (which the
/// encoding cannot tell from "absent").
pub proof fn lemma_info_hash_parts_round_trip(h: (Option<Sha1Hash>, Option<Sha256Hash>))
    requires
        h.0 matches Some(a) ==> !all_zero(a.0@),
        h.1 matches Some(b) ==> !all_zero(b.0@),
    ensures
        (sha1_unless_zero(sha1_or_zero(h.0)), sha256_unless_zero(sha256_or_zero(h.1))) == h,
{
    let z1 = Sha1Hash(vstd::array::spec_array_fill_for_copy_type::<u8, 20>(0u8));
    let z2 = Sha256Hash(vstd::array::spec_array_fill_for_copy_type::<u8, 32>(0u8));
    assert(all_zero(z1.0@)) by {
        assert forall|i: int| 0 <= i < z1.0@.len() implies z1.0@[i] == 0 by {
            assert(z1.0@[i] == z1.0[i]);
        }
    }
    assert(all_zero(z2.0@)) by {
        assert forall|i: int| 0 <= i < z2.0@.len() implies z2.0@[i] == 0 by {
            assert(z2.0@[i] == z2.0[i]);
        }
    }
}

/// Overlap is symmetric: it does not matter which side asks.
pub proof fn lemma_overlaps_symmetric(a: InfoHash, b: InfoHash)
    ensures
        (both_some_equal(a@.0, b@.0) || both_some_equal(a@.1, b@.1)) == (both_some_equal(
            b@.0,
            a@.0,
        ) || both_some_equal(b@.1, a@.1)),
{
}

/// A request for a byte range within a piece.
#[derive(Clone, Copy, Debug, PartialEq, Eq, Structural)]
pub struct PeerRequest {
    pub piece: i32,
    pub start: i32,
    pub length: i32,
}

/// Whether bit `index` of an MSB-first packed bitfield is set (bit `i`
/// is bit `7 - i % 8` of byte `i / 8`).
pub open spec fn msb_bit(bytes: Seq<u8>, index: int) -> bool {
    bytes[index / 8] & (0x80u8 >> ((index % 8) as u8)) != 0
}

/// The bits `0..n` of an MSB-first packed bitfield, piece 0 first.
pub open spec fn msb_bits(bytes: Seq<u8>, n: nat) -> Seq<bool> {
    Seq::new(n, |i: int| msb_bit(bytes, i))
}

/// Setting one mask bit of a byte sets exactly that bit.
proof fn lemma_set_mask_bit(b: u8, j: u8, t: u8)
    by (bit_vector)
    requires
        j < 8,
        t < 8,
    ensures
        ((b | (0x80u8 >> j)) & (0x80u8 >> t) != 0) == ((b & (0x80u8 >> t) != 0) || t == j),
        (0u8 & (0x80u8 >> t)) == 0,
{
}

/// Packs `bits` MSB-first into bytes (bit `i` is bit `7 - i % 8` of byte
/// `i / 8`, the unused low bits of the last byte clear), with the bit
/// count as libtorrent takes it (an `i32`; a count beyond `i32::MAX`
/// wraps, as a cast does).
pub fn bools_to_bitfield(bits: &[bool]) -> (r: (Vec<u8>, i32))
    ensures
        r.0@.len() == (bits@.len() + 7) / 8,
        msb_bits(r.0@, bits@.len()) == bits@,
        forall|i: int| bits@.len() <= i < r.0@.len() * 8 ==> !msb_bit(r.0@, i),
        r.1 == bits@.len() as i32,
{
    let n = bits.len();
    let nbytes: usize = n / 8 + if n % 8 != 0 {
        1
    } else {
        0
    };
    let mut out: Vec<u8> = Vec::new();
    let mut k: usize = 0;
    while k < nbytes
        invariant
            n == bits@.len(),
            nbytes == (n + 7) / 8,
            k <= nbytes,
            out@.len() == k,
            forall|i: int| 0 <= i < 8 * k ==> msb_bit(out@, i) == (i < n && bits@[i]),
        decreases nbytes - k,
    {
        assert(8 * k < n) by (nonlinear_arith)
            requires
                k < nbytes,
                nbytes == (n + 7) / 8,
        ;
        let base: usize = 8 * k;
        let mut byte: u8 = 0;
        let mut j: u8 = 0;
        proof {
            assert forall|t: u8| t < 8 implies (byte & (0x80u8 >> t) != 0) == (t < j && base + t
                < n && bits@[base + t]) by {
                lemma_set_mask_bit(0, 0, t);
            }
        }
        while j < 8
            invariant
                n == bits@.len(),
                base < n,
                j <= 8,
                forall|t: u8|
                    t < 8 ==> ((byte & (0x80u8 >> t) != 0) == (t < j && base + t < n
                        && bits@[base + t])),
            decreases 8 - j,
        {
            let ghost old_byte = byte;
            if (j as usize) < n - base && bits[base + j as usize] {
                byte = byte | (0x80u8 >> j);
                proof {
                    assert forall|t: u8| t < 8 implies (byte & (0x80u8 >> t) != 0) == (t < j + 1
                        && base + t < n && bits@[base + t]) by {
                        lemma_set_mask_bit(old_byte, j, t);
                    }
                }
            }
            j += 1;
        }
        let ghost prev = out@;
        out.push(byte);
        proof {
            assert forall|i: int| 0 <= i < 8 * (k + 1) implies msb_bit(out@, i) == (i < n
                && bits@[i]) by {
                if i < 8 * k {
                    assert(i / 8 < k) by (nonlinear_arith)
                        requires
                            0 <= i < 8 * k,
                    ;
                    assert(out@[i / 8] == prev[i / 8]);
                    assert(msb_bit(prev, i) == (i < n && bits@[i]));
                } else {
                    assert(i / 8 == k && i % 8 == i - 8 * k) by (nonlinear_arith)
                        requires
                            8 * k <= i < 8 * (k + 1),
                    ;
                    let t: u8 = (i % 8) as u8;
                    assert(t < 8);
                    assert(out@[i / 8] == byte);
                    assert(base + t == i);
                }
            }
        }
        k += 1;
    }
    proof {
        assert forall|i: int| 0 <= i < n implies msb_bits(out@, n as nat)[i] == bits@[i] by {
            assert(i < 8 * k) by (nonlinear_arith)
                requires
                    0 <= i < n,
                    k == (n + 7) / 8,
            ;
        }
        assert(msb_bits(out@, n as nat) =~= bits@);
    }
    #[verifier::truncate]
    let count: i32 = n as i32;
    (out, count)
}

/// The number of `true` entries.
pub open spec fn count_true(bits: Seq<bool>) -> nat
    decreases bits.len(),
{
    if bits.len() == 0 {
        0
    } else {
        count_true(bits.drop_last()) + if bits.last() {
            1nat
        } else {
            0nat
        }
    }
}

/// A borrowed piece bitfield (bit `i` describes piece `i`), as returned by
/// `TorrentStatus::pieces` and friends. Bits are packed MSB-first within
/// each byte (libtorrent wire layout).
#[derive(Clone, Copy)]
pub struct PieceBitfield<'a> {
    bytes: &'a [u8],
    bits: usize,
}

impl<'a> PieceBitfield<'a> {
    /// The bytes that back this bitfield.
    pub closed spec fn bytes(self) -> Seq<u8> {
        self.bytes@
    }

    /// The pieces' bits, piece 0 first.
    pub closed spec fn spec_bits(self) -> Seq<bool> {
        msb_bits(self.bytes@, self.bits as nat)
    }

    #[verifier::type_invariant]
    spec fn covers(self) -> bool {
        self.bits <= self.bytes@.len() * 8
    }

    /// A bitfield of `bits` pieces over `bytes`, which must hold at least
    /// `bits.div_ceil(8)` bytes.
    pub fn from_bytes(bytes: &'a [u8], bits: usize) -> (r: PieceBitfield<'a>)
        requires
            bits <= bytes@.len() * 8,
        ensures
            r.bytes() == bytes@,
            r.spec_bits() == msb_bits(bytes@, bits as nat),
    {
        PieceBitfield { bytes, bits }
    }

    /// The number of pieces covered by this bitfield.
    pub fn len(&self) -> (r: usize)
        ensures
            r == self.spec_bits().len(),
    {
        self.bits
    }

    pub fn is_empty(&self) -> (r: bool)
        ensures
            r == (self.spec_bits().len() == 0),
    {
        self.bits == 0
    }

    /// Whether the bit for piece `index` is set; `None` if out of range.
    pub fn get(&self, index: usize) -> (r: Option<bool>)
        ensures
            index >= self.spec_bits().len() ==> r is None,
            index < self.spec_bits().len() ==> r == Some(self.spec_bits()[index as int]),
    {
        proof {
            use_type_invariant(self);
        }
        if index >= self.bits {
            return None;
        }
        let mask: u8 = 0x80u8 >> ((index % 8) as u8);
        Some(self.bytes[index / 8] & mask != 0)
    }

    /// The number of set bits.
    pub fn count_ones(&self) -> (r: usize)
        ensures
            r == count_true(self.spec_bits()),
    {
        let bits = self.iter();
        let mut n: usize = 0;
        let mut i: usize = 0;
        while i < bits.len()
            invariant
                i <= bits@.len(),
                bits@ == self.spec_bits(),
                n == count_true(bits@.subrange(0, i as int)),
                n <= i,
            decreases bits.len() - i,
        {
            proof {
                let p = bits@.subrange(0, i as int + 1);
                assert(p.drop_last() =~= bits@.subrange(0, i as int));
            }
            if bits[i] {
                n += 1;
            }
            i += 1;
        }
        proof {
            assert(bits@.subrange(0, i as int) =~= bits@);
        }
        n
    }

    /// All bits, piece 0 first.
    pub fn iter(&self) -> (r: Vec<bool>)
        ensures
            r@ == self.spec_bits(),
    {
        let mut out: Vec<bool> = Vec::new();
        let mut i: usize = 0;
        while i < self.bits
            invariant
                i <= self.bits,
                out@ == msb_bits(self.bytes@, i as nat),
            decreases self.bits - i,
        {
            let b = self.get(i);
            match b {
                Some(v) => out.push(v),
                None => {},
            }
            proof {
                assert(out@ =~= msb_bits(self.bytes@, (i + 1) as nat));
            }
            i += 1;
        }
        out
    }
}

} // verus!
