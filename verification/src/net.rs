//! IP addresses and socket endpoints, and their encoding at the C
//! boundary (16 address bytes, a v6 marker, a port and a scope id).

use vstd::prelude::*;

verus! {

broadcast use vstd::array::group_array_axioms;

/// An IPv4 or IPv6 address, as its octets in network order.
#[derive(Clone, Copy, Debug, PartialEq, Eq, Hash)]
pub enum IpAddress {
    V4([u8; 4]),
    V6([u8; 16]),
}

/// A socket address: an IP address, a port and, for IPv6, a scope id.
#[derive(Clone, Copy, Debug, PartialEq, Eq, Hash)]
pub struct SocketAddress {
    pub ip: IpAddress,
    pub port: u16,
    /// The IPv6 scope id (0 for IPv4).
    pub scope_id: u32,
}

/// An address as the C boundary encodes it: IPv4 in the first four bytes.
#[derive(Clone, Copy, Debug, PartialEq, Eq)]
pub struct CtAddress {
    pub bytes: [u8; 16],
    pub is_v6: bool,
}

/// A socket endpoint as the C boundary encodes it.
#[derive(Clone, Copy, Debug, PartialEq, Eq)]
pub struct CtEndpoint {
    pub addr: [u8; 16],
    pub scope_id: u32,
    pub port: u16,
    pub is_v6: bool,
}

/// The octets of an address.
pub open spec fn octets(a: IpAddress) -> Seq<u8> {
    match a {
        IpAddress::V4(o) => o@,
        IpAddress::V6(o) => o@,
    }
}

/// The encoded bytes of an address: IPv4 octets first, zeros after.
pub open spec fn encoded_bytes(a: IpAddress) -> Seq<u8> {
    match a {
        IpAddress::V4(o) => o@ + Seq::new(12, |i: int| 0u8),
        IpAddress::V6(o) => o@,
    }
}

/// Whether `a` sorts at or before `b`, byte by byte (the order of
/// `Ipv4Addr`/`Ipv6Addr`, which compare as big-endian integers).
pub open spec fn octets_le(a: Seq<u8>, b: Seq<u8>) -> bool
    decreases a.len(),
{
    if a.len() == 0 || b.len() == 0 {
        a.len() <= b.len()
    } else if a[0] != b[0] {
        a[0] < b[0]
    } else {
        octets_le(a.drop_first(), b.drop_first())
    }
}

/// Whether `a` comes at or before `b` in lexicographic order: they are
/// equal, or at the first position where they differ `a` holds the
/// smaller octet. For octet strings of one length this is the order of
/// the big-endian numbers they spell.
pub open spec fn lex_le(a: Seq<u8>, b: Seq<u8>) -> bool {
    a == b || exists|k: int| 0 <= k < a.len() && a.take(k) == b.take(k) && a[k] < b[k]
}

/// Addresses are ordered octet by octet, every octet counting: for octet
/// strings of one length, `octets_le` is the lexicographic order.
pub proof fn lemma_octets_le_is_lexicographic(a: Seq<u8>, b: Seq<u8>)
    requires
        a.len() == b.len(),
    ensures
        octets_le(a, b) == lex_le(a, b),
    decreases a.len(),
{
    if a.len() == 0 {
        assert(a =~= b);
    } else if a[0] != b[0] {
        if a[0] < b[0] {
            assert(a.take(0) =~= b.take(0));
        } else {
            assert(a != b) by {
                if a == b {
                    assert(a[0] == b[0]);
                }
            }
            assert forall|k: int| 0 <= k < a.len() && a.take(k) == b.take(k) implies !(a[k] < b[k]) by {
                if k > 0 {
                    assert(a.take(k)[0] == b.take(k)[0]);
                }
            }
        }
    } else {
        let a1 = a.drop_first();
        let b1 = b.drop_first();
        lemma_octets_le_is_lexicographic(a1, b1);
        if lex_le(a1, b1) {
            if a1 == b1 {
                assert(a =~= b) by {
                    assert forall|j: int| 0 <= j < a.len() implies a[j] == b[j] by {
                        if j > 0 {
                            assert(a[j] == a1[j - 1]);
                            assert(b[j] == b1[j - 1]);
                        }
                    }
                }
            } else {
                let k = choose|k: int| 0 <= k < a1.len() && a1.take(k) == b1.take(k) && a1[k] < b1[k];
                assert(a.take(k + 1) =~= b.take(k + 1)) by {
                    assert forall|j: int| 0 <= j < k + 1 implies a[j] == b[j] by {
                        if j > 0 {
                            assert(a1.take(k)[j - 1] == b1.take(k)[j - 1]);
                        }
                    }
                }
                assert(a[k + 1] == a1[k]);
                assert(b[k + 1] == b1[k]);
            }
        } else {
            assert(a != b) by {
                if a == b {
                    assert(a1 =~= b1);
                }
            }
            assert forall|k: int| 0 <= k < a.len() && a.take(k) == b.take(k) implies !(a[k] < b[k]) by {
                if k > 0 && a[k] < b[k] {
                    assert(a1.take(k - 1) =~= b1.take(k - 1)) by {
                        assert forall|j: int| 0 <= j < k - 1 implies a1[j] == b1[j] by {
                            assert(a.take(k)[j + 1] == b.take(k)[j + 1]);
                        }
                    }
                    assert(a1[k - 1] == a[k]);
                    assert(b1[k - 1] == b[k]);
                }
            }
        }
    }
}

/// Whether `a` sorts at or before `b`.
fn octets_le_exec(a: &[u8], b: &[u8]) -> (r: bool)
    requires
        a@.len() == b@.len(),
    ensures
        r == octets_le(a@, b@),
{
    let mut i: usize = 0;
    proof {
        assert(a@.skip(0) =~= a@);
        assert(b@.skip(0) =~= b@);
    }
    while i < a.len()
        invariant
            i <= a@.len() == b@.len(),
            octets_le(a@, b@) == octets_le(a@.skip(i as int), b@.skip(i as int)),
        decreases a.len() - i,
    {
        proof {
            assert(a@.skip(i as int).drop_first() =~= a@.skip(i + 1));
            assert(b@.skip(i as int).drop_first() =~= b@.skip(i + 1));
        }
        if a[i] != b[i] {
            return a[i] < b[i];
        }
        i += 1;
    }
    true
}

impl IpAddress {
    /// Whether `self` sorts at or before `other`; `None` when they are of
    /// different IP versions.
    pub fn version_le(&self, other: &IpAddress) -> (r: Option<bool>)
        ensures
            match (*self, *other) {
                (IpAddress::V4(a), IpAddress::V4(b)) => r == Some(octets_le(a@, b@)),
                (IpAddress::V6(a), IpAddress::V6(b)) => r == Some(octets_le(a@, b@)),
                _ => r is None,
            },
    {
        match (self, other) {
            (IpAddress::V4(a), IpAddress::V4(b)) => Some(octets_le_exec(a.as_slice(), b.as_slice())),
            (IpAddress::V6(a), IpAddress::V6(b)) => Some(octets_le_exec(a.as_slice(), b.as_slice())),
            _ => None,
        }
    }

    /// The C boundary's encoding.
    pub fn to_ct(&self) -> (r: CtAddress)
        ensures
            r.bytes@ == encoded_bytes(*self),
            r.is_v6 == (*self is V6),
    {
        match self {
            IpAddress::V4(o) => {
                let mut bytes = [0u8; 16];
                bytes[0] = o[0];
                bytes[1] = o[1];
                bytes[2] = o[2];
                bytes[3] = o[3];
                proof {
                    assert(bytes@ =~= encoded_bytes(*self));
                }
                CtAddress { bytes, is_v6: false }
            },
            IpAddress::V6(o) => CtAddress { bytes: *o, is_v6: true },
        }
    }

    /// Decodes the C boundary's encoding: the first four bytes for IPv4.
    pub fn from_ct(a: &CtAddress) -> (r: IpAddress)
        ensures
            a.is_v6 ==> r == IpAddress::V6(a.bytes),
            !a.is_v6 ==> (r matches IpAddress::V4(o) && o@ == a.bytes@.take(4)),
    {
        if a.is_v6 {
            IpAddress::V6(a.bytes)
        } else {
            let o: [u8; 4] = [a.bytes[0], a.bytes[1], a.bytes[2], a.bytes[3]];
            proof {
                assert(o@ =~= a.bytes@.take(4));
            }
            IpAddress::V4(o)
        }
    }
}

/// Encoding an address for the C boundary and decoding it again gives the
/// same address.
pub proof fn lemma_address_round_trip(a: IpAddress, encoded: CtAddress, decoded: IpAddress)
    requires
        encoded.bytes@ == encoded_bytes(a),
        encoded.is_v6 == (a is V6),
        encoded.is_v6 ==> decoded == IpAddress::V6(encoded.bytes),
        !encoded.is_v6 ==> (decoded matches IpAddress::V4(o) && o@ == encoded.bytes@.take(4)),
    ensures
        decoded == a,
{
    match a {
        IpAddress::V4(o) => {
            assert(encoded_bytes(a).take(4) =~= o@);
            if let IpAddress::V4(d) = decoded {
                assert(d =~= o);
            }
        },
        IpAddress::V6(o) => {
            assert(encoded.bytes =~= o);
        },
    }
}

impl SocketAddress {
    /// The C boundary's encoding: a v4 endpoint carries no scope id.
    pub fn to_ct(&self) -> (r: CtEndpoint)
        ensures
            r.addr@ == encoded_bytes(self.ip),
            r.is_v6 == (self.ip is V6),
            r.port == self.port,
            r.scope_id == (if self.ip is V6 {
                self.scope_id
            } else {
                0
            }),
    {
        let a = self.ip.to_ct();
        let scope = if a.is_v6 {
            self.scope_id
        } else {
            0
        };
        CtEndpoint { addr: a.bytes, scope_id: scope, port: self.port, is_v6: a.is_v6 }
    }

    /// Decodes the C boundary's encoding.
    pub fn from_ct(e: &CtEndpoint) -> (r: SocketAddress)
        ensures
            r.port == e.port,
            e.is_v6 ==> r.ip == IpAddress::V6(e.addr) && r.scope_id == e.scope_id,
            !e.is_v6 ==> (r.ip matches IpAddress::V4(o) && o@ == e.addr@.take(4)) && r.scope_id
                == 0,
    {
        let ip = IpAddress::from_ct(&CtAddress { bytes: e.addr, is_v6: e.is_v6 });
        let scope = if e.is_v6 {
            e.scope_id
        } else {
            0
        };
        SocketAddress { ip, port: e.port, scope_id: scope }
    }
}

} // verus!
