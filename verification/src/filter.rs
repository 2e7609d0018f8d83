//! IP and port filtering rules: the validation a rule passes before it is
//! added to libtorrent's `ip_filter` / `port_filter`, and the encoding of
//! the blocked flag.

use vstd::prelude::*;

use crate::alerts::requests::binding_error;
use crate::error::Error;
use crate::net::{lemma_octets_le_is_lexicographic, lex_le, octets_le, IpAddress};

verus! {

/// The `ip_filter::blocked` / `port_filter::blocked` flag.
pub const FILTER_BLOCKED: u32 = 1;

/// Whether a rule `first..=last` is well formed: both endpoints of the
/// same IP version, `first` not after `last`.
pub open spec fn ip_rule_problem(first: IpAddress, last: IpAddress) -> Option<Seq<char>> {
    match (first, last) {
        (IpAddress::V4(f), IpAddress::V4(l)) => if octets_le(f@, l@) {
            None
        } else {
            Some("IP filter range is descending"@)
        },
        (IpAddress::V6(f), IpAddress::V6(l)) => if octets_le(f@, l@) {
            None
        } else {
            Some("IP filter range is descending"@)
        },
        _ => Some("IP filter range endpoints must be the same IP version"@),
    }
}

/// Checks a rule blocking or allowing the inclusive range `first..=last`
/// of `IpFilter::add_rule`: both endpoints must be the same IP version
/// and `first <= last`.
pub fn check_ip_rule(first: &IpAddress, last: &IpAddress) -> (r: Result<(), Error>)
    ensures
        match ip_rule_problem(*first, *last) {
            None => r is Ok,
            Some(m) => r matches Err(e) && e@ == binding_error(m),
        },
{
    match first.version_le(last) {
        None => Err(Error::binding("IP filter range endpoints must be the same IP version")),
        Some(true) => Ok(()),
        Some(false) => Err(Error::binding("IP filter range is descending")),
    }
}

/// Checks a rule blocking or allowing the inclusive port range
/// `first..=last` of `PortFilter::add_rule`: `first <= last`.
pub fn check_port_rule(first: u16, last: u16) -> (r: Result<(), Error>)
    ensures
        first <= last ==> r is Ok,
        first > last ==> (r matches Err(e) && e@ == binding_error(
            "port filter range is descending"@,
        )),
{
    if first > last {
        return Err(Error::binding("port filter range is descending"));
    }
    Ok(())
}

/// The flags a rule is added with.
pub fn rule_flags(blocked: bool) -> (r: u32)
    ensures
        r == (if blocked {
            FILTER_BLOCKED
        } else {
            0
        }),
{
    if blocked {
        FILTER_BLOCKED
    } else {
        0
    }
}

/// Whether the flags of an access check or an exported range mean
/// "blocked".
pub fn is_blocked(flags: u32) -> (r: bool)
    ensures
        r == (flags & FILTER_BLOCKED != 0),
{
    flags & FILTER_BLOCKED != 0
}

/// A rule's flags read back as the blocked bit it was added with.
pub proof fn lemma_rule_flags_round_trip(blocked: bool)
    ensures
        ((if blocked {
            FILTER_BLOCKED
        } else {
            0
        }) & FILTER_BLOCKED != 0) == blocked,
{
    assert(1u32 & 1u32 == 1u32) by (bit_vector);
    assert(0u32 & 1u32 == 0u32) by (bit_vector);
}

/// A rule between two addresses of one IP version is accepted exactly
/// when `first` does not come after `last`, every octet counting (the
/// order of the big-endian numbers they spell); a rule mixing versions is
/// refused.
pub proof fn lemma_ip_rule_accepts_ascending(first: IpAddress, last: IpAddress)
    ensures
        match (first, last) {
            (IpAddress::V4(f), IpAddress::V4(l)) => (ip_rule_problem(first, last) is None)
                == lex_le(f@, l@),
            (IpAddress::V6(f), IpAddress::V6(l)) => (ip_rule_problem(first, last) is None)
                == lex_le(f@, l@),
            _ => ip_rule_problem(first, last) is Some,
        },
{
    broadcast use vstd::array::group_array_axioms;

    match (first, last) {
        (IpAddress::V4(f), IpAddress::V4(l)) => lemma_octets_le_is_lexicographic(f@, l@),
        (IpAddress::V6(f), IpAddress::V6(l)) => lemma_octets_le_is_lexicographic(f@, l@),
        _ => {},
    }
}

} // verus!
