//! The grouped connection settings: listen and outgoing interfaces, the
//! peer fingerprint, and the outgoing port range.

use vstd::prelude::*;

use std::ops::RangeInclusive;

use crate::settings::error::{SettingsError, SettingsErrorView};
use crate::settings::lists::{
    find_last, join, last_index_of, lemma_last_index_before, lemma_last_index_of, lemma_list_round_trip,
    list_entries, list_entries_of,
};
use crate::settings::table::{LISTEN_INTERFACES, NUM_OUTGOING_PORTS, OUTGOING_INTERFACES, OUTGOING_PORT, PEER_FINGERPRINT};
use crate::settings::tokens::{bare_host_problem, bare_host_token, host_token, host_token_problem};
use crate::settings::SettingsPack;
use crate::text::{decimal, int_text, is_digit, lemma_decimal, lemma_parse_decimal_u16, parse_u16, parse_u16_range, push_char, push_decimal, push_int, push_str, string_from_range, string_of, to_chars};

verus! {

/// `RangeInclusive::start`: the range's lower bound (the documentation
/// leaves it unspecified once the range has been iterated to its end).
pub assume_specification<Idx>[ RangeInclusive::<Idx>::start ](r: &RangeInclusive<Idx>) -> (ret: &Idx)
    ensures
        !r@.exhausted ==> *ret == r@.start,
;

/// `RangeInclusive::end`: the range's upper bound (the documentation
/// leaves it unspecified once the range has been iterated to its end).
pub assume_specification<Idx>[ RangeInclusive::<Idx>::end ](r: &RangeInclusive<Idx>) -> (ret: &Idx)
    ensures
        !r@.exhausted ==> *ret == r@.end,
;

/// One endpoint of the `listen_interfaces` setting, written by
/// [`SettingsPack::listen_interfaces`].
#[derive(Clone, Debug, PartialEq, Eq)]
pub struct ListenEndpoint {
    /// An IP address (IPv6 bracketed), device name, or hostname token.
    pub addr: String,
    /// Port 0 asks the OS for an ephemeral port.
    pub port: u16,
    /// Accept SSL/TLS peer connections on this endpoint.
    pub ssl: bool,
    /// Local-network only: assumed unreachable from beyond the local
    /// network and not announced to trackers outside it.
    pub local: bool,
}

impl ListenEndpoint {
    /// A plain (non-SSL, non-local) listen endpoint.
    pub fn new(addr: &str, port: u16) -> (r: ListenEndpoint)
        ensures
            r.addr@ == addr@,
            r.port == port,
            !r.ssl,
            !r.local,
    {
        ListenEndpoint { addr: string_of(addr), port, ssl: false, local: false }
    }
}

/// The plain content of a listen endpoint: address, port, SSL, local.
pub open spec fn listen_model(e: ListenEndpoint) -> (Seq<char>, u16, bool, bool) {
    (e.addr@, e.port, e.ssl, e.local)
}

/// `c` if `on`, else nothing.
pub open spec fn flag_text(on: bool, c: char) -> Seq<char> {
    if on {
        seq![c]
    } else {
        Seq::empty()
    }
}

/// How one endpoint is stored: `addr:port`, then `s` if SSL, then `l` if
/// local.
pub open spec fn listen_entry_text(m: (Seq<char>, u16, bool, bool)) -> Seq<char> {
    m.0 + seq![':'] + decimal(m.1 as nat) + flag_text(m.2, 's') + flag_text(m.3, 'l')
}

/// The stored form of a list of endpoints.
pub open spec fn listen_text(eps: Seq<ListenEndpoint>) -> Seq<char> {
    join(Seq::new(eps.len(), |i: int| listen_entry_text(listen_model(eps[i]))), ',')
}

/// `s` without its trailing run of `s`/`l` flag characters.
pub open spec fn trim_flags(s: Seq<char>) -> Seq<char>
    decreases s.len(),
{
    if s.len() > 0 && (s.last() == 's' || s.last() == 'l') {
        trim_flags(s.drop_last())
    } else {
        s
    }
}

/// Reads one stored endpoint: the address before the last `:`, the port
/// after it (up to the trailing flags), and the flags. `None` if there is
/// no `:` or the port does not parse.
pub open spec fn parse_listen_entry(e: Seq<char>) -> Option<(Seq<char>, u16, bool, bool)> {
    let k = last_index_of(e, ':');
    if k < 0 {
        None
    } else {
        let rest = e.skip(k + 1);
        let p = trim_flags(rest);
        let flags = rest.skip(p.len() as int);
        match parse_u16(p) {
            Some(port) => Some((e.take(k), port, flags.contains('s'), flags.contains('l'))),
            None => None,
        }
    }
}

/// Reads every stored endpoint; `None` if any does not parse.
pub open spec fn parse_listen_entries(es: Seq<Seq<char>>) -> Option<Seq<(Seq<char>, u16, bool, bool)>>
    decreases es.len(),
{
    if es.len() == 0 {
        Some(Seq::empty())
    } else {
        match (parse_listen_entries(es.drop_last()), parse_listen_entry(es.last())) {
            (Some(a), Some(b)) => Some(a.push(b)),
            _ => None,
        }
    }
}

/// Once a prefix of the entries fails to parse, the whole list does.
proof fn lemma_parse_fails_onward(es: Seq<Seq<char>>, k: int)
    requires
        0 <= k <= es.len(),
        parse_listen_entries(es.take(k)) is None,
    ensures
        parse_listen_entries(es) is None,
    decreases es.len() - k,
{
    if k < es.len() {
        assert(es.take(k + 1).drop_last() =~= es.take(k));
        lemma_parse_fails_onward(es, k + 1);
    } else {
        assert(es.take(k) =~= es);
    }
}

/// Decimal digits followed by `s`/`l` flags lose exactly the flags.
proof fn lemma_trim_flags_after_digits(d: Seq<char>, f: Seq<char>)
    requires
        d.len() > 0,
        d.last() != 's' && d.last() != 'l',
        forall|i: int| 0 <= i < f.len() ==> (#[trigger] f[i]) == 's' || f[i] == 'l',
    ensures
        trim_flags(d + f) == d,
    decreases f.len(),
{
    if f.len() == 0 {
        assert(d + f =~= d);
    } else {
        assert((d + f).drop_last() =~= d + f.drop_last());
        assert((d + f).last() == f.last());
        lemma_trim_flags_after_digits(d, f.drop_last());
    }
}

/// The text after the address of a stored endpoint: its port digits and
/// flags, which hold neither `:` nor `,`.
proof fn lemma_listen_entry_tail(m: (Seq<char>, u16, bool, bool))
    ensures
        listen_entry_text(m) == m.0 + seq![':'] + (decimal(m.1 as nat) + (flag_text(m.2, 's')
            + flag_text(m.3, 'l'))),
        !(decimal(m.1 as nat) + (flag_text(m.2, 's') + flag_text(m.3, 'l'))).contains(':'),
        !(decimal(m.1 as nat) + (flag_text(m.2, 's') + flag_text(m.3, 'l'))).contains(','),
{
    let d = decimal(m.1 as nat);
    let f = flag_text(m.2, 's') + flag_text(m.3, 'l');
    let tail = d + f;
    lemma_decimal(m.1 as nat);
    assert(listen_entry_text(m) =~= m.0 + seq![':'] + tail);
    assert forall|k: int| 0 <= k < tail.len() implies (#[trigger] tail[k]) != ':' && tail[k]
        != ',' by {
        if k < d.len() {
            assert(is_digit(d[k]));
        } else {
            assert(tail[k] == f[k - d.len()]);
        }
    }
}

/// A stored endpoint reads back as the endpoint written.
pub proof fn lemma_listen_entry_round_trip(m: (Seq<char>, u16, bool, bool))
    ensures
        parse_listen_entry(listen_entry_text(m)) == Some(m),
{
    let d = decimal(m.1 as nat);
    let f = flag_text(m.2, 's') + flag_text(m.3, 'l');
    let tail = d + f;
    let t = listen_entry_text(m);
    lemma_decimal(m.1 as nat);
    lemma_parse_decimal_u16(m.1);
    lemma_listen_entry_tail(m);
    lemma_last_index_before(m.0, ':', tail);
    let k = m.0.len() as int;
    assert(t.skip(k + 1) =~= tail);
    assert(t.take(k) =~= m.0);
    assert(is_digit(d[d.len() - 1]));
    lemma_trim_flags_after_digits(d, f);
    assert(tail.skip(d.len() as int) =~= f);
    if m.2 && m.3 {
        assert(f =~= seq!['s', 'l']);
        assert(f[0] == 's' && f[1] == 'l');
    } else if m.2 {
        assert(f =~= seq!['s']);
        assert(f[0] == 's');
    } else if m.3 {
        assert(f =~= seq!['l']);
        assert(f[0] == 'l');
    } else {
        assert(f =~= Seq::<char>::empty());
    }
}

/// Entries written from a list of endpoints read back as that list.
proof fn lemma_listen_models_round_trip(ms: Seq<(Seq<char>, u16, bool, bool)>)
    ensures
        parse_listen_entries(Seq::new(ms.len(), |i: int| listen_entry_text(ms[i]))) == Some(ms),
    decreases ms.len(),
{
    let es = Seq::new(ms.len(), |i: int| listen_entry_text(ms[i]));
    if ms.len() == 0 {
        assert(ms =~= Seq::<(Seq<char>, u16, bool, bool)>::empty());
    } else {
        let front = ms.drop_last();
        lemma_listen_models_round_trip(front);
        assert(es.drop_last() =~= Seq::new(front.len(), |i: int| listen_entry_text(front[i])));
        assert(es.last() == listen_entry_text(ms.last()));
        lemma_listen_entry_round_trip(ms.last());
        assert(front.push(ms.last()) =~= ms);
    }
}

/// Endpoints whose addresses hold no comma are stored as a list that
/// reads back as those endpoints.
pub proof fn lemma_listen_text_round_trip(eps: Seq<ListenEndpoint>)
    requires
        forall|i: int| 0 <= i < eps.len() ==> !(#[trigger] eps[i]).addr@.contains(','),
    ensures
        parse_listen_entries(list_entries(listen_text(eps))) == Some(
            Seq::new(eps.len(), |i: int| listen_model(eps[i])),
        ),
{
    let ms = Seq::new(eps.len(), |i: int| listen_model(eps[i]));
    let parts = Seq::new(eps.len(), |i: int| listen_entry_text(listen_model(eps[i])));
    assert forall|i: int| 0 <= i < parts.len() implies (#[trigger] parts[i]).len() > 0
        && !parts[i].contains(',') by {
        let m = listen_model(eps[i]);
        let tail = decimal(m.1 as nat) + (flag_text(m.2, 's') + flag_text(m.3, 'l'));
        lemma_listen_entry_tail(m);
        let p = parts[i];
        assert(p == m.0 + seq![':'] + tail);
        if p.contains(',') {
            let k = choose|k: int| 0 <= k < p.len() && p[k] == ',';
            if k < m.0.len() {
                assert(m.0[k] == ',');
                assert(m.0.contains(','));
            } else if k > m.0.len() {
                assert(tail[k - m.0.len() - 1] == ',');
                assert(tail.contains(','));
            }
        }
    }
    lemma_list_round_trip(parts);
    lemma_listen_models_round_trip(ms);
    assert(parts =~= Seq::new(ms.len(), |i: int| listen_entry_text(ms[i])));
}

/// Whether `c` occurs in `v[from..to]`.
fn range_contains(v: &[char], from: usize, to: usize, c: char) -> (r: bool)
    requires
        from <= to <= v@.len(),
    ensures
        r == v@.subrange(from as int, to as int).contains(c),
{
    let mut i: usize = from;
    while i < to
        invariant
            from <= i <= to <= v@.len(),
            forall|k: int| from <= k < i ==> v@[k] != c,
        decreases to - i,
    {
        if v[i] == c {
            proof {
                assert(v@.subrange(from as int, to as int)[i - from] == c);
            }
            return true;
        }
        i += 1;
    }
    proof {
        let s = v@.subrange(from as int, to as int);
        assert forall|k: int| 0 <= k < s.len() implies s[k] != c by {
            assert(s[k] == v@[from + k]);
        }
    }
    false
}

/// Parses one stored endpoint (see [`parse_listen_entry`]).
fn parse_listen_entry_text(entry: &str) -> (r: Option<ListenEndpoint>)
    ensures
        match parse_listen_entry(entry@) {
            None => r is None,
            Some(m) => r matches Some(e) && listen_model(e) == m,
        },
{
    let v = to_chars(entry);
    let n = v.len();
    proof {
        assert(v@.take(n as int) =~= v@);
        lemma_last_index_of(v@, ':');
    }
    let k = match find_last(v.as_slice(), n, ':') {
        Some(k) => k,
        None => return None,
    };
    let ghost rest = v@.skip(k + 1);
    let mut j: usize = n;
    proof {
        assert(rest =~= v@.subrange(k + 1, n as int));
    }
    while j > k + 1 && (v[j - 1] == 's' || v[j - 1] == 'l')
        invariant
            k + 1 <= j <= n == v@.len(),
            trim_flags(rest) == trim_flags(v@.subrange(k + 1, j as int)),
        decreases j,
    {
        proof {
            assert(v@.subrange(k + 1, j as int).drop_last() =~= v@.subrange(k + 1, j - 1));
        }
        j -= 1;
    }
    proof {
        assert(trim_flags(v@.subrange(k + 1, j as int)) == v@.subrange(k + 1, j as int));
        assert(rest.skip(j - (k + 1)) =~= v@.subrange(j as int, n as int));
        assert(v@.take(k as int) =~= v@.subrange(0, k as int));
    }
    let port = match parse_u16_range(v.as_slice(), k + 1, j) {
        Some(p) => p,
        None => return None,
    };
    let ssl = range_contains(v.as_slice(), j, n, 's');
    let local = range_contains(v.as_slice(), j, n, 'l');
    Some(ListenEndpoint { addr: string_from_range(v.as_slice(), 0, k), port, ssl, local })
}

/// A `host:port` entry of a stored list: the host before the last `:`,
/// the port after it. `None` if there is no `:` or the port does not
/// parse.
pub open spec fn parse_host_port(e: Seq<char>) -> Option<(Seq<char>, u16)> {
    let k = last_index_of(e, ':');
    if k < 0 {
        None
    } else {
        match parse_u16(e.skip(k + 1)) {
            Some(port) => Some((e.take(k), port)),
            None => None,
        }
    }
}

/// Parses one `host:port` entry (see [`parse_host_port`]).
pub fn parse_host_port_text(entry: &str) -> (r: Option<(String, u16)>)
    ensures
        match parse_host_port(entry@) {
            None => r is None,
            Some(m) => r matches Some(p) && p.0@ == m.0 && p.1 == m.1,
        },
{
    let v = to_chars(entry);
    let n = v.len();
    proof {
        assert(v@.take(n as int) =~= v@);
    }
    let k = match find_last(v.as_slice(), n, ':') {
        Some(k) => k,
        None => return None,
    };
    proof {
        lemma_last_index_of(v@, ':');
        assert(v@.skip(k + 1) =~= v@.subrange(k + 1, n as int));
        assert(v@.take(k as int) =~= v@.subrange(0, k as int));
    }
    let port = match parse_u16_range(v.as_slice(), k + 1, n) {
        Some(p) => p,
        None => return None,
    };
    Some((string_from_range(v.as_slice(), 0, k), port))
}

/// The text of the fingerprint-length error.
pub open spec fn fingerprint_message(len: nat) -> Seq<char> {
    decimal(len) + " bytes would make the whole peer id deterministic; use at most 19"@
}

/// The text of the empty-range error.
pub open spec fn empty_range_message(first: u16, last: u16) -> Seq<char> {
    "the range "@ + decimal(first as nat) + "..="@ + decimal(last as nat) + " is empty"@
}

impl SettingsPack {
    /// The endpoints (IP address or device name, plus port) to listen on
    /// for incoming uTP and TCP peer connections, also used for
    /// *outgoing* uTP, UDP tracker and DHT traffic. Port 0 lets the OS
    /// pick; `ssl` accepts only SSL peers; `local` restricts the endpoint
    /// to its local network and hides it from non-local tracker
    /// announces. With no listen endpoints, networking is disabled: no
    /// DHT, no outgoing uTP or tracker connections, no incoming
    /// connections (outgoing TCP still works, subject to
    /// `outgoing_interfaces`).
    ///
    /// Endpoints with a malformed address token are rejected (a malformed
    /// entry would be skipped by libtorrent, silently removing a listen
    /// socket); the first one found is reported and nothing is staged. An
    /// empty slice is accepted but leaves the session with no listen
    /// sockets at all.
    pub fn listen_interfaces(&mut self, endpoints: &[ListenEndpoint]) -> (r: Result<
        &mut Self,
        SettingsError,
    >)
        requires
            old(self).wf(),
        ensures
            (forall|i: int|
                0 <= i < endpoints@.len() ==> host_token_problem(
                    "address"@,
                    (#[trigger] endpoints@[i]).addr@,
                ) is None) ==> (r matches Ok(p) && p.wf() && p@ == old(self)@.with_str(
                LISTEN_INTERFACES,
                listen_text(endpoints@),
            ) && *final(self) == *final(p)),
            !(forall|i: int|
                0 <= i < endpoints@.len() ==> host_token_problem(
                    "address"@,
                    (#[trigger] endpoints@[i]).addr@,
                ) is None) ==> (r matches Err(e) && *final(self) == *old(self) && e@.setting
                == "listen_interfaces"@ && exists|i: int|
                0 <= i < endpoints@.len() && (forall|j: int|
                    0 <= j < i ==> host_token_problem("address"@, (#[trigger] endpoints@[j]).addr@)
                        is None) && Some(e@.message) == host_token_problem(
                    "address"@,
                    endpoints@[i].addr@,
                )),
    {
        let mut s = String::new();
        let mut i: usize = 0;
        while i < endpoints.len()
            invariant
                i <= endpoints@.len(),
                s@ == join(
                    Seq::new(i as nat, |k: int| listen_entry_text(listen_model(endpoints@[k]))),
                    ',',
                ),
                forall|j: int|
                    0 <= j < i ==> host_token_problem("address"@, (#[trigger] endpoints@[j]).addr@)
                        is None,
            decreases endpoints.len() - i,
        {
            let e = &endpoints[i];
            match host_token("listen_interfaces", "address", e.addr.as_str()) {
                Ok(()) => {},
                Err(err) => {
                    return Err(err);
                },
            }
            let ghost before = s@;
            if i > 0 {
                push_char(&mut s, ',');
            }
            push_str(&mut s, e.addr.as_str());
            push_char(&mut s, ':');
            push_decimal(&mut s, e.port as u64);
            if e.ssl {
                push_char(&mut s, 's');
            }
            if e.local {
                push_char(&mut s, 'l');
            }
            proof {
                let f = |k: int| listen_entry_text(listen_model(endpoints@[k]));
                let next = Seq::new((i + 1) as nat, f);
                assert(next.drop_last() =~= Seq::new(i as nat, f));
                assert(next.last() == listen_entry_text(listen_model(endpoints@[i as int])));
                if i > 0 {
                    assert(s@ =~= before + seq![','] + next.last());
                } else {
                    assert(s@ =~= next.last());
                }
            }
            i += 1;
        }
        self.put_str(LISTEN_INTERFACES, s.as_str());
        proof {
            assert(Seq::new(endpoints@.len(), |k: int| listen_entry_text(listen_model(endpoints@[k])))
                =~= Seq::new(i as nat, |k: int| listen_entry_text(listen_model(endpoints@[k]))));
        }
        Ok(self)
    }


    /// The stored endpoints, parsed; `None` if the setting is absent from
    /// this pack or any entry does not parse.
    pub fn get_listen_interfaces_parsed(&self) -> (r: Option<Vec<ListenEndpoint>>)
        requires
            self.wf(),
        ensures
            match self@.str_at(LISTEN_INTERFACES) {
                None => r is None,
                Some(raw) => match parse_listen_entries(list_entries(raw)) {
                    None => r is None,
                    Some(ms) => r matches Some(v) && v@.len() == ms.len() && forall|i: int|
                        0 <= i < ms.len() ==> listen_model(#[trigger] v@[i]) == ms[i],
                },
            },
    {
        let raw = match self.str_at(LISTEN_INTERFACES) {
            Some(raw) => raw,
            None => return None,
        };
        let entries = list_entries_of(raw.as_str());
        let ghost es = list_entries(raw@);
        let mut out: Vec<ListenEndpoint> = Vec::new();
        let mut i: usize = 0;
        while i < entries.len()
            invariant
                i <= entries@.len() == es.len(),
                es == list_entries(raw@),
                self@.str_at(LISTEN_INTERFACES) == Some(raw@),
                forall|k: int| 0 <= k < entries@.len() ==> (#[trigger] entries@[k])@ == es[k],
                parse_listen_entries(es.take(i as int)) matches Some(ms) && ms.len() == out@.len()
                    && forall|k: int| 0 <= k < ms.len() ==> listen_model(#[trigger] out@[k]) == ms[k],
            decreases entries.len() - i,
        {
            proof {
                assert(es.take(i + 1).drop_last() =~= es.take(i as int));
                assert(es.take(i + 1).last() == es[i as int]);
            }
            match parse_listen_entry_text(entries[i].as_str()) {
                Some(e) => {
                    out.push(e);
                },
                None => {
                    proof {
                        assert(entries@[i as int]@ == es[i as int]);
                        assert(parse_listen_entry(es[i as int]) is None);
                        assert(parse_listen_entries(es.take(i + 1)) is None);
                        lemma_parse_fails_onward(es, i + 1);
                        assert(parse_listen_entries(list_entries(raw@)) is None);
                        assert(self@.str_at(LISTEN_INTERFACES) == Some(raw@));
                    }
                    return None;
                },
            }
            i += 1;
        }
        proof {
            assert(es.take(i as int) =~= es);
        }
        Some(out)
    }

    /// The IP addresses and/or interface names outgoing TCP peer
    /// connections are bound to, round-robin. When set, incoming
    /// connections and packets on a local interface or IP *not* in this
    /// list are rejected. Entries carry no port; IPv6 addresses go in bare
    /// (unbracketed), with an optional `%scope`.
    ///
    /// An empty slice restores the default (unrestricted). Each entry must
    /// be a device name, IPv4 address, or bare IPv6 address; a malformed
    /// entry would make every outgoing bind through it fail (and, when it
    /// hides a listen address, reject incoming connections), so it is
    /// rejected here instead, staging nothing.
    pub fn outgoing_interfaces(&mut self, entries: &[&str]) -> (r: Result<&mut Self, SettingsError>)
        requires
            old(self).wf(),
        ensures
            (forall|i: int|
                0 <= i < entries@.len() ==> bare_host_problem("entry"@, (#[trigger] entries@[i])@)
                    is None) ==> (r matches Ok(p) && p.wf() && p@ == old(self)@.with_str(
                OUTGOING_INTERFACES,
                join(Seq::new(entries@.len(), |i: int| entries@[i]@), ','),
            ) && *final(self) == *final(p)),
            !(forall|i: int|
                0 <= i < entries@.len() ==> bare_host_problem("entry"@, (#[trigger] entries@[i])@)
                    is None) ==> (r matches Err(e) && *final(self) == *old(self) && e@.setting
                == "outgoing_interfaces"@ && exists|i: int|
                0 <= i < entries@.len() && (forall|j: int|
                    0 <= j < i ==> bare_host_problem("entry"@, (#[trigger] entries@[j])@) is None)
                    && Some(e@.message) == bare_host_problem("entry"@, entries@[i]@)),
    {
        let mut s = String::new();
        let mut i: usize = 0;
        while i < entries.len()
            invariant
                i <= entries@.len(),
                s@ == join(Seq::new(i as nat, |k: int| entries@[k]@), ','),
                forall|j: int|
                    0 <= j < i ==> bare_host_problem("entry"@, (#[trigger] entries@[j])@) is None,
            decreases entries.len() - i,
        {
            let e: &str = entries[i];
            match bare_host_token("outgoing_interfaces", "entry", e) {
                Ok(()) => {},
                Err(err) => {
                    return Err(err);
                },
            }
            let ghost before = s@;
            if i > 0 {
                push_char(&mut s, ',');
            }
            push_str(&mut s, e);
            proof {
                let f = |k: int| entries@[k]@;
                let next = Seq::new((i + 1) as nat, f);
                assert(next.drop_last() =~= Seq::new(i as nat, f));
                if i > 0 {
                    assert(s@ =~= before + seq![','] + next.last());
                } else {
                    assert(s@ =~= next.last());
                }
            }
            i += 1;
        }
        self.put_str(OUTGOING_INTERFACES, s.as_str());
        proof {
            assert(Seq::new(entries@.len(), |k: int| entries@[k]@) =~= Seq::new(
                i as nat,
                |k: int| entries@[k]@,
            ));
        }
        Ok(self)
    }


    /// The client fingerprint used as the peer id prefix (the remaining
    /// bytes are randomized per torrent and per incoming connection).
    ///
    /// Accepts at most 19 bytes: a fingerprint of 20 bytes or more becomes
    /// the *entire* peer id, making it deterministic — two clients sharing
    /// it refuse each other as self-connections.
    pub fn peer_fingerprint(&mut self, value: &str) -> (r: Result<&mut Self, SettingsError>)
        requires
            old(self).wf(),
        ensures
            value.len() < 20 ==> (r matches Ok(p) && p.wf() && p@ == old(self)@.with_str(
                PEER_FINGERPRINT,
                value@,
            ) && *final(self) == *final(p)),
            value.len() >= 20 ==> (r matches Err(e) && e@ == (SettingsErrorView {
                setting: "peer_fingerprint"@,
                message: fingerprint_message(value.len() as nat),
            }) && *final(self) == *old(self)),
    {
        let len = value.len();
        if len >= 20 {
            let mut m = String::new();
            push_decimal(&mut m, len as u64);
            push_str(&mut m, " bytes would make the whole peer id deterministic; use at most 19");
            return Err(SettingsError::new("peer_fingerprint", m));
        }
        self.put_str(PEER_FINGERPRINT, value);
        Ok(self)
    }


    /// The local source ports outgoing peer connections bind to, as an
    /// inclusive range (`None` restores the default: OS-selected ephemeral
    /// ports), staging `outgoing_port` and `num_outgoing_ports` together.
    ///
    /// Keeping the pair a `u16` range makes the wrap-around and
    /// signed-overflow hazards of the raw settings unrepresentable. A
    /// range starting at port 0 is rejected: the wrapped port would
    /// silently fall back to ephemeral ports. An empty range is rejected
    /// too; either way nothing is staged.
    ///
    /// Setting a range limits the ability to keep multiple connections to
    /// the same client and should be rare; a small range causes reconnect
    /// failures from sockets in `TIME_WAIT`.
    pub fn outgoing_ports(&mut self, range: Option<RangeInclusive<u16>>) -> (r: Result<
        &mut Self,
        SettingsError,
    >)
        requires
            old(self).wf(),
        ensures
            range is None ==> (r matches Ok(p) && p.wf() && p@ == old(self)@.with_int(
                OUTGOING_PORT,
                0,
            ).with_int(NUM_OUTGOING_PORTS, 0) && *final(self) == *final(p)),
            r is Err ==> *final(self) == *old(self),
            match range {
                Some(rg) => !rg@.exhausted ==> ({
                let first = rg@.start;
                let last = rg@.end;
                &&& first == 0 ==> (r matches Err(e) && e@ == (SettingsErrorView {
                    setting: "outgoing_ports"@,
                    message: "the range must not start at port 0"@,
                }))
                &&& (first != 0 && last < first) ==> (r matches Err(e) && e@ == (SettingsErrorView {
                    setting: "outgoing_ports"@,
                    message: empty_range_message(first, last),
                }))
                &&& (first != 0 && last >= first) ==> (r matches Ok(p) && p.wf() && p@ == old(
                    self,
                )@.with_int(OUTGOING_PORT, first as i32).with_int(
                    NUM_OUTGOING_PORTS,
                    (last - first) as i32,
                ) && *final(self) == *final(p))
                }),
                None => true,
            },
    {
        let rg = match range {
            None => {
                self.put_int(OUTGOING_PORT, 0);
                self.put_int(NUM_OUTGOING_PORTS, 0);
                return Ok(self);
            },
            Some(rg) => rg,
        };
        let first: u16 = *rg.start();
        let last: u16 = *rg.end();
        if first == 0 {
            return Err(
                SettingsError::new("outgoing_ports", string_of("the range must not start at port 0")),
            );
        }
        if last < first {
            let mut m = string_of("the range ");
            push_decimal(&mut m, first as u64);
            push_str(&mut m, "..=");
            push_decimal(&mut m, last as u64);
            push_str(&mut m, " is empty");
            return Err(SettingsError::new("outgoing_ports", m));
        }
        self.put_int(OUTGOING_PORT, first as i32);
        self.put_int(NUM_OUTGOING_PORTS, (last as i32) - (first as i32));
        Ok(self)
    }

    /// The stored outgoing port range. The outer `None` means the pair is
    /// absent from this pack or does not fit the model; `Some(None)` means
    /// OS-selected ephemeral ports (the default). A range reaching past
    /// the last port is cut at 65535.
    pub fn get_outgoing_ports(&self) -> (r: Option<Option<RangeInclusive<u16>>>)
        requires
            self.wf(),
        ensures
            match (self@.int_at(OUTGOING_PORT), self@.int_at(NUM_OUTGOING_PORTS)) {
                (Some(first), Some(count)) => if first <= 0 {
                    r == Some(None::<RangeInclusive<u16>>)
                } else if first > 65535 {
                    r is None
                } else {
                    r matches Some(Some(rg)) && rg@.start == first && rg@.end == clamped_last(first, count)
                        && !rg@.exhausted
                },
                _ => r is None,
            },
    {
        let first = match self.int_at(OUTGOING_PORT) {
            Some(v) => v,
            None => return None,
        };
        let count = match self.int_at(NUM_OUTGOING_PORTS) {
            Some(v) => v,
            None => return None,
        };
        if first <= 0 {
            return Some(None);
        }
        if first > 65535 {
            return None;
        }
        let extra: i64 = if count < 0 {
            0
        } else {
            count as i64
        };
        let mut last: i64 = (first as i64) + extra;
        if last > 65535 {
            last = 65535;
        }
        Some(Some(RangeInclusive::new(first as u16, last as u16)))
    }
}

/// The last port of a stored range: `first + count` (a negative count
/// reads as 0), cut at 65535.
pub open spec fn clamped_last(first: i32, count: i32) -> u16 {
    let c = if count < 0 { 0 } else { count as int };
    if first + c > 65535 {
        65535
    } else {
        (first + c) as u16
    }
}

} // verus!
