//! The grouped DHT bootstrap-node setting.

use vstd::prelude::*;

use crate::settings::error::SettingsError;
use crate::settings::interfaces::{parse_host_port, parse_host_port_text};
use crate::settings::lists::{join, lemma_last_index_before, lemma_list_round_trip, list_entries, list_entries_of};
use crate::settings::port::NonZeroU16;
use crate::settings::table::DHT_BOOTSTRAP_NODES;
use crate::settings::tokens::{host_token, host_token_problem};
use crate::settings::SettingsPack;
use crate::text::{decimal, is_digit, lemma_decimal, lemma_parse_decimal_u16, push_char, push_decimal, push_str, string_of};

verus! {

/// A hostname (or address) and port, as used by
/// [`SettingsPack::dht_bootstrap_nodes`].
#[derive(Clone, Debug, PartialEq, Eq)]
pub struct HostPort {
    /// A hostname, IPv4 address, or bracketed IPv6 address.
    pub host: String,
    /// Port 0 could never be connected to, so it is not representable.
    pub port: NonZeroU16,
}

/// The plain content of a node: host and port.
pub open spec fn host_port_model(n: HostPort) -> (Seq<char>, u16) {
    (n.host@, n.port@)
}

/// How one node is stored: `host:port`.
pub open spec fn node_text(m: (Seq<char>, u16)) -> Seq<char> {
    m.0 + seq![':'] + decimal(m.1 as nat)
}

/// The stored form of a list of nodes.
pub open spec fn nodes_text(nodes: Seq<HostPort>) -> Seq<char> {
    join(Seq::new(nodes.len(), |i: int| node_text(host_port_model(nodes[i]))), ',')
}

/// Reads one stored node: `host:port` with a non-zero port.
pub open spec fn parse_node(e: Seq<char>) -> Option<(Seq<char>, u16)> {
    match parse_host_port(e) {
        Some(m) => if m.1 != 0 {
            Some(m)
        } else {
            None
        },
        None => None,
    }
}

/// Reads every stored node; `None` if any does not parse.
pub open spec fn parse_nodes(es: Seq<Seq<char>>) -> Option<Seq<(Seq<char>, u16)>>
    decreases es.len(),
{
    if es.len() == 0 {
        Some(Seq::empty())
    } else {
        match (parse_nodes(es.drop_last()), parse_node(es.last())) {
            (Some(a), Some(b)) => Some(a.push(b)),
            _ => None,
        }
    }
}

/// Once a prefix of the entries fails to parse, the whole list does.
proof fn lemma_nodes_fail_onward(es: Seq<Seq<char>>, k: int)
    requires
        0 <= k <= es.len(),
        parse_nodes(es.take(k)) is None,
    ensures
        parse_nodes(es) is None,
    decreases es.len() - k,
{
    if k < es.len() {
        assert(es.take(k + 1).drop_last() =~= es.take(k));
        lemma_nodes_fail_onward(es, k + 1);
    } else {
        assert(es.take(k) =~= es);
    }
}

/// A stored node reads back as the node written, when its port is not 0.
pub proof fn lemma_node_round_trip(m: (Seq<char>, u16))
    requires
        m.1 != 0,
    ensures
        parse_node(node_text(m)) == Some(m),
        node_text(m).len() > 0,
        !m.0.contains(',') ==> !node_text(m).contains(','),
{
    let d = decimal(m.1 as nat);
    let t = node_text(m);
    lemma_decimal(m.1 as nat);
    lemma_parse_decimal_u16(m.1);
    assert forall|k: int| 0 <= k < d.len() implies (#[trigger] d[k]) != ':' && d[k] != ',' by {
        assert(is_digit(d[k]));
    }
    lemma_last_index_before(m.0, ':', d);
    let k = m.0.len() as int;
    assert(t.skip(k + 1) =~= d);
    assert(t.take(k) =~= m.0);
    assert(t[k] == ':');
    if !m.0.contains(',') && t.contains(',') {
        let j = choose|j: int| 0 <= j < t.len() && t[j] == ',';
        if j < k {
            assert(m.0[j] == ',');
        } else if j > k {
            assert(d[j - k - 1] == ',');
        }
    }
}

/// Entries written from a list of nodes with non-zero ports read back as
/// that list.
proof fn lemma_node_models_round_trip(ms: Seq<(Seq<char>, u16)>)
    requires
        forall|i: int| 0 <= i < ms.len() ==> (#[trigger] ms[i]).1 != 0,
    ensures
        parse_nodes(Seq::new(ms.len(), |i: int| node_text(ms[i]))) == Some(ms),
    decreases ms.len(),
{
    let es = Seq::new(ms.len(), |i: int| node_text(ms[i]));
    if ms.len() == 0 {
        assert(ms =~= Seq::<(Seq<char>, u16)>::empty());
    } else {
        let front = ms.drop_last();
        assert forall|i: int| 0 <= i < front.len() implies (#[trigger] front[i]).1 != 0 by {
            assert(front[i] == ms[i]);
        }
        lemma_node_models_round_trip(front);
        assert(es.drop_last() =~= Seq::new(front.len(), |i: int| node_text(front[i])));
        assert(es.last() == node_text(ms.last()));
        lemma_node_round_trip(ms.last());
        assert(front.push(ms.last()) =~= ms);
    }
}

/// Nodes whose hosts hold no comma, with non-zero ports, are stored as a
/// list that reads back as those nodes.
pub proof fn lemma_nodes_text_round_trip(nodes: Seq<HostPort>)
    requires
        forall|i: int|
            0 <= i < nodes.len() ==> !(#[trigger] nodes[i]).host@.contains(',') && nodes[i].port@
                != 0,
    ensures
        parse_nodes(list_entries(nodes_text(nodes))) == Some(
            Seq::new(nodes.len(), |i: int| host_port_model(nodes[i])),
        ),
{
    let ms = Seq::new(nodes.len(), |i: int| host_port_model(nodes[i]));
    let parts = Seq::new(nodes.len(), |i: int| node_text(host_port_model(nodes[i])));
    assert forall|i: int| 0 <= i < parts.len() implies (#[trigger] parts[i]).len() > 0
        && !parts[i].contains(',') by {
        lemma_node_round_trip(host_port_model(nodes[i]));
    }
    lemma_list_round_trip(parts);
    assert forall|i: int| 0 <= i < ms.len() implies (#[trigger] ms[i]).1 != 0 by {}
    lemma_node_models_round_trip(ms);
    assert(parts =~= Seq::new(ms.len(), |i: int| node_text(ms[i])));
}

impl SettingsPack {
    /// Back-up DHT bootstrap nodes, used when no other nodes are known.
    /// Changes after the DHT has started may not take effect until it is
    /// restarted.
    ///
    /// An empty slice stores an empty list, which overrides libtorrent's
    /// built-in default (`dht.libtorrent.org:25401`) and disables
    /// bootstrapping from well-known nodes; the built-in default cannot be
    /// restored through this setter. Nodes with a malformed hostname are
    /// rejected (libtorrent would fail to resolve them, silently losing
    /// the bootstrap path); the first one found is reported and nothing is
    /// staged.
    pub fn dht_bootstrap_nodes(&mut self, nodes: &[HostPort]) -> (r: Result<&mut Self, SettingsError>)
        requires
            old(self).wf(),
        ensures
            (forall|i: int|
                0 <= i < nodes@.len() ==> host_token_problem("host"@, (#[trigger] nodes@[i]).host@)
                    is None) ==> (r matches Ok(p) && p.wf() && p@ == old(self)@.with_str(
                DHT_BOOTSTRAP_NODES,
                nodes_text(nodes@),
            ) && *final(self) == *final(p)),
            !(forall|i: int|
                0 <= i < nodes@.len() ==> host_token_problem("host"@, (#[trigger] nodes@[i]).host@)
                    is None) ==> (r matches Err(e) && *final(self) == *old(self) && e@.setting
                == "dht_bootstrap_nodes"@ && exists|i: int|
                0 <= i < nodes@.len() && (forall|j: int|
                    0 <= j < i ==> host_token_problem("host"@, (#[trigger] nodes@[j]).host@) is None)
                    && Some(e@.message) == host_token_problem("host"@, nodes@[i].host@)),
    {
        let mut s = String::new();
        let mut i: usize = 0;
        while i < nodes.len()
            invariant
                i <= nodes@.len(),
                s@ == join(Seq::new(i as nat, |k: int| node_text(host_port_model(nodes@[k]))), ','),
                forall|j: int|
                    0 <= j < i ==> host_token_problem("host"@, (#[trigger] nodes@[j]).host@) is None,
            decreases nodes.len() - i,
        {
            let node = &nodes[i];
            match host_token("dht_bootstrap_nodes", "host", node.host.as_str()) {
                Ok(()) => {},
                Err(err) => {
                    return Err(err);
                },
            }
            let ghost before = s@;
            if i > 0 {
                push_char(&mut s, ',');
            }
            push_str(&mut s, node.host.as_str());
            push_char(&mut s, ':');
            push_decimal(&mut s, node.port.get() as u64);
            proof {
                let f = |k: int| node_text(host_port_model(nodes@[k]));
                let next = Seq::new((i + 1) as nat, f);
                assert(next.drop_last() =~= Seq::new(i as nat, f));
                if i > 0 {
                    assert(s@ =~= before + seq![','] + next.last());
                } else {
                    assert(s@ =~= next.last());
                }
            }
            i += 1;
        }
        self.put_str(DHT_BOOTSTRAP_NODES, s.as_str());
        proof {
            assert(Seq::new(nodes@.len(), |k: int| node_text(host_port_model(nodes@[k]))) =~= Seq::new(
                i as nat,
                |k: int| node_text(host_port_model(nodes@[k])),
            ));
        }
        Ok(self)
    }

    /// The stored nodes, parsed; `None` if the setting is absent from this
    /// pack or any entry does not parse.
    pub fn get_dht_bootstrap_nodes_parsed(&self) -> (r: Option<Vec<HostPort>>)
        requires
            self.wf(),
        ensures
            match self@.str_at(DHT_BOOTSTRAP_NODES) {
                None => r is None,
                Some(raw) => match parse_nodes(list_entries(raw)) {
                    None => r is None,
                    Some(ms) => r matches Some(v) && v@.len() == ms.len() && forall|i: int|
                        0 <= i < ms.len() ==> host_port_model(#[trigger] v@[i]) == ms[i],
                },
            },
    {
        let raw = match self.str_at(DHT_BOOTSTRAP_NODES) {
            Some(raw) => raw,
            None => return None,
        };
        let entries = list_entries_of(raw.as_str());
        let ghost es = list_entries(raw@);
        let mut out: Vec<HostPort> = Vec::new();
        let mut i: usize = 0;
        while i < entries.len()
            invariant
                i <= entries@.len() == es.len(),
                es == list_entries(raw@),
                self@.str_at(DHT_BOOTSTRAP_NODES) == Some(raw@),
                forall|k: int| 0 <= k < entries@.len() ==> (#[trigger] entries@[k])@ == es[k],
                parse_nodes(es.take(i as int)) matches Some(ms) && ms.len() == out@.len() && forall|
                    k: int,
                | 0 <= k < ms.len() ==> host_port_model(#[trigger] out@[k]) == ms[k],
            decreases entries.len() - i,
        {
            proof {
                assert(es.take(i + 1).drop_last() =~= es.take(i as int));
                assert(es.take(i + 1).last() == es[i as int]);
                assert(entries@[i as int]@ == es[i as int]);
            }
            let parsed = match parse_host_port_text(entries[i].as_str()) {
                Some((host, p)) => match NonZeroU16::new(p) {
                    Some(port) => Some(HostPort { host, port }),
                    None => None,
                },
                None => None,
            };
            match parsed {
                Some(n) => {
                    out.push(n);
                },
                None => {
                    proof {
                        assert(parse_node(es[i as int]) is None);
                        assert(parse_nodes(es.take(i + 1)) is None);
                        lemma_nodes_fail_onward(es, i + 1);
                    }
                    return None;
                },
            }
            i += 1;
        }
        proof {
            assert(es.take(i as int) =~= es);
        }
        Some(out)
    }
}

} // verus!
