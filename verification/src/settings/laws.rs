//! What holds of settings packs across calls: a read gives back what was
//! written, writes touch only their own setting, merging and resetting
//! behave as documented, and each settings group reads back as written.

use vstd::prelude::*;

use crate::settings::bootstrap::{host_port_model, lemma_nodes_text_round_trip, nodes_text, parse_nodes, HostPort};
use crate::settings::interfaces::{
    clamped_last, lemma_listen_text_round_trip, listen_model, listen_text, parse_listen_entries, ListenEndpoint,
};
use crate::settings::lists::list_entries;
use crate::settings::tokens::host_token_problem;
use crate::settings::proxy::{
    i2p_model, i2p_problem, i2p_reset, i2p_written, proxy_model, proxy_problem, proxy_reset,
    proxy_written, read_i2p, read_proxy, stored_host, I2pConfig, I2pModel, ProxyConfig, ProxyModel,
};
use crate::settings::enums::{enc_policy_code, proxy_type_code, EncPolicy, ProxyType};
use crate::settings::table::{DHT_BOOTSTRAP_NODES, IN_ENC_POLICY, OUT_ENC_POLICY, LISTEN_INTERFACES, NUM_BOOL, NUM_INT, NUM_OUTGOING_PORTS, NUM_STR, OUTGOING_PORT};
use crate::settings::table::spec_setting_name;
use crate::settings::{
    kind_base, listed_setting, raw_kind, valid_raw_key, PackView, SettingKey, SettingKind, BOOL_BASE, INT_BASE,
};

verus! {

/// Writing an integer setting and reading it back gives the value
/// written; every other integer setting, and every string and boolean
/// setting, is unchanged.
pub proof fn lemma_int_write_then_read(v: PackView, raw: i32, other: i32, value: i32)
    requires
        v.wf(),
        INT_BASE <= raw < INT_BASE + NUM_INT,
        INT_BASE <= other < INT_BASE + NUM_INT,
    ensures
        v.with_int(raw, value).int_at(raw) == Some(value),
        other != raw ==> v.with_int(raw, value).int_at(other) == v.int_at(other),
        v.with_int(raw, value).strs == v.strs,
        v.with_int(raw, value).bools == v.bools,
        v.with_int(raw, value).wf(),
{
}

/// Writing a string setting and reading it back gives the value written;
/// every other setting is unchanged.
pub proof fn lemma_str_write_then_read(v: PackView, raw: i32, other: i32, value: Seq<char>)
    requires
        v.wf(),
        0 <= raw < NUM_STR,
        0 <= other < NUM_STR,
    ensures
        v.with_str(raw, value).str_at(raw) == Some(value),
        other != raw ==> v.with_str(raw, value).str_at(other) == v.str_at(other),
        v.with_str(raw, value).ints == v.ints,
        v.with_str(raw, value).bools == v.bools,
        v.with_str(raw, value).wf(),
{
}

/// Writing a boolean setting and reading it back gives the value written;
/// every other setting is unchanged.
pub proof fn lemma_bool_write_then_read(v: PackView, raw: i32, other: i32, value: bool)
    requires
        v.wf(),
        BOOL_BASE <= raw < BOOL_BASE + NUM_BOOL,
        BOOL_BASE <= other < BOOL_BASE + NUM_BOOL,
    ensures
        v.with_bool(raw, value).bool_at(raw) == Some(value),
        other != raw ==> v.with_bool(raw, value).bool_at(other) == v.bool_at(other),
        v.with_bool(raw, value).strs == v.strs,
        v.with_bool(raw, value).ints == v.ints,
        v.with_bool(raw, value).wf(),
{
}

/// A fresh pack holds nothing.
pub proof fn lemma_empty_holds_nothing(i: int)
    ensures
        0 <= i < NUM_STR ==> PackView::empty().strs[i] is None,
        0 <= i < NUM_INT ==> PackView::empty().ints[i] is None,
        0 <= i < NUM_BOOL ==> PackView::empty().bools[i] is None,
        PackView::empty().wf(),
{
}

/// The defaults pack holds every setting.
pub proof fn lemma_defaults_hold_everything(i: int)
    ensures
        0 <= i < NUM_STR ==> PackView::defaults().strs[i] is Some,
        0 <= i < NUM_INT ==> PackView::defaults().ints[i] is Some,
        0 <= i < NUM_BOOL ==> PackView::defaults().bools[i] is Some,
        PackView::defaults().wf(),
{
}

/// Applying a delta copies exactly the values the delta holds: a setting
/// the delta holds takes the delta's value, any other keeps its own. The
/// delta itself is not changed (it is only read).
pub proof fn lemma_apply_merges_only_present_values(base: PackView, delta: PackView, i: int)
    requires
        base.wf(),
        delta.wf(),
    ensures
        base.merged(delta).wf(),
        0 <= i < NUM_INT ==> base.merged(delta).ints[i] == (if delta.ints[i] is Some {
            delta.ints[i]
        } else {
            base.ints[i]
        }),
        0 <= i < NUM_STR ==> base.merged(delta).strs[i] == (if delta.strs[i] is Some {
            delta.strs[i]
        } else {
            base.strs[i]
        }),
        0 <= i < NUM_BOOL ==> base.merged(delta).bools[i] == (if delta.bools[i] is Some {
            delta.bools[i]
        } else {
            base.bools[i]
        }),
{
}

/// Merging an empty delta changes nothing, and merging a pack into
/// itself changes nothing.
pub proof fn lemma_apply_identities(base: PackView)
    requires
        base.wf(),
    ensures
        base.merged(PackView::empty()) == base,
        base.merged(base) == base,
{
    assert(base.merged(PackView::empty()).strs =~= base.strs);
    assert(base.merged(PackView::empty()).ints =~= base.ints);
    assert(base.merged(PackView::empty()).bools =~= base.bools);
    assert(base.merged(base).strs =~= base.strs);
    assert(base.merged(base).ints =~= base.ints);
    assert(base.merged(base).bools =~= base.bools);
}

/// Whether packs `a` and `b` hold the same value (or both none) for `key`.
pub open spec fn same_slot(a: PackView, b: PackView, key: SettingKey) -> bool {
    let i = key.spec_index();
    match key.spec_kind() {
        SettingKind::Str => a.strs[i] == b.strs[i],
        SettingKind::Int => a.ints[i] == b.ints[i],
        SettingKind::Bool => a.bools[i] == b.bools[i],
    }
}

/// Resetting a setting to its default writes what the defaults pack holds
/// for it, and leaves every other setting as it was.
pub proof fn lemma_set_default_reads_default(v: PackView, key: SettingKey, other: SettingKey)
    requires
        v.wf(),
        valid_raw_key(key@ as int),
        valid_raw_key(other@ as int),
    ensures
        v.with_default(key).wf(),
        v.with_default(key).has(key),
        same_slot(v.with_default(key), PackView::defaults(), key),
        other@ != key@ ==> same_slot(v.with_default(key), v, other),
{
}

/// Clearing one setting leaves it absent and every other setting as it
/// was.
pub proof fn lemma_clear_key_removes_only_that_key(v: PackView, key: SettingKey, other: SettingKey)
    requires
        v.wf(),
        valid_raw_key(key@ as int),
        valid_raw_key(other@ as int),
    ensures
        v.without(key).wf(),
        !v.without(key).has(key),
        other@ != key@ ==> same_slot(v.without(key), v, other),
{
}

/// Every listed setting has a valid key of the listed kind, at the listed
/// index within that kind, so `SettingKey::from_raw` accepts it and
/// `SettingKey::kind` reports the listed kind.
pub proof fn lemma_listed_keys_are_valid(i: int)
    requires
        0 <= i < NUM_STR + NUM_INT + NUM_BOOL,
    ensures
        valid_raw_key(listed_setting(i).0 as int),
        raw_kind(listed_setting(i).0 as int) == Some(listed_setting(i).2),
        listed_setting(i).1 == spec_setting_name(
            listed_setting(i).2,
            listed_setting(i).0 - kind_base(listed_setting(i).2),
        ),
{
}

/// The I2P group reads back as written: any configuration the setter
/// accepts (with its non-zero port) is what the getter returns.
pub proof fn lemma_i2p_round_trip(v: PackView, m: I2pModel)
    requires
        v.wf(),
        m.sam_port != 0,
        i2p_problem(m) is None,
    ensures
        read_i2p(i2p_written(v, m)) == Some(Some(m)),
{
    let w = i2p_written(v, m);
    assert(m.sam_host.len() > 0);
    assert(w.str_at(crate::settings::table::I2P_HOSTNAME) == Some(m.sam_host));
}

/// Disabling I2P reads back as "off".
pub proof fn lemma_i2p_reset_reads_off(v: PackView)
    requires
        v.wf(),
    ensures
        read_i2p(i2p_reset(v)) == Some(None::<I2pModel>),
{
    reveal_strlit("");
}

/// The proxy group reads back as written.
pub proof fn lemma_proxy_round_trip(v: PackView, m: ProxyModel)
    requires
        v.wf(),
        m.port != 0,
        m.ty != ProxyType::NoProxy,
        m.ty == ProxyType::Socks4 ==> !m.resolve_hostnames && m.password.len() == 0,
        (m.ty == ProxyType::Socks5 || m.ty == ProxyType::Http) ==> m.username.len() == 0
            && m.password.len() == 0,
        !(m.ty == ProxyType::Socks5 || m.ty == ProxyType::Socks5Pw) ==> !m.udp_send_local_endpoint,
        !(m.ty == ProxyType::Http || m.ty == ProxyType::HttpPw) ==> !m.send_host_in_connect,
    ensures
        read_proxy(proxy_written(v, m)) == Some(Some(m)),
{
    let w = proxy_written(v, m);
    assert(w.int_at(crate::settings::table::PROXY_TYPE) == Some(proxy_type_code(m.ty)));
    if m.username.len() == 0 {
        assert(m.username =~= Seq::<char>::empty());
    }
    if m.password.len() == 0 {
        assert(m.password =~= Seq::<char>::empty());
    }
    let r = read_proxy(w)->Some_0->Some_0;
    assert(r.ty == m.ty);
    assert(r.username == m.username);
    assert(r.password == m.password);
    assert(r.host == m.host);
    assert(r.port == m.port);
    assert(r.resolve_hostnames == m.resolve_hostnames);
    assert(r.udp_send_local_endpoint == m.udp_send_local_endpoint);
    assert(r.send_host_in_connect == m.send_host_in_connect);
}

/// Any proxy configuration the setter accepts reads back as what it
/// stored: the same protocol, credentials and switches, with the host as
/// stored (bare, without the brackets of an IPv6 literal).
pub proof fn lemma_proxy_config_round_trip(v: PackView, c: ProxyConfig)
    requires
        v.wf(),
        c.port@ != 0,
        proxy_problem(c) is None,
    ensures
        ({
            let m = proxy_model(c, stored_host(c.host@)->Ok_0);
            read_proxy(proxy_written(v, m)) == Some(Some(m))
        }),
{
    let m = proxy_model(c, stored_host(c.host@)->Ok_0);
    lemma_proxy_round_trip(v, m);
}

/// Any I2P configuration the setter accepts reads back unchanged.
pub proof fn lemma_i2p_config_round_trip(v: PackView, c: I2pConfig)
    requires
        v.wf(),
        c.sam_port@ != 0,
        i2p_problem(i2p_model(c)) is None,
    ensures
        read_i2p(i2p_written(v, i2p_model(c))) == Some(Some(i2p_model(c))),
{
    lemma_i2p_round_trip(v, i2p_model(c));
}

/// Removing the proxy reads back as "no proxy".
pub proof fn lemma_proxy_reset_reads_off(v: PackView)
    requires
        v.wf(),
    ensures
        read_proxy(proxy_reset(v)) == Some(None::<ProxyModel>),
{
}

/// The outgoing port range reads back as written: a range `first..=last`
/// is stored as `first` and `last - first`, which read back as the same
/// range; no range is stored as port 0, which reads back as "ephemeral".
pub proof fn lemma_outgoing_ports_round_trip(v: PackView, first: u16, last: u16)
    requires
        v.wf(),
        1 <= first <= last,
    ensures
        ({
            let w = v.with_int(OUTGOING_PORT, first as i32).with_int(
                NUM_OUTGOING_PORTS,
                (last - first) as i32,
            );
            &&& w.int_at(OUTGOING_PORT) == Some(first as i32)
            &&& w.int_at(NUM_OUTGOING_PORTS) == Some((last - first) as i32)
            &&& clamped_last(first as i32, (last - first) as i32) == last
        }),
        v.with_int(OUTGOING_PORT, 0).with_int(NUM_OUTGOING_PORTS, 0).int_at(OUTGOING_PORT) == Some(
            0i32,
        ),
{
}

/// Listen endpoints that `listen_interfaces` accepts are stored so that
/// `get_listen_interfaces_parsed` reads back the same endpoints, in order.
pub proof fn lemma_listen_interfaces_round_trip(v: PackView, eps: Seq<ListenEndpoint>)
    requires
        v.wf(),
        forall|i: int|
            0 <= i < eps.len() ==> host_token_problem("address"@, (#[trigger] eps[i]).addr@)
                is None,
    ensures
        v.with_str(LISTEN_INTERFACES, listen_text(eps)).str_at(LISTEN_INTERFACES) == Some(
            listen_text(eps),
        ),
        parse_listen_entries(list_entries(listen_text(eps))) == Some(
            Seq::new(eps.len(), |i: int| listen_model(eps[i])),
        ),
{
    assert forall|i: int| 0 <= i < eps.len() implies !(#[trigger] eps[i]).addr@.contains(',') by {
        assert(host_token_problem("address"@, eps[i].addr@) is None);
    }
    lemma_listen_text_round_trip(eps);
}

/// DHT bootstrap nodes that `dht_bootstrap_nodes` accepts are stored so
/// that `get_dht_bootstrap_nodes_parsed` reads back the same nodes, in
/// order.
pub proof fn lemma_dht_bootstrap_nodes_round_trip(v: PackView, nodes: Seq<HostPort>)
    requires
        v.wf(),
        forall|i: int|
            0 <= i < nodes.len() ==> host_token_problem("host"@, (#[trigger] nodes[i]).host@)
                is None && nodes[i].port@ != 0,
    ensures
        v.with_str(DHT_BOOTSTRAP_NODES, nodes_text(nodes)).str_at(DHT_BOOTSTRAP_NODES) == Some(
            nodes_text(nodes),
        ),
        parse_nodes(list_entries(nodes_text(nodes))) == Some(
            Seq::new(nodes.len(), |i: int| host_port_model(nodes[i])),
        ),
{
    assert forall|i: int| 0 <= i < nodes.len() implies !(#[trigger] nodes[i]).host@.contains(',')
        && nodes[i].port@ != 0 by {
        assert(host_token_problem("host"@, nodes[i].host@) is None);
    }
    lemma_nodes_text_round_trip(nodes);
}

/// The encryption-policy settings hold libtorrent's `enc_policy`
/// constants: after writing a policy, the setting reads 0 for forced
/// encryption, 1 for enabled, 2 for disabled (plaintext only).
pub proof fn lemma_enc_policy_stored_as_libtorrent_constant(v: PackView, p: EncPolicy)
    requires
        v.wf(),
    ensures
        v.with_int(OUT_ENC_POLICY, enc_policy_code(p)).int_at(OUT_ENC_POLICY) == Some(
            match p {
                EncPolicy::PeForced => 0i32,
                EncPolicy::PeEnabled => 1i32,
                EncPolicy::PeDisabled => 2i32,
            },
        ),
        v.with_int(IN_ENC_POLICY, enc_policy_code(p)).int_at(IN_ENC_POLICY) == Some(
            match p {
                EncPolicy::PeForced => 0i32,
                EncPolicy::PeEnabled => 1i32,
                EncPolicy::PeDisabled => 2i32,
            },
        ),
{
}

} // verus!
