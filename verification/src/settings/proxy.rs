//! The proxy and I2P settings groups: each written as a whole from a
//! config type that makes invalid combinations unrepresentable, and read
//! back as one.

use vstd::prelude::*;

use crate::settings::enums::{proxy_type_code, ProxyType};
use crate::settings::error::{SettingsError, SettingsErrorView};
use crate::settings::port::NonZeroU16;
use crate::settings::table::{
    bool_default, bool_setting_default, int_default, int_setting_default, str_default,
    str_setting_default, ALLOW_I2P_MIXED, I2P_HOSTNAME, I2P_INBOUND_LENGTH,
    I2P_INBOUND_LENGTH_VARIANCE, I2P_INBOUND_QUANTITY, I2P_OUTBOUND_LENGTH,
    I2P_OUTBOUND_LENGTH_VARIANCE, I2P_OUTBOUND_QUANTITY, I2P_PORT, PROXY_HOSTNAME,
    PROXY_HOSTNAMES, PROXY_PASSWORD, PROXY_PEER_CONNECTIONS, PROXY_PORT, PROXY_SEND_HOST_IN_CONNECT,
    PROXY_TRACKER_CONNECTIONS, PROXY_TYPE, PROXY_USERNAME, SOCKS5_UDP_SEND_LOCAL_EP,
};
use crate::settings::tokens::{bare_host_problem, bare_host_token};
use crate::settings::{PackView, SettingsPack, BOOL_BASE, INT_BASE, STR_BASE};
use vstd::utf8::encode_utf8;

use crate::text::{debug_str, int_text, push_debug_str, push_int, push_str, string_of};

verus! {

// ---- I2P ----------------------------------------------------------------------------------

/// One direction of I2P tunnel configuration.
#[derive(Clone, Copy, Debug, PartialEq, Eq, Structural)]
pub struct I2pTunnels {
    /// Number of parallel tunnels; the SAM protocol accepts 1..=16.
    pub quantity: u8,
    /// Hops per tunnel (0..=7). More hops, more anonymity, more latency.
    pub length: u8,
    /// Random variance applied to `length` (-7..=7).
    pub variance: i8,
}

/// The I2P SAM bridge configuration: the whole `i2p_*` settings group,
/// written atomically by [`SettingsPack::i2p`].
#[derive(Clone, Debug, PartialEq, Eq)]
pub struct I2pConfig {
    /// Hostname or address of the SAM bridge. An IPv6 literal goes in bare
    /// (unbracketed).
    pub sam_host: String,
    /// Port of the SAM bridge.
    pub sam_port: NonZeroU16,
    /// Inbound tunnel configuration.
    pub inbound: I2pTunnels,
    /// Outbound tunnel configuration.
    pub outbound: I2pTunnels,
    /// Allow mixing clearnet peers into i2p swarms (deanonymizing).
    pub allow_mixed: bool,
}

/// The plain content of an [`I2pConfig`].
pub ghost struct I2pModel {
    pub sam_host: Seq<char>,
    pub sam_port: u16,
    pub inbound: I2pTunnels,
    pub outbound: I2pTunnels,
    pub allow_mixed: bool,
}

pub open spec fn i2p_model(c: I2pConfig) -> I2pModel {
    I2pModel {
        sam_host: c.sam_host@,
        sam_port: c.sam_port@,
        inbound: c.inbound,
        outbound: c.outbound,
        allow_mixed: c.allow_mixed,
    }
}

/// What is wrong with one direction's tunnel parameters, if anything.
pub open spec fn tunnel_problem(dir: Seq<char>, t: I2pTunnels) -> Option<Seq<char>> {
    if !(1 <= t.quantity <= 16) {
        Some(dir + " quantity "@ + int_text(t.quantity as int) + " is outside the valid range 1..=16"@)
    } else if t.length > 7 {
        Some(dir + " length "@ + int_text(t.length as int) + " is outside the valid range 0..=7"@)
    } else if !(-7 <= t.variance <= 7) {
        Some(dir + " variance "@ + int_text(t.variance as int) + " is outside the valid range -7..=7"@)
    } else {
        None
    }
}

/// What is wrong with an I2P configuration, if anything: the SAM host,
/// then the inbound tunnels, then the outbound tunnels.
pub open spec fn i2p_problem(m: I2pModel) -> Option<Seq<char>> {
    if bare_host_problem("SAM host"@, m.sam_host) is Some {
        bare_host_problem("SAM host"@, m.sam_host)
    } else if tunnel_problem("inbound"@, m.inbound) is Some {
        tunnel_problem("inbound"@, m.inbound)
    } else {
        tunnel_problem("outbound"@, m.outbound)
    }
}

/// The pack with the I2P group written from `m`.
pub open spec fn i2p_written(v: PackView, m: I2pModel) -> PackView {
    v.with_str(I2P_HOSTNAME, m.sam_host).with_int(I2P_PORT, m.sam_port as i32).with_bool(
        ALLOW_I2P_MIXED,
        m.allow_mixed,
    ).with_int(I2P_INBOUND_QUANTITY, m.inbound.quantity as i32).with_int(
        I2P_INBOUND_LENGTH,
        m.inbound.length as i32,
    ).with_int(I2P_INBOUND_LENGTH_VARIANCE, m.inbound.variance as i32).with_int(
        I2P_OUTBOUND_QUANTITY,
        m.outbound.quantity as i32,
    ).with_int(I2P_OUTBOUND_LENGTH, m.outbound.length as i32).with_int(
        I2P_OUTBOUND_LENGTH_VARIANCE,
        m.outbound.variance as i32,
    )
}

/// The default of the string setting `raw`.
pub open spec fn str_default_of(raw: i32) -> Seq<char> {
    str_setting_default(raw - STR_BASE)
}

/// The default of the integer setting `raw`.
pub open spec fn int_default_of(raw: i32) -> i32 {
    int_setting_default(raw - INT_BASE)
}

/// The default of the boolean setting `raw`.
pub open spec fn bool_default_of(raw: i32) -> bool {
    bool_setting_default(raw - BOOL_BASE)
}

/// The pack with every setting of the I2P group at its default.
pub open spec fn i2p_reset(v: PackView) -> PackView {
    v.with_str(I2P_HOSTNAME, str_default_of(I2P_HOSTNAME)).with_int(
        I2P_PORT,
        int_default_of(I2P_PORT),
    ).with_bool(ALLOW_I2P_MIXED, bool_default_of(ALLOW_I2P_MIXED)).with_int(
        I2P_INBOUND_QUANTITY,
        int_default_of(I2P_INBOUND_QUANTITY),
    ).with_int(I2P_INBOUND_LENGTH, int_default_of(I2P_INBOUND_LENGTH)).with_int(
        I2P_INBOUND_LENGTH_VARIANCE,
        int_default_of(I2P_INBOUND_LENGTH_VARIANCE),
    ).with_int(I2P_OUTBOUND_QUANTITY, int_default_of(I2P_OUTBOUND_QUANTITY)).with_int(
        I2P_OUTBOUND_LENGTH,
        int_default_of(I2P_OUTBOUND_LENGTH),
    ).with_int(I2P_OUTBOUND_LENGTH_VARIANCE, int_default_of(I2P_OUTBOUND_LENGTH_VARIANCE))
}

/// Reads one direction's tunnel parameters: each must be present and fit
/// its type.
pub open spec fn read_tunnels(q: Option<i32>, l: Option<i32>, var: Option<i32>) -> Option<I2pTunnels> {
    match (q, l, var) {
        (Some(q), Some(l), Some(var)) => if 0 <= q <= 255 && 0 <= l <= 255 && -128 <= var <= 127 {
            Some(I2pTunnels { quantity: q as u8, length: l as u8, variance: var as i8 })
        } else {
            None
        },
        _ => None,
    }
}

/// Reads the I2P group: `Some(None)` for an empty SAM host (I2P off);
/// `None` if the group is absent or does not fit the model.
pub open spec fn read_i2p(v: PackView) -> Option<Option<I2pModel>> {
    match v.str_at(I2P_HOSTNAME) {
        None => None,
        Some(host) => if host.len() == 0 {
            Some(None)
        } else {
            match (
                v.int_at(I2P_PORT),
                read_tunnels(
                    v.int_at(I2P_INBOUND_QUANTITY),
                    v.int_at(I2P_INBOUND_LENGTH),
                    v.int_at(I2P_INBOUND_LENGTH_VARIANCE),
                ),
                read_tunnels(
                    v.int_at(I2P_OUTBOUND_QUANTITY),
                    v.int_at(I2P_OUTBOUND_LENGTH),
                    v.int_at(I2P_OUTBOUND_LENGTH_VARIANCE),
                ),
                v.bool_at(ALLOW_I2P_MIXED),
            ) {
                (Some(port), Some(inbound), Some(outbound), Some(allow_mixed)) => if 1 <= port
                    <= 65535 {
                    Some(
                        Some(
                            I2pModel {
                                sam_host: host,
                                sam_port: port as u16,
                                inbound,
                                outbound,
                                allow_mixed,
                            },
                        ),
                    )
                } else {
                    None
                },
                _ => None,
            }
        },
    }
}

/// Checks one direction's tunnel parameters.
fn check_tunnels(dir: &str, t: &I2pTunnels) -> (r: Result<(), SettingsError>)
    ensures
        tunnel_problem(dir@, *t) is None ==> r is Ok,
        tunnel_problem(dir@, *t) matches Some(m) ==> (r matches Err(e) && e@ == (SettingsErrorView {
            setting: "i2p"@,
            message: m,
        })),
{
    if !(1 <= t.quantity && t.quantity <= 16) {
        let mut m = string_of(dir);
        push_str(&mut m, " quantity ");
        push_int(&mut m, t.quantity as i64);
        push_str(&mut m, " is outside the valid range 1..=16");
        return Err(SettingsError::new("i2p", m));
    }
    if t.length > 7 {
        let mut m = string_of(dir);
        push_str(&mut m, " length ");
        push_int(&mut m, t.length as i64);
        push_str(&mut m, " is outside the valid range 0..=7");
        return Err(SettingsError::new("i2p", m));
    }
    if !(-7 <= t.variance && t.variance <= 7) {
        let mut m = string_of(dir);
        push_str(&mut m, " variance ");
        push_int(&mut m, t.variance as i64);
        push_str(&mut m, " is outside the valid range -7..=7");
        return Err(SettingsError::new("i2p", m));
    }
    Ok(())
}

/// Reads one direction's tunnel parameters (see [`read_tunnels`]).
fn read_tunnels_exec(q: Option<i32>, l: Option<i32>, var: Option<i32>) -> (r: Option<I2pTunnels>)
    ensures
        r == read_tunnels(q, l, var),
{
    match (q, l, var) {
        (Some(q), Some(l), Some(var)) => {
            if 0 <= q && q <= 255 && 0 <= l && l <= 255 && -128 <= var && var <= 127 {
                Some(I2pTunnels { quantity: q as u8, length: l as u8, variance: var as i8 })
            } else {
                None
            }
        },
        _ => None,
    }
}

// ---- proxies ------------------------------------------------------------------------------

/// Username/password credentials for an authenticated proxy. Both parts
/// must be non-empty; SOCKS5 additionally caps each at 255 bytes (the wire
/// format's length field).
#[derive(Clone, Debug, PartialEq, Eq)]
pub struct Credentials {
    pub username: String,
    pub password: String,
}

/// The protocol spoken to the proxy server. Capabilities a protocol does
/// not have (remote DNS on SOCKS4, UDP ASSOCIATE outside SOCKS5, CONNECT
/// hostnames outside HTTP) are not representable.
#[derive(Clone, Debug, PartialEq, Eq)]
pub enum ProxyProtocol {
    /// SOCKS4. The username is sent as the userid and must be non-empty;
    /// SOCKS4 cannot resolve hostnames remotely.
    Socks4 { username: String },
    /// SOCKS5, optionally with RFC 1929 username/password authentication.
    Socks5 {
        auth: Option<Credentials>,
        /// Resolve hostnames through the proxy instead of locally, hiding
        /// DNS lookups from the local network.
        resolve_hostnames: bool,
        /// Send the actual local port in the UDP ASSOCIATE command instead
        /// of 0, for proxies that require it.
        udp_send_local_endpoint: bool,
    },
    /// An HTTP proxy supporting CONNECT, optionally with basic
    /// authentication.
    Http {
        auth: Option<Credentials>,
        /// Resolve hostnames through the proxy instead of locally.
        resolve_hostnames: bool,
        /// Send the hostname instead of the resolved IP in CONNECT requests.
        send_hostname_in_connect: bool,
    },
}

/// A proxy for outgoing connections: the whole `proxy_*`/`socks5_*`
/// settings group, written atomically by [`SettingsPack::proxy`].
#[derive(Clone, Debug, PartialEq, Eq)]
pub struct ProxyConfig {
    pub protocol: ProxyProtocol,
    /// Hostname or address of the proxy server.
    pub host: String,
    /// Port of the proxy server (port 0 could never be connected to, so it
    /// is not representable).
    pub port: NonZeroU16,
    /// Route peer connections through the proxy.
    pub peer_connections: bool,
    /// Route tracker announces and scrapes through the proxy.
    pub tracker_connections: bool,
}

/// The plain content of a proxy configuration, as the settings group
/// holds it: the type, host, port, credentials and the five switches.
pub ghost struct ProxyModel {
    pub ty: ProxyType,
    pub host: Seq<char>,
    pub port: u16,
    pub username: Seq<char>,
    pub password: Seq<char>,
    pub resolve_hostnames: bool,
    pub peer_connections: bool,
    pub tracker_connections: bool,
    pub udp_send_local_endpoint: bool,
    pub send_host_in_connect: bool,
}

/// The credentials of an optional auth slot (empty when absent).
pub open spec fn auth_parts(auth: Option<Credentials>) -> (Seq<char>, Seq<char>) {
    match auth {
        Some(c) => (c.username@, c.password@),
        None => (Seq::empty(), Seq::empty()),
    }
}

/// What a proxy configuration stores, given its host as stored.
pub open spec fn proxy_model(c: ProxyConfig, host: Seq<char>) -> ProxyModel {
    match c.protocol {
        ProxyProtocol::Socks4 { username } => ProxyModel {
            ty: ProxyType::Socks4,
            host,
            port: c.port@,
            username: username@,
            password: Seq::empty(),
            resolve_hostnames: false,
            peer_connections: c.peer_connections,
            tracker_connections: c.tracker_connections,
            udp_send_local_endpoint: false,
            send_host_in_connect: false,
        },
        ProxyProtocol::Socks5 { auth, resolve_hostnames, udp_send_local_endpoint } => ProxyModel {
            ty: if auth is Some {
                ProxyType::Socks5Pw
            } else {
                ProxyType::Socks5
            },
            host,
            port: c.port@,
            username: auth_parts(auth).0,
            password: auth_parts(auth).1,
            resolve_hostnames,
            peer_connections: c.peer_connections,
            tracker_connections: c.tracker_connections,
            udp_send_local_endpoint,
            send_host_in_connect: false,
        },
        ProxyProtocol::Http { auth, resolve_hostnames, send_hostname_in_connect } => ProxyModel {
            ty: if auth is Some {
                ProxyType::HttpPw
            } else {
                ProxyType::Http
            },
            host,
            port: c.port@,
            username: auth_parts(auth).0,
            password: auth_parts(auth).1,
            resolve_hostnames,
            peer_connections: c.peer_connections,
            tracker_connections: c.tracker_connections,
            udp_send_local_endpoint: false,
            send_host_in_connect: send_hostname_in_connect,
        },
    }
}

/// The host as stored: bare, without the brackets an IPv6 literal may
/// have been written in; `Err` with the message when the brackets are
/// unbalanced or stray.
pub open spec fn stored_host(h: Seq<char>) -> Result<Seq<char>, Seq<char>> {
    if h.len() > 0 && h[0] == '[' {
        if h.len() >= 2 && h[h.len() - 1] == ']' {
            let inner = h.subrange(1, h.len() - 1);
            if inner.contains('[') || inner.contains(']') {
                Err("host "@ + debug_str(h) + " contains stray brackets"@)
            } else {
                Ok(inner)
            }
        } else {
            Err("host "@ + debug_str(h) + " has unbalanced brackets"@)
        }
    } else if h.contains('[') || h.contains(']') {
        Err("host "@ + debug_str(h) + " contains stray brackets"@)
    } else {
        Ok(h)
    }
}

/// The length in bytes of a string's UTF-8 encoding, as `str::len`
/// reports it.
pub open spec fn byte_len(s: Seq<char>) -> usize {
    encode_utf8(s).len() as usize
}

/// What is wrong with an auth slot, if anything (`max` is the byte limit
/// of each part, if the protocol has one).
pub open spec fn auth_problem(auth: Option<Credentials>, max: Option<nat>) -> Option<Seq<char>> {
    match auth {
        None => None,
        Some(c) => if c.username@.len() == 0 {
            Some("auth username must not be empty"@)
        } else if c.password@.len() == 0 {
            Some("auth password must not be empty"@)
        } else if max matches Some(m) && (byte_len(c.username@) > m || byte_len(c.password@) > m) {
            Some("SOCKS5 credentials are limited to 255 bytes each"@)
        } else {
            None
        },
    }
}

/// What is wrong with a protocol choice, if anything.
pub open spec fn protocol_problem(p: ProxyProtocol) -> Option<Seq<char>> {
    match p {
        ProxyProtocol::Socks4 { username } => if username@.len() == 0 {
            Some("SOCKS4 sends the username as its userid; it must not be empty"@)
        } else {
            None
        },
        ProxyProtocol::Socks5 { auth, .. } => auth_problem(auth, Some(255)),
        ProxyProtocol::Http { auth, .. } => auth_problem(auth, None),
    }
}

/// What is wrong with a proxy configuration, if anything: the host's
/// brackets, then the host token, then the protocol.
pub open spec fn proxy_problem(c: ProxyConfig) -> Option<Seq<char>> {
    match stored_host(c.host@) {
        Err(m) => Some(m),
        Ok(h) => if bare_host_problem("host"@, h) is Some {
            bare_host_problem("host"@, h)
        } else {
            protocol_problem(c.protocol)
        },
    }
}

/// The pack with the proxy group written from `m`.
pub open spec fn proxy_written(v: PackView, m: ProxyModel) -> PackView {
    v.with_int(PROXY_TYPE, proxy_type_code(m.ty)).with_str(PROXY_HOSTNAME, m.host).with_int(
        PROXY_PORT,
        m.port as i32,
    ).with_str(PROXY_USERNAME, m.username).with_str(PROXY_PASSWORD, m.password).with_bool(
        PROXY_HOSTNAMES,
        m.resolve_hostnames,
    ).with_bool(PROXY_PEER_CONNECTIONS, m.peer_connections).with_bool(
        PROXY_TRACKER_CONNECTIONS,
        m.tracker_connections,
    ).with_bool(SOCKS5_UDP_SEND_LOCAL_EP, m.udp_send_local_endpoint).with_bool(
        PROXY_SEND_HOST_IN_CONNECT,
        m.send_host_in_connect,
    )
}

/// The pack with every setting of the proxy group at its default.
pub open spec fn proxy_reset(v: PackView) -> PackView {
    v.with_int(PROXY_TYPE, int_default_of(PROXY_TYPE)).with_str(
        PROXY_HOSTNAME,
        str_default_of(PROXY_HOSTNAME),
    ).with_int(PROXY_PORT, int_default_of(PROXY_PORT)).with_str(
        PROXY_USERNAME,
        str_default_of(PROXY_USERNAME),
    ).with_str(PROXY_PASSWORD, str_default_of(PROXY_PASSWORD)).with_bool(
        PROXY_HOSTNAMES,
        bool_default_of(PROXY_HOSTNAMES),
    ).with_bool(PROXY_PEER_CONNECTIONS, bool_default_of(PROXY_PEER_CONNECTIONS)).with_bool(
        PROXY_TRACKER_CONNECTIONS,
        bool_default_of(PROXY_TRACKER_CONNECTIONS),
    ).with_bool(SOCKS5_UDP_SEND_LOCAL_EP, bool_default_of(SOCKS5_UDP_SEND_LOCAL_EP)).with_bool(
        PROXY_SEND_HOST_IN_CONNECT,
        bool_default_of(PROXY_SEND_HOST_IN_CONNECT),
    )
}

/// Reads the proxy group: `Some(None)` for "no proxy"; `None` if the group
/// is absent or does not fit the model (an unknown `proxy_type`, or a port
/// outside `1..=65535`). Write-side rules (non-empty credentials, the
/// SOCKS4 userid) are not re-enforced on read.
pub open spec fn read_proxy(v: PackView) -> Option<Option<ProxyModel>> {
    match v.int_at(PROXY_TYPE) {
        None => None,
        Some(code) => if code == 0 {
            Some(None)
        } else if !(1 <= code <= 5) {
            None
        } else {
            let ty = if code == 1 {
                ProxyType::Socks4
            } else if code == 2 {
                ProxyType::Socks5
            } else if code == 3 {
                ProxyType::Socks5Pw
            } else if code == 4 {
                ProxyType::Http
            } else {
                ProxyType::HttpPw
            };
            let socks5 = code == 2 || code == 3;
            let http = code == 4 || code == 5;
            match (
                v.int_at(PROXY_PORT),
                v.str_at(PROXY_USERNAME),
                v.str_at(PROXY_PASSWORD),
                v.bool_at(PROXY_HOSTNAMES),
                v.str_at(PROXY_HOSTNAME),
                v.bool_at(PROXY_PEER_CONNECTIONS),
                v.bool_at(PROXY_TRACKER_CONNECTIONS),
            ) {
                (
                    Some(port),
                    Some(username),
                    Some(password),
                    Some(resolve),
                    Some(host),
                    Some(peer),
                    Some(tracker),
                ) => if !(1 <= port <= 65535) || (socks5 && v.bool_at(SOCKS5_UDP_SEND_LOCAL_EP) is None)
                    || (http && v.bool_at(PROXY_SEND_HOST_IN_CONNECT) is None) {
                    None
                } else {
                    Some(
                        Some(
                            ProxyModel {
                                ty,
                                host,
                                port: port as u16,
                                username: if code == 1 || code == 3 || code == 5 {
                                    username
                                } else {
                                    Seq::empty()
                                },
                                password: if code == 3 || code == 5 {
                                    password
                                } else {
                                    Seq::empty()
                                },
                                resolve_hostnames: if code == 1 {
                                    false
                                } else {
                                    resolve
                                },
                                peer_connections: peer,
                                tracker_connections: tracker,
                                udp_send_local_endpoint: if socks5 {
                                    v.bool_at(SOCKS5_UDP_SEND_LOCAL_EP).unwrap()
                                } else {
                                    false
                                },
                                send_host_in_connect: if http {
                                    v.bool_at(PROXY_SEND_HOST_IN_CONNECT).unwrap()
                                } else {
                                    false
                                },
                            },
                        ),
                    )
                },
                _ => None,
            }
        },
    }
}

/// The byte limit of each credential part, if the protocol has one.
pub open spec fn limit_of(limited: bool) -> Option<nat> {
    if limited {
        Some(255nat)
    } else {
        None
    }
}

/// Validates an auth slot, returning the parts to store (empty when absent).
fn credentials(auth: &Option<Credentials>, limited: bool) -> (r: Result<(&str, &str), SettingsError>)
    ensures
        match auth_problem(*auth, limit_of(limited)) {
            None => r matches Ok(parts) && (parts.0@, parts.1@) == auth_parts(*auth),
            Some(m) => r matches Err(e) && e@ == (SettingsErrorView { setting: "proxy"@, message: m }),
        },
{
    proof {
        reveal_strlit("");
    }
    match auth {
        None => {
            let e: &str = "";
            proof {
                reveal_strlit("");
                assert(e@ =~= Seq::<char>::empty());
                assert(auth_problem(*auth, limit_of(limited)) is None);
                assert((e@, e@) == auth_parts(*auth));
            }
            Ok((e, e))
        },
        Some(c) => {
            if c.username.as_str().is_empty() {
                return Err(SettingsError::new("proxy", string_of("auth username must not be empty")));
            }
            if c.password.as_str().is_empty() {
                return Err(SettingsError::new("proxy", string_of("auth password must not be empty")));
            }
            if limited && (c.username.as_str().len() > 255 || c.password.as_str().len() > 255) {
                return Err(
                    SettingsError::new(
                        "proxy",
                        string_of("SOCKS5 credentials are limited to 255 bytes each"),
                    ),
                );
            }
            Ok((c.username.as_str(), c.password.as_str()))
        },
    }
}

/// The host as stored (see [`stored_host`]).
fn normalize_host(h: &str) -> (r: Result<String, SettingsError>)
    ensures
        stored_host(h@) matches Ok(s) ==> (r matches Ok(t) && t@ == s),
        stored_host(h@) matches Err(m) ==> (r matches Err(e) && e@ == (SettingsErrorView {
            setting: "proxy"@,
            message: m,
        })),
{
    let v = crate::text::to_chars(h);
    let n = v.len();
    let (from, to) = if n > 0 && v[0] == '[' {
        if n >= 2 && v[n - 1] == ']' {
            (1, n - 1)
        } else {
            let mut m = string_of("host ");
            push_debug_str(&mut m, h);
            push_str(&mut m, " has unbalanced brackets");
            return Err(SettingsError::new("proxy", m));
        }
    } else {
        (0, n)
    };
    let inner = crate::text::string_from_range(v.as_slice(), from, to);
    let w = crate::text::to_chars(inner.as_str());
    if crate::text::chars_contain(w.as_slice(), '[') || crate::text::chars_contain(w.as_slice(), ']') {
        let mut m = string_of("host ");
        push_debug_str(&mut m, h);
        push_str(&mut m, " contains stray brackets");
        return Err(SettingsError::new("proxy", m));
    }
    proof {
        if from == 0 {
            assert(v@.subrange(0, n as int) =~= v@);
        }
    }
    Ok(inner)
}

impl SettingsPack {
    /// Configures (or, with `None`, disables) the I2P SAM bridge, staging
    /// the whole `i2p_*` settings group. `None` resets every setting of the
    /// group to its default (an empty SAM host disables i2p).
    ///
    /// Tunnel parameters outside what the SAM protocol accepts (quantity
    /// `1..=16`, length `0..=7`, variance `-7..=7`) are rejected, staging
    /// nothing: the I2P router would refuse the session, silently disabling
    /// i2p transport.
    pub fn i2p(&mut self, config: Option<&I2pConfig>) -> (r: Result<&mut Self, SettingsError>)
        requires
            old(self).wf(),
        ensures
            match config {
                None => r matches Ok(p) && p.wf() && p@ == i2p_reset(old(self)@) && *final(self)
                    == *final(p),
                Some(c) => match i2p_problem(i2p_model(*c)) {
                    None => r matches Ok(p) && p.wf() && p@ == i2p_written(old(self)@, i2p_model(*c))
                        && *final(self) == *final(p),
                    Some(m) => r matches Err(e) && e@ == (SettingsErrorView {
                        setting: "i2p"@,
                        message: m,
                    }) && *final(self) == *old(self),
                },
            },
    {
        let c = match config {
            None => {
                self.put_str(I2P_HOSTNAME, str_default((I2P_HOSTNAME - STR_BASE) as usize));
                self.put_int(I2P_PORT, int_default((I2P_PORT - INT_BASE) as usize));
                self.put_bool(ALLOW_I2P_MIXED, bool_default((ALLOW_I2P_MIXED - BOOL_BASE) as usize));
                self.put_int(
                    I2P_INBOUND_QUANTITY,
                    int_default((I2P_INBOUND_QUANTITY - INT_BASE) as usize),
                );
                self.put_int(I2P_INBOUND_LENGTH, int_default((I2P_INBOUND_LENGTH - INT_BASE) as usize));
                self.put_int(
                    I2P_INBOUND_LENGTH_VARIANCE,
                    int_default((I2P_INBOUND_LENGTH_VARIANCE - INT_BASE) as usize),
                );
                self.put_int(
                    I2P_OUTBOUND_QUANTITY,
                    int_default((I2P_OUTBOUND_QUANTITY - INT_BASE) as usize),
                );
                self.put_int(
                    I2P_OUTBOUND_LENGTH,
                    int_default((I2P_OUTBOUND_LENGTH - INT_BASE) as usize),
                );
                self.put_int(
                    I2P_OUTBOUND_LENGTH_VARIANCE,
                    int_default((I2P_OUTBOUND_LENGTH_VARIANCE - INT_BASE) as usize),
                );
                return Ok(self);
            },
            Some(c) => c,
        };
        match bare_host_token("i2p", "SAM host", c.sam_host.as_str()) {
            Ok(()) => {},
            Err(e) => return Err(e),
        }
        match check_tunnels("inbound", &c.inbound) {
            Ok(()) => {},
            Err(e) => return Err(e),
        }
        match check_tunnels("outbound", &c.outbound) {
            Ok(()) => {},
            Err(e) => return Err(e),
        }
        self.put_str(I2P_HOSTNAME, c.sam_host.as_str());
        self.put_int(I2P_PORT, c.sam_port.get() as i32);
        self.put_bool(ALLOW_I2P_MIXED, c.allow_mixed);
        self.put_int(I2P_INBOUND_QUANTITY, c.inbound.quantity as i32);
        self.put_int(I2P_INBOUND_LENGTH, c.inbound.length as i32);
        self.put_int(I2P_INBOUND_LENGTH_VARIANCE, c.inbound.variance as i32);
        self.put_int(I2P_OUTBOUND_QUANTITY, c.outbound.quantity as i32);
        self.put_int(I2P_OUTBOUND_LENGTH, c.outbound.length as i32);
        self.put_int(I2P_OUTBOUND_LENGTH_VARIANCE, c.outbound.variance as i32);
        Ok(self)
    }

    /// Reads the I2P group back: `Some(None)` when the SAM host is empty
    /// (I2P off); the outer `None` when the group is absent from this pack
    /// or its raw values do not fit the model.
    pub fn get_i2p(&self) -> (r: Option<Option<I2pConfig>>)
        requires
            self.wf(),
        ensures
            match read_i2p(self@) {
                None => r is None,
                Some(None) => r == Some(None::<I2pConfig>),
                Some(Some(m)) => r matches Some(Some(c)) && i2p_model(c) == m,
            },
    {
        let sam_host = match self.str_at(I2P_HOSTNAME) {
            Some(h) => h,
            None => return None,
        };
        if sam_host.as_str().is_empty() {
            return Some(None);
        }
        let port = match self.int_at(I2P_PORT) {
            Some(p) => p,
            None => return None,
        };
        let inbound = match read_tunnels_exec(
            self.int_at(I2P_INBOUND_QUANTITY),
            self.int_at(I2P_INBOUND_LENGTH),
            self.int_at(I2P_INBOUND_LENGTH_VARIANCE),
        ) {
            Some(t) => t,
            None => return None,
        };
        let outbound = match read_tunnels_exec(
            self.int_at(I2P_OUTBOUND_QUANTITY),
            self.int_at(I2P_OUTBOUND_LENGTH),
            self.int_at(I2P_OUTBOUND_LENGTH_VARIANCE),
        ) {
            Some(t) => t,
            None => return None,
        };
        let allow_mixed = match self.bool_at(ALLOW_I2P_MIXED) {
            Some(b) => b,
            None => return None,
        };
        if !(1 <= port && port <= 65535) {
            return None;
        }
        let sam_port = match NonZeroU16::new(port as u16) {
            Some(p) => p,
            None => return None,
        };
        Some(Some(I2pConfig { sam_host, sam_port, inbound, outbound, allow_mixed }))
    }

    /// Configures (or, with `None`, removes) the proxy for outgoing
    /// connections, staging the whole `proxy_*`/`socks5_*` settings group.
    /// `None` resets every setting of the group to its default.
    ///
    /// The host may be a hostname, an IPv4 address, or an IPv6 address
    /// (bare or bracketed); it is stored bare, because libtorrent's
    /// resolver parses only bare literals. A rejected configuration stages
    /// nothing.
    pub fn proxy(&mut self, config: Option<&ProxyConfig>) -> (r: Result<&mut Self, SettingsError>)
        requires
            old(self).wf(),
        ensures
            match config {
                None => r matches Ok(p) && p.wf() && p@ == proxy_reset(old(self)@) && *final(self)
                    == *final(p),
                Some(c) => match proxy_problem(*c) {
                    None => r matches Ok(p) && p.wf() && p@ == proxy_written(
                        old(self)@,
                        proxy_model(*c, stored_host(c.host@)->Ok_0),
                    ) && *final(self) == *final(p),
                    Some(m) => r matches Err(e) && e@ == (SettingsErrorView {
                        setting: "proxy"@,
                        message: m,
                    }) && *final(self) == *old(self),
                },
            },
    {
        let c = match config {
            None => {
                self.put_int(PROXY_TYPE, int_default((PROXY_TYPE - INT_BASE) as usize));
                self.put_str(PROXY_HOSTNAME, str_default((PROXY_HOSTNAME - STR_BASE) as usize));
                self.put_int(PROXY_PORT, int_default((PROXY_PORT - INT_BASE) as usize));
                self.put_str(PROXY_USERNAME, str_default((PROXY_USERNAME - STR_BASE) as usize));
                self.put_str(PROXY_PASSWORD, str_default((PROXY_PASSWORD - STR_BASE) as usize));
                self.put_bool(PROXY_HOSTNAMES, bool_default((PROXY_HOSTNAMES - BOOL_BASE) as usize));
                self.put_bool(
                    PROXY_PEER_CONNECTIONS,
                    bool_default((PROXY_PEER_CONNECTIONS - BOOL_BASE) as usize),
                );
                self.put_bool(
                    PROXY_TRACKER_CONNECTIONS,
                    bool_default((PROXY_TRACKER_CONNECTIONS - BOOL_BASE) as usize),
                );
                self.put_bool(
                    SOCKS5_UDP_SEND_LOCAL_EP,
                    bool_default((SOCKS5_UDP_SEND_LOCAL_EP - BOOL_BASE) as usize),
                );
                self.put_bool(
                    PROXY_SEND_HOST_IN_CONNECT,
                    bool_default((PROXY_SEND_HOST_IN_CONNECT - BOOL_BASE) as usize),
                );
                return Ok(self);
            },
            Some(c) => c,
        };
        let host = match normalize_host(c.host.as_str()) {
            Ok(h) => h,
            Err(e) => return Err(e),
        };
        match bare_host_token("proxy", "host", host.as_str()) {
            Ok(()) => {},
            Err(e) => return Err(e),
        }
        let (ty, username, password, resolve, udp_local, host_in_connect): (
            ProxyType,
            &str,
            &str,
            bool,
            bool,
            bool,
        ) = match &c.protocol {
            ProxyProtocol::Socks4 { username } => {
                if username.as_str().is_empty() {
                    return Err(
                        SettingsError::new(
                            "proxy",
                            string_of("SOCKS4 sends the username as its userid; it must not be empty"),
                        ),
                    );
                }
                (ProxyType::Socks4, username.as_str(), "", false, false, false)
            },
            ProxyProtocol::Socks5 { auth, resolve_hostnames, udp_send_local_endpoint } => {
                let (u, p) = match credentials(auth, true) {
                    Ok(parts) => parts,
                    Err(e) => return Err(e),
                };
                let ty = if auth.is_some() {
                    ProxyType::Socks5Pw
                } else {
                    ProxyType::Socks5
                };
                (ty, u, p, *resolve_hostnames, *udp_send_local_endpoint, false)
            },
            ProxyProtocol::Http { auth, resolve_hostnames, send_hostname_in_connect } => {
                let (u, p) = match credentials(auth, false) {
                    Ok(parts) => parts,
                    Err(e) => return Err(e),
                };
                let ty = if auth.is_some() {
                    ProxyType::HttpPw
                } else {
                    ProxyType::Http
                };
                (ty, u, p, *resolve_hostnames, false, *send_hostname_in_connect)
            },
        };
        proof {
            reveal_strlit("");
        }
        self.put_int(PROXY_TYPE, ty.to_raw());
        self.put_str(PROXY_HOSTNAME, host.as_str());
        self.put_int(PROXY_PORT, c.port.get() as i32);
        self.put_str(PROXY_USERNAME, username);
        self.put_str(PROXY_PASSWORD, password);
        self.put_bool(PROXY_HOSTNAMES, resolve);
        self.put_bool(PROXY_PEER_CONNECTIONS, c.peer_connections);
        self.put_bool(PROXY_TRACKER_CONNECTIONS, c.tracker_connections);
        self.put_bool(SOCKS5_UDP_SEND_LOCAL_EP, udp_local);
        self.put_bool(PROXY_SEND_HOST_IN_CONNECT, host_in_connect);
        proof {
            let m = proxy_model(*c, host@);
            assert(m.ty == ty);
            assert(m.username == username@);
            assert(m.password == password@);
            assert(m.resolve_hostnames == resolve);
            assert(m.udp_send_local_endpoint == udp_local);
            assert(m.send_host_in_connect == host_in_connect);
            assert(self@ == proxy_written(old(self)@, m));
        }
        Ok(self)
    }

    /// Reads the proxy group back: `Some(None)` means "no proxy"; the outer
    /// `None` means the group is absent from this pack or its raw values do
    /// not fit the model (an out-of-enum `proxy_type`, or a port outside
    /// `1..=65535`). Write-side rules (non-empty credentials, the SOCKS4
    /// userid) are not re-enforced on read.
    pub fn get_proxy(&self) -> (r: Option<Option<ProxyConfig>>)
        requires
            self.wf(),
        ensures
            match read_proxy(self@) {
                None => r is None,
                Some(None) => r == Some(None::<ProxyConfig>),
                Some(Some(m)) => r matches Some(Some(c)) && proxy_model(c, c.host@) == m,
            },
    {
        let code = match self.int_at(PROXY_TYPE) {
            Some(v) => v,
            None => return None,
        };
        if code == 0 {
            return Some(None);
        }
        if !(1 <= code && code <= 5) {
            return None;
        }
        let port = match self.int_at(PROXY_PORT) {
            Some(p) => p,
            None => return None,
        };
        let username = match self.str_at(PROXY_USERNAME) {
            Some(s) => s,
            None => return None,
        };
        let password = match self.str_at(PROXY_PASSWORD) {
            Some(s) => s,
            None => return None,
        };
        let resolve = match self.bool_at(PROXY_HOSTNAMES) {
            Some(b) => b,
            None => return None,
        };
        let host = match self.str_at(PROXY_HOSTNAME) {
            Some(s) => s,
            None => return None,
        };
        let peer = match self.bool_at(PROXY_PEER_CONNECTIONS) {
            Some(b) => b,
            None => return None,
        };
        let tracker = match self.bool_at(PROXY_TRACKER_CONNECTIONS) {
            Some(b) => b,
            None => return None,
        };
        if !(1 <= port && port <= 65535) {
            return None;
        }
        let port = match NonZeroU16::new(port as u16) {
            Some(p) => p,
            None => return None,
        };
        let protocol = if code == 1 {
            ProxyProtocol::Socks4 { username }
        } else if code == 2 || code == 3 {
            let udp = match self.bool_at(SOCKS5_UDP_SEND_LOCAL_EP) {
                Some(b) => b,
                None => return None,
            };
            let auth = if code == 3 {
                Some(Credentials { username, password })
            } else {
                None
            };
            ProxyProtocol::Socks5 { auth, resolve_hostnames: resolve, udp_send_local_endpoint: udp }
        } else {
            let send = match self.bool_at(PROXY_SEND_HOST_IN_CONNECT) {
                Some(b) => b,
                None => return None,
            };
            let auth = if code == 5 {
                Some(Credentials { username, password })
            } else {
                None
            };
            ProxyProtocol::Http { auth, resolve_hostnames: resolve, send_hostname_in_connect: send }
        };
        Some(
            Some(
                ProxyConfig {
                    protocol,
                    host,
                    port,
                    peer_connections: peer,
                    tracker_connections: tracker,
                },
            ),
        )
    }
}

} // verus!
