//! Proxies, I2P, encryption, web seeds, alerts and the resolver.

use vstd::prelude::*;

use crate::settings::enums::{EncLevel, EncPolicy, ProxyType, enc_level_code, enc_level_of_code, enc_policy_code, enc_policy_of_code, proxy_type_code, proxy_type_of_code};
use crate::settings::error::{in_range, range_message, SettingsError, SettingsErrorView};
use crate::settings::table::{ALERT_MASK, ALERT_QUEUE_SIZE, ALLOWED_ENC_LEVEL, ALLOW_I2P_MIXED, ANONYMOUS_MODE, BAN_WEB_SEEDS, I2P_HOSTNAME, I2P_INBOUND_LENGTH, I2P_INBOUND_LENGTH_VARIANCE, I2P_INBOUND_QUANTITY, I2P_OUTBOUND_LENGTH, I2P_OUTBOUND_LENGTH_VARIANCE, I2P_OUTBOUND_QUANTITY, I2P_PORT, IN_ENC_POLICY, MAX_WEB_SEED_CONNECTIONS, OUT_ENC_POLICY, PREFER_RC4, PROXY_HOSTNAME, PROXY_HOSTNAMES, PROXY_PASSWORD, PROXY_PEER_CONNECTIONS, PROXY_PORT, PROXY_SEND_HOST_IN_CONNECT, PROXY_TRACKER_CONNECTIONS, PROXY_TYPE, PROXY_USERNAME, REPORT_WEB_SEED_DOWNLOADS, RESOLVER_CACHE_TIMEOUT, SOCKS5_UDP_SEND_LOCAL_EP, TICK_INTERVAL, URLSEED_MAX_REQUEST_BYTES, URLSEED_TIMEOUT, URLSEED_WAIT_RETRY, WEB_SEED_NAME_LOOKUP_RETRY};
use crate::settings::{opt_str_view, SettingsPack};

verus! {

impl SettingsPack {
    /// A configured proxy overrides `listen_interfaces` with a single
    /// interface just to reach the proxy: no incoming TCP, no port
    /// mapping, no local service discovery, and incompatible with SSL
    /// torrents.
    pub(crate) fn proxy_hostname(&mut self, value: &str) -> (r: &mut Self)
        requires
            old(self).wf(),
        ensures
            r.wf(),
            r@ == old(self)@.with_str(PROXY_HOSTNAME, value@),
            *final(self) == *final(r),
    {
        self.put_str(PROXY_HOSTNAME, value);
        self
    }

    /// Reads `proxy_hostname` if set in this pack.
    pub fn get_proxy_hostname(&self) -> (r: Option<String>)
        requires
            self.wf(),
        ensures
            opt_str_view(r) == self@.str_at(PROXY_HOSTNAME),
    {
        self.str_at(PROXY_HOSTNAME)
    }

    /// Credentials (if any) for connecting to the proxy.
    pub(crate) fn proxy_username(&mut self, value: &str) -> (r: &mut Self)
        requires
            old(self).wf(),
        ensures
            r.wf(),
            r@ == old(self)@.with_str(PROXY_USERNAME, value@),
            *final(self) == *final(r),
    {
        self.put_str(PROXY_USERNAME, value);
        self
    }

    /// Reads `proxy_username` if set in this pack.
    pub fn get_proxy_username(&self) -> (r: Option<String>)
        requires
            self.wf(),
        ensures
            opt_str_view(r) == self@.str_at(PROXY_USERNAME),
    {
        self.str_at(PROXY_USERNAME)
    }

    pub(crate) fn proxy_password(&mut self, value: &str) -> (r: &mut Self)
        requires
            old(self).wf(),
        ensures
            r.wf(),
            r@ == old(self)@.with_str(PROXY_PASSWORD, value@),
            *final(self) == *final(r),
    {
        self.put_str(PROXY_PASSWORD, value);
        self
    }

    /// Reads `proxy_password` if set in this pack.
    pub fn get_proxy_password(&self) -> (r: Option<String>)
        requires
            self.wf(),
        ensures
            opt_str_view(r) == self@.str_at(PROXY_PASSWORD),
    {
        self.str_at(PROXY_PASSWORD)
    }

    /// Hostname of the i2p SAM bridge (port in `i2p_port`). Unset
    /// means i2p torrents are unsupported. Independent of the proxy
    /// settings.
    pub(crate) fn i2p_hostname(&mut self, value: &str) -> (r: &mut Self)
        requires
            old(self).wf(),
        ensures
            r.wf(),
            r@ == old(self)@.with_str(I2P_HOSTNAME, value@),
            *final(self) == *final(r),
    {
        self.put_str(I2P_HOSTNAME, value);
        self
    }

    /// Reads `i2p_hostname` if set in this pack.
    pub fn get_i2p_hostname(&self) -> (r: Option<String>)
        requires
            self.wf(),
        ensures
            opt_str_view(r) == self@.str_at(I2P_HOSTNAME),
    {
        self.str_at(I2P_HOSTNAME)
    }

    /// Lets i2p torrents also get peers from non-tracker sources and
    /// connect to regular IPs, forgoing i2p's anonymization.
    pub(crate) fn allow_i2p_mixed(&mut self, value: bool) -> (r: &mut Self)
        requires
            old(self).wf(),
        ensures
            r.wf(),
            r@ == old(self)@.with_bool(ALLOW_I2P_MIXED, value),
            *final(self) == *final(r),
    {
        self.put_bool(ALLOW_I2P_MIXED, value);
        self
    }

    /// Reads `allow_i2p_mixed` if set in this pack.
    pub fn get_allow_i2p_mixed(&self) -> (r: Option<bool>)
        requires
            self.wf(),
        ensures
            r == self@.bool_at(ALLOW_I2P_MIXED),
    {
        self.bool_at(ALLOW_I2P_MIXED)
    }

    /// Partially hides the client's identity: generic tracker
    /// user-agent (except private torrents), local IPs and
    /// `announce_ip` not sent to trackers, no client version in the
    /// extension handshake.
    pub fn anonymous_mode(&mut self, value: bool) -> (r: &mut Self)
        requires
            old(self).wf(),
        ensures
            r.wf(),
            r@ == old(self)@.with_bool(ANONYMOUS_MODE, value),
            *final(self) == *final(r),
    {
        self.put_bool(ANONYMOUS_MODE, value);
        self
    }

    /// Reads `anonymous_mode` if set in this pack.
    pub fn get_anonymous_mode(&self) -> (r: Option<bool>)
        requires
            self.wf(),
        ensures
            r == self@.bool_at(ANONYMOUS_MODE),
    {
        self.bool_at(ANONYMOUS_MODE)
    }

    /// Whether web seed downloads are reported to the tracker and
    /// counted in stats and download-rate reporting.
    pub fn report_web_seed_downloads(&mut self, value: bool) -> (r: &mut Self)
        requires
            old(self).wf(),
        ensures
            r.wf(),
            r@ == old(self)@.with_bool(REPORT_WEB_SEED_DOWNLOADS, value),
            *final(self) == *final(r),
    {
        self.put_bool(REPORT_WEB_SEED_DOWNLOADS, value);
        self
    }

    /// Reads `report_web_seed_downloads` if set in this pack.
    pub fn get_report_web_seed_downloads(&self) -> (r: Option<bool>)
        requires
            self.wf(),
        ensures
            r == self@.bool_at(REPORT_WEB_SEED_DOWNLOADS),
    {
        self.bool_at(REPORT_WEB_SEED_DOWNLOADS)
    }

    /// Bans web seeds that send bad data.
    pub fn ban_web_seeds(&mut self, value: bool) -> (r: &mut Self)
        requires
            old(self).wf(),
        ensures
            r.wf(),
            r@ == old(self)@.with_bool(BAN_WEB_SEEDS, value),
            *final(self) == *final(r),
    {
        self.put_bool(BAN_WEB_SEEDS, value);
        self
    }

    /// Reads `ban_web_seeds` if set in this pack.
    pub fn get_ban_web_seeds(&self) -> (r: Option<bool>)
        requires
            self.wf(),
        ensures
            r == self@.bool_at(BAN_WEB_SEEDS),
    {
        self.bool_at(BAN_WEB_SEEDS)
    }

    /// When both encryption methods are allowed and offered, prefer
    /// RC4 over plain text.
    pub fn prefer_rc4(&mut self, value: bool) -> (r: &mut Self)
        requires
            old(self).wf(),
        ensures
            r.wf(),
            r@ == old(self)@.with_bool(PREFER_RC4, value),
            *final(self) == *final(r),
    {
        self.put_bool(PREFER_RC4, value);
        self
    }

    /// Reads `prefer_rc4` if set in this pack.
    pub fn get_prefer_rc4(&self) -> (r: Option<bool>)
        requires
            self.wf(),
        ensures
            r == self@.bool_at(PREFER_RC4),
    {
        self.bool_at(PREFER_RC4)
    }

    /// Resolves hostnames through the configured proxy (SOCKS5 and
    /// HTTP only).
    pub(crate) fn proxy_hostnames(&mut self, value: bool) -> (r: &mut Self)
        requires
            old(self).wf(),
        ensures
            r.wf(),
            r@ == old(self)@.with_bool(PROXY_HOSTNAMES, value),
            *final(self) == *final(r),
    {
        self.put_bool(PROXY_HOSTNAMES, value);
        self
    }

    /// Reads `proxy_hostnames` if set in this pack.
    pub fn get_proxy_hostnames(&self) -> (r: Option<bool>)
        requires
            self.wf(),
        ensures
            r == self@.bool_at(PROXY_HOSTNAMES),
    {
        self.bool_at(PROXY_HOSTNAMES)
    }

    /// Routes peer connections — anything carrying torrent payload,
    /// including web seeds — through the configured proxy. Tracker and
    /// DHT traffic do not count as peer connections.
    pub(crate) fn proxy_peer_connections(&mut self, value: bool) -> (r: &mut Self)
        requires
            old(self).wf(),
        ensures
            r.wf(),
            r@ == old(self)@.with_bool(PROXY_PEER_CONNECTIONS, value),
            *final(self) == *final(r),
    {
        self.put_bool(PROXY_PEER_CONNECTIONS, value);
        self
    }

    /// Reads `proxy_peer_connections` if set in this pack.
    pub fn get_proxy_peer_connections(&self) -> (r: Option<bool>)
        requires
            self.wf(),
        ensures
            r == self@.bool_at(PROXY_PEER_CONNECTIONS),
    {
        self.bool_at(PROXY_PEER_CONNECTIONS)
    }

    /// Routes tracker connections through the configured proxy.
    pub(crate) fn proxy_tracker_connections(&mut self, value: bool) -> (r: &mut Self)
        requires
            old(self).wf(),
        ensures
            r.wf(),
            r@ == old(self)@.with_bool(PROXY_TRACKER_CONNECTIONS, value),
            *final(self) == *final(r),
    {
        self.put_bool(PROXY_TRACKER_CONNECTIONS, value);
        self
    }

    /// Reads `proxy_tracker_connections` if set in this pack.
    pub fn get_proxy_tracker_connections(&self) -> (r: Option<bool>)
        requires
            self.wf(),
        ensures
            r == self@.bool_at(PROXY_TRACKER_CONNECTIONS),
    {
        self.bool_at(PROXY_TRACKER_CONNECTIONS)
    }

    /// Includes the local UDP socket's IP and port in the SOCKS5 UDP
    /// ASSOCIATE command, letting the proxy forward incoming packets
    /// before any outgoing ones; breaks when a NAT sits between client
    /// and proxy.
    pub(crate) fn socks5_udp_send_local_ep(&mut self, value: bool) -> (r: &mut Self)
        requires
            old(self).wf(),
        ensures
            r.wf(),
            r@ == old(self)@.with_bool(SOCKS5_UDP_SEND_LOCAL_EP, value),
            *final(self) == *final(r),
    {
        self.put_bool(SOCKS5_UDP_SEND_LOCAL_EP, value);
        self
    }

    /// Reads `socks5_udp_send_local_ep` if set in this pack.
    pub fn get_socks5_udp_send_local_ep(&self) -> (r: Option<bool>)
        requires
            self.wf(),
        ensures
            r == self@.bool_at(SOCKS5_UDP_SEND_LOCAL_EP),
    {
        self.bool_at(SOCKS5_UDP_SEND_LOCAL_EP)
    }

    /// Sends the hostname instead of the resolved IP in HTTP CONNECT
    /// requests, e.g. for man-in-the-middle proxies.
    pub(crate) fn proxy_send_host_in_connect(&mut self, value: bool) -> (r: &mut Self)
        requires
            old(self).wf(),
        ensures
            r.wf(),
            r@ == old(self)@.with_bool(PROXY_SEND_HOST_IN_CONNECT, value),
            *final(self) == *final(r),
    {
        self.put_bool(PROXY_SEND_HOST_IN_CONNECT, value);
        self
    }

    /// Reads `proxy_send_host_in_connect` if set in this pack.
    pub fn get_proxy_send_host_in_connect(&self) -> (r: Option<bool>)
        requires
            self.wf(),
        ensures
            r == self@.bool_at(PROXY_SEND_HOST_IN_CONNECT),
    {
        self.bool_at(PROXY_SEND_HOST_IN_CONNECT)
    }

    /// The `peer_timeout` used for url seeds; usually lower, since web
    /// servers are expected to be more reliable.
    pub fn urlseed_timeout(&mut self, value: i32) -> (r: &mut Self)
        requires
            old(self).wf(),
        ensures
            r.wf(),
            r@ == old(self)@.with_int(URLSEED_TIMEOUT, value),
            *final(self) == *final(r),
    {
        self.put_int(URLSEED_TIMEOUT, value);
        self
    }

    /// Reads `urlseed_timeout` if set in this pack.
    pub fn get_urlseed_timeout(&self) -> (r: Option<i32>)
        requires
            self.wf(),
        ensures
            r == self@.int_at(URLSEED_TIMEOUT),
    {
        self.int_at(URLSEED_TIMEOUT)
    }

    /// Seconds before retrying a url seed that sent no valid
    /// `retry-after` header.
    pub fn urlseed_wait_retry(&mut self, value: i32) -> (r: &mut Self)
        requires
            old(self).wf(),
        ensures
            r.wf(),
            r@ == old(self)@.with_int(URLSEED_WAIT_RETRY, value),
            *final(self) == *final(r),
    {
        self.put_int(URLSEED_WAIT_RETRY, value);
        self
    }

    /// Reads `urlseed_wait_retry` if set in this pack.
    pub fn get_urlseed_wait_retry(&self) -> (r: Option<i32>)
        requires
            self.wf(),
        ensures
            r == self@.int_at(URLSEED_WAIT_RETRY),
    {
        self.int_at(URLSEED_WAIT_RETRY)
    }

    /// Milliseconds between internal session ticks — the resolution of
    /// bandwidth quota distribution to peers. Lower (around 100) is
    /// finer-grained; higher saves CPU.
    ///
    /// Accepts `1..=1000`. (libtorrent's negative test-only fast path
    /// races into an integer division by zero, so it is not exposed.)
    pub fn tick_interval(&mut self, value: i32) -> (r: Result<&mut Self, SettingsError>)
        requires
            old(self).wf(),
        ensures
            1 <= value <= 1000 ==> (r matches Ok(p) && p.wf() && p@ == old(self)@.with_int(TICK_INTERVAL, value)
                && *final(self) == *final(p)),
            !(1 <= value <= 1000) ==> (r matches Err(e) && e@ == (SettingsErrorView {
                setting: "tick_interval"@,
                message: range_message(value, 1, 1000),
            }) && *final(self) == *old(self)),
    {
        match in_range("tick_interval", value, 1, 1000) {
            Ok(()) => {},
            Err(e) => return Err(e),
        }
        self.put_int(TICK_INTERVAL, value);
        Ok(self)
    }

    /// Reads `tick_interval` if set in this pack.
    pub fn get_tick_interval(&self) -> (r: Option<i32>)
        requires
            self.wf(),
        ensures
            r == self@.int_at(TICK_INTERVAL),
    {
        self.int_at(TICK_INTERVAL)
    }

    /// Max alerts queued internally; once full, further alerts are
    /// dropped until the client drains the queue.
    ///
    /// Accepts `1..`. At 0 (or below) libtorrent's queue check
    /// `size / (1 + priority) >= limit` holds for every alert, so all of
    /// them are dropped silently — including the alerts-dropped
    /// notification itself.
    pub fn alert_queue_size(&mut self, value: i32) -> (r: Result<&mut Self, SettingsError>)
        requires
            old(self).wf(),
        ensures
            1 <= value <= i32::MAX ==> (r matches Ok(p) && p.wf() && p@ == old(self)@.with_int(ALERT_QUEUE_SIZE, value)
                && *final(self) == *final(p)),
            !(1 <= value <= i32::MAX) ==> (r matches Err(e) && e@ == (SettingsErrorView {
                setting: "alert_queue_size"@,
                message: range_message(value, 1, i32::MAX),
            }) && *final(self) == *old(self)),
    {
        match in_range("alert_queue_size", value, 1, i32::MAX) {
            Ok(()) => {},
            Err(e) => return Err(e),
        }
        self.put_int(ALERT_QUEUE_SIZE, value);
        Ok(self)
    }

    /// Reads `alert_queue_size` if set in this pack.
    pub fn get_alert_queue_size(&self) -> (r: Option<i32>)
        requires
            self.wf(),
        ensures
            r == self@.int_at(ALERT_QUEUE_SIZE),
    {
        self.int_at(ALERT_QUEUE_SIZE)
    }

    /// Bitmask of alert_category_t flags selecting which alerts to
    /// receive.
    pub fn alert_mask(&mut self, value: i32) -> (r: &mut Self)
        requires
            old(self).wf(),
        ensures
            r.wf(),
            r@ == old(self)@.with_int(ALERT_MASK, value),
            *final(self) == *final(r),
    {
        self.put_int(ALERT_MASK, value);
        self
    }

    /// Reads `alert_mask` if set in this pack.
    pub fn get_alert_mask(&self) -> (r: Option<i32>)
        requires
            self.wf(),
        ensures
            r == self@.int_at(ALERT_MASK),
    {
        self.int_at(ALERT_MASK)
    }

    /// Protocol-encryption policy for outgoing and incoming
    /// connections respectively (see enc_policy). Encryption costs
    /// extra CPU, per-peer buffer copies, and handshake round-trips.
    pub fn out_enc_policy(&mut self, value: EncPolicy) -> (r: &mut Self)
        requires
            old(self).wf(),
        ensures
            r.wf(),
            r@ == old(self)@.with_int(OUT_ENC_POLICY, enc_policy_code(value)),
            *final(self) == *final(r),
    {
        self.put_int(OUT_ENC_POLICY, value.to_raw());
        self
    }

    /// `None` if unset or set to a value these bindings don't know.
    pub fn get_out_enc_policy(&self) -> (r: Option<EncPolicy>)
        requires
            self.wf(),
        ensures
            r == (match self@.int_at(OUT_ENC_POLICY) {
                Some(raw) => enc_policy_of_code(raw),
                None => None,
            }),
    {
        match self.int_at(OUT_ENC_POLICY) {
            Some(raw) => EncPolicy::from_raw(raw),
            None => None,
        }
    }

    pub fn in_enc_policy(&mut self, value: EncPolicy) -> (r: &mut Self)
        requires
            old(self).wf(),
        ensures
            r.wf(),
            r@ == old(self)@.with_int(IN_ENC_POLICY, enc_policy_code(value)),
            *final(self) == *final(r),
    {
        self.put_int(IN_ENC_POLICY, value.to_raw());
        self
    }

    /// `None` if unset or set to a value these bindings don't know.
    pub fn get_in_enc_policy(&self) -> (r: Option<EncPolicy>)
        requires
            self.wf(),
        ensures
            r == (match self@.int_at(IN_ENC_POLICY) {
                Some(raw) => enc_policy_of_code(raw),
                None => None,
            }),
    {
        match self.int_at(IN_ENC_POLICY) {
            Some(raw) => EncPolicy::from_raw(raw),
            None => None,
        }
    }

    /// Encryption level offered to and selected from peers (see
    /// enc_level).
    pub fn allowed_enc_level(&mut self, value: EncLevel) -> (r: &mut Self)
        requires
            old(self).wf(),
        ensures
            r.wf(),
            r@ == old(self)@.with_int(ALLOWED_ENC_LEVEL, enc_level_code(value)),
            *final(self) == *final(r),
    {
        self.put_int(ALLOWED_ENC_LEVEL, value.to_raw());
        self
    }

    /// `None` if unset or set to a value these bindings don't know.
    pub fn get_allowed_enc_level(&self) -> (r: Option<EncLevel>)
        requires
            self.wf(),
        ensures
            r == (match self@.int_at(ALLOWED_ENC_LEVEL) {
                Some(raw) => enc_level_of_code(raw),
                None => None,
            }),
    {
        match self.int_at(ALLOWED_ENC_LEVEL) {
            Some(raw) => EncLevel::from_raw(raw),
            None => None,
        }
    }

    pub fn proxy_type(&mut self, value: ProxyType) -> (r: &mut Self)
        requires
            old(self).wf(),
        ensures
            r.wf(),
            r@ == old(self)@.with_int(PROXY_TYPE, proxy_type_code(value)),
            *final(self) == *final(r),
    {
        self.put_int(PROXY_TYPE, value.to_raw());
        self
    }

    /// `None` if unset or set to a value these bindings don't know.
    pub fn get_proxy_type(&self) -> (r: Option<ProxyType>)
        requires
            self.wf(),
        ensures
            r == (match self@.int_at(PROXY_TYPE) {
                Some(raw) => proxy_type_of_code(raw),
                None => None,
            }),
    {
        match self.int_at(PROXY_TYPE) {
            Some(raw) => ProxyType::from_raw(raw),
            None => None,
        }
    }

    pub(crate) fn proxy_port(&mut self, value: i32) -> (r: &mut Self)
        requires
            old(self).wf(),
        ensures
            r.wf(),
            r@ == old(self)@.with_int(PROXY_PORT, value),
            *final(self) == *final(r),
    {
        self.put_int(PROXY_PORT, value);
        self
    }

    /// Reads `proxy_port` if set in this pack.
    pub fn get_proxy_port(&self) -> (r: Option<i32>)
        requires
            self.wf(),
        ensures
            r == self@.int_at(PROXY_PORT),
    {
        self.int_at(PROXY_PORT)
    }

    /// Port of the i2p SAM bridge; see `i2p_hostname`.
    pub(crate) fn i2p_port(&mut self, value: i32) -> (r: &mut Self)
        requires
            old(self).wf(),
        ensures
            r.wf(),
            r@ == old(self)@.with_int(I2P_PORT, value),
            *final(self) == *final(r),
    {
        self.put_int(I2P_PORT, value);
        self
    }

    /// Reads `i2p_port` if set in this pack.
    pub fn get_i2p_port(&self) -> (r: Option<i32>)
        requires
            self.wf(),
        ensures
            r == self@.int_at(I2P_PORT),
    {
        self.int_at(I2P_PORT)
    }

    /// Largest sequential web seed request in bytes (values below the
    /// piece size are ignored). Higher values mean fewer, larger HTTP
    /// requests but less request parallelism.
    pub fn urlseed_max_request_bytes(&mut self, value: i32) -> (r: &mut Self)
        requires
            old(self).wf(),
        ensures
            r.wf(),
            r@ == old(self)@.with_int(URLSEED_MAX_REQUEST_BYTES, value),
            *final(self) == *final(r),
    {
        self.put_int(URLSEED_MAX_REQUEST_BYTES, value);
        self
    }

    /// Reads `urlseed_max_request_bytes` if set in this pack.
    pub fn get_urlseed_max_request_bytes(&self) -> (r: Option<i32>)
        requires
            self.wf(),
        ensures
            r == self@.int_at(URLSEED_MAX_REQUEST_BYTES),
    {
        self.int_at(URLSEED_MAX_REQUEST_BYTES)
    }

    /// Seconds to wait before retrying a web seed name lookup.
    pub fn web_seed_name_lookup_retry(&mut self, value: i32) -> (r: &mut Self)
        requires
            old(self).wf(),
        ensures
            r.wf(),
            r@ == old(self)@.with_int(WEB_SEED_NAME_LOOKUP_RETRY, value),
            *final(self) == *final(r),
    {
        self.put_int(WEB_SEED_NAME_LOOKUP_RETRY, value);
        self
    }

    /// Reads `web_seed_name_lookup_retry` if set in this pack.
    pub fn get_web_seed_name_lookup_retry(&self) -> (r: Option<i32>)
        requires
            self.wf(),
        ensures
            r == self@.int_at(WEB_SEED_NAME_LOOKUP_RETRY),
    {
        self.int_at(WEB_SEED_NAME_LOOKUP_RETRY)
    }

    /// Max web seeds connected per torrent at any given time.
    pub fn max_web_seed_connections(&mut self, value: i32) -> (r: &mut Self)
        requires
            old(self).wf(),
        ensures
            r.wf(),
            r@ == old(self)@.with_int(MAX_WEB_SEED_CONNECTIONS, value),
            *final(self) == *final(r),
    {
        self.put_int(MAX_WEB_SEED_CONNECTIONS, value);
        self
    }

    /// Reads `max_web_seed_connections` if set in this pack.
    pub fn get_max_web_seed_connections(&self) -> (r: Option<i32>)
        requires
            self.wf(),
        ensures
            r == self@.int_at(MAX_WEB_SEED_CONNECTIONS),
    {
        self.int_at(MAX_WEB_SEED_CONNECTIONS)
    }

    /// Seconds a resolved host name stays cached (negative means
    /// zero); failed lookups are cached for 1/8th of this.
    pub fn resolver_cache_timeout(&mut self, value: i32) -> (r: &mut Self)
        requires
            old(self).wf(),
        ensures
            r.wf(),
            r@ == old(self)@.with_int(RESOLVER_CACHE_TIMEOUT, value),
            *final(self) == *final(r),
    {
        self.put_int(RESOLVER_CACHE_TIMEOUT, value);
        self
    }

    /// Reads `resolver_cache_timeout` if set in this pack.
    pub fn get_resolver_cache_timeout(&self) -> (r: Option<i32>)
        requires
            self.wf(),
        ensures
            r == self@.int_at(RESOLVER_CACHE_TIMEOUT),
    {
        self.int_at(RESOLVER_CACHE_TIMEOUT)
    }

    /// SAM session tunnel parameters: quantity of inbound/outbound
    /// tunnels (1..16) and hops per tunnel (0..7). Take effect on the
    /// next SAM reconnect, not immediately.
    pub(crate) fn i2p_inbound_quantity(&mut self, value: i32) -> (r: &mut Self)
        requires
            old(self).wf(),
        ensures
            r.wf(),
            r@ == old(self)@.with_int(I2P_INBOUND_QUANTITY, value),
            *final(self) == *final(r),
    {
        self.put_int(I2P_INBOUND_QUANTITY, value);
        self
    }

    /// Reads `i2p_inbound_quantity` if set in this pack.
    pub fn get_i2p_inbound_quantity(&self) -> (r: Option<i32>)
        requires
            self.wf(),
        ensures
            r == self@.int_at(I2P_INBOUND_QUANTITY),
    {
        self.int_at(I2P_INBOUND_QUANTITY)
    }

    pub(crate) fn i2p_outbound_quantity(&mut self, value: i32) -> (r: &mut Self)
        requires
            old(self).wf(),
        ensures
            r.wf(),
            r@ == old(self)@.with_int(I2P_OUTBOUND_QUANTITY, value),
            *final(self) == *final(r),
    {
        self.put_int(I2P_OUTBOUND_QUANTITY, value);
        self
    }

    /// Reads `i2p_outbound_quantity` if set in this pack.
    pub fn get_i2p_outbound_quantity(&self) -> (r: Option<i32>)
        requires
            self.wf(),
        ensures
            r == self@.int_at(I2P_OUTBOUND_QUANTITY),
    {
        self.int_at(I2P_OUTBOUND_QUANTITY)
    }

    pub(crate) fn i2p_inbound_length(&mut self, value: i32) -> (r: &mut Self)
        requires
            old(self).wf(),
        ensures
            r.wf(),
            r@ == old(self)@.with_int(I2P_INBOUND_LENGTH, value),
            *final(self) == *final(r),
    {
        self.put_int(I2P_INBOUND_LENGTH, value);
        self
    }

    /// Reads `i2p_inbound_length` if set in this pack.
    pub fn get_i2p_inbound_length(&self) -> (r: Option<i32>)
        requires
            self.wf(),
        ensures
            r == self@.int_at(I2P_INBOUND_LENGTH),
    {
        self.int_at(I2P_INBOUND_LENGTH)
    }

    pub(crate) fn i2p_outbound_length(&mut self, value: i32) -> (r: &mut Self)
        requires
            old(self).wf(),
        ensures
            r.wf(),
            r@ == old(self)@.with_int(I2P_OUTBOUND_LENGTH, value),
            *final(self) == *final(r),
    {
        self.put_int(I2P_OUTBOUND_LENGTH, value);
        self
    }

    /// Reads `i2p_outbound_length` if set in this pack.
    pub fn get_i2p_outbound_length(&self) -> (r: Option<i32>)
        requires
            self.wf(),
        ensures
            r == self@.int_at(I2P_OUTBOUND_LENGTH),
    {
        self.int_at(I2P_OUTBOUND_LENGTH)
    }

    /// Variance for I2P inbound/outbound tunnel lengths (-7..7).
    pub(crate) fn i2p_inbound_length_variance(&mut self, value: i32) -> (r: &mut Self)
        requires
            old(self).wf(),
        ensures
            r.wf(),
            r@ == old(self)@.with_int(I2P_INBOUND_LENGTH_VARIANCE, value),
            *final(self) == *final(r),
    {
        self.put_int(I2P_INBOUND_LENGTH_VARIANCE, value);
        self
    }

    /// Reads `i2p_inbound_length_variance` if set in this pack.
    pub fn get_i2p_inbound_length_variance(&self) -> (r: Option<i32>)
        requires
            self.wf(),
        ensures
            r == self@.int_at(I2P_INBOUND_LENGTH_VARIANCE),
    {
        self.int_at(I2P_INBOUND_LENGTH_VARIANCE)
    }

    pub(crate) fn i2p_outbound_length_variance(&mut self, value: i32) -> (r: &mut Self)
        requires
            old(self).wf(),
        ensures
            r.wf(),
            r@ == old(self)@.with_int(I2P_OUTBOUND_LENGTH_VARIANCE, value),
            *final(self) == *final(r),
    {
        self.put_int(I2P_OUTBOUND_LENGTH_VARIANCE, value);
        self
    }

    /// Reads `i2p_outbound_length_variance` if set in this pack.
    pub fn get_i2p_outbound_length_variance(&self) -> (r: Option<i32>)
        requires
            self.wf(),
        ensures
            r == self@.int_at(I2P_OUTBOUND_LENGTH_VARIANCE),
    {
        self.int_at(I2P_OUTBOUND_LENGTH_VARIANCE)
    }
}

} // verus!
