//! Peer connections, transport enablement, listen/outgoing
//! interfaces, ports and the peer list.

use vstd::prelude::*;

use crate::settings::error::{in_range, range_message, SettingsError, SettingsErrorView};
use crate::settings::table::{ALLOW_MULTIPLE_CONNECTIONS_PER_IP, ALLOW_MULTIPLE_CONNECTIONS_PER_PID, CLOSE_REDUNDANT_CONNECTIONS, CONNECTIONS_LIMIT, CONNECTIONS_SLACK, CONNECTION_SPEED, CONNECT_SEED_EVERY_N_DOWNLOAD, ENABLE_INCOMING_TCP, ENABLE_INCOMING_UTP, ENABLE_OUTGOING_TCP, ENABLE_OUTGOING_UTP, HANDSHAKE_TIMEOUT, INACTIVITY_TIMEOUT, LISTEN_INTERFACES, LISTEN_QUEUE_SIZE, LISTEN_SYSTEM_PORT_FALLBACK, MAX_FAILCOUNT, MAX_PAUSED_PEERLIST_SIZE, MAX_PEERLIST_SIZE, MAX_PEER_RECV_BUFFER_SIZE, MAX_PEX_PEERS, MAX_RETRY_PORT_BIND, MIN_RECONNECT_TIME, NO_CONNECT_PRIVILEGED_PORTS, NUM_OUTGOING_PORTS, OUTGOING_INTERFACES, OUTGOING_PORT, PEER_CONNECT_TIMEOUT, PEER_DSCP, PEER_FINGERPRINT, PEER_TIMEOUT, PEER_TURNOVER, PEER_TURNOVER_CUTOFF, PEER_TURNOVER_INTERVAL, RECV_SOCKET_BUFFER_SIZE, SEEDING_OUTGOING_CONNECTIONS, SEND_SOCKET_BUFFER_SIZE, SMOOTH_CONNECTS, TORRENT_CONNECT_BOOST, USE_PAROLE_MODE};
use crate::settings::{opt_str_view, SettingsPack};

verus! {

impl SettingsPack {
    /// Reads `outgoing_interfaces` if set in this pack.
    pub fn get_outgoing_interfaces(&self) -> (r: Option<String>)
        requires
            self.wf(),
        ensures
            opt_str_view(r) == self@.str_at(OUTGOING_INTERFACES),
    {
        self.str_at(OUTGOING_INTERFACES)
    }

    /// Reads `listen_interfaces` if set in this pack, as the raw string.
    pub fn get_listen_interfaces(&self) -> (r: Option<String>)
        requires
            self.wf(),
        ensures
            opt_str_view(r) == self@.str_at(LISTEN_INTERFACES),
    {
        self.str_at(LISTEN_INTERFACES)
    }

    /// Reads `peer_fingerprint` if set in this pack.
    pub fn get_peer_fingerprint(&self) -> (r: Option<String>)
        requires
            self.wf(),
        ensures
            opt_str_view(r) == self@.str_at(PEER_FINGERPRINT),
    {
        self.str_at(PEER_FINGERPRINT)
    }

    /// Allows multiple peer connections from the same IP address.
    /// Rejecting them (the default) curbs abusive peers; allowing them
    /// makes same-peer detection less reliable in edge cases.
    pub fn allow_multiple_connections_per_ip(&mut self, value: bool) -> (r: &mut Self)
        requires
            old(self).wf(),
        ensures
            r.wf(),
            r@ == old(self)@.with_bool(ALLOW_MULTIPLE_CONNECTIONS_PER_IP, value),
            *final(self) == *final(r),
    {
        self.put_bool(ALLOW_MULTIPLE_CONNECTIONS_PER_IP, value);
        self
    }

    /// Reads `allow_multiple_connections_per_ip` if set in this pack.
    pub fn get_allow_multiple_connections_per_ip(&self) -> (r: Option<bool>)
        requires
            self.wf(),
        ensures
            r == self@.bool_at(ALLOW_MULTIPLE_CONNECTIONS_PER_IP),
    {
        self.bool_at(ALLOW_MULTIPLE_CONNECTIONS_PER_IP)
    }

    /// Parole mode: a peer that participated in a piece failing its
    /// hash check may only download whole pieces; failing one bans it,
    /// passing one releases it from parole.
    pub fn use_parole_mode(&mut self, value: bool) -> (r: &mut Self)
        requires
            old(self).wf(),
        ensures
            r.wf(),
            r@ == old(self)@.with_bool(USE_PAROLE_MODE, value),
            *final(self) == *final(r),
    {
        self.put_bool(USE_PAROLE_MODE, value);
        self
    }

    /// Reads `use_parole_mode` if set in this pack.
    pub fn get_use_parole_mode(&self) -> (r: Option<bool>)
        requires
            self.wf(),
        ensures
            r == self@.bool_at(USE_PAROLE_MODE),
    {
        self.bool_at(USE_PAROLE_MODE)
    }

    /// Closes peer connections that have no utility for either end,
    /// e.g. when both sides have completed their downloads.
    pub fn close_redundant_connections(&mut self, value: bool) -> (r: &mut Self)
        requires
            old(self).wf(),
        ensures
            r.wf(),
            r@ == old(self)@.with_bool(CLOSE_REDUNDANT_CONNECTIONS, value),
            *final(self) == *final(r),
    {
        self.put_bool(CLOSE_REDUNDANT_CONNECTIONS, value);
        self
    }

    /// Reads `close_redundant_connections` if set in this pack.
    pub fn get_close_redundant_connections(&self) -> (r: Option<bool>)
        requires
            self.wf(),
        ensures
            r == self@.bool_at(CLOSE_REDUNDANT_CONNECTIONS),
    {
        self.bool_at(CLOSE_REDUNDANT_CONNECTIONS)
    }

    /// Enables incoming/outgoing, TCP and uTP peer connections per
    /// direction and transport. Disabled outgoing transports are not
    /// used; disabled incoming connections are rejected. Applies only
    /// to peer connections, not trackers or other connections.
    pub fn enable_outgoing_utp(&mut self, value: bool) -> (r: &mut Self)
        requires
            old(self).wf(),
        ensures
            r.wf(),
            r@ == old(self)@.with_bool(ENABLE_OUTGOING_UTP, value),
            *final(self) == *final(r),
    {
        self.put_bool(ENABLE_OUTGOING_UTP, value);
        self
    }

    /// Reads `enable_outgoing_utp` if set in this pack.
    pub fn get_enable_outgoing_utp(&self) -> (r: Option<bool>)
        requires
            self.wf(),
        ensures
            r == self@.bool_at(ENABLE_OUTGOING_UTP),
    {
        self.bool_at(ENABLE_OUTGOING_UTP)
    }

    pub fn enable_incoming_utp(&mut self, value: bool) -> (r: &mut Self)
        requires
            old(self).wf(),
        ensures
            r.wf(),
            r@ == old(self)@.with_bool(ENABLE_INCOMING_UTP, value),
            *final(self) == *final(r),
    {
        self.put_bool(ENABLE_INCOMING_UTP, value);
        self
    }

    /// Reads `enable_incoming_utp` if set in this pack.
    pub fn get_enable_incoming_utp(&self) -> (r: Option<bool>)
        requires
            self.wf(),
        ensures
            r == self@.bool_at(ENABLE_INCOMING_UTP),
    {
        self.bool_at(ENABLE_INCOMING_UTP)
    }

    pub fn enable_outgoing_tcp(&mut self, value: bool) -> (r: &mut Self)
        requires
            old(self).wf(),
        ensures
            r.wf(),
            r@ == old(self)@.with_bool(ENABLE_OUTGOING_TCP, value),
            *final(self) == *final(r),
    {
        self.put_bool(ENABLE_OUTGOING_TCP, value);
        self
    }

    /// Reads `enable_outgoing_tcp` if set in this pack.
    pub fn get_enable_outgoing_tcp(&self) -> (r: Option<bool>)
        requires
            self.wf(),
        ensures
            r == self@.bool_at(ENABLE_OUTGOING_TCP),
    {
        self.bool_at(ENABLE_OUTGOING_TCP)
    }

    pub fn enable_incoming_tcp(&mut self, value: bool) -> (r: &mut Self)
        requires
            old(self).wf(),
        ensures
            r.wf(),
            r@ == old(self)@.with_bool(ENABLE_INCOMING_TCP, value),
            *final(self) == *final(r),
    {
        self.put_bool(ENABLE_INCOMING_TCP, value);
        self
    }

    /// Reads `enable_incoming_tcp` if set in this pack.
    pub fn get_enable_incoming_tcp(&self) -> (r: Option<bool>)
        requires
            self.wf(),
        ensures
            r == self@.bool_at(ENABLE_INCOMING_TCP),
    {
        self.bool_at(ENABLE_INCOMING_TCP)
    }

    /// Whether seeding (and finished) torrents attempt outgoing peer
    /// connections; only worth disabling when outgoing connections are
    /// costly and peers are directly reachable anyway.
    pub fn seeding_outgoing_connections(&mut self, value: bool) -> (r: &mut Self)
        requires
            old(self).wf(),
        ensures
            r.wf(),
            r@ == old(self)@.with_bool(SEEDING_OUTGOING_CONNECTIONS, value),
            *final(self) == *final(r),
    {
        self.put_bool(SEEDING_OUTGOING_CONNECTIONS, value);
        self
    }

    /// Reads `seeding_outgoing_connections` if set in this pack.
    pub fn get_seeding_outgoing_connections(&self) -> (r: Option<bool>)
        requires
            self.wf(),
        ensures
            r == self@.bool_at(SEEDING_OUTGOING_CONNECTIONS),
    {
        self.bool_at(SEEDING_OUTGOING_CONNECTIONS)
    }

    /// Refuses outgoing peer connections to ports below 1024, a
    /// precaution against being used in a DDoS attack.
    pub fn no_connect_privileged_ports(&mut self, value: bool) -> (r: &mut Self)
        requires
            old(self).wf(),
        ensures
            r.wf(),
            r@ == old(self)@.with_bool(NO_CONNECT_PRIVILEGED_PORTS, value),
            *final(self) == *final(r),
    {
        self.put_bool(NO_CONNECT_PRIVILEGED_PORTS, value);
        self
    }

    /// Reads `no_connect_privileged_ports` if set in this pack.
    pub fn get_no_connect_privileged_ports(&self) -> (r: Option<bool>)
        requires
            self.wf(),
        ensures
            r == self@.bool_at(NO_CONNECT_PRIVILEGED_PORTS),
    {
        self.bool_at(NO_CONNECT_PRIVILEGED_PORTS)
    }

    /// Spreads connection attempts more evenly over time (possibly
    /// below `connection_speed`) when close to the connection limit,
    /// instead of connecting and timing out in batches.
    pub fn smooth_connects(&mut self, value: bool) -> (r: &mut Self)
        requires
            old(self).wf(),
        ensures
            r.wf(),
            r@ == old(self)@.with_bool(SMOOTH_CONNECTS, value),
            *final(self) == *final(r),
    {
        self.put_bool(SMOOTH_CONNECTS, value);
        self
    }

    /// Reads `smooth_connects` if set in this pack.
    pub fn get_smooth_connects(&self) -> (r: Option<bool>)
        requires
            self.wf(),
        ensures
            r == self@.bool_at(SMOOTH_CONNECTS),
    {
        self.bool_at(SMOOTH_CONNECTS)
    }

    /// Falls back to an OS-chosen port (binding to port 0) when the
    /// configured listen port cannot be bound; false makes it fail.
    pub fn listen_system_port_fallback(&mut self, value: bool) -> (r: &mut Self)
        requires
            old(self).wf(),
        ensures
            r.wf(),
            r@ == old(self)@.with_bool(LISTEN_SYSTEM_PORT_FALLBACK, value),
            *final(self) == *final(r),
    {
        self.put_bool(LISTEN_SYSTEM_PORT_FALLBACK, value);
        self
    }

    /// Reads `listen_system_port_fallback` if set in this pack.
    pub fn get_listen_system_port_fallback(&self) -> (r: Option<bool>)
        requires
            self.wf(),
        ensures
            r == self@.bool_at(LISTEN_SYSTEM_PORT_FALLBACK),
    {
        self.bool_at(LISTEN_SYSTEM_PORT_FALLBACK)
    }

    /// Allows multiple connections to peers presenting the same peer
    /// ID; may help with multi-homed peers at some extra network load.
    pub fn allow_multiple_connections_per_pid(&mut self, value: bool) -> (r: &mut Self)
        requires
            old(self).wf(),
        ensures
            r.wf(),
            r@ == old(self)@.with_bool(ALLOW_MULTIPLE_CONNECTIONS_PER_PID, value),
            *final(self) == *final(r),
    {
        self.put_bool(ALLOW_MULTIPLE_CONNECTIONS_PER_PID, value);
        self
    }

    /// Reads `allow_multiple_connections_per_pid` if set in this pack.
    pub fn get_allow_multiple_connections_per_pid(&self) -> (r: Option<bool>)
        requires
            self.wf(),
        ensures
            r == self@.bool_at(ALLOW_MULTIPLE_CONNECTIONS_PER_PID),
    {
        self.bool_at(ALLOW_MULTIPLE_CONNECTIONS_PER_PID)
    }

    /// Seconds without any activity before a peer connection is closed
    /// as timed out. The protocol specifies 120; a keep-alive is sent
    /// at half this time.
    ///
    /// Accepts `1..=536_870_911`.
    pub fn peer_timeout(&mut self, value: i32) -> (r: Result<&mut Self, SettingsError>)
        requires
            old(self).wf(),
        ensures
            1 <= value <= 536_870_911 ==> (r matches Ok(p) && p.wf() && p@ == old(self)@.with_int(PEER_TIMEOUT, value)
                && *final(self) == *final(p)),
            !(1 <= value <= 536_870_911) ==> (r matches Err(e) && e@ == (SettingsErrorView {
                setting: "peer_timeout"@,
                message: range_message(value, 1, 536_870_911),
            }) && *final(self) == *old(self)),
    {
        match in_range("peer_timeout", value, 1, 536_870_911) {
            Ok(()) => {},
            Err(e) => return Err(e),
        }
        self.put_int(PEER_TIMEOUT, value);
        Ok(self)
    }

    /// Reads `peer_timeout` if set in this pack.
    pub fn get_peer_timeout(&self) -> (r: Option<i32>)
        requires
            self.wf(),
        ensures
            r == self@.int_at(PEER_TIMEOUT),
    {
        self.int_at(PEER_TIMEOUT)
    }

    /// Max failed connection attempts to a peer before giving up on
    /// it. A success resets the counter; re-learning the peer from a
    /// non-DHT source decrements it, allowing another try.
    ///
    /// Accepts `1..=16_383`.
    pub fn max_failcount(&mut self, value: i32) -> (r: Result<&mut Self, SettingsError>)
        requires
            old(self).wf(),
        ensures
            1 <= value <= 16_383 ==> (r matches Ok(p) && p.wf() && p@ == old(self)@.with_int(MAX_FAILCOUNT, value)
                && *final(self) == *final(p)),
            !(1 <= value <= 16_383) ==> (r matches Err(e) && e@ == (SettingsErrorView {
                setting: "max_failcount"@,
                message: range_message(value, 1, 16_383),
            }) && *final(self) == *old(self)),
    {
        match in_range("max_failcount", value, 1, 16_383) {
            Ok(()) => {},
            Err(e) => return Err(e),
        }
        self.put_int(MAX_FAILCOUNT, value);
        Ok(self)
    }

    /// Reads `max_failcount` if set in this pack.
    pub fn get_max_failcount(&self) -> (r: Option<i32>)
        requires
            self.wf(),
        ensures
            r == self@.int_at(MAX_FAILCOUNT),
    {
        self.int_at(MAX_FAILCOUNT)
    }

    /// Seconds to wait before reconnecting to a peer, multiplied by
    /// its failcount.
    ///
    /// Accepts `0..=65_535`.
    pub fn min_reconnect_time(&mut self, value: i32) -> (r: Result<&mut Self, SettingsError>)
        requires
            old(self).wf(),
        ensures
            0 <= value <= 65_535 ==> (r matches Ok(p) && p.wf() && p@ == old(self)@.with_int(MIN_RECONNECT_TIME, value)
                && *final(self) == *final(p)),
            !(0 <= value <= 65_535) ==> (r matches Err(e) && e@ == (SettingsErrorView {
                setting: "min_reconnect_time"@,
                message: range_message(value, 0, 65_535),
            }) && *final(self) == *old(self)),
    {
        match in_range("min_reconnect_time", value, 0, 65_535) {
            Ok(()) => {},
            Err(e) => return Err(e),
        }
        self.put_int(MIN_RECONNECT_TIME, value);
        Ok(self)
    }

    /// Reads `min_reconnect_time` if set in this pack.
    pub fn get_min_reconnect_time(&self) -> (r: Option<i32>)
        requires
            self.wf(),
        ensures
            r == self@.int_at(MIN_RECONNECT_TIME),
    {
        self.int_at(MIN_RECONNECT_TIME)
    }

    /// Seconds until an in-progress peer connection attempt is
    /// considered timed out; stale half-open connections can delay
    /// connecting other peers.
    ///
    /// Accepts `1..=2_147_482_623`.
    pub fn peer_connect_timeout(&mut self, value: i32) -> (r: Result<&mut Self, SettingsError>)
        requires
            old(self).wf(),
        ensures
            1 <= value <= 2_147_482_623 ==> (r matches Ok(p) && p.wf() && p@ == old(self)@.with_int(PEER_CONNECT_TIMEOUT, value)
                && *final(self) == *final(p)),
            !(1 <= value <= 2_147_482_623) ==> (r matches Err(e) && e@ == (SettingsErrorView {
                setting: "peer_connect_timeout"@,
                message: range_message(value, 1, 2_147_482_623),
            }) && *final(self) == *old(self)),
    {
        match in_range("peer_connect_timeout", value, 1, 2_147_482_623) {
            Ok(()) => {},
            Err(e) => return Err(e),
        }
        self.put_int(PEER_CONNECT_TIMEOUT, value);
        Ok(self)
    }

    /// Reads `peer_connect_timeout` if set in this pack.
    pub fn get_peer_connect_timeout(&self) -> (r: Option<i32>)
        requires
            self.wf(),
        ensures
            r == self@.int_at(PEER_CONNECT_TIMEOUT),
    {
        self.int_at(PEER_CONNECT_TIMEOUT)
    }

    /// Connection attempts per second. Negative means the default of
    /// 200; 0 disables outgoing connections entirely.
    pub fn connection_speed(&mut self, value: i32) -> (r: &mut Self)
        requires
            old(self).wf(),
        ensures
            r.wf(),
            r@ == old(self)@.with_int(CONNECTION_SPEED, value),
            *final(self) == *final(r),
    {
        self.put_int(CONNECTION_SPEED, value);
        self
    }

    /// Reads `connection_speed` if set in this pack.
    pub fn get_connection_speed(&self) -> (r: Option<i32>)
        requires
            self.wf(),
        ensures
            r == self@.int_at(CONNECTION_SPEED),
    {
        self.int_at(CONNECTION_SPEED)
    }

    /// Seconds a mutually uninteresting and uninterested peer is kept
    /// before being disconnected.
    pub fn inactivity_timeout(&mut self, value: i32) -> (r: &mut Self)
        requires
            old(self).wf(),
        ensures
            r.wf(),
            r@ == old(self)@.with_int(INACTIVITY_TIMEOUT, value),
            *final(self) == *final(r),
    {
        self.put_int(INACTIVITY_TIMEOUT, value);
        self
    }

    /// Reads `inactivity_timeout` if set in this pack.
    pub fn get_inactivity_timeout(&self) -> (r: Option<i32>)
        requires
            self.wf(),
        ensures
            r == self@.int_at(INACTIVITY_TIMEOUT),
    {
        self.int_at(INACTIVITY_TIMEOUT)
    }

    /// Seconds to wait for a peer's handshake response before
    /// disconnecting it.
    ///
    /// Accepts `1..=536_870_911`.
    pub fn handshake_timeout(&mut self, value: i32) -> (r: Result<&mut Self, SettingsError>)
        requires
            old(self).wf(),
        ensures
            1 <= value <= 536_870_911 ==> (r matches Ok(p) && p.wf() && p@ == old(self)@.with_int(HANDSHAKE_TIMEOUT, value)
                && *final(self) == *final(p)),
            !(1 <= value <= 536_870_911) ==> (r matches Err(e) && e@ == (SettingsErrorView {
                setting: "handshake_timeout"@,
                message: range_message(value, 1, 536_870_911),
            }) && *final(self) == *old(self)),
    {
        match in_range("handshake_timeout", value, 1, 536_870_911) {
            Ok(()) => {},
            Err(e) => return Err(e),
        }
        self.put_int(HANDSHAKE_TIMEOUT, value);
        Ok(self)
    }

    /// Reads `handshake_timeout` if set in this pack.
    pub fn get_handshake_timeout(&self) -> (r: Option<i32>)
        requires
            self.wf(),
        ensures
            r == self@.int_at(HANDSHAKE_TIMEOUT),
    {
        self.int_at(HANDSHAKE_TIMEOUT)
    }

    /// First port of the outgoing-connection bind range; see
    /// [`SettingsPack::outgoing_ports`].
    pub(crate) fn outgoing_port(&mut self, value: i32) -> (r: &mut Self)
        requires
            old(self).wf(),
        ensures
            r.wf(),
            r@ == old(self)@.with_int(OUTGOING_PORT, value),
            *final(self) == *final(r),
    {
        self.put_int(OUTGOING_PORT, value);
        self
    }

    /// Reads `outgoing_port` if set in this pack.
    pub fn get_outgoing_port(&self) -> (r: Option<i32>)
        requires
            self.wf(),
        ensures
            r == self@.int_at(OUTGOING_PORT),
    {
        self.int_at(OUTGOING_PORT)
    }

    pub(crate) fn num_outgoing_ports(&mut self, value: i32) -> (r: &mut Self)
        requires
            old(self).wf(),
        ensures
            r.wf(),
            r@ == old(self)@.with_int(NUM_OUTGOING_PORTS, value),
            *final(self) == *final(r),
    {
        self.put_int(NUM_OUTGOING_PORTS, value);
        self
    }

    /// Reads `num_outgoing_ports` if set in this pack.
    pub fn get_num_outgoing_ports(&self) -> (r: Option<i32>)
        requires
            self.wf(),
        ensures
            r == self@.int_at(NUM_OUTGOING_PORTS),
    {
        self.int_at(NUM_OUTGOING_PORTS)
    }

    /// DSCP code point (RFC 8622) in the IP header of every packet sent
    /// to peers, including web seeds. 0 means no marking; 1 is Lower
    /// Effort.
    ///
    /// Accepts `0..=63`. libtorrent stores the whole traffic-class byte
    /// (it masks with `0xfc` when applying), so the code point occupies
    /// the top six bits of the stored value.
    pub fn peer_dscp(&mut self, value: i32) -> (r: Result<&mut Self, SettingsError>)
        requires
            old(self).wf(),
        ensures
            0 <= value <= 63 ==> (r matches Ok(p) && p.wf() && p@ == old(self)@.with_int(PEER_DSCP, (value * 4) as i32)
                && *final(self) == *final(p)),
            !(0 <= value <= 63) ==> (r matches Err(e) && e@ == (SettingsErrorView {
                setting: "peer_dscp"@,
                message: range_message(value, 0, 63),
            }) && *final(self) == *old(self)),
    {
        match in_range("peer_dscp", value, 0, 63) {
            Ok(()) => {},
            Err(e) => return Err(e),
        }
        self.put_int(PEER_DSCP, value * 4);
        Ok(self)
    }

    /// Reads `peer_dscp` (the code point, `0..=63`) if set in this pack.
    pub fn get_peer_dscp(&self) -> (r: Option<i32>)
        requires
            self.wf(),
        ensures
            r == (match self@.int_at(PEER_DSCP) {
                Some(raw) => Some((raw & 0xfc) >> 2),
                None => None,
            }),
    {
        match self.int_at(PEER_DSCP) {
            Some(raw) => Some((raw & 0xfc) >> 2),
            None => None,
        }
    }

    /// Max number of known (not necessarily connected) peers kept per
    /// torrent; eviction starts at 90% of the limit. 0 means unlimited.
    ///
    /// Accepts `0..=22_605_091`.
    pub fn max_peerlist_size(&mut self, value: i32) -> (r: Result<&mut Self, SettingsError>)
        requires
            old(self).wf(),
        ensures
            0 <= value <= 22_605_091 ==> (r matches Ok(p) && p.wf() && p@ == old(self)@.with_int(MAX_PEERLIST_SIZE, value)
                && *final(self) == *final(p)),
            !(0 <= value <= 22_605_091) ==> (r matches Err(e) && e@ == (SettingsErrorView {
                setting: "max_peerlist_size"@,
                message: range_message(value, 0, 22_605_091),
            }) && *final(self) == *old(self)),
    {
        match in_range("max_peerlist_size", value, 0, 22_605_091) {
            Ok(()) => {},
            Err(e) => return Err(e),
        }
        self.put_int(MAX_PEERLIST_SIZE, value);
        Ok(self)
    }

    /// Reads `max_peerlist_size` if set in this pack.
    pub fn get_max_peerlist_size(&self) -> (r: Option<i32>)
        requires
            self.wf(),
        ensures
            r == self@.int_at(MAX_PEERLIST_SIZE),
    {
        self.int_at(MAX_PEERLIST_SIZE)
    }

    /// The `max_peerlist_size` used for paused torrents, to save
    /// memory.
    ///
    /// Accepts `0..=22_605_091`.
    pub fn max_paused_peerlist_size(&mut self, value: i32) -> (r: Result<&mut Self, SettingsError>)
        requires
            old(self).wf(),
        ensures
            0 <= value <= 22_605_091 ==> (r matches Ok(p) && p.wf() && p@ == old(self)@.with_int(MAX_PAUSED_PEERLIST_SIZE, value)
                && *final(self) == *final(p)),
            !(0 <= value <= 22_605_091) ==> (r matches Err(e) && e@ == (SettingsErrorView {
                setting: "max_paused_peerlist_size"@,
                message: range_message(value, 0, 22_605_091),
            }) && *final(self) == *old(self)),
    {
        match in_range("max_paused_peerlist_size", value, 0, 22_605_091) {
            Ok(()) => {},
            Err(e) => return Err(e),
        }
        self.put_int(MAX_PAUSED_PEERLIST_SIZE, value);
        Ok(self)
    }

    /// Reads `max_paused_peerlist_size` if set in this pack.
    pub fn get_max_paused_peerlist_size(&self) -> (r: Option<i32>)
        requires
            self.wf(),
        ensures
            r == self@.int_at(MAX_PAUSED_PEERLIST_SIZE),
    {
        self.int_at(MAX_PAUSED_PEERLIST_SIZE)
    }

    /// Receive/send buffer sizes set on peer sockets, in bytes; 0
    /// keeps the OS default. uTP peers, DHT and UDP tracker traffic
    /// share one UDP socket buffer per listen interface — too small
    /// and packets may be dropped.
    pub fn recv_socket_buffer_size(&mut self, value: i32) -> (r: &mut Self)
        requires
            old(self).wf(),
        ensures
            r.wf(),
            r@ == old(self)@.with_int(RECV_SOCKET_BUFFER_SIZE, value),
            *final(self) == *final(r),
    {
        self.put_int(RECV_SOCKET_BUFFER_SIZE, value);
        self
    }

    /// Reads `recv_socket_buffer_size` if set in this pack.
    pub fn get_recv_socket_buffer_size(&self) -> (r: Option<i32>)
        requires
            self.wf(),
        ensures
            r == self@.int_at(RECV_SOCKET_BUFFER_SIZE),
    {
        self.int_at(RECV_SOCKET_BUFFER_SIZE)
    }

    pub fn send_socket_buffer_size(&mut self, value: i32) -> (r: &mut Self)
        requires
            old(self).wf(),
        ensures
            r.wf(),
            r@ == old(self)@.with_int(SEND_SOCKET_BUFFER_SIZE, value),
            *final(self) == *final(r),
    {
        self.put_int(SEND_SOCKET_BUFFER_SIZE, value);
        self
    }

    /// Reads `send_socket_buffer_size` if set in this pack.
    pub fn get_send_socket_buffer_size(&self) -> (r: Option<i32>)
        requires
            self.wf(),
        ensures
            r == self@.int_at(SEND_SOCKET_BUFFER_SIZE),
    {
        self.int_at(SEND_SOCKET_BUFFER_SIZE)
    }

    /// Best-effort cap on a single peer connection's receive buffer:
    /// growth stops here, but the buffer is always allowed to reach the
    /// current message's size, so one large legal message (a piece
    /// message is 16 KiB of payload plus headers, other messages up to
    /// about 1 MiB) can exceed the cap.
    ///
    /// Accepts `16_384..=i32::MAX`.
    pub fn max_peer_recv_buffer_size(&mut self, value: i32) -> (r: Result<&mut Self, SettingsError>)
        requires
            old(self).wf(),
        ensures
            16_384 <= value <= i32::MAX ==> (r matches Ok(p) && p.wf() && p@ == old(self)@.with_int(MAX_PEER_RECV_BUFFER_SIZE, value)
                && *final(self) == *final(p)),
            !(16_384 <= value <= i32::MAX) ==> (r matches Err(e) && e@ == (SettingsErrorView {
                setting: "max_peer_recv_buffer_size"@,
                message: range_message(value, 16_384, i32::MAX),
            }) && *final(self) == *old(self)),
    {
        match in_range("max_peer_recv_buffer_size", value, 16_384, i32::MAX) {
            Ok(()) => {},
            Err(e) => return Err(e),
        }
        self.put_int(MAX_PEER_RECV_BUFFER_SIZE, value);
        Ok(self)
    }

    /// Reads `max_peer_recv_buffer_size` if set in this pack.
    pub fn get_max_peer_recv_buffer_size(&self) -> (r: Option<i32>)
        requires
            self.wf(),
        ensures
            r == self@.int_at(MAX_PEER_RECV_BUFFER_SIZE),
    {
        self.int_at(MAX_PEER_RECV_BUFFER_SIZE)
    }

    /// Max peers accepted from a single peer's PEX message; entries
    /// beyond this are ignored.
    pub fn max_pex_peers(&mut self, value: i32) -> (r: &mut Self)
        requires
            old(self).wf(),
        ensures
            r.wf(),
            r@ == old(self)@.with_int(MAX_PEX_PEERS, value),
            *final(self) == *final(r),
    {
        self.put_int(MAX_PEX_PEERS, value);
        self
    }

    /// Reads `max_pex_peers` if set in this pack.
    pub fn get_max_pex_peers(&self) -> (r: Option<i32>)
        requires
            self.wf(),
        ensures
            r == self@.int_at(MAX_PEX_PEERS),
    {
        self.int_at(MAX_PEX_PEERS)
    }

    /// Global limit on open peer connections; a hard floor of two per
    /// torrent applies regardless.
    pub fn connections_limit(&mut self, value: i32) -> (r: &mut Self)
        requires
            old(self).wf(),
        ensures
            r.wf(),
            r@ == old(self)@.with_int(CONNECTIONS_LIMIT, value),
            *final(self) == *final(r),
    {
        self.put_int(CONNECTIONS_LIMIT, value);
        self
    }

    /// Reads `connections_limit` if set in this pack.
    pub fn get_connections_limit(&self) -> (r: Option<i32>)
        requires
            self.wf(),
        ensures
            r == self@.int_at(CONNECTIONS_LIMIT),
    {
        self.int_at(CONNECTIONS_LIMIT)
    }

    /// Incoming connections accepted beyond `connections_limit` in
    /// order to potentially replace existing ones.
    pub fn connections_slack(&mut self, value: i32) -> (r: &mut Self)
        requires
            old(self).wf(),
        ensures
            r.wf(),
            r@ == old(self)@.with_int(CONNECTIONS_SLACK, value),
            *final(self) == *final(r),
    {
        self.put_int(CONNECTIONS_SLACK, value);
        self
    }

    /// Reads `connections_slack` if set in this pack.
    pub fn get_connections_slack(&self) -> (r: Option<i32>)
        requires
            self.wf(),
        ensures
            r == self@.int_at(CONNECTIONS_SLACK),
    {
        self.int_at(CONNECTIONS_SLACK)
    }

    /// Backlog passed to listen(); worth raising only for servers
    /// expecting many incoming connections. Takes effect when
    /// `listen_interfaces` is next updated.
    pub fn listen_queue_size(&mut self, value: i32) -> (r: &mut Self)
        requires
            old(self).wf(),
        ensures
            r.wf(),
            r@ == old(self)@.with_int(LISTEN_QUEUE_SIZE, value),
            *final(self) == *final(r),
    {
        self.put_int(LISTEN_QUEUE_SIZE, value);
        self
    }

    /// Reads `listen_queue_size` if set in this pack.
    pub fn get_listen_queue_size(&self) -> (r: Option<i32>)
        requires
            self.wf(),
        ensures
            r == self@.int_at(LISTEN_QUEUE_SIZE),
    {
        self.int_at(LISTEN_QUEUE_SIZE)
    }

    /// Peers to connect immediately on a torrent's first tracker
    /// response instead of waiting for the once-a-second connect
    /// scheduler; the `u8` argument enforces libtorrent's cap of 255.
    pub fn torrent_connect_boost(&mut self, value: u8) -> (r: &mut Self)
        requires
            old(self).wf(),
        ensures
            r.wf(),
            r@ == old(self)@.with_int(TORRENT_CONNECT_BOOST, value as i32),
            *final(self) == *final(r),
    {
        self.put_int(TORRENT_CONNECT_BOOST, value as i32);
        self
    }

    /// Reads `torrent_connect_boost` if set in this pack.
    pub fn get_torrent_connect_boost(&self) -> (r: Option<i32>)
        requires
            self.wf(),
        ensures
            r == self@.int_at(TORRENT_CONNECT_BOOST),
    {
        self.int_at(TORRENT_CONNECT_BOOST)
    }

    /// Percent of peers to optimistically disconnect every
    /// `peer_turnover_interval` seconds when connected to more than
    /// `peer_turnover_cutoff` percent of the connection limit.
    ///
    /// Accepts `0..=100`.
    pub fn peer_turnover(&mut self, value: i32) -> (r: Result<&mut Self, SettingsError>)
        requires
            old(self).wf(),
        ensures
            0 <= value <= 100 ==> (r matches Ok(p) && p.wf() && p@ == old(self)@.with_int(PEER_TURNOVER, value)
                && *final(self) == *final(p)),
            !(0 <= value <= 100) ==> (r matches Err(e) && e@ == (SettingsErrorView {
                setting: "peer_turnover"@,
                message: range_message(value, 0, 100),
            }) && *final(self) == *old(self)),
    {
        match in_range("peer_turnover", value, 0, 100) {
            Ok(()) => {},
            Err(e) => return Err(e),
        }
        self.put_int(PEER_TURNOVER, value);
        Ok(self)
    }

    /// Reads `peer_turnover` if set in this pack.
    pub fn get_peer_turnover(&self) -> (r: Option<i32>)
        requires
            self.wf(),
        ensures
            r == self@.int_at(PEER_TURNOVER),
    {
        self.int_at(PEER_TURNOVER)
    }

    pub fn peer_turnover_cutoff(&mut self, value: i32) -> (r: &mut Self)
        requires
            old(self).wf(),
        ensures
            r.wf(),
            r@ == old(self)@.with_int(PEER_TURNOVER_CUTOFF, value),
            *final(self) == *final(r),
    {
        self.put_int(PEER_TURNOVER_CUTOFF, value);
        self
    }

    /// Reads `peer_turnover_cutoff` if set in this pack.
    pub fn get_peer_turnover_cutoff(&self) -> (r: Option<i32>)
        requires
            self.wf(),
        ensures
            r == self@.int_at(PEER_TURNOVER_CUTOFF),
    {
        self.int_at(PEER_TURNOVER_CUTOFF)
    }

    pub fn peer_turnover_interval(&mut self, value: i32) -> (r: &mut Self)
        requires
            old(self).wf(),
        ensures
            r.wf(),
            r@ == old(self)@.with_int(PEER_TURNOVER_INTERVAL, value),
            *final(self) == *final(r),
    {
        self.put_int(PEER_TURNOVER_INTERVAL, value);
        self
    }

    /// Reads `peer_turnover_interval` if set in this pack.
    pub fn get_peer_turnover_interval(&self) -> (r: Option<i32>)
        requires
            self.wf(),
        ensures
            r == self@.int_at(PEER_TURNOVER_INTERVAL),
    {
        self.int_at(PEER_TURNOVER_INTERVAL)
    }

    /// Downloading torrents are prioritized for the limited connection
    /// attempts; every n:th attempt goes to a seeding/finished torrent
    /// instead. This setting is n.
    pub fn connect_seed_every_n_download(&mut self, value: i32) -> (r: &mut Self)
        requires
            old(self).wf(),
        ensures
            r.wf(),
            r@ == old(self)@.with_int(CONNECT_SEED_EVERY_N_DOWNLOAD, value),
            *final(self) == *final(r),
    {
        self.put_int(CONNECT_SEED_EVERY_N_DOWNLOAD, value);
        self
    }

    /// Reads `connect_seed_every_n_download` if set in this pack.
    pub fn get_connect_seed_every_n_download(&self) -> (r: Option<i32>)
        requires
            self.wf(),
        ensures
            r == self@.int_at(CONNECT_SEED_EVERY_N_DOWNLOAD),
    {
        self.int_at(CONNECT_SEED_EVERY_N_DOWNLOAD)
    }

    /// How many times to retry a failed listen-port bind, incrementing
    /// the port by one each time.
    pub fn max_retry_port_bind(&mut self, value: i32) -> (r: &mut Self)
        requires
            old(self).wf(),
        ensures
            r.wf(),
            r@ == old(self)@.with_int(MAX_RETRY_PORT_BIND, value),
            *final(self) == *final(r),
    {
        self.put_int(MAX_RETRY_PORT_BIND, value);
        self
    }

    /// Reads `max_retry_port_bind` if set in this pack.
    pub fn get_max_retry_port_bind(&self) -> (r: Option<i32>)
        requires
            self.wf(),
        ensures
            r == self@.int_at(MAX_RETRY_PORT_BIND),
    {
        self.int_at(MAX_RETRY_PORT_BIND)
    }
}

} // verus!
