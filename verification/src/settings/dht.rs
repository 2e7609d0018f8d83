//! The DHT, local service discovery, UPnP and NAT-PMP.

use vstd::prelude::*;

use crate::settings::error::{in_range, range_message, SettingsError, SettingsErrorView};
use crate::settings::table::{DHT_AGGRESSIVE_LOOKUPS, DHT_ANNOUNCE_INTERVAL, DHT_BLOCK_RATELIMIT, DHT_BLOCK_TIMEOUT, DHT_BOOTSTRAP_NODES, DHT_ENFORCE_NODE_ID, DHT_EXTENDED_ROUTING_TABLE, DHT_IGNORE_DARK_INTERNET, DHT_ITEM_LIFETIME, DHT_MAX_DHT_ITEMS, DHT_MAX_FAIL_COUNT, DHT_MAX_INFOHASHES_SAMPLE_COUNT, DHT_MAX_PEERS, DHT_MAX_PEERS_REPLY, DHT_MAX_TORRENTS, DHT_PREFER_VERIFIED_NODE_IDS, DHT_PRIVACY_LOOKUPS, DHT_READ_ONLY, DHT_RESTRICT_ROUTING_IPS, DHT_RESTRICT_SEARCH_IPS, DHT_SAMPLE_INFOHASHES_INTERVAL, DHT_SEARCH_BRANCHING, DHT_UPLOAD_RATE_LIMIT, ENABLE_DHT, ENABLE_IP_NOTIFIER, ENABLE_LSD, ENABLE_NATPMP, ENABLE_UPNP, LOCAL_SERVICE_ANNOUNCE_INTERVAL, NATPMP_GATEWAY, NATPMP_LEASE_DURATION, UPNP_IGNORE_NONROUTERS, UPNP_LEASE_DURATION, USE_DHT_AS_FALLBACK};
use crate::settings::{opt_str_view, SettingsPack};

verus! {

impl SettingsPack {
    /// Reads `dht_bootstrap_nodes` if set in this pack, as the raw string.
    pub fn get_dht_bootstrap_nodes(&self) -> (r: Option<String>)
        requires
            self.wf(),
        ensures
            opt_str_view(r) == self@.str_at(DHT_BOOTSTRAP_NODES),
    {
        self.str_at(DHT_BOOTSTRAP_NODES)
    }

    /// Overrides the NAT-PMP gateway address instead of resolving the
    /// default gateway. Only read when NAT-PMP starts; toggle NAT-PMP off
    /// and on to apply a change.
    pub fn natpmp_gateway(&mut self, value: &str) -> (r: &mut Self)
        requires
            old(self).wf(),
        ensures
            r.wf(),
            r@ == old(self)@.with_str(NATPMP_GATEWAY, value@),
            *final(self) == *final(r),
    {
        self.put_str(NATPMP_GATEWAY, value);
        self
    }

    /// Reads `natpmp_gateway` if set in this pack.
    pub fn get_natpmp_gateway(&self) -> (r: Option<String>)
        requires
            self.wf(),
        ensures
            opt_str_view(r) == self@.str_at(NATPMP_GATEWAY),
    {
        self.str_at(NATPMP_GATEWAY)
    }

    /// Use the DHT only for torrents whose trackers have all failed,
    /// instead of unconditionally.
    pub fn use_dht_as_fallback(&mut self, value: bool) -> (r: &mut Self)
        requires
            old(self).wf(),
        ensures
            r.wf(),
            r@ == old(self)@.with_bool(USE_DHT_AS_FALLBACK, value),
            *final(self) == *final(r),
    {
        self.put_bool(USE_DHT_AS_FALLBACK, value);
        self
    }

    /// Reads `use_dht_as_fallback` if set in this pack.
    pub fn get_use_dht_as_fallback(&self) -> (r: Option<bool>)
        requires
            self.wf(),
        ensures
            r == self@.bool_at(USE_DHT_AS_FALLBACK),
    {
        self.bool_at(USE_DHT_AS_FALLBACK)
    }

    /// Ignore UPnP broadcast responses from devices outside our subnet
    /// (avoids talking to other people's routers by mistake).
    pub fn upnp_ignore_nonrouters(&mut self, value: bool) -> (r: &mut Self)
        requires
            old(self).wf(),
        ensures
            r.wf(),
            r@ == old(self)@.with_bool(UPNP_IGNORE_NONROUTERS, value),
            *final(self) == *final(r),
    {
        self.put_bool(UPNP_IGNORE_NONROUTERS, value);
        self
    }

    /// Reads `upnp_ignore_nonrouters` if set in this pack.
    pub fn get_upnp_ignore_nonrouters(&self) -> (r: Option<bool>)
        requires
            self.wf(),
        ensures
            r == self@.bool_at(UPNP_IGNORE_NONROUTERS),
    {
        self.bool_at(UPNP_IGNORE_NONROUTERS)
    }

    /// Starts and stops the UPnP service, which tries to forward the
    /// listen and DHT ports on local UPnP router devices.
    pub fn enable_upnp(&mut self, value: bool) -> (r: &mut Self)
        requires
            old(self).wf(),
        ensures
            r.wf(),
            r@ == old(self)@.with_bool(ENABLE_UPNP, value),
            *final(self) == *final(r),
    {
        self.put_bool(ENABLE_UPNP, value);
        self
    }

    /// Reads `enable_upnp` if set in this pack.
    pub fn get_enable_upnp(&self) -> (r: Option<bool>)
        requires
            self.wf(),
        ensures
            r == self@.bool_at(ENABLE_UPNP),
    {
        self.bool_at(ENABLE_UPNP)
    }

    /// Starts and stops the NAT-PMP service, which tries to forward the
    /// listen and DHT ports on the router.
    pub fn enable_natpmp(&mut self, value: bool) -> (r: &mut Self)
        requires
            old(self).wf(),
        ensures
            r.wf(),
            r@ == old(self)@.with_bool(ENABLE_NATPMP, value),
            *final(self) == *final(r),
    {
        self.put_bool(ENABLE_NATPMP, value);
        self
    }

    /// Reads `enable_natpmp` if set in this pack.
    pub fn get_enable_natpmp(&self) -> (r: Option<bool>)
        requires
            self.wf(),
        ensures
            r == self@.bool_at(ENABLE_NATPMP),
    {
        self.bool_at(ENABLE_NATPMP)
    }

    /// Starts and stops Local Service Discovery, which broadcasts the
    /// info-hashes of non-private torrents to find local-network peers.
    pub fn enable_lsd(&mut self, value: bool) -> (r: &mut Self)
        requires
            old(self).wf(),
        ensures
            r.wf(),
            r@ == old(self)@.with_bool(ENABLE_LSD, value),
            *final(self) == *final(r),
    {
        self.put_bool(ENABLE_LSD, value);
        self
    }

    /// Reads `enable_lsd` if set in this pack.
    pub fn get_enable_lsd(&self) -> (r: Option<bool>)
        requires
            self.wf(),
        ensures
            r == self@.bool_at(ENABLE_LSD),
    {
        self.bool_at(ENABLE_LSD)
    }

    /// Starts and stops the DHT node.
    pub fn enable_dht(&mut self, value: bool) -> (r: &mut Self)
        requires
            old(self).wf(),
        ensures
            r.wf(),
            r@ == old(self)@.with_bool(ENABLE_DHT, value),
            *final(self) == *final(r),
    {
        self.put_bool(ENABLE_DHT, value);
        self
    }

    /// Reads `enable_dht` if set in this pack.
    pub fn get_enable_dht(&self) -> (r: Option<bool>)
        requires
            self.wf(),
        ensures
            r == self@.bool_at(ENABLE_DHT),
    {
        self.bool_at(ENABLE_DHT)
    }

    /// Starts and stops the internal IP/route change notifier. When
    /// disabled, network changes require manually reopening the session's
    /// network sockets.
    pub fn enable_ip_notifier(&mut self, value: bool) -> (r: &mut Self)
        requires
            old(self).wf(),
        ensures
            r.wf(),
            r@ == old(self)@.with_bool(ENABLE_IP_NOTIFIER, value),
            *final(self) == *final(r),
    {
        self.put_bool(ENABLE_IP_NOTIFIER, value);
        self
    }

    /// Reads `enable_ip_notifier` if set in this pack.
    pub fn get_enable_ip_notifier(&self) -> (r: Option<bool>)
        requires
            self.wf(),
        ensures
            r == self@.bool_at(ENABLE_IP_NOTIFIER),
    {
        self.bool_at(ENABLE_IP_NOTIFIER)
    }

    /// Prefer routing-table nodes whose IDs are derived from their source
    /// IP per BEP 42.
    pub fn dht_prefer_verified_node_ids(&mut self, value: bool) -> (r: &mut Self)
        requires
            old(self).wf(),
        ensures
            r.wf(),
            r@ == old(self)@.with_bool(DHT_PREFER_VERIFIED_NODE_IDS, value),
            *final(self) == *final(r),
    {
        self.put_bool(DHT_PREFER_VERIFIED_NODE_IDS, value);
        self
    }

    /// Reads `dht_prefer_verified_node_ids` if set in this pack.
    pub fn get_dht_prefer_verified_node_ids(&self) -> (r: Option<bool>)
        requires
            self.wf(),
        ensures
            r == self@.bool_at(DHT_PREFER_VERIFIED_NODE_IDS),
    {
        self.bool_at(DHT_PREFER_VERIFIED_NODE_IDS)
    }

    /// Restrict the routing table to one entry per IP and reject nodes in
    /// the same /24 (/64 for IPv6) within a bucket, mitigating node-ID
    /// spoofing attacks.
    pub fn dht_restrict_routing_ips(&mut self, value: bool) -> (r: &mut Self)
        requires
            old(self).wf(),
        ensures
            r.wf(),
            r@ == old(self)@.with_bool(DHT_RESTRICT_ROUTING_IPS, value),
            *final(self) == *final(r),
    {
        self.put_bool(DHT_RESTRICT_ROUTING_IPS, value);
        self
    }

    /// Reads `dht_restrict_routing_ips` if set in this pack.
    pub fn get_dht_restrict_routing_ips(&self) -> (r: Option<bool>)
        requires
            self.wf(),
        ensures
            r == self@.bool_at(DHT_RESTRICT_ROUTING_IPS),
    {
        self.bool_at(DHT_RESTRICT_ROUTING_IPS)
    }

    /// Prevent DHT searches from adding nodes with very close CIDR
    /// distance, mitigating certain attacks.
    pub fn dht_restrict_search_ips(&mut self, value: bool) -> (r: &mut Self)
        requires
            old(self).wf(),
        ensures
            r.wf(),
            r@ == old(self)@.with_bool(DHT_RESTRICT_SEARCH_IPS, value),
            *final(self) == *final(r),
    {
        self.put_bool(DHT_RESTRICT_SEARCH_IPS, value);
        self
    }

    /// Reads `dht_restrict_search_ips` if set in this pack.
    pub fn get_dht_restrict_search_ips(&self) -> (r: Option<bool>)
        requires
            self.wf(),
        ensures
            r == self@.bool_at(DHT_RESTRICT_SEARCH_IPS),
    {
        self.bool_at(DHT_RESTRICT_SEARCH_IPS)
    }

    /// Enlarge the first DHT routing-table buckets to 128/64/32/16 nodes
    /// instead of the standard 8.
    pub fn dht_extended_routing_table(&mut self, value: bool) -> (r: &mut Self)
        requires
            old(self).wf(),
        ensures
            r.wf(),
            r@ == old(self)@.with_bool(DHT_EXTENDED_ROUTING_TABLE, value),
            *final(self) == *final(r),
    {
        self.put_bool(DHT_EXTENDED_ROUTING_TABLE, value);
        self
    }

    /// Reads `dht_extended_routing_table` if set in this pack.
    pub fn get_dht_extended_routing_table(&self) -> (r: Option<bool>)
        requires
            self.wf(),
        ensures
            r == self@.bool_at(DHT_EXTENDED_ROUTING_TABLE),
    {
        self.bool_at(DHT_EXTENDED_ROUTING_TABLE)
    }

    /// Keep *branch factor* outstanding requests aimed at the closest
    /// nodes, querying closer nodes as soon as they are learned; faster
    /// lookups at the cost of more outstanding queries.
    pub fn dht_aggressive_lookups(&mut self, value: bool) -> (r: &mut Self)
        requires
            old(self).wf(),
        ensures
            r.wf(),
            r@ == old(self)@.with_bool(DHT_AGGRESSIVE_LOOKUPS, value),
            *final(self) == *final(r),
    {
        self.put_bool(DHT_AGGRESSIVE_LOOKUPS, value);
        self
    }

    /// Reads `dht_aggressive_lookups` if set in this pack.
    pub fn get_dht_aggressive_lookups(&self) -> (r: Option<bool>)
        requires
            self.wf(),
        ensures
            r == self@.bool_at(DHT_AGGRESSIVE_LOOKUPS),
    {
        self.bool_at(DHT_AGGRESSIVE_LOOKUPS)
    }

    /// when set, perform lookups in a way that is slightly more expensive,
    /// but which minimizes the amount of information leaked about you.
    pub fn dht_privacy_lookups(&mut self, value: bool) -> (r: &mut Self)
        requires
            old(self).wf(),
        ensures
            r.wf(),
            r@ == old(self)@.with_bool(DHT_PRIVACY_LOOKUPS, value),
            *final(self) == *final(r),
    {
        self.put_bool(DHT_PRIVACY_LOOKUPS, value);
        self
    }

    /// Reads `dht_privacy_lookups` if set in this pack.
    pub fn get_dht_privacy_lookups(&self) -> (r: Option<bool>)
        requires
            self.wf(),
        ensures
            r == self@.bool_at(DHT_PRIVACY_LOOKUPS),
    {
        self.bool_at(DHT_PRIVACY_LOOKUPS)
    }

    /// Ignore nodes whose IDs are not correctly derived from their
    /// external IP, answering their queries with an "invalid node ID"
    /// error.
    pub fn dht_enforce_node_id(&mut self, value: bool) -> (r: &mut Self)
        requires
            old(self).wf(),
        ensures
            r.wf(),
            r@ == old(self)@.with_bool(DHT_ENFORCE_NODE_ID, value),
            *final(self) == *final(r),
    {
        self.put_bool(DHT_ENFORCE_NODE_ID, value);
        self
    }

    /// Reads `dht_enforce_node_id` if set in this pack.
    pub fn get_dht_enforce_node_id(&self) -> (r: Option<bool>)
        requires
            self.wf(),
        ensures
            r == self@.bool_at(DHT_ENFORCE_NODE_ID),
    {
        self.bool_at(DHT_ENFORCE_NODE_ID)
    }

    /// Ignore DHT messages from parts of the internet no traffic is
    /// expected from.
    pub fn dht_ignore_dark_internet(&mut self, value: bool) -> (r: &mut Self)
        requires
            old(self).wf(),
        ensures
            r.wf(),
            r@ == old(self)@.with_bool(DHT_IGNORE_DARK_INTERNET, value),
            *final(self) == *final(r),
    {
        self.put_bool(DHT_IGNORE_DARK_INTERNET, value);
        self
    }

    /// Reads `dht_ignore_dark_internet` if set in this pack.
    pub fn get_dht_ignore_dark_internet(&self) -> (r: Option<bool>)
        requires
            self.wf(),
        ensures
            r == self@.bool_at(DHT_IGNORE_DARK_INTERNET),
    {
        self.bool_at(DHT_IGNORE_DARK_INTERNET)
    }

    /// Run the DHT node in read-only mode: it stops answering queries and
    /// marks outgoing queries `ro` so other nodes don't add it to their
    /// routing tables. Meant for low-power or ephemeral devices.
    pub fn dht_read_only(&mut self, value: bool) -> (r: &mut Self)
        requires
            old(self).wf(),
        ensures
            r.wf(),
            r@ == old(self)@.with_bool(DHT_READ_ONLY, value),
            *final(self) == *final(r),
    {
        self.put_bool(DHT_READ_ONLY, value);
        self
    }

    /// Reads `dht_read_only` if set in this pack.
    pub fn get_dht_read_only(&self) -> (r: Option<bool>)
        requires
            self.wf(),
        ensures
            r == self@.bool_at(DHT_READ_ONLY),
    {
        self.bool_at(DHT_READ_ONLY)
    }

    /// Seconds between local network (LSD) announces for a torrent.
    ///
    /// Accepts `1..=2_147_483`.
    pub fn local_service_announce_interval(&mut self, value: i32) -> (r: Result<&mut Self, SettingsError>)
        requires
            old(self).wf(),
        ensures
            1 <= value <= 2_147_483 ==> (r matches Ok(p) && p.wf() && p@ == old(self)@.with_int(LOCAL_SERVICE_ANNOUNCE_INTERVAL, value)
                && *final(self) == *final(p)),
            !(1 <= value <= 2_147_483) ==> (r matches Err(e) && e@ == (SettingsErrorView {
                setting: "local_service_announce_interval"@,
                message: range_message(value, 1, 2_147_483),
            }) && *final(self) == *old(self)),
    {
        match in_range("local_service_announce_interval", value, 1, 2_147_483) {
            Ok(()) => {},
            Err(e) => return Err(e),
        }
        self.put_int(LOCAL_SERVICE_ANNOUNCE_INTERVAL, value);
        Ok(self)
    }

    /// Reads `local_service_announce_interval` if set in this pack.
    pub fn get_local_service_announce_interval(&self) -> (r: Option<i32>)
        requires
            self.wf(),
        ensures
            r == self@.int_at(LOCAL_SERVICE_ANNOUNCE_INTERVAL),
    {
        self.int_at(LOCAL_SERVICE_ANNOUNCE_INTERVAL)
    }

    /// Seconds between announcing torrents to the DHT.
    ///
    /// Accepts `1..=2_147_483`.
    pub fn dht_announce_interval(&mut self, value: i32) -> (r: Result<&mut Self, SettingsError>)
        requires
            old(self).wf(),
        ensures
            1 <= value <= 2_147_483 ==> (r matches Ok(p) && p.wf() && p@ == old(self)@.with_int(DHT_ANNOUNCE_INTERVAL, value)
                && *final(self) == *final(p)),
            !(1 <= value <= 2_147_483) ==> (r matches Err(e) && e@ == (SettingsErrorView {
                setting: "dht_announce_interval"@,
                message: range_message(value, 1, 2_147_483),
            }) && *final(self) == *old(self)),
    {
        match in_range("dht_announce_interval", value, 1, 2_147_483) {
            Ok(()) => {},
            Err(e) => return Err(e),
        }
        self.put_int(DHT_ANNOUNCE_INTERVAL, value);
        Ok(self)
    }

    /// Reads `dht_announce_interval` if set in this pack.
    pub fn get_dht_announce_interval(&self) -> (r: Option<i32>)
        requires
            self.wf(),
        ensures
            r == self@.int_at(DHT_ANNOUNCE_INTERVAL),
    {
        self.int_at(DHT_ANNOUNCE_INTERVAL)
    }

    /// Average bytes per second the DHT may send; incoming requests are
    /// dropped while the quota is exhausted.
    pub fn dht_upload_rate_limit(&mut self, value: i32) -> (r: &mut Self)
        requires
            old(self).wf(),
        ensures
            r.wf(),
            r@ == old(self)@.with_int(DHT_UPLOAD_RATE_LIMIT, value),
            *final(self) == *final(r),
    {
        self.put_int(DHT_UPLOAD_RATE_LIMIT, value);
        self
    }

    /// Reads `dht_upload_rate_limit` if set in this pack.
    pub fn get_dht_upload_rate_limit(&self) -> (r: Option<i32>)
        requires
            self.wf(),
        ensures
            r == self@.int_at(DHT_UPLOAD_RATE_LIMIT),
    {
        self.int_at(DHT_UPLOAD_RATE_LIMIT)
    }

    /// UPnP port-mapping lease duration in seconds; 0 means permanent.
    /// Use 0 for routers that mishandle expiration; otherwise keep it at
    /// 5 minutes or more.
    ///
    /// Accepts `0..=715_827_882`.
    pub fn upnp_lease_duration(&mut self, value: i32) -> (r: Result<&mut Self, SettingsError>)
        requires
            old(self).wf(),
        ensures
            0 <= value <= 715_827_882 ==> (r matches Ok(p) && p.wf() && p@ == old(self)@.with_int(UPNP_LEASE_DURATION, value)
                && *final(self) == *final(p)),
            !(0 <= value <= 715_827_882) ==> (r matches Err(e) && e@ == (SettingsErrorView {
                setting: "upnp_lease_duration"@,
                message: range_message(value, 0, 715_827_882),
            }) && *final(self) == *old(self)),
    {
        match in_range("upnp_lease_duration", value, 0, 715_827_882) {
            Ok(()) => {},
            Err(e) => return Err(e),
        }
        self.put_int(UPNP_LEASE_DURATION, value);
        Ok(self)
    }

    /// Reads `upnp_lease_duration` if set in this pack.
    pub fn get_upnp_lease_duration(&self) -> (r: Option<i32>)
        requires
            self.wf(),
        ensures
            r == self@.int_at(UPNP_LEASE_DURATION),
    {
        self.int_at(UPNP_LEASE_DURATION)
    }

    /// Max peers sent in a reply to `get_peers`.
    ///
    /// Accepts `0..=i32::MAX`.
    pub fn dht_max_peers_reply(&mut self, value: i32) -> (r: Result<&mut Self, SettingsError>)
        requires
            old(self).wf(),
        ensures
            0 <= value <= i32::MAX ==> (r matches Ok(p) && p.wf() && p@ == old(self)@.with_int(DHT_MAX_PEERS_REPLY, value)
                && *final(self) == *final(p)),
            !(0 <= value <= i32::MAX) ==> (r matches Err(e) && e@ == (SettingsErrorView {
                setting: "dht_max_peers_reply"@,
                message: range_message(value, 0, i32::MAX),
            }) && *final(self) == *old(self)),
    {
        match in_range("dht_max_peers_reply", value, 0, i32::MAX) {
            Ok(()) => {},
            Err(e) => return Err(e),
        }
        self.put_int(DHT_MAX_PEERS_REPLY, value);
        Ok(self)
    }

    /// Reads `dht_max_peers_reply` if set in this pack.
    pub fn get_dht_max_peers_reply(&self) -> (r: Option<i32>)
        requires
            self.wf(),
        ensures
            r == self@.int_at(DHT_MAX_PEERS_REPLY),
    {
        self.int_at(DHT_MAX_PEERS_REPLY)
    }

    /// Concurrent search requests per lookup (kademlia's alpha).
    ///
    /// Accepts `1..=127`.
    pub fn dht_search_branching(&mut self, value: i32) -> (r: Result<&mut Self, SettingsError>)
        requires
            old(self).wf(),
        ensures
            1 <= value <= 127 ==> (r matches Ok(p) && p.wf() && p@ == old(self)@.with_int(DHT_SEARCH_BRANCHING, value)
                && *final(self) == *final(p)),
            !(1 <= value <= 127) ==> (r matches Err(e) && e@ == (SettingsErrorView {
                setting: "dht_search_branching"@,
                message: range_message(value, 1, 127),
            }) && *final(self) == *old(self)),
    {
        match in_range("dht_search_branching", value, 1, 127) {
            Ok(()) => {},
            Err(e) => return Err(e),
        }
        self.put_int(DHT_SEARCH_BRANCHING, value);
        Ok(self)
    }

    /// Reads `dht_search_branching` if set in this pack.
    pub fn get_dht_search_branching(&self) -> (r: Option<i32>)
        requires
            self.wf(),
        ensures
            r == self@.int_at(DHT_SEARCH_BRANCHING),
    {
        self.int_at(DHT_SEARCH_BRANCHING)
    }

    /// Failed contact attempts before a routing-table node with no ready
    /// replacement is removed (nodes with replacements go immediately).
    pub fn dht_max_fail_count(&mut self, value: i32) -> (r: &mut Self)
        requires
            old(self).wf(),
        ensures
            r.wf(),
            r@ == old(self)@.with_int(DHT_MAX_FAIL_COUNT, value),
            *final(self) == *final(r),
    {
        self.put_int(DHT_MAX_FAIL_COUNT, value);
        self
    }

    /// Reads `dht_max_fail_count` if set in this pack.
    pub fn get_dht_max_fail_count(&self) -> (r: Option<i32>)
        requires
            self.wf(),
        ensures
            r == self@.int_at(DHT_MAX_FAIL_COUNT),
    {
        self.int_at(DHT_MAX_FAIL_COUNT)
    }

    /// Upper bound on torrents tracked from the DHT, bounding the memory
    /// malicious nodes can make us allocate.
    pub fn dht_max_torrents(&mut self, value: i32) -> (r: &mut Self)
        requires
            old(self).wf(),
        ensures
            r.wf(),
            r@ == old(self)@.with_int(DHT_MAX_TORRENTS, value),
            *final(self) == *final(r),
    {
        self.put_int(DHT_MAX_TORRENTS, value);
        self
    }

    /// Reads `dht_max_torrents` if set in this pack.
    pub fn get_dht_max_torrents(&self) -> (r: Option<i32>)
        requires
            self.wf(),
        ensures
            r == self@.int_at(DHT_MAX_TORRENTS),
    {
        self.int_at(DHT_MAX_TORRENTS)
    }

    /// Max number of items the DHT will store.
    ///
    /// Accepts `1..=i32::MAX`.
    pub fn dht_max_dht_items(&mut self, value: i32) -> (r: Result<&mut Self, SettingsError>)
        requires
            old(self).wf(),
        ensures
            1 <= value <= i32::MAX ==> (r matches Ok(p) && p.wf() && p@ == old(self)@.with_int(DHT_MAX_DHT_ITEMS, value)
                && *final(self) == *final(p)),
            !(1 <= value <= i32::MAX) ==> (r matches Err(e) && e@ == (SettingsErrorView {
                setting: "dht_max_dht_items"@,
                message: range_message(value, 1, i32::MAX),
            }) && *final(self) == *old(self)),
    {
        match in_range("dht_max_dht_items", value, 1, i32::MAX) {
            Ok(()) => {},
            Err(e) => return Err(e),
        }
        self.put_int(DHT_MAX_DHT_ITEMS, value);
        Ok(self)
    }

    /// Reads `dht_max_dht_items` if set in this pack.
    pub fn get_dht_max_dht_items(&self) -> (r: Option<i32>)
        requires
            self.wf(),
        ensures
            r == self@.int_at(DHT_MAX_DHT_ITEMS),
    {
        self.int_at(DHT_MAX_DHT_ITEMS)
    }

    /// Max peers the DHT stores per torrent.
    pub fn dht_max_peers(&mut self, value: i32) -> (r: &mut Self)
        requires
            old(self).wf(),
        ensures
            r.wf(),
            r@ == old(self)@.with_int(DHT_MAX_PEERS, value),
            *final(self) == *final(r),
    {
        self.put_int(DHT_MAX_PEERS, value);
        self
    }

    /// Reads `dht_max_peers` if set in this pack.
    pub fn get_dht_max_peers(&self) -> (r: Option<i32>)
        requires
            self.wf(),
        ensures
            r == self@.int_at(DHT_MAX_PEERS),
    {
        self.int_at(DHT_MAX_PEERS)
    }

    /// Seconds a DHT node stays banned for exceeding the rate limit
    /// (averaged over 10 seconds to allow bursts).
    pub fn dht_block_timeout(&mut self, value: i32) -> (r: &mut Self)
        requires
            old(self).wf(),
        ensures
            r.wf(),
            r@ == old(self)@.with_int(DHT_BLOCK_TIMEOUT, value),
            *final(self) == *final(r),
    {
        self.put_int(DHT_BLOCK_TIMEOUT, value);
        self
    }

    /// Reads `dht_block_timeout` if set in this pack.
    pub fn get_dht_block_timeout(&self) -> (r: Option<i32>)
        requires
            self.wf(),
        ensures
            r == self@.int_at(DHT_BLOCK_TIMEOUT),
    {
        self.int_at(DHT_BLOCK_TIMEOUT)
    }

    /// Max packets per second a DHT node may send without getting banned.
    pub fn dht_block_ratelimit(&mut self, value: i32) -> (r: &mut Self)
        requires
            old(self).wf(),
        ensures
            r.wf(),
            r@ == old(self)@.with_int(DHT_BLOCK_RATELIMIT, value),
            *final(self) == *final(r),
    {
        self.put_int(DHT_BLOCK_RATELIMIT, value);
        self
    }

    /// Reads `dht_block_ratelimit` if set in this pack.
    pub fn get_dht_block_ratelimit(&self) -> (r: Option<i32>)
        requires
            self.wf(),
        ensures
            r == self@.int_at(DHT_BLOCK_RATELIMIT),
    {
        self.int_at(DHT_BLOCK_RATELIMIT)
    }

    /// Seconds until an immutable/mutable item expires; 0 (the default)
    /// means never.
    pub fn dht_item_lifetime(&mut self, value: i32) -> (r: &mut Self)
        requires
            old(self).wf(),
        ensures
            r.wf(),
            r@ == old(self)@.with_int(DHT_ITEM_LIFETIME, value),
            *final(self) == *final(r),
    {
        self.put_int(DHT_ITEM_LIFETIME, value);
        self
    }

    /// Reads `dht_item_lifetime` if set in this pack.
    pub fn get_dht_item_lifetime(&self) -> (r: Option<i32>)
        requires
            self.wf(),
        ensures
            r == self@.int_at(DHT_ITEM_LIFETIME),
    {
        self.int_at(DHT_ITEM_LIFETIME)
    }

    /// Seconds between recomputations of the precomputed info-hashes
    /// sample served to `sample_infohashes` requests.
    ///
    /// Accepts `0..=21_600`.
    pub fn dht_sample_infohashes_interval(&mut self, value: i32) -> (r: Result<&mut Self, SettingsError>)
        requires
            old(self).wf(),
        ensures
            0 <= value <= 21_600 ==> (r matches Ok(p) && p.wf() && p@ == old(self)@.with_int(DHT_SAMPLE_INFOHASHES_INTERVAL, value)
                && *final(self) == *final(p)),
            !(0 <= value <= 21_600) ==> (r matches Err(e) && e@ == (SettingsErrorView {
                setting: "dht_sample_infohashes_interval"@,
                message: range_message(value, 0, 21_600),
            }) && *final(self) == *old(self)),
    {
        match in_range("dht_sample_infohashes_interval", value, 0, 21_600) {
            Ok(()) => {},
            Err(e) => return Err(e),
        }
        self.put_int(DHT_SAMPLE_INFOHASHES_INTERVAL, value);
        Ok(self)
    }

    /// Reads `dht_sample_infohashes_interval` if set in this pack.
    pub fn get_dht_sample_infohashes_interval(&self) -> (r: Option<i32>)
        requires
            self.wf(),
        ensures
            r == self@.int_at(DHT_SAMPLE_INFOHASHES_INTERVAL),
    {
        self.int_at(DHT_SAMPLE_INFOHASHES_INTERVAL)
    }

    /// Max elements in the sampled info-hashes subset; storage
    /// implementations may clamp it so UDP packets fit.
    pub fn dht_max_infohashes_sample_count(&mut self, value: i32) -> (r: &mut Self)
        requires
            old(self).wf(),
        ensures
            r.wf(),
            r@ == old(self)@.with_int(DHT_MAX_INFOHASHES_SAMPLE_COUNT, value),
            *final(self) == *final(r),
    {
        self.put_int(DHT_MAX_INFOHASHES_SAMPLE_COUNT, value);
        self
    }

    /// Reads `dht_max_infohashes_sample_count` if set in this pack.
    pub fn get_dht_max_infohashes_sample_count(&self) -> (r: Option<i32>)
        requires
            self.wf(),
        ensures
            r == self@.int_at(DHT_MAX_INFOHASHES_SAMPLE_COUNT),
    {
        self.int_at(DHT_MAX_INFOHASHES_SAMPLE_COUNT)
    }

    /// NAT-PMP and PCP port-mapping lease duration, in seconds.
    pub fn natpmp_lease_duration(&mut self, value: i32) -> (r: &mut Self)
        requires
            old(self).wf(),
        ensures
            r.wf(),
            r@ == old(self)@.with_int(NATPMP_LEASE_DURATION, value),
            *final(self) == *final(r),
    {
        self.put_int(NATPMP_LEASE_DURATION, value);
        self
    }

    /// Reads `natpmp_lease_duration` if set in this pack.
    pub fn get_natpmp_lease_duration(&self) -> (r: Option<i32>)
        requires
            self.wf(),
        ensures
            r == self@.int_at(NATPMP_LEASE_DURATION),
    {
        self.int_at(NATPMP_LEASE_DURATION)
    }
}

} // verus!
