//! Trackers, announces, scraping and queueing.

use vstd::prelude::*;

use crate::settings::error::{in_range, range_message, SettingsError, SettingsErrorView};
use crate::settings::table::{ACTIVE_CHECKING, ACTIVE_DHT_LIMIT, ACTIVE_DOWNLOADS, ACTIVE_LIMIT, ACTIVE_LSD_LIMIT, ACTIVE_SEEDS, ACTIVE_TRACKER_LIMIT, ALLOW_IDNA, ALWAYS_SEND_USER_AGENT, ANNOUNCE_CRYPTO_SUPPORT, ANNOUNCE_IP, ANNOUNCE_PORT, ANNOUNCE_TO_ALL_TIERS, ANNOUNCE_TO_ALL_TRACKERS, APPLY_IP_FILTER_TO_TRACKERS, AUTO_MANAGE_INTERVAL, AUTO_MANAGE_PREFER_SEEDS, AUTO_MANAGE_STARTUP, AUTO_SCRAPE_INTERVAL, AUTO_SCRAPE_MIN_INTERVAL, DONT_COUNT_SLOW_TORRENTS, HANDSHAKE_CLIENT_VERSION, INCOMING_STARTS_QUEUED_TORRENTS, MAX_CONCURRENT_HTTP_ANNOUNCES, MAX_HTTP_RECV_BUFFER_SIZE, MIN_ANNOUNCE_INTERVAL, NUM_WANT, PREFER_UDP_TRACKERS, SEED_TIME_LIMIT, SEED_TIME_RATIO_LIMIT, SHARE_RATIO_LIMIT, SSRF_MITIGATION, STOP_TRACKER_TIMEOUT, TRACKER_BACKOFF, TRACKER_COMPLETION_TIMEOUT, TRACKER_RECEIVE_TIMEOUT, UDP_TRACKER_TOKEN_EXPIRY, USER_AGENT, VALIDATE_HTTPS_TRACKERS};
use crate::settings::{opt_str_view, SettingsPack};

verus! {

impl SettingsPack {
    /// Client identification sent to trackers (and in extended headers
    /// to peers), conventionally "name/version". Must not contain \r
    /// or \n.
    pub fn user_agent(&mut self, value: &str) -> (r: &mut Self)
        requires
            old(self).wf(),
        ensures
            r.wf(),
            r@ == old(self)@.with_str(USER_AGENT, value@),
            *final(self) == *final(r),
    {
        self.put_str(USER_AGENT, value);
        self
    }

    /// Reads `user_agent` if set in this pack.
    pub fn get_user_agent(&self) -> (r: Option<String>)
        requires
            self.wf(),
        ensures
            opt_str_view(r) == self@.str_at(USER_AGENT),
    {
        self.str_at(USER_AGENT)
    }

    /// IP address sent to trackers as the `&ip=` parameter; empty
    /// (default) omits it. Only useful when the seed runs on the
    /// tracker's host and the tracker accepts the parameter, which
    /// normal trackers don't.
    pub fn announce_ip(&mut self, value: &str) -> (r: &mut Self)
        requires
            old(self).wf(),
        ensures
            r.wf(),
            r@ == old(self)@.with_str(ANNOUNCE_IP, value@),
            *final(self) == *final(r),
    {
        self.put_str(ANNOUNCE_IP, value);
        self
    }

    /// Reads `announce_ip` if set in this pack.
    pub fn get_announce_ip(&self) -> (r: Option<String>)
        requires
            self.wf(),
        ensures
            opt_str_view(r) == self@.str_at(ANNOUNCE_IP),
    {
        self.str_at(ANNOUNCE_IP)
    }

    /// Client name/version sent to peers in the handshake (UTF-8);
    /// empty falls back to `user_agent`.
    pub fn handshake_client_version(&mut self, value: &str) -> (r: &mut Self)
        requires
            old(self).wf(),
        ensures
            r.wf(),
            r@ == old(self)@.with_str(HANDSHAKE_CLIENT_VERSION, value@),
            *final(self) == *final(r),
    {
        self.put_str(HANDSHAKE_CLIENT_VERSION, value);
        self
    }

    /// Reads `handshake_client_version` if set in this pack.
    pub fn get_handshake_client_version(&self) -> (r: Option<String>)
        requires
            self.wf(),
        ensures
            opt_str_view(r) == self@.str_at(HANDSHAKE_CLIENT_VERSION),
    {
        self.str_at(HANDSHAKE_CLIENT_VERSION)
    }

    /// Prefers seeding torrents over downloading ones when handing out
    /// active slots.
    pub fn auto_manage_prefer_seeds(&mut self, value: bool) -> (r: &mut Self)
        requires
            old(self).wf(),
        ensures
            r.wf(),
            r@ == old(self)@.with_bool(AUTO_MANAGE_PREFER_SEEDS, value),
            *final(self) == *final(r),
    {
        self.put_bool(AUTO_MANAGE_PREFER_SEEDS, value);
        self
    }

    /// Reads `auto_manage_prefer_seeds` if set in this pack.
    pub fn get_auto_manage_prefer_seeds(&self) -> (r: Option<bool>)
        requires
            self.wf(),
        ensures
            r == self@.bool_at(AUTO_MANAGE_PREFER_SEEDS),
    {
        self.bool_at(AUTO_MANAGE_PREFER_SEEDS)
    }

    /// Exempts torrents without payload transfer from the
    /// `active_seeds`/`active_downloads` limits, so idle torrents do
    /// not block the active slots.
    pub fn dont_count_slow_torrents(&mut self, value: bool) -> (r: &mut Self)
        requires
            old(self).wf(),
        ensures
            r.wf(),
            r@ == old(self)@.with_bool(DONT_COUNT_SLOW_TORRENTS, value),
            *final(self) == *final(r),
    {
        self.put_bool(DONT_COUNT_SLOW_TORRENTS, value);
        self
    }

    /// Reads `dont_count_slow_torrents` if set in this pack.
    pub fn get_dont_count_slow_torrents(&self) -> (r: Option<bool>)
        requires
            self.wf(),
        ensures
            r == self@.bool_at(DONT_COUNT_SLOW_TORRENTS),
    {
        self.bool_at(DONT_COUNT_SLOW_TORRENTS)
    }

    /// Multi-tracker behavior: `announce_to_all_trackers` announces to
    /// every tracker in the active tier in parallel;
    /// `announce_to_all_tiers` announces to one tracker of each tier
    /// (uTorrent behavior). Both false follows the multi-tracker
    /// specification.
    pub fn announce_to_all_tiers(&mut self, value: bool) -> (r: &mut Self)
        requires
            old(self).wf(),
        ensures
            r.wf(),
            r@ == old(self)@.with_bool(ANNOUNCE_TO_ALL_TIERS, value),
            *final(self) == *final(r),
    {
        self.put_bool(ANNOUNCE_TO_ALL_TIERS, value);
        self
    }

    /// Reads `announce_to_all_tiers` if set in this pack.
    pub fn get_announce_to_all_tiers(&self) -> (r: Option<bool>)
        requires
            self.wf(),
        ensures
            r == self@.bool_at(ANNOUNCE_TO_ALL_TIERS),
    {
        self.bool_at(ANNOUNCE_TO_ALL_TIERS)
    }

    pub fn announce_to_all_trackers(&mut self, value: bool) -> (r: &mut Self)
        requires
            old(self).wf(),
        ensures
            r.wf(),
            r@ == old(self)@.with_bool(ANNOUNCE_TO_ALL_TRACKERS, value),
            *final(self) == *final(r),
    {
        self.put_bool(ANNOUNCE_TO_ALL_TRACKERS, value);
        self
    }

    /// Reads `announce_to_all_trackers` if set in this pack.
    pub fn get_announce_to_all_trackers(&self) -> (r: Option<bool>)
        requires
            self.wf(),
        ensures
            r == self@.bool_at(ANNOUNCE_TO_ALL_TRACKERS),
    {
        self.bool_at(ANNOUNCE_TO_ALL_TRACKERS)
    }

    /// Tries a hostname's UDP trackers before its HTTP ones; false
    /// respects tier order with no protocol preference.
    pub fn prefer_udp_trackers(&mut self, value: bool) -> (r: &mut Self)
        requires
            old(self).wf(),
        ensures
            r.wf(),
            r@ == old(self)@.with_bool(PREFER_UDP_TRACKERS, value),
            *final(self) == *final(r),
    {
        self.put_bool(PREFER_UDP_TRACKERS, value);
        self
    }

    /// Reads `prefer_udp_trackers` if set in this pack.
    pub fn get_prefer_udp_trackers(&self) -> (r: Option<bool>)
        requires
            self.wf(),
        ensures
            r == self@.bool_at(PREFER_UDP_TRACKERS),
    {
        self.bool_at(PREFER_UDP_TRACKERS)
    }

    /// Starts an auto-managed torrent that was queued (paused) by the
    /// queueing mechanism when a peer connects to it, instead of
    /// leaving it queued.
    pub fn incoming_starts_queued_torrents(&mut self, value: bool) -> (r: &mut Self)
        requires
            old(self).wf(),
        ensures
            r.wf(),
            r@ == old(self)@.with_bool(INCOMING_STARTS_QUEUED_TORRENTS, value),
            *final(self) == *final(r),
    {
        self.put_bool(INCOMING_STARTS_QUEUED_TORRENTS, value);
        self
    }

    /// Reads `incoming_starts_queued_torrents` if set in this pack.
    pub fn get_incoming_starts_queued_torrents(&self) -> (r: Option<bool>)
        requires
            self.wf(),
        ensures
            r == self@.bool_at(INCOMING_STARTS_QUEUED_TORRENTS),
    {
        self.bool_at(INCOMING_STARTS_QUEUED_TORRENTS)
    }

    /// Sends the user-agent in every web seed request rather than only
    /// the first per HTTP connection.
    pub fn always_send_user_agent(&mut self, value: bool) -> (r: &mut Self)
        requires
            old(self).wf(),
        ensures
            r.wf(),
            r@ == old(self)@.with_bool(ALWAYS_SEND_USER_AGENT, value),
            *final(self) == *final(r),
    {
        self.put_bool(ALWAYS_SEND_USER_AGENT, value);
        self
    }

    /// Reads `always_send_user_agent` if set in this pack.
    pub fn get_always_send_user_agent(&self) -> (r: Option<bool>)
        requires
            self.wf(),
        ensures
            r == self@.bool_at(ALWAYS_SEND_USER_AGENT),
    {
        self.bool_at(ALWAYS_SEND_USER_AGENT)
    }

    /// Applies the IP filter (if one is set) to trackers as well as
    /// peers; false exempts trackers.
    pub fn apply_ip_filter_to_trackers(&mut self, value: bool) -> (r: &mut Self)
        requires
            old(self).wf(),
        ensures
            r.wf(),
            r@ == old(self)@.with_bool(APPLY_IP_FILTER_TO_TRACKERS, value),
            *final(self) == *final(r),
    {
        self.put_bool(APPLY_IP_FILTER_TO_TRACKERS, value);
        self
    }

    /// Reads `apply_ip_filter_to_trackers` if set in this pack.
    pub fn get_apply_ip_filter_to_trackers(&self) -> (r: Option<bool>)
        requires
            self.wf(),
        ensures
            r == self@.bool_at(APPLY_IP_FILTER_TO_TRACKERS),
    {
        self.bool_at(APPLY_IP_FILTER_TO_TRACKERS)
    }

    /// Includes `&supportcrypto=1` in HTTP tracker announces when
    /// incoming encrypted connections are enabled.
    pub fn announce_crypto_support(&mut self, value: bool) -> (r: &mut Self)
        requires
            old(self).wf(),
        ensures
            r.wf(),
            r@ == old(self)@.with_bool(ANNOUNCE_CRYPTO_SUPPORT, value),
            *final(self) == *final(r),
    {
        self.put_bool(ANNOUNCE_CRYPTO_SUPPORT, value);
        self
    }

    /// Reads `announce_crypto_support` if set in this pack.
    pub fn get_announce_crypto_support(&self) -> (r: Option<bool>)
        requires
            self.wf(),
        ensures
            r == self@.bool_at(ANNOUNCE_CRYPTO_SUPPORT),
    {
        self.bool_at(ANNOUNCE_CRYPTO_SUPPORT)
    }

    /// Validates certificates of HTTPS trackers, HTTPS web seeds and
    /// wss:// trackers against the system certificate store; may need
    /// disabling on systems without one.
    pub fn validate_https_trackers(&mut self, value: bool) -> (r: &mut Self)
        requires
            old(self).wf(),
        ensures
            r.wf(),
            r@ == old(self)@.with_bool(VALIDATE_HTTPS_TRACKERS, value),
            *final(self) == *final(r),
    {
        self.put_bool(VALIDATE_HTTPS_TRACKERS, value);
        self
    }

    /// Reads `validate_https_trackers` if set in this pack.
    pub fn get_validate_https_trackers(&self) -> (r: Option<bool>)
        requires
            self.wf(),
        ensures
            r == self@.bool_at(VALIDATE_HTTPS_TRACKERS),
    {
        self.bool_at(VALIDATE_HTTPS_TRACKERS)
    }

    /// SSRF mitigations for tracker and web seed requests: loopback
    /// HTTP(S) tracker requests must have a path starting with
    /// "/announce", local-network web seeds may not carry query
    /// strings, and global web seeds may not redirect to local
    /// addresses (redirect targets included).
    pub fn ssrf_mitigation(&mut self, value: bool) -> (r: &mut Self)
        requires
            old(self).wf(),
        ensures
            r.wf(),
            r@ == old(self)@.with_bool(SSRF_MITIGATION, value),
            *final(self) == *final(r),
    {
        self.put_bool(SSRF_MITIGATION, value);
        self
    }

    /// Reads `ssrf_mitigation` if set in this pack.
    pub fn get_ssrf_mitigation(&self) -> (r: Option<bool>)
        requires
            self.wf(),
        ensures
            r == self@.bool_at(SSRF_MITIGATION),
    {
        self.bool_at(SSRF_MITIGATION)
    }

    /// When false, trackers and web seeds with internationalized
    /// (IDNA) hostnames are ignored, avoiding unicode-encoding
    /// attacks.
    pub fn allow_idna(&mut self, value: bool) -> (r: &mut Self)
        requires
            old(self).wf(),
        ensures
            r.wf(),
            r@ == old(self)@.with_bool(ALLOW_IDNA, value),
            *final(self) == *final(r),
    {
        self.put_bool(ALLOW_IDNA, value);
        self
    }

    /// Reads `allow_idna` if set in this pack.
    pub fn get_allow_idna(&self) -> (r: Option<bool>)
        requires
            self.wf(),
        ensures
            r == self@.bool_at(ALLOW_IDNA),
    {
        self.bool_at(ALLOW_IDNA)
    }

    /// Seconds from sending a tracker request until it is considered
    /// timed out.
    ///
    /// Accepts `1..=i32::MAX`.
    pub fn tracker_completion_timeout(&mut self, value: i32) -> (r: Result<&mut Self, SettingsError>)
        requires
            old(self).wf(),
        ensures
            1 <= value <= i32::MAX ==> (r matches Ok(p) && p.wf() && p@ == old(self)@.with_int(TRACKER_COMPLETION_TIMEOUT, value)
                && *final(self) == *final(p)),
            !(1 <= value <= i32::MAX) ==> (r matches Err(e) && e@ == (SettingsErrorView {
                setting: "tracker_completion_timeout"@,
                message: range_message(value, 1, i32::MAX),
            }) && *final(self) == *old(self)),
    {
        match in_range("tracker_completion_timeout", value, 1, i32::MAX) {
            Ok(()) => {},
            Err(e) => return Err(e),
        }
        self.put_int(TRACKER_COMPLETION_TIMEOUT, value);
        Ok(self)
    }

    /// Reads `tracker_completion_timeout` if set in this pack.
    pub fn get_tracker_completion_timeout(&self) -> (r: Option<i32>)
        requires
            self.wf(),
        ensures
            r == self@.int_at(TRACKER_COMPLETION_TIMEOUT),
    {
        self.int_at(TRACKER_COMPLETION_TIMEOUT)
    }

    /// Seconds without receiving any tracker data before timing out —
    /// the timeout that fires when a tracker is down.
    ///
    /// Accepts `1..=i32::MAX`.
    pub fn tracker_receive_timeout(&mut self, value: i32) -> (r: Result<&mut Self, SettingsError>)
        requires
            old(self).wf(),
        ensures
            1 <= value <= i32::MAX ==> (r matches Ok(p) && p.wf() && p@ == old(self)@.with_int(TRACKER_RECEIVE_TIMEOUT, value)
                && *final(self) == *final(p)),
            !(1 <= value <= i32::MAX) ==> (r matches Err(e) && e@ == (SettingsErrorView {
                setting: "tracker_receive_timeout"@,
                message: range_message(value, 1, i32::MAX),
            }) && *final(self) == *old(self)),
    {
        match in_range("tracker_receive_timeout", value, 1, i32::MAX) {
            Ok(()) => {},
            Err(e) => return Err(e),
        }
        self.put_int(TRACKER_RECEIVE_TIMEOUT, value);
        Ok(self)
    }

    /// Reads `tracker_receive_timeout` if set in this pack.
    pub fn get_tracker_receive_timeout(&self) -> (r: Option<i32>)
        requires
            self.wf(),
        ensures
            r == self@.int_at(TRACKER_RECEIVE_TIMEOUT),
    {
        self.int_at(TRACKER_RECEIVE_TIMEOUT)
    }

    /// Seconds to wait on a `stopped` announce before timing out;
    /// usually shorter so the client quits faster. 0 suppresses
    /// `stopped` announces entirely.
    pub fn stop_tracker_timeout(&mut self, value: i32) -> (r: &mut Self)
        requires
            old(self).wf(),
        ensures
            r.wf(),
            r@ == old(self)@.with_int(STOP_TRACKER_TIMEOUT, value),
            *final(self) == *final(r),
    {
        self.put_int(STOP_TRACKER_TIMEOUT, value);
        self
    }

    /// Reads `stop_tracker_timeout` if set in this pack.
    pub fn get_stop_tracker_timeout(&self) -> (r: Option<i32>)
        requires
            self.wf(),
        ensures
            r == self@.int_at(STOP_TRACKER_TIMEOUT),
    {
        self.int_at(STOP_TRACKER_TIMEOUT)
    }

    /// Number of peers requested from each tracker (the `&num_want=`
    /// parameter).
    pub fn num_want(&mut self, value: i32) -> (r: &mut Self)
        requires
            old(self).wf(),
        ensures
            r.wf(),
            r@ == old(self)@.with_int(NUM_WANT, value),
            *final(self) == *final(r),
    {
        self.put_int(NUM_WANT, value);
        self
    }

    /// Reads `num_want` if set in this pack.
    pub fn get_num_want(&self) -> (r: Option<i32>)
        requires
            self.wf(),
        ensures
            r == self@.int_at(NUM_WANT),
    {
        self.int_at(NUM_WANT)
    }

    /// Queue limits for auto-managed torrents; excess torrents are
    /// paused until slots free up. `active_downloads` and
    /// `active_seeds` cap downloading and seeding torrents (target is
    /// min(active_downloads + active_seeds, active_limit));
    /// `active_checking` caps simultaneous checking torrents;
    /// `active_limit` is a hard cap on all active auto-managed
    /// torrents; `active_dht_limit`, `active_tracker_limit` and
    /// `active_lsd_limit` cap how many torrents announce to the DHT,
    /// trackers and LSD respectively. -1 means unlimited.
    /// Non-auto-managed torrents are not counted.
    pub fn active_downloads(&mut self, value: i32) -> (r: &mut Self)
        requires
            old(self).wf(),
        ensures
            r.wf(),
            r@ == old(self)@.with_int(ACTIVE_DOWNLOADS, value),
            *final(self) == *final(r),
    {
        self.put_int(ACTIVE_DOWNLOADS, value);
        self
    }

    /// Reads `active_downloads` if set in this pack.
    pub fn get_active_downloads(&self) -> (r: Option<i32>)
        requires
            self.wf(),
        ensures
            r == self@.int_at(ACTIVE_DOWNLOADS),
    {
        self.int_at(ACTIVE_DOWNLOADS)
    }

    pub fn active_seeds(&mut self, value: i32) -> (r: &mut Self)
        requires
            old(self).wf(),
        ensures
            r.wf(),
            r@ == old(self)@.with_int(ACTIVE_SEEDS, value),
            *final(self) == *final(r),
    {
        self.put_int(ACTIVE_SEEDS, value);
        self
    }

    /// Reads `active_seeds` if set in this pack.
    pub fn get_active_seeds(&self) -> (r: Option<i32>)
        requires
            self.wf(),
        ensures
            r == self@.int_at(ACTIVE_SEEDS),
    {
        self.int_at(ACTIVE_SEEDS)
    }

    pub fn active_checking(&mut self, value: i32) -> (r: &mut Self)
        requires
            old(self).wf(),
        ensures
            r.wf(),
            r@ == old(self)@.with_int(ACTIVE_CHECKING, value),
            *final(self) == *final(r),
    {
        self.put_int(ACTIVE_CHECKING, value);
        self
    }

    /// Reads `active_checking` if set in this pack.
    pub fn get_active_checking(&self) -> (r: Option<i32>)
        requires
            self.wf(),
        ensures
            r == self@.int_at(ACTIVE_CHECKING),
    {
        self.int_at(ACTIVE_CHECKING)
    }

    pub fn active_dht_limit(&mut self, value: i32) -> (r: &mut Self)
        requires
            old(self).wf(),
        ensures
            r.wf(),
            r@ == old(self)@.with_int(ACTIVE_DHT_LIMIT, value),
            *final(self) == *final(r),
    {
        self.put_int(ACTIVE_DHT_LIMIT, value);
        self
    }

    /// Reads `active_dht_limit` if set in this pack.
    pub fn get_active_dht_limit(&self) -> (r: Option<i32>)
        requires
            self.wf(),
        ensures
            r == self@.int_at(ACTIVE_DHT_LIMIT),
    {
        self.int_at(ACTIVE_DHT_LIMIT)
    }

    pub fn active_tracker_limit(&mut self, value: i32) -> (r: &mut Self)
        requires
            old(self).wf(),
        ensures
            r.wf(),
            r@ == old(self)@.with_int(ACTIVE_TRACKER_LIMIT, value),
            *final(self) == *final(r),
    {
        self.put_int(ACTIVE_TRACKER_LIMIT, value);
        self
    }

    /// Reads `active_tracker_limit` if set in this pack.
    pub fn get_active_tracker_limit(&self) -> (r: Option<i32>)
        requires
            self.wf(),
        ensures
            r == self@.int_at(ACTIVE_TRACKER_LIMIT),
    {
        self.int_at(ACTIVE_TRACKER_LIMIT)
    }

    pub fn active_lsd_limit(&mut self, value: i32) -> (r: &mut Self)
        requires
            old(self).wf(),
        ensures
            r.wf(),
            r@ == old(self)@.with_int(ACTIVE_LSD_LIMIT, value),
            *final(self) == *final(r),
    {
        self.put_int(ACTIVE_LSD_LIMIT, value);
        self
    }

    /// Reads `active_lsd_limit` if set in this pack.
    pub fn get_active_lsd_limit(&self) -> (r: Option<i32>)
        requires
            self.wf(),
        ensures
            r == self@.int_at(ACTIVE_LSD_LIMIT),
    {
        self.int_at(ACTIVE_LSD_LIMIT)
    }

    pub fn active_limit(&mut self, value: i32) -> (r: &mut Self)
        requires
            old(self).wf(),
        ensures
            r.wf(),
            r@ == old(self)@.with_int(ACTIVE_LIMIT, value),
            *final(self) == *final(r),
    {
        self.put_int(ACTIVE_LIMIT, value);
        self
    }

    /// Reads `active_limit` if set in this pack.
    pub fn get_active_limit(&self) -> (r: Option<i32>)
        requires
            self.wf(),
        ensures
            r == self@.int_at(ACTIVE_LIMIT),
    {
        self.int_at(ACTIVE_LIMIT)
    }

    /// Seconds between updates/rotations of the torrent queue.
    pub fn auto_manage_interval(&mut self, value: i32) -> (r: &mut Self)
        requires
            old(self).wf(),
        ensures
            r.wf(),
            r@ == old(self)@.with_int(AUTO_MANAGE_INTERVAL, value),
            *final(self) == *final(r),
    {
        self.put_int(AUTO_MANAGE_INTERVAL, value);
        self
    }

    /// Reads `auto_manage_interval` if set in this pack.
    pub fn get_auto_manage_interval(&self) -> (r: Option<i32>)
        requires
            self.wf(),
        ensures
            r == self@.int_at(AUTO_MANAGE_INTERVAL),
    {
        self.int_at(AUTO_MANAGE_INTERVAL)
    }

    /// Seconds a torrent may be an active seed before it is considered
    /// to have met the seed-limit criteria.
    pub fn seed_time_limit(&mut self, value: i32) -> (r: &mut Self)
        requires
            old(self).wf(),
        ensures
            r.wf(),
            r@ == old(self)@.with_int(SEED_TIME_LIMIT, value),
            *final(self) == *final(r),
    {
        self.put_int(SEED_TIME_LIMIT, value);
        self
    }

    /// Reads `seed_time_limit` if set in this pack.
    pub fn get_seed_time_limit(&self) -> (r: Option<i32>)
        requires
            self.wf(),
        ensures
            r == self@.int_at(SEED_TIME_LIMIT),
    {
        self.int_at(SEED_TIME_LIMIT)
    }

    /// Seconds between scrapes of queued (auto-managed, paused)
    /// torrents, tracking their downloader/seed ratio for queueing
    /// decisions; `auto_scrape_min_interval` is the global minimum
    /// interval between any two automatic scrapes.
    pub fn auto_scrape_interval(&mut self, value: i32) -> (r: &mut Self)
        requires
            old(self).wf(),
        ensures
            r.wf(),
            r@ == old(self)@.with_int(AUTO_SCRAPE_INTERVAL, value),
            *final(self) == *final(r),
    {
        self.put_int(AUTO_SCRAPE_INTERVAL, value);
        self
    }

    /// Reads `auto_scrape_interval` if set in this pack.
    pub fn get_auto_scrape_interval(&self) -> (r: Option<i32>)
        requires
            self.wf(),
        ensures
            r == self@.int_at(AUTO_SCRAPE_INTERVAL),
    {
        self.int_at(AUTO_SCRAPE_INTERVAL)
    }

    pub fn auto_scrape_min_interval(&mut self, value: i32) -> (r: &mut Self)
        requires
            old(self).wf(),
        ensures
            r.wf(),
            r@ == old(self)@.with_int(AUTO_SCRAPE_MIN_INTERVAL, value),
            *final(self) == *final(r),
    {
        self.put_int(AUTO_SCRAPE_MIN_INTERVAL, value);
        self
    }

    /// Reads `auto_scrape_min_interval` if set in this pack.
    pub fn get_auto_scrape_min_interval(&self) -> (r: Option<i32>)
        requires
            self.wf(),
        ensures
            r == self@.int_at(AUTO_SCRAPE_MIN_INTERVAL),
    {
        self.int_at(AUTO_SCRAPE_MIN_INTERVAL)
    }

    /// Minimum announce interval (seconds) honored from a tracker
    /// response, mitigating hammering of mis-configured trackers.
    pub fn min_announce_interval(&mut self, value: i32) -> (r: &mut Self)
        requires
            old(self).wf(),
        ensures
            r.wf(),
            r@ == old(self)@.with_int(MIN_ANNOUNCE_INTERVAL, value),
            *final(self) == *final(r),
    {
        self.put_int(MIN_ANNOUNCE_INTERVAL, value);
        self
    }

    /// Reads `min_announce_interval` if set in this pack.
    pub fn get_min_announce_interval(&self) -> (r: Option<i32>)
        requires
            self.wf(),
        ensures
            r == self@.int_at(MIN_ANNOUNCE_INTERVAL),
    {
        self.int_at(MIN_ANNOUNCE_INTERVAL)
    }

    /// Seconds a newly started torrent counts as active regardless of
    /// transfer rate, giving it a fair chance to start downloading.
    pub fn auto_manage_startup(&mut self, value: i32) -> (r: &mut Self)
        requires
            old(self).wf(),
        ensures
            r.wf(),
            r@ == old(self)@.with_int(AUTO_MANAGE_STARTUP, value),
            *final(self) == *final(r),
    {
        self.put_int(AUTO_MANAGE_STARTUP, value);
        self
    }

    /// Reads `auto_manage_startup` if set in this pack.
    pub fn get_auto_manage_startup(&self) -> (r: Option<i32>)
        requires
            self.wf(),
        ensures
            r == self@.int_at(AUTO_MANAGE_STARTUP),
    {
        self.int_at(AUTO_MANAGE_STARTUP)
    }

    /// Seconds UDP tracker connection tokens are kept. The protocol
    /// specifies 60; higher values save packets but only work if the
    /// tracker's expiry matches.
    pub fn udp_tracker_token_expiry(&mut self, value: i32) -> (r: &mut Self)
        requires
            old(self).wf(),
        ensures
            r.wf(),
            r@ == old(self)@.with_int(UDP_TRACKER_TOKEN_EXPIRY, value),
            *final(self) == *final(r),
    {
        self.put_int(UDP_TRACKER_TOKEN_EXPIRY, value);
        self
    }

    /// Reads `udp_tracker_token_expiry` if set in this pack.
    pub fn get_udp_tracker_token_expiry(&self) -> (r: Option<i32>)
        requires
            self.wf(),
        ensures
            r == self@.int_at(UDP_TRACKER_TOKEN_EXPIRY),
    {
        self.int_at(UDP_TRACKER_TOKEN_EXPIRY)
    }

    /// Backoff aggressiveness for retrying failing trackers: the retry
    /// delay in seconds is `5 + 5 * x / 100 * fails^2`, with this
    /// setting as x.
    ///
    /// Accepts `0..=26_630`.
    pub fn tracker_backoff(&mut self, value: i32) -> (r: Result<&mut Self, SettingsError>)
        requires
            old(self).wf(),
        ensures
            0 <= value <= 26_630 ==> (r matches Ok(p) && p.wf() && p@ == old(self)@.with_int(TRACKER_BACKOFF, value)
                && *final(self) == *final(p)),
            !(0 <= value <= 26_630) ==> (r matches Err(e) && e@ == (SettingsErrorView {
                setting: "tracker_backoff"@,
                message: range_message(value, 0, 26_630),
            }) && *final(self) == *old(self)),
    {
        match in_range("tracker_backoff", value, 0, 26_630) {
            Ok(()) => {},
            Err(e) => return Err(e),
        }
        self.put_int(TRACKER_BACKOFF, value);
        Ok(self)
    }

    /// Reads `tracker_backoff` if set in this pack.
    pub fn get_tracker_backoff(&self) -> (r: Option<i32>)
        requires
            self.wf(),
        ensures
            r == self@.int_at(TRACKER_BACKOFF),
    {
        self.int_at(TRACKER_BACKOFF)
    }

    /// A seeding torrent reaching the share ratio (up/down), seed time
    /// ratio (time seeding / time downloading) or seed time limit is
    /// considered done and loses seeding priority (it may still seed).
    /// Ratios are in percent.
    pub fn share_ratio_limit(&mut self, value: i32) -> (r: &mut Self)
        requires
            old(self).wf(),
        ensures
            r.wf(),
            r@ == old(self)@.with_int(SHARE_RATIO_LIMIT, value),
            *final(self) == *final(r),
    {
        self.put_int(SHARE_RATIO_LIMIT, value);
        self
    }

    /// Reads `share_ratio_limit` if set in this pack.
    pub fn get_share_ratio_limit(&self) -> (r: Option<i32>)
        requires
            self.wf(),
        ensures
            r == self@.int_at(SHARE_RATIO_LIMIT),
    {
        self.int_at(SHARE_RATIO_LIMIT)
    }

    pub fn seed_time_ratio_limit(&mut self, value: i32) -> (r: &mut Self)
        requires
            old(self).wf(),
        ensures
            r.wf(),
            r@ == old(self)@.with_int(SEED_TIME_RATIO_LIMIT, value),
            *final(self) == *final(r),
    {
        self.put_int(SEED_TIME_RATIO_LIMIT, value);
        self
    }

    /// Reads `seed_time_ratio_limit` if set in this pack.
    pub fn get_seed_time_ratio_limit(&self) -> (r: Option<i32>)
        requires
            self.wf(),
        ensures
            r == self@.int_at(SEED_TIME_RATIO_LIMIT),
    {
        self.int_at(SEED_TIME_RATIO_LIMIT)
    }

    /// Max bytes allowed in an HTTP response when announcing to
    /// trackers or downloading .torrent files by URL.
    pub fn max_http_recv_buffer_size(&mut self, value: i32) -> (r: &mut Self)
        requires
            old(self).wf(),
        ensures
            r.wf(),
            r@ == old(self)@.with_int(MAX_HTTP_RECV_BUFFER_SIZE, value),
            *final(self) == *final(r),
    {
        self.put_int(MAX_HTTP_RECV_BUFFER_SIZE, value);
        self
    }

    /// Reads `max_http_recv_buffer_size` if set in this pack.
    pub fn get_max_http_recv_buffer_size(&self) -> (r: Option<i32>)
        requires
            self.wf(),
        ensures
            r == self@.int_at(MAX_HTTP_RECV_BUFFER_SIZE),
    {
        self.int_at(MAX_HTTP_RECV_BUFFER_SIZE)
    }

    /// Once the limit is hit, tracker requests are queued and issued
    /// when an outstanding announce completes.
    ///
    /// Accepts `1..=i32::MAX`.
    pub fn max_concurrent_http_announces(&mut self, value: i32) -> (r: Result<&mut Self, SettingsError>)
        requires
            old(self).wf(),
        ensures
            1 <= value <= i32::MAX ==> (r matches Ok(p) && p.wf() && p@ == old(self)@.with_int(MAX_CONCURRENT_HTTP_ANNOUNCES, value)
                && *final(self) == *final(p)),
            !(1 <= value <= i32::MAX) ==> (r matches Err(e) && e@ == (SettingsErrorView {
                setting: "max_concurrent_http_announces"@,
                message: range_message(value, 1, i32::MAX),
            }) && *final(self) == *old(self)),
    {
        match in_range("max_concurrent_http_announces", value, 1, i32::MAX) {
            Ok(()) => {},
            Err(e) => return Err(e),
        }
        self.put_int(MAX_CONCURRENT_HTTP_ANNOUNCES, value);
        Ok(self)
    }

    /// Reads `max_concurrent_http_announces` if set in this pack.
    pub fn get_max_concurrent_http_announces(&self) -> (r: Option<i32>)
        requires
            self.wf(),
        ensures
            r == self@.int_at(MAX_CONCURRENT_HTTP_ANNOUNCES),
    {
        self.int_at(MAX_CONCURRENT_HTTP_ANNOUNCES)
    }

    /// Port reported to trackers (HTTP `port` parameter and DHT)
    /// instead of the actual listening port; 0 (default) reports the
    /// listening port. Only for setups where the externally reachable
    /// port differs, e.g. a reverse tunnel through NAT-PMP. Does not
    /// affect the listening port or LSD announcements.
    pub fn announce_port(&mut self, value: u16) -> (r: &mut Self)
        requires
            old(self).wf(),
        ensures
            r.wf(),
            r@ == old(self)@.with_int(ANNOUNCE_PORT, value as i32),
            *final(self) == *final(r),
    {
        self.put_int(ANNOUNCE_PORT, value as i32);
        self
    }

    /// Reads `announce_port` if set in this pack.
    pub fn get_announce_port(&self) -> (r: Option<i32>)
        requires
            self.wf(),
        ensures
            r == self@.int_at(ANNOUNCE_PORT),
    {
        self.int_at(ANNOUNCE_PORT)
    }
}

} // verus!
