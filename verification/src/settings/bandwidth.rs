//! Bandwidth and rate limits, choking, send buffers and uTP
//! congestion control.

use vstd::prelude::*;

use crate::settings::enums::{BandwidthMixedAlgo, ChokingAlgorithm, SeedChokingAlgorithm, bandwidth_mixed_algo_code, bandwidth_mixed_algo_of_code, choking_algorithm_code, choking_algorithm_of_code, seed_choking_algorithm_code, seed_choking_algorithm_of_code};
use crate::settings::error::{in_range, range_message, SettingsError, SettingsErrorView};
use crate::settings::table::{CHOKING_ALGORITHM, DOWNLOAD_RATE_LIMIT, INACTIVE_DOWN_RATE, INACTIVE_UP_RATE, MIXED_MODE_ALGORITHM, NUM_OPTIMISTIC_UNCHOKE_SLOTS, OPTIMISTIC_UNCHOKE_INTERVAL, RATE_CHOKER_INITIAL_THRESHOLD, RATE_LIMIT_IP_OVERHEAD, SEED_CHOKING_ALGORITHM, SEND_BUFFER_LOW_WATERMARK, SEND_BUFFER_WATERMARK, SEND_BUFFER_WATERMARK_FACTOR, SEND_NOT_SENT_LOW_WATERMARK, UNCHOKE_INTERVAL, UNCHOKE_SLOTS_LIMIT, UPLOAD_RATE_LIMIT, UTP_CONNECT_TIMEOUT, UTP_CWND_REDUCE_TIMER, UTP_FIN_RESENDS, UTP_GAIN_FACTOR, UTP_LOSS_MULTIPLIER, UTP_MIN_TIMEOUT, UTP_NUM_RESENDS, UTP_SYN_RESENDS, UTP_TARGET_DELAY};
use crate::settings::{opt_str_view, SettingsPack};

verus! {

impl SettingsPack {
    /// Count estimated TCP/IP overhead against the rate limiters, so the
    /// total traffic stays within the limits.
    pub fn rate_limit_ip_overhead(&mut self, value: bool) -> (r: &mut Self)
        requires
            old(self).wf(),
        ensures
            r.wf(),
            r@ == old(self)@.with_bool(RATE_LIMIT_IP_OVERHEAD, value),
            *final(self) == *final(r),
    {
        self.put_bool(RATE_LIMIT_IP_OVERHEAD, value);
        self
    }

    /// Reads `rate_limit_ip_overhead` if set in this pack.
    pub fn get_rate_limit_ip_overhead(&self) -> (r: Option<bool>)
        requires
            self.wf(),
        ensures
            r == self@.bool_at(RATE_LIMIT_IP_OVERHEAD),
    {
        self.bool_at(RATE_LIMIT_IP_OVERHEAD)
    }

    /// Seconds between peer choke/unchoke re-evaluations. The protocol
    /// defines 30; it should stay well above TCP ramp-up time.
    pub fn unchoke_interval(&mut self, value: i32) -> (r: &mut Self)
        requires
            old(self).wf(),
        ensures
            r.wf(),
            r@ == old(self)@.with_int(UNCHOKE_INTERVAL, value),
            *final(self) == *final(r),
    {
        self.put_int(UNCHOKE_INTERVAL, value);
        self
    }

    /// Reads `unchoke_interval` if set in this pack.
    pub fn get_unchoke_interval(&self) -> (r: Option<i32>)
        requires
            self.wf(),
        ensures
            r == self@.int_at(UNCHOKE_INTERVAL),
    {
        self.int_at(UNCHOKE_INTERVAL)
    }

    /// Seconds between rotations of the optimistically unchoked peer.
    pub fn optimistic_unchoke_interval(&mut self, value: i32) -> (r: &mut Self)
        requires
            old(self).wf(),
        ensures
            r.wf(),
            r@ == old(self)@.with_int(OPTIMISTIC_UNCHOKE_INTERVAL, value),
            *final(self) == *final(r),
    {
        self.put_int(OPTIMISTIC_UNCHOKE_INTERVAL, value);
        self
    }

    /// Reads `optimistic_unchoke_interval` if set in this pack.
    pub fn get_optimistic_unchoke_interval(&self) -> (r: Option<i32>)
        requires
            self.wf(),
        ensures
            r == self@.int_at(OPTIMISTIC_UNCHOKE_INTERVAL),
    {
        self.int_at(OPTIMISTIC_UNCHOKE_INTERVAL)
    }

    /// Minimum send buffer target size in bytes (including bytes pending
    /// disk reads); effectively the initial window that determines how
    /// fast the send rate ramps up. Set it to fit at least a few blocks
    /// for snappy seeding.
    pub fn send_buffer_low_watermark(&mut self, value: i32) -> (r: &mut Self)
        requires
            old(self).wf(),
        ensures
            r.wf(),
            r@ == old(self)@.with_int(SEND_BUFFER_LOW_WATERMARK, value),
            *final(self) == *final(r),
    {
        self.put_int(SEND_BUFFER_LOW_WATERMARK, value);
        self
    }

    /// Reads `send_buffer_low_watermark` if set in this pack.
    pub fn get_send_buffer_low_watermark(&self) -> (r: Option<i32>)
        requires
            self.wf(),
        ensures
            r == self@.int_at(SEND_BUFFER_LOW_WATERMARK),
    {
        self.int_at(SEND_BUFFER_LOW_WATERMARK)
    }

    /// Upper limit of the send buffer, in bytes: when it holds fewer
    /// bytes than this, another 16 kiB block is read onto it. Too small
    /// hurts upload rate; too large wastes memory.
    ///
    /// Accepts `1..=i32::MAX`.
    pub fn send_buffer_watermark(&mut self, value: i32) -> (r: Result<&mut Self, SettingsError>)
        requires
            old(self).wf(),
        ensures
            1 <= value <= i32::MAX ==> (r matches Ok(p) && p.wf() && p@ == old(self)@.with_int(SEND_BUFFER_WATERMARK, value)
                && *final(self) == *final(p)),
            !(1 <= value <= i32::MAX) ==> (r matches Err(e) && e@ == (SettingsErrorView {
                setting: "send_buffer_watermark"@,
                message: range_message(value, 1, i32::MAX),
            }) && *final(self) == *old(self)),
    {
        match in_range("send_buffer_watermark", value, 1, i32::MAX) {
            Ok(()) => {},
            Err(e) => return Err(e),
        }
        self.put_int(SEND_BUFFER_WATERMARK, value);
        Ok(self)
    }

    /// Reads `send_buffer_watermark` if set in this pack.
    pub fn get_send_buffer_watermark(&self) -> (r: Option<i32>)
        requires
            self.wf(),
        ensures
            r == self@.int_at(SEND_BUFFER_WATERMARK),
    {
        self.int_at(SEND_BUFFER_WATERMARK)
    }

    /// Percentage of the current upload rate used as the actual send
    /// buffer watermark, clamped to `send_buffer_watermark`.
    pub fn send_buffer_watermark_factor(&mut self, value: i32) -> (r: &mut Self)
        requires
            old(self).wf(),
        ensures
            r.wf(),
            r@ == old(self)@.with_int(SEND_BUFFER_WATERMARK_FACTOR, value),
            *final(self) == *final(r),
    {
        self.put_int(SEND_BUFFER_WATERMARK_FACTOR, value);
        self
    }

    /// Reads `send_buffer_watermark_factor` if set in this pack.
    pub fn get_send_buffer_watermark_factor(&self) -> (r: Option<i32>)
        requires
            self.wf(),
        ensures
            r == self@.int_at(SEND_BUFFER_WATERMARK_FACTOR),
    {
        self.int_at(SEND_BUFFER_WATERMARK_FACTOR)
    }

    /// Algorithm deciding how many peers to unchoke; among the unchoked,
    /// downloading torrents always favor tit-for-tat. See
    /// `ChokingAlgorithm`.
    pub fn choking_algorithm(&mut self, value: ChokingAlgorithm) -> (r: &mut Self)
        requires
            old(self).wf(),
        ensures
            r.wf(),
            r@ == old(self)@.with_int(CHOKING_ALGORITHM, choking_algorithm_code(value)),
            *final(self) == *final(r),
    {
        self.put_int(CHOKING_ALGORITHM, value.to_raw());
        self
    }

    /// `None` if unset or set to a value these bindings don't know.
    pub fn get_choking_algorithm(&self) -> (r: Option<ChokingAlgorithm>)
        requires
            self.wf(),
        ensures
            r == (match self@.int_at(CHOKING_ALGORITHM) {
                Some(raw) => choking_algorithm_of_code(raw),
                None => None,
            }),
    {
        match self.int_at(CHOKING_ALGORITHM) {
            Some(raw) => ChokingAlgorithm::from_raw(raw),
            None => None,
        }
    }

    /// How peers are selected for unchoking when seeding, where
    /// tit-for-tat does not apply. See `SeedChokingAlgorithm`.
    pub fn seed_choking_algorithm(&mut self, value: SeedChokingAlgorithm) -> (r: &mut Self)
        requires
            old(self).wf(),
        ensures
            r.wf(),
            r@ == old(self)@.with_int(SEED_CHOKING_ALGORITHM, seed_choking_algorithm_code(value)),
            *final(self) == *final(r),
    {
        self.put_int(SEED_CHOKING_ALGORITHM, value.to_raw());
        self
    }

    /// `None` if unset or set to a value these bindings don't know.
    pub fn get_seed_choking_algorithm(&self) -> (r: Option<SeedChokingAlgorithm>)
        requires
            self.wf(),
        ensures
            r == (match self@.int_at(SEED_CHOKING_ALGORITHM) {
                Some(raw) => seed_choking_algorithm_of_code(raw),
                None => None,
            }),
    {
        match self.int_at(SEED_CHOKING_ALGORITHM) {
            Some(raw) => SeedChokingAlgorithm::from_raw(raw),
            None => None,
        }
    }

    /// Number of optimistic unchoke slots; more finds good peers faster
    /// but uses more bandwidth. 0 means automatic (20% of the allowed
    /// upload slots).
    pub fn num_optimistic_unchoke_slots(&mut self, value: u16) -> (r: &mut Self)
        requires
            old(self).wf(),
        ensures
            r.wf(),
            r@ == old(self)@.with_int(NUM_OPTIMISTIC_UNCHOKE_SLOTS, value as i32),
            *final(self) == *final(r),
    {
        self.put_int(NUM_OPTIMISTIC_UNCHOKE_SLOTS, value as i32);
        self
    }

    /// Reads `num_optimistic_unchoke_slots` if set in this pack.
    pub fn get_num_optimistic_unchoke_slots(&self) -> (r: Option<i32>)
        requires
            self.wf(),
        ensures
            r == self@.int_at(NUM_OPTIMISTIC_UNCHOKE_SLOTS),
    {
        self.int_at(NUM_OPTIMISTIC_UNCHOKE_SLOTS)
    }

    /// Session-global upload rate limit, in bytes per second; 0 means
    /// unlimited. Peers on the local network are not rate limited by
    /// default.
    pub fn upload_rate_limit(&mut self, value: i32) -> (r: &mut Self)
        requires
            old(self).wf(),
        ensures
            r.wf(),
            r@ == old(self)@.with_int(UPLOAD_RATE_LIMIT, value),
            *final(self) == *final(r),
    {
        self.put_int(UPLOAD_RATE_LIMIT, value);
        self
    }

    /// Reads `upload_rate_limit` if set in this pack.
    pub fn get_upload_rate_limit(&self) -> (r: Option<i32>)
        requires
            self.wf(),
        ensures
            r == self@.int_at(UPLOAD_RATE_LIMIT),
    {
        self.int_at(UPLOAD_RATE_LIMIT)
    }

    /// Session-global download rate limit, in bytes per second; 0 means
    /// unlimited.
    pub fn download_rate_limit(&mut self, value: i32) -> (r: &mut Self)
        requires
            old(self).wf(),
        ensures
            r.wf(),
            r@ == old(self)@.with_int(DOWNLOAD_RATE_LIMIT, value),
            *final(self) == *final(r),
    {
        self.put_int(DOWNLOAD_RATE_LIMIT, value);
        self
    }

    /// Reads `download_rate_limit` if set in this pack.
    pub fn get_download_rate_limit(&self) -> (r: Option<i32>)
        requires
            self.wf(),
        ensures
            r == self@.int_at(DOWNLOAD_RATE_LIMIT),
    {
        self.int_at(DOWNLOAD_RATE_LIMIT)
    }

    /// Max unchoked peers in the session (may be ignored by some
    /// `choking_algorithm` values); -1 means all peers are always
    /// unchoked.
    pub fn unchoke_slots_limit(&mut self, value: i32) -> (r: &mut Self)
        requires
            old(self).wf(),
        ensures
            r.wf(),
            r@ == old(self)@.with_int(UNCHOKE_SLOTS_LIMIT, value),
            *final(self) == *final(r),
    {
        self.put_int(UNCHOKE_SLOTS_LIMIT, value);
        self
    }

    /// Reads `unchoke_slots_limit` if set in this pack.
    pub fn get_unchoke_slots_limit(&self) -> (r: Option<i32>)
        requires
            self.wf(),
        ensures
            r == self@.int_at(UNCHOKE_SLOTS_LIMIT),
    {
        self.int_at(UNCHOKE_SLOTS_LIMIT)
    }

    /// Target delay for uTP sockets, in milliseconds. Higher values make
    /// uTP more aggressive and queue longer at the upload bottleneck; too
    /// low and measurement noise makes it send too slowly.
    ///
    /// Accepts `1..=2_147_483`.
    pub fn utp_target_delay(&mut self, value: i32) -> (r: Result<&mut Self, SettingsError>)
        requires
            old(self).wf(),
        ensures
            1 <= value <= 2_147_483 ==> (r matches Ok(p) && p.wf() && p@ == old(self)@.with_int(UTP_TARGET_DELAY, value)
                && *final(self) == *final(p)),
            !(1 <= value <= 2_147_483) ==> (r matches Err(e) && e@ == (SettingsErrorView {
                setting: "utp_target_delay"@,
                message: range_message(value, 1, 2_147_483),
            }) && *final(self) == *old(self)),
    {
        match in_range("utp_target_delay", value, 1, 2_147_483) {
            Ok(()) => {},
            Err(e) => return Err(e),
        }
        self.put_int(UTP_TARGET_DELAY, value);
        Ok(self)
    }

    /// Reads `utp_target_delay` if set in this pack.
    pub fn get_utp_target_delay(&self) -> (r: Option<i32>)
        requires
            self.wf(),
        ensures
            r == self@.int_at(UTP_TARGET_DELAY),
    {
        self.int_at(UTP_TARGET_DELAY)
    }

    /// Max bytes the uTP congestion window may grow in one RTT.
    pub fn utp_gain_factor(&mut self, value: i32) -> (r: &mut Self)
        requires
            old(self).wf(),
        ensures
            r.wf(),
            r@ == old(self)@.with_int(UTP_GAIN_FACTOR, value),
            *final(self) == *final(r),
    {
        self.put_int(UTP_GAIN_FACTOR, value);
        self
    }

    /// Reads `utp_gain_factor` if set in this pack.
    pub fn get_utp_gain_factor(&self) -> (r: Option<i32>)
        requires
            self.wf(),
        ensures
            r == self@.int_at(UTP_GAIN_FACTOR),
    {
        self.int_at(UTP_GAIN_FACTOR)
    }

    /// Shortest allowed uTP socket timeout, in milliseconds (the timeout
    /// otherwise follows the connection's RTT).
    pub fn utp_min_timeout(&mut self, value: i32) -> (r: &mut Self)
        requires
            old(self).wf(),
        ensures
            r.wf(),
            r@ == old(self)@.with_int(UTP_MIN_TIMEOUT, value),
            *final(self) == *final(r),
    {
        self.put_int(UTP_MIN_TIMEOUT, value);
        self
    }

    /// Reads `utp_min_timeout` if set in this pack.
    pub fn get_utp_min_timeout(&self) -> (r: Option<i32>)
        requires
            self.wf(),
        ensures
            r == self@.int_at(UTP_MIN_TIMEOUT),
    {
        self.int_at(UTP_MIN_TIMEOUT)
    }

    /// SYN packets sent (and timed out) before giving up and closing the
    /// socket.
    pub fn utp_syn_resends(&mut self, value: i32) -> (r: &mut Self)
        requires
            old(self).wf(),
        ensures
            r.wf(),
            r@ == old(self)@.with_int(UTP_SYN_RESENDS, value),
            *final(self) == *final(r),
    {
        self.put_int(UTP_SYN_RESENDS, value);
        self
    }

    /// Reads `utp_syn_resends` if set in this pack.
    pub fn get_utp_syn_resends(&self) -> (r: Option<i32>)
        requires
            self.wf(),
        ensures
            r == self@.int_at(UTP_SYN_RESENDS),
    {
        self.int_at(UTP_SYN_RESENDS)
    }

    /// FIN packets sent (and timed out) before giving up and closing the
    /// socket.
    pub fn utp_fin_resends(&mut self, value: i32) -> (r: &mut Self)
        requires
            old(self).wf(),
        ensures
            r.wf(),
            r@ == old(self)@.with_int(UTP_FIN_RESENDS, value),
            *final(self) == *final(r),
    {
        self.put_int(UTP_FIN_RESENDS, value);
        self
    }

    /// Reads `utp_fin_resends` if set in this pack.
    pub fn get_utp_fin_resends(&self) -> (r: Option<i32>)
        requires
            self.wf(),
        ensures
            r == self@.int_at(UTP_FIN_RESENDS),
    {
        self.int_at(UTP_FIN_RESENDS)
    }

    /// Times a packet is sent (and lost or timed out) before giving up
    /// and closing the connection.
    pub fn utp_num_resends(&mut self, value: i32) -> (r: &mut Self)
        requires
            old(self).wf(),
        ensures
            r.wf(),
            r@ == old(self)@.with_int(UTP_NUM_RESENDS, value),
            *final(self) == *final(r),
    {
        self.put_int(UTP_NUM_RESENDS, value);
        self
    }

    /// Reads `utp_num_resends` if set in this pack.
    pub fn get_utp_num_resends(&self) -> (r: Option<i32>)
        requires
            self.wf(),
        ensures
            r == self@.int_at(UTP_NUM_RESENDS),
    {
        self.int_at(UTP_NUM_RESENDS)
    }

    /// Timeout in milliseconds for the initial uTP SYN packet, doubled
    /// for each consecutive timeout.
    ///
    /// Accepts `1..=i32::MAX`.
    pub fn utp_connect_timeout(&mut self, value: i32) -> (r: Result<&mut Self, SettingsError>)
        requires
            old(self).wf(),
        ensures
            1 <= value <= i32::MAX ==> (r matches Ok(p) && p.wf() && p@ == old(self)@.with_int(UTP_CONNECT_TIMEOUT, value)
                && *final(self) == *final(p)),
            !(1 <= value <= i32::MAX) ==> (r matches Err(e) && e@ == (SettingsErrorView {
                setting: "utp_connect_timeout"@,
                message: range_message(value, 1, i32::MAX),
            }) && *final(self) == *old(self)),
    {
        match in_range("utp_connect_timeout", value, 1, i32::MAX) {
            Ok(()) => {},
            Err(e) => return Err(e),
        }
        self.put_int(UTP_CONNECT_TIMEOUT, value);
        Ok(self)
    }

    /// Reads `utp_connect_timeout` if set in this pack.
    pub fn get_utp_connect_timeout(&self) -> (r: Option<i32>)
        requires
            self.wf(),
        ensures
            r == self@.int_at(UTP_CONNECT_TIMEOUT),
    {
        self.int_at(UTP_CONNECT_TIMEOUT)
    }

    /// Percentage multiplier applied to the uTP congestion window on
    /// packet loss. Do not change unless you know what you're doing.
    ///
    /// Accepts `0..=100`.
    pub fn utp_loss_multiplier(&mut self, value: i32) -> (r: Result<&mut Self, SettingsError>)
        requires
            old(self).wf(),
        ensures
            0 <= value <= 100 ==> (r matches Ok(p) && p.wf() && p@ == old(self)@.with_int(UTP_LOSS_MULTIPLIER, value)
                && *final(self) == *final(p)),
            !(0 <= value <= 100) ==> (r matches Err(e) && e@ == (SettingsErrorView {
                setting: "utp_loss_multiplier"@,
                message: range_message(value, 0, 100),
            }) && *final(self) == *old(self)),
    {
        match in_range("utp_loss_multiplier", value, 0, 100) {
            Ok(()) => {},
            Err(e) => return Err(e),
        }
        self.put_int(UTP_LOSS_MULTIPLIER, value);
        Ok(self)
    }

    /// Reads `utp_loss_multiplier` if set in this pack.
    pub fn get_utp_loss_multiplier(&self) -> (r: Option<i32>)
        requires
            self.wf(),
        ensures
            r == self@.int_at(UTP_LOSS_MULTIPLIER),
    {
        self.int_at(UTP_LOSS_MULTIPLIER)
    }

    /// How to balance bandwidth between TCP and uTP connections; since
    /// uTP yields to TCP, it would otherwise be starved in mixed swarms.
    /// See `BandwidthMixedAlgo`.
    pub fn mixed_mode_algorithm(&mut self, value: BandwidthMixedAlgo) -> (r: &mut Self)
        requires
            old(self).wf(),
        ensures
            r.wf(),
            r@ == old(self)@.with_int(MIXED_MODE_ALGORITHM, bandwidth_mixed_algo_code(value)),
            *final(self) == *final(r),
    {
        self.put_int(MIXED_MODE_ALGORITHM, value.to_raw());
        self
    }

    /// `None` if unset or set to a value these bindings don't know.
    pub fn get_mixed_mode_algorithm(&self) -> (r: Option<BandwidthMixedAlgo>)
        requires
            self.wf(),
        ensures
            r == (match self@.int_at(MIXED_MODE_ALGORITHM) {
                Some(raw) => bandwidth_mixed_algo_of_code(raw),
                None => None,
            }),
    {
        match self.int_at(MIXED_MODE_ALGORITHM) {
            Some(raw) => BandwidthMixedAlgo::from_raw(raw),
            None => None,
        }
    }

    /// Download rate (bytes per second) below which — together with
    /// `inactive_up_rate` — a torrent counts as inactive for the queuing
    /// mechanism (requires `dont_count_slow_torrents`).
    pub fn inactive_down_rate(&mut self, value: i32) -> (r: &mut Self)
        requires
            old(self).wf(),
        ensures
            r.wf(),
            r@ == old(self)@.with_int(INACTIVE_DOWN_RATE, value),
            *final(self) == *final(r),
    {
        self.put_int(INACTIVE_DOWN_RATE, value);
        self
    }

    /// Reads `inactive_down_rate` if set in this pack.
    pub fn get_inactive_down_rate(&self) -> (r: Option<i32>)
        requires
            self.wf(),
        ensures
            r == self@.int_at(INACTIVE_DOWN_RATE),
    {
        self.int_at(INACTIVE_DOWN_RATE)
    }

    /// Upload-rate counterpart of `inactive_down_rate`.
    pub fn inactive_up_rate(&mut self, value: i32) -> (r: &mut Self)
        requires
            old(self).wf(),
        ensures
            r.wf(),
            r@ == old(self)@.with_int(INACTIVE_UP_RATE, value),
            *final(self) == *final(r),
    {
        self.put_int(INACTIVE_UP_RATE, value);
        self
    }

    /// Reads `inactive_up_rate` if set in this pack.
    pub fn get_inactive_up_rate(&self) -> (r: Option<i32>)
        requires
            self.wf(),
        ensures
            r == self@.int_at(INACTIVE_UP_RATE),
    {
        self.int_at(INACTIVE_UP_RATE)
    }

    /// Milliseconds after a uTP congestion-window reduction during which
    /// further packet loss does not reduce it again.
    pub fn utp_cwnd_reduce_timer(&mut self, value: i32) -> (r: &mut Self)
        requires
            old(self).wf(),
        ensures
            r.wf(),
            r@ == old(self)@.with_int(UTP_CWND_REDUCE_TIMER, value),
            *final(self) == *final(r),
    {
        self.put_int(UTP_CWND_REDUCE_TIMER, value);
        self
    }

    /// Reads `utp_cwnd_reduce_timer` if set in this pack.
    pub fn get_utp_cwnd_reduce_timer(&self) -> (r: Option<i32>)
        requires
            self.wf(),
        ensures
            r == self@.int_at(UTP_CWND_REDUCE_TIMER),
    {
        self.int_at(UTP_CWND_REDUCE_TIMER)
    }

    /// Not-sent low watermark for socket send buffers (the Linux-specific
    /// `TCP_NOTSENT_LOWAT` option).
    pub fn send_not_sent_low_watermark(&mut self, value: i32) -> (r: &mut Self)
        requires
            old(self).wf(),
        ensures
            r.wf(),
            r@ == old(self)@.with_int(SEND_NOT_SENT_LOW_WATERMARK, value),
            *final(self) == *final(r),
    {
        self.put_int(SEND_NOT_SENT_LOW_WATERMARK, value);
        self
    }

    /// Reads `send_not_sent_low_watermark` if set in this pack.
    pub fn get_send_not_sent_low_watermark(&self) -> (r: Option<i32>)
        requires
            self.wf(),
        ensures
            r == self@.int_at(SEND_NOT_SENT_LOW_WATERMARK),
    {
        self.int_at(SEND_NOT_SENT_LOW_WATERMARK)
    }

    /// Starting threshold for the rate-based choker; higher values yield
    /// fewer unchoke slots, lower values more.
    pub fn rate_choker_initial_threshold(&mut self, value: i32) -> (r: &mut Self)
        requires
            old(self).wf(),
        ensures
            r.wf(),
            r@ == old(self)@.with_int(RATE_CHOKER_INITIAL_THRESHOLD, value),
            *final(self) == *final(r),
    {
        self.put_int(RATE_CHOKER_INITIAL_THRESHOLD, value);
        self
    }

    /// Reads `rate_choker_initial_threshold` if set in this pack.
    pub fn get_rate_choker_initial_threshold(&self) -> (r: Option<i32>)
        requires
            self.wf(),
        ensures
            r == self@.int_at(RATE_CHOKER_INITIAL_THRESHOLD),
    {
        self.int_at(RATE_CHOKER_INITIAL_THRESHOLD)
    }
}

} // verus!
