//! The table of known settings: each setting's name, value type, key and
//! libtorrent default. Keys are numbered per value type in the order the
//! settings appear in this table.

use vstd::prelude::*;

use crate::settings::SettingKind;

verus! {

/// The number of string settings.
pub const NUM_STR: usize = 12;
/// The number of integer settings.
pub const NUM_INT: usize = 138;
/// The number of boolean settings.
pub const NUM_BOOL: usize = 64;


// str setting keys

pub const OUTGOING_INTERFACES: i32 = 0x0000;
pub const LISTEN_INTERFACES: i32 = 0x0001;
pub const PEER_FINGERPRINT: i32 = 0x0002;
pub const DHT_BOOTSTRAP_NODES: i32 = 0x0003;
pub const NATPMP_GATEWAY: i32 = 0x0004;
pub const PROXY_HOSTNAME: i32 = 0x0005;
pub const PROXY_USERNAME: i32 = 0x0006;
pub const PROXY_PASSWORD: i32 = 0x0007;
pub const I2P_HOSTNAME: i32 = 0x0008;
pub const USER_AGENT: i32 = 0x0009;
pub const ANNOUNCE_IP: i32 = 0x000a;
pub const HANDSHAKE_CLIENT_VERSION: i32 = 0x000b;

// int setting keys

pub const UNCHOKE_INTERVAL: i32 = 0x4000;
pub const OPTIMISTIC_UNCHOKE_INTERVAL: i32 = 0x4001;
pub const SEND_BUFFER_LOW_WATERMARK: i32 = 0x4002;
pub const SEND_BUFFER_WATERMARK: i32 = 0x4003;
pub const SEND_BUFFER_WATERMARK_FACTOR: i32 = 0x4004;
pub const CHOKING_ALGORITHM: i32 = 0x4005;
pub const SEED_CHOKING_ALGORITHM: i32 = 0x4006;
pub const NUM_OPTIMISTIC_UNCHOKE_SLOTS: i32 = 0x4007;
pub const UPLOAD_RATE_LIMIT: i32 = 0x4008;
pub const DOWNLOAD_RATE_LIMIT: i32 = 0x4009;
pub const UNCHOKE_SLOTS_LIMIT: i32 = 0x400a;
pub const UTP_TARGET_DELAY: i32 = 0x400b;
pub const UTP_GAIN_FACTOR: i32 = 0x400c;
pub const UTP_MIN_TIMEOUT: i32 = 0x400d;
pub const UTP_SYN_RESENDS: i32 = 0x400e;
pub const UTP_FIN_RESENDS: i32 = 0x400f;
pub const UTP_NUM_RESENDS: i32 = 0x4010;
pub const UTP_CONNECT_TIMEOUT: i32 = 0x4011;
pub const UTP_LOSS_MULTIPLIER: i32 = 0x4012;
pub const MIXED_MODE_ALGORITHM: i32 = 0x4013;
pub const INACTIVE_DOWN_RATE: i32 = 0x4014;
pub const INACTIVE_UP_RATE: i32 = 0x4015;
pub const UTP_CWND_REDUCE_TIMER: i32 = 0x4016;
pub const SEND_NOT_SENT_LOW_WATERMARK: i32 = 0x4017;
pub const RATE_CHOKER_INITIAL_THRESHOLD: i32 = 0x4018;
pub const PEER_TIMEOUT: i32 = 0x4019;
pub const MAX_FAILCOUNT: i32 = 0x401a;
pub const MIN_RECONNECT_TIME: i32 = 0x401b;
pub const PEER_CONNECT_TIMEOUT: i32 = 0x401c;
pub const CONNECTION_SPEED: i32 = 0x401d;
pub const INACTIVITY_TIMEOUT: i32 = 0x401e;
pub const HANDSHAKE_TIMEOUT: i32 = 0x401f;
pub const OUTGOING_PORT: i32 = 0x4020;
pub const NUM_OUTGOING_PORTS: i32 = 0x4021;
pub const PEER_DSCP: i32 = 0x4022;
pub const MAX_PEERLIST_SIZE: i32 = 0x4023;
pub const MAX_PAUSED_PEERLIST_SIZE: i32 = 0x4024;
pub const RECV_SOCKET_BUFFER_SIZE: i32 = 0x4025;
pub const SEND_SOCKET_BUFFER_SIZE: i32 = 0x4026;
pub const MAX_PEER_RECV_BUFFER_SIZE: i32 = 0x4027;
pub const MAX_PEX_PEERS: i32 = 0x4028;
pub const CONNECTIONS_LIMIT: i32 = 0x4029;
pub const CONNECTIONS_SLACK: i32 = 0x402a;
pub const LISTEN_QUEUE_SIZE: i32 = 0x402b;
pub const TORRENT_CONNECT_BOOST: i32 = 0x402c;
pub const PEER_TURNOVER: i32 = 0x402d;
pub const PEER_TURNOVER_CUTOFF: i32 = 0x402e;
pub const PEER_TURNOVER_INTERVAL: i32 = 0x402f;
pub const CONNECT_SEED_EVERY_N_DOWNLOAD: i32 = 0x4030;
pub const MAX_RETRY_PORT_BIND: i32 = 0x4031;
pub const LOCAL_SERVICE_ANNOUNCE_INTERVAL: i32 = 0x4032;
pub const DHT_ANNOUNCE_INTERVAL: i32 = 0x4033;
pub const DHT_UPLOAD_RATE_LIMIT: i32 = 0x4034;
pub const UPNP_LEASE_DURATION: i32 = 0x4035;
pub const DHT_MAX_PEERS_REPLY: i32 = 0x4036;
pub const DHT_SEARCH_BRANCHING: i32 = 0x4037;
pub const DHT_MAX_FAIL_COUNT: i32 = 0x4038;
pub const DHT_MAX_TORRENTS: i32 = 0x4039;
pub const DHT_MAX_DHT_ITEMS: i32 = 0x403a;
pub const DHT_MAX_PEERS: i32 = 0x403b;
pub const DHT_BLOCK_TIMEOUT: i32 = 0x403c;
pub const DHT_BLOCK_RATELIMIT: i32 = 0x403d;
pub const DHT_ITEM_LIFETIME: i32 = 0x403e;
pub const DHT_SAMPLE_INFOHASHES_INTERVAL: i32 = 0x403f;
pub const DHT_MAX_INFOHASHES_SAMPLE_COUNT: i32 = 0x4040;
pub const NATPMP_LEASE_DURATION: i32 = 0x4041;
pub const URLSEED_TIMEOUT: i32 = 0x4042;
pub const URLSEED_WAIT_RETRY: i32 = 0x4043;
pub const TICK_INTERVAL: i32 = 0x4044;
pub const ALERT_QUEUE_SIZE: i32 = 0x4045;
pub const ALERT_MASK: i32 = 0x4046;
pub const OUT_ENC_POLICY: i32 = 0x4047;
pub const IN_ENC_POLICY: i32 = 0x4048;
pub const ALLOWED_ENC_LEVEL: i32 = 0x4049;
pub const PROXY_TYPE: i32 = 0x404a;
pub const PROXY_PORT: i32 = 0x404b;
pub const I2P_PORT: i32 = 0x404c;
pub const URLSEED_MAX_REQUEST_BYTES: i32 = 0x404d;
pub const WEB_SEED_NAME_LOOKUP_RETRY: i32 = 0x404e;
pub const MAX_WEB_SEED_CONNECTIONS: i32 = 0x404f;
pub const RESOLVER_CACHE_TIMEOUT: i32 = 0x4050;
pub const I2P_INBOUND_QUANTITY: i32 = 0x4051;
pub const I2P_OUTBOUND_QUANTITY: i32 = 0x4052;
pub const I2P_INBOUND_LENGTH: i32 = 0x4053;
pub const I2P_OUTBOUND_LENGTH: i32 = 0x4054;
pub const I2P_INBOUND_LENGTH_VARIANCE: i32 = 0x4055;
pub const I2P_OUTBOUND_LENGTH_VARIANCE: i32 = 0x4056;
pub const PIECE_TIMEOUT: i32 = 0x4057;
pub const REQUEST_TIMEOUT: i32 = 0x4058;
pub const REQUEST_QUEUE_TIME: i32 = 0x4059;
pub const MAX_ALLOWED_IN_REQUEST_QUEUE: i32 = 0x405a;
pub const MAX_OUT_REQUEST_QUEUE: i32 = 0x405b;
pub const WHOLE_PIECES_THRESHOLD: i32 = 0x405c;
pub const FILE_POOL_SIZE: i32 = 0x405d;
pub const INITIAL_PICKER_THRESHOLD: i32 = 0x405e;
pub const ALLOWED_FAST_SET_SIZE: i32 = 0x405f;
pub const SUGGEST_MODE: i32 = 0x4060;
pub const MAX_QUEUED_DISK_BYTES: i32 = 0x4061;
pub const DISK_IO_WRITE_MODE: i32 = 0x4062;
pub const DISK_IO_READ_MODE: i32 = 0x4063;
pub const SEEDING_PIECE_QUOTA: i32 = 0x4064;
pub const OPTIMISTIC_DISK_RETRY: i32 = 0x4065;
pub const MAX_SUGGEST_PIECES: i32 = 0x4066;
pub const SHARE_MODE_TARGET: i32 = 0x4067;
pub const MAX_METADATA_SIZE: i32 = 0x4068;
pub const HASHING_THREADS: i32 = 0x4069;
pub const CHECKING_MEM_USAGE: i32 = 0x406a;
pub const PREDICTIVE_PIECE_ANNOUNCE: i32 = 0x406b;
pub const AIO_THREADS: i32 = 0x406c;
pub const CLOSE_FILE_INTERVAL: i32 = 0x406d;
pub const MAX_PIECE_COUNT: i32 = 0x406e;
pub const METADATA_TOKEN_LIMIT: i32 = 0x406f;
pub const DISK_WRITE_MODE: i32 = 0x4070;
pub const MMAP_FILE_SIZE_CUTOFF: i32 = 0x4071;
pub const TRACKER_COMPLETION_TIMEOUT: i32 = 0x4072;
pub const TRACKER_RECEIVE_TIMEOUT: i32 = 0x4073;
pub const STOP_TRACKER_TIMEOUT: i32 = 0x4074;
pub const NUM_WANT: i32 = 0x4075;
pub const ACTIVE_DOWNLOADS: i32 = 0x4076;
pub const ACTIVE_SEEDS: i32 = 0x4077;
pub const ACTIVE_CHECKING: i32 = 0x4078;
pub const ACTIVE_DHT_LIMIT: i32 = 0x4079;
pub const ACTIVE_TRACKER_LIMIT: i32 = 0x407a;
pub const ACTIVE_LSD_LIMIT: i32 = 0x407b;
pub const ACTIVE_LIMIT: i32 = 0x407c;
pub const AUTO_MANAGE_INTERVAL: i32 = 0x407d;
pub const SEED_TIME_LIMIT: i32 = 0x407e;
pub const AUTO_SCRAPE_INTERVAL: i32 = 0x407f;
pub const AUTO_SCRAPE_MIN_INTERVAL: i32 = 0x4080;
pub const MIN_ANNOUNCE_INTERVAL: i32 = 0x4081;
pub const AUTO_MANAGE_STARTUP: i32 = 0x4082;
pub const UDP_TRACKER_TOKEN_EXPIRY: i32 = 0x4083;
pub const TRACKER_BACKOFF: i32 = 0x4084;
pub const SHARE_RATIO_LIMIT: i32 = 0x4085;
pub const SEED_TIME_RATIO_LIMIT: i32 = 0x4086;
pub const MAX_HTTP_RECV_BUFFER_SIZE: i32 = 0x4087;
pub const MAX_CONCURRENT_HTTP_ANNOUNCES: i32 = 0x4088;
pub const ANNOUNCE_PORT: i32 = 0x4089;

// bool setting keys

pub const RATE_LIMIT_IP_OVERHEAD: i32 = 0x8000;
pub const ALLOW_MULTIPLE_CONNECTIONS_PER_IP: i32 = 0x8001;
pub const USE_PAROLE_MODE: i32 = 0x8002;
pub const CLOSE_REDUNDANT_CONNECTIONS: i32 = 0x8003;
pub const ENABLE_OUTGOING_UTP: i32 = 0x8004;
pub const ENABLE_INCOMING_UTP: i32 = 0x8005;
pub const ENABLE_OUTGOING_TCP: i32 = 0x8006;
pub const ENABLE_INCOMING_TCP: i32 = 0x8007;
pub const SEEDING_OUTGOING_CONNECTIONS: i32 = 0x8008;
pub const NO_CONNECT_PRIVILEGED_PORTS: i32 = 0x8009;
pub const SMOOTH_CONNECTS: i32 = 0x800a;
pub const LISTEN_SYSTEM_PORT_FALLBACK: i32 = 0x800b;
pub const ALLOW_MULTIPLE_CONNECTIONS_PER_PID: i32 = 0x800c;
pub const USE_DHT_AS_FALLBACK: i32 = 0x800d;
pub const UPNP_IGNORE_NONROUTERS: i32 = 0x800e;
pub const ENABLE_UPNP: i32 = 0x800f;
pub const ENABLE_NATPMP: i32 = 0x8010;
pub const ENABLE_LSD: i32 = 0x8011;
pub const ENABLE_DHT: i32 = 0x8012;
pub const ENABLE_IP_NOTIFIER: i32 = 0x8013;
pub const DHT_PREFER_VERIFIED_NODE_IDS: i32 = 0x8014;
pub const DHT_RESTRICT_ROUTING_IPS: i32 = 0x8015;
pub const DHT_RESTRICT_SEARCH_IPS: i32 = 0x8016;
pub const DHT_EXTENDED_ROUTING_TABLE: i32 = 0x8017;
pub const DHT_AGGRESSIVE_LOOKUPS: i32 = 0x8018;
pub const DHT_PRIVACY_LOOKUPS: i32 = 0x8019;
pub const DHT_ENFORCE_NODE_ID: i32 = 0x801a;
pub const DHT_IGNORE_DARK_INTERNET: i32 = 0x801b;
pub const DHT_READ_ONLY: i32 = 0x801c;
pub const ALLOW_I2P_MIXED: i32 = 0x801d;
pub const ANONYMOUS_MODE: i32 = 0x801e;
pub const REPORT_WEB_SEED_DOWNLOADS: i32 = 0x801f;
pub const BAN_WEB_SEEDS: i32 = 0x8020;
pub const PREFER_RC4: i32 = 0x8021;
pub const PROXY_HOSTNAMES: i32 = 0x8022;
pub const PROXY_PEER_CONNECTIONS: i32 = 0x8023;
pub const PROXY_TRACKER_CONNECTIONS: i32 = 0x8024;
pub const SOCKS5_UDP_SEND_LOCAL_EP: i32 = 0x8025;
pub const PROXY_SEND_HOST_IN_CONNECT: i32 = 0x8026;
pub const SEND_REDUNDANT_HAVE: i32 = 0x8027;
pub const PRIORITIZE_PARTIAL_PIECES: i32 = 0x8028;
pub const DISABLE_HASH_CHECKS: i32 = 0x8029;
pub const NO_ATIME_STORAGE: i32 = 0x802a;
pub const REPORT_TRUE_DOWNLOADED: i32 = 0x802b;
pub const STRICT_END_GAME_MODE: i32 = 0x802c;
pub const NO_RECHECK_INCOMPLETE_RESUME: i32 = 0x802d;
pub const SUPPORT_SHARE_MODE: i32 = 0x802e;
pub const REPORT_REDUNDANT_BYTES: i32 = 0x802f;
pub const AUTO_SEQUENTIAL: i32 = 0x8030;
pub const PIECE_EXTENT_AFFINITY: i32 = 0x8031;
pub const ENABLE_SET_FILE_VALID_DATA: i32 = 0x8032;
pub const DISK_DISABLE_COPY_ON_WRITE: i32 = 0x8033;
pub const AUTO_MANAGE_PREFER_SEEDS: i32 = 0x8034;
pub const DONT_COUNT_SLOW_TORRENTS: i32 = 0x8035;
pub const ANNOUNCE_TO_ALL_TIERS: i32 = 0x8036;
pub const ANNOUNCE_TO_ALL_TRACKERS: i32 = 0x8037;
pub const PREFER_UDP_TRACKERS: i32 = 0x8038;
pub const INCOMING_STARTS_QUEUED_TORRENTS: i32 = 0x8039;
pub const ALWAYS_SEND_USER_AGENT: i32 = 0x803a;
pub const APPLY_IP_FILTER_TO_TRACKERS: i32 = 0x803b;
pub const ANNOUNCE_CRYPTO_SUPPORT: i32 = 0x803c;
pub const VALIDATE_HTTPS_TRACKERS: i32 = 0x803d;
pub const SSRF_MITIGATION: i32 = 0x803e;
pub const ALLOW_IDNA: i32 = 0x803f;

/// The name of the str setting at `i`.
pub open spec fn str_setting_name(i: int) -> Seq<char> {
    if i == 0 {
        "outgoing_interfaces"@
    } else if i == 1 {
        "listen_interfaces"@
    } else if i == 2 {
        "peer_fingerprint"@
    } else if i == 3 {
        "dht_bootstrap_nodes"@
    } else if i == 4 {
        "natpmp_gateway"@
    } else if i == 5 {
        "proxy_hostname"@
    } else if i == 6 {
        "proxy_username"@
    } else if i == 7 {
        "proxy_password"@
    } else if i == 8 {
        "i2p_hostname"@
    } else if i == 9 {
        "user_agent"@
    } else if i == 10 {
        "announce_ip"@
    } else if i == 11 {
        "handshake_client_version"@
    } else {
        Seq::empty()
    }
}

/// libtorrent's default for the str setting at `i`.
pub open spec fn str_setting_default(i: int) -> Seq<char> {
    if i == 0 {
        ""@
    } else if i == 1 {
        "0.0.0.0:6881,[::]:6881"@
    } else if i == 2 {
        "-LT2100-"@
    } else if i == 3 {
        "dht.libtorrent.org:25401"@
    } else if i == 4 {
        ""@
    } else if i == 5 {
        ""@
    } else if i == 6 {
        ""@
    } else if i == 7 {
        ""@
    } else if i == 8 {
        ""@
    } else if i == 9 {
        "libtorrent/2.1.0.0"@
    } else if i == 10 {
        ""@
    } else if i == 11 {
        ""@
    } else {
        Seq::empty()
    }
}

/// The name of the str setting at `i`.
pub fn str_name(i: usize) -> (r: &'static str)
    requires
        i < NUM_STR,
    ensures
        r@ == str_setting_name(i as int),
{
    match i {
        0 => "outgoing_interfaces",
        1 => "listen_interfaces",
        2 => "peer_fingerprint",
        3 => "dht_bootstrap_nodes",
        4 => "natpmp_gateway",
        5 => "proxy_hostname",
        6 => "proxy_username",
        7 => "proxy_password",
        8 => "i2p_hostname",
        9 => "user_agent",
        10 => "announce_ip",
        11 => "handshake_client_version",
        _ => "",
    }
}

/// libtorrent's default for the str setting at `i`.
pub fn str_default(i: usize) -> (r: &'static str)
    requires
        i < NUM_STR,
    ensures
        r@ == str_setting_default(i as int),
{
    match i {
        0 => "",
        1 => "0.0.0.0:6881,[::]:6881",
        2 => "-LT2100-",
        3 => "dht.libtorrent.org:25401",
        4 => "",
        5 => "",
        6 => "",
        7 => "",
        8 => "",
        9 => "libtorrent/2.1.0.0",
        10 => "",
        11 => "",
        _ => "",
    }
}

/// The name of the int setting at `i`.
pub open spec fn int_setting_name(i: int) -> Seq<char> {
    if i == 0 {
        "unchoke_interval"@
    } else if i == 1 {
        "optimistic_unchoke_interval"@
    } else if i == 2 {
        "send_buffer_low_watermark"@
    } else if i == 3 {
        "send_buffer_watermark"@
    } else if i == 4 {
        "send_buffer_watermark_factor"@
    } else if i == 5 {
        "choking_algorithm"@
    } else if i == 6 {
        "seed_choking_algorithm"@
    } else if i == 7 {
        "num_optimistic_unchoke_slots"@
    } else if i == 8 {
        "upload_rate_limit"@
    } else if i == 9 {
        "download_rate_limit"@
    } else if i == 10 {
        "unchoke_slots_limit"@
    } else if i == 11 {
        "utp_target_delay"@
    } else if i == 12 {
        "utp_gain_factor"@
    } else if i == 13 {
        "utp_min_timeout"@
    } else if i == 14 {
        "utp_syn_resends"@
    } else if i == 15 {
        "utp_fin_resends"@
    } else if i == 16 {
        "utp_num_resends"@
    } else if i == 17 {
        "utp_connect_timeout"@
    } else if i == 18 {
        "utp_loss_multiplier"@
    } else if i == 19 {
        "mixed_mode_algorithm"@
    } else if i == 20 {
        "inactive_down_rate"@
    } else if i == 21 {
        "inactive_up_rate"@
    } else if i == 22 {
        "utp_cwnd_reduce_timer"@
    } else if i == 23 {
        "send_not_sent_low_watermark"@
    } else if i == 24 {
        "rate_choker_initial_threshold"@
    } else if i == 25 {
        "peer_timeout"@
    } else if i == 26 {
        "max_failcount"@
    } else if i == 27 {
        "min_reconnect_time"@
    } else if i == 28 {
        "peer_connect_timeout"@
    } else if i == 29 {
        "connection_speed"@
    } else if i == 30 {
        "inactivity_timeout"@
    } else if i == 31 {
        "handshake_timeout"@
    } else if i == 32 {
        "outgoing_port"@
    } else if i == 33 {
        "num_outgoing_ports"@
    } else if i == 34 {
        "peer_dscp"@
    } else if i == 35 {
        "max_peerlist_size"@
    } else if i == 36 {
        "max_paused_peerlist_size"@
    } else if i == 37 {
        "recv_socket_buffer_size"@
    } else if i == 38 {
        "send_socket_buffer_size"@
    } else if i == 39 {
        "max_peer_recv_buffer_size"@
    } else if i == 40 {
        "max_pex_peers"@
    } else if i == 41 {
        "connections_limit"@
    } else if i == 42 {
        "connections_slack"@
    } else if i == 43 {
        "listen_queue_size"@
    } else if i == 44 {
        "torrent_connect_boost"@
    } else if i == 45 {
        "peer_turnover"@
    } else if i == 46 {
        "peer_turnover_cutoff"@
    } else if i == 47 {
        "peer_turnover_interval"@
    } else if i == 48 {
        "connect_seed_every_n_download"@
    } else if i == 49 {
        "max_retry_port_bind"@
    } else if i == 50 {
        "local_service_announce_interval"@
    } else if i == 51 {
        "dht_announce_interval"@
    } else if i == 52 {
        "dht_upload_rate_limit"@
    } else if i == 53 {
        "upnp_lease_duration"@
    } else if i == 54 {
        "dht_max_peers_reply"@
    } else if i == 55 {
        "dht_search_branching"@
    } else if i == 56 {
        "dht_max_fail_count"@
    } else if i == 57 {
        "dht_max_torrents"@
    } else if i == 58 {
        "dht_max_dht_items"@
    } else if i == 59 {
        "dht_max_peers"@
    } else if i == 60 {
        "dht_block_timeout"@
    } else if i == 61 {
        "dht_block_ratelimit"@
    } else if i == 62 {
        "dht_item_lifetime"@
    } else if i == 63 {
        "dht_sample_infohashes_interval"@
    } else if i == 64 {
        "dht_max_infohashes_sample_count"@
    } else if i == 65 {
        "natpmp_lease_duration"@
    } else if i == 66 {
        "urlseed_timeout"@
    } else if i == 67 {
        "urlseed_wait_retry"@
    } else if i == 68 {
        "tick_interval"@
    } else if i == 69 {
        "alert_queue_size"@
    } else if i == 70 {
        "alert_mask"@
    } else if i == 71 {
        "out_enc_policy"@
    } else if i == 72 {
        "in_enc_policy"@
    } else if i == 73 {
        "allowed_enc_level"@
    } else if i == 74 {
        "proxy_type"@
    } else if i == 75 {
        "proxy_port"@
    } else if i == 76 {
        "i2p_port"@
    } else if i == 77 {
        "urlseed_max_request_bytes"@
    } else if i == 78 {
        "web_seed_name_lookup_retry"@
    } else if i == 79 {
        "max_web_seed_connections"@
    } else if i == 80 {
        "resolver_cache_timeout"@
    } else if i == 81 {
        "i2p_inbound_quantity"@
    } else if i == 82 {
        "i2p_outbound_quantity"@
    } else if i == 83 {
        "i2p_inbound_length"@
    } else if i == 84 {
        "i2p_outbound_length"@
    } else if i == 85 {
        "i2p_inbound_length_variance"@
    } else if i == 86 {
        "i2p_outbound_length_variance"@
    } else if i == 87 {
        "piece_timeout"@
    } else if i == 88 {
        "request_timeout"@
    } else if i == 89 {
        "request_queue_time"@
    } else if i == 90 {
        "max_allowed_in_request_queue"@
    } else if i == 91 {
        "max_out_request_queue"@
    } else if i == 92 {
        "whole_pieces_threshold"@
    } else if i == 93 {
        "file_pool_size"@
    } else if i == 94 {
        "initial_picker_threshold"@
    } else if i == 95 {
        "allowed_fast_set_size"@
    } else if i == 96 {
        "suggest_mode"@
    } else if i == 97 {
        "max_queued_disk_bytes"@
    } else if i == 98 {
        "disk_io_write_mode"@
    } else if i == 99 {
        "disk_io_read_mode"@
    } else if i == 100 {
        "seeding_piece_quota"@
    } else if i == 101 {
        "optimistic_disk_retry"@
    } else if i == 102 {
        "max_suggest_pieces"@
    } else if i == 103 {
        "share_mode_target"@
    } else if i == 104 {
        "max_metadata_size"@
    } else if i == 105 {
        "hashing_threads"@
    } else if i == 106 {
        "checking_mem_usage"@
    } else if i == 107 {
        "predictive_piece_announce"@
    } else if i == 108 {
        "aio_threads"@
    } else if i == 109 {
        "close_file_interval"@
    } else if i == 110 {
        "max_piece_count"@
    } else if i == 111 {
        "metadata_token_limit"@
    } else if i == 112 {
        "disk_write_mode"@
    } else if i == 113 {
        "mmap_file_size_cutoff"@
    } else if i == 114 {
        "tracker_completion_timeout"@
    } else if i == 115 {
        "tracker_receive_timeout"@
    } else if i == 116 {
        "stop_tracker_timeout"@
    } else if i == 117 {
        "num_want"@
    } else if i == 118 {
        "active_downloads"@
    } else if i == 119 {
        "active_seeds"@
    } else if i == 120 {
        "active_checking"@
    } else if i == 121 {
        "active_dht_limit"@
    } else if i == 122 {
        "active_tracker_limit"@
    } else if i == 123 {
        "active_lsd_limit"@
    } else if i == 124 {
        "active_limit"@
    } else if i == 125 {
        "auto_manage_interval"@
    } else if i == 126 {
        "seed_time_limit"@
    } else if i == 127 {
        "auto_scrape_interval"@
    } else if i == 128 {
        "auto_scrape_min_interval"@
    } else if i == 129 {
        "min_announce_interval"@
    } else if i == 130 {
        "auto_manage_startup"@
    } else if i == 131 {
        "udp_tracker_token_expiry"@
    } else if i == 132 {
        "tracker_backoff"@
    } else if i == 133 {
        "share_ratio_limit"@
    } else if i == 134 {
        "seed_time_ratio_limit"@
    } else if i == 135 {
        "max_http_recv_buffer_size"@
    } else if i == 136 {
        "max_concurrent_http_announces"@
    } else if i == 137 {
        "announce_port"@
    } else {
        Seq::empty()
    }
}

/// libtorrent's default for the int setting at `i`.
pub open spec fn int_setting_default(i: int) -> i32 {
    if i == 0 {
        15
    } else if i == 1 {
        30
    } else if i == 2 {
        10240
    } else if i == 3 {
        512000
    } else if i == 4 {
        50
    } else if i == 5 {
        0
    } else if i == 6 {
        0
    } else if i == 7 {
        0
    } else if i == 8 {
        0
    } else if i == 9 {
        0
    } else if i == 10 {
        8
    } else if i == 11 {
        100
    } else if i == 12 {
        3000
    } else if i == 13 {
        500
    } else if i == 14 {
        2
    } else if i == 15 {
        2
    } else if i == 16 {
        3
    } else if i == 17 {
        3000
    } else if i == 18 {
        50
    } else if i == 19 {
        1
    } else if i == 20 {
        2048
    } else if i == 21 {
        2048
    } else if i == 22 {
        100
    } else if i == 23 {
        16384
    } else if i == 24 {
        1024
    } else if i == 25 {
        120
    } else if i == 26 {
        3
    } else if i == 27 {
        60
    } else if i == 28 {
        15
    } else if i == 29 {
        30
    } else if i == 30 {
        600
    } else if i == 31 {
        10
    } else if i == 32 {
        0
    } else if i == 33 {
        0
    } else if i == 34 {
        4
    } else if i == 35 {
        3000
    } else if i == 36 {
        1000
    } else if i == 37 {
        0
    } else if i == 38 {
        0
    } else if i == 39 {
        2097152
    } else if i == 40 {
        50
    } else if i == 41 {
        200
    } else if i == 42 {
        10
    } else if i == 43 {
        5
    } else if i == 44 {
        30
    } else if i == 45 {
        4
    } else if i == 46 {
        90
    } else if i == 47 {
        300
    } else if i == 48 {
        10
    } else if i == 49 {
        10
    } else if i == 50 {
        300
    } else if i == 51 {
        900
    } else if i == 52 {
        8000
    } else if i == 53 {
        3600
    } else if i == 54 {
        100
    } else if i == 55 {
        5
    } else if i == 56 {
        20
    } else if i == 57 {
        2000
    } else if i == 58 {
        700
    } else if i == 59 {
        500
    } else if i == 60 {
        300
    } else if i == 61 {
        5
    } else if i == 62 {
        0
    } else if i == 63 {
        21600
    } else if i == 64 {
        20
    } else if i == 65 {
        3600
    } else if i == 66 {
        20
    } else if i == 67 {
        30
    } else if i == 68 {
        500
    } else if i == 69 {
        2000
    } else if i == 70 {
        1
    } else if i == 71 {
        1
    } else if i == 72 {
        1
    } else if i == 73 {
        3
    } else if i == 74 {
        0
    } else if i == 75 {
        0
    } else if i == 76 {
        0
    } else if i == 77 {
        16777216
    } else if i == 78 {
        1800
    } else if i == 79 {
        3
    } else if i == 80 {
        1200
    } else if i == 81 {
        3
    } else if i == 82 {
        3
    } else if i == 83 {
        3
    } else if i == 84 {
        3
    } else if i == 85 {
        0
    } else if i == 86 {
        0
    } else if i == 87 {
        20
    } else if i == 88 {
        60
    } else if i == 89 {
        3
    } else if i == 90 {
        2000
    } else if i == 91 {
        500
    } else if i == 92 {
        20
    } else if i == 93 {
        40
    } else if i == 94 {
        4
    } else if i == 95 {
        5
    } else if i == 96 {
        0
    } else if i == 97 {
        1048576
    } else if i == 98 {
        0
    } else if i == 99 {
        0
    } else if i == 100 {
        20
    } else if i == 101 {
        600
    } else if i == 102 {
        16
    } else if i == 103 {
        3
    } else if i == 104 {
        31457280
    } else if i == 105 {
        1
    } else if i == 106 {
        256
    } else if i == 107 {
        0
    } else if i == 108 {
        10
    } else if i == 109 {
        0
    } else if i == 110 {
        2097152
    } else if i == 111 {
        2500000
    } else if i == 112 {
        2
    } else if i == 113 {
        40
    } else if i == 114 {
        30
    } else if i == 115 {
        10
    } else if i == 116 {
        5
    } else if i == 117 {
        200
    } else if i == 118 {
        3
    } else if i == 119 {
        5
    } else if i == 120 {
        1
    } else if i == 121 {
        88
    } else if i == 122 {
        1600
    } else if i == 123 {
        60
    } else if i == 124 {
        500
    } else if i == 125 {
        30
    } else if i == 126 {
        86400
    } else if i == 127 {
        1800
    } else if i == 128 {
        300
    } else if i == 129 {
        300
    } else if i == 130 {
        60
    } else if i == 131 {
        60
    } else if i == 132 {
        250
    } else if i == 133 {
        200
    } else if i == 134 {
        700
    } else if i == 135 {
        4194304
    } else if i == 136 {
        50
    } else if i == 137 {
        0
    } else {
        0
    }
}

/// The name of the int setting at `i`.
pub fn int_name(i: usize) -> (r: &'static str)
    requires
        i < NUM_INT,
    ensures
        r@ == int_setting_name(i as int),
{
    match i {
        0 => "unchoke_interval",
        1 => "optimistic_unchoke_interval",
        2 => "send_buffer_low_watermark",
        3 => "send_buffer_watermark",
        4 => "send_buffer_watermark_factor",
        5 => "choking_algorithm",
        6 => "seed_choking_algorithm",
        7 => "num_optimistic_unchoke_slots",
        8 => "upload_rate_limit",
        9 => "download_rate_limit",
        10 => "unchoke_slots_limit",
        11 => "utp_target_delay",
        12 => "utp_gain_factor",
        13 => "utp_min_timeout",
        14 => "utp_syn_resends",
        15 => "utp_fin_resends",
        16 => "utp_num_resends",
        17 => "utp_connect_timeout",
        18 => "utp_loss_multiplier",
        19 => "mixed_mode_algorithm",
        20 => "inactive_down_rate",
        21 => "inactive_up_rate",
        22 => "utp_cwnd_reduce_timer",
        23 => "send_not_sent_low_watermark",
        24 => "rate_choker_initial_threshold",
        25 => "peer_timeout",
        26 => "max_failcount",
        27 => "min_reconnect_time",
        28 => "peer_connect_timeout",
        29 => "connection_speed",
        30 => "inactivity_timeout",
        31 => "handshake_timeout",
        32 => "outgoing_port",
        33 => "num_outgoing_ports",
        34 => "peer_dscp",
        35 => "max_peerlist_size",
        36 => "max_paused_peerlist_size",
        37 => "recv_socket_buffer_size",
        38 => "send_socket_buffer_size",
        39 => "max_peer_recv_buffer_size",
        40 => "max_pex_peers",
        41 => "connections_limit",
        42 => "connections_slack",
        43 => "listen_queue_size",
        44 => "torrent_connect_boost",
        45 => "peer_turnover",
        46 => "peer_turnover_cutoff",
        47 => "peer_turnover_interval",
        48 => "connect_seed_every_n_download",
        49 => "max_retry_port_bind",
        50 => "local_service_announce_interval",
        51 => "dht_announce_interval",
        52 => "dht_upload_rate_limit",
        53 => "upnp_lease_duration",
        54 => "dht_max_peers_reply",
        55 => "dht_search_branching",
        56 => "dht_max_fail_count",
        57 => "dht_max_torrents",
        58 => "dht_max_dht_items",
        59 => "dht_max_peers",
        60 => "dht_block_timeout",
        61 => "dht_block_ratelimit",
        62 => "dht_item_lifetime",
        63 => "dht_sample_infohashes_interval",
        64 => "dht_max_infohashes_sample_count",
        65 => "natpmp_lease_duration",
        66 => "urlseed_timeout",
        67 => "urlseed_wait_retry",
        68 => "tick_interval",
        69 => "alert_queue_size",
        70 => "alert_mask",
        71 => "out_enc_policy",
        72 => "in_enc_policy",
        73 => "allowed_enc_level",
        74 => "proxy_type",
        75 => "proxy_port",
        76 => "i2p_port",
        77 => "urlseed_max_request_bytes",
        78 => "web_seed_name_lookup_retry",
        79 => "max_web_seed_connections",
        80 => "resolver_cache_timeout",
        81 => "i2p_inbound_quantity",
        82 => "i2p_outbound_quantity",
        83 => "i2p_inbound_length",
        84 => "i2p_outbound_length",
        85 => "i2p_inbound_length_variance",
        86 => "i2p_outbound_length_variance",
        87 => "piece_timeout",
        88 => "request_timeout",
        89 => "request_queue_time",
        90 => "max_allowed_in_request_queue",
        91 => "max_out_request_queue",
        92 => "whole_pieces_threshold",
        93 => "file_pool_size",
        94 => "initial_picker_threshold",
        95 => "allowed_fast_set_size",
        96 => "suggest_mode",
        97 => "max_queued_disk_bytes",
        98 => "disk_io_write_mode",
        99 => "disk_io_read_mode",
        100 => "seeding_piece_quota",
        101 => "optimistic_disk_retry",
        102 => "max_suggest_pieces",
        103 => "share_mode_target",
        104 => "max_metadata_size",
        105 => "hashing_threads",
        106 => "checking_mem_usage",
        107 => "predictive_piece_announce",
        108 => "aio_threads",
        109 => "close_file_interval",
        110 => "max_piece_count",
        111 => "metadata_token_limit",
        112 => "disk_write_mode",
        113 => "mmap_file_size_cutoff",
        114 => "tracker_completion_timeout",
        115 => "tracker_receive_timeout",
        116 => "stop_tracker_timeout",
        117 => "num_want",
        118 => "active_downloads",
        119 => "active_seeds",
        120 => "active_checking",
        121 => "active_dht_limit",
        122 => "active_tracker_limit",
        123 => "active_lsd_limit",
        124 => "active_limit",
        125 => "auto_manage_interval",
        126 => "seed_time_limit",
        127 => "auto_scrape_interval",
        128 => "auto_scrape_min_interval",
        129 => "min_announce_interval",
        130 => "auto_manage_startup",
        131 => "udp_tracker_token_expiry",
        132 => "tracker_backoff",
        133 => "share_ratio_limit",
        134 => "seed_time_ratio_limit",
        135 => "max_http_recv_buffer_size",
        136 => "max_concurrent_http_announces",
        137 => "announce_port",
        _ => "",
    }
}

/// libtorrent's default for the int setting at `i`.
pub fn int_default(i: usize) -> (r: i32)
    requires
        i < NUM_INT,
    ensures
        r == int_setting_default(i as int),
{
    match i {
        0 => 15,
        1 => 30,
        2 => 10240,
        3 => 512000,
        4 => 50,
        5 => 0,
        6 => 0,
        7 => 0,
        8 => 0,
        9 => 0,
        10 => 8,
        11 => 100,
        12 => 3000,
        13 => 500,
        14 => 2,
        15 => 2,
        16 => 3,
        17 => 3000,
        18 => 50,
        19 => 1,
        20 => 2048,
        21 => 2048,
        22 => 100,
        23 => 16384,
        24 => 1024,
        25 => 120,
        26 => 3,
        27 => 60,
        28 => 15,
        29 => 30,
        30 => 600,
        31 => 10,
        32 => 0,
        33 => 0,
        34 => 4,
        35 => 3000,
        36 => 1000,
        37 => 0,
        38 => 0,
        39 => 2097152,
        40 => 50,
        41 => 200,
        42 => 10,
        43 => 5,
        44 => 30,
        45 => 4,
        46 => 90,
        47 => 300,
        48 => 10,
        49 => 10,
        50 => 300,
        51 => 900,
        52 => 8000,
        53 => 3600,
        54 => 100,
        55 => 5,
        56 => 20,
        57 => 2000,
        58 => 700,
        59 => 500,
        60 => 300,
        61 => 5,
        62 => 0,
        63 => 21600,
        64 => 20,
        65 => 3600,
        66 => 20,
        67 => 30,
        68 => 500,
        69 => 2000,
        70 => 1,
        71 => 1,
        72 => 1,
        73 => 3,
        74 => 0,
        75 => 0,
        76 => 0,
        77 => 16777216,
        78 => 1800,
        79 => 3,
        80 => 1200,
        81 => 3,
        82 => 3,
        83 => 3,
        84 => 3,
        85 => 0,
        86 => 0,
        87 => 20,
        88 => 60,
        89 => 3,
        90 => 2000,
        91 => 500,
        92 => 20,
        93 => 40,
        94 => 4,
        95 => 5,
        96 => 0,
        97 => 1048576,
        98 => 0,
        99 => 0,
        100 => 20,
        101 => 600,
        102 => 16,
        103 => 3,
        104 => 31457280,
        105 => 1,
        106 => 256,
        107 => 0,
        108 => 10,
        109 => 0,
        110 => 2097152,
        111 => 2500000,
        112 => 2,
        113 => 40,
        114 => 30,
        115 => 10,
        116 => 5,
        117 => 200,
        118 => 3,
        119 => 5,
        120 => 1,
        121 => 88,
        122 => 1600,
        123 => 60,
        124 => 500,
        125 => 30,
        126 => 86400,
        127 => 1800,
        128 => 300,
        129 => 300,
        130 => 60,
        131 => 60,
        132 => 250,
        133 => 200,
        134 => 700,
        135 => 4194304,
        136 => 50,
        137 => 0,
        _ => 0,
    }
}

/// The name of the bool setting at `i`.
pub open spec fn bool_setting_name(i: int) -> Seq<char> {
    if i == 0 {
        "rate_limit_ip_overhead"@
    } else if i == 1 {
        "allow_multiple_connections_per_ip"@
    } else if i == 2 {
        "use_parole_mode"@
    } else if i == 3 {
        "close_redundant_connections"@
    } else if i == 4 {
        "enable_outgoing_utp"@
    } else if i == 5 {
        "enable_incoming_utp"@
    } else if i == 6 {
        "enable_outgoing_tcp"@
    } else if i == 7 {
        "enable_incoming_tcp"@
    } else if i == 8 {
        "seeding_outgoing_connections"@
    } else if i == 9 {
        "no_connect_privileged_ports"@
    } else if i == 10 {
        "smooth_connects"@
    } else if i == 11 {
        "listen_system_port_fallback"@
    } else if i == 12 {
        "allow_multiple_connections_per_pid"@
    } else if i == 13 {
        "use_dht_as_fallback"@
    } else if i == 14 {
        "upnp_ignore_nonrouters"@
    } else if i == 15 {
        "enable_upnp"@
    } else if i == 16 {
        "enable_natpmp"@
    } else if i == 17 {
        "enable_lsd"@
    } else if i == 18 {
        "enable_dht"@
    } else if i == 19 {
        "enable_ip_notifier"@
    } else if i == 20 {
        "dht_prefer_verified_node_ids"@
    } else if i == 21 {
        "dht_restrict_routing_ips"@
    } else if i == 22 {
        "dht_restrict_search_ips"@
    } else if i == 23 {
        "dht_extended_routing_table"@
    } else if i == 24 {
        "dht_aggressive_lookups"@
    } else if i == 25 {
        "dht_privacy_lookups"@
    } else if i == 26 {
        "dht_enforce_node_id"@
    } else if i == 27 {
        "dht_ignore_dark_internet"@
    } else if i == 28 {
        "dht_read_only"@
    } else if i == 29 {
        "allow_i2p_mixed"@
    } else if i == 30 {
        "anonymous_mode"@
    } else if i == 31 {
        "report_web_seed_downloads"@
    } else if i == 32 {
        "ban_web_seeds"@
    } else if i == 33 {
        "prefer_rc4"@
    } else if i == 34 {
        "proxy_hostnames"@
    } else if i == 35 {
        "proxy_peer_connections"@
    } else if i == 36 {
        "proxy_tracker_connections"@
    } else if i == 37 {
        "socks5_udp_send_local_ep"@
    } else if i == 38 {
        "proxy_send_host_in_connect"@
    } else if i == 39 {
        "send_redundant_have"@
    } else if i == 40 {
        "prioritize_partial_pieces"@
    } else if i == 41 {
        "disable_hash_checks"@
    } else if i == 42 {
        "no_atime_storage"@
    } else if i == 43 {
        "report_true_downloaded"@
    } else if i == 44 {
        "strict_end_game_mode"@
    } else if i == 45 {
        "no_recheck_incomplete_resume"@
    } else if i == 46 {
        "support_share_mode"@
    } else if i == 47 {
        "report_redundant_bytes"@
    } else if i == 48 {
        "auto_sequential"@
    } else if i == 49 {
        "piece_extent_affinity"@
    } else if i == 50 {
        "enable_set_file_valid_data"@
    } else if i == 51 {
        "disk_disable_copy_on_write"@
    } else if i == 52 {
        "auto_manage_prefer_seeds"@
    } else if i == 53 {
        "dont_count_slow_torrents"@
    } else if i == 54 {
        "announce_to_all_tiers"@
    } else if i == 55 {
        "announce_to_all_trackers"@
    } else if i == 56 {
        "prefer_udp_trackers"@
    } else if i == 57 {
        "incoming_starts_queued_torrents"@
    } else if i == 58 {
        "always_send_user_agent"@
    } else if i == 59 {
        "apply_ip_filter_to_trackers"@
    } else if i == 60 {
        "announce_crypto_support"@
    } else if i == 61 {
        "validate_https_trackers"@
    } else if i == 62 {
        "ssrf_mitigation"@
    } else if i == 63 {
        "allow_idna"@
    } else {
        Seq::empty()
    }
}

/// libtorrent's default for the bool setting at `i`.
pub open spec fn bool_setting_default(i: int) -> bool {
    if i == 0 {
        true
    } else if i == 1 {
        false
    } else if i == 2 {
        true
    } else if i == 3 {
        true
    } else if i == 4 {
        true
    } else if i == 5 {
        true
    } else if i == 6 {
        true
    } else if i == 7 {
        true
    } else if i == 8 {
        true
    } else if i == 9 {
        false
    } else if i == 10 {
        true
    } else if i == 11 {
        true
    } else if i == 12 {
        false
    } else if i == 13 {
        false
    } else if i == 14 {
        false
    } else if i == 15 {
        true
    } else if i == 16 {
        true
    } else if i == 17 {
        true
    } else if i == 18 {
        true
    } else if i == 19 {
        true
    } else if i == 20 {
        true
    } else if i == 21 {
        true
    } else if i == 22 {
        true
    } else if i == 23 {
        true
    } else if i == 24 {
        true
    } else if i == 25 {
        false
    } else if i == 26 {
        false
    } else if i == 27 {
        true
    } else if i == 28 {
        false
    } else if i == 29 {
        false
    } else if i == 30 {
        false
    } else if i == 31 {
        true
    } else if i == 32 {
        true
    } else if i == 33 {
        false
    } else if i == 34 {
        true
    } else if i == 35 {
        true
    } else if i == 36 {
        true
    } else if i == 37 {
        false
    } else if i == 38 {
        false
    } else if i == 39 {
        true
    } else if i == 40 {
        false
    } else if i == 41 {
        false
    } else if i == 42 {
        true
    } else if i == 43 {
        false
    } else if i == 44 {
        true
    } else if i == 45 {
        false
    } else if i == 46 {
        true
    } else if i == 47 {
        true
    } else if i == 48 {
        true
    } else if i == 49 {
        false
    } else if i == 50 {
        false
    } else if i == 51 {
        true
    } else if i == 52 {
        false
    } else if i == 53 {
        true
    } else if i == 54 {
        false
    } else if i == 55 {
        false
    } else if i == 56 {
        true
    } else if i == 57 {
        false
    } else if i == 58 {
        false
    } else if i == 59 {
        true
    } else if i == 60 {
        true
    } else if i == 61 {
        true
    } else if i == 62 {
        true
    } else if i == 63 {
        false
    } else {
        false
    }
}

/// The name of the bool setting at `i`.
pub fn bool_name(i: usize) -> (r: &'static str)
    requires
        i < NUM_BOOL,
    ensures
        r@ == bool_setting_name(i as int),
{
    match i {
        0 => "rate_limit_ip_overhead",
        1 => "allow_multiple_connections_per_ip",
        2 => "use_parole_mode",
        3 => "close_redundant_connections",
        4 => "enable_outgoing_utp",
        5 => "enable_incoming_utp",
        6 => "enable_outgoing_tcp",
        7 => "enable_incoming_tcp",
        8 => "seeding_outgoing_connections",
        9 => "no_connect_privileged_ports",
        10 => "smooth_connects",
        11 => "listen_system_port_fallback",
        12 => "allow_multiple_connections_per_pid",
        13 => "use_dht_as_fallback",
        14 => "upnp_ignore_nonrouters",
        15 => "enable_upnp",
        16 => "enable_natpmp",
        17 => "enable_lsd",
        18 => "enable_dht",
        19 => "enable_ip_notifier",
        20 => "dht_prefer_verified_node_ids",
        21 => "dht_restrict_routing_ips",
        22 => "dht_restrict_search_ips",
        23 => "dht_extended_routing_table",
        24 => "dht_aggressive_lookups",
        25 => "dht_privacy_lookups",
        26 => "dht_enforce_node_id",
        27 => "dht_ignore_dark_internet",
        28 => "dht_read_only",
        29 => "allow_i2p_mixed",
        30 => "anonymous_mode",
        31 => "report_web_seed_downloads",
        32 => "ban_web_seeds",
        33 => "prefer_rc4",
        34 => "proxy_hostnames",
        35 => "proxy_peer_connections",
        36 => "proxy_tracker_connections",
        37 => "socks5_udp_send_local_ep",
        38 => "proxy_send_host_in_connect",
        39 => "send_redundant_have",
        40 => "prioritize_partial_pieces",
        41 => "disable_hash_checks",
        42 => "no_atime_storage",
        43 => "report_true_downloaded",
        44 => "strict_end_game_mode",
        45 => "no_recheck_incomplete_resume",
        46 => "support_share_mode",
        47 => "report_redundant_bytes",
        48 => "auto_sequential",
        49 => "piece_extent_affinity",
        50 => "enable_set_file_valid_data",
        51 => "disk_disable_copy_on_write",
        52 => "auto_manage_prefer_seeds",
        53 => "dont_count_slow_torrents",
        54 => "announce_to_all_tiers",
        55 => "announce_to_all_trackers",
        56 => "prefer_udp_trackers",
        57 => "incoming_starts_queued_torrents",
        58 => "always_send_user_agent",
        59 => "apply_ip_filter_to_trackers",
        60 => "announce_crypto_support",
        61 => "validate_https_trackers",
        62 => "ssrf_mitigation",
        63 => "allow_idna",
        _ => "",
    }
}

/// libtorrent's default for the bool setting at `i`.
pub fn bool_default(i: usize) -> (r: bool)
    requires
        i < NUM_BOOL,
    ensures
        r == bool_setting_default(i as int),
{
    match i {
        0 => true,
        1 => false,
        2 => true,
        3 => true,
        4 => true,
        5 => true,
        6 => true,
        7 => true,
        8 => true,
        9 => false,
        10 => true,
        11 => true,
        12 => false,
        13 => false,
        14 => false,
        15 => true,
        16 => true,
        17 => true,
        18 => true,
        19 => true,
        20 => true,
        21 => true,
        22 => true,
        23 => true,
        24 => true,
        25 => false,
        26 => false,
        27 => true,
        28 => false,
        29 => false,
        30 => false,
        31 => true,
        32 => true,
        33 => false,
        34 => true,
        35 => true,
        36 => true,
        37 => false,
        38 => false,
        39 => true,
        40 => false,
        41 => false,
        42 => true,
        43 => false,
        44 => true,
        45 => false,
        46 => true,
        47 => true,
        48 => true,
        49 => false,
        50 => false,
        51 => true,
        52 => false,
        53 => true,
        54 => false,
        55 => false,
        56 => true,
        57 => false,
        58 => false,
        59 => true,
        60 => true,
        61 => true,
        62 => true,
        63 => false,
        _ => false,
    }
}

/// The name of the setting of `kind` at `index`.
pub open spec fn spec_setting_name(kind: SettingKind, index: int) -> Seq<char> {
    match kind {
        SettingKind::Str => str_setting_name(index),
        SettingKind::Int => int_setting_name(index),
        SettingKind::Bool => bool_setting_name(index),
    }
}

/// The name of the setting of `kind` at `index`.
pub fn setting_name_at(kind: SettingKind, index: usize) -> (r: &'static str)
    requires
        index < (match kind {
            SettingKind::Str => NUM_STR,
            SettingKind::Int => NUM_INT,
            SettingKind::Bool => NUM_BOOL,
        }),
    ensures
        r@ == spec_setting_name(kind, index as int),
{
    match kind {
        SettingKind::Str => str_name(index),
        SettingKind::Int => int_name(index),
        SettingKind::Bool => bool_name(index),
    }
}

} // verus!
