//! The library's checks and encodings on concrete values: errors, handle
//! and filter checks, address encoding, hashes, flags, priorities, file
//! ranges and torrent-creation validation.

use rbtorrent::alerts::CtError;
use rbtorrent::create::{
    check_c_text, creation_date_secs, validate_create, validate_create_on, CreateFlags, FILE_EXECUTABLE,
    FILE_SYMLINK,
};
use rbtorrent::error::{CT_ERRC_OPERATION_CANCELED, CT_ERROR_CAT_GENERIC, CT_ERROR_CAT_HTTP, CT_ERROR_CAT_NONE};
use rbtorrent::filter::{check_ip_rule, check_port_rule, is_blocked, rule_flags};
use rbtorrent::handle::{
    check_file, check_file_priorities, check_peer_limit, check_piece, check_piece_priorities,
    check_queue_position, check_rate_limit, peer_limit_from_reported, UNLIMITED_PEERS,
};
use rbtorrent::info::{block_range_ok, file_range_ok, index_from_reported, split_sha1_list};
use rbtorrent::net::{CtAddress, CtEndpoint, IpAddress, SocketAddress};
use rbtorrent::params::{check_magnet_uri, check_renamed_file, check_torrent_buffer, TORRENT_FLAGS_DEFAULT, TORRENT_FLAG_PAUSED};
use rbtorrent::stats::{check_metric_name, metric_index_from_reported};
use rbtorrent::types::bools_to_bitfield;
use rbtorrent::{
    Category, DownloadPriority, Error, FileEntry, FileFlags, InfoHash, LoadTorrentLimits,
    MetricKind, PieceBitfield, Sha1Hash, Sha256Hash, TorrentFlags, TorrentState,
};

#[test]
fn error_text_and_cancellation() {
    let e = Error::from_ct(404, CT_ERROR_CAT_HTTP, "not found".into()).unwrap();
    assert_eq!(e.category(), Category::Http);
    assert_eq!(e.to_string(), "not found (Http:404)");
    assert!(Error::from_ct(5, CT_ERROR_CAT_NONE, "x".into()).is_none());
    let c = Error::from_ct(CT_ERRC_OPERATION_CANCELED, CT_ERROR_CAT_GENERIC, "cancelled".into())
        .unwrap();
    assert!(c.is_cancelled());
    assert!(!e.is_cancelled());
    assert_eq!(Error::binding("b").to_string(), "b (Bindings:0)");
    assert_eq!(Error::client("c".into()).category(), Category::Client);
    assert_eq!(Error::from_message("m".into()).to_string(), "m (Unknown:0)");
    assert_eq!(Category::from_ct(99), Category::Unknown);
    let negative = Error::from_ct(-3, CT_ERROR_CAT_GENERIC, "neg".into()).unwrap();
    assert_eq!(negative.to_string(), "neg (Generic:-3)");
}

#[test]
fn handle_limits() {
    assert!(check_rate_limit(-1).is_ok());
    assert!(check_rate_limit(1).is_ok());
    assert_eq!(
        check_rate_limit(0).unwrap_err().message(),
        "rate limit must be -1 (unlimited) or a positive rate in bytes/s, got 0"
    );
    assert!(check_rate_limit(i32::MAX).is_err());
    assert!(check_peer_limit(2).is_ok());
    assert!(check_peer_limit(16_777_214).is_ok());
    assert_eq!(
        check_peer_limit(1).unwrap_err().message(),
        "limit must be -1 (unlimited) or between 2 and 16777214, got 1"
    );
    assert!(check_peer_limit(UNLIMITED_PEERS).is_err());
    assert!(check_peer_limit(-2).is_err());
    assert_eq!(peer_limit_from_reported(UNLIMITED_PEERS), -1);
    assert_eq!(peer_limit_from_reported(50), 50);
    // An accepted limit reads back unchanged.
    assert_eq!(peer_limit_from_reported(16_777_214), 16_777_214);
}

#[test]
fn handle_indices_and_priority_lists() {
    let e = check_piece(None, 0).unwrap_err();
    assert_eq!(e.message(), "torrent metadata is not available yet");
    assert!(check_piece(Some(4), 3).is_ok());
    assert_eq!(check_piece(Some(4), 4).unwrap_err().message(), "piece index 4 is outside 0..4");
    assert_eq!(check_file(Some(2), -1).unwrap_err().message(), "file index -1 is outside 0..2");
    let p = DownloadPriority::default();
    assert!(check_piece_priorities(Some(2), &[p, p]).is_ok());
    assert_eq!(
        check_piece_priorities(Some(1), &[p, p]).unwrap_err().message(),
        "piece priority list is longer than the number of pieces"
    );
    assert_eq!(
        check_file_priorities(Some(-1), &[p]).unwrap_err().message(),
        "file priority list is longer than the number of files"
    );
    assert!(check_file_priorities(Some(-1), &[]).is_ok());
    assert!(check_file_priorities(None, &[]).is_err());
    assert!(check_queue_position(0).is_ok());
    assert_eq!(check_queue_position(-1).unwrap_err().message(), "queue position must be >= 0");
}

#[test]
fn filter_rules() {
    let a = IpAddress::V4([10, 0, 0, 1]);
    let b = IpAddress::V4([10, 0, 1, 0]);
    assert!(check_ip_rule(&a, &b).is_ok());
    assert!(check_ip_rule(&a, &a).is_ok());
    assert_eq!(check_ip_rule(&b, &a).unwrap_err().message(), "IP filter range is descending");
    let v6 = IpAddress::V6([0; 16]);
    assert_eq!(
        check_ip_rule(&a, &v6).unwrap_err().message(),
        "IP filter range endpoints must be the same IP version"
    );
    assert!(check_port_rule(80, 80).is_ok());
    assert_eq!(check_port_rule(81, 80).unwrap_err().message(), "port filter range is descending");
    assert!(is_blocked(rule_flags(true)));
    assert!(!is_blocked(rule_flags(false)));
}

#[test]
fn address_encoding_round_trips() {
    let v4 = IpAddress::V4([192, 168, 1, 2]);
    let ct = v4.to_ct();
    let mut expected = [0u8; 16];
    expected[..4].copy_from_slice(&[192, 168, 1, 2]);
    assert_eq!(ct, CtAddress { bytes: expected, is_v6: false });
    assert_eq!(IpAddress::from_ct(&ct), v4);
    let mut six = [0u8; 16];
    six[15] = 1;
    let v6 = IpAddress::V6(six);
    assert_eq!(IpAddress::from_ct(&v6.to_ct()), v6);

    let ep = SocketAddress { ip: v4, port: 6881, scope_id: 9 };
    let ct = ep.to_ct();
    assert_eq!(ct, CtEndpoint { addr: expected, scope_id: 0, port: 6881, is_v6: false });
    assert_eq!(SocketAddress::from_ct(&ct), SocketAddress { ip: v4, port: 6881, scope_id: 0 });
    let ep6 = SocketAddress { ip: v6, port: 1, scope_id: 3 };
    assert_eq!(SocketAddress::from_ct(&ep6.to_ct()), ep6);
}

#[test]
fn hashes_and_info_hashes() {
    let mut b = [0u8; 20];
    b[0] = 0xab;
    b[19] = 0x01;
    let h1 = Sha1Hash(b);
    assert_eq!(h1.to_string(), "ab00000000000000000000000000000000000001");
    assert!(!h1.is_all_zeros());
    assert!(Sha1Hash([0; 20]).is_all_zeros());
    let h2 = Sha256Hash([0xff; 32]);
    assert_eq!(h2.to_string(), "f".repeat(64));

    let parts = InfoHash::from_parts(h1, Sha256Hash([0; 32]));
    assert_eq!(parts.v1(), Some(h1));
    assert_eq!(parts.v2(), None);
    assert_eq!(InfoHash::from_parts(parts.to_parts().0, parts.to_parts().1), parts);
    let hybrid = InfoHash::new(Some(h1), Some(h2));
    assert!(hybrid.overlaps(&InfoHash::from_v1(h1)));
    assert!(InfoHash::from_v1(h1).overlaps(&hybrid));
    assert!(hybrid.overlaps(&InfoHash::from_v2(h2)));
    assert!(!InfoHash::from_v1(h1).overlaps(&InfoHash::from_v2(h2)));
    assert!(!InfoHash::new(None, None).overlaps(&InfoHash::new(None, None)));
}

#[test]
fn piece_bitfield() {
    let bytes = [0b1010_0000u8, 0b1000_0000];
    let bf = PieceBitfield::from_bytes(&bytes, 9);
    assert_eq!(bf.len(), 9);
    assert!(!bf.is_empty());
    assert_eq!(bf.get(0), Some(true));
    assert_eq!(bf.get(1), Some(false));
    assert_eq!(bf.get(2), Some(true));
    assert_eq!(bf.get(8), Some(true));
    assert_eq!(bf.get(9), None);
    assert_eq!(bf.count_ones(), 3);
    assert_eq!(
        bf.iter(),
        vec![true, false, true, false, false, false, false, false, true]
    );
}

#[test]
fn torrent_flags_and_priorities() {
    let d = TorrentFlags::from_bits(TORRENT_FLAGS_DEFAULT);
    assert!(d.contains(TorrentFlags::from_bits(TORRENT_FLAG_PAUSED)));
    let cleared = d.intersection(TorrentFlags::from_bits(TORRENT_FLAG_PAUSED).complement());
    assert!(!cleared.contains(TorrentFlags::from_bits(TORRENT_FLAG_PAUSED)));
    assert_eq!(cleared.union(TorrentFlags::from_bits(TORRENT_FLAG_PAUSED)), d);
    assert!(TorrentFlags::empty().union(d).intersects(d));
    assert_eq!(TorrentFlags::empty().bits(), 0);

    assert_eq!(DownloadPriority::new(7).map(|p| p.value()), Some(7));
    assert!(DownloadPriority::new(8).is_none());
    assert_eq!(
        DownloadPriority::try_from(9u8).unwrap_err().message(),
        "download priority is outside 0..=7"
    );
    assert_eq!(DownloadPriority::try_from(5u8).unwrap().value(), 5);
    let p = DownloadPriority::new(6).unwrap();
    assert_eq!(u8::from(p), p.value());
    assert_eq!(DownloadPriority::new(u8::from(p)), Some(p));
    assert_eq!(DownloadPriority::from_reported(200).value(), 7);
    assert_eq!(DownloadPriority::from_reported(3).value(), 3);
    assert_eq!(DownloadPriority::default().value(), 4);
    assert_eq!(DownloadPriority::top().value(), 7);
}

#[test]
fn params_checks() {
    let limits = LoadTorrentLimits::default();
    assert_eq!(limits.max_buffer_size, 10 * 1024 * 1024);
    assert!(check_torrent_buffer(10 * 1024 * 1024, &limits).is_ok());
    assert_eq!(
        check_torrent_buffer(10 * 1024 * 1024 + 1, &limits).unwrap_err().message(),
        "torrent buffer exceeds the max_buffer_size limit"
    );
    let negative = LoadTorrentLimits { max_buffer_size: -1, ..limits };
    assert!(check_torrent_buffer(0, &negative).is_err());
    assert_eq!(check_magnet_uri("magnet:?xt=x".into()).unwrap(), "magnet:?xt=x");
    assert_eq!(
        check_magnet_uri(String::new()).unwrap_err().message(),
        "cannot make a magnet URI without an info-hash"
    );
    assert_eq!(check_renamed_file(-1, None).unwrap_err().message(), "file index -1 is negative");
    assert!(check_renamed_file(5, None).is_ok());
    assert_eq!(
        check_renamed_file(5, Some(5)).unwrap_err().message(),
        "file index 5 is outside 0..5"
    );
}

#[test]
fn states_and_metrics() {
    assert_eq!(TorrentState::from_code(3), TorrentState::Downloading);
    assert_eq!(TorrentState::from_code(6), TorrentState::Unknown(6));
    for code in [1, 2, 3, 4, 5, 6, 7, 42, -1] {
        assert_eq!(TorrentState::from_code(code).code(), code);
    }
    assert_eq!(MetricKind::from_raw(0), MetricKind::Counter);
    assert_eq!(MetricKind::from_raw(1), MetricKind::Gauge);
    assert!(check_metric_name("net.recv_bytes").is_ok());
    assert_eq!(
        check_metric_name("nul\0byte").unwrap_err().message(),
        "metric names cannot contain NUL bytes"
    );
    assert_eq!(metric_index_from_reported(-1), None);
    assert_eq!(metric_index_from_reported(12), Some(12));
}

#[test]
fn file_and_block_ranges() {
    assert!(file_range_ok(100, 0, 100));
    assert!(!file_range_ok(100, 1, 100));
    assert!(!file_range_ok(100, -1, 1));
    assert!(block_range_ok(4, 16384, 65536, 3, 0, 16384));
    assert!(!block_range_ok(4, 16384, 60000, 3, 0, 16384));
    assert!(!block_range_ok(4, 16384, 65536, 4, 0, 1));
    assert_eq!(index_from_reported(-1), None);
    assert_eq!(index_from_reported(0), Some(0));
    let mut bytes = vec![1u8; 20];
    bytes.extend([2u8; 20]);
    bytes.extend([3u8; 5]);
    let hashes = split_sha1_list(&bytes);
    assert_eq!(hashes, vec![Sha1Hash([1; 20]), Sha1Hash([2; 20])]);
}

fn entry(path: &str, size: i64) -> FileEntry {
    FileEntry::new(path, size).unwrap()
}

#[test]
fn file_entries() {
    assert_eq!(FileEntry::new("a\0b", 1).unwrap_err().message(), "path contains a NUL byte");
    assert_eq!(FileEntry::new("a", -1).unwrap_err().message(), "file size must not be negative");
    let e = entry("dir/file", 10).with_mtime(5).with_flags(FileFlags::from_bits_truncate(FILE_EXECUTABLE));
    assert_eq!(e.path(), b"dir/file");
    assert_eq!(e.mtime, Some(5));
    let link = e.with_symlink("target").unwrap();
    assert_eq!(link.symlink_target(), Some(&b"target"[..]));
    assert!(link.flags.contains(FileFlags::from_bits_truncate(FILE_SYMLINK)));
    assert!(link.flags.contains(FileFlags::from_bits_truncate(FILE_EXECUTABLE)));
    let listed = FileEntry::from_listing(b"x".to_vec(), 3, 0xff, 0, None);
    assert_eq!(listed.mtime, None);
    assert_eq!(listed.flags.bits(), 0xf);
    assert_eq!(CreateFlags::empty().bits(), 0);
}

#[test]
fn create_validation() {
    let ok = [entry("root/a", 10), entry("root/b", 20)];
    assert!(validate_create(&ok, 0).is_ok());
    assert!(validate_create(&ok, 16384).is_ok());
    assert!(validate_create(&[entry("single", 5)], 0).is_ok());
    let msg = |files: &[FileEntry], piece: u32| validate_create(files, piece).unwrap_err().message().to_string();
    assert_eq!(msg(&ok, 1 << 28), "piece_size exceeds 128 MiB maximum");
    assert_eq!(msg(&ok, 8192), "piece_size is below the 16 KiB minimum");
    assert_eq!(msg(&ok, 3 * 16384), "piece_size must be a power of two");
    assert_eq!(msg(&[entry("", 1)], 0), "file entry has an empty path");
    assert_eq!(msg(&[entry("root/a", 1), entry("root/a", 1)], 0), "duplicate path root/a");
    assert_eq!(
        msg(&[entry("root/../a", 1), entry("root/b", 1)], 0),
        "path root/../a has an empty, `.`, or `..` component"
    );
    assert_eq!(
        msg(&[entry("a", 1), entry("root/b", 1)], 0),
        "path a must be inside the torrent's root directory (multi-file layout)"
    );
    assert_eq!(
        msg(&[entry("r1/a", 1), entry("r2/b", 1)], 0),
        "path r2/b is outside the root directory r1: all files of a multi-file torrent share one root"
    );
    assert_eq!(
        msg(&[entry("r/a", i64::MAX), entry("r/b", 1)], 0),
        "total file size overflows"
    );
    assert_eq!(
        msg(&[FileEntry::from_listing(b"n".to_vec(), -1, 0, 0, None)], 0),
        "file entry has a negative size"
    );
    // Paths are shown with invalid UTF-8 replaced.
    let bad = FileEntry::from_listing(vec![b'r', b'/', 0xff], 1, 0, 0, None);
    assert_eq!(
        msg(&[bad.clone(), bad], 0),
        "duplicate path r/\u{fffd}"
    );
    // 2^30 pieces of 16 KiB are too many.
    assert_eq!(
        msg(&[entry("big", 1i64 << 44)], 16384),
        "total size / piece_size exceeds the maximum piece count"
    );
}

#[test]
fn call_outcomes() {
    let none = CtError { value: 0, category: CT_ERROR_CAT_NONE, message: String::new() };
    let set = CtError { value: 2, category: CT_ERROR_CAT_GENERIC, message: "no such file".into() };
    assert_eq!(none.outcome(5).unwrap(), 5);
    let e = set.outcome(5).unwrap_err();
    assert_eq!((e.value(), e.category(), e.message()), (2, Category::Generic, "no such file"));
    assert!(none.flag_outcome(true, "connect_peer failed").is_ok());
    assert!(set.flag_outcome(true, "connect_peer failed").is_ok());
    assert_eq!(set.flag_outcome(false, "connect_peer failed").unwrap_err().message(), "no such file");
    let e = none.flag_outcome(false, "connect_peer failed").unwrap_err();
    assert_eq!((e.category(), e.message()), (Category::Bindings, "connect_peer failed"));
}

#[test]
fn creation_text_fields_and_dates() {
    assert!(check_c_text("comment", "hello").is_ok());
    assert_eq!(
        check_c_text("comment", "bad\0comment").unwrap_err().message(),
        "comment contains null byte"
    );
    assert_eq!(check_c_text("url", "\0").unwrap_err().message(), "url contains null byte");
    assert_eq!(creation_date_secs(Some(1_700_000_000)).unwrap(), 1_700_000_000);
    assert_eq!(creation_date_secs(None).unwrap_err().message(), "Invalid timestamp");
}

#[test]
fn backslash_separates_components_on_windows() {
    let files = [entry("r\\a", 1), entry("r\\b", 1)];
    assert!(validate_create_on(&files, 0, true).is_ok());
    assert_eq!(
        validate_create_on(&files, 0, false).unwrap_err().message(),
        "path r\\a must be inside the torrent's root directory (multi-file layout)"
    );
    let dotted = [entry("r\\..\\a", 1)];
    assert_eq!(
        validate_create_on(&dotted, 0, true).unwrap_err().message(),
        "path r\\..\\a has an empty, `.`, or `..` component"
    );
    assert!(validate_create_on(&dotted, 0, false).is_ok());
    // This platform's rules are one of the two.
    let here = validate_create(&files, 0).is_ok();
    assert_eq!(here, std::path::MAIN_SEPARATOR == '\\');
}

#[test]
fn bools_pack_msb_first() {
    let (bytes, n) = bools_to_bitfield(&[true, false, true, false, false, false, false, false, true]);
    assert_eq!(bytes, vec![0b1010_0000, 0b1000_0000]);
    assert_eq!(n, 9);
    let (empty, zero) = bools_to_bitfield(&[]);
    assert!(empty.is_empty());
    assert_eq!(zero, 0);
    // Packing and reading back through a bitfield gives the bits.
    let bits = [false, true, true, false, true, true, true, true, false, false, true];
    let (bytes, n) = bools_to_bitfield(&bits);
    assert_eq!(PieceBitfield::from_bytes(&bytes, n as usize).iter(), bits.to_vec());
}
