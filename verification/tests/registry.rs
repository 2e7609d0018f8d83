//! The pending-request registry: token minting, first-in first-out
//! matching of stats responses, add resolution, removal, overflow and
//! teardown.

use rbtorrent::alerts::requests::{closed_error, dropped_error, Registry};
use rbtorrent::alerts::{
    AddTorrentAlert, AlertsDroppedAlert, CtError, CtInfoHash, TorrentRemovedAlert,
    ALERT_TYPE_ADD_TORRENT, ALERT_TYPE_SESSION_STATS,
};
use rbtorrent::error::CT_ERROR_CAT_LIBTORRENT;
use rbtorrent::{Category, Sha1Hash, Sha256Hash};

type Reg = Registry<u32, u32, String, u64>;

fn no_error() -> CtError {
    CtError { value: 0, category: 0, message: String::new() }
}

fn added(token: u64, error: CtError) -> AddTorrentAlert {
    AddTorrentAlert { error, userdata: token }
}

fn removed(token: u64) -> TorrentRemovedAlert {
    TorrentRemovedAlert {
        info_hashes: CtInfoHash { v1: Sha1Hash([0; 20]), v2: Sha256Hash([0; 32]) },
        userdata: token,
    }
}

fn dropped(types: &[i32]) -> AlertsDroppedAlert {
    let mut bits = [0u8; 16];
    for &t in types {
        bits[(t / 8) as usize] |= 1 << (t % 8);
    }
    AlertsDroppedAlert { dropped: bits }
}

#[test]
fn tokens_are_fresh_and_increasing() {
    let mut reg = Reg::new();
    let a = reg.enqueue_add_torrent("a".into(), 1).unwrap();
    let b = reg.enqueue_add_torrent("b".into(), 2).unwrap();
    assert_eq!((a, b), (1, 2));
    assert_eq!(reg.client_data(a).map(String::as_str), Some("a"));
    assert_eq!(reg.client_data(b).map(String::as_str), Some("b"));
}

#[test]
fn stats_are_answered_in_posting_order() {
    let mut reg = Reg::new();
    reg.enqueue_session_stats(10).unwrap();
    reg.enqueue_session_stats(20).unwrap();
    assert_eq!(reg.resolve_session_stats(), Some(10));
    assert_eq!(reg.resolve_session_stats(), Some(20));
    assert_eq!(reg.resolve_session_stats(), None);
}

#[test]
fn close_releases_pending_and_refuses_later_requests() {
    let mut reg = Reg::new();
    reg.enqueue_session_stats(7).unwrap();
    let token = reg.enqueue_add_torrent("data".into(), 8).unwrap();
    assert!(reg.check_open().is_ok());
    let released = reg.close();
    assert_eq!(released.session_stats.iter().copied().collect::<Vec<_>>(), vec![7]);
    assert_eq!(released.add_torrent.get(&token), Some(&8));
    assert!(reg.is_closed());
    // Client data belongs to the torrent, not to the request.
    assert_eq!(reg.client_data(token).map(String::as_str), Some("data"));

    let err = reg.enqueue_session_stats(9).unwrap_err();
    assert_eq!(err.category(), Category::Bindings);
    assert_eq!(err.message(), "the session was closed before the response alert arrived");
    assert_eq!(err.message(), closed_error().message());
    assert!(reg.enqueue_add_torrent("late".into(), 10).is_err());
    assert!(reg.check_open().is_err());
    assert_eq!(reg.resolve_session_stats(), None);
}

#[test]
fn abort_undoes_an_enqueue() {
    let mut reg = Reg::new();
    let token = reg.enqueue_add_torrent("data".into(), 5).unwrap();
    assert_eq!(reg.abort_add_torrent(token), (Some(5), Some("data".to_string())));
    assert!(reg.client_data(token).is_none());
    assert_eq!(reg.abort_add_torrent(token), (None, None));
}

#[test]
fn cancel_keeps_the_torrent_data() {
    let mut reg = Reg::new();
    let token = reg.enqueue_add_torrent("data".into(), 5).unwrap();
    assert_eq!(reg.cancel_add_torrent(token), Some(5));
    assert_eq!(reg.cancel_add_torrent(token), None);
    assert_eq!(reg.client_data(token).map(String::as_str), Some("data"));
}

#[test]
fn successful_add_files_the_handle() {
    let mut reg = Reg::new();
    let token = reg.enqueue_add_torrent("data".into(), 5).unwrap();
    let r = reg.resolve_add_torrent(&added(token, no_error()), Some(77), token);
    assert_eq!(r.sender, Some(5));
    assert_eq!(r.result.as_ref().ok(), Some(&77));
    assert!(r.stale_data.is_none());
    assert_eq!(reg.torrent_handle(token), Some(77));
    assert_eq!(reg.client_data(token).map(String::as_str), Some("data"));

    // Removal releases both, once.
    assert_eq!(reg.resolve_torrent_removed(&removed(token)), (Some("data".to_string()), Some(77)));
    assert_eq!(reg.torrent_handle(token), None);
    assert_eq!(reg.resolve_torrent_removed(&removed(token)), (None, None));
}

#[test]
fn failed_add_releases_its_data() {
    let mut reg = Reg::new();
    let token = reg.enqueue_add_torrent("data".into(), 5).unwrap();
    let error = CtError { value: 24, category: CT_ERROR_CAT_LIBTORRENT, message: "dup".into() };
    let r = reg.resolve_add_torrent(&added(token, error), Some(77), token);
    assert_eq!(r.sender, Some(5));
    let e = r.result.unwrap_err();
    assert_eq!((e.value(), e.category(), e.message()), (24, Category::Libtorrent, "dup"));
    assert_eq!(r.stale_data.as_deref(), Some("data"));
    assert_eq!(reg.torrent_handle(token), None);
    assert!(reg.client_data(token).is_none());
}

#[test]
fn add_without_handle_fails() {
    let mut reg = Reg::new();
    let token = reg.enqueue_add_torrent("data".into(), 5).unwrap();
    let r = reg.resolve_add_torrent(&added(token, no_error()), None, token);
    let e = r.result.unwrap_err();
    assert_eq!(e.category(), Category::Bindings);
    assert_eq!(e.message(), "add_torrent_alert has null handle");
    assert_eq!(r.stale_data.as_deref(), Some("data"));
}

#[test]
fn duplicate_add_resolves_to_the_existing_torrent() {
    let mut reg = Reg::new();
    let first = reg.enqueue_add_torrent("first".into(), 1).unwrap();
    reg.resolve_add_torrent(&added(first, no_error()), Some(70), first);
    let second = reg.enqueue_add_torrent("second".into(), 2).unwrap();
    // The handle is tagged with the first token: the second add's data is stale.
    let r = reg.resolve_add_torrent(&added(second, no_error()), Some(70), first);
    assert_eq!(r.result.as_ref().ok(), Some(&70));
    assert_eq!(r.stale_data.as_deref(), Some("second"));
    assert_eq!(reg.torrent_handle(second), None);
    assert_eq!(reg.torrent_handle(first), Some(70));
}

#[test]
fn removal_of_token_zero_is_ignored() {
    let mut reg = Reg::new();
    assert_eq!(reg.resolve_torrent_removed(&removed(0)), (None, None));
}

#[test]
fn overflow_releases_pending_requests_of_dropped_types() {
    let mut reg = Reg::new();
    reg.enqueue_session_stats(1).unwrap();
    let token = reg.enqueue_add_torrent("data".into(), 2).unwrap();

    // An unrelated type dropped: nothing released.
    let r = reg.handle_alerts_dropped(&dropped(&[3]));
    assert!(r.session_stats.is_empty() && r.add_torrent.is_empty());

    let r = reg.handle_alerts_dropped(&dropped(&[ALERT_TYPE_SESSION_STATS]));
    assert_eq!(r.session_stats.iter().copied().collect::<Vec<_>>(), vec![1]);
    assert!(r.add_torrent.is_empty());
    assert_eq!(reg.resolve_session_stats(), None);

    let r = reg.handle_alerts_dropped(&dropped(&[ALERT_TYPE_ADD_TORRENT]));
    assert_eq!(r.add_torrent.get(&token), Some(&2));
    // The data stays: the torrent may still attach.
    assert_eq!(reg.client_data(token).map(String::as_str), Some("data"));
    assert_eq!(dropped_error().category(), Category::Bindings);
    assert!(dropped_error().message().starts_with("the alert queue overflowed"));
}

#[test]
fn client_data_is_replace_only() {
    let mut reg = Reg::new();
    let token = reg.enqueue_add_torrent("old".into(), 1).unwrap();
    assert_eq!(reg.set_client_data(token, "new".into()).unwrap(), "old");
    assert_eq!(reg.client_data(token).map(String::as_str), Some("new"));
    let err = reg.set_client_data(token + 1, "x".into()).unwrap_err();
    assert_eq!(err.message(), "the torrent was removed");
    assert!(reg.client_data(token + 1).is_none());
}

#[test]
fn dropped_bits_read_per_type() {
    let alert = dropped(&[0, 9, 127]);
    assert!(alert.dropped(0) && alert.dropped(9) && alert.dropped(127));
    assert!(!alert.dropped(1) && !alert.dropped(8) && !alert.dropped(126));
    assert!(!alert.dropped(-1) && !alert.dropped(128));
}

#[test]
fn handle_client_data_lookup() {
    let mut reg = Reg::new();
    let token = reg.enqueue_add_torrent("data".into(), 1).unwrap();
    assert_eq!(reg.torrent_client_data(token).map(String::as_str).unwrap(), "data");
    assert_eq!(
        reg.torrent_client_data(0).unwrap_err().message(),
        "the torrent handle is expired"
    );
    reg.resolve_torrent_removed(&removed(token));
    assert_eq!(reg.torrent_client_data(token).unwrap_err().message(), "the torrent was removed");
}
