//! Tests of the settings pack: key-based access, the settings table,
//! name lookup, defaults, merging and the typed setters.

use rbtorrent::settings::table::{NUM_BOOL, NUM_INT, NUM_STR};
use rbtorrent::settings::{all_settings, setting_by_name};
use rbtorrent::settings::{ChokingAlgorithm, EncLevel, ProxyType, SettingKey, SettingKind, SettingsPack};

#[test]
fn roundtrip_every_setting() {
    let mut pack = SettingsPack::new();
    let table = all_settings();
    for &(key, name, kind) in &table {
        assert!(!pack.has(key), "{name} set in fresh pack");
        match kind {
            SettingKind::Str => {
                pack.set_str(key, "value");
                assert_eq!(pack.get_str(key).as_deref(), Some("value"), "{name}");
            }
            SettingKind::Int => {
                pack.set_int(key, 7);
                assert_eq!(pack.get_int(key), Some(7), "{name}");
            }
            SettingKind::Bool => {
                pack.set_bool(key, true);
                assert_eq!(pack.get_bool(key), Some(true), "{name}");
            }
        }
        assert!(pack.has(key), "{name}");
        assert_eq!(key.kind(), kind, "{name}");
        assert_eq!(SettingKey::from_raw(key.raw()), Some(key), "{name}");
    }
    let mut cloned = pack.clone();
    cloned.clear();
    for &(key, name, _) in &table {
        assert!(pack.has(key), "{name} lost from the cloned pack");
        assert!(!cloned.has(key), "{name} survived clear");
    }
}

#[test]
fn all_settings_matches_generated_table() {
    let listed = all_settings();
    assert_eq!(listed.len(), NUM_STR + NUM_INT + NUM_BOOL);
    assert!(listed.len() > 200, "expected the full settings table");
    for (key, name, kind) in listed {
        assert_eq!(key.kind(), kind, "{name}");
        assert!(!name.is_empty());
    }
}

#[test]
fn name_lookup_roundtrip() {
    // libtorrent's own name table lists announce_to_all_tiers and
    // announce_to_all_trackers in the opposite order to its settings enum,
    // so name-based lookup is cross-wired for exactly this pair. The keys
    // follow the enum, which is what libtorrent's own behavior uses.
    let swapped = ["announce_to_all_tiers", "announce_to_all_trackers"];
    for (key, name, _) in all_settings() {
        if swapped.contains(&name) {
            let partner_key = setting_by_name(name).expect(name);
            assert_ne!(partner_key, key, "{name}: libtorrent swap resolved?");
            let partner = key.name().expect(name);
            assert!(swapped.contains(&partner) && partner != name, "{name} resolved to {partner}");
            continue;
        }
        assert_eq!(setting_by_name(name), Some(key), "{name}");
        assert_eq!(key.name(), Some(name), "{name}");
    }
    assert_eq!(setting_by_name("no_such_setting"), None);
    assert_eq!(setting_by_name(""), None);
}

#[test]
fn invalid_keys_rejected() {
    // In-range type bits, out-of-range indices.
    assert_eq!(SettingKey::from_raw(0x3fff), None);
    assert_eq!(SettingKey::from_raw(0x7fff), None);
    assert_eq!(SettingKey::from_raw(0xbfff_u32 as i32), None);
    // Invalid type bits, negative, and out-of-encoding values.
    assert_eq!(SettingKey::from_raw(0xc000_u32 as i32), None);
    assert_eq!(SettingKey::from_raw(-1), None);
    assert_eq!(SettingKey::from_raw(0x1_0000), None);
    assert_eq!(SettingKey::from_raw(i32::MAX), None);
    assert_eq!(SettingKey::from_raw(i32::MIN), None);
}

#[test]
fn key_based_access_via_name() {
    let key = setting_by_name("upload_rate_limit").unwrap();
    assert_eq!(key.kind(), SettingKind::Int);
    let mut pack = SettingsPack::new();
    pack.set_int(key, 4096);
    assert_eq!(pack.get_int(key), Some(4096));
    assert_eq!(pack.get_upload_rate_limit(), Some(4096));
    pack.clear_key(key);
    assert!(!pack.has(key));
}

#[test]
fn defaults_are_populated() {
    let defaults = SettingsPack::defaults();
    let agent = defaults.get_user_agent().expect("user_agent default");
    assert!(agent.contains("libtorrent"), "{agent:?}");
    assert!(defaults.get_alert_mask().is_some());
    assert_eq!(defaults.get_enable_dht(), Some(true));
    // The pack is dense: every known setting is present, including
    // strings whose default is empty.
    for (key, name, _) in all_settings() {
        assert!(defaults.has(key), "{name} missing from defaults");
    }
    assert_eq!(defaults.get_proxy_hostname().as_deref(), Some(""));
}

#[test]
fn typed_enum_settings() {
    let mut pack = SettingsPack::new();
    pack.proxy_type(ProxyType::Socks5)
        .choking_algorithm(ChokingAlgorithm::RateBasedChoker)
        .allowed_enc_level(EncLevel::PeBoth);
    assert_eq!(pack.get_proxy_type(), Some(ProxyType::Socks5));
    assert_eq!(pack.get_choking_algorithm(), Some(ChokingAlgorithm::RateBasedChoker));
    assert_eq!(pack.get_allowed_enc_level(), Some(EncLevel::PeBoth));
}

#[test]
fn apply_merges_only_present_values() {
    let mut base = SettingsPack::new();
    base.upload_rate_limit(1000).download_rate_limit(2000);
    let mut delta = SettingsPack::new();
    delta.download_rate_limit(3000).user_agent("merged/1.0");
    base.apply(&delta);
    assert_eq!(base.get_upload_rate_limit(), Some(1000));
    assert_eq!(base.get_download_rate_limit(), Some(3000));
    assert_eq!(base.get_user_agent().as_deref(), Some("merged/1.0"));
    // The delta itself is untouched.
    assert!(!delta.has(setting_by_name("upload_rate_limit").unwrap()));
}

#[test]
fn set_default_writes_libtorrent_defaults() {
    let defaults = SettingsPack::defaults();
    let mut pack = SettingsPack::new();
    for name in ["user_agent", "connections_limit", "enable_dht"] {
        let key = setting_by_name(name).unwrap();
        pack.set_default(key);
        assert!(pack.has(key), "{name}");
        match key.kind() {
            SettingKind::Str => assert_eq!(pack.get_str(key), defaults.get_str(key), "{name}"),
            SettingKind::Int => assert_eq!(pack.get_int(key), defaults.get_int(key), "{name}"),
            SettingKind::Bool => {
                assert_eq!(pack.get_bool(key), defaults.get_bool(key), "{name}");
            }
        }
    }
}

#[test]
fn builder_chaining() {
    let mut pack = SettingsPack::new();
    pack.upload_rate_limit(1000).download_rate_limit(2000).user_agent("rbtorrent-test/1.0");
    assert_eq!(pack.get_upload_rate_limit(), Some(1000));
    assert_eq!(pack.get_download_rate_limit(), Some(2000));
    assert_eq!(pack.get_user_agent().as_deref(), Some("rbtorrent-test/1.0"));
}
