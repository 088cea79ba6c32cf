use wifi_sync::dispatch::{
    choose_operation, connection_settings, find_active_connection, ActiveConnection, NetworkOp,
};
use wifi_sync::icon::Icon;
use wifi_sync::render::{dialog_model, row_model};
use wifi_sync::settings::{Section, SettingValue};
use wifi_sync::snapshot::AccessPoint;
use wifi_sync::sync::{sync_step, RadioToggle, SyncAction, SyncEvent, SyncState};

fn ap(connected: bool, private: bool) -> AccessPoint {
    AccessPoint {
        bssid: "AA:BB:CC:DD:EE:FF".to_string(),
        ssid: "Home".to_string(),
        strength: 73,
        private,
        frequency: 2437,
        connected,
        path: "/ap/7".to_string(),
    }
}

fn setting_text<'a>(section: &'a Section, key: &str) -> &'a str {
    for setting in &section.settings {
        if setting.key == key {
            match &setting.value {
                SettingValue::Text(t) => return t,
                _ => panic!("setting {} is not text", key),
            }
        }
    }
    panic!("setting {} not found", key);
}

#[test]
fn connect_with_password_adds_security_section() {
    let settings = connection_settings(&"Home".to_string(), &Some("secret".to_string()));
    assert_eq!(settings.len(), 3);
    assert_eq!(settings[0].name, "connection");
    assert_eq!(setting_text(&settings[0], "id"), "Home");
    assert_eq!(setting_text(&settings[0], "type"), "802-11-wireless");
    assert_eq!(settings[1].name, "802-11-wireless");
    assert_eq!(setting_text(&settings[1], "mode"), "infrastructure");
    let security = &settings[2];
    assert_eq!(security.name, "802-11-wireless-security");
    assert_eq!(setting_text(security, "psk"), "secret");
    assert_eq!(setting_text(security, "key-mgmt"), "wpa-psk");
    assert_eq!(setting_text(security, "auth-alg"), "open");
}

#[test]
fn connect_without_password_has_no_security_section() {
    let settings = connection_settings(&"Home".to_string(), &None);
    assert_eq!(settings.len(), 2);
    assert!(settings.iter().all(|s| s.name != "802-11-wireless-security"));
}

#[test]
fn connect_carries_raw_ssid_bytes() {
    let settings = connection_settings(&"Home".to_string(), &None);
    let wifi = &settings[1];
    let mut found = false;
    for setting in &wifi.settings {
        if setting.key == "ssid" {
            match &setting.value {
                SettingValue::Bytes(b) => {
                    assert_eq!(b.as_slice(), b"Home");
                    found = true;
                },
                _ => panic!("ssid is not a byte value"),
            }
        }
    }
    assert!(found);
}

#[test]
fn confirm_on_connected_ap_disconnects() {
    let op = choose_operation(&ap(true, true), &Some("/profile/1".to_string()), None);
    match op {
        NetworkOp::Disconnect { ssid } => assert_eq!(ssid, "Home"),
        _ => panic!("expected a disconnect"),
    }
}

#[test]
fn confirm_on_known_ap_reconnects() {
    let op = choose_operation(&ap(false, true), &Some("/profile/1".to_string()), None);
    match op {
        NetworkOp::Reconnect { profile, ap_path } => {
            assert_eq!(profile, "/profile/1");
            assert_eq!(ap_path, "/ap/7");
        },
        _ => panic!("expected a reconnect"),
    }
}

#[test]
fn confirm_on_new_ap_connects_with_password() {
    let op = choose_operation(&ap(false, true), &None, Some("secret".to_string()));
    match op {
        NetworkOp::Connect { ap_path, ssid, password } => {
            assert_eq!(ap_path, "/ap/7");
            assert_eq!(ssid, "Home");
            assert_eq!(password, Some("secret".to_string()));
        },
        _ => panic!("expected a connect"),
    }
}

#[test]
fn disconnect_without_match_is_a_no_op() {
    let actives = vec![ActiveConnection {
        path: "/active/1".to_string(),
        id: "Elsewhere".to_string(),
    }];
    assert_eq!(find_active_connection(&actives, &"MySSID".to_string()), None);
    assert_eq!(find_active_connection(&Vec::new(), &"MySSID".to_string()), None);
}

#[test]
fn disconnect_finds_the_matching_connection() {
    let actives = vec![
        ActiveConnection { path: "/active/1".to_string(), id: "Other".to_string() },
        ActiveConnection { path: "/active/2".to_string(), id: "MySSID".to_string() },
    ];
    assert_eq!(find_active_connection(&actives, &"MySSID".to_string()), Some(1));
}

#[test]
fn row_shows_strength_lock_and_connected_marker() {
    let row = row_model(&ap(true, true));
    assert_eq!(row.title, "Home");
    assert_eq!(row.subtitle.as_deref(), Some("Connected"));
    assert_eq!(row.strength_icon, Icon::WiFiGood);
    assert_eq!(row.access_icon, Icon::Locked);
    assert_eq!(row.band.label(), "2.4GHz");

    let row = row_model(&ap(false, false));
    assert_eq!(row.subtitle, None);
    assert_eq!(row.access_icon, Icon::Unlocked);
}

#[test]
fn dialog_asks_password_only_for_private_unknown_networks() {
    let d = dialog_model(&ap(false, true), &None);
    assert!(d.needs_password);
    assert!(!d.offers_forget);
    assert_eq!(d.confirm_label, "Connect");

    let d = dialog_model(&ap(false, true), &Some("/profile/1".to_string()));
    assert!(!d.needs_password);
    assert!(d.offers_forget);

    let d = dialog_model(&ap(true, true), &None);
    assert!(!d.needs_password);
    assert_eq!(d.confirm_label, "Disconnect");
}

#[test]
fn icon_tracks_strength_ranges() {
    assert_eq!(Icon::wifi_from_strength(0), Icon::WiFiNone);
    assert_eq!(Icon::wifi_from_strength(10), Icon::WiFiNone);
    assert_eq!(Icon::wifi_from_strength(11), Icon::WiFiWeak);
    assert_eq!(Icon::wifi_from_strength(25), Icon::WiFiWeak);
    assert_eq!(Icon::wifi_from_strength(26), Icon::WiFiOk);
    assert_eq!(Icon::wifi_from_strength(60), Icon::WiFiOk);
    assert_eq!(Icon::wifi_from_strength(61), Icon::WiFiGood);
    assert_eq!(Icon::wifi_from_strength(80), Icon::WiFiGood);
    assert_eq!(Icon::wifi_from_strength(81), Icon::WiFiExcellent);
    assert_eq!(Icon::wifi_from_strength(100), Icon::WiFiExcellent);
    assert_eq!(Icon::wifi_from_strength(81).name(), "network-wireless-signal-excellent-symbolic");
    assert_eq!(Icon::Locked.name(), "changes-prevent-symbolic");
}

#[test]
fn sync_loop_reaches_watching() {
    let (state, actions) = sync_step(SyncState::BusDisconnected, SyncEvent::BusOpened { ok: true });
    assert!(matches!(state, SyncState::BusConnected));
    assert_eq!(actions, vec![SyncAction::ResolveDevice]);

    let (state, actions) = sync_step(
        state,
        SyncEvent::DeviceFound { device: Some("/dev/1".to_string()) },
    );
    assert!(matches!(&state, SyncState::DeviceResolved { device } if device == "/dev/1"));
    assert_eq!(actions, vec![SyncAction::RequestScan, SyncAction::ReadRadioState]);

    let (state, actions) = sync_step(state, SyncEvent::RadioRead { enabled: true });
    assert!(matches!(&state, SyncState::Watching { device } if device == "/dev/1"));
    assert_eq!(actions, vec![SyncAction::SetToggle { enabled: true, suppress_handler: true }]);

    let (state, actions) = sync_step(state, SyncEvent::ApListChanged);
    assert!(matches!(state, SyncState::Watching { .. }));
    assert_eq!(actions, vec![SyncAction::Rebuild]);

    let (state, actions) = sync_step(state, SyncEvent::ActiveApChanged);
    assert!(matches!(state, SyncState::Watching { .. }));
    assert_eq!(actions, vec![SyncAction::Rebuild]);

    let (state, actions) = sync_step(state, SyncEvent::RadioChanged { enabled: false });
    assert!(matches!(state, SyncState::Watching { .. }));
    assert_eq!(actions, vec![SyncAction::SetToggle { enabled: false, suppress_handler: true }]);
}

#[test]
fn sync_loop_failures_end_unavailable() {
    let (state, actions) = sync_step(SyncState::BusDisconnected, SyncEvent::BusOpened { ok: false });
    assert!(matches!(state, SyncState::Unavailable));
    assert_eq!(actions, vec![SyncAction::RenderEmpty]);

    let (state, actions) = sync_step(SyncState::BusConnected, SyncEvent::DeviceFound {
        device: None,
    });
    assert!(matches!(state, SyncState::Unavailable));
    assert_eq!(actions, vec![SyncAction::RenderEmpty]);

    let (state, actions) = sync_step(SyncState::Unavailable, SyncEvent::ApListChanged);
    assert!(matches!(state, SyncState::Unavailable));
    assert!(actions.is_empty());
}

#[test]
fn external_toggle_write_dispatches_nothing() {
    let mut toggle = RadioToggle::new(false);
    let mut dispatched_calls: usize = 0;
    for enabled in [true, false, true] {
        if toggle.apply_external(enabled).is_some() {
            dispatched_calls += 1;
        }
    }
    assert_eq!(dispatched_calls, 0);
    assert!(toggle.enabled);
    assert!(!toggle.suppressed);
}

#[test]
fn user_toggle_write_dispatches_once() {
    let mut toggle = RadioToggle::new(false);
    assert_eq!(toggle.apply_user(true), Some(true));
    assert!(toggle.enabled);
    assert_eq!(toggle.apply_user(false), Some(false));
    assert!(!toggle.enabled);
}
