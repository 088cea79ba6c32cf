use wifi_sync::profiles::{index_profiles, seen_bssids, Profile, ProfileIndex};
use wifi_sync::resolver::{resolve_active_access_point, resolve_wireless_device, Device, DeviceType};
use wifi_sync::settings::{Section, Setting, SettingItem, SettingValue};

fn wireless_section(items: Vec<SettingItem>) -> Section {
    Section {
        name: "802-11-wireless".to_string(),
        settings: vec![Setting {
            key: "seen-bssids".to_string(),
            value: SettingValue::List(items),
        }],
    }
}

#[test]
fn resolver_picks_first_wifi_device() {
    let devices = vec![
        Device { path: "/dev/0".to_string(), device_type: DeviceType::Modem },
        Device { path: "/dev/1".to_string(), device_type: DeviceType::Wifi },
    ];
    assert_eq!(resolve_wireless_device(&devices), Some(1));
}

#[test]
fn resolver_skips_unknown_devices() {
    let devices = vec![
        Device { path: "/dev/0".to_string(), device_type: DeviceType::Unknown },
        Device { path: "/dev/1".to_string(), device_type: DeviceType::Wifi },
        Device { path: "/dev/2".to_string(), device_type: DeviceType::Wifi },
    ];
    assert_eq!(resolve_wireless_device(&devices), Some(1));
}

#[test]
fn resolver_without_wifi_finds_nothing() {
    let devices = vec![Device { path: "/dev/0".to_string(), device_type: DeviceType::Modem }];
    assert_eq!(resolve_wireless_device(&devices), None);
    assert_eq!(resolve_wireless_device(&Vec::new()), None);
}

#[test]
fn device_type_from_raw_wire_values() {
    assert_eq!(DeviceType::from_raw(2), DeviceType::Wifi);
    assert_eq!(DeviceType::from_raw(8), DeviceType::Modem);
    assert_eq!(DeviceType::from_raw(1), DeviceType::Unknown);
    assert_eq!(DeviceType::from_raw(14), DeviceType::Unknown);
}

#[test]
fn active_ap_sentinel_is_filtered() {
    assert_eq!(resolve_active_access_point(Some("/".to_string())), None);
    assert_eq!(resolve_active_access_point(None), None);
    let real = "/org/freedesktop/NetworkManager/AccessPoint/7".to_string();
    assert_eq!(resolve_active_access_point(Some(real.clone())), Some(real));
}

#[test]
fn seen_bssids_reads_the_wireless_list() {
    let sections = vec![
        Section { name: "connection".to_string(), settings: Vec::new() },
        wireless_section(vec![
            SettingItem::Text("AA:BB:CC:DD:EE:01".to_string()),
            SettingItem::Other,
            SettingItem::Text("AA:BB:CC:DD:EE:02".to_string()),
        ]),
    ];
    let bssids = seen_bssids(&sections);
    assert_eq!(bssids, vec!["AA:BB:CC:DD:EE:01".to_string(), "AA:BB:CC:DD:EE:02".to_string()]);
}

#[test]
fn seen_bssids_missing_section_or_key_is_empty() {
    assert!(seen_bssids(&Vec::new()).is_empty());
    let no_key = vec![Section { name: "802-11-wireless".to_string(), settings: Vec::new() }];
    assert!(seen_bssids(&no_key).is_empty());
    let wrong_type = vec![Section {
        name: "802-11-wireless".to_string(),
        settings: vec![Setting {
            key: "seen-bssids".to_string(),
            value: SettingValue::Text("AA:BB".to_string()),
        }],
    }];
    assert!(seen_bssids(&wrong_type).is_empty());
}

#[test]
fn duplicate_bssid_maps_to_last_profile() {
    let profiles = vec![
        Profile {
            path: "/profile/1".to_string(),
            bssids: vec!["AA:BB:CC:DD:EE:FF".to_string()],
        },
        Profile {
            path: "/profile/2".to_string(),
            bssids: vec!["AA:BB:CC:DD:EE:FF".to_string()],
        },
    ];
    let index = index_profiles(&profiles);
    let bssid = "AA:BB:CC:DD:EE:FF".to_string();
    assert_eq!(index.get(&bssid), Some(&"/profile/2".to_string()));
}

#[test]
fn index_collects_every_bssid_of_a_profile() {
    let profiles = vec![Profile {
        path: "/profile/9".to_string(),
        bssids: vec!["11:11:11:11:11:11".to_string(), "22:22:22:22:22:22".to_string()],
    }];
    let index = index_profiles(&profiles);
    assert_eq!(index.get(&"11:11:11:11:11:11".to_string()), Some(&"/profile/9".to_string()));
    assert_eq!(index.get(&"22:22:22:22:22:22".to_string()), Some(&"/profile/9".to_string()));
    assert_eq!(index.get(&"33:33:33:33:33:33".to_string()), None);
}

#[test]
fn index_remove_takes_the_entry_out() {
    let mut index = ProfileIndex::new();
    index.insert("AA:AA:AA:AA:AA:AA".to_string(), "/profile/1".to_string());
    index.insert("AA:AA:AA:AA:AA:AA".to_string(), "/profile/2".to_string());
    let bssid = "AA:AA:AA:AA:AA:AA".to_string();
    assert_eq!(index.remove(&bssid), Some("/profile/2".to_string()));
    assert_eq!(index.remove(&bssid), None);
    assert_eq!(index.get(&bssid), None);
}
