use wifi_sync::snapshot::{build_all, APFlags, AccessPoint, ApScan, Band, BuildError};

fn scan(bssid: &str, ssid: &[u8], flags: u32, strength: u8, frequency: u32) -> ApScan {
    ApScan {
        path: format!("/org/freedesktop/NetworkManager/AccessPoint/{}", bssid),
        ssid: ssid.to_vec(),
        flags,
        strength,
        frequency,
        bssid: bssid.to_string(),
    }
}

#[test]
fn build_round_trip() {
    let ap = AccessPoint::build(scan("AA:BB:CC:DD:EE:FF", b"Home", 1, 73, 2437), None).unwrap();
    assert_eq!(ap.ssid, "Home");
    assert_eq!(ap.strength, 73);
    assert!(ap.private);
    assert_eq!(ap.frequency, 2437);
    assert!(!ap.connected);
    assert_eq!(ap.band().label(), "2.4GHz");
}

#[test]
fn build_private_iff_flags_nonzero() {
    let open = AccessPoint::build(scan("AA:AA:AA:AA:AA:01", b"Open", 0, 50, 2412), None).unwrap();
    assert!(!open.private);
    let wps = AccessPoint::build(scan("AA:AA:AA:AA:AA:02", b"Wps", 2, 50, 2412), None).unwrap();
    assert!(wps.private);
    let both = AccessPoint::build(scan("AA:AA:AA:AA:AA:03", b"Both", 3, 50, 2412), None).unwrap();
    assert!(both.private);
}

#[test]
fn build_rejects_undecodable_ssid() {
    let r = AccessPoint::build(scan("AA:AA:AA:AA:AA:04", &[0xff, 0xfe], 0, 50, 2412), None);
    assert_eq!(r.unwrap_err(), BuildError::SsidDecode);
}

#[test]
fn build_marks_connected_by_bssid() {
    let active = "AA:BB:CC:DD:EE:FF".to_string();
    let hit = AccessPoint::build(scan("AA:BB:CC:DD:EE:FF", b"Home", 1, 73, 2437), Some(&active))
        .unwrap();
    assert!(hit.connected);
    let miss = AccessPoint::build(scan("11:22:33:44:55:66", b"Home", 1, 73, 2437), Some(&active))
        .unwrap();
    assert!(!miss.connected);
}

#[test]
fn band_splits_at_5000_mhz() {
    let low = AccessPoint::build(scan("AA:AA:AA:AA:AA:05", b"Low", 0, 10, 5000), None).unwrap();
    assert_eq!(low.band(), Band::TwoPointFourGhz);
    assert_eq!(low.band().label(), "2.4GHz");
    let high = AccessPoint::build(scan("AA:AA:AA:AA:AA:06", b"High", 0, 10, 5001), None).unwrap();
    assert_eq!(high.band(), Band::FiveGhz);
    assert_eq!(high.band().label(), "5GHz");
}

#[test]
fn snapshot_orders_connected_then_strength() {
    let active = "BB:BB:BB:BB:BB:02".to_string();
    let scans = vec![
        scan("BB:BB:BB:BB:BB:01", b"Weak", 0, 40, 2412),
        scan("BB:BB:BB:BB:BB:02", b"Marked", 1, 90, 5180),
        scan("BB:BB:BB:BB:BB:03", b"Strong", 1, 90, 2462),
    ];
    let snapshot = build_all(scans, Some(&active));
    assert_eq!(snapshot.len(), 3);
    assert_eq!(snapshot[0].ssid, "Marked");
    assert!(snapshot[0].connected);
    assert_eq!(snapshot[1].ssid, "Strong");
    assert_eq!(snapshot[1].strength, 90);
    assert_eq!(snapshot[2].ssid, "Weak");
    let connected = snapshot.iter().filter(|ap| ap.connected).count();
    assert_eq!(connected, 1);
}

#[test]
fn snapshot_at_most_one_connected() {
    let active = "CC:CC:CC:CC:CC:01".to_string();
    let scans = vec![
        scan("CC:CC:CC:CC:CC:01", b"One", 1, 10, 2412),
        scan("CC:CC:CC:CC:CC:02", b"Two", 1, 99, 2412),
        scan("CC:CC:CC:CC:CC:03", b"Three", 0, 50, 5180),
    ];
    let snapshot = build_all(scans, Some(&active));
    let connected: Vec<&AccessPoint> = snapshot.iter().filter(|ap| ap.connected).collect();
    assert_eq!(connected.len(), 1);
    assert_eq!(connected[0].ssid, "One");
}

#[test]
fn snapshot_drops_undecodable_entries() {
    let scans = vec![
        scan("DD:DD:DD:DD:DD:01", b"Good", 0, 70, 2412),
        scan("DD:DD:DD:DD:DD:02", &[0x80, 0x80], 0, 90, 2412),
    ];
    let snapshot = build_all(scans, None);
    assert_eq!(snapshot.len(), 1);
    assert_eq!(snapshot[0].ssid, "Good");
    assert!(!snapshot[0].connected);
}

#[test]
fn snapshot_of_nothing_is_empty() {
    let snapshot = build_all(Vec::new(), None);
    assert!(snapshot.is_empty());
}

#[test]
fn ap_flags_round_trip() {
    let flags = [
        APFlags::NoFlags,
        APFlags::Privacy,
        APFlags::Wps,
        APFlags::WpsPbc,
        APFlags::WpsPin,
    ];
    for flag in flags {
        assert_eq!(APFlags::from_raw(flag.raw()), Some(flag));
        assert_eq!(flag.requires_auth(), flag.raw() != 0);
    }
    assert_eq!(APFlags::from_raw(3), None);
}
