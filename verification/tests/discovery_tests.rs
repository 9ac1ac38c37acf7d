use airshare::history::{
    History, TransferRecord, TransferStatus, TransferType, DeviceType, HISTORY_CAP,
};
use airshare::registry::{normalize_device_name, Device, Registry};
use airshare::stats::{get_today_stats, rfc3339_to_epoch_secs};
use airshare::strutil::dec_string;
use airshare::update_storage::format_bytes_text;
use airshare::wire;

fn heartbeat(name: &str, ip: &str) -> Device {
    Device {
        name: name.to_string(),
        ip: ip.to_string(),
        port: 40123,
        status: "Online".to_string(),
        last_seen: 0,
        mac: None,
    }
}

#[test]
fn peer_present_before_timeout_absent_after() {
    // Advertise interval 2 s, timeout 6 s: a peer seen at t=0 is present
    // at t=5 and absent at t=8.
    let mut r = Registry::new("192.168.1.5".to_string());
    r.observe(heartbeat("peer", "10.0.0.2"), "10.0.0.2".to_string(), 0);

    r.sweep(5, 6);
    assert_eq!(r.get_active_devices().len(), 1);

    r.sweep(8, 6);
    assert_eq!(r.get_active_devices().len(), 0);
}

#[test]
fn own_heartbeat_is_never_registered() {
    // A device never adds its own advertised address to its own registry.
    let mut r = Registry::new("192.168.1.5".to_string());
    r.observe(heartbeat("self-echo", "192.168.1.5"), "192.168.1.5".to_string(), 3);
    assert_eq!(r.get_active_devices().len(), 0);

    r.observe(heartbeat("other", "192.168.1.6"), "192.168.1.6".to_string(), 3);
    assert_eq!(r.get_active_devices().len(), 1);
}

#[test]
fn upsert_replaces_by_address_last_writer_wins() {
    let mut r = Registry::new("192.168.1.5".to_string());
    r.observe(heartbeat("old-name", "10.0.0.2"), "10.0.0.2".to_string(), 1);
    r.observe(heartbeat("new-name", "10.0.0.2"), "10.0.0.2".to_string(), 9);

    let devices = r.get_active_devices();
    assert_eq!(devices.len(), 1);
    assert_eq!(devices[0].name, "new-name");
    assert_eq!(devices[0].last_seen, 9);
}

#[test]
fn observe_overrides_claimed_address_with_sender() {
    // The payload may claim any address; the sender's address wins.
    let mut r = Registry::new("192.168.1.5".to_string());
    r.observe(heartbeat("peer", "1.2.3.4"), "10.0.0.2".to_string(), 2);
    let devices = r.get_active_devices();
    assert_eq!(devices.len(), 1);
    assert_eq!(devices[0].ip, "10.0.0.2");
}

#[test]
fn heartbeat_datagram_round_trips() {
    let d = Device {
        name: "Studio (Linux)".to_string(),
        ip: "10.0.0.2".to_string(),
        port: 40123,
        status: "Online".to_string(),
        last_seen: 1_700_000_000,
        mac: Some("aa:bb:cc:dd:ee:ff".to_string()),
    };
    let line = wire::encode_device(&d);
    let back = wire::parse_device(&line).unwrap();
    assert_eq!(back.name, "Studio (Linux)");
    assert_eq!(back.port, 40123);
    assert_eq!(back.mac.as_deref(), Some("aa:bb:cc:dd:ee:ff"));

    // A malformed datagram is dropped, never registered.
    assert!(wire::parse_device("{\"name\":\"x\"}").is_none());
    assert!(
        wire::parse_device(
            "{\"name\":\"x\",\"ip\":\"i\",\"port\":70000,\"status\":\"s\",\"last_seen\":1}"
        )
        .is_none()
    );
}

#[test]
fn device_names_are_normalized() {
    assert_eq!(normalize_device_name("", "linux"), "Dispositivo");
    assert_eq!(normalize_device_name("Unknown", "linux"), "Dispositivo");
    assert_eq!(normalize_device_name("Johns-MacBook", "linux"), "Johns-MacBook");
    assert_eq!(normalize_device_name("study-box", "linux"), "study-box (Linux)");
    assert_eq!(normalize_device_name("study-box", "windows"), "study-box (Windows)");
    assert_eq!(normalize_device_name("study-box", "macos"), "study-box (macOS)");
}

fn record(id: &str, status: TransferStatus, start_time: &str, speed: u64) -> TransferRecord {
    TransferRecord {
        id: id.to_string(),
        file_name: "f.bin".to_string(),
        file_size: 1000,
        transfer_type: TransferType::Sent,
        status,
        from_device: "alpha".to_string(),
        to_device: "beta".to_string(),
        start_time: start_time.to_string(),
        duration: 1,
        speed,
        device_type: DeviceType::Desktop,
    }
}

#[test]
fn history_keeps_newest_first_capped_at_100() {
    let mut h = History::new();
    for i in 0..(HISTORY_CAP + 5) {
        h.add(record(&format!("id{}", i), TransferStatus::Completed, "t", 1));
    }
    let all = h.get_recent_transfers();
    assert_eq!(all.len(), HISTORY_CAP);
    assert_eq!(all[0].id, format!("id{}", HISTORY_CAP + 4));
    assert_eq!(all[HISTORY_CAP - 1].id, "id5");
}

#[test]
fn history_delete_removes_only_the_target() {
    let mut h = History::new();
    h.add(record("a", TransferStatus::Completed, "t", 1));
    h.add(record("b", TransferStatus::Failed, "t", 1));
    h.add(record("a", TransferStatus::Cancelled, "t", 1));

    h.delete_by_id("a");
    let all = h.get_recent_transfers();
    assert_eq!(all.len(), 1);
    assert_eq!(all[0].id, "b");
}

#[test]
fn today_stats_count_completed_on_the_day() {
    let morning = "2024-05-01T08:00:00+00:00";
    let evening = "2024-05-01T22:30:00+00:00";
    let yesterday = "2024-04-30T23:59:00+00:00";
    let now = rfc3339_to_epoch_secs("2024-05-01T12:00:00+00:00").unwrap();

    let records = vec![
        record("a", TransferStatus::Completed, morning, 100),
        record("b", TransferStatus::Completed, evening, 300),
        record("c", TransferStatus::Failed, morning, 999),
        record("d", TransferStatus::Completed, yesterday, 999),
        record("e", TransferStatus::Completed, "not a date", 999),
    ];

    let (count, avg) = get_today_stats(&records, &vec![], &vec![], now, 0);
    assert_eq!(count, 2);
    assert_eq!(avg, 200);
}

#[test]
fn today_stats_respect_the_selection() {
    let morning = "2024-05-01T08:00:00+00:00";
    let now = rfc3339_to_epoch_secs("2024-05-01T12:00:00+00:00").unwrap();
    let records = vec![record("a", TransferStatus::Completed, morning, 100)];

    let names = vec!["gamma".to_string()];
    let (count, _) = get_today_stats(&records, &names, &vec![], now, 0);
    assert_eq!(count, 0);

    let names = vec!["alpha".to_string()];
    let (count, _) = get_today_stats(&records, &names, &vec![], now, 0);
    assert_eq!(count, 1);
}

#[test]
fn timezone_offset_moves_the_day_boundary() {
    // Half past eleven at night UTC is already the next day one hour
    // east of it.
    let late = rfc3339_to_epoch_secs("2024-05-01T23:30:00+00:00").unwrap();
    let next_morning = rfc3339_to_epoch_secs("2024-05-02T08:00:00+00:00").unwrap();
    let records = vec![record("a", TransferStatus::Completed, "2024-05-01T23:30:00+00:00", 70)];

    let (count_utc, _) = get_today_stats(&records, &vec![], &vec![], next_morning, 0);
    assert_eq!(count_utc, 0);

    let (count_east, _) = get_today_stats(&records, &vec![], &vec![], next_morning, 3600);
    assert_eq!(count_east, 1);
    assert!(late < next_morning);
}

#[test]
fn decimal_renderings_are_exact() {
    assert_eq!(dec_string(0), "0");
    assert_eq!(dec_string(10485760), "10485760");
    assert_eq!(dec_string(u64::MAX), "18446744073709551615");

    assert_eq!(format_bytes_text(999), "999 B");
    assert_eq!(format_bytes_text(1500), "1.5 KB");
    assert_eq!(format_bytes_text(1_500_000), "1.5 MB");
    assert_eq!(format_bytes_text(2_500_000_000), "2.5 GB");
}
