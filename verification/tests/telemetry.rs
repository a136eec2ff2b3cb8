use futurist::telemetry::{
    parse_battery_level, parse_tlv, BikeIdentity, BikeVersions, Estimations, Imu, Racing, Speed,
    StatusBits, Throttle, Totals,
};

#[test]
fn parse_status_bits_basic() {
    let mut data = [0u8; 18];
    data[0] = 0x03; // misc_bits = walking mode 3
    data[2] = 0x30; // indicator_bits = armed + drive
    let status = StatusBits::parse(&data).unwrap();
    assert_eq!(status.walking_mode(), 3);
    assert!(status.armed_throttle());
    assert!(status.drive());
    assert!(!status.is_charging());
}

#[test]
fn parse_status_bits_too_short() {
    assert!(StatusBits::parse(&[0u8; 17]).is_none());
}

#[test]
fn parse_identity() {
    let mut data = [0u8; 23];
    data[..17].copy_from_slice(b"UDUMX1AB2CD012345");
    data[17..23].copy_from_slice(b"240615");
    let id = BikeIdentity::parse(&data).unwrap();
    assert_eq!(id.vin, "UDUMX1AB2CD012345");
    assert_eq!(id.sold_date, "240615");
}

#[test]
fn parse_battery_level_works() {
    assert_eq!(parse_battery_level(&[42]), Some(42));
    assert_eq!(parse_battery_level(&[]), None);
}

#[test]
fn parse_speed() {
    // 350 = 35.0 km/h, 4500 RPM
    let data = [0x5E, 0x01, 0x94, 0x11];
    let s = Speed::parse(&data).unwrap();
    let speed_kmh = s.speed_raw.map(|v| v as f32 / 10.0);
    assert!((speed_kmh.unwrap() - 35.0).abs() < 0.1);
    assert_eq!(s.motor_rpm, Some(4500));
}

#[test]
fn parse_speed_sentinel() {
    // 0xFFFF = no data
    let data = [0xFF, 0xFF, 0xFF, 0xFF];
    let s = Speed::parse(&data).unwrap();
    assert_eq!(s.speed_raw, None);
    assert_eq!(s.motor_rpm, None);
}

#[test]
fn parse_totals() {
    let mut data = [0u8; 16];
    data[0..4].copy_from_slice(&1234u32.to_le_bytes());
    data[4..8].copy_from_slice(&56789u32.to_le_bytes());
    let t = Totals::parse(&data).unwrap();
    assert_eq!(t.odometer, Some(1234));
    assert_eq!(t.watt_hours, Some(56789));
}

#[test]
fn parse_estimations() {
    let mut data = [0u8; 6];
    data[0..2].copy_from_slice(&42u16.to_le_bytes());
    data[2..4].copy_from_slice(&90u16.to_le_bytes());
    data[4..6].copy_from_slice(&(-500i16).to_le_bytes());
    let e = Estimations::parse(&data).unwrap();
    assert_eq!(e.range_km, Some(42));
    assert_eq!(e.time_min, Some(90));
    assert_eq!(e.motor_power_w, Some(-500));
}

// ---------------------------------------------------------------------------
// Further cases
// ---------------------------------------------------------------------------

#[test]
fn status_bits_all_fields_and_flags() {
    let mut data = [0u8; 18];
    data[0] = 0x3F; // walking mode 15 (low nibble)
    data[8] = 0x67; // charger, charging, docked, pump, fan
    data[10] = 1;
    data[11] = 0x10;
    data[12] = 0x0E;
    data[13] = 1;
    data[14..18].copy_from_slice(&0xDEADBEEFu32.to_le_bytes());
    let s = StatusBits::parse(&data).unwrap();
    assert_eq!(s.walking_mode(), 15);
    assert!(s.charger_connected());
    assert!(s.is_charging());
    assert!(s.is_docked());
    assert!(s.pump_on());
    assert!(s.fan_on());
    assert!(!s.armed_throttle());
    assert_eq!(s.lock_status, 1);
    assert_eq!(s.lock_time, 0x0E10);
    assert!(s.update_available);
    assert_eq!(s.battery_status, 0xDEADBEEF);
}

#[test]
fn identity_with_invalid_utf8_is_lossy() {
    let mut data = [b'A'; 23];
    data[0] = 0xFF;
    let id = BikeIdentity::parse(&data).unwrap();
    assert_eq!(id.vin, format!("\u{FFFD}{}", "A".repeat(16)));
    assert!(BikeIdentity::parse(&data[..22]).is_none());
}

#[test]
fn throttle_imu_racing() {
    let t = Throttle::parse(&[0x10, 0x00, 0xFF, 0x7F, 0xFE, 0xFF]).unwrap();
    assert_eq!(t.position, Some(16));
    assert_eq!(t.iq_fb, None);
    assert_eq!(t.id_fb, Some(-2));
    assert!(Throttle::parse(&[0u8; 5]).is_none());

    let mut imu = [0u8; 12];
    imu[10..12].copy_from_slice(&(-1000i16).to_le_bytes());
    let i = Imu::parse(&imu).unwrap();
    assert_eq!(i.gyro_z, Some(-1000));
    assert_eq!(i.accel_x, Some(0));

    let r = Racing::parse(&[2, 3, 0xE8, 0x03, 4, 1, 0, 0, 0]).unwrap();
    assert_eq!(r.mode, 2);
    assert_eq!(r.curve, 3);
    assert_eq!(r.throttle_multiplier, 1000);
    assert_eq!(r.category, 4);
    assert_eq!(r.expire_timestamp, 1);
    assert!(Racing::parse(&[0u8; 8]).is_none());
}

#[test]
fn bike_versions_components() {
    let mut data = [0u8; 100];
    data[0] = 7;
    data[2..4].copy_from_slice(&(-1i16).to_le_bytes());
    data[4] = 3;
    data[5] = 2;
    data[6] = 1;
    data[12] = 9; // vcu_pic installed 0.0.9
    data[16] = 10; // vcu_pic available 0.0.10
    data[92] = 1;
    data[93] = 2;
    data[94] = 3; // docking installed 3.2.1
    let v = BikeVersions::parse(&data).unwrap();
    assert_eq!(v.ble_version, 7);
    assert_eq!(v.download_percent, -1);
    assert_eq!(v.blob_fs, "1.2.3");
    assert_eq!(v.blob_server, "0.0.0");
    assert_eq!(v.components.len(), 11);
    assert_eq!(v.components[0].name, "vcu_pic");
    assert_eq!(v.components[0].version, "0.0.9");
    assert_eq!(v.components[0].available, "0.0.10");
    assert_eq!(v.components[10].name, "docking");
    assert_eq!(v.components[10].version, "3.2.1");
    assert!(BikeVersions::parse(&data[..99]).is_none());
}

#[test]
fn tlv_parsing() {
    let raw = [1, 2, 0xAA, 0xBB, 5, 0, 7, 1, 0xCC, 9, 4, 1];
    let entries = parse_tlv(&raw);
    assert_eq!(entries.len(), 3);
    assert_eq!(entries[0].entry_type, 1);
    assert_eq!(entries[0].data, vec![0xAA, 0xBB]);
    assert_eq!(entries[1].entry_type, 5);
    assert!(entries[1].data.is_empty());
    assert_eq!(entries[2].entry_type, 7);
    assert_eq!(entries[2].data, vec![0xCC]);
    // The last record (type 9, length 4) is cut short and dropped.
    assert!(parse_tlv(&[1]).is_empty());
    assert!(parse_tlv(&[1, 3, 0, 0]).is_empty());
    assert!(parse_tlv(&[]).is_empty());
}
