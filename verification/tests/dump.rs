use futurist::cli::dump::{decoded_lines, raw_line, DumpLine};
use futurist::protocol::{
    UUID_BATT_SOC, UUID_EXTENDED_TLV, UUID_IDENTITY, UUID_MAPS, UUID_RACING, UUID_SPEED,
    UUID_STATUS_BITS, UUID_VERSIONS,
};
use futurist::telemetry::{characteristic_name, DecodedTelemetry, TelemetryFrame};

fn frame(characteristic: u128, data: &[u8]) -> TelemetryFrame {
    TelemetryFrame { characteristic, data: data.to_vec() }
}

fn lines_after(state: &mut DecodedTelemetry, f: &TelemetryFrame) -> Vec<DumpLine> {
    state.update(f);
    decoded_lines(characteristic_name(f.characteristic), f, state)
}

#[test]
fn status_line_and_faults() {
    let mut d = vec![0u8; 18];
    d[0] = 0x03; // misc: walking 3
    d[2] = 0x20; // indicators: drive
    d[6] = 0x05; // faults: general, motor_temp
    d[8] = 0x42; // info: charging, fan
    d[14..18].copy_from_slice(&0x1234abcdu32.to_le_bytes());
    let mut s = DecodedTelemetry::default();
    let lines = lines_after(&mut s, &frame(UUID_STATUS_BITS, &d));
    assert_eq!(
        lines,
        vec![
            DumpLine::Stamped(
                "status  drive=true armed=false charging=true charger=false fan=true pump=false \
                 walking=3 battery_status=0x1234abcd"
                    .to_string()
            ),
            DumpLine::Stderr("  FAULTS: general, motor_temp".to_string()),
        ]
    );
    d[6] = 0;
    let lines = lines_after(&mut s, &frame(UUID_STATUS_BITS, &d));
    assert_eq!(lines.len(), 1);
    // Too short: no record, no line.
    assert!(lines_after(&mut s, &frame(UUID_STATUS_BITS, &[0u8; 5])).is_empty());
}

#[test]
fn record_lines() {
    let mut s = DecodedTelemetry::default();
    let lines = lines_after(&mut s, &frame(UUID_SPEED, &[123, 0, 0x94, 0x11]));
    assert_eq!(lines, vec![DumpLine::Stamped("speed  12.3 km/h  4500 RPM".to_string())]);
    let lines = lines_after(&mut s, &frame(UUID_SPEED, &[0xff, 0xff, 0xff, 0xff]));
    assert_eq!(lines, vec![DumpLine::Stamped("speed  - km/h  - RPM".to_string())]);
    let lines = lines_after(&mut s, &frame(UUID_MAPS, &[2]));
    assert_eq!(
        lines,
        vec![DumpLine::Stamped(
            "ride_mode  map 2 (active power mode slot — names are user-configured)".to_string()
        )]
    );
    let mut id = b"UDUMX1AB2CD012345".to_vec();
    id.extend_from_slice(b"240615");
    let lines = lines_after(&mut s, &frame(UUID_IDENTITY, &id));
    assert_eq!(
        lines,
        vec![DumpLine::Stamped("identity  vin=UDUMX1AB2CD012345 sold_date=240615".to_string())]
    );
    let lines = lines_after(&mut s, &frame(UUID_RACING, &[1, 2, 3, 0, 4, 5, 0, 0, 0]));
    assert_eq!(
        lines,
        vec![DumpLine::Stamped(
            "racing  mode=1 curve=2 throttle_mult=3 cat=4 expire=5".to_string()
        )]
    );
}

#[test]
fn versions_lines() {
    let mut d = vec![0u8; 100];
    d[0] = 7;
    d[2] = 0xff;
    d[3] = 0xff; // download -1 %
    d[4..7].copy_from_slice(&[3, 2, 1]);
    d[12..15].copy_from_slice(&[9, 8, 7]);
    let mut s = DecodedTelemetry::default();
    let lines = lines_after(&mut s, &frame(UUID_VERSIONS, &d));
    assert_eq!(lines.len(), 12);
    assert_eq!(
        lines[0],
        DumpLine::Stamped("versions  ble_ver=7 dl=-1% blob_fs=1.2.3 blob_srv=0.0.0".to_string())
    );
    assert_eq!(
        lines[1],
        DumpLine::Plain(format!("           {:20} ver={:10} avail={}", "vcu_pic", "7.8.9", "0.0.0"))
    );
    assert_eq!(
        lines[11],
        DumpLine::Plain(format!("           {:20} ver={:10} avail={}", "docking", "0.0.0", "0.0.0"))
    );
}

#[test]
fn extended_tlv_lines() {
    let mut s = DecodedTelemetry::default();
    let lines = lines_after(&mut s, &frame(UUID_EXTENDED_TLV, &[]));
    assert_eq!(lines, vec![DumpLine::Stamped("bike_tlv  (empty)".to_string())]);
    let data = [1, 8, 0x12, 0, 0x30, 0, 0xcd, 0xab, 0x43, 0, 2, 3, 1, 0x10, 0, 3, 1, 1, 9, 2, 0xde, 0xad];
    let lines = lines_after(&mut s, &frame(UUID_EXTENDED_TLV, &data));
    assert_eq!(
        lines,
        vec![
            DumpLine::Stamped(
                "bike_tlv  fast_bits: drive=true armed=true charging=true charger=true fan=true \
                 pump=false walking=2 alerts=0xabcd misc=0x0012"
                    .to_string()
            ),
            DumpLine::Stamped("bike_tlv  lock_status: locked=true time=16".to_string()),
            DumpLine::Stamped("bike_tlv  update_available: true".to_string()),
            DumpLine::Stamped("bike_tlv  tlv_type=9 (2 bytes): dead".to_string()),
        ]
    );
}

#[test]
fn unknown_and_raw_lines() {
    let mut s = DecodedTelemetry::default();
    let f = frame(UUID_BATT_SOC, &[1, 0xab, 3]);
    let lines = lines_after(&mut s, &f);
    assert_eq!(
        lines,
        vec![DumpLine::Stamped(format!(
            "{:12}  UNKNOWN ({:>3} bytes)  {}",
            "batt_4", 3, "01ab03"
        ))]
    );
    assert_eq!(
        raw_line("speed", &f),
        DumpLine::Stamped(format!("{:12}  ({:>3} bytes)  {}", "speed", 3, "01ab03"))
    );
    let long = frame(0, &[0u8; 1000]);
    match raw_line("a_very_long_name", &long) {
        DumpLine::Stamped(t) => assert!(t.starts_with("a_very_long_name  (1000 bytes)  0000")),
        _ => panic!("not stamped"),
    }
}
