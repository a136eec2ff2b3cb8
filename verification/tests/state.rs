use futurist::protocol::{
    UUID_BATTERY_LEVEL, UUID_BATT_SOC, UUID_BATT_TLV, UUID_CHARGER_TLV, UUID_DOCKING_TLV,
    UUID_EXTENDED_TLV, UUID_INV_TEMPS, UUID_INV_TLV, UUID_LIVE_TLV, UUID_MAPS, UUID_SECURITY,
    UUID_SPEED, UUID_STATUS_BITS, UUID_VCU_TLV,
};
use futurist::telemetry::{characteristic_name, DecodedTelemetry, TelemetryFrame};

fn frame(characteristic: u128, data: &[u8]) -> TelemetryFrame {
    TelemetryFrame { characteristic, data: data.to_vec() }
}

fn tlv(entries: &[(u8, &[u8])]) -> Vec<u8> {
    let mut out = Vec::new();
    for (t, d) in entries {
        out.push(*t);
        out.push(d.len() as u8);
        out.extend_from_slice(d);
    }
    out
}

#[test]
fn starts_empty() {
    let t = DecodedTelemetry::default();
    assert!(t.status.is_none());
    assert!(t.speed.is_none());
    assert!(t.tlv_entries.is_empty());
}

#[test]
fn dedicated_characteristics_update_their_record() {
    let mut t = DecodedTelemetry::default();
    t.update(&frame(UUID_SPEED, &[0x5E, 0x01, 0x94, 0x11]));
    assert_eq!(t.speed.unwrap().speed_raw, Some(350));
    t.update(&frame(UUID_BATTERY_LEVEL, &[77]));
    assert_eq!(t.battery_percent, Some(77));
    t.update(&frame(UUID_MAPS, &[3]));
    assert_eq!(t.ride_mode, Some(3));
    // A frame too short for its decoder clears the record.
    t.update(&frame(UUID_SPEED, &[1]));
    assert!(t.speed.is_none());
}

#[test]
fn live_tlv_matches_dedicated_speed() {
    let data = [0x5E, 0x01, 0x94, 0x11];
    let mut a = DecodedTelemetry::default();
    a.update(&frame(UUID_SPEED, &data));
    let mut b = DecodedTelemetry::default();
    b.update(&frame(UUID_LIVE_TLV, &tlv(&[(1, &data)])));
    assert_eq!(a.speed, b.speed);
    assert!(b.tlv_entries.is_empty());
}

#[test]
fn battery_tlv_matches_dedicated_soc() {
    let data = [85, 0, 97, 0, 0x7C, 0x01];
    let mut a = DecodedTelemetry::default();
    a.update(&frame(UUID_BATT_SOC, &data));
    let mut b = DecodedTelemetry::default();
    b.update(&frame(UUID_BATT_TLV, &tlv(&[(8, &data)])));
    assert_eq!(a.batt_soc, b.batt_soc);
    assert_eq!(b.batt_soc.unwrap().soc, Some(85));
}

#[test]
fn inverter_temperature_halves() {
    let motor = [50, 0, 51, 0, 52, 0, 1, 1];
    let igbt = [60, 0, 61, 0, 0xFF, 0xFF, 3, 2];
    let mut both = motor.to_vec();
    both.extend_from_slice(&igbt);
    let mut a = DecodedTelemetry::default();
    a.update(&frame(UUID_INV_TEMPS, &both));
    let mut b = DecodedTelemetry::default();
    b.update(&frame(UUID_INV_TLV, &tlv(&[(3, &motor), (2, &igbt)])));
    assert_eq!(a.inv_temps, b.inv_temps);

    // Only the IGBT half: the motor half stays empty.
    let mut c = DecodedTelemetry::default();
    c.update(&frame(UUID_INV_TLV, &tlv(&[(2, &igbt)])));
    let t = c.inv_temps.unwrap();
    assert_eq!(t.igbt.sensor2, Some(61));
    assert_eq!(t.motor.sensor1, None);
}

#[test]
fn bike_tlv_needs_a_status_record() {
    let fast = [0x02, 0x00, 0x10, 0x00, 0x00, 0x00, 0x02, 0x00];
    let mut t = DecodedTelemetry::default();
    t.update(&frame(UUID_EXTENDED_TLV, &tlv(&[(1, &fast)])));
    assert!(t.status.is_none());
    assert_eq!(t.tlv_entries.len(), 1);

    let mut status = [0u8; 18];
    status[6] = 0x05; // fault bits kept by fast bits
    t.update(&frame(UUID_STATUS_BITS, &status));
    t.update(&frame(UUID_EXTENDED_TLV, &tlv(&[(1, &fast), (2, &[1, 0x2C, 0x01]), (3, &[1])])));
    let s = t.status.unwrap();
    assert_eq!(s.walking_mode(), 2);
    assert!(s.armed_throttle());
    assert!(s.is_charging());
    assert_eq!(s.fault_bits, 5);
    assert_eq!(s.lock_status, 1);
    assert_eq!(s.lock_time, 300);
    assert!(s.update_available);
    assert_eq!(t.tlv_entries.len(), 3);
}

#[test]
fn other_tlv_streams() {
    let mut t = DecodedTelemetry::default();
    t.update(&frame(UUID_DOCKING_TLV, &tlv(&[(1, &[3, 2, 1]), (2, &[9])])));
    assert_eq!(t.docking_version.as_ref().unwrap().version, "1.2.3");
    assert_eq!(t.docking_qi.unwrap().status, 9);
    t.update(&frame(UUID_CHARGER_TLV, &tlv(&[(1, &[0u8; 14])])));
    assert_eq!(t.charger.unwrap().req_current, Some(0));
    t.update(&frame(UUID_VCU_TLV, &tlv(&[(2, &[0u8; 10])])));
    assert_eq!(t.vcu_info.unwrap().fan_current, Some(0));
}

#[test]
fn unknown_characteristic_changes_nothing() {
    let mut t = DecodedTelemetry::default();
    t.update(&frame(UUID_BATTERY_LEVEL, &[12]));
    t.update(&frame(UUID_SECURITY, &[1, 2, 3]));
    t.update(&frame(0x1234, &[1, 2, 3]));
    assert_eq!(t.battery_percent, Some(12));
    assert!(t.speed.is_none());
}

#[test]
fn characteristic_names() {
    assert_eq!(characteristic_name(UUID_SPEED), "speed");
    assert_eq!(characteristic_name(UUID_BATT_SOC), "batt_4");
    assert_eq!(characteristic_name(UUID_BATTERY_LEVEL), "battery");
    assert_eq!(characteristic_name(0x42), "unknown");
}

#[test]
fn repeated_frame_changes_nothing() {
    let mut status = vec![0u8; 18];
    status[6] = 0x05;
    let frames = [
        frame(UUID_STATUS_BITS, &status),
        frame(UUID_EXTENDED_TLV, &tlv(&[(1, &[1, 0, 0x30, 0, 0, 0, 0x43, 0]), (2, &[1, 7, 0])])),
        frame(UUID_LIVE_TLV, &tlv(&[(1, &[100, 0, 0xff, 0xff]), (4, &[2]), (1, &[50, 0, 10, 0])])),
        frame(UUID_INV_TLV, &tlv(&[(2, &[1, 0, 2, 0, 3, 0, 4, 0]), (3, &[5, 0, 6, 0, 7, 0, 8, 0])])),
        frame(UUID_SPEED, &[1, 2, 3, 4]),
    ];
    for f in &frames {
        let mut once = DecodedTelemetry::default();
        once.update(&frames[0]);
        once.update(f);
        let mut twice = once.clone();
        twice.update(f);
        assert_eq!(format!("{:?}", once), format!("{:?}", twice));
    }
}

#[test]
fn bike_tlv_repeats_status_bits() {
    let first: Vec<u8> = (0u8..18).map(|i| i.wrapping_mul(7)).collect();
    let mut d = vec![0u8; 18];
    for (i, b) in d.iter_mut().enumerate() {
        *b = 0xA0u8.wrapping_add(i as u8);
    }
    d[13] = 1;

    let mut direct = DecodedTelemetry::default();
    direct.update(&frame(UUID_STATUS_BITS, &first));
    direct.update(&frame(UUID_STATUS_BITS, &d));

    let mut via_tlv = DecodedTelemetry::default();
    via_tlv.update(&frame(UUID_STATUS_BITS, &first));
    let fast: Vec<u8> = d[0..6].iter().chain(d[8..10].iter()).copied().collect();
    via_tlv.update(&frame(
        UUID_EXTENDED_TLV,
        &tlv(&[(1, &fast), (2, &d[10..13]), (3, &d[13..14])]),
    ));

    let a = direct.status.unwrap();
    let b = via_tlv.status.unwrap();
    assert_eq!(b.misc_bits, a.misc_bits);
    assert_eq!(b.indicator_bits, a.indicator_bits);
    assert_eq!(b.alert_bits, a.alert_bits);
    assert_eq!(b.info_bits, a.info_bits);
    assert_eq!(b.lock_status, a.lock_status);
    assert_eq!(b.lock_time, a.lock_time);
    assert_eq!(b.update_available, a.update_available);
    assert!(b.update_available);
    // Fault bits and battery status come only from the dedicated record.
    assert_eq!(b.fault_bits, u16::from_le_bytes([first[6], first[7]]));
    assert_eq!(
        b.battery_status,
        u32::from_le_bytes([first[14], first[15], first[16], first[17]])
    );
}
