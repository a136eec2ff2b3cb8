use futurist::cli::config::{
    config_response_data, is_config_response, read_request, ChargerConfig, CurvesConfig,
    LockBikeConfig, MapConfig, MiscConfig, RacingConfig, TotalsConfig,
};
use futurist::cli::config_ui::{
    apply_preset, curve_write_request, map_write_request, misc_from_response, misc_write_request,
    store_curve_response, store_map_response, CurveData, MapSlot, MiscData,
};
use futurist::presets::curated_preset;
use futurist::protocol::{UUID_SPEED, UUID_VCU_CONFIG};

#[test]
fn requests_and_response_filter() {
    assert_eq!(read_request(0, &[3]), vec![0x00, 0x00, 0x03]);
    assert_eq!(read_request(7, &[3, 0]), vec![0x00, 0x07, 0x03, 0x00]);
    assert!(is_config_response(UUID_VCU_CONFIG, &[2, 1, 0], 1));
    assert!(!is_config_response(UUID_VCU_CONFIG, &[1, 1, 0], 1));
    assert!(!is_config_response(UUID_VCU_CONFIG, &[2, 0, 0], 1));
    assert!(!is_config_response(UUID_SPEED, &[2, 1, 0], 1));
    assert!(!is_config_response(UUID_VCU_CONFIG, &[2], 2));
    assert_eq!(config_response_data(&[2, 3, 0, 5, 6]), vec![5, 6]);
    assert!(config_response_data(&[2, 3, 0]).is_empty());
}

#[test]
fn config_parsers() {
    let m = MapConfig::parse(&[2, 0x37, 0x00, 0x46, 0x00, 1]).unwrap();
    assert_eq!(m, MapConfig { slot: 2, torque_raw: 55, regen: 70, curve: 1 });
    assert!(MapConfig::parse(&[0u8; 5]).is_none());

    let mut curve = vec![3u8];
    for i in 0..15u16 {
        curve.extend_from_slice(&(i * 100).to_le_bytes());
        curve.extend_from_slice(&(1000 - i).to_le_bytes());
    }
    let c = CurvesConfig::parse(&curve).unwrap();
    assert_eq!(c.curve_index, 3);
    assert_eq!(c.torque[14], 1400);
    assert_eq!(c.regen[1], 999);
    assert!(CurvesConfig::parse(&curve[..60]).is_none());

    let r = RacingConfig::parse(&[1, 2, 3, 4, 5, 6, 1, 0, 0, 0]).unwrap();
    assert_eq!(r.engage, 5);
    assert_eq!(r.expire_timestamp, 1);
    let misc = MiscConfig::parse(&[5, 15, 0, 0x58, 0x02]).unwrap();
    assert_eq!(misc, MiscConfig { maps: 5, inactive_timeout: 15, auto_power_off: 600 });
    let ch = ChargerConfig::parse(&[100, 0, 0xE4, 0x0C, 0xE8, 0x03, 20, 0, 2, 0, 16, 0xFF]).unwrap();
    assert_eq!(ch.charge_power, 3300);
    assert_eq!(ch.ramp_time, -240);
    let l = LockBikeConfig::parse(&[1, 2, 0x10, 0x00]).unwrap();
    assert_eq!(l.lock_timeout, 16);
}

#[test]
fn totals_config_flags() {
    let both = TotalsConfig::parse(&[3, 0, 0xE8, 0x03, 0, 0, 0x10, 0x0E, 0, 0]).unwrap();
    assert_eq!(both.odometer_m, Some(1000));
    assert_eq!(both.total_ride_time_s, Some(3600));
    let time_only = TotalsConfig::parse(&[2, 0, 0x10, 0x0E, 0, 0]).unwrap();
    assert_eq!(time_only.odometer_m, None);
    assert_eq!(time_only.total_ride_time_s, Some(3600));
    let truncated = TotalsConfig::parse(&[3, 0, 1, 0, 0]).unwrap();
    assert_eq!(truncated.odometer_m, None);
    assert_eq!(truncated.total_ride_time_s, None);
    assert!(TotalsConfig::parse(&[3]).is_none());
}

#[test]
fn map_write_and_read_back() {
    let slot = MapSlot { power_hp: 44, regen: 100, curve: 2 };
    let req = map_write_request(1, &slot);
    assert_eq!(req, [0x01, 0x00, 0x01, 0x01, 55, 0, 100, 0, 2]);
    let record = [req[2], req[4], req[5], req[6], req[7], req[8]];
    let mut slots = vec![MapSlot::default(); 5];
    store_map_response(&mut slots, &record);
    assert_eq!(slots[1], slot);
    assert_eq!(slots[0], MapSlot { power_hp: 40, regen: 70, curve: 0 });

    // 35 hp is written as torque 43 and reads back as 34 hp.
    let trail = MapSlot { power_hp: 35, regen: 50, curve: 0 };
    let req = map_write_request(0, &trail);
    assert_eq!(req[4], 43);
    store_map_response(&mut slots, &[0, req[4], req[5], req[6], req[7], req[8]]);
    assert_eq!(slots[0].power_hp, 34);

    // Out-of-range slot or short data: nothing changes.
    let before = slots.clone();
    store_map_response(&mut slots, &[9, 0, 0, 0, 0, 0]);
    store_map_response(&mut slots, &[0, 0, 0]);
    assert_eq!(slots, before);

    // Negative torque shows as 0 hp; regen keeps its low byte.
    store_map_response(&mut slots, &[2, 0xFF, 0xFF, 0x2C, 0x01, 0]);
    assert_eq!(slots[2].power_hp, 0);
    assert_eq!(slots[2].regen, 0x2C);
}

#[test]
fn presets_fill_every_slot() {
    let mut slots = vec![MapSlot::default(); 5];
    let race = curated_preset(3);
    apply_preset(&mut slots, &race);
    assert!(slots.iter().all(|s| *s == MapSlot { power_hp: 60, regen: 85, curve: 0 }));
}

#[test]
fn curves_read_and_write() {
    let mut curves: Vec<CurveData> = (0..5).map(CurveData::empty).collect();
    assert_eq!(curves[2].torque, vec![1000u16; 15]);
    assert!(!curves[2].readable);

    let mut data = vec![2u8];
    for i in 0..15u16 {
        data.extend_from_slice(&(500 + i).to_le_bytes());
        data.extend_from_slice(&1000u16.to_le_bytes());
    }
    store_curve_response(&mut curves, 2, &data);
    assert!(curves[2].readable);
    assert_eq!(curves[2].torque[3], 503);

    let req = curve_write_request(&curves[2]).unwrap();
    assert_eq!(req.len(), 68);
    assert_eq!(&req[..8], &[0x01, 0x01, 0x01, 2, 0xFF, 0x7F, 0xFF, 0x7F]);
    assert_eq!(u16::from_le_bytes([req[8], req[9]]), 500);
    assert_eq!(u16::from_le_bytes([req[38], req[39]]), 1000);
    assert!(curve_write_request(&curves[0]).is_none());
    assert!(curve_write_request(&curves[3]).is_none());

    // An empty response marks the requested curve as built-in.
    store_curve_response(&mut curves, 2, &[]);
    assert!(!curves[2].readable);
}

#[test]
fn misc_write_and_read_back() {
    let misc = MiscData { maps: 5, inactive_timeout: 15, auto_power_off: 600 };
    let req = misc_write_request(&misc);
    assert_eq!(req, [0x01, 0x03, 0x01, 5, 15, 0, 0x58, 0x02]);
    assert_eq!(misc_from_response(&req[3..]), Some(misc));
    assert_eq!(misc_from_response(&req[3..7]), None);
}
