use futurist::decode::battery::{
    BatteryCells, BatteryFirmwareVersion, BatteryParams, BatterySignals, BatterySoc,
    BatteryStatus, BatteryTemperatures,
};
use futurist::decode::charger::ChargerData;
use futurist::decode::docking::{DockingQiStatus, DockingVersion};
use futurist::decode::inverter::{
    InverterInfo, InverterPcb, InverterSignals, InverterTemperatures, TempSensors,
};
use futurist::decode::vcu::{VcuInfo, VcuVersions};
use futurist::decode::{opt_i16, opt_u16, opt_u32, read_i16, read_u16, read_u32};

#[test]
fn parse_battery_params() {
    let data = [10, 2, 0xE8, 0x03]; // 10s2p, 1000 mAh
    let p = BatteryParams::parse(&data).unwrap();
    assert_eq!(p.series, 10);
    assert_eq!(p.parallel, 2);
    assert_eq!(p.capacity, 1000);
}

#[test]
fn parse_battery_soc() {
    let mut data = [0u8; 6];
    data[0..2].copy_from_slice(&85u16.to_le_bytes());
    data[2..4].copy_from_slice(&97u16.to_le_bytes());
    data[4..6].copy_from_slice(&380u16.to_le_bytes());
    let s = BatterySoc::parse(&data).unwrap();
    assert_eq!(s.soc, Some(85));
    assert_eq!(s.soh, Some(97));
    assert_eq!(s.dc_bus, Some(380));
}

#[test]
fn parse_battery_status_no_faults() {
    let data = [0u8; 8];
    let s = BatteryStatus::parse(&data).unwrap();
    assert!(!s.has_faults());
}

// ---------------------------------------------------------------------------
// Further cases
// ---------------------------------------------------------------------------

#[test]
fn little_endian_readers_and_sentinels() {
    let data = [0x34, 0x12, 0xFF, 0xFF, 0xFF, 0x7F, 0x00, 0x80, 0x78, 0x56, 0x34, 0x12];
    assert_eq!(read_u16(&data, 0), 0x1234);
    assert_eq!(opt_u16(&data, 0), Some(0x1234));
    assert_eq!(opt_u16(&data, 2), None);
    assert_eq!(opt_i16(&data, 4), None);
    assert_eq!(read_i16(&data, 4), i16::MAX);
    assert_eq!(read_i16(&data, 6), i16::MIN);
    assert_eq!(opt_i16(&data, 6), Some(-32768));
    assert_eq!(read_u32(&data, 8), 0x12345678);
    assert_eq!(opt_u32(&data, 8), Some(0x12345678));
    assert_eq!(opt_u32(&[0xFF; 4], 0), None);
}

#[test]
fn battery_decoders_reject_short_frames() {
    assert!(BatteryStatus::parse(&[0u8; 7]).is_none());
    assert!(BatteryFirmwareVersion::parse(&[0u8; 11]).is_none());
    assert!(BatteryParams::parse(&[0u8; 3]).is_none());
    assert!(BatterySoc::parse(&[0u8; 5]).is_none());
    assert!(BatteryTemperatures::parse(&[0u8; 26]).is_none());
    assert!(BatteryCells::parse(&[0u8; 199]).is_none());
    assert!(BatterySignals::parse(&[0u8; 17]).is_none());
}

#[test]
fn battery_status_fault_bits() {
    let data = [1, 0, 0, 0, 0, 0, 0, 0x80];
    let s = BatteryStatus::parse(&data).unwrap();
    assert_eq!(s.fault_bits_pos, 1);
    assert_eq!(s.fault_bits_neg, 0x8000_0000);
    assert!(s.has_faults());
}

#[test]
fn battery_firmware_version_text() {
    let data = [3, 2, 1, 0, 10, 20, 255, 0, 0x01, 0x02, 0x03, 0x04];
    let v = BatteryFirmwareVersion::parse(&data).unwrap();
    assert_eq!(v.pos_version, "1.2.3");
    assert_eq!(v.neg_version, "255.20.10");
    assert_eq!(v.serial, 0x04030201);
}

#[test]
fn battery_temperatures_and_cells() {
    let mut data = [0xFFu8; 27];
    data[0] = 0x10;
    data[1] = 0x00;
    data[24] = 0x03;
    data[25] = 0x00;
    data[26] = 7;
    let t = BatteryTemperatures::parse(&data).unwrap();
    assert_eq!(t.sensors.len(), 12);
    assert_eq!(t.sensors[0], Some(16));
    assert_eq!(t.sensors[11], None);
    assert_eq!(t.valid, 3);
    assert_eq!(t.used, 7);

    let mut cells = [0xFFu8; 200];
    cells[0] = 0xE8;
    cells[1] = 0x0E; // 3816 mV
    cells[198] = 0x01;
    cells[199] = 0x00;
    let c = BatteryCells::parse(&cells).unwrap();
    assert_eq!(c.voltages.len(), 100);
    assert_eq!(c.voltages[0], Some(3816));
    assert_eq!(c.voltages[99], Some(1));
    assert_eq!(c.active_count(), 2);
}

#[test]
fn battery_signals_current_is_signed() {
    let mut data = [0u8; 18];
    data[16..18].copy_from_slice(&(-25i16).to_le_bytes());
    let s = BatterySignals::parse(&data).unwrap();
    assert_eq!(s.current, Some(-25));
    assert_eq!(s.pos_dc_bus, Some(0));
}

#[test]
fn charger_optional_tail() {
    let mut data = [0u8; 18];
    data[14] = 0x2C;
    data[15] = 0x01;
    data[16] = 4;
    data[17] = 1;
    let full = ChargerData::parse(&data).unwrap();
    assert_eq!(full.reported_voltage, Some(300));
    assert_eq!(full.charger_status, 4);
    assert!(full.charger_enabled);

    let short = ChargerData::parse(&data[..14]).unwrap();
    assert_eq!(short.reported_voltage, None);
    assert_eq!(short.charger_status, 0);
    assert!(!short.charger_enabled);

    let sixteen = ChargerData::parse(&data[..16]).unwrap();
    assert_eq!(sixteen.reported_voltage, Some(300));
    assert_eq!(sixteen.charger_status, 0);

    assert!(ChargerData::parse(&data[..13]).is_none());
}

#[test]
fn docking_decoders() {
    assert_eq!(DockingVersion::parse(&[9, 8, 7]).unwrap().version, "7.8.9");
    assert!(DockingVersion::parse(&[9, 8]).is_none());
    assert_eq!(DockingQiStatus::parse(&[5]).unwrap().status, 5);
    assert!(DockingQiStatus::parse(&[]).is_none());
}

#[test]
fn inverter_decoders() {
    let mut info = [0u8; 23];
    info[0] = 2;
    info[10] = 4;
    info[11] = 3;
    info[12] = 2;
    info[14] = 1;
    info[18] = 9;
    info[19] = 0x10;
    let i = InverterInfo::parse(&info).unwrap();
    assert_eq!(i.faults, 2);
    assert_eq!(i.logic_fw_version, "2.3.4");
    assert_eq!(i.gate_fw_version, "0.0.1");
    assert_eq!(i.hardware_version, 9);
    assert_eq!(i.humidity, 16);
    assert!(InverterInfo::parse(&info[..22]).is_none());

    let mut sig = [0u8; 14];
    sig[6..8].copy_from_slice(&(-3i16).to_le_bytes());
    sig[8..10].copy_from_slice(&0x7FFFi16.to_le_bytes());
    let s = InverterSignals::parse(&sig).unwrap();
    assert_eq!(s.iq, Some(-3));
    assert_eq!(s.id, None);

    let mut temps = [0u8; 16];
    temps[0] = 50;
    temps[6] = 1;
    temps[8] = 60;
    temps[15] = 2;
    let t = InverterTemperatures::parse(&temps).unwrap();
    assert_eq!(t.motor.sensor1, Some(50));
    assert_eq!(t.motor.valid, 1);
    assert_eq!(t.igbt.sensor1, Some(60));
    assert_eq!(t.igbt.used, 2);
    assert!(InverterTemperatures::parse(&temps[..15]).is_none());
    assert!(TempSensors::parse(&temps[..7]).is_none());

    let mut pcb = [0u8; 18];
    pcb[14..18].copy_from_slice(&123456u32.to_le_bytes());
    let p = InverterPcb::parse(&pcb).unwrap();
    assert_eq!(p.serial_number, 123456);
}

#[test]
fn vcu_decoders() {
    let mut v = [0u8; 20];
    v[0] = 1;
    v[6] = 2;
    v[16..20].copy_from_slice(&77u32.to_le_bytes());
    let vv = VcuVersions::parse(&v).unwrap();
    assert_eq!(vv.pic_vcu, "0.0.1");
    assert_eq!(vv.top_vcu, "2.0.0");
    assert_eq!(vv.serial_number, 77);
    assert!(VcuVersions::parse(&v[..19]).is_none());

    let mut info = [0u8; 10];
    info[6..8].copy_from_slice(&4550u16.to_le_bytes());
    info[8..10].copy_from_slice(&0xFFFFu16.to_le_bytes());
    let i = VcuInfo::parse(&info).unwrap();
    assert_eq!(i.humidity_raw, Some(4550));
    assert_eq!(i.temperature_raw, None);
    assert!(VcuInfo::parse(&info[..9]).is_none());
}
