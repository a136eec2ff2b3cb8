use aes::cipher::block_padding::Pkcs7;
use aes::cipher::generic_array::GenericArray;
use aes::cipher::{BlockDecryptMut, KeyIvInit};
use futurist::api::{generate_x_auth, x_auth_from_parts, UPDATE_AUTH_KEY};
use futurist::ble::{is_target_bike, sorted_unique, BikeConnection, Error};
use futurist::cli::dump::{
    classify_bike_tlv, fault_names, fault_summary, fmt_i16, fmt_tenths, fmt_u16, fmt_u32,
    BikeTlvRecord,
};
use futurist::crypto::{generate_pin, normalize_sold_on};
use futurist::flash::{
    flash_plan, next_block_end, pad_to_block, ConsoleCommand, FlashError, FlashProgress, FlashStep,
};
use futurist::cli::config_ui::{apply_curve_shape, CurveData, CurveShape};
use futurist::decode::battery::BatteryCells;
use futurist::presets::{factory_defaults, preset_by_name, presets, PowerPreset};
use futurist::protocol;
use futurist::protocol::{characteristic_name, service_name, UUID_SVC_BATTERY, UUID_TOTALS};
use futurist::telemetry::TlvEntry;

#[test]
fn torque_conversion() {
    let p = PowerPreset { name: "x", description: "y", power_hp: 80, regen: 0, curve: 0 };
    assert_eq!(p.torque_raw(), 100);
    let p = PowerPreset { power_hp: 35, ..p };
    assert_eq!(p.torque_raw(), 43);
    let p = PowerPreset { power_hp: 255, ..p };
    assert_eq!(p.torque_raw(), 318);
}

#[test]
fn preset_lookup_is_case_insensitive() {
    assert_eq!(preset_by_name("sport").unwrap().power_hp, 52);
    assert_eq!(preset_by_name("sPoRt").unwrap().name, "Sport");
    assert_eq!(preset_by_name("MAX").unwrap().regen, 100);
    assert_eq!(preset_by_name("TrAiL").unwrap().name, "Trail");
    assert!(preset_by_name("factory 1").is_none());
    assert!(preset_by_name("").is_none());
    let names: Vec<&str> = presets().iter().map(|p| p.name).collect();
    assert_eq!(names, vec!["Mellow", "Trail", "Sport", "Race", "Max"]);
    let hp: Vec<u8> = factory_defaults().iter().map(|p| p.power_hp).collect();
    assert_eq!(hp, vec![44, 48, 52, 56, 60]);
    assert!(factory_defaults().iter().all(|p| p.regen == 100 && p.curve == 0));
}

#[test]
fn protocol_names() {
    assert_eq!(characteristic_name(UUID_TOTALS), Some("totals"));
    assert_eq!(characteristic_name(UUID_SVC_BATTERY), None);
    assert_eq!(service_name(UUID_SVC_BATTERY), Some("battery"));
    assert_eq!(service_name(UUID_TOTALS), None);
}

#[test]
fn padding_to_flash_blocks() {
    assert!(pad_to_block(&[]).is_empty());
    let p = pad_to_block(&[1, 2, 3]);
    assert_eq!(p.len(), 4096);
    assert_eq!(&p[..3], &[1, 2, 3]);
    assert!(p[3..].iter().all(|&b| b == 0xFF));
    let aligned = vec![7u8; 8192];
    assert_eq!(pad_to_block(&aligned), aligned);
    assert_eq!(pad_to_block(&vec![0u8; 4097]).len(), 8192);
}

#[test]
fn flash_progress_messages() {
    let p = FlashProgress::SendingEspTop { bytes_sent: 2048, total: 4096 };
    assert_eq!(p.describe(), "Sending ESP-TOP binary... 50% (2048/4096)");
    let p = FlashProgress::TransferringBlob { bytes_sent: 0, total: 0 };
    assert_eq!(p.describe(), "Transferring blob... 0% (0/0)");
    assert_eq!(FlashProgress::Done.describe(), "Flash complete.");
    assert_eq!(FlashProgress::Failed("boom".to_string()).describe(), "Flash failed: boom");
    assert_eq!(FlashProgress::WaitingForEspReboot.describe(), "Waiting for ESP reboot (20s)...");
}

#[test]
fn flash_plans() {
    assert!(matches!(flash_plan(None, None), Err(FlashError::NothingToFlash)));
    let steps = flash_plan(None, Some(10)).unwrap();
    assert_eq!(steps.len(), 9);
    assert!(matches!(steps[1], FlashStep::Console(ConsoleCommand::EnterFlashMenu)));
    assert!(matches!(
        steps[2],
        FlashStep::Report(FlashProgress::TransferringBlob { bytes_sent: 0, total: 4096 })
    ));
    assert!(matches!(steps[3], FlashStep::SendBlob));
    assert!(matches!(steps[5], FlashStep::Console(ConsoleCommand::ReloadBlob)));
    assert!(matches!(steps[8], FlashStep::Report(FlashProgress::Done)));
    let steps = flash_plan(Some(5), Some(4096)).unwrap();
    assert_eq!(steps.len(), 13);
    assert!(matches!(steps[3], FlashStep::SendEspTop));
    assert!(matches!(steps[5], FlashStep::WaitForEspReboot));
    assert_eq!(ConsoleCommand::ReloadBlob.text(), "reload-blob");
    assert_eq!(ConsoleCommand::ExitFlashMenu.text(), "x");
}

#[test]
fn x_auth_shape() {
    let h = x_auth_from_parts(&[0xAB; 16], &[0x01, 0xFE]);
    assert_eq!(h, format!("{}01fe", "ab".repeat(16)));
    let header = generate_x_auth().unwrap();
    // 16-byte IV + one 16-byte block of ciphertext for the 9-byte device ID.
    assert_eq!(header.len(), 64);
    assert!(header.chars().all(|c| c.is_ascii_hexdigit() && !c.is_ascii_uppercase()));
    assert_eq!(UPDATE_AUTH_KEY.len(), 32);
}

#[test]
fn connection_facts() {
    assert!(matches!(BikeConnection::new("VIN", "", &[]), Err(Error::NoServicesFound)));
    let c = BikeConnection::new("UDUMX1AB2CD012345", "2024-06-15", &[30, 10, 20, 10]).unwrap();
    assert_eq!(c.vin(), "UDUMX1AB2CD012345");
    assert_eq!(c.pin(), generate_pin("UDUMX1AB2CD012345", &normalize_sold_on("2024-06-15")));
    assert_eq!(format!("{:06}", c.pin_as_passkey()), c.pin());
    assert_eq!(c.characteristic_uuids(), vec![10, 20, 30]);
    assert!(c.has_characteristic(20));
    assert!(!c.has_characteristic(25));
    assert_eq!(sorted_unique(&[5, 1, 5, 3, 1]), vec![1, 3, 5]);
}

#[test]
fn bike_recognition() {
    assert!(is_target_bike(true, "", "VIN123"));
    assert!(is_target_bike(false, "Varg VIN123 x", "VIN123"));
    assert!(!is_target_bike(false, "Varg VIN12", "VIN123"));
    assert!(is_target_bike(false, "anything", ""));
    assert!(!is_target_bike(false, "", "V"));
}

#[test]
fn dump_text() {
    assert_eq!(fmt_u16(Some(4500)), "4500");
    assert_eq!(fmt_u16(None), "-");
    assert_eq!(fmt_i16(Some(-500)), "-500");
    assert_eq!(fmt_i16(Some(i16::MIN)), "-32768");
    assert_eq!(fmt_u32(Some(0)), "0");
    assert_eq!(fault_names(0x85), vec!["general", "motor_temp", "derating_igbt"]);
    assert_eq!(fault_summary(0), None);
    assert_eq!(fault_summary(0x12).unwrap(), "battery_temp, cooling_fan");
    assert_eq!(fault_summary(0x100).unwrap(), "");
}

#[test]
fn bike_tlv_classification() {
    let fast = TlvEntry { entry_type: 1, data: vec![0x13, 0, 0x20, 0, 0, 0, 0x41, 0] };
    match classify_bike_tlv(&fast) {
        BikeTlvRecord::FastBits(f) => {
            assert_eq!(f.walking_mode(), 3);
            assert!(f.indicator(5));
            assert!(!f.indicator(4));
            assert!(f.info(0));
            assert!(f.info(6));
        }
        other => panic!("unexpected {:?}", other),
    }
    let lock = TlvEntry { entry_type: 2, data: vec![1, 0x10, 0] };
    assert_eq!(classify_bike_tlv(&lock), BikeTlvRecord::LockStatus { status: 1, time: 16 });
    let upd = TlvEntry { entry_type: 3, data: vec![1] };
    assert_eq!(classify_bike_tlv(&upd), BikeTlvRecord::UpdateAvailable(true));
    let short = TlvEntry { entry_type: 1, data: vec![0; 7] };
    assert_eq!(classify_bike_tlv(&short), BikeTlvRecord::Other);
}

#[test]
fn speed_in_tenths() {
    assert_eq!(fmt_tenths(Some(123)), "12.3");
    assert_eq!(fmt_tenths(Some(5)), "0.5");
    assert_eq!(fmt_tenths(Some(0)), "0.0");
    assert_eq!(fmt_tenths(Some(65535)), "6553.5");
    assert_eq!(fmt_tenths(None), "-");
}

#[test]
fn flash_blocks() {
    assert_eq!(next_block_end(0, 10000), Some(4096));
    assert_eq!(next_block_end(4096, 10000), Some(8192));
    assert_eq!(next_block_end(8192, 10000), Some(10000));
    assert_eq!(next_block_end(10000, 10000), None);
    assert_eq!(next_block_end(0, 4096), Some(4096));
    assert_eq!(next_block_end(0, 0), None);
}

#[test]
fn x_auth_decrypts_to_device_id() {
    let header = generate_x_auth().unwrap();
    let bytes = hex::decode(&header).unwrap();
    let (iv, ct) = bytes.split_at(16);
    let dec = cbc::Decryptor::<aes::Aes256>::new(
        GenericArray::from_slice(&UPDATE_AUTH_KEY),
        GenericArray::from_slice(iv),
    )
    .decrypt_padded_vec_mut::<Pkcs7>(ct)
    .unwrap();
    assert_eq!(dec, b"BLACKVIEW");
    // Two headers use two random IVs.
    assert_ne!(generate_x_auth().unwrap()[..32], header[..32]);
}

#[test]
fn exactly_the_known_characteristics_have_distinct_names() {
    let known = [
        protocol::UUID_SECURITY,
        protocol::UUID_STATUS_BITS,
        protocol::UUID_IDENTITY,
        protocol::UUID_VERSIONS,
        protocol::UUID_COMMAND,
        protocol::UUID_EXTENDED_TLV,
        protocol::UUID_EXTENDED_CONFIG,
        protocol::UUID_SPEED,
        protocol::UUID_THROTTLE,
        protocol::UUID_IMU,
        protocol::UUID_MAPS,
        protocol::UUID_TOTALS,
        protocol::UUID_ESTIMATIONS,
        protocol::UUID_RACING,
        protocol::UUID_LIVE_CONFIG,
        protocol::UUID_LIVE_TLV,
        protocol::UUID_LIVE_EXT_CONFIG,
        protocol::UUID_DOCKING_DATA_1,
        protocol::UUID_DOCKING_DATA_2,
        protocol::UUID_DOCKING_TLV,
        protocol::UUID_DOCKING_CONFIG,
        protocol::UUID_VCU_VERSIONS,
        protocol::UUID_VCU_INFO,
        protocol::UUID_VCU_CONFIG,
        protocol::UUID_VCU_TLV,
        protocol::UUID_CHARGER_DATA,
        protocol::UUID_CHARGER_TLV,
        protocol::UUID_CHARGER_CONFIG,
        protocol::UUID_BATTERY_DATA_1,
        protocol::UUID_BATTERY_DATA_2,
        protocol::UUID_BATTERY_DATA_3,
        protocol::UUID_BATTERY_DATA_4,
        protocol::UUID_BATTERY_DATA_5,
        protocol::UUID_BATTERY_DATA_6,
        protocol::UUID_BATTERY_DATA_7,
        protocol::UUID_BATTERY_DATA_8,
        protocol::UUID_BATTERY_DATA_9,
        protocol::UUID_BATTERY_TLV,
        protocol::UUID_BATTERY_CONFIG,
        protocol::UUID_INVERTER_DATA_1,
        protocol::UUID_INVERTER_DATA_2,
        protocol::UUID_INVERTER_DATA_3,
        protocol::UUID_INVERTER_DATA_4,
        protocol::UUID_INVERTER_TLV,
        protocol::UUID_INVERTER_CONFIG,
        protocol::UUID_BATTERY_LEVEL
    ];
    assert_eq!(known.len(), 46);
    let mut names = std::collections::HashSet::new();
    for u in known {
        assert!(names.insert(characteristic_name(u).unwrap()));
    }
    for s in [protocol::UUID_SVC_BIKE, protocol::UUID_SVC_LIVE, protocol::UUID_SVC_DOCKING, protocol::UUID_SVC_VCU, protocol::UUID_SVC_CHARGER, protocol::UUID_SVC_BATTERY, protocol::UUID_SVC_INVERTER] {
        assert_eq!(characteristic_name(s), None);
    }
    assert_eq!(characteristic_name(0), None);
    assert_eq!(characteristic_name(protocol::UUID_SPEED), Some("speed"));
    assert_eq!(characteristic_name(protocol::UUID_MAPS), Some("ride_mode"));
    assert_eq!(characteristic_name(protocol::UUID_BATTERY_LEVEL), Some("battery"));
}

#[test]
fn curve_shapes() {
    let mut c = CurveData::empty(3);
    apply_curve_shape(&mut c, CurveShape::LowEndTame);
    assert_eq!(c.index, 3);
    assert!(!c.readable);
    assert_eq!(
        c.torque,
        vec![300, 400, 500, 600, 700, 800, 850, 900, 940, 960, 980, 990, 1000, 1000, 1000]
    );
    assert_eq!(c.regen, vec![1000; 15]);
    apply_curve_shape(&mut c, CurveShape::MidRangeBoost);
    assert_eq!(
        c.torque,
        vec![500, 600, 750, 900, 1000, 1000, 1000, 1000, 1000, 950, 900, 850, 800, 750, 700]
    );
    apply_curve_shape(&mut c, CurveShape::TopEndOnly);
    assert_eq!(
        c.torque,
        vec![100, 150, 200, 250, 350, 450, 550, 650, 750, 850, 900, 950, 980, 1000, 1000]
    );
    apply_curve_shape(&mut c, CurveShape::Flat);
    assert_eq!(c.torque, vec![1000; 15]);
    assert_eq!(c.regen, vec![1000; 15]);
}

#[test]
fn active_cells_count_non_sentinel_readings() {
    assert_eq!(BatteryCells::parse(&[0xFF; 200]).unwrap().active_count(), 0);
    assert_eq!(BatteryCells::parse(&[0u8; 200]).unwrap().active_count(), 100);
    let mut d = [0xFFu8; 200];
    d[10] = 0x34;
    d[198] = 0;
    assert_eq!(BatteryCells::parse(&d).unwrap().active_count(), 2);
}
