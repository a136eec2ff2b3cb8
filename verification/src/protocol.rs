//! GATT service and characteristic UUIDs for the Stark Varg.
//!
//! All custom UUIDs share the base `XXXXXXXX-5374-6172-4b20-467574757265`
//! ("StarK Future" in ASCII). Each UUID is held as its 128-bit value, the
//! big-endian reading of its 16 bytes.

use vstd::prelude::*;

verus! {

pub const UUID_SVC_BIKE: u128 = 0x00001000_5374_6172_4b20_467574757265;
pub const UUID_SVC_LIVE: u128 = 0x00002000_5374_6172_4b20_467574757265;
pub const UUID_SVC_DOCKING: u128 = 0x00003000_5374_6172_4b20_467574757265;
pub const UUID_SVC_VCU: u128 = 0x00004000_5374_6172_4b20_467574757265;
pub const UUID_SVC_CHARGER: u128 = 0x00005000_5374_6172_4b20_467574757265;
pub const UUID_SVC_BATTERY: u128 = 0x00006000_5374_6172_4b20_467574757265;
pub const UUID_SVC_INVERTER: u128 = 0x00007000_5374_6172_4b20_467574757265;
pub const UUID_SECURITY: u128 = 0x00001001_5374_6172_4b20_467574757265;
pub const UUID_STATUS_BITS: u128 = 0x00001002_5374_6172_4b20_467574757265;
pub const UUID_IDENTITY: u128 = 0x00001003_5374_6172_4b20_467574757265;
pub const UUID_VERSIONS: u128 = 0x00001005_5374_6172_4b20_467574757265;
pub const UUID_COMMAND: u128 = 0x00001006_5374_6172_4b20_467574757265;
pub const UUID_EXTENDED_TLV: u128 = 0x00001100_5374_6172_4b20_467574757265;
pub const UUID_EXTENDED_CONFIG: u128 = 0x00001101_5374_6172_4b20_467574757265;
pub const UUID_SPEED: u128 = 0x00002001_5374_6172_4b20_467574757265;
pub const UUID_THROTTLE: u128 = 0x00002002_5374_6172_4b20_467574757265;
pub const UUID_IMU: u128 = 0x00002003_5374_6172_4b20_467574757265;
pub const UUID_MAPS: u128 = 0x00002004_5374_6172_4b20_467574757265;
pub const UUID_TOTALS: u128 = 0x00002005_5374_6172_4b20_467574757265;
pub const UUID_ESTIMATIONS: u128 = 0x00002006_5374_6172_4b20_467574757265;
pub const UUID_RACING: u128 = 0x00002007_5374_6172_4b20_467574757265;
pub const UUID_LIVE_CONFIG: u128 = 0x00002008_5374_6172_4b20_467574757265;
pub const UUID_LIVE_TLV: u128 = 0x00002100_5374_6172_4b20_467574757265;
pub const UUID_LIVE_EXT_CONFIG: u128 = 0x00002101_5374_6172_4b20_467574757265;
pub const UUID_DOCKING_DATA_1: u128 = 0x00003001_5374_6172_4b20_467574757265;
pub const UUID_DOCKING_DATA_2: u128 = 0x00003002_5374_6172_4b20_467574757265;
pub const UUID_DOCKING_TLV: u128 = 0x00003100_5374_6172_4b20_467574757265;
pub const UUID_DOCKING_CONFIG: u128 = 0x00003101_5374_6172_4b20_467574757265;
pub const UUID_VCU_VERSIONS: u128 = 0x00004001_5374_6172_4b20_467574757265;
pub const UUID_VCU_INFO: u128 = 0x00004002_5374_6172_4b20_467574757265;
pub const UUID_VCU_CONFIG: u128 = 0x00004005_5374_6172_4b20_467574757265;
pub const UUID_VCU_TLV: u128 = 0x00004100_5374_6172_4b20_467574757265;
pub const UUID_CHARGER_DATA: u128 = 0x00005001_5374_6172_4b20_467574757265;
pub const UUID_CHARGER_TLV: u128 = 0x00005100_5374_6172_4b20_467574757265;
pub const UUID_CHARGER_CONFIG: u128 = 0x00005101_5374_6172_4b20_467574757265;
pub const UUID_BATTERY_DATA_1: u128 = 0x00006001_5374_6172_4b20_467574757265;
pub const UUID_BATTERY_DATA_2: u128 = 0x00006002_5374_6172_4b20_467574757265;
pub const UUID_BATTERY_DATA_3: u128 = 0x00006003_5374_6172_4b20_467574757265;
pub const UUID_BATTERY_DATA_4: u128 = 0x00006004_5374_6172_4b20_467574757265;
pub const UUID_BATTERY_DATA_5: u128 = 0x00006005_5374_6172_4b20_467574757265;
pub const UUID_BATTERY_DATA_6: u128 = 0x00006006_5374_6172_4b20_467574757265;
pub const UUID_BATTERY_DATA_7: u128 = 0x00006007_5374_6172_4b20_467574757265;
pub const UUID_BATTERY_DATA_8: u128 = 0x00006008_5374_6172_4b20_467574757265;
pub const UUID_BATTERY_DATA_9: u128 = 0x00006009_5374_6172_4b20_467574757265;
pub const UUID_BATTERY_TLV: u128 = 0x00006100_5374_6172_4b20_467574757265;
pub const UUID_BATTERY_CONFIG: u128 = 0x00006101_5374_6172_4b20_467574757265;
pub const UUID_INVERTER_DATA_1: u128 = 0x00007001_5374_6172_4b20_467574757265;
pub const UUID_INVERTER_DATA_2: u128 = 0x00007002_5374_6172_4b20_467574757265;
pub const UUID_INVERTER_DATA_3: u128 = 0x00007003_5374_6172_4b20_467574757265;
pub const UUID_INVERTER_DATA_4: u128 = 0x00007004_5374_6172_4b20_467574757265;
pub const UUID_INVERTER_TLV: u128 = 0x00007100_5374_6172_4b20_467574757265;
pub const UUID_INVERTER_CONFIG: u128 = 0x00007101_5374_6172_4b20_467574757265;
pub const UUID_BATTERY_LEVEL: u128 = 0x00002a19_0000_1000_8000_00805f9b34fb;

// Names for the data characteristics by what they carry.
/// 0x6001 — battery fault bits.
pub const UUID_BATT_STATUS: u128 = 0x00006001_5374_6172_4b20_467574757265;
/// 0x6002 — battery firmware versions.
pub const UUID_BATT_FW_VERSION: u128 = 0x00006002_5374_6172_4b20_467574757265;
/// 0x6003 — battery parameters.
pub const UUID_BATT_PARAMS: u128 = 0x00006003_5374_6172_4b20_467574757265;
/// 0x6004 — battery state of charge.
pub const UUID_BATT_SOC: u128 = 0x00006004_5374_6172_4b20_467574757265;
/// 0x6005 — battery temperatures.
pub const UUID_BATT_TEMPS: u128 = 0x00006005_5374_6172_4b20_467574757265;
/// 0x6007 — battery cell voltages.
pub const UUID_BATT_CELLS: u128 = 0x00006007_5374_6172_4b20_467574757265;
/// 0x6009 — battery BMS signals.
pub const UUID_BATT_SIGNALS: u128 = 0x00006009_5374_6172_4b20_467574757265;
/// 0x6100 — battery TLV stream.
pub const UUID_BATT_TLV: u128 = 0x00006100_5374_6172_4b20_467574757265;
/// 0x7001 — inverter info.
pub const UUID_INV_INFO: u128 = 0x00007001_5374_6172_4b20_467574757265;
/// 0x7002 — inverter signals.
pub const UUID_INV_SIGNALS: u128 = 0x00007002_5374_6172_4b20_467574757265;
/// 0x7003 — inverter temperatures.
pub const UUID_INV_TEMPS: u128 = 0x00007003_5374_6172_4b20_467574757265;
/// 0x7004 — inverter PCB data.
pub const UUID_INV_PCB: u128 = 0x00007004_5374_6172_4b20_467574757265;
/// 0x7100 — inverter TLV stream.
pub const UUID_INV_TLV: u128 = 0x00007100_5374_6172_4b20_467574757265;

/// The fallback sold-on date: used when the real date is unknown.
pub const SOLD_DATE_DEFAULT: &'static str = "19700101";

/// The human-readable name of every known characteristic.
pub open spec fn characteristic_label(uuid: u128) -> Option<Seq<char>> {
    if uuid == UUID_SECURITY { Some("security"@) }
    else if uuid == UUID_STATUS_BITS { Some("status"@) }
    else if uuid == UUID_IDENTITY { Some("identity"@) }
    else if uuid == UUID_VERSIONS { Some("versions"@) }
    else if uuid == UUID_COMMAND { Some("command"@) }
    else if uuid == UUID_EXTENDED_TLV { Some("bike_tlv"@) }
    else if uuid == UUID_EXTENDED_CONFIG { Some("bike_ext_cfg"@) }
    else if uuid == UUID_SPEED { Some("speed"@) }
    else if uuid == UUID_THROTTLE { Some("throttle"@) }
    else if uuid == UUID_IMU { Some("imu"@) }
    else if uuid == UUID_MAPS { Some("ride_mode"@) }
    else if uuid == UUID_TOTALS { Some("totals"@) }
    else if uuid == UUID_ESTIMATIONS { Some("estimates"@) }
    else if uuid == UUID_RACING { Some("racing"@) }
    else if uuid == UUID_LIVE_CONFIG { Some("live_cfg"@) }
    else if uuid == UUID_LIVE_TLV { Some("live_tlv"@) }
    else if uuid == UUID_LIVE_EXT_CONFIG { Some("live_ext_cfg"@) }
    else if uuid == UUID_DOCKING_DATA_1 { Some("dock_1"@) }
    else if uuid == UUID_DOCKING_DATA_2 { Some("dock_2"@) }
    else if uuid == UUID_DOCKING_TLV { Some("dock_tlv"@) }
    else if uuid == UUID_DOCKING_CONFIG { Some("dock_cfg"@) }
    else if uuid == UUID_VCU_VERSIONS { Some("vcu_ver"@) }
    else if uuid == UUID_VCU_INFO { Some("vcu_info"@) }
    else if uuid == UUID_VCU_CONFIG { Some("vcu_cfg"@) }
    else if uuid == UUID_VCU_TLV { Some("vcu_tlv"@) }
    else if uuid == UUID_CHARGER_DATA { Some("charger"@) }
    else if uuid == UUID_CHARGER_TLV { Some("chg_tlv"@) }
    else if uuid == UUID_CHARGER_CONFIG { Some("chg_cfg"@) }
    else if uuid == UUID_BATTERY_DATA_1 { Some("batt_1"@) }
    else if uuid == UUID_BATTERY_DATA_2 { Some("batt_2"@) }
    else if uuid == UUID_BATTERY_DATA_3 { Some("batt_3"@) }
    else if uuid == UUID_BATTERY_DATA_4 { Some("batt_4"@) }
    else if uuid == UUID_BATTERY_DATA_5 { Some("batt_5"@) }
    else if uuid == UUID_BATTERY_DATA_6 { Some("batt_6"@) }
    else if uuid == UUID_BATTERY_DATA_7 { Some("batt_7"@) }
    else if uuid == UUID_BATTERY_DATA_8 { Some("batt_8"@) }
    else if uuid == UUID_BATTERY_DATA_9 { Some("batt_9"@) }
    else if uuid == UUID_BATTERY_TLV { Some("batt_tlv"@) }
    else if uuid == UUID_BATTERY_CONFIG { Some("batt_cfg"@) }
    else if uuid == UUID_INVERTER_DATA_1 { Some("inv_1"@) }
    else if uuid == UUID_INVERTER_DATA_2 { Some("inv_2"@) }
    else if uuid == UUID_INVERTER_DATA_3 { Some("inv_3"@) }
    else if uuid == UUID_INVERTER_DATA_4 { Some("inv_4"@) }
    else if uuid == UUID_INVERTER_TLV { Some("inv_tlv"@) }
    else if uuid == UUID_INVERTER_CONFIG { Some("inv_cfg"@) }
    else if uuid == UUID_BATTERY_LEVEL { Some("battery"@) }
    else { None }
}

/// The short name of every Stark service.
pub open spec fn service_label(uuid: u128) -> Option<Seq<char>> {
    if uuid == UUID_SVC_BIKE { Some("bike"@) }
    else if uuid == UUID_SVC_LIVE { Some("live"@) }
    else if uuid == UUID_SVC_DOCKING { Some("docking"@) }
    else if uuid == UUID_SVC_VCU { Some("vcu"@) }
    else if uuid == UUID_SVC_CHARGER { Some("charger"@) }
    else if uuid == UUID_SVC_BATTERY { Some("battery"@) }
    else if uuid == UUID_SVC_INVERTER { Some("inverter"@) }
    else { None }
}

/// The characters of an optional static name.
pub open spec fn str_opt_view(s: Option<&'static str>) -> Option<Seq<char>> {
    match s {
        Some(t) => Some(t@),
        None => None,
    }
}

/// Look up a human-readable name for any known characteristic UUID.
pub fn characteristic_name(uuid: u128) -> (r: Option<&'static str>)
    ensures
        str_opt_view(r) == characteristic_label(uuid),
{
    if uuid == UUID_SECURITY { Some("security") }
    else if uuid == UUID_STATUS_BITS { Some("status") }
    else if uuid == UUID_IDENTITY { Some("identity") }
    else if uuid == UUID_VERSIONS { Some("versions") }
    else if uuid == UUID_COMMAND { Some("command") }
    else if uuid == UUID_EXTENDED_TLV { Some("bike_tlv") }
    else if uuid == UUID_EXTENDED_CONFIG { Some("bike_ext_cfg") }
    else if uuid == UUID_SPEED { Some("speed") }
    else if uuid == UUID_THROTTLE { Some("throttle") }
    else if uuid == UUID_IMU { Some("imu") }
    else if uuid == UUID_MAPS { Some("ride_mode") }
    else if uuid == UUID_TOTALS { Some("totals") }
    else if uuid == UUID_ESTIMATIONS { Some("estimates") }
    else if uuid == UUID_RACING { Some("racing") }
    else if uuid == UUID_LIVE_CONFIG { Some("live_cfg") }
    else if uuid == UUID_LIVE_TLV { Some("live_tlv") }
    else if uuid == UUID_LIVE_EXT_CONFIG { Some("live_ext_cfg") }
    else if uuid == UUID_DOCKING_DATA_1 { Some("dock_1") }
    else if uuid == UUID_DOCKING_DATA_2 { Some("dock_2") }
    else if uuid == UUID_DOCKING_TLV { Some("dock_tlv") }
    else if uuid == UUID_DOCKING_CONFIG { Some("dock_cfg") }
    else if uuid == UUID_VCU_VERSIONS { Some("vcu_ver") }
    else if uuid == UUID_VCU_INFO { Some("vcu_info") }
    else if uuid == UUID_VCU_CONFIG { Some("vcu_cfg") }
    else if uuid == UUID_VCU_TLV { Some("vcu_tlv") }
    else if uuid == UUID_CHARGER_DATA { Some("charger") }
    else if uuid == UUID_CHARGER_TLV { Some("chg_tlv") }
    else if uuid == UUID_CHARGER_CONFIG { Some("chg_cfg") }
    else if uuid == UUID_BATTERY_DATA_1 { Some("batt_1") }
    else if uuid == UUID_BATTERY_DATA_2 { Some("batt_2") }
    else if uuid == UUID_BATTERY_DATA_3 { Some("batt_3") }
    else if uuid == UUID_BATTERY_DATA_4 { Some("batt_4") }
    else if uuid == UUID_BATTERY_DATA_5 { Some("batt_5") }
    else if uuid == UUID_BATTERY_DATA_6 { Some("batt_6") }
    else if uuid == UUID_BATTERY_DATA_7 { Some("batt_7") }
    else if uuid == UUID_BATTERY_DATA_8 { Some("batt_8") }
    else if uuid == UUID_BATTERY_DATA_9 { Some("batt_9") }
    else if uuid == UUID_BATTERY_TLV { Some("batt_tlv") }
    else if uuid == UUID_BATTERY_CONFIG { Some("batt_cfg") }
    else if uuid == UUID_INVERTER_DATA_1 { Some("inv_1") }
    else if uuid == UUID_INVERTER_DATA_2 { Some("inv_2") }
    else if uuid == UUID_INVERTER_DATA_3 { Some("inv_3") }
    else if uuid == UUID_INVERTER_DATA_4 { Some("inv_4") }
    else if uuid == UUID_INVERTER_TLV { Some("inv_tlv") }
    else if uuid == UUID_INVERTER_CONFIG { Some("inv_cfg") }
    else if uuid == UUID_BATTERY_LEVEL { Some("battery") }
    else { None }
}

/// Look up which service a UUID names.
pub fn service_name(uuid: u128) -> (r: Option<&'static str>)
    ensures
        str_opt_view(r) == service_label(uuid),
{
    if uuid == UUID_SVC_BIKE { Some("bike") }
    else if uuid == UUID_SVC_LIVE { Some("live") }
    else if uuid == UUID_SVC_DOCKING { Some("docking") }
    else if uuid == UUID_SVC_VCU { Some("vcu") }
    else if uuid == UUID_SVC_CHARGER { Some("charger") }
    else if uuid == UUID_SVC_BATTERY { Some("battery") }
    else if uuid == UUID_SVC_INVERTER { Some("inverter") }
    else { None }
}

/// The characteristics the protocol names, in the order of the table.
pub open spec fn known_characteristics() -> Seq<u128> {
    seq![
        UUID_SECURITY,
        UUID_STATUS_BITS,
        UUID_IDENTITY,
        UUID_VERSIONS,
        UUID_COMMAND,
        UUID_EXTENDED_TLV,
        UUID_EXTENDED_CONFIG,
        UUID_SPEED,
        UUID_THROTTLE,
        UUID_IMU,
        UUID_MAPS,
        UUID_TOTALS,
        UUID_ESTIMATIONS,
        UUID_RACING,
        UUID_LIVE_CONFIG,
        UUID_LIVE_TLV,
        UUID_LIVE_EXT_CONFIG,
        UUID_DOCKING_DATA_1,
        UUID_DOCKING_DATA_2,
        UUID_DOCKING_TLV,
        UUID_DOCKING_CONFIG,
        UUID_VCU_VERSIONS,
        UUID_VCU_INFO,
        UUID_VCU_CONFIG,
        UUID_VCU_TLV,
        UUID_CHARGER_DATA,
        UUID_CHARGER_TLV,
        UUID_CHARGER_CONFIG,
        UUID_BATTERY_DATA_1,
        UUID_BATTERY_DATA_2,
        UUID_BATTERY_DATA_3,
        UUID_BATTERY_DATA_4,
        UUID_BATTERY_DATA_5,
        UUID_BATTERY_DATA_6,
        UUID_BATTERY_DATA_7,
        UUID_BATTERY_DATA_8,
        UUID_BATTERY_DATA_9,
        UUID_BATTERY_TLV,
        UUID_BATTERY_CONFIG,
        UUID_INVERTER_DATA_1,
        UUID_INVERTER_DATA_2,
        UUID_INVERTER_DATA_3,
        UUID_INVERTER_DATA_4,
        UUID_INVERTER_TLV,
        UUID_INVERTER_CONFIG,
        UUID_BATTERY_LEVEL,
    ]
}

/// Exactly the 46 known characteristics have names: the service UUIDs
/// and every other UUID have none. The known UUIDs are all different.
pub proof fn lemma_named_characteristics(uuid: u128)
    ensures
        characteristic_label(uuid) is Some <==> known_characteristics().contains(uuid),
        known_characteristics().len() == 46,
        known_characteristics().no_duplicates(),
        service_label(uuid) is Some ==> characteristic_label(uuid) is None,
{
    let ks = known_characteristics();
    if characteristic_label(uuid) is Some {
        assert(exists|i: int| 0 <= i < ks.len() && ks[i] == uuid) by {
            if uuid == UUID_SECURITY { assert(ks[0] == uuid); }
            if uuid == UUID_STATUS_BITS { assert(ks[1] == uuid); }
            if uuid == UUID_IDENTITY { assert(ks[2] == uuid); }
            if uuid == UUID_VERSIONS { assert(ks[3] == uuid); }
            if uuid == UUID_COMMAND { assert(ks[4] == uuid); }
            if uuid == UUID_EXTENDED_TLV { assert(ks[5] == uuid); }
            if uuid == UUID_EXTENDED_CONFIG { assert(ks[6] == uuid); }
            if uuid == UUID_SPEED { assert(ks[7] == uuid); }
            if uuid == UUID_THROTTLE { assert(ks[8] == uuid); }
            if uuid == UUID_IMU { assert(ks[9] == uuid); }
            if uuid == UUID_MAPS { assert(ks[10] == uuid); }
            if uuid == UUID_TOTALS { assert(ks[11] == uuid); }
            if uuid == UUID_ESTIMATIONS { assert(ks[12] == uuid); }
            if uuid == UUID_RACING { assert(ks[13] == uuid); }
            if uuid == UUID_LIVE_CONFIG { assert(ks[14] == uuid); }
            if uuid == UUID_LIVE_TLV { assert(ks[15] == uuid); }
            if uuid == UUID_LIVE_EXT_CONFIG { assert(ks[16] == uuid); }
            if uuid == UUID_DOCKING_DATA_1 { assert(ks[17] == uuid); }
            if uuid == UUID_DOCKING_DATA_2 { assert(ks[18] == uuid); }
            if uuid == UUID_DOCKING_TLV { assert(ks[19] == uuid); }
            if uuid == UUID_DOCKING_CONFIG { assert(ks[20] == uuid); }
            if uuid == UUID_VCU_VERSIONS { assert(ks[21] == uuid); }
            if uuid == UUID_VCU_INFO { assert(ks[22] == uuid); }
            if uuid == UUID_VCU_CONFIG { assert(ks[23] == uuid); }
            if uuid == UUID_VCU_TLV { assert(ks[24] == uuid); }
            if uuid == UUID_CHARGER_DATA { assert(ks[25] == uuid); }
            if uuid == UUID_CHARGER_TLV { assert(ks[26] == uuid); }
            if uuid == UUID_CHARGER_CONFIG { assert(ks[27] == uuid); }
            if uuid == UUID_BATTERY_DATA_1 { assert(ks[28] == uuid); }
            if uuid == UUID_BATTERY_DATA_2 { assert(ks[29] == uuid); }
            if uuid == UUID_BATTERY_DATA_3 { assert(ks[30] == uuid); }
            if uuid == UUID_BATTERY_DATA_4 { assert(ks[31] == uuid); }
            if uuid == UUID_BATTERY_DATA_5 { assert(ks[32] == uuid); }
            if uuid == UUID_BATTERY_DATA_6 { assert(ks[33] == uuid); }
            if uuid == UUID_BATTERY_DATA_7 { assert(ks[34] == uuid); }
            if uuid == UUID_BATTERY_DATA_8 { assert(ks[35] == uuid); }
            if uuid == UUID_BATTERY_DATA_9 { assert(ks[36] == uuid); }
            if uuid == UUID_BATTERY_TLV { assert(ks[37] == uuid); }
            if uuid == UUID_BATTERY_CONFIG { assert(ks[38] == uuid); }
            if uuid == UUID_INVERTER_DATA_1 { assert(ks[39] == uuid); }
            if uuid == UUID_INVERTER_DATA_2 { assert(ks[40] == uuid); }
            if uuid == UUID_INVERTER_DATA_3 { assert(ks[41] == uuid); }
            if uuid == UUID_INVERTER_DATA_4 { assert(ks[42] == uuid); }
            if uuid == UUID_INVERTER_TLV { assert(ks[43] == uuid); }
            if uuid == UUID_INVERTER_CONFIG { assert(ks[44] == uuid); }
            if uuid == UUID_BATTERY_LEVEL { assert(ks[45] == uuid); }
        }
    }
    if ks.contains(uuid) {
        let i = choose|i: int| 0 <= i < ks.len() && ks[i] == uuid;
        assert(characteristic_label(ks[i]) is Some);
    }
}

/// The character at `i` of a name as a number, or 0 past its end.
spec fn ch(n: Seq<char>, i: int) -> int {
    if i < n.len() { n[i] as int }
    else { 0 }
}

/// A number that tells apart names of at most 12 ASCII characters: the
/// length, then the characters as base-128 digits.
spec fn name_code(n: Seq<char>) -> int {
    n.len() + 16 * (ch(n, 0) + 128 * (ch(n, 1) + 128 * (ch(n, 2) + 128 * (ch(n, 3) + 128 * (ch(n, 4) + 128 * (ch(n, 5) + 128 * (ch(n, 6) + 128 * (ch(n, 7) + 128 * (ch(n, 8) + 128 * (ch(n, 9) + 128 * (ch(n, 10) + 128 * (ch(n, 11)))))))))))))
}

/// The code of each known characteristic's name.
spec fn label_code(uuid: u128) -> int {
    if uuid == UUID_SECURITY { 1098092102087028536 }
    else if uuid == UUID_STATUS_BITS { 63728347752246 }
    else if uuid == UUID_IDENTITY { 1098092110442604184 }
    else if uuid == UUID_VERSIONS { 1043629953910517608 }
    else if uuid == UUID_COMMAND { 7097767855357495 }
    else if uuid == UUID_EXTENDED_TLV { 1070513519544192552 }
    else if uuid == UUID_EXTENDED_CONFIG { 250980164767809040479637036 }
    else if uuid == UUID_SPEED { 432912434997 }
    else if uuid == UUID_THROTTLE { 917391222745286472 }
    else if uuid == UUID_IMU { 30895763 }
    else if uuid == UUID_MAPS { 117353663156190400297 }
    else if uuid == UUID_TOTALS { 63689060482886 }
    else if uuid == UUID_ESTIMATIONS { 133503916726860095065 }
    else if uuid == UUID_RACING { 57100844601126 }
    else if uuid == UUID_LIVE_CONFIG { 934973972412059336 }
    else if uuid == UUID_LIVE_TLV { 1070513519547076296 }
    else if uuid == UUID_LIVE_EXT_CONFIG { 250980164767809040482520780 }
    else if uuid == UUID_DOCKING_DATA_1 { 27349673279046 }
    else if uuid == UUID_DOCKING_DATA_2 { 27899429092934 }
    else if uuid == UUID_DOCKING_TLV { 1070513519743434312 }
    else if uuid == UUID_DOCKING_CONFIG { 934973972608417352 }
    else if uuid == UUID_VCU_VERSIONS { 8078072198143847 }
    else if uuid == UUID_VCU_INFO { 1007037656512012136 }
    else if uuid == UUID_VCU_CONFIG { 7304484163624807 }
    else if uuid == UUID_VCU_TLV { 8363386875617127 }
    else if uuid == UUID_CHARGER_DATA { 8078008405935671 }
    else if uuid == UUID_CHARGER_TLV { 8363386871957047 }
    else if uuid == UUID_CHARGER_CONFIG { 7304484159964727 }
    else if uuid == UUID_BATTERY_DATA_1 { 27349979696678 }
    else if uuid == UUID_BATTERY_DATA_2 { 27899735510566 }
    else if uuid == UUID_BATTERY_DATA_3 { 28449491324454 }
    else if uuid == UUID_BATTERY_DATA_4 { 28999247138342 }
    else if uuid == UUID_BATTERY_DATA_5 { 29549002952230 }
    else if uuid == UUID_BATTERY_DATA_6 { 30098758766118 }
    else if uuid == UUID_BATTERY_DATA_7 { 30648514580006 }
    else if uuid == UUID_BATTERY_DATA_8 { 31198270393894 }
    else if uuid == UUID_BATTERY_DATA_9 { 31748026207782 }
    else if uuid == UUID_BATTERY_TLV { 1070513520049851944 }
    else if uuid == UUID_BATTERY_CONFIG { 934973972914834984 }
    else if uuid == UUID_INVERTER_DATA_1 { 213672228501 }
    else if uuid == UUID_INVERTER_DATA_2 { 217967195797 }
    else if uuid == UUID_INVERTER_DATA_3 { 222262163093 }
    else if uuid == UUID_INVERTER_DATA_4 { 226557130389 }
    else if uuid == UUID_INVERTER_TLV { 8363386875901591 }
    else if uuid == UUID_INVERTER_CONFIG { 7304484163909271 }
    else if uuid == UUID_BATTERY_LEVEL { 8577727922900519 }
    else { -1 }
}

/// The known characteristic whose name has code `code`.
spec fn uuid_of_code(code: int) -> u128 {
    if code == 1098092102087028536 { UUID_SECURITY }
    else if code == 63728347752246 { UUID_STATUS_BITS }
    else if code == 1098092110442604184 { UUID_IDENTITY }
    else if code == 1043629953910517608 { UUID_VERSIONS }
    else if code == 7097767855357495 { UUID_COMMAND }
    else if code == 1070513519544192552 { UUID_EXTENDED_TLV }
    else if code == 250980164767809040479637036 { UUID_EXTENDED_CONFIG }
    else if code == 432912434997 { UUID_SPEED }
    else if code == 917391222745286472 { UUID_THROTTLE }
    else if code == 30895763 { UUID_IMU }
    else if code == 117353663156190400297 { UUID_MAPS }
    else if code == 63689060482886 { UUID_TOTALS }
    else if code == 133503916726860095065 { UUID_ESTIMATIONS }
    else if code == 57100844601126 { UUID_RACING }
    else if code == 934973972412059336 { UUID_LIVE_CONFIG }
    else if code == 1070513519547076296 { UUID_LIVE_TLV }
    else if code == 250980164767809040482520780 { UUID_LIVE_EXT_CONFIG }
    else if code == 27349673279046 { UUID_DOCKING_DATA_1 }
    else if code == 27899429092934 { UUID_DOCKING_DATA_2 }
    else if code == 1070513519743434312 { UUID_DOCKING_TLV }
    else if code == 934973972608417352 { UUID_DOCKING_CONFIG }
    else if code == 8078072198143847 { UUID_VCU_VERSIONS }
    else if code == 1007037656512012136 { UUID_VCU_INFO }
    else if code == 7304484163624807 { UUID_VCU_CONFIG }
    else if code == 8363386875617127 { UUID_VCU_TLV }
    else if code == 8078008405935671 { UUID_CHARGER_DATA }
    else if code == 8363386871957047 { UUID_CHARGER_TLV }
    else if code == 7304484159964727 { UUID_CHARGER_CONFIG }
    else if code == 27349979696678 { UUID_BATTERY_DATA_1 }
    else if code == 27899735510566 { UUID_BATTERY_DATA_2 }
    else if code == 28449491324454 { UUID_BATTERY_DATA_3 }
    else if code == 28999247138342 { UUID_BATTERY_DATA_4 }
    else if code == 29549002952230 { UUID_BATTERY_DATA_5 }
    else if code == 30098758766118 { UUID_BATTERY_DATA_6 }
    else if code == 30648514580006 { UUID_BATTERY_DATA_7 }
    else if code == 31198270393894 { UUID_BATTERY_DATA_8 }
    else if code == 31748026207782 { UUID_BATTERY_DATA_9 }
    else if code == 1070513520049851944 { UUID_BATTERY_TLV }
    else if code == 934973972914834984 { UUID_BATTERY_CONFIG }
    else if code == 213672228501 { UUID_INVERTER_DATA_1 }
    else if code == 217967195797 { UUID_INVERTER_DATA_2 }
    else if code == 222262163093 { UUID_INVERTER_DATA_3 }
    else if code == 226557130389 { UUID_INVERTER_DATA_4 }
    else if code == 8363386875901591 { UUID_INVERTER_TLV }
    else if code == 7304484163909271 { UUID_INVERTER_CONFIG }
    else if code == 8577727922900519 { UUID_BATTERY_LEVEL }
    else { 0 }
}

proof fn lemma_label_code(uuid: u128)
    requires
        characteristic_label(uuid) is Some,
    ensures
        name_code(characteristic_label(uuid)->0) == label_code(uuid),
        uuid_of_code(label_code(uuid)) == uuid,
{
    if uuid == UUID_SECURITY { reveal_strlit("security"); assert(name_code("security"@) == 1098092102087028536); }
    if uuid == UUID_STATUS_BITS { reveal_strlit("status"); assert(name_code("status"@) == 63728347752246); }
    if uuid == UUID_IDENTITY { reveal_strlit("identity"); assert(name_code("identity"@) == 1098092110442604184); }
    if uuid == UUID_VERSIONS { reveal_strlit("versions"); assert(name_code("versions"@) == 1043629953910517608); }
    if uuid == UUID_COMMAND { reveal_strlit("command"); assert(name_code("command"@) == 7097767855357495); }
    if uuid == UUID_EXTENDED_TLV { reveal_strlit("bike_tlv"); assert(name_code("bike_tlv"@) == 1070513519544192552); }
    if uuid == UUID_EXTENDED_CONFIG { reveal_strlit("bike_ext_cfg"); assert(name_code("bike_ext_cfg"@) == 250980164767809040479637036); }
    if uuid == UUID_SPEED { reveal_strlit("speed"); assert(name_code("speed"@) == 432912434997); }
    if uuid == UUID_THROTTLE { reveal_strlit("throttle"); assert(name_code("throttle"@) == 917391222745286472); }
    if uuid == UUID_IMU { reveal_strlit("imu"); assert(name_code("imu"@) == 30895763); }
    if uuid == UUID_MAPS { reveal_strlit("ride_mode"); assert(name_code("ride_mode"@) == 117353663156190400297); }
    if uuid == UUID_TOTALS { reveal_strlit("totals"); assert(name_code("totals"@) == 63689060482886); }
    if uuid == UUID_ESTIMATIONS { reveal_strlit("estimates"); assert(name_code("estimates"@) == 133503916726860095065); }
    if uuid == UUID_RACING { reveal_strlit("racing"); assert(name_code("racing"@) == 57100844601126); }
    if uuid == UUID_LIVE_CONFIG { reveal_strlit("live_cfg"); assert(name_code("live_cfg"@) == 934973972412059336); }
    if uuid == UUID_LIVE_TLV { reveal_strlit("live_tlv"); assert(name_code("live_tlv"@) == 1070513519547076296); }
    if uuid == UUID_LIVE_EXT_CONFIG { reveal_strlit("live_ext_cfg"); assert(name_code("live_ext_cfg"@) == 250980164767809040482520780); }
    if uuid == UUID_DOCKING_DATA_1 { reveal_strlit("dock_1"); assert(name_code("dock_1"@) == 27349673279046); }
    if uuid == UUID_DOCKING_DATA_2 { reveal_strlit("dock_2"); assert(name_code("dock_2"@) == 27899429092934); }
    if uuid == UUID_DOCKING_TLV { reveal_strlit("dock_tlv"); assert(name_code("dock_tlv"@) == 1070513519743434312); }
    if uuid == UUID_DOCKING_CONFIG { reveal_strlit("dock_cfg"); assert(name_code("dock_cfg"@) == 934973972608417352); }
    if uuid == UUID_VCU_VERSIONS { reveal_strlit("vcu_ver"); assert(name_code("vcu_ver"@) == 8078072198143847); }
    if uuid == UUID_VCU_INFO { reveal_strlit("vcu_info"); assert(name_code("vcu_info"@) == 1007037656512012136); }
    if uuid == UUID_VCU_CONFIG { reveal_strlit("vcu_cfg"); assert(name_code("vcu_cfg"@) == 7304484163624807); }
    if uuid == UUID_VCU_TLV { reveal_strlit("vcu_tlv"); assert(name_code("vcu_tlv"@) == 8363386875617127); }
    if uuid == UUID_CHARGER_DATA { reveal_strlit("charger"); assert(name_code("charger"@) == 8078008405935671); }
    if uuid == UUID_CHARGER_TLV { reveal_strlit("chg_tlv"); assert(name_code("chg_tlv"@) == 8363386871957047); }
    if uuid == UUID_CHARGER_CONFIG { reveal_strlit("chg_cfg"); assert(name_code("chg_cfg"@) == 7304484159964727); }
    if uuid == UUID_BATTERY_DATA_1 { reveal_strlit("batt_1"); assert(name_code("batt_1"@) == 27349979696678); }
    if uuid == UUID_BATTERY_DATA_2 { reveal_strlit("batt_2"); assert(name_code("batt_2"@) == 27899735510566); }
    if uuid == UUID_BATTERY_DATA_3 { reveal_strlit("batt_3"); assert(name_code("batt_3"@) == 28449491324454); }
    if uuid == UUID_BATTERY_DATA_4 { reveal_strlit("batt_4"); assert(name_code("batt_4"@) == 28999247138342); }
    if uuid == UUID_BATTERY_DATA_5 { reveal_strlit("batt_5"); assert(name_code("batt_5"@) == 29549002952230); }
    if uuid == UUID_BATTERY_DATA_6 { reveal_strlit("batt_6"); assert(name_code("batt_6"@) == 30098758766118); }
    if uuid == UUID_BATTERY_DATA_7 { reveal_strlit("batt_7"); assert(name_code("batt_7"@) == 30648514580006); }
    if uuid == UUID_BATTERY_DATA_8 { reveal_strlit("batt_8"); assert(name_code("batt_8"@) == 31198270393894); }
    if uuid == UUID_BATTERY_DATA_9 { reveal_strlit("batt_9"); assert(name_code("batt_9"@) == 31748026207782); }
    if uuid == UUID_BATTERY_TLV { reveal_strlit("batt_tlv"); assert(name_code("batt_tlv"@) == 1070513520049851944); }
    if uuid == UUID_BATTERY_CONFIG { reveal_strlit("batt_cfg"); assert(name_code("batt_cfg"@) == 934973972914834984); }
    if uuid == UUID_INVERTER_DATA_1 { reveal_strlit("inv_1"); assert(name_code("inv_1"@) == 213672228501); }
    if uuid == UUID_INVERTER_DATA_2 { reveal_strlit("inv_2"); assert(name_code("inv_2"@) == 217967195797); }
    if uuid == UUID_INVERTER_DATA_3 { reveal_strlit("inv_3"); assert(name_code("inv_3"@) == 222262163093); }
    if uuid == UUID_INVERTER_DATA_4 { reveal_strlit("inv_4"); assert(name_code("inv_4"@) == 226557130389); }
    if uuid == UUID_INVERTER_TLV { reveal_strlit("inv_tlv"); assert(name_code("inv_tlv"@) == 8363386875901591); }
    if uuid == UUID_INVERTER_CONFIG { reveal_strlit("inv_cfg"); assert(name_code("inv_cfg"@) == 7304484163909271); }
    if uuid == UUID_BATTERY_LEVEL { reveal_strlit("battery"); assert(name_code("battery"@) == 8577727922900519); }
}

/// Different known characteristics have different names.
pub proof fn lemma_characteristic_names_distinct(a: u128, b: u128)
    requires
        characteristic_label(a) is Some,
        characteristic_label(a) == characteristic_label(b),
    ensures
        a == b,
{
    lemma_label_code(a);
    lemma_label_code(b);
}

} // verus!
