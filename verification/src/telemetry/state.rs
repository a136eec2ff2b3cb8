//! The aggregated telemetry snapshot and how each notification updates it.

use vstd::prelude::*;

use super::tlv::{
    encodable, entries_view, lemma_tlv_roundtrip, parse_tlv, tlv_decode, tlv_encode, TlvEntry,
    TlvEntryView,
};
use super::{
    BikeIdentity, BikeIdentityView, BikeVersions, BikeVersionsView, Estimations, Imu, Racing,
    Speed, StatusBits, Throttle, Totals, lemma_estimations_wire, lemma_imu_wire,
    lemma_racing_wire, lemma_speed_wire, lemma_status_bits_wire, lemma_throttle_wire,
    lemma_totals_wire, parse_battery_level,
};
use crate::decode::battery::{
    lemma_battery_params_wire, lemma_battery_signals_wire, lemma_battery_soc_wire,
    lemma_battery_status_wire, BatteryCells, BatteryCellsView, BatteryFirmwareVersion, BatteryFirmwareVersionView,
    BatteryParams, BatterySignals, BatterySoc, BatteryStatus, BatteryTemperatures,
    BatteryTemperaturesView,
};
use crate::decode::charger::{lemma_charger_data_wire, ChargerData};
use crate::decode::docking::{lemma_docking_qi_status_wire, DockingQiStatus, DockingVersion, DockingVersionView};
use crate::decode::inverter::{
    lemma_inverter_pcb_wire, lemma_inverter_signals_wire, InverterInfo, InverterInfoView, InverterPcb, InverterSignals, InverterTemperatures,
    TempSensors,
};
use crate::decode::vcu::{lemma_vcu_info_wire, VcuInfo, VcuVersions, VcuVersionsView};
use crate::decode::{le_u16, read_u16, sendable_i16, sendable_u16, sendable_u32, view_opt};
use crate::protocol::{
    characteristic_label,
    UUID_BATTERY_LEVEL, UUID_BATT_CELLS, UUID_BATT_FW_VERSION, UUID_BATT_PARAMS, UUID_BATT_SIGNALS,
    UUID_BATT_SOC, UUID_BATT_STATUS, UUID_BATT_TEMPS, UUID_BATT_TLV, UUID_CHARGER_DATA,
    UUID_CHARGER_TLV, UUID_DOCKING_DATA_1, UUID_DOCKING_DATA_2, UUID_DOCKING_TLV, UUID_ESTIMATIONS,
    UUID_EXTENDED_TLV, UUID_IDENTITY, UUID_IMU, UUID_INV_INFO, UUID_INV_PCB, UUID_INV_SIGNALS,
    UUID_INV_TEMPS, UUID_INV_TLV, UUID_LIVE_TLV, UUID_MAPS, UUID_RACING, UUID_SPEED,
    UUID_STATUS_BITS, UUID_THROTTLE, UUID_TOTALS, UUID_VCU_INFO, UUID_VCU_TLV, UUID_VCU_VERSIONS,
    UUID_VERSIONS,
};

verus! {

/// A single raw telemetry notification from the bike: which characteristic
/// it came from (as the UUID's 128-bit value) and its payload.
#[derive(Debug, Clone)]
pub struct TelemetryFrame {
    pub characteristic: u128,
    pub data: Vec<u8>,
}

/// Decoded telemetry snapshot assembled from multiple characteristics.
#[derive(Debug, Clone)]
pub struct DecodedTelemetry {
    // Service 0x1000
    pub status: Option<StatusBits>,
    pub identity: Option<BikeIdentity>,
    pub versions: Option<BikeVersions>,
    pub tlv_entries: Vec<TlvEntry>,
    pub battery_percent: Option<u8>,
    // Service 0x2000
    pub speed: Option<Speed>,
    pub throttle: Option<Throttle>,
    pub imu: Option<Imu>,
    pub ride_mode: Option<u8>,
    pub totals: Option<Totals>,
    pub estimations: Option<Estimations>,
    pub racing: Option<Racing>,
    // Service 0x3000
    pub docking_version: Option<DockingVersion>,
    pub docking_qi: Option<DockingQiStatus>,
    // Service 0x4000
    pub vcu_versions: Option<VcuVersions>,
    pub vcu_info: Option<VcuInfo>,
    // Service 0x5000
    pub charger: Option<ChargerData>,
    // Service 0x6000
    pub batt_status: Option<BatteryStatus>,
    pub batt_fw_version: Option<BatteryFirmwareVersion>,
    pub batt_params: Option<BatteryParams>,
    pub batt_soc: Option<BatterySoc>,
    pub batt_temps: Option<BatteryTemperatures>,
    pub batt_cells: Option<BatteryCells>,
    pub batt_signals: Option<BatterySignals>,
    // Service 0x7000
    pub inv_info: Option<InverterInfo>,
    pub inv_signals: Option<InverterSignals>,
    pub inv_temps: Option<InverterTemperatures>,
    pub inv_pcb: Option<InverterPcb>,
}

/// The abstract value of a [`DecodedTelemetry`]: every decoded record by its view.
pub ghost struct TelemetryView {
    // Service 0x1000
    pub status: Option<StatusBits>,
    pub identity: Option<BikeIdentityView>,
    pub versions: Option<BikeVersionsView>,
    pub tlv_entries: Seq<TlvEntryView>,
    pub battery_percent: Option<u8>,
    // Service 0x2000
    pub speed: Option<Speed>,
    pub throttle: Option<Throttle>,
    pub imu: Option<Imu>,
    pub ride_mode: Option<u8>,
    pub totals: Option<Totals>,
    pub estimations: Option<Estimations>,
    pub racing: Option<Racing>,
    // Service 0x3000
    pub docking_version: Option<DockingVersionView>,
    pub docking_qi: Option<DockingQiStatus>,
    // Service 0x4000
    pub vcu_versions: Option<VcuVersionsView>,
    pub vcu_info: Option<VcuInfo>,
    // Service 0x5000
    pub charger: Option<ChargerData>,
    // Service 0x6000
    pub batt_status: Option<BatteryStatus>,
    pub batt_fw_version: Option<BatteryFirmwareVersionView>,
    pub batt_params: Option<BatteryParams>,
    pub batt_soc: Option<BatterySoc>,
    pub batt_temps: Option<BatteryTemperaturesView>,
    pub batt_cells: Option<BatteryCellsView>,
    pub batt_signals: Option<BatterySignals>,
    // Service 0x7000
    pub inv_info: Option<InverterInfoView>,
    pub inv_signals: Option<InverterSignals>,
    pub inv_temps: Option<InverterTemperatures>,
    pub inv_pcb: Option<InverterPcb>,
}

impl View for DecodedTelemetry {
    type V = TelemetryView;

    open spec fn view(&self) -> TelemetryView {
        TelemetryView {
            status: self.status,
            identity: view_opt(self.identity),
            versions: view_opt(self.versions),
            tlv_entries: entries_view(self.tlv_entries@),
            battery_percent: self.battery_percent,
            speed: self.speed,
            throttle: self.throttle,
            imu: self.imu,
            ride_mode: self.ride_mode,
            totals: self.totals,
            estimations: self.estimations,
            racing: self.racing,
            docking_version: view_opt(self.docking_version),
            docking_qi: self.docking_qi,
            vcu_versions: view_opt(self.vcu_versions),
            vcu_info: self.vcu_info,
            charger: self.charger,
            batt_status: self.batt_status,
            batt_fw_version: view_opt(self.batt_fw_version),
            batt_params: self.batt_params,
            batt_soc: self.batt_soc,
            batt_temps: view_opt(self.batt_temps),
            batt_cells: view_opt(self.batt_cells),
            batt_signals: self.batt_signals,
            inv_info: view_opt(self.inv_info),
            inv_signals: self.inv_signals,
            inv_temps: self.inv_temps,
            inv_pcb: self.inv_pcb,
        }
    }
}

/// The snapshot before any notification: nothing decoded yet.
pub open spec fn empty_telemetry() -> TelemetryView {
    TelemetryView {
        status: None,
        identity: None,
        versions: None,
        tlv_entries: Seq::empty(),
        battery_percent: None,
        speed: None,
        throttle: None,
        imu: None,
        ride_mode: None,
        totals: None,
        estimations: None,
        racing: None,
        docking_version: None,
        docking_qi: None,
        vcu_versions: None,
        vcu_info: None,
        charger: None,
        batt_status: None,
        batt_fw_version: None,
        batt_params: None,
        batt_soc: None,
        batt_temps: None,
        batt_cells: None,
        batt_signals: None,
        inv_info: None,
        inv_signals: None,
        inv_temps: None,
        inv_pcb: None,
    }
}

impl Default for DecodedTelemetry {
    fn default() -> (r: Self)
        ensures
            r@ == empty_telemetry(),
    {
        let r = DecodedTelemetry {
            status: None,
            identity: None,
            versions: None,
            tlv_entries: Vec::new(),
            battery_percent: None,
            speed: None,
            throttle: None,
            imu: None,
            ride_mode: None,
            totals: None,
            estimations: None,
            racing: None,
            docking_version: None,
            docking_qi: None,
            vcu_versions: None,
            vcu_info: None,
            charger: None,
            batt_status: None,
            batt_fw_version: None,
            batt_params: None,
            batt_soc: None,
            batt_temps: None,
            batt_cells: None,
            batt_signals: None,
            inv_info: None,
            inv_signals: None,
            inv_temps: None,
            inv_pcb: None,
        };
        assert(entries_view(r.tlv_entries@) =~= Seq::empty());
        r
    }
}

/// The first byte of a payload, if any.
pub open spec fn first_byte(data: Seq<u8>) -> Option<u8> {
    if data.len() == 0 { None } else { Some(data[0]) }
}

/// The TLV-multiplexed characteristics, one per service.
#[derive(Debug, Clone, Copy, PartialEq, Eq)]
pub enum TlvStream {
    /// 0x1100 — extended bike data.
    Bike,
    /// 0x2100 — live riding data.
    Live,
    /// 0x3100 — docking.
    Docking,
    /// 0x4100 — VCU.
    Vcu,
    /// 0x5100 — charger.
    Charger,
    /// 0x6100 — battery.
    Battery,
    /// 0x7100 — inverter.
    Inverter,
}

/// Extended bike TLV: type 1 "fast bits" (8 bytes), type 2 lock status
/// (3 bytes), type 3 update available (1 byte). Each refreshes part of an
/// existing status record and is ignored while none has been received.
pub open spec fn apply_bike_entry(s: TelemetryView, e: TlvEntryView) -> TelemetryView {
    match s.status {
        None => s,
        Some(st) => {
            if e.entry_type == 1 && e.data.len() >= 8 {
                TelemetryView {
                    status: Some(
                        StatusBits {
                            misc_bits: le_u16(e.data, 0),
                            indicator_bits: le_u16(e.data, 2),
                            alert_bits: le_u16(e.data, 4),
                            info_bits: le_u16(e.data, 6),
                            ..st
                        },
                    ),
                    ..s
                }
            } else if e.entry_type == 2 && e.data.len() >= 3 {
                TelemetryView {
                    status: Some(
                        StatusBits { lock_status: e.data[0], lock_time: le_u16(e.data, 1), ..st },
                    ),
                    ..s
                }
            } else if e.entry_type == 3 && e.data.len() >= 1 {
                TelemetryView {
                    status: Some(StatusBits { update_available: e.data[0] == 1, ..st }),
                    ..s
                }
            } else {
                s
            }
        },
    }
}

/// Live TLV: types 1–7 carry speed, throttle, IMU, active map, estimations,
/// totals and racing, in the same formats as their dedicated characteristics.
pub open spec fn apply_live_entry(s: TelemetryView, e: TlvEntryView) -> TelemetryView {
    if e.entry_type == 1 {
        TelemetryView { speed: Speed::spec_parse(e.data), ..s }
    } else if e.entry_type == 2 {
        TelemetryView { throttle: Throttle::spec_parse(e.data), ..s }
    } else if e.entry_type == 3 {
        TelemetryView { imu: Imu::spec_parse(e.data), ..s }
    } else if e.entry_type == 4 {
        TelemetryView { ride_mode: first_byte(e.data), ..s }
    } else if e.entry_type == 5 {
        TelemetryView { estimations: Estimations::spec_parse(e.data), ..s }
    } else if e.entry_type == 6 {
        TelemetryView { totals: Totals::spec_parse(e.data), ..s }
    } else if e.entry_type == 7 {
        TelemetryView { racing: Racing::spec_parse(e.data), ..s }
    } else {
        s
    }
}

/// Docking TLV: type 1 version, type 2 QI status.
pub open spec fn apply_docking_entry(s: TelemetryView, e: TlvEntryView) -> TelemetryView {
    if e.entry_type == 1 {
        TelemetryView { docking_version: DockingVersion::spec_parse(e.data), ..s }
    } else if e.entry_type == 2 {
        TelemetryView { docking_qi: DockingQiStatus::spec_parse(e.data), ..s }
    } else {
        s
    }
}

/// VCU TLV: type 1 versions, type 2 info.
pub open spec fn apply_vcu_entry(s: TelemetryView, e: TlvEntryView) -> TelemetryView {
    if e.entry_type == 1 {
        TelemetryView { vcu_versions: VcuVersions::spec_parse(e.data), ..s }
    } else if e.entry_type == 2 {
        TelemetryView { vcu_info: VcuInfo::spec_parse(e.data), ..s }
    } else {
        s
    }
}

/// Charger TLV: type 1 charger data.
pub open spec fn apply_charger_entry(s: TelemetryView, e: TlvEntryView) -> TelemetryView {
    if e.entry_type == 1 {
        TelemetryView { charger: ChargerData::spec_parse(e.data), ..s }
    } else {
        s
    }
}

/// Battery TLV: type 2 signals, 3 cells, 5 temperatures, 6 parameters,
/// 7 firmware versions, 8 state of charge (balancing and info are skipped).
pub open spec fn apply_battery_entry(s: TelemetryView, e: TlvEntryView) -> TelemetryView {
    if e.entry_type == 2 {
        TelemetryView { batt_signals: BatterySignals::spec_parse(e.data), ..s }
    } else if e.entry_type == 3 {
        TelemetryView { batt_cells: BatteryCells::spec_parse(e.data), ..s }
    } else if e.entry_type == 5 {
        TelemetryView { batt_temps: BatteryTemperatures::spec_parse(e.data), ..s }
    } else if e.entry_type == 6 {
        TelemetryView { batt_params: BatteryParams::spec_parse(e.data), ..s }
    } else if e.entry_type == 7 {
        TelemetryView { batt_fw_version: BatteryFirmwareVersion::spec_parse(e.data), ..s }
    } else if e.entry_type == 8 {
        TelemetryView { batt_soc: BatterySoc::spec_parse(e.data), ..s }
    } else {
        s
    }
}

/// The inverter temperatures after one half (IGBT when `igbt`, else motor)
/// is replaced by `sensors`; the other half is kept, or empty if there was
/// no record yet.
pub open spec fn with_temp_half(
    temps: Option<InverterTemperatures>,
    sensors: TempSensors,
    igbt: bool,
) -> Option<InverterTemperatures> {
    let base = match temps {
        Some(t) => t,
        None => InverterTemperatures::spec_default(),
    };
    if igbt {
        Some(InverterTemperatures { igbt: sensors, ..base })
    } else {
        Some(InverterTemperatures { motor: sensors, ..base })
    }
}

/// Inverter TLV: type 1 signals, 2 IGBT temperatures only, 3 motor
/// temperatures only, 4 PCB, 5 info. A temperature half that does not
/// decode leaves the record as it was.
pub open spec fn apply_inverter_entry(s: TelemetryView, e: TlvEntryView) -> TelemetryView {
    if e.entry_type == 1 {
        TelemetryView { inv_signals: InverterSignals::spec_parse(e.data), ..s }
    } else if e.entry_type == 2 || e.entry_type == 3 {
        match TempSensors::spec_parse(e.data) {
            Some(sensors) => TelemetryView {
                inv_temps: with_temp_half(s.inv_temps, sensors, e.entry_type == 2),
                ..s
            },
            None => s,
        }
    } else if e.entry_type == 4 {
        TelemetryView { inv_pcb: InverterPcb::spec_parse(e.data), ..s }
    } else if e.entry_type == 5 {
        TelemetryView { inv_info: InverterInfo::spec_parse(e.data), ..s }
    } else {
        s
    }
}

/// The effect of one TLV entry of `stream` on the snapshot.
pub open spec fn apply_tlv_entry(stream: TlvStream, s: TelemetryView, e: TlvEntryView) -> TelemetryView {
    match stream {
        TlvStream::Bike => apply_bike_entry(s, e),
        TlvStream::Live => apply_live_entry(s, e),
        TlvStream::Docking => apply_docking_entry(s, e),
        TlvStream::Vcu => apply_vcu_entry(s, e),
        TlvStream::Charger => apply_charger_entry(s, e),
        TlvStream::Battery => apply_battery_entry(s, e),
        TlvStream::Inverter => apply_inverter_entry(s, e),
    }
}

/// The effect of a sequence of TLV entries, applied in order.
pub open spec fn apply_tlv_entries(stream: TlvStream, s: TelemetryView, es: Seq<TlvEntryView>) -> TelemetryView
    decreases es.len(),
{
    if es.len() == 0 {
        s
    } else {
        apply_tlv_entry(stream, apply_tlv_entries(stream, s, es.drop_last()), es.last())
    }
}

/// The snapshot after a notification of `data` from characteristic `uuid`:
/// a dedicated characteristic replaces its record with what its decoder
/// makes of `data`; a TLV characteristic applies each decoded entry in
/// order (the extended bike stream also keeps its entries); any other
/// characteristic changes nothing.
pub open spec fn telemetry_after(s: TelemetryView, uuid: u128, data: Seq<u8>) -> TelemetryView {
    if uuid == UUID_STATUS_BITS {
        TelemetryView { status: StatusBits::spec_parse(data), ..s }
    } else if uuid == UUID_IDENTITY {
        TelemetryView { identity: BikeIdentity::spec_parse(data), ..s }
    } else if uuid == UUID_BATTERY_LEVEL {
        TelemetryView { battery_percent: first_byte(data), ..s }
    } else if uuid == UUID_VERSIONS {
        TelemetryView { versions: BikeVersions::spec_parse(data), ..s }
    } else if uuid == UUID_EXTENDED_TLV {
        let es = tlv_decode(data);
        TelemetryView { tlv_entries: es, ..apply_tlv_entries(TlvStream::Bike, s, es) }
    } else if uuid == UUID_SPEED {
        TelemetryView { speed: Speed::spec_parse(data), ..s }
    } else if uuid == UUID_THROTTLE {
        TelemetryView { throttle: Throttle::spec_parse(data), ..s }
    } else if uuid == UUID_IMU {
        TelemetryView { imu: Imu::spec_parse(data), ..s }
    } else if uuid == UUID_MAPS {
        TelemetryView { ride_mode: first_byte(data), ..s }
    } else if uuid == UUID_TOTALS {
        TelemetryView { totals: Totals::spec_parse(data), ..s }
    } else if uuid == UUID_ESTIMATIONS {
        TelemetryView { estimations: Estimations::spec_parse(data), ..s }
    } else if uuid == UUID_RACING {
        TelemetryView { racing: Racing::spec_parse(data), ..s }
    } else if uuid == UUID_LIVE_TLV {
        apply_tlv_entries(TlvStream::Live, s, tlv_decode(data))
    } else if uuid == UUID_DOCKING_DATA_1 {
        TelemetryView { docking_version: DockingVersion::spec_parse(data), ..s }
    } else if uuid == UUID_DOCKING_DATA_2 {
        TelemetryView { docking_qi: DockingQiStatus::spec_parse(data), ..s }
    } else if uuid == UUID_DOCKING_TLV {
        apply_tlv_entries(TlvStream::Docking, s, tlv_decode(data))
    } else if uuid == UUID_VCU_VERSIONS {
        TelemetryView { vcu_versions: VcuVersions::spec_parse(data), ..s }
    } else if uuid == UUID_VCU_INFO {
        TelemetryView { vcu_info: VcuInfo::spec_parse(data), ..s }
    } else if uuid == UUID_VCU_TLV {
        apply_tlv_entries(TlvStream::Vcu, s, tlv_decode(data))
    } else if uuid == UUID_CHARGER_DATA {
        TelemetryView { charger: ChargerData::spec_parse(data), ..s }
    } else if uuid == UUID_CHARGER_TLV {
        apply_tlv_entries(TlvStream::Charger, s, tlv_decode(data))
    } else if uuid == UUID_BATT_STATUS {
        TelemetryView { batt_status: BatteryStatus::spec_parse(data), ..s }
    } else if uuid == UUID_BATT_FW_VERSION {
        TelemetryView { batt_fw_version: BatteryFirmwareVersion::spec_parse(data), ..s }
    } else if uuid == UUID_BATT_PARAMS {
        TelemetryView { batt_params: BatteryParams::spec_parse(data), ..s }
    } else if uuid == UUID_BATT_SOC {
        TelemetryView { batt_soc: BatterySoc::spec_parse(data), ..s }
    } else if uuid == UUID_BATT_TEMPS {
        TelemetryView { batt_temps: BatteryTemperatures::spec_parse(data), ..s }
    } else if uuid == UUID_BATT_CELLS {
        TelemetryView { batt_cells: BatteryCells::spec_parse(data), ..s }
    } else if uuid == UUID_BATT_SIGNALS {
        TelemetryView { batt_signals: BatterySignals::spec_parse(data), ..s }
    } else if uuid == UUID_BATT_TLV {
        apply_tlv_entries(TlvStream::Battery, s, tlv_decode(data))
    } else if uuid == UUID_INV_INFO {
        TelemetryView { inv_info: InverterInfo::spec_parse(data), ..s }
    } else if uuid == UUID_INV_SIGNALS {
        TelemetryView { inv_signals: InverterSignals::spec_parse(data), ..s }
    } else if uuid == UUID_INV_TEMPS {
        TelemetryView { inv_temps: InverterTemperatures::spec_parse(data), ..s }
    } else if uuid == UUID_INV_PCB {
        TelemetryView { inv_pcb: InverterPcb::spec_parse(data), ..s }
    } else if uuid == UUID_INV_TLV {
        apply_tlv_entries(TlvStream::Inverter, s, tlv_decode(data))
    } else {
        s
    }
}

impl DecodedTelemetry {
    /// Update this snapshot with a new raw frame.
    pub fn update(&mut self, frame: &TelemetryFrame)
        ensures
            final(self)@ == telemetry_after(old(self)@, frame.characteristic, frame.data@),
    {
        let uuid = frame.characteristic;
        let data = frame.data.as_slice();
        if uuid == UUID_STATUS_BITS {
            self.status = StatusBits::parse(data);
        } else if uuid == UUID_IDENTITY {
            self.identity = BikeIdentity::parse(data);
        } else if uuid == UUID_BATTERY_LEVEL {
            self.battery_percent = parse_battery_level(data);
        } else if uuid == UUID_VERSIONS {
            self.versions = BikeVersions::parse(data);
        } else if uuid == UUID_EXTENDED_TLV {
            let entries = parse_tlv(data);
            self.apply_entries(TlvStream::Bike, &entries);
            self.tlv_entries = entries;
        } else if uuid == UUID_SPEED {
            self.speed = Speed::parse(data);
        } else if uuid == UUID_THROTTLE {
            self.throttle = Throttle::parse(data);
        } else if uuid == UUID_IMU {
            self.imu = Imu::parse(data);
        } else if uuid == UUID_MAPS {
            self.ride_mode = parse_battery_level(data);
        } else if uuid == UUID_TOTALS {
            self.totals = Totals::parse(data);
        } else if uuid == UUID_ESTIMATIONS {
            self.estimations = Estimations::parse(data);
        } else if uuid == UUID_RACING {
            self.racing = Racing::parse(data);
        } else if uuid == UUID_LIVE_TLV {
            let entries = parse_tlv(data);
            self.apply_entries(TlvStream::Live, &entries);
        } else if uuid == UUID_DOCKING_DATA_1 {
            self.docking_version = DockingVersion::parse(data);
        } else if uuid == UUID_DOCKING_DATA_2 {
            self.docking_qi = DockingQiStatus::parse(data);
        } else if uuid == UUID_DOCKING_TLV {
            let entries = parse_tlv(data);
            self.apply_entries(TlvStream::Docking, &entries);
        } else if uuid == UUID_VCU_VERSIONS {
            self.vcu_versions = VcuVersions::parse(data);
        } else if uuid == UUID_VCU_INFO {
            self.vcu_info = VcuInfo::parse(data);
        } else if uuid == UUID_VCU_TLV {
            let entries = parse_tlv(data);
            self.apply_entries(TlvStream::Vcu, &entries);
        } else if uuid == UUID_CHARGER_DATA {
            self.charger = ChargerData::parse(data);
        } else if uuid == UUID_CHARGER_TLV {
            let entries = parse_tlv(data);
            self.apply_entries(TlvStream::Charger, &entries);
        } else if uuid == UUID_BATT_STATUS {
            self.batt_status = BatteryStatus::parse(data);
        } else if uuid == UUID_BATT_FW_VERSION {
            self.batt_fw_version = BatteryFirmwareVersion::parse(data);
        } else if uuid == UUID_BATT_PARAMS {
            self.batt_params = BatteryParams::parse(data);
        } else if uuid == UUID_BATT_SOC {
            self.batt_soc = BatterySoc::parse(data);
        } else if uuid == UUID_BATT_TEMPS {
            self.batt_temps = BatteryTemperatures::parse(data);
        } else if uuid == UUID_BATT_CELLS {
            self.batt_cells = BatteryCells::parse(data);
        } else if uuid == UUID_BATT_SIGNALS {
            self.batt_signals = BatterySignals::parse(data);
        } else if uuid == UUID_BATT_TLV {
            let entries = parse_tlv(data);
            self.apply_entries(TlvStream::Battery, &entries);
        } else if uuid == UUID_INV_INFO {
            self.inv_info = InverterInfo::parse(data);
        } else if uuid == UUID_INV_SIGNALS {
            self.inv_signals = InverterSignals::parse(data);
        } else if uuid == UUID_INV_TEMPS {
            self.inv_temps = InverterTemperatures::parse(data);
        } else if uuid == UUID_INV_PCB {
            self.inv_pcb = InverterPcb::parse(data);
        } else if uuid == UUID_INV_TLV {
            let entries = parse_tlv(data);
            self.apply_entries(TlvStream::Inverter, &entries);
        }
    }

    /// Apply every entry of a decoded TLV stream, in order.
    fn apply_entries(&mut self, stream: TlvStream, entries: &Vec<TlvEntry>)
        ensures
            final(self)@ == apply_tlv_entries(stream, old(self)@, entries_view(entries@)),
    {
        let ghost start = self@;
        let mut i: usize = 0;
        assert(entries_view(entries@).subrange(0, 0) =~= Seq::<TlvEntryView>::empty());
        while i < entries.len()
            invariant
                i <= entries@.len(),
                self@ == apply_tlv_entries(stream, start, entries_view(entries@).subrange(0, i as int)),
            decreases entries@.len() - i,
        {
            let ghost prev = self@;
            self.decode_tlv_entry(stream, &entries[i]);
            proof {
                let es = entries_view(entries@);
                assert(es.subrange(0, i + 1).drop_last() =~= es.subrange(0, i as int));
                assert(es.subrange(0, i + 1).last() == entries@[i as int]@);
            }
            i = i + 1;
        }
        assert(entries_view(entries@).subrange(0, i as int) =~= entries_view(entries@));
    }

    /// Apply one TLV entry of `stream`.
    fn decode_tlv_entry(&mut self, stream: TlvStream, entry: &TlvEntry)
        ensures
            final(self)@ == apply_tlv_entry(stream, old(self)@, entry@),
    {
        match stream {
            TlvStream::Bike => self.decode_bike_tlv(entry),
            TlvStream::Live => self.decode_live_tlv(entry),
            TlvStream::Docking => self.decode_docking_tlv(entry),
            TlvStream::Vcu => self.decode_vcu_tlv(entry),
            TlvStream::Charger => self.decode_charger_tlv(entry),
            TlvStream::Battery => self.decode_battery_tlv(entry),
            TlvStream::Inverter => self.decode_inverter_tlv(entry),
        }
    }

    fn decode_bike_tlv(&mut self, entry: &TlvEntry)
        ensures
            final(self)@ == apply_bike_entry(old(self)@, entry@),
    {
        let data = entry.data.as_slice();
        if let Some(s) = self.status {
            let mut st = s;
            if entry.entry_type == 1 && data.len() >= 8 {
                // Type 1: Fast Bits — compact status update (8 bytes)
                st.misc_bits = read_u16(data, 0);
                st.indicator_bits = read_u16(data, 2);
                st.alert_bits = read_u16(data, 4);
                st.info_bits = read_u16(data, 6);
                self.status = Some(st);
            } else if entry.entry_type == 2 && data.len() >= 3 {
                // Type 2: Lock Status (3 bytes)
                st.lock_status = data[0];
                st.lock_time = read_u16(data, 1);
                self.status = Some(st);
            } else if entry.entry_type == 3 && data.len() >= 1 {
                // Type 3: Update Available (1 byte)
                st.update_available = data[0] == 1;
                self.status = Some(st);
            }
        }
    }

    fn decode_live_tlv(&mut self, entry: &TlvEntry)
        ensures
            final(self)@ == apply_live_entry(old(self)@, entry@),
    {
        let data = entry.data.as_slice();
        match entry.entry_type {
            1 => self.speed = Speed::parse(data),
            2 => self.throttle = Throttle::parse(data),
            3 => self.imu = Imu::parse(data),
            4 => self.ride_mode = parse_battery_level(data),
            5 => self.estimations = Estimations::parse(data),
            6 => self.totals = Totals::parse(data),
            7 => self.racing = Racing::parse(data),
            _ => {},
        }
    }

    fn decode_docking_tlv(&mut self, entry: &TlvEntry)
        ensures
            final(self)@ == apply_docking_entry(old(self)@, entry@),
    {
        let data = entry.data.as_slice();
        match entry.entry_type {
            1 => self.docking_version = DockingVersion::parse(data),
            2 => self.docking_qi = DockingQiStatus::parse(data),
            _ => {},
        }
    }

    fn decode_vcu_tlv(&mut self, entry: &TlvEntry)
        ensures
            final(self)@ == apply_vcu_entry(old(self)@, entry@),
    {
        let data = entry.data.as_slice();
        match entry.entry_type {
            1 => self.vcu_versions = VcuVersions::parse(data),
            2 => self.vcu_info = VcuInfo::parse(data),
            _ => {},
        }
    }

    fn decode_charger_tlv(&mut self, entry: &TlvEntry)
        ensures
            final(self)@ == apply_charger_entry(old(self)@, entry@),
    {
        if entry.entry_type == 1 {
            self.charger = ChargerData::parse(entry.data.as_slice());
        }
    }

    fn decode_battery_tlv(&mut self, entry: &TlvEntry)
        ensures
            final(self)@ == apply_battery_entry(old(self)@, entry@),
    {
        let data = entry.data.as_slice();
        match entry.entry_type {
            2 => self.batt_signals = BatterySignals::parse(data),
            3 => self.batt_cells = BatteryCells::parse(data),
            // 4 => balancing (raw bytes, skipped)
            5 => self.batt_temps = BatteryTemperatures::parse(data),
            6 => self.batt_params = BatteryParams::parse(data),
            7 => self.batt_fw_version = BatteryFirmwareVersion::parse(data),
            8 => self.batt_soc = BatterySoc::parse(data),
            // 9 => BatteryInfo (not yet decoded)
            _ => {},
        }
    }

    fn decode_inverter_tlv(&mut self, entry: &TlvEntry)
        ensures
            final(self)@ == apply_inverter_entry(old(self)@, entry@),
    {
        let data = entry.data.as_slice();
        match entry.entry_type {
            1 => self.inv_signals = InverterSignals::parse(data),
            2 => {
                // IGBT temperatures only — update igbt half
                if let Some(sensors) = TempSensors::parse(data) {
                    let mut t = match self.inv_temps {
                        Some(t) => t,
                        None => InverterTemperatures::default(),
                    };
                    t.igbt = sensors;
                    self.inv_temps = Some(t);
                }
            },
            3 => {
                // Motor temperatures only — update motor half
                if let Some(sensors) = TempSensors::parse(data) {
                    let mut t = match self.inv_temps {
                        Some(t) => t,
                        None => InverterTemperatures::default(),
                    };
                    t.motor = sensors;
                    self.inv_temps = Some(t);
                }
            },
            4 => self.inv_pcb = InverterPcb::parse(data),
            5 => self.inv_info = InverterInfo::parse(data),
            _ => {},
        }
    }
}

/// The dedicated characteristic that carries the same record as entry type
/// `entry_type` of the TLV characteristic `tlv_uuid`, where the protocol's
/// data-redundancy table names one.
pub open spec fn dedicated_twin(tlv_uuid: u128, entry_type: u8) -> Option<u128> {
    if tlv_uuid == UUID_LIVE_TLV {
        if entry_type == 1 { Some(UUID_SPEED) }
        else if entry_type == 2 { Some(UUID_THROTTLE) }
        else if entry_type == 3 { Some(UUID_IMU) }
        else if entry_type == 4 { Some(UUID_MAPS) }
        else if entry_type == 5 { Some(UUID_ESTIMATIONS) }
        else if entry_type == 6 { Some(UUID_TOTALS) }
        else if entry_type == 7 { Some(UUID_RACING) }
        else { None }
    } else if tlv_uuid == UUID_DOCKING_TLV {
        if entry_type == 1 { Some(UUID_DOCKING_DATA_1) }
        else if entry_type == 2 { Some(UUID_DOCKING_DATA_2) }
        else { None }
    } else if tlv_uuid == UUID_VCU_TLV {
        if entry_type == 1 { Some(UUID_VCU_VERSIONS) }
        else if entry_type == 2 { Some(UUID_VCU_INFO) }
        else { None }
    } else if tlv_uuid == UUID_CHARGER_TLV {
        if entry_type == 1 { Some(UUID_CHARGER_DATA) } else { None }
    } else if tlv_uuid == UUID_BATT_TLV {
        if entry_type == 2 { Some(UUID_BATT_SIGNALS) }
        else if entry_type == 3 { Some(UUID_BATT_CELLS) }
        else if entry_type == 5 { Some(UUID_BATT_TEMPS) }
        else if entry_type == 6 { Some(UUID_BATT_PARAMS) }
        else if entry_type == 7 { Some(UUID_BATT_FW_VERSION) }
        else if entry_type == 8 { Some(UUID_BATT_SOC) }
        else { None }
    } else if tlv_uuid == UUID_INV_TLV {
        if entry_type == 1 { Some(UUID_INV_SIGNALS) }
        else if entry_type == 4 { Some(UUID_INV_PCB) }
        else if entry_type == 5 { Some(UUID_INV_INFO) }
        else { None }
    } else {
        None
    }
}

proof fn lemma_single_entry(stream: TlvStream, s: TelemetryView, e: TlvEntryView)
    requires
        e.data.len() <= 255,
    ensures
        tlv_decode(tlv_encode(seq![e])) == seq![e],
        apply_tlv_entries(stream, s, seq![e]) == apply_tlv_entry(stream, s, e),
{
    assert(encodable(seq![e])) by {
        assert forall|i: int| 0 <= i < seq![e].len() implies #[trigger] seq![e][i].data.len()
            <= 255 by {
            assert(seq![e][i] == e);
        }
    }
    lemma_tlv_roundtrip(seq![e]);
    assert(seq![e].drop_last() =~= Seq::<TlvEntryView>::empty());
    assert(apply_tlv_entries(stream, s, Seq::<TlvEntryView>::empty()) == s);
    assert(seq![e].last() == e);
}

/// Data redundancy: a record delivered as a single entry of a TLV stream has
/// the same effect on the snapshot as the same bytes delivered on the
/// record's dedicated characteristic.
pub proof fn lemma_tlv_entry_matches_dedicated(
    s: TelemetryView,
    tlv_uuid: u128,
    entry_type: u8,
    data: Seq<u8>,
)
    requires
        dedicated_twin(tlv_uuid, entry_type) is Some,
        data.len() <= 255,
    ensures
        telemetry_after(s, dedicated_twin(tlv_uuid, entry_type)->0, data) == telemetry_after(
            s,
            tlv_uuid,
            tlv_encode(seq![TlvEntryView { entry_type, data }]),
        ),
{
    let e = TlvEntryView { entry_type, data };
    lemma_single_entry(TlvStream::Live, s, e);
    lemma_single_entry(TlvStream::Docking, s, e);
    lemma_single_entry(TlvStream::Vcu, s, e);
    lemma_single_entry(TlvStream::Charger, s, e);
    lemma_single_entry(TlvStream::Battery, s, e);
    lemma_single_entry(TlvStream::Inverter, s, e);
}

/// Data redundancy for inverter temperatures: the dedicated characteristic
/// sends motor and IGBT sensors together, the TLV stream sends them as two
/// entries (motor, type 3, then IGBT, type 2); both give the same snapshot.
pub proof fn lemma_inverter_temperature_halves(s: TelemetryView, motor: Seq<u8>, igbt: Seq<u8>)
    requires
        motor.len() == 8,
        igbt.len() == 8,
    ensures
        telemetry_after(s, UUID_INV_TEMPS, motor + igbt) == telemetry_after(
            s,
            UUID_INV_TLV,
            tlv_encode(
                seq![
                    TlvEntryView { entry_type: 3, data: motor },
                    TlvEntryView { entry_type: 2, data: igbt },
                ],
            ),
        ),
{
    let e1 = TlvEntryView { entry_type: 3, data: motor };
    let e2 = TlvEntryView { entry_type: 2, data: igbt };
    let es = seq![e1, e2];
    assert(encodable(es)) by {
        assert forall|i: int| 0 <= i < es.len() implies #[trigger] es[i].data.len() <= 255 by {}
    }
    lemma_tlv_roundtrip(es);
    assert(es.drop_last() =~= seq![e1]);
    assert(seq![e1].drop_last() =~= Seq::<TlvEntryView>::empty());
    let t = TlvStream::Inverter;
    assert(apply_tlv_entries(t, s, Seq::<TlvEntryView>::empty()) == s);
    let s1 = apply_tlv_entry(t, s, e1);
    assert(apply_tlv_entries(t, s, seq![e1]) == s1);
    assert(es.last() == e2);
    assert(apply_tlv_entries(t, s, es) == apply_tlv_entry(t, s1, e2));
    let both = motor + igbt;
    assert(both.subrange(0, 8) =~= motor);
    assert(both.subrange(8, 16) =~= igbt);
}

/// A notification from a characteristic the protocol does not name leaves
/// the snapshot unchanged.
pub proof fn lemma_unknown_characteristic_ignored(s: TelemetryView, uuid: u128, data: Seq<u8>)
    requires
        characteristic_label(uuid) is None,
    ensures
        telemetry_after(s, uuid, data) == s,
{
}

/// Two snapshots that entry `e` brings to the same state are still brought
/// to the same state by `e` when another entry `f` of the stream comes first.
proof fn lemma_entry_absorbs(
    stream: TlvStream,
    a: TelemetryView,
    b: TelemetryView,
    e: TlvEntryView,
    f: TlvEntryView,
)
    requires
        apply_tlv_entry(stream, a, e) == apply_tlv_entry(stream, b, e),
    ensures
        apply_tlv_entry(stream, apply_tlv_entry(stream, a, f), e) == apply_tlv_entry(
            stream,
            apply_tlv_entry(stream, b, f),
            e,
        ),
{
}

/// Applying entry `e` before a run of entries `v` changes nothing once `e`
/// is applied again after them.
proof fn lemma_entry_reapplied(stream: TlvStream, s: TelemetryView, e: TlvEntryView, v: Seq<TlvEntryView>)
    ensures
        apply_tlv_entry(stream, apply_tlv_entries(stream, apply_tlv_entry(stream, s, e), v), e)
            == apply_tlv_entry(stream, apply_tlv_entries(stream, s, v), e),
    decreases v.len(),
{
    if v.len() > 0 {
        lemma_entry_reapplied(stream, s, e, v.drop_last());
        lemma_entry_absorbs(
            stream,
            apply_tlv_entries(stream, apply_tlv_entry(stream, s, e), v.drop_last()),
            apply_tlv_entries(stream, s, v.drop_last()),
            e,
            v.last(),
        );
    }
}

/// A run of TLV entries applied twice has the effect of applying it once.
proof fn lemma_entries_idempotent(stream: TlvStream, s: TelemetryView, w: Seq<TlvEntryView>)
    ensures
        apply_tlv_entries(stream, apply_tlv_entries(stream, s, w), w) == apply_tlv_entries(
            stream,
            s,
            w,
        ),
    decreases w.len(),
{
    if w.len() > 0 {
        let w1 = w.drop_last();
        let e = w.last();
        lemma_entries_idempotent(stream, s, w1);
        let base = apply_tlv_entries(stream, s, w1);
        lemma_entry_reapplied(stream, base, e, w1);
    }
}

/// No TLV stream touches the kept list of extended bike entries.
proof fn lemma_entries_keep_list(
    stream: TlvStream,
    s: TelemetryView,
    x: Seq<TlvEntryView>,
    w: Seq<TlvEntryView>,
)
    ensures
        apply_tlv_entries(stream, TelemetryView { tlv_entries: x, ..s }, w) == (TelemetryView {
            tlv_entries: x,
            ..apply_tlv_entries(stream, s, w)
        }),
    decreases w.len(),
{
    if w.len() > 0 {
        lemma_entries_keep_list(stream, s, x, w.drop_last());
    }
}

/// A repeated notification changes nothing: updating the snapshot twice with
/// the same frame leaves it as updating it once.
pub proof fn lemma_update_idempotent(s: TelemetryView, uuid: u128, data: Seq<u8>)
    ensures
        telemetry_after(telemetry_after(s, uuid, data), uuid, data) == telemetry_after(
            s,
            uuid,
            data,
        ),
{
    let es = tlv_decode(data);
    if uuid == UUID_EXTENDED_TLV {
        let once = apply_tlv_entries(TlvStream::Bike, s, es);
        lemma_entries_keep_list(TlvStream::Bike, once, es, es);
        lemma_entries_idempotent(TlvStream::Bike, s, es);
    } else if uuid == UUID_LIVE_TLV {
        lemma_entries_idempotent(TlvStream::Live, s, es);
    } else if uuid == UUID_DOCKING_TLV {
        lemma_entries_idempotent(TlvStream::Docking, s, es);
    } else if uuid == UUID_VCU_TLV {
        lemma_entries_idempotent(TlvStream::Vcu, s, es);
    } else if uuid == UUID_CHARGER_TLV {
        lemma_entries_idempotent(TlvStream::Charger, s, es);
    } else if uuid == UUID_BATT_TLV {
        lemma_entries_idempotent(TlvStream::Battery, s, es);
    } else if uuid == UUID_INV_TLV {
        lemma_entries_idempotent(TlvStream::Inverter, s, es);
    }
}

/// The extended bike TLV entries that carry the parts of an 18-byte status
/// record `d` which the stream repeats: fast bits (misc, indicator, alert
/// and info words), lock status and time, and the update flag.
pub open spec fn status_as_bike_entries(d: Seq<u8>) -> Seq<TlvEntryView> {
    seq![
        TlvEntryView { entry_type: 1, data: d.subrange(0, 6) + d.subrange(8, 10) },
        TlvEntryView { entry_type: 2, data: d.subrange(10, 13) },
        TlvEntryView { entry_type: 3, data: d.subrange(13, 14) },
    ]
}

/// Data redundancy for the status record: once a status record is known,
/// the extended bike TLV entries carrying the bits, lock and update flag of
/// a status record `d` give the same record as `d` on the Status Bits
/// characteristic, except for the fault bits and battery status, which only
/// the dedicated characteristic carries and which are kept.
pub proof fn lemma_status_tlv_matches_dedicated(s: TelemetryView, d: Seq<u8>)
    requires
        s.status is Some,
        d.len() == 18,
    ensures
        telemetry_after(s, UUID_EXTENDED_TLV, tlv_encode(status_as_bike_entries(d))).status
            == Some(
            StatusBits {
                fault_bits: s.status->0.fault_bits,
                battery_status: s.status->0.battery_status,
                ..telemetry_after(s, UUID_STATUS_BITS, d).status->0
            },
        ),
{
    let es = status_as_bike_entries(d);
    assert(tlv_decode(tlv_encode(es)) == es) by {
        assert(encodable(es)) by {
            assert forall|i: int| 0 <= i < es.len() implies #[trigger] es[i].data.len() <= 255 by {}
        }
        lemma_tlv_roundtrip(es);
    }
    lemma_three_entries(TlvStream::Bike, s, es);
    let st = s.status->0;
    let f = es[0].data;
    let l = es[1].data;
    let u = es[2].data;
    assert(f[0] == d[0] && f[1] == d[1] && f[2] == d[2] && f[3] == d[3]);
    assert(f[4] == d[4] && f[5] == d[5] && f[6] == d[8] && f[7] == d[9]);
    assert(l[0] == d[10] && l[1] == d[11] && l[2] == d[12]);
    assert(u[0] == d[13]);
    let s3 = apply_tlv_entries(TlvStream::Bike, s, es);
    assert(s3.status == Some(
        StatusBits {
            misc_bits: le_u16(f, 0),
            indicator_bits: le_u16(f, 2),
            alert_bits: le_u16(f, 4),
            info_bits: le_u16(f, 6),
            lock_status: l[0],
            lock_time: le_u16(l, 1),
            update_available: u[0] == 1,
            ..st
        },
    ));
}

/// Three TLV entries applied in order.
proof fn lemma_three_entries(t: TlvStream, s: TelemetryView, es: Seq<TlvEntryView>)
    requires
        es.len() == 3,
    ensures
        apply_tlv_entries(t, s, es) == apply_tlv_entry(
            t,
            apply_tlv_entry(t, apply_tlv_entry(t, s, es[0]), es[1]),
            es[2],
        ),
{
    let one = seq![es[0]];
    let two = seq![es[0], es[1]];
    assert(es.drop_last() =~= two);
    assert(two.drop_last() =~= one);
    assert(one.drop_last() =~= Seq::<TlvEntryView>::empty());
    assert(apply_tlv_entries(t, s, Seq::<TlvEntryView>::empty()) == s);
    let s1 = apply_tlv_entry(t, s, es[0]);
    assert(apply_tlv_entries(t, s, one) == s1);
    let s2 = apply_tlv_entry(t, s1, es[1]);
    assert(apply_tlv_entries(t, s, two) == s2);
}

/// Every characteristic that carries one record replaces that record, and
/// only that record, with what the record's decoder makes of the payload:
/// no such notification is ignored, and none touches another record.
pub proof fn lemma_dedicated_frame_sets_record(s: TelemetryView, data: Seq<u8>)
    ensures
        telemetry_after(s, UUID_STATUS_BITS, data) == (TelemetryView { status: StatusBits::spec_parse(data), ..s }),
        telemetry_after(s, UUID_IDENTITY, data) == (TelemetryView { identity: BikeIdentity::spec_parse(data), ..s }),
        telemetry_after(s, UUID_BATTERY_LEVEL, data) == (TelemetryView { battery_percent: first_byte(data), ..s }),
        telemetry_after(s, UUID_VERSIONS, data) == (TelemetryView { versions: BikeVersions::spec_parse(data), ..s }),
        telemetry_after(s, UUID_SPEED, data) == (TelemetryView { speed: Speed::spec_parse(data), ..s }),
        telemetry_after(s, UUID_THROTTLE, data) == (TelemetryView { throttle: Throttle::spec_parse(data), ..s }),
        telemetry_after(s, UUID_IMU, data) == (TelemetryView { imu: Imu::spec_parse(data), ..s }),
        telemetry_after(s, UUID_MAPS, data) == (TelemetryView { ride_mode: first_byte(data), ..s }),
        telemetry_after(s, UUID_TOTALS, data) == (TelemetryView { totals: Totals::spec_parse(data), ..s }),
        telemetry_after(s, UUID_ESTIMATIONS, data) == (TelemetryView { estimations: Estimations::spec_parse(data), ..s }),
        telemetry_after(s, UUID_RACING, data) == (TelemetryView { racing: Racing::spec_parse(data), ..s }),
        telemetry_after(s, UUID_DOCKING_DATA_1, data) == (TelemetryView { docking_version: DockingVersion::spec_parse(data), ..s }),
        telemetry_after(s, UUID_DOCKING_DATA_2, data) == (TelemetryView { docking_qi: DockingQiStatus::spec_parse(data), ..s }),
        telemetry_after(s, UUID_VCU_VERSIONS, data) == (TelemetryView { vcu_versions: VcuVersions::spec_parse(data), ..s }),
        telemetry_after(s, UUID_VCU_INFO, data) == (TelemetryView { vcu_info: VcuInfo::spec_parse(data), ..s }),
        telemetry_after(s, UUID_CHARGER_DATA, data) == (TelemetryView { charger: ChargerData::spec_parse(data), ..s }),
        telemetry_after(s, UUID_BATT_STATUS, data) == (TelemetryView { batt_status: BatteryStatus::spec_parse(data), ..s }),
        telemetry_after(s, UUID_BATT_FW_VERSION, data) == (TelemetryView { batt_fw_version: BatteryFirmwareVersion::spec_parse(data), ..s }),
        telemetry_after(s, UUID_BATT_PARAMS, data) == (TelemetryView { batt_params: BatteryParams::spec_parse(data), ..s }),
        telemetry_after(s, UUID_BATT_SOC, data) == (TelemetryView { batt_soc: BatterySoc::spec_parse(data), ..s }),
        telemetry_after(s, UUID_BATT_TEMPS, data) == (TelemetryView { batt_temps: BatteryTemperatures::spec_parse(data), ..s }),
        telemetry_after(s, UUID_BATT_CELLS, data) == (TelemetryView { batt_cells: BatteryCells::spec_parse(data), ..s }),
        telemetry_after(s, UUID_BATT_SIGNALS, data) == (TelemetryView { batt_signals: BatterySignals::spec_parse(data), ..s }),
        telemetry_after(s, UUID_INV_INFO, data) == (TelemetryView { inv_info: InverterInfo::spec_parse(data), ..s }),
        telemetry_after(s, UUID_INV_SIGNALS, data) == (TelemetryView { inv_signals: InverterSignals::spec_parse(data), ..s }),
        telemetry_after(s, UUID_INV_TEMPS, data) == (TelemetryView { inv_temps: InverterTemperatures::spec_parse(data), ..s }),
        telemetry_after(s, UUID_INV_PCB, data) == (TelemetryView { inv_pcb: InverterPcb::spec_parse(data), ..s }),
{
}

/// A `StatusBits` record sent on its characteristic becomes the snapshot's
/// record as it was sent.
pub proof fn lemma_status_frame_delivers(s: TelemetryView, r: StatusBits)
    ensures
        telemetry_after(s, UUID_STATUS_BITS, r.wire_bytes()).status == Some(r),
{
    lemma_status_bits_wire(r);
}

/// A `Speed` record sent on its characteristic becomes the snapshot's
/// record as it was sent.
pub proof fn lemma_speed_frame_delivers(s: TelemetryView, r: Speed)
    requires
        sendable_u16(r.speed_raw),
        sendable_u16(r.motor_rpm),
    ensures
        telemetry_after(s, UUID_SPEED, r.wire_bytes()).speed == Some(r),
{
    lemma_speed_wire(r);
}

/// A `Throttle` record sent on its characteristic becomes the snapshot's
/// record as it was sent.
pub proof fn lemma_throttle_frame_delivers(s: TelemetryView, r: Throttle)
    requires
        sendable_u16(r.position),
        sendable_i16(r.iq_fb),
        sendable_i16(r.id_fb),
    ensures
        telemetry_after(s, UUID_THROTTLE, r.wire_bytes()).throttle == Some(r),
{
    lemma_throttle_wire(r);
}

/// A `Imu` record sent on its characteristic becomes the snapshot's
/// record as it was sent.
pub proof fn lemma_imu_frame_delivers(s: TelemetryView, r: Imu)
    requires
        sendable_i16(r.accel_x),
        sendable_i16(r.accel_y),
        sendable_i16(r.accel_z),
        sendable_i16(r.gyro_x),
        sendable_i16(r.gyro_y),
        sendable_i16(r.gyro_z),
    ensures
        telemetry_after(s, UUID_IMU, r.wire_bytes()).imu == Some(r),
{
    lemma_imu_wire(r);
}

/// A `Totals` record sent on its characteristic becomes the snapshot's
/// record as it was sent.
pub proof fn lemma_totals_frame_delivers(s: TelemetryView, r: Totals)
    requires
        sendable_u32(r.odometer),
        sendable_u32(r.watt_hours),
        sendable_u32(r.airtime_secs),
        sendable_u32(r.total_time_secs),
    ensures
        telemetry_after(s, UUID_TOTALS, r.wire_bytes()).totals == Some(r),
{
    lemma_totals_wire(r);
}

/// A `Estimations` record sent on its characteristic becomes the snapshot's
/// record as it was sent.
pub proof fn lemma_estimations_frame_delivers(s: TelemetryView, r: Estimations)
    requires
        sendable_u16(r.range_km),
        sendable_u16(r.time_min),
        sendable_i16(r.motor_power_w),
    ensures
        telemetry_after(s, UUID_ESTIMATIONS, r.wire_bytes()).estimations == Some(r),
{
    lemma_estimations_wire(r);
}

/// A `Racing` record sent on its characteristic becomes the snapshot's
/// record as it was sent.
pub proof fn lemma_racing_frame_delivers(s: TelemetryView, r: Racing)
    ensures
        telemetry_after(s, UUID_RACING, r.wire_bytes()).racing == Some(r),
{
    lemma_racing_wire(r);
}

/// A `DockingQiStatus` record sent on its characteristic becomes the snapshot's
/// record as it was sent.
pub proof fn lemma_docking_qi_frame_delivers(s: TelemetryView, r: DockingQiStatus)
    ensures
        telemetry_after(s, UUID_DOCKING_DATA_2, r.wire_bytes()).docking_qi == Some(r),
{
    lemma_docking_qi_status_wire(r);
}

/// A `VcuInfo` record sent on its characteristic becomes the snapshot's
/// record as it was sent.
pub proof fn lemma_vcu_info_frame_delivers(s: TelemetryView, r: VcuInfo)
    requires
        sendable_u16(r.fan_current),
        sendable_u16(r.pump_current),
        sendable_u16(r.pump_ok_counter),
        sendable_u16(r.humidity_raw),
        sendable_u16(r.temperature_raw),
    ensures
        telemetry_after(s, UUID_VCU_INFO, r.wire_bytes()).vcu_info == Some(r),
{
    lemma_vcu_info_wire(r);
}

/// A `ChargerData` record sent on its characteristic becomes the snapshot's
/// record as it was sent.
pub proof fn lemma_charger_frame_delivers(s: TelemetryView, r: ChargerData)
    requires
        sendable_u16(r.req_current),
        sendable_u16(r.reported_current),
        sendable_u16(r.cell_charge_voltage),
        sendable_u16(r.max_charge_current),
        sendable_u16(r.max_charge_power),
        sendable_u16(r.max_charge_soc),
        sendable_u16(r.req_voltage),
        sendable_u16(r.reported_voltage),
    ensures
        telemetry_after(s, UUID_CHARGER_DATA, r.wire_bytes()).charger == Some(r),
{
    lemma_charger_data_wire(r);
}

/// A `BatteryStatus` record sent on its characteristic becomes the snapshot's
/// record as it was sent.
pub proof fn lemma_batt_status_frame_delivers(s: TelemetryView, r: BatteryStatus)
    ensures
        telemetry_after(s, UUID_BATT_STATUS, r.wire_bytes()).batt_status == Some(r),
{
    lemma_battery_status_wire(r);
}

/// A `BatteryParams` record sent on its characteristic becomes the snapshot's
/// record as it was sent.
pub proof fn lemma_batt_params_frame_delivers(s: TelemetryView, r: BatteryParams)
    ensures
        telemetry_after(s, UUID_BATT_PARAMS, r.wire_bytes()).batt_params == Some(r),
{
    lemma_battery_params_wire(r);
}

/// A `BatterySoc` record sent on its characteristic becomes the snapshot's
/// record as it was sent.
pub proof fn lemma_batt_soc_frame_delivers(s: TelemetryView, r: BatterySoc)
    requires
        sendable_u16(r.soc),
        sendable_u16(r.soh),
        sendable_u16(r.dc_bus),
    ensures
        telemetry_after(s, UUID_BATT_SOC, r.wire_bytes()).batt_soc == Some(r),
{
    lemma_battery_soc_wire(r);
}

/// A `BatterySignals` record sent on its characteristic becomes the snapshot's
/// record as it was sent.
pub proof fn lemma_batt_signals_frame_delivers(s: TelemetryView, r: BatterySignals)
    requires
        sendable_u16(r.pos_dc_bus),
        sendable_u16(r.pos_temp),
        sendable_u16(r.pos_humidity),
        sendable_u16(r.pos_control),
        sendable_u16(r.neg_dc_bus),
        sendable_u16(r.neg_temp),
        sendable_u16(r.neg_humidity),
        sendable_u16(r.neg_control),
        sendable_i16(r.current),
    ensures
        telemetry_after(s, UUID_BATT_SIGNALS, r.wire_bytes()).batt_signals == Some(r),
{
    lemma_battery_signals_wire(r);
}

/// A `InverterSignals` record sent on its characteristic becomes the snapshot's
/// record as it was sent.
pub proof fn lemma_inv_signals_frame_delivers(s: TelemetryView, r: InverterSignals)
    requires
        sendable_u16(r.dc_bus),
        sendable_u16(r.iq_ref),
        sendable_u16(r.id_ref),
        sendable_i16(r.iq),
        sendable_i16(r.id),
        sendable_u16(r.vq),
        sendable_u16(r.vd),
    ensures
        telemetry_after(s, UUID_INV_SIGNALS, r.wire_bytes()).inv_signals == Some(r),
{
    lemma_inverter_signals_wire(r);
}

/// A `InverterPcb` record sent on its characteristic becomes the snapshot's
/// record as it was sent.
pub proof fn lemma_inv_pcb_frame_delivers(s: TelemetryView, r: InverterPcb)
    requires
        sendable_u16(r.mcu_temp_logic),
        sendable_u16(r.mcu_temp_gate),
        sendable_u16(r.ntc1),
        sendable_u16(r.ntc2),
        sendable_u16(r.ntc3),
        sendable_u16(r.pcb_temp),
        sendable_u16(r.pcb_humidity),
    ensures
        telemetry_after(s, UUID_INV_PCB, r.wire_bytes()).inv_pcb == Some(r),
{
    lemma_inverter_pcb_wire(r);
}

} // verus!
