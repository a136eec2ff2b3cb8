//! Decoders for service 0x7000 — Inverter.

use vstd::prelude::*;

use super::{
    le_u16, le_u32, opt_i16, opt_i16_at, opt_u16, opt_u16_at, read_u16, read_u32, view_opt,
};
use crate::text::{lemma_version_at, read_version, version_bytes, version_string, version_text};

use crate::decode::{
    lemma_opt_i16_at, lemma_opt_u16_at, lemma_u16_at, lemma_u32_at, opt_i16_bytes,
    opt_u16_bytes, sendable_i16, sendable_u16, u16_bytes, u32_bytes,
};

verus! {

/// 0x7001 — Inverter info.
#[derive(Debug, Clone)]
pub struct InverterInfo {
    pub faults: u16,
    pub status: u32,
    pub mcc_data1_bad: u16,
    pub mcc_data2_bad: u16,
    pub logic_fw_version: String,
    pub gate_fw_version: String,
    pub hardware_version: u8,
    pub humidity: u32,
}

/// The abstract value of an [`InverterInfo`].
pub ghost struct InverterInfoView {
    pub faults: u16,
    pub status: u32,
    pub mcc_data1_bad: u16,
    pub mcc_data2_bad: u16,
    pub logic_fw_version: Seq<char>,
    pub gate_fw_version: Seq<char>,
    pub hardware_version: u8,
    pub humidity: u32,
}

impl View for InverterInfo {
    type V = InverterInfoView;

    open spec fn view(&self) -> InverterInfoView {
        InverterInfoView {
            faults: self.faults,
            status: self.status,
            mcc_data1_bad: self.mcc_data1_bad,
            mcc_data2_bad: self.mcc_data2_bad,
            logic_fw_version: self.logic_fw_version@,
            gate_fw_version: self.gate_fw_version@,
            hardware_version: self.hardware_version,
            humidity: self.humidity,
        }
    }
}

impl InverterInfo {
    /// What `parse` yields for `data`: `None` when shorter than 23 bytes.
    pub open spec fn spec_parse(data: Seq<u8>) -> Option<InverterInfoView> {
        if data.len() < 23 {
            None
        } else {
            Some(
                InverterInfoView {
                    faults: le_u16(data, 0),
                    status: le_u32(data, 2),
                    mcc_data1_bad: le_u16(data, 6),
                    mcc_data2_bad: le_u16(data, 8),
                    logic_fw_version: version_text(data, 10),
                    gate_fw_version: version_text(data, 14),
                    hardware_version: data[18],
                    humidity: le_u32(data, 19),
                },
            )
        }
    }

    pub fn parse(data: &[u8]) -> (r: Option<Self>)
        ensures
            view_opt(r) == Self::spec_parse(data@),
    {
        if data.len() < 23 {
            return None;
        }
        Some(
            Self {
                faults: read_u16(data, 0),
                status: read_u32(data, 2),
                mcc_data1_bad: read_u16(data, 6),
                mcc_data2_bad: read_u16(data, 8),
                logic_fw_version: read_version(data, 10),
                gate_fw_version: read_version(data, 14),
                hardware_version: data[18],
                humidity: read_u32(data, 19),
            },
        )
    }
}

/// 0x7002 — Inverter signals (14 bytes).
#[derive(Debug, Clone, Copy, Default, PartialEq, Eq)]
pub struct InverterSignals {
    pub dc_bus: Option<u16>,
    pub iq_ref: Option<u16>,
    pub id_ref: Option<u16>,
    pub iq: Option<i16>,
    pub id: Option<i16>,
    pub vq: Option<u16>,
    pub vd: Option<u16>,
}

impl View for InverterSignals {
    type V = InverterSignals;

    open spec fn view(&self) -> InverterSignals {
        *self
    }
}

impl InverterSignals {
    /// What `parse` yields for `data`: `None` when shorter than 14 bytes.
    pub open spec fn spec_parse(data: Seq<u8>) -> Option<InverterSignals> {
        if data.len() < 14 {
            None
        } else {
            Some(
                InverterSignals {
                    dc_bus: opt_u16_at(data, 0),
                    iq_ref: opt_u16_at(data, 2),
                    id_ref: opt_u16_at(data, 4),
                    iq: opt_i16_at(data, 6),
                    id: opt_i16_at(data, 8),
                    vq: opt_u16_at(data, 10),
                    vd: opt_u16_at(data, 12),
                },
            )
        }
    }

    pub fn parse(data: &[u8]) -> (r: Option<Self>)
        ensures
            view_opt(r) == Self::spec_parse(data@),
    {
        if data.len() < 14 {
            return None;
        }
        Some(
            Self {
                dc_bus: opt_u16(data, 0),
                iq_ref: opt_u16(data, 2),
                id_ref: opt_u16(data, 4),
                iq: opt_i16(data, 6),
                id: opt_i16(data, 8),
                vq: opt_u16(data, 10),
                vd: opt_u16(data, 12),
            },
        )
    }
}

/// Temperature sensor group (8 bytes: 3 sensors + valid + used).
#[derive(Debug, Clone, Copy, PartialEq, Eq)]
pub struct TempSensors {
    pub sensor1: Option<u16>,
    pub sensor2: Option<u16>,
    pub sensor3: Option<u16>,
    pub valid: u8,
    pub used: u8,
}

impl View for TempSensors {
    type V = TempSensors;

    open spec fn view(&self) -> TempSensors {
        *self
    }
}

impl Default for TempSensors {
    fn default() -> (r: Self)
        ensures
            r == TempSensors::spec_default(),
    {
        TempSensors { sensor1: None, sensor2: None, sensor3: None, valid: 0, used: 0 }
    }
}

impl TempSensors {
    /// The empty sensor group: no readings, zero flags.
    pub open spec fn spec_default() -> TempSensors {
        TempSensors { sensor1: None, sensor2: None, sensor3: None, valid: 0, used: 0 }
    }

    /// What `parse` yields for `data`: `None` when shorter than 8 bytes.
    pub open spec fn spec_parse(data: Seq<u8>) -> Option<TempSensors> {
        if data.len() < 8 {
            None
        } else {
            Some(
                TempSensors {
                    sensor1: opt_u16_at(data, 0),
                    sensor2: opt_u16_at(data, 2),
                    sensor3: opt_u16_at(data, 4),
                    valid: data[6],
                    used: data[7],
                },
            )
        }
    }

    pub fn parse(data: &[u8]) -> (r: Option<Self>)
        ensures
            view_opt(r) == Self::spec_parse(data@),
    {
        if data.len() < 8 {
            return None;
        }
        Some(
            Self {
                sensor1: opt_u16(data, 0),
                sensor2: opt_u16(data, 2),
                sensor3: opt_u16(data, 4),
                valid: data[6],
                used: data[7],
            },
        )
    }
}

/// 0x7003 — Inverter temperatures (16 bytes: motor + IGBT).
#[derive(Debug, Clone, Copy, PartialEq, Eq)]
pub struct InverterTemperatures {
    pub motor: TempSensors,
    pub igbt: TempSensors,
}

impl View for InverterTemperatures {
    type V = InverterTemperatures;

    open spec fn view(&self) -> InverterTemperatures {
        *self
    }
}

impl Default for InverterTemperatures {
    fn default() -> (r: Self)
        ensures
            r == InverterTemperatures::spec_default(),
    {
        InverterTemperatures { motor: TempSensors::default(), igbt: TempSensors::default() }
    }
}

impl InverterTemperatures {
    /// Both sensor groups empty.
    pub open spec fn spec_default() -> InverterTemperatures {
        InverterTemperatures {
            motor: TempSensors::spec_default(),
            igbt: TempSensors::spec_default(),
        }
    }

    /// What `parse` yields for `data`: `None` when shorter than 16 bytes;
    /// otherwise the motor group from bytes 0..8 and the IGBT group from 8..16.
    pub open spec fn spec_parse(data: Seq<u8>) -> Option<InverterTemperatures> {
        if data.len() < 16 {
            None
        } else {
            Some(
                InverterTemperatures {
                    motor: TempSensors::spec_parse(data.subrange(0, 8)).unwrap(),
                    igbt: TempSensors::spec_parse(data.subrange(8, 16)).unwrap(),
                },
            )
        }
    }

    pub fn parse(data: &[u8]) -> (r: Option<Self>)
        ensures
            view_opt(r) == Self::spec_parse(data@),
    {
        if data.len() < 16 {
            return None;
        }
        let motor = match TempSensors::parse(&data[0..8]) {
            Some(t) => t,
            None => return None,
        };
        let igbt = match TempSensors::parse(&data[8..16]) {
            Some(t) => t,
            None => return None,
        };
        Some(Self { motor, igbt })
    }
}

/// 0x7004 — Inverter PCB data (18 bytes).
#[derive(Debug, Clone, Copy, Default, PartialEq, Eq)]
pub struct InverterPcb {
    pub mcu_temp_logic: Option<u16>,
    pub mcu_temp_gate: Option<u16>,
    pub ntc1: Option<u16>,
    pub ntc2: Option<u16>,
    pub ntc3: Option<u16>,
    pub pcb_temp: Option<u16>,
    pub pcb_humidity: Option<u16>,
    pub serial_number: u32,
}

impl View for InverterPcb {
    type V = InverterPcb;

    open spec fn view(&self) -> InverterPcb {
        *self
    }
}

impl InverterPcb {
    /// What `parse` yields for `data`: `None` when shorter than 18 bytes.
    pub open spec fn spec_parse(data: Seq<u8>) -> Option<InverterPcb> {
        if data.len() < 18 {
            None
        } else {
            Some(
                InverterPcb {
                    mcu_temp_logic: opt_u16_at(data, 0),
                    mcu_temp_gate: opt_u16_at(data, 2),
                    ntc1: opt_u16_at(data, 4),
                    ntc2: opt_u16_at(data, 6),
                    ntc3: opt_u16_at(data, 8),
                    pcb_temp: opt_u16_at(data, 10),
                    pcb_humidity: opt_u16_at(data, 12),
                    serial_number: le_u32(data, 14),
                },
            )
        }
    }

    pub fn parse(data: &[u8]) -> (r: Option<Self>)
        ensures
            view_opt(r) == Self::spec_parse(data@),
    {
        if data.len() < 18 {
            return None;
        }
        Some(
            Self {
                mcu_temp_logic: opt_u16(data, 0),
                mcu_temp_gate: opt_u16(data, 2),
                ntc1: opt_u16(data, 4),
                ntc2: opt_u16(data, 6),
                ntc3: opt_u16(data, 8),
                pcb_temp: opt_u16(data, 10),
                pcb_humidity: opt_u16(data, 12),
                serial_number: read_u32(data, 14),
            },
        )
    }
}

impl InverterSignals {
    /// The wire form of the record: DC bus, Iq and Id references (`u16`), measured Iq and Id
    /// (`i16`), Vq and Vd (`u16`); little-endian, with the sentinels for no data.
    pub open spec fn wire_bytes(self) -> Seq<u8> {
        opt_u16_bytes(self.dc_bus) + opt_u16_bytes(self.iq_ref) + opt_u16_bytes(self.id_ref)
            + opt_i16_bytes(self.iq) + opt_i16_bytes(self.id) + opt_u16_bytes(self.vq)
            + opt_u16_bytes(self.vd)
    }
}

/// Decoding the wire form of a record gives the record back: every field is
/// read from its own place in the layout, in the layout's order.
pub proof fn lemma_inverter_signals_wire(r: InverterSignals)
    requires
        sendable_u16(r.dc_bus),
        sendable_u16(r.iq_ref),
        sendable_u16(r.id_ref),
        sendable_i16(r.iq),
        sendable_i16(r.id),
        sendable_u16(r.vq),
        sendable_u16(r.vd),
    ensures
        r.wire_bytes().len() == 14,
        InverterSignals::spec_parse(r.wire_bytes()) == Some(r),
{
    let d = r.wire_bytes();
    assert(d.len() == 14);
    assert(d.subrange(0, 2) =~= opt_u16_bytes(r.dc_bus));
    lemma_opt_u16_at(d, 0, r.dc_bus);
    assert(d.subrange(2, 4) =~= opt_u16_bytes(r.iq_ref));
    lemma_opt_u16_at(d, 2, r.iq_ref);
    assert(d.subrange(4, 6) =~= opt_u16_bytes(r.id_ref));
    lemma_opt_u16_at(d, 4, r.id_ref);
    assert(d.subrange(6, 8) =~= opt_i16_bytes(r.iq));
    lemma_opt_i16_at(d, 6, r.iq);
    assert(d.subrange(8, 10) =~= opt_i16_bytes(r.id));
    lemma_opt_i16_at(d, 8, r.id);
    assert(d.subrange(10, 12) =~= opt_u16_bytes(r.vq));
    lemma_opt_u16_at(d, 10, r.vq);
    assert(d.subrange(12, 14) =~= opt_u16_bytes(r.vd));
    lemma_opt_u16_at(d, 12, r.vd);
}

impl TempSensors {
    /// The wire form of the record: three sensor readings (`u16` each, little-endian, `0xFFFF` for
    /// no data), then the valid and used masks.
    pub open spec fn wire_bytes(self) -> Seq<u8> {
        opt_u16_bytes(self.sensor1) + opt_u16_bytes(self.sensor2) + opt_u16_bytes(self.sensor3)
            + seq![self.valid] + seq![self.used]
    }
}

/// Decoding the wire form of a record gives the record back: every field is
/// read from its own place in the layout, in the layout's order.
pub proof fn lemma_temp_sensors_wire(r: TempSensors)
    requires
        sendable_u16(r.sensor1),
        sendable_u16(r.sensor2),
        sendable_u16(r.sensor3),
    ensures
        r.wire_bytes().len() == 8,
        TempSensors::spec_parse(r.wire_bytes()) == Some(r),
{
    let d = r.wire_bytes();
    assert(d.len() == 8);
    assert(d.subrange(0, 2) =~= opt_u16_bytes(r.sensor1));
    lemma_opt_u16_at(d, 0, r.sensor1);
    assert(d.subrange(2, 4) =~= opt_u16_bytes(r.sensor2));
    lemma_opt_u16_at(d, 2, r.sensor2);
    assert(d.subrange(4, 6) =~= opt_u16_bytes(r.sensor3));
    lemma_opt_u16_at(d, 4, r.sensor3);
    assert(d.subrange(6, 7) =~= seq![r.valid]);
    assert(d[6] == d.subrange(6, 7)[0]);
    assert(d.subrange(7, 8) =~= seq![r.used]);
    assert(d[7] == d.subrange(7, 8)[0]);
}

impl InverterPcb {
    /// The wire form of the record: logic and gate MCU temperatures, three NTCs, PCB temperature
    /// and humidity (`u16` each, `0xFFFF` for no data), then the serial number (`u32`); little-
    /// endian.
    pub open spec fn wire_bytes(self) -> Seq<u8> {
        opt_u16_bytes(self.mcu_temp_logic) + opt_u16_bytes(self.mcu_temp_gate)
            + opt_u16_bytes(self.ntc1) + opt_u16_bytes(self.ntc2) + opt_u16_bytes(self.ntc3)
            + opt_u16_bytes(self.pcb_temp) + opt_u16_bytes(self.pcb_humidity)
            + u32_bytes(self.serial_number)
    }
}

/// Decoding the wire form of a record gives the record back: every field is
/// read from its own place in the layout, in the layout's order.
pub proof fn lemma_inverter_pcb_wire(r: InverterPcb)
    requires
        sendable_u16(r.mcu_temp_logic),
        sendable_u16(r.mcu_temp_gate),
        sendable_u16(r.ntc1),
        sendable_u16(r.ntc2),
        sendable_u16(r.ntc3),
        sendable_u16(r.pcb_temp),
        sendable_u16(r.pcb_humidity),
    ensures
        r.wire_bytes().len() == 18,
        InverterPcb::spec_parse(r.wire_bytes()) == Some(r),
{
    let d = r.wire_bytes();
    assert(d.len() == 18);
    assert(d.subrange(0, 2) =~= opt_u16_bytes(r.mcu_temp_logic));
    lemma_opt_u16_at(d, 0, r.mcu_temp_logic);
    assert(d.subrange(2, 4) =~= opt_u16_bytes(r.mcu_temp_gate));
    lemma_opt_u16_at(d, 2, r.mcu_temp_gate);
    assert(d.subrange(4, 6) =~= opt_u16_bytes(r.ntc1));
    lemma_opt_u16_at(d, 4, r.ntc1);
    assert(d.subrange(6, 8) =~= opt_u16_bytes(r.ntc2));
    lemma_opt_u16_at(d, 6, r.ntc2);
    assert(d.subrange(8, 10) =~= opt_u16_bytes(r.ntc3));
    lemma_opt_u16_at(d, 8, r.ntc3);
    assert(d.subrange(10, 12) =~= opt_u16_bytes(r.pcb_temp));
    lemma_opt_u16_at(d, 10, r.pcb_temp);
    assert(d.subrange(12, 14) =~= opt_u16_bytes(r.pcb_humidity));
    lemma_opt_u16_at(d, 12, r.pcb_humidity);
    assert(d.subrange(14, 18) =~= u32_bytes(r.serial_number));
    lemma_u32_at(d, 14, r.serial_number);
}

impl InverterTemperatures {
    /// The wire form of the record: the motor's three sensors and masks,
    /// then the IGBT's, each half in the layout of [`TempSensors`].
    pub open spec fn wire_bytes(self) -> Seq<u8> {
        self.motor.wire_bytes() + self.igbt.wire_bytes()
    }
}

/// Decoding the wire form of an inverter temperatures record gives it back:
/// the motor half comes from the first 8 bytes, the IGBT half from the next 8.
pub proof fn lemma_inverter_temperatures_wire(t: InverterTemperatures)
    requires
        sendable_u16(t.motor.sensor1),
        sendable_u16(t.motor.sensor2),
        sendable_u16(t.motor.sensor3),
        sendable_u16(t.igbt.sensor1),
        sendable_u16(t.igbt.sensor2),
        sendable_u16(t.igbt.sensor3),
    ensures
        t.wire_bytes().len() == 16,
        InverterTemperatures::spec_parse(t.wire_bytes()) == Some(t),
{
    lemma_temp_sensors_wire(t.motor);
    lemma_temp_sensors_wire(t.igbt);
    let d = t.wire_bytes();
    assert(d.subrange(0, 8) =~= t.motor.wire_bytes());
    assert(d.subrange(8, 16) =~= t.igbt.wire_bytes());
}

/// The wire form of an inverter info record: fault bits (`u16`), status
/// (`u32`), the two MCC bad-data counters (`u16`), the logic and gate
/// firmware version slots, the hardware version byte, then the humidity
/// (`u32`); little-endian.
pub open spec fn inverter_info_wire(
    faults: u16,
    status: u32,
    mcc1: u16,
    mcc2: u16,
    logic: (u8, u8, u8),
    gate: (u8, u8, u8),
    hardware: u8,
    humidity: u32,
) -> Seq<u8> {
    u16_bytes(faults) + u32_bytes(status) + u16_bytes(mcc1) + u16_bytes(mcc2) + version_bytes(
        logic,
    ) + version_bytes(gate) + seq![hardware] + u32_bytes(humidity)
}

/// Decoding the wire form of an inverter info record gives each field back.
pub proof fn lemma_inverter_info_wire(
    faults: u16,
    status: u32,
    mcc1: u16,
    mcc2: u16,
    logic: (u8, u8, u8),
    gate: (u8, u8, u8),
    hardware: u8,
    humidity: u32,
)
    ensures
        InverterInfo::spec_parse(
            inverter_info_wire(faults, status, mcc1, mcc2, logic, gate, hardware, humidity),
        ) == Some(
            InverterInfoView {
                faults,
                status,
                mcc_data1_bad: mcc1,
                mcc_data2_bad: mcc2,
                logic_fw_version: version_string(logic),
                gate_fw_version: version_string(gate),
                hardware_version: hardware,
                humidity,
            },
        ),
{
    let d = inverter_info_wire(faults, status, mcc1, mcc2, logic, gate, hardware, humidity);
    assert(d.len() == 23);
    assert(d.subrange(0, 2) =~= u16_bytes(faults));
    assert(d.subrange(2, 6) =~= u32_bytes(status));
    assert(d.subrange(6, 8) =~= u16_bytes(mcc1));
    assert(d.subrange(8, 10) =~= u16_bytes(mcc2));
    assert(d.subrange(10, 14) =~= version_bytes(logic));
    assert(d.subrange(14, 18) =~= version_bytes(gate));
    assert(d.subrange(19, 23) =~= u32_bytes(humidity));
    lemma_u16_at(d, 0, faults);
    lemma_u32_at(d, 2, status);
    lemma_u16_at(d, 6, mcc1);
    lemma_u16_at(d, 8, mcc2);
    lemma_version_at(d, 10, logic);
    lemma_version_at(d, 14, gate);
    lemma_u32_at(d, 19, humidity);
    assert(d[18] == hardware);
}

} // verus!
