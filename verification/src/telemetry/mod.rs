//! Telemetry frames and their decoded forms for the Stark Varg.
//!
//! The decoders for service 0x1000 (bike data) and 0x2000 (live riding
//! data) live here, along with the TLV demultiplexer and the aggregated
//! [`DecodedTelemetry`] snapshot.

pub mod state;
pub mod tlv;

pub use state::{DecodedTelemetry, TelemetryFrame, TelemetryView, TlvStream};
pub use tlv::{parse_tlv, TlvEntry, TlvEntryView};

use vstd::prelude::*;

use crate::decode::{
    le_i16, le_u16, le_u32, opt_i16, opt_i16_at, opt_u16, opt_u16_at, opt_u32, opt_u32_at,
    read_i16, read_u16, read_u32, view_opt,
};
use crate::protocol::characteristic_name as protocol_characteristic_name;
use crate::text::{lemma_version_at, read_version, version_bytes, version_string, version_text};

use crate::decode::{
    flag_byte, i16_bytes, lemma_i16_at, lemma_opt_i16_at, lemma_opt_u16_at, lemma_opt_u32_at,
    lemma_u16_at, lemma_u32_at, opt_i16_bytes, opt_u16_bytes, opt_u32_bytes, sendable_i16,
    sendable_u16, sendable_u32, u16_bytes, u32_bytes,
};

verus! {

// ---------------------------------------------------------------------------
// Service 0x1000
// ---------------------------------------------------------------------------

/// Bit `i` (counted from the least significant) of `v`.
pub open spec fn bit(v: u16, i: u16) -> bool {
    (v >> i) & 1 == 1
}

/// Status bits from characteristic 00001002 (18 bytes).
#[derive(Debug, Clone, Copy, Default, PartialEq, Eq)]
pub struct StatusBits {
    pub misc_bits: u16,
    pub indicator_bits: u16,
    pub alert_bits: u16,
    pub fault_bits: u16,
    pub info_bits: u16,
    pub lock_status: u8,
    pub lock_time: u16,
    pub update_available: bool,
    pub battery_status: u32,
}

impl View for StatusBits {
    type V = StatusBits;

    open spec fn view(&self) -> StatusBits {
        *self
    }
}

impl StatusBits {
    /// What `parse` yields for `data`: `None` when shorter than 18 bytes.
    pub open spec fn spec_parse(data: Seq<u8>) -> Option<StatusBits> {
        if data.len() < 18 {
            None
        } else {
            Some(
                StatusBits {
                    misc_bits: le_u16(data, 0),
                    indicator_bits: le_u16(data, 2),
                    alert_bits: le_u16(data, 4),
                    fault_bits: le_u16(data, 6),
                    info_bits: le_u16(data, 8),
                    lock_status: data[10],
                    lock_time: le_u16(data, 11),
                    update_available: data[13] == 1,
                    battery_status: le_u32(data, 14),
                },
            )
        }
    }

    pub fn parse(data: &[u8]) -> (r: Option<Self>)
        ensures
            view_opt(r) == Self::spec_parse(data@),
    {
        if data.len() < 18 {
            return None;
        }
        Some(
            Self {
                misc_bits: read_u16(data, 0),
                indicator_bits: read_u16(data, 2),
                alert_bits: read_u16(data, 4),
                fault_bits: read_u16(data, 6),
                info_bits: read_u16(data, 8),
                lock_status: data[10],
                lock_time: read_u16(data, 11),
                update_available: data[13] == 1,
                battery_status: read_u32(data, 14),
            },
        )
    }

    /// Walking mode: bits 0–3 of `misc_bits`.
    pub fn walking_mode(&self) -> (r: u8)
        ensures
            r == self.misc_bits % 16,
    {
        let m = self.misc_bits;
        assert(m & 0x0F == m % 16) by (bit_vector);
        (m & 0x0F) as u8
    }

    /// Throttle armed: bit 4 of `indicator_bits`.
    pub fn armed_throttle(&self) -> (r: bool)
        ensures
            r == bit(self.indicator_bits, 4),
    {
        let v = self.indicator_bits;
        assert((v & 0x10 != 0) == ((v >> 4u16) & 1 == 1)) by (bit_vector);
        (v & 0x10) != 0
    }

    /// Drive engaged: bit 5 of `indicator_bits`.
    pub fn drive(&self) -> (r: bool)
        ensures
            r == bit(self.indicator_bits, 5),
    {
        let v = self.indicator_bits;
        assert((v & 0x20 != 0) == ((v >> 5u16) & 1 == 1)) by (bit_vector);
        (v & 0x20) != 0
    }

    /// Charger connected: bit 0 of `info_bits`.
    pub fn charger_connected(&self) -> (r: bool)
        ensures
            r == bit(self.info_bits, 0),
    {
        let v = self.info_bits;
        assert((v & 0x01 != 0) == ((v >> 0u16) & 1 == 1)) by (bit_vector);
        (v & 0x01) != 0
    }

    /// Charging: bit 1 of `info_bits`.
    pub fn is_charging(&self) -> (r: bool)
        ensures
            r == bit(self.info_bits, 1),
    {
        let v = self.info_bits;
        assert((v & 0x02 != 0) == ((v >> 1u16) & 1 == 1)) by (bit_vector);
        (v & 0x02) != 0
    }

    /// Docked: bit 2 of `info_bits`.
    pub fn is_docked(&self) -> (r: bool)
        ensures
            r == bit(self.info_bits, 2),
    {
        let v = self.info_bits;
        assert((v & 0x04 != 0) == ((v >> 2u16) & 1 == 1)) by (bit_vector);
        (v & 0x04) != 0
    }

    /// Coolant pump on: bit 5 of `info_bits`.
    pub fn pump_on(&self) -> (r: bool)
        ensures
            r == bit(self.info_bits, 5),
    {
        let v = self.info_bits;
        assert((v & 0x20 != 0) == ((v >> 5u16) & 1 == 1)) by (bit_vector);
        (v & 0x20) != 0
    }

    /// Cooling fan on: bit 6 of `info_bits`.
    pub fn fan_on(&self) -> (r: bool)
        ensures
            r == bit(self.info_bits, 6),
    {
        let v = self.info_bits;
        assert((v & 0x40 != 0) == ((v >> 6u16) & 1 == 1)) by (bit_vector);
        (v & 0x40) != 0
    }
}

/// What std's `String::from_utf8_lossy` makes of a byte string.
pub uninterp spec fn utf8_lossy(bytes: Seq<u8>) -> Seq<char>;

/// Decodes bytes as UTF-8 with `std::string::String::from_utf8_lossy`,
/// invalid sequences becoming U+FFFD. The contract names the result and
/// states the documented case: valid UTF-8 comes back as its characters.
/// Which replacement characters stand for invalid input is not stated.
#[verifier::external_body]
fn string_from_utf8_lossy(bytes: &[u8]) -> (s: String)
    ensures
        s@ == utf8_lossy(bytes@),
        vstd::utf8::valid_utf8(bytes@) ==> s@ == vstd::utf8::decode_utf8(bytes@),
{
    String::from_utf8_lossy(bytes).to_string()
}

/// VIN and sold-on date from characteristic 00001003 (23 bytes).
#[derive(Debug, Clone)]
pub struct BikeIdentity {
    pub vin: String,
    pub sold_date: String,
}

/// The abstract value of a [`BikeIdentity`].
pub ghost struct BikeIdentityView {
    pub vin: Seq<char>,
    pub sold_date: Seq<char>,
}

impl View for BikeIdentity {
    type V = BikeIdentityView;

    open spec fn view(&self) -> BikeIdentityView {
        BikeIdentityView { vin: self.vin@, sold_date: self.sold_date@ }
    }
}

impl BikeIdentity {
    /// What `parse` yields for `data`: `None` when shorter than 23 bytes;
    /// otherwise the VIN from bytes 0..17 and the sold date from 17..23.
    pub open spec fn spec_parse(data: Seq<u8>) -> Option<BikeIdentityView> {
        if data.len() < 23 {
            None
        } else {
            Some(
                BikeIdentityView {
                    vin: utf8_lossy(data.subrange(0, 17)),
                    sold_date: utf8_lossy(data.subrange(17, 23)),
                },
            )
        }
    }

    pub fn parse(data: &[u8]) -> (r: Option<Self>)
        ensures
            view_opt(r) == Self::spec_parse(data@),
            r matches Some(id) ==> (vstd::utf8::valid_utf8(data@.subrange(0, 17))
                ==> id.vin@ == vstd::utf8::decode_utf8(data@.subrange(0, 17))),
            r matches Some(id) ==> (vstd::utf8::valid_utf8(data@.subrange(17, 23))
                ==> id.sold_date@ == vstd::utf8::decode_utf8(data@.subrange(17, 23))),
    {
        if data.len() < 23 {
            return None;
        }
        Some(
            Self {
                vin: string_from_utf8_lossy(&data[0..17]),
                sold_date: string_from_utf8_lossy(&data[17..23]),
            },
        )
    }
}

// ---------------------------------------------------------------------------
// Service 0x2000 (live riding data)
// ---------------------------------------------------------------------------

/// Speed from characteristic 00002001 (4 bytes).
#[derive(Debug, Clone, Copy, Default, PartialEq, Eq)]
pub struct Speed {
    /// Speed in tenths of a km/h (divide by 10 for km/h). None if sensor unavailable.
    pub speed_raw: Option<u16>,
    /// Motor RPM. None if motor not running.
    pub motor_rpm: Option<u16>,
}

impl View for Speed {
    type V = Speed;

    open spec fn view(&self) -> Speed {
        *self
    }
}

impl Speed {
    /// What `parse` yields for `data`: `None` when shorter than 4 bytes.
    pub open spec fn spec_parse(data: Seq<u8>) -> Option<Speed> {
        if data.len() < 4 {
            None
        } else {
            Some(Speed { speed_raw: opt_u16_at(data, 0), motor_rpm: opt_u16_at(data, 2) })
        }
    }

    pub fn parse(data: &[u8]) -> (r: Option<Self>)
        ensures
            view_opt(r) == Self::spec_parse(data@),
    {
        if data.len() < 4 {
            return None;
        }
        Some(Self { speed_raw: opt_u16(data, 0), motor_rpm: opt_u16(data, 2) })
    }
}

/// Throttle from characteristic 00002002 (6 bytes).
#[derive(Debug, Clone, Copy, Default, PartialEq, Eq)]
pub struct Throttle {
    pub position: Option<u16>,
    pub iq_fb: Option<i16>,
    pub id_fb: Option<i16>,
}

impl View for Throttle {
    type V = Throttle;

    open spec fn view(&self) -> Throttle {
        *self
    }
}

impl Throttle {
    /// What `parse` yields for `data`: `None` when shorter than 6 bytes.
    pub open spec fn spec_parse(data: Seq<u8>) -> Option<Throttle> {
        if data.len() < 6 {
            None
        } else {
            Some(
                Throttle {
                    position: opt_u16_at(data, 0),
                    iq_fb: opt_i16_at(data, 2),
                    id_fb: opt_i16_at(data, 4),
                },
            )
        }
    }

    pub fn parse(data: &[u8]) -> (r: Option<Self>)
        ensures
            view_opt(r) == Self::spec_parse(data@),
    {
        if data.len() < 6 {
            return None;
        }
        Some(Self { position: opt_u16(data, 0), iq_fb: opt_i16(data, 2), id_fb: opt_i16(data, 4) })
    }
}

/// IMU from characteristic 00002003 (12 bytes).
#[derive(Debug, Clone, Copy, Default, PartialEq, Eq)]
pub struct Imu {
    pub accel_x: Option<i16>,
    pub accel_y: Option<i16>,
    pub accel_z: Option<i16>,
    pub gyro_x: Option<i16>,
    pub gyro_y: Option<i16>,
    pub gyro_z: Option<i16>,
}

impl View for Imu {
    type V = Imu;

    open spec fn view(&self) -> Imu {
        *self
    }
}

impl Imu {
    /// What `parse` yields for `data`: `None` when shorter than 12 bytes.
    pub open spec fn spec_parse(data: Seq<u8>) -> Option<Imu> {
        if data.len() < 12 {
            None
        } else {
            Some(
                Imu {
                    accel_x: opt_i16_at(data, 0),
                    accel_y: opt_i16_at(data, 2),
                    accel_z: opt_i16_at(data, 4),
                    gyro_x: opt_i16_at(data, 6),
                    gyro_y: opt_i16_at(data, 8),
                    gyro_z: opt_i16_at(data, 10),
                },
            )
        }
    }

    pub fn parse(data: &[u8]) -> (r: Option<Self>)
        ensures
            view_opt(r) == Self::spec_parse(data@),
    {
        if data.len() < 12 {
            return None;
        }
        Some(
            Self {
                accel_x: opt_i16(data, 0),
                accel_y: opt_i16(data, 2),
                accel_z: opt_i16(data, 4),
                gyro_x: opt_i16(data, 6),
                gyro_y: opt_i16(data, 8),
                gyro_z: opt_i16(data, 10),
            },
        )
    }
}

/// Totals from characteristic 00002005 (16 bytes).
#[derive(Debug, Clone, Copy, Default, PartialEq, Eq)]
pub struct Totals {
    pub odometer: Option<u32>,
    pub watt_hours: Option<u32>,
    pub airtime_secs: Option<u32>,
    pub total_time_secs: Option<u32>,
}

impl View for Totals {
    type V = Totals;

    open spec fn view(&self) -> Totals {
        *self
    }
}

impl Totals {
    /// What `parse` yields for `data`: `None` when shorter than 16 bytes.
    pub open spec fn spec_parse(data: Seq<u8>) -> Option<Totals> {
        if data.len() < 16 {
            None
        } else {
            Some(
                Totals {
                    odometer: opt_u32_at(data, 0),
                    watt_hours: opt_u32_at(data, 4),
                    airtime_secs: opt_u32_at(data, 8),
                    total_time_secs: opt_u32_at(data, 12),
                },
            )
        }
    }

    pub fn parse(data: &[u8]) -> (r: Option<Self>)
        ensures
            view_opt(r) == Self::spec_parse(data@),
    {
        if data.len() < 16 {
            return None;
        }
        Some(
            Self {
                odometer: opt_u32(data, 0),
                watt_hours: opt_u32(data, 4),
                airtime_secs: opt_u32(data, 8),
                total_time_secs: opt_u32(data, 12),
            },
        )
    }
}

/// Estimations from characteristic 00002006 (6 bytes).
#[derive(Debug, Clone, Copy, Default, PartialEq, Eq)]
pub struct Estimations {
    pub range_km: Option<u16>,
    pub time_min: Option<u16>,
    pub motor_power_w: Option<i16>,
}

impl View for Estimations {
    type V = Estimations;

    open spec fn view(&self) -> Estimations {
        *self
    }
}

impl Estimations {
    /// What `parse` yields for `data`: `None` when shorter than 6 bytes.
    pub open spec fn spec_parse(data: Seq<u8>) -> Option<Estimations> {
        if data.len() < 6 {
            None
        } else {
            Some(
                Estimations {
                    range_km: opt_u16_at(data, 0),
                    time_min: opt_u16_at(data, 2),
                    motor_power_w: opt_i16_at(data, 4),
                },
            )
        }
    }

    pub fn parse(data: &[u8]) -> (r: Option<Self>)
        ensures
            view_opt(r) == Self::spec_parse(data@),
    {
        if data.len() < 6 {
            return None;
        }
        Some(
            Self {
                range_km: opt_u16(data, 0),
                time_min: opt_u16(data, 2),
                motor_power_w: opt_i16(data, 4),
            },
        )
    }
}

/// Racing from characteristic 00002007 (9 bytes).
#[derive(Debug, Clone, Copy, Default, PartialEq, Eq)]
pub struct Racing {
    pub mode: u8,
    pub curve: u8,
    pub throttle_multiplier: u16,
    pub category: u8,
    pub expire_timestamp: u32,
}

impl View for Racing {
    type V = Racing;

    open spec fn view(&self) -> Racing {
        *self
    }
}

impl Racing {
    /// What `parse` yields for `data`: `None` when shorter than 9 bytes.
    pub open spec fn spec_parse(data: Seq<u8>) -> Option<Racing> {
        if data.len() < 9 {
            None
        } else {
            Some(
                Racing {
                    mode: data[0],
                    curve: data[1],
                    throttle_multiplier: le_u16(data, 2),
                    category: data[4],
                    expire_timestamp: le_u32(data, 5),
                },
            )
        }
    }

    pub fn parse(data: &[u8]) -> (r: Option<Self>)
        ensures
            view_opt(r) == Self::spec_parse(data@),
    {
        if data.len() < 9 {
            return None;
        }
        Some(
            Self {
                mode: data[0],
                curve: data[1],
                throttle_multiplier: read_u16(data, 2),
                category: data[4],
                expire_timestamp: read_u32(data, 5),
            },
        )
    }
}

/// Firmware version info from characteristic 00001005 (100 bytes).
#[derive(Debug, Clone)]
pub struct BikeVersions {
    pub ble_version: u16,
    pub download_percent: i16,
    pub blob_fs: String,
    pub blob_server: String,
    pub components: Vec<ComponentVersion>,
}

/// A single component's firmware version.
#[derive(Debug, Clone)]
pub struct ComponentVersion {
    pub name: &'static str,
    pub version: String,
    pub available: String,
}

/// The abstract value of a [`ComponentVersion`].
pub ghost struct ComponentVersionView {
    pub name: Seq<char>,
    pub version: Seq<char>,
    pub available: Seq<char>,
}

impl View for ComponentVersion {
    type V = ComponentVersionView;

    open spec fn view(&self) -> ComponentVersionView {
        ComponentVersionView {
            name: self.name@,
            version: self.version@,
            available: self.available@,
        }
    }
}

/// The abstract value of a [`BikeVersions`].
pub ghost struct BikeVersionsView {
    pub ble_version: u16,
    pub download_percent: i16,
    pub blob_fs: Seq<char>,
    pub blob_server: Seq<char>,
    pub components: Seq<ComponentVersionView>,
}

impl View for BikeVersions {
    type V = BikeVersionsView;

    open spec fn view(&self) -> BikeVersionsView {
        BikeVersionsView {
            ble_version: self.ble_version,
            download_percent: self.download_percent,
            blob_fs: self.blob_fs@,
            blob_server: self.blob_server@,
            components: self.components@.map_values(|c: ComponentVersion| c@),
        }
    }
}

/// The name of the `i`-th component in the versions record.
pub open spec fn component_label(i: int) -> Seq<char> {
    if i == 0 { "vcu_pic"@ }
    else if i == 1 { "esp_top"@ }
    else if i == 2 { "esp_bottom"@ }
    else if i == 3 { "inverter_logic"@ }
    else if i == 4 { "inverter_gate"@ }
    else if i == 5 { "bms_pos"@ }
    else if i == 6 { "bms_neg"@ }
    else if i == 7 { "map_switch"@ }
    else if i == 8 { "light_front"@ }
    else if i == 9 { "light_rear"@ }
    else { "docking"@ }
}

/// The number of components in the versions record.
pub const COMPONENT_COUNT: usize = 11;

fn component_name(i: usize) -> (r: &'static str)
    requires
        i < COMPONENT_COUNT,
    ensures
        r@ == component_label(i as int),
{
    if i == 0 { "vcu_pic" }
    else if i == 1 { "esp_top" }
    else if i == 2 { "esp_bottom" }
    else if i == 3 { "inverter_logic" }
    else if i == 4 { "inverter_gate" }
    else if i == 5 { "bms_pos" }
    else if i == 6 { "bms_neg" }
    else if i == 7 { "map_switch" }
    else if i == 8 { "light_front" }
    else if i == 9 { "light_rear" }
    else { "docking" }
}

/// The `i`-th component entry: installed version at `12 + 8i`, available
/// version at `16 + 8i`.
pub open spec fn component_entry(data: Seq<u8>, i: int) -> ComponentVersionView {
    ComponentVersionView {
        name: component_label(i),
        version: version_text(data, 12 + 8 * i),
        available: version_text(data, 16 + 8 * i),
    }
}

impl BikeVersions {
    /// What `parse` yields for `data`: `None` when shorter than 100 bytes;
    /// otherwise all eleven components in their fixed order.
    pub open spec fn spec_parse(data: Seq<u8>) -> Option<BikeVersionsView> {
        if data.len() < 100 {
            None
        } else {
            Some(
                BikeVersionsView {
                    ble_version: le_u16(data, 0),
                    download_percent: le_i16(data, 2),
                    blob_fs: version_text(data, 4),
                    blob_server: version_text(data, 8),
                    components: Seq::new(
                        COMPONENT_COUNT as nat,
                        |i: int| component_entry(data, i),
                    ),
                },
            )
        }
    }

    pub fn parse(data: &[u8]) -> (r: Option<Self>)
        ensures
            view_opt(r) == Self::spec_parse(data@),
    {
        if data.len() < 100 {
            return None;
        }
        let ble_version = read_u16(data, 0);
        let download_percent = read_i16(data, 2);
        let blob_fs = read_version(data, 4);
        let blob_server = read_version(data, 8);

        // 11 component pairs starting at byte 12, 8 bytes per pair
        // (4 bytes version + 4 bytes available version).
        let comp_data = &data[12..data.len()];
        let comp_len = comp_data.len();
        let mut components: Vec<ComponentVersion> = Vec::with_capacity(COMPONENT_COUNT);
        let mut i: usize = 0;
        while i < COMPONENT_COUNT
            invariant
                i <= COMPONENT_COUNT,
                comp_len == comp_data@.len(),
                comp_data@ == data@.subrange(12, data@.len() as int),
                data@.len() >= 100,
                components@.len() == i,
                forall|j: int|
                    0 <= j < i ==> #[trigger] components@[j]@ == component_entry(data@, j),
            decreases COMPONENT_COUNT - i,
        {
            let off = i * 8;
            if off + 7 < comp_len {
                let version = read_version(comp_data, off);
                let available = read_version(comp_data, off + 4);
                proof {
                    assert(version_text(comp_data@, off as int) == version_text(
                        data@,
                        12 + 8 * i,
                    ));
                    assert(version_text(comp_data@, off + 4) == version_text(data@, 16 + 8 * i));
                }
                components.push(ComponentVersion { name: component_name(i), version, available });
            }
            i = i + 1;
        }
        let r = Self { ble_version, download_percent, blob_fs, blob_server, components };
        assert(r@.components =~= Seq::new(
            COMPONENT_COUNT as nat,
            |i: int| component_entry(data@, i),
        ));
        Some(r)
    }
}

/// Battery level from characteristic 00002a19 (1 byte, standard BLE).
pub fn parse_battery_level(data: &[u8]) -> (r: Option<u8>)
    ensures
        r == (if data@.len() == 0 { None } else { Some(data@[0]) }),
{
    if data.len() == 0 {
        None
    } else {
        Some(data[0])
    }
}

/// Human-readable name for a characteristic UUID.
pub fn characteristic_name(uuid: u128) -> (name: &'static str)
    ensures
        name@ == (match crate::protocol::characteristic_label(uuid) {
            Some(label) => label,
            None => "unknown"@,
        }),
{
    match protocol_characteristic_name(uuid) {
        Some(n) => n,
        None => "unknown",
    }
}

impl StatusBits {
    /// The wire form of the record: misc, indicator, alert, fault and info words (`u16` each), the
    /// lock status byte, the lock time (`u16`), the update flag, then the battery status (`u32`);
    /// little-endian, 18 bytes.
    pub open spec fn wire_bytes(self) -> Seq<u8> {
        u16_bytes(self.misc_bits) + u16_bytes(self.indicator_bits) + u16_bytes(self.alert_bits)
            + u16_bytes(self.fault_bits) + u16_bytes(self.info_bits) + seq![self.lock_status]
            + u16_bytes(self.lock_time) + flag_byte(self.update_available)
            + u32_bytes(self.battery_status)
    }
}

/// Decoding the wire form of a record gives the record back: every field is
/// read from its own place in the layout, in the layout's order.
pub proof fn lemma_status_bits_wire(r: StatusBits)
    ensures
        r.wire_bytes().len() == 18,
        StatusBits::spec_parse(r.wire_bytes()) == Some(r),
{
    let d = r.wire_bytes();
    assert(d.len() == 18);
    assert(d.subrange(0, 2) =~= u16_bytes(r.misc_bits));
    lemma_u16_at(d, 0, r.misc_bits);
    assert(d.subrange(2, 4) =~= u16_bytes(r.indicator_bits));
    lemma_u16_at(d, 2, r.indicator_bits);
    assert(d.subrange(4, 6) =~= u16_bytes(r.alert_bits));
    lemma_u16_at(d, 4, r.alert_bits);
    assert(d.subrange(6, 8) =~= u16_bytes(r.fault_bits));
    lemma_u16_at(d, 6, r.fault_bits);
    assert(d.subrange(8, 10) =~= u16_bytes(r.info_bits));
    lemma_u16_at(d, 8, r.info_bits);
    assert(d.subrange(10, 11) =~= seq![r.lock_status]);
    assert(d[10] == d.subrange(10, 11)[0]);
    assert(d.subrange(11, 13) =~= u16_bytes(r.lock_time));
    lemma_u16_at(d, 11, r.lock_time);
    assert(d.subrange(13, 14) =~= flag_byte(r.update_available));
    assert(d[13] == d.subrange(13, 14)[0]);
    assert(d.subrange(14, 18) =~= u32_bytes(r.battery_status));
    lemma_u32_at(d, 14, r.battery_status);
}

impl Speed {
    /// The wire form of the record: speed in tenths of km/h, then motor RPM (`u16` each, little-
    /// endian, `0xFFFF` for no data).
    pub open spec fn wire_bytes(self) -> Seq<u8> {
        opt_u16_bytes(self.speed_raw) + opt_u16_bytes(self.motor_rpm)
    }
}

/// Decoding the wire form of a record gives the record back: every field is
/// read from its own place in the layout, in the layout's order.
pub proof fn lemma_speed_wire(r: Speed)
    requires
        sendable_u16(r.speed_raw),
        sendable_u16(r.motor_rpm),
    ensures
        r.wire_bytes().len() == 4,
        Speed::spec_parse(r.wire_bytes()) == Some(r),
{
    let d = r.wire_bytes();
    assert(d.len() == 4);
    assert(d.subrange(0, 2) =~= opt_u16_bytes(r.speed_raw));
    lemma_opt_u16_at(d, 0, r.speed_raw);
    assert(d.subrange(2, 4) =~= opt_u16_bytes(r.motor_rpm));
    lemma_opt_u16_at(d, 2, r.motor_rpm);
}

impl Throttle {
    /// The wire form of the record: position (`u16`), then the Iq and Id feedback (`i16`); little-
    /// endian, with the sentinels for no data.
    pub open spec fn wire_bytes(self) -> Seq<u8> {
        opt_u16_bytes(self.position) + opt_i16_bytes(self.iq_fb) + opt_i16_bytes(self.id_fb)
    }
}

/// Decoding the wire form of a record gives the record back: every field is
/// read from its own place in the layout, in the layout's order.
pub proof fn lemma_throttle_wire(r: Throttle)
    requires
        sendable_u16(r.position),
        sendable_i16(r.iq_fb),
        sendable_i16(r.id_fb),
    ensures
        r.wire_bytes().len() == 6,
        Throttle::spec_parse(r.wire_bytes()) == Some(r),
{
    let d = r.wire_bytes();
    assert(d.len() == 6);
    assert(d.subrange(0, 2) =~= opt_u16_bytes(r.position));
    lemma_opt_u16_at(d, 0, r.position);
    assert(d.subrange(2, 4) =~= opt_i16_bytes(r.iq_fb));
    lemma_opt_i16_at(d, 2, r.iq_fb);
    assert(d.subrange(4, 6) =~= opt_i16_bytes(r.id_fb));
    lemma_opt_i16_at(d, 4, r.id_fb);
}

impl Imu {
    /// The wire form of the record: acceleration x, y, z, then rotation x, y, z (`i16` each,
    /// little-endian, `0x7FFF` for no data).
    pub open spec fn wire_bytes(self) -> Seq<u8> {
        opt_i16_bytes(self.accel_x) + opt_i16_bytes(self.accel_y) + opt_i16_bytes(self.accel_z)
            + opt_i16_bytes(self.gyro_x) + opt_i16_bytes(self.gyro_y) + opt_i16_bytes(self.gyro_z)
    }
}

/// Decoding the wire form of a record gives the record back: every field is
/// read from its own place in the layout, in the layout's order.
pub proof fn lemma_imu_wire(r: Imu)
    requires
        sendable_i16(r.accel_x),
        sendable_i16(r.accel_y),
        sendable_i16(r.accel_z),
        sendable_i16(r.gyro_x),
        sendable_i16(r.gyro_y),
        sendable_i16(r.gyro_z),
    ensures
        r.wire_bytes().len() == 12,
        Imu::spec_parse(r.wire_bytes()) == Some(r),
{
    let d = r.wire_bytes();
    assert(d.len() == 12);
    assert(d.subrange(0, 2) =~= opt_i16_bytes(r.accel_x));
    lemma_opt_i16_at(d, 0, r.accel_x);
    assert(d.subrange(2, 4) =~= opt_i16_bytes(r.accel_y));
    lemma_opt_i16_at(d, 2, r.accel_y);
    assert(d.subrange(4, 6) =~= opt_i16_bytes(r.accel_z));
    lemma_opt_i16_at(d, 4, r.accel_z);
    assert(d.subrange(6, 8) =~= opt_i16_bytes(r.gyro_x));
    lemma_opt_i16_at(d, 6, r.gyro_x);
    assert(d.subrange(8, 10) =~= opt_i16_bytes(r.gyro_y));
    lemma_opt_i16_at(d, 8, r.gyro_y);
    assert(d.subrange(10, 12) =~= opt_i16_bytes(r.gyro_z));
    lemma_opt_i16_at(d, 10, r.gyro_z);
}

impl Totals {
    /// The wire form of the record: odometer, watt-hours, airtime, total time (`u32` each, little-
    /// endian, `0xFFFF_FFFF` for no data).
    pub open spec fn wire_bytes(self) -> Seq<u8> {
        opt_u32_bytes(self.odometer) + opt_u32_bytes(self.watt_hours)
            + opt_u32_bytes(self.airtime_secs) + opt_u32_bytes(self.total_time_secs)
    }
}

/// Decoding the wire form of a record gives the record back: every field is
/// read from its own place in the layout, in the layout's order.
pub proof fn lemma_totals_wire(r: Totals)
    requires
        sendable_u32(r.odometer),
        sendable_u32(r.watt_hours),
        sendable_u32(r.airtime_secs),
        sendable_u32(r.total_time_secs),
    ensures
        r.wire_bytes().len() == 16,
        Totals::spec_parse(r.wire_bytes()) == Some(r),
{
    let d = r.wire_bytes();
    assert(d.len() == 16);
    assert(d.subrange(0, 4) =~= opt_u32_bytes(r.odometer));
    lemma_opt_u32_at(d, 0, r.odometer);
    assert(d.subrange(4, 8) =~= opt_u32_bytes(r.watt_hours));
    lemma_opt_u32_at(d, 4, r.watt_hours);
    assert(d.subrange(8, 12) =~= opt_u32_bytes(r.airtime_secs));
    lemma_opt_u32_at(d, 8, r.airtime_secs);
    assert(d.subrange(12, 16) =~= opt_u32_bytes(r.total_time_secs));
    lemma_opt_u32_at(d, 12, r.total_time_secs);
}

impl Estimations {
    /// The wire form of the record: range and time (`u16`), then motor power (`i16`); little-
    /// endian, with the sentinels for no data.
    pub open spec fn wire_bytes(self) -> Seq<u8> {
        opt_u16_bytes(self.range_km) + opt_u16_bytes(self.time_min)
            + opt_i16_bytes(self.motor_power_w)
    }
}

/// Decoding the wire form of a record gives the record back: every field is
/// read from its own place in the layout, in the layout's order.
pub proof fn lemma_estimations_wire(r: Estimations)
    requires
        sendable_u16(r.range_km),
        sendable_u16(r.time_min),
        sendable_i16(r.motor_power_w),
    ensures
        r.wire_bytes().len() == 6,
        Estimations::spec_parse(r.wire_bytes()) == Some(r),
{
    let d = r.wire_bytes();
    assert(d.len() == 6);
    assert(d.subrange(0, 2) =~= opt_u16_bytes(r.range_km));
    lemma_opt_u16_at(d, 0, r.range_km);
    assert(d.subrange(2, 4) =~= opt_u16_bytes(r.time_min));
    lemma_opt_u16_at(d, 2, r.time_min);
    assert(d.subrange(4, 6) =~= opt_i16_bytes(r.motor_power_w));
    lemma_opt_i16_at(d, 4, r.motor_power_w);
}

impl Racing {
    /// The wire form of the record: mode and curve bytes, the throttle multiplier (`u16`), the
    /// category byte, then the expiry timestamp (`u32`); little-endian.
    pub open spec fn wire_bytes(self) -> Seq<u8> {
        seq![self.mode] + seq![self.curve] + u16_bytes(self.throttle_multiplier)
            + seq![self.category] + u32_bytes(self.expire_timestamp)
    }
}

/// Decoding the wire form of a record gives the record back: every field is
/// read from its own place in the layout, in the layout's order.
pub proof fn lemma_racing_wire(r: Racing)
    ensures
        r.wire_bytes().len() == 9,
        Racing::spec_parse(r.wire_bytes()) == Some(r),
{
    let d = r.wire_bytes();
    assert(d.len() == 9);
    assert(d.subrange(0, 1) =~= seq![r.mode]);
    assert(d[0] == d.subrange(0, 1)[0]);
    assert(d.subrange(1, 2) =~= seq![r.curve]);
    assert(d[1] == d.subrange(1, 2)[0]);
    assert(d.subrange(2, 4) =~= u16_bytes(r.throttle_multiplier));
    lemma_u16_at(d, 2, r.throttle_multiplier);
    assert(d.subrange(4, 5) =~= seq![r.category]);
    assert(d[4] == d.subrange(4, 5)[0]);
    assert(d.subrange(5, 9) =~= u32_bytes(r.expire_timestamp));
    lemma_u32_at(d, 5, r.expire_timestamp);
}

/// The bytes of the component entries of a versions record: for each
/// component in order, its installed version slot then its available one.
pub open spec fn component_bytes(cs: Seq<((u8, u8, u8), (u8, u8, u8))>) -> Seq<u8>
    decreases cs.len(),
{
    if cs.len() == 0 {
        Seq::empty()
    } else {
        component_bytes(cs.drop_last()) + version_bytes(cs.last().0) + version_bytes(cs.last().1)
    }
}

proof fn lemma_component_bytes(cs: Seq<((u8, u8, u8), (u8, u8, u8))>)
    ensures
        component_bytes(cs).len() == 8 * cs.len(),
        forall|i: int|
            0 <= i < cs.len() ==> #[trigger] version_text(component_bytes(cs), 8 * i)
                == version_string(cs[i].0) && version_text(component_bytes(cs), 8 * i + 4)
                == version_string(cs[i].1),
    decreases cs.len(),
{
    if cs.len() > 0 {
        let q = cs.drop_last();
        lemma_component_bytes(q);
        let p = component_bytes(cs);
        let qb = component_bytes(q);
        let n: int = 8 * q.len() as int;
        assert forall|i: int| 0 <= i < cs.len() implies #[trigger] version_text(p, 8 * i)
            == version_string(cs[i].0) && version_text(p, 8 * i + 4) == version_string(cs[i].1) by {
            if i < q.len() {
                assert(p[8 * i] == qb[8 * i] && p[8 * i + 1] == qb[8 * i + 1] && p[8 * i + 2]
                    == qb[8 * i + 2]);
                assert(p[8 * i + 4] == qb[8 * i + 4] && p[8 * i + 5] == qb[8 * i + 5] && p[8 * i
                    + 6] == qb[8 * i + 6]);
                assert(version_text(qb, 8 * i) == version_string(q[i].0));
                assert(version_text(qb, 8 * i + 4) == version_string(q[i].1));
            } else {
                assert(p.subrange(n, n + 4) =~= version_bytes(cs.last().0));
                assert(p.subrange(n + 4, n + 8) =~= version_bytes(cs.last().1));
                lemma_version_at(p, n, cs.last().0);
                lemma_version_at(p, n + 4, cs.last().1);
            }
        }
    }
}

/// The wire form of a versions record: the BLE version (`u16`), the
/// download percentage (`i16`), the blob file-system and server version
/// slots, then the eleven components' installed and available slots.
pub open spec fn versions_wire(
    ble: u16,
    download: i16,
    blob_fs: (u8, u8, u8),
    blob_server: (u8, u8, u8),
    cs: Seq<((u8, u8, u8), (u8, u8, u8))>,
) -> Seq<u8> {
    u16_bytes(ble) + i16_bytes(download) + version_bytes(blob_fs) + version_bytes(blob_server)
        + component_bytes(cs)
}

/// Decoding the wire form of a versions record gives every version back as
/// text, each component under its name in the fixed order.
pub proof fn lemma_bike_versions_wire(
    ble: u16,
    download: i16,
    blob_fs: (u8, u8, u8),
    blob_server: (u8, u8, u8),
    cs: Seq<((u8, u8, u8), (u8, u8, u8))>,
)
    requires
        cs.len() == COMPONENT_COUNT,
    ensures
        BikeVersions::spec_parse(versions_wire(ble, download, blob_fs, blob_server, cs)) == Some(
            BikeVersionsView {
                ble_version: ble,
                download_percent: download,
                blob_fs: version_string(blob_fs),
                blob_server: version_string(blob_server),
                components: Seq::new(
                    COMPONENT_COUNT as nat,
                    |i: int|
                        ComponentVersionView {
                            name: component_label(i),
                            version: version_string(cs[i].0),
                            available: version_string(cs[i].1),
                        },
                ),
            },
        ),
{
    lemma_component_bytes(cs);
    let d = versions_wire(ble, download, blob_fs, blob_server, cs);
    let p = component_bytes(cs);
    assert(d.len() == 100);
    assert(d.subrange(0, 2) =~= u16_bytes(ble));
    assert(d.subrange(2, 4) =~= i16_bytes(download));
    assert(d.subrange(4, 8) =~= version_bytes(blob_fs));
    assert(d.subrange(8, 12) =~= version_bytes(blob_server));
    lemma_u16_at(d, 0, ble);
    lemma_i16_at(d, 2, download);
    lemma_version_at(d, 4, blob_fs);
    lemma_version_at(d, 8, blob_server);
    let comps = Seq::new(COMPONENT_COUNT as nat, |i: int| component_entry(d, i));
    let want = Seq::new(
        COMPONENT_COUNT as nat,
        |i: int|
            ComponentVersionView {
                name: component_label(i),
                version: version_string(cs[i].0),
                available: version_string(cs[i].1),
            },
    );
    assert forall|i: int| 0 <= i < COMPONENT_COUNT implies #[trigger] comps[i] == want[i] by {
        assert(d[12 + 8 * i] == p[8 * i] && d[13 + 8 * i] == p[8 * i + 1] && d[14 + 8 * i]
            == p[8 * i + 2]);
        assert(d[16 + 8 * i] == p[8 * i + 4] && d[17 + 8 * i] == p[8 * i + 5] && d[18 + 8 * i]
            == p[8 * i + 6]);
        assert(version_text(p, 8 * i) == version_string(cs[i].0));
        assert(version_text(p, 8 * i + 4) == version_string(cs[i].1));
    }
    assert(comps =~= want);
}

} // verus!
