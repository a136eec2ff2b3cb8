//! VCU configuration (characteristic 0x4005): request packets, response
//! filtering and the decoders for each configuration type.
//!
//! Read request: `[0x00, type, ...payload]`; the bike answers with a
//! notification `[0x02, type, status, ...data]`.

use vstd::prelude::*;

use crate::decode::{le_i16, le_u16, le_u32, read_i16, read_u16, read_u32};
use crate::protocol::UUID_VCU_CONFIG;

use crate::decode::{
    i16_bytes, lemma_i16_at, lemma_u16_at, lemma_u32_at, u16_bytes, u32_bytes,
};

verus! {

/// Arguments of the configuration reader.
pub struct ConfigArgs {
    /// VIN of the target bike.
    pub vin: String,
    /// Sold-on date (YYYYMMDD). Defaults to the epoch fallback.
    pub sold_on: String,
    /// Seconds to scan for the bike before giving up.
    pub scan_timeout: u64,
    /// How many map slots to read (default: 5, matching the bike's capacity).
    pub slots: u8,
    /// How many throttle curves to read (default: 5).
    pub curves: u8,
}

/// VCU Config packet type IDs.
pub const TYPE_MAP_CONFIG: u8 = 0;
pub const TYPE_CURVES_CONFIG: u8 = 1;
pub const TYPE_RACING_CONFIG: u8 = 2;
pub const TYPE_MISC_CONFIG: u8 = 3;
pub const TYPE_CHARGER_CONFIG: u8 = 4;
pub const TYPE_LOCK_CONFIG: u8 = 5;
pub const TYPE_TOTALS_CONFIG: u8 = 7;

/// A read request for configuration type `config_type`: `[0x00, type]`
/// followed by the type's read payload (slot, curve index or flags).
pub fn read_request(config_type: u8, payload: &[u8]) -> (req: Vec<u8>)
    ensures
        req@ == seq![0x00u8, config_type] + payload@,
{
    let mut req: Vec<u8> = Vec::new();
    req.push(0x00);
    req.push(config_type);
    req.extend_from_slice(payload);
    assert(req@ =~= seq![0x00u8, config_type] + payload@);
    req
}

/// Whether a notification is the response to a read of `expected_type`:
/// it comes from the VCU Config characteristic, is a response
/// (`readWrite == 2`) and carries the expected type byte. Stale echoes and
/// responses to other types are filtered out this way.
pub open spec fn is_response_to(uuid: u128, value: Seq<u8>, expected_type: u8) -> bool {
    uuid == UUID_VCU_CONFIG && value.len() >= 2 && value[0] == 2 && value[1] == expected_type
}

/// Whether a notification answers a read of `expected_type`.
pub fn is_config_response(uuid: u128, value: &[u8], expected_type: u8) -> (r: bool)
    ensures
        r == is_response_to(uuid, value@, expected_type),
{
    uuid == UUID_VCU_CONFIG && value.len() >= 2 && value[0] == 2 && value[1] == expected_type
}

/// The data of a response: everything after the 3-byte header
/// `[readWrite, type, status]`.
pub fn config_response_data(value: &[u8]) -> (data: Vec<u8>)
    requires
        value@.len() >= 3,
    ensures
        data@ == value@.subrange(3, value@.len() as int),
{
    vstd::slice::slice_to_vec(&value[3..value.len()])
}

/// Parsed map configuration from the bike.
#[derive(Debug, Clone, Copy, PartialEq, Eq)]
pub struct MapConfig {
    pub slot: u8,
    pub torque_raw: i16,
    pub regen: i16,
    pub curve: u8,
}

impl MapConfig {
    /// What `parse` yields for the response data `[slot, torque_lo,
    /// torque_hi, regen_lo, regen_hi, curve]`: `None` when shorter than 6 bytes.
    pub open spec fn spec_parse(data: Seq<u8>) -> Option<MapConfig> {
        if data.len() < 6 {
            None
        } else {
            Some(
                MapConfig {
                    slot: data[0],
                    torque_raw: le_i16(data, 1),
                    regen: le_i16(data, 3),
                    curve: data[5],
                },
            )
        }
    }

    pub fn parse(data: &[u8]) -> (r: Option<Self>)
        ensures
            r == Self::spec_parse(data@),
    {
        if data.len() < 6 {
            return None;
        }
        Some(
            Self {
                slot: data[0],
                torque_raw: read_i16(data, 1),
                regen: read_i16(data, 3),
                curve: data[5],
            },
        )
    }
}

/// Parsed throttle curve from the bike.
/// 15 points mapping throttle input to torque and regen output.
#[derive(Debug, Clone)]
pub struct CurvesConfig {
    pub curve_index: u8,
    /// 15 torque output values (u16 each).
    pub torque: Vec<u16>,
    /// 15 regen output values (u16 each).
    pub regen: Vec<u16>,
}

/// The number of RPM points of a curve (0 to 14,000 RPM in 1,000 RPM steps).
pub const CURVE_POINTS: usize = 15;

/// The torque values of a curve response: point `i` at offset `1 + 4i`.
pub open spec fn curve_torque(data: Seq<u8>) -> Seq<u16> {
    Seq::new(CURVE_POINTS as nat, |i: int| le_u16(data, 1 + 4 * i))
}

/// The regen values of a curve response: point `i` at offset `3 + 4i`.
pub open spec fn curve_regen(data: Seq<u8>) -> Seq<u16> {
    Seq::new(CURVE_POINTS as nat, |i: int| le_u16(data, 3 + 4 * i))
}

impl CurvesConfig {
    /// Whether `parse` accepts `data`: a curve index and 15 points of 4 bytes.
    pub open spec fn parses(data: Seq<u8>) -> bool {
        data.len() >= 61
    }

    pub fn parse(data: &[u8]) -> (r: Option<Self>)
        ensures
            r is Some <==> Self::parses(data@),
            r matches Some(c) ==> c.curve_index == data@[0] && c.torque@ == curve_torque(data@)
                && c.regen@ == curve_regen(data@),
    {
        if data.len() < 61 {
            return None;
        }
        let curve_index = data[0];
        let mut torque: Vec<u16> = Vec::with_capacity(CURVE_POINTS);
        let mut regen: Vec<u16> = Vec::with_capacity(CURVE_POINTS);
        let mut i: usize = 0;
        while i < CURVE_POINTS
            invariant
                i <= CURVE_POINTS,
                data@.len() >= 61,
                torque@ =~= Seq::new(i as nat, |j: int| le_u16(data@, 1 + 4 * j)),
                regen@ =~= Seq::new(i as nat, |j: int| le_u16(data@, 3 + 4 * j)),
            decreases CURVE_POINTS - i,
        {
            let off = i * 4;
            torque.push(read_u16(data, off + 1));
            regen.push(read_u16(data, off + 3));
            i = i + 1;
        }
        Some(Self { curve_index, torque, regen })
    }
}

/// Parsed racing configuration from the bike.
#[derive(Debug, Clone, Copy, PartialEq, Eq)]
pub struct RacingConfig {
    pub mode: u8,
    pub curve: u8,
    pub neutral_on: u8,
    pub neutral_off: u8,
    pub engage: u8,
    pub category: u8,
    pub expire_timestamp: u32,
}

impl RacingConfig {
    /// What `parse` yields for `data`: `None` when shorter than 10 bytes.
    pub open spec fn spec_parse(data: Seq<u8>) -> Option<RacingConfig> {
        if data.len() < 10 {
            None
        } else {
            Some(
                RacingConfig {
                    mode: data[0],
                    curve: data[1],
                    neutral_on: data[2],
                    neutral_off: data[3],
                    engage: data[4],
                    category: data[5],
                    expire_timestamp: le_u32(data, 6),
                },
            )
        }
    }

    pub fn parse(data: &[u8]) -> (r: Option<Self>)
        ensures
            r == Self::spec_parse(data@),
    {
        if data.len() < 10 {
            return None;
        }
        Some(
            Self {
                mode: data[0],
                curve: data[1],
                neutral_on: data[2],
                neutral_off: data[3],
                engage: data[4],
                category: data[5],
                expire_timestamp: read_u32(data, 6),
            },
        )
    }
}

/// Parsed misc configuration from the bike.
#[derive(Debug, Clone, Copy, PartialEq, Eq)]
pub struct MiscConfig {
    /// Number of configured power mode slots.
    pub maps: u8,
    /// Inactivity timeout (likely seconds or minutes).
    pub inactive_timeout: u16,
    /// Auto power off timeout (likely seconds or minutes).
    pub auto_power_off: u16,
}

impl MiscConfig {
    /// What `parse` yields for `data`: `None` when shorter than 5 bytes.
    pub open spec fn spec_parse(data: Seq<u8>) -> Option<MiscConfig> {
        if data.len() < 5 {
            None
        } else {
            Some(
                MiscConfig {
                    maps: data[0],
                    inactive_timeout: le_u16(data, 1),
                    auto_power_off: le_u16(data, 3),
                },
            )
        }
    }

    pub fn parse(data: &[u8]) -> (r: Option<Self>)
        ensures
            r == Self::spec_parse(data@),
    {
        if data.len() < 5 {
            return None;
        }
        Some(
            Self {
                maps: data[0],
                inactive_timeout: read_u16(data, 1),
                auto_power_off: read_u16(data, 3),
            },
        )
    }
}

/// Parsed charger configuration from the bike.
#[derive(Debug, Clone, Copy, PartialEq, Eq)]
pub struct ChargerConfig {
    pub charge_current: i16,
    pub charge_power: i16,
    pub max_soc: i16,
    pub min_current: i16,
    pub start_time: i16,
    pub ramp_time: i16,
}

impl ChargerConfig {
    /// What `parse` yields for `data`: `None` when shorter than 12 bytes.
    pub open spec fn spec_parse(data: Seq<u8>) -> Option<ChargerConfig> {
        if data.len() < 12 {
            None
        } else {
            Some(
                ChargerConfig {
                    charge_current: le_i16(data, 0),
                    charge_power: le_i16(data, 2),
                    max_soc: le_i16(data, 4),
                    min_current: le_i16(data, 6),
                    start_time: le_i16(data, 8),
                    ramp_time: le_i16(data, 10),
                },
            )
        }
    }

    pub fn parse(data: &[u8]) -> (r: Option<Self>)
        ensures
            r == Self::spec_parse(data@),
    {
        if data.len() < 12 {
            return None;
        }
        Some(
            Self {
                charge_current: read_i16(data, 0),
                charge_power: read_i16(data, 2),
                max_soc: read_i16(data, 4),
                min_current: read_i16(data, 6),
                start_time: read_i16(data, 8),
                ramp_time: read_i16(data, 10),
            },
        )
    }
}

/// Parsed lock configuration from the bike.
#[derive(Debug, Clone, Copy, PartialEq, Eq)]
pub struct LockBikeConfig {
    pub lock_status: u8,
    pub lock_type: u8,
    pub lock_timeout: u16,
}

impl LockBikeConfig {
    /// What `parse` yields for `data`: `None` when shorter than 4 bytes.
    pub open spec fn spec_parse(data: Seq<u8>) -> Option<LockBikeConfig> {
        if data.len() < 4 {
            None
        } else {
            Some(
                LockBikeConfig {
                    lock_status: data[0],
                    lock_type: data[1],
                    lock_timeout: le_u16(data, 2),
                },
            )
        }
    }

    pub fn parse(data: &[u8]) -> (r: Option<Self>)
        ensures
            r == Self::spec_parse(data@),
    {
        if data.len() < 4 {
            return None;
        }
        Some(Self { lock_status: data[0], lock_type: data[1], lock_timeout: read_u16(data, 2) })
    }
}

/// Parsed totals configuration from the bike.
/// Variable length depending on which flags were requested.
#[derive(Debug, Clone, Copy, PartialEq, Eq)]
pub struct TotalsConfig {
    pub flags: u16,
    /// Odometer in meters (present if flags & 1).
    pub odometer_m: Option<u32>,
    /// Total ride time in seconds (present if flags & 2).
    pub total_ride_time_s: Option<u32>,
}

impl TotalsConfig {
    /// What `parse` yields for `data`: `None` when shorter than 2 bytes;
    /// otherwise the flags, then the odometer when bit 0 is set and 4 bytes
    /// follow, then the ride time when bit 1 is set and 4 more bytes follow
    /// (right after the flags if the odometer is absent).
    pub open spec fn spec_parse(data: Seq<u8>) -> Option<TotalsConfig> {
        if data.len() < 2 {
            None
        } else {
            let flags = le_u16(data, 0);
            let has_odo = flags % 2 == 1 && 6 <= data.len();
            let next: int = if has_odo { 6 } else { 2 };
            let has_time = (flags / 2) % 2 == 1 && next + 4 <= data.len();
            Some(
                TotalsConfig {
                    flags,
                    odometer_m: if has_odo { Some(le_u32(data, 2)) } else { None },
                    total_ride_time_s: if has_time { Some(le_u32(data, next)) } else { None },
                },
            )
        }
    }

    pub fn parse(data: &[u8]) -> (r: Option<Self>)
        ensures
            r == Self::spec_parse(data@),
    {
        let len = data.len();
        if len < 2 {
            return None;
        }
        let flags = read_u16(data, 0);
        assert((flags & 1 != 0) == (flags % 2 == 1)) by (bit_vector);
        assert((flags & 2 != 0) == ((flags / 2) % 2 == 1)) by (bit_vector);
        let mut offset: usize = 2;

        let odometer_m = if flags & 1 != 0 && offset + 4 <= len {
            let v = read_u32(data, offset);
            offset = offset + 4;
            Some(v)
        } else {
            None
        };

        let total_ride_time_s = if flags & 2 != 0 && offset + 4 <= len {
            Some(read_u32(data, offset))
        } else {
            None
        };

        Some(Self { flags, odometer_m, total_ride_time_s })
    }
}

impl MapConfig {
    /// The wire form of the record: the slot, the raw torque and regen (`i16` each, little-endian),
    /// then the curve.
    pub open spec fn wire_bytes(self) -> Seq<u8> {
        seq![self.slot] + i16_bytes(self.torque_raw) + i16_bytes(self.regen) + seq![self.curve]
    }
}

/// Decoding the wire form of a record gives the record back: every field is
/// read from its own place in the layout, in the layout's order.
pub proof fn lemma_map_config_wire(r: MapConfig)
    ensures
        r.wire_bytes().len() == 6,
        MapConfig::spec_parse(r.wire_bytes()) == Some(r),
{
    let d = r.wire_bytes();
    assert(d.len() == 6);
    assert(d.subrange(0, 1) =~= seq![r.slot]);
    assert(d[0] == d.subrange(0, 1)[0]);
    assert(d.subrange(1, 3) =~= i16_bytes(r.torque_raw));
    lemma_i16_at(d, 1, r.torque_raw);
    assert(d.subrange(3, 5) =~= i16_bytes(r.regen));
    lemma_i16_at(d, 3, r.regen);
    assert(d.subrange(5, 6) =~= seq![r.curve]);
    assert(d[5] == d.subrange(5, 6)[0]);
}

impl RacingConfig {
    /// The wire form of the record: mode, curve, neutral-on, neutral-off, engage and category
    /// bytes, then the expiry timestamp (`u32`, little-endian).
    pub open spec fn wire_bytes(self) -> Seq<u8> {
        seq![self.mode] + seq![self.curve] + seq![self.neutral_on] + seq![self.neutral_off]
            + seq![self.engage] + seq![self.category] + u32_bytes(self.expire_timestamp)
    }
}

/// Decoding the wire form of a record gives the record back: every field is
/// read from its own place in the layout, in the layout's order.
pub proof fn lemma_racing_config_wire(r: RacingConfig)
    ensures
        r.wire_bytes().len() == 10,
        RacingConfig::spec_parse(r.wire_bytes()) == Some(r),
{
    let d = r.wire_bytes();
    assert(d.len() == 10);
    assert(d.subrange(0, 1) =~= seq![r.mode]);
    assert(d[0] == d.subrange(0, 1)[0]);
    assert(d.subrange(1, 2) =~= seq![r.curve]);
    assert(d[1] == d.subrange(1, 2)[0]);
    assert(d.subrange(2, 3) =~= seq![r.neutral_on]);
    assert(d[2] == d.subrange(2, 3)[0]);
    assert(d.subrange(3, 4) =~= seq![r.neutral_off]);
    assert(d[3] == d.subrange(3, 4)[0]);
    assert(d.subrange(4, 5) =~= seq![r.engage]);
    assert(d[4] == d.subrange(4, 5)[0]);
    assert(d.subrange(5, 6) =~= seq![r.category]);
    assert(d[5] == d.subrange(5, 6)[0]);
    assert(d.subrange(6, 10) =~= u32_bytes(r.expire_timestamp));
    lemma_u32_at(d, 6, r.expire_timestamp);
}

impl MiscConfig {
    /// The wire form of the record: the number of maps, then the inactivity timeout and the auto
    /// power-off (`u16` each, little-endian).
    pub open spec fn wire_bytes(self) -> Seq<u8> {
        seq![self.maps] + u16_bytes(self.inactive_timeout) + u16_bytes(self.auto_power_off)
    }
}

/// Decoding the wire form of a record gives the record back: every field is
/// read from its own place in the layout, in the layout's order.
pub proof fn lemma_misc_config_wire(r: MiscConfig)
    ensures
        r.wire_bytes().len() == 5,
        MiscConfig::spec_parse(r.wire_bytes()) == Some(r),
{
    let d = r.wire_bytes();
    assert(d.len() == 5);
    assert(d.subrange(0, 1) =~= seq![r.maps]);
    assert(d[0] == d.subrange(0, 1)[0]);
    assert(d.subrange(1, 3) =~= u16_bytes(r.inactive_timeout));
    lemma_u16_at(d, 1, r.inactive_timeout);
    assert(d.subrange(3, 5) =~= u16_bytes(r.auto_power_off));
    lemma_u16_at(d, 3, r.auto_power_off);
}

impl ChargerConfig {
    /// The wire form of the record: charge current, charge power, maximum SOC, minimum current,
    /// start time, ramp time (`i16` each, little-endian).
    pub open spec fn wire_bytes(self) -> Seq<u8> {
        i16_bytes(self.charge_current) + i16_bytes(self.charge_power) + i16_bytes(self.max_soc)
            + i16_bytes(self.min_current) + i16_bytes(self.start_time) + i16_bytes(self.ramp_time)
    }
}

/// Decoding the wire form of a record gives the record back: every field is
/// read from its own place in the layout, in the layout's order.
pub proof fn lemma_charger_config_wire(r: ChargerConfig)
    ensures
        r.wire_bytes().len() == 12,
        ChargerConfig::spec_parse(r.wire_bytes()) == Some(r),
{
    let d = r.wire_bytes();
    assert(d.len() == 12);
    assert(d.subrange(0, 2) =~= i16_bytes(r.charge_current));
    lemma_i16_at(d, 0, r.charge_current);
    assert(d.subrange(2, 4) =~= i16_bytes(r.charge_power));
    lemma_i16_at(d, 2, r.charge_power);
    assert(d.subrange(4, 6) =~= i16_bytes(r.max_soc));
    lemma_i16_at(d, 4, r.max_soc);
    assert(d.subrange(6, 8) =~= i16_bytes(r.min_current));
    lemma_i16_at(d, 6, r.min_current);
    assert(d.subrange(8, 10) =~= i16_bytes(r.start_time));
    lemma_i16_at(d, 8, r.start_time);
    assert(d.subrange(10, 12) =~= i16_bytes(r.ramp_time));
    lemma_i16_at(d, 10, r.ramp_time);
}

impl LockBikeConfig {
    /// The wire form of the record: lock status and lock type bytes, then the timeout (`u16`,
    /// little-endian).
    pub open spec fn wire_bytes(self) -> Seq<u8> {
        seq![self.lock_status] + seq![self.lock_type] + u16_bytes(self.lock_timeout)
    }
}

/// Decoding the wire form of a record gives the record back: every field is
/// read from its own place in the layout, in the layout's order.
pub proof fn lemma_lock_bike_config_wire(r: LockBikeConfig)
    ensures
        r.wire_bytes().len() == 4,
        LockBikeConfig::spec_parse(r.wire_bytes()) == Some(r),
{
    let d = r.wire_bytes();
    assert(d.len() == 4);
    assert(d.subrange(0, 1) =~= seq![r.lock_status]);
    assert(d[0] == d.subrange(0, 1)[0]);
    assert(d.subrange(1, 2) =~= seq![r.lock_type]);
    assert(d[1] == d.subrange(1, 2)[0]);
    assert(d.subrange(2, 4) =~= u16_bytes(r.lock_timeout));
    lemma_u16_at(d, 2, r.lock_timeout);
}

/// The bytes of a curve's points as a read response carries them: for each
/// point in order, its torque then its regen (`u16` each, little-endian).
pub open spec fn curve_points_bytes(t: Seq<u16>, r: Seq<u16>) -> Seq<u8>
    decreases t.len(),
{
    if t.len() == 0 || r.len() == 0 {
        Seq::empty()
    } else {
        curve_points_bytes(t.drop_last(), r.drop_last()) + u16_bytes(t.last()) + u16_bytes(
            r.last(),
        )
    }
}

proof fn lemma_curve_points_bytes(t: Seq<u16>, r: Seq<u16>)
    requires
        t.len() == r.len(),
    ensures
        curve_points_bytes(t, r).len() == 4 * t.len(),
        forall|i: int|
            0 <= i < t.len() ==> #[trigger] le_u16(curve_points_bytes(t, r), 4 * i) == t[i]
                && le_u16(curve_points_bytes(t, r), 4 * i + 2) == r[i],
    decreases t.len(),
{
    if t.len() > 0 {
        let (tp, rp) = (t.drop_last(), r.drop_last());
        lemma_curve_points_bytes(tp, rp);
        let p = curve_points_bytes(t, r);
        let q = curve_points_bytes(tp, rp);
        let n: int = 4 * tp.len() as int;
        assert forall|i: int| 0 <= i < t.len() implies #[trigger] le_u16(p, 4 * i) == t[i]
            && le_u16(p, 4 * i + 2) == r[i] by {
            if i < tp.len() {
                assert(p[4 * i] == q[4 * i] && p[4 * i + 1] == q[4 * i + 1]);
                assert(p[4 * i + 2] == q[4 * i + 2] && p[4 * i + 3] == q[4 * i + 3]);
                assert(le_u16(q, 4 * i) == tp[i]);
                assert(le_u16(q, 4 * i + 2) == rp[i]);
            } else {
                assert(p.subrange(n, n + 2) =~= u16_bytes(t.last()));
                assert(p.subrange(n + 2, n + 4) =~= u16_bytes(r.last()));
                lemma_u16_at(p, n, t.last());
                lemma_u16_at(p, n + 2, r.last());
            }
        }
    }
}

/// A curve read response for curve `index` with the given 15 torque and
/// regen points decodes to exactly that curve: the index, then each torque
/// and regen point in order.
pub proof fn lemma_curve_response_wire(index: u8, t: Seq<u16>, r: Seq<u16>)
    requires
        t.len() == CURVE_POINTS,
        r.len() == CURVE_POINTS,
    ensures
        CurvesConfig::parses(seq![index] + curve_points_bytes(t, r)),
        (seq![index] + curve_points_bytes(t, r))[0] == index,
        curve_torque(seq![index] + curve_points_bytes(t, r)) == t,
        curve_regen(seq![index] + curve_points_bytes(t, r)) == r,
{
    lemma_curve_points_bytes(t, r);
    let p = curve_points_bytes(t, r);
    let d = seq![index] + p;
    assert forall|i: int|
        #![trigger t[i]]
        #![trigger r[i]]
        0 <= i < CURVE_POINTS implies le_u16(d, 1 + 4 * i) == t[i] && le_u16(d, 3 + 4 * i)
            == r[i] by {
        assert(d[1 + 4 * i] == p[4 * i] && d[2 + 4 * i] == p[4 * i + 1]);
        assert(d[3 + 4 * i] == p[4 * i + 2] && d[4 + 4 * i] == p[4 * i + 3]);
        assert(le_u16(p, 4 * i) == t[i]);
        assert(le_u16(p, 4 * i + 2) == r[i]);
    }
    assert(curve_torque(d) =~= t);
    assert(curve_regen(d) =~= r);
}

/// The bytes of a totals-config response with the given flags: the flags
/// (`u16`), then the odometer (`u32`) when bit 0 is set, then the total
/// ride time (`u32`) when bit 1 is set; little-endian.
pub open spec fn totals_wire(flags: u16, odometer: u32, ride_time: u32) -> Seq<u8> {
    u16_bytes(flags) + (if flags % 2 == 1 { u32_bytes(odometer) } else { Seq::empty() }) + (
    if (flags / 2) % 2 == 1 {
        u32_bytes(ride_time)
    } else {
        Seq::empty()
    })
}

/// A totals-config response decodes to its flags and to exactly the values
/// the flags announce.
pub proof fn lemma_totals_config_wire(flags: u16, odometer: u32, ride_time: u32)
    ensures
        TotalsConfig::spec_parse(totals_wire(flags, odometer, ride_time)) == Some(
            TotalsConfig {
                flags,
                odometer_m: if flags % 2 == 1 { Some(odometer) } else { None },
                total_ride_time_s: if (flags / 2) % 2 == 1 { Some(ride_time) } else { None },
            },
        ),
{
    let d = totals_wire(flags, odometer, ride_time);
    assert(d.subrange(0, 2) =~= u16_bytes(flags));
    lemma_u16_at(d, 0, flags);
    if flags % 2 == 1 {
        assert(d.subrange(2, 6) =~= u32_bytes(odometer));
        lemma_u32_at(d, 2, odometer);
        if (flags / 2) % 2 == 1 {
            assert(d.subrange(6, 10) =~= u32_bytes(ride_time));
            lemma_u32_at(d, 6, ride_time);
        }
    } else if (flags / 2) % 2 == 1 {
        assert(d.subrange(2, 6) =~= u32_bytes(ride_time));
        lemma_u32_at(d, 2, ride_time);
    }
}

} // verus!
