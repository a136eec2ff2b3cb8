//! Decoders for service 0x6000 — Battery.

use vstd::prelude::*;

use super::{le_u16, le_u32, opt_i16, opt_i16_at, opt_u16, opt_u16_at, read_u16, read_u32, view_opt};
use crate::text::{lemma_version_at, read_version, version_bytes, version_string, version_text};

use crate::decode::{
    lemma_opt_i16_at, lemma_opt_u16_at, lemma_opt_u16_words_at, lemma_opt_u16_words_len,
    lemma_u16_at, lemma_u32_at, opt_i16_bytes, opt_u16_bytes, opt_u16_words, sendable_i16,
    sendable_run, sendable_u16, u16_bytes, u32_bytes,
};

verus! {

/// 0x6001 — Battery fault bits (8 bytes).
#[derive(Debug, Clone, Copy, Default, PartialEq, Eq)]
pub struct BatteryStatus {
    pub fault_bits_pos: u32,
    pub fault_bits_neg: u32,
}

impl View for BatteryStatus {
    type V = BatteryStatus;

    open spec fn view(&self) -> BatteryStatus {
        *self
    }
}

impl BatteryStatus {
    /// What `parse` yields for `data`: `None` when shorter than 8 bytes.
    pub open spec fn spec_parse(data: Seq<u8>) -> Option<BatteryStatus> {
        if data.len() < 8 {
            None
        } else {
            Some(BatteryStatus { fault_bits_pos: le_u32(data, 0), fault_bits_neg: le_u32(data, 4) })
        }
    }

    pub fn parse(data: &[u8]) -> (r: Option<Self>)
        ensures
            view_opt(r) == Self::spec_parse(data@),
    {
        if data.len() < 8 {
            return None;
        }
        Some(Self { fault_bits_pos: read_u32(data, 0), fault_bits_neg: read_u32(data, 4) })
    }

    /// Whether either half of the pack reports a fault bit.
    pub fn has_faults(&self) -> (r: bool)
        ensures
            r == (self.fault_bits_pos != 0 || self.fault_bits_neg != 0),
    {
        self.fault_bits_pos != 0 || self.fault_bits_neg != 0
    }
}

/// 0x6002 — Battery firmware versions (12 bytes).
#[derive(Debug, Clone)]
pub struct BatteryFirmwareVersion {
    pub pos_version: String,
    pub neg_version: String,
    pub serial: u32,
}

/// The abstract value of a [`BatteryFirmwareVersion`].
pub ghost struct BatteryFirmwareVersionView {
    pub pos_version: Seq<char>,
    pub neg_version: Seq<char>,
    pub serial: u32,
}

impl View for BatteryFirmwareVersion {
    type V = BatteryFirmwareVersionView;

    open spec fn view(&self) -> BatteryFirmwareVersionView {
        BatteryFirmwareVersionView {
            pos_version: self.pos_version@,
            neg_version: self.neg_version@,
            serial: self.serial,
        }
    }
}

impl BatteryFirmwareVersion {
    /// What `parse` yields for `data`: `None` when shorter than 12 bytes.
    pub open spec fn spec_parse(data: Seq<u8>) -> Option<BatteryFirmwareVersionView> {
        if data.len() < 12 {
            None
        } else {
            Some(BatteryFirmwareVersionView {
                pos_version: version_text(data, 0),
                neg_version: version_text(data, 4),
                serial: le_u32(data, 8),
            })
        }
    }

    pub fn parse(data: &[u8]) -> (r: Option<Self>)
        ensures
            view_opt(r) == Self::spec_parse(data@),
    {
        if data.len() < 12 {
            return None;
        }
        Some(Self {
            pos_version: read_version(data, 0),
            neg_version: read_version(data, 4),
            serial: read_u32(data, 8),
        })
    }
}

/// 0x6003 — Battery parameters (4 bytes).
#[derive(Debug, Clone, Copy, Default, PartialEq, Eq)]
pub struct BatteryParams {
    pub series: u8,
    pub parallel: u8,
    pub capacity: u16,
}

impl View for BatteryParams {
    type V = BatteryParams;

    open spec fn view(&self) -> BatteryParams {
        *self
    }
}

impl BatteryParams {
    /// What `parse` yields for `data`: `None` when shorter than 4 bytes.
    pub open spec fn spec_parse(data: Seq<u8>) -> Option<BatteryParams> {
        if data.len() < 4 {
            None
        } else {
            Some(BatteryParams { series: data[0], parallel: data[1], capacity: le_u16(data, 2) })
        }
    }

    pub fn parse(data: &[u8]) -> (r: Option<Self>)
        ensures
            view_opt(r) == Self::spec_parse(data@),
    {
        if data.len() < 4 {
            return None;
        }
        Some(Self { series: data[0], parallel: data[1], capacity: read_u16(data, 2) })
    }
}

/// 0x6004 — Battery state of charge (6 bytes).
#[derive(Debug, Clone, Copy, Default, PartialEq, Eq)]
pub struct BatterySoc {
    pub soc: Option<u16>,
    pub soh: Option<u16>,
    pub dc_bus: Option<u16>,
}

impl View for BatterySoc {
    type V = BatterySoc;

    open spec fn view(&self) -> BatterySoc {
        *self
    }
}

impl BatterySoc {
    /// What `parse` yields for `data`: `None` when shorter than 6 bytes.
    pub open spec fn spec_parse(data: Seq<u8>) -> Option<BatterySoc> {
        if data.len() < 6 {
            None
        } else {
            Some(
                BatterySoc {
                    soc: opt_u16_at(data, 0),
                    soh: opt_u16_at(data, 2),
                    dc_bus: opt_u16_at(data, 4),
                },
            )
        }
    }

    pub fn parse(data: &[u8]) -> (r: Option<Self>)
        ensures
            view_opt(r) == Self::spec_parse(data@),
    {
        if data.len() < 6 {
            return None;
        }
        Some(Self { soc: opt_u16(data, 0), soh: opt_u16(data, 2), dc_bus: opt_u16(data, 4) })
    }
}

/// 0x6005 — Battery temperatures (27 bytes).
#[derive(Debug, Clone)]
pub struct BatteryTemperatures {
    /// 12 temperature sensor readings (u16 each).
    pub sensors: Vec<Option<u16>>,
    pub valid: u16,
    pub used: u8,
}

/// The abstract value of a [`BatteryTemperatures`].
pub ghost struct BatteryTemperaturesView {
    pub sensors: Seq<Option<u16>>,
    pub valid: u16,
    pub used: u8,
}

impl View for BatteryTemperatures {
    type V = BatteryTemperaturesView;

    open spec fn view(&self) -> BatteryTemperaturesView {
        BatteryTemperaturesView { sensors: self.sensors@, valid: self.valid, used: self.used }
    }
}

/// The `count` optional `u16` readings stored back to back from the start of `data`.
pub open spec fn opt_u16_run(data: Seq<u8>, count: nat) -> Seq<Option<u16>> {
    Seq::new(count, |i: int| opt_u16_at(data, 2 * i))
}

/// Decode `count` consecutive optional `u16` readings from the start of `data`.
pub fn read_opt_u16_run(data: &[u8], count: usize) -> (v: Vec<Option<u16>>)
    requires
        2 * count <= data@.len(),
    ensures
        v@ == opt_u16_run(data@, count as nat),
{
    let mut v: Vec<Option<u16>> = Vec::with_capacity(count);
    let len = data.len();
    let mut i: usize = 0;
    while i < count
        invariant
            i <= count,
            len == data@.len(),
            2 * count <= data@.len(),
            v@ =~= opt_u16_run(data@, i as nat),
        decreases count - i,
    {
        v.push(opt_u16(data, i * 2));
        i = i + 1;
        assert(v@ =~= opt_u16_run(data@, i as nat));
    }
    v
}

impl BatteryTemperatures {
    /// What `parse` yields for `data`: `None` when shorter than 27 bytes.
    pub open spec fn spec_parse(data: Seq<u8>) -> Option<BatteryTemperaturesView> {
        if data.len() < 27 {
            None
        } else {
            Some(
                BatteryTemperaturesView {
                    sensors: opt_u16_run(data, 12),
                    valid: le_u16(data, 24),
                    used: data[26],
                },
            )
        }
    }

    pub fn parse(data: &[u8]) -> (r: Option<Self>)
        ensures
            view_opt(r) == Self::spec_parse(data@),
    {
        if data.len() < 27 {
            return None;
        }
        let sensors = read_opt_u16_run(data, 12);
        Some(Self { sensors, valid: read_u16(data, 24), used: data[26] })
    }
}

/// 0x6007 — Battery cell voltages (200 bytes: 100 x u16).
#[derive(Debug, Clone)]
pub struct BatteryCells {
    pub voltages: Vec<Option<u16>>,
}

/// The abstract value of a [`BatteryCells`].
pub ghost struct BatteryCellsView {
    pub voltages: Seq<Option<u16>>,
}

impl View for BatteryCells {
    type V = BatteryCellsView;

    open spec fn view(&self) -> BatteryCellsView {
        BatteryCellsView { voltages: self.voltages@ }
    }
}

/// How many readings of `s` carry a value.
pub open spec fn count_some(s: Seq<Option<u16>>) -> nat
    decreases s.len(),
{
    if s.len() == 0 {
        0
    } else {
        count_some(s.drop_last()) + if s.last() is Some { 1nat } else { 0nat }
    }
}

proof fn lemma_count_some_bound(s: Seq<Option<u16>>)
    ensures
        count_some(s) <= s.len(),
    decreases s.len(),
{
    if s.len() > 0 {
        lemma_count_some_bound(s.drop_last());
    }
}

/// How many of the first `n` little-endian `u16` readings of `data` are
/// real values, i.e. not the `0xFFFF` "no data" sentinel.
pub open spec fn active_readings(data: Seq<u8>, n: nat) -> nat
    decreases n,
{
    if n == 0 {
        0
    } else {
        active_readings(data, (n - 1) as nat) + if le_u16(data, 2 * (n - 1)) != 0xFFFF {
            1nat
        } else {
            0nat
        }
    }
}

proof fn lemma_count_active(data: Seq<u8>, n: nat)
    ensures
        count_some(opt_u16_run(data, n)) == active_readings(data, n),
        active_readings(data, n) <= n,
    decreases n,
{
    if n > 0 {
        lemma_count_active(data, (n - 1) as nat);
        assert(opt_u16_run(data, n).drop_last() =~= opt_u16_run(data, (n - 1) as nat));
    }
}

/// The active cell count of a cell-voltage record is the number of its 100
/// little-endian `u16` readings that are not `0xFFFF`, so at most 100.
pub proof fn lemma_active_cells_of_bytes(data: Seq<u8>)
    requires
        data.len() >= 200,
    ensures
        BatteryCells::spec_parse(data) matches Some(c) && count_some(c.voltages) == active_readings(
            data,
            100,
        ) && count_some(c.voltages) <= 100,
{
    lemma_count_active(data, 100);
}

impl BatteryCells {
    /// What `parse` yields for `data`: `None` when shorter than 200 bytes.
    pub open spec fn spec_parse(data: Seq<u8>) -> Option<BatteryCellsView> {
        if data.len() < 200 {
            None
        } else {
            Some(BatteryCellsView { voltages: opt_u16_run(data, 100) })
        }
    }

    pub fn parse(data: &[u8]) -> (r: Option<Self>)
        ensures
            view_opt(r) == Self::spec_parse(data@),
    {
        if data.len() < 200 {
            return None;
        }
        let voltages = read_opt_u16_run(data, 100);
        Some(Self { voltages })
    }

    /// Number of cells reporting real (non-sentinel) values.
    pub fn active_count(&self) -> (n: usize)
        ensures
            n == count_some(self.voltages@),
    {
        let mut n: usize = 0;
        let mut i: usize = 0;
        while i < self.voltages.len()
            invariant
                i <= self.voltages@.len(),
                n == count_some(self.voltages@.subrange(0, i as int)),
            decreases self.voltages@.len() - i,
        {
            proof {
                lemma_count_some_bound(self.voltages@.subrange(0, i as int));
                assert(self.voltages@.subrange(0, i + 1).drop_last() =~= self.voltages@.subrange(
                    0,
                    i as int,
                ));
            }
            if self.voltages[i].is_some() {
                n = n + 1;
            }
            i = i + 1;
        }
        assert(self.voltages@.subrange(0, i as int) =~= self.voltages@);
        n
    }
}

/// 0x6009 — Battery BMS signals (18 bytes).
#[derive(Debug, Clone, Copy, Default, PartialEq, Eq)]
pub struct BatterySignals {
    pub pos_dc_bus: Option<u16>,
    pub pos_temp: Option<u16>,
    pub pos_humidity: Option<u16>,
    pub pos_control: Option<u16>,
    pub neg_dc_bus: Option<u16>,
    pub neg_temp: Option<u16>,
    pub neg_humidity: Option<u16>,
    pub neg_control: Option<u16>,
    pub current: Option<i16>,
}

impl View for BatterySignals {
    type V = BatterySignals;

    open spec fn view(&self) -> BatterySignals {
        *self
    }
}

impl BatterySignals {
    /// What `parse` yields for `data`: `None` when shorter than 18 bytes.
    pub open spec fn spec_parse(data: Seq<u8>) -> Option<BatterySignals> {
        if data.len() < 18 {
            None
        } else {
            Some(
                BatterySignals {
                    pos_dc_bus: opt_u16_at(data, 0),
                    pos_temp: opt_u16_at(data, 2),
                    pos_humidity: opt_u16_at(data, 4),
                    pos_control: opt_u16_at(data, 6),
                    neg_dc_bus: opt_u16_at(data, 8),
                    neg_temp: opt_u16_at(data, 10),
                    neg_humidity: opt_u16_at(data, 12),
                    neg_control: opt_u16_at(data, 14),
                    current: opt_i16_at(data, 16),
                },
            )
        }
    }

    pub fn parse(data: &[u8]) -> (r: Option<Self>)
        ensures
            view_opt(r) == Self::spec_parse(data@),
    {
        if data.len() < 18 {
            return None;
        }
        Some(
            Self {
                pos_dc_bus: opt_u16(data, 0),
                pos_temp: opt_u16(data, 2),
                pos_humidity: opt_u16(data, 4),
                pos_control: opt_u16(data, 6),
                neg_dc_bus: opt_u16(data, 8),
                neg_temp: opt_u16(data, 10),
                neg_humidity: opt_u16(data, 12),
                neg_control: opt_u16(data, 14),
                current: opt_i16(data, 16),
            },
        )
    }
}

impl BatteryStatus {
    /// The wire form of the record: the positive pack's fault bits, then the negative pack's (`u32`
    /// each, little-endian).
    pub open spec fn wire_bytes(self) -> Seq<u8> {
        u32_bytes(self.fault_bits_pos) + u32_bytes(self.fault_bits_neg)
    }
}

/// Decoding the wire form of a record gives the record back: every field is
/// read from its own place in the layout, in the layout's order.
pub proof fn lemma_battery_status_wire(r: BatteryStatus)
    ensures
        r.wire_bytes().len() == 8,
        BatteryStatus::spec_parse(r.wire_bytes()) == Some(r),
{
    let d = r.wire_bytes();
    assert(d.len() == 8);
    assert(d.subrange(0, 4) =~= u32_bytes(r.fault_bits_pos));
    lemma_u32_at(d, 0, r.fault_bits_pos);
    assert(d.subrange(4, 8) =~= u32_bytes(r.fault_bits_neg));
    lemma_u32_at(d, 4, r.fault_bits_neg);
}

impl BatteryParams {
    /// The wire form of the record: cells in series, in parallel, then the capacity (`u16`, little-
    /// endian).
    pub open spec fn wire_bytes(self) -> Seq<u8> {
        seq![self.series] + seq![self.parallel] + u16_bytes(self.capacity)
    }
}

/// Decoding the wire form of a record gives the record back: every field is
/// read from its own place in the layout, in the layout's order.
pub proof fn lemma_battery_params_wire(r: BatteryParams)
    ensures
        r.wire_bytes().len() == 4,
        BatteryParams::spec_parse(r.wire_bytes()) == Some(r),
{
    let d = r.wire_bytes();
    assert(d.len() == 4);
    assert(d.subrange(0, 1) =~= seq![r.series]);
    assert(d[0] == d.subrange(0, 1)[0]);
    assert(d.subrange(1, 2) =~= seq![r.parallel]);
    assert(d[1] == d.subrange(1, 2)[0]);
    assert(d.subrange(2, 4) =~= u16_bytes(r.capacity));
    lemma_u16_at(d, 2, r.capacity);
}

impl BatterySoc {
    /// The wire form of the record: state of charge, state of health, DC bus voltage (`u16` each,
    /// little-endian, `0xFFFF` for no data).
    pub open spec fn wire_bytes(self) -> Seq<u8> {
        opt_u16_bytes(self.soc) + opt_u16_bytes(self.soh) + opt_u16_bytes(self.dc_bus)
    }
}

/// Decoding the wire form of a record gives the record back: every field is
/// read from its own place in the layout, in the layout's order.
pub proof fn lemma_battery_soc_wire(r: BatterySoc)
    requires
        sendable_u16(r.soc),
        sendable_u16(r.soh),
        sendable_u16(r.dc_bus),
    ensures
        r.wire_bytes().len() == 6,
        BatterySoc::spec_parse(r.wire_bytes()) == Some(r),
{
    let d = r.wire_bytes();
    assert(d.len() == 6);
    assert(d.subrange(0, 2) =~= opt_u16_bytes(r.soc));
    lemma_opt_u16_at(d, 0, r.soc);
    assert(d.subrange(2, 4) =~= opt_u16_bytes(r.soh));
    lemma_opt_u16_at(d, 2, r.soh);
    assert(d.subrange(4, 6) =~= opt_u16_bytes(r.dc_bus));
    lemma_opt_u16_at(d, 4, r.dc_bus);
}

impl BatterySignals {
    /// The wire form of the record: the positive pack's DC bus, temperature, humidity and control
    /// words, the same four for the negative pack (`u16` each), then the current (`i16`); little-
    /// endian, with `0xFFFF` / `0x7FFF` for no data.
    pub open spec fn wire_bytes(self) -> Seq<u8> {
        opt_u16_bytes(self.pos_dc_bus) + opt_u16_bytes(self.pos_temp)
            + opt_u16_bytes(self.pos_humidity) + opt_u16_bytes(self.pos_control)
            + opt_u16_bytes(self.neg_dc_bus) + opt_u16_bytes(self.neg_temp)
            + opt_u16_bytes(self.neg_humidity) + opt_u16_bytes(self.neg_control)
            + opt_i16_bytes(self.current)
    }
}

/// Decoding the wire form of a record gives the record back: every field is
/// read from its own place in the layout, in the layout's order.
pub proof fn lemma_battery_signals_wire(r: BatterySignals)
    requires
        sendable_u16(r.pos_dc_bus),
        sendable_u16(r.pos_temp),
        sendable_u16(r.pos_humidity),
        sendable_u16(r.pos_control),
        sendable_u16(r.neg_dc_bus),
        sendable_u16(r.neg_temp),
        sendable_u16(r.neg_humidity),
        sendable_u16(r.neg_control),
        sendable_i16(r.current),
    ensures
        r.wire_bytes().len() == 18,
        BatterySignals::spec_parse(r.wire_bytes()) == Some(r),
{
    let d = r.wire_bytes();
    assert(d.len() == 18);
    assert(d.subrange(0, 2) =~= opt_u16_bytes(r.pos_dc_bus));
    lemma_opt_u16_at(d, 0, r.pos_dc_bus);
    assert(d.subrange(2, 4) =~= opt_u16_bytes(r.pos_temp));
    lemma_opt_u16_at(d, 2, r.pos_temp);
    assert(d.subrange(4, 6) =~= opt_u16_bytes(r.pos_humidity));
    lemma_opt_u16_at(d, 4, r.pos_humidity);
    assert(d.subrange(6, 8) =~= opt_u16_bytes(r.pos_control));
    lemma_opt_u16_at(d, 6, r.pos_control);
    assert(d.subrange(8, 10) =~= opt_u16_bytes(r.neg_dc_bus));
    lemma_opt_u16_at(d, 8, r.neg_dc_bus);
    assert(d.subrange(10, 12) =~= opt_u16_bytes(r.neg_temp));
    lemma_opt_u16_at(d, 10, r.neg_temp);
    assert(d.subrange(12, 14) =~= opt_u16_bytes(r.neg_humidity));
    lemma_opt_u16_at(d, 12, r.neg_humidity);
    assert(d.subrange(14, 16) =~= opt_u16_bytes(r.neg_control));
    lemma_opt_u16_at(d, 14, r.neg_control);
    assert(d.subrange(16, 18) =~= opt_i16_bytes(r.current));
    lemma_opt_i16_at(d, 16, r.current);
}

/// The wire form of a temperatures record: the twelve sensor readings
/// (`u16` each, little-endian, `0xFFFF` for no data), the valid mask
/// (`u16`), then the count of sensors used.
pub open spec fn temperatures_wire(t: BatteryTemperaturesView) -> Seq<u8> {
    opt_u16_words(t.sensors) + u16_bytes(t.valid) + seq![t.used]
}

/// Decoding the wire form of a temperatures record gives it back.
pub proof fn lemma_battery_temperatures_wire(t: BatteryTemperaturesView)
    requires
        t.sensors.len() == 12,
        sendable_run(t.sensors),
    ensures
        temperatures_wire(t).len() == 27,
        BatteryTemperatures::spec_parse(temperatures_wire(t)) == Some(t),
{
    let d = temperatures_wire(t);
    let w = opt_u16_words(t.sensors);
    lemma_opt_u16_words_len(t.sensors);
    assert(d.subrange(0, w.len() as int) =~= w);
    lemma_opt_u16_words_at(d, t.sensors);
    assert(opt_u16_run(d, 12) =~= t.sensors);
    assert(d.subrange(24, 26) =~= u16_bytes(t.valid));
    lemma_u16_at(d, 24, t.valid);
    assert(d[26] == t.used);
}

/// The wire form of a cell-voltage record: the 100 readings (`u16` each,
/// little-endian, `0xFFFF` for no data).
pub open spec fn cells_wire(c: BatteryCellsView) -> Seq<u8> {
    opt_u16_words(c.voltages)
}

/// Decoding the wire form of a cell-voltage record gives it back.
pub proof fn lemma_battery_cells_wire(c: BatteryCellsView)
    requires
        c.voltages.len() == 100,
        sendable_run(c.voltages),
    ensures
        cells_wire(c).len() == 200,
        BatteryCells::spec_parse(cells_wire(c)) == Some(c),
{
    let d = cells_wire(c);
    lemma_opt_u16_words_len(c.voltages);
    assert(d.subrange(0, d.len() as int) =~= d);
    lemma_opt_u16_words_at(d, c.voltages);
    assert(opt_u16_run(d, 100) =~= c.voltages);
}

/// The wire form of a firmware-version record: the positive pack's version
/// slot, the negative pack's, then the serial number (`u32`, little-endian).
pub open spec fn firmware_wire(pos: (u8, u8, u8), neg: (u8, u8, u8), serial: u32) -> Seq<u8> {
    version_bytes(pos) + version_bytes(neg) + u32_bytes(serial)
}

/// Decoding the wire form of a firmware-version record gives the two
/// versions as text and the serial number.
pub proof fn lemma_battery_firmware_wire(pos: (u8, u8, u8), neg: (u8, u8, u8), serial: u32)
    ensures
        BatteryFirmwareVersion::spec_parse(firmware_wire(pos, neg, serial)) == Some(
            BatteryFirmwareVersionView {
                pos_version: version_string(pos),
                neg_version: version_string(neg),
                serial,
            },
        ),
{
    let d = firmware_wire(pos, neg, serial);
    assert(d.subrange(0, 4) =~= version_bytes(pos));
    assert(d.subrange(4, 8) =~= version_bytes(neg));
    assert(d.subrange(8, 12) =~= u32_bytes(serial));
    lemma_version_at(d, 0, pos);
    lemma_version_at(d, 4, neg);
    lemma_u32_at(d, 8, serial);
}

} // verus!
