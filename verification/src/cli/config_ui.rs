//! The configuration editor's model: map slots, curves and misc settings,
//! the write packets built from them and how read responses update them.

use vstd::prelude::*;

use super::config::{
    curve_regen, curve_torque, CurvesConfig, MapConfig, MiscConfig, CURVE_POINTS,
    TYPE_CURVES_CONFIG, TYPE_MAP_CONFIG, TYPE_MISC_CONFIG,
};
use crate::decode::{le_i16, le_u16};
use crate::presets::{torque_for_hp, PowerPreset};

verus! {

/// Arguments of the configuration editor.
pub struct ConfigUiArgs {
    /// VIN of the target bike.
    pub vin: String,
    /// Sold-on date (YYYYMMDD). Defaults to the epoch fallback.
    pub sold_on: String,
    /// Seconds to scan for the bike before giving up.
    pub scan_timeout: u64,
}

/// One power mode slot as the editor shows it.
#[derive(Debug, Clone, Copy, PartialEq, Eq)]
pub struct MapSlot {
    pub power_hp: u8,
    pub regen: u8,
    pub curve: u8,
}

impl Default for MapSlot {
    /// The slot shown before the bike has been read: 40 hp, regen 70, curve 0.
    fn default() -> (s: Self)
        ensures
            s == (MapSlot { power_hp: 40, regen: 70, curve: 0 }),
    {
        Self { power_hp: 40, regen: 70, curve: 0 }
    }
}

/// Power in HP for a raw torque: `torque / 1.25` rounded toward zero, then
/// saturated into `0..=255` (a negative torque shows as 0 hp).
pub open spec fn hp_from_torque(t: i16) -> u8 {
    if t <= 0 {
        0
    } else if (4 * t as int) / 5 > 255 {
        255
    } else {
        ((4 * t as int) / 5) as u8
    }
}

/// The low byte of a regen value, as the editor keeps it.
pub open spec fn regen_low_byte(r: i16) -> u8 {
    ((r as int) % 256) as u8
}

/// The slot a map configuration record shows as.
pub open spec fn slot_of(cfg: MapConfig) -> MapSlot {
    MapSlot {
        power_hp: hp_from_torque(cfg.torque_raw),
        regen: regen_low_byte(cfg.regen),
        curve: cfg.curve,
    }
}

impl MapSlot {
    /// The slot shown for a map configuration read from the bike.
    pub fn from_config(cfg: &MapConfig) -> (s: MapSlot)
        ensures
            s == slot_of(*cfg),
    {
        let t = cfg.torque_raw;
        let power_hp: u8 = if t <= 0 {
            0
        } else {
            let q = (t as i32 * 4) / 5;
            if q > 255 {
                255
            } else {
                q as u8
            }
        };
        let regen = ((cfg.regen as i32 + 65536) % 256) as u8;
        MapSlot { power_hp, regen, curve: cfg.curve }
    }
}

/// The map slots after a map-config read response: the slot the response
/// names is replaced when the response decodes and the slot exists.
pub open spec fn slots_after_response(slots: Seq<MapSlot>, data: Seq<u8>) -> Seq<MapSlot> {
    match MapConfig::spec_parse(data) {
        Some(cfg) => if (cfg.slot as int) < slots.len() {
            slots.update(cfg.slot as int, slot_of(cfg))
        } else {
            slots
        },
        None => slots,
    }
}

/// Record a map-config read response in the editor's slots.
pub fn store_map_response(slots: &mut Vec<MapSlot>, data: &[u8])
    ensures
        final(slots)@ == slots_after_response(old(slots)@, data@),
{
    if let Some(cfg) = MapConfig::parse(data) {
        let idx = cfg.slot as usize;
        if idx < slots.len() {
            slots.set(idx, MapSlot::from_config(&cfg));
        }
    }
}

/// Load a preset into every slot.
pub fn apply_preset(slots: &mut Vec<MapSlot>, preset: &PowerPreset)
    ensures
        final(slots)@.len() == old(slots)@.len(),
        forall|i: int|
            0 <= i < final(slots)@.len() ==> #[trigger] final(slots)@[i] == (MapSlot {
                power_hp: preset.power_hp,
                regen: preset.regen,
                curve: preset.curve,
            }),
{
    let n = slots.len();
    let mut i: usize = 0;
    while i < n
        invariant
            n == slots@.len(),
            i <= n,
            forall|j: int|
                0 <= j < i ==> #[trigger] slots@[j] == (MapSlot {
                    power_hp: preset.power_hp,
                    regen: preset.regen,
                    curve: preset.curve,
                }),
        decreases n - i,
    {
        slots.set(i, MapSlot { power_hp: preset.power_hp, regen: preset.regen, curve: preset.curve });
        i = i + 1;
    }
}

/// The low and high bytes of a non-negative 16-bit value.
pub open spec fn le_pair(v: int) -> Seq<u8> {
    seq![(v % 256) as u8, (v / 256) as u8]
}

/// The write request for slot `index`: `[0x01, 0, index, save = 1,
/// torque (i16 LE), regen (i16 LE), curve]`, with `torque = hp * 1.25`
/// rounded toward zero.
pub open spec fn map_write_payload(index: u8, slot: MapSlot) -> Seq<u8> {
    seq![0x01u8, TYPE_MAP_CONFIG, index, 0x01u8] + le_pair(torque_for_hp(slot.power_hp) as int)
        + le_pair(slot.regen as int) + seq![slot.curve]
}

/// Build the write request that stores `slot` in map slot `index`.
pub fn map_write_request(index: u8, slot: &MapSlot) -> (req: [u8; 9])
    ensures
        req@ == map_write_payload(index, *slot),
{
    let torque: u16 = (slot.power_hp as u16 * 5) / 4;
    let regen: u16 = slot.regen as u16;
    let req: [u8; 9] = [
        0x01,
        TYPE_MAP_CONFIG,
        index,
        0x01,
        (torque % 256) as u8,
        (torque / 256) as u8,
        (regen % 256) as u8,
        (regen / 256) as u8,
        slot.curve,
    ];
    assert(req@ =~= map_write_payload(index, *slot));
    req
}

/// The configuration record a map write stores, in the layout a read
/// returns it: the slot, torque, regen and curve, without the save flag.
pub open spec fn map_record_of_write(req: Seq<u8>) -> Seq<u8> {
    seq![req[2]] + req.subrange(4, 9)
}

/// What a read gives back of a map write: the slot written from the editor
/// is the slot shown when its record is read back, whenever the power is a
/// multiple of 4 hp (for other powers `hp * 1.25` is rounded on the way
/// out and `torque / 1.25` on the way back, and the power comes back lower).
pub proof fn lemma_map_write_read_roundtrip(index: u8, slot: MapSlot)
    requires
        slot.power_hp % 4 == 0,
    ensures
        MapConfig::spec_parse(map_record_of_write(map_write_payload(index, slot))) matches Some(cfg)
            && cfg.slot == index && slot_of(cfg) == slot,
{
    let req = map_write_payload(index, slot);
    let rec = map_record_of_write(req);
    let t = torque_for_hp(slot.power_hp) as int;
    assert(t == slot.power_hp as int * 5 / 4);
    assert(0 <= t <= 318);
    let r = slot.regen as int;
    assert(rec =~= seq![index, (t % 256) as u8, (t / 256) as u8, (r % 256) as u8, (r / 256) as u8, slot.curve]);
    assert(le_u16(rec, 1) == t);
    assert(le_i16(rec, 1) == t);
    assert(le_u16(rec, 3) == r);
    assert(le_i16(rec, 3) == r);
    assert((4 * t) / 5 == slot.power_hp);
}

/// A curve as the editor shows it.
#[derive(Debug, Clone)]
pub struct CurveData {
    pub index: u8,
    /// Whether this curve was readable from the bike.
    pub readable: bool,
    pub torque: Vec<u16>,
    pub regen: Vec<u16>,
}

/// The abstract value of a [`CurveData`].
pub ghost struct CurveDataView {
    pub index: u8,
    pub readable: bool,
    pub torque: Seq<u16>,
    pub regen: Seq<u16>,
}

impl View for CurveData {
    type V = CurveDataView;

    open spec fn view(&self) -> CurveDataView {
        CurveDataView {
            index: self.index,
            readable: self.readable,
            torque: self.torque@,
            regen: self.regen@,
        }
    }
}

/// The flat curve: 1000 (100 %) at every point.
pub open spec fn flat_points() -> Seq<u16> {
    Seq::new(CURVE_POINTS as nat, |i: int| 1000u16)
}

/// The placeholder for a curve that could not be read (the built-in one).
pub open spec fn empty_curve(index: u8) -> CurveDataView {
    CurveDataView { index, readable: false, torque: flat_points(), regen: flat_points() }
}

fn flat_vec() -> (v: Vec<u16>)
    ensures
        v@ == flat_points(),
{
    let mut v: Vec<u16> = Vec::with_capacity(CURVE_POINTS);
    let mut i: usize = 0;
    while i < CURVE_POINTS
        invariant
            i <= CURVE_POINTS,
            v@ =~= Seq::new(i as nat, |j: int| 1000u16),
        decreases CURVE_POINTS - i,
    {
        v.push(1000);
        i = i + 1;
    }
    v
}

impl CurveData {
    /// The placeholder for curve `index` before it is read, or when the bike
    /// does not expose it: not readable, flat.
    pub fn empty(index: u8) -> (c: Self)
        ensures
            c@ == empty_curve(index),
    {
        Self { index, readable: false, torque: flat_vec(), regen: flat_vec() }
    }
}

/// The preset torque shapes the curve editor offers.
#[derive(Debug, Clone, Copy, PartialEq, Eq)]
pub enum CurveShape {
    /// Full power at all RPMs — the default.
    Flat,
    /// Reduced power at low RPM, full at high RPM: gentler off the line.
    LowEndTame,
    /// Moderate low end, peaking in the mid-range with a slight taper.
    MidRangeBoost,
    /// Very little at low RPM, ramping up for high RPM.
    TopEndOnly,
}

/// The 15 torque points (‰ of full torque, 0 to 14,000 RPM) of a shape.
pub open spec fn shape_torque(shape: CurveShape) -> Seq<u16> {
    match shape {
        CurveShape::Flat => flat_points(),
        CurveShape::LowEndTame => seq![300u16, 400u16, 500u16, 600u16, 700u16, 800u16, 850u16, 900u16, 940u16, 960u16, 980u16, 990u16, 1000u16, 1000u16, 1000u16],
        CurveShape::MidRangeBoost => seq![500u16, 600u16, 750u16, 900u16, 1000u16, 1000u16, 1000u16, 1000u16, 1000u16, 950u16, 900u16, 850u16, 800u16, 750u16, 700u16],
        CurveShape::TopEndOnly => seq![100u16, 150u16, 200u16, 250u16, 350u16, 450u16, 550u16, 650u16, 750u16, 850u16, 900u16, 950u16, 980u16, 1000u16, 1000u16],
    }
}

/// Give `curve` a preset shape: its torque points become the shape's and
/// its regen points are all 1000 (full); its index and readability stay.
pub fn apply_curve_shape(curve: &mut CurveData, shape: CurveShape)
    ensures
        final(curve)@ == (CurveDataView {
            torque: shape_torque(shape),
            regen: flat_points(),
            ..old(curve)@
        }),
{
    let torque: Vec<u16> = match shape {
        CurveShape::Flat => flat_vec(),
        CurveShape::LowEndTame => vec![300, 400, 500, 600, 700, 800, 850, 900, 940, 960, 980, 990, 1000, 1000, 1000],
        CurveShape::MidRangeBoost => vec![500, 600, 750, 900, 1000, 1000, 1000, 1000, 1000, 950, 900, 850, 800, 750, 700],
        CurveShape::TopEndOnly => vec![100, 150, 200, 250, 350, 450, 550, 650, 750, 850, 900, 950, 980, 1000, 1000],
    };
    assert(torque@ =~= shape_torque(shape));
    curve.torque = torque;
    curve.regen = flat_vec();
}

/// The curves after the read response to a request for curve `requested`:
/// an empty response marks that curve as the unreadable built-in; a full
/// one (61 bytes or more) replaces the curve it names; anything else, or a
/// curve index past the list, changes nothing.
pub open spec fn curves_after_response(
    curves: Seq<CurveDataView>,
    requested: u8,
    data: Seq<u8>,
) -> Seq<CurveDataView> {
    if data.len() == 0 {
        if (requested as int) < curves.len() {
            curves.update(requested as int, empty_curve(requested))
        } else {
            curves
        }
    } else if CurvesConfig::parses(data) && (data[0] as int) < curves.len() {
        curves.update(
            data[0] as int,
            CurveDataView {
                index: data[0],
                readable: true,
                torque: curve_torque(data),
                regen: curve_regen(data),
            },
        )
    } else {
        curves
    }
}

/// The views of a list of curves.
pub open spec fn curves_view(curves: Seq<CurveData>) -> Seq<CurveDataView> {
    curves.map_values(|c: CurveData| c@)
}

/// Record a curve-config read response in the editor's curves.
pub fn store_curve_response(curves: &mut Vec<CurveData>, requested: u8, data: &[u8])
    ensures
        curves_view(final(curves)@) == curves_after_response(
            curves_view(old(curves)@),
            requested,
            data@,
        ),
{
    let ghost before = curves_view(curves@);
    if data.len() == 0 {
        let idx = requested as usize;
        if idx < curves.len() {
            curves.set(idx, CurveData::empty(requested));
            assert(curves_view(curves@) =~= before.update(idx as int, empty_curve(requested)));
        }
    } else if let Some(cfg) = CurvesConfig::parse(data) {
        let idx = cfg.curve_index as usize;
        if idx < curves.len() {
            let c = CurveData {
                index: cfg.curve_index,
                readable: true,
                torque: cfg.torque,
                regen: cfg.regen,
            };
            let ghost cv = c@;
            curves.set(idx, c);
            assert(curves_view(curves@) =~= before.update(idx as int, cv));
        }
    }
}

/// Each value as its two little-endian bytes, in order.
pub open spec fn le_words(vals: Seq<u16>) -> Seq<u8>
    decreases vals.len(),
{
    if vals.len() == 0 {
        Seq::empty()
    } else {
        le_words(vals.drop_last()) + le_pair(vals.last() as int)
    }
}

/// The write request for a curve: `[0x01, 1, save = 1, index, 0x7FFF,
/// 0x7FFF]` (the padding values as i16 LE), then every torque value, then
/// every regen value, each as 16-bit little-endian.
pub open spec fn curve_write_payload(c: CurveDataView) -> Seq<u8> {
    seq![0x01u8, TYPE_CURVES_CONFIG, 0x01u8, c.index, 0xFFu8, 0x7Fu8, 0xFFu8, 0x7Fu8]
        + le_words(c.torque) + le_words(c.regen)
}

proof fn lemma_le_words(vals: Seq<u16>)
    ensures
        le_words(vals).len() == 2 * vals.len(),
        forall|i: int|
            0 <= i < vals.len() ==> #[trigger] le_u16(le_words(vals), 2 * i) == vals[i],
    decreases vals.len(),
{
    if vals.len() > 0 {
        let p = vals.drop_last();
        lemma_le_words(p);
        let w = le_words(vals);
        assert forall|i: int| 0 <= i < vals.len() implies #[trigger] le_u16(w, 2 * i) == vals[i] by {
            if i < p.len() {
                assert(w[2 * i] == le_words(p)[2 * i]);
                assert(w[2 * i + 1] == le_words(p)[2 * i + 1]);
                assert(le_u16(le_words(p), 2 * i) == p[i]);
            } else {
                let v = vals.last() as int;
                assert(w[2 * i] == (v % 256) as u8);
                assert(w[2 * i + 1] == (v / 256) as u8);
            }
        }
    }
}

/// Where a curve write puts each point: after the 8-byte header, torque
/// point `i` is the little-endian word at byte `8 + 2i` and regen point `i`
/// the word at byte `38 + 2i`, in the order of the curve.
pub proof fn lemma_curve_write_layout(c: CurveDataView)
    requires
        c.torque.len() == CURVE_POINTS,
        c.regen.len() == CURVE_POINTS,
    ensures
        curve_write_payload(c).len() == 68,
        forall|i: int|
            0 <= i < CURVE_POINTS ==> #[trigger] le_u16(curve_write_payload(c), 8 + 2 * i)
                == c.torque[i] && le_u16(curve_write_payload(c), 38 + 2 * i) == c.regen[i],
{
    lemma_le_words(c.torque);
    lemma_le_words(c.regen);
    let h = seq![0x01u8, TYPE_CURVES_CONFIG, 0x01u8, c.index, 0xFFu8, 0x7Fu8, 0xFFu8, 0x7Fu8];
    let t = le_words(c.torque);
    let r = le_words(c.regen);
    let p = curve_write_payload(c);
    assert(p == h + t + r);
    assert forall|i: int| 0 <= i < CURVE_POINTS implies #[trigger] le_u16(p, 8 + 2 * i)
        == c.torque[i] && le_u16(p, 38 + 2 * i) == c.regen[i] by {
        assert(p[8 + 2 * i] == t[2 * i]);
        assert(p[8 + 2 * i + 1] == t[2 * i + 1]);
        assert(p[38 + 2 * i] == r[2 * i]);
        assert(p[38 + 2 * i + 1] == r[2 * i + 1]);
        assert(le_u16(t, 2 * i) == c.torque[i]);
        assert(le_u16(r, 2 * i) == c.regen[i]);
    }
}

fn push_words(out: &mut Vec<u8>, vals: &Vec<u16>)
    ensures
        final(out)@ == old(out)@ + le_words(vals@),
{
    let ghost start = out@;
    let mut i: usize = 0;
    assert(vals@.subrange(0, 0) =~= Seq::<u16>::empty());
    while i < vals.len()
        invariant
            i <= vals@.len(),
            out@ == start + le_words(vals@.subrange(0, i as int)),
        decreases vals@.len() - i,
    {
        let v = vals[i];
        out.push((v % 256) as u8);
        out.push((v / 256) as u8);
        assert(vals@.subrange(0, i + 1).drop_last() =~= vals@.subrange(0, i as int));
        i = i + 1;
        assert(out@ =~= start + le_words(vals@.subrange(0, i as int)));
    }
    assert(vals@.subrange(0, i as int) =~= vals@);
}

/// The write request for a curve, or `None` for curves that are not
/// written: the built-in curve 0 and curves that could not be read.
pub fn curve_write_request(curve: &CurveData) -> (req: Option<Vec<u8>>)
    ensures
        (curve.index == 0 || !curve.readable) ==> req is None,
        !(curve.index == 0 || !curve.readable) ==> (req matches Some(r) && r@
            == curve_write_payload(curve@)),
{
    if curve.index == 0 || !curve.readable {
        return None;
    }
    let mut payload: Vec<u8> = Vec::with_capacity(68);
    payload.push(0x01);
    payload.push(TYPE_CURVES_CONFIG);
    payload.push(0x01);
    payload.push(curve.index);
    payload.push(0xFF);
    payload.push(0x7F);
    payload.push(0xFF);
    payload.push(0x7F);
    push_words(&mut payload, &curve.torque);
    push_words(&mut payload, &curve.regen);
    assert(payload@ =~= curve_write_payload(curve@));
    Some(payload)
}

/// The editor's misc settings.
#[derive(Debug, Clone, Copy, Default, PartialEq, Eq)]
pub struct MiscData {
    pub maps: u8,
    pub inactive_timeout: u16,
    pub auto_power_off: u16,
}

/// The misc settings a misc-config read response carries, if it decodes.
pub fn misc_from_response(data: &[u8]) -> (m: Option<MiscData>)
    ensures
        m == (match MiscConfig::spec_parse(data@) {
            Some(c) => Some(
                MiscData {
                    maps: c.maps,
                    inactive_timeout: c.inactive_timeout,
                    auto_power_off: c.auto_power_off,
                },
            ),
            None => None,
        }),
{
    match MiscConfig::parse(data) {
        Some(c) => Some(
            MiscData {
                maps: c.maps,
                inactive_timeout: c.inactive_timeout,
                auto_power_off: c.auto_power_off,
            },
        ),
        None => None,
    }
}

/// The misc write request: `[0x01, 3, save = 1, maps, inactive timeout
/// (LE), auto power off (LE)]`.
pub open spec fn misc_write_payload(m: MiscData) -> Seq<u8> {
    seq![0x01u8, TYPE_MISC_CONFIG, 0x01u8, m.maps] + le_pair(m.inactive_timeout as int) + le_pair(
        m.auto_power_off as int,
    )
}

/// Build the misc write request.
pub fn misc_write_request(misc: &MiscData) -> (req: [u8; 8])
    ensures
        req@ == misc_write_payload(*misc),
{
    let req: [u8; 8] = [
        0x01,
        TYPE_MISC_CONFIG,
        0x01,
        misc.maps,
        (misc.inactive_timeout % 256) as u8,
        (misc.inactive_timeout / 256) as u8,
        (misc.auto_power_off % 256) as u8,
        (misc.auto_power_off / 256) as u8,
    ];
    assert(req@ =~= misc_write_payload(*misc));
    req
}

/// What a read gives back of a misc write: the record it stores (its
/// fields after the save flag) decodes to the settings written.
pub proof fn lemma_misc_write_read_roundtrip(m: MiscData)
    ensures
        MiscConfig::spec_parse(misc_write_payload(m).subrange(3, 8)) == Some(
            MiscConfig {
                maps: m.maps,
                inactive_timeout: m.inactive_timeout,
                auto_power_off: m.auto_power_off,
            },
        ),
{
    let rec = misc_write_payload(m).subrange(3, 8);
    assert(rec =~= seq![m.maps] + le_pair(m.inactive_timeout as int) + le_pair(
        m.auto_power_off as int,
    ));
    assert(le_u16(rec, 1) == m.inactive_timeout);
    assert(le_u16(rec, 3) == m.auto_power_off);
}

} // verus!
