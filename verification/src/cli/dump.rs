//! The telemetry dump: what it prints for decoded values, fault bits and
//! extended bike TLV entries.

use vstd::prelude::*;

use vstd::string::StrSliceExecFns;

use crate::decode::{le_u16, read_u16};
use crate::protocol::{
    UUID_BATTERY_LEVEL, UUID_ESTIMATIONS, UUID_EXTENDED_TLV, UUID_IDENTITY, UUID_IMU, UUID_MAPS,
    UUID_RACING, UUID_SPEED, UUID_STATUS_BITS, UUID_THROTTLE, UUID_TOTALS, UUID_VERSIONS,
};
use crate::telemetry::tlv::entries_view;
use crate::telemetry::{
    bit, BikeIdentity, BikeIdentityView, BikeVersions, BikeVersionsView, ComponentVersion,
    ComponentVersionView, DecodedTelemetry, Estimations, Imu, Racing, Speed, StatusBits,
    TelemetryFrame, TelemetryView, Throttle, TlvEntry, TlvEntryView, Totals,
};
use crate::text::{
    dec, dec_signed, digit_char, digit_to_char, hex_lower, i64_to_string, push_dec, push_hex,
    u64_to_string,
};

verus! {

/// Arguments of the telemetry dump.
pub struct DumpArgs {
    /// VIN of the target bike.
    pub vin: String,
    /// Sold-on date (YYYYMMDD). Defaults to the epoch fallback.
    pub sold_on: String,
    /// Seconds to scan for the bike before giving up.
    pub scan_timeout: u64,
    /// Output raw hex instead of decoded fields.
    pub no_decode: bool,
}

/// How an optional reading is shown: its decimal value, or `-` for no data.
pub open spec fn shown(v: Option<int>) -> Seq<char> {
    match v {
        Some(n) => dec_signed(n),
        None => "-"@,
    }
}

/// Show an optional `u16` reading.
pub fn fmt_u16(v: Option<u16>) -> (s: String)
    ensures
        s@ == shown(match v { Some(n) => Some(n as int), None => None }),
{
    match v {
        Some(n) => u64_to_string(n as u64),
        None => String::from_str("-"),
    }
}

/// Show an optional `i16` reading.
pub fn fmt_i16(v: Option<i16>) -> (s: String)
    ensures
        s@ == shown(match v { Some(n) => Some(n as int), None => None }),
{
    match v {
        Some(n) => i64_to_string(n as i64),
        None => String::from_str("-"),
    }
}

/// Show an optional `u32` reading.
pub fn fmt_u32(v: Option<u32>) -> (s: String)
    ensures
        s@ == shown(match v { Some(n) => Some(n as int), None => None }),
{
    match v {
        Some(n) => u64_to_string(n as u64),
        None => String::from_str("-"),
    }
}

/// How an optional reading in tenths is shown with one decimal place
/// (`123` as `12.3`), or `-` for no data.
pub open spec fn shown_tenths(v: Option<u16>) -> Seq<char> {
    match v {
        Some(n) => dec((n / 10) as nat) + "."@ + seq![digit_char((n % 10) as int)],
        None => "-"@,
    }
}

/// Show an optional reading in tenths (the speed, in 0.1 km/h) with one
/// decimal place.
pub fn fmt_tenths(v: Option<u16>) -> (s: String)
    ensures
        s@ == shown_tenths(v),
{
    match v {
        Some(n) => {
            let mut s = String::new();
            push_dec(&mut s, (n / 10) as u128);
            s.append(".");
            s.push(digit_to_char((n % 10) as u64));
            proof {
                reveal_strlit(".");
            }
            assert(s@ =~= shown_tenths(v));
            s
        },
        None => String::from_str("-"),
    }
}

/// The name of fault bit `i` of the status record's `fault_bits`.
pub open spec fn fault_label(i: int) -> Seq<char> {
    if i == 0 { "general"@ }
    else if i == 1 { "battery_temp"@ }
    else if i == 2 { "motor_temp"@ }
    else if i == 3 { "coolant_pump"@ }
    else if i == 4 { "cooling_fan"@ }
    else if i == 5 { "insulation"@ }
    else if i == 6 { "derating_battery"@ }
    else { "derating_igbt"@ }
}

fn fault_name(i: u16) -> (name: &'static str)
    requires
        i < 8,
    ensures
        name@ == fault_label(i as int),
{
    if i == 0 { "general" }
    else if i == 1 { "battery_temp" }
    else if i == 2 { "motor_temp" }
    else if i == 3 { "coolant_pump" }
    else if i == 4 { "cooling_fan" }
    else if i == 5 { "insulation" }
    else if i == 6 { "derating_battery" }
    else { "derating_igbt" }
}

/// The names of the faults set among bits `0..n` of `bits`, lowest bit first.
pub open spec fn fault_list(bits: u16, n: int) -> Seq<Seq<char>>
    decreases n,
{
    if n <= 0 {
        Seq::empty()
    } else if bit(bits, (n - 1) as u16) {
        fault_list(bits, n - 1).push(fault_label(n - 1))
    } else {
        fault_list(bits, n - 1)
    }
}

/// `parts` joined with `sep` between consecutive parts.
pub open spec fn joined(parts: Seq<Seq<char>>, sep: Seq<char>) -> Seq<char>
    decreases parts.len(),
{
    if parts.len() == 0 {
        Seq::empty()
    } else if parts.len() == 1 {
        parts[0]
    } else {
        joined(parts.drop_last(), sep) + sep + parts.last()
    }
}

/// The views of a list of static names.
pub open spec fn names_view(names: Seq<&'static str>) -> Seq<Seq<char>> {
    names.map_values(|n: &'static str| n@)
}

/// The names of the faults set in `fault_bits` (bits 0–7), lowest bit first.
pub fn fault_names(fault_bits: u16) -> (names: Vec<&'static str>)
    ensures
        names_view(names@) == fault_list(fault_bits, 8),
{
    let mut names: Vec<&'static str> = Vec::new();
    let mut i: u16 = 0;
    while i < 8
        invariant
            i <= 8,
            names_view(names@) == fault_list(fault_bits, i as int),
        decreases 8 - i,
    {
        let b = fault_bits;
        let set = (b >> i) & 1 == 1;
        let ghost before = names@;
        if set {
            names.push(fault_name(i));
            assert(names_view(names@) =~= names_view(before).push(fault_label(i as int)));
        }
        i = i + 1;
    }
    names
}

/// The fault line of the dump: `None` when no fault bit is set at all,
/// otherwise the names of the set bits 0–7 joined by `", "`.
pub fn fault_summary(fault_bits: u16) -> (line: Option<String>)
    ensures
        fault_bits == 0 ==> line is None,
        fault_bits != 0 ==> (line matches Some(s) && s@ == joined(fault_list(fault_bits, 8), ", "@)),
{
    if fault_bits == 0 {
        return None;
    }
    let names = fault_names(fault_bits);
    let mut s = String::new();
    let mut i: usize = 0;
    let ghost parts = names_view(names@);
    assert(parts.subrange(0, 0) =~= Seq::<Seq<char>>::empty());
    while i < names.len()
        invariant
            i <= names@.len(),
            parts == names_view(names@),
            s@ == joined(parts.subrange(0, i as int), ", "@),
        decreases names@.len() - i,
    {
        assert(parts.subrange(0, i + 1).drop_last() =~= parts.subrange(0, i as int));
        assert(parts.subrange(0, i + 1).last() == names@[i as int]@);
        if i > 0 {
            s.append(", ");
        } else {
            assert(parts.subrange(0, 1) =~= seq![names@[0]@]);
        }
        s.append(names[i]);
        i = i + 1;
    }
    assert(parts.subrange(0, i as int) =~= parts);
    Some(s)
}

/// The compact status of an extended bike TLV entry of type 1: misc,
/// indicator, alert and info bits.
#[derive(Debug, Clone, Copy, PartialEq, Eq)]
pub struct FastBits {
    pub misc_bits: u16,
    pub indicator_bits: u16,
    pub alert_bits: u16,
    pub info_bits: u16,
}

impl FastBits {
    /// Walking mode: bits 0–3 of `misc_bits`.
    pub fn walking_mode(&self) -> (r: u8)
        ensures
            r == self.misc_bits % 16,
    {
        let m = self.misc_bits;
        assert(m & 0x0F == m % 16) by (bit_vector);
        (m & 0x0F) as u8
    }

    /// Whether bit `i` of `indicator_bits` is set (4 armed, 5 drive).
    pub fn indicator(&self, i: u16) -> (r: bool)
        requires
            i < 16,
        ensures
            r == bit(self.indicator_bits, i),
    {
        (self.indicator_bits >> i) & 1 == 1
    }

    /// Whether bit `i` of `info_bits` is set (0 charger, 1 charging,
    /// 5 pump, 6 fan).
    pub fn info(&self, i: u16) -> (r: bool)
        requires
            i < 16,
        ensures
            r == bit(self.info_bits, i),
    {
        (self.info_bits >> i) & 1 == 1
    }
}

/// What an extended bike TLV entry reports, as the dump prints it.
#[derive(Debug, Clone, Copy, PartialEq, Eq)]
pub enum BikeTlvRecord {
    /// Type 1 with at least 8 bytes.
    FastBits(FastBits),
    /// Type 2 with at least 3 bytes: lock status and lock time.
    LockStatus { status: u8, time: u16 },
    /// Type 3 with at least 1 byte: whether an update is available.
    UpdateAvailable(bool),
    /// Anything else: shown as raw bytes.
    Other,
}

/// The record an extended bike TLV entry reports.
pub open spec fn bike_tlv_record(e: TlvEntryView) -> BikeTlvRecord {
    if e.entry_type == 1 && e.data.len() >= 8 {
        BikeTlvRecord::FastBits(
            FastBits {
                misc_bits: le_u16(e.data, 0),
                indicator_bits: le_u16(e.data, 2),
                alert_bits: le_u16(e.data, 4),
                info_bits: le_u16(e.data, 6),
            },
        )
    } else if e.entry_type == 2 && e.data.len() >= 3 {
        BikeTlvRecord::LockStatus { status: e.data[0], time: le_u16(e.data, 1) }
    } else if e.entry_type == 3 && e.data.len() >= 1 {
        BikeTlvRecord::UpdateAvailable(e.data[0] == 1)
    } else {
        BikeTlvRecord::Other
    }
}

/// Classify an extended bike TLV entry for printing.
pub fn classify_bike_tlv(entry: &TlvEntry) -> (r: BikeTlvRecord)
    ensures
        r == bike_tlv_record(entry@),
{
    let data = entry.data.as_slice();
    if entry.entry_type == 1 && data.len() >= 8 {
        BikeTlvRecord::FastBits(
            FastBits {
                misc_bits: read_u16(data, 0),
                indicator_bits: read_u16(data, 2),
                alert_bits: read_u16(data, 4),
                info_bits: read_u16(data, 6),
            },
        )
    } else if entry.entry_type == 2 && data.len() >= 3 {
        BikeTlvRecord::LockStatus { status: data[0], time: read_u16(data, 1) }
    } else if entry.entry_type == 3 && data.len() >= 1 {
        BikeTlvRecord::UpdateAvailable(data[0] == 1)
    } else {
        BikeTlvRecord::Other
    }
}

// ---------------------------------------------------------------------------
// The dump's lines
// ---------------------------------------------------------------------------

/// One line of the dump's output: a stamped line follows the elapsed time
/// (`{:>8.3}s  `), a plain line is printed as it is, and a standard-error
/// line goes to stderr.
#[derive(Debug, Clone, PartialEq, Eq)]
pub enum DumpLine {
    Stamped(String),
    Plain(String),
    Stderr(String),
}

/// The abstract value of a [`DumpLine`].
pub ghost enum DumpLineView {
    Stamped(Seq<char>),
    Plain(Seq<char>),
    Stderr(Seq<char>),
}

impl View for DumpLine {
    type V = DumpLineView;

    open spec fn view(&self) -> DumpLineView {
        match self {
            DumpLine::Stamped(t) => DumpLineView::Stamped(t@),
            DumpLine::Plain(t) => DumpLineView::Plain(t@),
            DumpLine::Stderr(t) => DumpLineView::Stderr(t@),
        }
    }
}

/// The views of a list of lines.
pub open spec fn lines_view(lines: Seq<DumpLine>) -> Seq<DumpLineView> {
    lines.map_values(|l: DumpLine| l@)
}

/// `true` or `false`, as `{}` shows a `bool`.
pub open spec fn bool_text(b: bool) -> Seq<char> {
    if b { "true"@ } else { "false"@ }
}

/// `n` spaces.
pub open spec fn spaces(n: nat) -> Seq<char> {
    Seq::new(n, |i: int| ' ')
}

/// `t` left-aligned in `w` columns (`{:w}`): spaces after it up to width `w`.
pub open spec fn pad_right(t: Seq<char>, w: nat) -> Seq<char> {
    if t.len() < w { t + spaces((w - t.len()) as nat) } else { t }
}

/// `t` right-aligned in `w` columns (`{:>w}`): spaces before it up to width `w`.
pub open spec fn pad_left(t: Seq<char>, w: nat) -> Seq<char> {
    if t.len() < w { spaces((w - t.len()) as nat) + t } else { t }
}

/// `{:04x}` of a `u16`: the lower-case hex of its two big-endian bytes.
pub open spec fn hex_u16(n: u16) -> Seq<char> {
    hex_lower(seq![(n / 256) as u8, (n % 256) as u8])
}

/// `{:08x}` of a `u32`: the lower-case hex of its four big-endian bytes.
pub open spec fn hex_u32(n: u32) -> Seq<char> {
    hex_lower(
        seq![
            (n / 0x100_0000) as u8,
            ((n / 0x1_0000) % 256) as u8,
            ((n / 256) % 256) as u8,
            (n % 256) as u8,
        ],
    )
}

/// How an optional `u16` reading is shown.
pub open spec fn shown_u16(v: Option<u16>) -> Seq<char> {
    shown(match v { Some(n) => Some(n as int), None => None })
}

/// How an optional `i16` reading is shown.
pub open spec fn shown_i16(v: Option<i16>) -> Seq<char> {
    shown(match v { Some(n) => Some(n as int), None => None })
}

/// How an optional `u32` reading is shown.
pub open spec fn shown_u32(v: Option<u32>) -> Seq<char> {
    shown(match v { Some(n) => Some(n as int), None => None })
}

fn push_bool(s: &mut String, b: bool)
    ensures
        final(s)@ == old(s)@ + bool_text(b),
{
    if b {
        s.append("true");
    } else {
        s.append("false");
    }
}

fn push_spaces(s: &mut String, n: usize)
    ensures
        final(s)@ == old(s)@ + spaces(n as nat),
{
    let ghost start = s@;
    let mut i: usize = 0;
    while i < n
        invariant
            i <= n,
            s@ =~= start + spaces(i as nat),
        decreases n - i,
    {
        s.push(' ');
        i = i + 1;
    }
}

fn push_padded_right(s: &mut String, t: &str, w: usize)
    ensures
        final(s)@ == old(s)@ + pad_right(t@, w as nat),
{
    let ghost start = s@;
    let n = t.unicode_len();
    s.append(t);
    if n < w {
        push_spaces(s, w - n);
    }
    assert(s@ =~= start + pad_right(t@, w as nat));
}

fn push_padded_left(s: &mut String, t: &str, w: usize)
    ensures
        final(s)@ == old(s)@ + pad_left(t@, w as nat),
{
    let ghost start = s@;
    let n = t.unicode_len();
    if n < w {
        push_spaces(s, w - n);
    }
    s.append(t);
    assert(s@ =~= start + pad_left(t@, w as nat));
}

fn push_hex_u16(s: &mut String, n: u16)
    ensures
        final(s)@ == old(s)@ + hex_u16(n),
{
    let b: [u8; 2] = [(n / 256) as u8, (n % 256) as u8];
    assert(b@ =~= seq![(n / 256) as u8, (n % 256) as u8]);
    push_hex(s, b.as_slice(), false);
}

fn push_hex_u32(s: &mut String, n: u32)
    ensures
        final(s)@ == old(s)@ + hex_u32(n),
{
    let b: [u8; 4] = [
        (n / 0x100_0000) as u8,
        ((n / 0x1_0000) % 256) as u8,
        ((n / 256) % 256) as u8,
        (n % 256) as u8,
    ];
    assert(b@ =~= seq![
        (n / 0x100_0000) as u8,
        ((n / 0x1_0000) % 256) as u8,
        ((n / 256) % 256) as u8,
        (n % 256) as u8,
    ]);
    push_hex(s, b.as_slice(), false);
}

fn push_signed(s: &mut String, n: i64)
    ensures
        final(s)@ == old(s)@ + dec_signed(n as int),
{
    let t = i64_to_string(n);
    s.append(t.as_str());
}

/// A stamped line: the name, two spaces, then `text`.
pub open spec fn stamped(name: Seq<char>, text: Seq<char>) -> DumpLineView {
    DumpLineView::Stamped(name + "  "@ + text)
}

fn stamped_line(name: &str, text: String) -> (l: DumpLine)
    ensures
        l@ == stamped(name@, text@),
{
    let mut s = String::from_str(name);
    s.append("  ");
    s.append(text.as_str());
    DumpLine::Stamped(s)
}

/// The status record's line.
pub open spec fn status_text(st: StatusBits) -> Seq<char> {
    "drive="@ + bool_text(bit(st.indicator_bits, 5)) + " armed="@ + bool_text(
        bit(st.indicator_bits, 4),
    ) + " charging="@ + bool_text(bit(st.info_bits, 1)) + " charger="@ + bool_text(
        bit(st.info_bits, 0),
    ) + " fan="@ + bool_text(bit(st.info_bits, 6)) + " pump="@ + bool_text(bit(st.info_bits, 5))
        + " walking="@ + dec((st.misc_bits % 16) as nat) + " battery_status=0x"@ + hex_u32(
        st.battery_status,
    )
}

fn status_text_exec(st: &StatusBits) -> (t: String)
    ensures
        t@ == status_text(*st),
{
    let mut s = String::from_str("drive=");
    push_bool(&mut s, st.drive());
    s.append(" armed=");
    push_bool(&mut s, st.armed_throttle());
    s.append(" charging=");
    push_bool(&mut s, st.is_charging());
    s.append(" charger=");
    push_bool(&mut s, st.charger_connected());
    s.append(" fan=");
    push_bool(&mut s, st.fan_on());
    s.append(" pump=");
    push_bool(&mut s, st.pump_on());
    s.append(" walking=");
    push_dec(&mut s, st.walking_mode() as u128);
    s.append(" battery_status=0x");
    push_hex_u32(&mut s, st.battery_status);
    s
}

/// The lines for a status record: its line, then on stderr the names of the
/// faults set when any fault bit is set.
pub open spec fn status_lines(name: Seq<char>, st: StatusBits) -> Seq<DumpLineView> {
    if st.fault_bits == 0 {
        seq![stamped(name, status_text(st))]
    } else {
        seq![
            stamped(name, status_text(st)),
            DumpLineView::Stderr("  FAULTS: "@ + joined(fault_list(st.fault_bits, 8), ", "@)),
        ]
    }
}

/// The identity record's line.
pub open spec fn identity_text(id: BikeIdentityView) -> Seq<char> {
    "vin="@ + id.vin + " sold_date="@ + id.sold_date
}

fn identity_text_exec(id: &BikeIdentity) -> (t: String)
    ensures
        t@ == identity_text(id@),
{
    let mut s = String::from_str("vin=");
    s.append(id.vin.as_str());
    s.append(" sold_date=");
    s.append(id.sold_date.as_str());
    s
}

/// The battery level's line.
pub open spec fn battery_text(pct: u8) -> Seq<char> {
    dec(pct as nat) + "%"@
}

fn battery_text_exec(pct: u8) -> (t: String)
    ensures
        t@ == battery_text(pct),
{
    let mut s = u64_to_string(pct as u64);
    s.append("%");
    s
}

/// The speed record's line.
pub open spec fn speed_text(sp: Speed) -> Seq<char> {
    shown_tenths(sp.speed_raw) + " km/h  "@ + shown_u16(sp.motor_rpm) + " RPM"@
}

fn speed_text_exec(sp: &Speed) -> (t: String)
    ensures
        t@ == speed_text(*sp),
{
    let mut s = fmt_tenths(sp.speed_raw);
    s.append(" km/h  ");
    s.append(fmt_u16(sp.motor_rpm).as_str());
    s.append(" RPM");
    s
}

/// The throttle record's line.
pub open spec fn throttle_text(t: Throttle) -> Seq<char> {
    "pos="@ + shown_u16(t.position) + " iq="@ + shown_i16(t.iq_fb) + " id="@ + shown_i16(t.id_fb)
}

fn throttle_text_exec(t: &Throttle) -> (r: String)
    ensures
        r@ == throttle_text(*t),
{
    let mut s = String::from_str("pos=");
    s.append(fmt_u16(t.position).as_str());
    s.append(" iq=");
    s.append(fmt_i16(t.iq_fb).as_str());
    s.append(" id=");
    s.append(fmt_i16(t.id_fb).as_str());
    s
}

/// The IMU record's line.
pub open spec fn imu_text(i: Imu) -> Seq<char> {
    "accel=("@ + shown_i16(i.accel_x) + ","@ + shown_i16(i.accel_y) + ","@ + shown_i16(i.accel_z)
        + ") gyro=("@ + shown_i16(i.gyro_x) + ","@ + shown_i16(i.gyro_y) + ","@ + shown_i16(
        i.gyro_z,
    ) + ")"@
}

fn imu_text_exec(i: &Imu) -> (r: String)
    ensures
        r@ == imu_text(*i),
{
    let mut s = String::from_str("accel=(");
    s.append(fmt_i16(i.accel_x).as_str());
    s.append(",");
    s.append(fmt_i16(i.accel_y).as_str());
    s.append(",");
    s.append(fmt_i16(i.accel_z).as_str());
    s.append(") gyro=(");
    s.append(fmt_i16(i.gyro_x).as_str());
    s.append(",");
    s.append(fmt_i16(i.gyro_y).as_str());
    s.append(",");
    s.append(fmt_i16(i.gyro_z).as_str());
    s.append(")");
    s
}

/// The active map slot's line.
pub open spec fn ride_mode_text(mode: u8) -> Seq<char> {
    "map "@ + dec(mode as nat) + " (active power mode slot — names are user-configured)"@
}

fn ride_mode_text_exec(mode: u8) -> (t: String)
    ensures
        t@ == ride_mode_text(mode),
{
    let mut s = String::from_str("map ");
    push_dec(&mut s, mode as u128);
    s.append(" (active power mode slot — names are user-configured)");
    s
}

/// The totals record's line.
pub open spec fn totals_text(t: Totals) -> Seq<char> {
    "odo="@ + shown_u32(t.odometer) + " wh="@ + shown_u32(t.watt_hours) + " airtime="@ + shown_u32(
        t.airtime_secs,
    ) + "s total_time="@ + shown_u32(t.total_time_secs) + "s"@
}

fn totals_text_exec(t: &Totals) -> (r: String)
    ensures
        r@ == totals_text(*t),
{
    let mut s = String::from_str("odo=");
    s.append(fmt_u32(t.odometer).as_str());
    s.append(" wh=");
    s.append(fmt_u32(t.watt_hours).as_str());
    s.append(" airtime=");
    s.append(fmt_u32(t.airtime_secs).as_str());
    s.append("s total_time=");
    s.append(fmt_u32(t.total_time_secs).as_str());
    s.append("s");
    s
}

/// The estimations record's line.
pub open spec fn estimations_text(e: Estimations) -> Seq<char> {
    "range="@ + shown_u16(e.range_km) + "km time="@ + shown_u16(e.time_min) + "min power="@
        + shown_i16(e.motor_power_w) + "W"@
}

fn estimations_text_exec(e: &Estimations) -> (r: String)
    ensures
        r@ == estimations_text(*e),
{
    let mut s = String::from_str("range=");
    s.append(fmt_u16(e.range_km).as_str());
    s.append("km time=");
    s.append(fmt_u16(e.time_min).as_str());
    s.append("min power=");
    s.append(fmt_i16(e.motor_power_w).as_str());
    s.append("W");
    s
}

/// The racing record's line.
pub open spec fn racing_text(r: Racing) -> Seq<char> {
    "mode="@ + dec(r.mode as nat) + " curve="@ + dec(r.curve as nat) + " throttle_mult="@ + dec(
        r.throttle_multiplier as nat,
    ) + " cat="@ + dec(r.category as nat) + " expire="@ + dec(r.expire_timestamp as nat)
}

fn racing_text_exec(r: &Racing) -> (t: String)
    ensures
        t@ == racing_text(*r),
{
    let mut s = String::from_str("mode=");
    push_dec(&mut s, r.mode as u128);
    s.append(" curve=");
    push_dec(&mut s, r.curve as u128);
    s.append(" throttle_mult=");
    push_dec(&mut s, r.throttle_multiplier as u128);
    s.append(" cat=");
    push_dec(&mut s, r.category as u128);
    s.append(" expire=");
    push_dec(&mut s, r.expire_timestamp as u128);
    s
}

/// The versions record's first line.
pub open spec fn versions_text(v: BikeVersionsView) -> Seq<char> {
    "ble_ver="@ + dec(v.ble_version as nat) + " dl="@ + dec_signed(v.download_percent as int)
        + "% blob_fs="@ + v.blob_fs + " blob_srv="@ + v.blob_server
}

/// The plain line for one firmware component: indented, the name in 20
/// columns, the installed version in 10, then the available one.
pub open spec fn component_text(c: ComponentVersionView) -> Seq<char> {
    "           "@ + pad_right(c.name, 20) + " ver="@ + pad_right(c.version, 10) + " avail="@
        + c.available
}

/// The lines for a versions record: its line, then one per component.
pub open spec fn versions_lines(name: Seq<char>, v: BikeVersionsView) -> Seq<DumpLineView> {
    seq![stamped(name, versions_text(v))] + v.components.map_values(
        |c: ComponentVersionView| DumpLineView::Plain(component_text(c)),
    )
}

fn versions_text_exec(v: &BikeVersions) -> (t: String)
    ensures
        t@ == versions_text(v@),
{
    let mut s = String::from_str("ble_ver=");
    push_dec(&mut s, v.ble_version as u128);
    s.append(" dl=");
    push_signed(&mut s, v.download_percent as i64);
    s.append("% blob_fs=");
    s.append(v.blob_fs.as_str());
    s.append(" blob_srv=");
    s.append(v.blob_server.as_str());
    s
}

fn component_line(c: &ComponentVersion) -> (l: DumpLine)
    ensures
        l@ == DumpLineView::Plain(component_text(c@)),
{
    let mut s = String::from_str("           ");
    push_padded_right(&mut s, c.name, 20);
    s.append(" ver=");
    push_padded_right(&mut s, c.version.as_str(), 10);
    s.append(" avail=");
    s.append(c.available.as_str());
    DumpLine::Plain(s)
}

fn versions_lines_exec(name: &str, v: &BikeVersions) -> (lines: Vec<DumpLine>)
    ensures
        lines_view(lines@) == versions_lines(name@, v@),
{
    let mut lines: Vec<DumpLine> = Vec::new();
    lines.push(stamped_line(name, versions_text_exec(v)));
    let ghost comps = v@.components;
    let mut i: usize = 0;
    while i < v.components.len()
        invariant
            i <= v.components@.len(),
            comps == v@.components,
            comps.len() == v.components@.len(),
            lines_view(lines@) =~= seq![stamped(name@, versions_text(v@))] + comps.subrange(
                0,
                i as int,
            ).map_values(|c: ComponentVersionView| DumpLineView::Plain(component_text(c))),
        decreases v.components@.len() - i,
    {
        let l = component_line(&v.components[i]);
        let ghost before = lines@;
        lines.push(l);
        proof {
            let f = |c: ComponentVersionView| DumpLineView::Plain(component_text(c));
            assert(comps[i as int] == v.components@[i as int]@);
            assert(lines_view(lines@) =~= lines_view(before).push(l@));
            assert(comps.subrange(0, i + 1).map_values(f) =~= comps.subrange(0, i as int).map_values(
                f,
            ).push(f(comps[i as int])));
        }
        i = i + 1;
    }
    assert(comps.subrange(0, i as int) =~= comps);
    lines
}

/// The text for one extended bike TLV entry.
pub open spec fn tlv_text(e: TlvEntryView) -> Seq<char> {
    match bike_tlv_record(e) {
        BikeTlvRecord::FastBits(f) => "fast_bits: drive="@ + bool_text(bit(f.indicator_bits, 5))
            + " armed="@ + bool_text(bit(f.indicator_bits, 4)) + " charging="@ + bool_text(
            bit(f.info_bits, 1),
        ) + " charger="@ + bool_text(bit(f.info_bits, 0)) + " fan="@ + bool_text(
            bit(f.info_bits, 6),
        ) + " pump="@ + bool_text(bit(f.info_bits, 5)) + " walking="@ + dec(
            (f.misc_bits % 16) as nat,
        ) + " alerts=0x"@ + hex_u16(f.alert_bits) + " misc=0x"@ + hex_u16(f.misc_bits),
        BikeTlvRecord::LockStatus { status, time } => "lock_status: locked="@ + bool_text(
            status != 0,
        ) + " time="@ + dec(time as nat),
        BikeTlvRecord::UpdateAvailable(b) => "update_available: "@ + bool_text(b),
        BikeTlvRecord::Other => "tlv_type="@ + dec(e.entry_type as nat) + " ("@ + dec(
            e.data.len(),
        ) + " bytes): "@ + hex_lower(e.data),
    }
}

fn tlv_text_exec(e: &TlvEntry) -> (t: String)
    ensures
        t@ == tlv_text(e@),
{
    match classify_bike_tlv(e) {
        BikeTlvRecord::FastBits(f) => {
            let mut s = String::from_str("fast_bits: drive=");
            push_bool(&mut s, f.indicator(5));
            s.append(" armed=");
            push_bool(&mut s, f.indicator(4));
            s.append(" charging=");
            push_bool(&mut s, f.info(1));
            s.append(" charger=");
            push_bool(&mut s, f.info(0));
            s.append(" fan=");
            push_bool(&mut s, f.info(6));
            s.append(" pump=");
            push_bool(&mut s, f.info(5));
            s.append(" walking=");
            push_dec(&mut s, f.walking_mode() as u128);
            s.append(" alerts=0x");
            push_hex_u16(&mut s, f.alert_bits);
            s.append(" misc=0x");
            push_hex_u16(&mut s, f.misc_bits);
            s
        },
        BikeTlvRecord::LockStatus { status, time } => {
            let mut s = String::from_str("lock_status: locked=");
            push_bool(&mut s, status != 0);
            s.append(" time=");
            push_dec(&mut s, time as u128);
            s
        },
        BikeTlvRecord::UpdateAvailable(b) => {
            let mut s = String::from_str("update_available: ");
            push_bool(&mut s, b);
            s
        },
        BikeTlvRecord::Other => {
            let mut s = String::from_str("tlv_type=");
            push_dec(&mut s, e.entry_type as u128);
            s.append(" (");
            push_dec(&mut s, e.data.len() as u128);
            s.append(" bytes): ");
            push_hex(&mut s, e.data.as_slice(), false);
            s
        },
    }
}

/// The lines for the extended bike TLV entries kept in the snapshot: one
/// per entry, or `(empty)` when there are none.
pub open spec fn tlv_lines(name: Seq<char>, es: Seq<TlvEntryView>) -> Seq<DumpLineView> {
    if es.len() == 0 {
        seq![stamped(name, "(empty)"@)]
    } else {
        es.map_values(|e: TlvEntryView| stamped(name, tlv_text(e)))
    }
}

fn tlv_lines_exec(name: &str, entries: &Vec<TlvEntry>) -> (lines: Vec<DumpLine>)
    ensures
        lines_view(lines@) == tlv_lines(name@, entries_view(entries@)),
{
    let mut lines: Vec<DumpLine> = Vec::new();
    if entries.len() == 0 {
        lines.push(stamped_line(name, String::from_str("(empty)")));
        assert(lines_view(lines@) =~= tlv_lines(name@, entries_view(entries@)));
        return lines;
    }
    let ghost es = entries_view(entries@);
    let mut i: usize = 0;
    while i < entries.len()
        invariant
            i <= entries@.len(),
            es == entries_view(entries@),
            lines_view(lines@) =~= es.subrange(0, i as int).map_values(
                |e: TlvEntryView| stamped(name@, tlv_text(e)),
            ),
        decreases entries@.len() - i,
    {
        let l = stamped_line(name, tlv_text_exec(&entries[i]));
        let ghost before = lines@;
        lines.push(l);
        proof {
            let f = |e: TlvEntryView| stamped(name@, tlv_text(e));
            assert(es[i as int] == entries@[i as int]@);
            assert(lines_view(lines@) =~= lines_view(before).push(l@));
            assert(es.subrange(0, i + 1).map_values(f) =~= es.subrange(0, i as int).map_values(
                f,
            ).push(f(es[i as int])));
        }
        i = i + 1;
    }
    assert(es.subrange(0, i as int) =~= es);
    lines
}

/// The stamped text for a frame from a characteristic the dump does not
/// decode: the name in 12 columns, the length in 3, then the bytes in hex.
pub open spec fn unknown_text(name: Seq<char>, data: Seq<u8>) -> Seq<char> {
    pad_right(name, 12) + "  UNKNOWN ("@ + pad_left(dec(data.len()), 3) + " bytes)  "@ + hex_lower(
        data,
    )
}

/// The stamped text for a frame shown raw (without decoding).
pub open spec fn raw_text(name: Seq<char>, data: Seq<u8>) -> Seq<char> {
    pad_right(name, 12) + "  ("@ + pad_left(dec(data.len()), 3) + " bytes)  "@ + hex_lower(data)
}

fn push_len3(s: &mut String, n: usize)
    ensures
        final(s)@ == old(s)@ + pad_left(dec(n as nat), 3),
{
    let t = u64_to_string(n as u64);
    push_padded_left(s, t.as_str(), 3);
}

fn unknown_line(name: &str, data: &[u8]) -> (l: DumpLine)
    ensures
        l@ == DumpLineView::Stamped(unknown_text(name@, data@)),
{
    let mut s = String::new();
    push_padded_right(&mut s, name, 12);
    s.append("  UNKNOWN (");
    push_len3(&mut s, data.len());
    s.append(" bytes)  ");
    push_hex(&mut s, data, false);
    assert(s@ =~= unknown_text(name@, data@));
    DumpLine::Stamped(s)
}

/// The line the dump shows for a frame when decoding is turned off.
pub fn raw_line(name: &str, frame: &TelemetryFrame) -> (l: DumpLine)
    ensures
        l@ == DumpLineView::Stamped(raw_text(name@, frame.data@)),
{
    let mut s = String::new();
    push_padded_right(&mut s, name, 12);
    s.append("  (");
    push_len3(&mut s, frame.data.len());
    s.append(" bytes)  ");
    push_hex(&mut s, frame.data.as_slice(), false);
    assert(s@ =~= raw_text(name@, frame.data@));
    DumpLine::Stamped(s)
}

/// A stamped line for a record that may be missing: none when it is.
pub open spec fn record_line(name: Seq<char>, text: Option<Seq<char>>) -> Seq<DumpLineView> {
    match text {
        Some(t) => seq![stamped(name, t)],
        None => Seq::empty(),
    }
}

/// What the dump shows, after the snapshot `s` has taken in a frame of
/// `data` from `characteristic` named `name`: the decoded record of that
/// characteristic (nothing while it has not decoded), the extended bike TLV
/// entries, or the raw bytes of any other characteristic.
pub open spec fn dump_lines(
    name: Seq<char>,
    characteristic: u128,
    data: Seq<u8>,
    s: TelemetryView,
) -> Seq<DumpLineView> {
    if characteristic == UUID_STATUS_BITS {
        match s.status {
            Some(st) => status_lines(name, st),
            None => Seq::empty(),
        }
    } else if characteristic == UUID_IDENTITY {
        record_line(name, match s.identity { Some(id) => Some(identity_text(id)), None => None })
    } else if characteristic == UUID_BATTERY_LEVEL {
        record_line(name, match s.battery_percent { Some(p) => Some(battery_text(p)), None => None })
    } else if characteristic == UUID_SPEED {
        record_line(name, match s.speed { Some(v) => Some(speed_text(v)), None => None })
    } else if characteristic == UUID_THROTTLE {
        record_line(name, match s.throttle { Some(v) => Some(throttle_text(v)), None => None })
    } else if characteristic == UUID_IMU {
        record_line(name, match s.imu { Some(v) => Some(imu_text(v)), None => None })
    } else if characteristic == UUID_MAPS {
        record_line(name, match s.ride_mode { Some(m) => Some(ride_mode_text(m)), None => None })
    } else if characteristic == UUID_TOTALS {
        record_line(name, match s.totals { Some(v) => Some(totals_text(v)), None => None })
    } else if characteristic == UUID_ESTIMATIONS {
        record_line(
            name,
            match s.estimations { Some(v) => Some(estimations_text(v)), None => None },
        )
    } else if characteristic == UUID_RACING {
        record_line(name, match s.racing { Some(v) => Some(racing_text(v)), None => None })
    } else if characteristic == UUID_VERSIONS {
        match s.versions {
            Some(v) => versions_lines(name, v),
            None => Seq::empty(),
        }
    } else if characteristic == UUID_EXTENDED_TLV {
        tlv_lines(name, s.tlv_entries)
    } else {
        seq![DumpLineView::Stamped(unknown_text(name, data))]
    }
}

fn one_line(l: DumpLine) -> (lines: Vec<DumpLine>)
    ensures
        lines_view(lines@) == seq![l@],
{
    let mut lines: Vec<DumpLine> = Vec::new();
    lines.push(l);
    assert(lines_view(lines@) =~= seq![l@]);
    lines
}

fn status_lines_exec(name: &str, st: &StatusBits) -> (lines: Vec<DumpLine>)
    ensures
        lines_view(lines@) == status_lines(name@, *st),
{
    let mut lines: Vec<DumpLine> = Vec::new();
    lines.push(stamped_line(name, status_text_exec(st)));
    match fault_summary(st.fault_bits) {
        Some(f) => {
            let mut s = String::from_str("  FAULTS: ");
            s.append(f.as_str());
            lines.push(DumpLine::Stderr(s));
        },
        None => {},
    }
    assert(lines_view(lines@) =~= status_lines(name@, *st));
    lines
}

/// The lines the dump shows for `frame`, once `state` has taken it in;
/// `name` is the characteristic's name.
pub fn decoded_lines(name: &str, frame: &TelemetryFrame, state: &DecodedTelemetry) -> (lines: Vec<
    DumpLine,
>)
    ensures
        lines_view(lines@) == dump_lines(name@, frame.characteristic, frame.data@, state@),
{
    let c = frame.characteristic;
    let none: Vec<DumpLine> = Vec::new();
    assert(lines_view(none@) =~= Seq::<DumpLineView>::empty());
    if c == UUID_STATUS_BITS {
        match &state.status {
            Some(st) => status_lines_exec(name, st),
            None => none,
        }
    } else if c == UUID_IDENTITY {
        match &state.identity {
            Some(id) => one_line(stamped_line(name, identity_text_exec(id))),
            None => none,
        }
    } else if c == UUID_BATTERY_LEVEL {
        match state.battery_percent {
            Some(p) => one_line(stamped_line(name, battery_text_exec(p))),
            None => none,
        }
    } else if c == UUID_SPEED {
        match &state.speed {
            Some(v) => one_line(stamped_line(name, speed_text_exec(v))),
            None => none,
        }
    } else if c == UUID_THROTTLE {
        match &state.throttle {
            Some(v) => one_line(stamped_line(name, throttle_text_exec(v))),
            None => none,
        }
    } else if c == UUID_IMU {
        match &state.imu {
            Some(v) => one_line(stamped_line(name, imu_text_exec(v))),
            None => none,
        }
    } else if c == UUID_MAPS {
        match state.ride_mode {
            Some(m) => one_line(stamped_line(name, ride_mode_text_exec(m))),
            None => none,
        }
    } else if c == UUID_TOTALS {
        match &state.totals {
            Some(v) => one_line(stamped_line(name, totals_text_exec(v))),
            None => none,
        }
    } else if c == UUID_ESTIMATIONS {
        match &state.estimations {
            Some(v) => one_line(stamped_line(name, estimations_text_exec(v))),
            None => none,
        }
    } else if c == UUID_RACING {
        match &state.racing {
            Some(v) => one_line(stamped_line(name, racing_text_exec(v))),
            None => none,
        }
    } else if c == UUID_VERSIONS {
        match &state.versions {
            Some(v) => versions_lines_exec(name, v),
            None => none,
        }
    } else if c == UUID_EXTENDED_TLV {
        tlv_lines_exec(name, &state.tlv_entries)
    } else {
        one_line(unknown_line(name, frame.data.as_slice()))
    }
}

} // verus!
