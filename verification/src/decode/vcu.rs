//! Decoders for service 0x4000 — VCU.

use vstd::prelude::*;

use super::{le_u32, opt_u16, opt_u16_at, read_u32, view_opt};
use crate::text::{lemma_version_at, read_version, version_bytes, version_string, version_text};

use crate::decode::{
    lemma_opt_u16_at, lemma_u32_at, opt_u16_bytes, sendable_u16, u32_bytes,
};

verus! {

/// 0x4001 — VCU firmware versions (20 bytes).
#[derive(Debug, Clone)]
pub struct VcuVersions {
    pub pic_vcu: String,
    pub top_vcu: String,
    pub bottom_vcu: String,
    pub fwfs: String,
    pub serial_number: u32,
}

/// The abstract value of a [`VcuVersions`].
pub ghost struct VcuVersionsView {
    pub pic_vcu: Seq<char>,
    pub top_vcu: Seq<char>,
    pub bottom_vcu: Seq<char>,
    pub fwfs: Seq<char>,
    pub serial_number: u32,
}

impl View for VcuVersions {
    type V = VcuVersionsView;

    open spec fn view(&self) -> VcuVersionsView {
        VcuVersionsView {
            pic_vcu: self.pic_vcu@,
            top_vcu: self.top_vcu@,
            bottom_vcu: self.bottom_vcu@,
            fwfs: self.fwfs@,
            serial_number: self.serial_number,
        }
    }
}

impl VcuVersions {
    /// What `parse` yields for `data`: `None` when shorter than 20 bytes.
    pub open spec fn spec_parse(data: Seq<u8>) -> Option<VcuVersionsView> {
        if data.len() < 20 {
            None
        } else {
            Some(
                VcuVersionsView {
                    pic_vcu: version_text(data, 0),
                    top_vcu: version_text(data, 4),
                    bottom_vcu: version_text(data, 8),
                    fwfs: version_text(data, 12),
                    serial_number: le_u32(data, 16),
                },
            )
        }
    }

    pub fn parse(data: &[u8]) -> (r: Option<Self>)
        ensures
            view_opt(r) == Self::spec_parse(data@),
    {
        if data.len() < 20 {
            return None;
        }
        Some(
            Self {
                pic_vcu: read_version(data, 0),
                top_vcu: read_version(data, 4),
                bottom_vcu: read_version(data, 8),
                fwfs: read_version(data, 12),
                serial_number: read_u32(data, 16),
            },
        )
    }
}

/// 0x4002 — VCU info (10 bytes).
///
/// Humidity and temperature are kept as the raw readings, in hundredths of a
/// percent and hundredths of a degree Celsius: divide by 100 for display.
#[derive(Debug, Clone, Copy, Default, PartialEq, Eq)]
pub struct VcuInfo {
    pub fan_current: Option<u16>,
    pub pump_current: Option<u16>,
    pub pump_ok_counter: Option<u16>,
    /// Humidity in hundredths of a percent.
    pub humidity_raw: Option<u16>,
    /// Temperature in hundredths of a degree Celsius.
    pub temperature_raw: Option<u16>,
}

impl View for VcuInfo {
    type V = VcuInfo;

    open spec fn view(&self) -> VcuInfo {
        *self
    }
}

impl VcuInfo {
    /// What `parse` yields for `data`: `None` when shorter than 10 bytes.
    pub open spec fn spec_parse(data: Seq<u8>) -> Option<VcuInfo> {
        if data.len() < 10 {
            None
        } else {
            Some(
                VcuInfo {
                    fan_current: opt_u16_at(data, 0),
                    pump_current: opt_u16_at(data, 2),
                    pump_ok_counter: opt_u16_at(data, 4),
                    humidity_raw: opt_u16_at(data, 6),
                    temperature_raw: opt_u16_at(data, 8),
                },
            )
        }
    }

    pub fn parse(data: &[u8]) -> (r: Option<Self>)
        ensures
            view_opt(r) == Self::spec_parse(data@),
    {
        if data.len() < 10 {
            return None;
        }
        Some(
            Self {
                fan_current: opt_u16(data, 0),
                pump_current: opt_u16(data, 2),
                pump_ok_counter: opt_u16(data, 4),
                humidity_raw: opt_u16(data, 6),
                temperature_raw: opt_u16(data, 8),
            },
        )
    }
}

impl VcuInfo {
    /// The wire form of the record: fan current, pump current, pump-OK counter, humidity,
    /// temperature (`u16` each, little-endian, `0xFFFF` for no data).
    pub open spec fn wire_bytes(self) -> Seq<u8> {
        opt_u16_bytes(self.fan_current) + opt_u16_bytes(self.pump_current)
            + opt_u16_bytes(self.pump_ok_counter) + opt_u16_bytes(self.humidity_raw)
            + opt_u16_bytes(self.temperature_raw)
    }
}

/// Decoding the wire form of a record gives the record back: every field is
/// read from its own place in the layout, in the layout's order.
pub proof fn lemma_vcu_info_wire(r: VcuInfo)
    requires
        sendable_u16(r.fan_current),
        sendable_u16(r.pump_current),
        sendable_u16(r.pump_ok_counter),
        sendable_u16(r.humidity_raw),
        sendable_u16(r.temperature_raw),
    ensures
        r.wire_bytes().len() == 10,
        VcuInfo::spec_parse(r.wire_bytes()) == Some(r),
{
    let d = r.wire_bytes();
    assert(d.len() == 10);
    assert(d.subrange(0, 2) =~= opt_u16_bytes(r.fan_current));
    lemma_opt_u16_at(d, 0, r.fan_current);
    assert(d.subrange(2, 4) =~= opt_u16_bytes(r.pump_current));
    lemma_opt_u16_at(d, 2, r.pump_current);
    assert(d.subrange(4, 6) =~= opt_u16_bytes(r.pump_ok_counter));
    lemma_opt_u16_at(d, 4, r.pump_ok_counter);
    assert(d.subrange(6, 8) =~= opt_u16_bytes(r.humidity_raw));
    lemma_opt_u16_at(d, 6, r.humidity_raw);
    assert(d.subrange(8, 10) =~= opt_u16_bytes(r.temperature_raw));
    lemma_opt_u16_at(d, 8, r.temperature_raw);
}

/// The wire form of a VCU versions record: the PIC, top, bottom and
/// file-system version slots, then the serial number (`u32`, little-endian).
pub open spec fn vcu_versions_wire(
    pic: (u8, u8, u8),
    top: (u8, u8, u8),
    bottom: (u8, u8, u8),
    fwfs: (u8, u8, u8),
    serial: u32,
) -> Seq<u8> {
    version_bytes(pic) + version_bytes(top) + version_bytes(bottom) + version_bytes(fwfs)
        + u32_bytes(serial)
}

/// Decoding the wire form of a VCU versions record gives each version as
/// text, in order, and the serial number.
pub proof fn lemma_vcu_versions_wire(
    pic: (u8, u8, u8),
    top: (u8, u8, u8),
    bottom: (u8, u8, u8),
    fwfs: (u8, u8, u8),
    serial: u32,
)
    ensures
        VcuVersions::spec_parse(vcu_versions_wire(pic, top, bottom, fwfs, serial)) == Some(
            VcuVersionsView {
                pic_vcu: version_string(pic),
                top_vcu: version_string(top),
                bottom_vcu: version_string(bottom),
                fwfs: version_string(fwfs),
                serial_number: serial,
            },
        ),
{
    let d = vcu_versions_wire(pic, top, bottom, fwfs, serial);
    assert(d.subrange(0, 4) =~= version_bytes(pic));
    assert(d.subrange(4, 8) =~= version_bytes(top));
    assert(d.subrange(8, 12) =~= version_bytes(bottom));
    assert(d.subrange(12, 16) =~= version_bytes(fwfs));
    assert(d.subrange(16, 20) =~= u32_bytes(serial));
    lemma_version_at(d, 0, pic);
    lemma_version_at(d, 4, top);
    lemma_version_at(d, 8, bottom);
    lemma_version_at(d, 12, fwfs);
    lemma_u32_at(d, 16, serial);
}

} // verus!
