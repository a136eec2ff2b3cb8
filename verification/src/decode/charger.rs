//! Decoders for service 0x5000 — Charger.

use vstd::prelude::*;

use super::{opt_u16, opt_u16_at, view_opt};

use crate::decode::{
    flag_byte, lemma_opt_u16_at, opt_u16_bytes, sendable_u16,
};

verus! {

/// 0x5001 — Charger data (up to 18 bytes).
#[derive(Debug, Clone, Copy, Default, PartialEq, Eq)]
pub struct ChargerData {
    pub req_current: Option<u16>,
    pub reported_current: Option<u16>,
    pub cell_charge_voltage: Option<u16>,
    pub max_charge_current: Option<u16>,
    pub max_charge_power: Option<u16>,
    pub max_charge_soc: Option<u16>,
    pub req_voltage: Option<u16>,
    pub reported_voltage: Option<u16>,
    pub charger_status: u8,
    pub charger_enabled: bool,
}

impl View for ChargerData {
    type V = ChargerData;

    open spec fn view(&self) -> ChargerData {
        *self
    }
}

impl ChargerData {
    /// What `parse` yields for `data`: `None` when shorter than 14 bytes;
    /// the three trailing fields are optional and default to `None`, `0`
    /// and `false` when the frame stops before them.
    pub open spec fn spec_parse(data: Seq<u8>) -> Option<ChargerData> {
        if data.len() < 14 {
            None
        } else {
            Some(
                ChargerData {
                    req_current: opt_u16_at(data, 0),
                    reported_current: opt_u16_at(data, 2),
                    cell_charge_voltage: opt_u16_at(data, 4),
                    max_charge_current: opt_u16_at(data, 6),
                    max_charge_power: opt_u16_at(data, 8),
                    max_charge_soc: opt_u16_at(data, 10),
                    req_voltage: opt_u16_at(data, 12),
                    reported_voltage: if data.len() >= 16 {
                        opt_u16_at(data, 14)
                    } else {
                        None
                    },
                    charger_status: if data.len() >= 17 { data[16] } else { 0 },
                    charger_enabled: data.len() >= 18 && data[17] == 1,
                },
            )
        }
    }

    pub fn parse(data: &[u8]) -> (r: Option<Self>)
        ensures
            view_opt(r) == Self::spec_parse(data@),
    {
        if data.len() < 14 {
            return None;
        }
        Some(
            Self {
                req_current: opt_u16(data, 0),
                reported_current: opt_u16(data, 2),
                cell_charge_voltage: opt_u16(data, 4),
                max_charge_current: opt_u16(data, 6),
                max_charge_power: opt_u16(data, 8),
                max_charge_soc: opt_u16(data, 10),
                req_voltage: opt_u16(data, 12),
                reported_voltage: if data.len() >= 16 {
                    opt_u16(data, 14)
                } else {
                    None
                },
                charger_status: if data.len() >= 17 { data[16] } else { 0 },
                charger_enabled: data.len() >= 18 && data[17] == 1,
            },
        )
    }
}

impl ChargerData {
    /// The wire form of the record: requested current, reported current, cell charge voltage,
    /// maximum charge current, power and SOC, requested voltage, reported voltage (`u16` each,
    /// little-endian, `0xFFFF` for no data), then the status byte and the enabled flag (18 bytes).
    pub open spec fn wire_bytes(self) -> Seq<u8> {
        opt_u16_bytes(self.req_current) + opt_u16_bytes(self.reported_current)
            + opt_u16_bytes(self.cell_charge_voltage) + opt_u16_bytes(self.max_charge_current)
            + opt_u16_bytes(self.max_charge_power) + opt_u16_bytes(self.max_charge_soc)
            + opt_u16_bytes(self.req_voltage) + opt_u16_bytes(self.reported_voltage)
            + seq![self.charger_status] + flag_byte(self.charger_enabled)
    }
}

/// Decoding the wire form of a record gives the record back: every field is
/// read from its own place in the layout, in the layout's order.
pub proof fn lemma_charger_data_wire(r: ChargerData)
    requires
        sendable_u16(r.req_current),
        sendable_u16(r.reported_current),
        sendable_u16(r.cell_charge_voltage),
        sendable_u16(r.max_charge_current),
        sendable_u16(r.max_charge_power),
        sendable_u16(r.max_charge_soc),
        sendable_u16(r.req_voltage),
        sendable_u16(r.reported_voltage),
    ensures
        r.wire_bytes().len() == 18,
        ChargerData::spec_parse(r.wire_bytes()) == Some(r),
{
    let d = r.wire_bytes();
    assert(d.len() == 18);
    assert(d.subrange(0, 2) =~= opt_u16_bytes(r.req_current));
    lemma_opt_u16_at(d, 0, r.req_current);
    assert(d.subrange(2, 4) =~= opt_u16_bytes(r.reported_current));
    lemma_opt_u16_at(d, 2, r.reported_current);
    assert(d.subrange(4, 6) =~= opt_u16_bytes(r.cell_charge_voltage));
    lemma_opt_u16_at(d, 4, r.cell_charge_voltage);
    assert(d.subrange(6, 8) =~= opt_u16_bytes(r.max_charge_current));
    lemma_opt_u16_at(d, 6, r.max_charge_current);
    assert(d.subrange(8, 10) =~= opt_u16_bytes(r.max_charge_power));
    lemma_opt_u16_at(d, 8, r.max_charge_power);
    assert(d.subrange(10, 12) =~= opt_u16_bytes(r.max_charge_soc));
    lemma_opt_u16_at(d, 10, r.max_charge_soc);
    assert(d.subrange(12, 14) =~= opt_u16_bytes(r.req_voltage));
    lemma_opt_u16_at(d, 12, r.req_voltage);
    assert(d.subrange(14, 16) =~= opt_u16_bytes(r.reported_voltage));
    lemma_opt_u16_at(d, 14, r.reported_voltage);
    assert(d.subrange(16, 17) =~= seq![r.charger_status]);
    assert(d[16] == d.subrange(16, 17)[0]);
    assert(d.subrange(17, 18) =~= flag_byte(r.charger_enabled));
    assert(d[17] == d.subrange(17, 18)[0]);
}

} // verus!
