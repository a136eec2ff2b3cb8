//! Decoders for service 0x3000 — Docking.

use vstd::prelude::*;

use super::view_opt;
use crate::text::{lemma_version_at, read_version, version_bytes, version_string, version_text};


verus! {

/// 0x3001 — Docking firmware version (3 bytes).
#[derive(Debug, Clone)]
pub struct DockingVersion {
    pub version: String,
}

/// The abstract value of a [`DockingVersion`].
pub ghost struct DockingVersionView {
    pub version: Seq<char>,
}

impl View for DockingVersion {
    type V = DockingVersionView;

    open spec fn view(&self) -> DockingVersionView {
        DockingVersionView { version: self.version@ }
    }
}

impl DockingVersion {
    /// What `parse` yields for `data`: `None` when shorter than 3 bytes.
    pub open spec fn spec_parse(data: Seq<u8>) -> Option<DockingVersionView> {
        if data.len() < 3 {
            None
        } else {
            Some(DockingVersionView { version: version_text(data, 0) })
        }
    }

    pub fn parse(data: &[u8]) -> (r: Option<Self>)
        ensures
            view_opt(r) == Self::spec_parse(data@),
    {
        if data.len() < 3 {
            return None;
        }
        Some(Self { version: read_version(data, 0) })
    }
}

/// 0x3002 — Docking QI charging status (1 byte).
#[derive(Debug, Clone, Copy, PartialEq, Eq)]
pub struct DockingQiStatus {
    pub status: u8,
}

impl View for DockingQiStatus {
    type V = DockingQiStatus;

    open spec fn view(&self) -> DockingQiStatus {
        *self
    }
}

impl DockingQiStatus {
    /// What `parse` yields for `data`: `None` when empty.
    pub open spec fn spec_parse(data: Seq<u8>) -> Option<DockingQiStatus> {
        if data.len() == 0 {
            None
        } else {
            Some(DockingQiStatus { status: data[0] })
        }
    }

    pub fn parse(data: &[u8]) -> (r: Option<Self>)
        ensures
            view_opt(r) == Self::spec_parse(data@),
    {
        if data.len() == 0 {
            return None;
        }
        Some(Self { status: data[0] })
    }
}

impl DockingQiStatus {
    /// The wire form of the record: the QI status byte.
    pub open spec fn wire_bytes(self) -> Seq<u8> {
        seq![self.status]
    }
}

/// Decoding the wire form of a record gives the record back: every field is
/// read from its own place in the layout, in the layout's order.
pub proof fn lemma_docking_qi_status_wire(r: DockingQiStatus)
    ensures
        r.wire_bytes().len() == 1,
        DockingQiStatus::spec_parse(r.wire_bytes()) == Some(r),
{
    let d = r.wire_bytes();
    assert(d.len() == 1);
    assert(d.subrange(0, 1) =~= seq![r.status]);
    assert(d[0] == d.subrange(0, 1)[0]);
}

/// Decoding a docking version slot gives the version as text.
pub proof fn lemma_docking_version_wire(v: (u8, u8, u8))
    ensures
        DockingVersion::spec_parse(version_bytes(v)) == Some(
            DockingVersionView { version: version_string(v) },
        ),
{
    let d = version_bytes(v);
    assert(d.subrange(0, 4) =~= d);
    lemma_version_at(d, 0, v);
}

} // verus!
