//! The connection facts the library keeps about a bike: its VIN, pairing
//! PIN and discovered characteristics, and how the bike is recognised
//! during a scan.
//!
//! The radio work (scanning, connecting, service discovery, notifications)
//! is done by the caller; it hands in what it found.

use vstd::prelude::*;
use vstd::string::StrSliceExecFns;

use crate::crypto::{
    generate_pin, normalize_sold_on, normalized_sold_on, passkey_of, pin_text, pin_to_passkey,
    vin_date_hash,
};

verus! {

/// Why a connection could not be established.
#[derive(Debug, Clone, PartialEq, Eq)]
pub enum Error {
    /// No Bluetooth adapter found.
    NoAdapter,
    /// The bike was not found within this many seconds of scanning.
    ScanTimeout(u64),
    /// No Stark services found after discovery.
    NoServicesFound,
    /// A Bluetooth stack error, by its message.
    Ble(String),
}

/// Whether `s` is in strictly increasing order.
pub open spec fn strictly_increasing(s: Seq<u128>) -> bool {
    forall|a: int, b: int| 0 <= a < b < s.len() ==> s[a] < s[b]
}

/// `items` without duplicates, in increasing order.
pub fn sorted_unique(items: &[u128]) -> (out: Vec<u128>)
    ensures
        strictly_increasing(out@),
        forall|v: u128| out@.contains(v) <==> items@.contains(v),
{
    let mut out: Vec<u128> = Vec::new();
    let mut i: usize = 0;
    while i < items.len()
        invariant
            i <= items@.len(),
            strictly_increasing(out@),
            forall|k: int| 0 <= k < out@.len() ==> items@.subrange(0, i as int).contains(
                #[trigger] out@[k],
            ),
            forall|k: int| 0 <= k < i ==> out@.contains(#[trigger] items@[k]),
        decreases items@.len() - i,
    {
        let x = items[i];
        let mut p: usize = 0;
        while p < out.len() && out[p] < x
            invariant
                p <= out@.len(),
                forall|k: int| 0 <= k < p ==> #[trigger] out@[k] < x,
            decreases out@.len() - p,
        {
            p = p + 1;
        }
        let ghost old_out = out@;
        let ghost pre = items@.subrange(0, i as int);
        let ghost post = items@.subrange(0, i + 1);
        assert(post =~= pre.push(x));
        assert forall|v: u128| pre.contains(v) implies post.contains(v) by {
            let w = choose|w: int| 0 <= w < pre.len() && pre[w] == v;
            assert(post[w] == v);
        }
        if p < out.len() && out[p] == x {
            assert forall|k: int| 0 <= k < i + 1 implies out@.contains(#[trigger] items@[k]) by {
                if k == i {
                    assert(out@[p as int] == x);
                }
            }
        } else {
            out.insert(p, x);
            let ghost n = out@;
            assert(n =~= old_out.subrange(0, p as int).push(x) + old_out.subrange(
                p as int,
                old_out.len() as int,
            ));
            assert forall|k: int| 0 <= k < n.len() implies post.contains(#[trigger] n[k]) by {
                if k < p {
                    assert(n[k] == old_out[k]);
                    assert(pre.contains(old_out[k]));
                } else if k == p {
                    assert(post[i as int] == x);
                } else {
                    assert(n[k] == old_out[k - 1]);
                    assert(pre.contains(old_out[k - 1]));
                }
            }
            assert forall|k: int| 0 <= k < i + 1 implies n.contains(#[trigger] items@[k]) by {
                if k == i {
                    assert(n[p as int] == x);
                } else {
                    assert(old_out.contains(items@[k]));
                    let w = choose|w: int| 0 <= w < old_out.len() && old_out[w] == items@[k];
                    if w < p {
                        assert(n[w] == items@[k]);
                    } else {
                        assert(n[w + 1] == items@[k]);
                    }
                }
            }
            assert forall|a: int, b: int| 0 <= a < b < n.len() implies n[a] < n[b] by {
                if p < old_out.len() {
                    assert(x < old_out[p as int]);
                }
                if b < p {
                    assert(n[a] == old_out[a] && n[b] == old_out[b]);
                } else if b == p {
                    assert(n[a] == old_out[a]);
                } else if a < p {
                    assert(n[a] == old_out[a] && n[b] == old_out[b - 1]);
                } else if a == p {
                    assert(n[b] == old_out[b - 1]);
                    assert(old_out[p as int] <= old_out[b - 1]);
                } else {
                    assert(n[a] == old_out[a - 1] && n[b] == old_out[b - 1]);
                }
            }
        }
        i = i + 1;
    }
    assert(items@.subrange(0, i as int) =~= items@);
    assert forall|v: u128| out@.contains(v) <==> items@.contains(v) by {
        if out@.contains(v) {
            let w = choose|w: int| 0 <= w < out@.len() && out@[w] == v;
            assert(items@.subrange(0, i as int).contains(out@[w]));
        }
        if items@.contains(v) {
            let w = choose|w: int| 0 <= w < items@.len() && items@[w] == v;
            assert(out@.contains(items@[w]));
        }
    }
    out
}

/// A live connection's facts: the VIN it was made for, the pairing PIN,
/// and the UUIDs of all discovered characteristics.
pub struct BikeConnection {
    vin: String,
    pin: String,
    uuids: Vec<u128>,
}

impl BikeConnection {
    /// The VIN as characters.
    pub closed spec fn vin_view(&self) -> Seq<char> {
        self.vin@
    }

    /// The PIN as characters.
    pub closed spec fn pin_view(&self) -> Seq<char> {
        self.pin@
    }

    /// The discovered characteristic UUIDs, in increasing order.
    pub closed spec fn uuids_view(&self) -> Seq<u128> {
        self.uuids@
    }

    /// The facts of a connection to the bike `vin` whose characteristics
    /// `discovered` were found: the PIN is derived from the VIN and the
    /// normalized sold-on date. With nothing discovered there is no
    /// connection: no Stark services were found.
    pub fn new(vin: &str, sold_on: &str, discovered: &[u128]) -> (r: Result<Self, Error>)
        ensures
            discovered@.len() == 0 ==> r == Err::<Self, Error>(Error::NoServicesFound),
            discovered@.len() > 0 ==> (r matches Ok(c) && c.vin_view() == vin@ && c.pin_view()
                == pin_text(vin_date_hash(vin@, normalized_sold_on(sold_on@)))
                && strictly_increasing(c.uuids_view()) && (forall|v: u128|
                c.uuids_view().contains(v) <==> discovered@.contains(v))),
    {
        let sold_on = normalize_sold_on(sold_on);
        let pin = generate_pin(vin, sold_on.as_str());
        if discovered.len() == 0 {
            return Err(Error::NoServicesFound);
        }
        let uuids = sorted_unique(discovered);
        Ok(BikeConnection { vin: String::from_str(vin), pin, uuids })
    }

    /// The VIN this connection was established with.
    pub fn vin(&self) -> (v: &str)
        ensures
            v@ == self.vin_view(),
    {
        self.vin.as_str()
    }

    /// The 6-digit pairing PIN for this bike.
    pub fn pin(&self) -> (p: &str)
        ensures
            p@ == self.pin_view(),
    {
        self.pin.as_str()
    }

    /// The PIN as a numeric BLE SMP passkey (0–9999).
    pub fn pin_as_passkey(&self) -> (k: u32)
        ensures
            k == passkey_of(self.pin_view()),
    {
        pin_to_passkey(self.pin.as_str())
    }

    /// All discovered characteristic UUIDs, sorted for display.
    pub fn characteristic_uuids(&self) -> (u: Vec<u128>)
        ensures
            u@ == self.uuids_view(),
    {
        self.uuids.clone()
    }

    /// Whether the bike exposes the characteristic `uuid` (varies by
    /// firmware and hardware).
    pub fn has_characteristic(&self, uuid: u128) -> (r: bool)
        ensures
            r == self.uuids_view().contains(uuid),
    {
        let mut i: usize = 0;
        while i < self.uuids.len()
            invariant
                i <= self.uuids@.len(),
                forall|k: int| 0 <= k < i ==> self.uuids@[k] != uuid,
            decreases self.uuids@.len() - i,
        {
            if self.uuids[i] == uuid {
                return true;
            }
            i = i + 1;
        }
        false
    }
}

/// Whether `needle` occurs in `hay` as a contiguous run of characters.
pub open spec fn occurs_in(needle: Seq<char>, hay: Seq<char>) -> bool {
    exists|i: int| 0 <= i <= hay.len() - needle.len() && #[trigger] hay.subrange(i, i + needle.len()) == needle
}

/// Whether a scanned device is the bike looked for: it advertises the
/// Stark bike service, or its local name contains the VIN.
pub fn is_target_bike(advertises_bike_service: bool, local_name: &str, vin: &str) -> (r: bool)
    ensures
        r == (advertises_bike_service || occurs_in(vin@, local_name@)),
{
    if advertises_bike_service {
        return true;
    }
    let h = local_name.unicode_len();
    let n = vin.unicode_len();
    if n > h {
        assert(!occurs_in(vin@, local_name@));
        return false;
    }
    let mut i: usize = 0;
    while i <= h - n
        invariant
            h == local_name@.len(),
            n == vin@.len(),
            n <= h,
            i <= h - n + 1,
            forall|k: int| 0 <= k < i ==> #[trigger] local_name@.subrange(k, k + n) != vin@,
        decreases h - n + 1 - i,
    {
        let mut j: usize = 0;
        let mut same = true;
        while j < n
            invariant
                h == local_name@.len(),
                n == vin@.len(),
                i + n <= h,
                j <= n,
                same == (forall|m: int| 0 <= m < j ==> local_name@[i + m] == vin@[m]),
            decreases n - j,
        {
            if local_name.get_char(i + j) != vin.get_char(j) {
                same = false;
            }
            j = j + 1;
        }
        if same {
            assert(local_name@.subrange(i as int, i + n) =~= vin@);
            return true;
        }
        assert(local_name@.subrange(i as int, i + n) != vin@) by {
            let m = choose|m: int| 0 <= m < n && local_name@[i + m] != vin@[m];
            assert(local_name@.subrange(i as int, i + n)[m] == local_name@[i + m]);
        }
        i = i + 1;
    }
    false
}

} // verus!
