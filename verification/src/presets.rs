//! Power mode presets for the Stark Varg.
//!
//! These are named configurations that can be written to the bike's map
//! slots via the VCU Config characteristic (0x4005). Each preset defines
//! power (as HP), regenerative braking strength, and throttle curve.
//!
//! - **Power (HP)**: 0–80. The bike's absolute max is 80hp.
//! - **Regen**: 0–100. 100 = maximum engine braking, 0 = coasting.
//! - **Curve**: 0–4. Index into the bike's throttle response curves.
//!
//! The bike stores torque as a raw value: `torque_raw = hp * 1.25`
//! (rounded toward zero), `hp = torque_raw / 1.25`.

use vstd::prelude::*;

verus! {

/// A named power mode configuration.
#[derive(Debug, Clone, Copy)]
pub struct PowerPreset {
    pub name: &'static str,
    pub description: &'static str,
    pub power_hp: u8,
    pub regen: u8,
    pub curve: u8,
}

/// The raw torque for a power in HP: `hp * 1.25`, rounded toward zero.
pub open spec fn torque_for_hp(hp: u8) -> i16 {
    ((hp as int * 5) / 4) as i16
}

impl PowerPreset {
    /// Convert power HP to the raw torque value the bike expects.
    pub fn torque_raw(&self) -> (t: i16)
        ensures
            t == torque_for_hp(self.power_hp),
    {
        ((self.power_hp as u16 * 5) / 4) as i16
    }
}

/// The bike's absolute maximum power.
pub const MAX_POWER_HP: u8 = 80;

/// Maximum regen braking value.
pub const MAX_REGEN: u8 = 100;

/// The curated preset at position `i` (0–4), from mildest to most aggressive:
/// Mellow, Trail, Sport, Race, Max.
pub open spec fn curated(i: int) -> PowerPreset {
    if i == 0 {
        PowerPreset { name: "Mellow", description: "Gentle power, light engine braking. Good for learning or trails.", power_hp: 20, regen: 30, curve: 0 }
    } else if i == 1 {
        PowerPreset { name: "Trail", description: "Moderate power with manageable engine braking.", power_hp: 35, regen: 50, curve: 0 }
    } else if i == 2 {
        PowerPreset { name: "Sport", description: "Punchy power with firm engine braking.", power_hp: 52, regen: 70, curve: 0 }
    } else if i == 3 {
        PowerPreset { name: "Race", description: "Full standard power with strong engine braking.", power_hp: 60, regen: 85, curve: 0 }
    } else {
        PowerPreset { name: "Max", description: "Absolute maximum. 80hp, full regen. For experienced riders only.", power_hp: 80, regen: 100, curve: 0 }
    }
}

/// Stark's factory default power mode for slot `i` (0–4): 44, 48, 52, 56
/// and 60 hp, all with regen 100 and curve 0.
pub open spec fn factory(i: int) -> PowerPreset {
    if i == 0 {
        PowerPreset { name: "Factory 1", description: "Stark default slot 0 — 44hp, full regen", power_hp: 44, regen: 100, curve: 0 }
    } else if i == 1 {
        PowerPreset { name: "Factory 2", description: "Stark default slot 1 — 48hp, full regen", power_hp: 48, regen: 100, curve: 0 }
    } else if i == 2 {
        PowerPreset { name: "Factory 3", description: "Stark default slot 2 — 52hp, full regen", power_hp: 52, regen: 100, curve: 0 }
    } else if i == 3 {
        PowerPreset { name: "Factory 4", description: "Stark default slot 3 — 56hp, full regen", power_hp: 56, regen: 100, curve: 0 }
    } else {
        PowerPreset { name: "Factory 5", description: "Stark default slot 4 — 60hp, full regen", power_hp: 60, regen: 100, curve: 0 }
    }
}

/// The number of curated presets, and of factory slots.
pub const PRESET_COUNT: usize = 5;

/// The curated preset at position `i`.
pub fn curated_preset(i: usize) -> (p: PowerPreset)
    requires
        i < PRESET_COUNT,
    ensures
        p == curated(i as int),
{
    if i == 0 {
        PowerPreset { name: "Mellow", description: "Gentle power, light engine braking. Good for learning or trails.", power_hp: 20, regen: 30, curve: 0 }
    } else if i == 1 {
        PowerPreset { name: "Trail", description: "Moderate power with manageable engine braking.", power_hp: 35, regen: 50, curve: 0 }
    } else if i == 2 {
        PowerPreset { name: "Sport", description: "Punchy power with firm engine braking.", power_hp: 52, regen: 70, curve: 0 }
    } else if i == 3 {
        PowerPreset { name: "Race", description: "Full standard power with strong engine braking.", power_hp: 60, regen: 85, curve: 0 }
    } else {
        PowerPreset { name: "Max", description: "Absolute maximum. 80hp, full regen. For experienced riders only.", power_hp: 80, regen: 100, curve: 0 }
    }
}

/// Stark's factory default for slot `i`.
pub fn factory_preset(i: usize) -> (p: PowerPreset)
    requires
        i < PRESET_COUNT,
    ensures
        p == factory(i as int),
{
    if i == 0 {
        PowerPreset { name: "Factory 1", description: "Stark default slot 0 — 44hp, full regen", power_hp: 44, regen: 100, curve: 0 }
    } else if i == 1 {
        PowerPreset { name: "Factory 2", description: "Stark default slot 1 — 48hp, full regen", power_hp: 48, regen: 100, curve: 0 }
    } else if i == 2 {
        PowerPreset { name: "Factory 3", description: "Stark default slot 2 — 52hp, full regen", power_hp: 52, regen: 100, curve: 0 }
    } else if i == 3 {
        PowerPreset { name: "Factory 4", description: "Stark default slot 3 — 56hp, full regen", power_hp: 56, regen: 100, curve: 0 }
    } else {
        PowerPreset { name: "Factory 5", description: "Stark default slot 4 — 60hp, full regen", power_hp: 60, regen: 100, curve: 0 }
    }
}

/// All curated presets, in order from mildest to most aggressive.
pub fn presets() -> (all: Vec<PowerPreset>)
    ensures
        all@ == Seq::new(PRESET_COUNT as nat, |i: int| curated(i)),
{
    let mut all: Vec<PowerPreset> = Vec::with_capacity(PRESET_COUNT);
    let mut i: usize = 0;
    while i < PRESET_COUNT
        invariant
            i <= PRESET_COUNT,
            all@ =~= Seq::new(i as nat, |j: int| curated(j)),
        decreases PRESET_COUNT - i,
    {
        all.push(curated_preset(i));
        i = i + 1;
    }
    all
}

/// Stark's 5 factory default power modes. All use regen 100 and curve 0.
pub fn factory_defaults() -> (all: Vec<PowerPreset>)
    ensures
        all@ == Seq::new(PRESET_COUNT as nat, |i: int| factory(i)),
{
    let mut all: Vec<PowerPreset> = Vec::with_capacity(PRESET_COUNT);
    let mut i: usize = 0;
    while i < PRESET_COUNT
        invariant
            i <= PRESET_COUNT,
            all@ =~= Seq::new(i as nat, |j: int| factory(j)),
        decreases PRESET_COUNT - i,
    {
        all.push(factory_preset(i));
        i = i + 1;
    }
    all
}

/// Unicode lower-casing as std's `str::to_lowercase` does it.
pub uninterp spec fn lowercase(s: Seq<char>) -> Seq<char>;

/// ASCII lower-casing of one character.
pub open spec fn ascii_lower(c: char) -> char {
    if 'A' <= c && c <= 'Z' { ((c as int) + 32) as char } else { c }
}

/// Lower-cases with std's `str::to_lowercase`. The contract names the
/// result and states the case plainly given by Unicode's mappings: an
/// all-ASCII string is lower-cased letter by letter, `A`–`Z` to `a`–`z`.
/// What it does to other characters is not stated.
#[verifier::external_body]
fn str_to_lowercase(s: &str) -> (r: String)
    ensures
        r@ == lowercase(s@),
        vstd::utf8::is_ascii_chars(s@) ==> r@ == s@.map_values(|c: char| ascii_lower(c)),
{
    s.to_lowercase()
}

/// The position of the first curated preset whose lower-cased name is
/// `lower`, among those listed up to `n`.
pub open spec fn preset_position(lower: Seq<char>, n: int) -> Option<int>
    decreases n,
{
    if n <= 0 {
        None
    } else {
        match preset_position(lower, n - 1) {
            Some(i) => Some(i),
            None => if lowercase(curated(n - 1).name@) == lower { Some(n - 1) } else { None },
        }
    }
}

proof fn lemma_position_stable(lower: Seq<char>, a: int, b: int)
    requires
        a <= b,
        preset_position(lower, a) is Some,
    ensures
        preset_position(lower, b) == preset_position(lower, a),
    decreases b - a,
{
    if a < b {
        lemma_position_stable(lower, a, b - 1);
    }
}

/// `s` with its ASCII letters lower-cased.
pub open spec fn ascii_lowered(s: Seq<char>) -> Seq<char> {
    s.map_values(|c: char| ascii_lower(c))
}

/// The position of the first curated preset, among those listed up to
/// `n`, whose name with its ASCII letters lower-cased is `key`.
pub open spec fn ascii_preset_position(key: Seq<char>, n: int) -> Option<int>
    decreases n,
{
    if n <= 0 {
        None
    } else {
        match ascii_preset_position(key, n - 1) {
            Some(i) => Some(i),
            None => if ascii_lowered(curated(n - 1).name@) == key { Some(n - 1) } else { None },
        }
    }
}

/// Where the curated names are lowered as ASCII, the two positions agree.
proof fn lemma_positions_agree(key: Seq<char>, n: int)
    requires
        forall|j: int| 0 <= j < n ==> lowercase(#[trigger] curated(j).name@) == ascii_lowered(curated(j).name@),
    ensures
        preset_position(key, n) == ascii_preset_position(key, n),
    decreases n,
{
    if n > 0 {
        lemma_positions_agree(key, n - 1);
        assert(lowercase(curated(n - 1).name@) == ascii_lowered(curated(n - 1).name@));
    }
}

/// Every curated preset name is ASCII.
proof fn lemma_curated_names_ascii(i: int)
    ensures
        vstd::utf8::is_ascii_chars(curated(i).name@),
{
    reveal_strlit("Mellow");
    reveal_strlit("Trail");
    reveal_strlit("Sport");
    reveal_strlit("Race");
    reveal_strlit("Max");
}

/// Look up a preset by name (case-insensitive): the first curated preset
/// whose lower-cased name equals the lower-cased `name`. For an ASCII
/// `name` that is the first curated preset whose name equals `name` once
/// the ASCII letters of both are lower-cased.
pub fn preset_by_name(name: &str) -> (found: Option<PowerPreset>)
    ensures
        found == (match preset_position(lowercase(name@), PRESET_COUNT as int) {
            Some(i) => Some(curated(i)),
            None => None,
        }),
        vstd::utf8::is_ascii_chars(name@) ==> found == (match ascii_preset_position(
            ascii_lowered(name@),
            PRESET_COUNT as int,
        ) {
            Some(i) => Some(curated(i)),
            None => None,
        }),
{
    let lower = str_to_lowercase(name);
    proof {
        if vstd::utf8::is_ascii_chars(name@) {
            assert(lower@ =~= ascii_lowered(name@));
        }
    }
    let mut i: usize = 0;
    while i < PRESET_COUNT
        invariant
            i <= PRESET_COUNT,
            lower@ == lowercase(name@),
            vstd::utf8::is_ascii_chars(name@) ==> lower@ == ascii_lowered(name@),
            preset_position(lower@, i as int) is None,
            forall|j: int| 0 <= j < i ==> lowercase(#[trigger] curated(j).name@) == ascii_lowered(curated(j).name@),
        decreases PRESET_COUNT - i,
    {
        let p = curated_preset(i);
        proof {
            lemma_curated_names_ascii(i as int);
        }
        let pl = str_to_lowercase(p.name);
        assert(pl@ =~= ascii_lowered(p.name@));
        if pl == lower {
            proof {
                assert(preset_position(lower@, i + 1) == Some(i as int));
                lemma_position_stable(lower@, i + 1, PRESET_COUNT as int);
                lemma_positions_agree(lower@, i + 1);
                if vstd::utf8::is_ascii_chars(name@) {
                    lemma_ascii_position_stable(lower@, i + 1, PRESET_COUNT as int);
                }
            }
            return Some(p);
        }
        i = i + 1;
    }
    proof {
        lemma_positions_agree(lower@, PRESET_COUNT as int);
    }
    None
}

proof fn lemma_ascii_position_stable(key: Seq<char>, a: int, b: int)
    requires
        a <= b,
        ascii_preset_position(key, a) is Some,
    ensures
        ascii_preset_position(key, b) == ascii_preset_position(key, a),
    decreases b - a,
{
    if a < b {
        lemma_ascii_position_stable(key, a, b - 1);
    }
}

} // verus!
