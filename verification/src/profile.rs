//! The lighting model.
//!
//! A [`Profile`] is the named, saveable thing. It owns one [`Lighting`] per
//! Fn+Space slot, so switching slots on the keyboard moves between three
//! looks that belong to the same profile. A flat, one-look profile of the
//! older file shape becomes a profile whose three slots match.
use vstd::prelude::*;

use crate::effects::{Brightness, Direction, Effects};
use crate::equality::spec_lighting_eq;

verus! {

pub const ZONE_COUNT: usize = 4;
pub const COLOR_CHANNELS_PER_ZONE: usize = 3;
pub const COLOR_BYTE_COUNT: usize = 12;

/// A full battery, in the percent the kernel reports.
pub const FULL_CHARGE_PERCENT: u8 = 100;

/// How much charge one zone of the battery gauge stands for: four zones
/// over a full battery, so 25 points each.
pub const ZONE_CHARGE_SPAN: u32 = 25;

/// Fn+Space lighting slots per profile.
pub const SLOT_COUNT: usize = 3;

/// Longest profile name accepted, in bytes.
pub const MAX_NAME_BYTES: usize = 64;

/// Slot colors a fresh profile starts with: red, green, blue.
pub open spec fn spec_default_slot_color(slot_index: int) -> [u8; 3] {
    if slot_index == 0 {
        [255u8, 0u8, 0u8]
    } else if slot_index == 1 {
        [0u8, 255u8, 0u8]
    } else {
        [0u8, 0u8, 255u8]
    }
}

#[derive(Clone, Copy, Debug)]
pub struct KeyboardZone {
    pub rgb: [u8; 3],
    pub enabled: bool,
}

impl KeyboardZone {
    /// A black, enabled zone.
    pub fn new() -> (z: KeyboardZone)
        ensures
            z.rgb@ == seq![0u8, 0u8, 0u8],
            z.enabled,
    {
        KeyboardZone { rgb: [0, 0, 0], enabled: true }
    }
}

/// What one slot shows.
#[derive(Clone, Copy, Debug)]
pub struct Lighting {
    pub rgb_zones: [KeyboardZone; 4],
    pub effect: Effects,
    pub direction: Direction,
    pub speed: u8,
    pub brightness: Brightness,
}

/// The byte at `index` of the 12-byte color payload of `zones`: a zone's
/// own color where it is enabled, black where it is not.
pub open spec fn spec_rgb_byte(zones: [KeyboardZone; 4], index: int) -> u8 {
    let zone = zones@[index / 3];
    if zone.enabled {
        zone.rgb@[index % 3]
    } else {
        0u8
    }
}

/// The flattened color payload of a lighting: four zones of red, green
/// and blue, disabled zones black.
pub open spec fn spec_rgb_array(l: Lighting) -> Seq<u8> {
    Seq::new(12, |i: int| spec_rgb_byte(l.rgb_zones, i))
}

/// How much of zone `zone_index` is lit at `percent` charge, in points
/// out of [`ZONE_CHARGE_SPAN`]. Charges above full count as full; zone 0
/// fills first and empties last.
pub open spec fn spec_charge_in_zone(percent: u8, zone_index: int) -> int {
    let charge: int = if percent > 100 { 100 } else { percent as int };
    let above_floor = charge - zone_index * 25;
    if above_floor <= 0 {
        0
    } else if above_floor >= 25 {
        25
    } else {
        above_floor
    }
}

/// The battery gauge at `percent`: each byte of the slot's own payload
/// scaled by how much of its zone the remaining charge covers.
pub open spec fn spec_gauge_byte(l: Lighting, percent: u8, index: int) -> u8 {
    (spec_rgb_byte(l.rgb_zones, index) as int * spec_charge_in_zone(percent, index / 3) / 25) as u8
}

pub open spec fn spec_battery_gauge_array(l: Lighting, percent: u8) -> Seq<u8> {
    Seq::new(12, |i: int| spec_gauge_byte(l, percent, i))
}

pub open spec fn spec_black_zone() -> KeyboardZone {
    KeyboardZone { rgb: [0u8, 0u8, 0u8], enabled: true }
}

/// A default lighting: black zones, static effect, slowest speed, low
/// brightness.
pub open spec fn spec_default_lighting() -> Lighting {
    Lighting {
        rgb_zones: [spec_black_zone(), spec_black_zone(), spec_black_zone(), spec_black_zone()],
        effect: Effects::Static,
        direction: Direction::Left,
        speed: 1,
        brightness: Brightness::Low,
    }
}

/// A lighting with every zone the same color, otherwise default.
pub open spec fn spec_solid(color: [u8; 3]) -> Lighting {
    Lighting {
        rgb_zones: [KeyboardZone { rgb: color, enabled: true }, KeyboardZone { rgb: color, enabled: true }, KeyboardZone { rgb: color, enabled: true }, KeyboardZone { rgb: color, enabled: true }],
        ..spec_default_lighting()
    }
}

impl Lighting {
    pub fn default_lighting() -> (l: Lighting)
        ensures
            l == spec_default_lighting(),
    {
        let zone = KeyboardZone { rgb: [0, 0, 0], enabled: true };
        let l = Lighting {
            rgb_zones: [zone, zone, zone, zone],
            effect: Effects::Static,
            direction: Direction::Left,
            speed: 1,
            brightness: Brightness::Low,
        };
        assert(l.rgb_zones =~= spec_default_lighting().rgb_zones);
        l
    }

    /// Flatten the four zones into the 12-byte color payload the keyboard
    /// expects. Disabled zones stay black.
    pub fn rgb_array(&self) -> (colors: [u8; 12])
        ensures
            colors@ == spec_rgb_array(*self),
    {
        let mut colors: [u8; 12] = [0; 12];
        let mut zone_index: usize = 0;
        while zone_index < ZONE_COUNT
            invariant
                0 <= zone_index <= 4,
                forall|i: int| 0 <= i < 3 * zone_index ==> colors@[i] == spec_rgb_byte(self.rgb_zones, i),
                forall|i: int| 3 * zone_index <= i < 12 ==> colors@[i] == 0u8,
            decreases 4 - zone_index,
        {
            let zone = self.rgb_zones[zone_index];
            if zone.enabled {
                let byte_offset = zone_index * COLOR_CHANNELS_PER_ZONE;
                colors[byte_offset] = zone.rgb[0];
                colors[byte_offset + 1] = zone.rgb[1];
                colors[byte_offset + 2] = zone.rgb[2];
            }
            zone_index = zone_index + 1;
        }
        assert(colors@ =~= spec_rgb_array(*self));
        colors
    }

    /// The color payload for a battery gauge at `percent`: this slot's own
    /// colors, dimmed zone by zone so the lit part of the keyboard is the
    /// part of the charge that is left. The zones empty right to left and a
    /// zone only partly covered is drawn at that fraction of its color.
    pub fn battery_gauge_array(&self, percent: u8) -> (dimmed: [u8; 12])
        ensures
            dimmed@ == spec_battery_gauge_array(*self, percent),
    {
        let full = self.rgb_array();
        let mut dimmed: [u8; 12] = [0; 12];

        // Kernel input reaches this, so clamp rather than assert.
        let charge: u32 = if percent > FULL_CHARGE_PERCENT { 100 } else { percent as u32 };

        let mut zone_index: usize = 0;
        while zone_index < ZONE_COUNT
            invariant
                0 <= zone_index <= 4,
                charge == (if percent > 100 { 100 } else { percent as int }),
                full@ == spec_rgb_array(*self),
                forall|i: int| 0 <= i < 3 * zone_index ==> dimmed@[i] == spec_gauge_byte(*self, percent, i),
            decreases 4 - zone_index,
        {
            let zone_floor: u32 = zone_index as u32 * ZONE_CHARGE_SPAN;
            let above: u32 = if charge > zone_floor { charge - zone_floor } else { 0 };
            let charge_in_zone: u32 = if above > ZONE_CHARGE_SPAN { ZONE_CHARGE_SPAN } else { above };
            assert(charge_in_zone == spec_charge_in_zone(percent, zone_index as int));

            let byte_offset = zone_index * COLOR_CHANNELS_PER_ZONE;
            let mut channel_index: usize = 0;
            while channel_index < COLOR_CHANNELS_PER_ZONE
                invariant
                    0 <= zone_index < 4,
                    0 <= channel_index <= 3,
                    byte_offset == 3 * zone_index,
                    charge_in_zone == spec_charge_in_zone(percent, zone_index as int),
                    0 <= charge_in_zone <= 25,
                    full@ == spec_rgb_array(*self),
                    forall|i: int| 0 <= i < byte_offset + channel_index ==> dimmed@[i] == spec_gauge_byte(*self, percent, i),
                decreases 3 - channel_index,
            {
                let index = byte_offset + channel_index;
                let channel: u32 = full[index] as u32;
                assert(channel * charge_in_zone <= 255 * 25) by (nonlinear_arith)
                    requires channel <= 255, charge_in_zone <= 25;
                let scaled: u32 = channel * charge_in_zone / ZONE_CHARGE_SPAN;
                assert(scaled <= 255) by (nonlinear_arith)
                    requires scaled == channel * charge_in_zone / 25, channel <= 255, charge_in_zone <= 25;
                assert(index as int / 3 == zone_index);
                dimmed[index] = scaled as u8;
                channel_index = channel_index + 1;
            }
            zone_index = zone_index + 1;
        }
        assert(dimmed@ =~= spec_battery_gauge_array(*self, percent));
        dimmed
    }

    /// A slot filled with one solid color on every zone.
    pub fn solid(color: [u8; 3]) -> (l: Lighting)
        ensures
            l == spec_solid(color),
    {
        let zone = KeyboardZone { rgb: color, enabled: true };
        let l = Lighting {
            rgb_zones: [zone, zone, zone, zone],
            effect: Effects::Static,
            direction: Direction::Left,
            speed: 1,
            brightness: Brightness::Low,
        };
        assert(l.rgb_zones =~= spec_solid(color).rgb_zones);
        l
    }
}

/// A named profile: one lighting configuration per Fn+Space slot.
#[derive(Debug)]
pub struct Profile {
    pub name: Option<String>,
    pub slots: [Lighting; 3],
}

/// A profile as contracts see it: the name as characters.
pub struct ProfileView {
    pub name: Option<Seq<char>>,
    /// The three slot lightings, slot 1 first.
    pub slots: Seq<Lighting>,
}

pub open spec fn spec_name_view(name: Option<String>) -> Option<Seq<char>> {
    match name {
        Some(s) => Some(s@),
        None => None,
    }
}

impl View for Profile {
    type V = ProfileView;

    open spec fn view(&self) -> ProfileView {
        ProfileView { name: spec_name_view(self.name), slots: self.slots@ }
    }
}

/// A copy of an optional name.
pub fn clone_name(name: &Option<String>) -> (r: Option<String>)
    ensures
        spec_name_view(r) == spec_name_view(*name),
{
    match name {
        Some(s) => Some(s.clone()),
        None => None,
    }
}

/// The default profile: unnamed, slots red, green and blue.
pub open spec fn spec_default_profile() -> ProfileView {
    ProfileView {
        name: None,
        slots: seq![spec_solid(spec_default_slot_color(0)), spec_solid(spec_default_slot_color(1)), spec_solid(spec_default_slot_color(2))],
    }
}

/// The slot (if exactly one) whose lighting equals `l`.
pub open spec fn spec_slot_showing(slots: Seq<Lighting>, l: Lighting) -> Option<usize> {
    let m0 = spec_lighting_eq(slots[0], l);
    let m1 = spec_lighting_eq(slots[1], l);
    let m2 = spec_lighting_eq(slots[2], l);
    if m0 && !m1 && !m2 {
        Some(0usize)
    } else if !m0 && m1 && !m2 {
        Some(1usize)
    } else if !m0 && !m1 && m2 {
        Some(2usize)
    } else {
        None
    }
}

impl Profile {
    pub fn default_profile() -> (p: Profile)
        ensures
            p@ == spec_default_profile(),
    {
        let s0 = Lighting::solid([255, 0, 0]);
        let s1 = Lighting::solid([0, 255, 0]);
        let s2 = Lighting::solid([0, 0, 255]);
        let p = Profile { name: None, slots: [s0, s1, s2] };
        assert(p@.slots =~= spec_default_profile().slots);
        p
    }

    /// A copy carrying the same name and slots.
    pub fn duplicate(&self) -> (p: Profile)
        ensures
            p@ == self@,
    {
        Profile { name: clone_name(&self.name), slots: self.slots }
    }

    /// Every slot showing the same lighting. A one-look profile becomes
    /// this, so activating it looks the same on whichever slot is live.
    pub fn from_uniform_lighting(name: Option<String>, lighting: Lighting) -> (p: Profile)
        ensures
            p@.name == spec_name_view(name),
            p.slots@ == seq![lighting, lighting, lighting],
    {
        let p = Profile { name, slots: [lighting, lighting, lighting] };
        assert(p.slots@ =~= seq![lighting, lighting, lighting]);
        p
    }

    /// The slot whose lighting equals `lighting`, if exactly one does.
    pub fn slot_showing(&self, lighting: &Lighting) -> (r: Option<usize>)
        ensures
            r == spec_slot_showing(self.slots@, *lighting),
    {
        let mut found: Option<usize> = None;
        let mut slot_index: usize = 0;
        proof {
            reveal_with_fuel(spec_count_matches, 4);
            reveal_with_fuel(spec_slot_showing_prefix, 4);
        }
        while slot_index < SLOT_COUNT
            invariant
                0 <= slot_index <= 3,
                0 <= spec_count_matches(self.slots@, *lighting, slot_index as int) <= 1,
                found == spec_slot_showing_prefix(self.slots@, *lighting, slot_index as int),
                found.is_some() == (spec_count_matches(self.slots@, *lighting, slot_index as int) == 1),
            decreases 3 - slot_index,
        {
            let matches = crate::equality::lighting_eq(&self.slots[slot_index], lighting);
            proof {
                reveal_with_fuel(spec_count_matches, 2);
                reveal_with_fuel(spec_slot_showing_prefix, 2);
                assert(matches == spec_lighting_eq(self.slots@[slot_index as int], *lighting));
                assert(spec_count_matches(self.slots@, *lighting, slot_index as int + 1) == spec_count_matches(
                    self.slots@,
                    *lighting,
                    slot_index as int,
                ) + if matches { 1int } else { 0int });
            }
            if matches {
                if found.is_some() {
                    proof {
                        reveal_with_fuel(spec_count_matches, 4);
                        lemma_count_monotone(self.slots@, *lighting, slot_index as int + 1, 3);
                    }
                    return None;
                }
                found = Some(slot_index);
            }
            slot_index = slot_index + 1;
        }
        found
    }
}

/// How many of the first `n` slots hold `l`.
pub open spec fn spec_count_matches(slots: Seq<Lighting>, l: Lighting, n: int) -> int
    decreases n,
{
    if n <= 0 {
        0
    } else {
        spec_count_matches(slots, l, n - 1) + if spec_lighting_eq(slots[n - 1], l) { 1int } else { 0int }
    }
}

proof fn lemma_count_monotone(slots: Seq<Lighting>, l: Lighting, a: int, b: int)
    requires
        0 <= a <= b,
    ensures
        spec_count_matches(slots, l, a) <= spec_count_matches(slots, l, b),
    decreases b - a,
{
    if a < b {
        lemma_count_monotone(slots, l, a, b - 1);
    }
}

/// The matching slot among the first `n`, when exactly one matches.
pub open spec fn spec_slot_showing_prefix(slots: Seq<Lighting>, l: Lighting, n: int) -> Option<usize>
    decreases n,
{
    if n <= 0 {
        None
    } else if spec_lighting_eq(slots[n - 1], l) {
        Some((n - 1) as usize)
    } else {
        spec_slot_showing_prefix(slots, l, n - 1)
    }
}

/// Split a 12-byte color payload into the four keyboard zones, all enabled.
pub fn arr_to_zones(arr: [u8; 12]) -> (zones: [KeyboardZone; 4])
    ensures
        forall|z: int| 0 <= z < 4 ==> (#[trigger] zones@[z]).enabled && zones@[z].rgb@ == seq![arr@[3 * z], arr@[3 * z + 1], arr@[3 * z + 2]],
{
    let zones = [
        KeyboardZone { rgb: [arr[0], arr[1], arr[2]], enabled: true },
        KeyboardZone { rgb: [arr[3], arr[4], arr[5]], enabled: true },
        KeyboardZone { rgb: [arr[6], arr[7], arr[8]], enabled: true },
        KeyboardZone { rgb: [arr[9], arr[10], arr[11]], enabled: true },
    ];
    assert(zones@[0].rgb@ =~= seq![arr@[0], arr@[1], arr@[2]]);
    assert(zones@[1].rgb@ =~= seq![arr@[3], arr@[4], arr@[5]]);
    assert(zones@[2].rgb@ =~= seq![arr@[6], arr@[7], arr@[8]]);
    assert(zones@[3].rgb@ =~= seq![arr@[9], arr@[10], arr@[11]]);
    zones
}

/// A profile file of the older, one-look shape: one flat lighting
/// configuration with a name.
pub struct LegacyProfileFile {
    pub name: Option<String>,
    pub rgb_zones: [KeyboardZone; 4],
    pub effect: Effects,
    pub direction: Direction,
    pub speed: u8,
    pub brightness: Brightness,
}

impl LegacyProfileFile {
    /// The lighting this file describes.
    pub open spec fn spec_lighting(&self) -> Lighting {
        Lighting {
            rgb_zones: self.rgb_zones,
            effect: self.effect,
            direction: self.direction,
            speed: self.speed,
            brightness: self.brightness,
        }
    }

    /// Lift the file into a profile whose three slots all show its look.
    pub fn into_profile(self) -> (p: Profile)
        ensures
            p@.name == spec_name_view(self.name),
            p.slots@ == seq![self.spec_lighting(), self.spec_lighting(), self.spec_lighting()],
    {
        let lighting = Lighting {
            rgb_zones: self.rgb_zones,
            effect: self.effect,
            direction: self.direction,
            speed: self.speed,
            brightness: self.brightness,
        };
        Profile::from_uniform_lighting(self.name, lighting)
    }
}

/// A profile file could be read neither in the current shape nor in the
/// older one.
#[derive(Clone, Copy, Debug)]
pub struct LoadProfileError;

/// A profile file could not be written.
#[derive(Clone, Copy, Debug)]
pub struct SaveProfileError;

impl LoadProfileError {
    pub fn describe(&self) -> (r: String)
        ensures
            r@ == "Could not load profile"@,
    {
        crate::text::owned("Could not load profile")
    }
}

impl SaveProfileError {
    pub fn describe(&self) -> (r: String)
        ensures
            r@ == "Could not save profile"@,
    {
        crate::text::owned("Could not save profile")
    }
}

impl Profile {
    /// The profile a file holds, given how the file read in the current
    /// shape and in the older one-look shape (`None` where it did not
    /// parse as that shape): the current shape wins; the older one is
    /// lifted into every slot; neither is an error.
    pub fn load_profile(current: Option<Profile>, legacy: Option<LegacyProfileFile>) -> (r: Result<
        Profile,
        LoadProfileError,
    >)
        ensures
            current matches Some(p) ==> (r matches Ok(q) && q@ == p@),
            current is None ==> (legacy matches Some(l) ==> (r matches Ok(q) && q@.name == spec_name_view(l.name)
                && q.slots@ == seq![l.spec_lighting(), l.spec_lighting(), l.spec_lighting()])),
            current is None && legacy is None ==> r is Err,
    {
        match current {
            Some(p) => Ok(p),
            None => match legacy {
                Some(l) => Ok(l.into_profile()),
                None => Err(LoadProfileError),
            },
        }
    }

    /// Name an unnamed profile `Untitled` before it is written to a file.
    pub fn name_for_saving(&mut self)
        ensures
            final(self).slots == old(self).slots,
            old(self).name is Some ==> final(self)@.name == old(self)@.name,
            old(self).name is None ==> final(self)@.name == Some("Untitled"@),
    {
        if self.name.is_none() {
            self.name = Some(crate::text::owned("Untitled"));
        }
    }
}

} // verus!
