//! Equality of effects and lightings.
//!
//! Two lightings are equal when every field is, with the ambient
//! saturation boost compared the way 32-bit floats compare: a NaN equals
//! nothing, not even itself, and the two zeros equal each other. The boost
//! is held as its bit pattern, so these rules are stated on the bits.
use vstd::prelude::*;
use vstd::std_specs::cmp::PartialEqSpecImpl;

use crate::effects::Effects;
use crate::profile::{KeyboardZone, Lighting};

verus! {

/// The bit pattern with the sign bit cleared.
pub open spec fn spec_magnitude_bits(bits: u32) -> int {
    bits as int % 0x8000_0000
}

/// True when the bits encode a NaN: all exponent bits set and a nonzero
/// fraction.
pub open spec fn spec_is_nan_bits(bits: u32) -> bool {
    spec_magnitude_bits(bits) > 0x7f80_0000
}

/// True when the bits encode positive or negative zero.
pub open spec fn spec_is_zero_bits(bits: u32) -> bool {
    spec_magnitude_bits(bits) == 0
}

/// IEEE-754 equality of two `f32` values given by their bits.
pub open spec fn spec_f32_bits_eq(a: u32, b: u32) -> bool {
    (a == b && !spec_is_nan_bits(a)) || (spec_is_zero_bits(a) && spec_is_zero_bits(b))
}

pub open spec fn spec_effects_eq(a: Effects, b: Effects) -> bool {
    match (a, b) {
        (
            Effects::AmbientLight { fps: fa, saturation_boost_bits: sa },
            Effects::AmbientLight { fps: fb, saturation_boost_bits: sb },
        ) => fa == fb && spec_f32_bits_eq(sa, sb),
        _ => a == b,
    }
}

pub open spec fn spec_lighting_eq(a: Lighting, b: Lighting) -> bool {
    &&& a.rgb_zones == b.rgb_zones
    &&& spec_effects_eq(a.effect, b.effect)
    &&& a.direction == b.direction
    &&& a.speed == b.speed
    &&& a.brightness == b.brightness
}

pub fn f32_bits_eq(a: u32, b: u32) -> (r: bool)
    ensures
        r == spec_f32_bits_eq(a, b),
{
    let ma = a % 0x8000_0000;
    let mb = b % 0x8000_0000;
    (a == b && ma <= 0x7f80_0000) || (ma == 0 && mb == 0)
}

pub fn effects_eq(a: &Effects, b: &Effects) -> (r: bool)
    ensures
        r == spec_effects_eq(*a, *b),
{
    match (*a, *b) {
        (Effects::Static, Effects::Static) => true,
        (Effects::Breath, Effects::Breath) => true,
        (Effects::Smooth, Effects::Smooth) => true,
        (Effects::Wave, Effects::Wave) => true,
        (Effects::Lightning, Effects::Lightning) => true,
        (
            Effects::AmbientLight { fps: fa, saturation_boost_bits: sa },
            Effects::AmbientLight { fps: fb, saturation_boost_bits: sb },
        ) => fa == fb && f32_bits_eq(sa, sb),
        (
            Effects::SmoothWave { mode: ma, clean_with_black: ca },
            Effects::SmoothWave { mode: mb, clean_with_black: cb },
        ) => ma == mb && ca == cb,
        (
            Effects::Swipe { mode: ma, clean_with_black: ca },
            Effects::Swipe { mode: mb, clean_with_black: cb },
        ) => ma == mb && ca == cb,
        (Effects::Disco, Effects::Disco) => true,
        (Effects::Christmas, Effects::Christmas) => true,
        (Effects::Fade, Effects::Fade) => true,
        (Effects::Temperature, Effects::Temperature) => true,
        (Effects::Ripple, Effects::Ripple) => true,
        (Effects::Battery, Effects::Battery) => true,
        _ => false,
    }
}

pub fn lighting_eq(a: &Lighting, b: &Lighting) -> (r: bool)
    ensures
        r == spec_lighting_eq(*a, *b),
{
    let zones_equal = zone_eq(&a.rgb_zones[0], &b.rgb_zones[0]) && zone_eq(&a.rgb_zones[1], &b.rgb_zones[1])
        && zone_eq(&a.rgb_zones[2], &b.rgb_zones[2]) && zone_eq(&a.rgb_zones[3], &b.rgb_zones[3]);
    proof {
        if zones_equal {
            assert(a.rgb_zones =~= b.rgb_zones);
        }
    }
    zones_equal && effects_eq(&a.effect, &b.effect) && a.direction == b.direction && a.speed == b.speed
        && a.brightness == b.brightness
}

pub fn zone_eq(a: &KeyboardZone, b: &KeyboardZone) -> (r: bool)
    ensures
        r == (*a == *b),
{
    let r = a.rgb[0] == b.rgb[0] && a.rgb[1] == b.rgb[1] && a.rgb[2] == b.rgb[2] && a.enabled == b.enabled;
    proof {
        if r {
            assert(a.rgb =~= b.rgb);
        }
    }
    r
}

impl PartialEq for KeyboardZone {
    fn eq(&self, other: &KeyboardZone) -> (r: bool) {
        zone_eq(self, other)
    }
}

impl PartialEqSpecImpl for KeyboardZone {
    open spec fn obeys_eq_spec() -> bool {
        true
    }

    open spec fn eq_spec(&self, other: &KeyboardZone) -> bool {
        *self == *other
    }
}

impl Eq for KeyboardZone {
}

impl PartialEq for Effects {
    fn eq(&self, other: &Effects) -> (r: bool) {
        effects_eq(self, other)
    }
}

impl PartialEqSpecImpl for Effects {
    open spec fn obeys_eq_spec() -> bool {
        true
    }

    open spec fn eq_spec(&self, other: &Effects) -> bool {
        spec_effects_eq(*self, *other)
    }
}

impl PartialEq for Lighting {
    fn eq(&self, other: &Lighting) -> (r: bool) {
        lighting_eq(self, other)
    }
}

impl PartialEqSpecImpl for Lighting {
    open spec fn obeys_eq_spec() -> bool {
        true
    }

    open spec fn eq_spec(&self, other: &Lighting) -> bool {
        spec_lighting_eq(*self, *other)
    }
}

} // verus!
