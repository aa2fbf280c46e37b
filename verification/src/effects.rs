//! The effect vocabulary shared by the daemon, its clients and the
//! settings file.
//!
//! Every effect the keyboard can run is a variant of [`Effects`]. The
//! order of [`EFFECT_COUNT`] variants below is the order clients list them
//! in, so an index into that list names the same effect everywhere.
//!
//! The ambient effect's saturation boost is a 32-bit float on the wire;
//! here it is carried as its IEEE-754 bit pattern, which keeps every rule
//! about it (range checks, equality) in exact integer arithmetic.
use vstd::prelude::*;

verus! {

/// Which way a directional effect travels.
#[derive(Clone, Copy, Debug, PartialEq, Eq, Structural)]
pub enum Direction {
    Left,
    Right,
}

/// The two backlight levels the controller has.
#[derive(Clone, Copy, Debug, PartialEq, Eq, Structural)]
pub enum Brightness {
    Low,
    High,
}

/// How a swipe effect moves its colors.
#[derive(Clone, Copy, Debug, PartialEq, Eq, Structural)]
pub enum SwipeMode {
    Change,
    Fill,
}

/// Every lighting effect Aurora can run.
#[derive(Clone, Copy, Debug)]
pub enum Effects {
    Static,
    Breath,
    Smooth,
    Wave,
    Lightning,
    /// Screen colors mirrored onto the zones. `saturation_boost_bits` is
    /// the bit pattern of an `f32`.
    AmbientLight { fps: u8, saturation_boost_bits: u32 },
    SmoothWave { mode: SwipeMode, clean_with_black: bool },
    Swipe { mode: SwipeMode, clean_with_black: bool },
    Disco,
    Christmas,
    Fade,
    Temperature,
    Ripple,
    /// The keyboard as a charge gauge.
    Battery,
}

/// How many effects there are.
pub const EFFECT_COUNT: usize = 14;

impl Direction {
    pub fn default_direction() -> (d: Direction)
        ensures
            d == Direction::Left,
    {
        Direction::Left
    }
}

impl Brightness {
    /// The brightness byte the controller takes: 1 for low, 2 for high.
    pub open spec fn spec_level(self) -> u8 {
        match self {
            Brightness::Low => 1,
            Brightness::High => 2,
        }
    }

    pub fn level(self) -> (r: u8)
        ensures
            r == self.spec_level(),
    {
        match self {
            Brightness::Low => 1,
            Brightness::High => 2,
        }
    }
}

/// The position of an effect in the client-facing list.
pub open spec fn spec_effect_position(effect: Effects) -> nat {
    match effect {
        Effects::Static => 0,
        Effects::Breath => 1,
        Effects::Smooth => 2,
        Effects::Wave => 3,
        Effects::Lightning => 4,
        Effects::AmbientLight { .. } => 5,
        Effects::SmoothWave { .. } => 6,
        Effects::Swipe { .. } => 7,
        Effects::Disco => 8,
        Effects::Christmas => 9,
        Effects::Fade => 10,
        Effects::Temperature => 11,
        Effects::Ripple => 12,
        Effects::Battery => 13,
    }
}

/// The effect at a list position, with the field values a client offers
/// when the user first picks it: ambient at 30 fps and no boost, swipes
/// changing colors without black in between.
pub open spec fn spec_effect_with_defaults(index: int) -> Effects {
    if index == 0 {
        Effects::Static
    } else if index == 1 {
        Effects::Breath
    } else if index == 2 {
        Effects::Smooth
    } else if index == 3 {
        Effects::Wave
    } else if index == 4 {
        Effects::Lightning
    } else if index == 5 {
        Effects::AmbientLight { fps: 30, saturation_boost_bits: 0 }
    } else if index == 6 {
        Effects::SmoothWave { mode: SwipeMode::Change, clean_with_black: false }
    } else if index == 7 {
        Effects::Swipe { mode: SwipeMode::Change, clean_with_black: false }
    } else if index == 8 {
        Effects::Disco
    } else if index == 9 {
        Effects::Christmas
    } else if index == 10 {
        Effects::Fade
    } else if index == 11 {
        Effects::Temperature
    } else if index == 12 {
        Effects::Ripple
    } else {
        Effects::Battery
    }
}

/// The effect at `index` in the client-facing list, or `None` past its
/// end.
pub fn effect_by_index(index: usize) -> (r: Option<Effects>)
    ensures
        index < EFFECT_COUNT ==> r == Some(spec_effect_with_defaults(index as int)),
        index >= EFFECT_COUNT ==> r.is_none(),
{
    if index >= EFFECT_COUNT {
        return None;
    }
    let effect = if index == 0 {
        Effects::Static
    } else if index == 1 {
        Effects::Breath
    } else if index == 2 {
        Effects::Smooth
    } else if index == 3 {
        Effects::Wave
    } else if index == 4 {
        Effects::Lightning
    } else if index == 5 {
        Effects::AmbientLight { fps: 30, saturation_boost_bits: 0 }
    } else if index == 6 {
        Effects::SmoothWave { mode: SwipeMode::Change, clean_with_black: false }
    } else if index == 7 {
        Effects::Swipe { mode: SwipeMode::Change, clean_with_black: false }
    } else if index == 8 {
        Effects::Disco
    } else if index == 9 {
        Effects::Christmas
    } else if index == 10 {
        Effects::Fade
    } else if index == 11 {
        Effects::Temperature
    } else if index == 12 {
        Effects::Ripple
    } else {
        Effects::Battery
    };
    Some(effect)
}

/// The list position of `effect`'s variant; its fields play no part.
pub fn effect_index(effect: Effects) -> (r: Option<usize>)
    ensures
        r == Some(spec_effect_position(effect) as usize),
        spec_effect_position(effect) < EFFECT_COUNT,
{
    let position: usize = match effect {
        Effects::Static => 0,
        Effects::Breath => 1,
        Effects::Smooth => 2,
        Effects::Wave => 3,
        Effects::Lightning => 4,
        Effects::AmbientLight { .. } => 5,
        Effects::SmoothWave { .. } => 6,
        Effects::Swipe { .. } => 7,
        Effects::Disco => 8,
        Effects::Christmas => 9,
        Effects::Fade => 10,
        Effects::Temperature => 11,
        Effects::Ripple => 12,
        Effects::Battery => 13,
    };
    Some(position)
}

/// Picking an effect by its position and asking for its position gives the
/// position back, for every position in the list.
pub proof fn law_effect_index_round_trip(index: int)
    requires
        0 <= index < EFFECT_COUNT,
    ensures
        spec_effect_position(spec_effect_with_defaults(index)) == index,
{
}

impl Effects {
    /// Effects the controller runs by itself once configured.
    pub open spec fn spec_is_built_in(self) -> bool {
        match self {
            Effects::Static | Effects::Breath | Effects::Smooth | Effects::Wave => true,
            _ => false,
        }
    }

    pub fn is_built_in(self) -> (r: bool)
        ensures
            r == self.spec_is_built_in(),
    {
        match self {
            Effects::Static | Effects::Breath | Effects::Smooth | Effects::Wave => true,
            _ => false,
        }
    }

    /// Effects whose look comes from the slot's own zone colors.
    pub open spec fn spec_takes_color_array(self) -> bool {
        match self {
            Effects::Static | Effects::Breath | Effects::Lightning | Effects::Swipe { .. }
            | Effects::Fade | Effects::Ripple | Effects::Battery => true,
            _ => false,
        }
    }

    pub fn takes_color_array(self) -> (r: bool)
        ensures
            r == self.spec_takes_color_array(),
    {
        match self {
            Effects::Static | Effects::Breath | Effects::Lightning | Effects::Swipe { .. }
            | Effects::Fade | Effects::Ripple | Effects::Battery => true,
            _ => false,
        }
    }

    /// Effects whose pace follows the lighting's speed: the animated
    /// built-ins, which the controller times itself, and the software
    /// effects that step or pause by it.
    pub open spec fn spec_takes_speed(self) -> bool {
        match self {
            Effects::Breath | Effects::Smooth | Effects::Wave | Effects::Lightning | Effects::SmoothWave { .. }
            | Effects::Swipe { .. } | Effects::Disco | Effects::Fade | Effects::Ripple => true,
            _ => false,
        }
    }

    pub fn takes_speed(self) -> (r: bool)
        ensures
            r == self.spec_takes_speed(),
    {
        match self {
            Effects::Breath | Effects::Smooth | Effects::Wave | Effects::Lightning | Effects::SmoothWave { .. }
            | Effects::Swipe { .. } | Effects::Disco | Effects::Fade | Effects::Ripple => true,
            _ => false,
        }
    }

    /// Effects that travel one way or the other: the wave, and the two
    /// swipes, which walk the zones in the lighting's direction.
    pub open spec fn spec_takes_direction(self) -> bool {
        match self {
            Effects::Wave | Effects::SmoothWave { .. } | Effects::Swipe { .. } => true,
            _ => false,
        }
    }

    pub fn takes_direction(self) -> (r: bool)
        ensures
            r == self.spec_takes_direction(),
    {
        match self {
            Effects::Wave | Effects::SmoothWave { .. } | Effects::Swipe { .. } => true,
            _ => false,
        }
    }

    /// Only the battery gauge needs hardware a desktop lacks.
    pub open spec fn spec_needs_a_battery(self) -> bool {
        self is Battery
    }

    pub fn needs_a_battery(self) -> (r: bool)
        ensures
            r == self.spec_needs_a_battery(),
    {
        match self {
            Effects::Battery => true,
            _ => false,
        }
    }

    /// Same variant, whatever the fields hold.
    pub fn same_variant(self, other: Effects) -> (r: bool)
        ensures
            r == (spec_effect_position(self) == spec_effect_position(other)),
    {
        let a = effect_index(self);
        let b = effect_index(other);
        match (a, b) {
            (Some(x), Some(y)) => x == y,
            _ => false,
        }
    }
}

} // verus!
