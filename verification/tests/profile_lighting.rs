use aurora::effects::{Brightness, Direction, Effects};
use aurora::profile::{KeyboardZone, LegacyProfileFile, Lighting, Profile, COLOR_BYTE_COUNT};

#[test]
fn default_profile_slots_are_red_green_blue() {
    let profile = Profile::default_profile();

    assert_eq!(profile.slots[0].rgb_array(), [255, 0, 0, 255, 0, 0, 255, 0, 0, 255, 0, 0]);
    assert_eq!(profile.slots[1].rgb_array(), [0, 255, 0, 0, 255, 0, 0, 255, 0, 0, 255, 0]);
    assert_eq!(profile.slots[2].rgb_array(), [0, 0, 255, 0, 0, 255, 0, 0, 255, 0, 0, 255]);
}

#[test]
fn legacy_profile_file_lifts_into_every_slot() {
    let parsed = LegacyProfileFile {
        name: Some("old".to_string()),
        rgb_zones: [
            KeyboardZone { rgb: [255, 0, 0], enabled: true },
            KeyboardZone { rgb: [0, 255, 0], enabled: true },
            KeyboardZone { rgb: [0, 0, 255], enabled: false },
            KeyboardZone { rgb: [1, 2, 3], enabled: true },
        ],
        effect: Effects::Breath,
        direction: Direction::Right,
        speed: 3,
        brightness: Brightness::High,
    };
    let profile = parsed.into_profile();

    assert_eq!(profile.name.as_deref(), Some("old"));
    for slot in &profile.slots {
        assert_eq!(slot.effect, Effects::Breath);
        assert_eq!(slot.speed, 3);
        assert!(!slot.rgb_zones[2].enabled);
    }
}

#[test]
fn slot_showing_needs_an_unambiguous_match() {
    let profile = Profile::default_profile();

    let green = profile.slots[1].clone();
    assert_eq!(profile.slot_showing(&green), Some(1));

    let uniform = Profile::from_uniform_lighting(None, Lighting::solid([1, 2, 3]));
    assert_eq!(uniform.slot_showing(&uniform.slots[0].clone()), None);

    assert_eq!(profile.slot_showing(&Lighting::solid([9, 9, 9])), None);
}

#[test]
fn a_full_battery_leaves_every_zone_alone() {
    let lighting = Lighting::solid([255, 128, 0]);

    assert_eq!(
        lighting.battery_gauge_array(100),
        lighting.rgb_array(),
        "a full gauge is the user's own lighting, untouched"
    );
}

#[test]
fn an_empty_battery_leaves_nothing_lit() {
    let lighting = Lighting::solid([255, 128, 0]);

    assert_eq!(lighting.battery_gauge_array(0), [0; COLOR_BYTE_COUNT]);
}

#[test]
fn the_gauge_empties_from_the_right() {
    let lighting = Lighting::solid([200, 200, 200]);

    let half = lighting.battery_gauge_array(50);
    assert_eq!(&half[0..3], &[200, 200, 200], "zone 1 is still full");
    assert_eq!(&half[3..6], &[200, 200, 200], "zone 2 is still full");
    assert_eq!(&half[6..9], &[0, 0, 0], "zone 3 is out");
    assert_eq!(&half[9..12], &[0, 0, 0], "zone 4 went first");
}

#[test]
fn the_zone_on_the_charge_line_is_part_lit() {
    let lighting = Lighting::solid([100, 0, 0]);

    let gauge = lighting.battery_gauge_array(60);
    assert_eq!(&gauge[0..3], &[100, 0, 0]);
    assert_eq!(&gauge[3..6], &[100, 0, 0]);
    assert_eq!(&gauge[6..9], &[40, 0, 0]);
    assert_eq!(&gauge[9..12], &[0, 0, 0]);
}

#[test]
fn the_gauge_keeps_the_users_own_colors() {
    let mut lighting = Lighting::default_lighting();
    lighting.rgb_zones[0].rgb = [10, 20, 30];
    lighting.rgb_zones[1].rgb = [40, 50, 60];
    lighting.rgb_zones[2].rgb = [70, 80, 90];
    lighting.rgb_zones[3].rgb = [255, 255, 255];
    lighting.rgb_zones[3].enabled = false;

    let gauge = lighting.battery_gauge_array(100);
    assert_eq!(&gauge[0..3], &[10, 20, 30]);
    assert_eq!(&gauge[3..6], &[40, 50, 60]);
    assert_eq!(&gauge[6..9], &[70, 80, 90]);
    assert_eq!(&gauge[9..12], &[0, 0, 0], "a disabled zone stays dark");
}

#[test]
fn a_charge_above_full_is_clamped() {
    let lighting = Lighting::solid([255, 255, 255]);

    assert_eq!(lighting.battery_gauge_array(255), lighting.battery_gauge_array(100));
}

#[test]
fn lighting_equality_sees_inner_effect_settings() {
    let mut slow = Lighting::default_lighting();
    slow.effect = Effects::AmbientLight { fps: 10, saturation_boost_bits: 0.0f32.to_bits() };
    let mut fast = Lighting::default_lighting();
    fast.effect = Effects::AmbientLight { fps: 60, saturation_boost_bits: 0.0f32.to_bits() };

    assert_ne!(slow, fast);
    assert!(slow.effect.same_variant(fast.effect));
}
