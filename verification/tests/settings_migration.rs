use aurora::effects::{Brightness, Direction, Effects};
use aurora::ipc::SlotSelection;
use aurora::profile::{KeyboardZone, Profile, SLOT_COUNT};
use aurora::settings::{LegacyProfile, LegacySettings, Settings};

fn legacy_profile(name: Option<&str>, rgb: [u8; 3], effect: Effects, direction: Direction, speed: u8, brightness: Brightness) -> LegacyProfile {
    let zone = KeyboardZone { rgb, enabled: true };
    LegacyProfile {
        name: name.map(|n| n.to_string()),
        rgb_zones: [zone, zone, zone, zone],
        effect,
        direction,
        speed,
        brightness,
    }
}

fn plain(rgb: [u8; 3]) -> LegacyProfile {
    legacy_profile(None, rgb, Effects::Static, Direction::Left, 1, Brightness::Low)
}

fn v1_with_slots() -> LegacySettings {
    LegacySettings {
        profiles: vec![legacy_profile(Some("gaming"), [10, 20, 30], Effects::Breath, Direction::Right, 3, Brightness::High)],
        effects: Vec::new(),
        current_profile: legacy_profile(Some("live"), [0, 255, 0], Effects::Static, Direction::Left, 1, Brightness::Low),
        hardware_slot_profiles: vec![plain([255, 0, 0]), plain([0, 255, 0]), plain([0, 0, 255])],
    }
}

#[test]
fn v1_slot_lighting_becomes_the_live_profile_slots() {
    let settings = v1_with_slots().into_settings();

    assert_eq!(settings.current_profile.slots[0].rgb_array()[..3], [255, 0, 0]);
    assert_eq!(settings.current_profile.slots[1].rgb_array()[..3], [0, 255, 0]);
    assert_eq!(settings.current_profile.slots[2].rgb_array()[..3], [0, 0, 255]);
    assert_eq!(settings.current_profile.name.as_deref(), Some("live"));
}

#[test]
fn v1_active_slot_is_recovered_from_the_live_lighting() {
    let settings = v1_with_slots().into_settings();
    assert_eq!(settings.active_slot, SlotSelection::Second);
}

#[test]
fn v1_saved_profiles_become_uniform_across_slots() {
    let settings = v1_with_slots().into_settings();

    assert_eq!(settings.profiles.len(), 1);
    let gaming: &Profile = &settings.profiles[0];
    assert_eq!(gaming.name.as_deref(), Some("gaming"));
    for slot in &gaming.slots {
        assert_eq!(slot.effect, Effects::Breath);
        assert_eq!(slot.speed, 3);
        assert_eq!(slot.rgb_array()[..3], [10, 20, 30]);
    }
}

#[test]
fn v1_without_slot_profiles_pads_from_the_live_lighting() {
    let legacy = LegacySettings {
        profiles: Vec::new(),
        effects: Vec::new(),
        current_profile: plain([7, 7, 7]),
        hardware_slot_profiles: Vec::new(),
    };

    let settings = legacy.into_settings();
    for slot in &settings.current_profile.slots {
        assert_eq!(slot.rgb_array()[..3], [7, 7, 7]);
    }
    assert_eq!(settings.active_slot, SlotSelection::First);
}

#[test]
fn v1_with_a_short_slot_list_pads_the_rest() {
    let legacy = LegacySettings {
        profiles: Vec::new(),
        effects: Vec::new(),
        current_profile: plain([1, 1, 1]),
        hardware_slot_profiles: vec![plain([2, 2, 2])],
    };

    let settings = legacy.into_settings();
    assert_eq!(settings.current_profile.slots[0].rgb_array()[..3], [2, 2, 2]);
    assert_eq!(settings.current_profile.slots[1].rgb_array()[..3], [1, 1, 1]);
    assert_eq!(settings.current_profile.slots[2].rgb_array()[..3], [1, 1, 1]);
}

#[test]
fn v1_with_an_oversized_slot_list_keeps_the_first_three() {
    let mut legacy = v1_with_slots();
    legacy.hardware_slot_profiles = vec![
        plain([255, 0, 0]),
        plain([0, 255, 0]),
        plain([0, 0, 255]),
        plain([255, 0, 0]),
        plain([0, 255, 0]),
        plain([0, 0, 255]),
    ];

    let settings = legacy.into_settings();
    assert_eq!(settings.current_profile.slots.len(), SLOT_COUNT);
    assert_eq!(settings.current_profile.slots[0].rgb_array()[..3], [255, 0, 0]);
    assert_eq!(settings.current_profile.slots[2].rgb_array()[..3], [0, 0, 255]);
}

#[test]
fn unparseable_settings_block_saving() {
    let settings = Settings::blocked("could not parse".to_string());

    let refusal = settings.save_refusal();
    assert!(refusal.is_some(), "a blocked save must not write");
}
