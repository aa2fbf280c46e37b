use aurora::battery::Reading;
use aurora::daemon::{battery_alert_lighting, Core};
use aurora::effects::Effects;
use aurora::ipc::{KeyboardStatus, Request, Response, SlotSelection, MAX_SAVED_PROFILES};
use aurora::profile::{Lighting, Profile};
use aurora::settings::Settings;

fn running_core() -> Core {
    let mut core = Core::new(Settings::default_settings(), true, "1.0.0".to_string());
    core.keyboard_acquired(Ok(1));
    core.take_actions();
    core
}

fn named(name: &str, color: [u8; 3]) -> Profile {
    Profile::from_uniform_lighting(Some(name.to_string()), Lighting::solid(color))
}

fn slot_colors(profile: &Profile) -> Vec<[u8; 12]> {
    profile.slots.iter().map(|slot| slot.rgb_array()).collect()
}

#[test]
fn a_refused_request_leaves_the_core_as_it_was() {
    let mut core = running_core();
    let before_slot = core.active_slot;
    let before_colors = slot_colors(&core.current_profile);
    let response = core.handle_request(Request::SwitchProfile { name: "missing".to_string() });
    assert!(matches!(response, Response::Error { .. }));
    assert_eq!(core.active_slot, before_slot);
    assert_eq!(slot_colors(&core.current_profile), before_colors);
    assert!(core.take_actions().is_empty());
}

#[test]
fn a_lighting_change_is_recorded_for_saving() {
    let mut core = running_core();
    let response = core.set_lighting(None, Lighting::solid([9, 8, 7]));
    assert!(matches!(response, Response::Done));
    assert_eq!(slot_colors(&core.settings.current_profile), slot_colors(&core.current_profile));
    assert_eq!(core.settings.active_slot, core.active_slot);
    assert!(core.settings_dirty);
}

#[test]
fn a_low_battery_shows_red_but_saves_nothing() {
    let mut core = running_core();
    let saved_colors = slot_colors(&core.settings.current_profile);
    core.battery_read(Reading { percent: 5, discharging: true });
    assert!(core.battery_alert_is_showing());
    assert_eq!(core.lighting_to_show().rgb_array(), battery_alert_lighting().rgb_array());
    assert_eq!(slot_colors(&core.settings.current_profile), saved_colors);
    assert!(!core.settings_dirty);

    core.battery_read(Reading { percent: 5, discharging: false });
    assert!(!core.battery_alert_is_showing());
    assert_eq!(core.lighting_to_show().rgb_array(), core.current_profile.slots[0].rgb_array());
}

#[test]
fn switching_profiles_keeps_the_live_slot_and_reads_back_the_save() {
    let mut core = running_core();
    assert!(matches!(core.select_slot(SlotSelection::Third), Response::Done));
    assert!(matches!(core.add_profile(named("work", [1, 2, 3])), Response::Done));
    assert!(matches!(core.switch_profile("work"), Response::Done));
    assert_eq!(core.active_slot, SlotSelection::Third);
    assert_eq!(core.current_profile.name.as_deref(), Some("work"));
    assert_eq!(slot_colors(&core.current_profile), slot_colors(&named("work", [1, 2, 3])));
}

#[test]
fn four_presses_return_to_the_same_slot() {
    let mut core = running_core();
    let start = core.active_slot;
    for _ in 0..4 {
        core.advance_slot();
    }
    assert_eq!(core.active_slot, start);
}

#[test]
fn the_off_position_takes_no_lighting() {
    let mut core = running_core();
    core.select_slot(SlotSelection::Off);
    let response = core.set_lighting(None, Lighting::solid([1, 1, 1]));
    assert!(matches!(response, Response::Error { .. }));
}

#[test]
fn deleting_a_new_profile_undoes_saving_it() {
    let mut core = running_core();
    core.add_profile(named("a", [1, 0, 0]));
    let before: Vec<Option<String>> = core.settings.profiles.iter().map(|p| p.name.clone()).collect();
    core.add_profile(named("b", [0, 1, 0]));
    assert!(matches!(core.delete_profile("b"), Response::Done));
    let after: Vec<Option<String>> = core.settings.profiles.iter().map(|p| p.name.clone()).collect();
    assert_eq!(after, before);
}

#[test]
fn saved_profiles_stop_at_the_limit() {
    let mut core = running_core();
    for index in 0..(MAX_SAVED_PROFILES + 3) {
        core.add_profile(named(&format!("p{index}"), [1, 2, 3]));
    }
    assert_eq!(core.settings.profiles.len(), MAX_SAVED_PROFILES);
}

#[test]
fn cycling_moves_to_the_next_saved_profile_and_wraps() {
    let mut core = running_core();
    core.add_profile(named("one", [1, 0, 0]));
    core.add_profile(named("two", [0, 1, 0]));
    core.switch_profile("one");
    core.cycle_profile();
    assert_eq!(core.current_profile.name.as_deref(), Some("two"));
    core.cycle_profile();
    assert_eq!(core.current_profile.name.as_deref(), Some("one"));
}

#[test]
fn a_lost_keyboard_is_searched_for_again() {
    let mut core = running_core();
    core.device_lost();
    assert!(matches!(core.keyboard_status, KeyboardStatus::Searching));
    assert!(core.is_busy());
}

#[test]
fn a_battery_effect_is_refused_on_a_desktop() {
    let mut core = Core::new(Settings::default_settings(), false, "1.0.0".to_string());
    let mut lighting = Lighting::default_lighting();
    lighting.effect = Effects::Battery;
    assert!(matches!(core.set_lighting(None, lighting), Response::Error { .. }));
}

#[test]
fn acquisition_retries_follow_the_schedule_from_its_first_gap() {
    let mut core = Core::new(Settings::default_settings(), true, "1.0.0".to_string());
    let waits: Vec<u64> = (0..6).map(|_| core.keyboard_not_acquired(KeyboardStatus::Searching)).collect();
    assert_eq!(waits, vec![1, 2, 5, 10, 10, 10]);
    core.keyboard_acquired(Ok(1));
    core.device_lost();
    assert_eq!(core.keyboard_not_acquired(KeyboardStatus::Searching), 1);
}
