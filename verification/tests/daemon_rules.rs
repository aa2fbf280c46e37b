use aurora::battery::Reading;
use aurora::daemon::{anchor_slot, battery_alert_holds, validate_lighting, validate_profile, BATTERY_ALERT_PERCENT};
use aurora::driver::{DriverError, RangeErrorKind};
use aurora::effects::{effect_by_index, Effects, EFFECT_COUNT};
use aurora::ipc::SlotSelection;
use aurora::profile::{Lighting, Profile};

fn reading(percent: u8, discharging: bool) -> Reading {
    Reading { percent, discharging }
}

fn default_lighting_with(effect: Effects) -> Lighting {
    let mut lighting = Lighting::default_lighting();
    lighting.effect = effect;
    lighting
}

#[test]
fn the_alert_holds_at_and_below_the_threshold_while_discharging() {
    assert!(battery_alert_holds(true, reading(BATTERY_ALERT_PERCENT, true)));
    assert!(battery_alert_holds(true, reading(1, true)));
    assert!(battery_alert_holds(true, reading(0, true)));
}

#[test]
fn the_alert_lets_go_one_percent_above_the_threshold() {
    assert!(!battery_alert_holds(true, reading(BATTERY_ALERT_PERCENT + 1, true)));
}

#[test]
fn being_on_ac_clears_the_alert_at_any_charge() {
    assert!(!battery_alert_holds(true, reading(1, false)));
    assert!(!battery_alert_holds(true, reading(0, false)));
}

#[test]
fn the_switch_turns_the_alert_off_outright() {
    assert!(!battery_alert_holds(false, reading(1, true)));
}

#[test]
fn the_battery_effect_is_refused_where_there_is_no_battery() {
    let lighting = default_lighting_with(Effects::Battery);

    assert!(validate_lighting(&lighting, false).is_some());
    assert!(validate_lighting(&lighting, true).is_none());
}

#[test]
fn one_battery_slot_refuses_the_whole_profile() {
    let mut profile = Profile::default_profile();
    profile.slots[2].effect = Effects::Battery;

    assert!(validate_profile(&profile, false).is_some());
    assert!(validate_profile(&profile, true).is_none());
}

#[test]
fn every_other_effect_survives_a_machine_without_a_battery() {
    for index in 0..EFFECT_COUNT {
        let effect = effect_by_index(index).expect("every list position names an effect");
        if effect.needs_a_battery() {
            continue;
        }
        let lighting = default_lighting_with(effect);

        assert!(
            validate_lighting(&lighting, false).is_none(),
            "effect {index} was refused on a machine with no battery"
        );
    }
}

#[test]
fn off_on_the_counter_wins_over_any_stored_slot() {
    let anchored = anchor_slot(SlotSelection::Second, Ok(4));
    assert_eq!(anchored, SlotSelection::Off);
}

#[test]
fn a_lit_counter_keeps_the_stored_slot() {
    let anchored = anchor_slot(SlotSelection::Third, Ok(1));
    assert_eq!(anchored, SlotSelection::Third);
}

#[test]
fn a_lit_counter_recovers_from_a_stored_off() {
    let anchored = anchor_slot(SlotSelection::Off, Ok(2));
    assert_eq!(anchored, SlotSelection::First);
}

#[test]
fn an_unreadable_counter_keeps_the_stored_slot() {
    let read_error = DriverError::Range { kind: RangeErrorKind::Slot };
    let anchored = anchor_slot(SlotSelection::Third, Err(read_error));
    assert_eq!(anchored, SlotSelection::Third);
}

#[test]
fn a_mid_transition_counter_keeps_the_stored_slot() {
    assert_eq!(anchor_slot(SlotSelection::Second, Ok(0)), SlotSelection::Second);
    assert_eq!(anchor_slot(SlotSelection::Off, Ok(9)), SlotSelection::Off);
}
