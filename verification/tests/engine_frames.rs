use aurora::battery::Reading;
use aurora::custom_effect::{EffectStep, EffectType};
use aurora::driver::BaseEffects;
use aurora::effects::{Brightness, Direction, Effects, SwipeMode};
use aurora::engine::{clamp_hardware_speed, plan_lighting, plan_step, EngineWrite, StopSignals, SMOOTH_WAVE_PALETTE};
use aurora::frames::{
    disco_interval_ms, fills_right_to_left, gauge_redraw, hotkey_step, lightning_flash, ordered_palette, rotate_zones,
    christmas_round, steps_at_speed, sweep_frames, ChristmasRound, RoundStep, CHRISTMAS_BLINK_A, CHRISTMAS_BLINK_B,
    CHRISTMAS_COLORS,
};
use aurora::profile::Lighting;

#[test]
fn hardware_speed_is_clamped_to_the_controllers_range() {
    assert_eq!(clamp_hardware_speed(0), 1);
    assert_eq!(clamp_hardware_speed(3), 3);
    assert_eq!(clamp_hardware_speed(10), 4);
}

#[test]
fn a_static_lighting_writes_speed_brightness_colors_then_effect() {
    let mut lighting = Lighting::solid([1, 2, 3]);
    lighting.speed = 9;
    lighting.brightness = Brightness::High;
    let plan = plan_lighting(&lighting);
    assert!(plan.software.is_none());
    assert!(matches!(plan.writes[0], EngineWrite::Speed(4)));
    assert!(matches!(plan.writes[1], EngineWrite::Brightness(2)));
    assert!(matches!(plan.writes[2], EngineWrite::Colors(c) if c == [1, 2, 3, 1, 2, 3, 1, 2, 3, 1, 2, 3]));
    assert!(matches!(plan.writes[3], EngineWrite::Effect(BaseEffects::Static)));
    assert_eq!(plan.writes.len(), 4);
}

#[test]
fn a_wave_goes_the_way_it_is_pointed() {
    let mut lighting = Lighting::default_lighting();
    lighting.effect = Effects::Wave;
    lighting.direction = Direction::Right;
    let plan = plan_lighting(&lighting);
    assert!(matches!(plan.writes[2], EngineWrite::Effect(BaseEffects::RightWave)));
}

#[test]
fn software_effects_start_from_a_static_base() {
    let mut lighting = Lighting::default_lighting();
    lighting.effect = Effects::AmbientLight { fps: 200, saturation_boost_bits: 0 };
    let plan = plan_lighting(&lighting);
    assert!(matches!(plan.writes[0], EngineWrite::Effect(BaseEffects::Static)));
    assert_eq!(plan.writes.len(), 2);
    let software = plan.software.expect("ambient runs in software");
    assert!(matches!(software.effect, Effects::AmbientLight { fps: 60, .. }));
}

#[test]
fn the_smooth_wave_sweeps_its_own_palette() {
    let mut lighting = Lighting::solid([7, 7, 7]);
    lighting.effect = Effects::SmoothWave { mode: SwipeMode::Change, clean_with_black: false };
    let plan = plan_lighting(&lighting);
    assert_eq!(plan.software.expect("software").rgb_array(), SMOOTH_WAVE_PALETTE);
}

#[test]
fn a_custom_step_sets_brightness_then_colors() {
    let step = EffectStep {
        rgb_array: [5; 12],
        step_type: EffectType::Transition,
        brightness: 1,
        steps: 20,
        delay_between_steps: 15,
        sleep: 100,
    };
    let writes = plan_step(&step);
    assert!(matches!(writes[0], EngineWrite::Brightness(1)));
    assert!(matches!(writes[1], EngineWrite::Transition { steps: 20, delay_ms: 15, .. }));
}

#[test]
fn stop_signals_are_raised_and_lowered_together() {
    let signals = StopSignals::new();
    assert!(!signals.stop_requested());
    signals.store_true();
    assert!(signals.stop_requested());
    assert!(signals.keyboard_stop_signal.load(std::sync::atomic::Ordering::SeqCst));
    signals.store_false();
    assert!(!signals.stop_requested());
}

#[test]
fn swipe_colors_move_one_zone_per_step() {
    let colors = [1, 1, 1, 2, 2, 2, 3, 3, 3, 4, 4, 4];
    assert_eq!(rotate_zones(colors, Direction::Left), [4, 4, 4, 1, 1, 1, 2, 2, 2, 3, 3, 3]);
    assert_eq!(rotate_zones(colors, Direction::Right), [2, 2, 2, 3, 3, 3, 4, 4, 4, 1, 1, 1]);
}

#[test]
fn a_lightning_flash_lights_one_zone() {
    let colors = [1, 2, 3, 4, 5, 6, 7, 8, 9, 10, 11, 12];
    assert_eq!(lightning_flash(colors, 2), [0, 0, 0, 0, 0, 0, 7, 8, 9, 0, 0, 0]);
}

#[test]
fn speed_scales_steps_and_pauses() {
    assert_eq!(steps_at_speed(150, 4), 37);
    assert_eq!(disco_interval_ms(1), 500);
    assert_eq!(disco_interval_ms(5), 100);
}

#[test]
fn a_fill_sweep_paints_zone_by_zone() {
    let palette = ordered_palette([1, 1, 1, 2, 2, 2, 3, 3, 3, 4, 4, 4], fills_right_to_left(Direction::Right));
    assert_eq!(palette, [4, 4, 4, 3, 3, 3, 2, 2, 2, 1, 1, 1]);
    let frames = sweep_frames([0; 12], palette, true, false);
    assert_eq!(frames.len(), 16);
    assert_eq!(frames[0], [0, 0, 0, 0, 0, 0, 0, 0, 0, 4, 4, 4]);
    assert_eq!(frames[3], [4; 12]);
    assert_eq!(frames[15], [1; 12]);
}

#[test]
fn a_christmas_sweep_cleans_with_black() {
    let frames = sweep_frames([0; 12], CHRISTMAS_COLORS, false, true);
    assert_eq!(frames.len(), 32);
    assert_eq!(frames[3], [255, 10, 10, 255, 10, 10, 255, 10, 10, 255, 10, 10]);
    assert_eq!(frames[7], [0; 12]);
}

#[test]
fn the_gauge_redraws_only_a_moved_charge() {
    let lighting = Lighting::solid([100, 0, 0]);
    let reading = Reading { percent: 60, discharging: true };
    assert_eq!(gauge_redraw(&lighting, None, Some(reading)), Some(lighting.battery_gauge_array(60)));
    assert_eq!(gauge_redraw(&lighting, Some(60), Some(reading)), None);
    assert_eq!(gauge_redraw(&lighting, Some(50), None), None);
}

#[test]
fn a_held_hotkey_cycles_once() {
    assert_eq!(hotkey_step(false, true), (true, true));
    assert_eq!(hotkey_step(true, true), (false, true));
    assert_eq!(hotkey_step(true, false), (false, false));
}

#[test]
fn swipe_steps_undo_each_other_and_four_return() {
    let colors = [1, 2, 3, 4, 5, 6, 7, 8, 9, 10, 11, 12];
    assert_eq!(rotate_zones(rotate_zones(colors, Direction::Left), Direction::Right), colors);
    let mut moved = colors;
    for _ in 0..4 {
        moved = rotate_zones(moved, Direction::Right);
    }
    assert_eq!(moved, colors);
}

#[test]
fn a_christmas_pattern_never_follows_itself() {
    assert!(matches!(christmas_round(Some(2), 2, 0, 1, false), ChristmasRound::RedrawPattern));
    assert!(matches!(christmas_round(Some(0), 1, 3, 3, false), ChristmasRound::RedrawSecondColor));
    assert!(matches!(christmas_round(None, 1, 3, 0, false), ChristmasRound::Play(_)));
}

#[test]
fn christmas_rounds_write_their_patterns() {
    let steps = |drawn: u8, first: usize, second: usize, rtl: bool| match christmas_round(None, drawn, first, second, rtl) {
        ChristmasRound::Play(steps) => steps,
        other => panic!("unexpected {other:?}"),
    };
    let whole = steps(0, 0, 0, false);
    assert_eq!(whole.len(), 24);
    assert!(matches!(whole[0], RoundStep::Write(EngineWrite::Colors(c)) if c == [255, 10, 10, 255, 10, 10, 255, 10, 10, 255, 10, 10]));
    assert!(matches!(whole[1], RoundStep::Pause(500)));
    assert!(matches!(whole[22], RoundStep::Write(EngineWrite::Colors(c)) if c == [70, 70, 255, 70, 70, 255, 70, 70, 255, 70, 70, 255]));

    let pair = steps(1, 1, 2, false);
    assert_eq!(pair.len(), 16);
    assert!(matches!(pair[0], RoundStep::Write(EngineWrite::Colors(c)) if c[..3] == [255, 255, 20]));
    assert!(matches!(pair[2], RoundStep::Write(EngineWrite::Colors(c)) if c[..3] == [30, 255, 30]));
    assert!(matches!(pair[3], RoundStep::Pause(400)));

    let sweep = steps(2, 0, 0, true);
    assert_eq!(sweep.len(), 33);
    assert!(matches!(sweep[0], RoundStep::Write(EngineWrite::Transition { colors, steps: 100, delay_ms: 1 }) if colors == [0; 12]));
    assert!(matches!(sweep[1], RoundStep::Write(EngineWrite::Transition { colors, steps: 100, .. }) if colors == [0, 0, 0, 0, 0, 0, 0, 0, 0, 255, 10, 10]));

    let blink = steps(3, 0, 0, false);
    assert_eq!(blink.len(), 16);
    assert!(matches!(blink[0], RoundStep::Write(EngineWrite::Transition { colors, steps: 30, .. }) if colors == CHRISTMAS_BLINK_A));
    assert!(matches!(blink[2], RoundStep::Write(EngineWrite::Transition { colors, steps: 30, .. }) if colors == CHRISTMAS_BLINK_B));
}
