use aurora::custom_effect::CustomEffect;
use aurora::effects::{Brightness, Direction, Effects, SwipeMode};
use aurora::gui::{
    apply_edit, autostart_from_query, daemon_line_step, lighting_page_view, next_envelope, reconnect_delay_ms,
    update_for_message, App, AppAction, AppMsg, Autostart, DaemonLine, EffectFile, IpcUpdate, LightingEdit,
};
use aurora::ipc::{
    CustomEffectSummary, DaemonState, ErrorKind, Event, EventEnvelope, KeyboardStatus, ProfileSummary, Request,
    Response, ResponseEnvelope, ServerMessage, SlotSelection, SubsystemState,
};
use aurora::profile::{Lighting, Profile};

fn state(active_slot: SlotSelection) -> DaemonState {
    DaemonState {
        keyboard: KeyboardStatus::Connected,
        current: Profile::default_profile(),
        active_slot,
        custom_effect_playing: None,
        profiles: vec![ProfileSummary { name: "Work".to_string() }, ProfileSummary { name: "Game".to_string() }],
        custom_effects: vec![CustomEffectSummary { name: "Pulse".to_string(), step_count: 2, should_loop: true }],
        version: "0.4.1".to_string(),
        settings_error: None,
        slot_sync: SubsystemState::Active,
        hotkey: SubsystemState::Active,
        screen_capture: SubsystemState::Unknown,
        battery_available: true,
        battery_alert: false,
        battery_alert_active: false,
        battery_percent: Some(80),
    }
}

fn connected_app(active_slot: SlotSelection) -> App {
    let mut app = App::new();
    app.update(AppMsg::Ipc(IpcUpdate::Connected));
    app.update(AppMsg::Ipc(IpcUpdate::State(state(active_slot))));
    app
}

fn sent(actions: &[AppAction]) -> Vec<&Request> {
    actions
        .iter()
        .filter_map(|a| match a {
            AppAction::Send(r) => Some(r),
            _ => None,
        })
        .collect()
}

#[test]
fn reselecting_the_chosen_effect_changes_nothing_whatever_its_settings() {
    let mut lighting = Lighting::default_lighting();
    lighting.effect = Effects::Swipe { mode: SwipeMode::Fill, clean_with_black: true };
    // Position 7 is the swipe, offered with other settings.
    assert!(!apply_edit(&mut lighting, LightingEdit::EffectSelected { index: 7 }));
    assert!(matches!(lighting.effect, Effects::Swipe { mode: SwipeMode::Fill, clean_with_black: true }));
}

#[test]
fn a_new_effect_comes_with_its_first_pick_settings() {
    let mut lighting = Lighting::default_lighting();
    assert!(apply_edit(&mut lighting, LightingEdit::EffectSelected { index: 5 }));
    assert!(matches!(lighting.effect, Effects::AmbientLight { fps: 30, saturation_boost_bits: 0 }));
    assert!(!apply_edit(&mut lighting, LightingEdit::EffectSelected { index: 99 }));
}

#[test]
fn a_zone_color_lands_in_its_zone_only() {
    let mut lighting = Lighting::solid([10, 20, 30]);
    lighting.rgb_zones[1].enabled = false;
    assert!(apply_edit(&mut lighting, LightingEdit::ZoneColorPicked { zone_index: 1, color: [1, 2, 3] }));
    assert_eq!(lighting.rgb_zones[1].rgb, [1, 2, 3]);
    assert!(!lighting.rgb_zones[1].enabled);
    assert_eq!(lighting.rgb_zones[0].rgb, [10, 20, 30]);
    assert!(!apply_edit(&mut lighting, LightingEdit::ZoneColorPicked { zone_index: 1, color: [1, 2, 3] }));
    assert!(!apply_edit(&mut lighting, LightingEdit::ZoneColorPicked { zone_index: 4, color: [9, 9, 9] }));
}

#[test]
fn a_global_color_changes_only_when_some_zone_differs() {
    let mut lighting = Lighting::solid([5, 5, 5]);
    assert!(!apply_edit(&mut lighting, LightingEdit::GlobalColorPicked { color: [5, 5, 5] }));
    lighting.rgb_zones[3].rgb = [0, 0, 0];
    assert!(apply_edit(&mut lighting, LightingEdit::GlobalColorPicked { color: [5, 5, 5] }));
    for zone in lighting.rgb_zones.iter() {
        assert_eq!(zone.rgb, [5, 5, 5]);
    }
}

#[test]
fn plain_settings_change_only_when_different() {
    let mut lighting = Lighting::default_lighting();
    lighting.speed = 2;
    assert!(!apply_edit(&mut lighting, LightingEdit::SpeedPicked { speed: 2 }));
    assert!(apply_edit(&mut lighting, LightingEdit::SpeedPicked { speed: 4 }));
    assert_eq!(lighting.speed, 4);
    lighting.brightness = Brightness::Low;
    assert!(apply_edit(&mut lighting, LightingEdit::BrightnessPicked { high: true }));
    assert_eq!(lighting.brightness, Brightness::High);
    lighting.direction = Direction::Left;
    assert!(!apply_edit(&mut lighting, LightingEdit::DirectionPicked { index: 0 }));
    assert!(apply_edit(&mut lighting, LightingEdit::DirectionPicked { index: 1 }));
    assert_eq!(lighting.direction, Direction::Right);
}

#[test]
fn swipe_and_ambient_settings_apply_only_to_their_effects() {
    let mut lighting = Lighting::default_lighting();
    lighting.effect = Effects::Static;
    assert!(!apply_edit(&mut lighting, LightingEdit::SwipeModePicked { index: 1 }));
    assert!(!apply_edit(&mut lighting, LightingEdit::AmbientFpsPicked { fps: 10 }));
    lighting.effect = Effects::SmoothWave { mode: SwipeMode::Change, clean_with_black: false };
    assert!(apply_edit(&mut lighting, LightingEdit::SwipeModePicked { index: 1 }));
    assert!(apply_edit(&mut lighting, LightingEdit::CleanWithBlackPicked { clean: true }));
    assert!(matches!(lighting.effect, Effects::SmoothWave { mode: SwipeMode::Fill, clean_with_black: true }));
    lighting.effect = Effects::AmbientLight { fps: 30, saturation_boost_bits: 0 };
    assert!(apply_edit(&mut lighting, LightingEdit::AmbientFpsPicked { fps: 12 }));
    let half = 0.5f32.to_bits();
    assert!(!apply_edit(&mut lighting, LightingEdit::AmbientSaturationPicked { saturation_bits: half, differs: false }));
    assert!(apply_edit(&mut lighting, LightingEdit::AmbientSaturationPicked { saturation_bits: half, differs: true }));
    assert!(matches!(lighting.effect, Effects::AmbientLight { fps: 12, saturation_boost_bits } if saturation_boost_bits == half));
}

#[test]
fn the_lighting_page_follows_what_the_effect_listens_to() {
    let mut lighting = Lighting::solid([200, 100, 50]);
    lighting.rgb_zones[2].enabled = false;
    lighting.effect = Effects::Swipe { mode: SwipeMode::Change, clean_with_black: true };
    lighting.direction = Direction::Right;
    let view = lighting_page_view(&lighting);
    assert_eq!(view.effect_index, 7);
    assert_eq!(view.zone_colors[2], [200, 100, 50]);
    assert_eq!(view.preview[2], [0, 0, 0]);
    assert_eq!(view.preview[0], [200, 100, 50]);
    assert_eq!(view.direction_index, 1);
    assert!(view.colors_sensitive && view.speed_sensitive && view.direction_sensitive);
    assert!(view.ambient.is_none());
    let swipe = view.swipe.expect("swipe rows");
    assert_eq!(swipe.mode_index, 0);
    assert!(swipe.clean_with_black);
    assert!(!swipe.clean_sensitive);

    lighting.effect = Effects::AmbientLight { fps: 24, saturation_boost_bits: 7 };
    let view = lighting_page_view(&lighting);
    assert_eq!(view.ambient, Some((24, 7)));
    assert!(view.swipe.is_none());
    assert!(!view.colors_sensitive && !view.speed_sensitive && !view.direction_sensitive);
}

#[test]
fn connecting_asks_for_the_autostart_state_and_a_state_replaces_the_profile() {
    let mut app = App::new();
    let actions = app.update(AppMsg::Ipc(IpcUpdate::Connected));
    assert!(app.connected);
    assert!(matches!(actions.as_slice(), [AppAction::QueryAutostart]));
    let mut incoming = state(SlotSelection::Second);
    incoming.current.name = Some("Work".to_string());
    app.update(AppMsg::Ipc(IpcUpdate::State(incoming)));
    assert_eq!(app.profile.name.as_deref(), Some("Work"));
    app.update(AppMsg::Ipc(IpcUpdate::Disconnected));
    assert!(!app.connected);
    assert!(app.state.is_none());
}

#[test]
fn an_edit_lands_in_the_live_slot_and_sends_the_whole_profile() {
    let mut app = connected_app(SlotSelection::Second);
    let actions = app.update(AppMsg::Edit(LightingEdit::SpeedPicked { speed: 4 }));
    assert_eq!(app.profile.slots[1].speed, 4);
    assert_eq!(app.profile.slots[0].speed, Lighting::default_lighting().speed);
    match sent(&actions).as_slice() {
        [Request::SetProfile { profile }] => assert_eq!(profile.slots[1].speed, 4),
        other => panic!("unexpected requests {other:?}"),
    }
    // The same value again is an echo: nothing is sent.
    assert!(app.update(AppMsg::Edit(LightingEdit::SpeedPicked { speed: 4 })).is_empty());
}

#[test]
fn nothing_is_edited_at_the_off_position() {
    let mut app = connected_app(SlotSelection::Off);
    assert!(app.update(AppMsg::Edit(LightingEdit::SpeedPicked { speed: 4 })).is_empty());
    assert!(app.update(AppMsg::GlobalColorDialogRequested).is_empty());
}

#[test]
fn saving_a_profile_needs_a_name() {
    let mut app = connected_app(SlotSelection::First);
    assert!(app.update(AppMsg::SaveProfileConfirmed { name: String::new() }).is_empty());
    assert_eq!(app.take_toast().as_deref(), Some("Profile name cannot be empty"));
    assert!(app.take_toast().is_none());
    let actions = app.update(AppMsg::SaveProfileConfirmed { name: "Night".to_string() });
    match sent(&actions).as_slice() {
        [Request::AddProfile { profile: added }, Request::SetProfile { profile: live }] => {
            assert_eq!(added.name.as_deref(), Some("Night"));
            assert_eq!(live.name.as_deref(), Some("Night"));
        }
        other => panic!("unexpected requests {other:?}"),
    }
}

#[test]
fn playing_a_custom_effect_the_state_does_not_list_is_refused() {
    let mut app = connected_app(SlotSelection::First);
    let actions = app.update(AppMsg::CustomEffectPlayed { name: "Pulse".to_string() });
    assert!(matches!(sent(&actions).as_slice(), [Request::PlayCustomEffectByName { name }] if name == "Pulse"));
    assert!(app.update(AppMsg::CustomEffectPlayed { name: "Gone".to_string() }).is_empty());
    assert_eq!(app.take_toast().as_deref(), Some("Custom effect \u{201c}Gone\u{201d} not found"));
}

#[test]
fn a_loaded_effect_file_is_named_after_the_file_saved_and_played() {
    let mut app = connected_app(SlotSelection::First);
    let effect = CustomEffect { name: None, effect_steps: Vec::new(), should_loop: false };
    let actions = app.update(AppMsg::CustomEffectFileRead {
        file: EffectFile::Loaded { effect, file_stem: Some("sunrise".to_string()) },
    });
    match sent(&actions).as_slice() {
        [Request::AddCustomEffect { effect: saved }, Request::PlayCustomEffect { effect: played }] => {
            assert_eq!(saved.name.as_deref(), Some("sunrise"));
            assert_eq!(played.name.as_deref(), Some("sunrise"));
        }
        other => panic!("unexpected requests {other:?}"),
    }
    app.update(AppMsg::CustomEffectFileRead {
        file: EffectFile::Unreadable { path: "/tmp/x.json".to_string(), error: "denied".to_string() },
    });
    assert_eq!(app.take_toast().as_deref(), Some("Could not read /tmp/x.json: denied"));
    app.update(AppMsg::CustomEffectFileRead { file: EffectFile::NotAnEffect { error: "eof".to_string() } });
    assert_eq!(app.take_toast().as_deref(), Some("Not a valid custom effect file: eof"));
}

#[test]
fn the_autostart_switch_respects_what_the_unit_allows() {
    let mut app = connected_app(SlotSelection::First);
    assert!(app.update(AppMsg::AutostartToggled { enabled: false }).is_empty());
    assert!(app.take_toast().is_none());
    assert!(app.update(AppMsg::AutostartToggled { enabled: true }).is_empty());
    assert_eq!(
        app.take_toast().as_deref(),
        Some("No systemd unit found \u{2014} install the aurora.service unit first")
    );
    app.update(AppMsg::AutostartQueried { autostart: Autostart { available: true, enabled: false, managed: true } });
    assert!(app.update(AppMsg::AutostartToggled { enabled: true }).is_empty());
    assert_eq!(app.take_toast().as_deref(), Some("Autostart is managed by your home-manager configuration"));
    app.update(AppMsg::AutostartQueried { autostart: Autostart { available: true, enabled: false, managed: false } });
    let actions = app.update(AppMsg::AutostartToggled { enabled: true });
    assert!(matches!(actions.as_slice(), [AppAction::SetAutostart { enabled: true }]));
    assert!(app.autostart.enabled);
    let actions = app.update(AppMsg::ServiceActionFinished {
        description: "enable aurora.service".to_string(),
        error: Some("denied".to_string()),
    });
    assert!(matches!(actions.as_slice(), [AppAction::QueryAutostart]));
    assert_eq!(app.take_toast().as_deref(), Some("enable aurora.service: denied"));
    let actions = app.update(AppMsg::StartDaemonRequested);
    assert!(matches!(actions.as_slice(), [AppAction::StartDaemon { unit_available: true }]));
}

#[test]
fn the_window_shows_the_pages_once_the_state_is_known() {
    let mut app = App::new();
    let view = app.window_view();
    assert!(!view.main_page);
    assert!(view.pages.is_none());
    app = connected_app(SlotSelection::Third);
    app.profile.name = Some("Game".to_string());
    if let Some(state) = app.state.as_mut() {
        state.custom_effect_playing = Some("Pulse".to_string());
    }
    let view = app.window_view();
    assert!(view.main_page);
    let pages = view.pages.expect("pages");
    assert!(pages.banner.is_none());
    assert_eq!(pages.slot_buttons, [false, false, true]);
    assert!(!pages.off_button);
    assert!(pages.lighting.is_some());
    assert!(!pages.lighting_sensitive);
    assert_eq!(pages.profile_rows.len(), 2);
    assert!(!pages.profile_rows[0].current);
    assert!(pages.profile_rows[1].current);
    assert_eq!(pages.custom_effect_rows, vec!["Pulse".to_string()]);
    assert_eq!(pages.playing_title.as_deref(), Some("Playing \u{201c}Pulse\u{201d}"));
    assert_eq!(pages.status_text, "Running (v0.4.1)");
    assert_eq!(pages.autostart_subtitle, "No systemd unit installed");
    assert!(!pages.autostart_sensitive);

    let off = connected_app(SlotSelection::Off).window_view().pages.expect("pages");
    assert!(off.lighting.is_none());
    assert_eq!(off.slot_buttons, [false, false, false]);
    assert!(off.off_button);
    assert!(off.lighting_sensitive);
}

#[test]
fn reconnect_delays_grow_to_two_seconds_and_stay() {
    assert_eq!(reconnect_delay_ms(0), 500);
    assert_eq!(reconnect_delay_ms(1), 1000);
    assert_eq!(reconnect_delay_ms(2), 2000);
    assert_eq!(reconnect_delay_ms(40), 2000);
}

#[test]
fn envelopes_are_numbered_in_order() {
    let mut next_id: u64 = 1;
    let first = next_envelope(&mut next_id, Request::Subscribe);
    let second = next_envelope(&mut next_id, Request::GetState);
    assert_eq!(first.id, 1);
    assert_eq!(second.id, 2);
    assert_eq!(next_id, 3);
    assert!(matches!(second.req, Request::GetState));
}

#[test]
fn daemon_lines_are_closed_blank_oversized_or_parsed() {
    assert!(matches!(daemon_line_step(0, ""), DaemonLine::Closed));
    assert!(matches!(daemon_line_step(2, " \n"), DaemonLine::Blank));
    assert!(matches!(daemon_line_step(1048577, "x"), DaemonLine::Oversized));
    assert!(matches!(daemon_line_step(5, " {} \n"), DaemonLine::Parse(t) if t == "{}"));
}

#[test]
fn states_replace_the_shown_one_and_refusals_are_worded() {
    let pushed = ServerMessage::Event(EventEnvelope { event: Event::StateChanged { state: state(SlotSelection::First) } });
    assert!(matches!(update_for_message(pushed), Some(IpcUpdate::State(_))));
    let refused = ServerMessage::Response(ResponseEnvelope {
        id: 3,
        resp: Response::Error { kind: ErrorKind::NoSuchProfile, message: "no profile named X".to_string() },
    });
    assert!(matches!(update_for_message(refused), Some(IpcUpdate::RequestFailed(m)) if m == "NoSuchProfile: no profile named X"));
    let done = ServerMessage::Response(ResponseEnvelope { id: 4, resp: Response::Done });
    assert!(update_for_message(done).is_none());
}

#[test]
fn a_unit_under_the_nix_store_is_managed() {
    let managed = autostart_from_query(Some("/nix/store/abc-aurora/aurora.service\n"), true);
    assert_eq!(managed, Autostart { available: true, enabled: true, managed: true });
    let own = autostart_from_query(Some("/home/u/.config/systemd/user/aurora.service"), false);
    assert_eq!(own, Autostart { available: true, enabled: false, managed: false });
    let none = Autostart { available: false, enabled: false, managed: false };
    assert_eq!(autostart_from_query(Some("  \n"), true), none);
    assert_eq!(autostart_from_query(None, true), none);
}

#[test]
fn an_echoed_edit_changes_nothing() {
    let edits = [
        LightingEdit::EffectSelected { index: 6 },
        LightingEdit::ZoneColorPicked { zone_index: 2, color: [9, 8, 7] },
        LightingEdit::GlobalColorPicked { color: [1, 1, 1] },
        LightingEdit::SpeedPicked { speed: 3 },
        LightingEdit::BrightnessPicked { high: false },
        LightingEdit::DirectionPicked { index: 1 },
        LightingEdit::SwipeModePicked { index: 1 },
        LightingEdit::CleanWithBlackPicked { clean: true },
    ];
    let mut lighting = Lighting::default_lighting();
    for edit in edits {
        apply_edit(&mut lighting, edit);
        assert!(!apply_edit(&mut lighting, edit), "{edit:?} changed the lighting twice");
    }
}

#[test]
fn the_banner_names_what_keeps_the_keyboard_away() {
    let banner_for = |keyboard: KeyboardStatus| {
        let mut app = connected_app(SlotSelection::First);
        if let Some(state) = app.state.as_mut() {
            state.keyboard = keyboard;
        }
        app.window_view().pages.expect("pages").banner
    };
    assert_eq!(banner_for(KeyboardStatus::Connected), None);
    assert_eq!(banner_for(KeyboardStatus::Searching).as_deref(), Some("Looking for a supported keyboard\u{2026}"));
    assert_eq!(
        banner_for(KeyboardStatus::PermissionDenied { message: "denied".to_string() }).as_deref(),
        Some("Keyboard access denied \u{2014} install the udev rule, then replug or reboot")
    );
    assert_eq!(
        banner_for(KeyboardStatus::Error { message: "pipe".to_string() }).as_deref(),
        Some("Keyboard error: pipe")
    );
    assert!(banner_for(KeyboardStatus::Lost).is_some());
}
