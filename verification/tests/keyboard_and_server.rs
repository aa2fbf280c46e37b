use aurora::daemon::{next_tick_timeout_ms, save_is_due};
use aurora::driver::{possible_keyboards, DriverError, RangeErrorKind};
use aurora::ipc::{KeyboardStatus, Response, SubsystemState};
use aurora::keyboard::{backoff_delay, classify_error};
use aurora::netlink::{after_socket_failure, dropped_events_state, ByteOrder, ReopenDecision};
use aurora::profile::{LegacyProfileFile, LoadProfileError, Profile, SaveProfileError};
use aurora::server::{after_bind_failure, parse_failure, reader_line_step, BindStep, LineStep, ProbeOutcome};
use aurora::settings::{backup_extension, backups_exhausted, Settings, SettingsFile};

#[test]
fn acquisition_backs_off_to_ten_seconds() {
    let delays: Vec<u64> = (0..6).map(backoff_delay).collect();
    assert_eq!(delays, vec![1, 2, 5, 10, 10, 10]);
    assert_eq!(backoff_delay(u32::MAX), 10);
}

#[test]
fn driver_failures_become_statuses() {
    assert!(matches!(classify_error(&DriverError::DeviceNotFound), KeyboardStatus::Searching));
    assert!(matches!(
        classify_error(&DriverError::Hid { message: "Operation not permitted".to_string() }),
        KeyboardStatus::PermissionDenied { .. }
    ));
    match classify_error(&DriverError::Hid { message: "hidapi error: hid_error is not implemented yet".to_string() }) {
        KeyboardStatus::Error { message } => assert!(message.contains("did not answer")),
        _ => panic!("a backend failure is an error"),
    }
    assert!(matches!(
        classify_error(&DriverError::Range { kind: RangeErrorKind::Speed }),
        KeyboardStatus::Error { message } if message == "speed must be between 1 and 4"
    ));
}

#[test]
fn a_stale_socket_is_replaced_and_a_live_one_kept() {
    assert_eq!(after_bind_failure(true, ProbeOutcome::Connected), BindStep::AlreadyRunning);
    assert_eq!(after_bind_failure(true, ProbeOutcome::Refused), BindStep::ReplaceStale);
    assert_eq!(after_bind_failure(true, ProbeOutcome::Failed), BindStep::Fail);
    assert_eq!(after_bind_failure(false, ProbeOutcome::Refused), BindStep::Fail);
}

#[test]
fn client_lines_are_closed_refused_skipped_or_parsed() {
    assert!(matches!(reader_line_step(0, ""), LineStep::Closed));
    assert!(matches!(reader_line_step(3, " \n"), LineStep::Blank));
    assert!(matches!(reader_line_step(12, " {\"id\":1}\n"), LineStep::Parse(t) if t == "{\"id\":1}"));
    match reader_line_step(2_000_000, "x") {
        LineStep::TooLong(envelope) => {
            assert_eq!(envelope.id, 0);
            assert!(matches!(envelope.resp, Response::Error { message, .. } if message == "line exceeds 1048576 bytes"));
        },
        _ => panic!("an oversized line is refused"),
    }
    let refusal = parse_failure("expected value");
    assert!(matches!(refusal.resp, Response::Error { message, .. } if message == "could not parse request: expected value"));
}

#[test]
fn the_listener_retries_then_gives_up() {
    match after_socket_failure(1, "boom") {
        ReopenDecision::Retry { delay_ms, state: SubsystemState::Degraded { reason } } => {
            assert_eq!(delay_ms, 500);
            assert_eq!(reason, "reconnecting to the ACPI event socket (boom)");
        },
        _ => panic!("the first failure retries"),
    }
    match after_socket_failure(6, "boom") {
        ReopenDecision::GiveUp { state: SubsystemState::Unavailable { reason } } => {
            assert_eq!(reason, "netlink socket kept failing (boom) after 5 attempts")
        },
        _ => panic!("past the budget the listener gives up"),
    }
    assert!(matches!(dropped_events_state(), SubsystemState::Degraded { .. }));
}

#[test]
fn the_host_byte_order_reads_native_integers() {
    let order = ByteOrder::host();
    let bytes = 0x0102u16.to_ne_bytes();
    assert_eq!(aurora::netlink::read_u16(&bytes, 0, order), Some(0x0102));
    let expected = if 1u16.to_ne_bytes()[0] == 1 { ByteOrder::Little } else { ByteOrder::Big };
    assert_eq!(order, expected);
}

#[test]
fn the_tick_waits_no_longer_than_a_pending_deadline() {
    assert_eq!(next_tick_timeout_ms(false, true, None, None), 2000);
    assert_eq!(next_tick_timeout_ms(true, true, None, None), 250);
    assert_eq!(next_tick_timeout_ms(false, false, Some(100), Some(400)), 100);
    assert_eq!(next_tick_timeout_ms(false, true, None, Some(0)), 0);
    assert!(save_is_due(true, 2000));
    assert!(!save_is_due(true, 1999));
    assert!(!save_is_due(false, 5000));
}

#[test]
fn the_vendors_devices_are_listed_once_per_run() {
    let ids = possible_keyboards(&vec![(0x048d, 0xc985), (0x048d, 0xc985), (0x1234, 1), (0x048d, 0xc103), (0x048d, 0xc985)]);
    assert_eq!(ids, vec!["0x048d:0xc985".to_string(), "0x048d:0xc103".to_string(), "0x048d:0xc985".to_string()]);
}

#[test]
fn backups_are_numbered_after_the_first() {
    assert_eq!(backup_extension(0), "json.v1-backup");
    assert_eq!(backup_extension(3), "json.v1-backup.3");
    assert_eq!(backups_exhausted(), "16 backup names already taken");
}

#[test]
fn an_unreadable_settings_file_is_never_overwritten() {
    let unreadable = Settings::from_file("/x/settings.json", SettingsFile::Unreadable("denied".to_string()));
    assert_eq!(
        unreadable.save_refusal().as_deref(),
        Some("settings are read-only this session: could not read /x/settings.json: denied")
    );
    let corrupt = Settings::from_file("/x/settings.json", SettingsFile::Unparseable("eof".to_string()));
    assert!(corrupt.save_refusal().is_some());
    let fresh = Settings::from_file("/x/settings.json", SettingsFile::Current(Settings::default_settings()));
    assert!(fresh.save_refusal().is_none());
}

#[test]
fn a_profile_file_loads_in_either_shape() {
    assert!(Profile::load_profile(None, None).is_err());
    let legacy = LegacyProfileFile {
        name: None,
        rgb_zones: Profile::default_profile().slots[0].rgb_zones,
        effect: aurora::effects::Effects::Static,
        direction: aurora::effects::Direction::Left,
        speed: 1,
        brightness: aurora::effects::Brightness::Low,
    };
    let lifted = Profile::load_profile(None, Some(legacy)).expect("the older shape loads");
    assert_eq!(lifted.slots[2].rgb_array()[..3], [255, 0, 0]);
    assert_eq!(LoadProfileError.describe(), "Could not load profile");
    assert_eq!(SaveProfileError.describe(), "Could not save profile");

    let mut unnamed = Profile::default_profile();
    unnamed.name_for_saving();
    assert_eq!(unnamed.name.as_deref(), Some("Untitled"));
}

#[test]
fn a_lowercased_refusal_decides_the_status() {
    assert!(matches!(
        aurora::keyboard::hid_status("EACCES".to_string(), "operation not permitted"),
        KeyboardStatus::PermissionDenied { message } if message == "EACCES"
    ));
    assert!(matches!(
        aurora::keyboard::hid_status("Broken pipe".to_string(), "broken pipe"),
        KeyboardStatus::Error { .. }
    ));
    let refused = aurora::doctor::open_failure_check("Access denied".to_string(), "permission denied");
    assert!(refused.fix.is_some());
    let other = aurora::doctor::open_failure_check("Broken".to_string(), "broken");
    assert!(other.fix.is_none());
}

#[test]
fn the_socket_lives_in_the_runtime_dir() {
    assert_eq!(aurora::ipc::socket_path_for(Some("/run/user/1000".to_string())), "/run/user/1000/aurora.sock");
    assert_eq!(aurora::ipc::socket_path_for(Some("/run/user/1000/".to_string())), "/run/user/1000/aurora.sock");
    assert_eq!(aurora::ipc::socket_path_for(Some(String::new())), "/tmp/aurora.sock");
    assert_eq!(aurora::ipc::socket_path_for(None), "/tmp/aurora.sock");
}

#[test]
fn effect_names_follow_the_list() {
    let names = aurora::cli::effect_names();
    assert_eq!(names.len(), 14);
    assert_eq!(names[5], "AmbientLight");
}
