use aurora::ipc::KeyboardStatus;
use aurora::keyboard::{readable_error, status_after_loss, LOST_GRACE_NANOS};

const NANOS_PER_SECOND: u128 = 1_000_000_000;

#[test]
fn the_hidapi_placeholder_never_reaches_a_user() {
    let placeholder = "hidapi error: hid_error is not implemented yet".to_string();
    let described = readable_error(placeholder);

    assert!(!described.contains("hid_error"));
    assert!(described.contains("did not answer"));
}

#[test]
fn a_real_reason_is_passed_through_untouched() {
    let real = "Permission denied (os error 13)".to_string();

    assert_eq!(readable_error(real.clone()), real);
}

#[test]
fn a_keyboard_that_was_never_here_stays_searching() {
    let settled = status_after_loss(KeyboardStatus::Searching, None);

    assert!(matches!(settled, KeyboardStatus::Searching));
}

#[test]
fn a_keyboard_gone_a_moment_is_still_reconnecting() {
    let settled = status_after_loss(KeyboardStatus::Searching, Some(2 * NANOS_PER_SECOND));

    assert!(matches!(settled, KeyboardStatus::Searching));
}

#[test]
fn a_keyboard_gone_past_the_grace_is_reported_lost() {
    let settled = status_after_loss(KeyboardStatus::Searching, Some(LOST_GRACE_NANOS));

    assert!(matches!(settled, KeyboardStatus::Lost));
}

#[test]
fn a_device_that_will_not_open_keeps_its_own_status() {
    let denied = KeyboardStatus::PermissionDenied { message: "Permission denied".to_string() };
    let settled = status_after_loss(denied.clone(), Some(LOST_GRACE_NANOS * 2));

    assert!(settled.same_as(&denied));
}
