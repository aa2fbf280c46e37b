//! Keyboard acquisition: the retry schedule, how long a lost keyboard is
//! still called a reconnect, and what a driver failure is reported as.
//!
//! Times are whole seconds (the schedule) or nanoseconds (elapsed time), the
//! units the program's clock hands over.
use vstd::prelude::*;

use crate::driver::{DriverError, RangeErrorKind};
use crate::ipc::{KeyboardStatus, KeyboardStatusView};
use crate::text::{lowercase, owned, spec_contains, str_contains, to_lowercase};

verus! {

/// Seconds between acquisition attempts. The last entry repeats forever, so
/// a daemon started with the lid closed or the rule missing keeps trying
/// every ten seconds without spamming.
pub const ACQUIRE_BACKOFF: [u64; 4] = [1, 2, 5, 10];

/// How long, in nanoseconds, a keyboard that stopped answering is still
/// reported as a reconnect in progress: three attempts at the ten second
/// ceiling, longer than a suspend and resume takes the device away.
pub const LOST_GRACE_NANOS: u128 = 30_000_000_000;

/// The wait after `attempt_count` attempts: the schedule's entry, the last
/// one once the schedule runs out.
pub open spec fn spec_backoff_delay(attempt_count: u32) -> u64 {
    if attempt_count == 0 {
        1
    } else if attempt_count == 1 {
        2
    } else if attempt_count == 2 {
        5
    } else {
        10
    }
}

/// Seconds to wait before the next acquisition attempt.
pub fn backoff_delay(attempt_count: u32) -> (secs: u64)
    ensures
        secs == spec_backoff_delay(attempt_count),
        secs == ACQUIRE_BACKOFF@[if attempt_count < 3 { attempt_count as int } else { 3 }],
{
    let last_index: usize = 3;
    let index: usize = if (attempt_count as usize) < last_index {
        attempt_count as usize
    } else {
        last_index
    };
    let schedule = ACQUIRE_BACKOFF;
    assert(schedule@ == seq![1u64, 2u64, 5u64, 10u64]);
    schedule[index]
}

/// The text the HID backend gives in place of a reason: its libusb backend
/// does not implement `hid_error`.
pub open spec fn spec_hidapi_placeholder() -> Seq<char> {
    "hid_error is not implemented yet"@
}

/// What is said instead of the placeholder.
pub open spec fn spec_unanswered() -> Seq<char> {
    "the keyboard did not answer, and the HID backend does not report why"@
}

/// What Aurora says happened: a message carrying the backend's placeholder
/// is replaced by one a user can read; any other message passes unchanged.
pub open spec fn spec_readable_error(text: Seq<char>) -> Seq<char> {
    if spec_contains(text, spec_hidapi_placeholder()) {
        spec_unanswered()
    } else {
        text
    }
}

/// Replace the HID backend's placeholder with a readable message.
pub fn readable_error(text: String) -> (r: String)
    ensures
        r@ == spec_readable_error(text@),
{
    if str_contains(text.as_str(), "hid_error is not implemented yet") {
        return owned("the keyboard did not answer, and the HID backend does not report why");
    }
    text
}

/// Past the grace, a keyboard still searched for after being lost is
/// reported lost; any other status, and any keyboard never acquired this
/// session (`lost_for_nanos` is `None`), is left as it is.
pub open spec fn spec_status_after_loss(status: KeyboardStatusView, lost_for_nanos: Option<u128>) -> KeyboardStatusView {
    match (status, lost_for_nanos) {
        (KeyboardStatusView::Searching, Some(elapsed)) => if elapsed >= LOST_GRACE_NANOS {
            KeyboardStatusView::Lost
        } else {
            status
        },
        _ => status,
    }
}

/// The status to report for a keyboard that stopped answering
/// `lost_for_nanos` ago (or `None` when none was acquired this session).
pub fn status_after_loss(status: KeyboardStatus, lost_for_nanos: Option<u128>) -> (r: KeyboardStatus)
    ensures
        r@ == spec_status_after_loss(status@, lost_for_nanos),
{
    match status {
        KeyboardStatus::Searching => match lost_for_nanos {
            Some(elapsed) => if elapsed >= LOST_GRACE_NANOS {
                KeyboardStatus::Lost
            } else {
                KeyboardStatus::Searching
            },
            None => KeyboardStatus::Searching,
        },
        other => other,
    }
}

/// Whether a lowercased HID message says access was refused.
pub open spec fn spec_says_denied(lower: Seq<char>) -> bool {
    spec_contains(lower, "permission denied"@) || spec_contains(lower, "not permitted"@)
}

/// The status a HID failure is reported as, given its message and that
/// message lowercased: a refusal of access is `PermissionDenied`, anything
/// else an `Error`; either carries the readable form of the message.
pub open spec fn spec_hid_status(message: Seq<char>, lower: Seq<char>) -> KeyboardStatusView {
    if spec_says_denied(lower) {
        KeyboardStatusView::PermissionDenied { message: spec_readable_error(message) }
    } else {
        KeyboardStatusView::Error { message: spec_readable_error(message) }
    }
}

/// The status for a HID failure whose message is `message` and whose
/// lowercase form is `lower`.
pub fn hid_status(message: String, lower: &str) -> (r: KeyboardStatus)
    ensures
        r@ == spec_hid_status(message@, lower@),
{
    let denied = str_contains(lower, "permission denied") || str_contains(lower, "not permitted");
    let readable = readable_error(message);
    if denied {
        KeyboardStatus::PermissionDenied { message: readable }
    } else {
        KeyboardStatus::Error { message: readable }
    }
}

/// The status a failed acquisition is reported as: no controller is
/// `Searching`; a HID failure is classified by its message (lowercased by
/// [`lowercase`]); a range error is an `Error` carrying its description.
pub open spec fn spec_classify_error(error: DriverError) -> KeyboardStatusView {
    match error {
        DriverError::DeviceNotFound => KeyboardStatusView::Searching,
        DriverError::Hid { message } => spec_hid_status(message@, lowercase(message@)),
        DriverError::Range { kind } => KeyboardStatusView::Error { message: kind.spec_describe() },
    }
}

/// Classify a driver failure for the protocol and the log.
pub fn classify_error(error: &DriverError) -> (r: KeyboardStatus)
    ensures
        r@ == spec_classify_error(*error),
{
    match error {
        DriverError::DeviceNotFound => KeyboardStatus::Searching,
        DriverError::Hid { message } => {
            let lower = to_lowercase(message.as_str());
            hid_status(message.clone(), lower.as_str())
        },
        DriverError::Range { kind } => KeyboardStatus::Error { message: kind.describe() },
    }
}

} // verus!
