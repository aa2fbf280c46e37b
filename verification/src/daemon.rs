//! The daemon core: the one place daemon state changes.
//!
//! Every mutation (IPC request, hotkey press, Fn+Space event, device
//! failure, battery sample, save outcome) is a call on [`Core`]. Each call
//! updates the state and appends the work it needs done outside to
//! `actions`: lighting to show, an effect to play, timers to arm, a state
//! broadcast. The thread that owns the core performs those actions, so the
//! decisions here never wait on a device, a socket or a clock.
//!
//! The low-battery alert changes what the keyboard is shown and nothing
//! else: the live profile and the settings are written from elsewhere, so
//! alert lighting cannot reach the settings file.
use vstd::prelude::*;
use vstd::utf8::encode_utf8;

use crate::battery::Reading;
use crate::custom_effect::{CustomEffect, CustomEffectView};
use crate::driver::DriverError;
use crate::effects::{Brightness, Effects};
use crate::ipc::{
    CustomEffectSummary, DaemonState, DaemonStateView, ErrorKind, KeyboardStatus, KeyboardStatusView,
    ProfileSummary, Response, ResponseView, SlotSelection, Subsystem, SubsystemState, SubsystemStateView,
    MAX_CUSTOM_EFFECT_STEPS, MAX_SAVED_CUSTOM_EFFECTS, MAX_SAVED_PROFILES, PROTOCOL_VERSION,
};
use crate::profile::{spec_name_view, spec_solid, Lighting, Profile, ProfileView};
use crate::settings::{spec_effects_view, spec_profiles_view, Settings, SettingsView};
use crate::text::{owned, push_decimal, push_str, same_text, spec_decimal};

verus! {

/// Charge at or below which the keyboard turns red while discharging.
pub const BATTERY_ALERT_PERCENT: u8 = 15;

/// The speeds software effects accept.
pub const SOFTWARE_SPEED_MIN: u8 = 1;

pub const SOFTWARE_SPEED_MAX: u8 = 10;

/// The loop's tick while something is pending: a keyboard to acquire or
/// a debounced save waiting.
pub const TICK_BUSY_MS: u64 = 250;

/// The loop's tick when the keyboard is held and nothing is pending.
pub const TICK_IDLE_MS: u64 = 2000;

/// The live profile is saved this long after the last change, so a slider
/// drag does not write the file on every wiggle.
pub const SAVE_DEBOUNCE_MS: u64 = 2000;

/// Fn+Space input must be quiet this long before the settled slot is
/// written, so the controller's own transition can finish.
pub const SLOT_SETTLE_DELAY_MS: u64 = 250;

/// Under tracing, how long after a slot write the controller counter is
/// sampled.
pub const SLOT_TRACE_DELAY_MS: u64 = 500;

/// How often the battery is read.
pub const BATTERY_POLL_INTERVAL_MS: u64 = 5000;

/// How long the core's loop may wait for a command before its next tick:
/// the busy tick while a save is pending or no keyboard is held, the idle
/// tick otherwise, and never past a pending settle or trace deadline
/// (given as the milliseconds left until it, zero once passed).
pub fn next_tick_timeout_ms(
    settings_dirty: bool,
    keyboard_held: bool,
    until_slot_apply: Option<u64>,
    until_slot_trace: Option<u64>,
) -> (t: u64)
    ensures
        t <= (if settings_dirty || !keyboard_held { TICK_BUSY_MS } else { TICK_IDLE_MS }),
        until_slot_apply matches Some(a) ==> t <= a,
        until_slot_trace matches Some(b) ==> t <= b,
        t == (if settings_dirty || !keyboard_held { TICK_BUSY_MS } else { TICK_IDLE_MS })
            || until_slot_apply == Some(t) || until_slot_trace == Some(t),
{
    let mut timeout: u64 = if settings_dirty || !keyboard_held {
        TICK_BUSY_MS
    } else {
        TICK_IDLE_MS
    };
    if let Some(a) = until_slot_apply {
        if a < timeout {
            timeout = a;
        }
    }
    if let Some(b) = until_slot_trace {
        if b < timeout {
            timeout = b;
        }
    }
    timeout
}

/// Whether a pending save is due: the settings changed and nothing has
/// changed for the debounce interval.
pub fn save_is_due(settings_dirty: bool, since_last_change_ms: u64) -> (r: bool)
    ensures
        r == (settings_dirty && since_last_change_ms >= SAVE_DEBOUNCE_MS),
{
    settings_dirty && since_last_change_ms >= SAVE_DEBOUNCE_MS
}

/// Work the core needs done outside itself, in the order it arose.
#[derive(Debug)]
pub enum Action {
    /// Show this lighting on the keyboard.
    Show(Lighting),
    /// Play this custom effect on the keyboard.
    Play(CustomEffect),
    /// Apply the active slot once the Fn+Space transition has settled.
    ScheduleSlotApply,
    /// Sample the controller counter a little after this write (tracing).
    ScheduleSlotTrace,
    /// Restart the debounce before the settings are saved.
    RestartSaveTimer,
    /// Read the battery on the next tick.
    ReadBatteryNow,
    /// Send a state snapshot to every subscriber.
    Broadcast,
    /// Add the requesting connection to the subscribers.
    Subscribe,
    /// Shut the effect engine down and forget the device handle.
    DropEngine,
}

pub enum ActionView {
    Show(Lighting),
    Play(CustomEffectView),
    ScheduleSlotApply,
    ScheduleSlotTrace,
    RestartSaveTimer,
    ReadBatteryNow,
    Broadcast,
    Subscribe,
    DropEngine,
}

impl View for Action {
    type V = ActionView;

    open spec fn view(&self) -> ActionView {
        match self {
            Action::Show(l) => ActionView::Show(*l),
            Action::Play(e) => ActionView::Play(e@),
            Action::ScheduleSlotApply => ActionView::ScheduleSlotApply,
            Action::ScheduleSlotTrace => ActionView::ScheduleSlotTrace,
            Action::RestartSaveTimer => ActionView::RestartSaveTimer,
            Action::ReadBatteryNow => ActionView::ReadBatteryNow,
            Action::Broadcast => ActionView::Broadcast,
            Action::Subscribe => ActionView::Subscribe,
            Action::DropEngine => ActionView::DropEngine,
        }
    }
}

/// Events other than client requests.
#[derive(Debug)]
pub enum Command {
    /// The profile-cycling hotkey was pressed.
    CycleProfile,
    /// The Fn+Space "light profile change" event fired.
    HardwareSlotEvent,
    /// SIGTERM or SIGINT arrived.
    ShutdownSignal,
    /// An optional subsystem changed state.
    SubsystemStatus { subsystem: Subsystem, state: SubsystemState },
}

/// The daemon's state.
pub struct Core {
    pub settings: Settings,
    pub current_profile: Profile,
    /// Which Fn+Space position is live. Aurora's own number once the
    /// keyboard is acquired.
    pub active_slot: SlotSelection,
    pub custom_effect_playing: Option<String>,
    pub keyboard_status: KeyboardStatus,
    /// Whether an effect engine holds the keyboard.
    pub engine_running: bool,
    /// Whether a settled Fn+Space slot is waiting to be applied.
    pub slot_apply_pending: bool,
    pub settings_dirty: bool,
    pub settings_error: Option<String>,
    pub acquire_attempt_count: u32,
    pub slot_sync: SubsystemState,
    pub hotkey: SubsystemState,
    pub screen_capture: SubsystemState,
    /// Whether this machine has a battery. Decided once at startup.
    pub battery_available: bool,
    /// Whether the battery is low enough for the alert to want the keyboard.
    pub battery_alert_active: bool,
    /// The charge last read.
    pub battery_percent: Option<u8>,
    pub shutdown_requested: bool,
    /// The daemon's package version.
    pub version: String,
    /// Work requested and not yet taken by the owner of the core.
    pub actions: Vec<Action>,
}

pub struct CoreView {
    pub settings: SettingsView,
    pub current_profile: ProfileView,
    pub active_slot: SlotSelection,
    pub custom_effect_playing: Option<Seq<char>>,
    pub keyboard_status: KeyboardStatusView,
    pub engine_running: bool,
    pub slot_apply_pending: bool,
    pub settings_dirty: bool,
    pub settings_error: Option<Seq<char>>,
    pub acquire_attempt_count: u32,
    pub slot_sync: SubsystemStateView,
    pub hotkey: SubsystemStateView,
    pub screen_capture: SubsystemStateView,
    pub battery_available: bool,
    pub battery_alert_active: bool,
    pub battery_percent: Option<u8>,
    pub shutdown_requested: bool,
    pub version: Seq<char>,
    pub actions: Seq<ActionView>,
}

impl View for Core {
    type V = CoreView;

    open spec fn view(&self) -> CoreView {
        CoreView {
            settings: self.settings@,
            current_profile: self.current_profile@,
            active_slot: self.active_slot,
            custom_effect_playing: spec_name_view(self.custom_effect_playing),
            keyboard_status: self.keyboard_status@,
            engine_running: self.engine_running,
            slot_apply_pending: self.slot_apply_pending,
            settings_dirty: self.settings_dirty,
            settings_error: spec_name_view(self.settings_error),
            acquire_attempt_count: self.acquire_attempt_count,
            slot_sync: self.slot_sync@,
            hotkey: self.hotkey@,
            screen_capture: self.screen_capture@,
            battery_available: self.battery_available,
            battery_alert_active: self.battery_alert_active,
            battery_percent: self.battery_percent,
            shutdown_requested: self.shutdown_requested,
            version: self.version@,
            actions: self.actions@.map_values(|a: Action| a@),
        }
    }
}

// --- Rules ---------------------------------------------------------------

/// Whether the low-battery alert should be holding the keyboard: the
/// switch is on, the battery is draining, and the charge is at or below
/// the threshold. Being on AC clears it at any charge.
pub open spec fn spec_battery_alert_holds(enabled: bool, reading: Reading) -> bool {
    enabled && reading.discharging && reading.percent <= BATTERY_ALERT_PERCENT
}

pub fn battery_alert_holds(enabled: bool, reading: Reading) -> (r: bool)
    ensures
        r == spec_battery_alert_holds(enabled, reading),
{
    enabled && reading.discharging && reading.percent <= BATTERY_ALERT_PERCENT
}

/// Every zone red at low brightness, held steady.
pub open spec fn spec_battery_alert_lighting() -> Lighting {
    Lighting { effect: Effects::Static, brightness: Brightness::Low, ..spec_solid([255u8, 0u8, 0u8]) }
}

pub fn battery_alert_lighting() -> (l: Lighting)
    ensures
        l == spec_battery_alert_lighting(),
{
    let mut lighting = Lighting::solid([255, 0, 0]);
    lighting.effect = Effects::Static;
    lighting.brightness = Brightness::Low;
    lighting
}

/// The slot to start from, given the stored selection and a counter read
/// taken before Aurora wrote anything. The counter decides lit versus off;
/// the stored value decides which lit slot. An unreadable or unsettled
/// counter decides nothing.
pub open spec fn spec_anchor_slot(persisted: SlotSelection, counter: Option<u8>) -> SlotSelection {
    match counter {
        None => persisted,
        Some(value) => match SlotSelection::spec_from_counter(value) {
            None => persisted,
            Some(SlotSelection::Off) => SlotSelection::Off,
            Some(_) => if persisted == SlotSelection::Off {
                SlotSelection::First
            } else {
                persisted
            },
        },
    }
}

pub open spec fn spec_counter_value(r: Result<u8, DriverError>) -> Option<u8> {
    match r {
        Ok(v) => Some(v),
        Err(_) => None,
    }
}

pub fn anchor_slot(persisted: SlotSelection, counter_result: Result<u8, DriverError>) -> (r: SlotSelection)
    ensures
        r == spec_anchor_slot(persisted, spec_counter_value(counter_result)),
{
    let counter = match counter_result {
        Ok(counter) => counter,
        Err(_) => return persisted,
    };
    let reported = match SlotSelection::from_counter(counter) {
        Some(reported) => reported,
        None => return persisted,
    };
    match (reported, persisted) {
        (SlotSelection::Off, _) => SlotSelection::Off,
        (_, SlotSelection::First) | (_, SlotSelection::Second) | (_, SlotSelection::Third) => persisted,
        (_, SlotSelection::Off) => SlotSelection::First,
    }
}

// --- Validation ----------------------------------------------------------

/// Whether a bit pattern is an `f32` in `0.0..=1.0`: positive values up to
/// one, and negative zero (which compares equal to zero).
pub open spec fn spec_unit_interval_bits(bits: u32) -> bool {
    bits <= 0x3f80_0000 || bits == 0x8000_0000
}

pub open spec fn spec_battery_refusal() -> Seq<char> {
    "the Battery effect needs a battery, and this machine has none"@
}

/// Why a lighting is refused, or `None` when it is acceptable. The checks
/// run in order: hardware the machine lacks, speed, then ambient settings.
pub open spec fn spec_lighting_rejection(l: Lighting, battery_available: bool) -> Option<Seq<char>> {
    if l.effect.spec_needs_a_battery() && !battery_available {
        Some(spec_battery_refusal())
    } else if !(SOFTWARE_SPEED_MIN <= l.speed <= SOFTWARE_SPEED_MAX) {
        Some("speed "@ + spec_decimal(l.speed as nat) + " outside 1..=10"@)
    } else {
        match l.effect {
            Effects::AmbientLight { fps, saturation_boost_bits } => if !(1 <= fps <= 60) {
                Some("ambient fps "@ + spec_decimal(fps as nat) + " outside 1..=60"@)
            } else if !spec_unit_interval_bits(saturation_boost_bits) {
                Some("ambient saturation boost outside 0.0..=1.0"@)
            } else {
                None
            },
            _ => None,
        }
    }
}

/// The first slot's refusal, if any slot is refused.
pub open spec fn spec_profile_rejection(slots: Seq<Lighting>, battery_available: bool) -> Option<Seq<char>> {
    if spec_lighting_rejection(slots[0], battery_available) is Some {
        spec_lighting_rejection(slots[0], battery_available)
    } else if spec_lighting_rejection(slots[1], battery_available) is Some {
        spec_lighting_rejection(slots[1], battery_available)
    } else {
        spec_lighting_rejection(slots[2], battery_available)
    }
}

/// Why a name is refused: empty, or longer than the byte limit.
pub open spec fn spec_name_rejection(name: Seq<char>, kind: Seq<char>) -> Option<Seq<char>> {
    if name.len() == 0 {
        Some(kind + " name is empty"@)
    } else if encode_utf8(name).len() > 64 {
        Some(kind + " name is "@ + spec_decimal(encode_utf8(name).len()) + " bytes, the limit is 64"@)
    } else {
        None
    }
}

/// Why a custom effect is refused: no steps, or too many.
pub open spec fn spec_custom_effect_rejection(step_count: nat) -> Option<Seq<char>> {
    if step_count == 0 {
        Some("custom effect has no steps"@)
    } else if step_count > MAX_CUSTOM_EFFECT_STEPS {
        Some("custom effect has "@ + spec_decimal(step_count) + " steps, the limit is 4096"@)
    } else {
        None
    }
}

/// Whether `r` is the `InvalidRequest` refusal `expected` describes.
pub open spec fn spec_refusal_matches(r: Option<Response>, expected: Option<Seq<char>>) -> bool {
    match (r, expected) {
        (None, None) => true,
        (Some(resp), Some(message)) => resp@ == (ResponseView::Error { kind: ErrorKind::InvalidRequest, message }),
        _ => false,
    }
}

pub fn error_response(kind: ErrorKind, message: String) -> (r: Response)
    ensures
        r@ == (ResponseView::Error { kind, message: message@ }),
{
    Response::Error { kind, message }
}

fn invalid(message: String) -> (r: Option<Response>)
    ensures
        r matches Some(resp) && resp@ == (ResponseView::Error { kind: ErrorKind::InvalidRequest, message: message@ }),
{
    Some(Response::Error { kind: ErrorKind::InvalidRequest, message })
}

/// Refuses lighting that is out of range or that asks for hardware this
/// machine does not have.
pub fn validate_lighting(lighting: &Lighting, battery_available: bool) -> (r: Option<Response>)
    ensures
        spec_refusal_matches(r, spec_lighting_rejection(*lighting, battery_available)),
{
    if lighting.effect.needs_a_battery() && !battery_available {
        return invalid(owned("the Battery effect needs a battery, and this machine has none"));
    }
    if !(SOFTWARE_SPEED_MIN <= lighting.speed && lighting.speed <= SOFTWARE_SPEED_MAX) {
        let mut message = owned("speed ");
        push_decimal(&mut message, lighting.speed as u64);
        push_str(&mut message, " outside 1..=10");
        return invalid(message);
    }
    match lighting.effect {
        Effects::AmbientLight { fps, saturation_boost_bits } => {
            if !(1 <= fps && fps <= 60) {
                let mut message = owned("ambient fps ");
                push_decimal(&mut message, fps as u64);
                push_str(&mut message, " outside 1..=60");
                return invalid(message);
            }
            if !(saturation_boost_bits <= 0x3f80_0000 || saturation_boost_bits == 0x8000_0000) {
                return invalid(owned("ambient saturation boost outside 0.0..=1.0"));
            }
            None
        },
        _ => None,
    }
}

/// Refuses a profile when any of its slots is refused; the first refused
/// slot gives the reason.
pub fn validate_profile(profile: &Profile, battery_available: bool) -> (r: Option<Response>)
    ensures
        spec_refusal_matches(r, spec_profile_rejection(profile.slots@, battery_available)),
{
    let r0 = validate_lighting(&profile.slots[0], battery_available);
    if r0.is_some() {
        return r0;
    }
    let r1 = validate_lighting(&profile.slots[1], battery_available);
    if r1.is_some() {
        return r1;
    }
    validate_lighting(&profile.slots[2], battery_available)
}

/// Refuses an empty name or one longer than the byte limit. `kind` names
/// what is being saved, for the message.
pub fn validate_name(name: &str, kind: &str) -> (r: Option<Response>)
    ensures
        spec_refusal_matches(r, spec_name_rejection(name@, kind@)),
{
    if name.is_empty() {
        let mut message = owned(kind);
        push_str(&mut message, " name is empty");
        return invalid(message);
    }
    let byte_count = name.as_bytes().len();
    if byte_count > crate::profile::MAX_NAME_BYTES {
        let mut message = owned(kind);
        push_str(&mut message, " name is ");
        push_decimal(&mut message, byte_count as u64);
        push_str(&mut message, " bytes, the limit is 64");
        return invalid(message);
    }
    None
}

/// Refuses a custom effect without steps or with more than the limit.
pub fn validate_custom_effect(effect: &CustomEffect) -> (r: Option<Response>)
    ensures
        spec_refusal_matches(r, spec_custom_effect_rejection(effect.effect_steps@.len())),
{
    let step_count = effect.effect_steps.len();
    if step_count == 0 {
        return invalid(owned("custom effect has no steps"));
    }
    if step_count > MAX_CUSTOM_EFFECT_STEPS {
        let mut message = owned("custom effect has ");
        push_decimal(&mut message, step_count as u64);
        push_str(&mut message, " steps, the limit is 4096");
        return invalid(message);
    }
    None
}

// --- The state machine, as contracts see it -------------------------------

pub open spec fn spec_alert_showing(c: CoreView) -> bool {
    c.battery_alert_active && c.active_slot.spec_index() is Some
}

/// What the keyboard should show: the alert while it is showing, else the
/// live slot's own lighting, and darkness for the off position.
pub open spec fn spec_lighting_to_show(c: CoreView) -> Lighting {
    if spec_alert_showing(c) {
        spec_battery_alert_lighting()
    } else {
        match c.active_slot.spec_index() {
            Some(i) => c.current_profile.slots[i as int],
            None => crate::profile::spec_default_lighting(),
        }
    }
}

pub open spec fn spec_show_action(c: CoreView) -> Seq<ActionView> {
    if c.engine_running {
        seq![ActionView::Show(spec_lighting_to_show(c))]
    } else {
        seq![]
    }
}

/// Apply the active slot: the one place lighting reaches the keyboard.
/// Stops a playing custom effect, drops a pending settle, shows what
/// should show (with an engine), and broadcasts.
pub open spec fn spec_apply(c: CoreView) -> CoreView {
    CoreView {
        custom_effect_playing: None,
        slot_apply_pending: false,
        actions: c.actions + spec_show_action(c) + seq![ActionView::ScheduleSlotTrace, ActionView::Broadcast],
        ..c
    }
}

/// Record a change to persist: the live profile and slot are copied into
/// the settings, which become dirty.
pub open spec fn spec_mark_changed(c: CoreView) -> CoreView {
    CoreView {
        settings: SettingsView { current_profile: c.current_profile, active_slot: c.active_slot, ..c.settings },
        settings_dirty: true,
        actions: c.actions.push(ActionView::RestartSaveTimer),
        ..c
    }
}

pub open spec fn spec_broadcast(c: CoreView) -> CoreView {
    CoreView { actions: c.actions.push(ActionView::Broadcast), ..c }
}

pub open spec fn spec_refused(kind: ErrorKind, message: Seq<char>) -> ResponseView {
    ResponseView::Error { kind, message }
}

/// The first index at or after `k` whose name is `target`.
pub open spec fn spec_first_from(names: Seq<Option<Seq<char>>>, target: Option<Seq<char>>, k: int) -> Option<int>
    decreases names.len() - k,
{
    if k < 0 || k >= names.len() {
        None
    } else if names[k] == target {
        Some(k)
    } else {
        spec_first_from(names, target, k + 1)
    }
}

pub open spec fn spec_position(names: Seq<Option<Seq<char>>>, target: Option<Seq<char>>) -> Option<int> {
    spec_first_from(names, target, 0)
}

pub open spec fn spec_profile_names(ps: Seq<ProfileView>) -> Seq<Option<Seq<char>>> {
    ps.map_values(|p: ProfileView| p.name)
}

pub open spec fn spec_effect_names(es: Seq<CustomEffectView>) -> Seq<Option<Seq<char>>> {
    es.map_values(|e: CustomEffectView| e.name)
}

pub open spec fn spec_no_such_profile(name: Seq<char>) -> Seq<char> {
    "no saved profile called '"@ + name + "'"@
}

pub open spec fn spec_no_such_effect(name: Seq<char>) -> Seq<char> {
    "no saved custom effect called '"@ + name + "'"@
}

pub open spec fn spec_off_refusal() -> Seq<char> {
    "the off position holds no lighting; select a slot first"@
}

/// Replace one slot's lighting in the live profile.
pub open spec fn spec_set_lighting(c: CoreView, slot: Option<SlotSelection>, l: Lighting) -> (CoreView, ResponseView) {
    let target = match slot {
        Some(s) => s,
        None => c.active_slot,
    };
    match target.spec_index() {
        None => (c, spec_refused(ErrorKind::InvalidRequest, spec_off_refusal())),
        Some(i) => match spec_lighting_rejection(l, c.battery_available) {
            Some(m) => (c, spec_refused(ErrorKind::InvalidRequest, m)),
            None => {
                let edited = CoreView {
                    current_profile: ProfileView { slots: c.current_profile.slots.update(i as int, l), ..c.current_profile },
                    ..c
                };
                let changed = spec_mark_changed(edited);
                if target == c.active_slot {
                    (spec_apply(changed), ResponseView::Done)
                } else {
                    (spec_broadcast(changed), ResponseView::Done)
                }
            },
        },
    }
}

/// Make a profile the live profile and apply the active slot.
pub open spec fn spec_set_profile(c: CoreView, p: ProfileView) -> (CoreView, ResponseView) {
    match spec_profile_rejection(p.slots, c.battery_available) {
        Some(m) => (c, spec_refused(ErrorKind::InvalidRequest, m)),
        None => (spec_apply(spec_mark_changed(CoreView { current_profile: p, ..c })), ResponseView::Done),
    }
}

pub open spec fn spec_display_name(name: Option<Seq<char>>) -> Seq<char> {
    match name {
        Some(n) => n,
        None => "Unnamed"@,
    }
}

/// Start playing a custom effect.
pub open spec fn spec_play(c: CoreView, e: CustomEffectView) -> (CoreView, ResponseView) {
    match spec_custom_effect_rejection(e.effect_steps.len()) {
        Some(m) => (c, spec_refused(ErrorKind::InvalidRequest, m)),
        None => (
            CoreView {
                actions: c.actions + (if c.engine_running {
                    seq![ActionView::Play(e)]
                } else {
                    seq![]
                }) + seq![ActionView::Broadcast],
                slot_apply_pending: false,
                custom_effect_playing: Some(spec_display_name(e.name)),
                ..c
            },
            ResponseView::Done,
        ),
    }
}

pub open spec fn spec_play_by_name(c: CoreView, name: Seq<char>) -> (CoreView, ResponseView) {
    match spec_position(spec_effect_names(c.settings.effects), Some(name)) {
        Some(i) => spec_play(c, c.settings.effects[i]),
        None => (c, spec_refused(ErrorKind::NoSuchCustomEffect, spec_no_such_effect(name))),
    }
}

/// Save a named profile, replacing the first with the same name.
pub open spec fn spec_add_profile(c: CoreView, p: ProfileView) -> (CoreView, ResponseView) {
    match p.name {
        None => (c, spec_refused(ErrorKind::InvalidRequest, "profile needs a name to be saved"@)),
        Some(name) => match spec_name_rejection(name, "profile"@) {
            Some(m) => (c, spec_refused(ErrorKind::InvalidRequest, m)),
            None => match spec_profile_rejection(p.slots, c.battery_available) {
                Some(m) => (c, spec_refused(ErrorKind::InvalidRequest, m)),
                None => match spec_position(spec_profile_names(c.settings.profiles), Some(name)) {
                    Some(i) => (
                        spec_broadcast(
                            spec_mark_changed(
                                CoreView {
                                    settings: SettingsView { profiles: c.settings.profiles.update(i, p), ..c.settings },
                                    ..c
                                },
                            ),
                        ),
                        ResponseView::Done,
                    ),
                    None => if c.settings.profiles.len() >= MAX_SAVED_PROFILES {
                        (c, spec_refused(ErrorKind::InvalidRequest, "cannot save more than 128 profiles"@))
                    } else {
                        (
                            spec_broadcast(
                                spec_mark_changed(
                                    CoreView {
                                        settings: SettingsView { profiles: c.settings.profiles.push(p), ..c.settings },
                                        ..c
                                    },
                                ),
                            ),
                            ResponseView::Done,
                        )
                    },
                },
            },
        },
    }
}

/// Delete the first saved profile with this name.
pub open spec fn spec_delete_profile(c: CoreView, name: Seq<char>) -> (CoreView, ResponseView) {
    match spec_position(spec_profile_names(c.settings.profiles), Some(name)) {
        Some(i) => (
            spec_broadcast(
                spec_mark_changed(
                    CoreView { settings: SettingsView { profiles: c.settings.profiles.remove(i), ..c.settings }, ..c },
                ),
            ),
            ResponseView::Done,
        ),
        None => (c, spec_refused(ErrorKind::NoSuchProfile, spec_no_such_profile(name))),
    }
}

/// Make the first saved profile with this name the live profile.
pub open spec fn spec_switch_profile(c: CoreView, name: Seq<char>) -> (CoreView, ResponseView) {
    match spec_position(spec_profile_names(c.settings.profiles), Some(name)) {
        Some(i) => spec_set_profile(c, c.settings.profiles[i]),
        None => (c, spec_refused(ErrorKind::NoSuchProfile, spec_no_such_profile(name))),
    }
}

/// The saved profile after the live one (by name), wrapping around; the
/// first saved profile when the live one is not saved.
pub open spec fn spec_cycle_target(c: CoreView) -> int {
    match spec_position(spec_profile_names(c.settings.profiles), c.current_profile.name) {
        Some(i) => (i + 1) % (c.settings.profiles.len() as int),
        None => 0,
    }
}

pub open spec fn spec_cycle_profile(c: CoreView) -> (CoreView, ResponseView) {
    if c.settings.profiles.len() == 0 {
        (c, spec_refused(ErrorKind::NoSuchProfile, "no saved profiles to cycle through"@))
    } else {
        spec_set_profile(c, c.settings.profiles[spec_cycle_target(c)])
    }
}

/// Save a named custom effect, replacing the first with the same name.
pub open spec fn spec_add_custom_effect(c: CoreView, e: CustomEffectView) -> (CoreView, ResponseView) {
    match e.name {
        None => (c, spec_refused(ErrorKind::InvalidRequest, "custom effect needs a name to be saved"@)),
        Some(name) => match spec_name_rejection(name, "custom effect"@) {
            Some(m) => (c, spec_refused(ErrorKind::InvalidRequest, m)),
            None => match spec_custom_effect_rejection(e.effect_steps.len()) {
                Some(m) => (c, spec_refused(ErrorKind::InvalidRequest, m)),
                None => match spec_position(spec_effect_names(c.settings.effects), Some(name)) {
                    Some(i) => (
                        spec_broadcast(
                            spec_mark_changed(
                                CoreView {
                                    settings: SettingsView { effects: c.settings.effects.update(i, e), ..c.settings },
                                    ..c
                                },
                            ),
                        ),
                        ResponseView::Done,
                    ),
                    None => if c.settings.effects.len() >= MAX_SAVED_CUSTOM_EFFECTS {
                        (c, spec_refused(ErrorKind::InvalidRequest, "cannot save more than 128 custom effects"@))
                    } else {
                        (
                            spec_broadcast(
                                spec_mark_changed(
                                    CoreView {
                                        settings: SettingsView { effects: c.settings.effects.push(e), ..c.settings },
                                        ..c
                                    },
                                ),
                            ),
                            ResponseView::Done,
                        )
                    },
                },
            },
        },
    }
}

pub open spec fn spec_delete_custom_effect(c: CoreView, name: Seq<char>) -> (CoreView, ResponseView) {
    match spec_position(spec_effect_names(c.settings.effects), Some(name)) {
        Some(i) => (
            spec_broadcast(
                spec_mark_changed(
                    CoreView { settings: SettingsView { effects: c.settings.effects.remove(i), ..c.settings }, ..c },
                ),
            ),
            ResponseView::Done,
        ),
        None => (c, spec_refused(ErrorKind::NoSuchCustomEffect, spec_no_such_effect(name))),
    }
}

/// Turn the alert switch on or off. Off gives the keyboard back at once;
/// on asks for a battery read on the next tick.
pub open spec fn spec_set_battery_alert(c: CoreView, enabled: bool) -> (CoreView, ResponseView) {
    if c.settings.battery_alert == enabled {
        (c, ResponseView::Done)
    } else {
        let changed = spec_mark_changed(
            CoreView { settings: SettingsView { battery_alert: enabled, ..c.settings }, ..c },
        );
        if !enabled && c.battery_alert_active {
            (spec_apply(CoreView { battery_alert_active: false, ..changed }), ResponseView::Done)
        } else {
            (
                CoreView {
                    actions: changed.actions + seq![ActionView::ReadBatteryNow, ActionView::Broadcast],
                    ..changed
                },
                ResponseView::Done,
            )
        }
    }
}

/// One Fn+Space press: the slot moves now, the write waits for the
/// controller's own transition to settle.
pub open spec fn spec_advance_slot(c: CoreView) -> CoreView {
    spec_broadcast(
        spec_mark_changed(
            CoreView {
                active_slot: c.active_slot.spec_next(),
                slot_apply_pending: true,
                custom_effect_playing: None,
                actions: c.actions.push(ActionView::ScheduleSlotApply),
                ..c
            },
        ),
    )
}

/// A client picked a slot. A pending Fn+Space settle keeps the write
/// timing; otherwise the slot is applied now.
pub open spec fn spec_select_slot(c: CoreView, slot: SlotSelection) -> CoreView {
    let changed = spec_mark_changed(CoreView { active_slot: slot, ..c });
    if c.slot_apply_pending {
        spec_broadcast(changed)
    } else {
        spec_apply(changed)
    }
}

/// Names of the saved profiles that have one, in order.
pub open spec fn spec_named_profiles(ps: Seq<ProfileView>) -> Seq<Seq<char>>
    decreases ps.len(),
{
    if ps.len() == 0 {
        seq![]
    } else {
        spec_named_profiles(ps.drop_last()) + match ps.last().name {
            Some(n) => seq![n],
            None => seq![],
        }
    }
}

/// Summaries of the saved custom effects that have a name, in order.
pub open spec fn spec_named_effects(es: Seq<CustomEffectView>) -> Seq<(Seq<char>, usize, bool)>
    decreases es.len(),
{
    if es.len() == 0 {
        seq![]
    } else {
        spec_named_effects(es.drop_last()) + match es.last().name {
            Some(n) => seq![(n, es.last().effect_steps.len() as usize, es.last().should_loop)],
            None => seq![],
        }
    }
}

/// The state snapshot clients receive.
pub open spec fn spec_snapshot(c: CoreView) -> DaemonStateView {
    DaemonStateView {
        keyboard: c.keyboard_status,
        current: c.current_profile,
        active_slot: c.active_slot,
        custom_effect_playing: c.custom_effect_playing,
        profiles: spec_named_profiles(c.settings.profiles),
        custom_effects: spec_named_effects(c.settings.effects),
        version: c.version,
        settings_error: c.settings_error,
        slot_sync: c.slot_sync,
        hotkey: c.hotkey,
        screen_capture: c.screen_capture,
        battery_available: c.battery_available,
        battery_alert: c.settings.battery_alert,
        battery_alert_active: spec_alert_showing(c),
        battery_percent: c.battery_percent,
    }
}

// --- The state machine ----------------------------------------------------

pub open spec fn spec_position_result(r: Option<usize>, expected: Option<int>) -> bool {
    match (r, expected) {
        (Some(i), Some(j)) => i as int == j,
        (None, None) => true,
        _ => false,
    }
}

/// Whether an optional name is the text `name`.
fn name_is(saved: &Option<String>, name: &str) -> (r: bool)
    ensures
        r == (spec_name_view(*saved) == Some(name@)),
{
    match saved {
        Some(s) => same_text(s.as_str(), name),
        None => false,
    }
}

/// Whether two optional names are the same.
fn names_equal(a: &Option<String>, b: &Option<String>) -> (r: bool)
    ensures
        r == (spec_name_view(*a) == spec_name_view(*b)),
{
    match (a, b) {
        (Some(x), Some(y)) => same_text(x.as_str(), y.as_str()),
        (None, None) => true,
        _ => false,
    }
}

proof fn lemma_first_from_step(names: Seq<Option<Seq<char>>>, target: Option<Seq<char>>, k: int)
    requires
        0 <= k < names.len(),
        names[k] != target,
    ensures
        spec_first_from(names, target, k) == spec_first_from(names, target, k + 1),
{
}

/// The first saved profile whose name is `target`.
fn find_profile(profiles: &Vec<Profile>, target: &Option<String>) -> (r: Option<usize>)
    ensures
        spec_position_result(r, spec_position(spec_profile_names(spec_profiles_view(profiles@)), spec_name_view(*target))),
        r matches Some(i) ==> i < profiles@.len(),
{
    let ghost names = spec_profile_names(spec_profiles_view(profiles@));
    let ghost t = spec_name_view(*target);
    let mut i: usize = 0;
    while i < profiles.len()
        invariant
            0 <= i <= profiles@.len(),
            names == spec_profile_names(spec_profiles_view(profiles@)),
            t == spec_name_view(*target),
            spec_first_from(names, t, 0) == spec_first_from(names, t, i as int),
        decreases profiles@.len() - i,
    {
        if names_equal(&profiles[i].name, target) {
            return Some(i);
        }
        proof {
            lemma_first_from_step(names, t, i as int);
        }
        i = i + 1;
    }
    None
}

/// The first saved custom effect whose name is `target`.
fn find_effect(effects: &Vec<CustomEffect>, target: &Option<String>) -> (r: Option<usize>)
    ensures
        spec_position_result(r, spec_position(spec_effect_names(spec_effects_view(effects@)), spec_name_view(*target))),
        r matches Some(i) ==> i < effects@.len(),
{
    let ghost names = spec_effect_names(spec_effects_view(effects@));
    let ghost t = spec_name_view(*target);
    let mut i: usize = 0;
    while i < effects.len()
        invariant
            0 <= i <= effects@.len(),
            names == spec_effect_names(spec_effects_view(effects@)),
            t == spec_name_view(*target),
            spec_first_from(names, t, 0) == spec_first_from(names, t, i as int),
        decreases effects@.len() - i,
    {
        if names_equal(&effects[i].name, target) {
            return Some(i);
        }
        proof {
            lemma_first_from_step(names, t, i as int);
        }
        i = i + 1;
    }
    None
}

impl Core {
    /// A core in its startup state: the stored profile and slot live,
    /// the keyboard searched for, nothing pending.
    pub fn new(settings: Settings, battery_available: bool, version: String) -> (c: Core)
        ensures
            c@.settings == settings@,
            c@.current_profile == settings@.current_profile,
            c@.active_slot == settings@.active_slot,
            c@.custom_effect_playing.is_none(),
            c@.keyboard_status == KeyboardStatusView::Searching,
            !c@.engine_running,
            !c@.slot_apply_pending,
            !c@.settings_dirty,
            c@.settings_error.is_none(),
            c@.acquire_attempt_count == 0,
            c@.slot_sync == SubsystemStateView::Unknown,
            c@.hotkey == SubsystemStateView::Unknown,
            c@.screen_capture == SubsystemStateView::Inactive,
            c@.battery_available == battery_available,
            !c@.battery_alert_active,
            c@.battery_percent.is_none(),
            !c@.shutdown_requested,
            c@.version == version@,
            c@.actions.len() == 0,
    {
        let current_profile = settings.current_profile.duplicate();
        let active_slot = settings.active_slot;
        let c = Core {
            settings,
            current_profile,
            active_slot,
            custom_effect_playing: None,
            keyboard_status: KeyboardStatus::Searching,
            engine_running: false,
            slot_apply_pending: false,
            settings_dirty: false,
            settings_error: None,
            acquire_attempt_count: 0,
            slot_sync: SubsystemState::Unknown,
            hotkey: SubsystemState::Unknown,
            screen_capture: SubsystemState::Inactive,
            battery_available,
            battery_alert_active: false,
            battery_percent: None,
            shutdown_requested: false,
            version,
            actions: Vec::new(),
        };
        assert(c@.actions =~= Seq::<ActionView>::empty());
        c
    }

    fn push_action(&mut self, action: Action)
        ensures
            final(self)@ == (CoreView { actions: old(self)@.actions.push(action@), ..old(self)@ }),
    {
        let ghost before = self.actions@;
        self.actions.push(action);
        assert(self.actions@.map_values(|a: Action| a@) =~= before.map_values(|a: Action| a@).push(action@));
    }

    /// Hands the accumulated actions to the caller, oldest first.
    pub fn take_actions(&mut self) -> (taken: Vec<Action>)
        ensures
            taken@.map_values(|a: Action| a@) == old(self)@.actions,
            final(self)@ == (CoreView { actions: Seq::empty(), ..old(self)@ }),
    {
        let mut taken: Vec<Action> = Vec::new();
        std::mem::swap(&mut taken, &mut self.actions);
        assert(self@.actions =~= Seq::<ActionView>::empty());
        taken
    }

    /// Whether the alert is taking the keyboard right now: low battery and
    /// a lit slot. With the backlight off there is nothing to turn red.
    pub fn battery_alert_is_showing(&self) -> (r: bool)
        ensures
            r == spec_alert_showing(self@),
    {
        self.battery_alert_active && self.active_slot.index().is_some()
    }

    /// What the keyboard should be showing.
    pub fn lighting_to_show(&self) -> (l: Lighting)
        ensures
            l == spec_lighting_to_show(self@),
    {
        if self.battery_alert_is_showing() {
            return battery_alert_lighting();
        }
        match self.active_slot.index() {
            Some(slot_index) => self.current_profile.slots[slot_index],
            None => Lighting::default_lighting(),
        }
    }

    /// Whether the loop should tick fast: acquiring the keyboard or holding
    /// an unsaved change.
    pub fn is_busy(&self) -> (r: bool)
        ensures
            r == (self@.settings_dirty || !self@.engine_running),
    {
        self.settings_dirty || !self.engine_running
    }

    fn apply_active_slot(&mut self)
        ensures
            final(self)@ == spec_apply(old(self)@),
    {
        let ghost c = self@;
        let lighting = self.lighting_to_show();
        self.custom_effect_playing = None;
        self.slot_apply_pending = false;
        if self.engine_running {
            self.push_action(Action::Show(lighting));
        }
        self.push_action(Action::ScheduleSlotTrace);
        self.push_action(Action::Broadcast);
        assert(self@.actions =~= spec_apply(c).actions);
    }

    fn mark_changed(&mut self)
        ensures
            final(self)@ == spec_mark_changed(old(self)@),
    {
        self.settings.current_profile = self.current_profile.duplicate();
        self.settings.active_slot = self.active_slot;
        self.settings_dirty = true;
        self.push_action(Action::RestartSaveTimer);
    }

    fn broadcast(&mut self)
        ensures
            final(self)@ == spec_broadcast(old(self)@),
    {
        self.push_action(Action::Broadcast);
    }

    // --- Slots -------------------------------------------------------------

    /// One Fn+Space press.
    pub fn advance_slot(&mut self)
        ensures
            final(self)@ == spec_advance_slot(old(self)@),
    {
        self.active_slot = self.active_slot.next();
        self.slot_apply_pending = true;
        self.custom_effect_playing = None;
        self.push_action(Action::ScheduleSlotApply);
        self.mark_changed();
        self.broadcast();
    }

    /// A client picked a slot; the pick is always honored.
    pub fn select_slot(&mut self, slot: SlotSelection) -> (r: Response)
        ensures
            final(self)@ == spec_select_slot(old(self)@, slot),
            r@ == ResponseView::Done,
    {
        let pending = self.slot_apply_pending;
        self.active_slot = slot;
        self.mark_changed();
        if pending {
            self.broadcast();
        } else {
            self.apply_active_slot();
        }
        Response::Done
    }

    /// The Fn+Space transition has settled: apply the slot if one waits.
    pub fn apply_slot_if_pending(&mut self)
        ensures
            old(self)@.slot_apply_pending ==> final(self)@ == spec_apply(old(self)@),
            !old(self)@.slot_apply_pending ==> final(self)@ == old(self)@,
    {
        if self.slot_apply_pending {
            self.apply_active_slot();
        }
    }

    // --- Lighting and profiles ------------------------------------------------

    pub fn set_lighting(&mut self, slot: Option<SlotSelection>, lighting: Lighting) -> (r: Response)
        ensures
            (final(self)@, r@) == spec_set_lighting(old(self)@, slot, lighting),
    {
        let target_slot = match slot {
            Some(slot) => slot,
            None => self.active_slot,
        };
        let slot_index = match target_slot.index() {
            Some(i) => i,
            None => {
                return error_response(
                    ErrorKind::InvalidRequest,
                    owned("the off position holds no lighting; select a slot first"),
                );
            },
        };
        let rejection = validate_lighting(&lighting, self.battery_available);
        if let Some(rejection) = rejection {
            return rejection;
        }
        let ghost c = self@;
        self.current_profile.slots[slot_index] = lighting;
        assert(self@ == (CoreView {
            current_profile: ProfileView { slots: c.current_profile.slots.update(slot_index as int, lighting), ..c.current_profile },
            ..c
        }));
        self.mark_changed();
        if target_slot == self.active_slot {
            self.apply_active_slot();
        } else {
            self.broadcast();
        }
        Response::Done
    }

    pub fn set_profile(&mut self, profile: Profile) -> (r: Response)
        ensures
            (final(self)@, r@) == spec_set_profile(old(self)@, profile@),
    {
        let rejection = validate_profile(&profile, self.battery_available);
        if let Some(rejection) = rejection {
            return rejection;
        }
        self.current_profile = profile;
        self.mark_changed();
        self.apply_active_slot();
        Response::Done
    }

    pub fn play_custom_effect(&mut self, effect: CustomEffect) -> (r: Response)
        ensures
            (final(self)@, r@) == spec_play(old(self)@, effect@),
    {
        let rejection = validate_custom_effect(&effect);
        if let Some(rejection) = rejection {
            return rejection;
        }
        let display_name = match &effect.name {
            Some(name) => name.clone(),
            None => owned("Unnamed"),
        };
        let ghost c = self@;
        let ghost e = effect@;
        if self.engine_running {
            self.push_action(Action::Play(effect));
        }
        self.slot_apply_pending = false;
        self.custom_effect_playing = Some(display_name);
        self.push_action(Action::Broadcast);
        assert(self@.actions =~= spec_play(c, e).0.actions);
        Response::Done
    }

    pub fn play_custom_effect_by_name(&mut self, name: &str) -> (r: Response)
        ensures
            (final(self)@, r@) == spec_play_by_name(old(self)@, name@),
    {
        let target = Some(owned(name));
        match find_effect(&self.settings.effects, &target) {
            Some(i) => {
                let effect = self.settings.effects[i].duplicate();
                self.play_custom_effect(effect)
            },
            None => {
                let mut message = owned("no saved custom effect called '");
                push_str(&mut message, name);
                push_str(&mut message, "'");
                error_response(ErrorKind::NoSuchCustomEffect, message)
            },
        }
    }

    pub fn stop_custom_effect(&mut self) -> (r: Response)
        ensures
            final(self)@ == spec_apply(old(self)@),
            r@ == ResponseView::Done,
    {
        self.apply_active_slot();
        Response::Done
    }

    pub fn add_profile(&mut self, profile: Profile) -> (r: Response)
        ensures
            (final(self)@, r@) == spec_add_profile(old(self)@, profile@),
    {
        let name = match &profile.name {
            Some(name) => name.clone(),
            None => {
                return error_response(ErrorKind::InvalidRequest, owned("profile needs a name to be saved"));
            },
        };
        let name_rejection = validate_name(name.as_str(), "profile");
        if let Some(rejection) = name_rejection {
            return rejection;
        }
        let rejection = validate_profile(&profile, self.battery_available);
        if let Some(rejection) = rejection {
            return rejection;
        }
        let ghost c = self@;
        let ghost p = profile@;
        let target = Some(name);
        match find_profile(&self.settings.profiles, &target) {
            Some(i) => {
                self.settings.profiles[i] = profile;
                assert(self@.settings.profiles =~= c.settings.profiles.update(i as int, p));
            },
            None => {
                if self.settings.profiles.len() >= MAX_SAVED_PROFILES {
                    return error_response(ErrorKind::InvalidRequest, owned("cannot save more than 128 profiles"));
                }
                self.settings.profiles.push(profile);
                assert(self@.settings.profiles =~= c.settings.profiles.push(p));
            },
        }
        self.mark_changed();
        self.broadcast();
        Response::Done
    }

    pub fn delete_profile(&mut self, name: &str) -> (r: Response)
        ensures
            (final(self)@, r@) == spec_delete_profile(old(self)@, name@),
    {
        let target = Some(owned(name));
        match find_profile(&self.settings.profiles, &target) {
            Some(i) => {
                let ghost c = self@;
                let _removed = self.settings.profiles.remove(i);
                assert(self@.settings.profiles =~= c.settings.profiles.remove(i as int));
                self.mark_changed();
                self.broadcast();
                Response::Done
            },
            None => {
                let mut message = owned("no saved profile called '");
                push_str(&mut message, name);
                push_str(&mut message, "'");
                error_response(ErrorKind::NoSuchProfile, message)
            },
        }
    }

    pub fn switch_profile(&mut self, name: &str) -> (r: Response)
        ensures
            (final(self)@, r@) == spec_switch_profile(old(self)@, name@),
    {
        let target = Some(owned(name));
        match find_profile(&self.settings.profiles, &target) {
            Some(i) => {
                let profile = self.settings.profiles[i].duplicate();
                self.set_profile(profile)
            },
            None => {
                let mut message = owned("no saved profile called '");
                push_str(&mut message, name);
                push_str(&mut message, "'");
                error_response(ErrorKind::NoSuchProfile, message)
            },
        }
    }

    pub fn cycle_profile(&mut self) -> (r: Response)
        ensures
            (final(self)@, r@) == spec_cycle_profile(old(self)@),
    {
        let profile_count = self.settings.profiles.len();
        if profile_count == 0 {
            return error_response(ErrorKind::NoSuchProfile, owned("no saved profiles to cycle through"));
        }
        let current_index = find_profile(&self.settings.profiles, &self.current_profile.name);
        let next_index = match current_index {
            Some(index) => (index + 1) % profile_count,
            None => 0,
        };
        let next_profile = self.settings.profiles[next_index].duplicate();
        self.set_profile(next_profile)
    }

    pub fn add_custom_effect(&mut self, effect: CustomEffect) -> (r: Response)
        ensures
            (final(self)@, r@) == spec_add_custom_effect(old(self)@, effect@),
    {
        let name = match &effect.name {
            Some(name) => name.clone(),
            None => {
                return error_response(ErrorKind::InvalidRequest, owned("custom effect needs a name to be saved"));
            },
        };
        let name_rejection = validate_name(name.as_str(), "custom effect");
        if let Some(rejection) = name_rejection {
            return rejection;
        }
        let rejection = validate_custom_effect(&effect);
        if let Some(rejection) = rejection {
            return rejection;
        }
        let ghost c = self@;
        let ghost e = effect@;
        let target = Some(name);
        match find_effect(&self.settings.effects, &target) {
            Some(i) => {
                self.settings.effects[i] = effect;
                assert(self@.settings.effects =~= c.settings.effects.update(i as int, e));
            },
            None => {
                if self.settings.effects.len() >= MAX_SAVED_CUSTOM_EFFECTS {
                    return error_response(
                        ErrorKind::InvalidRequest,
                        owned("cannot save more than 128 custom effects"),
                    );
                }
                self.settings.effects.push(effect);
                assert(self@.settings.effects =~= c.settings.effects.push(e));
            },
        }
        self.mark_changed();
        self.broadcast();
        Response::Done
    }

    pub fn delete_custom_effect(&mut self, name: &str) -> (r: Response)
        ensures
            (final(self)@, r@) == spec_delete_custom_effect(old(self)@, name@),
    {
        let target = Some(owned(name));
        match find_effect(&self.settings.effects, &target) {
            Some(i) => {
                let ghost c = self@;
                let _removed = self.settings.effects.remove(i);
                assert(self@.settings.effects =~= c.settings.effects.remove(i as int));
                self.mark_changed();
                self.broadcast();
                Response::Done
            },
            None => {
                let mut message = owned("no saved custom effect called '");
                push_str(&mut message, name);
                push_str(&mut message, "'");
                error_response(ErrorKind::NoSuchCustomEffect, message)
            },
        }
    }

    pub fn set_battery_alert(&mut self, enabled: bool) -> (r: Response)
        ensures
            (final(self)@, r@) == spec_set_battery_alert(old(self)@, enabled),
    {
        if self.settings.battery_alert == enabled {
            return Response::Done;
        }
        self.settings.battery_alert = enabled;
        self.mark_changed();
        if !enabled && self.battery_alert_active {
            self.battery_alert_active = false;
            self.apply_active_slot();
            return Response::Done;
        }
        let ghost changed = self@;
        self.push_action(Action::ReadBatteryNow);
        self.push_action(Action::Broadcast);
        assert(self@.actions =~= changed.actions + seq![ActionView::ReadBatteryNow, ActionView::Broadcast]);
        Response::Done
    }
}

/// The battery sample taken: the alert follows the rule, and a changed
/// charge is broadcast even when the alert has nothing new to say.
pub open spec fn spec_battery_reading(c: CoreView, reading: Reading) -> CoreView {
    let moved = c.battery_percent != Some(reading.percent);
    let sampled = CoreView { battery_percent: Some(reading.percent), ..c };
    let holds = spec_battery_alert_holds(c.settings.battery_alert, reading);
    if holds == c.battery_alert_active {
        if moved {
            spec_broadcast(sampled)
        } else {
            sampled
        }
    } else {
        spec_apply(CoreView { battery_alert_active: holds, ..sampled })
    }
}

/// The outcome of a settings save. Success clears the dirty flag (and a
/// reported error); failure keeps it, restarts the debounce, and reports a
/// new reason once.
pub open spec fn spec_save_result(c: CoreView, result: Result<(), Seq<char>>) -> CoreView {
    match result {
        Ok(()) => {
            let saved = CoreView { settings_dirty: false, ..c };
            if c.settings_error is Some {
                spec_broadcast(CoreView { settings_error: None, ..saved })
            } else {
                saved
            }
        },
        Err(message) => {
            let retry = CoreView { actions: c.actions.push(ActionView::RestartSaveTimer), ..c };
            if c.settings_error != Some(message) {
                spec_broadcast(CoreView { settings_error: Some(message), ..retry })
            } else {
                retry
            }
        },
    }
}

pub open spec fn spec_save_result_view(r: Result<(), String>) -> Result<(), Seq<char>> {
    match r {
        Ok(()) => Ok(()),
        Err(m) => Err(m@),
    }
}

/// A subsystem reported its state; only a real change is broadcast.
pub open spec fn spec_subsystem(c: CoreView, subsystem: Subsystem, state: SubsystemStateView) -> CoreView {
    let current = match subsystem {
        Subsystem::SlotSync => c.slot_sync,
        Subsystem::Hotkey => c.hotkey,
        Subsystem::ScreenCapture => c.screen_capture,
    };
    if current == state {
        c
    } else {
        spec_broadcast(
            match subsystem {
                Subsystem::SlotSync => CoreView { slot_sync: state, ..c },
                Subsystem::Hotkey => CoreView { hotkey: state, ..c },
                Subsystem::ScreenCapture => CoreView { screen_capture: state, ..c },
            },
        )
    }
}

/// The engine reported a failed device call: back to searching.
pub open spec fn spec_device_lost(c: CoreView) -> CoreView {
    if c.engine_running {
        CoreView {
            engine_running: false,
            slot_apply_pending: false,
            keyboard_status: KeyboardStatusView::Searching,
            acquire_attempt_count: 0,
            actions: c.actions + seq![ActionView::DropEngine, ActionView::Broadcast],
            ..c
        }
    } else {
        c
    }
}

pub open spec fn spec_next_attempt(count: u32) -> u32 {
    if count == u32::MAX {
        count
    } else {
        (count + 1) as u32
    }
}

/// The keyboard was acquired. The counter read taken first anchors the
/// slot; then the slot is applied.
pub open spec fn spec_acquired(c: CoreView, counter: Option<u8>) -> CoreView {
    spec_apply(
        CoreView {
            acquire_attempt_count: spec_next_attempt(c.acquire_attempt_count),
            active_slot: spec_anchor_slot(c.active_slot, counter),
            engine_running: true,
            keyboard_status: KeyboardStatusView::Connected,
            ..c
        },
    )
}

/// An acquisition attempt failed; only a change of status is broadcast.
pub open spec fn spec_acquire_failed(c: CoreView, status: KeyboardStatusView) -> CoreView {
    let counted = CoreView { acquire_attempt_count: spec_next_attempt(c.acquire_attempt_count), ..c };
    if status != c.keyboard_status {
        spec_broadcast(CoreView { keyboard_status: status, ..counted })
    } else {
        counted
    }
}

/// What one request does.
pub open spec fn spec_handle_request(c: CoreView, request: crate::ipc::Request) -> (CoreView, ResponseView) {
    match request {
        crate::ipc::Request::Hello { protocol_version: _ } => (
            c,
            ResponseView::Hello { protocol_version: PROTOCOL_VERSION, daemon_version: c.version },
        ),
        crate::ipc::Request::GetState => (c, ResponseView::State { state: spec_snapshot(c) }),
        crate::ipc::Request::Subscribe => (
            CoreView { actions: c.actions.push(ActionView::Subscribe), ..c },
            ResponseView::Done,
        ),
        crate::ipc::Request::SetProfile { profile } => spec_set_profile(c, profile@),
        crate::ipc::Request::SetLighting { slot, lighting } => spec_set_lighting(c, slot, lighting),
        crate::ipc::Request::SelectSlot { slot } => (spec_select_slot(c, slot), ResponseView::Done),
        crate::ipc::Request::PlayCustomEffect { effect } => spec_play(c, effect@),
        crate::ipc::Request::PlayCustomEffectByName { name } => spec_play_by_name(c, name@),
        crate::ipc::Request::StopCustomEffect => (spec_apply(c), ResponseView::Done),
        crate::ipc::Request::AddProfile { profile } => spec_add_profile(c, profile@),
        crate::ipc::Request::DeleteProfile { name } => spec_delete_profile(c, name@),
        crate::ipc::Request::SwitchProfile { name } => spec_switch_profile(c, name@),
        crate::ipc::Request::CycleProfile => spec_cycle_profile(c),
        crate::ipc::Request::AddCustomEffect { effect } => spec_add_custom_effect(c, effect@),
        crate::ipc::Request::DeleteCustomEffect { name } => spec_delete_custom_effect(c, name@),
        crate::ipc::Request::SetBatteryAlert { enabled } => spec_set_battery_alert(c, enabled),
        crate::ipc::Request::Shutdown => (CoreView { shutdown_requested: true, ..c }, ResponseView::Done),
    }
}

/// What one non-request event does.
pub open spec fn spec_handle_command(c: CoreView, command: Command) -> CoreView {
    match command {
        Command::CycleProfile => spec_cycle_profile(c).0,
        Command::HardwareSlotEvent => spec_advance_slot(c),
        Command::ShutdownSignal => CoreView { shutdown_requested: true, ..c },
        Command::SubsystemStatus { subsystem, state } => spec_subsystem(c, subsystem, state@),
    }
}

impl Core {
    /// The state snapshot clients receive.
    pub fn state_snapshot(&self) -> (s: DaemonState)
        ensures
            s@ == spec_snapshot(self@),
    {
        let mut profiles: Vec<ProfileSummary> = Vec::new();
        let mut i: usize = 0;
        while i < self.settings.profiles.len()
            invariant
                0 <= i <= self.settings.profiles@.len(),
                profiles@.map_values(|p: ProfileSummary| p.name@) == spec_named_profiles(
                    self@.settings.profiles.take(i as int),
                ),
            decreases self.settings.profiles@.len() - i,
        {
            let ghost before = profiles@;
            proof {
                assert(self@.settings.profiles.take(i as int + 1).drop_last() =~= self@.settings.profiles.take(
                    i as int,
                ));
            }
            match &self.settings.profiles[i].name {
                Some(name) => {
                    profiles.push(ProfileSummary { name: name.clone() });
                    assert(profiles@.map_values(|p: ProfileSummary| p.name@) =~= before.map_values(
                        |p: ProfileSummary| p.name@,
                    ).push(name@));
                },
                None => {},
            }
            proof {
                assert(profiles@.map_values(|p: ProfileSummary| p.name@) =~= spec_named_profiles(
                    self@.settings.profiles.take(i as int + 1),
                ));
            }
            i = i + 1;
        }
        assert(self@.settings.profiles.take(self.settings.profiles@.len() as int) =~= self@.settings.profiles);

        let mut custom_effects: Vec<CustomEffectSummary> = Vec::new();
        let mut j: usize = 0;
        while j < self.settings.effects.len()
            invariant
                0 <= j <= self.settings.effects@.len(),
                custom_effects@.map_values(|e: CustomEffectSummary| (e.name@, e.step_count, e.should_loop))
                    == spec_named_effects(self@.settings.effects.take(j as int)),
            decreases self.settings.effects@.len() - j,
        {
            let ghost before = custom_effects@;
            proof {
                assert(self@.settings.effects.take(j as int + 1).drop_last() =~= self@.settings.effects.take(
                    j as int,
                ));
            }
            let saved = &self.settings.effects[j];
            match &saved.name {
                Some(name) => {
                    let summary = CustomEffectSummary {
                        name: name.clone(),
                        step_count: saved.effect_steps.len(),
                        should_loop: saved.should_loop,
                    };
                    custom_effects.push(summary);
                    assert(custom_effects@.map_values(
                        |e: CustomEffectSummary| (e.name@, e.step_count, e.should_loop),
                    ) =~= before.map_values(|e: CustomEffectSummary| (e.name@, e.step_count, e.should_loop)).push(
                        (name@, saved.effect_steps@.len() as usize, saved.should_loop),
                    ));
                },
                None => {},
            }
            proof {
                assert(custom_effects@.map_values(|e: CustomEffectSummary| (e.name@, e.step_count, e.should_loop))
                    =~= spec_named_effects(self@.settings.effects.take(j as int + 1)));
            }
            j = j + 1;
        }
        assert(self@.settings.effects.take(self.settings.effects@.len() as int) =~= self@.settings.effects);

        DaemonState {
            keyboard: self.keyboard_status.duplicate(),
            current: self.current_profile.duplicate(),
            active_slot: self.active_slot,
            custom_effect_playing: crate::profile::clone_name(&self.custom_effect_playing),
            profiles,
            custom_effects,
            version: self.version.clone(),
            settings_error: crate::profile::clone_name(&self.settings_error),
            slot_sync: self.slot_sync.duplicate(),
            hotkey: self.hotkey.duplicate(),
            screen_capture: self.screen_capture.duplicate(),
            battery_available: self.battery_available,
            battery_alert: self.settings.battery_alert,
            battery_alert_active: self.battery_alert_is_showing(),
            battery_percent: self.battery_percent,
        }
    }

    /// Answer one client request.
    pub fn handle_request(&mut self, request: crate::ipc::Request) -> (r: Response)
        ensures
            (final(self)@, r@) == spec_handle_request(old(self)@, request),
    {
        match request {
            crate::ipc::Request::Hello { protocol_version: _ } => Response::Hello {
                protocol_version: PROTOCOL_VERSION,
                daemon_version: self.version.clone(),
            },
            crate::ipc::Request::GetState => Response::State { state: self.state_snapshot() },
            crate::ipc::Request::Subscribe => {
                self.push_action(Action::Subscribe);
                Response::Done
            },
            crate::ipc::Request::SetProfile { profile } => self.set_profile(profile),
            crate::ipc::Request::SetLighting { slot, lighting } => self.set_lighting(slot, lighting),
            crate::ipc::Request::SelectSlot { slot } => self.select_slot(slot),
            crate::ipc::Request::PlayCustomEffect { effect } => self.play_custom_effect(effect),
            crate::ipc::Request::PlayCustomEffectByName { name } => self.play_custom_effect_by_name(name.as_str()),
            crate::ipc::Request::StopCustomEffect => self.stop_custom_effect(),
            crate::ipc::Request::AddProfile { profile } => self.add_profile(profile),
            crate::ipc::Request::DeleteProfile { name } => self.delete_profile(name.as_str()),
            crate::ipc::Request::SwitchProfile { name } => self.switch_profile(name.as_str()),
            crate::ipc::Request::CycleProfile => self.cycle_profile(),
            crate::ipc::Request::AddCustomEffect { effect } => self.add_custom_effect(effect),
            crate::ipc::Request::DeleteCustomEffect { name } => self.delete_custom_effect(name.as_str()),
            crate::ipc::Request::SetBatteryAlert { enabled } => self.set_battery_alert(enabled),
            crate::ipc::Request::Shutdown => {
                self.shutdown_requested = true;
                Response::Done
            },
        }
    }

    /// Handle one event that is not a client request. A failed hotkey
    /// profile cycle is answered to nobody; its refusal is returned so the
    /// caller can log it.
    pub fn handle_command(&mut self, command: Command) -> (r: Option<Response>)
        ensures
            final(self)@ == spec_handle_command(old(self)@, command),
            command is CycleProfile ==> (r matches Some(resp) && resp@ == spec_cycle_profile(old(self)@).1),
            !(command is CycleProfile) ==> r.is_none(),
    {
        match command {
            Command::CycleProfile => Some(self.cycle_profile()),
            Command::HardwareSlotEvent => {
                self.advance_slot();
                None
            },
            Command::ShutdownSignal => {
                self.shutdown_requested = true;
                None
            },
            Command::SubsystemStatus { subsystem, state } => {
                self.set_subsystem_state(subsystem, state);
                None
            },
        }
    }

    /// Store a subsystem's state, broadcasting only on a real change.
    pub fn set_subsystem_state(&mut self, subsystem: Subsystem, state: SubsystemState)
        ensures
            final(self)@ == spec_subsystem(old(self)@, subsystem, state@),
    {
        let same = match subsystem {
            Subsystem::SlotSync => self.slot_sync.same_as(&state),
            Subsystem::Hotkey => self.hotkey.same_as(&state),
            Subsystem::ScreenCapture => self.screen_capture.same_as(&state),
        };
        if same {
            return;
        }
        match subsystem {
            Subsystem::SlotSync => self.slot_sync = state,
            Subsystem::Hotkey => self.hotkey = state,
            Subsystem::ScreenCapture => self.screen_capture = state,
        }
        self.broadcast();
    }

    // --- Keyboard lifecycle ---------------------------------------------------

    /// The engine reported a failed device call.
    pub fn device_lost(&mut self)
        ensures
            final(self)@ == spec_device_lost(old(self)@),
    {
        if !self.engine_running {
            return;
        }
        let ghost c = self@;
        self.engine_running = false;
        self.slot_apply_pending = false;
        self.keyboard_status = KeyboardStatus::Searching;
        self.acquire_attempt_count = 0;
        self.push_action(Action::DropEngine);
        self.push_action(Action::Broadcast);
        assert(self@.actions =~= c.actions + seq![ActionView::DropEngine, ActionView::Broadcast]);
    }

    /// The keyboard was acquired; `counter` is the controller's slot
    /// counter, read before anything was written to it.
    pub fn keyboard_acquired(&mut self, counter: Result<u8, DriverError>)
        ensures
            final(self)@ == spec_acquired(old(self)@, spec_counter_value(counter)),
    {
        self.acquire_attempt_count = if self.acquire_attempt_count == u32::MAX {
            self.acquire_attempt_count
        } else {
            self.acquire_attempt_count + 1
        };
        self.active_slot = anchor_slot(self.active_slot, counter);
        self.engine_running = true;
        self.keyboard_status = KeyboardStatus::Connected;
        self.apply_active_slot();
    }

    /// An acquisition attempt failed with `status`. Returns the seconds to
    /// wait before the next attempt: the backoff schedule's entry for the
    /// attempts made before this one, so the first retry after a fresh
    /// start or a lost keyboard comes after the schedule's first gap.
    pub fn keyboard_not_acquired(&mut self, status: KeyboardStatus) -> (retry_secs: u64)
        ensures
            final(self)@ == spec_acquire_failed(old(self)@, status@),
            retry_secs == crate::keyboard::spec_backoff_delay(old(self)@.acquire_attempt_count),
    {
        let retry_secs = crate::keyboard::backoff_delay(self.acquire_attempt_count);
        self.acquire_attempt_count = if self.acquire_attempt_count == u32::MAX {
            self.acquire_attempt_count
        } else {
            self.acquire_attempt_count + 1
        };
        if !status.same_as(&self.keyboard_status) {
            self.keyboard_status = status;
            self.broadcast();
        }
        retry_secs
    }

    // --- Battery and persistence ------------------------------------------------

    /// A battery sample was taken.
    pub fn battery_read(&mut self, reading: Reading)
        ensures
            final(self)@ == spec_battery_reading(old(self)@, reading),
    {
        let charge_moved = match self.battery_percent {
            Some(p) => p != reading.percent,
            None => true,
        };
        self.battery_percent = Some(reading.percent);
        let alert_holds = battery_alert_holds(self.settings.battery_alert, reading);
        if alert_holds == self.battery_alert_active {
            if charge_moved {
                self.broadcast();
            }
            return;
        }
        self.battery_alert_active = alert_holds;
        self.apply_active_slot();
    }

    /// A settings save finished with `result`.
    pub fn save_finished(&mut self, result: Result<(), String>)
        ensures
            final(self)@ == spec_save_result(old(self)@, spec_save_result_view(result)),
    {
        match result {
            Ok(()) => {
                self.settings_dirty = false;
                if self.settings_error.is_some() {
                    self.settings_error = None;
                    self.broadcast();
                }
            },
            Err(message) => {
                self.push_action(Action::RestartSaveTimer);
                let is_new_failure = match &self.settings_error {
                    Some(existing) => !same_text(existing.as_str(), message.as_str()),
                    None => true,
                };
                if is_new_failure {
                    self.settings_error = Some(message);
                    self.broadcast();
                }
            },
        }
    }

    /// Copy the live profile and slot into the settings, as the final save
    /// on shutdown writes them.
    pub fn prepare_shutdown(&mut self)
        ensures
            final(self)@ == (CoreView {
                settings: SettingsView {
                    current_profile: old(self)@.current_profile,
                    active_slot: old(self)@.active_slot,
                    ..old(self)@.settings
                },
                ..old(self)@
            }),
    {
        self.settings.current_profile = self.current_profile.duplicate();
        self.settings.active_slot = self.active_slot;
    }
}

} // verus!
