//! The vocabulary spoken between the daemon and its clients.
//!
//! Transport is JSON lines over a unix socket: clients send request
//! envelopes; the daemon answers with response envelopes and, after a
//! subscription, pushes event envelopes on the same connection. The wire
//! encoding lives with the socket code; this module holds the values.
use vstd::prelude::*;

use crate::custom_effect::CustomEffect;
use crate::profile::{spec_name_view, Lighting, Profile, ProfileView};

verus! {

/// Upper bound for a single JSON line.
pub const MAX_LINE_BYTES: usize = 1048576;

/// Version of the IPC schema. Version 2 moved the lighting configuration
/// from the profile into its per-slot lightings.
pub const PROTOCOL_VERSION: u32 = 2;

/// Upper bounds on saved profiles and custom effects, so the state
/// broadcast stays below [`MAX_LINE_BYTES`].
pub const MAX_SAVED_PROFILES: usize = 128;

pub const MAX_SAVED_CUSTOM_EFFECTS: usize = 128;

/// Upper bound on custom effect length.
pub const MAX_CUSTOM_EFFECT_STEPS: usize = 4096;

/// Counter value the controller reports while the backlight is off.
pub const SLOT_COUNTER_OFF: u8 = 4;

/// Which Fn+Space position is live: three lit slots and an off position.
#[derive(Clone, Copy, Debug, PartialEq, Eq, Structural)]
pub enum SlotSelection {
    First,
    Second,
    Third,
    /// Backlight off. Holds no lighting, and rejects edits.
    Off,
}

/// The lit slots, in the order Fn+Space walks them.
pub const LIT_SLOTS: [SlotSelection; 3] = [SlotSelection::First, SlotSelection::Second, SlotSelection::Third];

impl SlotSelection {
    pub open spec fn spec_index(self) -> Option<usize> {
        match self {
            SlotSelection::First => Some(0usize),
            SlotSelection::Second => Some(1usize),
            SlotSelection::Third => Some(2usize),
            SlotSelection::Off => None,
        }
    }

    /// Index into a profile's slots, or `None` for off.
    pub fn index(self) -> (r: Option<usize>)
        ensures
            r == self.spec_index(),
    {
        match self {
            SlotSelection::First => Some(0),
            SlotSelection::Second => Some(1),
            SlotSelection::Third => Some(2),
            SlotSelection::Off => None,
        }
    }

    pub open spec fn spec_number(self) -> Option<u8> {
        match self.spec_index() {
            Some(i) => Some((i + 1) as u8),
            None => None,
        }
    }

    /// The number a user sees (1 to 3), or `None` for off.
    pub fn number(self) -> (r: Option<u8>)
        ensures
            r == self.spec_number(),
    {
        match self.index() {
            Some(index) => Some(index as u8 + 1),
            None => None,
        }
    }

    pub open spec fn spec_next(self) -> SlotSelection {
        match self {
            SlotSelection::First => SlotSelection::Second,
            SlotSelection::Second => SlotSelection::Third,
            SlotSelection::Third => SlotSelection::Off,
            SlotSelection::Off => SlotSelection::First,
        }
    }

    /// The next position Fn+Space moves to.
    pub fn next(self) -> (r: SlotSelection)
        ensures
            r == self.spec_next(),
    {
        match self {
            SlotSelection::First => SlotSelection::Second,
            SlotSelection::Second => SlotSelection::Third,
            SlotSelection::Third => SlotSelection::Off,
            SlotSelection::Off => SlotSelection::First,
        }
    }

    pub open spec fn spec_from_counter(value: u8) -> Option<SlotSelection> {
        if value == 1 {
            Some(SlotSelection::First)
        } else if value == 2 {
            Some(SlotSelection::Second)
        } else if value == 3 {
            Some(SlotSelection::Third)
        } else if value == SLOT_COUNTER_OFF {
            Some(SlotSelection::Off)
        } else {
            None
        }
    }

    /// Read a controller counter byte. `None` for any value the controller
    /// reports mid-transition.
    pub fn from_counter(value: u8) -> (r: Option<SlotSelection>)
        ensures
            r == Self::spec_from_counter(value),
    {
        if value == 1 {
            Some(SlotSelection::First)
        } else if value == 2 {
            Some(SlotSelection::Second)
        } else if value == 3 {
            Some(SlotSelection::Third)
        } else if value == SLOT_COUNTER_OFF {
            Some(SlotSelection::Off)
        } else {
            None
        }
    }

    /// How the position reads to a user: its number, or "off".
    pub open spec fn spec_label(self) -> Seq<char> {
        match self {
            SlotSelection::First => seq!['1'],
            SlotSelection::Second => seq!['2'],
            SlotSelection::Third => seq!['3'],
            SlotSelection::Off => seq!['o', 'f', 'f'],
        }
    }

    pub fn label(self) -> (r: String)
        ensures
            r@ == self.spec_label(),
    {
        let mut s = String::new();
        match self {
            SlotSelection::First => crate::text::push_char(&mut s, '1'),
            SlotSelection::Second => crate::text::push_char(&mut s, '2'),
            SlotSelection::Third => crate::text::push_char(&mut s, '3'),
            SlotSelection::Off => {
                crate::text::push_char(&mut s, 'o');
                crate::text::push_char(&mut s, 'f');
                crate::text::push_char(&mut s, 'f');
            },
        }
        assert(s@ =~= self.spec_label());
        s
    }
}

/// Four presses of Fn+Space bring the keyboard back where it started.
pub proof fn law_slot_cycle_returns(slot: SlotSelection)
    ensures
        slot.spec_next().spec_next().spec_next().spec_next() == slot,
{
}

/// Every settled counter value names a position, and the positions the
/// counter names read back from their own numbers: slot `n` is counter `n`.
pub proof fn law_counter_matches_number(slot: SlotSelection)
    ensures
        slot.spec_number() matches Some(n) ==> SlotSelection::spec_from_counter(n) == Some(slot),
        slot == SlotSelection::Off ==> SlotSelection::spec_from_counter(SLOT_COUNTER_OFF) == Some(slot),
{
}

/// An optional subsystem whose state clients are shown.
#[derive(Clone, Copy, Debug, PartialEq, Eq, Structural)]
pub enum Subsystem {
    SlotSync,
    Hotkey,
    ScreenCapture,
}

/// How an optional subsystem is doing.
#[derive(Clone, Debug)]
pub enum SubsystemState {
    Unknown,
    Active,
    Inactive,
    Degraded { reason: String },
    Unavailable { reason: String },
}

/// [`SubsystemState`] with its reason as characters.
pub enum SubsystemStateView {
    Unknown,
    Active,
    Inactive,
    Degraded { reason: Seq<char> },
    Unavailable { reason: Seq<char> },
}

impl View for SubsystemState {
    type V = SubsystemStateView;

    open spec fn view(&self) -> SubsystemStateView {
        match self {
            SubsystemState::Unknown => SubsystemStateView::Unknown,
            SubsystemState::Active => SubsystemStateView::Active,
            SubsystemState::Inactive => SubsystemStateView::Inactive,
            SubsystemState::Degraded { reason } => SubsystemStateView::Degraded { reason: reason@ },
            SubsystemState::Unavailable { reason } => SubsystemStateView::Unavailable { reason: reason@ },
        }
    }
}

impl SubsystemState {
    pub fn duplicate(&self) -> (r: SubsystemState)
        ensures
            r@ == self@,
    {
        match self {
            SubsystemState::Unknown => SubsystemState::Unknown,
            SubsystemState::Active => SubsystemState::Active,
            SubsystemState::Inactive => SubsystemState::Inactive,
            SubsystemState::Degraded { reason } => SubsystemState::Degraded { reason: reason.clone() },
            SubsystemState::Unavailable { reason } => SubsystemState::Unavailable { reason: reason.clone() },
        }
    }

    /// Whether two states say the same thing.
    pub fn same_as(&self, other: &SubsystemState) -> (r: bool)
        ensures
            r == (self@ == other@),
    {
        match (self, other) {
            (SubsystemState::Unknown, SubsystemState::Unknown) => true,
            (SubsystemState::Active, SubsystemState::Active) => true,
            (SubsystemState::Inactive, SubsystemState::Inactive) => true,
            (SubsystemState::Degraded { reason: a }, SubsystemState::Degraded { reason: b }) => crate::text::same_text(a.as_str(), b.as_str()),
            (SubsystemState::Unavailable { reason: a }, SubsystemState::Unavailable { reason: b }) => crate::text::same_text(a.as_str(), b.as_str()),
            _ => false,
        }
    }
}

/// Whether the daemon holds the keyboard.
#[derive(Clone, Debug)]
pub enum KeyboardStatus {
    /// Keyboard acquired; effects are being applied.
    Connected,
    /// No keyboard found yet; the daemon retries with backoff.
    Searching,
    /// A keyboard that was working stopped answering long ago.
    Lost,
    /// A keyboard exists but the daemon may not open it.
    PermissionDenied { message: String },
    /// Any other acquisition or runtime device failure.
    Error { message: String },
}

/// [`KeyboardStatus`] with its message as characters.
pub enum KeyboardStatusView {
    Connected,
    Searching,
    Lost,
    PermissionDenied { message: Seq<char> },
    Error { message: Seq<char> },
}

impl View for KeyboardStatus {
    type V = KeyboardStatusView;

    open spec fn view(&self) -> KeyboardStatusView {
        match self {
            KeyboardStatus::Connected => KeyboardStatusView::Connected,
            KeyboardStatus::Searching => KeyboardStatusView::Searching,
            KeyboardStatus::Lost => KeyboardStatusView::Lost,
            KeyboardStatus::PermissionDenied { message } => KeyboardStatusView::PermissionDenied { message: message@ },
            KeyboardStatus::Error { message } => KeyboardStatusView::Error { message: message@ },
        }
    }
}

impl KeyboardStatus {
    pub fn duplicate(&self) -> (r: KeyboardStatus)
        ensures
            r@ == self@,
    {
        match self {
            KeyboardStatus::Connected => KeyboardStatus::Connected,
            KeyboardStatus::Searching => KeyboardStatus::Searching,
            KeyboardStatus::Lost => KeyboardStatus::Lost,
            KeyboardStatus::PermissionDenied { message } => KeyboardStatus::PermissionDenied { message: message.clone() },
            KeyboardStatus::Error { message } => KeyboardStatus::Error { message: message.clone() },
        }
    }

    /// Whether two statuses say the same thing.
    pub fn same_as(&self, other: &KeyboardStatus) -> (r: bool)
        ensures
            r == (self@ == other@),
    {
        match (self, other) {
            (KeyboardStatus::Connected, KeyboardStatus::Connected) => true,
            (KeyboardStatus::Searching, KeyboardStatus::Searching) => true,
            (KeyboardStatus::Lost, KeyboardStatus::Lost) => true,
            (KeyboardStatus::PermissionDenied { message: a }, KeyboardStatus::PermissionDenied { message: b }) => crate::text::same_text(a.as_str(), b.as_str()),
            (KeyboardStatus::Error { message: a }, KeyboardStatus::Error { message: b }) => crate::text::same_text(a.as_str(), b.as_str()),
            _ => false,
        }
    }
}

/// What a client asks the daemon to do.
#[derive(Debug)]
pub enum Request {
    /// Version handshake.
    Hello { protocol_version: u32 },
    /// Return the full daemon state.
    GetState,
    /// Make `profile` the live profile, all slots at once.
    SetProfile { profile: Profile },
    /// Replace one slot's lighting in the live profile; `None` targets the
    /// active slot.
    SetLighting { slot: Option<SlotSelection>, lighting: Lighting },
    /// Make `slot` the live position and apply it.
    SelectSlot { slot: SlotSelection },
    /// Start playing a custom effect.
    PlayCustomEffect { effect: CustomEffect },
    /// Play a saved custom effect by name.
    PlayCustomEffectByName { name: String },
    /// Stop the playing custom effect and re-apply the active slot.
    StopCustomEffect,
    /// Save a named profile, replacing one with the same name.
    AddProfile { profile: Profile },
    DeleteProfile { name: String },
    /// Make the saved profile called `name` the live profile.
    SwitchProfile { name: String },
    /// Advance to the next saved profile (wraps around).
    CycleProfile,
    /// Save a named custom effect, replacing one with the same name.
    AddCustomEffect { effect: CustomEffect },
    DeleteCustomEffect { name: String },
    /// Turn the low-battery alert on or off.
    SetBatteryAlert { enabled: bool },
    /// Receive state changes on this connection.
    Subscribe,
    /// Ask the daemon to exit cleanly.
    Shutdown,
}

/// A request as contracts see it: names as characters.
pub enum RequestView {
    Hello { protocol_version: u32 },
    GetState,
    SetProfile { profile: ProfileView },
    SetLighting { slot: Option<SlotSelection>, lighting: Lighting },
    SelectSlot { slot: SlotSelection },
    PlayCustomEffect { effect: crate::custom_effect::CustomEffectView },
    PlayCustomEffectByName { name: Seq<char> },
    StopCustomEffect,
    AddProfile { profile: ProfileView },
    DeleteProfile { name: Seq<char> },
    SwitchProfile { name: Seq<char> },
    CycleProfile,
    AddCustomEffect { effect: crate::custom_effect::CustomEffectView },
    DeleteCustomEffect { name: Seq<char> },
    SetBatteryAlert { enabled: bool },
    Subscribe,
    Shutdown,
}

impl View for Request {
    type V = RequestView;

    open spec fn view(&self) -> RequestView {
        match self {
            Request::Hello { protocol_version } => RequestView::Hello { protocol_version: *protocol_version },
            Request::GetState => RequestView::GetState,
            Request::SetProfile { profile } => RequestView::SetProfile { profile: profile@ },
            Request::SetLighting { slot, lighting } => RequestView::SetLighting { slot: *slot, lighting: *lighting },
            Request::SelectSlot { slot } => RequestView::SelectSlot { slot: *slot },
            Request::PlayCustomEffect { effect } => RequestView::PlayCustomEffect { effect: effect@ },
            Request::PlayCustomEffectByName { name } => RequestView::PlayCustomEffectByName { name: name@ },
            Request::StopCustomEffect => RequestView::StopCustomEffect,
            Request::AddProfile { profile } => RequestView::AddProfile { profile: profile@ },
            Request::DeleteProfile { name } => RequestView::DeleteProfile { name: name@ },
            Request::SwitchProfile { name } => RequestView::SwitchProfile { name: name@ },
            Request::CycleProfile => RequestView::CycleProfile,
            Request::AddCustomEffect { effect } => RequestView::AddCustomEffect { effect: effect@ },
            Request::DeleteCustomEffect { name } => RequestView::DeleteCustomEffect { name: name@ },
            Request::SetBatteryAlert { enabled } => RequestView::SetBatteryAlert { enabled: *enabled },
            Request::Subscribe => RequestView::Subscribe,
            Request::Shutdown => RequestView::Shutdown,
        }
    }
}

/// Why a request was refused.
#[derive(Clone, Copy, Debug, PartialEq, Eq, Structural)]
pub enum ErrorKind {
    KeyboardNotFound,
    PermissionDenied,
    NoSuchProfile,
    NoSuchCustomEffect,
    InvalidRequest,
    Internal,
}

/// A saved profile as clients see it: its name.
#[derive(Clone, Debug)]
pub struct ProfileSummary {
    pub name: String,
}

/// A saved custom effect as clients see it.
#[derive(Clone, Debug)]
pub struct CustomEffectSummary {
    pub name: String,
    pub step_count: usize,
    pub should_loop: bool,
}

/// A full snapshot of the daemon, as broadcast to clients.
#[derive(Debug)]
pub struct DaemonState {
    pub keyboard: KeyboardStatus,
    /// The live profile, all slots.
    pub current: Profile,
    /// Which Fn+Space position is live.
    pub active_slot: SlotSelection,
    /// Name of the playing custom effect, if any.
    pub custom_effect_playing: Option<String>,
    pub profiles: Vec<ProfileSummary>,
    pub custom_effects: Vec<CustomEffectSummary>,
    /// Daemon package version.
    pub version: String,
    /// Why the last settings write failed, if it did.
    pub settings_error: Option<String>,
    pub slot_sync: SubsystemState,
    pub hotkey: SubsystemState,
    pub screen_capture: SubsystemState,
    pub battery_available: bool,
    pub battery_alert: bool,
    pub battery_alert_active: bool,
    pub battery_percent: Option<u8>,
}

/// A state snapshot as contracts see it.
pub struct DaemonStateView {
    pub keyboard: KeyboardStatusView,
    pub current: ProfileView,
    pub active_slot: SlotSelection,
    pub custom_effect_playing: Option<Seq<char>>,
    /// The saved profile names.
    pub profiles: Seq<Seq<char>>,
    /// Name, step count and looping of each saved custom effect.
    pub custom_effects: Seq<(Seq<char>, usize, bool)>,
    pub version: Seq<char>,
    pub settings_error: Option<Seq<char>>,
    pub slot_sync: SubsystemStateView,
    pub hotkey: SubsystemStateView,
    pub screen_capture: SubsystemStateView,
    pub battery_available: bool,
    pub battery_alert: bool,
    pub battery_alert_active: bool,
    pub battery_percent: Option<u8>,
}

impl View for DaemonState {
    type V = DaemonStateView;

    open spec fn view(&self) -> DaemonStateView {
        DaemonStateView {
            keyboard: self.keyboard@,
            current: self.current@,
            active_slot: self.active_slot,
            custom_effect_playing: spec_name_view(self.custom_effect_playing),
            profiles: self.profiles@.map_values(|p: ProfileSummary| p.name@),
            custom_effects: self.custom_effects@.map_values(
                |e: CustomEffectSummary| (e.name@, e.step_count, e.should_loop),
            ),
            version: self.version@,
            settings_error: spec_name_view(self.settings_error),
            slot_sync: self.slot_sync@,
            hotkey: self.hotkey@,
            screen_capture: self.screen_capture@,
            battery_available: self.battery_available,
            battery_alert: self.battery_alert,
            battery_alert_active: self.battery_alert_active,
            battery_percent: self.battery_percent,
        }
    }
}

/// A response as contracts see it.
pub enum ResponseView {
    Hello { protocol_version: u32, daemon_version: Seq<char> },
    Done,
    State { state: DaemonStateView },
    Error { kind: ErrorKind, message: Seq<char> },
}

impl View for Response {
    type V = ResponseView;

    open spec fn view(&self) -> ResponseView {
        match self {
            Response::Hello { protocol_version, daemon_version } => ResponseView::Hello {
                protocol_version: *protocol_version,
                daemon_version: daemon_version@,
            },
            Response::Done => ResponseView::Done,
            Response::State { state } => ResponseView::State { state: state@ },
            Response::Error { kind, message } => ResponseView::Error { kind: *kind, message: message@ },
        }
    }
}

/// The daemon's answer to one request.
#[derive(Debug)]
pub enum Response {
    Hello { protocol_version: u32, daemon_version: String },
    /// The request was carried out (`Ok` on the wire).
    Done,
    State { state: DaemonState },
    Error { kind: ErrorKind, message: String },
}

pub struct RequestEnvelope {
    /// Client-chosen id echoed back in the matching response.
    pub id: u64,
    pub req: Request,
}

pub struct ResponseEnvelope {
    /// Mirrors the id of the request this response answers.
    pub id: u64,
    pub resp: Response,
}

pub enum Event {
    /// Full state snapshot.
    StateChanged { state: DaemonState },
}

pub struct EventEnvelope {
    pub event: Event,
}

/// One of the two line shapes the daemon writes.
pub enum ServerMessage {
    Response(ResponseEnvelope),
    Event(EventEnvelope),
}

/// The daemon socket's file name.
pub const SOCKET_FILE_NAME: &'static str = "aurora.sock";

/// Where the daemon socket lives, given `$XDG_RUNTIME_DIR` (`None` where it
/// is unset or not Unicode): in that directory when it is set and not
/// empty, in `/tmp` otherwise.
pub open spec fn spec_socket_path(runtime_dir: Option<Seq<char>>) -> Seq<char> {
    match runtime_dir {
        Some(dir) => if dir.len() == 0 {
            "/tmp/aurora.sock"@
        } else if dir.last() == '/' {
            dir + "aurora.sock"@
        } else {
            dir + "/aurora.sock"@
        },
        None => "/tmp/aurora.sock"@,
    }
}

pub fn socket_path_for(runtime_dir: Option<String>) -> (path: String)
    ensures
        path@ == spec_socket_path(match runtime_dir {
            Some(d) => Some(d@),
            None => None,
        }),
{
    match runtime_dir {
        Some(dir) => {
            let chars = crate::text::chars_of(dir.as_str());
            if chars.len() == 0 {
                return crate::text::owned("/tmp/aurora.sock");
            }
            let mut path = dir;
            if chars[chars.len() - 1] == '/' {
                crate::text::push_str(&mut path, "aurora.sock");
            } else {
                crate::text::push_str(&mut path, "/aurora.sock");
            }
            path
        },
        None => crate::text::owned("/tmp/aurora.sock"),
    }
}

} // verus!
