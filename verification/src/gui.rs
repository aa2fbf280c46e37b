//! The desktop window's decisions.
//!
//! The window keeps an optimistic copy of the live profile: a widget edit
//! lands there first and the whole profile is then sent to the daemon,
//! whose state broadcast confirms it. Every edit compares before it
//! writes, so a widget echoing back the value it was just given changes
//! nothing and sends nothing. Widgets, dialogs and the socket are the
//! program's; this module decides what they show and what is sent.
use vstd::prelude::*;

use crate::effects::{
    effect_by_index, effect_index, spec_effect_position, spec_effect_with_defaults, Brightness, Direction,
    Effects, SwipeMode, EFFECT_COUNT,
};
use crate::custom_effect::{CustomEffect, CustomEffectView};
use crate::cli::{kind_name, spec_kind_name};
use crate::ipc::{
    DaemonState, DaemonStateView, Event, Request, RequestEnvelope, RequestView, Response, ServerMessage,
    MAX_LINE_BYTES,
};
use crate::profile::{spec_default_profile, spec_name_view, KeyboardZone, Lighting, Profile, ProfileView};
use crate::text::{owned, push_str, same_text, spec_starts_with, spec_trim, starts_with, trim_str};

verus! {

/// One change the lighting controls can ask for.
#[derive(Clone, Copy, Debug)]
pub enum LightingEdit {
    /// A row of the effect list, by position.
    EffectSelected { index: usize },
    ZoneColorPicked { zone_index: usize, color: [u8; 3] },
    /// One color for all four zones.
    GlobalColorPicked { color: [u8; 3] },
    SpeedPicked { speed: u8 },
    BrightnessPicked { high: bool },
    /// 0 for left, anything else for right.
    DirectionPicked { index: usize },
    /// 0 for changing colors, anything else for filling.
    SwipeModePicked { index: usize },
    CleanWithBlackPicked { clean: bool },
    AmbientFpsPicked { fps: u8 },
    /// A saturation boost as the bit pattern of an `f32`. `differs` says
    /// whether it lies at least a thousandth away from the one shown; that
    /// comparison is made in floating point where the value was read.
    AmbientSaturationPicked { saturation_bits: u32, differs: bool },
}

pub open spec fn spec_brightness_of(high: bool) -> Brightness {
    if high {
        Brightness::High
    } else {
        Brightness::Low
    }
}

pub open spec fn spec_direction_of(index: usize) -> Direction {
    if index == 0 {
        Direction::Left
    } else {
        Direction::Right
    }
}

pub open spec fn spec_swipe_mode_of(index: usize) -> SwipeMode {
    if index == 0 {
        SwipeMode::Change
    } else {
        SwipeMode::Fill
    }
}

/// Whether `edit` changes `l`. Reselecting the effect that is already
/// chosen changes nothing, whatever its settings; the swipe and ambient
/// settings apply only while such an effect is chosen.
pub open spec fn spec_edit_changes(l: Lighting, edit: LightingEdit) -> bool {
    match edit {
        LightingEdit::EffectSelected { index } => index < EFFECT_COUNT && spec_effect_position(
            spec_effect_with_defaults(index as int),
        ) != spec_effect_position(l.effect),
        LightingEdit::ZoneColorPicked { zone_index, color } => zone_index < 4 && l.rgb_zones@[zone_index as int].rgb
            != color,
        LightingEdit::GlobalColorPicked { color } => exists|i: int| 0 <= i < 4 && #[trigger] l.rgb_zones@[i].rgb != color,
        LightingEdit::SpeedPicked { speed } => l.speed != speed,
        LightingEdit::BrightnessPicked { high } => l.brightness != spec_brightness_of(high),
        LightingEdit::DirectionPicked { index } => l.direction != spec_direction_of(index),
        LightingEdit::SwipeModePicked { index } => match l.effect {
            Effects::Swipe { mode, .. } | Effects::SmoothWave { mode, .. } => mode != spec_swipe_mode_of(index),
            _ => false,
        },
        LightingEdit::CleanWithBlackPicked { clean } => match l.effect {
            Effects::Swipe { clean_with_black, .. } | Effects::SmoothWave { clean_with_black, .. } => clean_with_black
                != clean,
            _ => false,
        },
        LightingEdit::AmbientFpsPicked { fps } => match l.effect {
            Effects::AmbientLight { fps: shown, .. } => shown != fps,
            _ => false,
        },
        LightingEdit::AmbientSaturationPicked { differs, .. } => l.effect is AmbientLight && differs,
    }
}

/// Zone `i` after `edit`: a picked color replaces the zone's color and
/// keeps whether the zone is enabled.
pub open spec fn spec_zone_after(l: Lighting, edit: LightingEdit, i: int) -> KeyboardZone {
    let zone = l.rgb_zones@[i];
    match edit {
        LightingEdit::ZoneColorPicked { zone_index, color } => if i == zone_index {
            KeyboardZone { rgb: color, enabled: zone.enabled }
        } else {
            zone
        },
        LightingEdit::GlobalColorPicked { color } => KeyboardZone { rgb: color, enabled: zone.enabled },
        _ => zone,
    }
}

/// The effect after `edit`; a newly chosen effect comes with the settings
/// a first pick offers.
pub open spec fn spec_effect_after(l: Lighting, edit: LightingEdit) -> Effects {
    match edit {
        LightingEdit::EffectSelected { index } => if spec_edit_changes(l, edit) {
            spec_effect_with_defaults(index as int)
        } else {
            l.effect
        },
        LightingEdit::SwipeModePicked { index } => match l.effect {
            Effects::Swipe { clean_with_black, .. } => Effects::Swipe { mode: spec_swipe_mode_of(index), clean_with_black },
            Effects::SmoothWave { clean_with_black, .. } => Effects::SmoothWave {
                mode: spec_swipe_mode_of(index),
                clean_with_black,
            },
            other => other,
        },
        LightingEdit::CleanWithBlackPicked { clean } => match l.effect {
            Effects::Swipe { mode, .. } => Effects::Swipe { mode, clean_with_black: clean },
            Effects::SmoothWave { mode, .. } => Effects::SmoothWave { mode, clean_with_black: clean },
            other => other,
        },
        LightingEdit::AmbientFpsPicked { fps } => match l.effect {
            Effects::AmbientLight { saturation_boost_bits, .. } => Effects::AmbientLight { fps, saturation_boost_bits },
            other => other,
        },
        LightingEdit::AmbientSaturationPicked { saturation_bits, differs } => match l.effect {
            Effects::AmbientLight { fps, .. } => if differs {
                Effects::AmbientLight { fps, saturation_boost_bits: saturation_bits }
            } else {
                l.effect
            },
            other => other,
        },
        _ => l.effect,
    }
}

pub open spec fn spec_speed_after(l: Lighting, edit: LightingEdit) -> u8 {
    match edit {
        LightingEdit::SpeedPicked { speed } => speed,
        _ => l.speed,
    }
}

pub open spec fn spec_brightness_after(l: Lighting, edit: LightingEdit) -> Brightness {
    match edit {
        LightingEdit::BrightnessPicked { high } => spec_brightness_of(high),
        _ => l.brightness,
    }
}

pub open spec fn spec_direction_after(l: Lighting, edit: LightingEdit) -> Direction {
    match edit {
        LightingEdit::DirectionPicked { index } => spec_direction_of(index),
        _ => l.direction,
    }
}

/// `l` after `edit`, field by field.
pub open spec fn spec_edited(l: Lighting, edit: LightingEdit, after: Lighting) -> bool {
    &&& forall|i: int| 0 <= i < 4 ==> #[trigger] after.rgb_zones@[i] == spec_zone_after(l, edit, i)
    &&& after.effect == spec_effect_after(l, edit)
    &&& after.speed == spec_speed_after(l, edit)
    &&& after.brightness == spec_brightness_after(l, edit)
    &&& after.direction == spec_direction_after(l, edit)
}

fn same_color(a: [u8; 3], b: [u8; 3]) -> (r: bool)
    ensures
        r == (a == b),
{
    let same = a[0] == b[0] && a[1] == b[1] && a[2] == b[2];
    proof {
        if same {
            assert(a =~= b);
        }
    }
    same
}

/// The four zones with the color of zone `index` replaced (`index` past
/// the end replaces none).
fn zones_with_color(zones: [KeyboardZone; 4], index: usize, color: [u8; 3]) -> (r: [KeyboardZone; 4])
    ensures
        forall|i: int| 0 <= i < 4 ==> #[trigger] r@[i] == if i == index {
            KeyboardZone { rgb: color, enabled: zones@[i].enabled }
        } else {
            zones@[i]
        },
{
    let recolor = |k: usize| -> (z: KeyboardZone)
        requires
            k < 4,
        ensures
            z == if k == index {
                KeyboardZone { rgb: color, enabled: zones@[k as int].enabled }
            } else {
                zones@[k as int]
            },
        {
            if k == index {
                KeyboardZone { rgb: color, enabled: zones[k].enabled }
            } else {
                zones[k]
            }
        };
    let r = [recolor(0), recolor(1), recolor(2), recolor(3)];
    r
}

/// Apply `edit` to `lighting`; returns whether anything changed.
pub fn apply_edit(lighting: &mut Lighting, edit: LightingEdit) -> (changed: bool)
    ensures
        changed == spec_edit_changes(*old(lighting), edit),
        spec_edited(*old(lighting), edit, *final(lighting)),
{
    let l = *lighting;
    match edit {
        LightingEdit::EffectSelected { index } => {
            match effect_by_index(index) {
                None => false,
                Some(selected) => {
                    if selected.same_variant(l.effect) {
                        false
                    } else {
                        lighting.effect = selected;
                        true
                    }
                },
            }
        },
        LightingEdit::ZoneColorPicked { zone_index, color } => {
            if zone_index >= 4 {
                return false;
            }
            if same_color(l.rgb_zones[zone_index].rgb, color) {
                return false;
            }
            lighting.rgb_zones = zones_with_color(l.rgb_zones, zone_index, color);
            true
        },
        LightingEdit::GlobalColorPicked { color } => {
            let mut zones = l.rgb_zones;
            let mut changed = false;
            let mut k: usize = 0;
            while k < 4
                invariant
                    k <= 4,
                    forall|i: int| 0 <= i < k ==> #[trigger] zones@[i] == (KeyboardZone {
                        rgb: color,
                        enabled: l.rgb_zones@[i].enabled,
                    }),
                    forall|i: int| k <= i < 4 ==> #[trigger] zones@[i] == l.rgb_zones@[i],
                    changed == exists|i: int| 0 <= i < k && #[trigger] l.rgb_zones@[i].rgb != color,
                decreases 4 - k,
            {
                if !same_color(zones[k].rgb, color) {
                    changed = true;
                }
                zones = zones_with_color(zones, k, color);
                k = k + 1;
            }
            lighting.rgb_zones = zones;
            changed
        },
        LightingEdit::SpeedPicked { speed } => {
            if l.speed == speed {
                return false;
            }
            lighting.speed = speed;
            true
        },
        LightingEdit::BrightnessPicked { high } => {
            let brightness = if high {
                Brightness::High
            } else {
                Brightness::Low
            };
            if l.brightness == brightness {
                return false;
            }
            lighting.brightness = brightness;
            true
        },
        LightingEdit::DirectionPicked { index } => {
            let direction = if index == 0 {
                Direction::Left
            } else {
                Direction::Right
            };
            if l.direction == direction {
                return false;
            }
            lighting.direction = direction;
            true
        },
        LightingEdit::SwipeModePicked { index } => {
            let picked = if index == 0 {
                SwipeMode::Change
            } else {
                SwipeMode::Fill
            };
            match l.effect {
                Effects::Swipe { mode, clean_with_black } => {
                    if mode == picked {
                        false
                    } else {
                        lighting.effect = Effects::Swipe { mode: picked, clean_with_black };
                        true
                    }
                },
                Effects::SmoothWave { mode, clean_with_black } => {
                    if mode == picked {
                        false
                    } else {
                        lighting.effect = Effects::SmoothWave { mode: picked, clean_with_black };
                        true
                    }
                },
                _ => false,
            }
        },
        LightingEdit::CleanWithBlackPicked { clean } => {
            match l.effect {
                Effects::Swipe { mode, clean_with_black } => {
                    if clean_with_black == clean {
                        false
                    } else {
                        lighting.effect = Effects::Swipe { mode, clean_with_black: clean };
                        true
                    }
                },
                Effects::SmoothWave { mode, clean_with_black } => {
                    if clean_with_black == clean {
                        false
                    } else {
                        lighting.effect = Effects::SmoothWave { mode, clean_with_black: clean };
                        true
                    }
                },
                _ => false,
            }
        },
        LightingEdit::AmbientFpsPicked { fps } => {
            match l.effect {
                Effects::AmbientLight { fps: shown, saturation_boost_bits } => {
                    if shown == fps {
                        false
                    } else {
                        lighting.effect = Effects::AmbientLight { fps, saturation_boost_bits };
                        true
                    }
                },
                _ => false,
            }
        },
        LightingEdit::AmbientSaturationPicked { saturation_bits, differs } => {
            match l.effect {
                Effects::AmbientLight { fps, .. } => {
                    if !differs {
                        false
                    } else {
                        lighting.effect = Effects::AmbientLight { fps, saturation_boost_bits: saturation_bits };
                        true
                    }
                },
                _ => false,
            }
        },
    }
}

/// The swipe settings row as shown.
#[derive(Clone, Copy, Debug)]
pub struct SwipeRows {
    /// 0 for changing colors, 1 for filling.
    pub mode_index: u32,
    pub clean_with_black: bool,
    /// Black between colors only means something while filling.
    pub clean_sensitive: bool,
}

/// What the lighting controls show for one lighting.
#[derive(Clone, Copy, Debug)]
pub struct LightingPageView {
    /// Position of the effect in the effect list.
    pub effect_index: usize,
    /// Each zone's color button, enabled or not.
    pub zone_colors: [[u8; 3]; 4],
    pub speed: u8,
    pub high_brightness: bool,
    /// 0 for left, 1 for right.
    pub direction_index: u32,
    /// Which controls the chosen effect listens to.
    pub colors_sensitive: bool,
    pub speed_sensitive: bool,
    pub direction_sensitive: bool,
    /// Frame rate and saturation-boost bits, shown only for the ambient
    /// effect.
    pub ambient: Option<(u8, u32)>,
    /// Shown only for the two swipes.
    pub swipe: Option<SwipeRows>,
    /// The keyboard preview: a disabled zone is drawn dark.
    pub preview: [[u8; 3]; 4],
}

pub open spec fn spec_swipe_rows(mode: SwipeMode, clean_with_black: bool) -> SwipeRows {
    SwipeRows {
        mode_index: match mode {
            SwipeMode::Change => 0,
            SwipeMode::Fill => 1,
        },
        clean_with_black,
        clean_sensitive: mode == SwipeMode::Fill,
    }
}

/// The controls for `l`, field by field.
pub open spec fn spec_page_shows(l: Lighting, v: LightingPageView) -> bool {
    &&& v.effect_index == spec_effect_position(l.effect)
    &&& forall|i: int| 0 <= i < 4 ==> #[trigger] v.zone_colors@[i] == l.rgb_zones@[i].rgb
    &&& v.speed == l.speed
    &&& v.high_brightness == (l.brightness == Brightness::High)
    &&& v.direction_index == match l.direction {
        Direction::Left => 0u32,
        Direction::Right => 1u32,
    }
    &&& v.colors_sensitive == l.effect.spec_takes_color_array()
    &&& v.speed_sensitive == l.effect.spec_takes_speed()
    &&& v.direction_sensitive == l.effect.spec_takes_direction()
    &&& v.ambient == match l.effect {
        Effects::AmbientLight { fps, saturation_boost_bits } => Some((fps, saturation_boost_bits)),
        _ => None,
    }
    &&& v.swipe == match l.effect {
        Effects::Swipe { mode, clean_with_black } | Effects::SmoothWave { mode, clean_with_black } => Some(
            spec_swipe_rows(mode, clean_with_black),
        ),
        _ => None,
    }
    &&& forall|i: int| 0 <= i < 4 ==> #[trigger] v.preview@[i] == if l.rgb_zones@[i].enabled {
        l.rgb_zones@[i].rgb
    } else {
        [0u8, 0u8, 0u8]
    }
}

/// What the lighting controls show for `l`.
pub fn lighting_page_view(l: &Lighting) -> (v: LightingPageView)
    ensures
        spec_page_shows(*l, v),
{
    let effect_position = match effect_index(l.effect) {
        Some(position) => position,
        None => 0,
    };
    let zones = l.rgb_zones;
    let shown = |k: usize| -> (c: [u8; 3])
        requires
            k < 4,
        ensures
            c == if zones@[k as int].enabled {
                zones@[k as int].rgb
            } else {
                [0u8, 0u8, 0u8]
            },
        {
            if zones[k].enabled {
                zones[k].rgb
            } else {
                [0u8, 0u8, 0u8]
            }
        };
    let preview = [shown(0), shown(1), shown(2), shown(3)];
    let ambient = match l.effect {
        Effects::AmbientLight { fps, saturation_boost_bits } => Some((fps, saturation_boost_bits)),
        _ => None,
    };
    let swipe_of = |mode: SwipeMode, clean_with_black: bool| -> (r: SwipeRows)
        ensures
            r == spec_swipe_rows(mode, clean_with_black),
        {
            SwipeRows {
                mode_index: match mode {
                    SwipeMode::Change => 0,
                    SwipeMode::Fill => 1,
                },
                clean_with_black,
                clean_sensitive: mode == SwipeMode::Fill,
            }
        };
    let swipe = match l.effect {
        Effects::Swipe { mode, clean_with_black } => Some(swipe_of(mode, clean_with_black)),
        Effects::SmoothWave { mode, clean_with_black } => Some(swipe_of(mode, clean_with_black)),
        _ => None,
    };
    LightingPageView {
        effect_index: effect_position,
        zone_colors: [zones[0].rgb, zones[1].rgb, zones[2].rgb, zones[3].rgb],
        speed: l.speed,
        high_brightness: l.brightness == Brightness::High,
        direction_index: match l.direction {
            Direction::Left => 0,
            Direction::Right => 1,
        },
        colors_sensitive: l.effect.takes_color_array(),
        speed_sensitive: l.effect.takes_speed(),
        direction_sensitive: l.effect.takes_direction(),
        ambient,
        swipe,
        preview,
    }
}

/// What the connection worker reports.
#[derive(Debug)]
pub enum IpcUpdate {
    Connected,
    Disconnected,
    State(DaemonState),
    /// A refused request, already worded for the user.
    RequestFailed(String),
}

/// Whether the daemon's systemd unit exists, starts at login, and is
/// owned by a declarative configuration the window must not edit.
#[derive(Clone, Copy, Debug, PartialEq, Eq, Structural)]
pub struct Autostart {
    pub available: bool,
    pub enabled: bool,
    pub managed: bool,
}

/// A custom effect file after the attempt to read and parse it.
#[derive(Debug)]
pub enum EffectFile {
    /// The file could not be read: its path as shown, and why.
    Unreadable { path: String, error: String },
    /// The contents are not a custom effect: the parser's complaint.
    NotAnEffect { error: String },
    /// A custom effect, with the file's name minus its extension.
    Loaded { effect: CustomEffect, file_stem: Option<String> },
}

/// What the window's widgets, dialogs and workers report.
#[derive(Debug)]
pub enum AppMsg {
    Ipc(IpcUpdate),
    /// A lighting control changed.
    Edit(LightingEdit),
    GlobalColorDialogRequested,
    ProfileActivated { name: String },
    ProfileDeleted { name: String },
    SaveProfileDialogRequested,
    SaveProfileConfirmed { name: String },
    CustomEffectPlayed { name: String },
    CustomEffectDeleted { name: String },
    CustomEffectStopped,
    CustomEffectFileRequested,
    CustomEffectFileRead { file: EffectFile },
    StartDaemonRequested,
    DaemonRestartRequested,
    AutostartToggled { enabled: bool },
    AutostartQueried { autostart: Autostart },
    ServiceActionFinished { description: String, error: Option<String> },
}

/// Work the window asks for.
#[derive(Debug)]
pub enum AppAction {
    Send(Request),
    ShowGlobalColorDialog { initial: [u8; 3] },
    ShowSaveProfileDialog,
    ShowCustomEffectFileDialog,
    StartDaemon { unit_available: bool },
    RestartDaemon { unit_available: bool },
    SetAutostart { enabled: bool },
    QueryAutostart,
}

pub enum AppActionView {
    Send(RequestView),
    ShowGlobalColorDialog { initial: [u8; 3] },
    ShowSaveProfileDialog,
    ShowCustomEffectFileDialog,
    StartDaemon { unit_available: bool },
    RestartDaemon { unit_available: bool },
    SetAutostart { enabled: bool },
    QueryAutostart,
}

impl View for AppAction {
    type V = AppActionView;

    open spec fn view(&self) -> AppActionView {
        match self {
            AppAction::Send(request) => AppActionView::Send(request@),
            AppAction::ShowGlobalColorDialog { initial } => AppActionView::ShowGlobalColorDialog { initial: *initial },
            AppAction::ShowSaveProfileDialog => AppActionView::ShowSaveProfileDialog,
            AppAction::ShowCustomEffectFileDialog => AppActionView::ShowCustomEffectFileDialog,
            AppAction::StartDaemon { unit_available } => AppActionView::StartDaemon { unit_available: *unit_available },
            AppAction::RestartDaemon { unit_available } => AppActionView::RestartDaemon {
                unit_available: *unit_available,
            },
            AppAction::SetAutostart { enabled } => AppActionView::SetAutostart { enabled: *enabled },
            AppAction::QueryAutostart => AppActionView::QueryAutostart,
        }
    }
}

pub open spec fn spec_actions(v: Seq<AppAction>) -> Seq<AppActionView> {
    v.map_values(|a: AppAction| a@)
}

/// The window's model.
pub struct App {
    pub connected: bool,
    /// The last state the daemon sent, while connected.
    pub state: Option<DaemonState>,
    /// Optimistic copy of the live profile; edits land here first.
    pub profile: Profile,
    pub autostart: Autostart,
    /// A message waiting to be shown.
    pub pending_toast: Option<String>,
}

pub struct AppView {
    pub connected: bool,
    pub state: Option<DaemonStateView>,
    pub profile: ProfileView,
    pub autostart: Autostart,
    pub pending_toast: Option<Seq<char>>,
}

impl View for App {
    type V = AppView;

    open spec fn view(&self) -> AppView {
        AppView {
            connected: self.connected,
            state: match self.state {
                Some(s) => Some(s@),
                None => None,
            },
            profile: self.profile@,
            autostart: self.autostart,
            pending_toast: spec_name_view(self.pending_toast),
        }
    }
}

/// The slot the lighting controls edit: the live one, while the daemon
/// has said which it is and it is not the off position.
pub open spec fn spec_edited_slot(a: AppView) -> Option<usize> {
    match a.state {
        Some(s) => s.active_slot.spec_index(),
        None => None,
    }
}

pub open spec fn spec_toast(a: AppView, text: Seq<char>) -> AppView {
    AppView { pending_toast: Some(text), ..a }
}

pub open spec fn spec_custom_effect_listed(s: DaemonStateView, name: Seq<char>) -> bool {
    exists|i: int| 0 <= i < s.custom_effects.len() && #[trigger] s.custom_effects[i].0 == name
}

pub open spec fn spec_named_after_file(e: CustomEffectView, stem: Option<Seq<char>>) -> CustomEffectView {
    match e.name {
        Some(_) => e,
        None => CustomEffectView { name: stem, ..e },
    }
}

/// `after` and `actions` are what the window becomes and asks for when
/// `before` receives `msg`.
pub open spec fn spec_update(before: AppView, msg: AppMsg, after: AppView, actions: Seq<AppActionView>) -> bool {
    match msg {
        AppMsg::Ipc(update) => match update {
            IpcUpdate::Connected => after == AppView { connected: true, ..before } && actions =~= seq![
                AppActionView::QueryAutostart,
            ],
            IpcUpdate::Disconnected => after == AppView { connected: false, state: None, ..before } && actions
                =~= Seq::<AppActionView>::empty(),
            IpcUpdate::State(s) => after == AppView { state: Some(s@), profile: s@.current, ..before } && actions
                =~= Seq::<AppActionView>::empty(),
            IpcUpdate::RequestFailed(m) => after == spec_toast(before, m@) && actions =~= Seq::<AppActionView>::empty(),
        },
        AppMsg::Edit(edit) => match spec_edited_slot(before) {
            None => after == before && actions =~= Seq::<AppActionView>::empty(),
            Some(i) => {
                let slot = before.profile.slots[i as int];
                let changed = spec_edit_changes(slot, edit);
                &&& after.connected == before.connected
                &&& after.state == before.state
                &&& after.autostart == before.autostart
                &&& after.pending_toast == before.pending_toast
                &&& after.profile.name == before.profile.name
                &&& after.profile.slots.len() == 3
                &&& forall|k: int| 0 <= k < 3 && k != i ==> #[trigger] after.profile.slots[k] == before.profile.slots[k]
                &&& spec_edited(slot, edit, after.profile.slots[i as int])
                &&& actions =~= if changed {
                    seq![AppActionView::Send(RequestView::SetProfile { profile: after.profile })]
                } else {
                    Seq::<AppActionView>::empty()
                }
            },
        },
        AppMsg::GlobalColorDialogRequested => after == before && actions =~= match spec_edited_slot(before) {
            Some(i) => seq![
                AppActionView::ShowGlobalColorDialog {
                    initial: before.profile.slots[i as int].rgb_zones@[0].rgb,
                },
            ],
            None => Seq::<AppActionView>::empty(),
        },
        AppMsg::ProfileActivated { name } => after == before && actions =~= seq![
            AppActionView::Send(RequestView::SwitchProfile { name: name@ }),
        ],
        AppMsg::ProfileDeleted { name } => after == before && actions =~= seq![
            AppActionView::Send(RequestView::DeleteProfile { name: name@ }),
        ],
        AppMsg::SaveProfileDialogRequested => after == before && actions =~= seq![AppActionView::ShowSaveProfileDialog],
        AppMsg::SaveProfileConfirmed { name } => if name@.len() == 0 {
            after == spec_toast(before, "Profile name cannot be empty"@) && actions =~= Seq::<AppActionView>::empty()
        } else {
            let profile = ProfileView { name: Some(name@), ..before.profile };
            after == AppView { profile, ..before } && actions =~= seq![
                AppActionView::Send(RequestView::AddProfile { profile }),
                AppActionView::Send(RequestView::SetProfile { profile }),
            ]
        },
        AppMsg::CustomEffectPlayed { name } => match before.state {
            None => after == before && actions =~= Seq::<AppActionView>::empty(),
            Some(s) => if spec_custom_effect_listed(s, name@) {
                after == before && actions =~= seq![
                    AppActionView::Send(RequestView::PlayCustomEffectByName { name: name@ }),
                ]
            } else {
                after == spec_toast(before, "Custom effect \u{201c}"@ + name@ + "\u{201d} not found"@) && actions
                    =~= Seq::<AppActionView>::empty()
            },
        },
        AppMsg::CustomEffectDeleted { name } => after == before && actions =~= seq![
            AppActionView::Send(RequestView::DeleteCustomEffect { name: name@ }),
        ],
        AppMsg::CustomEffectStopped => after == before && actions =~= seq![
            AppActionView::Send(RequestView::StopCustomEffect),
        ],
        AppMsg::CustomEffectFileRequested => after == before && actions =~= seq![
            AppActionView::ShowCustomEffectFileDialog,
        ],
        AppMsg::CustomEffectFileRead { file } => match file {
            EffectFile::Unreadable { path, error } => after == spec_toast(
                before,
                "Could not read "@ + path@ + ": "@ + error@,
            ) && actions =~= Seq::<AppActionView>::empty(),
            EffectFile::NotAnEffect { error } => after == spec_toast(before, "Not a valid custom effect file: "@ + error@)
                && actions =~= Seq::<AppActionView>::empty(),
            EffectFile::Loaded { effect, file_stem } => {
                let named = spec_named_after_file(effect@, spec_name_view(file_stem));
                after == before && actions =~= seq![
                    AppActionView::Send(RequestView::AddCustomEffect { effect: named }),
                    AppActionView::Send(RequestView::PlayCustomEffect { effect: named }),
                ]
            },
        },
        AppMsg::StartDaemonRequested => after == before && actions =~= seq![
            AppActionView::StartDaemon { unit_available: before.autostart.available },
        ],
        AppMsg::DaemonRestartRequested => after == before && actions =~= seq![
            AppActionView::RestartDaemon { unit_available: before.autostart.available },
        ],
        AppMsg::AutostartToggled { enabled } => if enabled == before.autostart.enabled {
            after == before && actions =~= Seq::<AppActionView>::empty()
        } else if !before.autostart.available {
            after == spec_toast(before, "No systemd unit found \u{2014} install the aurora.service unit first"@)
                && actions =~= Seq::<AppActionView>::empty()
        } else if before.autostart.managed {
            after == spec_toast(before, "Autostart is managed by your home-manager configuration"@) && actions
                =~= Seq::<AppActionView>::empty()
        } else {
            after == AppView { autostart: Autostart { enabled, ..before.autostart }, ..before } && actions =~= seq![
                AppActionView::SetAutostart { enabled },
            ]
        },
        AppMsg::AutostartQueried { autostart } => after == AppView { autostart, ..before } && actions
            =~= Seq::<AppActionView>::empty(),
        AppMsg::ServiceActionFinished { description, error } => actions =~= seq![AppActionView::QueryAutostart] && after
            == match error {
            Some(e) => spec_toast(before, description@ + ": "@ + e@),
            None => before,
        },
    }
}

fn slots_with(slots: [Lighting; 3], index: usize, lighting: Lighting) -> (r: [Lighting; 3])
    requires
        index < 3,
    ensures
        forall|k: int| 0 <= k < 3 ==> #[trigger] r@[k] == if k == index {
            lighting
        } else {
            slots@[k]
        },
{
    if index == 0 {
        [lighting, slots[1], slots[2]]
    } else if index == 1 {
        [slots[0], lighting, slots[2]]
    } else {
        [slots[0], slots[1], lighting]
    }
}

impl App {
    /// A window that has not reached the daemon yet.
    pub fn new() -> (a: App)
        ensures
            a@ == (AppView {
                connected: false,
                state: None,
                profile: spec_default_profile(),
                autostart: Autostart { available: false, enabled: false, managed: false },
                pending_toast: None,
            }),
    {
        App {
            connected: false,
            state: None,
            profile: Profile::default_profile(),
            autostart: Autostart { available: false, enabled: false, managed: false },
            pending_toast: None,
        }
    }

    /// The message to show now, if any; it is shown once.
    pub fn take_toast(&mut self) -> (t: Option<String>)
        ensures
            spec_name_view(t) == old(self)@.pending_toast,
            final(self)@ == (AppView { pending_toast: None, ..old(self)@ }),
    {
        let t = self.pending_toast.take();
        t
    }

    fn edited_slot(&self) -> (r: Option<usize>)
        ensures
            r == spec_edited_slot(self@),
    {
        match &self.state {
            Some(s) => s.active_slot.index(),
            None => None,
        }
    }

    fn toast(&mut self, text: String)
        ensures
            final(self)@ == spec_toast(old(self)@, text@),
    {
        self.pending_toast = Some(text);
    }

    /// React to `msg`: update the model and say what to do.
    pub fn update(&mut self, msg: AppMsg) -> (actions: Vec<AppAction>)
        ensures
            spec_update(old(self)@, msg, final(self)@, spec_actions(actions@)),
    {
        let mut actions: Vec<AppAction> = Vec::new();
        match msg {
            AppMsg::Ipc(update) => match update {
                IpcUpdate::Connected => {
                    self.connected = true;
                    actions.push(AppAction::QueryAutostart);
                },
                IpcUpdate::Disconnected => {
                    self.connected = false;
                    self.state = None;
                },
                IpcUpdate::State(s) => {
                    self.profile = s.current.duplicate();
                    self.state = Some(s);
                },
                IpcUpdate::RequestFailed(m) => {
                    self.toast(m);
                },
            },
            AppMsg::Edit(edit) => {
                if let Some(i) = self.edited_slot() {
                    let mut slot = self.profile.slots[i];
                    let changed = apply_edit(&mut slot, edit);
                    self.profile.slots = slots_with(self.profile.slots, i, slot);
                    if changed {
                        actions.push(AppAction::Send(Request::SetProfile { profile: self.profile.duplicate() }));
                    }
                }
            },
            AppMsg::GlobalColorDialogRequested => {
                if let Some(i) = self.edited_slot() {
                    actions.push(AppAction::ShowGlobalColorDialog { initial: self.profile.slots[i].rgb_zones[0].rgb });
                }
            },
            AppMsg::ProfileActivated { name } => {
                actions.push(AppAction::Send(Request::SwitchProfile { name }));
            },
            AppMsg::ProfileDeleted { name } => {
                actions.push(AppAction::Send(Request::DeleteProfile { name }));
            },
            AppMsg::SaveProfileDialogRequested => {
                actions.push(AppAction::ShowSaveProfileDialog);
            },
            AppMsg::SaveProfileConfirmed { name } => {
                if crate::text::chars_of(name.as_str()).len() == 0 {
                    self.toast(owned("Profile name cannot be empty"));
                } else {
                    self.profile.name = Some(name);
                    actions.push(AppAction::Send(Request::AddProfile { profile: self.profile.duplicate() }));
                    actions.push(AppAction::Send(Request::SetProfile { profile: self.profile.duplicate() }));
                }
            },
            AppMsg::CustomEffectPlayed { name } => {
                let listed = match &self.state {
                    None => None,
                    Some(s) => Some(custom_effect_listed(s, name.as_str())),
                };
                match listed {
                    None => {},
                    Some(true) => {
                        actions.push(AppAction::Send(Request::PlayCustomEffectByName { name }));
                    },
                    Some(false) => {
                        let mut text = owned("Custom effect \u{201c}");
                        push_str(&mut text, name.as_str());
                        push_str(&mut text, "\u{201d} not found");
                        self.toast(text);
                    },
                }
            },
            AppMsg::CustomEffectDeleted { name } => {
                actions.push(AppAction::Send(Request::DeleteCustomEffect { name }));
            },
            AppMsg::CustomEffectStopped => {
                actions.push(AppAction::Send(Request::StopCustomEffect));
            },
            AppMsg::CustomEffectFileRequested => {
                actions.push(AppAction::ShowCustomEffectFileDialog);
            },
            AppMsg::CustomEffectFileRead { file } => match file {
                EffectFile::Unreadable { path, error } => {
                    let mut text = owned("Could not read ");
                    push_str(&mut text, path.as_str());
                    push_str(&mut text, ": ");
                    push_str(&mut text, error.as_str());
                    self.toast(text);
                },
                EffectFile::NotAnEffect { error } => {
                    let mut text = owned("Not a valid custom effect file: ");
                    push_str(&mut text, error.as_str());
                    self.toast(text);
                },
                EffectFile::Loaded { effect, file_stem } => {
                    let mut named = effect;
                    if named.name.is_none() {
                        named.name = file_stem;
                    }
                    actions.push(AppAction::Send(Request::AddCustomEffect { effect: named.duplicate() }));
                    actions.push(AppAction::Send(Request::PlayCustomEffect { effect: named }));
                },
            },
            AppMsg::StartDaemonRequested => {
                actions.push(AppAction::StartDaemon { unit_available: self.autostart.available });
            },
            AppMsg::DaemonRestartRequested => {
                actions.push(AppAction::RestartDaemon { unit_available: self.autostart.available });
            },
            AppMsg::AutostartToggled { enabled } => {
                if enabled == self.autostart.enabled {
                } else if !self.autostart.available {
                    self.toast(owned("No systemd unit found \u{2014} install the aurora.service unit first"));
                } else if self.autostart.managed {
                    self.toast(owned("Autostart is managed by your home-manager configuration"));
                } else {
                    self.autostart.enabled = enabled;
                    actions.push(AppAction::SetAutostart { enabled });
                }
            },
            AppMsg::AutostartQueried { autostart } => {
                self.autostart = autostart;
            },
            AppMsg::ServiceActionFinished { description, error } => {
                if let Some(e) = error {
                    let mut text = description;
                    push_str(&mut text, ": ");
                    push_str(&mut text, e.as_str());
                    self.toast(text);
                }
                actions.push(AppAction::QueryAutostart);
            },
        }
        proof {
            assert(spec_actions(actions@) =~= spec_actions(actions@));
        }
        actions
    }
}

/// Whether the state lists a saved custom effect called `name`.
fn custom_effect_listed(s: &DaemonState, name: &str) -> (r: bool)
    ensures
        r == spec_custom_effect_listed(s@, name@),
{
    let mut k: usize = 0;
    while k < s.custom_effects.len()
        invariant
            k <= s.custom_effects@.len(),
            forall|i: int| 0 <= i < k ==> #[trigger] s@.custom_effects[i].0 != name@,
        decreases s.custom_effects@.len() - k,
    {
        if same_text(s.custom_effects[k].name.as_str(), name) {
            assert(s@.custom_effects[k as int].0 == name@);
            return true;
        }
        k = k + 1;
    }
    false
}

/// A saved profile's row: its name, and whether it is the one live.
#[derive(Debug)]
pub struct ProfileRow {
    pub name: String,
    pub current: bool,
}

/// What the pages show once the daemon has sent its state.
#[derive(Debug)]
pub struct PagesView {
    /// The keyboard-status banner across the top, hidden while the keyboard
    /// is connected.
    pub banner: Option<String>,
    /// The slot picker: which lit-slot button is down, and whether the off
    /// button is; exactly the live position's.
    pub slot_buttons: [bool; 3],
    pub off_button: bool,
    /// The controls for the slot being edited; `None` at the off position.
    pub lighting: Option<LightingPageView>,
    /// Lighting edits are closed while a custom effect plays.
    pub lighting_sensitive: bool,
    pub profile_rows: Vec<ProfileRow>,
    /// Names of the saved custom effects.
    pub custom_effect_rows: Vec<String>,
    /// The title of the stop row, shown while a custom effect plays.
    pub playing_title: Option<String>,
    /// The daemon status line.
    pub status_text: String,
    pub autostart_active: bool,
    pub autostart_subtitle: String,
    /// The start-at-login switch can be used only for an existing unit the
    /// user owns.
    pub autostart_sensitive: bool,
}

/// What the window shows.
#[derive(Debug)]
pub struct WindowView {
    /// The main pages while connected, else the daemon-not-running page.
    pub main_page: bool,
    pub pages: Option<PagesView>,
}

pub open spec fn spec_autostart_subtitle(a: Autostart) -> Seq<char> {
    if !a.available {
        "No systemd unit installed"@
    } else if a.managed {
        "Managed by your home-manager configuration"@
    } else {
        "Enable the systemd user service"@
    }
}

/// The banner for a keyboard status; `None` hides it.
pub open spec fn spec_banner(k: crate::ipc::KeyboardStatusView) -> Option<Seq<char>> {
    match k {
        crate::ipc::KeyboardStatusView::Connected => None,
        crate::ipc::KeyboardStatusView::Searching => Some("Looking for a supported keyboard\u{2026}"@),
        crate::ipc::KeyboardStatusView::Lost => Some(
            "Keyboard stopped answering \u{2014} restarting the daemon cannot reopen it; reboot"@,
        ),
        crate::ipc::KeyboardStatusView::PermissionDenied { .. } => Some(
            "Keyboard access denied \u{2014} install the udev rule, then replug or reboot"@,
        ),
        crate::ipc::KeyboardStatusView::Error { message } => Some("Keyboard error: "@ + message),
    }
}

/// The pages of `a`, whose daemon state is `s`, as `p` shows them.
pub open spec fn spec_pages_show(a: AppView, s: DaemonStateView, p: PagesView) -> bool {
    &&& spec_name_view(p.banner) == spec_banner(s.keyboard)
    &&& forall|k: int| 0 <= k < 3 ==> #[trigger] p.slot_buttons@[k] == (s.active_slot.spec_index() == Some(k as usize))
    &&& p.off_button == (s.active_slot == crate::ipc::SlotSelection::Off)
    &&& match s.active_slot.spec_index() {
        Some(i) => p.lighting matches Some(v) && spec_page_shows(a.profile.slots[i as int], v),
        None => p.lighting is None,
    }
    &&& p.lighting_sensitive == (s.custom_effect_playing is None)
    &&& p.profile_rows@.len() == s.profiles.len()
    &&& forall|k: int| 0 <= k < s.profiles.len() ==> (#[trigger] p.profile_rows@[k]).name@ == s.profiles[k] && p.profile_rows@[k].current
        == (a.profile.name == Some(s.profiles[k]))
    &&& p.custom_effect_rows@.len() == s.custom_effects.len()
    &&& forall|k: int| 0 <= k < s.custom_effects.len() ==> (#[trigger] p.custom_effect_rows@[k])@ == s.custom_effects[k].0
    &&& spec_name_view(p.playing_title) == match s.custom_effect_playing {
        Some(name) => Some("Playing \u{201c}"@ + name + "\u{201d}"@),
        None => None,
    }
    &&& p.status_text@ == "Running (v"@ + s.version + ")"@
    &&& p.autostart_active == a.autostart.enabled
    &&& p.autostart_subtitle@ == spec_autostart_subtitle(a.autostart)
    &&& p.autostart_sensitive == (a.autostart.available && !a.autostart.managed)
}

impl App {
    /// What the window shows for this model.
    pub fn window_view(&self) -> (w: WindowView)
        ensures
            w.main_page == self.connected,
            match self@.state {
                Some(s) => w.pages matches Some(p) && spec_pages_show(self@, s, p),
                None => w.pages is None,
            },
    {
        let pages = match &self.state {
            None => None,
            Some(s) => Some(self.pages_view(s)),
        };
        WindowView { main_page: self.connected, pages }
    }

    fn pages_view(&self, s: &DaemonState) -> (p: PagesView)
        requires
            self@.state == Some(s@),
        ensures
            spec_pages_show(self@, s@, p),
    {
        let banner = match &s.keyboard {
            crate::ipc::KeyboardStatus::Connected => None,
            crate::ipc::KeyboardStatus::Searching => Some(owned("Looking for a supported keyboard\u{2026}")),
            crate::ipc::KeyboardStatus::Lost => Some(
                owned("Keyboard stopped answering \u{2014} restarting the daemon cannot reopen it; reboot"),
            ),
            crate::ipc::KeyboardStatus::PermissionDenied { .. } => Some(
                owned("Keyboard access denied \u{2014} install the udev rule, then replug or reboot"),
            ),
            crate::ipc::KeyboardStatus::Error { message } => {
                let mut text = owned("Keyboard error: ");
                push_str(&mut text, message.as_str());
                Some(text)
            },
        };
        let active = s.active_slot.index();
        let slot_buttons = [active == Some(0usize), active == Some(1usize), active == Some(2usize)];
        let off_button = match s.active_slot {
            crate::ipc::SlotSelection::Off => true,
            _ => false,
        };
        let lighting = match s.active_slot.index() {
            Some(i) => Some(lighting_page_view(&self.profile.slots[i])),
            None => None,
        };
        let mut profile_rows: Vec<ProfileRow> = Vec::new();
        let mut k: usize = 0;
        while k < s.profiles.len()
            invariant
                k <= s.profiles@.len(),
                profile_rows@.len() == k,
                forall|j: int| 0 <= j < k ==> (#[trigger] profile_rows@[j]).name@ == s@.profiles[j]
                    && profile_rows@[j].current == (self@.profile.name == Some(s@.profiles[j])),
            decreases s.profiles@.len() - k,
        {
            let name = s.profiles[k].name.clone();
            let current = match &self.profile.name {
                Some(live) => same_text(live.as_str(), name.as_str()),
                None => false,
            };
            profile_rows.push(ProfileRow { name, current });
            k = k + 1;
        }
        let mut custom_effect_rows: Vec<String> = Vec::new();
        let mut k: usize = 0;
        while k < s.custom_effects.len()
            invariant
                k <= s.custom_effects@.len(),
                custom_effect_rows@.len() == k,
                forall|j: int| 0 <= j < k ==> (#[trigger] custom_effect_rows@[j])@ == s@.custom_effects[j].0,
            decreases s.custom_effects@.len() - k,
        {
            custom_effect_rows.push(s.custom_effects[k].name.clone());
            k = k + 1;
        }
        let playing_title = match &s.custom_effect_playing {
            Some(name) => {
                let mut title = owned("Playing \u{201c}");
                push_str(&mut title, name.as_str());
                push_str(&mut title, "\u{201d}");
                Some(title)
            },
            None => None,
        };
        let mut status_text = owned("Running (v");
        push_str(&mut status_text, s.version.as_str());
        push_str(&mut status_text, ")");
        let autostart_subtitle = if !self.autostart.available {
            owned("No systemd unit installed")
        } else if self.autostart.managed {
            owned("Managed by your home-manager configuration")
        } else {
            owned("Enable the systemd user service")
        };
        PagesView {
            banner,
            slot_buttons,
            off_button,
            lighting,
            lighting_sensitive: s.custom_effect_playing.is_none(),
            profile_rows,
            custom_effect_rows,
            playing_title,
            status_text,
            autostart_active: self.autostart.enabled,
            autostart_subtitle,
            autostart_sensitive: self.autostart.available && !self.autostart.managed,
        }
    }
}

/// Milliseconds to wait before reconnect attempt `attempt` (counted from
/// 0): half a second, then one, then two for every attempt after.
pub open spec fn spec_reconnect_delay_ms(attempt: usize) -> u64 {
    if attempt == 0 {
        500
    } else if attempt == 1 {
        1000
    } else {
        2000
    }
}

pub fn reconnect_delay_ms(attempt: usize) -> (ms: u64)
    ensures
        ms == spec_reconnect_delay_ms(attempt),
{
    let backoff: [u64; 3] = [500, 1000, 2000];
    let last_index: usize = 2;
    let index = if attempt < last_index {
        attempt
    } else {
        last_index
    };
    backoff[index]
}

/// Waiting longer never follows waiting less: the reconnect delay does not
/// shrink from one attempt to the next, and never exceeds two seconds.
pub proof fn law_reconnect_delay_never_shrinks(attempt: usize)
    requires
        attempt < usize::MAX,
    ensures
        spec_reconnect_delay_ms(attempt) <= spec_reconnect_delay_ms((attempt + 1) as usize),
        spec_reconnect_delay_ms(attempt) <= 2000,
{
}

/// Wrap `request` in an envelope carrying the next id, and count on.
pub fn next_envelope(next_id: &mut u64, request: Request) -> (e: RequestEnvelope)
    requires
        *old(next_id) < u64::MAX,
    ensures
        e.id == *old(next_id),
        e.req@ == request@,
        *final(next_id) == *old(next_id) + 1,
{
    let e = RequestEnvelope { id: *next_id, req: request };
    *next_id = *next_id + 1;
    e
}

/// What one line read from the daemon calls for.
#[derive(Debug)]
pub enum DaemonLine {
    /// End of stream: the daemon closed the connection.
    Closed,
    /// Over the protocol's limit: give the connection up.
    Oversized,
    /// Nothing but whitespace: read on.
    Blank,
    /// A message to parse: the line trimmed.
    Parse(String),
}

pub fn daemon_line_step(bytes_read: usize, line: &str) -> (s: DaemonLine)
    ensures
        bytes_read == 0 ==> s is Closed,
        bytes_read > MAX_LINE_BYTES ==> s is Oversized,
        0 < bytes_read <= MAX_LINE_BYTES && spec_trim(line@).len() == 0 ==> s is Blank,
        0 < bytes_read <= MAX_LINE_BYTES && spec_trim(line@).len() > 0 ==> (s matches DaemonLine::Parse(t) && t@
            == spec_trim(line@)),
{
    if bytes_read == 0 {
        return DaemonLine::Closed;
    }
    if bytes_read > MAX_LINE_BYTES {
        return DaemonLine::Oversized;
    }
    let trimmed = trim_str(line);
    if crate::text::chars_of(trimmed.as_str()).len() == 0 {
        return DaemonLine::Blank;
    }
    DaemonLine::Parse(trimmed)
}

/// What a message from the daemon tells the window: every state, pushed or
/// answered, replaces the one shown; a refusal is worded for the user;
/// other answers are acknowledgements the state already covers.
pub fn update_for_message(message: ServerMessage) -> (u: Option<IpcUpdate>)
    ensures
        match message {
            ServerMessage::Event(envelope) => match envelope.event {
                Event::StateChanged { state } => u matches Some(IpcUpdate::State(s)) && s@ == state@,
            },
            ServerMessage::Response(envelope) => match envelope.resp {
                Response::State { state } => u matches Some(IpcUpdate::State(s)) && s@ == state@,
                Response::Error { kind, message } => u matches Some(IpcUpdate::RequestFailed(m)) && m@
                    == spec_kind_name(kind) + ": "@ + message@,
                _ => u is None,
            },
        },
{
    match message {
        ServerMessage::Event(envelope) => match envelope.event {
            Event::StateChanged { state } => Some(IpcUpdate::State(state)),
        },
        ServerMessage::Response(envelope) => match envelope.resp {
            Response::State { state } => Some(IpcUpdate::State(state)),
            Response::Error { kind, message } => {
                let mut text = kind_name(kind);
                push_str(&mut text, ": ");
                push_str(&mut text, message.as_str());
                Some(IpcUpdate::RequestFailed(text))
            },
            _ => None,
        },
    }
}

/// Where the service manager keeps the unit's file: a path under the nix
/// store belongs to a declarative configuration.
pub open spec fn spec_autostart_from_query(fragment_path: Option<Seq<char>>, enabled: bool) -> Autostart {
    match fragment_path {
        Some(path) => if spec_trim(path).len() == 0 {
            Autostart { available: false, enabled: false, managed: false }
        } else {
            Autostart {
                available: true,
                enabled,
                managed: spec_starts_with(spec_trim(path), "/nix/store"@),
            }
        },
        None => Autostart { available: false, enabled: false, managed: false },
    }
}

/// The start-at-login state from what the service manager said: the
/// unit's fragment path as printed (`None` where the query failed) and
/// whether the unit is enabled. No fragment path means no unit.
pub fn autostart_from_query(fragment_path: Option<&str>, enabled: bool) -> (a: Autostart)
    ensures
        a == spec_autostart_from_query(
            match fragment_path {
                Some(p) => Some(p@),
                None => None,
            },
            enabled,
        ),
{
    match fragment_path {
        None => Autostart { available: false, enabled: false, managed: false },
        Some(printed) => {
            let path = trim_str(printed);
            if crate::text::chars_of(path.as_str()).len() == 0 {
                Autostart { available: false, enabled: false, managed: false }
            } else {
                Autostart { available: true, enabled, managed: starts_with(path.as_str(), "/nix/store") }
            }
        },
    }
}

} // verus!
