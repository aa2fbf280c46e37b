//! What the daemon persists: saved profiles and custom effects, the live
//! profile, the live slot and the alert switch; and the conversion of the
//! older file shape, in which a profile was one lighting and per-slot
//! lighting lived in a separate list.
//!
//! The rule that governs persistence: a settings file that could not be
//! understood is never overwritten. Such a load records why in
//! `save_blocked`, and every save of that session is refused.
use vstd::prelude::*;

use crate::custom_effect::{CustomEffect, CustomEffectView};
use crate::effects::{Brightness, Direction, Effects};
use crate::equality::spec_lighting_eq;
use crate::ipc::SlotSelection;
use crate::profile::{
    spec_default_profile, spec_name_view, spec_slot_showing, KeyboardZone, Lighting, Profile, ProfileView,
};

verus! {

pub struct Settings {
    pub profiles: Vec<Profile>,
    /// Custom effects.
    pub effects: Vec<CustomEffect>,
    pub current_profile: Profile,
    /// Which Fn+Space position was live when the daemon last ran.
    pub active_slot: SlotSelection,
    /// Whether the low-battery alert may take the keyboard.
    pub battery_alert: bool,
    /// Why this session may not write the settings file, when it may not.
    /// Never stored in the file itself.
    pub save_blocked: Option<String>,
}

pub struct SettingsView {
    pub profiles: Seq<ProfileView>,
    pub effects: Seq<CustomEffectView>,
    pub current_profile: ProfileView,
    pub active_slot: SlotSelection,
    pub battery_alert: bool,
    pub save_blocked: Option<Seq<char>>,
}

pub open spec fn spec_profiles_view(ps: Seq<Profile>) -> Seq<ProfileView> {
    ps.map_values(|p: Profile| p@)
}

pub open spec fn spec_effects_view(es: Seq<CustomEffect>) -> Seq<CustomEffectView> {
    es.map_values(|e: CustomEffect| e@)
}

impl View for Settings {
    type V = SettingsView;

    open spec fn view(&self) -> SettingsView {
        SettingsView {
            profiles: spec_profiles_view(self.profiles@),
            effects: spec_effects_view(self.effects@),
            current_profile: self.current_profile@,
            active_slot: self.active_slot,
            battery_alert: self.battery_alert,
            save_blocked: spec_name_view(self.save_blocked),
        }
    }
}

/// The message a refused save reports.
pub open spec fn spec_read_only_message(reason: Seq<char>) -> Seq<char> {
    "settings are read-only this session: "@ + reason
}

impl Settings {
    /// Fresh settings: nothing saved, the default profile live on the
    /// first slot, the alert on, saving allowed.
    pub fn default_settings() -> (s: Settings)
        ensures
            s@.profiles.len() == 0,
            s@.effects.len() == 0,
            s@.current_profile == spec_default_profile(),
            s@.active_slot == SlotSelection::First,
            s@.battery_alert,
            s@.save_blocked.is_none(),
    {
        let s = Settings {
            profiles: Vec::new(),
            effects: Vec::new(),
            current_profile: Profile::default_profile(),
            active_slot: SlotSelection::First,
            battery_alert: true,
            save_blocked: None,
        };
        assert(s@.profiles =~= Seq::<ProfileView>::empty());
        assert(s@.effects =~= Seq::<CustomEffectView>::empty());
        s
    }

    /// Settings that may never be saved this session, for the reason given.
    pub fn blocked(reason: String) -> (s: Settings)
        ensures
            s@.profiles.len() == 0,
            s@.effects.len() == 0,
            s@.current_profile == spec_default_profile(),
            s@.active_slot == SlotSelection::First,
            s@.battery_alert,
            s@.save_blocked == Some(reason@),
    {
        let mut s = Settings::default_settings();
        s.save_blocked = Some(reason);
        s
    }

    /// Why a save must not happen, or `None` when it may. A blocked
    /// session answers with the reason it was blocked for.
    pub fn save_refusal(&self) -> (r: Option<String>)
        ensures
            self@.save_blocked matches Some(reason) ==> r matches Some(m) && m@ == spec_read_only_message(reason),
            self@.save_blocked.is_none() ==> r.is_none(),
    {
        match &self.save_blocked {
            Some(reason) => {
                let mut message = crate::text::owned("settings are read-only this session: ");
                crate::text::push_str(&mut message, reason.as_str());
                Some(message)
            },
            None => None,
        }
    }

    /// Whether the loaded profiles and custom effects are over the bounds
    /// new additions are held to. Existing entries are kept either way.
    pub fn over_bounds(&self) -> (r: (bool, bool))
        ensures
            r.0 == (self.profiles@.len() > crate::ipc::MAX_SAVED_PROFILES),
            r.1 == (self.effects@.len() > crate::ipc::MAX_SAVED_CUSTOM_EFFECTS),
    {
        (self.profiles.len() > crate::ipc::MAX_SAVED_PROFILES, self.effects.len()
            > crate::ipc::MAX_SAVED_CUSTOM_EFFECTS)
    }
}

/// A profile of the older file shape: one flat lighting with a name.
pub struct LegacyProfile {
    pub name: Option<String>,
    pub rgb_zones: [KeyboardZone; 4],
    pub effect: Effects,
    pub direction: Direction,
    pub speed: u8,
    pub brightness: Brightness,
}

impl LegacyProfile {
    pub open spec fn spec_lighting(&self) -> Lighting {
        Lighting {
            rgb_zones: self.rgb_zones,
            effect: self.effect,
            direction: self.direction,
            speed: self.speed,
            brightness: self.brightness,
        }
    }

    pub fn into_lighting(self) -> (l: Lighting)
        ensures
            l == self.spec_lighting(),
    {
        Lighting {
            rgb_zones: self.rgb_zones,
            effect: self.effect,
            direction: self.direction,
            speed: self.speed,
            brightness: self.brightness,
        }
    }

    pub fn lighting(&self) -> (l: Lighting)
        ensures
            l == self.spec_lighting(),
    {
        Lighting {
            rgb_zones: self.rgb_zones,
            effect: self.effect,
            direction: self.direction,
            speed: self.speed,
            brightness: self.brightness,
        }
    }
}

/// Settings of the older file shape.
pub struct LegacySettings {
    pub profiles: Vec<LegacyProfile>,
    pub effects: Vec<CustomEffect>,
    pub current_profile: LegacyProfile,
    /// Per-slot lighting, index 0 being slot 1. Empty on files that predate
    /// slots.
    pub hardware_slot_profiles: Vec<LegacyProfile>,
}

/// The lighting of slot `i` after conversion: the old per-slot entry where
/// there is one, the live lighting where the list runs short.
pub open spec fn spec_converted_slot(legacy: LegacySettings, i: int) -> Lighting {
    if i < legacy.hardware_slot_profiles@.len() {
        legacy.hardware_slot_profiles@[i].spec_lighting()
    } else {
        legacy.current_profile.spec_lighting()
    }
}

/// The slot the converted settings start on: the one slot showing the live
/// lighting, or the first when none or several do.
pub open spec fn spec_converted_active_slot(slots: Seq<Lighting>, live: Lighting) -> SlotSelection {
    match spec_slot_showing(slots, live) {
        Some(i) => if i == 0 {
            SlotSelection::First
        } else if i == 1 {
            SlotSelection::Second
        } else {
            SlotSelection::Third
        },
        None => SlotSelection::First,
    }
}

impl LegacySettings {
    /// Convert to the current shape. The old per-slot list becomes the
    /// live profile's slots (first three kept, short lists padded from the
    /// live lighting); each old saved profile becomes one whose three slots
    /// match; the live slot is recovered from the live lighting.
    pub fn into_settings(self) -> (s: Settings)
        ensures
            s@.current_profile.name == spec_name_view(self.current_profile.name),
            forall|i: int| 0 <= i < 3 ==> #[trigger] s.current_profile.slots@[i] == spec_converted_slot(self, i),
            s@.active_slot == spec_converted_active_slot(s.current_profile.slots@, self.current_profile.spec_lighting()),
            s@.profiles.len() == self.profiles@.len(),
            forall|i: int| 0 <= i < self.profiles@.len() ==> {
                &&& (#[trigger] s@.profiles[i]).name == spec_name_view(self.profiles@[i].name)
                &&& s@.profiles[i].slots == seq![
                    self.profiles@[i].spec_lighting(),
                    self.profiles@[i].spec_lighting(),
                    self.profiles@[i].spec_lighting(),
                ]
            },
            s@.effects == spec_effects_view(self.effects@),
            s@.battery_alert,
            s@.save_blocked.is_none(),
    {
        let ghost old_self = self;
        let live_name = crate::profile::clone_name(&self.current_profile.name);
        let live_lighting = self.current_profile.lighting();

        let mut slot_lightings: Vec<Lighting> = Vec::new();
        let mut i: usize = 0;
        while i < self.hardware_slot_profiles.len() && slot_lightings.len() < 3
            invariant
                old_self == self,
                live_lighting == self.current_profile.spec_lighting(),
                0 <= i <= self.hardware_slot_profiles@.len(),
                slot_lightings@.len() == i,
                i <= 3,
                forall|k: int| 0 <= k < i ==> #[trigger] slot_lightings@[k] == spec_converted_slot(self, k),
            decreases self.hardware_slot_profiles@.len() - i,
        {
            slot_lightings.push(self.hardware_slot_profiles[i].lighting());
            i = i + 1;
        }
        while slot_lightings.len() < 3
            invariant
                old_self == self,
                live_lighting == self.current_profile.spec_lighting(),
                slot_lightings@.len() <= 3,
                slot_lightings@.len() < 3 ==> slot_lightings@.len() >= self.hardware_slot_profiles@.len(),
                forall|k: int| 0 <= k < slot_lightings@.len() ==> #[trigger] slot_lightings@[k] == spec_converted_slot(self, k),
            decreases 3 - slot_lightings@.len(),
        {
            slot_lightings.push(live_lighting);
        }

        let slots: [Lighting; 3] = [slot_lightings[0], slot_lightings[1], slot_lightings[2]];
        let current_profile = Profile { name: live_name, slots };
        assert(forall|k: int| 0 <= k < 3 ==> #[trigger] slots@[k] == slot_lightings@[k]);

        let active_slot = match current_profile.slot_showing(&live_lighting) {
            Some(0) => SlotSelection::First,
            Some(1) => SlotSelection::Second,
            Some(2) => SlotSelection::Third,
            _ => SlotSelection::First,
        };
        proof {
            let showing = spec_slot_showing(slots@, live_lighting);
            assert(showing is Some ==> showing->0 < 3);
        }

        let mut profiles: Vec<Profile> = Vec::new();
        let mut j: usize = 0;
        while j < self.profiles.len()
            invariant
                old_self == self,
                0 <= j <= self.profiles@.len(),
                profiles@.len() == j,
                forall|k: int| 0 <= k < j ==> {
                    &&& (#[trigger] profiles@[k])@.name == spec_name_view(self.profiles@[k].name)
                    &&& profiles@[k].slots@ == seq![
                        self.profiles@[k].spec_lighting(),
                        self.profiles@[k].spec_lighting(),
                        self.profiles@[k].spec_lighting(),
                    ]
                },
            decreases self.profiles@.len() - j,
        {
            let name = crate::profile::clone_name(&self.profiles[j].name);
            let lighting = self.profiles[j].lighting();
            profiles.push(Profile::from_uniform_lighting(name, lighting));
            j = j + 1;
        }

        let s = Settings {
            profiles,
            effects: self.effects,
            current_profile,
            active_slot,
            battery_alert: true,
            save_blocked: None,
        };
        assert(s@.profiles.len() == old_self.profiles@.len());
        s
    }
}

/// How many numbered backups of a v1 file are tried before giving up on
/// securing one. A conversion that cannot back the original up is never
/// written.
pub const MAX_BACKUP_ATTEMPTS: u32 = 16;

/// The extension of backup candidate `attempt` of a v1 settings file:
/// `json.v1-backup`, then `json.v1-backup.1`, `json.v1-backup.2`, ...
pub fn backup_extension(attempt: u32) -> (r: String)
    ensures
        attempt == 0 ==> r@ == "json.v1-backup"@,
        attempt > 0 ==> r@ == "json.v1-backup."@ + crate::text::spec_decimal(attempt as nat),
{
    if attempt == 0 {
        return crate::text::owned("json.v1-backup");
    }
    let mut r = crate::text::owned("json.v1-backup.");
    crate::text::push_decimal(&mut r, attempt as u64);
    r
}

/// Why no backup could be secured once every candidate name is taken.
pub fn backups_exhausted() -> (r: String)
    ensures
        r@ == crate::text::spec_decimal(MAX_BACKUP_ATTEMPTS as nat) + " backup names already taken"@,
{
    let mut r = String::new();
    crate::text::push_decimal(&mut r, MAX_BACKUP_ATTEMPTS as u64);
    crate::text::push_str(&mut r, " backup names already taken");
    r
}

/// What reading the settings file found.
pub enum SettingsFile {
    /// The file could not be read; the error's text.
    Unreadable(String),
    /// The contents are in the current shape.
    Current(Settings),
    /// The contents are in the v1 shape only; `backup` is how securing a
    /// copy of the v1 file went (the failure's text).
    Legacy { legacy: LegacySettings, backup: Result<(), String> },
    /// The contents are in neither shape; the parse error's text. The
    /// file has been copied aside.
    Unparseable(String),
}

impl Settings {
    /// The settings a file at `path` gives. Never fails: an unreadable or
    /// unparseable file gives defaults that may not be saved, so the file
    /// is never overwritten; a v1 file is converted, and may be saved over
    /// only once a backup of it was secured.
    pub fn from_file(path: &str, file: SettingsFile) -> (s: Settings)
        ensures
            file matches SettingsFile::Unreadable(e) ==> s@ == Settings::spec_blocked(
                "could not read "@ + path@ + ": "@ + e@,
            ),
            file matches SettingsFile::Unparseable(e) ==> s@ == Settings::spec_blocked(
                "could not parse "@ + path@ + ": "@ + e@,
            ),
            file matches SettingsFile::Current(c) ==> s@ == c@,
            file matches SettingsFile::Legacy { legacy, backup } ==> {
                &&& s@.current_profile.name == spec_name_view(legacy.current_profile.name)
                &&& forall|i: int| 0 <= i < 3 ==> #[trigger] s.current_profile.slots@[i] == spec_converted_slot(legacy, i)
                &&& s@.active_slot == spec_converted_active_slot(
                    s.current_profile.slots@,
                    legacy.current_profile.spec_lighting(),
                )
                &&& s@.profiles.len() == legacy.profiles@.len()
                &&& forall|i: int| 0 <= i < legacy.profiles@.len() ==> {
                    &&& (#[trigger] s@.profiles[i]).name == spec_name_view(legacy.profiles@[i].name)
                    &&& s@.profiles[i].slots == seq![
                        legacy.profiles@[i].spec_lighting(),
                        legacy.profiles@[i].spec_lighting(),
                        legacy.profiles@[i].spec_lighting(),
                    ]
                }
                &&& s@.effects == spec_effects_view(legacy.effects@)
                &&& s@.battery_alert
                &&& s@.save_blocked == match backup {
                    Ok(()) => None,
                    Err(m) => Some("could not back up the v1 settings file: "@ + m@),
                }
            },
    {
        match file {
            SettingsFile::Unreadable(error) => {
                let mut reason = crate::text::owned("could not read ");
                crate::text::push_str(&mut reason, path);
                crate::text::push_str(&mut reason, ": ");
                crate::text::push_str(&mut reason, error.as_str());
                let s = Settings::blocked(reason);
                assert(s@.profiles =~= Seq::<ProfileView>::empty());
                assert(s@.effects =~= Seq::<CustomEffectView>::empty());
                s
            },
            SettingsFile::Unparseable(error) => {
                let mut reason = crate::text::owned("could not parse ");
                crate::text::push_str(&mut reason, path);
                crate::text::push_str(&mut reason, ": ");
                crate::text::push_str(&mut reason, error.as_str());
                let s = Settings::blocked(reason);
                assert(s@.profiles =~= Seq::<ProfileView>::empty());
                assert(s@.effects =~= Seq::<CustomEffectView>::empty());
                s
            },
            SettingsFile::Current(settings) => settings,
            SettingsFile::Legacy { legacy, backup } => {
                let mut settings = legacy.into_settings();
                match backup {
                    Ok(()) => {},
                    Err(message) => {
                        let mut reason = crate::text::owned("could not back up the v1 settings file: ");
                        crate::text::push_str(&mut reason, message.as_str());
                        settings.save_blocked = Some(reason);
                    },
                }
                settings
            },
        }
    }

    /// The settings of a blocked session, as contracts see them.
    pub open spec fn spec_blocked(reason: Seq<char>) -> SettingsView {
        SettingsView {
            profiles: Seq::empty(),
            effects: Seq::empty(),
            current_profile: spec_default_profile(),
            active_slot: SlotSelection::First,
            battery_alert: true,
            save_blocked: Some(reason),
        }
    }

    /// Settings migrated from an older location may be saved at the new
    /// one: the original stays untouched where it was.
    pub fn unblocked(self) -> (s: Settings)
        ensures
            s@ == (SettingsView { save_blocked: None, ..self@ }),
    {
        let mut s = self;
        s.save_blocked = None;
        s
    }
}

} // verus!
