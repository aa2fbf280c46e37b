//! Properties of the daemon that hold across its operations.
use vstd::prelude::*;

use crate::battery::Reading;
use crate::daemon::{
    spec_add_custom_effect, spec_add_profile, spec_advance_slot, spec_alert_showing, spec_battery_alert_lighting,
    spec_battery_reading, spec_cycle_profile, spec_effect_names, spec_cycle_target, spec_delete_profile, spec_first_from,
    spec_handle_command, spec_handle_request, spec_lighting_to_show, spec_off_refusal, spec_position,
    spec_profile_names, spec_refused, spec_set_lighting, spec_set_profile, spec_switch_profile, Command, CoreView,
};
use crate::ipc::{ErrorKind, Request, ResponseView, SlotSelection, MAX_SAVED_CUSTOM_EFFECTS, MAX_SAVED_PROFILES};
use crate::profile::{spec_battery_gauge_array, spec_charge_in_zone, spec_rgb_array, spec_rgb_byte, Lighting, ProfileView};
use crate::doctor::{
    lemma_words_nonempty, lemma_wrap_state_fits, lemma_wrap_state_keeps_words, spec_utf8_len, spec_words, spec_wrap,
    spec_wrap_state,
};
use crate::netlink::{
    law_u16_round_trip, law_u32_round_trip, spec_align4, spec_family_query, spec_read_u16, spec_read_u32,
    spec_split, spec_split_from, spec_u16_bytes, spec_u32_bytes, spec_walk, spec_walk_from, ByteOrder,
    ACPI_FAMILY_NAME, CTRL_ATTR_FAMILY_NAME, GENL_ID_CTRL,
};
use crate::battery::spec_lex_le;
use crate::effects::Direction;
use crate::frames::spec_rotated;
use crate::keyboard::spec_backoff_delay;
use crate::text::spec_join;
use crate::gui::{spec_edit_changes, spec_edited, LightingEdit};
use crate::driver::{spec_build, BaseEffects, LightingState};
use crate::cli::{spec_effect_name, spec_effect_named};
use crate::effects::{spec_effect_position, Effects, EFFECT_COUNT};
use crate::daemon::spec_delete_custom_effect;
use crate::engine::{spec_lighting_writes, EngineWriteView};
use crate::settings::spec_converted_active_slot;
use crate::equality::spec_lighting_eq;

verus! {

/// A refused request changes nothing: whenever the daemon answers a
/// request with an error, its state (including the work it asks for) is
/// exactly what it was.
pub proof fn law_refused_request_changes_nothing(c: CoreView, request: Request)
    ensures
        spec_handle_request(c, request).1 is Error ==> spec_handle_request(c, request).0 == c,
{
    match request {
        Request::PlayCustomEffectByName { name } => {
            match spec_position(spec_effect_names(c.settings.effects), Some(name@)) {
                Some(i) => {},
                None => {},
            }
        },
        Request::SwitchProfile { name } => {},
        Request::CycleProfile => {},
        _ => {},
    }
}

/// The live profile and the profile the settings file is written from
/// agree after every request, once they agree: a profile change is always
/// recorded for saving.
pub proof fn law_saved_profile_follows_live_profile(c: CoreView, request: Request)
    requires
        c.settings.current_profile == c.current_profile,
    ensures
        spec_handle_request(c, request).0.settings.current_profile == spec_handle_request(c, request).0.current_profile,
{
    match request {
        Request::SetProfile { profile } => {},
        Request::SetLighting { slot, lighting } => {},
        Request::SelectSlot { slot } => {},
        Request::PlayCustomEffectByName { name } => {},
        Request::AddProfile { profile } => {
            lemma_first_from_is_first(spec_profile_names(c.settings.profiles), profile@.name, 0);
        },
        Request::DeleteProfile { name } => {},
        Request::SwitchProfile { name } => {},
        Request::CycleProfile => {},
        Request::AddCustomEffect { effect } => {},
        Request::DeleteCustomEffect { name } => {},
        Request::SetBatteryAlert { enabled } => {},
        _ => {},
    }
}

/// The same agreement survives every event that is not a request, and
/// every battery sample.
pub proof fn law_saved_profile_follows_live_profile_on_events(c: CoreView, command: Command, reading: Reading)
    requires
        c.settings.current_profile == c.current_profile,
    ensures
        spec_handle_command(c, command).settings.current_profile == spec_handle_command(c, command).current_profile,
        spec_battery_reading(c, reading).settings.current_profile == spec_battery_reading(c, reading).current_profile,
{
    match command {
        Command::CycleProfile => {},
        Command::HardwareSlotEvent => {},
        Command::ShutdownSignal => {},
        Command::SubsystemStatus { subsystem, state } => {},
    }
}

/// A battery sample never touches the live profile, the live slot or the
/// settings: the alert only changes what the keyboard is shown.
pub proof fn law_battery_alert_never_reaches_settings(c: CoreView, reading: Reading)
    ensures
        spec_battery_reading(c, reading).current_profile == c.current_profile,
        spec_battery_reading(c, reading).active_slot == c.active_slot,
        spec_battery_reading(c, reading).settings == c.settings,
        !spec_battery_reading(c, reading).settings_dirty || c.settings_dirty,
{
}

/// While the alert is showing the keyboard shows the alert; otherwise it
/// shows the live slot's own lighting, or darkness when the backlight is
/// off. Off stays off even on a low battery.
pub proof fn law_what_the_keyboard_shows(c: CoreView)
    ensures
        spec_alert_showing(c) ==> spec_lighting_to_show(c) == spec_battery_alert_lighting(),
        c.active_slot == SlotSelection::Off ==> !spec_alert_showing(c) && spec_lighting_to_show(c)
            == crate::profile::spec_default_lighting(),
        !c.battery_alert_active ==> (c.active_slot.spec_index() matches Some(i) ==> spec_lighting_to_show(c)
            == c.current_profile.slots[i as int]),
{
}

/// Switching profiles keeps the live slot: the user keeps looking at the
/// same position, with the new profile's lighting in it.
pub proof fn law_profile_switch_keeps_the_slot(c: CoreView, p: ProfileView)
    ensures
        spec_set_profile(c, p).0.active_slot == c.active_slot,
        spec_set_profile(c, p).1 == ResponseView::Done ==> spec_set_profile(c, p).0.current_profile == p,
{
}

/// Four Fn+Space presses bring the live slot back where it started.
pub proof fn law_four_presses_return(c: CoreView)
    ensures
        spec_advance_slot(spec_advance_slot(spec_advance_slot(spec_advance_slot(c)))).active_slot == c.active_slot,
{
}

/// Editing the off position is refused.
pub proof fn law_off_holds_no_lighting(c: CoreView, l: crate::profile::Lighting)
    requires
        c.active_slot == SlotSelection::Off,
    ensures
        spec_set_lighting(c, None, l) == (c, spec_refused(ErrorKind::InvalidRequest, spec_off_refusal())),
        spec_set_lighting(c, Some(SlotSelection::Off), l) == (c, spec_refused(
            ErrorKind::InvalidRequest,
            spec_off_refusal(),
        )),
{
}

proof fn lemma_first_from_none(names: Seq<Option<Seq<char>>>, target: Option<Seq<char>>, k: int)
    requires
        0 <= k,
        forall|j: int| k <= j < names.len() ==> names[j] != target,
    ensures
        spec_first_from(names, target, k) is None,
    decreases names.len() - k,
{
    if k < names.len() {
        lemma_first_from_none(names, target, k + 1);
    }
}

proof fn lemma_first_from_found(names: Seq<Option<Seq<char>>>, target: Option<Seq<char>>, k: int, i: int)
    requires
        0 <= k <= i < names.len(),
        names[i] == target,
        forall|j: int| k <= j < i ==> names[j] != target,
    ensures
        spec_first_from(names, target, k) == Some(i),
    decreases i - k,
{
    if k < i {
        lemma_first_from_found(names, target, k + 1, i);
    }
}

proof fn lemma_first_from_is_first(names: Seq<Option<Seq<char>>>, target: Option<Seq<char>>, k: int)
    requires
        0 <= k,
    ensures
        spec_first_from(names, target, k) matches Some(i) ==> k <= i < names.len() && names[i] == target && forall|j: int|
            k <= j < i ==> names[j] != target,
        spec_first_from(names, target, k) is None ==> forall|j: int| k <= j < names.len() ==> names[j] != target,
    decreases names.len() - k,
{
    if k < names.len() {
        lemma_first_from_is_first(names, target, k + 1);
    }
}

/// Saving a profile and then switching to it by name makes that profile
/// the live one: a switch reads back what a save wrote.
pub proof fn law_switch_reads_back_saved_profile(c: CoreView, p: ProfileView, name: Seq<char>)
    requires
        p.name == Some(name),
        spec_add_profile(c, p).1 == ResponseView::Done,
    ensures
        spec_switch_profile(spec_add_profile(c, p).0, name).1 == ResponseView::Done,
        spec_switch_profile(spec_add_profile(c, p).0, name).0.current_profile == p,
{
    let c1 = spec_add_profile(c, p).0;
    let before = spec_profile_names(c.settings.profiles);
    let after = spec_profile_names(c1.settings.profiles);
    lemma_first_from_is_first(before, Some(name), 0);
    match spec_position(before, Some(name)) {
        Some(i) => {
            assert(c1.settings.profiles == c.settings.profiles.update(i, p));
            assert forall|j: int| 0 <= j < i implies after[j] != Some(name) by {
                assert(after[j] == before[j]);
            }
            lemma_first_from_found(after, Some(name), 0, i);
        },
        None => {
            let n = c.settings.profiles.len() as int;
            assert(c1.settings.profiles == c.settings.profiles.push(p));
            assert forall|j: int| 0 <= j < n implies after[j] != Some(name) by {
                assert(after[j] == before[j]);
            }
            lemma_first_from_found(after, Some(name), 0, n);
        },
    }
}

/// Saving a profile under a new name and deleting that name gives back the
/// saved profiles exactly as they were.
pub proof fn law_delete_undoes_add(c: CoreView, p: ProfileView, name: Seq<char>)
    requires
        p.name == Some(name),
        spec_position(spec_profile_names(c.settings.profiles), Some(name)) is None,
        spec_add_profile(c, p).1 == ResponseView::Done,
    ensures
        spec_delete_profile(spec_add_profile(c, p).0, name).1 == ResponseView::Done,
        spec_delete_profile(spec_add_profile(c, p).0, name).0.settings.profiles == c.settings.profiles,
{
    let c1 = spec_add_profile(c, p).0;
    let before = spec_profile_names(c.settings.profiles);
    let after = spec_profile_names(c1.settings.profiles);
    let n = c.settings.profiles.len() as int;
    lemma_first_from_is_first(before, Some(name), 0);
    assert(c1.settings.profiles == c.settings.profiles.push(p));
    assert forall|j: int| 0 <= j < n implies after[j] != Some(name) by {
        assert(after[j] == before[j]);
    }
    lemma_first_from_found(after, Some(name), 0, n);
    assert(c.settings.profiles.push(p).remove(n) =~= c.settings.profiles);
}

/// Saving never takes the saved profiles or custom effects past their
/// limits when they were within them.
pub proof fn law_saved_lists_stay_bounded(c: CoreView, p: ProfileView, e: crate::custom_effect::CustomEffectView)
    requires
        c.settings.profiles.len() <= MAX_SAVED_PROFILES,
        c.settings.effects.len() <= MAX_SAVED_CUSTOM_EFFECTS,
    ensures
        spec_add_profile(c, p).0.settings.profiles.len() <= MAX_SAVED_PROFILES,
        spec_add_custom_effect(c, e).0.settings.effects.len() <= MAX_SAVED_CUSTOM_EFFECTS,
{
    match p.name {
        Some(n) => lemma_first_from_is_first(spec_profile_names(c.settings.profiles), Some(n), 0),
        None => {},
    }
    match e.name {
        Some(n) => lemma_first_from_is_first(spec_effect_names(c.settings.effects), Some(n), 0),
        None => {},
    }
}

/// Cycling moves to the saved profile after the live one, wrapping at the
/// end; an unsaved live profile cycles to the first saved one.
pub proof fn law_cycle_visits_the_next_profile(c: CoreView)
    requires
        c.settings.profiles.len() > 0,
        spec_cycle_profile(c).1 == ResponseView::Done,
    ensures
        spec_cycle_profile(c).0.current_profile == c.settings.profiles[spec_cycle_target(c)],
        0 <= spec_cycle_target(c) < c.settings.profiles.len(),
{
    lemma_first_from_is_first(spec_profile_names(c.settings.profiles), c.current_profile.name, 0);
}

/// Wrapping keeps every word: the wrapped lines joined by single spaces
/// are the text's words joined by single spaces, so no word is lost, cut
/// or reordered.
pub proof fn law_wrap_keeps_every_word(text: Seq<char>, width: nat)
    ensures
        spec_join(spec_wrap(text, width), seq![' ']) == spec_join(spec_words(text), seq![' ']),
{
    let words = spec_words(text);
    lemma_words_nonempty(text);
    if words.len() > 0 {
        lemma_wrap_state_keeps_words(words, width);
    } else {
        assert(spec_wrap_state(words, width) == (Seq::<Seq<char>>::empty(), Seq::<char>::empty()));
    }
}

/// Every wrapped line fits the width, in bytes, unless it is a single word
/// longer than the width, which gets a line of its own.
pub proof fn law_wrapped_lines_fit(text: Seq<char>, width: nat)
    ensures
        forall|i: int|
            0 <= i < spec_wrap(text, width).len() ==> spec_utf8_len(#[trigger] spec_wrap(text, width)[i]) <= width
                || spec_words(text).contains(spec_wrap(text, width)[i]),
{
    let words = spec_words(text);
    lemma_wrap_state_fits(words, width);
    let (lines, line) = spec_wrap_state(words, width);
    let wrapped = spec_wrap(text, width);
    assert forall|i: int| 0 <= i < wrapped.len() implies spec_utf8_len(#[trigger] wrapped[i]) <= width
        || words.contains(wrapped[i]) by {
        if i < lines.len() {
            assert(wrapped[i] == lines[i]);
        }
    }
}

/// A full battery leaves the gauge showing the slot's own colors,
/// untouched.
pub proof fn law_full_gauge_is_the_own_lighting(l: Lighting)
    ensures
        spec_battery_gauge_array(l, 100) == spec_rgb_array(l),
{
    assert forall|i: int| 0 <= i < 12 implies spec_battery_gauge_array(l, 100)[i] == spec_rgb_array(l)[i] by {
        assert(spec_charge_in_zone(100, i / 3) == 25);
    }
    assert(spec_battery_gauge_array(l, 100) =~= spec_rgb_array(l));
}

/// An empty battery leaves nothing lit.
pub proof fn law_empty_gauge_is_dark(l: Lighting)
    ensures
        spec_battery_gauge_array(l, 0) == Seq::new(12, |i: int| 0u8),
{
    assert(spec_battery_gauge_array(l, 0) =~= Seq::new(12, |i: int| 0u8));
}

/// A charge reported above full reads as full.
pub proof fn law_gauge_clamps_above_full(l: Lighting, percent: u8)
    requires
        percent > 100,
    ensures
        spec_battery_gauge_array(l, percent) == spec_battery_gauge_array(l, 100),
{
    assert(spec_battery_gauge_array(l, percent) =~= spec_battery_gauge_array(l, 100));
}

/// The gauge only dims: no byte is ever brighter than the slot's own
/// color, so it picks no color of its own and a zone the user turned off
/// stays dark.
pub proof fn law_gauge_never_brightens(l: Lighting, percent: u8)
    ensures
        forall|i: int| 0 <= i < 12 ==> #[trigger] spec_battery_gauge_array(l, percent)[i] <= spec_rgb_array(l)[i],
{
    assert forall|i: int| 0 <= i < 12 implies #[trigger] spec_battery_gauge_array(l, percent)[i] <= spec_rgb_array(
        l,
    )[i] by {
        let c = spec_rgb_byte(l.rgb_zones, i) as int;
        let z = spec_charge_in_zone(percent, i / 3);
        assert(0 <= z <= 25);
        assert(c * z / 25 <= c) by (nonlinear_arith)
            requires
                0 <= c <= 255,
                0 <= z <= 25,
        ;
        assert(0 <= c * z / 25) by (nonlinear_arith)
            requires
                0 <= c <= 255,
                0 <= z <= 25,
        ;
    }
}

/// The gauge empties from the right: as the charge falls, no zone grows
/// brighter, and a zone is dimmed only once every zone to its right is
/// dark.
pub proof fn law_gauge_empties_from_the_right(l: Lighting, lower: u8, higher: u8, zone: int)
    requires
        lower <= higher,
        0 <= zone < 3,
    ensures
        spec_charge_in_zone(lower, zone) <= spec_charge_in_zone(higher, zone),
        spec_charge_in_zone(lower, zone) < 25 ==> spec_charge_in_zone(lower, zone + 1) == 0,
{
}

/// The family query reads back through the library's own parser as what
/// it is: one control message, and inside it (after the generic netlink
/// header) one FAMILY_NAME attribute holding the nul-terminated family
/// name, in either byte order.
pub proof fn law_family_query_reads_back(o: ByteOrder)
    ensures
        spec_split(spec_family_query(o), o) == seq![(GENL_ID_CTRL, spec_family_query(o).subrange(16, 36))],
        spec_walk(spec_family_query(o).subrange(20, 36), o) == seq![
            (CTRL_ATTR_FAMILY_NAME, ACPI_FAMILY_NAME@ + seq![0u8]),
        ],
{
    let q = spec_family_query(o);
    law_u32_round_trip(36, o);
    law_u16_round_trip(GENL_ID_CTRL, o);
    law_u16_round_trip(15, o);
    law_u16_round_trip(CTRL_ATTR_FAMILY_NAME, o);
    assert(q.len() == 36);
    assert(q.subrange(0, 4) =~= spec_u32_bytes(36, o));
    assert(q.subrange(4, 6) =~= spec_u16_bytes(GENL_ID_CTRL, o));
    assert(q.subrange(20, 22) =~= spec_u16_bytes(15, o));
    assert(q.subrange(22, 24) =~= spec_u16_bytes(CTRL_ATTR_FAMILY_NAME, o));
    assert(spec_read_u32(q, 0, o) == Some(36u32));
    assert(spec_read_u16(q, 4, o) == Some(GENL_ID_CTRL));
    assert(spec_align4(36) == 36);
    assert(spec_split_from(q, 36, o) == Seq::<(u16, Seq<u8>)>::empty());
    assert(spec_split_from(q, 0, o) =~= seq![(GENL_ID_CTRL, q.subrange(16, 36))]);
    let b = q.subrange(20, 36);
    assert(b.len() == 16);
    assert(spec_read_u16(b, 0, o) == Some(15u16));
    assert(spec_read_u16(b, 2, o) == Some(CTRL_ATTR_FAMILY_NAME));
    assert(CTRL_ATTR_FAMILY_NAME % 16384 == CTRL_ATTR_FAMILY_NAME);
    assert(spec_align4(15) == 16);
    assert(spec_walk_from(b, 16, o) == Seq::<(u16, Seq<u8>)>::empty());
    assert(b.subrange(4, 15) =~= ACPI_FAMILY_NAME@ + seq![0u8]);
    assert(spec_walk_from(b, 0, o) =~= seq![(CTRL_ATTR_FAMILY_NAME, ACPI_FAMILY_NAME@ + seq![0u8])]);
}

/// Two battery names each sorting at or before the other are the same
/// name, so the battery chosen (the first by name of those that read) does
/// not depend on the order the directory lists them in.
pub proof fn law_battery_choice_ignores_listing_order(a: Seq<char>, b: Seq<char>)
    requires
        spec_lex_le(a, b),
        spec_lex_le(b, a),
    ensures
        a == b,
    decreases a.len(),
{
    if a.len() > 0 && b.len() > 0 && a[0] == b[0] {
        law_battery_choice_ignores_listing_order(a.drop_first(), b.drop_first());
        assert(a =~= seq![a[0]] + a.drop_first());
        assert(b =~= seq![b[0]] + b.drop_first());
    }
}

/// A swipe moved one zone left undoes a move one zone right, and the other
/// way round.
pub proof fn law_swipe_steps_undo_each_other(colors: Seq<u8>)
    requires
        colors.len() == 12,
    ensures
        spec_rotated(spec_rotated(colors, Direction::Left), Direction::Right) == colors,
        spec_rotated(spec_rotated(colors, Direction::Right), Direction::Left) == colors,
{
    let lr = spec_rotated(spec_rotated(colors, Direction::Left), Direction::Right);
    let rl = spec_rotated(spec_rotated(colors, Direction::Right), Direction::Left);
    assert forall|i: int| 0 <= i < 12 implies lr[i] == colors[i] && rl[i] == colors[i] by {
        lemma_rotation_indices(i);
    }
    assert(lr =~= colors);
    assert(rl =~= colors);
}

proof fn lemma_rotation_indices(i: int)
    requires
        0 <= i < 12,
    ensures
        ((i + 3) % 12 + 9) % 12 == i,
        ((i + 9) % 12 + 3) % 12 == i,
        (((i + 9) % 12 + 9) % 12 + 9) % 12 == (i + 3) % 12,
        (((i + 3) % 12 + 3) % 12 + 3) % 12 == (i + 9) % 12,
{
    if i < 3 {
        assert((i + 9) % 12 == i + 9);
        assert((i + 3) % 12 == i + 3);
    } else if i < 9 {
        assert((i + 9) % 12 == i - 3);
        assert((i + 3) % 12 == i + 3);
    } else {
        assert((i + 9) % 12 == i - 3);
        assert((i + 3) % 12 == i - 9);
    }
}

/// Four swipe steps the same way bring the colors back where they started.
pub proof fn law_four_swipe_steps_return(colors: Seq<u8>, direction: Direction)
    requires
        colors.len() == 12,
    ensures
        spec_rotated(spec_rotated(spec_rotated(spec_rotated(colors, direction), direction), direction), direction)
            == colors,
{
    let once = spec_rotated(colors, direction);
    let twice = spec_rotated(once, direction);
    let thrice = spec_rotated(twice, direction);
    let back = spec_rotated(thrice, direction);
    assert forall|i: int| 0 <= i < 12 implies back[i] == colors[i] by {
        lemma_rotation_indices(i);
        if direction == Direction::Left {
            lemma_rotation_indices((i + 9) % 12);
            assert(back[i] == thrice[(i + 9) % 12]);
            assert(thrice[(i + 9) % 12] == twice[((i + 9) % 12 + 9) % 12]);
            assert(twice[((i + 9) % 12 + 9) % 12] == once[(((i + 9) % 12 + 9) % 12 + 9) % 12]);
            assert(once[(i + 3) % 12] == colors[((i + 3) % 12 + 9) % 12]);
        } else {
            lemma_rotation_indices((i + 3) % 12);
            assert(back[i] == thrice[(i + 3) % 12]);
            assert(thrice[(i + 3) % 12] == twice[((i + 3) % 12 + 3) % 12]);
            assert(twice[((i + 3) % 12 + 3) % 12] == once[(((i + 3) % 12 + 3) % 12 + 3) % 12]);
            assert(once[(i + 9) % 12] == colors[((i + 9) % 12 + 3) % 12]);
        }
    }
    assert(back =~= colors);
}

/// The wait between acquisition attempts never shrinks as failures mount,
/// and settles at ten seconds.
pub proof fn law_backoff_never_shrinks(earlier: u32, later: u32)
    requires
        earlier <= later,
    ensures
        spec_backoff_delay(earlier) <= spec_backoff_delay(later),
        later >= 3 ==> spec_backoff_delay(later) == 10,
{
}

/// A widget echoing an edit back changes nothing: once an edit has been
/// applied, applying it again to the result changes nothing. (The ambient
/// saturation edit is left out: whether it differs is measured against the
/// value shown, by whoever reads the widget.)
pub proof fn law_echoed_edit_changes_nothing(l: Lighting, edit: LightingEdit, after: Lighting)
    requires
        spec_edited(l, edit, after),
        !(edit is AmbientSaturationPicked),
    ensures
        !spec_edit_changes(after, edit),
{
    match edit {
        LightingEdit::GlobalColorPicked { color } => {
            assert forall|i: int| 0 <= i < 4 implies #[trigger] after.rgb_zones@[i].rgb == color by {
                assert(after.rgb_zones@[i] == crate::gui::spec_zone_after(l, edit, i));
            }
        },
        LightingEdit::ZoneColorPicked { zone_index, color } => {
            if zone_index < 4 {
                assert(after.rgb_zones@[zone_index as int] == crate::gui::spec_zone_after(l, edit, zone_index as int));
            }
        },
        _ => {},
    }
}

/// The controller's report for a state it accepts: report id 0xcc, command
/// 0x16, the effect's code (static 1, breath 3, wave 4, smooth 6), the
/// speed and brightness as given, the twelve zone color bytes in place for
/// the static and breathing effects and zero for the others, and the
/// wave's direction flag: byte 19 for a left wave, byte 18 for a right
/// one, both clear for every other effect.
pub proof fn law_report_layout(s: LightingState)
    requires
        1 <= s.speed <= 4,
        1 <= s.brightness <= 2,
    ensures
        spec_build(s) matches Ok(r) && {
            &&& r.len() == 33
            &&& r[0] == 0xcc && r[1] == 0x16
            &&& r[2] == match s.effect_type {
                BaseEffects::Static => 1u8,
                BaseEffects::Breath => 3u8,
                BaseEffects::Smooth => 6u8,
                BaseEffects::LeftWave | BaseEffects::RightWave => 4u8,
            }
            &&& r[3] == s.speed && r[4] == s.brightness
            &&& forall|k: int| 0 <= k < 12 ==> #[trigger] r[5 + k] == if s.effect_type == BaseEffects::Static
                || s.effect_type == BaseEffects::Breath {
                s.rgb_values@[k]
            } else {
                0u8
            }
            &&& r[18] == (if s.effect_type == BaseEffects::RightWave { 1u8 } else { 0u8 })
            &&& r[19] == (if s.effect_type == BaseEffects::LeftWave { 1u8 } else { 0u8 })
            &&& r[17] == 0 && forall|k: int| 20 <= k < 33 ==> #[trigger] r[k] == 0
        },
{
    assert(crate::driver::SPEED_MIN == 1 && crate::driver::SPEED_MAX == 4);
    assert(crate::driver::BRIGHTNESS_MIN == 1 && crate::driver::BRIGHTNESS_MAX == 2);
}

/// The name an effect is read and printed by is its own variant name.
pub open spec fn spec_variant_name(e: Effects) -> Seq<char> {
    match e {
        Effects::Static => "Static"@,
        Effects::Breath => "Breath"@,
        Effects::Smooth => "Smooth"@,
        Effects::Wave => "Wave"@,
        Effects::Lightning => "Lightning"@,
        Effects::AmbientLight { .. } => "AmbientLight"@,
        Effects::SmoothWave { .. } => "SmoothWave"@,
        Effects::Swipe { .. } => "Swipe"@,
        Effects::Disco => "Disco"@,
        Effects::Christmas => "Christmas"@,
        Effects::Fade => "Fade"@,
        Effects::Temperature => "Temperature"@,
        Effects::Ripple => "Ripple"@,
        Effects::Battery => "Battery"@,
    }
}

/// Every effect is printed under its own variant name, and every name the
/// command line reads gives the effect of that name: reading an effect's
/// name and printing the effect read give back the same name.
pub proof fn law_effect_names_are_variant_names(e: Effects, i: int)
    requires
        0 <= i < EFFECT_COUNT,
    ensures
        spec_effect_name(spec_effect_position(e) as int) == spec_variant_name(e),
        spec_variant_name(spec_effect_named(i as nat)) == spec_effect_name(i),
        spec_effect_position(spec_effect_named(i as nat)) == i,
{
}

/// Deleting a saved custom effect by name removes exactly the first saved
/// effect with that name; every other saved effect survives, in order. A
/// name no saved effect has is refused and changes nothing.
pub proof fn law_delete_removes_the_named_custom_effect(c: CoreView, name: Seq<char>)
    ensures
        ({
            let (after, response) = spec_delete_custom_effect(c, name);
            let effects = c.settings.effects;
            ||| (response == ResponseView::Done && exists|i: int|
                #![trigger effects[i]]
                0 <= i < effects.len() && effects[i].name == Some(name) && (forall|j: int|
                    0 <= j < i ==> #[trigger] effects[j].name != Some(name)) && after.settings.effects
                    == effects.take(i) + effects.skip(i + 1))
            ||| (response is Error && after == c && forall|j: int|
                0 <= j < effects.len() ==> #[trigger] effects[j].name != Some(name))
        }),
{
    let names = spec_effect_names(c.settings.effects);
    lemma_first_from_is_first(names, Some(name), 0);
    let effects = c.settings.effects;
    match spec_position(names, Some(name)) {
        Some(i) => {
            assert forall|j: int| 0 <= j < i implies #[trigger] effects[j].name != Some(name) by {
                assert(names[j] == effects[j].name);
            }
            assert(names[i] == effects[i].name);
            assert(effects.remove(i) =~= effects.take(i) + effects.skip(i + 1));
        },
        None => {
            assert forall|j: int| 0 <= j < effects.len() implies #[trigger] effects[j].name != Some(name) by {
                assert(names[j] == effects[j].name);
            }
        },
    }
}

/// Saving a custom effect under a new name and deleting that name gives
/// back the saved effects exactly as they were.
pub proof fn law_delete_undoes_add_custom_effect(c: CoreView, e: crate::custom_effect::CustomEffectView, name: Seq<char>)
    requires
        e.name == Some(name),
        spec_position(spec_effect_names(c.settings.effects), Some(name)) is None,
        spec_add_custom_effect(c, e).1 == ResponseView::Done,
    ensures
        spec_delete_custom_effect(spec_add_custom_effect(c, e).0, name).1 == ResponseView::Done,
        spec_delete_custom_effect(spec_add_custom_effect(c, e).0, name).0.settings.effects == c.settings.effects,
{
    let c1 = spec_add_custom_effect(c, e).0;
    let before = spec_effect_names(c.settings.effects);
    let after = spec_effect_names(c1.settings.effects);
    let n = c.settings.effects.len() as int;
    lemma_first_from_is_first(before, Some(name), 0);
    assert(c1.settings.effects == c.settings.effects.push(e));
    assert forall|j: int| 0 <= j < n implies after[j] != Some(name) by {
        assert(after[j] == before[j]);
    }
    lemma_first_from_found(after, Some(name), 0, n);
    assert(c.settings.effects.push(e).remove(n) =~= c.settings.effects);
}

/// A controller effect's plan ends by starting the controller effect that
/// bears its name (a wave runs left or right as the lighting's direction
/// says), after the speed and brightness and, for the static and breathing
/// effects, the lighting's own zone colors. A software effect's plan only
/// puts the controller on a static base at the lighting's brightness.
pub proof fn law_plan_starts_the_named_controller_effect(l: Lighting)
    ensures
        match l.effect {
            Effects::Static | Effects::Breath => spec_lighting_writes(l).len() == 4 && spec_lighting_writes(l)[2]
                == EngineWriteView::Colors(spec_rgb_array(l)),
            Effects::Smooth | Effects::Wave => spec_lighting_writes(l).len() == 3,
            _ => spec_lighting_writes(l) == seq![
                EngineWriteView::Effect(BaseEffects::Static),
                EngineWriteView::Brightness(l.brightness.spec_level()),
            ],
        },
        l.effect.spec_is_built_in() ==> spec_lighting_writes(l).last() == EngineWriteView::Effect(
            match l.effect {
                Effects::Static => BaseEffects::Static,
                Effects::Breath => BaseEffects::Breath,
                Effects::Smooth => BaseEffects::Smooth,
                _ => if l.direction == Direction::Left {
                    BaseEffects::LeftWave
                } else {
                    BaseEffects::RightWave
                },
            },
        ),
        spec_lighting_writes(l)[1] == EngineWriteView::Brightness(l.brightness.spec_level()),
        l.effect.spec_is_built_in() ==> spec_lighting_writes(l)[0] == EngineWriteView::Speed(
            if l.speed < 1 {
                1u8
            } else if l.speed > 4 {
                4u8
            } else {
                l.speed
            },
        ),
{
    assert(crate::driver::SPEED_MIN == 1 && crate::driver::SPEED_MAX == 4);
    assert(spec_lighting_writes(l)[1] == EngineWriteView::Brightness(l.brightness.spec_level()));
    match l.effect {
        Effects::Static | Effects::Breath | Effects::Smooth | Effects::Wave => {},
        _ => {
            assert(spec_lighting_writes(l) =~= seq![
                EngineWriteView::Effect(BaseEffects::Static),
                EngineWriteView::Brightness(l.brightness.spec_level()),
            ]);
        },
    }
}

/// Settings carried over from the first format start on the slot that
/// shows the live lighting, when exactly one slot does; on the first slot
/// when none or several do.
pub proof fn law_migration_starts_on_the_live_slot(slots: Seq<Lighting>, live: Lighting, i: int)
    requires
        slots.len() == 3,
        0 <= i < 3,
    ensures
        spec_lighting_eq(slots[i], live) && (forall|j: int| 0 <= j < 3 && j != i ==> !spec_lighting_eq(#[trigger] slots[j], live))
            ==> spec_converted_active_slot(slots, live).spec_index() == Some(i as usize),
        (forall|j: int| 0 <= j < 3 ==> !spec_lighting_eq(#[trigger] slots[j], live)) ==> spec_converted_active_slot(
            slots,
            live,
        ) == SlotSelection::First,
        (exists|j: int, k: int|
            0 <= j < k < 3 && spec_lighting_eq(#[trigger] slots[j], live) && spec_lighting_eq(#[trigger] slots[k], live))
            ==> spec_converted_active_slot(slots, live) == SlotSelection::First,
{
    if spec_lighting_eq(slots[i], live) && (forall|j: int| 0 <= j < 3 && j != i ==> !spec_lighting_eq(#[trigger] slots[j], live)) {
        if i == 0 {
            assert(!spec_lighting_eq(slots[1], live) && !spec_lighting_eq(slots[2], live));
        } else if i == 1 {
            assert(!spec_lighting_eq(slots[0], live) && !spec_lighting_eq(slots[2], live));
        } else {
            assert(!spec_lighting_eq(slots[0], live) && !spec_lighting_eq(slots[1], live));
        }
    }
    if forall|j: int| 0 <= j < 3 ==> !spec_lighting_eq(#[trigger] slots[j], live) {
        assert(!spec_lighting_eq(slots[0], live) && !spec_lighting_eq(slots[1], live) && !spec_lighting_eq(slots[2], live));
    }
}

} // verus!
