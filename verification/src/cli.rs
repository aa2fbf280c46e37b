//! What the CLI subcommands decide: reading effect names, colors,
//! brightness and direction from their arguments, the lighting `set` asks
//! for, and what a daemon's answer means to the user. Printing and the
//! socket are the program's.
use vstd::prelude::*;

use crate::battery::{parse_u8, spec_parse_u8};
use crate::client::{ClientError, ClientErrorView};
use crate::effects::{spec_effect_position, Brightness, Direction, Effects, SwipeMode, EFFECT_COUNT};
use crate::ipc::{ErrorKind, Response, ResponseView};
use crate::profile::{arr_to_zones, KeyboardZone, Lighting};
use crate::text::{
    chars_of, owned, push_decimal, push_str, same_text, spec_decimal, spec_join, spec_trim, string_from_chars, trim_chars,
};

verus! {

/// The name of the effect at list position `index`, as the CLI reads and
/// prints it.
pub open spec fn spec_effect_name(index: int) -> Seq<char> {
    if index == 0 {
        "Static"@
    } else if index == 1 {
        "Breath"@
    } else if index == 2 {
        "Smooth"@
    } else if index == 3 {
        "Wave"@
    } else if index == 4 {
        "Lightning"@
    } else if index == 5 {
        "AmbientLight"@
    } else if index == 6 {
        "SmoothWave"@
    } else if index == 7 {
        "Swipe"@
    } else if index == 8 {
        "Disco"@
    } else if index == 9 {
        "Christmas"@
    } else if index == 10 {
        "Fade"@
    } else if index == 11 {
        "Temperature"@
    } else if index == 12 {
        "Ripple"@
    } else {
        "Battery"@
    }
}

fn name_at(index: usize) -> (r: &'static str)
    requires
        index < EFFECT_COUNT,
    ensures
        r@ == spec_effect_name(index as int),
{
    if index == 0 {
        "Static"
    } else if index == 1 {
        "Breath"
    } else if index == 2 {
        "Smooth"
    } else if index == 3 {
        "Wave"
    } else if index == 4 {
        "Lightning"
    } else if index == 5 {
        "AmbientLight"
    } else if index == 6 {
        "SmoothWave"
    } else if index == 7 {
        "Swipe"
    } else if index == 8 {
        "Disco"
    } else if index == 9 {
        "Christmas"
    } else if index == 10 {
        "Fade"
    } else if index == 11 {
        "Temperature"
    } else if index == 12 {
        "Ripple"
    } else {
        "Battery"
    }
}

/// An effect's name.
pub fn effect_name(effect: Effects) -> (r: String)
    ensures
        r@ == spec_effect_name(spec_effect_position(effect) as int),
{
    let index = match crate::effects::effect_index(effect) {
        Some(i) => i,
        None => 0,
    };
    owned(name_at(index))
}

/// The effect a name stands for, with its fields at their defaults (a
/// frame rate of 0, no boost, swipes changing colors without black).
pub open spec fn spec_effect_named(index: nat) -> Effects {
    if index == 5 {
        Effects::AmbientLight { fps: 0, saturation_boost_bits: 0 }
    } else {
        crate::effects::spec_effect_with_defaults(index as int)
    }
}

/// The names of all effects, in list order.
pub open spec fn spec_all_names() -> Seq<Seq<char>> {
    Seq::new(EFFECT_COUNT as nat, |i: int| spec_effect_name(i))
}

/// The names of all effects, in list order, as pickers offer them.
pub fn effect_names() -> (names: Vec<String>)
    ensures
        crate::text::spec_texts(names@) == spec_all_names(),
{
    let mut names: Vec<String> = Vec::new();
    let mut k: usize = 0;
    while k < EFFECT_COUNT
        invariant
            0 <= k <= EFFECT_COUNT,
            crate::text::spec_texts(names@) == spec_all_names().take(k as int),
        decreases EFFECT_COUNT - k,
    {
        let ghost before = names@;
        names.push(owned(name_at(k)));
        proof {
            assert(crate::text::spec_texts(names@) =~= crate::text::spec_texts(before).push(spec_effect_name(k as int)));
            assert(spec_all_names().take(k as int + 1) =~= spec_all_names().take(k as int).push(spec_effect_name(k as int)));
        }
        k = k + 1;
    }
    assert(spec_all_names().take(EFFECT_COUNT as int) =~= spec_all_names());
    names
}

/// The refusal of an unknown effect name.
pub open spec fn spec_unknown_effect(arg: Seq<char>) -> Seq<char> {
    "unknown effect '"@ + arg + "', expected one of: "@ + spec_join(spec_all_names(), ", "@)
}

/// Read an effect by its exact name.
pub fn parse_effect(arg: &str) -> (r: Result<Effects, String>)
    ensures
        (exists|i: int| 0 <= i < EFFECT_COUNT && #[trigger] spec_effect_name(i) == arg@) ==> (r matches Ok(e) && exists|i: int|
            0 <= i < EFFECT_COUNT && #[trigger] spec_effect_name(i) == arg@ && e == spec_effect_named(i as nat)),
        (forall|i: int| 0 <= i < EFFECT_COUNT ==> #[trigger] spec_effect_name(i) != arg@) ==> (r matches Err(m) && m@
            == spec_unknown_effect(arg@)),
{
    let mut i: usize = 0;
    while i < EFFECT_COUNT
        invariant
            0 <= i <= EFFECT_COUNT,
            forall|k: int| 0 <= k < i ==> #[trigger] spec_effect_name(k) != arg@,
        decreases EFFECT_COUNT - i,
    {
        if same_text(name_at(i), arg) {
            let effect = if i == 5 {
                Effects::AmbientLight { fps: 0, saturation_boost_bits: 0 }
            } else {
                match crate::effects::effect_by_index(i) {
                    Some(e) => e,
                    None => Effects::Static,
                }
            };
            return Ok(effect);
        }
        i = i + 1;
    }
    let names = effect_names();
    let mut m = owned("unknown effect '");
    push_str(&mut m, arg);
    push_str(&mut m, "', expected one of: ");
    let joined = crate::text::join(&names, ", ");
    push_str(&mut m, joined.as_str());
    Err(m)
}

/// Read a brightness: `Low` or `High`.
pub fn parse_brightness(arg: &str) -> (r: Result<Brightness, String>)
    ensures
        arg@ == "Low"@ ==> r == Ok::<Brightness, String>(Brightness::Low),
        arg@ == "High"@ ==> r == Ok::<Brightness, String>(Brightness::High),
        arg@ != "Low"@ && arg@ != "High"@ ==> (r matches Err(m) && m@ == "unknown brightness '"@ + arg@
            + "', expected Low or High"@),
{
    proof {
        reveal_strlit("Low");
        reveal_strlit("High");
        assert("Low"@.len() != "High"@.len());
    }
    if same_text(arg, "Low") {
        return Ok(Brightness::Low);
    }
    if same_text(arg, "High") {
        return Ok(Brightness::High);
    }
    let mut m = owned("unknown brightness '");
    push_str(&mut m, arg);
    push_str(&mut m, "', expected Low or High");
    Err(m)
}

/// Read a direction: `Left` or `Right`.
pub fn parse_direction(arg: &str) -> (r: Result<Direction, String>)
    ensures
        arg@ == "Left"@ ==> r == Ok::<Direction, String>(Direction::Left),
        arg@ == "Right"@ ==> r == Ok::<Direction, String>(Direction::Right),
        arg@ != "Left"@ && arg@ != "Right"@ ==> (r matches Err(m) && m@ == "unknown direction '"@ + arg@
            + "', expected Left or Right"@),
{
    proof {
        reveal_strlit("Left");
        reveal_strlit("Right");
        assert("Left"@.len() != "Right"@.len());
    }
    if same_text(arg, "Left") {
        return Ok(Direction::Left);
    }
    if same_text(arg, "Right") {
        return Ok(Direction::Right);
    }
    let mut m = owned("unknown direction '");
    push_str(&mut m, arg);
    push_str(&mut m, "', expected Left or Right");
    Err(m)
}

/// The pieces of a text split at every `sep`, scanning from the start:
/// those done and the one being read.
pub open spec fn spec_split_state(t: Seq<char>, sep: char) -> (Seq<Seq<char>>, Seq<char>)
    decreases t.len(),
{
    if t.len() == 0 {
        (seq![], seq![])
    } else {
        let (done, current) = spec_split_state(t.drop_last(), sep);
        if t.last() == sep {
            (done.push(current), seq![])
        } else {
            (done, current.push(t.last()))
        }
    }
}

/// `t` split at every `sep`, as `str::split` yields it: always at least one
/// piece, empty pieces kept.
pub open spec fn spec_split(t: Seq<char>, sep: char) -> Seq<Seq<char>> {
    spec_split_state(t, sep).0.push(spec_split_state(t, sep).1)
}

/// The byte values the pieces spell, or the refusal of the first that is
/// not a number from 0 to 255 (pieces are trimmed before reading).
pub open spec fn spec_piece_values(pieces: Seq<Seq<char>>) -> Result<Seq<u8>, Seq<char>>
    decreases pieces.len(),
{
    if pieces.len() == 0 {
        Ok(seq![])
    } else {
        match spec_piece_values(pieces.drop_last()) {
            Err(m) => Err(m),
            Ok(values) => match spec_parse_u8(spec_trim(pieces.last())) {
                Some(v) => Ok(values.push(v)),
                None => Err("'"@ + pieces.last() + "' is not a number between 0 and 255"@),
            },
        }
    }
}

/// The colors a `--colors` argument gives: twelve comma-separated numbers
/// from 0 to 255, or the refusal.
pub open spec fn spec_parse_colors(arg: Seq<char>) -> Result<Seq<u8>, Seq<char>> {
    match spec_piece_values(spec_split(arg, ',')) {
        Err(m) => Err(m),
        Ok(values) => if values.len() == 12 {
            Ok(values)
        } else {
            Err("expected 12 comma-separated values (4 RGB triplets), got "@ + spec_decimal(values.len()))
        },
    }
}

fn split_pieces(arg: &str) -> (pieces: Vec<Vec<char>>)
    ensures
        crate::doctor::spec_char_rows(pieces@) == spec_split(arg@, ','),
{
    let chars = chars_of(arg);
    let mut done: Vec<Vec<char>> = Vec::new();
    let mut current: Vec<char> = Vec::new();
    let mut i: usize = 0;
    assert(chars@.take(0) =~= seq![]);
    while i < chars.len()
        invariant
            chars@ == arg@,
            0 <= i <= chars@.len(),
            (crate::doctor::spec_char_rows(done@), current@) == spec_split_state(chars@.take(i as int), ','),
        decreases chars@.len() - i,
    {
        proof {
            assert(chars@.take(i as int + 1).drop_last() =~= chars@.take(i as int));
            assert(chars@.take(i as int + 1).last() == chars@[i as int]);
        }
        let c = chars[i];
        if c == ',' {
            let ghost d0 = done@;
            let ghost cv = current@;
            done.push(current);
            current = Vec::new();
            assert(crate::doctor::spec_char_rows(done@) =~= crate::doctor::spec_char_rows(d0).push(cv));
            assert(current@ =~= seq![]);
        } else {
            current.push(c);
        }
        i = i + 1;
    }
    assert(chars@.take(chars@.len() as int) =~= chars@);
    let ghost d0 = done@;
    let ghost cv = current@;
    done.push(current);
    assert(crate::doctor::spec_char_rows(done@) =~= crate::doctor::spec_char_rows(d0).push(cv));
    done
}

/// Read a `--colors` argument: four RGB triplets, comma-separated.
pub fn parse_colors(arg: &str) -> (r: Result<[u8; 12], String>)
    ensures
        match spec_parse_colors(arg@) {
            Ok(values) => r matches Ok(colors) && colors@ == values,
            Err(m) => r matches Err(e) && e@ == m,
        },
{
    let pieces = split_pieces(arg);
    let ghost pv = crate::doctor::spec_char_rows(pieces@);
    let mut parsed: Vec<u8> = Vec::new();
    let mut i: usize = 0;
    assert(pv.take(0) =~= seq![]);
    while i < pieces.len()
        invariant
            pv == crate::doctor::spec_char_rows(pieces@),
            pv == spec_split(arg@, ','),
            pv.len() == pieces@.len(),
            0 <= i <= pieces@.len(),
            spec_piece_values(pv.take(i as int)) == Ok::<Seq<u8>, Seq<char>>(parsed@),
        decreases pieces@.len() - i,
    {
        proof {
            assert(pv.take(i as int + 1).drop_last() =~= pv.take(i as int));
            assert(pv.take(i as int + 1).last() == pieces@[i as int]@);
        }
        let trimmed = trim_chars(pieces[i].as_slice());
        match parse_u8(trimmed.as_slice()) {
            Some(v) => {
                parsed.push(v);
            },
            None => {
                proof {
                    assert forall|j: int| i + 1 <= j <= pv.len() implies spec_piece_values(#[trigger] pv.take(j))
                        == spec_piece_values(pv.take(i as int + 1)) by {
                        lemma_piece_values_keeps_error(pv, i as int + 1, j);
                    }
                    assert(pv.take(pv.len() as int) =~= pv);
                }
                let mut m = owned("'");
                let piece = string_from_chars(pieces[i].as_slice());
                push_str(&mut m, piece.as_str());
                push_str(&mut m, "' is not a number between 0 and 255");
                return Err(m);
            },
        }
        i = i + 1;
    }
    assert(pv.take(pieces@.len() as int) =~= pv);
    if parsed.len() != 12 {
        let mut m = owned("expected 12 comma-separated values (4 RGB triplets), got ");
        push_decimal(&mut m, parsed.len() as u64);
        return Err(m);
    }
    let colors: [u8; 12] = [
        parsed[0],
        parsed[1],
        parsed[2],
        parsed[3],
        parsed[4],
        parsed[5],
        parsed[6],
        parsed[7],
        parsed[8],
        parsed[9],
        parsed[10],
        parsed[11],
    ];
    assert(colors@ =~= parsed@);
    Ok(colors)
}

proof fn lemma_piece_values_keeps_error(pieces: Seq<Seq<char>>, i: int, j: int)
    requires
        0 <= i <= j <= pieces.len(),
        spec_piece_values(pieces.take(i)) is Err,
    ensures
        spec_piece_values(pieces.take(j)) == spec_piece_values(pieces.take(i)),
    decreases j - i,
{
    if j > i {
        lemma_piece_values_keeps_error(pieces, i, j - 1);
        assert(pieces.take(j).drop_last() =~= pieces.take(j - 1));
    }
}

/// The lighting `aurora set` asks for: the colors are required by an
/// effect that shows them and ignored (black) otherwise; the direction
/// defaults to left.
pub open spec fn spec_set_lighting(
    effect: Effects,
    colors: Option<Seq<u8>>,
    brightness: Brightness,
    speed: u8,
    direction: Option<Direction>,
    l: Lighting,
) -> bool {
    &&& l.effect == effect
    &&& l.brightness == brightness
    &&& l.speed == speed
    &&& l.direction == match direction {
        Some(d) => d,
        None => Direction::Left,
    }
    &&& forall|z: int|
        0 <= z < 4 ==> (#[trigger] l.rgb_zones@[z]).enabled && l.rgb_zones@[z].rgb@ == if effect.spec_takes_color_array() {
            colors.unwrap().subrange(3 * z, 3 * z + 3)
        } else {
            seq![0u8, 0u8, 0u8]
        }
}

/// The lighting for `aurora set`, or the refusal of an effect that needs
/// colors when none were given.
pub fn lighting_for_set(
    effect: Effects,
    colors: Option<[u8; 12]>,
    brightness: Brightness,
    speed: u8,
    direction: Option<Direction>,
) -> (r: Result<Lighting, String>)
    ensures
        effect.spec_takes_color_array() && colors is None ==> (r matches Err(m) && m@ == "the "@
            + spec_effect_name(spec_effect_position(effect) as int) + " effect requires --colors"@),
        !(effect.spec_takes_color_array() && colors is None) ==> (r matches Ok(l) && spec_set_lighting(
            effect,
            match colors {
                Some(c) => Some(c@),
                None => None,
            },
            brightness,
            speed,
            direction,
            l,
        )),
{
    let rgb: [u8; 12] = if effect.takes_color_array() {
        match colors {
            Some(c) => c,
            None => {
                let mut m = owned("the ");
                let name = effect_name(effect);
                push_str(&mut m, name.as_str());
                push_str(&mut m, " effect requires --colors");
                return Err(m);
            },
        }
    } else {
        [0; 12]
    };
    let zones = arr_to_zones(rgb);
    let direction = match direction {
        Some(d) => d,
        None => Direction::Left,
    };
    let l = Lighting { rgb_zones: zones, effect, direction, speed, brightness };
    proof {
        assert forall|z: int| 0 <= z < 4 implies (#[trigger] l.rgb_zones@[z]).enabled && l.rgb_zones@[z].rgb@ == if effect.spec_takes_color_array() {
            colors.unwrap()@.subrange(3 * z, 3 * z + 3)
        } else {
            seq![0u8, 0u8, 0u8]
        } by {
            assert(l.rgb_zones@[z].rgb@ =~= rgb@.subrange(3 * z, 3 * z + 3));
        }
    }
    Ok(l)
}

/// An error kind's name, as the CLI prints it.
pub open spec fn spec_kind_name(kind: ErrorKind) -> Seq<char> {
    match kind {
        ErrorKind::KeyboardNotFound => "KeyboardNotFound"@,
        ErrorKind::PermissionDenied => "PermissionDenied"@,
        ErrorKind::NoSuchProfile => "NoSuchProfile"@,
        ErrorKind::NoSuchCustomEffect => "NoSuchCustomEffect"@,
        ErrorKind::InvalidRequest => "InvalidRequest"@,
        ErrorKind::Internal => "Internal"@,
    }
}

pub fn kind_name(kind: ErrorKind) -> (r: String)
    ensures
        r@ == spec_kind_name(kind),
{
    match kind {
        ErrorKind::KeyboardNotFound => owned("KeyboardNotFound"),
        ErrorKind::PermissionDenied => owned("PermissionDenied"),
        ErrorKind::NoSuchProfile => owned("NoSuchProfile"),
        ErrorKind::NoSuchCustomEffect => owned("NoSuchCustomEffect"),
        ErrorKind::InvalidRequest => owned("InvalidRequest"),
        ErrorKind::Internal => owned("Internal"),
    }
}

/// What a request's answer means to the user: the success message for a
/// done request, else the line to report on the error stream (without the
/// program's `aurora: ` prefix).
pub fn outcome(response: Result<Response, ClientError>, success_message: &str) -> (r: Result<String, String>)
    ensures
        match response {
            Ok(resp) => match resp@ {
                ResponseView::Done => r matches Ok(m) && m@ == success_message@,
                ResponseView::Error { kind, message } => r matches Err(m) && m@ == spec_kind_name(kind) + ": "@
                    + message,
                _ => r matches Err(m) && m@ == "unexpected response type"@,
            },
            Err(e) => r matches Err(m) && m@ == e.spec_describe(),
        },
{
    match response {
        Ok(Response::Done) => Ok(owned(success_message)),
        Ok(Response::Error { kind, message }) => {
            let mut m = kind_name(kind);
            push_str(&mut m, ": ");
            push_str(&mut m, message.as_str());
            Err(m)
        },
        Ok(_) => Err(owned("unexpected response type")),
        Err(error) => Err(error.describe()),
    }
}

/// Why a profile cannot be applied without a daemon: a software effect
/// needs a process that stays alive. `None` for a controller effect.
pub fn direct_apply_refusal(effect: Effects) -> (r: Option<String>)
    ensures
        effect.spec_is_built_in() ==> r is None,
        !effect.spec_is_built_in() ==> (r matches Some(m) && m@ == "no daemon is running, and the "@
            + spec_effect_name(spec_effect_position(effect) as int) + " effect needs one (it is software-driven)."@),
{
    if effect.is_built_in() {
        return None;
    }
    let mut m = owned("no daemon is running, and the ");
    let name = effect_name(effect);
    push_str(&mut m, name.as_str());
    push_str(&mut m, " effect needs one (it is software-driven).");
    Some(m)
}

/// The lines of `aurora list`: a heading, then each effect numbered from 1.
pub open spec fn spec_list_lines() -> Seq<Seq<char>> {
    seq!["List of available effects:"@] + Seq::new(
        EFFECT_COUNT as nat,
        |i: int| spec_decimal((i + 1) as nat) + ". "@ + spec_effect_name(i),
    )
}

pub fn list_lines() -> (lines: Vec<String>)
    ensures
        crate::text::spec_texts(lines@) == spec_list_lines(),
{
    let mut lines: Vec<String> = Vec::new();
    lines.push(owned("List of available effects:"));
    let mut i: usize = 0;
    while i < EFFECT_COUNT
        invariant
            0 <= i <= EFFECT_COUNT,
            crate::text::spec_texts(lines@) == spec_list_lines().take(i as int + 1),
        decreases EFFECT_COUNT - i,
    {
        let mut line = String::new();
        push_decimal(&mut line, (i + 1) as u64);
        push_str(&mut line, ". ");
        push_str(&mut line, name_at(i));
        let ghost before = lines@;
        let ghost lv = line@;
        lines.push(line);
        proof {
            assert(crate::text::spec_texts(lines@) =~= crate::text::spec_texts(before).push(lv));
            assert(spec_list_lines().take(i as int + 2) =~= spec_list_lines().take(i as int + 1).push(lv));
        }
        i = i + 1;
    }
    assert(spec_list_lines().take(EFFECT_COUNT as int + 1) =~= spec_list_lines());
    lines
}

} // verus!
