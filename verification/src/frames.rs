//! The frames the software effects write. Each effect's loop (its timing,
//! its random choices and the stop signal) is the engine thread's; what it
//! writes for a given choice is decided here.
use vstd::prelude::*;

use crate::battery::Reading;
use crate::engine::{EngineWrite, EngineWriteView};
use crate::effects::Direction;
use crate::profile::{spec_battery_gauge_array, Lighting};

verus! {

/// A swipe's fade takes this many steps at speed 1; faster speeds divide it.
pub const SWIPE_STEPS: u8 = 150;

/// The colors the disco effect picks from: red, yellow, green, cyan, blue,
/// magenta.
pub const DISCO_COLORS: [[u8; 3]; 6] = [[255, 0, 0], [255, 255, 0], [0, 255, 0], [0, 255, 255], [0, 0, 255], [255, 0, 255]];

/// The Christmas palette, as four zones: red, yellow, green, blue.
pub const CHRISTMAS_COLORS: [u8; 12] = [255, 10, 10, 255, 255, 20, 30, 255, 30, 70, 70, 255];

/// The two alternating looks of the Christmas blink: white on the odd
/// zones, then on the even ones.
pub const CHRISTMAS_BLINK_A: [u8; 12] = [255, 255, 255, 0, 0, 0, 255, 255, 255, 0, 0, 0];

pub const CHRISTMAS_BLINK_B: [u8; 12] = [0, 0, 0, 255, 255, 255, 0, 0, 0, 255, 255, 255];

/// Fade steps scaled down by speed (a software speed is at least 1).
pub fn steps_at_speed(steps: u8, speed: u8) -> (r: u8)
    requires
        speed >= 1,
    ensures
        r == steps / speed,
{
    steps / speed
}

/// The disco effect's pause between zone changes: faster speeds pause less.
pub fn disco_interval_ms(speed: u8) -> (ms: u64)
    requires
        speed >= 1,
    ensures
        ms == 2000int / (speed as int * 4),
{
    2000 / (speed as u64 * 4)
}

/// A swipe's colors moved one zone along: towards the right for a left
/// swipe (each zone takes its left neighbour's color), towards the left for
/// a right one, wrapping round.
pub open spec fn spec_rotated(colors: Seq<u8>, direction: Direction) -> Seq<u8> {
    Seq::new(
        12,
        |i: int|
            if direction == Direction::Left {
                colors[(i + 9) % 12]
            } else {
                colors[(i + 3) % 12]
            },
    )
}

pub fn rotate_zones(colors: [u8; 12], direction: Direction) -> (r: [u8; 12])
    ensures
        r@ == spec_rotated(colors@, direction),
{
    let mut r: [u8; 12] = [0; 12];
    let mut i: usize = 0;
    while i < 12
        invariant
            0 <= i <= 12,
            forall|k: int| 0 <= k < i ==> r@[k] == spec_rotated(colors@, direction)[k],
        decreases 12 - i,
    {
        let from: usize = match direction {
            Direction::Left => (i + 9) % 12,
            Direction::Right => (i + 3) % 12,
        };
        r[i] = colors[from];
        i = i + 1;
    }
    assert(r@ =~= spec_rotated(colors@, direction));
    r
}

/// The lightning effect's flash: the chosen zone in its own color, the rest
/// dark.
pub open spec fn spec_flash(colors: Seq<u8>, zone: int) -> Seq<u8> {
    Seq::new(12, |i: int| if i / 3 == zone { colors[i] } else { 0u8 })
}

pub fn lightning_flash(colors: [u8; 12], zone: usize) -> (r: [u8; 12])
    requires
        zone < 4,
    ensures
        r@ == spec_flash(colors@, zone as int),
{
    let mut r: [u8; 12] = [0; 12];
    let start = zone * 3;
    r[start] = colors[start];
    r[start + 1] = colors[start + 1];
    r[start + 2] = colors[start + 2];
    assert(r@ =~= spec_flash(colors@, zone as int));
    r
}

/// The position of the `k`th zone a sweep visits: left to right, or right
/// to left.
pub open spec fn spec_zone_order(k: int, right_to_left: bool) -> int {
    if right_to_left {
        3 - k
    } else {
        k
    }
}

/// Writes per color of a sweep: its four zones, then, when cleaning with
/// black, the same four dark again.
pub open spec fn spec_writes_per_color(clean_with_black: bool) -> int {
    if clean_with_black {
        8
    } else {
        4
    }
}

/// The zone and the color write `k` of a sweep paints.
pub open spec fn spec_sweep_write(palette: Seq<u8>, right_to_left: bool, clean_with_black: bool, k: int) -> (int, Seq<u8>) {
    let per = spec_writes_per_color(clean_with_black);
    let color = k / per;
    let within = k % per;
    if within < 4 {
        (spec_zone_order(within, right_to_left), palette.subrange(3 * color, 3 * color + 3))
    } else {
        (spec_zone_order(within - 4, right_to_left), seq![0u8, 0u8, 0u8])
    }
}

/// The keyboard's colors after the first `j` writes of a sweep that began
/// on `start`: each write paints one zone.
pub open spec fn spec_sweep_state(
    start: Seq<u8>,
    palette: Seq<u8>,
    right_to_left: bool,
    clean_with_black: bool,
    j: nat,
) -> Seq<u8>
    decreases j,
{
    if j == 0 {
        start
    } else {
        let before = spec_sweep_state(start, palette, right_to_left, clean_with_black, (j - 1) as nat);
        let (zone, color) = spec_sweep_write(palette, right_to_left, clean_with_black, j - 1);
        Seq::new(12, |i: int| if i / 3 == zone { color[i % 3] } else { before[i] })
    }
}

/// The frames of one sweep through a palette of four colors, starting from
/// `start`: for each color in turn, its zones painted one at a time in the
/// sweep's order, then (when cleaning with black) darkened the same way.
/// Frame `k` is the keyboard after write `k`.
#[verifier::rlimit(40)]
pub fn sweep_frames(start: [u8; 12], palette: [u8; 12], right_to_left: bool, clean_with_black: bool) -> (frames: Vec<
    [u8; 12],
>)
    ensures
        frames@.len() == 4 * spec_writes_per_color(clean_with_black),
        forall|k: int|
            0 <= k < frames@.len() ==> (#[trigger] frames@[k])@ == spec_sweep_state(
                start@,
                palette@,
                right_to_left,
                clean_with_black,
                (k + 1) as nat,
            ),
{
    let per: usize = if clean_with_black { 8 } else { 4 };
    let total: usize = 4 * per;
    let mut frames: Vec<[u8; 12]> = Vec::new();
    let mut state = start;
    let mut k: usize = 0;
    while k < total
        invariant
            per as int == spec_writes_per_color(clean_with_black),
            total == 4 * per,
            0 <= k <= total,
            frames@.len() == k,
            state@ == spec_sweep_state(start@, palette@, right_to_left, clean_with_black, k as nat),
            forall|m: int|
                0 <= m < k ==> (#[trigger] frames@[m])@ == spec_sweep_state(
                    start@,
                    palette@,
                    right_to_left,
                    clean_with_black,
                    (m + 1) as nat,
                ),
        decreases total - k,
    {
        let color_index = k / per;
        let within = k % per;
        let step = if within < 4 { within } else { within - 4 };
        let zone: usize = if right_to_left { 3 - step } else { step };
        let (r, g, b) = if within < 4 {
            (palette[3 * color_index], palette[3 * color_index + 1], palette[3 * color_index + 2])
        } else {
            (0u8, 0u8, 0u8)
        };
        let ghost before = state@;
        state[3 * zone] = r;
        state[3 * zone + 1] = g;
        state[3 * zone + 2] = b;
        proof {
            let (z, c) = spec_sweep_write(palette@, right_to_left, clean_with_black, k as int);
            assert(z == zone as int);
            assert(c == seq![r, g, b]);
            assert(state@ =~= Seq::new(12, |i: int| if i / 3 == z { c[i % 3] } else { before[i] }));
        }
        frames.push(state);
        k = k + 1;
    }
    frames
}

/// A swipe fill's palette: the slot's zone colors in the sweep's order.
pub open spec fn spec_ordered_palette(colors: Seq<u8>, right_to_left: bool) -> Seq<u8> {
    Seq::new(12, |i: int| colors[3 * spec_zone_order(i / 3, right_to_left) + i % 3])
}

pub fn ordered_palette(colors: [u8; 12], right_to_left: bool) -> (r: [u8; 12])
    ensures
        r@ == spec_ordered_palette(colors@, right_to_left),
{
    let mut r: [u8; 12] = [0; 12];
    let mut i: usize = 0;
    while i < 12
        invariant
            0 <= i <= 12,
            forall|k: int| 0 <= k < i ==> r@[k] == spec_ordered_palette(colors@, right_to_left)[k],
        decreases 12 - i,
    {
        let zone = i / 3;
        let source = if right_to_left { 3 - zone } else { zone };
        r[i] = colors[3 * source + i % 3];
        i = i + 1;
    }
    assert(r@ =~= spec_ordered_palette(colors@, right_to_left));
    r
}

/// Whether a swipe fill runs right to left: a right swipe does.
pub fn fills_right_to_left(direction: Direction) -> (r: bool)
    ensures
        r == (direction == Direction::Right),
{
    match direction {
        Direction::Left => false,
        Direction::Right => true,
    }
}

/// The battery gauge redraws only when a fresh reading moved the charge
/// off what is on screen; a failed read keeps the last charge drawn.
/// `Some` is the new frame to write.
pub fn gauge_redraw(lighting: &Lighting, drawn_percent: Option<u8>, reading: Option<Reading>) -> (r: Option<[u8; 12]>)
    ensures
        reading is None ==> r is None,
        reading matches Some(s) ==> (drawn_percent == Some(s.percent) ==> r is None),
        reading matches Some(s) ==> (drawn_percent != Some(s.percent) ==> (r matches Some(frame) && frame@
            == spec_battery_gauge_array(*lighting, s.percent))),
{
    match reading {
        None => None,
        Some(s) => {
            let same = match drawn_percent {
                Some(p) => p == s.percent,
                None => false,
            };
            if same {
                None
            } else {
                Some(lighting.battery_gauge_array(s.percent))
            }
        },
    }
}

/// The Meta+RAlt hotkey cycles profiles once per press: a held combination
/// fires once and re-arms only after it is released. Given whether it was
/// already handled and whether it is held now, whether to cycle and
/// whether it is handled after this poll.
pub fn hotkey_step(already_handled: bool, combo_held: bool) -> (r: (bool, bool))
    ensures
        r.0 == (combo_held && !already_handled),
        r.1 == combo_held,
{
    if combo_held {
        (!already_handled, true)
    } else {
        (false, false)
    }
}

/// One step of an effect's round: a write to the keyboard, or a pause of
/// some milliseconds.
#[derive(Clone, Copy, Debug)]
pub enum RoundStep {
    Write(EngineWrite),
    Pause(u64),
}

pub enum RoundStepView {
    Write(EngineWriteView),
    Pause(u64),
}

impl View for RoundStep {
    type V = RoundStepView;

    open spec fn view(&self) -> RoundStepView {
        match *self {
            RoundStep::Write(w) => RoundStepView::Write(w@),
            RoundStep::Pause(ms) => RoundStepView::Pause(ms),
        }
    }
}

pub open spec fn spec_round_views(v: Seq<RoundStep>) -> Seq<RoundStepView> {
    v.map_values(|s: RoundStep| s@)
}

/// What a round of the Christmas effect does with the values drawn for it.
#[derive(Debug)]
pub enum ChristmasRound {
    /// The pattern drawn is the one just played: draw it again.
    RedrawPattern,
    /// The two-color blink drew the same color twice: draw the second
    /// again.
    RedrawSecondColor,
    /// The round's steps, in order.
    Play(Vec<RoundStep>),
}

/// Color `k` of the Christmas palette.
pub open spec fn spec_christmas_color(k: int) -> Seq<u8> {
    CHRISTMAS_COLORS@.subrange(3 * k, 3 * k + 3)
}

/// Every zone in one color.
pub open spec fn spec_solid_colors(color: Seq<u8>) -> Seq<u8> {
    Seq::new(12, |i: int| color[i % 3])
}

pub open spec fn spec_solid_write(color: Seq<u8>) -> RoundStepView {
    RoundStepView::Write(EngineWriteView::Colors(spec_solid_colors(color)))
}

pub open spec fn spec_fade_write(colors: Seq<u8>, steps: u8) -> RoundStepView {
    RoundStepView::Write(EngineWriteView::Transition { colors, steps, delay_ms: 1 })
}

/// The steps of Christmas pattern `pattern`:
/// 0. the four colors in turn on the whole keyboard, half a second each,
///    three times over;
/// 1. two different colors (`first`, `second`) alternating, 400 ms each,
///    four times;
/// 2. a fade to dark, then each color swept zone by zone across the
///    keyboard and swept away again, each zone fading in 100 steps;
/// 3. white on alternate zones, swapping every 400 ms, four times.
pub open spec fn spec_christmas_steps(pattern: u8, first: usize, second: usize, right_to_left: bool) -> Seq<
    RoundStepView,
> {
    if pattern == 0 {
        Seq::new(
            24,
            |j: int|
                if j % 2 == 0 {
                    spec_solid_write(spec_christmas_color((j / 2) % 4))
                } else {
                    RoundStepView::Pause(500)
                },
        )
    } else if pattern == 1 {
        Seq::new(
            16,
            |j: int|
                if j % 4 == 0 {
                    spec_solid_write(spec_christmas_color(first as int))
                } else if j % 4 == 2 {
                    spec_solid_write(spec_christmas_color(second as int))
                } else {
                    RoundStepView::Pause(400)
                },
        )
    } else if pattern == 2 {
        seq![spec_fade_write(Seq::new(12, |i: int| 0u8), 100)] + Seq::new(
            32,
            |k: int|
                spec_fade_write(
                    spec_sweep_state(Seq::new(12, |i: int| 0u8), CHRISTMAS_COLORS@, right_to_left, true, (k + 1) as nat),
                    100,
                ),
        )
    } else {
        Seq::new(
            16,
            |j: int|
                if j % 4 == 0 {
                    spec_fade_write(CHRISTMAS_BLINK_A@, 30)
                } else if j % 4 == 2 {
                    spec_fade_write(CHRISTMAS_BLINK_B@, 30)
                } else {
                    RoundStepView::Pause(400)
                },
        )
    }
}

fn christmas_color(k: usize) -> (c: [u8; 3])
    requires
        k < 4,
    ensures
        c@ == spec_christmas_color(k as int),
{
    let palette = CHRISTMAS_COLORS;
    let c = [palette[3 * k], palette[3 * k + 1], palette[3 * k + 2]];
    assert(c@ =~= spec_christmas_color(k as int));
    c
}

fn solid_colors(color: [u8; 3]) -> (r: [u8; 12])
    ensures
        r@ == spec_solid_colors(color@),
{
    let r = [
        color[0],
        color[1],
        color[2],
        color[0],
        color[1],
        color[2],
        color[0],
        color[1],
        color[2],
        color[0],
        color[1],
        color[2],
    ];
    assert(r@ =~= spec_solid_colors(color@));
    r
}

/// One round of the Christmas effect from the values drawn for it: the
/// pattern (`drawn`, below 4), the two colors of the two-color blink and
/// the direction of the sweep. A pattern never follows itself (`last` is
/// the one played before), and the blink's two colors differ.
pub fn christmas_round(last: Option<u8>, drawn: u8, first: usize, second: usize, right_to_left: bool) -> (r:
    ChristmasRound)
    requires
        drawn < 4,
        first < 4,
        second < 4,
    ensures
        last == Some(drawn) ==> r is RedrawPattern,
        last != Some(drawn) && drawn == 1 && first == second ==> r is RedrawSecondColor,
        last != Some(drawn) && !(drawn == 1 && first == second) ==> (r matches ChristmasRound::Play(steps)
            && spec_round_views(steps@) =~= spec_christmas_steps(drawn, first, second, right_to_left)),
{
    if last == Some(drawn) {
        return ChristmasRound::RedrawPattern;
    }
    if drawn == 1 && first == second {
        return ChristmasRound::RedrawSecondColor;
    }
    let ghost target = spec_christmas_steps(drawn, first, second, right_to_left);
    let mut steps: Vec<RoundStep> = Vec::new();
    if drawn == 0 {
        let mut j: usize = 0;
        while j < 24
            invariant
                drawn == 0,
                target == spec_christmas_steps(drawn, first, second, right_to_left),
                j <= 24,
                steps@.len() == j,
                forall|m: int| 0 <= m < j ==> (#[trigger] steps@[m])@ == target[m],
            decreases 24 - j,
        {
            if j % 2 == 0 {
                let color = christmas_color((j / 2) % 4);
                steps.push(RoundStep::Write(EngineWrite::Colors(solid_colors(color))));
            } else {
                steps.push(RoundStep::Pause(500));
            }
            j = j + 1;
        }
    } else if drawn == 1 || drawn == 3 {
        let mut j: usize = 0;
        while j < 16
            invariant
                drawn == 1 || drawn == 3,
                first < 4,
                second < 4,
                target == spec_christmas_steps(drawn, first, second, right_to_left),
                j <= 16,
                steps@.len() == j,
                forall|m: int| 0 <= m < j ==> (#[trigger] steps@[m])@ == target[m],
            decreases 16 - j,
        {
            if j % 4 == 0 {
                if drawn == 1 {
                    steps.push(RoundStep::Write(EngineWrite::Colors(solid_colors(christmas_color(first)))));
                } else {
                    steps.push(RoundStep::Write(EngineWrite::Transition { colors: CHRISTMAS_BLINK_A, steps: 30, delay_ms: 1 }));
                }
            } else if j % 4 == 2 {
                if drawn == 1 {
                    steps.push(RoundStep::Write(EngineWrite::Colors(solid_colors(christmas_color(second)))));
                } else {
                    steps.push(RoundStep::Write(EngineWrite::Transition { colors: CHRISTMAS_BLINK_B, steps: 30, delay_ms: 1 }));
                }
            } else {
                steps.push(RoundStep::Pause(400));
            }
            j = j + 1;
        }
    } else {
        let dark: [u8; 12] = [0; 12];
        assert(dark@ =~= Seq::new(12, |i: int| 0u8));
        steps.push(RoundStep::Write(EngineWrite::Transition { colors: dark, steps: 100, delay_ms: 1 }));
        let frames = sweep_frames(dark, CHRISTMAS_COLORS, right_to_left, true);
        let mut k: usize = 0;
        while k < frames.len()
            invariant
                drawn == 2,
                frames@.len() == 32,
                dark@ =~= Seq::new(12, |i: int| 0u8),
                forall|m: int|
                    0 <= m < frames@.len() ==> (#[trigger] frames@[m])@ == spec_sweep_state(
                        dark@,
                        CHRISTMAS_COLORS@,
                        right_to_left,
                        true,
                        (m + 1) as nat,
                    ),
                target == spec_christmas_steps(drawn, first, second, right_to_left),
                k <= 32,
                steps@.len() == k + 1,
                forall|m: int| 0 <= m <= k ==> (#[trigger] steps@[m])@ == target[m],
            decreases 32 - k,
        {
            steps.push(RoundStep::Write(EngineWrite::Transition { colors: frames[k], steps: 100, delay_ms: 1 }));
            k = k + 1;
        }
    }
    ChristmasRound::Play(steps)
}

} // verus!
