//! What the effect engine writes to the keyboard for a lighting or a custom
//! effect step, and the stop signals that end a running effect.
//!
//! The engine thread performs the writes in order and stops at the first
//! one that fails; a software effect then runs its own frames.
use vstd::prelude::*;

use std::sync::atomic::{AtomicBool, Ordering};
use std::sync::Arc;

use crate::custom_effect::{EffectStep, EffectType};
use crate::driver::{BaseEffects, SPEED_MAX, SPEED_MIN};
use crate::effects::{Direction, Effects};
use crate::profile::{spec_rgb_array, KeyboardZone, Lighting};

verus! {

/// Frame rates the ambient effect accepts.
pub const AMBIENT_FPS_MIN: u8 = 1;

pub const AMBIENT_FPS_MAX: u8 = 60;

/// The colors the smooth wave sweeps: red, green, blue and magenta.
pub const SMOOTH_WAVE_PALETTE: [u8; 12] = [255, 0, 0, 0, 255, 0, 0, 0, 255, 255, 0, 255];

/// `speed` brought into the range the controller's own effects accept.
pub open spec fn spec_clamp_hardware_speed(speed: u8) -> u8 {
    if speed < SPEED_MIN {
        SPEED_MIN
    } else if speed > SPEED_MAX {
        SPEED_MAX
    } else {
        speed
    }
}

pub fn clamp_hardware_speed(speed: u8) -> (r: u8)
    ensures
        r == spec_clamp_hardware_speed(speed),
{
    if speed < SPEED_MIN {
        SPEED_MIN
    } else if speed > SPEED_MAX {
        SPEED_MAX
    } else {
        speed
    }
}

/// One write to the keyboard.
#[derive(Clone, Copy, Debug)]
pub enum EngineWrite {
    Effect(BaseEffects),
    Speed(u8),
    Brightness(u8),
    Colors([u8; 12]),
    /// Fade to the colors in `steps` increments, `delay_ms` apart.
    Transition { colors: [u8; 12], steps: u8, delay_ms: u64 },
}

/// A write as contracts see it.
pub enum EngineWriteView {
    Effect(BaseEffects),
    Speed(u8),
    Brightness(u8),
    Colors(Seq<u8>),
    Transition { colors: Seq<u8>, steps: u8, delay_ms: u64 },
}

impl View for EngineWrite {
    type V = EngineWriteView;

    open spec fn view(&self) -> EngineWriteView {
        match *self {
            EngineWrite::Effect(e) => EngineWriteView::Effect(e),
            EngineWrite::Speed(s) => EngineWriteView::Speed(s),
            EngineWrite::Brightness(b) => EngineWriteView::Brightness(b),
            EngineWrite::Colors(c) => EngineWriteView::Colors(c@),
            EngineWrite::Transition { colors, steps, delay_ms } => EngineWriteView::Transition {
                colors: colors@,
                steps,
                delay_ms,
            },
        }
    }
}

pub open spec fn spec_write_views(v: Seq<EngineWrite>) -> Seq<EngineWriteView> {
    v.map_values(|w: EngineWrite| w@)
}

/// The writes for a lighting, in order. A controller effect gets the
/// clamped speed, a software effect the static base it flashes colors on;
/// then the brightness; then a controller effect's colors (where it shows
/// them) and the effect itself.
pub open spec fn spec_lighting_writes(l: Lighting) -> Seq<EngineWriteView> {
    let setup = seq![
        if l.effect.spec_is_built_in() {
            EngineWriteView::Speed(spec_clamp_hardware_speed(l.speed))
        } else {
            EngineWriteView::Effect(BaseEffects::Static)
        },
        EngineWriteView::Brightness(l.brightness.spec_level()),
    ];
    setup + match l.effect {
        Effects::Static => seq![
            EngineWriteView::Colors(spec_rgb_array(l)),
            EngineWriteView::Effect(BaseEffects::Static),
        ],
        Effects::Breath => seq![
            EngineWriteView::Colors(spec_rgb_array(l)),
            EngineWriteView::Effect(BaseEffects::Breath),
        ],
        Effects::Smooth => seq![EngineWriteView::Effect(BaseEffects::Smooth)],
        Effects::Wave => seq![
            EngineWriteView::Effect(
                if l.direction == Direction::Left {
                    BaseEffects::LeftWave
                } else {
                    BaseEffects::RightWave
                },
            ),
        ],
        _ => Seq::<EngineWriteView>::empty(),
    }
}

/// Whether `s` is the lighting a software effect runs with for `l`: the
/// same, but for the ambient frame rate brought into range and, for the
/// smooth wave, the zones set to its palette.
pub open spec fn spec_software_lighting(l: Lighting, s: Lighting) -> bool {
    &&& s.direction == l.direction
    &&& s.speed == l.speed
    &&& s.brightness == l.brightness
    &&& match l.effect {
        Effects::AmbientLight { fps, saturation_boost_bits } => s.effect == Effects::AmbientLight {
            fps: if fps < AMBIENT_FPS_MIN {
                AMBIENT_FPS_MIN
            } else if fps > AMBIENT_FPS_MAX {
                AMBIENT_FPS_MAX
            } else {
                fps
            },
            saturation_boost_bits,
        },
        _ => s.effect == l.effect,
    }
    &&& if l.effect is SmoothWave {
        forall|z: int|
            0 <= z < 4 ==> (#[trigger] s.rgb_zones@[z]).enabled && s.rgb_zones@[z].rgb@ == SMOOTH_WAVE_PALETTE@.subrange(
                3 * z,
                3 * z + 3,
            )
    } else {
        s.rgb_zones == l.rgb_zones
    }
}

/// What the engine does with a lighting.
pub struct EffectPlan {
    /// The writes, in order; the first that fails ends the plan.
    pub writes: Vec<EngineWrite>,
    /// For a software effect, the lighting it then runs with.
    pub software: Option<Lighting>,
}

/// The engine's plan for showing a lighting.
pub fn plan_lighting(l: &Lighting) -> (p: EffectPlan)
    ensures
        spec_write_views(p.writes@) == spec_lighting_writes(*l),
        l.effect.spec_is_built_in() ==> p.software is None,
        !l.effect.spec_is_built_in() ==> (p.software matches Some(s) && spec_software_lighting(*l, s)),
{
    let mut writes: Vec<EngineWrite> = Vec::new();
    let built_in = l.effect.is_built_in();
    if built_in {
        writes.push(EngineWrite::Speed(clamp_hardware_speed(l.speed)));
    } else {
        writes.push(EngineWrite::Effect(BaseEffects::Static));
    }
    writes.push(EngineWrite::Brightness(l.brightness.level()));
    let mut software: Option<Lighting> = None;
    match l.effect {
        Effects::Static => {
            writes.push(EngineWrite::Colors(l.rgb_array()));
            writes.push(EngineWrite::Effect(BaseEffects::Static));
        },
        Effects::Breath => {
            writes.push(EngineWrite::Colors(l.rgb_array()));
            writes.push(EngineWrite::Effect(BaseEffects::Breath));
        },
        Effects::Smooth => {
            writes.push(EngineWrite::Effect(BaseEffects::Smooth));
        },
        Effects::Wave => {
            let effect = match l.direction {
                Direction::Left => BaseEffects::LeftWave,
                Direction::Right => BaseEffects::RightWave,
            };
            writes.push(EngineWrite::Effect(effect));
        },
        Effects::AmbientLight { fps, saturation_boost_bits } => {
            let clamped = if fps < AMBIENT_FPS_MIN {
                AMBIENT_FPS_MIN
            } else if fps > AMBIENT_FPS_MAX {
                AMBIENT_FPS_MAX
            } else {
                fps
            };
            software = Some(Lighting { effect: Effects::AmbientLight { fps: clamped, saturation_boost_bits }, ..*l });
        },
        Effects::SmoothWave { .. } => {
            let palette = SMOOTH_WAVE_PALETTE;
            assert(palette@ == seq![255u8, 0u8, 0u8, 0u8, 255u8, 0u8, 0u8, 0u8, 255u8, 255u8, 0u8, 255u8]);
            let zones = crate::profile::arr_to_zones(palette);
            software = Some(Lighting { rgb_zones: zones, ..*l });
            proof {
                let s = Lighting { rgb_zones: zones, ..*l };
                assert forall|z: int| 0 <= z < 4 implies (#[trigger] s.rgb_zones@[z]).enabled && s.rgb_zones@[z].rgb@
                    == SMOOTH_WAVE_PALETTE@.subrange(3 * z, 3 * z + 3) by {
                    assert(s.rgb_zones@[z].rgb@ =~= SMOOTH_WAVE_PALETTE@.subrange(3 * z, 3 * z + 3));
                }
            }
        },
        _ => {
            software = Some(*l);
        },
    }
    assert(spec_write_views(writes@) =~= spec_lighting_writes(*l));
    EffectPlan { writes, software }
}

/// The writes for one step of a custom effect: its brightness, then its
/// colors, at once or as a fade.
pub open spec fn spec_step_writes(step: EffectStep) -> Seq<EngineWriteView> {
    seq![
        EngineWriteView::Brightness(step.brightness),
        if step.step_type == EffectType::Apply {
            EngineWriteView::Colors(step.rgb_array@)
        } else {
            EngineWriteView::Transition {
                colors: step.rgb_array@,
                steps: step.steps,
                delay_ms: step.delay_between_steps,
            }
        },
    ]
}

pub fn plan_step(step: &EffectStep) -> (writes: Vec<EngineWrite>)
    ensures
        spec_write_views(writes@) == spec_step_writes(*step),
{
    let mut writes: Vec<EngineWrite> = Vec::new();
    writes.push(EngineWrite::Brightness(step.brightness));
    match step.step_type {
        EffectType::Apply => writes.push(EngineWrite::Colors(step.rgb_array)),
        EffectType::Transition => writes.push(
            EngineWrite::Transition {
                colors: step.rgb_array,
                steps: step.steps,
                delay_ms: step.delay_between_steps,
            },
        ),
    }
    assert(spec_write_views(writes@) =~= spec_step_writes(*step));
    writes
}

/// The flags that tell a running effect, and a keyboard fade in progress,
/// to stop. Both are raised before new work is queued and lowered when the
/// engine starts it. Other threads change the flags at any moment and std's
/// atomics carry no specification of what they hold, so the methods below
/// state nothing of the flags' values.
#[derive(Clone)]
pub struct StopSignals {
    pub manager_stop_signal: Arc<AtomicBool>,
    pub keyboard_stop_signal: Arc<AtomicBool>,
}

impl StopSignals {
    /// Both flags lowered.
    pub fn new() -> (s: StopSignals) {
        StopSignals {
            manager_stop_signal: Arc::new(AtomicBool::new(false)),
            keyboard_stop_signal: Arc::new(AtomicBool::new(false)),
        }
    }

    /// Raise both flags.
    pub fn store_true(&self) {
        self.keyboard_stop_signal.store(true, Ordering::SeqCst);
        self.manager_stop_signal.store(true, Ordering::SeqCst);
    }

    /// Lower both flags.
    pub fn store_false(&self) {
        self.keyboard_stop_signal.store(false, Ordering::SeqCst);
        self.manager_stop_signal.store(false, Ordering::SeqCst);
    }

    /// Whether the running effect has been told to stop.
    pub fn stop_requested(&self) -> bool {
        self.manager_stop_signal.load(Ordering::SeqCst)
    }
}

} // verus!
