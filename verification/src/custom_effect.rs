//! User-authored effects: a list of color steps played in order, once or
//! in a loop.
use vstd::prelude::*;

use crate::profile::spec_name_view;

verus! {

/// What one step does with its colors.
#[derive(Clone, Copy, Debug, PartialEq, Eq, Structural)]
pub enum EffectType {
    /// Show the colors at once (`Set` on the wire).
    Apply,
    /// Fade to the colors over `steps` increments.
    Transition,
}

/// One step of a custom effect.
#[derive(Clone, Copy, Debug)]
pub struct EffectStep {
    pub rgb_array: [u8; 12],
    pub step_type: EffectType,
    pub brightness: u8,
    pub steps: u8,
    pub delay_between_steps: u64,
    pub sleep: u64,
}

#[derive(Debug)]
pub struct CustomEffect {
    pub name: Option<String>,
    pub effect_steps: Vec<EffectStep>,
    pub should_loop: bool,
}

/// A custom effect as contracts see it.
pub struct CustomEffectView {
    pub name: Option<Seq<char>>,
    pub effect_steps: Seq<EffectStep>,
    pub should_loop: bool,
}

impl View for CustomEffect {
    type V = CustomEffectView;

    open spec fn view(&self) -> CustomEffectView {
        CustomEffectView {
            name: spec_name_view(self.name),
            effect_steps: self.effect_steps@,
            should_loop: self.should_loop,
        }
    }
}

impl CustomEffect {
    /// A copy carrying the same name, steps and looping.
    pub fn duplicate(&self) -> (e: CustomEffect)
        ensures
            e@ == self@,
    {
        let mut steps: Vec<EffectStep> = Vec::new();
        let mut i: usize = 0;
        while i < self.effect_steps.len()
            invariant
                0 <= i <= self.effect_steps@.len(),
                steps@ == self.effect_steps@.take(i as int),
            decreases self.effect_steps@.len() - i,
        {
            steps.push(self.effect_steps[i]);
            proof {
                assert(self.effect_steps@.take(i as int + 1) =~= self.effect_steps@.take(i as int).push(
                    self.effect_steps@[i as int],
                ));
            }
            i = i + 1;
        }
        assert(self.effect_steps@.take(self.effect_steps@.len() as int) =~= self.effect_steps@);
        CustomEffect { name: crate::profile::clone_name(&self.name), effect_steps: steps, should_loop: self.should_loop }
    }
}

} // verus!
