//! The scene's state: a plant drawn as a looping sprite animation.
//!
//! Times are counted in nanoseconds. Textures are named by their position in
//! the list of textures that the renderer holds.
use vstd::prelude::*;

verus! {

/// One frame of a sprite animation: the texture shown and for how long.
#[derive(Debug, Clone, Copy, PartialEq, Eq)]
pub struct Animation2DStep {
    pub texture: usize,
    /// How long the frame is shown, in nanoseconds.
    pub duration: u64,
}

/// A sprite animation that loops over its steps.
#[derive(Debug, Clone, PartialEq, Eq)]
pub struct Animation2D {
    /// The time spent in the current step, in nanoseconds.
    pub timer: u64,
    pub steps: Vec<Animation2DStep>,
    pub current_step: usize,
}

/// Whether every step lasts some time.
pub open spec fn steps_wf(steps: Seq<Animation2DStep>) -> bool {
    &&& steps.len() > 0
    &&& forall|i: int| 0 <= i < steps.len() ==> #[trigger] steps[i].duration > 0
}

/// The step after `i`: the first one after the last.
pub open spec fn next_step(i: int, len: int) -> int {
    if i + 1 < len {
        i + 1
    } else {
        0
    }
}

/// The step and the time spent in it after `timer` nanoseconds counted from
/// the start of step `current`: each step that the time covers is left for
/// the next one, and the time it lasted is taken off.
pub open spec fn advance(steps: Seq<Animation2DStep>, current: int, timer: int) -> (int, int)
    decreases timer,
{
    if 0 <= current < steps.len() && 0 < steps[current].duration <= timer {
        advance(steps, next_step(current, steps.len() as int), timer - steps[current].duration)
    } else {
        (current, timer)
    }
}

proof fn lemma_advance_in_range(steps: Seq<Animation2DStep>, current: int, timer: int)
    requires
        steps_wf(steps),
        0 <= current < steps.len(),
        timer >= 0,
    ensures
        0 <= advance(steps, current, timer).0 < steps.len(),
        0 <= advance(steps, current, timer).1 < steps[advance(steps, current, timer).0].duration,
    decreases timer,
{
    if steps[current].duration <= timer {
        lemma_advance_in_range(
            steps,
            next_step(current, steps.len() as int),
            timer - steps[current].duration,
        );
    }
}

impl Animation2D {
    /// Whether the animation has steps that last, stands in one of them,
    /// and has spent less than that step's time in it.
    pub open spec fn wf(&self) -> bool {
        &&& steps_wf(self.steps@)
        &&& self.current_step < self.steps@.len()
        &&& self.timer < self.steps@[self.current_step as int].duration
    }

    /// An animation at the start of its first step; `None` where there is no
    /// step or a step lasts no time.
    pub fn new(steps: Vec<Animation2DStep>) -> (r: Option<Animation2D>)
        ensures
            r is Some <==> steps_wf(steps@),
            r matches Some(a) ==> a.wf() && a.steps@ == steps@ && a.current_step == 0 && a.timer
                == 0,
    {
        if steps.len() == 0 {
            return None;
        }
        let mut i: usize = 0;
        while i < steps.len()
            invariant
                i <= steps@.len(),
                forall|j: int| 0 <= j < i ==> #[trigger] steps@[j].duration > 0,
            decreases steps@.len() - i,
        {
            if steps[i].duration == 0 {
                return None;
            }
            i = i + 1;
        }
        Some(Animation2D { timer: 0, steps, current_step: 0 })
    }

    /// The texture of the current step.
    pub fn current_texture(&self) -> (r: usize)
        requires
            self.wf(),
        ensures
            r == self.steps@[self.current_step as int].texture,
    {
        self.steps[self.current_step].texture
    }

    /// Lets `delta` nanoseconds pass: every step that the time covers is
    /// left for the next one, looping back to the first after the last.
    pub fn update(&mut self, delta: u64)
        requires
            old(self).wf(),
            old(self).timer + delta <= u64::MAX,
        ensures
            final(self).wf(),
            final(self).steps@ == old(self).steps@,
            (final(self).current_step as int, final(self).timer as int) == advance(
                old(self).steps@,
                old(self).current_step as int,
                old(self).timer + delta,
            ),
    {
        let ghost steps = self.steps@;
        self.timer = self.timer + delta;
        let ghost target = advance(steps, self.current_step as int, self.timer as int);
        loop
            invariant
                self.steps@ == steps,
                old(self).steps@ == steps,
                target == advance(steps, old(self).current_step as int, old(self).timer + delta),
                steps_wf(steps),
                self.current_step < steps.len(),
                advance(steps, self.current_step as int, self.timer as int) == target,
            decreases self.timer,
        {
            let duration = self.steps[self.current_step].duration;
            if self.timer < duration {
                proof {
                    lemma_advance_in_range(steps, self.current_step as int, self.timer as int);
                }
                return;
            }
            self.timer = self.timer - duration;
            let len = self.steps.len();
            assert(self.current_step < len);
            self.current_step = if self.current_step + 1 < len {
                self.current_step + 1
            } else {
                0
            };
        }
    }
}

/// The plant of the scene.
#[derive(Debug, Clone, PartialEq, Eq)]
pub struct Plant {
    pub animation: Animation2D,
}

impl Plant {
    /// Lets `delta` nanoseconds pass for the plant's animation.
    pub fn update(&mut self, delta: u64)
        requires
            old(self).animation.wf(),
            old(self).animation.timer + delta <= u64::MAX,
        ensures
            final(self).animation.wf(),
            final(self).animation.steps@ == old(self).animation.steps@,
            (final(self).animation.current_step as int, final(self).animation.timer as int)
                == advance(
                old(self).animation.steps@,
                old(self).animation.current_step as int,
                old(self).animation.timer + delta,
            ),
    {
        self.animation.update(delta);
    }
}

/// The scene.
#[derive(Debug, Clone, PartialEq, Eq)]
pub struct World {
    pub plant: Plant,
}

impl World {
    /// Lets `delta` nanoseconds pass in the scene.
    pub fn update(&mut self, delta: u64)
        requires
            old(self).plant.animation.wf(),
            old(self).plant.animation.timer + delta <= u64::MAX,
        ensures
            final(self).plant.animation.wf(),
            final(self).plant.animation.steps@ == old(self).plant.animation.steps@,
            (
                final(self).plant.animation.current_step as int,
                final(self).plant.animation.timer as int,
            ) == advance(
                old(self).plant.animation.steps@,
                old(self).plant.animation.current_step as int,
                old(self).plant.animation.timer + delta,
            ),
    {
        self.plant.update(delta);
    }
}

} // verus!
