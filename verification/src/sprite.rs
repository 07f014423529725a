//! One animated sprite and its tick: resolver, integrator, selector and
//! frame advance, run in that order on the sprite's own state.

use crate::clock::{lemma_ticked_in_range, AnimationClock};
use crate::frames::{select_range, selected, AnimationIndices};
use crate::movement::{resolve_direction, DirectionInput, Movement};
use crate::velocity::{velocity_of, Displacement, Velocity};
use vstd::prelude::*;

verus! {

/// All that one sprite carries from tick to tick.
#[derive(Clone, Copy, Debug, PartialEq, Eq, Structural)]
pub struct SpriteState {
    /// Whether the keys steer the sprite. A sprite that is not directional
    /// cycles through one block of frames whatever is held.
    pub directional: bool,
    pub movement: Movement,
    pub velocity: Velocity,
    /// The block of frames in use.
    pub indices: AnimationIndices,
    /// The frame on display.
    pub frame: usize,
    pub clock: AnimationClock,
}

/// What one tick is given: the held keys and the time since the last tick,
/// in nanoseconds.
#[derive(Clone, Copy, Debug, PartialEq, Eq, Structural)]
pub struct Step {
    pub input: DirectionInput,
    pub delta: u64,
}

impl SpriteState {
    /// The block in use holds four frames and the clock is in order.
    pub open spec fn wf(self) -> bool {
        self.indices.wf() && self.clock.wf()
    }

    /// The frame on display lies in the block in use.
    pub open spec fn frame_in_range(self) -> bool {
        self.indices.contains(self.frame)
    }

    /// The animation is frozen: the sprite is directional and stands.
    pub open spec fn frozen(self) -> bool {
        self.directional && self.movement.is_idle()
    }

    /// The state after the resolver has seen the keys.
    pub open spec fn resolved(self, input: DirectionInput) -> SpriteState {
        SpriteState { movement: input.direction(), ..self }
    }

    /// The state after the integrator has seen the keys.
    pub open spec fn integrated(self, input: DirectionInput) -> SpriteState {
        SpriteState { velocity: input.velocity(), ..self }
    }

    /// The state after the selector has looked at the movement state.
    pub open spec fn reselected(self) -> SpriteState {
        SpriteState { indices: selected(self.movement, self.indices), ..self }
    }

    /// The state after the frame advance. A stale frame is put right first.
    /// A frozen sprite then shows the first frame of its block and its clock
    /// rests; any other has its clock ticked and goes on by one frame where
    /// the clock fired.
    pub open spec fn animated(self, delta: u64) -> SpriteState {
        let shown = self.indices.corrected(self.frame);
        if self.frozen() {
            SpriteState { frame: self.indices.first, ..self }
        } else {
            let clock = self.clock.ticked(delta);
            SpriteState {
                clock,
                frame: if clock.has_fired() {
                    self.indices.next(shown)
                } else {
                    shown
                },
                ..self
            }
        }
    }

    /// The state after one whole tick. A sprite that is not directional
    /// only has its frame advanced.
    pub open spec fn ticked(self, input: DirectionInput, delta: u64) -> SpriteState {
        if self.directional {
            self.resolved(input).integrated(input).reselected().animated(delta)
        } else {
            self.animated(delta)
        }
    }

    /// The way the sprite goes in one tick: that of the velocity for the
    /// held keys, and none for a sprite that is not directional.
    pub open spec fn moved(self, input: DirectionInput, delta: u64) -> Displacement {
        if self.directional {
            input.velocity().displacement(delta)
        } else {
            Displacement { dx: 0, dy: 0 }
        }
    }

    /// The state after the given ticks, the first of them first.
    pub open spec fn run(self, steps: Seq<Step>) -> SpriteState
        decreases steps.len(),
    {
        if steps.len() == 0 {
            self
        } else {
            self.run(steps.drop_last()).ticked(steps.last().input, steps.last().delta)
        }
    }

    /// A sprite as it is made: standing, at rest, on frame 0 of the block
    /// from 0 to 3, with a clock of the given period in nanoseconds that has
    /// no time on it.
    pub fn new(directional: bool, period: u64) -> (sprite: SpriteState)
        ensures
            sprite == (SpriteState {
                directional,
                movement: Movement::Idle,
                velocity: Velocity { x: 0, y: 0 },
                indices: AnimationIndices { first: 0, last: 3 },
                frame: 0,
                clock: AnimationClock { period, elapsed: 0, fired: 0 },
            }),
            sprite.wf(),
            sprite.frame_in_range(),
    {
        SpriteState {
            directional,
            movement: Movement::Idle,
            velocity: Velocity::zero(),
            indices: AnimationIndices { first: 0, last: 3 },
            frame: 0,
            clock: AnimationClock::new(period),
        }
    }

    /// The resolver: sets the movement state from the held keys.
    pub fn resolve(&mut self, input: DirectionInput)
        ensures
            *final(self) == old(self).resolved(input),
    {
        self.movement = resolve_direction(input);
    }

    /// The integrator: sets the velocity from the held keys and returns the
    /// way to go in `delta` nanoseconds.
    pub fn integrate(&mut self, input: DirectionInput, delta: u64) -> (way: Displacement)
        ensures
            *final(self) == old(self).integrated(input),
            way == input.velocity().displacement(delta),
    {
        self.velocity = velocity_of(input);
        self.velocity.step(delta)
    }

    /// The selector: sets the block in use from the movement state.
    pub fn select(&mut self)
        ensures
            *final(self) == old(self).reselected(),
    {
        select_range(self.movement, &mut self.indices);
    }

    /// The frame advance: puts a stale frame right, then freezes the frame
    /// of a standing sprite or moves that of a walking one with the clock.
    pub fn animate(&mut self, delta: u64)
        requires
            old(self).indices.wf(),
        ensures
            *final(self) == old(self).animated(delta),
            final(self).frame_in_range(),
            final(self).frozen() ==> final(self).frame == final(self).indices.first,
            old(self).clock.wf() ==> final(self).clock.wf(),
    {
        self.frame = self.indices.correct(self.frame);
        let standing = self.directional && self.movement.idle();
        if standing {
            self.frame = self.indices.first;
        } else {
            self.clock.tick(delta);
            if self.clock.just_fired() {
                self.frame = self.indices.advance(self.frame);
            }
        }
    }

    /// One tick. Returns the way the sprite goes in it.
    pub fn tick(&mut self, input: DirectionInput, delta: u64) -> (way: Displacement)
        requires
            old(self).wf(),
        ensures
            *final(self) == old(self).ticked(input, delta),
            way == old(self).moved(input, delta),
            final(self).wf(),
            final(self).frame_in_range(),
            final(self).frozen() ==> final(self).frame == final(self).indices.first,
    {
        let mut way = Displacement { dx: 0, dy: 0 };
        if self.directional {
            self.resolve(input);
            way = self.integrate(input, delta);
            self.select();
        }
        self.animate(delta);
        way
    }

    /// Runs the given ticks in order.
    pub fn play(&mut self, steps: &Vec<Step>)
        requires
            old(self).wf(),
        ensures
            *final(self) == old(self).run(steps@),
            final(self).wf(),
            steps@.len() > 0 ==> final(self).frame_in_range(),
    {
        let ghost start = *self;
        let mut i: usize = 0;
        while i < steps.len()
            invariant
                i <= steps@.len(),
                *self == start.run(steps@.take(i as int)),
                self.wf(),
                i > 0 ==> self.frame_in_range(),
            decreases steps@.len() - i,
        {
            proof {
                assert(steps@.take(i + 1).drop_last() =~= steps@.take(i as int));
            }
            let step = steps[i];
            self.tick(step.input, step.delta);
            i += 1;
        }
        proof {
            assert(steps@.take(i as int) =~= steps@);
        }
    }
}

/// Running the resolver a second time on the same keys changes nothing.
pub proof fn lemma_resolve_idempotent(sprite: SpriteState, input: DirectionInput)
    ensures
        sprite.resolved(input).resolved(input) == sprite.resolved(input),
{
}

/// A tick keeps the state in order and leaves the frame on display inside
/// the block in use.
pub proof fn lemma_tick_contains(sprite: SpriteState, input: DirectionInput, delta: u64)
    requires
        sprite.wf(),
    ensures
        sprite.ticked(input, delta).wf(),
        sprite.ticked(input, delta).frame_in_range(),
{
    lemma_ticked_in_range(sprite.clock.period, sprite.clock.elapsed, delta);
}

/// After any ticks, one at least, the frame on display lies inside the block
/// in use, wherever it stood before.
pub proof fn lemma_frame_contained(sprite: SpriteState, steps: Seq<Step>)
    requires
        sprite.wf(),
        steps.len() > 0,
    ensures
        sprite.run(steps).wf(),
        sprite.run(steps).frame_in_range(),
    decreases steps.len(),
{
    lemma_run_wf(sprite, steps.drop_last());
    lemma_tick_contains(sprite.run(steps.drop_last()), steps.last().input, steps.last().delta);
}

/// Ticks keep the state in order.
pub proof fn lemma_run_wf(sprite: SpriteState, steps: Seq<Step>)
    requires
        sprite.wf(),
    ensures
        sprite.run(steps).wf(),
    decreases steps.len(),
{
    if steps.len() > 0 {
        lemma_run_wf(sprite, steps.drop_last());
        lemma_tick_contains(sprite.run(steps.drop_last()), steps.last().input, steps.last().delta);
    }
}

/// A directional sprite that ends a tick standing shows the first frame of
/// its block, and the tick has left block and clock as they were.
pub proof fn lemma_idle_tick_freezes(sprite: SpriteState, input: DirectionInput, delta: u64)
    requires
        sprite.directional,
        input.is_released(),
    ensures
        sprite.ticked(input, delta).movement.is_idle(),
        sprite.ticked(input, delta).frame == sprite.indices.first,
        sprite.ticked(input, delta).indices == sprite.indices,
        sprite.ticked(input, delta).clock == sprite.clock,
{
}

/// While no key is held, through any number of ticks of any length, a
/// directional sprite stands on the first frame of the block it had.
pub proof fn lemma_idle_freezes(sprite: SpriteState, steps: Seq<Step>)
    requires
        sprite.directional,
        steps.len() > 0,
        forall|i: int| 0 <= i < steps.len() ==> (#[trigger] steps[i]).input.is_released(),
    ensures
        sprite.run(steps).directional,
        sprite.run(steps).movement.is_idle(),
        sprite.run(steps).frame == sprite.indices.first,
        sprite.run(steps).indices == sprite.indices,
        sprite.run(steps).clock == sprite.clock,
    decreases steps.len(),
{
    let before = steps.drop_last();
    if before.len() > 0 {
        assert forall|i: int| 0 <= i < before.len() implies (#[trigger] before[i]).input.is_released() by {
            assert(before[i] == steps[i]);
        }
        lemma_idle_freezes(sprite, before);
    } else {
        assert(sprite.run(before) == sprite);
    }
    lemma_idle_tick_freezes(sprite.run(before), steps.last().input, steps.last().delta);
}

/// A sprite that shows the last frame of the block it walks in shows the
/// first one after a tick in which the clock fires.
pub proof fn lemma_wraps_around(sprite: SpriteState, input: DirectionInput, delta: u64)
    requires
        sprite.wf(),
        !sprite.ticked(input, delta).frozen(),
        sprite.frame == sprite.ticked(input, delta).indices.last,
        sprite.clock.ticked(delta).has_fired(),
    ensures
        sprite.ticked(input, delta).frame == sprite.ticked(input, delta).indices.first,
{
}

/// A frame left over from another block is put on the first frame of the
/// block in use, from where it goes on by one if the clock fires in the
/// same tick.
pub proof fn lemma_stale_frame_snaps(sprite: SpriteState, input: DirectionInput, delta: u64)
    requires
        sprite.wf(),
        !sprite.ticked(input, delta).indices.contains(sprite.frame),
    ensures
        sprite.ticked(input, delta).frame == if !sprite.ticked(input, delta).frozen()
            && sprite.clock.ticked(delta).has_fired() {
            sprite.ticked(input, delta).indices.first + 1
        } else {
            sprite.ticked(input, delta).indices.first as int
        },
{
}

} // verus!
