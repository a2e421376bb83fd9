//! Which sprite to show: the animation state follows ground contact and
//! the horizontal request, and a clock steps through the frames of the
//! state's sequence.

use vstd::prelude::*;
use vstd::arithmetic::div_mod::{
    lemma_add_mod_noop_right,
    lemma_mod_add_multiples_vanish,
    lemma_mod_self_0,
    lemma_small_mod,
};
use crate::fixed::Fixed;

verus! {

/// What the character is seen doing.
#[derive(Clone, Copy, Debug, PartialEq, Eq, Structural)]
pub enum AnimationState {
    Idle,
    Walking,
    Jumping,
}

/// The state to show: in the air `Jumping`; on the ground `Walking` while a
/// horizontal displacement is requested, and `Idle` otherwise.
pub open spec fn resolve_state(grounded: bool, request_x: int) -> AnimationState {
    if !grounded {
        AnimationState::Jumping
    } else if request_x != 0 {
        AnimationState::Walking
    } else {
        AnimationState::Idle
    }
}

/// The state to show for this frame's contact report and the latest
/// horizontal request.
pub fn resolve(grounded: bool, request_x: Fixed) -> (r: AnimationState)
    ensures
        r == resolve_state(grounded, request_x@),
{
    if !grounded {
        AnimationState::Jumping
    } else if request_x.raw != 0 {
        AnimationState::Walking
    } else {
        AnimationState::Idle
    }
}

/// What an `AnimationSet` holds.
pub struct AnimationSetView {
    pub idle: Seq<usize>,
    pub walking: Seq<usize>,
    pub jumping: Seq<usize>,
    pub cycle_delay: int,
}

impl AnimationSetView {
    /// The frame sequence of `state`.
    pub open spec fn frames(self, state: AnimationState) -> Seq<usize> {
        match state {
            AnimationState::Idle => self.idle,
            AnimationState::Walking => self.walking,
            AnimationState::Jumping => self.jumping,
        }
    }

    /// Every state has at least one frame.
    pub open spec fn wf(self) -> bool {
        self.idle.len() > 0 && self.walking.len() > 0 && self.jumping.len() > 0
    }
}

/// The configured frame sequences, one for each state, and the time in
/// microseconds for which one frame is shown.
pub struct AnimationSet {
    idle: Vec<usize>,
    walking: Vec<usize>,
    jumping: Vec<usize>,
    cycle_delay: u64,
}

impl View for AnimationSet {
    type V = AnimationSetView;

    closed spec fn view(&self) -> AnimationSetView {
        AnimationSetView {
            idle: self.idle@,
            walking: self.walking@,
            jumping: self.jumping@,
            cycle_delay: self.cycle_delay as int,
        }
    }
}

impl AnimationSet {
    #[verifier::type_invariant]
    spec fn inv(self) -> bool {
        self@.wf()
    }

    /// The set with the given sequences, if none of them is empty.
    pub fn new(idle: Vec<usize>, walking: Vec<usize>, jumping: Vec<usize>, cycle_delay: u64) -> (r:
        Option<AnimationSet>)
        ensures
            r is Some <==> idle@.len() > 0 && walking@.len() > 0 && jumping@.len() > 0,
            r matches Some(set) ==> set@ == (AnimationSetView {
                idle: idle@,
                walking: walking@,
                jumping: jumping@,
                cycle_delay: cycle_delay as int,
            }),
    {
        if idle.len() == 0 || walking.len() == 0 || jumping.len() == 0 {
            None
        } else {
            Some(AnimationSet { idle, walking, jumping, cycle_delay })
        }
    }

    /// The frame sequence of `state`.
    pub fn sequence(&self, state: AnimationState) -> (r: &Vec<usize>)
        ensures
            r@ == self@.frames(state),
            r@.len() > 0,
            self@.wf(),
    {
        proof {
            use_type_invariant(self);
        }
        match state {
            AnimationState::Idle => &self.idle,
            AnimationState::Walking => &self.walking,
            AnimationState::Jumping => &self.jumping,
        }
    }

    /// The time in microseconds for which one frame is shown.
    pub fn cycle_delay(&self) -> (r: u64)
        ensures
            r == self@.cycle_delay,
    {
        self.cycle_delay
    }
}

/// What an `Animation` holds.
pub struct AnimationView {
    pub state: AnimationState,
    pub sprites: Seq<usize>,
    pub cursor: int,
    pub clock: int,
}

impl AnimationView {
    /// The cursor points at a frame of the sequence.
    pub open spec fn wf(self) -> bool {
        0 <= self.cursor < self.sprites.len() && 0 <= self.clock
    }

    /// The sprite to show.
    pub open spec fn sprite_index(self) -> usize {
        self.sprites[self.cursor]
    }

    /// The animation once `state` is to be shown: as it was if that is its
    /// state already, else at the start of the sequence of `state` with the
    /// clock at zero.
    pub open spec fn switched(self, state: AnimationState, set: AnimationSetView) -> AnimationView {
        if state == self.state {
            self
        } else {
            AnimationView { state, sprites: set.frames(state), cursor: 0, clock: 0 }
        }
    }

    /// The animation after `dt` more microseconds: once the clock reaches
    /// `cycle_delay` it starts again from zero and the cursor moves on by
    /// one frame, from the last frame to the first.
    pub open spec fn ticked(self, cycle_delay: int, dt: int) -> AnimationView {
        if self.clock + dt >= cycle_delay {
            AnimationView {
                cursor: (self.cursor + 1) % (self.sprites.len() as int),
                clock: 0,
                ..self
            }
        } else {
            AnimationView { clock: self.clock + dt, ..self }
        }
    }

    /// The animation after one frame: the state follows contact and
    /// request, then the clock runs.
    pub open spec fn updated(
        self,
        set: AnimationSetView,
        grounded: bool,
        request_x: int,
        dt: int,
    ) -> AnimationView {
        self.switched(resolve_state(grounded, request_x), set).ticked(set.cycle_delay, dt)
    }

    /// The animation after `n` frames of `dt` microseconds each, without a
    /// change of state.
    pub open spec fn ticked_times(self, cycle_delay: int, dt: int, n: nat) -> AnimationView
        decreases n,
    {
        if n == 0 {
            self
        } else {
            self.ticked_times(cycle_delay, dt, (n - 1) as nat).ticked(cycle_delay, dt)
        }
    }
}

/// The animation of one character: its state, the frame sequence of that
/// state, the cursor into it, and the clock in microseconds.
pub struct Animation {
    state: AnimationState,
    sprites: Vec<usize>,
    cursor: usize,
    clock: u64,
}

impl View for Animation {
    type V = AnimationView;

    closed spec fn view(&self) -> AnimationView {
        AnimationView {
            state: self.state,
            sprites: self.sprites@,
            cursor: self.cursor as int,
            clock: self.clock as int,
        }
    }
}

/// A copy of `frames`.
fn copy_frames(frames: &Vec<usize>) -> (r: Vec<usize>)
    ensures
        r@ == frames@,
{
    let mut copy: Vec<usize> = Vec::new();
    let mut i: usize = 0;
    while i < frames.len()
        invariant
            i <= frames@.len(),
            copy@ == frames@.subrange(0, i as int),
        decreases frames@.len() - i,
    {
        copy.push(frames[i]);
        i = i + 1;
    }
    assert(frames@.subrange(0, frames@.len() as int) == frames@);
    copy
}

impl Animation {
    #[verifier::type_invariant]
    spec fn inv(self) -> bool {
        self.cursor < self.sprites@.len()
    }

    /// An idle animation at its first frame.
    pub fn new(set: &AnimationSet) -> (r: Animation)
        ensures
            r@ == (AnimationView {
                state: AnimationState::Idle,
                sprites: set@.idle,
                cursor: 0,
                clock: 0,
            }),
            r@.wf(),
    {
        let sprites: Vec<usize> = copy_frames(set.sequence(AnimationState::Idle));
        Animation { state: AnimationState::Idle, sprites, cursor: 0, clock: 0 }
    }

    /// The state shown.
    pub fn state(&self) -> (r: AnimationState)
        ensures
            r == self@.state,
    {
        self.state
    }

    /// The place of the frame shown in its sequence.
    pub fn cursor(&self) -> (r: usize)
        ensures
            r == self@.cursor,
            self@.wf(),
    {
        proof {
            use_type_invariant(self);
        }
        self.cursor
    }

    /// The time in microseconds for which the frame has been shown.
    pub fn clock(&self) -> (r: u64)
        ensures
            r == self@.clock,
    {
        self.clock
    }

    /// The sprite to show.
    pub fn sprite_index(&self) -> (r: usize)
        ensures
            self@.wf(),
            r == self@.sprite_index(),
    {
        proof {
            use_type_invariant(self);
        }
        self.sprites[self.cursor]
    }

    /// Lets `dt` microseconds pass.
    pub fn tick(&mut self, cycle_delay: u64, dt: u64)
        ensures
            final(self)@ == old(self)@.ticked(cycle_delay as int, dt as int),
            final(self)@.wf(),
    {
        proof {
            use_type_invariant(&*self);
        }
        let due: bool = match self.clock.checked_add(dt) {
            Some(sum) => sum >= cycle_delay,
            None => true,
        };
        if due {
            let len: usize = self.sprites.len();
            let next: usize = if self.cursor + 1 == len {
                0
            } else {
                self.cursor + 1
            };
            proof {
                lemma_next_frame(self.cursor as int, len as int);
            }
            self.clock = 0;
            self.cursor = next;
        } else {
            self.clock = self.clock + dt;
        }
    }

    /// One frame: shows the state that contact and request call for, from
    /// the start of its sequence if it is a new one, then lets `dt`
    /// microseconds pass.
    pub fn update(&mut self, set: &AnimationSet, grounded: bool, request_x: Fixed, dt: u64)
        ensures
            final(self)@ == old(self)@.updated(set@, grounded, request_x@, dt as int),
            final(self)@.wf(),
    {
        let target: AnimationState = resolve(grounded, request_x);
        if target != self.state {
            let sprites: Vec<usize> = copy_frames(set.sequence(target));
            *self = Animation { state: target, sprites, cursor: 0, clock: 0 };
        }
        self.tick(set.cycle_delay(), dt);
    }
}

/// A frame that passes leaves the cursor on a frame of the sequence, and
/// changes neither the state nor the sequence.
pub proof fn lemma_tick_keeps_cursor_valid(a: AnimationView, cycle_delay: int, dt: int)
    requires
        a.wf(),
        0 <= dt,
    ensures
        a.ticked(cycle_delay, dt).wf(),
        a.ticked(cycle_delay, dt).state == a.state,
        a.ticked(cycle_delay, dt).sprites == a.sprites,
{
    lemma_next_frame(a.cursor, a.sprites.len() as int);
}

/// A change of state starts the sequence of the new state at its first
/// frame with the clock at zero; without a change nothing is reset.
pub proof fn lemma_switch_resets(a: AnimationView, state: AnimationState, set: AnimationSetView)
    requires
        a.wf(),
        set.wf(),
    ensures
        a.switched(state, set).wf(),
        a.switched(state, set).state == state,
        state != a.state ==> a.switched(state, set) == (AnimationView {
            state,
            sprites: set.frames(state),
            cursor: 0,
            clock: 0,
        }),
        state == a.state ==> a.switched(state, set) == a,
{
}

/// A whole frame leaves the cursor on a frame of the sequence shown.
pub proof fn lemma_update_keeps_cursor_valid(
    a: AnimationView,
    set: AnimationSetView,
    grounded: bool,
    request_x: int,
    dt: int,
)
    requires
        a.wf(),
        set.wf(),
        0 <= dt,
    ensures
        a.updated(set, grounded, request_x, dt).wf(),
        a.updated(set, grounded, request_x, dt).state == resolve_state(grounded, request_x),
{
    let state = resolve_state(grounded, request_x);
    lemma_switch_resets(a, state, set);
    lemma_tick_keeps_cursor_valid(a.switched(state, set), set.cycle_delay, dt);
}

/// From a clock at zero, `n` frames that each last at least the cycle
/// delay move the cursor on by `n` places around the sequence.
pub proof fn lemma_ticks_step(a: AnimationView, cycle_delay: int, dt: int, n: nat)
    requires
        a.wf(),
        a.clock == 0,
        dt >= cycle_delay,
    ensures
        a.ticked_times(cycle_delay, dt, n) == (AnimationView {
            cursor: (a.cursor + n) % (a.sprites.len() as int),
            clock: 0,
            ..a
        }),
    decreases n,
{
    let len = a.sprites.len() as int;
    if n == 0 {
        lemma_small_mod(a.cursor as nat, len as nat);
    } else {
        lemma_ticks_step(a, cycle_delay, dt, (n - 1) as nat);
        lemma_add_mod_noop_right(1, a.cursor + n - 1, len);
    }
}

/// From a clock at zero, as many frames as the sequence is long, each
/// lasting at least the cycle delay, bring the cursor back to where it
/// was.
pub proof fn lemma_full_cycle(a: AnimationView, cycle_delay: int, dt: int)
    requires
        a.wf(),
        a.clock == 0,
        dt >= cycle_delay,
    ensures
        a.ticked_times(cycle_delay, dt, a.sprites.len()) == a,
{
    let len = a.sprites.len() as int;
    lemma_ticks_step(a, cycle_delay, dt, a.sprites.len());
    lemma_mod_add_multiples_vanish(a.cursor, len);
    lemma_small_mod(a.cursor as nat, len as nat);
}

/// The frame after `cursor` in a cycle of `len` frames.
pub proof fn lemma_next_frame(cursor: int, len: int)
    requires
        0 <= cursor < len,
    ensures
        (cursor + 1) % len == if cursor + 1 == len {
            0
        } else {
            cursor + 1
        },
{
    if cursor + 1 == len {
        lemma_mod_self_0(len);
    } else {
        lemma_small_mod((cursor + 1) as nat, len as nat);
    }
}

} // verus!
