//! Animation playback state: frame sequences, the seconds-per-frame timer and
//! the exact arithmetic of advancing a bounded index by elapsed time.

use vstd::prelude::*;

verus! {

use vstd::arithmetic::div_mod::lemma_add_mod_noop;
use vstd::arithmetic::div_mod::lemma_fundamental_div_mod_converse;
use vstd::arithmetic::div_mod::lemma_mod_self_0;
use vstd::arithmetic::div_mod::lemma_small_mod;

/// What a character is doing; each state addresses its own frame sequences.
#[derive(Clone, Copy, PartialEq, Eq, Structural, Debug)]
pub enum AnimationState {
    Idle,
    Walk,
}

/// The discrete way a sprite faces the viewer.
#[derive(Clone, Copy, PartialEq, Eq, Structural, Debug)]
pub enum Direction {
    Down,
    Right,
    Up,
    Left,
}

/// Why an `Animation` could not be constructed.
#[derive(Clone, Copy, PartialEq, Eq, Structural, Debug)]
pub enum AnimationError {
    /// The frame sequence was empty.
    EmptyFrames,
    /// The seconds-per-frame duration was zero.
    ZeroSpeed,
}

/// Cap on an animation's seconds-per-frame duration, in microseconds (2^32).
pub const SPEED_MAX_US: u64 = 0x1_0000_0000;

/// Cap on one tick's time delta, in microseconds (2^48).
pub const DT_MAX_US: u64 = 0x1_0000_0000_0000;

/// The mathematical value of an `Animation`.
#[verifier::ext_equal]
pub struct AnimModel {
    /// Sprite-atlas indices, in playback order.
    pub frames: Seq<usize>,
    /// Index into `frames` of the frame being shown.
    pub current: nat,
    /// Microseconds each frame is shown for.
    pub speed: nat,
    /// Microseconds accumulated toward the next frame step.
    pub elapsed: nat,
}

/// Well-formedness of an animation value: a non-empty frame sequence, an
/// in-bounds index, a positive bounded frame duration, and an accumulator
/// strictly below one frame duration.
pub open spec fn wf_anim(a: AnimModel) -> bool {
    &&& a.frames.len() > 0
    &&& a.current < a.frames.len()
    &&& 0 < a.speed <= SPEED_MAX_US
    &&& a.elapsed < a.speed
}

/// The animation after `dt` microseconds: the accumulator grows by `dt`, and
/// one frame step is taken for each whole `speed` it contains.
pub open spec fn advance_model(a: AnimModel, dt: nat) -> AnimModel {
    let total = a.elapsed + dt;
    AnimModel {
        frames: a.frames,
        current: (((a.current as int) + (total as int) / (a.speed as int)) % (a.frames.len()
            as int)) as nat,
        speed: a.speed,
        elapsed: ((total as int) % (a.speed as int)) as nat,
    }
}

/// The animation returned to its first frame with an empty accumulator.
pub open spec fn reset_model(a: AnimModel) -> AnimModel {
    AnimModel { frames: a.frames, current: 0, speed: a.speed, elapsed: 0 }
}

/// The animation moved to `phase` frames into its sequence if that is in
/// bounds, and to its first frame otherwise; the timer is untouched.
pub open spec fn rebind_model(a: AnimModel, phase: nat) -> AnimModel {
    AnimModel {
        current: (if phase < a.frames.len() {
            phase
        } else {
            0nat
        }),
        ..a
    }
}

/// A frame sequence with its playback position and timer.
pub struct Animation {
    frames: Vec<usize>,
    current: usize,
    speed: u64,
    elapsed: u64,
}

impl View for Animation {
    type V = AnimModel;

    closed spec fn view(&self) -> AnimModel {
        AnimModel {
            frames: self.frames@,
            current: self.current as nat,
            speed: self.speed as nat,
            elapsed: self.elapsed as nat,
        }
    }
}

impl Animation {
    pub open spec fn wf(&self) -> bool {
        wf_anim(self@)
    }

    /// Builds an animation showing its first frame. A sequence without frames
    /// or a zero frame duration is rejected here, so playback never divides by
    /// zero or reads out of bounds.
    pub fn new(frames: Vec<usize>, speed: u64) -> (r: Result<Animation, AnimationError>)
        requires
            speed <= SPEED_MAX_US,
        ensures
            (frames@.len() > 0 && speed > 0) <==> r is Ok,
            r is Ok ==> r->Ok_0.wf() && r->Ok_0@ == (AnimModel {
                frames: frames@,
                current: 0nat,
                speed: speed as nat,
                elapsed: 0nat,
            }),
            frames@.len() == 0 ==> r == Result::<Animation, AnimationError>::Err(
                AnimationError::EmptyFrames,
            ),
            frames@.len() > 0 && speed == 0 ==> r == Result::<Animation, AnimationError>::Err(
                AnimationError::ZeroSpeed,
            ),
    {
        if frames.len() == 0 {
            Err(AnimationError::EmptyFrames)
        } else if speed == 0 {
            Err(AnimationError::ZeroSpeed)
        } else {
            Ok(Animation { frames, current: 0, speed, elapsed: 0 })
        }
    }

    /// Index into the frame sequence of the frame being shown.
    pub fn current_index(&self) -> (r: usize)
        ensures
            r == self@.current,
    {
        self.current
    }

    /// Number of frames in the sequence.
    pub fn frame_count(&self) -> (r: usize)
        ensures
            r == self@.frames.len(),
    {
        self.frames.len()
    }

    /// Microseconds each frame is shown for.
    pub fn speed_us(&self) -> (r: u64)
        ensures
            r == self@.speed,
    {
        self.speed
    }

    /// Microseconds accumulated toward the next frame step.
    pub fn elapsed_us(&self) -> (r: u64)
        ensures
            r == self@.elapsed,
    {
        self.elapsed
    }

    /// The sprite-atlas index of the frame being shown.
    pub fn current_sprite_index(&self) -> (r: usize)
        requires
            self.wf(),
        ensures
            r == self@.frames[self@.current as int],
    {
        self.frames[self.current]
    }

    /// Returns playback to the first frame and empties the timer.
    pub fn reset(&mut self)
        requires
            old(self).wf(),
        ensures
            final(self).wf(),
            final(self)@ == reset_model(old(self)@),
    {
        self.current = 0;
        self.elapsed = 0;
        assert(self@ =~= reset_model(old(self)@));
    }

    /// Moves the playback position so that `phase` frames into the sequence
    /// are shown if `phase` is in bounds, and the first frame otherwise. The
    /// timer is left as it is.
    pub fn rebind_phase(&mut self, phase: usize)
        requires
            old(self).wf(),
        ensures
            final(self).wf(),
            final(self)@ == rebind_model(old(self)@, phase as nat),
    {
        if phase < self.frames.len() {
            self.current = phase;
        } else {
            self.current = 0;
        }
    }

    /// Accumulates `dt` microseconds and steps the frame index forward, once
    /// per whole frame duration contained in the accumulator, wrapping at the
    /// end of the sequence.
    #[verifier::loop_isolation(false)]
    pub fn advance(&mut self, dt: u64)
        requires
            old(self).wf(),
            dt <= DT_MAX_US,
        ensures
            final(self).wf(),
            final(self)@ == advance_model(old(self)@, dt as nat),
    {
        self.elapsed = self.elapsed + dt;
        let ghost total: nat = old(self)@.elapsed + dt as nat;
        let ghost oc: nat = old(self)@.current;
        let ghost len: nat = old(self)@.frames.len();
        let ghost mut steps: nat = 0;
        proof {
            lemma_small_mod(oc, len);
        }
        while self.elapsed >= self.speed
            invariant
                self.frames@ == old(self)@.frames,
                self.speed == old(self).speed,
                self.current < self.frames.len(),
                self.elapsed + self.speed * steps == total,
                self.current as int == (oc as int + steps as int) % (len as int),
            decreases self.elapsed,
        {
            self.elapsed = self.elapsed - self.speed;
            proof {
                assert(self.speed * (steps + 1) == self.speed * steps + self.speed)
                    by (nonlinear_arith);
                lemma_add_mod_noop(oc as int + steps as int, 1, len as int);
                if self.current + 1 < len {
                    lemma_small_mod((self.current + 1) as nat, len);
                    lemma_small_mod(1nat, len);
                } else {
                    lemma_mod_self_0(len as int);
                    if len == 1 {
                        lemma_small_mod(0nat, 1nat);
                    } else {
                        lemma_small_mod(1nat, len);
                    }
                }
                steps = steps + 1;
            }
            let next: usize = self.current + 1;
            if next >= self.frames.len() {
                self.current = 0;
            } else {
                self.current = next;
            }
        }
        proof {
            let ghost sp: int = old(self)@.speed as int;
            assert(total == steps * sp + self.elapsed) by (nonlinear_arith)
                requires
                    self.elapsed + sp * steps == total,
            ;
            lemma_fundamental_div_mod_converse(
                total as int,
                old(self)@.speed as int,
                steps as int,
                self.elapsed as int,
            );
            assert(self@ =~= advance_model(old(self)@, dt as nat));
        }
    }
}

} // verus!
