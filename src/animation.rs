use vstd::prelude::*;

use crate::timer::{Timer, TimerMode};

verus! {

/// Whether an animation advances with frame time.
#[derive(Debug, Clone, Copy, PartialEq, Eq, Structural)]
pub enum AnimationPlaybackState {
    Playing,
    Paused,
    Stopped,
}

/// A looping sequence of frames shown one after another at a fixed interval.
///
/// `H` is whatever refers to a displayable frame (an asset handle).
pub struct Animation<H> {
    pub frames: Vec<H>,
    pub timer: Timer,
    pub current_frame_index: usize,
    pub state: AnimationPlaybackState,
}

/// The frame index after `completions` more intervals on a loop of `n` frames.
pub open spec fn advanced_index(index: int, completions: int, n: int) -> int {
    (index + completions) % n
}

/// The interval timer after a run of frame ticks.
pub open spec fn timer_after(t: Timer, deltas: Seq<u64>) -> Timer
    decreases deltas.len(),
{
    if deltas.len() == 0 {
        t
    } else {
        timer_after(t, deltas.drop_last()).ticked(deltas.last())
    }
}

/// Intervals completed over a run of frame ticks.
pub open spec fn completions_during(t: Timer, deltas: Seq<u64>) -> int
    decreases deltas.len(),
{
    if deltas.len() == 0 {
        0
    } else {
        completions_during(t, deltas.drop_last()) + timer_after(
            t,
            deltas,
        ).times_finished_this_tick
    }
}

/// The frame index of a playing animation after a run of frame ticks.
pub open spec fn index_after(t: Timer, index: int, n: int, deltas: Seq<u64>) -> int
    decreases deltas.len(),
{
    if deltas.len() == 0 {
        index
    } else {
        advanced_index(
            index_after(t, index, n, deltas.drop_last()),
            timer_after(t, deltas).times_finished_this_tick as int,
            n,
        )
    }
}

/// On a loop of `n > 0` frames that starts at frame 0, the frame shown after
/// any run of frame ticks is the number of completed intervals modulo `n`.
pub proof fn lemma_index_counts_completions(t: Timer, n: int, deltas: Seq<u64>)
    requires
        n > 0,
    ensures
        index_after(t, 0, n, deltas) == completions_during(t, deltas) % n,
    decreases deltas.len(),
{
    if deltas.len() > 0 {
        lemma_index_counts_completions(t, n, deltas.drop_last());
        let k = timer_after(t, deltas).times_finished_this_tick as int;
        let before = completions_during(t, deltas.drop_last());
        vstd::arithmetic::div_mod::lemma_add_mod_noop(before, k, n);
        vstd::arithmetic::div_mod::lemma_mod_twice(k, n);
        vstd::arithmetic::div_mod::lemma_add_mod_noop(before % n, k, n);
        vstd::arithmetic::div_mod::lemma_mod_twice(before, n);
    } else {
        vstd::arithmetic::div_mod::lemma_small_mod(0, n as nat);
    }
}

impl<H> Animation<H> {
    pub open spec fn wf(&self) -> bool {
        &&& self.frames.len() > 0
        &&& self.current_frame_index < self.frames.len()
        &&& self.timer.wf()
        &&& self.timer.mode == TimerMode::Repeating
    }

    /// A new animation on `frames`, each shown for `frame_duration`
    /// microseconds, starting at the first frame. An empty frame list gives
    /// no animation. With a zero frame duration a playing animation moves on
    /// one frame on every advance.
    pub fn new(frames: Vec<H>, frame_duration: u64, initial_state: AnimationPlaybackState) -> (r:
        Option<Self>)
        ensures
            frames@.len() == 0 <==> r.is_none(),
            r matches Some(a) ==> {
                &&& a.wf()
                &&& a.frames@ == frames@
                &&& a.timer.duration == frame_duration
                &&& a.timer.elapsed == 0
                &&& a.timer.times_finished_this_tick == 0
                &&& a.current_frame_index == 0
                &&& a.state == initial_state
            },
    {
        if frames.len() == 0 {
            None
        } else {
            Some(
                Animation {
                    frames,
                    timer: Timer::new(frame_duration, TimerMode::Repeating),
                    current_frame_index: 0,
                    state: initial_state,
                },
            )
        }
    }

    /// Lets `delta` microseconds of frame time pass. A playing animation
    /// moves forward one frame per completed interval, looping at the end; a
    /// paused or stopped one does not change at all.
    pub fn advance(&mut self, delta: u64)
        requires
            old(self).wf(),
        ensures
            final(self).wf(),
            final(self).frames@ == old(self).frames@,
            final(self).state == old(self).state,
            old(self).state == AnimationPlaybackState::Playing ==> {
                &&& final(self).timer == old(self).timer.ticked(delta)
                &&& final(self).current_frame_index == advanced_index(
                    old(self).current_frame_index as int,
                    final(self).timer.times_finished_this_tick as int,
                    old(self).frames@.len() as int,
                )
            },
            old(self).state != AnimationPlaybackState::Playing ==> final(self).timer == old(
                self,
            ).timer && final(self).current_frame_index == old(self).current_frame_index,
    {
        if self.state == AnimationPlaybackState::Playing {
            self.timer.tick(delta);
            let n = self.frames.len();
            let step = (self.timer.times_finished_this_tick % (n as u64)) as usize;
            let i = self.current_frame_index;
            let next = if i >= n - step {
                i - (n - step)
            } else {
                i + step
            };
            proof {
                let k = self.timer.times_finished_this_tick as int;
                vstd::arithmetic::div_mod::lemma_add_mod_noop_right(i as int, k, n as int);
                if i >= n - step {
                    vstd::arithmetic::div_mod::lemma_mod_sub_multiples_vanish(i + step, n as int);
                    vstd::arithmetic::div_mod::lemma_small_mod((i + step - n) as nat, n as nat);
                } else {
                    vstd::arithmetic::div_mod::lemma_small_mod((i + step) as nat, n as nat);
                }
            }
            self.current_frame_index = next;
        }
    }

    /// The frame on display.
    pub fn current_frame(&self) -> (r: &H)
        requires
            self.wf(),
        ensures
            *r == self.frames@[self.current_frame_index as int],
    {
        &self.frames[self.current_frame_index]
    }
}

} // verus!
