//! One-shot countdowns measured in nanoseconds.
//!
//! A countdown accumulates the time handed to [`Countdown::tick`] until its
//! duration is reached, reports the tick on which that happened, and then
//! stays finished until it is reset.

use vstd::prelude::*;

verus! {

/// Mathematical state of a [`Countdown`].
pub struct CountdownState {
    /// Time the countdown runs for, in nanoseconds.
    pub duration: nat,
    /// Time accumulated so far, never more than `duration`.
    pub elapsed: nat,
    /// The duration has been reached.
    pub finished: bool,
    /// The duration was reached by the latest tick.
    pub just_finished: bool,
}

impl CountdownState {
    /// Validity of a countdown state.
    pub open spec fn wf(self) -> bool {
        &&& self.elapsed <= self.duration
        &&& self.finished ==> self.elapsed == self.duration
        &&& self.just_finished ==> self.finished
    }

    /// A countdown that has not been ticked yet.
    pub open spec fn fresh(duration: nat) -> CountdownState {
        CountdownState { duration, elapsed: 0, finished: false, just_finished: false }
    }

    /// State after `delta` nanoseconds have passed.
    pub open spec fn tick(self, delta: nat) -> CountdownState {
        if self.finished {
            CountdownState { just_finished: false, ..self }
        } else if self.elapsed + delta >= self.duration {
            CountdownState { elapsed: self.duration, finished: true, just_finished: true, ..self }
        } else {
            CountdownState { elapsed: self.elapsed + delta, just_finished: false, ..self }
        }
    }

    /// State after a reset: the same duration, nothing elapsed.
    pub open spec fn reset(self) -> CountdownState {
        CountdownState::fresh(self.duration)
    }

    /// State after the ticks `deltas`, in order.
    pub open spec fn after(self, deltas: Seq<nat>) -> CountdownState
        decreases deltas.len(),
    {
        if deltas.len() == 0 {
            self
        } else {
            self.after(deltas.drop_last()).tick(deltas.last())
        }
    }

    /// Number of ticks among `deltas` that report the end of the
    /// countdown.
    pub open spec fn ends_reported(self, deltas: Seq<nat>) -> nat
        decreases deltas.len(),
    {
        if deltas.len() == 0 {
            0
        } else {
            self.ends_reported(deltas.drop_last()) + if self.after(deltas).just_finished {
                1nat
            } else {
                0nat
            }
        }
    }
}

/// The time a run of ticks takes: the sum of `deltas`.
pub open spec fn total_time(deltas: Seq<nat>) -> nat
    decreases deltas.len(),
{
    if deltas.len() == 0 {
        0
    } else {
        total_time(deltas.drop_last()) + deltas.last()
    }
}

/// A countdown runs to its end and reports that once: however the time
/// is cut into ticks, a countdown that has not ended ends as soon as the
/// ticks add up to what was left of it, not before, and exactly one tick
/// reports the end.
pub proof fn lemma_countdown_ends_once(countdown: CountdownState, deltas: Seq<nat>)
    requires
        countdown.wf(),
        !countdown.finished,
    ensures
        countdown.after(deltas).wf(),
        countdown.after(deltas).duration == countdown.duration,
        countdown.after(deltas).finished <==> deltas.len() > 0 && countdown.elapsed
            + total_time(deltas) >= countdown.duration,
        !countdown.after(deltas).finished ==> countdown.after(deltas).elapsed == countdown.elapsed
            + total_time(deltas),
        countdown.ends_reported(deltas) == if countdown.after(deltas).finished {
            1nat
        } else {
            0nat
        },
    decreases deltas.len(),
{
    if deltas.len() > 0 {
        lemma_countdown_ends_once(countdown, deltas.drop_last());
        assert(deltas.drop_last().len() == 0 ==> total_time(deltas.drop_last()) == 0);
    }
}

/// A one-shot countdown.
#[derive(Clone, Copy, Debug)]
pub struct Countdown {
    duration: u64,
    elapsed: u64,
    finished: bool,
    just_finished: bool,
}

impl View for Countdown {
    type V = CountdownState;

    closed spec fn view(&self) -> CountdownState {
        CountdownState {
            duration: self.duration as nat,
            elapsed: self.elapsed as nat,
            finished: self.finished,
            just_finished: self.just_finished,
        }
    }
}

impl Countdown {
    /// Every countdown is in a valid state.
    #[verifier::type_invariant]
    pub open spec fn inv(self) -> bool {
        self@.wf()
    }

    /// A countdown of `duration` nanoseconds that has not started.
    pub fn new(duration: u64) -> (c: Countdown)
        ensures
            c@ == CountdownState::fresh(duration as nat),
    {
        Countdown { duration, elapsed: 0, finished: false, just_finished: false }
    }

    /// Lets `delta` nanoseconds pass.
    pub fn tick(&mut self, delta: u64)
        ensures
            final(self)@ == old(self)@.tick(delta as nat),
            final(self)@.wf(),
    {
        proof {
            use_type_invariant(&*self);
        }
        if self.finished {
            self.just_finished = false;
        } else if delta >= self.duration - self.elapsed {
            self.elapsed = self.duration;
            self.finished = true;
            self.just_finished = true;
        } else {
            self.elapsed = self.elapsed + delta;
            self.just_finished = false;
        }
    }

    /// Starts the countdown over.
    pub fn reset(&mut self)
        ensures
            final(self)@ == old(self)@.reset(),
    {
        *self = Countdown::new(self.duration);
    }

    /// Whether the duration has been reached.
    pub fn finished(&self) -> (b: bool)
        ensures
            b == self@.finished,
    {
        self.finished
    }

    /// Whether the duration was reached by the latest tick.
    pub fn just_finished(&self) -> (b: bool)
        ensures
            b == self@.just_finished,
    {
        self.just_finished
    }

    /// The configured duration in nanoseconds.
    pub fn duration(&self) -> (d: u64)
        ensures
            d == self@.duration,
    {
        self.duration
    }

    /// The time accumulated so far in nanoseconds.
    pub fn elapsed(&self) -> (e: u64)
        ensures
            e == self@.elapsed,
            e <= self@.duration,
    {
        proof {
            use_type_invariant(self);
        }
        self.elapsed
    }
}

impl Default for Countdown {
    /// A countdown of zero duration: it finishes on its first tick.
    fn default() -> (c: Countdown)
        ensures
            c@ == CountdownState::fresh(0),
    {
        Countdown::new(0)
    }
}

} // verus!
