//! Decides on which ticks a bullet pattern fires.
//!
//! A schedule waits out a delay and fires when the delay runs out, then
//! each time a further whole interval has run out since its last shot,
//! until its repetitions are used up.

use vstd::prelude::*;
use vstd::arithmetic::div_mod::{lemma_fundamental_div_mod, lemma_fundamental_div_mod_converse};
use crate::countdown::{total_time, Countdown, CountdownState};

verus! {

/// Number of repetitions that stands for "without end".
pub const ENDLESS: i32 = -1;

/// Mathematical state of a [`ShotSchedule`].
pub struct ScheduleState {
    pub delay: CountdownState,
    pub interval: CountdownState,
    /// Shots left; zero is dormant for good, a negative number never runs out.
    pub repetitions: int,
}

impl ScheduleState {
    /// Validity: both countdowns are valid.
    pub open spec fn wf(self) -> bool {
        self.delay.wf() && self.interval.wf()
    }

    /// Repetitions left after one shot.
    pub open spec fn spend(repetitions: int) -> int {
        if repetitions > 0 {
            repetitions - 1
        } else {
            repetitions
        }
    }

    /// One tick of `delta` nanoseconds: the state after it, and whether the
    /// schedule fired.
    ///
    /// The delay is ticked first. While it has not run out, and once no
    /// repetitions are left, nothing else moves. On the tick on which the
    /// delay runs out the schedule fires. On every later tick the interval
    /// is ticked, and on the tick that completes it the schedule fires
    /// again. With each shot the interval starts over and one repetition
    /// is spent.
    pub open spec fn step(self, delta: nat) -> (ScheduleState, bool) {
        let delay = self.delay.tick(delta);
        if !delay.finished || self.repetitions == 0 {
            (ScheduleState { delay, interval: self.interval, repetitions: self.repetitions }, false)
        } else if delay.just_finished {
            (
                ScheduleState {
                    delay,
                    interval: self.interval.reset(),
                    repetitions: Self::spend(self.repetitions),
                },
                true,
            )
        } else {
            let interval = self.interval.tick(delta);
            if interval.just_finished {
                (
                    ScheduleState {
                        delay,
                        interval: interval.reset(),
                        repetitions: Self::spend(self.repetitions),
                    },
                    true,
                )
            } else {
                (ScheduleState { delay, interval, repetitions: self.repetitions }, false)
            }
        }
    }

    /// Whether the schedule is waiting for its next shot: it has
    /// repetitions left, and the countdown it waits on, the delay first
    /// and the interval after it, is still running.
    pub open spec fn waits(self) -> bool {
        &&& self.wf()
        &&& self.repetitions != 0
        &&& self.delay.finished ==> !self.interval.finished
    }

    /// Time left until the next shot is due: what is left of the delay,
    /// and after the delay what is left of the interval.
    pub open spec fn wait_left(self) -> nat {
        if !self.delay.finished {
            (self.delay.duration - self.delay.elapsed) as nat
        } else {
            (self.interval.duration - self.interval.elapsed) as nat
        }
    }

    /// State after the ticks `deltas`, in order.
    pub open spec fn after(self, deltas: Seq<nat>) -> ScheduleState
        decreases deltas.len(),
    {
        if deltas.len() == 0 {
            self
        } else {
            self.after(deltas.drop_last()).step(deltas.last()).0
        }
    }

    /// Number of ticks among `deltas` on which the schedule fires.
    pub open spec fn fires(self, deltas: Seq<nat>) -> nat
        decreases deltas.len(),
    {
        if deltas.len() == 0 {
            0
        } else {
            self.fires(deltas.drop_last()) + if self.after(deltas.drop_last()).step(
                deltas.last(),
            ).1 {
                1nat
            } else {
                0nat
            }
        }
    }
}

/// Delay, interval and repetition count of one firing entity.
#[derive(Clone, Copy, Debug)]
pub struct ShotSchedule {
    pub delay: Countdown,
    pub interval: Countdown,
    pub repetitions: i32,
}

impl View for ShotSchedule {
    type V = ScheduleState;

    open spec fn view(&self) -> ScheduleState {
        ScheduleState {
            delay: self.delay@,
            interval: self.interval@,
            repetitions: self.repetitions as int,
        }
    }
}

impl Default for ShotSchedule {
    /// No delay, no interval, one shot: fires once, on the first tick.
    fn default() -> (s: ShotSchedule)
        ensures
            s@ == (ScheduleState {
                delay: CountdownState::fresh(0),
                interval: CountdownState::fresh(0),
                repetitions: 1,
            }),
    {
        ShotSchedule { delay: Countdown::new(0), interval: Countdown::new(0), repetitions: 1 }
    }
}

/// A schedule that fires when `delay` nanoseconds have passed and then
/// every `interval` nanoseconds, `repetitions` times in all ([`ENDLESS`]
/// for no limit).
pub fn create_shot_schedule(delay: u64, interval: u64, repetitions: i32) -> (s: ShotSchedule)
    ensures
        s@ == (ScheduleState {
            delay: CountdownState::fresh(delay as nat),
            interval: CountdownState::fresh(interval as nat),
            repetitions: repetitions as int,
        }),
{
    ShotSchedule { delay: Countdown::new(delay), interval: Countdown::new(interval), repetitions }
}

/// Advances the schedule by `delta` nanoseconds and says whether it fires
/// on this tick: see [`ScheduleState::step`].
pub fn run_schedule(shot_schedule: &mut ShotSchedule, delta: u64) -> (fire: bool)
    ensures
        (final(shot_schedule)@, fire) == old(shot_schedule)@.step(delta as nat),
        final(shot_schedule)@.wf(),
{
    shot_schedule.delay.tick(delta);
    proof {
        use_type_invariant(&shot_schedule.interval);
    }
    if !shot_schedule.delay.finished() || shot_schedule.repetitions == 0 {
        return false;
    }
    let due: bool = if shot_schedule.delay.just_finished() {
        true
    } else {
        shot_schedule.interval.tick(delta);
        shot_schedule.interval.just_finished()
    };
    if due {
        shot_schedule.interval.reset();
        if shot_schedule.repetitions > 0 {
            shot_schedule.repetitions = shot_schedule.repetitions - 1;
        }
    }
    due
}

/// A schedule without repetitions left never fires again, and stays so.
pub proof fn lemma_dormant_is_permanent(s: ScheduleState, deltas: Seq<nat>)
    requires
        s.repetitions == 0,
    ensures
        s.fires(deltas) == 0,
        s.after(deltas).repetitions == 0,
    decreases deltas.len(),
{
    if deltas.len() > 0 {
        lemma_dormant_is_permanent(s, deltas.drop_last());
    }
}

/// While the ticks add up to less than what is left of the delay, the
/// schedule does not fire, and interval and repetitions do not move.
pub proof fn lemma_silent_during_delay(s: ScheduleState, deltas: Seq<nat>)
    requires
        s.wf(),
        !s.delay.finished,
        s.delay.elapsed + total_time(deltas) < s.delay.duration,
    ensures
        s.fires(deltas) == 0,
        s.after(deltas).interval == s.interval,
        s.after(deltas).repetitions == s.repetitions,
        !s.after(deltas).delay.finished,
        s.after(deltas).delay.duration == s.delay.duration,
        s.after(deltas).delay.elapsed == s.delay.elapsed + total_time(deltas),
    decreases deltas.len(),
{
    if deltas.len() > 0 {
        lemma_silent_during_delay(s, deltas.drop_last());
    }
}

/// A schedule with a finite number of repetitions fires at most that many
/// times, whatever the ticks, and each shot spends one repetition.
pub proof fn lemma_fires_bounded_by_repetitions(s: ScheduleState, deltas: Seq<nat>)
    requires
        s.repetitions >= 0,
    ensures
        s.fires(deltas) + s.after(deltas).repetitions == s.repetitions,
        s.fires(deltas) <= s.repetitions,
    decreases deltas.len(),
{
    if deltas.len() > 0 {
        lemma_fires_bounded_by_repetitions(s, deltas.drop_last());
    }
}

/// An endless schedule keeps its repetition count.
pub proof fn lemma_endless_never_runs_out(s: ScheduleState, deltas: Seq<nat>)
    requires
        s.repetitions < 0,
    ensures
        s.after(deltas).repetitions == s.repetitions,
    decreases deltas.len(),
{
    if deltas.len() > 0 {
        lemma_endless_never_runs_out(s, deltas.drop_last());
    }
}

/// While the ticks add up to less than the time left until the next shot,
/// a waiting schedule does not fire: it goes on waiting, with that much
/// less time left.
pub proof fn lemma_silent_while_waiting(s: ScheduleState, deltas: Seq<nat>)
    requires
        s.waits(),
        total_time(deltas) < s.wait_left(),
    ensures
        s.fires(deltas) == 0,
        s.after(deltas).waits(),
        s.after(deltas).wait_left() == s.wait_left() - total_time(deltas),
        s.after(deltas).repetitions == s.repetitions,
        s.after(deltas).delay.finished == s.delay.finished,
        s.after(deltas).delay.duration == s.delay.duration,
        s.after(deltas).interval.duration == s.interval.duration,
    decreases deltas.len(),
{
    if deltas.len() > 0 {
        lemma_silent_while_waiting(s, deltas.drop_last());
    }
}

/// However the time is cut into ticks, a waiting schedule fires on the
/// first tick by whose end the time left until the next shot has passed,
/// and on no tick before it. With that shot it spends one repetition, and
/// its interval starts over.
pub proof fn lemma_fires_when_wait_is_over(s: ScheduleState, deltas: Seq<nat>)
    requires
        s.waits(),
        deltas.len() > 0,
        deltas.len() == 1 || total_time(deltas.drop_last()) < s.wait_left(),
        total_time(deltas) >= s.wait_left(),
    ensures
        s.fires(deltas.drop_last()) == 0,
        s.after(deltas.drop_last()).step(deltas.last()).1,
        s.fires(deltas) == 1,
        s.after(deltas).repetitions == ScheduleState::spend(s.repetitions),
        s.after(deltas).interval == CountdownState::fresh(s.interval.duration),
        s.after(deltas).delay.finished,
        s.after(deltas).delay.duration == s.delay.duration,
        s.after(deltas).wf(),
{
    let before = deltas.drop_last();
    if before.len() > 0 {
        lemma_silent_while_waiting(s, before);
    } else {
        assert(total_time(before) == 0);
    }
}

/// However the time is cut into ticks, a fresh schedule never fires
/// early: no shot falls before the delay has passed, and each further
/// shot falls at least one interval after the shot before it, so that by
/// the time of shot number `n` the delay and `n - 1` intervals have
/// passed.
pub proof fn lemma_never_fires_early(delay: nat, interval: nat, repetitions: int, deltas: Seq<nat>)
    ensures
        ({
            let schedule = ScheduleState {
                delay: CountdownState::fresh(delay),
                interval: CountdownState::fresh(interval),
                repetitions,
            };
            let fired = schedule.fires(deltas);
            let now = schedule.after(deltas);
            &&& now.wf()
            &&& now.delay.duration == delay
            &&& now.interval.duration == interval
            &&& !now.delay.finished ==> fired == 0 && now.delay.elapsed == total_time(deltas)
            &&& now.delay.finished ==> total_time(deltas) >= delay
            &&& total_time(deltas) < delay ==> fired == 0
            &&& fired >= 1 ==> total_time(deltas) - now.interval.elapsed >= delay + (fired - 1)
                * interval
            &&& fired >= 1 ==> total_time(deltas) >= delay + (fired - 1) * interval
        }),
    decreases deltas.len(),
{
    let schedule = ScheduleState {
        delay: CountdownState::fresh(delay),
        interval: CountdownState::fresh(interval),
        repetitions,
    };
    if deltas.len() > 0 {
        lemma_never_fires_early(delay, interval, repetitions, deltas.drop_last());
        let fired_before = schedule.fires(deltas.drop_last()) as int;
        let fired = schedule.fires(deltas) as int;
        assert((fired_before + 1 - 1) * interval == (fired_before - 1) * interval + interval)
            by (nonlinear_arith);
        assert((1 - 1) * interval == 0) by (nonlinear_arith);
    }
}

/// A run of `count` ticks of `length` nanoseconds each.
pub open spec fn even_ticks(length: nat, count: nat) -> Seq<nat> {
    Seq::new(count, |i: int| length)
}

/// Number of shots that are due after `count` even ticks, where the delay
/// takes `delay_ticks` of them and the interval `interval_ticks`: none
/// before the delay is over, one on the tick that ends it, and one more
/// for each whole interval since.
pub open spec fn shots_due(delay_ticks: nat, interval_ticks: nat, count: nat) -> int {
    if count < delay_ticks {
        0
    } else {
        (count - delay_ticks) / (interval_ticks as int) + 1
    }
}

/// A fresh schedule that is ticked evenly, in ticks of any length of which
/// a whole number make up its delay and a whole number its interval, fires
/// exactly on time: on the tick that ends the delay, then on every tick
/// that ends a further interval, until its repetitions are used up, and on
/// no other tick. After `count` ticks it has fired [`shots_due`] times, or
/// as often as it had repetitions where that is less.
pub proof fn lemma_fires_on_time(
    tick: nat,
    delay_ticks: nat,
    interval_ticks: nat,
    repetitions: int,
    count: nat,
)
    requires
        tick > 0,
        delay_ticks > 0,
        interval_ticks > 0,
    ensures
        ({
            let schedule = ScheduleState {
                delay: CountdownState::fresh(delay_ticks * tick),
                interval: CountdownState::fresh(interval_ticks * tick),
                repetitions,
            };
            let due = shots_due(delay_ticks, interval_ticks, count);
            let fired: int = if repetitions < 0 || due <= repetitions {
                due
            } else {
                repetitions
            };
            let now = schedule.after(even_ticks(tick, count));
            &&& schedule.fires(even_ticks(tick, count)) == fired
            &&& now.repetitions == if repetitions < 0 {
                repetitions
            } else {
                repetitions - fired
            }
            &&& now.delay.duration == delay_ticks * tick
            &&& count < delay_ticks ==> !now.delay.finished && now.delay.elapsed == count * tick
                && now.interval == CountdownState::fresh(interval_ticks * tick)
            &&& count >= delay_ticks ==> now.delay.finished && now.delay.elapsed == delay_ticks
                * tick
            &&& count >= delay_ticks ==> now.interval == if repetitions < 0 || due < repetitions {
                CountdownState {
                    duration: interval_ticks * tick,
                    elapsed: (((count - delay_ticks) % (interval_ticks as int)) * tick) as nat,
                    finished: false,
                    just_finished: false,
                }
            } else {
                CountdownState::fresh(interval_ticks * tick)
            }
        }),
    decreases count,
{
    let b = interval_ticks as int;
    if count > 0 {
        let before = (count - 1) as nat;
        lemma_fires_on_time(tick, delay_ticks, interval_ticks, repetitions, before);
        assert(even_ticks(tick, count).drop_last() =~= even_ticks(tick, before));
        assert(even_ticks(tick, count).last() == tick);
        assert(before * tick + tick == count * tick) by (nonlinear_arith)
            requires
                before + 1 == count,
        ;
        assert(count < delay_ticks ==> count * tick < delay_ticks * tick) by (nonlinear_arith)
            requires
                tick > 0,
        ;
        assert(count >= delay_ticks ==> count * tick >= delay_ticks * tick) by (nonlinear_arith)
            requires
                tick > 0,
        ;
        if count == delay_ticks {
            assert(0int / b == 0 && 0int % b == 0) by (nonlinear_arith)
                requires
                    b > 0,
            ;
            assert(0 * tick == 0) by (nonlinear_arith);
        } else if count > delay_ticks {
            let x = before - delay_ticks;
            let q = x / b;
            let r = x % b;
            lemma_fundamental_div_mod(x, b);
            assert(0 <= r < b);
            if r + 1 == b {
                assert(x + 1 == (q + 1) * b + 0) by (nonlinear_arith)
                    requires
                        x == b * q + r,
                        r + 1 == b,
                ;
                lemma_fundamental_div_mod_converse(x + 1, b, q + 1, 0);
                assert(r * tick + tick == b * tick) by (nonlinear_arith)
                    requires
                        r + 1 == b,
                ;
                assert(0 * tick == 0) by (nonlinear_arith);
            } else {
                assert(x + 1 == q * b + (r + 1)) by (nonlinear_arith)
                    requires
                        x == b * q + r,
                ;
                lemma_fundamental_div_mod_converse(x + 1, b, q, r + 1);
                assert(r * tick + tick == (r + 1) * tick) by (nonlinear_arith);
                assert((r + 1) * tick < b * tick) by (nonlinear_arith)
                    requires
                        r + 1 < b,
                        tick > 0,
                ;
            }
            assert(r * tick >= 0) by (nonlinear_arith)
                requires
                    r >= 0,
                    tick > 0,
            ;
        }
    } else {
        assert(0 * tick == 0) by (nonlinear_arith);
    }
}

/// A tick keeps a valid schedule valid.
pub proof fn lemma_step_keeps_valid(s: ScheduleState, delta: nat)
    requires
        s.wf(),
    ensures
        s.step(delta).0.wf(),
{
}

/// At most one volley per tick: a tick of no time right after a shot does
/// not fire again unless the interval is zero.
pub proof fn lemma_no_second_shot_without_time(s: ScheduleState, delta: nat)
    requires
        s.wf(),
        s.interval.duration > 0,
        s.step(delta).1,
    ensures
        !s.step(delta).0.step(0).1,
{
}

} // verus!
