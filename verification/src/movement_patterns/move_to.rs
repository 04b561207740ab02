//! Travel to a fixed destination, slowing down evenly to a halt there.

use vstd::prelude::*;
use crate::geometry::{distance, distance_squared, is_sqrt, Point, NANOS_PER_SECOND};
use crate::countdown::total_time;
use crate::movement_patterns::{MovementPatterns, Step};

verus! {

/// Number of steps the progress of a move is counted in.
pub const PROGRESS_SCALE: u64 = 0x1_0000_0000;

/// Mathematical content of a [`MoveTo`].
pub struct MoveToState {
    /// Where the move ends.
    pub destination: Point,
    /// Length of the whole way, in thousandths of a unit.
    pub distance: int,
    /// Time the move takes, in nanoseconds.
    pub duration: nat,
    /// Time spent so far, never more than `duration`.
    pub elapsed: nat,
}

impl MoveToState {
    /// Validity of a move.
    pub open spec fn wf(self) -> bool {
        &&& 0 <= self.distance <= 0x2_0000_0000
        &&& self.elapsed <= self.duration <= u64::MAX
    }

    /// Share of the time that is over after `elapsed` nanoseconds, counted
    /// in steps of one part in [`PROGRESS_SCALE`].
    pub open spec fn progress_at(self, elapsed: nat) -> int {
        if self.duration == 0 {
            PROGRESS_SCALE as int
        } else {
            (elapsed * PROGRESS_SCALE) / (self.duration as int)
        }
    }

    /// Way covered after `elapsed` nanoseconds. The speed falls evenly
    /// from twice the mean speed to zero, so with the share `p` of the
    /// time over, the share `p * (2 - p)` of the way is covered. A move of
    /// no duration covers nothing.
    pub open spec fn travelled_at(self, elapsed: nat) -> int {
        if self.duration == 0 {
            0
        } else {
            let p = self.progress_at(elapsed);
            (self.distance * (p * (2 * PROGRESS_SCALE - p))) / (PROGRESS_SCALE * PROGRESS_SCALE)
        }
    }

    /// Speed after `elapsed` nanoseconds, in thousandths of a unit per
    /// second, rounded down: it starts at twice the mean speed of the
    /// move, the whole way in half the time, and falls evenly to zero.
    pub open spec fn speed_at(self, elapsed: nat) -> int {
        if self.duration == 0 {
            0
        } else {
            (2 * self.distance * NANOS_PER_SECOND * (PROGRESS_SCALE - self.progress_at(elapsed)))
                / (self.duration * PROGRESS_SCALE)
        }
    }

    /// Speed now.
    pub open spec fn speed(self) -> int {
        self.speed_at(self.elapsed)
    }

    /// Way covered so far.
    pub open spec fn travelled(self) -> int {
        self.travelled_at(self.elapsed)
    }

    /// Whether the move is over: its time has run out, and its speed with
    /// it.
    pub open spec fn finished(self) -> bool {
        self.elapsed >= self.duration
    }

    /// The move after `delta` more nanoseconds.
    pub open spec fn advanced(self, delta: nat) -> MoveToState {
        MoveToState {
            elapsed: if self.elapsed + delta >= self.duration {
                self.duration
            } else {
                self.elapsed + delta
            },
            ..self
        }
    }

    /// The step of a tick of `delta` nanoseconds: toward the destination,
    /// by as much as the way covered grows; none once the move is over.
    pub open spec fn step(self, delta: nat) -> Step {
        if self.finished() {
            Step::Rest
        } else {
            Step::Toward {
                distance: (self.advanced(delta).travelled() - self.travelled()) as i64,
                destination: self.destination,
            }
        }
    }

    /// The move after the ticks `deltas`, in order.
    pub open spec fn after(self, deltas: Seq<nat>) -> MoveToState
        decreases deltas.len(),
    {
        if deltas.len() == 0 {
            self
        } else {
            self.after(deltas.drop_last()).advanced(deltas.last())
        }
    }

    /// Way covered by the ticks `deltas`, added up step by step.
    pub open spec fn covered(self, deltas: Seq<nat>) -> int
        decreases deltas.len(),
    {
        if deltas.len() == 0 {
            0
        } else {
            self.covered(deltas.drop_last()) + match self.after(deltas.drop_last()).step(
                deltas.last(),
            ) {
                Step::Toward { distance, .. } => distance as int,
                _ => 0,
            }
        }
    }
}

/// A move to a destination that comes to a halt there.
#[derive(Clone, Copy, Debug, PartialEq, Eq)]
pub struct MoveTo {
    destination: Point,
    distance: i64,
    duration: u64,
    elapsed: u64,
}

impl View for MoveTo {
    type V = MoveToState;

    closed spec fn view(&self) -> MoveToState {
        MoveToState {
            destination: self.destination,
            distance: self.distance as int,
            duration: self.duration as nat,
            elapsed: self.elapsed as nat,
        }
    }
}

/// The way covered grows with the time, from nothing to the whole way.
pub proof fn lemma_travelled_grows(state: MoveToState, earlier: nat, later: nat)
    requires
        state.wf(),
        earlier <= later <= state.duration,
    ensures
        0 <= state.travelled_at(earlier) <= state.travelled_at(later) <= state.distance,
        state.travelled_at(0) == 0,
        state.duration > 0 ==> state.travelled_at(state.duration) == state.distance,
{
    if state.duration > 0 {
        let scale = PROGRESS_SCALE as int;
        let duration = state.duration as int;
        let p = state.progress_at(earlier);
        let q = state.progress_at(later);
        assert(0 <= p <= q <= scale) by (nonlinear_arith)
            requires
                0 <= earlier <= later <= duration,
                duration > 0,
                scale > 0,
                p == (earlier * scale) / duration,
                q == (later * scale) / duration,
        ;
        assert(0 <= p * (2 * scale - p) <= q * (2 * scale - q) <= scale * scale)
            by (nonlinear_arith)
            requires
                0 <= p <= q <= scale,
        ;
        let a = state.distance * (p * (2 * scale - p));
        let b = state.distance * (q * (2 * scale - q));
        let whole = state.distance * (scale * scale);
        assert(0 <= a <= b <= whole) by (nonlinear_arith)
            requires
                0 <= state.distance,
                0 <= p * (2 * scale - p) <= q * (2 * scale - q) <= scale * scale,
                a == state.distance * (p * (2 * scale - p)),
                b == state.distance * (q * (2 * scale - q)),
                whole == state.distance * (scale * scale),
        ;
        assert(0 <= a / (scale * scale) <= b / (scale * scale) <= state.distance)
            by (nonlinear_arith)
            requires
                0 <= a <= b <= whole,
                whole == state.distance * (scale * scale),
                scale * scale > 0,
        ;
        assert(state.progress_at(0) == 0) by (nonlinear_arith)
            requires
                duration > 0,
                state.progress_at(0) == (0 * scale) / duration,
        ;
        assert(state.travelled_at(0) == 0) by (nonlinear_arith)
            requires
                state.travelled_at(0) == (state.distance * (0 * (2 * scale - 0))) / (scale * scale),
                scale > 0,
        ;
        assert(state.progress_at(state.duration) == scale) by (nonlinear_arith)
            requires
                duration > 0,
                state.progress_at(state.duration) == (duration * scale) / duration,
        ;
        assert(state.travelled_at(state.duration) == state.distance) by (nonlinear_arith)
            requires
                state.travelled_at(state.duration) == (state.distance * (scale * (2 * scale
                    - scale))) / (scale * scale),
                scale > 0,
        ;
    }
}

impl MoveTo {
    /// Every move is valid.
    #[verifier::type_invariant]
    pub open spec fn inv(self) -> bool {
        self@.wf()
    }

    /// Way covered so far, in thousandths of a unit.
    pub fn travelled(&self) -> (way: i64)
        ensures
            way == self@.travelled(),
            0 <= way <= self@.distance,
    {
        proof {
            use_type_invariant(self);
            lemma_travelled_grows(self@, self@.elapsed, self@.elapsed);
        }
        if self.duration == 0 {
            0
        } else {
            let scale: u128 = PROGRESS_SCALE as u128;
            assert(0 <= (self.elapsed as u128) * scale <= 0x1_0000_0000_0000_0000 * 0x1_0000_0000)
                by (nonlinear_arith)
                requires
                    0 <= self.elapsed <= 0x1_0000_0000_0000_0000,
                    scale == 0x1_0000_0000,
            ;
            let p: u128 = ((self.elapsed as u128) * scale) / (self.duration as u128);
            assert(0 <= p <= scale) by (nonlinear_arith)
                requires
                    0 <= self.elapsed <= self.duration,
                    self.duration > 0,
                    scale > 0,
                    p == (self.elapsed * scale) / (self.duration as int),
            ;
            assert(0 <= p * (2 * scale - p) <= scale * scale) by (nonlinear_arith)
                requires
                    0 <= p <= scale,
            ;
            assert(scale * scale == 0x1_0000_0000_0000_0000) by (nonlinear_arith)
                requires
                    scale == 0x1_0000_0000,
            ;
            let curve: u128 = p * (2 * scale - p);
            assert(0 <= (self.distance as u128) * curve <= 0x2_0000_0000 * 0x1_0000_0000_0000_0000)
                by (nonlinear_arith)
                requires
                    0 <= self.distance <= 0x2_0000_0000,
                    0 <= curve <= 0x1_0000_0000_0000_0000,
            ;
            let way: u128 = ((self.distance as u128) * curve) / (scale * scale);
            way as i64
        }
    }

    /// Speed now, in thousandths of a unit per second.
    pub fn current_speed(&self) -> (speed: u64)
        ensures
            speed == self@.speed(),
            self@.finished() ==> speed == 0,
    {
        proof {
            use_type_invariant(self);
        }
        if self.duration == 0 {
            0
        } else {
            let scale: u128 = PROGRESS_SCALE as u128;
            assert(0 <= (self.elapsed as u128) * scale <= 0x1_0000_0000_0000_0000 * 0x1_0000_0000)
                by (nonlinear_arith)
                requires
                    0 <= self.elapsed <= 0x1_0000_0000_0000_0000,
                    scale == 0x1_0000_0000,
            ;
            let p: u128 = ((self.elapsed as u128) * scale) / (self.duration as u128);
            assert(0 <= p <= scale) by (nonlinear_arith)
                requires
                    0 <= self.elapsed <= self.duration,
                    self.duration > 0,
                    scale > 0,
                    p == (self.elapsed * scale) / (self.duration as int),
            ;
            assert(self.elapsed == self.duration ==> p == scale) by (nonlinear_arith)
                requires
                    self.duration > 0,
                    scale > 0,
                    p == (self.elapsed * scale) / (self.duration as int),
            ;
            let double: u128 = 2 * (self.distance as u128);
            assert(0 <= double * (NANOS_PER_SECOND as u128) <= 0x4_0000_0000 * 1_000_000_000)
                by (nonlinear_arith)
                requires
                    0 <= double <= 0x4_0000_0000,
                    NANOS_PER_SECOND == 1_000_000_000,
            ;
            let twice: u128 = double * (NANOS_PER_SECOND as u128);
            assert(twice == 2 * self.distance * NANOS_PER_SECOND) by (nonlinear_arith)
                requires
                    twice == double * NANOS_PER_SECOND,
                    double == 2 * self.distance,
            ;
            assert(0 <= twice * (scale - p) <= (0x4_0000_0000 * 1_000_000_000) * 0x1_0000_0000)
                by (nonlinear_arith)
                requires
                    0 <= twice <= 0x4_0000_0000 * 1_000_000_000,
                    0 <= scale - p <= 0x1_0000_0000,
            ;
            assert(0 < (self.duration as u128) * scale <= 0x1_0000_0000_0000_0000 * 0x1_0000_0000)
                by (nonlinear_arith)
                requires
                    0 < self.duration <= 0x1_0000_0000_0000_0000,
                    scale == 0x1_0000_0000,
            ;
            let numerator: u128 = twice * (scale - p);
            let denominator: u128 = (self.duration as u128) * scale;
            let speed: u128 = numerator / denominator;
            assert(speed <= twice) by (nonlinear_arith)
                requires
                    numerator == twice * (scale - p),
                    denominator == self.duration * scale,
                    0 <= scale - p <= scale,
                    self.duration >= 1,
                    scale > 0,
                    twice >= 0,
                    speed == (numerator as int) / (denominator as int),
            ;
            assert(numerator == 0 ==> speed == 0);
            assert(p == scale ==> numerator == 0) by (nonlinear_arith)
                requires
                    numerator == twice * (scale - p),
            ;
            speed as u64
        }
    }

    /// Where the move ends.
    pub fn destination(&self) -> (destination: Point)
        ensures
            destination == self@.destination,
    {
        self.destination
    }

    /// Moves for `delta` nanoseconds.
    pub fn do_move(&mut self, delta: u64) -> (step: Step)
        ensures
            final(self)@ == old(self)@.advanced(delta as nat),
            step == old(self)@.step(delta as nat),
    {
        proof {
            use_type_invariant(&*self);
        }
        if self.elapsed >= self.duration {
            return Step::Rest;
        }
        let before: i64 = self.travelled();
        let elapsed: u64 = if delta >= self.duration - self.elapsed {
            self.duration
        } else {
            self.elapsed + delta
        };
        proof {
            lemma_travelled_grows(self@, self@.elapsed, elapsed as nat);
        }
        *self = MoveTo {
            destination: self.destination,
            distance: self.distance,
            duration: self.duration,
            elapsed,
        };
        let now: i64 = self.travelled();
        Step::Toward { distance: now - before, destination: self.destination }
    }

    /// A move does not drift sideways.
    pub fn lateral_movement(&self) -> (angle: i64)
        ensures
            angle == 0,
    {
        0
    }

    /// Whether the move is over.
    pub fn is_finished(&self) -> (finished: bool)
        ensures
            finished == self@.finished(),
    {
        self.elapsed >= self.duration
    }
}

/// A move from `starting_position` to `destination` that takes `time`
/// nanoseconds and slows down evenly to a halt. With no time at all the
/// move is over at once and covers nothing.
pub fn create_move_to_pattern(starting_position: Point, destination: Point, time: u64) -> (pattern:
    MovementPatterns)
    ensures
        pattern matches MovementPatterns::MoveToPattern(made) && made@.destination == destination
            && is_sqrt(distance_squared(starting_position, destination), made@.distance)
            && made@.duration == time && made@.elapsed == 0,
{
    MovementPatterns::MoveToPattern(
        MoveTo {
            destination,
            distance: distance(starting_position, destination),
            duration: time,
            elapsed: 0,
        },
    )
}

/// A move sets out at twice its mean speed and has no speed left when it
/// is over.
pub proof fn lemma_speed_runs_out(state: MoveToState)
    requires
        state.wf(),
        state.duration > 0,
    ensures
        state.speed_at(0) == (2 * state.distance * NANOS_PER_SECOND) / (state.duration as int),
        state.speed_at(state.duration) == 0,
{
    let scale = PROGRESS_SCALE as int;
    let duration = state.duration as int;
    let twice = 2 * state.distance * NANOS_PER_SECOND;
    assert(state.progress_at(0) == 0) by (nonlinear_arith)
        requires
            duration > 0,
            state.progress_at(0) == (0 * scale) / duration,
    ;
    assert(state.progress_at(state.duration) == scale) by (nonlinear_arith)
        requires
            duration > 0,
            state.progress_at(state.duration) == (duration * scale) / duration,
    ;
    assert((twice * (scale - 0)) / (duration * scale) == twice / duration) by {
        vstd::arithmetic::div_mod::lemma_div_multiples_vanish_quotient(scale, twice, duration);
        assert(twice * scale == scale * twice) by (nonlinear_arith);
        assert(duration * scale == scale * duration) by (nonlinear_arith);
    }
    assert((twice * (scale - scale)) / (duration * scale) == 0) by (nonlinear_arith)
        requires
            duration > 0,
            scale > 0,
    ;
}

/// The ticks of a move add up: the way covered step by step is the way
/// covered at the end less the way covered at the start.
pub proof fn lemma_steps_add_up(state: MoveToState, deltas: Seq<nat>)
    requires
        state.wf(),
    ensures
        state.after(deltas).wf(),
        state.after(deltas).elapsed == if state.elapsed + total_time(deltas) >= state.duration {
            state.duration
        } else {
            state.elapsed + total_time(deltas)
        },
        state.after(deltas).distance == state.distance,
        state.after(deltas).duration == state.duration,
        state.after(deltas).destination == state.destination,
        state.covered(deltas) == state.after(deltas).travelled() - state.travelled(),
    decreases deltas.len(),
{
    if deltas.len() > 0 {
        lemma_steps_add_up(state, deltas.drop_last());
        let before = state.after(deltas.drop_last());
        let now = before.advanced(deltas.last());
        lemma_travelled_grows(before, before.elapsed, now.elapsed);
    }
}

/// A fresh move of positive duration that is advanced by its whole
/// duration, in ticks of any size, covers exactly the way from its start
/// to its destination, and is then over. On the way it never covers more.
pub proof fn lemma_move_arrives(state: MoveToState, deltas: Seq<nat>)
    requires
        state.wf(),
        state.duration > 0,
        state.elapsed == 0,
    ensures
        0 <= state.covered(deltas) <= state.distance,
        total_time(deltas) >= state.duration ==> state.covered(deltas) == state.distance
            && state.after(deltas).finished(),
        total_time(deltas) < state.duration ==> !state.after(deltas).finished(),
{
    lemma_steps_add_up(state, deltas);
    lemma_travelled_grows(state, 0, state.after(deltas).elapsed);
}

} // verus!
