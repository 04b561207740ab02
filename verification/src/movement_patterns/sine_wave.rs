//! Travel down the screen along a sine wave.

use vstd::prelude::*;
use vstd::arithmetic::div_mod::{lemma_fundamental_div_mod, lemma_fundamental_div_mod_converse};
use crate::geometry::{clamp_i64, over_time, rate_over_time, Point, TAU};
use crate::movement_patterns::{MovementPatterns, Step};

verus! {

/// A sine wave around a fixed column. It never ends.
#[derive(Clone, Copy, Debug, PartialEq, Eq, Structural)]
pub struct SineWave {
    /// Greatest distance from the column, in thousandths of a unit.
    pub amplitude: i32,
    /// Height of one full wave, in thousandths of a unit.
    pub wavelength: i32,
    /// Speed of the fall, in thousandths of a unit per second.
    pub frequency: i32,
    /// A point of the column, where the wave starts.
    pub starting_position: Point,
}

/// Phase of a wave of length `wavelength` at the height `height` above
/// its start, in microradians: the part of the height that is left over
/// from whole waves, as a share of a full turn; counted backwards for a
/// negative wavelength, and zero for a wave of no length.
pub open spec fn wave_phase(height: int, wavelength: int) -> int {
    if wavelength == 0 {
        0
    } else if wavelength > 0 {
        (TAU * (height % wavelength)) / wavelength
    } else {
        -((TAU * (height % (-wavelength))) / (-wavelength))
    }
}

impl SineWave {
    /// Height after a tick of `delta` nanoseconds that starts at height
    /// `y`: lower by the fall over that time.
    pub open spec fn height_after(self, y: int, delta: nat) -> int {
        clamp_i64(y - over_time(self.frequency as int, delta as int))
    }

    /// The step of a tick of `delta` nanoseconds for an entity at
    /// `position`.
    pub open spec fn step(self, position: Point, delta: nat) -> Step {
        let y = self.height_after(position.y as int, delta);
        Step::Wave {
            x_origin: self.starting_position.x,
            amplitude: self.amplitude,
            phase: wave_phase(y - self.starting_position.y, self.wavelength as int) as i64,
            y: y as i64,
        }
    }

    /// Moves an entity at `position` for `delta` nanoseconds.
    pub fn do_move(&self, position: Point, delta: u64) -> (step: Step)
        ensures
            step == self.step(position, delta as nat),
    {
        let fall: i64 = rate_over_time(self.frequency, delta);
        let lowered: i128 = position.y as i128 - fall as i128;
        let y: i64 = if lowered > i64::MAX as i128 {
            i64::MAX
        } else if lowered < i64::MIN as i128 {
            i64::MIN
        } else {
            lowered as i64
        };
        let height: i128 = y as i128 - self.starting_position.y as i128;
        let phase: i64 = phase_of(height, self.wavelength);
        Step::Wave {
            x_origin: self.starting_position.x,
            amplitude: self.amplitude,
            phase,
            y,
        }
    }

    /// A wave does not count as drifting sideways.
    pub fn lateral_movement(&self) -> (angle: i64)
        ensures
            angle == 0,
    {
        0
    }

    /// A wave never ends.
    pub fn is_finished(&self) -> (finished: bool)
        ensures
            !finished,
    {
        false
    }
}

/// Computes [`wave_phase`] on machine integers.
fn phase_of(height: i128, wavelength: i32) -> (phase: i64)
    requires
        -0x1_0000_0000_0000_0000_0000 <= height <= 0x1_0000_0000_0000_0000_0000,
    ensures
        phase == wave_phase(height as int, wavelength as int),
        -TAU < phase < TAU,
{
    if wavelength == 0 {
        return 0;
    }
    let length: i128 = if wavelength > 0 {
        wavelength as i128
    } else {
        -(wavelength as i128)
    };
    let rest: i128 = if height >= 0 {
        height % length
    } else {
        let back: i128 = (-height) % length;
        proof {
            let whole = (-height) / (length as int);
            lemma_fundamental_div_mod(-height, length as int);
            if back == 0 {
                assert(height == (-whole) * length + 0) by (nonlinear_arith)
                    requires
                        -height == length * whole + 0,
                ;
                lemma_fundamental_div_mod_converse(height as int, length as int, -whole, 0);
            } else {
                assert(height == (-whole - 1) * length + (length - back)) by (nonlinear_arith)
                    requires
                        -height == length * whole + back,
                ;
                lemma_fundamental_div_mod_converse(
                    height as int,
                    length as int,
                    -whole - 1,
                    length - back,
                );
            }
        }
        if back == 0 {
            0
        } else {
            length - back
        }
    };
    assert(0 <= (TAU as i128) * rest <= 6_283_185 * 0x8000_0000) by (nonlinear_arith)
        requires
            0 <= rest < length <= 0x8000_0000,
            TAU == 6_283_185,
    ;
    let turned: i128 = ((TAU as i128) * rest) / length;
    assert(0 <= turned < TAU) by (nonlinear_arith)
        requires
            0 <= rest < length,
            TAU > 0,
            turned == (TAU * rest) / (length as int),
    ;
    if wavelength > 0 {
        turned as i64
    } else {
        (-turned) as i64
    }
}

/// The sine-wave pattern with these measures around the column of
/// `starting_position`.
pub fn create_sine_wave_pattern(
    amplitude: i32,
    wavelength: i32,
    frequency: i32,
    starting_position: Point,
) -> (pattern: MovementPatterns)
    ensures
        pattern == MovementPatterns::SineWavePattern(
            SineWave { amplitude, wavelength, frequency, starting_position },
        ),
{
    MovementPatterns::SineWavePattern(
        SineWave { amplitude, wavelength, frequency, starting_position },
    )
}

} // verus!
