//! Rings of bullets: evenly spread lines, one ring per bullet type.

use vstd::prelude::*;
use vstd::arithmetic::div_mod::lemma_fundamental_div_mod_converse;
use crate::bullet::{BulletSpawnEvent, BulletType};
use crate::bullet_patterns::PatternError;
use crate::geometry::{interpolate, lerp, Point, TAU};
use crate::movement_patterns::straight_line::{create_straight_line_pattern, StraightLine};
use crate::movement_patterns::MovementPatterns;

verus! {

/// Mathematical content of a [`Starburst`].
pub struct StarburstSpec {
    /// One ring per entry.
    pub bullets: Seq<BulletType>,
    /// Number of bullets in each ring.
    pub num_lines: nat,
    /// Width of the arc the lines cover, in microradians.
    pub spread: int,
    /// Speed of the first and of the last ring.
    pub speed_range: (int, int),
    /// Rotation of the whole arc, in microradians.
    pub offset: int,
}

impl StarburstSpec {
    /// Validity: at least one bullet type, an arc that is not negative,
    /// and measures that fit the machine's numbers: spread, offset and
    /// both ends of the speed range a 32-bit integer, the number of lines a
    /// `usize`.
    pub open spec fn wf(self) -> bool {
        &&& self.bullets.len() > 0
        &&& 0 <= self.spread <= i32::MAX
        &&& i32::MIN <= self.speed_range.0 <= i32::MAX
        &&& i32::MIN <= self.speed_range.1 <= i32::MAX
        &&& i32::MIN <= self.offset <= i32::MAX
        &&& self.num_lines <= usize::MAX
    }

    /// Direction of line `line`: the arc is centred on `angle`, turned by
    /// the offset, and cut into `num_lines` equal steps from its low edge.
    pub open spec fn line_angle(self, angle: int, line: int) -> int {
        angle - self.spread / 2 + self.offset + (self.spread * line) / (self.num_lines as int)
    }

    /// Speed of ring `rank`: the first ring has the first speed of the
    /// range, the last ring the second, the others lie evenly between.
    pub open spec fn rank_speed(self, rank: int) -> int {
        lerp(self.speed_range.0, self.speed_range.1, rank, self.bullets.len() - 1)
    }

    /// The bullet of ring `rank` on line `line`.
    pub open spec fn event(self, origin: Point, angle: int, rank: int, line: int) -> BulletSpawnEvent {
        BulletSpawnEvent {
            bullet_type: self.bullets[rank],
            position: origin,
            movement_pattern: MovementPatterns::StraightLinePattern(
                StraightLine {
                    angle: self.line_angle(angle, line) as i64,
                    speed: self.rank_speed(rank) as i32,
                },
            ),
        }
    }

    /// The first `count` bullets of a volley, ring after ring.
    pub open spec fn volley_prefix(self, origin: Point, angle: int, count: nat) -> Seq<
        BulletSpawnEvent,
    > {
        Seq::new(
            count,
            |j: int|
                self.event(origin, angle, j / (self.num_lines as int), j % (self.num_lines as int)),
        )
    }

    /// The whole volley fired from `origin` around `angle`.
    pub open spec fn volley(self, origin: Point, angle: int) -> Seq<BulletSpawnEvent> {
        self.volley_prefix(origin, angle, self.bullets.len() * self.num_lines)
    }
}

/// Bullets of several types fired along evenly spread lines.
#[derive(Debug)]
pub struct Starburst {
    bullets: Vec<BulletType>,
    num_lines: usize,
    spread: i32,
    speed_first: i32,
    speed_last: i32,
    offset: i32,
}

impl View for Starburst {
    type V = StarburstSpec;

    closed spec fn view(&self) -> StarburstSpec {
        StarburstSpec {
            bullets: self.bullets@,
            num_lines: self.num_lines as nat,
            spread: self.spread as int,
            speed_range: (self.speed_first as int, self.speed_last as int),
            offset: self.offset as int,
        }
    }
}

impl Default for Starburst {
    /// One white arrow type, no lines, a full circle, no speed, no offset.
    fn default() -> (pattern: Starburst)
        ensures
            pattern@ == (StarburstSpec {
                bullets: seq![BulletType::WhiteArrow],
                num_lines: 0,
                spread: TAU as int,
                speed_range: (0, 0),
                offset: 0,
            }),
    {
        let mut bullets: Vec<BulletType> = Vec::new();
        bullets.push(BulletType::WhiteArrow);
        assert(bullets@ =~= seq![BulletType::WhiteArrow]);
        Starburst { bullets, num_lines: 0, spread: TAU, speed_first: 0, speed_last: 0, offset: 0 }
    }
}

impl Starburst {
    /// Every starburst is valid.
    #[verifier::type_invariant]
    pub open spec fn inv(self) -> bool {
        self@.wf()
    }

    /// A starburst of `num_lines` lines for each of `bullets`, over an arc
    /// of `spread` microradians turned by `offset`, with ring speeds from
    /// `speed_range.0` to `speed_range.1`.
    ///
    /// An empty list of bullets and a negative spread are refused.
    pub fn new(
        bullets: Vec<BulletType>,
        num_lines: usize,
        spread: i32,
        speed_range: (i32, i32),
        offset: i32,
    ) -> (made: Result<Starburst, PatternError>)
        ensures
            bullets.len() == 0 ==> made == Err::<Starburst, PatternError>(
                PatternError::EmptyBulletList,
            ),
            bullets.len() > 0 && spread < 0 ==> made == Err::<Starburst, PatternError>(
                PatternError::NegativeSpread,
            ),
            bullets.len() > 0 && spread >= 0 ==> made is Ok && made->Ok_0@ == (StarburstSpec {
                bullets: bullets@,
                num_lines: num_lines as nat,
                spread: spread as int,
                speed_range: (speed_range.0 as int, speed_range.1 as int),
                offset: offset as int,
            }),
    {
        if bullets.len() == 0 {
            Err(PatternError::EmptyBulletList)
        } else if spread < 0 {
            Err(PatternError::NegativeSpread)
        } else {
            Ok(
                Starburst {
                    bullets,
                    num_lines,
                    spread,
                    speed_first: speed_range.0,
                    speed_last: speed_range.1,
                    offset,
                },
            )
        }
    }

    /// Fires one volley from `origin`, centred on `angle` (microradians).
    pub fn fire(&self, origin: Point, angle: i32) -> (volley: Vec<BulletSpawnEvent>)
        ensures
            self@.wf(),
            volley@ == self@.volley(origin, angle as int),
            volley@.len() == self@.bullets.len() * self@.num_lines,
    {
        proof {
            use_type_invariant(self);
        }
        let ghost spec = self@;
        let ghost lines = self.num_lines as int;
        let ranks: usize = self.bullets.len();
        let base: i64 = angle as i64 - (self.spread as i64) / 2 + self.offset as i64;
        let mut volley: Vec<BulletSpawnEvent> = Vec::new();
        let mut rank: usize = 0;
        assert(0 * lines == 0) by (nonlinear_arith);
        while rank < ranks
            invariant
                spec == self@,
                spec.wf(),
                lines == self.num_lines as int,
                ranks == self.bullets.len(),
                rank <= ranks,
                base == angle - spec.spread / 2 + spec.offset,
                volley@ =~= spec.volley_prefix(origin, angle as int, (rank * lines) as nat),
                rank * lines >= 0,
            decreases ranks - rank,
        {
            let speed: i32 = interpolate(self.speed_first, self.speed_last, rank, ranks - 1);
            let bullet_type: BulletType = self.bullets[rank];
            let mut line: usize = 0;
            while line < self.num_lines
                invariant
                    spec == self@,
                    spec.wf(),
                    lines == self.num_lines as int,
                    ranks == self.bullets.len(),
                    rank < ranks,
                    line <= self.num_lines,
                    base == angle - spec.spread / 2 + spec.offset,
                    speed == spec.rank_speed(rank as int),
                    bullet_type == spec.bullets[rank as int],
                    rank * lines >= 0,
                    volley@ =~= spec.volley_prefix(
                        origin,
                        angle as int,
                        (rank * lines + line) as nat,
                    ),
                decreases self.num_lines - line,
            {
                let wide: i128 = self.spread as i128;
                assert(0 <= wide * (line as i128) <= 0x8000_0000 * 0x1_0000_0000_0000_0000)
                    by (nonlinear_arith)
                    requires
                        0 <= wide <= 0x8000_0000,
                        0 <= line <= 0x1_0000_0000_0000_0000,
                ;
                let step: i128 = (wide * (line as i128)) / (self.num_lines as i128);
                assert(0 <= step <= wide) by (nonlinear_arith)
                    requires
                        0 <= wide,
                        0 <= line < lines,
                        step == (wide * line) / lines,
                ;
                let direction: i64 = base + step as i64;
                proof {
                    lemma_fundamental_div_mod_converse(
                        rank * lines + line,
                        lines,
                        rank as int,
                        line as int,
                    );
                }
                volley.push(
                    BulletSpawnEvent {
                        bullet_type,
                        position: origin,
                        movement_pattern: create_straight_line_pattern(direction, speed),
                    },
                );
                line = line + 1;
            }
            assert(rank * lines + lines == (rank + 1) * lines) by (nonlinear_arith);
            rank = rank + 1;
        }
        assert(rank * lines == spec.bullets.len() * spec.num_lines);
        volley
    }
}

/// A volley holds one bullet for each line of each ring, and the ring
/// speeds run from one end of the speed range to the other, both ends
/// included, and never leave the range.
pub proof fn lemma_volley_count_and_speeds(pattern: StarburstSpec, origin: Point, angle: int)
    requires
        pattern.wf(),
    ensures
        pattern.volley(origin, angle).len() == pattern.num_lines * pattern.bullets.len(),
        pattern.rank_speed(0) == pattern.speed_range.0,
        pattern.bullets.len() > 1 ==> pattern.rank_speed(pattern.bullets.len() - 1)
            == pattern.speed_range.1,
        forall|rank: int|
            0 <= rank < pattern.bullets.len() && pattern.speed_range.0 <= pattern.speed_range.1
                ==> pattern.speed_range.0 <= #[trigger] pattern.rank_speed(rank)
                <= pattern.speed_range.1,
        forall|rank: int|
            0 <= rank < pattern.bullets.len() && pattern.speed_range.1 <= pattern.speed_range.0
                ==> pattern.speed_range.1 <= #[trigger] pattern.rank_speed(rank)
                <= pattern.speed_range.0,
        forall|rank: int|
            0 <= rank < pattern.bullets.len() ==> i32::MIN <= #[trigger] pattern.rank_speed(rank)
                <= i32::MAX,
{
    let last = pattern.bullets.len() - 1;
    assert(pattern.num_lines * pattern.bullets.len() == pattern.bullets.len() * pattern.num_lines)
        by (nonlinear_arith);
    if last > 0 {
        crate::geometry::lemma_lerp_endpoints(
            pattern.speed_range.0,
            pattern.speed_range.1,
            last,
        );
    }
    assert forall|rank: int| 0 <= rank < pattern.bullets.len() implies {
        &&& pattern.speed_range.0 <= pattern.speed_range.1 ==> pattern.speed_range.0
            <= #[trigger] pattern.rank_speed(rank) <= pattern.speed_range.1
        &&& pattern.speed_range.1 <= pattern.speed_range.0 ==> pattern.speed_range.1
            <= pattern.rank_speed(rank) <= pattern.speed_range.0
        &&& i32::MIN <= pattern.rank_speed(rank) <= i32::MAX
    } by {
        crate::geometry::lemma_lerp_between(
            pattern.speed_range.0,
            pattern.speed_range.1,
            rank,
            last,
        );
    }
}

/// Bullet `line` of ring `rank` stands at place `rank * num_lines + line`
/// of the volley. It flies straight at the speed of its ring and, where
/// the volley is aimed along an angle that a 32-bit integer holds, along
/// the direction of its line.
pub proof fn lemma_volley_place(
    pattern: StarburstSpec,
    origin: Point,
    angle: int,
    rank: int,
    line: int,
)
    requires
        pattern.wf(),
        0 <= rank < pattern.bullets.len(),
        0 <= line < pattern.num_lines,
    ensures
        0 <= rank * pattern.num_lines + line < pattern.volley(origin, angle).len(),
        pattern.volley(origin, angle)[rank * pattern.num_lines + line] == pattern.event(
            origin,
            angle,
            rank,
            line,
        ),
        pattern.event(origin, angle, rank, line).bullet_type == pattern.bullets[rank],
        pattern.event(origin, angle, rank, line).position == origin,
        pattern.event(origin, angle, rank, line).movement_pattern
            matches MovementPatterns::StraightLinePattern(flight) && flight.speed
            == pattern.rank_speed(rank) && (i32::MIN <= angle <= i32::MAX ==> flight.angle
            == pattern.line_angle(angle, line)),
        angle - pattern.spread / 2 + pattern.offset <= pattern.line_angle(angle, line) <= angle
            + pattern.spread / 2 + pattern.offset,
{
    lemma_volley_count_and_speeds(pattern, origin, angle);
    assert(0 <= (pattern.spread * line) / (pattern.num_lines as int) <= pattern.spread)
        by (nonlinear_arith)
        requires
            0 <= pattern.spread,
            0 <= line < pattern.num_lines,
    ;
    assert(pattern.spread > 0 ==> (pattern.spread * line) / (pattern.num_lines as int)
        < pattern.spread) by (nonlinear_arith)
        requires
            0 <= pattern.spread,
            0 <= line < pattern.num_lines,
    ;
    let lines = pattern.num_lines as int;
    let ranks = pattern.bullets.len() as int;
    assert(0 <= rank * lines + line < ranks * lines) by (nonlinear_arith)
        requires
            0 <= rank < ranks,
            0 <= line < lines,
    ;
    lemma_fundamental_div_mod_converse(rank * lines + line, lines, rank, line);
}

} // verus!
