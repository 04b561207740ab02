//! A cone of bullets, each with a direction and a speed drawn at random.

use vstd::prelude::*;
use rand::Rng;
use crate::bullet::{BulletSpawnEvent, BulletType};
use crate::bullet_patterns::PatternError;
use crate::geometry::Point;
use crate::movement_patterns::straight_line::{create_straight_line_pattern, StraightLine};
use crate::movement_patterns::MovementPatterns;

verus! {

/// Mathematical content of a [`Shotgun`].
pub struct ShotgunSpec {
    /// One bullet per entry.
    pub bullets: Seq<BulletType>,
    /// Width of the cone, in microradians.
    pub spread: int,
    /// Lowest and highest speed.
    pub speed_range: (int, int),
}

impl ShotgunSpec {
    /// Validity: at least one bullet, a cone that is not negative, and a
    /// speed range whose low end is not above its high end.
    pub open spec fn wf(self) -> bool {
        &&& self.bullets.len() > 0
        &&& self.spread >= 0
        &&& self.speed_range.0 <= self.speed_range.1
    }

    /// Lowest direction a bullet may take around `angle`.
    pub open spec fn low_edge(self, angle: int) -> int {
        angle - self.spread / 2
    }

    /// Highest direction a bullet may take around `angle`.
    pub open spec fn high_edge(self, angle: int) -> int {
        angle + self.spread / 2
    }

    /// Bullet `index` of a volley, once its direction and speed are drawn.
    pub open spec fn event(self, origin: Point, index: int, direction: i64, speed: i32) -> BulletSpawnEvent {
        BulletSpawnEvent {
            bullet_type: self.bullets[index],
            position: origin,
            movement_pattern: MovementPatterns::StraightLinePattern(
                StraightLine { angle: direction, speed },
            ),
        }
    }

    /// Whether `event` can be bullet `index` of a volley fired from
    /// `origin` around `angle`: it has that bullet's type, starts at the
    /// origin and flies straight, within the cone and the speed range.
    pub open spec fn admits(self, origin: Point, angle: int, index: int, event: BulletSpawnEvent) -> bool {
        exists|direction: i64, speed: i32|
            {
                &&& self.low_edge(angle) <= direction <= self.high_edge(angle)
                &&& self.speed_range.0 <= speed <= self.speed_range.1
                &&& event == #[trigger] self.event(origin, index, direction, speed)
            }
    }

    /// Whether `volley` can come out of firing from `origin` around
    /// `angle`: one admitted bullet per entry of the bullet list, in order.
    pub open spec fn admits_volley(self, origin: Point, angle: int, volley: Seq<BulletSpawnEvent>) -> bool {
        &&& volley.len() == self.bullets.len()
        &&& forall|index: int|
            0 <= index < volley.len() ==> self.admits(origin, angle, index, #[trigger] volley[index])
    }
}

/// Bullets scattered at random inside a cone.
#[derive(Debug)]
pub struct Shotgun {
    bullets: Vec<BulletType>,
    spread: i32,
    speed_low: i32,
    speed_high: i32,
}

impl View for Shotgun {
    type V = ShotgunSpec;

    closed spec fn view(&self) -> ShotgunSpec {
        ShotgunSpec {
            bullets: self.bullets@,
            spread: self.spread as int,
            speed_range: (self.speed_low as int, self.speed_high as int),
        }
    }
}

/// Draws a whole number between `low` and `high`, both included.
///
/// Calls `rand::Rng::random_range` on the thread's generator, `rand::rng()`,
/// with the inclusive range `low..=high`. That call panics on an empty
/// range, which `low <= high` rules out, and returns a value of the range.
/// Which value is a matter of chance: nothing more is claimed. (The
/// generator itself gives up only where the system has no seed for it.)
#[verifier::external_body]
fn random_between(low: i64, high: i64) -> (drawn: i64)
    requires
        low <= high,
    ensures
        low <= drawn <= high,
{
    rand::rng().random_range(low..=high)
}

impl Shotgun {
    /// Every shotgun is valid.
    #[verifier::type_invariant]
    pub open spec fn inv(self) -> bool {
        self@.wf()
    }

    /// A shotgun that fires one bullet for each entry of `bullets`, within
    /// `spread` microradians around its target and with speeds inside
    /// `speed_range`.
    ///
    /// An empty list of bullets, a negative spread and a speed range whose
    /// ends are the wrong way round are refused, in this order.
    pub fn new(bullets: Vec<BulletType>, spread: i32, speed_range: (i32, i32)) -> (made: Result<
        Shotgun,
        PatternError,
    >)
        ensures
            bullets.len() == 0 ==> made == Err::<Shotgun, PatternError>(
                PatternError::EmptyBulletList,
            ),
            bullets.len() > 0 && spread < 0 ==> made == Err::<Shotgun, PatternError>(
                PatternError::NegativeSpread,
            ),
            bullets.len() > 0 && spread >= 0 && speed_range.0 > speed_range.1 ==> made == Err::<
                Shotgun,
                PatternError,
            >(PatternError::InvertedSpeedRange),
            bullets.len() > 0 && spread >= 0 && speed_range.0 <= speed_range.1 ==> made is Ok
                && made->Ok_0@ == (ShotgunSpec {
                bullets: bullets@,
                spread: spread as int,
                speed_range: (speed_range.0 as int, speed_range.1 as int),
            }),
    {
        if bullets.len() == 0 {
            Err(PatternError::EmptyBulletList)
        } else if spread < 0 {
            Err(PatternError::NegativeSpread)
        } else if speed_range.0 > speed_range.1 {
            Err(PatternError::InvertedSpeedRange)
        } else {
            Ok(Shotgun { bullets, spread, speed_low: speed_range.0, speed_high: speed_range.1 })
        }
    }

    /// Bullet `index` of a volley with the drawn `direction` and `speed`.
    pub fn shot(&self, origin: Point, index: usize, direction: i64, speed: i32) -> (event:
        BulletSpawnEvent)
        requires
            index < self@.bullets.len(),
        ensures
            event == self@.event(origin, index as int, direction, speed),
    {
        BulletSpawnEvent {
            bullet_type: self.bullets[index],
            position: origin,
            movement_pattern: create_straight_line_pattern(direction, speed),
        }
    }

    /// Fires one volley from `origin` around `angle` (microradians): for
    /// each bullet a direction is drawn from the cone and a speed from the
    /// speed range, both ends included.
    pub fn fire(&self, origin: Point, angle: i32) -> (volley: Vec<BulletSpawnEvent>)
        ensures
            self@.admits_volley(origin, angle as int, volley@),
    {
        proof {
            use_type_invariant(self);
        }
        let half: i64 = (self.spread as i64) / 2;
        let low: i64 = angle as i64 - half;
        let high: i64 = angle as i64 + half;
        let mut volley: Vec<BulletSpawnEvent> = Vec::new();
        let mut index: usize = 0;
        while index < self.bullets.len()
            invariant
                self@.wf(),
                index <= self.bullets.len(),
                self.bullets@ == self@.bullets,
                low == self@.low_edge(angle as int),
                high == self@.high_edge(angle as int),
                low <= high,
                volley@.len() == index,
                forall|i: int|
                    0 <= i < index ==> self@.admits(origin, angle as int, i, #[trigger] volley@[i]),
            decreases self.bullets.len() - index,
        {
            let direction: i64 = random_between(low, high);
            let drawn: i64 = random_between(self.speed_low as i64, self.speed_high as i64);
            let speed: i32 = drawn as i32;
            let event: BulletSpawnEvent = self.shot(origin, index, direction, speed);
            assert(self@.admits(origin, angle as int, index as int, event));
            volley.push(event);
            index = index + 1;
        }
        volley
    }
}

/// Every bullet of a shotgun volley flies within half the spread of the
/// target angle and within the speed range, and there is one bullet per
/// entry of the bullet list.
pub proof fn lemma_volley_within_bounds(
    pattern: ShotgunSpec,
    origin: Point,
    angle: int,
    volley: Seq<BulletSpawnEvent>,
    index: int,
)
    requires
        pattern.admits_volley(origin, angle, volley),
        0 <= index < volley.len(),
    ensures
        volley.len() == pattern.bullets.len(),
        volley[index].bullet_type == pattern.bullets[index],
        volley[index].position == origin,
        volley[index].movement_pattern matches MovementPatterns::StraightLinePattern(line)
            && angle - pattern.spread / 2 <= line.angle <= angle + pattern.spread / 2
            && pattern.speed_range.0 <= line.speed <= pattern.speed_range.1,
{
    assert(pattern.admits(origin, angle, index, volley[index]));
}

} // verus!
