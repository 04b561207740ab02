//! The player: being hit, coming back, and the looks of the sprite.

use vstd::prelude::*;
use crate::countdown::{Countdown, CountdownState};
use crate::game::{FRAME_BORDER_BOTTOM, FRAME_BORDER_LEFT, FRAME_BORDER_RIGHT, FRAME_BORDER_TOP};
use crate::geometry::{over_time, rate_over_time, Point, HALF_PI};
use crate::movement_patterns::Step;
use crate::sprites::AnimationIndices;

verus! {

/// Time between the player's death and return, in nanoseconds.
pub const RESPAWN_TIME: u64 = 500_000_000;

/// Time after the return in which nothing hits the player, in
/// nanoseconds.
pub const INVINCIBILITY_TIME: u64 = 2_000_000_000;

/// Column in which the player comes into play.
pub const PLAYER_START_X: i32 = -128_000;

/// Height at which the player comes into play.
pub const PLAYER_START_Y: i32 = -150_000;

/// Time between two shots of the player, in nanoseconds.
pub const SHOT_INTERVAL: u64 = 100_000_000;

/// The player.
#[derive(Clone, Copy, Debug, PartialEq, Eq, Structural)]
pub struct Player {
    /// Speed, in thousandths of a unit per second.
    pub full_movement_speed: i32,
    /// Speed while focused.
    pub focused_speed: i32,
    /// Radius of the circle in which the player is hit, in thousandths of
    /// a unit.
    pub hit_circle_radius: i32,
}

/// A shot of the player.
#[derive(Clone, Copy, Debug, PartialEq, Eq, Structural)]
pub struct PlayerShot {
    /// Speed, in thousandths of a unit per second.
    pub speed: i32,
    /// Direction, in microradians.
    pub angle: i64,
    /// Hit points a hit takes off.
    pub damage: i32,
}

/// The keys that steer the player.
#[derive(Clone, Copy, Debug, Default, PartialEq, Eq, Structural)]
pub struct Steering {
    pub up: bool,
    pub down: bool,
    pub left: bool,
    pub right: bool,
    /// Whether the player holds the key that slows the flight.
    pub focused: bool,
}

/// The player as the game starts: at the bottom of the middle column.
pub fn spawn_player() -> (spawned: (Player, Point, Countdown))
    ensures
        spawned.0 == (Player {
            full_movement_speed: 200_000,
            focused_speed: 60_000,
            hit_circle_radius: 5_000,
        }),
        spawned.1 == (Point { x: PLAYER_START_X, y: PLAYER_START_Y }),
        spawned.2@ == CountdownState::fresh(SHOT_INTERVAL as nat),
{
    (
        Player { full_movement_speed: 200_000, focused_speed: 60_000, hit_circle_radius: 5_000 },
        Point { x: PLAYER_START_X, y: PLAYER_START_Y },
        Countdown::new(SHOT_INTERVAL),
    )
}

/// The nearest value to `value` that a 32-bit signed integer can hold.
pub open spec fn clamp_i32(value: int) -> int {
    if value < i32::MIN {
        i32::MIN as int
    } else if value > i32::MAX {
        i32::MAX as int
    } else {
        value
    }
}

/// Where a player at `position` is after `delta` nanoseconds of steering.
/// Each key held moves the player its way by the speed over that time, as
/// long as the player has not reached the edge of the playfield on that
/// side when the key is looked at: first up, then down, then left, then
/// right.
pub open spec fn steered(player: Player, position: Point, steering: Steering, delta: nat) -> Point {
    let speed = if steering.focused {
        player.focused_speed
    } else {
        player.full_movement_speed
    };
    let way = over_time(speed as int, delta as int);
    let y1 = if steering.up && position.y < FRAME_BORDER_TOP {
        clamp_i32(position.y + way)
    } else {
        position.y as int
    };
    let y2 = if steering.down && y1 > FRAME_BORDER_BOTTOM {
        clamp_i32(y1 - way)
    } else {
        y1
    };
    let x1 = if steering.left && position.x > FRAME_BORDER_LEFT {
        clamp_i32(position.x - way)
    } else {
        position.x as int
    };
    let x2 = if steering.right && x1 < FRAME_BORDER_RIGHT {
        clamp_i32(x1 + way)
    } else {
        x1
    };
    Point { x: x2 as i32, y: y2 as i32 }
}

fn clamped(value: i128) -> (clamped: i32)
    ensures
        clamped == clamp_i32(value as int),
{
    if value < i32::MIN as i128 {
        i32::MIN
    } else if value > i32::MAX as i128 {
        i32::MAX
    } else {
        value as i32
    }
}

/// Moves the player for `delta` nanoseconds: see [`steered`].
pub fn move_player(player: &Player, position: Point, steering: Steering, delta: u64) -> (moved:
    Point)
    ensures
        moved == steered(*player, position, steering, delta as nat),
{
    let speed: i32 = if steering.focused {
        player.focused_speed
    } else {
        player.full_movement_speed
    };
    let way: i128 = rate_over_time(speed, delta) as i128;
    let mut x: i32 = position.x;
    let mut y: i32 = position.y;
    if steering.up && y < FRAME_BORDER_TOP {
        y = clamped(y as i128 + way);
    }
    if steering.down && y > FRAME_BORDER_BOTTOM {
        y = clamped(y as i128 - way);
    }
    if steering.left && x > FRAME_BORDER_LEFT {
        x = clamped(x as i128 - way);
    }
    if steering.right && x < FRAME_BORDER_RIGHT {
        x = clamped(x as i128 + way);
    }
    Point { x, y }
}

/// Lets `delta` nanoseconds pass for the player's gun and fires if it can:
/// a shot leaves when the time since the last one is up and the trigger
/// is held, and the time starts over. The shot flies straight up.
pub fn fire_shot(shot_timer: &mut Countdown, delta: u64, trigger_held: bool) -> (shot: Option<
    PlayerShot,
>)
    ensures
        old(shot_timer)@.tick(delta as nat).finished && trigger_held ==> final(shot_timer)@ == old(
            shot_timer,
        )@.reset() && shot == Some(
            PlayerShot { speed: 1_000_000, angle: HALF_PI as i64, damage: 1 },
        ),
        !(old(shot_timer)@.tick(delta as nat).finished && trigger_held) ==> final(shot_timer)@
            == old(shot_timer)@.tick(delta as nat) && shot.is_none(),
{
    shot_timer.tick(delta);
    if shot_timer.finished() && trigger_held {
        shot_timer.reset();
        Some(PlayerShot { speed: 1_000_000, angle: HALF_PI as i64, damage: 1 })
    } else {
        None
    }
}

/// Moves a shot for `delta` nanoseconds: its speed over that time, along
/// its angle.
pub fn move_shot(shot: &PlayerShot, delta: u64) -> (step: Step)
    ensures
        step == (Step::Along {
            distance: over_time(shot.speed as int, delta as int) as i64,
            angle: shot.angle,
        }),
{
    Step::Along { distance: rate_over_time(shot.speed, delta), angle: shot.angle }
}

/// Notice that the player died.
#[derive(Clone, Copy, Debug, Default, PartialEq, Eq, Structural)]
pub struct PlayerDeathEvent;

/// Mathematical state of a [`PlayerLife`].
pub enum LifeState {
    /// In play and open to hits.
    Alive,
    /// Out of play until the countdown runs out.
    Respawning(CountdownState),
    /// In play and safe from hits until the countdown runs out.
    Invincible(CountdownState),
}

/// What a tick brought for the player.
#[derive(Clone, Copy, Debug, PartialEq, Eq, Structural)]
pub enum LifeEvent {
    /// Nothing.
    Nothing,
    /// The player is back in play, safe from hits for a while.
    Respawned,
    /// The player is open to hits again.
    InvincibilityOver,
}

impl LifeState {
    /// Validity: the countdowns are valid and still running.
    pub open spec fn wf(self) -> bool {
        match self {
            LifeState::Alive => true,
            LifeState::Respawning(countdown) => countdown.wf() && !countdown.finished,
            LifeState::Invincible(countdown) => countdown.wf() && !countdown.finished,
        }
    }

    /// Whether bullets are checked against the player at all.
    pub open spec fn vulnerable(self) -> bool {
        self is Alive
    }

    /// The state after a bullet touched the player, and whether the player
    /// died of it: only a player open to hits dies, and is then out of
    /// play for [`RESPAWN_TIME`].
    pub open spec fn hit(self) -> (LifeState, bool) {
        if self.vulnerable() {
            (LifeState::Respawning(CountdownState::fresh(RESPAWN_TIME as nat)), true)
        } else {
            (self, false)
        }
    }

    /// The state after `delta` nanoseconds, and what they brought.
    pub open spec fn tick(self, delta: nat) -> (LifeState, LifeEvent) {
        match self {
            LifeState::Alive => (self, LifeEvent::Nothing),
            LifeState::Respawning(countdown) => if countdown.tick(delta).just_finished {
                (
                    LifeState::Invincible(CountdownState::fresh(INVINCIBILITY_TIME as nat)),
                    LifeEvent::Respawned,
                )
            } else {
                (LifeState::Respawning(countdown.tick(delta)), LifeEvent::Nothing)
            },
            LifeState::Invincible(countdown) => if countdown.tick(delta).just_finished {
                (LifeState::Alive, LifeEvent::InvincibilityOver)
            } else {
                (LifeState::Invincible(countdown.tick(delta)), LifeEvent::Nothing)
            },
        }
    }
}

/// Whether the player is in play, on the way back, or safe from hits.
#[derive(Clone, Copy, Debug)]
pub enum PlayerLife {
    Alive,
    Respawning(Countdown),
    Invincible(Countdown),
}

impl View for PlayerLife {
    type V = LifeState;

    open spec fn view(&self) -> LifeState {
        match *self {
            PlayerLife::Alive => LifeState::Alive,
            PlayerLife::Respawning(countdown) => LifeState::Respawning(countdown@),
            PlayerLife::Invincible(countdown) => LifeState::Invincible(countdown@),
        }
    }
}

/// Whether bullets are to be checked against the player on this frame:
/// not while the player is out of play or safe from hits.
pub fn is_vulnerable(life: &PlayerLife) -> (vulnerable: bool)
    ensures
        vulnerable == life@.vulnerable(),
{
    match life {
        PlayerLife::Alive => true,
        _ => false,
    }
}

/// Decides what a bullet that touches the player does. A player open to
/// hits dies: the player and the bullet are to be removed, the death is
/// to be announced, and the return is due after [`RESPAWN_TIME`]. Any
/// other player is left alone, and so is the bullet.
pub fn check_bullet_player_collision(life: &mut PlayerLife) -> (death: Option<PlayerDeathEvent>)
    ensures
        final(life)@ == old(life)@.hit().0,
        death.is_some() == old(life)@.hit().1,
{
    if is_vulnerable(life) {
        *life = PlayerLife::Respawning(Countdown::new(RESPAWN_TIME));
        Some(PlayerDeathEvent)
    } else {
        None
    }
}

/// Lets `delta` nanoseconds pass for the player: a player on the way
/// back returns when the time is up and is then safe from hits for
/// [`INVINCIBILITY_TIME`]; a player safe from hits is open to them again
/// when that time is up.
pub fn respawn_player(life: &mut PlayerLife, delta: u64) -> (event: LifeEvent)
    ensures
        (final(life)@, event) == old(life)@.tick(delta as nat),
{
    match life {
        PlayerLife::Alive => LifeEvent::Nothing,
        PlayerLife::Respawning(countdown) => {
            countdown.tick(delta);
            if countdown.just_finished() {
                *life = PlayerLife::Invincible(Countdown::new(INVINCIBILITY_TIME));
                LifeEvent::Respawned
            } else {
                LifeEvent::Nothing
            }
        },
        PlayerLife::Invincible(countdown) => {
            countdown.tick(delta);
            if countdown.just_finished() {
                *life = PlayerLife::Alive;
                LifeEvent::InvincibilityOver
            } else {
                LifeEvent::Nothing
            }
        },
    }
}

/// Picks the looks of the player's sprite from the keys held: flying left
/// or right shows the frames four to seven, mirrored when flying right;
/// anything else, both keys together too, shows the frames nought to
/// three. The result says whether the sprite is mirrored.
pub fn switch_player_sprite(left_pressed: bool, right_pressed: bool, indices: &mut AnimationIndices) -> (flip_x:
    bool)
    ensures
        flip_x == (right_pressed && !left_pressed),
        final(indices).next_first == old(indices).next_first,
        final(indices).next_last == old(indices).next_last,
        left_pressed != right_pressed ==> final(indices).first == 4 && final(indices).last == 7,
        left_pressed == right_pressed ==> final(indices).first == 0 && final(indices).last == 3,
{
    if left_pressed && !right_pressed {
        indices.first = 4;
        indices.last = 7;
        false
    } else if right_pressed && !left_pressed {
        indices.first = 4;
        indices.last = 7;
        true
    } else {
        indices.first = 0;
        indices.last = 3;
        false
    }
}

/// While the player is out of play or safe from hits, no bullet kills:
/// a touch changes nothing.
pub proof fn lemma_no_death_while_safe(life: LifeState)
    requires
        !life.vulnerable(),
    ensures
        life.hit() == (life, false),
{
}

/// A tick keeps a valid state valid.
pub proof fn lemma_tick_keeps_valid(life: LifeState, delta: nat)
    requires
        life.wf(),
    ensures
        life.tick(delta).0.wf(),
        life.hit().0.wf(),
{
}

} // verus!
