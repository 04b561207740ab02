//! The fight against Rumia: two spellcards, one after the other.

pub mod spell1;
pub mod spell2;

use vstd::prelude::*;
use crate::bosses::boss::BossSpawner;
use crate::bosses::boss_health_bar::{
    spawn_boss_health_bar,
    BossHealthBar,
    HealthBarState,
    BOSS_HEALTH,
};
use crate::bosses::rumia::spell1::Spell1State;
use crate::bosses::rumia::spell2::Spell2State;
use crate::countdown::{Countdown, CountdownState};
use crate::enemy::EnemyType;
use crate::geometry::Point;
use crate::level1::FirstLevelState;
use crate::movement_patterns::{is_finished, DontMove, MovementPatterns};
use crate::spawns::{SpawnTimer, SPAWN_CENTER, SPAWN_TOP};

verus! {

/// Where the fight stands.
#[derive(Clone, Copy, Debug, Default, PartialEq, Eq, Structural)]
pub enum RumiaState {
    #[default]
    Inactive,
    Spell1,
    Spell2,
    Complete,
}

/// The states of the fight and of its two spellcards, taken together.
#[derive(Clone, Copy, Debug, Default, PartialEq, Eq, Structural)]
pub struct FightState {
    pub rumia: RumiaState,
    pub spell1: Spell1State,
    pub spell2: Spell2State,
}

impl FightState {
    /// Validity: a spellcard is active only while the fight is in it.
    pub open spec fn wf(self) -> bool {
        &&& self.spell1 != Spell1State::Inactive ==> self.rumia == RumiaState::Spell1
        &&& self.spell2 != Spell2State::Inactive ==> self.rumia == RumiaState::Spell2
    }

    /// The states after the fight has gone to `next`: the spellcard the
    /// fight leaves becomes inactive, and the one it enters starts. Going
    /// to the state the fight is in changes nothing.
    pub open spec fn with_rumia(self, next: RumiaState) -> FightState {
        if next == self.rumia {
            self
        } else {
            FightState {
                rumia: next,
                spell1: if next == RumiaState::Spell1 {
                    Spell1State::Phase1
                } else {
                    Spell1State::Inactive
                },
                spell2: if next == RumiaState::Spell2 {
                    Spell2State::MoveToPhase1
                } else {
                    Spell2State::Inactive
                },
            }
        }
    }

    /// The states after the first spellcard has gone to `next`: only a
    /// fight that is in the first spellcard lets it go anywhere but to
    /// inactive.
    pub open spec fn with_spell1(self, next: Spell1State) -> FightState {
        if self.rumia == RumiaState::Spell1 || next == Spell1State::Inactive {
            FightState { spell1: next, ..self }
        } else {
            self
        }
    }

    /// The states after the second spellcard has gone to `next`: only a
    /// fight that is in the second spellcard lets it go anywhere but to
    /// inactive.
    pub open spec fn with_spell2(self, next: Spell2State) -> FightState {
        if self.rumia == RumiaState::Spell2 || next == Spell2State::Inactive {
            FightState { spell2: next, ..self }
        } else {
            self
        }
    }
}

/// Keeps the state of the fight and of its spellcards in step: whenever
/// the fight leaves a spellcard, that spellcard is inactive again.
#[derive(Clone, Copy, Debug)]
pub struct RumiaFight {
    states: FightState,
}

impl View for RumiaFight {
    type V = FightState;

    closed spec fn view(&self) -> FightState {
        self.states
    }
}

impl RumiaFight {
    /// Every fight is valid.
    #[verifier::type_invariant]
    pub open spec fn inv(self) -> bool {
        self@.wf()
    }

    /// A fight that has not begun.
    pub fn new() -> (fight: RumiaFight)
        ensures
            fight@ == (FightState {
                rumia: RumiaState::Inactive,
                spell1: Spell1State::Inactive,
                spell2: Spell2State::Inactive,
            }),
    {
        RumiaFight {
            states: FightState {
                rumia: RumiaState::Inactive,
                spell1: Spell1State::Inactive,
                spell2: Spell2State::Inactive,
            },
        }
    }

    /// The states as they stand.
    pub fn states(&self) -> (states: FightState)
        ensures
            states == self@,
            states.wf(),
    {
        proof {
            use_type_invariant(self);
        }
        self.states
    }

    /// The fight goes to `next`.
    pub fn set_rumia_state(&mut self, next: RumiaState)
        ensures
            final(self)@ == old(self)@.with_rumia(next),
            final(self)@.wf(),
    {
        proof {
            use_type_invariant(&*self);
        }
        if next != self.states.rumia {
            let spell1: Spell1State = match next {
                RumiaState::Spell1 => Spell1State::Phase1,
                _ => Spell1State::Inactive,
            };
            let spell2: Spell2State = match next {
                RumiaState::Spell2 => Spell2State::MoveToPhase1,
                _ => Spell2State::Inactive,
            };
            self.states = FightState { rumia: next, spell1, spell2 };
        }
    }

    /// The first spellcard goes to `next`, if the fight allows it.
    pub fn set_spell1_state(&mut self, next: Spell1State)
        ensures
            final(self)@ == old(self)@.with_spell1(next),
            final(self)@.wf(),
    {
        proof {
            use_type_invariant(&*self);
        }
        if self.states.rumia == RumiaState::Spell1 || next == Spell1State::Inactive {
            self.states = FightState { spell1: next, ..self.states };
        }
    }

    /// The second spellcard goes to `next`, if the fight allows it.
    pub fn set_spell2_state(&mut self, next: Spell2State)
        ensures
            final(self)@ == old(self)@.with_spell2(next),
            final(self)@.wf(),
    {
        proof {
            use_type_invariant(&*self);
        }
        if self.states.rumia == RumiaState::Spell2 || next == Spell2State::Inactive {
            self.states = FightState { spell2: next, ..self.states };
        }
    }
}

/// What is to be removed from the scene.
#[derive(Clone, Copy, Debug, PartialEq, Eq, Structural)]
pub struct Removal {
    /// Everything a spellcard has brought into play: its emitters, its
    /// timers, its health bar and the bullets.
    pub spellcard: bool,
    /// The boss.
    pub boss: bool,
}

/// What a change of the fight's state asks of the scene.
#[derive(Clone, Copy, Debug)]
pub struct FightTransition {
    /// Everything the spellcard that ends has brought into play, its
    /// emitters, its timers, its health bar and its bullets, is to be
    /// removed.
    pub despawn_spellcard: bool,
    /// The boss is to be removed.
    pub despawn_boss: bool,
    /// The health bar the boss starts the new state with, if it gets one.
    pub health_bar: Option<BossHealthBar>,
    /// The state the level goes to, if it changes.
    pub level: Option<FirstLevelState>,
    /// The state the fight goes on to at once, if it does not stay.
    pub follow_up: Option<RumiaState>,
}

impl FightState {
    /// Whether going to `next` ends a spellcard.
    pub open spec fn ends_spellcard(self, next: RumiaState) -> bool {
        next != self.rumia && (self.rumia == RumiaState::Spell1 || self.rumia
            == RumiaState::Spell2)
    }

    /// Whether `transition` is what going to `next` asks for.
    ///
    /// Going to the state the fight is in asks for nothing. Leaving a
    /// spellcard removes what it brought into play. The first spellcard
    /// starts with a full health bar; the second gets its own when its
    /// phase begins. A fight that is complete sends the level on and goes
    /// inactive at once, and an inactive fight removes the boss and
    /// whatever is left of the spellcards.
    pub open spec fn asks(self, next: RumiaState, transition: FightTransition) -> bool {
        let changed = next != self.rumia;
        &&& transition.despawn_spellcard == (self.ends_spellcard(next) || (changed && next
            == RumiaState::Inactive))
        &&& transition.despawn_boss == (changed && next == RumiaState::Inactive)
        &&& transition.health_bar is Some == (changed && next == RumiaState::Spell1)
        &&& transition.health_bar matches Some(bar) ==> bar@ == (HealthBarState {
            current: BOSS_HEALTH as int,
            maximum: BOSS_HEALTH as int,
        })
        &&& transition.level == if changed && next == RumiaState::Complete {
            Some(FirstLevelState::PostRumia)
        } else {
            None
        }
        &&& transition.follow_up == if changed && next == RumiaState::Complete {
            Some(RumiaState::Inactive)
        } else {
            None
        }
    }
}

/// Takes the fight to `next` and says what that asks of the scene: see
/// [`FightState::with_rumia`] and [`FightState::asks`].
pub fn enter_rumia_state(fight: &mut RumiaFight, next: RumiaState) -> (transition: FightTransition)
    ensures
        final(fight)@ == old(fight)@.with_rumia(next),
        final(fight)@.wf(),
        old(fight)@.asks(next, transition),
{
    let before: RumiaState = fight.states().rumia;
    fight.set_rumia_state(next);
    let changed: bool = before != next;
    let was_spellcard: bool = match before {
        RumiaState::Spell1 | RumiaState::Spell2 => true,
        _ => false,
    };
    let inactive: bool = changed && next == RumiaState::Inactive;
    let complete: bool = changed && next == RumiaState::Complete;
    FightTransition {
        despawn_spellcard: (changed && was_spellcard) || inactive,
        despawn_boss: inactive,
        health_bar: if changed && next == RumiaState::Spell1 {
            Some(spawn_boss_health_bar())
        } else {
            None
        },
        level: if complete {
            Some(transition_out_of_fight().0)
        } else {
            None
        },
        follow_up: if complete {
            Some(transition_out_of_fight().1)
        } else {
            None
        },
    }
}

/// Whatever the fight and its spellcards are asked to do, a spellcard
/// that the fight is not in stays inactive.
pub proof fn lemma_no_spellcard_outlives_its_turn(states: FightState, next: RumiaState)
    requires
        states.wf(),
    ensures
        states.with_rumia(next).wf(),
        next != RumiaState::Spell1 ==> states.with_rumia(next).spell1 == Spell1State::Inactive,
        next != RumiaState::Spell2 ==> states.with_rumia(next).spell2 == Spell2State::Inactive,
        forall|spell1: Spell1State| (#[trigger] states.with_spell1(spell1)).wf(),
        forall|spell2: Spell2State| (#[trigger] states.with_spell2(spell2)).wf(),
{
}

/// What the orchestrator asks for on one frame.
#[derive(Debug)]
pub struct Orchestration {
    /// The state the fight is to go to, if any.
    pub next_state: Option<RumiaState>,
    /// The places, in the list of health bars, of those to remove.
    pub despawned: Vec<usize>,
}

impl RumiaState {
    /// The spellcard, or the end of the fight, that follows a spellcard
    /// whose health is gone.
    pub open spec fn after_spellcard(self) -> Option<RumiaState> {
        match self {
            RumiaState::Spell1 => Some(RumiaState::Spell2),
            RumiaState::Spell2 => Some(RumiaState::Complete),
            _ => None,
        }
    }
}

/// Whether at least one of `health_bars` has no health left.
pub open spec fn any_depleted(health_bars: Seq<BossHealthBar>) -> bool {
    exists|i: int| 0 <= i < health_bars.len() && (#[trigger] health_bars[i])@.depleted()
}

/// What brings Rumia into play: a spawner at the top of the middle
/// column, due at once.
pub fn rumia_setup() -> (spawn: (BossSpawner, SpawnTimer))
    ensures
        spawn.0.name == "Rumia",
        spawn.0.enemy_type == EnemyType::Rumia,
        spawn.0.starting_position == (Point { x: SPAWN_CENTER, y: SPAWN_TOP }),
        spawn.0.movement_pattern == MovementPatterns::DontMovePattern(DontMove),
        spawn.1.0@ == CountdownState::fresh(0),
{
    (
        BossSpawner {
            name: "Rumia",
            enemy_type: EnemyType::Rumia,
            starting_position: Point { x: SPAWN_CENTER, y: SPAWN_TOP },
            movement_pattern: MovementPatterns::DontMovePattern(DontMove),
        },
        SpawnTimer(Countdown::new(0)),
    )
}

/// Decides, once per frame, where the fight goes.
///
/// While the fight is inactive, the first spellcard is asked for as soon
/// as the movement pattern of a boss in play (`boss_movement`) is
/// finished. During a spellcard, every health bar without health left is
/// picked for removal, and if there is one the next spellcard, or after
/// the second the end of the fight, is asked for. In any other case
/// nothing is asked for and nothing removed.
pub fn rumia_orchestrator(
    rumia_state: RumiaState,
    boss_movement: Option<&MovementPatterns>,
    health_bars: &Vec<BossHealthBar>,
) -> (orchestration: Orchestration)
    ensures
        orchestration.next_state == match rumia_state {
            RumiaState::Inactive => if boss_movement matches Some(pattern) && pattern.finished() {
                Some(RumiaState::Spell1)
            } else {
                None
            },
            RumiaState::Complete => None,
            _ => if any_depleted(health_bars@) {
                rumia_state.after_spellcard()
            } else {
                None
            },
        },
        forall|k: int|
            0 <= k < orchestration.despawned@.len() ==> (#[trigger] orchestration.despawned@[k])
                < health_bars@.len() && health_bars@[orchestration.despawned@[k] as int]@.depleted(),
        forall|j: int, k: int|
            0 <= j < k < orchestration.despawned@.len() ==> (#[trigger] orchestration.despawned@[j])
                < (#[trigger] orchestration.despawned@[k]),
        forall|i: int|
            0 <= i < health_bars@.len() && (#[trigger] health_bars@[i])@.depleted() && (rumia_state
                == RumiaState::Spell1 || rumia_state == RumiaState::Spell2)
                ==> orchestration.despawned@.contains(i as usize),
        rumia_state == RumiaState::Inactive || rumia_state == RumiaState::Complete
            ==> orchestration.despawned@.len() == 0,
{
    let mut despawned: Vec<usize> = Vec::new();
    match rumia_state {
        RumiaState::Inactive => {
            let arrived: bool = match boss_movement {
                Some(pattern) => is_finished(pattern),
                None => false,
            };
            Orchestration {
                next_state: if arrived {
                    Some(RumiaState::Spell1)
                } else {
                    None
                },
                despawned,
            }
        },
        RumiaState::Complete => Orchestration { next_state: None, despawned },
        _ => {
            let mut index: usize = 0;
            while index < health_bars.len()
                invariant
                    index <= health_bars.len(),
                    forall|k: int| 0 <= k < despawned@.len() ==> (#[trigger] despawned@[k]) < index,
                    forall|k: int|
                        0 <= k < despawned@.len() ==> health_bars@[(
                        #[trigger] despawned@[k]) as int]@.depleted(),
                    forall|j: int, k: int|
                        0 <= j < k < despawned@.len() ==> (#[trigger] despawned@[j]) < (
                        #[trigger] despawned@[k]),
                    forall|i: int|
                        0 <= i < index && (#[trigger] health_bars@[i])@.depleted()
                            ==> despawned@.contains(i as usize),
                decreases health_bars.len() - index,
            {
                if health_bars[index].is_depleted() {
                    let ghost before = despawned@;
                    despawned.push(index);
                    proof {
                        assert(despawned@[before.len() as int] == index);
                        assert forall|i: int|
                            0 <= i < index + 1 && (
                            #[trigger] health_bars@[i])@.depleted() implies despawned@.contains(
                            i as usize,
                        ) by {
                            if i < index {
                                assert(before.contains(i as usize));
                                let k = choose|k: int|
                                    0 <= k < before.len() && before[k] == i as usize;
                                assert(despawned@[k] == i as usize);
                            }
                        }
                    }
                }
                index = index + 1;
            }
            let found: bool = despawned.len() > 0;
            proof {
                if found {
                    assert(health_bars@[despawned@[0] as int]@.depleted());
                } else {
                    assert forall|i: int| 0 <= i < health_bars@.len() implies !(
                    #[trigger] health_bars@[i])@.depleted() by {
                        if health_bars@[i]@.depleted() {
                            assert(despawned@.contains(i as usize));
                        }
                    }
                }
            }
            let next_state: Option<RumiaState> = if found {
                match rumia_state {
                    RumiaState::Spell1 => Some(RumiaState::Spell2),
                    _ => Some(RumiaState::Complete),
                }
            } else {
                None
            };
            Orchestration { next_state, despawned }
        },
    }
}

/// What follows the end of the fight: the level goes on past Rumia, and
/// the fight becomes inactive.
pub fn transition_out_of_fight() -> (next: (FirstLevelState, RumiaState))
    ensures
        next == (FirstLevelState::PostRumia, RumiaState::Inactive),
{
    (FirstLevelState::PostRumia, RumiaState::Inactive)
}

/// Ends the fight, whatever state it is in: the fight and both
/// spellcards go inactive, and the boss is to be removed together with
/// everything the spellcards have brought into play.
pub fn rumia_cleanup(fight: &mut RumiaFight) -> (removal: Removal)
    ensures
        final(fight)@ == (FightState {
            rumia: RumiaState::Inactive,
            spell1: Spell1State::Inactive,
            spell2: Spell2State::Inactive,
        }),
        removal == (Removal { spellcard: true, boss: true }),
{
    proof {
        use_type_invariant(&*fight);
    }
    fight.set_rumia_state(RumiaState::Inactive);
    Removal { spellcard: true, boss: true }
}

} // verus!
