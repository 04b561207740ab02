//! The lives the player has left.

use vstd::prelude::*;

verus! {

/// Number of spare lives at the start of a game.
pub const STARTING_LIFE_COUNT: usize = 2;

/// What the death of the player leads to.
#[derive(Debug, PartialEq, Eq)]
pub enum DeathOutcome<H> {
    /// A spare life is used up; its counter on screen is to be removed.
    LifeLost(H),
    /// No spare life was left: the game is over.
    GameOver,
}

/// The spare lives of the player. Each life is known by the handle `H` of
/// its counter on screen.
#[derive(Debug)]
pub struct PlayerStats<H> {
    pub starting_life_count: usize,
    pub lives: Vec<H>,
}

impl<H> PlayerStats<H> {
    /// Stats with [`STARTING_LIFE_COUNT`] lives to start with and none in
    /// hand yet.
    pub fn new() -> (stats: PlayerStats<H>)
        ensures
            stats.starting_life_count == STARTING_LIFE_COUNT,
            stats.lives@.len() == 0,
    {
        PlayerStats { starting_life_count: STARTING_LIFE_COUNT, lives: Vec::new() }
    }

    /// Starts over with the lives `counters`, which the caller has put on
    /// screen, one for each of the starting lives.
    pub fn reset_player_lives(&mut self, counters: Vec<H>)
        ensures
            final(self).starting_life_count == old(self).starting_life_count,
            final(self).lives@ == counters@,
    {
        self.lives = counters;
    }

    /// Takes the death of the player into account: the life gained last is
    /// used up, or, where none is left, the game is over.
    pub fn listen_for_player_death(&mut self) -> (outcome: DeathOutcome<H>)
        ensures
            final(self).starting_life_count == old(self).starting_life_count,
            old(self).lives@.len() > 0 ==> final(self).lives@ == old(self).lives@.drop_last()
                && outcome == DeathOutcome::LifeLost(old(self).lives@.last()),
            old(self).lives@.len() == 0 ==> final(self).lives@.len() == 0 && outcome
                == DeathOutcome::<H>::GameOver,
    {
        match self.lives.pop() {
            Some(counter) => DeathOutcome::LifeLost(counter),
            None => DeathOutcome::GameOver,
        }
    }
}

} // verus!
