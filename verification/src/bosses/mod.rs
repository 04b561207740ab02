//! Bosses: their health and the state machines of their spellcards.

pub mod boss;
pub mod boss_health_bar;
pub mod rumia;
