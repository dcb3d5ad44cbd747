//! Core logic of a timed microgame run: the in-game orchestrator state
//! machine, the microgame queue generator, the top-level screen state
//! machine, and the per-microgame update rules, all over integer-millisecond
//! timers and integer screen coordinates.

pub mod game;
pub mod gameplay;
pub mod main_menu;
pub mod microgames;
mod rng;
