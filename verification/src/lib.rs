//! A stat aggregation engine for role-playing characters.
//!
//! Each subject (a character or other game entity) owns a block of base
//! attribute values together with a list of externally granted modifiers,
//! and a paired block of computed attribute values. A periodic, externally
//! gated tick drains queued modifier requests, sweeps out modifiers whose
//! granting subject no longer exists, and recomputes every computed block
//! under the stacking rules.

pub mod aggregate;
pub mod engine;
pub mod game_states;
pub mod health;
pub mod rpg_data;
pub mod stats;
pub mod subject;
