//! The hourly defence-force troop rotation: a 30-slot cycle anchored at
//! 2025-05-14 06:00 JST, together with its state and schedule queries.

pub mod army;
pub mod schedule;
pub mod state;
pub mod troop;
