//! A cyclic schedule engine: given an absolute anchor instant, a fixed
//! granularity and a periodic table of entries, it answers which entry is
//! current at a given instant, how long until it changes, and what sequence
//! of distinct entries occurs over an upcoming window.

pub mod ast;
pub mod defence_force;
pub mod entry;
pub mod error;
pub mod eternal_darkness;
pub mod instant;
pub mod levels;
pub mod panigarm;
pub mod period;
pub mod project;
pub mod resolver;
pub mod saint_guardians;
pub mod sinners;
pub mod table;
