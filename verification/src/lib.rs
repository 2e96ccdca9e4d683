//! A small badge-based access-control registry: a roster of enrolled people,
//! each holding a hashed secret code, with a gate-check state machine that
//! locks a record after repeated failures and unlocks it through a
//! secret-question challenge.

pub mod clock;
pub mod controller;
pub mod export;
pub mod hashing;
pub mod record;
pub mod roster;
pub mod text;
