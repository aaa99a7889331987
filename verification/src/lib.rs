//! Reconciliation logic for a bus object mapper: classify directory-service
//! RPC outcomes, drive notification listeners as state machines, and race
//! them until a condition about a remote object is proved or refuted.
//!
//! All bus I/O lives outside this crate; callers hand the plain outcomes of
//! their RPC calls and subscription events to the functions here and perform
//! whatever action the returned decision asks for.

pub mod checker;
pub mod commands;
pub mod errors;
pub mod listener;
pub mod outcome;
pub mod race;
