//! A terminal front-end for browsing and controlling multiplexer sessions:
//! the key-driven state machine, the listing parser and the fuzzy filter.
use vstd::prelude::*;

pub mod app;
pub mod config;
pub mod display;
pub mod search;
pub mod text;
pub mod tmux;
pub mod types;

verus! {

/// Period of the background refresh, in milliseconds.
pub const TICK_RATE_MS: u64 = 250;

} // verus!
