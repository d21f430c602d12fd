//! Keyboard chatter (switch bounce) filtering for Linux input events,
//! together with the statistics that describe what was filtered.

pub mod cli;
pub mod config;
pub mod duration;
pub mod event;
pub mod filter;
pub mod laws;
pub mod logger;
pub mod pipeline;
pub mod sums;
pub mod text;

use vstd::prelude::*;

verus! {

} // verus!
