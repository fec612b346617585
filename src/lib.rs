//! A process-wide, type-indexed publish/subscribe bus, the labelled channel
//! senders it forwards through, and a running/exit-code tracker.
use vstd::prelude::*;

pub mod bus_model;
pub mod channel_utils;
pub mod draw_command_batcher;
pub mod event_aggregator;
pub mod running_tracker;

verus! {

} // verus!
